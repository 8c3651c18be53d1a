use hvboot::dispatch::handle_mmu_fault;
use hvboot::mmio::{Emitted, Mmio, MmioController, MmioError};
use hvboot::pl011_uart::{Controller, UART01X_FR, UARTDR};
use hvboot::vcpu::VcpuState;

const UART: u64 = 0x4100_0000;
const PAGE: u64 = 0x4000;

fn data_abort(reg: u64, write: bool) -> u64 {
    (36 << 26) | (reg << 16) | if write { 1 << 6 } else { 0 }
}

fn console() -> Mmio<Controller> {
    let mut mmio = Mmio::new();
    assert_eq!(mmio.register(UART, PAGE, Controller), Ok(()));
    mmio
}

#[test]
fn uart_reads_and_writes() {
    let mut c = Controller;
    let mut out = Vec::new();
    assert_eq!(c.read(UART01X_FR), Some(0));
    assert_eq!(c.read(UARTDR), None);
    assert_eq!(c.write(UARTDR, 0x41, &mut out), Some(0x41));
    assert_eq!(c.write(UART01X_FR, 0x41, &mut out), None);
    assert_eq!(c.write(UARTDR, 0xd800, &mut out), Some(0xd800));
    assert_eq!(out, vec![Emitted::Char('A'), Emitted::NonChar(0xd800)]);
}

#[test]
fn uart_decodes_low_32_bits() {
    let mut c = Controller;
    let mut out = Vec::new();
    assert_eq!(c.write(UARTDR, (1 << 32) | 0xe9, &mut out), Some((1 << 32) | 0xe9));
    assert_eq!(out, vec![Emitted::Char('\u{e9}')]);
}

#[test]
fn register_rejects_overlap_and_bad_ranges() {
    let mut mmio = console();
    assert_eq!(mmio.register(UART + PAGE - 1, 0x10, Controller), Err(MmioError::Overlap));
    assert_eq!(mmio.register(UART - 0x10, 0x11, Controller), Err(MmioError::Overlap));
    assert_eq!(mmio.register(0x1000, 0, Controller), Err(MmioError::EmptyRange));
    assert_eq!(mmio.register(u64::MAX, 1, Controller), Err(MmioError::AddressOverflow));
    assert_eq!(mmio.periphery.len(), 1);
    assert_eq!(mmio.register(UART + PAGE, PAGE, Controller), Ok(()));
    assert_eq!(mmio.periphery.len(), 2);
}

#[test]
fn find_controller_by_range() {
    let mut mmio = console();
    assert_eq!(mmio.register(UART - PAGE, PAGE, Controller), Ok(()));
    assert_eq!(mmio.find_controller(UART), Some(0));
    assert_eq!(mmio.find_controller(UART + PAGE - 1), Some(0));
    assert_eq!(mmio.find_controller(UART + PAGE), None);
    assert_eq!(mmio.find_controller(UART - 1), Some(1));
    assert_eq!(mmio.find_controller(0), None);
}

#[test]
fn mmio_write_of_a_emits_a() {
    let mut mmio = console();
    let mut state = VcpuState::new();
    state.x[2] = 0x41;
    let mut out = Vec::new();
    let handled = handle_mmu_fault(&mut state, &mut mmio, UART + UARTDR, data_abort(2, true), &mut out);
    assert!(handled);
    assert_eq!(out, vec![Emitted::Char('A')]);
    assert_eq!(state.x[2], 0x41);
}

#[test]
fn mmio_unknown_offset_is_unhandled() {
    let mut mmio = console();
    let mut state = VcpuState::new();
    state.x[2] = 0x41;
    let mut out = Vec::new();
    assert!(!handle_mmu_fault(&mut state, &mut mmio, UART + 0x8, data_abort(2, true), &mut out));
    assert!(!handle_mmu_fault(&mut state, &mut mmio, UART + 0x8, data_abort(2, false), &mut out));
    assert!(out.is_empty());
}

#[test]
fn mmio_outside_every_device_is_unhandled() {
    let mut mmio = console();
    let mut state = VcpuState::new();
    let mut out = Vec::new();
    assert!(!handle_mmu_fault(&mut state, &mut mmio, 0x8000_0000, data_abort(1, true), &mut out));
    assert!(!handle_mmu_fault(&mut state, &mut mmio, 0x8000_0000, data_abort(1, false), &mut out));
    assert!(out.is_empty());
}

#[test]
fn mmio_read_of_flags_fills_register() {
    let mut mmio = console();
    let mut state = VcpuState::new();
    state.x[7] = 99;
    let mut out = Vec::new();
    assert!(handle_mmu_fault(&mut state, &mut mmio, UART + UART01X_FR, data_abort(7, false), &mut out));
    assert_eq!(state.x[7], 0);
}

#[test]
fn mmio_zero_register_operand() {
    let mut mmio = console();
    let mut state = VcpuState::new();
    let mut out = Vec::new();
    assert!(handle_mmu_fault(&mut state, &mut mmio, UART + UARTDR, data_abort(31, true), &mut out));
    assert_eq!(out, vec![Emitted::Char('\u{0}')]);
    assert!(handle_mmu_fault(&mut state, &mut mmio, UART + UART01X_FR, data_abort(31, false), &mut out));
    assert!(state.x.iter().all(|v| *v == 0));
}
