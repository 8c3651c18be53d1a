use hvboot::dispatch::{handle_exit, next_pc, ExitAction, HaltReason, HVC_HALT};
use hvboot::mmio::{Emitted, Mmio};
use hvboot::pl011_uart::{Controller, UARTDR};
use hvboot::syndrome::ExceptionClass;
use hvboot::sysreg::trap_msr_mrs;
use hvboot::vcpu::{ExitEvent, ExitReason, VcpuState};

const UART: u64 = 0x4100_0000;

fn exception(syndrome: u64, physical_address: u64) -> ExitEvent {
    ExitEvent { reason: ExitReason::Exception, syndrome, physical_address, virtual_address: 0 }
}

fn setup() -> (VcpuState, Mmio<Controller>, Vec<Emitted>) {
    let mut mmio = Mmio::new();
    assert_eq!(mmio.register(UART, 0x4000, Controller), Ok(()));
    let mut state = VcpuState::new();
    state.pc = 0x1_0000;
    (state, mmio, Vec::new())
}

fn mdscr_msr(rt: u64) -> u64 {
    (24 << 26) | (2 << 20) | (2 << 17) | (2 << 1) | (rt << 5)
}

#[test]
fn next_pc_wraps() {
    assert_eq!(next_pc(0x1000), 0x1004);
    assert_eq!(next_pc(u64::MAX - 3), 0);
    assert_eq!(next_pc(u64::MAX), 3);
}

#[test]
fn hvc_resumes_at_same_pc() {
    let (mut state, mut mmio, mut out) = setup();
    let a = handle_exit(&mut state, &mut mmio, &exception((22 << 26) | 1, 0), &mut out);
    assert_eq!(a, ExitAction::Resume);
    assert_eq!(state.pc, 0x1_0000);
}

#[test]
fn hvc_sentinel_halts_cleanly() {
    let (mut state, mut mmio, mut out) = setup();
    state.x[0] = 3628800;
    let a = handle_exit(&mut state, &mut mmio, &exception((22 << 26) | HVC_HALT, 0), &mut out);
    assert_eq!(a, ExitAction::Halted(HaltReason::Requested));
    assert_eq!(state.x[0], 3628800);
    assert_eq!(state.pc, 0x1_0000);
}

#[test]
fn smc_skips_instruction() {
    let (mut state, mut mmio, mut out) = setup();
    let a = handle_exit(&mut state, &mut mmio, &exception(23 << 26, 0), &mut out);
    assert_eq!(a, ExitAction::Resume);
    assert_eq!(state.pc, 0x1_0004);
}

#[test]
fn breakpoint_and_aborts_halt() {
    let (mut state, mut mmio, mut out) = setup();
    let a = handle_exit(&mut state, &mut mmio, &exception(60 << 26, 0), &mut out);
    assert_eq!(a, ExitAction::Halted(HaltReason::Unhandled(ExceptionClass::BrkInstruction)));
    let b = handle_exit(&mut state, &mut mmio, &exception(32 << 26, 0), &mut out);
    assert_eq!(
        b,
        ExitAction::Halted(HaltReason::Unhandled(ExceptionClass::InstructionAbortMmuFault))
    );
    let c = handle_exit(&mut state, &mut mmio, &exception(1 << 26, 0), &mut out);
    assert_eq!(c, ExitAction::Halted(HaltReason::Unhandled(ExceptionClass::Unknown(1))));
    assert_eq!(state.pc, 0x1_0000);
}

#[test]
fn cancellation_ends_cleanly() {
    let (mut state, mut mmio, mut out) = setup();
    let e = ExitEvent { reason: ExitReason::Canceled, syndrome: 60 << 26, physical_address: 0, virtual_address: 0 };
    assert_eq!(handle_exit(&mut state, &mut mmio, &e, &mut out), ExitAction::Canceled);
    assert_eq!(state.pc, 0x1_0000);
}

#[test]
fn other_exit_reasons_halt() {
    let (mut state, mut mmio, mut out) = setup();
    let e = ExitEvent { reason: ExitReason::VtimerActivated, syndrome: 0, physical_address: 0, virtual_address: 0 };
    assert_eq!(
        handle_exit(&mut state, &mut mmio, &e, &mut out),
        ExitAction::Halted(HaltReason::UnexpectedExit(ExitReason::VtimerActivated))
    );
    let u = ExitEvent { reason: ExitReason::Unknown, ..e };
    assert_eq!(
        handle_exit(&mut state, &mut mmio, &u, &mut out),
        ExitAction::Halted(HaltReason::UnexpectedExit(ExitReason::Unknown))
    );
}

#[test]
fn console_write_resumes_after_instruction() {
    let (mut state, mut mmio, mut out) = setup();
    state.x[4] = 0x41;
    let s = (36 << 26) | (4 << 16) | (1 << 6);
    let a = handle_exit(&mut state, &mut mmio, &exception(s, UART + UARTDR), &mut out);
    assert_eq!(a, ExitAction::Resume);
    assert_eq!(state.pc, 0x1_0004);
    assert_eq!(out, vec![Emitted::Char('A')]);
}

#[test]
fn unclaimed_data_abort_halts() {
    let (mut state, mut mmio, mut out) = setup();
    let s = (36 << 26) | (4 << 16) | (1 << 6);
    let a = handle_exit(&mut state, &mut mmio, &exception(s, 0x9000_0000), &mut out);
    assert_eq!(a, ExitAction::Halted(HaltReason::Unhandled(ExceptionClass::DataAbortMmuFault)));
    assert_eq!(state.pc, 0x1_0000);
}

#[test]
fn mdscr_write_is_forwarded() {
    let mut state = VcpuState::new();
    state.x[3] = 0x1234;
    assert!(trap_msr_mrs(&mut state, mdscr_msr(3)));
    assert_eq!(state.mdscr_el1, 0x1234);
}

#[test]
fn other_system_register_write_is_refused() {
    let mut state = VcpuState::new();
    state.x[3] = 0x1234;
    assert!(!trap_msr_mrs(&mut state, mdscr_msr(3) | (1 << 10)));
    assert_eq!(state.mdscr_el1, 0);
    let (mut st, mut mmio, mut out) = setup();
    let a = handle_exit(&mut st, &mut mmio, &exception(mdscr_msr(3) | (1 << 14), 0), &mut out);
    assert_eq!(a, ExitAction::Halted(HaltReason::Unhandled(ExceptionClass::MsrMrsTrap)));
    assert_eq!(st.pc, 0x1_0000);
}

#[test]
fn system_register_read_yields_zero() {
    let mut state = VcpuState::new();
    state.x[5] = 77;
    state.mdscr_el1 = 9;
    assert!(trap_msr_mrs(&mut state, mdscr_msr(5) | 1));
    assert_eq!(state.x[5], 0);
    state.x[6] = 77;
    assert!(trap_msr_mrs(&mut state, mdscr_msr(6) | (1 << 10) | 1));
    assert_eq!(state.x[6], 0);
    assert_eq!(state.mdscr_el1, 9);
    let (mut st, mut mmio, mut out) = setup();
    st.x[5] = 77;
    let a = handle_exit(&mut st, &mut mmio, &exception(mdscr_msr(5) | 1, 0), &mut out);
    assert_eq!(a, ExitAction::Resume);
    assert_eq!(st.x[5], 0);
    assert_eq!(st.pc, 0x1_0004);
}
