//! The architectural state the guest starts in.
use vstd::prelude::*;
use crate::vcpu::VcpuState;

verus! {

/// Processor state at entry: EL1 with SP_EL1 (EL1h), with debug, SError, IRQ
/// and FIQ masked.
pub const BOOT_CPSR: u64 = 0x3c5;

/// Return address the guest starts with, so that a return past the entry point
/// faults at a known address.
pub const LR_SENTINEL: u64 = 0;

/// Value of X0 where no device tree is given: no valid address.
pub const NO_DEVICE_TREE: u64 = 0xffff_ffff_ffff_ffff;

/// The MMU enable bit of SCTLR_EL1.
pub const SCTLR_MMU_ENABLE: u64 = 0x1;

/// Where the guest starts and what it is handed.
#[derive(Clone, Copy, Debug, PartialEq, Eq, Structural)]
pub struct BootConfig {
    /// Address of the first instruction: the loader, or the kernel itself.
    pub entry: u64,
    /// Address of the device tree blob, passed in X0.
    pub device_tree: Option<u64>,
    /// Address of the kernel image, passed in X10 to a first-stage loader.
    pub kernel: u64,
    /// Whether the guest starts with the MMU off.
    pub disable_mmu: bool,
}

/// The value X0 holds at entry.
pub open spec fn spec_boot_x0(config: BootConfig) -> u64 {
    match config.device_tree {
        Some(a) => a,
        None => NO_DEVICE_TREE,
    }
}

/// The value SCTLR_EL1 holds at entry, given the value the hypervisor reported.
pub open spec fn spec_boot_sctlr(config: BootConfig, reported: u64) -> u64 {
    if config.disable_mmu {
        reported & !SCTLR_MMU_ENABLE
    } else {
        reported
    }
}

/// Sets the state the guest boots in. SCTLR_EL1 keeps the value the hypervisor
/// reported, with the MMU enable bit cleared where the configuration asks; every
/// register not named here keeps its value.
pub fn apply_boot_state(state: &mut VcpuState, config: &BootConfig)
    requires
        old(state).wf(),
    ensures
        final(state).wf(),
        final(state).pc == config.entry,
        final(state).cpsr == BOOT_CPSR,
        final(state).x@[0] == spec_boot_x0(*config),
        final(state).x@[10] == config.kernel,
        final(state).spec_lr() == LR_SENTINEL,
        final(state).sctlr_el1 == spec_boot_sctlr(*config, old(state).sctlr_el1),
        final(state).mdscr_el1 == old(state).mdscr_el1,
        final(state).elr_el1 == old(state).elr_el1,
        forall|i: int|
            0 <= i < 31 && i != 0 && i != 10 && i != 30 ==> #[trigger] final(state).x@[i]
                == old(state).x@[i],
{
    state.cpsr = BOOT_CPSR;
    state.set_register(30, LR_SENTINEL);
    let x0 = match config.device_tree {
        Some(a) => a,
        None => NO_DEVICE_TREE,
    };
    state.set_register(0, x0);
    state.set_register(10, config.kernel);
    state.pc = config.entry;
    if config.disable_mmu {
        state.sctlr_el1 = state.sctlr_el1 & !SCTLR_MMU_ENABLE;
    }
}

} // verus!
