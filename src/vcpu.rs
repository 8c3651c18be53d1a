//! The guest's register file as the monitor sees it between two runs.
use vstd::prelude::*;

verus! {

/// Number of general-purpose registers, X0 to X30.
pub const GPR_COUNT: usize = 31;

/// Register number that names the zero register in an instruction encoding.
pub const ZERO_REGISTER: u64 = 31;

/// The architectural state the exit handlers read and write. X30 is the link
/// register.
pub struct VcpuState {
    pub x: Vec<u64>,
    pub pc: u64,
    pub cpsr: u64,
    pub sctlr_el1: u64,
    pub mdscr_el1: u64,
    pub elr_el1: u64,
}

impl VcpuState {
    pub open spec fn wf(&self) -> bool {
        self.x@.len() == GPR_COUNT
    }

    /// The value an instruction operand with register number `reg` reads: a
    /// general-purpose register, or zero for the zero register.
    pub open spec fn spec_register(&self, reg: u64) -> u64 {
        if reg < 31 {
            self.x@[reg as int]
        } else {
            0
        }
    }

    /// The register file after an instruction wrote `value` to operand
    /// register `reg`; a write to the zero register is discarded.
    pub open spec fn spec_with_register(&self, reg: u64, value: u64) -> Seq<u64> {
        if reg < 31 {
            self.x@.update(reg as int, value)
        } else {
            self.x@
        }
    }

    /// The link register, X30.
    pub open spec fn spec_lr(&self) -> u64 {
        self.x@[30]
    }

    /// A register file with every register zero.
    pub fn new() -> (r: VcpuState)
        ensures
            r.wf(),
            forall|i: int| 0 <= i < GPR_COUNT ==> r.x@[i] == 0,
            r.pc == 0,
            r.cpsr == 0,
            r.sctlr_el1 == 0,
            r.mdscr_el1 == 0,
            r.elr_el1 == 0,
    {
        let mut x: Vec<u64> = Vec::new();
        let mut i: usize = 0;
        while i < GPR_COUNT
            invariant
                i <= GPR_COUNT,
                x@.len() == i,
                forall|j: int| 0 <= j < i ==> x@[j] == 0,
            decreases GPR_COUNT - i,
        {
            x.push(0);
            i = i + 1;
        }
        VcpuState { x, pc: 0, cpsr: 0, sctlr_el1: 0, mdscr_el1: 0, elr_el1: 0 }
    }

    /// Reads the operand register with number `reg`.
    pub fn get_register(&self, reg: u64) -> (r: u64)
        requires
            self.wf(),
            reg < 32,
        ensures
            r == self.spec_register(reg),
    {
        if reg < ZERO_REGISTER {
            self.x[reg as usize]
        } else {
            0
        }
    }

    /// Writes `value` to the operand register with number `reg`.
    pub fn set_register(&mut self, reg: u64, value: u64)
        requires
            old(self).wf(),
            reg < 32,
        ensures
            final(self).wf(),
            final(self).x@ == old(self).spec_with_register(reg, value),
            final(self).pc == old(self).pc,
            final(self).cpsr == old(self).cpsr,
            final(self).sctlr_el1 == old(self).sctlr_el1,
            final(self).mdscr_el1 == old(self).mdscr_el1,
            final(self).elr_el1 == old(self).elr_el1,
    {
        if reg < ZERO_REGISTER {
            self.x.set(reg as usize, value);
        }
    }
}

/// Why the vCPU stopped running.
#[derive(Clone, Copy, Debug, PartialEq, Eq, Structural)]
pub enum ExitReason {
    Canceled,
    Exception,
    VtimerActivated,
    Unknown,
}

/// What the hypervisor reports after a run returns.
#[derive(Clone, Copy, Debug, PartialEq, Eq, Structural)]
pub struct ExitEvent {
    pub reason: ExitReason,
    pub syndrome: u64,
    pub physical_address: u64,
    pub virtual_address: u64,
}

} // verus!
