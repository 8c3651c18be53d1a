//! What the monitor does after each guest exit.
use vstd::prelude::*;
use crate::mmio::{Emitted, Mmio, MmioController};
use crate::syndrome::{
    DataAccess, ExceptionClass, class_of_syndrome, hvc_immediate, spec_data_access,
    spec_hvc_immediate,
};
use crate::sysreg::{msr_handled, msr_step, trap_msr_mrs};
use crate::vcpu::{ExitEvent, ExitReason, VcpuState};

verus! {

/// The hypervisor-call immediate by which the guest asks to stop.
pub const HVC_HALT: u64 = 0xff;

/// The address of the instruction after the one at `pc`.
pub open spec fn spec_next_pc(pc: u64) -> u64 {
    ((pc as int + 4) % 0x1_0000_0000_0000_0000int) as u64
}

pub fn next_pc(pc: u64) -> (r: u64)
    ensures
        r == spec_next_pc(pc),
{
    if pc <= u64::MAX - 4 {
        pc + 4
    } else {
        pc - (u64::MAX - 3)
    }
}

/// Whether two register files agree on everything but the general-purpose
/// registers.
pub open spec fn same_special_registers(a: VcpuState, b: VcpuState) -> bool {
    &&& a.pc == b.pc
    &&& a.cpsr == b.cpsr
    &&& a.sctlr_el1 == b.sctlr_el1
    &&& a.mdscr_el1 == b.mdscr_el1
    &&& a.elr_el1 == b.elr_el1
}

/// How a data abort at guest-physical address `pa` with syndrome `syndrome` is
/// emulated: the register file goes from `pre` to `post`, the registry from
/// `mmio` to `mmio_post`, the output stream from `out` to `out_post`, and
/// `handled` tells whether a device took the access.
///
/// The device whose range holds `pa` sees the offset of `pa` in its range. A
/// write hands it the source register's value and is handled iff the device
/// acknowledges it; a read is handled iff the device returns a value, which
/// goes to the destination register. Without such a device nothing changes
/// and the access is not handled.
pub open spec fn mmu_fault_step<C: MmioController>(
    pre: VcpuState,
    mmio: Mmio<C>,
    out: Seq<Emitted>,
    pa: u64,
    syndrome: u64,
    post: VcpuState,
    mmio_post: Mmio<C>,
    out_post: Seq<Emitted>,
    handled: bool,
) -> bool {
    let access = spec_data_access(syndrome);
    &&& same_special_registers(pre, post)
    &&& mmio_post.periphery@.len() == mmio.periphery@.len()
    &&& forall|j: int|
        0 <= j < mmio.periphery@.len() ==> #[trigger] mmio_post.periphery@[j].base
            == mmio.periphery@[j].base && mmio_post.periphery@[j].size
            == mmio.periphery@[j].size
    &&& match mmio.spec_owner(pa) {
        None => {
            &&& !handled
            &&& post.x@ == pre.x@
            &&& out_post == out
            &&& mmio_post.periphery@ == mmio.periphery@
        },
        Some(i) => {
            let dev = mmio.periphery@[i].controller;
            let offset = (pa - mmio.periphery@[i].base) as u64;
            if access.write {
                let value = pre.spec_register(access.reg);
                &&& handled == dev.write_ack(offset, value) is Some
                &&& out_post == out + dev.write_output(offset, value)
                &&& post.x@ == pre.x@
                &&& forall|j: int|
                    0 <= j < mmio.periphery@.len() && j != i ==> #[trigger] mmio_post.periphery@[j]
                        == mmio.periphery@[j]
            } else {
                &&& handled == dev.read_spec(offset) is Some
                &&& post.x@ == match dev.read_spec(offset) {
                    Some(v) => pre.spec_with_register(access.reg, v),
                    None => pre.x@,
                }
                &&& out_post == out
                &&& mmio_post.periphery@ == mmio.periphery@
            }
        },
    }
}

/// Emulates the device access behind a data abort at guest-physical address
/// `physical_address`. Returns whether a device handled it, in which case the
/// guest goes on after the faulting instruction.
pub fn handle_mmu_fault<C: MmioController>(
    state: &mut VcpuState,
    mmio: &mut Mmio<C>,
    physical_address: u64,
    syndrome: u64,
    out: &mut Vec<Emitted>,
) -> (r: bool)
    requires
        old(state).wf(),
        old(mmio).wf(),
    ensures
        final(state).wf(),
        final(mmio).wf(),
        mmu_fault_step(
            *old(state),
            *old(mmio),
            old(out)@,
            physical_address,
            syndrome,
            *final(state),
            *final(mmio),
            final(out)@,
            r,
        ),
{
    let access = DataAccess::new(syndrome);
    let i = match mmio.find_controller(physical_address) {
        Some(i) => i,
        None => return false,
    };
    let address = physical_address - mmio.periphery[i].base;
    if access.write {
        let value = state.get_register(access.reg);
        let ack = mmio.periphery[i].controller.write(address, value, out);
        ack.is_some()
    } else {
        match mmio.periphery[i].controller.read(address) {
            Some(value) => {
                state.set_register(access.reg, value);
                true
            },
            None => false,
        }
    }
}

/// Why the session stops.
#[derive(Clone, Copy, Debug, PartialEq, Eq, Structural)]
pub enum HaltReason {
    /// The guest made the halting hypervisor call.
    Requested,
    /// A trap of this class that the monitor does not handle.
    Unhandled(ExceptionClass),
    /// An exit that is neither an exception nor a cancellation.
    UnexpectedExit(ExitReason),
}

/// What follows a guest exit.
#[derive(Clone, Copy, Debug, PartialEq, Eq, Structural)]
pub enum ExitAction {
    /// Run the guest again, from the program counter of the register file.
    Resume,
    /// End the session and report why.
    Halted(HaltReason),
    /// The run was canceled from outside: end the session cleanly.
    Canceled,
}

/// Whether nothing changed: registers, devices and output.
pub open spec fn nothing_changed<C>(
    pre: VcpuState,
    mmio: Mmio<C>,
    out: Seq<Emitted>,
    post: VcpuState,
    mmio_post: Mmio<C>,
    out_post: Seq<Emitted>,
) -> bool {
    post == pre && mmio_post.periphery@ == mmio.periphery@ && out_post == out
}

/// How the monitor handles `exit`: the register file goes from `pre` to `post`,
/// the registry from `mmio` to `mmio_post`, the output stream from `out` to
/// `out_post`, and `action` says what follows.
pub open spec fn exit_step<C: MmioController>(
    pre: VcpuState,
    mmio: Mmio<C>,
    out: Seq<Emitted>,
    exit: ExitEvent,
    post: VcpuState,
    mmio_post: Mmio<C>,
    out_post: Seq<Emitted>,
    action: ExitAction,
) -> bool {
    match exit.reason {
        ExitReason::Canceled => action == ExitAction::Canceled && nothing_changed(
            pre,
            mmio,
            out,
            post,
            mmio_post,
            out_post,
        ),
        ExitReason::Exception => {
            let class = class_of_syndrome(exit.syndrome);
            match class {
                ExceptionClass::HvcRequested => {
                    &&& nothing_changed(pre, mmio, out, post, mmio_post, out_post)
                    &&& action == if spec_hvc_immediate(exit.syndrome) == HVC_HALT {
                        ExitAction::Halted(HaltReason::Requested)
                    } else {
                        ExitAction::Resume
                    }
                },
                ExceptionClass::SmcRequested => {
                    &&& action == ExitAction::Resume
                    &&& post == (VcpuState { pc: spec_next_pc(pre.pc), ..pre })
                    &&& mmio_post.periphery@ == mmio.periphery@
                    &&& out_post == out
                },
                ExceptionClass::MsrMrsTrap => {
                    &&& mmio_post.periphery@ == mmio.periphery@
                    &&& out_post == out
                    &&& exists|mid: VcpuState|
                        msr_step(pre, exit.syndrome, mid) && if msr_handled(exit.syndrome) {
                            action == ExitAction::Resume && post == (VcpuState {
                                pc: spec_next_pc(pre.pc),
                                ..mid
                            })
                        } else {
                            action == ExitAction::Halted(HaltReason::Unhandled(class)) && post
                                == mid
                        }
                },
                ExceptionClass::DataAbortMmuFault => {
                    exists|mid: VcpuState, handled: bool|
                        mmu_fault_step(
                            pre,
                            mmio,
                            out,
                            exit.physical_address,
                            exit.syndrome,
                            mid,
                            mmio_post,
                            out_post,
                            handled,
                        ) && if handled {
                            action == ExitAction::Resume && post == (VcpuState {
                                pc: spec_next_pc(pre.pc),
                                ..mid
                            })
                        } else {
                            action == ExitAction::Halted(HaltReason::Unhandled(class)) && post
                                == mid
                        }
                },
                _ => action == ExitAction::Halted(HaltReason::Unhandled(class)) && nothing_changed(
                    pre,
                    mmio,
                    out,
                    post,
                    mmio_post,
                    out_post,
                ),
            }
        },
        _ => action == ExitAction::Halted(HaltReason::UnexpectedExit(exit.reason))
            && nothing_changed(pre, mmio, out, post, mmio_post, out_post),
    }
}

/// Handles one guest exit: classifies it, emulates the trapped operation, and
/// moves the program counter where the guest goes on.
pub fn handle_exit<C: MmioController>(
    state: &mut VcpuState,
    mmio: &mut Mmio<C>,
    exit: &ExitEvent,
    out: &mut Vec<Emitted>,
) -> (r: ExitAction)
    requires
        old(state).wf(),
        old(mmio).wf(),
    ensures
        final(state).wf(),
        final(mmio).wf(),
        exit_step(*old(state), *old(mmio), old(out)@, *exit, *final(state), *final(mmio), final(out)@, r),
{
    match exit.reason {
        ExitReason::Canceled => ExitAction::Canceled,
        ExitReason::Exception => {
            let syndrome = exit.syndrome;
            let class = ExceptionClass::from_syndrome(syndrome);
            match class {
                ExceptionClass::HvcRequested => {
                    if hvc_immediate(syndrome) == HVC_HALT {
                        ExitAction::Halted(HaltReason::Requested)
                    } else {
                        ExitAction::Resume
                    }
                },
                ExceptionClass::SmcRequested => {
                    state.pc = next_pc(state.pc);
                    ExitAction::Resume
                },
                ExceptionClass::MsrMrsTrap => {
                    let ghost pre = *state;
                    if trap_msr_mrs(state, syndrome) {
                        let ghost mid = *state;
                        state.pc = next_pc(state.pc);
                        assert(msr_step(pre, syndrome, mid));
                        ExitAction::Resume
                    } else {
                        assert(msr_step(pre, syndrome, *state));
                        ExitAction::Halted(HaltReason::Unhandled(class))
                    }
                },
                ExceptionClass::DataAbortMmuFault => {
                    let ghost pre = *state;
                    let ghost mmio_pre = *mmio;
                    let ghost out_pre = out@;
                    let handled = handle_mmu_fault(state, mmio, exit.physical_address, syndrome, out);
                    let ghost mid = *state;
                    if handled {
                        state.pc = next_pc(state.pc);
                        assert(mmu_fault_step(pre, mmio_pre, out_pre, exit.physical_address, syndrome, mid, *mmio, out@, handled));
                        ExitAction::Resume
                    } else {
                        assert(mmu_fault_step(pre, mmio_pre, out_pre, exit.physical_address, syndrome, mid, *mmio, out@, handled));
                        ExitAction::Halted(HaltReason::Unhandled(class))
                    }
                },
                _ => ExitAction::Halted(HaltReason::Unhandled(class)),
            }
        },
        _ => ExitAction::Halted(HaltReason::UnexpectedExit(exit.reason)),
    }
}

/// A canceled run ends the session cleanly, whatever state the guest is in:
/// nothing is halted, and registers, devices and output stay as they were.
pub proof fn lemma_cancel_is_clean<C: MmioController>(
    pre: VcpuState,
    mmio: Mmio<C>,
    out: Seq<Emitted>,
    exit: ExitEvent,
    post: VcpuState,
    mmio_post: Mmio<C>,
    out_post: Seq<Emitted>,
    action: ExitAction,
)
    requires
        exit.reason == ExitReason::Canceled,
        exit_step(pre, mmio, out, exit, post, mmio_post, out_post, action),
    ensures
        action == ExitAction::Canceled,
        !(action is Halted),
        post == pre,
        mmio_post.periphery@ == mmio.periphery@,
        out_post == out,
{
}

/// A hypervisor call never moves the program counter; it halts the session
/// exactly when its immediate is the halting one.
pub proof fn lemma_hvc_halts_on_sentinel<C: MmioController>(
    pre: VcpuState,
    mmio: Mmio<C>,
    out: Seq<Emitted>,
    exit: ExitEvent,
    post: VcpuState,
    mmio_post: Mmio<C>,
    out_post: Seq<Emitted>,
    action: ExitAction,
)
    requires
        exit.reason == ExitReason::Exception,
        class_of_syndrome(exit.syndrome) == ExceptionClass::HvcRequested,
        exit_step(pre, mmio, out, exit, post, mmio_post, out_post, action),
    ensures
        post == pre,
        (action == ExitAction::Halted(HaltReason::Requested)) == (spec_hvc_immediate(exit.syndrome)
            == HVC_HALT),
        action != ExitAction::Halted(HaltReason::Requested) ==> action == ExitAction::Resume,
{
}

} // verus!
