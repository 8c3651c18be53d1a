//! Emulation of MSR and MRS instructions that trap to the monitor.
use vstd::prelude::*;
use crate::syndrome::{MsrAccess, MsrISS, spec_mdscr_el1, spec_msr_access, spec_msr_iss};
use crate::vcpu::VcpuState;

verus! {

/// Whether a trapped access is handled: every read, and a write to MDSCR_EL1.
pub open spec fn msr_handled(syndrome: u64) -> bool {
    !spec_msr_access(syndrome).write || spec_msr_iss(syndrome) == spec_mdscr_el1()
}

/// How handling the trapped access described by `syndrome` takes the register
/// file from `pre` to `post`. A write to MDSCR_EL1 copies the source operand
/// into it; a read stores zero into the destination operand; a refused write
/// changes nothing.
pub open spec fn msr_step(pre: VcpuState, syndrome: u64, post: VcpuState) -> bool {
    let access = spec_msr_access(syndrome);
    &&& post.pc == pre.pc
    &&& post.cpsr == pre.cpsr
    &&& post.sctlr_el1 == pre.sctlr_el1
    &&& post.elr_el1 == pre.elr_el1
    &&& if !access.write {
        post.x@ == pre.spec_with_register(access.reg, 0) && post.mdscr_el1 == pre.mdscr_el1
    } else if spec_msr_iss(syndrome) == spec_mdscr_el1() {
        post.x@ == pre.x@ && post.mdscr_el1 == pre.spec_register(access.reg)
    } else {
        post.x@ == pre.x@ && post.mdscr_el1 == pre.mdscr_el1
    }
}

/// Handles a trapped MSR or MRS instruction. Returns whether it was handled, in
/// which case the guest goes on after the instruction.
pub fn trap_msr_mrs(state: &mut VcpuState, syndrome: u64) -> (r: bool)
    requires
        old(state).wf(),
    ensures
        final(state).wf(),
        r == msr_handled(syndrome),
        msr_step(*old(state), syndrome, *final(state)),
{
    let iss = MsrISS::new(syndrome);
    let access = MsrAccess::new(syndrome);
    if access.write {
        if iss == MsrISS::mdscr_el1() {
            let value = state.get_register(access.reg);
            state.mdscr_el1 = value;
            return true;
        }
        false
    } else {
        state.set_register(access.reg, 0);
        true
    }
}

/// The allow-list policy: a write to MDSCR_EL1 is forwarded to it and handled,
/// a write to any other register is refused and changes nothing, and a read of
/// any register yields zero in the destination and is handled.
pub proof fn lemma_msr_policy(pre: VcpuState, syndrome: u64, post: VcpuState)
    requires
        pre.wf(),
        msr_step(pre, syndrome, post),
    ensures
        spec_msr_access(syndrome).write && spec_msr_iss(syndrome) == spec_mdscr_el1() ==> msr_handled(
            syndrome,
        ) && post.mdscr_el1 == pre.spec_register(spec_msr_access(syndrome).reg) && post.x@
            == pre.x@,
        spec_msr_access(syndrome).write && spec_msr_iss(syndrome) != spec_mdscr_el1() ==> !msr_handled(
            syndrome,
        ) && post.x@ == pre.x@ && post.mdscr_el1 == pre.mdscr_el1,
        !spec_msr_access(syndrome).write ==> msr_handled(syndrome) && post.spec_register(
            spec_msr_access(syndrome).reg,
        ) == 0,
{
}

} // verus!
