//! Traps: the synchronous causes that are recovered from.

use vstd::prelude::*;

use super::abi_call::{abi_call, abi_return, spec_abi_call, spec_abi_return};
use super::{ExceptionMutContext, Fatal, Pending, Step, TrappedState, Trap};
use crate::sbi_call::{CompatibleSbi, SbiRet};

verus! {

/// The length of the breakpoint instruction, in bytes.
pub const BREAKPOINT_LENGTH: usize = 2;

/// The length of the call instruction, in bytes.
pub const ECALL_LENGTH: usize = 4;

/// What serving a trap does to the state. A breakpoint is stepped over. A
/// call from user mode is read from the registers and waits for the firmware;
/// where the registers name no call, the trap is fatal. A call from
/// supervisor mode is fatal.
pub open spec fn spec_handle_trap(state: TrappedState, stval: usize, trap: Trap) -> (
    TrappedState,
    Step,
) {
    match trap {
        Trap::Breakpoint => (
            TrappedState { sepc: (state.sepc + BREAKPOINT_LENGTH) as usize, ..state },
            Step::Resumed,
        ),
        Trap::EnvironmentCallFromUMode => match spec_abi_call(state) {
            Ok(call) => (state, Step::Call(Pending::Forward(call))),
            Err(error) => (state, Step::Halted(Fatal::UnknownCall(error))),
        },
        Trap::EnvironmentCallFromSMode => (state, Step::Halted(Fatal::Trap { trap, stval })),
    }
}

/// What the answer to a call from user mode does to the state: it is written
/// into the registers, and the call instruction is stepped over. An answer
/// outside the protocol is fatal and changes nothing.
pub open spec fn spec_complete_trap(state: TrappedState, call: CompatibleSbi, ret: SbiRet) -> (
    TrappedState,
    Step,
) {
    match spec_abi_return(state, call, ret) {
        (returned, Ok(())) => (
            TrappedState { sepc: (returned.sepc + ECALL_LENGTH) as usize, ..returned },
            Step::Resumed,
        ),
        (returned, Err(violation)) => (
            returned,
            Step::Halted(Fatal::UnknownSbiError { code: violation.code }),
        ),
    }
}

/// Serves a trap. Where the trap is a breakpoint, the saved program counter
/// must leave room for the step over the instruction.
pub fn handle_trap(mut_context: &mut ExceptionMutContext, stval: usize, trap: &Trap) -> (step:
    Step)
    requires
        *trap == Trap::Breakpoint ==> old(mut_context).sepc + BREAKPOINT_LENGTH <= usize::MAX,
    ensures
        (final(mut_context)@, step) == spec_handle_trap(old(mut_context)@, stval, *trap),
        *final(final(mut_context).register_context) == *final(old(mut_context).register_context),
{
    match trap {
        Trap::Breakpoint => {
            mut_context.sepc += BREAKPOINT_LENGTH;
            Step::Resumed
        },
        Trap::EnvironmentCallFromUMode => match abi_call(mut_context) {
            Ok(call) => Step::Call(Pending::Forward(call)),
            Err(error) => Step::Halted(Fatal::UnknownCall(error)),
        },
        Trap::EnvironmentCallFromSMode => Step::Halted(Fatal::Trap { trap: *trap, stval }),
    }
}

/// Finishes a call from user mode with the firmware's answer to it. The saved
/// program counter must leave room for the step over the call instruction.
pub fn complete_trap(mut_context: &mut ExceptionMutContext, call: &CompatibleSbi, ret: SbiRet) -> (step:
    Step)
    requires
        old(mut_context).sepc + ECALL_LENGTH <= usize::MAX,
    ensures
        (final(mut_context)@, step) == spec_complete_trap(old(mut_context)@, *call, ret),
        !(step is Call),
        *final(final(mut_context).register_context) == *final(old(mut_context).register_context),
{
    match abi_return(mut_context, call, ret) {
        Ok(()) => {
            mut_context.sepc += ECALL_LENGTH;
            Step::Resumed
        },
        Err(violation) => Step::Halted(Fatal::UnknownSbiError { code: violation.code }),
    }
}

} // verus!
