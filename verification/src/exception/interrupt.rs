//! Interrupts.

use vstd::prelude::*;

use super::{
    disable_supervisor_interrupt, enable_supervisor_interrupt, spec_disable_supervisor_interrupt,
    spec_enable_supervisor_interrupt, ExceptionMutContext, Fatal, Interrupt, Pending, Step,
    TrappedState,
};
use crate::sbi_call::{sbi_result, spec_sbi_result, SbiRet};

verus! {

/// The number of ticks from one timer interrupt to the next.
pub const DELTA: u64 = 10000000;

/// What serving an interrupt does to the state. The source of a supervisor
/// interrupt is disabled in the snapshot of the enable register, so that it
/// does not fire again at once. A software or an external interrupt is then
/// served. A timer interrupt waits for the firmware to set the timer `DELTA`
/// ticks after `now`. Any other interrupt is fatal.
pub open spec fn spec_handle_interrupt(
    state: TrappedState,
    stval: usize,
    interrupt: Interrupt,
    now: u64,
) -> (TrappedState, Step) {
    match interrupt {
        Interrupt::SupervisorSoftware | Interrupt::SupervisorExternal => (
            TrappedState {
                sie: spec_disable_supervisor_interrupt(state.sie, interrupt),
                ..state
            },
            Step::Resumed,
        ),
        Interrupt::SupervisorTimer => (
            TrappedState {
                sie: spec_disable_supervisor_interrupt(state.sie, interrupt),
                ..state
            },
            Step::Call(Pending::Timer { stime_value: (now + DELTA) as u64 }),
        ),
        _ => (state, Step::Halted(Fatal::Interrupt { interrupt, stval })),
    }
}

/// What the firmware's answer to setting the timer does to the state. Where
/// the timer was set, the timer interrupt is enabled again. An error is
/// fatal, and so is an answer outside the protocol; neither changes the state.
pub open spec fn spec_complete_interrupt(state: TrappedState, ret: SbiRet) -> (
    TrappedState,
    Step,
) {
    match spec_sbi_result(ret.a0, ret.a1) {
        Ok(Ok(_)) => (
            TrappedState {
                sie: spec_enable_supervisor_interrupt(state.sie, Interrupt::SupervisorTimer),
                ..state
            },
            Step::Resumed,
        ),
        Ok(Err(_)) => (state, Step::Halted(Fatal::SetTimerFailed)),
        Err(violation) => (state, Step::Halted(Fatal::UnknownSbiError { code: violation.code })),
    }
}

/// Serves an interrupt that was taken when the time counter stood at `now`.
/// Where the interrupt is the timer's, the counter must leave room for the
/// `DELTA` ticks to the next one.
pub fn handle_interrupt(
    mut_context: &mut ExceptionMutContext,
    stval: usize,
    interrupt: &Interrupt,
    now: u64,
) -> (step: Step)
    requires
        *interrupt == Interrupt::SupervisorTimer ==> now + DELTA <= u64::MAX,
    ensures
        (final(mut_context)@, step) == spec_handle_interrupt(
            old(mut_context)@,
            stval,
            *interrupt,
            now,
        ),
        *final(final(mut_context).register_context) == *final(old(mut_context).register_context),
{
    match interrupt {
        Interrupt::SupervisorSoftware | Interrupt::SupervisorExternal => {
            mut_context.sie = disable_supervisor_interrupt(mut_context.sie, interrupt);
            Step::Resumed
        },
        Interrupt::SupervisorTimer => {
            mut_context.sie = disable_supervisor_interrupt(mut_context.sie, interrupt);
            Step::Call(Pending::Timer { stime_value: now + DELTA })
        },
        _ => Step::Halted(Fatal::Interrupt { interrupt: *interrupt, stval }),
    }
}

/// Finishes a timer interrupt with the firmware's answer to setting the timer.
pub fn complete_interrupt(mut_context: &mut ExceptionMutContext, ret: SbiRet) -> (step: Step)
    ensures
        (final(mut_context)@, step) == spec_complete_interrupt(old(mut_context)@, ret),
        !(step is Call),
        *final(final(mut_context).register_context) == *final(old(mut_context).register_context),
{
    match sbi_result(ret.a0, ret.a1) {
        Ok(Ok(_)) => {
            mut_context.sie = enable_supervisor_interrupt(
                mut_context.sie,
                &Interrupt::SupervisorTimer,
            );
            Step::Resumed
        },
        Ok(Err(_)) => Step::Halted(Fatal::SetTimerFailed),
        Err(violation) => Step::Halted(Fatal::UnknownSbiError { code: violation.code }),
    }
}

} // verus!
