//! Faults. None is recovered from.

use vstd::prelude::*;

use super::{ExceptionMutContext, Fatal, Fault};

verus! {

/// Serves a fault: whatever its kind, the trap is fatal, and the context is
/// left as it was. The result names the fault and the trap value.
pub fn handle_fault(_mut_context: &mut ExceptionMutContext, stval: usize, fault: &Fault) -> (fatal:
    Fatal)
    ensures
        fatal == (Fatal::Fault { fault: *fault, stval }),
        final(_mut_context)@ == old(_mut_context)@,
        *final(final(_mut_context).register_context) == *final(old(_mut_context).register_context),
{
    Fatal::Fault { fault: *fault, stval }
}

} // verus!
