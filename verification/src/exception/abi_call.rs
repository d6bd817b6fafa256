//! Passing a call of user code on to the firmware.

use vstd::prelude::*;

use super::{ExceptionMutContext, TrappedState};
use crate::sbi_call::{
    decode_sbi_call, sbi_result, spec_decode_sbi_call, spec_sbi_result, CompatibleSbi, DecodeError,
    ProtocolViolation, SbiRet,
};

verus! {

/// The register number of the first argument and of the first answer.
pub const A0: usize = 10;

/// The register number of the second argument and of the second answer.
pub const A1: usize = 11;

/// The register number of the function id.
pub const A6: usize = 16;

/// The register number of the extension id.
pub const A7: usize = 17;

/// The call that the trapped code asked for in its registers.
pub open spec fn spec_abi_call(state: TrappedState) -> Result<CompatibleSbi, DecodeError> {
    spec_decode_sbi_call(
        state.x[A0 as int],
        state.x[A1 as int],
        state.x[A6 as int],
        state.x[A7 as int],
    )
}

/// The state after the answer to `call` was written into the registers of the
/// trapped code. A legacy call has its one answer in the first register. A
/// standard call has the error code in the first register and the value in
/// the second, as the firmware left them; an error code outside the protocol
/// changes nothing.
pub open spec fn spec_abi_return(state: TrappedState, call: CompatibleSbi, ret: SbiRet) -> (
    TrappedState,
    Result<(), ProtocolViolation>,
) {
    match call {
        CompatibleSbi::Legacy(_) => (
            TrappedState { x: state.x.update(A0 as int, ret.a0 as usize), ..state },
            Ok(()),
        ),
        CompatibleSbi::Extension(_) => match spec_sbi_result(ret.a0, ret.a1) {
            Ok(_) => (
                TrappedState {
                    x: state.x.update(A0 as int, ret.a0 as usize).update(
                        A1 as int,
                        ret.a1 as usize,
                    ),
                    ..state
                },
                Ok(()),
            ),
            Err(violation) => (state, Err(violation)),
        },
    }
}

/// Reads the call that the trapped code asked for: the two arguments, the
/// function id and the extension id, from the registers that the calling
/// convention names.
pub fn abi_call(mut_context: &ExceptionMutContext) -> (call: Result<CompatibleSbi, DecodeError>)
    ensures
        call == spec_abi_call(mut_context@),
{
    decode_sbi_call(
        mut_context.register_context.x[A0],
        mut_context.register_context.x[A1],
        mut_context.register_context.x[A6],
        mut_context.register_context.x[A7],
    )
}

/// Writes the firmware's answer to `call` into the registers of the trapped
/// code, as the convention of the call has it.
pub fn abi_return(mut_context: &mut ExceptionMutContext, call: &CompatibleSbi, ret: SbiRet) -> (done:
    Result<(), ProtocolViolation>)
    ensures
        (final(mut_context)@, done) == spec_abi_return(old(mut_context)@, *call, ret),
        *final(final(mut_context).register_context) == *final(old(mut_context).register_context),
{
    match call {
        CompatibleSbi::Legacy(_) => {
            mut_context.register_context.x[A0] = #[verifier::truncate]
            (ret.a0 as usize);
            Ok(())
        },
        CompatibleSbi::Extension(_) => match sbi_result(ret.a0, ret.a1) {
            Ok(_) => {
                mut_context.register_context.x[A0] = #[verifier::truncate]
                (ret.a0 as usize);
                mut_context.register_context.x[A1] = #[verifier::truncate]
                (ret.a1 as usize);
                Ok(())
            },
            Err(violation) => Err(violation),
        },
    }
}

/// Writing an answer back changes no privileged register, and no register of
/// the trapped code but the first and, after a standard call, the second.
/// Within the protocol the trapped code finds there what the firmware left:
/// what it would have found had it called the firmware itself.
pub proof fn lemma_abi_return_registers(state: TrappedState, call: CompatibleSbi, ret: SbiRet)
    requires
        state.x.len() == 32,
    ensures
        ({
            let (after, done) = spec_abi_return(state, call, ret);
            &&& after.snapshot() == state.snapshot()
            &&& after.x.len() == 32
            &&& forall|i: int| 0 <= i < 32 && i != A0 && i != A1 ==> after.x[i] == state.x[i]
            &&& done is Err ==> after == state
            &&& done is Ok ==> after.x[A0 as int] == ret.a0 as usize
            &&& done is Ok && call is Extension ==> after.x[A1 as int] == ret.a1 as usize
            &&& call is Legacy ==> done is Ok && after.x[A1 as int] == state.x[A1 as int]
        }),
{
}

} // verus!
