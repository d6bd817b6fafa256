//! The calling convention between the kernel and the firmware.
//!
//! A call is loaded into four registers, issued with the call instruction, and
//! answered in one or two registers. This module computes what is loaded and
//! interprets what came back; the instruction itself is the caller's.

use vstd::prelude::*;

verus! {

/// The errors that the firmware reports, with codes from -1 down to -8.
#[derive(Debug, Clone, Copy, PartialEq, Eq, Structural)]
pub enum SbiError {
    Failed,
    NotSupported,
    InvalidParam,
    Denied,
    InvalidAddress,
    AlreadyAvailable,
    AlreadyStarted,
    AlreadyStopped,
}

impl SbiError {
    /// The value of the error register that stands for this error.
    pub open spec fn spec_code(&self) -> int {
        match self {
            SbiError::Failed => -1,
            SbiError::NotSupported => -2,
            SbiError::InvalidParam => -3,
            SbiError::Denied => -4,
            SbiError::InvalidAddress => -5,
            SbiError::AlreadyAvailable => -6,
            SbiError::AlreadyStarted => -7,
            SbiError::AlreadyStopped => -8,
        }
    }

    /// The error that a value of the error register stands for, if any.
    pub open spec fn spec_from_code(error: int) -> Option<SbiError> {
        if error == -1 {
            Some(SbiError::Failed)
        } else if error == -2 {
            Some(SbiError::NotSupported)
        } else if error == -3 {
            Some(SbiError::InvalidParam)
        } else if error == -4 {
            Some(SbiError::Denied)
        } else if error == -5 {
            Some(SbiError::InvalidAddress)
        } else if error == -6 {
            Some(SbiError::AlreadyAvailable)
        } else if error == -7 {
            Some(SbiError::AlreadyStarted)
        } else if error == -8 {
            Some(SbiError::AlreadyStopped)
        } else {
            None
        }
    }

    /// The value of the error register that stands for this error.
    pub fn code(&self) -> (code: isize)
        ensures
            code == self.spec_code(),
    {
        match self {
            SbiError::Failed => -1,
            SbiError::NotSupported => -2,
            SbiError::InvalidParam => -3,
            SbiError::Denied => -4,
            SbiError::InvalidAddress => -5,
            SbiError::AlreadyAvailable => -6,
            SbiError::AlreadyStarted => -7,
            SbiError::AlreadyStopped => -8,
        }
    }

    /// The error that a value of the error register stands for. There is none
    /// for zero, for a positive value, or for a value below -8.
    pub fn from_code(error: isize) -> (kind: Option<SbiError>)
        ensures
            kind == SbiError::spec_from_code(error as int),
    {
        match error {
            -1 => Some(SbiError::Failed),
            -2 => Some(SbiError::NotSupported),
            -3 => Some(SbiError::InvalidParam),
            -4 => Some(SbiError::Denied),
            -5 => Some(SbiError::InvalidAddress),
            -6 => Some(SbiError::AlreadyAvailable),
            -7 => Some(SbiError::AlreadyStarted),
            -8 => Some(SbiError::AlreadyStopped),
            _ => None,
        }
    }
}

/// Every error has a code from -8 to -1, and is the one error of its code.
pub proof fn lemma_error_code_round_trip(error: SbiError)
    ensures
        -8 <= error.spec_code() <= -1,
        SbiError::spec_from_code(error.spec_code()) == Some(error),
{
}

/// A code stands for an error exactly when it lies between -8 and -1, and then
/// for the error that has this code.
pub proof fn lemma_error_code_defined(code: int)
    ensures
        SbiError::spec_from_code(code) is Some <==> -8 <= code <= -1,
        SbiError::spec_from_code(code) matches Some(error) ==> error.spec_code() == code,
{
}

/// A call of the legacy convention: one argument register, and one register
/// for the answer.
#[derive(Debug, Clone, Copy, PartialEq, Eq, Structural)]
pub enum LegacyExtension {
    /// Extension 0x1.
    ConsolePutChar { ch: u8 },
    /// Extension 0x2.
    ConsoleGetChar,
}

/// A call of the standard convention: up to two argument registers, and two
/// registers for the answer, an error code and a value.
#[derive(Debug, Clone, Copy, PartialEq, Eq, Structural)]
pub enum Extension {
    /// Extension 0x10.
    Base(BaseFunction),
    /// Extension 0x54494D45.
    SetTimer { stime_value: u64 },
    /// Extension 0x735049.
    SendIpi { hart_mask: usize },
    /// Extension 0x53525354.
    Shutdown,
}

/// The functions of the base extension, numbered from 0 to 6.
#[derive(Debug, Clone, Copy, PartialEq, Eq, Structural)]
pub enum BaseFunction {
    GetSpecVersion,
    GetImplId,
    GetImplVersion,
    ProbeExtension { extension_id: isize },
    GetMVendorId,
    GetMArchId,
    GetMImpId,
}

/// A call of either convention.
#[derive(Debug, Clone, Copy, PartialEq, Eq, Structural)]
pub enum CompatibleSbi {
    Legacy(LegacyExtension),
    Extension(Extension),
}

/// The four registers that are loaded before the call instruction: two
/// arguments, the function id and the extension id.
#[derive(Debug, Clone, Copy, PartialEq, Eq, Structural)]
pub struct SbiRegisters {
    pub a0: usize,
    pub a1: usize,
    pub a6: usize,
    pub a7: usize,
}

impl LegacyExtension {
    /// The extension id: 0x1 to print a byte, 0x2 to read one.
    pub open spec fn spec_id(&self) -> i32 {
        match self {
            LegacyExtension::ConsolePutChar { .. } => 0x1,
            LegacyExtension::ConsoleGetChar => 0x2,
        }
    }

    /// The argument: the byte to print, or zero.
    pub open spec fn spec_arg0(&self) -> isize {
        match self {
            LegacyExtension::ConsolePutChar { ch } => *ch as isize,
            LegacyExtension::ConsoleGetChar => 0,
        }
    }

    /// The registers of this call. The legacy convention reads the first
    /// argument and the extension id only; the other two are given as zero.
    pub open spec fn spec_encode(&self) -> SbiRegisters {
        SbiRegisters {
            a0: self.spec_arg0() as usize,
            a1: 0,
            a6: 0,
            a7: self.spec_id() as usize,
        }
    }

    /// The extension id.
    #[verifier::when_used_as_spec(spec_id)]
    pub fn id(&self) -> (id: i32)
        ensures
            id == self.spec_id(),
    {
        match self {
            LegacyExtension::ConsolePutChar { .. } => 0x1,
            LegacyExtension::ConsoleGetChar => 0x2,
        }
    }

    /// The argument: the byte to print, or zero.
    #[verifier::when_used_as_spec(spec_arg0)]
    pub fn arg0(&self) -> (arg: isize)
        ensures
            arg == self.spec_arg0(),
    {
        match self {
            LegacyExtension::ConsolePutChar { ch } => *ch as isize,
            _ => 0,
        }
    }

    /// The registers to load before the call instruction.
    #[verifier::when_used_as_spec(spec_encode)]
    pub fn encode(&self) -> (registers: SbiRegisters)
        ensures
            registers == self.spec_encode(),
    {
        SbiRegisters { a0: self.arg0() as usize, a1: 0, a6: 0, a7: self.id() as usize }
    }
}

impl BaseFunction {
    /// The function id within the base extension, from 0 to 6 in the order of
    /// the variants.
    pub open spec fn spec_id(&self) -> i32 {
        match self {
            BaseFunction::GetSpecVersion => 0,
            BaseFunction::GetImplId => 1,
            BaseFunction::GetImplVersion => 2,
            BaseFunction::ProbeExtension { .. } => 3,
            BaseFunction::GetMVendorId => 4,
            BaseFunction::GetMArchId => 5,
            BaseFunction::GetMImpId => 6,
        }
    }

    /// The argument: the extension asked about, or zero.
    pub open spec fn spec_arg0(&self) -> isize {
        match self {
            BaseFunction::ProbeExtension { extension_id } => *extension_id,
            _ => 0,
        }
    }

    /// The function id within the base extension.
    #[verifier::when_used_as_spec(spec_id)]
    pub fn id(&self) -> (id: i32)
        ensures
            id == self.spec_id(),
    {
        match self {
            BaseFunction::GetSpecVersion => 0,
            BaseFunction::GetImplId => 1,
            BaseFunction::GetImplVersion => 2,
            BaseFunction::ProbeExtension { .. } => 3,
            BaseFunction::GetMVendorId => 4,
            BaseFunction::GetMArchId => 5,
            BaseFunction::GetMImpId => 6,
        }
    }

    /// The argument: the extension asked about, or zero.
    #[verifier::when_used_as_spec(spec_arg0)]
    pub fn arg0(&self) -> (arg: isize)
        ensures
            arg == self.spec_arg0(),
    {
        match self {
            BaseFunction::ProbeExtension { extension_id } => *extension_id,
            _ => 0,
        }
    }
}

impl Extension {
    /// The extension id.
    pub open spec fn spec_id(&self) -> i32 {
        match self {
            Extension::Base(_) => 0x10,
            Extension::SetTimer { .. } => 0x54494D45,
            Extension::SendIpi { .. } => 0x735049,
            Extension::Shutdown => 0x53525354,
        }
    }

    /// The function id: that of the base function, and zero for the
    /// extensions that have a single function.
    pub open spec fn spec_function_id(&self) -> i32 {
        match self {
            Extension::Base(function) => function.spec_id(),
            _ => 0,
        }
    }

    /// The first argument, as a signed word. A deadline and a hart mask are
    /// cut to the width of a register and read as signed.
    pub open spec fn spec_arg0(&self) -> isize {
        match self {
            Extension::Base(function) => function.spec_arg0(),
            Extension::SetTimer { stime_value } => *stime_value as isize,
            Extension::SendIpi { hart_mask } => *hart_mask as isize,
            Extension::Shutdown => 0,
        }
    }

    /// The second argument: the upper half of a deadline where a register has
    /// 32 bits, and zero otherwise.
    pub open spec fn spec_arg1(&self) -> isize {
        match self {
            Extension::SetTimer { stime_value } => if isize::BITS == 32 {
                (*stime_value >> 32) as isize
            } else {
                0
            },
            _ => 0,
        }
    }

    /// The registers of this call: the two arguments, the function id and the
    /// extension id, each as an unsigned word.
    pub open spec fn spec_encode(&self) -> SbiRegisters {
        SbiRegisters {
            a0: self.spec_arg0() as usize,
            a1: self.spec_arg1() as usize,
            a6: self.spec_function_id() as usize,
            a7: self.spec_id() as usize,
        }
    }

    /// The extension id.
    #[verifier::when_used_as_spec(spec_id)]
    pub fn id(&self) -> (id: i32)
        ensures
            id == self.spec_id(),
    {
        match self {
            Extension::Base(_) => 0x10,
            Extension::SetTimer { .. } => 0x54494D45,
            Extension::SendIpi { .. } => 0x735049,
            Extension::Shutdown => 0x53525354,
        }
    }

    /// The function id: that of the base function, and zero for the
    /// extensions that have a single function.
    #[verifier::when_used_as_spec(spec_function_id)]
    pub fn function_id(&self) -> (id: i32)
        ensures
            id == self.spec_function_id(),
    {
        match self {
            Extension::Base(function) => function.id(),
            _ => 0,
        }
    }

    /// The first argument. A deadline is cut to the width of a register.
    #[verifier::when_used_as_spec(spec_arg0)]
    pub fn arg0(&self) -> (arg: isize)
        ensures
            arg == self.spec_arg0(),
    {
        match self {
            Extension::Base(function) => function.arg0(),
            Extension::SetTimer { stime_value } => #[verifier::truncate]
            (*stime_value as isize),
            Extension::SendIpi { hart_mask } => #[verifier::truncate]
            (*hart_mask as isize),
            Extension::Shutdown => 0,
        }
    }

    /// The second argument: the upper half of a deadline where a register has
    /// 32 bits, and zero otherwise.
    #[verifier::when_used_as_spec(spec_arg1)]
    pub fn arg1(&self) -> (arg: isize)
        ensures
            arg == self.spec_arg1(),
    {
        match self {
            Extension::SetTimer { stime_value } => {
                if isize::BITS == 32 {
                    #[verifier::truncate]
                    ((*stime_value >> 32) as isize)
                } else {
                    0
                }
            },
            _ => 0,
        }
    }

    /// The registers to load before the call instruction.
    #[verifier::when_used_as_spec(spec_encode)]
    pub fn encode(&self) -> (registers: SbiRegisters)
        ensures
            registers == self.spec_encode(),
    {
        SbiRegisters {
            a0: #[verifier::truncate]
            (self.arg0() as usize),
            a1: #[verifier::truncate]
            (self.arg1() as usize),
            a6: self.function_id() as usize,
            a7: self.id() as usize,
        }
    }
}

impl CompatibleSbi {
    /// The registers of this call.
    pub open spec fn spec_encode(&self) -> SbiRegisters {
        match self {
            CompatibleSbi::Legacy(extension) => extension.spec_encode(),
            CompatibleSbi::Extension(extension) => extension.spec_encode(),
        }
    }

    /// The registers to load before the call instruction.
    #[verifier::when_used_as_spec(spec_encode)]
    pub fn encode(&self) -> (registers: SbiRegisters)
        ensures
            registers == self.spec_encode(),
    {
        match self {
            CompatibleSbi::Legacy(extension) => extension.encode(),
            CompatibleSbi::Extension(extension) => extension.encode(),
        }
    }
}

/// The call that shuts the machine down. It is what every fatal trap ends
/// with.
pub fn shutdown() -> (call: Extension)
    ensures
        call == Extension::Shutdown,
{
    Extension::Shutdown
}

/// The call that sets the timer to interrupt once the time counter has
/// reached `stime_value`.
pub fn set_timer(stime_value: u64) -> (call: Extension)
    ensures
        call == (Extension::SetTimer { stime_value }),
{
    Extension::SetTimer { stime_value }
}

/// Why four registers stand for no call.
#[derive(Debug, Clone, Copy, PartialEq, Eq, Structural)]
pub enum DecodeError {
    /// The extension id is none of the six that are known.
    UnknownSbiFunction,
    /// The extension is the base extension, and the function id is above 6.
    UnknownBaseFunction,
}

/// The base function with a function id, if there is one. The extension that
/// `ProbeExtension` asks about is the first argument, read as a signed word.
pub open spec fn spec_decode_base_function(a0: usize, a6: usize) -> Option<BaseFunction> {
    if a6 == 0 {
        Some(BaseFunction::GetSpecVersion)
    } else if a6 == 1 {
        Some(BaseFunction::GetImplId)
    } else if a6 == 2 {
        Some(BaseFunction::GetImplVersion)
    } else if a6 == 3 {
        Some(BaseFunction::ProbeExtension { extension_id: a0 as isize })
    } else if a6 == 4 {
        Some(BaseFunction::GetMVendorId)
    } else if a6 == 5 {
        Some(BaseFunction::GetMArchId)
    } else if a6 == 6 {
        Some(BaseFunction::GetMImpId)
    } else {
        None
    }
}

/// The deadline that the two argument registers hold. Where a register has 64
/// bits, the deadline is the first register whole, and the second is not
/// read. Where a register has 32 bits, the first register holds the lower and
/// the second the upper half.
pub open spec fn spec_deadline(a0: usize, a1: usize) -> u64 {
    if usize::BITS == 64 {
        a0 as u64
    } else {
        (a0 as u64) | ((a1 as u64) << 32)
    }
}

/// The call that four registers stand for: the extension id in `a7` decides
/// first, then, within the base extension, the function id in `a6`. The byte
/// to print is the lowest byte of `a0`; a deadline is read from the argument
/// registers as `spec_deadline` says.
pub open spec fn spec_decode_sbi_call(a0: usize, a1: usize, a6: usize, a7: usize) -> Result<
    CompatibleSbi,
    DecodeError,
> {
    if a7 == 0x1 {
        Ok(CompatibleSbi::Legacy(LegacyExtension::ConsolePutChar { ch: (a0 % 256) as u8 }))
    } else if a7 == 0x2 {
        Ok(CompatibleSbi::Legacy(LegacyExtension::ConsoleGetChar))
    } else if a7 == 0x10 {
        match spec_decode_base_function(a0, a6) {
            Some(function) => Ok(CompatibleSbi::Extension(Extension::Base(function))),
            None => Err(DecodeError::UnknownBaseFunction),
        }
    } else if a7 == 0x54494D45 {
        Ok(CompatibleSbi::Extension(Extension::SetTimer { stime_value: spec_deadline(a0, a1) }))
    } else if a7 == 0x735049 {
        Ok(CompatibleSbi::Extension(Extension::SendIpi { hart_mask: a0 }))
    } else if a7 == 0x53525354 {
        Ok(CompatibleSbi::Extension(Extension::Shutdown))
    } else {
        Err(DecodeError::UnknownSbiFunction)
    }
}

/// Reads a call back from the four registers that it was loaded into.
pub fn decode_sbi_call(a0: usize, a1: usize, a6: usize, a7: usize) -> (call: Result<
    CompatibleSbi,
    DecodeError,
>)
    ensures
        call == spec_decode_sbi_call(a0, a1, a6, a7),
{
    match a7 {
        0x1 => {
            assert(a0 as u8 == a0 % 256) by (bit_vector);
            Ok(
                CompatibleSbi::Legacy(
                    LegacyExtension::ConsolePutChar { ch: #[verifier::truncate]
                    (a0 as u8) },
                ),
            )
        },
        0x2 => Ok(CompatibleSbi::Legacy(LegacyExtension::ConsoleGetChar)),
        0x10 => match a6 {
            0 => Ok(CompatibleSbi::Extension(Extension::Base(BaseFunction::GetSpecVersion))),
            1 => Ok(CompatibleSbi::Extension(Extension::Base(BaseFunction::GetImplId))),
            2 => Ok(CompatibleSbi::Extension(Extension::Base(BaseFunction::GetImplVersion))),
            3 => Ok(
                CompatibleSbi::Extension(
                    Extension::Base(
                        BaseFunction::ProbeExtension { extension_id: #[verifier::truncate]
                        (a0 as isize) },
                    ),
                ),
            ),
            4 => Ok(CompatibleSbi::Extension(Extension::Base(BaseFunction::GetMVendorId))),
            5 => Ok(CompatibleSbi::Extension(Extension::Base(BaseFunction::GetMArchId))),
            6 => Ok(CompatibleSbi::Extension(Extension::Base(BaseFunction::GetMImpId))),
            _ => Err(DecodeError::UnknownBaseFunction),
        },
        0x54494D45 => {
            let stime_value: u64 = if usize::BITS == 64 {
                a0 as u64
            } else {
                (a0 as u64) | ((a1 as u64) << 32)
            };
            Ok(CompatibleSbi::Extension(Extension::SetTimer { stime_value }))
        },
        0x735049 => Ok(CompatibleSbi::Extension(Extension::SendIpi { hart_mask: a0 })),
        0x53525354 => Ok(CompatibleSbi::Extension(Extension::Shutdown)),
        _ => Err(DecodeError::UnknownSbiFunction),
    }
}

/// What the firmware left in the two answer registers. After a standard call
/// `a0` is the error code and `a1` the value; after a legacy call `a0` is the
/// value and `a1` is as it was.
#[derive(Debug, Clone, Copy, PartialEq, Eq, Structural)]
pub struct SbiRet {
    pub a0: isize,
    pub a1: isize,
}

/// An error register that holds neither zero nor the code of an error.
#[derive(Debug, Clone, Copy, PartialEq, Eq, Structural)]
pub struct ProtocolViolation {
    pub code: isize,
}

/// The outcome of a standard call: the value where the error register is zero,
/// the error where it holds the code of one, and a violation of the protocol
/// otherwise.
pub open spec fn spec_sbi_result(error: isize, value: isize) -> Result<
    Result<isize, SbiError>,
    ProtocolViolation,
> {
    if error == 0 {
        Ok(Ok(value))
    } else {
        match SbiError::spec_from_code(error as int) {
            Some(kind) => Ok(Err(kind)),
            None => Err(ProtocolViolation { code: error }),
        }
    }
}

/// Interprets the answer to a standard call.
pub fn sbi_result(error: isize, value: isize) -> (result: Result<
    Result<isize, SbiError>,
    ProtocolViolation,
>)
    ensures
        result == spec_sbi_result(error, value),
{
    if error == 0 {
        Ok(Ok(value))
    } else {
        match SbiError::from_code(error) {
            Some(kind) => Ok(Err(kind)),
            None => Err(ProtocolViolation { code: error }),
        }
    }
}

/// The outcome of a legacy call: success where the register is zero, and the
/// register's value as the error otherwise.
pub open spec fn spec_legacy_sbi_result(a0: isize) -> Result<isize, isize> {
    if a0 == 0 {
        Ok(a0)
    } else {
        Err(a0)
    }
}

/// Interprets the answer to a legacy call.
pub fn legacy_sbi_result(a0: isize) -> (result: Result<isize, isize>)
    ensures
        result == spec_legacy_sbi_result(a0),
{
    if a0 == 0 {
        Ok(a0)
    } else {
        Err(a0)
    }
}

/// A deadline is passed whole where a register has 64 bits; where it has 32,
/// its lower half is the first argument and its upper half the second.
pub proof fn lemma_set_timer_encode(stime_value: u64)
    ensures
        ({
            let registers = (Extension::SetTimer { stime_value }).spec_encode();
            &&& registers.a7 == 0x54494D45
            &&& registers.a6 == 0
            &&& usize::BITS == 64 ==> registers.a0 == stime_value && registers.a1 == 0
            &&& usize::BITS == 32 ==> registers.a0 == stime_value % 0x1_0000_0000
                && registers.a1 == stime_value / 0x1_0000_0000
        }),
{
    let registers = (Extension::SetTimer { stime_value }).spec_encode();
    if usize::BITS == 64 {
        assert(registers.a0 == ((stime_value as i64) as u64));
        assert(((stime_value as i64) as u64) == stime_value) by (bit_vector);
    } else {
        assert(registers.a0 == ((stime_value as i32) as u32));
        assert(registers.a1 == (((stime_value >> 32) as i32) as u32));
        assert(((stime_value as i32) as u32) == stime_value % 0x1_0000_0000) by (bit_vector);
        assert((((stime_value >> 32) as i32) as u32) == stime_value / 0x1_0000_0000)
            by (bit_vector);
    }
}

/// The deadline that is read from the argument registers is the first
/// register alone where a register has 64 bits, whatever the second holds.
/// Where a register has 32 bits it is the second register as the upper half
/// above the first as the lower half.
pub proof fn lemma_deadline(a0: usize, a1: usize)
    ensures
        usize::BITS == 64 ==> spec_deadline(a0, a1) == a0,
        usize::BITS == 32 ==> spec_deadline(a0, a1) == a0 + a1 * 0x1_0000_0000,
{
    if usize::BITS == 32 {
        let low = a0 as u64;
        let high = a1 as u64;
        assert(low | (high << 32) == low + high * 0x1_0000_0000) by (bit_vector)
            requires
                low <= 0xffff_ffff,
                high <= 0xffff_ffff,
        ;
    }
}

/// A deadline that was read from the argument registers is encoded into the
/// registers that it was read from: the first register comes back as it was,
/// and so does the second where a register has 32 bits; where it has 64, the
/// second register is not in use and comes back as zero.
pub proof fn lemma_deadline_round_trip(a0: usize, a1: usize)
    ensures
        ({
            let registers = (Extension::SetTimer {
                stime_value: spec_deadline(a0, a1),
            }).spec_encode();
            &&& registers.a0 == a0
            &&& registers.a1 == if usize::BITS == 64 {
                0
            } else {
                a1
            }
        }),
{
    lemma_deadline(a0, a1);
    lemma_set_timer_encode(spec_deadline(a0, a1));
}

/// Decoding the registers of a call gives the call back.
pub proof fn lemma_decode_encode(call: CompatibleSbi)
    ensures
        ({
            let registers = call.spec_encode();
            spec_decode_sbi_call(registers.a0, registers.a1, registers.a6, registers.a7) == Ok::<
                CompatibleSbi,
                DecodeError,
            >(call)
        }),
{
    let registers = call.spec_encode();
    match call {
        CompatibleSbi::Legacy(_) => {},
        CompatibleSbi::Extension(Extension::Base(function)) => {
            let extension_id = function.spec_arg0();
            assert((extension_id as usize) as isize == extension_id) by (bit_vector);
        },
        CompatibleSbi::Extension(Extension::SetTimer { stime_value }) => {
            lemma_set_timer_encode(stime_value);
            if usize::BITS == 32 {
                let a0 = registers.a0 as u64;
                let a1 = registers.a1 as u64;
                assert(a0 | (a1 << 32) == stime_value) by (bit_vector)
                    requires
                        a0 == stime_value % 0x1_0000_0000,
                        a1 == stime_value / 0x1_0000_0000,
                ;
            }
        },
        CompatibleSbi::Extension(Extension::SendIpi { hart_mask }) => {
            assert((hart_mask as isize) as usize == hart_mask) by (bit_vector);
        },
        CompatibleSbi::Extension(Extension::Shutdown) => {},
    }
}

/// Registers that are the encoding of a call decode to a call with that same
/// encoding.
pub proof fn lemma_encode_decode(registers: SbiRegisters)
    requires
        exists|call: CompatibleSbi| call.spec_encode() == registers,
    ensures
        spec_decode_sbi_call(registers.a0, registers.a1, registers.a6, registers.a7) matches Ok(
            call,
        ) && call.spec_encode() == registers,
{
    let call = choose|call: CompatibleSbi| call.spec_encode() == registers;
    lemma_decode_encode(call);
}

} // verus!
