use os::sbi_call::{
    decode_sbi_call, legacy_sbi_result, sbi_result, set_timer, shutdown, BaseFunction,
    CompatibleSbi, DecodeError, Extension, LegacyExtension, ProtocolViolation, SbiError,
    SbiRegisters,
};

const ERRORS: [(SbiError, isize); 8] = [
    (SbiError::Failed, -1),
    (SbiError::NotSupported, -2),
    (SbiError::InvalidParam, -3),
    (SbiError::Denied, -4),
    (SbiError::InvalidAddress, -5),
    (SbiError::AlreadyAvailable, -6),
    (SbiError::AlreadyStarted, -7),
    (SbiError::AlreadyStopped, -8),
];

const BASE: [(BaseFunction, usize); 6] = [
    (BaseFunction::GetSpecVersion, 0),
    (BaseFunction::GetImplId, 1),
    (BaseFunction::GetImplVersion, 2),
    (BaseFunction::GetMVendorId, 4),
    (BaseFunction::GetMArchId, 5),
    (BaseFunction::GetMImpId, 6),
];

fn decode(registers: SbiRegisters) -> Result<CompatibleSbi, DecodeError> {
    decode_sbi_call(registers.a0, registers.a1, registers.a6, registers.a7)
}

#[test]
fn minus_three_is_invalid_param() {
    assert_eq!(SbiError::from_code(-3), Some(SbiError::InvalidParam));
    assert_eq!(sbi_result(-3, 0), Ok(Err(SbiError::InvalidParam)));
}

#[test]
fn minus_nine_is_no_error_kind() {
    assert_eq!(SbiError::from_code(-9), None);
    assert_eq!(sbi_result(-9, 0), Err(ProtocolViolation { code: -9 }));
}

#[test]
fn error_codes_and_kinds_pair_up() {
    for (kind, code) in ERRORS {
        assert_eq!(kind.code(), code);
        assert_eq!(SbiError::from_code(code), Some(kind));
        assert_eq!(sbi_result(code, 77), Ok(Err(kind)));
    }
}

#[test]
fn other_codes_are_violations() {
    for code in [1isize, 2, 8, 100, isize::MAX, -10, -100, isize::MIN] {
        assert_eq!(SbiError::from_code(code), None);
        assert_eq!(sbi_result(code, 77), Err(ProtocolViolation { code }));
    }
    assert_eq!(SbiError::from_code(0), None);
}

#[test]
fn zero_is_success_with_the_value() {
    assert_eq!(sbi_result(0, 0), Ok(Ok(0)));
    assert_eq!(sbi_result(0, 42), Ok(Ok(42)));
    assert_eq!(sbi_result(0, -1), Ok(Ok(-1)));
}

#[test]
fn legacy_answer() {
    assert_eq!(legacy_sbi_result(0), Ok(0));
    assert_eq!(legacy_sbi_result(65), Err(65));
    assert_eq!(legacy_sbi_result(-1), Err(-1));
}

#[test]
fn legacy_registers() {
    let put = LegacyExtension::ConsolePutChar { ch: b'A' };
    assert_eq!(put.id(), 0x1);
    assert_eq!(put.arg0(), 65);
    assert_eq!(put.encode(), SbiRegisters { a0: 65, a1: 0, a6: 0, a7: 1 });
    let get = LegacyExtension::ConsoleGetChar;
    assert_eq!(get.id(), 0x2);
    assert_eq!(get.arg0(), 0);
    assert_eq!(get.encode(), SbiRegisters { a0: 0, a1: 0, a6: 0, a7: 2 });
    assert_eq!(
        LegacyExtension::ConsolePutChar { ch: 255 }.encode(),
        SbiRegisters { a0: 255, a1: 0, a6: 0, a7: 1 }
    );
}

#[test]
fn base_registers() {
    for (function, id) in BASE {
        assert_eq!(function.id() as usize, id);
        assert_eq!(function.arg0(), 0);
        let call = Extension::Base(function);
        assert_eq!(call.id(), 0x10);
        assert_eq!(call.function_id() as usize, id);
        assert_eq!(call.arg0(), 0);
        assert_eq!(call.arg1(), 0);
        assert_eq!(call.encode(), SbiRegisters { a0: 0, a1: 0, a6: id, a7: 0x10 });
    }
    let probe = BaseFunction::ProbeExtension { extension_id: 0x54494D45 };
    assert_eq!(probe.id(), 3);
    assert_eq!(probe.arg0(), 0x54494D45);
    assert_eq!(
        Extension::Base(probe).encode(),
        SbiRegisters { a0: 0x54494D45, a1: 0, a6: 3, a7: 0x10 }
    );
    let negative = BaseFunction::ProbeExtension { extension_id: -1 };
    assert_eq!(
        Extension::Base(negative).encode(),
        SbiRegisters { a0: usize::MAX, a1: 0, a6: 3, a7: 0x10 }
    );
}

#[test]
fn other_standard_registers() {
    let mask = Extension::SendIpi { hart_mask: 0b1010 };
    assert_eq!(mask.id(), 0x735049);
    assert_eq!(mask.function_id(), 0);
    assert_eq!(mask.encode(), SbiRegisters { a0: 0b1010, a1: 0, a6: 0, a7: 0x735049 });
    let all = Extension::SendIpi { hart_mask: usize::MAX };
    assert_eq!(all.arg0(), -1);
    assert_eq!(all.encode(), SbiRegisters { a0: usize::MAX, a1: 0, a6: 0, a7: 0x735049 });
    let off = Extension::Shutdown;
    assert_eq!(off.id(), 0x53525354);
    assert_eq!(off.encode(), SbiRegisters { a0: 0, a1: 0, a6: 0, a7: 0x53525354 });
}

#[test]
fn deadline_fills_the_registers_of_this_machine() {
    let deadline: u64 = 0x1234_5678_9abc_def0;
    let call = Extension::SetTimer { stime_value: deadline };
    assert_eq!(call.id(), 0x54494D45);
    assert_eq!(call.function_id(), 0);
    let registers = call.encode();
    assert_eq!(registers.a6, 0);
    assert_eq!(registers.a7, 0x54494D45);
    if usize::BITS == 64 {
        assert_eq!(registers.a0 as u64, deadline);
        assert_eq!(registers.a1, 0);
        assert_eq!(call.arg1(), 0);
    } else {
        assert_eq!(registers.a0 as u64, 0x9abc_def0);
        assert_eq!(registers.a1 as u64, 0x1234_5678);
    }
    let late = Extension::SetTimer { stime_value: u64::MAX };
    assert_eq!(late.arg0(), -1);
    assert_eq!(late.encode().a0, usize::MAX);
}

#[test]
fn decoding_goes_by_extension_then_function() {
    assert_eq!(
        decode_sbi_call(65, 0, 0, 1),
        Ok(CompatibleSbi::Legacy(LegacyExtension::ConsolePutChar { ch: b'A' }))
    );
    assert_eq!(
        decode_sbi_call(0x141, 9, 9, 1),
        Ok(CompatibleSbi::Legacy(LegacyExtension::ConsolePutChar { ch: b'A' }))
    );
    assert_eq!(
        decode_sbi_call(7, 7, 7, 2),
        Ok(CompatibleSbi::Legacy(LegacyExtension::ConsoleGetChar))
    );
    for (function, id) in BASE {
        assert_eq!(
            decode_sbi_call(5, 5, id, 0x10),
            Ok(CompatibleSbi::Extension(Extension::Base(function)))
        );
    }
    assert_eq!(
        decode_sbi_call(usize::MAX, 0, 3, 0x10),
        Ok(CompatibleSbi::Extension(Extension::Base(BaseFunction::ProbeExtension {
            extension_id: -1
        })))
    );
    let deadline: u64 = if usize::BITS == 64 { 5 } else { 5 | 1 << 32 };
    assert_eq!(
        decode_sbi_call(5, 1, 0, 0x54494D45),
        Ok(CompatibleSbi::Extension(Extension::SetTimer { stime_value: deadline }))
    );
    assert_eq!(
        decode_sbi_call(12, 0, 0, 0x735049),
        Ok(CompatibleSbi::Extension(Extension::SendIpi { hart_mask: 12 }))
    );
    assert_eq!(
        decode_sbi_call(1, 2, 3, 0x53525354),
        Ok(CompatibleSbi::Extension(Extension::Shutdown))
    );
}

#[test]
fn unknown_calls_are_refused() {
    for function in [7usize, 8, 100, usize::MAX] {
        assert_eq!(decode_sbi_call(0, 0, function, 0x10), Err(DecodeError::UnknownBaseFunction));
    }
    for extension in [0usize, 3, 0x11, 0x54494D44, 0x735048, 0x53525355, usize::MAX] {
        assert_eq!(decode_sbi_call(0, 0, 0, extension), Err(DecodeError::UnknownSbiFunction));
    }
}

#[test]
fn decoding_the_registers_of_a_call_gives_the_call() {
    let mut calls = vec![
        CompatibleSbi::Legacy(LegacyExtension::ConsoleGetChar),
        CompatibleSbi::Extension(Extension::Shutdown),
    ];
    for ch in [0u8, 1, b'A', 127, 128, 255] {
        calls.push(CompatibleSbi::Legacy(LegacyExtension::ConsolePutChar { ch }));
    }
    for (function, _) in BASE {
        calls.push(CompatibleSbi::Extension(Extension::Base(function)));
    }
    for extension_id in [0isize, 1, -1, 0x10, isize::MAX, isize::MIN] {
        calls.push(CompatibleSbi::Extension(Extension::Base(BaseFunction::ProbeExtension {
            extension_id,
        })));
    }
    for stime_value in [0u64, 1, 10_000_000, 1 << 31, 1 << 32, (1 << 63) + 5, u64::MAX] {
        calls.push(CompatibleSbi::Extension(Extension::SetTimer { stime_value }));
    }
    for hart_mask in [0usize, 1, 0b1010, usize::MAX] {
        calls.push(CompatibleSbi::Extension(Extension::SendIpi { hart_mask }));
    }
    for call in calls {
        assert_eq!(decode(call.encode()), Ok(call));
    }
}

#[test]
fn named_calls() {
    assert_eq!(shutdown(), Extension::Shutdown);
    assert_eq!(shutdown().encode(), SbiRegisters { a0: 0, a1: 0, a6: 0, a7: 0x53525354 });
    assert_eq!(set_timer(0), Extension::SetTimer { stime_value: 0 });
    assert_eq!(set_timer(77).encode(), SbiRegisters { a0: 77, a1: 0, a6: 0, a7: 0x54494D45 });
}

#[test]
fn deadline_is_read_by_the_width_of_a_register() {
    let timer = |stime_value: u64| Ok(CompatibleSbi::Extension(Extension::SetTimer { stime_value }));
    assert_eq!(decode_sbi_call(0, 0, 0, 0x54494D45), timer(0));
    assert_eq!(decode_sbi_call(usize::MAX, 0, 0, 0x54494D45), timer(usize::MAX as u64));
    if usize::BITS == 64 {
        // The deadline is the first register whole; the second is not read.
        assert_eq!(decode_sbi_call(5, 1, 0, 0x54494D45), timer(5));
        assert_eq!(decode_sbi_call(5, usize::MAX, 0, 0x54494D45), timer(5));
        assert_eq!(decode_sbi_call(usize::MAX, 7, 0, 0x54494D45), timer(u64::MAX));
    } else {
        assert_eq!(decode_sbi_call(5, 1, 0, 0x54494D45), timer(0x1_0000_0005));
        assert_eq!(decode_sbi_call(usize::MAX, usize::MAX, 0, 0x54494D45), timer(u64::MAX));
    }
}

#[test]
fn decoded_deadline_goes_back_into_the_first_register() {
    for a0 in [0usize, 1, 5, 10_000_000, usize::MAX] {
        for a1 in [0usize, 1, usize::MAX] {
            let call = decode_sbi_call(a0, a1, 0, 0x54494D45).expect("the timer is a known call");
            let registers = call.encode();
            assert_eq!(registers.a0, a0);
            assert_eq!(registers.a7, 0x54494D45);
            if usize::BITS == 64 {
                assert_eq!(registers.a1, 0);
            } else {
                assert_eq!(registers.a1, a1);
            }
        }
    }
}
