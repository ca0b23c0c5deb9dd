use xed::Error;

fn error_table() -> Vec<(Error, u32)> {
    vec![
        (Error::BufferTooShort, 1),
        (Error::GeneralError, 2),
        (Error::InvalidForChip, 3),
        (Error::BadRegister, 4),
        (Error::BadLockPrefix, 5),
        (Error::BadRepPrefix, 6),
        (Error::BadLegacyPrefix, 7),
        (Error::BadRexPrefix, 8),
        (Error::BadMap, 9),
        (Error::BadEvexVPrime, 10),
        (Error::BadEvexZNoMasking, 11),
        (Error::NoOutputPointer, 12),
        (Error::NoAgenCallBackRegistered, 13),
        (Error::BadMemopIndex, 14),
        (Error::CallbackProblem, 15),
        (Error::GatherRegs, 16),
        (Error::InstrTooLong, 17),
        (Error::InvalidMode, 18),
        (Error::BadEvexLl, 19),
        (Error::BadRegMatch, 20),
    ]
}

#[test]
fn error_raw_values_round_trip() {
    for (error, raw) in error_table() {
        assert_eq!(error.into_raw(), raw);
        assert_eq!(Error::from_raw(raw), Some(error));
    }
}

#[test]
fn raw_zero_means_no_error() {
    assert_eq!(Error::from_raw(0), None);
}

#[test]
fn raw_values_outside_the_enumeration_mean_no_error() {
    assert_eq!(Error::from_raw(21), None);
    assert_eq!(Error::from_raw(1000), None);
}

#[test]
fn empty_input_maps_to_buffer_too_short() {
    // The raw outcome the decoder reports for an empty byte buffer.
    assert_eq!(Error::from_raw(1), Some(Error::BufferTooShort));
}

#[test]
fn lock_violation_maps_to_bad_lock_prefix() {
    // The raw outcome the decoder reports for a LOCK prefix on a form
    // that permits none.
    assert_eq!(Error::from_raw(5), Some(Error::BadLockPrefix));
}

#[test]
fn error_descriptions_are_distinct() {
    let table = error_table();
    for (i, (a, _)) in table.iter().enumerate() {
        for (b, _) in table.iter().skip(i + 1) {
            assert_ne!(a.describe(), b.describe());
        }
    }
}

#[test]
fn invalid_enum_value_carries_value_and_name() {
    let err = xed::Category::from_raw(9999).unwrap_err();
    assert_eq!(err.value(), 9999);
    assert_eq!(err.enum_name(), "Category");
}
