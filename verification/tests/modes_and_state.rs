use xed::{AddressWidth, MachineMode, State};

fn all_modes() -> Vec<MachineMode> {
    vec![
        MachineMode::Long64,
        MachineMode::LongCompat32,
        MachineMode::LongCompat16,
        MachineMode::Legacy32,
        MachineMode::Legacy16,
        MachineMode::Real16,
        MachineMode::Real32,
    ]
}

fn all_widths() -> Vec<AddressWidth> {
    vec![AddressWidth::W16b, AddressWidth::W32b, AddressWidth::W64b]
}

#[test]
fn construction_accepts_all_valid_pairs() {
    for mode in all_modes() {
        for width in all_widths() {
            let expect_ok = !(mode == MachineMode::Long64 && width != AddressWidth::W64b);
            let got = State::try_new(mode, width);
            assert_eq!(got.is_some(), expect_ok);
            if let Some(state) = got {
                assert_eq!(state.machine_mode(), mode);
                assert_eq!(state.stack_address_width(), width);
            }
        }
    }
}

#[test]
fn construction_rejects_long64_with_narrow_stack() {
    assert!(State::try_new(MachineMode::Long64, AddressWidth::W16b).is_none());
    assert!(State::try_new(MachineMode::Long64, AddressWidth::W32b).is_none());
    assert!(State::try_new(MachineMode::Long64, AddressWidth::W64b).is_some());
}

#[test]
fn long64_state_helper() {
    let state = State::long64();
    assert_eq!(state.machine_mode(), MachineMode::Long64);
    assert_eq!(state.stack_address_width(), AddressWidth::W64b);
    assert!(state.is_long64_mode());
    assert!(!state.is_real_mode());
}

#[test]
fn address_width_follows_machine_mode() {
    let cases = [
        (MachineMode::Long64, AddressWidth::W64b),
        (MachineMode::LongCompat32, AddressWidth::W32b),
        (MachineMode::Legacy32, AddressWidth::W32b),
        (MachineMode::Real32, AddressWidth::W32b),
        (MachineMode::Real16, AddressWidth::W32b),
        (MachineMode::LongCompat16, AddressWidth::W16b),
        (MachineMode::Legacy16, AddressWidth::W16b),
    ];
    for (mode, width) in cases {
        let state = State::new(mode, AddressWidth::W64b);
        assert_eq!(state.address_width(), width);
    }
}

#[test]
fn mode_width_predicates() {
    let w = AddressWidth::W64b;
    assert!(State::new(MachineMode::Legacy16, w).is_mode_width_16());
    assert!(State::new(MachineMode::LongCompat16, w).is_mode_width_16());
    assert!(!State::new(MachineMode::Real16, w).is_mode_width_16());
    assert!(State::new(MachineMode::Legacy32, w).is_mode_width_32());
    assert!(State::new(MachineMode::LongCompat32, w).is_mode_width_32());
    assert!(!State::new(MachineMode::Real32, w).is_mode_width_32());
    assert!(!State::new(MachineMode::Long64, w).is_mode_width_32());
}

#[test]
fn real_mode_predicate() {
    let w = AddressWidth::W16b;
    assert!(State::new(MachineMode::Real16, w).is_real_mode());
    assert!(State::new(MachineMode::Real32, w).is_real_mode());
    assert!(!State::new(MachineMode::Legacy16, w).is_real_mode());
}

#[test]
fn state_setters() {
    let mut state = State::new(MachineMode::Legacy32, AddressWidth::W32b);
    state.set_machine_mode(MachineMode::Legacy16);
    assert_eq!(state.machine_mode(), MachineMode::Legacy16);
    assert_eq!(state.stack_address_width(), AddressWidth::W32b);
    state.set_stack_address_width(AddressWidth::W16b);
    assert_eq!(state.stack_address_width(), AddressWidth::W16b);
}

#[test]
fn machine_mode_raw_values() {
    let expected = [
        (MachineMode::Long64, 1),
        (MachineMode::LongCompat32, 2),
        (MachineMode::LongCompat16, 3),
        (MachineMode::Legacy32, 4),
        (MachineMode::Legacy16, 5),
        (MachineMode::Real16, 6),
        (MachineMode::Real32, 7),
    ];
    for (mode, raw) in expected {
        assert_eq!(mode.into_raw(), raw);
        assert_eq!(MachineMode::from_raw(raw).unwrap(), mode);
    }
    assert_eq!(MachineMode::from_raw(0).unwrap_err().value(), 0);
    assert_eq!(MachineMode::from_raw(8).unwrap_err().enum_name(), "MachineMode");
    let far = MachineMode::from_raw(u32::MAX).unwrap_err();
    assert_eq!(far.value(), u32::MAX);
    assert_eq!(far.enum_name(), "MachineMode");
}

#[test]
fn mode_and_width_names_match_the_variants() {
    assert_eq!(MachineMode::Long64.name(), "Long64");
    assert_eq!(MachineMode::Real32.name(), "Real32");
    assert_eq!(AddressWidth::W16b.name(), "W16b");
    assert_eq!(AddressWidth::W64b.name(), "W64b");
}

#[test]
fn address_width_raw_values_and_bits() {
    let expected = [
        (AddressWidth::W16b, 2, 16),
        (AddressWidth::W32b, 4, 32),
        (AddressWidth::W64b, 8, 64),
    ];
    for (width, raw, bits) in expected {
        assert_eq!(width.into_raw(), raw);
        assert_eq!(width.bits(), bits);
        assert_eq!(AddressWidth::from_raw(raw).unwrap(), width);
    }
    assert!(AddressWidth::from_raw(0).is_err());
    assert!(AddressWidth::from_raw(3).is_err());
    let err = AddressWidth::from_raw(9).unwrap_err();
    assert_eq!(err.value(), 9);
    assert_eq!(err.enum_name(), "AddressWidth");
}
