use xed::{feature_check, Chip, ChipFeatures, Error, IsaSet};

#[test]
fn empty_mask_has_nothing() {
    let mask = ChipFeatures::none();
    for raw in 1..225 {
        let isa = IsaSet::from_raw(raw).unwrap();
        assert!(!mask.has_isa_set(isa));
    }
}

#[test]
fn enable_and_disable_one_isa_set() {
    let lzcnt = IsaSet::from_raw(146).unwrap();
    let i86 = IsaSet::from_raw(137).unwrap();
    let mut mask = ChipFeatures::none();
    mask.enable_isa_set(lzcnt);
    assert!(mask.has_isa_set(lzcnt));
    assert!(!mask.has_isa_set(i86));
    mask.disable_isa_set(lzcnt);
    assert!(!mask.has_isa_set(lzcnt));
}

#[test]
fn enabling_is_idempotent_and_keeps_others() {
    let a = IsaSet::from_raw(7).unwrap();
    let b = IsaSet::from_raw(200).unwrap();
    let mut mask = ChipFeatures::none();
    mask.enable_isa_set(a);
    mask.enable_isa_set(b);
    mask.enable_isa_set(a);
    assert!(mask.has_isa_set(a));
    assert!(mask.has_isa_set(b));
    mask.disable_isa_set(a);
    assert!(!mask.has_isa_set(a));
    assert!(mask.has_isa_set(b));
}

#[test]
fn slots_round_trip() {
    let a = IsaSet::from_raw(3).unwrap();
    let b = IsaSet::from_raw(130).unwrap();
    let mut mask = ChipFeatures::none();
    mask.enable_isa_set(a);
    mask.enable_isa_set(b);
    let slots = mask.slots().clone();
    assert!(slots[3]);
    assert!(slots[130]);
    assert!(!slots[4]);
    let rebuilt = ChipFeatures::from_slots(&slots);
    assert!(rebuilt.has_isa_set(a));
    assert!(rebuilt.has_isa_set(b));
    assert!(!rebuilt.has_isa_set(IsaSet::from_raw(4).unwrap()));
}

#[test]
fn feature_gate_rejects_missing_isa_set() {
    let lzcnt = IsaSet::from_raw(146).unwrap();
    let mask = ChipFeatures::none();
    assert_eq!(feature_check(Some(&mask), lzcnt), Some(Error::InvalidForChip));
}

#[test]
fn feature_gate_passes_present_isa_set() {
    let lzcnt = IsaSet::from_raw(146).unwrap();
    let mut mask = ChipFeatures::none();
    mask.enable_isa_set(lzcnt);
    assert_eq!(feature_check(Some(&mask), lzcnt), None);
}

#[test]
fn no_mask_gates_nothing() {
    for raw in [1, 50, 146, 224] {
        let isa = IsaSet::from_raw(raw).unwrap();
        assert_eq!(feature_check(None, isa), None);
    }
}

#[test]
fn feature_gate_is_monotonic_under_growth() {
    // A form reachable under a mask stays reachable under every mask that
    // enables a superset of the same ISA sets.
    let lzcnt = IsaSet::from_raw(146).unwrap();
    let extra = IsaSet::from_raw(20).unwrap();
    let mut small = ChipFeatures::none();
    small.enable_isa_set(lzcnt);
    assert_eq!(feature_check(Some(&small), lzcnt), None);
    let mut bigger = small.clone();
    bigger.enable_isa_set(extra);
    assert_eq!(feature_check(Some(&bigger), lzcnt), None);
    assert_eq!(feature_check(Some(&bigger), extra), None);
}

#[test]
fn chip_raw_values_are_checked() {
    assert!(Chip::from_raw(0).is_err());
    assert!(Chip::from_raw(72).is_ok());
    assert!(Chip::from_raw(73).is_err());
    assert_eq!(Chip::from_raw(5).unwrap().into_raw(), 5);
}

#[test]
fn isa_set_raw_values_are_checked() {
    assert!(IsaSet::from_raw(0).is_err());
    assert!(IsaSet::from_raw(224).is_ok());
    assert!(IsaSet::from_raw(225).is_err());
    assert_eq!(IsaSet::from_raw(146).unwrap().into_raw(), 146);
}
