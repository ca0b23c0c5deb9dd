use xed::{Action, Flag, FlagAction, FlagSet, SimpleFlag};

#[test]
fn only_a_test_reads_its_flag() {
    let actions = [
        Action::U,
        Action::TST,
        Action::MOD,
        Action::ZERO,
        Action::POP,
        Action::AH,
        Action::ONE,
    ];
    for action in actions {
        assert_eq!(action.is_read(), action == Action::TST);
        assert_eq!(action.is_write(), action != Action::TST);
    }
}

#[test]
fn action_raw_values_round_trip() {
    let expected = [
        (Action::U, 1),
        (Action::TST, 2),
        (Action::MOD, 3),
        (Action::ZERO, 4),
        (Action::POP, 5),
        (Action::AH, 6),
        (Action::ONE, 7),
    ];
    for (action, raw) in expected {
        assert_eq!(action.into_raw(), raw);
        assert_eq!(Action::from_raw(raw), Some(action));
    }
    assert_eq!(Action::from_raw(0), None);
    assert_eq!(Action::from_raw(8), None);
}

#[test]
fn flag_masks_sit_at_register_positions() {
    assert_eq!(Flag::CF.set_mask(), 0x1);
    assert_eq!(Flag::PF.set_mask(), 0x4);
    assert_eq!(Flag::AF.set_mask(), 0x10);
    assert_eq!(Flag::ZF.set_mask(), 0x40);
    assert_eq!(Flag::SF.set_mask(), 0x80);
    assert_eq!(Flag::TF.set_mask(), 0x100);
    assert_eq!(Flag::IF.set_mask(), 0x200);
    assert_eq!(Flag::DF.set_mask(), 0x400);
    assert_eq!(Flag::OF.set_mask(), 0x800);
    assert_eq!(Flag::IOPL.set_mask(), 0x3000);
    assert_eq!(Flag::ID.set_mask(), 0x20_0000);
    assert_eq!(Flag::FC3.set_mask(), 0x8000_0000);
}

#[test]
fn flag_raw_values_round_trip() {
    for raw in 1..=21 {
        let flag = Flag::from_raw(raw).unwrap();
        assert_eq!(flag.into_raw(), raw);
    }
    assert_eq!(Flag::from_raw(0), None);
    assert_eq!(Flag::from_raw(22), None);
}

#[test]
fn flag_action_pairs_keep_their_parts() {
    let fa = FlagAction::new(Flag::ZF, Action::MOD);
    assert_eq!(fa.flag_name(), Flag::ZF);
    assert_eq!(fa.action(), Action::MOD);
}

#[test]
fn flag_set_mask_and_subset() {
    let small = FlagSet::from_mask(0x41);
    let large = FlagSet::from_mask(0x841);
    let other = FlagSet::from_mask(0x800);
    assert_eq!(small.as_mask(), 0x41);
    assert!(small.is_subset_of(&large));
    assert!(!large.is_subset_of(&small));
    assert!(other.is_subset_of(&large));
    assert!(!small.is_subset_of(&other));
    assert!(small.is_subset_of(&small));
}

#[test]
fn simple_flag_derives_its_sets_from_the_actions() {
    // An arithmetic-style record: tests CF, modifies ZF and SF, leaves AF
    // undefined.
    let actions = vec![
        FlagAction::new(Flag::CF, Action::TST),
        FlagAction::new(Flag::ZF, Action::MOD),
        FlagAction::new(Flag::SF, Action::MOD),
        FlagAction::new(Flag::AF, Action::U),
    ];
    let summary = SimpleFlag::new(actions, false, true);
    assert_eq!(summary.read_flag_set().as_mask(), 0x1);
    assert_eq!(summary.written_flag_set().as_mask(), 0x40 | 0x80 | 0x10);
    assert_eq!(summary.undefined_flag_set().as_mask(), 0x10);
    assert!(summary.reads_flags());
    assert!(summary.writes_flags());
    assert!(!summary.may_write());
    assert!(summary.must_write());
    assert_eq!(summary.flag_actions().len(), 4);
}

#[test]
fn undefined_flags_count_as_written() {
    let actions = vec![FlagAction::new(Flag::OF, Action::U)];
    let summary = SimpleFlag::new(actions, false, true);
    assert_eq!(summary.read_flag_set().as_mask(), 0);
    assert_eq!(summary.written_flag_set().as_mask(), 0x800);
    assert_eq!(summary.undefined_flag_set().as_mask(), 0x800);
    assert!(!summary.reads_flags());
    assert!(summary.writes_flags());
}

#[test]
fn read_only_summary_writes_nothing() {
    let actions = vec![
        FlagAction::new(Flag::CF, Action::TST),
        FlagAction::new(Flag::ZF, Action::TST),
    ];
    let summary = SimpleFlag::new(actions, false, false);
    assert_eq!(summary.read_flag_set().as_mask(), 0x41);
    assert_eq!(summary.written_flag_set().as_mask(), 0);
    assert!(summary.reads_flags());
    assert!(!summary.writes_flags());
}

#[test]
fn empty_summary_touches_nothing() {
    let summary = SimpleFlag::new(Vec::new(), false, false);
    assert_eq!(summary.read_flag_set().as_mask(), 0);
    assert_eq!(summary.written_flag_set().as_mask(), 0);
    assert_eq!(summary.undefined_flag_set().as_mask(), 0);
    assert!(!summary.reads_flags());
    assert!(!summary.writes_flags());
}

#[test]
fn iopl_occupies_two_bits() {
    let actions = vec![FlagAction::new(Flag::IOPL, Action::MOD)];
    let summary = SimpleFlag::new(actions, false, true);
    assert_eq!(summary.written_flag_set().as_mask(), 0x3000);
}

#[test]
fn flag_set_membership() {
    let set = FlagSet::from_mask(0x841);
    assert!(set.contains(Flag::CF));
    assert!(set.contains(Flag::ZF));
    assert!(set.contains(Flag::OF));
    assert!(!set.contains(Flag::SF));
    // The two-bit privilege-level field is in the set only whole.
    let partial = FlagSet::from_mask(0x1000);
    assert!(!partial.contains(Flag::IOPL));
    let whole = FlagSet::from_mask(0x3000);
    assert!(whole.contains(Flag::IOPL));
}

#[test]
fn undefined_set_lies_inside_written_set() {
    let actions = vec![
        FlagAction::new(Flag::CF, Action::MOD),
        FlagAction::new(Flag::OF, Action::U),
        FlagAction::new(Flag::AF, Action::U),
        FlagAction::new(Flag::ZF, Action::TST),
    ];
    let summary = SimpleFlag::new(actions, false, true);
    assert!(summary.undefined_flag_set().is_subset_of(summary.written_flag_set()));
}
