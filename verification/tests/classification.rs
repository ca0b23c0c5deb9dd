use xed::{
    Attribute, Attributes, Category, Exception, Extension, OperandAction, OperandElementType,
    OperandType, OperandVisibility, Register, Syntax,
};

#[test]
fn operand_action_access_table() {
    // (action, read, read_only, written, written_only, read_and_written,
    //  conditional_read, conditional_write)
    let table = [
        (OperandAction::RW, true, false, true, false, true, false, false),
        (OperandAction::R, true, true, false, false, false, false, false),
        (OperandAction::W, false, false, true, true, false, false, false),
        (OperandAction::RCW, true, false, true, false, true, false, true),
        (OperandAction::CW, false, false, true, true, false, false, true),
        (OperandAction::CRW, true, false, true, false, true, true, false),
        (OperandAction::CR, true, true, false, false, false, true, false),
    ];
    for (a, rd, rdo, wr, wro, rw, cr, cw) in table {
        assert_eq!(a.read(), rd);
        assert_eq!(a.read_only(), rdo);
        assert_eq!(a.written(), wr);
        assert_eq!(a.written_only(), wro);
        assert_eq!(a.read_and_written(), rw);
        assert_eq!(a.conditional_read(), cr);
        assert_eq!(a.conditional_write(), cw);
    }
}

#[test]
fn operand_action_raw_round_trip() {
    let expected = [
        (OperandAction::RW, 1),
        (OperandAction::R, 2),
        (OperandAction::W, 3),
        (OperandAction::RCW, 4),
        (OperandAction::CW, 5),
        (OperandAction::CRW, 6),
        (OperandAction::CR, 7),
    ];
    for (action, raw) in expected {
        assert_eq!(action.into_raw(), raw);
        assert_eq!(OperandAction::from_raw(raw), Some(action));
    }
    assert_eq!(OperandAction::from_raw(8), None);
}

#[test]
fn operand_visibility_raw_round_trip() {
    assert_eq!(OperandVisibility::from_raw(1), Some(OperandVisibility::EXPLICIT));
    assert_eq!(OperandVisibility::from_raw(2), Some(OperandVisibility::IMPLICIT));
    assert_eq!(OperandVisibility::from_raw(3), Some(OperandVisibility::SUPPRESSED));
    assert_eq!(OperandVisibility::from_raw(4), None);
    assert_eq!(OperandVisibility::SUPPRESSED.into_raw(), 3);
}

#[test]
fn operand_type_raw_round_trip() {
    assert_eq!(OperandType::from_raw(2), Some(OperandType::IMM));
    assert_eq!(OperandType::from_raw(7), Some(OperandType::REG));
    assert_eq!(OperandType::from_raw(0), None);
    assert_eq!(OperandType::NT_LOOKUP_FN.into_raw(), 4);
}

#[test]
fn operand_element_type_raw_round_trip() {
    assert_eq!(OperandElementType::from_raw(1), Some(OperandElementType::UINT));
    assert_eq!(OperandElementType::from_raw(4), Some(OperandElementType::DOUBLE));
    assert_eq!(OperandElementType::from_raw(12), Some(OperandElementType::UINT8));
    assert_eq!(OperandElementType::from_raw(13), None);
    assert_eq!(OperandElementType::BFLOAT16.into_raw(), 10);
}

#[test]
fn syntax_raw_round_trip() {
    assert_eq!(Syntax::XED.into_raw(), 1);
    assert_eq!(Syntax::ATT.into_raw(), 2);
    assert_eq!(Syntax::INTEL.into_raw(), 3);
    assert_eq!(Syntax::from_raw(3), Some(Syntax::INTEL));
    assert_eq!(Syntax::from_raw(4), None);
}

#[test]
fn category_and_extension_bounds() {
    assert!(Category::from_raw(0).is_err());
    assert!(Category::from_raw(113).is_ok());
    assert!(Category::from_raw(114).is_err());
    assert!(Extension::from_raw(105).is_ok());
    assert!(Extension::from_raw(106).is_err());
    assert!(Exception::from_raw(77).is_ok());
    assert!(Exception::from_raw(78).is_err());
}

#[test]
fn register_bounds() {
    assert!(Register::from_raw(0).is_err());
    assert!(Register::from_raw(364).is_ok());
    assert!(Register::from_raw(365).is_err());
}

#[test]
fn register_class_predicates() {
    let eax = Register::from_raw(66).unwrap();
    assert!(eax.is_gpr32());
    assert!(!eax.is_gpr16());
    assert!(!eax.is_gpr8());

    let ax = Register::from_raw(34).unwrap();
    assert!(ax.is_gpr16());

    let al = Register::from_raw(130).unwrap();
    assert!(al.is_gpr8());
    assert!(!al.is_gpr8h());

    let ah = Register::from_raw(162).unwrap();
    assert!(ah.is_gpr8h());
    assert!(!ah.is_gpr8());

    let rip = Register::from_raw(167).unwrap();
    assert!(rip.is_ip());

    let k0 = Register::from_raw(170).unwrap();
    assert!(k0.is_mask());

    let cs = Register::from_raw(230).unwrap();
    assert!(cs.is_sr());

    let st0 = Register::from_raw(260).unwrap();
    assert!(st0.is_x87());

    let xmm0 = Register::from_raw(269).unwrap();
    assert!(xmm0.is_xmm());
    assert!(!xmm0.is_ymm());

    let ymm0 = Register::from_raw(301).unwrap();
    assert!(ymm0.is_ymm());

    let zmm31 = Register::from_raw(364).unwrap();
    assert!(zmm31.is_zmm());

    let cr0 = Register::from_raw(7).unwrap();
    assert!(cr0.is_cr());

    let dr0 = Register::from_raw(23).unwrap();
    assert!(dr0.is_dr());

    let flags = Register::from_raw(31).unwrap();
    assert!(flags.is_flags());

    let mmx = Register::from_raw(178).unwrap();
    assert!(mmx.is_mmx());

    let tmm = Register::from_raw(251).unwrap();
    assert!(tmm.is_treg());
}

#[test]
fn attribute_raw_round_trip() {
    assert_eq!(Attribute::from_raw(1).unwrap(), Attribute::AmdOnly);
    assert_eq!(Attribute::from_raw(7).unwrap(), Attribute::ByteOp);
    assert_eq!(Attribute::from_raw(56).unwrap(), Attribute::Lockable);
    assert_eq!(Attribute::from_raw(76).unwrap(), Attribute::Prefetch);
    assert_eq!(Attribute::from_raw(104).unwrap(), Attribute::XmmStateW);
    // The enumeration slots that carry no wrapped attribute report the
    // offending value and the target enumeration's name.
    for bad in [0u32, 10, 73, 105] {
        let err = Attribute::from_raw(bad).unwrap_err();
        assert_eq!(err.value(), bad);
        assert_eq!(err.enum_name(), "Attribute");
    }
    assert_eq!(Attribute::Lockable.into_raw(), 56);
    assert_eq!(Attribute::NoRipRel.into_raw(), 74);
}

#[test]
fn attribute_names_match_the_variants() {
    assert_eq!(Attribute::AmdOnly.name(), "AmdOnly");
    assert_eq!(Attribute::ByteOp.name(), "ByteOp");
    assert_eq!(Attribute::Lockable.name(), "Lockable");
    assert_eq!(Attribute::NoRipRel.name(), "NoRipRel");
    assert_eq!(Attribute::XmmStateW.name(), "XmmStateW");
}

#[test]
fn attribute_bit_set_indexes_both_words() {
    let low = Attributes::new(1u64 << 7, 0);
    assert!(low.has(Attribute::ByteOp));
    assert!(!low.has(Attribute::AmdOnly));
    assert!(!low.has(Attribute::Prefetch));

    // Prefetch has raw value 76, which is bit 12 of the high word.
    let high = Attributes::new(0, 1u64 << 12);
    assert!(high.has(Attribute::Prefetch));
    assert!(!high.has(Attribute::ByteOp));

    let none = Attributes::none();
    assert!(!none.has(Attribute::Lockable));
}
