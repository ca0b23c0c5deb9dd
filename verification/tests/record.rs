use xed::{
    Attribute, DecodedFields, DecodedInst, Inst, InstOperandParts, InstParts,
    MemOperandRecord, Operand, OperandAction, OperandValueRecord, Register, SimpleFlag,
};

fn quiet_fields() -> DecodedFields {
    DecodedFields {
        modrm: 0,
        nprefixes: 0,
        vector_length_bits: 0,
        operand_width: 32,
        mode: 2,
        smode: 2,
        unsigned_immediate: 0,
        immediate_is_signed: false,
        immediate_width_bits: 0,
        signed_immediate: 0,
        second_immediate: 0,
        branch_displacement: 0,
        branch_displacement_width_bits: 0,
        mask_reg: 0,
        zeroing_bit: false,
        bcast_bit: false,
        has_rep_prefix: false,
        has_repne_prefix: false,
        atomic: false,
        avx512_dest_elements: 0,
        masked_vector_op: false,
        apx_zu: false,
        iform_dispatch: 0,
        input_chip: None,
        dfv_reg: None,
        class_apx: false,
        class_amx: false,
        class_avx: false,
        class_avx512: false,
        class_avx512_maskop: false,
        class_sse: false,
    }
}

fn operand_parts(name: u32, ty: u32, action: u32) -> InstOperandParts {
    InstOperandParts {
        name,
        visibility: 1,
        ty,
        xtype: 0,
        width: 0,
        nonterminal: 0,
        reg: 0,
        action,
        imm: 0,
    }
}

// A form shaped like a one-byte no-operation: no operands, the base
// instruction set.
fn nop_form() -> Inst {
    let parts = InstParts {
        iclass: 554,
        iform: 0,
        category: 62,
        extension: 20,
        isa_set: 137,
        cpl: 3,
        flag_info_index: 0,
        attributes_a1: 0,
        attributes_a2: 0,
        exception: 0,
    };
    Inst::from_parts(parts, &Vec::new()).unwrap()
}

// A form shaped like a count-leading-zeros with a register destination
// and a memory source: REG0 written, MEM0 read.
fn lzcnt_form() -> Inst {
    let parts = InstParts {
        iclass: 484,
        iform: 0,
        category: 56,
        extension: 43,
        isa_set: 146,
        cpl: 3,
        flag_info_index: 1,
        attributes_a1: 0,
        attributes_a2: 0,
        exception: 0,
    };
    let ops = vec![
        operand_parts(90, 4, 3),  // REG0, nonterminal-typed slot, write-only
        operand_parts(49, 2, 2),  // MEM0, read-only
    ];
    Inst::from_parts(parts, &ops).unwrap()
}

#[test]
fn form_validation_accepts_good_parts() {
    let form = lzcnt_form();
    assert_eq!(form.iclass().0, 484);
    assert_eq!(form.category().into_raw(), 56);
    assert_eq!(form.extension().into_raw(), 43);
    assert_eq!(form.isa_set().into_raw(), 146);
    assert_eq!(form.operands().len(), 2);
    assert_eq!(form.cpl(), 3);
    assert_eq!(form.flag_info_index(), 1);
    assert!(form.exception().is_none());
}

#[test]
fn form_validation_rejects_bad_category() {
    let parts = InstParts {
        iclass: 1,
        iform: 1,
        category: 9999,
        extension: 20,
        isa_set: 137,
        cpl: 3,
        flag_info_index: 0,
        attributes_a1: 0,
        attributes_a2: 0,
        exception: 0,
    };
    let err = Inst::from_parts(parts, &Vec::new()).unwrap_err();
    assert_eq!(err.value(), 9999);
    assert_eq!(err.enum_name(), "Category");
}

#[test]
fn form_validation_rejects_bad_operand_action() {
    let parts = InstParts {
        iclass: 1,
        iform: 1,
        category: 62,
        extension: 20,
        isa_set: 137,
        cpl: 3,
        flag_info_index: 0,
        attributes_a1: 0,
        attributes_a2: 0,
        exception: 0,
    };
    let ops = vec![operand_parts(90, 7, 99)];
    let err = Inst::from_parts(parts, &ops).unwrap_err();
    assert_eq!(err.value(), 99);
    assert_eq!(err.enum_name(), "OperandAction");
}

#[test]
fn operand_template_predicates() {
    let form = lzcnt_form();
    let dest = form.operands()[0];
    let src = form.operands()[1];
    assert!(dest.written());
    assert!(dest.written_only());
    assert!(!dest.read());
    assert!(src.read());
    assert!(src.read_only());
    assert!(!src.written());
    assert_eq!(dest.rw(), Some(OperandAction::W));
    assert_eq!(src.name().into_raw(), 49);
}

#[test]
fn nop_record_has_no_operands_and_length_one() {
    let input = [0x90u8, 0xCC, 0xCC];
    let record = DecodedInst::new(
        nop_form(),
        quiet_fields(),
        &input,
        1,
        Vec::new(),
        Vec::new(),
        Vec::new(),
        None,
    );
    assert_eq!(record.length(), 1);
    assert_eq!(record.bytes().as_slice(), &[0x90]);
    assert_eq!(record.iclass().0, 554);
    assert_eq!(record.operands().len(), 0);
    assert!(record.operands().is_empty());
    assert!(record.operands().get(0).is_none());
    assert_eq!(record.memory_operands().len(), 0);
    assert!(!record.uses_rflags());
    assert!(record.rflags_info().is_none());
}

fn lzcnt_record() -> DecodedInst {
    let input = [0xF3u8, 0x0F, 0xBD, 0x17, 0x90, 0x90];
    let operand_values = vec![
        OperandValueRecord { length_bits: 32, elements: 1, element_size_bits: 32, element_type: None },
        OperandValueRecord { length_bits: 32, elements: 1, element_size_bits: 32, element_type: None },
    ];
    let mem_ops = vec![MemOperandRecord {
        seg: Some(Register::from_raw(232).unwrap()),
        base: Some(Register::from_raw(105).unwrap()),  // RDI
        index: None,
        scale: 1,
        displacement: 0,
        displacement_width_bits: 0,
        length: 4,
        address_width: 64,
    }];
    let regs = vec![(
        Operand::from_raw(90).unwrap(),
        Register::from_raw(68).unwrap(),  // EDX
    )];
    DecodedInst::new(
        lzcnt_form(),
        quiet_fields(),
        &input,
        4,
        operand_values,
        mem_ops,
        regs,
        None,
    )
}

#[test]
fn memory_source_record_reads_its_memory_operand() {
    let record = lzcnt_record();
    assert_eq!(record.length(), 4);
    assert_eq!(record.bytes().as_slice(), &[0xF3, 0x0F, 0xBD, 0x17]);
    assert_eq!(record.operands().len(), 2);
    let mems = record.memory_operands();
    assert_eq!(mems.len(), 1);
    let mem = mems.get(0).unwrap();
    assert_eq!(mem.base_reg().unwrap().into_raw(), 105);
    assert!(mem.index_reg().is_none());
    assert_eq!(mem.displacement(), 0);
    assert_eq!(mem.operand_length(), 4);
    assert_eq!(mem.address_width(), 64);
    assert!(mem.mem_read());
    assert!(!mem.mem_written());
    assert!(!mem.mem_written_only());
    assert!(mems.get(1).is_none());
}

#[test]
fn resolved_registers_are_looked_up_by_role() {
    let record = lzcnt_record();
    let reg0 = Operand::from_raw(90).unwrap();
    let reg1 = Operand::from_raw(91).unwrap();
    assert_eq!(record.reg(reg0).unwrap().into_raw(), 68);
    assert!(record.reg(reg1).is_none());
}

#[test]
fn record_length_never_exceeds_the_protocol_bound() {
    let input = [0u8; 40];
    let record = DecodedInst::new(
        nop_form(),
        quiet_fields(),
        &input,
        15,
        Vec::new(),
        Vec::new(),
        Vec::new(),
        None,
    );
    assert_eq!(record.length(), 15);
    assert!(record.length() <= 15);
    assert!(record.length() <= input.len());
    assert_eq!(record.bytes().len(), 15);
}

#[test]
fn operand_count_matches_the_form_template_count() {
    let record = lzcnt_record();
    assert_eq!(record.operands().len(), record.form().operands().len());
    let nop = DecodedInst::new(
        nop_form(),
        quiet_fields(),
        &[0x90u8],
        1,
        Vec::new(),
        Vec::new(),
        Vec::new(),
        None,
    );
    assert_eq!(nop.operands().len(), nop.form().operands().len());
}

#[test]
fn operand_values_are_bounds_checked() {
    let record = lzcnt_record();
    let ops = record.operands();
    let first = ops.get(0).unwrap();
    assert_eq!(first.length_bits(), 32);
    assert_eq!(first.length(), 4);
    assert_eq!(first.elements(), 1);
    assert_eq!(first.element_size_bits(), 32);
    assert!(first.element_type().is_none());
    assert!(ops.get(2).is_none());
    assert!(ops.get(100).is_none());
}

fn masked_form(dest_name: u32, dest_action: u32) -> Inst {
    let parts = InstParts {
        iclass: 700,
        iform: 0,
        category: 5,
        extension: 12,
        isa_set: 40,
        cpl: 3,
        flag_info_index: 0,
        attributes_a1: 0,
        attributes_a2: 0,
        exception: 0,
    };
    let ops = vec![operand_parts(dest_name, 4, dest_action)];
    Inst::from_parts(parts, &ops).unwrap()
}

fn masked_record(dest_name: u32, dest_action: u32, mask_reg: u32, zeroing: bool) -> DecodedInst {
    let mut fields = quiet_fields();
    fields.mask_reg = mask_reg;
    fields.zeroing_bit = zeroing;
    let operand_values = vec![OperandValueRecord {
        length_bits: 512,
        elements: 16,
        element_size_bits: 32,
        element_type: None,
    }];
    // A memory-destination form carries exactly one memory operand.
    let mem_ops = if dest_name == 49 {
        vec![MemOperandRecord {
            seg: None,
            base: Some(Register::from_raw(98).unwrap()),
            index: None,
            scale: 0,
            displacement: 0,
            displacement_width_bits: 0,
            length: 64,
            address_width: 64,
        }]
    } else {
        Vec::new()
    };
    DecodedInst::new(
        masked_form(dest_name, dest_action),
        fields,
        &[0x62u8, 0x01, 0x02, 0x03, 0x04, 0x05],
        6,
        operand_values,
        mem_ops,
        Vec::new(),
        None,
    )
}

#[test]
fn merging_masking_adds_an_input_dependence() {
    // A register write under merging masking becomes a read with a
    // conditional write.
    let record = masked_record(90, 3, 1, false);
    assert!(record.masking());
    assert!(record.merging());
    assert!(!record.zeroing());
    let op = record.operands().get(0).unwrap();
    assert_eq!(op.action(), Some(OperandAction::RCW));
    assert!(record.conditionally_writes_registers());
}

#[test]
fn zeroing_masking_keeps_the_plain_write() {
    let record = masked_record(90, 3, 1, true);
    assert!(record.masking());
    assert!(record.zeroing());
    assert!(!record.merging());
    let op = record.operands().get(0).unwrap();
    assert_eq!(op.action(), Some(OperandAction::W));
    assert!(!record.conditionally_writes_registers());
}

#[test]
fn merging_store_becomes_a_conditional_write() {
    // A memory-destination write under merging masking is conditionally
    // written, not read.
    let record = masked_record(49, 3, 1, false);
    let op = record.operands().get(0).unwrap();
    assert_eq!(op.action(), Some(OperandAction::CW));
}

#[test]
fn unmasked_operations_keep_the_template_action() {
    let record = masked_record(90, 1, 0, false);
    assert!(!record.masking());
    assert!(!record.merging());
    let op = record.operands().get(0).unwrap();
    assert_eq!(op.action(), Some(OperandAction::RW));
}

#[test]
fn lock_elision_needs_prefix_and_capability() {
    let mut parts = InstParts {
        iclass: 10,
        iform: 0,
        category: 62,
        extension: 20,
        isa_set: 137,
        cpl: 3,
        flag_info_index: 0,
        attributes_a1: 1u64 << 49,  // elision-acquire capable
        attributes_a2: 0,
        exception: 0,
    };
    let form = Inst::from_parts(parts, &Vec::new()).unwrap();
    let mut fields = quiet_fields();
    fields.has_repne_prefix = true;
    fields.atomic = true;
    let record = DecodedInst::new(
        form,
        fields,
        &[0xF2u8, 0xF0, 0x01, 0x02],
        4,
        Vec::new(),
        Vec::new(),
        Vec::new(),
        None,
    );
    assert!(record.is_xacquire());
    assert!(!record.is_xrelease());

    parts.attributes_a1 = 0;
    let plain_form = Inst::from_parts(parts, &Vec::new()).unwrap();
    let mut plain_fields = quiet_fields();
    plain_fields.has_repne_prefix = true;
    plain_fields.atomic = true;
    let plain = DecodedInst::new(
        plain_form,
        plain_fields,
        &[0xF2u8, 0xF0, 0x01, 0x02],
        4,
        Vec::new(),
        Vec::new(),
        Vec::new(),
        None,
    );
    assert!(!plain.is_xacquire());
}

#[test]
fn prefetch_and_broadcast_come_from_the_form() {
    let parts = InstParts {
        iclass: 10,
        iform: 0,
        category: 21,  // the broadcast category
        extension: 20,
        isa_set: 137,
        cpl: 3,
        flag_info_index: 0,
        attributes_a1: 0,
        attributes_a2: 1u64 << (76 - 64),  // the prefetch attribute bit
        exception: 0,
    };
    let form = Inst::from_parts(parts, &Vec::new()).unwrap();
    let record = DecodedInst::new(
        form,
        quiet_fields(),
        &[0x0Fu8, 0x18],
        2,
        Vec::new(),
        Vec::new(),
        Vec::new(),
        None,
    );
    assert!(record.is_prefetch());
    assert!(record.is_broadcast_instruction());
    assert!(record.is_broadcast());
    assert!(!record.uses_embedded_broadcast());
    assert!(record.attribute(Attribute::Prefetch));
}

#[test]
fn flags_view_and_flag_use_are_independent() {
    // A summary can be attached while no flag action exists: the view is
    // present but the instruction does not use the flags.
    let record = DecodedInst::new(
        nop_form(),
        quiet_fields(),
        &[0x90u8],
        1,
        Vec::new(),
        Vec::new(),
        Vec::new(),
        Some(SimpleFlag::new(Vec::new(), false, false)),
    );
    assert!(record.rflags_info().is_some());
    assert!(!record.uses_rflags());
}

#[test]
fn mode_bits_follow_the_mode_selectors() {
    let mut fields = quiet_fields();
    fields.mode = 2;
    fields.smode = 1;
    let record = DecodedInst::new(
        nop_form(),
        fields,
        &[0x90u8],
        1,
        Vec::new(),
        Vec::new(),
        Vec::new(),
        None,
    );
    assert_eq!(record.machine_mode_bits(), 64);
    assert_eq!(record.stack_address_mode_bits(), 32);

    let mut fields16 = quiet_fields();
    fields16.mode = 0;
    fields16.smode = 0;
    let record16 = DecodedInst::new(
        nop_form(),
        fields16,
        &[0x90u8],
        1,
        Vec::new(),
        Vec::new(),
        Vec::new(),
        None,
    );
    assert_eq!(record16.machine_mode_bits(), 16);
    assert_eq!(record16.stack_address_mode_bits(), 16);
}

#[test]
fn immediate_and_displacement_widths_convert_to_bytes() {
    let mut fields = quiet_fields();
    fields.immediate_width_bits = 32;
    fields.branch_displacement_width_bits = 8;
    fields.unsigned_immediate = 0x1234;
    fields.signed_immediate = -4;
    fields.immediate_is_signed = true;
    fields.branch_displacement = -2;
    let record = DecodedInst::new(
        nop_form(),
        fields,
        &[0x90u8],
        1,
        Vec::new(),
        Vec::new(),
        Vec::new(),
        None,
    );
    assert_eq!(record.immediate_width(), 4);
    assert_eq!(record.immediate_width_bits(), 32);
    assert_eq!(record.unsigned_immediate(), 0x1234);
    assert_eq!(record.signed_immediate(), -4);
    assert!(record.immediate_is_signed());
    assert_eq!(record.branch_displacement_width(), 1);
    assert_eq!(record.branch_displacement(), -2);
}

#[test]
fn assembly_is_deterministic() {
    // Two records assembled from identical parts agree on every accessor.
    let a = lzcnt_record();
    let b = lzcnt_record();
    assert_eq!(a.length(), b.length());
    assert_eq!(a.bytes(), b.bytes());
    assert_eq!(a.iclass(), b.iclass());
    assert_eq!(a.iform(), b.iform());
    assert_eq!(a.category(), b.category());
    assert_eq!(a.extension(), b.extension());
    assert_eq!(a.isa_set(), b.isa_set());
    assert_eq!(a.operands().len(), b.operands().len());
    assert_eq!(a.memory_operands().len(), b.memory_operands().len());
    assert_eq!(a.masking(), b.masking());
    assert_eq!(a.merging(), b.merging());
    assert_eq!(a.zeroing(), b.zeroing());
    assert_eq!(a.uses_rflags(), b.uses_rflags());
    assert_eq!(a.unsigned_immediate(), b.unsigned_immediate());
    assert_eq!(
        a.memory_operands().get(0).unwrap().mem_read(),
        b.memory_operands().get(0).unwrap().mem_read()
    );
    let role = Operand::from_raw(90).unwrap();
    assert_eq!(
        a.reg(role).map(|r| r.into_raw()),
        b.reg(role).map(|r| r.into_raw())
    );
}

#[test]
fn record_depends_only_on_the_consumed_prefix() {
    // Assembling from the full input and from its exact truncation gives
    // the same bytes: the record never looks past the consumed length.
    let long_input = [0xF3u8, 0x0F, 0xBD, 0x17, 0xAA, 0xBB, 0xCC];
    let short_input = [0xF3u8, 0x0F, 0xBD, 0x17];
    let from_long = DecodedInst::new(
        nop_form(),
        quiet_fields(),
        &long_input,
        4,
        Vec::new(),
        Vec::new(),
        Vec::new(),
        None,
    );
    let from_short = DecodedInst::new(
        nop_form(),
        quiet_fields(),
        &short_input,
        4,
        Vec::new(),
        Vec::new(),
        Vec::new(),
        None,
    );
    assert_eq!(from_long.bytes(), from_short.bytes());
    assert_eq!(from_long.length(), from_short.length());
}

#[test]
fn conditional_reads_survive_merging_unchanged() {
    // Only plain writes and read-writes are reinterpreted under merging
    // masking; a conditional read keeps its template action.
    let record = masked_record(90, 7, 1, false);
    assert!(record.masking());
    assert!(record.merging());
    let op = record.operands().get(0).unwrap();
    assert_eq!(op.action(), Some(OperandAction::CR));
}


#[test]
fn operands_without_access_classification_read_as_absent() {
    // A template whose access-action slot is empty is accepted, and the
    // operand reads as neither read nor written; its decoded action is
    // absent rather than an error.
    let parts = InstParts {
        iclass: 1,
        iform: 1,
        category: 62,
        extension: 20,
        isa_set: 137,
        cpl: 3,
        flag_info_index: 0,
        attributes_a1: 0,
        attributes_a2: 0,
        exception: 0,
    };
    let ops = vec![operand_parts(90, 2, 0)];
    let form = Inst::from_parts(parts, &ops).unwrap();
    let template = form.operands()[0];
    assert_eq!(template.rw(), None);
    assert!(!template.read());
    assert!(!template.written());
    let record = DecodedInst::new(
        form,
        quiet_fields(),
        &[0x90u8],
        1,
        vec![OperandValueRecord {
            length_bits: 8,
            elements: 1,
            element_size_bits: 8,
            element_type: None,
        }],
        Vec::new(),
        Vec::new(),
        None,
    );
    assert_eq!(record.operands().get(0).unwrap().action(), None);
    assert!(!record.conditionally_writes_registers());
}

#[test]
fn memory_operand_count_follows_the_form() {
    // One memory-operand template, one memory operand; none, none.
    assert_eq!(lzcnt_form().memop_template_count(), 1);
    assert_eq!(nop_form().memop_template_count(), 0);
    let record = lzcnt_record();
    assert_eq!(
        record.memory_operands().len(),
        record.form().memop_template_count()
    );
    assert!(record.memory_operands().len() <= record.operands().len());
}
