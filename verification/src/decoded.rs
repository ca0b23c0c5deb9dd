//! The decoded-instruction record: the fixed-capacity output of a decode,
//! with its query accessors and derived access classification.

use vstd::prelude::*;
use crate::attribute::{Attribute, Attributes};
use crate::chip::Chip;
use crate::classify::{Category, Extension, IClass, IForm};
use crate::chip::IsaSet;
use crate::flags::SimpleFlag;
use crate::inst::{
    lemma_memop_template_count_bound, spec_memop_template_count, Inst, InstOperand,
};
use crate::operand::{
    Operand, OperandAction, OperandElementType, OPERAND_MEM0_RAW, OPERAND_MEM1_RAW,
};
use crate::register::Register;

verus! {

/// The protocol bound on an instruction's length: no instruction is longer
/// than 15 bytes.
pub const MAX_INSTRUCTION_BYTES: usize = 15;

/// The raw width-class identifier of a mask-register destination.
pub const OPERAND_WIDTH_MSKW_RAW: u32 = 102;

/// The raw instruction-class identifier of the MOV instruction.
pub const ICLASS_MOV_RAW: u32 = 499;

/// The raw category identifier of the broadcast category.
pub const CATEGORY_BROADCAST_RAW: u32 = 21;

/// The runtime values decoded for one operand slot.
#[derive(Clone, Copy, Debug, PartialEq, Eq)]
pub struct OperandValueRecord {
    /// The operand's length in bits.
    pub length_bits: u32,
    /// The number of elements in the operand (for vector operands).
    pub elements: u32,
    /// The size of one element in bits (for vector operands).
    pub element_size_bits: u32,
    /// The type of the elements, where the operand carries one.
    pub element_type: Option<OperandElementType>,
}

/// The runtime values decoded for one memory operand.
#[derive(Clone, Copy, Debug, PartialEq, Eq)]
pub struct MemOperandRecord {
    /// The segment register, where one applies.
    pub seg: Option<Register>,
    /// The base register, where one applies.
    pub base: Option<Register>,
    /// The index register, where one applies.
    pub index: Option<Register>,
    /// The index scale: 1, 2, 4, or 8; 0 where no index applies.
    pub scale: u32,
    /// The signed displacement.
    pub displacement: i64,
    /// The width of the encoded displacement in bits.
    pub displacement_width_bits: u32,
    /// The length of the memory reference in bytes.
    pub length: u32,
    /// The effective addressing width in bits: 16, 32, or 64.
    pub address_width: u32,
}

impl MemOperandRecord {
    /// Well-formedness of one memory operand: the scale is 1, 2, 4, or 8
    /// (0 where no index applies), the encoded displacement is 0 to 8
    /// bytes wide, and the addressing width is 16, 32, or 64 bits.
    pub open spec fn spec_valid(self) -> bool {
        &&& (self.scale == 0 || self.scale == 1 || self.scale == 2 || self.scale == 4
            || self.scale == 8)
        &&& (self.displacement_width_bits == 0 || self.displacement_width_bits == 8
            || self.displacement_width_bits == 16 || self.displacement_width_bits == 32
            || self.displacement_width_bits == 64)
        &&& (self.address_width == 16 || self.address_width == 32 || self.address_width == 64)
        &&& (self.displacement_width_bits == 0 ==> self.displacement == 0)
    }
}

/// The scalar decode-state snapshot of one decoded instruction: prefix
/// facts, extension-prefix control bits, immediates, displacements, and
/// the mode bits the decode ran under.
#[derive(Clone, Copy, Debug, PartialEq, Eq)]
pub struct DecodedFields {
    /// The ModRM byte, or zero where none was consumed.
    pub modrm: u8,
    /// The number of legacy prefixes consumed.
    pub nprefixes: u32,
    /// The vector length in bits: 128, 256, or 512 for vector encodings,
    /// 0 for most others.
    pub vector_length_bits: u32,
    /// The effective operand width in bits: 8, 16, 32, or 64.
    pub operand_width: u32,
    /// The machine-mode selector of the decode: 0, 1, or 2 for 16b, 32b,
    /// or 64b.
    pub mode: u32,
    /// The stack-mode selector of the decode: 0, 1, or 2 for 16b, 32b,
    /// or 64b.
    pub smode: u32,
    /// The first immediate, zero-extended.
    pub unsigned_immediate: u64,
    /// Whether the first immediate is signed.
    pub immediate_is_signed: bool,
    /// The width of the first immediate in bits.
    pub immediate_width_bits: u32,
    /// The first immediate, sign-extended.
    pub signed_immediate: i32,
    /// The second immediate, where the form has one.
    pub second_immediate: u8,
    /// The branch displacement, where the form has one.
    pub branch_displacement: i64,
    /// The width of the encoded branch displacement in bits.
    pub branch_displacement_width_bits: u32,
    /// The write-mask register selector; zero means no masking.
    pub mask_reg: u32,
    /// The zeroing control bit of the extension prefix.
    pub zeroing_bit: bool,
    /// The broadcast control bit of the extension prefix.
    pub bcast_bit: bool,
    /// Whether a REP prefix was consumed.
    pub has_rep_prefix: bool,
    /// Whether a REPNE prefix was consumed.
    pub has_repne_prefix: bool,
    /// Whether a LOCK prefix was consumed.
    pub atomic: bool,
    /// The maximum number of elements the destination processes (for
    /// 512b-vector forms).
    pub avx512_dest_elements: u32,
    /// Whether the instruction uses destination masking (false for blends
    /// that use their mask as a control).
    pub masked_vector_op: bool,
    /// Whether this is a promoted zero-upper form.
    pub apx_zu: bool,
    /// The zero-based form number within the instruction class.
    pub iform_dispatch: u32,
    /// The chip the decode was restricted to, where one was set.
    pub input_chip: Option<Chip>,
    /// The default-flags pseudo-register, where an operand names one.
    pub dfv_reg: Option<Register>,
    /// Whether the instruction is in the promoted-extension class.
    pub class_apx: bool,
    /// Whether the instruction is in the matrix-extension class.
    pub class_amx: bool,
    /// Whether the instruction is a VEX-encoded vector operation.
    pub class_avx: bool,
    /// Whether the instruction is an EVEX-encoded vector or mask operation.
    pub class_avx512: bool,
    /// Whether the instruction is a VEX-encoded mask-register operation.
    pub class_avx512_maskop: bool,
    /// Whether the instruction is a legacy SIMD operation.
    pub class_sse: bool,
}

/// The fixed-capacity decoded-instruction record.
///
/// Created whole by a successful decode and immutable afterwards: the
/// matched form, the consumed bytes (at most 15), one runtime value record
/// per operand template, the memory operands, the resolved registers, and
/// the flags summary.
pub struct DecodedInst {
    form: Inst,
    bytes: Vec<u8>,
    fields: DecodedFields,
    operand_values: Vec<OperandValueRecord>,
    mem_ops: Vec<MemOperandRecord>,
    regs: Vec<(Operand, Register)>,
    rflags: Option<SimpleFlag>,
}

/// The register a resolved-register list assigns to an operand role: the
/// first entry for the role, scanning from `i`.
pub open spec fn spec_reg_lookup(
    s: Seq<(Operand, Register)>,
    name: Operand,
    i: int,
) -> Option<Register>
    decreases s.len() - i,
{
    if !(0 <= i < s.len()) {
        None
    } else if s[i].0 == name {
        Some(s[i].1)
    } else {
        spec_reg_lookup(s, name, i + 1)
    }
}

/// Whether an operand template is the memory operand with the given index.
pub open spec fn spec_is_memop(op: InstOperand, mem_idx: int) -> bool {
    (mem_idx == 0 && op.spec_name().raw() == OPERAND_MEM0_RAW) || (mem_idx == 1
        && op.spec_name().raw() == OPERAND_MEM1_RAW)
}

impl DecodedInst {
    /// The matched instruction form.
    pub closed spec fn spec_form(self) -> Inst {
        self.form
    }

    /// The consumed instruction bytes.
    pub closed spec fn spec_bytes(self) -> Seq<u8> {
        self.bytes@
    }

    /// The scalar decode-state snapshot.
    pub closed spec fn spec_fields(self) -> DecodedFields {
        self.fields
    }

    /// The runtime operand value records, one per operand template.
    pub closed spec fn spec_operand_values(self) -> Seq<OperandValueRecord> {
        self.operand_values@
    }

    /// The memory operand records.
    pub closed spec fn spec_mem_ops(self) -> Seq<MemOperandRecord> {
        self.mem_ops@
    }

    /// The resolved registers, by operand role.
    pub closed spec fn spec_regs(self) -> Seq<(Operand, Register)> {
        self.regs@
    }

    /// The flags summary, where the form carries one.
    pub closed spec fn spec_rflags(self) -> Option<SimpleFlag> {
        self.rflags
    }

    /// Well-formedness of the record: the byte count lies in the protocol
    /// bounds, the operand value records match the form's operand
    /// templates one for one, the memory operands are valid and exactly
    /// as many as the form's memory-operand templates (at most two), and
    /// the flags summary's derived sets agree with its actions.
    pub open spec fn wf(self) -> bool {
        &&& 1 <= self.spec_bytes().len() <= MAX_INSTRUCTION_BYTES
        &&& self.spec_operand_values().len() == self.spec_form().spec_operands().len()
        &&& self.spec_mem_ops().len() <= 2
        &&& self.spec_mem_ops().len() == spec_memop_template_count(
            self.spec_form().spec_operands(),
            self.spec_form().spec_operands().len() as int,
        )
        &&& forall|i: int|
            0 <= i < self.spec_mem_ops().len() ==> (#[trigger] self.spec_mem_ops()[i]).spec_valid()
        &&& match self.spec_rflags() {
            Some(sf) => sf.wf(),
            None => true,
        }
    }

    /// Assemble a decoded-instruction record. The record is a function of
    /// the arguments alone: the bytes are the first `length` bytes of the
    /// input, and every other part is stored as given.
    pub fn new(
        form: Inst,
        fields: DecodedFields,
        input: &[u8],
        length: usize,
        operand_values: Vec<OperandValueRecord>,
        mem_ops: Vec<MemOperandRecord>,
        regs: Vec<(Operand, Register)>,
        rflags: Option<SimpleFlag>,
    ) -> (r: DecodedInst)
        requires
            1 <= length <= MAX_INSTRUCTION_BYTES,
            length <= input@.len(),
            operand_values@.len() == form.spec_operands().len(),
            mem_ops@.len() <= 2,
            mem_ops@.len() == spec_memop_template_count(
                form.spec_operands(),
                form.spec_operands().len() as int,
            ),
            forall|i: int| 0 <= i < mem_ops@.len() ==> (#[trigger] mem_ops@[i]).spec_valid(),
            rflags matches Some(sf) ==> sf.wf(),
        ensures
            r.wf(),
            r.spec_form() == form,
            r.spec_bytes() == input@.take(length as int),
            r.spec_bytes().len() == length,
            r.spec_fields() == fields,
            r.spec_operand_values() == operand_values@,
            r.spec_mem_ops() == mem_ops@,
            r.spec_regs() == regs@,
            r.spec_rflags() == rflags,
    {
        let mut bytes: Vec<u8> = Vec::new();
        let mut i: usize = 0;
        while i < length
            invariant
                i <= length,
                length <= input@.len(),
                bytes@.len() == i,
                forall|j: int| 0 <= j < i ==> bytes@[j] == input@[j],
            decreases length - i,
        {
            bytes.push(input[i]);
            i = i + 1;
        }
        proof {
            assert(bytes@ =~= input@.take(length as int));
        }
        DecodedInst { form, bytes, fields, operand_values, mem_ops, regs, rflags }
    }

    /// The matched instruction form.
    pub fn form(&self) -> (r: &Inst)
        ensures
            *r == self.spec_form(),
    {
        &self.form
    }

    /// The length of the decoded instruction in bytes.
    pub fn length(&self) -> (r: usize)
        ensures
            r == self.spec_bytes().len(),
    {
        self.bytes.len()
    }

    /// Get the bytes that make up the instruction.
    pub fn bytes(&self) -> (r: &Vec<u8>)
        ensures
            r@ == self.spec_bytes(),
    {
        &self.bytes
    }

    /// Get the instruction class of this instruction.
    pub fn iclass(&self) -> (r: IClass)
        ensures
            r == self.spec_form().spec_iclass(),
    {
        self.form.iclass()
    }

    /// Get the instruction form value of this instruction.
    pub fn iform(&self) -> (r: IForm)
        ensures
            r == self.spec_form().spec_iform(),
    {
        self.form.iform()
    }

    /// Get the instruction zero-based form number within its instruction
    /// class. This value is suitable for dispatching on.
    pub fn iform_dispatch(&self) -> (r: u32)
        ensures
            r == self.spec_fields().iform_dispatch,
    {
        self.fields.iform_dispatch
    }

    /// Get the category of this instruction.
    pub fn category(&self) -> (r: Category)
        ensures
            r == self.spec_form().spec_category(),
    {
        self.form.category()
    }

    /// Get the extension that this instruction belongs to.
    pub fn extension(&self) -> (r: Extension)
        ensures
            r == self.spec_form().spec_extension(),
    {
        self.form.extension()
    }

    /// Get the ISA set that this instruction belongs to.
    pub fn isa_set(&self) -> (r: IsaSet)
        ensures
            r == self.spec_form().spec_isa_set(),
    {
        self.form.isa_set()
    }

    /// Get whether the attribute is defined for this instruction.
    pub fn attribute(&self, attr: Attribute) -> (r: bool)
        ensures
            r == self.spec_form().spec_attributes().spec_has(attr),
    {
        self.form.attribute(attr)
    }

    /// Get the whole attribute bit set.
    pub fn attributes(&self) -> (r: Attributes)
        ensures
            r == self.spec_form().spec_attributes(),
    {
        self.form.attributes()
    }

    /// Whether this instruction acquires with hardware lock elision: an
    /// elision-capable form with a REPNE prefix and a LOCK prefix.
    pub fn is_xacquire(&self) -> (r: bool)
        ensures
            r == (self.spec_form().spec_attributes().spec_has(Attribute::HleAcqAble)
                && self.spec_fields().has_repne_prefix && self.spec_fields().atomic),
    {
        self.form.attribute(Attribute::HleAcqAble) && self.fields.has_repne_prefix
            && self.fields.atomic
    }

    /// Whether this instruction releases with hardware lock elision: an
    /// elision-capable form with a REP prefix and either a LOCK prefix or
    /// the MOV instruction class, which needs none.
    pub fn is_xrelease(&self) -> (r: bool)
        ensures
            r == (self.spec_form().spec_attributes().spec_has(Attribute::HleRelAble)
                && self.spec_fields().has_rep_prefix && (self.spec_fields().atomic
                || self.spec_form().spec_iclass().0 == ICLASS_MOV_RAW)),
    {
        self.form.attribute(Attribute::HleRelAble) && self.fields.has_rep_prefix
            && (self.fields.atomic || self.form.iclass().0 == ICLASS_MOV_RAW)
    }

    /// Whether this instruction is a promoted zero-upper form.
    pub fn is_apx_zu(&self) -> (r: bool)
        ensures
            r == self.spec_fields().apx_zu,
    {
        self.fields.apx_zu
    }

    /// Get the ModRM byte.
    pub fn modrm(&self) -> (r: u8)
        ensures
            r == self.spec_fields().modrm,
    {
        self.fields.modrm
    }

    /// Whether the instruction uses destination masking.
    ///
    /// This returns false for blend operations that use their mask field
    /// as a control.
    pub fn masked_vector_operation(&self) -> (r: bool)
        ensures
            r == self.spec_fields().masked_vector_op,
    {
        self.fields.masked_vector_op
    }

    /// Returns 128, 256, or 512 for operations in the vector encoding
    /// spaces, and 0 for most non-vector operations.
    pub fn vector_length_bits(&self) -> (r: u32)
        ensures
            r == self.spec_fields().vector_length_bits,
    {
        self.fields.vector_length_bits
    }

    /// The number of legacy prefixes included in this instruction.
    pub fn nprefixes(&self) -> (r: u32)
        ensures
            r == self.spec_fields().nprefixes,
    {
        self.fields.nprefixes
    }

    /// The machine-mode width of this decode in bits: 16, 32, or 64.
    pub fn machine_mode_bits(&self) -> (r: u32)
        ensures
            r == (if self.spec_fields().mode == 2 {
                64u32
            } else if self.spec_fields().mode == 1 {
                32u32
            } else {
                16u32
            }),
    {
        if self.fields.mode == 2 {
            64
        } else if self.fields.mode == 1 {
            32
        } else {
            16
        }
    }

    /// The stack addressing width of this decode in bits: 16, 32, or 64.
    pub fn stack_address_mode_bits(&self) -> (r: u32)
        ensures
            r == (if self.spec_fields().smode == 2 {
                64u32
            } else if self.spec_fields().smode == 1 {
                32u32
            } else {
                16u32
            }),
    {
        if self.fields.smode == 2 {
            64
        } else if self.fields.smode == 1 {
            32
        } else {
            16
        }
    }

    /// The operand width in bits: 8, 16, 32, or 64. Factors in byte
    /// operations, unlike the effective operand width.
    pub fn operand_width(&self) -> (r: u32)
        ensures
            r == self.spec_fields().operand_width,
    {
        self.fields.operand_width
    }

    /// The chip the decode was restricted to, or `None` if not set.
    pub fn input_chip(&self) -> (r: Option<Chip>)
        ensures
            r == self.spec_fields().input_chip,
    {
        self.fields.input_chip
    }

    /// Whether the instruction uses write masking: a mask register is
    /// selected.
    pub fn masking(&self) -> (r: bool)
        ensures
            r == self.spec_masking(),
    {
        self.fields.mask_reg != 0
    }

    /// Whether the instruction uses write masking.
    pub open spec fn spec_masking(self) -> bool {
        self.spec_fields().mask_reg != 0
    }

    /// Whether the instruction uses write masking with zeroing.
    pub open spec fn spec_zeroing(self) -> bool {
        self.spec_fields().mask_reg != 0 && self.spec_fields().zeroing_bit
    }

    /// Whether the destination of the form is a mask register, which never
    /// merges.
    pub open spec fn spec_mask_dest(self) -> bool {
        self.spec_form().spec_operands().len() > 0 && match self.spec_form().spec_operands()[0].spec_width() {
            Some(w) => w.raw() == OPERAND_WIDTH_MSKW_RAW,
            None => false,
        }
    }

    /// Whether the instruction uses write masking with merging: masked,
    /// not zeroing, not a mask-register destination, and the mask is not
    /// a control.
    pub open spec fn spec_merging(self) -> bool {
        &&& self.spec_fields().mask_reg != 0
        &&& !self.spec_mask_dest()
        &&& !self.spec_fields().zeroing_bit
        &&& !self.spec_form().spec_attributes().spec_has(Attribute::MaskAsControl)
    }

    /// Whether the instruction uses write-masking with zeroing.
    pub fn zeroing(&self) -> (r: bool)
        ensures
            r == self.spec_zeroing(),
    {
        self.fields.mask_reg != 0 && self.fields.zeroing_bit
    }

    /// Whether the instruction uses write-masking with merging.
    pub fn merging(&self) -> (r: bool)
        ensures
            r == self.spec_merging(),
    {
        if self.fields.mask_reg == 0 {
            return false;
        }
        let ops = self.form.operands();
        if ops.len() > 0 {
            match ops[0].operand_width() {
                Some(w) => {
                    if w.into_raw() == OPERAND_WIDTH_MSKW_RAW {
                        return false;
                    }
                },
                None => {},
            }
        }
        !self.fields.zeroing_bit && !self.form.attribute(Attribute::MaskAsControl)
    }

    /// The maximum number of elements processed, for 512b-vector forms.
    pub fn avx512_dest_elements(&self) -> (r: u32)
        ensures
            r == self.spec_fields().avx512_dest_elements,
    {
        self.fields.avx512_dest_elements
    }

    /// The access action of the operand at `index`, with write masking
    /// taken into account: under merging masking, the destination also
    /// carries an input dependence, so a plain write becomes a
    /// conditional write (of memory) or a read with conditional write
    /// (of a register), and a read-write becomes a read with conditional
    /// write.
    pub open spec fn spec_operand_action(self, index: int) -> Option<OperandAction> {
        match self.spec_form().spec_operands()[index].spec_action() {
            None => None,
            Some(rw) => Some(
                if index == 0 && self.spec_masking() && self.spec_merging() {
                    if rw == OperandAction::RW {
                        OperandAction::RCW
                    } else if rw == OperandAction::W {
                        if self.spec_form().spec_operands()[0].spec_name().raw()
                            == OPERAND_MEM0_RAW {
                            OperandAction::CW
                        } else {
                            OperandAction::RCW
                        }
                    } else {
                        rw
                    }
                } else {
                    rw
                },
            ),
        }
    }

    /// The access action of the operand at `index`, with write masking
    /// taken into account; absent where the operand template carries no
    /// access classification.
    pub fn operand_action(&self, index: usize) -> (r: Option<OperandAction>)
        requires
            index < self.spec_form().spec_operands().len(),
        ensures
            r == self.spec_operand_action(index as int),
    {
        let ops = self.form.operands();
        let rw = match ops[index].rw() {
            Some(a) => a,
            None => {
                return None;
            },
        };
        if index == 0 && self.masking() && self.merging() {
            if rw == OperandAction::RW {
                Some(OperandAction::RCW)
            } else if rw == OperandAction::W {
                if ops[0].name().into_raw() == OPERAND_MEM0_RAW {
                    Some(OperandAction::CW)
                } else {
                    Some(OperandAction::RCW)
                }
            } else {
                Some(rw)
            }
        } else {
            Some(rw)
        }
    }

    /// Whether some operand conditionally writes a register: its decoded
    /// access action is a conditional write, with or without a read.
    pub fn conditionally_writes_registers(&self) -> (r: bool)
        ensures
            r == exists|i: int|
                0 <= i < self.spec_form().spec_operands().len()
                    && ((#[trigger] self.spec_operand_action(i)) matches Some(a)
                    && a.spec_conditional_write()),
    {
        let ops_len = self.form.operands().len();
        let mut i: usize = 0;
        while i < ops_len
            invariant
                ops_len == self.spec_form().spec_operands().len(),
                i <= ops_len,
                forall|j: int|
                    0 <= j < i ==> !(((#[trigger] self.spec_operand_action(j)) matches Some(a)
                        && a.spec_conditional_write())),
            decreases ops_len - i,
        {
            match self.operand_action(i) {
                Some(a) => {
                    if a.conditional_write() {
                        return true;
                    }
                },
                None => {},
            }
            i = i + 1;
        }
        false
    }

    /// Whether memory operand `mem_idx` is read: some operand template
    /// with that memory role has a reading decoded access action.
    pub open spec fn spec_mem_read(self, mem_idx: int) -> bool {
        exists|i: int|
            0 <= i < self.spec_form().spec_operands().len() && spec_is_memop(
                self.spec_form().spec_operands()[i],
                mem_idx,
            ) && ((#[trigger] self.spec_operand_action(i)) matches Some(a) && a.spec_read())
    }

    /// Whether memory operand `mem_idx` is written: some operand template
    /// with that memory role has a writing decoded access action.
    pub open spec fn spec_mem_written(self, mem_idx: int) -> bool {
        exists|i: int|
            0 <= i < self.spec_form().spec_operands().len() && spec_is_memop(
                self.spec_form().spec_operands()[i],
                mem_idx,
            ) && ((#[trigger] self.spec_operand_action(i)) matches Some(a) && a.spec_written())
    }

    /// Whether memory operand `mem_idx` is written and not read: some
    /// operand template with that memory role has a write-only decoded
    /// access action.
    pub open spec fn spec_mem_written_only(self, mem_idx: int) -> bool {
        exists|i: int|
            0 <= i < self.spec_form().spec_operands().len() && spec_is_memop(
                self.spec_form().spec_operands()[i],
                mem_idx,
            ) && ((#[trigger] self.spec_operand_action(i)) matches Some(a) && a.spec_written_only())
    }

    /// Get information about the flags, if the instruction uses them.
    ///
    /// For some shifts and rotates a flags summary is attached before it
    /// is known whether the flags are used, because mode-dependent masking
    /// of the shift count decides at runtime. So this can return `Some`
    /// even when `uses_rflags` reports false; the two are independent
    /// facts about the same form.
    pub fn rflags_info(&self) -> (r: Option<&SimpleFlag>)
        ensures
            match r {
                Some(sf) => self.spec_rflags() == Some(*sf),
                None => self.spec_rflags() is None,
            },
    {
        match &self.rflags {
            Some(sf) => Some(sf),
            None => None,
        }
    }

    /// Whether the flags are read or written: a flags summary is attached
    /// and carries at least one flag action.
    pub fn uses_rflags(&self) -> (r: bool)
        ensures
            r == match self.spec_rflags() {
                Some(sf) => sf.spec_actions().len() > 0,
                None => false,
            },
    {
        match &self.rflags {
            Some(sf) => sf.flag_actions().len() > 0,
            None => false,
        }
    }

    /// Whether this instruction is a prefetch: the form carries the
    /// prefetch attribute.
    pub fn is_prefetch(&self) -> (r: bool)
        ensures
            r == self.spec_form().spec_attributes().spec_has(Attribute::Prefetch),
    {
        self.form.attribute(Attribute::Prefetch)
    }

    /// Whether this is a broadcast form in its own right: its category is
    /// the broadcast category.
    pub fn is_broadcast_instruction(&self) -> (r: bool)
        ensures
            r == (self.spec_form().spec_category().raw() == CATEGORY_BROADCAST_RAW),
    {
        self.form.category().into_raw() == CATEGORY_BROADCAST_RAW
    }

    /// Whether this instruction uses embedded broadcast: the form allows
    /// it and the broadcast control bit is set.
    pub fn uses_embedded_broadcast(&self) -> (r: bool)
        ensures
            r == (self.spec_form().spec_attributes().spec_has(Attribute::BroadcastEnabled)
                && self.spec_fields().bcast_bit),
    {
        self.form.attribute(Attribute::BroadcastEnabled) && self.fields.bcast_bit
    }

    /// Whether this instruction broadcasts, either as a broadcast form or
    /// through embedded broadcast.
    pub fn is_broadcast(&self) -> (r: bool)
        ensures
            r == ((self.spec_form().spec_category().raw() == CATEGORY_BROADCAST_RAW) || (
            self.spec_form().spec_attributes().spec_has(Attribute::BroadcastEnabled)
                && self.spec_fields().bcast_bit)),
    {
        self.is_broadcast_instruction() || self.uses_embedded_broadcast()
    }

    /// Whether this instruction is in the promoted-extension class.
    pub fn classify_apx(&self) -> (r: bool)
        ensures
            r == self.spec_fields().class_apx,
    {
        self.fields.class_apx
    }

    /// Whether this instruction is in the matrix-extension class.
    pub fn classify_amx(&self) -> (r: bool)
        ensures
            r == self.spec_fields().class_amx,
    {
        self.fields.class_amx
    }

    /// Whether this instruction is a VEX-encoded vector operation.
    pub fn classify_avx(&self) -> (r: bool)
        ensures
            r == self.spec_fields().class_avx,
    {
        self.fields.class_avx
    }

    /// Whether this instruction is an EVEX-encoded vector or mask
    /// operation.
    pub fn classify_avx512(&self) -> (r: bool)
        ensures
            r == self.spec_fields().class_avx512,
    {
        self.fields.class_avx512
    }

    /// Whether this instruction is a VEX-encoded mask-register operation.
    pub fn classify_avx512_maskop(&self) -> (r: bool)
        ensures
            r == self.spec_fields().class_avx512_maskop,
    {
        self.fields.class_avx512_maskop
    }

    /// Whether this instruction is a legacy SIMD operation.
    pub fn classify_sse(&self) -> (r: bool)
        ensures
            r == self.spec_fields().class_sse,
    {
        self.fields.class_sse
    }

    /// The branch displacement, where the form has one.
    pub fn branch_displacement(&self) -> (r: i64)
        ensures
            r == self.spec_fields().branch_displacement,
    {
        self.fields.branch_displacement
    }

    /// The width of the encoded branch displacement in bytes.
    pub fn branch_displacement_width(&self) -> (r: u32)
        ensures
            r == self.spec_fields().branch_displacement_width_bits / 8,
    {
        self.fields.branch_displacement_width_bits / 8
    }

    /// The width of the encoded branch displacement in bits.
    pub fn branch_displacement_width_bits(&self) -> (r: u32)
        ensures
            r == self.spec_fields().branch_displacement_width_bits,
    {
        self.fields.branch_displacement_width_bits
    }

    /// The first immediate, zero-extended.
    pub fn unsigned_immediate(&self) -> (r: u64)
        ensures
            r == self.spec_fields().unsigned_immediate,
    {
        self.fields.unsigned_immediate
    }

    /// Whether the first immediate is signed.
    pub fn immediate_is_signed(&self) -> (r: bool)
        ensures
            r == self.spec_fields().immediate_is_signed,
    {
        self.fields.immediate_is_signed
    }

    /// The width of the first immediate in bytes.
    pub fn immediate_width(&self) -> (r: u32)
        ensures
            r == self.spec_fields().immediate_width_bits / 8,
    {
        self.fields.immediate_width_bits / 8
    }

    /// The width of the first immediate in bits.
    pub fn immediate_width_bits(&self) -> (r: u32)
        ensures
            r == self.spec_fields().immediate_width_bits,
    {
        self.fields.immediate_width_bits
    }

    /// The first immediate, sign-extended.
    pub fn signed_immediate(&self) -> (r: i32)
        ensures
            r == self.spec_fields().signed_immediate,
    {
        self.fields.signed_immediate
    }

    /// The second immediate, where the form has one.
    pub fn second_immediate(&self) -> (r: u8)
        ensures
            r == self.spec_fields().second_immediate,
    {
        self.fields.second_immediate
    }

    /// The register resolved for the given operand role: the first entry
    /// of the record's register list with that role, or `None` where the
    /// role resolved to no register.
    pub fn reg(&self, operand: Operand) -> (r: Option<Register>)
        ensures
            r == spec_reg_lookup(self.spec_regs(), operand, 0),
    {
        let n = self.regs.len();
        let mut i: usize = 0;
        while i < n
            invariant
                n == self.regs@.len(),
                i <= n,
                spec_reg_lookup(self.regs@, operand, 0) == spec_reg_lookup(
                    self.regs@,
                    operand,
                    i as int,
                ),
            decreases n - i,
        {
            if self.regs[i].0 == operand {
                return Some(self.regs[i].1);
            }
            i = i + 1;
        }
        None
    }

    /// Get the default-flags pseudo-register, where one of the operands
    /// names one.
    pub fn dfv_reg(&self) -> (r: Option<Register>)
        ensures
            r == self.spec_fields().dfv_reg,
    {
        self.fields.dfv_reg
    }

    /// The runtime operand values of this instruction.
    pub fn operands<'a>(&'a self) -> (r: OperandValues<'a>)
        ensures
            r.spec_inst() == *self,
    {
        OperandValues { inst: self }
    }

    /// The memory operands of this instruction.
    pub fn memory_operands<'a>(&'a self) -> (r: MemoryOperands<'a>)
        ensures
            r.spec_inst() == *self,
    {
        MemoryOperands { inst: self }
    }
}

/// A successfully decoded instruction is never longer than the protocol
/// bound of 15 bytes, never empty, and carries exactly one runtime operand
/// value per operand template of its matched form; its memory operands
/// are exactly as many as the form's memory-operand templates — so never
/// more than its operands — and each is a valid memory-operand record.
pub proof fn lemma_decoded_inst_bounds(d: DecodedInst)
    requires
        d.wf(),
    ensures
        1 <= d.spec_bytes().len() <= 15,
        d.spec_operand_values().len() == d.spec_form().spec_operands().len(),
        d.spec_mem_ops().len() == spec_memop_template_count(
            d.spec_form().spec_operands(),
            d.spec_form().spec_operands().len() as int,
        ),
        d.spec_mem_ops().len() <= d.spec_form().spec_operands().len(),
        forall|i: int|
            0 <= i < d.spec_mem_ops().len() ==> (#[trigger] d.spec_mem_ops()[i]).spec_valid(),
{
    lemma_memop_template_count_bound(
        d.spec_form().spec_operands(),
        d.spec_form().spec_operands().len() as int,
    );
}

/// Record assembly is deterministic: every stored part of a record built
/// by [`DecodedInst::new`] is pinned by that function's contract as a
/// function of its arguments, and every derived observation — masking,
/// zeroing, merging, the per-operand decoded access actions, the memory
/// read/write classification, and register resolution — is a function of
/// the stored parts. So two records assembled from the same parts cannot
/// be told apart by any accessor.
pub proof fn lemma_assembly_deterministic(d1: DecodedInst, d2: DecodedInst)
    requires
        d1.spec_form() == d2.spec_form(),
        d1.spec_bytes() == d2.spec_bytes(),
        d1.spec_fields() == d2.spec_fields(),
        d1.spec_operand_values() == d2.spec_operand_values(),
        d1.spec_mem_ops() == d2.spec_mem_ops(),
        d1.spec_regs() == d2.spec_regs(),
        d1.spec_rflags() == d2.spec_rflags(),
    ensures
        d1.spec_masking() == d2.spec_masking(),
        d1.spec_zeroing() == d2.spec_zeroing(),
        d1.spec_merging() == d2.spec_merging(),
        forall|i: int| d1.spec_operand_action(i) == d2.spec_operand_action(i),
        forall|m: int| d1.spec_mem_read(m) == d2.spec_mem_read(m),
        forall|m: int| d1.spec_mem_written(m) == d2.spec_mem_written(m),
        forall|m: int| d1.spec_mem_written_only(m) == d2.spec_mem_written_only(m),
        forall|o: Operand|
            spec_reg_lookup(d1.spec_regs(), o, 0) == spec_reg_lookup(d2.spec_regs(), o, 0),
{
    assert forall|m: int| d1.spec_mem_read(m) == d2.spec_mem_read(m) by {
        if d1.spec_mem_read(m) {
            let i = choose|i: int|
                0 <= i < d1.spec_form().spec_operands().len() && spec_is_memop(
                    d1.spec_form().spec_operands()[i],
                    m,
                ) && ((#[trigger] d1.spec_operand_action(i)) matches Some(a) && a.spec_read());
            assert(((#[trigger] d2.spec_operand_action(i)) matches Some(a) && a.spec_read()));
        }
        if d2.spec_mem_read(m) {
            let i = choose|i: int|
                0 <= i < d2.spec_form().spec_operands().len() && spec_is_memop(
                    d2.spec_form().spec_operands()[i],
                    m,
                ) && ((#[trigger] d2.spec_operand_action(i)) matches Some(a) && a.spec_read());
            assert(((#[trigger] d1.spec_operand_action(i)) matches Some(a) && a.spec_read()));
        }
    }
    assert forall|m: int| d1.spec_mem_written(m) == d2.spec_mem_written(m) by {
        if d1.spec_mem_written(m) {
            let i = choose|i: int|
                0 <= i < d1.spec_form().spec_operands().len() && spec_is_memop(
                    d1.spec_form().spec_operands()[i],
                    m,
                ) && ((#[trigger] d1.spec_operand_action(i)) matches Some(a) && a.spec_written());
            assert(((#[trigger] d2.spec_operand_action(i)) matches Some(a) && a.spec_written()));
        }
        if d2.spec_mem_written(m) {
            let i = choose|i: int|
                0 <= i < d2.spec_form().spec_operands().len() && spec_is_memop(
                    d2.spec_form().spec_operands()[i],
                    m,
                ) && ((#[trigger] d2.spec_operand_action(i)) matches Some(a) && a.spec_written());
            assert(((#[trigger] d1.spec_operand_action(i)) matches Some(a) && a.spec_written()));
        }
    }
    assert forall|m: int| d1.spec_mem_written_only(m) == d2.spec_mem_written_only(m) by {
        if d1.spec_mem_written_only(m) {
            let i = choose|i: int|
                0 <= i < d1.spec_form().spec_operands().len() && spec_is_memop(
                    d1.spec_form().spec_operands()[i],
                    m,
                ) && ((#[trigger] d1.spec_operand_action(i)) matches Some(a) && a.spec_written_only());
            assert(((#[trigger] d2.spec_operand_action(i)) matches Some(a) && a.spec_written_only()));
        }
        if d2.spec_mem_written_only(m) {
            let i = choose|i: int|
                0 <= i < d2.spec_form().spec_operands().len() && spec_is_memop(
                    d2.spec_form().spec_operands()[i],
                    m,
                ) && ((#[trigger] d2.spec_operand_action(i)) matches Some(a) && a.spec_written_only());
            assert(((#[trigger] d1.spec_operand_action(i)) matches Some(a) && a.spec_written_only()));
        }
    }
}

/// The runtime operand values of a decoded instruction, as a bounds-checked
/// indexed view.
pub struct OperandValues<'a> {
    inst: &'a DecodedInst,
}

impl<'a> OperandValues<'a> {
    /// The record the values belong to.
    pub closed spec fn spec_inst(self) -> DecodedInst {
        *self.inst
    }

    /// Whether the instruction has no operands.
    pub fn is_empty(&self) -> (r: bool)
        ensures
            r == (self.spec_inst().spec_operand_values().len() == 0),
    {
        self.len() == 0
    }

    /// The number of operands: one per operand template of the form.
    pub fn len(&self) -> (r: usize)
        ensures
            r == self.spec_inst().spec_operand_values().len(),
    {
        self.inst.operand_values.len()
    }

    /// The operand at `index`: a value for every index below the operand
    /// count, and nothing above it.
    pub fn get(&self, index: usize) -> (r: Option<OperandValue<'a>>)
        ensures
            r is Some <==> index < self.spec_inst().spec_operand_values().len(),
            r matches Some(v) ==> v.spec_inst() == self.spec_inst() && v.spec_index() == index,
    {
        if index >= self.len() {
            return None;
        }
        Some(OperandValue { inst: self.inst, index })
    }
}

/// One runtime operand value of a decoded instruction.
pub struct OperandValue<'a> {
    inst: &'a DecodedInst,
    index: usize,
}

impl<'a> OperandValue<'a> {
    /// The record the value belongs to.
    pub closed spec fn spec_inst(self) -> DecodedInst {
        *self.inst
    }

    /// The operand's position.
    pub closed spec fn spec_index(self) -> int {
        self.index as int
    }

    /// Whether the position lies inside the record's operand values.
    pub open spec fn wf(self) -> bool {
        self.spec_index() < self.spec_inst().spec_operand_values().len()
    }

    /// The record of this operand's runtime values.
    pub open spec fn spec_record(self) -> OperandValueRecord {
        self.spec_inst().spec_operand_values()[self.spec_index()]
    }

    /// The length of the operand in bytes.
    pub fn length(&self) -> (r: u32)
        requires
            self.wf(),
        ensures
            r == self.spec_record().length_bits / 8,
    {
        self.inst.operand_values[self.index].length_bits / 8
    }

    /// The length of the operand in bits.
    pub fn length_bits(&self) -> (r: u32)
        requires
            self.wf(),
        ensures
            r == self.spec_record().length_bits,
    {
        self.inst.operand_values[self.index].length_bits
    }

    /// The number of elements in the operand (for vector operands).
    pub fn elements(&self) -> (r: u32)
        requires
            self.wf(),
        ensures
            r == self.spec_record().elements,
    {
        self.inst.operand_values[self.index].elements
    }

    /// The size of an element in bits (for vector operands).
    pub fn element_size_bits(&self) -> (r: u32)
        requires
            self.wf(),
        ensures
            r == self.spec_record().element_size_bits,
    {
        self.inst.operand_values[self.index].element_size_bits
    }

    /// The type of the elements in the operand, where it carries one:
    /// absent for operands with no typed-element classification.
    pub fn element_type(&self) -> (r: Option<OperandElementType>)
        requires
            self.wf(),
        ensures
            r == self.spec_record().element_type,
    {
        self.inst.operand_values[self.index].element_type
    }

    /// The access action of this operand in light of write masking and
    /// zeroing or merging: under merging the destination may also be read,
    /// and its elements conditionally written. Absent for operands with
    /// no access classification.
    pub fn action(&self) -> (r: Option<OperandAction>)
        requires
            self.wf(),
            self.spec_inst().wf(),
        ensures
            r == self.spec_inst().spec_operand_action(self.spec_index()),
    {
        self.inst.operand_action(self.index)
    }
}

/// The memory operands of a decoded instruction, as a bounds-checked
/// indexed view.
pub struct MemoryOperands<'a> {
    inst: &'a DecodedInst,
}

impl<'a> MemoryOperands<'a> {
    /// The record the memory operands belong to.
    pub closed spec fn spec_inst(self) -> DecodedInst {
        *self.inst
    }

    /// Whether the instruction touches no memory operand.
    pub fn is_empty(&self) -> (r: bool)
        ensures
            r == (self.spec_inst().spec_mem_ops().len() == 0),
    {
        self.len() == 0
    }

    /// The number of memory operands: of a well-formed record, exactly
    /// the number of memory-operand templates of the matched form, and so
    /// never more than the operand count.
    pub fn len(&self) -> (r: usize)
        ensures
            r == self.spec_inst().spec_mem_ops().len(),
            self.spec_inst().wf() ==> r == spec_memop_template_count(
                self.spec_inst().spec_form().spec_operands(),
                self.spec_inst().spec_form().spec_operands().len() as int,
            ) && r <= self.spec_inst().spec_form().spec_operands().len(),
    {
        proof {
            lemma_memop_template_count_bound(
                self.spec_inst().spec_form().spec_operands(),
                self.spec_inst().spec_form().spec_operands().len() as int,
            );
        }
        self.inst.mem_ops.len()
    }

    /// The memory operand at `index`: a value for every index below the
    /// memory-operand count, and nothing above it.
    pub fn get(&self, index: usize) -> (r: Option<MemoryOperand<'a>>)
        ensures
            r is Some <==> index < self.spec_inst().spec_mem_ops().len(),
            r matches Some(m) ==> m.spec_inst() == self.spec_inst() && m.spec_index() == index,
    {
        if index >= self.len() {
            return None;
        }
        Some(MemoryOperand { inst: self.inst, index })
    }
}

/// One memory operand of a decoded instruction.
pub struct MemoryOperand<'a> {
    inst: &'a DecodedInst,
    index: usize,
}

impl<'a> MemoryOperand<'a> {
    /// The record the memory operand belongs to.
    pub closed spec fn spec_inst(self) -> DecodedInst {
        *self.inst
    }

    /// The memory operand's position.
    pub closed spec fn spec_index(self) -> int {
        self.index as int
    }

    /// Whether the position lies inside the record's memory operands.
    pub open spec fn wf(self) -> bool {
        self.spec_index() < self.spec_inst().spec_mem_ops().len()
    }

    /// The record of this memory operand.
    pub open spec fn spec_record(self) -> MemOperandRecord {
        self.spec_inst().spec_mem_ops()[self.spec_index()]
    }

    /// The segment register, where one applies.
    pub fn seg_reg(&self) -> (r: Option<Register>)
        requires
            self.wf(),
        ensures
            r == self.spec_record().seg,
    {
        self.inst.mem_ops[self.index].seg
    }

    /// The base register, where one applies.
    pub fn base_reg(&self) -> (r: Option<Register>)
        requires
            self.wf(),
        ensures
            r == self.spec_record().base,
    {
        self.inst.mem_ops[self.index].base
    }

    /// The index register, where one applies.
    pub fn index_reg(&self) -> (r: Option<Register>)
        requires
            self.wf(),
        ensures
            r == self.spec_record().index,
    {
        self.inst.mem_ops[self.index].index
    }

    /// The index scale: 1, 2, 4, or 8; 0 where no index applies. Of a
    /// well-formed record the scale never leaves that set.
    pub fn scale(&self) -> (r: u32)
        requires
            self.wf(),
        ensures
            r == self.spec_record().scale,
            self.spec_inst().wf() ==> (r == 0 || r == 1 || r == 2 || r == 4 || r == 8),
    {
        proof {
            if self.spec_inst().wf() {
                assert(self.spec_inst().spec_mem_ops()[self.spec_index()].spec_valid());
            }
        }
        self.inst.mem_ops[self.index].scale
    }

    /// The signed displacement: zero where the operand encodes none.
    pub fn displacement(&self) -> (r: i64)
        requires
            self.wf(),
        ensures
            r == self.spec_record().displacement,
            self.spec_inst().wf() && self.spec_record().displacement_width_bits == 0 ==> r == 0,
    {
        proof {
            if self.spec_inst().wf() {
                assert(self.spec_inst().spec_mem_ops()[self.spec_index()].spec_valid());
            }
        }
        self.inst.mem_ops[self.index].displacement
    }

    /// The width of the encoded displacement in bytes: of a well-formed
    /// record, exactly an eighth of the width in bits.
    pub fn displacement_width(&self) -> (r: u32)
        requires
            self.wf(),
        ensures
            r == self.spec_record().displacement_width_bits / 8,
            self.spec_inst().wf() ==> 8 * r == self.spec_record().displacement_width_bits,
    {
        proof {
            if self.spec_inst().wf() {
                assert(self.spec_inst().spec_mem_ops()[self.spec_index()].spec_valid());
            }
        }
        self.inst.mem_ops[self.index].displacement_width_bits / 8
    }

    /// The width of the encoded displacement in bits: 0, 8, 16, 32, or 64
    /// of a well-formed record.
    pub fn displacement_width_bits(&self) -> (r: u32)
        requires
            self.wf(),
        ensures
            r == self.spec_record().displacement_width_bits,
            self.spec_inst().wf() ==> (r == 0 || r == 8 || r == 16 || r == 32 || r == 64),
    {
        proof {
            if self.spec_inst().wf() {
                assert(self.spec_inst().spec_mem_ops()[self.spec_index()].spec_valid());
            }
        }
        self.inst.mem_ops[self.index].displacement_width_bits
    }

    /// Whether this memory operand is read.
    pub fn mem_read(&self) -> (r: bool)
        requires
            self.wf(),
            self.spec_inst().wf(),
        ensures
            r == self.spec_inst().spec_mem_read(self.spec_index()),
    {
        let ops_len = self.inst.form.operands().len();
        let mut i: usize = 0;
        while i < ops_len
            invariant
                self.wf(),
                self.spec_inst().wf(),
                ops_len == self.spec_inst().spec_form().spec_operands().len(),
                i <= ops_len,
                forall|j: int|
                    0 <= j < i ==> !(spec_is_memop(
                        self.spec_inst().spec_form().spec_operands()[j],
                        self.spec_index(),
                    ) && ((#[trigger] self.spec_inst().spec_operand_action(j)) matches Some(a)
                        && a.spec_read())),
            decreases ops_len - i,
        {
            let name_raw = self.inst.form.operands()[i].name().into_raw();
            if (self.index == 0 && name_raw == OPERAND_MEM0_RAW) || (self.index == 1 && name_raw
                == OPERAND_MEM1_RAW) {
                match self.inst.operand_action(i) {
                    Some(a) => {
                        if a.read() {
                            return true;
                        }
                    },
                    None => {},
                }
            }
            i = i + 1;
        }
        false
    }

    /// Whether this memory operand is written.
    pub fn mem_written(&self) -> (r: bool)
        requires
            self.wf(),
            self.spec_inst().wf(),
        ensures
            r == self.spec_inst().spec_mem_written(self.spec_index()),
    {
        let ops_len = self.inst.form.operands().len();
        let mut i: usize = 0;
        while i < ops_len
            invariant
                self.wf(),
                self.spec_inst().wf(),
                ops_len == self.spec_inst().spec_form().spec_operands().len(),
                i <= ops_len,
                forall|j: int|
                    0 <= j < i ==> !(spec_is_memop(
                        self.spec_inst().spec_form().spec_operands()[j],
                        self.spec_index(),
                    ) && ((#[trigger] self.spec_inst().spec_operand_action(j)) matches Some(a)
                        && a.spec_written())),
            decreases ops_len - i,
        {
            let name_raw = self.inst.form.operands()[i].name().into_raw();
            if (self.index == 0 && name_raw == OPERAND_MEM0_RAW) || (self.index == 1 && name_raw
                == OPERAND_MEM1_RAW) {
                match self.inst.operand_action(i) {
                    Some(a) => {
                        if a.written() {
                            return true;
                        }
                    },
                    None => {},
                }
            }
            i = i + 1;
        }
        false
    }

    /// Whether this memory operand is written and never read.
    pub fn mem_written_only(&self) -> (r: bool)
        requires
            self.wf(),
            self.spec_inst().wf(),
        ensures
            r == self.spec_inst().spec_mem_written_only(self.spec_index()),
    {
        let ops_len = self.inst.form.operands().len();
        let mut i: usize = 0;
        while i < ops_len
            invariant
                self.wf(),
                self.spec_inst().wf(),
                ops_len == self.spec_inst().spec_form().spec_operands().len(),
                i <= ops_len,
                forall|j: int|
                    0 <= j < i ==> !(spec_is_memop(
                        self.spec_inst().spec_form().spec_operands()[j],
                        self.spec_index(),
                    ) && ((#[trigger] self.spec_inst().spec_operand_action(j)) matches Some(a)
                        && a.spec_written_only())),
            decreases ops_len - i,
        {
            let name_raw = self.inst.form.operands()[i].name().into_raw();
            if (self.index == 0 && name_raw == OPERAND_MEM0_RAW) || (self.index == 1 && name_raw
                == OPERAND_MEM1_RAW) {
                match self.inst.operand_action(i) {
                    Some(a) => {
                        if a.written_only() {
                            return true;
                        }
                    },
                    None => {},
                }
            }
            i = i + 1;
        }
        false
    }

    /// The length of the memory reference in bytes.
    pub fn operand_length(&self) -> (r: u32)
        requires
            self.wf(),
        ensures
            r == self.spec_record().length,
    {
        self.inst.mem_ops[self.index].length
    }

    /// The effective addressing width in bits: 16, 32, or 64. Factors in
    /// implicit stack pushes and pops, the machine mode, and address-size
    /// override prefixes.
    pub fn address_width(&self) -> (r: u32)
        requires
            self.wf(),
        ensures
            r == self.spec_record().address_width,
            self.spec_inst().wf() ==> (r == 16 || r == 32 || r == 64),
    {
        proof {
            if self.spec_inst().wf() {
                assert(self.spec_inst().spec_mem_ops()[self.spec_index()].spec_valid());
            }
        }
        self.inst.mem_ops[self.index].address_width
    }
}

} // verus!
