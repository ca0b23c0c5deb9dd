//! The instruction-form template: constant information about one decodable
//! shape, with its ordered operand templates.

use vstd::prelude::*;
use crate::attribute::{Attribute, Attributes};
use crate::chip::IsaSet;
use crate::classify::{Category, Exception, Extension, IClass, IForm};
use crate::error::InvalidEnumValue;
use crate::operand::{
    NonTerminal, Operand, OperandAction, OperandElementXType, OperandType, OperandVisibility,
    OperandWidth, OPERAND_AGEN_RAW, OPERAND_MEM0_RAW, OPERAND_MEM1_RAW,
};
use crate::register::Register;

verus! {

/// The raw fields of one operand template, as the table data carries them.
/// A zero stands for "absent" in the optional fields.
#[derive(Clone, Copy, Debug, PartialEq, Eq, Structural)]
pub struct InstOperandParts {
    /// The raw operand-role identifier.
    pub name: u32,
    /// The raw visibility value.
    pub visibility: u32,
    /// The raw template-type value.
    pub ty: u32,
    /// The raw extended-element-type value, or zero where absent.
    pub xtype: u32,
    /// The raw width-class value, or zero where absent.
    pub width: u32,
    /// The raw nonterminal identifier, or zero where the operand does not
    /// come from a nonterminal lookup.
    pub nonterminal: u32,
    /// The raw identifier of the hard-coded register, or zero where the
    /// operand carries none.
    pub reg: u32,
    /// The raw access-action value.
    pub action: u32,
    /// The immediate marker of the template.
    pub imm: u32,
}

impl InstOperandParts {
    /// Whether every raw field lies inside its enumeration, with zero
    /// standing for "absent" where the field is optional.
    pub open spec fn spec_valid(self) -> bool {
        &&& Operand::spec_valid_raw(self.name)
        &&& OperandVisibility::spec_from_raw(self.visibility) is Some
        &&& OperandType::spec_from_raw(self.ty) is Some
        &&& (self.xtype == 0 || OperandElementXType::spec_valid_raw(self.xtype))
        &&& (self.width == 0 || OperandWidth::spec_valid_raw(self.width))
        &&& (self.nonterminal == 0 || NonTerminal::spec_valid_raw(self.nonterminal))
        &&& (self.reg == 0 || Register::spec_valid_raw(self.reg))
        &&& (self.action == 0 || OperandAction::spec_from_raw(self.action) is Some)
    }
}

/// One operand template of an instruction form: its role, visibility,
/// type, width class, and access action.
#[derive(Clone, Copy, Debug, PartialEq, Eq, Structural)]
pub struct InstOperand {
    name: Operand,
    visibility: OperandVisibility,
    ty: OperandType,
    xtype: Option<OperandElementXType>,
    width: Option<OperandWidth>,
    nonterminal: Option<NonTerminal>,
    reg: Option<Register>,
    action: Option<OperandAction>,
    imm: u32,
}

impl InstOperand {
    /// The operand's role.
    pub closed spec fn spec_name(self) -> Operand {
        self.name
    }

    /// The operand's visibility.
    pub closed spec fn spec_visibility(self) -> OperandVisibility {
        self.visibility
    }

    /// The operand's template type.
    pub closed spec fn spec_ty(self) -> OperandType {
        self.ty
    }

    /// The operand's extended element type, where it has one.
    pub closed spec fn spec_xtype(self) -> Option<OperandElementXType> {
        self.xtype
    }

    /// The operand's width class, where it has one.
    pub closed spec fn spec_width(self) -> Option<OperandWidth> {
        self.width
    }

    /// The nonterminal the operand comes from, where it comes from one.
    pub closed spec fn spec_nonterminal(self) -> Option<NonTerminal> {
        self.nonterminal
    }

    /// The hard-coded register of the template, where it carries one.
    pub closed spec fn spec_reg(self) -> Option<Register> {
        self.reg
    }

    /// The operand's access action, where the template carries one: pure
    /// immediate encodings carry none.
    pub closed spec fn spec_action(self) -> Option<OperandAction> {
        self.action
    }

    /// The immediate marker of the template.
    pub closed spec fn spec_imm(self) -> u32 {
        self.imm
    }

    /// Whether this operand template stands for exactly the given raw
    /// fields, with zero standing for an absent optional field.
    pub open spec fn spec_matches_parts(self, parts: InstOperandParts) -> bool {
        &&& self.spec_name().raw() == parts.name
        &&& Some(self.spec_visibility()) == OperandVisibility::spec_from_raw(parts.visibility)
        &&& Some(self.spec_ty()) == OperandType::spec_from_raw(parts.ty)
        &&& match self.spec_xtype() {
            Some(x) => x.raw() == parts.xtype,
            None => parts.xtype == 0,
        }
        &&& match self.spec_width() {
            Some(w) => w.raw() == parts.width,
            None => parts.width == 0,
        }
        &&& match self.spec_nonterminal() {
            Some(nt) => nt.raw() == parts.nonterminal,
            None => parts.nonterminal == 0,
        }
        &&& match self.spec_reg() {
            Some(reg) => reg.raw() == parts.reg,
            None => parts.reg == 0,
        }
        &&& match self.spec_action() {
            Some(a) => Some(a) == OperandAction::spec_from_raw(parts.action),
            None => parts.action == 0,
        }
        &&& self.spec_imm() == parts.imm
    }

    /// Validate the raw fields of one operand template: accepted exactly
    /// when every field lies inside its enumeration, and the result then
    /// stands for the raw fields, one for one.
    pub fn from_parts(parts: InstOperandParts) -> (r: Result<InstOperand, InvalidEnumValue>)
        ensures
            r is Ok <==> parts.spec_valid(),
            r matches Ok(op) ==> op.spec_matches_parts(parts),
    {
        let name = match Operand::from_raw(parts.name) {
            Ok(v) => v,
            Err(e) => {
                return Err(e);
            },
        };
        let visibility = match OperandVisibility::from_raw(parts.visibility) {
            Some(v) => v,
            None => {
                return Err(InvalidEnumValue::new(parts.visibility, "OperandVisibility"));
            },
        };
        let ty = match OperandType::from_raw(parts.ty) {
            Some(v) => v,
            None => {
                return Err(InvalidEnumValue::new(parts.ty, "OperandType"));
            },
        };
        let xtype = if parts.xtype == 0 {
            None
        } else {
            match OperandElementXType::from_raw(parts.xtype) {
                Ok(v) => Some(v),
                Err(e) => {
                    return Err(e);
                },
            }
        };
        let width = if parts.width == 0 {
            None
        } else {
            match OperandWidth::from_raw(parts.width) {
                Ok(v) => Some(v),
                Err(e) => {
                    return Err(e);
                },
            }
        };
        let nonterminal = if parts.nonterminal == 0 {
            None
        } else {
            match NonTerminal::from_raw(parts.nonterminal) {
                Ok(v) => Some(v),
                Err(e) => {
                    return Err(e);
                },
            }
        };
        let reg = if parts.reg == 0 {
            None
        } else {
            match Register::from_raw(parts.reg) {
                Ok(v) => Some(v),
                Err(e) => {
                    return Err(e);
                },
            }
        };
        let action = if parts.action == 0 {
            None
        } else {
            match OperandAction::from_raw(parts.action) {
                Some(v) => Some(v),
                None => {
                    return Err(InvalidEnumValue::new(parts.action, "OperandAction"));
                },
            }
        };
        Ok(
            InstOperand {
                name,
                visibility,
                ty,
                xtype,
                width,
                nonterminal,
                reg,
                action,
                imm: parts.imm,
            },
        )
    }

    /// The role of the operand.
    pub fn name(&self) -> (r: Operand)
        ensures
            r == self.spec_name(),
    {
        self.name
    }

    /// How the operand shows up in assembly text.
    pub fn visibility(&self) -> (r: OperandVisibility)
        ensures
            r == self.spec_visibility(),
    {
        self.visibility
    }

    /// The template type of the operand.
    pub fn ty(&self) -> (r: OperandType)
        ensures
            r == self.spec_ty(),
    {
        self.ty
    }

    /// The extended element type of the operand, where it has one.
    pub fn xtype(&self) -> (r: Option<OperandElementXType>)
        ensures
            r == self.spec_xtype(),
    {
        self.xtype
    }

    /// The width class of the operand, where it has one.
    pub fn operand_width(&self) -> (r: Option<OperandWidth>)
        ensures
            r == self.spec_width(),
    {
        self.width
    }

    /// The nonterminal the operand comes from, where it comes from one.
    pub fn nonterminal_name(&self) -> (r: Option<NonTerminal>)
        ensures
            r == self.spec_nonterminal(),
    {
        self.nonterminal
    }

    /// The implicit or suppressed register.
    ///
    /// This is only the register hard-coded in the template, where there
    /// is one; registers resolved during decode are read off the decoded
    /// record instead.
    pub fn reg(&self) -> (r: Option<Register>)
        ensures
            r == self.spec_reg(),
    {
        self.reg
    }

    /// Whether the template stands for a register: it comes from a
    /// nonterminal lookup or is typed as a register.
    pub fn template_is_register(&self) -> (r: bool)
        ensures
            r == (self.spec_nonterminal() is Some || self.spec_ty() == OperandType::REG),
    {
        match self.nonterminal {
            Some(_) => true,
            None => self.ty == OperandType::REG,
        }
    }

    /// The immediate marker of the template.
    pub fn imm(&self) -> (r: u32)
        ensures
            r == self.spec_imm(),
    {
        self.imm
    }

    /// The raw access action of the operand template, where it carries
    /// one: absence is a legitimate answer for operands with no access
    /// classification.
    pub fn rw(&self) -> (r: Option<OperandAction>)
        ensures
            r == self.spec_action(),
    {
        self.action
    }

    /// Whether the operand is read, including conditional reads. An
    /// operand without an access action is neither read nor written.
    pub fn read(&self) -> (r: bool)
        ensures
            r == (self.spec_action() matches Some(a) && a.spec_read()),
    {
        match self.action {
            Some(a) => a.read(),
            None => false,
        }
    }

    /// Whether the operand is read-only, including conditional reads.
    pub fn read_only(&self) -> (r: bool)
        ensures
            r == (self.spec_action() matches Some(a) && a.spec_read_only()),
    {
        match self.action {
            Some(a) => a.read_only(),
            None => false,
        }
    }

    /// Whether the operand is written, including conditional writes.
    pub fn written(&self) -> (r: bool)
        ensures
            r == (self.spec_action() matches Some(a) && a.spec_written()),
    {
        match self.action {
            Some(a) => a.written(),
            None => false,
        }
    }

    /// Whether the operand is written-only, including conditional writes.
    pub fn written_only(&self) -> (r: bool)
        ensures
            r == (self.spec_action() matches Some(a) && a.spec_written_only()),
    {
        match self.action {
            Some(a) => a.written_only(),
            None => false,
        }
    }

    /// Whether the operand is read and written, including conditional
    /// reads and writes.
    pub fn read_and_written(&self) -> (r: bool)
        ensures
            r == (self.spec_action() matches Some(a) && a.spec_read_and_written()),
    {
        match self.action {
            Some(a) => a.read_and_written(),
            None => false,
        }
    }

    /// Whether the operand has a conditional read (it may also write).
    pub fn conditional_read(&self) -> (r: bool)
        ensures
            r == (self.spec_action() matches Some(a) && a.spec_conditional_read()),
    {
        match self.action {
            Some(a) => a.conditional_read(),
            None => false,
        }
    }

    /// Whether the operand has a conditional write (it may also read).
    pub fn conditional_write(&self) -> (r: bool)
        ensures
            r == (self.spec_action() matches Some(a) && a.spec_conditional_write()),
    {
        match self.action {
            Some(a) => a.conditional_write(),
            None => false,
        }
    }
}

/// The raw scalar fields of an instruction form, as the table data
/// carries them.
#[derive(Clone, Copy, Debug, PartialEq, Eq, Structural)]
pub struct InstParts {
    /// The raw instruction-class identifier.
    pub iclass: u32,
    /// The raw instruction-form identifier.
    pub iform: u32,
    /// The raw category value.
    pub category: u32,
    /// The raw extension value.
    pub extension: u32,
    /// The raw ISA-set value.
    pub isa_set: u32,
    /// The current privilege level the form requires, 0 or 3.
    pub cpl: u32,
    /// The index of the form's flag record, or zero where it has none.
    pub flag_info_index: u32,
    /// The low word of the attribute bit set.
    pub attributes_a1: u64,
    /// The high word of the attribute bit set.
    pub attributes_a2: u64,
    /// The raw exception-class value, or zero where the form has none.
    pub exception: u32,
}

impl InstParts {
    /// Whether every raw field lies inside its enumeration.
    pub open spec fn spec_valid(self) -> bool {
        &&& Category::spec_valid_raw(self.category)
        &&& Extension::spec_valid_raw(self.extension)
        &&& IsaSet::spec_valid_raw(self.isa_set)
        &&& (self.exception == 0 || Exception::spec_valid_raw(self.exception))
    }
}

/// Constant information about one instruction form: its classification,
/// attribute bit set, flag record index, and ordered operand templates.
#[derive(Debug)]
pub struct Inst {
    iclass: IClass,
    iform: IForm,
    category: Category,
    extension: Extension,
    isa_set: IsaSet,
    cpl: u32,
    flag_info_index: u32,
    attributes: Attributes,
    exception: Option<Exception>,
    operands: Vec<InstOperand>,
}

impl Inst {
    /// The instruction class of the form.
    pub closed spec fn spec_iclass(self) -> IClass {
        self.iclass
    }

    /// The instruction-form identifier.
    pub closed spec fn spec_iform(self) -> IForm {
        self.iform
    }

    /// The category of the form.
    pub closed spec fn spec_category(self) -> Category {
        self.category
    }

    /// The ISA extension of the form.
    pub closed spec fn spec_extension(self) -> Extension {
        self.extension
    }

    /// The ISA set of the form.
    pub closed spec fn spec_isa_set(self) -> IsaSet {
        self.isa_set
    }

    /// The privilege level the form requires.
    pub closed spec fn spec_cpl(self) -> u32 {
        self.cpl
    }

    /// The index of the form's flag record.
    pub closed spec fn spec_flag_info_index(self) -> u32 {
        self.flag_info_index
    }

    /// The attribute bit set of the form.
    pub closed spec fn spec_attributes(self) -> Attributes {
        self.attributes
    }

    /// The exception class of the form, where it has one.
    pub closed spec fn spec_exception(self) -> Option<Exception> {
        self.exception
    }

    /// The ordered operand templates of the form.
    pub closed spec fn spec_operands(self) -> Seq<InstOperand> {
        self.operands@
    }

    /// Validate the raw fields of an instruction form: accepted exactly
    /// when every scalar field and every operand template is valid.
    pub fn from_parts(parts: InstParts, operand_parts: &Vec<InstOperandParts>) -> (r: Result<
        Inst,
        InvalidEnumValue,
    >)
        ensures
            r is Ok <==> parts.spec_valid() && (forall|i: int|
                0 <= i < operand_parts@.len() ==> operand_parts@[i].spec_valid()),
            r matches Ok(inst) ==> {
                &&& inst.spec_iclass().0 == parts.iclass
                &&& inst.spec_iform().0 == parts.iform
                &&& inst.spec_category().raw() == parts.category
                &&& inst.spec_extension().raw() == parts.extension
                &&& inst.spec_isa_set().raw() == parts.isa_set
                &&& inst.spec_cpl() == parts.cpl
                &&& inst.spec_flag_info_index() == parts.flag_info_index
                &&& inst.spec_attributes().a1 == parts.attributes_a1
                &&& inst.spec_attributes().a2 == parts.attributes_a2
                &&& match inst.spec_exception() {
                    Some(e) => e.raw() == parts.exception,
                    None => parts.exception == 0,
                }
                &&& inst.spec_operands().len() == operand_parts@.len()
                &&& forall|i: int|
                    0 <= i < operand_parts@.len()
                        ==> #[trigger] inst.spec_operands()[i].spec_matches_parts(
                        operand_parts@[i],
                    )
            },
    {
        let category = match Category::from_raw(parts.category) {
            Ok(v) => v,
            Err(e) => {
                return Err(e);
            },
        };
        let extension = match Extension::from_raw(parts.extension) {
            Ok(v) => v,
            Err(e) => {
                return Err(e);
            },
        };
        let isa_set = match IsaSet::from_raw(parts.isa_set) {
            Ok(v) => v,
            Err(e) => {
                return Err(e);
            },
        };
        let exception = if parts.exception == 0 {
            None
        } else {
            match Exception::from_raw(parts.exception) {
                Ok(v) => Some(v),
                Err(e) => {
                    return Err(e);
                },
            }
        };
        let mut operands: Vec<InstOperand> = Vec::new();
        let n = operand_parts.len();
        let mut i: usize = 0;
        while i < n
            invariant
                n == operand_parts@.len(),
                i <= n,
                operands@.len() == i,
                forall|j: int| 0 <= j < i ==> #[trigger] operand_parts@[j].spec_valid(),
                forall|j: int|
                    0 <= j < i ==> #[trigger] operands@[j].spec_matches_parts(operand_parts@[j]),
            decreases n - i,
        {
            match InstOperand::from_parts(operand_parts[i]) {
                Ok(op) => operands.push(op),
                Err(e) => {
                    return Err(e);
                },
            };
            i = i + 1;
        }
        Ok(
            Inst {
                iclass: IClass(parts.iclass),
                iform: IForm(parts.iform),
                category,
                extension,
                isa_set,
                cpl: parts.cpl,
                flag_info_index: parts.flag_info_index,
                attributes: Attributes::new(parts.attributes_a1, parts.attributes_a2),
                exception,
                operands,
            },
        )
    }

    /// The operand templates, in order.
    pub fn operands(&self) -> (r: &Vec<InstOperand>)
        ensures
            r@ == self.spec_operands(),
    {
        &self.operands
    }

    /// The instruction-form identifier of this form.
    pub fn iform(&self) -> (r: IForm)
        ensures
            r == self.spec_iform(),
    {
        self.iform
    }

    /// The instruction class of this form.
    pub fn iclass(&self) -> (r: IClass)
        ensures
            r == self.spec_iclass(),
    {
        self.iclass
    }

    /// The category of this form.
    pub fn category(&self) -> (r: Category)
        ensures
            r == self.spec_category(),
    {
        self.category
    }

    /// The ISA extension this form belongs to.
    pub fn extension(&self) -> (r: Extension)
        ensures
            r == self.spec_extension(),
    {
        self.extension
    }

    /// The ISA set this form belongs to.
    pub fn isa_set(&self) -> (r: IsaSet)
        ensures
            r == self.spec_isa_set(),
    {
        self.isa_set
    }

    /// The current privilege level (CPL) required for execution, 0 or 3.
    pub fn cpl(&self) -> (r: u32)
        ensures
            r == self.spec_cpl(),
    {
        self.cpl
    }

    /// The index of this form's flag record, or zero where it has none.
    pub fn flag_info_index(&self) -> (r: u32)
        ensures
            r == self.spec_flag_info_index(),
    {
        self.flag_info_index
    }

    /// Whether the attribute is defined for this form.
    pub fn attribute(&self, attr: Attribute) -> (r: bool)
        ensures
            r == self.spec_attributes().spec_has(attr),
    {
        self.attributes.has(attr)
    }

    /// The whole attribute bit set.
    pub fn attributes(&self) -> (r: Attributes)
        ensures
            r == self.spec_attributes(),
    {
        self.attributes
    }

    /// The exception class, where this form has one. Only SSE and AVX
    /// forms carry it.
    pub fn exception(&self) -> (r: Option<Exception>)
        ensures
            r == self.spec_exception(),
    {
        self.exception
    }
}

/// Whether an operand template names a memory-operand slot: an
/// address-generation operand, or the first or second memory operand.
pub open spec fn spec_is_memop_template(op: InstOperand) -> bool {
    op.spec_name().raw() == OPERAND_AGEN_RAW || op.spec_name().raw() == OPERAND_MEM0_RAW
        || op.spec_name().raw() == OPERAND_MEM1_RAW
}

/// The number of memory-operand templates among the first `n` operand
/// templates.
pub open spec fn spec_memop_template_count(ops: Seq<InstOperand>, n: int) -> int
    decreases n,
{
    if n <= 0 {
        0
    } else if spec_is_memop_template(ops[n - 1]) {
        spec_memop_template_count(ops, n - 1) + 1
    } else {
        spec_memop_template_count(ops, n - 1)
    }
}

/// A form has no more memory-operand templates than operand templates.
pub proof fn lemma_memop_template_count_bound(ops: Seq<InstOperand>, n: int)
    requires
        0 <= n,
    ensures
        0 <= spec_memop_template_count(ops, n) <= n,
    decreases n,
{
    if n > 0 {
        lemma_memop_template_count_bound(ops, n - 1);
    }
}

impl Inst {
    /// The number of memory-operand templates of this form: exactly this
    /// many memory operands appear in a decode of it.
    pub fn memop_template_count(&self) -> (r: usize)
        ensures
            r == spec_memop_template_count(
                self.spec_operands(),
                self.spec_operands().len() as int,
            ),
    {
        let n = self.operands().len();
        let mut count: usize = 0;
        let mut i: usize = 0;
        while i < n
            invariant
                n == self.spec_operands().len(),
                i <= n,
                count <= i,
                count == spec_memop_template_count(self.spec_operands(), i as int),
            decreases n - i,
        {
            let name_raw = self.operands()[i].name().into_raw();
            if name_raw == OPERAND_AGEN_RAW || name_raw == OPERAND_MEM0_RAW || name_raw
                == OPERAND_MEM1_RAW {
                count = count + 1;
            }
            i = i + 1;
        }
        count
    }
}

} // verus!
