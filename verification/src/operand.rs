//! Operand classification: access actions, visibility, template types,
//! element types, and the checked operand-role identifiers.

use vstd::prelude::*;
use crate::error::InvalidEnumValue;

verus! {

/// The raw operand-role identifier of an address-generation operand.
pub const OPERAND_AGEN_RAW: u32 = 2;

/// The raw operand-role identifier of the first memory operand.
pub const OPERAND_MEM0_RAW: u32 = 49;

/// The raw operand-role identifier of the second memory operand.
pub const OPERAND_MEM1_RAW: u32 = 50;

/// How an operand is accessed, including the conditional variants.
#[allow(non_camel_case_types)]
#[derive(Clone, Copy, Debug, PartialEq, Eq, Structural, Hash)]
pub enum OperandAction {
    /// Read and written (must write).
    RW,
    /// Read-only.
    R,
    /// Write-only.
    W,
    /// Read and conditionally written (may write).
    RCW,
    /// Conditionally written.
    CW,
    /// Conditionally read, always written (must write).
    CRW,
    /// Conditional read.
    CR,
}

impl OperandAction {
    /// The raw operand-action enumeration value of this item.
    pub open spec fn raw(self) -> u32 {
        match self {
            OperandAction::RW => 1,
            OperandAction::R => 2,
            OperandAction::W => 3,
            OperandAction::RCW => 4,
            OperandAction::CW => 5,
            OperandAction::CRW => 6,
            OperandAction::CR => 7,
        }
    }

    /// Which items the raw operand-action enumeration values stand for.
    pub open spec fn spec_from_raw(value: u32) -> Option<OperandAction> {
        if value == 1 {
            Some(OperandAction::RW)
        } else if value == 2 {
            Some(OperandAction::R)
        } else if value == 3 {
            Some(OperandAction::W)
        } else if value == 4 {
            Some(OperandAction::RCW)
        } else if value == 5 {
            Some(OperandAction::CW)
        } else if value == 6 {
            Some(OperandAction::CRW)
        } else if value == 7 {
            Some(OperandAction::CR)
        } else {
            None
        }
    }

    /// Convert this item into the raw operand-action enumeration value.
    pub fn into_raw(self) -> (r: u32)
        ensures
            r == self.raw(),
    {
        match self {
            OperandAction::RW => 1,
            OperandAction::R => 2,
            OperandAction::W => 3,
            OperandAction::RCW => 4,
            OperandAction::CW => 5,
            OperandAction::CRW => 6,
            OperandAction::CR => 7,
        }
    }

    /// The item a raw operand-action enumeration value stands for, or `None` where
    /// the value means "invalid" or lies outside the enumeration.
    pub fn from_raw(value: u32) -> (r: Option<OperandAction>)
        ensures
            r == OperandAction::spec_from_raw(value),
    {
        match value {
            1 => Some(OperandAction::RW),
            2 => Some(OperandAction::R),
            3 => Some(OperandAction::W),
            4 => Some(OperandAction::RCW),
            5 => Some(OperandAction::CW),
            6 => Some(OperandAction::CRW),
            7 => Some(OperandAction::CR),
            _ => None,
        }
    }
}

impl OperandAction {
    /// Whether the operand is read, including conditional reads.
    pub open spec fn spec_read(self) -> bool {
        self == OperandAction::RW || self == OperandAction::R || self == OperandAction::RCW || self == OperandAction::CRW || self == OperandAction::CR
    }

    /// Whether the operand is read, including conditional reads.
    pub fn read(self) -> (r: bool)
        ensures
            r == self.spec_read(),
    {
        match self {
            OperandAction::RW => true,
            OperandAction::R => true,
            OperandAction::W => false,
            OperandAction::RCW => true,
            OperandAction::CW => false,
            OperandAction::CRW => true,
            OperandAction::CR => true,
        }
    }

    /// Whether the operand is read-only, including conditional reads.
    pub open spec fn spec_read_only(self) -> bool {
        self == OperandAction::R || self == OperandAction::CR
    }

    /// Whether the operand is read-only, including conditional reads.
    pub fn read_only(self) -> (r: bool)
        ensures
            r == self.spec_read_only(),
    {
        match self {
            OperandAction::RW => false,
            OperandAction::R => true,
            OperandAction::W => false,
            OperandAction::RCW => false,
            OperandAction::CW => false,
            OperandAction::CRW => false,
            OperandAction::CR => true,
        }
    }

    /// Whether the operand is written, including conditional writes.
    pub open spec fn spec_written(self) -> bool {
        self == OperandAction::RW || self == OperandAction::W || self == OperandAction::RCW || self == OperandAction::CW || self == OperandAction::CRW
    }

    /// Whether the operand is written, including conditional writes.
    pub fn written(self) -> (r: bool)
        ensures
            r == self.spec_written(),
    {
        match self {
            OperandAction::RW => true,
            OperandAction::R => false,
            OperandAction::W => true,
            OperandAction::RCW => true,
            OperandAction::CW => true,
            OperandAction::CRW => true,
            OperandAction::CR => false,
        }
    }

    /// Whether the operand is written-only, including conditional writes.
    pub open spec fn spec_written_only(self) -> bool {
        self == OperandAction::W || self == OperandAction::CW
    }

    /// Whether the operand is written-only, including conditional writes.
    pub fn written_only(self) -> (r: bool)
        ensures
            r == self.spec_written_only(),
    {
        match self {
            OperandAction::RW => false,
            OperandAction::R => false,
            OperandAction::W => true,
            OperandAction::RCW => false,
            OperandAction::CW => true,
            OperandAction::CRW => false,
            OperandAction::CR => false,
        }
    }

    /// Whether the operand is read and written, including conditional reads and writes.
    pub open spec fn spec_read_and_written(self) -> bool {
        self == OperandAction::RW || self == OperandAction::RCW || self == OperandAction::CRW
    }

    /// Whether the operand is read and written, including conditional reads and writes.
    pub fn read_and_written(self) -> (r: bool)
        ensures
            r == self.spec_read_and_written(),
    {
        match self {
            OperandAction::RW => true,
            OperandAction::R => false,
            OperandAction::W => false,
            OperandAction::RCW => true,
            OperandAction::CW => false,
            OperandAction::CRW => true,
            OperandAction::CR => false,
        }
    }

    /// Whether the operand has a conditional read (it may also write).
    pub open spec fn spec_conditional_read(self) -> bool {
        self == OperandAction::CRW || self == OperandAction::CR
    }

    /// Whether the operand has a conditional read (it may also write).
    pub fn conditional_read(self) -> (r: bool)
        ensures
            r == self.spec_conditional_read(),
    {
        match self {
            OperandAction::RW => false,
            OperandAction::R => false,
            OperandAction::W => false,
            OperandAction::RCW => false,
            OperandAction::CW => false,
            OperandAction::CRW => true,
            OperandAction::CR => true,
        }
    }

    /// Whether the operand has a conditional write (it may also read).
    pub open spec fn spec_conditional_write(self) -> bool {
        self == OperandAction::RCW || self == OperandAction::CW
    }

    /// Whether the operand has a conditional write (it may also read).
    pub fn conditional_write(self) -> (r: bool)
        ensures
            r == self.spec_conditional_write(),
    {
        match self {
            OperandAction::RW => false,
            OperandAction::R => false,
            OperandAction::W => false,
            OperandAction::RCW => true,
            OperandAction::CW => true,
            OperandAction::CRW => false,
            OperandAction::CR => false,
        }
    }

}

/// How an operand shows up in assembly text.
#[allow(non_camel_case_types)]
#[derive(Clone, Copy, Debug, PartialEq, Eq, Structural, Hash)]
pub enum OperandVisibility {
    /// The operand is written out in the assembly text.
    EXPLICIT,
    /// The operand is implied by the mnemonic and printed.
    IMPLICIT,
    /// The operand is implied and not printed.
    SUPPRESSED,
}

impl OperandVisibility {
    /// The raw operand-visibility enumeration value of this item.
    pub open spec fn raw(self) -> u32 {
        match self {
            OperandVisibility::EXPLICIT => 1,
            OperandVisibility::IMPLICIT => 2,
            OperandVisibility::SUPPRESSED => 3,
        }
    }

    /// Which items the raw operand-visibility enumeration values stand for.
    pub open spec fn spec_from_raw(value: u32) -> Option<OperandVisibility> {
        if value == 1 {
            Some(OperandVisibility::EXPLICIT)
        } else if value == 2 {
            Some(OperandVisibility::IMPLICIT)
        } else if value == 3 {
            Some(OperandVisibility::SUPPRESSED)
        } else {
            None
        }
    }

    /// Convert this item into the raw operand-visibility enumeration value.
    pub fn into_raw(self) -> (r: u32)
        ensures
            r == self.raw(),
    {
        match self {
            OperandVisibility::EXPLICIT => 1,
            OperandVisibility::IMPLICIT => 2,
            OperandVisibility::SUPPRESSED => 3,
        }
    }

    /// The item a raw operand-visibility enumeration value stands for, or `None` where
    /// the value means "invalid" or lies outside the enumeration.
    pub fn from_raw(value: u32) -> (r: Option<OperandVisibility>)
        ensures
            r == OperandVisibility::spec_from_raw(value),
    {
        match value {
            1 => Some(OperandVisibility::EXPLICIT),
            2 => Some(OperandVisibility::IMPLICIT),
            3 => Some(OperandVisibility::SUPPRESSED),
            _ => None,
        }
    }
}

/// The template type of an operand.
#[allow(non_camel_case_types)]
#[derive(Clone, Copy, Debug, PartialEq, Eq, Structural, Hash)]
pub enum OperandType {
    /// An error marker in the operand template.
    ERROR,
    /// An immediate.
    IMM,
    /// A constant immediate implied by the form.
    IMM_CONST,
    /// A nonterminal lookup.
    NT_LOOKUP_FN,
    /// A nonterminal lookup, 2-wide.
    NT_LOOKUP_FN2,
    /// A nonterminal lookup, 4-wide.
    NT_LOOKUP_FN4,
    /// A register.
    REG,
}

impl OperandType {
    /// The raw operand-type enumeration value of this item.
    pub open spec fn raw(self) -> u32 {
        match self {
            OperandType::ERROR => 1,
            OperandType::IMM => 2,
            OperandType::IMM_CONST => 3,
            OperandType::NT_LOOKUP_FN => 4,
            OperandType::NT_LOOKUP_FN2 => 5,
            OperandType::NT_LOOKUP_FN4 => 6,
            OperandType::REG => 7,
        }
    }

    /// Which items the raw operand-type enumeration values stand for.
    pub open spec fn spec_from_raw(value: u32) -> Option<OperandType> {
        if value == 1 {
            Some(OperandType::ERROR)
        } else if value == 2 {
            Some(OperandType::IMM)
        } else if value == 3 {
            Some(OperandType::IMM_CONST)
        } else if value == 4 {
            Some(OperandType::NT_LOOKUP_FN)
        } else if value == 5 {
            Some(OperandType::NT_LOOKUP_FN2)
        } else if value == 6 {
            Some(OperandType::NT_LOOKUP_FN4)
        } else if value == 7 {
            Some(OperandType::REG)
        } else {
            None
        }
    }

    /// Convert this item into the raw operand-type enumeration value.
    pub fn into_raw(self) -> (r: u32)
        ensures
            r == self.raw(),
    {
        match self {
            OperandType::ERROR => 1,
            OperandType::IMM => 2,
            OperandType::IMM_CONST => 3,
            OperandType::NT_LOOKUP_FN => 4,
            OperandType::NT_LOOKUP_FN2 => 5,
            OperandType::NT_LOOKUP_FN4 => 6,
            OperandType::REG => 7,
        }
    }

    /// The item a raw operand-type enumeration value stands for, or `None` where
    /// the value means "invalid" or lies outside the enumeration.
    pub fn from_raw(value: u32) -> (r: Option<OperandType>)
        ensures
            r == OperandType::spec_from_raw(value),
    {
        match value {
            1 => Some(OperandType::ERROR),
            2 => Some(OperandType::IMM),
            3 => Some(OperandType::IMM_CONST),
            4 => Some(OperandType::NT_LOOKUP_FN),
            5 => Some(OperandType::NT_LOOKUP_FN2),
            6 => Some(OperandType::NT_LOOKUP_FN4),
            7 => Some(OperandType::REG),
            _ => None,
        }
    }
}

/// The type of the elements in an operand.
#[allow(non_camel_case_types)]
#[derive(Clone, Copy, Debug, PartialEq, Eq, Structural, Hash)]
pub enum OperandElementType {
    /// Unsigned integer.
    UINT,
    /// Signed integer.
    INT,
    /// 32b FP single precision.
    SINGLE,
    /// 64b FP double precision.
    DOUBLE,
    /// 80b FP x87.
    LONGDOUBLE,
    /// 80b decimal BCD.
    LONGBCD,
    /// A structure of various fields.
    STRUCT,
    /// Depends on other fields in the instruction.
    VARIABLE,
    /// 16b floating point.
    FLOAT16,
    /// bfloat16 floating point.
    BFLOAT16,
    /// 8-bit integer.
    INT8,
    /// 8-bit unsigned integer.
    UINT8,
}

impl OperandElementType {
    /// The raw operand-element-type enumeration value of this item.
    pub open spec fn raw(self) -> u32 {
        match self {
            OperandElementType::UINT => 1,
            OperandElementType::INT => 2,
            OperandElementType::SINGLE => 3,
            OperandElementType::DOUBLE => 4,
            OperandElementType::LONGDOUBLE => 5,
            OperandElementType::LONGBCD => 6,
            OperandElementType::STRUCT => 7,
            OperandElementType::VARIABLE => 8,
            OperandElementType::FLOAT16 => 9,
            OperandElementType::BFLOAT16 => 10,
            OperandElementType::INT8 => 11,
            OperandElementType::UINT8 => 12,
        }
    }

    /// Which items the raw operand-element-type enumeration values stand for.
    pub open spec fn spec_from_raw(value: u32) -> Option<OperandElementType> {
        if value == 1 {
            Some(OperandElementType::UINT)
        } else if value == 2 {
            Some(OperandElementType::INT)
        } else if value == 3 {
            Some(OperandElementType::SINGLE)
        } else if value == 4 {
            Some(OperandElementType::DOUBLE)
        } else if value == 5 {
            Some(OperandElementType::LONGDOUBLE)
        } else if value == 6 {
            Some(OperandElementType::LONGBCD)
        } else if value == 7 {
            Some(OperandElementType::STRUCT)
        } else if value == 8 {
            Some(OperandElementType::VARIABLE)
        } else if value == 9 {
            Some(OperandElementType::FLOAT16)
        } else if value == 10 {
            Some(OperandElementType::BFLOAT16)
        } else if value == 11 {
            Some(OperandElementType::INT8)
        } else if value == 12 {
            Some(OperandElementType::UINT8)
        } else {
            None
        }
    }

    /// Convert this item into the raw operand-element-type enumeration value.
    pub fn into_raw(self) -> (r: u32)
        ensures
            r == self.raw(),
    {
        match self {
            OperandElementType::UINT => 1,
            OperandElementType::INT => 2,
            OperandElementType::SINGLE => 3,
            OperandElementType::DOUBLE => 4,
            OperandElementType::LONGDOUBLE => 5,
            OperandElementType::LONGBCD => 6,
            OperandElementType::STRUCT => 7,
            OperandElementType::VARIABLE => 8,
            OperandElementType::FLOAT16 => 9,
            OperandElementType::BFLOAT16 => 10,
            OperandElementType::INT8 => 11,
            OperandElementType::UINT8 => 12,
        }
    }

    /// The item a raw operand-element-type enumeration value stands for, or `None` where
    /// the value means "invalid" or lies outside the enumeration.
    pub fn from_raw(value: u32) -> (r: Option<OperandElementType>)
        ensures
            r == OperandElementType::spec_from_raw(value),
    {
        match value {
            1 => Some(OperandElementType::UINT),
            2 => Some(OperandElementType::INT),
            3 => Some(OperandElementType::SINGLE),
            4 => Some(OperandElementType::DOUBLE),
            5 => Some(OperandElementType::LONGDOUBLE),
            6 => Some(OperandElementType::LONGBCD),
            7 => Some(OperandElementType::STRUCT),
            8 => Some(OperandElementType::VARIABLE),
            9 => Some(OperandElementType::FLOAT16),
            10 => Some(OperandElementType::BFLOAT16),
            11 => Some(OperandElementType::INT8),
            12 => Some(OperandElementType::UINT8),
            _ => None,
        }
    }
}

/// The name (role) of an operand slot in the decoder's operand storage.
///
/// A checked classification value: the wrapped identifier is non-zero and
/// lies inside the enumeration.
#[derive(Clone, Copy, Debug, PartialEq, Eq, Structural, Hash)]
pub struct Operand(u32);

impl Operand {
    /// The bound of the enumeration: identifiers lie below it.
    pub const LIMIT: u32 = 141;

    /// The raw enumeration value.
    pub closed spec fn raw(self) -> u32 {
        self.0
    }

    /// Whether a raw value lies inside the enumeration: non-zero (zero is
    /// the invalid marker) and below the bound.
    pub open spec fn spec_valid_raw(value: u32) -> bool {
        0 < value < Operand::LIMIT
    }

    /// The item a raw enumeration value stands for, or the offending value
    /// where it lies outside the enumeration.
    pub fn from_raw(value: u32) -> (r: Result<Operand, InvalidEnumValue>)
        ensures
            r matches Ok(v) ==> Operand::spec_valid_raw(value) && v.raw() == value,
            r matches Err(e) ==> !Operand::spec_valid_raw(value) && e.spec_value() == value
                && e.spec_name()@ == "Operand"@,
    {
        if 0 < value && value < Operand::LIMIT {
            Ok(Operand(value))
        } else {
            Err(InvalidEnumValue::new(value, "Operand"))
        }
    }

    /// Convert this item into the raw enumeration value.
    pub fn into_raw(self) -> (r: u32)
        ensures
            r == self.raw(),
    {
        self.0
    }
}

/// The width class of an operand template.
///
/// A checked classification value: the wrapped identifier is non-zero and
/// lies inside the enumeration.
#[derive(Clone, Copy, Debug, PartialEq, Eq, Structural, Hash)]
pub struct OperandWidth(u32);

impl OperandWidth {
    /// The bound of the enumeration: identifiers lie below it.
    pub const LIMIT: u32 = 129;

    /// The raw enumeration value.
    pub closed spec fn raw(self) -> u32 {
        self.0
    }

    /// Whether a raw value lies inside the enumeration: non-zero (zero is
    /// the invalid marker) and below the bound.
    pub open spec fn spec_valid_raw(value: u32) -> bool {
        0 < value < OperandWidth::LIMIT
    }

    /// The item a raw enumeration value stands for, or the offending value
    /// where it lies outside the enumeration.
    pub fn from_raw(value: u32) -> (r: Result<OperandWidth, InvalidEnumValue>)
        ensures
            r matches Ok(v) ==> OperandWidth::spec_valid_raw(value) && v.raw() == value,
            r matches Err(e) ==> !OperandWidth::spec_valid_raw(value) && e.spec_value() == value
                && e.spec_name()@ == "OperandWidth"@,
    {
        if 0 < value && value < OperandWidth::LIMIT {
            Ok(OperandWidth(value))
        } else {
            Err(InvalidEnumValue::new(value, "OperandWidth"))
        }
    }

    /// Convert this item into the raw enumeration value.
    pub fn into_raw(self) -> (r: u32)
        ensures
            r == self.raw(),
    {
        self.0
    }
}

/// The extended element type of an operand template.
///
/// A checked classification value: the wrapped identifier is non-zero and
/// lies inside the enumeration.
#[derive(Clone, Copy, Debug, PartialEq, Eq, Structural, Hash)]
pub struct OperandElementXType(u32);

impl OperandElementXType {
    /// The bound of the enumeration: identifiers lie below it.
    pub const LIMIT: u32 = 29;

    /// The raw enumeration value.
    pub closed spec fn raw(self) -> u32 {
        self.0
    }

    /// Whether a raw value lies inside the enumeration: non-zero (zero is
    /// the invalid marker) and below the bound.
    pub open spec fn spec_valid_raw(value: u32) -> bool {
        0 < value < OperandElementXType::LIMIT
    }

    /// The item a raw enumeration value stands for, or the offending value
    /// where it lies outside the enumeration.
    pub fn from_raw(value: u32) -> (r: Result<OperandElementXType, InvalidEnumValue>)
        ensures
            r matches Ok(v) ==> OperandElementXType::spec_valid_raw(value) && v.raw() == value,
            r matches Err(e) ==> !OperandElementXType::spec_valid_raw(value) && e.spec_value() == value
                && e.spec_name()@ == "OperandElementXType"@,
    {
        if 0 < value && value < OperandElementXType::LIMIT {
            Ok(OperandElementXType(value))
        } else {
            Err(InvalidEnumValue::new(value, "OperandElementXType"))
        }
    }

    /// Convert this item into the raw enumeration value.
    pub fn into_raw(self) -> (r: u32)
        ensures
            r == self.raw(),
    {
        self.0
    }
}

/// A nonterminal of the decoder's pattern grammar.
///
/// A checked classification value: the wrapped identifier is non-zero and
/// lies inside the enumeration.
#[derive(Clone, Copy, Debug, PartialEq, Eq, Structural, Hash)]
pub struct NonTerminal(u32);

impl NonTerminal {
    /// The bound of the enumeration: identifiers lie below it.
    pub const LIMIT: u32 = 285;

    /// The raw enumeration value.
    pub closed spec fn raw(self) -> u32 {
        self.0
    }

    /// Whether a raw value lies inside the enumeration: non-zero (zero is
    /// the invalid marker) and below the bound.
    pub open spec fn spec_valid_raw(value: u32) -> bool {
        0 < value < NonTerminal::LIMIT
    }

    /// The item a raw enumeration value stands for, or the offending value
    /// where it lies outside the enumeration.
    pub fn from_raw(value: u32) -> (r: Result<NonTerminal, InvalidEnumValue>)
        ensures
            r matches Ok(v) ==> NonTerminal::spec_valid_raw(value) && v.raw() == value,
            r matches Err(e) ==> !NonTerminal::spec_valid_raw(value) && e.spec_value() == value
                && e.spec_name()@ == "NonTerminal"@,
    {
        if 0 < value && value < NonTerminal::LIMIT {
            Ok(NonTerminal(value))
        } else {
            Err(InvalidEnumValue::new(value, "NonTerminal"))
        }
    }

    /// Convert this item into the raw enumeration value.
    pub fn into_raw(self) -> (r: u32)
        ensures
            r == self.raw(),
    {
        self.0
    }
}

} // verus!
