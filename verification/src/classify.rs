//! Instruction classification values: class, form, category, extension,
//! exception class, and the disassembly syntax selector.

use vstd::prelude::*;
use crate::error::InvalidEnumValue;

verus! {

/// An instruction class: a mnemonic-level identifier independent of the
/// specific operand encoding. Carried through unvalidated, as the table
/// data is its only source of meaning.
#[derive(Clone, Copy, Debug, PartialEq, Eq, Structural, Hash)]
pub struct IClass(pub u32);

/// An instruction form: a specific identifier distinguishing among the
/// concrete encodings that share an instruction class. Carried through
/// unvalidated, as the table data is its only source of meaning.
#[derive(Clone, Copy, Debug, PartialEq, Eq, Structural, Hash)]
pub struct IForm(pub u32);

/// A broad functional grouping of instructions.
///
/// A checked classification value: the wrapped identifier is non-zero and
/// lies inside the enumeration.
#[derive(Clone, Copy, Debug, PartialEq, Eq, Structural, Hash)]
pub struct Category(u32);

impl Category {
    /// The bound of the enumeration: identifiers lie below it.
    pub const LIMIT: u32 = 114;

    /// The raw enumeration value.
    pub closed spec fn raw(self) -> u32 {
        self.0
    }

    /// Whether a raw value lies inside the enumeration: non-zero (zero is
    /// the invalid marker) and below the bound.
    pub open spec fn spec_valid_raw(value: u32) -> bool {
        0 < value < Category::LIMIT
    }

    /// The item a raw enumeration value stands for, or the offending value
    /// where it lies outside the enumeration.
    pub fn from_raw(value: u32) -> (r: Result<Category, InvalidEnumValue>)
        ensures
            r matches Ok(v) ==> Category::spec_valid_raw(value) && v.raw() == value,
            r matches Err(e) ==> !Category::spec_valid_raw(value) && e.spec_value() == value
                && e.spec_name()@ == "Category"@,
    {
        if 0 < value && value < Category::LIMIT {
            Ok(Category(value))
        } else {
            Err(InvalidEnumValue::new(value, "Category"))
        }
    }

    /// Convert this item into the raw enumeration value.
    pub fn into_raw(self) -> (r: u32)
        ensures
            r == self.raw(),
    {
        self.0
    }
}

/// The ISA extension an instruction belongs to.
///
/// A checked classification value: the wrapped identifier is non-zero and
/// lies inside the enumeration.
#[derive(Clone, Copy, Debug, PartialEq, Eq, Structural, Hash)]
pub struct Extension(u32);

impl Extension {
    /// The bound of the enumeration: identifiers lie below it.
    pub const LIMIT: u32 = 106;

    /// The raw enumeration value.
    pub closed spec fn raw(self) -> u32 {
        self.0
    }

    /// Whether a raw value lies inside the enumeration: non-zero (zero is
    /// the invalid marker) and below the bound.
    pub open spec fn spec_valid_raw(value: u32) -> bool {
        0 < value < Extension::LIMIT
    }

    /// The item a raw enumeration value stands for, or the offending value
    /// where it lies outside the enumeration.
    pub fn from_raw(value: u32) -> (r: Result<Extension, InvalidEnumValue>)
        ensures
            r matches Ok(v) ==> Extension::spec_valid_raw(value) && v.raw() == value,
            r matches Err(e) ==> !Extension::spec_valid_raw(value) && e.spec_value() == value
                && e.spec_name()@ == "Extension"@,
    {
        if 0 < value && value < Extension::LIMIT {
            Ok(Extension(value))
        } else {
            Err(InvalidEnumValue::new(value, "Extension"))
        }
    }

    /// Convert this item into the raw enumeration value.
    pub fn into_raw(self) -> (r: u32)
        ensures
            r == self.raw(),
    {
        self.0
    }
}

/// The exception class of an instruction form.
///
/// A checked classification value: the wrapped identifier is non-zero and
/// lies inside the enumeration.
#[derive(Clone, Copy, Debug, PartialEq, Eq, Structural, Hash)]
pub struct Exception(u32);

impl Exception {
    /// The bound of the enumeration: identifiers lie below it.
    pub const LIMIT: u32 = 78;

    /// The raw enumeration value.
    pub closed spec fn raw(self) -> u32 {
        self.0
    }

    /// Whether a raw value lies inside the enumeration: non-zero (zero is
    /// the invalid marker) and below the bound.
    pub open spec fn spec_valid_raw(value: u32) -> bool {
        0 < value < Exception::LIMIT
    }

    /// The item a raw enumeration value stands for, or the offending value
    /// where it lies outside the enumeration.
    pub fn from_raw(value: u32) -> (r: Result<Exception, InvalidEnumValue>)
        ensures
            r matches Ok(v) ==> Exception::spec_valid_raw(value) && v.raw() == value,
            r matches Err(e) ==> !Exception::spec_valid_raw(value) && e.spec_value() == value
                && e.spec_name()@ == "Exception"@,
    {
        if 0 < value && value < Exception::LIMIT {
            Ok(Exception(value))
        } else {
            Err(InvalidEnumValue::new(value, "Exception"))
        }
    }

    /// Convert this item into the raw enumeration value.
    pub fn into_raw(self) -> (r: u32)
        ensures
            r == self.raw(),
    {
        self.0
    }
}

/// A disassembly syntax.
#[allow(non_camel_case_types)]
#[derive(Clone, Copy, Debug, PartialEq, Eq, Structural, Hash)]
pub enum Syntax {
    /// The decoder's own disassembly syntax.
    XED,
    /// AT&T SYS-V disassembly syntax.
    ATT,
    /// Intel disassembly syntax.
    INTEL,
}

impl Syntax {
    /// The raw syntax enumeration value of this item.
    pub open spec fn raw(self) -> u32 {
        match self {
            Syntax::XED => 1,
            Syntax::ATT => 2,
            Syntax::INTEL => 3,
        }
    }

    /// Which items the raw syntax enumeration values stand for.
    pub open spec fn spec_from_raw(value: u32) -> Option<Syntax> {
        if value == 1 {
            Some(Syntax::XED)
        } else if value == 2 {
            Some(Syntax::ATT)
        } else if value == 3 {
            Some(Syntax::INTEL)
        } else {
            None
        }
    }

    /// Convert this item into the raw syntax enumeration value.
    pub fn into_raw(self) -> (r: u32)
        ensures
            r == self.raw(),
    {
        match self {
            Syntax::XED => 1,
            Syntax::ATT => 2,
            Syntax::INTEL => 3,
        }
    }

    /// The item a raw syntax enumeration value stands for, or `None` where
    /// the value means "invalid" or lies outside the enumeration.
    pub fn from_raw(value: u32) -> (r: Option<Syntax>)
        ensures
            r == Syntax::spec_from_raw(value),
    {
        match value {
            1 => Some(Syntax::XED),
            2 => Some(Syntax::ATT),
            3 => Some(Syntax::INTEL),
            _ => None,
        }
    }
}

} // verus!
