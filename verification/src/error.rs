//! The decode error taxonomy and the invalid-enum-value diagnostic.

use vstd::prelude::*;

verus! {

/// A typed decode error.
///
/// Exactly one of these is reported when decoding fails; decoding never
/// recovers internally from any of them. The raw encoding of each variant
/// follows the decoder's error enumeration, where `0` means "no error" and
/// is therefore not represented here.
#[derive(Clone, Copy, Debug, PartialEq, Eq, Structural)]
pub enum Error {
    /// There were not enough bytes in the given buffer.
    BufferTooShort,
    /// The byte pattern did not match any instruction form.
    GeneralError,
    /// The instruction is not valid for the specified chip.
    InvalidForChip,
    /// An invalid register encoding was used.
    BadRegister,
    /// A lock prefix was found where none is allowed.
    BadLockPrefix,
    /// An F2 or F3 prefix was found where none is allowed.
    BadRepPrefix,
    /// A 66, F2, or F3 prefix was found where none is allowed.
    BadLegacyPrefix,
    /// A REX prefix was found where none is allowed.
    BadRexPrefix,
    /// An illegal value for the MAP field was detected.
    BadMap,
    /// EVEX.V' = 0 was detected in a non-64b mode instruction.
    BadEvexVPrime,
    /// EVEX.Z != 0 when EVEX.aaa == 0.
    BadEvexZNoMasking,
    /// The output pointer for address generation was zero.
    NoOutputPointer,
    /// One or both of the address-generation callbacks were missing.
    NoAgenCallBackRegistered,
    /// Memory-operand indices must be 0 or 1.
    BadMemopIndex,
    /// The register or segment callback experienced a problem.
    CallbackProblem,
    /// The index, destination, and mask registers for gathers must differ.
    GatherRegs,
    /// Full decode of the instruction would exceed 15 bytes.
    InstrTooLong,
    /// The instruction was not valid for the specified mode.
    InvalidMode,
    /// EVEX.LL must not equal 3 unless using embedded rounding.
    BadEvexLl,
    /// Some registers must not match for this instruction.
    BadRegMatch,
}

impl Error {
    /// The raw error-enumeration value of this error.
    pub open spec fn raw(self) -> u32 {
        match self {
            Error::BufferTooShort => 1,
            Error::GeneralError => 2,
            Error::InvalidForChip => 3,
            Error::BadRegister => 4,
            Error::BadLockPrefix => 5,
            Error::BadRepPrefix => 6,
            Error::BadLegacyPrefix => 7,
            Error::BadRexPrefix => 8,
            Error::BadMap => 9,
            Error::BadEvexVPrime => 10,
            Error::BadEvexZNoMasking => 11,
            Error::NoOutputPointer => 12,
            Error::NoAgenCallBackRegistered => 13,
            Error::BadMemopIndex => 14,
            Error::CallbackProblem => 15,
            Error::GatherRegs => 16,
            Error::InstrTooLong => 17,
            Error::InvalidMode => 18,
            Error::BadEvexLl => 19,
            Error::BadRegMatch => 20,
        }
    }

    /// Which errors the raw error-enumeration values stand for: `0` is
    /// "no error" and values past the last error are unknown.
    pub open spec fn spec_from_raw(value: u32) -> Option<Error> {
        if value == 1 {
            Some(Error::BufferTooShort)
        } else if value == 2 {
            Some(Error::GeneralError)
        } else if value == 3 {
            Some(Error::InvalidForChip)
        } else if value == 4 {
            Some(Error::BadRegister)
        } else if value == 5 {
            Some(Error::BadLockPrefix)
        } else if value == 6 {
            Some(Error::BadRepPrefix)
        } else if value == 7 {
            Some(Error::BadLegacyPrefix)
        } else if value == 8 {
            Some(Error::BadRexPrefix)
        } else if value == 9 {
            Some(Error::BadMap)
        } else if value == 10 {
            Some(Error::BadEvexVPrime)
        } else if value == 11 {
            Some(Error::BadEvexZNoMasking)
        } else if value == 12 {
            Some(Error::NoOutputPointer)
        } else if value == 13 {
            Some(Error::NoAgenCallBackRegistered)
        } else if value == 14 {
            Some(Error::BadMemopIndex)
        } else if value == 15 {
            Some(Error::CallbackProblem)
        } else if value == 16 {
            Some(Error::GatherRegs)
        } else if value == 17 {
            Some(Error::InstrTooLong)
        } else if value == 18 {
            Some(Error::InvalidMode)
        } else if value == 19 {
            Some(Error::BadEvexLl)
        } else if value == 20 {
            Some(Error::BadRegMatch)
        } else {
            None
        }
    }

    /// Convert this error into the raw error-enumeration value.
    pub fn into_raw(self) -> (r: u32)
        ensures
            r == self.raw(),
    {
        match self {
            Error::BufferTooShort => 1,
            Error::GeneralError => 2,
            Error::InvalidForChip => 3,
            Error::BadRegister => 4,
            Error::BadLockPrefix => 5,
            Error::BadRepPrefix => 6,
            Error::BadLegacyPrefix => 7,
            Error::BadRexPrefix => 8,
            Error::BadMap => 9,
            Error::BadEvexVPrime => 10,
            Error::BadEvexZNoMasking => 11,
            Error::NoOutputPointer => 12,
            Error::NoAgenCallBackRegistered => 13,
            Error::BadMemopIndex => 14,
            Error::CallbackProblem => 15,
            Error::GatherRegs => 16,
            Error::InstrTooLong => 17,
            Error::InvalidMode => 18,
            Error::BadEvexLl => 19,
            Error::BadRegMatch => 20,
        }
    }

    /// The error a raw error-enumeration value stands for, or `None` where
    /// the value means "no error" or lies outside the enumeration.
    pub fn from_raw(value: u32) -> (r: Option<Error>)
        ensures
            r == Error::spec_from_raw(value),
    {
        match value {
            1 => Some(Error::BufferTooShort),
            2 => Some(Error::GeneralError),
            3 => Some(Error::InvalidForChip),
            4 => Some(Error::BadRegister),
            5 => Some(Error::BadLockPrefix),
            6 => Some(Error::BadRepPrefix),
            7 => Some(Error::BadLegacyPrefix),
            8 => Some(Error::BadRexPrefix),
            9 => Some(Error::BadMap),
            10 => Some(Error::BadEvexVPrime),
            11 => Some(Error::BadEvexZNoMasking),
            12 => Some(Error::NoOutputPointer),
            13 => Some(Error::NoAgenCallBackRegistered),
            14 => Some(Error::BadMemopIndex),
            15 => Some(Error::CallbackProblem),
            16 => Some(Error::GatherRegs),
            17 => Some(Error::InstrTooLong),
            18 => Some(Error::InvalidMode),
            19 => Some(Error::BadEvexLl),
            20 => Some(Error::BadRegMatch),
            _ => None,
        }
    }

    /// A short description of this error, for reporting.
    pub fn describe(self) -> (r: &'static str) {
        match self {
            Error::BufferTooShort => "buffer too short",
            Error::GeneralError => "could not decode the given instruction",
            Error::InvalidForChip => "instruction not valid for the specified chip",
            Error::BadRegister => "invalid register encoding",
            Error::BadLockPrefix => "lock prefix found where none is allowed",
            Error::BadRepPrefix => "rep prefix found where none is allowed",
            Error::BadLegacyPrefix => "legacy prefix found where none is allowed",
            Error::BadRexPrefix => "rex prefix found where none is allowed",
            Error::BadMap => "illegal value for the map field",
            Error::BadEvexVPrime => "evex.v' = 0 in a non-64b mode instruction",
            Error::BadEvexZNoMasking => "evex.z != 0 when evex.aaa == 0",
            Error::NoOutputPointer => "output pointer for address generation was zero",
            Error::NoAgenCallBackRegistered => "address-generation callback missing",
            Error::BadMemopIndex => "memory-operand index must be 0 or 1",
            Error::CallbackProblem => "register or segment callback problem",
            Error::GatherRegs => "gather index, dest, and mask registers must differ",
            Error::InstrTooLong => "full decode would exceed 15 bytes",
            Error::InvalidMode => "instruction not valid for the specified mode",
            Error::BadEvexLl => "evex.ll must not equal 3 without embedded rounding",
            Error::BadRegMatch => "some registers must not match for this instruction",
        }
    }
}

/// Converting a raw value into a typed enumeration and converting the
/// enumeration back are mutually inverse.
pub proof fn lemma_error_raw_roundtrip(e: Error, value: u32)
    ensures
        Error::spec_from_raw(e.raw()) == Some(e),
        Error::spec_from_raw(value) matches Some(d) ==> d.raw() == value,
{
}

/// Error for when converting an integer to an enumeration fails: it carries
/// the offending raw value and the name of the target enumeration.
#[derive(Clone, Copy, Debug)]
pub struct InvalidEnumValue {
    value: u32,
    name: &'static str,
}

impl InvalidEnumValue {
    /// The offending raw value.
    pub closed spec fn spec_value(self) -> u32 {
        self.value
    }

    /// The name of the enumeration the value was meant for.
    pub closed spec fn spec_name(self) -> &'static str {
        self.name
    }

    /// Record that `value` is not valid for the enumeration called `name`.
    pub fn new(value: u32, name: &'static str) -> (r: Self)
        ensures
            r.spec_value() == value,
            r.spec_name() == name,
    {
        InvalidEnumValue { value, name }
    }

    /// The offending raw value.
    pub fn value(self) -> (r: u32)
        ensures
            r == self.spec_value(),
    {
        self.value
    }

    /// The name of the target enumeration.
    pub fn enum_name(&self) -> (r: &'static str)
        ensures
            r == self.spec_name(),
    {
        self.name
    }
}

} // verus!
