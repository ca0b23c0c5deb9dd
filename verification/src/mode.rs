//! Execution modes and address widths.

use vstd::prelude::*;
use crate::error::InvalidEnumValue;

verus! {

/// The processor operating mode under which bytes are decoded.
#[derive(Clone, Copy, Debug, PartialEq, Eq, Structural, Hash)]
pub enum MachineMode {
    /// 64b operating mode.
    Long64,
    /// 32b protected mode (compatibility sub-mode of long mode).
    LongCompat32,
    /// 16b protected mode (compatibility sub-mode of long mode).
    LongCompat16,
    /// 32b protected mode.
    Legacy32,
    /// 16b protected mode.
    Legacy16,
    /// 16b real mode.
    Real16,
    /// 32b real mode (a 16b default address size with 32b operands).
    Real32,
}

impl MachineMode {
    /// The raw machine-mode enumeration value of this mode.
    pub open spec fn raw(self) -> u32 {
        match self {
            MachineMode::Long64 => 1,
            MachineMode::LongCompat32 => 2,
            MachineMode::LongCompat16 => 3,
            MachineMode::Legacy32 => 4,
            MachineMode::Legacy16 => 5,
            MachineMode::Real16 => 6,
            MachineMode::Real32 => 7,
        }
    }

    /// Which modes the raw machine-mode enumeration values stand for.
    pub open spec fn spec_from_raw(value: u32) -> Option<MachineMode> {
        if value == 1 {
            Some(MachineMode::Long64)
        } else if value == 2 {
            Some(MachineMode::LongCompat32)
        } else if value == 3 {
            Some(MachineMode::LongCompat16)
        } else if value == 4 {
            Some(MachineMode::Legacy32)
        } else if value == 5 {
            Some(MachineMode::Legacy16)
        } else if value == 6 {
            Some(MachineMode::Real16)
        } else if value == 7 {
            Some(MachineMode::Real32)
        } else {
            None
        }
    }

    /// Convert this mode into the raw machine-mode enumeration value.
    pub fn into_raw(self) -> (r: u32)
        ensures
            r == self.raw(),
    {
        match self {
            MachineMode::Long64 => 1,
            MachineMode::LongCompat32 => 2,
            MachineMode::LongCompat16 => 3,
            MachineMode::Legacy32 => 4,
            MachineMode::Legacy16 => 5,
            MachineMode::Real16 => 6,
            MachineMode::Real32 => 7,
        }
    }

    /// The name of this mode.
    pub open spec fn spec_name(self) -> &'static str {
        match self {
            MachineMode::Long64 => "Long64",
            MachineMode::LongCompat32 => "LongCompat32",
            MachineMode::LongCompat16 => "LongCompat16",
            MachineMode::Legacy32 => "Legacy32",
            MachineMode::Legacy16 => "Legacy16",
            MachineMode::Real16 => "Real16",
            MachineMode::Real32 => "Real32",
        }
    }

    /// The name of this mode, the string half of the reversible
    /// name/value mapping.
    pub fn name(self) -> (r: &'static str)
        ensures
            r == self.spec_name(),
    {
        match self {
            MachineMode::Long64 => "Long64",
            MachineMode::LongCompat32 => "LongCompat32",
            MachineMode::LongCompat16 => "LongCompat16",
            MachineMode::Legacy32 => "Legacy32",
            MachineMode::Legacy16 => "Legacy16",
            MachineMode::Real16 => "Real16",
            MachineMode::Real32 => "Real32",
        }
    }

    /// The mode a raw machine-mode enumeration value stands for, or the
    /// offending value where it lies outside the enumeration.
    pub fn from_raw(value: u32) -> (r: Result<MachineMode, InvalidEnumValue>)
        ensures
            r matches Ok(m) ==> Self::spec_from_raw(value) == Some(m),
            r matches Err(e) ==> Self::spec_from_raw(value) is None && e.spec_value() == value
                && e.spec_name()@ == "MachineMode"@,
    {
        match value {
            1 => Ok(MachineMode::Long64),
            2 => Ok(MachineMode::LongCompat32),
            3 => Ok(MachineMode::LongCompat16),
            4 => Ok(MachineMode::Legacy32),
            5 => Ok(MachineMode::Legacy16),
            6 => Ok(MachineMode::Real16),
            7 => Ok(MachineMode::Real32),
            _ => Err(InvalidEnumValue::new(value, "MachineMode")),
        }
    }
}

/// A default address width: 16, 32, or 64 bits.
#[derive(Clone, Copy, Debug, PartialEq, Eq, Structural, Hash)]
pub enum AddressWidth {
    /// 16b addressing.
    W16b,
    /// 32b addressing.
    W32b,
    /// 64b addressing.
    W64b,
}

impl AddressWidth {
    /// The raw address-width enumeration value: the width in bytes.
    pub open spec fn raw(self) -> u32 {
        match self {
            AddressWidth::W16b => 2,
            AddressWidth::W32b => 4,
            AddressWidth::W64b => 8,
        }
    }

    /// The width in bits: 16, 32, or 64.
    pub open spec fn spec_bits(self) -> u32 {
        match self {
            AddressWidth::W16b => 16,
            AddressWidth::W32b => 32,
            AddressWidth::W64b => 64,
        }
    }

    /// Which widths the raw address-width enumeration values stand for.
    pub open spec fn spec_from_raw(value: u32) -> Option<AddressWidth> {
        if value == 2 {
            Some(AddressWidth::W16b)
        } else if value == 4 {
            Some(AddressWidth::W32b)
        } else if value == 8 {
            Some(AddressWidth::W64b)
        } else {
            None
        }
    }

    /// Convert this width into the raw address-width enumeration value.
    pub fn into_raw(self) -> (r: u32)
        ensures
            r == self.raw(),
    {
        match self {
            AddressWidth::W16b => 2,
            AddressWidth::W32b => 4,
            AddressWidth::W64b => 8,
        }
    }

    /// The width in bits: 16, 32, or 64.
    pub fn bits(self) -> (r: u32)
        ensures
            r == self.spec_bits(),
    {
        match self {
            AddressWidth::W16b => 16,
            AddressWidth::W32b => 32,
            AddressWidth::W64b => 64,
        }
    }

    /// The name of this width.
    pub open spec fn spec_name(self) -> &'static str {
        match self {
            AddressWidth::W16b => "W16b",
            AddressWidth::W32b => "W32b",
            AddressWidth::W64b => "W64b",
        }
    }

    /// The name of this width, the string half of the reversible
    /// name/value mapping.
    pub fn name(self) -> (r: &'static str)
        ensures
            r == self.spec_name(),
    {
        match self {
            AddressWidth::W16b => "W16b",
            AddressWidth::W32b => "W32b",
            AddressWidth::W64b => "W64b",
        }
    }

    /// The width a raw address-width enumeration value stands for, or the
    /// offending value where it lies outside the enumeration.
    pub fn from_raw(value: u32) -> (r: Result<AddressWidth, InvalidEnumValue>)
        ensures
            r matches Ok(w) ==> Self::spec_from_raw(value) == Some(w),
            r matches Err(e) ==> Self::spec_from_raw(value) is None && e.spec_value() == value
                && e.spec_name()@ == "AddressWidth"@,
    {
        match value {
            2 => Ok(AddressWidth::W16b),
            4 => Ok(AddressWidth::W32b),
            8 => Ok(AddressWidth::W64b),
            _ => Err(InvalidEnumValue::new(value, "AddressWidth")),
        }
    }
}

/// Converting a mode or width to its raw value and back returns it unchanged,
/// and a raw value accepted by the conversion is returned unchanged too.
pub proof fn lemma_mode_raw_roundtrip(m: MachineMode, w: AddressWidth, value: u32)
    ensures
        MachineMode::spec_from_raw(m.raw()) == Some(m),
        AddressWidth::spec_from_raw(w.raw()) == Some(w),
        MachineMode::spec_from_raw(value) matches Some(n) ==> n.raw() == value,
        AddressWidth::spec_from_raw(value) matches Some(v) ==> v.raw() == value,
{
}

} // verus!
