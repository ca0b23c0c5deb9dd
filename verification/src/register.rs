//! Registers as checked identifiers, with the register-class predicates.

use vstd::prelude::*;
use crate::error::InvalidEnumValue;

verus! {

/// A register identifier.
///
/// A checked classification value: the wrapped identifier is non-zero and
/// lies inside the register enumeration. The register classes occupy fixed
/// identifier ranges, which the predicates below test.
#[derive(Clone, Copy, Debug, PartialEq, Eq, Structural, Hash)]
pub struct Register(u32);

impl Register {
    /// The bound of the register enumeration: identifiers lie below it.
    pub const LIMIT: u32 = 365;

    /// The raw register enumeration value.
    pub closed spec fn raw(self) -> u32 {
        self.0
    }

    /// Whether a raw value lies inside the enumeration: non-zero (zero is
    /// the invalid marker) and below the bound.
    pub open spec fn spec_valid_raw(value: u32) -> bool {
        0 < value < Register::LIMIT
    }

    /// The register a raw enumeration value stands for, or the offending
    /// value where it lies outside the enumeration.
    pub fn from_raw(value: u32) -> (r: Result<Register, InvalidEnumValue>)
        ensures
            r matches Ok(v) ==> Register::spec_valid_raw(value) && v.raw() == value,
            r matches Err(e) ==> !Register::spec_valid_raw(value) && e.spec_value() == value
                && e.spec_name()@ == "Register"@,
    {
        if 0 < value && value < Register::LIMIT {
            Ok(Register(value))
        } else {
            Err(InvalidEnumValue::new(value, "Register"))
        }
    }

    /// Convert this register into the raw enumeration value.
    pub fn into_raw(self) -> (r: u32)
        ensures
            r == self.raw(),
    {
        self.0
    }

    /// Whether this is a bound-configuration register (identifier 1).
    pub fn is_bndcfg(self) -> (r: bool)
        ensures
            r == (self.raw() == 1),
    {
        self.0 == 1
    }

    /// Whether this is a bound-status register (identifier 2).
    pub fn is_bndstat(self) -> (r: bool)
        ensures
            r == (self.raw() == 2),
    {
        self.0 == 2
    }

    /// Whether this is a bound register (identifiers 3 through 6).
    pub fn is_bound(self) -> (r: bool)
        ensures
            r == (3 <= self.raw() <= 6),
    {
        3 <= self.0 && self.0 <= 6
    }

    /// Whether this is a control register (identifiers 7 through 22).
    pub fn is_cr(self) -> (r: bool)
        ensures
            r == (7 <= self.raw() <= 22),
    {
        7 <= self.0 && self.0 <= 22
    }

    /// Whether this is a debug register (identifiers 23 through 30).
    pub fn is_dr(self) -> (r: bool)
        ensures
            r == (23 <= self.raw() <= 30),
    {
        23 <= self.0 && self.0 <= 30
    }

    /// Whether this is a flags register (identifiers 31 through 33).
    pub fn is_flags(self) -> (r: bool)
        ensures
            r == (31 <= self.raw() <= 33),
    {
        31 <= self.0 && self.0 <= 33
    }

    /// Whether this is a 16b general-purpose register (identifiers 34 through 65).
    pub fn is_gpr16(self) -> (r: bool)
        ensures
            r == (34 <= self.raw() <= 65),
    {
        34 <= self.0 && self.0 <= 65
    }

    /// Whether this is a 32b general-purpose register (identifiers 66 through 97).
    pub fn is_gpr32(self) -> (r: bool)
        ensures
            r == (66 <= self.raw() <= 97),
    {
        66 <= self.0 && self.0 <= 97
    }

    /// Whether this is a 8b general-purpose register (identifiers 130 through 161).
    pub fn is_gpr8(self) -> (r: bool)
        ensures
            r == (130 <= self.raw() <= 161),
    {
        130 <= self.0 && self.0 <= 161
    }

    /// Whether this is a high-byte 8b general-purpose register (identifiers 162 through 165).
    pub fn is_gpr8h(self) -> (r: bool)
        ensures
            r == (162 <= self.raw() <= 165),
    {
        162 <= self.0 && self.0 <= 165
    }

    /// Whether this is a instruction-pointer register (identifiers 167 through 169).
    pub fn is_ip(self) -> (r: bool)
        ensures
            r == (167 <= self.raw() <= 169),
    {
        167 <= self.0 && self.0 <= 169
    }

    /// Whether this is a write-mask register (identifiers 170 through 177).
    pub fn is_mask(self) -> (r: bool)
        ensures
            r == (170 <= self.raw() <= 177),
    {
        170 <= self.0 && self.0 <= 177
    }

    /// Whether this is a MMX register (identifiers 178 through 185).
    pub fn is_mmx(self) -> (r: bool)
        ensures
            r == (178 <= self.raw() <= 185),
    {
        178 <= self.0 && self.0 <= 185
    }

    /// Whether this is a model-specific register (identifiers 186 through 187).
    pub fn is_msr(self) -> (r: bool)
        ensures
            r == (186 <= self.raw() <= 187),
    {
        186 <= self.0 && self.0 <= 187
    }

    /// Whether this is a MXCSR register (identifier 188).
    pub fn is_mxcsr(self) -> (r: bool)
        ensures
            r == (self.raw() == 188),
    {
        self.0 == 188
    }

    /// Whether this is a pseudo register (identifiers 189 through 217).
    pub fn is_pseudo(self) -> (r: bool)
        ensures
            r == (189 <= self.raw() <= 217),
    {
        189 <= self.0 && self.0 <= 217
    }

    /// Whether this is a x87 pseudo register (identifiers 218 through 228).
    pub fn is_pseudo_x87(self) -> (r: bool)
        ensures
            r == (218 <= self.raw() <= 228),
    {
        218 <= self.0 && self.0 <= 228
    }

    /// Whether this is a segment register (identifiers 229 through 234).
    pub fn is_sr(self) -> (r: bool)
        ensures
            r == (229 <= self.raw() <= 234),
    {
        229 <= self.0 && self.0 <= 234
    }

    /// Whether this is a temporary register (identifiers 235 through 250).
    pub fn is_tmp(self) -> (r: bool)
        ensures
            r == (235 <= self.raw() <= 250),
    {
        235 <= self.0 && self.0 <= 250
    }

    /// Whether this is a tile register (identifiers 251 through 258).
    pub fn is_treg(self) -> (r: bool)
        ensures
            r == (251 <= self.raw() <= 258),
    {
        251 <= self.0 && self.0 <= 258
    }

    /// Whether this is a user-interrupt flag register (identifier 259).
    pub fn is_uif(self) -> (r: bool)
        ensures
            r == (self.raw() == 259),
    {
        self.0 == 259
    }

    /// Whether this is a x87 stack register (identifiers 260 through 267).
    pub fn is_x87(self) -> (r: bool)
        ensures
            r == (260 <= self.raw() <= 267),
    {
        260 <= self.0 && self.0 <= 267
    }

    /// Whether this is a extended control register (identifier 268).
    pub fn is_xcr(self) -> (r: bool)
        ensures
            r == (self.raw() == 268),
    {
        self.0 == 268
    }

    /// Whether this is a XMM register (identifiers 269 through 300).
    pub fn is_xmm(self) -> (r: bool)
        ensures
            r == (269 <= self.raw() <= 300),
    {
        269 <= self.0 && self.0 <= 300
    }

    /// Whether this is a YMM register (identifiers 301 through 332).
    pub fn is_ymm(self) -> (r: bool)
        ensures
            r == (301 <= self.raw() <= 332),
    {
        301 <= self.0 && self.0 <= 332
    }

    /// Whether this is a ZMM register (identifiers 333 through 364).
    pub fn is_zmm(self) -> (r: bool)
        ensures
            r == (333 <= self.raw() <= 364),
    {
        333 <= self.0 && self.0 <= 364
    }

}

} // verus!
