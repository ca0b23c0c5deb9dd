//! Chips, ISA sets, and the feature mask that restricts decoding.

use vstd::prelude::*;
use crate::error::{Error, InvalidEnumValue};

verus! {

/// The number of ISA-set identifiers a feature mask can hold. Every valid
/// ISA-set identifier lies below this bound.
pub const FEATURE_BITS: usize = 384;

/// A named group of instructions introduced together by a processor feature.
///
/// A checked classification value: the wrapped identifier is non-zero and
/// lies inside the ISA-set enumeration.
#[derive(Clone, Copy, Debug, PartialEq, Eq, Structural, Hash)]
pub struct IsaSet(u32);

/// A named target microarchitecture, used to derive a feature mask.
///
/// A checked classification value: the wrapped identifier is non-zero and
/// lies inside the chip enumeration.
#[derive(Clone, Copy, Debug, PartialEq, Eq, Structural, Hash)]
pub struct Chip(u32);

impl IsaSet {
    /// The bound of the ISA-set enumeration: identifiers lie below it.
    pub const LIMIT: u32 = 225;

    /// The raw ISA-set enumeration value.
    pub closed spec fn raw(self) -> u32 {
        self.0
    }

    /// Whether a raw value lies inside the enumeration: non-zero (zero is
    /// the invalid marker) and below the bound.
    pub open spec fn spec_valid_raw(value: u32) -> bool {
        0 < value < IsaSet::LIMIT
    }

    /// The ISA set a raw enumeration value stands for, or the offending
    /// value where it lies outside the enumeration.
    pub fn from_raw(value: u32) -> (r: Result<IsaSet, InvalidEnumValue>)
        ensures
            r matches Ok(s) ==> IsaSet::spec_valid_raw(value) && s.raw() == value,
            r matches Err(e) ==> !IsaSet::spec_valid_raw(value) && e.spec_value() == value
                && e.spec_name()@ == "IsaSet"@,
    {
        if 0 < value && value < IsaSet::LIMIT {
            Ok(IsaSet(value))
        } else {
            Err(InvalidEnumValue::new(value, "IsaSet"))
        }
    }

    /// Convert this ISA set into the raw enumeration value.
    pub fn into_raw(self) -> (r: u32)
        ensures
            r == self.raw(),
    {
        self.0
    }
}

impl Chip {
    /// The bound of the chip enumeration: identifiers lie below it.
    pub const LIMIT: u32 = 73;

    /// The raw chip enumeration value.
    pub closed spec fn raw(self) -> u32 {
        self.0
    }

    /// Whether a raw value lies inside the enumeration.
    pub open spec fn spec_valid_raw(value: u32) -> bool {
        0 < value < Chip::LIMIT
    }

    /// The chip a raw enumeration value stands for, or the offending value
    /// where it lies outside the enumeration.
    pub fn from_raw(value: u32) -> (r: Result<Chip, InvalidEnumValue>)
        ensures
            r matches Ok(c) ==> Chip::spec_valid_raw(value) && c.raw() == value,
            r matches Err(e) ==> !Chip::spec_valid_raw(value) && e.spec_value() == value
                && e.spec_name()@ == "Chip"@,
    {
        if 0 < value && value < Chip::LIMIT {
            Ok(Chip(value))
        } else {
            Err(InvalidEnumValue::new(value, "Chip"))
        }
    }

    /// Convert this chip into the raw enumeration value.
    pub fn into_raw(self) -> (r: u32)
        ensures
            r == self.raw(),
    {
        self.0
    }
}

/// A feature mask: the set of ISA sets whose instructions are considered
/// valid when the mask restricts a decode.
///
/// Restricting with a mask never widens what decodes: it only rules forms
/// out. The mask is a bitset indexed by raw ISA-set identifiers.
#[derive(Clone, Debug)]
pub struct ChipFeatures {
    bits: Vec<bool>,
}

impl ChipFeatures {
    /// Whether this mask is well-formed: it has one slot for every
    /// admissible ISA-set identifier.
    pub closed spec fn wf(self) -> bool {
        self.bits.len() == FEATURE_BITS
    }

    /// Whether the ISA set with raw identifier `isa` is enabled.
    pub closed spec fn spec_has_raw(self, isa: int) -> bool {
        0 <= isa < self.bits.len() && self.bits[isa]
    }

    /// Whether the given ISA set is enabled.
    pub open spec fn spec_has(self, isa: IsaSet) -> bool {
        self.spec_has_raw(isa.raw() as int)
    }

    /// Whether every ISA set enabled here is enabled in `other` too.
    pub open spec fn spec_subset_of(self, other: ChipFeatures) -> bool {
        forall|i: int| self.spec_has_raw(i) ==> other.spec_has_raw(i)
    }

    /// A mask with no ISA set enabled.
    pub fn none() -> (r: ChipFeatures)
        ensures
            r.wf(),
            forall|i: int| !r.spec_has_raw(i),
    {
        let mut bits: Vec<bool> = Vec::new();
        let mut n: usize = 0;
        while n < FEATURE_BITS
            invariant
                n == bits.len(),
                n <= FEATURE_BITS,
                forall|i: int| 0 <= i < n ==> !bits[i],
            decreases FEATURE_BITS - n,
        {
            bits.push(false);
            n = n + 1;
        }
        ChipFeatures { bits }
    }

    /// Enable the features that correspond to the provided ISA set: the
    /// mask afterwards holds that set and everything it held before.
    pub fn enable_isa_set(&mut self, isa_set: IsaSet)
        requires
            old(self).wf(),
            IsaSet::spec_valid_raw(isa_set.raw()),
        ensures
            final(self).wf(),
            forall|i: int|
                final(self).spec_has_raw(i) == (old(self).spec_has_raw(i)
                    || i == isa_set.raw() as int),
    {
        let index = isa_set.into_raw() as usize;
        assert(index < FEATURE_BITS);
        self.bits.set(index, true);
    }

    /// Disable the features that correspond to the provided ISA set: the
    /// mask afterwards holds everything it held before except that set.
    pub fn disable_isa_set(&mut self, isa_set: IsaSet)
        requires
            old(self).wf(),
            IsaSet::spec_valid_raw(isa_set.raw()),
        ensures
            final(self).wf(),
            forall|i: int|
                final(self).spec_has_raw(i) == (old(self).spec_has_raw(i)
                    && i != isa_set.raw() as int),
    {
        let index = isa_set.into_raw() as usize;
        assert(index < FEATURE_BITS);
        self.bits.set(index, false);
    }

    /// Whether the given ISA set is enabled in this mask.
    pub fn has_isa_set(&self, isa_set: IsaSet) -> (r: bool)
        requires
            self.wf(),
            IsaSet::spec_valid_raw(isa_set.raw()),
        ensures
            r == self.spec_has(isa_set),
    {
        let index = isa_set.into_raw() as usize;
        assert(index < FEATURE_BITS);
        self.bits[index]
    }

    /// The mask as its bit slots, one for every admissible raw ISA-set
    /// identifier, indexed by that identifier.
    pub fn slots(&self) -> (r: &Vec<bool>)
        requires
            self.wf(),
        ensures
            r.len() == FEATURE_BITS,
            forall|i: int| 0 <= i < r.len() ==> r[i] == self.spec_has_raw(i),
    {
        &self.bits
    }

    /// Rebuild a mask from bit slots indexed by raw ISA-set identifier.
    /// Slots past the admissible identifiers are dropped; missing slots are
    /// taken as disabled.
    pub fn from_slots(slots: &Vec<bool>) -> (r: ChipFeatures)
        ensures
            r.wf(),
            forall|i: int|
                r.spec_has_raw(i) == (0 <= i < slots.len() && i < FEATURE_BITS && slots[i]),
    {
        let mut bits: Vec<bool> = Vec::new();
        let mut n: usize = 0;
        while n < FEATURE_BITS
            invariant
                n == bits.len(),
                n <= FEATURE_BITS,
                forall|i: int| 0 <= i < n ==> bits[i] == (i < slots.len() && slots[i]),
            decreases FEATURE_BITS - n,
        {
            if n < slots.len() {
                bits.push(slots[n]);
            } else {
                bits.push(false);
            }
            n = n + 1;
        }
        ChipFeatures { bits }
    }
}

/// The feature gate of a decode: a form whose ISA set an active mask lacks
/// is rejected as invalid for the chip, and no mask rejects nothing.
/// Restriction never widens what decodes.
pub fn feature_check(features: Option<&ChipFeatures>, isa_set: IsaSet) -> (r: Option<Error>)
    requires
        features matches Some(f) ==> f.wf(),
        IsaSet::spec_valid_raw(isa_set.raw()),
    ensures
        r is Some <==> (features matches Some(f) && !f.spec_has(isa_set)),
        r matches Some(e) ==> e == Error::InvalidForChip,
{
    match features {
        None => None,
        Some(f) => {
            if f.has_isa_set(isa_set) {
                None
            } else {
                Some(Error::InvalidForChip)
            }
        },
    }
}

/// Feature-mask restriction is monotonic: a form whose ISA set passes the
/// feature gate under a mask passes it under every superset mask, and a
/// mask that lacks the form's ISA set always gates it out.
pub proof fn lemma_feature_gate_monotonic(m: ChipFeatures, sup: ChipFeatures, isa: IsaSet)
    requires
        m.wf(),
        sup.wf(),
        m.spec_subset_of(sup),
        m.spec_has(isa),
    ensures
        sup.spec_has(isa),
{
}

/// Feature-mask growth is monotonic: enabling an ISA set never disables
/// another, so a mask that was a superset of `m` stays a superset after
/// `m` and it both enable the same set, and anything enabled under `m`
/// stays enabled under any superset mask.
pub proof fn lemma_feature_mask_monotonic(m: ChipFeatures, sup: ChipFeatures, isa: IsaSet)
    requires
        m.spec_subset_of(sup),
    ensures
        m.spec_has(isa) ==> sup.spec_has(isa),
{
}

} // verus!
