//! Options for a decode call: the execution state, and an optional
//! feature mask restricting which forms are considered valid.

use vstd::prelude::*;
use crate::chip::ChipFeatures;
use crate::state::State;

verus! {

/// Options for a decode.
///
/// A decode always runs under a [`State`]; a feature mask may be added to
/// restrict the set of valid instructions to those whose ISA set the mask
/// holds.
pub struct DecodeOptions {
    state: State,
    features: Option<ChipFeatures>,
}

impl DecodeOptions {
    /// The state the decode runs under.
    pub closed spec fn spec_state(self) -> State {
        self.state
    }

    /// The feature mask restricting the decode, where one is set.
    pub closed spec fn spec_features(self) -> Option<ChipFeatures> {
        self.features
    }

    /// Create a new set of options from a state, with no feature mask.
    pub fn new(state: State) -> (r: Self)
        ensures
            r.spec_state() == state,
            r.spec_features() is None,
    {
        DecodeOptions { state, features: None }
    }

    /// Restrict the set of valid instructions to only those belonging to
    /// the features in the mask.
    pub fn features(self, features: ChipFeatures) -> (r: Self)
        ensures
            r.spec_state() == self.spec_state(),
            r.spec_features() == Some(features),
    {
        DecodeOptions { state: self.state, features: Some(features) }
    }

    /// The state the decode runs under.
    pub fn state(&self) -> (r: State)
        ensures
            r == self.spec_state(),
    {
        self.state
    }

    /// The feature mask restricting the decode, where one is set.
    pub fn chip_features(&self) -> (r: &Option<ChipFeatures>)
        ensures
            *r == self.spec_features(),
    {
        &self.features
    }
}

} // verus!
