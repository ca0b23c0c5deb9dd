//! The execution environment a decode runs under: a machine mode paired with
//! a stack address width.

use vstd::prelude::*;
use crate::mode::{AddressWidth, MachineMode};

verus! {

/// A machine mode paired with the default stack address width.
///
/// Immutable input to decoding. The one constraint on the pair is that the
/// 64b operating mode always runs with a 64b stack address width.
#[derive(Clone, Copy, Debug, PartialEq, Eq, Structural)]
pub struct State {
    mmode: MachineMode,
    stack_addr_width: AddressWidth,
}

impl State {
    /// Whether a (mode, stack-address-width) pair is admissible: the 64b
    /// operating mode requires a 64b stack address width; every other pair
    /// is admissible.
    pub open spec fn spec_valid_pair(mmode: MachineMode, stack_addr_width: AddressWidth) -> bool {
        mmode == MachineMode::Long64 ==> stack_addr_width == AddressWidth::W64b
    }

    /// The machine mode of this state.
    pub closed spec fn spec_machine_mode(self) -> MachineMode {
        self.mmode
    }

    /// The stack address width of this state.
    pub closed spec fn spec_stack_address_width(self) -> AddressWidth {
        self.stack_addr_width
    }

    /// Create a new state from a machine mode and stack address width.
    ///
    /// Callers must pass an admissible pair: `Long64` only together with a
    /// 64b stack address width. [`State::try_new`] checks the pair instead.
    pub fn new(mmode: MachineMode, stack_addr_width: AddressWidth) -> (r: Self)
        requires
            State::spec_valid_pair(mmode, stack_addr_width),
        ensures
            r.spec_machine_mode() == mmode,
            r.spec_stack_address_width() == stack_addr_width,
    {
        State { mmode, stack_addr_width }
    }

    /// Create a new state, rejecting the inadmissible pairs: the result is
    /// `Some` exactly when the pair is not `Long64` with a 16b or 32b width.
    pub fn try_new(mmode: MachineMode, stack_addr_width: AddressWidth) -> (r: Option<Self>)
        ensures
            r matches Some(s)
                <==> State::spec_valid_pair(mmode, stack_addr_width),
            r matches Some(s) ==> s.spec_machine_mode() == mmode
                && s.spec_stack_address_width() == stack_addr_width,
    {
        if mmode == MachineMode::Long64 && stack_addr_width != AddressWidth::W64b {
            None
        } else {
            Some(State { mmode, stack_addr_width })
        }
    }

    /// A state for the 64b operating mode with its 64b stack address width.
    pub fn long64() -> (r: Self)
        ensures
            r.spec_machine_mode() == MachineMode::Long64,
            r.spec_stack_address_width() == AddressWidth::W64b,
    {
        State { mmode: MachineMode::Long64, stack_addr_width: AddressWidth::W64b }
    }

    /// The default address width that the machine mode implies. The real
    /// modes count as 32b here (their true 20b width has no slot in the
    /// width enumeration).
    pub open spec fn spec_address_width(self) -> AddressWidth {
        match self.spec_machine_mode() {
            MachineMode::Long64 => AddressWidth::W64b,
            MachineMode::LongCompat32 => AddressWidth::W32b,
            MachineMode::Legacy32 => AddressWidth::W32b,
            MachineMode::Real32 => AddressWidth::W32b,
            MachineMode::Real16 => AddressWidth::W32b,
            MachineMode::LongCompat16 => AddressWidth::W16b,
            MachineMode::Legacy16 => AddressWidth::W16b,
        }
    }

    /// Get the address width that the machine mode implies.
    pub fn address_width(&self) -> (r: AddressWidth)
        ensures
            r == self.spec_address_width(),
    {
        match self.mmode {
            MachineMode::Long64 => AddressWidth::W64b,
            MachineMode::LongCompat32 => AddressWidth::W32b,
            MachineMode::Legacy32 => AddressWidth::W32b,
            MachineMode::Real32 => AddressWidth::W32b,
            MachineMode::Real16 => AddressWidth::W32b,
            MachineMode::LongCompat16 => AddressWidth::W16b,
            MachineMode::Legacy16 => AddressWidth::W16b,
        }
    }

    /// Get the machine mode.
    pub fn machine_mode(&self) -> (r: MachineMode)
        ensures
            r == self.spec_machine_mode(),
    {
        self.mmode
    }

    /// Get the stack address width.
    pub fn stack_address_width(&self) -> (r: AddressWidth)
        ensures
            r == self.spec_stack_address_width(),
    {
        self.stack_addr_width
    }

    /// Set the machine mode.
    ///
    /// The machine mode indicates the default data operand size.
    pub fn set_machine_mode(&mut self, mode: MachineMode)
        ensures
            final(self).spec_machine_mode() == mode,
            final(self).spec_stack_address_width() == old(self).spec_stack_address_width(),
    {
        self.mmode = mode;
    }

    /// Set the stack address width.
    pub fn set_stack_address_width(&mut self, addr_width: AddressWidth)
        ensures
            final(self).spec_stack_address_width() == addr_width,
            final(self).spec_machine_mode() == old(self).spec_machine_mode(),
    {
        self.stack_addr_width = addr_width;
    }

    /// Is this state's machine mode the 64b operating mode?
    pub fn is_long64_mode(&self) -> (r: bool)
        ensures
            r == (self.spec_machine_mode() == MachineMode::Long64),
    {
        self.mmode == MachineMode::Long64
    }

    /// Is this state in real mode?
    pub fn is_real_mode(&self) -> (r: bool)
        ensures
            r == (self.spec_machine_mode() == MachineMode::Real16
                || self.spec_machine_mode() == MachineMode::Real32),
    {
        self.mmode == MachineMode::Real16 || self.mmode == MachineMode::Real32
    }

    /// Is this a protected mode with a 16b default width? The 16b real
    /// mode does not count: only the legacy and compatibility 16b modes.
    pub fn is_mode_width_16(&self) -> (r: bool)
        ensures
            r == (self.spec_machine_mode() == MachineMode::Legacy16
                || self.spec_machine_mode() == MachineMode::LongCompat16),
    {
        self.mmode == MachineMode::Legacy16 || self.mmode == MachineMode::LongCompat16
    }

    /// Is this a protected mode with a 32b default width? The 32b real
    /// mode and the 64b operating mode do not count: only the legacy and
    /// compatibility 32b modes.
    pub fn is_mode_width_32(&self) -> (r: bool)
        ensures
            r == (self.spec_machine_mode() == MachineMode::Legacy32
                || self.spec_machine_mode() == MachineMode::LongCompat32),
    {
        self.mmode == MachineMode::Legacy32 || self.mmode == MachineMode::LongCompat32
    }
}

/// Construction accepts every (mode, stack-address-width) pair except the 64b
/// operating mode with a 16b or 32b width, and rejects exactly those.
pub proof fn lemma_state_construction(mmode: MachineMode, stack_addr_width: AddressWidth)
    ensures
        State::spec_valid_pair(mmode, stack_addr_width)
            <==> !(mmode == MachineMode::Long64 && stack_addr_width != AddressWidth::W64b),
{
}

} // verus!
