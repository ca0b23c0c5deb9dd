//! The flags-register effect model: named flag bits, per-flag actions, flag
//! bit sets, and the aggregated flag summary of an instruction form.

use vstd::prelude::*;

verus! {

/// A named bit of the flags register (with the four x87 condition flags,
/// which ride along in the same bit set).
#[allow(non_camel_case_types)]
#[derive(Clone, Copy, Debug, PartialEq, Eq, Structural, Hash)]
pub enum Flag {
    /// Overflow flag.
    OF,
    /// Sign flag.
    SF,
    /// Zero flag.
    ZF,
    /// Auxiliary flag.
    AF,
    /// Parity flag.
    PF,
    /// Carry flag.
    CF,
    /// Direction flag.
    DF,
    /// Virtual interrupt flag.
    VIF,
    /// I/O privilege level.
    IOPL,
    /// Interrupt flag.
    IF,
    /// Alignment check.
    AC,
    /// Virtual-8086 mode.
    VM,
    /// Resume flag.
    RF,
    /// Nested task.
    NT,
    /// Trap flag.
    TF,
    /// ID flag.
    ID,
    /// Virtual interrupt pending.
    VIP,
    /// x87 FC0 flag.
    FC0,
    /// x87 FC1 flag.
    FC1,
    /// x87 FC2 flag.
    FC2,
    /// x87 FC3 flag.
    FC3,
}

impl Flag {
    /// The raw flag enumeration value of this flag.
    pub open spec fn raw(self) -> u32 {
        match self {
            Flag::OF => 1,
            Flag::SF => 2,
            Flag::ZF => 3,
            Flag::AF => 4,
            Flag::PF => 5,
            Flag::CF => 6,
            Flag::DF => 7,
            Flag::VIF => 8,
            Flag::IOPL => 9,
            Flag::IF => 10,
            Flag::AC => 11,
            Flag::VM => 12,
            Flag::RF => 13,
            Flag::NT => 14,
            Flag::TF => 15,
            Flag::ID => 16,
            Flag::VIP => 17,
            Flag::FC0 => 18,
            Flag::FC1 => 19,
            Flag::FC2 => 20,
            Flag::FC3 => 21,
        }
    }

    /// The bits this flag occupies in a flag set, at the flag's position in
    /// the flags register (the I/O privilege level is a two-bit field; the
    /// x87 condition flags sit in the otherwise reserved high bits).
    pub open spec fn spec_set_mask(self) -> u32 {
        match self {
            Flag::CF => 0x1,
            Flag::PF => 0x4,
            Flag::AF => 0x10,
            Flag::ZF => 0x40,
            Flag::SF => 0x80,
            Flag::TF => 0x100,
            Flag::IF => 0x200,
            Flag::DF => 0x400,
            Flag::OF => 0x800,
            Flag::IOPL => 0x3000,
            Flag::NT => 0x4000,
            Flag::RF => 0x10000,
            Flag::VM => 0x20000,
            Flag::AC => 0x40000,
            Flag::VIF => 0x80000,
            Flag::VIP => 0x100000,
            Flag::ID => 0x200000,
            Flag::FC0 => 0x10000000,
            Flag::FC1 => 0x20000000,
            Flag::FC2 => 0x40000000,
            Flag::FC3 => 0x80000000,
        }
    }

    /// Convert this flag into the raw flag enumeration value.
    pub fn into_raw(self) -> (r: u32)
        ensures
            r == self.raw(),
    {
        match self {
            Flag::OF => 1,
            Flag::SF => 2,
            Flag::ZF => 3,
            Flag::AF => 4,
            Flag::PF => 5,
            Flag::CF => 6,
            Flag::DF => 7,
            Flag::VIF => 8,
            Flag::IOPL => 9,
            Flag::IF => 10,
            Flag::AC => 11,
            Flag::VM => 12,
            Flag::RF => 13,
            Flag::NT => 14,
            Flag::TF => 15,
            Flag::ID => 16,
            Flag::VIP => 17,
            Flag::FC0 => 18,
            Flag::FC1 => 19,
            Flag::FC2 => 20,
            Flag::FC3 => 21,
        }
    }

    /// Which flags the raw flag enumeration values stand for.
    pub open spec fn spec_from_raw(value: u32) -> Option<Flag> {
        if value == 1 {
            Some(Flag::OF)
        } else if value == 2 {
            Some(Flag::SF)
        } else if value == 3 {
            Some(Flag::ZF)
        } else if value == 4 {
            Some(Flag::AF)
        } else if value == 5 {
            Some(Flag::PF)
        } else if value == 6 {
            Some(Flag::CF)
        } else if value == 7 {
            Some(Flag::DF)
        } else if value == 8 {
            Some(Flag::VIF)
        } else if value == 9 {
            Some(Flag::IOPL)
        } else if value == 10 {
            Some(Flag::IF)
        } else if value == 11 {
            Some(Flag::AC)
        } else if value == 12 {
            Some(Flag::VM)
        } else if value == 13 {
            Some(Flag::RF)
        } else if value == 14 {
            Some(Flag::NT)
        } else if value == 15 {
            Some(Flag::TF)
        } else if value == 16 {
            Some(Flag::ID)
        } else if value == 17 {
            Some(Flag::VIP)
        } else if value == 18 {
            Some(Flag::FC0)
        } else if value == 19 {
            Some(Flag::FC1)
        } else if value == 20 {
            Some(Flag::FC2)
        } else if value == 21 {
            Some(Flag::FC3)
        } else {
            None
        }
    }

    /// The flag a raw flag enumeration value stands for, or `None` where
    /// the value means "no flag" or lies outside the enumeration.
    pub fn from_raw(value: u32) -> (r: Option<Flag>)
        ensures
            r == Flag::spec_from_raw(value),
    {
        match value {
            1 => Some(Flag::OF),
            2 => Some(Flag::SF),
            3 => Some(Flag::ZF),
            4 => Some(Flag::AF),
            5 => Some(Flag::PF),
            6 => Some(Flag::CF),
            7 => Some(Flag::DF),
            8 => Some(Flag::VIF),
            9 => Some(Flag::IOPL),
            10 => Some(Flag::IF),
            11 => Some(Flag::AC),
            12 => Some(Flag::VM),
            13 => Some(Flag::RF),
            14 => Some(Flag::NT),
            15 => Some(Flag::TF),
            16 => Some(Flag::ID),
            17 => Some(Flag::VIP),
            18 => Some(Flag::FC0),
            19 => Some(Flag::FC1),
            20 => Some(Flag::FC2),
            21 => Some(Flag::FC3),
            _ => None,
        }
    }

    /// Get the bits this flag occupies in a flag set.
    pub fn set_mask(self) -> (r: u32)
        ensures
            r == self.spec_set_mask(),
    {
        match self {
            Flag::CF => 0x1,
            Flag::PF => 0x4,
            Flag::AF => 0x10,
            Flag::ZF => 0x40,
            Flag::SF => 0x80,
            Flag::TF => 0x100,
            Flag::IF => 0x200,
            Flag::DF => 0x400,
            Flag::OF => 0x800,
            Flag::IOPL => 0x3000,
            Flag::NT => 0x4000,
            Flag::RF => 0x10000,
            Flag::VM => 0x20000,
            Flag::AC => 0x40000,
            Flag::VIF => 0x80000,
            Flag::VIP => 0x100000,
            Flag::ID => 0x200000,
            Flag::FC0 => 0x10000000,
            Flag::FC1 => 0x20000000,
            Flag::FC2 => 0x40000000,
            Flag::FC3 => 0x80000000,
        }
    }
}

/// What an instruction does to one flag.
#[allow(non_camel_case_types)]
#[derive(Clone, Copy, Debug, PartialEq, Eq, Structural, Hash)]
pub enum Action {
    /// Undefined (treated as a write).
    U,
    /// Test (read).
    TST,
    /// Modification (write).
    MOD,
    /// Value will be zero (write).
    ZERO,
    /// Value comes from the stack (write).
    POP,
    /// Value comes from AH (write).
    AH,
    /// Value will be 1 (write).
    ONE,
}

impl Action {
    /// The raw flag-action enumeration value of this action.
    pub open spec fn raw(self) -> u32 {
        match self {
            Action::U => 1,
            Action::TST => 2,
            Action::MOD => 3,
            Action::ZERO => 4,
            Action::POP => 5,
            Action::AH => 6,
            Action::ONE => 7,
        }
    }

    /// Which actions the raw flag-action enumeration values stand for.
    pub open spec fn spec_from_raw(value: u32) -> Option<Action> {
        if value == 1 {
            Some(Action::U)
        } else if value == 2 {
            Some(Action::TST)
        } else if value == 3 {
            Some(Action::MOD)
        } else if value == 4 {
            Some(Action::ZERO)
        } else if value == 5 {
            Some(Action::POP)
        } else if value == 6 {
            Some(Action::AH)
        } else if value == 7 {
            Some(Action::ONE)
        } else {
            None
        }
    }

    /// Convert this action into the raw flag-action enumeration value.
    pub fn into_raw(self) -> (r: u32)
        ensures
            r == self.raw(),
    {
        match self {
            Action::U => 1,
            Action::TST => 2,
            Action::MOD => 3,
            Action::ZERO => 4,
            Action::POP => 5,
            Action::AH => 6,
            Action::ONE => 7,
        }
    }

    /// The action a raw flag-action enumeration value stands for.
    pub fn from_raw(value: u32) -> (r: Option<Action>)
        ensures
            r == Action::spec_from_raw(value),
    {
        match value {
            1 => Some(Action::U),
            2 => Some(Action::TST),
            3 => Some(Action::MOD),
            4 => Some(Action::ZERO),
            5 => Some(Action::POP),
            6 => Some(Action::AH),
            7 => Some(Action::ONE),
            _ => None,
        }
    }

    /// Test to see if this action is a read: only a test reads its flag.
    pub fn is_read(self) -> (r: bool)
        ensures
            r == (self == Action::TST),
    {
        self == Action::TST
    }

    /// Test to see if this action is a write: every action except a test
    /// writes its flag (an undefined flag counts as written).
    pub fn is_write(self) -> (r: bool)
        ensures
            r == (self != Action::TST),
    {
        match self {
            Action::MOD => true,
            Action::ZERO => true,
            Action::ONE => true,
            Action::AH => true,
            Action::POP => true,
            Action::U => true,
            Action::TST => false,
        }
    }
}

/// A named flag bit paired with the action an instruction takes on it.
#[derive(Clone, Copy, Debug, PartialEq, Eq, Structural)]
pub struct FlagAction {
    flag: Flag,
    action: Action,
}

impl FlagAction {
    /// The flag this pairing is about.
    pub closed spec fn spec_flag(self) -> Flag {
        self.flag
    }

    /// The action performed on the flag.
    pub closed spec fn spec_action(self) -> Action {
        self.action
    }

    /// Pair a flag with the action performed on it.
    pub fn new(flag: Flag, action: Action) -> (r: FlagAction)
        ensures
            r.spec_flag() == flag,
            r.spec_action() == action,
    {
        FlagAction { flag, action }
    }

    /// The action performed by this flag.
    pub fn action(&self) -> (r: Action)
        ensures
            r == self.spec_action(),
    {
        self.action
    }

    /// The name of the flag.
    pub fn flag_name(&self) -> (r: Flag)
        ensures
            r == self.spec_flag(),
    {
        self.flag
    }
}

/// A set of flag bits, stored at their positions in the flags register.
#[derive(Clone, Copy, Debug, PartialEq, Eq, Structural)]
pub struct FlagSet {
    mask: u32,
}

impl FlagSet {
    /// The flags in the set as a mask over flags-register bit positions.
    pub closed spec fn spec_mask(self) -> u32 {
        self.mask
    }

    /// A set holding the given flag bits.
    pub fn from_mask(mask: u32) -> (r: FlagSet)
        ensures
            r.spec_mask() == mask,
    {
        FlagSet { mask }
    }

    /// Get the flags as a mask.
    pub fn as_mask(&self) -> (r: u32)
        ensures
            r == self.spec_mask(),
    {
        self.mask
    }

    /// Whether this flag set has a subset of the flags in `other`: its
    /// mask contributes no bit beyond the other's.
    pub fn is_subset_of(&self, other: &FlagSet) -> (r: bool)
        ensures
            r == (self.spec_mask() & other.spec_mask() == self.spec_mask()),
    {
        self.mask & other.mask == self.mask
    }

    /// Whether every bit of the given flag lies in this set.
    pub open spec fn spec_contains(self, flag: Flag) -> bool {
        self.spec_mask() & flag.spec_set_mask() == flag.spec_set_mask()
    }

    /// Whether this set holds the given flag.
    pub fn contains(&self, flag: Flag) -> (r: bool)
        ensures
            r == self.spec_contains(flag),
    {
        self.mask & flag.set_mask() == flag.set_mask()
    }
}

/// A subset holds no flag beyond its superset: where one flag set is a
/// subset of another, every flag of the first lies in the second.
pub proof fn lemma_flag_subset_membership(a: FlagSet, b: FlagSet, flag: Flag)
    requires
        a.spec_mask() & b.spec_mask() == a.spec_mask(),
        a.spec_contains(flag),
    ensures
        b.spec_contains(flag),
{
    let x = a.spec_mask();
    let y = b.spec_mask();
    let m = flag.spec_set_mask();
    assert((x & y == x && x & m == m) ==> y & m == m) by (bit_vector);
}

/// The bits of the flags read by a list of flag actions: the union of the
/// masks of the flags whose action is a read.
pub open spec fn spec_read_mask(s: Seq<FlagAction>, n: int) -> u32
    decreases n,
{
    if n <= 0 {
        0u32
    } else if s[n - 1].spec_action() == Action::TST {
        spec_read_mask(s, n - 1) | s[n - 1].spec_flag().spec_set_mask()
    } else {
        spec_read_mask(s, n - 1)
    }
}

/// The bits of the flags written by a list of flag actions: the union of
/// the masks of the flags whose action is anything but a test.
pub open spec fn spec_written_mask(s: Seq<FlagAction>, n: int) -> u32
    decreases n,
{
    if n <= 0 {
        0u32
    } else if s[n - 1].spec_action() != Action::TST {
        spec_written_mask(s, n - 1) | s[n - 1].spec_flag().spec_set_mask()
    } else {
        spec_written_mask(s, n - 1)
    }
}

/// The bits of the flags a list of flag actions leaves undefined: the union
/// of the masks of the flags whose action is "undefined".
pub open spec fn spec_undefined_mask(s: Seq<FlagAction>, n: int) -> u32
    decreases n,
{
    if n <= 0 {
        0u32
    } else if s[n - 1].spec_action() == Action::U {
        spec_undefined_mask(s, n - 1) | s[n - 1].spec_flag().spec_set_mask()
    } else {
        spec_undefined_mask(s, n - 1)
    }
}

/// A mask once contributed is never lost: the derived masks only grow as
/// the action list extends, so a flag whose action is a test lies in the
/// read set, a flag whose action is anything else lies in the written
/// set, and a flag left undefined lies in the undefined set.
pub proof fn lemma_derived_sets_cover_actions(s: Seq<FlagAction>, n: int, k: int)
    requires
        0 <= k < n,
    ensures
        s[k].spec_action() == Action::TST ==> spec_read_mask(s, n) & s[k].spec_flag().spec_set_mask()
            == s[k].spec_flag().spec_set_mask(),
        s[k].spec_action() != Action::TST ==> spec_written_mask(s, n)
            & s[k].spec_flag().spec_set_mask() == s[k].spec_flag().spec_set_mask(),
        s[k].spec_action() == Action::U ==> spec_undefined_mask(s, n)
            & s[k].spec_flag().spec_set_mask() == s[k].spec_flag().spec_set_mask(),
    decreases n,
{
    let m = s[k].spec_flag().spec_set_mask();
    if k == n - 1 {
        let r = spec_read_mask(s, n - 1);
        let w = spec_written_mask(s, n - 1);
        let u = spec_undefined_mask(s, n - 1);
        assert((r | m) & m == m) by (bit_vector);
        assert((w | m) & m == m) by (bit_vector);
        assert((u | m) & m == m) by (bit_vector);
    } else {
        lemma_derived_sets_cover_actions(s, n - 1, k);
        let r = spec_read_mask(s, n - 1);
        let w = spec_written_mask(s, n - 1);
        let u = spec_undefined_mask(s, n - 1);
        let t = s[n - 1].spec_flag().spec_set_mask();
        assert(r & m == m ==> (r | t) & m == m) by (bit_vector);
        assert(w & m == m ==> (w | t) & m == m) by (bit_vector);
        assert(u & m == m ==> (u | t) & m == m) by (bit_vector);
    }
}

/// A flag left undefined counts as written: the undefined set of an
/// action list is always a subset of its written set.
pub proof fn lemma_undefined_flags_are_written(s: Seq<FlagAction>, n: int)
    ensures
        spec_undefined_mask(s, n) & spec_written_mask(s, n) == spec_undefined_mask(s, n),
    decreases n,
{
    if n <= 0 {
        let w = spec_written_mask(s, n);
        assert(0u32 & w == 0u32) by (bit_vector);
    } else {
        lemma_undefined_flags_are_written(s, n - 1);
        let u = spec_undefined_mask(s, n - 1);
        let w = spec_written_mask(s, n - 1);
        let m = s[n - 1].spec_flag().spec_set_mask();
        if s[n - 1].spec_action() == Action::U {
            assert(u & w == u ==> (u | m) & (w | m) == (u | m)) by (bit_vector);
        } else if s[n - 1].spec_action() != Action::TST {
            assert(u & w == u ==> u & (w | m) == u) by (bit_vector);
        }
    }
}

/// Whether any action in the first `n` reads its flag.
pub open spec fn spec_any_read(s: Seq<FlagAction>, n: int) -> bool {
    exists|i: int| 0 <= i < n && s[i].spec_action() == Action::TST
}

/// Whether any action in the first `n` writes its flag.
pub open spec fn spec_any_write(s: Seq<FlagAction>, n: int) -> bool {
    exists|i: int| 0 <= i < n && s[i].spec_action() != Action::TST
}

/// The aggregated flags-register effect of one instruction form: its list
/// of per-flag actions, whether the write is conditional or unconditional,
/// and the derived read/written/undefined bit sets.
pub struct SimpleFlag {
    actions: Vec<FlagAction>,
    may_write: bool,
    must_write: bool,
    read_set: FlagSet,
    written_set: FlagSet,
    undefined_set: FlagSet,
}

impl SimpleFlag {
    /// The per-flag actions of this summary.
    pub closed spec fn spec_actions(self) -> Seq<FlagAction> {
        self.actions@
    }

    /// Whether the flags are only conditionally written.
    pub closed spec fn spec_may_write(self) -> bool {
        self.may_write
    }

    /// Whether the flags are always written.
    pub closed spec fn spec_must_write(self) -> bool {
        self.must_write
    }

    /// Whether the derived bit sets agree with the action list.
    pub closed spec fn wf(self) -> bool {
        &&& self.read_set.spec_mask() == spec_read_mask(
            self.actions@,
            self.actions@.len() as int,
        )
        &&& self.written_set.spec_mask() == spec_written_mask(
            self.actions@,
            self.actions@.len() as int,
        )
        &&& self.undefined_set.spec_mask() == spec_undefined_mask(
            self.actions@,
            self.actions@.len() as int,
        )
    }

    /// Aggregate a list of per-flag actions: the derived sets are computed
    /// from the list, so the result is well-formed by construction.
    pub fn new(actions: Vec<FlagAction>, may_write: bool, must_write: bool) -> (r: SimpleFlag)
        ensures
            r.wf(),
            r.spec_actions() == actions@,
            r.spec_may_write() == may_write,
            r.spec_must_write() == must_write,
    {
        let n = actions.len();
        let mut read: u32 = 0;
        let mut written: u32 = 0;
        let mut undefined: u32 = 0;
        let mut i: usize = 0;
        while i < n
            invariant
                n == actions.len(),
                i <= n,
                read == spec_read_mask(actions@, i as int),
                written == spec_written_mask(actions@, i as int),
                undefined == spec_undefined_mask(actions@, i as int),
            decreases n - i,
        {
            let fa = actions[i];
            let bits = fa.flag_name().set_mask();
            if fa.action().is_read() {
                read = read | bits;
            } else {
                written = written | bits;
                if fa.action() == Action::U {
                    undefined = undefined | bits;
                }
            }
            i = i + 1;
        }
        SimpleFlag {
            actions,
            may_write,
            must_write,
            read_set: FlagSet::from_mask(read),
            written_set: FlagSet::from_mask(written),
            undefined_set: FlagSet::from_mask(undefined),
        }
    }

    /// Get the specific flag actions.
    pub fn flag_actions(&self) -> (r: &Vec<FlagAction>)
        ensures
            r@ == self.spec_actions(),
    {
        &self.actions
    }

    /// Indicates that the flags are only conditionally written.
    ///
    /// Usually MAY-writes of the flags are for instructions dependent on a
    /// REP count.
    pub fn may_write(&self) -> (r: bool)
        ensures
            r == self.spec_may_write(),
    {
        self.may_write
    }

    /// The flags are always written.
    pub fn must_write(&self) -> (r: bool)
        ensures
            r == self.spec_must_write(),
    {
        self.must_write
    }

    /// The union of bits for the read flags.
    pub fn read_flag_set(&self) -> (r: &FlagSet)
        requires
            self.wf(),
        ensures
            r.spec_mask() == spec_read_mask(self.spec_actions(), self.spec_actions().len() as int),
    {
        &self.read_set
    }

    /// The union of bits for undefined flags.
    pub fn undefined_flag_set(&self) -> (r: &FlagSet)
        requires
            self.wf(),
        ensures
            r.spec_mask() == spec_undefined_mask(
                self.spec_actions(),
                self.spec_actions().len() as int,
            ),
    {
        &self.undefined_set
    }

    /// The union of bits for written flags.
    pub fn written_flag_set(&self) -> (r: &FlagSet)
        requires
            self.wf(),
        ensures
            r.spec_mask() == spec_written_mask(
                self.spec_actions(),
                self.spec_actions().len() as int,
            ),
    {
        &self.written_set
    }

    /// Whether the flags are read: some action tests its flag.
    pub fn reads_flags(&self) -> (r: bool)
        ensures
            r == spec_any_read(self.spec_actions(), self.spec_actions().len() as int),
    {
        let n = self.actions.len();
        let mut i: usize = 0;
        while i < n
            invariant
                n == self.actions.len(),
                i <= n,
                !spec_any_read(self.actions@, i as int),
            decreases n - i,
        {
            if self.actions[i].action().is_read() {
                return true;
            }
            i = i + 1;
        }
        false
    }

    /// Whether the flags are written: some action is other than a test.
    pub fn writes_flags(&self) -> (r: bool)
        ensures
            r == spec_any_write(self.spec_actions(), self.spec_actions().len() as int),
    {
        let n = self.actions.len();
        let mut i: usize = 0;
        while i < n
            invariant
                n == self.actions.len(),
                i <= n,
                !spec_any_write(self.actions@, i as int),
            decreases n - i,
        {
            if self.actions[i].action().is_write() {
                return true;
            }
            i = i + 1;
        }
        false
    }
}

} // verus!
