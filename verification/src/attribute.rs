//! Instruction-form attributes: a named attribute is one bit of a form's
//! fixed attribute bit set.

use vstd::prelude::*;
use crate::error::InvalidEnumValue;

verus! {

/// A named attribute of an instruction form.
///
/// Each attribute stands for one bit of a form's attribute bit set; the
/// raw value of the attribute is its bit position. Two positions of the
/// underlying enumeration carry no name here and stay untestable.
#[derive(Clone, Copy, Debug, PartialEq, Eq, Structural, Hash)]
pub enum Attribute {
    /// Only available on AMD processors.
    AmdOnly,
    /// An APX new-data-destination form.
    ApxNdd,
    /// An APX no-flags form.
    ApxNf,
    /// The memory access is atomic.
    Atomic,
    /// AT&T syntax orders the operands unusually.
    AttOperandOrderException,
    /// Embedded broadcast is available.
    BroadcastEnabled,
    /// A byte operation.
    ByteOp,
    /// Compressed-displacement scaling class Eighthmem.
    Disp8EighthMem,
    /// Compressed-displacement scaling class Full.
    Disp8Full,
    /// Compressed-displacement scaling class Gpr Reader.
    Disp8GprReader,
    /// Compressed-displacement scaling class Gpr Reader Byte.
    Disp8GprReaderByte,
    /// Compressed-displacement scaling class Gpr Reader Word.
    Disp8GprReaderWord,
    /// Compressed-displacement scaling class Gpr Writer Ldop D.
    Disp8GprWriterLdopD,
    /// Compressed-displacement scaling class Gpr Writer Ldop Q.
    Disp8GprWriterLdopQ,
    /// Compressed-displacement scaling class Gpr Writer Store.
    Disp8GprWriterStore,
    /// Compressed-displacement scaling class Gpr Writer Store Byte.
    Disp8GprWriterStoreByte,
    /// Compressed-displacement scaling class Gpr Writer Store Word.
    Disp8GprWriterStoreWord,
    /// Compressed-displacement scaling class Gscat.
    Disp8Gscat,
    /// Compressed-displacement scaling class Half.
    Disp8Half,
    /// Compressed-displacement scaling class Halfmem.
    Disp8HalfMem,
    /// Compressed-displacement scaling class Mem128.
    Disp8Mem128,
    /// Compressed-displacement scaling class Movddup.
    Disp8MovdDup,
    /// Compressed-displacement scaling class No Scale.
    Disp8NoScale,
    /// Compressed-displacement scaling class Quarter.
    Disp8Quarter,
    /// Compressed-displacement scaling class Quartermem.
    Disp8QuarterMem,
    /// Compressed-displacement scaling class Scalar.
    Disp8Scalar,
    /// Compressed-displacement scaling class Tuple1.
    Disp8Tuple1,
    /// Compressed-displacement scaling class Tuple1 4X.
    Disp8Tuple1_4x,
    /// Compressed-displacement scaling class Tuple1 Byte.
    Disp8Tuple1Byte,
    /// Compressed-displacement scaling class Tuple1 Word.
    Disp8Tuple1Word,
    /// Compressed-displacement scaling class Tuple2.
    Disp8Tuple2,
    /// Compressed-displacement scaling class Tuple4.
    Disp8Tuple4,
    /// Compressed-displacement scaling class Tuple8.
    Disp8Tuple8,
    /// The memory operand is double width.
    DoubleWideMemOp,
    /// The output is double width.
    DoubleWideOutput,
    /// Gather/scatter indices are 32b.
    DwordIndices,
    /// 32b vector elements.
    ElementSizeD,
    /// 64b vector elements.
    ElementSizeQ,
    /// Raises bound-range exceptions.
    ExceptionBr,
    /// A far control transfer.
    FarXfer,
    /// Memory operand 0 has a fixed base register.
    FixedBase0,
    /// Memory operand 1 has a fixed base register.
    FixedBase1,
    /// Fixed round-to-nearest-even rounding.
    FixedRoundingRNE,
    /// Input denormals are flushed.
    FlushInputDenorm,
    /// Output denormals are flushed.
    FlushOutputDenorm,
    /// A gather instruction.
    Gather,
    /// The output is half width.
    HalfWideOutput,
    /// May carry an HLE XACQUIRE prefix.
    HleAcqAble,
    /// May carry an HLE XRELEASE prefix.
    HleRelAble,
    /// Ignores the OSFXSR control bit.
    IgnoresOsfxsr,
    /// Has an implicit constant-one operand.
    ImplicitOne,
    /// The index register is used as a pointer.
    IndexRegIsPointer,
    /// An indirect branch.
    IndirectBranch,
    /// A mask-register operation.
    KMask,
    /// May carry a LOCK prefix.
    Lockable,
    /// Carries a LOCK prefix.
    Locked,
    /// A masked operation.
    MaskOp,
    /// A masked EVEX operation.
    MaskOpEvex,
    /// The mask register is a control, not a write mask.
    MaskAsControl,
    /// The mask varies the memory operand size.
    MaskVariableMemOp,
    /// Masking suppresses memory faults.
    MemoryFaultSuppression,
    /// Raises MMX exceptions.
    MmxExcept,
    /// May carry an MPX prefix.
    MpxPrefixAble,
    /// Has a second destination.
    Multidest2,
    /// Has four sources.
    MultiSource4,
    /// Reads and writes the MXCSR register.
    Mxcsr,
    /// Reads the MXCSR register.
    MxcsrRd,
    /// A non-temporal memory access.
    NonTemporal,
    /// A no-operation form.
    Nop,
    /// Not allowed in a transactional region.
    NotSx,
    /// Conditionally not allowed in a transactional region.
    NotSxCond,
    /// RIP-relative addressing is not allowed.
    NoRipRel,
    /// Source and destination registers must differ.
    NoSrcDestMatch,
    /// A prefetch instruction.
    Prefetch,
    /// Requires protected mode.
    ProtectedMode,
    /// Gather/scatter indices are 64b.
    QWordIndices,
    /// Affected by a REP prefix.
    Rep,
    /// The memory operand must be aligned.
    RequiresAlignment,
    /// The memory operand must be 4-byte aligned.
    RequiresAlignment4B,
    /// The memory operand must be 8-byte aligned.
    RequiresAlignment8B,
    /// Requires ring 0.
    Ring0,
    /// The operand width scales with the effective operand size.
    Scalable,
    /// A scatter instruction.
    Scatter,
    /// A scalar SIMD operation.
    SimdScalar,
    /// The low 32 bits are not touched.
    SkipLow32,
    /// The low 64 bits are not touched.
    SkipLow64,
    /// Requires special address generation.
    SpecialAgenRequired,
    /// Memory operand 0 is an implicit stack pop.
    StackPop0,
    /// Memory operand 1 is an implicit stack pop.
    StackPop1,
    /// Memory operand 0 is an implicit stack push.
    StackPush0,
    /// Memory operand 1 is an implicit stack push.
    StackPush1,
    /// An undocumented instruction.
    Undocumented,
    /// Uses the denormals-are-zero control.
    UsesDaz,
    /// Uses the flush-to-zero control.
    UsesFtz,
    /// An x87 control operation.
    X87Control,
    /// Conditionally writes the x87/MMX state.
    X87MmxStateCw,
    /// Reads the x87/MMX state.
    X87MmxStateR,
    /// Writes the x87/MMX state.
    X87MmxStateW,
    /// An x87 no-wait form.
    X87NoWait,
    /// Conditionally writes the XMM state.
    XmmStateCw,
    /// Reads the XMM state.
    XmmStateR,
    /// Writes the XMM state.
    XmmStateW,
}

impl Attribute {
    /// The raw attribute enumeration value: the bit position of this
    /// attribute in the attribute bit set.
    pub open spec fn raw(self) -> u32 {
        match self {
            Attribute::AmdOnly => 1,
            Attribute::ApxNdd => 2,
            Attribute::ApxNf => 3,
            Attribute::Atomic => 4,
            Attribute::AttOperandOrderException => 5,
            Attribute::BroadcastEnabled => 6,
            Attribute::ByteOp => 7,
            Attribute::Disp8EighthMem => 8,
            Attribute::Disp8Full => 9,
            Attribute::Disp8GprReader => 11,
            Attribute::Disp8GprReaderByte => 12,
            Attribute::Disp8GprReaderWord => 13,
            Attribute::Disp8GprWriterLdopD => 14,
            Attribute::Disp8GprWriterLdopQ => 15,
            Attribute::Disp8GprWriterStore => 16,
            Attribute::Disp8GprWriterStoreByte => 17,
            Attribute::Disp8GprWriterStoreWord => 18,
            Attribute::Disp8Gscat => 19,
            Attribute::Disp8Half => 20,
            Attribute::Disp8HalfMem => 21,
            Attribute::Disp8Mem128 => 22,
            Attribute::Disp8MovdDup => 23,
            Attribute::Disp8NoScale => 24,
            Attribute::Disp8Quarter => 25,
            Attribute::Disp8QuarterMem => 26,
            Attribute::Disp8Scalar => 27,
            Attribute::Disp8Tuple1 => 28,
            Attribute::Disp8Tuple1_4x => 29,
            Attribute::Disp8Tuple1Byte => 30,
            Attribute::Disp8Tuple1Word => 31,
            Attribute::Disp8Tuple2 => 32,
            Attribute::Disp8Tuple4 => 33,
            Attribute::Disp8Tuple8 => 34,
            Attribute::DoubleWideMemOp => 35,
            Attribute::DoubleWideOutput => 36,
            Attribute::DwordIndices => 37,
            Attribute::ElementSizeD => 38,
            Attribute::ElementSizeQ => 39,
            Attribute::ExceptionBr => 40,
            Attribute::FarXfer => 41,
            Attribute::FixedBase0 => 42,
            Attribute::FixedBase1 => 43,
            Attribute::FixedRoundingRNE => 44,
            Attribute::FlushInputDenorm => 45,
            Attribute::FlushOutputDenorm => 46,
            Attribute::Gather => 47,
            Attribute::HalfWideOutput => 48,
            Attribute::HleAcqAble => 49,
            Attribute::HleRelAble => 50,
            Attribute::IgnoresOsfxsr => 51,
            Attribute::ImplicitOne => 52,
            Attribute::IndexRegIsPointer => 53,
            Attribute::IndirectBranch => 54,
            Attribute::KMask => 55,
            Attribute::Lockable => 56,
            Attribute::Locked => 57,
            Attribute::MaskOp => 58,
            Attribute::MaskOpEvex => 59,
            Attribute::MaskAsControl => 60,
            Attribute::MaskVariableMemOp => 61,
            Attribute::MemoryFaultSuppression => 62,
            Attribute::MmxExcept => 63,
            Attribute::MpxPrefixAble => 64,
            Attribute::Multidest2 => 65,
            Attribute::MultiSource4 => 66,
            Attribute::Mxcsr => 67,
            Attribute::MxcsrRd => 68,
            Attribute::NonTemporal => 69,
            Attribute::Nop => 70,
            Attribute::NotSx => 71,
            Attribute::NotSxCond => 72,
            Attribute::NoRipRel => 74,
            Attribute::NoSrcDestMatch => 75,
            Attribute::Prefetch => 76,
            Attribute::ProtectedMode => 77,
            Attribute::QWordIndices => 78,
            Attribute::Rep => 79,
            Attribute::RequiresAlignment => 80,
            Attribute::RequiresAlignment4B => 81,
            Attribute::RequiresAlignment8B => 82,
            Attribute::Ring0 => 83,
            Attribute::Scalable => 84,
            Attribute::Scatter => 85,
            Attribute::SimdScalar => 86,
            Attribute::SkipLow32 => 87,
            Attribute::SkipLow64 => 88,
            Attribute::SpecialAgenRequired => 89,
            Attribute::StackPop0 => 90,
            Attribute::StackPop1 => 91,
            Attribute::StackPush0 => 92,
            Attribute::StackPush1 => 93,
            Attribute::Undocumented => 94,
            Attribute::UsesDaz => 95,
            Attribute::UsesFtz => 96,
            Attribute::X87Control => 97,
            Attribute::X87MmxStateCw => 98,
            Attribute::X87MmxStateR => 99,
            Attribute::X87MmxStateW => 100,
            Attribute::X87NoWait => 101,
            Attribute::XmmStateCw => 102,
            Attribute::XmmStateR => 103,
            Attribute::XmmStateW => 104,
        }
    }

    /// Which attributes the raw enumeration values stand for. Raw values
    /// that name no wrapped attribute map to `None`.
    pub open spec fn spec_from_raw(value: u32) -> Option<Attribute> {
        if value == 1 {
            Some(Attribute::AmdOnly)
        } else if value == 2 {
            Some(Attribute::ApxNdd)
        } else if value == 3 {
            Some(Attribute::ApxNf)
        } else if value == 4 {
            Some(Attribute::Atomic)
        } else if value == 5 {
            Some(Attribute::AttOperandOrderException)
        } else if value == 6 {
            Some(Attribute::BroadcastEnabled)
        } else if value == 7 {
            Some(Attribute::ByteOp)
        } else if value == 8 {
            Some(Attribute::Disp8EighthMem)
        } else if value == 9 {
            Some(Attribute::Disp8Full)
        } else if value == 11 {
            Some(Attribute::Disp8GprReader)
        } else if value == 12 {
            Some(Attribute::Disp8GprReaderByte)
        } else if value == 13 {
            Some(Attribute::Disp8GprReaderWord)
        } else if value == 14 {
            Some(Attribute::Disp8GprWriterLdopD)
        } else if value == 15 {
            Some(Attribute::Disp8GprWriterLdopQ)
        } else if value == 16 {
            Some(Attribute::Disp8GprWriterStore)
        } else if value == 17 {
            Some(Attribute::Disp8GprWriterStoreByte)
        } else if value == 18 {
            Some(Attribute::Disp8GprWriterStoreWord)
        } else if value == 19 {
            Some(Attribute::Disp8Gscat)
        } else if value == 20 {
            Some(Attribute::Disp8Half)
        } else if value == 21 {
            Some(Attribute::Disp8HalfMem)
        } else if value == 22 {
            Some(Attribute::Disp8Mem128)
        } else if value == 23 {
            Some(Attribute::Disp8MovdDup)
        } else if value == 24 {
            Some(Attribute::Disp8NoScale)
        } else if value == 25 {
            Some(Attribute::Disp8Quarter)
        } else if value == 26 {
            Some(Attribute::Disp8QuarterMem)
        } else if value == 27 {
            Some(Attribute::Disp8Scalar)
        } else if value == 28 {
            Some(Attribute::Disp8Tuple1)
        } else if value == 29 {
            Some(Attribute::Disp8Tuple1_4x)
        } else if value == 30 {
            Some(Attribute::Disp8Tuple1Byte)
        } else if value == 31 {
            Some(Attribute::Disp8Tuple1Word)
        } else if value == 32 {
            Some(Attribute::Disp8Tuple2)
        } else if value == 33 {
            Some(Attribute::Disp8Tuple4)
        } else if value == 34 {
            Some(Attribute::Disp8Tuple8)
        } else if value == 35 {
            Some(Attribute::DoubleWideMemOp)
        } else if value == 36 {
            Some(Attribute::DoubleWideOutput)
        } else if value == 37 {
            Some(Attribute::DwordIndices)
        } else if value == 38 {
            Some(Attribute::ElementSizeD)
        } else if value == 39 {
            Some(Attribute::ElementSizeQ)
        } else if value == 40 {
            Some(Attribute::ExceptionBr)
        } else if value == 41 {
            Some(Attribute::FarXfer)
        } else if value == 42 {
            Some(Attribute::FixedBase0)
        } else if value == 43 {
            Some(Attribute::FixedBase1)
        } else if value == 44 {
            Some(Attribute::FixedRoundingRNE)
        } else if value == 45 {
            Some(Attribute::FlushInputDenorm)
        } else if value == 46 {
            Some(Attribute::FlushOutputDenorm)
        } else if value == 47 {
            Some(Attribute::Gather)
        } else if value == 48 {
            Some(Attribute::HalfWideOutput)
        } else if value == 49 {
            Some(Attribute::HleAcqAble)
        } else if value == 50 {
            Some(Attribute::HleRelAble)
        } else if value == 51 {
            Some(Attribute::IgnoresOsfxsr)
        } else if value == 52 {
            Some(Attribute::ImplicitOne)
        } else if value == 53 {
            Some(Attribute::IndexRegIsPointer)
        } else if value == 54 {
            Some(Attribute::IndirectBranch)
        } else if value == 55 {
            Some(Attribute::KMask)
        } else if value == 56 {
            Some(Attribute::Lockable)
        } else if value == 57 {
            Some(Attribute::Locked)
        } else if value == 58 {
            Some(Attribute::MaskOp)
        } else if value == 59 {
            Some(Attribute::MaskOpEvex)
        } else if value == 60 {
            Some(Attribute::MaskAsControl)
        } else if value == 61 {
            Some(Attribute::MaskVariableMemOp)
        } else if value == 62 {
            Some(Attribute::MemoryFaultSuppression)
        } else if value == 63 {
            Some(Attribute::MmxExcept)
        } else if value == 64 {
            Some(Attribute::MpxPrefixAble)
        } else if value == 65 {
            Some(Attribute::Multidest2)
        } else if value == 66 {
            Some(Attribute::MultiSource4)
        } else if value == 67 {
            Some(Attribute::Mxcsr)
        } else if value == 68 {
            Some(Attribute::MxcsrRd)
        } else if value == 69 {
            Some(Attribute::NonTemporal)
        } else if value == 70 {
            Some(Attribute::Nop)
        } else if value == 71 {
            Some(Attribute::NotSx)
        } else if value == 72 {
            Some(Attribute::NotSxCond)
        } else if value == 74 {
            Some(Attribute::NoRipRel)
        } else if value == 75 {
            Some(Attribute::NoSrcDestMatch)
        } else if value == 76 {
            Some(Attribute::Prefetch)
        } else if value == 77 {
            Some(Attribute::ProtectedMode)
        } else if value == 78 {
            Some(Attribute::QWordIndices)
        } else if value == 79 {
            Some(Attribute::Rep)
        } else if value == 80 {
            Some(Attribute::RequiresAlignment)
        } else if value == 81 {
            Some(Attribute::RequiresAlignment4B)
        } else if value == 82 {
            Some(Attribute::RequiresAlignment8B)
        } else if value == 83 {
            Some(Attribute::Ring0)
        } else if value == 84 {
            Some(Attribute::Scalable)
        } else if value == 85 {
            Some(Attribute::Scatter)
        } else if value == 86 {
            Some(Attribute::SimdScalar)
        } else if value == 87 {
            Some(Attribute::SkipLow32)
        } else if value == 88 {
            Some(Attribute::SkipLow64)
        } else if value == 89 {
            Some(Attribute::SpecialAgenRequired)
        } else if value == 90 {
            Some(Attribute::StackPop0)
        } else if value == 91 {
            Some(Attribute::StackPop1)
        } else if value == 92 {
            Some(Attribute::StackPush0)
        } else if value == 93 {
            Some(Attribute::StackPush1)
        } else if value == 94 {
            Some(Attribute::Undocumented)
        } else if value == 95 {
            Some(Attribute::UsesDaz)
        } else if value == 96 {
            Some(Attribute::UsesFtz)
        } else if value == 97 {
            Some(Attribute::X87Control)
        } else if value == 98 {
            Some(Attribute::X87MmxStateCw)
        } else if value == 99 {
            Some(Attribute::X87MmxStateR)
        } else if value == 100 {
            Some(Attribute::X87MmxStateW)
        } else if value == 101 {
            Some(Attribute::X87NoWait)
        } else if value == 102 {
            Some(Attribute::XmmStateCw)
        } else if value == 103 {
            Some(Attribute::XmmStateR)
        } else if value == 104 {
            Some(Attribute::XmmStateW)
        } else {
            None
        }
    }

    /// Convert this attribute into the raw enumeration value.
    pub fn into_raw(self) -> (r: u32)
        ensures
            r == self.raw(),
    {
        match self {
            Attribute::AmdOnly => 1,
            Attribute::ApxNdd => 2,
            Attribute::ApxNf => 3,
            Attribute::Atomic => 4,
            Attribute::AttOperandOrderException => 5,
            Attribute::BroadcastEnabled => 6,
            Attribute::ByteOp => 7,
            Attribute::Disp8EighthMem => 8,
            Attribute::Disp8Full => 9,
            Attribute::Disp8GprReader => 11,
            Attribute::Disp8GprReaderByte => 12,
            Attribute::Disp8GprReaderWord => 13,
            Attribute::Disp8GprWriterLdopD => 14,
            Attribute::Disp8GprWriterLdopQ => 15,
            Attribute::Disp8GprWriterStore => 16,
            Attribute::Disp8GprWriterStoreByte => 17,
            Attribute::Disp8GprWriterStoreWord => 18,
            Attribute::Disp8Gscat => 19,
            Attribute::Disp8Half => 20,
            Attribute::Disp8HalfMem => 21,
            Attribute::Disp8Mem128 => 22,
            Attribute::Disp8MovdDup => 23,
            Attribute::Disp8NoScale => 24,
            Attribute::Disp8Quarter => 25,
            Attribute::Disp8QuarterMem => 26,
            Attribute::Disp8Scalar => 27,
            Attribute::Disp8Tuple1 => 28,
            Attribute::Disp8Tuple1_4x => 29,
            Attribute::Disp8Tuple1Byte => 30,
            Attribute::Disp8Tuple1Word => 31,
            Attribute::Disp8Tuple2 => 32,
            Attribute::Disp8Tuple4 => 33,
            Attribute::Disp8Tuple8 => 34,
            Attribute::DoubleWideMemOp => 35,
            Attribute::DoubleWideOutput => 36,
            Attribute::DwordIndices => 37,
            Attribute::ElementSizeD => 38,
            Attribute::ElementSizeQ => 39,
            Attribute::ExceptionBr => 40,
            Attribute::FarXfer => 41,
            Attribute::FixedBase0 => 42,
            Attribute::FixedBase1 => 43,
            Attribute::FixedRoundingRNE => 44,
            Attribute::FlushInputDenorm => 45,
            Attribute::FlushOutputDenorm => 46,
            Attribute::Gather => 47,
            Attribute::HalfWideOutput => 48,
            Attribute::HleAcqAble => 49,
            Attribute::HleRelAble => 50,
            Attribute::IgnoresOsfxsr => 51,
            Attribute::ImplicitOne => 52,
            Attribute::IndexRegIsPointer => 53,
            Attribute::IndirectBranch => 54,
            Attribute::KMask => 55,
            Attribute::Lockable => 56,
            Attribute::Locked => 57,
            Attribute::MaskOp => 58,
            Attribute::MaskOpEvex => 59,
            Attribute::MaskAsControl => 60,
            Attribute::MaskVariableMemOp => 61,
            Attribute::MemoryFaultSuppression => 62,
            Attribute::MmxExcept => 63,
            Attribute::MpxPrefixAble => 64,
            Attribute::Multidest2 => 65,
            Attribute::MultiSource4 => 66,
            Attribute::Mxcsr => 67,
            Attribute::MxcsrRd => 68,
            Attribute::NonTemporal => 69,
            Attribute::Nop => 70,
            Attribute::NotSx => 71,
            Attribute::NotSxCond => 72,
            Attribute::NoRipRel => 74,
            Attribute::NoSrcDestMatch => 75,
            Attribute::Prefetch => 76,
            Attribute::ProtectedMode => 77,
            Attribute::QWordIndices => 78,
            Attribute::Rep => 79,
            Attribute::RequiresAlignment => 80,
            Attribute::RequiresAlignment4B => 81,
            Attribute::RequiresAlignment8B => 82,
            Attribute::Ring0 => 83,
            Attribute::Scalable => 84,
            Attribute::Scatter => 85,
            Attribute::SimdScalar => 86,
            Attribute::SkipLow32 => 87,
            Attribute::SkipLow64 => 88,
            Attribute::SpecialAgenRequired => 89,
            Attribute::StackPop0 => 90,
            Attribute::StackPop1 => 91,
            Attribute::StackPush0 => 92,
            Attribute::StackPush1 => 93,
            Attribute::Undocumented => 94,
            Attribute::UsesDaz => 95,
            Attribute::UsesFtz => 96,
            Attribute::X87Control => 97,
            Attribute::X87MmxStateCw => 98,
            Attribute::X87MmxStateR => 99,
            Attribute::X87MmxStateW => 100,
            Attribute::X87NoWait => 101,
            Attribute::XmmStateCw => 102,
            Attribute::XmmStateR => 103,
            Attribute::XmmStateW => 104,
        }
    }

    /// The name of this attribute.
    pub open spec fn spec_name(self) -> &'static str {
        match self {
            Attribute::AmdOnly => "AmdOnly",
            Attribute::ApxNdd => "ApxNdd",
            Attribute::ApxNf => "ApxNf",
            Attribute::Atomic => "Atomic",
            Attribute::AttOperandOrderException => "AttOperandOrderException",
            Attribute::BroadcastEnabled => "BroadcastEnabled",
            Attribute::ByteOp => "ByteOp",
            Attribute::Disp8EighthMem => "Disp8EighthMem",
            Attribute::Disp8Full => "Disp8Full",
            Attribute::Disp8GprReader => "Disp8GprReader",
            Attribute::Disp8GprReaderByte => "Disp8GprReaderByte",
            Attribute::Disp8GprReaderWord => "Disp8GprReaderWord",
            Attribute::Disp8GprWriterLdopD => "Disp8GprWriterLdopD",
            Attribute::Disp8GprWriterLdopQ => "Disp8GprWriterLdopQ",
            Attribute::Disp8GprWriterStore => "Disp8GprWriterStore",
            Attribute::Disp8GprWriterStoreByte => "Disp8GprWriterStoreByte",
            Attribute::Disp8GprWriterStoreWord => "Disp8GprWriterStoreWord",
            Attribute::Disp8Gscat => "Disp8Gscat",
            Attribute::Disp8Half => "Disp8Half",
            Attribute::Disp8HalfMem => "Disp8HalfMem",
            Attribute::Disp8Mem128 => "Disp8Mem128",
            Attribute::Disp8MovdDup => "Disp8MovdDup",
            Attribute::Disp8NoScale => "Disp8NoScale",
            Attribute::Disp8Quarter => "Disp8Quarter",
            Attribute::Disp8QuarterMem => "Disp8QuarterMem",
            Attribute::Disp8Scalar => "Disp8Scalar",
            Attribute::Disp8Tuple1 => "Disp8Tuple1",
            Attribute::Disp8Tuple1_4x => "Disp8Tuple1_4x",
            Attribute::Disp8Tuple1Byte => "Disp8Tuple1Byte",
            Attribute::Disp8Tuple1Word => "Disp8Tuple1Word",
            Attribute::Disp8Tuple2 => "Disp8Tuple2",
            Attribute::Disp8Tuple4 => "Disp8Tuple4",
            Attribute::Disp8Tuple8 => "Disp8Tuple8",
            Attribute::DoubleWideMemOp => "DoubleWideMemOp",
            Attribute::DoubleWideOutput => "DoubleWideOutput",
            Attribute::DwordIndices => "DwordIndices",
            Attribute::ElementSizeD => "ElementSizeD",
            Attribute::ElementSizeQ => "ElementSizeQ",
            Attribute::ExceptionBr => "ExceptionBr",
            Attribute::FarXfer => "FarXfer",
            Attribute::FixedBase0 => "FixedBase0",
            Attribute::FixedBase1 => "FixedBase1",
            Attribute::FixedRoundingRNE => "FixedRoundingRNE",
            Attribute::FlushInputDenorm => "FlushInputDenorm",
            Attribute::FlushOutputDenorm => "FlushOutputDenorm",
            Attribute::Gather => "Gather",
            Attribute::HalfWideOutput => "HalfWideOutput",
            Attribute::HleAcqAble => "HleAcqAble",
            Attribute::HleRelAble => "HleRelAble",
            Attribute::IgnoresOsfxsr => "IgnoresOsfxsr",
            Attribute::ImplicitOne => "ImplicitOne",
            Attribute::IndexRegIsPointer => "IndexRegIsPointer",
            Attribute::IndirectBranch => "IndirectBranch",
            Attribute::KMask => "KMask",
            Attribute::Lockable => "Lockable",
            Attribute::Locked => "Locked",
            Attribute::MaskOp => "MaskOp",
            Attribute::MaskOpEvex => "MaskOpEvex",
            Attribute::MaskAsControl => "MaskAsControl",
            Attribute::MaskVariableMemOp => "MaskVariableMemOp",
            Attribute::MemoryFaultSuppression => "MemoryFaultSuppression",
            Attribute::MmxExcept => "MmxExcept",
            Attribute::MpxPrefixAble => "MpxPrefixAble",
            Attribute::Multidest2 => "Multidest2",
            Attribute::MultiSource4 => "MultiSource4",
            Attribute::Mxcsr => "Mxcsr",
            Attribute::MxcsrRd => "MxcsrRd",
            Attribute::NonTemporal => "NonTemporal",
            Attribute::Nop => "Nop",
            Attribute::NotSx => "NotSx",
            Attribute::NotSxCond => "NotSxCond",
            Attribute::NoRipRel => "NoRipRel",
            Attribute::NoSrcDestMatch => "NoSrcDestMatch",
            Attribute::Prefetch => "Prefetch",
            Attribute::ProtectedMode => "ProtectedMode",
            Attribute::QWordIndices => "QWordIndices",
            Attribute::Rep => "Rep",
            Attribute::RequiresAlignment => "RequiresAlignment",
            Attribute::RequiresAlignment4B => "RequiresAlignment4B",
            Attribute::RequiresAlignment8B => "RequiresAlignment8B",
            Attribute::Ring0 => "Ring0",
            Attribute::Scalable => "Scalable",
            Attribute::Scatter => "Scatter",
            Attribute::SimdScalar => "SimdScalar",
            Attribute::SkipLow32 => "SkipLow32",
            Attribute::SkipLow64 => "SkipLow64",
            Attribute::SpecialAgenRequired => "SpecialAgenRequired",
            Attribute::StackPop0 => "StackPop0",
            Attribute::StackPop1 => "StackPop1",
            Attribute::StackPush0 => "StackPush0",
            Attribute::StackPush1 => "StackPush1",
            Attribute::Undocumented => "Undocumented",
            Attribute::UsesDaz => "UsesDaz",
            Attribute::UsesFtz => "UsesFtz",
            Attribute::X87Control => "X87Control",
            Attribute::X87MmxStateCw => "X87MmxStateCw",
            Attribute::X87MmxStateR => "X87MmxStateR",
            Attribute::X87MmxStateW => "X87MmxStateW",
            Attribute::X87NoWait => "X87NoWait",
            Attribute::XmmStateCw => "XmmStateCw",
            Attribute::XmmStateR => "XmmStateR",
            Attribute::XmmStateW => "XmmStateW",
        }
    }

    /// The name of this attribute, the string half of the reversible
    /// name/value mapping.
    pub fn name(self) -> (r: &'static str)
        ensures
            r == self.spec_name(),
    {
        match self {
            Attribute::AmdOnly => "AmdOnly",
            Attribute::ApxNdd => "ApxNdd",
            Attribute::ApxNf => "ApxNf",
            Attribute::Atomic => "Atomic",
            Attribute::AttOperandOrderException => "AttOperandOrderException",
            Attribute::BroadcastEnabled => "BroadcastEnabled",
            Attribute::ByteOp => "ByteOp",
            Attribute::Disp8EighthMem => "Disp8EighthMem",
            Attribute::Disp8Full => "Disp8Full",
            Attribute::Disp8GprReader => "Disp8GprReader",
            Attribute::Disp8GprReaderByte => "Disp8GprReaderByte",
            Attribute::Disp8GprReaderWord => "Disp8GprReaderWord",
            Attribute::Disp8GprWriterLdopD => "Disp8GprWriterLdopD",
            Attribute::Disp8GprWriterLdopQ => "Disp8GprWriterLdopQ",
            Attribute::Disp8GprWriterStore => "Disp8GprWriterStore",
            Attribute::Disp8GprWriterStoreByte => "Disp8GprWriterStoreByte",
            Attribute::Disp8GprWriterStoreWord => "Disp8GprWriterStoreWord",
            Attribute::Disp8Gscat => "Disp8Gscat",
            Attribute::Disp8Half => "Disp8Half",
            Attribute::Disp8HalfMem => "Disp8HalfMem",
            Attribute::Disp8Mem128 => "Disp8Mem128",
            Attribute::Disp8MovdDup => "Disp8MovdDup",
            Attribute::Disp8NoScale => "Disp8NoScale",
            Attribute::Disp8Quarter => "Disp8Quarter",
            Attribute::Disp8QuarterMem => "Disp8QuarterMem",
            Attribute::Disp8Scalar => "Disp8Scalar",
            Attribute::Disp8Tuple1 => "Disp8Tuple1",
            Attribute::Disp8Tuple1_4x => "Disp8Tuple1_4x",
            Attribute::Disp8Tuple1Byte => "Disp8Tuple1Byte",
            Attribute::Disp8Tuple1Word => "Disp8Tuple1Word",
            Attribute::Disp8Tuple2 => "Disp8Tuple2",
            Attribute::Disp8Tuple4 => "Disp8Tuple4",
            Attribute::Disp8Tuple8 => "Disp8Tuple8",
            Attribute::DoubleWideMemOp => "DoubleWideMemOp",
            Attribute::DoubleWideOutput => "DoubleWideOutput",
            Attribute::DwordIndices => "DwordIndices",
            Attribute::ElementSizeD => "ElementSizeD",
            Attribute::ElementSizeQ => "ElementSizeQ",
            Attribute::ExceptionBr => "ExceptionBr",
            Attribute::FarXfer => "FarXfer",
            Attribute::FixedBase0 => "FixedBase0",
            Attribute::FixedBase1 => "FixedBase1",
            Attribute::FixedRoundingRNE => "FixedRoundingRNE",
            Attribute::FlushInputDenorm => "FlushInputDenorm",
            Attribute::FlushOutputDenorm => "FlushOutputDenorm",
            Attribute::Gather => "Gather",
            Attribute::HalfWideOutput => "HalfWideOutput",
            Attribute::HleAcqAble => "HleAcqAble",
            Attribute::HleRelAble => "HleRelAble",
            Attribute::IgnoresOsfxsr => "IgnoresOsfxsr",
            Attribute::ImplicitOne => "ImplicitOne",
            Attribute::IndexRegIsPointer => "IndexRegIsPointer",
            Attribute::IndirectBranch => "IndirectBranch",
            Attribute::KMask => "KMask",
            Attribute::Lockable => "Lockable",
            Attribute::Locked => "Locked",
            Attribute::MaskOp => "MaskOp",
            Attribute::MaskOpEvex => "MaskOpEvex",
            Attribute::MaskAsControl => "MaskAsControl",
            Attribute::MaskVariableMemOp => "MaskVariableMemOp",
            Attribute::MemoryFaultSuppression => "MemoryFaultSuppression",
            Attribute::MmxExcept => "MmxExcept",
            Attribute::MpxPrefixAble => "MpxPrefixAble",
            Attribute::Multidest2 => "Multidest2",
            Attribute::MultiSource4 => "MultiSource4",
            Attribute::Mxcsr => "Mxcsr",
            Attribute::MxcsrRd => "MxcsrRd",
            Attribute::NonTemporal => "NonTemporal",
            Attribute::Nop => "Nop",
            Attribute::NotSx => "NotSx",
            Attribute::NotSxCond => "NotSxCond",
            Attribute::NoRipRel => "NoRipRel",
            Attribute::NoSrcDestMatch => "NoSrcDestMatch",
            Attribute::Prefetch => "Prefetch",
            Attribute::ProtectedMode => "ProtectedMode",
            Attribute::QWordIndices => "QWordIndices",
            Attribute::Rep => "Rep",
            Attribute::RequiresAlignment => "RequiresAlignment",
            Attribute::RequiresAlignment4B => "RequiresAlignment4B",
            Attribute::RequiresAlignment8B => "RequiresAlignment8B",
            Attribute::Ring0 => "Ring0",
            Attribute::Scalable => "Scalable",
            Attribute::Scatter => "Scatter",
            Attribute::SimdScalar => "SimdScalar",
            Attribute::SkipLow32 => "SkipLow32",
            Attribute::SkipLow64 => "SkipLow64",
            Attribute::SpecialAgenRequired => "SpecialAgenRequired",
            Attribute::StackPop0 => "StackPop0",
            Attribute::StackPop1 => "StackPop1",
            Attribute::StackPush0 => "StackPush0",
            Attribute::StackPush1 => "StackPush1",
            Attribute::Undocumented => "Undocumented",
            Attribute::UsesDaz => "UsesDaz",
            Attribute::UsesFtz => "UsesFtz",
            Attribute::X87Control => "X87Control",
            Attribute::X87MmxStateCw => "X87MmxStateCw",
            Attribute::X87MmxStateR => "X87MmxStateR",
            Attribute::X87MmxStateW => "X87MmxStateW",
            Attribute::X87NoWait => "X87NoWait",
            Attribute::XmmStateCw => "XmmStateCw",
            Attribute::XmmStateR => "XmmStateR",
            Attribute::XmmStateW => "XmmStateW",
        }
    }

    /// The attribute a raw enumeration value stands for, or the offending
    /// value where it names no wrapped attribute.
    pub fn from_raw(value: u32) -> (r: Result<Attribute, InvalidEnumValue>)
        ensures
            r matches Ok(a) ==> Attribute::spec_from_raw(value) == Some(a),
            r matches Err(e) ==> Attribute::spec_from_raw(value) is None
                && e.spec_value() == value && e.spec_name()@ == "Attribute"@,
    {
        match value {
            1 => Ok(Attribute::AmdOnly),
            2 => Ok(Attribute::ApxNdd),
            3 => Ok(Attribute::ApxNf),
            4 => Ok(Attribute::Atomic),
            5 => Ok(Attribute::AttOperandOrderException),
            6 => Ok(Attribute::BroadcastEnabled),
            7 => Ok(Attribute::ByteOp),
            8 => Ok(Attribute::Disp8EighthMem),
            9 => Ok(Attribute::Disp8Full),
            11 => Ok(Attribute::Disp8GprReader),
            12 => Ok(Attribute::Disp8GprReaderByte),
            13 => Ok(Attribute::Disp8GprReaderWord),
            14 => Ok(Attribute::Disp8GprWriterLdopD),
            15 => Ok(Attribute::Disp8GprWriterLdopQ),
            16 => Ok(Attribute::Disp8GprWriterStore),
            17 => Ok(Attribute::Disp8GprWriterStoreByte),
            18 => Ok(Attribute::Disp8GprWriterStoreWord),
            19 => Ok(Attribute::Disp8Gscat),
            20 => Ok(Attribute::Disp8Half),
            21 => Ok(Attribute::Disp8HalfMem),
            22 => Ok(Attribute::Disp8Mem128),
            23 => Ok(Attribute::Disp8MovdDup),
            24 => Ok(Attribute::Disp8NoScale),
            25 => Ok(Attribute::Disp8Quarter),
            26 => Ok(Attribute::Disp8QuarterMem),
            27 => Ok(Attribute::Disp8Scalar),
            28 => Ok(Attribute::Disp8Tuple1),
            29 => Ok(Attribute::Disp8Tuple1_4x),
            30 => Ok(Attribute::Disp8Tuple1Byte),
            31 => Ok(Attribute::Disp8Tuple1Word),
            32 => Ok(Attribute::Disp8Tuple2),
            33 => Ok(Attribute::Disp8Tuple4),
            34 => Ok(Attribute::Disp8Tuple8),
            35 => Ok(Attribute::DoubleWideMemOp),
            36 => Ok(Attribute::DoubleWideOutput),
            37 => Ok(Attribute::DwordIndices),
            38 => Ok(Attribute::ElementSizeD),
            39 => Ok(Attribute::ElementSizeQ),
            40 => Ok(Attribute::ExceptionBr),
            41 => Ok(Attribute::FarXfer),
            42 => Ok(Attribute::FixedBase0),
            43 => Ok(Attribute::FixedBase1),
            44 => Ok(Attribute::FixedRoundingRNE),
            45 => Ok(Attribute::FlushInputDenorm),
            46 => Ok(Attribute::FlushOutputDenorm),
            47 => Ok(Attribute::Gather),
            48 => Ok(Attribute::HalfWideOutput),
            49 => Ok(Attribute::HleAcqAble),
            50 => Ok(Attribute::HleRelAble),
            51 => Ok(Attribute::IgnoresOsfxsr),
            52 => Ok(Attribute::ImplicitOne),
            53 => Ok(Attribute::IndexRegIsPointer),
            54 => Ok(Attribute::IndirectBranch),
            55 => Ok(Attribute::KMask),
            56 => Ok(Attribute::Lockable),
            57 => Ok(Attribute::Locked),
            58 => Ok(Attribute::MaskOp),
            59 => Ok(Attribute::MaskOpEvex),
            60 => Ok(Attribute::MaskAsControl),
            61 => Ok(Attribute::MaskVariableMemOp),
            62 => Ok(Attribute::MemoryFaultSuppression),
            63 => Ok(Attribute::MmxExcept),
            64 => Ok(Attribute::MpxPrefixAble),
            65 => Ok(Attribute::Multidest2),
            66 => Ok(Attribute::MultiSource4),
            67 => Ok(Attribute::Mxcsr),
            68 => Ok(Attribute::MxcsrRd),
            69 => Ok(Attribute::NonTemporal),
            70 => Ok(Attribute::Nop),
            71 => Ok(Attribute::NotSx),
            72 => Ok(Attribute::NotSxCond),
            74 => Ok(Attribute::NoRipRel),
            75 => Ok(Attribute::NoSrcDestMatch),
            76 => Ok(Attribute::Prefetch),
            77 => Ok(Attribute::ProtectedMode),
            78 => Ok(Attribute::QWordIndices),
            79 => Ok(Attribute::Rep),
            80 => Ok(Attribute::RequiresAlignment),
            81 => Ok(Attribute::RequiresAlignment4B),
            82 => Ok(Attribute::RequiresAlignment8B),
            83 => Ok(Attribute::Ring0),
            84 => Ok(Attribute::Scalable),
            85 => Ok(Attribute::Scatter),
            86 => Ok(Attribute::SimdScalar),
            87 => Ok(Attribute::SkipLow32),
            88 => Ok(Attribute::SkipLow64),
            89 => Ok(Attribute::SpecialAgenRequired),
            90 => Ok(Attribute::StackPop0),
            91 => Ok(Attribute::StackPop1),
            92 => Ok(Attribute::StackPush0),
            93 => Ok(Attribute::StackPush1),
            94 => Ok(Attribute::Undocumented),
            95 => Ok(Attribute::UsesDaz),
            96 => Ok(Attribute::UsesFtz),
            97 => Ok(Attribute::X87Control),
            98 => Ok(Attribute::X87MmxStateCw),
            99 => Ok(Attribute::X87MmxStateR),
            100 => Ok(Attribute::X87MmxStateW),
            101 => Ok(Attribute::X87NoWait),
            102 => Ok(Attribute::XmmStateCw),
            103 => Ok(Attribute::XmmStateR),
            104 => Ok(Attribute::XmmStateW),
            _ => Err(InvalidEnumValue::new(value, "Attribute")),
        }
    }
}

/// The fixed attribute bit set of an instruction form, split over two
/// 64-bit words: a raw attribute value below 64 indexes the first word at
/// its own bit position, and a higher one indexes the second word at the
/// position less 64.
#[derive(Clone, Copy, Debug, PartialEq, Eq, Structural, Hash)]
pub struct Attributes {
    /// Bits for the attributes with raw values 0 through 63.
    pub a1: u64,
    /// Bits for the attributes with raw values 64 and up.
    pub a2: u64,
}

impl Attributes {
    /// Whether the bit at a raw attribute position is set.
    pub open spec fn spec_has_raw(self, value: u32) -> bool {
        if value < 64 {
            (self.a1 >> value) & 1 == 1
        } else {
            (self.a2 >> (value - 64) as u64) & 1 == 1
        }
    }

    /// Whether this bit set holds the given attribute.
    pub open spec fn spec_has(self, attr: Attribute) -> bool {
        self.spec_has_raw(attr.raw())
    }

    /// A bit set from its two words.
    pub fn new(a1: u64, a2: u64) -> (r: Attributes)
        ensures
            r.a1 == a1,
            r.a2 == a2,
    {
        Attributes { a1, a2 }
    }

    /// An empty bit set.
    pub fn none() -> (r: Attributes)
        ensures
            r.a1 == 0,
            r.a2 == 0,
    {
        Attributes { a1: 0, a2: 0 }
    }

    /// Whether this bit set holds the given attribute.
    pub fn has(self, attr: Attribute) -> (r: bool)
        ensures
            r == self.spec_has(attr),
    {
        let value = attr.into_raw();
        if value < 64 {
            (self.a1 >> value) & 1 == 1
        } else {
            (self.a2 >> (value - 64) as u64) & 1 == 1
        }
    }
}

} // verus!