//! A safe, verified model of an x86/x86-64 instruction-decoder interface.
//!
//! The crate models the data that a table-driven x86 decoder produces:
//! execution modes and address widths, chip feature masks, checked
//! classification values (instruction class, category, extension, ISA set,
//! register, operand roles), flag-effect summaries, and the fixed-capacity
//! decoded-instruction record with its query accessors.

pub mod attribute;
pub mod chip;
pub mod classify;
pub mod decode;
pub mod decoded;
pub mod error;
pub mod flags;
pub mod inst;
pub mod mode;
pub mod operand;
pub mod raw;
pub mod register;
pub mod state;

pub use attribute::{Attribute, Attributes};
pub use chip::{feature_check, Chip, ChipFeatures, IsaSet};
pub use classify::{Category, Exception, Extension, IClass, IForm, Syntax};
pub use decode::DecodeOptions;
pub use decoded::{DecodedFields, DecodedInst, MemOperandRecord, MemoryOperand, MemoryOperands, OperandValue, OperandValueRecord, OperandValues};
pub use error::{Error, InvalidEnumValue};
pub use flags::{Action, Flag, FlagAction, FlagSet, SimpleFlag};
pub use inst::{Inst, InstOperand, InstOperandParts, InstParts};
pub use mode::{AddressWidth, MachineMode};
pub use operand::{NonTerminal, Operand, OperandAction, OperandElementType, OperandElementXType, OperandType, OperandVisibility, OperandWidth};
pub use raw::{AsRaw, AsRawMut, FromRaw, IntoRaw};
pub use register::Register;
pub use state::State;
