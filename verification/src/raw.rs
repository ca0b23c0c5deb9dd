//! Conversions between the crate's classification values and the raw
//! identifiers the table data carries.

use vstd::prelude::*;
use crate::classify::{IClass, IForm};

verus! {

/// A type built by wrapping a raw identifier.
pub trait FromRaw where Self: Sized {
    /// The raw identifier type this wraps.
    type CType;

    /// Wrap a raw identifier.
    fn from_raw(raw: Self::CType) -> Self;
}

/// A type that exposes its raw identifier by reference.
pub trait AsRaw: FromRaw {
    /// Borrow the raw identifier.
    fn as_raw(&self) -> &Self::CType;
}

/// A type that exposes its raw identifier for mutation.
pub trait AsRawMut: AsRaw {
    /// Borrow the raw identifier mutably.
    fn as_raw_mut(&mut self) -> &mut Self::CType;
}

/// A type that gives its raw identifier back.
pub trait IntoRaw: FromRaw {
    /// Unwrap into the raw identifier.
    fn into_raw(self) -> Self::CType;
}

impl FromRaw for IClass {
    type CType = u32;

    fn from_raw(raw: u32) -> Self {
        IClass(raw)
    }
}

impl AsRaw for IClass {
    fn as_raw(&self) -> &u32 {
        &self.0
    }
}

impl AsRawMut for IClass {
    fn as_raw_mut(&mut self) -> &mut u32 {
        &mut self.0
    }
}

impl IntoRaw for IClass {
    fn into_raw(self) -> u32 {
        self.0
    }
}

impl FromRaw for IForm {
    type CType = u32;

    fn from_raw(raw: u32) -> Self {
        IForm(raw)
    }
}

impl AsRaw for IForm {
    fn as_raw(&self) -> &u32 {
        &self.0
    }
}

impl AsRawMut for IForm {
    fn as_raw_mut(&mut self) -> &mut u32 {
        &mut self.0
    }
}

impl IntoRaw for IForm {
    fn into_raw(self) -> u32 {
        self.0
    }
}

} // verus!
