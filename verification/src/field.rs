//! Field arithmetic: describing a bit field of a register and positioning
//! field values inside the register word.
//!
//! The struct definitions and the width independent accessors live here; the
//! operations whose meaning depends on the register width, together with the
//! laws proved about them, stand in one submodule per supported width.

use vstd::prelude::*;

use crate::RegisterType;

pub mod w16;
pub mod w32;
pub mod w64;
pub mod w8;

verus! {

/// Definition of a field contained inside of a register. Each field is
/// defined by an unshifted mask (a contiguous run of one bits starting at bit
/// 0) and the bit offset at which the field begins.
#[derive(Copy, Clone, Debug)]
pub struct RegisterField<T: RegisterType> {
    mask: T,
    shift: T,
}

impl<T: RegisterType> RegisterField<T> {
    /// The stored mask: the field's bits as a run starting at bit 0, not yet
    /// shifted into place.
    pub closed spec fn spec_mask(self) -> T {
        self.mask
    }

    /// The stored shift: the bit offset of the field's least significant bit.
    pub closed spec fn spec_shift(self) -> T {
        self.shift
    }

    /// Create a new register field definition with the mask and the shift
    /// offset for this mask. The two values are stored verbatim.
    pub fn new(mask: T, shift: T) -> (r: Self)
        ensures
            r.spec_mask() == mask,
            r.spec_shift() == shift,
    {
        RegisterField { mask, shift }
    }

    /// Retrieve the current shift of the field.
    pub fn shift(&self) -> (r: T)
        ensures
            r == self.spec_shift(),
    {
        self.shift
    }

    /// The mask as stored, not yet shifted into place.
    pub(crate) fn raw_mask(&self) -> (r: T)
        ensures
            r == self.spec_mask(),
    {
        self.mask
    }
}

/// A specific value of a register field. The value is kept field-local, that
/// is right-aligned to bit 0 and not yet positioned at the field's shift.
/// Field values of different fields combine with `|` and `&` into one payload
/// for a single masked write.
#[derive(Copy, Clone, Debug)]
pub struct RegisterFieldValue<T: RegisterType> {
    /// register field definition
    field: RegisterField<T>,
    /// register field value
    value: T,
}

impl<T: RegisterType> RegisterFieldValue<T> {
    /// The field this value belongs to.
    pub closed spec fn spec_field(self) -> RegisterField<T> {
        self.field
    }

    /// The stored field-local value.
    pub closed spec fn spec_value(self) -> T {
        self.value
    }

    /// Retrieve the register field value.
    pub fn value(&self) -> (r: T)
        ensures
            r == self.spec_value(),
    {
        self.value
    }

    /// Retrieve the field this value belongs to.
    pub fn field(&self) -> (r: RegisterField<T>)
        ensures
            r == self.spec_field(),
    {
        self.field
    }

    /// Pair a field with an already prepared stored value, verbatim.
    pub(crate) fn from_parts(field: RegisterField<T>, value: T) -> (r: Self)
        ensures
            r.spec_field() == field,
            r.spec_value() == value,
    {
        RegisterFieldValue { field, value }
    }
}

} // verus!
