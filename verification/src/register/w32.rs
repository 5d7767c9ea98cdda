//! Register access operations on 32 bit wide registers.

use vstd::prelude::*;

use crate::field::w32::extract;
use crate::field::RegisterField;
use crate::field::RegisterFieldValue;
use super::ReadOnly;
use super::ReadWrite;
use super::WriteOnly;

verus! {

/// The register word after a masked read-modify-write: the field's bits of
/// `old_val` are replaced by `value`, positioned at the field's shift, and
/// every other bit of `old_val` is kept.
pub open spec fn masked_update(old_val: u32, mask: u32, shift: u32, value: u32) -> u32
    recommends
        shift < 32,
{
    (old_val & !(mask << shift)) | ((value & mask) << shift)
}

impl ReadOnly<u32> {
    /// Read the value of a specific register field, moved down to bit 0.
    pub fn read(&self, field: RegisterField<u32>) -> (r: u32)
        requires
            field.spec_shift() < 32,
        ensures
            r == extract(self@, field.spec_mask(), field.spec_shift()),
    {
        let val = self.get();
        (val >> field.shift()) & field.raw_mask()
    }

    /// Read the value of a specific register field into a
    /// `RegisterFieldValue` structure.
    pub fn read_value(&self, field: RegisterField<u32>) -> (r: RegisterFieldValue<u32>)
        requires
            field.spec_shift() < 32,
        ensures
            r.spec_field() == field,
            r.spec_value() == extract(self@, field.spec_mask(), field.spec_shift()),
    {
        RegisterFieldValue::from_parts(field, self.read(field))
    }
}

impl WriteOnly<u32> {
    /// Write the value of a specific register field. The whole register is
    /// overwritten: a write-only register cannot be read back first, so every
    /// bit outside the field is cleared rather than preserved.
    pub fn write(&mut self, field: RegisterField<u32>, value: u32)
        requires
            field.spec_shift() < 32,
        ensures
            final(self)@ == ((value & field.spec_mask()) << field.spec_shift()),
    {
        let val = (value & field.raw_mask()) << field.shift();
        self.set(val);
    }

    /// Write the value of a given `RegisterFieldValue` to the register. The
    /// whole register is overwritten, as with `write`.
    pub fn write_value(&mut self, fieldvalue: RegisterFieldValue<u32>)
        requires
            fieldvalue.spec_field().spec_shift() < 32,
        ensures
            final(self)@ == ((fieldvalue.spec_value() & fieldvalue.spec_field().spec_mask())
                << fieldvalue.spec_field().spec_shift()),
    {
        let field = fieldvalue.field();
        self.write(field, fieldvalue.value());
    }
}

impl ReadWrite<u32> {
    /// Read the value of a specific register field, moved down to bit 0.
    pub fn read(&self, field: RegisterField<u32>) -> (r: u32)
        requires
            field.spec_shift() < 32,
        ensures
            r == extract(self@, field.spec_mask(), field.spec_shift()),
    {
        let val = self.get();
        (val >> field.shift()) & field.raw_mask()
    }

    /// Read the value of a specific register field into a
    /// `RegisterFieldValue` structure.
    pub fn read_value(&self, field: RegisterField<u32>) -> (r: RegisterFieldValue<u32>)
        requires
            field.spec_shift() < 32,
        ensures
            r.spec_field() == field,
            r.spec_value() == extract(self@, field.spec_mask(), field.spec_shift()),
    {
        RegisterFieldValue::from_parts(field, self.read(field))
    }

    /// Write the value of a specific register field. The whole register is
    /// overwritten: every bit outside the field is cleared.
    pub fn write(&mut self, field: RegisterField<u32>, value: u32)
        requires
            field.spec_shift() < 32,
        ensures
            final(self)@ == ((value & field.spec_mask()) << field.spec_shift()),
    {
        let val = (value & field.raw_mask()) << field.shift();
        self.set(val);
    }

    /// Write the value of a given `RegisterFieldValue` to the register. The
    /// whole register is overwritten, as with `write`.
    pub fn write_value(&mut self, fieldvalue: RegisterFieldValue<u32>)
        requires
            fieldvalue.spec_field().spec_shift() < 32,
        ensures
            final(self)@ == ((fieldvalue.spec_value() & fieldvalue.spec_field().spec_mask())
                << fieldvalue.spec_field().spec_shift()),
    {
        let field = fieldvalue.field();
        self.write(field, fieldvalue.value());
    }

    /// Update a register field with a given value through a true
    /// read-modify-write: the field's bits are replaced, every bit outside
    /// the field keeps its prior value. Returns the new raw register word.
    pub fn modify(&mut self, field: RegisterField<u32>, value: u32) -> (r: u32)
        requires
            field.spec_shift() < 32,
        ensures
            r == masked_update(old(self)@, field.spec_mask(), field.spec_shift(), value),
            final(self)@ == r,
    {
        let old_val = self.get();
        let new_val = (old_val & !(field.raw_mask() << field.shift())) | ((value
            & field.raw_mask()) << field.shift());
        self.set(new_val);
        new_val
    }

    /// Update the field of the given `RegisterFieldValue` with its value
    /// through a read-modify-write. The returned field value pairs the
    /// original field with the new raw register word as a whole — not with
    /// the field's bits extracted out of it. Downstream composition relies on
    /// receiving the full post-write word here.
    pub fn modify_value(&mut self, fieldvalue: RegisterFieldValue<u32>) -> (r: RegisterFieldValue<
        u32,
    >)
        requires
            fieldvalue.spec_field().spec_shift() < 32,
        ensures
            r.spec_field() == fieldvalue.spec_field(),
            r.spec_value() == masked_update(
                old(self)@,
                fieldvalue.spec_field().spec_mask(),
                fieldvalue.spec_field().spec_shift(),
                fieldvalue.spec_value(),
            ),
            final(self)@ == r.spec_value(),
    {
        let field = fieldvalue.field();
        let new_val = self.modify(field, fieldvalue.value());
        RegisterFieldValue::from_parts(field, new_val)
    }
}

/// A write through a write-only register overwrites the whole word: every bit
/// outside the field's effective mask ends up cleared, whatever the register
/// held before. Nothing of the prior contents survives the write.
pub proof fn lemma_write_clears_outside_bits(field: RegisterField<u32>, value: u32, after: u32)
    requires
        field.spec_shift() < 32,
        after == ((value & field.spec_mask()) << field.spec_shift()),
    ensures
        after & !field.spec_effective_mask() == 0,
{
    let m = field.spec_mask();
    let s = field.spec_shift();
    assert(s < 32 ==> (((value & m) << s) & !(m << s)) == 0u32) by (bit_vector);
}

/// A modify through a read/write register is a true read-modify-write: every
/// bit outside the field's effective mask keeps the value it had before.
pub proof fn lemma_modify_preserves_outside_bits(
    old_val: u32,
    field: RegisterField<u32>,
    value: u32,
)
    requires
        field.spec_shift() < 32,
    ensures
        masked_update(old_val, field.spec_mask(), field.spec_shift(), value)
            & !field.spec_effective_mask() == old_val & !field.spec_effective_mask(),
{
    let m = field.spec_mask();
    let s = field.spec_shift();
    assert(s < 32 ==> ((((old_val & !(m << s)) | ((value & m) << s)) & !(m << s)) == (old_val & !(m
        << s)))) by (bit_vector);
}

} // verus!
