//! Field arithmetic on 64 bit wide registers.

use vstd::prelude::*;

use super::RegisterField;
use super::RegisterFieldValue;

verus! {

/// `value << shift`, saturating to `0` when the shift amount reaches the
/// register width instead of wrapping.
pub open spec fn shl_sat(value: u64, shift: u64) -> u64 {
    if shift < 64 {
        value << shift
    } else {
        0
    }
}

/// The bits of `raw` that a field with the given mask and shift selects,
/// moved back down to bit 0.
pub open spec fn extract(raw: u64, mask: u64, shift: u64) -> u64
    recommends
        shift < 64,
{
    (raw >> shift) & mask
}

/// A contiguous run of `bit_count` one bits starting at bit 0: the well
/// formed mask of a field that is `bit_count` bits wide.
pub open spec fn low_bits(bit_count: u64) -> u64
    recommends
        1 <= bit_count <= 64,
{
    if bit_count >= 64 {
        0xffff_ffff_ffff_ffffu64
    } else {
        (((1u64 << bit_count) as u64) - 1) as u64
    }
}

impl RegisterField<u64> {
    /// The mask shifted to the field's position, `0` if the shift reaches the
    /// register width.
    pub open spec fn spec_effective_mask(self) -> u64 {
        shl_sat(self.spec_mask(), self.spec_shift())
    }

    /// Retrieve the current mask of the field shifted to its correct
    /// position. A shift at or beyond the register width yields `0`.
    pub fn mask(&self) -> (r: u64)
        ensures
            r == self.spec_effective_mask(),
    {
        if self.shift < 64 {
            self.mask << self.shift
        } else {
            0
        }
    }
}

impl RegisterFieldValue<u64> {
    /// The stored value moved to the field's position, `0` if the field's
    /// shift reaches the register width.
    pub open spec fn spec_raw_value(self) -> u64 {
        shl_sat(self.spec_value(), self.spec_field().spec_shift())
    }

    /// Create a new field value based on the field definition and the
    /// field-local value given. The value is masked with the field's mask
    /// before it is stored.
    pub fn new(field: RegisterField<u64>, value: u64) -> (r: Self)
        ensures
            r.spec_field() == field,
            r.spec_value() == (value & field.spec_mask()),
    {
        RegisterFieldValue { field, value: value & field.mask }
    }

    /// Create a new field value based on the field definition and the raw
    /// register value given: the field's bits are extracted out of
    /// `raw_value` and stored field-local.
    pub fn from_raw(field: RegisterField<u64>, raw_value: u64) -> (r: Self)
        requires
            field.spec_shift() < 64,
        ensures
            r.spec_field() == field,
            r.spec_value() == extract(raw_value, field.spec_mask(), field.spec_shift()),
    {
        RegisterFieldValue { field, value: (raw_value >> field.shift) & field.mask }
    }

    /// Retrieve the register field raw value: the value is returned in its
    /// position as it appears in the register. A field shift at or beyond the
    /// register width yields `0`.
    pub fn raw_value(&self) -> (r: u64)
        ensures
            r == self.spec_raw_value(),
    {
        if self.field.shift < 64 {
            self.value << self.field.shift
        } else {
            0
        }
    }

    /// Retrieve the field mask used with this register field. The mask is
    /// shifted to its corresponding field position.
    pub fn mask(&self) -> (r: u64)
        ensures
            r == self.spec_field().spec_effective_mask(),
    {
        self.field.mask()
    }

    /// The result of combining two field values with `|`: the combined field
    /// spans both effective masks and sits at shift 0, the combined value is
    /// the bitwise or of the two raw values.
    pub closed spec fn spec_bitor(self, rhs: Self) -> Self {
        RegisterFieldValue {
            field: RegisterField {
                mask: self.spec_field().spec_effective_mask() | rhs.spec_field().spec_effective_mask(),
                shift: 0,
            },
            value: self.spec_raw_value() | rhs.spec_raw_value(),
        }
    }

    /// The result of combining two field values with `&`: the combined field
    /// is the intersection of the two effective masks at shift 0, the
    /// combined value the bitwise and of the two raw values.
    pub closed spec fn spec_bitand(self, rhs: Self) -> Self {
        RegisterFieldValue {
            field: RegisterField {
                mask: self.spec_field().spec_effective_mask() & rhs.spec_field().spec_effective_mask(),
                shift: 0,
            },
            value: self.spec_raw_value() & rhs.spec_raw_value(),
        }
    }
}

impl core::ops::BitOr for RegisterFieldValue<u64> {
    type Output = RegisterFieldValue<u64>;

    /// Combine two field values: the combined field has the or of the two
    /// effective masks, already positioned, and shift 0; the combined value
    /// is the or of the two raw values, consistent with that shift.
    fn bitor(self, rhs: RegisterFieldValue<u64>) -> (r: RegisterFieldValue<u64>)
        ensures
            r == self.spec_bitor(rhs),
            r.spec_field().spec_mask() == (self.spec_field().spec_effective_mask()
                | rhs.spec_field().spec_effective_mask()),
            r.spec_field().spec_shift() == 0,
            r.spec_value() == (self.spec_raw_value() | rhs.spec_raw_value()),
    {
        let field = RegisterField::<u64>::new(self.mask() | rhs.mask(), 0);
        RegisterFieldValue::from_parts(field, self.raw_value() | rhs.raw_value())
    }
}

impl vstd::std_specs::ops::BitOrSpecImpl for RegisterFieldValue<u64> {
    open spec fn obeys_bitor_spec() -> bool {
        true
    }

    open spec fn bitor_req(self, rhs: RegisterFieldValue<u64>) -> bool {
        true
    }

    open spec fn bitor_spec(self, rhs: RegisterFieldValue<u64>) -> RegisterFieldValue<u64> {
        self.spec_bitor(rhs)
    }
}

impl core::ops::BitAnd for RegisterFieldValue<u64> {
    type Output = RegisterFieldValue<u64>;

    /// Combine two field values: the combined field has the and of the two
    /// effective masks, already positioned, and shift 0; the combined value
    /// is the and of the two raw values, consistent with that shift.
    fn bitand(self, rhs: RegisterFieldValue<u64>) -> (r: RegisterFieldValue<u64>)
        ensures
            r == self.spec_bitand(rhs),
            r.spec_field().spec_mask() == (self.spec_field().spec_effective_mask()
                & rhs.spec_field().spec_effective_mask()),
            r.spec_field().spec_shift() == 0,
            r.spec_value() == (self.spec_raw_value() & rhs.spec_raw_value()),
    {
        let field = RegisterField::<u64>::new(self.mask() & rhs.mask(), 0);
        RegisterFieldValue::from_parts(field, self.raw_value() & rhs.raw_value())
    }
}

impl vstd::std_specs::ops::BitAndSpecImpl for RegisterFieldValue<u64> {
    open spec fn obeys_bitand_spec() -> bool {
        true
    }

    open spec fn bitand_req(self, rhs: RegisterFieldValue<u64>) -> bool {
        true
    }

    open spec fn bitand_spec(self, rhs: RegisterFieldValue<u64>) -> RegisterFieldValue<u64> {
        self.spec_bitand(rhs)
    }
}

impl PartialEq for RegisterFieldValue<u64> {
    /// Two field values are equal exactly when their field-local values are
    /// equal; the fields they belong to are not compared.
    fn eq(&self, other: &RegisterFieldValue<u64>) -> (r: bool) {
        self.value == other.value
    }
}

impl vstd::std_specs::cmp::PartialEqSpecImpl for RegisterFieldValue<u64> {
    open spec fn obeys_eq_spec() -> bool {
        true
    }

    open spec fn eq_spec(&self, other: &RegisterFieldValue<u64>) -> bool {
        self.spec_value() == other.spec_value()
    }
}

/// For a well formed field, one whose mask is a contiguous run of `bit_count`
/// one bits and which fits the register width, the effective mask is exactly
/// the stored mask shifted into place: the saturating shift does not kick in.
pub proof fn lemma_effective_mask_of_valid_field(field: RegisterField<u64>, bit_count: u64)
    requires
        1 <= bit_count,
        field.spec_mask() == low_bits(bit_count),
        field.spec_shift() + bit_count <= 64,
    ensures
        field.spec_effective_mask() == (field.spec_mask() << field.spec_shift()),
{
}

/// A shift at or beyond the register width saturates: the effective mask and
/// the raw value of such a field are `0`, whatever the mask and the stored
/// value hold.
pub proof fn lemma_shift_saturates(field: RegisterField<u64>, fv: RegisterFieldValue<u64>)
    requires
        field.spec_shift() >= 64,
        fv.spec_field().spec_shift() >= 64,
    ensures
        field.spec_effective_mask() == 0,
        fv.spec_raw_value() == 0,
{
}

/// Round trip: a field-local value that lies within the mask of a well formed
/// field survives being positioned into the register word and extracted back
/// out. In terms of the operations: for `v` with `v & mask == v`,
/// `RegisterFieldValue::from_raw(field, RegisterFieldValue::new(field, v).raw_value())`
/// stores `v` again.
pub proof fn lemma_round_trip(field: RegisterField<u64>, bit_count: u64, v: u64)
    requires
        1 <= bit_count,
        field.spec_mask() == low_bits(bit_count),
        field.spec_shift() + bit_count <= 64,
        v & field.spec_mask() == v,
    ensures
        extract(
            shl_sat(v, field.spec_shift()),
            field.spec_mask(),
            field.spec_shift(),
        ) == v,
{
    let m = field.spec_mask();
    let s = field.spec_shift();
    assert(((v << s) >> s) & m == v) by (bit_vector)
        requires
            1 <= bit_count <= 64,
            s + bit_count <= 64,
            m == low_bits(bit_count),
            v & m == v,
    ;
}

/// Combining a field value with itself through `|` yields an equal value in
/// the sense of the value-level equality of field values, as long as the
/// field sits at shift 0 or the stored value is 0. (At a non-zero shift and
/// with a non-zero value the claim does not hold: the combination stores the
/// positioned raw value, which then differs from the field-local one.)
pub proof fn lemma_or_self_identity(a: RegisterFieldValue<u64>)
    requires
        a.spec_field().spec_shift() == 0 || a.spec_value() == 0,
    ensures
        a.spec_bitor(a).spec_value() == a.spec_value(),
{
    let v = a.spec_value();
    let s = a.spec_field().spec_shift();
    assert((s == 0 || v == 0) ==> ((if s < 64 {
        v << s
    } else {
        0u64
    }) | (if s < 64 {
        v << s
    } else {
        0u64
    })) == v) by (bit_vector);
}

} // verus!
