//! Type-safe access to hardware register values.
//!
//! A register of a fixed unsigned width is carved into named bit fields. A
//! [`RegisterField`] describes one such field by an unshifted mask and the bit
//! offset at which the field sits. A [`RegisterFieldValue`] pairs a field with
//! a field-local value and can be combined with other field values into a
//! single payload for one masked write. The accessor types [`ReadOnly`],
//! [`WriteOnly`] and [`ReadWrite`] bind the field arithmetic to a register
//! word and enforce the access capability through the set of operations each
//! one exposes. The platform layer that performs the volatile bus access
//! stays outside this crate; it hands the register word in and out as a plain
//! value.

use vstd::prelude::*;

pub mod field;
pub mod register;

pub use field::RegisterField;
pub use field::RegisterFieldValue;
pub use register::ReadOnly;
pub use register::ReadWrite;
pub use register::WriteOnly;

verus! {

/// Marker for the unsigned integer types that may carry a register value.
///
/// Registers come in widths of 8, 16, 32 and 64 bits, so the trait is
/// implemented for exactly `u8`, `u16`, `u32` and `u64`; no signed or
/// floating type may stand for a register.
pub trait RegisterType: Copy {

}

impl RegisterType for u8 {

}

impl RegisterType for u16 {

}

impl RegisterType for u32 {

}

impl RegisterType for u64 {

}

} // verus!
