//! Tests of the field arithmetic: masks, shifts, field-local and raw values,
//! and the combination of field values with `|` and `&`.

use ruspiro_register::RegisterField;
use ruspiro_register::RegisterFieldValue;

#[test]
fn register_field_mask() {
    let field = RegisterField::<u32>::new(0x3, 6);
    assert_eq!(field.mask(), 0x3 << 6);
}

#[test]
fn register_field_shift() {
    let field = RegisterField::<u16>::new(0x3, 3);
    assert_eq!(field.shift(), 3);
}

#[test]
fn register_field_value() {
    let value = RegisterFieldValue::<u32>::new(RegisterField::<u32>::new(0x3, 6), 2);
    assert_eq!(value.value(), 2);
    assert_eq!(value.raw_value(), 2 << 6);
}

#[test]
fn register_field_value_or() {
    let value1 = RegisterFieldValue::<u16>::new(RegisterField::<u16>::new(0xF, 0), 0xA);
    let value2 = RegisterFieldValue::<u16>::new(RegisterField::<u16>::new(0x3, 4), 0x2);
    let value_or = value1 | value2;

    assert_eq!(value_or.value(), 0xA | (0x2 << 4));
    assert_eq!(value_or.raw_value(), 0xA | (0x2 << 4));
}

#[test]
fn register_field_value_and() {
    let value1 = RegisterFieldValue::<u8>::new(RegisterField::<u8>::new(0xF, 0), 0xA);
    let value2 = RegisterFieldValue::<u8>::new(RegisterField::<u8>::new(0x3, 2), 0x2);
    let value_and = value1 & value2;

    assert_eq!(value_and.value(), 0xA & (0x2 << 2));
    assert_eq!(value_and.raw_value(), 0xA & (0x2 << 2));
}

#[test]
fn register_value_update() {
    let field_value = RegisterFieldValue::<u32>::new(RegisterField::<u32>::new(0x3, 8), 0b01);
    let register_value: u32 = 0b1_1010_0011_0010;
    let new_value: u32 = (register_value & !field_value.mask()) | field_value.raw_value();

    assert_eq!(new_value, 0b1_1001_0011_0010);
}

#[test]
fn field_value_or_composition() {
    let a = RegisterFieldValue::<u32>::new(RegisterField::<u32>::new(0xF, 0), 0xA);
    let b = RegisterFieldValue::<u32>::new(RegisterField::<u32>::new(0x3, 4), 0x2);
    let combined = a | b;

    assert_eq!(combined.value(), 0x2A);
    assert_eq!(combined.raw_value(), 0x2A);
    assert_eq!(combined.mask(), 0x3F);
}

#[test]
fn field_value_and_composition() {
    let a = RegisterFieldValue::<u32>::new(RegisterField::<u32>::new(0xF, 0), 0xA);
    let b = RegisterFieldValue::<u32>::new(RegisterField::<u32>::new(0x3, 2), 0x2);
    let combined = a & b;

    assert_eq!(combined.value(), 0x8);
    assert_eq!(combined.raw_value(), 0x8);
}

#[test]
fn field_value_or_is_identity_at_shift_zero() {
    let a = RegisterFieldValue::<u32>::new(RegisterField::<u32>::new(0xF, 0), 0xA);
    let combined = a | a;

    assert_eq!(combined.value(), a.value());
    assert_eq!(combined, a);
}

#[test]
fn field_value_equality_compares_values_only() {
    let a = RegisterFieldValue::<u32>::new(RegisterField::<u32>::new(0xF, 0), 0x5);
    let b = RegisterFieldValue::<u32>::new(RegisterField::<u32>::new(0xFF, 8), 0x5);
    let c = RegisterFieldValue::<u32>::new(RegisterField::<u32>::new(0xF, 0), 0x6);

    assert_eq!(a, b);
    assert_ne!(a, c);
}

#[test]
fn field_value_round_trip() {
    let field8 = RegisterField::<u8>::new(0x7, 3);
    let v8: u8 = 0x5;
    let through8 =
        RegisterFieldValue::<u8>::from_raw(field8, RegisterFieldValue::<u8>::new(field8, v8).raw_value());
    assert_eq!(through8.value(), v8);

    let field32 = RegisterField::<u32>::new(0xFF, 8);
    let v32: u32 = 0xAB;
    let through32 = RegisterFieldValue::<u32>::from_raw(
        field32,
        RegisterFieldValue::<u32>::new(field32, v32).raw_value(),
    );
    assert_eq!(through32.value(), v32);

    let field64 = RegisterField::<u64>::new(0xFFFF, 48);
    let v64: u64 = 0xCAFE;
    let through64 = RegisterFieldValue::<u64>::from_raw(
        field64,
        RegisterFieldValue::<u64>::new(field64, v64).raw_value(),
    );
    assert_eq!(through64.value(), v64);
}

#[test]
fn field_value_new_masks_input() {
    let field = RegisterField::<u32>::new(0x3, 6);
    let value = RegisterFieldValue::<u32>::new(field, 0xFF);
    assert_eq!(value.value(), 0x3);
}

#[test]
fn from_raw_extracts_field_bits() {
    let field = RegisterField::<u32>::new(0xFF, 8);
    let value = RegisterFieldValue::<u32>::from_raw(field, 0xFF00_AB00);
    assert_eq!(value.value(), 0xAB);
    assert_eq!(value.raw_value(), 0xAB00);
}

#[test]
fn effective_mask_saturates_to_zero() {
    let field = RegisterField::<u32>::new(0xFF, 32);
    assert_eq!(field.mask(), 0);

    let value = RegisterFieldValue::<u32>::new(field, 0xFF);
    assert_eq!(value.raw_value(), 0);
    assert_eq!(value.value(), 0xFF);

    let field8 = RegisterField::<u8>::new(0x3, 200);
    assert_eq!(field8.mask(), 0);
    assert_eq!(RegisterFieldValue::<u8>::new(field8, 0x3).raw_value(), 0);
}

#[test]
fn top_bit_field_each_width() {
    assert_eq!(RegisterField::<u8>::new(0x1, 7).mask(), 0x80);
    assert_eq!(RegisterField::<u16>::new(0x1, 15).mask(), 0x8000);
    assert_eq!(RegisterField::<u32>::new(0x1, 31).mask(), 0x8000_0000);
    assert_eq!(RegisterField::<u64>::new(0x1, 63).mask(), 0x8000_0000_0000_0000);

    assert_eq!(
        RegisterFieldValue::<u8>::new(RegisterField::<u8>::new(0x1, 7), 1).raw_value(),
        0x80
    );
    assert_eq!(
        RegisterFieldValue::<u16>::new(RegisterField::<u16>::new(0x1, 15), 1).raw_value(),
        0x8000
    );
    assert_eq!(
        RegisterFieldValue::<u32>::new(RegisterField::<u32>::new(0x1, 31), 1).raw_value(),
        0x8000_0000
    );
    assert_eq!(
        RegisterFieldValue::<u64>::new(RegisterField::<u64>::new(0x1, 63), 1).raw_value(),
        0x8000_0000_0000_0000
    );
}
