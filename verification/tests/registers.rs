//! Tests of the register accessors: reading, writing and modifying register
//! words through fields.

use ruspiro_register::ReadOnly;
use ruspiro_register::ReadWrite;
use ruspiro_register::RegisterField;
use ruspiro_register::RegisterFieldValue;
use ruspiro_register::WriteOnly;

#[test]
fn mmio_register_read() {
    let mmio: [u32; 1] = [0xff00_ab00];

    let field = RegisterField::<u32>::new(0xff, 8);
    let value: u32 = (mmio[0] & field.mask()) >> field.shift();
    assert_eq!(value, 0xab);
}

#[test]
fn mmio_register_read_value() {
    let mmio: [u32; 1] = [0xff00_ab00];

    let field = RegisterField::<u32>::new(0xff, 8);
    let value: u32 = (mmio[0] & field.mask()) >> field.shift();
    let field_value = RegisterFieldValue::<u32>::new(field, value);
    assert_eq!(field_value.value(), 0xab);
    assert_eq!(field_value.raw_value(), 0xab00);
}

#[test]
fn mmio_register_modify_value() {
    let mmio: [u32; 1] = [0xff00_ab00];

    let field = RegisterField::<u32>::new(0xff, 8);
    let old_value: u32 = mmio[0];
    let new_value: u32 = (old_value & !field.mask()) | ((0x0f << field.shift()) & field.mask());
    assert_eq!(new_value, 0xff00_0f00);
}

#[test]
fn read_only_register_extracts_fields() {
    let register = ReadOnly::<u32>::new(0xff00_ab00);
    let field = RegisterField::<u32>::new(0xff, 8);

    assert_eq!(register.get(), 0xff00_ab00);
    assert_eq!(register.read(field), 0xab);

    let field_value = register.read_value(field);
    assert_eq!(field_value.value(), 0xab);
    assert_eq!(field_value.raw_value(), 0xab00);
}

#[test]
fn read_write_register_modify_preserves_other_bits() {
    let mut register = ReadWrite::<u32>::new(0b1_1010_0011_0010);
    let field = RegisterField::<u32>::new(0x3, 8);

    let new_value: u32 = register.modify(field, 0b01);
    assert_eq!(new_value, 0b1_1001_0011_0010);
    assert_eq!(register.get(), 0b1_1001_0011_0010);
}

#[test]
fn read_write_register_write_clears_other_bits() {
    let mut register = ReadWrite::<u32>::new(0xffff_ffff);
    let field = RegisterField::<u32>::new(0xff, 8);

    register.write(field, 0xab);
    assert_eq!(register.get(), 0xab00);
}

#[test]
fn read_write_register_write_value() {
    let mut register = ReadWrite::<u32>::new(0xffff_ffff);
    let field = RegisterField::<u32>::new(0xff, 8);
    let field_value = RegisterFieldValue::<u32>::new(field, 0xab);

    register.write_value(field_value);
    assert_eq!(register.get(), 0xab00);
}

#[test]
fn modify_value_returns_full_register_word() {
    let mut register = ReadWrite::<u32>::new(0xff00_ab00);
    let field = RegisterField::<u32>::new(0xff, 8);
    let field_value = RegisterFieldValue::<u32>::new(field, 0x0f);

    let result = register.modify_value(field_value);
    assert_eq!(register.get(), 0xff00_0f00);
    assert_eq!(result.value(), 0xff00_0f00);
}

#[test]
fn write_only_register_accepts_writes() {
    let mut register = WriteOnly::<u32>::new(0);
    let field = RegisterField::<u32>::new(0xff, 8);

    register.set(0xffff_ffff);
    register.write(field, 0xab);
    register.write_value(RegisterFieldValue::<u32>::new(field, 0x0f));
}

#[test]
fn accessors_cover_every_width() {
    let narrow = ReadOnly::<u8>::new(0xa5);
    assert_eq!(narrow.read(RegisterField::<u8>::new(0xf, 4)), 0xa);

    let mut half = ReadWrite::<u16>::new(0x1234);
    assert_eq!(half.modify(RegisterField::<u16>::new(0xf, 4), 0xa), 0x12a4);

    let mut wide = ReadWrite::<u64>::new(0xffff_0000_0000_ffff);
    let wide_field = RegisterField::<u64>::new(0xffff, 32);
    assert_eq!(wide.modify(wide_field, 0xcafe), 0xffff_cafe_0000_ffff);
    assert_eq!(wide.read(wide_field), 0xcafe);

    let mut sink = WriteOnly::<u16>::new(0);
    sink.write(RegisterField::<u16>::new(0x3, 14), 0x2);
}
