use chip8::registers::{RegisterError, Registers};

#[test]
fn new_registers_are_zero() {
    let registers = Registers::new();
    for i in 0..16u8 {
        assert_eq!(registers.read(i).unwrap(), 0);
    }
}

#[test]
fn write_and_read_roundtrip() {
    let mut registers = Registers::new();
    registers.write(3, 0x42).unwrap();
    assert_eq!(registers.read(3).unwrap(), 0x42);
    assert_eq!(registers.read(4).unwrap(), 0);
}

#[test]
fn read_rejects_index_past_fifteen() {
    let registers = Registers::new();
    assert_eq!(registers.read(16), Err(RegisterError::IndexOutOfBounds(16)));
}

#[test]
fn write_rejects_index_past_fifteen() {
    let mut registers = Registers::new();
    assert_eq!(registers.write(16, 1), Err(RegisterError::IndexOutOfBounds(16)));
}

#[test]
fn read_multiple_returns_block() {
    let mut registers = Registers::new();
    registers.write(0, 10).unwrap();
    registers.write(1, 20).unwrap();
    registers.write(2, 30).unwrap();
    assert_eq!(registers.read_multiple(0, 3).unwrap(), vec![10, 20, 30]);
    assert_eq!(registers.read_multiple(1, 1).unwrap(), Vec::<u8>::new());
    assert_eq!(
        registers.read_multiple(3, 2),
        Err(RegisterError::IndexOutOfBounds(3))
    );
    assert_eq!(
        registers.read_multiple(0, 17),
        Err(RegisterError::IndexOutOfBounds(17))
    );
}

#[test]
fn write_multiple_fills_block() {
    let mut registers = Registers::new();
    registers.write_multiple(2, &[7, 8, 9]).unwrap();
    assert_eq!(registers.read(1).unwrap(), 0);
    assert_eq!(registers.read(2).unwrap(), 7);
    assert_eq!(registers.read(3).unwrap(), 8);
    assert_eq!(registers.read(4).unwrap(), 9);
    assert_eq!(registers.read(5).unwrap(), 0);
    assert_eq!(
        registers.write_multiple(15, &[1, 2]),
        Err(RegisterError::IndexOutOfBounds(15))
    );
    assert_eq!(registers.read(15).unwrap(), 0);
}

#[test]
fn copy_duplicates_a_register() {
    let mut registers = Registers::new();
    registers.write(5, 99).unwrap();
    registers.copy(2, 5).unwrap();
    assert_eq!(registers.read(2).unwrap(), 99);
    assert_eq!(registers.read(5).unwrap(), 99);
}

#[test]
fn add_with_overflow_wraps_and_sets_carry() {
    let mut registers = Registers::new();
    registers.write(0, 0xFF).unwrap();
    registers.write(1, 0x01).unwrap();
    registers.add_with_overflow(0, 1).unwrap();
    assert_eq!(registers.read(0).unwrap(), 0x00);
    assert_eq!(registers.read(0xF).unwrap(), 1);
}

#[test]
fn add_with_overflow_clears_carry_without_overflow() {
    let mut registers = Registers::new();
    registers.write(0xF, 1).unwrap();
    registers.write(0, 10).unwrap();
    registers.write(1, 20).unwrap();
    registers.add_with_overflow(0, 1).unwrap();
    assert_eq!(registers.read(0).unwrap(), 30);
    // The stale flag value is overwritten with 0.
    assert_eq!(registers.read(0xF).unwrap(), 0);
}

#[test]
fn subtract_with_overflow_flag_is_set_iff_no_borrow() {
    let mut registers = Registers::new();
    // a >= b: flag 1.
    registers.write(0, 30).unwrap();
    registers.write(1, 20).unwrap();
    registers.subtract_with_overflow(0, 1).unwrap();
    assert_eq!(registers.read(0).unwrap(), 10);
    assert_eq!(registers.read(0xF).unwrap(), 1);
    // a == b: still no borrow, flag 1.
    registers.write(2, 7).unwrap();
    registers.write(3, 7).unwrap();
    registers.subtract_with_overflow(2, 3).unwrap();
    assert_eq!(registers.read(2).unwrap(), 0);
    assert_eq!(registers.read(0xF).unwrap(), 1);
    // a < b: wraps, flag 0.
    registers.write(4, 5).unwrap();
    registers.write(5, 6).unwrap();
    registers.subtract_with_overflow(4, 5).unwrap();
    assert_eq!(registers.read(4).unwrap(), 0xFF);
    assert_eq!(registers.read(0xF).unwrap(), 0);
}

#[test]
fn subtract_with_overflow_reversed_subtracts_the_other_way() {
    let mut registers = Registers::new();
    registers.write(0, 20).unwrap();
    registers.write(1, 30).unwrap();
    registers.subtract_with_overflow_reversed(0, 1).unwrap();
    assert_eq!(registers.read(0).unwrap(), 10);
    assert_eq!(registers.read(0xF).unwrap(), 1);
    registers.write(2, 6).unwrap();
    registers.write(3, 5).unwrap();
    registers.subtract_with_overflow_reversed(2, 3).unwrap();
    assert_eq!(registers.read(2).unwrap(), 0xFF);
    assert_eq!(registers.read(0xF).unwrap(), 0);
}

#[test]
fn add_byte_wraps_without_touching_flag() {
    let mut registers = Registers::new();
    registers.write(0xF, 0xAA).unwrap();
    registers.write(0, 250).unwrap();
    registers.add_byte(0, 10).unwrap();
    assert_eq!(registers.read(0).unwrap(), 4);
    assert_eq!(registers.read(0xF).unwrap(), 0xAA);
}

#[test]
fn bitwise_operations() {
    let mut registers = Registers::new();
    registers.write(0, 0b1100).unwrap();
    registers.write(1, 0b1010).unwrap();
    registers.or(0, 1).unwrap();
    assert_eq!(registers.read(0).unwrap(), 0b1110);
    registers.write(0, 0b1100).unwrap();
    registers.and(0, 1).unwrap();
    assert_eq!(registers.read(0).unwrap(), 0b1000);
    registers.write(0, 0b1100).unwrap();
    registers.xor(0, 1).unwrap();
    assert_eq!(registers.read(0).unwrap(), 0b0110);
}

#[test]
fn shift_right_saves_low_bit_then_halves() {
    let mut registers = Registers::new();
    registers.write(0, 0x01).unwrap();
    registers.shift_right(0).unwrap();
    assert_eq!(registers.read(0).unwrap(), 0x00);
    assert_eq!(registers.read(0xF).unwrap(), 1);
    registers.write(1, 0x04).unwrap();
    registers.shift_right(1).unwrap();
    assert_eq!(registers.read(1).unwrap(), 0x02);
    assert_eq!(registers.read(0xF).unwrap(), 0);
}

#[test]
fn shift_left_saves_high_bit_then_doubles() {
    let mut registers = Registers::new();
    registers.write(0, 0x80).unwrap();
    registers.shift_left(0).unwrap();
    assert_eq!(registers.read(0).unwrap(), 0x00);
    assert_eq!(registers.read(0xF).unwrap(), 1);
    registers.write(1, 0x41).unwrap();
    registers.shift_left(1).unwrap();
    assert_eq!(registers.read(1).unwrap(), 0x82);
    assert_eq!(registers.read(0xF).unwrap(), 0);
}

#[test]
fn shifting_the_flag_register_saves_the_bit_first() {
    let mut registers = Registers::new();
    // The flag is written before the shifted content lands, so the
    // shifted value is what remains in register 0xF.
    registers.write(0xF, 0x03).unwrap();
    registers.shift_right(0xF).unwrap();
    assert_eq!(registers.read(0xF).unwrap(), 0x01);
}
