use chip8::memory::{Memory, MemoryError};

#[test]
fn new_memory_holds_fontset_then_zeroes() {
    let memory = Memory::new();
    // First bytes of the glyph table: the "0" and "1" glyphs.
    assert_eq!(memory.get_byte(0).unwrap(), 0xF0);
    assert_eq!(memory.get_byte(1).unwrap(), 0x90);
    assert_eq!(memory.get_byte(5).unwrap(), 0x20);
    // Last glyph byte, then zeroes.
    assert_eq!(memory.get_byte(79).unwrap(), 0x80);
    assert_eq!(memory.get_byte(80).unwrap(), 0x00);
    assert_eq!(memory.get_byte(0x200).unwrap(), 0x00);
    assert_eq!(memory.get_byte(4095).unwrap(), 0x00);
}

#[test]
fn set_and_get_byte_roundtrip() {
    let mut memory = Memory::new();
    memory.set_byte(0x300, 0xAB).unwrap();
    assert_eq!(memory.get_byte(0x300).unwrap(), 0xAB);
}

#[test]
fn get_byte_out_of_bounds() {
    let memory = Memory::new();
    assert_eq!(memory.get_byte(4096), Err(MemoryError::OutOfBounds(4096)));
    assert_eq!(memory.get_byte(0xFFFF), Err(MemoryError::OutOfBounds(0xFFFF)));
}

#[test]
fn set_byte_out_of_bounds() {
    let mut memory = Memory::new();
    assert_eq!(memory.set_byte(4096, 1), Err(MemoryError::OutOfBounds(4096)));
    assert_eq!(memory.get_byte(4095).unwrap(), 0);
}

#[test]
fn get_bytes_reads_a_range() {
    let mut memory = Memory::new();
    memory.set_bytes(0x210, &[1, 2, 3]).unwrap();
    assert_eq!(memory.get_bytes(0x210, 3).unwrap(), vec![1, 2, 3]);
    assert_eq!(memory.get_bytes(0x210, 0).unwrap(), Vec::<u8>::new());
}

#[test]
fn get_bytes_rejects_range_past_end() {
    let memory = Memory::new();
    assert_eq!(memory.get_bytes(4095, 2), Err(MemoryError::OutOfBounds(4095)));
    assert!(memory.get_bytes(4095, 1).is_ok());
}

#[test]
fn set_bytes_rejects_range_past_end_without_writing() {
    let mut memory = Memory::new();
    assert_eq!(
        memory.set_bytes(4095, &[7, 8]),
        Err(MemoryError::OutOfBounds(4095))
    );
    // Nothing was written, not even the in-bounds part.
    assert_eq!(memory.get_byte(4095).unwrap(), 0);
}

#[test]
fn store_bcd_writes_three_digits() {
    let mut memory = Memory::new();
    memory.store_binary_coded_decimal(0x400, 156).unwrap();
    assert_eq!(memory.get_byte(0x400).unwrap(), 1);
    assert_eq!(memory.get_byte(0x401).unwrap(), 5);
    assert_eq!(memory.get_byte(0x402).unwrap(), 6);
}

#[test]
fn store_bcd_edge_values() {
    let mut memory = Memory::new();
    memory.store_binary_coded_decimal(0x400, 0).unwrap();
    assert_eq!(memory.get_bytes(0x400, 3).unwrap(), vec![0, 0, 0]);
    memory.store_binary_coded_decimal(0x400, 255).unwrap();
    assert_eq!(memory.get_bytes(0x400, 3).unwrap(), vec![2, 5, 5]);
    memory.store_binary_coded_decimal(0x400, 7).unwrap();
    assert_eq!(memory.get_bytes(0x400, 3).unwrap(), vec![0, 0, 7]);
}

#[test]
fn store_bcd_rejects_placement_past_end_without_writing() {
    let mut memory = Memory::new();
    assert_eq!(
        memory.store_binary_coded_decimal(4094, 156),
        Err(MemoryError::OutOfBounds(4094))
    );
    assert_eq!(memory.get_byte(4094).unwrap(), 0);
    assert_eq!(memory.get_byte(4095).unwrap(), 0);
}

#[test]
fn load_rom_copies_image_at_program_start() {
    let mut memory = Memory::new();
    memory.load_rom(&[0x60, 0x01, 0x61, 0x02]).unwrap();
    assert_eq!(memory.get_bytes(0x200, 4).unwrap(), vec![0x60, 0x01, 0x61, 0x02]);
}

#[test]
fn load_rom_accepts_largest_image() {
    let mut memory = Memory::new();
    let rom = vec![0x55u8; 3584];
    memory.load_rom(&rom).unwrap();
    assert_eq!(memory.get_byte(0x200).unwrap(), 0x55);
    assert_eq!(memory.get_byte(4095).unwrap(), 0x55);
}

#[test]
fn load_rom_rejects_oversized_image() {
    let mut memory = Memory::new();
    let rom = vec![0x55u8; 3585];
    assert_eq!(memory.load_rom(&rom), Err(MemoryError::OutOfBounds(0x200)));
    assert_eq!(memory.get_byte(0x200).unwrap(), 0);
}
