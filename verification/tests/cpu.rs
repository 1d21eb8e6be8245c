use chip8::chip8::Chip8;
use chip8::cpu::{Cpu, CpuError};
use chip8::memory::MemoryError;
use chip8::timers::Timer;

#[test]
fn new_cpu_starts_at_program_start() {
    let cpu = Cpu::new();
    assert_eq!(cpu.program_counter, 0x200);
    assert_eq!(cpu.index, 0);
    assert_eq!(cpu.opcode, 0);
    for i in 0..16u8 {
        assert_eq!(cpu.registers.read(i).unwrap(), 0);
    }
    // The glyph table is seeded below the program area.
    assert_eq!(cpu.memory.get_byte(0).unwrap(), 0xF0);
    assert!(!cpu.beep());
}

#[test]
fn chip8_snapshot_starts_zeroed() {
    let snapshot = Chip8::new();
    assert_eq!(snapshot.opcode, 0);
    assert_eq!(snapshot.program_counter, 0);
    assert_eq!(snapshot.memory.len(), 4096);
    assert_eq!(snapshot.graphics.len(), 2048);
    assert!(snapshot.memory.iter().all(|&b| b == 0));
    assert!(snapshot.keys.iter().all(|&k| k == 0));
}

#[test]
fn load_rom_places_image_at_0x200() {
    let mut cpu = Cpu::new();
    cpu.load_rom(&[0x12, 0x34]).unwrap();
    assert_eq!(cpu.memory.get_byte(0x200).unwrap(), 0x12);
    assert_eq!(cpu.memory.get_byte(0x201).unwrap(), 0x34);
}

#[test]
fn cpu_load_rom_rejects_oversized_image() {
    let mut cpu = Cpu::new();
    let rom = vec![0u8; 3585];
    assert_eq!(cpu.load_rom(&rom), Err(MemoryError::OutOfBounds(0x200)));
}

#[test]
fn three_cycles_add_two_registers() {
    // Set register 0 to 1, register 1 to 2, add register 1 into
    // register 0: register 0 ends at 3, the flag stays 0, and the
    // program counter has advanced 6 bytes.
    let mut cpu = Cpu::new();
    cpu.load_rom(&[0x60, 0x01, 0x61, 0x02, 0x80, 0x14]).unwrap();
    cpu.emulate_cycle().unwrap();
    cpu.emulate_cycle().unwrap();
    cpu.emulate_cycle().unwrap();
    assert_eq!(cpu.registers.read(0).unwrap(), 3);
    assert_eq!(cpu.registers.read(0xF).unwrap(), 0);
    assert_eq!(cpu.program_counter, 0x206);
}

#[test]
fn unknown_word_halts_the_cycle() {
    let mut cpu = Cpu::new();
    cpu.load_rom(&[0xFF, 0xFF]).unwrap();
    assert_eq!(cpu.emulate_cycle(), Err(CpuError::UnknownOpcode(0xFFFF)));
    assert_eq!(cpu.opcode, 0xFFFF);
    assert_eq!(cpu.program_counter, 0x200);
}

#[test]
fn fetch_past_memory_reports_the_address() {
    let mut cpu = Cpu::new();
    cpu.program_counter = 4096;
    assert_eq!(
        cpu.emulate_cycle(),
        Err(CpuError::MemoryError(MemoryError::OutOfBounds(4096)))
    );
    cpu.program_counter = 4095;
    assert_eq!(
        cpu.emulate_cycle(),
        Err(CpuError::MemoryError(MemoryError::OutOfBounds(4096)))
    );
}

#[test]
fn call_and_return_use_the_stack() {
    // 0x200: call 0x20A; 0x20A: set register 3; then return to 0x202.
    let mut cpu = Cpu::new();
    let mut rom = vec![0x22, 0x0A, 0x00, 0x00, 0x00, 0x00, 0x00, 0x00, 0x00, 0x00];
    rom.extend_from_slice(&[0x63, 0x55, 0x00, 0xEE]);
    cpu.load_rom(&rom).unwrap();
    cpu.emulate_cycle().unwrap();
    assert_eq!(cpu.program_counter, 0x20A);
    assert_eq!(cpu.stack.len(), 1);
    cpu.emulate_cycle().unwrap();
    assert_eq!(cpu.registers.read(3).unwrap(), 0x55);
    cpu.emulate_cycle().unwrap();
    assert_eq!(cpu.program_counter, 0x202);
    assert_eq!(cpu.stack.len(), 0);
}

#[test]
fn seventeen_nested_calls_overflow_the_stack() {
    // 0x200 calls itself forever; the seventeenth call cannot push.
    let mut cpu = Cpu::new();
    cpu.load_rom(&[0x22, 0x00]).unwrap();
    for _ in 0..16 {
        cpu.emulate_cycle().unwrap();
    }
    assert_eq!(cpu.stack.len(), 16);
    assert_eq!(cpu.emulate_cycle(), Err(CpuError::StackOverflow));
}

#[test]
fn return_with_empty_stack_underflows() {
    let mut cpu = Cpu::new();
    cpu.load_rom(&[0x00, 0xEE]).unwrap();
    assert_eq!(cpu.emulate_cycle(), Err(CpuError::StackUnderflow));
}

#[test]
fn skip_instructions_advance_four_bytes_when_taken() {
    let mut cpu = Cpu::new();
    // Register 0 is 0, so "skip if register 0 equals 0" is taken.
    cpu.load_rom(&[0x30, 0x00]).unwrap();
    cpu.emulate_cycle().unwrap();
    assert_eq!(cpu.program_counter, 0x204);

    let mut cpu = Cpu::new();
    // "skip if register 0 equals 7" is not taken.
    cpu.load_rom(&[0x30, 0x07]).unwrap();
    cpu.emulate_cycle().unwrap();
    assert_eq!(cpu.program_counter, 0x202);
}

#[test]
fn jump_sets_the_program_counter_absolutely() {
    let mut cpu = Cpu::new();
    cpu.load_rom(&[0x13, 0x45]).unwrap();
    cpu.emulate_cycle().unwrap();
    assert_eq!(cpu.program_counter, 0x345);
}

#[test]
fn jump_plus_register0_adds_the_register() {
    let mut cpu = Cpu::new();
    cpu.load_rom(&[0x60, 0x10, 0xB3, 0x00]).unwrap();
    cpu.emulate_cycle().unwrap();
    cpu.emulate_cycle().unwrap();
    assert_eq!(cpu.program_counter, 0x310);
}

#[test]
fn masked_random_byte_with_zero_mask_is_zero() {
    // The random instruction ands the drawn byte with the literal; a
    // zero literal pins the result whatever the generator produced.
    let mut cpu = Cpu::new();
    cpu.load_rom(&[0x60, 0xFF, 0xC0, 0x00]).unwrap();
    cpu.emulate_cycle().unwrap();
    cpu.emulate_cycle().unwrap();
    assert_eq!(cpu.registers.read(0).unwrap(), 0);
}

#[test]
fn draw_instruction_draws_glyph_and_reports_collision_in_flag() {
    // Index at 0 points at the "0" glyph; draw 5 rows at (0, 0).
    let mut cpu = Cpu::new();
    cpu.load_rom(&[0xA0, 0x00, 0xD0, 0x15, 0xD0, 0x15]).unwrap();
    cpu.emulate_cycle().unwrap();
    cpu.emulate_cycle().unwrap();
    let pixels = cpu.screen.get_pixels();
    // Top row of the "0" glyph: 0xF0.
    assert_eq!(pixels[0], 0xFF);
    assert_eq!(pixels[1], 0xFF);
    assert_eq!(pixels[2], 0xFF);
    assert_eq!(pixels[3], 0xFF);
    assert_eq!(pixels[4], 0x00);
    assert_eq!(cpu.registers.read(0xF).unwrap(), 0);
    // Drawing the same glyph again erases it and sets the flag.
    cpu.emulate_cycle().unwrap();
    assert_eq!(cpu.registers.read(0xF).unwrap(), 1);
    assert!(cpu.screen.get_pixels().iter().all(|&p| p == 0x00));
}

#[test]
fn draw_with_sprite_past_memory_fails() {
    let mut cpu = Cpu::new();
    // Index at 0xFFF leaves room for no 5-row sprite.
    cpu.load_rom(&[0xAF, 0xFF, 0xD0, 0x15]).unwrap();
    cpu.emulate_cycle().unwrap();
    assert_eq!(
        cpu.emulate_cycle(),
        Err(CpuError::MemoryError(MemoryError::OutOfBounds(0xFFF)))
    );
}

#[test]
fn wait_for_key_holds_until_a_key_is_pressed() {
    let mut cpu = Cpu::new();
    cpu.load_rom(&[0xF0, 0x0A]).unwrap();
    cpu.emulate_cycle().unwrap();
    assert_eq!(cpu.program_counter, 0x200);
    cpu.emulate_cycle().unwrap();
    assert_eq!(cpu.program_counter, 0x200);
    cpu.keyboard_state._press_key(0x7).unwrap();
    cpu.emulate_cycle().unwrap();
    assert_eq!(cpu.program_counter, 0x202);
    assert_eq!(cpu.registers.read(0).unwrap(), 0x7);
}

#[test]
fn timers_tick_while_waiting_for_a_key() {
    let mut cpu = Cpu::new();
    // Set the delay timer to 3, then wait for a key.
    cpu.load_rom(&[0x60, 0x03, 0xF0, 0x15, 0xF1, 0x0A]).unwrap();
    cpu.emulate_cycle().unwrap();
    cpu.emulate_cycle().unwrap();
    // The tick of the setting cycle already ran: 3 became 2.
    assert_eq!(cpu.delay_timer.get_value(), 2);
    cpu.emulate_cycle().unwrap();
    cpu.emulate_cycle().unwrap();
    assert_eq!(cpu.program_counter, 0x204);
    assert_eq!(cpu.delay_timer.get_value(), 0);
}

#[test]
fn delay_timer_reads_back_through_register() {
    let mut cpu = Cpu::new();
    cpu.load_rom(&[0x60, 0x05, 0xF0, 0x15, 0xF1, 0x07]).unwrap();
    cpu.emulate_cycle().unwrap();
    cpu.emulate_cycle().unwrap();
    cpu.emulate_cycle().unwrap();
    // Set to 5, ticked once after setting and once more after reading:
    // the read observed 4.
    assert_eq!(cpu.registers.read(1).unwrap(), 4);
    assert_eq!(cpu.delay_timer.get_value(), 3);
}

#[test]
fn sound_timer_beeps_once_through_the_cpu() {
    let mut cpu = Cpu::new();
    // Set the sound timer to 2, then run filler instructions.
    cpu.load_rom(&[0x60, 0x02, 0xF0, 0x18, 0x61, 0x00, 0x62, 0x00]).unwrap();
    cpu.emulate_cycle().unwrap();
    assert!(!cpu.beep());
    cpu.emulate_cycle().unwrap();
    // Tick after setting: 2 -> 1, no beep yet.
    assert!(!cpu.beep());
    cpu.emulate_cycle().unwrap();
    // 1 -> 0: exactly one beep.
    assert!(cpu.beep());
    cpu.emulate_cycle().unwrap();
    assert!(!cpu.beep());
}

#[test]
fn store_bcd_through_the_cpu() {
    let mut cpu = Cpu::new();
    cpu.load_rom(&[0x60, 0x9C, 0xA3, 0x00, 0xF0, 0x33]).unwrap();
    cpu.emulate_cycle().unwrap();
    cpu.emulate_cycle().unwrap();
    cpu.emulate_cycle().unwrap();
    assert_eq!(cpu.memory.get_byte(0x300).unwrap(), 1);
    assert_eq!(cpu.memory.get_byte(0x301).unwrap(), 5);
    assert_eq!(cpu.memory.get_byte(0x302).unwrap(), 6);
}

#[test]
fn store_and_load_register_blocks() {
    let mut cpu = Cpu::new();
    cpu.load_rom(&[
        0x60, 0x0A, // register 0 = 10
        0x61, 0x0B, // register 1 = 11
        0xA3, 0x00, // index = 0x300
        0xF1, 0x55, // store registers 0-1 at 0x300
        0x60, 0x00, // register 0 = 0
        0x61, 0x00, // register 1 = 0
        0xF1, 0x65, // load registers 0-1 back
    ])
    .unwrap();
    for _ in 0..7 {
        cpu.emulate_cycle().unwrap();
    }
    assert_eq!(cpu.memory.get_byte(0x300).unwrap(), 10);
    assert_eq!(cpu.memory.get_byte(0x301).unwrap(), 11);
    assert_eq!(cpu.registers.read(0).unwrap(), 10);
    assert_eq!(cpu.registers.read(1).unwrap(), 11);
}

#[test]
fn add_register_to_index_accumulates() {
    let mut cpu = Cpu::new();
    cpu.load_rom(&[0x60, 0x10, 0xA2, 0x00, 0xF0, 0x1E]).unwrap();
    cpu.emulate_cycle().unwrap();
    cpu.emulate_cycle().unwrap();
    cpu.emulate_cycle().unwrap();
    assert_eq!(cpu.index, 0x210);
}

#[test]
fn sprite_location_is_five_bytes_per_glyph() {
    let mut cpu = Cpu::new();
    cpu.load_rom(&[0x60, 0x0A, 0xF0, 0x29]).unwrap();
    cpu.emulate_cycle().unwrap();
    cpu.emulate_cycle().unwrap();
    assert_eq!(cpu.index, 50);
}

#[test]
fn clear_screen_instruction_blanks_the_screen() {
    let mut cpu = Cpu::new();
    cpu.load_rom(&[0xA0, 0x00, 0xD0, 0x15, 0x00, 0xE0]).unwrap();
    cpu.emulate_cycle().unwrap();
    cpu.emulate_cycle().unwrap();
    assert!(cpu.screen.get_pixels().iter().any(|&p| p == 0xFF));
    cpu.emulate_cycle().unwrap();
    assert!(cpu.screen.get_pixels().iter().all(|&p| p == 0x00));
}

#[test]
fn skip_if_key_pressed_reads_the_latch() {
    let mut cpu = Cpu::new();
    cpu.load_rom(&[0xE5, 0x9E]).unwrap();
    cpu.keyboard_state._press_key(5).unwrap();
    cpu.emulate_cycle().unwrap();
    assert_eq!(cpu.program_counter, 0x204);

    let mut cpu = Cpu::new();
    cpu.load_rom(&[0xE5, 0xA1]).unwrap();
    cpu.emulate_cycle().unwrap();
    assert_eq!(cpu.program_counter, 0x204);
}

#[test]
fn arithmetic_family_through_the_cpu() {
    let mut cpu = Cpu::new();
    cpu.load_rom(&[
        0x60, 0xFF, // register 0 = 0xFF
        0x61, 0x01, // register 1 = 0x01
        0x80, 0x14, // register 0 += register 1: wraps to 0, flag 1
    ])
    .unwrap();
    cpu.emulate_cycle().unwrap();
    cpu.emulate_cycle().unwrap();
    cpu.emulate_cycle().unwrap();
    assert_eq!(cpu.registers.read(0).unwrap(), 0x00);
    assert_eq!(cpu.registers.read(0xF).unwrap(), 1);
}
