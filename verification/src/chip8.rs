use vstd::prelude::*;

verus! {

/// A flat snapshot of the whole machine as one record: memory,
/// registers, address register, program counter, timers, stack,
/// pixel buffer and key states side by side.
pub struct Chip8 {
    /// The current instruction word.
    pub opcode: u16,
    /// The 4096 memory bytes.
    pub memory: Vec<u8>,
    /// The 16 general-purpose registers.
    pub registers: Vec<u8>,
    /// The address register.
    pub index: u16,
    /// The program counter.
    pub program_counter: u16,
    /// The delay timer's counter.
    pub delay_timer: u8,
    /// The sound timer's counter.
    pub sound_timer: u8,
    /// The 16 stack slots.
    pub stack: Vec<u16>,
    /// The stack pointer.
    pub stack_pointer: u16,
    /// The 64 x 32 pixel buffer, row-major, one byte per pixel.
    pub graphics: Vec<u8>,
    /// The 16 key states, one byte per key.
    pub keys: Vec<u8>,
}

impl Chip8 {
    /// A machine snapshot with every cell allocated and zeroed.
    pub fn new() -> (r: Chip8)
        ensures
            r.opcode == 0u16,
            r.memory@ == Seq::new(4096, |i: int| 0u8),
            r.registers@ == Seq::new(16, |i: int| 0u8),
            r.index == 0u16,
            r.program_counter == 0u16,
            r.delay_timer == 0u8,
            r.sound_timer == 0u8,
            r.stack@ == Seq::new(16, |i: int| 0u16),
            r.stack_pointer == 0u16,
            r.graphics@ == Seq::new(2048, |i: int| 0u8),
            r.keys@ == Seq::new(16, |i: int| 0u8),
    {
        let r = Chip8 {
            opcode: 0,
            memory: vec![0u8; 4096],
            registers: vec![0u8; 16],
            index: 0,
            program_counter: 0,
            delay_timer: 0,
            sound_timer: 0,
            stack: vec![0u16; 16],
            stack_pointer: 0,
            graphics: vec![0u8; 2048],
            keys: vec![0u8; 16],
        };
        proof {
            assert(r.memory@ =~= Seq::new(4096, |i: int| 0u8));
            assert(r.registers@ =~= Seq::new(16, |i: int| 0u8));
            assert(r.stack@ =~= Seq::new(16, |i: int| 0u16));
            assert(r.graphics@ =~= Seq::new(2048, |i: int| 0u8));
            assert(r.keys@ =~= Seq::new(16, |i: int| 0u8));
        }
        r
    }
}

} // verus!
