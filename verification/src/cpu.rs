use vstd::prelude::*;
use crate::keyboard::{lemma_lowest_pressed_from, lowest_pressed, Key, Keyboard, KeyboardError};
use crate::memory::{initial_memory, Memory, MemoryError, PROGRAM_START};
use crate::opcode::{opcode_wf, spec_decode, Opcode};
use crate::registers::{wrap_add, wrap_sub, Registers};
use crate::screen::{draw_collision, draw_result, Screen};
use crate::stack::{Stack, STACK_SIZE};
use crate::timers::{ticked, DelayTimer, SoundTimer, Timer};

verus! {

/// Failure of one machine cycle.
#[derive(Debug, Clone, Copy, PartialEq, Eq, Structural)]
pub enum CpuError {
    /// A memory access, the instruction fetch included, fell outside
    /// the 4096-byte store.
    MemoryError(MemoryError),
    /// A key access fell outside the 16-key pad.
    KeyboardError(KeyboardError),
    /// A subroutine call found the 16-entry stack full.
    StackOverflow,
    /// A subroutine return found the stack empty.
    StackUnderflow,
    /// The fetched word matches no documented instruction form.
    UnknownOpcode(u16),
}

impl From<MemoryError> for CpuError {
    fn from(error: MemoryError) -> (r: Self) {
        CpuError::MemoryError(error)
    }
}

impl vstd::std_specs::convert::FromSpecImpl<MemoryError> for CpuError {
    open spec fn obeys_from_spec() -> bool {
        true
    }

    open spec fn from_spec(error: MemoryError) -> Self {
        CpuError::MemoryError(error)
    }
}

impl From<KeyboardError> for CpuError {
    fn from(error: KeyboardError) -> (r: Self) {
        CpuError::KeyboardError(error)
    }
}

impl vstd::std_specs::convert::FromSpecImpl<KeyboardError> for CpuError {
    open spec fn obeys_from_spec() -> bool {
        true
    }

    open spec fn from_spec(error: KeyboardError) -> Self {
        CpuError::KeyboardError(error)
    }
}

/// The whole machine state, as specifications see it.
#[verifier::ext_equal]
pub ghost struct CpuState {
    /// The last fetched instruction word.
    pub opcode: u16,
    /// The 4096 memory bytes.
    pub memory: Seq<u8>,
    /// The 16 register values.
    pub registers: Seq<u8>,
    /// The address register.
    pub index: u16,
    /// The program counter.
    pub pc: u16,
    /// The delay timer's counter.
    pub delay: u8,
    /// The sound timer's counter.
    pub sound: u8,
    /// Whether the latest tick moved the sound timer from 1 to 0.
    pub beep: bool,
    /// The return addresses on the call stack, bottom first.
    pub stack: Seq<u16>,
    /// The 2048 pixel states in row-major order.
    pub screen: Seq<bool>,
    /// The 16 key states.
    pub keys: Seq<Key>,
}

/// The state of a freshly created machine: glyph table seeded, program
/// counter at 0x200, everything else cleared.
pub open spec fn initial_cpu() -> CpuState {
    CpuState {
        opcode: 0u16,
        memory: initial_memory(),
        registers: Seq::new(16, |i: int| 0u8),
        index: 0u16,
        pc: PROGRAM_START,
        delay: 0u8,
        sound: 0u8,
        beep: false,
        stack: Seq::<u16>::empty(),
        screen: Seq::new(2048, |p: int| false),
        keys: Seq::new(16, |i: int| Key::Released),
    }
}

/// The instruction word at the program counter: two bytes, high byte
/// first; fails on the first byte whose address leaves memory.
pub open spec fn spec_fetch(s: CpuState) -> Result<u16, MemoryError> {
    if s.pc >= 4096 {
        Err(MemoryError::OutOfBounds(s.pc))
    } else if s.pc + 1 >= 4096 {
        Err(MemoryError::OutOfBounds((s.pc + 1) as u16))
    } else {
        Ok((s.memory[s.pc as int] * 256 + s.memory[s.pc as int + 1]) as u16)
    }
}

/// Both timers one tick later; the beep signal reports whether that
/// tick moved the sound timer from 1 to 0.
pub open spec fn spec_tick_timers(s: CpuState) -> CpuState {
    CpuState { delay: ticked(s.delay), sound: ticked(s.sound), beep: s.sound == 1u8, ..s }
}

/// The effect of one decoded instruction on the machine state: the
/// state after the instruction and its outcome. The program counter
/// advances by 2 past the instruction, by 4 on a taken skip, and is set
/// absolutely by jumps, calls and returns. `rnd` is the byte drawn for
/// the random-number instruction. A failed instruction leaves the
/// state as it was.
pub open spec fn spec_exec_op(s: CpuState, op: Opcode, rnd: u8) -> (CpuState, Result<
    (),
    CpuError,
>) {
    match op {
        Opcode::ClearScreen => (
            CpuState { screen: Seq::new(2048, |p: int| false), pc: (s.pc + 2) as u16, ..s },
            Ok(()),
        ),
        Opcode::ReturnFromSubroutine => {
            if s.stack.len() == 0 {
                (s, Err(CpuError::StackUnderflow))
            } else {
                (
                    CpuState {
                        pc: if s.stack.last() + 2 <= 0xFFFF {
                            (s.stack.last() + 2) as u16
                        } else {
                            (s.stack.last() + 2 - 0x10000) as u16
                        },
                        stack: s.stack.drop_last(),
                        ..s
                    },
                    Ok(()),
                )
            }
        },
        Opcode::JumpToAddress { address } => (CpuState { pc: address, ..s }, Ok(())),
        Opcode::CallAddress { address } => {
            if s.stack.len() >= 16 {
                (s, Err(CpuError::StackOverflow))
            } else {
                (CpuState { pc: address, stack: s.stack.push(s.pc), ..s }, Ok(()))
            }
        },
        Opcode::SkipIfEqual { register, byte } => (
            CpuState {
                pc: if s.registers[register as int] == byte {
                    (s.pc + 4) as u16
                } else {
                    (s.pc + 2) as u16
                },
                ..s
            },
            Ok(()),
        ),
        Opcode::SkipIfNotEqual { register, byte } => (
            CpuState {
                pc: if s.registers[register as int] != byte {
                    (s.pc + 4) as u16
                } else {
                    (s.pc + 2) as u16
                },
                ..s
            },
            Ok(()),
        ),
        Opcode::SkipIfRegistersEqual { register1, register2 } => (
            CpuState {
                pc: if s.registers[register1 as int] == s.registers[register2 as int] {
                    (s.pc + 4) as u16
                } else {
                    (s.pc + 2) as u16
                },
                ..s
            },
            Ok(()),
        ),
        Opcode::SetRegisterToByte { register, byte } => (
            CpuState {
                registers: s.registers.update(register as int, byte),
                pc: (s.pc + 2) as u16,
                ..s
            },
            Ok(()),
        ),
        Opcode::AddByteToRegister { register, byte } => (
            CpuState {
                registers: s.registers.update(
                    register as int,
                    wrap_add(s.registers[register as int], byte),
                ),
                pc: (s.pc + 2) as u16,
                ..s
            },
            Ok(()),
        ),
        Opcode::SetRegisterToRegister { register1, register2 } => (
            CpuState {
                registers: s.registers.update(register1 as int, s.registers[register2 as int]),
                pc: (s.pc + 2) as u16,
                ..s
            },
            Ok(()),
        ),
        Opcode::SetRegisterToRegisterOrRegister { register1, register2 } => (
            CpuState {
                registers: s.registers.update(
                    register1 as int,
                    s.registers[register1 as int] | s.registers[register2 as int],
                ),
                pc: (s.pc + 2) as u16,
                ..s
            },
            Ok(()),
        ),
        Opcode::SetRegisterToRegisterAndRegister { register1, register2 } => (
            CpuState {
                registers: s.registers.update(
                    register1 as int,
                    s.registers[register1 as int] & s.registers[register2 as int],
                ),
                pc: (s.pc + 2) as u16,
                ..s
            },
            Ok(()),
        ),
        Opcode::SetRegisterToRegisterXorRegister { register1, register2 } => (
            CpuState {
                registers: s.registers.update(
                    register1 as int,
                    s.registers[register1 as int] ^ s.registers[register2 as int],
                ),
                pc: (s.pc + 2) as u16,
                ..s
            },
            Ok(()),
        ),
        Opcode::AddRegisterToRegister { register1, register2 } => (
            CpuState {
                registers: s.registers.update(
                    register1 as int,
                    wrap_add(s.registers[register1 as int], s.registers[register2 as int]),
                ).update(
                    15,
                    if s.registers[register1 as int] + s.registers[register2 as int] >= 256 {
                        1u8
                    } else {
                        0u8
                    },
                ),
                pc: (s.pc + 2) as u16,
                ..s
            },
            Ok(()),
        ),
        Opcode::SubtractRegisterFromRegister { register1, register2 } => (
            CpuState {
                registers: s.registers.update(
                    register1 as int,
                    wrap_sub(s.registers[register1 as int], s.registers[register2 as int]),
                ).update(
                    15,
                    if s.registers[register1 as int] >= s.registers[register2 as int] {
                        1u8
                    } else {
                        0u8
                    },
                ),
                pc: (s.pc + 2) as u16,
                ..s
            },
            Ok(()),
        ),
        Opcode::ShiftRegisterRight { register } => (
            CpuState {
                registers: s.registers.update(15, (s.registers[register as int] % 2) as u8).update(
                    register as int,
                    (s.registers[register as int] / 2) as u8,
                ),
                pc: (s.pc + 2) as u16,
                ..s
            },
            Ok(()),
        ),
        Opcode::SetRegisterToRegisterMinusRegister { register1, register2 } => (
            CpuState {
                registers: s.registers.update(
                    register1 as int,
                    wrap_sub(s.registers[register2 as int], s.registers[register1 as int]),
                ).update(
                    15,
                    if s.registers[register2 as int] >= s.registers[register1 as int] {
                        1u8
                    } else {
                        0u8
                    },
                ),
                pc: (s.pc + 2) as u16,
                ..s
            },
            Ok(()),
        ),
        Opcode::ShiftRegisterLeft { register } => (
            CpuState {
                registers: s.registers.update(
                    15,
                    (s.registers[register as int] / 128) as u8,
                ).update(register as int, ((s.registers[register as int] % 128) * 2) as u8),
                pc: (s.pc + 2) as u16,
                ..s
            },
            Ok(()),
        ),
        Opcode::SkipIfRegisterNotEqualRegister { register1, register2 } => (
            CpuState {
                pc: if s.registers[register1 as int] != s.registers[register2 as int] {
                    (s.pc + 4) as u16
                } else {
                    (s.pc + 2) as u16
                },
                ..s
            },
            Ok(()),
        ),
        Opcode::SetIndexToAddress { address } => (
            CpuState { index: address, pc: (s.pc + 2) as u16, ..s },
            Ok(()),
        ),
        Opcode::JumpToAddressPlusRegister0 { address } => (
            CpuState { pc: (address + s.registers[0]) as u16, ..s },
            Ok(()),
        ),
        Opcode::SetRegisterToRandAndByte { register, byte } => (
            CpuState {
                registers: s.registers.update(register as int, rnd & byte),
                pc: (s.pc + 2) as u16,
                ..s
            },
            Ok(()),
        ),
        Opcode::DrawSprite { register1, register2, size } => {
            if s.index + size > 4096 {
                (s, Err(CpuError::MemoryError(MemoryError::OutOfBounds(s.index))))
            } else {
                let sprite = s.memory.subrange(s.index as int, s.index + size);
                let x = s.registers[register1 as int] as int;
                let y = s.registers[register2 as int] as int;
                let collided = draw_collision(s.screen, x, y, sprite);
                (
                    CpuState {
                        screen: draw_result(s.screen, x, y, sprite),
                        registers: s.registers.update(
                            15,
                            if collided {
                                1u8
                            } else {
                                0u8
                            },
                        ),
                        pc: (s.pc + 2) as u16,
                        ..s
                    },
                    Ok(()),
                )
            }
        },
        Opcode::SkipIfKeyPressed { key } => (
            CpuState {
                pc: if s.keys[key as int] == Key::Pressed {
                    (s.pc + 4) as u16
                } else {
                    (s.pc + 2) as u16
                },
                ..s
            },
            Ok(()),
        ),
        Opcode::SkipIfKeyNotPressed { key } => (
            CpuState {
                pc: if s.keys[key as int] != Key::Pressed {
                    (s.pc + 4) as u16
                } else {
                    (s.pc + 2) as u16
                },
                ..s
            },
            Ok(()),
        ),
        Opcode::SetRegisterToDelayTimer { register } => (
            CpuState {
                registers: s.registers.update(register as int, s.delay),
                pc: (s.pc + 2) as u16,
                ..s
            },
            Ok(()),
        ),
        Opcode::WaitForKeyPress { key } => {
            match lowest_pressed(s.keys) {
                Some(k) => (
                    CpuState {
                        registers: s.registers.update(key as int, k),
                        pc: (s.pc + 2) as u16,
                        ..s
                    },
                    Ok(()),
                ),
                None => (s, Ok(())),
            }
        },
        Opcode::SetDelayTimerToRegister { register } => (
            CpuState { delay: s.registers[register as int], pc: (s.pc + 2) as u16, ..s },
            Ok(()),
        ),
        Opcode::SetSoundTimerToRegister { register } => (
            CpuState { sound: s.registers[register as int], pc: (s.pc + 2) as u16, ..s },
            Ok(()),
        ),
        Opcode::AddRegisterToIndex { register } => (
            CpuState {
                index: if s.index + s.registers[register as int] <= 0xFFFF {
                    (s.index + s.registers[register as int]) as u16
                } else {
                    (s.index + s.registers[register as int] - 0x10000) as u16
                },
                pc: (s.pc + 2) as u16,
                ..s
            },
            Ok(()),
        ),
        Opcode::SetIndexToSpriteLocation { register } => (
            CpuState {
                index: (s.registers[register as int] * 5) as u16,
                pc: (s.pc + 2) as u16,
                ..s
            },
            Ok(()),
        ),
        Opcode::StoreBCD { register } => {
            if s.index + 3 > 4096 {
                (s, Err(CpuError::MemoryError(MemoryError::OutOfBounds(s.index))))
            } else {
                let v = s.registers[register as int];
                (
                    CpuState {
                        memory: s.memory.update(s.index as int, (v / 100) as u8).update(
                            s.index + 1,
                            ((v / 10) % 10) as u8,
                        ).update(s.index + 2, (v % 10) as u8),
                        pc: (s.pc + 2) as u16,
                        ..s
                    },
                    Ok(()),
                )
            }
        },
        Opcode::StoreRegisters { last_index } => {
            if s.index + last_index + 1 > 4096 {
                (s, Err(CpuError::MemoryError(MemoryError::OutOfBounds(s.index))))
            } else {
                (
                    CpuState {
                        memory: Seq::new(
                            4096,
                            |i: int|
                                if s.index <= i < s.index + last_index + 1 {
                                    s.registers[i - s.index]
                                } else {
                                    s.memory[i]
                                },
                        ),
                        pc: (s.pc + 2) as u16,
                        ..s
                    },
                    Ok(()),
                )
            }
        },
        Opcode::LoadRegisters { last_memory_address } => {
            if s.index + last_memory_address + 1 > 4096 {
                (s, Err(CpuError::MemoryError(MemoryError::OutOfBounds(s.index))))
            } else {
                (
                    CpuState {
                        registers: Seq::new(
                            16,
                            |i: int|
                                if 0 <= i < last_memory_address + 1 {
                                    s.memory[s.index + i]
                                } else {
                                    s.registers[i]
                                },
                        ),
                        pc: (s.pc + 2) as u16,
                        ..s
                    },
                    Ok(()),
                )
            }
        },
    }
}

/// One whole machine cycle on state `s` with random byte `rnd`: fetch
/// the word at the program counter, record it, decode it, execute it,
/// and, when execution succeeded, tick both timers. A fetch failure
/// leaves the state untouched; an unknown word or a failed instruction
/// stops before the timer tick.
pub open spec fn spec_cycle(s: CpuState, rnd: u8) -> (CpuState, Result<(), CpuError>) {
    match spec_fetch(s) {
        Err(e) => (s, Err(CpuError::MemoryError(e))),
        Ok(w) => {
            let s1 = CpuState { opcode: w, ..s };
            match spec_decode(w) {
                None => (s1, Err(CpuError::UnknownOpcode(w))),
                Some(op) => {
                    let (s2, outcome) = spec_exec_op(s1, op, rnd);
                    match outcome {
                        Err(e) => (s2, Err(e)),
                        Ok(_) => (spec_tick_timers(s2), Ok(())),
                    }
                },
            }
        },
    }
}

/// The machine: memory, registers, address register, program counter,
/// timers, call stack, screen and key latch, driven one cycle at a
/// time.
pub struct Cpu {
    /// The last fetched instruction word, kept for diagnostics.
    pub opcode: u16,
    /// The 4096-byte store.
    pub memory: Memory,
    /// The 16 general-purpose registers.
    pub registers: Registers,
    /// The address register.
    pub index: u16,
    /// The program counter.
    pub program_counter: u16,
    /// The delay timer.
    pub delay_timer: DelayTimer,
    /// The sound timer.
    pub sound_timer: SoundTimer,
    /// The call stack.
    pub stack: Stack,
    /// The screen.
    pub screen: Screen,
    /// The key latch, fed by the external input source.
    pub keyboard_state: Keyboard,
}

impl View for Cpu {
    type V = CpuState;

    /// The machine state as one value.
    open spec fn view(&self) -> CpuState {
        CpuState {
            opcode: self.opcode,
            memory: self.memory@,
            registers: self.registers@,
            index: self.index,
            pc: self.program_counter,
            delay: self.delay_timer.timer_value(),
            sound: self.sound_timer.timer_value(),
            beep: self.sound_timer.beep_signal(),
            stack: self.stack@,
            screen: self.screen@,
            keys: self.keyboard_state@,
        }
    }
}

impl Cpu {
    /// Every component holds its fixed number of cells and the stack
    /// is within its 16-entry capacity.
    pub open spec fn wf(&self) -> bool {
        &&& self.memory.wf()
        &&& self.registers.wf()
        &&& self.screen.wf()
        &&& self.keyboard_state.wf()
        &&& self.stack@.len() <= STACK_SIZE
    }

    /// A machine ready to run: glyph table seeded, program counter at
    /// 0x200, everything else cleared.
    pub fn new() -> (r: Cpu)
        ensures
            r.wf(),
            r@ == initial_cpu(),
    {
        let chip = Cpu {
            opcode: 0,
            memory: Memory::new(),
            registers: Registers::new(),
            index: 0,
            program_counter: PROGRAM_START,
            delay_timer: DelayTimer::new(),
            sound_timer: SoundTimer::new(),
            stack: Stack::new(),
            screen: Screen::new(),
            keyboard_state: Keyboard::new(),
        };
        proof {
            assert(chip@ =~= initial_cpu());
        }
        chip
    }

    /// Moves the program counter past `times` two-byte instructions.
    fn increment_program_counter(&mut self, times: u16)
        requires
            old(self).program_counter + 2 * times <= 0xFFFF,
        ensures
            *final(self) == (Cpu {
                program_counter: (old(self).program_counter + 2 * times) as u16,
                ..*old(self)
            }),
    {
        self.program_counter = self.program_counter + 2 * times;
    }

    /// Reads the two instruction bytes at the program counter, high
    /// byte first.
    fn fetch_opcode(&self) -> (r: Result<u16, MemoryError>)
        requires
            self.wf(),
        ensures
            r == spec_fetch(self@),
    {
        let byte1 = match self.memory.get_byte(self.program_counter) {
            Ok(b) => b,
            Err(e) => {
                return Err(e);
            },
        };
        let byte2 = match self.memory.get_byte(self.program_counter + 1) {
            Ok(b) => b,
            Err(e) => {
                return Err(e);
            },
        };
        Ok((byte1 as u16) * 256 + (byte2 as u16))
    }

    /// Whether the latest cycle's timer tick moved the sound timer from
    /// 1 to 0, owing the listener a beep.
    pub fn beep(&self) -> (r: bool)
        ensures
            r == self@.beep,
    {
        self.sound_timer.beep()
    }

    /// Copies a program image into memory starting at 0x200; rejects an
    /// image longer than the 3584 bytes above that address, changing
    /// nothing.
    pub fn load_rom(&mut self, rom: &[u8]) -> (r: Result<(), MemoryError>)
        requires
            old(self).wf(),
        ensures
            final(self).wf(),
            rom@.len() > 3584 ==> r == Err::<(), MemoryError>(
                MemoryError::OutOfBounds(PROGRAM_START),
            ) && final(self)@ == old(self)@,
            rom@.len() <= 3584 ==> r == Ok::<(), MemoryError>(()) && final(self)@ == (CpuState {
                memory: Seq::new(
                    4096,
                    |i: int|
                        if 0x200 <= i < 0x200 + rom@.len() {
                            rom@[i - 0x200]
                        } else {
                            old(self)@.memory[i]
                        },
                ),
                ..old(self)@
            }),
    {
        let r = self.memory.load_rom(rom);
        proof {
            if rom@.len() <= 3584 {
                assert(self@ =~= CpuState {
                    memory: Seq::new(
                        4096,
                        |i: int|
                            if 0x200 <= i < 0x200 + rom@.len() {
                                rom@[i - 0x200]
                            } else {
                                old(self)@.memory[i]
                            },
                    ),
                    ..old(self)@
                });
            }
        }
        r
    }

    /// One machine cycle driven by the given random byte: exactly
    /// `spec_cycle` of the old state, so every outcome of the
    /// random-number instruction is covered by the caller's choice of
    /// `rnd`.
    pub fn emulate_cycle_with_random(&mut self, rnd: u8) -> (r: Result<(), CpuError>)
        requires
            old(self).wf(),
        ensures
            final(self).wf(),
            final(self)@ == spec_cycle(old(self)@, rnd).0,
            r == spec_cycle(old(self)@, rnd).1,
    {
        let ghost pre = self@;
        let word = match self.fetch_opcode() {
            Ok(w) => w,
            Err(e) => {
                return Err(CpuError::MemoryError(e));
            },
        };
        self.opcode = word;
        let ghost s1 = self@;
        let decoded = match Opcode::decode(word) {
            Some(op) => op,
            None => {
                return Err(CpuError::UnknownOpcode(word));
            },
        };
        let ghost dop = decoded;
        match decoded {
            Opcode::ClearScreen => {
                self.screen.clear();
                self.increment_program_counter(1);
                proof {
                    assert(self@ =~= spec_exec_op(s1, dop, rnd).0);
                }
            },
            Opcode::ReturnFromSubroutine => {
                if self.stack.len() == 0 {
                    return Err(CpuError::StackUnderflow);
                }
                let popped = self.stack.pop();
                self.program_counter = if popped <= 0xFFFD {
                    popped + 2
                } else {
                    popped - 0xFFFE
                };
                proof {
                    assert(self@ =~= spec_exec_op(s1, dop, rnd).0);
                }
            },
            Opcode::JumpToAddress { address } => {
                self.program_counter = address;
                proof {
                    assert(self@ =~= spec_exec_op(s1, dop, rnd).0);
                }
            },
            Opcode::CallAddress { address } => {
                if self.stack.len() >= STACK_SIZE {
                    return Err(CpuError::StackOverflow);
                }
                self.stack.push(self.program_counter);
                self.program_counter = address;
                proof {
                    assert(self@ =~= spec_exec_op(s1, dop, rnd).0);
                }
            },
            Opcode::SkipIfEqual { register, byte } => {
                let x = self.registers.read(register).unwrap();
                self.increment_program_counter(if x == byte { 2 } else { 1 });
                proof {
                    assert(self@ =~= spec_exec_op(s1, dop, rnd).0);
                }
            },
            Opcode::SkipIfNotEqual { register, byte } => {
                let x = self.registers.read(register).unwrap();
                self.increment_program_counter(if x != byte { 2 } else { 1 });
                proof {
                    assert(self@ =~= spec_exec_op(s1, dop, rnd).0);
                }
            },
            Opcode::SkipIfRegistersEqual { register1, register2 } => {
                let x = self.registers.read(register1).unwrap();
                let y = self.registers.read(register2).unwrap();
                self.increment_program_counter(if x == y { 2 } else { 1 });
                proof {
                    assert(self@ =~= spec_exec_op(s1, dop, rnd).0);
                }
            },
            Opcode::SetRegisterToByte { register, byte } => {
                self.registers.write(register, byte).unwrap();
                self.increment_program_counter(1);
                proof {
                    assert(self@ =~= spec_exec_op(s1, dop, rnd).0);
                }
            },
            Opcode::AddByteToRegister { register, byte } => {
                self.registers.add_byte(register, byte).unwrap();
                self.increment_program_counter(1);
                proof {
                    assert(self@ =~= spec_exec_op(s1, dop, rnd).0);
                }
            },
            Opcode::SetRegisterToRegister { register1, register2 } => {
                self.registers.copy(register1, register2).unwrap();
                self.increment_program_counter(1);
                proof {
                    assert(self@ =~= spec_exec_op(s1, dop, rnd).0);
                }
            },
            Opcode::SetRegisterToRegisterOrRegister { register1, register2 } => {
                self.registers.or(register1, register2).unwrap();
                self.increment_program_counter(1);
                proof {
                    assert(self@ =~= spec_exec_op(s1, dop, rnd).0);
                }
            },
            Opcode::SetRegisterToRegisterAndRegister { register1, register2 } => {
                self.registers.and(register1, register2).unwrap();
                self.increment_program_counter(1);
                proof {
                    assert(self@ =~= spec_exec_op(s1, dop, rnd).0);
                }
            },
            Opcode::SetRegisterToRegisterXorRegister { register1, register2 } => {
                self.registers.xor(register1, register2).unwrap();
                self.increment_program_counter(1);
                proof {
                    assert(self@ =~= spec_exec_op(s1, dop, rnd).0);
                }
            },
            Opcode::AddRegisterToRegister { register1, register2 } => {
                self.registers.add_with_overflow(register1, register2).unwrap();
                self.increment_program_counter(1);
                proof {
                    assert(self@ =~= spec_exec_op(s1, dop, rnd).0);
                }
            },
            Opcode::SubtractRegisterFromRegister { register1, register2 } => {
                self.registers.subtract_with_overflow(register1, register2).unwrap();
                self.increment_program_counter(1);
                proof {
                    assert(self@ =~= spec_exec_op(s1, dop, rnd).0);
                }
            },
            Opcode::ShiftRegisterRight { register } => {
                self.registers.shift_right(register).unwrap();
                self.increment_program_counter(1);
                proof {
                    assert(self@ =~= spec_exec_op(s1, dop, rnd).0);
                }
            },
            Opcode::SetRegisterToRegisterMinusRegister { register1, register2 } => {
                self.registers.subtract_with_overflow_reversed(register1, register2).unwrap();
                self.increment_program_counter(1);
                proof {
                    assert(self@ =~= spec_exec_op(s1, dop, rnd).0);
                }
            },
            Opcode::ShiftRegisterLeft { register } => {
                self.registers.shift_left(register).unwrap();
                self.increment_program_counter(1);
                proof {
                    assert(self@ =~= spec_exec_op(s1, dop, rnd).0);
                }
            },
            Opcode::SkipIfRegisterNotEqualRegister { register1, register2 } => {
                let x = self.registers.read(register1).unwrap();
                let y = self.registers.read(register2).unwrap();
                self.increment_program_counter(if x != y { 2 } else { 1 });
                proof {
                    assert(self@ =~= spec_exec_op(s1, dop, rnd).0);
                }
            },
            Opcode::SetIndexToAddress { address } => {
                self.index = address;
                self.increment_program_counter(1);
                proof {
                    assert(self@ =~= spec_exec_op(s1, dop, rnd).0);
                }
            },
            Opcode::JumpToAddressPlusRegister0 { address } => {
                let v0 = self.registers.read(0).unwrap();
                self.program_counter = address + v0 as u16;
                proof {
                    assert(self@ =~= spec_exec_op(s1, dop, rnd).0);
                }
            },
            Opcode::SetRegisterToRandAndByte { register, byte } => {
                self.registers.write(register, rnd & byte).unwrap();
                self.increment_program_counter(1);
                proof {
                    assert(self@ =~= spec_exec_op(s1, dop, rnd).0);
                }
            },
            Opcode::DrawSprite { register1, register2, size } => {
                let x = self.registers.read(register1).unwrap();
                let y = self.registers.read(register2).unwrap();
                let sprite = match self.memory.get_bytes(self.index, size as u16) {
                    Ok(bytes) => bytes,
                    Err(e) => {
                        return Err(CpuError::MemoryError(e));
                    },
                };
                let collided = self.screen.draw(x as usize, y as usize, sprite.as_slice());
                self.registers.write(0xF, if collided { 1 } else { 0 }).unwrap();
                self.increment_program_counter(1);
                proof {
                    assert(self@ =~= spec_exec_op(s1, dop, rnd).0);
                }
            },
            Opcode::SkipIfKeyPressed { key } => {
                let is_pressed = self.keyboard_state.is_key_pressed(key).unwrap();
                self.increment_program_counter(if is_pressed { 2 } else { 1 });
                proof {
                    assert(self@ =~= spec_exec_op(s1, dop, rnd).0);
                }
            },
            Opcode::SkipIfKeyNotPressed { key } => {
                let is_pressed = self.keyboard_state.is_key_pressed(key).unwrap();
                self.increment_program_counter(if !is_pressed { 2 } else { 1 });
                proof {
                    assert(self@ =~= spec_exec_op(s1, dop, rnd).0);
                }
            },
            Opcode::SetRegisterToDelayTimer { register } => {
                let v = self.delay_timer.get_value();
                self.registers.write(register, v).unwrap();
                self.increment_program_counter(1);
                proof {
                    assert(self@ =~= spec_exec_op(s1, dop, rnd).0);
                }
            },
            Opcode::WaitForKeyPress { key } => {
                let pressed_key = self.keyboard_state.get_pressed_key();
                proof {
                    lemma_lowest_pressed_from(self.keyboard_state@, 0);
                }
                if let Some(k) = pressed_key {
                    self.registers.write(key, k).unwrap();
                    self.increment_program_counter(1);
                }
                proof {
                    assert(self@ =~= spec_exec_op(s1, dop, rnd).0);
                }
            },
            Opcode::SetDelayTimerToRegister { register } => {
                let x = self.registers.read(register).unwrap();
                self.delay_timer.set_value(x);
                self.increment_program_counter(1);
                proof {
                    assert(self@ =~= spec_exec_op(s1, dop, rnd).0);
                }
            },
            Opcode::SetSoundTimerToRegister { register } => {
                let x = self.registers.read(register).unwrap();
                self.sound_timer.set_value(x);
                self.increment_program_counter(1);
                proof {
                    assert(self@ =~= spec_exec_op(s1, dop, rnd).0);
                }
            },
            Opcode::AddRegisterToIndex { register } => {
                let x = self.registers.read(register).unwrap();
                let sum: u32 = self.index as u32 + x as u32;
                self.index = if sum > 0xFFFF {
                    (sum - 0x10000) as u16
                } else {
                    sum as u16
                };
                self.increment_program_counter(1);
                proof {
                    assert(self@ =~= spec_exec_op(s1, dop, rnd).0);
                }
            },
            Opcode::SetIndexToSpriteLocation { register } => {
                let x = self.registers.read(register).unwrap();
                self.index = x as u16 * 5;
                self.increment_program_counter(1);
                proof {
                    assert(self@ =~= spec_exec_op(s1, dop, rnd).0);
                }
            },
            Opcode::StoreBCD { register } => {
                let decimal = self.registers.read(register).unwrap();
                match self.memory.store_binary_coded_decimal(self.index, decimal) {
                    Ok(_) => {},
                    Err(e) => {
                        return Err(CpuError::MemoryError(e));
                    },
                }
                self.increment_program_counter(1);
                proof {
                    assert(self@ =~= spec_exec_op(s1, dop, rnd).0);
                }
            },
            Opcode::StoreRegisters { last_index } => {
                let bytes = self.registers.read_multiple(0, last_index + 1).unwrap();
                match self.memory.set_bytes(self.index, bytes.as_slice()) {
                    Ok(_) => {},
                    Err(e) => {
                        return Err(CpuError::MemoryError(e));
                    },
                }
                self.increment_program_counter(1);
                proof {
                    assert(self@ =~= spec_exec_op(s1, dop, rnd).0);
                }
            },
            Opcode::LoadRegisters { last_memory_address } => {
                let bytes = match self.memory.get_bytes(self.index, last_memory_address as u16
                    + 1) {
                    Ok(bytes) => bytes,
                    Err(e) => {
                        return Err(CpuError::MemoryError(e));
                    },
                };
                self.registers.write_multiple(0, bytes.as_slice()).unwrap();
                self.increment_program_counter(1);
                proof {
                    assert(self@ =~= spec_exec_op(s1, dop, rnd).0);
                }
            },
        }
        let ghost s2 = self@;
        proof {
            assert(spec_exec_op(s1, dop, rnd).1 == Ok::<(), CpuError>(()));
        }
        self.delay_timer.update();
        self.sound_timer.update();
        proof {
            assert(self@ =~= spec_tick_timers(s2));
        }
        Ok(())
    }

    /// One whole machine cycle: fetch, decode, execute, then tick both
    /// timers. The state moves exactly as `spec_cycle` describes for
    /// the byte the random-number source happened to draw.
    pub fn emulate_cycle(&mut self) -> (r: Result<(), CpuError>)
        requires
            old(self).wf(),
        ensures
            final(self).wf(),
            exists|rnd: u8|
                #![auto]
                final(self)@ == spec_cycle(old(self)@, rnd).0 && r == spec_cycle(
                    old(self)@,
                    rnd,
                ).1,
    {
        let rnd = random_byte();
        let r = self.emulate_cycle_with_random(rnd);
        r
    }
}

/// Relies on rand::random: one byte from the thread-local generator.
/// Nothing is promised of its value; the caller covers every outcome.
#[verifier::external_body]
fn random_byte() -> u8 {
    rand::random()
}

} // verus!
