//! A verified interpreter core for an 8-bit bytecode machine with a
//! 64x32 monochrome framebuffer, sixteen 8-bit registers, a call stack,
//! two countdown timers and a 16-key input latch.

pub mod chip8;
pub mod cpu;
pub mod keyboard;
pub mod memory;
pub mod opcode;
pub mod registers;
pub mod screen;
pub mod stack;
pub mod timers;
