//! Instruction-set emulation for a CHIP-8 machine and a partial Game Boy CPU.
use vstd::prelude::*;

pub mod chip8;
pub mod chip8_laws;
pub mod chip8_model;
pub mod cpu;
pub mod emulator;
pub mod error;
pub mod gameboy;
pub mod gameboy_laws;
pub mod gameboy_model;
pub mod lcg;
pub mod opcodes;

verus! {

} // verus!
