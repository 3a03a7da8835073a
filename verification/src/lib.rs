//! A CHIP-8 virtual machine: a decoder from 16-bit big-endian words to typed
//! opcodes, a CPU dispatcher with bit-precise arithmetic and flag semantics, a
//! 64x32 XOR-blit framebuffer, timers, and a textual disassembler.

pub mod disassembler;
pub mod display;
pub mod emulator;
pub mod memory;
pub mod opcode;
pub mod runner;
pub mod sound;

use vstd::prelude::*;

verus! {

/// A 12-bit CHIP-8 address (carried in a 16-bit word).
pub type Address = u16;

/// An 8-bit immediate constant.
pub type Constant = u8;

/// An index into the sixteen general registers V0..VF.
pub type Register = u8;

} // verus!
