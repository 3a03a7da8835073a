//! The memory image: a 4 KiB byte array preloaded with the font table and the
//! program, which starts at 0x200 and may not spill past 0xEA0.

use vstd::prelude::*;

verus! {

/// Size of the memory image in bytes.
pub const MEMORY_SIZE: usize = 4096;

/// First address at which program bytes are placed.
pub const PROGRAM_START: usize = 0x200;

/// First reserved address past the program region; loading stops here.
pub const PROGRAM_END: usize = 0xEA0;

/// The font table written at address 0x000: sixteen 5-byte low-res digit
/// sprites, sixteen 10-byte high-res digit sprites with padding, and a
/// 6-bit ASCII glyph table.
pub const SPRITE_DATA: [u8; 448] = [
    0xF0, 0x90, 0x90, 0x90, 0xF0, 0x20, 0x60, 0x20, 0x20, 0x70, 0xF0, 0x10, 0xF0, 0x80, 0xF0, 0xF0,
    0x10, 0xF0, 0x10, 0xF0, 0xA0, 0xA0, 0xF0, 0x20, 0x20, 0xF0, 0x80, 0xF0, 0x10, 0xF0, 0xF0, 0x80,
    0xF0, 0x90, 0xF0, 0xF0, 0x10, 0x20, 0x40, 0x40, 0xF0, 0x90, 0xF0, 0x90, 0xF0, 0xF0, 0x90, 0xF0,
    0x10, 0xF0, 0xF0, 0x90, 0xF0, 0x90, 0x90, 0xE0, 0x90, 0xE0, 0x90, 0xE0, 0xF0, 0x80, 0x80, 0x80,
    0xF0, 0xE0, 0x90, 0x90, 0x90, 0xE0, 0xF0, 0x80, 0xF0, 0x80, 0xF0, 0xF0, 0x80, 0xF0, 0x80, 0x80,
    0x3C, 0x7E, 0xE7, 0xC3, 0xC3, 0xC3, 0xC3, 0xE7, 0x7E, 0x3C, 0x18, 0x38, 0x58, 0x18, 0x18, 0x18,
    0x18, 0x18, 0x18, 0x3C, 0x3E, 0x7F, 0xC3, 0x06, 0x0C, 0x18, 0x30, 0x60, 0xFF, 0xFF, 0x3C, 0x7E,
    0xC3, 0x03, 0x0E, 0x0E, 0x03, 0xC3, 0x7E, 0x3C, 0x06, 0x0E, 0x1E, 0x36, 0x66, 0xC6, 0xFF, 0xFF,
    0x06, 0x06, 0xFF, 0xFF, 0xC0, 0xC0, 0xFC, 0xFE, 0x03, 0xC3, 0x7E, 0x3C, 0x3E, 0x7C, 0xC0, 0xC0,
    0xFC, 0xFE, 0xC3, 0xC3, 0x7E, 0x3C, 0xFF, 0xFF, 0x03, 0x06, 0x0C, 0x18, 0x30, 0x60, 0x60, 0x60,
    0x3C, 0x7E, 0xC3, 0xC3, 0x7E, 0x7E, 0xC3, 0xC3, 0x7E, 0x3C, 0x3C, 0x7E, 0xC3, 0xC3, 0x7F, 0x3F,
    0x03, 0x03, 0x3E, 0x7C, 0x00, 0x00, 0x00, 0x00, 0x00, 0x00, 0x00, 0x00, 0x00, 0x00, 0x00, 0x00,
    0x00, 0x00, 0x00, 0x00, 0x00, 0x00, 0x00, 0x00, 0x00, 0x00, 0x00, 0x00, 0x00, 0x00, 0x00, 0x00,
    0x00, 0x00, 0x00, 0x00, 0x00, 0x00, 0x00, 0x00, 0x00, 0x00, 0x00, 0x00, 0x00, 0x00, 0x00, 0x00,
    0x00, 0x00, 0x00, 0x00, 0x00, 0x00, 0x00, 0x00, 0x00, 0x00, 0x00, 0x00, 0x00, 0x00, 0x00, 0x00,
    0x00, 0x10, 0x20, 0x88, 0xA8, 0x50, 0xF8, 0x70, 0x80, 0x90, 0xA0, 0xB0, 0xC0, 0xD0, 0xE0, 0xF0,
    0x46, 0x3E, 0x56, 0x99, 0x9F, 0x4F, 0x5F, 0x57, 0x4F, 0x8F, 0x88, 0x4F, 0x5F, 0x55, 0x4F, 0x8F,
    0x8F, 0x4F, 0x88, 0x8F, 0x4F, 0x9F, 0x8B, 0x4F, 0x99, 0x9F, 0x49, 0x27, 0x22, 0x47, 0xAE, 0x22,
    0x47, 0xA9, 0xAC, 0x49, 0x8F, 0x88, 0x48, 0x43, 0x64, 0x53, 0x99, 0xDB, 0x49, 0x9F, 0x99, 0x4F,
    0x88, 0x9F, 0x4F, 0x9F, 0x9B, 0x4F, 0xA9, 0x9F, 0x4F, 0x1F, 0x8F, 0x4F, 0x22, 0x22, 0x56, 0x9F,
    0x99, 0x49, 0x22, 0x55, 0x53, 0x55, 0x44, 0x54, 0x53, 0x52, 0x53, 0x22, 0x52, 0x53, 0xCF, 0x12,
    0x4F, 0x8C, 0x88, 0x3C, 0x10, 0xC2, 0x40, 0x2E, 0x22, 0x3E, 0x30, 0x25, 0x50, 0x06, 0x00, 0x50,
    0x00, 0x00, 0x40, 0x0C, 0xCC, 0x2C, 0x00, 0x50, 0x45, 0x65, 0x65, 0x55, 0x46, 0x46, 0x56, 0xDF,
    0xBF, 0x4F, 0x5F, 0xAF, 0x4E, 0x00, 0x80, 0x18, 0x21, 0x22, 0x41, 0x12, 0x11, 0x42, 0x53, 0x56,
    0x53, 0x22, 0x26, 0x52, 0x2E, 0x00, 0x30, 0x00, 0x06, 0x50, 0xCC, 0x00, 0x20, 0xC0, 0x12, 0x40,
    0x9F, 0x99, 0x4F, 0x22, 0x22, 0x32, 0x8F, 0x1F, 0x4F, 0x1F, 0x1F, 0x4F, 0x22, 0xAF, 0x4A, 0x1F,
    0x8F, 0x4F, 0x9F, 0x8F, 0x4F, 0x11, 0x11, 0x4F, 0x9F, 0x9F, 0x4F, 0x1F, 0x9F, 0x4F, 0x80, 0x80,
    0x10, 0x2E, 0x20, 0x30, 0x21, 0x2C, 0x41, 0xE0, 0xE0, 0x30, 0x2C, 0x21, 0x4C, 0x88, 0x1F, 0x4F,
];

/// Write the font table at the bottom of memory; all other bytes keep their
/// values.
pub fn load_fonts(memory: &mut Vec<u8>)
    requires
        old(memory)@.len() >= 448,
    ensures
        final(memory)@.len() == old(memory)@.len(),
        forall|j: int| 0 <= j < 448 ==> final(memory)@[j] == SPRITE_DATA@[j],
        forall|j: int| 448 <= j < old(memory)@.len() ==> final(memory)@[j] == old(memory)@[j],
{
    let mut i: usize = 0;
    while i < 448
        invariant
            i <= 448,
            memory@.len() == old(memory)@.len() >= 448,
            forall|j: int| 0 <= j < i ==> memory@[j] == SPRITE_DATA@[j],
            forall|j: int| i <= j < old(memory)@.len() ==> memory@[j] == old(memory)@[j],
        decreases 448 - i,
    {
        memory[i] = SPRITE_DATA[i];
        i = i + 1;
    }
}

/// Copy the program into memory starting at 0x200, stopping (and silently
/// truncating) once the destination reaches 0xEA0; all other bytes keep
/// their values.
pub fn load_program(memory: &mut Vec<u8>, program: &[u8])
    requires
        old(memory)@.len() == MEMORY_SIZE,
    ensures
        final(memory)@.len() == MEMORY_SIZE,
        forall|k: int|
            0 <= k < program@.len() && k < PROGRAM_END - PROGRAM_START ==> final(memory)@[
                PROGRAM_START + k
            ] == program@[k],
        forall|j: int|
            0 <= j < MEMORY_SIZE && !(PROGRAM_START <= j
                && j < PROGRAM_START + program@.len() && j < PROGRAM_END) ==> final(memory)@[j]
                == old(memory)@[j],
{
    let mut current_address: usize = PROGRAM_START;
    let mut k: usize = 0;
    while k < program.len() && current_address < PROGRAM_END
        invariant
            current_address == PROGRAM_START + k,
            k <= program@.len(),
            current_address <= PROGRAM_END,
            memory@.len() == MEMORY_SIZE,
            forall|j: int| 0 <= j < k ==> memory@[PROGRAM_START + j] == program@[j],
            forall|j: int|
                0 <= j < MEMORY_SIZE && !(PROGRAM_START <= j && j < PROGRAM_START + k)
                    ==> memory@[j] == old(memory)@[j],
        decreases program@.len() - k,
    {
        memory[current_address] = program[k];
        current_address = current_address + 1;
        k = k + 1;
    }
}

} // verus!
