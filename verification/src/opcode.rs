//! The opcode decoder: every 16-bit big-endian word either names exactly one
//! instruction or is reported back as a pair of data bytes.

use vstd::prelude::*;

use crate::{Address, Constant, Register};

verus! {

/// One decoded CHIP-8 instruction.
#[derive(Clone, Copy, Debug, PartialEq, Eq, Structural)]
pub enum Opcode {
    Call(Address),
    Clear,
    Return,
    Goto(Address),
    CallFunction(Address),
    SkipEq(Register, Constant),
    SkipNEq(Register, Constant),
    SkipEqReg(Register, Register),
    SetConst(Register, Constant),
    AddAssign(Register, Constant),
    Copy(Register, Register),
    Or(Register, Register),
    And(Register, Register),
    Xor(Register, Register),
    AddAssignReg(Register, Register),
    SubAssignReg(Register, Register),
    ShiftRight(Register, Register),
    Subtract(Register, Register),
    ShiftLeft(Register, Register),
    SkipNEqReg(Register, Register),
    SetAddressReg(Address),
    JumpOffset(Address),
    SetRand(Register, Constant),
    Draw(Register, Register, Constant),
    SkipKeyPress(Register),
    SkipNoKeyPress(Register),
    StoreDelayTimer(Register),
    StoreKeypress(Register),
    SetDelayTimer(Register),
    SetSoundTimer(Register),
    IncrementAddressReg(Register),
    StoreSpriteAddress(Register),
    BinaryCodedDecimal(Register),
    Dump(Register),
    Load(Register),
}

/// A word that names no instruction; it holds one of its bytes, widened.
#[derive(Clone, Copy, Debug, PartialEq, Eq, Structural)]
pub struct Data(pub Address);

/// The 12-bit address `nnn` packed into the low nibble of the first byte and
/// the whole second byte.
pub open spec fn spec_address(b1: u8, b2: u8) -> Address {
    ((b1 % 16) as u16 * 256 + b2 as u16) as Address
}

/// What decoding the big-endian word (b1, b2) yields: the unique matching
/// instruction, or the two bytes back as data.
pub open spec fn spec_decode(b1: u8, b2: u8) -> Result<Opcode, (Data, Data)> {
    let n0 = b1 / 16;
    let x = b1 % 16;
    let n2 = b2 / 16;
    let n3 = b2 % 16;
    let nnn = spec_address(b1, b2);
    if b1 == 0x00 && b2 == 0xE0 {
        Ok(Opcode::Clear)
    } else if b1 == 0x00 && b2 == 0xEE {
        Ok(Opcode::Return)
    } else if n0 == 0x0 {
        Ok(Opcode::Call(nnn))
    } else if n0 == 0x1 {
        Ok(Opcode::Goto(nnn))
    } else if n0 == 0x2 {
        Ok(Opcode::CallFunction(nnn))
    } else if n0 == 0x3 {
        Ok(Opcode::SkipEq(x, b2))
    } else if n0 == 0x4 {
        Ok(Opcode::SkipNEq(x, b2))
    } else if n0 == 0x5 && n3 == 0x0 {
        Ok(Opcode::SkipEqReg(x, n2))
    } else if n0 == 0x6 {
        Ok(Opcode::SetConst(x, b2))
    } else if n0 == 0x7 {
        Ok(Opcode::AddAssign(x, b2))
    } else if n0 == 0x8 && n3 == 0x0 {
        Ok(Opcode::Copy(x, n2))
    } else if n0 == 0x8 && n3 == 0x1 {
        Ok(Opcode::Or(x, n2))
    } else if n0 == 0x8 && n3 == 0x2 {
        Ok(Opcode::And(x, n2))
    } else if n0 == 0x8 && n3 == 0x3 {
        Ok(Opcode::Xor(x, n2))
    } else if n0 == 0x8 && n3 == 0x4 {
        Ok(Opcode::AddAssignReg(x, n2))
    } else if n0 == 0x8 && n3 == 0x5 {
        Ok(Opcode::SubAssignReg(x, n2))
    } else if n0 == 0x8 && n3 == 0x6 {
        Ok(Opcode::ShiftRight(x, n2))
    } else if n0 == 0x8 && n3 == 0x7 {
        Ok(Opcode::Subtract(x, n2))
    } else if n0 == 0x8 && n3 == 0xE {
        Ok(Opcode::ShiftLeft(x, n2))
    } else if n0 == 0x9 && n3 == 0x0 {
        Ok(Opcode::SkipNEqReg(x, n2))
    } else if n0 == 0xA {
        Ok(Opcode::SetAddressReg(nnn))
    } else if n0 == 0xB {
        Ok(Opcode::JumpOffset(nnn))
    } else if n0 == 0xC {
        Ok(Opcode::SetRand(x, b2))
    } else if n0 == 0xD {
        Ok(Opcode::Draw(x, n2, n3))
    } else if n0 == 0xE && b2 == 0x9E {
        Ok(Opcode::SkipKeyPress(x))
    } else if n0 == 0xE && b2 == 0xA1 {
        Ok(Opcode::SkipNoKeyPress(x))
    } else if n0 == 0xF && b2 == 0x07 {
        Ok(Opcode::StoreDelayTimer(x))
    } else if n0 == 0xF && b2 == 0x0A {
        Ok(Opcode::StoreKeypress(x))
    } else if n0 == 0xF && b2 == 0x15 {
        Ok(Opcode::SetDelayTimer(x))
    } else if n0 == 0xF && b2 == 0x18 {
        Ok(Opcode::SetSoundTimer(x))
    } else if n0 == 0xF && b2 == 0x1E {
        Ok(Opcode::IncrementAddressReg(x))
    } else if n0 == 0xF && b2 == 0x29 {
        Ok(Opcode::StoreSpriteAddress(x))
    } else if n0 == 0xF && b2 == 0x33 {
        Ok(Opcode::BinaryCodedDecimal(x))
    } else if n0 == 0xF && b2 == 0x55 {
        Ok(Opcode::Dump(x))
    } else if n0 == 0xF && b2 == 0x65 {
        Ok(Opcode::Load(x))
    } else {
        Err((Data(b1 as u16), Data(b2 as u16)))
    }
}

/// Every register index a decoded opcode carries is below 16, every address
/// below 4096, and every sprite height a single nibble.
pub open spec fn opcode_wf(op: Opcode) -> bool {
    match op {
        Opcode::Call(nnn) => nnn < 4096,
        Opcode::Clear => true,
        Opcode::Return => true,
        Opcode::Goto(nnn) => nnn < 4096,
        Opcode::CallFunction(nnn) => nnn < 4096,
        Opcode::SkipEq(x, _) => x < 16,
        Opcode::SkipNEq(x, _) => x < 16,
        Opcode::SkipEqReg(x, y) => x < 16 && y < 16,
        Opcode::SetConst(x, _) => x < 16,
        Opcode::AddAssign(x, _) => x < 16,
        Opcode::Copy(x, y) => x < 16 && y < 16,
        Opcode::Or(x, y) => x < 16 && y < 16,
        Opcode::And(x, y) => x < 16 && y < 16,
        Opcode::Xor(x, y) => x < 16 && y < 16,
        Opcode::AddAssignReg(x, y) => x < 16 && y < 16,
        Opcode::SubAssignReg(x, y) => x < 16 && y < 16,
        Opcode::ShiftRight(x, y) => x < 16 && y < 16,
        Opcode::Subtract(x, y) => x < 16 && y < 16,
        Opcode::ShiftLeft(x, y) => x < 16 && y < 16,
        Opcode::SkipNEqReg(x, y) => x < 16 && y < 16,
        Opcode::SetAddressReg(nnn) => nnn < 4096,
        Opcode::JumpOffset(nnn) => nnn < 4096,
        Opcode::SetRand(x, _) => x < 16,
        Opcode::Draw(x, y, n) => x < 16 && y < 16 && n < 16,
        Opcode::SkipKeyPress(x) => x < 16,
        Opcode::SkipNoKeyPress(x) => x < 16,
        Opcode::StoreDelayTimer(x) => x < 16,
        Opcode::StoreKeypress(x) => x < 16,
        Opcode::SetDelayTimer(x) => x < 16,
        Opcode::SetSoundTimer(x) => x < 16,
        Opcode::IncrementAddressReg(x) => x < 16,
        Opcode::StoreSpriteAddress(x) => x < 16,
        Opcode::BinaryCodedDecimal(x) => x < 16,
        Opcode::Dump(x) => x < 16,
        Opcode::Load(x) => x < 16,
    }
}

/// The big-endian word a well-formed opcode encodes to, as its two bytes.
pub open spec fn spec_encode(op: Opcode) -> (u8, u8) {
    match op {
        Opcode::Call(nnn) => ((nnn / 256) as u8, (nnn % 256) as u8),
        Opcode::Clear => (0x00, 0xE0),
        Opcode::Return => (0x00, 0xEE),
        Opcode::Goto(nnn) => ((0x10 + nnn / 256) as u8, (nnn % 256) as u8),
        Opcode::CallFunction(nnn) => ((0x20 + nnn / 256) as u8, (nnn % 256) as u8),
        Opcode::SkipEq(x, kk) => ((0x30 + x) as u8, kk),
        Opcode::SkipNEq(x, kk) => ((0x40 + x) as u8, kk),
        Opcode::SkipEqReg(x, y) => ((0x50 + x) as u8, (y * 16) as u8),
        Opcode::SetConst(x, kk) => ((0x60 + x) as u8, kk),
        Opcode::AddAssign(x, kk) => ((0x70 + x) as u8, kk),
        Opcode::Copy(x, y) => ((0x80 + x) as u8, (y * 16) as u8),
        Opcode::Or(x, y) => ((0x80 + x) as u8, (y * 16 + 0x1) as u8),
        Opcode::And(x, y) => ((0x80 + x) as u8, (y * 16 + 0x2) as u8),
        Opcode::Xor(x, y) => ((0x80 + x) as u8, (y * 16 + 0x3) as u8),
        Opcode::AddAssignReg(x, y) => ((0x80 + x) as u8, (y * 16 + 0x4) as u8),
        Opcode::SubAssignReg(x, y) => ((0x80 + x) as u8, (y * 16 + 0x5) as u8),
        Opcode::ShiftRight(x, y) => ((0x80 + x) as u8, (y * 16 + 0x6) as u8),
        Opcode::Subtract(x, y) => ((0x80 + x) as u8, (y * 16 + 0x7) as u8),
        Opcode::ShiftLeft(x, y) => ((0x80 + x) as u8, (y * 16 + 0xE) as u8),
        Opcode::SkipNEqReg(x, y) => ((0x90 + x) as u8, (y * 16) as u8),
        Opcode::SetAddressReg(nnn) => ((0xA0 + nnn / 256) as u8, (nnn % 256) as u8),
        Opcode::JumpOffset(nnn) => ((0xB0 + nnn / 256) as u8, (nnn % 256) as u8),
        Opcode::SetRand(x, kk) => ((0xC0 + x) as u8, kk),
        Opcode::Draw(x, y, n) => ((0xD0 + x) as u8, (y * 16 + n) as u8),
        Opcode::SkipKeyPress(x) => ((0xE0 + x) as u8, 0x9E),
        Opcode::SkipNoKeyPress(x) => ((0xE0 + x) as u8, 0xA1),
        Opcode::StoreDelayTimer(x) => ((0xF0 + x) as u8, 0x07),
        Opcode::StoreKeypress(x) => ((0xF0 + x) as u8, 0x0A),
        Opcode::SetDelayTimer(x) => ((0xF0 + x) as u8, 0x15),
        Opcode::SetSoundTimer(x) => ((0xF0 + x) as u8, 0x18),
        Opcode::IncrementAddressReg(x) => ((0xF0 + x) as u8, 0x1E),
        Opcode::StoreSpriteAddress(x) => ((0xF0 + x) as u8, 0x29),
        Opcode::BinaryCodedDecimal(x) => ((0xF0 + x) as u8, 0x33),
        Opcode::Dump(x) => ((0xF0 + x) as u8, 0x55),
        Opcode::Load(x) => ((0xF0 + x) as u8, 0x65),
    }
}

impl Opcode {
    /// Decode the big-endian word (first_byte, second_byte): the matching row
    /// of the instruction table, or the two bytes back as data.
    pub fn from(first_byte: u8, second_byte: u8) -> (r: Result<Opcode, (Data, Data)>)
        ensures
            r == spec_decode(first_byte, second_byte),
            r matches Ok(op) ==> opcode_wf(op),
    {
        let nibbles = (first_byte / 16, first_byte % 16, second_byte / 16, second_byte % 16);

        let opcode = match nibbles {
            (0x0, 0x0, 0xE, 0x0) => Opcode::Clear,
            (0x0, 0x0, 0xE, 0xE) => Opcode::Return,
            (0x0, _, _, _) => Opcode::Call(build_address(nibbles)),
            (0x1, _, _, _) => Opcode::Goto(build_address(nibbles)),
            (0x2, _, _, _) => Opcode::CallFunction(build_address(nibbles)),
            (0x3, _, _, _) => Opcode::SkipEq(nibbles.1, build_constant(nibbles)),
            (0x4, _, _, _) => Opcode::SkipNEq(nibbles.1, build_constant(nibbles)),
            (0x5, _, _, 0x0) => Opcode::SkipEqReg(nibbles.1, nibbles.2),
            (0x6, _, _, _) => Opcode::SetConst(nibbles.1, build_constant(nibbles)),
            (0x7, _, _, _) => Opcode::AddAssign(nibbles.1, build_constant(nibbles)),
            (0x8, _, _, 0x0) => Opcode::Copy(nibbles.1, nibbles.2),
            (0x8, _, _, 0x1) => Opcode::Or(nibbles.1, nibbles.2),
            (0x8, _, _, 0x2) => Opcode::And(nibbles.1, nibbles.2),
            (0x8, _, _, 0x3) => Opcode::Xor(nibbles.1, nibbles.2),
            (0x8, _, _, 0x4) => Opcode::AddAssignReg(nibbles.1, nibbles.2),
            (0x8, _, _, 0x5) => Opcode::SubAssignReg(nibbles.1, nibbles.2),
            (0x8, _, _, 0x6) => Opcode::ShiftRight(nibbles.1, nibbles.2),
            (0x8, _, _, 0x7) => Opcode::Subtract(nibbles.1, nibbles.2),
            (0x8, _, _, 0xE) => Opcode::ShiftLeft(nibbles.1, nibbles.2),
            (0x9, _, _, 0x0) => Opcode::SkipNEqReg(nibbles.1, nibbles.2),
            (0xA, _, _, _) => Opcode::SetAddressReg(build_address(nibbles)),
            (0xB, _, _, _) => Opcode::JumpOffset(build_address(nibbles)),
            (0xC, _, _, _) => Opcode::SetRand(nibbles.1, build_constant(nibbles)),
            (0xD, _, _, _) => Opcode::Draw(nibbles.1, nibbles.2, nibbles.3),
            (0xE, _, 0x9, 0xE) => Opcode::SkipKeyPress(nibbles.1),
            (0xE, _, 0xA, 0x1) => Opcode::SkipNoKeyPress(nibbles.1),
            (0xF, _, 0x0, 0x7) => Opcode::StoreDelayTimer(nibbles.1),
            (0xF, _, 0x0, 0xA) => Opcode::StoreKeypress(nibbles.1),
            (0xF, _, 0x1, 0x5) => Opcode::SetDelayTimer(nibbles.1),
            (0xF, _, 0x1, 0x8) => Opcode::SetSoundTimer(nibbles.1),
            (0xF, _, 0x1, 0xE) => Opcode::IncrementAddressReg(nibbles.1),
            (0xF, _, 0x2, 0x9) => Opcode::StoreSpriteAddress(nibbles.1),
            (0xF, _, 0x3, 0x3) => Opcode::BinaryCodedDecimal(nibbles.1),
            (0xF, _, 0x5, 0x5) => Opcode::Dump(nibbles.1),
            (0xF, _, 0x6, 0x5) => Opcode::Load(nibbles.1),
            _ => {
                return Err(build_data(nibbles));
            },
        };

        Ok(opcode)
    }
}

/// Reassemble the two bytes a nibble quadruple came from, widened to words.
pub fn build_data(nibbles: (u8, u8, u8, u8)) -> (r: (Data, Data))
    requires
        nibbles.0 < 16,
        nibbles.1 < 16,
        nibbles.2 < 16,
        nibbles.3 < 16,
    ensures
        r.0.0 == nibbles.0 * 16 + nibbles.1,
        r.1.0 == nibbles.2 * 16 + nibbles.3,
{
    let first = nibbles.0 as u16;
    let second = nibbles.1 as u16;

    let third = nibbles.2 as u16;
    let fourth = nibbles.3 as u16;

    let left = first * 16 + second;
    let right = third * 16 + fourth;

    (Data(left), Data(right))
}

/// Pack the low three nibbles into the 12-bit address they spell.
pub fn build_address(nibbles: (u8, u8, u8, u8)) -> (r: Address)
    requires
        nibbles.1 < 16,
        nibbles.2 < 16,
        nibbles.3 < 16,
    ensures
        r == nibbles.1 * 256 + nibbles.2 * 16 + nibbles.3,
        r < 4096,
{
    let first = nibbles.1 as u16;
    let second = nibbles.2 as u16;
    let third = nibbles.3 as u16;

    first * 256 + second * 16 + third
}

/// Pack the two nibbles of the second byte into the 8-bit constant `kk`.
pub fn build_constant(nibbles: (u8, u8, u8, u8)) -> (r: Constant)
    requires
        nibbles.2 < 16,
        nibbles.3 < 16,
    ensures
        r == nibbles.2 * 16 + nibbles.3,
{
    nibbles.2 * 16 + nibbles.3
}

/// Decoding is left inverse to encoding: a word that names an instruction is
/// spelled back exactly by that instruction.
#[verifier::rlimit(100)]
pub proof fn lemma_decode_encode(b1: u8, b2: u8)
    ensures
        spec_decode(b1, b2) matches Ok(op) ==> spec_encode(op) == (b1, b2),
{
    let n0 = b1 / 16;
    let x = b1 % 16;
    let n2 = b2 / 16;
    let n3 = b2 % 16;
    let nnn = spec_address(b1, b2);
    assert(b1 == n0 * 16 + x);
    assert(b2 == n2 * 16 + n3);
    assert(nnn / 256 == x as u16);
    assert(nnn % 256 == b2 as u16);
    // Case split on the leading nibble so each solver query stays small.
    if n0 == 0x0 {
        assert(spec_decode(b1, b2) matches Ok(op) ==> spec_encode(op) == (b1, b2));
    } else if n0 == 0x8 {
        assert(spec_decode(b1, b2) matches Ok(op) ==> spec_encode(op) == (b1, b2));
    } else if n0 == 0xE || n0 == 0xF {
        assert(spec_decode(b1, b2) matches Ok(op) ==> spec_encode(op) == (b1, b2));
    } else {
        assert(spec_decode(b1, b2) matches Ok(op) ==> spec_encode(op) == (b1, b2));
    }
}

/// A word that names no instruction comes back as its own two bytes.
pub proof fn lemma_data_is_word(b1: u8, b2: u8)
    ensures
        spec_decode(b1, b2) matches Err(d) ==> d.0.0 == b1 && d.1.0 == b2,
{
}

} // verus!
