//! Textual rendering: the mnemonic of each opcode, the disassembly listing
//! of a ROM, and the one-line machine-state dump, all built as verified
//! strings.

use vstd::prelude::*;
use vstd::string::StringExecFns;

use crate::emulator::{System, VmState};
use crate::opcode::{opcode_wf, spec_decode, Opcode};

verus! {

/// The single lowercase hex digit naming `n`.
#[verifier::opaque]
pub open spec fn spec_hex_str(n: u8) -> Seq<char> {
    if n == 0 {
        "0"@
    } else if n == 1 {
        "1"@
    } else if n == 2 {
        "2"@
    } else if n == 3 {
        "3"@
    } else if n == 4 {
        "4"@
    } else if n == 5 {
        "5"@
    } else if n == 6 {
        "6"@
    } else if n == 7 {
        "7"@
    } else if n == 8 {
        "8"@
    } else if n == 9 {
        "9"@
    } else if n == 10 {
        "a"@
    } else if n == 11 {
        "b"@
    } else if n == 12 {
        "c"@
    } else if n == 13 {
        "d"@
    } else if n == 14 {
        "e"@
    } else {
        "f"@
    }
}

/// The single uppercase hex digit naming `n`.
#[verifier::opaque]
pub open spec fn spec_hex_upper_str(n: u8) -> Seq<char> {
    if n < 10 {
        spec_hex_str(n)
    } else if n == 10 {
        "A"@
    } else if n == 11 {
        "B"@
    } else if n == 12 {
        "C"@
    } else if n == 13 {
        "D"@
    } else if n == 14 {
        "E"@
    } else {
        "F"@
    }
}

/// Three lowercase hex digits of a 12-bit value, zero padded.
pub open spec fn spec_hex3(a: u16) -> Seq<char> {
    spec_hex_str(((a / 256) % 16) as u8) + spec_hex_str(((a / 16) % 16) as u8) + spec_hex_str(
        (a % 16) as u8,
    )
}

/// Four lowercase hex digits of a 16-bit value, zero padded.
pub open spec fn spec_hex4(w: u16) -> Seq<char> {
    spec_hex_str(((w / 4096) % 16) as u8) + spec_hex_str(((w / 256) % 16) as u8) + spec_hex_str(
        ((w / 16) % 16) as u8,
    ) + spec_hex_str((w % 16) as u8)
}

/// The address register rendered with three digits while it is a 12-bit
/// value, four once incremented past it.
pub open spec fn spec_hex_i(a: u16) -> Seq<char> {
    if a < 4096 {
        spec_hex3(a)
    } else {
        spec_hex4(a)
    }
}

/// A byte in decimal, without padding.
pub open spec fn spec_dec(v: u8) -> Seq<char> {
    if v < 10 {
        spec_hex_str(v)
    } else if v < 100 {
        spec_hex_str((v / 10) as u8) + spec_hex_str((v % 10) as u8)
    } else {
        spec_hex_str((v / 100) as u8) + spec_hex_str(((v / 10) % 10) as u8) + spec_hex_str(
            (v % 10) as u8,
        )
    }
}

/// The lowercase hex digit for `n`.
fn hex_str(n: u8) -> (r: &'static str)
    requires
        n < 16,
    ensures
        r@ == spec_hex_str(n),
{
    proof {
        reveal(spec_hex_str);
    }
    match n {
        0 => "0",
        1 => "1",
        2 => "2",
        3 => "3",
        4 => "4",
        5 => "5",
        6 => "6",
        7 => "7",
        8 => "8",
        9 => "9",
        10 => "a",
        11 => "b",
        12 => "c",
        13 => "d",
        14 => "e",
        _ => "f",
    }
}

/// The uppercase hex digit for `n`.
fn hex_upper_str(n: u8) -> (r: &'static str)
    requires
        n < 16,
    ensures
        r@ == spec_hex_upper_str(n),
{
    proof {
        reveal(spec_hex_upper_str);
        reveal(spec_hex_str);
    }
    match n {
        0 => "0",
        1 => "1",
        2 => "2",
        3 => "3",
        4 => "4",
        5 => "5",
        6 => "6",
        7 => "7",
        8 => "8",
        9 => "9",
        10 => "A",
        11 => "B",
        12 => "C",
        13 => "D",
        14 => "E",
        _ => "F",
    }
}

/// Append the three-digit hex form of a 12-bit value.
fn push_hex3(s: &mut String, a: u16)
    requires
        a < 4096,
    ensures
        final(s)@ == old(s)@ + spec_hex3(a),
{
    s.append(hex_str(((a / 256) % 16) as u8));
    s.append(hex_str(((a / 16) % 16) as u8));
    s.append(hex_str((a % 16) as u8));
    proof {
        assert(s@ =~= old(s)@ + spec_hex3(a));
    }
}

/// Append the four-digit hex form of a 16-bit value.
fn push_hex4(s: &mut String, w: u16)
    ensures
        final(s)@ == old(s)@ + spec_hex4(w),
{
    s.append(hex_str(((w / 4096) % 16) as u8));
    s.append(hex_str(((w / 256) % 16) as u8));
    s.append(hex_str(((w / 16) % 16) as u8));
    s.append(hex_str((w % 16) as u8));
    proof {
        assert(s@ =~= old(s)@ + spec_hex4(w));
    }
}

/// Append a byte in decimal.
fn push_dec(s: &mut String, v: u8)
    ensures
        final(s)@ == old(s)@ + spec_dec(v),
{
    if v < 10 {
        s.append(hex_str(v));
    } else if v < 100 {
        s.append(hex_str(v / 10));
        s.append(hex_str(v % 10));
    } else {
        s.append(hex_str(v / 100));
        s.append(hex_str((v / 10) % 10));
        s.append(hex_str(v % 10));
    }
    proof {
        assert(s@ =~= old(s)@ + spec_dec(v));
    }
}

/// The textual mnemonic of an instruction: the operation name, then its
/// arguments, tab separated. Addresses are written `0x` plus three hex
/// digits, registers `V` plus an uppercase digit, constants in decimal.
pub open spec fn spec_mnemonic(op: Opcode) -> Seq<char> {
    match op {
        Opcode::Call(a) => "CALL\t0x"@ + spec_hex3(a),
        Opcode::Clear => "CLS"@,
        Opcode::Return => "RET"@,
        Opcode::Goto(a) => "JMP\t0x"@ + spec_hex3(a),
        Opcode::CallFunction(a) => "CALL\t0x"@ + spec_hex3(a),
        Opcode::SkipEq(x, k) => "SE\tV"@ + spec_hex_upper_str(x) + "\t"@ + spec_dec(k),
        Opcode::SkipNEq(x, k) => "SNE\tV"@ + spec_hex_upper_str(x) + "\t"@ + spec_dec(k),
        Opcode::SkipEqReg(x, y) => "SE\tV"@ + spec_hex_upper_str(x) + "\tV"@ + spec_hex_upper_str(
            y,
        ),
        Opcode::SetConst(x, k) => "SET\tV"@ + spec_hex_upper_str(x) + "\t"@ + spec_dec(k),
        Opcode::AddAssign(x, k) => "ADDA\tV"@ + spec_hex_upper_str(x) + "\t"@ + spec_dec(k),
        Opcode::Copy(x, y) => "SET\tV"@ + spec_hex_upper_str(x) + "\tV"@ + spec_hex_upper_str(y),
        Opcode::Or(x, y) => "OR\tV"@ + spec_hex_upper_str(x) + "\tV"@ + spec_hex_upper_str(y),
        Opcode::And(x, y) => "AND\tV"@ + spec_hex_upper_str(x) + "\tV"@ + spec_hex_upper_str(y),
        Opcode::Xor(x, y) => "XOR\tV"@ + spec_hex_upper_str(x) + "\tV"@ + spec_hex_upper_str(y),
        Opcode::AddAssignReg(x, y) => "ADDA\tV"@ + spec_hex_upper_str(x) + "\tV"@
            + spec_hex_upper_str(y),
        Opcode::SubAssignReg(x, y) => "SUBA\tV"@ + spec_hex_upper_str(x) + "\tV"@
            + spec_hex_upper_str(y),
        Opcode::ShiftRight(x, y) => "SHR\tV"@ + spec_hex_upper_str(x) + "\tV"@
            + spec_hex_upper_str(y),
        Opcode::Subtract(x, y) => "SUB\tV"@ + spec_hex_upper_str(x) + "\tV"@ + spec_hex_upper_str(
            y,
        ),
        Opcode::ShiftLeft(x, y) => "SHL\tV"@ + spec_hex_upper_str(x) + "\tV"@
            + spec_hex_upper_str(y),
        Opcode::SkipNEqReg(x, y) => "SNE\tV"@ + spec_hex_upper_str(x) + "\tV"@
            + spec_hex_upper_str(y),
        Opcode::SetAddressReg(a) => "SET\tI\t0x"@ + spec_hex3(a),
        Opcode::JumpOffset(a) => "OFF\t0x"@ + spec_hex3(a),
        Opcode::SetRand(x, k) => "RND\tV"@ + spec_hex_upper_str(x) + "\t"@ + spec_dec(k),
        Opcode::Draw(x, y, n) => "DRW\tV"@ + spec_hex_upper_str(x) + "\tV"@ + spec_hex_upper_str(
            y,
        ) + "\t"@ + spec_dec(n),
        Opcode::SkipKeyPress(x) => "SKP\tV"@ + spec_hex_upper_str(x),
        Opcode::SkipNoKeyPress(x) => "SNKP\tV"@ + spec_hex_upper_str(x),
        Opcode::StoreDelayTimer(x) => "SET\tV"@ + spec_hex_upper_str(x) + "\tDELAY"@,
        Opcode::StoreKeypress(x) => "SET\tV"@ + spec_hex_upper_str(x) + "\tKEY"@,
        Opcode::SetDelayTimer(x) => "SET\tDELAY\tV"@ + spec_hex_upper_str(x),
        Opcode::SetSoundTimer(x) => "SET\tSOUND\tV"@ + spec_hex_upper_str(x),
        Opcode::IncrementAddressReg(x) => "ADD\tI\tV"@ + spec_hex_upper_str(x),
        Opcode::StoreSpriteAddress(x) => "SPRT\tV"@ + spec_hex_upper_str(x),
        Opcode::BinaryCodedDecimal(x) => "BCD\tV"@ + spec_hex_upper_str(x),
        Opcode::Dump(x) => "DUMP\tV"@ + spec_hex_upper_str(x),
        Opcode::Load(x) => "LOAD\tV"@ + spec_hex_upper_str(x),
    }
}

impl Opcode {
    /// Render the instruction's mnemonic line fragment.
    pub fn mnemonic(&self) -> (r: String)
        requires
            opcode_wf(*self),
        ensures
            r@ == spec_mnemonic(*self),
    {
        let mut s = String::new();
        match *self {
            Opcode::Call(a) => {
                s.append("CALL\t0x");
                push_hex3(&mut s, a);
            },
            Opcode::Clear => {
                s.append("CLS");
            },
            Opcode::Return => {
                s.append("RET");
            },
            Opcode::Goto(a) => {
                s.append("JMP\t0x");
                push_hex3(&mut s, a);
            },
            Opcode::CallFunction(a) => {
                s.append("CALL\t0x");
                push_hex3(&mut s, a);
            },
            Opcode::SkipEq(x, k) => {
                s.append("SE\tV");
                s.append(hex_upper_str(x));
                s.append("\t");
                push_dec(&mut s, k);
            },
            Opcode::SkipNEq(x, k) => {
                s.append("SNE\tV");
                s.append(hex_upper_str(x));
                s.append("\t");
                push_dec(&mut s, k);
            },
            Opcode::SkipEqReg(x, y) => {
                s.append("SE\tV");
                s.append(hex_upper_str(x));
                s.append("\tV");
                s.append(hex_upper_str(y));
            },
            Opcode::SetConst(x, k) => {
                s.append("SET\tV");
                s.append(hex_upper_str(x));
                s.append("\t");
                push_dec(&mut s, k);
            },
            Opcode::AddAssign(x, k) => {
                s.append("ADDA\tV");
                s.append(hex_upper_str(x));
                s.append("\t");
                push_dec(&mut s, k);
            },
            Opcode::Copy(x, y) => {
                s.append("SET\tV");
                s.append(hex_upper_str(x));
                s.append("\tV");
                s.append(hex_upper_str(y));
            },
            Opcode::Or(x, y) => {
                s.append("OR\tV");
                s.append(hex_upper_str(x));
                s.append("\tV");
                s.append(hex_upper_str(y));
            },
            Opcode::And(x, y) => {
                s.append("AND\tV");
                s.append(hex_upper_str(x));
                s.append("\tV");
                s.append(hex_upper_str(y));
            },
            Opcode::Xor(x, y) => {
                s.append("XOR\tV");
                s.append(hex_upper_str(x));
                s.append("\tV");
                s.append(hex_upper_str(y));
            },
            Opcode::AddAssignReg(x, y) => {
                s.append("ADDA\tV");
                s.append(hex_upper_str(x));
                s.append("\tV");
                s.append(hex_upper_str(y));
            },
            Opcode::SubAssignReg(x, y) => {
                s.append("SUBA\tV");
                s.append(hex_upper_str(x));
                s.append("\tV");
                s.append(hex_upper_str(y));
            },
            Opcode::ShiftRight(x, y) => {
                s.append("SHR\tV");
                s.append(hex_upper_str(x));
                s.append("\tV");
                s.append(hex_upper_str(y));
            },
            Opcode::Subtract(x, y) => {
                s.append("SUB\tV");
                s.append(hex_upper_str(x));
                s.append("\tV");
                s.append(hex_upper_str(y));
            },
            Opcode::ShiftLeft(x, y) => {
                s.append("SHL\tV");
                s.append(hex_upper_str(x));
                s.append("\tV");
                s.append(hex_upper_str(y));
            },
            Opcode::SkipNEqReg(x, y) => {
                s.append("SNE\tV");
                s.append(hex_upper_str(x));
                s.append("\tV");
                s.append(hex_upper_str(y));
            },
            Opcode::SetAddressReg(a) => {
                s.append("SET\tI\t0x");
                push_hex3(&mut s, a);
            },
            Opcode::JumpOffset(a) => {
                s.append("OFF\t0x");
                push_hex3(&mut s, a);
            },
            Opcode::SetRand(x, k) => {
                s.append("RND\tV");
                s.append(hex_upper_str(x));
                s.append("\t");
                push_dec(&mut s, k);
            },
            Opcode::Draw(x, y, n) => {
                s.append("DRW\tV");
                s.append(hex_upper_str(x));
                s.append("\tV");
                s.append(hex_upper_str(y));
                s.append("\t");
                push_dec(&mut s, n);
            },
            Opcode::SkipKeyPress(x) => {
                s.append("SKP\tV");
                s.append(hex_upper_str(x));
            },
            Opcode::SkipNoKeyPress(x) => {
                s.append("SNKP\tV");
                s.append(hex_upper_str(x));
            },
            Opcode::StoreDelayTimer(x) => {
                s.append("SET\tV");
                s.append(hex_upper_str(x));
                s.append("\tDELAY");
            },
            Opcode::StoreKeypress(x) => {
                s.append("SET\tV");
                s.append(hex_upper_str(x));
                s.append("\tKEY");
            },
            Opcode::SetDelayTimer(x) => {
                s.append("SET\tDELAY\tV");
                s.append(hex_upper_str(x));
            },
            Opcode::SetSoundTimer(x) => {
                s.append("SET\tSOUND\tV");
                s.append(hex_upper_str(x));
            },
            Opcode::IncrementAddressReg(x) => {
                s.append("ADD\tI\tV");
                s.append(hex_upper_str(x));
            },
            Opcode::StoreSpriteAddress(x) => {
                s.append("SPRT\tV");
                s.append(hex_upper_str(x));
            },
            Opcode::BinaryCodedDecimal(x) => {
                s.append("BCD\tV");
                s.append(hex_upper_str(x));
            },
            Opcode::Dump(x) => {
                s.append("DUMP\tV");
                s.append(hex_upper_str(x));
            },
            Opcode::Load(x) => {
                s.append("LOAD\tV");
                s.append(hex_upper_str(x));
            },
        }
        proof {
            assert(s@ =~= spec_mnemonic(*self));
        }
        s
    }
}

/// The big-endian word spelled by two bytes.
pub open spec fn word_of(b1: u8, b2: u8) -> u16 {
    (b1 as u16 * 256 + b2 as u16) as u16
}

/// The two header lines of a disassembly listing.
pub open spec fn spec_header() -> Seq<char> {
    "HEX\tOP\tARG1\tARG2\tARG3\n"@ + "---\t--\t----\t----\t----\n"@
}

/// One listing line: the word in hex, then its mnemonic, or `DATA` and the
/// word again where no instruction matches.
pub open spec fn spec_line(b1: u8, b2: u8) -> Seq<char> {
    "0x"@ + spec_hex4(word_of(b1, b2)) + "\t"@ + (match spec_decode(b1, b2) {
        Ok(op) => spec_mnemonic(op),
        Err(_) => "DATA\t"@ + spec_hex4(word_of(b1, b2)),
    }) + "\n"@
}

/// The listing lines for the words from byte offset `i` on.
pub open spec fn spec_lines_from(bytes: Seq<u8>, i: int) -> Seq<char>
    decreases bytes.len() - i,
{
    if 0 <= i && i + 2 <= bytes.len() {
        spec_line(bytes[i], bytes[i + 1]) + spec_lines_from(bytes, i + 2)
    } else {
        Seq::<char>::empty()
    }
}

/// The whole listing: header, then one line per word.
pub open spec fn spec_disassembly(bytes: Seq<u8>) -> Seq<char> {
    spec_header() + spec_lines_from(bytes, 0)
}

/// Render the disassembly listing of an even-length instruction stream.
#[verifier::rlimit(100)]
pub fn disassemble(buffer: &[u8]) -> (r: String)
    requires
        buffer@.len() % 2 == 0,
    ensures
        r@ == spec_disassembly(buffer@),
{
    let mut s = String::new();
    s.append("HEX\tOP\tARG1\tARG2\tARG3\n");
    s.append("---\t--\t----\t----\t----\n");
    let mut idx: usize = 0;
    while idx < buffer.len()
        invariant
            buffer@.len() % 2 == 0,
            idx % 2 == 0,
            idx <= buffer@.len(),
            s@ + spec_lines_from(buffer@, idx as int) == spec_disassembly(buffer@),
        decreases buffer@.len() - idx,
    {
        assert(idx + 1 < buffer@.len());
        let ghost s0 = s@;
        let b1 = buffer[idx];
        let b2 = buffer[idx + 1];
        let word = b1 as u16 * 256 + b2 as u16;
        s.append("0x");
        push_hex4(&mut s, word);
        s.append("\t");
        match Opcode::from(b1, b2) {
            Ok(op) => {
                let m = op.mnemonic();
                s.append(m.as_str());
            },
            Err(_) => {
                s.append("DATA\t");
                push_hex4(&mut s, word);
            },
        }
        s.append("\n");
        proof {
            assert(s@ =~= s0 + spec_line(b1, b2));
            assert(s@ + spec_lines_from(buffer@, idx as int + 2) =~= s0 + spec_lines_from(
                buffer@,
                idx as int,
            ));
        }
        idx = idx + 2;
    }
    proof {
        assert(s@ =~= s@ + spec_lines_from(buffer@, idx as int));
    }
    s
}

/// The tab-separated register fields of the debug line, from register `x`
/// on: each is `V`, the register's index, and its value in brackets.
pub open spec fn spec_reg_fields(regs: Seq<u8>, x: int) -> Seq<char>
    decreases 16 - x,
{
    if 0 <= x < 16 {
        "\tV"@ + spec_hex_upper_str(x as u8) + "["@ + spec_dec(regs[x]) + "]"@ + spec_reg_fields(
            regs,
            x + 1,
        )
    } else {
        Seq::<char>::empty()
    }
}

/// The one-line state dump: program counter, timers, address register, the
/// sixteen registers, and the mnemonic of the instruction at the program
/// counter.
pub open spec fn spec_debug_line(st: VmState) -> Seq<char> {
    "PC[0x"@ + spec_hex4(st.pc) + "]\tDELAY["@ + spec_dec(st.delay) + "]\tSOUND["@ + spec_dec(
        st.sound,
    ) + "]\tI[0x"@ + spec_hex_i(st.i) + "]"@ + spec_reg_fields(st.regs, 0) + "\t"@ + (
    match spec_decode(st.mem[st.pc as int], st.mem[st.pc as int + 1]) {
        Ok(op) => spec_mnemonic(op),
        Err(_) => Seq::<char>::empty(),
    })
}

impl System {
    /// Render the one-line state dump. The word at the program counter must
    /// name an instruction.
    pub fn debug_line(&self) -> (r: String)
        requires
            self.wf(),
            self@.pc < 4095,
            spec_decode(self@.mem[self@.pc as int], self@.mem[self@.pc as int + 1]) is Ok,
        ensures
            r@ == spec_debug_line(self@),
    {
        let mut s = String::new();
        s.append("PC[0x");
        push_hex4(&mut s, self.program_counter());
        s.append("]\tDELAY[");
        push_dec(&mut s, self.delay_timer());
        s.append("]\tSOUND[");
        push_dec(&mut s, self.sound_timer());
        s.append("]\tI[0x");
        let i_reg = self.address_register();
        if i_reg < 4096 {
            push_hex3(&mut s, i_reg);
        } else {
            push_hex4(&mut s, i_reg);
        }
        s.append("]");
        let ghost prefix = s@;
        let mut x: u8 = 0;
        while x < 16
            invariant
                x <= 16,
                self.wf(),
                s@ + spec_reg_fields(self@.regs, x as int) == prefix + spec_reg_fields(
                    self@.regs,
                    0,
                ),
            decreases 16 - x,
        {
            let ghost s0 = s@;
            s.append("\tV");
            s.append(hex_upper_str(x));
            s.append("[");
            push_dec(&mut s, self.get_register(x));
            s.append("]");
            proof {
                assert(s@ =~= s0 + ("\tV"@ + spec_hex_upper_str(x) + "["@ + spec_dec(
                    self@.regs[x as int],
                ) + "]"@));
                assert(s@ + spec_reg_fields(self@.regs, x as int + 1) =~= s0 + spec_reg_fields(
                    self@.regs,
                    x as int,
                ));
            }
            x = x + 1;
        }
        s.append("\t");
        let (b1, b2) = self.fetch();
        match Opcode::from(b1, b2) {
            Ok(op) => {
                let m = op.mnemonic();
                s.append(m.as_str());
            },
            Err(_) => {},
        }
        proof {
            assert(s@ =~= spec_debug_line(self@));
        }
        s
    }
}

} // verus!
