//! The CPU and dispatcher: registers, stack, timers, program counter and
//! address register, with one exactly specified state transition per opcode.

use vstd::prelude::*;

use crate::display::{
    lemma_row_hits_on_row, pixel_index, row_collides, row_hits, spec_bit, Display,
};
use crate::memory::{load_fonts, load_program, MEMORY_SIZE, SPRITE_DATA};
use crate::opcode::{opcode_wf, spec_decode, Opcode};
use crate::{Address, Constant, Register};

verus! {

/// Bytes per instruction.
pub const WORD_SIZE: u16 = 2;

/// A fatal execution error: only returning with an empty stack is fatal.
#[derive(Clone, Copy, Debug, PartialEq, Eq, Structural)]
pub enum VmError {
    StackUnderflow,
}

/// What one dispatched instruction asks of the surrounding loop.
#[derive(Clone, Copy, Debug, PartialEq, Eq, Structural)]
pub enum Effect {
    /// Nothing to do; carry on.
    Proceed,
    /// The framebuffer changed and should be presented.
    Render,
    /// The instruction needs a key press; the machine did not advance and
    /// the step must be retried once a key is available.
    WaitKey,
}

/// The mathematical state of the machine: memory, registers, address
/// register, return stack (top last), the two timers, program counter, and
/// the framebuffer.
pub struct VmState {
    pub mem: Seq<u8>,
    pub regs: Seq<u8>,
    pub i: u16,
    pub stack: Seq<u16>,
    pub delay: u8,
    pub sound: u8,
    pub pc: u16,
    pub screen: Seq<bool>,
}

impl VmState {
    /// Sizes are fixed and every stacked return address is a valid
    /// instruction address.
    pub open spec fn wf(self) -> bool {
        &&& self.mem.len() == 4096
        &&& self.regs.len() == 16
        &&& self.screen.len() == 2048
        &&& forall|k: int| 0 <= k < self.stack.len() ==> self.stack[k] < 4095
    }
}

/// An 8-bit addition that wraps modulo 256.
pub open spec fn wrap_add(a: u8, b: u8) -> u8 {
    ((a + b) % 256) as u8
}

/// An 8-bit subtraction that wraps modulo 256.
pub open spec fn wrap_sub(a: u8, b: u8) -> u8 {
    ((a - b + 256) % 256) as u8
}

/// One 60 Hz timer tick: decrement toward zero, clamped at zero.
pub open spec fn dec_timer(t: u8) -> u8 {
    if t > 0 {
        (t - 1) as u8
    } else {
        0u8
    }
}

/// The screen row touched by sprite row `r` anchored at `y`, wrapped.
pub open spec fn sprite_row_y(y: u8, r: int) -> u8 {
    ((y as int + r) % 32) as u8
}

/// Whether drawing the `n`-row sprite at `mem[i0..i0 + n]` anchored at
/// (x, y) toggles the pixel at index `p`.
pub open spec fn sprite_hits(mem: Seq<u8>, i0: int, x: u8, y: u8, n: int, p: int) -> bool {
    exists|r: int| 0 <= r < n && row_hits(x, sprite_row_y(y, r), mem[i0 + r], p)
}

/// The screen after XOR-blitting the `n`-row sprite at `mem[i0..i0 + n]`
/// anchored at (x, y) onto `s`.
pub open spec fn sprite_blit(s: Seq<bool>, mem: Seq<u8>, i0: int, x: u8, y: u8, n: int) -> Seq<
    bool,
> {
    Seq::new(s.len(), |p: int| s[p] != sprite_hits(mem, i0, x, y, n, p))
}

/// Whether drawing the sprite turns off some previously lit pixel.
pub open spec fn sprite_collides(s: Seq<bool>, mem: Seq<u8>, i0: int, x: u8, y: u8, n: int) -> bool {
    exists|r: int| 0 <= r < n && row_collides(s, x, sprite_row_y(y, r), mem[i0 + r])
}

/// Distinct rows of one sprite land on distinct screen rows (a sprite is at
/// most 15 rows tall, the screen 32).
pub proof fn lemma_rows_distinct(y: u8, r1: int, r2: int)
    requires
        0 <= r1 < 16,
        0 <= r2 < 16,
        r1 != r2,
    ensures
        sprite_row_y(y, r1) != sprite_row_y(y, r2),
{
    let y0 = y as int % 32;
    vstd::arithmetic::div_mod::lemma_mod_multiples_vanish(y as int / 32, y0 + r1, 32);
    vstd::arithmetic::div_mod::lemma_mod_multiples_vanish(y as int / 32, y0 + r2, 32);
    assert(y as int + r1 == 32 * (y as int / 32) + (y0 + r1));
    assert((y as int + r1) % 32 == (y0 + r1) % 32);
    assert((y as int + r2) % 32 == (y0 + r2) % 32);
    if y0 + r1 < 32 {
        assert((y0 + r1) % 32 == y0 + r1);
    } else {
        assert((y0 + r1) % 32 == y0 + r1 - 32);
    }
    if y0 + r2 < 32 {
        assert((y0 + r2) % 32 == y0 + r2);
    } else {
        assert((y0 + r2) % 32 == y0 + r2 - 32);
    }
}

/// A pixel on the screen row of sprite row `rcur` is not touched by any
/// earlier sprite row.
proof fn lemma_prefix_misses_row(
    mem: Seq<u8>,
    i0: int,
    x: u8,
    y: u8,
    r: int,
    rcur: int,
    p: int,
)
    requires
        0 <= r <= rcur < 16,
        p / 64 == sprite_row_y(y, rcur) as int,
    ensures
        !sprite_hits(mem, i0, x, y, r, p),
{
    if sprite_hits(mem, i0, x, y, r, p) {
        let rp = choose|rp: int| 0 <= rp < r && row_hits(x, sprite_row_y(y, rp), mem[i0 + rp], p);
        lemma_row_hits_on_row(x, sprite_row_y(y, rp), mem[i0 + rp], p);
        assert(sprite_row_y(y, rp) as int % 32 == sprite_row_y(y, rp) as int);
        lemma_rows_distinct(y, rp, rcur);
    }
}

/// The state transition of one decoded instruction: the successor state and
/// the effect asked of the loop, or the fatal error. `key` is the hex key
/// currently reported by the keypad, `rnd` the byte drawn for `SetRand`.
pub open spec fn spec_execute(pre: VmState, op: Opcode, key: Option<u8>, rnd: u8) -> Result<
    (VmState, Effect),
    VmError,
> {
    match op {
        Opcode::Call(_) => Ok((VmState { pc: (pre.pc + 2) as u16, ..pre }, Effect::Proceed)),
        Opcode::Clear => Ok(
            (
                VmState {
                    screen: Seq::new(2048, |p: int| false),
                    pc: (pre.pc + 2) as u16,
                    ..pre
                },
                Effect::Render,
            ),
        ),
        Opcode::Return => {
            if pre.stack.len() == 0 {
                Err(VmError::StackUnderflow)
            } else {
                Ok(
                    (
                        VmState {
                            pc: (pre.stack.last() + 2) as u16,
                            stack: pre.stack.drop_last(),
                            ..pre
                        },
                        Effect::Proceed,
                    ),
                )
            }
        },
        Opcode::Goto(nnn) => Ok((VmState { pc: nnn, ..pre }, Effect::Proceed)),
        Opcode::CallFunction(nnn) => Ok(
            (VmState { stack: pre.stack.push(pre.pc), pc: nnn, ..pre }, Effect::Proceed),
        ),
        Opcode::SkipEq(x, kk) => Ok(
            (
                VmState {
                    pc: (pre.pc + if pre.regs[x as int] == kk {
                        4int
                    } else {
                        2int
                    }) as u16,
                    ..pre
                },
                Effect::Proceed,
            ),
        ),
        Opcode::SkipNEq(x, kk) => Ok(
            (
                VmState {
                    pc: (pre.pc + if pre.regs[x as int] != kk {
                        4int
                    } else {
                        2int
                    }) as u16,
                    ..pre
                },
                Effect::Proceed,
            ),
        ),
        Opcode::SkipEqReg(x, y) => Ok(
            (
                VmState {
                    pc: (pre.pc + if pre.regs[x as int] == pre.regs[y as int] {
                        4int
                    } else {
                        2int
                    }) as u16,
                    ..pre
                },
                Effect::Proceed,
            ),
        ),
        Opcode::SetConst(x, kk) => Ok(
            (
                VmState {
                    regs: pre.regs.update(x as int, kk),
                    pc: (pre.pc + 2) as u16,
                    ..pre
                },
                Effect::Proceed,
            ),
        ),
        Opcode::AddAssign(x, kk) => Ok(
            (
                VmState {
                    regs: pre.regs.update(x as int, wrap_add(pre.regs[x as int], kk)),
                    pc: (pre.pc + 2) as u16,
                    ..pre
                },
                Effect::Proceed,
            ),
        ),
        Opcode::Copy(x, y) => Ok(
            (
                VmState {
                    regs: pre.regs.update(x as int, pre.regs[y as int]),
                    pc: (pre.pc + 2) as u16,
                    ..pre
                },
                Effect::Proceed,
            ),
        ),
        Opcode::Or(x, y) => Ok(
            (
                VmState {
                    regs: pre.regs.update(x as int, pre.regs[x as int] | pre.regs[y as int]),
                    pc: (pre.pc + 2) as u16,
                    ..pre
                },
                Effect::Proceed,
            ),
        ),
        Opcode::And(x, y) => Ok(
            (
                VmState {
                    regs: pre.regs.update(x as int, pre.regs[x as int] & pre.regs[y as int]),
                    pc: (pre.pc + 2) as u16,
                    ..pre
                },
                Effect::Proceed,
            ),
        ),
        Opcode::Xor(x, y) => Ok(
            (
                VmState {
                    regs: pre.regs.update(x as int, pre.regs[x as int] ^ pre.regs[y as int]),
                    pc: (pre.pc + 2) as u16,
                    ..pre
                },
                Effect::Proceed,
            ),
        ),
        Opcode::AddAssignReg(x, y) => Ok(
            (
                VmState {
                    regs: pre.regs.update(
                        x as int,
                        wrap_add(pre.regs[x as int], pre.regs[y as int]),
                    ).update(
                        15,
                        if pre.regs[x as int] + pre.regs[y as int] >= 256 {
                            1u8
                        } else {
                            0u8
                        },
                    ),
                    pc: (pre.pc + 2) as u16,
                    ..pre
                },
                Effect::Proceed,
            ),
        ),
        Opcode::SubAssignReg(x, y) => Ok(
            (
                VmState {
                    regs: pre.regs.update(
                        x as int,
                        wrap_sub(pre.regs[x as int], pre.regs[y as int]),
                    ).update(
                        15,
                        if pre.regs[x as int] >= pre.regs[y as int] {
                            1u8
                        } else {
                            0u8
                        },
                    ),
                    pc: (pre.pc + 2) as u16,
                    ..pre
                },
                Effect::Proceed,
            ),
        ),
        Opcode::ShiftRight(x, y) => Ok(
            (
                VmState {
                    regs: pre.regs.update(x as int, (pre.regs[y as int] / 2) as u8).update(
                        15,
                        (pre.regs[y as int] % 2) as u8,
                    ),
                    pc: (pre.pc + 2) as u16,
                    ..pre
                },
                Effect::Proceed,
            ),
        ),
        Opcode::Subtract(x, y) => Ok(
            (
                VmState {
                    regs: pre.regs.update(
                        x as int,
                        wrap_sub(pre.regs[y as int], pre.regs[x as int]),
                    ).update(
                        15,
                        if pre.regs[y as int] >= pre.regs[x as int] {
                            1u8
                        } else {
                            0u8
                        },
                    ),
                    pc: (pre.pc + 2) as u16,
                    ..pre
                },
                Effect::Proceed,
            ),
        ),
        Opcode::ShiftLeft(x, y) => Ok(
            (
                VmState {
                    regs: pre.regs.update(x as int, ((pre.regs[y as int] * 2) % 256) as u8).update(
                        15,
                        (pre.regs[y as int] / 128) as u8,
                    ),
                    pc: (pre.pc + 2) as u16,
                    ..pre
                },
                Effect::Proceed,
            ),
        ),
        Opcode::SkipNEqReg(x, y) => Ok(
            (
                VmState {
                    pc: (pre.pc + if pre.regs[x as int] != pre.regs[y as int] {
                        4int
                    } else {
                        2int
                    }) as u16,
                    ..pre
                },
                Effect::Proceed,
            ),
        ),
        Opcode::SetAddressReg(nnn) => Ok(
            (VmState { i: nnn, pc: (pre.pc + 2) as u16, ..pre }, Effect::Proceed),
        ),
        Opcode::JumpOffset(nnn) => Ok(
            (VmState { pc: (nnn + pre.regs[0]) as u16, ..pre }, Effect::Proceed),
        ),
        Opcode::SetRand(x, kk) => Ok(
            (
                VmState {
                    regs: pre.regs.update(x as int, rnd & kk),
                    pc: (pre.pc + 2) as u16,
                    ..pre
                },
                Effect::Proceed,
            ),
        ),
        Opcode::Draw(x, y, n) => {
            let sx = pre.regs[x as int];
            let sy = pre.regs[y as int];
            let collided = sprite_collides(pre.screen, pre.mem, pre.i as int, sx, sy, n as int);
            Ok(
                (
                    VmState {
                        screen: sprite_blit(pre.screen, pre.mem, pre.i as int, sx, sy, n as int),
                        regs: pre.regs.update(
                            15,
                            if collided {
                                1u8
                            } else {
                                0u8
                            },
                        ),
                        pc: (pre.pc + 2) as u16,
                        ..pre
                    },
                    Effect::Render,
                ),
            )
        },
        Opcode::SkipKeyPress(x) => Ok(
            (
                VmState {
                    pc: (pre.pc + if key == Some(pre.regs[x as int]) {
                        4int
                    } else {
                        2int
                    }) as u16,
                    ..pre
                },
                Effect::Proceed,
            ),
        ),
        Opcode::SkipNoKeyPress(x) => Ok(
            (
                VmState {
                    pc: (pre.pc + if key != Some(pre.regs[x as int]) {
                        4int
                    } else {
                        2int
                    }) as u16,
                    ..pre
                },
                Effect::Proceed,
            ),
        ),
        Opcode::StoreDelayTimer(x) => Ok(
            (
                VmState {
                    regs: pre.regs.update(x as int, pre.delay),
                    pc: (pre.pc + 2) as u16,
                    ..pre
                },
                Effect::Proceed,
            ),
        ),
        Opcode::StoreKeypress(x) => {
            match key {
                Some(k) => Ok(
                    (
                        VmState {
                            regs: pre.regs.update(x as int, k),
                            pc: (pre.pc + 2) as u16,
                            ..pre
                        },
                        Effect::Proceed,
                    ),
                ),
                None => Ok((pre, Effect::WaitKey)),
            }
        },
        Opcode::SetDelayTimer(x) => Ok(
            (
                VmState { delay: pre.regs[x as int], pc: (pre.pc + 2) as u16, ..pre },
                Effect::Proceed,
            ),
        ),
        Opcode::SetSoundTimer(x) => Ok(
            (
                VmState { sound: pre.regs[x as int], pc: (pre.pc + 2) as u16, ..pre },
                Effect::Proceed,
            ),
        ),
        Opcode::IncrementAddressReg(x) => Ok(
            (
                VmState {
                    i: (pre.i + pre.regs[x as int]) as u16,
                    pc: (pre.pc + 2) as u16,
                    ..pre
                },
                Effect::Proceed,
            ),
        ),
        Opcode::StoreSpriteAddress(x) => Ok(
            (
                VmState {
                    i: (pre.regs[x as int] * 5) as u16,
                    pc: (pre.pc + 2) as u16,
                    ..pre
                },
                Effect::Proceed,
            ),
        ),
        Opcode::BinaryCodedDecimal(x) => {
            let v = pre.regs[x as int];
            Ok(
                (
                    VmState {
                        mem: pre.mem.update(pre.i as int, (v / 100) as u8).update(
                            pre.i as int + 1,
                            ((v / 10) % 10) as u8,
                        ).update(pre.i as int + 2, (v % 10) as u8),
                        pc: (pre.pc + 2) as u16,
                        ..pre
                    },
                    Effect::Proceed,
                ),
            )
        },
        Opcode::Dump(x) => Ok(
            (
                VmState {
                    mem: Seq::new(
                        4096,
                        |j: int|
                            if pre.i <= j <= pre.i + x {
                                pre.regs[j - pre.i]
                            } else {
                                pre.mem[j]
                            },
                    ),
                    i: (pre.i + x + 1) as u16,
                    pc: (pre.pc + 2) as u16,
                    ..pre
                },
                Effect::Proceed,
            ),
        ),
        Opcode::Load(x) => Ok(
            (
                VmState {
                    regs: Seq::new(
                        16,
                        |j: int|
                            if 0 <= j <= x {
                                pre.mem[pre.i + j]
                            } else {
                                pre.regs[j]
                            },
                    ),
                    i: (pre.i + x + 1) as u16,
                    pc: (pre.pc + 2) as u16,
                    ..pre
                },
                Effect::Proceed,
            ),
        ),
    }
}

/// Whether the memory accesses an instruction makes all land inside the
/// 4 KiB image, and its address arithmetic stays inside 16 bits. Only
/// instructions that read or write through the address register constrain
/// anything.
pub open spec fn exec_enabled(pre: VmState, op: Opcode) -> bool {
    match op {
        Opcode::Draw(_, _, n) => pre.i + n <= 4096,
        Opcode::BinaryCodedDecimal(_) => pre.i + 2 < 4096,
        Opcode::Dump(x) => pre.i + x < 4096,
        Opcode::Load(x) => pre.i + x < 4096,
        Opcode::IncrementAddressReg(x) => pre.i + pre.regs[x as int] <= 0xFFFF,
        _ => true,
    }
}

/// Whether a fetch-decode-execute step is possible: the program counter
/// addresses a full word, and the decoded instruction's accesses are in
/// bounds.
pub open spec fn can_execute(pre: VmState) -> bool {
    &&& pre.pc < 4095
    &&& match spec_decode(pre.mem[pre.pc as int], pre.mem[pre.pc as int + 1]) {
        Ok(op) => exec_enabled(pre, op),
        Err(_) => true,
    }
}

/// Whether `post` is `pre` re-initialised: memory kept, registers zeroed,
/// address register, stack and timers cleared, the program counter back at
/// 0x200, and the screen dark.
pub open spec fn is_reset_of(post: VmState, pre: VmState) -> bool {
    &&& post.mem == pre.mem
    &&& post.regs == Seq::new(16, |j: int| 0u8)
    &&& post.i == 0
    &&& post.stack.len() == 0
    &&& post.delay == 0
    &&& post.sound == 0
    &&& post.pc == 0x200
    &&& post.screen.len() == 2048
    &&& forall|p: int| 0 <= p < 2048 ==> !post.screen[p]
}

/// Whether dispatching `op` from `pre` with the given key and random byte
/// yields exactly the result `r` and successor state `post`.
pub open spec fn step_outcome(
    pre: VmState,
    post: VmState,
    r: Result<Effect, VmError>,
    op: Opcode,
    key: Option<u8>,
    rnd: u8,
) -> bool {
    match spec_execute(pre, op, key, rnd) {
        Ok(res) => r == Ok::<Effect, VmError>(res.1) && post == res.0,
        Err(e) => r == Err::<Effect, VmError>(e) && post == pre,
    }
}

/// Relies on rand::random: a byte from the thread-local generator, about
/// which nothing is promised.
#[verifier::external_body]
fn random_byte() -> u8 {
    rand::random::<u8>()
}

/// The CHIP-8 machine: memory image, sixteen registers, address register,
/// return stack, the two timers, program counter, and the framebuffer.
pub struct System {
    memory: Vec<Constant>,
    registers: Vec<Constant>,
    address_register: Address,
    stack: Vec<Address>,
    delay_timer: Constant,
    sound_timer: Constant,
    program_counter: Address,
    display: Display,
}

impl View for System {
    type V = VmState;

    closed spec fn view(&self) -> VmState {
        VmState {
            mem: self.memory@,
            regs: self.registers@,
            i: self.address_register,
            stack: self.stack@,
            delay: self.delay_timer,
            sound: self.sound_timer,
            pc: self.program_counter,
            screen: self.display@,
        }
    }
}

impl System {
    /// The machine's structural invariant.
    pub open spec fn wf(&self) -> bool {
        self@.wf()
    }

    /// A fresh machine: fonts at the bottom of memory, the program at
    /// 0x200 (truncated at 0xEA0), everything else zeroed, the program
    /// counter at 0x200, and a dark screen.
    pub fn new(program: &[u8]) -> (s: System)
        ensures
            s.wf(),
            s@.regs == Seq::new(16, |j: int| 0u8),
            s@.i == 0,
            s@.stack.len() == 0,
            s@.delay == 0,
            s@.sound == 0,
            s@.pc == 0x200,
            forall|p: int| 0 <= p < 2048 ==> !s@.screen[p],
            forall|j: int| 0 <= j < 448 ==> s@.mem[j] == SPRITE_DATA@[j],
            forall|j: int| 448 <= j < 0x200 ==> s@.mem[j] == 0,
            forall|k: int|
                0 <= k < program@.len() && k < 0xCA0 ==> s@.mem[0x200 + k] == program@[k],
            forall|j: int|
                0x200 <= j < 4096 && !(j < 0x200 + program@.len() && j < 0xEA0) ==> s@.mem[j]
                    == 0,
    {
        let mut memory: Vec<u8> = Vec::new();
        let mut i: usize = 0;
        while i < MEMORY_SIZE
            invariant
                i <= 4096,
                memory@.len() == i,
                forall|j: int| 0 <= j < i ==> memory@[j] == 0,
            decreases 4096 - i,
        {
            memory.push(0);
            i = i + 1;
        }
        load_fonts(&mut memory);
        load_program(&mut memory, program);

        let mut registers: Vec<u8> = Vec::new();
        let mut k: usize = 0;
        while k < 16
            invariant
                k <= 16,
                registers@.len() == k,
                forall|j: int| 0 <= j < k ==> registers@[j] == 0,
            decreases 16 - k,
        {
            registers.push(0);
            k = k + 1;
        }
        proof {
            assert(registers@ =~= Seq::new(16, |j: int| 0u8));
        }

        System {
            memory,
            registers,
            address_register: 0x0,
            stack: Vec::new(),
            delay_timer: 0,
            sound_timer: 0,
            program_counter: 0x200,
            display: Display::new(),
        }
    }

    /// Re-initialise registers, address register, stack, timers, program
    /// counter and screen; memory (fonts and program) is kept.
    pub fn reset(&mut self)
        requires
            old(self).wf(),
        ensures
            final(self).wf(),
            is_reset_of(final(self)@, old(self)@),
    {
        let mut registers: Vec<u8> = Vec::new();
        let mut k: usize = 0;
        while k < 16
            invariant
                k <= 16,
                registers@.len() == k,
                forall|j: int| 0 <= j < k ==> registers@[j] == 0,
            decreases 16 - k,
        {
            registers.push(0);
            k = k + 1;
        }
        proof {
            assert(registers@ =~= Seq::new(16, |j: int| 0u8));
        }
        self.registers = registers;
        self.address_register = 0x0;
        self.stack = Vec::new();
        self.delay_timer = 0;
        self.sound_timer = 0;
        self.program_counter = 0x200;
        self.display.clear();
    }

    /// The register `Vx`.
    pub fn get_register(&self, register: Register) -> (r: Constant)
        requires
            self.wf(),
            register < 16,
        ensures
            r == self@.regs[register as int],
    {
        self.registers[register as usize]
    }

    /// Write the register `Vx`; nothing else changes.
    pub fn set_register(&mut self, register: Register, value: Constant)
        requires
            old(self).wf(),
            register < 16,
        ensures
            final(self).wf(),
            final(self)@ == (VmState {
                regs: old(self)@.regs.update(register as int, value),
                ..old(self)@
            }),
    {
        self.registers[register as usize] = value;
    }

    /// Write the flag register VF; nothing else changes.
    fn set_flag_register(&mut self, value: Constant)
        requires
            old(self).wf(),
        ensures
            final(self).wf(),
            final(self)@ == (VmState { regs: old(self)@.regs.update(15, value), ..old(self)@ }),
    {
        self.registers[0xF] = value;
    }

    /// The byte at `address`.
    pub fn get_memory(&self, address: Address) -> (r: Constant)
        requires
            self.wf(),
            address < 4096,
        ensures
            r == self@.mem[address as int],
    {
        self.memory[address as usize]
    }

    /// Write the byte at `address`; nothing else changes.
    pub fn set_memory(&mut self, address: Address, value: Constant)
        requires
            old(self).wf(),
            address < 4096,
        ensures
            final(self).wf(),
            final(self)@ == (VmState {
                mem: old(self)@.mem.update(address as int, value),
                ..old(self)@
            }),
    {
        self.memory[address as usize] = value;
    }

    /// The address register I.
    pub fn address_register(&self) -> (r: Address)
        ensures
            r == self@.i,
    {
        self.address_register
    }

    /// The program counter.
    pub fn program_counter(&self) -> (r: Address)
        ensures
            r == self@.pc,
    {
        self.program_counter
    }

    /// The delay timer.
    pub fn delay_timer(&self) -> (r: Constant)
        ensures
            r == self@.delay,
    {
        self.delay_timer
    }

    /// The sound timer.
    pub fn sound_timer(&self) -> (r: Constant)
        ensures
            r == self@.sound,
    {
        self.sound_timer
    }

    /// How many return addresses are stacked.
    pub fn stack_len(&self) -> (r: usize)
        ensures
            r == self@.stack.len(),
    {
        self.stack.len()
    }

    /// The pixel at column `x`, row `y` of the framebuffer.
    pub fn pixel(&self, x: usize, y: usize) -> (r: bool)
        requires
            self.wf(),
            x < 64,
            y < 32,
        ensures
            r == self@.screen[y * 64 + x],
    {
        self.display.pixel(x, y)
    }

    /// The word at the program counter, big end first.
    pub fn fetch(&self) -> (r: (u8, u8))
        requires
            self.wf(),
            self@.pc < 4095,
        ensures
            r.0 == self@.mem[self@.pc as int],
            r.1 == self@.mem[self@.pc as int + 1],
    {
        (self.memory[self.program_counter as usize], self.memory[
            self.program_counter as usize + 1
        ])
    }

    /// Whether a step may be taken right now: the program counter addresses
    /// a full word and the instruction there stays inside memory.
    pub fn can_step(&self) -> (r: bool)
        requires
            self.wf(),
        ensures
            r == can_execute(self@),
    {
        if self.program_counter >= 4095 {
            return false;
        }
        let (b1, b2) = self.fetch();
        match Opcode::from(b1, b2) {
            Ok(op) => match op {
                Opcode::Draw(_, _, n) => (self.address_register as u32 + n as u32) <= 4096,
                Opcode::BinaryCodedDecimal(_) => (self.address_register as u32 + 2) < 4096,
                Opcode::Dump(x) => (self.address_register as u32 + x as u32) < 4096,
                Opcode::Load(x) => (self.address_register as u32 + x as u32) < 4096,
                Opcode::IncrementAddressReg(x) => (self.address_register as u32
                    + self.get_register(x) as u32) <= 0xFFFF,
                _ => true,
            },
            Err(_) => true,
        }
    }

    /// Decrement both timers toward zero and report whether the tone should
    /// be audible, that is whether the sound timer is still running.
    pub fn tick(&mut self) -> (sound_on: bool)
        requires
            old(self).wf(),
        ensures
            final(self).wf(),
            final(self)@ == (VmState {
                delay: dec_timer(old(self)@.delay),
                sound: dec_timer(old(self)@.sound),
                ..old(self)@
            }),
            sound_on == (final(self)@.sound > 0),
    {
        if self.delay_timer > 0 {
            self.delay_timer = self.delay_timer - 1;
        }
        if self.sound_timer > 0 {
            self.sound_timer = self.sound_timer - 1;
        }
        self.sound_timer > 0
    }

    /// Execute one decoded instruction against the machine. `key` is the
    /// hex key the keypad currently reports, if any; `random` is the byte
    /// used by `SetRand`. The result and the whole successor state follow
    /// `spec_execute` exactly.
    pub fn process_opcode(&mut self, opcode: Opcode, key: Option<u8>, random: u8) -> (r: Result<
        Effect,
        VmError,
    >)
        requires
            old(self).wf(),
            opcode_wf(opcode),
            old(self)@.pc < 4095,
            exec_enabled(old(self)@, opcode),
        ensures
            final(self).wf(),
            (match spec_execute(old(self)@, opcode, key, random) {
                Ok(res) => r == Ok::<Effect, VmError>(res.1) && final(self)@ == res.0,
                Err(e) => r == Err::<Effect, VmError>(e) && final(self)@ == old(self)@,
            }),
    {
        match opcode {
            Opcode::Call(_) => {
                self.program_counter = self.program_counter + WORD_SIZE;
                Ok(Effect::Proceed)
            },
            Opcode::Clear => {
                self.display.clear();
                self.program_counter = self.program_counter + WORD_SIZE;
                proof {
                    assert(self@.screen =~= Seq::new(2048, |p: int| false));
                }
                Ok(Effect::Render)
            },
            Opcode::Return => {
                match self.stack.pop() {
                    Some(address) => {
                        self.program_counter = address + WORD_SIZE;
                        proof {
                            assert(self@.stack =~= old(self)@.stack.drop_last());
                        }
                        Ok(Effect::Proceed)
                    },
                    None => Err(VmError::StackUnderflow),
                }
            },
            Opcode::Goto(address) => {
                self.program_counter = address;
                Ok(Effect::Proceed)
            },
            Opcode::CallFunction(address) => {
                self.stack.push(self.program_counter);
                self.program_counter = address;
                Ok(Effect::Proceed)
            },
            Opcode::SkipEq(register, constant) => {
                if self.get_register(register) == constant {
                    self.program_counter = self.program_counter + 2 * WORD_SIZE;
                } else {
                    self.program_counter = self.program_counter + WORD_SIZE;
                }
                Ok(Effect::Proceed)
            },
            Opcode::SkipNEq(register, constant) => {
                if self.get_register(register) != constant {
                    self.program_counter = self.program_counter + 2 * WORD_SIZE;
                } else {
                    self.program_counter = self.program_counter + WORD_SIZE;
                }
                Ok(Effect::Proceed)
            },
            Opcode::SkipEqReg(first, second) => {
                if self.get_register(first) == self.get_register(second) {
                    self.program_counter = self.program_counter + 2 * WORD_SIZE;
                } else {
                    self.program_counter = self.program_counter + WORD_SIZE;
                }
                Ok(Effect::Proceed)
            },
            Opcode::SetConst(register, constant) => {
                self.set_register(register, constant);
                self.program_counter = self.program_counter + WORD_SIZE;
                Ok(Effect::Proceed)
            },
            Opcode::AddAssign(register, constant) => {
                let value = self.get_register(register);
                let result = ((value as u16 + constant as u16) % 256) as u8;
                self.set_register(register, result);
                self.program_counter = self.program_counter + WORD_SIZE;
                Ok(Effect::Proceed)
            },
            Opcode::Copy(to, from) => {
                let from_value = self.get_register(from);
                self.set_register(to, from_value);
                self.program_counter = self.program_counter + WORD_SIZE;
                Ok(Effect::Proceed)
            },
            Opcode::Or(first, second) => {
                let first_value = self.get_register(first);
                let second_value = self.get_register(second);
                self.set_register(first, first_value | second_value);
                self.program_counter = self.program_counter + WORD_SIZE;
                Ok(Effect::Proceed)
            },
            Opcode::And(first, second) => {
                let first_value = self.get_register(first);
                let second_value = self.get_register(second);
                self.set_register(first, first_value & second_value);
                self.program_counter = self.program_counter + WORD_SIZE;
                Ok(Effect::Proceed)
            },
            Opcode::Xor(first, second) => {
                let first_value = self.get_register(first);
                let second_value = self.get_register(second);
                self.set_register(first, first_value ^ second_value);
                self.program_counter = self.program_counter + WORD_SIZE;
                Ok(Effect::Proceed)
            },
            Opcode::AddAssignReg(first, second) => {
                let first_value = self.get_register(first);
                let second_value = self.get_register(second);
                let sum = first_value as u16 + second_value as u16;
                let result = (sum % 256) as u8;
                self.set_register(first, result);
                if sum >= 256 {
                    self.set_flag_register(0x1);
                } else {
                    self.set_flag_register(0x0);
                }
                self.program_counter = self.program_counter + WORD_SIZE;
                Ok(Effect::Proceed)
            },
            Opcode::SubAssignReg(first, second) => {
                let first_value = self.get_register(first);
                let second_value = self.get_register(second);
                let result = ((first_value as u16 + 256 - second_value as u16) % 256) as u8;
                self.set_register(first, result);
                if first_value >= second_value {
                    self.set_flag_register(0x1);
                } else {
                    self.set_flag_register(0x0);
                }
                self.program_counter = self.program_counter + WORD_SIZE;
                Ok(Effect::Proceed)
            },
            Opcode::ShiftRight(first, second) => {
                let original_value = self.get_register(second);
                let lowest_bit = original_value % 2;
                let value = original_value / 2;
                self.set_register(first, value);
                self.set_flag_register(lowest_bit);
                self.program_counter = self.program_counter + WORD_SIZE;
                Ok(Effect::Proceed)
            },
            Opcode::Subtract(first, second) => {
                let first_value = self.get_register(first);
                let second_value = self.get_register(second);
                let result = ((second_value as u16 + 256 - first_value as u16) % 256) as u8;
                self.set_register(first, result);
                if second_value >= first_value {
                    self.set_flag_register(0x1);
                } else {
                    self.set_flag_register(0x0);
                }
                self.program_counter = self.program_counter + WORD_SIZE;
                Ok(Effect::Proceed)
            },
            Opcode::ShiftLeft(first, second) => {
                let original_value = self.get_register(second);
                let highest_bit = original_value / 128;
                let value = ((original_value as u16 * 2) % 256) as u8;
                self.set_register(first, value);
                self.set_flag_register(highest_bit);
                self.program_counter = self.program_counter + WORD_SIZE;
                Ok(Effect::Proceed)
            },
            Opcode::SkipNEqReg(first, second) => {
                if self.get_register(first) != self.get_register(second) {
                    self.program_counter = self.program_counter + 2 * WORD_SIZE;
                } else {
                    self.program_counter = self.program_counter + WORD_SIZE;
                }
                Ok(Effect::Proceed)
            },
            Opcode::SetAddressReg(address) => {
                self.address_register = address;
                self.program_counter = self.program_counter + WORD_SIZE;
                Ok(Effect::Proceed)
            },
            Opcode::JumpOffset(address) => {
                self.program_counter = address + self.get_register(0x0) as u16;
                Ok(Effect::Proceed)
            },
            Opcode::SetRand(register, constant) => {
                self.set_register(register, random & constant);
                self.program_counter = self.program_counter + WORD_SIZE;
                Ok(Effect::Proceed)
            },
            Opcode::Draw(first, second, constant) => {
                let x_val = self.get_register(first);
                let y_val = self.get_register(second);
                let n = constant;
                let base = self.address_register;
                let ghost pre = old(self)@;
                let mut collision = false;
                let mut r: u8 = 0;
                while r < n
                    invariant
                        r <= n,
                        n < 16,
                        base == pre.i,
                        pre.i + n <= 4096,
                        pre.wf(),
                        x_val == pre.regs[first as int],
                        y_val == pre.regs[second as int],
                        self@.mem == pre.mem,
                        self@.regs == pre.regs,
                        self@.i == pre.i,
                        self@.stack == pre.stack,
                        self@.delay == pre.delay,
                        self@.sound == pre.sound,
                        self@.pc == pre.pc,
                        self@.screen.len() == 2048,
                        forall|p: int|
                            0 <= p < 2048 ==> self@.screen[p] == (pre.screen[p] != sprite_hits(
                                pre.mem,
                                pre.i as int,
                                x_val,
                                y_val,
                                r as int,
                                p,
                            )),
                        collision == sprite_collides(
                            pre.screen,
                            pre.mem,
                            pre.i as int,
                            x_val,
                            y_val,
                            r as int,
                        ),
                    decreases n - r,
                {
                    let sprite = self.get_memory(base + r as u16);
                    let yy = (((y_val as u16) + (r as u16)) % 32) as u8;
                    proof {
                        assert(yy == sprite_row_y(y_val, r as int));
                    }
                    let ghost prev_screen = self@.screen;
                    let c = self.display.draw(x_val, yy, sprite);
                    proof {
                        let i0 = pre.i as int;
                        let rr = r as int;
                        // Pixels on this sprite row were untouched so far.
                        assert forall|b: int| 0 <= b < 8 implies prev_screen[pixel_index(
                            x_val,
                            yy,
                            b,
                        )] == pre.screen[pixel_index(x_val, yy, b)] by {
                            let p = pixel_index(x_val, yy, b);
                            assert(0 <= (x_val as int % 64 + b) % 64 < 64);
                            assert(p / 64 == yy as int % 32);
                            assert(yy as int % 32 == yy as int);
                            lemma_prefix_misses_row(pre.mem, i0, x_val, y_val, rr, rr, p);
                        }
                        // The reported collision is against the original screen.
                        assert(row_collides(prev_screen, x_val, yy, sprite) == row_collides(
                            pre.screen,
                            x_val,
                            yy,
                            sprite,
                        )) by {
                            if row_collides(prev_screen, x_val, yy, sprite) {
                                let b = choose|b: int|
                                    0 <= b < 8 && spec_bit(sprite, b) && prev_screen[pixel_index(
                                        x_val,
                                        yy,
                                        b,
                                    )];
                                assert(pre.screen[pixel_index(x_val, yy, b)]);
                            }
                            if row_collides(pre.screen, x_val, yy, sprite) {
                                let b = choose|b: int|
                                    0 <= b < 8 && spec_bit(sprite, b) && pre.screen[pixel_index(
                                        x_val,
                                        yy,
                                        b,
                                    )];
                                assert(prev_screen[pixel_index(x_val, yy, b)]);
                            }
                        }
                        // The new screen is the blit of one more row.
                        assert forall|p: int| 0 <= p < 2048 implies self@.screen[p] == (
                        pre.screen[p] != sprite_hits(
                            pre.mem,
                            i0,
                            x_val,
                            y_val,
                            rr + 1,
                            p,
                        )) by {
                            assert(self@.screen[p] == (prev_screen[p] != row_hits(
                                x_val,
                                yy,
                                sprite,
                                p,
                            )));
                            if row_hits(x_val, yy, sprite, p) {
                                lemma_row_hits_on_row(x_val, yy, sprite, p);
                                assert(yy as int % 32 == yy as int);
                                lemma_prefix_misses_row(pre.mem, i0, x_val, y_val, rr, rr, p);
                                assert(sprite_hits(pre.mem, i0, x_val, y_val, rr + 1, p)) by {
                                    assert(row_hits(
                                        x_val,
                                        sprite_row_y(y_val, rr),
                                        pre.mem[i0 + rr],
                                        p,
                                    ));
                                }
                            } else {
                                assert(sprite_hits(pre.mem, i0, x_val, y_val, rr + 1, p)
                                    == sprite_hits(pre.mem, i0, x_val, y_val, rr, p)) by {
                                    if sprite_hits(pre.mem, i0, x_val, y_val, rr + 1, p) {
                                        let r2 = choose|r2: int|
                                            0 <= r2 < rr + 1 && row_hits(
                                                x_val,
                                                sprite_row_y(y_val, r2),
                                                pre.mem[i0 + r2],
                                                p,
                                            );
                                        assert(r2 != rr);
                                        assert(sprite_hits(pre.mem, i0, x_val, y_val, rr, p));
                                    }
                                }
                            }
                        }
                        // One more row's collision folded in.
                        assert(sprite_collides(pre.screen, pre.mem, i0, x_val, y_val, rr + 1) == (
                        sprite_collides(pre.screen, pre.mem, i0, x_val, y_val, rr) || row_collides(
                            pre.screen,
                            x_val,
                            yy,
                            sprite,
                        ))) by {
                            if sprite_collides(pre.screen, pre.mem, i0, x_val, y_val, rr + 1) {
                                let r2 = choose|r2: int|
                                    0 <= r2 < rr + 1 && row_collides(
                                        pre.screen,
                                        x_val,
                                        sprite_row_y(y_val, r2),
                                        pre.mem[i0 + r2],
                                    );
                                if r2 == rr {
                                    assert(row_collides(pre.screen, x_val, yy, sprite));
                                } else {
                                    assert(sprite_collides(pre.screen, pre.mem, i0, x_val, y_val, rr));
                                }
                            }
                            if sprite_collides(pre.screen, pre.mem, i0, x_val, y_val, rr) {
                                let r2 = choose|r2: int|
                                    0 <= r2 < rr && row_collides(
                                        pre.screen,
                                        x_val,
                                        sprite_row_y(y_val, r2),
                                        pre.mem[i0 + r2],
                                    );
                                assert(sprite_collides(pre.screen, pre.mem, i0, x_val, y_val, rr + 1));
                            }
                            if row_collides(pre.screen, x_val, yy, sprite) {
                                assert(row_collides(
                                    pre.screen,
                                    x_val,
                                    sprite_row_y(y_val, rr),
                                    pre.mem[i0 + rr],
                                ));
                                assert(sprite_collides(pre.screen, pre.mem, i0, x_val, y_val, rr + 1));
                            }
                        }
                    }
                    collision = collision || c;
                    r = r + 1;
                }
                if collision {
                    self.set_flag_register(0x1);
                } else {
                    self.set_flag_register(0x0);
                }
                self.program_counter = self.program_counter + WORD_SIZE;
                proof {
                    assert(self@.screen =~= sprite_blit(
                        pre.screen,
                        pre.mem,
                        pre.i as int,
                        pre.regs[first as int],
                        pre.regs[second as int],
                        n as int,
                    ));
                }
                Ok(Effect::Render)
            },
            Opcode::SkipKeyPress(register) => {
                let expected_key = self.get_register(register);
                let hit = match key {
                    Some(k) => k == expected_key,
                    None => false,
                };
                if hit {
                    self.program_counter = self.program_counter + 2 * WORD_SIZE;
                } else {
                    self.program_counter = self.program_counter + WORD_SIZE;
                }
                Ok(Effect::Proceed)
            },
            Opcode::SkipNoKeyPress(register) => {
                let expected_key = self.get_register(register);
                let hit = match key {
                    Some(k) => k == expected_key,
                    None => false,
                };
                if !hit {
                    self.program_counter = self.program_counter + 2 * WORD_SIZE;
                } else {
                    self.program_counter = self.program_counter + WORD_SIZE;
                }
                Ok(Effect::Proceed)
            },
            Opcode::StoreDelayTimer(register) => {
                let delay = self.delay_timer;
                self.set_register(register, delay);
                self.program_counter = self.program_counter + WORD_SIZE;
                Ok(Effect::Proceed)
            },
            Opcode::StoreKeypress(register) => {
                match key {
                    Some(k) => {
                        self.set_register(register, k);
                        self.program_counter = self.program_counter + WORD_SIZE;
                        Ok(Effect::Proceed)
                    },
                    None => Ok(Effect::WaitKey),
                }
            },
            Opcode::SetDelayTimer(register) => {
                self.delay_timer = self.get_register(register);
                self.program_counter = self.program_counter + WORD_SIZE;
                Ok(Effect::Proceed)
            },
            Opcode::SetSoundTimer(register) => {
                self.sound_timer = self.get_register(register);
                self.program_counter = self.program_counter + WORD_SIZE;
                Ok(Effect::Proceed)
            },
            Opcode::IncrementAddressReg(register) => {
                self.address_register = self.address_register + self.get_register(register)
                    as u16;
                self.program_counter = self.program_counter + WORD_SIZE;
                Ok(Effect::Proceed)
            },
            Opcode::StoreSpriteAddress(register) => {
                self.address_register = self.get_register(register) as u16 * 5;
                self.program_counter = self.program_counter + WORD_SIZE;
                Ok(Effect::Proceed)
            },
            Opcode::BinaryCodedDecimal(register) => {
                let memory_location = self.address_register;
                let value = self.get_register(register);

                let hundreds = value / 100;
                let tens = (value / 10) % 10;
                let ones = value % 10;

                self.set_memory(memory_location, hundreds);
                self.set_memory(memory_location + 1, tens);
                self.set_memory(memory_location + 2, ones);

                self.program_counter = self.program_counter + WORD_SIZE;
                Ok(Effect::Proceed)
            },
            Opcode::Dump(register) => {
                let base = self.address_register;
                let ghost pre = old(self)@;
                let mut k: u8 = 0;
                while k <= register
                    invariant
                        k <= register + 1,
                        register < 16,
                        base == pre.i,
                        pre.i + register < 4096,
                        pre.wf(),
                        self@.regs == pre.regs,
                        self@.i == pre.i,
                        self@.stack == pre.stack,
                        self@.delay == pre.delay,
                        self@.sound == pre.sound,
                        self@.pc == pre.pc,
                        self@.screen == pre.screen,
                        self@.mem.len() == 4096,
                        forall|j: int|
                            pre.i <= j < pre.i + k ==> self@.mem[j] == pre.regs[j - pre.i],
                        forall|j: int|
                            0 <= j < 4096 && !(pre.i <= j < pre.i + k) ==> self@.mem[j]
                                == pre.mem[j],
                    decreases register + 1 - k,
                {
                    let value = self.get_register(k);
                    self.set_memory(base + k as u16, value);
                    k = k + 1;
                }
                self.address_register = base + register as u16 + 1;
                self.program_counter = self.program_counter + WORD_SIZE;
                proof {
                    assert(self@.mem =~= Seq::new(
                        4096,
                        |j: int|
                            if pre.i <= j <= pre.i + register {
                                pre.regs[j - pre.i]
                            } else {
                                pre.mem[j]
                            },
                    ));
                }
                Ok(Effect::Proceed)
            },
            Opcode::Load(register) => {
                let base = self.address_register;
                let ghost pre = old(self)@;
                let mut k: u8 = 0;
                while k <= register
                    invariant
                        k <= register + 1,
                        register < 16,
                        base == pre.i,
                        pre.i + register < 4096,
                        pre.wf(),
                        self@.mem == pre.mem,
                        self@.i == pre.i,
                        self@.stack == pre.stack,
                        self@.delay == pre.delay,
                        self@.sound == pre.sound,
                        self@.pc == pre.pc,
                        self@.screen == pre.screen,
                        self@.regs.len() == 16,
                        forall|j: int| 0 <= j < k ==> self@.regs[j] == pre.mem[pre.i + j],
                        forall|j: int| k <= j < 16 ==> self@.regs[j] == pre.regs[j],
                    decreases register + 1 - k,
                {
                    let value = self.get_memory(base + k as u16);
                    self.set_register(k, value);
                    k = k + 1;
                }
                self.address_register = base + register as u16 + 1;
                self.program_counter = self.program_counter + WORD_SIZE;
                proof {
                    assert(self@.regs =~= Seq::new(
                        16,
                        |j: int|
                            if 0 <= j <= register {
                                pre.mem[pre.i + j]
                            } else {
                                pre.regs[j]
                            },
                    ));
                }
                Ok(Effect::Proceed)
            },
        }
    }

    /// One fetch-decode-execute step. A word that names no instruction is
    /// skipped; an instruction is dispatched with the given key and a fresh
    /// random byte.
    pub fn step(&mut self, key: Option<u8>) -> (r: Result<Effect, VmError>)
        requires
            old(self).wf(),
            can_execute(old(self)@),
        ensures
            final(self).wf(),
            (match spec_decode(
                old(self)@.mem[old(self)@.pc as int],
                old(self)@.mem[old(self)@.pc as int + 1],
            ) {
                Err(_) => r == Ok::<Effect, VmError>(Effect::Proceed) && final(self)@
                    == (VmState { pc: (old(self)@.pc + 2) as u16, ..old(self)@ }),
                Ok(op) => exists|rnd: u8|
                    #[trigger] step_outcome(old(self)@, final(self)@, r, op, key, rnd),
            }),
    {
        let (first_byte, second_byte) = self.fetch();
        match Opcode::from(first_byte, second_byte) {
            Ok(opcode) => {
                let random = random_byte();
                let result = self.process_opcode(opcode, key, random);
                proof {
                    let op = spec_decode(
                        old(self)@.mem[old(self)@.pc as int],
                        old(self)@.mem[old(self)@.pc as int + 1],
                    )->Ok_0;
                    assert(step_outcome(old(self)@, self@, result, op, key, random));
                }
                result
            },
            Err(_) => {
                self.program_counter = self.program_counter + WORD_SIZE;
                Ok(Effect::Proceed)
            },
        }
    }
}


/// The carry law of AddAssignReg: when Vx + Vy reaches 256 the flag is set
/// and Vx wraps down by 256, else the flag is cleared and Vx is the plain
/// sum. (VF itself cannot be the destination: its flag write wins.)
pub proof fn lemma_add_assign_reg(pre: VmState, x: Register, y: Register, key: Option<u8>, rnd: u8)
    requires
        pre.wf(),
        x < 15,
        y < 16,
    ensures
        spec_execute(pre, Opcode::AddAssignReg(x, y), key, rnd) is Ok,
        ({
            let post = spec_execute(pre, Opcode::AddAssignReg(x, y), key, rnd)->Ok_0.0;
            if pre.regs[x as int] + pre.regs[y as int] >= 256 {
                post.regs[15] == 1 && post.regs[x as int] == pre.regs[x as int]
                    + pre.regs[y as int] - 256
            } else {
                post.regs[15] == 0 && post.regs[x as int] == pre.regs[x as int]
                    + pre.regs[y as int]
            }
        }),
{
}

/// The borrow law of SubAssignReg: when Vx is at least Vy the flag is set
/// and Vx becomes their difference, else the flag is cleared and Vx wraps
/// up by 256. (VF itself cannot be the destination: its flag write wins.)
pub proof fn lemma_sub_assign_reg(pre: VmState, x: Register, y: Register, key: Option<u8>, rnd: u8)
    requires
        pre.wf(),
        x < 15,
        y < 16,
    ensures
        spec_execute(pre, Opcode::SubAssignReg(x, y), key, rnd) is Ok,
        ({
            let post = spec_execute(pre, Opcode::SubAssignReg(x, y), key, rnd)->Ok_0.0;
            if pre.regs[x as int] >= pre.regs[y as int] {
                post.regs[15] == 1 && post.regs[x as int] == pre.regs[x as int]
                    - pre.regs[y as int]
            } else {
                post.regs[15] == 0 && post.regs[x as int] == pre.regs[x as int]
                    - pre.regs[y as int] + 256
            }
        }),
{
}

/// Drawing a sprite none of whose lit bits lands on a lit pixel reports no
/// collision.
pub proof fn lemma_draw_no_overlap(s: Seq<bool>, mem: Seq<u8>, i0: int, x: u8, y: u8, n: int)
    requires
        s.len() == 2048,
        0 <= n < 16,
        forall|r: int, b: int|
            0 <= r < n && 0 <= b < 8 && spec_bit(mem[i0 + r], b) ==> !s[pixel_index(
                x,
                sprite_row_y(y, r),
                b,
            )],
    ensures
        !sprite_collides(s, mem, i0, x, y, n),
{
    if sprite_collides(s, mem, i0, x, y, n) {
        let r = choose|r: int| 0 <= r < n && row_collides(s, x, sprite_row_y(y, r), mem[i0 + r]);
        let b = choose|b: int|
            0 <= b < 8 && spec_bit(mem[i0 + r], b) && s[pixel_index(x, sprite_row_y(y, r), b)];
        assert(!s[pixel_index(x, sprite_row_y(y, r), b)]);
    }
}

/// Drawing the same sprite twice at the same anchor restores the screen;
/// and when the first draw fell only on dark pixels and some source bit is
/// lit, the second draw reports a collision.
pub proof fn lemma_draw_twice(s: Seq<bool>, mem: Seq<u8>, i0: int, x: u8, y: u8, n: int)
    requires
        s.len() == 2048,
        0 <= n < 16,
    ensures
        sprite_blit(sprite_blit(s, mem, i0, x, y, n), mem, i0, x, y, n) == s,
        ((forall|r: int, b: int|
            0 <= r < n && 0 <= b < 8 && spec_bit(mem[i0 + r], b) ==> !s[pixel_index(
                x,
                sprite_row_y(y, r),
                b,
            )]) && (exists|r: int, b: int|
            0 <= r < n && 0 <= b < 8 && #[trigger] spec_bit(mem[i0 + r], b))) ==> sprite_collides(
            sprite_blit(s, mem, i0, x, y, n),
            mem,
            i0,
            x,
            y,
            n,
        ),
{
    let s1 = sprite_blit(s, mem, i0, x, y, n);
    assert forall|p: int| 0 <= p < 2048 implies sprite_blit(s1, mem, i0, x, y, n)[p] == s[p] by {
        assert(s1[p] == (s[p] != sprite_hits(mem, i0, x, y, n, p)));
    }
    assert(sprite_blit(s1, mem, i0, x, y, n) =~= s);
    if (forall|r: int, b: int|
        0 <= r < n && 0 <= b < 8 && spec_bit(mem[i0 + r], b) ==> !s[pixel_index(
            x,
            sprite_row_y(y, r),
            b,
        )]) && (exists|r: int, b: int|
        0 <= r < n && 0 <= b < 8 && #[trigger] spec_bit(mem[i0 + r], b)) {
        let (r, b) = choose|r: int, b: int|
            0 <= r < n && 0 <= b < 8 && #[trigger] spec_bit(mem[i0 + r], b);
        let yr = sprite_row_y(y, r);
        let p = pixel_index(x, yr, b);
        lemma_row_hits_on_row(x, yr, mem[i0 + r], p);
        assert(row_hits(x, yr, mem[i0 + r], p));
        assert(sprite_hits(mem, i0, x, y, n, p));
        assert(!s[p]);
        assert(s1[p]);
        assert(row_collides(s1, x, yr, mem[i0 + r]));
        assert(sprite_collides(s1, mem, i0, x, y, n));
    }
}

/// The Dump/Load round trip: dump V0..Vx at the address register's base,
/// then, from a machine whose registers were cleared but whose memory and
/// base are kept, load them back; V0..Vx are as before the dump.
pub proof fn lemma_dump_load_round_trip(pre: VmState, x: Register, key: Option<u8>, rnd: u8)
    requires
        pre.wf(),
        x < 16,
        pre.i + x < 4096,
    ensures
        spec_execute(pre, Opcode::Dump(x), key, rnd) is Ok,
        ({
            let dumped = spec_execute(pre, Opcode::Dump(x), key, rnd)->Ok_0.0;
            let between = VmState { regs: Seq::new(16, |j: int| 0u8), i: pre.i, ..dumped };
            let loaded = spec_execute(between, Opcode::Load(x), key, rnd)->Ok_0.0;
            forall|j: int| 0 <= j <= x ==> loaded.regs[j] == pre.regs[j]
        }),
{
    let dumped = spec_execute(pre, Opcode::Dump(x), key, rnd)->Ok_0.0;
    let between = VmState { regs: Seq::new(16, |j: int| 0u8), i: pre.i, ..dumped };
    let loaded = spec_execute(between, Opcode::Load(x), key, rnd)->Ok_0.0;
    assert forall|j: int| 0 <= j <= x implies loaded.regs[j] == pre.regs[j] by {
        assert(dumped.mem[pre.i + j] == pre.regs[j]);
    }
}


/// The two-draw law at machine level: a Draw whose lit source bits all fall
/// on dark pixels leaves VF clear; the same Draw again restores the screen
/// and, since some source bit is lit, sets VF. (VF cannot anchor the
/// sprite: Draw overwrites it.)
pub proof fn lemma_draw_twice_machine(
    pre: VmState,
    x: Register,
    y: Register,
    n: u8,
    key: Option<u8>,
    rnd: u8,
)
    requires
        pre.wf(),
        x < 15,
        y < 15,
        n < 16,
        forall|r: int, b: int|
            0 <= r < n && 0 <= b < 8 && spec_bit(pre.mem[pre.i + r], b) ==> !pre.screen[
                pixel_index(
                    pre.regs[x as int],
                    sprite_row_y(pre.regs[y as int], r),
                    b,
                )
            ],
        exists|r: int, b: int|
            0 <= r < n && 0 <= b < 8 && #[trigger] spec_bit(pre.mem[pre.i + r], b),
    ensures
        spec_execute(pre, Opcode::Draw(x, y, n), key, rnd) is Ok,
        ({
            let once = spec_execute(pre, Opcode::Draw(x, y, n), key, rnd)->Ok_0.0;
            let twice = spec_execute(once, Opcode::Draw(x, y, n), key, rnd)->Ok_0.0;
            &&& once.regs[15] == 0
            &&& twice.regs[15] == 1
            &&& twice.screen == pre.screen
        }),
{
    let sx = pre.regs[x as int];
    let sy = pre.regs[y as int];
    let once = spec_execute(pre, Opcode::Draw(x, y, n), key, rnd)->Ok_0.0;
    lemma_draw_no_overlap(pre.screen, pre.mem, pre.i as int, sx, sy, n as int);
    assert(once.regs[15] == 0);
    assert(once.regs[x as int] == sx);
    assert(once.regs[y as int] == sy);
    assert(once.mem == pre.mem);
    assert(once.i == pre.i);
    lemma_draw_twice(pre.screen, pre.mem, pre.i as int, sx, sy, n as int);
    let twice = spec_execute(once, Opcode::Draw(x, y, n), key, rnd)->Ok_0.0;
    assert(twice.screen == pre.screen);
    assert(twice.regs[15] == 1);
}

} // verus!
