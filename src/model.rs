use vstd::prelude::*;
use crate::decode::{Instruction, decoded};
use crate::display::{collides, drawn, PIXELS};

verus! {

/// Bytes of memory.
pub const MEMORY_SIZE: usize = 4096;

/// Address at which a program image is loaded and execution starts.
pub const PROGRAM_START: u16 = 0x200;

/// Largest program image, in bytes: all memory from `PROGRAM_START` up. The
/// call stack is kept apart from memory, so no part of it is reserved.
pub const MAX_PROGRAM_SIZE: usize = 3584;

/// Number of general registers.
pub const REGISTER_COUNT: usize = 16;

/// Index of the flag register `VF`.
pub const FLAG: u8 = 15;

/// Deepest nesting of subroutine calls.
pub const STACK_DEPTH: usize = 16;

/// Bytes per built-in glyph; glyph `k` starts at address `k * GLYPH_SIZE`.
pub const GLYPH_SIZE: u16 = 5;

/// A fatal condition that stops execution.
#[derive(Clone, Copy, Debug, PartialEq, Eq, Structural)]
pub enum Chip8Error {
    /// The program image does not fit in memory.
    LoadTooLarge,
    /// A call would nest deeper than `STACK_DEPTH`.
    StackOverflow,
    /// A return with no call to return from.
    StackUnderflow,
    /// A memory access past the end of memory.
    OutOfBoundsAccess,
}

/// The built-in hexadecimal glyphs, 5 rows each, for the digits 0 to F.
pub open spec fn font() -> Seq<u8> {
    seq![
        0xF0u8, 0x90, 0x90, 0x90, 0xF0, 0x20, 0x60, 0x20, 0x20, 0x70,
        0xF0, 0x10, 0xF0, 0x80, 0xF0, 0xF0, 0x10, 0xF0, 0x10, 0xF0,
        0x90, 0x90, 0xF0, 0x10, 0x10, 0xF0, 0x80, 0xF0, 0x10, 0xF0,
        0xF0, 0x80, 0xF0, 0x90, 0xF0, 0xF0, 0x10, 0x20, 0x40, 0x40,
        0xF0, 0x90, 0xF0, 0x90, 0xF0, 0xF0, 0x90, 0xF0, 0x10, 0xF0,
        0xF0, 0x90, 0xF0, 0x90, 0x90, 0xE0, 0x90, 0xE0, 0x90, 0xE0,
        0xF0, 0x80, 0x80, 0x80, 0xF0, 0xE0, 0x90, 0x90, 0x90, 0xE0,
        0xF0, 0x80, 0xF0, 0x80, 0xF0, 0xF0, 0x80, 0xF0, 0x80, 0x80
    ]
}

/// Memory of a fresh machine: the glyphs, then zeros.
pub open spec fn initial_memory() -> Seq<u8> {
    Seq::new(MEMORY_SIZE as nat, |a: int| if a < font().len() { font()[a] } else { 0u8 })
}

/// A screen with every pixel off.
pub open spec fn blank_screen() -> Seq<bool> {
    Seq::new(PIXELS as nat, |i: int| false)
}

/// The big-endian word stored at `addr` and `addr + 1`.
pub open spec fn word_at(ram: Seq<u8>, addr: int) -> u16 {
    (ram[addr] as int * 256 + ram[addr + 1] as int) as u16
}

/// Whether key `k` is held in the bit set `keys` (bit `k` for key `k`).
pub open spec fn key_held(keys: u16, k: u8) -> bool {
    (keys >> (k as u16)) & 1u16 == 1u16
}

/// The flag value for a condition.
pub open spec fn flag_of(b: bool) -> u8 {
    if b { 1 } else { 0 }
}

/// The state of a machine.
pub struct CpuView {
    pub ram: Seq<u8>,
    pub v: Seq<u8>,
    pub i: u16,
    pub pc: u16,
    pub dt: u8,
    pub st: u8,
    /// Return addresses, innermost last.
    pub stack: Seq<u16>,
    /// The register that receives the next key press, while waiting for one.
    pub waiting: Option<u8>,
}

impl CpuView {
    pub open spec fn wf(self) -> bool {
        &&& self.ram.len() == MEMORY_SIZE
        &&& self.v.len() == REGISTER_COUNT
        &&& self.stack.len() <= STACK_DEPTH
        &&& self.waiting matches Some(x) ==> x < REGISTER_COUNT
    }

    /// The state of a fresh machine.
    pub open spec fn initial() -> CpuView {
        CpuView {
            ram: initial_memory(),
            v: Seq::new(REGISTER_COUNT as nat, |r: int| 0u8),
            i: 0,
            pc: PROGRAM_START,
            dt: 0,
            st: 0,
            stack: Seq::empty(),
            waiting: None,
        }
    }

    pub open spec fn reg(self, x: u8) -> int {
        self.v[x as int] as int
    }

    pub open spec fn with_reg(self, x: u8, val: u8) -> CpuView {
        CpuView { v: self.v.update(x as int, val), ..self }
    }

    pub open spec fn with_pc(self, pc: u16) -> CpuView {
        CpuView { pc, ..self }
    }

    pub open spec fn with_i(self, i: u16) -> CpuView {
        CpuView { i, ..self }
    }

    /// Passes over the next instruction when `cond` holds.
    pub open spec fn skip_if(self, cond: bool) -> CpuView {
        if cond { self.with_pc(((self.pc + 2) % 0x10000) as u16) } else { self }
    }

    pub open spec fn ret(self) -> Result<CpuView, Chip8Error> {
        if self.stack.len() == 0 {
            Err(Chip8Error::StackUnderflow)
        } else {
            Ok(CpuView { pc: self.stack.last(), stack: self.stack.drop_last(), ..self })
        }
    }

    pub open spec fn call(self, addr: u16) -> Result<CpuView, Chip8Error> {
        if self.stack.len() >= STACK_DEPTH {
            Err(Chip8Error::StackOverflow)
        } else {
            Ok(CpuView { pc: addr, stack: self.stack.push(self.pc), ..self })
        }
    }

    pub open spec fn add(self, x: u8, byte: u8) -> CpuView {
        self.with_reg(x, ((self.reg(x) + byte) % 256) as u8)
    }

    pub open spec fn add2(self, x: u8, y: u8) -> CpuView {
        let sum = self.reg(x) + self.reg(y);
        self.with_reg(x, (sum % 256) as u8).with_reg(FLAG, flag_of(sum > 255))
    }

    pub open spec fn sub(self, x: u8, y: u8) -> CpuView {
        let (a, b) = (self.reg(x), self.reg(y));
        self.with_reg(x, ((a - b) % 256) as u8).with_reg(FLAG, flag_of(a >= b))
    }

    pub open spec fn subn(self, x: u8, y: u8) -> CpuView {
        let (a, b) = (self.reg(x), self.reg(y));
        self.with_reg(x, ((b - a) % 256) as u8).with_reg(FLAG, flag_of(b >= a))
    }

    pub open spec fn shr(self, x: u8, y: u8) -> CpuView {
        let b = self.reg(y);
        self.with_reg(x, (b / 2) as u8).with_reg(FLAG, (b % 2) as u8)
    }

    pub open spec fn shl(self, x: u8, y: u8) -> CpuView {
        let b = self.reg(y);
        self.with_reg(x, ((b * 2) % 256) as u8).with_reg(FLAG, (b / 128) as u8)
    }

    pub open spec fn sprite(self, n: u8) -> Seq<u8> {
        self.ram.subrange(self.i as int, self.i + n)
    }

    pub open spec fn drw(self, x: u8, y: u8, n: u8, fb: Seq<bool>) -> Result<(CpuView, Seq<bool>), Chip8Error> {
        if self.i + n > MEMORY_SIZE {
            Err(Chip8Error::OutOfBoundsAccess)
        } else {
            let (px, py) = (self.v[x as int], self.v[y as int]);
            Ok((
                self.with_reg(FLAG, flag_of(collides(fb, self.sprite(n), px, py))),
                drawn(fb, self.sprite(n), px, py),
            ))
        }
    }

    pub open spec fn ldb(self, x: u8) -> Result<CpuView, Chip8Error> {
        if self.i + 3 > MEMORY_SIZE {
            Err(Chip8Error::OutOfBoundsAccess)
        } else {
            let val = self.reg(x);
            let i = self.i as int;
            Ok(CpuView {
                ram: self.ram.update(i, (val / 100) as u8).update(i + 1, (val / 10 % 10) as u8)
                    .update(i + 2, (val % 10) as u8),
                ..self
            })
        }
    }

    pub open spec fn str(self, x: u8) -> Result<CpuView, Chip8Error> {
        if self.i + x + 1 > MEMORY_SIZE {
            Err(Chip8Error::OutOfBoundsAccess)
        } else {
            let i = self.i as int;
            Ok(CpuView {
                ram: Seq::new(
                    self.ram.len(),
                    |a: int| if i <= a <= i + x { self.v[a - i] } else { self.ram[a] },
                ),
                ..self
            })
        }
    }

    pub open spec fn ldr(self, x: u8) -> Result<CpuView, Chip8Error> {
        if self.i + x + 1 > MEMORY_SIZE {
            Err(Chip8Error::OutOfBoundsAccess)
        } else {
            Ok(CpuView {
                v: Seq::new(
                    self.v.len(),
                    |r: int| if r <= x { self.ram[self.i + r] } else { self.v[r] },
                ),
                ..self
            })
        }
    }

    /// What executing `ins` does to the machine and the screen, with `keys`
    /// the keys held and `rnd` the random byte drawn. The program counter
    /// already points past the instruction. On an error nothing changes.
    pub open spec fn execute(self, ins: Instruction, keys: u16, rnd: u8, fb: Seq<bool>) -> Result<(CpuView, Seq<bool>), Chip8Error> {
        let with_screen = |r: Result<CpuView, Chip8Error>| match r {
            Ok(s) => Ok((s, fb)),
            Err(e) => Err(e),
        };
        match ins {
            Instruction::Cls => Ok((self, blank_screen())),
            Instruction::Ret => with_screen(self.ret()),
            Instruction::Sys(_) => Ok((self, fb)),
            Instruction::Jp(a) => Ok((self.with_pc(a), fb)),
            Instruction::Call(a) => with_screen(self.call(a)),
            Instruction::Se(x, b) => Ok((self.skip_if(self.reg(x) == b), fb)),
            Instruction::Sne(x, b) => Ok((self.skip_if(self.reg(x) != b), fb)),
            Instruction::Se2(x, y) => Ok((self.skip_if(self.reg(x) == self.reg(y)), fb)),
            Instruction::Ld(x, b) => Ok((self.with_reg(x, b), fb)),
            Instruction::Add(x, b) => Ok((self.add(x, b), fb)),
            Instruction::Ld2(x, y) => Ok((self.with_reg(x, self.v[y as int]), fb)),
            Instruction::Or(x, y) => Ok((self.with_reg(x, self.v[x as int] | self.v[y as int]), fb)),
            Instruction::And(x, y) => Ok((self.with_reg(x, self.v[x as int] & self.v[y as int]), fb)),
            Instruction::Xor(x, y) => Ok((self.with_reg(x, self.v[x as int] ^ self.v[y as int]), fb)),
            Instruction::Add2(x, y) => Ok((self.add2(x, y), fb)),
            Instruction::Sub(x, y) => Ok((self.sub(x, y), fb)),
            Instruction::Shr(x, y) => Ok((self.shr(x, y), fb)),
            Instruction::Subn(x, y) => Ok((self.subn(x, y), fb)),
            Instruction::Shl(x, y) => Ok((self.shl(x, y), fb)),
            Instruction::Sne2(x, y) => Ok((self.skip_if(self.reg(x) != self.reg(y)), fb)),
            Instruction::Ldi(a) => Ok((self.with_i(a), fb)),
            Instruction::Jpv0(a) => Ok((self.with_pc((self.reg(0) + a) as u16), fb)),
            Instruction::Rnd(x, b) => Ok((self.with_reg(x, rnd & b), fb)),
            Instruction::Drw(x, y, n) => self.drw(x, y, n, fb),
            Instruction::Skp(x) => Ok((self.skip_if(key_held(keys, self.v[x as int] % 16)), fb)),
            Instruction::Sknp(x) => Ok((self.skip_if(!key_held(keys, self.v[x as int] % 16)), fb)),
            Instruction::Ldt(x) => Ok((self.with_reg(x, self.dt), fb)),
            Instruction::Ldk(x) => Ok((CpuView { waiting: Some(x), ..self }, fb)),
            Instruction::Ldt2(x) => Ok((CpuView { dt: self.v[x as int], ..self }, fb)),
            Instruction::Lds(x) => Ok((CpuView { st: self.v[x as int], ..self }, fb)),
            Instruction::Addi(x) => Ok((self.with_i(((self.i + self.reg(x)) % 0x10000) as u16), fb)),
            Instruction::Ldd(x) => Ok((self.with_i(((self.reg(x) % 16) * GLYPH_SIZE) as u16), fb)),
            Instruction::Ldb(x) => with_screen(self.ldb(x)),
            Instruction::Str(x) => with_screen(self.str(x)),
            Instruction::Ldr(x) => with_screen(self.ldr(x)),
        }
    }

    /// One fetch-execute cycle. While waiting for a key nothing happens and
    /// no word is fetched (`None`); otherwise the word at `pc` is fetched,
    /// `pc` moves past it, and the word is executed. On an error nothing
    /// changes.
    pub open spec fn cycle(self, keys: u16, rnd: u8, fb: Seq<bool>) -> Result<(Option<u16>, CpuView, Seq<bool>), Chip8Error> {
        if self.waiting is Some {
            Ok((None, self, fb))
        } else if self.pc + 1 >= MEMORY_SIZE {
            Err(Chip8Error::OutOfBoundsAccess)
        } else {
            let word = word_at(self.ram, self.pc as int);
            match self.with_pc((self.pc + 2) as u16).execute(decoded(word), keys, rnd, fb) {
                Ok((s, f)) => Ok((Some(word), s, f)),
                Err(e) => Err(e),
            }
        }
    }

    /// The timers after one tick: each counts down to zero and stays there.
    pub open spec fn tick(self) -> CpuView {
        CpuView {
            dt: if self.dt > 0 { (self.dt - 1) as u8 } else { 0 },
            st: if self.st > 0 { (self.st - 1) as u8 } else { 0 },
            ..self
        }
    }

    /// A key press: the waiting register receives the key and execution
    /// resumes. Without a wait the press changes nothing.
    pub open spec fn press(self, key: u8) -> CpuView {
        match self.waiting {
            Some(x) => CpuView { waiting: None, ..self.with_reg(x, key) },
            None => self,
        }
    }
}

/// Register add stores the sum of the two registers modulo 256 and sets the
/// flag to 1 exactly when the sum exceeds 255, else to 0. (With `VF` itself as
/// the destination the flag overwrites the sum, so it is left out.)
pub proof fn lemma_add_sets_carry(s: CpuView, x: u8, y: u8, keys: u16, rnd: u8, fb: Seq<bool>)
    requires
        s.wf(),
        x < FLAG,
        y < REGISTER_COUNT,
    ensures
        s.execute(Instruction::Add2(x, y), keys, rnd, fb) matches Ok((t, f)) && {
            let (a, b) = (s.reg(x), s.reg(y));
            &&& t.reg(x) == (a + b) % 256
            &&& t.reg(FLAG) == if a + b > 255 { 1int } else { 0int }
            &&& f == fb
        },
{
}

/// Register subtract stores the difference of the two registers modulo 256
/// and sets the flag to 1 exactly when no borrow occurs (the first is at
/// least the second), else to 0. (With `VF` itself as the destination the
/// flag overwrites the difference, so it is left out.)
pub proof fn lemma_sub_sets_no_borrow(s: CpuView, x: u8, y: u8, keys: u16, rnd: u8, fb: Seq<bool>)
    requires
        s.wf(),
        x < FLAG,
        y < REGISTER_COUNT,
    ensures
        s.execute(Instruction::Sub(x, y), keys, rnd, fb) matches Ok((t, f)) && {
            let (a, b) = (s.reg(x), s.reg(y));
            &&& t.reg(x) == (a - b) % 256
            &&& t.reg(FLAG) == if a >= b { 1int } else { 0int }
            &&& f == fb
        },
{
}

/// A call at `pc` to a subroutine whose first instruction is a return brings
/// execution back to the instruction after the call, with the call stack as
/// deep as before.
pub proof fn lemma_call_then_return(s: CpuView, target: u16, keys: u16, rnd: u8, fb: Seq<bool>)
    requires
        s.wf(),
        s.waiting is None,
        s.pc + 1 < MEMORY_SIZE,
        target + 1 < MEMORY_SIZE,
        s.stack.len() < STACK_DEPTH,
        word_at(s.ram, s.pc as int) == 0x2000 + target,
        word_at(s.ram, target as int) == 0x00EE,
    ensures
        s.cycle(keys, rnd, fb) matches Ok((_, t, f)) && t.pc == target && (t.cycle(keys, rnd, f)
            matches Ok((_, u, _)) && u.pc == s.pc + 2 && u.stack == s.stack),
{
    let w = (0x2000 + target) as u16;
    assert(decoded(w) == Instruction::Call(target));
    assert(decoded(0x00EE) == Instruction::Ret);
    let t = s.with_pc((s.pc + 2) as u16).call(target)->Ok_0;
    assert(t.stack.drop_last() =~= s.stack);
}

/// After a jump to `target` the next word fetched is the one at `target`.
pub proof fn lemma_jump_fetches_target(s: CpuView, target: u16, keys: u16, rnd: u8, fb: Seq<bool>)
    requires
        s.wf(),
        s.waiting is None,
        s.pc + 1 < MEMORY_SIZE,
        target < MEMORY_SIZE,
        word_at(s.ram, s.pc as int) == 0x1000 + target,
    ensures
        s.cycle(keys, rnd, fb) matches Ok((_, t, f)) && t.pc == target && t.ram == s.ram
            && t.waiting is None && forall|keys2: u16, rnd2: u16, fb2: Seq<bool>|
            #[trigger] t.cycle(keys2, rnd2 as u8, fb2) matches Ok((Some(w), _, _)) ==> w
            == word_at(s.ram, target as int),
{
    let w = (0x1000 + target) as u16;
    assert(decoded(w) == Instruction::Jp(target));
}

/// Storing registers `V0..=Vx` at `I` and then loading them back from the
/// same `I` restores their values, whatever happened to the registers in
/// between; the registers above `Vx` are not touched by the load.
pub proof fn lemma_store_load_round_trip(s: CpuView, x: u8, t: CpuView, keys: u16, rnd: u8, fb: Seq<bool>)
    requires
        s.wf(),
        t.wf(),
        x < REGISTER_COUNT,
        s.i + x + 1 <= MEMORY_SIZE,
    ensures
        s.execute(Instruction::Str(x), keys, rnd, fb) matches Ok((stored, _)) && (
        t.ram == stored.ram && t.i == stored.i ==> (t.execute(Instruction::Ldr(x), keys, rnd, fb)
            matches Ok((u, _)) && forall|r: int| 0 <= r < REGISTER_COUNT ==> #[trigger] u.v[r]
            == if r <= x { s.v[r] } else { t.v[r] })),
{
}

} // verus!
