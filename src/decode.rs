use vstd::prelude::*;

verus! {

/// One decoded instruction. Register operands are indices `0..16`, addresses
/// are 12-bit, immediates are bytes and sprite heights are 4-bit.
#[derive(Clone, Copy, Debug, PartialEq, Eq, Structural)]
pub enum Instruction {
    /// `00E0`: clear the screen.
    Cls,
    /// `00EE`: return from a subroutine.
    Ret,
    /// `0nnn` and every unrecognized word: no operation.
    Sys(u16),
    /// `1nnn`: jump.
    Jp(u16),
    /// `2nnn`: call a subroutine.
    Call(u16),
    /// `3xkk`: skip if `Vx == kk`.
    Se(u8, u8),
    /// `4xkk`: skip if `Vx != kk`.
    Sne(u8, u8),
    /// `5xy0`: skip if `Vx == Vy`.
    Se2(u8, u8),
    /// `6xkk`: `Vx = kk`.
    Ld(u8, u8),
    /// `7xkk`: `Vx += kk`, no flag.
    Add(u8, u8),
    /// `8xy0`: `Vx = Vy`.
    Ld2(u8, u8),
    /// `8xy1`: `Vx |= Vy`.
    Or(u8, u8),
    /// `8xy2`: `Vx &= Vy`.
    And(u8, u8),
    /// `8xy3`: `Vx ^= Vy`.
    Xor(u8, u8),
    /// `8xy4`: `Vx += Vy`, carry into `VF`.
    Add2(u8, u8),
    /// `8xy5`: `Vx -= Vy`, no-borrow into `VF`.
    Sub(u8, u8),
    /// `8xy6`: `Vx = Vy >> 1`, shifted-out bit into `VF`.
    Shr(u8, u8),
    /// `8xy7`: `Vx = Vy - Vx`, no-borrow into `VF`.
    Subn(u8, u8),
    /// `8xyE`: `Vx = Vy << 1`, shifted-out bit into `VF`.
    Shl(u8, u8),
    /// `9xy0`: skip if `Vx != Vy`.
    Sne2(u8, u8),
    /// `Annn`: `I = nnn`.
    Ldi(u16),
    /// `Bnnn`: jump to `V0 + nnn`.
    Jpv0(u16),
    /// `Cxkk`: `Vx = random & kk`.
    Rnd(u8, u8),
    /// `Dxyn`: draw an `n`-row sprite from `I` at `(Vx, Vy)`.
    Drw(u8, u8, u8),
    /// `Ex9E`: skip if the key `Vx` is held.
    Skp(u8),
    /// `ExA1`: skip if the key `Vx` is not held.
    Sknp(u8),
    /// `Fx07`: `Vx = DT`.
    Ldt(u8),
    /// `Fx0A`: wait for a key press and store it in `Vx`.
    Ldk(u8),
    /// `Fx15`: `DT = Vx`.
    Ldt2(u8),
    /// `Fx18`: `ST = Vx`.
    Lds(u8),
    /// `Fx1E`: `I += Vx`.
    Addi(u8),
    /// `Fx29`: `I` = address of the glyph for the low nibble of `Vx`.
    Ldd(u8),
    /// `Fx33`: store the decimal digits of `Vx` at `I`, `I+1`, `I+2`.
    Ldb(u8),
    /// `Fx55`: store `V0..=Vx` at `I..`.
    Str(u8),
    /// `Fx65`: load `V0..=Vx` from `I..`.
    Ldr(u8),
}

/// The four nibbles of a word, most significant first.
pub open spec fn nibbles_of(word: u16) -> (u8, u8, u8, u8) {
    (
        (word / 4096) as u8,
        (word / 256 % 16) as u8,
        (word / 16 % 16) as u8,
        (word % 16) as u8,
    )
}

/// What a word decodes to.
pub open spec fn decoded(word: u16) -> Instruction {
    let (c, x, y, n) = nibbles_of(word);
    let addr = (word % 4096) as u16;
    let byte = (word % 256) as u8;
    if c == 0 {
        if word == 0x00E0 {
            Instruction::Cls
        } else if word == 0x00EE {
            Instruction::Ret
        } else {
            Instruction::Sys(addr)
        }
    } else if c == 1 {
        Instruction::Jp(addr)
    } else if c == 2 {
        Instruction::Call(addr)
    } else if c == 3 {
        Instruction::Se(x, byte)
    } else if c == 4 {
        Instruction::Sne(x, byte)
    } else if c == 5 && n == 0 {
        Instruction::Se2(x, y)
    } else if c == 6 {
        Instruction::Ld(x, byte)
    } else if c == 7 {
        Instruction::Add(x, byte)
    } else if c == 8 && n == 0 {
        Instruction::Ld2(x, y)
    } else if c == 8 && n == 1 {
        Instruction::Or(x, y)
    } else if c == 8 && n == 2 {
        Instruction::And(x, y)
    } else if c == 8 && n == 3 {
        Instruction::Xor(x, y)
    } else if c == 8 && n == 4 {
        Instruction::Add2(x, y)
    } else if c == 8 && n == 5 {
        Instruction::Sub(x, y)
    } else if c == 8 && n == 6 {
        Instruction::Shr(x, y)
    } else if c == 8 && n == 7 {
        Instruction::Subn(x, y)
    } else if c == 8 && n == 0xE {
        Instruction::Shl(x, y)
    } else if c == 9 && n == 0 {
        Instruction::Sne2(x, y)
    } else if c == 0xA {
        Instruction::Ldi(addr)
    } else if c == 0xB {
        Instruction::Jpv0(addr)
    } else if c == 0xC {
        Instruction::Rnd(x, byte)
    } else if c == 0xD {
        Instruction::Drw(x, y, n)
    } else if c == 0xE && byte == 0x9E {
        Instruction::Skp(x)
    } else if c == 0xE && byte == 0xA1 {
        Instruction::Sknp(x)
    } else if c == 0xF && byte == 0x07 {
        Instruction::Ldt(x)
    } else if c == 0xF && byte == 0x0A {
        Instruction::Ldk(x)
    } else if c == 0xF && byte == 0x15 {
        Instruction::Ldt2(x)
    } else if c == 0xF && byte == 0x18 {
        Instruction::Lds(x)
    } else if c == 0xF && byte == 0x1E {
        Instruction::Addi(x)
    } else if c == 0xF && byte == 0x29 {
        Instruction::Ldd(x)
    } else if c == 0xF && byte == 0x33 {
        Instruction::Ldb(x)
    } else if c == 0xF && byte == 0x55 {
        Instruction::Str(x)
    } else if c == 0xF && byte == 0x65 {
        Instruction::Ldr(x)
    } else {
        Instruction::Sys(addr)
    }
}

impl Instruction {
    /// Operands are in range: registers and heights below 16, addresses below 4096.
    pub open spec fn wf(self) -> bool {
        match self {
            Instruction::Cls | Instruction::Ret => true,
            Instruction::Sys(a) | Instruction::Jp(a) | Instruction::Call(a) | Instruction::Ldi(a)
            | Instruction::Jpv0(a) => a < 4096,
            Instruction::Se(x, _) | Instruction::Sne(x, _) | Instruction::Ld(x, _)
            | Instruction::Add(x, _) | Instruction::Rnd(x, _) => x < 16,
            Instruction::Se2(x, y) | Instruction::Ld2(x, y) | Instruction::Or(x, y)
            | Instruction::And(x, y) | Instruction::Xor(x, y) | Instruction::Add2(x, y)
            | Instruction::Sub(x, y) | Instruction::Shr(x, y) | Instruction::Subn(x, y)
            | Instruction::Shl(x, y) | Instruction::Sne2(x, y) => x < 16 && y < 16,
            Instruction::Drw(x, y, n) => x < 16 && y < 16 && n < 16,
            Instruction::Skp(x) | Instruction::Sknp(x) | Instruction::Ldt(x) | Instruction::Ldk(x)
            | Instruction::Ldt2(x) | Instruction::Lds(x) | Instruction::Addi(x)
            | Instruction::Ldd(x) | Instruction::Ldb(x) | Instruction::Str(x)
            | Instruction::Ldr(x) => x < 16,
        }
    }
}

/// Splits a word into its four nibbles, most significant first.
pub fn word_to_nibbles(word: u16) -> (r: (u8, u8, u8, u8))
    ensures
        r == nibbles_of(word),
        r.0 < 16 && r.1 < 16 && r.2 < 16 && r.3 < 16,
{
    assert((word & 0xF000) >> 12 == word / 4096) by (bit_vector);
    assert((word & 0x0F00) >> 8 == word / 256 % 16) by (bit_vector);
    assert((word & 0x00F0) >> 4 == word / 16 % 16) by (bit_vector);
    assert(word & 0x000F == word % 16) by (bit_vector);
    (
        ((word & 0xF000) >> 12) as u8,
        ((word & 0x0F00) >> 8) as u8,
        ((word & 0x00F0) >> 4) as u8,
        (word & 0x000F) as u8,
    )
}

/// Decodes a word. Total: every word maps to one instruction, unrecognized
/// patterns to `Sys`.
pub fn decode(word: u16) -> (r: Instruction)
    ensures
        r == decoded(word),
        r.wf(),
{
    let (c, x, y, n) = word_to_nibbles(word);
    let addr: u16 = word % 4096;
    let byte: u8 = (word % 256) as u8;
    match (c, x, y, n) {
        (0x0, 0x0, 0xE, 0x0) => Instruction::Cls,
        (0x0, 0x0, 0xE, 0xE) => Instruction::Ret,
        (0x0, _, _, _) => Instruction::Sys(addr),
        (0x1, _, _, _) => Instruction::Jp(addr),
        (0x2, _, _, _) => Instruction::Call(addr),
        (0x3, _, _, _) => Instruction::Se(x, byte),
        (0x4, _, _, _) => Instruction::Sne(x, byte),
        (0x5, _, _, 0x0) => Instruction::Se2(x, y),
        (0x6, _, _, _) => Instruction::Ld(x, byte),
        (0x7, _, _, _) => Instruction::Add(x, byte),
        (0x8, _, _, 0x0) => Instruction::Ld2(x, y),
        (0x8, _, _, 0x1) => Instruction::Or(x, y),
        (0x8, _, _, 0x2) => Instruction::And(x, y),
        (0x8, _, _, 0x3) => Instruction::Xor(x, y),
        (0x8, _, _, 0x4) => Instruction::Add2(x, y),
        (0x8, _, _, 0x5) => Instruction::Sub(x, y),
        (0x8, _, _, 0x6) => Instruction::Shr(x, y),
        (0x8, _, _, 0x7) => Instruction::Subn(x, y),
        (0x8, _, _, 0xE) => Instruction::Shl(x, y),
        (0x9, _, _, 0x0) => Instruction::Sne2(x, y),
        (0xA, _, _, _) => Instruction::Ldi(addr),
        (0xB, _, _, _) => Instruction::Jpv0(addr),
        (0xC, _, _, _) => Instruction::Rnd(x, byte),
        (0xD, _, _, _) => Instruction::Drw(x, y, n),
        (0xE, _, 0x9, 0xE) => Instruction::Skp(x),
        (0xE, _, 0xA, 0x1) => Instruction::Sknp(x),
        (0xF, _, 0x0, 0x7) => Instruction::Ldt(x),
        (0xF, _, 0x0, 0xA) => Instruction::Ldk(x),
        (0xF, _, 0x1, 0x5) => Instruction::Ldt2(x),
        (0xF, _, 0x1, 0x8) => Instruction::Lds(x),
        (0xF, _, 0x1, 0xE) => Instruction::Addi(x),
        (0xF, _, 0x2, 0x9) => Instruction::Ldd(x),
        (0xF, _, 0x3, 0x3) => Instruction::Ldb(x),
        (0xF, _, 0x5, 0x5) => Instruction::Str(x),
        (0xF, _, 0x6, 0x5) => Instruction::Ldr(x),
        (_, _, _, _) => Instruction::Sys(addr),
    }
}

} // verus!
