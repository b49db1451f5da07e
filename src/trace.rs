use vstd::prelude::*;
use crate::decode::{Instruction, decode, decoded};

verus! {

/// The upper-case hexadecimal digit for `d < 16`.
pub open spec fn hex_digit(d: nat) -> Seq<char> {
    if d == 0 { "0"@ } else if d == 1 { "1"@ } else if d == 2 { "2"@ } else if d == 3 { "3"@ }
    else if d == 4 { "4"@ } else if d == 5 { "5"@ } else if d == 6 { "6"@ } else if d == 7 { "7"@ }
    else if d == 8 { "8"@ } else if d == 9 { "9"@ } else if d == 10 { "A"@ } else if d == 11 { "B"@ }
    else if d == 12 { "C"@ } else if d == 13 { "D"@ } else if d == 14 { "E"@ } else { "F"@ }
}

/// `n` in upper-case hexadecimal without leading zeros (`"0"` for zero).
pub open spec fn hex_text(n: nat) -> Seq<char>
    decreases n,
{
    if n < 16 { hex_digit(n) } else { hex_text(n / 16) + hex_digit(n % 16) }
}

/// `NAME<tab>addr`.
pub open spec fn addr_line(name: Seq<char>, a: u16) -> Seq<char> {
    name + "\t"@ + hex_text(a as nat)
}

/// `NAME<tab>[x]`.
pub open spec fn reg_line(name: Seq<char>, x: u8) -> Seq<char> {
    name + "\t["@ + hex_text(x as nat) + "]"@
}

/// `NAME<tab>[x] byte`.
pub open spec fn reg_byte_line(name: Seq<char>, x: u8, b: u8) -> Seq<char> {
    reg_line(name, x) + " "@ + hex_text(b as nat)
}

/// `NAME<tab>[x] [y]`.
pub open spec fn regs_line(name: Seq<char>, x: u8, y: u8) -> Seq<char> {
    reg_line(name, x) + " ["@ + hex_text(y as nat) + "]"@
}

/// The one-line rendering of an instruction: its mnemonic, a tab, then its
/// operands in hexadecimal, registers in brackets.
pub open spec fn trace_text(ins: Instruction) -> Seq<char> {
    match ins {
        Instruction::Cls => "CLS"@,
        Instruction::Ret => "RET"@,
        Instruction::Sys(a) => addr_line("SYS"@, a),
        Instruction::Jp(a) => addr_line("JP"@, a),
        Instruction::Call(a) => addr_line("CALL"@, a),
        Instruction::Se(x, b) => reg_byte_line("SE"@, x, b),
        Instruction::Sne(x, b) => reg_byte_line("SNE"@, x, b),
        Instruction::Se2(x, y) => regs_line("SE2"@, x, y),
        Instruction::Ld(x, b) => reg_byte_line("LD"@, x, b),
        Instruction::Add(x, b) => reg_byte_line("ADD"@, x, b),
        Instruction::Ld2(x, y) => regs_line("LD2"@, x, y),
        Instruction::Or(x, y) => regs_line("OR"@, x, y),
        Instruction::And(x, y) => regs_line("AND"@, x, y),
        Instruction::Xor(x, y) => regs_line("XOR"@, x, y),
        Instruction::Add2(x, y) => regs_line("ADD2"@, x, y),
        Instruction::Sub(x, y) => regs_line("SUB"@, x, y),
        Instruction::Shr(x, y) => regs_line("SHR"@, x, y),
        Instruction::Subn(x, y) => regs_line("SUBN"@, x, y),
        Instruction::Shl(x, y) => regs_line("SHL"@, x, y),
        Instruction::Sne2(x, y) => regs_line("SNE2"@, x, y),
        Instruction::Ldi(a) => addr_line("LDI"@, a),
        Instruction::Jpv0(a) => addr_line("JPV0"@, a),
        Instruction::Rnd(x, b) => reg_byte_line("RND"@, x, b),
        Instruction::Drw(x, y, n) => regs_line("DRW"@, x, y) + " "@ + hex_text(n as nat),
        Instruction::Skp(x) => reg_line("SKP"@, x),
        Instruction::Sknp(x) => reg_line("SKNP"@, x),
        Instruction::Ldt(x) => reg_line("LDT"@, x),
        Instruction::Ldk(x) => reg_line("LDK"@, x),
        Instruction::Ldt2(x) => reg_line("LDT2"@, x),
        Instruction::Lds(x) => reg_line("LDS"@, x),
        Instruction::Addi(x) => reg_line("ADDI"@, x),
        Instruction::Ldd(x) => reg_line("LDD"@, x),
        Instruction::Ldb(x) => reg_line("LDB"@, x),
        Instruction::Str(x) => reg_line("STR"@, x),
        Instruction::Ldr(x) => reg_line("LDR"@, x),
    }
}

fn hex_digit_str(d: u16) -> (r: &'static str)
    requires
        d < 16,
    ensures
        r@ == hex_digit(d as nat),
{
    if d == 0 { "0" } else if d == 1 { "1" } else if d == 2 { "2" } else if d == 3 { "3" }
    else if d == 4 { "4" } else if d == 5 { "5" } else if d == 6 { "6" } else if d == 7 { "7" }
    else if d == 8 { "8" } else if d == 9 { "9" } else if d == 10 { "A" } else if d == 11 { "B" }
    else if d == 12 { "C" } else if d == 13 { "D" } else if d == 14 { "E" } else { "F" }
}

/// Appends `n` in hexadecimal.
fn push_hex(out: &mut String, n: u16)
    ensures
        final(out)@ == old(out)@ + hex_text(n as nat),
    decreases n,
{
    if n >= 16 {
        push_hex(out, n / 16);
    }
    out.append(hex_digit_str(n % 16));
    assert(hex_text(n as nat) == if n < 16 { hex_digit(n as nat) } else {
        hex_text((n / 16) as nat) + hex_digit((n % 16) as nat)
    });
    if n >= 16 {
        let ghost h = hex_text((n / 16) as nat);
        let ghost d = hex_digit((n % 16) as nat);
        assert(old(out)@ + h + d =~= old(out)@ + (h + d));
    }
}

fn addr_line_string(name: &str, a: u16) -> (r: String)
    ensures
        r@ == addr_line(name@, a),
{
    let mut out = String::new();
    out.append(name);
    out.append("\t");
    push_hex(&mut out, a);
    assert(out@ =~= addr_line(name@, a));
    out
}

fn reg_line_string(name: &str, x: u8) -> (r: String)
    ensures
        r@ == reg_line(name@, x),
{
    let mut out = String::new();
    out.append(name);
    out.append("\t[");
    push_hex(&mut out, x as u16);
    out.append("]");
    assert(out@ =~= reg_line(name@, x));
    out
}

fn reg_byte_line_string(name: &str, x: u8, b: u8) -> (r: String)
    ensures
        r@ == reg_byte_line(name@, x, b),
{
    let mut out = reg_line_string(name, x);
    out.append(" ");
    push_hex(&mut out, b as u16);
    assert(out@ =~= reg_byte_line(name@, x, b));
    out
}

fn regs_line_string(name: &str, x: u8, y: u8) -> (r: String)
    ensures
        r@ == regs_line(name@, x, y),
{
    let mut out = reg_line_string(name, x);
    out.append(" [");
    push_hex(&mut out, y as u16);
    out.append("]");
    assert(out@ =~= regs_line(name@, x, y));
    out
}

/// The one-line rendering of the instruction that `word` decodes to.
pub fn format_opcode(word: u16) -> (r: String)
    ensures
        r@ == trace_text(decoded(word)),
{
    match decode(word) {
        Instruction::Cls => String::from_str("CLS"),
        Instruction::Ret => String::from_str("RET"),
        Instruction::Sys(a) => addr_line_string("SYS", a),
        Instruction::Jp(a) => addr_line_string("JP", a),
        Instruction::Call(a) => addr_line_string("CALL", a),
        Instruction::Se(x, b) => reg_byte_line_string("SE", x, b),
        Instruction::Sne(x, b) => reg_byte_line_string("SNE", x, b),
        Instruction::Se2(x, y) => regs_line_string("SE2", x, y),
        Instruction::Ld(x, b) => reg_byte_line_string("LD", x, b),
        Instruction::Add(x, b) => reg_byte_line_string("ADD", x, b),
        Instruction::Ld2(x, y) => regs_line_string("LD2", x, y),
        Instruction::Or(x, y) => regs_line_string("OR", x, y),
        Instruction::And(x, y) => regs_line_string("AND", x, y),
        Instruction::Xor(x, y) => regs_line_string("XOR", x, y),
        Instruction::Add2(x, y) => regs_line_string("ADD2", x, y),
        Instruction::Sub(x, y) => regs_line_string("SUB", x, y),
        Instruction::Shr(x, y) => regs_line_string("SHR", x, y),
        Instruction::Subn(x, y) => regs_line_string("SUBN", x, y),
        Instruction::Shl(x, y) => regs_line_string("SHL", x, y),
        Instruction::Sne2(x, y) => regs_line_string("SNE2", x, y),
        Instruction::Ldi(a) => addr_line_string("LDI", a),
        Instruction::Jpv0(a) => addr_line_string("JPV0", a),
        Instruction::Rnd(x, b) => reg_byte_line_string("RND", x, b),
        Instruction::Drw(x, y, n) => {
            let mut out = regs_line_string("DRW", x, y);
            out.append(" ");
            push_hex(&mut out, n as u16);
            assert(out@ =~= trace_text(Instruction::Drw(x, y, n)));
            out
        },
        Instruction::Skp(x) => reg_line_string("SKP", x),
        Instruction::Sknp(x) => reg_line_string("SKNP", x),
        Instruction::Ldt(x) => reg_line_string("LDT", x),
        Instruction::Ldk(x) => reg_line_string("LDK", x),
        Instruction::Ldt2(x) => reg_line_string("LDT2", x),
        Instruction::Lds(x) => reg_line_string("LDS", x),
        Instruction::Addi(x) => reg_line_string("ADDI", x),
        Instruction::Ldd(x) => reg_line_string("LDD", x),
        Instruction::Ldb(x) => reg_line_string("LDB", x),
        Instruction::Str(x) => reg_line_string("STR", x),
        Instruction::Ldr(x) => reg_line_string("LDR", x),
    }
}

} // verus!
