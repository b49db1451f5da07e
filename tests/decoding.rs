use chip8::{decode, format_opcode, Instruction};

#[test]
fn decodes_each_class() {
    assert_eq!(decode(0x00E0), Instruction::Cls);
    assert_eq!(decode(0x00EE), Instruction::Ret);
    assert_eq!(decode(0x0123), Instruction::Sys(0x123));
    assert_eq!(decode(0x1ABC), Instruction::Jp(0xABC));
    assert_eq!(decode(0x2ABC), Instruction::Call(0xABC));
    assert_eq!(decode(0x3A12), Instruction::Se(0xA, 0x12));
    assert_eq!(decode(0x5AB0), Instruction::Se2(0xA, 0xB));
    assert_eq!(decode(0x8AB4), Instruction::Add2(0xA, 0xB));
    assert_eq!(decode(0x8ABE), Instruction::Shl(0xA, 0xB));
    assert_eq!(decode(0xB123), Instruction::Jpv0(0x123));
    assert_eq!(decode(0xD125), Instruction::Drw(1, 2, 5));
    assert_eq!(decode(0xE39E), Instruction::Skp(3));
    assert_eq!(decode(0xE3A1), Instruction::Sknp(3));
    assert_eq!(decode(0xF40A), Instruction::Ldk(4));
    assert_eq!(decode(0xF433), Instruction::Ldb(4));
    assert_eq!(decode(0xF465), Instruction::Ldr(4));
}

#[test]
fn unrecognized_words_decode_to_sys() {
    assert_eq!(decode(0x5AB3), Instruction::Sys(0xAB3));
    assert_eq!(decode(0x8AB8), Instruction::Sys(0xAB8));
    assert_eq!(decode(0xE000), Instruction::Sys(0x000));
    assert_eq!(decode(0xFFFF), Instruction::Sys(0xFFF));
}

#[test]
fn trace_lines() {
    assert_eq!(format_opcode(0x00E0), "CLS");
    assert_eq!(format_opcode(0x00EE), "RET");
    assert_eq!(format_opcode(0x1200), "JP\t200");
    assert_eq!(format_opcode(0x2005), "CALL\t5");
    assert_eq!(format_opcode(0x0000), "SYS\t0");
    assert_eq!(format_opcode(0x3A05), "SE\t[A] 5");
    assert_eq!(format_opcode(0x6BFF), "LD\t[B] FF");
    assert_eq!(format_opcode(0x8AB4), "ADD2\t[A] [B]");
    assert_eq!(format_opcode(0xD12F), "DRW\t[1] [2] F");
    assert_eq!(format_opcode(0xE19E), "SKP\t[1]");
    assert_eq!(format_opcode(0xF265), "LDR\t[2]");
    assert_eq!(format_opcode(0xAFED), "LDI\tFED");
}
