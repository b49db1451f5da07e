use chip8::{Chip8Error, Cpu, Framebuffer};

fn machine_with(program: &[u8]) -> Cpu {
    let mut cpu = Cpu::new();
    cpu.load_rom(program, program.len()).unwrap();
    cpu
}

fn run(cpu: &mut Cpu, fb: &mut Framebuffer, cycles: usize) {
    for _ in 0..cycles {
        cpu.read_word(0, 0, fb).unwrap();
    }
}

#[test]
fn fresh_machine_state() {
    let cpu = Cpu::new();
    assert_eq!(cpu.program_counter(), 0x200);
    assert_eq!(cpu.index(), 0);
    assert_eq!(cpu.delay_timer(), 0);
    assert_eq!(cpu.sound_timer(), 0);
    assert_eq!(cpu.stack_depth(), 0);
    assert_eq!(cpu.waiting_register(), None);
    for x in 0..16u8 {
        assert_eq!(cpu.register(x), 0);
    }
    // glyph for 0 and the last row of the glyph for F
    assert_eq!(cpu.memory(0), 0xF0);
    assert_eq!(cpu.memory(1), 0x90);
    assert_eq!(cpu.memory(79), 0x80);
    assert_eq!(cpu.memory(80), 0);
    assert_eq!(cpu.memory(0x200), 0);
}

#[test]
fn load_immediate_then_add_immediate() {
    let mut fb = Framebuffer::new();
    let mut cpu = machine_with(&[0x60, 0x05, 0x70, 0x03]);
    assert_eq!(cpu.read_word(0, 0, &mut fb), Ok(Some(0x6005)));
    assert_eq!(cpu.read_word(0, 0, &mut fb), Ok(Some(0x7003)));
    assert_eq!(cpu.register(0), 8);
    assert_eq!(cpu.program_counter(), 0x204);
    assert_eq!(cpu.register(0xF), 0);
}

#[test]
fn add_immediate_wraps_without_flag() {
    let mut fb = Framebuffer::new();
    let mut cpu = machine_with(&[0x60, 0xFF, 0x70, 0x02]);
    run(&mut cpu, &mut fb, 2);
    assert_eq!(cpu.register(0), 1);
    assert_eq!(cpu.register(0xF), 0);
}

#[test]
fn load_rom_places_program_at_start() {
    let mut cpu = Cpu::new();
    assert_eq!(cpu.load_rom(&[1, 2, 3, 4], 3), Ok(()));
    assert_eq!(cpu.memory(0x200), 1);
    assert_eq!(cpu.memory(0x202), 3);
    assert_eq!(cpu.memory(0x203), 0);
}

#[test]
fn load_rom_largest_image_fits() {
    let mut cpu = Cpu::new();
    let image = vec![0xABu8; 3584];
    assert_eq!(cpu.load_rom(&image, 3584), Ok(()));
    assert_eq!(cpu.memory(0xFFF), 0xAB);
}

#[test]
fn load_rom_too_large() {
    let mut cpu = Cpu::new();
    let image = vec![0xABu8; 3585];
    assert_eq!(cpu.load_rom(&image, 3585), Err(Chip8Error::LoadTooLarge));
    assert_eq!(cpu.memory(0x200), 0);
}

#[test]
fn register_add_sets_carry() {
    let mut fb = Framebuffer::new();
    let mut cpu = machine_with(&[0x60, 200, 0x61, 100, 0x80, 0x14]);
    run(&mut cpu, &mut fb, 3);
    assert_eq!(cpu.register(0), 44);
    assert_eq!(cpu.register(0xF), 1);
}

#[test]
fn register_add_without_carry() {
    let mut fb = Framebuffer::new();
    let mut cpu = machine_with(&[0x60, 200, 0x61, 55, 0x6F, 0x07, 0x80, 0x14]);
    run(&mut cpu, &mut fb, 4);
    assert_eq!(cpu.register(0), 255);
    assert_eq!(cpu.register(0xF), 0);
}

#[test]
fn register_subtract_flags() {
    let mut fb = Framebuffer::new();
    // 5 - 3
    let mut cpu = machine_with(&[0x60, 5, 0x61, 3, 0x80, 0x15]);
    run(&mut cpu, &mut fb, 3);
    assert_eq!(cpu.register(0), 2);
    assert_eq!(cpu.register(0xF), 1);
    // 3 - 5 borrows
    let mut cpu = machine_with(&[0x60, 3, 0x61, 5, 0x80, 0x15]);
    run(&mut cpu, &mut fb, 3);
    assert_eq!(cpu.register(0), 254);
    assert_eq!(cpu.register(0xF), 0);
    // equal operands do not borrow
    let mut cpu = machine_with(&[0x60, 7, 0x61, 7, 0x80, 0x15]);
    run(&mut cpu, &mut fb, 3);
    assert_eq!(cpu.register(0), 0);
    assert_eq!(cpu.register(0xF), 1);
}

#[test]
fn register_subtract_reverse() {
    let mut fb = Framebuffer::new();
    let mut cpu = machine_with(&[0x60, 3, 0x61, 5, 0x80, 0x17]);
    run(&mut cpu, &mut fb, 3);
    assert_eq!(cpu.register(0), 2);
    assert_eq!(cpu.register(0xF), 1);
    let mut cpu = machine_with(&[0x60, 5, 0x61, 3, 0x80, 0x17]);
    run(&mut cpu, &mut fb, 3);
    assert_eq!(cpu.register(0), 254);
    assert_eq!(cpu.register(0xF), 0);
}

#[test]
fn shifts_use_second_register() {
    let mut fb = Framebuffer::new();
    let mut cpu = machine_with(&[0x61, 0x81, 0x80, 0x16]);
    run(&mut cpu, &mut fb, 2);
    assert_eq!(cpu.register(0), 0x40);
    assert_eq!(cpu.register(1), 0x81);
    assert_eq!(cpu.register(0xF), 1);
    let mut cpu = machine_with(&[0x61, 0x81, 0x80, 0x1E]);
    run(&mut cpu, &mut fb, 2);
    assert_eq!(cpu.register(0), 0x02);
    assert_eq!(cpu.register(0xF), 1);
    let mut cpu = machine_with(&[0x61, 0x40, 0x80, 0x1E]);
    run(&mut cpu, &mut fb, 2);
    assert_eq!(cpu.register(0), 0x80);
    assert_eq!(cpu.register(0xF), 0);
}

#[test]
fn bitwise_operations() {
    let mut fb = Framebuffer::new();
    let mut cpu = machine_with(&[
        0x60, 0x0C, 0x61, 0x0A, 0x82, 0x00, 0x82, 0x11, 0x83, 0x00, 0x83, 0x12, 0x84, 0x00,
        0x84, 0x13,
    ]);
    run(&mut cpu, &mut fb, 8);
    assert_eq!(cpu.register(2), 0x0E);
    assert_eq!(cpu.register(3), 0x08);
    assert_eq!(cpu.register(4), 0x06);
}

#[test]
fn call_then_return_resumes_after_call() {
    let mut fb = Framebuffer::new();
    // 0x200: call 0x300
    let mut cpu = machine_with(&[0x23, 0x00]);
    let mut sub = vec![0u8; 0x100];
    sub.extend_from_slice(&[0x00, 0xEE]);
    let mut image = vec![0x23u8, 0x00];
    image.extend_from_slice(&sub[2..]);
    cpu.load_rom(&image, image.len()).unwrap();
    assert_eq!(cpu.read_word(0, 0, &mut fb), Ok(Some(0x2300)));
    assert_eq!(cpu.program_counter(), 0x300);
    assert_eq!(cpu.stack_depth(), 1);
    assert_eq!(cpu.read_word(0, 0, &mut fb), Ok(Some(0x00EE)));
    assert_eq!(cpu.program_counter(), 0x202);
    assert_eq!(cpu.stack_depth(), 0);
}

#[test]
fn jump_fetches_target_next() {
    let mut fb = Framebuffer::new();
    // 0x200: jump 0x206; 0x206: V0 = 9
    let mut cpu = machine_with(&[0x12, 0x06, 0x60, 0x01, 0x60, 0x02, 0x60, 0x09]);
    run(&mut cpu, &mut fb, 1);
    assert_eq!(cpu.program_counter(), 0x206);
    assert_eq!(cpu.read_word(0, 0, &mut fb), Ok(Some(0x6009)));
    assert_eq!(cpu.register(0), 9);
}

#[test]
fn jump_with_offset() {
    let mut fb = Framebuffer::new();
    let mut cpu = machine_with(&[0x60, 0x04, 0xB2, 0x00]);
    run(&mut cpu, &mut fb, 2);
    assert_eq!(cpu.program_counter(), 0x204);
}

#[test]
fn stack_overflow_is_reported() {
    let mut fb = Framebuffer::new();
    // 0x200: call 0x200, forever
    let mut cpu = machine_with(&[0x22, 0x00]);
    for depth in 1..=16 {
        cpu.read_word(0, 0, &mut fb).unwrap();
        assert_eq!(cpu.stack_depth(), depth);
    }
    assert_eq!(cpu.read_word(0, 0, &mut fb), Err(Chip8Error::StackOverflow));
    assert_eq!(cpu.stack_depth(), 16);
    assert_eq!(cpu.program_counter(), 0x200);
    assert_eq!(cpu.memory(0x200), 0x22);
    assert_eq!(cpu.memory(0x201), 0x00);
}

#[test]
fn stack_underflow_is_reported() {
    let mut fb = Framebuffer::new();
    let mut cpu = machine_with(&[0x00, 0xEE]);
    assert_eq!(cpu.read_word(0, 0, &mut fb), Err(Chip8Error::StackUnderflow));
    assert_eq!(cpu.program_counter(), 0x200);
}

#[test]
fn fetch_past_memory_end_is_out_of_bounds() {
    let mut fb = Framebuffer::new();
    let mut cpu = machine_with(&[0x1F, 0xFF]);
    run(&mut cpu, &mut fb, 1);
    assert_eq!(cpu.program_counter(), 0xFFF);
    assert_eq!(cpu.read_word(0, 0, &mut fb), Err(Chip8Error::OutOfBoundsAccess));
}

#[test]
fn store_past_memory_end_is_out_of_bounds() {
    let mut fb = Framebuffer::new();
    let mut cpu = machine_with(&[0xAF, 0xFF, 0xF1, 0x55]);
    run(&mut cpu, &mut fb, 1);
    assert_eq!(cpu.read_word(0, 0, &mut fb), Err(Chip8Error::OutOfBoundsAccess));
    assert_eq!(cpu.program_counter(), 0x202);
}

#[test]
fn skips_on_immediate_and_registers() {
    let mut fb = Framebuffer::new();
    // V0 = 5; skip if V0 == 5; (skipped) V1 = 1; skip if V0 != 5; V2 = 2
    let mut cpu = machine_with(&[0x60, 5, 0x30, 5, 0x61, 1, 0x40, 5, 0x62, 2]);
    run(&mut cpu, &mut fb, 4);
    assert_eq!(cpu.register(1), 0);
    assert_eq!(cpu.register(2), 2);
    assert_eq!(cpu.program_counter(), 0x20A);
    // V0 = V1 = 3; skip if equal; (skipped) V2 = 1; skip if not equal; V3 = 4
    let mut cpu = machine_with(&[0x60, 3, 0x61, 3, 0x50, 0x10, 0x62, 1, 0x90, 0x10, 0x63, 4]);
    run(&mut cpu, &mut fb, 5);
    assert_eq!(cpu.register(2), 0);
    assert_eq!(cpu.register(3), 4);
}

#[test]
fn key_skips_use_low_nibble() {
    let mut fb = Framebuffer::new();
    // V0 = 0x17 names key 7; skip if held
    let mut cpu = machine_with(&[0x60, 0x17, 0xE0, 0x9E]);
    run(&mut cpu, &mut fb, 1);
    cpu.read_word(1 << 7, 0, &mut fb).unwrap();
    assert_eq!(cpu.program_counter(), 0x206);
    let mut cpu = machine_with(&[0x60, 0x17, 0xE0, 0x9E]);
    run(&mut cpu, &mut fb, 1);
    cpu.read_word(1 << 6, 0, &mut fb).unwrap();
    assert_eq!(cpu.program_counter(), 0x204);
    let mut cpu = machine_with(&[0x60, 0x17, 0xE0, 0xA1]);
    run(&mut cpu, &mut fb, 1);
    cpu.read_word(0, 0, &mut fb).unwrap();
    assert_eq!(cpu.program_counter(), 0x206);
}

#[test]
fn random_is_masked() {
    let mut fb = Framebuffer::new();
    let mut cpu = machine_with(&[0xC3, 0x0F]);
    cpu.read_word(0, 0xAB, &mut fb).unwrap();
    assert_eq!(cpu.register(3), 0x0B);
}

#[test]
fn timers_load_and_count_down() {
    let mut fb = Framebuffer::new();
    let mut cpu = machine_with(&[0x60, 2, 0xF0, 0x15, 0xF0, 0x18, 0xF1, 0x07]);
    run(&mut cpu, &mut fb, 3);
    assert_eq!(cpu.delay_timer(), 2);
    assert_eq!(cpu.sound_timer(), 2);
    assert!(cpu.sound_active());
    cpu.decrement_timers();
    run(&mut cpu, &mut fb, 1);
    assert_eq!(cpu.register(1), 1);
    cpu.decrement_timers();
    cpu.decrement_timers();
    assert_eq!(cpu.delay_timer(), 0);
    assert_eq!(cpu.sound_timer(), 0);
    assert!(!cpu.sound_active());
}

#[test]
fn wait_for_key_suspends_until_press() {
    let mut fb = Framebuffer::new();
    // VA = 5; DT = VA; wait for key into V0; V0 += 1
    let mut cpu = machine_with(&[0x6A, 5, 0xFA, 0x15, 0xF0, 0x0A, 0x70, 0x01]);
    run(&mut cpu, &mut fb, 3);
    assert_eq!(cpu.waiting_register(), Some(0));
    assert_eq!(cpu.program_counter(), 0x206);
    for tick in 1..=3u8 {
        cpu.decrement_timers();
        assert_eq!(cpu.read_word(0, 0, &mut fb), Ok(None));
        assert_eq!(cpu.program_counter(), 0x206);
        assert_eq!(cpu.delay_timer(), 5 - tick);
    }
    assert_eq!(cpu.register(0), 0);
    cpu.key_pressed(0xC);
    assert_eq!(cpu.waiting_register(), None);
    assert_eq!(cpu.register(0), 0xC);
    assert_eq!(cpu.read_word(0, 0, &mut fb), Ok(Some(0x7001)));
    assert_eq!(cpu.register(0), 0xD);
}

#[test]
fn key_press_without_wait_changes_nothing() {
    let mut cpu = Cpu::new();
    cpu.key_pressed(3);
    assert_eq!(cpu.register(3), 0);
    assert_eq!(cpu.register(0), 0);
    assert_eq!(cpu.waiting_register(), None);
}

#[test]
fn index_operations() {
    let mut fb = Framebuffer::new();
    // I = 0x123; V0 = 0x10; I += V0; V1 = 0x1A; I = glyph(V1)
    let mut cpu = machine_with(&[0xA1, 0x23, 0x60, 0x10, 0xF0, 0x1E]);
    run(&mut cpu, &mut fb, 3);
    assert_eq!(cpu.index(), 0x133);
    let mut cpu = machine_with(&[0x61, 0x1A, 0xF1, 0x29]);
    run(&mut cpu, &mut fb, 2);
    assert_eq!(cpu.index(), 50);
    assert_eq!(cpu.memory(50), 0xF0);
    assert_eq!(cpu.memory(51), 0x90);
}

#[test]
fn index_add_wraps() {
    let mut fb = Framebuffer::new();
    let mut cpu = machine_with(&[0xAF, 0xFF, 0x60, 0xFF, 0xF0, 0x1E]);
    run(&mut cpu, &mut fb, 3);
    assert_eq!(cpu.index(), 0x10FE);
}

#[test]
fn decimal_digits_stored_at_index() {
    let mut fb = Framebuffer::new();
    let mut cpu = machine_with(&[0x65, 234, 0xA3, 0x00, 0xF5, 0x33]);
    run(&mut cpu, &mut fb, 3);
    assert_eq!(cpu.memory(0x300), 2);
    assert_eq!(cpu.memory(0x301), 3);
    assert_eq!(cpu.memory(0x302), 4);
    assert_eq!(cpu.index(), 0x300);
}

#[test]
fn store_then_load_registers_round_trip() {
    let mut fb = Framebuffer::new();
    let mut cpu = machine_with(&[
        0x60, 11, 0x61, 22, 0x62, 33, 0x63, 44, 0xA3, 0x00, 0xF2, 0x55, // store V0..V2
        0x60, 0, 0x61, 0, 0x62, 0, 0xF2, 0x65, // clear, load V0..V2
    ]);
    run(&mut cpu, &mut fb, 6);
    assert_eq!(cpu.memory(0x300), 11);
    assert_eq!(cpu.memory(0x301), 22);
    assert_eq!(cpu.memory(0x302), 33);
    assert_eq!(cpu.memory(0x303), 0);
    assert_eq!(cpu.index(), 0x300);
    run(&mut cpu, &mut fb, 4);
    assert_eq!(cpu.register(0), 11);
    assert_eq!(cpu.register(1), 22);
    assert_eq!(cpu.register(2), 33);
    assert_eq!(cpu.register(3), 44);
    assert_eq!(cpu.index(), 0x300);
}

#[test]
fn draw_sets_collision_flag() {
    let mut fb = Framebuffer::new();
    // I = glyph 0; V0 = 62, V1 = 31; draw 5 rows at (V0, V1), twice
    let mut cpu = machine_with(&[0xA0, 0x00, 0x60, 62, 0x61, 31, 0xD0, 0x15, 0xD0, 0x15]);
    run(&mut cpu, &mut fb, 4);
    assert_eq!(cpu.register(0xF), 0);
    // top row 0xF0 at x = 62 wraps: columns 62, 63, 0, 1 of row 31
    assert!(fb.pixel(62, 31));
    assert!(fb.pixel(63, 31));
    assert!(fb.pixel(0, 31));
    assert!(fb.pixel(1, 31));
    assert!(!fb.pixel(2, 31));
    // second row 0x90 lands on row 0
    assert!(fb.pixel(62, 0));
    assert!(!fb.pixel(63, 0));
    assert!(fb.pixel(1, 0));
    run(&mut cpu, &mut fb, 1);
    assert_eq!(cpu.register(0xF), 1);
    for y in 0..32 {
        for x in 0..64 {
            assert!(!fb.pixel(x, y));
        }
    }
}

#[test]
fn clear_screen_blanks_pixels() {
    let mut fb = Framebuffer::new();
    let mut cpu = machine_with(&[0xA0, 0x00, 0xD0, 0x05, 0x00, 0xE0]);
    run(&mut cpu, &mut fb, 2);
    assert!(fb.pixel(0, 0));
    run(&mut cpu, &mut fb, 1);
    assert!(!fb.pixel(0, 0));
}

#[test]
fn unrecognized_word_is_a_no_op() {
    let mut fb = Framebuffer::new();
    let mut cpu = machine_with(&[0x60, 1, 0xE0, 0x00, 0x5A, 0xB3]);
    run(&mut cpu, &mut fb, 3);
    assert_eq!(cpu.register(0), 1);
    assert_eq!(cpu.program_counter(), 0x206);
}

#[test]
fn call_opcode_executes_without_fetch() {
    let mut fb = Framebuffer::new();
    let mut cpu = Cpu::new();
    cpu.call_opcode(0x6A42, 0, 0, &mut fb).unwrap();
    assert_eq!(cpu.register(0xA), 0x42);
    assert_eq!(cpu.program_counter(), 0x200);
    assert_eq!(cpu.call_opcode(0x00EE, 0, 0, &mut fb), Err(Chip8Error::StackUnderflow));
}
