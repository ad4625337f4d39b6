use chip8::{Chip8, Fault};

fn machine_with(program: &[u8]) -> Chip8 {
    let mut chip = Chip8::new();
    chip.initialize();
    assert_eq!(chip.load_program(program), Ok(()));
    chip
}

/// Runs the single instruction `word` with `Vx = vx` and `Vy = vy`, where `x`
/// and `y` are the second and third nibble of the word.
fn run(word: u16, vx: u8, vy: u8) -> Chip8 {
    let mut chip = machine_with(&[(word >> 8) as u8, (word & 0xFF) as u8]);
    let x = ((word >> 8) & 0xF) as usize;
    let y = ((word >> 4) & 0xF) as usize;
    chip.regs.v[y] = vy;
    chip.regs.v[x] = vx;
    assert_eq!(chip.cycle_with(0), Ok(()));
    chip
}

#[test]
fn clear_screen() {
    let mut chip = machine_with(&[0x00, 0xE0]);
    chip.gfx.0[3][4] = true;
    chip.gfx.0[63][31] = true;
    assert_eq!(chip.cycle_with(0), Ok(()));
    assert!(chip.gfx.0.iter().all(|column| column.iter().all(|lit| !*lit)));
    assert_eq!(chip.regs.pc, 0x202);
}

#[test]
fn graphics_clear_and_pixel() {
    let mut chip = Chip8::new();
    chip.gfx.0[10][20] = true;
    assert!(chip.gfx.pixel(10, 20));
    assert!(!chip.gfx.pixel(20, 10));
    chip.gfx.clear();
    assert!(!chip.gfx.pixel(10, 20));
}

#[test]
fn jump() {
    let chip = run(0x1234, 0, 0);
    assert_eq!(chip.regs.pc, 0x234);
    assert_eq!(chip.stack.depth(), 0);
}

#[test]
fn call_and_return() {
    let mut chip = machine_with(&[0x22, 0x06, 0x00, 0x00, 0x00, 0x00, 0x00, 0xEE]);
    assert_eq!(chip.cycle_with(0), Ok(()));
    assert_eq!(chip.regs.pc, 0x206);
    assert_eq!(chip.stack.depth(), 1);
    assert_eq!(chip.cycle_with(0), Ok(()));
    assert_eq!(chip.regs.pc, 0x202);
    assert_eq!(chip.stack.depth(), 0);
}

#[test]
fn nested_calls_return_in_reverse_order() {
    // 0x200: call 0x204; 0x204: call 0x208; 0x208: return.
    let mut chip = machine_with(&[0x22, 0x04, 0x00, 0x00, 0x22, 0x08, 0x00, 0xEE, 0x00, 0xEE]);
    assert_eq!(chip.cycle_with(0), Ok(()));
    assert_eq!(chip.cycle_with(0), Ok(()));
    assert_eq!(chip.regs.pc, 0x208);
    assert_eq!(chip.stack.depth(), 2);
    assert_eq!(chip.cycle_with(0), Ok(()));
    assert_eq!(chip.regs.pc, 0x206);
    assert_eq!(chip.cycle_with(0), Ok(()));
    assert_eq!(chip.regs.pc, 0x202);
    assert_eq!(chip.stack.depth(), 0);
}

#[test]
fn jump_with_offset() {
    let mut chip = machine_with(&[0xB3, 0x00]);
    chip.regs.v[0] = 0x10;
    assert_eq!(chip.cycle_with(0), Ok(()));
    assert_eq!(chip.regs.pc, 0x310);

    let mut chip = machine_with(&[0xBF, 0xFF]);
    chip.regs.v[0] = 0xFF;
    assert_eq!(chip.cycle_with(0), Ok(()));
    assert_eq!(chip.regs.pc, 0x0FFF + 0xFF);
    assert_eq!(chip.cycle_with(0), Err(Fault::FetchOutOfRange));
}

#[test]
fn skip_if_register_equals_byte() {
    assert_eq!(run(0x3142, 0x42, 0).regs.pc, 0x204);
    assert_eq!(run(0x3142, 0x43, 0).regs.pc, 0x202);
}

#[test]
fn skip_if_register_differs_from_byte() {
    assert_eq!(run(0x4142, 0x42, 0).regs.pc, 0x202);
    assert_eq!(run(0x4142, 0x43, 0).regs.pc, 0x204);
}

#[test]
fn skip_if_registers_are_equal() {
    assert_eq!(run(0x5120, 7, 7).regs.pc, 0x204);
    assert_eq!(run(0x5120, 7, 8).regs.pc, 0x202);
    assert_eq!(run(0x5110, 7, 7).regs.pc, 0x204);
}

#[test]
fn skip_if_registers_differ() {
    assert_eq!(run(0x9120, 7, 7).regs.pc, 0x202);
    assert_eq!(run(0x9120, 7, 8).regs.pc, 0x204);
}

#[test]
fn skip_if_key_is_down() {
    let mut chip = machine_with(&[0xE1, 0x9E, 0xE1, 0x9E]);
    chip.regs.v[1] = 5;
    assert_eq!(chip.cycle_with(0), Ok(()));
    assert_eq!(chip.regs.pc, 0x202);
    chip.keyboard.0[5] = true;
    assert_eq!(chip.cycle_with(0), Ok(()));
    assert_eq!(chip.regs.pc, 0x206);
}

#[test]
fn skip_if_key_is_down_reads_the_register_and_not_its_index() {
    let mut chip = machine_with(&[0xE1, 0x9E]);
    chip.regs.v[1] = 5;
    chip.keyboard.0[1] = true;
    assert_eq!(chip.cycle_with(0), Ok(()));
    assert_eq!(chip.regs.pc, 0x202);
}

#[test]
fn skip_if_key_is_up() {
    let mut chip = machine_with(&[0xE1, 0xA1, 0x00, 0x00, 0xE1, 0xA1]);
    chip.regs.v[1] = 0xF;
    assert_eq!(chip.cycle_with(0), Ok(()));
    assert_eq!(chip.regs.pc, 0x204);
    chip.keyboard.0[0xF] = true;
    assert_eq!(chip.cycle_with(0), Ok(()));
    assert_eq!(chip.regs.pc, 0x206);
}

#[test]
fn load_byte() {
    let chip = run(0x6A7F, 3, 0);
    assert_eq!(chip.regs.v[0xA], 0x7F);
    assert_eq!(chip.regs.pc, 0x202);
}

#[test]
fn add_byte_wraps_and_leaves_the_flag() {
    let chip = run(0x720A, 250, 0);
    assert_eq!(chip.regs.v[2], 4);
    assert_eq!(chip.regs.v[0xF], 0);
    assert_eq!(chip.regs.pc, 0x202);
    assert_eq!(run(0x7201, 1, 0).regs.v[2], 2);
}

#[test]
fn move_or_and_xor() {
    assert_eq!(run(0x8120, 0x0F, 0x33).regs.v[1], 0x33);
    assert_eq!(run(0x8121, 0x0F, 0x33).regs.v[1], 0x3F);
    assert_eq!(run(0x8122, 0x0F, 0x33).regs.v[1], 0x03);
    assert_eq!(run(0x8123, 0x0F, 0x33).regs.v[1], 0x3C);
    let chip = run(0x8123, 0x0F, 0x33);
    assert_eq!(chip.regs.v[2], 0x33);
    assert_eq!(chip.regs.v[0xF], 0);
    assert_eq!(chip.regs.pc, 0x202);
}

#[test]
fn add_with_carry() {
    let chip = run(0x8124, 200, 55);
    assert_eq!((chip.regs.v[1], chip.regs.v[0xF]), (255, 0));
    let chip = run(0x8124, 200, 56);
    assert_eq!((chip.regs.v[1], chip.regs.v[0xF]), (0, 1));
    let chip = run(0x8124, 255, 255);
    assert_eq!((chip.regs.v[1], chip.regs.v[0xF]), (254, 1));
    let chip = run(0x8124, 1, 2);
    assert_eq!((chip.regs.v[1], chip.regs.v[0xF]), (3, 0));
    assert_eq!(chip.regs.v[2], 2);
    assert_eq!(chip.regs.pc, 0x202);
}

#[test]
fn add_with_carry_clears_a_flag_that_was_set() {
    let mut chip = machine_with(&[0x81, 0x24]);
    chip.regs.v[0xF] = 1;
    chip.regs.v[1] = 1;
    chip.regs.v[2] = 2;
    assert_eq!(chip.cycle_with(0), Ok(()));
    assert_eq!((chip.regs.v[1], chip.regs.v[0xF]), (3, 0));
}

#[test]
fn subtract_with_borrow() {
    let chip = run(0x8125, 5, 7);
    assert_eq!((chip.regs.v[1], chip.regs.v[0xF]), (254, 0));
    let chip = run(0x8125, 7, 5);
    assert_eq!((chip.regs.v[1], chip.regs.v[0xF]), (2, 1));
    let chip = run(0x8125, 7, 7);
    assert_eq!((chip.regs.v[1], chip.regs.v[0xF]), (0, 1));
    let chip = run(0x8125, 0, 255);
    assert_eq!((chip.regs.v[1], chip.regs.v[0xF]), (1, 0));
}

#[test]
fn subtract_reversed() {
    let chip = run(0x8127, 5, 7);
    assert_eq!((chip.regs.v[1], chip.regs.v[0xF]), (2, 1));
    let chip = run(0x8127, 7, 5);
    assert_eq!((chip.regs.v[1], chip.regs.v[0xF]), (254, 0));
    let chip = run(0x8127, 7, 7);
    assert_eq!((chip.regs.v[1], chip.regs.v[0xF]), (0, 1));
    assert_eq!(chip.regs.v[2], 7);
}

#[test]
fn shift_right() {
    let chip = run(0x8126, 0b0000_0101, 0xFF);
    assert_eq!((chip.regs.v[1], chip.regs.v[0xF]), (0b0000_0010, 1));
    let chip = run(0x8126, 0b1000_0100, 0xFF);
    assert_eq!((chip.regs.v[1], chip.regs.v[0xF]), (0b0100_0010, 0));
    assert_eq!(chip.regs.v[2], 0xFF);
}

#[test]
fn shift_left() {
    let chip = run(0x812E, 0x81, 0xFF);
    assert_eq!((chip.regs.v[1], chip.regs.v[0xF]), (0x02, 1));
    let chip = run(0x812E, 0x41, 0xFF);
    assert_eq!((chip.regs.v[1], chip.regs.v[0xF]), (0x82, 0));
    assert_eq!(chip.regs.v[2], 0xFF);
}

#[test]
fn flag_is_written_after_the_result() {
    // With VF as the destination the flag is what stays in it.
    let chip = run(0x8F14, 200, 100);
    assert_eq!(chip.regs.v[0xF], 1);
    let chip = run(0x8F14, 20, 100);
    assert_eq!(chip.regs.v[0xF], 0);
    let chip = run(0x8F16, 0b0000_0111, 0);
    assert_eq!(chip.regs.v[0xF], 1);
    let chip = run(0x8F1E, 0b0100_0000, 0);
    assert_eq!(chip.regs.v[0xF], 0);
}

#[test]
fn operands_are_read_before_the_flag_is_written() {
    // With VF as the second operand its old value is what is subtracted.
    let chip = run(0x81F5, 10, 3);
    assert_eq!((chip.regs.v[1], chip.regs.v[0xF]), (7, 1));
    let chip = run(0x81F4, 250, 10);
    assert_eq!((chip.regs.v[1], chip.regs.v[0xF]), (4, 1));
}

#[test]
fn load_index() {
    let chip = run(0xA123, 0, 0);
    assert_eq!(chip.regs.i, 0x123);
    assert_eq!(chip.regs.pc, 0x202);
}

#[test]
fn random_is_masked() {
    let mut chip = machine_with(&[0xC1, 0x0F, 0xC2, 0xFF, 0xC3, 0x00]);
    assert_eq!(chip.cycle_with(0xAB), Ok(()));
    assert_eq!(chip.regs.v[1], 0x0B);
    assert_eq!(chip.cycle_with(0xAB), Ok(()));
    assert_eq!(chip.regs.v[2], 0xAB);
    chip.regs.v[3] = 9;
    assert_eq!(chip.cycle_with(0xAB), Ok(()));
    assert_eq!(chip.regs.v[3], 0);
    assert_eq!(chip.regs.pc, 0x206);
}

#[test]
fn read_and_set_timers() {
    // Set the delay timer from V1, then read it back into V2.
    let mut chip = machine_with(&[0xF1, 0x15, 0xF2, 0x07, 0xF1, 0x18]);
    chip.regs.v[1] = 10;
    assert_eq!(chip.cycle_with(0), Ok(()));
    assert_eq!(chip.regs.delay_timer, 9);
    assert_eq!(chip.cycle_with(0), Ok(()));
    assert_eq!(chip.regs.v[2], 9);
    assert_eq!(chip.regs.delay_timer, 8);
    assert_eq!(chip.cycle_with(0), Ok(()));
    assert_eq!(chip.regs.sound_timer, 9);
    assert_eq!(chip.regs.delay_timer, 7);
    assert_eq!(chip.regs.pc, 0x206);
}

#[test]
fn setting_a_timer_to_zero_leaves_it_at_zero() {
    let mut chip = machine_with(&[0xF1, 0x15]);
    chip.regs.delay_timer = 100;
    assert_eq!(chip.cycle_with(0), Ok(()));
    assert_eq!(chip.regs.delay_timer, 0);
}

#[test]
fn wait_for_key_sets_the_flag_and_goes_on() {
    let mut chip = machine_with(&[0xF9, 0x0A, 0x6A, 0x01]);
    assert_eq!(chip.cycle_with(0), Ok(()));
    assert!(chip.waiting_for_keyboard);
    assert_eq!(chip.keyboard_register, 9);
    assert_eq!(chip.regs.pc, 0x202);
    // The machine itself does not stall.
    assert_eq!(chip.cycle_with(0), Ok(()));
    assert_eq!(chip.regs.v[0xA], 1);
    assert!(chip.waiting_for_keyboard);
}

#[test]
fn add_to_index() {
    let mut chip = machine_with(&[0xF1, 0x1E, 0xF1, 0x1E]);
    chip.regs.i = 0x100;
    chip.regs.v[1] = 0x23;
    assert_eq!(chip.cycle_with(0), Ok(()));
    assert_eq!(chip.regs.i, 0x123);
    assert_eq!(chip.regs.v[0xF], 0);
    chip.regs.i = 0xFFFF;
    chip.regs.v[1] = 2;
    assert_eq!(chip.cycle_with(0), Ok(()));
    assert_eq!(chip.regs.i, 1);
    assert_eq!(chip.regs.v[0xF], 0);
}

#[test]
fn font_glyph_address() {
    assert_eq!(run(0xF129, 0, 0).regs.i, 0);
    assert_eq!(run(0xF129, 0xA, 0).regs.i, 50);
    assert_eq!(run(0xF129, 0xF, 0).regs.i, 75);
    assert_eq!(run(0xF129, 255, 0).regs.i, 1275);
}

#[test]
fn store_bcd() {
    let mut chip = machine_with(&[0xF1, 0x33]);
    chip.regs.v[1] = 156;
    chip.regs.i = 0x300;
    chip.mem.write(0x2FF, 0x77);
    chip.mem.write(0x303, 0x88);
    assert_eq!(chip.cycle_with(0), Ok(()));
    assert_eq!(chip.mem.read(0x300), 1);
    assert_eq!(chip.mem.read(0x301), 5);
    assert_eq!(chip.mem.read(0x302), 6);
    assert_eq!(chip.mem.read(0x2FF), 0x77);
    assert_eq!(chip.mem.read(0x303), 0x88);
    assert_eq!(chip.regs.i, 0x300);
    assert_eq!(chip.regs.pc, 0x202);
}

#[test]
fn store_bcd_of_every_byte() {
    for value in 0..=255u8 {
        let mut chip = machine_with(&[0xF0, 0x33]);
        chip.regs.v[0] = value;
        chip.regs.i = 0x400;
        assert_eq!(chip.cycle_with(0), Ok(()));
        let digits = (chip.mem.read(0x400), chip.mem.read(0x401), chip.mem.read(0x402));
        assert!(digits.0 < 10 && digits.1 < 10 && digits.2 < 10);
        assert_eq!(100 * digits.0 as u16 + 10 * digits.1 as u16 + digits.2 as u16, value as u16);
    }
}

#[test]
fn store_registers() {
    let mut chip = machine_with(&[0xF3, 0x55]);
    for x in 0..16 {
        chip.regs.v[x] = 0x10 + x as u8;
    }
    chip.regs.i = 0x300;
    chip.mem.write(0x304, 0x99);
    assert_eq!(chip.cycle_with(0), Ok(()));
    assert_eq!(&chip.mem.0[0x300..0x305], &[0x10, 0x11, 0x12, 0x13, 0x99]);
    assert_eq!(chip.mem.read(0x2FF), 0);
    assert_eq!(chip.regs.i, 0x300);
    assert_eq!(chip.regs.pc, 0x202);
}

#[test]
fn store_one_register_and_all_registers() {
    let mut chip = machine_with(&[0xF0, 0x55, 0xFF, 0x55]);
    for x in 0..16 {
        chip.regs.v[x] = 0xA0 + x as u8;
    }
    chip.regs.i = 0x300;
    assert_eq!(chip.cycle_with(0), Ok(()));
    assert_eq!(&chip.mem.0[0x300..0x302], &[0xA0, 0x00]);
    chip.regs.i = 0x310;
    assert_eq!(chip.cycle_with(0), Ok(()));
    for x in 0..16 {
        assert_eq!(chip.mem.read(0x310 + x), 0xA0 + x as u8);
    }
    assert_eq!(chip.mem.read(0x320), 0);
}

#[test]
fn load_registers() {
    let mut chip = machine_with(&[0xF2, 0x65]);
    chip.regs.i = 0x300;
    for k in 0..4 {
        chip.mem.write(0x300 + k, 0x21 + k as u8);
    }
    chip.regs.v[3] = 0x55;
    assert_eq!(chip.cycle_with(0), Ok(()));
    assert_eq!(&chip.regs.v[0..4], &[0x21, 0x22, 0x23, 0x55]);
    assert_eq!(chip.regs.i, 0x300);
    assert_eq!(chip.regs.pc, 0x202);
}

#[test]
fn store_then_load_gives_the_registers_back() {
    let mut chip = machine_with(&[0xFF, 0x55, 0xFF, 0x65]);
    for x in 0..16 {
        chip.regs.v[x] = 3 * x as u8 + 1;
    }
    let before = chip.regs.v;
    chip.regs.i = 0x500;
    assert_eq!(chip.cycle_with(0), Ok(()));
    chip.regs.v = [0; 16];
    assert_eq!(chip.cycle_with(0), Ok(()));
    assert_eq!(chip.regs.v, before);
}

#[test]
fn every_other_operation_moves_on_by_one_word() {
    let words: [u16; 20] = [
        0x00E0, 0x6123, 0x7123, 0x8120, 0x8121, 0x8122, 0x8123, 0x8124, 0x8125, 0x8126, 0x8127,
        0x812E, 0xA123, 0xC123, 0xD121, 0xF107, 0xF10A, 0xF115, 0xF118, 0xF129,
    ];
    for word in words {
        assert_eq!(run(word, 1, 2).regs.pc, 0x202);
    }
}
