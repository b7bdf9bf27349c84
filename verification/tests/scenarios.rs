use chip8::{Chip8, Fault};
use std::time::Duration;

fn machine_with(rom: &[u8]) -> Chip8 {
    let mut chip = Chip8::new();
    chip.load_rom(rom);
    chip
}

/// Runs `count` ticks, each long enough for an instruction to be due.
fn run_ticks(chip: &mut Chip8, count: usize) {
    for _ in 0..count {
        assert_eq!(chip.step_fault(), None);
        chip.tick(Duration::from_millis(50));
    }
}

fn lit_pixels(chip: &Chip8) -> Vec<usize> {
    let mut lit = Vec::new();
    for (index, pixel) in chip.framebuffer().iter().enumerate() {
        if *pixel {
            lit.push(index);
        }
    }
    lit
}

#[test]
fn load_add_immediate_and_jump() {
    let mut chip = machine_with(&[0x6A, 0x0A, 0x7A, 0x05, 0x12, 0x00]);
    run_ticks(&mut chip, 3);
    assert_eq!(chip.registers()[0xA], 0x0F);
    assert_eq!(chip.pc(), 0x200);
}

#[test]
fn add_registers_sets_carry() {
    let mut chip = machine_with(&[0x60, 0xFF, 0x61, 0x01, 0x80, 0x14]);
    run_ticks(&mut chip, 3);
    assert_eq!(chip.registers()[0], 0x00);
    assert_eq!(chip.registers()[0xF], 1);
}

#[test]
fn sub_registers_without_borrow_sets_flag() {
    let mut chip = machine_with(&[0x60, 0xFF, 0x61, 0x01, 0x80, 0x15]);
    run_ticks(&mut chip, 3);
    assert_eq!(chip.registers()[0], 0xFE);
    assert_eq!(chip.registers()[0xF], 1);
}

#[test]
fn bcd_of_five() {
    let mut chip = machine_with(&[0xA3, 0x00, 0x61, 0x05, 0xF1, 0x33]);
    run_ticks(&mut chip, 3);
    assert_eq!(chip.index(), 0x300);
    assert_eq!(&chip.memory()[0x300..0x303], &[0, 0, 5]);
}

#[test]
fn bcd_of_234() {
    let mut chip = machine_with(&[0xA3, 0x00, 0x61, 0xEA, 0xF1, 0x33]);
    run_ticks(&mut chip, 3);
    assert_eq!(&chip.memory()[0x300..0x303], &[2, 3, 4]);
}

#[test]
fn draw_glyph_zero() {
    // I points at the glyph for 0, which the font holds at addresses 0..5.
    let mut chip = machine_with(&[0xA0, 0x00, 0xD0, 0x05]);
    let first = chip.tick(Duration::from_millis(50));
    assert!(!first.vram_changed);
    let second = chip.tick(Duration::from_millis(50));
    assert!(second.vram_changed);
    let expected: Vec<usize> = vec![
        0, 1, 2, 3,
        64, 67,
        128, 131,
        192, 195,
        256, 257, 258, 259,
    ];
    assert_eq!(lit_pixels(&chip), expected);
    assert_eq!(lit_pixels(&chip).len(), 14);
    assert_eq!(chip.registers()[0xF], 0);
}

#[test]
fn draw_reads_the_sprite_at_the_index_register() {
    // With I at 0x202 the sprite is the five bytes D0 05 00 00 00.
    let mut chip = machine_with(&[0xA2, 0x02, 0xD0, 0x05]);
    run_ticks(&mut chip, 2);
    assert_eq!(lit_pixels(&chip), vec![0, 1, 3, 64 + 5, 64 + 7]);
    assert_eq!(chip.registers()[0xF], 0);
}

#[test]
fn draw_glyph_zero_twice_clears_it() {
    let mut chip = machine_with(&[0xA0, 0x00, 0xD0, 0x05, 0xD0, 0x05]);
    run_ticks(&mut chip, 2);
    assert_eq!(lit_pixels(&chip).len(), 14);
    let third = chip.tick(Duration::from_millis(50));
    assert!(third.vram_changed);
    assert!(lit_pixels(&chip).is_empty());
    assert_eq!(chip.registers()[0xF], 1);
}

#[test]
fn sound_timer_beeps_until_it_runs_out() {
    let mut chip = machine_with(&[0x60, 0x02, 0xF0, 0x18]);
    // The first tick of a fresh machine also fires the first timer event.
    let first = chip.tick(Duration::ZERO);
    assert!(!first.beep);
    let second = chip.tick(Duration::from_micros(27));
    assert!(!second.beep);
    assert_eq!(chip.sound_timer(), 2);

    let a = chip.tick(Duration::from_micros(16667));
    assert!(a.beep);
    assert_eq!(chip.sound_timer(), 1);
    let b = chip.tick(Duration::from_micros(16667));
    assert!(b.beep);
    assert_eq!(chip.sound_timer(), 0);
    let c = chip.tick(Duration::from_micros(16667));
    assert!(!c.beep);
    assert_eq!(chip.sound_timer(), 0);
}

#[test]
fn sprite_at_bottom_right_corner_is_clipped_on_both_axes() {
    let mut chip = machine_with(&[0x60, 0x3F, 0x61, 0x1F, 0xA0, 0x00, 0xD0, 0x15]);
    run_ticks(&mut chip, 4);
    assert_eq!(lit_pixels(&chip), vec![31 * 64 + 63]);
    assert_eq!(chip.registers()[0xF], 0);
}

#[test]
fn sprite_coordinates_wrap_before_clipping() {
    let rom = [0x60, 0x40, 0x61, 0x20, 0xA2, 0x08, 0xD0, 0x11, 0x80];
    let mut chip = machine_with(&rom);
    run_ticks(&mut chip, 4);
    assert_eq!(lit_pixels(&chip), vec![0]);
}

#[test]
fn sprite_row_wrapped_to_origin_is_drawn_whole() {
    let rom = [0x60, 0x40, 0x61, 0x20, 0xA2, 0x08, 0xD0, 0x11, 0xFF];
    let mut chip = machine_with(&rom);
    run_ticks(&mut chip, 4);
    assert_eq!(lit_pixels(&chip), vec![0, 1, 2, 3, 4, 5, 6, 7]);
}

#[test]
fn add_index_crossing_4096_sets_flag_and_masks() {
    let mut chip = machine_with(&[0xAF, 0xFF, 0x60, 0x01, 0xF0, 0x1E]);
    run_ticks(&mut chip, 3);
    assert_eq!(chip.index(), 0x000);
    assert_eq!(chip.registers()[0xF], 1);
}

#[test]
fn add_index_below_4096_clears_flag() {
    let mut chip = machine_with(&[0x6F, 0x01, 0xA1, 0x00, 0x60, 0x01, 0xF0, 0x1E]);
    run_ticks(&mut chip, 4);
    assert_eq!(chip.index(), 0x101);
    assert_eq!(chip.registers()[0xF], 0);
}

#[test]
fn add_index_up_to_4095_does_not_overflow() {
    let mut chip = machine_with(&[0xAF, 0x00, 0x60, 0xFF, 0xF0, 0x1E]);
    run_ticks(&mut chip, 3);
    assert_eq!(chip.index(), 0xFFF);
    assert_eq!(chip.registers()[0xF], 0);
}

#[test]
fn wait_for_key_holds_the_program_counter() {
    let mut chip = machine_with(&[0xF3, 0x0A, 0x63, 0x55]);
    for _ in 0..5 {
        chip.tick(Duration::from_millis(1));
        assert_eq!(chip.pc(), 0x200);
        assert_eq!(chip.registers()[3], 0);
    }
    chip.set_key(7, true);
    chip.set_key(2, true);
    chip.tick(Duration::from_millis(1));
    assert_eq!(chip.pc(), 0x202);
    assert_eq!(chip.registers()[3], 2);
}

#[test]
fn wait_for_key_returns_at_once_if_a_key_is_held() {
    let mut chip = machine_with(&[0xF0, 0x0A]);
    chip.set_key(0xF, true);
    chip.tick(Duration::ZERO);
    assert_eq!(chip.pc(), 0x202);
    assert_eq!(chip.registers()[0], 0xF);
}

#[test]
fn wait_for_key_ignores_released_keys() {
    let mut chip = machine_with(&[0xF0, 0x0A]);
    chip.set_key(4, true);
    chip.set_key(4, false);
    chip.tick(Duration::ZERO);
    assert_eq!(chip.pc(), 0x200);
}

#[test]
fn stack_pointer_stops_at_sixteen() {
    // A chain of calls, each to the instruction after it.
    let mut rom = Vec::new();
    for k in 0..17u16 {
        let target = 0x200 + 2 * (k + 1);
        rom.push(0x20 | (target >> 8) as u8);
        rom.push((target & 0xFF) as u8);
    }
    let mut chip = machine_with(&rom);
    for depth in 1..=16u8 {
        assert_eq!(chip.step_fault(), None);
        chip.step();
        assert_eq!(chip.sp(), depth);
    }
    assert_eq!(chip.step_fault(), Some(Fault::StackOverflow));
    let pc = chip.pc();
    assert_eq!(chip.try_tick(Duration::from_millis(50)), Err(Fault::StackOverflow));
    assert_eq!(chip.sp(), 16);
    assert_eq!(chip.pc(), pc);
}

#[test]
fn one_tick_runs_one_instruction_however_long() {
    let mut chip = machine_with(&[0x60, 0x01, 0x61, 0x02, 0x62, 0x03]);
    chip.tick(Duration::from_secs(10));
    assert_eq!(chip.pc(), 0x202);
    assert_eq!(&chip.registers()[0..3], &[1, 0, 0]);
    chip.tick(Duration::MAX);
    assert_eq!(chip.pc(), 0x204);
    assert_eq!(&chip.registers()[0..3], &[1, 2, 0]);
}

#[test]
fn one_tick_fires_one_timer_event_however_long() {
    let mut chip = machine_with(&[0x60, 0x05, 0xF0, 0x15, 0xF0, 0x18]);
    chip.tick(Duration::ZERO);
    chip.tick(Duration::from_micros(27));
    chip.tick(Duration::from_micros(45));
    assert_eq!(chip.delay_timer(), 5);
    assert_eq!(chip.sound_timer(), 5);
    let result = chip.tick(Duration::from_secs(10));
    assert!(result.beep);
    assert_eq!(chip.delay_timer(), 4);
    assert_eq!(chip.sound_timer(), 4);
}

#[test]
fn flag_is_written_after_the_result_when_x_is_f() {
    // ADD VF, V1 with carry: the sum 0 is overwritten by the carry.
    let mut chip = machine_with(&[0x6F, 0xFF, 0x61, 0x01, 0x8F, 0x14]);
    run_ticks(&mut chip, 3);
    assert_eq!(chip.registers()[0xF], 1);

    // SUB VF, V1 without borrow: the difference 2 is overwritten by 1.
    let mut chip = machine_with(&[0x6F, 0x05, 0x61, 0x03, 0x8F, 0x15]);
    run_ticks(&mut chip, 3);
    assert_eq!(chip.registers()[0xF], 1);

    // SUB VF, V1 with borrow: the difference 0xFE is overwritten by 0.
    let mut chip = machine_with(&[0x6F, 0x03, 0x61, 0x05, 0x8F, 0x15]);
    run_ticks(&mut chip, 3);
    assert_eq!(chip.registers()[0xF], 0);

    // SUBN VF, V1 without borrow.
    let mut chip = machine_with(&[0x6F, 0x03, 0x61, 0x05, 0x8F, 0x17]);
    run_ticks(&mut chip, 3);
    assert_eq!(chip.registers()[0xF], 1);

    // ADD I, VF: the old VF takes part in the sum, then VF is the overflow.
    let mut chip = machine_with(&[0x6F, 0x01, 0xAF, 0xFF, 0xFF, 0x1E]);
    run_ticks(&mut chip, 3);
    assert_eq!(chip.index(), 0);
    assert_eq!(chip.registers()[0xF], 1);
}

#[test]
fn store_then_load_restores_the_registers() {
    let rom = [
        0x60, 0x01, 0x61, 0x02, 0x62, 0x03, 0x63, 0x04, // V0..V3 = 1, 2, 3, 4
        0xA3, 0x00, // I = 0x300
        0xF3, 0x55, // store V0..=V3
        0x60, 0x00, 0x61, 0x00, 0x62, 0x00, 0x63, 0x00, // clear them
        0xA3, 0x00, // I = 0x300 again
        0xF3, 0x65, // load V0..=V3
    ];
    let mut chip = machine_with(&rom);
    run_ticks(&mut chip, 6);
    assert_eq!(&chip.memory()[0x300..0x305], &[1, 2, 3, 4, 0]);
    assert_eq!(chip.index(), 0x304);
    run_ticks(&mut chip, 4);
    assert_eq!(&chip.registers()[0..4], &[0, 0, 0, 0]);
    run_ticks(&mut chip, 2);
    assert_eq!(&chip.registers()[0..5], &[1, 2, 3, 4, 0]);
    assert_eq!(chip.index(), 0x304);
}

#[test]
fn drawing_twice_restores_a_background() {
    // Glyph 0 at (0, 0), then glyph 1 at (1, 0) twice.
    let rom = [
        0xA0, 0x00, 0xD0, 0x05, // draw glyph 0 at (V0, V0) = (0, 0)
        0x61, 0x01, 0xA0, 0x05, // V1 = 1, I = glyph 1
        0xD1, 0x05, 0xD1, 0x05, // draw it twice at (V1, V0) = (1, 0)
    ];
    let mut chip = machine_with(&rom);
    run_ticks(&mut chip, 2);
    let background = lit_pixels(&chip);
    assert_eq!(background.len(), 14);
    run_ticks(&mut chip, 3);
    assert_ne!(lit_pixels(&chip), background);
    // Glyph 1 overlaps glyph 0: the first drawing collides.
    assert_eq!(chip.registers()[0xF], 1);
    run_ticks(&mut chip, 1);
    assert_eq!(lit_pixels(&chip), background);
    // Some pixel of glyph 1 was off before the first drawing.
    assert_eq!(chip.registers()[0xF], 1);
}

#[test]
fn drawing_twice_over_itself_ends_without_collision() {
    let rom = [0xA0, 0x00, 0xD0, 0x05, 0xD0, 0x05, 0xD0, 0x05];
    let mut chip = machine_with(&rom);
    run_ticks(&mut chip, 2);
    let glyph = lit_pixels(&chip);
    run_ticks(&mut chip, 1);
    assert_eq!(chip.registers()[0xF], 1);
    run_ticks(&mut chip, 1);
    assert_eq!(lit_pixels(&chip), glyph);
    // Every pixel of the sprite was on before the first of the two.
    assert_eq!(chip.registers()[0xF], 0);
}

#[test]
fn drawing_near_the_edges_stays_inside_the_window() {
    let mut rom = vec![0x60, 0x3C, 0x61, 0x19, 0xA2, 0x08, 0xD0, 0x1F];
    rom.extend_from_slice(&[0xFF; 15]);
    let mut chip = machine_with(&rom);
    run_ticks(&mut chip, 4);
    let lit = lit_pixels(&chip);
    assert_eq!(lit.len(), 4 * 7);
    for index in lit {
        assert!(index % 64 >= 60);
        assert!(index / 64 >= 25);
    }
}
