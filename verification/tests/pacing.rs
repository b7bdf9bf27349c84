use chip8::{Chip8, Chip8TickResult};
use std::time::Duration;

fn machine_with(rom: &[u8]) -> Chip8 {
    let mut chip = Chip8::new();
    chip.load_rom(rom);
    chip
}

#[test]
fn first_tick_runs_an_instruction_even_with_no_time_passed() {
    let mut chip = machine_with(&[0x60, 0x01]);
    let result = chip.tick(Duration::ZERO);
    assert_eq!(result, Chip8TickResult { vram_changed: false, beep: false });
    assert_eq!(chip.pc(), 0x202);
    assert_eq!(chip.registers()[0], 1);
}

#[test]
fn next_instruction_waits_for_the_delay_of_the_last() {
    // LD V0, 1 asks for 27 microseconds.
    let mut chip = machine_with(&[0x60, 0x01, 0x61, 0x02]);
    chip.tick(Duration::ZERO);
    chip.tick(Duration::from_nanos(26_999));
    assert_eq!(chip.pc(), 0x202);
    chip.tick(Duration::ZERO);
    assert_eq!(chip.pc(), 0x202);
    chip.tick(Duration::from_nanos(1));
    assert_eq!(chip.pc(), 0x204);
    assert_eq!(chip.registers()[1], 2);
}

#[test]
fn delay_is_counted_in_whole_nanoseconds() {
    let mut chip = machine_with(&[0x60, 0x01, 0x61, 0x02]);
    chip.tick(Duration::ZERO);
    for _ in 0..26 {
        chip.tick(Duration::from_micros(1));
        assert_eq!(chip.pc(), 0x202);
    }
    chip.tick(Duration::from_micros(1));
    assert_eq!(chip.pc(), 0x204);
}

#[test]
fn draw_asks_for_22734_microseconds() {
    let mut chip = machine_with(&[0xD0, 0x05, 0x60, 0x01]);
    chip.tick(Duration::ZERO);
    chip.tick(Duration::from_micros(22_733));
    assert_eq!(chip.pc(), 0x202);
    chip.tick(Duration::from_micros(1));
    assert_eq!(chip.pc(), 0x204);
}

#[test]
fn nop_asks_for_no_delay() {
    let mut chip = machine_with(&[0x00, 0x00, 0x00, 0x00]);
    chip.tick(Duration::ZERO);
    chip.tick(Duration::ZERO);
    assert_eq!(chip.pc(), 0x204);
}

#[test]
fn timer_events_come_every_16666_microseconds() {
    // DT = 3, then a loop to itself.
    let mut chip = machine_with(&[0x60, 0x03, 0xF0, 0x15, 0x12, 0x04]);
    chip.tick(Duration::ZERO);
    chip.tick(Duration::from_micros(27));
    assert_eq!(chip.delay_timer(), 3);
    // 27 microseconds of the first period are gone.
    chip.tick(Duration::from_micros(16_638));
    assert_eq!(chip.delay_timer(), 3);
    chip.tick(Duration::from_micros(1));
    assert_eq!(chip.delay_timer(), 2);
    chip.tick(Duration::from_micros(16_665));
    assert_eq!(chip.delay_timer(), 2);
    chip.tick(Duration::from_micros(1));
    assert_eq!(chip.delay_timer(), 1);
    chip.tick(Duration::from_micros(16_666));
    assert_eq!(chip.delay_timer(), 0);
    chip.tick(Duration::from_micros(16_666));
    assert_eq!(chip.delay_timer(), 0);
}

#[test]
fn delay_timer_counts_down_without_beeping() {
    let mut chip = machine_with(&[0x60, 0x02, 0xF0, 0x15]);
    chip.tick(Duration::ZERO);
    chip.tick(Duration::from_micros(27));
    let result = chip.tick(Duration::from_millis(17));
    assert!(!result.beep);
    assert_eq!(chip.delay_timer(), 1);
}

#[test]
fn timer_set_in_a_tick_counts_down_in_the_same_tick() {
    // The instruction runs before the timer event of the same tick.
    let mut chip = machine_with(&[0x60, 0x02, 0xF0, 0x18]);
    chip.tick(Duration::ZERO);
    let result = chip.tick(Duration::from_millis(17));
    assert!(result.beep);
    assert_eq!(chip.sound_timer(), 1);
}

#[test]
fn framebuffer_change_is_reported_once() {
    let mut chip = machine_with(&[0x00, 0xE0, 0x00, 0x00, 0xD0, 0x05, 0x00, 0x00]);
    let cls = chip.tick(Duration::from_millis(50));
    assert!(cls.vram_changed);
    let nop = chip.tick(Duration::from_millis(50));
    assert!(!nop.vram_changed);
    let drw = chip.tick(Duration::from_millis(50));
    assert!(drw.vram_changed);
    let nop = chip.tick(Duration::from_millis(50));
    assert!(!nop.vram_changed);
}

#[test]
fn drawing_an_empty_sprite_reports_no_change() {
    // I points at zeroed memory.
    let mut chip = machine_with(&[0xA3, 0x00, 0xD0, 0x05]);
    chip.tick(Duration::from_millis(50));
    let drw = chip.tick(Duration::from_millis(50));
    assert!(!drw.vram_changed);
}

#[test]
fn tick_not_due_reports_nothing() {
    let mut chip = machine_with(&[0x00, 0xE0, 0x60, 0x01]);
    chip.tick(Duration::ZERO);
    let idle = chip.tick(Duration::from_micros(1));
    assert_eq!(idle, Chip8TickResult { vram_changed: false, beep: false });
    assert_eq!(chip.pc(), 0x202);
}

#[test]
fn tick_nanos_agrees_with_tick() {
    let rom = [0x60, 0x02, 0xF0, 0x18, 0xD0, 0x05, 0x12, 0x00];
    let mut by_duration = machine_with(&rom);
    let mut by_nanos = machine_with(&rom);
    for nanos in [0u64, 27_000, 45_000, 16_000_000, 7_000_000, 1, 22_734_000, 105_000, 999] {
        let a = by_duration.tick(Duration::from_nanos(nanos));
        let b = by_nanos.tick_nanos(nanos as u128);
        assert_eq!(a, b);
        assert_eq!(by_duration.pc(), by_nanos.pc());
        assert_eq!(by_duration.sound_timer(), by_nanos.sound_timer());
        assert_eq!(by_duration.registers(), by_nanos.registers());
        assert_eq!(by_duration.framebuffer(), by_nanos.framebuffer());
    }
}

#[test]
fn tick_takes_seconds_and_nanoseconds_of_a_duration_together() {
    // 1 s + 1 ns is longer than any delay; 26_999 ns is not.
    let mut chip = machine_with(&[0x60, 0x01, 0x61, 0x02, 0x62, 0x03]);
    chip.tick(Duration::ZERO);
    chip.tick(Duration::new(0, 26_999));
    assert_eq!(chip.pc(), 0x202);
    chip.tick(Duration::new(1, 1));
    assert_eq!(chip.pc(), 0x204);
}

#[test]
fn tick_nanos_takes_the_largest_delta() {
    let mut chip = machine_with(&[0x60, 0x01, 0x61, 0x02]);
    chip.tick_nanos(u128::MAX);
    assert_eq!(chip.pc(), 0x202);
    chip.tick_nanos(u128::MAX);
    assert_eq!(chip.pc(), 0x204);
}
