use chip_bert::{Emulator, EmulatorError, Instruction};

fn machine() -> Emulator {
    Emulator::new(Vec::new().into_boxed_slice()).unwrap()
}

/// A machine with `sprite` stored at 0x300 and `I` pointing at it.
fn with_sprite(sprite: &[u8]) -> Emulator {
    let mut e = machine();
    for (k, &row) in sprite.iter().enumerate() {
        e.write_memory(0x300 + k as u16, row).unwrap();
    }
    e.execute(Instruction::LoadIndex { addr: 0x300 }, 0).unwrap();
    e
}

fn lit(e: &Emulator) -> Vec<(usize, usize)> {
    let mut pixels = Vec::new();
    for y in 0..32 {
        for x in 0..64 {
            if e.pixel(x, y) == 1 {
                pixels.push((x, y));
            }
        }
    }
    pixels
}

#[test]
fn a_sprite_row_is_drawn_most_significant_bit_leftmost() {
    let mut e = with_sprite(&[0b1010_0001]);
    assert_eq!(e.draw_screen(10, 5, 1), Ok(()));
    assert_eq!(lit(&e), vec![(10, 5), (12, 5), (17, 5)]);
    assert_eq!(e.register(0xF), 0);
}

#[test]
fn rows_follow_each_other_downwards() {
    let mut e = with_sprite(&[0x80, 0x40, 0x20]);
    assert_eq!(e.draw_screen(0, 0, 3), Ok(()));
    assert_eq!(lit(&e), vec![(0, 0), (1, 1), (2, 2)]);
}

#[test]
fn only_the_given_number_of_rows_is_drawn() {
    let mut e = with_sprite(&[0x80, 0x80, 0x80, 0x80]);
    assert_eq!(e.draw_screen(3, 3, 2), Ok(()));
    assert_eq!(lit(&e), vec![(3, 3), (3, 4)]);
}

#[test]
fn a_sprite_of_no_rows_draws_nothing_and_clears_the_flag() {
    let mut e = with_sprite(&[0xFF]);
    e.execute(Instruction::LoadImm { x: 0xF, kk: 1 }, 0).unwrap();
    assert_eq!(e.draw_screen(3, 3, 0), Ok(()));
    assert!(lit(&e).is_empty());
    assert_eq!(e.register(0xF), 0);
}

#[test]
fn drawing_wraps_around_the_right_edge() {
    let mut e = with_sprite(&[0xFF]);
    assert_eq!(e.draw_screen(60, 0, 1), Ok(()));
    assert_eq!(
        lit(&e),
        vec![(0, 0), (1, 0), (2, 0), (3, 0), (60, 0), (61, 0), (62, 0), (63, 0)]
    );
    assert_eq!(e.register(0xF), 0);
}

#[test]
fn drawing_wraps_around_the_bottom_edge() {
    let mut e = with_sprite(&[0x80, 0x80, 0x80]);
    assert_eq!(e.draw_screen(7, 30, 3), Ok(()));
    assert_eq!(lit(&e), vec![(7, 0), (7, 30), (7, 31)]);
}

#[test]
fn coordinates_beyond_the_display_wrap() {
    let mut e = with_sprite(&[0xC0]);
    // 200 mod 64 = 8, 100 mod 32 = 4
    assert_eq!(e.draw_screen(200, 100, 1), Ok(()));
    assert_eq!(lit(&e), vec![(8, 4), (9, 4)]);
    let mut e = with_sprite(&[0xC0]);
    // 255 mod 64 = 63, 255 mod 32 = 31
    assert_eq!(e.draw_screen(255, 255, 1), Ok(()));
    assert_eq!(lit(&e), vec![(0, 31), (63, 31)]);
}

#[test]
fn drawing_twice_restores_the_display_and_reports_the_collision() {
    let sprite = [0xF0, 0x90, 0x90, 0x90, 0xF0];
    let mut e = with_sprite(&sprite);
    assert_eq!(e.draw_screen(20, 10, 5), Ok(()));
    assert_eq!(e.register(0xF), 0);
    assert_eq!(lit(&e).len(), 14);
    assert_eq!(e.draw_screen(20, 10, 5), Ok(()));
    assert_eq!(e.register(0xF), 1);
    assert!(lit(&e).is_empty());
}

#[test]
fn drawing_twice_restores_any_display() {
    let mut e = with_sprite(&[0xFF, 0x81, 0xFF]);
    assert_eq!(e.draw_screen(0, 0, 3), Ok(()));
    assert_eq!(e.draw_screen(61, 30, 3), Ok(()));
    let before: Vec<u8> = e.screen().to_vec();
    assert_eq!(e.draw_screen(3, 1, 3), Ok(()));
    assert_ne!(e.screen(), &before[..]);
    assert_eq!(e.draw_screen(3, 1, 3), Ok(()));
    assert_eq!(e.screen(), &before[..]);
}

#[test]
fn an_empty_sprite_never_collides() {
    let mut e = with_sprite(&[0x00, 0x00]);
    assert_eq!(e.draw_screen(5, 5, 2), Ok(()));
    assert_eq!(e.register(0xF), 0);
    assert_eq!(e.draw_screen(5, 5, 2), Ok(()));
    assert_eq!(e.register(0xF), 0);
    assert!(lit(&e).is_empty());
}

#[test]
fn a_collision_anywhere_in_the_sprite_sets_the_flag() {
    // one lit pixel under the first row of the sprite, nothing under the
    // last: the flag must survive the rows that follow
    let mut e = with_sprite(&[0x80, 0x00, 0x00, 0xFF]);
    assert_eq!(e.draw_screen(0, 0, 1), Ok(()));
    assert_eq!(e.draw_screen(0, 0, 4), Ok(()));
    assert_eq!(e.register(0xF), 1);
    assert_eq!(
        lit(&e),
        vec![(0, 3), (1, 3), (2, 3), (3, 3), (4, 3), (5, 3), (6, 3), (7, 3)]
    );
}

#[test]
fn overlapping_without_turning_a_pixel_off_is_no_collision() {
    let mut e = with_sprite(&[0xF0, 0x0F]);
    assert_eq!(e.draw_screen(0, 0, 1), Ok(()));
    e.execute(Instruction::LoadIndex { addr: 0x301 }, 0).unwrap();
    assert_eq!(e.draw_screen(0, 0, 1), Ok(()));
    assert_eq!(e.register(0xF), 0);
    assert_eq!(lit(&e).len(), 8);
}

#[test]
fn the_draw_instruction_takes_its_coordinates_from_registers() {
    // 600A 6105 A050 D015: glyph "0" at (10, 5)
    let rom = vec![0x60, 0x0A, 0x61, 0x05, 0xA0, 0x50, 0xD0, 0x15];
    let mut e = Emulator::new(rom.into_boxed_slice()).unwrap();
    for _ in 0..4 {
        assert_eq!(e.step(None, 0), Ok(()));
    }
    assert_eq!(e.pc(), 0x208);
    assert_eq!(e.register(0xF), 0);
    let expected = vec![
        (10, 5), (11, 5), (12, 5), (13, 5),
        (10, 6), (13, 6),
        (10, 7), (13, 7),
        (10, 8), (13, 8),
        (10, 9), (11, 9), (12, 9), (13, 9),
    ];
    assert_eq!(lit(&e), expected);
}

#[test]
fn a_sprite_that_leaves_memory_is_out_of_bounds() {
    let mut e = machine();
    e.execute(Instruction::LoadIndex { addr: 0xFFE }, 0).unwrap();
    e.write_memory(0xFFE, 0x80).unwrap();
    e.write_memory(0xFFF, 0x80).unwrap();
    assert_eq!(e.draw_screen(0, 0, 3), Err(EmulatorError::OutOfBounds));
    assert!(lit(&e).is_empty());
    let pc = e.pc();
    assert_eq!(
        e.execute(Instruction::Draw { x: 0, y: 0, n: 3 }, 0),
        Err(EmulatorError::OutOfBounds)
    );
    assert_eq!(e.pc(), pc);
    // two rows still fit
    assert_eq!(e.draw_screen(0, 0, 2), Ok(()));
    assert_eq!(lit(&e), vec![(0, 0), (0, 1)]);
}

#[test]
fn clear_screen_turns_every_pixel_off() {
    let mut e = with_sprite(&[0xFF, 0xFF]);
    e.draw_screen(0, 0, 2).unwrap();
    e.draw_screen(30, 20, 2).unwrap();
    assert_eq!(lit(&e).len(), 32);
    e.clear_screen();
    assert!(lit(&e).is_empty());
    assert!(e.screen().iter().all(|&p| p == 0));
}

#[test]
fn the_clear_instruction_clears_and_moves_on() {
    // A050 D005 00E0
    let rom = vec![0xA0, 0x50, 0xD0, 0x05, 0x00, 0xE0];
    let mut e = Emulator::new(rom.into_boxed_slice()).unwrap();
    e.step(None, 0).unwrap();
    e.step(None, 0).unwrap();
    assert!(!lit(&e).is_empty());
    assert_eq!(e.step(None, 0), Ok(()));
    assert!(lit(&e).is_empty());
    assert_eq!(e.pc(), 0x206);
}

#[test]
fn the_screen_is_row_by_row() {
    let mut e = with_sprite(&[0x80]);
    e.draw_screen(5, 2, 1).unwrap();
    let screen = e.screen();
    assert_eq!(screen[2 * 64 + 5], 1);
    assert_eq!(screen.iter().map(|&p| p as u32).sum::<u32>(), 1);
}
