use chip8::Chip8;

fn started(program: &[u8]) -> Chip8 {
    let mut machine = Chip8::init();
    assert_eq!(machine.load_application(program), Ok(()));
    machine
}

fn lit_cells(machine: &Chip8) -> Vec<usize> {
    let cells = machine.framebuffer();
    (0..cells.len()).filter(|&c| cells[c] != 0).collect()
}

#[test]
fn clear_screen_unsets_every_pixel() {
    // Draw the glyph 0 at (0, 0), then clear.
    let mut machine = started(&[0xD0, 0x05, 0x00, 0xE0]);
    machine.emulate_cycle_with(0);
    assert!(!lit_cells(&machine).is_empty());
    machine.clear_redraw_flag();
    machine.emulate_cycle_with(0);
    assert_eq!(machine.framebuffer().len(), 2048);
    assert!(machine.framebuffer().iter().all(|&cell| cell == 0));
    assert!(machine.redraw_requested());
    assert_eq!(machine.program_counter(), 0x204);
}

#[test]
fn blank_sprite_after_clear_changes_nothing() {
    // VF = 1; clear; I = 0x300 (all zero); draw 8 rows at (V0, V0).
    let mut machine = started(&[0x6F, 0x01, 0x00, 0xE0, 0xA3, 0x00, 0xD0, 0x08]);
    for _ in 0..4 {
        machine.emulate_cycle_with(0);
    }
    assert!(machine.framebuffer().iter().all(|&cell| cell == 0));
    assert_eq!(machine.register(0xF), 0);
    assert!(machine.redraw_requested());
    assert_eq!(machine.program_counter(), 0x208);
}

#[test]
fn draw_sets_the_pixels_of_the_sprite() {
    // V0 = 3, V1 = 2; I = glyph of 1 (0x20 0x60 0x20 0x20 0x70); draw 5 rows at (3, 2).
    let mut machine = started(&[0x60, 0x03, 0x61, 0x02, 0xA0, 0x05, 0xD0, 0x15]);
    for _ in 0..4 {
        machine.emulate_cycle_with(0);
    }
    let expected = vec![
        2 * 64 + 5,
        3 * 64 + 4,
        3 * 64 + 5,
        4 * 64 + 5,
        5 * 64 + 5,
        6 * 64 + 4,
        6 * 64 + 5,
        6 * 64 + 6,
    ];
    assert_eq!(lit_cells(&machine), expected);
    assert!(machine.framebuffer().iter().all(|&cell| cell <= 1));
    assert_eq!(machine.register(0xF), 0);
    assert_eq!(machine.index(), 5);
    assert_eq!(machine.program_counter(), 0x208);
}

#[test]
fn draw_takes_the_most_significant_bit_first() {
    // One row 0b1000_0001 at (0, 0).
    let mut machine = started(&[0xA2, 0x04, 0xD0, 0x01, 0x81]);
    machine.emulate_cycle_with(0);
    machine.emulate_cycle_with(0);
    assert_eq!(lit_cells(&machine), vec![0, 7]);
}

#[test]
fn drawing_twice_restores_the_screen_and_collides() {
    // Glyph 8 at (10, 10), twice.
    let program = [0x60, 0x0A, 0xA0, 0x28, 0xD0, 0x05, 0xD0, 0x05];
    let mut machine = started(&program);
    for _ in 0..3 {
        machine.emulate_cycle_with(0);
    }
    assert_eq!(lit_cells(&machine).len(), 4 + 2 + 4 + 2 + 4);
    assert_eq!(machine.register(0xF), 0);
    machine.emulate_cycle_with(0);
    assert!(machine.framebuffer().iter().all(|&cell| cell == 0));
    assert_eq!(machine.register(0xF), 1);
}

#[test]
fn drawing_twice_over_a_picture_restores_it() {
    // Glyph 0 at (0, 0) stays; glyph 1 at (2, 1) is drawn over it twice.
    let program = [
        0xD0, 0x05, 0x61, 0x02, 0x62, 0x01, 0xA0, 0x05, 0xD1, 0x25, 0xD1, 0x25,
    ];
    let mut machine = started(&program);
    machine.emulate_cycle_with(0);
    let picture = machine.framebuffer().to_vec();
    for _ in 0..4 {
        machine.emulate_cycle_with(0);
    }
    assert_ne!(machine.framebuffer(), &picture[..]);
    // Row 0x60 of glyph 1 at line 2 covers columns 3 and 4; glyph 0 has column 3 set there.
    assert_eq!(machine.register(0xF), 1);
    machine.emulate_cycle_with(0);
    assert_eq!(machine.framebuffer(), &picture[..]);
    // The second drawing unsets the pixels that the first one set.
    assert_eq!(machine.register(0xF), 1);
}

#[test]
fn overlapping_sprite_reports_a_collision() {
    // One row 0xFF at (0, 0), then one row 0x80 at (7, 0).
    let program = [0xA2, 0x0A, 0xD0, 0x01, 0x61, 0x07, 0xD1, 0x01, 0x00, 0x00, 0xFF, 0x80];
    let mut machine = started(&program);
    machine.emulate_cycle_with(0);
    machine.emulate_cycle_with(0);
    assert_eq!(lit_cells(&machine), vec![0, 1, 2, 3, 4, 5, 6, 7]);
    assert_eq!(machine.register(0xF), 0);
    machine.emulate_cycle_with(0);
    machine.emulate_cycle_with(0);
    // The second sprite reads 0xFF too: columns 7..15, colliding at column 7 alone.
    assert_eq!(lit_cells(&machine), vec![0, 1, 2, 3, 4, 5, 6, 8, 9, 10, 11, 12, 13, 14]);
    assert_eq!(machine.register(0xF), 1);
}

#[test]
fn sprite_without_overlap_clears_the_flag() {
    let program = [0xA2, 0x0A, 0xD0, 0x01, 0x61, 0x08, 0xD1, 0x01, 0x00, 0x00, 0xF0];
    let mut machine = started(&program);
    // One row 0xF0 at (0, 0), then the same row at (8, 0).
    for _ in 0..4 {
        machine.emulate_cycle_with(0);
    }
    assert_eq!(lit_cells(&machine), vec![0, 1, 2, 3, 8, 9, 10, 11]);
    assert_eq!(machine.register(0xF), 0);
}

#[test]
fn draw_wraps_round_both_edges() {
    // V0 = 62, V1 = 31; the first two rows of the glyph of 0: 0xF0 0x90.
    let mut machine = started(&[0x60, 62, 0x61, 31, 0xA0, 0x00, 0xD0, 0x12]);
    for _ in 0..4 {
        machine.emulate_cycle_with(0);
    }
    // Row 0xF0 on line 31 at columns 62, 63, 0, 1; row 0x90 on line 0 at columns 62 and 1.
    assert_eq!(
        lit_cells(&machine),
        vec![1, 62, 31 * 64, 31 * 64 + 1, 31 * 64 + 62, 31 * 64 + 63]
    );
    assert_eq!(machine.register(0xF), 0);
}

#[test]
fn draw_takes_coordinates_modulo_the_screen() {
    // (64 + 3, 32 + 2) is (3, 2).
    let mut machine = started(&[0x60, 67, 0x61, 34, 0xA2, 0x08, 0xD0, 0x11, 0x80]);
    for _ in 0..4 {
        machine.emulate_cycle_with(0);
    }
    assert_eq!(lit_cells(&machine), vec![2 * 64 + 3]);
    let mut machine = started(&[0x60, 255, 0x61, 255, 0xA2, 0x08, 0xD0, 0x11, 0x80]);
    for _ in 0..4 {
        machine.emulate_cycle_with(0);
    }
    assert_eq!(lit_cells(&machine), vec![31 * 64 + 63]);
}

#[test]
fn draw_of_no_rows_only_asks_for_a_repaint() {
    let mut machine = started(&[0x6F, 0x01, 0xD0, 0x00]);
    machine.emulate_cycle_with(0);
    machine.clear_redraw_flag();
    machine.emulate_cycle_with(0);
    assert!(machine.framebuffer().iter().all(|&cell| cell == 0));
    assert_eq!(machine.register(0xF), 0);
    assert!(machine.redraw_requested());
}

#[test]
fn sprite_rows_wrap_round_the_end_of_memory() {
    // I = 0xFFF: row 0 is the byte at 0xFFF (zero), row 1 the byte at 0 (0xF0).
    let mut machine = started(&[0xAF, 0xFF, 0xD0, 0x02]);
    machine.emulate_cycle_with(0);
    machine.emulate_cycle_with(0);
    assert_eq!(lit_cells(&machine), vec![64, 65, 66, 67]);
}
