use chip8::display::draw_sprite;
use chip8::{ScriptedSource, CHIP8};

fn machine_with(words: &[u16]) -> CHIP8<ScriptedSource> {
    let mut rom = Vec::new();
    for word in words {
        rom.push((word >> 8) as u8);
        rom.push((word & 0xFF) as u8);
    }
    let mut chip8 = CHIP8::new(ScriptedSource::new(Vec::new()));
    chip8.load_rom(&rom).unwrap();
    chip8
}

fn lit_cells(video: &[u8; 2048]) -> Vec<(usize, usize)> {
    let mut cells = Vec::new();
    for (cell, &value) in video.iter().enumerate() {
        assert!(value == 0x00 || value == 0xFF);
        if value == 0xFF {
            cells.push((cell % 64, cell / 64));
        }
    }
    cells
}

#[test]
fn draws_the_font_sprite_of_zero() {
    // LD I, font; DRW V0, V1, 5 at (0, 0).
    let mut chip8 = machine_with(&[0xA050, 0xD015]);
    chip8.set_register(0xF, 1);
    chip8.tick().unwrap();
    chip8.tick().unwrap();
    // 0xF0, 0x90, 0x90, 0x90, 0xF0
    let expected = vec![
        (0, 0), (1, 0), (2, 0), (3, 0),
        (0, 1), (3, 1),
        (0, 2), (3, 2),
        (0, 3), (3, 3),
        (0, 4), (1, 4), (2, 4), (3, 4),
    ];
    assert_eq!(lit_cells(chip8.get_video()), expected);
    assert_eq!(chip8.get_registers()[0xF], 0);
}

#[test]
fn drawing_twice_erases_and_reports_a_collision() {
    let mut chip8 = machine_with(&[0xA050, 0xD125, 0xD125, 0xD125]);
    chip8.set_register(1, 10);
    chip8.set_register(2, 7);
    chip8.tick().unwrap();
    chip8.tick().unwrap();
    assert_eq!(lit_cells(chip8.get_video()).len(), 14);
    assert_eq!(chip8.get_registers()[0xF], 0);
    chip8.tick().unwrap();
    assert_eq!(*chip8.get_video(), [0u8; 2048]);
    assert_eq!(chip8.get_registers()[0xF], 1);
    // The flag is computed afresh by every draw.
    chip8.tick().unwrap();
    assert_eq!(lit_cells(chip8.get_video()).len(), 14);
    assert_eq!(chip8.get_registers()[0xF], 0);
}

#[test]
fn a_collision_on_any_pixel_sets_the_flag() {
    // Only the first pixel drawn collides; later pixels land on dark cells.
    let mut chip8 = machine_with(&[0xA050, 0xD005]);
    chip8.set_pixel(0, 0xFF);
    chip8.tick().unwrap();
    chip8.tick().unwrap();
    assert_eq!(chip8.get_registers()[0xF], 1);
    assert_eq!(chip8.get_video()[0], 0x00);
    assert_eq!(chip8.get_video()[1], 0xFF);
    assert_eq!(lit_cells(chip8.get_video()).len(), 13);
}

#[test]
fn a_lit_cell_under_a_clear_sprite_bit_is_untouched() {
    // Row 1 of the sprite is 0x90: columns 1 and 2 are clear.
    let mut chip8 = machine_with(&[0xA050, 0xD005]);
    chip8.set_pixel(64 + 1, 0xFF);
    chip8.tick().unwrap();
    chip8.tick().unwrap();
    assert_eq!(chip8.get_registers()[0xF], 0);
    assert_eq!(chip8.get_video()[64 + 1], 0xFF);
    assert_eq!(lit_cells(chip8.get_video()).len(), 15);
}

#[test]
fn sprites_wrap_around_both_edges() {
    let mut chip8 = machine_with(&[0xA050, 0xD125]);
    chip8.set_register(1, 62);
    chip8.set_register(2, 30);
    chip8.tick().unwrap();
    chip8.tick().unwrap();
    // Sprite columns 0..=3 land on x = 62, 63, 0, 1; sprite rows 0..=4 land
    // on y = 30, 31, 0, 1, 2.
    let expected = vec![
        (1, 0), (62, 0),
        (1, 1), (62, 1),
        (0, 2), (1, 2), (62, 2), (63, 2),
        (0, 30), (1, 30), (62, 30), (63, 30),
        (1, 31), (62, 31),
    ];
    assert_eq!(lit_cells(chip8.get_video()), expected);
    assert_eq!(chip8.get_registers()[0xF], 0);
}

#[test]
fn coordinates_wrap_modulo_the_display_size() {
    // (64 + 3, 32 + 2) is the same place as (3, 2).
    let mut left = machine_with(&[0xA050, 0xD125]);
    left.set_register(1, 64 + 3);
    left.set_register(2, 32 + 2);
    left.tick().unwrap();
    left.tick().unwrap();
    let mut right = machine_with(&[0xA050, 0xD125]);
    right.set_register(1, 3);
    right.set_register(2, 2);
    right.tick().unwrap();
    right.tick().unwrap();
    assert_eq!(left.get_video(), right.get_video());
    assert_eq!(left.get_video()[2 * 64 + 3], 0xFF);

    let mut far = machine_with(&[0xA050, 0xD125]);
    far.set_register(1, 255);
    far.set_register(2, 255);
    far.tick().unwrap();
    far.tick().unwrap();
    // 255 % 64 = 63 and 255 % 32 = 31: the top-left pixel lands on the last cell.
    assert_eq!(far.get_video()[2047], 0xFF);
    assert_eq!(far.get_video()[31 * 64], 0xFF);
    assert_eq!(far.get_video()[0], 0x00);
    assert_eq!(far.get_video()[2], 0xFF);
}

#[test]
fn a_sprite_of_no_rows_clears_the_flag_and_draws_nothing() {
    let mut chip8 = machine_with(&[0xA050, 0xD120]);
    chip8.set_register(0xF, 1);
    chip8.set_pixel(5, 0xFF);
    chip8.tick().unwrap();
    chip8.tick().unwrap();
    assert_eq!(chip8.get_registers()[0xF], 0);
    assert_eq!(lit_cells(chip8.get_video()), vec![(5, 0)]);
}

#[test]
fn draw_uses_the_position_read_before_the_flag_is_written() {
    // The flag register doubles as the vertical position.
    let mut chip8 = machine_with(&[0xA050, 0xD0F1]);
    chip8.set_register(0xF, 3);
    chip8.tick().unwrap();
    chip8.tick().unwrap();
    assert_eq!(lit_cells(chip8.get_video()), vec![(0, 3), (1, 3), (2, 3), (3, 3)]);
    assert_eq!(chip8.get_registers()[0xF], 0);
}

#[test]
fn draw_sprite_composites_by_xor() {
    let mut video = [0u8; 2048];
    let mut memory = [0u8; 4096];
    memory[0x300] = 0b1010_0001;
    memory[0x301] = 0b0000_0011;
    video[64 + 7] = 0xFF;
    let collision = draw_sprite(&mut video, &memory, 0x300, 2, 0, 0);
    assert!(collision);
    let mut expected = [0u8; 2048];
    expected[0] = 0xFF;
    expected[2] = 0xFF;
    expected[7] = 0xFF;
    expected[64 + 6] = 0xFF;
    assert_eq!(video, expected);
    let collision = draw_sprite(&mut video, &memory, 0x300, 1, 60, 31);
    assert!(!collision);
    expected[31 * 64 + 60] = 0xFF;
    expected[31 * 64 + 62] = 0xFF;
    expected[31 * 64 + 3] = 0xFF;
    assert_eq!(video, expected);
}

#[test]
fn draw_sprite_inverts_cells_that_are_neither_off_nor_on() {
    let mut video = [0u8; 2048];
    let mut memory = [0u8; 4096];
    memory[0] = 0b1000_0000;
    video[0] = 0x0F;
    let collision = draw_sprite(&mut video, &memory, 0, 1, 0, 0);
    assert!(!collision);
    assert_eq!(video[0], 0xF0);
}
