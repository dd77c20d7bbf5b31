use chip8::chip8::DisplayAction;
use chip8::constants::{BLACK_RGB, DISPLAY_PIXELS, WHITE_RGB};
use chip8::display::{translate, DisplayBuffer};
use chip8::instruction::Instruction;
use chip8::keypad::KeyPoll;
use chip8::Sys;

fn lit(display: &DisplayBuffer) -> Vec<(usize, usize)> {
    let mut on = Vec::new();
    for y in 0..32 {
        for x in 0..64 {
            if display.pixels[y * 64 + x] {
                on.push((x, y));
            }
        }
    }
    on
}

fn draw(sys: &mut Sys, x: u8, y: u8, rows: u8) {
    assert_eq!(sys.execute(Instruction::Draw { x, y, rows }, &KeyPoll::idle(), 0), Ok(()));
}

#[test]
fn sprite_rows_are_drawn_high_bit_first() {
    let mut display = DisplayBuffer::new();
    let collision = display.draw_sprite(&[0b1010_0001, 0b0100_0000], 8, 4);
    assert!(!collision);
    assert!(display.dirty);
    assert_eq!(lit(&display), vec![(8, 4), (10, 4), (15, 4), (9, 5)]);
}

#[test]
fn glyph_zero_is_drawn_from_the_font() {
    let mut sys = Sys::new();
    sys.initialize();
    sys.registers.index = 0x50;
    draw(&mut sys, 0, 1, 5);
    assert_eq!(sys.registers.v[0xF], 0);
    assert!(sys.display.dirty);
    assert_eq!(
        lit(&sys.display),
        vec![
            (0, 0), (1, 0), (2, 0), (3, 0),
            (0, 1), (3, 1),
            (0, 2), (3, 2),
            (0, 3), (3, 3),
            (0, 4), (1, 4), (2, 4), (3, 4),
        ]
    );
    assert_eq!(sys.registers.index, 0x50);
}

#[test]
fn drawing_over_a_clear_region_leaves_the_flag_clear() {
    let mut sys = Sys::new();
    sys.memory.bytes[0x300] = 0xFF;
    sys.registers.index = 0x300;
    sys.registers.v[0xF] = 1;
    draw(&mut sys, 0, 1, 1);
    assert_eq!(sys.registers.v[0xF], 0);
}

#[test]
fn drawing_over_set_pixels_sets_the_flag() {
    let mut sys = Sys::new();
    sys.memory.bytes[0x300] = 0b1000_0000;
    sys.memory.bytes[0x301] = 0b1100_0000;
    sys.registers.index = 0x300;
    draw(&mut sys, 0, 1, 1);
    assert_eq!(sys.registers.v[0xF], 0);
    sys.registers.index = 0x301;
    draw(&mut sys, 0, 1, 1);
    assert_eq!(sys.registers.v[0xF], 1);
    assert_eq!(lit(&sys.display), vec![(1, 0)]);
}

#[test]
fn drawing_twice_restores_the_display() {
    let mut sys = Sys::new();
    sys.initialize();
    sys.display.pixels[2] = true;
    sys.display.pixels[64 * 3 + 1] = true;
    sys.display.pixels[777] = true;
    let before = sys.display.pixels;
    sys.registers.index = 0x50 + 5 * 0xB;
    draw(&mut sys, 0, 1, 5);
    assert_ne!(sys.display.pixels, before);
    draw(&mut sys, 0, 1, 5);
    assert_eq!(sys.display.pixels, before);
    assert_eq!(sys.registers.v[0xF], 1);
}

#[test]
fn second_draw_is_flagged_when_the_first_lit_a_pixel() {
    let mut sys = Sys::new();
    sys.memory.bytes[0x300] = 0x80;
    sys.registers.index = 0x300;
    draw(&mut sys, 0, 1, 1);
    assert_eq!(sys.registers.v[0xF], 0);
    draw(&mut sys, 0, 1, 1);
    assert_eq!(sys.registers.v[0xF], 1);
    assert!(lit(&sys.display).is_empty());
}

#[test]
fn second_draw_is_unflagged_when_every_sprite_pixel_was_set() {
    let mut sys = Sys::new();
    sys.memory.bytes[0x300] = 0xC0;
    sys.registers.index = 0x300;
    sys.display.pixels[0] = true;
    sys.display.pixels[1] = true;
    draw(&mut sys, 0, 1, 1);
    assert_eq!(sys.registers.v[0xF], 1);
    assert!(lit(&sys.display).is_empty());
    draw(&mut sys, 0, 1, 1);
    assert_eq!(sys.registers.v[0xF], 0);
    assert_eq!(lit(&sys.display), vec![(0, 0), (1, 0)]);
}

#[test]
fn sprites_are_clipped_at_the_right_edge() {
    let mut display = DisplayBuffer::new();
    display.draw_sprite(&[0xFF, 0xFF], 62, 0);
    assert_eq!(lit(&display), vec![(62, 0), (63, 0), (62, 1), (63, 1)]);
}

#[test]
fn sprites_are_clipped_at_the_bottom_edge() {
    let mut display = DisplayBuffer::new();
    display.draw_sprite(&[0x80, 0x80, 0x80, 0x80], 5, 30);
    assert_eq!(lit(&display), vec![(5, 30), (5, 31)]);
}

#[test]
fn start_position_wraps_around_the_display() {
    let mut display = DisplayBuffer::new();
    display.draw_sprite(&[0x80], 64 + 3, 32 + 1);
    assert_eq!(lit(&display), vec![(3, 1)]);
    let mut display = DisplayBuffer::new();
    display.draw_sprite(&[0x80], 255, 255);
    assert_eq!(lit(&display), vec![(63, 31)]);
}

#[test]
fn draw_reads_its_position_before_writing_the_flag() {
    let mut sys = Sys::new();
    sys.memory.bytes[0x300] = 0x80;
    sys.registers.index = 0x300;
    sys.registers.v[0xF] = 9;
    draw(&mut sys, 0xF, 0xF, 1);
    assert_eq!(lit(&sys.display), vec![(9, 9)]);
    assert_eq!(sys.registers.v[0xF], 0);
}

#[test]
fn draw_of_no_rows_only_marks_the_display_dirty() {
    let mut sys = Sys::new();
    sys.registers.v[0xF] = 1;
    draw(&mut sys, 0, 1, 0);
    assert!(lit(&sys.display).is_empty());
    assert!(sys.display.dirty);
    assert_eq!(sys.registers.v[0xF], 0);
}

#[test]
fn long_sprites_stop_at_the_bottom() {
    let mut display = DisplayBuffer::new();
    let sprite = vec![0x80u8; 100];
    let collision = display.draw_sprite(&sprite, 0, 0);
    assert!(!collision);
    assert_eq!(lit(&display).len(), 32);
}

#[test]
fn clear_screen_blanks_the_display_and_marks_it_dirty() {
    let mut sys = Sys::new();
    sys.display.pixels[5] = true;
    sys.display.pixels[2047] = true;
    assert_eq!(sys.decode_execute(0x00E0, &KeyPoll::idle()), Ok(()));
    assert!(lit(&sys.display).is_empty());
    assert!(sys.display.dirty);
}

#[test]
fn pixel_query_is_bounded() {
    let mut display = DisplayBuffer::new();
    display.pixels[64 * 2 + 7] = true;
    assert_eq!(display.pixel(7, 2), Some(true));
    assert_eq!(display.pixel(2, 7), Some(false));
    assert_eq!(display.pixel(64, 0), None);
    assert_eq!(display.pixel(0, 32), None);
}

#[test]
fn translate_maps_pixels_to_white_and_black() {
    let mut buffer = [false; DISPLAY_PIXELS];
    buffer[0] = true;
    buffer[100] = true;
    buffer[DISPLAY_PIXELS - 1] = true;
    let screen = translate(&buffer);
    for (i, &colour) in screen.iter().enumerate() {
        let expected = if i == 0 || i == 100 || i == DISPLAY_PIXELS - 1 { WHITE_RGB } else { BLACK_RGB };
        assert_eq!(colour, expected);
    }
    assert_eq!(WHITE_RGB, 0x00FF_FFFF);
    assert_eq!(BLACK_RGB, 0);
}

#[test]
fn translate_buffer_leaves_the_machine_alone() {
    let mut sys = Sys::new();
    sys.initialize();
    let before = sys.clone();
    let mut buffer = [true; DISPLAY_PIXELS];
    buffer[3] = false;
    let screen = sys.translate_buffer(buffer);
    assert_eq!(screen[0], WHITE_RGB);
    assert_eq!(screen[3], BLACK_RGB);
    assert_eq!(screen.iter().filter(|&&c| c == BLACK_RGB).count(), 1);
    assert_eq!(sys, before);
}

#[test]
fn update_display_only_refreshes_without_a_program() {
    let mut sys = Sys::new();
    sys.display.dirty = true;
    assert_eq!(sys.update_display(false), DisplayAction::Refresh);
    assert!(sys.display.dirty);
}

#[test]
fn update_display_presents_a_dirty_frame_once() {
    let mut sys = Sys::new();
    sys.memory.bytes[0x300] = 0x80;
    sys.registers.index = 0x300;
    draw(&mut sys, 0, 1, 1);
    match sys.update_display(true) {
        DisplayAction::Present { frame } => {
            assert_eq!(frame[0], WHITE_RGB);
            assert!(frame[1..].iter().all(|&c| c == BLACK_RGB));
        }
        other => panic!("expected a frame, got {:?}", other),
    }
    assert!(!sys.display.dirty);
    assert_eq!(sys.update_display(true), DisplayAction::Idle);
    assert_eq!(lit(&sys.display), vec![(0, 0)]);
}

#[test]
fn update_display_is_idle_on_a_clean_display() {
    let mut sys = Sys::new();
    let before = sys.clone();
    assert_eq!(sys.update_display(true), DisplayAction::Idle);
    assert_eq!(sys, before);
}
