//! Fixed dimensions and addresses of the machine.

use vstd::prelude::*;

verus! {

/// Number of addressable bytes.
pub const RAM_SIZE: usize = 4096;

/// Address at which programs are loaded and start executing.
pub const PROGRAM_START: u16 = 0x200;

/// Address of the first glyph of the built-in font.
pub const FONT_BASE: u16 = 0x50;

/// Bytes per font glyph.
pub const GLYPH_SIZE: u16 = 5;

/// Bytes in the whole font: sixteen glyphs.
pub const FONT_SIZE: usize = 80;

/// Display width in pixels.
pub const DISPLAY_WIDTH: usize = 64;

/// Display height in pixels.
pub const DISPLAY_HEIGHT: usize = 32;

/// Number of pixels of the display.
pub const DISPLAY_PIXELS: usize = DISPLAY_WIDTH * DISPLAY_HEIGHT;

/// Colour of a cleared pixel, as `0RGB`.
pub const BLACK_RGB: u32 = 0x0000_0000;

/// Colour of a lit pixel, as `0RGB`.
pub const WHITE_RGB: u32 = 0x00FF_FFFF;

/// The glyphs of the hexadecimal digits `0` to `F`, five rows each, the
/// pixels of a row in the high nibble.
pub const FONT: [u8; 80] = [
    0xF0, 0x90, 0x90, 0x90, 0xF0,
    0x20, 0x60, 0x20, 0x20, 0x70,
    0xF0, 0x10, 0xF0, 0x80, 0xF0,
    0xF0, 0x10, 0xF0, 0x10, 0xF0,
    0x90, 0x90, 0xF0, 0x10, 0x10,
    0xF0, 0x80, 0xF0, 0x10, 0xF0,
    0xF0, 0x80, 0xF0, 0x90, 0xF0,
    0xF0, 0x10, 0x20, 0x40, 0x40,
    0xF0, 0x90, 0xF0, 0x90, 0xF0,
    0xF0, 0x90, 0xF0, 0x10, 0xF0,
    0xF0, 0x90, 0xF0, 0x90, 0x90,
    0xE0, 0x90, 0xE0, 0x90, 0xE0,
    0xF0, 0x80, 0x80, 0x80, 0xF0,
    0xE0, 0x90, 0x90, 0x90, 0xE0,
    0xF0, 0x80, 0xF0, 0x80, 0xF0,
    0xF0, 0x80, 0xF0, 0x80, 0x80,
];

} // verus!
