//! The 64 x 32 monochrome display: a bitmap that sprites are XOR-ed onto, and
//! a dirty flag that tells the presentation layer when to show it again.
//!
//! Pixel `(x, y)` is element `y * 64 + x` of the bitmap.

use vstd::prelude::*;
use crate::constants::{BLACK_RGB, DISPLAY_HEIGHT, DISPLAY_PIXELS, DISPLAY_WIDTH, WHITE_RGB};

verus! {

/// Column of the pixel stored at position `p`.
pub open spec fn pixel_x(p: int) -> int {
    p % (DISPLAY_WIDTH as int)
}

/// Row of the pixel stored at position `p`.
pub open spec fn pixel_y(p: int) -> int {
    p / (DISPLAY_WIDTH as int)
}

/// Whether column `col` of a sprite row is set: the row's bits are its eight
/// pixels from left to right, the highest bit first.
pub open spec fn sprite_bit(row: u8, col: u8) -> bool {
    col < 8 && row & (0x80u8 >> col) != 0
}

/// Whether the sprite `sprite`, drawn with its top-left corner at
/// `(x0, y0)`, has a set bit on the pixel `(x, y)`.
pub open spec fn sprite_lights(sprite: Seq<u8>, x0: int, y0: int, x: int, y: int) -> bool {
    &&& 0 <= y - y0 < sprite.len()
    &&& 0 <= x - x0 < 8
    &&& sprite_bit(sprite[y - y0], (x - x0) as u8)
}

/// Whether the sprite has a set bit on the pixel stored at position `p`.
pub open spec fn sprite_covers(sprite: Seq<u8>, x0: int, y0: int, p: int) -> bool {
    sprite_lights(sprite, x0, y0, pixel_x(p), pixel_y(p))
}

/// The bitmap after XOR-ing `sprite` onto it at `(x0, y0)`: every pixel under
/// a set sprite bit is toggled, every other pixel is kept. Sprite bits that
/// fall outside the bitmap are on no pixel, so they are clipped.
pub open spec fn blit(pixels: Seq<bool>, sprite: Seq<u8>, x0: int, y0: int) -> Seq<bool> {
    Seq::new(pixels.len(), |p: int| pixels[p] != sprite_covers(sprite, x0, y0, p))
}

/// Whether the pixel at position `p` is set and under a set sprite bit.
pub open spec fn collides_at(pixels: Seq<bool>, sprite: Seq<u8>, x0: int, y0: int, p: int) -> bool {
    0 <= p < pixels.len() && pixels[p] && sprite_covers(sprite, x0, y0, p)
}

/// Whether drawing `sprite` at `(x0, y0)` turns some set pixel off.
pub open spec fn collides(pixels: Seq<bool>, sprite: Seq<u8>, x0: int, y0: int) -> bool {
    exists|p: int| collides_at(pixels, sprite, x0, y0, p)
}

/// The colour in which a pixel is shown.
pub open spec fn rgb_of(lit: bool) -> u32 {
    if lit {
        WHITE_RGB
    } else {
        BLACK_RGB
    }
}

/// The frame that shows `pixels`: one colour per pixel, in the same order.
pub open spec fn frame_of(pixels: Seq<bool>) -> Seq<u32> {
    Seq::new(pixels.len(), |p: int| rgb_of(pixels[p]))
}

/// A bitmap with every pixel off.
pub open spec fn blank() -> Seq<bool> {
    Seq::new(DISPLAY_PIXELS as nat, |p: int| false)
}

// The part of the sprite that a draw has reached once it stands at row `r`,
// column `c`: the rows above `r`, and of row `r` the columns left of `c`.
spec fn covers_before(sprite: Seq<u8>, x0: int, y0: int, r: int, c: int, p: int) -> bool {
    sprite_covers(sprite, x0, y0, p) && (pixel_y(p) - y0 < r || (pixel_y(p) - y0 == r && pixel_x(p)
        - x0 < c))
}

spec fn collides_before(
    pixels: Seq<bool>,
    sprite: Seq<u8>,
    x0: int,
    y0: int,
    r: int,
    c: int,
    p: int,
) -> bool {
    0 <= p < pixels.len() && pixels[p] && covers_before(sprite, x0, y0, r, c, p)
}

spec fn drawn_before(
    now: Seq<bool>,
    before: Seq<bool>,
    sprite: Seq<u8>,
    x0: int,
    y0: int,
    r: int,
    c: int,
) -> bool {
    &&& now.len() == before.len()
    &&& forall|p: int|
        0 <= p < before.len() ==> now[p] == (before[p] != #[trigger] covers_before(
            sprite,
            x0,
            y0,
            r,
            c,
            p,
        ))
}

spec fn collided_before(
    collision: bool,
    before: Seq<bool>,
    sprite: Seq<u8>,
    x0: int,
    y0: int,
    r: int,
    c: int,
) -> bool {
    collision == exists|p: int| collides_before(before, sprite, x0, y0, r, c, p)
}

/// The display: its bitmap and its dirty flag.
#[derive(Clone, Debug, PartialEq, Eq)]
pub struct DisplayBuffer {
    pub pixels: [bool; DISPLAY_PIXELS],
    /// Set by every clear and every draw; cleared by whoever presents the
    /// frame.
    pub dirty: bool,
}

impl View for DisplayBuffer {
    type V = Seq<bool>;

    open spec fn view(&self) -> Seq<bool> {
        self.pixels@
    }
}

impl DisplayBuffer {
    /// A blank display that has nothing new to show.
    pub fn new() -> (display: DisplayBuffer)
        ensures
            display@ == blank(),
            !display.dirty,
    {
        DisplayBuffer { pixels: [false; DISPLAY_PIXELS], dirty: false }
    }

    /// Turns every pixel off and marks the display dirty.
    pub fn clear(&mut self)
        ensures
            final(self)@ == blank(),
            final(self).dirty,
    {
        self.pixels = [false; DISPLAY_PIXELS];
        self.dirty = true;
    }

    /// Whether the pixel at column `x`, row `y` is on; `None` outside the
    /// display.
    pub fn pixel(&self, x: usize, y: usize) -> (lit: Option<bool>)
        ensures
            lit == if x < DISPLAY_WIDTH && y < DISPLAY_HEIGHT {
                Some(self@[y * DISPLAY_WIDTH + x])
            } else {
                None
            },
    {
        if x < DISPLAY_WIDTH && y < DISPLAY_HEIGHT {
            Some(self.pixels[y * DISPLAY_WIDTH + x])
        } else {
            None
        }
    }

    /// XOR-s `sprite` onto the bitmap with its top-left corner at column
    /// `vx mod 64`, row `vy mod 32`, clipping at the right and bottom edges,
    /// and marks the display dirty. Returns whether a set pixel was turned
    /// off.
    pub fn draw_sprite(&mut self, sprite: &[u8], vx: u8, vy: u8) -> (collision: bool)
        ensures
            final(self)@ == blit(
                old(self)@,
                sprite@,
                vx as int % (DISPLAY_WIDTH as int),
                vy as int % (DISPLAY_HEIGHT as int),
            ),
            collision == collides(
                old(self)@,
                sprite@,
                vx as int % (DISPLAY_WIDTH as int),
                vy as int % (DISPLAY_HEIGHT as int),
            ),
            final(self).dirty,
    {
        let x0: usize = vx as usize % DISPLAY_WIDTH;
        let y0: usize = vy as usize % DISPLAY_HEIGHT;
        let ghost before = self@;
        let mut collision = false;
        let mut r: usize = 0;
        while r < sprite.len() && y0 + r < DISPLAY_HEIGHT
            invariant
                x0 < DISPLAY_WIDTH,
                y0 < DISPLAY_HEIGHT,
                r <= sprite.len(),
                y0 + r <= DISPLAY_HEIGHT,
                before.len() == DISPLAY_PIXELS,
                drawn_before(self@, before, sprite@, x0 as int, y0 as int, r as int, 0),
                collided_before(collision, before, sprite@, x0 as int, y0 as int, r as int, 0),
            decreases sprite.len() - r,
        {
            let row = sprite[r];
            let mut c: u8 = 0;
            while c < 8 && x0 + (c as usize) < DISPLAY_WIDTH
                invariant
                    x0 < DISPLAY_WIDTH,
                    y0 < DISPLAY_HEIGHT,
                    r < sprite.len(),
                    y0 + r < DISPLAY_HEIGHT,
                    c <= 8,
                    x0 + c <= DISPLAY_WIDTH,
                    row == sprite@[r as int],
                    before.len() == DISPLAY_PIXELS,
                    drawn_before(self@, before, sprite@, x0 as int, y0 as int, r as int, c as int),
                    collided_before(
                        collision,
                        before,
                        sprite@,
                        x0 as int,
                        y0 as int,
                        r as int,
                        c as int,
                    ),
                decreases 8 - c,
            {
                let q: usize = (y0 + r) * DISPLAY_WIDTH + x0 + c as usize;
                let ghost now = self@;
                let ghost earlier = collision;
                assert(pixel_x(q as int) == x0 + c && pixel_y(q as int) == y0 + r);
                assert(!covers_before(sprite@, x0 as int, y0 as int, r as int, c as int, q as int));
                assert(sprite_covers(sprite@, x0 as int, y0 as int, q as int) == sprite_bit(row, c));
                if row & (0x80u8 >> c) != 0 {
                    if self.pixels[q] {
                        collision = true;
                    }
                    self.pixels[q] = !self.pixels[q];
                }
                proof {
                    let (sx, sy, sr, sc) = (x0 as int, y0 as int, r as int, c as int);
                    let sc1 = sc + 1;
                    assert forall|p: int| 0 <= p < before.len() implies (#[trigger] covers_before(
                        sprite@,
                        sx,
                        sy,
                        sr,
                        sc1,
                        p,
                    ) == (covers_before(sprite@, sx, sy, sr, sc, p) || (p == q && sprite_bit(
                        row,
                        c,
                    )))) by {
                        if pixel_y(p) - sy == sr && pixel_x(p) - sx == sc {
                            assert(p == q);
                        }
                    }
                    assert(drawn_before(self@, before, sprite@, sx, sy, sr, sc1)) by {
                        assert forall|p: int| 0 <= p < before.len() implies self@[p] == (before[p]
                            != #[trigger] covers_before(sprite@, sx, sy, sr, sc1, p)) by {
                            assert(now[p] == (before[p] != covers_before(
                                sprite@,
                                sx,
                                sy,
                                sr,
                                sc,
                                p,
                            )));
                        }
                    }
                    assert(now[q as int] == before[q as int]);
                    assert(collision == (earlier || (sprite_bit(row, c) && before[q as int])));
                    if collision {
                        if earlier {
                            let p = choose|p: int|
                                collides_before(before, sprite@, sx, sy, sr, sc, p);
                            assert(collides_before(before, sprite@, sx, sy, sr, sc1, p));
                        } else {
                            assert(collides_before(before, sprite@, sx, sy, sr, sc1, q as int));
                        }
                    } else {
                        assert forall|p: int| !#[trigger] collides_before(
                            before,
                            sprite@,
                            sx,
                            sy,
                            sr,
                            sc1,
                            p,
                        ) by {
                            assert(!collides_before(before, sprite@, sx, sy, sr, sc, p));
                        }
                    }
                }
                c += 1;
            }
            proof {
                let (sx, sy, sr, sc) = (x0 as int, y0 as int, r as int, c as int);
                let sr1 = sr + 1;
                assert forall|p: int| 0 <= p < before.len() implies (#[trigger] covers_before(
                    sprite@,
                    sx,
                    sy,
                    sr1,
                    0,
                    p,
                ) == covers_before(sprite@, sx, sy, sr, sc, p)) by {}
                assert(drawn_before(self@, before, sprite@, sx, sy, sr1, 0)) by {
                    assert forall|p: int| 0 <= p < before.len() implies self@[p] == (before[p]
                        != #[trigger] covers_before(sprite@, sx, sy, sr1, 0, p)) by {
                        assert(self@[p] == (before[p] != covers_before(sprite@, sx, sy, sr, sc, p)));
                    }
                }
                if collision {
                    let p = choose|p: int| collides_before(before, sprite@, sx, sy, sr, sc, p);
                    assert(collides_before(before, sprite@, sx, sy, sr1, 0, p));
                } else {
                    assert forall|p: int| !#[trigger] collides_before(before, sprite@, sx, sy, sr1, 0, p) by {
                        assert(!collides_before(before, sprite@, sx, sy, sr, sc, p));
                    }
                }
            }
            r += 1;
        }
        proof {
            let (sx, sy, sr) = (x0 as int, y0 as int, r as int);
            assert forall|p: int| 0 <= p < before.len() implies (#[trigger] covers_before(
                sprite@,
                sx,
                sy,
                sr,
                0,
                p,
            ) == sprite_covers(sprite@, sx, sy, p)) by {}
            assert(self@ =~= blit(before, sprite@, sx, sy)) by {
                assert forall|p: int| 0 <= p < before.len() implies self@[p] == (before[p]
                    != sprite_covers(sprite@, sx, sy, p)) by {
                    assert(self@[p] == (before[p] != covers_before(sprite@, sx, sy, sr, 0, p)));
                }
            }
            if collision {
                let p = choose|p: int| collides_before(before, sprite@, sx, sy, sr, 0, p);
                assert(collides_at(before, sprite@, sx, sy, p));
            } else {
                assert forall|p: int| !#[trigger] collides_at(before, sprite@, sx, sy, p) by {
                    assert(!collides_before(before, sprite@, sx, sy, sr, 0, p));
                }
            }
        }
        self.dirty = true;
        collision
    }

    /// The frame that shows the bitmap as it is now.
    pub fn to_frame(&self) -> (frame: [u32; DISPLAY_PIXELS])
        ensures
            frame@ == frame_of(self@),
    {
        translate(&self.pixels)
    }
}

/// Translates a bitmap into a frame of `0RGB` colours: white for a lit
/// pixel, black for a dark one.
pub fn translate(buffer: &[bool; DISPLAY_PIXELS]) -> (screen: [u32; DISPLAY_PIXELS])
    ensures
        screen@ == frame_of(buffer@),
{
    let mut screen: [u32; DISPLAY_PIXELS] = [BLACK_RGB; DISPLAY_PIXELS];
    let mut i: usize = 0;
    while i < DISPLAY_PIXELS
        invariant
            i <= DISPLAY_PIXELS,
            forall|p: int| 0 <= p < i ==> screen@[p] == rgb_of(buffer@[p]),
        decreases DISPLAY_PIXELS - i,
    {
        if buffer[i] {
            screen[i] = WHITE_RGB;
        } else {
            screen[i] = BLACK_RGB;
        }
        i += 1;
    }
    screen
}

} // verus!
