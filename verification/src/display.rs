//! The display buffer: a 64x32 monochrome framebuffer with XOR sprite-row
//! blitting, collision reporting, and wrap-around coordinates.

use vstd::prelude::*;

verus! {

/// Width of the framebuffer in pixels.
pub const SCREEN_WIDTH: usize = 64;

/// Height of the framebuffer in pixels.
pub const SCREEN_HEIGHT: usize = 32;

/// Number of pixels in the framebuffer.
pub const SCREEN_PIXELS: usize = 2048;

/// The logical framebuffer, row-major: the pixel at column `x`, row `y`
/// sits at index `y * 64 + x`.
pub struct Display {
    pixels: Vec<bool>,
}

impl View for Display {
    type V = Seq<bool>;

    closed spec fn view(&self) -> Seq<bool> {
        self.pixels@
    }
}

/// Whether bit `b` of a sprite row is lit, counting the most significant bit
/// as `b == 0`, the leftmost pixel.
pub open spec fn spec_bit(sprite: u8, b: int) -> bool {
    ((sprite as u32) >> ((7 - b) as u32)) & 1 == 1
}

/// Index of the pixel hit by bit `b` of a sprite row anchored at (x, y):
/// both coordinates wrap around the screen edges.
pub open spec fn pixel_index(x: u8, y: u8, b: int) -> int {
    (y as int % 32) * 64 + (x as int % 64 + b) % 64
}

/// Whether blitting the row `sprite` at (x, y) toggles the pixel at index `p`.
pub open spec fn row_hits(x: u8, y: u8, sprite: u8, p: int) -> bool {
    exists|b: int| 0 <= b < 8 && spec_bit(sprite, b) && pixel_index(x, y, b) == p
}

/// The screen after XOR-blitting the row `sprite` at (x, y) onto `s`.
pub open spec fn row_blit(s: Seq<bool>, x: u8, y: u8, sprite: u8) -> Seq<bool> {
    Seq::new(s.len(), |p: int| s[p] != row_hits(x, y, sprite, p))
}

/// Whether blitting the row `sprite` at (x, y) onto `s` turns off some
/// previously lit pixel.
pub open spec fn row_collides(s: Seq<bool>, x: u8, y: u8, sprite: u8) -> bool {
    exists|b: int| 0 <= b < 8 && spec_bit(sprite, b) && s[pixel_index(x, y, b)]
}

/// A pixel hit by a row anchored at (x, y) lies on screen, in row `y % 32`.
pub proof fn lemma_row_hits_on_row(x: u8, y: u8, sprite: u8, p: int)
    requires
        row_hits(x, y, sprite, p),
    ensures
        0 <= p < 2048,
        p / 64 == y as int % 32,
{
    let b = choose|b: int| 0 <= b < 8 && spec_bit(sprite, b) && pixel_index(x, y, b) == p;
    assert(0 <= (x as int % 64 + b) % 64 < 64);
    assert(p == (y as int % 32) * 64 + (x as int % 64 + b) % 64);
}

/// Distinct bits of one row land on distinct pixels.
pub proof fn lemma_row_pixels_distinct(x: u8, y: u8, j: int, b: int)
    requires
        0 <= j < 8,
        0 <= b < 8,
        j != b,
    ensures
        pixel_index(x, y, j) != pixel_index(x, y, b),
{
    let xi = x as int % 64;
    assert((xi + j) % 64 != (xi + b) % 64) by {
        if xi + j < 64 {
            assert((xi + j) % 64 == xi + j);
        } else {
            assert((xi + j) % 64 == xi + j - 64);
        }
        if xi + b < 64 {
            assert((xi + b) % 64 == xi + b);
        } else {
            assert((xi + b) % 64 == xi + b - 64);
        }
    }
}

impl Display {
    /// Every pixel of the framebuffer exists.
    pub open spec fn wf(&self) -> bool {
        self@.len() == 2048
    }

    /// A fresh, fully dark framebuffer.
    pub fn new() -> (d: Display)
        ensures
            d.wf(),
            forall|p: int| 0 <= p < 2048 ==> !d@[p],
    {
        let mut pixels: Vec<bool> = Vec::new();
        let mut i: usize = 0;
        while i < SCREEN_PIXELS
            invariant
                i <= 2048,
                pixels@.len() == i,
                forall|p: int| 0 <= p < i ==> !pixels@[p],
            decreases 2048 - i,
        {
            pixels.push(false);
            i = i + 1;
        }
        Display { pixels }
    }

    /// The width and height of the screen.
    pub fn screen_dimensions(&self) -> (r: (usize, usize))
        ensures
            r.0 == 64,
            r.1 == 32,
    {
        (SCREEN_WIDTH, SCREEN_HEIGHT)
    }

    /// Turn every pixel off.
    pub fn clear(&mut self)
        requires
            old(self).wf(),
        ensures
            final(self).wf(),
            forall|p: int| 0 <= p < 2048 ==> !final(self)@[p],
    {
        let mut i: usize = 0;
        while i < SCREEN_PIXELS
            invariant
                i <= 2048,
                self@.len() == 2048,
                forall|p: int| 0 <= p < i ==> !self@[p],
            decreases 2048 - i,
        {
            self.pixels[i] = false;
            i = i + 1;
        }
    }

    /// Read the pixel at column `x`, row `y`.
    pub fn pixel(&self, x: usize, y: usize) -> (r: bool)
        requires
            self.wf(),
            x < 64,
            y < 32,
        ensures
            r == self@[y * 64 + x],
    {
        self.pixels[y * 64 + x]
    }

    /// XOR-blit one 8-pixel sprite row whose most significant bit is the
    /// leftmost pixel, anchored at (x, y) with wrap-around; report whether
    /// some previously lit pixel was turned off.
    pub fn draw(&mut self, x: u8, y: u8, sprite: u8) -> (collision: bool)
        requires
            old(self).wf(),
        ensures
            final(self).wf(),
            final(self)@ == row_blit(old(self)@, x, y, sprite),
            collision == row_collides(old(self)@, x, y, sprite),
    {
        let mut collision = false;
        let xi = (x as usize) % 64;
        let yi = (y as usize) % 32;
        let mut b: usize = 0;
        while b < 8
            invariant
                b <= 8,
                xi == x as int % 64,
                yi == y as int % 32,
                self@.len() == 2048,
                old(self)@.len() == 2048,
                forall|p: int|
                    0 <= p < 2048 ==> self@[p] == (old(self)@[p] != (exists|j: int|
                        0 <= j < b && spec_bit(sprite, j) && pixel_index(x, y, j) == p)),
                collision == (exists|j: int|
                    0 <= j < b && spec_bit(sprite, j) && old(self)@[pixel_index(x, y, j)]),
            decreases 8 - b,
        {
            let bit = ((sprite as u32) >> ((7 - b) as u32)) & 1 == 1;
            assert(bit == spec_bit(sprite, b as int));
            let col = (xi + b) % 64;
            let idx = yi * 64 + col;
            assert(idx == pixel_index(x, y, b as int));
            if bit {
                let was_lit = self.pixels[idx];
                proof {
                    if exists|j: int|
                        0 <= j < b && spec_bit(sprite, j) && pixel_index(x, y, j) == idx {
                        let j = choose|j: int|
                            0 <= j < b && spec_bit(sprite, j) && pixel_index(x, y, j) == idx;
                        lemma_row_pixels_distinct(x, y, j, b as int);
                    }
                }
                assert(self@[idx as int] == old(self)@[idx as int]);
                if was_lit {
                    collision = true;
                }
                self.pixels[idx] = !was_lit;
            }
            let ghost bnext = b + 1;
            proof {
                assert forall|p: int| 0 <= p < 2048 implies self@[p] == (old(self)@[p] != (
                exists|j: int|
                    0 <= j < bnext && spec_bit(sprite, j) && pixel_index(x, y, j) == p)) by {
                    if exists|j: int|
                        0 <= j < bnext && spec_bit(sprite, j) && pixel_index(x, y, j) == p {
                        let j = choose|j: int|
                            0 <= j < bnext && spec_bit(sprite, j) && pixel_index(x, y, j) == p;
                        if j == b as int {
                            if exists|k: int|
                                0 <= k < b && spec_bit(sprite, k) && pixel_index(x, y, k) == p {
                                let k = choose|k: int|
                                    0 <= k < b && spec_bit(sprite, k) && pixel_index(x, y, k)
                                        == p;
                                lemma_row_pixels_distinct(x, y, k, b as int);
                            }
                        }
                    }
                }
            }
            b = b + 1;
        }
        proof {
            assert(self@ =~= row_blit(old(self)@, x, y, sprite));
        }
        collision
    }
}

/// Blitting a row whose lit bits all land on dark pixels reports no
/// collision.
pub proof fn lemma_row_no_overlap(s: Seq<bool>, x: u8, y: u8, sprite: u8)
    requires
        s.len() == 2048,
        forall|b: int| 0 <= b < 8 && spec_bit(sprite, b) ==> !s[pixel_index(x, y, b)],
    ensures
        !row_collides(s, x, y, sprite),
{
}

/// Blitting the same row twice at the same anchor restores the screen, and
/// the second blit reports a collision whenever the first one toggled some
/// dark pixel of a lit source bit.
pub proof fn lemma_row_blit_twice(s: Seq<bool>, x: u8, y: u8, sprite: u8)
    requires
        s.len() == 2048,
    ensures
        row_blit(row_blit(s, x, y, sprite), x, y, sprite) == s,
        (exists|b: int| 0 <= b < 8 && spec_bit(sprite, b) && !s[pixel_index(x, y, b)])
            ==> row_collides(row_blit(s, x, y, sprite), x, y, sprite),
{
    let s1 = row_blit(s, x, y, sprite);
    assert forall|p: int| 0 <= p < 2048 implies row_blit(s1, x, y, sprite)[p] == s[p] by {
        assert(s1[p] == (s[p] != row_hits(x, y, sprite, p)));
    }
    assert(row_blit(s1, x, y, sprite) =~= s);
    if exists|b: int| 0 <= b < 8 && spec_bit(sprite, b) && !s[pixel_index(x, y, b)] {
        let b = choose|b: int| 0 <= b < 8 && spec_bit(sprite, b) && !s[pixel_index(x, y, b)];
        let p = pixel_index(x, y, b);
        lemma_row_hits_on_row(x, y, sprite, p);
        assert(row_hits(x, y, sprite, p));
        assert(s1[p]);
    }
}

} // verus!
