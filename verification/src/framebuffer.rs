//! The logical framebuffer: a 64x32 monochrome pixel grid.
//!
//! Sprites are XOR-drawn with horizontal and vertical wraparound, and a draw
//! reports a collision exactly when it turns a previously lit pixel off.

use vstd::prelude::*;

verus! {

/// Whether bit `c` of a sprite row byte is set, counting the most
/// significant bit as column 0.
pub open spec fn sprite_bit(row: u8, c: u8) -> bool {
    (row >> ((7 - c) as u8)) & 1 == 1
}

/// A blank grid: every pixel unlit.
pub open spec fn blank_fb() -> Seq<bool> {
    Seq::new(2048, |j: int| false)
}

/// XOR-draws the bit columns `c..8` of one sprite row into pixel row `py`,
/// wrapping horizontally; yields the new grid and whether any lit pixel was
/// turned off.
pub open spec fn draw_row_spec(fb: Seq<bool>, x: int, py: int, row: u8, c: int) -> (Seq<
    bool,
>, bool)
    decreases 8 - c,
{
    if c < 0 || c >= 8 {
        (fb, false)
    } else {
        let idx = py * 64 + (x + c) % 64;
        let on = sprite_bit(row, c as u8);
        let hit = on && fb[idx];
        let fb1 = if on {
            fb.update(idx, !fb[idx])
        } else {
            fb
        };
        let rest = draw_row_spec(fb1, x, py, row, c + 1);
        (rest.0, hit || rest.1)
    }
}

/// XOR-draws a whole sprite, one 8-bit row per pixel row, wrapping both
/// coordinates; yields the new grid and the collision flag, which is the
/// disjunction over all drawn bits.
pub open spec fn draw_spec(fb: Seq<bool>, x: int, y: int, rows: Seq<u8>) -> (Seq<bool>, bool)
    decreases rows.len(),
{
    if rows.len() <= 0 {
        (fb, false)
    } else {
        let first = draw_row_spec(fb, x, y % 32, rows[0], 0);
        let rest = draw_spec(first.0, x, y + 1, rows.subrange(1, rows.len() as int));
        (rest.0, first.1 || rest.1)
    }
}

/// The 64x32 monochrome pixel grid, row-major.
pub struct FrameBuffer {
    pixels: Vec<bool>,
}

impl View for FrameBuffer {
    type V = Seq<bool>;

    closed spec fn view(&self) -> Seq<bool> {
        self.pixels@
    }
}

impl FrameBuffer {
    /// The grid always holds exactly 64 * 32 pixels.
    pub open spec fn wf(&self) -> bool {
        self@.len() == 2048
    }

    /// A fresh, blank framebuffer.
    pub fn new() -> (fb: FrameBuffer)
        ensures
            fb.wf(),
            fb@ == blank_fb(),
    {
        let mut pixels: Vec<bool> = Vec::new();
        for j in 0..2048usize
            invariant
                pixels@.len() == j,
                forall|t: int| 0 <= t < j ==> !pixels@[t],
        {
            pixels.push(false);
        }
        let fb = FrameBuffer { pixels };
        assert(fb@ =~= blank_fb());
        fb
    }

    /// Sets every pixel unlit.
    pub fn clear(&mut self)
        requires
            old(self).wf(),
        ensures
            final(self).wf(),
            final(self)@ == blank_fb(),
    {
        for j in 0..2048usize
            invariant
                self.pixels@.len() == 2048,
                forall|t: int| 0 <= t < j ==> !self.pixels@[t],
        {
            self.pixels.set(j, false);
        }
        assert(self@ =~= blank_fb());
    }

    /// Whether the pixel at column `x`, row `y` is lit.
    pub fn pixel_at(&self, x: usize, y: usize) -> (lit: bool)
        requires
            self.wf(),
            x < 64,
            y < 32,
        ensures
            lit == self@[y * 64 + x],
    {
        self.pixels[y * 64 + x]
    }

    /// A copy of the whole grid, row-major, for host rendering.
    pub fn snapshot(&self) -> (r: Vec<bool>)
        requires
            self.wf(),
        ensures
            r@ == self@,
    {
        let mut v: Vec<bool> = Vec::new();
        for j in 0..2048usize
            invariant
                self.pixels@.len() == 2048,
                v@.len() == j,
                forall|t: int| 0 <= t < j ==> v@[t] == self.pixels@[t],
        {
            v.push(self.pixels[j]);
        }
        assert(v@ =~= self@);
        v
    }

    /// XOR-draws a sprite whose top-left corner is at (`x`, `y`), one byte
    /// per row, most significant bit leftmost, wrapping both coordinates.
    /// Returns whether any pixel went from lit to unlit.
    pub fn draw_at(&mut self, x: u8, y: u8, ns: &[u8]) -> (collided: bool)
        requires
            old(self).wf(),
            ns@.len() <= 15,
        ensures
            final(self).wf(),
            final(self)@ == draw_spec(old(self)@, x as int, y as int, ns@).0,
            collided == draw_spec(old(self)@, x as int, y as int, ns@).1,
    {
        let ghost fb0 = self.pixels@;
        let mut collided = false;
        proof {
            assert(ns@.subrange(0, ns@.len() as int) =~= ns@);
        }
        for r in 0..ns.len()
            invariant
                self.pixels@.len() == 2048,
                ns@.len() <= 15,
                draw_spec(fb0, x as int, y as int, ns@).0 == draw_spec(
                    self.pixels@,
                    x as int,
                    y + r,
                    ns@.subrange(r as int, ns@.len() as int),
                ).0,
                draw_spec(fb0, x as int, y as int, ns@).1 == (collided || draw_spec(
                    self.pixels@,
                    x as int,
                    y + r,
                    ns@.subrange(r as int, ns@.len() as int),
                ).1),
        {
            let ghost fb_row = self.pixels@;
            let ghost rem = ns@.subrange(r as int, ns@.len() as int);
            let row = ns[r];
            let py = ((y as usize) + r) % 32;
            let mut hit_row = false;
            for c in 0..8usize
                invariant
                    self.pixels@.len() == 2048,
                    py == ((y as usize) + r) % 32,
                    py < 32,
                    draw_row_spec(fb_row, x as int, py as int, row, 0).0 == draw_row_spec(
                        self.pixels@,
                        x as int,
                        py as int,
                        row,
                        c as int,
                    ).0,
                    draw_row_spec(fb_row, x as int, py as int, row, 0).1 == (hit_row
                        || draw_row_spec(self.pixels@, x as int, py as int, row, c as int).1),
            {
                let px = ((x as usize) + c) % 64;
                let idx = py * 64 + px;
                let sh: u8 = (7 - c) as u8;
                let on = (row >> sh) & 1 == 1;
                assert(on == sprite_bit(row, c as u8));
                if on {
                    let old_px = self.pixels[idx];
                    if old_px {
                        hit_row = true;
                    }
                    self.pixels.set(idx, !old_px);
                }
            }
            proof {
                assert(rem[0] == ns@[r as int]);
                assert(rem.subrange(1, rem.len() as int) =~= ns@.subrange(
                    r + 1,
                    ns@.len() as int,
                ));
            }
            if hit_row {
                collided = true;
            }
        }
        proof {
            assert(ns@.subrange(ns@.len() as int, ns@.len() as int) =~= Seq::<u8>::empty());
        }
        collided
    }
}

} // verus!
