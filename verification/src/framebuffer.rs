//! The pixel sink: a color buffer with a per-pixel depth buffer.
//!
//! `point` writes the current draw color at a coordinate only when the new
//! depth is strictly nearer (smaller) than the recorded one, and records the
//! new depth on success; `clear` resets both buffers, giving the depth test
//! a fresh frame. This depth contract is what makes multi-pass composites
//! (rings, moons) overlap correctly.

use vstd::prelude::*;
use crate::fx::{Fx, FX_MAX};

verus! {

/// A width-by-height framebuffer with color and depth storage.
pub struct Framebuffer {
    /// Width in pixels.
    pub width: usize,
    /// Height in pixels.
    pub height: usize,
    /// Packed `0xRRGGBB` colors, row-major.
    pub buffer: Vec<u32>,
    /// Recorded depth per pixel, row-major.
    pub zbuffer: Vec<Fx>,
    /// Color used by `clear`.
    pub background_color: u32,
    /// Color written by `point`.
    pub current_color: u32,
}

impl Framebuffer {
    /// Both planes cover exactly width times height pixels.
    pub open spec fn wf(self) -> bool {
        &&& self.buffer@.len() == self.width * self.height
        &&& self.zbuffer@.len() == self.width * self.height
    }

    /// The row-major index of a coordinate.
    pub open spec fn pix(self, x: int, y: int) -> int {
        y * self.width + x
    }

    /// Builds a framebuffer of the given size, cleared to black and to the
    /// farthest representable depth.
    pub fn new(width: usize, height: usize) -> (fb: Framebuffer)
        requires
            width * height <= usize::MAX,
        ensures
            fb.width == width,
            fb.height == height,
            fb.wf(),
            fb.background_color == 0,
            fb.current_color == 0,
            forall|i: int| 0 <= i < width * height ==> fb.buffer@[i] == 0,
            forall|i: int| 0 <= i < width * height ==> fb.zbuffer@[i] == FX_MAX,
    {
        proof {
            vstd::arithmetic::mul::lemma_mul_nonnegative(width as int, height as int);
        }
        let n: usize = width * height;
        let mut buffer: Vec<u32> = Vec::new();
        let mut zbuffer: Vec<Fx> = Vec::new();
        let mut i: usize = 0;
        while i < n
            invariant
                i <= n,
                buffer@.len() == i,
                zbuffer@.len() == i,
                forall|j: int| 0 <= j < i ==> buffer@[j] == 0,
                forall|j: int| 0 <= j < i ==> zbuffer@[j] == FX_MAX,
            decreases n - i,
        {
            buffer.push(0);
            zbuffer.push(FX_MAX);
            i = i + 1;
        }
        Framebuffer {
            width,
            height,
            buffer,
            zbuffer,
            background_color: 0,
            current_color: 0,
        }
    }

    /// Sets the color `clear` paints with.
    pub fn set_background_color(&mut self, color: u32)
        ensures
            *final(self) == (Framebuffer { background_color: color, ..*old(self) }),
    {
        self.background_color = color;
    }

    /// Sets the color `point` writes.
    pub fn set_current_color(&mut self, color: u32)
        ensures
            *final(self) == (Framebuffer { current_color: color, ..*old(self) }),
    {
        self.current_color = color;
    }

    /// Paints every pixel with the background color and resets every depth
    /// to the farthest value, starting a fresh frame.
    pub fn clear(&mut self)
        requires
            old(self).wf(),
        ensures
            final(self).wf(),
            final(self).width == old(self).width,
            final(self).height == old(self).height,
            final(self).background_color == old(self).background_color,
            final(self).current_color == old(self).current_color,
            forall|i: int| 0 <= i < final(self).buffer@.len()
                ==> final(self).buffer@[i] == old(self).background_color,
            forall|i: int| 0 <= i < final(self).zbuffer@.len()
                ==> final(self).zbuffer@[i] == FX_MAX,
    {
        let n: usize = self.buffer.len();
        let mut i: usize = 0;
        while i < n
            invariant
                i <= n,
                self.buffer@.len() == n,
                self.zbuffer@.len() == n,
                self.width == old(self).width,
                self.height == old(self).height,
                self.background_color == old(self).background_color,
                self.current_color == old(self).current_color,
                forall|j: int| 0 <= j < i ==> self.buffer@[j] == self.background_color,
                forall|j: int| 0 <= j < i ==> self.zbuffer@[j] == FX_MAX,
            decreases n - i,
        {
            let c = self.background_color;
            self.buffer[i] = c;
            self.zbuffer[i] = FX_MAX;
            i = i + 1;
        }
    }

    /// Writes the current color at `(x, y)` when the coordinate is in
    /// bounds and `depth` is strictly nearer than the recorded depth,
    /// recording the new depth; otherwise leaves the buffers untouched.
    pub fn point(&mut self, x: usize, y: usize, depth: Fx)
        requires
            old(self).wf(),
        ensures
            final(self).wf(),
            final(self).width == old(self).width,
            final(self).height == old(self).height,
            final(self).background_color == old(self).background_color,
            final(self).current_color == old(self).current_color,
            x < old(self).width && y < old(self).height
                && depth < old(self).zbuffer@[old(self).pix(x as int, y as int)] ==> {
                &&& final(self).buffer@ == old(self).buffer@.update(
                    old(self).pix(x as int, y as int),
                    old(self).current_color,
                )
                &&& final(self).zbuffer@ == old(self).zbuffer@.update(
                    old(self).pix(x as int, y as int),
                    depth,
                )
            },
            !(x < old(self).width && y < old(self).height
                && depth < old(self).zbuffer@[old(self).pix(x as int, y as int)]) ==> {
                &&& final(self).buffer@ == old(self).buffer@
                &&& final(self).zbuffer@ == old(self).zbuffer@
            },
    {
        if x < self.width && y < self.height {
            let total: usize = self.buffer.len();
            proof {
                vstd::arithmetic::mul::lemma_mul_inequality(
                    y as int + 1,
                    self.height as int,
                    self.width as int,
                );
                vstd::arithmetic::mul::lemma_mul_is_distributive_add_other_way(
                    self.width as int,
                    y as int,
                    1,
                );
                vstd::arithmetic::mul::lemma_mul_is_commutative(
                    self.height as int,
                    self.width as int,
                );
            }
            let idx: usize = y * self.width + x;
            assert(idx < self.width * self.height);
            if depth < self.zbuffer[idx] {
                let c = self.current_color;
                self.buffer[idx] = c;
                self.zbuffer[idx] = depth;
            }
        }
    }
}

} // verus!
