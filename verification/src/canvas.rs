//! A pixel-exact model of the two render targets and of the composite step.
//!
//! The GPU's work per frame — clear the offscreen surface to transparent, let
//! the UI draw into it, then blend it over the scene — is modeled here on
//! plain RGBA pixel grids, so the compositing contract can be stated and
//! proved pixel by pixel. Row-major layout: the pixel at column `x`, row `y`
//! sits at linear index `y * width + x`.

use vstd::prelude::*;
use crate::color::{over, over_spec, transparent_spec, Rgba};

verus! {

/// A solid image of `n` pixels of color `c`.
pub open spec fn solid(n: int, c: Rgba) -> Seq<Rgba> {
    Seq::new(n as nat, |i: int| c)
}

/// The composite of a UI layer over a scene, pixel by pixel, with blend
/// factors `one, one minus source alpha`.
pub open spec fn composited(scene: Seq<Rgba>, ui: Seq<Rgba>) -> Seq<Rgba> {
    Seq::new(scene.len(), |i: int| over_spec(ui[i], scene[i]))
}

/// Alpha round-trip: clear the UI layer fully transparent, draw one opaque
/// pixel, composite over any background — the drawn pixel comes through as
/// drawn, and every untouched pixel keeps the background exactly.
pub proof fn lemma_alpha_round_trip(n: int, k: int, ink: Rgba, back: Rgba)
    requires
        0 <= k < n,
        ink.a == 255,
    ensures
        composited(solid(n, back), solid(n, transparent_spec()).update(k, ink))[k] == ink,
        forall|j: int|
            0 <= j < n && j != k ==> composited(
                solid(n, back),
                solid(n, transparent_spec()).update(k, ink),
            )[j] == back,
{
    crate::color::lemma_over_opaque(ink, back);
    crate::color::lemma_over_transparent(back);
}

/// A grid of pixels: one render target, sized like the window and the
/// offscreen surface.
#[derive(Debug, PartialEq, Eq)]
pub struct Canvas {
    pub width: u32,
    pub height: u32,
    pub pixels: Vec<Rgba>,
}

impl Canvas {
    /// The grid holds exactly `width * height` pixels.
    pub open spec fn wf(self) -> bool {
        self.pixels@.len() == self.width * self.height
    }

    /// The linear index of column `x`, row `y`.
    pub open spec fn idx(self, x: int, y: int) -> int {
        y * self.width + x
    }

    /// The pixel at column `x`, row `y`.
    pub open spec fn pixel_at(self, x: int, y: int) -> Rgba {
        self.pixels@[self.idx(x, y)]
    }

    /// A canvas filled with one color.
    pub fn new(width: u32, height: u32, fill: Rgba) -> (canvas: Canvas)
        requires
            0 < width,
            0 < height,
            width * height <= usize::MAX,
        ensures
            canvas.wf(),
            canvas.width == width,
            canvas.height == height,
            canvas.pixels@ =~= solid(width * height, fill),
    {
        let n: usize = (width as usize) * (height as usize);
        let mut pixels: Vec<Rgba> = Vec::new();
        let mut i: usize = 0;
        while i < n
            invariant
                i <= n,
                n == width * height,
                pixels@.len() == i,
                forall|j: int| 0 <= j < i ==> pixels@[j] == fill,
            decreases n - i,
        {
            pixels.push(fill);
            i = i + 1;
        }
        Canvas { width, height, pixels }
    }

    /// Reads one pixel.
    pub fn pixel(&self, x: u32, y: u32) -> (c: Rgba)
        requires
            self.wf(),
            x < self.width,
            y < self.height,
        ensures
            c == self.pixel_at(x as int, y as int),
    {
        let n: usize = self.pixels.len();
        proof {
            lemma_idx_in_range(x as int, y as int, self.width as int, self.height as int);
            assert(n == self.width * self.height);
        }
        let i: usize = (y as usize) * (self.width as usize) + (x as usize);
        self.pixels[i]
    }

    /// Overwrites one pixel; every other pixel keeps its value.
    pub fn set_pixel(&mut self, x: u32, y: u32, c: Rgba)
        requires
            old(self).wf(),
            x < old(self).width,
            y < old(self).height,
        ensures
            final(self).wf(),
            final(self).width == old(self).width,
            final(self).height == old(self).height,
            final(self).pixels@ =~= old(self).pixels@.update(
                old(self).idx(x as int, y as int),
                c,
            ),
    {
        let n: usize = self.pixels.len();
        proof {
            lemma_idx_in_range(x as int, y as int, self.width as int, self.height as int);
            assert(n == self.width * self.height);
        }
        let i: usize = (y as usize) * (self.width as usize) + (x as usize);
        self.pixels[i] = c;
    }

    /// Fills the whole canvas with one color, as the scene render or the
    /// surface's transparent clear does.
    pub fn clear(&mut self, fill: Rgba)
        requires
            old(self).wf(),
        ensures
            final(self).wf(),
            final(self).width == old(self).width,
            final(self).height == old(self).height,
            final(self).pixels@ =~= solid(old(self).width * old(self).height, fill),
    {
        let n: usize = self.pixels.len();
        let mut i: usize = 0;
        while i < n
            invariant
                i <= n,
                self.pixels@.len() == n,
                self.width == old(self).width,
                self.height == old(self).height,
                forall|j: int| 0 <= j < i ==> self.pixels@[j] == fill,
            decreases n - i,
        {
            self.pixels[i] = fill;
            i = i + 1;
        }
    }

    /// Paints the axis-aligned rectangle of size `w` by `h` whose top-left
    /// corner is at `(x0, y0)`; pixels outside it keep their value.
    pub fn fill_rect(&mut self, x0: u32, y0: u32, w: u32, h: u32, c: Rgba)
        requires
            old(self).wf(),
            x0 + w <= old(self).width,
            y0 + h <= old(self).height,
        ensures
            final(self).wf(),
            final(self).width == old(self).width,
            final(self).height == old(self).height,
            forall|x: int, y: int|
                0 <= x < old(self).width && 0 <= y < old(self).height ==> final(self).pixel_at(
                    x,
                    y,
                ) == (if x0 <= x < x0 + w && y0 <= y < y0 + h {
                    c
                } else {
                    old(self).pixel_at(x, y)
                }),
    {
        let mut dy: u32 = 0;
        while dy < h
            invariant
                dy <= h,
                x0 + w <= self.width,
                y0 + h <= self.height,
                self.wf(),
                self.width == old(self).width,
                self.height == old(self).height,
                forall|x: int, y: int|
                    0 <= x < self.width && 0 <= y < self.height ==> #[trigger] self.pixel_at(x, y)
                        == (if x0 <= x < x0 + w && y0 <= y < y0 + dy {
                        c
                    } else {
                        old(self).pixel_at(x, y)
                    }),
            decreases h - dy,
        {
            let y: u32 = y0 + dy;
            let ghost row_start = *self;
            let mut dx: u32 = 0;
            while dx < w
                invariant
                    dx <= w,
                    x0 + w <= self.width,
                    y0 + h <= self.height,
                    y == y0 + dy,
                    dy < h,
                    self.wf(),
                    self.width == row_start.width,
                    self.height == row_start.height,
                    forall|x: int, yy: int|
                        0 <= x < self.width && 0 <= yy < self.height ==> #[trigger] self.pixel_at(
                            x,
                            yy,
                        ) == (if yy == y && x0 <= x < x0 + dx {
                            c
                        } else {
                            row_start.pixel_at(x, yy)
                        }),
                decreases w - dx,
            {
                let x: u32 = x0 + dx;
                let ghost before = *self;
                self.set_pixel(x, y, c);
                proof {
                    lemma_update_one(before, *self, x as int, y as int, c);
                }
                dx = dx + 1;
            }
            dy = dy + 1;
        }
    }

    /// The composite step: blends `ui` over this canvas pixel by pixel with
    /// factors `one, one minus source alpha`, exactly as the GPU blends the
    /// surface texture over the scene.
    pub fn composite_over(&mut self, ui: &Canvas)
        requires
            old(self).wf(),
            ui.wf(),
            ui.width == old(self).width,
            ui.height == old(self).height,
        ensures
            final(self).wf(),
            final(self).width == old(self).width,
            final(self).height == old(self).height,
            final(self).pixels@ =~= composited(old(self).pixels@, ui.pixels@),
    {
        let n: usize = self.pixels.len();
        let mut i: usize = 0;
        while i < n
            invariant
                i <= n,
                self.pixels@.len() == n,
                ui.pixels@.len() == n,
                self.width == old(self).width,
                self.height == old(self).height,
                forall|j: int|
                    i <= j < n ==> self.pixels@[j] == old(self).pixels@[j],
                forall|j: int|
                    0 <= j < i ==> self.pixels@[j] == over_spec(ui.pixels@[j], old(self).pixels@[j]),
            decreases n - i,
        {
            let blended = over(ui.pixels[i], self.pixels[i]);
            self.pixels[i] = blended;
            i = i + 1;
        }
    }
}

/// A pixel's linear index lies inside the grid.
proof fn lemma_idx_in_range(x: int, y: int, width: int, height: int)
    requires
        0 <= x < width,
        0 <= y < height,
    ensures
        0 <= y * width + x < width * height,
{
    assert(y * width + x < width * height) by (nonlinear_arith)
        requires
            0 <= x < width,
            0 <= y < height,
    ;
    assert(0 <= y * width) by (nonlinear_arith)
        requires
            0 <= y,
            0 < width,
    ;
}

/// Updating the pixel at `(x, y)` changes that coordinate alone: distinct
/// coordinates have distinct linear indices.
proof fn lemma_update_one(before: Canvas, after: Canvas, x: int, y: int, c: Rgba)
    requires
        before.wf(),
        0 <= x < before.width,
        0 <= y < before.height,
        after.width == before.width,
        after.height == before.height,
        after.pixels@ =~= before.pixels@.update(before.idx(x, y), c),
    ensures
        forall|xx: int, yy: int|
            0 <= xx < before.width && 0 <= yy < before.height ==> #[trigger] after.pixel_at(xx, yy)
                == (if xx == x && yy == y {
                c
            } else {
                before.pixel_at(xx, yy)
            }),
{
    lemma_idx_in_range(x, y, before.width as int, before.height as int);
    assert forall|xx: int, yy: int|
        0 <= xx < before.width && 0 <= yy < before.height implies #[trigger] after.pixel_at(xx, yy)
        == (if xx == x && yy == y {
        c
    } else {
        before.pixel_at(xx, yy)
    }) by {
        lemma_idx_in_range(xx, yy, before.width as int, before.height as int);
        if !(xx == x && yy == y) {
            assert(yy * before.width + xx != y * before.width + x) by (nonlinear_arith)
                requires
                    0 <= xx < before.width,
                    0 <= yy < before.height,
                    0 <= x < before.width,
                    0 <= y < before.height,
                    !(xx == x && yy == y),
            ;
        }
    }
}

} // verus!
