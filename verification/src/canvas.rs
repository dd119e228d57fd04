//! `Canvas` and related types: a higher-level drawing API on top of
//! `Display`, with bounds clipping and ordered dithering.

pub mod dither;
pub mod geometry;
mod style;

pub use style::Style;
pub use style::clamp_brightness;
pub use style::lemma_distinguishable_outline;

use crate::display::Display;
use crate::display::DisplayModel;
use crate::display::lemma_cell_index_in_range;
use crate::display::dot_bit;
use crate::display::with_bit;
use vstd::prelude::*;

verus! {

/// The largest coordinate magnitude the rasterizers accept; keeps all of
/// their `i32` arithmetic far from overflow.
pub const COORD_LIMIT: i32 = 0x0800_0000;

/// The dithered write: dot `(x, y)` of `m` becomes set exactly when the
/// requested brightness beats the dither threshold there; a dot outside the
/// buffer is left untouched.
pub open spec fn sp_set_with_brightness(m: DisplayModel, x: int, y: int, b: nat) -> DisplayModel {
    m.sp_set(x, y, b > dither::threshold_spec(x, y))
}

/// Dithered writes along the horizontal run from `(x, y)` to `(x1, y)`
/// inclusive, left to right.
pub open spec fn sp_hor_line(m: DisplayModel, x: int, x1: int, y: int, b: nat) -> DisplayModel
    decreases x1 - x + 1,
{
    if x > x1 {
        m
    } else {
        sp_hor_line(sp_set_with_brightness(m, x, y, b), x + 1, x1, y, b)
    }
}

/// Dithered writes along the vertical run from `(x, y)` to `(x, y1)`
/// inclusive, top to bottom.
pub open spec fn sp_ver_line(m: DisplayModel, x: int, y: int, y1: int, b: nat) -> DisplayModel
    decreases y1 - y + 1,
{
    if y > y1 {
        m
    } else {
        sp_ver_line(sp_set_with_brightness(m, x, y, b), x, y + 1, y1, b)
    }
}

/// Writing a dot with the same brightness twice leaves the same buffer as
/// writing it once.
pub proof fn lemma_set_with_brightness_idempotent(m: DisplayModel, x: int, y: int, b: nat)
    requires
        m.wf(),
    ensures
        sp_set_with_brightness(sp_set_with_brightness(m, x, y, b), x, y, b)
            == sp_set_with_brightness(m, x, y, b),
{
    let v = b > dither::threshold_spec(x, y);
    let m1 = m.sp_set(x, y, v);
    if m.in_bounds(x, y) {
        lemma_cell_index_in_range(m, x, y);
        let i = m.cell_index(x, y);
        let j = dot_bit(x, y);
        assert(j < 8);
        let c = m.cells[i];
        assert(m1.cells[i] == with_bit(c, j, v));
        assert(with_bit(with_bit(c, j, v), j, v) == with_bit(c, j, v)) by (bit_vector)
            requires
                j < 8,
        ;
        assert(m1.sp_set(x, y, v).cells =~= m1.cells);
        assert(m1.sp_set(x, y, v) =~= m1);
    }
}

/// What a horizontal run does to each single dot: an in-bounds dot on the
/// run takes the dithered value for its own coordinates, and every other
/// dot keeps its value.
pub proof fn lemma_sp_hor_line_dot(
    m: DisplayModel,
    x0: int,
    x1: int,
    y: int,
    b: nat,
    i: int,
    j: int,
)
    requires
        m.wf(),
        m.in_bounds(i, j),
    ensures
        sp_hor_line(m, x0, x1, y, b).wf(),
        sp_hor_line(m, x0, x1, y, b).width == m.width,
        sp_hor_line(m, x0, x1, y, b).height == m.height,
        sp_hor_line(m, x0, x1, y, b).dot(i, j) == (if j == y && x0 <= i <= x1 {
            b > dither::threshold_spec(i, j)
        } else {
            m.dot(i, j)
        }),
    decreases x1 - x0 + 1,
{
    if x0 <= x1 {
        let m2 = sp_set_with_brightness(m, x0, y, b);
        crate::display::lemma_sp_set_shape(m, x0, y, b > dither::threshold_spec(x0, y));
        crate::display::lemma_sp_set_dot(m, x0, y, b > dither::threshold_spec(x0, y), i, j);
        lemma_sp_hor_line_dot(m2, x0 + 1, x1, y, b, i, j);
    }
}

/// What a vertical run does to each single dot.
pub proof fn lemma_sp_ver_line_dot(
    m: DisplayModel,
    x: int,
    y0: int,
    y1: int,
    b: nat,
    i: int,
    j: int,
)
    requires
        m.wf(),
        m.in_bounds(i, j),
    ensures
        sp_ver_line(m, x, y0, y1, b).wf(),
        sp_ver_line(m, x, y0, y1, b).width == m.width,
        sp_ver_line(m, x, y0, y1, b).height == m.height,
        sp_ver_line(m, x, y0, y1, b).dot(i, j) == (if i == x && y0 <= j <= y1 {
            b > dither::threshold_spec(i, j)
        } else {
            m.dot(i, j)
        }),
    decreases y1 - y0 + 1,
{
    if y0 <= y1 {
        let m2 = sp_set_with_brightness(m, x, y0, b);
        crate::display::lemma_sp_set_shape(m, x, y0, b > dither::threshold_spec(x, y0));
        crate::display::lemma_sp_set_dot(m, x, y0, b > dither::threshold_spec(x, y0), i, j);
        lemma_sp_ver_line_dot(m2, x, y0 + 1, y1, b, i, j);
    }
}

/// Types implementing `Rasterize` can be drawn onto a `Canvas`.
pub trait Rasterize {
    /// Whether the shape's coordinates are small enough for the rasterizer's
    /// integer arithmetic.
    spec fn in_range(&self) -> bool;

    /// The buffer that drawing `self` onto `m` with `style` produces.
    spec fn rasterized(&self, m: DisplayModel, style: Style) -> DisplayModel;

    /// Draw `self` onto the `Canvas` with the specified `Style`.
    fn rasterize_onto(&self, canvas: &mut Canvas, style: Style)
        requires
            old(canvas)@.wf(),
            self.in_range(),
        ensures
            final(canvas)@ == self.rasterized(old(canvas)@, style),
            final(canvas)@.wf(),
            final(canvas)@.width == old(canvas)@.width,
            final(canvas)@.height == old(canvas)@.height,
    ;
}

/// A canvas that offers a higher-level API on top of `Display` with drawing
/// primitives.
pub struct Canvas {
    display: Display,
}

impl View for Canvas {
    type V = DisplayModel;

    closed spec fn view(&self) -> DisplayModel {
        self.display@
    }
}

impl Canvas {
    /// Creates a new `Canvas` with the given dot size.
    ///
    /// The width must be a multiple of 2 and the height a multiple of 4 so
    /// that the grid maps exactly to braille characters.
    pub fn with_dot_size(width: usize, height: usize) -> (r: Self)
        requires
            width % 2 == 0,
            height % 4 == 0,
            (width / 2) * (height / 4) <= usize::MAX,
        ensures
            r@.wf(),
            r@.width == width / 2,
            r@.height == height / 4,
            r@.cells == Seq::new(((width / 2) * (height / 4)) as nat, |i: int| 0u8),
    {
        let display = Display::with_dot_size(width, height);
        Self { display }
    }

    /// Creates a new `Canvas` with the given output (character) dimensions.
    pub fn with_output_size(width: usize, height: usize) -> (r: Self)
        requires
            width * 2 <= usize::MAX,
            height * 4 <= usize::MAX,
            width * height <= usize::MAX,
        ensures
            r@.wf(),
            r@.width == width,
            r@.height == height,
            r@.cells == Seq::new((width * height) as nat, |i: int| 0u8),
    {
        let display = Display::with_output_size(width, height);
        Self { display }
    }

    /// Returns a reference to the underlying `Display`.
    pub fn display(&self) -> (r: &Display)
        ensures
            r@ == self@,
    {
        &self.display
    }

    /// Returns a mutable reference to the underlying `Display`.
    pub fn display_mut(&mut self) -> (r: &mut Display)
        ensures
            r@ == old(self)@,
            final(self)@ == final(r)@,
    {
        &mut self.display
    }

    /// Clears the canvas.
    pub fn clear(&mut self)
        requires
            old(self)@.wf(),
        ensures
            final(self)@ == old(self)@.cleared(),
            final(self)@.wf(),
    {
        self.display.clear();
    }

    /// Gets the width of the canvas in dots.
    pub fn dot_width(&self) -> (r: usize)
        requires
            self@.wf(),
        ensures
            r == self@.dot_w(),
    {
        self.display.dot_width()
    }

    /// Gets the height of the canvas in dots.
    pub fn dot_height(&self) -> (r: usize)
        requires
            self@.wf(),
        ensures
            r == self@.dot_h(),
    {
        self.display.dot_height()
    }

    /// Gets the size (width, height) of the canvas in dots.
    pub fn dot_size(&self) -> (r: (usize, usize))
        requires
            self@.wf(),
        ensures
            r.0 == self@.dot_w(),
            r.1 == self@.dot_h(),
    {
        self.display.dot_size()
    }

    /// Gets the width of the canvas in characters.
    pub fn output_width(&self) -> (r: usize)
        ensures
            r == self@.width,
    {
        self.display.output_width()
    }

    /// Gets the height of the canvas in characters.
    pub fn output_height(&self) -> (r: usize)
        ensures
            r == self@.height,
    {
        self.display.output_height()
    }

    /// Gets the size (width, height) of the canvas in characters.
    pub fn output_size(&self) -> (r: (usize, usize))
        ensures
            r.0 == self@.width,
            r.1 == self@.height,
    {
        self.display.output_size()
    }

    /// Draw to the `Canvas` using the object's `Rasterize` implementation.
    pub fn draw<R: Rasterize>(&mut self, object: R, style: Style)
        requires
            old(self)@.wf(),
            object.in_range(),
        ensures
            final(self)@ == object.rasterized(old(self)@, style),
            final(self)@.wf(),
            final(self)@.width == old(self)@.width,
            final(self)@.height == old(self)@.height,
    {
        object.rasterize_onto(self, style);
    }

    /// Writes one dot through the dither: outside the buffer nothing
    /// happens; brightness 0 always unsets, the maximum always sets, and a
    /// value in between sets the dot exactly when it beats the threshold.
    pub fn set_with_brightness(&mut self, p: (i32, i32), brightness: usize)
        requires
            old(self)@.wf(),
        ensures
            final(self)@ == sp_set_with_brightness(
                old(self)@,
                p.0 as int,
                p.1 as int,
                brightness as nat,
            ),
            final(self)@.wf(),
            final(self)@.width == old(self)@.width,
            final(self)@.height == old(self)@.height,
    {
        let (x, y) = p;
        if x >= 0 && y >= 0 {
            let ux = x as usize;
            let uy = y as usize;
            if ux < self.display.dot_width() && uy < self.display.dot_height() {
                let m = dither::max_brightness();
                if brightness == 0 {
                    self.display.unset(ux, uy);
                } else if brightness >= m {
                    proof {
                        dither::lemma_threshold_bound(x as int, y as int);
                    }
                    self.display.set(ux, uy);
                } else {
                    let t = dither::threshold(ux, uy);
                    if brightness > t {
                        self.display.set(ux, uy);
                    } else {
                        self.display.unset(ux, uy);
                    }
                }
            }
        }
    }

    /// Dithered writes along the vertical run between `p0` and `p1`,
    /// inclusive of both; `p1`'s x-coordinate is ignored.
    pub(crate) fn draw_ver_line(&mut self, p0: (i32, i32), p1: (i32, i32), brightness: usize)
        requires
            old(self)@.wf(),
            p0.1 < i32::MAX,
            p1.1 < i32::MAX,
        ensures
            final(self)@ == sp_ver_line(
                old(self)@,
                p0.0 as int,
                (if p0.1 < p1.1 {
                    p0.1
                } else {
                    p1.1
                }) as int,
                (if p0.1 < p1.1 {
                    p1.1
                } else {
                    p0.1
                }) as int,
                brightness as nat,
            ),
            final(self)@.wf(),
            final(self)@.width == old(self)@.width,
            final(self)@.height == old(self)@.height,
    {
        let (x, y0) = p0;
        let (_, y1) = p1;

        let (y0, y1) = min_and_max(y0, y1);
        let ghost target = sp_ver_line(self@, x as int, y0 as int, y1 as int, brightness as nat);
        let mut y = y0;
        while y <= y1
            invariant
                self@.wf(),
                self@.width == old(self)@.width,
                self@.height == old(self)@.height,
                y0 <= y,
                y <= y1 + 1,
                y1 < i32::MAX,
                sp_ver_line(self@, x as int, y as int, y1 as int, brightness as nat) == target,
            decreases y1 + 1 - y,
        {
            self.set_with_brightness((x, y), brightness);
            y = y + 1;
        }
    }

    /// Dithered writes along the horizontal run between `p0` and `p1`,
    /// inclusive of both; `p1`'s y-coordinate is ignored.
    pub(crate) fn draw_hor_line(&mut self, p0: (i32, i32), p1: (i32, i32), brightness: usize)
        requires
            old(self)@.wf(),
            p0.0 < i32::MAX,
            p1.0 < i32::MAX,
        ensures
            final(self)@ == sp_hor_line(
                old(self)@,
                (if p0.0 < p1.0 {
                    p0.0
                } else {
                    p1.0
                }) as int,
                (if p0.0 < p1.0 {
                    p1.0
                } else {
                    p0.0
                }) as int,
                p0.1 as int,
                brightness as nat,
            ),
            final(self)@.wf(),
            final(self)@.width == old(self)@.width,
            final(self)@.height == old(self)@.height,
    {
        let (x0, y) = p0;
        let (x1, _) = p1;

        let (x0, x1) = min_and_max(x0, x1);
        let ghost target = sp_hor_line(self@, x0 as int, x1 as int, y as int, brightness as nat);
        let mut x = x0;
        while x <= x1
            invariant
                self@.wf(),
                self@.width == old(self)@.width,
                self@.height == old(self)@.height,
                x0 <= x,
                x <= x1 + 1,
                x1 < i32::MAX,
                sp_hor_line(self@, x as int, x1 as int, y as int, brightness as nat) == target,
            decreases x1 + 1 - x,
        {
            self.set_with_brightness((x, y), brightness);
            x = x + 1;
        }
    }

    /// The whole canvas as one string: the lines joined by a single newline.
    pub fn to_text(&self) -> (r: String)
        requires
            self@.wf(),
        ensures
            crate::display::joined_text(self@, r@),
    {
        self.display.to_text()
    }
}

/// The smaller and the larger of `a` and `b`, in that order.
pub fn min_and_max(a: i32, b: i32) -> (r: (i32, i32))
    ensures
        r.0 == (if a < b {
            a
        } else {
            b
        }),
        r.1 == (if a < b {
            b
        } else {
            a
        }),
        r.0 <= r.1,
{
    if a < b {
        (a, b)
    } else {
        (b, a)
    }
}

} // verus!
