//! Shape descriptors and their rasterization algorithms: each shape reduces
//! its geometry to dithered dot writes on a `Canvas`.

use super::COORD_LIMIT;
use super::Canvas;
use super::Rasterize;
use super::Style;
use super::clamp_brightness;
use super::min_and_max;
use super::sp_hor_line;
use super::sp_set_with_brightness;
use super::sp_ver_line;
use crate::display::DisplayModel;
use vstd::prelude::*;

verus! {

/// The largest coordinate or extent magnitude accepted for shapes whose
/// rasterizer adds coordinates and extents before drawing lines.
pub const EXTENT_LIMIT: i32 = 0x0400_0000;

/// The absolute value of `a`.
pub open spec fn abs_i(a: int) -> int {
    if a >= 0 {
        a
    } else {
        -a
    }
}

/// The sign of `a`: 1, -1 or 0.
pub open spec fn sign_i(a: int) -> int {
    if a > 0 {
        1
    } else if a < 0 {
        -1
    } else {
        0
    }
}

/// A style that draws edges at brightness `b` (clamped) and nothing else.
pub open spec fn outline_only(b: usize) -> Style {
    Style { outline: Some(clamp_brightness(b)), fill: None }
}

/// The step and direction parameters of the Bresenham loop are consistent:
/// unit steps that point from `(x0, y0)` towards `(x1, y1)`, a non-negative
/// x-extent and a non-positive y-extent.
pub open spec fn bres_ok(
    x0: int,
    y0: int,
    x1: int,
    y1: int,
    sx: int,
    sy: int,
    dx: int,
    dy: int,
) -> bool {
    &&& sx == 1 || sx == -1
    &&& sy == 1 || sy == -1
    &&& if sx == 1 {
        x0 <= x1
    } else {
        x1 <= x0
    }
    &&& if sy == 1 {
        y0 <= y1
    } else {
        y1 <= y0
    }
    &&& dx >= 0
    &&& dy <= 0
}

/// The buffer produced by the generalized Bresenham loop started at
/// `(x0, y0)` with error term `error`: each round plots the current dot,
/// then steps in x and in y according to the doubled error term, stopping
/// once the axis that is due to step has reached its endpoint.
pub open spec fn sp_bres(
    m: DisplayModel,
    x0: int,
    y0: int,
    x1: int,
    y1: int,
    sx: int,
    sy: int,
    dx: int,
    dy: int,
    error: int,
    b: nat,
) -> DisplayModel
    decreases abs_i(x1 - x0) + abs_i(y1 - y0) + 1,
{
    if !bres_ok(x0, y0, x1, y1, sx, sy, dx, dy) {
        m
    } else {
        let m2 = sp_set_with_brightness(m, x0, y0, b);
        let e2 = 2 * error;
        if e2 >= dy && x0 == x1 {
            m2
        } else {
            let xn = if e2 >= dy {
                x0 + sx
            } else {
                x0
            };
            let en = if e2 >= dy {
                error + dy
            } else {
                error
            };
            if e2 <= dx && y0 == y1 {
                m2
            } else {
                let yn = if e2 <= dx {
                    y0 + sy
                } else {
                    y0
                };
                let en2 = if e2 <= dx {
                    en + dx
                } else {
                    en
                };
                sp_bres(m2, xn, yn, x1, y1, sx, sy, dx, dy, en2, b)
            }
        }
    }
}

/// One unfolding of `sp_bres`: what one round of the loop leaves behind,
/// by the case the doubled error term selects.
proof fn lemma_sp_bres_unfold(
    m: DisplayModel,
    x0: int,
    y0: int,
    x1: int,
    y1: int,
    sx: int,
    sy: int,
    dx: int,
    dy: int,
    error: int,
    b: nat,
)
    requires
        bres_ok(x0, y0, x1, y1, sx, sy, dx, dy),
    ensures
        ({
            let m2 = sp_set_with_brightness(m, x0, y0, b);
            let e2 = 2 * error;
            let xn = if e2 >= dy {
                x0 + sx
            } else {
                x0
            };
            let en = if e2 >= dy {
                error + dy
            } else {
                error
            };
            let yn = if e2 <= dx {
                y0 + sy
            } else {
                y0
            };
            let en2 = if e2 <= dx {
                en + dx
            } else {
                en
            };
            &&& (e2 >= dy && x0 == x1 ==> sp_bres(m, x0, y0, x1, y1, sx, sy, dx, dy, error, b)
                == m2)
            &&& (!(e2 >= dy && x0 == x1) && e2 <= dx && y0 == y1 ==> sp_bres(
                m,
                x0,
                y0,
                x1,
                y1,
                sx,
                sy,
                dx,
                dy,
                error,
                b,
            ) == m2)
            &&& (!(e2 >= dy && x0 == x1) && !(e2 <= dx && y0 == y1) ==> sp_bres(
                m,
                x0,
                y0,
                x1,
                y1,
                sx,
                sy,
                dx,
                dy,
                error,
                b,
            ) == sp_bres(m2, xn, yn, x1, y1, sx, sy, dx, dy, en2, b))
        }),
{
}

/// The buffer produced by drawing the line from `(x0, y0)` to `(x1, y1)`
/// with `style`: nothing without an outline; one dot for coincident
/// endpoints; a straight run for a horizontal or vertical line; the
/// Bresenham walk otherwise.
pub open spec fn line_rasterized(
    x0: int,
    y0: int,
    x1: int,
    y1: int,
    m: DisplayModel,
    style: Style,
) -> DisplayModel {
    match style.outline {
        None => m,
        Some(b) => {
            if x0 == x1 && y0 == y1 {
                sp_set_with_brightness(m, x0, y0, b as nat)
            } else if y0 == y1 {
                sp_hor_line(
                    m,
                    if x0 < x1 {
                        x0
                    } else {
                        x1
                    },
                    if x0 < x1 {
                        x1
                    } else {
                        x0
                    },
                    y0,
                    b as nat,
                )
            } else if x0 == x1 {
                sp_ver_line(
                    m,
                    x0,
                    if y0 < y1 {
                        y0
                    } else {
                        y1
                    },
                    if y0 < y1 {
                        y1
                    } else {
                        y0
                    },
                    b as nat,
                )
            } else {
                sp_bres(
                    m,
                    x0,
                    y0,
                    x1,
                    y1,
                    sign_i(x1 - x0),
                    sign_i(y1 - y0),
                    abs_i(x1 - x0),
                    -abs_i(y1 - y0),
                    abs_i(x1 - x0) - abs_i(y1 - y0),
                    b as nat,
                )
            }
        },
    }
}

/// A straight line segment between two dot coordinates.
pub struct Line {
    pub from: (i32, i32),
    pub to: (i32, i32),
}

impl Line {
    #[inline]
    pub fn new(from: (i32, i32), to: (i32, i32)) -> (r: Self)
        ensures
            r.from == from,
            r.to == to,
    {
        Self { from, to }
    }
}

impl Rasterize for Line {
    open spec fn in_range(&self) -> bool {
        &&& -COORD_LIMIT <= self.from.0 <= COORD_LIMIT
        &&& -COORD_LIMIT <= self.from.1 <= COORD_LIMIT
        &&& -COORD_LIMIT <= self.to.0 <= COORD_LIMIT
        &&& -COORD_LIMIT <= self.to.1 <= COORD_LIMIT
    }

    open spec fn rasterized(&self, m: DisplayModel, style: Style) -> DisplayModel {
        line_rasterized(
            self.from.0 as int,
            self.from.1 as int,
            self.to.0 as int,
            self.to.1 as int,
            m,
            style,
        )
    }

    fn rasterize_onto(&self, canvas: &mut Canvas, style: Style) {
        let brightness = match style.outline {
            Some(b) => b,
            None => {
                return ;
            },
        };

        let (x0, y0) = self.from;
        let (x1, y1) = self.to;

        if x0 == x1 && y0 == y1 {
            canvas.set_with_brightness((x0, y0), brightness);
        } else if y0 == y1 {
            canvas.draw_hor_line(self.from, self.to, brightness);
        } else if x0 == x1 {
            canvas.draw_ver_line(self.from, self.to, brightness);
        } else {
            // Generalized Bresenham: walk from (x0, y0) to (x1, y1), stepping
            // whichever axis the doubled error term has fallen behind on.
            let mut x0c = x0;
            let mut y0c = y0;

            let dx = if x1 > x0 {
                x1 - x0
            } else {
                x0 - x1
            };
            let sx: i32 = if x1 > x0 {
                1
            } else {
                -1
            };
            let dy = -(if y1 > y0 {
                y1 - y0
            } else {
                y0 - y1
            });
            let sy: i32 = if y1 > y0 {
                1
            } else {
                -1
            };
            let mut error = dx + dy;

            let ghost b = brightness as nat;
            let ghost target = sp_bres(
                canvas@,
                x0 as int,
                y0 as int,
                x1 as int,
                y1 as int,
                sx as int,
                sy as int,
                dx as int,
                dy as int,
                error as int,
                b,
            );

            loop
                invariant_except_break
                    canvas@.wf(),
                    canvas@.width == old(canvas)@.width,
                    canvas@.height == old(canvas)@.height,
                    bres_ok(
                        x0c as int,
                        y0c as int,
                        x1 as int,
                        y1 as int,
                        sx as int,
                        sy as int,
                        dx as int,
                        dy as int,
                    ),
                    b == brightness as nat,
                    1 <= dx <= 0x1000_0000,
                    -0x1000_0000 <= dy <= -1,
                    -COORD_LIMIT <= x0c <= COORD_LIMIT,
                    -COORD_LIMIT <= y0c <= COORD_LIMIT,
                    -COORD_LIMIT <= x1 <= COORD_LIMIT,
                    -COORD_LIMIT <= y1 <= COORD_LIMIT,
                    2 * dy <= error <= 2 * dx,
                    sp_bres(
                        canvas@,
                        x0c as int,
                        y0c as int,
                        x1 as int,
                        y1 as int,
                        sx as int,
                        sy as int,
                        dx as int,
                        dy as int,
                        error as int,
                        b,
                    ) == target,
                ensures
                    canvas@.wf(),
                    canvas@.width == old(canvas)@.width,
                    canvas@.height == old(canvas)@.height,
                    canvas@ == target,
                decreases abs_i(x1 as int - x0c as int) + abs_i(y1 as int - y0c as int),
            {
                proof {
                    lemma_sp_bres_unfold(
                        canvas@,
                        x0c as int,
                        y0c as int,
                        x1 as int,
                        y1 as int,
                        sx as int,
                        sy as int,
                        dx as int,
                        dy as int,
                        error as int,
                        b,
                    );
                }
                canvas.set_with_brightness((x0c, y0c), brightness);
                let e2 = 2 * error;

                if e2 >= dy {
                    if x0c == x1 {
                        break ;
                    }
                    error += dy;
                    x0c += sx;
                }

                if e2 <= dx {
                    if y0c == y1 {
                        break ;
                    }
                    error += dx;
                    y0c += sy;
                }
            }
        }
    }
}

/// The buffer produced by the fill pass of a rectangle: one horizontal line
/// from `(x0, y)` to `(x1, y)` per row `y` in `[y, y_end)`, each drawn as an
/// outline at brightness `b`.
pub open spec fn sp_rect_fill_rows(
    m: DisplayModel,
    x0: int,
    x1: int,
    y: int,
    y_end: int,
    b: usize,
) -> DisplayModel
    decreases y_end - y,
{
    if y >= y_end {
        m
    } else {
        sp_rect_fill_rows(line_rasterized(x0, y, x1, y, m, outline_only(b)), x0, x1, y + 1, y_end, b)
    }
}

/// One unfolding of `sp_rect_fill_rows`.
proof fn lemma_sp_rect_fill_rows_unfold(
    m: DisplayModel,
    x0: int,
    x1: int,
    y: int,
    y_end: int,
    b: usize,
)
    requires
        y < y_end,
    ensures
        sp_rect_fill_rows(m, x0, x1, y, y_end, b) == sp_rect_fill_rows(
            line_rasterized(x0, y, x1, y, m, outline_only(b)),
            x0,
            x1,
            y + 1,
            y_end,
            b,
        ),
{
}

/// The buffer produced by drawing the rectangle with corner `top_left` and
/// signed extent `dim` under `style`: the corner and extent are normalized
/// to a top-left/bottom-right pair; a zero extent along either axis draws
/// nothing at all; a present fill draws one horizontal line per interior
/// row; a distinguishable outline draws one dot for a 1x1 box, only the
/// spanning segment when exactly one side is 1 wide, and otherwise the top
/// and bottom edges always and the left and right edges only when the box
/// is more than 2 tall.
pub open spec fn rect_rasterized(
    top_left: (i32, i32),
    dim: (i32, i32),
    m: DisplayModel,
    style: Style,
) -> DisplayModel {
    let x = top_left.0 as int;
    let y = top_left.1 as int;
    let w = dim.0 as int;
    let h = dim.1 as int;
    let min_x = if x < x + w {
        x
    } else {
        x + w
    };
    let max_x = if x < x + w {
        x + w
    } else {
        x
    };
    let min_y = if y < y + h {
        y
    } else {
        y + h
    };
    let max_y = if y < y + h {
        y + h
    } else {
        y
    };
    let w2 = max_x - min_x;
    let h2 = max_y - min_y;
    if w2 == 0 || h2 == 0 {
        m
    } else {
        let m1 = match style.fill {
            Some(b) => sp_rect_fill_rows(m, min_x, max_x - 1, min_y, max_y, b),
            None => m,
        };
        match style.spec_distinguishable_outline() {
            None => m1,
            Some(ob) => {
                if w2 == 1 && h2 == 1 {
                    line_rasterized(min_x, min_y, min_x, min_y, m1, outline_only(ob))
                } else if w2 == 1 || h2 == 1 {
                    line_rasterized(min_x, min_y, max_x - 1, max_y - 1, m1, outline_only(ob))
                } else {
                    let mb = line_rasterized(min_x, min_y, max_x - 1, min_y, m1, outline_only(ob));
                    let mc = line_rasterized(
                        min_x,
                        max_y - 1,
                        max_x - 1,
                        max_y - 1,
                        mb,
                        outline_only(ob),
                    );
                    if h2 > 2 {
                        let md = line_rasterized(
                            min_x,
                            min_y + 1,
                            min_x,
                            max_y - 2,
                            mc,
                            outline_only(ob),
                        );
                        line_rasterized(
                            max_x - 1,
                            min_y + 1,
                            max_x - 1,
                            max_y - 2,
                            md,
                            outline_only(ob),
                        )
                    } else {
                        mc
                    }
                }
            },
        }
    }
}

/// An axis-aligned rectangle given by one corner and a signed extent.
pub struct Rect {
    pub top_left: (i32, i32),
    pub dim: (i32, i32),
}

impl Rect {
    #[inline]
    pub fn new(top_left: (i32, i32), dim: (i32, i32)) -> (r: Self)
        ensures
            r.top_left == top_left,
            r.dim == dim,
    {
        Self { top_left, dim }
    }
}

/// A rectangle whose extent is zero along either axis leaves the buffer
/// exactly unchanged, whatever the style.
pub proof fn lemma_rect_degenerate_unchanged(r: Rect, m: DisplayModel, style: Style)
    requires
        r.dim.0 == 0 || r.dim.1 == 0,
    ensures
        r.rasterized(m, style) == m,
{
}

impl Rasterize for Rect {
    open spec fn in_range(&self) -> bool {
        &&& -EXTENT_LIMIT <= self.top_left.0 <= EXTENT_LIMIT
        &&& -EXTENT_LIMIT <= self.top_left.1 <= EXTENT_LIMIT
        &&& -EXTENT_LIMIT <= self.dim.0 <= EXTENT_LIMIT
        &&& -EXTENT_LIMIT <= self.dim.1 <= EXTENT_LIMIT
    }

    open spec fn rasterized(&self, m: DisplayModel, style: Style) -> DisplayModel {
        rect_rasterized(self.top_left, self.dim, m, style)
    }

    fn rasterize_onto(&self, canvas: &mut Canvas, style: Style) {
        let (x, y) = self.top_left;
        let (w, h) = self.dim;
        let p1 = (x + w, y + h);

        let (min_x, max_x) = min_and_max(x, p1.0);
        let (min_y, max_y) = min_and_max(y, p1.1);

        // p0: top-left, p1: bottom-right
        let p0 = (min_x, min_y);
        let p1 = (max_x, max_y);

        let w = p1.0 - p0.0;
        let h = p1.1 - p0.1;

        // A zero extent along either axis draws nothing at all.
        if w == 0 || h == 0 {
            return ;
        }

        if let Some(brightness) = style.fill {
            let ghost target = sp_rect_fill_rows(
                canvas@,
                min_x as int,
                max_x as int - 1,
                min_y as int,
                max_y as int,
                brightness,
            );
            let mut yy = p0.1;
            while yy < p1.1
                invariant
                    canvas@.wf(),
                    canvas@.width == old(canvas)@.width,
                    canvas@.height == old(canvas)@.height,
                    min_y <= yy,
                    yy <= max_y || yy == min_y,
                    min_y == p0.1 && max_y == p1.1 && min_x == p0.0 && max_x == p1.0,
                    -EXTENT_LIMIT * 2 <= min_x <= EXTENT_LIMIT,
                    -EXTENT_LIMIT <= max_x <= EXTENT_LIMIT * 2,
                    -EXTENT_LIMIT * 2 <= yy <= EXTENT_LIMIT * 2,
                    -EXTENT_LIMIT * 2 <= max_y <= EXTENT_LIMIT * 2,
                    min_x <= max_x,
                    sp_rect_fill_rows(
                        canvas@,
                        min_x as int,
                        max_x as int - 1,
                        yy as int,
                        max_y as int,
                        brightness,
                    ) == target,
                decreases max_y as int - yy,
            {
                proof {
                    lemma_sp_rect_fill_rows_unfold(
                        canvas@,
                        min_x as int,
                        max_x as int - 1,
                        yy as int,
                        max_y as int,
                        brightness,
                    );
                }
                canvas.draw(
                    Line::new((p0.0, yy), (p1.0 - 1, yy)),
                    Style::outlined_with_brightness(brightness),
                );
                yy += 1;
            }
        }

        if let Some(brightness) = style.distinguishable_outline() {
            if w == 1 && h == 1 {
                canvas.draw(Line::new(p0, p0), Style::outlined_with_brightness(brightness));
                return ;
            }

            // A box exactly 1 wide or 1 tall is only its spanning segment,
            // up to the inclusive bottom-right corner.
            if w == 1 || h == 1 {
                canvas.draw(
                    Line::new(p0, (p1.0 - 1, p1.1 - 1)),
                    Style::outlined_with_brightness(brightness),
                );
                return ;
            }

            // draw top and bottom edges
            canvas.draw(
                Line::new(p0, (p1.0 - 1, p0.1)),
                Style::outlined_with_brightness(brightness),
            );
            canvas.draw(
                Line::new((p0.0, p1.1 - 1), (p1.0 - 1, p1.1 - 1)),
                Style::outlined_with_brightness(brightness),
            );

            if h > 2 {
                // draw left and right edges
                canvas.draw(
                    Line::new((p0.0, p0.1 + 1), (p0.0, p1.1 - 2)),
                    Style::outlined_with_brightness(brightness),
                );
                canvas.draw(
                    Line::new((p1.0 - 1, p0.1 + 1), (p1.0 - 1, p1.1 - 2)),
                    Style::outlined_with_brightness(brightness),
                );
            }
        }
    }
}

/// The buffer produced by one octant-pair step of the circle walk, for one
/// sign combination `(qx, qy)`: a present fill connects the diagonal point
/// of the octant pair to each of its two symmetric points by a straight
/// line; a distinguishable outline plots the two points themselves.
pub open spec fn sp_circle_quadrant(
    m: DisplayModel,
    cx: int,
    cy: int,
    x: int,
    y: int,
    qx: int,
    qy: int,
    style: Style,
) -> DisplayModel {
    let o1x = cx + qx * x;
    let o1y = cy + qy * y;
    let o2x = cx + qx * y;
    let o2y = cy + qy * x;
    let m1 = match style.fill {
        Some(b) => {
            let ma = line_rasterized(o2x, o1y, o1x, o1y, m, outline_only(b));
            line_rasterized(o2x, o1y, o2x, o2y, ma, outline_only(b))
        },
        None => m,
    };
    match style.spec_distinguishable_outline() {
        Some(b2) => sp_set_with_brightness(
            sp_set_with_brightness(m1, o1x, o1y, b2 as nat),
            o2x,
            o2y,
            b2 as nat,
        ),
        None => m1,
    }
}

/// The buffer produced by the midpoint circle walk from state `(x, y, t1)`:
/// while `x >= y`, apply the four sign combinations of one step, then
/// advance `y`, accumulate the threshold term and pull `x` in when it
/// crosses zero.
pub open spec fn sp_circle_steps(
    m: DisplayModel,
    cx: int,
    cy: int,
    x: int,
    y: int,
    t1: int,
    style: Style,
) -> DisplayModel
    decreases x - y + 2,
{
    if x < y {
        m
    } else {
        let m1 = sp_circle_quadrant(m, cx, cy, x, y, -1, -1, style);
        let m2 = sp_circle_quadrant(m1, cx, cy, x, y, -1, 1, style);
        let m3 = sp_circle_quadrant(m2, cx, cy, x, y, 1, -1, style);
        let m4 = sp_circle_quadrant(m3, cx, cy, x, y, 1, 1, style);
        let y2 = y + 1;
        let t1b = t1 + y2;
        let t2 = t1b - x;
        if t2 >= 0 {
            sp_circle_steps(m4, cx, cy, x - 1, y2, t2, style)
        } else {
            sp_circle_steps(m4, cx, cy, x, y2, t1b, style)
        }
    }
}

/// One unfolding of `sp_circle_steps` for a running state.
proof fn lemma_sp_circle_steps_unfold(
    m: DisplayModel,
    cx: int,
    cy: int,
    x: int,
    y: int,
    t1: int,
    style: Style,
)
    requires
        x >= y,
    ensures
        ({
            let m1 = sp_circle_quadrant(m, cx, cy, x, y, -1, -1, style);
            let m2 = sp_circle_quadrant(m1, cx, cy, x, y, -1, 1, style);
            let m3 = sp_circle_quadrant(m2, cx, cy, x, y, 1, -1, style);
            let m4 = sp_circle_quadrant(m3, cx, cy, x, y, 1, 1, style);
            let y2 = y + 1;
            let t1b = t1 + y2;
            let t2 = t1b - x;
            sp_circle_steps(m, cx, cy, x, y, t1, style) == (if t2 >= 0 {
                sp_circle_steps(m4, cx, cy, x - 1, y2, t2, style)
            } else {
                sp_circle_steps(m4, cx, cy, x, y2, t1b, style)
            })
        }),
{
}

/// A circle given by its center and radius.
pub struct Circle {
    pub center: (i32, i32),
    pub radius: i32,
}

impl Circle {
    #[inline]
    pub fn new(center: (i32, i32), radius: i32) -> (r: Self)
        ensures
            r.center == center,
            r.radius == radius,
    {
        Self { center, radius }
    }
}

/// One octant-pair step of the circle walk for one sign combination.
fn circle_quadrant(canvas: &mut Canvas, cx: i32, cy: i32, x: i32, y: i32, qx: i32, qy: i32, style: Style)
    requires
        old(canvas)@.wf(),
        qx == 1 || qx == -1,
        qy == 1 || qy == -1,
        0 <= y <= x,
        x <= EXTENT_LIMIT,
        -EXTENT_LIMIT <= cx <= EXTENT_LIMIT,
        -EXTENT_LIMIT <= cy <= EXTENT_LIMIT,
    ensures
        final(canvas)@ == sp_circle_quadrant(
            old(canvas)@,
            cx as int,
            cy as int,
            x as int,
            y as int,
            qx as int,
            qy as int,
            style,
        ),
        final(canvas)@.wf(),
        final(canvas)@.width == old(canvas)@.width,
        final(canvas)@.height == old(canvas)@.height,
{
    proof {
        assert(qx as int * x as int == if qx == 1 {
            x as int
        } else {
            -x as int
        }) by (nonlinear_arith)
            requires
                qx == 1 || qx == -1,
        ;
        assert(qy as int * y as int == if qy == 1 {
            y as int
        } else {
            -y as int
        }) by (nonlinear_arith)
            requires
                qy == 1 || qy == -1,
        ;
        assert(qx as int * y as int == if qx == 1 {
            y as int
        } else {
            -y as int
        }) by (nonlinear_arith)
            requires
                qx == 1 || qx == -1,
        ;
        assert(qy as int * x as int == if qy == 1 {
            x as int
        } else {
            -x as int
        }) by (nonlinear_arith)
            requires
                qy == 1 || qy == -1,
        ;
    }
    let o1 = (cx + qx * x, cy + qy * y);
    let o2 = (cx + qx * y, cy + qy * x);

    if let Some(brightness) = style.fill {
        // Draw a line from the diagonal to the point on each octant.
        let d = (o2.0, o1.1);
        canvas.draw(Line::new(d, o1), Style::outlined_with_brightness(brightness));
        canvas.draw(Line::new(d, o2), Style::outlined_with_brightness(brightness));
    }

    if let Some(brightness) = style.distinguishable_outline() {
        canvas.set_with_brightness(o1, brightness);
        canvas.set_with_brightness(o2, brightness);
    }
}

impl Rasterize for Circle {
    open spec fn in_range(&self) -> bool {
        &&& -EXTENT_LIMIT <= self.center.0 <= EXTENT_LIMIT
        &&& -EXTENT_LIMIT <= self.center.1 <= EXTENT_LIMIT
        &&& -EXTENT_LIMIT <= self.radius <= EXTENT_LIMIT
    }

    open spec fn rasterized(&self, m: DisplayModel, style: Style) -> DisplayModel {
        sp_circle_steps(
            m,
            self.center.0 as int,
            self.center.1 as int,
            self.radius as int,
            0,
            self.radius as int / 16,
            style,
        )
    }

    fn rasterize_onto(&self, canvas: &mut Canvas, style: Style) {
        // Integer midpoint circle walk over one octant, mirrored into all
        // eight by the sign combinations.
        let (cx, cy) = self.center;
        let r0 = self.radius;
        let mut x = r0;
        let mut y: i32 = 0;
        let mut t1 = x / 16;

        let ghost target = sp_circle_steps(
            canvas@,
            cx as int,
            cy as int,
            x as int,
            y as int,
            t1 as int,
            style,
        );
        proof {
            if r0 >= 0 {
                assert(t1 == r0 as int / 16);
            } else {
                // Neither walk makes a step, whatever the threshold term is.
                assert(sp_circle_steps(canvas@, cx as int, cy as int, r0 as int, 0, t1 as int, style)
                    == canvas@);
                assert(sp_circle_steps(
                    canvas@,
                    cx as int,
                    cy as int,
                    r0 as int,
                    0,
                    r0 as int / 16,
                    style,
                ) == canvas@);
            }
        }

        while x >= y
            invariant
                canvas@.wf(),
                canvas@.width == old(canvas)@.width,
                canvas@.height == old(canvas)@.height,
                -EXTENT_LIMIT <= cx <= EXTENT_LIMIT,
                -EXTENT_LIMIT <= cy <= EXTENT_LIMIT,
                -EXTENT_LIMIT <= r0 <= EXTENT_LIMIT,
                0 <= y,
                x <= r0,
                y == 0 || y <= r0 + 1,
                x >= y ==> 0 <= t1 <= x + 2 * y + 2,
                sp_circle_steps(canvas@, cx as int, cy as int, x as int, y as int, t1 as int, style)
                    == target,
            decreases x as int - y as int + 2,
        {
            proof {
                lemma_sp_circle_steps_unfold(
                    canvas@,
                    cx as int,
                    cy as int,
                    x as int,
                    y as int,
                    t1 as int,
                    style,
                );
            }
            circle_quadrant(canvas, cx, cy, x, y, -1, -1, style);
            circle_quadrant(canvas, cx, cy, x, y, -1, 1, style);
            circle_quadrant(canvas, cx, cy, x, y, 1, -1, style);
            circle_quadrant(canvas, cx, cy, x, y, 1, 1, style);

            y += 1;
            t1 += y;
            let t2 = t1 - x;
            if t2 >= 0 {
                t1 = t2;
                x -= 1;
            }
        }
    }
}

/// A triangle given by its three corner points.
pub struct Tri {
    pub p0: (i32, i32),
    pub p1: (i32, i32),
    pub p2: (i32, i32),
}

impl Tri {
    #[inline]
    pub fn new(p0: (i32, i32), p1: (i32, i32), p2: (i32, i32)) -> (r: Self)
        ensures
            r.p0 == p0,
            r.p1 == p1,
            r.p2 == p2,
    {
        Self { p0, p1, p2 }
    }
}

impl Rasterize for Tri {
    open spec fn in_range(&self) -> bool {
        &&& -COORD_LIMIT <= self.p0.0 <= COORD_LIMIT
        &&& -COORD_LIMIT <= self.p0.1 <= COORD_LIMIT
        &&& -COORD_LIMIT <= self.p1.0 <= COORD_LIMIT
        &&& -COORD_LIMIT <= self.p1.1 <= COORD_LIMIT
        &&& -COORD_LIMIT <= self.p2.0 <= COORD_LIMIT
        &&& -COORD_LIMIT <= self.p2.1 <= COORD_LIMIT
    }

    open spec fn rasterized(&self, m: DisplayModel, style: Style) -> DisplayModel {
        match style.outline {
            None => m,
            Some(b) => {
                let ma = line_rasterized(
                    self.p0.0 as int,
                    self.p0.1 as int,
                    self.p1.0 as int,
                    self.p1.1 as int,
                    m,
                    outline_only(b),
                );
                let mb = line_rasterized(
                    self.p1.0 as int,
                    self.p1.1 as int,
                    self.p2.0 as int,
                    self.p2.1 as int,
                    ma,
                    outline_only(b),
                );
                line_rasterized(
                    self.p2.0 as int,
                    self.p2.1 as int,
                    self.p0.0 as int,
                    self.p0.1 as int,
                    mb,
                    outline_only(b),
                )
            },
        }
    }

    fn rasterize_onto(&self, canvas: &mut Canvas, style: Style) {
        // A triangle draws only its three edges; fill is not supported.
        if let Some(brightness) = style.outline {
            canvas.draw(
                Line::new(self.p0, self.p1),
                Style::outlined_with_brightness(brightness),
            );
            canvas.draw(
                Line::new(self.p1, self.p2),
                Style::outlined_with_brightness(brightness),
            );
            canvas.draw(
                Line::new(self.p2, self.p0),
                Style::outlined_with_brightness(brightness),
            );
        }
    }
}

} // verus!
