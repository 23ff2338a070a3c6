//! Barycentric weights of a point in a triangle, the half-way move towards a
//! vertex, and the pixel a point falls on.
use vstd::prelude::*;
use crate::canvas::{Canvas, canvas_pixels, canvas_size, foreground};
use crate::geometry::{Triangle, UNITS_PER_PIXEL, is_equilateral};

verus! {

/// The total of the three weights of a point: weights are fractions of it.
pub const WEIGHT_TOTAL: u64 = 4294967296;

/// A point of a triangle as the weights of its three vertices, in parts of
/// `WEIGHT_TOTAL`: the point `(wa * a + wb * b + wc * c) / WEIGHT_TOTAL`.
#[derive(Clone, Copy, Debug, PartialEq, Eq, Structural)]
pub struct Barycentric {
    pub wa: u64,
    pub wb: u64,
    pub wc: u64,
}

/// A pixel that lies outside the canvas it was meant for.
#[derive(Clone, Copy, Debug, PartialEq, Eq, Structural)]
pub struct OutOfBoundsError;

impl Barycentric {
    /// The weights describe a point of the triangle: they add up to the total.
    pub open spec fn wf(self) -> bool {
        self.wa + self.wb + self.wc == WEIGHT_TOTAL
    }

    /// The point half-way from `self` towards vertex `k` (0 for `a`, 1 for
    /// `b`, 2 for `c`): the two other weights are halved, rounding down, and
    /// vertex `k` takes what is left of the total.
    pub open spec fn spec_toward(self, k: int) -> Barycentric {
        if k == 0 {
            Barycentric {
                wa: (WEIGHT_TOTAL - self.wb / 2 - self.wc / 2) as u64,
                wb: self.wb / 2,
                wc: self.wc / 2,
            }
        } else if k == 1 {
            Barycentric {
                wa: self.wa / 2,
                wb: (WEIGHT_TOTAL - self.wa / 2 - self.wc / 2) as u64,
                wc: self.wc / 2,
            }
        } else {
            Barycentric {
                wa: self.wa / 2,
                wb: self.wb / 2,
                wc: (WEIGHT_TOTAL - self.wa / 2 - self.wb / 2) as u64,
            }
        }
    }

    /// The point `a + u * (b - a) + v * (c - a)`, with `u` and `v` the
    /// fractions `r1` and `r2` of the total.
    pub open spec fn spec_from_draws(r1: int, r2: int) -> Barycentric {
        Barycentric { wa: (WEIGHT_TOTAL - r1 - r2) as u64, wb: r1 as u64, wc: r2 as u64 }
    }

    /// The point `a + u * (b - a) + v * (c - a)` of the triangle, where `u`
    /// is `r1` and `v` is `r2` parts of `WEIGHT_TOTAL`.
    pub fn from_draws(r1: u64, r2: u64) -> (r: Barycentric)
        requires
            r1 <= WEIGHT_TOTAL,
            r2 <= WEIGHT_TOTAL - r1,
        ensures
            r == Barycentric::spec_from_draws(r1 as int, r2 as int),
            r.wf(),
    {
        Barycentric { wa: WEIGHT_TOTAL - r1 - r2, wb: r1, wc: r2 }
    }

    /// The point half-way towards vertex `k`.
    pub fn toward(self, k: u8) -> (r: Barycentric)
        requires
            self.wf(),
            k < 3,
        ensures
            r == self.spec_toward(k as int),
            r.wf(),
    {
        if k == 0 {
            Barycentric { wa: WEIGHT_TOTAL - self.wb / 2 - self.wc / 2, wb: self.wb / 2, wc: self.wc / 2 }
        } else if k == 1 {
            Barycentric { wa: self.wa / 2, wb: WEIGHT_TOTAL - self.wa / 2 - self.wc / 2, wc: self.wc / 2 }
        } else {
            Barycentric { wa: self.wa / 2, wb: self.wb / 2, wc: WEIGHT_TOTAL - self.wa / 2 - self.wb / 2 }
        }
    }
}

/// `p` lies outside the open triangle whose corners are the midpoints of the
/// edges: some vertex has at least half of the weight.
pub open spec fn outside_center(p: Barycentric) -> bool {
    2 * p.wa >= WEIGHT_TOTAL || 2 * p.wb >= WEIGHT_TOTAL || 2 * p.wc >= WEIGHT_TOTAL
}

/// A half-way move towards a vertex leaves that vertex at least half of the
/// weight, so the point reached is outside the central triangle.
pub proof fn lemma_toward_outside_center(p: Barycentric, k: int)
    requires
        p.wf(),
        0 <= k < 3,
    ensures
        outside_center(p.spec_toward(k)),
{
}

/// The units in one pixel times the weight total: the divisor from a weighted
/// coordinate to a pixel index.
pub open spec fn pixel_divisor() -> int {
    WEIGHT_TOTAL * UNITS_PER_PIXEL
}

/// `WEIGHT_TOTAL` times the x coordinate of `p`, in units.
pub open spec fn weighted_x(t: Triangle, p: Barycentric) -> int {
    p.wa * t.a.x + p.wb * t.b.x + p.wc * t.c.x
}

/// `WEIGHT_TOTAL` times the y coordinate of `p`, in units.
pub open spec fn weighted_y(t: Triangle, p: Barycentric) -> int {
    p.wa * t.a.y + p.wb * t.b.y + p.wc * t.c.y
}

/// The pixel that point `p` falls on: each coordinate in pixels, rounded
/// down.
pub open spec fn pixel_of(t: Triangle, p: Barycentric) -> (int, int) {
    (weighted_x(t, p) / pixel_divisor(), weighted_y(t, p) / pixel_divisor())
}

/// The pixel of `p` lies on a `width` by `height` canvas.
pub open spec fn lands_in(t: Triangle, p: Barycentric, width: u32, height: u32) -> bool {
    let q = pixel_of(t, p);
    0 <= q.0 < width && 0 <= q.1 < height
}

/// The pixel of `p`, as canvas indices.
pub open spec fn pixel_index(t: Triangle, p: Barycentric) -> (u32, u32) {
    (pixel_of(t, p).0 as u32, pixel_of(t, p).1 as u32)
}

/// The outcome of plotting point `p` of `t` onto canvas `before`, giving
/// `after` and the result `r`: the pixel is marked and returned when it lies
/// on the canvas; otherwise the canvas is kept and the pixel is reported out
/// of bounds.
pub open spec fn plotted(
    before: Canvas,
    after: Canvas,
    t: Triangle,
    p: Barycentric,
    r: Result<(u32, u32), OutOfBoundsError>,
) -> bool {
    &&& canvas_size(after) == canvas_size(before)
    &&& r is Ok <==> lands_in(t, p, canvas_size(before).0, canvas_size(before).1)
    &&& r is Ok ==> r->Ok_0 == pixel_index(t, p) && canvas_pixels(after) == canvas_pixels(
        before,
    ).insert(r->Ok_0, foreground())
    &&& r is Err ==> canvas_pixels(after) == canvas_pixels(before)
}

/// The point `(x, y) / WEIGHT_TOTAL` lies in the convex hull of the
/// triangle's vertices: it is a combination of them with weights that are
/// not negative and add up to one.
pub open spec fn in_hull(t: Triangle, x: int, y: int) -> bool {
    exists|wa: int, wb: int, wc: int|
        #![trigger wa * t.a.x + wb * t.b.x + wc * t.c.x, wa * t.a.y + wb * t.b.y + wc * t.c.y]
        0 <= wa && 0 <= wb && 0 <= wc && wa + wb + wc == WEIGHT_TOTAL && x == wa * t.a.x + wb * t.b.x
            + wc * t.c.x && y == wa * t.a.y + wb * t.b.y + wc * t.c.y
}

/// A point with weights that add up to the total lies in the triangle.
pub proof fn lemma_in_hull(t: Triangle, p: Barycentric)
    requires
        p.wf(),
    ensures
        in_hull(t, weighted_x(t, p), weighted_y(t, p)),
{
    let (wa, wb, wc) = (p.wa as int, p.wb as int, p.wc as int);
    assert(weighted_x(t, p) == wa * t.a.x + wb * t.b.x + wc * t.c.x);
    assert(weighted_y(t, p) == wa * t.a.y + wb * t.b.y + wc * t.c.y);
}

/// Every vertex of `t` lies in the box from the origin to `(right, top)`
/// pixels.
pub open spec fn in_box(t: Triangle, right: int, top: int) -> bool {
    &&& 0 <= t.a.x <= right * UNITS_PER_PIXEL && 0 <= t.a.y <= top * UNITS_PER_PIXEL
    &&& 0 <= t.b.x <= right * UNITS_PER_PIXEL && 0 <= t.b.y <= top * UNITS_PER_PIXEL
    &&& 0 <= t.c.x <= right * UNITS_PER_PIXEL && 0 <= t.c.y <= top * UNITS_PER_PIXEL
}

/// A weighted coordinate of a point of the triangle, between zero and
/// `WEIGHT_TOTAL` times `bound` when each vertex coordinate lies between zero
/// and `bound`.
proof fn lemma_weighted_between(p: Barycentric, va: int, vb: int, vc: int, bound: int)
    requires
        p.wf(),
        0 <= va <= bound,
        0 <= vb <= bound,
        0 <= vc <= bound,
    ensures
        0 <= p.wa * va + p.wb * vb + p.wc * vc <= WEIGHT_TOTAL * bound,
{
    let (wa, wb, wc) = (p.wa as int, p.wb as int, p.wc as int);
    assert(0 <= wa * va <= wa * bound) by (nonlinear_arith)
        requires 0 <= wa, 0 <= va <= bound;
    assert(0 <= wb * vb <= wb * bound) by (nonlinear_arith)
        requires 0 <= wb, 0 <= vb <= bound;
    assert(0 <= wc * vc <= wc * bound) by (nonlinear_arith)
        requires 0 <= wc, 0 <= vc <= bound;
    assert(wa * bound + wb * bound + wc * bound == (wa + wb + wc) * bound) by (nonlinear_arith);
}

/// `x / pixel_divisor()` lies between zero and `n` when `x` lies between zero
/// and `n` times the divisor.
proof fn lemma_pixel_between(x: int, n: int)
    requires
        0 <= x <= pixel_divisor() * n,
    ensures
        0 <= x / pixel_divisor() <= n,
{
    let d = pixel_divisor();
    vstd::arithmetic::div_mod::lemma_fundamental_div_mod(x, d);
    let q = x / d;
    let r = x % d;
    assert(0 <= q <= n) by (nonlinear_arith)
        requires x == d * q + r, 0 <= r < d, 0 <= x <= d * n, d > 0;
}

/// When the triangle lies in the box from the origin to `(right, top)`
/// pixels, so does the pixel of each of its points; when the box is also
/// inside the canvas, that pixel is never out of bounds.
pub proof fn lemma_pixel_in_box(t: Triangle, p: Barycentric, right: int, top: int, width: u32, height: u32)
    requires
        p.wf(),
        in_box(t, right, top),
    ensures
        0 <= pixel_of(t, p).0 <= right,
        0 <= pixel_of(t, p).1 <= top,
        right < width && top < height ==> lands_in(t, p, width, height),
{
    lemma_weighted_between(p, t.a.x as int, t.b.x as int, t.c.x as int, right * UNITS_PER_PIXEL);
    lemma_weighted_between(p, t.a.y as int, t.b.y as int, t.c.y as int, top * UNITS_PER_PIXEL);
    assert(WEIGHT_TOTAL * (right * UNITS_PER_PIXEL) == pixel_divisor() * right) by (nonlinear_arith);
    assert(WEIGHT_TOTAL * (top * UNITS_PER_PIXEL) == pixel_divisor() * top) by (nonlinear_arith);
    lemma_pixel_between(weighted_x(t, p), right);
    lemma_pixel_between(weighted_y(t, p), top);
}

/// The equilateral triangle of side `length` pixels lies in the square box
/// of that side, so each of its points falls on a pixel in that box.
pub proof fn lemma_equilateral_in_box(t: Triangle, length: int)
    requires
        length >= 0,
        is_equilateral(t, length),
    ensures
        in_box(t, length, length),
{
    let s = length * UNITS_PER_PIXEL;
    let h = t.c.y as int;
    assert(h <= s) by (nonlinear_arith)
        requires 4 * (h * h) <= 3 * (s * s), 0 <= h, 0 <= s;
}

/// `w * v` for a weight and a vertex coordinate, within 2^92 of zero.
proof fn lemma_weighted_term(w: u64, v: i64)
    requires
        w <= WEIGHT_TOTAL,
        -0x1000_0000_0000_0000 <= v <= 0x1000_0000_0000_0000,
    ensures
        -0x1000_0000_0000_0000_0000_0000 <= w * v <= 0x1000_0000_0000_0000_0000_0000,
{
    assert(-0x1000_0000_0000_0000_0000_0000 <= w * v <= 0x1000_0000_0000_0000_0000_0000) by (nonlinear_arith)
        requires
            0 <= w <= 0x1_0000_0000,
            -0x1000_0000_0000_0000 <= v <= 0x1000_0000_0000_0000;
}

/// The pixel index of a weighted coordinate, or `None` when it is below zero
/// or not below `limit`.
fn pixel_coordinate(weighted: i128, limit: u32) -> (r: Option<u32>)
    ensures
        r is Some <==> 0 <= weighted as int / pixel_divisor() < limit,
        r is Some ==> r->Some_0 == weighted as int / pixel_divisor(),
{
    if weighted < 0 {
        proof {
            let d = pixel_divisor();
            vstd::arithmetic::div_mod::lemma_fundamental_div_mod(weighted as int, d);
            let q = weighted as int / d;
            if q >= 0 {
                assert(d * q >= 0) by (nonlinear_arith)
                    requires d > 0, q >= 0;
            }
        }
        return None;
    }
    let q: u128 = weighted as u128 / 4398046511104;
    if q < limit as u128 {
        Some(q as u32)
    } else {
        None
    }
}

/// Marks the pixel of point `p` with the foreground colour, or leaves the
/// canvas as it is and reports the pixel out of bounds when it falls outside.
pub fn plot(canvas: &mut Canvas, t: &Triangle, p: Barycentric) -> (r: Result<(u32, u32), OutOfBoundsError>)
    requires
        t.wf(),
        p.wf(),
    ensures
        plotted(*old(canvas), *final(canvas), *t, p, r),
{
    proof {
        lemma_weighted_term(p.wa, t.a.x);
        lemma_weighted_term(p.wb, t.b.x);
        lemma_weighted_term(p.wc, t.c.x);
        lemma_weighted_term(p.wa, t.a.y);
        lemma_weighted_term(p.wb, t.b.y);
        lemma_weighted_term(p.wc, t.c.y);
    }
    let x: i128 = p.wa as i128 * t.a.x as i128 + p.wb as i128 * t.b.x as i128 + p.wc as i128 * t.c.x as i128;
    let y: i128 = p.wa as i128 * t.a.y as i128 + p.wb as i128 * t.b.y as i128 + p.wc as i128 * t.c.y as i128;
    let (width, height) = canvas.image_dimensions();
    match (pixel_coordinate(x, width), pixel_coordinate(y, height)) {
        (Some(px), Some(py)) => {
            canvas.put_foreground(px, py);
            Ok((px, py))
        },
        _ => Err(OutOfBoundsError),
    }
}

} // verus!
