//! Points, triangles and the equilateral triangle of a given side.
use vstd::prelude::*;

verus! {

/// Sub-pixel units in one pixel along each axis.
pub const UNITS_PER_PIXEL: i64 = 1024;

/// Bound on the absolute value of a vertex coordinate, in units, so that
/// every product the geometry forms fits in 128 bits.
pub const COORD_LIMIT: i64 = 1152921504606846976;

/// A point of the plane, in sub-pixel units.
#[derive(Clone, Copy, Debug, PartialEq, Eq, Structural)]
pub struct Point {
    pub x: i64,
    pub y: i64,
}

pub open spec fn in_i64(v: int) -> bool {
    i64::MIN <= v <= i64::MAX
}

pub open spec fn coord_ok(v: i64) -> bool {
    -COORD_LIMIT <= v <= COORD_LIMIT
}

impl Point {
    pub open spec fn within_limits(self) -> bool {
        coord_ok(self.x) && coord_ok(self.y)
    }

    /// The point with the given coordinates.
    pub fn new(x: i64, y: i64) -> (r: Point)
        ensures
            r.x == x,
            r.y == y,
    {
        Point { x, y }
    }

    /// Component-wise sum.
    pub fn add(self, other: Point) -> (r: Point)
        requires
            in_i64(self.x + other.x),
            in_i64(self.y + other.y),
        ensures
            r.x == self.x + other.x,
            r.y == self.y + other.y,
    {
        Point { x: self.x + other.x, y: self.y + other.y }
    }

    /// Component-wise difference.
    pub fn sub(self, other: Point) -> (r: Point)
        requires
            in_i64(self.x - other.x),
            in_i64(self.y - other.y),
        ensures
            r.x == self.x - other.x,
            r.y == self.y - other.y,
    {
        Point { x: self.x - other.x, y: self.y - other.y }
    }

    /// Both coordinates scaled by `k`.
    pub fn mul(self, k: i64) -> (r: Point)
        requires
            in_i64(self.x * k),
            in_i64(self.y * k),
        ensures
            r.x == self.x * k,
            r.y == self.y * k,
    {
        Point { x: self.x * k, y: self.y * k }
    }
}

impl From<(i64, i64)> for Point {
    fn from(value: (i64, i64)) -> (r: Point) {
        Point { x: value.0, y: value.1 }
    }
}

impl vstd::std_specs::convert::FromSpecImpl<(i64, i64)> for Point {
    open spec fn obeys_from_spec() -> bool {
        true
    }

    open spec fn from_spec(v: (i64, i64)) -> Point {
        Point { x: v.0, y: v.1 }
    }
}

/// Twice the signed area of the triangle `a b c`: zero exactly when the three
/// points are collinear.
pub open spec fn cross(a: Point, b: Point, c: Point) -> int {
    (b.x - a.x) * (c.y - a.y) - (b.y - a.y) * (c.x - a.x)
}

/// The three points do not lie on one line.
pub open spec fn non_degenerate(a: Point, b: Point, c: Point) -> bool {
    cross(a, b, c) != 0
}

/// The three points of a triangle are collinear, or two of them coincide.
#[derive(Clone, Copy, Debug, PartialEq, Eq, Structural)]
pub struct DegenerateGeometryError;

/// A triangle of the plane.
#[derive(Clone, Copy, Debug, PartialEq, Eq, Structural)]
pub struct Triangle {
    pub a: Point,
    pub b: Point,
    pub c: Point,
}

/// The height of an equilateral triangle of side `s`, rounded down: the
/// largest `h` with `(2h)^2 <= 3 s^2`.
pub open spec fn is_equilateral_height(s: int, h: int) -> bool {
    0 <= h && 4 * (h * h) <= 3 * (s * s) && 3 * (s * s) < 4 * ((h + 1) * (h + 1))
}

/// The largest `h` with `4 h^2 <= 3 s^2`.
fn equilateral_height(s: u64) -> (h: u64)
    requires
        s <= 0x400_0000_0000,
    ensures
        is_equilateral_height(s as int, h as int),
{
    assert(s * s <= 0x400_0000_0000 * 0x400_0000_0000) by (nonlinear_arith)
        requires s <= 0x400_0000_0000;
    let target: u128 = 3 * ((s as u128) * (s as u128));
    let mut lo: u64 = 0;
    let mut hi: u64 = s + 1;
    proof {
        assert(4 * ((s + 1) * (s + 1)) > 3 * (s * s)) by (nonlinear_arith);
    }
    while hi - lo > 1
        invariant
            lo < hi <= s + 1,
            s <= 0x400_0000_0000,
            target == 3 * (s * s),
            4 * (lo * lo) <= target,
            target < 4 * (hi * hi),
        decreases hi - lo,
    {
        let mid: u64 = lo + (hi - lo) / 2;
        assert(mid * mid <= 0x400_0000_0001 * 0x400_0000_0001) by (nonlinear_arith)
            requires mid <= 0x400_0000_0001;
        if 4 * ((mid as u128) * (mid as u128)) <= target {
            lo = mid;
        } else {
            hi = mid;
        }
    }
    lo
}

/// `t` is the equilateral triangle of side `length` pixels that
/// `Triangle::new` builds.
pub open spec fn is_equilateral(t: Triangle, length: int) -> bool {
    let s = length * UNITS_PER_PIXEL;
    &&& t.a == Point { x: 0, y: 0 }
    &&& t.b.x == s && t.b.y == 0
    &&& t.c.x == s / 2
    &&& is_equilateral_height(s, t.c.y as int)
}

impl Triangle {
    pub open spec fn within_limits(self) -> bool {
        self.a.within_limits() && self.b.within_limits() && self.c.within_limits()
    }

    /// A triangle that the chaos game can run on.
    pub open spec fn wf(self) -> bool {
        self.within_limits() && non_degenerate(self.a, self.b, self.c)
    }

    /// The triangle `a b c`, or an error when the three points are collinear.
    pub fn from_points(a: Point, b: Point, c: Point) -> (r: Result<Triangle, DegenerateGeometryError>)
        requires
            a.within_limits(),
            b.within_limits(),
            c.within_limits(),
        ensures
            r is Ok <==> non_degenerate(a, b, c),
            r is Ok ==> r->Ok_0 == (Triangle { a, b, c }) && r->Ok_0.wf(),
    {
        let dxb = b.x as i128 - a.x as i128;
        let dyb = b.y as i128 - a.y as i128;
        let dxc = c.x as i128 - a.x as i128;
        let dyc = c.y as i128 - a.y as i128;
        proof {
            lemma_small_product(dxb as int, dyc as int);
            lemma_small_product(dyb as int, dxc as int);
        }
        if dxb * dyc - dyb * dxc == 0 {
            Err(DegenerateGeometryError)
        } else {
            Ok(Triangle { a, b, c })
        }
    }

    /// The triangle of the three coordinate pairs, or an error when they are
    /// collinear.
    pub fn from_tuples(a: (i64, i64), b: (i64, i64), c: (i64, i64)) -> (r: Result<Triangle, DegenerateGeometryError>)
        requires
            coord_ok(a.0) && coord_ok(a.1),
            coord_ok(b.0) && coord_ok(b.1),
            coord_ok(c.0) && coord_ok(c.1),
        ensures
            ({
                let (pa, pb, pc) = (Point { x: a.0, y: a.1 }, Point { x: b.0, y: b.1 }, Point { x: c.0, y: c.1 });
                &&& r is Ok <==> non_degenerate(pa, pb, pc)
                &&& r is Ok ==> r->Ok_0 == (Triangle { a: pa, b: pb, c: pc }) && r->Ok_0.wf()
            }),
    {
        Triangle::from_points(Point::from(a), Point::from(b), Point::from(c))
    }

    /// The equilateral triangle of side `length` pixels, standing on the x
    /// axis with its first vertex at the origin: vertices `(0, 0)`,
    /// `(s, 0)` and `(s / 2, h)` in units, where `s` is the side in units and
    /// `h` the height `s * sqrt(3) / 2` rounded down. A side of zero has no
    /// triangle.
    pub fn new(length: u32) -> (r: Result<Triangle, DegenerateGeometryError>)
        ensures
            r is Ok <==> length > 0,
            r is Ok ==> r->Ok_0.wf() && is_equilateral(r->Ok_0, length as int),
    {
        if length == 0 {
            return Err(DegenerateGeometryError);
        }
        let s: u64 = length as u64 * 1024;
        let h = equilateral_height(s);
        proof {
            let si = s as int;
            assert(si * si >= si) by (nonlinear_arith)
                requires si >= 1;
            if h == 0 {
                assert(false);
            }
            assert(h <= s) by (nonlinear_arith)
                requires 4 * (h * h) <= 3 * (s * s), h >= 0, s >= 0;
            assert(s * h > 0) by (nonlinear_arith)
                requires s >= 1, h >= 1;
        }
        let a = Point::new(0, 0);
        let b = Point::new(s as i64, 0);
        let c = Point::new((s / 2) as i64, h as i64);
        let r = Triangle::from_points(a, b, c);
        assert(r is Ok);
        r
    }
}

proof fn lemma_small_product(u: int, v: int)
    requires
        -0x4000_0000_0000_0000 <= u <= 0x4000_0000_0000_0000,
        -0x4000_0000_0000_0000 <= v <= 0x4000_0000_0000_0000,
    ensures
        -0x1000_0000_0000_0000_0000_0000_0000_0000 <= u * v <= 0x1000_0000_0000_0000_0000_0000_0000_0000,
{
    assert(-0x1000_0000_0000_0000_0000_0000_0000_0000 <= u * v <= 0x1000_0000_0000_0000_0000_0000_0000_0000) by (nonlinear_arith)
        requires
            -0x4000_0000_0000_0000 <= u <= 0x4000_0000_0000_0000,
            -0x4000_0000_0000_0000 <= v <= 0x4000_0000_0000_0000;
}

} // verus!
