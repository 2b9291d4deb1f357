//! Fixed-point scalars, points, path elements and affine transforms.

use vstd::prelude::*;

verus! {

/// The number one as a fixed-point scalar; a scalar `v` stands for `v / ONE`.
pub const ONE: i32 = 65536;

/// The nearest value to `v` that a scalar can hold.
pub open spec fn clamp(v: int) -> int {
    if v < i32::MIN as int {
        i32::MIN as int
    } else if v > i32::MAX as int {
        i32::MAX as int
    } else {
        v
    }
}

/// The fixed-point value of `a * b + c * d + t`: the exact sum of the two
/// products, rounded down to a multiple of 1/65536, plus `t`, saturated.
pub open spec fn fx_mul_add(a: int, b: int, c: int, d: int, t: int) -> int {
    clamp((a * b + c * d) / (ONE as int) + t)
}

/// The saturated sum of two scalars.
pub open spec fn fx_add(a: int, b: int) -> int {
    clamp(a + b)
}

/// The saturated difference of two scalars.
pub open spec fn fx_sub(a: int, b: int) -> int {
    clamp(a - b)
}

/// The scalar that stands for the whole number `n`.
pub open spec fn fx_whole(n: int) -> int {
    n * (ONE as int)
}

/// Brings a wide intermediate value back into the range of a scalar.
pub fn saturate(v: i128) -> (r: i32)
    ensures
        r as int == clamp(v as int),
{
    if v < -2147483648 {
        i32::MIN
    } else if v > 2147483647 {
        i32::MAX
    } else {
        v as i32
    }
}

/// `n / ONE`, rounded towards minus infinity.
fn floor_to_units(n: i128) -> (q: i128)
    requires
        -0x8000_0000_0000_0000_0000 <= n <= 0x8000_0000_0000_0000_0000,
    ensures
        q as int == (n as int) / (ONE as int),
{
    if n >= 0 {
        n / 65536
    } else {
        let m: i128 = -(n + 1);
        -(m / 65536) - 1
    }
}

proof fn lemma_product_bound(a: int, b: int)
    requires
        -0x8000_0000 <= a <= 0x7fff_ffff,
        -0x8000_0000 <= b <= 0x7fff_ffff,
    ensures
        -0x4000_0000_0000_0000 <= a * b <= 0x4000_0000_0000_0000,
{
    assert(-0x4000_0000_0000_0000 <= a * b <= 0x4000_0000_0000_0000) by (nonlinear_arith)
        requires
            -0x8000_0000 <= a <= 0x7fff_ffff,
            -0x8000_0000 <= b <= 0x7fff_ffff,
    ;
}

/// Computes `a * b + c * d + t` in fixed point.
pub fn mul_add(a: i32, b: i32, c: i32, d: i32, t: i32) -> (r: i32)
    ensures
        r as int == fx_mul_add(a as int, b as int, c as int, d as int, t as int),
{
    proof {
        lemma_product_bound(a as int, b as int);
        lemma_product_bound(c as int, d as int);
    }
    let p: i128 = (a as i128) * (b as i128);
    let q: i128 = (c as i128) * (d as i128);
    let units: i128 = floor_to_units(p + q);
    saturate(units + (t as i128))
}

/// Adds two scalars, saturating at the ends of the range.
pub fn sat_add(a: i32, b: i32) -> (r: i32)
    ensures
        r as int == fx_add(a as int, b as int),
{
    saturate((a as i128) + (b as i128))
}

/// Subtracts `b` from `a`, saturating at the ends of the range.
pub fn sat_sub(a: i32, b: i32) -> (r: i32)
    ensures
        r as int == fx_sub(a as int, b as int),
{
    saturate((a as i128) - (b as i128))
}

/// The scalar for a whole number.
pub fn whole(n: i16) -> (r: i32)
    ensures
        r as int == fx_whole(n as int),
{
    (n as i32) * 65536
}

/// A point of the plane.
#[derive(Clone, Copy, Debug, PartialEq, Eq, Structural)]
pub struct Point {
    pub x: i32,
    pub y: i32,
}

impl Point {
    pub fn new(x: i32, y: i32) -> (p: Point)
        ensures
            p == (Point { x, y }),
    {
        Point { x, y }
    }
}

/// One step of a path.
#[derive(Clone, Copy, Debug, PartialEq, Eq, Structural)]
pub enum PathEl {
    MoveTo(Point),
    LineTo(Point),
    QuadTo(Point, Point),
    CurveTo(Point, Point, Point),
    ClosePath,
}

/// An axis-aligned rectangle.
#[derive(Clone, Copy, Debug, PartialEq, Eq, Structural)]
pub struct Rect {
    pub x0: i32,
    pub y0: i32,
    pub x1: i32,
    pub y1: i32,
}

impl Rect {
    /// The outline of the rectangle: from `(x0, y0)` along the x axis first,
    /// around the four corners, and closed.
    pub open spec fn path_spec(self) -> Seq<PathEl> {
        seq![
            PathEl::MoveTo(Point { x: self.x0, y: self.y0 }),
            PathEl::LineTo(Point { x: self.x1, y: self.y0 }),
            PathEl::LineTo(Point { x: self.x1, y: self.y1 }),
            PathEl::LineTo(Point { x: self.x0, y: self.y1 }),
            PathEl::ClosePath,
        ]
    }

    /// The rectangle with one corner at `origin` and the given extent.
    pub open spec fn from_origin_size_spec(origin: Point, width: i32, height: i32) -> Rect {
        Rect {
            x0: origin.x,
            y0: origin.y,
            x1: fx_add(origin.x as int, width as int) as i32,
            y1: fx_add(origin.y as int, height as int) as i32,
        }
    }

    #[verifier::when_used_as_spec(from_origin_size_spec)]
    pub fn from_origin_size(origin: Point, width: i32, height: i32) -> (r: Rect)
        ensures
            r == Rect::from_origin_size_spec(origin, width, height),
    {
        Rect {
            x0: origin.x,
            y0: origin.y,
            x1: sat_add(origin.x, width),
            y1: sat_add(origin.y, height),
        }
    }

    pub fn path(self) -> (p: Vec<PathEl>)
        ensures
            p@ == self.path_spec(),
    {
        let mut p: Vec<PathEl> = Vec::new();
        p.push(PathEl::MoveTo(Point { x: self.x0, y: self.y0 }));
        p.push(PathEl::LineTo(Point { x: self.x1, y: self.y0 }));
        p.push(PathEl::LineTo(Point { x: self.x1, y: self.y1 }));
        p.push(PathEl::LineTo(Point { x: self.x0, y: self.y1 }));
        p.push(PathEl::ClosePath);
        assert(p@ =~= self.path_spec());
        p
    }
}

/// An affine map of the plane. It sends `(x, y)` to
/// `(a*x + c*y + e, b*x + d*y + f)`.
#[derive(Clone, Copy, Debug, PartialEq, Eq, Structural)]
pub struct Affine {
    pub a: i32,
    pub b: i32,
    pub c: i32,
    pub d: i32,
    pub e: i32,
    pub f: i32,
}

impl Affine {
    /// The map that moves nothing.
    pub open spec fn identity_spec() -> Affine {
        Affine { a: ONE, b: 0, c: 0, d: ONE, e: 0, f: 0 }
    }

    /// The shift by `(tx, ty)`.
    pub open spec fn translate_spec(tx: i32, ty: i32) -> Affine {
        Affine { a: ONE, b: 0, c: 0, d: ONE, e: tx, f: ty }
    }

    /// The scaling by `sx` along x and `sy` along y.
    pub open spec fn scale_non_uniform_spec(sx: i32, sy: i32) -> Affine {
        Affine { a: sx, b: 0, c: 0, d: sy, e: 0, f: 0 }
    }

    /// The scaling by `s` in both directions.
    pub open spec fn scale_spec(s: i32) -> Affine {
        Affine::scale_non_uniform_spec(s, s)
    }

    /// The mirror image across the x axis.
    pub open spec fn flip_y_spec() -> Affine {
        Affine::scale_non_uniform_spec(ONE, (-ONE) as i32)
    }

    /// The matrix product `self · inner`: the map that applies `inner` first
    /// and `self` to what comes out.
    pub open spec fn compose_spec(self, inner: Affine) -> Affine {
        Affine {
            a: fx_mul_add(self.a as int, inner.a as int, self.c as int, inner.b as int, 0) as i32,
            b: fx_mul_add(self.b as int, inner.a as int, self.d as int, inner.b as int, 0) as i32,
            c: fx_mul_add(self.a as int, inner.c as int, self.c as int, inner.d as int, 0) as i32,
            d: fx_mul_add(self.b as int, inner.c as int, self.d as int, inner.d as int, 0) as i32,
            e: fx_mul_add(
                self.a as int,
                inner.e as int,
                self.c as int,
                inner.f as int,
                self.e as int,
            ) as i32,
            f: fx_mul_add(
                self.b as int,
                inner.e as int,
                self.d as int,
                inner.f as int,
                self.f as int,
            ) as i32,
        }
    }

    /// Where the map sends `p`.
    pub open spec fn apply_spec(self, p: Point) -> Point {
        Point {
            x: fx_mul_add(self.a as int, p.x as int, self.c as int, p.y as int, self.e as int) as i32,
            y: fx_mul_add(self.b as int, p.x as int, self.d as int, p.y as int, self.f as int) as i32,
        }
    }

    /// Where the map sends each point of a path element.
    pub open spec fn apply_el_spec(self, el: PathEl) -> PathEl {
        match el {
            PathEl::MoveTo(p) => PathEl::MoveTo(self.apply_spec(p)),
            PathEl::LineTo(p) => PathEl::LineTo(self.apply_spec(p)),
            PathEl::QuadTo(p, q) => PathEl::QuadTo(self.apply_spec(p), self.apply_spec(q)),
            PathEl::CurveTo(p, q, r) => PathEl::CurveTo(
                self.apply_spec(p),
                self.apply_spec(q),
                self.apply_spec(r),
            ),
            PathEl::ClosePath => PathEl::ClosePath,
        }
    }

    #[verifier::when_used_as_spec(identity_spec)]
    pub fn identity() -> (r: Affine)
        ensures
            r == Affine::identity_spec(),
    {
        Affine { a: ONE, b: 0, c: 0, d: ONE, e: 0, f: 0 }
    }

    #[verifier::when_used_as_spec(translate_spec)]
    pub fn translate(tx: i32, ty: i32) -> (r: Affine)
        ensures
            r == Affine::translate_spec(tx, ty),
    {
        Affine { a: ONE, b: 0, c: 0, d: ONE, e: tx, f: ty }
    }

    #[verifier::when_used_as_spec(scale_non_uniform_spec)]
    pub fn scale_non_uniform(sx: i32, sy: i32) -> (r: Affine)
        ensures
            r == Affine::scale_non_uniform_spec(sx, sy),
    {
        Affine { a: sx, b: 0, c: 0, d: sy, e: 0, f: 0 }
    }

    #[verifier::when_used_as_spec(scale_spec)]
    pub fn scale(s: i32) -> (r: Affine)
        ensures
            r == Affine::scale_spec(s),
    {
        Affine::scale_non_uniform(s, s)
    }

    #[verifier::when_used_as_spec(flip_y_spec)]
    pub fn flip_y() -> (r: Affine)
        ensures
            r == Affine::flip_y_spec(),
    {
        Affine::scale_non_uniform(ONE, -ONE)
    }

    #[verifier::when_used_as_spec(compose_spec)]
    pub fn compose(self, inner: Affine) -> (r: Affine)
        ensures
            r == self.compose_spec(inner),
    {
        Affine {
            a: mul_add(self.a, inner.a, self.c, inner.b, 0),
            b: mul_add(self.b, inner.a, self.d, inner.b, 0),
            c: mul_add(self.a, inner.c, self.c, inner.d, 0),
            d: mul_add(self.b, inner.c, self.d, inner.d, 0),
            e: mul_add(self.a, inner.e, self.c, inner.f, self.e),
            f: mul_add(self.b, inner.e, self.d, inner.f, self.f),
        }
    }

    #[verifier::when_used_as_spec(apply_spec)]
    pub fn apply(self, p: Point) -> (r: Point)
        ensures
            r == self.apply_spec(p),
    {
        Point {
            x: mul_add(self.a, p.x, self.c, p.y, self.e),
            y: mul_add(self.b, p.x, self.d, p.y, self.f),
        }
    }

    #[verifier::when_used_as_spec(apply_el_spec)]
    pub fn apply_el(self, el: PathEl) -> (r: PathEl)
        ensures
            r == self.apply_el_spec(el),
    {
        match el {
            PathEl::MoveTo(p) => PathEl::MoveTo(self.apply(p)),
            PathEl::LineTo(p) => PathEl::LineTo(self.apply(p)),
            PathEl::QuadTo(p, q) => PathEl::QuadTo(self.apply(p), self.apply(q)),
            PathEl::CurveTo(p, q, r) => PathEl::CurveTo(self.apply(p), self.apply(q), self.apply(r)),
            PathEl::ClosePath => PathEl::ClosePath,
        }
    }
}

/// The identity is neutral on both sides of a composition.
pub proof fn lemma_identity_is_neutral(m: Affine)
    ensures
        Affine::identity_spec().compose_spec(m) == m,
        m.compose_spec(Affine::identity_spec()) == m,
{
}

/// Placing something at `(tx, ty)` with the y axis turned over, below an
/// outer map, gives one map however the three factors are grouped: the
/// linear part of `outer` with its second column negated, and the shift of
/// `outer` applied to `(tx, ty)`.
pub proof fn lemma_placement_associates(outer: Affine, tx: i32, ty: i32)
    ensures
        outer.compose_spec(Affine::translate_spec(tx, ty)).compose_spec(Affine::flip_y_spec())
            == outer.compose_spec(
            Affine::translate_spec(tx, ty).compose_spec(Affine::flip_y_spec()),
        ),
        Affine::translate_spec(tx, ty).compose_spec(Affine::flip_y_spec()) == (Affine {
            a: ONE,
            b: 0,
            c: 0,
            d: (-ONE) as i32,
            e: tx,
            f: ty,
        }),
        outer.compose_spec(Affine::translate_spec(tx, ty)).compose_spec(Affine::flip_y_spec())
            == (Affine {
            a: outer.a,
            b: outer.b,
            c: clamp(-(outer.c as int)) as i32,
            d: clamp(-(outer.d as int)) as i32,
            e: outer.apply_spec(Point { x: tx, y: ty }).x,
            f: outer.apply_spec(Point { x: tx, y: ty }).y,
        }),
{
    let placed = outer.compose_spec(Affine::translate_spec(tx, ty));
    assert(placed.a == outer.a && placed.b == outer.b && placed.c == outer.c && placed.d
        == outer.d);
    assert(placed.e == outer.apply_spec(Point { x: tx, y: ty }).x);
    assert(placed.f == outer.apply_spec(Point { x: tx, y: ty }).y);
    let c = outer.c as int;
    let d = outer.d as int;
    assert((c * -65536) / 65536 == -c);
    assert((d * -65536) / 65536 == -d);
    assert((-ONE) as i32 == -65536);
}

} // verus!
