//! The curve `y^2 = x^3 - 3 x + b` over the field, and the chord and tangent
//! rule for adding its points.
use crate::math::fp;
use vstd::prelude::*;

verus! {

/// A point: the point at infinity, or a pair of coordinates.
pub enum Point {
    Infinity,
    Affine { x: int, y: int },
}

/// The constant `b` of the curve equation.
pub open spec fn b() -> int {
    0x5ac635d8aa3a93e7b3ebbd55769886bc651d06b0cc53b0f63bce3c3e27d2604bint
}

/// The right-hand side of the curve equation.
pub open spec fn cubic(x: int) -> int {
    x * x * x - 3 * x + b()
}

/// The integers satisfy the curve equation in the field.
pub open spec fn satisfies(x: int, y: int) -> bool {
    fp::vanishes(y * y - cubic(x))
}

/// The point lies on the curve; its coordinates are canonical.
pub open spec fn on_curve(p: Point) -> bool {
    match p {
        Point::Infinity => true,
        Point::Affine { x, y } => fp::canonical(x) && fp::canonical(y) && satisfies(x, y),
    }
}

/// The inverse of a point.
pub open spec fn neg(p: Point) -> Point {
    match p {
        Point::Infinity => Point::Infinity,
        Point::Affine { x, y } => Point::Affine { x, y: (-y) % fp::p() },
    }
}

/// The slope of the line through two points, which is the tangent where they
/// coincide.
pub open spec fn slope(x1: int, y1: int, x2: int, y2: int) -> int {
    if x1 == x2 {
        (3 * (x1 * x1) - 3) * fp::inverse(2 * y1)
    } else {
        (y2 - y1) * fp::inverse(x2 - x1)
    }
}

/// The third point of the curve on the line with slope `l`, reflected.
pub open spec fn third(l: int, x1: int, y1: int, x2: int) -> Point {
    let x3 = (l * l - x1 - x2) % fp::p();
    Point::Affine { x: x3, y: (l * (x1 - x3) - y1) % fp::p() }
}

/// The sum of two points.
pub open spec fn plus(p: Point, q: Point) -> Point {
    match (p, q) {
        (Point::Infinity, _) => q,
        (_, Point::Infinity) => p,
        (Point::Affine { x: x1, y: y1 }, Point::Affine { x: x2, y: y2 }) => if x1 == x2 && (y1 != y2
            || y1 == 0) {
            Point::Infinity
        } else {
            third(slope(x1, y1, x2, y2), x1, y1, x2)
        },
    }
}

/// The multiple of a point: the sum of `k` copies.
pub open spec fn times(k: nat, p: Point) -> Point
    decreases k,
{
    if k == 0 {
        Point::Infinity
    } else {
        plus(times((k - 1) as nat, p), p)
    }
}

/// The sum of the first `n` points, each taken as often as the number beside it
/// says.
pub open spec fn combination(ks: Seq<int>, ps: Seq<Point>, n: nat) -> Point
    decreases n,
{
    if n == 0 {
        Point::Infinity
    } else {
        plus(combination(ks, ps, (n - 1) as nat), times(ks[n - 1] as nat, ps[n - 1]))
    }
}

} // verus!
