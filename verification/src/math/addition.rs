//! Facts about the addition of points that need no more than one line through
//! two points.
use crate::math::curve;
use crate::math::curve::Point;
use crate::math::fp;
use crate::math::identities;
use vstd::arithmetic::mul::*;
use vstd::prelude::*;

verus! {

/// The sum of the two affine points is the point at infinity.
pub open spec fn opposite(x1: int, y1: int, x2: int, y2: int) -> bool {
    x1 == x2 && (y1 != y2 || y1 == 0)
}

/// Points of the curve with one abscissa that differ are opposite in sign.
pub proof fn lemma_opposite(x: int, y1: int, y2: int)
    requires
        curve::on_curve(Point::Affine { x, y: y1 }),
        curve::on_curve(Point::Affine { x, y: y2 }),
        opposite(x, y1, x, y2),
    ensures
        fp::vanishes(y2 + y1),
{
    fp::lemma_add(y1 * y1 - curve::cubic(x), y2 * y2 - curve::cubic(x));
    fp::lemma_roots(y1, y2);
    if fp::vanishes(y1 - y2) {
        fp::lemma_unique(y1, y2);
        fp::lemma_zero();
    }
}

/// The doubled ordinate of a point with ordinate other than 0 is not 0.
pub proof fn lemma_doubled(y: int)
    requires
        fp::canonical(y),
        y != 0,
    ensures
        !fp::vanishes(2 * y),
{
    fp::lemma_canonical(y);
    fp::lemma_small(2);
    fp::lemma_product(2, y);
}

/// What the slope of a line satisfies.
pub proof fn lemma_slope(x1: int, y1: int, x2: int, y2: int)
    requires
        curve::on_curve(Point::Affine { x: x1, y: y1 }),
        curve::on_curve(Point::Affine { x: x2, y: y2 }),
        !opposite(x1, y1, x2, y2),
    ensures
        fp::vanishes((y2 - y1) - curve::slope(x1, y1, x2, y2) * (x2 - x1)),
        fp::vanishes(
            (x1 * x1 + x1 * x2 + x2 * x2 - 3) - curve::slope(x1, y1, x2, y2) * (y1 + y2),
        ),
{
    let l = curve::slope(x1, y1, x2, y2);
    if x1 == x2 {
        let n = 3 * (x1 * x1) - 3;
        let i = fp::inverse(2 * y1);
        lemma_doubled(y1);
        fp::lemma_inverse(2 * y1);
        fp::lemma_scale(n, (2 * y1) * i - 1);
        assert(l * (y1 + y2) == n * ((2 * y1) * i)) by {
            lemma_mul_is_associative(n, i, 2 * y1);
            lemma_mul_is_commutative(i, 2 * y1);
        }
        lemma_mul_is_distributive_sub(n, (2 * y1) * i, 1);
        fp::lemma_shift(l * (y1 + y2), n);
        lemma_mul_basics(l);
        fp::lemma_zero();
    } else {
        let (n, d) = (y2 - y1, x2 - x1);
        let i = fp::inverse(d);
        if fp::vanishes(d) {
            fp::lemma_unique(x2, x1);
        }
        fp::lemma_inverse(d);
        fp::lemma_scale(n, d * i - 1);
        assert(l * d == n * (d * i)) by {
            lemma_mul_is_associative(n, i, d);
            lemma_mul_is_commutative(i, d);
        }
        lemma_mul_is_distributive_sub(n, d * i, 1);
        fp::lemma_shift(l * d, n);
        identities::lemma_chord_relation(x1, y1, x2, y2, l, curve::b());
        fp::lemma_cancel(d, (x1 * x1 + x1 * x2 + x2 * x2 - 3) - l * (y1 + y2));
    }
}

/// What the third point on a line satisfies.
pub proof fn lemma_third(l: int, x1: int, y1: int, x2: int)
    ensures
        curve::third(l, x1, y1, x2) matches Point::Affine { x, y } && fp::canonical(x)
            && fp::canonical(y) && fp::vanishes(x - (l * l - x1 - x2)) && fp::vanishes(
            y - (l * (x1 - x) - y1),
        ),
{
    let x = (l * l - x1 - x2) % fp::p();
    fp::lemma_reduce(l * l - x1 - x2);
    fp::lemma_reduce(l * (x1 - x) - y1);
}

/// Any slope of the line gives the sum.
pub proof fn lemma_plus_is(x1: int, y1: int, x2: int, y2: int, l: int, x3: int, y3: int)
    requires
        fp::canonical(x1),
        fp::canonical(y1),
        fp::canonical(x2),
        fp::canonical(y2),
        !opposite(x1, y1, x2, y2),
        x1 != x2 ==> fp::vanishes((y2 - y1) - l * (x2 - x1)),
        x1 == x2 ==> fp::vanishes(2 * y1 * l - (3 * (x1 * x1) - 3)),
        fp::canonical(x3),
        fp::canonical(y3),
        fp::vanishes(x3 - (l * l - x1 - x2)),
        fp::vanishes(y3 - (l * (x1 - x3) - y1)),
    ensures
        curve::plus(Point::Affine { x: x1, y: y1 }, Point::Affine { x: x2, y: y2 })
            == (Point::Affine { x: x3, y: y3 }),
{
    let m = curve::slope(x1, y1, x2, y2);
    assert(fp::vanishes(m - l)) by {
        let (n, d) = if x1 == x2 {
            (3 * (x1 * x1) - 3, 2 * y1)
        } else {
            (y2 - y1, x2 - x1)
        };
        let i = fp::inverse(d);
        if x1 == x2 {
            lemma_doubled(y1);
            fp::lemma_shift(2 * y1 * l, n);
        } else if fp::vanishes(d) {
            fp::lemma_unique(x2, x1);
        }
        lemma_mul_is_commutative(l, d);
        fp::lemma_inverse(d);
        // d m == n d i == n == d l
        fp::lemma_scale(n, d * i - 1);
        assert(d * m == n * (d * i)) by {
            lemma_mul_is_commutative(d, m);
            lemma_mul_is_associative(n, i, d);
            lemma_mul_is_commutative(i, d);
        }
        lemma_mul_is_distributive_sub(n, d * i, 1);
        fp::lemma_trans(d * m, n, d * l);
        fp::lemma_cancel_factor(d, m, l);
    }
    lemma_third(m, x1, y1, x2);
    let x = (m * m - x1 - x2) % fp::p();
    let y = (m * (x1 - x) - y1) % fp::p();
    fp::lemma_mul(m, l, m, l);
    fp::lemma_add(x - (m * m - x1 - x2), x3 - (l * l - x1 - x2));
    fp::lemma_add(
        (x - (m * m - x1 - x2)) - (x3 - (l * l - x1 - x2)),
        m * m - l * l,
    );
    fp::lemma_unique(x, x3);
    fp::lemma_zero();
    fp::lemma_mul(m, l, x1 - x, x1 - x);
    fp::lemma_add(y - (m * (x1 - x) - y1), y3 - (l * (x1 - x3) - y1));
    fp::lemma_add(
        (y - (m * (x1 - x) - y1)) - (y3 - (l * (x1 - x3) - y1)),
        m * (x1 - x) - l * (x1 - x),
    );
    fp::lemma_unique(y, y3);
}

/// The sum of two points of the curve is on the curve.
pub proof fn lemma_closed(p: Point, q: Point)
    requires
        curve::on_curve(p),
        curve::on_curve(q),
    ensures
        curve::on_curve(curve::plus(p, q)),
{
    match (p, q) {
        (Point::Affine { x: x1, y: y1 }, Point::Affine { x: x2, y: y2 }) => {
            if !opposite(x1, y1, x2, y2) {
                let l = curve::slope(x1, y1, x2, y2);
                lemma_slope(x1, y1, x2, y2);
                lemma_third(l, x1, y1, x2);
                if let Point::Affine { x: x3, y: y3 } = curve::plus(p, q) {
                    identities::lemma_line_cubic(x3, x1, y1, x2, y2, x3, l, curve::b());
                    lemma_mul_basics((x3 - x1) * (x3 - x2));
                    identities::lemma_reflection(x1, y1, x3, y3, l, curve::b());
                }
            }
        },
        _ => {},
    }
}

/// The inverse of a point of the curve is on the curve, and cancels it.
pub proof fn lemma_neg(p: Point)
    requires
        curve::on_curve(p),
    ensures
        curve::on_curve(curve::neg(p)),
        curve::plus(p, curve::neg(p)) == Point::Infinity,
        curve::plus(curve::neg(p), p) == Point::Infinity,
        curve::neg(curve::neg(p)) == p,
{
    if let Point::Affine { x, y } = p {
        let z = (-y) % fp::p();
        fp::lemma_reduce(-y);
        fp::lemma_scale(1, z + y);
        fp::lemma_scale(z - y, z + y);
        assert((z - y) * (z + y) == z * z - y * y) by (nonlinear_arith);
        fp::lemma_add(z * z - y * y, y * y - curve::cubic(x));
        if z == y {
            assert(fp::vanishes(2 * y));
            if y != 0 {
                lemma_doubled(y);
            }
        }
        fp::lemma_reduce(-z);
        fp::lemma_add((-z) % fp::p() + z, z + y);
        fp::lemma_unique((-z) % fp::p(), y);
    }
}

/// Addition is commutative.
pub proof fn lemma_commutative(p: Point, q: Point)
    requires
        curve::on_curve(p),
        curve::on_curve(q),
    ensures
        curve::plus(p, q) == curve::plus(q, p),
{
    match (p, q) {
        (Point::Affine { x: x1, y: y1 }, Point::Affine { x: x2, y: y2 }) => {
            if x1 != x2 {
                let l = curve::slope(x1, y1, x2, y2);
                lemma_slope(x1, y1, x2, y2);
                lemma_third(l, x1, y1, x2);
                if let Point::Affine { x: x3, y: y3 } = curve::plus(p, q) {
                    // the line through q and p has the same slope
                    fp::lemma_scale(1, (y2 - y1) - l * (x2 - x1));
                    assert(l * (x1 - x2) == -(l * (x2 - x1))) by {
                        lemma_mul_unary_negation(l, x2 - x1);
                    }
                    // and passes through both
                    assert(l * (x2 - x3) == l * (x1 - x3) + l * (x2 - x1)) by {
                        lemma_mul_is_distributive_add(l, x1 - x3, x2 - x1);
                    }
                    fp::lemma_add(y3 - (l * (x1 - x3) - y1), (y2 - y1) - l * (x2 - x1));
                    lemma_plus_is(x2, y2, x1, y1, l, x3, y3);
                }
            }
        },
        _ => {},
    }
}

} // verus!
