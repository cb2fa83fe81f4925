//! Jacobian coordinates: `(x, y, z)` stands for the point `(x / z^2, y / z^3)`,
//! and for the point at infinity where `z` is 0.
use crate::math::addition;
use crate::math::curve;
use crate::math::curve::Point;
use crate::math::fp;
use crate::math::identities;
use vstd::arithmetic::mul::*;
use vstd::prelude::*;

verus! {

/// The sum in the field.
pub open spec fn sum(a: int, b: int) -> int {
    (a + b) % fp::p()
}

/// The difference in the field.
pub open spec fn diff(a: int, b: int) -> int {
    (a - b) % fp::p()
}

/// The product in the field.
pub open spec fn prod(a: int, b: int) -> int {
    (a * b) % fp::p()
}

/// Twice a number.
pub open spec fn twice(a: int) -> int {
    sum(a, a)
}

/// Three times a number.
pub open spec fn thrice(a: int) -> int {
    sum(sum(a, a), a)
}

/// The square of a number.
pub open spec fn square(a: int) -> int {
    prod(a, a)
}

/// The point with the given Jacobian coordinates.
pub open spec fn point(x: int, y: int, z: int) -> Point {
    if fp::vanishes(z) {
        Point::Infinity
    } else {
        let i = fp::inverse(z);
        Point::Affine { x: (x * (i * i)) % fp::p(), y: (y * (i * i * i)) % fp::p() }
    }
}

/// Jacobian coordinates of twice a point.
pub open spec fn doubled(x: int, y: int, z: int) -> (int, int, int) {
    let xx = square(x);
    let yy = square(y);
    let yyyy = square(yy);
    let zz = square(z);
    let s = twice(diff(diff(square(sum(x, yy)), xx), yyyy));
    let m = thrice(diff(xx, square(zz)));
    let x3 = diff(square(m), twice(s));
    let y3 = diff(prod(m, diff(s, x3)), twice(twice(twice(yyyy))));
    let z3 = diff(diff(square(sum(y, z)), yy), zz);
    (x3, y3, z3)
}

/// Jacobian coordinates of the sum of two points with different abscissas.
pub open spec fn added(x1: int, y1: int, z1: int, x2: int, y2: int, z2: int) -> (int, int, int) {
    let z1z1 = square(z1);
    let z2z2 = square(z2);
    let u1 = prod(x1, z2z2);
    let u2 = prod(x2, z1z1);
    let s1 = prod(prod(y1, z2), z2z2);
    let s2 = prod(prod(y2, z1), z1z1);
    let h = diff(u2, u1);
    let i = square(twice(h));
    let j = prod(h, i);
    let r = twice(diff(s2, s1));
    let v = prod(u1, i);
    let x3 = diff(diff(square(r), j), twice(v));
    let y3 = diff(prod(r, diff(v, x3)), twice(prod(s1, j)));
    let z3 = prod(diff(diff(square(sum(z1, z2)), z1z1), z2z2), h);
    (x3, y3, z3)
}

/// Jacobian coordinates of the sum of a point and one with affine coordinates
/// and a different abscissa.
pub open spec fn mixed(x1: int, y1: int, z1: int, x2: int, y2: int) -> (int, int, int) {
    let z1z1 = square(z1);
    let u2 = prod(x2, z1z1);
    let s2 = prod(prod(y2, z1), z1z1);
    let h = diff(u2, x1);
    let r = twice(diff(s2, y1));
    let hh = square(h);
    let i = twice(twice(hh));
    let j = prod(h, i);
    let v = prod(x1, i);
    let x3 = diff(diff(square(r), j), twice(v));
    let y3 = diff(prod(r, diff(v, x3)), twice(prod(y1, j)));
    let z3 = diff(diff(square(sum(z1, h)), z1z1), hh);
    (x3, y3, z3)
}

/// Sums of congruent numbers.
proof fn lemma_sum(a: int, b: int, s: int, t: int)
    requires
        fp::vanishes(a - s),
        fp::vanishes(b - t),
    ensures
        fp::vanishes(sum(a, b) - (s + t)),
{
    fp::lemma_reduce(a + b);
    fp::lemma_add(a - s, b - t);
    fp::lemma_trans(sum(a, b), a + b, s + t);
}

/// Differences of congruent numbers.
proof fn lemma_diff(a: int, b: int, s: int, t: int)
    requires
        fp::vanishes(a - s),
        fp::vanishes(b - t),
    ensures
        fp::vanishes(diff(a, b) - (s - t)),
{
    fp::lemma_reduce(a - b);
    fp::lemma_add(a - s, b - t);
    fp::lemma_trans(diff(a, b), a - b, s - t);
}

/// Products of congruent numbers.
proof fn lemma_prod(a: int, b: int, s: int, t: int)
    requires
        fp::vanishes(a - s),
        fp::vanishes(b - t),
    ensures
        fp::vanishes(prod(a, b) - s * t),
{
    fp::lemma_reduce(a * b);
    fp::lemma_mul(a, s, b, t);
    fp::lemma_trans(prod(a, b), a * b, s * t);
}

/// A number is congruent to itself.
proof fn lemma_refl(a: int)
    ensures
        fp::vanishes(a - a),
{
    fp::lemma_zero();
}

/// Twice congruent numbers.
proof fn lemma_twice(a: int, s: int)
    requires
        fp::vanishes(a - s),
    ensures
        fp::vanishes(twice(a) - 2 * s),
{
    lemma_sum(a, a, s, s);
}

/// A product by way of squares.
proof fn lemma_cross(a: int, b: int, aa: int, bb: int)
    requires
        fp::vanishes(aa - a * a),
        fp::vanishes(bb - b * b),
    ensures
        fp::vanishes(diff(diff(square(sum(a, b)), aa), bb) - 2 * (a * b)),
{
    let s = a + b;
    lemma_refl(a);
    lemma_refl(b);
    lemma_sum(a, b, a, b);
    lemma_prod(sum(a, b), sum(a, b), s, s);
    lemma_diff(square(sum(a, b)), aa, s * s, a * a);
    lemma_diff(diff(square(sum(a, b)), aa), bb, s * s - a * a, b * b);
    assert((a + b) * (a + b) - a * a - b * b == 2 * (a * b)) by (nonlinear_arith);
}

/// What Jacobian coordinates say of the point.
pub proof fn lemma_point(x: int, y: int, z: int)
    requires
        !fp::vanishes(z),
    ensures
        point(x, y, z) matches Point::Affine { x: a, y: b } && fp::canonical(a) && fp::canonical(b)
            && fp::vanishes(x - a * (z * z)) && fp::vanishes(y - b * (z * z * z)),
{
    let i = fp::inverse(z);
    fp::lemma_inverse(z);
    let (a, b) = ((x * (i * i)) % fp::p(), (y * (i * i * i)) % fp::p());
    fp::lemma_reduce(x * (i * i));
    fp::lemma_reduce(y * (i * i * i));
    // (z i)^2 and (z i)^3 are 1
    fp::lemma_mul(z * i, 1, z * i, 1);
    fp::lemma_mul((z * i) * (z * i), 1, z * i, 1);
    assert((z * i) * (z * i) == (i * i) * (z * z)) by (nonlinear_arith);
    assert((z * i) * (z * i) * (z * i) == (i * i * i) * (z * z * z)) by (nonlinear_arith);
    lemma_unit_factor(x, i * i, z * z, a);
    lemma_unit_factor(y, i * i * i, z * z * z, b);
}

/// Undoes a multiplication by an inverse.
proof fn lemma_unit_factor(x: int, i: int, z: int, a: int)
    requires
        fp::vanishes(i * z - 1),
        fp::vanishes(a - x * i),
    ensures
        fp::vanishes(x - a * z),
{
    fp::lemma_scale(z, a - x * i);
    lemma_mul_is_distributive_sub_other_way(z, a, x * i);
    fp::lemma_scale(x, i * z - 1);
    lemma_mul_is_distributive_sub(x, i * z, 1);
    lemma_mul_is_associative(x, i, z);
    fp::lemma_add((a - x * i) * z, x * (i * z - 1));
    fp::lemma_scale(1, a * z - x);
}

/// Jacobian coordinates of a given point.
pub proof fn lemma_point_is(x: int, y: int, z: int, a: int, b: int)
    requires
        !fp::vanishes(z),
        fp::canonical(a),
        fp::canonical(b),
        fp::vanishes(x - a * (z * z)),
        fp::vanishes(y - b * (z * z * z)),
    ensures
        point(x, y, z) == (Point::Affine { x: a, y: b }),
{
    lemma_point(x, y, z);
    if let Point::Affine { x: c, y: d } = point(x, y, z) {
        fp::lemma_product(z, z);
        fp::lemma_product(z * z, z);
        lemma_same_multiple(x, z * z, a, c);
        lemma_same_multiple(y, z * z * z, b, d);
    }
}

/// Canonical factors of one multiple are equal.
proof fn lemma_same_multiple(x: int, z: int, a: int, c: int)
    requires
        !fp::vanishes(z),
        fp::canonical(a),
        fp::canonical(c),
        fp::vanishes(x - a * z),
        fp::vanishes(x - c * z),
    ensures
        a == c,
{
    fp::lemma_add(x - c * z, x - a * z);
    lemma_mul_is_commutative(a, z);
    lemma_mul_is_commutative(c, z);
    fp::lemma_cancel_factor(z, a, c);
    fp::lemma_unique(a, c);
}

/// Scaling Jacobian coordinates does not change the point.
pub proof fn lemma_scale(x: int, y: int, z: int, c: int)
    requires
        !fp::vanishes(c),
    ensures
        point(prod(x, square(c)), prod(prod(y, square(c)), c), prod(z, c)) == point(x, y, z),
{
    let (x2, y2, z2) = (prod(x, square(c)), prod(prod(y, square(c)), c), prod(z, c));
    lemma_refl(x);
    lemma_refl(y);
    lemma_refl(z);
    lemma_refl(c);
    lemma_prod(c, c, c, c);
    lemma_prod(x, square(c), x, c * c);
    lemma_prod(y, square(c), y, c * c);
    lemma_prod(prod(y, square(c)), c, y * (c * c), c);
    lemma_prod(z, c, z, c);
    fp::lemma_shift(z2, z * c);
    if fp::vanishes(z) {
        fp::lemma_scale(c, z);
    } else {
        fp::lemma_product(z, c);
        lemma_point(x, y, z);
        if let Point::Affine { x: a, y: b } = point(x, y, z) {
            let w = z * c;
            identities::lemma_jacobian_scale(x, a, z, c);
            identities::lemma_jacobian_scale_cube(y, b, z, c);
            assert(y * (c * c) * c == y * c * (c * c)) by (nonlinear_arith);
            lemma_replace_denominator(x2, y2, z2, w, x * (c * c), y * c * (c * c), a, b);
            lemma_point_is(x2, y2, z2, a, b);
        }
    }
}

/// Replaces coordinates by congruent ones.
proof fn lemma_replace_denominator(
    x: int,
    y: int,
    z: int,
    w: int,
    u: int,
    v: int,
    a: int,
    b: int,
)
    requires
        fp::vanishes(x - u),
        fp::vanishes(y - v),
        fp::vanishes(z - w),
        fp::vanishes(u - a * (w * w)),
        fp::vanishes(v - b * (w * w * w)),
    ensures
        fp::vanishes(x - a * (z * z)),
        fp::vanishes(y - b * (z * z * z)),
{
    fp::lemma_zero();
    fp::lemma_shift(z, w);
    fp::lemma_mul(w, z, w, z);
    fp::lemma_mul(w * w, z * z, w, z);
    fp::lemma_mul(a, a, w * w, z * z);
    fp::lemma_mul(b, b, w * w * w, z * z * z);
    fp::lemma_trans(x, u, a * (w * w));
    fp::lemma_trans(x, a * (w * w), a * (z * z));
    fp::lemma_trans(y, v, b * (w * w * w));
    fp::lemma_trans(y, b * (w * w * w), b * (z * z * z));
}

/// The curve equation in Jacobian coordinates.
pub proof fn lemma_equation(x: int, y: int, z: int)
    requires
        !fp::vanishes(z),
    ensures
        curve::on_curve(point(x, y, z)) <==> fp::vanishes(
            y * y - (x * x * x - 3 * (x * (z * z * (z * z))) + curve::b() * (z * z * z * (z * z
                * z))),
        ),
{
    lemma_point(x, y, z);
    if let Point::Affine { x: a, y: b } = point(x, y, z) {
        let w = z * z * z * (z * z * z);
        let e = b * b - curve::cubic(a);
        identities::lemma_jacobian_equation(x, y, z, a, b, curve::b());
        fp::lemma_product(z, z);
        fp::lemma_product(z * z, z);
        fp::lemma_product(z * z * z, z * z * z);
        fp::lemma_shift(
            y * y - (x * x * x - 3 * (x * (z * z * (z * z))) + curve::b() * (z * z * z * (z * z
                * z))),
            w * e,
        );
        if fp::vanishes(e) {
            fp::lemma_scale(w, e);
        } else {
            fp::lemma_product(w, e);
        }
    }
}

/// The ordinate is 0 where the Jacobian ordinate is.
pub proof fn lemma_zero_ordinate(x: int, y: int, z: int)
    requires
        !fp::vanishes(z),
    ensures
        point(x, y, z)->y == 0 <==> fp::vanishes(y),
{
    lemma_point(x, y, z);
    if let Point::Affine { x: a, y: b } = point(x, y, z) {
        let w = z * z * z;
        fp::lemma_product(z, z);
        fp::lemma_product(z * z, z);
        fp::lemma_canonical(b);
        fp::lemma_shift(y, b * w);
        if fp::vanishes(b) {
            fp::lemma_scale(w, b);
        } else {
            fp::lemma_product(b, w);
        }
    }
}

/// The formulas for doubling.
pub proof fn lemma_doubled(x: int, y: int, z: int)
    requires
        !fp::vanishes(z),
        !fp::vanishes(y),
        curve::on_curve(point(x, y, z)),
    ensures
        ({
            let d = doubled(x, y, z);
            point(d.0, d.1, d.2) == curve::plus(point(x, y, z), point(x, y, z))
        }),
{
    lemma_point(x, y, z);
    lemma_zero_ordinate(x, y, z);
    if let Point::Affine { x: a, y: b } = point(x, y, z) {
        let l = curve::slope(a, b, a, b);
        addition::lemma_slope(a, b, a, b);
        lemma_mul_is_commutative(l, 2 * b);
        fp::lemma_shift(3 * (a * a) - 3, 2 * b * l);
        let xx = square(x);
        let yy = square(y);
        let yyyy = square(yy);
        let zz = square(z);
        let s = twice(diff(diff(square(sum(x, yy)), xx), yyyy));
        let m = thrice(diff(xx, square(zz)));
        let (x3, y3, z3) = doubled(x, y, z);
        lemma_refl(x);
        lemma_refl(y);
        lemma_refl(z);
        lemma_prod(x, x, x, x);
        lemma_prod(y, y, y, y);
        lemma_prod(z, z, z, z);
        lemma_prod(yy, yy, y * y, y * y);
        lemma_prod(zz, zz, z * z, z * z);
        let w = 2 * y * z;
        // z3 == 2 y z
        lemma_cross(y, z, yy, zz);
        lemma_mul_is_associative(2, y, z);
        assert(fp::vanishes(z3 - w));
        // s == 4 x y^2 == a z3^2
        lemma_refl(yy);
        lemma_prod(yy, yy, yy, yy);
        lemma_cross(x, yy, xx, yyyy);
        fp::lemma_mul(x, x, yy, y * y);
        fp::lemma_scale(2, x * yy - x * (y * y));
        fp::lemma_trans(diff(diff(square(sum(x, yy)), xx), yyyy), 2 * (x * yy), 2 * (x * (y * y)));
        lemma_twice(diff(diff(square(sum(x, yy)), xx), yyyy), 2 * (x * (y * y)));
        identities::lemma_jacobian_tangent_abscissa(x, y, z, a);
        fp::lemma_trans(s, 4 * (x * (y * y)), a * (w * w));
        // m == 3 (x^2 - z^4) == l z3
        let q = x * x - z * z * (z * z);
        lemma_diff(xx, square(zz), x * x, z * z * (z * z));
        lemma_sum(diff(xx, square(zz)), diff(xx, square(zz)), q, q);
        lemma_sum(sum(diff(xx, square(zz)), diff(xx, square(zz))), diff(xx, square(zz)), q + q, q);
        identities::lemma_jacobian_tangent(x, y, z, a, b, l);
        fp::lemma_trans(m, 3 * q, l * w);
        // 8 y^4 == b z3^3
        let e = twice(twice(twice(yyyy)));
        let f = y * y * (y * y);
        lemma_twice(yyyy, f);
        lemma_twice(twice(yyyy), 2 * f);
        lemma_twice(twice(twice(yyyy)), 2 * (2 * f));
        identities::lemma_jacobian_tangent_ordinate(y, z, b);
        fp::lemma_trans(e, 8 * f, b * (w * w * w));
        fp::lemma_small(2);
        fp::lemma_product(2, y);
        fp::lemma_product(2 * y, z);
        lemma_mul_basics(w * w);
        lemma_assemble(x3, y3, z3, w, m, 0, s, e, l, a, b, a, b);
    }
}

/// The coordinates of a sum, from those of the line.
proof fn lemma_assemble(
    x: int,
    y: int,
    z: int,
    w: int,
    m: int,
    j: int,
    v: int,
    e: int,
    l: int,
    x1: int,
    y1: int,
    x2: int,
    y2: int,
)
    requires
        curve::on_curve(Point::Affine { x: x1, y: y1 }),
        curve::on_curve(Point::Affine { x: x2, y: y2 }),
        !addition::opposite(x1, y1, x2, y2),
        l == curve::slope(x1, y1, x2, y2),
        fp::vanishes(z - w),
        !fp::vanishes(w),
        fp::vanishes(m - l * w),
        fp::vanishes(j - (x2 - x1) * (w * w)),
        fp::vanishes(v - x1 * (w * w)),
        fp::vanishes(e - y1 * (w * w * w)),
        x == diff(diff(square(m), j), twice(v)) || (j == 0 && x == diff(square(m), twice(v))),
        y == diff(prod(m, diff(v, x)), e),
    ensures
        point(x, y, z) == curve::plus(
            Point::Affine { x: x1, y: y1 },
            Point::Affine { x: x2, y: y2 },
        ),
{
    addition::lemma_third(l, x1, y1, x2);
    if let Point::Affine { x: x3, y: y3 } = curve::third(l, x1, y1, x2) {
        lemma_refl(m);
        lemma_refl(v);
        lemma_refl(j);
        lemma_refl(x);
        lemma_refl(e);
        lemma_prod(m, m, m, m);
        lemma_twice(v, v);
        lemma_diff(square(m), j, m * m, j);
        lemma_diff(diff(square(m), j), twice(v), m * m - j, 2 * v);
        lemma_diff(square(m), twice(v), m * m, 2 * v);
        identities::lemma_jacobian_third_abscissa(x, m, j, v, w, l, x1, x2, x3);
        lemma_diff(v, x, v, x);
        lemma_prod(m, diff(v, x), m, v - x);
        lemma_diff(prod(m, diff(v, x)), e, m * (v - x), e);
        identities::lemma_jacobian_third_ordinate(y, x, m, v, e, w, l, x1, y1, x3, y3);
        lemma_replace_denominator(x, y, z, w, x, y, x3, y3);
        lemma_refl(y);
        fp::lemma_shift(z, w);
        lemma_point_is(x, y, z, x3, y3);
    }
}

/// The coordinates of a sum, from the numerators of the coordinates over a
/// common denominator `c`.
proof fn lemma_chord(
    u1: int,
    u2: int,
    s1: int,
    s2: int,
    c: int,
    x1: int,
    y1: int,
    x2: int,
    y2: int,
    h: int,
    i: int,
    j: int,
    r: int,
    v: int,
    x: int,
    y: int,
    z: int,
)
    requires
        curve::on_curve(Point::Affine { x: x1, y: y1 }),
        curve::on_curve(Point::Affine { x: x2, y: y2 }),
        x1 != x2,
        !fp::vanishes(c),
        fp::vanishes(u1 - x1 * (c * c)),
        fp::vanishes(u2 - x2 * (c * c)),
        fp::vanishes(s1 - y1 * (c * c * c)),
        fp::vanishes(s2 - y2 * (c * c * c)),
        h == diff(u2, u1),
        fp::vanishes(i - 4 * (h * h)),
        j == prod(h, i),
        r == twice(diff(s2, s1)),
        v == prod(u1, i),
        x == diff(diff(square(r), j), twice(v)),
        y == diff(prod(r, diff(v, x)), twice(prod(s1, j))),
        fp::vanishes(z - 2 * (c * h)),
    ensures
        point(x, y, z) == curve::plus(
            Point::Affine { x: x1, y: y1 },
            Point::Affine { x: x2, y: y2 },
        ),
{
    let l = curve::slope(x1, y1, x2, y2);
    let w = 2 * (c * h);
    let e = twice(prod(s1, j));
    addition::lemma_slope(x1, y1, x2, y2);
    lemma_refl(u1);
    lemma_refl(u2);
    lemma_refl(s1);
    lemma_refl(s2);
    lemma_refl(h);
    lemma_refl(j);
    lemma_refl(w);
    lemma_diff(u2, u1, u2, u1);
    lemma_diff(s2, s1, s2, s1);
    lemma_twice(diff(s2, s1), s2 - s1);
    lemma_prod(h, i, h, 4 * (h * h));
    lemma_prod(u1, i, u1, 4 * (h * h));
    lemma_prod(s1, j, s1, j);
    lemma_twice(prod(s1, j), s1 * j);
    identities::lemma_jacobian_chord(u1, u2, s1, s2, h, r, w, c, x1, y1, x2, y2, l);
    identities::lemma_jacobian_chord_abscissa(u1, h, v, w, c, x1);
    identities::lemma_jacobian_chord_difference(u1, u2, h, j, w, c, x1, x2);
    identities::lemma_jacobian_chord_ordinate(s1, h, j, w, c, y1);
    fp::lemma_trans(e, 2 * (s1 * j), y1 * (w * w * w));
    // h is not 0
    fp::lemma_product(c, c);
    lemma_numerators(u1, u2, c * c, x1, x2);
    lemma_difference(u2, u1);
    fp::lemma_small(2);
    fp::lemma_product(c, h);
    fp::lemma_product(2, c * h);
    lemma_assemble(x, y, z, w, r, j, v, e, l, x1, y1, x2, y2);
}

/// Numerators over a common denominator are congruent where the numbers are
/// equal.
pub proof fn lemma_numerators(u1: int, u2: int, c: int, x1: int, x2: int)
    requires
        fp::canonical(x1),
        fp::canonical(x2),
        !fp::vanishes(c),
        fp::vanishes(u1 - x1 * c),
        fp::vanishes(u2 - x2 * c),
    ensures
        fp::vanishes(u2 - u1) <==> x1 == x2,
{
    fp::lemma_add(u2 - x2 * c, u1 - x1 * c);
    fp::lemma_shift(u2 - u1, x2 * c - x1 * c);
    lemma_mul_is_commutative(x1, c);
    lemma_mul_is_commutative(x2, c);
    if fp::vanishes(u2 - u1) {
        fp::lemma_cancel_factor(c, x2, x1);
        fp::lemma_unique(x2, x1);
    } else if x1 == x2 {
        fp::lemma_zero();
    }
}

/// A difference is 0 where the numbers are congruent.
pub proof fn lemma_difference(a: int, b: int)
    ensures
        diff(a, b) == 0 <==> fp::vanishes(a - b),
        fp::vanishes(diff(a, b)) <==> fp::vanishes(a - b),
{
    fp::lemma_reduce(a - b);
    fp::lemma_shift(diff(a, b), a - b);
}

/// Twice a difference is 0 where the numbers are congruent.
pub proof fn lemma_doubled_difference(a: int, b: int)
    ensures
        twice(diff(a, b)) == 0 <==> fp::vanishes(a - b),
{
    let d = diff(a, b);
    lemma_difference(a, b);
    fp::lemma_reduce(d + d);
    fp::lemma_small(2);
    if fp::vanishes(d) {
        fp::lemma_scale(2, d);
    } else {
        fp::lemma_product(2, d);
    }
}

/// The numerators of the coordinates of a point over a denominator that has
/// the Jacobian one as a factor.
proof fn lemma_common(x: int, y: int, z: int, c: int, a: int, b: int)
    requires
        fp::vanishes(x - a * (z * z)),
        fp::vanishes(y - b * (z * z * z)),
    ensures
        fp::vanishes(prod(x, square(c)) - a * ((z * c) * (z * c))),
        fp::vanishes(prod(prod(y, c), square(c)) - b * ((z * c) * (z * c) * (z * c))),
{
    lemma_refl(x);
    lemma_refl(y);
    lemma_refl(c);
    lemma_prod(c, c, c, c);
    lemma_prod(x, square(c), x, c * c);
    lemma_prod(y, c, y, c);
    lemma_prod(prod(y, c), square(c), y * c, c * c);
    identities::lemma_jacobian_scale(x, a, z, c);
    identities::lemma_jacobian_scale_cube(y, b, z, c);
    fp::lemma_trans(prod(x, square(c)), x * (c * c), a * ((z * c) * (z * c)));
    fp::lemma_trans(
        prod(prod(y, c), square(c)),
        y * c * (c * c),
        b * ((z * c) * (z * c) * (z * c)),
    );
}

/// Two points are equal where their coordinates are, over a common denominator.
pub proof fn lemma_compare(x1: int, y1: int, z1: int, x2: int, y2: int, z2: int)
    requires
        !fp::vanishes(z1),
        !fp::vanishes(z2),
    ensures
        ({
            let (p, q) = (point(x1, y1, z1), point(x2, y2, z2));
            &&& p is Affine
            &&& q is Affine
            &&& prod(x1, square(z2)) == prod(x2, square(z1)) <==> p->x == q->x
            &&& prod(prod(y1, z2), square(z2)) == prod(prod(y2, z1), square(z1)) <==> p->y == q->y
        }),
{
    lemma_point(x1, y1, z1);
    lemma_point(x2, y2, z2);
    let (p, q) = (point(x1, y1, z1), point(x2, y2, z2));
    let (a1, b1) = (p->x, p->y);
    let (a2, b2) = (q->x, q->y);
    let c = z1 * z2;
    lemma_common(x1, y1, z1, z2, a1, b1);
    lemma_common(x2, y2, z2, z1, a2, b2);
    lemma_mul_is_commutative(z1, z2);
    fp::lemma_product(z1, z2);
    fp::lemma_product(c, c);
    fp::lemma_product(c * c, c);
    let (u1, u2) = (prod(x1, square(z2)), prod(x2, square(z1)));
    let (s1, s2) = (prod(prod(y1, z2), square(z2)), prod(prod(y2, z1), square(z1)));
    lemma_numerators(u1, u2, c * c, a1, a2);
    lemma_numerators(s1, s2, c * c * c, b1, b2);
    fp::lemma_zero();
    fp::lemma_reduce(x1 * square(z2));
    fp::lemma_reduce(x2 * square(z1));
    fp::lemma_reduce(prod(y1, z2) * square(z2));
    fp::lemma_reduce(prod(y2, z1) * square(z1));
    if fp::vanishes(u2 - u1) {
        fp::lemma_unique(u2, u1);
    }
    if fp::vanishes(s2 - s1) {
        fp::lemma_unique(s2, s1);
    }
}

/// The formulas for addition.
pub proof fn lemma_added(x1: int, y1: int, z1: int, x2: int, y2: int, z2: int)
    requires
        !fp::vanishes(z1),
        !fp::vanishes(z2),
        curve::on_curve(point(x1, y1, z1)),
        curve::on_curve(point(x2, y2, z2)),
        prod(x1, square(z2)) != prod(x2, square(z1)),
    ensures
        ({
            let d = added(x1, y1, z1, x2, y2, z2);
            point(d.0, d.1, d.2) == curve::plus(point(x1, y1, z1), point(x2, y2, z2))
        }),
{
    lemma_point(x1, y1, z1);
    lemma_point(x2, y2, z2);
    lemma_compare(x1, y1, z1, x2, y2, z2);
    let (p, q) = (point(x1, y1, z1), point(x2, y2, z2));
    let (a1, b1) = (p->x, p->y);
    let (a2, b2) = (q->x, q->y);
    let c = z1 * z2;
    lemma_common(x1, y1, z1, z2, a1, b1);
    lemma_common(x2, y2, z2, z1, a2, b2);
    lemma_mul_is_commutative(z1, z2);
    fp::lemma_product(z1, z2);
    let z1z1 = square(z1);
    let z2z2 = square(z2);
    let (u1, u2) = (prod(x1, z2z2), prod(x2, z1z1));
    let (s1, s2) = (prod(prod(y1, z2), z2z2), prod(prod(y2, z1), z1z1));
    let h = diff(u2, u1);
    let i = square(twice(h));
    let j = prod(h, i);
    let r = twice(diff(s2, s1));
    let v = prod(u1, i);
    let (x3, y3, z3) = added(x1, y1, z1, x2, y2, z2);
    lemma_refl(h);
    lemma_refl(z1);
    lemma_refl(z2);
    lemma_twice(h, h);
    lemma_prod(twice(h), twice(h), 2 * h, 2 * h);
    assert((2 * h) * (2 * h) == 4 * (h * h)) by (nonlinear_arith);
    lemma_prod(z1, z1, z1, z1);
    lemma_prod(z2, z2, z2, z2);
    lemma_cross(z1, z2, z1z1, z2z2);
    lemma_prod(diff(diff(square(sum(z1, z2)), z1z1), z2z2), h, 2 * c, h);
    lemma_mul_is_associative(2, c, h);
    lemma_chord(u1, u2, s1, s2, c, a1, b1, a2, b2, h, i, j, r, v, x3, y3, z3);
}

/// Comparing with a point in affine coordinates.
pub proof fn lemma_compare_mixed(x1: int, y1: int, z1: int, x2: int, y2: int)
    requires
        !fp::vanishes(z1),
        fp::canonical(x2),
        fp::canonical(y2),
    ensures
        ({
            let p = point(x1, y1, z1);
            &&& p is Affine
            &&& diff(prod(x2, square(z1)), x1) == 0 <==> p->x == x2
            &&& twice(diff(prod(prod(y2, z1), square(z1)), y1)) == 0 <==> p->y == y2
        }),
{
    lemma_point(x1, y1, z1);
    let p = point(x1, y1, z1);
    let (u2, s2) = (prod(x2, square(z1)), prod(prod(y2, z1), square(z1)));
    lemma_mixed_numerators(x2, y2, z1);
    fp::lemma_product(z1, z1);
    fp::lemma_product(z1 * z1, z1);
    lemma_numerators(x1, u2, z1 * z1, p->x, x2);
    lemma_numerators(y1, s2, z1 * z1 * z1, p->y, y2);
    lemma_difference(u2, x1);
    lemma_doubled_difference(s2, y1);
}

/// The numerators of affine coordinates over a denominator.
proof fn lemma_mixed_numerators(x: int, y: int, z: int)
    ensures
        fp::vanishes(prod(x, square(z)) - x * (z * z)),
        fp::vanishes(prod(prod(y, z), square(z)) - y * (z * z * z)),
{
    lemma_refl(x);
    lemma_refl(y);
    lemma_refl(z);
    lemma_prod(z, z, z, z);
    lemma_prod(x, square(z), x, z * z);
    lemma_prod(y, z, y, z);
    lemma_prod(prod(y, z), square(z), y * z, z * z);
    assert(y * z * (z * z) == y * (z * z * z)) by (nonlinear_arith);
}

/// The formulas for mixed addition.
pub proof fn lemma_mixed(x1: int, y1: int, z1: int, x2: int, y2: int)
    requires
        !fp::vanishes(z1),
        curve::on_curve(point(x1, y1, z1)),
        curve::on_curve(Point::Affine { x: x2, y: y2 }),
        diff(prod(x2, square(z1)), x1) != 0,
    ensures
        ({
            let d = mixed(x1, y1, z1, x2, y2);
            point(d.0, d.1, d.2) == curve::plus(
                point(x1, y1, z1),
                Point::Affine { x: x2, y: y2 },
            )
        }),
{
    lemma_point(x1, y1, z1);
    lemma_compare_mixed(x1, y1, z1, x2, y2);
    lemma_mixed_numerators(x2, y2, z1);
    let p = point(x1, y1, z1);
    let z1z1 = square(z1);
    let u2 = prod(x2, z1z1);
    let s2 = prod(prod(y2, z1), z1z1);
    let h = diff(u2, x1);
    let r = twice(diff(s2, y1));
    let hh = square(h);
    let i = twice(twice(hh));
    let j = prod(h, i);
    let v = prod(x1, i);
    let (x3, y3, z3) = mixed(x1, y1, z1, x2, y2);
    lemma_refl(h);
    lemma_refl(z1);
    lemma_prod(h, h, h, h);
    lemma_twice(hh, h * h);
    lemma_twice(twice(hh), 2 * (h * h));
    lemma_prod(z1, z1, z1, z1);
    lemma_cross(z1, h, z1z1, hh);
    lemma_chord(x1, u2, y1, s2, z1, p->x, p->y, x2, y2, h, i, j, r, v, x3, y3, z3);
}

/// Normalizing by an inverse of the denominator.
pub proof fn lemma_normalize(x: int, y: int, z: int, i: int)
    requires
        fp::canonical(i),
        (z * i) % fp::p() == 1,
    ensures
        !fp::vanishes(z),
        point(x, y, z) == (Point::Affine {
            x: prod(x, square(i)),
            y: prod(prod(y, square(i)), i),
        }),
{
    fp::lemma_inverse_unique(z, i);
    lemma_refl(x);
    lemma_refl(y);
    lemma_refl(i);
    lemma_prod(i, i, i, i);
    lemma_prod(x, square(i), x, i * i);
    lemma_prod(y, square(i), y, i * i);
    lemma_prod(prod(y, square(i)), i, y * (i * i), i);
    assert(y * (i * i) * i == y * (i * i * i)) by {
        lemma_mul_is_associative(y, i * i, i);
    }
    let (a, b) = ((x * (i * i)) % fp::p(), (y * (i * i * i)) % fp::p());
    fp::lemma_reduce(x * (i * i));
    fp::lemma_reduce(y * (i * i * i));
    fp::lemma_reduce(x * square(i));
    fp::lemma_reduce(prod(y, square(i)) * i);
    fp::lemma_trans(prod(x, square(i)), x * (i * i), a);
    fp::lemma_trans(prod(prod(y, square(i)), i), y * (i * i * i), b);
    fp::lemma_unique(prod(x, square(i)), a);
    fp::lemma_unique(prod(prod(y, square(i)), i), b);
}

/// Products with a cube may be taken in another order.
pub proof fn lemma_cube(y: int, z: int)
    ensures
        prod(y, prod(square(z), z)) == prod(prod(y, z), square(z)),
{
    lemma_refl(y);
    lemma_refl(z);
    lemma_prod(z, z, z, z);
    lemma_prod(square(z), z, z * z, z);
    lemma_prod(y, prod(square(z), z), y, z * z * z);
    lemma_prod(y, z, y, z);
    lemma_prod(prod(y, z), square(z), y * z, z * z);
    assert(y * z * (z * z) == y * (z * z * z)) by (nonlinear_arith);
    let (a, b) = (prod(y, prod(square(z), z)), prod(prod(y, z), square(z)));
    fp::lemma_add(a - y * (z * z * z), b - y * (z * z * z));
    fp::lemma_reduce(y * prod(square(z), z));
    fp::lemma_reduce(prod(y, z) * square(z));
    fp::lemma_unique(a, b);
}

/// Affine coordinates as Jacobian ones.
pub proof fn lemma_affine(x: int, y: int)
    requires
        fp::canonical(x),
        fp::canonical(y),
    ensures
        point(x, y, 1) == (Point::Affine { x, y }),
{
    fp::lemma_small(1);
    fp::lemma_zero();
    lemma_mul_basics(x);
    lemma_mul_basics(y);
    lemma_point_is(x, y, 1, x, y);
}

/// The curve equation in Jacobian coordinates, as field operations.
pub open spec fn equation(x: int, y: int, z: int) -> bool {
    let zz = square(z);
    let zzzz = square(zz);
    square(y) == sum(
        diff(prod(square(x), x), prod(thrice(x), zzzz)),
        prod(curve::b(), prod(zzzz, zz)),
    )
}

/// The field operations check the curve equation.
pub proof fn lemma_equation_checked(x: int, y: int, z: int)
    requires
        !fp::vanishes(z),
    ensures
        curve::on_curve(point(x, y, z)) <==> equation(x, y, z),
{
    let zz = square(z);
    let zzzz = square(zz);
    let w = x * x * x - 3 * (x * (z * z * (z * z))) + curve::b() * (z * z * z * (z * z * z));
    let rhs = sum(
        diff(prod(square(x), x), prod(thrice(x), zzzz)),
        prod(curve::b(), prod(zzzz, zz)),
    );
    lemma_equation(x, y, z);
    lemma_refl(x);
    lemma_refl(y);
    lemma_refl(z);
    lemma_refl(curve::b());
    lemma_prod(x, x, x, x);
    lemma_prod(square(x), x, x * x, x);
    lemma_prod(y, y, y, y);
    lemma_prod(z, z, z, z);
    lemma_prod(zz, zz, z * z, z * z);
    lemma_prod(zzzz, zz, z * z * (z * z), z * z);
    lemma_sum(x, x, x, x);
    lemma_sum(sum(x, x), x, x + x, x);
    lemma_prod(thrice(x), zzzz, 3 * x, z * z * (z * z));
    lemma_prod(curve::b(), prod(zzzz, zz), curve::b(), z * z * (z * z) * (z * z));
    lemma_diff(
        prod(square(x), x),
        prod(thrice(x), zzzz),
        x * x * x,
        3 * x * (z * z * (z * z)),
    );
    lemma_sum(
        diff(prod(square(x), x), prod(thrice(x), zzzz)),
        prod(curve::b(), prod(zzzz, zz)),
        x * x * x - 3 * x * (z * z * (z * z)),
        curve::b() * (z * z * (z * z) * (z * z)),
    );
    lemma_mul_is_associative(3, x, z * z * (z * z));
    assert(z * z * (z * z) * (z * z) == z * z * z * (z * z * z)) by {
        lemma_mul_is_associative(z * z, z * z, z * z);
        lemma_mul_is_associative(z * z, z, z * z * z);
        lemma_mul_is_associative(z, z, z);
        lemma_mul_is_associative(z, z, z * z);
    }
    fp::lemma_reduce(y * y);
    fp::lemma_reduce(
        diff(prod(square(x), x), prod(thrice(x), zzzz)) + prod(curve::b(), prod(zzzz, zz)),
    );
    // both sides up to congruence
    fp::lemma_add(square(y) - y * y, rhs - w);
    fp::lemma_shift(square(y) - rhs, y * y - w);
    if fp::vanishes(square(y) - rhs) {
        fp::lemma_unique(square(y), rhs);
    } else {
        fp::lemma_zero();
    }
}

/// The cubic as field operations.
pub proof fn lemma_right_hand_side(x: int)
    ensures
        sum(diff(prod(square(x), x), thrice(x)), curve::b()) == curve::cubic(x) % fp::p(),
{
    let r = sum(diff(prod(square(x), x), thrice(x)), curve::b());
    lemma_refl(x);
    lemma_refl(curve::b());
    lemma_prod(x, x, x, x);
    lemma_prod(square(x), x, x * x, x);
    lemma_sum(x, x, x, x);
    lemma_sum(sum(x, x), x, x + x, x);
    lemma_diff(prod(square(x), x), thrice(x), x * x * x, 3 * x);
    lemma_sum(diff(prod(square(x), x), thrice(x)), curve::b(), x * x * x - 3 * x, curve::b());
    fp::lemma_reduce(diff(prod(square(x), x), thrice(x)) + curve::b());
    fp::lemma_reduce(curve::cubic(x));
    fp::lemma_trans(r, curve::cubic(x), curve::cubic(x) % fp::p());
    fp::lemma_unique(r, curve::cubic(x) % fp::p());
}

/// The inverse of a point in Jacobian coordinates.
pub proof fn lemma_negated(x: int, y: int, z: int)
    ensures
        point(x, (-y) % fp::p(), z) == curve::neg(point(x, y, z)),
{
    if !fp::vanishes(z) {
        lemma_point(x, y, z);
        if let Point::Affine { x: a, y: b } = point(x, y, z) {
            let (m, n) = ((-y) % fp::p(), (-b) % fp::p());
            let w = z * z * z;
            fp::lemma_reduce(-y);
            fp::lemma_reduce(-b);
            fp::lemma_scale(w, n + b);
            lemma_mul_is_distributive_add_other_way(w, n, b);
            fp::lemma_add(m + y, y - b * w);
            fp::lemma_add((m + y) - (y - b * w), (n + b) * w);
            lemma_point_is(x, m, z, a, n);
        }
    }
}

} // verus!
