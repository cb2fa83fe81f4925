//! What holds of the group, of multiples of its points and of the encodings.
//!
//! The laws are stated over the mathematical points, the sums and multiples and
//! the encodings that the contracts of [`crate::group`] speak of.
use crate::bytes;
use crate::encoding;
use crate::field::FieldElement;
use crate::group;
use crate::group::AffinePoint;
use crate::group::ProjectivePoint;
use crate::group::BASE_WINDOW_POINTS;
use crate::limbs::U256;
use crate::math::addition;
use crate::math::associativity;
use crate::math::certificates;
use crate::math::curve;
use crate::math::curve::Point;
use crate::math::fp;
use crate::math::generator;
use crate::math::jacobian;
use crate::math::modular;
use crate::math::multiples;
use crate::math::order;
use crate::math::primes;
use crate::math::torsion;
use crate::Endianness;
use vstd::arithmetic::div_mod::*;
use vstd::arithmetic::mul::*;
use vstd::arithmetic::power::*;
use vstd::arithmetic::power2::*;
use vstd::prelude::*;
use vstd::std_specs::cmp::PartialEqSpec;

verus! {

/// The sum of two points of the curve is a point of the curve.
pub proof fn law_closed(p: Point, q: Point)
    requires
        curve::on_curve(p),
        curve::on_curve(q),
    ensures
        curve::on_curve(curve::plus(p, q)),
{
    addition::lemma_closed(p, q);
}

/// The point at infinity is the identity.
pub proof fn law_identity(p: Point)
    ensures
        curve::plus(Point::Infinity, p) == p,
        curve::plus(p, Point::Infinity) == p,
{
}

/// Every point has an inverse, and the inverse of the inverse is the point.
pub proof fn law_inverse(p: Point)
    requires
        curve::on_curve(p),
    ensures
        curve::on_curve(curve::neg(p)),
        curve::plus(p, curve::neg(p)) == Point::Infinity,
        curve::plus(curve::neg(p), p) == Point::Infinity,
        curve::neg(curve::neg(p)) == p,
{
    addition::lemma_neg(p);
}

/// Addition is commutative.
pub proof fn law_commutative(p: Point, q: Point)
    requires
        curve::on_curve(p),
        curve::on_curve(q),
    ensures
        curve::plus(p, q) == curve::plus(q, p),
{
    addition::lemma_commutative(p, q);
}

/// Addition is associative.
pub proof fn law_associative(p: Point, q: Point, r: Point)
    requires
        curve::on_curve(p),
        curve::on_curve(q),
        curve::on_curve(r),
    ensures
        curve::plus(curve::plus(p, q), r) == curve::plus(p, curve::plus(q, r)),
{
    associativity::lemma_associative(p, q, r);
}

/// Subtraction undoes addition, and addition undoes subtraction.
pub proof fn law_subtraction(p: Point, q: Point)
    requires
        curve::on_curve(p),
        curve::on_curve(q),
    ensures
        curve::plus(curve::plus(p, q), curve::neg(q)) == p,
        curve::plus(curve::plus(p, curve::neg(q)), q) == p,
{
    addition::lemma_neg(q);
    associativity::lemma_associative(p, q, curve::neg(q));
    associativity::lemma_associative(p, curve::neg(q), q);
}

/// Scaling Jacobian coordinates by a number other than 0 does not change the
/// point.
pub proof fn law_jacobian_scale(x: int, y: int, z: int, c: int)
    requires
        c % fp::p() != 0,
    ensures
        jacobian::point(
            jacobian::prod(x, jacobian::square(c)),
            jacobian::prod(jacobian::prod(y, jacobian::square(c)), c),
            jacobian::prod(z, c),
        ) == jacobian::point(x, y, z),
{
    fp::lemma_vanishes(c);
    jacobian::lemma_scale(x, y, z, c);
}

/// Multiples of points of the curve are points of the curve.
pub proof fn law_times_closed(k: nat, p: Point)
    requires
        curve::on_curve(p),
    ensures
        curve::on_curve(curve::times(k, p)),
{
    multiples::lemma_times_closed(k, p);
}

/// Doubling is multiplication by 2.
pub proof fn law_double(p: Point)
    requires
        curve::on_curve(p),
    ensures
        curve::plus(p, p) == curve::times(2, p),
{
    multiples::lemma_times_one(p);
    multiples::lemma_times_add(1, 1, p);
}

/// The sum of two multiples of a point is the multiple by the sum.
pub proof fn law_times_add(j: nat, k: nat, p: Point)
    requires
        curve::on_curve(p),
    ensures
        curve::times(j + k, p) == curve::plus(curve::times(j, p), curve::times(k, p)),
{
    multiples::lemma_times_add(j, k, p);
}

/// A multiple of a multiple of a point is the multiple by the product.
pub proof fn law_times_multiply(j: nat, k: nat, p: Point)
    requires
        curve::on_curve(p),
    ensures
        curve::times(j * k, p) == curve::times(j, curve::times(k, p)),
{
    multiples::lemma_times_multiply(j, k, p);
}

/// A multiple of a sum is the sum of the multiples.
pub proof fn law_times_plus(k: nat, p: Point, q: Point)
    requires
        curve::on_curve(p),
        curve::on_curve(q),
    ensures
        curve::times(k, curve::plus(p, q)) == curve::plus(curve::times(k, p), curve::times(k, q)),
{
    multiples::lemma_times_plus(k, p, q);
}

/// A multiple of the inverse is the inverse of the multiple.
pub proof fn law_times_neg(k: nat, p: Point)
    requires
        curve::on_curve(p),
    ensures
        curve::times(k, curve::neg(p)) == curve::neg(curve::times(k, p)),
{
    let (a, b) = (curve::times(k, p), curve::times(k, curve::neg(p)));
    addition::lemma_neg(p);
    multiples::lemma_times_closed(k, p);
    multiples::lemma_times_closed(k, curve::neg(p));
    multiples::lemma_times_plus(k, curve::neg(p), p);
    multiples::lemma_times_infinity(k);
    addition::lemma_neg(a);
    associativity::lemma_associative(b, a, curve::neg(a));
}

/// The number of points of the curve, with the point at infinity, is the group
/// order, and it is prime.
pub proof fn law_number_of_points()
    ensures
        order::points().finite(),
        order::points().len() == certificates::group_order(),
        primes::is_prime(certificates::group_order()),
{
    order::lemma_number_of_points();
    certificates::lemma_group_order_prime();
}

/// Multipliers count modulo the group order.
pub proof fn law_times_reduce(k: nat, p: Point)
    requires
        curve::on_curve(p),
    ensures
        curve::times(k, p) == curve::times((k as int % certificates::group_order()) as nat, p),
{
    order::lemma_times_reduce(k, p);
}

/// Only multiples of the group order take a point other than the point at
/// infinity to infinity.
pub proof fn law_period(k: nat, p: Point)
    requires
        curve::on_curve(p),
        p is Affine,
    ensures
        curve::times(k, p) == Point::Infinity <==> k as int % certificates::group_order() == 0,
{
    order::lemma_times_reduce(k, p);
    if k as int % certificates::group_order() != 0 && curve::times(k, p) == Point::Infinity {
        order::lemma_order(p);
        order::lemma_common_period(k, certificates::group_order(), p);
    }
}

/// Multiples of the generator by different numbers below the group order are
/// different.
pub proof fn law_generator(j: nat, k: nat)
    requires
        j < k < certificates::group_order(),
    ensures
        curve::times(j, generator::point()) != curve::times(k, generator::point()),
{
    let g = generator::point();
    let d = (k - j) as nat;
    generator::lemma_on_curve();
    if curve::times(j, g) == curve::times(k, g) {
        let (a, b) = (curve::times(j, g), curve::times(d, g));
        multiples::lemma_times_add(d, j, g);
        multiples::lemma_times_closed(j, g);
        multiples::lemma_times_closed(d, g);
        // b + a == a, so that b is the point at infinity
        addition::lemma_neg(a);
        associativity::lemma_associative(b, a, curve::neg(a));
        law_period(d, g);
        lemma_small_mod(d, certificates::group_order() as nat);
    }
}

/// Multiplication with a table of multiples gives the multiple, so that
/// fixed-base and variable-base multiplication agree.
pub proof fn law_window_table(
    table: Seq<[AffinePoint; BASE_WINDOW_POINTS]>,
    scalar: Seq<u8>,
    p: Point,
)
    requires
        curve::on_curve(p),
        group::is_window8_table(table, p),
        table.len() == 32,
        scalar.len() == 32,
    ensures
        group::window_sum(table, scalar, 32) == curve::times(bytes::be_value(scalar) as nat, p),
{
    group::lemma_window_sum(table, scalar, 32, p);
}

/// A double multiplication is a combination of the generator and a point.
pub proof fn law_double_multiplication(j: int, k: int, p: Point)
    ensures
        curve::combination(seq![j, k], seq![generator::point(), p], 2) == curve::plus(
            curve::times(j as nat, generator::point()),
            curve::times(k as nat, p),
        ),
{
    law_combination_of_two(j, generator::point(), k, p);
}

/// A combination of two points is the sum of the two multiples.
pub proof fn law_combination_of_two(j: int, p: Point, k: int, q: Point)
    ensures
        curve::combination(seq![j, k], seq![p, q], 2) == curve::plus(
            curve::times(j as nat, p),
            curve::times(k as nat, q),
        ),
{
    let (ks, ps) = (seq![j, k], seq![p, q]);
    assert(curve::combination(ks, ps, 0) == Point::Infinity);
    assert(curve::combination(ks, ps, 1) == curve::times(j as nat, p));
}

/// A combination of points with others appended is the sum of the two
/// combinations.
pub proof fn law_combination_append(
    js: Seq<int>,
    ps: Seq<Point>,
    ks: Seq<int>,
    qs: Seq<Point>,
)
    requires
        js.len() == ps.len(),
        ks.len() == qs.len(),
        forall|i: int| 0 <= i < ps.len() ==> #[trigger] curve::on_curve(ps[i]),
        forall|i: int| 0 <= i < qs.len() ==> #[trigger] curve::on_curve(qs[i]),
    ensures
        curve::combination(js + ks, ps + qs, ps.len() + qs.len()) == curve::plus(
            curve::combination(js, ps, ps.len()),
            curve::combination(ks, qs, qs.len()),
        ),
    decreases qs.len(),
{
    if qs.len() == 0 {
        lemma_combination_prefix(js + ks, js, ps + qs, ps, ps.len());
    } else {
        let n = (qs.len() - 1) as nat;
        let (k, q) = (ks.last(), qs.last());
        let (rest_ks, rest_qs) = (ks.drop_last(), qs.drop_last());
        assert forall|i: int| 0 <= i < rest_qs.len() implies #[trigger] curve::on_curve(
            rest_qs[i],
        ) by {
            assert(curve::on_curve(qs[i]));
        }
        law_combination_append(js, ps, rest_ks, rest_qs);
        lemma_combination_prefix(
            js + ks,
            js + rest_ks,
            ps + qs,
            ps + rest_qs,
            ps.len() + n,
        );
        lemma_combination_prefix(ks, rest_ks, qs, rest_qs, n);
        let (a, b) = (curve::combination(js, ps, ps.len()), curve::combination(ks, qs, n));
        assert(curve::on_curve(qs[qs.len() - 1]));
        multiples::lemma_combination_closed(js, ps, ps.len());
        multiples::lemma_combination_closed(ks, qs, n);
        multiples::lemma_times_closed(k as nat, q);
        associativity::lemma_associative(a, b, curve::times(k as nat, q));
    }
}

/// A combination depends on the points and numbers that it takes alone.
proof fn lemma_combination_prefix(
    js: Seq<int>,
    ks: Seq<int>,
    ps: Seq<Point>,
    qs: Seq<Point>,
    n: nat,
)
    requires
        forall|i: int| 0 <= i < n ==> js[i] == ks[i] && ps[i] == qs[i],
    ensures
        curve::combination(js, ps, n) == curve::combination(ks, qs, n),
    decreases n,
{
    if n > 0 {
        lemma_combination_prefix(js, ks, ps, qs, (n - 1) as nat);
        assert(js[n - 1] == ks[n - 1]);
    }
}

/// The numbers of a combination count modulo the group order.
pub proof fn law_combination_reduce(ks: Seq<int>, ps: Seq<Point>, n: nat)
    requires
        n <= ks.len(),
        n <= ps.len(),
        forall|i: int| 0 <= i < n ==> #[trigger] curve::on_curve(ps[i]),
        forall|i: int| 0 <= i < n ==> 0 <= #[trigger] ks[i],
    ensures
        curve::combination(ks, ps, n) == curve::combination(
            ks.map_values(|k: int| k % certificates::group_order()),
            ps,
            n,
        ),
{
    order::lemma_combination_reduce(ks, ps, n);
}

/// Zero bytes write 0.
proof fn lemma_zero_bytes(s: Seq<u8>, n: nat)
    requires
        forall|i: int| 0 <= i < n ==> s[i] == 0,
    ensures
        bytes::be_prefix(s, n) == 0,
    decreases n,
{
    if n > 0 {
        lemma_zero_bytes(s, (n - 1) as nat);
    }
}

/// Byte strings of one length that write the same number are equal.
proof fn lemma_number_injective(s: Seq<u8>, t: Seq<u8>, endianness: Endianness)
    requires
        s.len() == t.len(),
        encoding::number(s, endianness) == encoding::number(t, endianness),
    ensures
        s == t,
{
    match endianness {
        Endianness::Big => {
            bytes::lemma_be_injective(s, t);
        },
        Endianness::Little => {
            bytes::lemma_be_injective(s.reverse(), t.reverse());
            assert(s =~= s.reverse().reverse());
            assert(t =~= t.reverse().reverse());
        },
    }
}

/// The origin is not on the curve, so that zero bytes encode the point at
/// infinity alone.
proof fn lemma_origin()
    ensures
        !curve::on_curve(Point::Affine { x: 0, y: 0 }),
{
    fp::lemma_small(curve::b());
}

/// What was written as a point of the curve is read as that point.
pub proof fn law_uncompressed_read(p: Point, s: Seq<u8>, endianness: Endianness)
    requires
        curve::on_curve(p),
        encoding::uncompressed(p, s, endianness),
    ensures
        encoding::read_uncompressed(s, endianness) == Some(p),
{
    if forall|i: int| 0 <= i < 64 ==> s[i] == 0 {
        let (a, b) = (s.subrange(0, 32), s.subrange(32, 64));
        lemma_zero_bytes(a, 32);
        lemma_zero_bytes(b, 32);
        lemma_zero_bytes(a.reverse(), 32);
        lemma_zero_bytes(b.reverse(), 32);
        lemma_origin();
    }
}

/// A point has one uncompressed encoding at most.
pub proof fn law_uncompressed_unique(p: Point, s: Seq<u8>, t: Seq<u8>, endianness: Endianness)
    requires
        encoding::uncompressed(p, s, endianness),
        encoding::uncompressed(p, t, endianness),
    ensures
        s == t,
{
    if p is Affine {
        lemma_number_injective(s.subrange(0, 32), t.subrange(0, 32), endianness);
        lemma_number_injective(s.subrange(32, 64), t.subrange(32, 64), endianness);
        assert(s =~= s.subrange(0, 32) + s.subrange(32, 64));
        assert(t =~= t.subrange(0, 32) + t.subrange(32, 64));
    } else {
        assert(s =~= t);
    }
}

/// What was read as a point is written back unchanged.
pub proof fn law_uncompressed_write(p: Point, s: Seq<u8>, t: Seq<u8>, endianness: Endianness)
    requires
        s.len() == 64,
        encoding::read_uncompressed(s, endianness) == Some(p),
        encoding::uncompressed(p, t, endianness),
    ensures
        s == t,
{
    assert(encoding::uncompressed(p, s, endianness));
    law_uncompressed_unique(p, s, t, endianness);
}

/// 33 bytes are the compressed encoding of one point at most: what was written
/// as one point is read as that point.
pub proof fn law_compressed_read(p: Point, q: Point, s: Seq<u8>, endianness: Endianness)
    requires
        curve::on_curve(p),
        curve::on_curve(q),
        encoding::compressed(p, s, endianness),
        encoding::compressed(q, s, endianness),
    ensures
        p == q,
{
    let (x, y, z) = (p->x, p->y, q->y);
    if y != z {
        // the ordinates add up to the modulus, which is odd
        addition::lemma_opposite(x, y, z);
        modular::lemma_multiple(fp::p(), -1);
        fp::lemma_vanishes(-fp::p());
        fp::lemma_add(z + y, -fp::p());
        if y == 0 || z == 0 {
            fp::lemma_canonical(z + y);
        } else {
            fp::lemma_unique(z, fp::p() - y);
        }
    }
}

/// A point has one compressed encoding at most: what was read as a point is
/// written back unchanged.
pub proof fn law_compressed_write(p: Point, s: Seq<u8>, t: Seq<u8>, endianness: Endianness)
    requires
        encoding::compressed(p, s, endianness),
        encoding::compressed(p, t, endianness),
    ensures
        s == t,
{
    lemma_number_injective(s.subrange(1, 33), t.subrange(1, 33), endianness);
    assert(s =~= seq![s[0]] + s.subrange(1, 33));
    assert(t =~= seq![t[0]] + t.subrange(1, 33));
}

/// The little-endian encoding of a point is the big-endian one with the bytes
/// of each coordinate reversed.
pub proof fn law_uncompressed_endianness(p: Point, s: Seq<u8>, t: Seq<u8>)
    requires
        encoding::uncompressed(p, s, Endianness::Big),
        encoding::uncompressed(p, t, Endianness::Little),
    ensures
        t == s.subrange(0, 32).reverse() + s.subrange(32, 64).reverse(),
{
    let r = s.subrange(0, 32).reverse() + s.subrange(32, 64).reverse();
    assert(r.subrange(0, 32) =~= s.subrange(0, 32).reverse());
    assert(r.subrange(32, 64) =~= s.subrange(32, 64).reverse());
    assert(s.subrange(0, 32).reverse().reverse() =~= s.subrange(0, 32));
    assert(s.subrange(32, 64).reverse().reverse() =~= s.subrange(32, 64));
    law_uncompressed_unique(p, r, t, Endianness::Little);
}

/// The same for compressed encodings.
pub proof fn law_compressed_endianness(p: Point, s: Seq<u8>, t: Seq<u8>)
    requires
        encoding::compressed(p, s, Endianness::Big),
        encoding::compressed(p, t, Endianness::Little),
    ensures
        t == seq![s[0]] + s.subrange(1, 33).reverse(),
{
    let r = seq![s[0]] + s.subrange(1, 33).reverse();
    assert(r.subrange(1, 33) =~= s.subrange(1, 33).reverse());
    assert(s.subrange(1, 33).reverse().reverse() =~= s.subrange(1, 33));
    law_compressed_write(p, r, t, Endianness::Little);
}

/// The moduli: the field has `2^256 - 2^224 + 2^192 + 2^96 - 1` elements, and
/// the group order is the one of P-256.
pub proof fn law_moduli()
    ensures
        fp::p() == 0xffffffff00000001000000000000000000000000ffffffffffffffffffffffffint,
        certificates::group_order()
            == 0xffffffff00000000ffffffffffffffffbce6faada7179e84f3b9cac2fc632551int,
{
}

/// The points of the curve are the solutions of `y^2 = x^3 - 3 x + b` in the
/// field, and the point at infinity.
pub proof fn law_curve_equation(x: int, y: int)
    ensures
        curve::on_curve(Point::Infinity),
        curve::on_curve(Point::Affine { x, y }) <==> 0 <= x
            < 0xffffffff00000001000000000000000000000000ffffffffffffffffffffffffint && 0 <= y
            < 0xffffffff00000001000000000000000000000000ffffffffffffffffffffffffint && (y * y - (x
            * x * x - 3 * x + 0x5ac635d8aa3a93e7b3ebbd55769886bc651d06b0cc53b0f63bce3c3e27d2604bint))
            % 0xffffffff00000001000000000000000000000000ffffffffffffffffffffffffint == 0,
{
    fp::lemma_vanishes(y * y - curve::cubic(x));
}

/// The set of points holds exactly the points of the curve.
pub proof fn law_points(p: Point)
    ensures
        order::points().contains(p) <==> curve::on_curve(p),
{
}

/// The generator is the one of P-256.
pub proof fn law_generator_coordinates()
    ensures
        curve::on_curve(generator::point()),
        generator::point() == (Point::Affine {
            x: 0x6b17d1f2e12c4247f8bce6e563a440f277037d812deb33a0f4a13945d898c296int,
            y: 0x4fe342e2fe1a7f9b8ee7eb4a7c0f9e162bce33576b315ececbb6406837bf51f5int,
        }),
{
    generator::lemma_on_curve();
}

/// The sum of two points is the point at infinity where they have one abscissa
/// and their ordinates add up to 0, and there alone.
pub proof fn law_opposite(x1: int, y1: int, x2: int, y2: int)
    requires
        curve::on_curve(Point::Affine { x: x1, y: y1 }),
        curve::on_curve(Point::Affine { x: x2, y: y2 }),
    ensures
        curve::plus(
            Point::Affine { x: x1, y: y1 },
            Point::Affine { x: x2, y: y2 },
        ) is Infinity <==> x1 == x2 && (y1 + y2) % fp::p() == 0,
{
    fp::lemma_vanishes(y1 + y2);
    if addition::opposite(x1, y1, x2, y2) {
        addition::lemma_opposite(x1, y1, y2);
    } else if x1 == x2 && fp::vanishes(y1 + y2) {
        addition::lemma_doubled(y1);
    }
}

/// The sum of two points with different abscissas, as the equations of the
/// chord through them.
pub proof fn law_chord(x1: int, y1: int, x2: int, y2: int)
    requires
        curve::on_curve(Point::Affine { x: x1, y: y1 }),
        curve::on_curve(Point::Affine { x: x2, y: y2 }),
        x1 != x2,
    ensures
        curve::plus(
            Point::Affine { x: x1, y: y1 },
            Point::Affine { x: x2, y: y2 },
        ) matches Point::Affine { x: x3, y: y3 } && 0 <= x3 < fp::p() && 0 <= y3 < fp::p() && ((x1
            + x2 + x3) * ((x2 - x1) * (x2 - x1)) - (y2 - y1) * (y2 - y1)) % fp::p() == 0 && ((y1
            + y3) * (x2 - x1) - (y2 - y1) * (x1 - x3)) % fp::p() == 0,
{
    let (p, q) = (Point::Affine { x: x1, y: y1 }, Point::Affine { x: x2, y: y2 });
    let l = curve::slope(x1, y1, x2, y2);
    addition::lemma_slope(x1, y1, x2, y2);
    addition::lemma_third(l, x1, y1, x2);
    if let Point::Affine { x: x3, y: y3 } = curve::plus(p, q) {
        lemma_cleared(l, x2 - x1, y2 - y1, x1, y1, x2, x3, y3);
    }
}

/// Twice a point whose ordinate is not 0, as the equations of the tangent.
pub proof fn law_tangent(x1: int, y1: int)
    requires
        curve::on_curve(Point::Affine { x: x1, y: y1 }),
    ensures
        y1 != 0,
        curve::plus(
            Point::Affine { x: x1, y: y1 },
            Point::Affine { x: x1, y: y1 },
        ) matches Point::Affine { x: x3, y: y3 } && 0 <= x3 < fp::p() && 0 <= y3 < fp::p() && ((x1
            + x1 + x3) * ((2 * y1) * (2 * y1)) - (3 * (x1 * x1) - 3) * (3 * (x1 * x1) - 3))
            % fp::p() == 0 && ((y1 + y3) * (2 * y1) - (3 * (x1 * x1) - 3) * (x1 - x3)) % fp::p()
            == 0,
{
    let p = Point::Affine { x: x1, y: y1 };
    lemma_ordinate(x1, y1);
    let l = curve::slope(x1, y1, x1, y1);
    addition::lemma_slope(x1, y1, x1, y1);
    addition::lemma_third(l, x1, y1, x1);
    if let Point::Affine { x: x3, y: y3 } = curve::plus(p, p) {
        lemma_cleared(l, 2 * y1, 3 * (x1 * x1) - 3, x1, y1, x1, x3, y3);
    }
}

/// No point of the curve has ordinate 0.
proof fn lemma_ordinate(x: int, y: int)
    requires
        curve::on_curve(Point::Affine { x, y }),
    ensures
        y != 0,
{
    torsion::lemma_no_root(x);
    if y == 0 {
        fp::lemma_scale(1, y * y - curve::cubic(x));
    }
}

/// Clears the denominator `d` of a slope `n / d` from the coordinates of a third
/// point.
proof fn lemma_cleared(l: int, d: int, n: int, x1: int, y1: int, x2: int, x3: int, y3: int)
    requires
        fp::vanishes(n - l * d),
        fp::vanishes(x3 - (l * l - x1 - x2)),
        fp::vanishes(y3 - (l * (x1 - x3) - y1)),
    ensures
        ((x1 + x2 + x3) * (d * d) - n * n) % fp::p() == 0,
        ((y1 + y3) * d - n * (x1 - x3)) % fp::p() == 0,
{
    let (s, t) = (x1 + x2 + x3, y1 + y3);
    let a = x1 - x3;
    fp::lemma_zero();
    fp::lemma_shift(n, l * d);
    // s d^2 == l^2 d^2 == n^2
    fp::lemma_mul(s, l * l, d * d, d * d);
    fp::lemma_mul(l * d, n, l * d, n);
    assert((l * d) * (l * d) == (l * l) * (d * d)) by (nonlinear_arith);
    fp::lemma_trans(s * (d * d), (l * l) * (d * d), n * n);
    fp::lemma_vanishes(s * (d * d) - n * n);
    // t d == l a d == n a
    fp::lemma_mul(t, l * a, d, d);
    fp::lemma_mul(l * d, n, a, a);
    assert((l * a) * d == (l * d) * a) by (nonlinear_arith);
    fp::lemma_trans(t * d, (l * d) * a, n * a);
    fp::lemma_vanishes(t * d - n * a);
}

/// The inverse of a point has its abscissa, and an ordinate that adds up to 0
/// with that of the point. It is another point.
pub proof fn law_negative(x: int, y: int)
    requires
        curve::on_curve(Point::Affine { x, y }),
    ensures
        curve::neg(Point::Infinity) == Point::Infinity,
        curve::neg(Point::Affine { x, y }) matches Point::Affine { x: a, y: b } && a == x && 0 <= b
            < fp::p() && (y + b) % fp::p() == 0 && b != y,
{
    let b = (-y) % fp::p();
    fp::lemma_reduce(-y);
    fp::lemma_vanishes(y + b);
    lemma_ordinate(x, y);
    if b == y {
        addition::lemma_doubled(y);
    }
}

/// The multiple by 0 is the point at infinity, and the multiple by the next
/// number has one copy of the point more.
pub proof fn law_times_next(k: nat, p: Point)
    ensures
        curve::times(0, p) == Point::Infinity,
        curve::times(1, p) == p,
        curve::times(k + 1, p) == curve::plus(curve::times(k, p), p),
{
    multiples::lemma_times_one(p);
}

/// A combination with one more point has the multiple of that point more.
pub proof fn law_combination_next(ks: Seq<int>, ps: Seq<Point>, k: int, p: Point)
    requires
        ks.len() == ps.len(),
    ensures
        curve::combination(ks, ps, 0) == Point::Infinity,
        curve::combination(ks.push(k), ps.push(p), ps.len() + 1) == curve::plus(
            curve::combination(ks, ps, ps.len()),
            curve::times(k as nat, p),
        ),
{
    lemma_combination_prefix(ks.push(k), ks, ps.push(p), ps, ps.len());
}

/// The number that each multiplier stands for is the number that its bytes
/// write, whatever its place.
pub proof fn law_numbers(scalars: Seq<[u8; 32]>, i: int)
    requires
        0 <= i < scalars.len(),
    ensures
        group::numbers(scalars).len() == scalars.len(),
        group::numbers(scalars)[i] == bytes::be_value(scalars[i]@),
{
}

/// The point that each affine point stands for is its view, whatever its place.
pub proof fn law_views(points: Seq<AffinePoint>, i: int)
    requires
        0 <= i < points.len(),
    ensures
        group::views(points).len() == points.len(),
        group::views(points)[i] == points[i]@,
{
}

/// One more point and one more multiplier add the multiple of that point by the
/// number that the bytes of that multiplier write, however many there are
/// before.
pub proof fn law_multiplication_next(
    points: Seq<AffinePoint>,
    scalars: Seq<[u8; 32]>,
    point: AffinePoint,
    scalar: [u8; 32],
)
    requires
        points.len() == scalars.len(),
    ensures
        curve::combination(
            group::numbers(scalars.push(scalar)),
            group::views(points.push(point)),
            points.len() + 1,
        ) == curve::plus(
            curve::combination(group::numbers(scalars), group::views(points), points.len()),
            curve::times(bytes::be_value(scalar@) as nat, point@),
        ),
{
    assert(group::numbers(scalars.push(scalar)) =~= group::numbers(scalars).push(
        bytes::be_value(scalar@),
    ));
    assert(group::views(points.push(point)) =~= group::views(points).push(point@));
    law_combination_next(
        group::numbers(scalars),
        group::views(points),
        bytes::be_value(scalar@),
        point@,
    );
}

/// The number that bytes write, byte by byte: no bytes write 0, and each byte
/// more multiplies by 256 and adds the byte.
pub proof fn law_bytes_next(s: Seq<u8>, b: u8)
    ensures
        bytes::be_value(Seq::empty()) == 0,
        bytes::be_value(s.push(b)) == 256 * bytes::be_value(s) + b,
        0 <= bytes::be_value(s),
{
    bytes::lemma_prefix(s.push(b), s, s.len());
}

/// The number that a byte string followed by another writes.
pub proof fn law_bytes_append(s: Seq<u8>, t: Seq<u8>)
    ensures
        bytes::be_value(s + t) == bytes::be_value(s) * pow(256, t.len()) + bytes::be_value(t),
    decreases t.len(),
{
    let v = bytes::be_value(s);
    if t.len() == 0 {
        assert(s + t =~= s);
        lemma_pow0(256);
        lemma_mul_basics(v);
    } else {
        let (u, b) = (t.drop_last(), t.last());
        law_bytes_append(s, u);
        assert(t =~= u.push(b));
        assert(s + t =~= (s + u).push(b));
        law_bytes_next(s + u, b);
        law_bytes_next(u, b);
        let w = pow(256, u.len());
        assert(pow(256, t.len()) == 256 * w) by {
            lemma_pow1(256);
            lemma_pow_adds(256, 1, u.len());
        }
        lemma_mul_is_associative(v, 256, w);
        lemma_mul_is_commutative(v, 256);
        lemma_mul_is_associative(256, v, w);
    }
}

/// A number in one order of bytes, and the same number in the other.
pub proof fn law_byte_order(s: Seq<u8>)
    ensures
        encoding::number(s, Endianness::Big) == bytes::be_value(s),
        encoding::number(s, Endianness::Little) == bytes::be_value(s.reverse()),
        encoding::number(s.reverse(), Endianness::Little) == encoding::number(s, Endianness::Big),
{
    assert(s.reverse().reverse() =~= s);
}

/// An uncompressed encoding holds the two coordinates and nothing else, and zero
/// bytes for the point at infinity.
pub proof fn law_uncompressed(x: int, y: int, s: Seq<u8>)
    requires
        s.len() == 64,
    ensures
        encoding::uncompressed(Point::Affine { x, y }, s, Endianness::Big) <==> bytes::be_value(
            s.subrange(0, 32),
        ) == x && bytes::be_value(s.subrange(32, 64)) == y,
        encoding::uncompressed(Point::Affine { x, y }, s, Endianness::Little) <==> bytes::be_value(
            s.subrange(0, 32).reverse(),
        ) == x && bytes::be_value(s.subrange(32, 64).reverse()) == y,
        encoding::uncompressed(Point::Infinity, s, Endianness::Big) <==> bytes::be_value(s) == 0,
        encoding::uncompressed(Point::Infinity, s, Endianness::Little) <==> bytes::be_value(s) == 0,
{
    let z = Seq::new(64, |i: int| 0u8);
    lemma_zero_bytes(z, 64);
    if bytes::be_value(s) == 0 {
        bytes::lemma_be_injective(s, z);
    }
    if encoding::uncompressed(Point::Infinity, s, Endianness::Big) || encoding::uncompressed(
        Point::Infinity,
        s,
        Endianness::Little,
    ) {
        lemma_zero_bytes(s, 64);
    }
}

/// Reading is the converse of writing: 64 bytes are read as a point exactly if
/// they are its encoding.
pub proof fn law_read_uncompressed(p: Point, s: Seq<u8>, endianness: Endianness)
    requires
        s.len() == 64,
    ensures
        encoding::read_uncompressed(s, endianness) == Some(p) <==> curve::on_curve(p)
            && encoding::uncompressed(p, s, endianness),
{
    if curve::on_curve(p) && encoding::uncompressed(p, s, endianness) {
        law_uncompressed_read(p, s, endianness);
    }
}

/// A compressed encoding starts with 2 for an even ordinate and with 3 for an
/// odd one, whatever the abscissa, and the abscissa follows. The point at
/// infinity has no such encoding.
pub proof fn law_compressed(x: int, y: int, s: Seq<u8>)
    requires
        s.len() == 33,
    ensures
        encoding::compressed(Point::Affine { x, y }, s, Endianness::Big) <==> (s[0] == 2 && y % 2
            == 0 || s[0] == 3 && y % 2 == 1) && bytes::be_value(s.subrange(1, 33)) == x,
        encoding::compressed(Point::Affine { x, y }, s, Endianness::Little) <==> (s[0] == 2 && y % 2
            == 0 || s[0] == 3 && y % 2 == 1) && bytes::be_value(s.subrange(1, 33).reverse()) == x,
        !encoding::compressed(Point::Infinity, s, Endianness::Big),
        !encoding::compressed(Point::Infinity, s, Endianness::Little),
{
}

/// Jacobian coordinates `(x, y, z)` stand for the point `(a, b)` exactly if
/// `a z^2` is `x` and `b z^3` is `y` in the field, and for the point at infinity
/// exactly if `z` is 0 there.
pub proof fn law_jacobian_point(x: int, y: int, z: int, a: int, b: int)
    requires
        0 <= a < fp::p(),
        0 <= b < fp::p(),
    ensures
        jacobian::point(x, y, z) is Infinity <==> z % fp::p() == 0,
        z % fp::p() != 0 ==> (jacobian::point(x, y, z) == (Point::Affine { x: a, y: b }) <==> (x - a
            * (z * z)) % fp::p() == 0 && (y - b * (z * z * z)) % fp::p() == 0),
{
    fp::lemma_vanishes(z);
    fp::lemma_vanishes(x - a * (z * z));
    fp::lemma_vanishes(y - b * (z * z * z));
    if z % fp::p() != 0 {
        jacobian::lemma_point(x, y, z);
        if fp::vanishes(x - a * (z * z)) && fp::vanishes(y - b * (z * z * z)) {
            jacobian::lemma_point_is(x, y, z, a, b);
        }
    }
}

/// Values of a type compare as equal exactly if they stand for the same point,
/// or the same number, however they hold it.
pub proof fn law_equality(
    p: ProjectivePoint,
    q: ProjectivePoint,
    a: AffinePoint,
    b: AffinePoint,
    e: FieldElement,
    f: FieldElement,
)
    ensures
        p.eq_spec(&q) <==> p@ == q@,
        a.eq_spec(&b) <==> a@ == b@,
        e.eq_spec(&f) <==> e@ == f@,
{
}

/// Every entry of a table is the multiple by its index.
pub proof fn law_table(table: Seq<AffinePoint>, p: Point)
    ensures
        group::is_table(table, p) <==> forall|i: int|
            0 <= i < table.len() ==> (#[trigger] table[i])@ == curve::times(i as nat, p),
{
}

/// Every entry of every row of a table is the multiple by its index and the
/// weight of the row.
pub proof fn law_rows(table: Seq<[AffinePoint; BASE_WINDOW_POINTS]>, p: Point)
    requires
        curve::on_curve(p),
    ensures
        group::is_window8_table(table, p) <==> forall|w: int, d: int|
            0 <= w < table.len() && 0 <= d < 256 ==> (#[trigger] table[w]@[d])@ == curve::times(
                d as nat * pow2((8 * w) as nat),
                p,
            ),
{
    assert forall|w: int, d: int| 0 <= w && 0 <= d implies #[trigger] curve::times(
        d as nat * pow2((8 * w) as nat),
        p,
    ) == curve::times(d as nat, curve::times(pow2((8 * w) as nat), p)) by {
        multiples::lemma_times_multiply(d as nat, pow2((8 * w) as nat), p);
    }
    if forall|w: int, d: int|
        0 <= w < table.len() && 0 <= d < 256 ==> (#[trigger] table[w]@[d])@ == curve::times(
            d as nat * pow2((8 * w) as nat),
            p,
        ) {
        assert forall|w: int| 0 <= w < table.len() implies group::is_table(
            (#[trigger] table[w])@,
            curve::times(pow2((8 * w) as nat), p),
        ) by {
            assert forall|d: int| 0 <= d < table[w]@.len() implies (#[trigger] table[w]@[d])@
                == curve::times(d as nat, curve::times(pow2((8 * w) as nat), p)) by {
                multiples::lemma_times_multiply(d as nat, pow2((8 * w) as nat), p);
            }
        }
    } else if group::is_window8_table(table, p) {
        assert forall|w: int, d: int| 0 <= w < table.len() && 0 <= d < 256 implies (
        #[trigger] table[w]@[d])@ == curve::times(d as nat * pow2((8 * w) as nat), p) by {
            assert(group::is_table(table[w]@, curve::times(pow2((8 * w) as nat), p)));
            assert(0 <= d < table[w]@.len());
            multiples::lemma_times_multiply(d as nat, pow2((8 * w) as nat), p);
        }
    }
}

/// What the bytes of a multiplier pick from any table is the sum of one entry of
/// each row, the last byte picking from the first row.
pub proof fn law_window_entries(
    table: Seq<[AffinePoint; BASE_WINDOW_POINTS]>,
    scalar: Seq<u8>,
    k: nat,
)
    requires
        k <= table.len(),
        k <= scalar.len(),
    ensures
        group::window_sum(table, scalar, k) == curve::combination(
            Seq::new(k, |w: int| 1),
            Seq::new(k, |w: int| table[w]@[scalar[scalar.len() - 1 - w] as int]@),
            k,
        ),
    decreases k,
{
    if k > 0 {
        let m = (k - 1) as nat;
        let ones = Seq::new(k, |w: int| 1int);
        let ps = Seq::new(k, |w: int| table[w]@[scalar[scalar.len() - 1 - w] as int]@);
        law_window_entries(table, scalar, m);
        lemma_combination_prefix(
            ones,
            Seq::new(m, |w: int| 1int),
            ps,
            Seq::new(m, |w: int| table[w]@[scalar[scalar.len() - 1 - w] as int]@),
            m,
        );
        multiples::lemma_times_one(ps[m as int]);
    }
}

/// Limbs write a number in base `2^64`, the least significant first.
pub proof fn law_limbs(l: [u64; 4])
    ensures
        FieldElement::limbs_value(l) == l[0] + l[1] * 0x1_0000_0000_0000_0000int + l[2]
            * 0x1_0000_0000_0000_0000_0000_0000_0000_0000int + l[3]
            * 0x1_0000_0000_0000_0000_0000_0000_0000_0000_0000_0000_0000_0000int,
        (U256 { l0: l[0], l1: l[1], l2: l[2], l3: l[3] }).value() == FieldElement::limbs_value(l),
{
}

} // verus!
