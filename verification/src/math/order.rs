//! The number of points of the curve, and what it means for multiples.
//!
//! For every abscissa there are two points of the curve or none, so that with
//! the point at infinity their number is odd and at most `2 p + 1`. It is a
//! multiple of the order of the generator, which is prime. Only one such
//! number is small enough.
use crate::math::addition;
use crate::math::associativity;
use crate::math::certificates;
use crate::math::curve;
use crate::math::curve::Point;
use crate::math::finite_group;
use crate::math::fp;
use crate::math::generator;
use crate::math::multiples;
use crate::math::primes;
use crate::math::torsion;
use vstd::arithmetic::div_mod::*;
use vstd::arithmetic::mul::*;
use vstd::prelude::*;

verus! {

/// The points of the curve with abscissas below a bound, and the point at
/// infinity.
spec fn below(n: int) -> Set<Point> {
    Set::new(|p: Point| curve::on_curve(p) && (p is Affine ==> p->x < n))
}

/// All points of the curve.
pub open spec fn points() -> Set<Point> {
    Set::new(|p: Point| curve::on_curve(p))
}

/// The addition of points as a function.
spec fn operation() -> spec_fn(Point, Point) -> Point {
    |p: Point, q: Point| curve::plus(p, q)
}

/// The number of points below a bound is odd.
proof fn lemma_count(n: nat)
    requires
        n <= fp::p(),
    ensures
        below(n as int).finite(),
        below(n as int).len() % 2 == 1,
        0 < below(n as int).len() <= 2 * n + 1,
    decreases n,
{
    if n == 0 {
        assert(below(0) =~= Set::empty().insert(Point::Infinity));
    } else {
        let x = n - 1;
        let s = below(x);
        let t = below(n as int);
        lemma_count(x as nat);
        if exists|y: int| #[trigger] curve::on_curve(Point::Affine { x, y }) {
            let y = choose|y: int| #[trigger] curve::on_curve(Point::Affine { x, y });
            let (a, b) = (Point::Affine { x, y }, curve::neg(Point::Affine { x, y }));
            torsion::lemma_no_root(x);
            addition::lemma_neg(a);
            if a == b {
                // then y is 0, a root of the cubic
                fp::lemma_reduce(-y);
                fp::lemma_scale(1, b->y + y);
                if y != 0 {
                    addition::lemma_doubled(y);
                }
                fp::lemma_scale(1, y * y - curve::cubic(x));
            }
            assert(t =~= s.insert(a).insert(b)) by {
                assert forall|q: Point| t.contains(q) implies s.insert(a).insert(b).contains(q) by {
                    if q is Affine && q->x == x && q != a {
                        lemma_two_points(x, y, q->y);
                    }
                }
            }
        } else {
            assert(t =~= s) by {
                assert forall|q: Point| t.contains(q) implies s.contains(q) by {
                    if q is Affine && q->x == x {
                        assert(curve::on_curve(Point::Affine { x, y: q->y }));
                    }
                }
            }
        }
    }
}

/// Points with one abscissa are equal or inverse to each other.
proof fn lemma_two_points(x: int, y1: int, y2: int)
    requires
        curve::on_curve(Point::Affine { x, y: y1 }),
        curve::on_curve(Point::Affine { x, y: y2 }),
        y1 != y2,
    ensures
        curve::neg(Point::Affine { x, y: y1 }) == (Point::Affine { x, y: y2 }),
{
    let z = (-y1) % fp::p();
    addition::lemma_opposite(x, y1, y2);
    fp::lemma_reduce(-y1);
    fp::lemma_add(z + y1, y2 + y1);
    fp::lemma_unique(z, y2);
}

/// The points of the curve are an abelian group.
proof fn lemma_abelian()
    ensures
        finite_group::is_abelian(points(), operation(), Point::Infinity),
{
    let (s, op) = (points(), operation());
    assert forall|a: Point, b: Point| s.contains(a) && s.contains(b) implies s.contains(
        #[trigger] op(a, b),
    ) && op(a, b) == op(b, a) by {
        addition::lemma_closed(a, b);
        addition::lemma_commutative(a, b);
    }
    assert forall|a: Point, b: Point, c: Point|
        s.contains(a) && s.contains(b) && s.contains(c) implies #[trigger] op(op(a, b), c) == op(
        a,
        op(b, c),
    ) by {
        associativity::lemma_associative(a, b, c);
    }
    assert forall|a: Point, b: Point, c: Point|
        s.contains(a) && s.contains(b) && s.contains(c) && #[trigger] op(a, b) == #[trigger] op(
            a,
            c,
        ) implies b == c by {
        let n = curve::neg(a);
        addition::lemma_neg(a);
        associativity::lemma_associative(n, a, b);
        associativity::lemma_associative(n, a, c);
    }
    reveal(finite_group::is_abelian);
}

/// Multiples are powers in the group.
proof fn lemma_power(k: nat, p: Point)
    ensures
        finite_group::power(operation(), Point::Infinity, p, k) == curve::times(k, p),
    decreases k,
{
    if k > 0 {
        lemma_power((k - 1) as nat, p);
    }
}

/// The curve has as many points as the group order says.
pub proof fn lemma_number_of_points()
    ensures
        points().finite(),
        points().len() == certificates::group_order(),
{
    let m = points().len();
    let n = certificates::group_order();
    let g = generator::point();
    assert(points() =~= below(fp::p()));
    lemma_count(fp::p() as nat);
    lemma_abelian();
    generator::lemma_on_curve();
    generator::lemma_order();
    finite_group::lemma_order_kills(points(), operation(), Point::Infinity, g);
    lemma_power(m, g);
    if m as int % n != 0 {
        lemma_common_period(m, n, g);
    }
    // m is an odd multiple of n below 3 n
    lemma_fundamental_div_mod(m as int, n);
    let k = m as int / n;
    if k >= 3 {
        lemma_mul_inequality(3, k, n);
        lemma_mul_is_commutative(n, k);
    } else if k <= 0 {
        lemma_div_pos_is_pos(m as int, n);
        assert(k == 0);
    }
    assert(k == 1 || k == 2);
}

/// A point that a number and a prime not dividing it both take to infinity is
/// the point at infinity.
pub proof fn lemma_common_period(m: nat, n: int, p: Point)
    requires
        curve::on_curve(p),
        n == certificates::group_order(),
        m as int % n != 0,
        curve::times(m, p) == Point::Infinity,
        curve::times(n as nat, p) == Point::Infinity,
    ensures
        p == Point::Infinity,
{
    certificates::lemma_group_order_prime();
    lemma_mod_bound(m as int, n);
    let r = m as int % n;
    let u = primes::lemma_inverse(n, r);
    // u m == 1 + n k
    lemma_mul_mod_noop_general(m as int, u, n);
    let q = u * m;
    lemma_mul_is_commutative(u, m as int);
    assert(q % n == 1);
    lemma_fundamental_div_mod(q, n);
    let k = q / n;
    lemma_mul_nonnegative(u, m as int);
    lemma_div_pos_is_pos(q, n);
    lemma_mul_is_commutative(n, k);
    lemma_mul_nonnegative(k, n);
    multiples::lemma_times_multiply(u as nat, m, p);
    multiples::lemma_times_infinity(u as nat);
    multiples::lemma_times_multiply(k as nat, n as nat, p);
    multiples::lemma_times_infinity(k as nat);
    multiples::lemma_times_one(p);
    multiples::lemma_times_add((k * n) as nat, 1, p);
    assert(curve::times(q as nat, p) == Point::Infinity);
}

/// The group order takes every point of the curve to infinity.
pub proof fn lemma_order(p: Point)
    requires
        curve::on_curve(p),
    ensures
        curve::times(certificates::group_order() as nat, p) == Point::Infinity,
{
    lemma_number_of_points();
    lemma_abelian();
    finite_group::lemma_order_kills(points(), operation(), Point::Infinity, p);
    lemma_power(certificates::group_order() as nat, p);
}

/// Multipliers count modulo the group order.
pub proof fn lemma_times_reduce(k: nat, p: Point)
    requires
        curve::on_curve(p),
    ensures
        curve::times(k, p) == curve::times((k as int % certificates::group_order()) as nat, p),
{
    let n = certificates::group_order();
    let (q, r) = (k as int / n, k as int % n);
    lemma_fundamental_div_mod(k as int, n);
    lemma_mod_bound(k as int, n);
    lemma_div_pos_is_pos(k as int, n);
    lemma_mul_is_commutative(n, q);
    lemma_mul_nonnegative(q, n);
    lemma_order(p);
    multiples::lemma_times_multiply(q as nat, n as nat, p);
    multiples::lemma_times_infinity(q as nat);
    multiples::lemma_times_add((q * n) as nat, r as nat, p);
}

/// The numbers of a combination count modulo the group order.
pub proof fn lemma_combination_reduce(ks: Seq<int>, ps: Seq<Point>, n: nat)
    requires
        n <= ks.len(),
        n <= ps.len(),
        forall|i: int| 0 <= i < n ==> #[trigger] curve::on_curve(ps[i]),
        forall|i: int| 0 <= i < n ==> 0 <= #[trigger] ks[i],
    ensures
        curve::combination(ks, ps, n) == curve::combination(
            ks.map_values(|k: int| k % certificates::group_order()),
            ps,
            n,
        ),
    decreases n,
{
    if n > 0 {
        lemma_combination_reduce(ks, ps, (n - 1) as nat);
        assert(curve::on_curve(ps[n - 1]));
        assert(0 <= ks[n - 1]);
        lemma_times_reduce(ks[n - 1] as nat, ps[n - 1]);
    }
}

} // verus!
