//! The laws of multiples of points.
use crate::math::addition;
use crate::math::associativity;
use crate::math::curve;
use crate::math::curve::Point;
use vstd::arithmetic::mul::*;
use vstd::prelude::*;

verus! {

/// Multiples of a point of the curve are on the curve.
pub proof fn lemma_times_closed(k: nat, p: Point)
    requires
        curve::on_curve(p),
    ensures
        curve::on_curve(curve::times(k, p)),
    decreases k,
{
    if k > 0 {
        lemma_times_closed((k - 1) as nat, p);
        addition::lemma_closed(curve::times((k - 1) as nat, p), p);
    }
}

/// The first multiple is the point.
pub proof fn lemma_times_one(p: Point)
    ensures
        curve::times(1, p) == p,
{
    assert(curve::times(0, p) == Point::Infinity);
}

/// A sum of multiples is a multiple.
pub proof fn lemma_times_add(j: nat, k: nat, p: Point)
    requires
        curve::on_curve(p),
    ensures
        curve::times(j + k, p) == curve::plus(curve::times(j, p), curve::times(k, p)),
    decreases k,
{
    let a = curve::times(j, p);
    if k == 0 {
        assert(curve::plus(a, Point::Infinity) == a);
    } else {
        let b = curve::times((k - 1) as nat, p);
        lemma_times_add(j, (k - 1) as nat, p);
        lemma_times_closed(j, p);
        lemma_times_closed((k - 1) as nat, p);
        associativity::lemma_associative(a, b, p);
        assert(curve::times(j + k, p) == curve::plus(curve::times((j + k - 1) as nat, p), p));
    }
}

/// A multiple of a multiple is a multiple.
pub proof fn lemma_times_multiply(j: nat, k: nat, p: Point)
    requires
        curve::on_curve(p),
    ensures
        curve::times(j * k, p) == curve::times(j, curve::times(k, p)),
    decreases j,
{
    if j == 0 {
        lemma_mul_basics(k as int);
    } else {
        lemma_times_multiply((j - 1) as nat, k, p);
        lemma_mul_is_distributive_sub_other_way(k as int, j as int, 1);
        lemma_mul_nonnegative(j - 1, k as int);
        lemma_times_add(((j - 1) * k) as nat, k, p);
    }
}

/// Multiples of the point at infinity.
pub proof fn lemma_times_infinity(k: nat)
    ensures
        curve::times(k, Point::Infinity) == Point::Infinity,
    decreases k,
{
    if k > 0 {
        lemma_times_infinity((k - 1) as nat);
    }
}

/// A multiple of a sum is the sum of the multiples.
pub proof fn lemma_times_plus(k: nat, p: Point, q: Point)
    requires
        curve::on_curve(p),
        curve::on_curve(q),
    ensures
        curve::times(k, curve::plus(p, q)) == curve::plus(curve::times(k, p), curve::times(k, q)),
    decreases k,
{
    if k > 0 {
        let (a, b) = (curve::times((k - 1) as nat, p), curve::times((k - 1) as nat, q));
        lemma_times_plus((k - 1) as nat, p, q);
        lemma_times_closed((k - 1) as nat, p);
        lemma_times_closed((k - 1) as nat, q);
        lemma_four(a, b, p, q);
    }
}

/// `(a + b) + (p + q) == (a + p) + (b + q)`.
pub proof fn lemma_four(a: Point, b: Point, p: Point, q: Point)
    requires
        curve::on_curve(a),
        curve::on_curve(b),
        curve::on_curve(p),
        curve::on_curve(q),
    ensures
        curve::plus(curve::plus(a, b), curve::plus(p, q)) == curve::plus(
            curve::plus(a, p),
            curve::plus(b, q),
        ),
{
    addition::lemma_closed(p, q);
    addition::lemma_closed(b, p);
    addition::lemma_closed(b, q);
    addition::lemma_closed(a, p);
    associativity::lemma_associative(a, b, curve::plus(p, q));
    associativity::lemma_associative(b, p, q);
    addition::lemma_commutative(b, p);
    associativity::lemma_associative(p, b, q);
    associativity::lemma_associative(a, p, curve::plus(b, q));
}

/// Appends a digit to a multiplier.
pub proof fn lemma_times_digit(k: nat, d: nat, p: Point)
    requires
        curve::on_curve(p),
    ensures
        curve::plus(curve::times(16, curve::times(k, p)), curve::times(d, p)) == curve::times(
            16 * k + d,
            p,
        ),
{
    lemma_times_multiply(16, k, p);
    lemma_times_add(16 * k, d, p);
}

/// Combinations of points of the curve are on the curve.
pub proof fn lemma_combination_closed(ks: Seq<int>, ps: Seq<Point>, n: nat)
    requires
        forall|i: int| 0 <= i < n ==> #[trigger] curve::on_curve(ps[i]),
    ensures
        curve::on_curve(curve::combination(ks, ps, n)),
    decreases n,
{
    if n > 0 {
        lemma_combination_closed(ks, ps, (n - 1) as nat);
        assert(curve::on_curve(ps[n - 1]));
        lemma_times_closed(ks[n - 1] as nat, ps[n - 1]);
        addition::lemma_closed(
            curve::combination(ks, ps, (n - 1) as nat),
            curve::times(ks[n - 1] as nat, ps[n - 1]),
        );
    }
}

/// Appends a digit to every multiplier of a combination.
pub proof fn lemma_combination_digits(
    ks: Seq<int>,
    ds: Seq<int>,
    ms: Seq<int>,
    ps: Seq<Point>,
    n: nat,
)
    requires
        forall|i: int| 0 <= i < n ==> #[trigger] curve::on_curve(ps[i]),
        forall|i: int|
            0 <= i < n ==> (#[trigger] ks[i]) >= 0 && ds[i] >= 0 && ms[i] == 16 * ks[i] + ds[i],
    ensures
        curve::plus(
            curve::times(16, curve::combination(ks, ps, n)),
            curve::combination(ds, ps, n),
        ) == curve::combination(ms, ps, n),
    decreases n,
{
    if n == 0 {
        lemma_times_infinity(16);
    } else {
        let m = (n - 1) as nat;
        let p = ps[n - 1];
        assert(curve::on_curve(p));
        let (k, d) = (ks[n - 1] as nat, ds[n - 1] as nat);
        let (a, b) = (curve::combination(ks, ps, m), curve::combination(ds, ps, m));
        let (ka, kb) = (curve::times(k, p), curve::times(d, p));
        lemma_combination_digits(ks, ds, ms, ps, m);
        lemma_combination_closed(ks, ps, m);
        lemma_combination_closed(ds, ps, m);
        lemma_times_closed(k, p);
        lemma_times_closed(d, p);
        lemma_times_plus(16, a, ka);
        lemma_times_closed(16, a);
        lemma_times_closed(16, ka);
        lemma_four(curve::times(16, a), curve::times(16, ka), b, kb);
        lemma_times_digit(k, d, p);
    }
}

} // verus!
