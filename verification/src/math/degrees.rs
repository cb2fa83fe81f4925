//! Degrees of functions on the curve.
//!
//! The norm of `u(x) + v(x) y` is `u^2 - v^2 w` with the cubic `w`. The two
//! squares have degrees of different parity, so that they cannot cancel.
use crate::math::curve;
use crate::math::curve::Point;
use crate::math::fp;
use crate::math::function;
use crate::math::links;
use crate::math::polynomial;
use vstd::arithmetic::mul::*;
use vstd::prelude::*;

verus! {

/// The norm of `u + v y`, minus a sign times the product of the `xi` of two
/// points.
spec fn excess(u: Seq<int>, v: Seq<int>, s: Point, t: Point, sign: int) -> Seq<int> {
    polynomial::added(
        polynomial::added(
            polynomial::multiplied(u, u),
            polynomial::scaled(
                -1,
                polynomial::multiplied(polynomial::multiplied(v, v), function::cubic()),
            ),
        ),
        polynomial::scaled(-sign, polynomial::multiplied(links::xi(s).u, links::xi(t).u)),
    )
}

/// Its value.
pub open spec fn excess_at(
    u: Seq<int>,
    v: Seq<int>,
    s: Point,
    t: Point,
    sign: int,
    x: int,
) -> int {
    let (a, b) = (polynomial::eval(u, x), polynomial::eval(v, x));
    a * a - (b * b) * curve::cubic(x) - sign * (links::xi_at(s, x) * links::xi_at(t, x))
}

/// `xi` as a polynomial.
proof fn lemma_xi(s: Point, x: int)
    ensures
        polynomial::eval(links::xi(s).u, x) == links::xi_at(s, x),
        links::xi(s).u.last() == 1,
        links::xi(s).u.len() == if s is Infinity {
            1nat
        } else {
            2nat
        },
{
    links::lemma_generators(s, x, 0);
    lemma_mul_basics(polynomial::eval(links::xi(s).v, x));
}

proof fn lemma_excess(u: Seq<int>, v: Seq<int>, s: Point, t: Point, sign: int, x: int)
    ensures
        polynomial::eval(excess(u, v, s, t, sign), x) == excess_at(u, v, s, t, sign, x),
{
    let uu = polynomial::multiplied(u, u);
    let vv = polynomial::multiplied(v, v);
    let vvw = polynomial::multiplied(vv, function::cubic());
    let k = polynomial::multiplied(links::xi(s).u, links::xi(t).u);
    polynomial::lemma_multiplied(u, u, x);
    polynomial::lemma_multiplied(v, v, x);
    polynomial::lemma_multiplied(vv, function::cubic(), x);
    function::lemma_cubic(x);
    lemma_xi(s, x);
    lemma_xi(t, x);
    polynomial::lemma_multiplied(links::xi(s).u, links::xi(t).u, x);
    polynomial::lemma_scaled(-1, vvw, x);
    polynomial::lemma_scaled(-sign, k, x);
    polynomial::lemma_added(uu, polynomial::scaled(-1, vvw), x);
    polynomial::lemma_added(
        polynomial::added(uu, polynomial::scaled(-1, vvw)),
        polynomial::scaled(-sign, k),
        x,
    );
    lemma_mul_unary_negation(1, polynomial::eval(vvw, x));
    lemma_mul_unary_negation(sign, polynomial::eval(k, x));
}

/// The leading coefficient of the excess, where `u` and `v` have none that is 0
/// in the field.
proof fn lemma_excess_leading(u: Seq<int>, v: Seq<int>, s: Point, t: Point, sign: int)
    requires
        u.len() <= 23,
        v.len() <= 23,
        u.len() > 0 ==> !fp::vanishes(u.last()),
        v.len() > 0 ==> !fp::vanishes(v.last()),
        sign == 1 || sign == -1,
    ensures
        0 < excess(u, v, s, t, sign).len() <= 48,
        fp::vanishes(excess(u, v, s, t, sign).last()) ==> v.len() == 0 && ((u.len() == 1
            && s is Infinity && t is Infinity) || (u.len() == 2 && s is Affine && t is Affine)),
{
    let uu = polynomial::multiplied(u, u);
    let vv = polynomial::multiplied(v, v);
    let vvw = polynomial::multiplied(vv, function::cubic());
    let k = polynomial::multiplied(links::xi(s).u, links::xi(t).u);
    let d = excess(u, v, s, t, sign);
    lemma_xi(s, 0);
    lemma_xi(t, 0);
    polynomial::lemma_leading(links::xi(s).u, links::xi(t).u);
    fp::lemma_small(1);
    if u.len() > 0 {
        polynomial::lemma_leading(u, u);
        fp::lemma_product(u.last(), u.last());
    }
    if v.len() > 0 {
        polynomial::lemma_leading(v, v);
        polynomial::lemma_leading(vv, function::cubic());
        fp::lemma_product(v.last(), v.last());
        lemma_mul_basics(v.last() * v.last());
        lemma_mul_unary_negation(1, vvw.last());
        if fp::vanishes(-vvw.last()) {
            fp::lemma_scale(1, -vvw.last());
        }
        if u.len() == 0 || uu.len() < vvw.len() {
            assert(d.len() == vvw.len());
            assert(d.last() == -vvw.last());
        } else {
            assert(d.len() == uu.len());
            assert(d.last() == uu.last());
        }
    } else {
        assert(vv.len() == 0);
        assert(vvw.len() == 0);
        lemma_mul_basics(-sign);
        if u.len() == 0 {
            assert(d.len() == k.len());
            assert(d.last() == -sign);
        } else if uu.len() < k.len() {
            assert(d.last() == -sign);
        } else if uu.len() > k.len() {
            assert(d.last() == uu.last());
        }
    }
}

/// Where the norm of `u + v y` agrees with a sign times the product of the `xi`
/// of two points at many places, `v` is 0 and `u` is constant or linear, and
/// the points agree up to sign.
pub proof fn lemma_degrees(
    u: Seq<int>,
    v: Seq<int>,
    s: Point,
    t: Point,
    sign: int,
    xs: Seq<int>,
    bad: Seq<int>,
)
    requires
        u.len() <= 23,
        v.len() <= 23,
        u.len() > 0 ==> !fp::vanishes(u.last()),
        v.len() > 0 ==> !fp::vanishes(v.last()),
        sign == 1 || sign == -1,
        curve::on_curve(s),
        curve::on_curve(t),
        polynomial::distinct(xs),
        xs.len() >= 56,
        bad.len() <= 7,
        forall|i: int|
            0 <= i < xs.len() ==> fp::vanishes(excess_at(u, v, s, t, sign, #[trigger] xs[i]))
                || polynomial::among(xs[i], bad),
    ensures
        v.len() == 0,
        s is Infinity <==> t is Infinity,
        s is Affine ==> s->x == t->x && u.len() == 2 && fp::vanishes(u[0] + u[1] * s->x),
{
    let d = excess(u, v, s, t, sign);
    lemma_excess_leading(u, v, s, t, sign);
    assert forall|i: int| 0 <= i < xs.len() implies fp::vanishes(
        polynomial::eval(d, #[trigger] xs[i]),
    ) || polynomial::among(xs[i], bad) by {
        lemma_excess(u, v, s, t, sign, xs[i]);
    }
    if !fp::vanishes(d.last()) {
        polynomial::lemma_roots_except(d, xs, bad);
    }
    if s is Affine {
        let (x, z) = (s->x, t->x);
        lemma_root_of_square(u, v, s, t, sign, xs, bad, x);
        lemma_root_of_square(u, v, s, t, sign, xs, bad, z);
        fp::lemma_add(u[0] + u[1] * x, u[0] + u[1] * z);
        lemma_mul_is_distributive_sub(u[1], x, z);
        fp::lemma_cancel(u[1], x - z);
        fp::lemma_unique(x, z);
    }
}

/// A linear function whose square is the product of the `xi` of two points, up
/// to sign, is 0 at both.
proof fn lemma_root_of_square(
    u: Seq<int>,
    v: Seq<int>,
    s: Point,
    t: Point,
    sign: int,
    xs: Seq<int>,
    bad: Seq<int>,
    x: int,
)
    requires
        u.len() == 2,
        v.len() == 0,
        s is Affine,
        t is Affine,
        x == s->x || x == t->x,
        polynomial::distinct(xs),
        xs.len() >= 56,
        bad.len() <= 7,
        excess(u, v, s, t, sign).len() <= 48,
        forall|i: int|
            0 <= i < xs.len() ==> fp::vanishes(
                polynomial::eval(excess(u, v, s, t, sign), #[trigger] xs[i]),
            ) || polynomial::among(xs[i], bad),
    ensures
        fp::vanishes(u[0] + u[1] * x),
{
    let d = excess(u, v, s, t, sign);
    polynomial::lemma_many_roots(d, xs, bad, x);
    lemma_excess(u, v, s, t, sign, x);
    let a = polynomial::eval(u, x);
    assert(polynomial::eval(v, x) == 0);
    lemma_mul_basics(curve::cubic(x));
    lemma_mul_basics(links::xi_at(s, x));
    lemma_mul_basics(links::xi_at(t, x));
    lemma_mul_basics(sign);
    assert(fp::vanishes(a * a));
    if !fp::vanishes(a) {
        fp::lemma_product(a, a);
    }
    function::lemma_linear(u[0], u[1], x, 0);
    assert(u =~= function::linear(u[0], u[1]).u);
    lemma_mul_basics(polynomial::eval(function::linear(u[0], u[1]).v, x));
}

} // verus!
