//! Polynomials with integer coefficients, and their roots in the field.
//!
//! A polynomial is the sequence of its coefficients, constant term first.
use crate::math::fp;
use vstd::arithmetic::mul::*;
use vstd::prelude::*;

verus! {

/// The value at `x`.
pub open spec fn eval(f: Seq<int>, x: int) -> int
    decreases f.len(),
{
    if f.len() == 0 {
        0
    } else {
        f[0] + x * eval(f.drop_first(), x)
    }
}

/// The coefficient of a power of the variable.
pub open spec fn coefficient(f: Seq<int>, i: int) -> int {
    if 0 <= i < f.len() {
        f[i]
    } else {
        0
    }
}

/// The sum.
pub open spec fn added(f: Seq<int>, g: Seq<int>) -> Seq<int> {
    Seq::new(
        if f.len() < g.len() {
            g.len()
        } else {
            f.len()
        },
        |i: int| coefficient(f, i) + coefficient(g, i),
    )
}

/// The product with a constant.
pub open spec fn scaled(c: int, f: Seq<int>) -> Seq<int> {
    Seq::new(f.len(), |i: int| c * f[i])
}

/// The product with the variable.
pub open spec fn shifted(f: Seq<int>) -> Seq<int> {
    seq![0int].add(f)
}

/// The product.
pub open spec fn multiplied(f: Seq<int>, g: Seq<int>) -> Seq<int>
    decreases f.len(),
{
    if f.len() == 0 {
        Seq::empty()
    } else {
        added(scaled(f[0], g), shifted(multiplied(f.drop_first(), g)))
    }
}

/// The polynomial without the leading coefficients that are 0 in the field.
pub open spec fn trimmed(f: Seq<int>) -> Seq<int>
    decreases f.len(),
{
    if f.len() == 0 || !fp::vanishes(f.last()) {
        f
    } else {
        trimmed(f.drop_last())
    }
}

/// The quotient by `x - a`.
pub open spec fn quotient(f: Seq<int>, a: int) -> Seq<int>
    decreases f.len(),
{
    if f.len() <= 1 {
        Seq::empty()
    } else {
        seq![eval(f.drop_first(), a)].add(quotient(f.drop_first(), a))
    }
}

/// Values of sums.
pub proof fn lemma_added(f: Seq<int>, g: Seq<int>, x: int)
    ensures
        eval(added(f, g), x) == eval(f, x) + eval(g, x),
    decreases f.len() + g.len(),
{
    let h = added(f, g);
    if f.len() == 0 {
        assert(h =~= g);
    } else if g.len() == 0 {
        assert(h =~= f);
    } else {
        let (f1, g1) = (f.drop_first(), g.drop_first());
        assert(h.drop_first() =~= added(f1, g1));
        lemma_added(f1, g1, x);
        lemma_mul_is_distributive_add(x, eval(f1, x), eval(g1, x));
    }
}

/// Values of multiples.
pub proof fn lemma_scaled(c: int, f: Seq<int>, x: int)
    ensures
        eval(scaled(c, f), x) == c * eval(f, x),
    decreases f.len(),
{
    if f.len() > 0 {
        let f1 = f.drop_first();
        assert(scaled(c, f).drop_first() =~= scaled(c, f1));
        lemma_scaled(c, f1, x);
        lemma_mul_is_distributive_add(c, f[0], x * eval(f1, x));
        lemma_mul_is_associative(x, c, eval(f1, x));
        lemma_mul_is_associative(c, x, eval(f1, x));
        lemma_mul_is_commutative(c, x);
    }
}

/// Values of products with the variable.
pub proof fn lemma_shifted(f: Seq<int>, x: int)
    ensures
        eval(shifted(f), x) == x * eval(f, x),
        f.len() > 0 ==> shifted(f).last() == f.last(),
{
    assert(shifted(f).drop_first() =~= f);
}

/// Values of products.
pub proof fn lemma_multiplied(f: Seq<int>, g: Seq<int>, x: int)
    ensures
        eval(multiplied(f, g), x) == eval(f, x) * eval(g, x),
    decreases f.len(),
{
    if f.len() > 0 {
        let f1 = f.drop_first();
        let m = multiplied(f1, g);
        lemma_multiplied(f1, g, x);
        lemma_added(scaled(f[0], g), shifted(m), x);
        lemma_scaled(f[0], g, x);
        lemma_shifted(m, x);
        lemma_mul_is_distributive_add_other_way(eval(g, x), f[0], x * eval(f1, x));
        lemma_mul_is_associative(x, eval(f1, x), eval(g, x));
    } else {
        lemma_mul_basics(eval(g, x));
    }
}

/// Leading coefficients of products.
pub proof fn lemma_leading(f: Seq<int>, g: Seq<int>)
    requires
        f.len() > 0,
        g.len() > 0,
    ensures
        multiplied(f, g).len() == f.len() + g.len() - 1,
        multiplied(f, g).last() == f.last() * g.last(),
    decreases f.len(),
{
    if f.len() > 1 {
        lemma_leading(f.drop_first(), g);
    } else {
        assert(multiplied(f.drop_first(), g).len() == 0);
    }
}

/// Lengths of products.
pub proof fn lemma_length(f: Seq<int>, g: Seq<int>, m: nat, n: nat)
    requires
        f.len() <= m,
        g.len() <= n,
        m > 0,
        n > 0,
    ensures
        multiplied(f, g).len() <= m + n - 1,
    decreases f.len(),
{
    if f.len() > 0 {
        if m == 1 {
            assert(multiplied(f.drop_first(), g).len() == 0);
        } else {
            lemma_length(f.drop_first(), g, (m - 1) as nat, n);
        }
    }
}

/// A leading coefficient that is 0 in the field does not count.
proof fn lemma_drop_last(f: Seq<int>, x: int)
    requires
        f.len() > 0,
        fp::vanishes(f.last()),
    ensures
        fp::vanishes(eval(f, x) - eval(f.drop_last(), x)),
    decreases f.len(),
{
    let f1 = f.drop_first();
    if f.len() == 1 {
        assert(eval(f1, x) == 0);
        assert(eval(f.drop_last(), x) == 0);
    } else {
        lemma_drop_last(f1, x);
        assert(f.drop_last().drop_first() =~= f1.drop_last());
        fp::lemma_scale(x, eval(f1, x) - eval(f1.drop_last(), x));
        lemma_mul_is_distributive_sub(x, eval(f1, x), eval(f1.drop_last(), x));
    }
}

/// Trimming keeps the values in the field.
pub proof fn lemma_trimmed(f: Seq<int>, x: int)
    ensures
        fp::vanishes(eval(f, x) - eval(trimmed(f), x)),
        trimmed(f).len() <= f.len(),
        trimmed(f).len() > 0 ==> !fp::vanishes(trimmed(f).last()),
    decreases f.len(),
{
    if f.len() == 0 || !fp::vanishes(f.last()) {
        fp::lemma_zero();
    } else {
        lemma_drop_last(f, x);
        lemma_trimmed(f.drop_last(), x);
        fp::lemma_trans(eval(f, x), eval(f.drop_last(), x), eval(trimmed(f), x));
    }
}

/// Division by `x - a`.
proof fn lemma_quotient(f: Seq<int>, a: int, x: int)
    ensures
        f.len() > 0 ==> quotient(f, a).len() == f.len() - 1,
        f.len() > 1 ==> quotient(f, a).last() == f.last(),
        eval(f, x) - eval(f, a) == (x - a) * eval(quotient(f, a), x),
    decreases f.len(),
{
    if f.len() <= 1 {
        assert(eval(quotient(f, a), x) == 0);
        lemma_mul_basics(x - a);
        if f.len() == 1 {
            assert(eval(f.drop_first(), x) == 0);
            assert(eval(f.drop_first(), a) == 0);
            lemma_mul_basics(x);
            lemma_mul_basics(a);
        }
    } else {
        let f1 = f.drop_first();
        let q1 = quotient(f1, a);
        lemma_quotient(f1, a, x);
        assert(quotient(f, a).drop_first() =~= q1);
        if f1.len() == 1 {
            assert(eval(f1, a) == f1[0] + a * eval(f1.drop_first(), a));
        }
        let (u, v, w) = (eval(f1, x), eval(f1, a), eval(q1, x));
        assert(x * u - a * v == (x - a) * (v + x * w)) by {
            assert(x * u - a * v == x * (u - v) + (x - a) * v) by (nonlinear_arith);
            lemma_mul_is_distributive_add(x - a, v, x * w);
            lemma_mul_is_associative(x - a, x, w);
            lemma_mul_is_commutative(x - a, x);
            lemma_mul_is_associative(x, x - a, w);
        }
    }
}

/// The numbers differ in the field.
pub open spec fn distinct(xs: Seq<int>) -> bool {
    forall|i: int, j: int| 0 <= i < j < xs.len() ==> !fp::vanishes(#[trigger] xs[j] - #[trigger] xs[i])
}

/// A polynomial with a nonzero leading coefficient has fewer roots than
/// coefficients.
pub proof fn lemma_roots(f: Seq<int>, xs: Seq<int>)
    requires
        f.len() > 0,
        !fp::vanishes(f.last()),
        distinct(xs),
        forall|i: int| 0 <= i < xs.len() ==> fp::vanishes(eval(f, #[trigger] xs[i])),
    ensures
        xs.len() < f.len(),
    decreases xs.len(),
{
    if xs.len() > 0 {
        let a = xs.last();
        let rest = xs.drop_last();
        assert(fp::vanishes(eval(f, xs[xs.len() - 1])));
        if f.len() == 1 {
            assert(eval(f, a) == f[0] + a * eval(f.drop_first(), a));
            assert(eval(f.drop_first(), a) == 0);
        } else {
            let q = quotient(f, a);
            lemma_quotient(f, a, a);
            assert forall|i: int| 0 <= i < rest.len() implies fp::vanishes(
                eval(q, #[trigger] rest[i]),
            ) by {
                let x = xs[i];
                lemma_quotient(f, a, x);
                assert(fp::vanishes(eval(f, xs[i])));
                fp::lemma_add(eval(f, x), eval(f, a));
                assert(!fp::vanishes(xs[xs.len() - 1] - xs[i]));
                if fp::vanishes(x - a) {
                    fp::lemma_scale(1, x - a);
                }
                fp::lemma_cancel(x - a, eval(q, x));
            }
            lemma_roots(q, rest);
        }
    }
}

/// The number is among the given ones, in the field.
pub open spec fn among(x: int, bad: Seq<int>) -> bool {
    exists|j: int| 0 <= j < bad.len() && fp::vanishes(x - #[trigger] bad[j])
}

/// Roots may be missing at a few places.
pub proof fn lemma_roots_except(f: Seq<int>, xs: Seq<int>, bad: Seq<int>)
    requires
        f.len() > 0,
        !fp::vanishes(f.last()),
        distinct(xs),
        forall|i: int|
            0 <= i < xs.len() ==> fp::vanishes(eval(f, #[trigger] xs[i])) || among(xs[i], bad),
    ensures
        xs.len() < f.len() + bad.len(),
    decreases bad.len(),
{
    if bad.len() == 0 {
        lemma_roots(f, xs);
    } else {
        let c = bad.last();
        let rest = bad.drop_last();
        let g = added(shifted(f), scaled(-c, f));
        assert forall|i: int| 0 <= i < xs.len() implies fp::vanishes(
            eval(g, #[trigger] xs[i]),
        ) || among(xs[i], rest) by {
            let x = xs[i];
            let v = eval(f, x);
            lemma_added(shifted(f), scaled(-c, f), x);
            lemma_shifted(f, x);
            lemma_scaled(-c, f, x);
            lemma_mul_is_distributive_add_other_way(v, x, -c);
            if fp::vanishes(v) {
                fp::lemma_scale(x - c, v);
            } else {
                let j = choose|j: int| 0 <= j < bad.len() && fp::vanishes(x - #[trigger] bad[j]);
                if j == bad.len() - 1 {
                    fp::lemma_scale(v, x - c);
                } else {
                    assert(fp::vanishes(x - rest[j]));
                }
            }
        }
        assert(g.last() == f.last());
        lemma_roots_except(g, xs, rest);
    }
}

/// A polynomial with many roots is 0 everywhere.
pub proof fn lemma_many_roots(f: Seq<int>, xs: Seq<int>, bad: Seq<int>, x: int)
    requires
        distinct(xs),
        forall|i: int|
            0 <= i < xs.len() ==> fp::vanishes(eval(f, #[trigger] xs[i])) || among(xs[i], bad),
        f.len() + bad.len() <= xs.len(),
    ensures
        fp::vanishes(eval(f, x)),
{
    let g = trimmed(f);
    lemma_trimmed(f, x);
    if g.len() > 0 {
        assert forall|i: int| 0 <= i < xs.len() implies fp::vanishes(
            eval(g, #[trigger] xs[i]),
        ) || among(xs[i], bad) by {
            lemma_trimmed(f, xs[i]);
            fp::lemma_shift(eval(f, xs[i]), eval(g, xs[i]));
        }
        lemma_roots_except(g, xs, bad);
    }
    assert(eval(g, x) == 0);
}

} // verus!
