//! Functions on the curve: `u(x) + v(x) y` with polynomials `u` and `v`.
use crate::math::curve;
use crate::math::fp;
use crate::math::polynomial;
use vstd::arithmetic::mul::*;
use vstd::prelude::*;

verus! {

/// The function `u(x) + v(x) y`.
pub struct Function {
    pub u: Seq<int>,
    pub v: Seq<int>,
}

/// The value at a point.
pub open spec fn at(f: Function, x: int, y: int) -> int {
    polynomial::eval(f.u, x) + polynomial::eval(f.v, x) * y
}

/// The right-hand side of the curve equation as a polynomial.
pub open spec fn cubic() -> Seq<int> {
    seq![curve::b(), -3int, 0int, 1int]
}

/// The function `c + d x + e x^2`.
pub open spec fn quadratic(c: int, d: int, e: int) -> Function {
    Function { u: seq![c, d, e], v: Seq::empty() }
}

/// The function `c + d x`.
pub open spec fn linear(c: int, d: int) -> Function {
    Function { u: seq![c, d], v: Seq::empty() }
}

/// The constant `c`.
pub open spec fn constant(c: int) -> Function {
    Function { u: seq![c], v: Seq::empty() }
}

/// The function `c + d x + y`.
pub open spec fn slanted(c: int, d: int) -> Function {
    Function { u: seq![c, d], v: seq![1int] }
}

/// The sum.
pub open spec fn added(f: Function, g: Function) -> Function {
    Function { u: polynomial::added(f.u, g.u), v: polynomial::added(f.v, g.v) }
}

/// The product, with `y^2` replaced by the cubic.
pub open spec fn multiplied(f: Function, g: Function) -> Function {
    Function {
        u: polynomial::added(
            polynomial::multiplied(f.u, g.u),
            polynomial::multiplied(polynomial::multiplied(f.v, g.v), cubic()),
        ),
        v: polynomial::added(
            polynomial::multiplied(f.u, g.v),
            polynomial::multiplied(f.v, g.u),
        ),
    }
}

/// The polynomials have at most `n` coefficients.
pub open spec fn within(f: Function, n: nat) -> bool {
    f.u.len() <= n && f.v.len() <= n
}

/// The value of a polynomial with three coefficients.
pub proof fn lemma_quadratic(c: int, d: int, e: int, x: int, y: int)
    ensures
        at(quadratic(c, d, e), x, y) == c + d * x + e * (x * x),
{
    let f = seq![c, d, e];
    let g = f.drop_first();
    let h = g.drop_first();
    assert(h.drop_first() =~= Seq::<int>::empty());
    assert(polynomial::eval(h.drop_first(), x) == 0);
    lemma_mul_basics(x);
    assert(polynomial::eval(h, x) == e);
    assert(polynomial::eval(g, x) == d + x * e);
    assert(polynomial::eval(f, x) == c + x * (d + x * e));
    assert(x * (d + x * e) == d * x + e * (x * x)) by (nonlinear_arith);
    assert(polynomial::eval(Seq::<int>::empty(), x) == 0);
    lemma_mul_basics(y);
}

/// The value of a linear function.
pub proof fn lemma_linear(c: int, d: int, x: int, y: int)
    ensures
        at(linear(c, d), x, y) == c + d * x,
{
    let f = seq![c, d];
    let g = f.drop_first();
    assert(g.drop_first() =~= Seq::<int>::empty());
    assert(polynomial::eval(g.drop_first(), x) == 0);
    lemma_mul_basics(x);
    assert(polynomial::eval(g, x) == d);
    lemma_mul_is_commutative(x, d);
    assert(polynomial::eval(Seq::<int>::empty(), x) == 0);
    lemma_mul_basics(y);
}

/// The value of a constant.
pub proof fn lemma_constant(c: int, x: int, y: int)
    ensures
        at(constant(c), x, y) == c,
{
    let f = seq![c];
    assert(f.drop_first() =~= Seq::<int>::empty());
    assert(polynomial::eval(f.drop_first(), x) == 0);
    lemma_mul_basics(x);
    assert(polynomial::eval(Seq::<int>::empty(), x) == 0);
    lemma_mul_basics(y);
}

/// The value of `c + d x + y`.
pub proof fn lemma_slanted(c: int, d: int, x: int, y: int)
    ensures
        at(slanted(c, d), x, y) == c + d * x + y,
{
    lemma_linear(c, d, x, 0);
    lemma_constant(1, x, 0);
    lemma_mul_basics(y);
    lemma_mul_basics(0);
    assert(polynomial::eval(Seq::<int>::empty(), x) == 0);
}

/// The value of the cubic.
pub proof fn lemma_cubic(x: int)
    ensures
        polynomial::eval(cubic(), x) == curve::cubic(x),
{
    let f = cubic();
    assert(f.drop_first() =~= quadratic(-3, 0, 1).u);
    lemma_quadratic(-3, 0, 1, x, 0);
    assert(polynomial::eval(Seq::<int>::empty(), x) == 0);
    assert(x * (-3 + 0 * x + 1 * (x * x)) == x * x * x - 3 * x) by (nonlinear_arith);
}

/// The value of a sum.
pub proof fn lemma_added(f: Function, g: Function, x: int, y: int)
    ensures
        at(added(f, g), x, y) == at(f, x, y) + at(g, x, y),
{
    polynomial::lemma_added(f.u, g.u, x);
    polynomial::lemma_added(f.v, g.v, x);
    lemma_mul_is_distributive_add_other_way(
        y,
        polynomial::eval(f.v, x),
        polynomial::eval(g.v, x),
    );
}

/// The value of a product, at a point of the curve.
pub proof fn lemma_multiplied(f: Function, g: Function, x: int, y: int)
    requires
        curve::satisfies(x, y),
    ensures
        fp::vanishes(at(multiplied(f, g), x, y) - at(f, x, y) * at(g, x, y)),
{
    let (a, b) = (polynomial::eval(f.u, x), polynomial::eval(f.v, x));
    let (c, d) = (polynomial::eval(g.u, x), polynomial::eval(g.v, x));
    let w = curve::cubic(x);
    lemma_cubic(x);
    polynomial::lemma_multiplied(f.u, g.u, x);
    polynomial::lemma_multiplied(f.v, g.v, x);
    polynomial::lemma_multiplied(polynomial::multiplied(f.v, g.v), cubic(), x);
    polynomial::lemma_multiplied(f.u, g.v, x);
    polynomial::lemma_multiplied(f.v, g.u, x);
    polynomial::lemma_added(
        polynomial::multiplied(f.u, g.u),
        polynomial::multiplied(polynomial::multiplied(f.v, g.v), cubic()),
        x,
    );
    polynomial::lemma_added(
        polynomial::multiplied(f.u, g.v),
        polynomial::multiplied(f.v, g.u),
        x,
    );
    fp::lemma_scale(-(b * d), y * y - w);
    assert((a * c + (b * d) * w) + (a * d + b * c) * y - (a + b * y) * (c + d * y) == (-(b * d)) * (y
        * y - w)) by {
        lemma_mul_is_distributive_add_other_way(y, a * d, b * c);
        assert((a + b * y) * (c + d * y) == a * c + a * (d * y) + (b * y) * c + (b * y) * (d * y))
            by (nonlinear_arith);
        assert(a * (d * y) == (a * d) * y) by (nonlinear_arith);
        assert((b * y) * c == (b * c) * y) by (nonlinear_arith);
        assert((b * y) * (d * y) == (b * d) * (y * y)) by (nonlinear_arith);
        lemma_mul_is_distributive_sub(-(b * d), y * y, w);
        lemma_mul_unary_negation(b * d, y * y);
        lemma_mul_unary_negation(b * d, w);
    }
}

/// The size of a sum.
pub proof fn lemma_within_added(f: Function, g: Function, n: nat)
    requires
        within(f, n),
        within(g, n),
    ensures
        within(added(f, g), n),
{
}

/// The size of a product.
pub proof fn lemma_within_multiplied(f: Function, g: Function, m: nat, n: nat)
    requires
        within(f, m),
        within(g, n),
        m > 0,
        n > 0,
    ensures
        within(multiplied(f, g), m + n + 2),
{
    polynomial::lemma_length(f.u, g.u, m, n);
    polynomial::lemma_length(f.v, g.v, m, n);
    polynomial::lemma_length(
        polynomial::multiplied(f.v, g.v),
        cubic(),
        (m + n - 1) as nat,
        4,
    );
    polynomial::lemma_length(f.u, g.v, m, n);
    polynomial::lemma_length(f.v, g.u, m, n);
}

} // verus!
