//! Arithmetic modulo the field modulus of P-256.
//!
//! `vanishes(e)` says that the integer `e` is 0 in the field. It is opaque, so
//! that proofs reason with the lemmas below and not with remainders by a
//! 256-bit constant.
use crate::math::certificates;
use crate::math::modular;
use crate::math::primality;
use crate::math::primes;
use vstd::arithmetic::div_mod::*;
use vstd::arithmetic::mul::*;
use vstd::arithmetic::power::*;
use vstd::prelude::*;

verus! {

/// The field modulus.
pub open spec fn p() -> int {
    certificates::field_modulus()
}

/// `a` is the canonical representative of a field element.
pub open spec fn canonical(a: int) -> bool {
    0 <= a < p()
}

/// The integer `e` is 0 in the field.
#[verifier::opaque]
pub open spec fn vanishes(e: int) -> bool {
    e % p() == 0
}

/// The canonical inverse of `a` in the field.
pub open spec fn inverse(a: int) -> int {
    choose|b: int| canonical(b) && #[trigger] ((a * b) % p()) == 1
}

/// The definition of `vanishes`.
pub proof fn lemma_vanishes(e: int)
    ensures
        vanishes(e) <==> e % p() == 0,
{
    reveal(vanishes);
}

/// Zero vanishes.
pub proof fn lemma_zero()
    ensures
        vanishes(0),
{
    reveal(vanishes);
    lemma_small_mod(0, p() as nat);
}

/// Sums and differences of what vanishes vanish.
pub proof fn lemma_add(a: int, b: int)
    requires
        vanishes(a),
        vanishes(b),
    ensures
        vanishes(a + b),
        vanishes(a - b),
{
    reveal(vanishes);
    modular::lemma_add(p(), a, b);
}

/// Adding what vanishes changes nothing.
pub proof fn lemma_shift(a: int, b: int)
    requires
        vanishes(a - b),
    ensures
        vanishes(a) <==> vanishes(b),
        vanishes(b - a),
{
    lemma_zero();
    lemma_add(0, a - b);
    if vanishes(b) {
        lemma_add(a - b, b);
    }
    if vanishes(a) {
        lemma_add(a, a - b);
    }
}

/// Chains two congruences.
pub proof fn lemma_trans(a: int, b: int, c: int)
    requires
        vanishes(a - b),
        vanishes(b - c),
    ensures
        vanishes(a - c),
{
    lemma_add(a - b, b - c);
}

/// Multiples of what vanishes vanish.
pub proof fn lemma_scale(c: int, a: int)
    requires
        vanishes(a),
    ensures
        vanishes(c * a),
        vanishes(a * c),
        vanishes(-a),
{
    reveal(vanishes);
    modular::lemma_scale(p(), a, c);
    modular::lemma_scale(p(), a, -1);
}

/// Congruences may be multiplied.
pub proof fn lemma_mul(a: int, b: int, c: int, d: int)
    requires
        vanishes(a - b),
        vanishes(c - d),
    ensures
        vanishes(a * c - b * d),
{
    reveal(vanishes);
    modular::lemma_cong_mul(p(), a, b, c, d);
}

/// There are no zero divisors.
pub proof fn lemma_cancel(a: int, b: int)
    requires
        vanishes(a * b),
        !vanishes(a),
    ensures
        vanishes(b),
{
    reveal(vanishes);
    certificates::lemma_field_modulus_prime();
    primes::lemma_euclid(p(), a, b);
}

/// A product of nonzero elements is nonzero.
pub proof fn lemma_product(a: int, b: int)
    requires
        !vanishes(a),
        !vanishes(b),
    ensures
        !vanishes(a * b),
{
    if vanishes(a * b) {
        lemma_cancel(a, b);
    }
}

/// A common nonzero factor may be removed from a congruence.
pub proof fn lemma_cancel_factor(c: int, a: int, b: int)
    requires
        vanishes(c * a - c * b),
        !vanishes(c),
    ensures
        vanishes(a - b),
{
    lemma_mul_is_distributive_sub(c, a, b);
    lemma_cancel(c, a - b);
}

/// A number is congruent to its remainder.
pub proof fn lemma_reduce(a: int)
    ensures
        canonical(a % p()),
        vanishes(a - a % p()),
        vanishes(a % p() - a),
        vanishes(a) <==> a % p() == 0,
{
    reveal(vanishes);
    modular::lemma_reduce(p(), a);
}

/// Congruent numbers have one remainder.
pub proof fn lemma_same(a: int, b: int)
    ensures
        vanishes(a - b) <==> a % p() == b % p(),
{
    reveal(vanishes);
    modular::lemma_cong(p(), a, b);
}

/// Canonical representatives are their own remainders, and only 0 vanishes.
pub proof fn lemma_canonical(a: int)
    requires
        canonical(a),
    ensures
        a % p() == a,
        vanishes(a) <==> a == 0,
{
    reveal(vanishes);
    lemma_small_mod(a as nat, p() as nat);
}

/// Congruent canonical representatives are equal.
pub proof fn lemma_unique(a: int, b: int)
    requires
        canonical(a),
        canonical(b),
        vanishes(a - b),
    ensures
        a == b,
{
    reveal(vanishes);
    modular::lemma_unique(p(), a, b);
}

/// Small positive numbers do not vanish.
pub proof fn lemma_small(a: int)
    requires
        0 < a < p(),
    ensures
        !vanishes(a),
        !vanishes(-a),
{
    lemma_canonical(a);
    if vanishes(-a) {
        lemma_scale(0, -a);
    }
}

/// The inverse of a nonzero element.
pub proof fn lemma_inverse(a: int)
    requires
        !vanishes(a),
    ensures
        canonical(inverse(a)),
        vanishes(a * inverse(a) - 1),
        !vanishes(inverse(a)),
{
    certificates::lemma_field_modulus_prime();
    lemma_reduce(a);
    let r = a % p();
    let u = primes::lemma_inverse(p(), r);
    modular::lemma_mul_reduce(p(), a, u);
    assert(canonical(u) && (a * u) % p() == 1);
    let v = inverse(a);
    assert(canonical(v) && (a * v) % p() == 1);
    lemma_small_mod(1, p() as nat);
    lemma_same(a * v, 1);
    if vanishes(v) {
        lemma_scale(a, v);
        lemma_vanishes(a * v);
    }
}

/// The inverse is unique.
pub proof fn lemma_inverse_unique(a: int, b: int)
    requires
        canonical(b),
        (a * b) % p() == 1,
    ensures
        inverse(a) == b,
        !vanishes(a),
{
    lemma_small_mod(1, p() as nat);
    lemma_same(a * b, 1);
    if vanishes(a) {
        lemma_scale(b, a);
        lemma_vanishes(a * b);
    }
    lemma_inverse(a);
    let v = inverse(a);
    lemma_same(a * v, 1);
    lemma_same(a * v, a * b);
    lemma_cancel_factor(a, v, b);
    lemma_unique(v, b);
}

/// Squares determine their roots up to sign.
pub proof fn lemma_roots(a: int, b: int)
    requires
        vanishes(a * a - b * b),
    ensures
        vanishes(a - b) || vanishes(a + b),
{
    assert((a - b) * (a + b) == a * a - b * b) by (nonlinear_arith);
    if !vanishes(a - b) {
        lemma_cancel(a - b, a + b);
    }
}

/// Fermat's little theorem in the field.
pub proof fn lemma_fermat(a: int)
    requires
        !vanishes(a),
    ensures
        vanishes(pow(a, (p() - 1) as nat) - 1),
{
    reveal(vanishes);
    certificates::lemma_field_modulus_prime();
    primality::lemma_fermat(p(), a);
    lemma_small_mod(1, p() as nat);
    modular::lemma_cong(p(), pow(a, (p() - 1) as nat), 1);
}

} // verus!
