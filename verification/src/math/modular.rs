//! Divisibility and congruence of integers.
//!
//! Everything is phrased with `e % m == 0`: a congruence `a = b (mod m)` is
//! `(a - b) % m == 0`.
use vstd::arithmetic::div_mod::*;
use vstd::arithmetic::mul::*;
use vstd::prelude::*;

verus! {

/// A multiple of `m` leaves the remainder 0.
pub proof fn lemma_multiple(m: int, k: int)
    requires
        m > 0,
    ensures
        (m * k) % m == 0,
        (k * m) % m == 0,
{
    lemma_mod_multiples_basic(k, m);
    lemma_mul_is_commutative(m, k);
}

/// A number that leaves the remainder 0 is `m` times its quotient.
pub proof fn lemma_quotient(m: int, a: int)
    requires
        m > 0,
        a % m == 0,
    ensures
        a == m * (a / m),
{
    lemma_fundamental_div_mod(a, m);
}

/// Multiples of `m` are closed under addition and subtraction.
pub proof fn lemma_add(m: int, a: int, b: int)
    requires
        m > 0,
        a % m == 0,
        b % m == 0,
    ensures
        (a + b) % m == 0,
        (a - b) % m == 0,
{
    lemma_quotient(m, a);
    lemma_quotient(m, b);
    let i = a / m;
    let j = b / m;
    lemma_mul_is_distributive_add(m, i, j);
    lemma_mul_is_distributive_sub(m, i, j);
    lemma_multiple(m, i + j);
    lemma_multiple(m, i - j);
}

/// A product with one factor divisible by `m` is divisible by `m`.
pub proof fn lemma_scale(m: int, a: int, c: int)
    requires
        m > 0,
        a % m == 0,
    ensures
        (c * a) % m == 0,
        (a * c) % m == 0,
{
    lemma_quotient(m, a);
    let i = a / m;
    lemma_mul_is_associative(m, i, c);
    lemma_multiple(m, i * c);
    lemma_mul_is_commutative(a, c);
}

/// Equal remainders and divisible differences are the same thing.
pub proof fn lemma_cong(m: int, a: int, b: int)
    requires
        m > 0,
    ensures
        a % m == b % m <==> (a - b) % m == 0,
{
    lemma_mod_equivalence(a, b, m);
}

/// A number is congruent to its remainder.
pub proof fn lemma_reduce(m: int, a: int)
    requires
        m > 0,
    ensures
        (a - a % m) % m == 0,
        (a % m - a) % m == 0,
        0 <= a % m < m,
        (a % m) % m == a % m,
{
    lemma_mod_bound(a, m);
    lemma_small_mod((a % m) as nat, m as nat);
    lemma_cong(m, a, a % m);
    lemma_cong(m, a % m, a);
}

/// Two congruent numbers within the same period are equal.
pub proof fn lemma_unique(m: int, a: int, b: int)
    requires
        m > 0,
        0 <= a < m,
        0 <= b < m,
        (a - b) % m == 0,
    ensures
        a == b,
{
    lemma_cong(m, a, b);
    lemma_small_mod(a as nat, m as nat);
    lemma_small_mod(b as nat, m as nat);
}

/// Congruences may be multiplied.
pub proof fn lemma_cong_mul(m: int, a: int, b: int, c: int, d: int)
    requires
        m > 0,
        (a - b) % m == 0,
        (c - d) % m == 0,
    ensures
        (a * c - b * d) % m == 0,
{
    lemma_scale(m, a - b, c);
    lemma_scale(m, c - d, b);
    assert(a * c - b * d == (a - b) * c + b * (c - d)) by {
        lemma_mul_is_distributive_sub_other_way(c, a, b);
        lemma_mul_is_distributive_sub(b, c, d);
    }
    lemma_add(m, (a - b) * c, b * (c - d));
}

/// Reducing the factors first does not change a product's remainder.
pub proof fn lemma_mul_reduce(m: int, a: int, b: int)
    requires
        m > 0,
    ensures
        ((a % m) * (b % m)) % m == (a * b) % m,
        ((a % m) * b) % m == (a * b) % m,
        (a * (b % m)) % m == (a * b) % m,
{
    lemma_mul_mod_noop_general(a, b, m);
}

} // verus!
