//! Prime numbers: inverses, Euclid's lemma, least factors.
use crate::math::modular;
use vstd::arithmetic::div_mod::*;
use vstd::arithmetic::mul::*;
use vstd::prelude::*;

verus! {

/// `n` is a prime number.
pub open spec fn is_prime(n: int) -> bool {
    &&& n > 1
    &&& forall|d: int| 1 < d < n ==> #[trigger] (n % d) != 0
}

/// Below a prime, every positive number has an inverse modulo that prime.
pub proof fn lemma_inverse(q: int, a: int) -> (u: int)
    requires
        is_prime(q),
        0 < a < q,
    ensures
        0 <= u < q,
        (a * u) % q == 1,
    decreases a,
{
    if a == 1 {
        lemma_small_mod(1, q as nat);
        1
    } else {
        let k = q / a;
        let r = q % a;
        lemma_fundamental_div_mod(q, a);
        lemma_mod_bound(q, a);
        assert(q % a != 0);
        let v = lemma_inverse(q, r);
        let w = -(k * v);
        let u = w % q;
        modular::lemma_reduce(q, w);
        // a * w == r * v - q * v, because q == a * k + r
        assert(a * w == r * v - q * v) by {
            lemma_mul_is_associative(a, k, v);
            lemma_mul_unary_negation(a, k * v);
            lemma_mul_is_distributive_add_other_way(v, a * k, r);
        }
        lemma_small_mod(1, q as nat);
        modular::lemma_cong(q, r * v, 1);
        modular::lemma_multiple(q, v);
        modular::lemma_add(q, r * v - 1, q * v);
        // a * u == a * w (mod q)
        modular::lemma_scale(q, u - w, a);
        lemma_mul_is_distributive_sub(a, u, w);
        modular::lemma_add(q, a * u - a * w, a * w - 1);
        modular::lemma_cong(q, a * u, 1);
        u
    }
}

/// Euclid's lemma: a prime that divides a product divides a factor.
pub proof fn lemma_euclid(q: int, a: int, b: int)
    requires
        is_prime(q),
        (a * b) % q == 0,
    ensures
        a % q == 0 || b % q == 0,
{
    if a % q != 0 {
        let c = a % q;
        modular::lemma_reduce(q, a);
        let u = lemma_inverse(q, c);
        // b == u * c * b == u * a * b == 0 (mod q)
        modular::lemma_mul_reduce(q, a, b);
        modular::lemma_scale(q, c * b, u);
        lemma_small_mod(1, q as nat);
        modular::lemma_cong(q, c * u, 1);
        modular::lemma_scale(q, c * u - 1, b);
        assert(u * (c * b) - b * (c * u - 1) == b) by {
            lemma_mul_is_associative(u, c, b);
            lemma_mul_is_commutative(u, c);
            lemma_mul_is_commutative(c * u, b);
            lemma_mul_is_distributive_sub(b, c * u, 1);
        }
        modular::lemma_add(q, u * (c * b), b * (c * u - 1));
    }
}

/// The least divisor above 1, searched from `d` upwards.
proof fn lemma_least_factor_from(n: int, d: int) -> (r: int)
    requires
        1 < d <= n,
        forall|e: int| 1 < e < d ==> #[trigger] (n % e) != 0,
    ensures
        d <= r <= n,
        n % r == 0,
        forall|e: int| 1 < e < r ==> #[trigger] (n % e) != 0,
    decreases n - d,
{
    if n % d == 0 {
        d
    } else {
        if d == n {
            lemma_mod_self_0(n);
        }
        lemma_least_factor_from(n, d + 1)
    }
}

/// Every number above 1 has a prime factor, and a composite one has a prime
/// factor whose square is not larger than the number.
pub proof fn lemma_prime_factor(n: int) -> (r: int)
    requires
        n > 1,
    ensures
        is_prime(r),
        n % r == 0,
        is_prime(n) || r * r <= n,
{
    let r = lemma_least_factor_from(n, 2);
    modular::lemma_quotient(r, n);
    let k = n / r;
    assert forall|d: int| 1 < d < r implies #[trigger] (r % d) != 0 by {
        assert(n % d != 0);
        if r % d == 0 {
            modular::lemma_scale(d, r, k);
        }
    }
    if r < n {
        assert(k > 1) by {
            if k <= 1 {
                lemma_mul_inequality(k, 1, r);
                lemma_mul_is_commutative(k, r);
            }
        }
        modular::lemma_multiple(k, r);
        assert(n % k == 0) by {
            lemma_mul_is_commutative(k, r);
        }
        assert(k >= r);
        lemma_mul_inequality(r, k, r);
        lemma_mul_is_commutative(k, r);
    } else {
        assert(is_prime(n));
    }
    r
}

/// A number and a prime that does not divide it, if both divide `a`, divide
/// it together.
pub proof fn lemma_coprime_product(m: int, q: int, a: int)
    requires
        m > 0,
        is_prime(q),
        m % q != 0,
        a % m == 0,
        a % q == 0,
    ensures
        a % (m * q) == 0,
{
    modular::lemma_quotient(m, a);
    let k = a / m;
    lemma_euclid(q, m, k);
    modular::lemma_quotient(q, k);
    let j = k / q;
    lemma_mul_is_associative(m, q, j);
    lemma_mul_strictly_positive(m, q);
    modular::lemma_multiple(m * q, j);
}

} // verus!
