//! Fermat's little theorem, and a criterion that turns powers modulo `n` into
//! a proof that `n` is prime.
use crate::math::finite_group;
use crate::math::modular;
use crate::math::primes;
use vstd::arithmetic::div_mod::*;
use vstd::arithmetic::mul::*;
use vstd::arithmetic::power::*;
use vstd::prelude::*;
use vstd::set_lib::*;

verus! {

/// Multiplication modulo `q`.
spec fn mul_mod(q: int) -> spec_fn(int, int) -> int {
    |x: int, y: int| (x * y) % q
}

/// The nonzero residues modulo a prime form a group under multiplication.
proof fn lemma_residues_abelian(q: int)
    requires
        primes::is_prime(q),
    ensures
        finite_group::is_abelian(set_int_range(1, q), mul_mod(q), 1int),
{
    let s = set_int_range(1, q);
    let op = mul_mod(q);
    assert forall|a: int, b: int| s.contains(a) && s.contains(b) implies s.contains(
        #[trigger] op(a, b),
    ) by {
        modular::lemma_reduce(q, a * b);
        lemma_small_mod(a as nat, q as nat);
        lemma_small_mod(b as nat, q as nat);
        if (a * b) % q == 0 {
            primes::lemma_euclid(q, a, b);
        }
    }
    assert forall|a: int, b: int| s.contains(a) && s.contains(b) implies #[trigger] op(a, b) == op(
        b,
        a,
    ) by {
        lemma_mul_is_commutative(a, b);
    }
    assert forall|a: int, b: int, c: int|
        s.contains(a) && s.contains(b) && s.contains(c) implies #[trigger] op(op(a, b), c) == op(
        a,
        op(b, c),
    ) by {
        modular::lemma_mul_reduce(q, a * b, c);
        modular::lemma_mul_reduce(q, a, b * c);
        lemma_mul_is_associative(a, b, c);
    }
    assert forall|a: int| s.contains(a) implies #[trigger] op(1, a) == a by {
        lemma_small_mod(a as nat, q as nat);
    }
    assert forall|a: int, b: int, c: int|
        s.contains(a) && s.contains(b) && s.contains(c) && #[trigger] op(a, c) == #[trigger] op(
            b,
            c,
        ) implies a == b by {
        modular::lemma_cong(q, a * c, b * c);
        lemma_mul_is_distributive_sub_other_way(c, a, b);
        primes::lemma_euclid(q, a - b, c);
        lemma_small_mod(c as nat, q as nat);
        modular::lemma_unique(q, a, b);
    }
    reveal(finite_group::is_abelian);
}

/// Powers in the group of residues are powers of integers, reduced.
proof fn lemma_power_is_pow(q: int, a: int, n: nat)
    requires
        q > 1,
    ensures
        finite_group::power(mul_mod(q), 1, a % q, n) == pow(a, n) % q,
    decreases n,
{
    if n == 0 {
        lemma_pow0(a);
        lemma_small_mod(1, q as nat);
    } else {
        let m = (n - 1) as nat;
        lemma_power_is_pow(q, a, m);
        modular::lemma_mul_reduce(q, pow(a, m), a);
        reveal(pow);
        lemma_mul_is_commutative(pow(a, m), a);
    }
}

/// Fermat's little theorem.
pub proof fn lemma_fermat(q: int, a: int)
    requires
        primes::is_prime(q),
        a % q != 0,
    ensures
        pow(a, (q - 1) as nat) % q == 1,
{
    lemma_residues_abelian(q);
    lemma_int_range(1, q);
    modular::lemma_reduce(q, a);
    finite_group::lemma_order_kills(set_int_range(1, q), mul_mod(q), 1, a % q);
    lemma_power_is_pow(q, a, (q - 1) as nat);
}

/// Congruent bases have congruent powers.
pub proof fn lemma_pow_cong(m: int, a: int, b: int, n: nat)
    requires
        m > 0,
        (a - b) % m == 0,
    ensures
        (pow(a, n) - pow(b, n)) % m == 0,
{
    modular::lemma_cong(m, a, b);
    lemma_pow_mod_noop(a, n, m);
    lemma_pow_mod_noop(b, n, m);
    modular::lemma_cong(m, pow(a, n), pow(b, n));
}

/// A power of something congruent to 1 is congruent to 1.
proof fn lemma_pow_of_one(m: int, a: int, n: nat)
    requires
        m > 1,
        a % m == 1,
    ensures
        pow(a, n) % m == 1,
{
    lemma_small_mod(1, m as nat);
    modular::lemma_cong(m, a, 1);
    lemma_pow_cong(m, a, 1, n);
    lemma1_pow(n);
    modular::lemma_cong(m, pow(a, n), 1);
}

/// Pocklington's observation. Let `b` be a number whose `q`-th power is 1
/// modulo `n`, for a prime `q`, while `b - 1` is invertible modulo `n` (with
/// inverse `s`). Then every prime factor `r` of `n` is 1 modulo `q`.
pub proof fn lemma_pocklington(n: int, q: int, b: int, s: int, r: int)
    requires
        n > 1,
        primes::is_prime(q),
        primes::is_prime(r),
        n % r == 0,
        pow(b, q as nat) % n == 1,
        ((b - 1) * s) % n == 1,
    ensures
        (r - 1) % q == 0,
{
    // what is 1 modulo n is 1 modulo r
    lemma_one_mod_factor(n, r, pow(b, q as nat));
    lemma_one_mod_factor(n, r, (b - 1) * s);
    assert((b - 1) % r != 0) by {
        if (b - 1) % r == 0 {
            modular::lemma_scale(r, b - 1, s);
        }
    }
    assert(b % r != 0) by {
        if b % r == 0 {
            let k = (q - 1) as nat;
            reveal(pow);
            modular::lemma_scale(r, b, pow(b, k));
        }
    }
    lemma_fermat(r, b);
    if (r - 1) % q != 0 {
        // u * (r - 1) == k * q + 1, and so b == b^(k q + 1) == b^(u (r - 1)) == 1
        let c = (r - 1) % q;
        modular::lemma_reduce(q, r - 1);
        let u = primes::lemma_inverse(q, c);
        modular::lemma_mul_reduce(q, r - 1, u);
        let e = (r - 1) * u;
        let k = e / q;
        lemma_fundamental_div_mod(e, q);
        lemma_mul_nonnegative(r - 1, u);
        lemma_div_pos_is_pos(e, q);
        lemma_pow_multiplies(b, (r - 1) as nat, u as nat);
        lemma_pow_of_one(r, pow(b, (r - 1) as nat), u as nat);
        assert(pow(b, e as nat) % r == 1);
        lemma_pow_multiplies(b, q as nat, k as nat);
        lemma_pow_of_one(r, pow(b, q as nat), k as nat);
        lemma_mul_nonnegative(q, k);
        let f = (q * k) as nat;
        assert(pow(b, f) % r == 1);
        assert(e as nat == f + 1);
        lemma_pow_adds(b, f, 1);
        lemma_pow1(b);
        modular::lemma_mul_reduce(r, pow(b, f), b);
        assert(pow(b, e as nat) == pow(b, f) * b);
        let one = pow(b, f) % r;
        assert(one * b == b) by (nonlinear_arith)
            requires
                one == 1,
        ;
        assert(b % r == 1);
        lemma_small_mod(1, r as nat);
        modular::lemma_cong(r, b, 1);
    }
}

/// What is 1 modulo `n` is 1 modulo each of its prime factors.
proof fn lemma_one_mod_factor(n: int, r: int, a: int)
    requires
        n > 1,
        r > 1,
        n % r == 0,
        a % n == 1,
    ensures
        a % r == 1,
{
    lemma_small_mod(1, n as nat);
    lemma_small_mod(1, r as nat);
    modular::lemma_cong(n, a, 1);
    modular::lemma_quotient(n, a - 1);
    modular::lemma_scale(r, n, (a - 1) / n);
    modular::lemma_cong(r, a, 1);
}

/// Every prime factor of `n` is 1 modulo `m`.
pub open spec fn factors_are_one(n: int, m: int) -> bool {
    forall|r: int| #[trigger] primes::is_prime(r) && n % r == 0 ==> (r - 1) % m == 0
}

/// Pocklington's observation for all prime factors.
pub proof fn lemma_factors(n: int, q: int, b: int, s: int)
    requires
        n > 1,
        primes::is_prime(q),
        pow(b, q as nat) % n == 1,
        ((b - 1) * s) % n == 1,
    ensures
        factors_are_one(n, q),
{
    assert forall|r: int| #[trigger] primes::is_prime(r) && n % r == 0 implies (r - 1) % q == 0 by {
        lemma_pocklington(n, q, b, s, r);
    }
}

/// One more prime enlarges the modulus.
pub proof fn lemma_factors_product(n: int, m: int, q: int)
    requires
        m > 0,
        primes::is_prime(q),
        m % q != 0,
        factors_are_one(n, m),
        factors_are_one(n, q),
    ensures
        factors_are_one(n, m * q),
{
    assert forall|r: int| #[trigger] primes::is_prime(r) && n % r == 0 implies (r - 1) % (m * q)
        == 0 by {
        primes::lemma_coprime_product(m, q, r - 1);
    }
}

/// A modulus whose square exceeds `n` proves that `n` is prime.
pub proof fn lemma_prime(n: int, m: int)
    requires
        n > 1,
        m > 0,
        m * m > n,
        factors_are_one(n, m),
    ensures
        primes::is_prime(n),
{
    let r = primes::lemma_prime_factor(n);
    lemma_large_factor(n, m, r);
}

/// A prime factor that is 1 modulo `m` is too large to be the least factor
/// of a composite number below the square of `m`.
proof fn lemma_large_factor(n: int, m: int, r: int)
    requires
        m > 0,
        m * m > n,
        r > 1,
        (r - 1) % m == 0,
        primes::is_prime(n) || r * r <= n,
    ensures
        primes::is_prime(n),
{
    if r - 1 < m {
        lemma_small_mod((r - 1) as nat, m as nat);
    }
    lemma_mul_inequality(m, r, m);
    lemma_mul_inequality(m, r, r);
    lemma_mul_is_commutative(m, r);
}

/// `r` is the remainder of `a^e` modulo `m`.
pub open spec fn power_is(a: int, e: int, m: int, r: int) -> bool {
    e >= 0 && pow(a, e as nat) % m == r
}

/// The first power.
pub proof fn lemma_first_power(a: int, m: int)
    requires
        0 <= a < m,
    ensures
        power_is(a, 1, m, a),
{
    lemma_pow1(a);
    lemma_small_mod(a as nat, m as nat);
}

/// Doubling the exponent squares the power.
pub proof fn lemma_square(a: int, e: int, m: int, r: int, t: int)
    requires
        m > 0,
        power_is(a, e, m, r),
        (r * r) % m == t,
    ensures
        power_is(a, 2 * e, m, t),
{
    lemma_pow_adds(a, e as nat, e as nat);
    modular::lemma_mul_reduce(m, pow(a, e as nat), pow(a, e as nat));
}

/// Doubling the exponent and adding one squares the power and multiplies it
/// by the base.
pub proof fn lemma_square_multiply(a: int, e: int, m: int, r: int, t: int)
    requires
        m > 0,
        power_is(a, e, m, r),
        (r * r * a) % m == t,
    ensures
        power_is(a, 2 * e + 1, m, t),
{
    lemma_square(a, e, m, r, (r * r) % m);
    let f = (2 * e) as nat;
    lemma_pow_adds(a, f, 1);
    lemma_pow1(a);
    modular::lemma_mul_reduce(m, pow(a, f), a);
    modular::lemma_mul_reduce(m, r * r, a);
}

/// No number from 2 to `k` divides `n`.
pub open spec fn no_divisor_to(n: int, k: int) -> bool
    decreases k,
{
    k < 2 || (n % k != 0 && no_divisor_to(n, k - 1))
}

proof fn lemma_no_divisor(n: int, k: int, d: int)
    requires
        no_divisor_to(n, k),
        2 <= d <= k,
    ensures
        n % d != 0,
    decreases k,
{
    if d < k {
        lemma_no_divisor(n, k - 1, d);
    }
}

/// A number without a divisor up to its square root is prime.
pub proof fn lemma_small_prime(n: int, k: int)
    requires
        n > 1,
        k > 0,
        no_divisor_to(n, k),
        (k + 1) * (k + 1) > n,
    ensures
        primes::is_prime(n),
{
    let r = primes::lemma_prime_factor(n);
    if r <= k {
        lemma_no_divisor(n, k, r);
    } else {
        lemma_mul_inequality(k + 1, r, k + 1);
        lemma_mul_inequality(k + 1, r, r);
        lemma_mul_is_commutative(k + 1, r);
    }
}

} // verus!
