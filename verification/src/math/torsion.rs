//! The curve has no point of order two: its cubic has no root in the field.
//!
//! By Fermat's little theorem a root would equal its own power to the field
//! modulus. That power is computed modulo the cubic, which leaves a quadratic
//! equation; it and the cubic have no common root.
use crate::math::certificates;
use crate::math::curve;
use crate::math::fp;
use crate::math::identities;
use vstd::arithmetic::div_mod::*;
use vstd::arithmetic::mul::*;
use vstd::arithmetic::power::*;
use vstd::prelude::*;

verus! {

/// A power of `x` is congruent to `c0 + c1 x + c2 x^2`.
spec fn power_is(x: int, e: int, c0: int, c1: int, c2: int) -> bool {
    e >= 0 && fp::vanishes(pow(x, e as nat) - (c0 + c1 * x + c2 * (x * x)))
}

/// The square of a quadratic expression, reduced modulo the cubic.
proof fn lemma_square_reduction(x: int, b: int, c0: int, c1: int, c2: int, d0: int, d1: int, d2:
    int)
    requires
        fp::vanishes(x * x * x - 3 * x + b),
        fp::vanishes(d0 - (c0 * c0 - 2 * (b * (c1 * c2)))),
        fp::vanishes(d1 - (2 * (c0 * c1) + 6 * (c1 * c2) - b * (c2 * c2))),
        fp::vanishes(d2 - (2 * (c0 * c2) + c1 * c1 + 3 * (c2 * c2))),
    ensures
        fp::vanishes((c0 + c1 * x + c2 * (x * x)) * (c0 + c1 * x + c2 * (x * x)) - (d0 + d1 * x
            + d2 * (x * x))),
{
    fp::lemma_scale(2 * (c1 * c2) + (c2 * c2) * x, x * x * x - 3 * x + b);
    fp::lemma_scale(x, d1 - (2 * (c0 * c1) + 6 * (c1 * c2) - b * (c2 * c2)));
    fp::lemma_scale((x * x), d2 - (2 * (c0 * c2) + c1 * c1 + 3 * (c2 * c2)));
    fp::lemma_add((2 * (c1 * c2) + (c2 * c2) * x) * (x * x * x - 3 * x + b), (d0 - (c0 * c0 - 2
        * (b * (c1 * c2)))));
    fp::lemma_add((2 * (c1 * c2) + (c2 * c2) * x) * (x * x * x - 3 * x + b) - (d0 - (c0 * c0 - 2
        * (b * (c1 * c2)))), x * (d1 - (2 * (c0 * c1) + 6 * (c1 * c2) - b * (c2 * c2))));
    fp::lemma_add((2 * (c1 * c2) + (c2 * c2) * x) * (x * x * x - 3 * x + b) - (d0 - (c0 * c0 - 2
        * (b * (c1 * c2)))) - x * (d1 - (2 * (c0 * c1) + 6 * (c1 * c2) - b * (c2 * c2))), (x * x) *
        (d2 - (2 * (c0 * c2) + c1 * c1 + 3 * (c2 * c2))));
    assert((c0 + c1 * x + c2 * (x * x)) * (c0 + c1 * x + c2 * (x * x)) - (d0 + d1 * x + d2 * (x
        * x)) == (2 * (c1 * c2) + (c2 * c2) * x) * (x * x * x - 3 * x + b) - (d0 - (c0 * c0 - 2 * (b
        * (c1 * c2)))) - x * (d1 - (2 * (c0 * c1) + 6 * (c1 * c2) - b * (c2 * c2))) - (x * x) * (d2
        - (2 * (c0 * c2) + c1 * c1 + 3 * (c2 * c2)))) by {
        assert((c1 * x) == (x * c1)) by {
            lemma_mul_is_commutative(c1, x);
        }
        assert((c2 * (x * x)) == (x * x * c2)) by {
            lemma_mul_is_associative(c2, x, x);
            lemma_mul_is_commutative(c2, x);
            identities::lemma_exchange(x, c2, x);
        }
        assert((((c0 + (c1 * x)) + (c2 * (x * x))) * ((c0 + (c1 * x)) + (c2 * (x * x)))) == (c0
            * c0) + (2 * (x * c0 * c1)) + (2 * (x * x * c0 * c2)) + (x * x * c1 * c1) + (2 * (x * x
            * x * c1 * c2)) + (x * x * x * x * c2 * c2)) by {
            assert(((c0 + (c1 * x)) + (c2 * (x * x))) == c0 + (x * c1) + (x * x * c2));
            lemma_mul_is_distributive_add_other_way(c0 + (x * c1) + (x * x * c2), c0 + (x * c1),
                (x * x * c2));
            lemma_mul_is_distributive_add_other_way(c0 + (x * c1) + (x * x * c2), c0, (x * c1));
            lemma_mul_is_distributive_add(c0, c0 + (x * c1), (x * x * c2));
            lemma_mul_is_distributive_add(c0, c0, (x * c1));
            lemma_mul_is_distributive_add((x * c1), c0 + (x * c1), (x * x * c2));
            lemma_mul_is_distributive_add((x * c1), c0, (x * c1));
            lemma_mul_is_distributive_add((x * x * c2), c0 + (x * c1), (x * x * c2));
            lemma_mul_is_distributive_add((x * x * c2), c0, (x * c1));
            lemma_mul_is_associative(c0, x, c1);
            lemma_mul_is_commutative(c0, x);
            lemma_mul_is_associative(c0, x * x, c2);
            lemma_mul_is_associative(c0, x, x);
            identities::lemma_exchange(x, c0, x);
            identities::lemma_exchange(x, c1, c0);
            lemma_mul_is_associative(x * c1, x, c1);
            identities::lemma_exchange(x, c1, x);
            lemma_mul_is_associative(x * c1, x * x, c2);
            lemma_mul_is_associative(x * c1, x, x);
            identities::lemma_exchange(x * x, c1, x);
            identities::lemma_exchange(x * x, c2, c0);
            lemma_mul_is_associative(x * x * c2, x, c1);
            identities::lemma_exchange(x * x, c2, x);
            identities::lemma_exchange(x * x * x, c2, c1);
            lemma_mul_is_associative(x * x * c2, x * x, c2);
            lemma_mul_is_associative(x * x * c2, x, x);
            identities::lemma_exchange(x * x * x, c2, x);
        }
        assert((d1 * x) == (x * d1)) by {
            lemma_mul_is_commutative(d1, x);
        }
        assert((d2 * (x * x)) == (x * x * d2)) by {
            lemma_mul_is_associative(d2, x, x);
            lemma_mul_is_commutative(d2, x);
            identities::lemma_exchange(x, d2, x);
        }
        assert(((c2 * c2) * x) == (x * c2 * c2)) by {
            identities::lemma_exchange(c2, c2, x);
            lemma_mul_is_commutative(c2, x);
        }
        assert((((2 * (c1 * c2)) + ((c2 * c2) * x)) * ((((x * x) * x) - (3 * x)) + b)) == 0 - (6
            * (x * c1 * c2)) + (2 * (b * c1 * c2)) - (3 * (x * x * c2 * c2)) + (x * b * c2 * c2) +
            (2 * (x * x * x * c1 * c2)) + (x * x * x * x * c2 * c2)) by {
            assert(((2 * (c1 * c2)) + ((c2 * c2) * x)) == (2 * (c1 * c2)) + (x * c2 * c2));
            assert(((((x * x) * x) - (3 * x)) + b) == 0 - (3 * x) + b + (x * x * x));
            lemma_mul_is_distributive_add_other_way(0 - (3 * x) + b + (x * x * x), (2 * (c1 *
                c2)), (x * c2 * c2));
            lemma_mul_is_distributive_add((2 * (c1 * c2)), 0 - (3 * x) + b, (x * x * x));
            lemma_mul_is_distributive_add((2 * (c1 * c2)), 0 - (3 * x), b);
            lemma_mul_is_distributive_sub((2 * (c1 * c2)), 0, (3 * x));
            lemma_mul_is_distributive_add((x * c2 * c2), 0 - (3 * x) + b, (x * x * x));
            lemma_mul_is_distributive_add((x * c2 * c2), 0 - (3 * x), b);
            lemma_mul_is_distributive_sub((x * c2 * c2), 0, (3 * x));
            identities::lemma_coefficients(2, c1 * c2, 3, x);
            identities::lemma_exchange(c1, c2, x);
            lemma_mul_is_commutative(c1, x);
            lemma_mul_is_associative(2, c1 * c2, b);
            identities::lemma_exchange(c1, c2, b);
            lemma_mul_is_commutative(c1, b);
            lemma_mul_is_associative(2, c1 * c2, x * x * x);
            lemma_mul_is_associative(c1 * c2, x * x, x);
            lemma_mul_is_associative(c1 * c2, x, x);
            identities::lemma_exchange(x * c1, c2, x);
            identities::lemma_exchange(x, c1, x);
            identities::lemma_exchange(x * x * c1, c2, x);
            identities::lemma_exchange(x * x, c1, x);
            identities::lemma_outward(x * c2 * c2, 3, x);
            identities::lemma_exchange(x * c2, c2, x);
            identities::lemma_exchange(x, c2, x);
            identities::lemma_exchange(x * c2, c2, b);
            identities::lemma_exchange(x, c2, b);
            lemma_mul_is_associative(x * c2 * c2, x * x, x);
            lemma_mul_is_associative(x * c2 * c2, x, x);
            identities::lemma_exchange(x * x * c2, c2, x);
            identities::lemma_exchange(x * x, c2, x);
            identities::lemma_exchange(x * x * x * c2, c2, x);
            identities::lemma_exchange(x * x * x, c2, x);
        }
        assert((b * (c1 * c2)) == (b * c1 * c2)) by {
            lemma_mul_is_associative(b, c1, c2);
        }
        assert((b * (c2 * c2)) == (b * c2 * c2)) by {
            lemma_mul_is_associative(b, c2, c2);
        }
        assert((x * (d1 - (((2 * (c0 * c1)) + (6 * (c1 * c2))) - (b * (c2 * c2))))) == (x * d1)
            - (2 * (x * c0 * c1)) - (6 * (x * c1 * c2)) + (x * b * c2 * c2)) by {
            assert((d1 - (((2 * (c0 * c1)) + (6 * (c1 * c2))) - (b * (c2 * c2)))) == d1 - (2 *
                (c0 * c1)) - (6 * (c1 * c2)) + (b * c2 * c2));
            lemma_mul_is_distributive_add(x, d1 - (2 * (c0 * c1)) - (6 * (c1 * c2)), (b * c2 * c2));
            lemma_mul_is_distributive_sub(x, d1 - (2 * (c0 * c1)), (6 * (c1 * c2)));
            lemma_mul_is_distributive_sub(x, d1, (2 * (c0 * c1)));
            identities::lemma_outward(x, 2, c0 * c1);
            lemma_mul_is_associative(x, c0, c1);
            identities::lemma_outward(x, 6, c1 * c2);
            lemma_mul_is_associative(x, c1, c2);
            lemma_mul_is_associative(x, b * c2, c2);
            lemma_mul_is_associative(x, b, c2);
        }
        assert(((x * x) * (d2 - (((2 * (c0 * c2)) + (c1 * c1)) + (3 * (c2 * c2))))) == (x * x *
            d2) - (2 * (x * x * c0 * c2)) - (x * x * c1 * c1) - (3 * (x * x * c2 * c2))) by {
            assert((d2 - (((2 * (c0 * c2)) + (c1 * c1)) + (3 * (c2 * c2)))) == d2 - (2 * (c0 *
                c2)) - (c1 * c1) - (3 * (c2 * c2)));
            lemma_mul_is_distributive_sub((x * x), d2 - (2 * (c0 * c2)) - (c1 * c1), (3 * (c2 *
                c2)));
            lemma_mul_is_distributive_sub((x * x), d2 - (2 * (c0 * c2)), (c1 * c1));
            lemma_mul_is_distributive_sub((x * x), d2, (2 * (c0 * c2)));
            identities::lemma_outward(x * x, 2, c0 * c2);
            lemma_mul_is_associative(x * x, c0, c2);
            lemma_mul_is_associative(x * x, c1, c1);
            identities::lemma_outward(x * x, 3, c2 * c2);
            lemma_mul_is_associative(x * x, c2, c2);
        }
    }
}

/// The product of a quadratic expression with the variable, reduced modulo the
/// cubic.
proof fn lemma_shift_reduction(x: int, b: int, c0: int, c1: int, c2: int, d0: int, d1: int)
    requires
        fp::vanishes(x * x * x - 3 * x + b),
        fp::vanishes(d0 + b * c2),
        fp::vanishes(d1 - (c0 + 3 * c2)),
    ensures
        fp::vanishes((c0 + c1 * x + c2 * (x * x)) * x - (d0 + d1 * x + c1 * (x * x))),
{
    fp::lemma_scale(c2, x * x * x - 3 * x + b);
    fp::lemma_scale(x, d1 - (c0 + 3 * c2));
    fp::lemma_add(c2 * (x * x * x - 3 * x + b), (d0 + b * c2));
    fp::lemma_add(c2 * (x * x * x - 3 * x + b) - (d0 + b * c2), x * (d1 - (c0 + 3 * c2)));
    assert((c0 + c1 * x + c2 * (x * x)) * x - (d0 + d1 * x + c1 * (x * x)) == c2 * (x * x * x -
        3 * x + b) - (d0 + b * c2) - x * (d1 - (c0 + 3 * c2))) by {
        assert((c1 * x) == (x * c1)) by {
            lemma_mul_is_commutative(c1, x);
        }
        assert((c2 * (x * x)) == (x * x * c2)) by {
            lemma_mul_is_associative(c2, x, x);
            lemma_mul_is_commutative(c2, x);
            identities::lemma_exchange(x, c2, x);
        }
        assert((((c0 + (c1 * x)) + (c2 * (x * x))) * x) == (x * c0) + (x * x * c1) + (x * x * x
            * c2)) by {
            assert(((c0 + (c1 * x)) + (c2 * (x * x))) == c0 + (x * c1) + (x * x * c2));
            lemma_mul_is_distributive_add_other_way(x, c0 + (x * c1), (x * x * c2));
            lemma_mul_is_distributive_add_other_way(x, c0, (x * c1));
            lemma_mul_is_commutative(c0, x);
            identities::lemma_exchange(x, c1, x);
            identities::lemma_exchange(x * x, c2, x);
        }
        assert((d1 * x) == (x * d1)) by {
            lemma_mul_is_commutative(d1, x);
        }
        assert((c1 * (x * x)) == (x * x * c1)) by {
            lemma_mul_is_associative(c1, x, x);
            lemma_mul_is_commutative(c1, x);
            identities::lemma_exchange(x, c1, x);
        }
        assert((c2 * ((((x * x) * x) - (3 * x)) + b)) == 0 - (3 * (x * c2)) + (b * c2) + (x * x
            * x * c2)) by {
            assert(((((x * x) * x) - (3 * x)) + b) == 0 - (3 * x) + b + (x * x * x));
            lemma_mul_is_distributive_add(c2, 0 - (3 * x) + b, (x * x * x));
            lemma_mul_is_distributive_add(c2, 0 - (3 * x), b);
            lemma_mul_is_distributive_sub(c2, 0, (3 * x));
            identities::lemma_outward(c2, 3, x);
            lemma_mul_is_commutative(c2, x);
            lemma_mul_is_commutative(c2, b);
            lemma_mul_is_associative(c2, x * x, x);
            lemma_mul_is_associative(c2, x, x);
            identities::lemma_exchange(x, c2, x);
            identities::lemma_exchange(x * x, c2, x);
        }
        assert((x * (d1 - (c0 + (3 * c2)))) == 0 - (x * c0) - (3 * (x * c2)) + (x * d1)) by {
            assert((d1 - (c0 + (3 * c2))) == 0 - c0 - (3 * c2) + d1);
            lemma_mul_is_distributive_add(x, 0 - c0 - (3 * c2), d1);
            lemma_mul_is_distributive_sub(x, 0 - c0, (3 * c2));
            lemma_mul_is_distributive_sub(x, 0, c0);
            identities::lemma_outward(x, 3, c2);
        }
    }
}

/// Squares a power.
proof fn lemma_double(x: int, e: int, c0: int, c1: int, c2: int, d0: int, d1: int, d2: int)
    requires
        fp::vanishes(curve::cubic(x)),
        power_is(x, e, c0, c1, c2),
        (d0 - (c0 * c0 - 2 * (curve::b() * (c1 * c2)))) % certificates::field_modulus() == 0,
        (d1 - (2 * (c0 * c1) + 6 * (c1 * c2) - curve::b() * (c2 * c2)))
            % certificates::field_modulus() == 0,
        (d2 - (2 * (c0 * c2) + c1 * c1 + 3 * (c2 * c2))) % certificates::field_modulus() == 0,
    ensures
        power_is(x, 2 * e, d0, d1, d2),
{
    let c = c0 + c1 * x + c2 * (x * x);
    let n = e as nat;
    fp::lemma_vanishes(d0 - (c0 * c0 - 2 * (curve::b() * (c1 * c2))));
    fp::lemma_vanishes(d1 - (2 * (c0 * c1) + 6 * (c1 * c2) - curve::b() * (c2 * c2)));
    fp::lemma_vanishes(d2 - (2 * (c0 * c2) + c1 * c1 + 3 * (c2 * c2)));
    lemma_square_reduction(x, curve::b(), c0, c1, c2, d0, d1, d2);
    lemma_pow_adds(x, n, n);
    fp::lemma_mul(pow(x, n), c, pow(x, n), c);
    fp::lemma_trans(pow(x, n + n), c * c, d0 + d1 * x + d2 * (x * x));
}

/// Squares a power and multiplies it by `x`.
proof fn lemma_double_add(
    x: int,
    e: int,
    c0: int,
    c1: int,
    c2: int,
    d0: int,
    d1: int,
    d2: int,
    f0: int,
    f1: int,
)
    requires
        fp::vanishes(curve::cubic(x)),
        power_is(x, e, c0, c1, c2),
        (d0 - (c0 * c0 - 2 * (curve::b() * (c1 * c2)))) % certificates::field_modulus() == 0,
        (d1 - (2 * (c0 * c1) + 6 * (c1 * c2) - curve::b() * (c2 * c2)))
            % certificates::field_modulus() == 0,
        (d2 - (2 * (c0 * c2) + c1 * c1 + 3 * (c2 * c2))) % certificates::field_modulus() == 0,
        (f0 + curve::b() * d2) % certificates::field_modulus() == 0,
        (f1 - (d0 + 3 * d2)) % certificates::field_modulus() == 0,
    ensures
        power_is(x, 2 * e + 1, f0, f1, d1),
{
    let d = d0 + d1 * x + d2 * (x * x);
    let n = (2 * e) as nat;
    lemma_double(x, e, c0, c1, c2, d0, d1, d2);
    fp::lemma_vanishes(f0 + curve::b() * d2);
    fp::lemma_vanishes(f1 - (d0 + 3 * d2));
    lemma_shift_reduction(x, curve::b(), d0, d1, d2, f0, f1);
    lemma_pow1(x);
    lemma_pow_adds(x, n, 1);
    fp::lemma_zero();
    fp::lemma_mul(pow(x, n), d, x, x);
    fp::lemma_trans(pow(x, n + 1), d * x, f0 + f1 * x + d1 * (x * x));
}

/// The next powers.
proof fn lemma_powers_1(x: int)
    requires
        fp::vanishes(curve::cubic(x)),
        power_is(x, 0x1int, 0x0int, 0x1int, 0x0int),
    ensures
        power_is(x, 0x1ffint,
            0x8eb968564e1ce3b0cc43649e3665d8bd7c513f48ee028c74aaa1b228460fccc3int,
            0xe4399ab42e24ec29a63e4d3366cdf9afe685a1b794baebfd1519abfe55a01e92int,
            0xfaf1759697975cb26ce946313edc7a2667d6079aade7008dcef6d6f04481dcf6int),
{
    lemma_double_add(x, 0x1int, 0x0int, 0x1int, 0x0int, 0x0int, 0x0int, 0x1int,
        0xa539ca2655c56c194c1442aa896779439ae2f95033ac4f09c431c3c1d82d9fb4int, 0x3int);
    lemma_double_add(x, 0x3int,
        0xa539ca2655c56c194c1442aa896779439ae2f95033ac4f09c431c3c1d82d9fb4int, 0x3int, 0x0int,
        0x780e30db8d0bff9f35db5c169c4154566f784ac6c9f292c324f78692b59918e3int,
        0xdf5abce902a08894c8798fff386cd795a151d7de3609da3a992a968b1111be3bint, 0x9int,
        0xcf081b5e03f0ccdeacb657fed4a3436071fac3ccd10ec757e5bfe1d0999a9d59int,
        0x780e30db8d0bff9f35db5c169c4154566f784ac6c9f292c324f78692b59918feint);
    lemma_double_add(x, 0x7int,
        0xcf081b5e03f0ccdeacb657fed4a3436071fac3ccd10ec757e5bfe1d0999a9d59int,
        0x780e30db8d0bff9f35db5c169c4154566f784ac6c9f292c324f78692b59918feint,
        0xdf5abce902a08894c8798fff386cd795a151d7de3609da3a992a968b1111be3bint,
        0x92353da7e91503d3c42f88f3de749ac8f8fb87845d079ef21bce0036251288e7int,
        0x903c4e5a179f3d526b16458f5b6495dbbdc1e907547ef3165710f51b38d444afint,
        0x2c9d06d9931466906eb3b1f205d3cc551e2d4cd03b31e8805fbf1b93444ac62dint,
        0x50900bd51d5992dc08b2d5d048c02e84d9052042dca9a8bf660f39f588523e65int,
        0x180c5235a2523784104a9ec9efefffc853836df40e9d58733b0b52eff1f2db6fint);
    lemma_double_add(x, 0xfint,
        0x50900bd51d5992dc08b2d5d048c02e84d9052042dca9a8bf660f39f588523e65int,
        0x180c5235a2523784104a9ec9efefffc853836df40e9d58733b0b52eff1f2db6fint,
        0x903c4e5a179f3d526b16458f5b6495dbbdc1e907547ef3165710f51b38d444afint,
        0x1477eccf1132934c715b25c5d017f22ed635bfafddd493c6eb562b476d75ede2int,
        0x5dd43d896c052496dceef4416a56fc93f011b8cf495772ce5a49c7acb973e31dint,
        0xd0da663f8852ab95f0427be5cf72bf55022873c640609f79a1c4ae5cf2f29ce8int,
        0x3d81e20a7855d1d05cfaf81407d735bca30a3fdfa4bc90a19cc55d8dbb1793e6int,
        0x87071f8faa2a960c422299773e70302ddcaf1b009ef67233d0a4365e464dc49cint);
    lemma_double_add(x, 0x1fint,
        0x3d81e20a7855d1d05cfaf81407d735bca30a3fdfa4bc90a19cc55d8dbb1793e6int,
        0x87071f8faa2a960c422299773e70302ddcaf1b009ef67233d0a4365e464dc49cint,
        0x5dd43d896c052496dceef4416a56fc93f011b8cf495772ce5a49c7acb973e31dint,
        0x96439668012f55dc16c4b7e8a502fdf982d284ff4725c13f1691ea8b47cf31c5int,
        0xc59c78a682b7630c12de65d218c18e4bf46b8aa92d592b75a2ea263d4f861aa8int,
        0x661f79ac65e7212d25f3c1f6be5331d3e68e0c24f2bc1a1d503377b0eceeb901int,
        0x9f9ec0667a4de7ab65b5a13c58e045f800fe02ff6af0ea6335838cda4a87894int,
        0xc8a2036e32e4b962889ffdccdffc9375367ca96d1f5a0f97072c519e0e9b5cc9int);
    lemma_double_add(x, 0x3fint,
        0x9f9ec0667a4de7ab65b5a13c58e045f800fe02ff6af0ea6335838cda4a87894int,
        0xc8a2036e32e4b962889ffdccdffc9375367ca96d1f5a0f97072c519e0e9b5cc9int,
        0xc59c78a682b7630c12de65d218c18e4bf46b8aa92d592b75a2ea263d4f861aa8int,
        0xe8d447021e17ba7478655a24cb5bf767ad3770d2943a3128bf6be2e5aa839ba0int,
        0x4a99f89a52604f5441f656d3e3c4073869d7b9e1d37e4ee248b9222ae37d0229int,
        0x7ab3da610c144d2a038af2a7e2a3066d3756bc0b7358a3ec373f7471a67007aeint,
        0x9666584bba18986cc69348a523dc2f86534878ac07d3f9ec6135c0d0abf6093eint,
        0x58efd6274254a1f08306321c73450aaf533ba4f2ee441ced652a403a9dd3b2acint);
    lemma_double_add(x, 0x7fint,
        0x9666584bba18986cc69348a523dc2f86534878ac07d3f9ec6135c0d0abf6093eint,
        0x58efd6274254a1f08306321c73450aaf533ba4f2ee441ced652a403a9dd3b2acint,
        0x4a99f89a52604f5441f656d3e3c4073869d7b9e1d37e4ee248b9222ae37d0229int,
        0x71728c4b266eec36ccf19e39974af81d233cb797d0a181377ffca765602f642dint,
        0x35e279c5136ef70a1c1353485a049f2e3818e4c9dcddb5552a83dc7e76b8eb89int,
        0x81bd2784a6bfe2220829d62100d2c31d6ab6fad598a47c4d589c88ceed9dd1ceint,
        0x9f54c95cb37635750894deddf3174509fa0d660c422c9aa7b2a7d5e34490f4ccint,
        0xf6aa02da1aae929be56f209c99c341756361a8179a8ef61f89d241d22908d998int);
    lemma_double_add(x, 0xffint,
        0x9f54c95cb37635750894deddf3174509fa0d660c422c9aa7b2a7d5e34490f4ccint,
        0xf6aa02da1aae929be56f209c99c341756361a8179a8ef61f89d241d22908d998int,
        0x35e279c5136ef70a1c1353485a049f2e3818e4c9dcddb5552a83dc7e76b8eb89int,
        0x1d51835786a9085dfc9179b3189b549b5b443345f3c06a7ea676e9c6c3885eb5int,
        0xfaf1759697975cb26ce946313edc7a2667d6079aade7008dcef6d6f04481dcf6int,
        0x424d5d1ee27ea143e3399bd56f663706d915cf7b35a8d5d4cf8b96128607ea9fint,
        0x8eb968564e1ce3b0cc43649e3665d8bd7c513f48ee028c74aaa1b228460fccc3int,
        0xe4399ab42e24ec29a63e4d3366cdf9afe685a1b794baebfd1519abfe55a01e92int);
}

/// The next powers.
proof fn lemma_powers_2(x: int)
    requires
        fp::vanishes(curve::cubic(x)),
        power_is(x, 0x1ffint,
            0x8eb968564e1ce3b0cc43649e3665d8bd7c513f48ee028c74aaa1b228460fccc3int,
            0xe4399ab42e24ec29a63e4d3366cdf9afe685a1b794baebfd1519abfe55a01e92int,
            0xfaf1759697975cb26ce946313edc7a2667d6079aade7008dcef6d6f04481dcf6int),
    ensures
        power_is(x, 0x1ffffint,
            0x7ed3ee8df73c2c8e96fc96bf15c4657809e4658bb8e19f9b82deebe159c1c3a5int,
            0x266695826ba3e6fa5392463bde79da6f28206762e05cdd265c0e5717fc611dc2int,
            0x3c9f1514103a72b66745126d53923542da4f706dfcd311491cf83012b8726960int),
{
    lemma_double_add(x, 0x1ffint,
        0x8eb968564e1ce3b0cc43649e3665d8bd7c513f48ee028c74aaa1b228460fccc3int,
        0xe4399ab42e24ec29a63e4d3366cdf9afe685a1b794baebfd1519abfe55a01e92int,
        0xfaf1759697975cb26ce946313edc7a2667d6079aade7008dcef6d6f04481dcf6int,
        0xd920f58308b0842447c41a224ba5919094aaa4d3780aa3d57f45aa3770142268int,
        0x383da721ba0db13050178bf4e6aa5187bd6133af8300308cba201fb197c26caeint,
        0xdc0b0ac657368af36a87b05cb85f74fd571c31192203ac45faa4fe906b94e851int,
        0xc8e5ec83438931c3e770999634b472147353509bb872fc9c17cd7d7537be5f47int,
        0x6d4215d90e5424fb875b2b3874c3f08899ff381bde15a8a76f34a5e8b2d2db5eint);
    lemma_double_add(x, 0x3ffint,
        0xc8e5ec83438931c3e770999634b472147353509bb872fc9c17cd7d7537be5f47int,
        0x6d4215d90e5424fb875b2b3874c3f08899ff381bde15a8a76f34a5e8b2d2db5eint,
        0x383da721ba0db13050178bf4e6aa5187bd6133af8300308cba201fb197c26caeint,
        0x6a5ca46ef1a4d7939c13aba3a010f9a6057b35714972c75e278a9bcc1e07f794int,
        0x8c92508480f3342e7b0b49145a6dd7a458fca98b924f1154094221caaa400ee2int,
        0x62a6920b2d6c4c0fe82636f9da2c0bbfb4fda75596d4182d66feed252bafd200int,
        0x39c8cd9ef5e3c69464892155149bbe00158da4ac25368ce6f9079d8b9af74ca3int,
        0x92505a9179e9bbc2548650912e951ce524742b710def0fe65c87633ba1176d95int);
    lemma_double_add(x, 0x7ffint,
        0x39c8cd9ef5e3c69464892155149bbe00158da4ac25368ce6f9079d8b9af74ca3int,
        0x92505a9179e9bbc2548650912e951ce524742b710def0fe65c87633ba1176d95int,
        0x8c92508480f3342e7b0b49145a6dd7a458fca98b924f1154094221caaa400ee2int,
        0x510f2fba1007b485e16ade38cff0af73a295d3fb34e1a14b9d912c0e4c80588aint,
        0xc638ef7ca725b971874e15af4c966252d94da7ac636e94f9e7c113d5932f7a61int,
        0x8a4770610c7b456560637dfdb244c8f8882c30041d2b6df6af41f311674aacaeint,
        0xd3274614d8a1eb9c0f6d6e185ec0ba31dd9f331251dc26283629794ec754bd97int,
        0xefe580de357984b502955831e6bf0a5d3b1a64068c63eb2fab57054282605e95int);
    lemma_double_add(x, 0xfffint,
        0xd3274614d8a1eb9c0f6d6e185ec0ba31dd9f331251dc26283629794ec754bd97int,
        0xefe580de357984b502955831e6bf0a5d3b1a64068c63eb2fab57054282605e95int,
        0xc638ef7ca725b971874e15af4c966252d94da7ac636e94f9e7c113d5932f7a61int,
        0x854347a14e03b51fb447676d84ebba6d3b8f4cfd5e4332cbf60e55a28fd16da9int,
        0x104d61acdc9fafe588a1f20e24f68816f8fc0b9e36bf1eeb59ab886c6a66bf84int,
        0x60d894070f3e831bcbaaa079148a3d0841db5d5778bf34a3f27bad4aea320153int,
        0x9ee5f08c3b1bd92289060a43ab1be5fc2d9e92e150d9b9d3e693b3b7ea89096bint,
        0xa7cd03b77bbf3e72174748d8c28a718601216502c880d0b7cd815d834e6771a3int);
    lemma_double_add(x, 0x1fffint,
        0x9ee5f08c3b1bd92289060a43ab1be5fc2d9e92e150d9b9d3e693b3b7ea89096bint,
        0xa7cd03b77bbf3e72174748d8c28a718601216502c880d0b7cd815d834e6771a3int,
        0x104d61acdc9fafe588a1f20e24f68816f8fc0b9e36bf1eeb59ab886c6a66bf84int,
        0x87839ef24a64f38bd815ec4a4365c88ede5f357955ce4b5973723cdc88e5c20fint,
        0x58af6104da8ad058119e704edf1e9b7649b8c87a4602660702e59cd34cd1c396int,
        0xd3d6ba447764e08c85fa3c908b5741b441e646f52e5d2a7dde10b8f118c409c3int,
        0x92dcf7300d4e396aea14a2f21b9a474b5b46b4be09e51d0711f64446ad2cd773int,
        0x307cdc2b093952e6a04a1fbe56b8daba4120a55e0e5cad30da467afd331df5bint);
    lemma_double_add(x, 0x3fffint,
        0x92dcf7300d4e396aea14a2f21b9a474b5b46b4be09e51d0711f64446ad2cd773int,
        0x307cdc2b093952e6a04a1fbe56b8daba4120a55e0e5cad30da467afd331df5bint,
        0x58af6104da8ad058119e704edf1e9b7649b8c87a4602660702e59cd34cd1c396int,
        0xa9c33c4981b183740ab40081fc0be1e8c75c28b2a15b4a7a15080959162d20cfint,
        0x76c6efc4ae6e86c5a2c95e6ae3b5a03852e41000287c4f06cdf2ace9b0522ee5int,
        0x9ad47222a012b0c5c51c33cfee6237df39015323feecf0431833d18e2e83621dint,
        0xc8338029a0d3d3c4b2579f43cc86942e9c893363585f60d6cb7266fcc7834417int,
        0x7a4092b361e995c35a089bf1c73289867260221c9e221b435da37e03a1b74728int);
    lemma_double_add(x, 0x7fffint,
        0xc8338029a0d3d3c4b2579f43cc86942e9c893363585f60d6cb7266fcc7834417int,
        0x7a4092b361e995c35a089bf1c73289867260221c9e221b435da37e03a1b74728int,
        0x76c6efc4ae6e86c5a2c95e6ae3b5a03852e41000287c4f06cdf2ace9b0522ee5int,
        0x95592049c3601ce17446e914a6691a64c8b509e471f67ac449326ff3d4e21d7cint,
        0x305f424b722173595c069b074ee3b58a7086e1a70863b2e4847317dba0681e8dint,
        0xe4d5a3813db40bc74cafcdee095bd9cc33ff0b44dace1ea10e5c5518250c95a7int,
        0xc9b277c2081204fe983d9354514bb8149359217f4b77476ba10218ea2a752001int,
        0x43da0ad07c7c40345a5652dec27ca7c964b22bb00260d6a774476f3c4407de74int);
    lemma_double_add(x, 0xffffint,
        0xc9b277c2081204fe983d9354514bb8149359217f4b77476ba10218ea2a752001int,
        0x43da0ad07c7c40345a5652dec27ca7c964b22bb00260d6a774476f3c4407de74int,
        0x305f424b722173595c069b074ee3b58a7086e1a70863b2e4847317dba0681e8dint,
        0x2f50f1b9933dcdb861b69d70592620b5491fae541023bfe3411cfd30b9143e07int,
        0x3c9f1514103a72b66745126d53923542da4f706dfcd311491cf83012b8726960int,
        0xa7b1e1424822086bfb493843d71be8934a5593059abdb46bb3a5c8a26bc44a93int,
        0x7ed3ee8df73c2c8e96fc96bf15c4657809e4658bb8e19f9b82deebe159c1c3a5int,
        0x266695826ba3e6fa5392463bde79da6f28206762e05cdd265c0e5717fc611dc2int);
}

/// The next powers.
proof fn lemma_powers_3(x: int)
    requires
        fp::vanishes(curve::cubic(x)),
        power_is(x, 0x1ffffint,
            0x7ed3ee8df73c2c8e96fc96bf15c4657809e4658bb8e19f9b82deebe159c1c3a5int,
            0x266695826ba3e6fa5392463bde79da6f28206762e05cdd265c0e5717fc611dc2int,
            0x3c9f1514103a72b66745126d53923542da4f706dfcd311491cf83012b8726960int),
    ensures
        power_is(x, 0x1ffffffint,
            0x7b42f7321b1720a030ddad58dce5f204ca5fdfc2e97b2e74e9a9eaa031254eebint,
            0x2acdbd1c45fe95dd78e5639de0ddfc4cf3bb8107c300b0860fe93d96d39ca575int,
            0x6b5ef447ad89bf1050ce394f7fc7f06c1b44b191fce55dbf37341b4c6b20eed5int),
{
    lemma_double_add(x, 0x1ffffint,
        0x7ed3ee8df73c2c8e96fc96bf15c4657809e4658bb8e19f9b82deebe159c1c3a5int,
        0x266695826ba3e6fa5392463bde79da6f28206762e05cdd265c0e5717fc611dc2int,
        0x3c9f1514103a72b66745126d53923542da4f706dfcd311491cf83012b8726960int,
        0x2fedb2e42d06b92070b84501f5e7f4dd34eb0025f98887faed2639928411060dint,
        0x65bedee4fe786d2d01417eb6d4985ef7dd520f4616a9e86f821b7d786d8572bint,
        0x42e596ce614db1cbb361cda2f905ebe658952041dc0caa36b3e79be9cb86889aint,
        0x42b1dc959cde965bbcdfad655c367accc9f8fef180f8c13cc6cdc7d417942779int,
        0xf89e774f50efce838addadeae0f9b8903eaa60eb8dae869f08dd0d4fe6a49fdbint);
    lemma_double_add(x, 0x3ffffint,
        0x42b1dc959cde965bbcdfad655c367accc9f8fef180f8c13cc6cdc7d417942779int,
        0xf89e774f50efce838addadeae0f9b8903eaa60eb8dae869f08dd0d4fe6a49fdbint,
        0x65bedee4fe786d2d01417eb6d4985ef7dd520f4616a9e86f821b7d786d8572bint,
        0xa4270dccf49ad1d61b96f03431eaa4c823f188ac0f3a429125346e5b58bcacdcint,
        0x51d6a7300edd9d27de60a9d24a54424205bde67e7243a6cafb1b44dd58803d18int,
        0x2347dee1f9ad16c5c38531b813df236ad6b7dac304834e0b91f23d9548e53d71int,
        0x29b21d238a9550c7dce5c3feb4c39f0803d017edf89c208fdf8e4d15f54c795eint,
        0xdfeaa73e1a216266626855c6d880f08a81918f41cc42cb3db0b271b336c6530int);
    lemma_double_add(x, 0x7ffffint,
        0x29b21d238a9550c7dce5c3feb4c39f0803d017edf89c208fdf8e4d15f54c795eint,
        0xdfeaa73e1a216266626855c6d880f08a81918f41cc42cb3db0b271b336c6530int,
        0x51d6a7300edd9d27de60a9d24a54424205bde67e7243a6cafb1b44dd58803d18int,
        0x717ea9e9587e4b4c586082233de5aa535cc73e6eb2c71b94c2c49c66d66a7949int,
        0xb14cd93291e2d19238b9eb6b41f245ec4e23c9ee7e3031b13a296ec6f1c8cbe2int,
        0x10d74efedabfb9394d45afb52f879404d2a884b903980ab6135c34d350e72b9int,
        0x713639227bb49401dae1c7ea9d00e049eef49bc2129155d51d1b24aaa3716d0dint,
        0x74a708b921823e0716dd931536cf16144446d75163739d96e665e64e7595d174int);
    lemma_double_add(x, 0xfffffint,
        0x713639227bb49401dae1c7ea9d00e049eef49bc2129155d51d1b24aaa3716d0dint,
        0x74a708b921823e0716dd931536cf16144446d75163739d96e665e64e7595d174int,
        0xb14cd93291e2d19238b9eb6b41f245ec4e23c9ee7e3031b13a296ec6f1c8cbe2int,
        0x5f4a702e07924c03a03ca8bc230a37e7b550d1968f68b2b17fb560505a00ebcint,
        0xabd9d2a51494a5682f80bf44732f1cbc381a070fef9a3e38746b73b509a1a32bint,
        0xfcae263f713acd25ebc1552890af83021c0ed5281f158b5b6bcdf282ff4b2035int,
        0x535e2e58b250dd180230a1c8c8de8221c7feae195834d64fd0adbfa7e88f30feint,
        0xfbff19c334298c2ffd47ca05743f2c84cf818c8fc6372d3d5b652d8e03816f5dint);
    lemma_double_add(x, 0x1fffffint,
        0x535e2e58b250dd180230a1c8c8de8221c7feae195834d64fd0adbfa7e88f30feint,
        0xfbff19c334298c2ffd47ca05743f2c84cf818c8fc6372d3d5b652d8e03816f5dint,
        0xabd9d2a51494a5682f80bf44732f1cbc381a070fef9a3e38746b73b509a1a32bint,
        0x5e08c41bf8e6218342cbfdf4a1d4f60b9d6bc133c5f4a0cf23f1d066d03cca58int,
        0xf2f6731013588396370bc6fba57c015af4d8bf781b16e4efa08f5e7f972a30ddint,
        0x98261bf7d3537d63badaf324a218c3e93374e26c1f4d7d40a6190f7f73267b66int,
        0x717498ae779d4f836b5ba102c82f66c6bfc6bb4bd57257810b6d673410029d17int,
        0x267b180572e099ac735cd762881f41c737ca687623dd1891163cfee529b03c8cint);
    lemma_double_add(x, 0x3fffffint,
        0x717498ae779d4f836b5ba102c82f66c6bfc6bb4bd57257810b6d673410029d17int,
        0x267b180572e099ac735cd762881f41c737ca687623dd1891163cfee529b03c8cint,
        0xf2f6731013588396370bc6fba57c015af4d8bf781b16e4efa08f5e7f972a30ddint,
        0x4c0e67fbd1ba93e7b15dfb7316e438e90a92613e3d66e4385f9e1b397fb53e56int,
        0xd830b82e935e1e968d7eddbf484f7bfe8303051ef385f8ff3b3b6db3a44cf8e0int,
        0x2c5b7e600a07e9a20e98d2593c9d94fbb3a0f7275c16e5bb65651c0fbf4d38c9int,
        0xbfdc1b13723fba60d6f5a13bd37adc9243c9a023ba4247ae6feb224cd25f40cint,
        0xd120e31befd250cddd28727eccbcf7dc257546b451ab956a8fcd6f68bd9ce8b1int);
    lemma_double_add(x, 0x7fffffint,
        0xbfdc1b13723fba60d6f5a13bd37adc9243c9a023ba4247ae6feb224cd25f40cint,
        0xd120e31befd250cddd28727eccbcf7dc257546b451ab956a8fcd6f68bd9ce8b1int,
        0xd830b82e935e1e968d7eddbf484f7bfe8303051ef385f8ff3b3b6db3a44cf8e0int,
        0x7423fbe13687915c77a5d94804db497ec29c931aac27246a6f41545f93cc7c8int,
        0xbfb9e4ead397ec9f5ea705ec666b61c2c4ccea49db6d9709bb9f1bb81cd487adint,
        0x528475f34c1eaaa4b1e5622da199a0f5d37673e85e3cb20e5d87521db606d323int,
        0xaf0dfa011649181aa84bfb6fd1ee95a5c2c4249ed80a82da8d5659a1cae066acint,
        0xfecfa197f7c47903dd2a841d651a9779668d24eac5788871bf8a0b9f1b514131int);
    lemma_double_add(x, 0xffffffint,
        0xaf0dfa011649181aa84bfb6fd1ee95a5c2c4249ed80a82da8d5659a1cae066acint,
        0xfecfa197f7c47903dd2a841d651a9779668d24eac5788871bf8a0b9f1b514131int,
        0xbfb9e4ead397ec9f5ea705ec666b61c2c4ccea49db6d9709bb9f1bb81cd487adint,
        0xd773163b4ed2dc85bedc585b0b4db19092a6c728cc7551d5e133a8f8d53bdbcint,
        0x6b5ef447ad89bf1050ce394f7fc7f06c1b44b191fce55dbf37341b4c6b20eed5int,
        0x9c783e8305b22b1b4528a08100db5bbf8db06dc676873cd909cabad176da293int,
        0x7b42f7321b1720a030ddad58dce5f204ca5fdfc2e97b2e74e9a9eaa031254eebint,
        0x2acdbd1c45fe95dd78e5639de0ddfc4cf3bb8107c300b0860fe93d96d39ca575int);
}

/// The next powers.
proof fn lemma_powers_4(x: int)
    requires
        fp::vanishes(curve::cubic(x)),
        power_is(x, 0x1ffffffint,
            0x7b42f7321b1720a030ddad58dce5f204ca5fdfc2e97b2e74e9a9eaa031254eebint,
            0x2acdbd1c45fe95dd78e5639de0ddfc4cf3bb8107c300b0860fe93d96d39ca575int,
            0x6b5ef447ad89bf1050ce394f7fc7f06c1b44b191fce55dbf37341b4c6b20eed5int),
    ensures
        power_is(x, 0x1fffffffeint,
            0x37859504e1abe59bb9f9cd46a910f082bbd82b6cad26c229746b5ccaa358b71aint,
            0x1b13983db4d0a1aa50818e312945bc74a32decaeb1fa95ab733c5191c2438731int,
            0x3bf085fc1c496cccb856ca18dfed65d359d41f9ebf34b9635fe2b448383c20aaint),
{
    lemma_double_add(x, 0x1ffffffint,
        0x7b42f7321b1720a030ddad58dce5f204ca5fdfc2e97b2e74e9a9eaa031254eebint,
        0x2acdbd1c45fe95dd78e5639de0ddfc4cf3bb8107c300b0860fe93d96d39ca575int,
        0x6b5ef447ad89bf1050ce394f7fc7f06c1b44b191fce55dbf37341b4c6b20eed5int,
        0x753f47ca3a0b8e2bd06841db4c11c4c1e64140032ace261697845b83dfbe158int,
        0x8dae771a2ddbf224ce078c5f4e07b76152478ab24c904f63058a95af6f3d6f82int,
        0x45e49ce5c4221126474362c39734521dfeda44e08fd853f4a32997519e395670int,
        0x68f62a5bb7b19b59e355040de947fc47b6376f82f3518b0aa1fab40555d08bb4int,
        0xd901cb2df006ec5592d0ac687a5e12a61af2e2a1e235de3f52f50bad18a7e4a8int);
    lemma_double_add(x, 0x3ffffffint,
        0x68f62a5bb7b19b59e355040de947fc47b6376f82f3518b0aa1fab40555d08bb4int,
        0xd901cb2df006ec5592d0ac687a5e12a61af2e2a1e235de3f52f50bad18a7e4a8int,
        0x8dae771a2ddbf224ce078c5f4e07b76152478ab24c904f63058a95af6f3d6f82int,
        0xd4e542053828fcce6c2450d1384d2d5f96da2fb87e391fe46849d00631d82268int,
        0x435d6cadb1ad5455ff09acaa88cb6db491f2f3822e9c548c8d1a250c12b429cint,
        0x97f983f79211dcb638afba2fad8133968d39a67e18581098ad0944b5125b8db0int,
        0xf2832abd79307cb19b57b9572e8afce113eeba948939bba6052fc0ddb2f9b622int,
        0x9cd1cdedee5e92ef16337f6040d0c8233e872330c74151ae6f659e2568eacb7aint);
    lemma_double_add(x, 0x7ffffffint,
        0xf2832abd79307cb19b57b9572e8afce113eeba948939bba6052fc0ddb2f9b622int,
        0x9cd1cdedee5e92ef16337f6040d0c8233e872330c74151ae6f659e2568eacb7aint,
        0x435d6cadb1ad5455ff09acaa88cb6db491f2f3822e9c548c8d1a250c12b429cint,
        0x362e5669f13b61cb076ccee1c2e311080ab2a9b6fec53d304c5a3364934f8969int,
        0x50f06013621fbf39333d3899bec12b88149cd432df7ef783eb539f5b9b8f3069int,
        0x49938795232b6476da0340f7a267093fed6d124561a616394e3168e60f93ef96int,
        0xc80bb64e3d12c77048054e1f8d5974674ce5fdc1a06bb78a7c7eed9af8d451c7int,
        0x12e8ed2a5abd8f2e957691c8aa182cc7d2f9e08623b77fdc36ee6e16c20b582cint);
    lemma_double_add(x, 0xfffffffint,
        0xc80bb64e3d12c77048054e1f8d5974674ce5fdc1a06bb78a7c7eed9af8d451c7int,
        0x12e8ed2a5abd8f2e957691c8aa182cc7d2f9e08623b77fdc36ee6e16c20b582cint,
        0x50f06013621fbf39333d3899bec12b88149cd432df7ef783eb539f5b9b8f3069int,
        0xd59bd81b64e29a6a60586ed512eb90f1c3a3a0fd52c876ec81837d533fb0ffa6int,
        0x5ae8b4b43cd98e8c85604c3e8faa0519b2742321a2a74d1add03723c332671bbint,
        0x9da11e791f60409096101a6ea8818b746979931d184bb247a341157bd512f8c7int,
        0x5fb5192f2389d95e26116544231da8ae1de4e64e59fe416b6e144f1938bfc607int,
        0xae7f3388c3035c1a2288be210c70334f00105a529bab8dc36b46bdc6bee9e9fdint);
    lemma_double_add(x, 0x1fffffffint,
        0x5fb5192f2389d95e26116544231da8ae1de4e64e59fe416b6e144f1938bfc607int,
        0xae7f3388c3035c1a2288be210c70334f00105a529bab8dc36b46bdc6bee9e9fdint,
        0x5ae8b4b43cd98e8c85604c3e8faa0519b2742321a2a74d1add03723c332671bbint,
        0x17380eea5c2890ce8ccd57d1541a05288092915067c7338b52d36769c98b38dbint,
        0xaf4c87594fd340d31e6d4217f4202fffc92afe80cfdd1beaa04c47b9f86b8c5bint,
        0x2ec05106d0dd722a887e02bba733ec339adfe9dbd0960b04b8b309d68f095beeint,
        0x66cb97b810eee790891093710fd02fd292fd9900bdac2d1e8e564ec004ab91b7int,
        0xa37901fecec0e74e2647600449b5c9c351324ee3d98954997cec84ed76a74ca5int);
    lemma_double_add(x, 0x3fffffffint,
        0x66cb97b810eee790891093710fd02fd292fd9900bdac2d1e8e564ec004ab91b7int,
        0xa37901fecec0e74e2647600449b5c9c351324ee3d98954997cec84ed76a74ca5int,
        0xaf4c87594fd340d31e6d4217f4202fffc92afe80cfdd1beaa04c47b9f86b8c5bint,
        0xe4baaadbea805ab6fdf90324941b9ed1572a38e23627ea55e4211bde161d7b80int,
        0x4dc1f40a4618bd7178458add6158745c22e1a0f5e209b469b318692c4e4581a0int,
        0x60acedd02acf2f67c42fb77d2d333a6596625210ccfc699bbbab765f4da5e955int,
        0xd1755f8abe332c1e4d3acb3d695bb2ebfbb37d438e446b839fa03e281b9f3b0bint,
        0x6c1744e6aede8ec4a88299c1bb54e021a512f129d1d272917237efbff0f3781int);
    lemma_double_add(x, 0x7fffffffint,
        0xd1755f8abe332c1e4d3acb3d695bb2ebfbb37d438e446b839fa03e281b9f3b0bint,
        0x6c1744e6aede8ec4a88299c1bb54e021a512f129d1d272917237efbff0f3781int,
        0x4dc1f40a4618bd7178458add6158745c22e1a0f5e209b469b318692c4e4581a0int,
        0xc738fb335dcae68587dcbace87a6b2f39e7eb74434932dbc4cf652203f4cb8f9int,
        0x23d6d925b4f18fa79f2b41525e959a932095d69658648eeb1a8a534069afd67cint,
        0xdb0d777617177027060ed52f47cfaa15dcd95a1d033baa59f860b3a9d19287bdint,
        0x99559e5f50d2affe9333d7a14717f0f96164e6bbbb1878e3d47e3f6e44e87e7eint,
        0x58616198a31136f79a093a5c5f15b135350ac5983e462cca36186d1db4045033int);
    lemma_double(x, 0xffffffffint,
        0x99559e5f50d2affe9333d7a14717f0f96164e6bbbb1878e3d47e3f6e44e87e7eint,
        0x58616198a31136f79a093a5c5f15b135350ac5983e462cca36186d1db4045033int,
        0x23d6d925b4f18fa79f2b41525e959a932095d69658648eeb1a8a534069afd67cint,
        0x37859504e1abe59bb9f9cd46a910f082bbd82b6cad26c229746b5ccaa358b71aint,
        0x1b13983db4d0a1aa50818e312945bc74a32decaeb1fa95ab733c5191c2438731int,
        0x3bf085fc1c496cccb856ca18dfed65d359d41f9ebf34b9635fe2b448383c20aaint);
}

/// The next powers.
proof fn lemma_powers_5(x: int)
    requires
        fp::vanishes(curve::cubic(x)),
        power_is(x, 0x1fffffffeint,
            0x37859504e1abe59bb9f9cd46a910f082bbd82b6cad26c229746b5ccaa358b71aint,
            0x1b13983db4d0a1aa50818e312945bc74a32decaeb1fa95ab733c5191c2438731int,
            0x3bf085fc1c496cccb856ca18dfed65d359d41f9ebf34b9635fe2b448383c20aaint),
    ensures
        power_is(x, 0x1fffffffe00int,
            0xf3974bc473d47ba426d3079b50d478a9a7f3ddd5f4239daeeca459519980dcfaint,
            0x804755a6d9ba1dd1970d618d183026afc87d789df8761d5d56cfac394da14913int,
            0x81ddab19198952f6e7e9c90b7d2a5b26803f74cf5fe7054b5d6115097effe0d2int),
{
    lemma_double(x, 0x1fffffffeint,
        0x37859504e1abe59bb9f9cd46a910f082bbd82b6cad26c229746b5ccaa358b71aint,
        0x1b13983db4d0a1aa50818e312945bc74a32decaeb1fa95ab733c5191c2438731int,
        0x3bf085fc1c496cccb856ca18dfed65d359d41f9ebf34b9635fe2b448383c20aaint,
        0x5099a60564a2938cb9ff13f61cdcb2fe09fe7bd58826058fe0a94469fcd19efaint,
        0x6c7c55e8e1c10050017f2de4a708bd3884c444be9a41025a2626ffe689cd15d5int,
        0xa429d3c5d36bd1e09bc764d3bde8aac5eeaeb1c593d2d01f5cd7955859e1e6baint);
    lemma_double(x, 0x3fffffffcint,
        0x5099a60564a2938cb9ff13f61cdcb2fe09fe7bd58826058fe0a94469fcd19efaint,
        0x6c7c55e8e1c10050017f2de4a708bd3884c444be9a41025a2626ffe689cd15d5int,
        0xa429d3c5d36bd1e09bc764d3bde8aac5eeaeb1c593d2d01f5cd7955859e1e6baint,
        0xf4be4f4ae0b573e340028e71ed8682f7ef4e2717857f9153c1663b6600a58e51int,
        0x1c0e3015bbe3025af41882a622a58fdd81e3b47961609b42c133ad3bc7c87effint,
        0x53c3b3872686532f994c9e48b6fc6d8164ac3564153521aa255023cc35434243int);
    lemma_double(x, 0x7fffffff8int,
        0xf4be4f4ae0b573e340028e71ed8682f7ef4e2717857f9153c1663b6600a58e51int,
        0x1c0e3015bbe3025af41882a622a58fdd81e3b47961609b42c133ad3bc7c87effint,
        0x53c3b3872686532f994c9e48b6fc6d8164ac3564153521aa255023cc35434243int,
        0xcd78d50d8e6c818e1bb9db44aefdca37b73a139869f4a3e1dbe7946134d1a308int,
        0xf9a5cc6170d9d564cc15a0b14baecb49eda8998051d85afa129682c0df2a511dint,
        0xeecb169de5459bbfefd07e4768e00ef4f3dc0d36576581e5961c124f4c27a15fint);
    lemma_double(x, 0xffffffff0int,
        0xcd78d50d8e6c818e1bb9db44aefdca37b73a139869f4a3e1dbe7946134d1a308int,
        0xf9a5cc6170d9d564cc15a0b14baecb49eda8998051d85afa129682c0df2a511dint,
        0xeecb169de5459bbfefd07e4768e00ef4f3dc0d36576581e5961c124f4c27a15fint,
        0xc0207c2965c8c938499c4a6658b282d0e75f1323abb29449e8a886106e1298cbint,
        0xd329ad8af36f04ad058d759d7b8452d3819f3231073c1a2bf321a5e8925eea5dint,
        0xca46f6294253f1b55c80992919034d572fd78f19df4ad7dfd87d64479e6edc31int);
    lemma_double(x, 0x1fffffffe0int,
        0xc0207c2965c8c938499c4a6658b282d0e75f1323abb29449e8a886106e1298cbint,
        0xd329ad8af36f04ad058d759d7b8452d3819f3231073c1a2bf321a5e8925eea5dint,
        0xca46f6294253f1b55c80992919034d572fd78f19df4ad7dfd87d64479e6edc31int,
        0x3c75b334792a11f76371c58e36ba4d701fec40658d6b2c7b321d1e0eb4cb1922int,
        0x3a66b2d9206f4fc0e7de72b2186aa22f356d66724d53056e59d7a43d3b952899int,
        0x84d586616f1d7b14dcf832c706de0c6a39d5cf036b23342ff01beebeede860ceint);
    lemma_double(x, 0x3fffffffc0int,
        0x3c75b334792a11f76371c58e36ba4d701fec40658d6b2c7b321d1e0eb4cb1922int,
        0x3a66b2d9206f4fc0e7de72b2186aa22f356d66724d53056e59d7a43d3b952899int,
        0x84d586616f1d7b14dcf832c706de0c6a39d5cf036b23342ff01beebeede860ceint,
        0xb8ad20d6e3bc5038be7ccafdbab6280f56cf31099c5ee6f497b40683994be5f0int,
        0x659884fc9c7214748b832df65b9b93cf328deecb159e72309ecabf2e9eafe271int,
        0x4c46daac71b03d6bbf18585b935a55b9e5d7f7945a85b57dac62544adc167b61int);
    lemma_double(x, 0x7fffffff80int,
        0xb8ad20d6e3bc5038be7ccafdbab6280f56cf31099c5ee6f497b40683994be5f0int,
        0x659884fc9c7214748b832df65b9b93cf328deecb159e72309ecabf2e9eafe271int,
        0x4c46daac71b03d6bbf18585b935a55b9e5d7f7945a85b57dac62544adc167b61int,
        0xfb4e04c62be27a00ed6fcd1bcd86c4f08d0bb88106f1ff16f1ac255dbd5d614fint,
        0x7c14d0db949d63f65151a336644d89205cc0658595f33e747a6cba9fb9d9674aint,
        0x139453e6bb868c2047a9c66b6816ef217956f0a555d54aee82b5d82b0cd4c679int);
    lemma_double(x, 0xffffffff00int,
        0xfb4e04c62be27a00ed6fcd1bcd86c4f08d0bb88106f1ff16f1ac255dbd5d614fint,
        0x7c14d0db949d63f65151a336644d89205cc0658595f33e747a6cba9fb9d9674aint,
        0x139453e6bb868c2047a9c66b6816ef217956f0a555d54aee82b5d82b0cd4c679int,
        0xf3974bc473d47ba426d3079b50d478a9a7f3ddd5f4239daeeca459519980dcfaint,
        0x804755a6d9ba1dd1970d618d183026afc87d789df8761d5d56cfac394da14913int,
        0x81ddab19198952f6e7e9c90b7d2a5b26803f74cf5fe7054b5d6115097effe0d2int);
}

/// The next powers.
proof fn lemma_powers_6(x: int)
    requires
        fp::vanishes(curve::cubic(x)),
        power_is(x, 0x1fffffffe00int,
            0xf3974bc473d47ba426d3079b50d478a9a7f3ddd5f4239daeeca459519980dcfaint,
            0x804755a6d9ba1dd1970d618d183026afc87d789df8761d5d56cfac394da14913int,
            0x81ddab19198952f6e7e9c90b7d2a5b26803f74cf5fe7054b5d6115097effe0d2int),
    ensures
        power_is(x, 0x1fffffffe0000int,
            0x19014ac6c7eb3a198f1a95c5300328145ee9351986e33d8e4a6651a771a6b930int,
            0x65708ed7e327048d0ffaf0154c2f017f56c3388d2a36cadf0573c668850e67e8int,
            0xcbb7286d5f94cdc144c4695c3d3ec1f1f4ee96d55baf63e943690e3d412799b6int),
{
    lemma_double(x, 0x1fffffffe00int,
        0xf3974bc473d47ba426d3079b50d478a9a7f3ddd5f4239daeeca459519980dcfaint,
        0x804755a6d9ba1dd1970d618d183026afc87d789df8761d5d56cfac394da14913int,
        0x81ddab19198952f6e7e9c90b7d2a5b26803f74cf5fe7054b5d6115097effe0d2int,
        0x997206c68fd256500b4ea5b1cf559cb80bae42370f6c8ec1a126bc581d16283cint,
        0xf8bda9d1938a66554fbfee29975080be8156e4b905aa53992695f4afcce67f62int,
        0x97c65747b3cd314620d1a2da095fe9f0566fa2f953a2fad34601b870d038d0b6int);
    lemma_double(x, 0x3fffffffc00int,
        0x997206c68fd256500b4ea5b1cf559cb80bae42370f6c8ec1a126bc581d16283cint,
        0xf8bda9d1938a66554fbfee29975080be8156e4b905aa53992695f4afcce67f62int,
        0x97c65747b3cd314620d1a2da095fe9f0566fa2f953a2fad34601b870d038d0b6int,
        0x402314c0a51d6907ae67b9c94ea6289788f47f547d3bc8617e46391f8f549dfdint,
        0xadeabf1c9ffec06c540373518dfe6cc158217fff13b1bbd32935d97950d10ba2int,
        0x5bc3ca9879c00fd347c29dc4d2a7be4fb10906a4e9381547f598f08630419ca3int);
    lemma_double(x, 0x7fffffff800int,
        0x402314c0a51d6907ae67b9c94ea6289788f47f547d3bc8617e46391f8f549dfdint,
        0xadeabf1c9ffec06c540373518dfe6cc158217fff13b1bbd32935d97950d10ba2int,
        0x5bc3ca9879c00fd347c29dc4d2a7be4fb10906a4e9381547f598f08630419ca3int,
        0x997392dc25a56d042b29fd4cb072f57f70143c0f13657bb299fab667b5f3cf14int,
        0xdcfd1cc8f9e0873d2a153cadea73026d8af6a8f855fb9956116696a9dba5b2e5int,
        0x6b0bf2a013898c7cab079530e11be45dc7e6f909aebe39d14647939b60172ad9int);
    lemma_double(x, 0xffffffff000int,
        0x997392dc25a56d042b29fd4cb072f57f70143c0f13657bb299fab667b5f3cf14int,
        0xdcfd1cc8f9e0873d2a153cadea73026d8af6a8f855fb9956116696a9dba5b2e5int,
        0x6b0bf2a013898c7cab079530e11be45dc7e6f909aebe39d14647939b60172ad9int,
        0x1ef0b3efd0ccc3ccd0aa88e9f8cdd4b3d134a21caa7704a46f67976dab52e5bint,
        0x4a5a28e82b2b0860deb4d7e52f7c870f28a859864dd645076096b00dfd71d8b8int,
        0x947e924a89c36f04ce6ff02950a96f8da27a867985b3f31e7e14c72c28b86091int);
    lemma_double(x, 0x1fffffffe000int,
        0x1ef0b3efd0ccc3ccd0aa88e9f8cdd4b3d134a21caa7704a46f67976dab52e5bint,
        0x4a5a28e82b2b0860deb4d7e52f7c870f28a859864dd645076096b00dfd71d8b8int,
        0x947e924a89c36f04ce6ff02950a96f8da27a867985b3f31e7e14c72c28b86091int,
        0xc9fcba4ac531c80f60a2b4792f294c4551d95ce6b6fd11d09a441c72f98a05c8int,
        0xa25134b52ae5ea10b0aabfdfc2828f1177eb9718d9a57e0105628bc0d12047a1int,
        0x9f5a49603d0ffd70c8f9cc677d1eda15d7372b946bb27fdcddf2a153b8a54589int);
    lemma_double(x, 0x3fffffffc000int,
        0xc9fcba4ac531c80f60a2b4792f294c4551d95ce6b6fd11d09a441c72f98a05c8int,
        0xa25134b52ae5ea10b0aabfdfc2828f1177eb9718d9a57e0105628bc0d12047a1int,
        0x9f5a49603d0ffd70c8f9cc677d1eda15d7372b946bb27fdcddf2a153b8a54589int,
        0xe8d4e00e8f594a23f3e39bf1c652ef10089d3b55509b26c8364a7f98e0b560a8int,
        0x209de761a26035cd483715c1ef316ed791e77f475a676b379ef38b552bcd8ee3int,
        0xb9d0fb7b1bd78bb9c645f5404bd7b244435d3c927af4e4dc358e98ee88bf2580int);
    lemma_double(x, 0x7fffffff8000int,
        0xe8d4e00e8f594a23f3e39bf1c652ef10089d3b55509b26c8364a7f98e0b560a8int,
        0x209de761a26035cd483715c1ef316ed791e77f475a676b379ef38b552bcd8ee3int,
        0xb9d0fb7b1bd78bb9c645f5404bd7b244435d3c927af4e4dc358e98ee88bf2580int,
        0x8c649abeeabf798414b19b3caa6b110f2549c3fa7fc3a0456059ab4ac9f8ae0eint,
        0xe0babd724fe7dd76871201d7751294696c76581e120df5f62adbd061c3f721a5int,
        0x4ef64184602b6c2f7e967e167f56c599865d6ab96ca86f9a440de8202f738fb4int);
    lemma_double(x, 0xffffffff0000int,
        0x8c649abeeabf798414b19b3caa6b110f2549c3fa7fc3a0456059ab4ac9f8ae0eint,
        0xe0babd724fe7dd76871201d7751294696c76581e120df5f62adbd061c3f721a5int,
        0x4ef64184602b6c2f7e967e167f56c599865d6ab96ca86f9a440de8202f738fb4int,
        0x19014ac6c7eb3a198f1a95c5300328145ee9351986e33d8e4a6651a771a6b930int,
        0x65708ed7e327048d0ffaf0154c2f017f56c3388d2a36cadf0573c668850e67e8int,
        0xcbb7286d5f94cdc144c4695c3d3ec1f1f4ee96d55baf63e943690e3d412799b6int);
}

/// The next powers.
proof fn lemma_powers_7(x: int)
    requires
        fp::vanishes(curve::cubic(x)),
        power_is(x, 0x1fffffffe0000int,
            0x19014ac6c7eb3a198f1a95c5300328145ee9351986e33d8e4a6651a771a6b930int,
            0x65708ed7e327048d0ffaf0154c2f017f56c3388d2a36cadf0573c668850e67e8int,
            0xcbb7286d5f94cdc144c4695c3d3ec1f1f4ee96d55baf63e943690e3d412799b6int),
    ensures
        power_is(x, 0x1fffffffe000000int,
            0x77cd11561431fa1a95aed64ddb4b348ef0a3168d739397680f4fe9064e698306int,
            0xf034d791054e7287c7a197182d41e187e8656ee266094a17e3f08f56b5352f03int,
            0x38cb57505f4ceb3e6f8d15a8ad7021efce7e5670b653eb5cf85a3221f72cb961int),
{
    lemma_double(x, 0x1fffffffe0000int,
        0x19014ac6c7eb3a198f1a95c5300328145ee9351986e33d8e4a6651a771a6b930int,
        0x65708ed7e327048d0ffaf0154c2f017f56c3388d2a36cadf0573c668850e67e8int,
        0xcbb7286d5f94cdc144c4695c3d3ec1f1f4ee96d55baf63e943690e3d412799b6int,
        0x5c124e3e1202e42f15f686c16411c506362e25f8e57dcd51a5c8bb1c7183a61dint,
        0x3524aea339d79a1dbe3991d90d3f70c540bb5e221ed0b5e05f47b751c5d493f1int,
        0xf6599d31e6a641c32bc2d9ab2a1c7b1e9f88547e9ecb503da5e087c75d25d806int);
    lemma_double(x, 0x3fffffffc0000int,
        0x5c124e3e1202e42f15f686c16411c506362e25f8e57dcd51a5c8bb1c7183a61dint,
        0x3524aea339d79a1dbe3991d90d3f70c540bb5e221ed0b5e05f47b751c5d493f1int,
        0xf6599d31e6a641c32bc2d9ab2a1c7b1e9f88547e9ecb503da5e087c75d25d806int,
        0xcab3e197744d4e9851e39670f5b9a2dc48c10b16d087ee0c866f162f4c867be5int,
        0xb393106a0144d808f183de385294993a4b3215e5cb887469f8ebc07eba3f4490int,
        0x71a6d80aefbeca62fd001b0c49b09129e1b71677f881e5952d2162b739ad99d8int);
    lemma_double(x, 0x7fffffff80000int,
        0xcab3e197744d4e9851e39670f5b9a2dc48c10b16d087ee0c866f162f4c867be5int,
        0xb393106a0144d808f183de385294993a4b3215e5cb887469f8ebc07eba3f4490int,
        0x71a6d80aefbeca62fd001b0c49b09129e1b71677f881e5952d2162b739ad99d8int,
        0x13f121ca9196ea322d32c7c877c67a8db038cff66632b79c66af7f1a3eeadcfcint,
        0xbde0bba5583bd54524f3cd91e53bce1c0581d7b93fc7276859edd63b96fb280fint,
        0x48001e8ad1de9ff3c2911ffb6c4e9afe8f6805caa9aa09a05e688f37bfb53ab0int);
    lemma_double(x, 0xffffffff00000int,
        0x13f121ca9196ea322d32c7c877c67a8db038cff66632b79c66af7f1a3eeadcfcint,
        0xbde0bba5583bd54524f3cd91e53bce1c0581d7b93fc7276859edd63b96fb280fint,
        0x48001e8ad1de9ff3c2911ffb6c4e9afe8f6805caa9aa09a05e688f37bfb53ab0int,
        0xc63f1998e04bdc45ff94d457c9666595e7e7d681a194c476403157762bcfea56int,
        0xbe87ead92dc99aee94d605540870bb7ed0884c4e44d8ef16f7bcd8feb11598dcint,
        0x8b7fbce3604a1b59291557ae153d7ccbf5e80c2fb5dfe538d9adc2694c574b60int);
    lemma_double(x, 0x1fffffffe00000int,
        0xc63f1998e04bdc45ff94d457c9666595e7e7d681a194c476403157762bcfea56int,
        0xbe87ead92dc99aee94d605540870bb7ed0884c4e44d8ef16f7bcd8feb11598dcint,
        0x8b7fbce3604a1b59291557ae153d7ccbf5e80c2fb5dfe538d9adc2694c574b60int,
        0x977e5c68402242b2980e5d73662377eaf4af7b42ca1f11fa8e954722f5ac4978int,
        0xf0db39d2332abfa8a93f75099b892c9aedd3287c274a86840b9ae84dd2b32adint,
        0x127ff2593bdf97d74b1c9ee08ccfb12767788d763c8268738ba7713854bd649eint);
    lemma_double(x, 0x3fffffffc00000int,
        0x977e5c68402242b2980e5d73662377eaf4af7b42ca1f11fa8e954722f5ac4978int,
        0xf0db39d2332abfa8a93f75099b892c9aedd3287c274a86840b9ae84dd2b32adint,
        0x127ff2593bdf97d74b1c9ee08ccfb12767788d763c8268738ba7713854bd649eint,
        0x67e30d5912de7ab13e02102f1f2e2542eaa3059b7fc644a63d59685490300f7int,
        0xe932eaddfa0368ecf0a4b2db151311a0e3143e5e6df1542f590cdfa7f6b3758eint,
        0xaad9f5ef5eb72120dbe1d5425ed8e20f538673f4526c05ee3e23de3745c29a41int);
    lemma_double(x, 0x7fffffff800000int,
        0x67e30d5912de7ab13e02102f1f2e2542eaa3059b7fc644a63d59685490300f7int,
        0xe932eaddfa0368ecf0a4b2db151311a0e3143e5e6df1542f590cdfa7f6b3758eint,
        0xaad9f5ef5eb72120dbe1d5425ed8e20f538673f4526c05ee3e23de3745c29a41int,
        0xb0ea91ad1d7e22513e3eaae6109fb9699856c1a26b7b52c7721e18f43ef9593eint,
        0xa044e329de82fb9aa9e150c0e2e77e611d60f668d038240e29bf70d2d66a7f12int,
        0xc82eabd5512b4f6d54b0023369d20e37025f13a28e582aa4557336cbce7244adint);
    lemma_double(x, 0xffffffff000000int,
        0xb0ea91ad1d7e22513e3eaae6109fb9699856c1a26b7b52c7721e18f43ef9593eint,
        0xa044e329de82fb9aa9e150c0e2e77e611d60f668d038240e29bf70d2d66a7f12int,
        0xc82eabd5512b4f6d54b0023369d20e37025f13a28e582aa4557336cbce7244adint,
        0x77cd11561431fa1a95aed64ddb4b348ef0a3168d739397680f4fe9064e698306int,
        0xf034d791054e7287c7a197182d41e187e8656ee266094a17e3f08f56b5352f03int,
        0x38cb57505f4ceb3e6f8d15a8ad7021efce7e5670b653eb5cf85a3221f72cb961int);
}

/// The next powers.
proof fn lemma_powers_8(x: int)
    requires
        fp::vanishes(curve::cubic(x)),
        power_is(x, 0x1fffffffe000000int,
            0x77cd11561431fa1a95aed64ddb4b348ef0a3168d739397680f4fe9064e698306int,
            0xf034d791054e7287c7a197182d41e187e8656ee266094a17e3f08f56b5352f03int,
            0x38cb57505f4ceb3e6f8d15a8ad7021efce7e5670b653eb5cf85a3221f72cb961int),
    ensures
        power_is(x, 0x1fffffffe00000002int,
            0xb3e7608dc5edeab50ed3caeb73c75c57eba67f976d2c233243f4dffcd006951fint,
            0xdf1834c0037f70ea76838d45c6895498f5922b13b2cb82c4668185636489696cint,
            0xd425d5f39f8410b7099eb246933f848ce4313e552ea1ac96f39c6d207c1780daint),
{
    lemma_double(x, 0x1fffffffe000000int,
        0x77cd11561431fa1a95aed64ddb4b348ef0a3168d739397680f4fe9064e698306int,
        0xf034d791054e7287c7a197182d41e187e8656ee266094a17e3f08f56b5352f03int,
        0x38cb57505f4ceb3e6f8d15a8ad7021efce7e5670b653eb5cf85a3221f72cb961int,
        0xaa1ba8e6aad7bcd7434ddd336ca6039407793a3d4367d76f5327abc1ccf63de2int,
        0xd108853c1decbd239f7adf0737c95f290e466b7f318502933eac98987314576int,
        0xa5201bd90b9eaa235d274bfec6f418afe1d479fe2e6c07126b88787cc4bf6f01int);
    lemma_double(x, 0x3fffffffc000000int,
        0xaa1ba8e6aad7bcd7434ddd336ca6039407793a3d4367d76f5327abc1ccf63de2int,
        0xd108853c1decbd239f7adf0737c95f290e466b7f318502933eac98987314576int,
        0xa5201bd90b9eaa235d274bfec6f418afe1d479fe2e6c07126b88787cc4bf6f01int,
        0x28a7c7f331735f04a2da4ebce9bc4fd00e52841ead99f391a54f013c89438c5cint,
        0xaed003ac1dcdcadd514a9de9f2924344113834b136364c4497859c89c265fc01int,
        0x66ed63f68ccc2d374f8882a9361f3f3b99c4578bfc1d6527fe59f4e12fe0b832int);
    lemma_double(x, 0x7fffffff8000000int,
        0x28a7c7f331735f04a2da4ebce9bc4fd00e52841ead99f391a54f013c89438c5cint,
        0xaed003ac1dcdcadd514a9de9f2924344113834b136364c4497859c89c265fc01int,
        0x66ed63f68ccc2d374f8882a9361f3f3b99c4578bfc1d6527fe59f4e12fe0b832int,
        0x92deac40747facc95daca0f620ab27d7f27056070f9a33827edaaa33c830d689int,
        0xc41c2b7d635808ed46aa4e2028bc64df8b3d460689974b0e9a77033942fcaca9int,
        0x81fd872c5a3855b1b1e02aa2455057451a1163bbd598185649f81c9b370b2cfeint);
    lemma_double(x, 0xffffffff0000000int,
        0x92deac40747facc95daca0f620ab27d7f27056070f9a33827edaaa33c830d689int,
        0xc41c2b7d635808ed46aa4e2028bc64df8b3d460689974b0e9a77033942fcaca9int,
        0x81fd872c5a3855b1b1e02aa2455057451a1163bbd598185649f81c9b370b2cfeint,
        0x8cfe8eee18bd8fd1825deed9848313c4e1ded0523b7ed84e01a89b177a4459cint,
        0x4cde0685bcdc2c551d6aab43109df7df7793ca34a52d252ac414f88cc200b4eeint,
        0x47151361b480612b7e5ef616399e015bd7e3efce015d48fbe4a4e14a071038d1int);
    lemma_double(x, 0x1fffffffe0000000int,
        0x8cfe8eee18bd8fd1825deed9848313c4e1ded0523b7ed84e01a89b177a4459cint,
        0x4cde0685bcdc2c551d6aab43109df7df7793ca34a52d252ac414f88cc200b4eeint,
        0x47151361b480612b7e5ef616399e015bd7e3efce015d48fbe4a4e14a071038d1int,
        0xd0e1629aba3a86e8ca0e42c49655689a0057323f0731bdb0207d7fb5a87ec095int,
        0x423de1fcc5cf879c5427181c4710e7cec4f14e34faf68992820e8fc43fb01144int,
        0x9e2bd9d2b3ecb509d8d44d750e6384ac76244601e3956e4b20589d0cd214c530int);
    lemma_double(x, 0x3fffffffc0000000int,
        0xd0e1629aba3a86e8ca0e42c49655689a0057323f0731bdb0207d7fb5a87ec095int,
        0x423de1fcc5cf879c5427181c4710e7cec4f14e34faf68992820e8fc43fb01144int,
        0x9e2bd9d2b3ecb509d8d44d750e6384ac76244601e3956e4b20589d0cd214c530int,
        0xdcc1530079c2406d9b333a7387cd80848b69916a9ea8f222933a8bf6d5e478cdint,
        0x6532545341be99ff92b86f619e7c024685af0c70209882231973f6bb2c85fafaint,
        0xa1413555ca16434eac5062bd566ebebc188b7e0b252d68a2648ba593394bcc2bint);
    lemma_double_add(x, 0x7fffffff80000000int,
        0xdcc1530079c2406d9b333a7387cd80848b69916a9ea8f222933a8bf6d5e478cdint,
        0x6532545341be99ff92b86f619e7c024685af0c70209882231973f6bb2c85fafaint,
        0xa1413555ca16434eac5062bd566ebebc188b7e0b252d68a2648ba593394bcc2bint,
        0x85991ad5997fc291790851dfb864173e005b3eb4068ba755f931c245f230f63cint,
        0x4492c3182a701fd3e48bf6bbc8387569e8e90468fc56ce6f3342c22de762f035int,
        0xb6d725b814a00ff19044160e3e8e6a4dbe5dde9b337907f968a87e50f064f598int,
        0xce805686656e4393699f7782823a2058f3332d7d2843d8a7f291bd9a27cffceeint,
        0xaa1e8bffd75ff26429d4940a740f56273b74da83a0f6bf42332b3d38c35fd706int);
    lemma_double(x, 0xffffffff00000001int,
        0xce805686656e4393699f7782823a2058f3332d7d2843d8a7f291bd9a27cffceeint,
        0xaa1e8bffd75ff26429d4940a740f56273b74da83a0f6bf42332b3d38c35fd706int,
        0x4492c3182a701fd3e48bf6bbc8387569e8e90468fc56ce6f3342c22de762f035int,
        0xb3e7608dc5edeab50ed3caeb73c75c57eba67f976d2c233243f4dffcd006951fint,
        0xdf1834c0037f70ea76838d45c6895498f5922b13b2cb82c4668185636489696cint,
        0xd425d5f39f8410b7099eb246933f848ce4313e552ea1ac96f39c6d207c1780daint);
}

/// The next powers.
proof fn lemma_powers_9(x: int)
    requires
        fp::vanishes(curve::cubic(x)),
        power_is(x, 0x1fffffffe00000002int,
            0xb3e7608dc5edeab50ed3caeb73c75c57eba67f976d2c233243f4dffcd006951fint,
            0xdf1834c0037f70ea76838d45c6895498f5922b13b2cb82c4668185636489696cint,
            0xd425d5f39f8410b7099eb246933f848ce4313e552ea1ac96f39c6d207c1780daint),
    ensures
        power_is(x, 0x1fffffffe0000000200int,
            0x3425f2288aee2a6ce85e4c671e90fe666446bffdb930e511826faf4a7e2158b1int,
            0x2a50e8b1a6d8fef827dfaf468cac1e8a7eaf95f4c6dcf8c9b12b1c0feabc9f3dint,
            0xc417c8c93aee4916cfe6c8fed3d70a24cdf3bdb9a78f84613d200107175e6c41int),
{
    lemma_double(x, 0x1fffffffe00000002int,
        0xb3e7608dc5edeab50ed3caeb73c75c57eba67f976d2c233243f4dffcd006951fint,
        0xdf1834c0037f70ea76838d45c6895498f5922b13b2cb82c4668185636489696cint,
        0xd425d5f39f8410b7099eb246933f848ce4313e552ea1ac96f39c6d207c1780daint,
        0xab2b029e0ea20cc5010f19ad209944e0b0c0b1a2d162497224fc317a93edc710int,
        0x677b64db27b235caa85b53f7814284f5e550767b4f697d770fe0da89874cb22eint,
        0x2fd6084f9970344a4bc9d7f902f052ae08cb388573534dbe94be383ba0c81c33int);
    lemma_double(x, 0x3fffffffc00000004int,
        0xab2b029e0ea20cc5010f19ad209944e0b0c0b1a2d162497224fc317a93edc710int,
        0x677b64db27b235caa85b53f7814284f5e550767b4f697d770fe0da89874cb22eint,
        0x2fd6084f9970344a4bc9d7f902f052ae08cb388573534dbe94be383ba0c81c33int,
        0xd71262da644abd256e2331bfd88f45925dea78dc2dac8611a7a329de677c60b4int,
        0x5e186ffdae0e663df6729d89132f4c210704a9f8eb376482b251919194b3c66dint,
        0xa0633d79db08b8c82ebbfc63f86c95571b48be26a16c5c687ce35f67f584cb49int);
    lemma_double(x, 0x7fffffff800000008int,
        0xd71262da644abd256e2331bfd88f45925dea78dc2dac8611a7a329de677c60b4int,
        0x5e186ffdae0e663df6729d89132f4c210704a9f8eb376482b251919194b3c66dint,
        0xa0633d79db08b8c82ebbfc63f86c95571b48be26a16c5c687ce35f67f584cb49int,
        0x30798c8b4f084c2bb381aef9d025149b879b8ae93959fc7d81c2e04c3f7ee6a1int,
        0x9c47a24e3269e94083d53f4ead5b7175e563e6db2417bc7c9886d697948c0dddint,
        0x8abb4c879d91a0a940055d1b05966e9f15cff68e08ea8e1d7f3b43d534f5188aint);
    lemma_double(x, 0xffffffff000000010int,
        0x30798c8b4f084c2bb381aef9d025149b879b8ae93959fc7d81c2e04c3f7ee6a1int,
        0x9c47a24e3269e94083d53f4ead5b7175e563e6db2417bc7c9886d697948c0dddint,
        0x8abb4c879d91a0a940055d1b05966e9f15cff68e08ea8e1d7f3b43d534f5188aint,
        0x1f30b3d6e2b09e1caa5e4df6d731108bfb8c7e9201db89f681545df1b11a125bint,
        0x40da648cbb543df18e494259dd5651fdea7d37f5a5442870cb7d7f1f3c78612dint,
        0xfe04106c29222d7f5b5ae22b9838e38a91eb2f4eaa7080e01462e14f5aefcb46int);
    lemma_double(x, 0x1fffffffe000000020int,
        0x1f30b3d6e2b09e1caa5e4df6d731108bfb8c7e9201db89f681545df1b11a125bint,
        0x40da648cbb543df18e494259dd5651fdea7d37f5a5442870cb7d7f1f3c78612dint,
        0xfe04106c29222d7f5b5ae22b9838e38a91eb2f4eaa7080e01462e14f5aefcb46int,
        0x899980e0c555244fb35a1c9c93a568a154da033a26785210ea94a8005d76c22fint,
        0xe556051efd8e5911030d327ee0396997f88c8efe665fcc2df4da47d1bf298a0int,
        0x76f285d641478216c7703d0e5ce74bc6c7d05ac923ce8996fcdb6b724a804bb0int);
    lemma_double(x, 0x3fffffffc000000040int,
        0x899980e0c555244fb35a1c9c93a568a154da033a26785210ea94a8005d76c22fint,
        0xe556051efd8e5911030d327ee0396997f88c8efe665fcc2df4da47d1bf298a0int,
        0x76f285d641478216c7703d0e5ce74bc6c7d05ac923ce8996fcdb6b724a804bb0int,
        0xc8e05105048906f542c5951f9666444c7440f00927e04f51ac008ded07fa3ab5int,
        0xade851f39b779cecd4e0478224237674c5d701bd996d9bde168525665a513ce2int,
        0xe54af88896363768f183d558f39bf5889982e9b87770f4cebf0a41ee6772d44aint);
    lemma_double(x, 0x7fffffff8000000080int,
        0xc8e05105048906f542c5951f9666444c7440f00927e04f51ac008ded07fa3ab5int,
        0xade851f39b779cecd4e0478224237674c5d701bd996d9bde168525665a513ce2int,
        0xe54af88896363768f183d558f39bf5889982e9b87770f4cebf0a41ee6772d44aint,
        0x90fe8ae8cf10de78c876148f6bb9507cdd78cff6d45f5c8edd711e464c263005int,
        0x1984f0f5aceac9b82d27664093a6bfc53918912725d7241de7a32b6fd7f2f1feint,
        0xa1a630dbdafdc6b43bc066a52b064dd268aaa5237c364ee9e9ccf4310cdffd31int);
    lemma_double(x, 0xffffffff0000000100int,
        0x90fe8ae8cf10de78c876148f6bb9507cdd78cff6d45f5c8edd711e464c263005int,
        0x1984f0f5aceac9b82d27664093a6bfc53918912725d7241de7a32b6fd7f2f1feint,
        0xa1a630dbdafdc6b43bc066a52b064dd268aaa5237c364ee9e9ccf4310cdffd31int,
        0x3425f2288aee2a6ce85e4c671e90fe666446bffdb930e511826faf4a7e2158b1int,
        0x2a50e8b1a6d8fef827dfaf468cac1e8a7eaf95f4c6dcf8c9b12b1c0feabc9f3dint,
        0xc417c8c93aee4916cfe6c8fed3d70a24cdf3bdb9a78f84613d200107175e6c41int);
}

/// The next powers.
proof fn lemma_powers_10(x: int)
    requires
        fp::vanishes(curve::cubic(x)),
        power_is(x, 0x1fffffffe0000000200int,
            0x3425f2288aee2a6ce85e4c671e90fe666446bffdb930e511826faf4a7e2158b1int,
            0x2a50e8b1a6d8fef827dfaf468cac1e8a7eaf95f4c6dcf8c9b12b1c0feabc9f3dint,
            0xc417c8c93aee4916cfe6c8fed3d70a24cdf3bdb9a78f84613d200107175e6c41int),
    ensures
        power_is(x, 0x1fffffffe000000020000int,
            0x5b81957889b524a7f59413d340e5af1387c90489b7b72536533fb8d9c8745478int,
            0x6034e513e2cec39ec018521a4b00122af7a6f33038d1cb71fc977401f453ec3int,
            0x5c88de862374ffebbe68f2d70adabfb238a29fd070cde03785c809f082f097f4int),
{
    lemma_double(x, 0x1fffffffe0000000200int,
        0x3425f2288aee2a6ce85e4c671e90fe666446bffdb930e511826faf4a7e2158b1int,
        0x2a50e8b1a6d8fef827dfaf468cac1e8a7eaf95f4c6dcf8c9b12b1c0feabc9f3dint,
        0xc417c8c93aee4916cfe6c8fed3d70a24cdf3bdb9a78f84613d200107175e6c41int,
        0xff9e8d788e4f7353bbe9901dff88fcdc616d1e0f076831c56d8472d63efae149int,
        0xa184239662f571ba056d585186fcf8131c09ea68f2641f1ba5f3149003a42e3bint,
        0x8132c061e9856b45e431a95893fd7545a99563a06536c5aeb2c06dc7a3dfbe4bint);
    lemma_double(x, 0x3fffffffc0000000400int,
        0xff9e8d788e4f7353bbe9901dff88fcdc616d1e0f076831c56d8472d63efae149int,
        0xa184239662f571ba056d585186fcf8131c09ea68f2641f1ba5f3149003a42e3bint,
        0x8132c061e9856b45e431a95893fd7545a99563a06536c5aeb2c06dc7a3dfbe4bint,
        0x915d70db95c86ec349bbcb59e0a07888aaf9f618bb0905a1914f32fdfa879de9int,
        0xb225dd8340999c305567c27b22a374553d34baed2212f5917f9c1af441afa330int,
        0x70e2ba28c159421174e46a91fb8a161783434ad13996a9bfed71069f6cf49d3dint);
    lemma_double(x, 0x7fffffff80000000800int,
        0x915d70db95c86ec349bbcb59e0a07888aaf9f618bb0905a1914f32fdfa879de9int,
        0xb225dd8340999c305567c27b22a374553d34baed2212f5917f9c1af441afa330int,
        0x70e2ba28c159421174e46a91fb8a161783434ad13996a9bfed71069f6cf49d3dint,
        0xe6b5709f32675271324a2bae6bc38a88b59efc9cfb4837575fefd3f7ebb0c008int,
        0x797771b6717106ff8e0cc33d7945d22294b9aa5cc50102ea080c992f47597a2bint,
        0x7127040849fbbc895580109e330672f4bbf139532ca26971319eb6b22ef495efint);
    lemma_double(x, 0xffffffff00000001000int,
        0xe6b5709f32675271324a2bae6bc38a88b59efc9cfb4837575fefd3f7ebb0c008int,
        0x797771b6717106ff8e0cc33d7945d22294b9aa5cc50102ea080c992f47597a2bint,
        0x7127040849fbbc895580109e330672f4bbf139532ca26971319eb6b22ef495efint,
        0x80461aef9263b1e6978ca05d9d91db95001c3e19f74f5bd9cdeef6eab06eb882int,
        0x28b5cebf6c5e7fc1c49dfbf99e52456660726c661bfb658cca3c706711e8020cint,
        0xe5416294d1235a13e864875c5d6c959d9916ea720453f872815745732178ede7int);
    lemma_double(x, 0x1fffffffe00000002000int,
        0x80461aef9263b1e6978ca05d9d91db95001c3e19f74f5bd9cdeef6eab06eb882int,
        0x28b5cebf6c5e7fc1c49dfbf99e52456660726c661bfb658cca3c706711e8020cint,
        0xe5416294d1235a13e864875c5d6c959d9916ea720453f872815745732178ede7int,
        0xc0182e8d4d13c56febf4086a882b4e7057a41c65a3156eb8d21be4aad180b7caint,
        0x374b514001ea409e2d2492a28e47c7d1d420042ebb37c2c21fea586f49ece1c3int,
        0xd5219b4882c076e81ba462164e249c19122d282af33c33eb1f00439ee096db07int);
    lemma_double(x, 0x3fffffffc00000004000int,
        0xc0182e8d4d13c56febf4086a882b4e7057a41c65a3156eb8d21be4aad180b7caint,
        0x374b514001ea409e2d2492a28e47c7d1d420042ebb37c2c21fea586f49ece1c3int,
        0xd5219b4882c076e81ba462164e249c19122d282af33c33eb1f00439ee096db07int,
        0xc848034432710142ae55347ba847d69736456f99352869cb20c94a3a469e4bedint,
        0xf1adcbb3922804d34907699735d8ef7a2d232dbd81534899244b5afe731676b2int,
        0x688a5e7f3687f66934bd775a02b68458282138701f679158efb7d23be28e5175int);
    lemma_double(x, 0x7fffffff800000008000int,
        0xc848034432710142ae55347ba847d69736456f99352869cb20c94a3a469e4bedint,
        0xf1adcbb3922804d34907699735d8ef7a2d232dbd81534899244b5afe731676b2int,
        0x688a5e7f3687f66934bd775a02b68458282138701f679158efb7d23be28e5175int,
        0x9a57bab545f329649fab542da6bb66d311d9e70961931ebd98c2ca4b8c8ed1int,
        0xb7903eec497c313c7ddb76f8678fd88dfff9b22a8502d6da237683da88b66080int,
        0x545d470d0457e74bb3a1fd9f5ab97c97fd14a22cfb384bf028fc8ee456e7c969int);
    lemma_double(x, 0xffffffff000000010000int,
        0x9a57bab545f329649fab542da6bb66d311d9e70961931ebd98c2ca4b8c8ed1int,
        0xb7903eec497c313c7ddb76f8678fd88dfff9b22a8502d6da237683da88b66080int,
        0x545d470d0457e74bb3a1fd9f5ab97c97fd14a22cfb384bf028fc8ee456e7c969int,
        0x5b81957889b524a7f59413d340e5af1387c90489b7b72536533fb8d9c8745478int,
        0x6034e513e2cec39ec018521a4b00122af7a6f33038d1cb71fc977401f453ec3int,
        0x5c88de862374ffebbe68f2d70adabfb238a29fd070cde03785c809f082f097f4int);
}

/// The next powers.
proof fn lemma_powers_11(x: int)
    requires
        fp::vanishes(curve::cubic(x)),
        power_is(x, 0x1fffffffe000000020000int,
            0x5b81957889b524a7f59413d340e5af1387c90489b7b72536533fb8d9c8745478int,
            0x6034e513e2cec39ec018521a4b00122af7a6f33038d1cb71fc977401f453ec3int,
            0x5c88de862374ffebbe68f2d70adabfb238a29fd070cde03785c809f082f097f4int),
    ensures
        power_is(x, 0x1fffffffe00000002000000int,
            0x6248ffbb1c7b50821a34f9894b972282c31f0c83342b66c3a7a368e28a3c49dbint,
            0xdf53154e869916ba91c5840d561cfddd948894a4ea4efe678191de13d77ae7f6int,
            0x700341932cbdff2030b14b545ad2708adb5fb150f9cb38efaabef81ebef6e874int),
{
    lemma_double(x, 0x1fffffffe000000020000int,
        0x5b81957889b524a7f59413d340e5af1387c90489b7b72536533fb8d9c8745478int,
        0x6034e513e2cec39ec018521a4b00122af7a6f33038d1cb71fc977401f453ec3int,
        0x5c88de862374ffebbe68f2d70adabfb238a29fd070cde03785c809f082f097f4int,
        0x387d6a7651cbab0740a67633b86d09573e451131e419fef16dbd5b925604d36eint,
        0xe3da0f6222e4a290ed4adeb42209e91fa44fc30997dc2d1cd74074d195ecda20int,
        0xb996ac6c3bc0bc7acdf2a3712817ba0299e1c24754f848f8e0f91eb515eaea59int);
    lemma_double(x, 0x3fffffffc000000040000int,
        0x387d6a7651cbab0740a67633b86d09573e451131e419fef16dbd5b925604d36eint,
        0xe3da0f6222e4a290ed4adeb42209e91fa44fc30997dc2d1cd74074d195ecda20int,
        0xb996ac6c3bc0bc7acdf2a3712817ba0299e1c24754f848f8e0f91eb515eaea59int,
        0x4585d68b53a92ce1a9c8ecbc4933613fc90176a7907a2cc60b5acc523ab795a1int,
        0xb7d7fca8c5190cf860d5fb177c40ef0c328ec4bf5f6567ec1a05cb8dd3902ff3int,
        0x585d4f7e3520ac62f4447add504892bcd25620368fe0e8cbf73288e0c2d7e229int);
    lemma_double(x, 0x7fffffff8000000080000int,
        0x4585d68b53a92ce1a9c8ecbc4933613fc90176a7907a2cc60b5acc523ab795a1int,
        0xb7d7fca8c5190cf860d5fb177c40ef0c328ec4bf5f6567ec1a05cb8dd3902ff3int,
        0x585d4f7e3520ac62f4447add504892bcd25620368fe0e8cbf73288e0c2d7e229int,
        0xeda6e43e52d6d57212c31de5be91f180ae472c1cf78ba3464d68e1099b540325int,
        0x68653aba5ff38484e7f45ee181c95b86c154fdfa3b184f5a421c2e2217ded5e9int,
        0x14bd7d5874fafc53754df99cb06aeaff26969a7909bf7c50b9a541529379d2fdint);
    lemma_double(x, 0xffffffff0000000100000int,
        0xeda6e43e52d6d57212c31de5be91f180ae472c1cf78ba3464d68e1099b540325int,
        0x68653aba5ff38484e7f45ee181c95b86c154fdfa3b184f5a421c2e2217ded5e9int,
        0x14bd7d5874fafc53754df99cb06aeaff26969a7909bf7c50b9a541529379d2fdint,
        0xc3c3ee13364e6f48de2a9e2f9ae37f1ae4338d7e1f1cf3a6cdd42e34c517cc2int,
        0xd3398f45484bbc538ab252a49fbdafc79da9a4812f4e0e48bffb97276eb8df87int,
        0x2135a26f9d6c79bf8246d62e694bd3bfbae4447622c56f1d3d9ee601b10f0e75int);
    lemma_double(x, 0x1fffffffe0000000200000int,
        0xc3c3ee13364e6f48de2a9e2f9ae37f1ae4338d7e1f1cf3a6cdd42e34c517cc2int,
        0xd3398f45484bbc538ab252a49fbdafc79da9a4812f4e0e48bffb97276eb8df87int,
        0x2135a26f9d6c79bf8246d62e694bd3bfbae4447622c56f1d3d9ee601b10f0e75int,
        0xc58dac9319063381efa5b54f0ea5a49f9812ee0113696fbceba581702a7e4e7cint,
        0xf5c2491d5d30c19f0bd3b06b405c10393efa61999730c1ee10993f7f66f367dint,
        0x8fce91c96ab0e8d0236b29d645ba257b5205ca5a8c6a0ec74bc47075761d625eint);
    lemma_double(x, 0x3fffffffc0000000400000int,
        0xc58dac9319063381efa5b54f0ea5a49f9812ee0113696fbceba581702a7e4e7cint,
        0xf5c2491d5d30c19f0bd3b06b405c10393efa61999730c1ee10993f7f66f367dint,
        0x8fce91c96ab0e8d0236b29d645ba257b5205ca5a8c6a0ec74bc47075761d625eint,
        0x3f03b583e8f6ea2b5639f833370099ec8db4ee1bcc4f81f19003e0ec88886491int,
        0x93b6fa6b61ff791d374d5c64ce4ae00cee957547ca5c731878ef70da32bdb1bdint,
        0xc65b242ee3cb7247e9018674e2b3bf436515861741fbe778d8aff27aa89efe7cint);
    lemma_double(x, 0x7fffffff80000000800000int,
        0x3f03b583e8f6ea2b5639f833370099ec8db4ee1bcc4f81f19003e0ec88886491int,
        0x93b6fa6b61ff791d374d5c64ce4ae00cee957547ca5c731878ef70da32bdb1bdint,
        0xc65b242ee3cb7247e9018674e2b3bf436515861741fbe778d8aff27aa89efe7cint,
        0x92feca428682b94edecd87dc2178308e9ed97142228049d3d2c5afe3f05371d9int,
        0xe165024e2fabb7bab1160eff038b47eacc6b6e522a0e86b130c09ccf84b535d3int,
        0x8e522d24c79996a22f9dfc3213079ed344d1fd2df93bff1af8f415a3c8776e96int);
    lemma_double(x, 0xffffffff00000001000000int,
        0x92feca428682b94edecd87dc2178308e9ed97142228049d3d2c5afe3f05371d9int,
        0xe165024e2fabb7bab1160eff038b47eacc6b6e522a0e86b130c09ccf84b535d3int,
        0x8e522d24c79996a22f9dfc3213079ed344d1fd2df93bff1af8f415a3c8776e96int,
        0x6248ffbb1c7b50821a34f9894b972282c31f0c83342b66c3a7a368e28a3c49dbint,
        0xdf53154e869916ba91c5840d561cfddd948894a4ea4efe678191de13d77ae7f6int,
        0x700341932cbdff2030b14b545ad2708adb5fb150f9cb38efaabef81ebef6e874int);
}

/// The next powers.
proof fn lemma_powers_12(x: int)
    requires
        fp::vanishes(curve::cubic(x)),
        power_is(x, 0x1fffffffe00000002000000int,
            0x6248ffbb1c7b50821a34f9894b972282c31f0c83342b66c3a7a368e28a3c49dbint,
            0xdf53154e869916ba91c5840d561cfddd948894a4ea4efe678191de13d77ae7f6int,
            0x700341932cbdff2030b14b545ad2708adb5fb150f9cb38efaabef81ebef6e874int),
    ensures
        power_is(x, 0x1fffffffe0000000200000000int,
            0x926c5553438c08f9967209fab32ff0301566af8f51d0e4514e39d11f0c7d4e93int,
            0x7cb9a1270809b1f3ba53a5f42e9645cf0a1e3a4a634c1270825daf25cea52829int,
            0x94ca8f900c1d71128945462e06f12067481f844d3818e6a9b0e543d46a99ca01int),
{
    lemma_double(x, 0x1fffffffe00000002000000int,
        0x6248ffbb1c7b50821a34f9894b972282c31f0c83342b66c3a7a368e28a3c49dbint,
        0xdf53154e869916ba91c5840d561cfddd948894a4ea4efe678191de13d77ae7f6int,
        0x700341932cbdff2030b14b545ad2708adb5fb150f9cb38efaabef81ebef6e874int,
        0x4e2e424eeaebe35db319fdc33d1389d63db2e60d0eec9fa5f0bf86da05b9b7fdint,
        0xa42a057cf1350835ad3f3b38db160aedbbbc7228969416e99548b6cb271f9500int,
        0x58f46948500ef28e41da0df946faf118cc208e9e28d8bcd2b7767defb25ab1a5int);
    lemma_double(x, 0x3fffffffc00000004000000int,
        0x4e2e424eeaebe35db319fdc33d1389d63db2e60d0eec9fa5f0bf86da05b9b7fdint,
        0xa42a057cf1350835ad3f3b38db160aedbbbc7228969416e99548b6cb271f9500int,
        0x58f46948500ef28e41da0df946faf118cc208e9e28d8bcd2b7767defb25ab1a5int,
        0x627d9100b4dd3d6c600407b57c48432417c0a6bf515fe866ba35ade7b5a83c31int,
        0x15d64d97a6579473506fa679321aaa432667853ebe64bfc2e26f0531469b30b6int,
        0x133d37617a297b7bdf04862fdd31559339d3cb39032dee7c947f7e6bb495be12int);
    lemma_double(x, 0x7fffffff800000008000000int,
        0x627d9100b4dd3d6c600407b57c48432417c0a6bf515fe866ba35ade7b5a83c31int,
        0x15d64d97a6579473506fa679321aaa432667853ebe64bfc2e26f0531469b30b6int,
        0x133d37617a297b7bdf04862fdd31559339d3cb39032dee7c947f7e6bb495be12int,
        0x19c2f69d4fc5c19afae91a4788207c61da32819d4ad9dfcfc33b0a4ca934aaa2int,
        0x9d38eaca9241697c29ddfe68171efcdb3b9d169ee0cb6c55ae8a42f3ec155664int,
        0x5e51b4dbfb6df1f15f4b87160c9ed21d7a72da1984b7060f965805841cc08355int);
    lemma_double(x, 0xffffffff000000010000000int,
        0x19c2f69d4fc5c19afae91a4788207c61da32819d4ad9dfcfc33b0a4ca934aaa2int,
        0x9d38eaca9241697c29ddfe68171efcdb3b9d169ee0cb6c55ae8a42f3ec155664int,
        0x5e51b4dbfb6df1f15f4b87160c9ed21d7a72da1984b7060f965805841cc08355int,
        0x3e3391c79abcae35d3c63aba17109ce3c7ce0bccf18cb469a43ee34267f45f0eint,
        0xd9fea18629bfd3825d5adc158896ce4d076e535fcf26ca077417fd2dd51e136int,
        0xb010697bbeb0097ef39aed13dcec126999e7aa4f074149954aa033b5a0d7a94bint);
    lemma_double(x, 0x1fffffffe000000020000000int,
        0x3e3391c79abcae35d3c63aba17109ce3c7ce0bccf18cb469a43ee34267f45f0eint,
        0xd9fea18629bfd3825d5adc158896ce4d076e535fcf26ca077417fd2dd51e136int,
        0xb010697bbeb0097ef39aed13dcec126999e7aa4f074149954aa033b5a0d7a94bint,
        0xe72fe704e75c2164a09a0a4472e9db9dd63e83b73fbdeba780ab110d16a40118int,
        0x5a4f171e9aefed685b3e261d90480c99ba356f42af09187bfe53c9c412c8fdd9int,
        0x995a4c7f898dee09d4ea7da32624d60d7cfc233ec915436c339ea68c8b257955int);
    lemma_double(x, 0x3fffffffc000000040000000int,
        0xe72fe704e75c2164a09a0a4472e9db9dd63e83b73fbdeba780ab110d16a40118int,
        0x5a4f171e9aefed685b3e261d90480c99ba356f42af09187bfe53c9c412c8fdd9int,
        0x995a4c7f898dee09d4ea7da32624d60d7cfc233ec915436c339ea68c8b257955int,
        0xa8be0f7fa50d110eb0a0bcb9ba7bcf7d1f6261ee49639c5e5275df53eb299265int,
        0xcad3376683bd30e9619c8b8dc875a3682396abfa2de59ba8b80d6ceceab9da72int,
        0x4659cf9218dec3eaedbe1e3f21bd873be35953d99c641ec571e90c3457b042c0int);
    lemma_double(x, 0x7fffffff8000000080000000int,
        0xa8be0f7fa50d110eb0a0bcb9ba7bcf7d1f6261ee49639c5e5275df53eb299265int,
        0xcad3376683bd30e9619c8b8dc875a3682396abfa2de59ba8b80d6ceceab9da72int,
        0x4659cf9218dec3eaedbe1e3f21bd873be35953d99c641ec571e90c3457b042c0int,
        0xd05f3cec62f3a2a578d9b74c5b2d84679444d76b6bdef72884d21ece9efee82int,
        0x2c3db50e13e3340ea165b10adafa97f99d85596a0db6bb45031fb7f7e944524fint,
        0x4f2a9611e50f58ce3f3cb167b00a78de542a7b6deb11b1b6b7c293e9c0dd1481int);
    lemma_double(x, 0xffffffff0000000100000000int,
        0xd05f3cec62f3a2a578d9b74c5b2d84679444d76b6bdef72884d21ece9efee82int,
        0x2c3db50e13e3340ea165b10adafa97f99d85596a0db6bb45031fb7f7e944524fint,
        0x4f2a9611e50f58ce3f3cb167b00a78de542a7b6deb11b1b6b7c293e9c0dd1481int,
        0x926c5553438c08f9967209fab32ff0301566af8f51d0e4514e39d11f0c7d4e93int,
        0x7cb9a1270809b1f3ba53a5f42e9645cf0a1e3a4a634c1270825daf25cea52829int,
        0x94ca8f900c1d71128945462e06f12067481f844d3818e6a9b0e543d46a99ca01int);
}

/// The next powers.
proof fn lemma_powers_13(x: int)
    requires
        fp::vanishes(curve::cubic(x)),
        power_is(x, 0x1fffffffe0000000200000000int,
            0x926c5553438c08f9967209fab32ff0301566af8f51d0e4514e39d11f0c7d4e93int,
            0x7cb9a1270809b1f3ba53a5f42e9645cf0a1e3a4a634c1270825daf25cea52829int,
            0x94ca8f900c1d71128945462e06f12067481f844d3818e6a9b0e543d46a99ca01int),
    ensures
        power_is(x, 0x1fffffffe000000020000000000int,
            0xb9f306524fe0e3d75fe69a17b314ce5a4d69a246aaac32da754a4104f97e595bint,
            0xfc2b8f8fe1e9d4ad0a28f443bce9dfb96a02ba2d5c2b3ce42314e54be639359dint,
            0xa64f0a09f623ce414f2c4049c5f31feffb8387a6af6188f797bb827cfbfe1f6bint),
{
    lemma_double(x, 0x1fffffffe0000000200000000int,
        0x926c5553438c08f9967209fab32ff0301566af8f51d0e4514e39d11f0c7d4e93int,
        0x7cb9a1270809b1f3ba53a5f42e9645cf0a1e3a4a634c1270825daf25cea52829int,
        0x94ca8f900c1d71128945462e06f12067481f844d3818e6a9b0e543d46a99ca01int,
        0x41bd2f004852bae201040fa689c72dec5a6dd40913af5f15eaeb0554932f4ca5int,
        0x798a8bd7816864bc685ab7ac63499673864e410e363273238c6959485b920e75int,
        0x80e4cd81c63c7531b861b65106932bed6343532afa8d84dc429c2287391a8461int);
    lemma_double(x, 0x3fffffffc0000000400000000int,
        0x41bd2f004852bae201040fa689c72dec5a6dd40913af5f15eaeb0554932f4ca5int,
        0x798a8bd7816864bc685ab7ac63499673864e410e363273238c6959485b920e75int,
        0x80e4cd81c63c7531b861b65106932bed6343532afa8d84dc429c2287391a8461int,
        0xa015b565b25a6f2241bf5e57040cd1fca86afefa7c22c0b08a14cd45083c053int,
        0x7efc40b791397157d4479bfba2270bb99a77f04151c6f2ce860237ff30e5283fint,
        0xdeaa811d16bdb3f2f577e207b13b5ddb31f7bcfb14954a5a84735f94ba3e895eint);
    lemma_double(x, 0x7fffffff80000000800000000int,
        0xa015b565b25a6f2241bf5e57040cd1fca86afefa7c22c0b08a14cd45083c053int,
        0x7efc40b791397157d4479bfba2270bb99a77f04151c6f2ce860237ff30e5283fint,
        0xdeaa811d16bdb3f2f577e207b13b5ddb31f7bcfb14954a5a84735f94ba3e895eint,
        0x44669e5623fb732ae4e807bfbeca7ecc94e54e757c752ec8b10f22f292a798f8int,
        0x794231b5fb44ff3be04856e656fe5f3a551efc729da0a34616b42b39dbd97eedint,
        0xe1b2a7601dd2c099ed7007bbc9dd7d7e33d2215bafc45119c125a90df1f13aaaint);
    lemma_double(x, 0xffffffff00000001000000000int,
        0x44669e5623fb732ae4e807bfbeca7ecc94e54e757c752ec8b10f22f292a798f8int,
        0x794231b5fb44ff3be04856e656fe5f3a551efc729da0a34616b42b39dbd97eedint,
        0xe1b2a7601dd2c099ed7007bbc9dd7d7e33d2215bafc45119c125a90df1f13aaaint,
        0x4598acc8d55cb4acedb1e0b31e5e92d794a1b396426ef9df38803766e1fb277dint,
        0x38e62800b0d6d902951f61f1c1158d0af198fa10cb95d22185c41072926d3ab9int,
        0xbbb5e4f8616a0eb4ae5c8953bb66ab541a5aa1907450210f01b46b133ea1c3d0int);
    lemma_double(x, 0x1fffffffe00000002000000000int,
        0x4598acc8d55cb4acedb1e0b31e5e92d794a1b396426ef9df38803766e1fb277dint,
        0x38e62800b0d6d902951f61f1c1158d0af198fa10cb95d22185c41072926d3ab9int,
        0xbbb5e4f8616a0eb4ae5c8953bb66ab541a5aa1907450210f01b46b133ea1c3d0int,
        0x1d399b7cd84a002400341513d5581646088760b59149144b1952bf0773f63eecint,
        0xd9a9108ece1f03494a9a8044cb02b61661fd8bc5e990c814acb9d018d0411b5dint,
        0xa2d1757a970eb13af7aedcc0ed41f7bcce2ca01cc7e29f1067ede41cf4acdcb4int);
    lemma_double(x, 0x3fffffffc00000004000000000int,
        0x1d399b7cd84a002400341513d5581646088760b59149144b1952bf0773f63eecint,
        0xd9a9108ece1f03494a9a8044cb02b61661fd8bc5e990c814acb9d018d0411b5dint,
        0xa2d1757a970eb13af7aedcc0ed41f7bcce2ca01cc7e29f1067ede41cf4acdcb4int,
        0xd782ee5a9bf1c06bfcbdb7016f72ade4d1b71e340bb9164b28c045b180e321b7int,
        0x4983cba020e3a7f06d7e51b073ed0dfb6fbae6aac0b0d03d286ec1c0aa1c2883int,
        0xa30c2022e9f76269a4e9508ccaa21f4b8cbdabc98a5338cc6e04f46e6d8485faint);
    lemma_double(x, 0x7fffffff800000008000000000int,
        0xd782ee5a9bf1c06bfcbdb7016f72ade4d1b71e340bb9164b28c045b180e321b7int,
        0x4983cba020e3a7f06d7e51b073ed0dfb6fbae6aac0b0d03d286ec1c0aa1c2883int,
        0xa30c2022e9f76269a4e9508ccaa21f4b8cbdabc98a5338cc6e04f46e6d8485faint,
        0x1f5df354daa0efc366cbfd33ff75a9f48158fcce806c1d58063b58c097405a3cint,
        0x6cb7baf64f8743a13908116740cc5568652df0c186c6ebccea105be24f890079int,
        0x9a0c3cc508e6c8f7c3792ca5dcb19ac818ef3cdf245e2a9dbead5c0e91ad7beaint);
    lemma_double(x, 0xffffffff000000010000000000int,
        0x1f5df354daa0efc366cbfd33ff75a9f48158fcce806c1d58063b58c097405a3cint,
        0x6cb7baf64f8743a13908116740cc5568652df0c186c6ebccea105be24f890079int,
        0x9a0c3cc508e6c8f7c3792ca5dcb19ac818ef3cdf245e2a9dbead5c0e91ad7beaint,
        0xb9f306524fe0e3d75fe69a17b314ce5a4d69a246aaac32da754a4104f97e595bint,
        0xfc2b8f8fe1e9d4ad0a28f443bce9dfb96a02ba2d5c2b3ce42314e54be639359dint,
        0xa64f0a09f623ce414f2c4049c5f31feffb8387a6af6188f797bb827cfbfe1f6bint);
}

/// The next powers.
proof fn lemma_powers_14(x: int)
    requires
        fp::vanishes(curve::cubic(x)),
        power_is(x, 0x1fffffffe000000020000000000int,
            0xb9f306524fe0e3d75fe69a17b314ce5a4d69a246aaac32da754a4104f97e595bint,
            0xfc2b8f8fe1e9d4ad0a28f443bce9dfb96a02ba2d5c2b3ce42314e54be639359dint,
            0xa64f0a09f623ce414f2c4049c5f31feffb8387a6af6188f797bb827cfbfe1f6bint),
    ensures
        power_is(x, 0x1fffffffe00000002000000000000int,
            0xac66ac460d1e15ab857a58e663e6a83e2651d854dc46b8f1722c2931a95ab03int,
            0x23ac6ff1841c8bbf84a69d51648cc696820665a407c2f25abedd3b088d59471fint,
            0xcb54695838c97dd3ed2003506189f3a9423c3c14d3907fe87c5cc4b5deea3e24int),
{
    lemma_double(x, 0x1fffffffe000000020000000000int,
        0xb9f306524fe0e3d75fe69a17b314ce5a4d69a246aaac32da754a4104f97e595bint,
        0xfc2b8f8fe1e9d4ad0a28f443bce9dfb96a02ba2d5c2b3ce42314e54be639359dint,
        0xa64f0a09f623ce414f2c4049c5f31feffb8387a6af6188f797bb827cfbfe1f6bint,
        0xf9d39087b681db9b5f03e1a8ef862717d69afe659380d46e1c6d91195eec731cint,
        0x6da362c6c9a5982a273ffb11a31fb2e57c98ccecef73741970e86e9c3b1cb197int,
        0x87c232070c80810db368492e2f6e4cdaf31b65cb3caf0be9a70eb8d8c37fb2daint);
    lemma_double(x, 0x3fffffffc000000040000000000int,
        0xf9d39087b681db9b5f03e1a8ef862717d69afe659380d46e1c6d91195eec731cint,
        0x6da362c6c9a5982a273ffb11a31fb2e57c98ccecef73741970e86e9c3b1cb197int,
        0x87c232070c80810db368492e2f6e4cdaf31b65cb3caf0be9a70eb8d8c37fb2daint,
        0x4c97a0608eb4fb442a1938002e927eea4832e574032b2ed36aa96afad974a001int,
        0x404d04fe57ee69e1ff6ef8102283927c09995b43b7fbe351d046e11a9f2e37d9int,
        0x662154901b2057c53ba8d3c42638c4b1480ab553316dd1b032ec7c5e816f4f15int);
    lemma_double(x, 0x7fffffff8000000080000000000int,
        0x4c97a0608eb4fb442a1938002e927eea4832e574032b2ed36aa96afad974a001int,
        0x404d04fe57ee69e1ff6ef8102283927c09995b43b7fbe351d046e11a9f2e37d9int,
        0x662154901b2057c53ba8d3c42638c4b1480ab553316dd1b032ec7c5e816f4f15int,
        0xa580b55b6205a4ab119946a06df34747f93f228db299488bfb6732bfd302f9b2int,
        0x7677cea77270d0c7c1bec69e5dfab979ca75f0d3413b41b3a82a2d5a24dfc1b8int,
        0x6af56fa5b21a93ed401f2f389e876ff96f5b10fa508ce0e254719acd2bb98af1int);
    lemma_double(x, 0xffffffff0000000100000000000int,
        0xa580b55b6205a4ab119946a06df34747f93f228db299488bfb6732bfd302f9b2int,
        0x7677cea77270d0c7c1bec69e5dfab979ca75f0d3413b41b3a82a2d5a24dfc1b8int,
        0x6af56fa5b21a93ed401f2f389e876ff96f5b10fa508ce0e254719acd2bb98af1int,
        0x36d1a14454d284d4fe688acdab9478c7d3226b4370244a5c1872e7f1de58aec8int,
        0x2c1a1eb50e7573da7266b29de5658355b04f94ced4737055ea8cfa006f2900afint,
        0xaeff70404f5189477688f3130e909a47004299c1f67cd60b4fb41e83df0c7279int);
    lemma_double(x, 0x1fffffffe0000000200000000000int,
        0x36d1a14454d284d4fe688acdab9478c7d3226b4370244a5c1872e7f1de58aec8int,
        0x2c1a1eb50e7573da7266b29de5658355b04f94ced4737055ea8cfa006f2900afint,
        0xaeff70404f5189477688f3130e909a47004299c1f67cd60b4fb41e83df0c7279int,
        0x1031601a342ba59192ae16ac4827527b3879c3246f157cfc7f235eeea729ba08int,
        0x78260eb106f9fb68708d9d1a8ee2b036389cc54e6ba4d287f5c62594807c0a37int,
        0xbe18378097b39641d3dfbe3e70d7fb02be675638ddc9db0b25dcce2028df28b9int);
    lemma_double(x, 0x3fffffffc0000000400000000000int,
        0x1031601a342ba59192ae16ac4827527b3879c3246f157cfc7f235eeea729ba08int,
        0x78260eb106f9fb68708d9d1a8ee2b036389cc54e6ba4d287f5c62594807c0a37int,
        0xbe18378097b39641d3dfbe3e70d7fb02be675638ddc9db0b25dcce2028df28b9int,
        0xbe0a7db4a2a0aa577a73bc6958e358c2043f5cd224691a02393aa3bbbfbf24afint,
        0x9309a922ea6f58e0123ba7cae397adbe06b38409e135b0fd7b19cee330a64966int,
        0xbf4754280a7851a6427af32c0a13161494972b1872cda7255a900cf41424b9f9int);
    lemma_double(x, 0x7fffffff80000000800000000000int,
        0xbe0a7db4a2a0aa577a73bc6958e358c2043f5cd224691a02393aa3bbbfbf24afint,
        0x9309a922ea6f58e0123ba7cae397adbe06b38409e135b0fd7b19cee330a64966int,
        0xbf4754280a7851a6427af32c0a13161494972b1872cda7255a900cf41424b9f9int,
        0x4e517eace89782f3228ad460d2eafce165853a9c4efdcfa0557a12cecd38e158int,
        0x7f9b268ed542e1ad8a343321d182057df7af6758fdcab19888440b5339a44d34int,
        0x870208706f0dc0adaa18ba1ab88ed9f1fe46182962c16d1b34f8cf5b73ecca28int);
    lemma_double(x, 0xffffffff00000001000000000000int,
        0x4e517eace89782f3228ad460d2eafce165853a9c4efdcfa0557a12cecd38e158int,
        0x7f9b268ed542e1ad8a343321d182057df7af6758fdcab19888440b5339a44d34int,
        0x870208706f0dc0adaa18ba1ab88ed9f1fe46182962c16d1b34f8cf5b73ecca28int,
        0xac66ac460d1e15ab857a58e663e6a83e2651d854dc46b8f1722c2931a95ab03int,
        0x23ac6ff1841c8bbf84a69d51648cc696820665a407c2f25abedd3b088d59471fint,
        0xcb54695838c97dd3ed2003506189f3a9423c3c14d3907fe87c5cc4b5deea3e24int);
}

/// The next powers.
proof fn lemma_powers_15(x: int)
    requires
        fp::vanishes(curve::cubic(x)),
        power_is(x, 0x1fffffffe00000002000000000000int,
            0xac66ac460d1e15ab857a58e663e6a83e2651d854dc46b8f1722c2931a95ab03int,
            0x23ac6ff1841c8bbf84a69d51648cc696820665a407c2f25abedd3b088d59471fint,
            0xcb54695838c97dd3ed2003506189f3a9423c3c14d3907fe87c5cc4b5deea3e24int),
    ensures
        power_is(x, 0x1fffffffe0000000200000000000000int,
            0x6aa43a0296d7e72488df78bbc476d90835f290d3ab7f869c10a58f49f6ef0cd0int,
            0x77f4d84e9795d1fce5a67e6b28370845abb1d95575fdcbe46ecfc20ee8d4fd85int,
            0xe5a0c4c6f969cbebe5e310016db736b8f8d6cbee24ac63cddfa9d36db3eaaf4eint),
{
    lemma_double(x, 0x1fffffffe00000002000000000000int,
        0xac66ac460d1e15ab857a58e663e6a83e2651d854dc46b8f1722c2931a95ab03int,
        0x23ac6ff1841c8bbf84a69d51648cc696820665a407c2f25abedd3b088d59471fint,
        0xcb54695838c97dd3ed2003506189f3a9423c3c14d3907fe87c5cc4b5deea3e24int,
        0xb62252645e99a0a7eb154d822350df898d917186819d6334d93c806266e75c05int,
        0xe70beb9de0cb1213cd405093461982eab441b69e6e87eb6e33b1f1b3e01c27a3int,
        0x254fada6dee7a54f8bccb7e0d1a3026a7430ccaaf55942c7df83241ac2a90fceint);
    lemma_double(x, 0x3fffffffc00000004000000000000int,
        0xb62252645e99a0a7eb154d822350df898d917186819d6334d93c806266e75c05int,
        0xe70beb9de0cb1213cd405093461982eab441b69e6e87eb6e33b1f1b3e01c27a3int,
        0x254fada6dee7a54f8bccb7e0d1a3026a7430ccaaf55942c7df83241ac2a90fceint,
        0xdcbe853ac48a69555d2f72fb13e24880177fbc57f418657e67a38923b6c99ec5int,
        0x25b7d22aa6b44890771f80904e12dd38dd57ed8c29a408e28465fb7e75504c8cint,
        0x8d498cde69f57d138836ab7988dc8f66890717aa8ad7b0b0d40e30730ea9363eint);
    lemma_double(x, 0x7fffffff800000008000000000000int,
        0xdcbe853ac48a69555d2f72fb13e24880177fbc57f418657e67a38923b6c99ec5int,
        0x25b7d22aa6b44890771f80904e12dd38dd57ed8c29a408e28465fb7e75504c8cint,
        0x8d498cde69f57d138836ab7988dc8f66890717aa8ad7b0b0d40e30730ea9363eint,
        0xf49e6238129b25d2e5d446f88ffa8b212a25c9ea47fc1ef0dcb20f02543fd23cint,
        0xd08c48fa6f311c31c48253572e273a06074e584e106ace01f4acaae2d3ee26d7int,
        0xd62e43a9fcb83c35a76f84ddb4a6211fc0308370bd0824269c15bc2313b8d81dint);
    lemma_double(x, 0xffffffff000000010000000000000int,
        0xf49e6238129b25d2e5d446f88ffa8b212a25c9ea47fc1ef0dcb20f02543fd23cint,
        0xd08c48fa6f311c31c48253572e273a06074e584e106ace01f4acaae2d3ee26d7int,
        0xd62e43a9fcb83c35a76f84ddb4a6211fc0308370bd0824269c15bc2313b8d81dint,
        0xc970998409a9cb58b76644612307a83a1581b379c7a12d21ec70a09460df51a5int,
        0xa52666ce389b6b23d615720027e0ce1eaae9abaf4eabbaf07980affebefe6ad0int,
        0xe0ca63e7fe6a81bde9801905c364bb17cab1b3c11ee4c9e2aba06db6b1b4890cint);
    lemma_double(x, 0x1fffffffe000000020000000000000int,
        0xc970998409a9cb58b76644612307a83a1581b379c7a12d21ec70a09460df51a5int,
        0xa52666ce389b6b23d615720027e0ce1eaae9abaf4eabbaf07980affebefe6ad0int,
        0xe0ca63e7fe6a81bde9801905c364bb17cab1b3c11ee4c9e2aba06db6b1b4890cint,
        0xa900832eefc2c87453a7254fce700a6991c18a55b96e925a5471d2d7c8cf54c5int,
        0x6fbf900ffa24802b4db2eedd7620788fb0d5338eb8c4bcb0025b7d4818a05773int,
        0x50c3dbef5376b3554ca97692cd3aeb0bd2313ff5b9819f29d4efa6cf2cc2dc8eint);
    lemma_double(x, 0x3fffffffc000000040000000000000int,
        0xa900832eefc2c87453a7254fce700a6991c18a55b96e925a5471d2d7c8cf54c5int,
        0x6fbf900ffa24802b4db2eedd7620788fb0d5338eb8c4bcb0025b7d4818a05773int,
        0x50c3dbef5376b3554ca97692cd3aeb0bd2313ff5b9819f29d4efa6cf2cc2dc8eint,
        0x7173a09bbe2eaf3893c64af8e27a65175be93c0a0a1d86d41c8da4e836eebf1aint,
        0x564e96306069a8b0d122d460f72d3ba1c48cb437045a6f52c3e58abbf279578bint,
        0x1663f3d6f5406c41584404815f94d8d09ee1e87b26718e9cf79c426766199831int);
    lemma_double(x, 0x7fffffff8000000080000000000000int,
        0x7173a09bbe2eaf3893c64af8e27a65175be93c0a0a1d86d41c8da4e836eebf1aint,
        0x564e96306069a8b0d122d460f72d3ba1c48cb437045a6f52c3e58abbf279578bint,
        0x1663f3d6f5406c41584404815f94d8d09ee1e87b26718e9cf79c426766199831int,
        0x620b979661dc3576234d2fb1d9506b498aa31aa0f63673c939cbe96a12c79c7cint,
        0x125870752debcb41e63d95f8396f3e32ee5a58034fb8e1bba1d3fd4758c8b147int,
        0x7eab9034b827fc633b26686b04a9c15d4298b446bc5386c62a688a6a401ba943int);
    lemma_double(x, 0xffffffff0000000100000000000000int,
        0x620b979661dc3576234d2fb1d9506b498aa31aa0f63673c939cbe96a12c79c7cint,
        0x125870752debcb41e63d95f8396f3e32ee5a58034fb8e1bba1d3fd4758c8b147int,
        0x7eab9034b827fc633b26686b04a9c15d4298b446bc5386c62a688a6a401ba943int,
        0x6aa43a0296d7e72488df78bbc476d90835f290d3ab7f869c10a58f49f6ef0cd0int,
        0x77f4d84e9795d1fce5a67e6b28370845abb1d95575fdcbe46ecfc20ee8d4fd85int,
        0xe5a0c4c6f969cbebe5e310016db736b8f8d6cbee24ac63cddfa9d36db3eaaf4eint);
}

/// The next powers.
proof fn lemma_powers_16(x: int)
    requires
        fp::vanishes(curve::cubic(x)),
        power_is(x, 0x1fffffffe0000000200000000000000int,
            0x6aa43a0296d7e72488df78bbc476d90835f290d3ab7f869c10a58f49f6ef0cd0int,
            0x77f4d84e9795d1fce5a67e6b28370845abb1d95575fdcbe46ecfc20ee8d4fd85int,
            0xe5a0c4c6f969cbebe5e310016db736b8f8d6cbee24ac63cddfa9d36db3eaaf4eint),
    ensures
        power_is(x, 0x1fffffffe000000020000000000000000int,
            0x377e23dedd24f3552bd0543b9616b2031ac7774ff03fa10e86c92fafac651b52int,
            0xee8974b31bcd62e0cb78962fe7d984f9dea6f87161b1707f67925d30d3f97a5eint,
            0x5b40f2c18a3dd19137374611fac26d0957f7fcd1941dcb0dd7dee8aa77373e23int),
{
    lemma_double(x, 0x1fffffffe0000000200000000000000int,
        0x6aa43a0296d7e72488df78bbc476d90835f290d3ab7f869c10a58f49f6ef0cd0int,
        0x77f4d84e9795d1fce5a67e6b28370845abb1d95575fdcbe46ecfc20ee8d4fd85int,
        0xe5a0c4c6f969cbebe5e310016db736b8f8d6cbee24ac63cddfa9d36db3eaaf4eint,
        0xaebbfdb01777359550577cec04dae6ef2ca980c35fbb387e7e694bc989ee298bint,
        0x4fb18a11dd7975ac61928d7102bd908426c41d6a409fb695d5352e67dafff2d1int,
        0xe0da9338e861e5993de4de5f0ee6b2a31bdd46c821d817af2426f78c4cfe0848int);
    lemma_double(x, 0x3fffffffc0000000400000000000000int,
        0xaebbfdb01777359550577cec04dae6ef2ca980c35fbb387e7e694bc989ee298bint,
        0x4fb18a11dd7975ac61928d7102bd908426c41d6a409fb695d5352e67dafff2d1int,
        0xe0da9338e861e5993de4de5f0ee6b2a31bdd46c821d817af2426f78c4cfe0848int,
        0x2cd2babfd6e46a66607b0071e20fb3b3e6663e4a43c920a75c68ddbefca75958int,
        0xd90fab9c2739f701e181dff25cf617154b38dd63a57677730e22987b77608922int,
        0xa051b982b888b21f5aa379cc2b7c5161c46026102701125851351340217e02a0int);
    lemma_double(x, 0x7fffffff80000000800000000000000int,
        0x2cd2babfd6e46a66607b0071e20fb3b3e6663e4a43c920a75c68ddbefca75958int,
        0xd90fab9c2739f701e181dff25cf617154b38dd63a57677730e22987b77608922int,
        0xa051b982b888b21f5aa379cc2b7c5161c46026102701125851351340217e02a0int,
        0x7c3a30c0484c83c7f91e8772eeea4492dafa9778cc19267c91f22174c28da6deint,
        0xacdd7a785ceae2c350022f99c1ad5a9b7037347292c4d78156ac4d892841bee9int,
        0x43b252505d01ebf8d48f52377c0b9118bb95d7a987fa77f23452224a440df897int);
    lemma_double(x, 0xffffffff00000001000000000000000int,
        0x7c3a30c0484c83c7f91e8772eeea4492dafa9778cc19267c91f22174c28da6deint,
        0xacdd7a785ceae2c350022f99c1ad5a9b7037347292c4d78156ac4d892841bee9int,
        0x43b252505d01ebf8d48f52377c0b9118bb95d7a987fa77f23452224a440df897int,
        0x3d9755641542a16f2101ea5ad4f8a0f4b24d4a35b5bba177a9fb581e29762b47int,
        0xc9fa0e2392433574513128baa5f57f5be619cd3f5c99dc0f25bcef1fa6430e54int,
        0x756e81fa8a3175d2d03e5a8be9e1f34ad633dfb2c950fec931e9a3d5163ba147int);
    lemma_double(x, 0x1fffffffe00000002000000000000000int,
        0x3d9755641542a16f2101ea5ad4f8a0f4b24d4a35b5bba177a9fb581e29762b47int,
        0xc9fa0e2392433574513128baa5f57f5be619cd3f5c99dc0f25bcef1fa6430e54int,
        0x756e81fa8a3175d2d03e5a8be9e1f34ad633dfb2c950fec931e9a3d5163ba147int,
        0x3617454ba96bf6d3f01883d7cf76325c4a55f6c20667ae1f2a9a93a704893063int,
        0xd09a232cf589cda3f5646cd69981565abe081f969421a3abf39da51642b93383int,
        0x6d46d072350a9375687aa9444db9dbe7125bb217d439b9b3460983766bd1780eint);
    lemma_double(x, 0x3fffffffc00000004000000000000000int,
        0x3617454ba96bf6d3f01883d7cf76325c4a55f6c20667ae1f2a9a93a704893063int,
        0xd09a232cf589cda3f5646cd69981565abe081f969421a3abf39da51642b93383int,
        0x6d46d072350a9375687aa9444db9dbe7125bb217d439b9b3460983766bd1780eint,
        0x6b732af77629adba71c3444374f608639e019fccdc10733b3e015f1cb98762e5int,
        0x8698dbf48ce25ce2869eba78c4721fad817cedbdda23bc8d89e095e3811034b7int,
        0x18b43adf4723ba8a47a481e1db6d68e5f76669a6b4c381fa4b3ba5dd5ac71d07int);
    lemma_double(x, 0x7fffffff800000008000000000000000int,
        0x6b732af77629adba71c3444374f608639e019fccdc10733b3e015f1cb98762e5int,
        0x8698dbf48ce25ce2869eba78c4721fad817cedbdda23bc8d89e095e3811034b7int,
        0x18b43adf4723ba8a47a481e1db6d68e5f76669a6b4c381fa4b3ba5dd5ac71d07int,
        0x8b4f3c48384aa42fe4ca45f85f0df9736d8b9c96fcac658c0204d9003008c93eint,
        0x4ded00eebc4c7922ebe591b8742c8a062041be8993d45b072163e8b9f311eb3cint,
        0x5da1cbbe634e1d980c8eb93970cdc02e00eb9179d54f940a3c938f044fb72e7aint);
    lemma_double(x, 0xffffffff000000010000000000000000int,
        0x8b4f3c48384aa42fe4ca45f85f0df9736d8b9c96fcac658c0204d9003008c93eint,
        0x4ded00eebc4c7922ebe591b8742c8a062041be8993d45b072163e8b9f311eb3cint,
        0x5da1cbbe634e1d980c8eb93970cdc02e00eb9179d54f940a3c938f044fb72e7aint,
        0x377e23dedd24f3552bd0543b9616b2031ac7774ff03fa10e86c92fafac651b52int,
        0xee8974b31bcd62e0cb78962fe7d984f9dea6f87161b1707f67925d30d3f97a5eint,
        0x5b40f2c18a3dd19137374611fac26d0957f7fcd1941dcb0dd7dee8aa77373e23int);
}

/// The next powers.
proof fn lemma_powers_17(x: int)
    requires
        fp::vanishes(curve::cubic(x)),
        power_is(x, 0x1fffffffe000000020000000000000000int,
            0x377e23dedd24f3552bd0543b9616b2031ac7774ff03fa10e86c92fafac651b52int,
            0xee8974b31bcd62e0cb78962fe7d984f9dea6f87161b1707f67925d30d3f97a5eint,
            0x5b40f2c18a3dd19137374611fac26d0957f7fcd1941dcb0dd7dee8aa77373e23int),
    ensures
        power_is(x, 0x1fffffffe00000002000000000000000000int,
            0xf84905e094235baeb8fa1d5d8fc74e2ce5a4db388882873eeb6083b8705290bdint,
            0xda2b08fdc369d136ee0b9ff2d4e1f00ab0efd93c8e8b941ba570863df65b1d1bint,
            0xceeba9708d0f1c78b8b07b6bfdb329e829deb3208bdf0e126f561a829ef3f46eint),
{
    lemma_double(x, 0x1fffffffe000000020000000000000000int,
        0x377e23dedd24f3552bd0543b9616b2031ac7774ff03fa10e86c92fafac651b52int,
        0xee8974b31bcd62e0cb78962fe7d984f9dea6f87161b1707f67925d30d3f97a5eint,
        0x5b40f2c18a3dd19137374611fac26d0957f7fcd1941dcb0dd7dee8aa77373e23int,
        0x5678f84994c6f59bd8efb4819edc67c55f1c9d128cd7f5c83ce0241039a91bb5int,
        0x41d055dbd8efe7572809df5115e2117c316bd2cb7a25817522921d961ddd46baint,
        0x625a211a6887d78a2157cf2955fa5f904ec9d2e1eff9bcc0c670b35b0d2e4700int);
    lemma_double(x, 0x3fffffffc000000040000000000000000int,
        0x5678f84994c6f59bd8efb4819edc67c55f1c9d128cd7f5c83ce0241039a91bb5int,
        0x41d055dbd8efe7572809df5115e2117c316bd2cb7a25817522921d961ddd46baint,
        0x625a211a6887d78a2157cf2955fa5f904ec9d2e1eff9bcc0c670b35b0d2e4700int,
        0x34cca1aa85a584364629253f2b474fb1d3878ad20d38bf5c29c7c6e127c0ed7dint,
        0x8dc6841d19262c6e6e0cb3d56fecec69e1ce57e52ff356484e19fb76655c72adint,
        0x161fb0609644d766726036741e57c624b54640755880febe08643aaae3aca4b0int);
    lemma_double(x, 0x7fffffff8000000080000000000000000int,
        0x34cca1aa85a584364629253f2b474fb1d3878ad20d38bf5c29c7c6e127c0ed7dint,
        0x8dc6841d19262c6e6e0cb3d56fecec69e1ce57e52ff356484e19fb76655c72adint,
        0x161fb0609644d766726036741e57c624b54640755880febe08643aaae3aca4b0int,
        0x337c7b29ea305f1646657f19435b41da2c791998851a45935c57e1cf7394b22fint,
        0x9a1d1f62ea1f78781fdd9c1e1ec95aac9dda31ac76ff38947b83d0c9ab2ef12bint,
        0x488e669c214b0a3aa110c3a33f12b36c6e55570d6b732382b4d50ba5ddcdae1eint);
    lemma_double(x, 0xffffffff0000000100000000000000000int,
        0x337c7b29ea305f1646657f19435b41da2c791998851a45935c57e1cf7394b22fint,
        0x9a1d1f62ea1f78781fdd9c1e1ec95aac9dda31ac76ff38947b83d0c9ab2ef12bint,
        0x488e669c214b0a3aa110c3a33f12b36c6e55570d6b732382b4d50ba5ddcdae1eint,
        0x3c843b2cc5d641f605a06a333c8532aba6f07d280e0ae08020ade795b99d1f5dint,
        0xe167215766b91fc9c4781a53dd8c11d3c6bcdd474f385545d42d16f1a3e7bbf4int,
        0x903420b52dda376974d9a9f5f739d6b40cd19714e57f6f89fd1557110de1df25int);
    lemma_double(x, 0x1fffffffe0000000200000000000000000int,
        0x3c843b2cc5d641f605a06a333c8532aba6f07d280e0ae08020ade795b99d1f5dint,
        0xe167215766b91fc9c4781a53dd8c11d3c6bcdd474f385545d42d16f1a3e7bbf4int,
        0x903420b52dda376974d9a9f5f739d6b40cd19714e57f6f89fd1557110de1df25int,
        0x88fafd14527700c044df618a28815f79489494d8f8b80fcd0dc7b9b32dc52284int,
        0xf5cef05a86c792f2a2483268eb32c52d44bc8bcf029688ffe17ecf8f5ae80cddint,
        0xd6295e08f4e9221a11b88452c05c93ae0151e9b9444ce506038bf9b6feb5eee3int);
    lemma_double(x, 0x3fffffffc0000000400000000000000000int,
        0x88fafd14527700c044df618a28815f79489494d8f8b80fcd0dc7b9b32dc52284int,
        0xf5cef05a86c792f2a2483268eb32c52d44bc8bcf029688ffe17ecf8f5ae80cddint,
        0xd6295e08f4e9221a11b88452c05c93ae0151e9b9444ce506038bf9b6feb5eee3int,
        0x697e4055476b0d61af6daf7dfd773eeed3f7bd09cac4907c807517c237eae757int,
        0x95b5621ed34cbdb4bb7cb36964e5d074f2507d2cd71b6f67330d2333d4ae49fdint,
        0xde81d65e735eb1c0d4538c863d5dd17751a70739454d5c9669633a4f5b4571b2int);
    lemma_double(x, 0x7fffffff80000000800000000000000000int,
        0x697e4055476b0d61af6daf7dfd773eeed3f7bd09cac4907c807517c237eae757int,
        0x95b5621ed34cbdb4bb7cb36964e5d074f2507d2cd71b6f67330d2333d4ae49fdint,
        0xde81d65e735eb1c0d4538c863d5dd17751a70739454d5c9669633a4f5b4571b2int,
        0x8faa6da752016baf0c8522dc6ee15979a25a3473eb1d7d28091e3935a9bf9b6fint,
        0xef864ba2cb14bd58914e72fa863216bcfb8af0aca0445c584aa89feb9219245int,
        0x10c4d273f9329bd66b7257d6db2bf4bee3bbc481048706b81581dcca384753c2int);
    lemma_double(x, 0xffffffff00000001000000000000000000int,
        0x8faa6da752016baf0c8522dc6ee15979a25a3473eb1d7d28091e3935a9bf9b6fint,
        0xef864ba2cb14bd58914e72fa863216bcfb8af0aca0445c584aa89feb9219245int,
        0x10c4d273f9329bd66b7257d6db2bf4bee3bbc481048706b81581dcca384753c2int,
        0xf84905e094235baeb8fa1d5d8fc74e2ce5a4db388882873eeb6083b8705290bdint,
        0xda2b08fdc369d136ee0b9ff2d4e1f00ab0efd93c8e8b941ba570863df65b1d1bint,
        0xceeba9708d0f1c78b8b07b6bfdb329e829deb3208bdf0e126f561a829ef3f46eint);
}

/// The next powers.
proof fn lemma_powers_18(x: int)
    requires
        fp::vanishes(curve::cubic(x)),
        power_is(x, 0x1fffffffe00000002000000000000000000int,
            0xf84905e094235baeb8fa1d5d8fc74e2ce5a4db388882873eeb6083b8705290bdint,
            0xda2b08fdc369d136ee0b9ff2d4e1f00ab0efd93c8e8b941ba570863df65b1d1bint,
            0xceeba9708d0f1c78b8b07b6bfdb329e829deb3208bdf0e126f561a829ef3f46eint),
    ensures
        power_is(x, 0x1fffffffe0000000200000000000000000000int,
            0x9fe40baa475c01727bac7637a97bce94ae28a6032760ffa4bdd9f04622d01580int,
            0x2312049bf832307d39a351fcc0e2bdf566f8bf9a00286da469436b56349d6563int,
            0xf47121c0a8ab88536ab2853b6a80f660bf394f98ac455cc0a9331220b9d2ea9aint),
{
    lemma_double(x, 0x1fffffffe00000002000000000000000000int,
        0xf84905e094235baeb8fa1d5d8fc74e2ce5a4db388882873eeb6083b8705290bdint,
        0xda2b08fdc369d136ee0b9ff2d4e1f00ab0efd93c8e8b941ba570863df65b1d1bint,
        0xceeba9708d0f1c78b8b07b6bfdb329e829deb3208bdf0e126f561a829ef3f46eint,
        0x253754cbfaa7f945e4e3ff7a54327affdc36167db19ed54937a465f01e379a65int,
        0xc2d3d3f5b955bea4a004caff1f808a558e53469ecd5f315727ff8349a84b0dd7int,
        0x57b3eff24ef42995f92111f34499a3d2662309297b42122e4e00603a6d09b510int);
    lemma_double(x, 0x3fffffffc00000004000000000000000000int,
        0x253754cbfaa7f945e4e3ff7a54327affdc36167db19ed54937a465f01e379a65int,
        0xc2d3d3f5b955bea4a004caff1f808a558e53469ecd5f315727ff8349a84b0dd7int,
        0x57b3eff24ef42995f92111f34499a3d2662309297b42122e4e00603a6d09b510int,
        0x693b7cdc44e73fd24eb4159affb1661b20d06d4f36e8959f5ab2460918414537int,
        0x863c1bd702d9013ec452962f8cbca60845a0bc76061a00b0413862a4f13d7b03int,
        0x5b80a9cfb6dc35e349656c638850e09bc993cdf4ceab1071d9cfacde772d988eint);
    lemma_double(x, 0x7fffffff800000008000000000000000000int,
        0x693b7cdc44e73fd24eb4159affb1661b20d06d4f36e8959f5ab2460918414537int,
        0x863c1bd702d9013ec452962f8cbca60845a0bc76061a00b0413862a4f13d7b03int,
        0x5b80a9cfb6dc35e349656c638850e09bc993cdf4ceab1071d9cfacde772d988eint,
        0x42b4ee49d9e4bf66718f0f2bda6963e26f234674f89e444434729148323c7b8eint,
        0x21cc389e16d1909f85a6576f8af682c40d5d093d461e562de81b3024fa4066deint,
        0x457dc2ef10632beee36b5df732f0c51f05526a1de5869cfdb86045ab59cb9bf5int);
    lemma_double(x, 0xffffffff000000010000000000000000000int,
        0x42b4ee49d9e4bf66718f0f2bda6963e26f234674f89e444434729148323c7b8eint,
        0x21cc389e16d1909f85a6576f8af682c40d5d093d461e562de81b3024fa4066deint,
        0x457dc2ef10632beee36b5df732f0c51f05526a1de5869cfdb86045ab59cb9bf5int,
        0x64ec731ba65ff38cff52cde3f943a6500c7caf244ceb85cf4e4623043d660889int,
        0x1d7b5cefd7ff24e1df2cc2d5aa14db259aa34c63618d97646725d889209638f4int,
        0xd6a713906d43c39dba85df15791fa54c3deee94941f9eb32bcaeebbf218b1b8int);
    lemma_double(x, 0x1fffffffe000000020000000000000000000int,
        0x64ec731ba65ff38cff52cde3f943a6500c7caf244ceb85cf4e4623043d660889int,
        0x1d7b5cefd7ff24e1df2cc2d5aa14db259aa34c63618d97646725d889209638f4int,
        0xd6a713906d43c39dba85df15791fa54c3deee94941f9eb32bcaeebbf218b1b8int,
        0x8be3a11186e4274bd5ac1e7305a011e01d2ffe7e99902d37f0ccb1dd4287df36int,
        0x19deb92bf67445b4a99f81fee05a76eb754aa8614be738155ada5c0be76279f3int,
        0xec8f2c80278737119c74a0ade48224538c9f06fa606bff6f6f1089dea00b936eint);
    lemma_double(x, 0x3fffffffc000000040000000000000000000int,
        0x8be3a11186e4274bd5ac1e7305a011e01d2ffe7e99902d37f0ccb1dd4287df36int,
        0x19deb92bf67445b4a99f81fee05a76eb754aa8614be738155ada5c0be76279f3int,
        0xec8f2c80278737119c74a0ade48224538c9f06fa606bff6f6f1089dea00b936eint,
        0xf4a40cc0e4c231eead26584edfc954327433045097893c163a3e1881f356a746int,
        0x79ee324b2e5c81c5940cdf6ff9cee93b4f5a8a5a541a59841959453e96362b4bint,
        0xf81f6934813eb0ab1d45ae5b64a4bcacc6575fb20da8c0f740fb85b4a88b516aint);
    lemma_double(x, 0x7fffffff8000000080000000000000000000int,
        0xf4a40cc0e4c231eead26584edfc954327433045097893c163a3e1881f356a746int,
        0x79ee324b2e5c81c5940cdf6ff9cee93b4f5a8a5a541a59841959453e96362b4bint,
        0xf81f6934813eb0ab1d45ae5b64a4bcacc6575fb20da8c0f740fb85b4a88b516aint,
        0x282a60b63ebfba8ec7c56c33741fdba38bc090219deaa6f4ca901856547cf295int,
        0xe4056268c94a2defa294014e0349e84825ffd2ebfc10d2396a5ab6f4724cd46cint,
        0x77dbf502e4e89de28dc40ea397c09f2b7f2b0be481e6dd152aec455a4f6192f0int);
    lemma_double(x, 0xffffffff0000000100000000000000000000int,
        0x282a60b63ebfba8ec7c56c33741fdba38bc090219deaa6f4ca901856547cf295int,
        0xe4056268c94a2defa294014e0349e84825ffd2ebfc10d2396a5ab6f4724cd46cint,
        0x77dbf502e4e89de28dc40ea397c09f2b7f2b0be481e6dd152aec455a4f6192f0int,
        0x9fe40baa475c01727bac7637a97bce94ae28a6032760ffa4bdd9f04622d01580int,
        0x2312049bf832307d39a351fcc0e2bdf566f8bf9a00286da469436b56349d6563int,
        0xf47121c0a8ab88536ab2853b6a80f660bf394f98ac455cc0a9331220b9d2ea9aint);
}

/// The next powers.
proof fn lemma_powers_19(x: int)
    requires
        fp::vanishes(curve::cubic(x)),
        power_is(x, 0x1fffffffe0000000200000000000000000000int,
            0x9fe40baa475c01727bac7637a97bce94ae28a6032760ffa4bdd9f04622d01580int,
            0x2312049bf832307d39a351fcc0e2bdf566f8bf9a00286da469436b56349d6563int,
            0xf47121c0a8ab88536ab2853b6a80f660bf394f98ac455cc0a9331220b9d2ea9aint),
    ensures
        power_is(x, 0x1fffffffe000000020000000000000000000000int,
            0xead29195a6624242bb359b5379c04f8b2ac453165fc526a355687cdf6f0bb5e0int,
            0x2f29f326a029d9d142fe68b13abaf26e853bf08cac3b4516599405d2caec0d28int,
            0x571ec7d83a374b1e30330ad6086d658f1c9dba64ec4c5d91328c4807150453feint),
{
    lemma_double(x, 0x1fffffffe0000000200000000000000000000int,
        0x9fe40baa475c01727bac7637a97bce94ae28a6032760ffa4bdd9f04622d01580int,
        0x2312049bf832307d39a351fcc0e2bdf566f8bf9a00286da469436b56349d6563int,
        0xf47121c0a8ab88536ab2853b6a80f660bf394f98ac455cc0a9331220b9d2ea9aint,
        0xf92e7c07b4f05d7ce2b297d16ad2bfd95cee6a04b48c3e5f96e0a1bc0df54677int,
        0x6125fcd52970fc843f9775bbe7332dff15f23cfacf54b45e56ba851db059aa1int,
        0xddd3380db228e103e1d93c4711829158a83332c2a70a69546d0ed4cc393d39aint);
    lemma_double(x, 0x3fffffffc0000000400000000000000000000int,
        0xf92e7c07b4f05d7ce2b297d16ad2bfd95cee6a04b48c3e5f96e0a1bc0df54677int,
        0x6125fcd52970fc843f9775bbe7332dff15f23cfacf54b45e56ba851db059aa1int,
        0xddd3380db228e103e1d93c4711829158a83332c2a70a69546d0ed4cc393d39aint,
        0x45c923fc68e92e3d6af1849a1b9bc0049377b8005de7419c3cb48c0c1682112eint,
        0x23338e5e5409f3f2731cce2d6ab960d6a436a578b49776f8c5927c5db24a39e7int,
        0x70ddbe17c404c2ffe8493f904489147defd925b01675cc7160b07a0ed6ed5366int);
    lemma_double(x, 0x7fffffff80000000800000000000000000000int,
        0x45c923fc68e92e3d6af1849a1b9bc0049377b8005de7419c3cb48c0c1682112eint,
        0x23338e5e5409f3f2731cce2d6ab960d6a436a578b49776f8c5927c5db24a39e7int,
        0x70ddbe17c404c2ffe8493f904489147defd925b01675cc7160b07a0ed6ed5366int,
        0xc451e18a9e3f0095272b71976676d09cbd60167bc4743d0d2db170891b9a10bint,
        0x8bed5fbfb3deb32c7300820c5e895933fe148bfacda63cdce6f6ac481f3bd5e1int,
        0xa0a07c4309abe129f443a9e549e7478dbb9ffc2fb784f136bf068c9996632f90int);
    lemma_double(x, 0xffffffff00000001000000000000000000000int,
        0xc451e18a9e3f0095272b71976676d09cbd60167bc4743d0d2db170891b9a10bint,
        0x8bed5fbfb3deb32c7300820c5e895933fe148bfacda63cdce6f6ac481f3bd5e1int,
        0xa0a07c4309abe129f443a9e549e7478dbb9ffc2fb784f136bf068c9996632f90int,
        0xc256ff3b2f0d6dabd18075d73e1493b11cd9a5b40b7696edc6ed294f4709fa04int,
        0x5895ef140d3bb2856dd9b0cb56ee5fe192168a91d368d2bc5c623e249511024cint,
        0xb6801100eb9ac5f21b13d6c2d0daa01969479e539594947dd248f354bc9a5712int);
    lemma_double(x, 0x1fffffffe00000002000000000000000000000int,
        0xc256ff3b2f0d6dabd18075d73e1493b11cd9a5b40b7696edc6ed294f4709fa04int,
        0x5895ef140d3bb2856dd9b0cb56ee5fe192168a91d368d2bc5c623e249511024cint,
        0xb6801100eb9ac5f21b13d6c2d0daa01969479e539594947dd248f354bc9a5712int,
        0xc49572361d698604b72741ba426243ae6bfbd9eaed3d6de47f9a3474d995681bint,
        0x399e1cd706127dad1f312471ee295c630b14475b8b16f97ed02713dee86972f8int,
        0xce3c031c36dfc30f6ff0afa21e05e253970fa454107f473019d21ee4fd447e32int);
    lemma_double(x, 0x3fffffffc00000004000000000000000000000int,
        0xc49572361d698604b72741ba426243ae6bfbd9eaed3d6de47f9a3474d995681bint,
        0x399e1cd706127dad1f312471ee295c630b14475b8b16f97ed02713dee86972f8int,
        0xce3c031c36dfc30f6ff0afa21e05e253970fa454107f473019d21ee4fd447e32int,
        0x1f810ce029f7f0e30d397a0c214e7620e9379b96bb3513d6d4c65a6eda7eb858int,
        0x6b7fb7658546cecd8c54146d6d1f605d8e4967bc6d81c11907c87d0f7ce3f924int,
        0x43a66e886f777e5b3adc665dc4afb3f0800abf2f33ccf3ec6086d2785528b950int);
    lemma_double(x, 0x7fffffff800000008000000000000000000000int,
        0x1f810ce029f7f0e30d397a0c214e7620e9379b96bb3513d6d4c65a6eda7eb858int,
        0x6b7fb7658546cecd8c54146d6d1f605d8e4967bc6d81c11907c87d0f7ce3f924int,
        0x43a66e886f777e5b3adc665dc4afb3f0800abf2f33ccf3ec6086d2785528b950int,
        0xdd8b5d552778e5aca00828dabd1b8294e00595c083aef898576d225a1bd491f9int,
        0xd8ce43758872826216769bd28b3ef2eb2493690ca958ac27b0172867845a20bint,
        0x938eb9bf9a3caaf0fbff03b321c5a317cd2189dcba7ec28d840bb62dda148b6fint);
    lemma_double(x, 0xffffffff000000010000000000000000000000int,
        0xdd8b5d552778e5aca00828dabd1b8294e00595c083aef898576d225a1bd491f9int,
        0xd8ce43758872826216769bd28b3ef2eb2493690ca958ac27b0172867845a20bint,
        0x938eb9bf9a3caaf0fbff03b321c5a317cd2189dcba7ec28d840bb62dda148b6fint,
        0xead29195a6624242bb359b5379c04f8b2ac453165fc526a355687cdf6f0bb5e0int,
        0x2f29f326a029d9d142fe68b13abaf26e853bf08cac3b4516599405d2caec0d28int,
        0x571ec7d83a374b1e30330ad6086d658f1c9dba64ec4c5d91328c4807150453feint);
}

/// The next powers.
proof fn lemma_powers_20(x: int)
    requires
        fp::vanishes(curve::cubic(x)),
        power_is(x, 0x1fffffffe000000020000000000000000000000int,
            0xead29195a6624242bb359b5379c04f8b2ac453165fc526a355687cdf6f0bb5e0int,
            0x2f29f326a029d9d142fe68b13abaf26e853bf08cac3b4516599405d2caec0d28int,
            0x571ec7d83a374b1e30330ad6086d658f1c9dba64ec4c5d91328c4807150453feint),
    ensures
        power_is(x, 0x1fffffffe00000002000000000000000000000001int,
            0xe7ebc11b83a1d6816c21c56610b95eb93e64f27f028ffb400ba7fda039f88887int,
            0x2ffe28efc460382b1b77ef846f034fb93dafb5bdaa238b7c0d0060721a3f7d16int,
            0x5f17e6af209b39234c59d8127cbf69079eed4fe970c1b97fdf421a5948b889aeint),
{
    lemma_double(x, 0x1fffffffe000000020000000000000000000000int,
        0xead29195a6624242bb359b5379c04f8b2ac453165fc526a355687cdf6f0bb5e0int,
        0x2f29f326a029d9d142fe68b13abaf26e853bf08cac3b4516599405d2caec0d28int,
        0x571ec7d83a374b1e30330ad6086d658f1c9dba64ec4c5d91328c4807150453feint,
        0x8c2e99ba2bbfc7d6152676aea83751254193f7afdd096070c901c1fd22059176int,
        0xe0b23c894843d328c5d64cbc5ccf38965fdce94761d37d89482036ecea8c7d96int,
        0x7a8f88c79222efd2fffaffa1ada7368f2670a24854e48e01e0b0f7e81d8500f3int);
    lemma_double(x, 0x3fffffffc000000040000000000000000000000int,
        0x8c2e99ba2bbfc7d6152676aea83751254193f7afdd096070c901c1fd22059176int,
        0xe0b23c894843d328c5d64cbc5ccf38965fdce94761d37d89482036ecea8c7d96int,
        0x7a8f88c79222efd2fffaffa1ada7368f2670a24854e48e01e0b0f7e81d8500f3int,
        0x37fe9d938bbbfbfefdb3682feb91ebb529f54e7894c2ca4114bbf1bffaa6bfe2int,
        0x97c7fcec061cae60789027413a1ad7c5e26975d60682771e1c8584f78edfa7b9int,
        0xd0bad42d21f94d27a9629dddab258d1231aa602aa5d0d79a9840382939661d33int);
    lemma_double(x, 0x7fffffff8000000080000000000000000000000int,
        0x37fe9d938bbbfbfefdb3682feb91ebb529f54e7894c2ca4114bbf1bffaa6bfe2int,
        0x97c7fcec061cae60789027413a1ad7c5e26975d60682771e1c8584f78edfa7b9int,
        0xd0bad42d21f94d27a9629dddab258d1231aa602aa5d0d79a9840382939661d33int,
        0x6aa017ea1b373ab1a06ae7801a0eae86b3c1173447ad8bbba84ace102ead573dint,
        0xc40dd4063f52f2900f7d0fdcf7364db3c73a149b8d7049ee76bbb761177c40cfint,
        0xe8b9c6bf3e1e2bf9e10dfaa1f02aecad57e1017181451d30d9aa2088e9366fc6int);
    lemma_double(x, 0xffffffff0000000100000000000000000000000int,
        0x6aa017ea1b373ab1a06ae7801a0eae86b3c1173447ad8bbba84ace102ead573dint,
        0xc40dd4063f52f2900f7d0fdcf7364db3c73a149b8d7049ee76bbb761177c40cfint,
        0xe8b9c6bf3e1e2bf9e10dfaa1f02aecad57e1017181451d30d9aa2088e9366fc6int,
        0xdff1e3ed3d4128682ee922188323e30422e72ef04680ae96b4f38bab44d70182int,
        0x37c8f12bf9d1e48e3120da36286f69482ac387cb0d6054a24b079ba5a4803367int,
        0xe99c2ac21c74a3da358f6a1f8bf1eb072f91745a75db144c724ada1ef00d932eint);
    lemma_double(x, 0x1fffffffe0000000200000000000000000000000int,
        0xdff1e3ed3d4128682ee922188323e30422e72ef04680ae96b4f38bab44d70182int,
        0x37c8f12bf9d1e48e3120da36286f69482ac387cb0d6054a24b079ba5a4803367int,
        0xe99c2ac21c74a3da358f6a1f8bf1eb072f91745a75db144c724ada1ef00d932eint,
        0xbc35030dc47258181bc569f7327bba460dfa9024db42bee7aae1e703090dfe86int,
        0xf1ffcfaf42404d4af91d944abd0db02e0db41aa52be633a9540e79bd72665068int,
        0xb8472fe2ed8dc3e24af0956fda75021f7cac85ce8720e9b8b4b67f3e6f140f32int);
    lemma_double(x, 0x3fffffffc0000000400000000000000000000000int,
        0xbc35030dc47258181bc569f7327bba460dfa9024db42bee7aae1e703090dfe86int,
        0xf1ffcfaf42404d4af91d944abd0db02e0db41aa52be633a9540e79bd72665068int,
        0xb8472fe2ed8dc3e24af0956fda75021f7cac85ce8720e9b8b4b67f3e6f140f32int,
        0x74093fa5aded643dcc69d30b952fb07cc98207babe69a0c31720b4815457187bint,
        0xd27e8a6b0c4580c8ea14a51fcf830eba276409defcdd7ee2f9f91eb0d637b26dint,
        0x7dcdc2115096b0e1c33a896c81ecdfe42c700ac898acebadab0d3b9bb8a6177bint);
    lemma_double(x, 0x7fffffff80000000800000000000000000000000int,
        0x74093fa5aded643dcc69d30b952fb07cc98207babe69a0c31720b4815457187bint,
        0xd27e8a6b0c4580c8ea14a51fcf830eba276409defcdd7ee2f9f91eb0d637b26dint,
        0x7dcdc2115096b0e1c33a896c81ecdfe42c700ac898acebadab0d3b9bb8a6177bint,
        0x5effe5c1f25d3935fca2bab8632a05742076155e3c0531c5cb51f87c89fa2923int,
        0x84ec9c285ff0201a44b0d769d48f6d7ce39d4ff27ae5962ecbdd4afcd138af07int,
        0x5ad1aae1e26ea5ec45f49119a865c4fd8f461d34b144d8d73d390a8fe036c6f4int);
    lemma_double_add(x, 0xffffffff00000001000000000000000000000000int,
        0x5effe5c1f25d3935fca2bab8632a05742076155e3c0531c5cb51f87c89fa2923int,
        0x84ec9c285ff0201a44b0d769d48f6d7ce39d4ff27ae5962ecbdd4afcd138af07int,
        0x5ad1aae1e26ea5ec45f49119a865c4fd8f461d34b144d8d73d390a8fe036c6f4int,
        0xed43acbdd25167c7e5ba3bf254b409a69b1ab1c963a508a134d135f993664749int,
        0x5f17e6af209b39234c59d8127cbf69079eed4fe970c1b97fdf421a5948b889aeint,
        0x6b937ebaa604f021bc949130b36fc2063631abfcc22a2b9e480fb8d2d79dbc99int,
        0xe7ebc11b83a1d6816c21c56610b95eb93e64f27f028ffb400ba7fda039f88887int,
        0x2ffe28efc460382b1b77ef846f034fb93dafb5bdaa238b7c0d0060721a3f7d16int);
}

/// The next powers.
proof fn lemma_powers_21(x: int)
    requires
        fp::vanishes(curve::cubic(x)),
        power_is(x, 0x1fffffffe00000002000000000000000000000001int,
            0xe7ebc11b83a1d6816c21c56610b95eb93e64f27f028ffb400ba7fda039f88887int,
            0x2ffe28efc460382b1b77ef846f034fb93dafb5bdaa238b7c0d0060721a3f7d16int,
            0x5f17e6af209b39234c59d8127cbf69079eed4fe970c1b97fdf421a5948b889aeint),
    ensures
        power_is(x, 0x1fffffffe00000002000000000000000000000001ffint,
            0xa75642c51bfca550eebbd8e7c4ce1e6e618211cbb3f70e69a3038729103b02f1int,
            0x796146a72075ec503e56e45bb3926f653a19096ab22c3e7565e9f92ffe70b354int,
            0x7f649ead8e08792beb82ff17316afd181828c020b2fda88b15be0ff855fdcff5int),
{
    lemma_double_add(x, 0x1fffffffe00000002000000000000000000000001int,
        0xe7ebc11b83a1d6816c21c56610b95eb93e64f27f028ffb400ba7fda039f88887int,
        0x2ffe28efc460382b1b77ef846f034fb93dafb5bdaa238b7c0d0060721a3f7d16int,
        0x5f17e6af209b39234c59d8127cbf69079eed4fe970c1b97fdf421a5948b889aeint,
        0xee800259ea84819edcccec263d4e9345ba36f3c70f1e7c832605238df37fe954int,
        0x780eaf10f359b6ee7e4c47fc00904c7e75c2b2d1c02dad634f28095420f22561int,
        0xcaa82eb8dfa9bd7702c35ff225128fb400145b92e84afd19731c31c151a19820int,
        0x64b86ee730d98a4fd2099c92042789b871b9facd86a24a467518bf93b485a8aeint,
        0x4e788e878981ba00e5170bfcac864261ba74067cc7ff73cf7f59b8d1e864b1b7int);
    lemma_double_add(x, 0x3fffffffc00000004000000000000000000000003int,
        0x64b86ee730d98a4fd2099c92042789b871b9facd86a24a467518bf93b485a8aeint,
        0x4e788e878981ba00e5170bfcac864261ba74067cc7ff73cf7f59b8d1e864b1b7int,
        0x780eaf10f359b6ee7e4c47fc00904c7e75c2b2d1c02dad634f28095420f22561int,
        0x2ec3442aada44db11ff7f98c930d4fdfbe2102c7dc0c8be8f14dd9085ed9d333int,
        0xe205c822f700058ef2454bf130a55f4d6536c265412a7454252c063de6ea293fint,
        0xe4d372ea66ad657e2ce972c4864793b5780a42a433510ab986a8d9cd7001a635int,
        0x7fc32697b2d483e893ece4458e11aa3f15d3bc515ff9bdae33055c4ef3f853aeint,
        0xdd3d9cebe1ac7e29a6b451da25e40b00263fcab275ffac1585486670aedec5d4int);
    lemma_double_add(x, 0x7fffffff800000008000000000000000000000007int,
        0x7fc32697b2d483e893ece4458e11aa3f15d3bc515ff9bdae33055c4ef3f853aeint,
        0xdd3d9cebe1ac7e29a6b451da25e40b00263fcab275ffac1585486670aedec5d4int,
        0xe205c822f700058ef2454bf130a55f4d6536c265412a7454252c063de6ea293fint,
        0x4609e670988f282e65a2648b58ae444df0c862fbd28fe5d94dead4c48f96ed77int,
        0x72566ae46344f0021fe6d9e64943aa7a84cc61a23c2d3facc513b33403873824int,
        0x47e24e350b06cc94d5759af26535db6b3e914c84b47f65f37b6fc42f386f995aint,
        0x62bc0e9021d823aff751c3a463b0ca8eff4936d0ca9073346ce5c86a0ddb1326int,
        0x1db0d110b9a38debe6033562884fd68fac7c4888f00e17b3c03a215238e5b986int);
    lemma_double_add(x, 0xffffffff00000001000000000000000000000000fint,
        0x62bc0e9021d823aff751c3a463b0ca8eff4936d0ca9073346ce5c86a0ddb1326int,
        0x1db0d110b9a38debe6033562884fd68fac7c4888f00e17b3c03a215238e5b986int,
        0x72566ae46344f0021fe6d9e64943aa7a84cc61a23c2d3facc513b33403873824int,
        0x85908470bb89fc4ab2d4ae6a8fecf5741271e059b2ea8a546701c2e31b8dd4f7int,
        0x2f153b8c14d63c09e0edc4bf388c5ffd6e8d56d207bcabbdff2c87a9f3e2636eint,
        0x5e08616c4ca1779ee1c4a54acbf45e4712fb0d3f016602cdd541f12a70e6941dint,
        0xb004f0d0e80444d877e0bd079815d2d5bf2e9e6e28c9a36922ef30a13e1b4718int,
        0x9fa9a8b6a16e632658229e4af3ca10494b630815b71c92bde6c796626e41914fint);
    lemma_double_add(x, 0x1fffffffe00000002000000000000000000000001fint,
        0xb004f0d0e80444d877e0bd079815d2d5bf2e9e6e28c9a36922ef30a13e1b4718int,
        0x9fa9a8b6a16e632658229e4af3ca10494b630815b71c92bde6c796626e41914fint,
        0x2f153b8c14d63c09e0edc4bf388c5ffd6e8d56d207bcabbdff2c87a9f3e2636eint,
        0x561b9e5cac2db9d81dc3e824119643ca1809f414aafa1fd736627c3a215573e0int,
        0xf443d7ba11a8e5f4fd0070988a5b1bde20388d1aa3537239f89b274629cbb6a6int,
        0x7c337a75cc8dc6a0d440faf1e88cb85f79a322fdf2a48193feb3cc43320beb7bint,
        0xdceb61b9fbac0d396c6dbbc7049714947d56327b40e17b6409b4da5d510a0eebint,
        0xcab60dbf11d70db99a86d8f9cb3c6ce884f35d0d82e7a493327de103b7793652int);
    lemma_double_add(x, 0x3fffffffc00000004000000000000000000000003fint,
        0xdceb61b9fbac0d396c6dbbc7049714947d56327b40e17b6409b4da5d510a0eebint,
        0xcab60dbf11d70db99a86d8f9cb3c6ce884f35d0d82e7a493327de103b7793652int,
        0xf443d7ba11a8e5f4fd0070988a5b1bde20388d1aa3537239f89b274629cbb6a6int,
        0x198ee830766ac69f361b80d72b8e6e96063b4594af4fddbcd22f0935e245f033int,
        0xd8340b3d0237649dff11bc66c6b38a952ff4fe9acd4a34eaf6ac81e672154299int,
        0x7c806cabbacb88a04f19e2b630186c0a4386a548a18dd60b22c481a5ead6d4e1int,
        0x25c265f2b9d417f33ce30c1c4b1c787fab7412729598fd92ca89c42d21329b59int,
        0x8f102e34a6cd607f236928f9bbd7b2b4d0cf356d93f95fde3a7c8e27a2ca6ed7int);
    lemma_double_add(x, 0x7fffffff800000008000000000000000000000007fint,
        0x25c265f2b9d417f33ce30c1c4b1c787fab7412729598fd92ca89c42d21329b59int,
        0x8f102e34a6cd607f236928f9bbd7b2b4d0cf356d93f95fde3a7c8e27a2ca6ed7int,
        0xd8340b3d0237649dff11bc66c6b38a952ff4fe9acd4a34eaf6ac81e672154299int,
        0x8454b3e685f3179206df40898169dca2cdf460e42745a3147fc9587422c4bec8int,
        0x74a8eeed6a5fc6e8ff1dedf22d357847fb57ac4fbad72446d46f27e9bb3fac95int,
        0xfa7a5c0125b1a48b3657df403362afd90c28ff557e9e982c24741214a8e01ad2int,
        0xe418991978d2ee31ffb3ae8d789b169cfa131f390a169002560a05dad61e54efint,
        0x73c3c7ecf7080530a9e6de4a1b91ec2df26f5ee1a3216b98ed258eb21d650f41int);
    lemma_double_add(x, 0xffffffff00000001000000000000000000000000ffint,
        0xe418991978d2ee31ffb3ae8d789b169cfa131f390a169002560a05dad61e54efint,
        0x73c3c7ecf7080530a9e6de4a1b91ec2df26f5ee1a3216b98ed258eb21d650f41int,
        0x74a8eeed6a5fc6e8ff1dedf22d357847fb57ac4fbad72446d46f27e9bb3fac95int,
        0xba1fa1a24a507246dc25e5b4b6207dd2c09a64ac86cc824fc33932bcca1ba3a4int,
        0x7f649ead8e08792beb82ff17316afd181828c020b2fda88b15be0ff855fdcff5int,
        0xea6b37009cb728aecb65aa37a9d0a5db7dd4e195b91fe961e0e5977bbc1c5a8fint,
        0xa75642c51bfca550eebbd8e7c4ce1e6e618211cbb3f70e69a3038729103b02f1int,
        0x796146a72075ec503e56e45bb3926f653a19096ab22c3e7565e9f92ffe70b354int);
}

/// The next powers.
proof fn lemma_powers_22(x: int)
    requires
        fp::vanishes(curve::cubic(x)),
        power_is(x, 0x1fffffffe00000002000000000000000000000001ffint,
            0xa75642c51bfca550eebbd8e7c4ce1e6e618211cbb3f70e69a3038729103b02f1int,
            0x796146a72075ec503e56e45bb3926f653a19096ab22c3e7565e9f92ffe70b354int,
            0x7f649ead8e08792beb82ff17316afd181828c020b2fda88b15be0ff855fdcff5int),
    ensures
        power_is(x, 0x1fffffffe00000002000000000000000000000001ffffint,
            0x76266e6857cad001aaf17c01ffe8625f84b4abe34774dcf25cd7d758aa66988fint,
            0x95c8ed4fb9b4a2b86475aad2fbb02ac899ba33d51edec7b959c469c7acf16059int,
            0xe1d87957ff1ce4f603c7fcc4425e9f74da2417e5cfd50cdad6179c39c49e5d0cint),
{
    lemma_double_add(x, 0x1fffffffe00000002000000000000000000000001ffint,
        0xa75642c51bfca550eebbd8e7c4ce1e6e618211cbb3f70e69a3038729103b02f1int,
        0x796146a72075ec503e56e45bb3926f653a19096ab22c3e7565e9f92ffe70b354int,
        0x7f649ead8e08792beb82ff17316afd181828c020b2fda88b15be0ff855fdcff5int,
        0xf07a8d3b8f15ef681a4f761c4f52d301572a18b315b37d6af58f4c7fefa809bbint,
        0x30aabae3819d6dcf69ae06e7f08a6ce6210c0d8f106b7775422b37212cd23f45int,
        0xfa72c7875b6fdc10d6e32d88cfcbd46024da4d3ba68bfa6d4ffe29f72cadfd54int,
        0x7a9f65b7f6e51ee603bc096b04c5c908b31ec3a2855a1e670104b137e4e9bc40int,
        0xdfd2e3d4a16583979ef8feb6beb65021c5b9006309576cb2e589ca6575b201baint);
    lemma_double_add(x, 0x3fffffffc00000004000000000000000000000003ffint,
        0x7a9f65b7f6e51ee603bc096b04c5c908b31ec3a2855a1e670104b137e4e9bc40int,
        0xdfd2e3d4a16583979ef8feb6beb65021c5b9006309576cb2e589ca6575b201baint,
        0x30aabae3819d6dcf69ae06e7f08a6ce6210c0d8f106b7775422b37212cd23f45int,
        0x27c136f7919710163a83736512b2dc051238d61a298951745ac6e37751f5bd55int,
        0x21dc7ded96d51bebdeaf3d9d81c3d275b60893c7bea737a75a843d6a79a10252int,
        0xdec9d12e7f533decc924593563c6be0f643cc05bc1ef62c208c27bd67ff7535eint,
        0xeca59dabc514c6e8703991d9fde5d7a19334477e43b604fad491f4f88c893eadint,
        0xc41eaa850f90c9da95f07f053e0716333eef172b6f5779ba750e56fad1dbb771int);
    lemma_double_add(x, 0x7fffffff800000008000000000000000000000007ffint,
        0xeca59dabc514c6e8703991d9fde5d7a19334477e43b604fad491f4f88c893eadint,
        0xc41eaa850f90c9da95f07f053e0716333eef172b6f5779ba750e56fad1dbb771int,
        0x21dc7ded96d51bebdeaf3d9d81c3d275b60893c7bea737a75a843d6a79a10252int,
        0x3521fce43f6759efbd14fcefd9ea32e9edc310986d4e7d3ff8748366cae3db9dint,
        0x80c16da77ec5a7277fa9b734b71d5e4dbc84c21ae2ea9309a9e182db85ffdd93int,
        0xbdd0e9af0a5a2b01b87952531e141996e0626f7b08823ea70e4ac1fc4f365eefint,
        0x5fda7fa9985b67cd2d6b4d8b55ab545435071cf0003827f721fe645e75f10a3cint,
        0x6e94b9f35e75daf2e680f3e934267fae8eea5f0786d539352354c95bb886f86cint);
    lemma_double_add(x, 0xffffffff00000001000000000000000000000000fffint,
        0x5fda7fa9985b67cd2d6b4d8b55ab545435071cf0003827f721fe645e75f10a3cint,
        0x6e94b9f35e75daf2e680f3e934267fae8eea5f0786d539352354c95bb886f86cint,
        0x80c16da77ec5a7277fa9b734b71d5e4dbc84c21ae2ea9309a9e182db85ffdd93int,
        0x86174f384b10eee1b68d3191e75f81aba13415bb6d67800fac59afc28734b81int,
        0x4a4f026156f46219f8966b1201ed1e8f0cbc0cd3a5d360f5a62f472f544bb315int,
        0x177587198107c1590d3e5f05e096e027a3447526a8f7c32266591cfa305f24dfint,
        0x238466b74943fb65ee0522d8d497c8c99f0bc793bac592356fa555944be1f069int,
        0x4ec20a4007c852f94323f02ac03a9891a3e0a0cfb1bdc1682dd0f1eab990ba1eint);
    lemma_double_add(x, 0x1fffffffe00000002000000000000000000000001fffint,
        0x238466b74943fb65ee0522d8d497c8c99f0bc793bac592356fa555944be1f069int,
        0x4ec20a4007c852f94323f02ac03a9891a3e0a0cfb1bdc1682dd0f1eab990ba1eint,
        0x4a4f026156f46219f8966b1201ed1e8f0cbc0cd3a5d360f5a62f472f544bb315int,
        0xfb20eb8b1eb9a086753a5cbccf2cf931aba4dc0246008eaffd7644dfc8c62e4bint,
        0xeaf27f322e4dfa80ece94b962b185e5e8a557225b99c210626b7495dade759baint,
        0x7e6fe4f8bb7cde452184dfc3ce2168b9e1c23896aa79f8fc9b73d7ce0d58e10eint,
        0x1afc5d6e5d22042810cfee16499f985c0ed85ef2c3fe12b14c8fc98f538bafb9int,
        0x76709a7751303b53d9c8fc083991335f50eb85c4456e79a5cfd1cc49f0d0d177int);
    lemma_double_add(x, 0x3fffffffc00000004000000000000000000000003fffint,
        0x1afc5d6e5d22042810cfee16499f985c0ed85ef2c3fe12b14c8fc98f538bafb9int,
        0x76709a7751303b53d9c8fc083991335f50eb85c4456e79a5cfd1cc49f0d0d177int,
        0xeaf27f322e4dfa80ece94b962b185e5e8a557225b99c210626b7495dade759baint,
        0x1bd45cf7fe9096a00d2f28b5f7ffb96fe221da0433d4c865ac3592cb50bda323int,
        0xce53110dc3930fdb9dd6243278dcd462ce2bf69225e48d7c1b51401747db46e7int,
        0xc8988a008bb2f52183df65b416fc43df4bbbac62e42baa495906ea75faa21e46int,
        0x8440d24fe02c00339676a82e8c992835768ac9fc2595a45e4d609c7b86425c84int,
        0x759dfafba1a9760298cd59d23cf4850dc554df2ae057c741b74a522d40a3fdf7int);
    lemma_double_add(x, 0x7fffffff800000008000000000000000000000007fffint,
        0x8440d24fe02c00339676a82e8c992835768ac9fc2595a45e4d609c7b86425c84int,
        0x759dfafba1a9760298cd59d23cf4850dc554df2ae057c741b74a522d40a3fdf7int,
        0xce53110dc3930fdb9dd6243278dcd462ce2bf69225e48d7c1b51401747db46e7int,
        0xce7cd213f127a19ac9dd788ad2748ca48e18c0dc56d2cdf7e96df74f338dc346int,
        0x456681dd1607a852d7a75c9c4790048ecaf06f2d8f02bf9a8b4d6dd04675d614int,
        0xb37e5c0c841afc093205c0f955e721de3b5da674a363141e975cc05278696109int,
        0x4aac479badade18a86c18870b3393d27cb06ce43077c37c181319a56bec55f0int,
        0xe8f7e63b7d7895b45feebb76d429f23f4031b43840fc0a53af8438469cc9e663int);
    lemma_double_add(x, 0xffffffff00000001000000000000000000000000ffffint,
        0x4aac479badade18a86c18870b3393d27cb06ce43077c37c181319a56bec55f0int,
        0xe8f7e63b7d7895b45feebb76d429f23f4031b43840fc0a53af8438469cc9e663int,
        0x456681dd1607a852d7a75c9c4790048ecaf06f2d8f02bf9a8b4d6dd04675d614int,
        0xc44194b7d8736e6e98a63037d9c32e85733add8d66033064c62c890555e74261int,
        0xe1d87957ff1ce4f603c7fcc4425e9f74da2417e5cfd50cdad6179c39c49e5d0cint,
        0x45d7c8324b15bc18ee9a7e33b5f9a96bb77fc76d92f3dd1c3132a040c7ae09fdint,
        0x76266e6857cad001aaf17c01ffe8625f84b4abe34774dcf25cd7d758aa66988fint,
        0x95c8ed4fb9b4a2b86475aad2fbb02ac899ba33d51edec7b959c469c7acf16059int);
}

/// The next powers.
proof fn lemma_powers_23(x: int)
    requires
        fp::vanishes(curve::cubic(x)),
        power_is(x, 0x1fffffffe00000002000000000000000000000001ffffint,
            0x76266e6857cad001aaf17c01ffe8625f84b4abe34774dcf25cd7d758aa66988fint,
            0x95c8ed4fb9b4a2b86475aad2fbb02ac899ba33d51edec7b959c469c7acf16059int,
            0xe1d87957ff1ce4f603c7fcc4425e9f74da2417e5cfd50cdad6179c39c49e5d0cint),
    ensures
        power_is(x, 0x1fffffffe00000002000000000000000000000001ffffffint,
            0xe0dcae19e0db9aa5765548039a6c99445cfd0037f4bbdbe14e9997d4ea6e75cdint,
            0x51ab60b23dfc890fae700c7e1c0f617d696292fd4c26148ee3b64e11c5287951int,
            0xe98b800667a8d3659720e0c92186e1e73b91dc7b4d774ef523dde1ed76c5e4fcint),
{
    lemma_double_add(x, 0x1fffffffe00000002000000000000000000000001ffffint,
        0x76266e6857cad001aaf17c01ffe8625f84b4abe34774dcf25cd7d758aa66988fint,
        0x95c8ed4fb9b4a2b86475aad2fbb02ac899ba33d51edec7b959c469c7acf16059int,
        0xe1d87957ff1ce4f603c7fcc4425e9f74da2417e5cfd50cdad6179c39c49e5d0cint,
        0xd9d9420edc69f9dc8303e987c3d642286ba0c999e6d8ae1b05c7cad6e310277bint,
        0x39543fe196975e30e6a749a3e983f18ca998f93b4ced0e7383390b8e4d0ed7f5int,
        0xfbd712066eec555fc41901ef933635d6c12df4319a5adb9c59b5ed0771a2689dint,
        0xc3057df817f85c16f80a83ac5982130eec02217ca572a64ae33d00cad4f2d49eint,
        0xcd5e7825292ef9f8cf4eef567d78e3acaf2aa62bb5e940f012e991ed37f76155int);
    lemma_double_add(x, 0x3fffffffc00000004000000000000000000000003ffffint,
        0xc3057df817f85c16f80a83ac5982130eec02217ca572a64ae33d00cad4f2d49eint,
        0xcd5e7825292ef9f8cf4eef567d78e3acaf2aa62bb5e940f012e991ed37f76155int,
        0x39543fe196975e30e6a749a3e983f18ca998f93b4ced0e7383390b8e4d0ed7f5int,
        0xbc41239beed4c4456bfbd924f382095a0fc20439f6a6c0eecd065b224f292bf3int,
        0x51e283173e8c2c8d51441177d3a9b25d7c0b3eaaad0b812897dfa5bed220d1c6int,
        0x82eff5fa20bbcf781aa9a3284a390801039e6869cd713994edc9c21c08916655int,
        0xdb6d9331b1bbfcdac47dc379f313808e9453b740007f7252f3b590ed29838dfint,
        0x4511058c510832abbbf8c29dd22d215d1a9d3d755efa6dad9663a17668dd5ef4int);
    lemma_double_add(x, 0x7fffffff800000008000000000000000000000007ffffint,
        0xdb6d9331b1bbfcdac47dc379f313808e9453b740007f7252f3b590ed29838dfint,
        0x4511058c510832abbbf8c29dd22d215d1a9d3d755efa6dad9663a17668dd5ef4int,
        0x51e283173e8c2c8d51441177d3a9b25d7c0b3eaaad0b812897dfa5bed220d1c6int,
        0xe78e9f0967802f2609120b82d4bbf30945b274ab06d54141649595f0a6f1d894int,
        0x1dcf2a500edc6a0bb8848627a0327581aca9e418a70145ce1d3efcb0375454ffint,
        0xeebeab361cddf99111289b865f7337d37f1d874ee506cc6fbce1d91571d23108int,
        0x7289d1390ca5dc0960685d37511c323cb1b97890c2b13ed6f678e7e9abb24cafint,
        0xb3caa0aebe1a1bd63c8bde15f3159a83c30b0a94b5e9a6909b3b2130fc686bafint);
    lemma_double_add(x, 0xffffffff00000001000000000000000000000000fffffint,
        0x7289d1390ca5dc0960685d37511c323cb1b97890c2b13ed6f678e7e9abb24cafint,
        0xb3caa0aebe1a1bd63c8bde15f3159a83c30b0a94b5e9a6909b3b2130fc686bafint,
        0x1dcf2a500edc6a0bb8848627a0327581aca9e418a70145ce1d3efcb0375454ffint,
        0xa6264f54303b0ec216458f726fd4ec2f263713effff045b3aef7edd3b2880ee3int,
        0xb72048429ebe232c251fcbc15b37f432373890d632af8062378ebb79aead05b7int,
        0x53f45180aa9e3f9e6eacc04cf714e00001b71c2a37b068d121760716ce0a5d26int,
        0x3dd77594fe8cc39536af99310f007cb2ec9cfe1d709c33b007152e0df7f44e99int,
        0xa20343d73015cd9c624bd05955138c2f2b5c686da7018027135a03181ca72656int);
    lemma_double_add(x, 0x1fffffffe00000002000000000000000000000001fffffint,
        0x3dd77594fe8cc39536af99310f007cb2ec9cfe1d709c33b007152e0df7f44e99int,
        0xa20343d73015cd9c624bd05955138c2f2b5c686da7018027135a03181ca72656int,
        0xb72048429ebe232c251fcbc15b37f432373890d632af8062378ebb79aead05b7int,
        0x20f505130fd1324bfd30c571a09922e76c0bdfc043ab5ccb5fd338ee2c927ed6int,
        0x8ff15a9ff67ccc1e533499de62492786906188109da7663728d19a3c652823b1int,
        0x9c2a733fbefcfb21b9d2c16015c4bccdea75af3f0a2aa8e0df48e50fed2f9788int,
        0x4fc1fbf0a5f06f39892dc8f4c392d308fb1877ccf1a02492a707e99ccb4105beint,
        0xf5745ed34cc823b02aa90991e1e759512b6ced7c622b576dfdade81df421456fint);
    lemma_double_add(x, 0x3fffffffc00000004000000000000000000000003fffffint,
        0x4fc1fbf0a5f06f39892dc8f4c392d308fb1877ccf1a02492a707e99ccb4105beint,
        0xf5745ed34cc823b02aa90991e1e759512b6ced7c622b576dfdade81df421456fint,
        0x8ff15a9ff67ccc1e533499de62492786906188109da7663728d19a3c652823b1int,
        0x7b251cefa5a8e5c90ff9b76e2f61e99368464b3608dcd1a2460f46c2d37753a3int,
        0x775439a980c6afb9aa4362cfe28947a06e0bc886bc94f427dc4023dedfca120dint,
        0x9c24944f33249e9b20ba0fa3cddc1e5cb8d9f5936b9e89233a8da095c75b0dd9int,
        0xd8ff75a895ca786e492240c9f5e5241a17a78090f44d833b2a8ed16e2df54fe3int,
        0x4f92d9df3f16c1987227e65998f644a992d42bee4bb86d0bf5b8288429887d30int);
    lemma_double_add(x, 0x7fffffff800000008000000000000000000000007fffffint,
        0xd8ff75a895ca786e492240c9f5e5241a17a78090f44d833b2a8ed16e2df54fe3int,
        0x4f92d9df3f16c1987227e65998f644a992d42bee4bb86d0bf5b8288429887d30int,
        0x775439a980c6afb9aa4362cfe28947a06e0bc886bc94f427dc4023dedfca120dint,
        0x9dfd43d70c2de716faecf745e27a9a460ce5e1ec39dcdefe60006af57219264cint,
        0xba8f978b29dd12df83292e9fbc7243d97fc200e1d4cc9e6ccec5acb390dec90eint,
        0xa170bad84d5a9a9521fc0b56897b575be3645d80d42e68baf996ba4993a55e82int,
        0x6be4129e1801fd3484f237f702fa321ea832065e85d9aee29f8d39598d96f9c2int,
        0x824f7461f43db6d460e119497eeca059b712fa6cb668192f4cc499d22d0941d4int);
    lemma_double_add(x, 0xffffffff00000001000000000000000000000000ffffffint,
        0x6be4129e1801fd3484f237f702fa321ea832065e85d9aee29f8d39598d96f9c2int,
        0x824f7461f43db6d460e119497eeca059b712fa6cb668192f4cc499d22d0941d4int,
        0xba8f978b29dd12df83292e9fbc7243d97fc200e1d4cc9e6ccec5acb390dec90eint,
        0xda484a8aaccb51a3e517ca0a6d97828f6db0e798e0ae0a8ed3ddadd82ed347deint,
        0xe98b800667a8d3659720e0c92186e1e73b91dc7b4d774ef523dde1ed76c5e4fcint,
        0xd2765cb6db1067cf9872c0d13a27f4f9fe908e77ce7d58aaaff2e013321c65d0int,
        0xe0dcae19e0db9aa5765548039a6c99445cfd0037f4bbdbe14e9997d4ea6e75cdint,
        0x51ab60b23dfc890fae700c7e1c0f617d696292fd4c26148ee3b64e11c5287951int);
}

/// The next powers.
proof fn lemma_powers_24(x: int)
    requires
        fp::vanishes(curve::cubic(x)),
        power_is(x, 0x1fffffffe00000002000000000000000000000001ffffffint,
            0xe0dcae19e0db9aa5765548039a6c99445cfd0037f4bbdbe14e9997d4ea6e75cdint,
            0x51ab60b23dfc890fae700c7e1c0f617d696292fd4c26148ee3b64e11c5287951int,
            0xe98b800667a8d3659720e0c92186e1e73b91dc7b4d774ef523dde1ed76c5e4fcint),
    ensures
        power_is(x, 0x1fffffffe00000002000000000000000000000001ffffffffint,
            0x95157efdcd319dd5716e31afa243160ae00cd2d982b69e1d381d1a9e402f4518int,
            0xd485e1162882f65a23961ebeb9a85e94de19463814a70ac532fd41c28d48e037int,
            0x65e6e610ba5187910070f4b5691a515af1fb33138eb9e8d9854b6b46c273db1aint),
{
    lemma_double_add(x, 0x1fffffffe00000002000000000000000000000001ffffffint,
        0xe0dcae19e0db9aa5765548039a6c99445cfd0037f4bbdbe14e9997d4ea6e75cdint,
        0x51ab60b23dfc890fae700c7e1c0f617d696292fd4c26148ee3b64e11c5287951int,
        0xe98b800667a8d3659720e0c92186e1e73b91dc7b4d774ef523dde1ed76c5e4fcint,
        0x2c3ed72f72ef730b8ddbf12293c79a896e69983b2079d95c1163612be3fe8e21int,
        0xeefff8f02e14f57c1cf3d465d852173ee4b2fd743ec43ffc822bed980468cbd5int,
        0x7708d131628508487ac9b21cb0789ea44704e9f8af5a67933deda6f17c4001deint,
        0x88ff8b328ef9daf9829165220674ed9bccd2caae6b566b8867016b00b64f3b76int,
        0x91594ac49a7e8be3fe390778a5317676437856242e891015cb2c560058be93bcint);
    lemma_double_add(x, 0x3fffffffc00000004000000000000000000000003ffffffint,
        0x88ff8b328ef9daf9829165220674ed9bccd2caae6b566b8867016b00b64f3b76int,
        0x91594ac49a7e8be3fe390778a5317676437856242e891015cb2c560058be93bcint,
        0xeefff8f02e14f57c1cf3d465d852173ee4b2fd743ec43ffc822bed980468cbd5int,
        0xc88f0dcba3f05ad11e776212b71d9a748672b2e69e439497a497a161288eca22int,
        0xec0a1db94c82714acf7d276713dc8f7e340a828706e1f7cfc2a73face3bbcb24int,
        0xe01ff398f55df1ff42c7550f8e8ab5506dcf47b0e1b6c60ca585a17f98b40ffeint,
        0x46500e409c56abf15ead786007332416767ac42bae30c6bb836b174102ab0adfint,
        0x68eee899840a30cbe6cd614162bdba65cfe089f64367e6bd952885dff2aafa1fint);
    lemma_double_add(x, 0x7fffffff800000008000000000000000000000007ffffffint,
        0x46500e409c56abf15ead786007332416767ac42bae30c6bb836b174102ab0adfint,
        0x68eee899840a30cbe6cd614162bdba65cfe089f64367e6bd952885dff2aafa1fint,
        0xec0a1db94c82714acf7d276713dc8f7e340a828706e1f7cfc2a73face3bbcb24int,
        0x485a17c7d09271cd9bca115dc166bc1a03de8a3df027094e317c33019a2f668int,
        0x134628ad2f1e001886cc339f392b9d16aee977c149357229252dd7cafcf6031cint,
        0x942605ab9f58dddcf10b6969092a9af7a72b54bcb3e481f8bcbd70ec79148c6bint,
        0x15fbb7966b0b2a6a9a94b359145e0ef96f119ef10db7c4238284612916888891int,
        0xc0f7b2805b13c0b2acdedd50f7963ca895bfe6d8faaff67f195015f584e09baaint);
    lemma_double_add(x, 0xffffffff00000001000000000000000000000000fffffffint,
        0x15fbb7966b0b2a6a9a94b359145e0ef96f119ef10db7c4238284612916888891int,
        0xc0f7b2805b13c0b2acdedd50f7963ca895bfe6d8faaff67f195015f584e09baaint,
        0x134628ad2f1e001886cc339f392b9d16aee977c149357229252dd7cafcf6031cint,
        0x674a140c6e2ddb1e41b6fbc4c5dc46b8edc1a573dd9eb86bef8fac4d43edb200int,
        0x81fa819ac5598c94236e3220daf491201801026ad0c7d17a71f47b7bf081bcfeint,
        0x68c966ac6f023cde2e340b35408653b1853168f482ebd50cea2a14cf41e757e2int,
        0x997c5391dafa1091de844e00e5c3e46cd87c840bb9697f23333f02629fb6335int,
        0xa1a64812bb3491b7cc531d64876f41cd7d55e05066623792ae0deabb09a3b9a7int);
    lemma_double_add(x, 0x1fffffffe00000002000000000000000000000001fffffffint,
        0x997c5391dafa1091de844e00e5c3e46cd87c840bb9697f23333f02629fb6335int,
        0xa1a64812bb3491b7cc531d64876f41cd7d55e05066623792ae0deabb09a3b9a7int,
        0x81fa819ac5598c94236e3220daf491201801026ad0c7d17a71f47b7bf081bcfeint,
        0x1d03d6befe0b38427870cd1bbc228794dac7f1192e9740b00c771826ed24a01cint,
        0xd09fd6030c9d3b401f7d056a80c78e5728dcaa6e990b1c49c1b1fd8d555cc7f7int,
        0xea738489c4722dc6a28ab4869dc5afd44468985cb7c59b8d646cb58d732c0910int,
        0x92ce6b8b139e6719bafc2d1d378203582ae87437b36dec553a0c54929eac2ff9int,
        0xdc5e645e4b61c1946010eaaf95739711a801ba2d55e8135839bd38cf46a8bb4eint);
    lemma_double_add(x, 0x3fffffffc00000004000000000000000000000003fffffffint,
        0x92ce6b8b139e6719bafc2d1d378203582ae87437b36dec553a0c54929eac2ff9int,
        0xdc5e645e4b61c1946010eaaf95739711a801ba2d55e8135839bd38cf46a8bb4eint,
        0xd09fd6030c9d3b401f7d056a80c78e5728dcaa6e990b1c49c1b1fd8d555cc7f7int,
        0x2ff6bea6e7490bdca31321ac9a219b257349abff8fcf3e4387a393200ebe8b74int,
        0xe94aa81ce055dd1aeb4c33a29fd4f36726a1e365169f6ffbfd7721a2526577fint,
        0x31382743d72bb2e5c1d07bfe0714e444d6422c00774e99ccfc82e645cf9489a1int,
        0xb220a288b30ba6c0db587cf0f5b3a331b91aa26e897be79b98094342c2bd38e7int,
        0xc39f34726ccc248de88495a6af6047f3f6103000f5bb0baa7d2c45f17d7c2857int);
    lemma_double_add(x, 0x7fffffff800000008000000000000000000000007fffffffint,
        0xb220a288b30ba6c0db587cf0f5b3a331b91aa26e897be79b98094342c2bd38e7int,
        0xc39f34726ccc248de88495a6af6047f3f6103000f5bb0baa7d2c45f17d7c2857int,
        0xe94aa81ce055dd1aeb4c33a29fd4f36726a1e365169f6ffbfd7721a2526577fint,
        0xcbaa32f878f41abcd473b046d86066556e1165372dc33c623f531464b11484daint,
        0x88eba2c965a3e1c8b87fdfd8ca1a56a7406056fdeb5ccf11ac8d902180bf425fint,
        0x6a8eb6cee0f2373e6f0b0244ec1c884ab21ee3e20f78ba551aa9ed5ea9f210b3int,
        0xad6a7838cc85251f5dc4080e233ed71259e851fc5eeee9e10d4c3d029ccba162int,
        0xb5657671bcac0762194b7159cb5ff35846e10db5c2d6b618f50dc80aeeab6f5int);
    lemma_double_add(x, 0xffffffff00000001000000000000000000000000ffffffffint,
        0xad6a7838cc85251f5dc4080e233ed71259e851fc5eeee9e10d4c3d029ccba162int,
        0xb5657671bcac0762194b7159cb5ff35846e10db5c2d6b618f50dc80aeeab6f5int,
        0x88eba2c965a3e1c8b87fdfd8ca1a56a7406056fdeb5ccf11ac8d902180bf425fint,
        0x142c26a89e95115a86ea4adb199b734b6d6611856af2e8ba3404bf0c8b5f027aint,
        0x65e6e610ba5187910070f4b5691a515af1fb33138eb9e8d9854b6b46c273db1aint,
        0xeac893792df9f700898e9bf68aaef9187ae666e6e33c0b58ffa82b9200a349e9int,
        0x95157efdcd319dd5716e31afa243160ae00cd2d982b69e1d381d1a9e402f4518int,
        0xd485e1162882f65a23961ebeb9a85e94de19463814a70ac532fd41c28d48e037int);
}

/// The next powers.
proof fn lemma_powers_25(x: int)
    requires
        fp::vanishes(curve::cubic(x)),
        power_is(x, 0x1fffffffe00000002000000000000000000000001ffffffffint,
            0x95157efdcd319dd5716e31afa243160ae00cd2d982b69e1d381d1a9e402f4518int,
            0xd485e1162882f65a23961ebeb9a85e94de19463814a70ac532fd41c28d48e037int,
            0x65e6e610ba5187910070f4b5691a515af1fb33138eb9e8d9854b6b46c273db1aint),
    ensures
        power_is(x, 0x1fffffffe00000002000000000000000000000001ffffffffffint,
            0x53caf768ccb1f5b05f5fba6ee6c0868f731d5326bd354f5216337f534eff8cd1int,
            0x718af374dce5a7673652725faee09af8ecad73457527dccfcf8b9b43c3024ffaint,
            0xb2948d9d566a5b37713d984c7559eac7f503eeaeb0900ab018b068238020c7d5int),
{
    lemma_double_add(x, 0x1fffffffe00000002000000000000000000000001ffffffffint,
        0x95157efdcd319dd5716e31afa243160ae00cd2d982b69e1d381d1a9e402f4518int,
        0xd485e1162882f65a23961ebeb9a85e94de19463814a70ac532fd41c28d48e037int,
        0x65e6e610ba5187910070f4b5691a515af1fb33138eb9e8d9854b6b46c273db1aint,
        0x4654e04f405d3e42a48675b6ef6382f5473be066e34c1a32e91b283c873d3907int,
        0x1a909b225b9ae356fa3f3b1486e3639cde8da96895c8ca69851f2fbe4ef938a8int,
        0xad813ca2b12ded34db1e8e284e3dee23d6213b307bc786a5ba2c3c8625394455int,
        0x30ebbb220295fe695a85b44336ce5c72afbc913bef39c4066ec230fa99751a75int,
        0x4ed8963953e705df35e2202fda1d4d60c99f91f656a2ae24179fddcef6e90608int);
    lemma_double_add(x, 0x3fffffffc00000004000000000000000000000003ffffffffint,
        0x30ebbb220295fe695a85b44336ce5c72afbc913bef39c4066ec230fa99751a75int,
        0x4ed8963953e705df35e2202fda1d4d60c99f91f656a2ae24179fddcef6e90608int,
        0x1a909b225b9ae356fa3f3b1486e3639cde8da96895c8ca69851f2fbe4ef938a8int,
        0x20dce865bc063a4db6c5571780464a9429c72ee9c3cda3d6a7f89ffe70e44ed0int,
        0x39e0bc573ba3d2b66672733d97844a190f6d0ac44dfa7238de0b18e16e4c4f47int,
        0x61d88af8ff4ef7b9303920ca8bf7b2cfafe252ca13c0d17a14a54d8ebc2e2a9cint,
        0xa031235abd3313b5fead2b9539ab1ddcf2fa128a14c629e905946da20daffb67int,
        0x46668951b9f321784770b977242d6303396e2746ff101844e5e888aaa56ecea5int);
    lemma_double_add(x, 0x7fffffff800000008000000000000000000000007ffffffffint,
        0xa031235abd3313b5fead2b9539ab1ddcf2fa128a14c629e905946da20daffb67int,
        0x46668951b9f321784770b977242d6303396e2746ff101844e5e888aaa56ecea5int,
        0x39e0bc573ba3d2b66672733d97844a190f6d0ac44dfa7238de0b18e16e4c4f47int,
        0x8bfe91cd5acdb203cc65d5dcc412bbdcaf3db110bc396ed72bcac9cf82bc2172int,
        0x32b9645440f88b2543d7352c5665bc7e1d5a702be69df22f3354c72df03f8b18int,
        0xdcecfb0371ffbc843024f28a5689e1bf1494d33d6d9759bd4d27e49abf76024cint,
        0xd3b0a7a75f837375905b0c95b17a520525cb56ef415377a65764b03851be0179int,
        0x22c582dab0cce78d5cd4ad7bc7b06119ecfc2ac604ff7c0f1342779fc11e2859int);
    lemma_double_add(x, 0xffffffff00000001000000000000000000000000fffffffffint,
        0xd3b0a7a75f837375905b0c95b17a520525cb56ef415377a65764b03851be0179int,
        0x22c582dab0cce78d5cd4ad7bc7b06119ecfc2ac604ff7c0f1342779fc11e2859int,
        0x32b9645440f88b2543d7352c5665bc7e1d5a702be69df22f3354c72df03f8b18int,
        0x820ffb1b427a11de0e14fd0a62aea22131ec62e68e2e91be7bab48e5b2204f46int,
        0x56f71dffc8d6f74dc6f0a71455b838d60e0923dd59a7d8df92c1c3e7bbd42040int,
        0xdf6f2d5375471cb4149e0bdacfdafff85da4811d75ac5584b371055002b811deint,
        0x658c3b5af830f1fe16e065ce3c71e42da1f4232e68ed0f68720675d202a42712int,
        0x205d8318a24f67f74bef209ad23fa20a4ad9e63bef33924c95fe58d5ba4884e3int);
    lemma_double_add(x, 0x1fffffffe00000002000000000000000000000001fffffffffint,
        0x658c3b5af830f1fe16e065ce3c71e42da1f4232e68ed0f68720675d202a42712int,
        0x205d8318a24f67f74bef209ad23fa20a4ad9e63bef33924c95fe58d5ba4884e3int,
        0x56f71dffc8d6f74dc6f0a71455b838d60e0923dd59a7d8df92c1c3e7bbd42040int,
        0xd3e620cec935b5459f2f74768797ac16a8d269955f227ddad5db8cf216a1043bint,
        0xe16aa3c8fb221745aa315f19f9a296c384068fb139a182f84208164301932934int,
        0x3eeba55fa2909077d9af762072eee3b9953dcd4d583c463573b6afcd8d17471cint,
        0x9c8883a85feb588b8168a433023f32ecc67560c4d027d48dd8b62002c8b28007int,
        0x90a910eeb0e766ac2c3dd6d7e0645743688bd17c67d7507b30ff9c5abde6d990int);
    lemma_double_add(x, 0x3fffffffc00000004000000000000000000000003fffffffffint,
        0x9c8883a85feb588b8168a433023f32ecc67560c4d027d48dd8b62002c8b28007int,
        0x90a910eeb0e766ac2c3dd6d7e0645743688bd17c67d7507b30ff9c5abde6d990int,
        0xe16aa3c8fb221745aa315f19f9a296c384068fb139a182f84208164301932934int,
        0x36f9dad4caf990a6e2011fc4c8bf1746aecb3223d2405fda5b795ee6b81f8e15int,
        0xbc5a09879a490f71780d88aa8d1be148ad6ce33b80ff1347be865430058bb5dfint,
        0x65fc9040b74d7caad97d5f94f434b88e25b19e4e0ea67ffffe1547857e12b89int,
        0xe4dac2e0a9d15b2ae84f4f5987d1778364ef108abbd5eecde0ecc3033942346eint,
        0x4a1935e0ed581806eac8a1b0b688f9e155dc7fd274ff97da5b1d5c4fbfc310b0int);
    lemma_double_add(x, 0x7fffffff800000008000000000000000000000007fffffffffint,
        0xe4dac2e0a9d15b2ae84f4f5987d1778364ef108abbd5eecde0ecc3033942346eint,
        0x4a1935e0ed581806eac8a1b0b688f9e155dc7fd274ff97da5b1d5c4fbfc310b0int,
        0xbc5a09879a490f71780d88aa8d1be148ad6ce33b80ff1347be865430058bb5dfint,
        0x53d6ef7140e8c493e6f0223f0a6b90ed1c89874bb053eb72d163f5c7d77b955fint,
        0x22123f7c6e0872efab419e117b571f8d55e3198a98792f81a1c4df49ffadd326int,
        0xbe3ec140b0b8dd7823a8e8ed1303743fb079c9b2c3a1103b76b29b51f153feb4int,
        0xfa99809f2279d73f9d4f92fc926dfd7fef8c9a3342f8afb3ccadd4cbda2c1489int,
        0x8e93333553135cfa51eadd064375edac2df6e461fb371c25357bc7bdab77917dint);
    lemma_double_add(x, 0xffffffff00000001000000000000000000000000ffffffffffint,
        0xfa99809f2279d73f9d4f92fc926dfd7fef8c9a3342f8afb3ccadd4cbda2c1489int,
        0x8e93333553135cfa51eadd064375edac2df6e461fb371c25357bc7bdab77917dint,
        0x22123f7c6e0872efab419e117b571f8d55e3198a98792f81a1c4df49ffadd326int,
        0x78ac3f096499aa8f7bee9a3d8a78a6fcad5e498579bc990ab81d9db997f192ceint,
        0xb2948d9d566a5b37713d984c7559eac7f503eeaeb0900ab018b068238020c7d5int,
        0xfd9f917828195448e8cbf2b60c22a6a96a6fb89653ce6bec5d24a9d8b9059463int,
        0x53caf768ccb1f5b05f5fba6ee6c0868f731d5326bd354f5216337f534eff8cd1int,
        0x718af374dce5a7673652725faee09af8ecad73457527dccfcf8b9b43c3024ffaint);
}

/// The next powers.
proof fn lemma_powers_26(x: int)
    requires
        fp::vanishes(curve::cubic(x)),
        power_is(x, 0x1fffffffe00000002000000000000000000000001ffffffffffint,
            0x53caf768ccb1f5b05f5fba6ee6c0868f731d5326bd354f5216337f534eff8cd1int,
            0x718af374dce5a7673652725faee09af8ecad73457527dccfcf8b9b43c3024ffaint,
            0xb2948d9d566a5b37713d984c7559eac7f503eeaeb0900ab018b068238020c7d5int),
    ensures
        power_is(x, 0x1fffffffe00000002000000000000000000000001ffffffffffffint,
            0xe7cf4c93770c8943defe8a61e4391c3bdb2efec85d7a03f7207d36d874913b6dint,
            0xa1fbfcfda48f7ffd894dbc2a338e570bd53cce899a4ca11cd375d782b1c9b099int,
            0x6a017fc5a07938cede1900553dbd006e3ad7d4083892ecdf7b3ba38ad5b3f953int),
{
    lemma_double_add(x, 0x1fffffffe00000002000000000000000000000001ffffffffffint,
        0x53caf768ccb1f5b05f5fba6ee6c0868f731d5326bd354f5216337f534eff8cd1int,
        0x718af374dce5a7673652725faee09af8ecad73457527dccfcf8b9b43c3024ffaint,
        0xb2948d9d566a5b37713d984c7559eac7f503eeaeb0900ab018b068238020c7d5int,
        0x243ed8f35c218e79c41172c4213e6d59dbc37079797676a2a48c9449eec26bf7int,
        0x8750bad9293fe2b8a0889c0031f458d200dcca0de064166dae634414a226e9e6int,
        0x570c0db9324af96c8dc94554c6909996660c884a988e66ac9291a3c88a77e804int,
        0x452f82db8318754be92f9202ece0ada5ab26e6d7170fc3face73433c62c4558cint,
        0x2963021ff3027abe6d6d42c274f03a1d0de909584321aaa85c417fa38e2a2404int);
    lemma_double_add(x, 0x3fffffffc00000004000000000000000000000003ffffffffffint,
        0x452f82db8318754be92f9202ece0ada5ab26e6d7170fc3face73433c62c4558cint,
        0x2963021ff3027abe6d6d42c274f03a1d0de909584321aaa85c417fa38e2a2404int,
        0x8750bad9293fe2b8a0889c0031f458d200dcca0de064166dae634414a226e9e6int,
        0xb88c428af6caefe36dd51f155563216251ca0d2220bbea5e1c3b9ee82199dd34int,
        0x61f31bd6119f54bb1a2d700544ff771faf9e617780caf10e3d537be86c82ff79int,
        0x942b5b8415f1a4390d3e48b42106446f9a0d224cf23214eaf4356d739c45efadint,
        0x171bd20812e711959136e604fd7e86f5844fb988f85498f870463b65fd8b009cint,
        0x750e5519389fdc8c958ff931b875eeb11ff17406f752291ef8dbe742f66bac3dint);
    lemma_double_add(x, 0x7fffffff800000008000000000000000000000007ffffffffffint,
        0x171bd20812e711959136e604fd7e86f5844fb988f85498f870463b65fd8b009cint,
        0x750e5519389fdc8c958ff931b875eeb11ff17406f752291ef8dbe742f66bac3dint,
        0x61f31bd6119f54bb1a2d700544ff771faf9e617780caf10e3d537be86c82ff79int,
        0x18422b7bdebbd08e112721bfdf6e549d8a99fad751bb04ba5f8c7889eb242b23int,
        0x95733125fe4acf17653ab615d413fc18701f35c13f048f46e84dbb262262e5baint,
        0xc82ffff8f3383982851950165d025cf713ff6343ab11b47641c997f56540655eint,
        0x2739066070d725c970a08c3d49c452e516042fbeafa50f3fc15f147e0e3b0582int,
        0x70d22b68b8647d13a0731202f6756b82c69824a052f0221d24e9406a1ae55b3fint);
    lemma_double_add(x, 0xffffffff00000001000000000000000000000000fffffffffffint,
        0x2739066070d725c970a08c3d49c452e516042fbeafa50f3fc15f147e0e3b0582int,
        0x70d22b68b8647d13a0731202f6756b82c69824a052f0221d24e9406a1ae55b3fint,
        0x95733125fe4acf17653ab615d413fc18701f35c13f048f46e84dbb262262e5baint,
        0xc3300258a94b0d48279dbc0f42632600bab5b9f5cc9c0eaae8f46059c47d7734int,
        0x6af8987b64c9a74278bf38932fe196b03cf572a083b2ca24a7334f68d002cdc9int,
        0xa26bfa03d1a7dd8d542447eff5f791fd78593d4bbcf30bcde4809e829d58c217int,
        0xe4463157cfd07a623266354d0473c31d5b7ef391a74231cab0c67585a02357fint,
        0xaa73f0661e42a5ee240a93df2449dbf923c171d70375321496763be19c87bd7bint);
    lemma_double_add(x, 0x1fffffffe00000002000000000000000000000001fffffffffffint,
        0xe4463157cfd07a623266354d0473c31d5b7ef391a74231cab0c67585a02357fint,
        0xaa73f0661e42a5ee240a93df2449dbf923c171d70375321496763be19c87bd7bint,
        0x6af8987b64c9a74278bf38932fe196b03cf572a083b2ca24a7334f68d002cdc9int,
        0x4058fc346e3e4b3e8cd1a7855ad6da3dcd0f7dc525e9bb5cbb02167df826b3b7int,
        0x2a5e041020ec4b48f211ddf363b8e07fe6a559309375fd65f5dc771d777c7e1cint,
        0xc44aa22d938e6babd541851456de6db9ca1f1f0145b58d488197c22e351dbc83int,
        0x5f0448d59874c901f4281f8a144c643aa975fcbdff3009fee090decd88120422int,
        0x8d38e2bf28e98e400c9636c25f72236b2b6cdac6f70a63363fc95d08977fe942int);
    lemma_double_add(x, 0x3fffffffc00000004000000000000000000000003fffffffffffint,
        0x5f0448d59874c901f4281f8a144c643aa975fcbdff3009fee090decd88120422int,
        0x8d38e2bf28e98e400c9636c25f72236b2b6cdac6f70a63363fc95d08977fe942int,
        0x2a5e041020ec4b48f211ddf363b8e07fe6a559309375fd65f5dc771d777c7e1cint,
        0x36bc29cd4f7539de66ae3320934103720a968259103d78b357547b32b7506d4fint,
        0x83ed9a7d0356ac36c452b43fa8b063522c7af479a61c693e157c1acd4941a503int,
        0x8527554d56ceaba47f0f50e61e021373dadac011b96cce1ae4a814f90f207e5eint,
        0x409231ff081ef3d13b1191cde9cca17a2a17fd30ccd3c854a3b83afea105cb09int,
        0xc63229b653e13ccae3dc25d2ed473dcd9b26c28d3c83e304054cba1de4b1e86aint);
    lemma_double_add(x, 0x7fffffff800000008000000000000000000000007fffffffffffint,
        0x409231ff081ef3d13b1191cde9cca17a2a17fd30ccd3c854a3b83afea105cb09int,
        0xc63229b653e13ccae3dc25d2ed473dcd9b26c28d3c83e304054cba1de4b1e86aint,
        0x83ed9a7d0356ac36c452b43fa8b063522c7af479a61c693e157c1acd4941a503int,
        0x1739533e22feb852c6a7df0e621bfcfbfff7d5fcb0b97f110e9a659d11e750ceint,
        0xa05ca01a07ac515e3176e6b9881dc531a77bf7f0809751043c9eef1fd8d92226int,
        0x112fbe7de6d72033fcdf9426a4d40e74e1d28f9de6dd8593f5187e50e238729cint,
        0x8ce1fe8d32953797ff5a5a64db825f4ef1289a639a701ba3b2983632c841ff53int,
        0x4ac88eb7d78418eebd469b825098285aa56f84d665520fccede3e08fb890a8a2int);
    lemma_double_add(x, 0xffffffff00000001000000000000000000000000ffffffffffffint,
        0x8ce1fe8d32953797ff5a5a64db825f4ef1289a639a701ba3b2983632c841ff53int,
        0x4ac88eb7d78418eebd469b825098285aa56f84d665520fccede3e08fb890a8a2int,
        0xa05ca01a07ac515e3176e6b9881dc531a77bf7f0809751043c9eef1fd8d92226int,
        0x8c365e9fbaf12c640f981a73a24fcb46155bea0f5806dd587233202933c5b8aaint,
        0x6a017fc5a07938cede1900553dbd006e3ad7d4083892ecdf7b3ba38ad5b3f953int,
        0x5c9734c9a334c688d33c8b3cdb14d941eaa04c291617414175c0e7c87f56a7faint,
        0xe7cf4c93770c8943defe8a61e4391c3bdb2efec85d7a03f7207d36d874913b6dint,
        0xa1fbfcfda48f7ffd894dbc2a338e570bd53cce899a4ca11cd375d782b1c9b099int);
}

/// The next powers.
proof fn lemma_powers_27(x: int)
    requires
        fp::vanishes(curve::cubic(x)),
        power_is(x, 0x1fffffffe00000002000000000000000000000001ffffffffffffint,
            0xe7cf4c93770c8943defe8a61e4391c3bdb2efec85d7a03f7207d36d874913b6dint,
            0xa1fbfcfda48f7ffd894dbc2a338e570bd53cce899a4ca11cd375d782b1c9b099int,
            0x6a017fc5a07938cede1900553dbd006e3ad7d4083892ecdf7b3ba38ad5b3f953int),
    ensures
        power_is(x, 0x1fffffffe00000002000000000000000000000001ffffffffffffffint,
            0xcf8b1547a7e917d9b2dcceae0e3cb19a60f73020f8e59e5864edafdfc959725dint,
            0x60e1c5fe30c1edfbddedb8ae0cb812a0d6c540bbbe94a3c041c3fc0bbad380eeint,
            0xf378f3f1e3cff48b705fcb697bcb8945bd036181b108f03a95ae6c9adff85fabint),
{
    lemma_double_add(x, 0x1fffffffe00000002000000000000000000000001ffffffffffffint,
        0xe7cf4c93770c8943defe8a61e4391c3bdb2efec85d7a03f7207d36d874913b6dint,
        0xa1fbfcfda48f7ffd894dbc2a338e570bd53cce899a4ca11cd375d782b1c9b099int,
        0x6a017fc5a07938cede1900553dbd006e3ad7d4083892ecdf7b3ba38ad5b3f953int,
        0xe6c61cf696a6366a7e7be15b11a9ad984ad5152cfe7257912461fb50096a81bint,
        0xd3167d0e0f91e65ba30c015c06c636a280f504d328d3b815c7159a9a3e4c8400int,
        0x6a68b8c02750871013da8ab4f65df69cbb72497abaa4829ea76a9d9c9861df11int,
        0x99e4c8506c022ca1e21557c1db5755ebe076a2850e653bf33f2e8add4b911ea8int,
        0x4da68c10df5bf895e3775e3494347eafb7042dc1ffd4ad550885f88ac9bc454fint);
    lemma_double_add(x, 0x3fffffffc00000004000000000000000000000003ffffffffffffint,
        0x99e4c8506c022ca1e21557c1db5755ebe076a2850e653bf33f2e8add4b911ea8int,
        0x4da68c10df5bf895e3775e3494347eafb7042dc1ffd4ad550885f88ac9bc454fint,
        0xd3167d0e0f91e65ba30c015c06c636a280f504d328d3b815c7159a9a3e4c8400int,
        0xdedfb2b1cffc40f2cdc8504714c0254654b14b6dde45d7940cc24a4a0f12077int,
        0xe4c5f1a0784bf368bda06f79f82afd4e3f903344e30e107a1df3a413f8403ef6int,
        0x1634a0793b0dfd38b89819af12e4f00c7e7ec675a8f72dee827071ec8632a734int,
        0xb2e3029b8a173ca43ebdfd39335cc5862e020ced8aef17318a0d7d9cf9fb2610int,
        0x508bdc96ce29bbb956a4d211a9fad279e0c76817d8c9e744c81d7a6a33891613int);
    lemma_double_add(x, 0x7fffffff800000008000000000000000000000007ffffffffffffint,
        0xb2e3029b8a173ca43ebdfd39335cc5862e020ced8aef17318a0d7d9cf9fb2610int,
        0x508bdc96ce29bbb956a4d211a9fad279e0c76817d8c9e744c81d7a6a33891613int,
        0xe4c5f1a0784bf368bda06f79f82afd4e3f903344e30e107a1df3a413f8403ef6int,
        0x4771b418413425bdd497ff50f449e1ed5760b1f7e0d469afa67bfe44b4cd20c1int,
        0xc3ae37d3fb0aaba13340cc4aacaadd426d37aae2dfd3081898db908309d20ad6int,
        0x5214427efab72b7f133d4161cff93ee426017aae7a11f591387fb47455633ec6int,
        0xc4953036fee9a33c60c3a8efb3dd69ed02a29105f71901debf8569fc6ac2b5cbint,
        0x3dae7b963159a83a0e4fc37664359e99c96522024f0a4a634ffb1ba1b4f6dd14int);
    lemma_double_add(x, 0xffffffff00000001000000000000000000000000fffffffffffffint,
        0xc4953036fee9a33c60c3a8efb3dd69ed02a29105f71901debf8569fc6ac2b5cbint,
        0x3dae7b963159a83a0e4fc37664359e99c96522024f0a4a634ffb1ba1b4f6dd14int,
        0xc3ae37d3fb0aaba13340cc4aacaadd426d37aae2dfd3081898db908309d20ad6int,
        0xa8912d2607a40b03df5989d20cdb0ec74070cf010148cb4373fd3f16123a1b99int,
        0xf47707da7fea51de49992efa95c1c2014020bb366a0e9586b76100bd03b99711int,
        0xd1548fd98864245dfb2ccbf9f868d37772622652747e1284fb86e4ad33b9616cint,
        0x90910b36e7889451f6b162da431a234f9f1f3ef23245ab1a13d4e00efc3d8672int,
        0x1c8edcb5a0d0781ad0dfedbff615892d979741f55ec302d26691ed1dad663fe0int);
    lemma_double_add(x, 0x1fffffffe00000002000000000000000000000001fffffffffffffint,
        0x90910b36e7889451f6b162da431a234f9f1f3ef23245ab1a13d4e00efc3d8672int,
        0x1c8edcb5a0d0781ad0dfedbff615892d979741f55ec302d26691ed1dad663fe0int,
        0xf47707da7fea51de49992efa95c1c2014020bb366a0e9586b76100bd03b99711int,
        0xb10f0f0f28af24ca9edde0097925c8e53511729217021bf0f60e47200dde6001int,
        0xe41901ed2a5d02e12861b543a55d7eb63f909f9a91cb8a0e84afd6b5ad624216int,
        0x72308381ed0f0d8ee7f277d25cda7b37903ac53670e794978b5454e7ede79a18int,
        0xdbdea2a2522d0496a65954c6cbf644ccd294f7e02a35e379275ad6f94455040eint,
        0x7a09996efdc4d7556b547808fb53a8be5c1c23369b8d9b7980b45d7d7952e4bint);
    lemma_double_add(x, 0x3fffffffc00000004000000000000000000000003fffffffffffffint,
        0xdbdea2a2522d0496a65954c6cbf644ccd294f7e02a35e379275ad6f94455040eint,
        0x7a09996efdc4d7556b547808fb53a8be5c1c23369b8d9b7980b45d7d7952e4bint,
        0xe41901ed2a5d02e12861b543a55d7eb63f909f9a91cb8a0e84afd6b5ad624216int,
        0xd35d1ec024cc51e6371944313e258560c0527287f936e1dae9c98a31666d2a4eint,
        0x21d87549fd7cc5b9c5e3ed2288ef5bc9818090f86b826ea8e1013640529bf9ccint,
        0x6051c15db48e761b9ef88c82882486127583bd725f1021a08e7ad0878f779156int,
        0xf1e205b9c01963a0f7e99a94e02fe2f462a5fef7cfeea6df02a5cd0cccc8c90fint,
        0xf45262da4277b4381402e9b8d693179820ddaade166746bc9539fbc814d3de51int);
    lemma_double_add(x, 0x7fffffff800000008000000000000000000000007fffffffffffffint,
        0xf1e205b9c01963a0f7e99a94e02fe2f462a5fef7cfeea6df02a5cd0cccc8c90fint,
        0xf45262da4277b4381402e9b8d693179820ddaade166746bc9539fbc814d3de51int,
        0x21d87549fd7cc5b9c5e3ed2288ef5bc9818090f86b826ea8e1013640529bf9ccint,
        0xe1f1e447f4167797f876ef363b87c75b72022704f615cdf7800f6f04f526fc8bint,
        0xa499bbe5388e096111636a6f8b56901d4096de0be0366353c2b9a5fbb33490edint,
        0x31a1fa16f4bf7298cd5911a6217ab8d32b4bf962804bff8df9b494d5a7be23f7int,
        0x4df049b4caef2cc43e04ab0ead4122e5cecbf3982e9d443b61fe61fdeab4f78int,
        0x76d7d28dd254cf61608224289ff7f1d4f3e6132b76f9cca16d2d2d85ec616871int);
    lemma_double_add(x, 0xffffffff00000001000000000000000000000000ffffffffffffffint,
        0x4df049b4caef2cc43e04ab0ead4122e5cecbf3982e9d443b61fe61fdeab4f78int,
        0x76d7d28dd254cf61608224289ff7f1d4f3e6132b76f9cca16d2d2d85ec616871int,
        0xa499bbe5388e096111636a6f8b56901d4096de0be0366353c2b9a5fbb33490edint,
        0x8364c2067db693c4e18d888cb348105516fb4d90b3987d77c0b1839aed94f498int,
        0xf378f3f1e3cff48b705fcb697bcb8945bd036181b108f03a95ae6c9adff85fabint,
        0xf47f01519103c8bdfecabab5c87aab6e9543510f58feb76d805b7d7aef14d971int,
        0xcf8b1547a7e917d9b2dcceae0e3cb19a60f73020f8e59e5864edafdfc959725dint,
        0x60e1c5fe30c1edfbddedb8ae0cb812a0d6c540bbbe94a3c041c3fc0bbad380eeint);
}

/// The next powers.
proof fn lemma_powers_28(x: int)
    requires
        fp::vanishes(curve::cubic(x)),
        power_is(x, 0x1fffffffe00000002000000000000000000000001ffffffffffffffint,
            0xcf8b1547a7e917d9b2dcceae0e3cb19a60f73020f8e59e5864edafdfc959725dint,
            0x60e1c5fe30c1edfbddedb8ae0cb812a0d6c540bbbe94a3c041c3fc0bbad380eeint,
            0xf378f3f1e3cff48b705fcb697bcb8945bd036181b108f03a95ae6c9adff85fabint),
    ensures
        power_is(x, 0x1fffffffe00000002000000000000000000000001ffffffffffffffffint,
            0x23567f2d80e1d1c439175e3fd3c3a308dc79b7a38695e38014dcfc3ad895edf4int,
            0xadd0b94c26cb9e6256b9b64624cabad6f1d67c02a486bd116debd9dd9dead8abint,
            0xb5213ff901c14ea108de16cd31023a00f8ebb7cde26b940c61493549240abdf0int),
{
    lemma_double_add(x, 0x1fffffffe00000002000000000000000000000001ffffffffffffffint,
        0xcf8b1547a7e917d9b2dcceae0e3cb19a60f73020f8e59e5864edafdfc959725dint,
        0x60e1c5fe30c1edfbddedb8ae0cb812a0d6c540bbbe94a3c041c3fc0bbad380eeint,
        0xf378f3f1e3cff48b705fcb697bcb8945bd036181b108f03a95ae6c9adff85fabint,
        0x77e605b85d04727053881c687e2d80558c4ebf1719cbaa02b007f02b63cbd83fint,
        0x3f07b7b89910a27bf92c7f57331e8aeacf364e873b9dc4190da3c8fff154ceb2int,
        0xfb9af8a4c1f9c4c115e1f9cb7d11551c9df72cf51319aa58b51d8ab84c81170eint,
        0x4a80d030d65c29f308d100deb93cbf01a0a86aaffcb660c27365ec383662e7eaint,
        0x6ab6efa9a2f1c0b0952e09caf5617fab663445f35318a90ccf609054494f1d6cint);
    lemma_double_add(x, 0x3fffffffc00000004000000000000000000000003ffffffffffffffint,
        0x4a80d030d65c29f308d100deb93cbf01a0a86aaffcb660c27365ec383662e7eaint,
        0x6ab6efa9a2f1c0b0952e09caf5617fab663445f35318a90ccf609054494f1d6cint,
        0x3f07b7b89910a27bf92c7f57331e8aeacf364e873b9dc4190da3c8fff154ceb2int,
        0x48865e4e679bfd7c01af820acd1a15c5ec00c6d13673c6a45f9597cbcabfde4aint,
        0x3de98a14025b98ef5b4f1c1bb19ba0776f0253093cba7dd08ced30e154c5d21fint,
        0x7f43f5fab471abbcd771e392e020dc8de89118c93841f40b04d7c665f07199ceint,
        0xef578bde3f9080bb2ea6ffdf456eaa14dfe6cbdcf91fbaa2b645e3bf4c7630aeint,
        0xc652403f84f100b188052cc36d7cab6fa5b4112bdf39a2c56e1ceafd9c14abb5int);
    lemma_double_add(x, 0x7fffffff800000008000000000000000000000007ffffffffffffffint,
        0xef578bde3f9080bb2ea6ffdf456eaa14dfe6cbdcf91fbaa2b645e3bf4c7630aeint,
        0xc652403f84f100b188052cc36d7cab6fa5b4112bdf39a2c56e1ceafd9c14abb5int,
        0x3de98a14025b98ef5b4f1c1bb19ba0776f0253093cba7dd08ced30e154c5d21fint,
        0x1a1f87fbd067741a04993c8522afb71c37e95ec54c44bafc9a191611a968979bint,
        0xf59fd8023c20ea6053209f09504eba7a5dc5c181643b9d6f23d2aba95dd15afeint,
        0x9ec330fd995559faa149117042b8c99b2916f368274bd790a021a380046cb61cint,
        0x201cf176c9b2eda77b4edc030f7cb7d7028585ee063efb6e7a204e9739922e2dint,
        0xf6691af59c678208e87470d5eada13edb32e38fcc22841ae7a7e0091b6aeb9f0int);
    lemma_double_add(x, 0xffffffff00000001000000000000000000000000fffffffffffffffint,
        0x201cf176c9b2eda77b4edc030f7cb7d7028585ee063efb6e7a204e9739922e2dint,
        0xf6691af59c678208e87470d5eada13edb32e38fcc22841ae7a7e0091b6aeb9f0int,
        0xf59fd8023c20ea6053209f09504eba7a5dc5c181643b9d6f23d2aba95dd15afeint,
        0xfbebb2ac01135221b6e9d85695236c6284bb1fbce078099b279e5249fe6dfac0int,
        0x60ed0ecf4f443fcd0aecc526bcc9d9290b71f920296982462a8a4721dda495dint,
        0x73ae39013df8fad6dbd0d1084797c154dd4c2d0712fb436ee014823c0afe3aedint,
        0x4a661cd07878108cd0b7add6cc42f4adddce68750726b21de9eba88d26660caint,
        0x56f65db1bafe42a44a5c4b6f6beab0611c9fa6d01969d3e7c7dbd8fe1f68ab89int);
    lemma_double_add(x, 0x1fffffffe00000002000000000000000000000001fffffffffffffffint,
        0x4a661cd07878108cd0b7add6cc42f4adddce68750726b21de9eba88d26660caint,
        0x56f65db1bafe42a44a5c4b6f6beab0611c9fa6d01969d3e7c7dbd8fe1f68ab89int,
        0x60ed0ecf4f443fcd0aecc526bcc9d9290b71f920296982462a8a4721dda495dint,
        0x60f8720736d98ea1b532ca54c0440f97004b4c26b06b1a27535872b4bf702652int,
        0x662764457bccd196ab90216d75f563ab6dc4eef429feb56c5bc8d4fe8f608aa4int,
        0xd42b5dac8f8ee82a18da2759a78a31219b3b12b820eb7510953b034815e9bf00int,
        0xfcbd1ccc9a8f207bfa2295035d48a339c2e6d1347d22eeb67815188c2cbdd768int,
        0xdd7a8b0ee586471dffc14061b6e2a2fbd1fc844d132d795913097c8d012d6354int);
    lemma_double_add(x, 0x3fffffffc00000004000000000000000000000003fffffffffffffffint,
        0xfcbd1ccc9a8f207bfa2295035d48a339c2e6d1347d22eeb67815188c2cbdd768int,
        0xdd7a8b0ee586471dffc14061b6e2a2fbd1fc844d132d795913097c8d012d6354int,
        0x662764457bccd196ab90216d75f563ab6dc4eef429feb56c5bc8d4fe8f608aa4int,
        0xf27a21c96945970ee8777b363b5c4a1d3742782e160e2b14b968b0880a7f0e4fint,
        0xca0509ba1fa18958f51b80e031caed408a4e6b19b1add62be78e000cb2e9e5e9int,
        0xd5aad9156ec808c12109e1070ef48e34dd8c604bc44adcac6af62f5b0fa07930int,
        0x27474b931f34c7722960805959b60280025cbd0cf936961a68f462d0a747426eint,
        0x737aad0cb59db14f4b951e4b6839f4bbcfe7990e62eec119fa4b3e99396079e2int);
    lemma_double_add(x, 0x7fffffff800000008000000000000000000000007fffffffffffffffint,
        0x27474b931f34c7722960805959b60280025cbd0cf936961a68f462d0a747426eint,
        0x737aad0cb59db14f4b951e4b6839f4bbcfe7990e62eec119fa4b3e99396079e2int,
        0xca0509ba1fa18958f51b80e031caed408a4e6b19b1add62be78e000cb2e9e5e9int,
        0xf64858a3c76582f3a92c217189cc9a1e2fab4af30be0a7e32fc6341e11cf49e3int,
        0x4cad4de94ef70c93638fae86c401ecd2473bd0b82522d15e6b359af7a0fcbbfcint,
        0x69329588fcd988c4bc1f81a25a987bbd0a11fe0a5058cbf6c74e3c9b22c060fbint,
        0x8791431a3f7f24079abe68c8ffb0221feb235bbb81f156b37d939a69016ec47eint,
        0x31e01940bdf21d3fdd8aa65899960d554de1450ffceb0bc785b0e9ef7a106cd6int);
    lemma_double_add(x, 0xffffffff00000001000000000000000000000000ffffffffffffffffint,
        0x8791431a3f7f24079abe68c8ffb0221feb235bbb81f156b37d939a69016ec47eint,
        0x31e01940bdf21d3fdd8aa65899960d554de1450ffceb0bc785b0e9ef7a106cd6int,
        0x4cad4de94ef70c93638fae86c401ecd2473bd0b82522d15e6b359af7a0fcbbfcint,
        0xbe76482ffc42036174dfb41bd2da584ba273a892c6a49f18e1615bf9264e63c2int,
        0xb5213ff901c14ea108de16cd31023a00f8ebb7cde26b940c61493549240abdf0int,
        0xfa737b08638333abf5f3560e1b5020d91a76467b9f4b5f52d9837f4c27ded1a2int,
        0x23567f2d80e1d1c439175e3fd3c3a308dc79b7a38695e38014dcfc3ad895edf4int,
        0xadd0b94c26cb9e6256b9b64624cabad6f1d67c02a486bd116debd9dd9dead8abint);
}

/// The next powers.
proof fn lemma_powers_29(x: int)
    requires
        fp::vanishes(curve::cubic(x)),
        power_is(x, 0x1fffffffe00000002000000000000000000000001ffffffffffffffffint,
            0x23567f2d80e1d1c439175e3fd3c3a308dc79b7a38695e38014dcfc3ad895edf4int,
            0xadd0b94c26cb9e6256b9b64624cabad6f1d67c02a486bd116debd9dd9dead8abint,
            0xb5213ff901c14ea108de16cd31023a00f8ebb7cde26b940c61493549240abdf0int),
    ensures
        power_is(x, 0x1fffffffe00000002000000000000000000000001ffffffffffffffffffint,
            0xfab57a5f716a04284fe70a106a3ffa26ba3449ca06ed9f27374330e1e37c0567int,
            0xdb6dc8ed3b5253c27d92cecdef193d29165e295b4ff0b578f566b0598c940defint,
            0xd0dc7d78701a96e41f1b49f3e8a09cec1b8e9fb841999cd713e8bb040c307c5dint),
{
    lemma_double_add(x, 0x1fffffffe00000002000000000000000000000001ffffffffffffffffint,
        0x23567f2d80e1d1c439175e3fd3c3a308dc79b7a38695e38014dcfc3ad895edf4int,
        0xadd0b94c26cb9e6256b9b64624cabad6f1d67c02a486bd116debd9dd9dead8abint,
        0xb5213ff901c14ea108de16cd31023a00f8ebb7cde26b940c61493549240abdf0int,
        0xf7a480d62df129efc722c73ff3a5ae0fa604862c03d718e1c6da68e3c4a5cffbint,
        0x339436fce41496dd15bb922d58c94825a32b7d57a3131654945ff22b8a8c9eccint,
        0x1a8723406f4bb7559c1a49511e4efddfa0d8f385f3b41dd21f7e427566cbb252int,
        0xc674fd0206ae88b9da07168e2b6ddf921dd308c537f996a376a70e2093c75b8fint,
        0x4739ea987bd44fef9b71a3334e92a7ae888f60bcdef3725825553043f908e6f2int);
    lemma_double_add(x, 0x3fffffffc00000004000000000000000000000003ffffffffffffffffint,
        0xc674fd0206ae88b9da07168e2b6ddf921dd308c537f996a376a70e2093c75b8fint,
        0x4739ea987bd44fef9b71a3334e92a7ae888f60bcdef3725825553043f908e6f2int,
        0x339436fce41496dd15bb922d58c94825a32b7d57a3131654945ff22b8a8c9eccint,
        0xb20287939d596ebae657b92a6234217d930537694ce1762f6771e24d44a57301int,
        0xc8af2a299d92b1c0492cf9db86c99db1ed4baa2fbc5aa8123134e54ad6b540aint,
        0xff01bf29bcbdf04720e08fa0a8598818e14fa747f46e47315af9cef78a7d7992int,
        0xfd54e93d9df1a7d43d6ea284094499fdbbc7a1719d229214a5e86281079d5171int,
        0xaf07c513d3933f8d48f9680c5b40b9c836f42d3e2a2c4bc3785f4f33e41ddfbaint);
    lemma_double_add(x, 0x7fffffff800000008000000000000000000000007ffffffffffffffffint,
        0xfd54e93d9df1a7d43d6ea284094499fdbbc7a1719d229214a5e86281079d5171int,
        0xaf07c513d3933f8d48f9680c5b40b9c836f42d3e2a2c4bc3785f4f33e41ddfbaint,
        0xc8af2a299d92b1c0492cf9db86c99db1ed4baa2fbc5aa8123134e54ad6b540aint,
        0x3c2b80ba620c265079d03183f23bac86f17c0d0e601edfd04da65face7e4e125int,
        0xb54f53d6d315c0fa37a898d2efced7f242fe260ad84e1260292ab508ced2a78eint,
        0x463a7f430b1755033269821e7118bf50ff522ca2545b541668757e1e9bb655f6int,
        0x944f1c9145d4ea451627f8b5d5fe2f7046f133500c670f9082ddd731a5c3232dint,
        0xedafe8483522559110cb7df4585ea79ef7292f45d30dc138706da08bb07e308int);
    lemma_double_add(x, 0xffffffff00000001000000000000000000000000fffffffffffffffffint,
        0x944f1c9145d4ea451627f8b5d5fe2f7046f133500c670f9082ddd731a5c3232dint,
        0xedafe8483522559110cb7df4585ea79ef7292f45d30dc138706da08bb07e308int,
        0xb54f53d6d315c0fa37a898d2efced7f242fe260ad84e1260292ab508ced2a78eint,
        0x7b3ca3a6fd5b3b9cf8eeae77134b87d99a66b29bfa7ad08318e82c39bd4d650fint,
        0x384a75155b4db1dd3bca9d4023af4780761a0b903a397ee96d76baebf93e87a9int,
        0x2e50dfc262ec6d7d13f5d2584707c0a02044f221be4362751d1949fd8f2cf08fint,
        0x344b462d94f9b78af259607dc43c2b8ca03b3e8f0f2c15c5a01ec945d2580093int,
        0x62f42ef2620841334d0257fe862c9b9fb3589003544f7e270340a326ad436bdint);
    lemma_double_add(x, 0x1fffffffe00000002000000000000000000000001fffffffffffffffffint,
        0x344b462d94f9b78af259607dc43c2b8ca03b3e8f0f2c15c5a01ec945d2580093int,
        0x62f42ef2620841334d0257fe862c9b9fb3589003544f7e270340a326ad436bdint,
        0x384a75155b4db1dd3bca9d4023af4780761a0b903a397ee96d76baebf93e87a9int,
        0x8a96a08845618dfa4f859a160a5a72dc09881398f957573807bcda7a1d4a6634int,
        0x8c1d35ce132e35c30d7f412b8d5dd300cd4797714fb9b7bc9bef6321e63159a3int,
        0xb939553dc11783576fd95f04dfaf35f7b2dd4033c586ebb64a0eab20c1421e44int,
        0x770714daf0b992915704f8ecaad150bf4fffbe928eb55fcd4a0b8d5d6657fd5bint,
        0xb642a04388a817fe9f11b724a96814c3221fd43249ec1a5ae5e8dbdc6110c102int);
    lemma_double_add(x, 0x3fffffffc00000004000000000000000000000003fffffffffffffffffint,
        0x770714daf0b992915704f8ecaad150bf4fffbe928eb55fcd4a0b8d5d6657fd5bint,
        0xb642a04388a817fe9f11b724a96814c3221fd43249ec1a5ae5e8dbdc6110c102int,
        0x8c1d35ce132e35c30d7f412b8d5dd300cd4797714fb9b7bc9bef6321e63159a3int,
        0xd31a5e158530175edf6e04633bb66363b35e1ad64dbb00340a110bf457f3d7c9int,
        0xfeda36cc849b89b498ae87bf6194574b7311be7792edf9143b660cc500d1ae5aint,
        0x8aeb0ff59e6e766a47d556b3611c70c9257bd2c54ab6f3ec56205859974c03e7int,
        0xe3f83c65f0b20afb61e1381bce55a153ad8670c592ca9e79ac463afdb85a76d2int,
        0x73db8df8607b7a9bb6ee087d5f0bb5bf23d193242ddfdbf90c7215011dd7e380int);
    lemma_double_add(x, 0x7fffffff800000008000000000000000000000007fffffffffffffffffint,
        0xe3f83c65f0b20afb61e1381bce55a153ad8670c592ca9e79ac463afdb85a76d2int,
        0x73db8df8607b7a9bb6ee087d5f0bb5bf23d193242ddfdbf90c7215011dd7e380int,
        0xfeda36cc849b89b498ae87bf6194574b7311be7792edf9143b660cc500d1ae5aint,
        0x672adee822504af403236bac9fb39924ece1b17b96b530cf63203d5db5d263e8int,
        0xbac9070eadc84564f4adb294dd39ffe1e59c92d671f0b3aa50c12276e1a70310int,
        0x3d45bab743808409a77fe9b7423691166627040f681068b36372baaa0baba843int,
        0xc7161b2523138fc2de9c8a806df76e096b5787a73f602259cfa22fa7b5f96481int,
        0x1efc0f0eecd1d70ff9a328d266574c681f56bda8cee66ae98d786d5bd8d55cb2int);
    lemma_double_add(x, 0xffffffff00000001000000000000000000000000ffffffffffffffffffint,
        0xc7161b2523138fc2de9c8a806df76e096b5787a73f602259cfa22fa7b5f96481int,
        0x1efc0f0eecd1d70ff9a328d266574c681f56bda8cee66ae98d786d5bd8d55cb2int,
        0xbac9070eadc84564f4adb294dd39ffe1e59c92d671f0b3aa50c12276e1a70310int,
        0x657458d6ab830d4537e6fd3cf90a93c48ef09010dfaea4f534c9025aba9ff3a7int,
        0xd0dc7d78701a96e41f1b49f3e8a09cec1b8e9fb841999cd713e8bb040c307c5dint,
        0x2753255cda9a6cd46c8e9b305204e3218279ddc37ac0b02beadf39ff9b515e18int,
        0xfab57a5f716a04284fe70a106a3ffa26ba3449ca06ed9f27374330e1e37c0567int,
        0xdb6dc8ed3b5253c27d92cecdef193d29165e295b4ff0b578f566b0598c940defint);
}

/// The next powers.
proof fn lemma_powers_30(x: int)
    requires
        fp::vanishes(curve::cubic(x)),
        power_is(x, 0x1fffffffe00000002000000000000000000000001ffffffffffffffffffint,
            0xfab57a5f716a04284fe70a106a3ffa26ba3449ca06ed9f27374330e1e37c0567int,
            0xdb6dc8ed3b5253c27d92cecdef193d29165e295b4ff0b578f566b0598c940defint,
            0xd0dc7d78701a96e41f1b49f3e8a09cec1b8e9fb841999cd713e8bb040c307c5dint),
    ensures
        power_is(x, 0x1fffffffe00000002000000000000000000000001ffffffffffffffffffffint,
            0x60cdb4b670ce1a26fb382f3cd9d5adf0bce6ceba0d7c3a67de520343163378bdint,
            0xdd3a918f4fe8647adb27e892f6176b8dadd531651c75e72a4344d1c5e47c1b84int,
            0xd598db5222fb04a585657e5358bde0cc78c49a0dde7116e6f8c4d7790ddaf38int),
{
    lemma_double_add(x, 0x1fffffffe00000002000000000000000000000001ffffffffffffffffffint,
        0xfab57a5f716a04284fe70a106a3ffa26ba3449ca06ed9f27374330e1e37c0567int,
        0xdb6dc8ed3b5253c27d92cecdef193d29165e295b4ff0b578f566b0598c940defint,
        0xd0dc7d78701a96e41f1b49f3e8a09cec1b8e9fb841999cd713e8bb040c307c5dint,
        0x39ae7f733f6e8ceb6e772199fdce55553b714f8afadfe45468405b0097970e57int,
        0xb8664a8ef828c52616a44d409e141687f5220350ddfb24d38c57f1c2e04e25bcint,
        0xeda92cacc15ec0933cdf95177333c99f4ee6e14e08fd2465286dbf438b890bebint,
        0x326abcc89c1322b477b4234af8e6c8df979dc7c12eb12bc7ad49cf24e777e614int,
        0x2aa057c838acea22515e0e05769b2332825f37215d75183e18998cb3a32321bint);
    lemma_double_add(x, 0x3fffffffc00000004000000000000000000000003ffffffffffffffffffint,
        0x326abcc89c1322b477b4234af8e6c8df979dc7c12eb12bc7ad49cf24e777e614int,
        0x2aa057c838acea22515e0e05769b2332825f37215d75183e18998cb3a32321bint,
        0xb8664a8ef828c52616a44d409e141687f5220350ddfb24d38c57f1c2e04e25bcint,
        0x32b4bb39f7ed14cc9cb95dcc0eb95dac2abb03486a849add19327e5fdb0dd75aint,
        0xe708a2375a279f7abd4166d3017a209dc4e1f30c9165f78a0e92d6c52999db4cint,
        0xfe74dbc79fb7308fd1e8f1ac134bb0a180ec711070f3c18a10705923eaea596fint,
        0x774b5732bfa66e6320850d26b68cc0be9c51bba76bbb714d7aa75bef4a3d8ffint,
        0x2e134e93d712a679127432d0489c6f90ad805676bd5fdf7b4a8389cb9bcce3aaint);
    lemma_double_add(x, 0x7fffffff800000008000000000000000000000007ffffffffffffffffffint,
        0x774b5732bfa66e6320850d26b68cc0be9c51bba76bbb714d7aa75bef4a3d8ffint,
        0x2e134e93d712a679127432d0489c6f90ad805676bd5fdf7b4a8389cb9bcce3aaint,
        0xe708a2375a279f7abd4166d3017a209dc4e1f30c9165f78a0e92d6c52999db4cint,
        0xbafee6821117771eb2fb6ea05da7efaf05e995fd30e6fc69c8684fc6076cfa6dint,
        0x1ecd1709b372e66d63cb47619778c6ea59856c3a7dc5246490eb6f388d9a1eeint,
        0xb857e9ba019058302016ec329cf3fea34b80ba9d64499215711741ff41f803a4int,
        0x4aaabc8773c1aff05694c834027fd470e65974dc93b4394ac64a353d31b8e42eint,
        0xe406a3b215c87fad134033383483eb98e86bc5d35dc3b2aa1bae15c3cd55055bint);
    lemma_double_add(x, 0xffffffff00000001000000000000000000000000fffffffffffffffffffint,
        0x4aaabc8773c1aff05694c834027fd470e65974dc93b4394ac64a353d31b8e42eint,
        0xe406a3b215c87fad134033383483eb98e86bc5d35dc3b2aa1bae15c3cd55055bint,
        0x1ecd1709b372e66d63cb47619778c6ea59856c3a7dc5246490eb6f388d9a1eeint,
        0x59880c6e00a421105c07693b277ada645e44049abcf4591df28624147ecb5dceint,
        0xafaf988adc378194789971614e4ca185425cde2ae7b42e5aa84f1db2bf420029int,
        0xce1dca7c7d2a1e4c16a0186d1f88aea43b179b986faf59099c5193326d9cc096int,
        0xf9aa669cebe2248cb4eb69df87f82642fabc3d8a7a7e2a115187ef11f44c9812int,
        0xc3e16be578227bf29fe7b2828614e6510f8ad7620c02643ac77addabc7a19f92int);
    lemma_double_add(x, 0x1fffffffe00000002000000000000000000000001fffffffffffffffffffint,
        0xf9aa669cebe2248cb4eb69df87f82642fabc3d8a7a7e2a115187ef11f44c9812int,
        0xc3e16be578227bf29fe7b2828614e6510f8ad7620c02643ac77addabc7a19f92int,
        0xafaf988adc378194789971614e4ca185425cde2ae7b42e5aa84f1db2bf420029int,
        0x6e7e13a60b39ac29dfaf08fda2f790ae055f8f8dfddf7a04d6fa504758ff6d61int,
        0xfae25f6ff3e528df55dc905f51f9ba6752d6108908f027bf1222686a9bd13776int,
        0xa82c3826570605809dd72893bcc1e55f8b0bf217e96ed60d1fe69e92fa6bcb4aint,
        0x9bf770d43036383f27e7739eacbc6082ace7eb0d9db02234a20665ea7fbe9f06int,
        0x6702bc1b104bbca9b93482b8d93d40cca68365d3ba2bfc2c36ae2c004842cf41int);
    lemma_double_add(x, 0x3fffffffc00000004000000000000000000000003fffffffffffffffffffint,
        0x9bf770d43036383f27e7739eacbc6082ace7eb0d9db02234a20665ea7fbe9f06int,
        0x6702bc1b104bbca9b93482b8d93d40cca68365d3ba2bfc2c36ae2c004842cf41int,
        0xfae25f6ff3e528df55dc905f51f9ba6752d6108908f027bf1222686a9bd13776int,
        0x46ee7658ab634388430771e302db34f2fdaf389eb905be17fac2f69169be9879int,
        0x98050205f9f2434e1dc30b506786d8fa58b24b035ef997d21a641f0043009a8bint,
        0x429b5515c88b4d1c71681d268f5481179fecd3777bc5478bc3fc78db0f74fc0fint,
        0xd38ec6e91ffbee5e31ce9ffdc41d70f0b356882b07b541a74540cc415165b433int,
        0xec0759b05052adc973fc956b0d8b839dd75b3042c5594bb46b86122981d8ca7int);
    lemma_double_add(x, 0x7fffffff800000008000000000000000000000007fffffffffffffffffffint,
        0xd38ec6e91ffbee5e31ce9ffdc41d70f0b356882b07b541a74540cc415165b433int,
        0xec0759b05052adc973fc956b0d8b839dd75b3042c5594bb46b86122981d8ca7int,
        0x98050205f9f2434e1dc30b506786d8fa58b24b035ef997d21a641f0043009a8bint,
        0x2da5688cb9390940f3dd4022ec5502a1d6e7aedb5d80b7874740f0819c1ce7f6int,
        0xfc381ac2b387cbaa8798c407baa52bd53d55b4e81aed0367151e16b253c8f11fint,
        0xa06f5f0c400640c46305ef78b34b39c44c349048c316d03a9e295efe992094a0int,
        0x9e79871bfd20f4b4207b1f0a4780b825a6d0b5f60426c0c7f5c57f4f53635d25int,
        0xef385b3794bcb8c1cef0e8d0636afeebb855fb3a6c5283721bd0d7d677ea5d8int);
    lemma_double_add(x, 0xffffffff00000001000000000000000000000000ffffffffffffffffffffint,
        0x9e79871bfd20f4b4207b1f0a4780b825a6d0b5f60426c0c7f5c57f4f53635d25int,
        0xef385b3794bcb8c1cef0e8d0636afeebb855fb3a6c5283721bd0d7d677ea5d8int,
        0xfc381ac2b387cbaa8798c407baa52bd53d55b4e81aed0367151e16b253c8f11fint,
        0x7fa57fb26a6bce3049ab2c8c6c4f97973e614bbc08c63c7e19f858bd57c8f38aint,
        0xd598db5222fb04a585657e5358bde0cc78c49a0dde7116e6f8c4d7790ddaf38int,
        0x1f31b09ef729876e307ee95783429bfccfd14c8db13a8e3963197dad843bb7feint,
        0x60cdb4b670ce1a26fb382f3cd9d5adf0bce6ceba0d7c3a67de520343163378bdint,
        0xdd3a918f4fe8647adb27e892f6176b8dadd531651c75e72a4344d1c5e47c1b84int);
}

/// The next powers.
proof fn lemma_powers_31(x: int)
    requires
        fp::vanishes(curve::cubic(x)),
        power_is(x, 0x1fffffffe00000002000000000000000000000001ffffffffffffffffffffint,
            0x60cdb4b670ce1a26fb382f3cd9d5adf0bce6ceba0d7c3a67de520343163378bdint,
            0xdd3a918f4fe8647adb27e892f6176b8dadd531651c75e72a4344d1c5e47c1b84int,
            0xd598db5222fb04a585657e5358bde0cc78c49a0dde7116e6f8c4d7790ddaf38int),
    ensures
        power_is(x, 0x1fffffffe00000002000000000000000000000001ffffffffffffffffffffffint,
            0x339ce0f9e0588665fec8921af4bcaf14eac373f4898fbcaaf6623e3305bbeb10int,
            0x9604268f4fab4a09fce5f3b02878d49bcfae7b3caac22612ec44adad8209e739int,
            0x6f33dfc382506d5f4946c16d8c6cd7e598c1ac6448300eb213a75dac4119cfb6int),
{
    lemma_double_add(x, 0x1fffffffe00000002000000000000000000000001ffffffffffffffffffffint,
        0x60cdb4b670ce1a26fb382f3cd9d5adf0bce6ceba0d7c3a67de520343163378bdint,
        0xdd3a918f4fe8647adb27e892f6176b8dadd531651c75e72a4344d1c5e47c1b84int,
        0xd598db5222fb04a585657e5358bde0cc78c49a0dde7116e6f8c4d7790ddaf38int,
        0xbedc12f14384d7b189c28cfaad46046071d20b9926f16edfc85a05daaa820b3dint,
        0x8c065822d76d11e6269ae12f2b6c681f8b52a5ff69d9f7243a3c1a17589794fbint,
        0x68afbd8578f37172a30a0a857e77d4ddf3fa8d213346567a7da6d900115dba9eint,
        0xf59c7fcc50a3a9a9950324f294b3c4720897a187a75cc40b21dc0b92eb699790int,
        0xf8eb4b82ae5f2c0872e0ac8b28ad82fa4dc1b2fbc0c4724f414e90dade9b3b18int);
    lemma_double_add(x, 0x3fffffffc00000004000000000000000000000003ffffffffffffffffffffint,
        0xf59c7fcc50a3a9a9950324f294b3c4720897a187a75cc40b21dc0b92eb699790int,
        0xf8eb4b82ae5f2c0872e0ac8b28ad82fa4dc1b2fbc0c4724f414e90dade9b3b18int,
        0x8c065822d76d11e6269ae12f2b6c681f8b52a5ff69d9f7243a3c1a17589794fbint,
        0xd8ffaa692a62f2bdfeb34684a83f8304cdad8be3ab91dcff66437a684ba12e53int,
        0x63cfb1246bd7891965f49544c73961f33f6a0a81fcd33917e5b352fe163d7358int,
        0x69f6b9ed0162dedbbdd8de64f9e554c052e03bac762e723ec89c2f760dce69e1int,
        0x3f6a26bb1cc1f95b497ba4dc9c2edd2f599781326a4e898dea7d3059bb70ecc5int,
        0x16e3d8322e8b8f4f383de1b395ef8145c64e3ee70e1d33bbc01808ca750c6bf8int);
    lemma_double_add(x, 0x7fffffff800000008000000000000000000000007ffffffffffffffffffffint,
        0x3f6a26bb1cc1f95b497ba4dc9c2edd2f599781326a4e898dea7d3059bb70ecc5int,
        0x16e3d8322e8b8f4f383de1b395ef8145c64e3ee70e1d33bbc01808ca750c6bf8int,
        0x63cfb1246bd7891965f49544c73961f33f6a0a81fcd33917e5b352fe163d7358int,
        0x7ebc13efa4bfe15276a808944e5bef244c1baad0bfd844868c31b4f457fe26e1int,
        0x1800570c67041ce9c027f4da81040dd40fd90d1eec145663eb01cff7d28a15c8int,
        0xcd988c53fda6e1b757a01d0e4413049f3cd8ffdc34097d10d69c194519c73ea3int,
        0xa144e07010bb94b7dbac4dc41809ce4fb82a8727a1b11ad7105d18352da120a8int,
        0xe785b8ed9db486767d885fbf1a94fd0202a6aa635bf4bbb9100600c3a553e2ccint);
    lemma_double_add(x, 0xffffffff00000001000000000000000000000000fffffffffffffffffffffint,
        0xa144e07010bb94b7dbac4dc41809ce4fb82a8727a1b11ad7105d18352da120a8int,
        0xe785b8ed9db486767d885fbf1a94fd0202a6aa635bf4bbb9100600c3a553e2ccint,
        0x1800570c67041ce9c027f4da81040dd40fd90d1eec145663eb01cff7d28a15c8int,
        0xfafc315cfd2367b772b56ea994282ff8f168cbfd3d2a4e5718e1ede3344084e9int,
        0xac0092e9c594f29f5c0c6845d80c1c9272ab2cc5f78ef9d2c8dcff27811e5c3aint,
        0x5f3781ca7164069ec6f72e6a90c6ccba598c570bc093bd6367c417228e9175fdint,
        0x5a66b186b0b8854a7d2ab1a4c5f8a04af6d31ee40ecc9524f39f3464c304b6e6int,
        0x18a2b6be514f7b91c79af9e9467c9627fe0dd11e7ee58681502e334adff4e6e2int);
    lemma_double_add(x, 0x1fffffffe00000002000000000000000000000001fffffffffffffffffffffint,
        0x5a66b186b0b8854a7d2ab1a4c5f8a04af6d31ee40ecc9524f39f3464c304b6e6int,
        0x18a2b6be514f7b91c79af9e9467c9627fe0dd11e7ee58681502e334adff4e6e2int,
        0xac0092e9c594f29f5c0c6845d80c1c9272ab2cc5f78ef9d2c8dcff27811e5c3aint,
        0x204ede30259a1423c0e0ec6cb583f388b8f9b6be05a75a3e6c44747f607204e3int,
        0x9af26877f636db70db651298419c0ad382b4392909bb1b61940025346bcc991int,
        0xad3d62ac4a7da788e6e006c2e531bf68e584faf4a59427259568deb2a0ac3310int,
        0xe7227fd6b7f1b6d0654dcc2d10c8dd2b118233e807f6a9bf30d5180dd6a0efe1int,
        0x2807063705130abc758100b5651931c36988a799f663cfaf2c7f109742769e15int);
    lemma_double_add(x, 0x3fffffffc00000004000000000000000000000003fffffffffffffffffffffint,
        0xe7227fd6b7f1b6d0654dcc2d10c8dd2b118233e807f6a9bf30d5180dd6a0efe1int,
        0x2807063705130abc758100b5651931c36988a799f663cfaf2c7f109742769e15int,
        0x9af26877f636db70db651298419c0ad382b4392909bb1b61940025346bcc991int,
        0x9b70aa08afecc24cd61232e232ee26c0579f4e42109111e08e865b8a4fa8c8acint,
        0x73a8863db5bc9ffbb26d64526609cef119b60feb277cc680fe07b1f474fd1247int,
        0xce54b2c53380d4e5c30ff7d880bc80258f660145dd608970674a17f73de4a11eint,
        0x8e4777426f36049e931aeb0507b5b7c2c2f1be80e34f5c2c1cbb96550bc6720cint,
        0x66ec25b4a6f40fb1f421a6bb523a73105d15210a8b2ae31c464a3700956ac09int);
    lemma_double_add(x, 0x7fffffff800000008000000000000000000000007fffffffffffffffffffffint,
        0x8e4777426f36049e931aeb0507b5b7c2c2f1be80e34f5c2c1cbb96550bc6720cint,
        0x66ec25b4a6f40fb1f421a6bb523a73105d15210a8b2ae31c464a3700956ac09int,
        0x73a8863db5bc9ffbb26d64526609cef119b60feb277cc680fe07b1f474fd1247int,
        0x5ee0e96f85b3fe38105b89d070b5c22e5b45adc2db3b3d14ed1ac71005539ae6int,
        0x1dd726c780cc23eb815066f793529183321526a791d46cd85b641ab52d616ff8int,
        0xe6920314f364f0bd3565b559348eb2c21c4a65f37dd06a43ab10b342304fdee4int,
        0x6c72079b1b8ea6941c8aef9daf8e503e63f5ea9a3eb44830a8164ad9bc844c4dint,
        0x1296f2b15fe2d06cb08ca9dc0e61da74b024df9a54ac7bdfee4ce0d696433795int);
    lemma_double_add(x, 0xffffffff00000001000000000000000000000000ffffffffffffffffffffffint,
        0x6c72079b1b8ea6941c8aef9daf8e503e63f5ea9a3eb44830a8164ad9bc844c4dint,
        0x1296f2b15fe2d06cb08ca9dc0e61da74b024df9a54ac7bdfee4ce0d696433795int,
        0x1dd726c780cc23eb815066f793529183321526a791d46cd85b641ab52d616ff8int,
        0x50431cb09d24f43e216045f64c4e52b9670b94cc2858841bcd5782e5f1490404int,
        0x6f33dfc382506d5f4946c16d8c6cd7e598c1ac6448300eb213a75dac4119cfb6int,
        0xc1eb034990d771ef492c8f3df40e2b4b78364cd0d62335fd0a4f0e428595a111int,
        0x339ce0f9e0588665fec8921af4bcaf14eac373f4898fbcaaf6623e3305bbeb10int,
        0x9604268f4fab4a09fce5f3b02878d49bcfae7b3caac22612ec44adad8209e739int);
}

/// The next powers.
proof fn lemma_powers_32(x: int)
    requires
        fp::vanishes(curve::cubic(x)),
        power_is(x, 0x1fffffffe00000002000000000000000000000001ffffffffffffffffffffffint,
            0x339ce0f9e0588665fec8921af4bcaf14eac373f4898fbcaaf6623e3305bbeb10int,
            0x9604268f4fab4a09fce5f3b02878d49bcfae7b3caac22612ec44adad8209e739int,
            0x6f33dfc382506d5f4946c16d8c6cd7e598c1ac6448300eb213a75dac4119cfb6int),
    ensures
        power_is(x, 0xffffffff00000001000000000000000000000000ffffffffffffffffffffffffint,
            0x92e088642d3312c097d5943a147b76e7b494e0924f03d682e5350a345a27381dint,
            0x1b6b65e0dba268d6bf72f99fba65e1bf30f126868605e87e9d516f57ef5dd84cint,
            0x368fbbcd696676a0341535e2f5c2448c25b58fb7587e14be8d657ae5d2ec63f1int),
{
    lemma_double_add(x, 0x1fffffffe00000002000000000000000000000001ffffffffffffffffffffffint,
        0x339ce0f9e0588665fec8921af4bcaf14eac373f4898fbcaaf6623e3305bbeb10int,
        0x9604268f4fab4a09fce5f3b02878d49bcfae7b3caac22612ec44adad8209e739int,
        0x6f33dfc382506d5f4946c16d8c6cd7e598c1ac6448300eb213a75dac4119cfb6int,
        0xa543083229ed96c545a95600d8ddae32e02f5ee9945c5dffe0317281f8a445d6int,
        0xd7f1b3ae13afd22f1cdefd5a1fead9c7cef548266f4b04f89cabd3ea88cda701int,
        0xe209b1870935a4d7371dc62459b373dbd3efe1a54eb9c0e4c7dc67273f63ddecint,
        0x277433b8e832627fece20d3b1ce36d3d8ca935b64a32eb6edf98d7c749996310int,
        0x4b601cca458e8547eb02a86de5f809c65bff03d68089a0ae37c6a7f7b6cfdf9dint);
    lemma_double_add(x, 0x3fffffffc00000004000000000000000000000003ffffffffffffffffffffffint,
        0x277433b8e832627fece20d3b1ce36d3d8ca935b64a32eb6edf98d7c749996310int,
        0x4b601cca458e8547eb02a86de5f809c65bff03d68089a0ae37c6a7f7b6cfdf9dint,
        0xd7f1b3ae13afd22f1cdefd5a1fead9c7cef548266f4b04f89cabd3ea88cda701int,
        0xe0d26813b3a36a42f201b5caab34970a05d206e4e2375bd951f9316a028c747dint,
        0xdce2251f3efaf6c5bf982b26e0467b7efcbb99afa50dce5f0c799b23355fe1e8int,
        0x13b7b0cbe90687471477e93b1556aae44a16e9eddb6045e8998a96b6ef6bab1eint,
        0xc77ab170fcfb1f512cba12f29119990ece9698ed6c88bb4cd74d80e2710e1576int,
        0x1bf97a786eb700172f69717beb3897b6e416c4ad74582d931e98f58ed0cf75d8int);
    lemma_double_add(x, 0x7fffffff800000008000000000000000000000007ffffffffffffffffffffffint,
        0xc77ab170fcfb1f512cba12f29119990ece9698ed6c88bb4cd74d80e2710e1576int,
        0x1bf97a786eb700172f69717beb3897b6e416c4ad74582d931e98f58ed0cf75d8int,
        0xdce2251f3efaf6c5bf982b26e0467b7efcbb99afa50dce5f0c799b23355fe1e8int,
        0x73f608c326f1431468edd8538263f7fd88b16bdce07b0ffaac87bc4ef54a2057int,
        0x1c554796e601a0d7fb7d110783816b536bec272df9bde5021769bd7636f12664int,
        0x61f2ca23d37b5841fdbcc76a58e02d435f11e6aefaf34e26e861dcafc0f2da98int,
        0x4405f41fff91d0374415b7b9fad62c0cf18107c695eae37f92a7c9869fbb4457int,
        0x99ce672fa1634bd962242e928d047fc7a5e71fe8d154fa6f65ad525e3822b020int);
    lemma_double_add(x, 0xffffffff00000001000000000000000000000000fffffffffffffffffffffffint,
        0x4405f41fff91d0374415b7b9fad62c0cf18107c695eae37f92a7c9869fbb4457int,
        0x99ce672fa1634bd962242e928d047fc7a5e71fe8d154fa6f65ad525e3822b020int,
        0x1c554796e601a0d7fb7d110783816b536bec272df9bde5021769bd7636f12664int,
        0x8132335eb0bd7919745915d921a4dff3c275ea1539bb378d503fd2dc45d6af4int,
        0x1fca66795a01037839c33911403096552e1afe66ba6749e53be385632ba12201int,
        0xdeb41adf1bbd46bb28ce900e9edb1729cb4317cfc46dadd1283d4c5ea4e4bb4aint,
        0x81f9256f047e0ec67f72da0a9d3fbcc93850df58ec729a0ef99d314a76cb5bd2int,
        0xa42f73d53e43abc111b141896eab937c9df0a60ea0e4bcec4dbbe249b30b9cd4int);
    lemma_double_add(x, 0x1fffffffe00000002000000000000000000000001fffffffffffffffffffffffint,
        0x81f9256f047e0ec67f72da0a9d3fbcc93850df58ec729a0ef99d314a76cb5bd2int,
        0xa42f73d53e43abc111b141896eab937c9df0a60ea0e4bcec4dbbe249b30b9cd4int,
        0x1fca66795a01037839c33911403096552e1afe66ba6749e53be385632ba12201int,
        0x5125159d5297487a88125903cd40082575916ec008e3d0d2bc7ab3364a3abf24int,
        0x975a663a1f36e0e48d02b42bb99f96a8dd42bdb06fdaf62ccff80ae0fe9e1c5dint,
        0x17040855f292924d480ddb4cf7a7118b0db0f48051ad76eebf6dbaf123ddf688int,
        0xd165d1506e421eb3635e60511e0b8b2be443b785054b340eec01e6146ea7548eint,
        0x96312e9f2a4eff62603beaeab4353cc69ea44c40fdec359efac3e409b5d4a2bcint);
    lemma_double_add(x, 0x3fffffffc00000004000000000000000000000003fffffffffffffffffffffffint,
        0xd165d1506e421eb3635e60511e0b8b2be443b785054b340eec01e6146ea7548eint,
        0x96312e9f2a4eff62603beaeab4353cc69ea44c40fdec359efac3e409b5d4a2bcint,
        0x975a663a1f36e0e48d02b42bb99f96a8dd42bdb06fdaf62ccff80ae0fe9e1c5dint,
        0xeee853f5b9d83770a4265daa12fbc66ed301cc2e4c99377e124bd313313ae84int,
        0x16eea4bf4269988edb01ce4e6f2b698404ada30a5c6339bddcef3c480c563e2int,
        0x4ebd5a2eac814f9db9b9f8671734c1bddce16d9a7dabe2dfecf78d06ca7adeb0int,
        0x8b3f7ae58d8dbc278e768891ca51bac13cdba4ecb124fd2a9b1a87d91bf808eint,
        0xfb2693cb6121725037704f0fe6ce01a083d465925dcd3c17a80b644592844a94int);
    lemma_double_add(x, 0x7fffffff800000008000000000000000000000007fffffffffffffffffffffffint,
        0x8b3f7ae58d8dbc278e768891ca51bac13cdba4ecb124fd2a9b1a87d91bf808eint,
        0xfb2693cb6121725037704f0fe6ce01a083d465925dcd3c17a80b644592844a94int,
        0x16eea4bf4269988edb01ce4e6f2b698404ada30a5c6339bddcef3c480c563e2int,
        0xcfb1d38f8d2db0573f671e6a413f6fac9b1845082aa6ae95e442f4d2b00d62ecint,
        0x368fbbcd696676a0341535e2f5c2448c25b58fb7587e14be8d657ae5d2ec63f1int,
        0x6e9330c51a26e82b2aae9e672862260631f2f5d573ca68a2e85a28d7151ad1caint,
        0x92e088642d3312c097d5943a147b76e7b494e0924f03d682e5350a345a27381dint,
        0x1b6b65e0dba268d6bf72f99fba65e1bf30f126868605e87e9d516f57ef5dd84cint);
}

/// A quadratic relation, solved for the square.
proof fn lemma_solve_square(x: int, q0: int, q1: int, q2: int, i: int, s: int, r: int)
    requires
        fp::vanishes(q0 + q1 * x + q2 * (x * x) - x),
        (q2 * i) % certificates::field_modulus() == 1,
        (s + (q1 - 1) * i) % certificates::field_modulus() == 0,
        (r + q0 * i) % certificates::field_modulus() == 0,
    ensures
        fp::vanishes(x * x - (s * x + r)),
{
    fp::lemma_same(q2 * i, 1);
    lemma_small_mod(1, fp::p() as nat);
    fp::lemma_vanishes(s + (q1 - 1) * i);
    fp::lemma_vanishes(r + q0 * i);
    lemma_square_solution(x, q0, q1, q2, i, s, r);
}

/// A quadratic relation, solved for the square.
proof fn lemma_square_solution(x: int, q0: int, q1: int, q2: int, i: int, s: int, r: int)
    requires
        fp::vanishes(q0 + q1 * x + q2 * (x * x) - x),
        fp::vanishes(q2 * i - 1),
        fp::vanishes(s + (q1 - 1) * i),
        fp::vanishes(r + q0 * i),
    ensures
        fp::vanishes(x * x - (s * x + r)),
{
    fp::lemma_scale(i, q0 + q1 * x + q2 * (x * x) - x);
    fp::lemma_scale((x * x), q2 * i - 1);
    fp::lemma_scale(x, s + (q1 - 1) * i);
    fp::lemma_add(i * (q0 + q1 * x + q2 * (x * x) - x), (x * x) * (q2 * i - 1));
    fp::lemma_add(i * (q0 + q1 * x + q2 * (x * x) - x) - (x * x) * (q2 * i - 1), x * (s + (q1 -
        1) * i));
    fp::lemma_add(i * (q0 + q1 * x + q2 * (x * x) - x) - (x * x) * (q2 * i - 1) - x * (s + (q1 -
        1) * i), (r + q0 * i));
    assert(x * x - (s * x + r) == i * (q0 + q1 * x + q2 * (x * x) - x) - (x * x) * (q2 * i - 1)
        - x * (s + (q1 - 1) * i) - (r + q0 * i)) by {
        assert((s * x) == (x * s)) by {
            lemma_mul_is_commutative(s, x);
        }
        assert((q1 * x) == (x * q1)) by {
            lemma_mul_is_commutative(q1, x);
        }
        assert((q2 * (x * x)) == (x * x * q2)) by {
            lemma_mul_is_associative(q2, x, x);
            lemma_mul_is_commutative(q2, x);
            identities::lemma_exchange(x, q2, x);
        }
        assert((i * (((q0 + (q1 * x)) + (q2 * (x * x))) - x)) == 0 - (x * i) + (q0 * i) + (x *
            q1 * i) + (x * x * q2 * i)) by {
            assert((((q0 + (q1 * x)) + (q2 * (x * x))) - x) == 0 - x + q0 + (x * q1) + (x * x *
                q2));
            lemma_mul_is_distributive_add(i, 0 - x + q0 + (x * q1), (x * x * q2));
            lemma_mul_is_distributive_add(i, 0 - x + q0, (x * q1));
            lemma_mul_is_distributive_add(i, 0 - x, q0);
            lemma_mul_is_distributive_sub(i, 0, x);
            lemma_mul_is_commutative(i, x);
            lemma_mul_is_commutative(i, q0);
            lemma_mul_is_associative(i, x, q1);
            identities::lemma_exchange(x, i, q1);
            lemma_mul_is_associative(i, x * x, q2);
            lemma_mul_is_associative(i, x, x);
            identities::lemma_exchange(x, i, x);
            identities::lemma_exchange(x * x, i, q2);
        }
        assert(((x * x) * ((q2 * i) - 1)) == 0 - (x * x) + (x * x * q2 * i)) by {
            assert(((q2 * i) - 1) == 0 - 1 + (q2 * i));
            lemma_mul_is_distributive_add((x * x), 0 - 1, (q2 * i));
            lemma_mul_is_distributive_sub((x * x), 0, 1);
            lemma_mul_is_associative(x * x, q2, i);
        }
        assert(((q1 - 1) * i) == 0 - i + (q1 * i)) by {
            assert((q1 - 1) == 0 - 1 + q1);
            lemma_mul_is_distributive_add_other_way(i, 0 - 1, q1);
            lemma_mul_is_distributive_sub_other_way(i, 0, 1);
        }
        assert((x * (s + ((q1 - 1) * i))) == 0 - (x * i) + (x * s) + (x * q1 * i)) by {
            assert((s + ((q1 - 1) * i)) == 0 - i + s + (q1 * i));
            lemma_mul_is_distributive_add(x, 0 - i + s, (q1 * i));
            lemma_mul_is_distributive_add(x, 0 - i, s);
            lemma_mul_is_distributive_sub(x, 0, i);
            lemma_mul_is_associative(x, q1, i);
        }
    }
}

/// The linear relation that follows from a cubic and a quadratic one.
proof fn lemma_linear_relation(x: int, b: int, s: int, r: int)
    requires
        fp::vanishes(x * x * x - 3 * x + b),
        fp::vanishes(x * x - (s * x + r)),
    ensures
        fp::vanishes((s * s + r - 3) * x + (s * r + b)),
{
    fp::lemma_scale((x + s), x * x - (s * x + r));
    fp::lemma_add((x * x * x - 3 * x + b), (x + s) * (x * x - (s * x + r)));
    assert((s * s + r - 3) * x + (s * r + b) == (x * x * x - 3 * x + b) - (x + s) * (x * x - (s
        * x + r))) by {
        assert(((((s * s) + r) - 3) * x) == 0 - (3 * x) + (x * r) + (x * s * s)) by {
            assert((((s * s) + r) - 3) == 0 - 3 + r + (s * s));
            lemma_mul_is_distributive_add_other_way(x, 0 - 3 + r, (s * s));
            lemma_mul_is_distributive_add_other_way(x, 0 - 3, r);
            lemma_mul_is_distributive_sub_other_way(x, 0, 3);
            lemma_mul_is_commutative(r, x);
            identities::lemma_exchange(s, s, x);
            lemma_mul_is_commutative(s, x);
        }
        assert((s * x) == (x * s)) by {
            lemma_mul_is_commutative(s, x);
        }
        assert(((x + s) * ((x * x) - ((s * x) + r))) == 0 - (x * r) - (s * r) + (x * x * x) - (x
            * s * s)) by {
            assert(((x * x) - ((s * x) + r)) == 0 - r + (x * x) - (x * s));
            lemma_mul_is_distributive_add_other_way(0 - r + (x * x) - (x * s), x, s);
            lemma_mul_is_distributive_sub(x, 0 - r + (x * x), (x * s));
            lemma_mul_is_distributive_add(x, 0 - r, (x * x));
            lemma_mul_is_distributive_sub(x, 0, r);
            lemma_mul_is_distributive_sub(s, 0 - r + (x * x), (x * s));
            lemma_mul_is_distributive_add(s, 0 - r, (x * x));
            lemma_mul_is_distributive_sub(s, 0, r);
            lemma_mul_is_associative(x, x, x);
            lemma_mul_is_associative(x, x, s);
            lemma_mul_is_associative(s, x, x);
            lemma_mul_is_commutative(s, x);
            identities::lemma_exchange(x, s, x);
            lemma_mul_is_associative(s, x, s);
        }
    }
}

/// A linear relation, solved.
proof fn lemma_linear_solution(x: int, k0: int, k1: int, i: int, g: int)
    requires
        fp::vanishes(k1 * x + k0),
        fp::vanishes(k1 * i - 1),
        fp::vanishes(g + k0 * i),
    ensures
        fp::vanishes(x - g),
{
    fp::lemma_scale(i, k1 * x + k0);
    fp::lemma_scale(x, k1 * i - 1);
    fp::lemma_add(i * (k1 * x + k0), x * (k1 * i - 1));
    fp::lemma_add(i * (k1 * x + k0) - x * (k1 * i - 1), (g + k0 * i));
    assert(x - g == i * (k1 * x + k0) - x * (k1 * i - 1) - (g + k0 * i)) by {
        assert((k1 * x) == (x * k1)) by {
            lemma_mul_is_commutative(k1, x);
        }
        assert((i * ((k1 * x) + k0)) == (k0 * i) + (x * k1 * i)) by {
            assert(((k1 * x) + k0) == k0 + (x * k1));
            lemma_mul_is_distributive_add(i, k0, (x * k1));
            lemma_mul_is_commutative(i, k0);
            lemma_mul_is_associative(i, x, k1);
            lemma_mul_is_commutative(i, x);
            identities::lemma_exchange(x, i, k1);
        }
        assert((x * ((k1 * i) - 1)) == 0 - x + (x * k1 * i)) by {
            assert(((k1 * i) - 1) == 0 - 1 + (k1 * i));
            lemma_mul_is_distributive_add(x, 0 - 1, (k1 * i));
            lemma_mul_is_distributive_sub(x, 0, 1);
            lemma_mul_is_associative(x, k1, i);
        }
    }
}

/// The cubic has no root.
pub proof fn lemma_no_root(x: int)
    ensures
        !fp::vanishes(curve::cubic(x)),
{
    if fp::vanishes(curve::cubic(x)) {
        lemma_pow1(x);
        fp::lemma_zero();
        lemma_mul_basics(x);
        lemma_mul_basics(x * x);
        assert(power_is(x, 0x1int, 0x0int, 0x1int, 0x0int));
        lemma_powers_1(x);
        lemma_powers_2(x);
        lemma_powers_3(x);
        lemma_powers_4(x);
        lemma_powers_5(x);
        lemma_powers_6(x);
        lemma_powers_7(x);
        lemma_powers_8(x);
        lemma_powers_9(x);
        lemma_powers_10(x);
        lemma_powers_11(x);
        lemma_powers_12(x);
        lemma_powers_13(x);
        lemma_powers_14(x);
        lemma_powers_15(x);
        lemma_powers_16(x);
        lemma_powers_17(x);
        lemma_powers_18(x);
        lemma_powers_19(x);
        lemma_powers_20(x);
        lemma_powers_21(x);
        lemma_powers_22(x);
        lemma_powers_23(x);
        lemma_powers_24(x);
        lemma_powers_25(x);
        lemma_powers_26(x);
        lemma_powers_27(x);
        lemma_powers_28(x);
        lemma_powers_29(x);
        lemma_powers_30(x);
        lemma_powers_31(x);
        lemma_powers_32(x);
        lemma_own_power(x);
        let q = 0x92e088642d3312c097d5943a147b76e7b494e0924f03d682e5350a345a27381dint +
            0x1b6b65e0dba268d6bf72f99fba65e1bf30f126868605e87e9d516f57ef5dd84cint * x +
            0x368fbbcd696676a0341535e2f5c2448c25b58fb7587e14be8d657ae5d2ec63f1int * (x * x);
        fp::lemma_shift(pow(x, fp::p() as nat), q);
        fp::lemma_trans(q, pow(x, fp::p() as nat), x);
        lemma_solve_square(
            x,
            0x92e088642d3312c097d5943a147b76e7b494e0924f03d682e5350a345a27381dint,
            0x1b6b65e0dba268d6bf72f99fba65e1bf30f126868605e87e9d516f57ef5dd84cint,
            0x368fbbcd696676a0341535e2f5c2448c25b58fb7587e14be8d657ae5d2ec63f1int,
            0xd8e312e63271273799387a0b394724d5fc2e58131287567f5c3420f70043b4cint,
            0x66f22ed8bf9d51b9dc676cc652126815dd15d4e9e392d7a0d2bdc4f8141d28ccint,
            0x2int,
        );
        lemma_linear_relation(x, curve::b(),
            0x66f22ed8bf9d51b9dc676cc652126815dd15d4e9e392d7a0d2bdc4f8141d28ccint, 0x2int);
        lemma_not_a_root(
            x,
            0x66f22ed8bf9d51b9dc676cc652126815dd15d4e9e392d7a0d2bdc4f8141d28ccint,
            0x2int,
            0x4132fe37f42a3bcd68fbd52c34d2d27b2912ffabb57dd41e9245ab90ae2cfa27int,
            0x28aa938b2975375a6cba96e21abd56e81f48b08393796037e149c62e500cb1e4int,
            0x744f1550af5e4c43e911e45bcdc803830a6c83a7109dbad05153dedf3c7c3b60int,
            0x1e61b8afa478f911d9e2e2b5d28a72d3c88fa851c202208054b0315e9698aec2int,
            0x95b4bba42383839e517c0b19d98ce11e8f9ef6ddd617bf67c29b6ef7faac8a12int,
            0x701baa0d96d8d7c35c1b18d513180b742ce3e5902be17240f617b7be101ded46int,
        );
    }
}

/// Fermat's little theorem, for every number.
proof fn lemma_own_power(x: int)
    ensures
        fp::vanishes(pow(x, fp::p() as nat) - x),
{
    let f = pow(x, (fp::p() - 1) as nat);
    lemma_pow1(x);
    lemma_pow_adds(x, 1, (fp::p() - 1) as nat);
    if fp::vanishes(x) {
        fp::lemma_scale(f, x);
        fp::lemma_add(x * f, x);
    } else {
        fp::lemma_fermat(x);
        fp::lemma_scale(x, f - 1);
        lemma_mul_is_distributive_sub(x, f, 1);
    }
}

/// The linear relation determines the number, and the cubic is not 0 there.
proof fn lemma_not_a_root(
    x: int,
    s: int,
    r: int,
    k1: int,
    k0: int,
    i: int,
    g: int,
    h: int,
    w: int,
)
    requires
        fp::vanishes((s * s + r - 3) * x + (s * r + curve::b())),
        (s * s + r - 3 - k1) % certificates::field_modulus() == 0,
        (s * r + curve::b() - k0) % certificates::field_modulus() == 0,
        (k1 * i) % certificates::field_modulus() == 1,
        (g + k0 * i) % certificates::field_modulus() == 0,
        (g * g) % certificates::field_modulus() == h,
        (h * g - 3 * g + curve::b()) % certificates::field_modulus() == w,
        w != 0,
    ensures
        !fp::vanishes(curve::cubic(x)),
{
    let (l1, l0) = (s * s + r - 3, s * r + curve::b());
    fp::lemma_vanishes(l1 - k1);
    fp::lemma_vanishes(l0 - k0);
    fp::lemma_scale(x, l1 - k1);
    lemma_mul_is_distributive_sub_other_way(x, l1, k1);
    fp::lemma_add(l1 * x + l0, (l1 - k1) * x);
    fp::lemma_add((l1 * x + l0) - (l1 - k1) * x, l0 - k0);
    fp::lemma_same(k1 * i, 1);
    lemma_small_mod(1, fp::p() as nat);
    fp::lemma_vanishes(g + k0 * i);
    lemma_linear_solution(x, k0, k1, i, g);
    // the cubic at x is the cubic at g
    fp::lemma_mul(x, g, x, g);
    fp::lemma_reduce(g * g);
    fp::lemma_trans(x * x, g * g, h);
    fp::lemma_mul(x * x, h, x, g);
    fp::lemma_scale(3, x - g);
    fp::lemma_add(x * x * x - h * g, 3 * (x - g));
    let c = h * g - 3 * g + curve::b();
    fp::lemma_shift(curve::cubic(x), c);
    fp::lemma_vanishes(c);
}

} // verus!
