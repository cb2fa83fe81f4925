//! Polynomial identities behind the chord and tangent rule.
//!
//! Each lemma derives one congruence from others by exhibiting it as a
//! combination of them. The combination is checked by expanding both sides:
//! products are distributed term by term, and the factors of each term sorted.
use crate::math::fp;
use vstd::arithmetic::mul::*;
use vstd::prelude::*;

verus! {

/// Moves a factor past another.
pub proof fn lemma_exchange(a: int, b: int, c: int)
    ensures
        (a * b) * c == (a * c) * b,
{
    lemma_mul_is_associative(a, b, c);
    lemma_mul_is_commutative(b, c);
    lemma_mul_is_associative(a, c, b);
}

/// Moves a factor outward.
pub proof fn lemma_outward(a: int, b: int, c: int)
    ensures
        a * (b * c) == b * (a * c),
{
    lemma_mul_is_associative(a, b, c);
    lemma_mul_is_commutative(a, b);
    lemma_mul_is_associative(b, a, c);
}

/// Collects coefficients.
pub proof fn lemma_coefficients(c: int, a: int, d: int, b: int)
    ensures
        (c * a) * (d * b) == (c * d) * (a * b),
{
    lemma_mul_is_associative(c, a, d * b);
    lemma_outward(a, d, b);
    lemma_mul_is_associative(c, d, a * b);
}

/// The slope of a chord in terms of the sum of the ordinates.
pub proof fn lemma_chord_relation(x1: int, y1: int, x2: int, y2: int, l: int, c: int)
    requires
        fp::vanishes(y1 * y1 - (x1 * x1 * x1 - 3 * x1 + c)),
        fp::vanishes(y2 * y2 - (x2 * x2 * x2 - 3 * x2 + c)),
        fp::vanishes((y2 - y1) - l * (x2 - x1)),
    ensures
        fp::vanishes((x2 - x1) * ((x1 * x1 + x1 * x2 + x2 * x2 - 3) - l * (y1 + y2))),
{
    fp::lemma_scale(y1 + y2, (y2 - y1) - l * (x2 - x1));
    fp::lemma_add((y1 * y1 - (x1 * x1 * x1 - 3 * x1 + c)), (y2 * y2 - (x2 * x2 * x2 - 3 * x2 + c)));
    fp::lemma_add((y1 * y1 - (x1 * x1 * x1 - 3 * x1 + c)) - (y2 * y2 - (x2 * x2 * x2 - 3 * x2 +
        c)), (y1 + y2) * ((y2 - y1) - l * (x2 - x1)));
    assert((x2 - x1) * ((x1 * x1 + x1 * x2 + x2 * x2 - 3) - l * (y1 + y2)) == (y1 * y1 - (x1 *
        x1 * x1 - 3 * x1 + c)) - (y2 * y2 - (x2 * x2 * x2 - 3 * x2 + c)) + (y1 + y2) * ((y2 - y1) -
        l * (x2 - x1))) by {
        assert((l * (y1 + y2)) == (y1 * l) + (y2 * l)) by {
            lemma_mul_is_distributive_add(l, y1, y2);
            lemma_mul_is_commutative(l, y1);
            lemma_mul_is_commutative(l, y2);
        }
        assert(((x2 - x1) * (((((x1 * x1) + (x1 * x2)) + (x2 * x2)) - 3) - (l * (y1 + y2)))) ==
            (3 * x1) - (3 * x2) - (x1 * x1 * x1) + (x1 * y1 * l) + (x1 * y2 * l) - (y1 * x2 * l) +
            (x2 * x2 * x2) - (x2 * y2 * l)) by {
            assert((x2 - x1) == 0 - x1 + x2);
            assert((((((x1 * x1) + (x1 * x2)) + (x2 * x2)) - 3) - (l * (y1 + y2))) == 0 - 3 +
                (x1 * x1) + (x1 * x2) - (y1 * l) + (x2 * x2) - (y2 * l));
            lemma_mul_is_distributive_add_other_way(0 - 3 + (x1 * x1) + (x1 * x2) - (y1 * l) +
                (x2 * x2) - (y2 * l), 0 - x1, x2);
            lemma_mul_is_distributive_sub_other_way(0 - 3 + (x1 * x1) + (x1 * x2) - (y1 * l) +
                (x2 * x2) - (y2 * l), 0, x1);
            lemma_mul_is_distributive_sub(x1, 0 - 3 + (x1 * x1) + (x1 * x2) - (y1 * l) + (x2 *
                x2), (y2 * l));
            lemma_mul_is_distributive_add(x1, 0 - 3 + (x1 * x1) + (x1 * x2) - (y1 * l), (x2 * x2));
            lemma_mul_is_distributive_sub(x1, 0 - 3 + (x1 * x1) + (x1 * x2), (y1 * l));
            lemma_mul_is_distributive_add(x1, 0 - 3 + (x1 * x1), (x1 * x2));
            lemma_mul_is_distributive_add(x1, 0 - 3, (x1 * x1));
            lemma_mul_is_distributive_sub(x1, 0, 3);
            lemma_mul_is_distributive_sub(x2, 0 - 3 + (x1 * x1) + (x1 * x2) - (y1 * l) + (x2 *
                x2), (y2 * l));
            lemma_mul_is_distributive_add(x2, 0 - 3 + (x1 * x1) + (x1 * x2) - (y1 * l), (x2 * x2));
            lemma_mul_is_distributive_sub(x2, 0 - 3 + (x1 * x1) + (x1 * x2), (y1 * l));
            lemma_mul_is_distributive_add(x2, 0 - 3 + (x1 * x1), (x1 * x2));
            lemma_mul_is_distributive_add(x2, 0 - 3, (x1 * x1));
            lemma_mul_is_distributive_sub(x2, 0, 3);
            lemma_mul_is_associative(x1, x1, x1);
            lemma_mul_is_associative(x1, x1, x2);
            lemma_mul_is_associative(x1, y1, l);
            lemma_mul_is_associative(x1, x2, x2);
            lemma_mul_is_associative(x1, y2, l);
            lemma_mul_is_associative(x2, x1, x1);
            lemma_mul_is_commutative(x2, x1);
            lemma_exchange(x1, x2, x1);
            lemma_mul_is_associative(x2, x1, x2);
            lemma_mul_is_associative(x2, y1, l);
            lemma_mul_is_commutative(x2, y1);
            lemma_mul_is_associative(x2, x2, x2);
            lemma_mul_is_associative(x2, y2, l);
        }
        assert((l * (x2 - x1)) == 0 - (x1 * l) + (x2 * l)) by {
            assert((x2 - x1) == 0 - x1 + x2);
            lemma_mul_is_distributive_add(l, 0 - x1, x2);
            lemma_mul_is_distributive_sub(l, 0, x1);
            lemma_mul_is_commutative(l, x1);
            lemma_mul_is_commutative(l, x2);
        }
        assert(((y1 + y2) * ((y2 - y1) - (l * (x2 - x1)))) == 0 - (y1 * y1) + (y2 * y2) + (x1 *
            y1 * l) + (x1 * y2 * l) - (y1 * x2 * l) - (x2 * y2 * l)) by {
            assert(((y2 - y1) - (l * (x2 - x1))) == 0 - y1 + y2 + (x1 * l) - (x2 * l));
            lemma_mul_is_distributive_add_other_way(0 - y1 + y2 + (x1 * l) - (x2 * l), y1, y2);
            lemma_mul_is_distributive_sub(y1, 0 - y1 + y2 + (x1 * l), (x2 * l));
            lemma_mul_is_distributive_add(y1, 0 - y1 + y2, (x1 * l));
            lemma_mul_is_distributive_add(y1, 0 - y1, y2);
            lemma_mul_is_distributive_sub(y1, 0, y1);
            lemma_mul_is_distributive_sub(y2, 0 - y1 + y2 + (x1 * l), (x2 * l));
            lemma_mul_is_distributive_add(y2, 0 - y1 + y2, (x1 * l));
            lemma_mul_is_distributive_add(y2, 0 - y1, y2);
            lemma_mul_is_distributive_sub(y2, 0, y1);
            lemma_mul_is_associative(y1, x1, l);
            lemma_mul_is_commutative(y1, x1);
            lemma_mul_is_associative(y1, x2, l);
            lemma_mul_is_commutative(y2, y1);
            lemma_mul_is_associative(y2, x1, l);
            lemma_mul_is_commutative(y2, x1);
            lemma_mul_is_associative(y2, x2, l);
            lemma_mul_is_commutative(y2, x2);
        }
    }
}

/// The cubic minus the square of a line is the product over the three points
/// on the line.
pub proof fn lemma_line_cubic(z: int, x1: int, y1: int, x2: int, y2: int, x3: int, l: int, c: int)
    requires
        fp::vanishes(y1 * y1 - (x1 * x1 * x1 - 3 * x1 + c)),
        fp::vanishes((y2 - y1) - l * (x2 - x1)),
        fp::vanishes((x1 * x1 + x1 * x2 + x2 * x2 - 3) - l * (y1 + y2)),
        fp::vanishes(x3 - (l * l - x1 - x2)),
    ensures
        fp::vanishes((z * z * z - 3 * z + c) - (y1 + l * (z - x1)) * (y1 + l * (z - x1)) - (z -
            x1) * (z - x2) * (z - x3)),
{
    fp::lemma_scale((z - x1) * l, (y2 - y1) - l * (x2 - x1));
    fp::lemma_scale(z - x1, (x1 * x1 + x1 * x2 + x2 * x2 - 3) - l * (y1 + y2));
    fp::lemma_scale((z - x1) * (z - x2), x3 - (l * l - x1 - x2));
    fp::lemma_zero();
    fp::lemma_add(0, (y1 * y1 - (x1 * x1 * x1 - 3 * x1 + c)));
    fp::lemma_add(0 - (y1 * y1 - (x1 * x1 * x1 - 3 * x1 + c)), (z - x1) * l * ((y2 - y1) - l *
        (x2 - x1)));
    fp::lemma_add(0 - (y1 * y1 - (x1 * x1 * x1 - 3 * x1 + c)) + (z - x1) * l * ((y2 - y1) - l *
        (x2 - x1)), (z - x1) * ((x1 * x1 + x1 * x2 + x2 * x2 - 3) - l * (y1 + y2)));
    fp::lemma_add(0 - (y1 * y1 - (x1 * x1 * x1 - 3 * x1 + c)) + (z - x1) * l * ((y2 - y1) - l *
        (x2 - x1)) + (z - x1) * ((x1 * x1 + x1 * x2 + x2 * x2 - 3) - l * (y1 + y2)), (z - x1) * (z -
        x2) * (x3 - (l * l - x1 - x2)));
    assert((z * z * z - 3 * z + c) - (y1 + l * (z - x1)) * (y1 + l * (z - x1)) - (z - x1) * (z -
        x2) * (z - x3) == 0 - (y1 * y1 - (x1 * x1 * x1 - 3 * x1 + c)) + (z - x1) * l * ((y2 - y1) -
        l * (x2 - x1)) + (z - x1) * ((x1 * x1 + x1 * x2 + x2 * x2 - 3) - l * (y1 + y2)) + (z - x1) *
        (z - x2) * (x3 - (l * l - x1 - x2))) by {
        assert((l * (z - x1)) == (z * l) - (x1 * l)) by {
            lemma_mul_is_distributive_sub(l, z, x1);
            lemma_mul_is_commutative(l, z);
            lemma_mul_is_commutative(l, x1);
        }
        assert(((y1 + (l * (z - x1))) * (y1 + (l * (z - x1)))) == (y1 * y1) + (2 * (z * y1 * l))
            - (2 * (x1 * y1 * l)) + (z * z * l * l) - (2 * (z * x1 * l * l)) + (x1 * x1 * l * l)) by
            {
            assert((y1 + (l * (z - x1))) == y1 + (z * l) - (x1 * l));
            lemma_mul_is_distributive_sub_other_way(y1 + (z * l) - (x1 * l), y1 + (z * l), (x1 *
                l));
            lemma_mul_is_distributive_add_other_way(y1 + (z * l) - (x1 * l), y1, (z * l));
            lemma_mul_is_distributive_sub(y1, y1 + (z * l), (x1 * l));
            lemma_mul_is_distributive_add(y1, y1, (z * l));
            lemma_mul_is_distributive_sub((z * l), y1 + (z * l), (x1 * l));
            lemma_mul_is_distributive_add((z * l), y1, (z * l));
            lemma_mul_is_distributive_sub((x1 * l), y1 + (z * l), (x1 * l));
            lemma_mul_is_distributive_add((x1 * l), y1, (z * l));
            lemma_mul_is_associative(y1, z, l);
            lemma_mul_is_commutative(y1, z);
            lemma_mul_is_associative(y1, x1, l);
            lemma_mul_is_commutative(y1, x1);
            lemma_exchange(z, l, y1);
            lemma_mul_is_associative(z * l, z, l);
            lemma_exchange(z, l, z);
            lemma_mul_is_associative(z * l, x1, l);
            lemma_exchange(z, l, x1);
            lemma_exchange(x1, l, y1);
            lemma_mul_is_associative(x1 * l, z, l);
            lemma_exchange(x1, l, z);
            lemma_mul_is_commutative(x1, z);
            lemma_mul_is_associative(x1 * l, x1, l);
            lemma_exchange(x1, l, x1);
        }
        assert(((z - x1) * (z - x2)) == (z * z) - (z * x1) - (z * x2) + (x1 * x2)) by {
            lemma_mul_is_distributive_sub_other_way(z - x2, z, x1);
            lemma_mul_is_distributive_sub(z, z, x2);
            lemma_mul_is_distributive_sub(x1, z, x2);
            lemma_mul_is_commutative(x1, z);
        }
        assert((((z - x1) * (z - x2)) * (z - x3)) == (z * z * z) - (z * z * x1) - (z * z * x2) -
            (z * z * x3) + (z * x1 * x2) + (z * x1 * x3) + (z * x2 * x3) - (x1 * x2 * x3)) by {
            assert(((z - x1) * (z - x2)) == (z * z) - (z * x1) - (z * x2) + (x1 * x2));
            lemma_mul_is_distributive_add_other_way(z - x3, (z * z) - (z * x1) - (z * x2), (x1 *
                x2));
            lemma_mul_is_distributive_sub_other_way(z - x3, (z * z) - (z * x1), (z * x2));
            lemma_mul_is_distributive_sub_other_way(z - x3, (z * z), (z * x1));
            lemma_mul_is_distributive_sub((z * z), z, x3);
            lemma_mul_is_distributive_sub((z * x1), z, x3);
            lemma_mul_is_distributive_sub((z * x2), z, x3);
            lemma_mul_is_distributive_sub((x1 * x2), z, x3);
            lemma_exchange(z, x1, z);
            lemma_exchange(z, x2, z);
            lemma_exchange(x1, x2, z);
            lemma_mul_is_commutative(x1, z);
        }
        assert(((z - x1) * l) == (z * l) - (x1 * l)) by {
            lemma_mul_is_distributive_sub_other_way(l, z, x1);
        }
        assert((l * (x2 - x1)) == 0 - (x1 * l) + (x2 * l)) by {
            assert((x2 - x1) == 0 - x1 + x2);
            lemma_mul_is_distributive_add(l, 0 - x1, x2);
            lemma_mul_is_distributive_sub(l, 0, x1);
            lemma_mul_is_commutative(l, x1);
            lemma_mul_is_commutative(l, x2);
        }
        assert((((z - x1) * l) * ((y2 - y1) - (l * (x2 - x1)))) == 0 - (z * y1 * l) + (z * y2 *
            l) + (x1 * y1 * l) - (x1 * y2 * l) + (z * x1 * l * l) - (z * x2 * l * l) - (x1 * x1 * l
            * l) + (x1 * x2 * l * l)) by {
            assert(((z - x1) * l) == (z * l) - (x1 * l));
            assert(((y2 - y1) - (l * (x2 - x1))) == 0 - y1 + y2 + (x1 * l) - (x2 * l));
            lemma_mul_is_distributive_sub_other_way(0 - y1 + y2 + (x1 * l) - (x2 * l), (z * l),
                (x1 * l));
            lemma_mul_is_distributive_sub((z * l), 0 - y1 + y2 + (x1 * l), (x2 * l));
            lemma_mul_is_distributive_add((z * l), 0 - y1 + y2, (x1 * l));
            lemma_mul_is_distributive_add((z * l), 0 - y1, y2);
            lemma_mul_is_distributive_sub((z * l), 0, y1);
            lemma_mul_is_distributive_sub((x1 * l), 0 - y1 + y2 + (x1 * l), (x2 * l));
            lemma_mul_is_distributive_add((x1 * l), 0 - y1 + y2, (x1 * l));
            lemma_mul_is_distributive_add((x1 * l), 0 - y1, y2);
            lemma_mul_is_distributive_sub((x1 * l), 0, y1);
            lemma_exchange(z, l, y1);
            lemma_exchange(z, l, y2);
            lemma_mul_is_associative(z * l, x1, l);
            lemma_exchange(z, l, x1);
            lemma_mul_is_associative(z * l, x2, l);
            lemma_exchange(z, l, x2);
            lemma_exchange(x1, l, y1);
            lemma_exchange(x1, l, y2);
            lemma_mul_is_associative(x1 * l, x1, l);
            lemma_exchange(x1, l, x1);
            lemma_mul_is_associative(x1 * l, x2, l);
            lemma_exchange(x1, l, x2);
        }
        assert((l * (y1 + y2)) == (y1 * l) + (y2 * l)) by {
            lemma_mul_is_distributive_add(l, y1, y2);
            lemma_mul_is_commutative(l, y1);
            lemma_mul_is_commutative(l, y2);
        }
        assert(((z - x1) * (((((x1 * x1) + (x1 * x2)) + (x2 * x2)) - 3) - (l * (y1 + y2)))) == 0
            - (3 * z) + (3 * x1) + (z * x1 * x1) + (z * x1 * x2) - (z * y1 * l) + (z * x2 * x2) - (z
            * y2 * l) - (x1 * x1 * x1) - (x1 * x1 * x2) + (x1 * y1 * l) - (x1 * x2 * x2) + (x1 * y2
            * l)) by {
            assert((((((x1 * x1) + (x1 * x2)) + (x2 * x2)) - 3) - (l * (y1 + y2))) == 0 - 3 +
                (x1 * x1) + (x1 * x2) - (y1 * l) + (x2 * x2) - (y2 * l));
            lemma_mul_is_distributive_sub_other_way(0 - 3 + (x1 * x1) + (x1 * x2) - (y1 * l) +
                (x2 * x2) - (y2 * l), z, x1);
            lemma_mul_is_distributive_sub(z, 0 - 3 + (x1 * x1) + (x1 * x2) - (y1 * l) + (x2 *
                x2), (y2 * l));
            lemma_mul_is_distributive_add(z, 0 - 3 + (x1 * x1) + (x1 * x2) - (y1 * l), (x2 * x2));
            lemma_mul_is_distributive_sub(z, 0 - 3 + (x1 * x1) + (x1 * x2), (y1 * l));
            lemma_mul_is_distributive_add(z, 0 - 3 + (x1 * x1), (x1 * x2));
            lemma_mul_is_distributive_add(z, 0 - 3, (x1 * x1));
            lemma_mul_is_distributive_sub(z, 0, 3);
            lemma_mul_is_distributive_sub(x1, 0 - 3 + (x1 * x1) + (x1 * x2) - (y1 * l) + (x2 *
                x2), (y2 * l));
            lemma_mul_is_distributive_add(x1, 0 - 3 + (x1 * x1) + (x1 * x2) - (y1 * l), (x2 * x2));
            lemma_mul_is_distributive_sub(x1, 0 - 3 + (x1 * x1) + (x1 * x2), (y1 * l));
            lemma_mul_is_distributive_add(x1, 0 - 3 + (x1 * x1), (x1 * x2));
            lemma_mul_is_distributive_add(x1, 0 - 3, (x1 * x1));
            lemma_mul_is_distributive_sub(x1, 0, 3);
            lemma_mul_is_associative(z, x1, x1);
            lemma_mul_is_associative(z, x1, x2);
            lemma_mul_is_associative(z, y1, l);
            lemma_mul_is_associative(z, x2, x2);
            lemma_mul_is_associative(z, y2, l);
            lemma_mul_is_associative(x1, x1, x1);
            lemma_mul_is_associative(x1, x1, x2);
            lemma_mul_is_associative(x1, y1, l);
            lemma_mul_is_associative(x1, x2, x2);
            lemma_mul_is_associative(x1, y2, l);
        }
        assert((((z - x1) * (z - x2)) * (x3 - (((l * l) - x1) - x2))) == (z * z * x1) + (z * z *
            x2) + (z * z * x3) - (z * x1 * x1) - (2 * (z * x1 * x2)) - (z * x1 * x3) - (z * x2 * x2)
            - (z * x2 * x3) + (x1 * x1 * x2) + (x1 * x2 * x2) + (x1 * x2 * x3) - (z * z * l * l) +
            (z * x1 * l * l) + (z * x2 * l * l) - (x1 * x2 * l * l)) by {
            assert(((z - x1) * (z - x2)) == (z * z) - (z * x1) - (z * x2) + (x1 * x2));
            assert((x3 - (((l * l) - x1) - x2)) == x1 + x2 + x3 - (l * l));
            lemma_mul_is_distributive_add_other_way(x1 + x2 + x3 - (l * l), (z * z) - (z * x1) -
                (z * x2), (x1 * x2));
            lemma_mul_is_distributive_sub_other_way(x1 + x2 + x3 - (l * l), (z * z) - (z * x1),
                (z * x2));
            lemma_mul_is_distributive_sub_other_way(x1 + x2 + x3 - (l * l), (z * z), (z * x1));
            lemma_mul_is_distributive_sub((z * z), x1 + x2 + x3, (l * l));
            lemma_mul_is_distributive_add((z * z), x1 + x2, x3);
            lemma_mul_is_distributive_add((z * z), x1, x2);
            lemma_mul_is_distributive_sub((z * x1), x1 + x2 + x3, (l * l));
            lemma_mul_is_distributive_add((z * x1), x1 + x2, x3);
            lemma_mul_is_distributive_add((z * x1), x1, x2);
            lemma_mul_is_distributive_sub((z * x2), x1 + x2 + x3, (l * l));
            lemma_mul_is_distributive_add((z * x2), x1 + x2, x3);
            lemma_mul_is_distributive_add((z * x2), x1, x2);
            lemma_mul_is_distributive_sub((x1 * x2), x1 + x2 + x3, (l * l));
            lemma_mul_is_distributive_add((x1 * x2), x1 + x2, x3);
            lemma_mul_is_distributive_add((x1 * x2), x1, x2);
            lemma_mul_is_associative(z * z, l, l);
            lemma_mul_is_associative(z * x1, l, l);
            lemma_exchange(z, x2, x1);
            lemma_mul_is_associative(z * x2, l, l);
            lemma_exchange(x1, x2, x1);
            lemma_mul_is_associative(x1 * x2, l, l);
        }
    }
}

/// The reflected third point is on the curve.
pub proof fn lemma_reflection(x1: int, y1: int, x3: int, y3: int, l: int, c: int)
    requires
        fp::vanishes(y3 - (l * (x1 - x3) - y1)),
        fp::vanishes((x3 * x3 * x3 - 3 * x3 + c) - (y1 + l * (x3 - x1)) * (y1 + l * (x3 - x1))),
    ensures
        fp::vanishes(y3 * y3 - (x3 * x3 * x3 - 3 * x3 + c)),
{
    fp::lemma_scale(y3 - (y1 + l * (x3 - x1)), y3 - (l * (x1 - x3) - y1));
    fp::lemma_add((y3 - (y1 + l * (x3 - x1))) * (y3 - (l * (x1 - x3) - y1)), ((x3 * x3 * x3 - 3
        * x3 + c) - (y1 + l * (x3 - x1)) * (y1 + l * (x3 - x1))));
    assert(y3 * y3 - (x3 * x3 * x3 - 3 * x3 + c) == (y3 - (y1 + l * (x3 - x1))) * (y3 - (l * (x1
        - x3) - y1)) - ((x3 * x3 * x3 - 3 * x3 + c) - (y1 + l * (x3 - x1)) * (y1 + l * (x3 - x1))))
        by {
        assert((l * (x3 - x1)) == 0 - (x1 * l) + (x3 * l)) by {
            assert((x3 - x1) == 0 - x1 + x3);
            lemma_mul_is_distributive_add(l, 0 - x1, x3);
            lemma_mul_is_distributive_sub(l, 0, x1);
            lemma_mul_is_commutative(l, x1);
            lemma_mul_is_commutative(l, x3);
        }
        assert((l * (x1 - x3)) == (x1 * l) - (x3 * l)) by {
            lemma_mul_is_distributive_sub(l, x1, x3);
            lemma_mul_is_commutative(l, x1);
            lemma_mul_is_commutative(l, x3);
        }
        assert(((y3 - (y1 + (l * (x3 - x1)))) * (y3 - ((l * (x1 - x3)) - y1))) == 0 - (y1 * y1)
            + (y3 * y3) + (2 * (x1 * y1 * l)) - (2 * (y1 * x3 * l)) - (x1 * x1 * l * l) + (2 * (x1 *
            x3 * l * l)) - (x3 * x3 * l * l)) by {
            assert((y3 - (y1 + (l * (x3 - x1)))) == 0 - y1 + y3 + (x1 * l) - (x3 * l));
            assert((y3 - ((l * (x1 - x3)) - y1)) == y1 + y3 - (x1 * l) + (x3 * l));
            lemma_mul_is_distributive_sub_other_way(y1 + y3 - (x1 * l) + (x3 * l), 0 - y1 + y3 +
                (x1 * l), (x3 * l));
            lemma_mul_is_distributive_add_other_way(y1 + y3 - (x1 * l) + (x3 * l), 0 - y1 + y3,
                (x1 * l));
            lemma_mul_is_distributive_add_other_way(y1 + y3 - (x1 * l) + (x3 * l), 0 - y1, y3);
            lemma_mul_is_distributive_sub_other_way(y1 + y3 - (x1 * l) + (x3 * l), 0, y1);
            lemma_mul_is_distributive_add(y1, y1 + y3 - (x1 * l), (x3 * l));
            lemma_mul_is_distributive_sub(y1, y1 + y3, (x1 * l));
            lemma_mul_is_distributive_add(y1, y1, y3);
            lemma_mul_is_distributive_add(y3, y1 + y3 - (x1 * l), (x3 * l));
            lemma_mul_is_distributive_sub(y3, y1 + y3, (x1 * l));
            lemma_mul_is_distributive_add(y3, y1, y3);
            lemma_mul_is_distributive_add((x1 * l), y1 + y3 - (x1 * l), (x3 * l));
            lemma_mul_is_distributive_sub((x1 * l), y1 + y3, (x1 * l));
            lemma_mul_is_distributive_add((x1 * l), y1, y3);
            lemma_mul_is_distributive_add((x3 * l), y1 + y3 - (x1 * l), (x3 * l));
            lemma_mul_is_distributive_sub((x3 * l), y1 + y3, (x1 * l));
            lemma_mul_is_distributive_add((x3 * l), y1, y3);
            lemma_mul_is_associative(y1, x1, l);
            lemma_mul_is_commutative(y1, x1);
            lemma_mul_is_associative(y1, x3, l);
            lemma_mul_is_commutative(y3, y1);
            lemma_mul_is_associative(y3, x1, l);
            lemma_mul_is_commutative(y3, x1);
            lemma_mul_is_associative(y3, x3, l);
            lemma_mul_is_commutative(y3, x3);
            lemma_exchange(x1, l, y1);
            lemma_exchange(x1, l, y3);
            lemma_mul_is_associative(x1 * l, x1, l);
            lemma_exchange(x1, l, x1);
            lemma_mul_is_associative(x1 * l, x3, l);
            lemma_exchange(x1, l, x3);
            lemma_exchange(x3, l, y1);
            lemma_mul_is_commutative(x3, y1);
            lemma_exchange(x3, l, y3);
            lemma_mul_is_associative(x3 * l, x1, l);
            lemma_exchange(x3, l, x1);
            lemma_mul_is_commutative(x3, x1);
            lemma_mul_is_associative(x3 * l, x3, l);
            lemma_exchange(x3, l, x3);
        }
        assert(((y1 + (l * (x3 - x1))) * (y1 + (l * (x3 - x1)))) == (y1 * y1) - (2 * (x1 * y1 *
            l)) + (2 * (y1 * x3 * l)) + (x1 * x1 * l * l) - (2 * (x1 * x3 * l * l)) + (x3 * x3 * l *
            l)) by {
            assert((y1 + (l * (x3 - x1))) == y1 - (x1 * l) + (x3 * l));
            lemma_mul_is_distributive_add_other_way(y1 - (x1 * l) + (x3 * l), y1 - (x1 * l), (x3
                * l));
            lemma_mul_is_distributive_sub_other_way(y1 - (x1 * l) + (x3 * l), y1, (x1 * l));
            lemma_mul_is_distributive_add(y1, y1 - (x1 * l), (x3 * l));
            lemma_mul_is_distributive_sub(y1, y1, (x1 * l));
            lemma_mul_is_distributive_add((x1 * l), y1 - (x1 * l), (x3 * l));
            lemma_mul_is_distributive_sub((x1 * l), y1, (x1 * l));
            lemma_mul_is_distributive_add((x3 * l), y1 - (x1 * l), (x3 * l));
            lemma_mul_is_distributive_sub((x3 * l), y1, (x1 * l));
            lemma_mul_is_associative(y1, x1, l);
            lemma_mul_is_commutative(y1, x1);
            lemma_mul_is_associative(y1, x3, l);
            lemma_exchange(x1, l, y1);
            lemma_mul_is_associative(x1 * l, x1, l);
            lemma_exchange(x1, l, x1);
            lemma_mul_is_associative(x1 * l, x3, l);
            lemma_exchange(x1, l, x3);
            lemma_exchange(x3, l, y1);
            lemma_mul_is_commutative(x3, y1);
            lemma_mul_is_associative(x3 * l, x1, l);
            lemma_exchange(x3, l, x1);
            lemma_mul_is_commutative(x3, x1);
            lemma_mul_is_associative(x3 * l, x3, l);
            lemma_exchange(x3, l, x3);
        }
    }
}

/// The first product of generators, along a line.
pub proof fn lemma_line_first(a: int, b: int, v: int, e: int, m: int, l: int)
    requires
        fp::vanishes(m * (e + l * v) - a * b * v),
    ensures
        fp::vanishes(v * (a * b) - m * (l * v + 1 * e)),
{
    fp::lemma_zero();
    fp::lemma_add(0, (m * (e + l * v) - a * b * v));
    assert(v * (a * b) - m * (l * v + 1 * e) == 0 - (m * (e + l * v) - a * b * v)) by {
        assert((v * (a * b)) == (a * b * v)) by {
            lemma_mul_is_associative(v, a, b);
            lemma_mul_is_commutative(v, a);
            lemma_exchange(a, v, b);
        }
        assert((l * v) == (v * l)) by {
            lemma_mul_is_commutative(l, v);
        }
        assert((m * ((l * v) + (1 * e))) == (e * m) + (v * m * l)) by {
            assert(((l * v) + (1 * e)) == e + (v * l));
            lemma_mul_is_distributive_add(m, e, (v * l));
            lemma_mul_is_commutative(m, e);
            lemma_mul_is_associative(m, v, l);
            lemma_mul_is_commutative(m, v);
        }
        assert((m * (e + (l * v))) == (e * m) + (v * m * l)) by {
            assert((e + (l * v)) == e + (v * l));
            lemma_mul_is_distributive_add(m, e, (v * l));
            lemma_mul_is_commutative(m, e);
            lemma_mul_is_associative(m, v, l);
            lemma_mul_is_commutative(m, v);
        }
    }
}

/// The second product of generators, along a line.
pub proof fn lemma_line_second(a: int, b: int, v: int, q: int, e: int, m: int, l: int)
    requires
        fp::vanishes(m * (e + l * v) - a * b * v),
        fp::vanishes(q - (m + l * b)),
    ensures
        fp::vanishes(v * (a * q) - m * ((a + l * l) * v + l * e)),
{
    fp::lemma_scale(l, m * (e + l * v) - a * b * v);
    fp::lemma_scale(v * a, q - (m + l * b));
    fp::lemma_zero();
    fp::lemma_add(0, l * (m * (e + l * v) - a * b * v));
    fp::lemma_add(0 - l * (m * (e + l * v) - a * b * v), (v * a) * (q - (m + l * b)));
    assert(v * (a * q) - m * ((a + l * l) * v + l * e) == 0 - l * (m * (e + l * v) - a * b * v)
        + (v * a) * (q - (m + l * b))) by {
        assert((v * (a * q)) == (a * v * q)) by {
            lemma_mul_is_associative(v, a, q);
            lemma_mul_is_commutative(v, a);
        }
        assert(((a + (l * l)) * v) == (a * v) + (v * l * l)) by {
            lemma_mul_is_distributive_add_other_way(v, a, (l * l));
            lemma_exchange(l, l, v);
            lemma_mul_is_commutative(l, v);
        }
        assert((l * e) == (e * l)) by {
            lemma_mul_is_commutative(l, e);
        }
        assert((m * (((a + (l * l)) * v) + (l * e))) == (a * v * m) + (e * m * l) + (v * m * l *
            l)) by {
            assert((((a + (l * l)) * v) + (l * e)) == (a * v) + (e * l) + (v * l * l));
            lemma_mul_is_distributive_add(m, (a * v) + (e * l), (v * l * l));
            lemma_mul_is_distributive_add(m, (a * v), (e * l));
            lemma_mul_is_associative(m, a, v);
            lemma_mul_is_commutative(m, a);
            lemma_exchange(a, m, v);
            lemma_mul_is_associative(m, e, l);
            lemma_mul_is_commutative(m, e);
            lemma_mul_is_associative(m, v * l, l);
            lemma_mul_is_associative(m, v, l);
            lemma_mul_is_commutative(m, v);
        }
        assert((l * v) == (v * l)) by {
            lemma_mul_is_commutative(l, v);
        }
        assert((m * (e + (l * v))) == (e * m) + (v * m * l)) by {
            assert((e + (l * v)) == e + (v * l));
            lemma_mul_is_distributive_add(m, e, (v * l));
            lemma_mul_is_commutative(m, e);
            lemma_mul_is_associative(m, v, l);
            lemma_mul_is_commutative(m, v);
        }
        assert((l * ((m * (e + (l * v))) - ((a * b) * v))) == (e * m * l) - (a * b * v * l) + (v
            * m * l * l)) by {
            assert(((m * (e + (l * v))) - ((a * b) * v)) == (e * m) - (a * b * v) + (v * m * l));
            lemma_mul_is_distributive_add(l, (e * m) - (a * b * v), (v * m * l));
            lemma_mul_is_distributive_sub(l, (e * m), (a * b * v));
            lemma_mul_is_associative(l, e, m);
            lemma_mul_is_commutative(l, e);
            lemma_exchange(e, l, m);
            lemma_mul_is_associative(l, a * b, v);
            lemma_mul_is_associative(l, a, b);
            lemma_mul_is_commutative(l, a);
            lemma_exchange(a, l, b);
            lemma_exchange(a * b, l, v);
            lemma_mul_is_associative(l, v * m, l);
            lemma_mul_is_associative(l, v, m);
            lemma_mul_is_commutative(l, v);
            lemma_exchange(v, l, m);
        }
        assert((v * a) == (a * v)) by {
            lemma_mul_is_commutative(v, a);
        }
        assert((l * b) == (b * l)) by {
            lemma_mul_is_commutative(l, b);
        }
        assert(((v * a) * (q - (m + (l * b)))) == (a * v * q) - (a * v * m) - (a * b * v * l)) by {
            assert((v * a) == (a * v));
            assert((q - (m + (l * b))) == q - m - (b * l));
            lemma_mul_is_distributive_sub((a * v), q - m, (b * l));
            lemma_mul_is_distributive_sub((a * v), q, m);
            lemma_mul_is_associative(a * v, b, l);
            lemma_exchange(a, v, b);
        }
    }
}

/// The third product of generators, along a line.
pub proof fn lemma_line_third(a: int, b: int, v: int, p: int, e: int, m: int, l: int)
    requires
        fp::vanishes(m * (e + l * v) - a * b * v),
        fp::vanishes(p - (m + l * a)),
    ensures
        fp::vanishes(v * (p * b) - m * ((b + l * l) * v + l * e)),
{
    fp::lemma_scale(l, m * (e + l * v) - a * b * v);
    fp::lemma_scale(v * b, p - (m + l * a));
    fp::lemma_zero();
    fp::lemma_add(0, l * (m * (e + l * v) - a * b * v));
    fp::lemma_add(0 - l * (m * (e + l * v) - a * b * v), (v * b) * (p - (m + l * a)));
    assert(v * (p * b) - m * ((b + l * l) * v + l * e) == 0 - l * (m * (e + l * v) - a * b * v)
        + (v * b) * (p - (m + l * a))) by {
        assert((p * b) == (b * p)) by {
            lemma_mul_is_commutative(p, b);
        }
        assert((v * (p * b)) == (b * v * p)) by {
            assert((p * b) == (b * p));
            lemma_mul_is_associative(v, b, p);
            lemma_mul_is_commutative(v, b);
        }
        assert(((b + (l * l)) * v) == (b * v) + (v * l * l)) by {
            lemma_mul_is_distributive_add_other_way(v, b, (l * l));
            lemma_exchange(l, l, v);
            lemma_mul_is_commutative(l, v);
        }
        assert((l * e) == (e * l)) by {
            lemma_mul_is_commutative(l, e);
        }
        assert((m * (((b + (l * l)) * v) + (l * e))) == (b * v * m) + (e * m * l) + (v * m * l *
            l)) by {
            assert((((b + (l * l)) * v) + (l * e)) == (b * v) + (e * l) + (v * l * l));
            lemma_mul_is_distributive_add(m, (b * v) + (e * l), (v * l * l));
            lemma_mul_is_distributive_add(m, (b * v), (e * l));
            lemma_mul_is_associative(m, b, v);
            lemma_mul_is_commutative(m, b);
            lemma_exchange(b, m, v);
            lemma_mul_is_associative(m, e, l);
            lemma_mul_is_commutative(m, e);
            lemma_mul_is_associative(m, v * l, l);
            lemma_mul_is_associative(m, v, l);
            lemma_mul_is_commutative(m, v);
        }
        assert((l * v) == (v * l)) by {
            lemma_mul_is_commutative(l, v);
        }
        assert((m * (e + (l * v))) == (e * m) + (v * m * l)) by {
            assert((e + (l * v)) == e + (v * l));
            lemma_mul_is_distributive_add(m, e, (v * l));
            lemma_mul_is_commutative(m, e);
            lemma_mul_is_associative(m, v, l);
            lemma_mul_is_commutative(m, v);
        }
        assert((l * ((m * (e + (l * v))) - ((a * b) * v))) == (e * m * l) - (a * b * v * l) + (v
            * m * l * l)) by {
            assert(((m * (e + (l * v))) - ((a * b) * v)) == (e * m) - (a * b * v) + (v * m * l));
            lemma_mul_is_distributive_add(l, (e * m) - (a * b * v), (v * m * l));
            lemma_mul_is_distributive_sub(l, (e * m), (a * b * v));
            lemma_mul_is_associative(l, e, m);
            lemma_mul_is_commutative(l, e);
            lemma_exchange(e, l, m);
            lemma_mul_is_associative(l, a * b, v);
            lemma_mul_is_associative(l, a, b);
            lemma_mul_is_commutative(l, a);
            lemma_exchange(a, l, b);
            lemma_exchange(a * b, l, v);
            lemma_mul_is_associative(l, v * m, l);
            lemma_mul_is_associative(l, v, m);
            lemma_mul_is_commutative(l, v);
            lemma_exchange(v, l, m);
        }
        assert((v * b) == (b * v)) by {
            lemma_mul_is_commutative(v, b);
        }
        assert((l * a) == (a * l)) by {
            lemma_mul_is_commutative(l, a);
        }
        assert(((v * b) * (p - (m + (l * a)))) == (b * v * p) - (b * v * m) - (a * b * v * l)) by {
            assert((v * b) == (b * v));
            assert((p - (m + (l * a))) == p - m - (a * l));
            lemma_mul_is_distributive_sub((b * v), p - m, (a * l));
            lemma_mul_is_distributive_sub((b * v), p, m);
            lemma_mul_is_associative(b * v, a, l);
            lemma_exchange(b, v, a);
            lemma_mul_is_commutative(b, a);
        }
    }
}

/// The fourth product of generators, along a line.
pub proof fn lemma_line_fourth(a: int, b: int, v: int, p: int, q: int, e: int, m: int, l: int)
    requires
        fp::vanishes(m * (e + l * v) - a * b * v),
        fp::vanishes(p - (m + l * a)),
        fp::vanishes(q - (m + l * b)),
    ensures
        fp::vanishes(v * (p * q) - m * ((m + l * a + l * b + l * l * l) * v + (l * l) * e)),
{
    fp::lemma_scale((l * l), m * (e + l * v) - a * b * v);
    fp::lemma_scale(v * q, p - (m + l * a));
    fp::lemma_scale(v * (m + l * a), q - (m + l * b));
    fp::lemma_zero();
    fp::lemma_add(0, (l * l) * (m * (e + l * v) - a * b * v));
    fp::lemma_add(0 - (l * l) * (m * (e + l * v) - a * b * v), (v * q) * (p - (m + l * a)));
    fp::lemma_add(0 - (l * l) * (m * (e + l * v) - a * b * v) + (v * q) * (p - (m + l * a)), (v
        * (m + l * a)) * (q - (m + l * b)));
    assert(v * (p * q) - m * ((m + l * a + l * b + l * l * l) * v + (l * l) * e) == 0 - (l * l)
        * (m * (e + l * v) - a * b * v) + (v * q) * (p - (m + l * a)) + (v * (m + l * a)) * (q - (m
        + l * b))) by {
        assert((v * (p * q)) == (v * p * q)) by {
            lemma_mul_is_associative(v, p, q);
        }
        assert((l * a) == (a * l)) by {
            lemma_mul_is_commutative(l, a);
        }
        assert((l * b) == (b * l)) by {
            lemma_mul_is_commutative(l, b);
        }
        assert(((((m + (l * a)) + (l * b)) + ((l * l) * l)) * v) == (v * m) + (a * v * l) + (b *
            v * l) + (v * l * l * l)) by {
            assert((((m + (l * a)) + (l * b)) + ((l * l) * l)) == m + (a * l) + (b * l) + (l * l
                * l));
            lemma_mul_is_distributive_add_other_way(v, m + (a * l) + (b * l), (l * l * l));
            lemma_mul_is_distributive_add_other_way(v, m + (a * l), (b * l));
            lemma_mul_is_distributive_add_other_way(v, m, (a * l));
            lemma_mul_is_commutative(m, v);
            lemma_exchange(a, l, v);
            lemma_exchange(b, l, v);
            lemma_exchange(l * l, l, v);
            lemma_exchange(l, l, v);
            lemma_mul_is_commutative(l, v);
        }
        assert(((l * l) * e) == (e * l * l)) by {
            lemma_exchange(l, l, e);
            lemma_mul_is_commutative(l, e);
        }
        assert((m * (((((m + (l * a)) + (l * b)) + ((l * l) * l)) * v) + ((l * l) * e))) == (v *
            m * m) + (a * v * m * l) + (b * v * m * l) + (e * m * l * l) + (v * m * l * l * l)) by {
            assert((((((m + (l * a)) + (l * b)) + ((l * l) * l)) * v) + ((l * l) * e)) == (v *
                m) + (a * v * l) + (b * v * l) + (e * l * l) + (v * l * l * l));
            lemma_mul_is_distributive_add(m, (v * m) + (a * v * l) + (b * v * l) + (e * l * l),
                (v * l * l * l));
            lemma_mul_is_distributive_add(m, (v * m) + (a * v * l) + (b * v * l), (e * l * l));
            lemma_mul_is_distributive_add(m, (v * m) + (a * v * l), (b * v * l));
            lemma_mul_is_distributive_add(m, (v * m), (a * v * l));
            lemma_mul_is_associative(m, v, m);
            lemma_mul_is_commutative(m, v);
            lemma_mul_is_associative(m, a * v, l);
            lemma_mul_is_associative(m, a, v);
            lemma_mul_is_commutative(m, a);
            lemma_exchange(a, m, v);
            lemma_mul_is_associative(m, b * v, l);
            lemma_mul_is_associative(m, b, v);
            lemma_mul_is_commutative(m, b);
            lemma_exchange(b, m, v);
            lemma_mul_is_associative(m, e * l, l);
            lemma_mul_is_associative(m, e, l);
            lemma_mul_is_commutative(m, e);
            lemma_mul_is_associative(m, v * l * l, l);
            lemma_mul_is_associative(m, v * l, l);
            lemma_mul_is_associative(m, v, l);
        }
        assert((l * v) == (v * l)) by {
            lemma_mul_is_commutative(l, v);
        }
        assert((m * (e + (l * v))) == (e * m) + (v * m * l)) by {
            assert((e + (l * v)) == e + (v * l));
            lemma_mul_is_distributive_add(m, e, (v * l));
            lemma_mul_is_commutative(m, e);
            lemma_mul_is_associative(m, v, l);
            lemma_mul_is_commutative(m, v);
        }
        assert(((l * l) * ((m * (e + (l * v))) - ((a * b) * v))) == (e * m * l * l) - (a * b * v
            * l * l) + (v * m * l * l * l)) by {
            assert(((m * (e + (l * v))) - ((a * b) * v)) == (e * m) - (a * b * v) + (v * m * l));
            lemma_mul_is_distributive_add((l * l), (e * m) - (a * b * v), (v * m * l));
            lemma_mul_is_distributive_sub((l * l), (e * m), (a * b * v));
            lemma_mul_is_associative(l * l, e, m);
            lemma_exchange(l, l, e);
            lemma_mul_is_commutative(l, e);
            lemma_exchange(e * l, l, m);
            lemma_exchange(e, l, m);
            lemma_mul_is_associative(l * l, a * b, v);
            lemma_mul_is_associative(l * l, a, b);
            lemma_exchange(l, l, a);
            lemma_mul_is_commutative(l, a);
            lemma_exchange(a * l, l, b);
            lemma_exchange(a, l, b);
            lemma_exchange(a * b * l, l, v);
            lemma_exchange(a * b, l, v);
            lemma_mul_is_associative(l * l, v * m, l);
            lemma_mul_is_associative(l * l, v, m);
            lemma_exchange(l, l, v);
            lemma_mul_is_commutative(l, v);
            lemma_exchange(v * l, l, m);
            lemma_exchange(v, l, m);
        }
        assert(((v * q) * (p - (m + (l * a)))) == (v * p * q) - (v * q * m) - (a * v * q * l)) by {
            assert((p - (m + (l * a))) == p - m - (a * l));
            lemma_mul_is_distributive_sub((v * q), p - m, (a * l));
            lemma_mul_is_distributive_sub((v * q), p, m);
            lemma_exchange(v, q, p);
            lemma_mul_is_associative(v * q, a, l);
            lemma_exchange(v, q, a);
            lemma_mul_is_commutative(v, a);
        }
        assert((v * (m + (l * a))) == (v * m) + (a * v * l)) by {
            assert((m + (l * a)) == m + (a * l));
            lemma_mul_is_distributive_add(v, m, (a * l));
            lemma_mul_is_associative(v, a, l);
            lemma_mul_is_commutative(v, a);
        }
        assert(((v * (m + (l * a))) * (q - (m + (l * b)))) == (v * q * m) - (v * m * m) + (a * v
            * q * l) - (a * v * m * l) - (b * v * m * l) - (a * b * v * l * l)) by {
            assert((v * (m + (l * a))) == (v * m) + (a * v * l));
            assert((q - (m + (l * b))) == q - m - (b * l));
            lemma_mul_is_distributive_add_other_way(q - m - (b * l), (v * m), (a * v * l));
            lemma_mul_is_distributive_sub((v * m), q - m, (b * l));
            lemma_mul_is_distributive_sub((v * m), q, m);
            lemma_mul_is_distributive_sub((a * v * l), q - m, (b * l));
            lemma_mul_is_distributive_sub((a * v * l), q, m);
            lemma_exchange(v, m, q);
            lemma_mul_is_associative(v * m, b, l);
            lemma_exchange(v, m, b);
            lemma_mul_is_commutative(v, b);
            lemma_exchange(a * v, l, q);
            lemma_exchange(a * v, l, m);
            lemma_mul_is_associative(a * v * l, b, l);
            lemma_exchange(a * v, l, b);
            lemma_exchange(a, v, b);
        }
    }
}

/// A chord in terms of the products of generators.
pub proof fn lemma_chord_split(a: int, b: int, v: int, p: int, q: int, m: int, l: int, k: int)
    requires
        fp::vanishes(p - (m + l * a)),
        fp::vanishes(q - (m + l * b)),
        fp::vanishes(k * (a - b) - 1),
    ensures
        fp::vanishes(m * v - v * (0 * (a * b) + k * (a * q) + (-k) * (p * b) + 0 * (p * q))),
{
    fp::lemma_scale(v * k * b, p - (m + l * a));
    fp::lemma_scale((v * k * a), q - (m + l * b));
    fp::lemma_scale((v * m), k * (a - b) - 1);
    fp::lemma_add((v * k * b) * (p - (m + l * a)), (v * k * a) * (q - (m + l * b)));
    fp::lemma_add((v * k * b) * (p - (m + l * a)) - (v * k * a) * (q - (m + l * b)), (v * m) *
        (k * (a - b) - 1));
    assert(m * v - v * (0 * (a * b) + k * (a * q) + (-k) * (p * b) + 0 * (p * q)) == (v * k * b)
        * (p - (m + l * a)) - (v * k * a) * (q - (m + l * b)) - (v * m) * (k * (a - b) - 1)) by {
        assert((m * v) == (v * m)) by {
            lemma_mul_is_commutative(m, v);
        }
        assert((k * (a * q)) == (a * q * k)) by {
            lemma_mul_is_associative(k, a, q);
            lemma_mul_is_commutative(k, a);
            lemma_exchange(a, k, q);
        }
        assert((p * b) == (b * p)) by {
            lemma_mul_is_commutative(p, b);
        }
        assert(((-k) * (p * b)) == 0 - (b * p * k)) by {
            assert((-k) == 0 - k);
            assert((p * b) == (b * p));
            lemma_mul_is_distributive_sub_other_way((b * p), 0, k);
            lemma_mul_is_associative(k, b, p);
            lemma_mul_is_commutative(k, b);
            lemma_exchange(b, k, p);
        }
        assert((v * ((((0 * (a * b)) + (k * (a * q))) + ((-k) * (p * b))) + (0 * (p * q)))) ==
            (a * v * q * k) - (b * v * p * k)) by {
            assert(((((0 * (a * b)) + (k * (a * q))) + ((-k) * (p * b))) + (0 * (p * q))) == (a
                * q * k) - (b * p * k));
            lemma_mul_is_distributive_sub(v, (a * q * k), (b * p * k));
            lemma_mul_is_associative(v, a * q, k);
            lemma_mul_is_associative(v, a, q);
            lemma_mul_is_commutative(v, a);
            lemma_mul_is_associative(v, b * p, k);
            lemma_mul_is_associative(v, b, p);
            lemma_mul_is_commutative(v, b);
        }
        assert(((v * k) * b) == (b * v * k)) by {
            lemma_exchange(v, k, b);
            lemma_mul_is_commutative(v, b);
        }
        assert((l * a) == (a * l)) by {
            lemma_mul_is_commutative(l, a);
        }
        assert((((v * k) * b) * (p - (m + (l * a)))) == (b * v * p * k) - (b * v * m * k) - (a *
            b * v * l * k)) by {
            assert(((v * k) * b) == (b * v * k));
            assert((p - (m + (l * a))) == p - m - (a * l));
            lemma_mul_is_distributive_sub((b * v * k), p - m, (a * l));
            lemma_mul_is_distributive_sub((b * v * k), p, m);
            lemma_exchange(b * v, k, p);
            lemma_exchange(b * v, k, m);
            lemma_mul_is_associative(b * v * k, a, l);
            lemma_exchange(b * v, k, a);
            lemma_exchange(b, v, a);
            lemma_mul_is_commutative(b, a);
            lemma_exchange(a * b * v, k, l);
        }
        assert(((v * k) * a) == (a * v * k)) by {
            lemma_exchange(v, k, a);
            lemma_mul_is_commutative(v, a);
        }
        assert((l * b) == (b * l)) by {
            lemma_mul_is_commutative(l, b);
        }
        assert((((v * k) * a) * (q - (m + (l * b)))) == (a * v * q * k) - (a * v * m * k) - (a *
            b * v * l * k)) by {
            assert(((v * k) * a) == (a * v * k));
            assert((q - (m + (l * b))) == q - m - (b * l));
            lemma_mul_is_distributive_sub((a * v * k), q - m, (b * l));
            lemma_mul_is_distributive_sub((a * v * k), q, m);
            lemma_exchange(a * v, k, q);
            lemma_exchange(a * v, k, m);
            lemma_mul_is_associative(a * v * k, b, l);
            lemma_exchange(a * v, k, b);
            lemma_exchange(a, v, b);
            lemma_exchange(a * b * v, k, l);
        }
        assert((k * (a - b)) == (a * k) - (b * k)) by {
            lemma_mul_is_distributive_sub(k, a, b);
            lemma_mul_is_commutative(k, a);
            lemma_mul_is_commutative(k, b);
        }
        assert(((v * m) * ((k * (a - b)) - 1)) == 0 - (v * m) + (a * v * m * k) - (b * v * m *
            k)) by {
            assert(((k * (a - b)) - 1) == 0 - 1 + (a * k) - (b * k));
            lemma_mul_is_distributive_sub((v * m), 0 - 1 + (a * k), (b * k));
            lemma_mul_is_distributive_add((v * m), 0 - 1, (a * k));
            lemma_mul_is_distributive_sub((v * m), 0, 1);
            lemma_mul_is_associative(v * m, a, k);
            lemma_exchange(v, m, a);
            lemma_mul_is_commutative(v, a);
            lemma_mul_is_associative(v * m, b, k);
            lemma_exchange(v, m, b);
            lemma_mul_is_commutative(v, b);
        }
    }
}

/// A tangent in terms of the squares of the generators.
pub proof fn lemma_tangent_line(x: int, y: int, z: int, t: int, l: int, c: int)
    requires
        fp::vanishes(t * t - (z * z * z - 3 * z + c)),
        fp::vanishes(y * y - (x * x * x - 3 * x + c)),
        fp::vanishes(2 * y * l - (3 * (x * x) - 3)),
    ensures
        fp::vanishes(2 * y * (t - y - l * (z - x)) - ((z + 2 * x) * ((z - x) * (z - x)) - (t -
            y) * (t - y))),
{
    fp::lemma_scale((z - x), 2 * y * l - (3 * (x * x) - 3));
    fp::lemma_add((t * t - (z * z * z - 3 * z + c)), (y * y - (x * x * x - 3 * x + c)));
    fp::lemma_add((t * t - (z * z * z - 3 * z + c)) - (y * y - (x * x * x - 3 * x + c)), (z - x)
        * (2 * y * l - (3 * (x * x) - 3)));
    assert(2 * y * (t - y - l * (z - x)) - ((z + 2 * x) * ((z - x) * (z - x)) - (t - y) * (t -
        y)) == (t * t - (z * z * z - 3 * z + c)) - (y * y - (x * x * x - 3 * x + c)) - (z - x) * (2
        * y * l - (3 * (x * x) - 3))) by {
        assert((l * (z - x)) == 0 - (x * l) + (z * l)) by {
            assert((z - x) == 0 - x + z);
            lemma_mul_is_distributive_add(l, 0 - x, z);
            lemma_mul_is_distributive_sub(l, 0, x);
            lemma_mul_is_commutative(l, x);
            lemma_mul_is_commutative(l, z);
        }
        assert(((2 * y) * ((t - y) - (l * (z - x)))) == 0 - (2 * (y * y)) + (2 * (y * t)) + (2 *
            (x * y * l)) - (2 * (y * z * l))) by {
            assert(((t - y) - (l * (z - x))) == 0 - y + t + (x * l) - (z * l));
            lemma_mul_is_distributive_sub((2 * y), 0 - y + t + (x * l), (z * l));
            lemma_mul_is_distributive_add((2 * y), 0 - y + t, (x * l));
            lemma_mul_is_distributive_add((2 * y), 0 - y, t);
            lemma_mul_is_distributive_sub((2 * y), 0, y);
            lemma_mul_is_associative(2, y, y);
            lemma_mul_is_associative(2, y, t);
            lemma_mul_is_associative(2, y, x * l);
            lemma_mul_is_associative(y, x, l);
            lemma_mul_is_commutative(y, x);
            lemma_mul_is_associative(2, y, z * l);
            lemma_mul_is_associative(y, z, l);
        }
        assert(((z - x) * (z - x)) == (x * x) - (2 * (x * z)) + (z * z)) by {
            assert((z - x) == 0 - x + z);
            lemma_mul_is_distributive_add_other_way(0 - x + z, 0 - x, z);
            lemma_mul_is_distributive_sub_other_way(0 - x + z, 0, x);
            lemma_mul_is_distributive_add(x, 0 - x, z);
            lemma_mul_is_distributive_sub(x, 0, x);
            lemma_mul_is_distributive_add(z, 0 - x, z);
            lemma_mul_is_distributive_sub(z, 0, x);
            lemma_mul_is_commutative(z, x);
        }
        assert(((z + (2 * x)) * ((z - x) * (z - x))) == (2 * (x * x * x)) - (3 * (x * x * z)) +
            (z * z * z)) by {
            assert((z + (2 * x)) == (2 * x) + z);
            assert(((z - x) * (z - x)) == (x * x) - (2 * (x * z)) + (z * z));
            lemma_mul_is_distributive_add_other_way((x * x) - (2 * (x * z)) + (z * z), (2 * x), z);
            lemma_mul_is_distributive_add((2 * x), (x * x) - (2 * (x * z)), (z * z));
            lemma_mul_is_distributive_sub((2 * x), (x * x), (2 * (x * z)));
            lemma_mul_is_distributive_add(z, (x * x) - (2 * (x * z)), (z * z));
            lemma_mul_is_distributive_sub(z, (x * x), (2 * (x * z)));
            lemma_mul_is_associative(2, x, x * x);
            lemma_mul_is_associative(x, x, x);
            lemma_coefficients(2, x, 2, x * z);
            lemma_mul_is_associative(x, x, z);
            lemma_mul_is_associative(2, x, z * z);
            lemma_mul_is_associative(x, z, z);
            lemma_mul_is_associative(z, x, x);
            lemma_mul_is_commutative(z, x);
            lemma_exchange(x, z, x);
            lemma_outward(z, 2, x * z);
            lemma_mul_is_associative(z, x, z);
            lemma_mul_is_associative(z, z, z);
        }
        assert(((t - y) * (t - y)) == (y * y) - (2 * (y * t)) + (t * t)) by {
            assert((t - y) == 0 - y + t);
            lemma_mul_is_distributive_add_other_way(0 - y + t, 0 - y, t);
            lemma_mul_is_distributive_sub_other_way(0 - y + t, 0, y);
            lemma_mul_is_distributive_add(y, 0 - y, t);
            lemma_mul_is_distributive_sub(y, 0, y);
            lemma_mul_is_distributive_add(t, 0 - y, t);
            lemma_mul_is_distributive_sub(t, 0, y);
            lemma_mul_is_commutative(t, y);
        }
        assert(((2 * y) * l) == (2 * (y * l))) by {
            lemma_mul_is_associative(2, y, l);
        }
        assert(((z - x) * (((2 * y) * l) - ((3 * (x * x)) - 3))) == 0 - (3 * x) + (3 * z) + (3 *
            (x * x * x)) - (3 * (x * x * z)) - (2 * (x * y * l)) + (2 * (y * z * l))) by {
            assert((z - x) == 0 - x + z);
            assert((((2 * y) * l) - ((3 * (x * x)) - 3)) == 3 - (3 * (x * x)) + (2 * (y * l)));
            lemma_mul_is_distributive_add_other_way(3 - (3 * (x * x)) + (2 * (y * l)), 0 - x, z);
            lemma_mul_is_distributive_sub_other_way(3 - (3 * (x * x)) + (2 * (y * l)), 0, x);
            lemma_mul_is_distributive_add(x, 3 - (3 * (x * x)), (2 * (y * l)));
            lemma_mul_is_distributive_sub(x, 3, (3 * (x * x)));
            lemma_mul_is_distributive_add(z, 3 - (3 * (x * x)), (2 * (y * l)));
            lemma_mul_is_distributive_sub(z, 3, (3 * (x * x)));
            lemma_outward(x, 3, x * x);
            lemma_mul_is_associative(x, x, x);
            lemma_outward(x, 2, y * l);
            lemma_mul_is_associative(x, y, l);
            lemma_outward(z, 3, x * x);
            lemma_mul_is_associative(z, x, x);
            lemma_mul_is_commutative(z, x);
            lemma_exchange(x, z, x);
            lemma_outward(z, 2, y * l);
            lemma_mul_is_associative(z, y, l);
            lemma_mul_is_commutative(z, y);
        }
    }
}

/// A tangent in terms of the products of generators.
pub proof fn lemma_tangent_split(a: int, v: int, p: int, m: int, k: int, d: int, g: int)
    requires
        fp::vanishes(d * m - (g * (a * a) - p * p)),
        fp::vanishes(k * d - 1),
    ensures
        fp::vanishes(m * v - v * (k * g * (a * a) + 0 * (a * p) + 0 * (p * a) + (-k) * (p * p))),
{
    fp::lemma_scale(v * k, d * m - (g * (a * a) - p * p));
    fp::lemma_scale((m * v), k * d - 1);
    fp::lemma_add((v * k) * (d * m - (g * (a * a) - p * p)), (m * v) * (k * d - 1));
    assert(m * v - v * (k * g * (a * a) + 0 * (a * p) + 0 * (p * a) + (-k) * (p * p)) == (v * k)
        * (d * m - (g * (a * a) - p * p)) - (m * v) * (k * d - 1)) by {
        assert((m * v) == (v * m)) by {
            lemma_mul_is_commutative(m, v);
        }
        assert(((k * g) * (a * a)) == (a * a * k * g)) by {
            lemma_mul_is_associative(k * g, a, a);
            lemma_exchange(k, g, a);
            lemma_mul_is_commutative(k, a);
            lemma_exchange(a * k, g, a);
            lemma_exchange(a, k, a);
        }
        assert((p * a) == (a * p)) by {
            lemma_mul_is_commutative(p, a);
        }
        assert(((-k) * (p * p)) == 0 - (p * p * k)) by {
            assert((-k) == 0 - k);
            lemma_mul_is_distributive_sub_other_way((p * p), 0, k);
            lemma_mul_is_associative(k, p, p);
            lemma_mul_is_commutative(k, p);
            lemma_exchange(p, k, p);
        }
        assert((v * (((((k * g) * (a * a)) + (0 * (a * p))) + (0 * (p * a))) + ((-k) * (p *
            p)))) == 0 - (v * p * p * k) + (a * a * v * k * g)) by {
            assert((((((k * g) * (a * a)) + (0 * (a * p))) + (0 * (p * a))) + ((-k) * (p * p)))
                == 0 - (p * p * k) + (a * a * k * g));
            lemma_mul_is_distributive_add(v, 0 - (p * p * k), (a * a * k * g));
            lemma_mul_is_distributive_sub(v, 0, (p * p * k));
            lemma_mul_is_associative(v, p * p, k);
            lemma_mul_is_associative(v, p, p);
            lemma_mul_is_associative(v, a * a * k, g);
            lemma_mul_is_associative(v, a * a, k);
            lemma_mul_is_associative(v, a, a);
            lemma_mul_is_commutative(v, a);
            lemma_exchange(a, v, a);
        }
        assert((d * m) == (m * d)) by {
            lemma_mul_is_commutative(d, m);
        }
        assert((g * (a * a)) == (a * a * g)) by {
            lemma_mul_is_associative(g, a, a);
            lemma_mul_is_commutative(g, a);
            lemma_exchange(a, g, a);
        }
        assert(((v * k) * ((d * m) - ((g * (a * a)) - (p * p)))) == (v * p * p * k) + (v * m * k
            * d) - (a * a * v * k * g)) by {
            assert(((d * m) - ((g * (a * a)) - (p * p))) == (p * p) + (m * d) - (a * a * g));
            lemma_mul_is_distributive_sub((v * k), (p * p) + (m * d), (a * a * g));
            lemma_mul_is_distributive_add((v * k), (p * p), (m * d));
            lemma_mul_is_associative(v * k, p, p);
            lemma_exchange(v, k, p);
            lemma_exchange(v * p, k, p);
            lemma_mul_is_associative(v * k, m, d);
            lemma_exchange(v, k, m);
            lemma_mul_is_associative(v * k, a * a, g);
            lemma_mul_is_associative(v * k, a, a);
            lemma_exchange(v, k, a);
            lemma_mul_is_commutative(v, a);
            lemma_exchange(a * v, k, a);
            lemma_exchange(a, v, a);
        }
        assert(((m * v) * ((k * d) - 1)) == 0 - (v * m) + (v * m * k * d)) by {
            assert((m * v) == (v * m));
            assert(((k * d) - 1) == 0 - 1 + (k * d));
            lemma_mul_is_distributive_add((v * m), 0 - 1, (k * d));
            lemma_mul_is_distributive_sub((v * m), 0, 1);
            lemma_mul_is_associative(v * m, k, d);
        }
    }
}

/// The reflected ordinate along a line in terms of the products of
/// generators.
pub proof fn lemma_line_split(v: int, e: int, m: int, l: int, u1: int, u2: int, u3: int, u4:
    int, a1: int, a2: int, a3: int, a4: int)
    requires
        fp::vanishes(m * (e + l * v) - u1 * v),
        fp::vanishes(m * v - v * (a1 * u1 + a2 * u2 + a3 * u3 + a4 * u4)),
    ensures
        fp::vanishes(m * e - v * ((1 - l * a1) * u1 + (-(l * a2)) * u2 + (-(l * a3)) * u3 + (-(l
            * a4)) * u4)),
{
    fp::lemma_scale(l, m * v - v * (a1 * u1 + a2 * u2 + a3 * u3 + a4 * u4));
    fp::lemma_add((m * (e + l * v) - u1 * v), l * (m * v - v * (a1 * u1 + a2 * u2 + a3 * u3 + a4
        * u4)));
    assert(m * e - v * ((1 - l * a1) * u1 + (-(l * a2)) * u2 + (-(l * a3)) * u3 + (-(l * a4)) *
        u4) == (m * (e + l * v) - u1 * v) - l * (m * v - v * (a1 * u1 + a2 * u2 + a3 * u3 + a4 *
        u4))) by {
        assert((m * e) == (e * m)) by {
            lemma_mul_is_commutative(m, e);
        }
        assert(((1 - (l * a1)) * u1) == u1 - (l * u1 * a1)) by {
            lemma_mul_is_distributive_sub_other_way(u1, 1, (l * a1));
            lemma_exchange(l, a1, u1);
        }
        assert(((-(l * a2)) * u2) == 0 - (l * u2 * a2)) by {
            assert((-(l * a2)) == 0 - (l * a2));
            lemma_mul_is_distributive_sub_other_way(u2, 0, (l * a2));
            lemma_exchange(l, a2, u2);
        }
        assert(((-(l * a3)) * u3) == 0 - (l * u3 * a3)) by {
            assert((-(l * a3)) == 0 - (l * a3));
            lemma_mul_is_distributive_sub_other_way(u3, 0, (l * a3));
            lemma_exchange(l, a3, u3);
        }
        assert(((-(l * a4)) * u4) == 0 - (l * u4 * a4)) by {
            assert((-(l * a4)) == 0 - (l * a4));
            lemma_mul_is_distributive_sub_other_way(u4, 0, (l * a4));
            lemma_exchange(l, a4, u4);
        }
        assert((v * (((((1 - (l * a1)) * u1) + ((-(l * a2)) * u2)) + ((-(l * a3)) * u3)) + ((-(l
            * a4)) * u4))) == (v * u1) - (v * l * u1 * a1) - (v * l * u2 * a2) - (v * l * u3 * a3) -
            (v * l * u4 * a4)) by {
            assert((((((1 - (l * a1)) * u1) + ((-(l * a2)) * u2)) + ((-(l * a3)) * u3)) + ((-(l
                * a4)) * u4)) == u1 - (l * u1 * a1) - (l * u2 * a2) - (l * u3 * a3) - (l * u4 *
                a4));
            lemma_mul_is_distributive_sub(v, u1 - (l * u1 * a1) - (l * u2 * a2) - (l * u3 * a3),
                (l * u4 * a4));
            lemma_mul_is_distributive_sub(v, u1 - (l * u1 * a1) - (l * u2 * a2), (l * u3 * a3));
            lemma_mul_is_distributive_sub(v, u1 - (l * u1 * a1), (l * u2 * a2));
            lemma_mul_is_distributive_sub(v, u1, (l * u1 * a1));
            lemma_mul_is_associative(v, l * u1, a1);
            lemma_mul_is_associative(v, l, u1);
            lemma_mul_is_associative(v, l * u2, a2);
            lemma_mul_is_associative(v, l, u2);
            lemma_mul_is_associative(v, l * u3, a3);
            lemma_mul_is_associative(v, l, u3);
            lemma_mul_is_associative(v, l * u4, a4);
            lemma_mul_is_associative(v, l, u4);
        }
        assert((l * v) == (v * l)) by {
            lemma_mul_is_commutative(l, v);
        }
        assert((m * (e + (l * v))) == (e * m) + (v * m * l)) by {
            assert((e + (l * v)) == e + (v * l));
            lemma_mul_is_distributive_add(m, e, (v * l));
            lemma_mul_is_commutative(m, e);
            lemma_mul_is_associative(m, v, l);
            lemma_mul_is_commutative(m, v);
        }
        assert((u1 * v) == (v * u1)) by {
            lemma_mul_is_commutative(u1, v);
        }
        assert((m * v) == (v * m)) by {
            lemma_mul_is_commutative(m, v);
        }
        assert((a1 * u1) == (u1 * a1)) by {
            lemma_mul_is_commutative(a1, u1);
        }
        assert((a2 * u2) == (u2 * a2)) by {
            lemma_mul_is_commutative(a2, u2);
        }
        assert((a3 * u3) == (u3 * a3)) by {
            lemma_mul_is_commutative(a3, u3);
        }
        assert((a4 * u4) == (u4 * a4)) by {
            lemma_mul_is_commutative(a4, u4);
        }
        assert((v * ((((a1 * u1) + (a2 * u2)) + (a3 * u3)) + (a4 * u4))) == (v * u1 * a1) + (v *
            u2 * a2) + (v * u3 * a3) + (v * u4 * a4)) by {
            assert(((((a1 * u1) + (a2 * u2)) + (a3 * u3)) + (a4 * u4)) == (u1 * a1) + (u2 * a2)
                + (u3 * a3) + (u4 * a4));
            lemma_mul_is_distributive_add(v, (u1 * a1) + (u2 * a2) + (u3 * a3), (u4 * a4));
            lemma_mul_is_distributive_add(v, (u1 * a1) + (u2 * a2), (u3 * a3));
            lemma_mul_is_distributive_add(v, (u1 * a1), (u2 * a2));
            lemma_mul_is_associative(v, u1, a1);
            lemma_mul_is_associative(v, u2, a2);
            lemma_mul_is_associative(v, u3, a3);
            lemma_mul_is_associative(v, u4, a4);
        }
        assert((l * ((m * v) - (v * ((((a1 * u1) + (a2 * u2)) + (a3 * u3)) + (a4 * u4))))) == (v
            * m * l) - (v * l * u1 * a1) - (v * l * u2 * a2) - (v * l * u3 * a3) - (v * l * u4 *
            a4)) by {
            assert(((m * v) - (v * ((((a1 * u1) + (a2 * u2)) + (a3 * u3)) + (a4 * u4)))) == (v *
                m) - (v * u1 * a1) - (v * u2 * a2) - (v * u3 * a3) - (v * u4 * a4));
            lemma_mul_is_distributive_sub(l, (v * m) - (v * u1 * a1) - (v * u2 * a2) - (v * u3 *
                a3), (v * u4 * a4));
            lemma_mul_is_distributive_sub(l, (v * m) - (v * u1 * a1) - (v * u2 * a2), (v * u3 *
                a3));
            lemma_mul_is_distributive_sub(l, (v * m) - (v * u1 * a1), (v * u2 * a2));
            lemma_mul_is_distributive_sub(l, (v * m), (v * u1 * a1));
            lemma_mul_is_associative(l, v, m);
            lemma_mul_is_commutative(l, v);
            lemma_exchange(v, l, m);
            lemma_mul_is_associative(l, v * u1, a1);
            lemma_mul_is_associative(l, v, u1);
            lemma_mul_is_associative(l, v * u2, a2);
            lemma_mul_is_associative(l, v, u2);
            lemma_mul_is_associative(l, v * u3, a3);
            lemma_mul_is_associative(l, v, u3);
            lemma_mul_is_associative(l, v * u4, a4);
            lemma_mul_is_associative(l, v, u4);
        }
    }
}

/// A vertical in terms of the products of generators.
pub proof fn lemma_vertical_split(a: int, p: int, q: int, y: int, y2: int, k: int)
    requires
        fp::vanishes(q - p - (y - y2)),
        fp::vanishes(y2 + y),
        fp::vanishes(k * (2 * y) - 1),
    ensures
        fp::vanishes(a - (0 * (a * a) + k * (a * q) + (-k) * (p * a) + 0 * (p * q))),
{
    fp::lemma_scale((k * a), q - p - (y - y2));
    fp::lemma_scale(k * a, y2 + y);
    fp::lemma_scale(a, k * (2 * y) - 1);
    fp::lemma_zero();
    fp::lemma_add(0, (k * a) * (q - p - (y - y2)));
    fp::lemma_add(0 - (k * a) * (q - p - (y - y2)), (k * a) * (y2 + y));
    fp::lemma_add(0 - (k * a) * (q - p - (y - y2)) + (k * a) * (y2 + y), a * (k * (2 * y) - 1));
    assert(a - (0 * (a * a) + k * (a * q) + (-k) * (p * a) + 0 * (p * q)) == 0 - (k * a) * (q -
        p - (y - y2)) + (k * a) * (y2 + y) - a * (k * (2 * y) - 1)) by {
        assert((k * (a * q)) == (a * q * k)) by {
            lemma_mul_is_associative(k, a, q);
            lemma_mul_is_commutative(k, a);
            lemma_exchange(a, k, q);
        }
        assert((p * a) == (a * p)) by {
            lemma_mul_is_commutative(p, a);
        }
        assert(((-k) * (p * a)) == 0 - (a * p * k)) by {
            assert((-k) == 0 - k);
            assert((p * a) == (a * p));
            lemma_mul_is_distributive_sub_other_way((a * p), 0, k);
            lemma_mul_is_associative(k, a, p);
            lemma_mul_is_commutative(k, a);
            lemma_exchange(a, k, p);
        }
        assert((k * a) == (a * k)) by {
            lemma_mul_is_commutative(k, a);
        }
        assert(((k * a) * ((q - p) - (y - y2))) == 0 - (a * p * k) + (a * q * k) - (a * y * k) +
            (a * y2 * k)) by {
            assert((k * a) == (a * k));
            assert(((q - p) - (y - y2)) == 0 - p + q - y + y2);
            lemma_mul_is_distributive_add((a * k), 0 - p + q - y, y2);
            lemma_mul_is_distributive_sub((a * k), 0 - p + q, y);
            lemma_mul_is_distributive_add((a * k), 0 - p, q);
            lemma_mul_is_distributive_sub((a * k), 0, p);
            lemma_exchange(a, k, p);
            lemma_exchange(a, k, q);
            lemma_exchange(a, k, y);
            lemma_exchange(a, k, y2);
        }
        assert(((k * a) * (y2 + y)) == (a * y * k) + (a * y2 * k)) by {
            assert((k * a) == (a * k));
            assert((y2 + y) == y + y2);
            lemma_mul_is_distributive_add((a * k), y, y2);
            lemma_exchange(a, k, y);
            lemma_exchange(a, k, y2);
        }
        assert((k * (2 * y)) == (2 * (y * k))) by {
            lemma_outward(k, 2, y);
            lemma_mul_is_commutative(k, y);
        }
        assert((a * ((k * (2 * y)) - 1)) == 0 - a + (2 * (a * y * k))) by {
            assert(((k * (2 * y)) - 1) == 0 - 1 + (2 * (y * k)));
            lemma_mul_is_distributive_add(a, 0 - 1, (2 * (y * k)));
            lemma_mul_is_distributive_sub(a, 0, 1);
            lemma_outward(a, 2, y * k);
            lemma_mul_is_associative(a, y, k);
        }
    }
}

/// The product of the ordinates along a vertical.
pub proof fn lemma_vertical_fourth(x: int, y: int, y2: int, z: int, t: int, c: int)
    requires
        fp::vanishes(t * t - (z * z * z - 3 * z + c)),
        fp::vanishes(y * y - (x * x * x - 3 * x + c)),
        fp::vanishes(y2 + y),
    ensures
        fp::vanishes((t - y) * (t - y2) - (z - x) * (z * z + x * z + x * x - 3)),
{
    fp::lemma_scale(y - t, y2 + y);
    fp::lemma_add((t * t - (z * z * z - 3 * z + c)), (y * y - (x * x * x - 3 * x + c)));
    fp::lemma_add((t * t - (z * z * z - 3 * z + c)) - (y * y - (x * x * x - 3 * x + c)), (y - t)
        * (y2 + y));
    assert((t - y) * (t - y2) - (z - x) * (z * z + x * z + x * x - 3) == (t * t - (z * z * z - 3
        * z + c)) - (y * y - (x * x * x - 3 * x + c)) + (y - t) * (y2 + y)) by {
        assert(((t - y) * (t - y2)) == (y * y2) - (y * t) - (y2 * t) + (t * t)) by {
            assert((t - y) == 0 - y + t);
            assert((t - y2) == 0 - y2 + t);
            lemma_mul_is_distributive_add_other_way(0 - y2 + t, 0 - y, t);
            lemma_mul_is_distributive_sub_other_way(0 - y2 + t, 0, y);
            lemma_mul_is_distributive_add(y, 0 - y2, t);
            lemma_mul_is_distributive_sub(y, 0, y2);
            lemma_mul_is_distributive_add(t, 0 - y2, t);
            lemma_mul_is_distributive_sub(t, 0, y2);
            lemma_mul_is_commutative(t, y2);
        }
        assert(((z - x) * ((((z * z) + (x * z)) + (x * x)) - 3)) == (3 * x) - (3 * z) - (x * x *
            x) + (z * z * z)) by {
            assert((z - x) == 0 - x + z);
            assert(((((z * z) + (x * z)) + (x * x)) - 3) == 0 - 3 + (x * x) + (x * z) + (z * z));
            lemma_mul_is_distributive_add_other_way(0 - 3 + (x * x) + (x * z) + (z * z), 0 - x, z);
            lemma_mul_is_distributive_sub_other_way(0 - 3 + (x * x) + (x * z) + (z * z), 0, x);
            lemma_mul_is_distributive_add(x, 0 - 3 + (x * x) + (x * z), (z * z));
            lemma_mul_is_distributive_add(x, 0 - 3 + (x * x), (x * z));
            lemma_mul_is_distributive_add(x, 0 - 3, (x * x));
            lemma_mul_is_distributive_sub(x, 0, 3);
            lemma_mul_is_distributive_add(z, 0 - 3 + (x * x) + (x * z), (z * z));
            lemma_mul_is_distributive_add(z, 0 - 3 + (x * x), (x * z));
            lemma_mul_is_distributive_add(z, 0 - 3, (x * x));
            lemma_mul_is_distributive_sub(z, 0, 3);
            lemma_mul_is_associative(x, x, x);
            lemma_mul_is_associative(x, x, z);
            lemma_mul_is_associative(x, z, z);
            lemma_mul_is_associative(z, x, x);
            lemma_mul_is_commutative(z, x);
            lemma_exchange(x, z, x);
            lemma_mul_is_associative(z, x, z);
            lemma_mul_is_associative(z, z, z);
        }
        assert(((y - t) * (y2 + y)) == (y * y) + (y * y2) - (y * t) - (y2 * t)) by {
            assert((y2 + y) == y + y2);
            lemma_mul_is_distributive_sub_other_way(y + y2, y, t);
            lemma_mul_is_distributive_add(y, y, y2);
            lemma_mul_is_distributive_add(t, y, y2);
            lemma_mul_is_commutative(t, y);
            lemma_mul_is_commutative(t, y2);
        }
    }
}

/// A vertical at a point of order two.
pub proof fn lemma_branch_split(x: int, z: int, n: int, k: int)
    requires
        fp::vanishes(n - (z - x) * (z * z + x * z + x * x - 3)),
        fp::vanishes(k * (3 * (x * x) - 3) - 1),
    ensures
        fp::vanishes((z - x) - ((-k) * (z + 2 * x) * ((z - x) * (z - x)) + k * n)),
{
    fp::lemma_scale(k, n - (z - x) * (z * z + x * z + x * x - 3));
    fp::lemma_scale((z - x), k * (3 * (x * x) - 3) - 1);
    fp::lemma_zero();
    fp::lemma_add(0, k * (n - (z - x) * (z * z + x * z + x * x - 3)));
    fp::lemma_add(0 - k * (n - (z - x) * (z * z + x * z + x * x - 3)), (z - x) * (k * (3 * (x *
        x) - 3) - 1));
    assert((z - x) - ((-k) * (z + 2 * x) * ((z - x) * (z - x)) + k * n) == 0 - k * (n - (z - x)
        * (z * z + x * z + x * x - 3)) - (z - x) * (k * (3 * (x * x) - 3) - 1)) by {
        assert(((-k) * (z + (2 * x))) == 0 - (2 * (x * k)) - (z * k)) by {
            assert((-k) == 0 - k);
            assert((z + (2 * x)) == (2 * x) + z);
            lemma_mul_is_distributive_sub_other_way((2 * x) + z, 0, k);
            lemma_mul_is_distributive_add(k, (2 * x), z);
            lemma_outward(k, 2, x);
            lemma_mul_is_commutative(k, x);
            lemma_mul_is_commutative(k, z);
        }
        assert(((z - x) * (z - x)) == (x * x) - (2 * (x * z)) + (z * z)) by {
            assert((z - x) == 0 - x + z);
            lemma_mul_is_distributive_add_other_way(0 - x + z, 0 - x, z);
            lemma_mul_is_distributive_sub_other_way(0 - x + z, 0, x);
            lemma_mul_is_distributive_add(x, 0 - x, z);
            lemma_mul_is_distributive_sub(x, 0, x);
            lemma_mul_is_distributive_add(z, 0 - x, z);
            lemma_mul_is_distributive_sub(z, 0, x);
            lemma_mul_is_commutative(z, x);
        }
        assert((((-k) * (z + (2 * x))) * ((z - x) * (z - x))) == 0 - (2 * (x * x * x * k)) + (3
            * (x * x * z * k)) - (z * z * z * k)) by {
            assert(((-k) * (z + (2 * x))) == 0 - (2 * (x * k)) - (z * k));
            assert(((z - x) * (z - x)) == (x * x) - (2 * (x * z)) + (z * z));
            lemma_mul_is_distributive_sub_other_way((x * x) - (2 * (x * z)) + (z * z), 0 - (2 *
                (x * k)), (z * k));
            lemma_mul_is_distributive_sub_other_way((x * x) - (2 * (x * z)) + (z * z), 0, (2 *
                (x * k)));
            lemma_mul_is_distributive_add((2 * (x * k)), (x * x) - (2 * (x * z)), (z * z));
            lemma_mul_is_distributive_sub((2 * (x * k)), (x * x), (2 * (x * z)));
            lemma_mul_is_distributive_add((z * k), (x * x) - (2 * (x * z)), (z * z));
            lemma_mul_is_distributive_sub((z * k), (x * x), (2 * (x * z)));
            lemma_mul_is_associative(2, x * k, x * x);
            lemma_mul_is_associative(x * k, x, x);
            lemma_exchange(x, k, x);
            lemma_exchange(x * x, k, x);
            lemma_coefficients(2, x * k, 2, x * z);
            lemma_mul_is_associative(x * k, x, z);
            lemma_exchange(x * x, k, z);
            lemma_mul_is_associative(2, x * k, z * z);
            lemma_mul_is_associative(x * k, z, z);
            lemma_exchange(x, k, z);
            lemma_exchange(x * z, k, z);
            lemma_mul_is_associative(z * k, x, x);
            lemma_exchange(z, k, x);
            lemma_mul_is_commutative(z, x);
            lemma_exchange(x * z, k, x);
            lemma_exchange(x, z, x);
            lemma_outward(z * k, 2, x * z);
            lemma_mul_is_associative(z * k, x, z);
            lemma_mul_is_associative(z * k, z, z);
            lemma_exchange(z, k, z);
            lemma_exchange(z * z, k, z);
        }
        assert((k * n) == (n * k)) by {
            lemma_mul_is_commutative(k, n);
        }
        assert(((z - x) * ((((z * z) + (x * z)) + (x * x)) - 3)) == (3 * x) - (3 * z) - (x * x *
            x) + (z * z * z)) by {
            assert((z - x) == 0 - x + z);
            assert(((((z * z) + (x * z)) + (x * x)) - 3) == 0 - 3 + (x * x) + (x * z) + (z * z));
            lemma_mul_is_distributive_add_other_way(0 - 3 + (x * x) + (x * z) + (z * z), 0 - x, z);
            lemma_mul_is_distributive_sub_other_way(0 - 3 + (x * x) + (x * z) + (z * z), 0, x);
            lemma_mul_is_distributive_add(x, 0 - 3 + (x * x) + (x * z), (z * z));
            lemma_mul_is_distributive_add(x, 0 - 3 + (x * x), (x * z));
            lemma_mul_is_distributive_add(x, 0 - 3, (x * x));
            lemma_mul_is_distributive_sub(x, 0, 3);
            lemma_mul_is_distributive_add(z, 0 - 3 + (x * x) + (x * z), (z * z));
            lemma_mul_is_distributive_add(z, 0 - 3 + (x * x), (x * z));
            lemma_mul_is_distributive_add(z, 0 - 3, (x * x));
            lemma_mul_is_distributive_sub(z, 0, 3);
            lemma_mul_is_associative(x, x, x);
            lemma_mul_is_associative(x, x, z);
            lemma_mul_is_associative(x, z, z);
            lemma_mul_is_associative(z, x, x);
            lemma_mul_is_commutative(z, x);
            lemma_exchange(x, z, x);
            lemma_mul_is_associative(z, x, z);
            lemma_mul_is_associative(z, z, z);
        }
        assert((k * (n - ((z - x) * ((((z * z) + (x * z)) + (x * x)) - 3)))) == 0 - (3 * (x *
            k)) + (3 * (z * k)) + (n * k) + (x * x * x * k) - (z * z * z * k)) by {
            assert((n - ((z - x) * ((((z * z) + (x * z)) + (x * x)) - 3))) == 0 - (3 * x) + (3 *
                z) + n + (x * x * x) - (z * z * z));
            lemma_mul_is_distributive_sub(k, 0 - (3 * x) + (3 * z) + n + (x * x * x), (z * z * z));
            lemma_mul_is_distributive_add(k, 0 - (3 * x) + (3 * z) + n, (x * x * x));
            lemma_mul_is_distributive_add(k, 0 - (3 * x) + (3 * z), n);
            lemma_mul_is_distributive_add(k, 0 - (3 * x), (3 * z));
            lemma_mul_is_distributive_sub(k, 0, (3 * x));
            lemma_outward(k, 3, x);
            lemma_mul_is_commutative(k, x);
            lemma_outward(k, 3, z);
            lemma_mul_is_commutative(k, z);
            lemma_mul_is_commutative(k, n);
            lemma_mul_is_associative(k, x * x, x);
            lemma_mul_is_associative(k, x, x);
            lemma_exchange(x, k, x);
            lemma_exchange(x * x, k, x);
            lemma_mul_is_associative(k, z * z, z);
            lemma_mul_is_associative(k, z, z);
            lemma_exchange(z, k, z);
            lemma_exchange(z * z, k, z);
        }
        assert((k * ((3 * (x * x)) - 3)) == 0 - (3 * k) + (3 * (x * x * k))) by {
            assert(((3 * (x * x)) - 3) == 0 - 3 + (3 * (x * x)));
            lemma_mul_is_distributive_add(k, 0 - 3, (3 * (x * x)));
            lemma_mul_is_distributive_sub(k, 0, 3);
            lemma_outward(k, 3, x * x);
            lemma_mul_is_associative(k, x, x);
            lemma_mul_is_commutative(k, x);
            lemma_exchange(x, k, x);
        }
        assert(((z - x) * ((k * ((3 * (x * x)) - 3)) - 1)) == x - z + (3 * (x * k)) - (3 * (z *
            k)) - (3 * (x * x * x * k)) + (3 * (x * x * z * k))) by {
            assert((z - x) == 0 - x + z);
            assert(((k * ((3 * (x * x)) - 3)) - 1) == 0 - 1 - (3 * k) + (3 * (x * x * k)));
            lemma_mul_is_distributive_add_other_way(0 - 1 - (3 * k) + (3 * (x * x * k)), 0 - x, z);
            lemma_mul_is_distributive_sub_other_way(0 - 1 - (3 * k) + (3 * (x * x * k)), 0, x);
            lemma_mul_is_distributive_add(x, 0 - 1 - (3 * k), (3 * (x * x * k)));
            lemma_mul_is_distributive_sub(x, 0 - 1, (3 * k));
            lemma_mul_is_distributive_sub(x, 0, 1);
            lemma_mul_is_distributive_add(z, 0 - 1 - (3 * k), (3 * (x * x * k)));
            lemma_mul_is_distributive_sub(z, 0 - 1, (3 * k));
            lemma_mul_is_distributive_sub(z, 0, 1);
            lemma_outward(x, 3, k);
            lemma_outward(x, 3, x * x * k);
            lemma_mul_is_associative(x, x * x, k);
            lemma_mul_is_associative(x, x, x);
            lemma_outward(z, 3, k);
            lemma_outward(z, 3, x * x * k);
            lemma_mul_is_associative(z, x * x, k);
            lemma_mul_is_associative(z, x, x);
            lemma_mul_is_commutative(z, x);
            lemma_exchange(x, z, x);
        }
    }
}

/// Splitting a combination of the generators of a sum.
pub proof fn lemma_split(m: int, v: int, e: int, r1: int, r2: int, u1: int, u2: int, u3: int,
    u4: int, a1: int, a2: int, a3: int, a4: int, b1: int, b2: int, b3: int, b4: int, m1: int, m2:
    int, m3: int, m4: int)
    requires
        fp::vanishes(m * v - v * (a1 * u1 + a2 * u2 + a3 * u3 + a4 * u4)),
        fp::vanishes(m * e - v * (b1 * u1 + b2 * u2 + b3 * u3 + b4 * u4)),
        fp::vanishes(m1 - (r1 * a1 + r2 * b1)),
        fp::vanishes(m2 - (r1 * a2 + r2 * b2)),
        fp::vanishes(m3 - (r1 * a3 + r2 * b3)),
        fp::vanishes(m4 - (r1 * a4 + r2 * b4)),
    ensures
        fp::vanishes(m * (r1 * v + r2 * e) - v * (m1 * u1 + m2 * u2 + m3 * u3 + m4 * u4)),
{
    fp::lemma_scale(r1, m * v - v * (a1 * u1 + a2 * u2 + a3 * u3 + a4 * u4));
    fp::lemma_scale(r2, m * e - v * (b1 * u1 + b2 * u2 + b3 * u3 + b4 * u4));
    fp::lemma_scale((v * u1), m1 - (r1 * a1 + r2 * b1));
    fp::lemma_scale((v * u2), m2 - (r1 * a2 + r2 * b2));
    fp::lemma_scale((v * u3), m3 - (r1 * a3 + r2 * b3));
    fp::lemma_scale((v * u4), m4 - (r1 * a4 + r2 * b4));
    fp::lemma_add(r1 * (m * v - v * (a1 * u1 + a2 * u2 + a3 * u3 + a4 * u4)), r2 * (m * e - v *
        (b1 * u1 + b2 * u2 + b3 * u3 + b4 * u4)));
    fp::lemma_add(r1 * (m * v - v * (a1 * u1 + a2 * u2 + a3 * u3 + a4 * u4)) + r2 * (m * e - v *
        (b1 * u1 + b2 * u2 + b3 * u3 + b4 * u4)), (v * u1) * (m1 - (r1 * a1 + r2 * b1)));
    fp::lemma_add(r1 * (m * v - v * (a1 * u1 + a2 * u2 + a3 * u3 + a4 * u4)) + r2 * (m * e - v *
        (b1 * u1 + b2 * u2 + b3 * u3 + b4 * u4)) - (v * u1) * (m1 - (r1 * a1 + r2 * b1)), (v * u2) *
        (m2 - (r1 * a2 + r2 * b2)));
    fp::lemma_add(r1 * (m * v - v * (a1 * u1 + a2 * u2 + a3 * u3 + a4 * u4)) + r2 * (m * e - v *
        (b1 * u1 + b2 * u2 + b3 * u3 + b4 * u4)) - (v * u1) * (m1 - (r1 * a1 + r2 * b1)) - (v * u2)
        * (m2 - (r1 * a2 + r2 * b2)), (v * u3) * (m3 - (r1 * a3 + r2 * b3)));
    fp::lemma_add(r1 * (m * v - v * (a1 * u1 + a2 * u2 + a3 * u3 + a4 * u4)) + r2 * (m * e - v *
        (b1 * u1 + b2 * u2 + b3 * u3 + b4 * u4)) - (v * u1) * (m1 - (r1 * a1 + r2 * b1)) - (v * u2)
        * (m2 - (r1 * a2 + r2 * b2)) - (v * u3) * (m3 - (r1 * a3 + r2 * b3)), (v * u4) * (m4 - (r1 *
        a4 + r2 * b4)));
    assert(m * (r1 * v + r2 * e) - v * (m1 * u1 + m2 * u2 + m3 * u3 + m4 * u4) == r1 * (m * v -
        v * (a1 * u1 + a2 * u2 + a3 * u3 + a4 * u4)) + r2 * (m * e - v * (b1 * u1 + b2 * u2 + b3 *
        u3 + b4 * u4)) - (v * u1) * (m1 - (r1 * a1 + r2 * b1)) - (v * u2) * (m2 - (r1 * a2 + r2 *
        b2)) - (v * u3) * (m3 - (r1 * a3 + r2 * b3)) - (v * u4) * (m4 - (r1 * a4 + r2 * b4))) by {
        assert((r1 * v) == (v * r1)) by {
            lemma_mul_is_commutative(r1, v);
        }
        assert((r2 * e) == (e * r2)) by {
            lemma_mul_is_commutative(r2, e);
        }
        assert((m * ((r1 * v) + (r2 * e))) == (m * v * r1) + (m * e * r2)) by {
            assert(((r1 * v) + (r2 * e)) == (v * r1) + (e * r2));
            lemma_mul_is_distributive_add(m, (v * r1), (e * r2));
            lemma_mul_is_associative(m, v, r1);
            lemma_mul_is_associative(m, e, r2);
        }
        assert((m1 * u1) == (u1 * m1)) by {
            lemma_mul_is_commutative(m1, u1);
        }
        assert((m2 * u2) == (u2 * m2)) by {
            lemma_mul_is_commutative(m2, u2);
        }
        assert((m3 * u3) == (u3 * m3)) by {
            lemma_mul_is_commutative(m3, u3);
        }
        assert((m4 * u4) == (u4 * m4)) by {
            lemma_mul_is_commutative(m4, u4);
        }
        assert((v * ((((m1 * u1) + (m2 * u2)) + (m3 * u3)) + (m4 * u4))) == (v * u1 * m1) + (v *
            u2 * m2) + (v * u3 * m3) + (v * u4 * m4)) by {
            assert(((((m1 * u1) + (m2 * u2)) + (m3 * u3)) + (m4 * u4)) == (u1 * m1) + (u2 * m2)
                + (u3 * m3) + (u4 * m4));
            lemma_mul_is_distributive_add(v, (u1 * m1) + (u2 * m2) + (u3 * m3), (u4 * m4));
            lemma_mul_is_distributive_add(v, (u1 * m1) + (u2 * m2), (u3 * m3));
            lemma_mul_is_distributive_add(v, (u1 * m1), (u2 * m2));
            lemma_mul_is_associative(v, u1, m1);
            lemma_mul_is_associative(v, u2, m2);
            lemma_mul_is_associative(v, u3, m3);
            lemma_mul_is_associative(v, u4, m4);
        }
        assert((a1 * u1) == (u1 * a1)) by {
            lemma_mul_is_commutative(a1, u1);
        }
        assert((a2 * u2) == (u2 * a2)) by {
            lemma_mul_is_commutative(a2, u2);
        }
        assert((a3 * u3) == (u3 * a3)) by {
            lemma_mul_is_commutative(a3, u3);
        }
        assert((a4 * u4) == (u4 * a4)) by {
            lemma_mul_is_commutative(a4, u4);
        }
        assert((v * ((((a1 * u1) + (a2 * u2)) + (a3 * u3)) + (a4 * u4))) == (v * u1 * a1) + (v *
            u2 * a2) + (v * u3 * a3) + (v * u4 * a4)) by {
            assert(((((a1 * u1) + (a2 * u2)) + (a3 * u3)) + (a4 * u4)) == (u1 * a1) + (u2 * a2)
                + (u3 * a3) + (u4 * a4));
            lemma_mul_is_distributive_add(v, (u1 * a1) + (u2 * a2) + (u3 * a3), (u4 * a4));
            lemma_mul_is_distributive_add(v, (u1 * a1) + (u2 * a2), (u3 * a3));
            lemma_mul_is_distributive_add(v, (u1 * a1), (u2 * a2));
            lemma_mul_is_associative(v, u1, a1);
            lemma_mul_is_associative(v, u2, a2);
            lemma_mul_is_associative(v, u3, a3);
            lemma_mul_is_associative(v, u4, a4);
        }
        assert((r1 * ((m * v) - (v * ((((a1 * u1) + (a2 * u2)) + (a3 * u3)) + (a4 * u4))))) ==
            (m * v * r1) - (v * r1 * u1 * a1) - (v * r1 * u2 * a2) - (v * r1 * u3 * a3) - (v * r1 *
            u4 * a4)) by {
            assert(((m * v) - (v * ((((a1 * u1) + (a2 * u2)) + (a3 * u3)) + (a4 * u4)))) == (m *
                v) - (v * u1 * a1) - (v * u2 * a2) - (v * u3 * a3) - (v * u4 * a4));
            lemma_mul_is_distributive_sub(r1, (m * v) - (v * u1 * a1) - (v * u2 * a2) - (v * u3
                * a3), (v * u4 * a4));
            lemma_mul_is_distributive_sub(r1, (m * v) - (v * u1 * a1) - (v * u2 * a2), (v * u3 *
                a3));
            lemma_mul_is_distributive_sub(r1, (m * v) - (v * u1 * a1), (v * u2 * a2));
            lemma_mul_is_distributive_sub(r1, (m * v), (v * u1 * a1));
            lemma_mul_is_associative(r1, m, v);
            lemma_mul_is_commutative(r1, m);
            lemma_exchange(m, r1, v);
            lemma_mul_is_associative(r1, v * u1, a1);
            lemma_mul_is_associative(r1, v, u1);
            lemma_mul_is_commutative(r1, v);
            lemma_mul_is_associative(r1, v * u2, a2);
            lemma_mul_is_associative(r1, v, u2);
            lemma_mul_is_associative(r1, v * u3, a3);
            lemma_mul_is_associative(r1, v, u3);
            lemma_mul_is_associative(r1, v * u4, a4);
            lemma_mul_is_associative(r1, v, u4);
        }
        assert((b1 * u1) == (u1 * b1)) by {
            lemma_mul_is_commutative(b1, u1);
        }
        assert((b2 * u2) == (u2 * b2)) by {
            lemma_mul_is_commutative(b2, u2);
        }
        assert((b3 * u3) == (u3 * b3)) by {
            lemma_mul_is_commutative(b3, u3);
        }
        assert((b4 * u4) == (u4 * b4)) by {
            lemma_mul_is_commutative(b4, u4);
        }
        assert((v * ((((b1 * u1) + (b2 * u2)) + (b3 * u3)) + (b4 * u4))) == (v * u1 * b1) + (v *
            u2 * b2) + (v * u3 * b3) + (v * u4 * b4)) by {
            assert(((((b1 * u1) + (b2 * u2)) + (b3 * u3)) + (b4 * u4)) == (u1 * b1) + (u2 * b2)
                + (u3 * b3) + (u4 * b4));
            lemma_mul_is_distributive_add(v, (u1 * b1) + (u2 * b2) + (u3 * b3), (u4 * b4));
            lemma_mul_is_distributive_add(v, (u1 * b1) + (u2 * b2), (u3 * b3));
            lemma_mul_is_distributive_add(v, (u1 * b1), (u2 * b2));
            lemma_mul_is_associative(v, u1, b1);
            lemma_mul_is_associative(v, u2, b2);
            lemma_mul_is_associative(v, u3, b3);
            lemma_mul_is_associative(v, u4, b4);
        }
        assert((r2 * ((m * e) - (v * ((((b1 * u1) + (b2 * u2)) + (b3 * u3)) + (b4 * u4))))) ==
            (m * e * r2) - (v * r2 * u1 * b1) - (v * r2 * u2 * b2) - (v * r2 * u3 * b3) - (v * r2 *
            u4 * b4)) by {
            assert(((m * e) - (v * ((((b1 * u1) + (b2 * u2)) + (b3 * u3)) + (b4 * u4)))) == (m *
                e) - (v * u1 * b1) - (v * u2 * b2) - (v * u3 * b3) - (v * u4 * b4));
            lemma_mul_is_distributive_sub(r2, (m * e) - (v * u1 * b1) - (v * u2 * b2) - (v * u3
                * b3), (v * u4 * b4));
            lemma_mul_is_distributive_sub(r2, (m * e) - (v * u1 * b1) - (v * u2 * b2), (v * u3 *
                b3));
            lemma_mul_is_distributive_sub(r2, (m * e) - (v * u1 * b1), (v * u2 * b2));
            lemma_mul_is_distributive_sub(r2, (m * e), (v * u1 * b1));
            lemma_mul_is_associative(r2, m, e);
            lemma_mul_is_commutative(r2, m);
            lemma_exchange(m, r2, e);
            lemma_mul_is_associative(r2, v * u1, b1);
            lemma_mul_is_associative(r2, v, u1);
            lemma_mul_is_commutative(r2, v);
            lemma_mul_is_associative(r2, v * u2, b2);
            lemma_mul_is_associative(r2, v, u2);
            lemma_mul_is_associative(r2, v * u3, b3);
            lemma_mul_is_associative(r2, v, u3);
            lemma_mul_is_associative(r2, v * u4, b4);
            lemma_mul_is_associative(r2, v, u4);
        }
        assert(((v * u1) * (m1 - ((r1 * a1) + (r2 * b1)))) == (v * u1 * m1) - (v * r1 * u1 * a1)
            - (v * r2 * u1 * b1)) by {
            assert((m1 - ((r1 * a1) + (r2 * b1))) == m1 - (r1 * a1) - (r2 * b1));
            lemma_mul_is_distributive_sub((v * u1), m1 - (r1 * a1), (r2 * b1));
            lemma_mul_is_distributive_sub((v * u1), m1, (r1 * a1));
            lemma_mul_is_associative(v * u1, r1, a1);
            lemma_exchange(v, u1, r1);
            lemma_mul_is_associative(v * u1, r2, b1);
            lemma_exchange(v, u1, r2);
        }
        assert(((v * u2) * (m2 - ((r1 * a2) + (r2 * b2)))) == (v * u2 * m2) - (v * r1 * u2 * a2)
            - (v * r2 * u2 * b2)) by {
            assert((m2 - ((r1 * a2) + (r2 * b2))) == m2 - (r1 * a2) - (r2 * b2));
            lemma_mul_is_distributive_sub((v * u2), m2 - (r1 * a2), (r2 * b2));
            lemma_mul_is_distributive_sub((v * u2), m2, (r1 * a2));
            lemma_mul_is_associative(v * u2, r1, a2);
            lemma_exchange(v, u2, r1);
            lemma_mul_is_associative(v * u2, r2, b2);
            lemma_exchange(v, u2, r2);
        }
        assert(((v * u3) * (m3 - ((r1 * a3) + (r2 * b3)))) == (v * u3 * m3) - (v * r1 * u3 * a3)
            - (v * r2 * u3 * b3)) by {
            assert((m3 - ((r1 * a3) + (r2 * b3))) == m3 - (r1 * a3) - (r2 * b3));
            lemma_mul_is_distributive_sub((v * u3), m3 - (r1 * a3), (r2 * b3));
            lemma_mul_is_distributive_sub((v * u3), m3, (r1 * a3));
            lemma_mul_is_associative(v * u3, r1, a3);
            lemma_exchange(v, u3, r1);
            lemma_mul_is_associative(v * u3, r2, b3);
            lemma_exchange(v, u3, r2);
        }
        assert(((v * u4) * (m4 - ((r1 * a4) + (r2 * b4)))) == (v * u4 * m4) - (v * r1 * u4 * a4)
            - (v * r2 * u4 * b4)) by {
            assert((m4 - ((r1 * a4) + (r2 * b4))) == m4 - (r1 * a4) - (r2 * b4));
            lemma_mul_is_distributive_sub((v * u4), m4 - (r1 * a4), (r2 * b4));
            lemma_mul_is_distributive_sub((v * u4), m4, (r1 * a4));
            lemma_mul_is_associative(v * u4, r1, a4);
            lemma_exchange(v, u4, r1);
            lemma_mul_is_associative(v * u4, r2, b4);
            lemma_exchange(v, u4, r2);
        }
    }
}

/// Merging a combination of products of generators.
pub proof fn lemma_merge(m: int, v: int, e: int, c1: int, c2: int, u1: int, u2: int, u3: int,
    u4: int, s1: int, s2: int, s3: int, s4: int, t1: int, t2: int, t3: int, t4: int, m1: int, m2:
    int, m3: int, m4: int)
    requires
        fp::vanishes(v * u1 - m * (s1 * v + t1 * e)),
        fp::vanishes(v * u2 - m * (s2 * v + t2 * e)),
        fp::vanishes(v * u3 - m * (s3 * v + t3 * e)),
        fp::vanishes(v * u4 - m * (s4 * v + t4 * e)),
        fp::vanishes(c1 - (m1 * s1 + m2 * s2 + m3 * s3 + m4 * s4)),
        fp::vanishes(c2 - (m1 * t1 + m2 * t2 + m3 * t3 + m4 * t4)),
    ensures
        fp::vanishes(v * (m1 * u1 + m2 * u2 + m3 * u3 + m4 * u4) - m * (c1 * v + c2 * e)),
{
    fp::lemma_scale(m1, v * u1 - m * (s1 * v + t1 * e));
    fp::lemma_scale(m2, v * u2 - m * (s2 * v + t2 * e));
    fp::lemma_scale(m3, v * u3 - m * (s3 * v + t3 * e));
    fp::lemma_scale(m4, v * u4 - m * (s4 * v + t4 * e));
    fp::lemma_scale((m * v), c1 - (m1 * s1 + m2 * s2 + m3 * s3 + m4 * s4));
    fp::lemma_scale((m * e), c2 - (m1 * t1 + m2 * t2 + m3 * t3 + m4 * t4));
    fp::lemma_add(m1 * (v * u1 - m * (s1 * v + t1 * e)), m2 * (v * u2 - m * (s2 * v + t2 * e)));
    fp::lemma_add(m1 * (v * u1 - m * (s1 * v + t1 * e)) + m2 * (v * u2 - m * (s2 * v + t2 * e)),
        m3 * (v * u3 - m * (s3 * v + t3 * e)));
    fp::lemma_add(m1 * (v * u1 - m * (s1 * v + t1 * e)) + m2 * (v * u2 - m * (s2 * v + t2 * e))
        + m3 * (v * u3 - m * (s3 * v + t3 * e)), m4 * (v * u4 - m * (s4 * v + t4 * e)));
    fp::lemma_add(m1 * (v * u1 - m * (s1 * v + t1 * e)) + m2 * (v * u2 - m * (s2 * v + t2 * e))
        + m3 * (v * u3 - m * (s3 * v + t3 * e)) + m4 * (v * u4 - m * (s4 * v + t4 * e)), (m * v) *
        (c1 - (m1 * s1 + m2 * s2 + m3 * s3 + m4 * s4)));
    fp::lemma_add(m1 * (v * u1 - m * (s1 * v + t1 * e)) + m2 * (v * u2 - m * (s2 * v + t2 * e))
        + m3 * (v * u3 - m * (s3 * v + t3 * e)) + m4 * (v * u4 - m * (s4 * v + t4 * e)) - (m * v) *
        (c1 - (m1 * s1 + m2 * s2 + m3 * s3 + m4 * s4)), (m * e) * (c2 - (m1 * t1 + m2 * t2 + m3 * t3
        + m4 * t4)));
    assert(v * (m1 * u1 + m2 * u2 + m3 * u3 + m4 * u4) - m * (c1 * v + c2 * e) == m1 * (v * u1 -
        m * (s1 * v + t1 * e)) + m2 * (v * u2 - m * (s2 * v + t2 * e)) + m3 * (v * u3 - m * (s3 * v
        + t3 * e)) + m4 * (v * u4 - m * (s4 * v + t4 * e)) - (m * v) * (c1 - (m1 * s1 + m2 * s2 + m3
        * s3 + m4 * s4)) - (m * e) * (c2 - (m1 * t1 + m2 * t2 + m3 * t3 + m4 * t4))) by {
        assert((m1 * u1) == (u1 * m1)) by {
            lemma_mul_is_commutative(m1, u1);
        }
        assert((m2 * u2) == (u2 * m2)) by {
            lemma_mul_is_commutative(m2, u2);
        }
        assert((m3 * u3) == (u3 * m3)) by {
            lemma_mul_is_commutative(m3, u3);
        }
        assert((m4 * u4) == (u4 * m4)) by {
            lemma_mul_is_commutative(m4, u4);
        }
        assert((v * ((((m1 * u1) + (m2 * u2)) + (m3 * u3)) + (m4 * u4))) == (v * u1 * m1) + (v *
            u2 * m2) + (v * u3 * m3) + (v * u4 * m4)) by {
            assert(((((m1 * u1) + (m2 * u2)) + (m3 * u3)) + (m4 * u4)) == (u1 * m1) + (u2 * m2)
                + (u3 * m3) + (u4 * m4));
            lemma_mul_is_distributive_add(v, (u1 * m1) + (u2 * m2) + (u3 * m3), (u4 * m4));
            lemma_mul_is_distributive_add(v, (u1 * m1) + (u2 * m2), (u3 * m3));
            lemma_mul_is_distributive_add(v, (u1 * m1), (u2 * m2));
            lemma_mul_is_associative(v, u1, m1);
            lemma_mul_is_associative(v, u2, m2);
            lemma_mul_is_associative(v, u3, m3);
            lemma_mul_is_associative(v, u4, m4);
        }
        assert((c1 * v) == (v * c1)) by {
            lemma_mul_is_commutative(c1, v);
        }
        assert((c2 * e) == (e * c2)) by {
            lemma_mul_is_commutative(c2, e);
        }
        assert((m * ((c1 * v) + (c2 * e))) == (m * v * c1) + (m * e * c2)) by {
            assert(((c1 * v) + (c2 * e)) == (v * c1) + (e * c2));
            lemma_mul_is_distributive_add(m, (v * c1), (e * c2));
            lemma_mul_is_associative(m, v, c1);
            lemma_mul_is_associative(m, e, c2);
        }
        assert((s1 * v) == (v * s1)) by {
            lemma_mul_is_commutative(s1, v);
        }
        assert((t1 * e) == (e * t1)) by {
            lemma_mul_is_commutative(t1, e);
        }
        assert((m * ((s1 * v) + (t1 * e))) == (m * v * s1) + (m * e * t1)) by {
            assert(((s1 * v) + (t1 * e)) == (v * s1) + (e * t1));
            lemma_mul_is_distributive_add(m, (v * s1), (e * t1));
            lemma_mul_is_associative(m, v, s1);
            lemma_mul_is_associative(m, e, t1);
        }
        assert((m1 * ((v * u1) - (m * ((s1 * v) + (t1 * e))))) == (v * u1 * m1) - (m * v * s1 *
            m1) - (m * e * t1 * m1)) by {
            assert(((v * u1) - (m * ((s1 * v) + (t1 * e)))) == (v * u1) - (m * v * s1) - (m * e
                * t1));
            lemma_mul_is_distributive_sub(m1, (v * u1) - (m * v * s1), (m * e * t1));
            lemma_mul_is_distributive_sub(m1, (v * u1), (m * v * s1));
            lemma_mul_is_associative(m1, v, u1);
            lemma_mul_is_commutative(m1, v);
            lemma_exchange(v, m1, u1);
            lemma_mul_is_associative(m1, m * v, s1);
            lemma_mul_is_associative(m1, m, v);
            lemma_mul_is_commutative(m1, m);
            lemma_exchange(m, m1, v);
            lemma_exchange(m * v, m1, s1);
            lemma_mul_is_associative(m1, m * e, t1);
            lemma_mul_is_associative(m1, m, e);
            lemma_exchange(m, m1, e);
            lemma_exchange(m * e, m1, t1);
        }
        assert((s2 * v) == (v * s2)) by {
            lemma_mul_is_commutative(s2, v);
        }
        assert((t2 * e) == (e * t2)) by {
            lemma_mul_is_commutative(t2, e);
        }
        assert((m * ((s2 * v) + (t2 * e))) == (m * v * s2) + (m * e * t2)) by {
            assert(((s2 * v) + (t2 * e)) == (v * s2) + (e * t2));
            lemma_mul_is_distributive_add(m, (v * s2), (e * t2));
            lemma_mul_is_associative(m, v, s2);
            lemma_mul_is_associative(m, e, t2);
        }
        assert((m2 * ((v * u2) - (m * ((s2 * v) + (t2 * e))))) == (v * u2 * m2) - (m * v * s2 *
            m2) - (m * e * t2 * m2)) by {
            assert(((v * u2) - (m * ((s2 * v) + (t2 * e)))) == (v * u2) - (m * v * s2) - (m * e
                * t2));
            lemma_mul_is_distributive_sub(m2, (v * u2) - (m * v * s2), (m * e * t2));
            lemma_mul_is_distributive_sub(m2, (v * u2), (m * v * s2));
            lemma_mul_is_associative(m2, v, u2);
            lemma_mul_is_commutative(m2, v);
            lemma_exchange(v, m2, u2);
            lemma_mul_is_associative(m2, m * v, s2);
            lemma_mul_is_associative(m2, m, v);
            lemma_mul_is_commutative(m2, m);
            lemma_exchange(m, m2, v);
            lemma_exchange(m * v, m2, s2);
            lemma_mul_is_associative(m2, m * e, t2);
            lemma_mul_is_associative(m2, m, e);
            lemma_exchange(m, m2, e);
            lemma_exchange(m * e, m2, t2);
        }
        assert((s3 * v) == (v * s3)) by {
            lemma_mul_is_commutative(s3, v);
        }
        assert((t3 * e) == (e * t3)) by {
            lemma_mul_is_commutative(t3, e);
        }
        assert((m * ((s3 * v) + (t3 * e))) == (m * v * s3) + (m * e * t3)) by {
            assert(((s3 * v) + (t3 * e)) == (v * s3) + (e * t3));
            lemma_mul_is_distributive_add(m, (v * s3), (e * t3));
            lemma_mul_is_associative(m, v, s3);
            lemma_mul_is_associative(m, e, t3);
        }
        assert((m3 * ((v * u3) - (m * ((s3 * v) + (t3 * e))))) == (v * u3 * m3) - (m * v * s3 *
            m3) - (m * e * t3 * m3)) by {
            assert(((v * u3) - (m * ((s3 * v) + (t3 * e)))) == (v * u3) - (m * v * s3) - (m * e
                * t3));
            lemma_mul_is_distributive_sub(m3, (v * u3) - (m * v * s3), (m * e * t3));
            lemma_mul_is_distributive_sub(m3, (v * u3), (m * v * s3));
            lemma_mul_is_associative(m3, v, u3);
            lemma_mul_is_commutative(m3, v);
            lemma_exchange(v, m3, u3);
            lemma_mul_is_associative(m3, m * v, s3);
            lemma_mul_is_associative(m3, m, v);
            lemma_mul_is_commutative(m3, m);
            lemma_exchange(m, m3, v);
            lemma_exchange(m * v, m3, s3);
            lemma_mul_is_associative(m3, m * e, t3);
            lemma_mul_is_associative(m3, m, e);
            lemma_exchange(m, m3, e);
            lemma_exchange(m * e, m3, t3);
        }
        assert((s4 * v) == (v * s4)) by {
            lemma_mul_is_commutative(s4, v);
        }
        assert((t4 * e) == (e * t4)) by {
            lemma_mul_is_commutative(t4, e);
        }
        assert((m * ((s4 * v) + (t4 * e))) == (m * v * s4) + (m * e * t4)) by {
            assert(((s4 * v) + (t4 * e)) == (v * s4) + (e * t4));
            lemma_mul_is_distributive_add(m, (v * s4), (e * t4));
            lemma_mul_is_associative(m, v, s4);
            lemma_mul_is_associative(m, e, t4);
        }
        assert((m4 * ((v * u4) - (m * ((s4 * v) + (t4 * e))))) == (v * u4 * m4) - (m * v * s4 *
            m4) - (m * e * t4 * m4)) by {
            assert(((v * u4) - (m * ((s4 * v) + (t4 * e)))) == (v * u4) - (m * v * s4) - (m * e
                * t4));
            lemma_mul_is_distributive_sub(m4, (v * u4) - (m * v * s4), (m * e * t4));
            lemma_mul_is_distributive_sub(m4, (v * u4), (m * v * s4));
            lemma_mul_is_associative(m4, v, u4);
            lemma_mul_is_commutative(m4, v);
            lemma_exchange(v, m4, u4);
            lemma_mul_is_associative(m4, m * v, s4);
            lemma_mul_is_associative(m4, m, v);
            lemma_mul_is_commutative(m4, m);
            lemma_exchange(m, m4, v);
            lemma_exchange(m * v, m4, s4);
            lemma_mul_is_associative(m4, m * e, t4);
            lemma_mul_is_associative(m4, m, e);
            lemma_exchange(m, m4, e);
            lemma_exchange(m * e, m4, t4);
        }
        assert((m1 * s1) == (s1 * m1)) by {
            lemma_mul_is_commutative(m1, s1);
        }
        assert((m2 * s2) == (s2 * m2)) by {
            lemma_mul_is_commutative(m2, s2);
        }
        assert((m3 * s3) == (s3 * m3)) by {
            lemma_mul_is_commutative(m3, s3);
        }
        assert((m4 * s4) == (s4 * m4)) by {
            lemma_mul_is_commutative(m4, s4);
        }
        assert(((m * v) * (c1 - ((((m1 * s1) + (m2 * s2)) + (m3 * s3)) + (m4 * s4)))) == (m * v
            * c1) - (m * v * s1 * m1) - (m * v * s2 * m2) - (m * v * s3 * m3) - (m * v * s4 * m4))
            by {
            assert((c1 - ((((m1 * s1) + (m2 * s2)) + (m3 * s3)) + (m4 * s4))) == c1 - (s1 * m1)
                - (s2 * m2) - (s3 * m3) - (s4 * m4));
            lemma_mul_is_distributive_sub((m * v), c1 - (s1 * m1) - (s2 * m2) - (s3 * m3), (s4 *
                m4));
            lemma_mul_is_distributive_sub((m * v), c1 - (s1 * m1) - (s2 * m2), (s3 * m3));
            lemma_mul_is_distributive_sub((m * v), c1 - (s1 * m1), (s2 * m2));
            lemma_mul_is_distributive_sub((m * v), c1, (s1 * m1));
            lemma_mul_is_associative(m * v, s1, m1);
            lemma_mul_is_associative(m * v, s2, m2);
            lemma_mul_is_associative(m * v, s3, m3);
            lemma_mul_is_associative(m * v, s4, m4);
        }
        assert((m1 * t1) == (t1 * m1)) by {
            lemma_mul_is_commutative(m1, t1);
        }
        assert((m2 * t2) == (t2 * m2)) by {
            lemma_mul_is_commutative(m2, t2);
        }
        assert((m3 * t3) == (t3 * m3)) by {
            lemma_mul_is_commutative(m3, t3);
        }
        assert((m4 * t4) == (t4 * m4)) by {
            lemma_mul_is_commutative(m4, t4);
        }
        assert(((m * e) * (c2 - ((((m1 * t1) + (m2 * t2)) + (m3 * t3)) + (m4 * t4)))) == (m * e
            * c2) - (m * e * t1 * m1) - (m * e * t2 * m2) - (m * e * t3 * m3) - (m * e * t4 * m4))
            by {
            assert((c2 - ((((m1 * t1) + (m2 * t2)) + (m3 * t3)) + (m4 * t4))) == c2 - (t1 * m1)
                - (t2 * m2) - (t3 * m3) - (t4 * m4));
            lemma_mul_is_distributive_sub((m * e), c2 - (t1 * m1) - (t2 * m2) - (t3 * m3), (t4 *
                m4));
            lemma_mul_is_distributive_sub((m * e), c2 - (t1 * m1) - (t2 * m2), (t3 * m3));
            lemma_mul_is_distributive_sub((m * e), c2 - (t1 * m1), (t2 * m2));
            lemma_mul_is_distributive_sub((m * e), c2, (t1 * m1));
            lemma_mul_is_associative(m * e, t1, m1);
            lemma_mul_is_associative(m * e, t2, m2);
            lemma_mul_is_associative(m * e, t3, m3);
            lemma_mul_is_associative(m * e, t4, m4);
        }
    }
}

/// Products of generators by the second factor.
pub proof fn lemma_regroup(p: int, q: int, r: int, s: int, m1: int, m2: int, m3: int, m4: int)
    ensures
        m1 * (p * r) + m2 * (p * s) + m3 * (q * r) + m4 * (q * s) == r * (m1 * p + m3 * q) + s *
            (m2 * p + m4 * q),
{
    assert((m1 * (p * r)) == (p * r * m1)) by {
        lemma_mul_is_associative(m1, p, r);
        lemma_mul_is_commutative(m1, p);
        lemma_exchange(p, m1, r);
    }
    assert((m2 * (p * s)) == (p * s * m2)) by {
        lemma_mul_is_associative(m2, p, s);
        lemma_mul_is_commutative(m2, p);
        lemma_exchange(p, m2, s);
    }
    assert((m3 * (q * r)) == (q * r * m3)) by {
        lemma_mul_is_associative(m3, q, r);
        lemma_mul_is_commutative(m3, q);
        lemma_exchange(q, m3, r);
    }
    assert((m4 * (q * s)) == (q * s * m4)) by {
        lemma_mul_is_associative(m4, q, s);
        lemma_mul_is_commutative(m4, q);
        lemma_exchange(q, m4, s);
    }
    assert((m1 * p) == (p * m1)) by {
        lemma_mul_is_commutative(m1, p);
    }
    assert((m3 * q) == (q * m3)) by {
        lemma_mul_is_commutative(m3, q);
    }
    assert((r * ((m1 * p) + (m3 * q))) == (p * r * m1) + (q * r * m3)) by {
        assert(((m1 * p) + (m3 * q)) == (p * m1) + (q * m3));
        lemma_mul_is_distributive_add(r, (p * m1), (q * m3));
        lemma_mul_is_associative(r, p, m1);
        lemma_mul_is_commutative(r, p);
        lemma_mul_is_associative(r, q, m3);
        lemma_mul_is_commutative(r, q);
    }
    assert((m2 * p) == (p * m2)) by {
        lemma_mul_is_commutative(m2, p);
    }
    assert((m4 * q) == (q * m4)) by {
        lemma_mul_is_commutative(m4, q);
    }
    assert((s * ((m2 * p) + (m4 * q))) == (p * s * m2) + (q * s * m4)) by {
        assert(((m2 * p) + (m4 * q)) == (p * m2) + (q * m4));
        lemma_mul_is_distributive_add(s, (p * m2), (q * m4));
        lemma_mul_is_associative(s, p, m2);
        lemma_mul_is_commutative(s, p);
        lemma_mul_is_associative(s, q, m4);
        lemma_mul_is_commutative(s, q);
    }
}

/// Products of three generators by the first factor.
pub proof fn lemma_rotate(xp: int, yp: int, xq: int, yq: int, xr: int, yr: int, m1: int, m2:
    int, m3: int, m4: int, n1: int, n2: int, n3: int, n4: int)
    ensures
        xr * (m1 * (xp * xq) + m2 * (xp * yq) + m3 * (yp * xq) + m4 * (yp * yq)) + yr * (n1 *
            (xp * xq) + n2 * (xp * yq) + n3 * (yp * xq) + n4 * (yp * yq)) == xp * (m1 * (xq * xr) +
            n1 * (xq * yr) + m2 * (yq * xr) + n2 * (yq * yr)) + yp * (m3 * (xq * xr) + n3 * (xq *
            yr) + m4 * (yq * xr) + n4 * (yq * yr)),
{
    assert((m1 * (xp * xq)) == (xp * xq * m1)) by {
        lemma_mul_is_associative(m1, xp, xq);
        lemma_mul_is_commutative(m1, xp);
        lemma_exchange(xp, m1, xq);
    }
    assert((m2 * (xp * yq)) == (xp * yq * m2)) by {
        lemma_mul_is_associative(m2, xp, yq);
        lemma_mul_is_commutative(m2, xp);
        lemma_exchange(xp, m2, yq);
    }
    assert((m3 * (yp * xq)) == (yp * xq * m3)) by {
        lemma_mul_is_associative(m3, yp, xq);
        lemma_mul_is_commutative(m3, yp);
        lemma_exchange(yp, m3, xq);
    }
    assert((m4 * (yp * yq)) == (yp * yq * m4)) by {
        lemma_mul_is_associative(m4, yp, yq);
        lemma_mul_is_commutative(m4, yp);
        lemma_exchange(yp, m4, yq);
    }
    assert((xr * ((((m1 * (xp * xq)) + (m2 * (xp * yq))) + (m3 * (yp * xq))) + (m4 * (yp *
        yq)))) == (xp * xq * xr * m1) + (xp * yq * xr * m2) + (yp * xq * xr * m3) + (yp * yq * xr *
        m4)) by {
        assert(((((m1 * (xp * xq)) + (m2 * (xp * yq))) + (m3 * (yp * xq))) + (m4 * (yp * yq)))
            == (xp * xq * m1) + (xp * yq * m2) + (yp * xq * m3) + (yp * yq * m4));
        lemma_mul_is_distributive_add(xr, (xp * xq * m1) + (xp * yq * m2) + (yp * xq * m3), (yp
            * yq * m4));
        lemma_mul_is_distributive_add(xr, (xp * xq * m1) + (xp * yq * m2), (yp * xq * m3));
        lemma_mul_is_distributive_add(xr, (xp * xq * m1), (xp * yq * m2));
        lemma_mul_is_associative(xr, xp * xq, m1);
        lemma_mul_is_associative(xr, xp, xq);
        lemma_mul_is_commutative(xr, xp);
        lemma_exchange(xp, xr, xq);
        lemma_mul_is_associative(xr, xp * yq, m2);
        lemma_mul_is_associative(xr, xp, yq);
        lemma_exchange(xp, xr, yq);
        lemma_mul_is_associative(xr, yp * xq, m3);
        lemma_mul_is_associative(xr, yp, xq);
        lemma_mul_is_commutative(xr, yp);
        lemma_exchange(yp, xr, xq);
        lemma_mul_is_associative(xr, yp * yq, m4);
        lemma_mul_is_associative(xr, yp, yq);
        lemma_exchange(yp, xr, yq);
    }
    assert((n1 * (xp * xq)) == (xp * xq * n1)) by {
        lemma_mul_is_associative(n1, xp, xq);
        lemma_mul_is_commutative(n1, xp);
        lemma_exchange(xp, n1, xq);
    }
    assert((n2 * (xp * yq)) == (xp * yq * n2)) by {
        lemma_mul_is_associative(n2, xp, yq);
        lemma_mul_is_commutative(n2, xp);
        lemma_exchange(xp, n2, yq);
    }
    assert((n3 * (yp * xq)) == (yp * xq * n3)) by {
        lemma_mul_is_associative(n3, yp, xq);
        lemma_mul_is_commutative(n3, yp);
        lemma_exchange(yp, n3, xq);
    }
    assert((n4 * (yp * yq)) == (yp * yq * n4)) by {
        lemma_mul_is_associative(n4, yp, yq);
        lemma_mul_is_commutative(n4, yp);
        lemma_exchange(yp, n4, yq);
    }
    assert((yr * ((((n1 * (xp * xq)) + (n2 * (xp * yq))) + (n3 * (yp * xq))) + (n4 * (yp *
        yq)))) == (xp * xq * yr * n1) + (xp * yq * yr * n2) + (yp * xq * yr * n3) + (yp * yq * yr *
        n4)) by {
        assert(((((n1 * (xp * xq)) + (n2 * (xp * yq))) + (n3 * (yp * xq))) + (n4 * (yp * yq)))
            == (xp * xq * n1) + (xp * yq * n2) + (yp * xq * n3) + (yp * yq * n4));
        lemma_mul_is_distributive_add(yr, (xp * xq * n1) + (xp * yq * n2) + (yp * xq * n3), (yp
            * yq * n4));
        lemma_mul_is_distributive_add(yr, (xp * xq * n1) + (xp * yq * n2), (yp * xq * n3));
        lemma_mul_is_distributive_add(yr, (xp * xq * n1), (xp * yq * n2));
        lemma_mul_is_associative(yr, xp * xq, n1);
        lemma_mul_is_associative(yr, xp, xq);
        lemma_mul_is_commutative(yr, xp);
        lemma_exchange(xp, yr, xq);
        lemma_mul_is_associative(yr, xp * yq, n2);
        lemma_mul_is_associative(yr, xp, yq);
        lemma_exchange(xp, yr, yq);
        lemma_mul_is_associative(yr, yp * xq, n3);
        lemma_mul_is_associative(yr, yp, xq);
        lemma_mul_is_commutative(yr, yp);
        lemma_exchange(yp, yr, xq);
        lemma_mul_is_associative(yr, yp * yq, n4);
        lemma_mul_is_associative(yr, yp, yq);
        lemma_exchange(yp, yr, yq);
    }
    assert((m1 * (xq * xr)) == (xq * xr * m1)) by {
        lemma_mul_is_associative(m1, xq, xr);
        lemma_mul_is_commutative(m1, xq);
        lemma_exchange(xq, m1, xr);
    }
    assert((n1 * (xq * yr)) == (xq * yr * n1)) by {
        lemma_mul_is_associative(n1, xq, yr);
        lemma_mul_is_commutative(n1, xq);
        lemma_exchange(xq, n1, yr);
    }
    assert((m2 * (yq * xr)) == (yq * xr * m2)) by {
        lemma_mul_is_associative(m2, yq, xr);
        lemma_mul_is_commutative(m2, yq);
        lemma_exchange(yq, m2, xr);
    }
    assert((n2 * (yq * yr)) == (yq * yr * n2)) by {
        lemma_mul_is_associative(n2, yq, yr);
        lemma_mul_is_commutative(n2, yq);
        lemma_exchange(yq, n2, yr);
    }
    assert((xp * ((((m1 * (xq * xr)) + (n1 * (xq * yr))) + (m2 * (yq * xr))) + (n2 * (yq *
        yr)))) == (xp * xq * xr * m1) + (xp * xq * yr * n1) + (xp * yq * xr * m2) + (xp * yq * yr *
        n2)) by {
        assert(((((m1 * (xq * xr)) + (n1 * (xq * yr))) + (m2 * (yq * xr))) + (n2 * (yq * yr)))
            == (xq * xr * m1) + (xq * yr * n1) + (yq * xr * m2) + (yq * yr * n2));
        lemma_mul_is_distributive_add(xp, (xq * xr * m1) + (xq * yr * n1) + (yq * xr * m2), (yq
            * yr * n2));
        lemma_mul_is_distributive_add(xp, (xq * xr * m1) + (xq * yr * n1), (yq * xr * m2));
        lemma_mul_is_distributive_add(xp, (xq * xr * m1), (xq * yr * n1));
        lemma_mul_is_associative(xp, xq * xr, m1);
        lemma_mul_is_associative(xp, xq, xr);
        lemma_mul_is_associative(xp, xq * yr, n1);
        lemma_mul_is_associative(xp, xq, yr);
        lemma_mul_is_associative(xp, yq * xr, m2);
        lemma_mul_is_associative(xp, yq, xr);
        lemma_mul_is_associative(xp, yq * yr, n2);
        lemma_mul_is_associative(xp, yq, yr);
    }
    assert((m3 * (xq * xr)) == (xq * xr * m3)) by {
        lemma_mul_is_associative(m3, xq, xr);
        lemma_mul_is_commutative(m3, xq);
        lemma_exchange(xq, m3, xr);
    }
    assert((n3 * (xq * yr)) == (xq * yr * n3)) by {
        lemma_mul_is_associative(n3, xq, yr);
        lemma_mul_is_commutative(n3, xq);
        lemma_exchange(xq, n3, yr);
    }
    assert((m4 * (yq * xr)) == (yq * xr * m4)) by {
        lemma_mul_is_associative(m4, yq, xr);
        lemma_mul_is_commutative(m4, yq);
        lemma_exchange(yq, m4, xr);
    }
    assert((n4 * (yq * yr)) == (yq * yr * n4)) by {
        lemma_mul_is_associative(n4, yq, yr);
        lemma_mul_is_commutative(n4, yq);
        lemma_exchange(yq, n4, yr);
    }
    assert((yp * ((((m3 * (xq * xr)) + (n3 * (xq * yr))) + (m4 * (yq * xr))) + (n4 * (yq *
        yr)))) == (yp * xq * xr * m3) + (yp * xq * yr * n3) + (yp * yq * xr * m4) + (yp * yq * yr *
        n4)) by {
        assert(((((m3 * (xq * xr)) + (n3 * (xq * yr))) + (m4 * (yq * xr))) + (n4 * (yq * yr)))
            == (xq * xr * m3) + (xq * yr * n3) + (yq * xr * m4) + (yq * yr * n4));
        lemma_mul_is_distributive_add(yp, (xq * xr * m3) + (xq * yr * n3) + (yq * xr * m4), (yq
            * yr * n4));
        lemma_mul_is_distributive_add(yp, (xq * xr * m3) + (xq * yr * n3), (yq * xr * m4));
        lemma_mul_is_distributive_add(yp, (xq * xr * m3), (xq * yr * n3));
        lemma_mul_is_associative(yp, xq * xr, m3);
        lemma_mul_is_associative(yp, xq, xr);
        lemma_mul_is_associative(yp, xq * yr, n3);
        lemma_mul_is_associative(yp, xq, yr);
        lemma_mul_is_associative(yp, yq * xr, m4);
        lemma_mul_is_associative(yp, yq, xr);
        lemma_mul_is_associative(yp, yq * yr, n4);
        lemma_mul_is_associative(yp, yq, yr);
    }
}

/// Products of generators from the first factor.
pub proof fn lemma_regroup_first(p: int, q: int, r: int, s: int, c1: int, c2: int, d1: int, d2: int)
    ensures
        p * (c1 * r + c2 * s) + q * (d1 * r + d2 * s) == c1 * (p * r) + c2 * (p * s) + d1 * (q *
            r) + d2 * (q * s),
{
    assert((c1 * r) == (r * c1)) by {
        lemma_mul_is_commutative(c1, r);
    }
    assert((c2 * s) == (s * c2)) by {
        lemma_mul_is_commutative(c2, s);
    }
    assert((p * ((c1 * r) + (c2 * s))) == (p * r * c1) + (p * s * c2)) by {
        assert(((c1 * r) + (c2 * s)) == (r * c1) + (s * c2));
        lemma_mul_is_distributive_add(p, (r * c1), (s * c2));
        lemma_mul_is_associative(p, r, c1);
        lemma_mul_is_associative(p, s, c2);
    }
    assert((d1 * r) == (r * d1)) by {
        lemma_mul_is_commutative(d1, r);
    }
    assert((d2 * s) == (s * d2)) by {
        lemma_mul_is_commutative(d2, s);
    }
    assert((q * ((d1 * r) + (d2 * s))) == (q * r * d1) + (q * s * d2)) by {
        assert(((d1 * r) + (d2 * s)) == (r * d1) + (s * d2));
        lemma_mul_is_distributive_add(q, (r * d1), (s * d2));
        lemma_mul_is_associative(q, r, d1);
        lemma_mul_is_associative(q, s, d2);
    }
    assert((c1 * (p * r)) == (p * r * c1)) by {
        lemma_mul_is_associative(c1, p, r);
        lemma_mul_is_commutative(c1, p);
        lemma_exchange(p, c1, r);
    }
    assert((c2 * (p * s)) == (p * s * c2)) by {
        lemma_mul_is_associative(c2, p, s);
        lemma_mul_is_commutative(c2, p);
        lemma_exchange(p, c2, s);
    }
    assert((d1 * (q * r)) == (q * r * d1)) by {
        lemma_mul_is_associative(d1, q, r);
        lemma_mul_is_commutative(d1, q);
        lemma_exchange(q, d1, r);
    }
    assert((d2 * (q * s)) == (q * s * d2)) by {
        lemma_mul_is_associative(d2, q, s);
        lemma_mul_is_commutative(d2, q);
        lemma_exchange(q, d2, s);
    }
}

/// Two ways of splitting and merging, joined.
pub proof fn lemma_chain(l1: int, l2: int, l3: int, l4: int, va: int, vb: int, vs: int, vt: int,
    h: int, ha: int, hb: int, z1: int, z2: int, w1: int, w2: int, k1: int, k2: int, t: int, xr: int,
    yr: int, xp: int, yp: int)
    requires
        fp::vanishes(l2 * h - vs * (xr * ha + yr * hb)),
        fp::vanishes(l1 * ha - va * z1),
        fp::vanishes(l1 * hb - va * z2),
        fp::vanishes((xr * z1 + yr * z2) - (xp * w1 + yp * w2)),
        fp::vanishes(vb * w1 - l3 * k1),
        fp::vanishes(vb * w2 - l3 * k2),
        fp::vanishes(vt * (xp * k1 + yp * k2) - l4 * t),
    ensures
        fp::vanishes((vb * vt * (l1 * l2)) * h - (vs * va * (l3 * l4)) * t),
{
    fp::lemma_scale(vb * vt * l1, l2 * h - vs * (xr * ha + yr * hb));
    fp::lemma_scale(vb * vt * vs * xr, l1 * ha - va * z1);
    fp::lemma_scale(vb * vt * vs * yr, l1 * hb - va * z2);
    fp::lemma_scale(vb * vt * vs * va, (xr * z1 + yr * z2) - (xp * w1 + yp * w2));
    fp::lemma_scale(vt * vs * va * xp, vb * w1 - l3 * k1);
    fp::lemma_scale(vt * vs * va * yp, vb * w2 - l3 * k2);
    fp::lemma_scale(vs * va * l3, vt * (xp * k1 + yp * k2) - l4 * t);
    fp::lemma_add((vb * vt * l1) * (l2 * h - vs * (xr * ha + yr * hb)), (vb * vt * vs * xr) *
        (l1 * ha - va * z1));
    fp::lemma_add((vb * vt * l1) * (l2 * h - vs * (xr * ha + yr * hb)) + (vb * vt * vs * xr) *
        (l1 * ha - va * z1), (vb * vt * vs * yr) * (l1 * hb - va * z2));
    fp::lemma_add((vb * vt * l1) * (l2 * h - vs * (xr * ha + yr * hb)) + (vb * vt * vs * xr) *
        (l1 * ha - va * z1) + (vb * vt * vs * yr) * (l1 * hb - va * z2), (vb * vt * vs * va) * ((xr
        * z1 + yr * z2) - (xp * w1 + yp * w2)));
    fp::lemma_add((vb * vt * l1) * (l2 * h - vs * (xr * ha + yr * hb)) + (vb * vt * vs * xr) *
        (l1 * ha - va * z1) + (vb * vt * vs * yr) * (l1 * hb - va * z2) + (vb * vt * vs * va) * ((xr
        * z1 + yr * z2) - (xp * w1 + yp * w2)), (vt * vs * va * xp) * (vb * w1 - l3 * k1));
    fp::lemma_add((vb * vt * l1) * (l2 * h - vs * (xr * ha + yr * hb)) + (vb * vt * vs * xr) *
        (l1 * ha - va * z1) + (vb * vt * vs * yr) * (l1 * hb - va * z2) + (vb * vt * vs * va) * ((xr
        * z1 + yr * z2) - (xp * w1 + yp * w2)) + (vt * vs * va * xp) * (vb * w1 - l3 * k1), (vt * vs
        * va * yp) * (vb * w2 - l3 * k2));
    fp::lemma_add((vb * vt * l1) * (l2 * h - vs * (xr * ha + yr * hb)) + (vb * vt * vs * xr) *
        (l1 * ha - va * z1) + (vb * vt * vs * yr) * (l1 * hb - va * z2) + (vb * vt * vs * va) * ((xr
        * z1 + yr * z2) - (xp * w1 + yp * w2)) + (vt * vs * va * xp) * (vb * w1 - l3 * k1) + (vt *
        vs * va * yp) * (vb * w2 - l3 * k2), (vs * va * l3) * (vt * (xp * k1 + yp * k2) - l4 * t));
    assert((vb * vt * (l1 * l2)) * h - (vs * va * (l3 * l4)) * t == (vb * vt * l1) * (l2 * h -
        vs * (xr * ha + yr * hb)) + (vb * vt * vs * xr) * (l1 * ha - va * z1) + (vb * vt * vs * yr)
        * (l1 * hb - va * z2) + (vb * vt * vs * va) * ((xr * z1 + yr * z2) - (xp * w1 + yp * w2)) +
        (vt * vs * va * xp) * (vb * w1 - l3 * k1) + (vt * vs * va * yp) * (vb * w2 - l3 * k2) + (vs
        * va * l3) * (vt * (xp * k1 + yp * k2) - l4 * t)) by {
        assert(((vb * vt) * (l1 * l2)) == (l1 * l2 * vb * vt)) by {
            lemma_mul_is_associative(vb * vt, l1, l2);
            lemma_exchange(vb, vt, l1);
            lemma_mul_is_commutative(vb, l1);
            lemma_exchange(l1 * vb, vt, l2);
            lemma_exchange(l1, vb, l2);
        }
        assert((((vb * vt) * (l1 * l2)) * h) == (l1 * l2 * vb * vt * h)) by {
            assert(((vb * vt) * (l1 * l2)) == (l1 * l2 * vb * vt));
        }
        assert((vs * va) == (va * vs)) by {
            lemma_mul_is_commutative(vs, va);
        }
        assert(((vs * va) * (l3 * l4)) == (l3 * l4 * va * vs)) by {
            assert((vs * va) == (va * vs));
            lemma_mul_is_associative(va * vs, l3, l4);
            lemma_exchange(va, vs, l3);
            lemma_mul_is_commutative(va, l3);
            lemma_exchange(l3 * va, vs, l4);
            lemma_exchange(l3, va, l4);
        }
        assert((((vs * va) * (l3 * l4)) * t) == (l3 * l4 * va * vs * t)) by {
            assert(((vs * va) * (l3 * l4)) == (l3 * l4 * va * vs));
        }
        assert(((vb * vt) * l1) == (l1 * vb * vt)) by {
            lemma_exchange(vb, vt, l1);
            lemma_mul_is_commutative(vb, l1);
        }
        assert((xr * ha) == (ha * xr)) by {
            lemma_mul_is_commutative(xr, ha);
        }
        assert((yr * hb) == (hb * yr)) by {
            lemma_mul_is_commutative(yr, hb);
        }
        assert((vs * ((xr * ha) + (yr * hb))) == (vs * ha * xr) + (vs * hb * yr)) by {
            assert(((xr * ha) + (yr * hb)) == (ha * xr) + (hb * yr));
            lemma_mul_is_distributive_add(vs, (ha * xr), (hb * yr));
            lemma_mul_is_associative(vs, ha, xr);
            lemma_mul_is_associative(vs, hb, yr);
        }
        assert((((vb * vt) * l1) * ((l2 * h) - (vs * ((xr * ha) + (yr * hb))))) == (l1 * l2 * vb
            * vt * h) - (l1 * vb * vs * vt * ha * xr) - (l1 * vb * vs * vt * hb * yr)) by {
            assert(((vb * vt) * l1) == (l1 * vb * vt));
            assert(((l2 * h) - (vs * ((xr * ha) + (yr * hb)))) == (l2 * h) - (vs * ha * xr) -
                (vs * hb * yr));
            lemma_mul_is_distributive_sub((l1 * vb * vt), (l2 * h) - (vs * ha * xr), (vs * hb *
                yr));
            lemma_mul_is_distributive_sub((l1 * vb * vt), (l2 * h), (vs * ha * xr));
            lemma_mul_is_associative(l1 * vb * vt, l2, h);
            lemma_exchange(l1 * vb, vt, l2);
            lemma_exchange(l1, vb, l2);
            lemma_mul_is_associative(l1 * vb * vt, vs * ha, xr);
            lemma_mul_is_associative(l1 * vb * vt, vs, ha);
            lemma_exchange(l1 * vb, vt, vs);
            lemma_mul_is_associative(l1 * vb * vt, vs * hb, yr);
            lemma_mul_is_associative(l1 * vb * vt, vs, hb);
        }
        assert(((vb * vt) * vs) == (vb * vs * vt)) by {
            lemma_exchange(vb, vt, vs);
        }
        assert((((vb * vt) * vs) * xr) == (vb * vs * vt * xr)) by {
            assert(((vb * vt) * vs) == (vb * vs * vt));
        }
        assert(((((vb * vt) * vs) * xr) * ((l1 * ha) - (va * z1))) == (l1 * vb * vs * vt * ha *
            xr) - (va * vb * vs * vt * z1 * xr)) by {
            assert((((vb * vt) * vs) * xr) == (vb * vs * vt * xr));
            assert(((l1 * ha) - (va * z1)) == (l1 * ha) - (va * z1));
            lemma_mul_is_distributive_sub((vb * vs * vt * xr), (l1 * ha), (va * z1));
            lemma_mul_is_associative(vb * vs * vt * xr, l1, ha);
            lemma_exchange(vb * vs * vt, xr, l1);
            lemma_exchange(vb * vs, vt, l1);
            lemma_exchange(vb, vs, l1);
            lemma_mul_is_commutative(vb, l1);
            lemma_exchange(l1 * vb * vs * vt, xr, ha);
            lemma_mul_is_associative(vb * vs * vt * xr, va, z1);
            lemma_exchange(vb * vs * vt, xr, va);
            lemma_exchange(vb * vs, vt, va);
            lemma_exchange(vb, vs, va);
            lemma_mul_is_commutative(vb, va);
            lemma_exchange(va * vb * vs * vt, xr, z1);
        }
        assert((((vb * vt) * vs) * yr) == (vb * vs * vt * yr)) by {
            assert(((vb * vt) * vs) == (vb * vs * vt));
        }
        assert(((((vb * vt) * vs) * yr) * ((l1 * hb) - (va * z2))) == (l1 * vb * vs * vt * hb *
            yr) - (va * vb * vs * vt * z2 * yr)) by {
            assert((((vb * vt) * vs) * yr) == (vb * vs * vt * yr));
            assert(((l1 * hb) - (va * z2)) == (l1 * hb) - (va * z2));
            lemma_mul_is_distributive_sub((vb * vs * vt * yr), (l1 * hb), (va * z2));
            lemma_mul_is_associative(vb * vs * vt * yr, l1, hb);
            lemma_exchange(vb * vs * vt, yr, l1);
            lemma_exchange(vb * vs, vt, l1);
            lemma_exchange(vb, vs, l1);
            lemma_mul_is_commutative(vb, l1);
            lemma_exchange(l1 * vb * vs * vt, yr, hb);
            lemma_mul_is_associative(vb * vs * vt * yr, va, z2);
            lemma_exchange(vb * vs * vt, yr, va);
            lemma_exchange(vb * vs, vt, va);
            lemma_exchange(vb, vs, va);
            lemma_mul_is_commutative(vb, va);
            lemma_exchange(va * vb * vs * vt, yr, z2);
        }
        assert((((vb * vt) * vs) * va) == (va * vb * vs * vt)) by {
            assert(((vb * vt) * vs) == (vb * vs * vt));
            lemma_exchange(vb * vs, vt, va);
            lemma_exchange(vb, vs, va);
            lemma_mul_is_commutative(vb, va);
        }
        assert((xr * z1) == (z1 * xr)) by {
            lemma_mul_is_commutative(xr, z1);
        }
        assert((yr * z2) == (z2 * yr)) by {
            lemma_mul_is_commutative(yr, z2);
        }
        assert((xp * w1) == (w1 * xp)) by {
            lemma_mul_is_commutative(xp, w1);
        }
        assert((yp * w2) == (w2 * yp)) by {
            lemma_mul_is_commutative(yp, w2);
        }
        assert(((((vb * vt) * vs) * va) * (((xr * z1) + (yr * z2)) - ((xp * w1) + (yp * w2))))
            == (va * vb * vs * vt * z1 * xr) + (va * vb * vs * vt * z2 * yr) - (va * vb * vs * vt *
            w1 * xp) - (va * vb * vs * vt * w2 * yp)) by {
            assert((((vb * vt) * vs) * va) == (va * vb * vs * vt));
            assert((((xr * z1) + (yr * z2)) - ((xp * w1) + (yp * w2))) == (z1 * xr) + (z2 * yr)
                - (w1 * xp) - (w2 * yp));
            lemma_mul_is_distributive_sub((va * vb * vs * vt), (z1 * xr) + (z2 * yr) - (w1 *
                xp), (w2 * yp));
            lemma_mul_is_distributive_sub((va * vb * vs * vt), (z1 * xr) + (z2 * yr), (w1 * xp));
            lemma_mul_is_distributive_add((va * vb * vs * vt), (z1 * xr), (z2 * yr));
            lemma_mul_is_associative(va * vb * vs * vt, z1, xr);
            lemma_mul_is_associative(va * vb * vs * vt, z2, yr);
            lemma_mul_is_associative(va * vb * vs * vt, w1, xp);
            lemma_mul_is_associative(va * vb * vs * vt, w2, yp);
        }
        assert((vt * vs) == (vs * vt)) by {
            lemma_mul_is_commutative(vt, vs);
        }
        assert(((vt * vs) * va) == (va * vs * vt)) by {
            assert((vt * vs) == (vs * vt));
            lemma_exchange(vs, vt, va);
            lemma_mul_is_commutative(vs, va);
        }
        assert((((vt * vs) * va) * xp) == (va * vs * vt * xp)) by {
            assert(((vt * vs) * va) == (va * vs * vt));
        }
        assert(((((vt * vs) * va) * xp) * ((vb * w1) - (l3 * k1))) == 0 - (l3 * va * vs * vt *
            k1 * xp) + (va * vb * vs * vt * w1 * xp)) by {
            assert((((vt * vs) * va) * xp) == (va * vs * vt * xp));
            assert(((vb * w1) - (l3 * k1)) == 0 - (l3 * k1) + (vb * w1));
            lemma_mul_is_distributive_add((va * vs * vt * xp), 0 - (l3 * k1), (vb * w1));
            lemma_mul_is_distributive_sub((va * vs * vt * xp), 0, (l3 * k1));
            lemma_mul_is_associative(va * vs * vt * xp, l3, k1);
            lemma_exchange(va * vs * vt, xp, l3);
            lemma_exchange(va * vs, vt, l3);
            lemma_exchange(va, vs, l3);
            lemma_mul_is_commutative(va, l3);
            lemma_exchange(l3 * va * vs * vt, xp, k1);
            lemma_mul_is_associative(va * vs * vt * xp, vb, w1);
            lemma_exchange(va * vs * vt, xp, vb);
            lemma_exchange(va * vs, vt, vb);
            lemma_exchange(va, vs, vb);
            lemma_exchange(va * vb * vs * vt, xp, w1);
        }
        assert((((vt * vs) * va) * yp) == (va * vs * vt * yp)) by {
            assert(((vt * vs) * va) == (va * vs * vt));
        }
        assert(((((vt * vs) * va) * yp) * ((vb * w2) - (l3 * k2))) == 0 - (l3 * va * vs * vt *
            k2 * yp) + (va * vb * vs * vt * w2 * yp)) by {
            assert((((vt * vs) * va) * yp) == (va * vs * vt * yp));
            assert(((vb * w2) - (l3 * k2)) == 0 - (l3 * k2) + (vb * w2));
            lemma_mul_is_distributive_add((va * vs * vt * yp), 0 - (l3 * k2), (vb * w2));
            lemma_mul_is_distributive_sub((va * vs * vt * yp), 0, (l3 * k2));
            lemma_mul_is_associative(va * vs * vt * yp, l3, k2);
            lemma_exchange(va * vs * vt, yp, l3);
            lemma_exchange(va * vs, vt, l3);
            lemma_exchange(va, vs, l3);
            lemma_mul_is_commutative(va, l3);
            lemma_exchange(l3 * va * vs * vt, yp, k2);
            lemma_mul_is_associative(va * vs * vt * yp, vb, w2);
            lemma_exchange(va * vs * vt, yp, vb);
            lemma_exchange(va * vs, vt, vb);
            lemma_exchange(va, vs, vb);
            lemma_exchange(va * vb * vs * vt, yp, w2);
        }
        assert(((vs * va) * l3) == (l3 * va * vs)) by {
            assert((vs * va) == (va * vs));
            lemma_exchange(va, vs, l3);
            lemma_mul_is_commutative(va, l3);
        }
        assert((xp * k1) == (k1 * xp)) by {
            lemma_mul_is_commutative(xp, k1);
        }
        assert((yp * k2) == (k2 * yp)) by {
            lemma_mul_is_commutative(yp, k2);
        }
        assert((vt * ((xp * k1) + (yp * k2))) == (vt * k1 * xp) + (vt * k2 * yp)) by {
            assert(((xp * k1) + (yp * k2)) == (k1 * xp) + (k2 * yp));
            lemma_mul_is_distributive_add(vt, (k1 * xp), (k2 * yp));
            lemma_mul_is_associative(vt, k1, xp);
            lemma_mul_is_associative(vt, k2, yp);
        }
        assert((((vs * va) * l3) * ((vt * ((xp * k1) + (yp * k2))) - (l4 * t))) == 0 - (l3 * l4
            * va * vs * t) + (l3 * va * vs * vt * k1 * xp) + (l3 * va * vs * vt * k2 * yp)) by {
            assert(((vs * va) * l3) == (l3 * va * vs));
            assert(((vt * ((xp * k1) + (yp * k2))) - (l4 * t)) == 0 - (l4 * t) + (vt * k1 * xp)
                + (vt * k2 * yp));
            lemma_mul_is_distributive_add((l3 * va * vs), 0 - (l4 * t) + (vt * k1 * xp), (vt *
                k2 * yp));
            lemma_mul_is_distributive_add((l3 * va * vs), 0 - (l4 * t), (vt * k1 * xp));
            lemma_mul_is_distributive_sub((l3 * va * vs), 0, (l4 * t));
            lemma_mul_is_associative(l3 * va * vs, l4, t);
            lemma_exchange(l3 * va, vs, l4);
            lemma_exchange(l3, va, l4);
            lemma_mul_is_associative(l3 * va * vs, vt * k1, xp);
            lemma_mul_is_associative(l3 * va * vs, vt, k1);
            lemma_mul_is_associative(l3 * va * vs, vt * k2, yp);
            lemma_mul_is_associative(l3 * va * vs, vt, k2);
        }
    }
}

/// A line times its conjugate, in terms of the reflected third point.
pub proof fn lemma_line_product(z: int, t: int, x1: int, y1: int, x2: int, x3: int, y3: int, l:
    int, c: int)
    requires
        fp::vanishes(t * t - (z * z * z - 3 * z + c)),
        fp::vanishes(y3 - (l * (x1 - x3) - y1)),
        fp::vanishes((z * z * z - 3 * z + c) - (y1 + l * (z - x1)) * (y1 + l * (z - x1)) - (z -
            x1) * (z - x2) * (z - x3)),
    ensures
        fp::vanishes((t - y1 - l * (z - x1)) * ((t - y3) + l * (z - x3)) - (z - x1) * (z - x2) *
            (z - x3)),
{
    fp::lemma_scale((t - y1 - l * (z - x1)), y3 - (l * (x1 - x3) - y1));
    fp::lemma_add((t * t - (z * z * z - 3 * z + c)), (t - y1 - l * (z - x1)) * (y3 - (l * (x1 -
        x3) - y1)));
    fp::lemma_add((t * t - (z * z * z - 3 * z + c)) - (t - y1 - l * (z - x1)) * (y3 - (l * (x1 -
        x3) - y1)), ((z * z * z - 3 * z + c) - (y1 + l * (z - x1)) * (y1 + l * (z - x1)) - (z - x1)
        * (z - x2) * (z - x3)));
    assert((t - y1 - l * (z - x1)) * ((t - y3) + l * (z - x3)) - (z - x1) * (z - x2) * (z - x3)
        == (t * t - (z * z * z - 3 * z + c)) - (t - y1 - l * (z - x1)) * (y3 - (l * (x1 - x3) - y1))
        + ((z * z * z - 3 * z + c) - (y1 + l * (z - x1)) * (y1 + l * (z - x1)) - (z - x1) * (z - x2)
        * (z - x3))) by {
        assert((l * (z - x1)) == (z * l) - (x1 * l)) by {
            lemma_mul_is_distributive_sub(l, z, x1);
            lemma_mul_is_commutative(l, z);
            lemma_mul_is_commutative(l, x1);
        }
        assert((l * (z - x3)) == (z * l) - (x3 * l)) by {
            lemma_mul_is_distributive_sub(l, z, x3);
            lemma_mul_is_commutative(l, z);
            lemma_mul_is_commutative(l, x3);
        }
        assert((((t - y1) - (l * (z - x1))) * ((t - y3) + (l * (z - x3)))) == (t * t) - (t * y1)
            - (t * y3) + (y1 * y3) - (z * y1 * l) + (z * y3 * l) + (t * x1 * l) - (t * x3 * l) - (x1
            * y3 * l) + (y1 * x3 * l) - (z * z * l * l) + (z * x1 * l * l) + (z * x3 * l * l) - (x1
            * x3 * l * l)) by {
            assert(((t - y1) - (l * (z - x1))) == t - y1 - (z * l) + (x1 * l));
            assert(((t - y3) + (l * (z - x3))) == t - y3 + (z * l) - (x3 * l));
            lemma_mul_is_distributive_add_other_way(t - y3 + (z * l) - (x3 * l), t - y1 - (z *
                l), (x1 * l));
            lemma_mul_is_distributive_sub_other_way(t - y3 + (z * l) - (x3 * l), t - y1, (z * l));
            lemma_mul_is_distributive_sub_other_way(t - y3 + (z * l) - (x3 * l), t, y1);
            lemma_mul_is_distributive_sub(t, t - y3 + (z * l), (x3 * l));
            lemma_mul_is_distributive_add(t, t - y3, (z * l));
            lemma_mul_is_distributive_sub(t, t, y3);
            lemma_mul_is_distributive_sub(y1, t - y3 + (z * l), (x3 * l));
            lemma_mul_is_distributive_add(y1, t - y3, (z * l));
            lemma_mul_is_distributive_sub(y1, t, y3);
            lemma_mul_is_distributive_sub((z * l), t - y3 + (z * l), (x3 * l));
            lemma_mul_is_distributive_add((z * l), t - y3, (z * l));
            lemma_mul_is_distributive_sub((z * l), t, y3);
            lemma_mul_is_distributive_sub((x1 * l), t - y3 + (z * l), (x3 * l));
            lemma_mul_is_distributive_add((x1 * l), t - y3, (z * l));
            lemma_mul_is_distributive_sub((x1 * l), t, y3);
            lemma_mul_is_associative(t, z, l);
            lemma_mul_is_commutative(t, z);
            lemma_mul_is_associative(t, x3, l);
            lemma_mul_is_commutative(y1, t);
            lemma_mul_is_associative(y1, z, l);
            lemma_mul_is_commutative(y1, z);
            lemma_mul_is_associative(y1, x3, l);
            lemma_exchange(z, l, t);
            lemma_exchange(z, l, y3);
            lemma_mul_is_associative(z * l, z, l);
            lemma_exchange(z, l, z);
            lemma_mul_is_associative(z * l, x3, l);
            lemma_exchange(z, l, x3);
            lemma_exchange(x1, l, t);
            lemma_mul_is_commutative(x1, t);
            lemma_exchange(x1, l, y3);
            lemma_mul_is_associative(x1 * l, z, l);
            lemma_exchange(x1, l, z);
            lemma_mul_is_commutative(x1, z);
            lemma_mul_is_associative(x1 * l, x3, l);
            lemma_exchange(x1, l, x3);
        }
        assert(((z - x1) * (z - x2)) == (z * z) - (z * x1) - (z * x2) + (x1 * x2)) by {
            lemma_mul_is_distributive_sub_other_way(z - x2, z, x1);
            lemma_mul_is_distributive_sub(z, z, x2);
            lemma_mul_is_distributive_sub(x1, z, x2);
            lemma_mul_is_commutative(x1, z);
        }
        assert((((z - x1) * (z - x2)) * (z - x3)) == (z * z * z) - (z * z * x1) - (z * z * x2) -
            (z * z * x3) + (z * x1 * x2) + (z * x1 * x3) + (z * x2 * x3) - (x1 * x2 * x3)) by {
            assert(((z - x1) * (z - x2)) == (z * z) - (z * x1) - (z * x2) + (x1 * x2));
            lemma_mul_is_distributive_add_other_way(z - x3, (z * z) - (z * x1) - (z * x2), (x1 *
                x2));
            lemma_mul_is_distributive_sub_other_way(z - x3, (z * z) - (z * x1), (z * x2));
            lemma_mul_is_distributive_sub_other_way(z - x3, (z * z), (z * x1));
            lemma_mul_is_distributive_sub((z * z), z, x3);
            lemma_mul_is_distributive_sub((z * x1), z, x3);
            lemma_mul_is_distributive_sub((z * x2), z, x3);
            lemma_mul_is_distributive_sub((x1 * x2), z, x3);
            lemma_exchange(z, x1, z);
            lemma_exchange(z, x2, z);
            lemma_exchange(x1, x2, z);
            lemma_mul_is_commutative(x1, z);
        }
        assert((l * (x1 - x3)) == (x1 * l) - (x3 * l)) by {
            lemma_mul_is_distributive_sub(l, x1, x3);
            lemma_mul_is_commutative(l, x1);
            lemma_mul_is_commutative(l, x3);
        }
        assert((((t - y1) - (l * (z - x1))) * (y3 - ((l * (x1 - x3)) - y1))) == (t * y1) + (t *
            y3) - (y1 * y1) - (y1 * y3) - (z * y1 * l) - (z * y3 * l) - (t * x1 * l) + (t * x3 * l)
            + (2 * (x1 * y1 * l)) + (x1 * y3 * l) - (y1 * x3 * l) + (z * x1 * l * l) - (z * x3 * l *
            l) - (x1 * x1 * l * l) + (x1 * x3 * l * l)) by {
            assert(((t - y1) - (l * (z - x1))) == t - y1 - (z * l) + (x1 * l));
            assert((y3 - ((l * (x1 - x3)) - y1)) == y1 + y3 - (x1 * l) + (x3 * l));
            lemma_mul_is_distributive_add_other_way(y1 + y3 - (x1 * l) + (x3 * l), t - y1 - (z *
                l), (x1 * l));
            lemma_mul_is_distributive_sub_other_way(y1 + y3 - (x1 * l) + (x3 * l), t - y1, (z * l));
            lemma_mul_is_distributive_sub_other_way(y1 + y3 - (x1 * l) + (x3 * l), t, y1);
            lemma_mul_is_distributive_add(t, y1 + y3 - (x1 * l), (x3 * l));
            lemma_mul_is_distributive_sub(t, y1 + y3, (x1 * l));
            lemma_mul_is_distributive_add(t, y1, y3);
            lemma_mul_is_distributive_add(y1, y1 + y3 - (x1 * l), (x3 * l));
            lemma_mul_is_distributive_sub(y1, y1 + y3, (x1 * l));
            lemma_mul_is_distributive_add(y1, y1, y3);
            lemma_mul_is_distributive_add((z * l), y1 + y3 - (x1 * l), (x3 * l));
            lemma_mul_is_distributive_sub((z * l), y1 + y3, (x1 * l));
            lemma_mul_is_distributive_add((z * l), y1, y3);
            lemma_mul_is_distributive_add((x1 * l), y1 + y3 - (x1 * l), (x3 * l));
            lemma_mul_is_distributive_sub((x1 * l), y1 + y3, (x1 * l));
            lemma_mul_is_distributive_add((x1 * l), y1, y3);
            lemma_mul_is_associative(t, x1, l);
            lemma_mul_is_associative(t, x3, l);
            lemma_mul_is_associative(y1, x1, l);
            lemma_mul_is_commutative(y1, x1);
            lemma_mul_is_associative(y1, x3, l);
            lemma_exchange(z, l, y1);
            lemma_exchange(z, l, y3);
            lemma_mul_is_associative(z * l, x1, l);
            lemma_exchange(z, l, x1);
            lemma_mul_is_associative(z * l, x3, l);
            lemma_exchange(z, l, x3);
            lemma_exchange(x1, l, y1);
            lemma_exchange(x1, l, y3);
            lemma_mul_is_associative(x1 * l, x1, l);
            lemma_exchange(x1, l, x1);
            lemma_mul_is_associative(x1 * l, x3, l);
            lemma_exchange(x1, l, x3);
        }
        assert(((y1 + (l * (z - x1))) * (y1 + (l * (z - x1)))) == (y1 * y1) + (2 * (z * y1 * l))
            - (2 * (x1 * y1 * l)) + (z * z * l * l) - (2 * (z * x1 * l * l)) + (x1 * x1 * l * l)) by
            {
            assert((y1 + (l * (z - x1))) == y1 + (z * l) - (x1 * l));
            lemma_mul_is_distributive_sub_other_way(y1 + (z * l) - (x1 * l), y1 + (z * l), (x1 *
                l));
            lemma_mul_is_distributive_add_other_way(y1 + (z * l) - (x1 * l), y1, (z * l));
            lemma_mul_is_distributive_sub(y1, y1 + (z * l), (x1 * l));
            lemma_mul_is_distributive_add(y1, y1, (z * l));
            lemma_mul_is_distributive_sub((z * l), y1 + (z * l), (x1 * l));
            lemma_mul_is_distributive_add((z * l), y1, (z * l));
            lemma_mul_is_distributive_sub((x1 * l), y1 + (z * l), (x1 * l));
            lemma_mul_is_distributive_add((x1 * l), y1, (z * l));
            lemma_mul_is_associative(y1, z, l);
            lemma_mul_is_commutative(y1, z);
            lemma_mul_is_associative(y1, x1, l);
            lemma_mul_is_commutative(y1, x1);
            lemma_exchange(z, l, y1);
            lemma_mul_is_associative(z * l, z, l);
            lemma_exchange(z, l, z);
            lemma_mul_is_associative(z * l, x1, l);
            lemma_exchange(z, l, x1);
            lemma_exchange(x1, l, y1);
            lemma_mul_is_associative(x1 * l, z, l);
            lemma_exchange(x1, l, z);
            lemma_mul_is_commutative(x1, z);
            lemma_mul_is_associative(x1 * l, x1, l);
            lemma_exchange(x1, l, x1);
        }
    }
}

/// A line times its conjugate.
pub proof fn lemma_line_norm(z: int, t: int, x1: int, y1: int, x2: int, x3: int, l: int, c: int)
    requires
        fp::vanishes(t * t - (z * z * z - 3 * z + c)),
        fp::vanishes((z * z * z - 3 * z + c) - (y1 + l * (z - x1)) * (y1 + l * (z - x1)) - (z -
            x1) * (z - x2) * (z - x3)),
    ensures
        fp::vanishes((t - y1 - l * (z - x1)) * (0 - t - y1 - l * (z - x1)) + (z - x1) * (z - x2)
            * (z - x3)),
{
    fp::lemma_zero();
    fp::lemma_add(0, (t * t - (z * z * z - 3 * z + c)));
    fp::lemma_add(0 - (t * t - (z * z * z - 3 * z + c)), ((z * z * z - 3 * z + c) - (y1 + l * (z
        - x1)) * (y1 + l * (z - x1)) - (z - x1) * (z - x2) * (z - x3)));
    assert((t - y1 - l * (z - x1)) * (0 - t - y1 - l * (z - x1)) + (z - x1) * (z - x2) * (z -
        x3) == 0 - (t * t - (z * z * z - 3 * z + c)) - ((z * z * z - 3 * z + c) - (y1 + l * (z -
        x1)) * (y1 + l * (z - x1)) - (z - x1) * (z - x2) * (z - x3))) by {
        assert((l * (z - x1)) == (z * l) - (x1 * l)) by {
            lemma_mul_is_distributive_sub(l, z, x1);
            lemma_mul_is_commutative(l, z);
            lemma_mul_is_commutative(l, x1);
        }
        assert((((t - y1) - (l * (z - x1))) * (((0 - t) - y1) - (l * (z - x1)))) == 0 - (t * t)
            + (y1 * y1) + (2 * (z * y1 * l)) - (2 * (x1 * y1 * l)) + (z * z * l * l) - (2 * (z * x1
            * l * l)) + (x1 * x1 * l * l)) by {
            assert(((t - y1) - (l * (z - x1))) == t - y1 - (z * l) + (x1 * l));
            assert((((0 - t) - y1) - (l * (z - x1))) == 0 - t - y1 - (z * l) + (x1 * l));
            lemma_mul_is_distributive_add_other_way(0 - t - y1 - (z * l) + (x1 * l), t - y1 - (z
                * l), (x1 * l));
            lemma_mul_is_distributive_sub_other_way(0 - t - y1 - (z * l) + (x1 * l), t - y1, (z
                * l));
            lemma_mul_is_distributive_sub_other_way(0 - t - y1 - (z * l) + (x1 * l), t, y1);
            lemma_mul_is_distributive_add(t, 0 - t - y1 - (z * l), (x1 * l));
            lemma_mul_is_distributive_sub(t, 0 - t - y1, (z * l));
            lemma_mul_is_distributive_sub(t, 0 - t, y1);
            lemma_mul_is_distributive_sub(t, 0, t);
            lemma_mul_is_distributive_add(y1, 0 - t - y1 - (z * l), (x1 * l));
            lemma_mul_is_distributive_sub(y1, 0 - t - y1, (z * l));
            lemma_mul_is_distributive_sub(y1, 0 - t, y1);
            lemma_mul_is_distributive_sub(y1, 0, t);
            lemma_mul_is_distributive_add((z * l), 0 - t - y1 - (z * l), (x1 * l));
            lemma_mul_is_distributive_sub((z * l), 0 - t - y1, (z * l));
            lemma_mul_is_distributive_sub((z * l), 0 - t, y1);
            lemma_mul_is_distributive_sub((z * l), 0, t);
            lemma_mul_is_distributive_add((x1 * l), 0 - t - y1 - (z * l), (x1 * l));
            lemma_mul_is_distributive_sub((x1 * l), 0 - t - y1, (z * l));
            lemma_mul_is_distributive_sub((x1 * l), 0 - t, y1);
            lemma_mul_is_distributive_sub((x1 * l), 0, t);
            lemma_mul_is_associative(t, z, l);
            lemma_mul_is_commutative(t, z);
            lemma_mul_is_associative(t, x1, l);
            lemma_mul_is_commutative(y1, t);
            lemma_mul_is_associative(y1, z, l);
            lemma_mul_is_commutative(y1, z);
            lemma_mul_is_associative(y1, x1, l);
            lemma_mul_is_commutative(y1, x1);
            lemma_exchange(z, l, t);
            lemma_exchange(z, l, y1);
            lemma_mul_is_associative(z * l, z, l);
            lemma_exchange(z, l, z);
            lemma_mul_is_associative(z * l, x1, l);
            lemma_exchange(z, l, x1);
            lemma_exchange(x1, l, t);
            lemma_mul_is_commutative(x1, t);
            lemma_exchange(x1, l, y1);
            lemma_mul_is_associative(x1 * l, z, l);
            lemma_exchange(x1, l, z);
            lemma_mul_is_commutative(x1, z);
            lemma_mul_is_associative(x1 * l, x1, l);
            lemma_exchange(x1, l, x1);
        }
        assert(((z - x1) * (z - x2)) == (z * z) - (z * x1) - (z * x2) + (x1 * x2)) by {
            lemma_mul_is_distributive_sub_other_way(z - x2, z, x1);
            lemma_mul_is_distributive_sub(z, z, x2);
            lemma_mul_is_distributive_sub(x1, z, x2);
            lemma_mul_is_commutative(x1, z);
        }
        assert((((z - x1) * (z - x2)) * (z - x3)) == (z * z * z) - (z * z * x1) - (z * z * x2) -
            (z * z * x3) + (z * x1 * x2) + (z * x1 * x3) + (z * x2 * x3) - (x1 * x2 * x3)) by {
            assert(((z - x1) * (z - x2)) == (z * z) - (z * x1) - (z * x2) + (x1 * x2));
            lemma_mul_is_distributive_add_other_way(z - x3, (z * z) - (z * x1) - (z * x2), (x1 *
                x2));
            lemma_mul_is_distributive_sub_other_way(z - x3, (z * z) - (z * x1), (z * x2));
            lemma_mul_is_distributive_sub_other_way(z - x3, (z * z), (z * x1));
            lemma_mul_is_distributive_sub((z * z), z, x3);
            lemma_mul_is_distributive_sub((z * x1), z, x3);
            lemma_mul_is_distributive_sub((z * x2), z, x3);
            lemma_mul_is_distributive_sub((x1 * x2), z, x3);
            lemma_exchange(z, x1, z);
            lemma_exchange(z, x2, z);
            lemma_exchange(x1, x2, z);
            lemma_mul_is_commutative(x1, z);
        }
        assert(((y1 + (l * (z - x1))) * (y1 + (l * (z - x1)))) == (y1 * y1) + (2 * (z * y1 * l))
            - (2 * (x1 * y1 * l)) + (z * z * l * l) - (2 * (z * x1 * l * l)) + (x1 * x1 * l * l)) by
            {
            assert((y1 + (l * (z - x1))) == y1 + (z * l) - (x1 * l));
            lemma_mul_is_distributive_sub_other_way(y1 + (z * l) - (x1 * l), y1 + (z * l), (x1 *
                l));
            lemma_mul_is_distributive_add_other_way(y1 + (z * l) - (x1 * l), y1, (z * l));
            lemma_mul_is_distributive_sub(y1, y1 + (z * l), (x1 * l));
            lemma_mul_is_distributive_add(y1, y1, (z * l));
            lemma_mul_is_distributive_sub((z * l), y1 + (z * l), (x1 * l));
            lemma_mul_is_distributive_add((z * l), y1, (z * l));
            lemma_mul_is_distributive_sub((x1 * l), y1 + (z * l), (x1 * l));
            lemma_mul_is_distributive_add((x1 * l), y1, (z * l));
            lemma_mul_is_associative(y1, z, l);
            lemma_mul_is_commutative(y1, z);
            lemma_mul_is_associative(y1, x1, l);
            lemma_mul_is_commutative(y1, x1);
            lemma_exchange(z, l, y1);
            lemma_mul_is_associative(z * l, z, l);
            lemma_exchange(z, l, z);
            lemma_mul_is_associative(z * l, x1, l);
            lemma_exchange(z, l, x1);
            lemma_exchange(x1, l, y1);
            lemma_mul_is_associative(x1 * l, z, l);
            lemma_exchange(x1, l, z);
            lemma_mul_is_commutative(x1, z);
            lemma_mul_is_associative(x1 * l, x1, l);
            lemma_exchange(x1, l, x1);
        }
    }
}

/// The second ordinate along a line.
pub proof fn lemma_line_second_ordinate(z: int, t: int, x1: int, y1: int, x2: int, y2: int, l: int)
    requires
        fp::vanishes((y2 - y1) - l * (x2 - x1)),
    ensures
        fp::vanishes((t - y2) - ((t - y1 - l * (z - x1)) + l * (z - x2))),
{
    fp::lemma_zero();
    fp::lemma_add(0, ((y2 - y1) - l * (x2 - x1)));
    assert((t - y2) - ((t - y1 - l * (z - x1)) + l * (z - x2)) == 0 - ((y2 - y1) - l * (x2 -
        x1))) by {
        assert((l * (z - x1)) == (z * l) - (x1 * l)) by {
            lemma_mul_is_distributive_sub(l, z, x1);
            lemma_mul_is_commutative(l, z);
            lemma_mul_is_commutative(l, x1);
        }
        assert((l * (z - x2)) == (z * l) - (x2 * l)) by {
            lemma_mul_is_distributive_sub(l, z, x2);
            lemma_mul_is_commutative(l, z);
            lemma_mul_is_commutative(l, x2);
        }
        assert((l * (x2 - x1)) == 0 - (x1 * l) + (x2 * l)) by {
            assert((x2 - x1) == 0 - x1 + x2);
            lemma_mul_is_distributive_add(l, 0 - x1, x2);
            lemma_mul_is_distributive_sub(l, 0, x1);
            lemma_mul_is_commutative(l, x1);
            lemma_mul_is_commutative(l, x2);
        }
    }
}

/// The weight of the product of the ordinates along a line.
pub proof fn lemma_line_weight(z: int, t: int, x1: int, y1: int, x2: int, l: int)
    ensures
        (0 - y1 - l * x2 + l * l * l) + l * z + t == (t - y1 - l * (z - x1)) + l * (z - x1) + l
            * (z - x2) + l * l * l,
{
    assert((l * x2) == (x2 * l)) by {
        lemma_mul_is_commutative(l, x2);
    }
    assert((l * z) == (z * l)) by {
        lemma_mul_is_commutative(l, z);
    }
    assert((l * (z - x1)) == (z * l) - (x1 * l)) by {
        lemma_mul_is_distributive_sub(l, z, x1);
        lemma_mul_is_commutative(l, z);
        lemma_mul_is_commutative(l, x1);
    }
    assert((l * (z - x2)) == (z * l) - (x2 * l)) by {
        lemma_mul_is_distributive_sub(l, z, x2);
        lemma_mul_is_commutative(l, z);
        lemma_mul_is_commutative(l, x2);
    }
}

/// The norms of the two sides of a chain.
pub proof fn lemma_norms(vp: int, vq: int, vr: int, va: int, vb: int, vs: int, vt: int, f1: int,
    f2: int, f3: int, f4: int, g1: int, g2: int, g3: int, g4: int, t: int, u: int, s1: int, s2: int,
    s3: int, s4: int)
    requires
        fp::vanishes((vb * vt * (f1 * f2)) * vs * ((vb * vt * (g1 * g2)) * vs) - (vs * va * (f3
            * f4)) * t * ((vs * va * (g3 * g4)) * u)),
        fp::vanishes(f1 * g1 - s1 * (vp * vq * va)),
        fp::vanishes(f2 * g2 - s2 * (va * vr * vs)),
        fp::vanishes(f3 * g3 - s3 * (vq * vr * vb)),
        fp::vanishes(f4 * g4 - s4 * (vp * vb * vt)),
    ensures
        fp::vanishes((va * va * vb * vb * vp * vq * vr * vs * vs * vt) * (s1 * s2 * (vs * vt) -
            s3 * s4 * (t * u))),
{
    fp::lemma_scale((vb * vt * vs * vb * vt * vs * f2 * g2), f1 * g1 - s1 * (vp * vq * va));
    fp::lemma_scale((vb * vt * vs * vb * vt * vs * s1 * vp * vq * va), f2 * g2 - s2 * (va * vr *
        vs));
    fp::lemma_scale(vs * va * vs * va * f4 * g4 * t * u, f3 * g3 - s3 * (vq * vr * vb));
    fp::lemma_scale(vs * va * vs * va * s3 * vq * vr * vb * t * u, f4 * g4 - s4 * (vp * vb * vt));
    fp::lemma_add(((vb * vt * (f1 * f2)) * vs * ((vb * vt * (g1 * g2)) * vs) - (vs * va * (f3 *
        f4)) * t * ((vs * va * (g3 * g4)) * u)), (vb * vt * vs * vb * vt * vs * f2 * g2) * (f1 * g1
        - s1 * (vp * vq * va)));
    fp::lemma_add(((vb * vt * (f1 * f2)) * vs * ((vb * vt * (g1 * g2)) * vs) - (vs * va * (f3 *
        f4)) * t * ((vs * va * (g3 * g4)) * u)) - (vb * vt * vs * vb * vt * vs * f2 * g2) * (f1 * g1
        - s1 * (vp * vq * va)), (vb * vt * vs * vb * vt * vs * s1 * vp * vq * va) * (f2 * g2 - s2 *
        (va * vr * vs)));
    fp::lemma_add(((vb * vt * (f1 * f2)) * vs * ((vb * vt * (g1 * g2)) * vs) - (vs * va * (f3 *
        f4)) * t * ((vs * va * (g3 * g4)) * u)) - (vb * vt * vs * vb * vt * vs * f2 * g2) * (f1 * g1
        - s1 * (vp * vq * va)) - (vb * vt * vs * vb * vt * vs * s1 * vp * vq * va) * (f2 * g2 - s2 *
        (va * vr * vs)), (vs * va * vs * va * f4 * g4 * t * u) * (f3 * g3 - s3 * (vq * vr * vb)));
    fp::lemma_add(((vb * vt * (f1 * f2)) * vs * ((vb * vt * (g1 * g2)) * vs) - (vs * va * (f3 *
        f4)) * t * ((vs * va * (g3 * g4)) * u)) - (vb * vt * vs * vb * vt * vs * f2 * g2) * (f1 * g1
        - s1 * (vp * vq * va)) - (vb * vt * vs * vb * vt * vs * s1 * vp * vq * va) * (f2 * g2 - s2 *
        (va * vr * vs)) + (vs * va * vs * va * f4 * g4 * t * u) * (f3 * g3 - s3 * (vq * vr * vb)),
        (vs * va * vs * va * s3 * vq * vr * vb * t * u) * (f4 * g4 - s4 * (vp * vb * vt)));
    assert((va * va * vb * vb * vp * vq * vr * vs * vs * vt) * (s1 * s2 * (vs * vt) - s3 * s4 *
        (t * u)) == ((vb * vt * (f1 * f2)) * vs * ((vb * vt * (g1 * g2)) * vs) - (vs * va * (f3 *
        f4)) * t * ((vs * va * (g3 * g4)) * u)) - (vb * vt * vs * vb * vt * vs * f2 * g2) * (f1 * g1
        - s1 * (vp * vq * va)) - (vb * vt * vs * vb * vt * vs * s1 * vp * vq * va) * (f2 * g2 - s2 *
        (va * vr * vs)) + (vs * va * vs * va * f4 * g4 * t * u) * (f3 * g3 - s3 * (vq * vr * vb)) +
        (vs * va * vs * va * s3 * vq * vr * vb * t * u) * (f4 * g4 - s4 * (vp * vb * vt))) by {
        assert((((va * va) * vb) * vb) == (va * va * vb * vb)) by {
            assert(((va * va) * vb) == (va * va * vb));
        }
        assert(((((va * va) * vb) * vb) * vp) == (vp * va * va * vb * vb)) by {
            assert((((va * va) * vb) * vb) == (va * va * vb * vb));
            lemma_exchange(va * va * vb, vb, vp);
            lemma_exchange(va * va, vb, vp);
            lemma_exchange(va, va, vp);
            lemma_mul_is_commutative(va, vp);
        }
        assert((((((va * va) * vb) * vb) * vp) * vq) == (vp * vq * va * va * vb * vb)) by {
            assert(((((va * va) * vb) * vb) * vp) == (vp * va * va * vb * vb));
            lemma_exchange(vp * va * va * vb, vb, vq);
            lemma_exchange(vp * va * va, vb, vq);
            lemma_exchange(vp * va, va, vq);
            lemma_exchange(vp, va, vq);
        }
        assert(((((((va * va) * vb) * vb) * vp) * vq) * vr) == (vp * vq * vr * va * va * vb *
            vb)) by {
            assert((((((va * va) * vb) * vb) * vp) * vq) == (vp * vq * va * va * vb * vb));
            lemma_exchange(vp * vq * va * va * vb, vb, vr);
            lemma_exchange(vp * vq * va * va, vb, vr);
            lemma_exchange(vp * vq * va, va, vr);
            lemma_exchange(vp * vq, va, vr);
        }
        assert((((((((va * va) * vb) * vb) * vp) * vq) * vr) * vs) == (vp * vq * vr * va * va *
            vb * vb * vs)) by {
            assert(((((((va * va) * vb) * vb) * vp) * vq) * vr) == (vp * vq * vr * va * va * vb
                * vb));
        }
        assert(((((((((va * va) * vb) * vb) * vp) * vq) * vr) * vs) * vs) == (vp * vq * vr * va
            * va * vb * vb * vs * vs)) by {
            assert((((((((va * va) * vb) * vb) * vp) * vq) * vr) * vs) == (vp * vq * vr * va *
                va * vb * vb * vs));
        }
        assert((((((((((va * va) * vb) * vb) * vp) * vq) * vr) * vs) * vs) * vt) == (vp * vq *
            vr * va * va * vb * vb * vs * vs * vt)) by {
            assert(((((((((va * va) * vb) * vb) * vp) * vq) * vr) * vs) * vs) == (vp * vq * vr *
                va * va * vb * vb * vs * vs));
        }
        assert(((s1 * s2) * (vs * vt)) == (vs * vt * s1 * s2)) by {
            lemma_mul_is_associative(s1 * s2, vs, vt);
            lemma_exchange(s1, s2, vs);
            lemma_mul_is_commutative(s1, vs);
            lemma_exchange(vs * s1, s2, vt);
            lemma_exchange(vs, s1, vt);
        }
        assert(((s3 * s4) * (t * u)) == (t * u * s3 * s4)) by {
            lemma_mul_is_associative(s3 * s4, t, u);
            lemma_exchange(s3, s4, t);
            lemma_mul_is_commutative(s3, t);
            lemma_exchange(t * s3, s4, u);
            lemma_exchange(t, s3, u);
        }
        assert(((((((((((va * va) * vb) * vb) * vp) * vq) * vr) * vs) * vs) * vt) * (((s1 * s2)
            * (vs * vt)) - ((s3 * s4) * (t * u)))) == (vp * vq * vr * va * va * vb * vb * vs * vs *
            vs * vt * vt * s1 * s2) - (vp * vq * vr * va * va * vb * vb * vs * vs * vt * t * u * s3
            * s4)) by {
            assert((((((((((va * va) * vb) * vb) * vp) * vq) * vr) * vs) * vs) * vt) == (vp * vq
                * vr * va * va * vb * vb * vs * vs * vt));
            assert((((s1 * s2) * (vs * vt)) - ((s3 * s4) * (t * u))) == (vs * vt * s1 * s2) - (t
                * u * s3 * s4));
            lemma_mul_is_distributive_sub((vp * vq * vr * va * va * vb * vb * vs * vs * vt), (vs
                * vt * s1 * s2), (t * u * s3 * s4));
            lemma_mul_is_associative(vp * vq * vr * va * va * vb * vb * vs * vs * vt, vs * vt *
                s1, s2);
            lemma_mul_is_associative(vp * vq * vr * va * va * vb * vb * vs * vs * vt, vs * vt, s1);
            lemma_mul_is_associative(vp * vq * vr * va * va * vb * vb * vs * vs * vt, vs, vt);
            lemma_exchange(vp * vq * vr * va * va * vb * vb * vs * vs, vt, vs);
            lemma_mul_is_associative(vp * vq * vr * va * va * vb * vb * vs * vs * vt, t * u *
                s3, s4);
            lemma_mul_is_associative(vp * vq * vr * va * va * vb * vb * vs * vs * vt, t * u, s3);
            lemma_mul_is_associative(vp * vq * vr * va * va * vb * vb * vs * vs * vt, t, u);
        }
        assert(((vb * vt) * (f1 * f2)) == (vb * vt * f1 * f2)) by {
            lemma_mul_is_associative(vb * vt, f1, f2);
        }
        assert((((vb * vt) * (f1 * f2)) * vs) == (vb * vs * vt * f1 * f2)) by {
            assert(((vb * vt) * (f1 * f2)) == (vb * vt * f1 * f2));
            lemma_exchange(vb * vt * f1, f2, vs);
            lemma_exchange(vb * vt, f1, vs);
            lemma_exchange(vb, vt, vs);
        }
        assert(((vb * vt) * (g1 * g2)) == (vb * vt * g1 * g2)) by {
            lemma_mul_is_associative(vb * vt, g1, g2);
        }
        assert((((vb * vt) * (g1 * g2)) * vs) == (vb * vs * vt * g1 * g2)) by {
            assert(((vb * vt) * (g1 * g2)) == (vb * vt * g1 * g2));
            lemma_exchange(vb * vt * g1, g2, vs);
            lemma_exchange(vb * vt, g1, vs);
            lemma_exchange(vb, vt, vs);
        }
        assert(((((vb * vt) * (f1 * f2)) * vs) * (((vb * vt) * (g1 * g2)) * vs)) == (vb * vb *
            vs * vs * vt * vt * f1 * f2 * g1 * g2)) by {
            assert((((vb * vt) * (f1 * f2)) * vs) == (vb * vs * vt * f1 * f2));
            assert((((vb * vt) * (g1 * g2)) * vs) == (vb * vs * vt * g1 * g2));
            lemma_mul_is_associative(vb * vs * vt * f1 * f2, vb * vs * vt * g1, g2);
            lemma_mul_is_associative(vb * vs * vt * f1 * f2, vb * vs * vt, g1);
            lemma_mul_is_associative(vb * vs * vt * f1 * f2, vb * vs, vt);
            lemma_mul_is_associative(vb * vs * vt * f1 * f2, vb, vs);
            lemma_exchange(vb * vs * vt * f1, f2, vb);
            lemma_exchange(vb * vs * vt, f1, vb);
            lemma_exchange(vb * vs, vt, vb);
            lemma_exchange(vb, vs, vb);
            lemma_exchange(vb * vb * vs * vt * f1, f2, vs);
            lemma_exchange(vb * vb * vs * vt, f1, vs);
            lemma_exchange(vb * vb * vs, vt, vs);
            lemma_exchange(vb * vb * vs * vs * vt * f1, f2, vt);
            lemma_exchange(vb * vb * vs * vs * vt, f1, vt);
        }
        assert((vs * va) == (va * vs)) by {
            lemma_mul_is_commutative(vs, va);
        }
        assert(((vs * va) * (f3 * f4)) == (va * vs * f3 * f4)) by {
            assert((vs * va) == (va * vs));
            lemma_mul_is_associative(va * vs, f3, f4);
        }
        assert((((vs * va) * (f3 * f4)) * t) == (va * vs * f3 * f4 * t)) by {
            assert(((vs * va) * (f3 * f4)) == (va * vs * f3 * f4));
        }
        assert(((vs * va) * (g3 * g4)) == (va * vs * g3 * g4)) by {
            assert((vs * va) == (va * vs));
            lemma_mul_is_associative(va * vs, g3, g4);
        }
        assert((((vs * va) * (g3 * g4)) * u) == (va * vs * g3 * g4 * u)) by {
            assert(((vs * va) * (g3 * g4)) == (va * vs * g3 * g4));
        }
        assert(((((vs * va) * (f3 * f4)) * t) * (((vs * va) * (g3 * g4)) * u)) == (va * va * vs
            * vs * f3 * f4 * g3 * g4 * t * u)) by {
            assert((((vs * va) * (f3 * f4)) * t) == (va * vs * f3 * f4 * t));
            assert((((vs * va) * (g3 * g4)) * u) == (va * vs * g3 * g4 * u));
            lemma_mul_is_associative(va * vs * f3 * f4 * t, va * vs * g3 * g4, u);
            lemma_mul_is_associative(va * vs * f3 * f4 * t, va * vs * g3, g4);
            lemma_mul_is_associative(va * vs * f3 * f4 * t, va * vs, g3);
            lemma_mul_is_associative(va * vs * f3 * f4 * t, va, vs);
            lemma_exchange(va * vs * f3 * f4, t, va);
            lemma_exchange(va * vs * f3, f4, va);
            lemma_exchange(va * vs, f3, va);
            lemma_exchange(va, vs, va);
            lemma_exchange(va * va * vs * f3 * f4, t, vs);
            lemma_exchange(va * va * vs * f3, f4, vs);
            lemma_exchange(va * va * vs, f3, vs);
            lemma_exchange(va * va * vs * vs * f3 * f4, t, g3);
            lemma_exchange(va * va * vs * vs * f3 * f4 * g3, t, g4);
        }
        assert(((vb * vt) * vs) == (vb * vs * vt)) by {
            lemma_exchange(vb, vt, vs);
        }
        assert((((vb * vt) * vs) * vb) == (vb * vb * vs * vt)) by {
            assert(((vb * vt) * vs) == (vb * vs * vt));
            lemma_exchange(vb * vs, vt, vb);
            lemma_exchange(vb, vs, vb);
        }
        assert(((((vb * vt) * vs) * vb) * vt) == (vb * vb * vs * vt * vt)) by {
            assert((((vb * vt) * vs) * vb) == (vb * vb * vs * vt));
        }
        assert((((((vb * vt) * vs) * vb) * vt) * vs) == (vb * vb * vs * vs * vt * vt)) by {
            assert(((((vb * vt) * vs) * vb) * vt) == (vb * vb * vs * vt * vt));
            lemma_exchange(vb * vb * vs * vt, vt, vs);
            lemma_exchange(vb * vb * vs, vt, vs);
        }
        assert(((((((vb * vt) * vs) * vb) * vt) * vs) * f2) == (vb * vb * vs * vs * vt * vt *
            f2)) by {
            assert((((((vb * vt) * vs) * vb) * vt) * vs) == (vb * vb * vs * vs * vt * vt));
        }
        assert((((((((vb * vt) * vs) * vb) * vt) * vs) * f2) * g2) == (vb * vb * vs * vs * vt *
            vt * f2 * g2)) by {
            assert(((((((vb * vt) * vs) * vb) * vt) * vs) * f2) == (vb * vb * vs * vs * vt * vt
                * f2));
        }
        assert((s1 * ((vp * vq) * va)) == (vp * vq * va * s1)) by {
            assert(((vp * vq) * va) == (vp * vq * va));
            lemma_mul_is_associative(s1, vp * vq, va);
            lemma_mul_is_associative(s1, vp, vq);
            lemma_mul_is_commutative(s1, vp);
            lemma_exchange(vp, s1, vq);
            lemma_exchange(vp * vq, s1, va);
        }
        assert(((((((((vb * vt) * vs) * vb) * vt) * vs) * f2) * g2) * ((f1 * g1) - (s1 * ((vp *
            vq) * va)))) == (vb * vb * vs * vs * vt * vt * f1 * f2 * g1 * g2) - (vp * vq * va * vb *
            vb * vs * vs * vt * vt * f2 * g2 * s1)) by {
            assert((((((((vb * vt) * vs) * vb) * vt) * vs) * f2) * g2) == (vb * vb * vs * vs *
                vt * vt * f2 * g2));
            assert(((f1 * g1) - (s1 * ((vp * vq) * va))) == (f1 * g1) - (vp * vq * va * s1));
            lemma_mul_is_distributive_sub((vb * vb * vs * vs * vt * vt * f2 * g2), (f1 * g1),
                (vp * vq * va * s1));
            lemma_mul_is_associative(vb * vb * vs * vs * vt * vt * f2 * g2, f1, g1);
            lemma_exchange(vb * vb * vs * vs * vt * vt * f2, g2, f1);
            lemma_exchange(vb * vb * vs * vs * vt * vt, f2, f1);
            lemma_exchange(vb * vb * vs * vs * vt * vt * f1 * f2, g2, g1);
            lemma_mul_is_associative(vb * vb * vs * vs * vt * vt * f2 * g2, vp * vq * va, s1);
            lemma_mul_is_associative(vb * vb * vs * vs * vt * vt * f2 * g2, vp * vq, va);
            lemma_mul_is_associative(vb * vb * vs * vs * vt * vt * f2 * g2, vp, vq);
            lemma_exchange(vb * vb * vs * vs * vt * vt * f2, g2, vp);
            lemma_exchange(vb * vb * vs * vs * vt * vt, f2, vp);
            lemma_exchange(vb * vb * vs * vs * vt, vt, vp);
            lemma_exchange(vb * vb * vs * vs, vt, vp);
            lemma_exchange(vb * vb * vs, vs, vp);
            lemma_exchange(vb * vb, vs, vp);
            lemma_exchange(vb, vb, vp);
            lemma_mul_is_commutative(vb, vp);
            lemma_exchange(vp * vb * vb * vs * vs * vt * vt * f2, g2, vq);
            lemma_exchange(vp * vb * vb * vs * vs * vt * vt, f2, vq);
            lemma_exchange(vp * vb * vb * vs * vs * vt, vt, vq);
            lemma_exchange(vp * vb * vb * vs * vs, vt, vq);
            lemma_exchange(vp * vb * vb * vs, vs, vq);
            lemma_exchange(vp * vb * vb, vs, vq);
            lemma_exchange(vp * vb, vb, vq);
            lemma_exchange(vp, vb, vq);
            lemma_exchange(vp * vq * vb * vb * vs * vs * vt * vt * f2, g2, va);
            lemma_exchange(vp * vq * vb * vb * vs * vs * vt * vt, f2, va);
            lemma_exchange(vp * vq * vb * vb * vs * vs * vt, vt, va);
            lemma_exchange(vp * vq * vb * vb * vs * vs, vt, va);
            lemma_exchange(vp * vq * vb * vb * vs, vs, va);
            lemma_exchange(vp * vq * vb * vb, vs, va);
            lemma_exchange(vp * vq * vb, vb, va);
            lemma_exchange(vp * vq, vb, va);
        }
        assert(((((((vb * vt) * vs) * vb) * vt) * vs) * s1) == (vb * vb * vs * vs * vt * vt *
            s1)) by {
            assert((((((vb * vt) * vs) * vb) * vt) * vs) == (vb * vb * vs * vs * vt * vt));
        }
        assert((((((((vb * vt) * vs) * vb) * vt) * vs) * s1) * vp) == (vp * vb * vb * vs * vs *
            vt * vt * s1)) by {
            assert(((((((vb * vt) * vs) * vb) * vt) * vs) * s1) == (vb * vb * vs * vs * vt * vt
                * s1));
            lemma_exchange(vb * vb * vs * vs * vt * vt, s1, vp);
            lemma_exchange(vb * vb * vs * vs * vt, vt, vp);
            lemma_exchange(vb * vb * vs * vs, vt, vp);
            lemma_exchange(vb * vb * vs, vs, vp);
            lemma_exchange(vb * vb, vs, vp);
            lemma_exchange(vb, vb, vp);
            lemma_mul_is_commutative(vb, vp);
        }
        assert(((((((((vb * vt) * vs) * vb) * vt) * vs) * s1) * vp) * vq) == (vp * vq * vb * vb
            * vs * vs * vt * vt * s1)) by {
            assert((((((((vb * vt) * vs) * vb) * vt) * vs) * s1) * vp) == (vp * vb * vb * vs *
                vs * vt * vt * s1));
            lemma_exchange(vp * vb * vb * vs * vs * vt * vt, s1, vq);
            lemma_exchange(vp * vb * vb * vs * vs * vt, vt, vq);
            lemma_exchange(vp * vb * vb * vs * vs, vt, vq);
            lemma_exchange(vp * vb * vb * vs, vs, vq);
            lemma_exchange(vp * vb * vb, vs, vq);
            lemma_exchange(vp * vb, vb, vq);
            lemma_exchange(vp, vb, vq);
        }
        assert((((((((((vb * vt) * vs) * vb) * vt) * vs) * s1) * vp) * vq) * va) == (vp * vq *
            va * vb * vb * vs * vs * vt * vt * s1)) by {
            assert(((((((((vb * vt) * vs) * vb) * vt) * vs) * s1) * vp) * vq) == (vp * vq * vb *
                vb * vs * vs * vt * vt * s1));
            lemma_exchange(vp * vq * vb * vb * vs * vs * vt * vt, s1, va);
            lemma_exchange(vp * vq * vb * vb * vs * vs * vt, vt, va);
            lemma_exchange(vp * vq * vb * vb * vs * vs, vt, va);
            lemma_exchange(vp * vq * vb * vb * vs, vs, va);
            lemma_exchange(vp * vq * vb * vb, vs, va);
            lemma_exchange(vp * vq * vb, vb, va);
            lemma_exchange(vp * vq, vb, va);
        }
        assert((va * vr) == (vr * va)) by {
            lemma_mul_is_commutative(va, vr);
        }
        assert(((va * vr) * vs) == (vr * va * vs)) by {
            assert((va * vr) == (vr * va));
        }
        assert((s2 * ((va * vr) * vs)) == (vr * va * vs * s2)) by {
            assert(((va * vr) * vs) == (vr * va * vs));
            lemma_mul_is_associative(s2, vr * va, vs);
            lemma_mul_is_associative(s2, vr, va);
            lemma_mul_is_commutative(s2, vr);
            lemma_exchange(vr, s2, va);
            lemma_exchange(vr * va, s2, vs);
        }
        assert(((((((((((vb * vt) * vs) * vb) * vt) * vs) * s1) * vp) * vq) * va) * ((f2 * g2) -
            (s2 * ((va * vr) * vs)))) == (vp * vq * va * vb * vb * vs * vs * vt * vt * f2 * g2 * s1)
            - (vp * vq * vr * va * va * vb * vb * vs * vs * vs * vt * vt * s1 * s2)) by {
            assert((((((((((vb * vt) * vs) * vb) * vt) * vs) * s1) * vp) * vq) * va) == (vp * vq
                * va * vb * vb * vs * vs * vt * vt * s1));
            assert(((f2 * g2) - (s2 * ((va * vr) * vs))) == (f2 * g2) - (vr * va * vs * s2));
            lemma_mul_is_distributive_sub((vp * vq * va * vb * vb * vs * vs * vt * vt * s1), (f2
                * g2), (vr * va * vs * s2));
            lemma_mul_is_associative(vp * vq * va * vb * vb * vs * vs * vt * vt * s1, f2, g2);
            lemma_exchange(vp * vq * va * vb * vb * vs * vs * vt * vt, s1, f2);
            lemma_exchange(vp * vq * va * vb * vb * vs * vs * vt * vt * f2, s1, g2);
            lemma_mul_is_associative(vp * vq * va * vb * vb * vs * vs * vt * vt * s1, vr * va *
                vs, s2);
            lemma_mul_is_associative(vp * vq * va * vb * vb * vs * vs * vt * vt * s1, vr * va, vs);
            lemma_mul_is_associative(vp * vq * va * vb * vb * vs * vs * vt * vt * s1, vr, va);
            lemma_exchange(vp * vq * va * vb * vb * vs * vs * vt * vt, s1, vr);
            lemma_exchange(vp * vq * va * vb * vb * vs * vs * vt, vt, vr);
            lemma_exchange(vp * vq * va * vb * vb * vs * vs, vt, vr);
            lemma_exchange(vp * vq * va * vb * vb * vs, vs, vr);
            lemma_exchange(vp * vq * va * vb * vb, vs, vr);
            lemma_exchange(vp * vq * va * vb, vb, vr);
            lemma_exchange(vp * vq * va, vb, vr);
            lemma_exchange(vp * vq, va, vr);
            lemma_exchange(vp * vq * vr * va * vb * vb * vs * vs * vt * vt, s1, va);
            lemma_exchange(vp * vq * vr * va * vb * vb * vs * vs * vt, vt, va);
            lemma_exchange(vp * vq * vr * va * vb * vb * vs * vs, vt, va);
            lemma_exchange(vp * vq * vr * va * vb * vb * vs, vs, va);
            lemma_exchange(vp * vq * vr * va * vb * vb, vs, va);
            lemma_exchange(vp * vq * vr * va * vb, vb, va);
            lemma_exchange(vp * vq * vr * va, vb, va);
            lemma_exchange(vp * vq * vr * va * va * vb * vb * vs * vs * vt * vt, s1, vs);
            lemma_exchange(vp * vq * vr * va * va * vb * vb * vs * vs * vt, vt, vs);
            lemma_exchange(vp * vq * vr * va * va * vb * vb * vs * vs, vt, vs);
        }
        assert(((vs * va) * vs) == (va * vs * vs)) by {
            assert((vs * va) == (va * vs));
        }
        assert((((vs * va) * vs) * va) == (va * va * vs * vs)) by {
            assert(((vs * va) * vs) == (va * vs * vs));
            lemma_exchange(va * vs, vs, va);
            lemma_exchange(va, vs, va);
        }
        assert(((((vs * va) * vs) * va) * f4) == (va * va * vs * vs * f4)) by {
            assert((((vs * va) * vs) * va) == (va * va * vs * vs));
        }
        assert((((((vs * va) * vs) * va) * f4) * g4) == (va * va * vs * vs * f4 * g4)) by {
            assert(((((vs * va) * vs) * va) * f4) == (va * va * vs * vs * f4));
        }
        assert(((((((vs * va) * vs) * va) * f4) * g4) * t) == (va * va * vs * vs * f4 * g4 * t))
            by {
            assert((((((vs * va) * vs) * va) * f4) * g4) == (va * va * vs * vs * f4 * g4));
        }
        assert((((((((vs * va) * vs) * va) * f4) * g4) * t) * u) == (va * va * vs * vs * f4 * g4
            * t * u)) by {
            assert(((((((vs * va) * vs) * va) * f4) * g4) * t) == (va * va * vs * vs * f4 * g4 *
                t));
        }
        assert((s3 * ((vq * vr) * vb)) == (vq * vr * vb * s3)) by {
            assert(((vq * vr) * vb) == (vq * vr * vb));
            lemma_mul_is_associative(s3, vq * vr, vb);
            lemma_mul_is_associative(s3, vq, vr);
            lemma_mul_is_commutative(s3, vq);
            lemma_exchange(vq, s3, vr);
            lemma_exchange(vq * vr, s3, vb);
        }
        assert(((((((((vs * va) * vs) * va) * f4) * g4) * t) * u) * ((f3 * g3) - (s3 * ((vq *
            vr) * vb)))) == (va * va * vs * vs * f3 * f4 * g3 * g4 * t * u) - (vq * vr * va * va *
            vb * vs * vs * f4 * g4 * t * u * s3)) by {
            assert((((((((vs * va) * vs) * va) * f4) * g4) * t) * u) == (va * va * vs * vs * f4
                * g4 * t * u));
            assert(((f3 * g3) - (s3 * ((vq * vr) * vb))) == (f3 * g3) - (vq * vr * vb * s3));
            lemma_mul_is_distributive_sub((va * va * vs * vs * f4 * g4 * t * u), (f3 * g3), (vq
                * vr * vb * s3));
            lemma_mul_is_associative(va * va * vs * vs * f4 * g4 * t * u, f3, g3);
            lemma_exchange(va * va * vs * vs * f4 * g4 * t, u, f3);
            lemma_exchange(va * va * vs * vs * f4 * g4, t, f3);
            lemma_exchange(va * va * vs * vs * f4, g4, f3);
            lemma_exchange(va * va * vs * vs, f4, f3);
            lemma_exchange(va * va * vs * vs * f3 * f4 * g4 * t, u, g3);
            lemma_exchange(va * va * vs * vs * f3 * f4 * g4, t, g3);
            lemma_exchange(va * va * vs * vs * f3 * f4, g4, g3);
            lemma_mul_is_associative(va * va * vs * vs * f4 * g4 * t * u, vq * vr * vb, s3);
            lemma_mul_is_associative(va * va * vs * vs * f4 * g4 * t * u, vq * vr, vb);
            lemma_mul_is_associative(va * va * vs * vs * f4 * g4 * t * u, vq, vr);
            lemma_exchange(va * va * vs * vs * f4 * g4 * t, u, vq);
            lemma_exchange(va * va * vs * vs * f4 * g4, t, vq);
            lemma_exchange(va * va * vs * vs * f4, g4, vq);
            lemma_exchange(va * va * vs * vs, f4, vq);
            lemma_exchange(va * va * vs, vs, vq);
            lemma_exchange(va * va, vs, vq);
            lemma_exchange(va, va, vq);
            lemma_mul_is_commutative(va, vq);
            lemma_exchange(vq * va * va * vs * vs * f4 * g4 * t, u, vr);
            lemma_exchange(vq * va * va * vs * vs * f4 * g4, t, vr);
            lemma_exchange(vq * va * va * vs * vs * f4, g4, vr);
            lemma_exchange(vq * va * va * vs * vs, f4, vr);
            lemma_exchange(vq * va * va * vs, vs, vr);
            lemma_exchange(vq * va * va, vs, vr);
            lemma_exchange(vq * va, va, vr);
            lemma_exchange(vq, va, vr);
            lemma_exchange(vq * vr * va * va * vs * vs * f4 * g4 * t, u, vb);
            lemma_exchange(vq * vr * va * va * vs * vs * f4 * g4, t, vb);
            lemma_exchange(vq * vr * va * va * vs * vs * f4, g4, vb);
            lemma_exchange(vq * vr * va * va * vs * vs, f4, vb);
            lemma_exchange(vq * vr * va * va * vs, vs, vb);
            lemma_exchange(vq * vr * va * va, vs, vb);
        }
        assert(((((vs * va) * vs) * va) * s3) == (va * va * vs * vs * s3)) by {
            assert((((vs * va) * vs) * va) == (va * va * vs * vs));
        }
        assert((((((vs * va) * vs) * va) * s3) * vq) == (vq * va * va * vs * vs * s3)) by {
            assert(((((vs * va) * vs) * va) * s3) == (va * va * vs * vs * s3));
            lemma_exchange(va * va * vs * vs, s3, vq);
            lemma_exchange(va * va * vs, vs, vq);
            lemma_exchange(va * va, vs, vq);
            lemma_exchange(va, va, vq);
            lemma_mul_is_commutative(va, vq);
        }
        assert(((((((vs * va) * vs) * va) * s3) * vq) * vr) == (vq * vr * va * va * vs * vs *
            s3)) by {
            assert((((((vs * va) * vs) * va) * s3) * vq) == (vq * va * va * vs * vs * s3));
            lemma_exchange(vq * va * va * vs * vs, s3, vr);
            lemma_exchange(vq * va * va * vs, vs, vr);
            lemma_exchange(vq * va * va, vs, vr);
            lemma_exchange(vq * va, va, vr);
            lemma_exchange(vq, va, vr);
        }
        assert((((((((vs * va) * vs) * va) * s3) * vq) * vr) * vb) == (vq * vr * va * va * vb *
            vs * vs * s3)) by {
            assert(((((((vs * va) * vs) * va) * s3) * vq) * vr) == (vq * vr * va * va * vs * vs
                * s3));
            lemma_exchange(vq * vr * va * va * vs * vs, s3, vb);
            lemma_exchange(vq * vr * va * va * vs, vs, vb);
            lemma_exchange(vq * vr * va * va, vs, vb);
        }
        assert(((((((((vs * va) * vs) * va) * s3) * vq) * vr) * vb) * t) == (vq * vr * va * va *
            vb * vs * vs * t * s3)) by {
            assert((((((((vs * va) * vs) * va) * s3) * vq) * vr) * vb) == (vq * vr * va * va *
                vb * vs * vs * s3));
            lemma_exchange(vq * vr * va * va * vb * vs * vs, s3, t);
        }
        assert((((((((((vs * va) * vs) * va) * s3) * vq) * vr) * vb) * t) * u) == (vq * vr * va
            * va * vb * vs * vs * t * u * s3)) by {
            assert(((((((((vs * va) * vs) * va) * s3) * vq) * vr) * vb) * t) == (vq * vr * va *
                va * vb * vs * vs * t * s3));
            lemma_exchange(vq * vr * va * va * vb * vs * vs * t, s3, u);
        }
        assert((s4 * ((vp * vb) * vt)) == (vp * vb * vt * s4)) by {
            assert(((vp * vb) * vt) == (vp * vb * vt));
            lemma_mul_is_associative(s4, vp * vb, vt);
            lemma_mul_is_associative(s4, vp, vb);
            lemma_mul_is_commutative(s4, vp);
            lemma_exchange(vp, s4, vb);
            lemma_exchange(vp * vb, s4, vt);
        }
        assert(((((((((((vs * va) * vs) * va) * s3) * vq) * vr) * vb) * t) * u) * ((f4 * g4) -
            (s4 * ((vp * vb) * vt)))) == (vq * vr * va * va * vb * vs * vs * f4 * g4 * t * u * s3) -
            (vp * vq * vr * va * va * vb * vb * vs * vs * vt * t * u * s3 * s4)) by {
            assert((((((((((vs * va) * vs) * va) * s3) * vq) * vr) * vb) * t) * u) == (vq * vr *
                va * va * vb * vs * vs * t * u * s3));
            assert(((f4 * g4) - (s4 * ((vp * vb) * vt))) == (f4 * g4) - (vp * vb * vt * s4));
            lemma_mul_is_distributive_sub((vq * vr * va * va * vb * vs * vs * t * u * s3), (f4 *
                g4), (vp * vb * vt * s4));
            lemma_mul_is_associative(vq * vr * va * va * vb * vs * vs * t * u * s3, f4, g4);
            lemma_exchange(vq * vr * va * va * vb * vs * vs * t * u, s3, f4);
            lemma_exchange(vq * vr * va * va * vb * vs * vs * t, u, f4);
            lemma_exchange(vq * vr * va * va * vb * vs * vs, t, f4);
            lemma_exchange(vq * vr * va * va * vb * vs * vs * f4 * t * u, s3, g4);
            lemma_exchange(vq * vr * va * va * vb * vs * vs * f4 * t, u, g4);
            lemma_exchange(vq * vr * va * va * vb * vs * vs * f4, t, g4);
            lemma_mul_is_associative(vq * vr * va * va * vb * vs * vs * t * u * s3, vp * vb *
                vt, s4);
            lemma_mul_is_associative(vq * vr * va * va * vb * vs * vs * t * u * s3, vp * vb, vt);
            lemma_mul_is_associative(vq * vr * va * va * vb * vs * vs * t * u * s3, vp, vb);
            lemma_exchange(vq * vr * va * va * vb * vs * vs * t * u, s3, vp);
            lemma_exchange(vq * vr * va * va * vb * vs * vs * t, u, vp);
            lemma_exchange(vq * vr * va * va * vb * vs * vs, t, vp);
            lemma_exchange(vq * vr * va * va * vb * vs, vs, vp);
            lemma_exchange(vq * vr * va * va * vb, vs, vp);
            lemma_exchange(vq * vr * va * va, vb, vp);
            lemma_exchange(vq * vr * va, va, vp);
            lemma_exchange(vq * vr, va, vp);
            lemma_exchange(vq, vr, vp);
            lemma_mul_is_commutative(vq, vp);
            lemma_exchange(vp * vq * vr * va * va * vb * vs * vs * t * u, s3, vb);
            lemma_exchange(vp * vq * vr * va * va * vb * vs * vs * t, u, vb);
            lemma_exchange(vp * vq * vr * va * va * vb * vs * vs, t, vb);
            lemma_exchange(vp * vq * vr * va * va * vb * vs, vs, vb);
            lemma_exchange(vp * vq * vr * va * va * vb, vs, vb);
            lemma_exchange(vp * vq * vr * va * va * vb * vb * vs * vs * t * u, s3, vt);
            lemma_exchange(vp * vq * vr * va * va * vb * vb * vs * vs * t, u, vt);
            lemma_exchange(vp * vq * vr * va * va * vb * vb * vs * vs, t, vt);
        }
    }
}

/// Scaled Jacobian coordinates: the abscissa.
pub proof fn lemma_jacobian_scale(x: int, y: int, z: int, c: int)
    requires
        fp::vanishes(x - y * (z * z)),
    ensures
        fp::vanishes(x * (c * c) - y * ((z * c) * (z * c))),
{
    fp::lemma_scale(c * c, x - y * (z * z));
    assert(x * (c * c) - y * ((z * c) * (z * c)) == (c * c) * (x - y * (z * z))) by {
        assert((x * (c * c)) == (x * c * c)) by {
            lemma_mul_is_associative(x, c, c);
        }
        assert(((z * c) * (z * c)) == (z * z * c * c)) by {
            lemma_mul_is_associative(z * c, z, c);
            lemma_exchange(z, c, z);
        }
        assert((y * ((z * c) * (z * c))) == (y * z * z * c * c)) by {
            assert(((z * c) * (z * c)) == (z * z * c * c));
            lemma_mul_is_associative(y, z * z * c, c);
            lemma_mul_is_associative(y, z * z, c);
            lemma_mul_is_associative(y, z, z);
        }
        assert((y * (z * z)) == (y * z * z)) by {
            lemma_mul_is_associative(y, z, z);
        }
        assert(((c * c) * (x - (y * (z * z)))) == (x * c * c) - (y * z * z * c * c)) by {
            assert((x - (y * (z * z))) == x - (y * z * z));
            lemma_mul_is_distributive_sub((c * c), x, (y * z * z));
            lemma_exchange(c, c, x);
            lemma_mul_is_commutative(c, x);
            lemma_mul_is_associative(c * c, y * z, z);
            lemma_mul_is_associative(c * c, y, z);
            lemma_exchange(c, c, y);
            lemma_mul_is_commutative(c, y);
            lemma_exchange(y * c, c, z);
            lemma_exchange(y, c, z);
            lemma_exchange(y * z * c, c, z);
            lemma_exchange(y * z, c, z);
        }
    }
}

/// Scaled Jacobian coordinates: the ordinate.
pub proof fn lemma_jacobian_scale_cube(x: int, y: int, z: int, c: int)
    requires
        fp::vanishes(x - y * (z * z * z)),
    ensures
        fp::vanishes(x * c * (c * c) - y * ((z * c) * (z * c) * (z * c))),
{
    fp::lemma_scale(c * (c * c), x - y * (z * z * z));
    assert(x * c * (c * c) - y * ((z * c) * (z * c) * (z * c)) == (c * (c * c)) * (x - y * (z *
        z * z))) by {
        assert(((x * c) * (c * c)) == (x * c * c * c)) by {
            lemma_mul_is_associative(x * c, c, c);
        }
        assert(((z * c) * (z * c)) == (z * z * c * c)) by {
            lemma_mul_is_associative(z * c, z, c);
            lemma_exchange(z, c, z);
        }
        assert((((z * c) * (z * c)) * (z * c)) == (z * z * z * c * c * c)) by {
            assert(((z * c) * (z * c)) == (z * z * c * c));
            lemma_mul_is_associative(z * z * c * c, z, c);
            lemma_exchange(z * z * c, c, z);
            lemma_exchange(z * z, c, z);
        }
        assert((y * (((z * c) * (z * c)) * (z * c))) == (y * z * z * z * c * c * c)) by {
            assert((((z * c) * (z * c)) * (z * c)) == (z * z * z * c * c * c));
            lemma_mul_is_associative(y, z * z * z * c * c, c);
            lemma_mul_is_associative(y, z * z * z * c, c);
            lemma_mul_is_associative(y, z * z * z, c);
            lemma_mul_is_associative(y, z * z, z);
            lemma_mul_is_associative(y, z, z);
        }
        assert((c * (c * c)) == (c * c * c)) by {
            lemma_mul_is_associative(c, c, c);
        }
        assert((y * ((z * z) * z)) == (y * z * z * z)) by {
            assert(((z * z) * z) == (z * z * z));
            lemma_mul_is_associative(y, z * z, z);
            lemma_mul_is_associative(y, z, z);
        }
        assert(((c * (c * c)) * (x - (y * ((z * z) * z)))) == (x * c * c * c) - (y * z * z * z *
            c * c * c)) by {
            assert((c * (c * c)) == (c * c * c));
            assert((x - (y * ((z * z) * z))) == x - (y * z * z * z));
            lemma_mul_is_distributive_sub((c * c * c), x, (y * z * z * z));
            lemma_exchange(c * c, c, x);
            lemma_exchange(c, c, x);
            lemma_mul_is_commutative(c, x);
            lemma_mul_is_associative(c * c * c, y * z * z, z);
            lemma_mul_is_associative(c * c * c, y * z, z);
            lemma_mul_is_associative(c * c * c, y, z);
            lemma_exchange(c * c, c, y);
            lemma_exchange(c, c, y);
            lemma_mul_is_commutative(c, y);
            lemma_exchange(y * c * c, c, z);
            lemma_exchange(y * c, c, z);
            lemma_exchange(y, c, z);
            lemma_exchange(y * z * c * c, c, z);
            lemma_exchange(y * z * c, c, z);
            lemma_exchange(y * z, c, z);
            lemma_exchange(y * z * z * c * c, c, z);
            lemma_exchange(y * z * z * c, c, z);
            lemma_exchange(y * z * z, c, z);
        }
    }
}

/// The slope of a tangent in Jacobian coordinates.
pub proof fn lemma_jacobian_tangent(u: int, w: int, z: int, x: int, y: int, l: int)
    requires
        fp::vanishes(u - x * (z * z)),
        fp::vanishes(w - y * (z * z * z)),
        fp::vanishes(2 * y * l - (3 * (x * x) - 3)),
    ensures
        fp::vanishes(3 * (u * u - z * z * (z * z)) - l * (2 * w * z)),
{
    fp::lemma_scale(3 * (u + x * (z * z)), u - x * (z * z));
    fp::lemma_scale((2 * l * z), w - y * (z * z * z));
    fp::lemma_scale((z * z * (z * z)), 2 * y * l - (3 * (x * x) - 3));
    fp::lemma_add((3 * (u + x * (z * z))) * (u - x * (z * z)), (2 * l * z) * (w - y * (z * z * z)));
    fp::lemma_add((3 * (u + x * (z * z))) * (u - x * (z * z)) - (2 * l * z) * (w - y * (z * z *
        z)), (z * z * (z * z)) * (2 * y * l - (3 * (x * x) - 3)));
    assert(3 * (u * u - z * z * (z * z)) - l * (2 * w * z) == (3 * (u + x * (z * z))) * (u - x *
        (z * z)) - (2 * l * z) * (w - y * (z * z * z)) - (z * z * (z * z)) * (2 * y * l - (3 * (x *
        x) - 3))) by {
        assert(((z * z) * (z * z)) == (z * z * z * z)) by {
            lemma_mul_is_associative(z * z, z, z);
        }
        assert(((2 * w) * z) == (2 * (w * z))) by {
            lemma_mul_is_associative(2, w, z);
        }
        assert((l * ((2 * w) * z)) == (2 * (w * z * l))) by {
            assert(((2 * w) * z) == (2 * (w * z)));
            lemma_outward(l, 2, w * z);
            lemma_mul_is_associative(l, w, z);
            lemma_mul_is_commutative(l, w);
            lemma_exchange(w, l, z);
        }
        assert((x * (z * z)) == (z * z * x)) by {
            lemma_mul_is_associative(x, z, z);
            lemma_mul_is_commutative(x, z);
            lemma_exchange(z, x, z);
        }
        assert(((3 * (u + (x * (z * z)))) * (u - (x * (z * z)))) == (3 * (u * u)) - (3 * (z * z
            * z * z * x * x))) by {
            assert((3 * (u + (x * (z * z)))) == (3 * u) + (3 * (z * z * x)));
            assert((u - (x * (z * z))) == u - (z * z * x));
            lemma_mul_is_distributive_add_other_way(u - (z * z * x), (3 * u), (3 * (z * z * x)));
            lemma_mul_is_distributive_sub((3 * u), u, (z * z * x));
            lemma_mul_is_distributive_sub((3 * (z * z * x)), u, (z * z * x));
            lemma_mul_is_associative(3, u, u);
            lemma_mul_is_associative(3, u, z * z * x);
            lemma_mul_is_associative(u, z * z, x);
            lemma_mul_is_associative(u, z, z);
            lemma_mul_is_associative(3, z * z * x, u);
            lemma_exchange(z * z, x, u);
            lemma_exchange(z, z, u);
            lemma_mul_is_commutative(z, u);
            lemma_mul_is_associative(3, z * z * x, z * z * x);
            lemma_mul_is_associative(z * z * x, z * z, x);
            lemma_mul_is_associative(z * z * x, z, z);
            lemma_exchange(z * z, x, z);
            lemma_exchange(z * z * z, x, z);
        }
        assert(((2 * l) * z) == (2 * (z * l))) by {
            lemma_mul_is_associative(2, l, z);
            lemma_mul_is_commutative(l, z);
        }
        assert((y * ((z * z) * z)) == (z * z * z * y)) by {
            assert(((z * z) * z) == (z * z * z));
            lemma_mul_is_associative(y, z * z, z);
            lemma_mul_is_associative(y, z, z);
            lemma_mul_is_commutative(y, z);
            lemma_exchange(z, y, z);
            lemma_exchange(z * z, y, z);
        }
        assert((((2 * l) * z) * (w - (y * ((z * z) * z)))) == (2 * (w * z * l)) - (2 * (z * z *
            z * z * y * l))) by {
            assert(((2 * l) * z) == (2 * (z * l)));
            assert((w - (y * ((z * z) * z))) == w - (z * z * z * y));
            lemma_mul_is_distributive_sub((2 * (z * l)), w, (z * z * z * y));
            lemma_mul_is_associative(2, z * l, w);
            lemma_exchange(z, l, w);
            lemma_mul_is_commutative(z, w);
            lemma_mul_is_associative(2, z * l, z * z * z * y);
            lemma_mul_is_associative(z * l, z * z * z, y);
            lemma_mul_is_associative(z * l, z * z, z);
            lemma_mul_is_associative(z * l, z, z);
            lemma_exchange(z, l, z);
            lemma_exchange(z * z, l, z);
            lemma_exchange(z * z * z, l, z);
            lemma_exchange(z * z * z * z, l, y);
        }
        assert(((2 * y) * l) == (2 * (y * l))) by {
            lemma_mul_is_associative(2, y, l);
        }
        assert((((z * z) * (z * z)) * (((2 * y) * l) - ((3 * (x * x)) - 3))) == (3 * (z * z * z
            * z)) - (3 * (z * z * z * z * x * x)) + (2 * (z * z * z * z * y * l))) by {
            assert(((z * z) * (z * z)) == (z * z * z * z));
            assert((((2 * y) * l) - ((3 * (x * x)) - 3)) == 3 - (3 * (x * x)) + (2 * (y * l)));
            lemma_mul_is_distributive_add((z * z * z * z), 3 - (3 * (x * x)), (2 * (y * l)));
            lemma_mul_is_distributive_sub((z * z * z * z), 3, (3 * (x * x)));
            lemma_outward(z * z * z * z, 3, x * x);
            lemma_mul_is_associative(z * z * z * z, x, x);
            lemma_outward(z * z * z * z, 2, y * l);
            lemma_mul_is_associative(z * z * z * z, y, l);
        }
    }
}

/// The abscissa of a doubled point in Jacobian coordinates.
pub proof fn lemma_jacobian_tangent_abscissa(u: int, w: int, z: int, x: int)
    requires
        fp::vanishes(u - x * (z * z)),
    ensures
        fp::vanishes(4 * (u * (w * w)) - x * ((2 * w * z) * (2 * w * z))),
{
    fp::lemma_scale(4 * (w * w), u - x * (z * z));
    assert(4 * (u * (w * w)) - x * ((2 * w * z) * (2 * w * z)) == (4 * (w * w)) * (u - x * (z *
        z))) by {
        assert((u * (w * w)) == (u * w * w)) by {
            lemma_mul_is_associative(u, w, w);
        }
        assert(((2 * w) * z) == (2 * (w * z))) by {
            lemma_mul_is_associative(2, w, z);
        }
        assert((((2 * w) * z) * ((2 * w) * z)) == (4 * (w * w * z * z))) by {
            assert(((2 * w) * z) == (2 * (w * z)));
            lemma_coefficients(2, w * z, 2, w * z);
            lemma_mul_is_associative(w * z, w, z);
            lemma_exchange(w, z, w);
        }
        assert((x * (((2 * w) * z) * ((2 * w) * z))) == (4 * (w * w * z * z * x))) by {
            assert((((2 * w) * z) * ((2 * w) * z)) == (4 * (w * w * z * z)));
            lemma_outward(x, 4, w * w * z * z);
            lemma_mul_is_associative(x, w * w * z, z);
            lemma_mul_is_associative(x, w * w, z);
            lemma_mul_is_associative(x, w, w);
            lemma_mul_is_commutative(x, w);
            lemma_exchange(w, x, w);
            lemma_exchange(w * w, x, z);
            lemma_exchange(w * w * z, x, z);
        }
        assert((x * (z * z)) == (z * z * x)) by {
            lemma_mul_is_associative(x, z, z);
            lemma_mul_is_commutative(x, z);
            lemma_exchange(z, x, z);
        }
        assert(((4 * (w * w)) * (u - (x * (z * z)))) == (4 * (u * w * w)) - (4 * (w * w * z * z
            * x))) by {
            assert((u - (x * (z * z))) == u - (z * z * x));
            lemma_mul_is_distributive_sub((4 * (w * w)), u, (z * z * x));
            lemma_mul_is_associative(4, w * w, u);
            lemma_exchange(w, w, u);
            lemma_mul_is_commutative(w, u);
            lemma_mul_is_associative(4, w * w, z * z * x);
            lemma_mul_is_associative(w * w, z * z, x);
            lemma_mul_is_associative(w * w, z, z);
        }
    }
}

/// The ordinate of a doubled point in Jacobian coordinates.
pub proof fn lemma_jacobian_tangent_ordinate(w: int, z: int, y: int)
    requires
        fp::vanishes(w - y * (z * z * z)),
    ensures
        fp::vanishes(8 * (w * w * (w * w)) - y * ((2 * w * z) * (2 * w * z) * (2 * w * z))),
{
    fp::lemma_scale(8 * (w * w * w), w - y * (z * z * z));
    assert(8 * (w * w * (w * w)) - y * ((2 * w * z) * (2 * w * z) * (2 * w * z)) == (8 * (w * w
        * w)) * (w - y * (z * z * z))) by {
        assert(((w * w) * (w * w)) == (w * w * w * w)) by {
            lemma_mul_is_associative(w * w, w, w);
        }
        assert(((2 * w) * z) == (2 * (w * z))) by {
            lemma_mul_is_associative(2, w, z);
        }
        assert((((2 * w) * z) * ((2 * w) * z)) == (4 * (w * w * z * z))) by {
            assert(((2 * w) * z) == (2 * (w * z)));
            lemma_coefficients(2, w * z, 2, w * z);
            lemma_mul_is_associative(w * z, w, z);
            lemma_exchange(w, z, w);
        }
        assert(((((2 * w) * z) * ((2 * w) * z)) * ((2 * w) * z)) == (8 * (w * w * w * z * z *
            z))) by {
            assert((((2 * w) * z) * ((2 * w) * z)) == (4 * (w * w * z * z)));
            assert(((2 * w) * z) == (2 * (w * z)));
            lemma_coefficients(4, w * w * z * z, 2, w * z);
            lemma_mul_is_associative(w * w * z * z, w, z);
            lemma_exchange(w * w * z, z, w);
            lemma_exchange(w * w, z, w);
        }
        assert((y * ((((2 * w) * z) * ((2 * w) * z)) * ((2 * w) * z))) == (8 * (w * w * w * z *
            z * z * y))) by {
            assert(((((2 * w) * z) * ((2 * w) * z)) * ((2 * w) * z)) == (8 * (w * w * w * z * z
                * z)));
            lemma_outward(y, 8, w * w * w * z * z * z);
            lemma_mul_is_associative(y, w * w * w * z * z, z);
            lemma_mul_is_associative(y, w * w * w * z, z);
            lemma_mul_is_associative(y, w * w * w, z);
            lemma_mul_is_associative(y, w * w, w);
            lemma_mul_is_associative(y, w, w);
            lemma_mul_is_commutative(y, w);
            lemma_exchange(w, y, w);
            lemma_exchange(w * w, y, w);
            lemma_exchange(w * w * w, y, z);
            lemma_exchange(w * w * w * z, y, z);
            lemma_exchange(w * w * w * z * z, y, z);
        }
        assert((y * ((z * z) * z)) == (z * z * z * y)) by {
            assert(((z * z) * z) == (z * z * z));
            lemma_mul_is_associative(y, z * z, z);
            lemma_mul_is_associative(y, z, z);
            lemma_mul_is_commutative(y, z);
            lemma_exchange(z, y, z);
            lemma_exchange(z * z, y, z);
        }
        assert(((8 * ((w * w) * w)) * (w - (y * ((z * z) * z)))) == (8 * (w * w * w * w)) - (8 *
            (w * w * w * z * z * z * y))) by {
            assert((8 * ((w * w) * w)) == (8 * (w * w * w)));
            assert((w - (y * ((z * z) * z))) == w - (z * z * z * y));
            lemma_mul_is_distributive_sub((8 * (w * w * w)), w, (z * z * z * y));
            lemma_mul_is_associative(8, w * w * w, w);
            lemma_mul_is_associative(8, w * w * w, z * z * z * y);
            lemma_mul_is_associative(w * w * w, z * z * z, y);
            lemma_mul_is_associative(w * w * w, z * z, z);
            lemma_mul_is_associative(w * w * w, z, z);
        }
    }
}

/// The slope of a chord in Jacobian coordinates.
pub proof fn lemma_jacobian_chord(u1: int, u2: int, s1: int, s2: int, h: int, r: int, z: int, c:
    int, x1: int, y1: int, x2: int, y2: int, l: int)
    requires
        fp::vanishes(u1 - x1 * (c * c)),
        fp::vanishes(u2 - x2 * (c * c)),
        fp::vanishes(s1 - y1 * (c * c * c)),
        fp::vanishes(s2 - y2 * (c * c * c)),
        fp::vanishes(h - (u2 - u1)),
        fp::vanishes(r - 2 * (s2 - s1)),
        fp::vanishes(z - 2 * (c * h)),
        fp::vanishes((y2 - y1) - l * (x2 - x1)),
    ensures
        fp::vanishes(r - l * z),
{
    fp::lemma_scale(l * (2 * c), u1 - x1 * (c * c));
    fp::lemma_scale((l * (2 * c)), u2 - x2 * (c * c));
    fp::lemma_scale(2, s1 - y1 * (c * c * c));
    fp::lemma_scale(2, s2 - y2 * (c * c * c));
    fp::lemma_scale((l * (2 * c)), h - (u2 - u1));
    fp::lemma_scale(l, z - 2 * (c * h));
    fp::lemma_scale(2 * (c * c * c), (y2 - y1) - l * (x2 - x1));
    fp::lemma_add((l * (2 * c)) * (u1 - x1 * (c * c)), (l * (2 * c)) * (u2 - x2 * (c * c)));
    fp::lemma_add((l * (2 * c)) * (u1 - x1 * (c * c)) - (l * (2 * c)) * (u2 - x2 * (c * c)), 2 *
        (s1 - y1 * (c * c * c)));
    fp::lemma_add((l * (2 * c)) * (u1 - x1 * (c * c)) - (l * (2 * c)) * (u2 - x2 * (c * c)) - 2
        * (s1 - y1 * (c * c * c)), 2 * (s2 - y2 * (c * c * c)));
    fp::lemma_add((l * (2 * c)) * (u1 - x1 * (c * c)) - (l * (2 * c)) * (u2 - x2 * (c * c)) - 2
        * (s1 - y1 * (c * c * c)) + 2 * (s2 - y2 * (c * c * c)), (l * (2 * c)) * (h - (u2 - u1)));
    fp::lemma_add((l * (2 * c)) * (u1 - x1 * (c * c)) - (l * (2 * c)) * (u2 - x2 * (c * c)) - 2
        * (s1 - y1 * (c * c * c)) + 2 * (s2 - y2 * (c * c * c)) - (l * (2 * c)) * (h - (u2 - u1)),
        (r - 2 * (s2 - s1)));
    fp::lemma_add((l * (2 * c)) * (u1 - x1 * (c * c)) - (l * (2 * c)) * (u2 - x2 * (c * c)) - 2
        * (s1 - y1 * (c * c * c)) + 2 * (s2 - y2 * (c * c * c)) - (l * (2 * c)) * (h - (u2 - u1)) +
        (r - 2 * (s2 - s1)), l * (z - 2 * (c * h)));
    fp::lemma_add((l * (2 * c)) * (u1 - x1 * (c * c)) - (l * (2 * c)) * (u2 - x2 * (c * c)) - 2
        * (s1 - y1 * (c * c * c)) + 2 * (s2 - y2 * (c * c * c)) - (l * (2 * c)) * (h - (u2 - u1)) +
        (r - 2 * (s2 - s1)) - l * (z - 2 * (c * h)), (2 * (c * c * c)) * ((y2 - y1) - l * (x2 -
        x1)));
    assert(r - l * z == (l * (2 * c)) * (u1 - x1 * (c * c)) - (l * (2 * c)) * (u2 - x2 * (c *
        c)) - 2 * (s1 - y1 * (c * c * c)) + 2 * (s2 - y2 * (c * c * c)) - (l * (2 * c)) * (h - (u2 -
        u1)) + (r - 2 * (s2 - s1)) - l * (z - 2 * (c * h)) + (2 * (c * c * c)) * ((y2 - y1) - l *
        (x2 - x1))) by {
        assert((l * z) == (z * l)) by {
            lemma_mul_is_commutative(l, z);
        }
        assert((l * (2 * c)) == (2 * (c * l))) by {
            lemma_outward(l, 2, c);
            lemma_mul_is_commutative(l, c);
        }
        assert((x1 * (c * c)) == (c * c * x1)) by {
            lemma_mul_is_associative(x1, c, c);
            lemma_mul_is_commutative(x1, c);
            lemma_exchange(c, x1, c);
        }
        assert(((l * (2 * c)) * (u1 - (x1 * (c * c)))) == (2 * (u1 * c * l)) - (2 * (c * c * c *
            x1 * l))) by {
            assert((l * (2 * c)) == (2 * (c * l)));
            assert((u1 - (x1 * (c * c))) == u1 - (c * c * x1));
            lemma_mul_is_distributive_sub((2 * (c * l)), u1, (c * c * x1));
            lemma_mul_is_associative(2, c * l, u1);
            lemma_exchange(c, l, u1);
            lemma_mul_is_commutative(c, u1);
            lemma_mul_is_associative(2, c * l, c * c * x1);
            lemma_mul_is_associative(c * l, c * c, x1);
            lemma_mul_is_associative(c * l, c, c);
            lemma_exchange(c, l, c);
            lemma_exchange(c * c, l, c);
            lemma_exchange(c * c * c, l, x1);
        }
        assert((x2 * (c * c)) == (c * c * x2)) by {
            lemma_mul_is_associative(x2, c, c);
            lemma_mul_is_commutative(x2, c);
            lemma_exchange(c, x2, c);
        }
        assert(((l * (2 * c)) * (u2 - (x2 * (c * c)))) == (2 * (u2 * c * l)) - (2 * (c * c * c *
            x2 * l))) by {
            assert((l * (2 * c)) == (2 * (c * l)));
            assert((u2 - (x2 * (c * c))) == u2 - (c * c * x2));
            lemma_mul_is_distributive_sub((2 * (c * l)), u2, (c * c * x2));
            lemma_mul_is_associative(2, c * l, u2);
            lemma_exchange(c, l, u2);
            lemma_mul_is_commutative(c, u2);
            lemma_mul_is_associative(2, c * l, c * c * x2);
            lemma_mul_is_associative(c * l, c * c, x2);
            lemma_mul_is_associative(c * l, c, c);
            lemma_exchange(c, l, c);
            lemma_exchange(c * c, l, c);
            lemma_exchange(c * c * c, l, x2);
        }
        assert((y1 * ((c * c) * c)) == (c * c * c * y1)) by {
            assert(((c * c) * c) == (c * c * c));
            lemma_mul_is_associative(y1, c * c, c);
            lemma_mul_is_associative(y1, c, c);
            lemma_mul_is_commutative(y1, c);
            lemma_exchange(c, y1, c);
            lemma_exchange(c * c, y1, c);
        }
        assert((y2 * ((c * c) * c)) == (c * c * c * y2)) by {
            assert(((c * c) * c) == (c * c * c));
            lemma_mul_is_associative(y2, c * c, c);
            lemma_mul_is_associative(y2, c, c);
            lemma_mul_is_commutative(y2, c);
            lemma_exchange(c, y2, c);
            lemma_exchange(c * c, y2, c);
        }
        assert(((l * (2 * c)) * (h - (u2 - u1))) == (2 * (u1 * c * l)) - (2 * (u2 * c * l)) + (2
            * (h * c * l))) by {
            assert((l * (2 * c)) == (2 * (c * l)));
            assert((h - (u2 - u1)) == u1 - u2 + h);
            lemma_mul_is_distributive_add((2 * (c * l)), u1 - u2, h);
            lemma_mul_is_distributive_sub((2 * (c * l)), u1, u2);
            lemma_mul_is_associative(2, c * l, u1);
            lemma_exchange(c, l, u1);
            lemma_mul_is_commutative(c, u1);
            lemma_mul_is_associative(2, c * l, u2);
            lemma_exchange(c, l, u2);
            lemma_mul_is_commutative(c, u2);
            lemma_mul_is_associative(2, c * l, h);
            lemma_exchange(c, l, h);
            lemma_mul_is_commutative(c, h);
        }
        assert((c * h) == (h * c)) by {
            lemma_mul_is_commutative(c, h);
        }
        assert((l * (z - (2 * (c * h)))) == (z * l) - (2 * (h * c * l))) by {
            assert((z - (2 * (c * h))) == z - (2 * (h * c)));
            lemma_mul_is_distributive_sub(l, z, (2 * (h * c)));
            lemma_mul_is_commutative(l, z);
            lemma_outward(l, 2, h * c);
            lemma_mul_is_associative(l, h, c);
            lemma_mul_is_commutative(l, h);
            lemma_exchange(h, l, c);
        }
        assert((l * (x2 - x1)) == 0 - (x1 * l) + (x2 * l)) by {
            assert((x2 - x1) == 0 - x1 + x2);
            lemma_mul_is_distributive_add(l, 0 - x1, x2);
            lemma_mul_is_distributive_sub(l, 0, x1);
            lemma_mul_is_commutative(l, x1);
            lemma_mul_is_commutative(l, x2);
        }
        assert(((2 * ((c * c) * c)) * ((y2 - y1) - (l * (x2 - x1)))) == 0 - (2 * (c * c * c *
            y1)) + (2 * (c * c * c * y2)) + (2 * (c * c * c * x1 * l)) - (2 * (c * c * c * x2 * l)))
            by {
            assert((2 * ((c * c) * c)) == (2 * (c * c * c)));
            assert(((y2 - y1) - (l * (x2 - x1))) == 0 - y1 + y2 + (x1 * l) - (x2 * l));
            lemma_mul_is_distributive_sub((2 * (c * c * c)), 0 - y1 + y2 + (x1 * l), (x2 * l));
            lemma_mul_is_distributive_add((2 * (c * c * c)), 0 - y1 + y2, (x1 * l));
            lemma_mul_is_distributive_add((2 * (c * c * c)), 0 - y1, y2);
            lemma_mul_is_distributive_sub((2 * (c * c * c)), 0, y1);
            lemma_mul_is_associative(2, c * c * c, y1);
            lemma_mul_is_associative(2, c * c * c, y2);
            lemma_mul_is_associative(2, c * c * c, x1 * l);
            lemma_mul_is_associative(c * c * c, x1, l);
            lemma_mul_is_associative(2, c * c * c, x2 * l);
            lemma_mul_is_associative(c * c * c, x2, l);
        }
    }
}

/// The first abscissa of a chord in Jacobian coordinates.
pub proof fn lemma_jacobian_chord_abscissa(u: int, h: int, v: int, z: int, c: int, x: int)
    requires
        fp::vanishes(u - x * (c * c)),
        fp::vanishes(v - u * (4 * (h * h))),
        fp::vanishes(z - 2 * (c * h)),
    ensures
        fp::vanishes(v - x * (z * z)),
{
    fp::lemma_scale(4 * (h * h), u - x * (c * c));
    fp::lemma_scale((x * (z + 2 * (c * h))), z - 2 * (c * h));
    fp::lemma_add((4 * (h * h)) * (u - x * (c * c)), (v - u * (4 * (h * h))));
    fp::lemma_add((4 * (h * h)) * (u - x * (c * c)) + (v - u * (4 * (h * h))), (x * (z + 2 * (c
        * h))) * (z - 2 * (c * h)));
    assert(v - x * (z * z) == (4 * (h * h)) * (u - x * (c * c)) + (v - u * (4 * (h * h))) - (x *
        (z + 2 * (c * h))) * (z - 2 * (c * h))) by {
        assert((x * (z * z)) == (z * z * x)) by {
            lemma_mul_is_associative(x, z, z);
            lemma_mul_is_commutative(x, z);
            lemma_exchange(z, x, z);
        }
        assert((x * (c * c)) == (c * c * x)) by {
            lemma_mul_is_associative(x, c, c);
            lemma_mul_is_commutative(x, c);
            lemma_exchange(c, x, c);
        }
        assert(((4 * (h * h)) * (u - (x * (c * c)))) == (4 * (u * h * h)) - (4 * (h * h * c * c
            * x))) by {
            assert((u - (x * (c * c))) == u - (c * c * x));
            lemma_mul_is_distributive_sub((4 * (h * h)), u, (c * c * x));
            lemma_mul_is_associative(4, h * h, u);
            lemma_exchange(h, h, u);
            lemma_mul_is_commutative(h, u);
            lemma_mul_is_associative(4, h * h, c * c * x);
            lemma_mul_is_associative(h * h, c * c, x);
            lemma_mul_is_associative(h * h, c, c);
        }
        assert((u * (4 * (h * h))) == (4 * (u * h * h))) by {
            lemma_outward(u, 4, h * h);
            lemma_mul_is_associative(u, h, h);
        }
        assert((c * h) == (h * c)) by {
            lemma_mul_is_commutative(c, h);
        }
        assert((x * (z + (2 * (c * h)))) == (z * x) + (2 * (h * c * x))) by {
            assert((z + (2 * (c * h))) == z + (2 * (h * c)));
            lemma_mul_is_distributive_add(x, z, (2 * (h * c)));
            lemma_mul_is_commutative(x, z);
            lemma_outward(x, 2, h * c);
            lemma_mul_is_associative(x, h, c);
            lemma_mul_is_commutative(x, h);
            lemma_exchange(h, x, c);
        }
        assert(((x * (z + (2 * (c * h)))) * (z - (2 * (c * h)))) == (z * z * x) - (4 * (h * h *
            c * c * x))) by {
            assert((x * (z + (2 * (c * h)))) == (z * x) + (2 * (h * c * x)));
            assert((z - (2 * (c * h))) == z - (2 * (h * c)));
            lemma_mul_is_distributive_add_other_way(z - (2 * (h * c)), (z * x), (2 * (h * c * x)));
            lemma_mul_is_distributive_sub((z * x), z, (2 * (h * c)));
            lemma_mul_is_distributive_sub((2 * (h * c * x)), z, (2 * (h * c)));
            lemma_exchange(z, x, z);
            lemma_outward(z * x, 2, h * c);
            lemma_mul_is_associative(z * x, h, c);
            lemma_exchange(z, x, h);
            lemma_mul_is_commutative(z, h);
            lemma_exchange(h * z, x, c);
            lemma_mul_is_associative(2, h * c * x, z);
            lemma_exchange(h * c, x, z);
            lemma_exchange(h, c, z);
            lemma_coefficients(2, h * c * x, 2, h * c);
            lemma_mul_is_associative(h * c * x, h, c);
            lemma_exchange(h * c, x, h);
            lemma_exchange(h, c, h);
            lemma_exchange(h * h * c, x, c);
        }
    }
}

/// The difference of the abscissas of a chord in Jacobian coordinates.
pub proof fn lemma_jacobian_chord_difference(u1: int, u2: int, h: int, j: int, z: int, c: int,
    x1: int, x2: int)
    requires
        fp::vanishes(u1 - x1 * (c * c)),
        fp::vanishes(u2 - x2 * (c * c)),
        fp::vanishes(h - (u2 - u1)),
        fp::vanishes(j - h * (4 * (h * h))),
        fp::vanishes(z - 2 * (c * h)),
    ensures
        fp::vanishes(j - (x2 - x1) * (z * z)),
{
    fp::lemma_scale((4 * (h * h)), u1 - x1 * (c * c));
    fp::lemma_scale(4 * (h * h), u2 - x2 * (c * c));
    fp::lemma_scale(4 * (h * h), h - (u2 - u1));
    fp::lemma_scale(((x2 - x1) * (z + 2 * (c * h))), z - 2 * (c * h));
    fp::lemma_zero();
    fp::lemma_add(0, (4 * (h * h)) * (u1 - x1 * (c * c)));
    fp::lemma_add(0 - (4 * (h * h)) * (u1 - x1 * (c * c)), (4 * (h * h)) * (u2 - x2 * (c * c)));
    fp::lemma_add(0 - (4 * (h * h)) * (u1 - x1 * (c * c)) + (4 * (h * h)) * (u2 - x2 * (c * c)),
        (4 * (h * h)) * (h - (u2 - u1)));
    fp::lemma_add(0 - (4 * (h * h)) * (u1 - x1 * (c * c)) + (4 * (h * h)) * (u2 - x2 * (c * c))
        + (4 * (h * h)) * (h - (u2 - u1)), (j - h * (4 * (h * h))));
    fp::lemma_add(0 - (4 * (h * h)) * (u1 - x1 * (c * c)) + (4 * (h * h)) * (u2 - x2 * (c * c))
        + (4 * (h * h)) * (h - (u2 - u1)) + (j - h * (4 * (h * h))), ((x2 - x1) * (z + 2 * (c * h)))
        * (z - 2 * (c * h)));
    assert(j - (x2 - x1) * (z * z) == 0 - (4 * (h * h)) * (u1 - x1 * (c * c)) + (4 * (h * h)) *
        (u2 - x2 * (c * c)) + (4 * (h * h)) * (h - (u2 - u1)) + (j - h * (4 * (h * h))) - ((x2 - x1)
        * (z + 2 * (c * h))) * (z - 2 * (c * h))) by {
        assert(((x2 - x1) * (z * z)) == 0 - (z * z * x1) + (z * z * x2)) by {
            assert((x2 - x1) == 0 - x1 + x2);
            lemma_mul_is_distributive_add_other_way((z * z), 0 - x1, x2);
            lemma_mul_is_distributive_sub_other_way((z * z), 0, x1);
            lemma_mul_is_associative(x1, z, z);
            lemma_mul_is_commutative(x1, z);
            lemma_exchange(z, x1, z);
            lemma_mul_is_associative(x2, z, z);
            lemma_mul_is_commutative(x2, z);
            lemma_exchange(z, x2, z);
        }
        assert((x1 * (c * c)) == (c * c * x1)) by {
            lemma_mul_is_associative(x1, c, c);
            lemma_mul_is_commutative(x1, c);
            lemma_exchange(c, x1, c);
        }
        assert(((4 * (h * h)) * (u1 - (x1 * (c * c)))) == (4 * (u1 * h * h)) - (4 * (h * h * c *
            c * x1))) by {
            assert((u1 - (x1 * (c * c))) == u1 - (c * c * x1));
            lemma_mul_is_distributive_sub((4 * (h * h)), u1, (c * c * x1));
            lemma_mul_is_associative(4, h * h, u1);
            lemma_exchange(h, h, u1);
            lemma_mul_is_commutative(h, u1);
            lemma_mul_is_associative(4, h * h, c * c * x1);
            lemma_mul_is_associative(h * h, c * c, x1);
            lemma_mul_is_associative(h * h, c, c);
        }
        assert((x2 * (c * c)) == (c * c * x2)) by {
            lemma_mul_is_associative(x2, c, c);
            lemma_mul_is_commutative(x2, c);
            lemma_exchange(c, x2, c);
        }
        assert(((4 * (h * h)) * (u2 - (x2 * (c * c)))) == (4 * (u2 * h * h)) - (4 * (h * h * c *
            c * x2))) by {
            assert((u2 - (x2 * (c * c))) == u2 - (c * c * x2));
            lemma_mul_is_distributive_sub((4 * (h * h)), u2, (c * c * x2));
            lemma_mul_is_associative(4, h * h, u2);
            lemma_exchange(h, h, u2);
            lemma_mul_is_commutative(h, u2);
            lemma_mul_is_associative(4, h * h, c * c * x2);
            lemma_mul_is_associative(h * h, c * c, x2);
            lemma_mul_is_associative(h * h, c, c);
        }
        assert(((4 * (h * h)) * (h - (u2 - u1))) == (4 * (u1 * h * h)) - (4 * (u2 * h * h)) + (4
            * (h * h * h))) by {
            assert((h - (u2 - u1)) == u1 - u2 + h);
            lemma_mul_is_distributive_add((4 * (h * h)), u1 - u2, h);
            lemma_mul_is_distributive_sub((4 * (h * h)), u1, u2);
            lemma_mul_is_associative(4, h * h, u1);
            lemma_exchange(h, h, u1);
            lemma_mul_is_commutative(h, u1);
            lemma_mul_is_associative(4, h * h, u2);
            lemma_exchange(h, h, u2);
            lemma_mul_is_commutative(h, u2);
            lemma_mul_is_associative(4, h * h, h);
        }
        assert((h * (4 * (h * h))) == (4 * (h * h * h))) by {
            lemma_outward(h, 4, h * h);
            lemma_mul_is_associative(h, h, h);
        }
        assert((c * h) == (h * c)) by {
            lemma_mul_is_commutative(c, h);
        }
        assert(((x2 - x1) * (z + (2 * (c * h)))) == 0 - (z * x1) + (z * x2) - (2 * (h * c * x1))
            + (2 * (h * c * x2))) by {
            assert((x2 - x1) == 0 - x1 + x2);
            assert((z + (2 * (c * h))) == z + (2 * (h * c)));
            lemma_mul_is_distributive_add_other_way(z + (2 * (h * c)), 0 - x1, x2);
            lemma_mul_is_distributive_sub_other_way(z + (2 * (h * c)), 0, x1);
            lemma_mul_is_distributive_add(x1, z, (2 * (h * c)));
            lemma_mul_is_distributive_add(x2, z, (2 * (h * c)));
            lemma_mul_is_commutative(x1, z);
            lemma_outward(x1, 2, h * c);
            lemma_mul_is_associative(x1, h, c);
            lemma_mul_is_commutative(x1, h);
            lemma_exchange(h, x1, c);
            lemma_mul_is_commutative(x2, z);
            lemma_outward(x2, 2, h * c);
            lemma_mul_is_associative(x2, h, c);
            lemma_mul_is_commutative(x2, h);
            lemma_exchange(h, x2, c);
        }
        assert((((x2 - x1) * (z + (2 * (c * h)))) * (z - (2 * (c * h)))) == 0 - (z * z * x1) +
            (z * z * x2) + (4 * (h * h * c * c * x1)) - (4 * (h * h * c * c * x2))) by {
            assert(((x2 - x1) * (z + (2 * (c * h)))) == 0 - (z * x1) + (z * x2) - (2 * (h * c *
                x1)) + (2 * (h * c * x2)));
            assert((z - (2 * (c * h))) == z - (2 * (h * c)));
            lemma_mul_is_distributive_add_other_way(z - (2 * (h * c)), 0 - (z * x1) + (z * x2) -
                (2 * (h * c * x1)), (2 * (h * c * x2)));
            lemma_mul_is_distributive_sub_other_way(z - (2 * (h * c)), 0 - (z * x1) + (z * x2),
                (2 * (h * c * x1)));
            lemma_mul_is_distributive_add_other_way(z - (2 * (h * c)), 0 - (z * x1), (z * x2));
            lemma_mul_is_distributive_sub_other_way(z - (2 * (h * c)), 0, (z * x1));
            lemma_mul_is_distributive_sub((z * x1), z, (2 * (h * c)));
            lemma_mul_is_distributive_sub((z * x2), z, (2 * (h * c)));
            lemma_mul_is_distributive_sub((2 * (h * c * x1)), z, (2 * (h * c)));
            lemma_mul_is_distributive_sub((2 * (h * c * x2)), z, (2 * (h * c)));
            lemma_exchange(z, x1, z);
            lemma_outward(z * x1, 2, h * c);
            lemma_mul_is_associative(z * x1, h, c);
            lemma_exchange(z, x1, h);
            lemma_mul_is_commutative(z, h);
            lemma_exchange(h * z, x1, c);
            lemma_exchange(z, x2, z);
            lemma_outward(z * x2, 2, h * c);
            lemma_mul_is_associative(z * x2, h, c);
            lemma_exchange(z, x2, h);
            lemma_exchange(h * z, x2, c);
            lemma_mul_is_associative(2, h * c * x1, z);
            lemma_exchange(h * c, x1, z);
            lemma_exchange(h, c, z);
            lemma_coefficients(2, h * c * x1, 2, h * c);
            lemma_mul_is_associative(h * c * x1, h, c);
            lemma_exchange(h * c, x1, h);
            lemma_exchange(h, c, h);
            lemma_exchange(h * h * c, x1, c);
            lemma_mul_is_associative(2, h * c * x2, z);
            lemma_exchange(h * c, x2, z);
            lemma_coefficients(2, h * c * x2, 2, h * c);
            lemma_mul_is_associative(h * c * x2, h, c);
            lemma_exchange(h * c, x2, h);
            lemma_exchange(h * h * c, x2, c);
        }
    }
}

/// The first ordinate of a chord in Jacobian coordinates.
pub proof fn lemma_jacobian_chord_ordinate(s: int, h: int, j: int, z: int, c: int, y: int)
    requires
        fp::vanishes(s - y * (c * c * c)),
        fp::vanishes(j - h * (4 * (h * h))),
        fp::vanishes(z - 2 * (c * h)),
    ensures
        fp::vanishes(2 * (s * j) - y * (z * z * z)),
{
    fp::lemma_scale(8 * (h * h * h), s - y * (c * c * c));
    fp::lemma_scale(2 * s, j - h * (4 * (h * h)));
    fp::lemma_scale((y * (z * z + z * (2 * (c * h)) + (2 * (c * h)) * (2 * (c * h)))), z - 2 *
        (c * h));
    fp::lemma_add((8 * (h * h * h)) * (s - y * (c * c * c)), (2 * s) * (j - h * (4 * (h * h))));
    fp::lemma_add((8 * (h * h * h)) * (s - y * (c * c * c)) + (2 * s) * (j - h * (4 * (h * h))),
        (y * (z * z + z * (2 * (c * h)) + (2 * (c * h)) * (2 * (c * h)))) * (z - 2 * (c * h)));
    assert(2 * (s * j) - y * (z * z * z) == (8 * (h * h * h)) * (s - y * (c * c * c)) + (2 * s)
        * (j - h * (4 * (h * h))) - (y * (z * z + z * (2 * (c * h)) + (2 * (c * h)) * (2 * (c *
        h)))) * (z - 2 * (c * h))) by {
        assert((y * ((z * z) * z)) == (z * z * z * y)) by {
            assert(((z * z) * z) == (z * z * z));
            lemma_mul_is_associative(y, z * z, z);
            lemma_mul_is_associative(y, z, z);
            lemma_mul_is_commutative(y, z);
            lemma_exchange(z, y, z);
            lemma_exchange(z * z, y, z);
        }
        assert((y * ((c * c) * c)) == (c * c * c * y)) by {
            assert(((c * c) * c) == (c * c * c));
            lemma_mul_is_associative(y, c * c, c);
            lemma_mul_is_associative(y, c, c);
            lemma_mul_is_commutative(y, c);
            lemma_exchange(c, y, c);
            lemma_exchange(c * c, y, c);
        }
        assert(((8 * ((h * h) * h)) * (s - (y * ((c * c) * c)))) == (8 * (s * h * h * h)) - (8 *
            (h * h * h * c * c * c * y))) by {
            assert((8 * ((h * h) * h)) == (8 * (h * h * h)));
            assert((s - (y * ((c * c) * c))) == s - (c * c * c * y));
            lemma_mul_is_distributive_sub((8 * (h * h * h)), s, (c * c * c * y));
            lemma_mul_is_associative(8, h * h * h, s);
            lemma_exchange(h * h, h, s);
            lemma_exchange(h, h, s);
            lemma_mul_is_commutative(h, s);
            lemma_mul_is_associative(8, h * h * h, c * c * c * y);
            lemma_mul_is_associative(h * h * h, c * c * c, y);
            lemma_mul_is_associative(h * h * h, c * c, c);
            lemma_mul_is_associative(h * h * h, c, c);
        }
        assert((h * (4 * (h * h))) == (4 * (h * h * h))) by {
            lemma_outward(h, 4, h * h);
            lemma_mul_is_associative(h, h, h);
        }
        assert(((2 * s) * (j - (h * (4 * (h * h))))) == (2 * (s * j)) - (8 * (s * h * h * h))) by {
            assert((j - (h * (4 * (h * h)))) == j - (4 * (h * h * h)));
            lemma_mul_is_distributive_sub((2 * s), j, (4 * (h * h * h)));
            lemma_mul_is_associative(2, s, j);
            lemma_coefficients(2, s, 4, h * h * h);
            lemma_mul_is_associative(s, h * h, h);
            lemma_mul_is_associative(s, h, h);
        }
        assert((c * h) == (h * c)) by {
            lemma_mul_is_commutative(c, h);
        }
        assert((z * (2 * (c * h))) == (2 * (h * z * c))) by {
            assert((2 * (c * h)) == (2 * (h * c)));
            lemma_outward(z, 2, h * c);
            lemma_mul_is_associative(z, h, c);
            lemma_mul_is_commutative(z, h);
        }
        assert(((2 * (c * h)) * (2 * (c * h))) == (4 * (h * h * c * c))) by {
            assert((2 * (c * h)) == (2 * (h * c)));
            lemma_coefficients(2, h * c, 2, h * c);
            lemma_mul_is_associative(h * c, h, c);
            lemma_exchange(h, c, h);
        }
        assert((y * (((z * z) + (z * (2 * (c * h)))) + ((2 * (c * h)) * (2 * (c * h))))) == (z *
            z * y) + (2 * (h * z * c * y)) + (4 * (h * h * c * c * y))) by {
            assert((((z * z) + (z * (2 * (c * h)))) + ((2 * (c * h)) * (2 * (c * h)))) == (z *
                z) + (2 * (h * z * c)) + (4 * (h * h * c * c)));
            lemma_mul_is_distributive_add(y, (z * z) + (2 * (h * z * c)), (4 * (h * h * c * c)));
            lemma_mul_is_distributive_add(y, (z * z), (2 * (h * z * c)));
            lemma_mul_is_associative(y, z, z);
            lemma_mul_is_commutative(y, z);
            lemma_exchange(z, y, z);
            lemma_outward(y, 2, h * z * c);
            lemma_mul_is_associative(y, h * z, c);
            lemma_mul_is_associative(y, h, z);
            lemma_mul_is_commutative(y, h);
            lemma_exchange(h, y, z);
            lemma_exchange(h * z, y, c);
            lemma_outward(y, 4, h * h * c * c);
            lemma_mul_is_associative(y, h * h * c, c);
            lemma_mul_is_associative(y, h * h, c);
            lemma_mul_is_associative(y, h, h);
            lemma_exchange(h, y, h);
            lemma_exchange(h * h, y, c);
            lemma_exchange(h * h * c, y, c);
        }
        assert(((y * (((z * z) + (z * (2 * (c * h)))) + ((2 * (c * h)) * (2 * (c * h))))) * (z -
            (2 * (c * h)))) == (z * z * z * y) - (8 * (h * h * h * c * c * c * y))) by {
            assert((y * (((z * z) + (z * (2 * (c * h)))) + ((2 * (c * h)) * (2 * (c * h))))) ==
                (z * z * y) + (2 * (h * z * c * y)) + (4 * (h * h * c * c * y)));
            assert((z - (2 * (c * h))) == z - (2 * (h * c)));
            lemma_mul_is_distributive_add_other_way(z - (2 * (h * c)), (z * z * y) + (2 * (h * z
                * c * y)), (4 * (h * h * c * c * y)));
            lemma_mul_is_distributive_add_other_way(z - (2 * (h * c)), (z * z * y), (2 * (h * z
                * c * y)));
            lemma_mul_is_distributive_sub((z * z * y), z, (2 * (h * c)));
            lemma_mul_is_distributive_sub((2 * (h * z * c * y)), z, (2 * (h * c)));
            lemma_mul_is_distributive_sub((4 * (h * h * c * c * y)), z, (2 * (h * c)));
            lemma_exchange(z * z, y, z);
            lemma_outward(z * z * y, 2, h * c);
            lemma_mul_is_associative(z * z * y, h, c);
            lemma_exchange(z * z, y, h);
            lemma_exchange(z, z, h);
            lemma_mul_is_commutative(z, h);
            lemma_exchange(h * z * z, y, c);
            lemma_mul_is_associative(2, h * z * c * y, z);
            lemma_exchange(h * z * c, y, z);
            lemma_exchange(h * z, c, z);
            lemma_coefficients(2, h * z * c * y, 2, h * c);
            lemma_mul_is_associative(h * z * c * y, h, c);
            lemma_exchange(h * z * c, y, h);
            lemma_exchange(h * z, c, h);
            lemma_exchange(h, z, h);
            lemma_exchange(h * h * z * c, y, c);
            lemma_mul_is_associative(4, h * h * c * c * y, z);
            lemma_exchange(h * h * c * c, y, z);
            lemma_exchange(h * h * c, c, z);
            lemma_exchange(h * h, c, z);
            lemma_coefficients(4, h * h * c * c * y, 2, h * c);
            lemma_mul_is_associative(h * h * c * c * y, h, c);
            lemma_exchange(h * h * c * c, y, h);
            lemma_exchange(h * h * c, c, h);
            lemma_exchange(h * h, c, h);
            lemma_exchange(h * h * h * c * c, y, c);
        }
    }
}

/// The abscissa of a sum in Jacobian coordinates.
pub proof fn lemma_jacobian_third_abscissa(u: int, m: int, j: int, v: int, z: int, l: int, x1:
    int, x2: int, x3: int)
    requires
        fp::vanishes(u - (m * m - j - 2 * v)),
        fp::vanishes(m - l * z),
        fp::vanishes(j - (x2 - x1) * (z * z)),
        fp::vanishes(v - x1 * (z * z)),
        fp::vanishes(x3 - (l * l - x1 - x2)),
    ensures
        fp::vanishes(u - x3 * (z * z)),
{
    fp::lemma_scale(m + l * z, m - l * z);
    fp::lemma_scale(2, v - x1 * (z * z));
    fp::lemma_scale((z * z), x3 - (l * l - x1 - x2));
    fp::lemma_add((u - (m * m - j - 2 * v)), (m + l * z) * (m - l * z));
    fp::lemma_add((u - (m * m - j - 2 * v)) + (m + l * z) * (m - l * z), (j - (x2 - x1) * (z * z)));
    fp::lemma_add((u - (m * m - j - 2 * v)) + (m + l * z) * (m - l * z) - (j - (x2 - x1) * (z *
        z)), 2 * (v - x1 * (z * z)));
    fp::lemma_add((u - (m * m - j - 2 * v)) + (m + l * z) * (m - l * z) - (j - (x2 - x1) * (z *
        z)) - 2 * (v - x1 * (z * z)), (z * z) * (x3 - (l * l - x1 - x2)));
    assert(u - x3 * (z * z) == (u - (m * m - j - 2 * v)) + (m + l * z) * (m - l * z) - (j - (x2
        - x1) * (z * z)) - 2 * (v - x1 * (z * z)) - (z * z) * (x3 - (l * l - x1 - x2))) by {
        assert((x3 * (z * z)) == (z * z * x3)) by {
            lemma_mul_is_associative(x3, z, z);
            lemma_mul_is_commutative(x3, z);
            lemma_exchange(z, x3, z);
        }
        assert((l * z) == (z * l)) by {
            lemma_mul_is_commutative(l, z);
        }
        assert(((m + (l * z)) * (m - (l * z))) == (m * m) - (z * z * l * l)) by {
            assert((m + (l * z)) == m + (z * l));
            assert((m - (l * z)) == m - (z * l));
            lemma_mul_is_distributive_add_other_way(m - (z * l), m, (z * l));
            lemma_mul_is_distributive_sub(m, m, (z * l));
            lemma_mul_is_distributive_sub((z * l), m, (z * l));
            lemma_mul_is_associative(m, z, l);
            lemma_exchange(z, l, m);
            lemma_mul_is_commutative(z, m);
            lemma_mul_is_associative(z * l, z, l);
            lemma_exchange(z, l, z);
        }
        assert(((x2 - x1) * (z * z)) == 0 - (z * z * x1) + (z * z * x2)) by {
            assert((x2 - x1) == 0 - x1 + x2);
            lemma_mul_is_distributive_add_other_way((z * z), 0 - x1, x2);
            lemma_mul_is_distributive_sub_other_way((z * z), 0, x1);
            lemma_mul_is_associative(x1, z, z);
            lemma_mul_is_commutative(x1, z);
            lemma_exchange(z, x1, z);
            lemma_mul_is_associative(x2, z, z);
            lemma_mul_is_commutative(x2, z);
            lemma_exchange(z, x2, z);
        }
        assert((x1 * (z * z)) == (z * z * x1)) by {
            lemma_mul_is_associative(x1, z, z);
            lemma_mul_is_commutative(x1, z);
            lemma_exchange(z, x1, z);
        }
        assert(((z * z) * (x3 - (((l * l) - x1) - x2))) == (z * z * x1) + (z * z * x2) + (z * z
            * x3) - (z * z * l * l)) by {
            assert((x3 - (((l * l) - x1) - x2)) == x1 + x2 + x3 - (l * l));
            lemma_mul_is_distributive_sub((z * z), x1 + x2 + x3, (l * l));
            lemma_mul_is_distributive_add((z * z), x1 + x2, x3);
            lemma_mul_is_distributive_add((z * z), x1, x2);
            lemma_mul_is_associative(z * z, l, l);
        }
    }
}

/// The ordinate of a sum in Jacobian coordinates.
pub proof fn lemma_jacobian_third_ordinate(w: int, u: int, m: int, v: int, e: int, z: int, l:
    int, x1: int, y1: int, x3: int, y3: int)
    requires
        fp::vanishes(w - (m * (v - u) - e)),
        fp::vanishes(m - l * z),
        fp::vanishes(v - x1 * (z * z)),
        fp::vanishes(u - x3 * (z * z)),
        fp::vanishes(e - y1 * (z * z * z)),
        fp::vanishes(y3 - (l * (x1 - x3) - y1)),
    ensures
        fp::vanishes(w - y3 * (z * z * z)),
{
    fp::lemma_scale(v - u, m - l * z);
    fp::lemma_scale(l * z, v - x1 * (z * z));
    fp::lemma_scale((l * z), u - x3 * (z * z));
    fp::lemma_scale((z * z * z), y3 - (l * (x1 - x3) - y1));
    fp::lemma_add((w - (m * (v - u) - e)), (v - u) * (m - l * z));
    fp::lemma_add((w - (m * (v - u) - e)) + (v - u) * (m - l * z), (l * z) * (v - x1 * (z * z)));
    fp::lemma_add((w - (m * (v - u) - e)) + (v - u) * (m - l * z) + (l * z) * (v - x1 * (z *
        z)), (l * z) * (u - x3 * (z * z)));
    fp::lemma_add((w - (m * (v - u) - e)) + (v - u) * (m - l * z) + (l * z) * (v - x1 * (z * z))
        - (l * z) * (u - x3 * (z * z)), (e - y1 * (z * z * z)));
    fp::lemma_add((w - (m * (v - u) - e)) + (v - u) * (m - l * z) + (l * z) * (v - x1 * (z * z))
        - (l * z) * (u - x3 * (z * z)) - (e - y1 * (z * z * z)), (z * z * z) * (y3 - (l * (x1 - x3)
        - y1)));
    assert(w - y3 * (z * z * z) == (w - (m * (v - u) - e)) + (v - u) * (m - l * z) + (l * z) *
        (v - x1 * (z * z)) - (l * z) * (u - x3 * (z * z)) - (e - y1 * (z * z * z)) - (z * z * z) *
        (y3 - (l * (x1 - x3) - y1))) by {
        assert((y3 * ((z * z) * z)) == (z * z * z * y3)) by {
            assert(((z * z) * z) == (z * z * z));
            lemma_mul_is_associative(y3, z * z, z);
            lemma_mul_is_associative(y3, z, z);
            lemma_mul_is_commutative(y3, z);
            lemma_exchange(z, y3, z);
            lemma_exchange(z * z, y3, z);
        }
        assert((m * (v - u)) == 0 - (u * m) + (m * v)) by {
            assert((v - u) == 0 - u + v);
            lemma_mul_is_distributive_add(m, 0 - u, v);
            lemma_mul_is_distributive_sub(m, 0, u);
            lemma_mul_is_commutative(m, u);
        }
        assert((l * z) == (z * l)) by {
            lemma_mul_is_commutative(l, z);
        }
        assert(((v - u) * (m - (l * z))) == 0 - (u * m) + (m * v) + (u * z * l) - (v * z * l)) by {
            assert((v - u) == 0 - u + v);
            assert((m - (l * z)) == m - (z * l));
            lemma_mul_is_distributive_add_other_way(m - (z * l), 0 - u, v);
            lemma_mul_is_distributive_sub_other_way(m - (z * l), 0, u);
            lemma_mul_is_distributive_sub(u, m, (z * l));
            lemma_mul_is_distributive_sub(v, m, (z * l));
            lemma_mul_is_associative(u, z, l);
            lemma_mul_is_commutative(v, m);
            lemma_mul_is_associative(v, z, l);
        }
        assert((x1 * (z * z)) == (z * z * x1)) by {
            lemma_mul_is_associative(x1, z, z);
            lemma_mul_is_commutative(x1, z);
            lemma_exchange(z, x1, z);
        }
        assert(((l * z) * (v - (x1 * (z * z)))) == (v * z * l) - (z * z * z * l * x1)) by {
            assert((l * z) == (z * l));
            assert((v - (x1 * (z * z))) == v - (z * z * x1));
            lemma_mul_is_distributive_sub((z * l), v, (z * z * x1));
            lemma_exchange(z, l, v);
            lemma_mul_is_commutative(z, v);
            lemma_mul_is_associative(z * l, z * z, x1);
            lemma_mul_is_associative(z * l, z, z);
            lemma_exchange(z, l, z);
            lemma_exchange(z * z, l, z);
        }
        assert((x3 * (z * z)) == (z * z * x3)) by {
            lemma_mul_is_associative(x3, z, z);
            lemma_mul_is_commutative(x3, z);
            lemma_exchange(z, x3, z);
        }
        assert(((l * z) * (u - (x3 * (z * z)))) == (u * z * l) - (z * z * z * l * x3)) by {
            assert((l * z) == (z * l));
            assert((u - (x3 * (z * z))) == u - (z * z * x3));
            lemma_mul_is_distributive_sub((z * l), u, (z * z * x3));
            lemma_exchange(z, l, u);
            lemma_mul_is_commutative(z, u);
            lemma_mul_is_associative(z * l, z * z, x3);
            lemma_mul_is_associative(z * l, z, z);
            lemma_exchange(z, l, z);
            lemma_exchange(z * z, l, z);
        }
        assert((y1 * ((z * z) * z)) == (z * z * z * y1)) by {
            assert(((z * z) * z) == (z * z * z));
            lemma_mul_is_associative(y1, z * z, z);
            lemma_mul_is_associative(y1, z, z);
            lemma_mul_is_commutative(y1, z);
            lemma_exchange(z, y1, z);
            lemma_exchange(z * z, y1, z);
        }
        assert((l * (x1 - x3)) == (l * x1) - (l * x3)) by {
            lemma_mul_is_distributive_sub(l, x1, x3);
        }
        assert((((z * z) * z) * (y3 - ((l * (x1 - x3)) - y1))) == (z * z * z * y1) + (z * z * z
            * y3) - (z * z * z * l * x1) + (z * z * z * l * x3)) by {
            assert(((z * z) * z) == (z * z * z));
            assert((y3 - ((l * (x1 - x3)) - y1)) == y1 + y3 - (l * x1) + (l * x3));
            lemma_mul_is_distributive_add((z * z * z), y1 + y3 - (l * x1), (l * x3));
            lemma_mul_is_distributive_sub((z * z * z), y1 + y3, (l * x1));
            lemma_mul_is_distributive_add((z * z * z), y1, y3);
            lemma_mul_is_associative(z * z * z, l, x1);
            lemma_mul_is_associative(z * z * z, l, x3);
        }
    }
}

/// The curve equation in Jacobian coordinates.
pub proof fn lemma_jacobian_equation(u: int, w: int, z: int, x: int, y: int, c: int)
    requires
        fp::vanishes(u - x * (z * z)),
        fp::vanishes(w - y * (z * z * z)),
    ensures
        fp::vanishes((w * w - (u * u * u - 3 * (u * (z * z * (z * z))) + c * (z * z * z * (z * z
            * z)))) - (z * z * z * (z * z * z)) * (y * y - (x * x * x - 3 * x + c))),
{
    fp::lemma_scale((u * u + u * (x * (z * z)) + (x * (z * z)) * (x * (z * z)) - 3 * (z * z * (z
        * z))), u - x * (z * z));
    fp::lemma_scale(w + y * (z * z * z), w - y * (z * z * z));
    fp::lemma_zero();
    fp::lemma_add(0, (u * u + u * (x * (z * z)) + (x * (z * z)) * (x * (z * z)) - 3 * (z * z *
        (z * z))) * (u - x * (z * z)));
    fp::lemma_add(0 - (u * u + u * (x * (z * z)) + (x * (z * z)) * (x * (z * z)) - 3 * (z * z *
        (z * z))) * (u - x * (z * z)), (w + y * (z * z * z)) * (w - y * (z * z * z)));
    assert((w * w - (u * u * u - 3 * (u * (z * z * (z * z))) + c * (z * z * z * (z * z * z)))) -
        (z * z * z * (z * z * z)) * (y * y - (x * x * x - 3 * x + c)) == 0 - (u * u + u * (x * (z *
        z)) + (x * (z * z)) * (x * (z * z)) - 3 * (z * z * (z * z))) * (u - x * (z * z)) + (w + y *
        (z * z * z)) * (w - y * (z * z * z))) by {
        assert(((z * z) * (z * z)) == (z * z * z * z)) by {
            lemma_mul_is_associative(z * z, z, z);
        }
        assert((u * ((z * z) * (z * z))) == (u * z * z * z * z)) by {
            assert(((z * z) * (z * z)) == (z * z * z * z));
            lemma_mul_is_associative(u, z * z * z, z);
            lemma_mul_is_associative(u, z * z, z);
            lemma_mul_is_associative(u, z, z);
        }
        assert((((z * z) * z) * ((z * z) * z)) == (z * z * z * z * z * z)) by {
            assert(((z * z) * z) == (z * z * z));
            lemma_mul_is_associative(z * z * z, z * z, z);
            lemma_mul_is_associative(z * z * z, z, z);
        }
        assert((c * (((z * z) * z) * ((z * z) * z))) == (z * z * z * z * z * z * c)) by {
            assert((((z * z) * z) * ((z * z) * z)) == (z * z * z * z * z * z));
            lemma_mul_is_associative(c, z * z * z * z * z, z);
            lemma_mul_is_associative(c, z * z * z * z, z);
            lemma_mul_is_associative(c, z * z * z, z);
            lemma_mul_is_associative(c, z * z, z);
            lemma_mul_is_associative(c, z, z);
            lemma_mul_is_commutative(c, z);
            lemma_exchange(z, c, z);
            lemma_exchange(z * z, c, z);
            lemma_exchange(z * z * z, c, z);
            lemma_exchange(z * z * z * z, c, z);
            lemma_exchange(z * z * z * z * z, c, z);
        }
        assert(((((z * z) * z) * ((z * z) * z)) * ((y * y) - ((((x * x) * x) - (3 * x)) + c)))
            == (3 * (z * z * z * z * z * z * x)) - (z * z * z * z * z * z * c) + (z * z * z * z * z
            * z * y * y) - (z * z * z * z * z * z * x * x * x)) by {
            assert((((z * z) * z) * ((z * z) * z)) == (z * z * z * z * z * z));
            assert(((y * y) - ((((x * x) * x) - (3 * x)) + c)) == (3 * x) - c + (y * y) - (x * x
                * x));
            lemma_mul_is_distributive_sub((z * z * z * z * z * z), (3 * x) - c + (y * y), (x * x
                * x));
            lemma_mul_is_distributive_add((z * z * z * z * z * z), (3 * x) - c, (y * y));
            lemma_mul_is_distributive_sub((z * z * z * z * z * z), (3 * x), c);
            lemma_outward(z * z * z * z * z * z, 3, x);
            lemma_mul_is_associative(z * z * z * z * z * z, y, y);
            lemma_mul_is_associative(z * z * z * z * z * z, x * x, x);
            lemma_mul_is_associative(z * z * z * z * z * z, x, x);
        }
        assert((x * (z * z)) == (z * z * x)) by {
            lemma_mul_is_associative(x, z, z);
            lemma_mul_is_commutative(x, z);
            lemma_exchange(z, x, z);
        }
        assert((u * (x * (z * z))) == (u * z * z * x)) by {
            assert((x * (z * z)) == (z * z * x));
            lemma_mul_is_associative(u, z * z, x);
            lemma_mul_is_associative(u, z, z);
        }
        assert(((x * (z * z)) * (x * (z * z))) == (z * z * z * z * x * x)) by {
            assert((x * (z * z)) == (z * z * x));
            lemma_mul_is_associative(z * z * x, z * z, x);
            lemma_mul_is_associative(z * z * x, z, z);
            lemma_exchange(z * z, x, z);
            lemma_exchange(z * z * z, x, z);
        }
        assert((((((u * u) + (u * (x * (z * z)))) + ((x * (z * z)) * (x * (z * z)))) - (3 * ((z
            * z) * (z * z)))) * (u - (x * (z * z)))) == (u * u * u) - (3 * (u * z * z * z * z)) + (3
            * (z * z * z * z * z * z * x)) - (z * z * z * z * z * z * x * x * x)) by {
            assert(((((u * u) + (u * (x * (z * z)))) + ((x * (z * z)) * (x * (z * z)))) - (3 *
                ((z * z) * (z * z)))) == (u * u) + (u * z * z * x) - (3 * (z * z * z * z)) + (z * z
                * z * z * x * x));
            assert((u - (x * (z * z))) == u - (z * z * x));
            lemma_mul_is_distributive_add_other_way(u - (z * z * x), (u * u) + (u * z * z * x) -
                (3 * (z * z * z * z)), (z * z * z * z * x * x));
            lemma_mul_is_distributive_sub_other_way(u - (z * z * x), (u * u) + (u * z * z * x),
                (3 * (z * z * z * z)));
            lemma_mul_is_distributive_add_other_way(u - (z * z * x), (u * u), (u * z * z * x));
            lemma_mul_is_distributive_sub((u * u), u, (z * z * x));
            lemma_mul_is_distributive_sub((u * z * z * x), u, (z * z * x));
            lemma_mul_is_distributive_sub((3 * (z * z * z * z)), u, (z * z * x));
            lemma_mul_is_distributive_sub((z * z * z * z * x * x), u, (z * z * x));
            lemma_mul_is_associative(u * u, z * z, x);
            lemma_mul_is_associative(u * u, z, z);
            lemma_exchange(u * z * z, x, u);
            lemma_exchange(u * z, z, u);
            lemma_exchange(u, z, u);
            lemma_mul_is_associative(u * z * z * x, z * z, x);
            lemma_mul_is_associative(u * z * z * x, z, z);
            lemma_exchange(u * z * z, x, z);
            lemma_exchange(u * z * z * z, x, z);
            lemma_mul_is_associative(3, z * z * z * z, u);
            lemma_exchange(z * z * z, z, u);
            lemma_exchange(z * z, z, u);
            lemma_exchange(z, z, u);
            lemma_mul_is_commutative(z, u);
            lemma_mul_is_associative(3, z * z * z * z, z * z * x);
            lemma_mul_is_associative(z * z * z * z, z * z, x);
            lemma_mul_is_associative(z * z * z * z, z, z);
            lemma_exchange(z * z * z * z * x, x, u);
            lemma_exchange(z * z * z * z, x, u);
            lemma_mul_is_associative(z * z * z * z * x * x, z * z, x);
            lemma_mul_is_associative(z * z * z * z * x * x, z, z);
            lemma_exchange(z * z * z * z * x, x, z);
            lemma_exchange(z * z * z * z, x, z);
            lemma_exchange(z * z * z * z * z * x, x, z);
            lemma_exchange(z * z * z * z * z, x, z);
        }
        assert((y * ((z * z) * z)) == (z * z * z * y)) by {
            assert(((z * z) * z) == (z * z * z));
            lemma_mul_is_associative(y, z * z, z);
            lemma_mul_is_associative(y, z, z);
            lemma_mul_is_commutative(y, z);
            lemma_exchange(z, y, z);
            lemma_exchange(z * z, y, z);
        }
        assert(((w + (y * ((z * z) * z))) * (w - (y * ((z * z) * z)))) == (w * w) - (z * z * z *
            z * z * z * y * y)) by {
            assert((w + (y * ((z * z) * z))) == w + (z * z * z * y));
            assert((w - (y * ((z * z) * z))) == w - (z * z * z * y));
            lemma_mul_is_distributive_add_other_way(w - (z * z * z * y), w, (z * z * z * y));
            lemma_mul_is_distributive_sub(w, w, (z * z * z * y));
            lemma_mul_is_distributive_sub((z * z * z * y), w, (z * z * z * y));
            lemma_mul_is_associative(w, z * z * z, y);
            lemma_mul_is_associative(w, z * z, z);
            lemma_mul_is_associative(w, z, z);
            lemma_exchange(z * z * z, y, w);
            lemma_exchange(z * z, z, w);
            lemma_exchange(z, z, w);
            lemma_mul_is_commutative(z, w);
            lemma_mul_is_associative(z * z * z * y, z * z * z, y);
            lemma_mul_is_associative(z * z * z * y, z * z, z);
            lemma_mul_is_associative(z * z * z * y, z, z);
            lemma_exchange(z * z * z, y, z);
            lemma_exchange(z * z * z * z, y, z);
            lemma_exchange(z * z * z * z * z, y, z);
        }
    }
}

} // verus!
