//! The base field of P-256: integers modulo
//! `2^256 - 2^224 + 2^192 + 2^96 - 1`.
//!
//! An element is held in Montgomery form, that is, multiplied by `2^256` and
//! reduced. Its view is the integer it stands for, in `0..p`.
use crate::bytes;
use crate::limbs;
use crate::limbs::U256;
use crate::math::fp;
use crate::math::identities;
use crate::math::modular;
use vstd::arithmetic::div_mod::*;
use vstd::arithmetic::mul::*;
use vstd::arithmetic::power::*;
use vstd::arithmetic::power2::*;
use vstd::prelude::*;

verus! {

/// An element of the base field.
#[derive(Clone, Copy, Debug)]
pub struct FieldElement {
    limbs: U256,
}

/// The inverse of `2^256` in the field.
spec fn radix_inverse() -> int {
    0xfffffffe00000003fffffffd0000000200000001fffffffe0000000300000000int
}

/// The modulus in limbs.
fn modulus() -> (r: U256)
    ensures
        r.value() == fp::p(),
{
    U256 {
        l0: 0xffff_ffff_ffff_ffff,
        l1: 0x0000_0000_ffff_ffff,
        l2: 0,
        l3: 0xffff_ffff_0000_0001,
    }
}

/// Subtracts the modulus from a number below twice the modulus, where it
/// fits. The number is `t` and a carry on top of it.
fn reduce_once(t: U256, top: u64) -> (r: U256)
    requires
        top <= 1,
        t.value() + top * limbs::modulus_256() < 2 * fp::p(),
    ensures
        r.value() < fp::p(),
        r.value() == t.value() + top * limbs::modulus_256() || r.value() == t.value() + top
            * limbs::modulus_256() - fp::p(),
{
    let (d, borrow) = t.sub_borrow(modulus());
    if top == 1 || borrow == 0 {
        d
    } else {
        t
    }
}

/// One step of Montgomery multiplication: adds `a * w`, makes the sum
/// divisible by `2^64` with a multiple of the modulus, and divides.
fn montgomery_step(t: U256, top: u64, a: U256, w: u64) -> (r: (U256, u64, Ghost<int>))
    requires
        top <= 1,
        t.value() + top * limbs::modulus_256() < 2 * fp::p(),
        a.value() < fp::p(),
    ensures
        r.1 <= 1,
        r.0.value() + r.1 * limbs::modulus_256() < 2 * fp::p(),
        (r.0.value() + r.1 * limbs::modulus_256()) * limbs::word() == t.value() + top
            * limbs::modulus_256() + a.value() * w + r.2@ * fp::p(),
{
    let (u0, c) = limbs::multiply_add(t.l0, a.l0, w, 0);
    let (u1, c) = limbs::multiply_add(t.l1, a.l1, w, c);
    let (u2, c) = limbs::multiply_add(t.l2, a.l2, w, c);
    let (u3, c) = limbs::multiply_add(t.l3, a.l3, w, c);
    let (u4, u5) = limbs::add_with_carry(top, c, 0);
    let ghost sum: int = t.value() + top * limbs::modulus_256() + a.value() * w;
    proof {
        // a * w, limb by limb
        let b1: int = 0x1_0000_0000_0000_0000;
        let b2: int = 0x1_0000_0000_0000_0000_0000_0000_0000_0000int;
        let b3: int = 0x1_0000_0000_0000_0000_0000_0000_0000_0000_0000_0000_0000_0000int;
        let wi = w as int;
        lemma_mul_is_distributive_add_other_way(wi, a.l0 + a.l1 * b1 + a.l2 * b2, a.l3 * b3);
        lemma_mul_is_distributive_add_other_way(wi, a.l0 + a.l1 * b1, a.l2 * b2);
        lemma_mul_is_distributive_add_other_way(wi, a.l0 as int, a.l1 * b1);
        identities::lemma_exchange(a.l1 as int, b1, wi);
        identities::lemma_exchange(a.l2 as int, b2, wi);
        identities::lemma_exchange(a.l3 as int, b3, wi);
        assert(sum == u0 + u1 * b1 + u2 * b2 + u3 * b3 + u4 * limbs::modulus_256() + u5
            * limbs::modulus_256() * b1);
    }
    // the modulus is -1 modulo 2^64, so that u0 is the multiple to add
    let m: u64 = u0;
    let (z, c) = limbs::multiply_add(u0, m, 0xffff_ffff_ffff_ffff, 0);
    let (r0, c) = limbs::multiply_add(u1, m, 0x0000_0000_ffff_ffff, c);
    let (r1, c) = limbs::multiply_add(u2, m, 0, c);
    let (r2, c) = limbs::multiply_add(u3, m, 0xffff_ffff_0000_0001, c);
    let (r3, c) = limbs::add_with_carry(u4, c, 0);
    let ghost total: int = sum + m * fp::p();
    let ghost high: int = u5 + c;
    proof {
        assert(z == 0);
        let quotient = r0 + r1 * 0x1_0000_0000_0000_0000int + r2
            * 0x1_0000_0000_0000_0000_0000_0000_0000_0000int + r3
            * 0x1_0000_0000_0000_0000_0000_0000_0000_0000_0000_0000_0000_0000int + high
            * limbs::modulus_256();
        assert(total == quotient * limbs::word());
        // the quotient stays below twice the modulus
        assert(a.value() * w <= (fp::p() - 1) * (limbs::word() - 1)) by {
            lemma_mul_upper_bound(a.value(), fp::p() - 1, w as int, limbs::word() - 1);
        }
        assert(quotient < 2 * fp::p());
        assert(high <= 1);
    }
    let r4: u64 = u5 + c;
    (U256 { l0: r0, l1: r1, l2: r2, l3: r3 }, r4, Ghost(m as int))
}

/// Montgomery multiplication: the product divided by `2^256`, reduced.
fn montgomery_multiply(a: U256, b: U256) -> (r: U256)
    requires
        a.value() < fp::p(),
        b.value() < fp::p(),
    ensures
        r.value() < fp::p(),
        fp::vanishes(r.value() * limbs::modulus_256() - a.value() * b.value()),
{
    let zero = U256 { l0: 0, l1: 0, l2: 0, l3: 0 };
    let (t, top, Ghost(m0)) = montgomery_step(zero, 0, a, b.l0);
    let (t, top, Ghost(m1)) = montgomery_step(t, top, a, b.l1);
    let (t, top, Ghost(m2)) = montgomery_step(t, top, a, b.l2);
    let (t, top, Ghost(m3)) = montgomery_step(t, top, a, b.l3);
    let r = reduce_once(t, top);
    proof {
        let b1: int = 0x1_0000_0000_0000_0000;
        let b2: int = 0x1_0000_0000_0000_0000_0000_0000_0000_0000int;
        let b3: int = 0x1_0000_0000_0000_0000_0000_0000_0000_0000_0000_0000_0000_0000int;
        let av = a.value();
        lemma_mul_is_distributive_add(av, b.l0 + b.l1 * b1 + b.l2 * b2, b.l3 * b3);
        lemma_mul_is_distributive_add(av, b.l0 + b.l1 * b1, b.l2 * b2);
        lemma_mul_is_distributive_add(av, b.l0 as int, b.l1 * b1);
        lemma_mul_is_associative(av, b.l1 as int, b1);
        lemma_mul_is_associative(av, b.l2 as int, b2);
        lemma_mul_is_associative(av, b.l3 as int, b3);
        let wide = t.value() + top * limbs::modulus_256();
        let m = m0 + m1 * b1 + m2 * b2 + m3 * b3;
        assert(wide * limbs::modulus_256() == av * b.value() + m * fp::p());
        let k = if r.value() == wide {
            m
        } else {
            m - limbs::modulus_256()
        };
        assert(r.value() * limbs::modulus_256() - av * b.value() == fp::p() * k);
        modular::lemma_multiple(fp::p(), k);
        fp::lemma_vanishes(fp::p() * k);
    }
    r
}

impl View for FieldElement {
    type V = int;

    /// The integer in `0..p` that this element stands for.
    closed spec fn view(&self) -> int {
        (self.limbs.value() * radix_inverse()) % fp::p()
    }
}

/// A number with an inverse is not 0.
proof fn lemma_unit(a: int, i: int)
    requires
        (a * i) % fp::p() == 1,
    ensures
        fp::vanishes(a * i - 1),
        !fp::vanishes(a),
{
    lemma_small_mod(1, fp::p() as nat);
    fp::lemma_same(a * i, 1);
    if fp::vanishes(a) {
        fp::lemma_scale(i, a);
        fp::lemma_vanishes(a * i);
    }
}

/// `2^256` is invertible in the field.
proof fn lemma_radix()
    ensures
        fp::vanishes(limbs::modulus_256() * radix_inverse() - 1),
        !fp::vanishes(limbs::modulus_256()),
{
    assert((0x1_0000_0000_0000_0000_0000_0000_0000_0000_0000_0000_0000_0000_0000_0000_0000_0000int
        * 0xfffffffe00000003fffffffd0000000200000001fffffffe0000000300000000int)
        % crate::math::certificates::field_modulus() == 1);
    lemma_unit(limbs::modulus_256(), radix_inverse());
}

impl FieldElement {
    /// The limbs hold a reduced number, so that equal elements have equal
    /// limbs.
    #[verifier::type_invariant]
    pub closed spec fn reduced(self) -> bool {
        self.limbs.value() < fp::p()
    }

    /// The view in terms of the limbs: it is canonical, and `2^256` times the
    /// view is the number in the limbs.
    proof fn lemma_view(self)
        ensures
            fp::canonical(self@),
            fp::vanishes(self@ * limbs::modulus_256() - self.limbs.value()),
    {
        let raw = self.limbs.value();
        let r = limbs::modulus_256();
        let i = radix_inverse();
        lemma_radix();
        fp::lemma_reduce(raw * i);
        fp::lemma_scale(r, self@ - raw * i);
        fp::lemma_scale(raw, r * i - 1);
        assert((self@ - raw * i) * r + raw * (r * i - 1) == self@ * r - raw) by {
            lemma_mul_is_distributive_sub_other_way(r, self@, raw * i);
            lemma_mul_is_distributive_sub(raw, r * i, 1);
            assert((raw * i) * r == raw * (r * i)) by (nonlinear_arith);
        }
        fp::lemma_add((self@ - raw * i) * r, raw * (r * i - 1));
    }

    /// A canonical number whose multiple by `2^256` is in the limbs is the
    /// view.
    proof fn lemma_view_is(self, v: int)
        requires
            fp::canonical(v),
            fp::vanishes(v * limbs::modulus_256() - self.limbs.value()),
        ensures
            self@ == v,
    {
        let r = limbs::modulus_256();
        lemma_radix();
        self.lemma_view();
        fp::lemma_add(v * r - self.limbs.value(), self@ * r - self.limbs.value());
        lemma_mul_is_commutative(v, r);
        lemma_mul_is_commutative(self@, r);
        fp::lemma_cancel_factor(r, v, self@);
        fp::lemma_unique(v, self@);
    }

    /// A reduced number whose multiple by `2^256` is congruent to the limbs is
    /// the view.
    proof fn lemma_number(self, n: int)
        requires
            fp::canonical(n),
            fp::vanishes(n * limbs::modulus_256() - self.limbs.value() * 1),
        ensures
            self@ == n,
    {
        self.lemma_view_is(n);
    }

    /// Views are canonical.
    pub proof fn lemma_bounds(self)
        ensures
            0 <= self@ < fp::p(),
    {
        self.lemma_view();
    }

    /// 0.
    pub fn zero() -> (r: FieldElement)
        ensures
            r@ == 0,
    {
        let r = FieldElement { limbs: U256 { l0: 0, l1: 0, l2: 0, l3: 0 } };
        proof {
            fp::lemma_zero();
            r.lemma_view_is(0);
        }
        r
    }

    /// 1.
    pub fn one() -> (r: FieldElement)
        ensures
            r@ == 1,
    {
        let r = FieldElement {
            limbs: U256 {
                l0: 0x0000_0000_0000_0001,
                l1: 0xffff_ffff_0000_0000,
                l2: 0xffff_ffff_ffff_ffff,
                l3: 0x0000_0000_ffff_fffe,
            },
        };
        proof {
            modular::lemma_multiple(fp::p(), 1);
            fp::lemma_vanishes(fp::p());
            r.lemma_view_is(1);
        }
        r
    }

    /// The element whose Montgomery form has the given limbs.
    pub fn from_montgomery_limbs(l: [u64; 4]) -> (r: FieldElement)
        requires
            FieldElement::limbs_value(l) < fp::p(),
        ensures
            fp::vanishes(r@ * limbs::modulus_256() - FieldElement::limbs_value(l)),
            0 <= r@ < fp::p(),
            (r@
                * 0x1_0000_0000_0000_0000_0000_0000_0000_0000_0000_0000_0000_0000_0000_0000_0000_0000int
                - (l[0] + l[1] * 0x1_0000_0000_0000_0000int + l[2]
                * 0x1_0000_0000_0000_0000_0000_0000_0000_0000int + l[3]
                * 0x1_0000_0000_0000_0000_0000_0000_0000_0000_0000_0000_0000_0000int)) % fp::p() == 0,
    {
        let r = FieldElement { limbs: U256 { l0: l[0], l1: l[1], l2: l[2], l3: l[3] } };
        proof {
            r.lemma_view();
            fp::lemma_vanishes(r@ * limbs::modulus_256() - FieldElement::limbs_value(l));
        }
        r
    }

    /// The element with a given Montgomery form.
    pub proof fn lemma_montgomery(self, n: int, v: int)
        requires
            fp::vanishes(self@ * limbs::modulus_256() - n),
            fp::canonical(v),
            (v * limbs::modulus_256()) % fp::p() == n,
        ensures
            self@ == v,
    {
        let r = limbs::modulus_256();
        lemma_radix();
        self.lemma_view();
        fp::lemma_reduce(v * r);
        fp::lemma_add(self@ * r - n, v * r - n);
        lemma_mul_is_commutative(v, r);
        lemma_mul_is_commutative(self@, r);
        fp::lemma_cancel_factor(r, self@, v);
        fp::lemma_unique(self@, v);
    }

    /// The number that four limbs write.
    pub open spec fn limbs_value(l: [u64; 4]) -> int {
        (U256 { l0: l[0], l1: l[1], l2: l[2], l3: l[3] }).value()
    }

    /// The element for a number that is already reduced.
    fn from_reduced(n: U256) -> (r: FieldElement)
        requires
            n.value() < fp::p(),
        ensures
            r@ == n.value(),
    {
        // 2^512 modulo p
        let square = U256 {
            l0: 0x0000_0000_0000_0003,
            l1: 0xffff_fffb_ffff_ffff,
            l2: 0xffff_ffff_ffff_fffe,
            l3: 0x0000_0004_ffff_fffd,
        };
        let l = montgomery_multiply(n, square);
        let r = FieldElement { limbs: l };
        proof {
            let m = limbs::modulus_256();
            lemma_radix();
            assert((m * m) % fp::p() == square.value());
            fp::lemma_reduce(m * m);
            // l * m == n * square == n * m * m
            fp::lemma_scale(n.value(), square.value() - m * m);
            assert(n.value() * (square.value() - m * m) == n.value() * square.value() - (n.value()
                * m) * m) by {
                lemma_mul_is_distributive_sub(n.value(), square.value(), m * m);
                lemma_mul_is_associative(n.value(), m, m);
            }
            fp::lemma_trans(
                l.value() * m,
                n.value() * square.value(),
                (n.value() * m) * m,
            );
            lemma_mul_is_commutative(l.value(), m);
            lemma_mul_is_commutative(n.value() * m, m);
            fp::lemma_cancel_factor(m, l.value(), n.value() * m);
            fp::lemma_shift(l.value(), n.value() * m);
            r.lemma_view_is(n.value());
        }
        r
    }

    /// The element for a small number.
    pub fn from_u64(n: u64) -> (r: FieldElement)
        ensures
            r@ == n,
    {
        FieldElement::from_reduced(U256 { l0: n, l1: 0, l2: 0, l3: 0 })
    }

    /// Reads 32 bytes, most significant first; `None` if the number is not
    /// below the modulus.
    pub fn from_be_bytes(b: [u8; 32]) -> (r: Option<FieldElement>)
        ensures
            r is Some <==> bytes::be_value(b@) < fp::p(),
            r matches Some(e) ==> e@ == bytes::be_value(b@),
    {
        let n = U256::from_be_bytes(&b);
        if n.less_than(modulus()) {
            Some(FieldElement::from_reduced(n))
        } else {
            None
        }
    }

    /// Writes 32 bytes, most significant first.
    pub fn to_be_bytes(self) -> (r: [u8; 32])
        ensures
            bytes::be_value(r@) == self@,
    {
        proof {
            use_type_invariant(self);
        }
        let n = montgomery_multiply(self.limbs, U256 { l0: 1, l1: 0, l2: 0, l3: 0 });
        proof {
            self.lemma_number(n.value());
        }
        n.to_be_bytes()
    }

    /// Whether this is 0.
    pub fn is_zero(self) -> (r: bool)
        ensures
            r == (self@ == 0),
    {
        self == FieldElement::zero()
    }

    /// Reduced elements with one view are equal.
    proof fn lemma_injective(a: FieldElement, b: FieldElement)
        requires
            a.reduced(),
            b.reduced(),
            a@ == b@,
        ensures
            a == b,
    {
        a.lemma_view();
        b.lemma_view();
        let m = limbs::modulus_256();
        fp::lemma_add(a@ * m - a.limbs.value(), b@ * m - b.limbs.value());
        fp::lemma_shift(b.limbs.value(), a.limbs.value());
        fp::lemma_unique(a.limbs.value(), b.limbs.value());
        a.limbs.lemma_injective(b.limbs);
    }

    /// Multiplies `acc` by the power of `base` that a word gives, and raises
    /// `base` to the power `2^64`.
    fn pow_word(acc: FieldElement, base: FieldElement, word: u64) -> (r: (
        FieldElement,
        FieldElement,
    ))
        ensures
            fp::vanishes(r.0@ - acc@ * pow(base@, word as nat)),
            fp::vanishes(r.1@ - pow(base@, pow2(64))),
    {
        let mut acc_now = acc;
        let mut base_now = base;
        let mut rest: u64 = word;
        proof {
            fp::lemma_zero();
            lemma2_to64();
            lemma2_to64_rest();
            lemma_pow1(base@);
        }
        for i in 0..64
            invariant
                fp::vanishes(acc_now@ * pow(base_now@, rest as nat) - acc@ * pow(
                    base@,
                    word as nat,
                )),
                fp::vanishes(base_now@ - pow(base@, pow2(i as nat))),
                rest < pow2((64 - i) as nat),
        {
            let ghost half: nat = rest as nat / 2;
            let ghost acc_before = acc_now@;
            let ghost base_before = base_now@;
            if rest % 2 == 1 {
                acc_now = acc_now * base_now;
            }
            base_now = base_now.square();
            proof {
                lemma_pow2_unfold((64 - i) as nat);
                lemma_pow2_unfold((i + 1) as nat);
                fp::lemma_reduce(acc_before * base_before);
                fp::lemma_reduce(base_before * base_before);
                lemma_pow_step(acc_before, base_before, acc_now@, base_now@, rest as nat);
                fp::lemma_trans(
                    acc_now@ * pow(base_now@, half),
                    acc_before * pow(base_before, rest as nat),
                    acc@ * pow(base@, word as nat),
                );
                // the base is squared
                let e = pow2(i as nat);
                fp::lemma_mul(base_before, pow(base@, e), base_before, pow(base@, e));
                lemma_pow_adds(base@, e, e);
                fp::lemma_trans(
                    base_now@,
                    base_before * base_before,
                    pow(base@, pow2((i + 1) as nat)),
                );
            }
            rest = rest / 2;
        }
        proof {
            lemma_pow0(base_now@);
        }
        (acc_now, base_now)
    }

    /// The power to a 256-bit exponent.
    fn pow_limbs(self, e: U256) -> (r: FieldElement)
        ensures
            r@ == pow(self@, e.value() as nat) % fp::p(),
    {
        let one = FieldElement::one();
        let (a0, b0) = FieldElement::pow_word(one, self, e.l0);
        let (a1, b1) = FieldElement::pow_word(a0, b0, e.l1);
        let (a2, b2) = FieldElement::pow_word(a1, b1, e.l2);
        let (a3, _) = FieldElement::pow_word(a2, b2, e.l3);
        proof {
            let x = self@;
            lemma2_to64_rest();
            let w = pow2(64);
            lemma_pow0(x);
            lemma_pow1(x);
            fp::lemma_zero();
            let (n0, n1, n2, n3) = (e.l0 as nat, e.l1 as nat, e.l2 as nat, e.l3 as nat);
            lemma_word(x, 0, 1, 1, x, n0, a0@, b0@);
            lemma_word(x, n0, w, a0@, b0@, n1, a1@, b1@);
            lemma_word(x, n0 + w * n1, w * w, a1@, b1@, n2, a2@, b2@);
            lemma_word(x, n0 + w * n1 + w * w * n2, w * w * w, a2@, b2@, n3, a3@, 0);
            assert(e.value() == n0 + w * n1 + w * w * n2 + w * w * w * n3) by {
                lemma_mul_is_commutative(w as int, n1 as int);
                lemma_mul_is_commutative((w * w) as int, n2 as int);
                lemma_mul_is_commutative((w * w * w) as int, n3 as int);
            }
            a3.lemma_view();
            fp::lemma_reduce(pow(x, e.value() as nat));
            fp::lemma_trans(a3@, pow(x, e.value() as nat), pow(x, e.value() as nat) % fp::p());
            fp::lemma_unique(a3@, pow(x, e.value() as nat) % fp::p());
        }
        a3
    }

    /// The inverse; `None` for 0.
    pub fn invert(self) -> (r: Option<FieldElement>)
        ensures
            r is Some <==> self@ != 0,
            r matches Some(e) ==> (self@ * e@) % fp::p() == 1,
    {
        if self.is_zero() {
            None
        } else {
            let e = self.pow_limbs(
                U256 {
                    l0: 0xffff_ffff_ffff_fffd,
                    l1: 0x0000_0000_ffff_ffff,
                    l2: 0,
                    l3: 0xffff_ffff_0000_0001,
                },
            );
            proof {
                self.lemma_view();
                lemma_fermat_inverse(self@, e@);
            }
            Some(e)
        }
    }

    /// A square root; `None` if there is none.
    ///
    /// The modulus is 3 modulo 4, so that the power to `(p + 1) / 4` is a root
    /// of every square.
    pub fn sqrt(self) -> (r: Option<FieldElement>)
        ensures
            r is Some <==> exists|y: int| #[trigger] ((y * y) % fp::p()) == self@,
            r matches Some(e) ==> (e@ * e@) % fp::p() == self@ && e@ == pow(
                self@,
                ((fp::p() + 1) / 4) as nat,
            ) % fp::p(),
    {
        let e = self.pow_limbs(
            U256 {
                l0: 0,
                l1: 0x0000_0000_4000_0000,
                l2: 0x4000_0000_0000_0000,
                l3: 0x3fff_ffff_c000_0000,
            },
        );
        proof {
            self.lemma_view();
            if exists|y: int| #[trigger] ((y * y) % fp::p()) == self@ {
                let y = choose|y: int| #[trigger] ((y * y) % fp::p()) == self@;
                lemma_root(self@, y, e@);
            }
        }
        if e.square() == self {
            Some(e)
        } else {
            None
        }
    }

    /// The square.
    pub fn square(self) -> (r: FieldElement)
        ensures
            r@ == (self@ * self@) % fp::p(),
    {
        self * self
    }
}

impl vstd::std_specs::cmp::PartialEqSpecImpl for FieldElement {
    open spec fn obeys_eq_spec() -> bool {
        true
    }

    open spec fn eq_spec(&self, other: &FieldElement) -> bool {
        self@ == other@
    }
}

impl PartialEq for FieldElement {
    fn eq(&self, other: &FieldElement) -> (r: bool)
        ensures
            r == (self@ == other@),
    {
        proof {
            use_type_invariant(self);
            use_type_invariant(other);
            if self@ == other@ {
                FieldElement::lemma_injective(*self, *other);
            }
        }
        self.limbs == other.limbs
    }
}

impl Eq for FieldElement {

}

impl vstd::std_specs::ops::AddSpecImpl for FieldElement {
    open spec fn obeys_add_spec() -> bool {
        false
    }

    open spec fn add_req(self, rhs: FieldElement) -> bool {
        true
    }

    open spec fn add_spec(self, rhs: FieldElement) -> FieldElement {
        self
    }
}

impl core::ops::Add for FieldElement {
    type Output = FieldElement;

    fn add(self, rhs: FieldElement) -> (r: FieldElement)
        ensures
            r@ == (self@ + rhs@) % fp::p(),
    {
        proof {
            use_type_invariant(self);
            use_type_invariant(rhs);
        }
        let (s, c) = self.limbs.add_carry(rhs.limbs);
        let r = FieldElement { limbs: reduce_once(s, c) };
        proof {
            lemma_linear(self, rhs, r, 1);
        }
        r
    }
}

impl vstd::std_specs::ops::SubSpecImpl for FieldElement {
    open spec fn obeys_sub_spec() -> bool {
        false
    }

    open spec fn sub_req(self, rhs: FieldElement) -> bool {
        true
    }

    open spec fn sub_spec(self, rhs: FieldElement) -> FieldElement {
        self
    }
}

impl core::ops::Sub for FieldElement {
    type Output = FieldElement;

    fn sub(self, rhs: FieldElement) -> (r: FieldElement)
        ensures
            r@ == (self@ - rhs@) % fp::p(),
    {
        proof {
            use_type_invariant(self);
            use_type_invariant(rhs);
        }
        let (d, borrow) = self.limbs.sub_borrow(rhs.limbs);
        let l = if borrow == 1 {
            let (s, _) = d.add_carry(modulus());
            s
        } else {
            d
        };
        let r = FieldElement { limbs: l };
        proof {
            lemma_linear(self, rhs, r, -1);
        }
        r
    }
}

/// One step of square and multiply.
proof fn lemma_pow_step(a: int, b: int, a_next: int, b_next: int, e: nat)
    requires
        fp::vanishes(b_next - b * b),
        e % 2 == 1 ==> fp::vanishes(a_next - a * b),
        e % 2 == 0 ==> a_next == a,
    ensures
        fp::vanishes(a_next * pow(b_next, e / 2) - a * pow(b, e)),
{
    let half = e / 2;
    lemma_power_cong(b_next, b * b, half);
    lemma_square_power(b, half);
    let double = half * 2;
    if e % 2 == 1 {
        fp::lemma_mul(a_next, a * b, pow(b_next, half), pow(b, double));
        lemma_pow_adds(b, 1, double);
        lemma_pow1(b);
        lemma_mul_is_associative(a, b, pow(b, double));
    } else {
        fp::lemma_zero();
        fp::lemma_mul(a_next, a, pow(b_next, half), pow(b, double));
    }
}

/// Powers of congruent numbers are congruent.
proof fn lemma_power_cong(a: int, b: int, e: nat)
    requires
        fp::vanishes(a - b),
    ensures
        fp::vanishes(pow(a, e) - pow(b, e)),
    decreases e,
{
    reveal(pow);
    if e == 0 {
        fp::lemma_zero();
    } else {
        lemma_power_cong(a, b, (e - 1) as nat);
        fp::lemma_mul(a, b, pow(a, (e - 1) as nat), pow(b, (e - 1) as nat));
    }
}

/// A power of a square.
proof fn lemma_square_power(b: int, e: nat)
    ensures
        pow(b * b, e) == pow(b, e * 2),
{
    lemma_pow1(b);
    lemma_pow_adds(b, 1, 1);
    lemma_pow_multiplies(b, 2, e);
    lemma_mul_is_commutative(2, e as int);
}

/// One word of an exponent: with `acc` the power to the words below and `base`
/// the power to the weight of the word.
proof fn lemma_word(
    x: int,
    below: nat,
    weight: nat,
    acc: int,
    base: int,
    n: nat,
    acc_next: int,
    base_next: int,
)
    requires
        fp::vanishes(acc - pow(x, below)),
        fp::vanishes(base - pow(x, weight)),
        fp::vanishes(acc_next - acc * pow(base, n)),
    ensures
        fp::vanishes(acc_next - pow(x, below + weight * n)),
        fp::vanishes(base_next - pow(base, pow2(64))) ==> fp::vanishes(
            base_next - pow(x, weight * pow2(64)),
        ),
{
    lemma_power_cong(base, pow(x, weight), n);
    lemma_pow_multiplies(x, weight, n);
    fp::lemma_mul(acc, pow(x, below), pow(base, n), pow(x, weight * n));
    lemma_pow_adds(x, below, weight * n);
    fp::lemma_trans(acc_next, acc * pow(base, n), pow(x, below + weight * n));
    lemma_power_cong(base, pow(x, weight), pow2(64));
    lemma_pow_multiplies(x, weight, pow2(64));
    if fp::vanishes(base_next - pow(base, pow2(64))) {
        fp::lemma_trans(base_next, pow(base, pow2(64)), pow(x, weight * pow2(64)));
    }
}

/// The power to `p - 2` is the inverse.
proof fn lemma_fermat_inverse(a: int, e: int)
    requires
        fp::canonical(a),
        a != 0,
        e == pow(a, (fp::p() - 2) as nat) % fp::p(),
    ensures
        (a * e) % fp::p() == 1,
{
    let q = pow(a, (fp::p() - 2) as nat);
    fp::lemma_canonical(a);
    fp::lemma_fermat(a);
    fp::lemma_reduce(q);
    fp::lemma_zero();
    fp::lemma_mul(a, a, e, q);
    lemma_pow1(a);
    lemma_pow_adds(a, 1, (fp::p() - 2) as nat);
    fp::lemma_trans(a * e, a * q, 1);
    fp::lemma_same(a * e, 1);
    lemma_small_mod(1, fp::p() as nat);
}

/// The power to `(p + 1) / 4` is a root of every square.
proof fn lemma_root(a: int, y: int, e: int)
    requires
        fp::canonical(a),
        (y * y) % fp::p() == a,
        e == pow(a, ((fp::p() + 1) / 4) as nat) % fp::p(),
    ensures
        (e * e) % fp::p() == a,
{
    let k = ((fp::p() + 1) / 4) as nat;
    let q = pow(a, k);
    fp::lemma_reduce(y * y);
    fp::lemma_reduce(q);
    // e^2 == a^(2 k) == y^(4 k) == y^(p + 1)
    fp::lemma_mul(e, q, e, q);
    lemma_pow_adds(a, k, k);
    lemma_power_cong(a, y * y, k + k);
    lemma_square_power(y, k + k);
    assert((k + k) * 2 == fp::p() + 1);
    let z = pow(y, (fp::p() + 1) as nat);
    fp::lemma_trans(e * e, q * q, z);
    lemma_pow1(y);
    lemma_pow_adds(y, 1, 1);
    lemma_pow_adds(y, 2, (fp::p() - 1) as nat);
    let f = pow(y, (fp::p() - 1) as nat);
    assert(z == (y * y) * f);
    if fp::vanishes(y) {
        fp::lemma_scale(y, y);
        fp::lemma_scale(f, y * y);
        fp::lemma_add(z, y * y);
    } else {
        fp::lemma_fermat(y);
        fp::lemma_scale(y * y, f - 1);
        lemma_mul_is_distributive_sub(y * y, f, 1);
    }
    fp::lemma_trans(e * e, z, y * y);
    fp::lemma_same(e * e, y * y);
}

/// A sum or difference of limbs, up to one modulus, is the sum or difference
/// of the views.
proof fn lemma_linear(a: FieldElement, b: FieldElement, r: FieldElement, sign: int)
    requires
        sign == 1 || sign == -1,
        r.limbs.value() == a.limbs.value() + sign * b.limbs.value() || r.limbs.value()
            == a.limbs.value() + sign * b.limbs.value() - sign * fp::p(),
    ensures
        r@ == (a@ + sign * b@) % fp::p(),
{
    let m = limbs::modulus_256();
    let (sb, sr) = if sign == 1 {
        (b@, b.limbs.value())
    } else {
        (-b@, -b.limbs.value())
    };
    a.lemma_view();
    b.lemma_view();
    modular::lemma_multiple(fp::p(), 1);
    fp::lemma_vanishes(fp::p());
    fp::lemma_zero();
    assert(sign * b@ == sb && sign * b.limbs.value() == sr && sign * fp::p() == if sign == 1 {
        fp::p()
    } else {
        -fp::p()
    }) by {
        if sign == 1 {
            lemma_mul_basics(b@);
            lemma_mul_basics(b.limbs.value());
        } else {
            lemma_mul_unary_negation(1, b@);
            lemma_mul_unary_negation(1, b.limbs.value());
        }
    }
    let v = (a@ + sb) % fp::p();
    fp::lemma_reduce(a@ + sb);
    fp::lemma_scale(m, v - (a@ + sb));
    // v m == (a + sb) m, which is the sum of the limbs
    fp::lemma_add(0, b@ * m - b.limbs.value());
    fp::lemma_add(a@ * m - a.limbs.value(), sb * m - sr);
    fp::lemma_add((v - (a@ + sb)) * m, (a@ * m - a.limbs.value()) + (sb * m - sr));
    assert(fp::vanishes(v * m - (a.limbs.value() + sr)));
    fp::lemma_add(v * m - (a.limbs.value() + sr), fp::p());
    r.lemma_view_is(v);
}

/// A Montgomery product of limbs is the product of the views.
proof fn lemma_product(x: FieldElement, y: FieldElement, r: FieldElement)
    requires
        fp::vanishes(r.limbs.value() * limbs::modulus_256() - x.limbs.value() * y.limbs.value()),
    ensures
        r@ == (x@ * y@) % fp::p(),
{
    let m = limbs::modulus_256();
    let (a, b, c) = (x@, y@, r.limbs.value());
    lemma_radix();
    x.lemma_view();
    y.lemma_view();
    let v = (a * b) % fp::p();
    fp::lemma_reduce(a * b);
    fp::lemma_mul(a * m, x.limbs.value(), b * m, y.limbs.value());
    // c m == limbs of a times limbs of b == (a m) (b m) == ((a b) m) m
    fp::lemma_shift((a * m) * (b * m), x.limbs.value() * y.limbs.value());
    fp::lemma_trans(c * m, x.limbs.value() * y.limbs.value(), (a * m) * (b * m));
    assert((a * m) * (b * m) == m * ((a * b) * m)) by (nonlinear_arith);
    lemma_mul_is_commutative(c, m);
    fp::lemma_cancel_factor(m, c, (a * b) * m);
    fp::lemma_shift(c, (a * b) * m);
    fp::lemma_scale(m, v - a * b);
    lemma_mul_is_distributive_sub_other_way(m, v, a * b);
    fp::lemma_trans(v * m, (a * b) * m, c);
    r.lemma_view_is(v);
}

impl vstd::std_specs::ops::MulSpecImpl for FieldElement {
    open spec fn obeys_mul_spec() -> bool {
        false
    }

    open spec fn mul_req(self, rhs: FieldElement) -> bool {
        true
    }

    open spec fn mul_spec(self, rhs: FieldElement) -> FieldElement {
        self
    }
}

impl core::ops::Mul for FieldElement {
    type Output = FieldElement;

    fn mul(self, rhs: FieldElement) -> (r: FieldElement)
        ensures
            r@ == (self@ * rhs@) % fp::p(),
    {
        proof {
            use_type_invariant(self);
            use_type_invariant(rhs);
        }
        let r = FieldElement { limbs: montgomery_multiply(self.limbs, rhs.limbs) };
        proof {
            lemma_product(self, rhs, r);
        }
        r
    }
}

impl vstd::std_specs::ops::NegSpecImpl for FieldElement {
    open spec fn obeys_neg_spec() -> bool {
        false
    }

    open spec fn neg_req(self) -> bool {
        true
    }

    open spec fn neg_spec(self) -> FieldElement {
        self
    }
}

impl core::ops::Neg for FieldElement {
    type Output = FieldElement;

    fn neg(self) -> (r: FieldElement)
        ensures
            r@ == (-self@) % fp::p(),
    {
        FieldElement::zero() - self
    }
}

} // verus!
