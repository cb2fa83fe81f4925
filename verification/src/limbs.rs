//! 256-bit unsigned integers in four 64-bit limbs.
use crate::bytes;
use vstd::arithmetic::mul::*;
use vstd::prelude::*;

verus! {

/// A 256-bit unsigned integer, least significant limb first.
#[derive(Clone, Copy, Debug, PartialEq, Eq, Structural)]
pub struct U256 {
    pub l0: u64,
    pub l1: u64,
    pub l2: u64,
    pub l3: u64,
}

/// `2^64`.
pub open spec fn word() -> int {
    0x1_0000_0000_0000_0000int
}

/// `2^256`.
pub open spec fn modulus_256() -> int {
    0x1_0000_0000_0000_0000_0000_0000_0000_0000_0000_0000_0000_0000_0000_0000_0000_0000int
}

/// `a + b + c` as a low limb and a high limb.
pub fn add_with_carry(a: u64, b: u64, c: u64) -> (r: (u64, u64))
    ensures
        r.0 + r.1 * word() == a + b + c,
        r.1 <= 2,
        c <= 1 ==> r.1 <= 1,
{
    let t: u128 = a as u128 + b as u128 + c as u128;
    split(t)
}

/// `a - b - c` as a limb and a borrow.
pub fn sub_with_borrow(a: u64, b: u64, c: u64) -> (r: (u64, u64))
    requires
        c <= 1,
    ensures
        r.0 - r.1 * word() == a - b - c,
        r.1 <= 1,
{
    let have: u128 = a as u128;
    let take: u128 = b as u128 + c as u128;
    if have >= take {
        ((have - take) as u64, 0)
    } else {
        ((have + 0x1_0000_0000_0000_0000u128 - take) as u64, 1)
    }
}

/// `a + b * c + d` as a low limb and a high limb.
pub fn multiply_add(a: u64, b: u64, c: u64, d: u64) -> (r: (u64, u64))
    ensures
        r.0 + r.1 * word() == a + b * c + d,
{
    proof {
        lemma_mul_upper_bound(b as int, u64::MAX as int, c as int, u64::MAX as int);
        lemma_mul_nonnegative(b as int, c as int);
    }
    let t: u128 = a as u128 + (b as u128) * (c as u128) + d as u128;
    split(t)
}

/// The two halves of a 128-bit number.
fn split(t: u128) -> (r: (u64, u64))
    ensures
        r.0 + r.1 * word() == t,
{
    let lo: u64 = (t % 0x1_0000_0000_0000_0000u128) as u64;
    let hi: u64 = (t / 0x1_0000_0000_0000_0000u128) as u64;
    (lo, hi)
}

/// Eight bytes from `start` on, most significant first.
fn read_limb(b: &[u8; 32], start: usize) -> (r: u64)
    requires
        start + 8 <= 32,
    ensures
        r == b@[start as int] * 0x100_0000_0000_0000 + b@[start + 1] * 0x1_0000_0000_0000
            + b@[start + 2] * 0x100_0000_0000 + b@[start + 3] * 0x1_0000_0000 + b@[start + 4]
            * 0x100_0000 + b@[start + 5] * 0x1_0000 + b@[start + 6] * 0x100 + b@[start + 7],
{
    b[start] as u64 * 0x100_0000_0000_0000 + b[start + 1] as u64 * 0x1_0000_0000_0000
        + b[start + 2] as u64 * 0x100_0000_0000 + b[start + 3] as u64 * 0x1_0000_0000
        + b[start + 4] as u64 * 0x100_0000 + b[start + 5] as u64 * 0x1_0000
        + b[start + 6] as u64 * 0x100 + b[start + 7] as u64
}

/// Writes a limb into eight bytes from `start` on, most significant first.
fn write_limb(b: &mut [u8; 32], start: usize, limb: u64)
    requires
        start + 8 <= 32,
    ensures
        limb == final(b)@[start as int] * 0x100_0000_0000_0000 + final(b)@[start + 1]
            * 0x1_0000_0000_0000 + final(b)@[start + 2] * 0x100_0000_0000 + final(b)@[start + 3]
            * 0x1_0000_0000 + final(b)@[start + 4] * 0x100_0000 + final(b)@[start + 5] * 0x1_0000
            + final(b)@[start + 6] * 0x100 + final(b)@[start + 7],
        forall|i: int|
            0 <= i < 32 && !(start <= i < start + 8) ==> final(b)@[i] == old(b)@[i],
{
    let q1: u64 = limb / 256;
    let q2: u64 = q1 / 256;
    let q3: u64 = q2 / 256;
    let q4: u64 = q3 / 256;
    let q5: u64 = q4 / 256;
    let q6: u64 = q5 / 256;
    let q7: u64 = q6 / 256;
    b[start + 7] = (limb % 256) as u8;
    b[start + 6] = (q1 % 256) as u8;
    b[start + 5] = (q2 % 256) as u8;
    b[start + 4] = (q3 % 256) as u8;
    b[start + 3] = (q4 % 256) as u8;
    b[start + 2] = (q5 % 256) as u8;
    b[start + 1] = (q6 % 256) as u8;
    b[start] = q7 as u8;
}

/// A number determines its lowest limb and the rest.
proof fn lemma_lowest(a: u64, b: int, c: u64, d: int)
    requires
        a + word() * b == c + word() * d,
    ensures
        a == c,
        b == d,
{
}

impl U256 {
    /// The number that the limbs write.
    pub open spec fn value(self) -> int {
        self.l0 + self.l1 * 0x1_0000_0000_0000_0000 + self.l2
            * 0x1_0000_0000_0000_0000_0000_0000_0000_0000int + self.l3
            * 0x1_0000_0000_0000_0000_0000_0000_0000_0000_0000_0000_0000_0000int
    }

    /// Two integers with the same value have the same limbs.
    pub proof fn lemma_injective(self, other: U256)
        requires
            self.value() == other.value(),
        ensures
            self == other,
    {
        let (a, b) = (self.l2 + word() * self.l3, other.l2 + word() * other.l3);
        lemma_lowest(self.l0, self.l1 + word() * a, other.l0, other.l1 + word() * b);
        lemma_lowest(self.l1, a, other.l1, b);
        lemma_lowest(self.l2, self.l3 as int, other.l2, other.l3 as int);
    }

    /// The sum, with the carry out of the top limb.
    pub fn add_carry(self, other: U256) -> (r: (U256, u64))
        ensures
            r.0.value() + r.1 * modulus_256() == self.value() + other.value(),
            r.1 <= 1,
    {
        let (l0, c) = add_with_carry(self.l0, other.l0, 0);
        let (l1, c) = add_with_carry(self.l1, other.l1, c);
        let (l2, c) = add_with_carry(self.l2, other.l2, c);
        let (l3, c) = add_with_carry(self.l3, other.l3, c);
        (U256 { l0, l1, l2, l3 }, c)
    }

    /// The difference, with the borrow out of the top limb.
    pub fn sub_borrow(self, other: U256) -> (r: (U256, u64))
        ensures
            r.0.value() - r.1 * modulus_256() == self.value() - other.value(),
            r.1 <= 1,
            r.1 == 1 <==> self.value() < other.value(),
    {
        let (l0, c) = sub_with_borrow(self.l0, other.l0, 0);
        let (l1, c) = sub_with_borrow(self.l1, other.l1, c);
        let (l2, c) = sub_with_borrow(self.l2, other.l2, c);
        let (l3, c) = sub_with_borrow(self.l3, other.l3, c);
        (U256 { l0, l1, l2, l3 }, c)
    }

    /// Whether this number is smaller than `other`.
    pub fn less_than(self, other: U256) -> (r: bool)
        ensures
            r == (self.value() < other.value()),
    {
        let (_, borrow) = self.sub_borrow(other);
        borrow == 1
    }

    /// Reads 32 bytes, most significant first.
    pub fn from_be_bytes(b: &[u8; 32]) -> (r: U256)
        ensures
            r.value() == bytes::be_value(b@),
    {
        proof {
            reveal_with_fuel(bytes::be_prefix, 33);
        }
        U256 {
            l0: read_limb(b, 24),
            l1: read_limb(b, 16),
            l2: read_limb(b, 8),
            l3: read_limb(b, 0),
        }
    }

    /// Writes 32 bytes, most significant first.
    pub fn to_be_bytes(self) -> (r: [u8; 32])
        ensures
            bytes::be_value(r@) == self.value(),
    {
        let mut b: [u8; 32] = [0u8; 32];
        write_limb(&mut b, 24, self.l0);
        write_limb(&mut b, 16, self.l1);
        write_limb(&mut b, 8, self.l2);
        write_limb(&mut b, 0, self.l3);
        proof {
            reveal_with_fuel(bytes::be_prefix, 33);
        }
        b
    }
}

} // verus!
