//! Multipliers of points.
use crate::bytes;
use crate::encoding;
use crate::limbs::U256;
use crate::math::certificates;
use crate::Endianness;
use vstd::prelude::*;

verus! {

/// A multiplier of points: a number below the group order.
pub struct Scalar {}

impl Scalar {
    /// Whether 32 bytes write a number below the group order.
    pub fn is_canonical(bytes: &[u8; 32], endianness: Endianness) -> (r: bool)
        ensures
            r == (encoding::number(bytes@, endianness) < certificates::group_order()),
            endianness == Endianness::Big ==> r == (bytes::be_value(bytes@)
                < 0xffffffff00000000ffffffffffffffffbce6faada7179e84f3b9cac2fc632551int),
            endianness == Endianness::Little ==> r == (bytes::be_value(bytes@.reverse())
                < 0xffffffff00000000ffffffffffffffffbce6faada7179e84f3b9cac2fc632551int),
    {
        let order = U256 {
            l0: 0xf3b9_cac2_fc63_2551,
            l1: 0xbce6_faad_a717_9e84,
            l2: 0xffff_ffff_ffff_ffff,
            l3: 0xffff_ffff_0000_0000,
        };
        U256::from_be_bytes(&encoding::to_big_endian(*bytes, endianness)).less_than(order)
    }
}

} // verus!
