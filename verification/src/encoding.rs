//! The encodings of points as byte strings.
use crate::bytes;
use crate::math::curve;
use crate::math::curve::Point;
use crate::Endianness;
use vstd::prelude::*;

verus! {

/// The number that a byte string writes.
pub open spec fn number(s: Seq<u8>, endianness: Endianness) -> int {
    match endianness {
        Endianness::Big => bytes::be_value(s),
        Endianness::Little => bytes::be_value(s.reverse()),
    }
}

/// `s` is the uncompressed encoding of `p`: the two coordinates, 32 bytes each,
/// and 64 zero bytes for the point at infinity.
pub open spec fn uncompressed(p: Point, s: Seq<u8>, endianness: Endianness) -> bool {
    &&& s.len() == 64
    &&& match p {
        Point::Infinity => forall|i: int| 0 <= i < 64 ==> s[i] == 0,
        Point::Affine { x, y } => {
            &&& number(s.subrange(0, 32), endianness) == x
            &&& number(s.subrange(32, 64), endianness) == y
        },
    }
}

/// The point that an uncompressed encoding is read as: the point at infinity
/// for 64 zero bytes, and otherwise the point with the two coordinates, if it is
/// on the curve.
pub open spec fn read_uncompressed(s: Seq<u8>, endianness: Endianness) -> Option<Point> {
    let p = Point::Affine {
        x: number(s.subrange(0, 32), endianness),
        y: number(s.subrange(32, 64), endianness),
    };
    if forall|i: int| 0 <= i < 64 ==> s[i] == 0 {
        Some(Point::Infinity)
    } else if curve::on_curve(p) {
        Some(p)
    } else {
        None
    }
}

/// `s` is the compressed encoding of `p`: a byte that is 2 for an even ordinate
/// and 3 for an odd one, and the abscissa in 32 bytes. The point at infinity
/// has none.
pub open spec fn compressed(p: Point, s: Seq<u8>, endianness: Endianness) -> bool {
    &&& s.len() == 33
    &&& match p {
        Point::Infinity => false,
        Point::Affine { x, y } => {
            &&& s[0] == 2 + y % 2
            &&& number(s.subrange(1, 33), endianness) == x
        },
    }
}

/// The number that 32 bytes write, with the bytes in big-endian order.
pub fn to_big_endian(b: [u8; 32], endianness: Endianness) -> (r: [u8; 32])
    ensures
        bytes::be_value(r@) == number(b@, endianness),
{
    if endianness == Endianness::Little {
        bytes::reversed(b)
    } else {
        b
    }
}

/// 32 bytes in big-endian order, in the given order.
pub fn from_big_endian(b: [u8; 32], endianness: Endianness) -> (r: [u8; 32])
    ensures
        number(r@, endianness) == bytes::be_value(b@),
{
    if endianness == Endianness::Little {
        let r = bytes::reversed(b);
        assert(r@.reverse() =~= b@);
        r
    } else {
        b
    }
}

} // verus!
