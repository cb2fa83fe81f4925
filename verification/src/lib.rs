//! Arithmetic on the elliptic curve secp256r1, also known as P-256.
//!
//! - [`field`] is the base field, [`scalar`] the check on multipliers, and
//!   [`group`] the group of points, in affine and in Jacobian coordinates.
//! - [`encoding`] says what the byte encodings of points are.
//! - [`laws`] collects what holds of the group, of multiples of its points and
//!   of the encodings.
//! - [`behaviour`] says how the results of calls relate.
//! - [`math`] proves that the points are a group of prime order.
use vstd::prelude::*;

pub mod behaviour;
pub mod bytes;
pub mod encoding;
pub mod field;
pub mod group;
pub mod laws;
pub mod limbs;
pub mod math;
pub mod scalar;

verus! {

/// The order of the bytes of a number.
#[derive(Clone, Copy, Debug, PartialEq, Eq, Structural)]
pub enum Endianness {
    /// The most significant byte comes first.
    Big,
    /// The least significant byte comes first.
    Little,
}

} // verus!
