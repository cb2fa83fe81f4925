//! The group of points of P-256.
//!
//! Points have two forms:
//!
//! - [`AffinePoint`] holds the coordinates `(x, y)`. It serves for storage and
//!   for table entries; a flag marks the point at infinity.
//! - [`ProjectivePoint`] holds Jacobian coordinates `(X : Y : Z)`, which stand
//!   for `(X / Z^2, Y / Z^3)`. Sums of points in this form need no inversion in
//!   the field.
//!
//! [`ProjectivePoint::to_affine`] pays for one inversion to convert back, and
//! [`batch_normalize`] for one inversion for many points.
//!
//! Every value of either type is a point of the curve. The view of a point is
//! the mathematical point it stands for.
use crate::bytes;
use crate::encoding;
use crate::field::FieldElement;
use crate::math::addition;
use crate::math::associativity;
use crate::math::certificates;
use crate::math::curve;
use crate::math::curve::Point;
use crate::math::fp;
use crate::math::generator;
use crate::math::jacobian;
use crate::math::multiples;
use crate::math::order;
use crate::scalar::Scalar;
use crate::Endianness;
use core::ops::Neg;
use vstd::arithmetic::div_mod::*;
use vstd::arithmetic::mul::*;
use vstd::arithmetic::power2::*;
use vstd::prelude::*;

verus! {

/// The number of windows of a multiplier, one for each byte.
pub const BASE_WINDOWS: usize = 32;

/// The number of multiples of a point that a window of eight bits takes.
pub const BASE_WINDOW_POINTS: usize = 256;

/// The number of multiples of a point that a window of four bits takes.
pub const SHAMIR_WINDOW_POINTS: usize = 16;

/// The constant `b` of the curve equation.
fn curve_b() -> (r: FieldElement)
    ensures
        r@ == curve::b(),
{
    let r = FieldElement::from_montgomery_limbs(
        [0xd89c_df62_29c4_bddf, 0xacf0_05cd_7884_3090, 0xe5a2_20ab_f721_2ed6, 0xdc30_061d_0487_4834],
    );
    proof {
        assert((0x5ac635d8aa3a93e7b3ebbd55769886bc651d06b0cc53b0f63bce3c3e27d2604bint
            * 0x1_0000_0000_0000_0000_0000_0000_0000_0000_0000_0000_0000_0000_0000_0000_0000_0000int)
            % certificates::field_modulus()
            == 0xdc30061d04874834e5a220abf7212ed6acf005cd78843090d89cdf6229c4bddfint);
        r.lemma_montgomery(
            0xdc30061d04874834e5a220abf7212ed6acf005cd78843090d89cdf6229c4bddfint,
            curve::b(),
        );
    }
    r
}

/// The abscissa of the generator.
fn generator_x() -> (r: FieldElement)
    ensures
        r@ == generator::x(),
{
    let r = FieldElement::from_montgomery_limbs(
        [0x79e7_30d4_18a9_143c, 0x75ba_95fc_5fed_b601, 0x79fb_732b_7762_2510, 0x1890_5f76_a537_55c6],
    );
    proof {
        assert((0x6b17d1f2e12c4247f8bce6e563a440f277037d812deb33a0f4a13945d898c296int
            * 0x1_0000_0000_0000_0000_0000_0000_0000_0000_0000_0000_0000_0000_0000_0000_0000_0000int)
            % certificates::field_modulus()
            == 0x18905f76a53755c679fb732b7762251075ba95fc5fedb60179e730d418a9143cint);
        r.lemma_montgomery(
            0x18905f76a53755c679fb732b7762251075ba95fc5fedb60179e730d418a9143cint,
            generator::x(),
        );
    }
    r
}

/// The ordinate of the generator.
fn generator_y() -> (r: FieldElement)
    ensures
        r@ == generator::y(),
{
    let r = FieldElement::from_montgomery_limbs(
        [0xddf2_5357_ce95_560a, 0x8b4a_b8e4_ba19_e45c, 0xd2e8_8688_dd21_f325, 0x8571_ff18_2588_5d85],
    );
    proof {
        assert((0x4fe342e2fe1a7f9b8ee7eb4a7c0f9e162bce33576b315ececbb6406837bf51f5int
            * 0x1_0000_0000_0000_0000_0000_0000_0000_0000_0000_0000_0000_0000_0000_0000_0000_0000int)
            % certificates::field_modulus()
            == 0x8571ff1825885d85d2e88688dd21f3258b4ab8e4ba19e45cddf25357ce95560aint);
        r.lemma_montgomery(
            0x8571ff1825885d85d2e88688dd21f3258b4ab8e4ba19e45cddf25357ce95560aint,
            generator::y(),
        );
    }
    r
}

/// Twice a field element.
fn double(x: FieldElement) -> (r: FieldElement)
    ensures
        r@ == jacobian::twice(x@),
{
    x + x
}

/// Three times a field element.
fn triple(x: FieldElement) -> (r: FieldElement)
    ensures
        r@ == jacobian::thrice(x@),
{
    x + x + x
}

/// The right-hand side `x^3 - 3 x + b` of the curve equation.
fn right_hand_side(x: FieldElement) -> (r: FieldElement)
    ensures
        r@ == curve::cubic(x@) % fp::p(),
{
    let r = x.square() * x - triple(x) + curve_b();
    proof {
        jacobian::lemma_right_hand_side(x@);
    }
    r
}

/// A point in affine coordinates.
#[derive(Clone, Copy, Debug)]
pub struct AffinePoint {
    x: FieldElement,
    y: FieldElement,
    infinity: bool,
}

impl View for AffinePoint {
    type V = Point;

    closed spec fn view(&self) -> Point {
        if self.infinity {
            Point::Infinity
        } else {
            Point::Affine { x: self.x@, y: self.y@ }
        }
    }
}

impl AffinePoint {
    /// The point is on the curve, and the coordinates of the point at infinity
    /// are 0.
    #[verifier::type_invariant]
    pub closed spec fn valid(self) -> bool {
        curve::on_curve(self@) && (self.infinity ==> self.x@ == 0 && self.y@ == 0)
    }

    /// Every value of the type is a point of the curve.
    pub proof fn law_on_curve(self)
        requires
            self.valid(),
        ensures
            curve::on_curve(self@),
    {
    }

    /// The point at infinity, which is the identity of the group.
    pub fn identity() -> (r: AffinePoint)
        ensures
            r@ == Point::Infinity,
    {
        AffinePoint { x: FieldElement::zero(), y: FieldElement::zero(), infinity: true }
    }

    /// The generator of the group.
    pub fn generator() -> (r: AffinePoint)
        ensures
            r@ == generator::point(),
            curve::on_curve(r@),
    {
        let (x, y) = (generator_x(), generator_y());
        proof {
            generator::lemma_on_curve();
        }
        AffinePoint { x, y, infinity: false }
    }

    /// The point with the given coordinates; `None` if it is not on the curve.
    pub fn new(x: FieldElement, y: FieldElement) -> (r: Option<AffinePoint>)
        ensures
            r is Some <==> curve::on_curve(Point::Affine { x: x@, y: y@ }),
            r matches Some(p) ==> p@ == (Point::Affine { x: x@, y: y@ }),
    {
        if AffinePoint::is_on_curve(x, y) {
            Some(AffinePoint { x, y, infinity: false })
        } else {
            None
        }
    }

    /// Reads an uncompressed point.
    ///
    /// 64 zero bytes are the point at infinity. Other bytes are the coordinates
    /// of a point of the curve; `None` if they are not.
    pub fn from_uncompressed(bytes: &[u8; 64], endianness: Endianness) -> (r: Option<AffinePoint>)
        ensures
            r is Some <==> encoding::read_uncompressed(bytes@, endianness) is Some,
            r matches Some(p) ==> encoding::read_uncompressed(bytes@, endianness) == Some(p@)
                && curve::on_curve(p@),
            (forall|i: int| 0 <= i < 64 ==> bytes@[i] == 0) ==> (r matches Some(p)
                && p@ == Point::Infinity),
            (r matches Some(p) && p@ is Infinity) ==> (forall|i: int|
                0 <= i < 64 ==> bytes@[i] == 0),
            endianness == Endianness::Big ==> (r matches Some(p) ==> (p@ is Affine ==> p@->x
                == bytes::be_value(bytes@.subrange(0, 32)) && p@->y == bytes::be_value(
                bytes@.subrange(32, 64),
            ))),
            endianness == Endianness::Little ==> (r matches Some(p) ==> (p@ is Affine ==> p@->x
                == bytes::be_value(bytes@.subrange(0, 32).reverse()) && p@->y == bytes::be_value(
                bytes@.subrange(32, 64).reverse(),
            ))),
    {
        if all_zero(bytes) {
            return Some(AffinePoint::identity());
        }
        let x_bytes = encoding::to_big_endian(bytes::window(bytes, 0), endianness);
        let y_bytes = encoding::to_big_endian(bytes::window(bytes, 32), endianness);
        proof {
            bytes::lemma_prefix(x_bytes@, x_bytes@, 32);
            bytes::lemma_prefix(y_bytes@, y_bytes@, 32);
        }
        match (FieldElement::from_be_bytes(x_bytes), FieldElement::from_be_bytes(y_bytes)) {
            (Some(x), Some(y)) => AffinePoint::new(x, y),
            _ => None,
        }
    }

    /// Reads a compressed point: the abscissa after a byte that says whether
    /// the ordinate is even, `0x02`, or odd, `0x03`.
    ///
    /// `None` if the first byte is another one, or there is no such point.
    pub fn from_compressed(bytes: &[u8; 33], endianness: Endianness) -> (r: Option<AffinePoint>)
        ensures
            r is Some <==> exists|p: Point| #[trigger]
                curve::on_curve(p) && encoding::compressed(p, bytes@, endianness),
            r matches Some(p) ==> curve::on_curve(p@) && encoding::compressed(
                p@,
                bytes@,
                endianness,
            ),
            r matches Some(p) ==> p@ is Affine && bytes@[0] == (if p@->y % 2 == 0 {
                2u8
            } else {
                3u8
            }),
            endianness == Endianness::Big ==> (r matches Some(p) ==> p@->x == bytes::be_value(
                bytes@.subrange(1, 33),
            )),
            endianness == Endianness::Little ==> (r matches Some(p) ==> p@->x == bytes::be_value(
                bytes@.subrange(1, 33).reverse(),
            )),
    {
        if bytes[0] != 0x02 && bytes[0] != 0x03 {
            return None;
        }
        let x_bytes = encoding::to_big_endian(bytes::window(bytes, 1), endianness);
        let x = match FieldElement::from_be_bytes(x_bytes) {
            Some(x) => x,
            None => {
                return None;
            },
        };
        let mut y = match right_hand_side(x).sqrt() {
            Some(y) => y,
            None => {
                proof {
                    assert forall|p: Point| #[trigger] curve::on_curve(p) implies !(
                    encoding::compressed(p, bytes@, endianness)) by {
                        if encoding::compressed(p, bytes@, endianness) {
                            let t = p->y;
                            fp::lemma_same(t * t, curve::cubic(x@));
                        }
                    }
                }
                return None;
            },
        };
        let ghost root: int = y@;
        if is_odd(y) != (bytes[0] == 0x03) {
            y = y.neg();
        }
        proof {
            y.lemma_bounds();
            x.lemma_bounds();
            lemma_roots(x@, root, y@);
            lemma_parity(x@, root, y@, bytes@, endianness);
        }
        if is_odd(y) == (bytes[0] == 0x03) {
            let p = AffinePoint { x, y, infinity: false };
            assert(curve::on_curve(p@) && encoding::compressed(p@, bytes@, endianness));
            Some(p)
        } else {
            None
        }
    }

    /// The point in Jacobian coordinates.
    pub fn to_projective(self) -> (r: ProjectivePoint)
        ensures
            r@ == self@,
            curve::on_curve(r@),
    {
        proof {
            use_type_invariant(self);
        }
        if self.infinity {
            ProjectivePoint::identity()
        } else {
            let one = FieldElement::one();
            proof {
                jacobian::lemma_affine(self.x@, self.y@);
            }
            ProjectivePoint { x: self.x, y: self.y, z: one }
        }
    }

    /// Writes the point in 64 bytes: its coordinates, or zeros for the point at
    /// infinity.
    pub fn to_uncompressed(self, endianness: Endianness) -> (r: [u8; 64])
        ensures
            encoding::uncompressed(self@, r@, endianness),
            self@ is Infinity ==> (forall|i: int| 0 <= i < 64 ==> r@[i] == 0),
            endianness == Endianness::Big ==> (self@ is Affine ==> self@->x == bytes::be_value(
                r@.subrange(0, 32),
            ) && self@->y == bytes::be_value(r@.subrange(32, 64))),
            endianness == Endianness::Little ==> (self@ is Affine ==> self@->x == bytes::be_value(
                r@.subrange(0, 32).reverse(),
            ) && self@->y == bytes::be_value(r@.subrange(32, 64).reverse())),
    {
        if self.is_identity() {
            return [0u8; 64];
        }
        let x_bytes = encoding::from_big_endian(self.x.to_be_bytes(), endianness);
        let y_bytes = encoding::from_big_endian(self.y.to_be_bytes(), endianness);
        let mut out: [u8; 64] = [0u8; 64];
        let mut i: usize = 0;
        while i < 32
            invariant
                i <= 32,
                forall|j: int| 0 <= j < i ==> out@[j] == x_bytes@[j],
                forall|j: int| 0 <= j < i ==> out@[32 + j] == y_bytes@[j],
            decreases 32 - i,
        {
            out[i] = x_bytes[i];
            out[32 + i] = y_bytes[i];
            i = i + 1;
        }
        assert(out@.subrange(0, 32) =~= x_bytes@);
        assert(out@.subrange(32, 64) =~= y_bytes@) by {
            assert forall|j: int| 0 <= j < 32 implies out@.subrange(32, 64)[j] == y_bytes@[j] by {
                assert(out@[32 + j] == y_bytes@[j]);
            }
        }
        out
    }

    /// Writes the point in 33 bytes: the parity of its ordinate and its
    /// abscissa. `None` for the point at infinity, which has no parity.
    pub fn to_compressed(self, endianness: Endianness) -> (r: Option<[u8; 33]>)
        ensures
            r is None <==> self@ is Infinity,
            r matches Some(s) ==> encoding::compressed(self@, s@, endianness),
            r matches Some(s) ==> s@[0] == (if self@->y % 2 == 0 {
                2u8
            } else {
                3u8
            }),
            endianness == Endianness::Big ==> (r matches Some(s) ==> self@->x == bytes::be_value(
                s@.subrange(1, 33),
            )),
            endianness == Endianness::Little ==> (r matches Some(s) ==> self@->x == bytes::be_value(
                s@.subrange(1, 33).reverse(),
            )),
    {
        if self.is_identity() {
            return None;
        }
        let x_bytes = encoding::from_big_endian(self.x.to_be_bytes(), endianness);
        let mut out: [u8; 33] = [0u8; 33];
        out[0] = if is_odd(self.y) {
            0x03
        } else {
            0x02
        };
        let ghost first = out@[0];
        let mut i: usize = 0;
        while i < 32
            invariant
                i <= 32,
                out@[0] == first,
                forall|j: int| 0 <= j < i ==> out@[1 + j] == x_bytes@[j],
            decreases 32 - i,
        {
            out[1 + i] = x_bytes[i];
            i = i + 1;
        }
        assert(out@.subrange(1, 33) =~= x_bytes@) by {
            assert forall|j: int| 0 <= j < 32 implies out@.subrange(1, 33)[j] == x_bytes@[j] by {
                assert(out@[1 + j] == x_bytes@[j]);
            }
        }
        Some(out)
    }

    /// Whether this is the point at infinity.
    pub fn is_identity(self) -> (r: bool)
        ensures
            r == (self@ is Infinity),
    {
        self.infinity
    }

    /// The abscissa; `None` for the point at infinity.
    pub fn x(self) -> (r: Option<FieldElement>)
        ensures
            r is None <==> self@ is Infinity,
            r matches Some(x) ==> x@ == self@->x,
    {
        if self.infinity {
            None
        } else {
            Some(self.x)
        }
    }

    /// The ordinate; `None` for the point at infinity.
    pub fn y(self) -> (r: Option<FieldElement>)
        ensures
            r is None <==> self@ is Infinity,
            r matches Some(y) ==> y@ == self@->y,
    {
        if self.infinity {
            None
        } else {
            Some(self.y)
        }
    }

    /// Whether the coordinates satisfy the curve equation.
    fn is_on_curve(x: FieldElement, y: FieldElement) -> (r: bool)
        ensures
            r == curve::on_curve(Point::Affine { x: x@, y: y@ }),
    {
        proof {
            x.lemma_bounds();
            y.lemma_bounds();
            fp::lemma_same(y@ * y@, curve::cubic(x@));
        }
        y.square() == right_hand_side(x)
    }
}

impl vstd::std_specs::cmp::PartialEqSpecImpl for AffinePoint {
    open spec fn obeys_eq_spec() -> bool {
        true
    }

    open spec fn eq_spec(&self, other: &AffinePoint) -> bool {
        self@ == other@
    }
}

impl PartialEq for AffinePoint {
    fn eq(&self, other: &AffinePoint) -> (r: bool)
        ensures
            r == (self@ == other@),
    {
        proof {
            use_type_invariant(self);
            use_type_invariant(other);
        }
        self.infinity == other.infinity && self.x == other.x && self.y == other.y
    }
}

impl Eq for AffinePoint {

}

impl vstd::std_specs::ops::NegSpecImpl for AffinePoint {
    open spec fn obeys_neg_spec() -> bool {
        false
    }

    open spec fn neg_req(self) -> bool {
        true
    }

    open spec fn neg_spec(self) -> AffinePoint {
        self
    }
}

impl core::ops::Neg for AffinePoint {
    type Output = AffinePoint;

    /// The inverse in the group.
    fn neg(self) -> (r: AffinePoint)
        ensures
            r@ == curve::neg(self@),
            curve::on_curve(r@),
    {
        proof {
            use_type_invariant(self);
            addition::lemma_neg(self@);
        }
        if self.infinity {
            self
        } else {
            let y = self.y.neg();
            AffinePoint { x: self.x, y, infinity: false }
        }
    }
}

/// Whether all bytes are 0.
fn all_zero(bytes: &[u8; 64]) -> (r: bool)
    ensures
        r == (forall|i: int| 0 <= i < 64 ==> bytes@[i] == 0),
{
    let mut i: usize = 0;
    while i < 64
        invariant
            i <= 64,
            forall|j: int| 0 <= j < i ==> bytes@[j] == 0,
        decreases 64 - i,
    {
        if bytes[i] != 0 {
            return false;
        }
        i = i + 1;
    }
    true
}

/// Whether a field element is odd.
fn is_odd(y: FieldElement) -> (r: bool)
    ensures
        r == (y@ % 2 == 1),
{
    let b = y.to_be_bytes();
    let last: u8 = b[31];
    assert((last & 1) == last % 2) by (bit_vector);
    assert(bytes::be_value(b@) == bytes::be_prefix(b@, 31) * 256 + b@[31]);
    (last & 1) == 1
}

/// The root of the cubic and its inverse are ordinates.
proof fn lemma_roots(x: int, root: int, y: int)
    requires
        fp::canonical(x),
        fp::canonical(y),
        (root * root) % fp::p() == curve::cubic(x) % fp::p(),
        y == root || y == (-root) % fp::p(),
    ensures
        curve::on_curve(Point::Affine { x, y }),
{
    fp::lemma_same(root * root, curve::cubic(x));
    if y != root {
        fp::lemma_reduce(-root);
        fp::lemma_mul(y, -root, y, -root);
        assert((-root) * (-root) == root * root) by (nonlinear_arith);
        fp::lemma_trans(y * y, root * root, curve::cubic(x));
    }
}

/// If neither root of the cubic has the parity that is asked for, there is no
/// point.
proof fn lemma_parity(x: int, root: int, y: int, s: Seq<u8>, endianness: Endianness)
    requires
        s.len() == 33,
        s[0] == 2 || s[0] == 3,
        fp::canonical(root),
        curve::on_curve(Point::Affine { x, y }),
        encoding::number(s.subrange(1, 33), endianness) == x,
        (root % 2 == 1) == (s[0] == 3) ==> y == root,
        (root % 2 == 1) != (s[0] == 3) ==> y == (-root) % fp::p(),
    ensures
        (y % 2 == 1) != (s[0] == 3) ==> forall|p: Point| #[trigger]
            curve::on_curve(p) ==> !encoding::compressed(p, s, endianness),
{
    if (y % 2 == 1) != (s[0] == 3) {
        assert forall|p: Point| #[trigger] curve::on_curve(p) implies !encoding::compressed(
            p,
            s,
            endianness,
        ) by {
            if encoding::compressed(p, s, endianness) {
                let t = p->y;
                // then t is an ordinate of x, but neither y nor its inverse
                if t != y {
                    addition::lemma_opposite(x, y, t);
                    fp::lemma_reduce(-root);
                    fp::lemma_add(t + y, y + root);
                    fp::lemma_unique(t, root);
                }
            }
        }
    }
}

/// A point in Jacobian coordinates.
#[derive(Clone, Copy, Debug)]
pub struct ProjectivePoint {
    x: FieldElement,
    y: FieldElement,
    z: FieldElement,
}

impl View for ProjectivePoint {
    type V = Point;

    closed spec fn view(&self) -> Point {
        jacobian::point(self.x@, self.y@, self.z@)
    }
}

impl vstd::std_specs::cmp::PartialEqSpecImpl for ProjectivePoint {
    open spec fn obeys_eq_spec() -> bool {
        true
    }

    open spec fn eq_spec(&self, other: &ProjectivePoint) -> bool {
        self@ == other@
    }
}

impl PartialEq for ProjectivePoint {
    fn eq(&self, other: &ProjectivePoint) -> (r: bool)
        ensures
            r == (self@ == other@),
    {
        let self_is_identity = self.is_identity();
        let other_is_identity = other.is_identity();
        if self_is_identity || other_is_identity {
            return self_is_identity && other_is_identity;
        }
        let self_z2 = self.z.square();
        let other_z2 = other.z.square();
        let self_z3 = self_z2 * self.z;
        let other_z3 = other_z2 * other.z;
        proof {
            self.lemma_denominator();
            other.lemma_denominator();
            jacobian::lemma_compare(self.x@, self.y@, self.z@, other.x@, other.y@, other.z@);
            jacobian::lemma_cube(self.y@, other.z@);
            jacobian::lemma_cube(other.y@, self.z@);
        }
        // x1 * z2^2 == x2 * z1^2
        // y1 * z2^3 == y2 * z1^3
        self.x * other_z2 == other.x * self_z2 && self.y * other_z3 == other.y * self_z3
    }
}

impl Eq for ProjectivePoint {

}

impl ProjectivePoint {
    /// The point is on the curve.
    #[verifier::type_invariant]
    pub closed spec fn valid(self) -> bool {
        curve::on_curve(self@)
    }

    /// Every value of the type is a point of the curve.
    pub proof fn law_on_curve(self)
        requires
            self.valid(),
        ensures
            curve::on_curve(self@),
    {
    }

    /// The Jacobian coordinates.
    pub closed spec fn jacobian(self) -> (int, int, int) {
        (self.x@, self.y@, self.z@)
    }

    /// The denominator is 0 for the point at infinity alone.
    proof fn lemma_denominator(self)
        ensures
            self.z@ == 0 <==> self@ is Infinity,
            fp::vanishes(self.z@) <==> self@ is Infinity,
    {
        self.z.lemma_bounds();
        fp::lemma_canonical(self.z@);
    }

    /// The point at infinity, which is the identity of the group.
    pub fn identity() -> (r: ProjectivePoint)
        ensures
            r@ == Point::Infinity,
    {
        let (x, y, z) = (FieldElement::zero(), FieldElement::one(), FieldElement::zero());
        proof {
            fp::lemma_zero();
        }
        ProjectivePoint { x, y, z }
    }

    /// The generator of the group.
    pub fn generator() -> (r: ProjectivePoint)
        ensures
            r@ == generator::point(),
            curve::on_curve(r@),
    {
        AffinePoint::generator().to_projective()
    }

    /// The point with the given Jacobian coordinates; `None` if it is not on
    /// the curve.
    pub fn from_jacobian(x: FieldElement, y: FieldElement, z: FieldElement) -> (r: Option<
        ProjectivePoint,
    >)
        ensures
            r is Some <==> curve::on_curve(jacobian::point(x@, y@, z@)),
            r matches Some(p) ==> p@ == jacobian::point(x@, y@, z@) && p.jacobian() == (
                x@,
                y@,
                z@,
            ),
    {
        let zz = z.square();
        let zzzz = zz.square();
        let on_curve = y.square() == x.square() * x - triple(x) * zzzz + curve_b() * (zzzz * zz);
        proof {
            z.lemma_bounds();
            fp::lemma_canonical(z@);
            if z@ != 0 {
                jacobian::lemma_equation_checked(x@, y@, z@);
            }
        }
        if z.is_zero() || on_curve {
            Some(ProjectivePoint { x, y, z })
        } else {
            None
        }
    }

    /// The Jacobian coordinates `(X, Y, Z)`.
    pub fn coordinates(self) -> (r: (FieldElement, FieldElement, FieldElement))
        ensures
            (r.0@, r.1@, r.2@) == self.jacobian(),
            self@ == jacobian::point(r.0@, r.1@, r.2@),
    {
        (self.x, self.y, self.z)
    }

    /// A point in affine coordinates.
    pub fn from_affine(point: AffinePoint) -> (r: ProjectivePoint)
        ensures
            r@ == point@,
            curve::on_curve(r@),
    {
        point.to_projective()
    }

    /// The point in affine coordinates.
    pub fn to_affine(self) -> (r: AffinePoint)
        ensures
            r@ == self@,
            curve::on_curve(r@),
    {
        proof {
            use_type_invariant(self);
            self.lemma_denominator();
        }
        match self.z.invert() {
            Some(zinv) => {
                let zinv2 = zinv.square();
                let x = self.x * zinv2;
                let y = self.y * zinv2 * zinv;
                proof {
                    zinv.lemma_bounds();
                    jacobian::lemma_normalize(self.x@, self.y@, self.z@, zinv@);
                }
                AffinePoint { x, y, infinity: false }
            },
            None => AffinePoint::identity(),
        }
    }

    /// Writes the point in 64 bytes: its coordinates, or zeros for the point at
    /// infinity.
    pub fn to_uncompressed(self, endianness: Endianness) -> (r: [u8; 64])
        ensures
            encoding::uncompressed(self@, r@, endianness),
            self@ is Infinity ==> (forall|i: int| 0 <= i < 64 ==> r@[i] == 0),
            endianness == Endianness::Big ==> (self@ is Affine ==> self@->x == bytes::be_value(
                r@.subrange(0, 32),
            ) && self@->y == bytes::be_value(r@.subrange(32, 64))),
            endianness == Endianness::Little ==> (self@ is Affine ==> self@->x == bytes::be_value(
                r@.subrange(0, 32).reverse(),
            ) && self@->y == bytes::be_value(r@.subrange(32, 64).reverse())),
    {
        self.to_affine().to_uncompressed(endianness)
    }

    /// Whether this is the point at infinity.
    pub fn is_identity(self) -> (r: bool)
        ensures
            r == (self@ is Infinity),
    {
        proof {
            self.lemma_denominator();
        }
        self.z.is_zero()
    }

    /// Whether the abscissa is `x`. The point at infinity has none.
    pub fn has_affine_x(self, x: FieldElement) -> (r: bool)
        ensures
            r == (self@ is Affine && self@->x == x@),
    {
        proof {
            self.lemma_denominator();
            self.x.lemma_bounds();
            x.lemma_bounds();
            if self@ is Affine {
                let u = jacobian::prod(x@, jacobian::square(self.z@));
                jacobian::lemma_compare_mixed(self.x@, self.y@, self.z@, x@, 0);
                jacobian::lemma_difference(u, self.x@);
                fp::lemma_reduce(x@ * jacobian::square(self.z@));
                if fp::vanishes(u - self.x@) {
                    fp::lemma_unique(u, self.x@);
                }
                fp::lemma_zero();
            }
        }
        !self.is_identity() && self.x == x * self.z.square()
    }

    /// The sum of the point with itself.
    pub fn double(self) -> (r: ProjectivePoint)
        ensures
            r@ == curve::plus(self@, self@),
            curve::on_curve(r@),
    {
        proof {
            use_type_invariant(self);
            self.lemma_denominator();
            self.y.lemma_bounds();
            fp::lemma_canonical(self.y@);
            if self@ is Affine {
                jacobian::lemma_zero_ordinate(self.x@, self.y@, self.z@);
            }
        }
        if self.is_identity() || self.y.is_zero() {
            return ProjectivePoint::identity();
        }
        let xx = self.x.square();
        let yy = self.y.square();
        let yyyy = yy.square();
        let zz = self.z.square();
        let s = double((self.x + yy).square() - xx - yyyy);
        let m = triple(xx - zz.square());
        let x = m.square() - double(s);
        let y = m * (s - x) - double(double(double(yyyy)));
        let z = (self.y + self.z).square() - yy - zz;
        proof {
            jacobian::lemma_doubled(self.x@, self.y@, self.z@);
            assert((x@, y@, z@) == jacobian::doubled(self.x@, self.y@, self.z@));
            addition::lemma_closed(self@, self@);
        }
        ProjectivePoint { x, y, z }
    }

    /// The sum with a point in affine coordinates.
    pub fn add_mixed(self, rhs: AffinePoint) -> (r: ProjectivePoint)
        ensures
            r@ == curve::plus(self@, rhs@),
            curve::on_curve(r@),
    {
        proof {
            use_type_invariant(self);
            use_type_invariant(rhs);
            self.lemma_denominator();
            addition::lemma_closed(self@, rhs@);
        }
        if rhs.infinity {
            return self;
        }
        if self.is_identity() {
            return rhs.to_projective();
        }
        let z1z1 = self.z.square();
        let u2 = rhs.x * z1z1;
        let s2 = rhs.y * self.z * z1z1;
        let h = u2 - self.x;
        let slope_num = double(s2 - self.y);
        proof {
            jacobian::lemma_compare_mixed(self.x@, self.y@, self.z@, rhs.x@, rhs.y@);
        }
        if h.is_zero() {
            return if slope_num.is_zero() {
                self.double()
            } else {
                ProjectivePoint::identity()
            };
        }
        let hh = h.square();
        let i = double(double(hh));
        let j = h * i;
        let v = self.x * i;
        let x = slope_num.square() - j - double(v);
        let y = slope_num * (v - x) - double(self.y * j);
        let z = (self.z + h).square() - z1z1 - hh;
        proof {
            jacobian::lemma_mixed(self.x@, self.y@, self.z@, rhs.x@, rhs.y@);
            assert((x@, y@, z@) == jacobian::mixed(self.x@, self.y@, self.z@, rhs.x@, rhs.y@));
        }
        ProjectivePoint { x, y, z }
    }
}

impl vstd::std_specs::ops::AddSpecImpl for ProjectivePoint {
    open spec fn obeys_add_spec() -> bool {
        false
    }

    open spec fn add_req(self, rhs: ProjectivePoint) -> bool {
        true
    }

    open spec fn add_spec(self, rhs: ProjectivePoint) -> ProjectivePoint {
        self
    }
}

impl core::ops::Add for ProjectivePoint {
    type Output = ProjectivePoint;

    /// The sum in the group.
    fn add(self, rhs: ProjectivePoint) -> (r: ProjectivePoint)
        ensures
            r@ == curve::plus(self@, rhs@),
            curve::on_curve(r@),
    {
        proof {
            use_type_invariant(self);
            use_type_invariant(rhs);
            self.lemma_denominator();
            rhs.lemma_denominator();
            addition::lemma_closed(self@, rhs@);
        }
        if self.is_identity() {
            return rhs;
        }
        if rhs.is_identity() {
            return self;
        }
        let z1z1 = self.z.square();
        let z2z2 = rhs.z.square();
        let u1 = self.x * z2z2;
        let u2 = rhs.x * z1z1;
        let s1 = self.y * rhs.z * z2z2;
        let s2 = rhs.y * self.z * z1z1;
        proof {
            jacobian::lemma_compare(self.x@, self.y@, self.z@, rhs.x@, rhs.y@, rhs.z@);
        }
        if u1 == u2 {
            return if s1 == s2 {
                self.double()
            } else {
                ProjectivePoint::identity()
            };
        }
        let h = u2 - u1;
        let i = double(h).square();
        let j = h * i;
        let slope_num = double(s2 - s1);
        let v = u1 * i;
        let x = slope_num.square() - j - double(v);
        let y = slope_num * (v - x) - double(s1 * j);
        let z = ((self.z + rhs.z).square() - z1z1 - z2z2) * h;
        proof {
            jacobian::lemma_added(self.x@, self.y@, self.z@, rhs.x@, rhs.y@, rhs.z@);
            assert((x@, y@, z@) == jacobian::added(
                self.x@,
                self.y@,
                self.z@,
                rhs.x@,
                rhs.y@,
                rhs.z@,
            ));
        }
        ProjectivePoint { x, y, z }
    }
}

impl vstd::std_specs::ops::SubSpecImpl for ProjectivePoint {
    open spec fn obeys_sub_spec() -> bool {
        false
    }

    open spec fn sub_req(self, rhs: ProjectivePoint) -> bool {
        true
    }

    open spec fn sub_spec(self, rhs: ProjectivePoint) -> ProjectivePoint {
        self
    }
}

impl core::ops::Sub for ProjectivePoint {
    type Output = ProjectivePoint;

    /// The difference in the group.
    fn sub(self, rhs: ProjectivePoint) -> (r: ProjectivePoint)
        ensures
            r@ == curve::plus(self@, curve::neg(rhs@)),
            curve::on_curve(r@),
    {
        self + rhs.neg()
    }
}

impl vstd::std_specs::ops::NegSpecImpl for ProjectivePoint {
    open spec fn obeys_neg_spec() -> bool {
        false
    }

    open spec fn neg_req(self) -> bool {
        true
    }

    open spec fn neg_spec(self) -> ProjectivePoint {
        self
    }
}

impl core::ops::Neg for ProjectivePoint {
    type Output = ProjectivePoint;

    /// The inverse in the group.
    fn neg(self) -> (r: ProjectivePoint)
        ensures
            r@ == curve::neg(self@),
            curve::on_curve(r@),
    {
        let y = self.y.neg();
        proof {
            use_type_invariant(self);
            jacobian::lemma_negated(self.x@, self.y@, self.z@);
            addition::lemma_neg(self@);
        }
        ProjectivePoint { x: self.x, y, z: self.z }
    }
}

/// The product of the denominators of the first `n` points that are not the
/// point at infinity.
spec fn denominators(points: Seq<ProjectivePoint>, n: nat) -> int
    decreases n,
{
    if n == 0 {
        1
    } else if points[n - 1]@ is Infinity {
        denominators(points, (n - 1) as nat)
    } else {
        jacobian::prod(denominators(points, (n - 1) as nat), points[n - 1].z@)
    }
}

/// The product of the denominators is not 0.
proof fn lemma_denominators(points: Seq<ProjectivePoint>, n: nat)
    ensures
        fp::canonical(denominators(points, n)),
        !fp::vanishes(denominators(points, n)),
    decreases n,
{
    if n == 0 {
        fp::lemma_small(1);
    } else {
        let d = denominators(points, (n - 1) as nat);
        let z = points[n - 1].z@;
        lemma_denominators(points, (n - 1) as nat);
        points[n - 1].lemma_denominator();
        fp::lemma_reduce(d * z);
        if !(points[n - 1]@ is Infinity) {
            fp::lemma_product(d, z);
            fp::lemma_shift(jacobian::prod(d, z), d * z);
        }
    }
}

/// Takes one denominator out of the inverse of a product of denominators.
proof fn lemma_inverses(inverse: int, before: int, z: int)
    requires
        fp::vanishes(inverse * jacobian::prod(before, z) - 1),
    ensures
        (z * jacobian::prod(inverse, before)) % fp::p() == 1,
        fp::vanishes(jacobian::prod(inverse, z) * before - 1),
{
    let i = jacobian::prod(inverse, before);
    let j = jacobian::prod(inverse, z);
    fp::lemma_reduce(before * z);
    fp::lemma_reduce(inverse * before);
    fp::lemma_reduce(inverse * z);
    fp::lemma_zero();
    fp::lemma_mul(inverse, inverse, before * z, jacobian::prod(before, z));
    fp::lemma_trans(inverse * (before * z), inverse * jacobian::prod(before, z), 1);
    fp::lemma_mul(z, z, i, inverse * before);
    assert(z * (inverse * before) == inverse * (before * z)) by (nonlinear_arith);
    fp::lemma_trans(z * i, inverse * (before * z), 1);
    fp::lemma_same(z * i, 1);
    lemma_small_mod(1, fp::p() as nat);
    fp::lemma_mul(j, inverse * z, before, before);
    assert((inverse * z) * before == inverse * (before * z)) by (nonlinear_arith);
    fp::lemma_trans(j * before, inverse * (before * z), 1);
}

/// Converts points to affine coordinates, with a single inversion.
pub fn batch_normalize<const N: usize>(points: [ProjectivePoint; N]) -> (out: [AffinePoint; N])
    ensures
        forall|i: int| 0 <= i < N ==> (#[trigger] out@[i])@ == points@[i]@,
{
    let mut products: [FieldElement; N] = [FieldElement::one();N];
    let mut acc = FieldElement::one();
    let mut i: usize = 0;
    while i < N
        invariant
            i <= N,
            acc@ == denominators(points@, i as nat),
            forall|j: int| 0 <= j < i ==> (#[trigger] products@[j])@ == denominators(
                points@,
                j as nat,
            ),
        decreases N - i,
    {
        products[i] = acc;
        if !points[i].is_identity() {
            acc = acc * points[i].z;
        }
        i = i + 1;
    }
    proof {
        lemma_denominators(points@, N as nat);
        fp::lemma_canonical(acc@);
        if acc@ == 0 {
            fp::lemma_zero();
        }
    }
    let mut acc_inverse = match acc.invert() {
        Some(inverse) => inverse,
        None => {
            return [AffinePoint::identity();N];
        },
    };
    let mut out: [AffinePoint; N] = [AffinePoint::identity();N];
    proof {
        let d = acc@ * acc_inverse@;
        fp::lemma_reduce(d);
        lemma_mul_is_commutative(acc@, acc_inverse@);
    }
    while i > 0
        invariant
            i <= N,
            fp::vanishes(acc_inverse@ * denominators(points@, i as nat) - 1),
            forall|j: int| 0 <= j < N ==> (#[trigger] products@[j])@ == denominators(
                points@,
                j as nat,
            ),
            forall|j: int| 0 <= j < i ==> (#[trigger] out@[j])@ == Point::Infinity,
            forall|j: int| i <= j < N ==> (#[trigger] out@[j])@ == points@[j]@,
        decreases i,
    {
        i = i - 1;
        let point = points[i];
        if !point.is_identity() {
            let z_inverse = acc_inverse * products[i];
            proof {
                use_type_invariant(point);
                lemma_inverses(acc_inverse@, denominators(points@, i as nat), point.z@);
                z_inverse.lemma_bounds();
                jacobian::lemma_normalize(point.x@, point.y@, point.z@, z_inverse@);
            }
            acc_inverse = acc_inverse * point.z;
            let z_inverse2 = z_inverse.square();
            let x = point.x * z_inverse2;
            let y = point.y * z_inverse2 * z_inverse;
            out[i] = AffinePoint { x, y, infinity: false };
        }
    }
    out
}

/// Doubles a point `count` times.
pub fn double_n(point: ProjectivePoint, count: usize) -> (r: ProjectivePoint)
    ensures
        r@ == curve::times(pow2(count as nat), point@),
        curve::on_curve(r@),
{
    let mut out = point;
    proof {
        use_type_invariant(point);
        lemma2_to64();
        multiples::lemma_times_one(point@);
    }
    for i in 0..count
        invariant
            out@ == curve::times(pow2(i as nat), point@),
            curve::on_curve(point@),
            curve::on_curve(out@),
    {
        proof {
            lemma_pow2_unfold((i + 1) as nat);
            multiples::lemma_times_add(pow2(i as nat), pow2(i as nat), point@);
        }
        out = out.double();
    }
    out
}

/// The high digit of a byte, in base 16.
fn high_digit(byte: u8) -> (r: usize)
    ensures
        r == byte / 16,
        r < 16,
{
    assert((byte >> 4) == byte / 16) by (bit_vector);
    (byte >> 4) as usize
}

/// The low digit of a byte, in base 16.
fn low_digit(byte: u8) -> (r: usize)
    ensures
        r == byte % 16,
        r < 16,
{
    assert((byte & 0x0f) == byte % 16) by (bit_vector);
    (byte & 0x0f) as usize
}

/// The entries of a table are the multiples of a point.
pub open spec fn is_table(table: Seq<AffinePoint>, p: Point) -> bool {
    forall|i: int| 0 <= i < table.len() ==> (#[trigger] table[i])@ == curve::times(i as nat, p)
}

/// The first 16 multiples of a point.
pub fn window4_table(base: AffinePoint) -> (r: [AffinePoint; SHAMIR_WINDOW_POINTS])
    ensures
        is_table(r@, base@),
        forall|i: int| 0 <= i < r@.len() ==> (#[trigger] r@[i])@ == curve::times(i as nat, base@),
{
    let mut projective: [ProjectivePoint; SHAMIR_WINDOW_POINTS] =
        [ProjectivePoint::identity();SHAMIR_WINDOW_POINTS];
    for i in 1..SHAMIR_WINDOW_POINTS
        invariant
            1 <= i <= SHAMIR_WINDOW_POINTS,
            forall|j: int| 0 <= j < i ==> (#[trigger] projective@[j])@ == curve::times(
                j as nat,
                base@,
            ),
    {
        projective[i] = projective[i - 1].add_mixed(base);
    }
    batch_normalize(projective)
}

/// The first 16 multiples of the generator.
pub fn generator_window4_table() -> (r: [AffinePoint; SHAMIR_WINDOW_POINTS])
    ensures
        is_table(r@, generator::point()),
        forall|i: int| 0 <= i < r@.len() ==> (#[trigger] r@[i])@ == curve::times(i as nat, generator::point()),
{
    window4_table(AffinePoint::generator())
}

/// The first 256 multiples of a point.
pub fn projective_window8_table(base: ProjectivePoint) -> (r: [AffinePoint; BASE_WINDOW_POINTS])
    ensures
        is_table(r@, base@),
        forall|i: int| 0 <= i < r@.len() ==> (#[trigger] r@[i])@ == curve::times(i as nat, base@),
{
    let mut projective: [ProjectivePoint; BASE_WINDOW_POINTS] =
        [ProjectivePoint::identity();BASE_WINDOW_POINTS];
    let mut multiple = ProjectivePoint::identity();
    for i in 1..BASE_WINDOW_POINTS
        invariant
            1 <= i <= BASE_WINDOW_POINTS,
            multiple@ == curve::times((i - 1) as nat, base@),
            forall|j: int| 0 <= j < i ==> (#[trigger] projective@[j])@ == curve::times(
                j as nat,
                base@,
            ),
    {
        multiple = multiple + base;
        projective[i] = multiple;
    }
    batch_normalize(projective)
}

/// The rows of a table are the multiples of a point by the digits in base 256,
/// each row for the digits of one weight.
pub open spec fn is_window8_table(
    table: Seq<[AffinePoint; BASE_WINDOW_POINTS]>,
    p: Point,
) -> bool {
    forall|w: int|
        0 <= w < table.len() ==> is_table(
            (#[trigger] table[w])@,
            curve::times(pow2((8 * w) as nat), p),
        )
}

/// The multiples of a point by every digit of a multiplier in base 256.
pub fn build_window8_table(base: ProjectivePoint) -> (r: Vec<[AffinePoint; BASE_WINDOW_POINTS]>)
    ensures
        r@.len() == BASE_WINDOWS,
        is_window8_table(r@, base@),
        forall|w: int, d: int|
            0 <= w < BASE_WINDOWS && 0 <= d < BASE_WINDOW_POINTS ==> (#[trigger] r@[w]@[d])@
                == curve::times(d as nat, curve::times(pow2((8 * w) as nat), base@)),
{
    let mut rows: Vec<[AffinePoint; BASE_WINDOW_POINTS]> = Vec::with_capacity(BASE_WINDOWS);
    let mut multiple = base;
    proof {
        use_type_invariant(base);
        lemma2_to64();
        multiples::lemma_times_one(base@);
    }
    for w in 0..BASE_WINDOWS
        invariant
            rows@.len() == w,
            curve::on_curve(base@),
            multiple@ == curve::times(pow2((8 * w) as nat), base@),
            is_window8_table(rows@, base@),
    {
        rows.push(projective_window8_table(multiple));
        proof {
            lemma_pow2_adds(8, (8 * w) as nat);
            multiples::lemma_times_multiply(pow2(8), pow2((8 * w) as nat), base@);
        }
        multiple = double_n(multiple, 8);
    }
    rows
}

/// The multiples of the generator by every digit of a multiplier in base 256.
pub fn generator_window8_table() -> (r: Vec<[AffinePoint; BASE_WINDOW_POINTS]>)
    ensures
        r@.len() == BASE_WINDOWS,
        is_window8_table(r@, generator::point()),
        forall|w: int, d: int|
            0 <= w < BASE_WINDOWS && 0 <= d < BASE_WINDOW_POINTS ==> (#[trigger] r@[w]@[d])@
                == curve::times(d as nat, curve::times(pow2((8 * w) as nat), generator::point())),
{
    build_window8_table(ProjectivePoint::generator())
}

/// The sum of the entries that the last `k` bytes of a multiplier pick from the
/// rows of a table, the last byte from the first row.
pub open spec fn window_sum(
    table: Seq<[AffinePoint; BASE_WINDOW_POINTS]>,
    scalar: Seq<u8>,
    k: nat,
) -> Point
    decreases k,
{
    if k == 0 {
        Point::Infinity
    } else {
        curve::plus(
            window_sum(table, scalar, (k - 1) as nat),
            table[k - 1]@[scalar[scalar.len() - k] as int]@,
        )
    }
}

/// The sum of the entries that the bytes of a multiplier pick from a table.
pub fn mul_window8_vartime(
    table: &Vec<[AffinePoint; BASE_WINDOW_POINTS]>,
    scalar: &[u8; 32],
) -> (r: ProjectivePoint)
    requires
        table@.len() == BASE_WINDOWS,
    ensures
        r@ == window_sum(table@, scalar@, 32),
        forall|p: Point| #[trigger]
            curve::on_curve(p) && is_window8_table(table@, p) ==> r@ == curve::times(
                bytes::be_value(scalar@) as nat,
                p,
            ),
{
    let mut out = ProjectivePoint::identity();
    for window in 0..BASE_WINDOWS
        invariant
            table@.len() == BASE_WINDOWS,
            out@ == window_sum(table@, scalar@, window as nat),
    {
        let byte: u8 = scalar[31 - window];
        out = out.add_mixed(table[window][byte as usize]);
    }
    proof {
        assert forall|p: Point| #[trigger]
            curve::on_curve(p) && is_window8_table(table@, p) implies out@ == curve::times(
            bytes::be_value(scalar@) as nat,
            p,
        ) by {
            lemma_window_sum(table@, scalar@, 32, p);
            lemma2_to64();
        }
    }
    out
}

/// The number that the last `k` bytes of a multiplier write.
pub open spec fn suffix(s: Seq<u8>, k: nat) -> int
    decreases k,
{
    if k == 0 {
        0
    } else {
        suffix(s, (k - 1) as nat) + s[s.len() - k] * pow2((8 * (k - 1)) as nat)
    }
}

/// A number is made of a prefix and a suffix.
proof fn lemma_suffix(s: Seq<u8>, k: nat)
    requires
        k <= s.len(),
    ensures
        suffix(s, k) >= 0,
        bytes::be_value(s) == bytes::be_prefix(s, (s.len() - k) as nat) * pow2((8 * k) as nat)
            + suffix(s, k),
    decreases k,
{
    lemma2_to64();
    if k == 0 {
        lemma_mul_basics(bytes::be_value(s));
    } else {
        let w = pow2((8 * (k - 1)) as nat) as int;
        let q = bytes::be_prefix(s, (s.len() - k) as nat);
        let d = s[s.len() - k] as int;
        lemma_suffix(s, (k - 1) as nat);
        lemma_pow2_adds(8, (8 * (k - 1)) as nat);
        lemma_mul_is_distributive_add_other_way(w, q * 256, d);
        lemma_mul_is_associative(q, 256, w);
        lemma_mul_nonnegative(d, w);
    }
}

/// The entries that a multiplier picks add up to the multiple.
pub proof fn lemma_window_sum(
    table: Seq<[AffinePoint; BASE_WINDOW_POINTS]>,
    scalar: Seq<u8>,
    k: nat,
    p: Point,
)
    requires
        curve::on_curve(p),
        is_window8_table(table, p),
        k <= table.len(),
        k <= scalar.len(),
    ensures
        window_sum(table, scalar, k) == curve::times(suffix(scalar, k) as nat, p),
        suffix(scalar, k) >= 0,
        k == scalar.len() ==> suffix(scalar, k) == bytes::be_value(scalar),
    decreases k,
{
    lemma_suffix(scalar, k);
    lemma_mul_basics(pow2((8 * k) as nat) as int);
    if k > 0 {
        let m = (k - 1) as nat;
        let d = scalar[scalar.len() - k] as nat;
        let w = pow2((8 * m) as nat);
        lemma_window_sum(table, scalar, m, p);
        lemma_mul_nonnegative(d as int, w as int);
        assert(is_table(table[k - 1]@, curve::times(w, p)));
        assert(table[k - 1]@[d as int]@ == curve::times(d, curve::times(w, p)));
        multiples::lemma_times_multiply(d, w, p);
        multiples::lemma_times_add(suffix(scalar, m) as nat, d * w, p);
    }
}

/// The points that affine points stand for.
pub open spec fn views(points: Seq<AffinePoint>) -> Seq<Point> {
    Seq::new(points.len(), |i: int| points[i]@)
}

/// The numbers that big-endian multipliers write.
pub open spec fn numbers(scalars: Seq<[u8; 32]>) -> Seq<int> {
    Seq::new(scalars.len(), |i: int| bytes::be_value(scalars[i]@))
}

impl ProjectivePoint {
    /// Multiplies the point by a big-endian number below the group order.
    ///
    /// `None` if the number is not below the group order. The time depends on
    /// the number, which must be public.
    pub fn mul_scalar_vartime(self, scalar: [u8; 32]) -> (r: Option<ProjectivePoint>)
        ensures
            r is Some <==> bytes::be_value(scalar@) < certificates::group_order(),
            r matches Some(p) ==> p@ == curve::times(bytes::be_value(scalar@) as nat, self@),
    {
        if Scalar::is_canonical(&scalar, Endianness::Big) {
            Some(self.mul_scalar_vartime_unchecked(scalar))
        } else {
            None
        }
    }

    /// Multiplies the point by a big-endian number.
    ///
    /// The number may be the group order or more; it counts modulo the group
    /// order. The time depends on the number, which must be public.
    pub fn mul_scalar_vartime_unchecked(self, scalar: [u8; 32]) -> (r: ProjectivePoint)
        ensures
            r@ == curve::times(bytes::be_value(scalar@) as nat, self@),
            r@ == curve::times(
                (bytes::be_value(scalar@) % certificates::group_order()) as nat,
                self@,
            ),
            curve::on_curve(r@),
    {
        proof {
            use_type_invariant(self);
            multiples::lemma_times_one(self@);
        }
        let mut table: [ProjectivePoint; 16] = [ProjectivePoint::identity();16];
        table[1] = self;
        for i in 2..16
            invariant
                2 <= i <= 16,
                forall|j: int| 0 <= j < i ==> (#[trigger] table@[j])@ == curve::times(
                    j as nat,
                    self@,
                ),
        {
            table[i] = table[i - 1] + self;
        }
        let affine_table = batch_normalize(table);
        let mut out = ProjectivePoint::identity();
        for i in 0..32
            invariant
                curve::on_curve(self@),
                curve::on_curve(out@),
                is_table(affine_table@, self@),
                bytes::be_prefix(scalar@, i as nat) >= 0,
                out@ == curve::times(bytes::be_prefix(scalar@, i as nat) as nat, self@),
        {
            let byte: u8 = scalar[i];
            let (high, low) = (high_digit(byte), low_digit(byte));
            let ghost k = bytes::be_prefix(scalar@, i as nat) as nat;
            proof {
                lemma2_to64();
                multiples::lemma_times_digit(k, high as nat, self@);
                multiples::lemma_times_digit(16 * k + high as nat, low as nat, self@);
            }
            out = double_n(out, 4);
            out = out.add_mixed(affine_table[high]);
            out = double_n(out, 4);
            out = out.add_mixed(affine_table[low]);
        }
        proof {
            order::lemma_times_reduce(bytes::be_value(scalar@) as nat, self@);
        }
        out
    }

    /// Multiplies the generator by a big-endian number below the group order.
    ///
    /// `None` if the number is not below the group order. The time depends on
    /// the number, which must be public.
    pub fn fixed_base_scalar_mul_vartime(scalar: [u8; 32]) -> (r: Option<ProjectivePoint>)
        ensures
            r is Some <==> bytes::be_value(scalar@) < certificates::group_order(),
            r matches Some(p) ==> p@ == curve::times(
                bytes::be_value(scalar@) as nat,
                generator::point(),
            ),
    {
        if Scalar::is_canonical(&scalar, Endianness::Big) {
            Some(ProjectivePoint::fixed_base_scalar_mul_vartime_unchecked(scalar))
        } else {
            None
        }
    }

    /// Multiplies the generator by a big-endian number.
    ///
    /// The number may be the group order or more; it counts modulo the group
    /// order. The time depends on the number, which must be public.
    pub fn fixed_base_scalar_mul_vartime_unchecked(scalar: [u8; 32]) -> (r: ProjectivePoint)
        ensures
            r@ == curve::times(bytes::be_value(scalar@) as nat, generator::point()),
            r@ == curve::times(
                (bytes::be_value(scalar@) % certificates::group_order()) as nat,
                generator::point(),
            ),
            curve::on_curve(r@),
    {
        let table = generator_window8_table();
        let r = mul_window8_vartime(&table, &scalar);
        proof {
            generator::lemma_on_curve();
            bytes::lemma_prefix(scalar@, scalar@, 32);
            order::lemma_times_reduce(bytes::be_value(scalar@) as nat, generator::point());
            multiples::lemma_times_closed(bytes::be_value(scalar@) as nat, generator::point());
        }
        r
    }

    /// Computes `generator_scalar * G + point_scalar * point` for big-endian
    /// numbers below the group order.
    ///
    /// `None` if either number is not below the group order; both are checked
    /// before anything is computed.
    pub fn double_scalar_mul_vartime(
        generator_scalar: [u8; 32],
        point: AffinePoint,
        point_scalar: [u8; 32],
    ) -> (r: Option<ProjectivePoint>)
        ensures
            r is Some <==> bytes::be_value(generator_scalar@) < certificates::group_order()
                && bytes::be_value(point_scalar@) < certificates::group_order(),
            r matches Some(p) ==> p@ == curve::plus(
                curve::times(bytes::be_value(generator_scalar@) as nat, generator::point()),
                curve::times(bytes::be_value(point_scalar@) as nat, point@),
            ),
    {
        let canonical = Scalar::is_canonical(&generator_scalar, Endianness::Big)
            && Scalar::is_canonical(&point_scalar, Endianness::Big);
        if canonical {
            Some(
                ProjectivePoint::double_scalar_mul_vartime_unchecked(
                    generator_scalar,
                    point,
                    point_scalar,
                ),
            )
        } else {
            None
        }
    }

    /// Computes `generator_scalar * G + point_scalar * point` for big-endian
    /// numbers.
    ///
    /// The numbers may be the group order or more; they count modulo the group
    /// order. The time depends on the numbers, which must be public.
    pub fn double_scalar_mul_vartime_unchecked(
        generator_scalar: [u8; 32],
        point: AffinePoint,
        point_scalar: [u8; 32],
    ) -> (r: ProjectivePoint)
        ensures
            r@ == curve::plus(
                curve::times(bytes::be_value(generator_scalar@) as nat, generator::point()),
                curve::times(bytes::be_value(point_scalar@) as nat, point@),
            ),
            r@ == curve::plus(
                curve::times(
                    (bytes::be_value(generator_scalar@) % certificates::group_order()) as nat,
                    generator::point(),
                ),
                curve::times(
                    (bytes::be_value(point_scalar@) % certificates::group_order()) as nat,
                    point@,
                ),
            ),
            curve::on_curve(r@),
    {
        let generator_table = generator_window4_table();
        let point_table = window4_table(point);
        let mut out = ProjectivePoint::identity();
        proof {
            use_type_invariant(point);
            generator::lemma_on_curve();
        }
        for i in 0..32
            invariant
                curve::on_curve(point@),
                curve::on_curve(generator::point()),
                is_table(generator_table@, generator::point()),
                is_table(point_table@, point@),
                bytes::be_prefix(generator_scalar@, i as nat) >= 0,
                bytes::be_prefix(point_scalar@, i as nat) >= 0,
                out@ == curve::plus(
                    curve::times(
                        bytes::be_prefix(generator_scalar@, i as nat) as nat,
                        generator::point(),
                    ),
                    curve::times(bytes::be_prefix(point_scalar@, i as nat) as nat, point@),
                ),
        {
            let (generator_byte, point_byte) = (generator_scalar[i], point_scalar[i]);
            let (generator_high, generator_low) = (
                high_digit(generator_byte),
                low_digit(generator_byte),
            );
            let (point_high, point_low) = (high_digit(point_byte), low_digit(point_byte));
            let ghost (g, p) = (generator::point(), point@);
            let ghost j = bytes::be_prefix(generator_scalar@, i as nat) as nat;
            let ghost k = bytes::be_prefix(point_scalar@, i as nat) as nat;
            proof {
                lemma2_to64();
                lemma_two_digits(j, generator_high as nat, g, k, point_high as nat, p);
                lemma_two_digits(
                    16 * j + generator_high as nat,
                    generator_low as nat,
                    g,
                    16 * k + point_high as nat,
                    point_low as nat,
                    p,
                );
            }
            out =
            double_n(out, 4).add_mixed(generator_table[generator_high]).add_mixed(
                point_table[point_high],
            );
            out =
            double_n(out, 4).add_mixed(generator_table[generator_low]).add_mixed(
                point_table[point_low],
            );
        }
        proof {
            use_type_invariant(out);
            order::lemma_times_reduce(
                bytes::be_value(generator_scalar@) as nat,
                generator::point(),
            );
            order::lemma_times_reduce(bytes::be_value(point_scalar@) as nat, point@);
        }
        out
    }

    /// Computes the sum of `scalars[i] * points[i]` for big-endian numbers below
    /// the group order.
    ///
    /// `None` if there are not as many points as numbers, or a number is not
    /// below the group order; all are checked before anything is computed. The
    /// time depends on the numbers, which must be public.
    pub fn multi_scalar_mul_vartime(points: &[AffinePoint], scalars: &[[u8; 32]]) -> (r: Option<
        ProjectivePoint,
    >)
        ensures
            r is Some <==> points@.len() == scalars@.len() && forall|i: int|
                0 <= i < scalars@.len() ==> bytes::be_value((#[trigger] scalars@[i])@)
                    < certificates::group_order(),
            r matches Some(p) ==> p@ == curve::combination(
                numbers(scalars@),
                views(points@),
                points@.len(),
            ),
            r matches Some(p) ==> p@ == curve::combination(
                Seq::new(scalars@.len(), |i: int| bytes::be_value(scalars@[i]@)),
                Seq::new(points@.len(), |i: int| points@[i]@),
                points@.len(),
            ),
    {
        if points.len() != scalars.len() {
            return None;
        }
        let mut i: usize = 0;
        while i < scalars.len()
            invariant
                i <= scalars@.len(),
                forall|j: int|
                    0 <= j < i ==> bytes::be_value((#[trigger] scalars@[j])@)
                        < certificates::group_order(),
            decreases scalars@.len() - i,
        {
            if !Scalar::is_canonical(&scalars[i], Endianness::Big) {
                assert(bytes::be_value(scalars@[i as int]@) >= certificates::group_order());
                return None;
            }
            i = i + 1;
        }
        ProjectivePoint::multi_scalar_mul_vartime_unchecked(points, scalars)
    }

    /// Computes the sum of `scalars[i] * points[i]` for big-endian numbers.
    ///
    /// `None` if there are not as many points as numbers. The numbers may be
    /// the group order or more; they count modulo the group order. The time
    /// depends on the numbers, which must be public.
    pub fn multi_scalar_mul_vartime_unchecked(
        points: &[AffinePoint],
        scalars: &[[u8; 32]],
    ) -> (r: Option<ProjectivePoint>)
        ensures
            r is Some <==> points@.len() == scalars@.len(),
            r matches Some(p) ==> p@ == curve::combination(
                numbers(scalars@),
                views(points@),
                points@.len(),
            ),
            r matches Some(p) ==> p@ == curve::combination(
                Seq::new(scalars@.len(), |i: int| bytes::be_value(scalars@[i]@)),
                Seq::new(points@.len(), |i: int| points@[i]@),
                points@.len(),
            ),
            r matches Some(p) ==> p@ == curve::combination(
                numbers(scalars@).map_values(|k: int| k % certificates::group_order()),
                views(points@),
                points@.len(),
            ),
            r matches Some(p) ==> curve::on_curve(p@),
    {
        if points.len() != scalars.len() {
            return None;
        }
        let count: usize = points.len();
        let ghost ps = views(points@);
        let mut tables: Vec<[AffinePoint; SHAMIR_WINDOW_POINTS]> = Vec::with_capacity(count);
        for i in 0..count
            invariant
                count == points@.len(),
                ps == views(points@),
                tables@.len() == i,
                forall|j: int| 0 <= j < i ==> #[trigger] curve::on_curve(ps[j]),
                forall|j: int| 0 <= j < i ==> is_table((#[trigger] tables@[j])@, ps[j]),
        {
            let point = points[i];
            proof {
                use_type_invariant(point);
            }
            tables.push(window4_table(point));
        }
        let mut out = ProjectivePoint::identity();
        proof {
            lemma_zero_combination(prefixes(scalars@, 0), ps, count as nat);
        }
        for byte_index in 0..32
            invariant
                count == points@.len(),
                count == scalars@.len(),
                count == ps.len(),
                tables@.len() == count,
                forall|j: int| 0 <= j < count ==> #[trigger] curve::on_curve(ps[j]),
                forall|j: int| 0 <= j < count ==> is_table((#[trigger] tables@[j])@, ps[j]),
                out@ == curve::combination(
                    prefixes(scalars@, byte_index as nat),
                    ps,
                    count as nat,
                ),
        {
            let ghost ks = prefixes(scalars@, byte_index as nat);
            let ghost hs = digits(scalars@, byte_index as int, true);
            let ghost ls = digits(scalars@, byte_index as int, false);
            let ghost ms = Seq::new(count as nat, |j: int| 16 * ks[j] + hs[j]);
            proof {
                lemma2_to64();
                assert forall|j: int| 0 <= j < count implies (#[trigger] ks[j]) >= 0 by {
                    bytes::lemma_prefix(scalars@[j]@, scalars@[j]@, byte_index as nat);
                }
                multiples::lemma_combination_digits(ks, hs, ms, ps, count as nat);
                let ns = prefixes(scalars@, (byte_index + 1) as nat);
                assert forall|j: int| 0 <= j < count implies (#[trigger] ms[j]) >= 0 && ls[j] >= 0
                    && ns[j] == 16 * ms[j] + ls[j] by {
                    assert(ks[j] >= 0);
                }
                multiples::lemma_combination_digits(ms, ls, ns, ps, count as nat);
            }
            out = double_n(out, 4);
            let ghost base = out@;
            for i in 0..count
                invariant
                    byte_index < 32,
                    count == scalars@.len(),
                    count == ps.len(),
                    tables@.len() == count,
                    forall|j: int| 0 <= j < count ==> #[trigger] curve::on_curve(ps[j]),
                    forall|j: int| 0 <= j < count ==> is_table((#[trigger] tables@[j])@, ps[j]),
                    hs == digits(scalars@, byte_index as int, true),
                    curve::on_curve(base),
                    out@ == curve::plus(base, curve::combination(hs, ps, i as nat)),
            {
                let digit = high_digit(scalars[i][byte_index]);
                proof {
                    lemma_accumulate(base, hs, ps, i as nat);
                    assert(is_table(tables@[i as int]@, ps[i as int]));
                }
                out = out.add_mixed(tables[i][digit]);
            }
            out = double_n(out, 4);
            let ghost base = out@;
            for i in 0..count
                invariant
                    byte_index < 32,
                    count == scalars@.len(),
                    count == ps.len(),
                    tables@.len() == count,
                    forall|j: int| 0 <= j < count ==> #[trigger] curve::on_curve(ps[j]),
                    forall|j: int| 0 <= j < count ==> is_table((#[trigger] tables@[j])@, ps[j]),
                    ls == digits(scalars@, byte_index as int, false),
                    curve::on_curve(base),
                    out@ == curve::plus(base, curve::combination(ls, ps, i as nat)),
            {
                let digit = low_digit(scalars[i][byte_index]);
                proof {
                    lemma_accumulate(base, ls, ps, i as nat);
                    assert(is_table(tables@[i as int]@, ps[i as int]));
                }
                out = out.add_mixed(tables[i][digit]);
            }
        }
        proof {
            use_type_invariant(out);
            assert(prefixes(scalars@, 32) =~= numbers(scalars@));
            assert forall|j: int| 0 <= j < count implies 0 <= #[trigger] numbers(scalars@)[j] by {
                bytes::lemma_prefix(scalars@[j]@, scalars@[j]@, 32);
            }
            order::lemma_combination_reduce(numbers(scalars@), ps, count as nat);
        }
        Some(out)
    }
}

/// The numbers that the first `n` bytes of multipliers write.
spec fn prefixes(scalars: Seq<[u8; 32]>, n: nat) -> Seq<int> {
    Seq::new(scalars.len(), |i: int| bytes::be_prefix(scalars[i]@, n))
}

/// The high or low digits in base 16 of one byte of multipliers.
spec fn digits(scalars: Seq<[u8; 32]>, index: int, high: bool) -> Seq<int> {
    Seq::new(
        scalars.len(),
        |i: int|
            if high {
                scalars[i]@[index] as int / 16
            } else {
                scalars[i]@[index] as int % 16
            },
    )
}

/// A combination with multipliers 0.
proof fn lemma_zero_combination(ks: Seq<int>, ps: Seq<Point>, n: nat)
    requires
        forall|i: int| 0 <= i < n ==> (#[trigger] ks[i]) == 0,
    ensures
        curve::combination(ks, ps, n) == Point::Infinity,
    decreases n,
{
    if n > 0 {
        lemma_zero_combination(ks, ps, (n - 1) as nat);
        assert(ks[n - 1] == 0);
    }
}

/// Adds one more multiple to a combination.
proof fn lemma_accumulate(base: Point, ks: Seq<int>, ps: Seq<Point>, n: nat)
    requires
        curve::on_curve(base),
        n < ps.len(),
        forall|i: int| 0 <= i < ps.len() ==> #[trigger] curve::on_curve(ps[i]),
    ensures
        curve::plus(
            curve::plus(base, curve::combination(ks, ps, n)),
            curve::times(ks[n as int] as nat, ps[n as int]),
        ) == curve::plus(base, curve::combination(ks, ps, n + 1)),
{
    assert(curve::on_curve(ps[n as int]));
    multiples::lemma_combination_closed(ks, ps, n);
    multiples::lemma_times_closed(ks[n as int] as nat, ps[n as int]);
    associativity::lemma_associative(
        base,
        curve::combination(ks, ps, n),
        curve::times(ks[n as int] as nat, ps[n as int]),
    );
}

/// Appends digits to two multipliers.
proof fn lemma_two_digits(j: nat, d: nat, p: Point, k: nat, e: nat, q: Point)
    requires
        curve::on_curve(p),
        curve::on_curve(q),
    ensures
        curve::plus(
            curve::plus(
                curve::times(16, curve::plus(curve::times(j, p), curve::times(k, q))),
                curve::times(d, p),
            ),
            curve::times(e, q),
        ) == curve::plus(curve::times(16 * j + d, p), curve::times(16 * k + e, q)),
{
    let (a, b) = (curve::times(j, p), curve::times(k, q));
    let (c, f) = (curve::times(d, p), curve::times(e, q));
    multiples::lemma_times_closed(j, p);
    multiples::lemma_times_closed(k, q);
    multiples::lemma_times_closed(d, p);
    multiples::lemma_times_closed(e, q);
    multiples::lemma_times_plus(16, a, b);
    let (g, h) = (curve::times(16, a), curve::times(16, b));
    multiples::lemma_times_closed(16, a);
    multiples::lemma_times_closed(16, b);
    addition::lemma_closed(g, h);
    associativity::lemma_associative(curve::plus(g, h), c, f);
    multiples::lemma_four(g, h, c, f);
    multiples::lemma_times_digit(j, d, p);
    multiples::lemma_times_digit(k, e, q);
}

} // verus!
