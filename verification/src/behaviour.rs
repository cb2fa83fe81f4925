//! What the results of calls satisfy, and how the results of several calls
//! relate.
//!
//! Where [`crate::laws`] speaks of mathematical points, these laws speak of the
//! values that go into the executable functions and come out of them.
//! `call_ensures(f, arguments, result)` says that a call of `f` may return
//! `result`; `valid()` holds of every value of a point type.
use crate::bytes;
use crate::encoding;
use crate::field::FieldElement;
use crate::group::AffinePoint;
use crate::group::ProjectivePoint;
use crate::laws;
use crate::math::curve;
use crate::math::curve::Point;
use crate::math::fp;
use crate::math::jacobian;
use crate::Endianness;
use core::ops::Add;
use core::ops::Neg;
use core::ops::Sub;
use vstd::prelude::*;

verus! {

/// Multiplying no points by no numbers gives the identity.
pub proof fn law_no_terms(
    points: &[AffinePoint],
    scalars: &[[u8; 32]],
    r: Option<ProjectivePoint>,
)
    requires
        points@.len() == 0,
        scalars@.len() == 0,
        call_ensures(
            ProjectivePoint::multi_scalar_mul_vartime_unchecked,
            (points, scalars),
            r,
        ),
    ensures
        r matches Some(p) && p@ == Point::Infinity,
{
}

/// However many points and numbers there are, the last point counts as often as
/// the bytes of the last number say: the result is the one for the others plus
/// that multiple.
pub proof fn law_last_term(
    points: &[AffinePoint],
    scalars: &[[u8; 32]],
    more_points: &[AffinePoint],
    more_scalars: &[[u8; 32]],
    r: Option<ProjectivePoint>,
    t: Option<ProjectivePoint>,
)
    requires
        points@.len() == scalars@.len(),
        more_points@.len() == points@.len() + 1,
        more_scalars@.len() == scalars@.len() + 1,
        more_points@.drop_last() == points@,
        more_scalars@.drop_last() == scalars@,
        call_ensures(
            ProjectivePoint::multi_scalar_mul_vartime_unchecked,
            (points, scalars),
            r,
        ),
        call_ensures(
            ProjectivePoint::multi_scalar_mul_vartime_unchecked,
            (more_points, more_scalars),
            t,
        ),
    ensures
        r is Some,
        t is Some,
        t->0@ == curve::plus(
            r->0@,
            curve::times(bytes::be_value(more_scalars@.last()@) as nat, more_points@.last()@),
        ),
{
    let (p, s) = (more_points@.last(), more_scalars@.last());
    assert(more_points@ =~= points@.push(p));
    assert(more_scalars@ =~= scalars@.push(s));
    laws::law_multiplication_next(points@, scalars@, p, s);
}

/// The last term is what the multiplication of the last point alone returns.
pub proof fn law_last_term_alone(
    points: &[AffinePoint],
    scalars: &[[u8; 32]],
    more_points: &[AffinePoint],
    more_scalars: &[[u8; 32]],
    r: Option<ProjectivePoint>,
    t: Option<ProjectivePoint>,
    last: ProjectivePoint,
    term: ProjectivePoint,
    total: ProjectivePoint,
)
    requires
        points@.len() == scalars@.len(),
        more_points@.len() == points@.len() + 1,
        more_scalars@.len() == scalars@.len() + 1,
        more_points@.drop_last() == points@,
        more_scalars@.drop_last() == scalars@,
        call_ensures(
            ProjectivePoint::multi_scalar_mul_vartime_unchecked,
            (points, scalars),
            r,
        ),
        call_ensures(
            ProjectivePoint::multi_scalar_mul_vartime_unchecked,
            (more_points, more_scalars),
            t,
        ),
        call_ensures(AffinePoint::to_projective, (more_points@.last(),), last),
        call_ensures(
            ProjectivePoint::mul_scalar_vartime_unchecked,
            (last, more_scalars@.last()),
            term,
        ),
        r is Some ==> call_ensures(ProjectivePoint::add, (r->0, term), total),
    ensures
        t matches Some(p) && p@ == total@,
{
    law_last_term(points, scalars, more_points, more_scalars, r, t);
}

/// The multiplication of points with checked numbers returns what the unchecked
/// one returns, exactly if there are as many points as numbers and every number
/// is below the group order.
pub proof fn law_checked_terms(
    points: &[AffinePoint],
    scalars: &[[u8; 32]],
    r: Option<ProjectivePoint>,
    t: Option<ProjectivePoint>,
)
    requires
        call_ensures(ProjectivePoint::multi_scalar_mul_vartime, (points, scalars), r),
        call_ensures(
            ProjectivePoint::multi_scalar_mul_vartime_unchecked,
            (points, scalars),
            t,
        ),
    ensures
        t is Some <==> points@.len() == scalars@.len(),
        r is Some <==> t is Some && forall|i: int|
            0 <= i < scalars@.len() ==> bytes::be_value((#[trigger] scalars@[i])@)
                < 0xffffffff00000000ffffffffffffffffbce6faada7179e84f3b9cac2fc632551int,
        r is Some ==> r->0@ == t->0@,
{
}

/// Multiplying by 0 gives the identity, and multiplying by the next number adds
/// the point once more.
pub proof fn law_next_multiple(
    p: ProjectivePoint,
    s: [u8; 32],
    t: [u8; 32],
    r: ProjectivePoint,
    q: ProjectivePoint,
    sum: ProjectivePoint,
)
    requires
        bytes::be_value(t@) == bytes::be_value(s@) + 1,
        call_ensures(ProjectivePoint::mul_scalar_vartime_unchecked, (p, s), r),
        call_ensures(ProjectivePoint::mul_scalar_vartime_unchecked, (p, t), q),
        call_ensures(ProjectivePoint::add, (r, p), sum),
    ensures
        bytes::be_value(s@) == 0 ==> r@ == Point::Infinity && q@ == p@,
        q@ == sum@,
{
    bytes::lemma_prefix(s@, s@, 32);
    laws::law_times_next(bytes::be_value(s@) as nat, p@);
}

/// The checked multiplication returns what the unchecked one returns, exactly if
/// the number is below the group order.
pub proof fn law_checked_multiple(
    p: ProjectivePoint,
    s: [u8; 32],
    r: Option<ProjectivePoint>,
    t: ProjectivePoint,
    f: Option<ProjectivePoint>,
    g: ProjectivePoint,
)
    requires
        call_ensures(ProjectivePoint::mul_scalar_vartime, (p, s), r),
        call_ensures(ProjectivePoint::mul_scalar_vartime_unchecked, (p, s), t),
        call_ensures(ProjectivePoint::fixed_base_scalar_mul_vartime, (s,), f),
        call_ensures(ProjectivePoint::fixed_base_scalar_mul_vartime_unchecked, (s,), g),
    ensures
        r is Some <==> bytes::be_value(s@)
            < 0xffffffff00000000ffffffffffffffffbce6faada7179e84f3b9cac2fc632551int,
        f is Some <==> r is Some,
        r is Some ==> r->0@ == t@,
        f is Some ==> f->0@ == g@,
{
}

/// Multiplying the generator with its table returns what the multiplication of
/// the generator as any other point returns.
pub proof fn law_fixed_base(
    s: [u8; 32],
    g: ProjectivePoint,
    r: ProjectivePoint,
    t: ProjectivePoint,
)
    requires
        call_ensures(ProjectivePoint::generator, (), g),
        call_ensures(ProjectivePoint::fixed_base_scalar_mul_vartime_unchecked, (s,), r),
        call_ensures(ProjectivePoint::mul_scalar_vartime_unchecked, (g, s), t),
    ensures
        r@ == t@,
{
}

/// The double multiplication returns the sum of what the multiplications of the
/// generator and of the point return. The checked form returns it exactly if
/// both numbers are below the group order.
pub proof fn law_double_multiplication_alone(
    j: [u8; 32],
    p: AffinePoint,
    k: [u8; 32],
    r: ProjectivePoint,
    c: Option<ProjectivePoint>,
    q: ProjectivePoint,
    f: ProjectivePoint,
    m: ProjectivePoint,
    sum: ProjectivePoint,
)
    requires
        call_ensures(ProjectivePoint::double_scalar_mul_vartime_unchecked, (j, p, k), r),
        call_ensures(ProjectivePoint::double_scalar_mul_vartime, (j, p, k), c),
        call_ensures(AffinePoint::to_projective, (p,), q),
        call_ensures(ProjectivePoint::fixed_base_scalar_mul_vartime_unchecked, (j,), f),
        call_ensures(ProjectivePoint::mul_scalar_vartime_unchecked, (q, k), m),
        call_ensures(ProjectivePoint::add, (f, m), sum),
    ensures
        r@ == sum@,
        c is Some <==> bytes::be_value(j@)
            < 0xffffffff00000000ffffffffffffffffbce6faada7179e84f3b9cac2fc632551int
            && bytes::be_value(k@)
            < 0xffffffff00000000ffffffffffffffffbce6faada7179e84f3b9cac2fc632551int,
        c is Some ==> c->0@ == sum@,
{
}

/// The parity of a number is that of its last byte.
proof fn lemma_last_byte(s: Seq<u8>)
    requires
        s.len() == 32,
    ensures
        bytes::be_value(s) % 2 == s[31] % 2,
{
    assert(bytes::be_value(s) == bytes::be_prefix(s, 31) * 256 + s[31]);
}

/// Byte strings that write one number, one of them in reverse.
proof fn lemma_reversed(s: Seq<u8>, t: Seq<u8>)
    requires
        s.len() == t.len(),
        bytes::be_value(s.reverse()) == bytes::be_value(t),
    ensures
        s == t.reverse(),
{
    bytes::lemma_be_injective(s.reverse(), t);
    assert(s.reverse().reverse() =~= s);
}

/// Whatever its abscissa is, a point is compressed to a first byte that is 2 if
/// the last byte of its ordinate is even and 3 if it is odd, and to the bytes of
/// its abscissa.
pub proof fn law_compressed_bytes(
    a: AffinePoint,
    endianness: Endianness,
    s: [u8; 33],
    x: FieldElement,
    y: FieldElement,
    x_bytes: [u8; 32],
    y_bytes: [u8; 32],
)
    requires
        call_ensures(AffinePoint::to_compressed, (a, endianness), Some(s)),
        call_ensures(AffinePoint::x, (a,), Some(x)),
        call_ensures(AffinePoint::y, (a,), Some(y)),
        call_ensures(FieldElement::to_be_bytes, (x,), x_bytes),
        call_ensures(FieldElement::to_be_bytes, (y,), y_bytes),
    ensures
        y_bytes@[31] % 2 == 0 ==> s@[0] == 2,
        y_bytes@[31] % 2 == 1 ==> s@[0] == 3,
        endianness == Endianness::Big ==> s@.subrange(1, 33) == x_bytes@,
        endianness == Endianness::Little ==> s@.subrange(1, 33) == x_bytes@.reverse(),
{
    lemma_last_byte(y_bytes@);
    match endianness {
        Endianness::Big => {
            bytes::lemma_be_injective(s@.subrange(1, 33), x_bytes@);
        },
        Endianness::Little => {
            lemma_reversed(s@.subrange(1, 33), x_bytes@);
        },
    }
}

/// Whatever the abscissa is, a compressed encoding that starts with 2 is read as
/// a point with an even ordinate, one that starts with 3 as a point with an odd
/// one, and another as none. The other bytes are those of the abscissa.
pub proof fn law_decompressed_bytes(
    s: [u8; 33],
    endianness: Endianness,
    a: AffinePoint,
    x: FieldElement,
    y: FieldElement,
    x_bytes: [u8; 32],
    y_bytes: [u8; 32],
)
    requires
        call_ensures(AffinePoint::from_compressed, (&s, endianness), Some(a)),
        call_ensures(AffinePoint::x, (a,), Some(x)),
        call_ensures(AffinePoint::y, (a,), Some(y)),
        call_ensures(FieldElement::to_be_bytes, (x,), x_bytes),
        call_ensures(FieldElement::to_be_bytes, (y,), y_bytes),
    ensures
        s@[0] == 2 || s@[0] == 3,
        s@[0] == 2 <==> y_bytes@[31] % 2 == 0,
        s@[0] == 3 <==> y_bytes@[31] % 2 == 1,
        endianness == Endianness::Big ==> s@.subrange(1, 33) == x_bytes@,
        endianness == Endianness::Little ==> s@.subrange(1, 33) == x_bytes@.reverse(),
        curve::on_curve(a@),
        a@ == (Point::Affine { x: x@, y: y@ }),
{
    lemma_last_byte(y_bytes@);
    match endianness {
        Endianness::Big => {
            bytes::lemma_be_injective(s@.subrange(1, 33), x_bytes@);
        },
        Endianness::Little => {
            lemma_reversed(s@.subrange(1, 33), x_bytes@);
        },
    }
}

/// A compressed encoding is accepted wherever there is a point of the curve with
/// that abscissa and an ordinate of that parity, and read as that point.
pub proof fn law_compressed_accepted(s: [u8; 33], r: Option<AffinePoint>, x: int, y: int)
    requires
        call_ensures(AffinePoint::from_compressed, (&s, Endianness::Big), r),
        curve::on_curve(Point::Affine { x, y }),
        bytes::be_value(s@.subrange(1, 33)) == x,
        s@[0] == 2 && y % 2 == 0 || s@[0] == 3 && y % 2 == 1,
    ensures
        r matches Some(a) && a@ == (Point::Affine { x, y }),
{
    let p = Point::Affine { x, y };
    laws::law_compressed(x, y, s@);
    assert(curve::on_curve(p) && encoding::compressed(p, s@, Endianness::Big));
    laws::law_compressed_read(p, r->0@, s@, Endianness::Big);
}

/// The same for encodings in little-endian order.
pub proof fn law_compressed_accepted_little_endian(
    s: [u8; 33],
    r: Option<AffinePoint>,
    x: int,
    y: int,
)
    requires
        call_ensures(AffinePoint::from_compressed, (&s, Endianness::Little), r),
        curve::on_curve(Point::Affine { x, y }),
        bytes::be_value(s@.subrange(1, 33).reverse()) == x,
        s@[0] == 2 && y % 2 == 0 || s@[0] == 3 && y % 2 == 1,
    ensures
        r matches Some(a) && a@ == (Point::Affine { x, y }),
{
    let p = Point::Affine { x, y };
    laws::law_compressed(x, y, s@);
    assert(curve::on_curve(p) && encoding::compressed(p, s@, Endianness::Little));
    laws::law_compressed_read(p, r->0@, s@, Endianness::Little);
}

/// A point that is compressed and decompressed is the point, and an encoding
/// that is decompressed and compressed is the encoding.
pub proof fn law_compressed_round_trip(
    a: AffinePoint,
    endianness: Endianness,
    r: Option<[u8; 33]>,
    t: Option<AffinePoint>,
    s: [u8; 33],
    b: Option<AffinePoint>,
    u: Option<[u8; 33]>,
)
    requires
        a.valid(),
        call_ensures(AffinePoint::to_compressed, (a, endianness), r),
        r is Some ==> call_ensures(AffinePoint::from_compressed, (&r->0, endianness), t),
        call_ensures(AffinePoint::from_compressed, (&s, endianness), b),
        b is Some ==> call_ensures(AffinePoint::to_compressed, (b->0, endianness), u),
    ensures
        r is None <==> a@ is Infinity,
        r is Some ==> (t matches Some(q) && q@ == a@),
        b is Some ==> (u matches Some(v) && v@ == s@),
{
    a.law_on_curve();
    if r is Some {
        assert(curve::on_curve(a@) && encoding::compressed(a@, r->0@, endianness));
        laws::law_compressed_read(a@, t->0@, r->0@, endianness);
    }
    if b is Some {
        laws::law_compressed_write(b->0@, s@, u->0@, endianness);
    }
}

/// A point is written uncompressed as the bytes of its abscissa and those of its
/// ordinate.
pub proof fn law_uncompressed_bytes(
    a: AffinePoint,
    endianness: Endianness,
    s: [u8; 64],
    x: FieldElement,
    y: FieldElement,
    x_bytes: [u8; 32],
    y_bytes: [u8; 32],
)
    requires
        call_ensures(AffinePoint::to_uncompressed, (a, endianness), s),
        call_ensures(AffinePoint::x, (a,), Some(x)),
        call_ensures(AffinePoint::y, (a,), Some(y)),
        call_ensures(FieldElement::to_be_bytes, (x,), x_bytes),
        call_ensures(FieldElement::to_be_bytes, (y,), y_bytes),
    ensures
        endianness == Endianness::Big ==> s@ == x_bytes@ + y_bytes@,
        endianness == Endianness::Little ==> s@ == x_bytes@.reverse() + y_bytes@.reverse(),
{
    let (first, second) = (s@.subrange(0, 32), s@.subrange(32, 64));
    assert(s@ =~= first + second);
    match endianness {
        Endianness::Big => {
            bytes::lemma_be_injective(first, x_bytes@);
            bytes::lemma_be_injective(second, y_bytes@);
        },
        Endianness::Little => {
            lemma_reversed(first, x_bytes@);
            lemma_reversed(second, y_bytes@);
        },
    }
}

/// A point that is written and read is the point, and bytes that are read and
/// written are the bytes. The identity is written as zero bytes, which are read
/// as the identity.
pub proof fn law_uncompressed_round_trip(
    a: AffinePoint,
    endianness: Endianness,
    r: [u8; 64],
    t: Option<AffinePoint>,
    s: [u8; 64],
    b: Option<AffinePoint>,
    u: [u8; 64],
)
    requires
        a.valid(),
        call_ensures(AffinePoint::to_uncompressed, (a, endianness), r),
        call_ensures(AffinePoint::from_uncompressed, (&r, endianness), t),
        call_ensures(AffinePoint::from_uncompressed, (&s, endianness), b),
        b is Some ==> call_ensures(AffinePoint::to_uncompressed, (b->0, endianness), u),
    ensures
        t matches Some(q) && q@ == a@,
        b is Some ==> u@ == s@,
        a@ is Infinity <==> forall|i: int| 0 <= i < 64 ==> r@[i] == 0,
{
    a.law_on_curve();
    laws::law_uncompressed_read(a@, r@, endianness);
    if b is Some {
        laws::law_uncompressed_write(b->0@, s@, u@, endianness);
    }
}

/// The uncompressed bytes of a point in Jacobian coordinates are those of the
/// point in affine coordinates.
pub proof fn law_uncompressed_jacobian(
    p: ProjectivePoint,
    endianness: Endianness,
    a: AffinePoint,
    r: [u8; 64],
    t: [u8; 64],
)
    requires
        call_ensures(ProjectivePoint::to_affine, (p,), a),
        call_ensures(ProjectivePoint::to_uncompressed, (p, endianness), r),
        call_ensures(AffinePoint::to_uncompressed, (a, endianness), t),
    ensures
        r@ == t@,
{
    laws::law_uncompressed_unique(p@, r@, t@, endianness);
}

/// Points in Jacobian coordinates are equal exactly if both are the identity or
/// neither is and their affine coordinates have the same bytes, both the
/// abscissas and the ordinates.
pub proof fn law_equal_points(
    p: ProjectivePoint,
    q: ProjectivePoint,
    r: bool,
    a: AffinePoint,
    b: AffinePoint,
    s: [u8; 64],
    t: [u8; 64],
)
    requires
        p.valid(),
        q.valid(),
        call_ensures(ProjectivePoint::eq, (&p, &q), r),
        call_ensures(ProjectivePoint::to_affine, (p,), a),
        call_ensures(ProjectivePoint::to_affine, (q,), b),
        call_ensures(AffinePoint::to_uncompressed, (a, Endianness::Big), s),
        call_ensures(AffinePoint::to_uncompressed, (b, Endianness::Big), t),
    ensures
        r <==> p@ == q@,
        r <==> s@ == t@,
{
    p.law_on_curve();
    q.law_on_curve();
    if s@ == t@ {
        laws::law_uncompressed_read(a@, s@, Endianness::Big);
        laws::law_uncompressed_read(b@, t@, Endianness::Big);
    }
    if r {
        laws::law_uncompressed_unique(a@, s@, t@, Endianness::Big);
    }
}

/// Points in Jacobian coordinates are equal exactly if their coordinates are
/// proportional, whatever the scale: both products with the denominators agree,
/// and one denominator is 0 only if the other is.
pub proof fn law_equal_coordinates(
    p: ProjectivePoint,
    q: ProjectivePoint,
    r: bool,
    c: (FieldElement, FieldElement, FieldElement),
    d: (FieldElement, FieldElement, FieldElement),
)
    requires
        call_ensures(ProjectivePoint::eq, (&p, &q), r),
        call_ensures(ProjectivePoint::coordinates, (p,), c),
        call_ensures(ProjectivePoint::coordinates, (q,), d),
    ensures
        c.2@ == 0 || d.2@ == 0 ==> (r <==> c.2@ == d.2@),
        c.2@ != 0 && d.2@ != 0 ==> (r <==> (c.0@ * (d.2@ * d.2@) - d.0@ * (c.2@ * c.2@)) % fp::p()
            == 0 && (c.1@ * (d.2@ * d.2@ * d.2@) - d.1@ * (c.2@ * c.2@ * c.2@)) % fp::p() == 0),
{
    c.2.lemma_bounds();
    d.2.lemma_bounds();
    let (x1, y1, z1) = (c.0@, c.1@, c.2@);
    let (x2, y2, z2) = (d.0@, d.1@, d.2@);
    fp::lemma_canonical(z1);
    fp::lemma_canonical(z2);
    if z1 != 0 && z2 != 0 {
        jacobian::lemma_point(x1, y1, z1);
        jacobian::lemma_point(x2, y2, z2);
        let (a, b) = (jacobian::point(x1, y1, z1), jacobian::point(x2, y2, z2));
        fp::lemma_product(z1, z1);
        fp::lemma_product(z1 * z1, z1);
        fp::lemma_product(z2, z2);
        fp::lemma_product(z2 * z2, z2);
        lemma_proportional(x1, z1 * z1, a->x, x2, z2 * z2, b->x);
        lemma_proportional(y1, z1 * z1 * z1, a->y, y2, z2 * z2 * z2, b->y);
    }
}

/// Fractions are equal where the cross products are.
proof fn lemma_proportional(u: int, v: int, a: int, w: int, z: int, b: int)
    requires
        !fp::vanishes(v),
        !fp::vanishes(z),
        fp::canonical(a),
        fp::canonical(b),
        fp::vanishes(u - a * v),
        fp::vanishes(w - b * z),
    ensures
        (u * z - w * v) % fp::p() == 0 <==> a == b,
{
    let k = v * z;
    fp::lemma_zero();
    fp::lemma_vanishes(u * z - w * v);
    fp::lemma_mul(u, a * v, z, z);
    fp::lemma_mul(w, b * z, v, v);
    assert((a * v) * z == k * a) by (nonlinear_arith)
        requires
            k == v * z,
    ;
    assert((b * z) * v == k * b) by (nonlinear_arith)
        requires
            k == v * z,
    ;
    fp::lemma_add(u * z - k * a, w * v - k * b);
    fp::lemma_shift(u * z - w * v, k * a - k * b);
    fp::lemma_product(v, z);
    if fp::vanishes(k * a - k * b) {
        fp::lemma_cancel_factor(k, a, b);
        fp::lemma_unique(a, b);
    }
}

/// A point equals its inverse only if it is the identity, in either form and at
/// whatever scale the two are held.
pub proof fn law_unequal_inverse(
    p: ProjectivePoint,
    q: ProjectivePoint,
    n: ProjectivePoint,
    r: bool,
)
    requires
        p.valid(),
        p@ == q@,
        call_ensures(ProjectivePoint::neg, (q,), n),
        call_ensures(ProjectivePoint::eq, (&p, &n), r),
    ensures
        r <==> p@ is Infinity,
{
    p.law_on_curve();
    if let Point::Affine { x, y } = p@ {
        laws::law_negative(x, y);
    }
}

/// Affine points are equal exactly if both are the identity or they have the same
/// coordinates.
pub proof fn law_equal_affine_points(
    a: AffinePoint,
    b: AffinePoint,
    r: bool,
    ax: Option<FieldElement>,
    ay: Option<FieldElement>,
    bx: Option<FieldElement>,
    by_: Option<FieldElement>,
)
    requires
        call_ensures(AffinePoint::eq, (&a, &b), r),
        call_ensures(AffinePoint::x, (a,), ax),
        call_ensures(AffinePoint::y, (a,), ay),
        call_ensures(AffinePoint::x, (b,), bx),
        call_ensures(AffinePoint::y, (b,), by_),
    ensures
        ax is None || bx is None ==> (r <==> ax is None && bx is None),
        ax is Some && bx is Some ==> (r <==> ax->0@ == bx->0@ && ay->0@ == by_->0@),
{
}

/// Field elements are equal exactly if their bytes are.
pub proof fn law_equal_elements(
    a: FieldElement,
    b: FieldElement,
    r: bool,
    s: [u8; 32],
    t: [u8; 32],
)
    requires
        call_ensures(FieldElement::eq, (&a, &b), r),
        call_ensures(FieldElement::to_be_bytes, (a,), s),
        call_ensures(FieldElement::to_be_bytes, (b,), t),
    ensures
        r <==> s@ == t@,
{
    if a@ == b@ {
        bytes::lemma_be_injective(s@, t@);
    }
}

/// Bytes of a field element that are read give the element, and bytes that are
/// read are written back unchanged; they are refused exactly if their number is
/// not below the modulus.
pub proof fn law_element_bytes(
    a: FieldElement,
    s: [u8; 32],
    r: Option<FieldElement>,
    t: [u8; 32],
    b: Option<FieldElement>,
    u: [u8; 32],
)
    requires
        call_ensures(FieldElement::to_be_bytes, (a,), s),
        call_ensures(FieldElement::from_be_bytes, (s,), r),
        call_ensures(FieldElement::from_be_bytes, (t,), b),
        b is Some ==> call_ensures(FieldElement::to_be_bytes, (b->0,), u),
    ensures
        r matches Some(e) && e@ == a@,
        b is Some ==> u@ == t@,
        b is Some <==> bytes::be_value(t@)
            < 0xffffffff00000001000000000000000000000000ffffffffffffffffffffffffint,
{
    a.lemma_bounds();
    if b is Some {
        bytes::lemma_be_injective(u@, t@);
    }
}

/// The sum with an affine point and the sum with a point in Jacobian coordinates
/// agree, and doubling is adding a point to itself.
pub proof fn law_sums_agree(
    p: ProjectivePoint,
    a: AffinePoint,
    q: ProjectivePoint,
    mixed: ProjectivePoint,
    sum: ProjectivePoint,
    doubled: ProjectivePoint,
    twice: ProjectivePoint,
)
    requires
        call_ensures(AffinePoint::to_projective, (a,), q),
        call_ensures(ProjectivePoint::add_mixed, (p, a), mixed),
        call_ensures(ProjectivePoint::add, (p, q), sum),
        call_ensures(ProjectivePoint::double, (p,), doubled),
        call_ensures(ProjectivePoint::add, (p, p), twice),
    ensures
        mixed@ == sum@,
        doubled@ == twice@,
{
}

/// Subtracting a point undoes adding it, and a point minus itself is the
/// identity.
pub proof fn law_difference(
    p: ProjectivePoint,
    q: ProjectivePoint,
    sum: ProjectivePoint,
    back: ProjectivePoint,
    none: ProjectivePoint,
)
    requires
        p.valid(),
        q.valid(),
        call_ensures(ProjectivePoint::add, (p, q), sum),
        call_ensures(ProjectivePoint::sub, (sum, q), back),
        call_ensures(ProjectivePoint::sub, (p, p), none),
    ensures
        back@ == p@,
        none@ == Point::Infinity,
{
    p.law_on_curve();
    q.law_on_curve();
    laws::law_subtraction(p@, q@);
    laws::law_inverse(p@);
}

/// The sum of two points with different abscissas, in the coordinates of the
/// points and of the sum: the three points are on the chord.
pub proof fn law_sum_coordinates(
    p: ProjectivePoint,
    q: ProjectivePoint,
    sum: ProjectivePoint,
    a: AffinePoint,
    b: AffinePoint,
    c: AffinePoint,
    x1: FieldElement,
    y1: FieldElement,
    x2: FieldElement,
    y2: FieldElement,
)
    requires
        p.valid(),
        q.valid(),
        call_ensures(ProjectivePoint::add, (p, q), sum),
        call_ensures(ProjectivePoint::to_affine, (p,), a),
        call_ensures(ProjectivePoint::to_affine, (q,), b),
        call_ensures(ProjectivePoint::to_affine, (sum,), c),
        call_ensures(AffinePoint::x, (a,), Some(x1)),
        call_ensures(AffinePoint::y, (a,), Some(y1)),
        call_ensures(AffinePoint::x, (b,), Some(x2)),
        call_ensures(AffinePoint::y, (b,), Some(y2)),
        x1@ != x2@,
    ensures
        c@ matches Point::Affine { x: x3, y: y3 } && ((x1@ + x2@ + x3) * ((x2@ - x1@) * (x2@
            - x1@)) - (y2@ - y1@) * (y2@ - y1@)) % fp::p() == 0 && ((y1@ + y3) * (x2@ - x1@) - (y2@
            - y1@) * (x1@ - x3)) % fp::p() == 0,
{
    p.law_on_curve();
    q.law_on_curve();
    laws::law_chord(x1@, y1@, x2@, y2@);
}

/// A point has an abscissa exactly if that is the abscissa of the point in
/// affine coordinates.
pub proof fn law_abscissa(
    p: ProjectivePoint,
    x: FieldElement,
    r: bool,
    a: AffinePoint,
    ax: Option<FieldElement>,
)
    requires
        call_ensures(ProjectivePoint::has_affine_x, (p, x), r),
        call_ensures(ProjectivePoint::to_affine, (p,), a),
        call_ensures(AffinePoint::x, (a,), ax),
    ensures
        r <==> (ax matches Some(e) && e@ == x@),
{
}

} // verus!
