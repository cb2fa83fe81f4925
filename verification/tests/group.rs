use p256::elliptic_curve::ff::PrimeField;
use p256::elliptic_curve::group::Group;
use p256::elliptic_curve::sec1::ToEncodedPoint;
use p256::ProjectivePoint as P256ProjectivePoint;
use p256::Scalar;
use secp256r1::field::FieldElement;
use secp256r1::group::AffinePoint;
use secp256r1::group::ProjectivePoint;
use secp256r1::Endianness;

const SCALAR: [u8; 32] = [
    0x12, 0x34, 0x56, 0x78, 0x90, 0xab, 0xcd, 0xef, 0x11, 0x22, 0x33, 0x44, 0x55, 0x66, 0x77, 0x88,
    0x12, 0x34, 0x56, 0x78, 0x90, 0xab, 0xcd, 0xef, 0x11, 0x22, 0x33, 0x44, 0x55, 0x66, 0x77, 0x88,
];

const SMALL_SCALAR: [u8; 32] = [
    0, 0, 0, 0, 0, 0, 0, 0, 0, 0, 0, 0, 0, 0, 0, 0, 0, 0, 0, 0, 0, 0, 0, 0, 0, 0, 0, 0, 0, 0, 0, 5,
];

const GROUP_ORDER: [u8; 32] = [
    0xff, 0xff, 0xff, 0xff, 0x00, 0x00, 0x00, 0x00, 0xff, 0xff, 0xff, 0xff, 0xff, 0xff, 0xff, 0xff,
    0xbc, 0xe6, 0xfa, 0xad, 0xa7, 0x17, 0x9e, 0x84, 0xf3, 0xb9, 0xca, 0xc2, 0xfc, 0x63, 0x25, 0x51,
];

fn assert_matches_p256(rust: ProjectivePoint, p256: P256ProjectivePoint) {
    let rust_bytes = rust.to_uncompressed(Endianness::Big);
    let p256_bytes = p256.to_affine().to_encoded_point(false);
    assert_eq!(rust_bytes.as_slice(), &p256_bytes.as_bytes()[1..]);
}

#[test]
fn generator_matches_p256() {
    assert_matches_p256(ProjectivePoint::generator(), P256ProjectivePoint::generator());
}

#[test]
fn parses_and_serializes_generator() {
    let bytes = ProjectivePoint::generator().to_uncompressed(Endianness::Big);
    assert_eq!(
        AffinePoint::from_uncompressed(&bytes, Endianness::Big).unwrap(),
        AffinePoint::generator()
    );
}

#[test]
fn projective_equality_ignores_jacobian_scale() {
    let point = ProjectivePoint::generator().double();
    let normalized = ProjectivePoint::from_affine(point.to_affine());
    assert_eq!(point, normalized);

    let z = FieldElement::from_u64(7);
    let z2 = z.square();
    let (point_x, point_y, point_z) = point.coordinates();
    let scaled =
        ProjectivePoint::from_jacobian(point_x * z2, point_y * z2 * z, point_z * z).unwrap();

    assert_eq!(point, scaled);
    assert_ne!(point, -point);
}

#[test]
fn double_matches_p256() {
    let p256 = P256ProjectivePoint::generator().double();
    assert_matches_p256(ProjectivePoint::generator().double(), p256);
}

#[test]
fn add_matches_p256() {
    let rust_g = ProjectivePoint::generator();
    let rust_2g = rust_g.double();
    let p256_g = P256ProjectivePoint::generator();
    let p256_2g = p256_g.double();

    assert_matches_p256(rust_2g + rust_g, p256_2g + p256_g);
}

#[test]
fn mixed_add_matches_p256() {
    let rust_g = ProjectivePoint::generator();
    let rust_2g = rust_g.double();
    let p256_g = P256ProjectivePoint::generator();
    let p256_2g = p256_g.double();

    assert_matches_p256(rust_2g.add_mixed(AffinePoint::generator()), p256_2g + p256_g);
}

#[test]
fn scalar_mul_matches_p256() {
    let scalar = Option::<Scalar>::from(Scalar::from_repr(SCALAR.into())).unwrap();
    assert_matches_p256(
        ProjectivePoint::generator().mul_scalar_vartime(SCALAR).unwrap(),
        P256ProjectivePoint::generator() * scalar,
    );
}

#[test]
fn fixed_base_scalar_mul_matches_p256() {
    let scalar = Option::<Scalar>::from(Scalar::from_repr(SCALAR.into())).unwrap();
    assert_matches_p256(
        ProjectivePoint::fixed_base_scalar_mul_vartime(SCALAR).unwrap(),
        P256ProjectivePoint::generator() * scalar,
    );
}

#[test]
fn double_scalar_mul_matches_p256() {
    let scalar = Option::<Scalar>::from(Scalar::from_repr(SCALAR.into())).unwrap();
    let point = ProjectivePoint::generator().double().to_affine();
    let p256_point = P256ProjectivePoint::generator().double();

    assert_matches_p256(
        ProjectivePoint::double_scalar_mul_vartime(SCALAR, point, SCALAR).unwrap(),
        (P256ProjectivePoint::generator() * scalar) + (p256_point * scalar),
    );
}

#[test]
fn multi_scalar_mul_matches_p256() {
    let scalar = Option::<Scalar>::from(Scalar::from_repr(SCALAR.into())).unwrap();
    let small_scalar = Option::<Scalar>::from(Scalar::from_repr(SMALL_SCALAR.into())).unwrap();
    let point = ProjectivePoint::generator().double().to_affine();
    let p256_point = P256ProjectivePoint::generator().double();

    assert_matches_p256(
        ProjectivePoint::multi_scalar_mul_vartime(
            &[AffinePoint::generator(), point],
            &[SCALAR, SMALL_SCALAR],
        )
        .unwrap(),
        (P256ProjectivePoint::generator() * scalar) + (p256_point * small_scalar),
    );
}

#[test]
fn multi_scalar_mul_rejects_length_mismatch() {
    assert!(ProjectivePoint::multi_scalar_mul_vartime(&[AffinePoint::generator()], &[]).is_none());
}

#[test]
fn scalar_multiplication_rejects_non_canonical_scalars() {
    let generator = ProjectivePoint::generator();
    let affine_generator = AffinePoint::generator();

    assert!(generator.mul_scalar_vartime(GROUP_ORDER).is_none());
    assert!(ProjectivePoint::fixed_base_scalar_mul_vartime(GROUP_ORDER).is_none());
    assert!(
        ProjectivePoint::double_scalar_mul_vartime(GROUP_ORDER, affine_generator, SCALAR).is_none()
    );
    assert!(
        ProjectivePoint::double_scalar_mul_vartime(SCALAR, affine_generator, GROUP_ORDER).is_none()
    );
    assert!(
        ProjectivePoint::multi_scalar_mul_vartime(&[affine_generator], &[GROUP_ORDER]).is_none()
    );
}

#[test]
fn unchecked_scalar_multiplication_accepts_non_canonical_scalars() {
    let generator = ProjectivePoint::generator();
    let affine_generator = AffinePoint::generator();

    assert_eq!(
        generator.mul_scalar_vartime_unchecked(GROUP_ORDER),
        ProjectivePoint::identity()
    );
    assert_eq!(
        ProjectivePoint::fixed_base_scalar_mul_vartime_unchecked(GROUP_ORDER),
        ProjectivePoint::identity()
    );
    assert_eq!(
        ProjectivePoint::double_scalar_mul_vartime_unchecked(
            GROUP_ORDER,
            affine_generator,
            GROUP_ORDER,
        ),
        ProjectivePoint::identity()
    );
    assert_eq!(
        ProjectivePoint::multi_scalar_mul_vartime_unchecked(&[affine_generator], &[GROUP_ORDER])
            .unwrap(),
        ProjectivePoint::identity()
    );
}

#[test]
fn parses_and_serializes_little_endian() {
    let point = AffinePoint::generator();

    let be_bytes = point.to_uncompressed(Endianness::Big);
    let le_bytes = point.to_uncompressed(Endianness::Little);

    assert_ne!(be_bytes, le_bytes);
    assert_eq!(
        AffinePoint::from_uncompressed(&le_bytes, Endianness::Little).unwrap(),
        point
    );
}

#[test]
fn parses_and_serializes_compressed() {
    let point = AffinePoint::generator();

    let be_compressed = point.to_compressed(Endianness::Big).unwrap();
    let le_compressed = point.to_compressed(Endianness::Little).unwrap();

    assert_eq!(
        AffinePoint::from_compressed(&be_compressed, Endianness::Big).unwrap(),
        point
    );
    assert_eq!(
        AffinePoint::from_compressed(&le_compressed, Endianness::Little).unwrap(),
        point
    );
}

#[test]
fn rejects_invalid_compressed_prefixes() {
    let mut bytes = [0u8; 33];

    // the SEC1 identity marker
    assert!(AffinePoint::from_compressed(&bytes, Endianness::Big).is_none());

    // an unassigned marker
    bytes[0] = 0x01;
    assert!(AffinePoint::from_compressed(&bytes, Endianness::Big).is_none());

    // the marker of uncompressed points
    bytes[0] = 0x04;
    assert!(AffinePoint::from_compressed(&bytes, Endianness::Big).is_none());
}

#[test]
fn enforces_identity_point_rules() {
    let identity = AffinePoint::identity();

    // 64 zero bytes are the identity
    assert_eq!(identity.to_uncompressed(Endianness::Big), [0u8; 64]);
    assert_eq!(
        AffinePoint::from_uncompressed(&[0u8; 64], Endianness::Big).unwrap(),
        identity
    );

    // the identity has no compressed form
    assert!(identity.to_compressed(Endianness::Big).is_none());
}
