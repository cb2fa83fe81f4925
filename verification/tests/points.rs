use secp256r1::field::FieldElement;
use secp256r1::group::AffinePoint;
use secp256r1::group::ProjectivePoint;
use secp256r1::Endianness;

const MODULUS: [u8; 32] = [
    0xff, 0xff, 0xff, 0xff, 0x00, 0x00, 0x00, 0x01, 0x00, 0x00, 0x00, 0x00, 0x00, 0x00, 0x00, 0x00,
    0x00, 0x00, 0x00, 0x00, 0xff, 0xff, 0xff, 0xff, 0xff, 0xff, 0xff, 0xff, 0xff, 0xff, 0xff, 0xff,
];

const GENERATOR_X: [u8; 32] = [
    0x6b, 0x17, 0xd1, 0xf2, 0xe1, 0x2c, 0x42, 0x47, 0xf8, 0xbc, 0xe6, 0xe5, 0x63, 0xa4, 0x40, 0xf2,
    0x77, 0x03, 0x7d, 0x81, 0x2d, 0xeb, 0x33, 0xa0, 0xf4, 0xa1, 0x39, 0x45, 0xd8, 0x98, 0xc2, 0x96,
];

const GENERATOR_Y: [u8; 32] = [
    0x4f, 0xe3, 0x42, 0xe2, 0xfe, 0x1a, 0x7f, 0x9b, 0x8e, 0xe7, 0xeb, 0x4a, 0x7c, 0x0f, 0x9e, 0x16,
    0x2b, 0xce, 0x33, 0x57, 0x6b, 0x31, 0x5e, 0xce, 0xcb, 0xb6, 0x40, 0x68, 0x37, 0xbf, 0x51, 0xf5,
];

const THRICE_X: [u8; 32] = [
    0x5e, 0xcb, 0xe4, 0xd1, 0xa6, 0x33, 0x0a, 0x44, 0xc8, 0xf7, 0xef, 0x95, 0x1d, 0x4b, 0xf1, 0x65,
    0xe6, 0xc6, 0xb7, 0x21, 0xef, 0xad, 0xa9, 0x85, 0xfb, 0x41, 0x66, 0x1b, 0xc6, 0xe7, 0xfd, 0x6c,
];

fn generator() -> ProjectivePoint {
    ProjectivePoint::generator()
}

#[test]
fn addition_is_a_group_law() {
    let p = generator();
    let q = p.mul_scalar_vartime([3; 32]).unwrap();
    let r = p.mul_scalar_vartime([5; 32]).unwrap();
    let o = ProjectivePoint::identity();
    assert_eq!((p + q) + r, p + (q + r));
    assert_eq!((p + p) + q, p + (p + q));
    assert_eq!((p + q) + (-q), p);
    assert_eq!(p + q, q + p);
    assert_eq!(p + o, p);
    assert_eq!(o + p, p);
    assert_eq!(o + o, o);
    assert_eq!(p + (-p), o);
    assert_eq!(p - p, o);
    assert_eq!((p + q) - q, p);
    assert_eq!((p - q) + q, p);
    assert_eq!(-(-p), p);
    assert_eq!(-o, o);
}

#[test]
fn doubling_the_identity() {
    assert!(ProjectivePoint::identity().double().is_identity());
}

#[test]
fn mixed_addition_agrees_with_addition() {
    let p = generator().double();
    let g = AffinePoint::generator();
    let o = ProjectivePoint::identity();
    assert_eq!(p.add_mixed(g), p + generator());
    assert_eq!(o.add_mixed(g), generator());
    assert_eq!(p.add_mixed(AffinePoint::identity()), p);
    assert!(o.add_mixed(AffinePoint::identity()).is_identity());
    // equal and opposite points
    assert_eq!(p.add_mixed(p.to_affine()), p.double());
    assert!(p.add_mixed(-p.to_affine()).is_identity());
}

#[test]
fn addition_finds_equal_points_at_any_scale() {
    let p = generator().double();
    let normalized = ProjectivePoint::from_affine(p.to_affine());
    assert_eq!(p + normalized, p.double());
    assert!((p + (-normalized)).is_identity());
}

#[test]
fn equality_of_points() {
    let o = ProjectivePoint::identity();
    assert_eq!(o, o);
    assert_ne!(o, generator());
    assert_ne!(generator(), o);
    assert_ne!(generator(), generator().double());
    assert_ne!(AffinePoint::identity(), AffinePoint::generator());
    assert_ne!(AffinePoint::generator(), -AffinePoint::generator());
    assert_eq!(-AffinePoint::identity(), AffinePoint::identity());
}

#[test]
fn conversions_keep_the_point() {
    let p = generator().double();
    assert_eq!(p.to_affine().to_projective(), p);
    assert!(ProjectivePoint::identity().to_affine().is_identity());
    assert!(AffinePoint::identity().to_projective().is_identity());
    assert!(!AffinePoint::generator().is_identity());
    assert!(!generator().is_identity());
}

#[test]
fn coordinates_of_points() {
    let g = AffinePoint::generator();
    assert_eq!(g.x().unwrap().to_be_bytes(), GENERATOR_X);
    assert_eq!(g.y().unwrap().to_be_bytes(), GENERATOR_Y);
    assert!(AffinePoint::identity().x().is_none());
    assert!(AffinePoint::identity().y().is_none());
}

#[test]
fn abscissas_of_points() {
    let x = FieldElement::from_be_bytes(THRICE_X).unwrap();
    let p = generator().double() + generator();
    assert!(p.has_affine_x(x));
    assert!((-p).has_affine_x(x));
    assert!(!generator().has_affine_x(x));
    assert!(!ProjectivePoint::identity().has_affine_x(FieldElement::zero()));
}

#[test]
fn points_off_the_curve_are_refused() {
    let x = FieldElement::from_be_bytes(GENERATOR_X).unwrap();
    let y = FieldElement::from_be_bytes(GENERATOR_Y).unwrap();
    assert_eq!(AffinePoint::new(x, y).unwrap(), AffinePoint::generator());
    assert_eq!(AffinePoint::new(x, -y).unwrap(), -AffinePoint::generator());
    assert!(AffinePoint::new(y, x).is_none());
    assert!(AffinePoint::new(FieldElement::zero(), FieldElement::zero()).is_none());
    let one = FieldElement::one();
    assert!(ProjectivePoint::from_jacobian(x, y, one).is_some());
    assert!(ProjectivePoint::from_jacobian(y, x, one).is_none());
    assert!(ProjectivePoint::from_jacobian(x, y, FieldElement::from_u64(2)).is_none());
    assert!(
        ProjectivePoint::from_jacobian(one, one, FieldElement::zero()).unwrap().is_identity()
    );
}

#[test]
fn uncompressed_bytes_of_the_generator() {
    let bytes = AffinePoint::generator().to_uncompressed(Endianness::Big);
    assert_eq!(bytes[..32], GENERATOR_X);
    assert_eq!(bytes[32..], GENERATOR_Y);
    let mut little = AffinePoint::generator().to_uncompressed(Endianness::Little);
    little[..32].reverse();
    little[32..].reverse();
    assert_eq!(little, bytes);
}

#[test]
fn uncompressed_bytes_are_checked() {
    let good = generator().to_uncompressed(Endianness::Big);

    let mut off_curve = good;
    off_curve[63] ^= 1;
    assert!(AffinePoint::from_uncompressed(&off_curve, Endianness::Big).is_none());
    assert!(AffinePoint::from_uncompressed(&good, Endianness::Little).is_none());

    let mut large_x = good;
    large_x[..32].copy_from_slice(&MODULUS);
    assert!(AffinePoint::from_uncompressed(&large_x, Endianness::Big).is_none());

    let mut large_y = good;
    large_y[32..].copy_from_slice(&[0xff; 32]);
    assert!(AffinePoint::from_uncompressed(&large_y, Endianness::Big).is_none());

    // 0 written as the modulus does not stand for the identity
    let mut modulus = [0u8; 64];
    modulus[..32].copy_from_slice(&MODULUS);
    assert!(AffinePoint::from_uncompressed(&modulus, Endianness::Big).is_none());
}

#[test]
fn uncompressed_round_trips() {
    let mut p = ProjectivePoint::identity();
    for _ in 0..5 {
        for e in [Endianness::Big, Endianness::Little] {
            let bytes = p.to_uncompressed(e);
            let read = AffinePoint::from_uncompressed(&bytes, e).unwrap();
            assert_eq!(read, p.to_affine());
            assert_eq!(read.to_uncompressed(e), bytes);
        }
        p = p + generator();
    }
}

#[test]
fn compressed_round_trips() {
    let mut p = generator();
    for _ in 0..5 {
        for q in [p.to_affine(), -p.to_affine()] {
            for e in [Endianness::Big, Endianness::Little] {
                let bytes = q.to_compressed(e).unwrap();
                let read = AffinePoint::from_compressed(&bytes, e).unwrap();
                assert_eq!(read, q);
                assert_eq!(read.to_compressed(e).unwrap(), bytes);
            }
        }
        p = p + generator();
    }
}

#[test]
fn compressed_bytes_of_the_generator() {
    let bytes = AffinePoint::generator().to_compressed(Endianness::Big).unwrap();
    assert_eq!(bytes[0], 0x03);
    assert_eq!(bytes[1..], GENERATOR_X);
    let negated = (-AffinePoint::generator()).to_compressed(Endianness::Big).unwrap();
    assert_eq!(negated[0], 0x02);
    assert_eq!(negated[1..], GENERATOR_X);
    let mut little = AffinePoint::generator().to_compressed(Endianness::Little).unwrap();
    assert_eq!(little[0], 0x03);
    little[1..].reverse();
    assert_eq!(little, bytes);
}

#[test]
fn compressed_bytes_are_checked() {
    // there is no point with abscissa 1, but there are two with abscissa 5
    let mut bytes = [0u8; 33];
    bytes[0] = 0x02;
    bytes[32] = 1;
    assert!(AffinePoint::from_compressed(&bytes, Endianness::Big).is_none());
    bytes[32] = 5;
    let even = AffinePoint::from_compressed(&bytes, Endianness::Big).unwrap();
    bytes[0] = 0x03;
    let odd = AffinePoint::from_compressed(&bytes, Endianness::Big).unwrap();
    assert_eq!(even, -odd);
    assert_eq!(even.x().unwrap(), FieldElement::from_u64(5));
    assert_eq!(even.y().unwrap().to_be_bytes()[31] & 1, 0);
    assert_eq!(odd.y().unwrap().to_be_bytes()[31] & 1, 1);

    bytes[1..].copy_from_slice(&MODULUS);
    assert!(AffinePoint::from_compressed(&bytes, Endianness::Big).is_none());
}
