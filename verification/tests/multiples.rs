use secp256r1::field::FieldElement;
use secp256r1::group::batch_normalize;
use secp256r1::group::build_window8_table;
use secp256r1::group::double_n;
use secp256r1::group::generator_window4_table;
use secp256r1::group::mul_window8_vartime;
use secp256r1::group::projective_window8_table;
use secp256r1::group::window4_table;
use secp256r1::group::AffinePoint;
use secp256r1::group::ProjectivePoint;
use secp256r1::scalar::Scalar;
use secp256r1::Endianness;

const GROUP_ORDER: [u8; 32] = [
    0xff, 0xff, 0xff, 0xff, 0x00, 0x00, 0x00, 0x00, 0xff, 0xff, 0xff, 0xff, 0xff, 0xff, 0xff, 0xff,
    0xbc, 0xe6, 0xfa, 0xad, 0xa7, 0x17, 0x9e, 0x84, 0xf3, 0xb9, 0xca, 0xc2, 0xfc, 0x63, 0x25, 0x51,
];

const GENERATOR_X: [u8; 32] = [
    0x6b, 0x17, 0xd1, 0xf2, 0xe1, 0x2c, 0x42, 0x47, 0xf8, 0xbc, 0xe6, 0xe5, 0x63, 0xa4, 0x40, 0xf2,
    0x77, 0x03, 0x7d, 0x81, 0x2d, 0xeb, 0x33, 0xa0, 0xf4, 0xa1, 0x39, 0x45, 0xd8, 0x98, 0xc2, 0x96,
];

const GENERATOR_Y: [u8; 32] = [
    0x4f, 0xe3, 0x42, 0xe2, 0xfe, 0x1a, 0x7f, 0x9b, 0x8e, 0xe7, 0xeb, 0x4a, 0x7c, 0x0f, 0x9e, 0x16,
    0x2b, 0xce, 0x33, 0x57, 0x6b, 0x31, 0x5e, 0xce, 0xcb, 0xb6, 0x40, 0x68, 0x37, 0xbf, 0x51, 0xf5,
];

const TWICE_X: [u8; 32] = [
    0x7c, 0xf2, 0x7b, 0x18, 0x8d, 0x03, 0x4f, 0x7e, 0x8a, 0x52, 0x38, 0x03, 0x04, 0xb5, 0x1a, 0xc3,
    0xc0, 0x89, 0x69, 0xe2, 0x77, 0xf2, 0x1b, 0x35, 0xa6, 0x0b, 0x48, 0xfc, 0x47, 0x66, 0x99, 0x78,
];

const TWICE_Y: [u8; 32] = [
    0x07, 0x77, 0x55, 0x10, 0xdb, 0x8e, 0xd0, 0x40, 0x29, 0x3d, 0x9a, 0xc6, 0x9f, 0x74, 0x30, 0xdb,
    0xba, 0x7d, 0xad, 0xe6, 0x3c, 0xe9, 0x82, 0x29, 0x9e, 0x04, 0xb7, 0x9d, 0x22, 0x78, 0x73, 0xd1,
];

const THRICE_X: [u8; 32] = [
    0x5e, 0xcb, 0xe4, 0xd1, 0xa6, 0x33, 0x0a, 0x44, 0xc8, 0xf7, 0xef, 0x95, 0x1d, 0x4b, 0xf1, 0x65,
    0xe6, 0xc6, 0xb7, 0x21, 0xef, 0xad, 0xa9, 0x85, 0xfb, 0x41, 0x66, 0x1b, 0xc6, 0xe7, 0xfd, 0x6c,
];

const THRICE_Y: [u8; 32] = [
    0x87, 0x34, 0x64, 0x0c, 0x49, 0x98, 0xff, 0x7e, 0x37, 0x4b, 0x06, 0xce, 0x1a, 0x64, 0xa2, 0xec,
    0xd8, 0x2a, 0xb0, 0x36, 0x38, 0x4f, 0xb8, 0x3d, 0x9a, 0x79, 0xb1, 0x27, 0xa2, 0x7d, 0x50, 0x32,
];

const SEVENS_X: [u8; 32] = [
    0x1e, 0x18, 0x53, 0x2f, 0xd4, 0x75, 0x4c, 0x02, 0xf3, 0x04, 0x1d, 0x9c, 0x75, 0xce, 0xb3, 0x3b,
    0x83, 0xff, 0xd8, 0x1a, 0xc7, 0xce, 0x4f, 0xe8, 0x82, 0xcc, 0xb1, 0xc9, 0x8b, 0xc5, 0x89, 0x6e,
];

const SEVENS_Y: [u8; 32] = [
    0xa4, 0x6c, 0x31, 0x1c, 0x4e, 0x2f, 0xf4, 0x0d, 0xd9, 0x6a, 0x36, 0x53, 0xe6, 0xe4, 0x54, 0x45,
    0xd3, 0x2d, 0xfe, 0x48, 0x6e, 0xce, 0xd7, 0x5c, 0x7a, 0x90, 0xc6, 0xa1, 0x88, 0x81, 0xc0, 0xa3,
];

fn affine(x: [u8; 32], y: [u8; 32]) -> AffinePoint {
    AffinePoint::new(
        FieldElement::from_be_bytes(x).unwrap(),
        FieldElement::from_be_bytes(y).unwrap(),
    )
    .unwrap()
}

fn small(n: u8) -> [u8; 32] {
    let mut scalar = [0u8; 32];
    scalar[31] = n;
    scalar
}

/// The group order plus a small number.
fn beyond(n: u8) -> [u8; 32] {
    let mut scalar = GROUP_ORDER;
    scalar[31] += n;
    scalar
}

#[test]
fn known_multiples_of_the_generator() {
    let g = ProjectivePoint::generator();
    assert_eq!(g.to_affine(), affine(GENERATOR_X, GENERATOR_Y));
    assert_eq!(g.double().to_affine(), affine(TWICE_X, TWICE_Y));
    assert_eq!((g + g).to_affine(), affine(TWICE_X, TWICE_Y));
    assert_eq!((g.double() + g).to_affine(), affine(THRICE_X, THRICE_Y));
    assert_eq!(
        g.mul_scalar_vartime([7; 32]).unwrap().to_affine(),
        affine(SEVENS_X, SEVENS_Y)
    );
}

#[test]
fn fixed_base_agrees_with_variable_base() {
    let fixed_base = ProjectivePoint::fixed_base_scalar_mul_vartime([7; 32]).unwrap();
    let variable_base = ProjectivePoint::from_affine(AffinePoint::generator())
        .mul_scalar_vartime([7; 32])
        .unwrap();
    assert_eq!(fixed_base.to_affine(), variable_base.to_affine());
    assert_eq!(fixed_base.to_affine(), affine(SEVENS_X, SEVENS_Y));
}

#[test]
fn combination_agrees_with_separate_multiples() {
    let points = [
        AffinePoint::generator(),
        ProjectivePoint::generator().double().to_affine(),
    ];
    let scalars = [[7u8; 32], [11u8; 32]];
    let together = ProjectivePoint::multi_scalar_mul_vartime(&points, &scalars).unwrap();
    let separate = ProjectivePoint::from_affine(points[0])
        .mul_scalar_vartime(scalars[0])
        .unwrap()
        + ProjectivePoint::from_affine(points[1])
            .mul_scalar_vartime(scalars[1])
            .unwrap();
    assert_eq!(together.to_affine(), separate.to_affine());

    let double = ProjectivePoint::double_scalar_mul_vartime(scalars[0], points[1], scalars[1]);
    assert_eq!(together, double.unwrap());
}

#[test]
fn empty_combination_is_the_identity() {
    assert_eq!(
        ProjectivePoint::multi_scalar_mul_vartime(&[], &[]).unwrap(),
        ProjectivePoint::identity()
    );
}

#[test]
fn combination_checks_lengths() {
    let g = AffinePoint::generator();
    assert!(ProjectivePoint::multi_scalar_mul_vartime(&[], &[[1; 32]]).is_none());
    assert!(ProjectivePoint::multi_scalar_mul_vartime_unchecked(&[g], &[]).is_none());
    assert!(ProjectivePoint::multi_scalar_mul_vartime_unchecked(&[g, g], &[[1; 32]]).is_none());
}

#[test]
fn combination_checks_every_scalar() {
    let g = AffinePoint::generator();
    assert!(
        ProjectivePoint::multi_scalar_mul_vartime(&[g, g], &[small(1), GROUP_ORDER]).is_none()
    );
    assert_eq!(
        ProjectivePoint::multi_scalar_mul_vartime(&[g, g], &[small(1), small(2)])
            .unwrap()
            .to_affine(),
        affine(THRICE_X, THRICE_Y)
    );
}

#[test]
fn scalars_count_modulo_the_group_order() {
    let p = ProjectivePoint::generator().double();
    let affine_p = p.to_affine();
    assert_eq!(
        p.mul_scalar_vartime_unchecked(beyond(5)),
        p.mul_scalar_vartime(small(5)).unwrap()
    );
    assert_eq!(
        ProjectivePoint::fixed_base_scalar_mul_vartime_unchecked(beyond(3)).to_affine(),
        affine(THRICE_X, THRICE_Y)
    );
    assert_eq!(
        ProjectivePoint::double_scalar_mul_vartime_unchecked(beyond(1), affine_p, beyond(1))
            .to_affine(),
        affine(THRICE_X, THRICE_Y)
    );
    assert_eq!(
        ProjectivePoint::multi_scalar_mul_vartime_unchecked(
            &[affine_p, AffinePoint::generator()],
            &[beyond(1), beyond(1)],
        )
        .unwrap()
        .to_affine(),
        affine(THRICE_X, THRICE_Y)
    );
}

#[test]
fn largest_scalar_gives_the_inverse() {
    let mut scalar = GROUP_ORDER;
    scalar[31] -= 1;
    let g = ProjectivePoint::generator();
    assert_eq!(g.mul_scalar_vartime(scalar).unwrap(), -g);
    assert_eq!(ProjectivePoint::fixed_base_scalar_mul_vartime(scalar).unwrap(), -g);
}

#[test]
fn zero_scalar_gives_the_identity() {
    let g = ProjectivePoint::generator();
    assert!(g.mul_scalar_vartime([0; 32]).unwrap().is_identity());
    assert!(ProjectivePoint::fixed_base_scalar_mul_vartime([0; 32]).unwrap().is_identity());
    assert!(
        ProjectivePoint::double_scalar_mul_vartime([0; 32], AffinePoint::generator(), [0; 32])
            .unwrap()
            .is_identity()
    );
}

#[test]
fn multiples_of_the_identity() {
    let o = ProjectivePoint::identity();
    assert!(o.mul_scalar_vartime([7; 32]).unwrap().is_identity());
    assert_eq!(
        ProjectivePoint::double_scalar_mul_vartime([7; 32], AffinePoint::identity(), [9; 32])
            .unwrap()
            .to_affine(),
        affine(SEVENS_X, SEVENS_Y)
    );
}

#[test]
fn multiples_add_up() {
    let p = ProjectivePoint::generator().double();
    let five = p.mul_scalar_vartime(small(5)).unwrap();
    let seven = p.mul_scalar_vartime(small(7)).unwrap();
    assert_eq!(five + seven, p.mul_scalar_vartime(small(12)).unwrap());
    assert_eq!(five.mul_scalar_vartime(small(7)).unwrap(), p.mul_scalar_vartime(small(35)).unwrap());
    assert_eq!((-p).mul_scalar_vartime(small(5)).unwrap(), -five);
}

#[test]
fn multiples_of_sums() {
    let p = ProjectivePoint::generator();
    let q = p.mul_scalar_vartime([3; 32]).unwrap();
    assert_eq!(
        (p + q).mul_scalar_vartime([5; 32]).unwrap(),
        p.mul_scalar_vartime([5; 32]).unwrap() + q.mul_scalar_vartime([5; 32]).unwrap()
    );
}

#[test]
fn canonical_scalars() {
    let mut below = GROUP_ORDER;
    below[31] -= 1;
    assert!(Scalar::is_canonical(&below, Endianness::Big));
    assert!(Scalar::is_canonical(&[0; 32], Endianness::Big));
    assert!(!Scalar::is_canonical(&GROUP_ORDER, Endianness::Big));
    assert!(!Scalar::is_canonical(&[0xff; 32], Endianness::Big));

    let mut reversed = GROUP_ORDER;
    reversed.reverse();
    assert!(!Scalar::is_canonical(&reversed, Endianness::Little));
    below.reverse();
    assert!(Scalar::is_canonical(&below, Endianness::Little));
}

#[test]
fn batches_with_the_identity_are_normalized() {
    let g = ProjectivePoint::generator();
    let o = ProjectivePoint::identity();
    let points = [o, g.double(), o, g.double() + g, g, o];
    let out = batch_normalize(points);
    for i in 0..6 {
        assert_eq!(out[i], points[i].to_affine());
    }
    assert_eq!(out[3], affine(THRICE_X, THRICE_Y));
    assert_eq!(batch_normalize([o; 3]), [AffinePoint::identity(); 3]);
}

#[test]
fn repeated_doubling() {
    let g = ProjectivePoint::generator();
    assert_eq!(double_n(g, 0), g);
    assert_eq!(double_n(g, 5), g.mul_scalar_vartime(small(32)).unwrap());
}

#[test]
fn tables_hold_the_multiples() {
    let g = ProjectivePoint::generator();
    let table = generator_window4_table();
    let wide = projective_window8_table(g);
    assert!(table[0].is_identity());
    assert_eq!(table, window4_table(AffinePoint::generator()));
    for i in 0..16 {
        let multiple = g.mul_scalar_vartime(small(i)).unwrap().to_affine();
        assert_eq!(table[i as usize], multiple);
        assert_eq!(wide[i as usize], multiple);
    }
    assert_eq!(wide[255], g.mul_scalar_vartime(small(255)).unwrap().to_affine());
}

#[test]
fn window_tables_serve_any_point() {
    let p = ProjectivePoint::generator().double();
    let table = build_window8_table(p);
    assert_eq!(table.len(), 32);
    assert_eq!(mul_window8_vartime(&table, &[9; 32]), p.mul_scalar_vartime([9; 32]).unwrap());
    assert!(mul_window8_vartime(&table, &GROUP_ORDER).is_identity());
}

#[test]
fn appended_combinations_add_up() {
    let g = AffinePoint::generator();
    let p = ProjectivePoint::generator().double().to_affine();
    let first = ProjectivePoint::multi_scalar_mul_vartime(&[g, p], &[[3; 32], [4; 32]]).unwrap();
    let second = ProjectivePoint::multi_scalar_mul_vartime(&[p], &[[5; 32]]).unwrap();
    let all =
        ProjectivePoint::multi_scalar_mul_vartime(&[g, p, p], &[[3; 32], [4; 32], [5; 32]]).unwrap();
    assert_eq!(all, first + second);
    assert_eq!(
        ProjectivePoint::multi_scalar_mul_vartime(&[p], &[small(1)]).unwrap().to_affine(),
        p
    );
}

#[test]
fn small_multiples_of_the_generator_differ() {
    let table = generator_window4_table();
    for i in 0..16 {
        for j in 0..i {
            assert_ne!(table[i], table[j]);
        }
    }
}
