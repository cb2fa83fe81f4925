use secp256r1::field::FieldElement;

const MODULUS: [u8; 32] = [
    0xff, 0xff, 0xff, 0xff, 0x00, 0x00, 0x00, 0x01, 0x00, 0x00, 0x00, 0x00, 0x00, 0x00, 0x00, 0x00,
    0x00, 0x00, 0x00, 0x00, 0xff, 0xff, 0xff, 0xff, 0xff, 0xff, 0xff, 0xff, 0xff, 0xff, 0xff, 0xff,
];

/// The inverse of 2.
const HALF: [u8; 32] = [
    0x7f, 0xff, 0xff, 0xff, 0x80, 0x00, 0x00, 0x00, 0x80, 0x00, 0x00, 0x00, 0x00, 0x00, 0x00, 0x00,
    0x00, 0x00, 0x00, 0x00, 0x80, 0x00, 0x00, 0x00, 0x00, 0x00, 0x00, 0x00, 0x00, 0x00, 0x00, 0x00,
];

fn minus_one() -> FieldElement {
    let mut bytes = MODULUS;
    bytes[31] = 0xfe;
    FieldElement::from_be_bytes(bytes).unwrap()
}

#[test]
fn bytes_below_the_modulus_are_read() {
    let mut bytes = MODULUS;
    assert!(FieldElement::from_be_bytes(bytes).is_none());
    assert!(FieldElement::from_be_bytes([0xff; 32]).is_none());
    bytes[31] = 0xfe;
    assert_eq!(FieldElement::from_be_bytes(bytes).unwrap().to_be_bytes(), bytes);
    assert_eq!(FieldElement::from_be_bytes([0; 32]).unwrap(), FieldElement::zero());
}

#[test]
fn small_numbers_are_written() {
    let mut bytes = [0u8; 32];
    bytes[30] = 0x01;
    bytes[31] = 0x02;
    assert_eq!(FieldElement::from_u64(0x0102).to_be_bytes(), bytes);
    assert_eq!(FieldElement::one(), FieldElement::from_u64(1));
    assert_eq!(FieldElement::zero(), FieldElement::from_u64(0));
}

#[test]
fn sums_and_differences_wrap() {
    let one = FieldElement::one();
    assert_eq!(minus_one() + one, FieldElement::zero());
    assert_eq!(minus_one() + minus_one(), FieldElement::zero() - FieldElement::from_u64(2));
    assert_eq!(FieldElement::zero() - one, minus_one());
    assert_eq!(FieldElement::from_u64(9) - FieldElement::from_u64(4), FieldElement::from_u64(5));
    assert_eq!(-one, minus_one());
    assert_eq!(-FieldElement::zero(), FieldElement::zero());
}

#[test]
fn products_and_squares() {
    assert_eq!(
        FieldElement::from_u64(3) * FieldElement::from_u64(5),
        FieldElement::from_u64(15)
    );
    assert_eq!(minus_one() * minus_one(), FieldElement::one());
    assert_eq!(minus_one().square(), FieldElement::one());
    assert_eq!(FieldElement::from_u64(12).square(), FieldElement::from_u64(144));
    assert_eq!(FieldElement::zero() * minus_one(), FieldElement::zero());
}

#[test]
fn montgomery_limbs_of_one() {
    let limbs = [1, 0xffff_ffff_0000_0000, 0xffff_ffff_ffff_ffff, 0x0000_0000_ffff_fffe];
    assert_eq!(FieldElement::from_montgomery_limbs(limbs), FieldElement::one());
}

#[test]
fn inverses() {
    assert!(FieldElement::zero().invert().is_none());
    assert_eq!(FieldElement::from_u64(2).invert().unwrap().to_be_bytes(), HALF);
    assert_eq!(minus_one().invert().unwrap(), minus_one());
    let seven = FieldElement::from_u64(7);
    assert_eq!(seven * seven.invert().unwrap(), FieldElement::one());
}

#[test]
fn square_roots() {
    assert_eq!(FieldElement::from_u64(4).sqrt().unwrap(), FieldElement::from_u64(2));
    assert_eq!(FieldElement::zero().sqrt().unwrap(), FieldElement::zero());
    assert!(FieldElement::from_u64(3).sqrt().is_none());
    assert!(minus_one().sqrt().is_none());
}

#[test]
fn zero_is_recognized() {
    assert!(FieldElement::zero().is_zero());
    assert!(!FieldElement::one().is_zero());
    assert!((minus_one() + FieldElement::one()).is_zero());
}
