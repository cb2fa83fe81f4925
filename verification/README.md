# secp256r1

Arithmetic on the elliptic curve secp256r1 (P-256), verified with Verus: the base
field, the group of points in affine and Jacobian coordinates, compressed and
uncompressed fixed-length encodings, and single-scalar, fixed-base, double-scalar
and multiscalar multiplication.

Scalar multiplication takes variable time and is meant for public inputs. There is
no signing or verification of signatures here.

## Layout

- `src/limbs.rs`, `src/bytes.rs`: 256-bit integers and byte strings.
- `src/field.rs`: the base field, in Montgomery form.
- `src/scalar.rs`: the check that a multiplier is below the group order.
- `src/group.rs`: `AffinePoint` and `ProjectivePoint`.
- `src/encoding.rs`: what the encodings of points are.
- `src/laws.rs`: the laws of the group, of multiples and of the encodings.
- `src/math/`: the mathematics. `curve.rs` defines points, sums and multiples.
  `primality.rs` and `certificates.rs` prove the field modulus and the group order
  prime. `associativity.rs` proves that addition is associative, with `links.rs`,
  `degrees.rs` and the expanded identities in `identities.rs`. `order.rs` counts
  the points, with `torsion.rs` (no point of order two) and `generator.rs` (the
  order of the generator).
- `app/`: fixed-base multiplication with a table that is built once per process.

## What is proved

Every value of a point type is a point of the curve. The view of a value is the
mathematical point, and the contracts say which point an operation returns: sums
are sums by the chord and tangent rule, scalar multiplication by `k` is the sum of
`k` copies. The points are an abelian group whose order is prime, so that
multipliers count modulo the group order.

## Scalar multiplication

```rust
use secp256r1::group::{AffinePoint, ProjectivePoint};

let scalar = [7u8; 32];

let fixed_base = ProjectivePoint::fixed_base_scalar_mul_vartime(scalar).unwrap();
let variable_base = ProjectivePoint::from_affine(AffinePoint::generator())
    .mul_scalar_vartime(scalar)
    .unwrap();

assert_eq!(fixed_base.to_affine(), variable_base.to_affine());
```

The checked functions return `None` for a multiplier that is not below the group
order. The `*_unchecked` functions take any multiplier.

## Encoded points

```rust
use secp256r1::group::{AffinePoint, ProjectivePoint};
use secp256r1::Endianness;

let bytes = ProjectivePoint::generator().to_uncompressed(Endianness::Big);
let parsed = AffinePoint::from_uncompressed(&bytes, Endianness::Big).unwrap();

assert_eq!(parsed, AffinePoint::generator());
```

64 zero bytes encode the identity. It has no compressed form.
