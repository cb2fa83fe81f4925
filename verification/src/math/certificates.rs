//! The primes behind P-256: its field modulus, its group order, and the
//! smaller primes that certify them.
//!
//! Each certificate for `n` raises a base `a` to `(n - 1) / q` and then that
//! power to `q`, one squaring at a time, for one or two primes `q`.
use crate::math::primality;
use crate::math::primes;
use vstd::prelude::*;

verus! {

/// The modulus of the base field.
pub open spec fn field_modulus() -> int {
    0xffffffff00000001000000000000000000000000ffffffffffffffffffffffffint
}

/// The number of points of the curve.
pub open spec fn group_order() -> int {
    0xffffffff00000000ffffffffffffffffbce6faada7179e84f3b9cac2fc632551int
}

proof fn lemma_prime_313()
    ensures
        primes::is_prime(313),
{
    assert(primality::no_divisor_to(313, 1));
    assert(primality::no_divisor_to(313, 2));
    assert(primality::no_divisor_to(313, 3));
    assert(primality::no_divisor_to(313, 4));
    assert(primality::no_divisor_to(313, 5));
    assert(primality::no_divisor_to(313, 6));
    assert(primality::no_divisor_to(313, 7));
    assert(primality::no_divisor_to(313, 8));
    assert(primality::no_divisor_to(313, 9));
    assert(primality::no_divisor_to(313, 10));
    assert(primality::no_divisor_to(313, 11));
    assert(primality::no_divisor_to(313, 12));
    assert(primality::no_divisor_to(313, 13));
    assert(primality::no_divisor_to(313, 14));
    assert(primality::no_divisor_to(313, 15));
    assert(primality::no_divisor_to(313, 16));
    assert(primality::no_divisor_to(313, 17));
    primality::lemma_small_prime(313, 17);
}

proof fn lemma_prime_5()
    ensures
        primes::is_prime(5),
{
    assert(primality::no_divisor_to(5, 1));
    assert(primality::no_divisor_to(5, 2));
    primality::lemma_small_prime(5, 2);
}

proof fn prime_704251_power_1_1()
    ensures
        primality::power_is(0x244d1, 313, 0xabefb, 1),
{
    primality::lemma_first_power(0x244d1, 0xabefb);
    primality::lemma_square(0x244d1, 1, 0xabefb, 0x244d1, 0x8b7c1);
    primality::lemma_square(0x244d1, 2, 0xabefb, 0x8b7c1, 8996);
    primality::lemma_square_multiply(0x244d1, 4, 0xabefb, 8996, 0x9c38f);
    primality::lemma_square_multiply(0x244d1, 9, 0xabefb, 0x9c38f, 0x99017);
    primality::lemma_square_multiply(0x244d1, 19, 0xabefb, 0x99017, 0x6c1da);
    primality::lemma_square(0x244d1, 39, 0xabefb, 0x6c1da, 0x76c64);
    primality::lemma_square(0x244d1, 78, 0xabefb, 0x76c64, 0x5f70c);
    primality::lemma_square_multiply(0x244d1, 156, 0xabefb, 0x5f70c, 1);
}

proof fn prime_704251_power_4_1()
    ensures
        primality::power_is(0x8c557, 5, 0xabefb, 1),
{
    primality::lemma_first_power(0x8c557, 0xabefb);
    primality::lemma_square(0x8c557, 1, 0xabefb, 0x8c557, 0x331c0);
    primality::lemma_square_multiply(0x8c557, 2, 0xabefb, 0x331c0, 1);
}

proof fn lemma_prime_704251()
    ensures
        primes::is_prime(0xabefb),
{
    lemma_prime_313();
    prime_704251_power_1_1();
    primality::lemma_factors(0xabefb, 313, 0x244d1, 0x7d07f);
    lemma_prime_5();
    prime_704251_power_4_1();
    primality::lemma_factors(0xabefb, 5, 0x8c557, 0x4ad94);
    primality::lemma_factors_product(0xabefb, 313, 5);
    primality::lemma_prime(0xabefb, 1565);
}

proof fn lemma_prime_181()
    ensures
        primes::is_prime(181),
{
    assert(primality::no_divisor_to(181, 1));
    assert(primality::no_divisor_to(181, 2));
    assert(primality::no_divisor_to(181, 3));
    assert(primality::no_divisor_to(181, 4));
    assert(primality::no_divisor_to(181, 5));
    assert(primality::no_divisor_to(181, 6));
    assert(primality::no_divisor_to(181, 7));
    assert(primality::no_divisor_to(181, 8));
    assert(primality::no_divisor_to(181, 9));
    assert(primality::no_divisor_to(181, 10));
    assert(primality::no_divisor_to(181, 11));
    assert(primality::no_divisor_to(181, 12));
    assert(primality::no_divisor_to(181, 13));
    primality::lemma_small_prime(181, 13);
}

proof fn prime_1087_power_1_1()
    ensures
        primality::power_is(64, 181, 1087, 1),
{
    primality::lemma_first_power(64, 1087);
    primality::lemma_square(64, 1, 1087, 64, 835);
    primality::lemma_square_multiply(64, 2, 1087, 835, 1050);
    primality::lemma_square_multiply(64, 5, 1087, 1050, 656);
    primality::lemma_square(64, 11, 1087, 656, 971);
    primality::lemma_square_multiply(64, 22, 1087, 971, 280);
    primality::lemma_square(64, 45, 1087, 280, 136);
    primality::lemma_square_multiply(64, 90, 1087, 136, 1);
}

proof fn lemma_prime_1087()
    ensures
        primes::is_prime(1087),
{
    lemma_prime_181();
    prime_1087_power_1_1();
    primality::lemma_factors(1087, 181, 64, 1018);
    primality::lemma_prime(1087, 181);
}

proof fn prime_4349_power_1_1()
    ensures
        primality::power_is(16, 1087, 4349, 1),
{
    primality::lemma_first_power(16, 4349);
    primality::lemma_square(16, 1, 4349, 16, 256);
    primality::lemma_square(16, 2, 4349, 256, 301);
    primality::lemma_square(16, 4, 4349, 301, 3621);
    primality::lemma_square(16, 8, 4349, 3621, 3755);
    primality::lemma_square_multiply(16, 16, 4349, 3755, 374);
    primality::lemma_square_multiply(16, 33, 4349, 374, 2630);
    primality::lemma_square_multiply(16, 67, 4349, 2630, 1397);
    primality::lemma_square_multiply(16, 135, 4349, 1397, 4273);
    primality::lemma_square_multiply(16, 271, 4349, 4273, 1087);
    primality::lemma_square_multiply(16, 543, 4349, 1087, 1);
}

proof fn lemma_prime_4349()
    ensures
        primes::is_prime(4349),
{
    lemma_prime_1087();
    prime_4349_power_1_1();
    primality::lemma_factors(4349, 1087, 16, 290);
    primality::lemma_prime(4349, 1087);
}

proof fn prime_78283_power_1_1()
    ensures
        primality::power_is(0x6a9f, 4349, 0x131cb, 1),
{
    primality::lemma_first_power(0x6a9f, 0x131cb);
    primality::lemma_square(0x6a9f, 1, 0x131cb, 0x6a9f, 0x128dd);
    primality::lemma_square(0x6a9f, 2, 0x131cb, 0x128dd, 0xe6ee);
    primality::lemma_square(0x6a9f, 4, 0x131cb, 0xe6ee, 0x117f8);
    primality::lemma_square(0x6a9f, 8, 0x131cb, 0x117f8, 0x5b6f);
    primality::lemma_square_multiply(0x6a9f, 16, 0x131cb, 0x5b6f, 0x459e);
    primality::lemma_square_multiply(0x6a9f, 33, 0x131cb, 0x459e, 0x526f);
    primality::lemma_square_multiply(0x6a9f, 67, 0x131cb, 0x526f, 0x2ab8);
    primality::lemma_square_multiply(0x6a9f, 135, 0x131cb, 0x2ab8, 0x42f8);
    primality::lemma_square_multiply(0x6a9f, 271, 0x131cb, 0x42f8, 0xb909);
    primality::lemma_square_multiply(0x6a9f, 543, 0x131cb, 0xb909, 0xf78a);
    primality::lemma_square(0x6a9f, 1087, 0x131cb, 0xf78a, 0x12079);
    primality::lemma_square_multiply(0x6a9f, 2174, 0x131cb, 0x12079, 1);
}

proof fn lemma_prime_78283()
    ensures
        primes::is_prime(0x131cb),
{
    lemma_prime_4349();
    prime_78283_power_1_1();
    primality::lemma_factors(0x131cb, 4349, 0x6a9f, 0xb0fc);
    primality::lemma_prime(0x131cb, 4349);
}

proof fn prime_56_bits_543_power_1_1()
    ensures
        primality::power_is(0x3505c3c9f91b61, 0xabefb, 0xa3b2bf8c32ceaf, 1),
{
    primality::lemma_first_power(0x3505c3c9f91b61, 0xa3b2bf8c32ceaf);
    primality::lemma_square(0x3505c3c9f91b61, 1, 0xa3b2bf8c32ceaf, 0x3505c3c9f91b61,
        0x8cbe1b34991644);
    primality::lemma_square_multiply(0x3505c3c9f91b61, 2, 0xa3b2bf8c32ceaf, 0x8cbe1b34991644,
        0x65db79314e0654);
    primality::lemma_square(0x3505c3c9f91b61, 5, 0xa3b2bf8c32ceaf, 0x65db79314e0654,
        0x95cb9374ff9652);
    primality::lemma_square_multiply(0x3505c3c9f91b61, 10, 0xa3b2bf8c32ceaf, 0x95cb9374ff9652,
        0x327b5c75cb58c5);
    primality::lemma_square(0x3505c3c9f91b61, 21, 0xa3b2bf8c32ceaf, 0x327b5c75cb58c5,
        0xa00c73a30185d8);
    primality::lemma_square_multiply(0x3505c3c9f91b61, 42, 0xa3b2bf8c32ceaf, 0xa00c73a30185d8,
        0x39b9a47fae711);
    primality::lemma_square_multiply(0x3505c3c9f91b61, 85, 0xa3b2bf8c32ceaf, 0x39b9a47fae711,
        0x1e650060001798);
    primality::lemma_square_multiply(0x3505c3c9f91b61, 171, 0xa3b2bf8c32ceaf, 0x1e650060001798,
        0x94899e7e40ac2);
    primality::lemma_square_multiply(0x3505c3c9f91b61, 343, 0xa3b2bf8c32ceaf, 0x94899e7e40ac2,
        0x59da78a3bc011b);
    primality::lemma_square_multiply(0x3505c3c9f91b61, 687, 0xa3b2bf8c32ceaf, 0x59da78a3bc011b,
        0x12a62ffe050321);
    primality::lemma_square(0x3505c3c9f91b61, 1375, 0xa3b2bf8c32ceaf, 0x12a62ffe050321,
        0x83da0fad19f685);
    primality::lemma_square_multiply(0x3505c3c9f91b61, 2750, 0xa3b2bf8c32ceaf, 0x83da0fad19f685,
        0x27ae16699e4f66);
    primality::lemma_square_multiply(0x3505c3c9f91b61, 5501, 0xa3b2bf8c32ceaf, 0x27ae16699e4f66,
        0x26674a953b7999);
    primality::lemma_square_multiply(0x3505c3c9f91b61, 0x2afb, 0xa3b2bf8c32ceaf,
        0x26674a953b7999, 0x996dc8f1ffaa2c);
    primality::lemma_square_multiply(0x3505c3c9f91b61, 0x55f7, 0xa3b2bf8c32ceaf,
        0x996dc8f1ffaa2c, 0x61123dd42b18b2);
    primality::lemma_square_multiply(0x3505c3c9f91b61, 0xabef, 0xa3b2bf8c32ceaf,
        0x61123dd42b18b2, 0x8c5c1704c39309);
    primality::lemma_square(0x3505c3c9f91b61, 0x157df, 0xa3b2bf8c32ceaf, 0x8c5c1704c39309,
        0x26975861391d23);
    primality::lemma_square_multiply(0x3505c3c9f91b61, 0x2afbe, 0xa3b2bf8c32ceaf,
        0x26975861391d23, 0x1e62d1bfb4c728);
    primality::lemma_square_multiply(0x3505c3c9f91b61, 0x55f7d, 0xa3b2bf8c32ceaf,
        0x1e62d1bfb4c728, 1);
}

proof fn prime_56_bits_543_power_4_1()
    ensures
        primality::power_is(0x5e0ec2c5d65225, 0x131cb, 0xa3b2bf8c32ceaf, 1),
{
    primality::lemma_first_power(0x5e0ec2c5d65225, 0xa3b2bf8c32ceaf);
    primality::lemma_square(0x5e0ec2c5d65225, 1, 0xa3b2bf8c32ceaf, 0x5e0ec2c5d65225,
        0x9cf4feec3e95eb);
    primality::lemma_square(0x5e0ec2c5d65225, 2, 0xa3b2bf8c32ceaf, 0x9cf4feec3e95eb,
        0x3a77c06fd69988);
    primality::lemma_square_multiply(0x5e0ec2c5d65225, 4, 0xa3b2bf8c32ceaf, 0x3a77c06fd69988,
        0x7625255efd5de9);
    primality::lemma_square_multiply(0x5e0ec2c5d65225, 9, 0xa3b2bf8c32ceaf, 0x7625255efd5de9,
        0x73f2b8fdbb7773);
    primality::lemma_square(0x5e0ec2c5d65225, 19, 0xa3b2bf8c32ceaf, 0x73f2b8fdbb7773,
        0x12826e0f50772d);
    primality::lemma_square(0x5e0ec2c5d65225, 38, 0xa3b2bf8c32ceaf, 0x12826e0f50772d,
        0x574330a6c7f55);
    primality::lemma_square(0x5e0ec2c5d65225, 76, 0xa3b2bf8c32ceaf, 0x574330a6c7f55,
        0x76b258fb87eb56);
    primality::lemma_square_multiply(0x5e0ec2c5d65225, 152, 0xa3b2bf8c32ceaf, 0x76b258fb87eb56,
        0x2284c341297a3f);
    primality::lemma_square_multiply(0x5e0ec2c5d65225, 305, 0xa3b2bf8c32ceaf, 0x2284c341297a3f,
        0x3ea2ce532c94d1);
    primality::lemma_square_multiply(0x5e0ec2c5d65225, 611, 0xa3b2bf8c32ceaf, 0x3ea2ce532c94d1,
        0x46c32ba4e1063e);
    primality::lemma_square(0x5e0ec2c5d65225, 1223, 0xa3b2bf8c32ceaf, 0x46c32ba4e1063e,
        0x2345808e7aa124);
    primality::lemma_square(0x5e0ec2c5d65225, 2446, 0xa3b2bf8c32ceaf, 0x2345808e7aa124,
        0x33d547eaba2898);
    primality::lemma_square_multiply(0x5e0ec2c5d65225, 4892, 0xa3b2bf8c32ceaf, 0x33d547eaba2898,
        0x96aee08aee2968);
    primality::lemma_square(0x5e0ec2c5d65225, 9785, 0xa3b2bf8c32ceaf, 0x96aee08aee2968,
        0x72df9c1a4aaf4b);
    primality::lemma_square_multiply(0x5e0ec2c5d65225, 0x4c72, 0xa3b2bf8c32ceaf,
        0x72df9c1a4aaf4b, 0x2591ec5ad76b12);
    primality::lemma_square_multiply(0x5e0ec2c5d65225, 0x98e5, 0xa3b2bf8c32ceaf,
        0x2591ec5ad76b12, 1);
}

proof fn lemma_prime_56_bits_543()
    ensures
        primes::is_prime(0xa3b2bf8c32ceaf),
{
    lemma_prime_704251();
    prime_56_bits_543_power_1_1();
    primality::lemma_factors(0xa3b2bf8c32ceaf, 0xabefb, 0x3505c3c9f91b61, 0x3382d1c86f8bb8);
    lemma_prime_78283();
    prime_56_bits_543_power_4_1();
    primality::lemma_factors(0xa3b2bf8c32ceaf, 0x131cb, 0x5e0ec2c5d65225, 0x93a72f8843276b);
    primality::lemma_factors_product(0xa3b2bf8c32ceaf, 0xabefb, 0x131cb);
    primality::lemma_prime(0xa3b2bf8c32ceaf, 0xcd60e7c09);
}

proof fn lemma_prime_17()
    ensures
        primes::is_prime(17),
{
    assert(primality::no_divisor_to(17, 1));
    assert(primality::no_divisor_to(17, 2));
    assert(primality::no_divisor_to(17, 3));
    assert(primality::no_divisor_to(17, 4));
    primality::lemma_small_prime(17, 4);
}

proof fn lemma_prime_3()
    ensures
        primes::is_prime(3),
{
    assert(primality::no_divisor_to(3, 1));
    primality::lemma_small_prime(3, 1);
}

proof fn prime_919_power_1_1()
    ensures
        primality::power_is(416, 17, 919, 1),
{
    primality::lemma_first_power(416, 919);
    primality::lemma_square(416, 1, 919, 416, 284);
    primality::lemma_square(416, 2, 919, 284, 703);
    primality::lemma_square(416, 4, 919, 703, 706);
    primality::lemma_square_multiply(416, 8, 919, 706, 1);
}

proof fn prime_919_power_4_1()
    ensures
        primality::power_is(52, 3, 919, 1),
{
    primality::lemma_first_power(52, 919);
    primality::lemma_square_multiply(52, 1, 919, 52, 1);
}

proof fn lemma_prime_919()
    ensures
        primes::is_prime(919),
{
    lemma_prime_17();
    prime_919_power_1_1();
    primality::lemma_factors(919, 17, 416, 888);
    lemma_prime_3();
    prime_919_power_4_1();
    primality::lemma_factors(919, 3, 52, 901);
    primality::lemma_factors_product(919, 17, 3);
    primality::lemma_prime(919, 51);
}

proof fn prime_3677_power_1_1()
    ensures
        primality::power_is(16, 919, 3677, 1),
{
    primality::lemma_first_power(16, 3677);
    primality::lemma_square_multiply(16, 1, 3677, 16, 419);
    primality::lemma_square_multiply(16, 3, 3677, 419, 3425);
    primality::lemma_square(16, 7, 3677, 3425, 995);
    primality::lemma_square(16, 14, 3677, 995, 912);
    primality::lemma_square_multiply(16, 28, 3677, 912, 841);
    primality::lemma_square(16, 57, 3677, 841, 1297);
    primality::lemma_square_multiply(16, 114, 3677, 1297, 3381);
    primality::lemma_square_multiply(16, 229, 3677, 3381, 919);
    primality::lemma_square_multiply(16, 459, 3677, 919, 1);
}

proof fn lemma_prime_3677()
    ensures
        primes::is_prime(3677),
{
    lemma_prime_919();
    prime_3677_power_1_1();
    primality::lemma_factors(3677, 919, 16, 1716);
    primality::lemma_prime(3677, 919);
}

proof fn lemma_prime_197()
    ensures
        primes::is_prime(197),
{
    assert(primality::no_divisor_to(197, 1));
    assert(primality::no_divisor_to(197, 2));
    assert(primality::no_divisor_to(197, 3));
    assert(primality::no_divisor_to(197, 4));
    assert(primality::no_divisor_to(197, 5));
    assert(primality::no_divisor_to(197, 6));
    assert(primality::no_divisor_to(197, 7));
    assert(primality::no_divisor_to(197, 8));
    assert(primality::no_divisor_to(197, 9));
    assert(primality::no_divisor_to(197, 10));
    assert(primality::no_divisor_to(197, 11));
    assert(primality::no_divisor_to(197, 12));
    assert(primality::no_divisor_to(197, 13));
    assert(primality::no_divisor_to(197, 14));
    primality::lemma_small_prime(197, 14);
}

proof fn prime_66417393611_power_1_1()
    ensures
        primality::power_is(0xf6b013cde, 3677, 0xf76c8ffcb, 1),
{
    primality::lemma_first_power(0xf6b013cde, 0xf76c8ffcb);
    primality::lemma_square_multiply(0xf6b013cde, 1, 0xf76c8ffcb, 0xf6b013cde, 0xd47b250a8);
    primality::lemma_square_multiply(0xf6b013cde, 3, 0xf76c8ffcb, 0xd47b250a8, 0x75f357e28);
    primality::lemma_square(0xf6b013cde, 7, 0xf76c8ffcb, 0x75f357e28, 0xded06f9a1);
    primality::lemma_square(0xf6b013cde, 14, 0xf76c8ffcb, 0xded06f9a1, 0xef18fe4a3);
    primality::lemma_square_multiply(0xf6b013cde, 28, 0xf76c8ffcb, 0xef18fe4a3, 0xa5c2534d0);
    primality::lemma_square(0xf6b013cde, 57, 0xf76c8ffcb, 0xa5c2534d0, 0x2452f6f98);
    primality::lemma_square_multiply(0xf6b013cde, 114, 0xf76c8ffcb, 0x2452f6f98, 0x7f17ce711);
    primality::lemma_square_multiply(0xf6b013cde, 229, 0xf76c8ffcb, 0x7f17ce711, 0x290da0b7d);
    primality::lemma_square_multiply(0xf6b013cde, 459, 0xf76c8ffcb, 0x290da0b7d, 0x17e616c97);
    primality::lemma_square(0xf6b013cde, 919, 0xf76c8ffcb, 0x17e616c97, 0x595e61e7d);
    primality::lemma_square_multiply(0xf6b013cde, 1838, 0xf76c8ffcb, 0x595e61e7d, 1);
}

proof fn prime_66417393611_power_4_1()
    ensures
        primality::power_is(0x812e0a1b9, 197, 0xf76c8ffcb, 1),
{
    primality::lemma_first_power(0x812e0a1b9, 0xf76c8ffcb);
    primality::lemma_square_multiply(0x812e0a1b9, 1, 0xf76c8ffcb, 0x812e0a1b9, 0x3fb7e0f0f);
    primality::lemma_square(0x812e0a1b9, 3, 0xf76c8ffcb, 0x3fb7e0f0f, 0xb7f044f99);
    primality::lemma_square(0x812e0a1b9, 6, 0xf76c8ffcb, 0xb7f044f99, 0x1a641ef87);
    primality::lemma_square(0x812e0a1b9, 12, 0xf76c8ffcb, 0x1a641ef87, 0x4909b682c);
    primality::lemma_square_multiply(0x812e0a1b9, 24, 0xf76c8ffcb, 0x4909b682c, 0x699c67b7a);
    primality::lemma_square(0x812e0a1b9, 49, 0xf76c8ffcb, 0x699c67b7a, 0xa8c819006);
    primality::lemma_square_multiply(0x812e0a1b9, 98, 0xf76c8ffcb, 0xa8c819006, 1);
}

proof fn lemma_prime_66417393611()
    ensures
        primes::is_prime(0xf76c8ffcb),
{
    lemma_prime_3677();
    prime_66417393611_power_1_1();
    primality::lemma_factors(0xf76c8ffcb, 3677, 0xf6b013cde, 0xb8335656d);
    lemma_prime_197();
    prime_66417393611_power_4_1();
    primality::lemma_factors(0xf76c8ffcb, 197, 0x812e0a1b9, 0xbecb15555);
    primality::lemma_factors_product(0xf76c8ffcb, 3677, 197);
    primality::lemma_prime(0xf76c8ffcb, 0xb0d91);
}

proof fn prime_44_bits_871_power_1_1()
    ensures
        primality::power_is(0xa027eda446c, 0xf76c8ffcb, 0xa44e179dccf, 1),
{
    primality::lemma_first_power(0xa027eda446c, 0xa44e179dccf);
    primality::lemma_square_multiply(0xa027eda446c, 1, 0xa44e179dccf, 0xa027eda446c, 0x4458509b801);
    primality::lemma_square_multiply(0xa027eda446c, 3, 0xa44e179dccf, 0x4458509b801, 0x39366e91e33);
    primality::lemma_square_multiply(0xa027eda446c, 7, 0xa44e179dccf, 0x39366e91e33, 0x90cd8ee061b);
    primality::lemma_square(0xa027eda446c, 15, 0xa44e179dccf, 0x90cd8ee061b, 0x5e5de7e3e2f);
    primality::lemma_square_multiply(0xa027eda446c, 30, 0xa44e179dccf, 0x5e5de7e3e2f,
        0x2b0c6c6fe6c);
    primality::lemma_square_multiply(0xa027eda446c, 61, 0xa44e179dccf, 0x2b0c6c6fe6c,
        0x5b4dcd2a35f);
    primality::lemma_square_multiply(0xa027eda446c, 123, 0xa44e179dccf, 0x5b4dcd2a35f,
        0x3ed02cad84c);
    primality::lemma_square(0xa027eda446c, 247, 0xa44e179dccf, 0x3ed02cad84c, 0x946dbafc66c);
    primality::lemma_square_multiply(0xa027eda446c, 494, 0xa44e179dccf, 0x946dbafc66c,
        0x5b9b3c714ca);
    primality::lemma_square_multiply(0xa027eda446c, 989, 0xa44e179dccf, 0x5b9b3c714ca,
        0x95bd437f28f);
    primality::lemma_square(0xa027eda446c, 1979, 0xa44e179dccf, 0x95bd437f28f, 0x92f14a7f6e1);
    primality::lemma_square_multiply(0xa027eda446c, 3958, 0xa44e179dccf, 0x92f14a7f6e1,
        0x4805c015755);
    primality::lemma_square_multiply(0xa027eda446c, 7917, 0xa44e179dccf, 0x4805c015755,
        0x40f1ab8d2a2);
    primality::lemma_square(0xa027eda446c, 0x3ddb, 0xa44e179dccf, 0x40f1ab8d2a2, 0x2cbafe10854);
    primality::lemma_square(0xa027eda446c, 0x7bb6, 0xa44e179dccf, 0x2cbafe10854, 0x485c4ccf559);
    primality::lemma_square_multiply(0xa027eda446c, 0xf76c, 0xa44e179dccf, 0x485c4ccf559,
        0x517d39db245);
    primality::lemma_square(0xa027eda446c, 0x1eed9, 0xa44e179dccf, 0x517d39db245, 0x65e0b3710b8);
    primality::lemma_square(0xa027eda446c, 0x3ddb2, 0xa44e179dccf, 0x65e0b3710b8, 0x4ebcd658bb1);
    primality::lemma_square(0xa027eda446c, 0x7bb64, 0xa44e179dccf, 0x4ebcd658bb1, 0x510c97f6f04);
    primality::lemma_square_multiply(0xa027eda446c, 0xf76c8, 0xa44e179dccf, 0x510c97f6f04,
        0x26804fcaa9c);
    primality::lemma_square_multiply(0xa027eda446c, 0x1eed91, 0xa44e179dccf, 0x26804fcaa9c,
        0x882e94c5173);
    primality::lemma_square_multiply(0xa027eda446c, 0x3ddb23, 0xa44e179dccf, 0x882e94c5173,
        0x13cada1c202);
    primality::lemma_square_multiply(0xa027eda446c, 0x7bb647, 0xa44e179dccf, 0x13cada1c202,
        0xe70122b8f5);
    primality::lemma_square_multiply(0xa027eda446c, 0xf76c8f, 0xa44e179dccf, 0xe70122b8f5,
        0x51ccff1d24);
    primality::lemma_square_multiply(0xa027eda446c, 0x1eed91f, 0xa44e179dccf, 0x51ccff1d24,
        0xa1283581ad);
    primality::lemma_square_multiply(0xa027eda446c, 0x3ddb23f, 0xa44e179dccf, 0xa1283581ad,
        0x881992afc97);
    primality::lemma_square_multiply(0xa027eda446c, 0x7bb647f, 0xa44e179dccf, 0x881992afc97,
        0x62252026937);
    primality::lemma_square_multiply(0xa027eda446c, 0xf76c8ff, 0xa44e179dccf, 0x62252026937,
        0x2dd4f06ed2a);
    primality::lemma_square_multiply(0xa027eda446c, 0x1eed91ff, 0xa44e179dccf, 0x2dd4f06ed2a,
        0x65d4a6d5945);
    primality::lemma_square(0xa027eda446c, 0x3ddb23ff, 0xa44e179dccf, 0x65d4a6d5945, 0x608e6cd5a79);
    primality::lemma_square(0xa027eda446c, 0x7bb647fe, 0xa44e179dccf, 0x608e6cd5a79, 0x86fc6bb80e7);
    primality::lemma_square_multiply(0xa027eda446c, 0xf76c8ffc, 0xa44e179dccf, 0x86fc6bb80e7,
        0x77b143994ff);
    primality::lemma_square(0xa027eda446c, 0x1eed91ff9, 0xa44e179dccf, 0x77b143994ff,
        0x7961a8c9570);
    primality::lemma_square_multiply(0xa027eda446c, 0x3ddb23ff2, 0xa44e179dccf, 0x7961a8c9570,
        0x9c7cf98a7f3);
    primality::lemma_square_multiply(0xa027eda446c, 0x7bb647fe5, 0xa44e179dccf, 0x9c7cf98a7f3, 1);
}

proof fn lemma_prime_44_bits_871()
    ensures
        primes::is_prime(0xa44e179dccf),
{
    lemma_prime_66417393611();
    prime_44_bits_871_power_1_1();
    primality::lemma_factors(0xa44e179dccf, 0xf76c8ffcb, 0xa027eda446c, 0x3dcf4686688);
    primality::lemma_prime(0xa44e179dccf, 0xf76c8ffcb);
}

proof fn prime_150_bits_303_power_1_1()
    ensures
        primality::power_is(0xac1f69987a98cd70795a5538e728fc5b374b2int, 0xa3b2bf8c32ceaf,
            0x22b559b5c816ae00f2378e18df38c5410ed597int, 1),
{
    primality::lemma_first_power(0xac1f69987a98cd70795a5538e728fc5b374b2int,
        0x22b559b5c816ae00f2378e18df38c5410ed597int);
    primality::lemma_square(0xac1f69987a98cd70795a5538e728fc5b374b2int, 1,
        0x22b559b5c816ae00f2378e18df38c5410ed597int, 0xac1f69987a98cd70795a5538e728fc5b374b2int,
        0x81be818209fb696ac209a42eec5f3870ae3b0int);
    primality::lemma_square_multiply(0xac1f69987a98cd70795a5538e728fc5b374b2int, 2,
        0x22b559b5c816ae00f2378e18df38c5410ed597int, 0x81be818209fb696ac209a42eec5f3870ae3b0int,
        0x1704a5ebbad0e51890d7405a72e71f4dd2f8faint);
    primality::lemma_square(0xac1f69987a98cd70795a5538e728fc5b374b2int, 5,
        0x22b559b5c816ae00f2378e18df38c5410ed597int, 0x1704a5ebbad0e51890d7405a72e71f4dd2f8faint,
        0x11cc40adca75ff42f7a1b6f8d895a620b6a2c7int);
    primality::lemma_square(0xac1f69987a98cd70795a5538e728fc5b374b2int, 10,
        0x22b559b5c816ae00f2378e18df38c5410ed597int, 0x11cc40adca75ff42f7a1b6f8d895a620b6a2c7int,
        0x5d55e7f8da168b200928bd65cf27aef2fdcc4int);
    primality::lemma_square(0xac1f69987a98cd70795a5538e728fc5b374b2int, 20,
        0x22b559b5c816ae00f2378e18df38c5410ed597int, 0x5d55e7f8da168b200928bd65cf27aef2fdcc4int,
        0x11f993ab8450fec4ed6e9f7d6355f378bc518fint);
    primality::lemma_square_multiply(0xac1f69987a98cd70795a5538e728fc5b374b2int, 40,
        0x22b559b5c816ae00f2378e18df38c5410ed597int, 0x11f993ab8450fec4ed6e9f7d6355f378bc518fint,
        0x17e4abcba963d26eb30d1b70f43c13e73a4422int);
    primality::lemma_square_multiply(0xac1f69987a98cd70795a5538e728fc5b374b2int, 81,
        0x22b559b5c816ae00f2378e18df38c5410ed597int, 0x17e4abcba963d26eb30d1b70f43c13e73a4422int,
        0x94a8d0f62f99d4fbe36956cb97facf4e43d7int);
    primality::lemma_square_multiply(0xac1f69987a98cd70795a5538e728fc5b374b2int, 163,
        0x22b559b5c816ae00f2378e18df38c5410ed597int, 0x94a8d0f62f99d4fbe36956cb97facf4e43d7int,
        0xf2d16ee533074be6e36fb59fab93778ebd7c9int);
    primality::lemma_square(0xac1f69987a98cd70795a5538e728fc5b374b2int, 327,
        0x22b559b5c816ae00f2378e18df38c5410ed597int, 0xf2d16ee533074be6e36fb59fab93778ebd7c9int,
        0x671c35181856a6d65252d9e5b302c2296ba32int);
    primality::lemma_square_multiply(0xac1f69987a98cd70795a5538e728fc5b374b2int, 654,
        0x22b559b5c816ae00f2378e18df38c5410ed597int, 0x671c35181856a6d65252d9e5b302c2296ba32int,
        0xad8bb0f678ec8e4a1ea7a576fff143c90edb1int);
    primality::lemma_square_multiply(0xac1f69987a98cd70795a5538e728fc5b374b2int, 1309,
        0x22b559b5c816ae00f2378e18df38c5410ed597int, 0xad8bb0f678ec8e4a1ea7a576fff143c90edb1int,
        0x4f78a57b0a41fd256c396086d6fc6827cd9d2int);
    primality::lemma_square(0xac1f69987a98cd70795a5538e728fc5b374b2int, 2619,
        0x22b559b5c816ae00f2378e18df38c5410ed597int, 0x4f78a57b0a41fd256c396086d6fc6827cd9d2int,
        0xce702948a02878cf497b2764eba1964a84f6fint);
    primality::lemma_square(0xac1f69987a98cd70795a5538e728fc5b374b2int, 5238,
        0x22b559b5c816ae00f2378e18df38c5410ed597int, 0xce702948a02878cf497b2764eba1964a84f6fint,
        0x1c049be6a7eecaad5bbe82da82129e31e60e5cint);
    primality::lemma_square_multiply(0xac1f69987a98cd70795a5538e728fc5b374b2int, 0x28ec,
        0x22b559b5c816ae00f2378e18df38c5410ed597int, 0x1c049be6a7eecaad5bbe82da82129e31e60e5cint,
        0xba4307067d3372eb3d4485e9616dc44962c49int);
    primality::lemma_square(0xac1f69987a98cd70795a5538e728fc5b374b2int, 0x51d9,
        0x22b559b5c816ae00f2378e18df38c5410ed597int, 0xba4307067d3372eb3d4485e9616dc44962c49int,
        0x4d79887f892047f45d5c667bced5d05bd166dint);
    primality::lemma_square_multiply(0xac1f69987a98cd70795a5538e728fc5b374b2int, 0xa3b2,
        0x22b559b5c816ae00f2378e18df38c5410ed597int, 0x4d79887f892047f45d5c667bced5d05bd166dint,
        0xede1730edcdf018d6ac537101860f17e446int);
    primality::lemma_square(0xac1f69987a98cd70795a5538e728fc5b374b2int, 0x14765,
        0x22b559b5c816ae00f2378e18df38c5410ed597int, 0xede1730edcdf018d6ac537101860f17e446int,
        0x1e7b7d4a1aa9215e30fbbc09df5e3fc65e1dbfint);
    primality::lemma_square_multiply(0xac1f69987a98cd70795a5538e728fc5b374b2int, 0x28eca,
        0x22b559b5c816ae00f2378e18df38c5410ed597int, 0x1e7b7d4a1aa9215e30fbbc09df5e3fc65e1dbfint,
        0x5926f2ee6c43bfe64ab3e49baf8e3083a16dfint);
    primality::lemma_square_multiply(0xac1f69987a98cd70795a5538e728fc5b374b2int, 0x51d95,
        0x22b559b5c816ae00f2378e18df38c5410ed597int, 0x5926f2ee6c43bfe64ab3e49baf8e3083a16dfint,
        0x124b09ae0de628908d291de9559a88c10c9fa3int);
    primality::lemma_square_multiply(0xac1f69987a98cd70795a5538e728fc5b374b2int, 0xa3b2b,
        0x22b559b5c816ae00f2378e18df38c5410ed597int, 0x124b09ae0de628908d291de9559a88c10c9fa3int,
        0x7aa447ea244287b706b2168456ffd553217dint);
    primality::lemma_square_multiply(0xac1f69987a98cd70795a5538e728fc5b374b2int, 0x147657,
        0x22b559b5c816ae00f2378e18df38c5410ed597int, 0x7aa447ea244287b706b2168456ffd553217dint,
        0x205721eb425d4d9799d585b635a3f0caf47cfint);
    primality::lemma_square_multiply(0xac1f69987a98cd70795a5538e728fc5b374b2int, 0x28ecaf,
        0x22b559b5c816ae00f2378e18df38c5410ed597int, 0x205721eb425d4d9799d585b635a3f0caf47cfint,
        0x33d12421a0dfcbec8c3a00806811a95a6ca56int);
    primality::lemma_square_multiply(0xac1f69987a98cd70795a5538e728fc5b374b2int, 0x51d95f,
        0x22b559b5c816ae00f2378e18df38c5410ed597int, 0x33d12421a0dfcbec8c3a00806811a95a6ca56int,
        0x1ce01bc1be0b78f444675572ad7dcc95c9487dint);
    primality::lemma_square_multiply(0xac1f69987a98cd70795a5538e728fc5b374b2int, 0xa3b2bf,
        0x22b559b5c816ae00f2378e18df38c5410ed597int, 0x1ce01bc1be0b78f444675572ad7dcc95c9487dint,
        0x105f8c9c8f344a364eeb37085f35d60574cfdbint);
    primality::lemma_square(0xac1f69987a98cd70795a5538e728fc5b374b2int, 0x147657f,
        0x22b559b5c816ae00f2378e18df38c5410ed597int, 0x105f8c9c8f344a364eeb37085f35d60574cfdbint,
        0x1725c824c8e1a6879237ab0662707a6a5db862int);
    primality::lemma_square(0xac1f69987a98cd70795a5538e728fc5b374b2int, 0x28ecafe,
        0x22b559b5c816ae00f2378e18df38c5410ed597int, 0x1725c824c8e1a6879237ab0662707a6a5db862int,
        0x3c2bab6eb7aa7933dfeb4df557dba46bae156int);
    primality::lemma_square(0xac1f69987a98cd70795a5538e728fc5b374b2int, 0x51d95fc,
        0x22b559b5c816ae00f2378e18df38c5410ed597int, 0x3c2bab6eb7aa7933dfeb4df557dba46bae156int,
        0xbb1af442a5bcfe76acde185f7f3485942d975int);
    primality::lemma_square_multiply(0xac1f69987a98cd70795a5538e728fc5b374b2int, 0xa3b2bf8,
        0x22b559b5c816ae00f2378e18df38c5410ed597int, 0xbb1af442a5bcfe76acde185f7f3485942d975int,
        0x51dd74134a1793a02a561c0bd3eeede30c218int);
    primality::lemma_square_multiply(0xac1f69987a98cd70795a5538e728fc5b374b2int, 0x147657f1,
        0x22b559b5c816ae00f2378e18df38c5410ed597int, 0x51dd74134a1793a02a561c0bd3eeede30c218int,
        0xbd7fbb8dce9da197be5190dfcbfff6c76f3a4int);
    primality::lemma_square(0xac1f69987a98cd70795a5538e728fc5b374b2int, 0x28ecafe3,
        0x22b559b5c816ae00f2378e18df38c5410ed597int, 0xbd7fbb8dce9da197be5190dfcbfff6c76f3a4int,
        0x219074807c22ac22d0fde3b0fa34b6edadad0dint);
    primality::lemma_square(0xac1f69987a98cd70795a5538e728fc5b374b2int, 0x51d95fc6,
        0x22b559b5c816ae00f2378e18df38c5410ed597int, 0x219074807c22ac22d0fde3b0fa34b6edadad0dint,
        0xd092b2bed262b3b6f4162ac70d1593c75d8c7int);
    primality::lemma_square(0xac1f69987a98cd70795a5538e728fc5b374b2int, 0xa3b2bf8c,
        0x22b559b5c816ae00f2378e18df38c5410ed597int, 0xd092b2bed262b3b6f4162ac70d1593c75d8c7int,
        0x1ae8e4a5499deef5da0defd455ce664af37dfcint);
    primality::lemma_square(0xac1f69987a98cd70795a5538e728fc5b374b2int, 0x147657f18,
        0x22b559b5c816ae00f2378e18df38c5410ed597int, 0x1ae8e4a5499deef5da0defd455ce664af37dfcint,
        0x1440706cf9a6453577885c4dce491c6ba29273int);
    primality::lemma_square_multiply(0xac1f69987a98cd70795a5538e728fc5b374b2int, 0x28ecafe30,
        0x22b559b5c816ae00f2378e18df38c5410ed597int, 0x1440706cf9a6453577885c4dce491c6ba29273int,
        0x74b1cbb8b26086bae4867bac5da71775461c5int);
    primality::lemma_square_multiply(0xac1f69987a98cd70795a5538e728fc5b374b2int, 0x51d95fc61,
        0x22b559b5c816ae00f2378e18df38c5410ed597int, 0x74b1cbb8b26086bae4867bac5da71775461c5int,
        0x33fdec163e38e4341ddb4eea82d6b44be926int);
    primality::lemma_square(0xac1f69987a98cd70795a5538e728fc5b374b2int, 0xa3b2bf8c3,
        0x22b559b5c816ae00f2378e18df38c5410ed597int, 0x33fdec163e38e4341ddb4eea82d6b44be926int,
        0x2120fd9fe5b20277d1ce88cd4e4c6adef3e5ebint);
    primality::lemma_square(0xac1f69987a98cd70795a5538e728fc5b374b2int, 0x147657f186,
        0x22b559b5c816ae00f2378e18df38c5410ed597int, 0x2120fd9fe5b20277d1ce88cd4e4c6adef3e5ebint,
        0x983e8b9af1ff142837dbb926ff32504da4c55int);
    primality::lemma_square_multiply(0xac1f69987a98cd70795a5538e728fc5b374b2int, 0x28ecafe30c,
        0x22b559b5c816ae00f2378e18df38c5410ed597int, 0x983e8b9af1ff142837dbb926ff32504da4c55int,
        0x4d1ef73c4cf96208969dad530c7bd90957899int);
    primality::lemma_square(0xac1f69987a98cd70795a5538e728fc5b374b2int, 0x51d95fc619,
        0x22b559b5c816ae00f2378e18df38c5410ed597int, 0x4d1ef73c4cf96208969dad530c7bd90957899int,
        0x13371a982d6e5da15341e9af00580604ac4e63int);
    primality::lemma_square_multiply(0xac1f69987a98cd70795a5538e728fc5b374b2int, 0xa3b2bf8c32,
        0x22b559b5c816ae00f2378e18df38c5410ed597int, 0x13371a982d6e5da15341e9af00580604ac4e63int,
        0xa7426a066697ddfd05a84378ae4e2e2c9d27int);
    primality::lemma_square_multiply(0xac1f69987a98cd70795a5538e728fc5b374b2int, 0x147657f1865,
        0x22b559b5c816ae00f2378e18df38c5410ed597int, 0xa7426a066697ddfd05a84378ae4e2e2c9d27int,
        0x80bb243f173ec20ec08551cde7b07237bfb5eint);
    primality::lemma_square(0xac1f69987a98cd70795a5538e728fc5b374b2int, 0x28ecafe30cb,
        0x22b559b5c816ae00f2378e18df38c5410ed597int, 0x80bb243f173ec20ec08551cde7b07237bfb5eint,
        0x927b04b4ff15dc71448a66017bf0f644e2f2int);
    primality::lemma_square(0xac1f69987a98cd70795a5538e728fc5b374b2int, 0x51d95fc6196,
        0x22b559b5c816ae00f2378e18df38c5410ed597int, 0x927b04b4ff15dc71448a66017bf0f644e2f2int,
        0x1b4e396ff133ee193fc495dd856c6da10a40a6int);
    primality::lemma_square_multiply(0xac1f69987a98cd70795a5538e728fc5b374b2int, 0xa3b2bf8c32c,
        0x22b559b5c816ae00f2378e18df38c5410ed597int, 0x1b4e396ff133ee193fc495dd856c6da10a40a6int,
        0xadeb4d7ba0d6f2fa1dd29710b4e86f751f477int);
    primality::lemma_square_multiply(0xac1f69987a98cd70795a5538e728fc5b374b2int, 0x147657f18659,
        0x22b559b5c816ae00f2378e18df38c5410ed597int, 0xadeb4d7ba0d6f2fa1dd29710b4e86f751f477int,
        0x125cb401fca8ea7dbe52ac2eb4d3cf6db7080bint);
    primality::lemma_square_multiply(0xac1f69987a98cd70795a5538e728fc5b374b2int, 0x28ecafe30cb3,
        0x22b559b5c816ae00f2378e18df38c5410ed597int, 0x125cb401fca8ea7dbe52ac2eb4d3cf6db7080bint,
        0x2a3e710b645dc170b61e921a15cf7a3a586ecint);
    primality::lemma_square(0xac1f69987a98cd70795a5538e728fc5b374b2int, 0x51d95fc61967,
        0x22b559b5c816ae00f2378e18df38c5410ed597int, 0x2a3e710b645dc170b61e921a15cf7a3a586ecint,
        0xc0d48926be040316f9326217f75dfb4b873caint);
    primality::lemma_square_multiply(0xac1f69987a98cd70795a5538e728fc5b374b2int, 0xa3b2bf8c32ce,
        0x22b559b5c816ae00f2378e18df38c5410ed597int, 0xc0d48926be040316f9326217f75dfb4b873caint,
        0x531e3789cb4ac849ab243df42a0020b8556dcint);
    primality::lemma_square(0xac1f69987a98cd70795a5538e728fc5b374b2int, 0x147657f18659d,
        0x22b559b5c816ae00f2378e18df38c5410ed597int, 0x531e3789cb4ac849ab243df42a0020b8556dcint,
        0x13d7484ddd8e55481a4611d54cb20b52a29673int);
    primality::lemma_square_multiply(0xac1f69987a98cd70795a5538e728fc5b374b2int,
        0x28ecafe30cb3a, 0x22b559b5c816ae00f2378e18df38c5410ed597int,
        0x13d7484ddd8e55481a4611d54cb20b52a29673int, 0x14ff588efeb4fb0a1ffed2d4f86cb9127b437dint);
    primality::lemma_square(0xac1f69987a98cd70795a5538e728fc5b374b2int, 0x51d95fc619675,
        0x22b559b5c816ae00f2378e18df38c5410ed597int, 0x14ff588efeb4fb0a1ffed2d4f86cb9127b437dint,
        0x22a07f38e2979c34a7a04f69ebe809984b661bint);
    primality::lemma_square_multiply(0xac1f69987a98cd70795a5538e728fc5b374b2int,
        0xa3b2bf8c32cea, 0x22b559b5c816ae00f2378e18df38c5410ed597int,
        0x22a07f38e2979c34a7a04f69ebe809984b661bint, 0x467183b32dfa8b0f748b5747d9e15eade582cint);
    primality::lemma_square_multiply(0xac1f69987a98cd70795a5538e728fc5b374b2int,
        0x147657f18659d5, 0x22b559b5c816ae00f2378e18df38c5410ed597int,
        0x467183b32dfa8b0f748b5747d9e15eade582cint, 0x10c8af04c8eaa6b92dd49f95c47b138a742259int);
    primality::lemma_square_multiply(0xac1f69987a98cd70795a5538e728fc5b374b2int,
        0x28ecafe30cb3ab, 0x22b559b5c816ae00f2378e18df38c5410ed597int,
        0x10c8af04c8eaa6b92dd49f95c47b138a742259int, 0x5967b6123a447e6f3147b30a76bee4ade7afeint);
    primality::lemma_square_multiply(0xac1f69987a98cd70795a5538e728fc5b374b2int,
        0x51d95fc6196757, 0x22b559b5c816ae00f2378e18df38c5410ed597int,
        0x5967b6123a447e6f3147b30a76bee4ade7afeint, 1);
}

proof fn prime_150_bits_303_power_4_1()
    ensures
        primality::power_is(0x2cbe55ea53ac8f31a83a9d88b34f81060f414int, 0xa44e179dccf,
            0x22b559b5c816ae00f2378e18df38c5410ed597int, 1),
{
    primality::lemma_first_power(0x2cbe55ea53ac8f31a83a9d88b34f81060f414int,
        0x22b559b5c816ae00f2378e18df38c5410ed597int);
    primality::lemma_square(0x2cbe55ea53ac8f31a83a9d88b34f81060f414int, 1,
        0x22b559b5c816ae00f2378e18df38c5410ed597int, 0x2cbe55ea53ac8f31a83a9d88b34f81060f414int,
        0xbdf7d7d15fe00b370d4a2957a4533d2ff27f5int);
    primality::lemma_square_multiply(0x2cbe55ea53ac8f31a83a9d88b34f81060f414int, 2,
        0x22b559b5c816ae00f2378e18df38c5410ed597int, 0xbdf7d7d15fe00b370d4a2957a4533d2ff27f5int,
        0x1dd615950cfcc324603bfb1f17ba0d541182d5int);
    primality::lemma_square(0x2cbe55ea53ac8f31a83a9d88b34f81060f414int, 5,
        0x22b559b5c816ae00f2378e18df38c5410ed597int, 0x1dd615950cfcc324603bfb1f17ba0d541182d5int,
        0x155cd145ec01c1a8a078478919ce287a86bd06int);
    primality::lemma_square(0x2cbe55ea53ac8f31a83a9d88b34f81060f414int, 10,
        0x22b559b5c816ae00f2378e18df38c5410ed597int, 0x155cd145ec01c1a8a078478919ce287a86bd06int,
        0x1b2e99343242126ad67009fcbd4dcd46f03a93int);
    primality::lemma_square_multiply(0x2cbe55ea53ac8f31a83a9d88b34f81060f414int, 20,
        0x22b559b5c816ae00f2378e18df38c5410ed597int, 0x1b2e99343242126ad67009fcbd4dcd46f03a93int,
        0x17b0bc4c64f1f36bcd09aa61a030cf46082c87int);
    primality::lemma_square(0x2cbe55ea53ac8f31a83a9d88b34f81060f414int, 41,
        0x22b559b5c816ae00f2378e18df38c5410ed597int, 0x17b0bc4c64f1f36bcd09aa61a030cf46082c87int,
        0x1bdec084d5e7d8407d7e32dd328e66b5a1dea7int);
    primality::lemma_square(0x2cbe55ea53ac8f31a83a9d88b34f81060f414int, 82,
        0x22b559b5c816ae00f2378e18df38c5410ed597int, 0x1bdec084d5e7d8407d7e32dd328e66b5a1dea7int,
        0x234228d01d3b0bf9d5fcbabd819947dbfa409int);
    primality::lemma_square(0x2cbe55ea53ac8f31a83a9d88b34f81060f414int, 164,
        0x22b559b5c816ae00f2378e18df38c5410ed597int, 0x234228d01d3b0bf9d5fcbabd819947dbfa409int,
        0x20c93fd27ade4fbc2bb79ab9cdf4b94465b8f9int);
    primality::lemma_square_multiply(0x2cbe55ea53ac8f31a83a9d88b34f81060f414int, 328,
        0x22b559b5c816ae00f2378e18df38c5410ed597int, 0x20c93fd27ade4fbc2bb79ab9cdf4b94465b8f9int,
        0x309f5687e3473ff46a57522fc78df5d5b2390int);
    primality::lemma_square(0x2cbe55ea53ac8f31a83a9d88b34f81060f414int, 657,
        0x22b559b5c816ae00f2378e18df38c5410ed597int, 0x309f5687e3473ff46a57522fc78df5d5b2390int,
        0x1b75141519943b320ed15a813a1f79df3df49int);
    primality::lemma_square(0x2cbe55ea53ac8f31a83a9d88b34f81060f414int, 1314,
        0x22b559b5c816ae00f2378e18df38c5410ed597int, 0x1b75141519943b320ed15a813a1f79df3df49int,
        0x1e7bbe9ab1748a3cdc8a1cece7695be078c52bint);
    primality::lemma_square_multiply(0x2cbe55ea53ac8f31a83a9d88b34f81060f414int, 2628,
        0x22b559b5c816ae00f2378e18df38c5410ed597int, 0x1e7bbe9ab1748a3cdc8a1cece7695be078c52bint,
        0x2224c481259278042b078d560e61ed4c4aecd8int);
    primality::lemma_square_multiply(0x2cbe55ea53ac8f31a83a9d88b34f81060f414int, 5257,
        0x22b559b5c816ae00f2378e18df38c5410ed597int, 0x2224c481259278042b078d560e61ed4c4aecd8int,
        0x1e035317aafad685ce3dffee9b9183d464bc59int);
    primality::lemma_square_multiply(0x2cbe55ea53ac8f31a83a9d88b34f81060f414int, 0x2913,
        0x22b559b5c816ae00f2378e18df38c5410ed597int, 0x1e035317aafad685ce3dffee9b9183d464bc59int,
        0xbaa074dce94aa9dd35ebe121b7b6851dcd19fint);
    primality::lemma_square(0x2cbe55ea53ac8f31a83a9d88b34f81060f414int, 0x5227,
        0x22b559b5c816ae00f2378e18df38c5410ed597int, 0xbaa074dce94aa9dd35ebe121b7b6851dcd19fint,
        0xda66dc7510d849c13c300f7d30dc3b2e27821int);
    primality::lemma_square(0x2cbe55ea53ac8f31a83a9d88b34f81060f414int, 0xa44e,
        0x22b559b5c816ae00f2378e18df38c5410ed597int, 0xda66dc7510d849c13c300f7d30dc3b2e27821int,
        0x796b9d3698f0ba45126a2ae8a5688d39077ecint);
    primality::lemma_square(0x2cbe55ea53ac8f31a83a9d88b34f81060f414int, 0x1489c,
        0x22b559b5c816ae00f2378e18df38c5410ed597int, 0x796b9d3698f0ba45126a2ae8a5688d39077ecint,
        0x41284818078f7cc422581af81d15fb5251ee5int);
    primality::lemma_square(0x2cbe55ea53ac8f31a83a9d88b34f81060f414int, 0x29138,
        0x22b559b5c816ae00f2378e18df38c5410ed597int, 0x41284818078f7cc422581af81d15fb5251ee5int,
        0x10ef4644b561fc4bab9f59167c0685b16b4bdcint);
    primality::lemma_square_multiply(0x2cbe55ea53ac8f31a83a9d88b34f81060f414int, 0x52270,
        0x22b559b5c816ae00f2378e18df38c5410ed597int, 0x10ef4644b561fc4bab9f59167c0685b16b4bdcint,
        0x19b54ac96e54909281a57eab239261a3ca7013int);
    primality::lemma_square(0x2cbe55ea53ac8f31a83a9d88b34f81060f414int, 0xa44e1,
        0x22b559b5c816ae00f2378e18df38c5410ed597int, 0x19b54ac96e54909281a57eab239261a3ca7013int,
        0x1207937dfaf4c799cf005b6be210e8600e5758int);
    primality::lemma_square_multiply(0x2cbe55ea53ac8f31a83a9d88b34f81060f414int, 0x1489c2,
        0x22b559b5c816ae00f2378e18df38c5410ed597int, 0x1207937dfaf4c799cf005b6be210e8600e5758int,
        0x214afe239271f9b6f75e6f9f40bf3d2e7f38f4int);
    primality::lemma_square_multiply(0x2cbe55ea53ac8f31a83a9d88b34f81060f414int, 0x291385,
        0x22b559b5c816ae00f2378e18df38c5410ed597int, 0x214afe239271f9b6f75e6f9f40bf3d2e7f38f4int,
        0xfc7d648e2ed696282f6bf7c8f1ca0a68b37c4int);
    primality::lemma_square_multiply(0x2cbe55ea53ac8f31a83a9d88b34f81060f414int, 0x52270b,
        0x22b559b5c816ae00f2378e18df38c5410ed597int, 0xfc7d648e2ed696282f6bf7c8f1ca0a68b37c4int,
        0x1b722c097183f16e8abfd15eed307dcd54a2efint);
    primality::lemma_square_multiply(0x2cbe55ea53ac8f31a83a9d88b34f81060f414int, 0xa44e17,
        0x22b559b5c816ae00f2378e18df38c5410ed597int, 0x1b722c097183f16e8abfd15eed307dcd54a2efint,
        0xae4724ae1058efb6a75ac9354e6ecf8391b44int);
    primality::lemma_square(0x2cbe55ea53ac8f31a83a9d88b34f81060f414int, 0x1489c2f,
        0x22b559b5c816ae00f2378e18df38c5410ed597int, 0xae4724ae1058efb6a75ac9354e6ecf8391b44int,
        0x1434a7c49121bb2ad5a8319105bf7f7f5167d7int);
    primality::lemma_square(0x2cbe55ea53ac8f31a83a9d88b34f81060f414int, 0x291385e,
        0x22b559b5c816ae00f2378e18df38c5410ed597int, 0x1434a7c49121bb2ad5a8319105bf7f7f5167d7int,
        0xfe70d3d37ec63387d8a6c994d922b15d2994fint);
    primality::lemma_square_multiply(0x2cbe55ea53ac8f31a83a9d88b34f81060f414int, 0x52270bc,
        0x22b559b5c816ae00f2378e18df38c5410ed597int, 0xfe70d3d37ec63387d8a6c994d922b15d2994fint,
        0x1b62bf39519c8bb16408be4bb6f3b24a60e01cint);
    primality::lemma_square_multiply(0x2cbe55ea53ac8f31a83a9d88b34f81060f414int, 0xa44e179,
        0x22b559b5c816ae00f2378e18df38c5410ed597int, 0x1b62bf39519c8bb16408be4bb6f3b24a60e01cint,
        0x4c70e33b9167225ed19858e0f3a1e1e0b8eafint);
    primality::lemma_square_multiply(0x2cbe55ea53ac8f31a83a9d88b34f81060f414int, 0x1489c2f3,
        0x22b559b5c816ae00f2378e18df38c5410ed597int, 0x4c70e33b9167225ed19858e0f3a1e1e0b8eafint,
        0x1a837bca05d8b42c1f1dbc57a990ca76ddd29cint);
    primality::lemma_square(0x2cbe55ea53ac8f31a83a9d88b34f81060f414int, 0x291385e7,
        0x22b559b5c816ae00f2378e18df38c5410ed597int, 0x1a837bca05d8b42c1f1dbc57a990ca76ddd29cint,
        0xbfc85a243080e43c773547154ff82b9d168d7int);
    primality::lemma_square_multiply(0x2cbe55ea53ac8f31a83a9d88b34f81060f414int, 0x52270bce,
        0x22b559b5c816ae00f2378e18df38c5410ed597int, 0xbfc85a243080e43c773547154ff82b9d168d7int,
        0x2499557d09c9780b9de6a3f9be484f3447d93int);
    primality::lemma_square_multiply(0x2cbe55ea53ac8f31a83a9d88b34f81060f414int, 0xa44e179d,
        0x22b559b5c816ae00f2378e18df38c5410ed597int, 0x2499557d09c9780b9de6a3f9be484f3447d93int,
        0x16730a1518ea05f381ce74a3851dc6a7a95f7eint);
    primality::lemma_square_multiply(0x2cbe55ea53ac8f31a83a9d88b34f81060f414int, 0x1489c2f3b,
        0x22b559b5c816ae00f2378e18df38c5410ed597int, 0x16730a1518ea05f381ce74a3851dc6a7a95f7eint,
        0x877515942d530c57caf76cc6ef0a801a92af4int);
    primality::lemma_square(0x2cbe55ea53ac8f31a83a9d88b34f81060f414int, 0x291385e77,
        0x22b559b5c816ae00f2378e18df38c5410ed597int, 0x877515942d530c57caf76cc6ef0a801a92af4int,
        0x507d01fad8a3ead35eb536bae2a2128da69d3int);
    primality::lemma_square(0x2cbe55ea53ac8f31a83a9d88b34f81060f414int, 0x52270bcee,
        0x22b559b5c816ae00f2378e18df38c5410ed597int, 0x507d01fad8a3ead35eb536bae2a2128da69d3int,
        0x1ef834328a94264aad9ef2ed7d74295d4f9eecint);
    primality::lemma_square_multiply(0x2cbe55ea53ac8f31a83a9d88b34f81060f414int, 0xa44e179dc,
        0x22b559b5c816ae00f2378e18df38c5410ed597int, 0x1ef834328a94264aad9ef2ed7d74295d4f9eecint,
        0x181f49b094ee3087a71aaecdfdc57ae05727e9int);
    primality::lemma_square_multiply(0x2cbe55ea53ac8f31a83a9d88b34f81060f414int, 0x1489c2f3b9,
        0x22b559b5c816ae00f2378e18df38c5410ed597int, 0x181f49b094ee3087a71aaecdfdc57ae05727e9int,
        0x209018ee8d363db9bf31ea2c3d2c9c7c6e6d7aint);
    primality::lemma_square(0x2cbe55ea53ac8f31a83a9d88b34f81060f414int, 0x291385e773,
        0x22b559b5c816ae00f2378e18df38c5410ed597int, 0x209018ee8d363db9bf31ea2c3d2c9c7c6e6d7aint,
        0x2766db6b6ffc0649327d7cc835a29b3b622a9int);
    primality::lemma_square(0x2cbe55ea53ac8f31a83a9d88b34f81060f414int, 0x52270bcee6,
        0x22b559b5c816ae00f2378e18df38c5410ed597int, 0x2766db6b6ffc0649327d7cc835a29b3b622a9int,
        0x1d7696b4c0bdb59e418574837ab65bc36bc1b2int);
    primality::lemma_square_multiply(0x2cbe55ea53ac8f31a83a9d88b34f81060f414int, 0xa44e179dcc,
        0x22b559b5c816ae00f2378e18df38c5410ed597int, 0x1d7696b4c0bdb59e418574837ab65bc36bc1b2int,
        0x12b8cca5495929b087785ca36486f6a899483dint);
    primality::lemma_square_multiply(0x2cbe55ea53ac8f31a83a9d88b34f81060f414int, 0x1489c2f3b99,
        0x22b559b5c816ae00f2378e18df38c5410ed597int, 0x12b8cca5495929b087785ca36486f6a899483dint,
        0x11f0e3d9d2fcf429f5eb53c94070962c3137dbint);
    primality::lemma_square_multiply(0x2cbe55ea53ac8f31a83a9d88b34f81060f414int, 0x291385e7733,
        0x22b559b5c816ae00f2378e18df38c5410ed597int, 0x11f0e3d9d2fcf429f5eb53c94070962c3137dbint,
        0x13ee2c8b05b62210166d07e49f8a0b952ffa05int);
    primality::lemma_square_multiply(0x2cbe55ea53ac8f31a83a9d88b34f81060f414int, 0x52270bcee67,
        0x22b559b5c816ae00f2378e18df38c5410ed597int, 0x13ee2c8b05b62210166d07e49f8a0b952ffa05int,
        1);
}

proof fn lemma_prime_150_bits_303()
    ensures
        primes::is_prime(0x22b559b5c816ae00f2378e18df38c5410ed597int),
{
    lemma_prime_56_bits_543();
    prime_150_bits_303_power_1_1();
    primality::lemma_factors(0x22b559b5c816ae00f2378e18df38c5410ed597int, 0xa3b2bf8c32ceaf,
        0xac1f69987a98cd70795a5538e728fc5b374b2int, 0x1c57608cca63bd0dec0bb61f90d77cc342f96eint);
    lemma_prime_44_bits_871();
    prime_150_bits_303_power_4_1();
    primality::lemma_factors(0x22b559b5c816ae00f2378e18df38c5410ed597int, 0xa44e179dccf,
        0x2cbe55ea53ac8f31a83a9d88b34f81060f414int, 0xe62dfc289b94889baf37a7ecd87a1cba8a4a8int);
    primality::lemma_factors_product(0x22b559b5c816ae00f2378e18df38c5410ed597int,
        0xa3b2bf8c32ceaf, 0xa44e179dccf);
    primality::lemma_prime(0x22b559b5c816ae00f2378e18df38c5410ed597int,
        0x691072462424dcd85866a8381int);
}

proof fn prime_160_bits_241_power_1_1()
    ensures
        primality::power_is(0x84f6174410b13b7c641bfb1c0429a24ea8e8db82int,
            0x115aacdae40b57007int, 0x926d1276e41fae13fdda5f78edb7802a76951509int,
            0x8c772e921106c12291b55a0ed4a791cffe7faacbint),
{
    primality::lemma_first_power(0x84f6174410b13b7c641bfb1c0429a24ea8e8db82int,
        0x926d1276e41fae13fdda5f78edb7802a76951509int);
    primality::lemma_square(0x84f6174410b13b7c641bfb1c0429a24ea8e8db82int, 1,
        0x926d1276e41fae13fdda5f78edb7802a76951509int,
        0x84f6174410b13b7c641bfb1c0429a24ea8e8db82int,
        0x716368c5f08bdf6c4943d9ea39b018559b764a64int);
    primality::lemma_square(0x84f6174410b13b7c641bfb1c0429a24ea8e8db82int, 2,
        0x926d1276e41fae13fdda5f78edb7802a76951509int,
        0x716368c5f08bdf6c4943d9ea39b018559b764a64int,
        0x6ab32842e8421fff279f0be4d07f42e32b4acb03int);
    primality::lemma_square(0x84f6174410b13b7c641bfb1c0429a24ea8e8db82int, 4,
        0x926d1276e41fae13fdda5f78edb7802a76951509int,
        0x6ab32842e8421fff279f0be4d07f42e32b4acb03int,
        0x4c80de5574152e7ca5b9f82e5533ff723d93fd2aint);
    primality::lemma_square_multiply(0x84f6174410b13b7c641bfb1c0429a24ea8e8db82int, 8,
        0x926d1276e41fae13fdda5f78edb7802a76951509int,
        0x4c80de5574152e7ca5b9f82e5533ff723d93fd2aint,
        0x375bdf1039b31d96d440f07c543a79530bce32aeint);
    primality::lemma_square(0x84f6174410b13b7c641bfb1c0429a24ea8e8db82int, 17,
        0x926d1276e41fae13fdda5f78edb7802a76951509int,
        0x375bdf1039b31d96d440f07c543a79530bce32aeint,
        0x3045d9bf8b8266961c7236aeaa8042b2cd320efeint);
    primality::lemma_square_multiply(0x84f6174410b13b7c641bfb1c0429a24ea8e8db82int, 34,
        0x926d1276e41fae13fdda5f78edb7802a76951509int,
        0x3045d9bf8b8266961c7236aeaa8042b2cd320efeint,
        0x20858902b4c5f9b5b72072b2305dad755e30911bint);
    primality::lemma_square(0x84f6174410b13b7c641bfb1c0429a24ea8e8db82int, 69,
        0x926d1276e41fae13fdda5f78edb7802a76951509int,
        0x20858902b4c5f9b5b72072b2305dad755e30911bint,
        0x70483f8dfaf875e2771b5d5c41c2f5a08daac07cint);
    primality::lemma_square_multiply(0x84f6174410b13b7c641bfb1c0429a24ea8e8db82int, 138,
        0x926d1276e41fae13fdda5f78edb7802a76951509int,
        0x70483f8dfaf875e2771b5d5c41c2f5a08daac07cint,
        0x1f13f69411b88372f7534f4676e60d2ba4e9c740int);
    primality::lemma_square_multiply(0x84f6174410b13b7c641bfb1c0429a24ea8e8db82int, 277,
        0x926d1276e41fae13fdda5f78edb7802a76951509int,
        0x1f13f69411b88372f7534f4676e60d2ba4e9c740int,
        0x749a0c98ecfbbf2c692e17d8cbe57473d9bdf024int);
    primality::lemma_square(0x84f6174410b13b7c641bfb1c0429a24ea8e8db82int, 555,
        0x926d1276e41fae13fdda5f78edb7802a76951509int,
        0x749a0c98ecfbbf2c692e17d8cbe57473d9bdf024int,
        0x25a1b534cc520de2dd76efd1ae6f152df54974c1int);
    primality::lemma_square_multiply(0x84f6174410b13b7c641bfb1c0429a24ea8e8db82int, 1110,
        0x926d1276e41fae13fdda5f78edb7802a76951509int,
        0x25a1b534cc520de2dd76efd1ae6f152df54974c1int,
        0x27d7d500a81bff0dcdf4105012396383e4f4fe8fint);
    primality::lemma_square(0x84f6174410b13b7c641bfb1c0429a24ea8e8db82int, 2221,
        0x926d1276e41fae13fdda5f78edb7802a76951509int,
        0x27d7d500a81bff0dcdf4105012396383e4f4fe8fint,
        0xbcf0cb0af1aa9d6f7695ac2d22ddff69c729b91int);
    primality::lemma_square_multiply(0x84f6174410b13b7c641bfb1c0429a24ea8e8db82int, 4442,
        0x926d1276e41fae13fdda5f78edb7802a76951509int, 0xbcf0cb0af1aa9d6f7695ac2d22ddff69c729b91int,
        0x35a484198144c5f52614610266ddcda1bffc53e3int);
    primality::lemma_square(0x84f6174410b13b7c641bfb1c0429a24ea8e8db82int, 8885,
        0x926d1276e41fae13fdda5f78edb7802a76951509int,
        0x35a484198144c5f52614610266ddcda1bffc53e3int,
        0x93554632a72a15c586ddb55c20502a5bcb36455int);
    primality::lemma_square_multiply(0x84f6174410b13b7c641bfb1c0429a24ea8e8db82int, 0x456a,
        0x926d1276e41fae13fdda5f78edb7802a76951509int, 0x93554632a72a15c586ddb55c20502a5bcb36455int,
        0x99e37b24122fd35adc1752ce79446601e50b59int);
    primality::lemma_square(0x84f6174410b13b7c641bfb1c0429a24ea8e8db82int, 0x8ad5,
        0x926d1276e41fae13fdda5f78edb7802a76951509int, 0x99e37b24122fd35adc1752ce79446601e50b59int,
        0x2be0c2ebe1ee77c6151cd385aab65f79e72fc796int);
    primality::lemma_square_multiply(0x84f6174410b13b7c641bfb1c0429a24ea8e8db82int, 0x115aa,
        0x926d1276e41fae13fdda5f78edb7802a76951509int,
        0x2be0c2ebe1ee77c6151cd385aab65f79e72fc796int,
        0x3dd0e0023af003206819acc3ab3c53e66376ae98int);
    primality::lemma_square_multiply(0x84f6174410b13b7c641bfb1c0429a24ea8e8db82int, 0x22b55,
        0x926d1276e41fae13fdda5f78edb7802a76951509int,
        0x3dd0e0023af003206819acc3ab3c53e66376ae98int,
        0x3e54a23f06ad5e6698eed095e17bf12d6c7cf8bcint);
    primality::lemma_square(0x84f6174410b13b7c641bfb1c0429a24ea8e8db82int, 0x456ab,
        0x926d1276e41fae13fdda5f78edb7802a76951509int,
        0x3e54a23f06ad5e6698eed095e17bf12d6c7cf8bcint,
        0x868d3a8f713c5ef2da912b7163d15a8a0f850630int);
    primality::lemma_square(0x84f6174410b13b7c641bfb1c0429a24ea8e8db82int, 0x8ad56,
        0x926d1276e41fae13fdda5f78edb7802a76951509int,
        0x868d3a8f713c5ef2da912b7163d15a8a0f850630int,
        0x30dde5638507a052d7ab803f4a04ac164253782eint);
    primality::lemma_square_multiply(0x84f6174410b13b7c641bfb1c0429a24ea8e8db82int, 0x115aac,
        0x926d1276e41fae13fdda5f78edb7802a76951509int,
        0x30dde5638507a052d7ab803f4a04ac164253782eint,
        0x62deed42c42f9332dce46eee14c9dd7664e3a98eint);
    primality::lemma_square_multiply(0x84f6174410b13b7c641bfb1c0429a24ea8e8db82int, 0x22b559,
        0x926d1276e41fae13fdda5f78edb7802a76951509int,
        0x62deed42c42f9332dce46eee14c9dd7664e3a98eint,
        0x924a7806dc0cdd10a6496c0f4993af033943b9c8int);
    primality::lemma_square(0x84f6174410b13b7c641bfb1c0429a24ea8e8db82int, 0x456ab3,
        0x926d1276e41fae13fdda5f78edb7802a76951509int,
        0x924a7806dc0cdd10a6496c0f4993af033943b9c8int,
        0x8ac6af38e4b788a8b17ba3e658061d05b8b5e666int);
    primality::lemma_square_multiply(0x84f6174410b13b7c641bfb1c0429a24ea8e8db82int, 0x8ad566,
        0x926d1276e41fae13fdda5f78edb7802a76951509int,
        0x8ac6af38e4b788a8b17ba3e658061d05b8b5e666int,
        0x82e43bf9bad338697cfaca3c4e1d75a460461243int);
    primality::lemma_square_multiply(0x84f6174410b13b7c641bfb1c0429a24ea8e8db82int, 0x115aacd,
        0x926d1276e41fae13fdda5f78edb7802a76951509int,
        0x82e43bf9bad338697cfaca3c4e1d75a460461243int,
        0x3698856517d819f3c4696517c8c53c5494b6132eint);
    primality::lemma_square(0x84f6174410b13b7c641bfb1c0429a24ea8e8db82int, 0x22b559b,
        0x926d1276e41fae13fdda5f78edb7802a76951509int,
        0x3698856517d819f3c4696517c8c53c5494b6132eint,
        0x2ff3e5f998c331b2311879f9f7ddab4930db3a55int);
    primality::lemma_square_multiply(0x84f6174410b13b7c641bfb1c0429a24ea8e8db82int, 0x456ab36,
        0x926d1276e41fae13fdda5f78edb7802a76951509int,
        0x2ff3e5f998c331b2311879f9f7ddab4930db3a55int,
        0x9102c1d86ea19c9ec7e237a39f7c3f1da1cc8e21int);
    primality::lemma_square(0x84f6174410b13b7c641bfb1c0429a24ea8e8db82int, 0x8ad566d,
        0x926d1276e41fae13fdda5f78edb7802a76951509int,
        0x9102c1d86ea19c9ec7e237a39f7c3f1da1cc8e21int,
        0x6afb5d4f70571b685878b54928bc1d364a4efb21int);
    primality::lemma_square_multiply(0x84f6174410b13b7c641bfb1c0429a24ea8e8db82int, 0x115aacda,
        0x926d1276e41fae13fdda5f78edb7802a76951509int,
        0x6afb5d4f70571b685878b54928bc1d364a4efb21int,
        0x6482fcad59b482543add58d123cd79f10200ddafint);
    primality::lemma_square_multiply(0x84f6174410b13b7c641bfb1c0429a24ea8e8db82int, 0x22b559b5,
        0x926d1276e41fae13fdda5f78edb7802a76951509int,
        0x6482fcad59b482543add58d123cd79f10200ddafint,
        0x811fb9d9ec1c878963c4b70ba83dfac874793a9dint);
    primality::lemma_square_multiply(0x84f6174410b13b7c641bfb1c0429a24ea8e8db82int, 0x456ab36b,
        0x926d1276e41fae13fdda5f78edb7802a76951509int,
        0x811fb9d9ec1c878963c4b70ba83dfac874793a9dint,
        0x8331b22c010952ca24b949e3ffe0812a6aca4179int);
    primality::lemma_square(0x84f6174410b13b7c641bfb1c0429a24ea8e8db82int, 0x8ad566d7,
        0x926d1276e41fae13fdda5f78edb7802a76951509int,
        0x8331b22c010952ca24b949e3ffe0812a6aca4179int,
        0x517ef1348e143bc13bc27cf74d76d7515ed10093int);
    primality::lemma_square(0x84f6174410b13b7c641bfb1c0429a24ea8e8db82int, 0x115aacdae,
        0x926d1276e41fae13fdda5f78edb7802a76951509int,
        0x517ef1348e143bc13bc27cf74d76d7515ed10093int,
        0x2982cff87dc61b9b8a243f8da3afaa81081679acint);
    primality::lemma_square_multiply(0x84f6174410b13b7c641bfb1c0429a24ea8e8db82int, 0x22b559b5c,
        0x926d1276e41fae13fdda5f78edb7802a76951509int,
        0x2982cff87dc61b9b8a243f8da3afaa81081679acint,
        0x21d2ed2f8d03d83b8baf5624dc3e68d252d69634int);
    primality::lemma_square(0x84f6174410b13b7c641bfb1c0429a24ea8e8db82int, 0x456ab36b9,
        0x926d1276e41fae13fdda5f78edb7802a76951509int,
        0x21d2ed2f8d03d83b8baf5624dc3e68d252d69634int,
        0x123eab7e9fa8b5e85f728a494179895818667be3int);
    primality::lemma_square(0x84f6174410b13b7c641bfb1c0429a24ea8e8db82int, 0x8ad566d72,
        0x926d1276e41fae13fdda5f78edb7802a76951509int,
        0x123eab7e9fa8b5e85f728a494179895818667be3int,
        0x1eb55fe4917d64f80180ff3c6cbfe7fad479e040int);
    primality::lemma_square(0x84f6174410b13b7c641bfb1c0429a24ea8e8db82int, 0x115aacdae4,
        0x926d1276e41fae13fdda5f78edb7802a76951509int,
        0x1eb55fe4917d64f80180ff3c6cbfe7fad479e040int,
        0x2e8897e00232ec27228a43cb4dd30d9a662048faint);
    primality::lemma_square(0x84f6174410b13b7c641bfb1c0429a24ea8e8db82int, 0x22b559b5c8,
        0x926d1276e41fae13fdda5f78edb7802a76951509int,
        0x2e8897e00232ec27228a43cb4dd30d9a662048faint,
        0x821bc9d182c6ae8a990fabae863e6061595fcb40int);
    primality::lemma_square(0x84f6174410b13b7c641bfb1c0429a24ea8e8db82int, 0x456ab36b90,
        0x926d1276e41fae13fdda5f78edb7802a76951509int,
        0x821bc9d182c6ae8a990fabae863e6061595fcb40int,
        0x6d6a9d0dab22a98f5ba36a157916ecb59358941fint);
    primality::lemma_square(0x84f6174410b13b7c641bfb1c0429a24ea8e8db82int, 0x8ad566d720,
        0x926d1276e41fae13fdda5f78edb7802a76951509int,
        0x6d6a9d0dab22a98f5ba36a157916ecb59358941fint,
        0x481fcd9ffc6482d6bcf4b456a9e121d924a9640dint);
    primality::lemma_square_multiply(0x84f6174410b13b7c641bfb1c0429a24ea8e8db82int,
        0x115aacdae40, 0x926d1276e41fae13fdda5f78edb7802a76951509int,
        0x481fcd9ffc6482d6bcf4b456a9e121d924a9640dint,
        0x29efbf7633ad2192d398024ff566cd1b9ebb42bfint);
    primality::lemma_square(0x84f6174410b13b7c641bfb1c0429a24ea8e8db82int, 0x22b559b5c81,
        0x926d1276e41fae13fdda5f78edb7802a76951509int,
        0x29efbf7633ad2192d398024ff566cd1b9ebb42bfint, 0x7ccf231b8662da7af35ac9dec811d438474a49int);
    primality::lemma_square_multiply(0x84f6174410b13b7c641bfb1c0429a24ea8e8db82int,
        0x456ab36b902, 0x926d1276e41fae13fdda5f78edb7802a76951509int,
        0x7ccf231b8662da7af35ac9dec811d438474a49int, 0x45820cc6debc8148709c241a87778b38c876b7b8int);
    primality::lemma_square_multiply(0x84f6174410b13b7c641bfb1c0429a24ea8e8db82int,
        0x8ad566d7205, 0x926d1276e41fae13fdda5f78edb7802a76951509int,
        0x45820cc6debc8148709c241a87778b38c876b7b8int,
        0x668c7f8c3c3c29232540a77719a51e52735249f4int);
    primality::lemma_square(0x84f6174410b13b7c641bfb1c0429a24ea8e8db82int, 0x115aacdae40b,
        0x926d1276e41fae13fdda5f78edb7802a76951509int,
        0x668c7f8c3c3c29232540a77719a51e52735249f4int,
        0x59c7b9904edf1d2712fe97c7e836e5ec6f57bc9int);
    primality::lemma_square_multiply(0x84f6174410b13b7c641bfb1c0429a24ea8e8db82int,
        0x22b559b5c816, 0x926d1276e41fae13fdda5f78edb7802a76951509int,
        0x59c7b9904edf1d2712fe97c7e836e5ec6f57bc9int,
        0x1fc099957732a7cec78afd32eeb7ef0218360fdfint);
    primality::lemma_square(0x84f6174410b13b7c641bfb1c0429a24ea8e8db82int, 0x456ab36b902d,
        0x926d1276e41fae13fdda5f78edb7802a76951509int,
        0x1fc099957732a7cec78afd32eeb7ef0218360fdfint,
        0x75c146ae0b75330c9d92297cb920fd313f01fda4int);
    primality::lemma_square_multiply(0x84f6174410b13b7c641bfb1c0429a24ea8e8db82int,
        0x8ad566d7205a, 0x926d1276e41fae13fdda5f78edb7802a76951509int,
        0x75c146ae0b75330c9d92297cb920fd313f01fda4int,
        0x59e934f920642790ed3a8e67c50d190209f251a7int);
    primality::lemma_square(0x84f6174410b13b7c641bfb1c0429a24ea8e8db82int, 0x115aacdae40b5,
        0x926d1276e41fae13fdda5f78edb7802a76951509int,
        0x59e934f920642790ed3a8e67c50d190209f251a7int,
        0x73a57dff9348cf75dd956d21de00b11b36bd5a49int);
    primality::lemma_square_multiply(0x84f6174410b13b7c641bfb1c0429a24ea8e8db82int,
        0x22b559b5c816a, 0x926d1276e41fae13fdda5f78edb7802a76951509int,
        0x73a57dff9348cf75dd956d21de00b11b36bd5a49int,
        0x589401711ddf683e3815bd7a2dbee609c26d867eint);
    primality::lemma_square_multiply(0x84f6174410b13b7c641bfb1c0429a24ea8e8db82int,
        0x456ab36b902d5, 0x926d1276e41fae13fdda5f78edb7802a76951509int,
        0x589401711ddf683e3815bd7a2dbee609c26d867eint,
        0x4970ae5df68c4f0bf076d67059b2a59ac4cb550fint);
    primality::lemma_square_multiply(0x84f6174410b13b7c641bfb1c0429a24ea8e8db82int,
        0x8ad566d7205ab, 0x926d1276e41fae13fdda5f78edb7802a76951509int,
        0x4970ae5df68c4f0bf076d67059b2a59ac4cb550fint,
        0x571ecd38f19e6b29a7063ea387de9bcce0cc55c6int);
    primality::lemma_square(0x84f6174410b13b7c641bfb1c0429a24ea8e8db82int, 0x115aacdae40b57,
        0x926d1276e41fae13fdda5f78edb7802a76951509int,
        0x571ecd38f19e6b29a7063ea387de9bcce0cc55c6int,
        0x7ad7c6eff20a3d6efecb122cea9d87e3ad1fff5bint);
    primality::lemma_square(0x84f6174410b13b7c641bfb1c0429a24ea8e8db82int, 0x22b559b5c816ae,
        0x926d1276e41fae13fdda5f78edb7802a76951509int,
        0x7ad7c6eff20a3d6efecb122cea9d87e3ad1fff5bint,
        0x6e8983be6f8b691246a4c9be0c190a827236bd5bint);
    primality::lemma_square(0x84f6174410b13b7c641bfb1c0429a24ea8e8db82int, 0x456ab36b902d5c,
        0x926d1276e41fae13fdda5f78edb7802a76951509int,
        0x6e8983be6f8b691246a4c9be0c190a827236bd5bint,
        0x22eef4c066fb6b3517fbe6bad55acac2e0c1e7ddint);
    primality::lemma_square(0x84f6174410b13b7c641bfb1c0429a24ea8e8db82int, 0x8ad566d7205ab8,
        0x926d1276e41fae13fdda5f78edb7802a76951509int,
        0x22eef4c066fb6b3517fbe6bad55acac2e0c1e7ddint,
        0x3cba5b66f66b3f793bba23a8be5a1b47214bbb1cint);
    primality::lemma_square(0x84f6174410b13b7c641bfb1c0429a24ea8e8db82int, 0x115aacdae40b570,
        0x926d1276e41fae13fdda5f78edb7802a76951509int,
        0x3cba5b66f66b3f793bba23a8be5a1b47214bbb1cint,
        0x7f98602edacaacec3cf8b479a90fb7e36c74bb6bint);
    primality::lemma_square(0x84f6174410b13b7c641bfb1c0429a24ea8e8db82int, 0x22b559b5c816ae0,
        0x926d1276e41fae13fdda5f78edb7802a76951509int,
        0x7f98602edacaacec3cf8b479a90fb7e36c74bb6bint,
        0x3ba8b862270209b191ac11ab05388ea2c53a1bd7int);
    primality::lemma_square(0x84f6174410b13b7c641bfb1c0429a24ea8e8db82int, 0x456ab36b902d5c0,
        0x926d1276e41fae13fdda5f78edb7802a76951509int,
        0x3ba8b862270209b191ac11ab05388ea2c53a1bd7int,
        0x222963d76eda0ad9ae493863b277a8fc372d17d9int);
    primality::lemma_square(0x84f6174410b13b7c641bfb1c0429a24ea8e8db82int, 0x8ad566d7205ab80,
        0x926d1276e41fae13fdda5f78edb7802a76951509int,
        0x222963d76eda0ad9ae493863b277a8fc372d17d9int,
        0x5119851e343c6ed40eb034f7c7e80ae1ffde53e4int);
    primality::lemma_square(0x84f6174410b13b7c641bfb1c0429a24ea8e8db82int, 0x115aacdae40b5700,
        0x926d1276e41fae13fdda5f78edb7802a76951509int,
        0x5119851e343c6ed40eb034f7c7e80ae1ffde53e4int,
        0x23932473d60d24c7d2fd94c28acdcb55c325a989int);
    primality::lemma_square_multiply(0x84f6174410b13b7c641bfb1c0429a24ea8e8db82int,
        0x22b559b5c816ae00, 0x926d1276e41fae13fdda5f78edb7802a76951509int,
        0x23932473d60d24c7d2fd94c28acdcb55c325a989int,
        0x49341f226084557c8b6055ab36ed99fab58c4fe3int);
    primality::lemma_square_multiply(0x84f6174410b13b7c641bfb1c0429a24ea8e8db82int,
        0x456ab36b902d5c01, 0x926d1276e41fae13fdda5f78edb7802a76951509int,
        0x49341f226084557c8b6055ab36ed99fab58c4fe3int,
        0xfdf52541623ee92d39c7dbfb4c5a81739f8c297int);
    primality::lemma_square_multiply(0x84f6174410b13b7c641bfb1c0429a24ea8e8db82int,
        0x8ad566d7205ab803int, 0x926d1276e41fae13fdda5f78edb7802a76951509int,
        0xfdf52541623ee92d39c7dbfb4c5a81739f8c297int,
        0x8c772e921106c12291b55a0ed4a791cffe7faacbint);
}

proof fn prime_160_bits_241_power_1_2()
    requires
        primality::power_is(0x84f6174410b13b7c641bfb1c0429a24ea8e8db82int,
            0x115aacdae40b57007int, 0x926d1276e41fae13fdda5f78edb7802a76951509int,
            0x8c772e921106c12291b55a0ed4a791cffe7faacbint),
    ensures
        primality::power_is(0x84f6174410b13b7c641bfb1c0429a24ea8e8db82int,
            0x115aacdae40b5700791bc70c6f9c62a08int, 0x926d1276e41fae13fdda5f78edb7802a76951509int,
            0x80aa95639e230fa3df7f7bbd3ae65a9d395a4fdint),
{
    primality::lemma_square_multiply(0x84f6174410b13b7c641bfb1c0429a24ea8e8db82int,
        0x115aacdae40b57007int, 0x926d1276e41fae13fdda5f78edb7802a76951509int,
        0x8c772e921106c12291b55a0ed4a791cffe7faacbint,
        0x4d9c8fa695b7224f4c72988c77f891f732ba456dint);
    primality::lemma_square(0x84f6174410b13b7c641bfb1c0429a24ea8e8db82int,
        0x22b559b5c816ae00fint, 0x926d1276e41fae13fdda5f78edb7802a76951509int,
        0x4d9c8fa695b7224f4c72988c77f891f732ba456dint,
        0x5dc5bb5a29b84a2b4826ceb9b657c7cf29e81ff0int);
    primality::lemma_square(0x84f6174410b13b7c641bfb1c0429a24ea8e8db82int,
        0x456ab36b902d5c01eint, 0x926d1276e41fae13fdda5f78edb7802a76951509int,
        0x5dc5bb5a29b84a2b4826ceb9b657c7cf29e81ff0int,
        0x5a7485917d3938f93bf03c172ac52e27d8ff3accint);
    primality::lemma_square_multiply(0x84f6174410b13b7c641bfb1c0429a24ea8e8db82int,
        0x8ad566d7205ab803cint, 0x926d1276e41fae13fdda5f78edb7802a76951509int,
        0x5a7485917d3938f93bf03c172ac52e27d8ff3accint,
        0x4e2ea65a06f2e8bb73c9ee6f00701b5b0a0fc66cint);
    primality::lemma_square(0x84f6174410b13b7c641bfb1c0429a24ea8e8db82int,
        0x115aacdae40b570079int, 0x926d1276e41fae13fdda5f78edb7802a76951509int,
        0x4e2ea65a06f2e8bb73c9ee6f00701b5b0a0fc66cint,
        0x3d249dc0e7ab781136993d49d4cedece1513ebbint);
    primality::lemma_square(0x84f6174410b13b7c641bfb1c0429a24ea8e8db82int,
        0x22b559b5c816ae00f2int, 0x926d1276e41fae13fdda5f78edb7802a76951509int,
        0x3d249dc0e7ab781136993d49d4cedece1513ebbint,
        0x43261df785b8e84b3af7aa3fc3e53d022d06daecint);
    primality::lemma_square(0x84f6174410b13b7c641bfb1c0429a24ea8e8db82int,
        0x456ab36b902d5c01e4int, 0x926d1276e41fae13fdda5f78edb7802a76951509int,
        0x43261df785b8e84b3af7aa3fc3e53d022d06daecint,
        0xa3700254bc2302023b0ee5b72cfe3fa2c05a935int);
    primality::lemma_square_multiply(0x84f6174410b13b7c641bfb1c0429a24ea8e8db82int,
        0x8ad566d7205ab803c8int, 0x926d1276e41fae13fdda5f78edb7802a76951509int,
        0xa3700254bc2302023b0ee5b72cfe3fa2c05a935int,
        0x9078e5ccc9ecd85483f472b9278e270a8f9896e1int);
    primality::lemma_square_multiply(0x84f6174410b13b7c641bfb1c0429a24ea8e8db82int,
        0x115aacdae40b5700791int, 0x926d1276e41fae13fdda5f78edb7802a76951509int,
        0x9078e5ccc9ecd85483f472b9278e270a8f9896e1int,
        0x8118fed6ae80bb618d8c65ba5ff317be319aa317int);
    primality::lemma_square(0x84f6174410b13b7c641bfb1c0429a24ea8e8db82int,
        0x22b559b5c816ae00f23int, 0x926d1276e41fae13fdda5f78edb7802a76951509int,
        0x8118fed6ae80bb618d8c65ba5ff317be319aa317int,
        0x6d50d8d30f5abc9b6adc843469484544464de400int);
    primality::lemma_square_multiply(0x84f6174410b13b7c641bfb1c0429a24ea8e8db82int,
        0x456ab36b902d5c01e46int, 0x926d1276e41fae13fdda5f78edb7802a76951509int,
        0x6d50d8d30f5abc9b6adc843469484544464de400int,
        0x5f4943b9999a2e44121b782322eb3d5297d848b2int);
    primality::lemma_square_multiply(0x84f6174410b13b7c641bfb1c0429a24ea8e8db82int,
        0x8ad566d7205ab803c8dint, 0x926d1276e41fae13fdda5f78edb7802a76951509int,
        0x5f4943b9999a2e44121b782322eb3d5297d848b2int,
        0x5a45ef4b7370c26d8053bd60e72518634161a6e2int);
    primality::lemma_square_multiply(0x84f6174410b13b7c641bfb1c0429a24ea8e8db82int,
        0x115aacdae40b5700791bint, 0x926d1276e41fae13fdda5f78edb7802a76951509int,
        0x5a45ef4b7370c26d8053bd60e72518634161a6e2int,
        0x88cabdeb487eb941bb2c0297a5319309e9d7a3b3int);
    primality::lemma_square_multiply(0x84f6174410b13b7c641bfb1c0429a24ea8e8db82int,
        0x22b559b5c816ae00f237int, 0x926d1276e41fae13fdda5f78edb7802a76951509int,
        0x88cabdeb487eb941bb2c0297a5319309e9d7a3b3int,
        0xf5720145afe145e803d074cf36ca409a53bd9dbint);
    primality::lemma_square(0x84f6174410b13b7c641bfb1c0429a24ea8e8db82int,
        0x456ab36b902d5c01e46fint, 0x926d1276e41fae13fdda5f78edb7802a76951509int,
        0xf5720145afe145e803d074cf36ca409a53bd9dbint, 0xdb7ae4158583a120c056020a1db7170304822bcint);
    primality::lemma_square(0x84f6174410b13b7c641bfb1c0429a24ea8e8db82int,
        0x8ad566d7205ab803c8deint, 0x926d1276e41fae13fdda5f78edb7802a76951509int,
        0xdb7ae4158583a120c056020a1db7170304822bcint,
        0x8624c5686a04ec5c792fc617cfb2103340b3b790int);
    primality::lemma_square(0x84f6174410b13b7c641bfb1c0429a24ea8e8db82int,
        0x115aacdae40b5700791bcint, 0x926d1276e41fae13fdda5f78edb7802a76951509int,
        0x8624c5686a04ec5c792fc617cfb2103340b3b790int,
        0x69e11d0dad988cae6957c20b7d6cf32432b187b5int);
    primality::lemma_square_multiply(0x84f6174410b13b7c641bfb1c0429a24ea8e8db82int,
        0x22b559b5c816ae00f2378int, 0x926d1276e41fae13fdda5f78edb7802a76951509int,
        0x69e11d0dad988cae6957c20b7d6cf32432b187b5int,
        0x24745635b5bf15f57251ef1aed40e71f75a53bc3int);
    primality::lemma_square_multiply(0x84f6174410b13b7c641bfb1c0429a24ea8e8db82int,
        0x456ab36b902d5c01e46f1int, 0x926d1276e41fae13fdda5f78edb7802a76951509int,
        0x24745635b5bf15f57251ef1aed40e71f75a53bc3int,
        0x297dd81f6b487668f8fc08d13e65c19f49b30b76int);
    primality::lemma_square_multiply(0x84f6174410b13b7c641bfb1c0429a24ea8e8db82int,
        0x8ad566d7205ab803c8de3int, 0x926d1276e41fae13fdda5f78edb7802a76951509int,
        0x297dd81f6b487668f8fc08d13e65c19f49b30b76int,
        0x4b1912cc7ab91bf64af11d01a581fffb79aba969int);
    primality::lemma_square(0x84f6174410b13b7c641bfb1c0429a24ea8e8db82int,
        0x115aacdae40b5700791bc7int, 0x926d1276e41fae13fdda5f78edb7802a76951509int,
        0x4b1912cc7ab91bf64af11d01a581fffb79aba969int,
        0x654ddc4f25cc539ad3baedf03a95ce415c0a8a89int);
    primality::lemma_square(0x84f6174410b13b7c641bfb1c0429a24ea8e8db82int,
        0x22b559b5c816ae00f2378eint, 0x926d1276e41fae13fdda5f78edb7802a76951509int,
        0x654ddc4f25cc539ad3baedf03a95ce415c0a8a89int,
        0x86e4ea559671a2e86ebecb9166e3cc97815340e9int);
    primality::lemma_square(0x84f6174410b13b7c641bfb1c0429a24ea8e8db82int,
        0x456ab36b902d5c01e46f1cint, 0x926d1276e41fae13fdda5f78edb7802a76951509int,
        0x86e4ea559671a2e86ebecb9166e3cc97815340e9int,
        0x265ea01336e221626fd28adaf62c189f7de388f6int);
    primality::lemma_square(0x84f6174410b13b7c641bfb1c0429a24ea8e8db82int,
        0x8ad566d7205ab803c8de38int, 0x926d1276e41fae13fdda5f78edb7802a76951509int,
        0x265ea01336e221626fd28adaf62c189f7de388f6int,
        0x1d04d7e4e627a177ac8971d07cc6874d38d9e38dint);
    primality::lemma_square_multiply(0x84f6174410b13b7c641bfb1c0429a24ea8e8db82int,
        0x115aacdae40b5700791bc70int, 0x926d1276e41fae13fdda5f78edb7802a76951509int,
        0x1d04d7e4e627a177ac8971d07cc6874d38d9e38dint,
        0x6642f1f2223983a2ad2aa984191d06b0b38b66dfint);
    primality::lemma_square_multiply(0x84f6174410b13b7c641bfb1c0429a24ea8e8db82int,
        0x22b559b5c816ae00f2378e1int, 0x926d1276e41fae13fdda5f78edb7802a76951509int,
        0x6642f1f2223983a2ad2aa984191d06b0b38b66dfint,
        0x1890e284edc28c2d4f2f6310821cac95d208f2a0int);
    primality::lemma_square(0x84f6174410b13b7c641bfb1c0429a24ea8e8db82int,
        0x456ab36b902d5c01e46f1c3int, 0x926d1276e41fae13fdda5f78edb7802a76951509int,
        0x1890e284edc28c2d4f2f6310821cac95d208f2a0int,
        0x7c2dfeed4a5543fbe001361a7d0c28f24f09898eint);
    primality::lemma_square(0x84f6174410b13b7c641bfb1c0429a24ea8e8db82int,
        0x8ad566d7205ab803c8de386int, 0x926d1276e41fae13fdda5f78edb7802a76951509int,
        0x7c2dfeed4a5543fbe001361a7d0c28f24f09898eint,
        0x4ac2800caaa56d90f29c60b340dc7b0e4b266ffcint);
    primality::lemma_square(0x84f6174410b13b7c641bfb1c0429a24ea8e8db82int,
        0x115aacdae40b5700791bc70cint, 0x926d1276e41fae13fdda5f78edb7802a76951509int,
        0x4ac2800caaa56d90f29c60b340dc7b0e4b266ffcint,
        0x1a826642686e354c15e728648a69b663da8857e4int);
    primality::lemma_square_multiply(0x84f6174410b13b7c641bfb1c0429a24ea8e8db82int,
        0x22b559b5c816ae00f2378e18int, 0x926d1276e41fae13fdda5f78edb7802a76951509int,
        0x1a826642686e354c15e728648a69b663da8857e4int,
        0x8642f4d4880a1e936c69b30a4279e7ad4983d672int);
    primality::lemma_square_multiply(0x84f6174410b13b7c641bfb1c0429a24ea8e8db82int,
        0x456ab36b902d5c01e46f1c31int, 0x926d1276e41fae13fdda5f78edb7802a76951509int,
        0x8642f4d4880a1e936c69b30a4279e7ad4983d672int,
        0x1139f245c78773da71443f3efb7a05c9cc8e367aint);
    primality::lemma_square(0x84f6174410b13b7c641bfb1c0429a24ea8e8db82int,
        0x8ad566d7205ab803c8de3863int, 0x926d1276e41fae13fdda5f78edb7802a76951509int,
        0x1139f245c78773da71443f3efb7a05c9cc8e367aint,
        0x696c0d3b5e2d8de4c84ebb2963ab7744ecf82283int);
    primality::lemma_square_multiply(0x84f6174410b13b7c641bfb1c0429a24ea8e8db82int,
        0x115aacdae40b5700791bc70c6int, 0x926d1276e41fae13fdda5f78edb7802a76951509int,
        0x696c0d3b5e2d8de4c84ebb2963ab7744ecf82283int,
        0x58482f77c94d9329f13c74951a2d0f0d4b918e1cint);
    primality::lemma_square_multiply(0x84f6174410b13b7c641bfb1c0429a24ea8e8db82int,
        0x22b559b5c816ae00f2378e18dint, 0x926d1276e41fae13fdda5f78edb7802a76951509int,
        0x58482f77c94d9329f13c74951a2d0f0d4b918e1cint,
        0x8e278a347fc1c6555055512e2d63b467e101934aint);
    primality::lemma_square_multiply(0x84f6174410b13b7c641bfb1c0429a24ea8e8db82int,
        0x456ab36b902d5c01e46f1c31bint, 0x926d1276e41fae13fdda5f78edb7802a76951509int,
        0x8e278a347fc1c6555055512e2d63b467e101934aint,
        0x41bd6250464be1c6ded733ea2d39ec16b2ce85b5int);
    primality::lemma_square_multiply(0x84f6174410b13b7c641bfb1c0429a24ea8e8db82int,
        0x8ad566d7205ab803c8de38637int, 0x926d1276e41fae13fdda5f78edb7802a76951509int,
        0x41bd6250464be1c6ded733ea2d39ec16b2ce85b5int,
        0x5674e05f7ba6e986c2d0f41a837dd38085e3bf50int);
    primality::lemma_square_multiply(0x84f6174410b13b7c641bfb1c0429a24ea8e8db82int,
        0x115aacdae40b5700791bc70c6fint, 0x926d1276e41fae13fdda5f78edb7802a76951509int,
        0x5674e05f7ba6e986c2d0f41a837dd38085e3bf50int,
        0x3425d3afd34e2b1e7855fb20634a0d10c7673829int);
    primality::lemma_square(0x84f6174410b13b7c641bfb1c0429a24ea8e8db82int,
        0x22b559b5c816ae00f2378e18dfint, 0x926d1276e41fae13fdda5f78edb7802a76951509int,
        0x3425d3afd34e2b1e7855fb20634a0d10c7673829int,
        0x1f65e8c3862098ee592f5794b97d0dd8a5979e82int);
    primality::lemma_square(0x84f6174410b13b7c641bfb1c0429a24ea8e8db82int,
        0x456ab36b902d5c01e46f1c31beint, 0x926d1276e41fae13fdda5f78edb7802a76951509int,
        0x1f65e8c3862098ee592f5794b97d0dd8a5979e82int,
        0x7ae656ce479a7958c5f52e98e34e462463df4e85int);
    primality::lemma_square_multiply(0x84f6174410b13b7c641bfb1c0429a24ea8e8db82int,
        0x8ad566d7205ab803c8de38637cint, 0x926d1276e41fae13fdda5f78edb7802a76951509int,
        0x7ae656ce479a7958c5f52e98e34e462463df4e85int,
        0x3684d48d5c8de9512d41b4a60a981f83ebe66f14int);
    primality::lemma_square_multiply(0x84f6174410b13b7c641bfb1c0429a24ea8e8db82int,
        0x115aacdae40b5700791bc70c6f9int, 0x926d1276e41fae13fdda5f78edb7802a76951509int,
        0x3684d48d5c8de9512d41b4a60a981f83ebe66f14int,
        0x575e6efe6475727871c4d01bc0fc254b559e8fb1int);
    primality::lemma_square_multiply(0x84f6174410b13b7c641bfb1c0429a24ea8e8db82int,
        0x22b559b5c816ae00f2378e18df3int, 0x926d1276e41fae13fdda5f78edb7802a76951509int,
        0x575e6efe6475727871c4d01bc0fc254b559e8fb1int,
        0xfb41bf36754fa2a3cebd9a80d5348d28203f671int);
    primality::lemma_square(0x84f6174410b13b7c641bfb1c0429a24ea8e8db82int,
        0x456ab36b902d5c01e46f1c31be7int, 0x926d1276e41fae13fdda5f78edb7802a76951509int,
        0xfb41bf36754fa2a3cebd9a80d5348d28203f671int,
        0x229f02d84f1d9e32883d5e8bc66209d14df74960int);
    primality::lemma_square(0x84f6174410b13b7c641bfb1c0429a24ea8e8db82int,
        0x8ad566d7205ab803c8de38637ceint, 0x926d1276e41fae13fdda5f78edb7802a76951509int,
        0x229f02d84f1d9e32883d5e8bc66209d14df74960int,
        0x6d587af760960456b4a583938ee75d5abc652f41int);
    primality::lemma_square(0x84f6174410b13b7c641bfb1c0429a24ea8e8db82int,
        0x115aacdae40b5700791bc70c6f9cint, 0x926d1276e41fae13fdda5f78edb7802a76951509int,
        0x6d587af760960456b4a583938ee75d5abc652f41int,
        0x7e4b05a6f84682f6da1e2781e486797306518d60int);
    primality::lemma_square_multiply(0x84f6174410b13b7c641bfb1c0429a24ea8e8db82int,
        0x22b559b5c816ae00f2378e18df38int, 0x926d1276e41fae13fdda5f78edb7802a76951509int,
        0x7e4b05a6f84682f6da1e2781e486797306518d60int,
        0x175c855187c468982d05a0c275bb31205c5fd233int);
    primality::lemma_square_multiply(0x84f6174410b13b7c641bfb1c0429a24ea8e8db82int,
        0x456ab36b902d5c01e46f1c31be71int, 0x926d1276e41fae13fdda5f78edb7802a76951509int,
        0x175c855187c468982d05a0c275bb31205c5fd233int,
        0x4189f9ab02a482b112b62c1887bb1dfbea488ea7int);
    primality::lemma_square(0x84f6174410b13b7c641bfb1c0429a24ea8e8db82int,
        0x8ad566d7205ab803c8de38637ce3int, 0x926d1276e41fae13fdda5f78edb7802a76951509int,
        0x4189f9ab02a482b112b62c1887bb1dfbea488ea7int,
        0x18d45a1731129f65ba1440806cb501a42be5026dint);
    primality::lemma_square(0x84f6174410b13b7c641bfb1c0429a24ea8e8db82int,
        0x115aacdae40b5700791bc70c6f9c6int, 0x926d1276e41fae13fdda5f78edb7802a76951509int,
        0x18d45a1731129f65ba1440806cb501a42be5026dint,
        0x514e37c031f5040e393efd9d1a716514884bb945int);
    primality::lemma_square(0x84f6174410b13b7c641bfb1c0429a24ea8e8db82int,
        0x22b559b5c816ae00f2378e18df38cint, 0x926d1276e41fae13fdda5f78edb7802a76951509int,
        0x514e37c031f5040e393efd9d1a716514884bb945int,
        0x5d4252bae27cb4ff9667ecfb110df8598ae7cf09int);
    primality::lemma_square_multiply(0x84f6174410b13b7c641bfb1c0429a24ea8e8db82int,
        0x456ab36b902d5c01e46f1c31be718int, 0x926d1276e41fae13fdda5f78edb7802a76951509int,
        0x5d4252bae27cb4ff9667ecfb110df8598ae7cf09int,
        0x112691762a072bccdfa9630a0c28c8654e2072b0int);
    primality::lemma_square(0x84f6174410b13b7c641bfb1c0429a24ea8e8db82int,
        0x8ad566d7205ab803c8de38637ce31int, 0x926d1276e41fae13fdda5f78edb7802a76951509int,
        0x112691762a072bccdfa9630a0c28c8654e2072b0int,
        0x74d6708a2478355196b1ccf358e1eee8777f1d2dint);
    primality::lemma_square_multiply(0x84f6174410b13b7c641bfb1c0429a24ea8e8db82int,
        0x115aacdae40b5700791bc70c6f9c62int, 0x926d1276e41fae13fdda5f78edb7802a76951509int,
        0x74d6708a2478355196b1ccf358e1eee8777f1d2dint,
        0x5376551079549132421e9a8de5c55711f77a8231int);
    primality::lemma_square(0x84f6174410b13b7c641bfb1c0429a24ea8e8db82int,
        0x22b559b5c816ae00f2378e18df38c5int, 0x926d1276e41fae13fdda5f78edb7802a76951509int,
        0x5376551079549132421e9a8de5c55711f77a8231int,
        0x8169190373e0e7b8c684a646eb7314a628e25f3bint);
    primality::lemma_square_multiply(0x84f6174410b13b7c641bfb1c0429a24ea8e8db82int,
        0x456ab36b902d5c01e46f1c31be718aint, 0x926d1276e41fae13fdda5f78edb7802a76951509int,
        0x8169190373e0e7b8c684a646eb7314a628e25f3bint,
        0x42c1f61134c7a16736e4655ef35ab22d1b48a987int);
    primality::lemma_square(0x84f6174410b13b7c641bfb1c0429a24ea8e8db82int,
        0x8ad566d7205ab803c8de38637ce315int, 0x926d1276e41fae13fdda5f78edb7802a76951509int,
        0x42c1f61134c7a16736e4655ef35ab22d1b48a987int,
        0x6612916104a493450a084aedbd746b56a189e009int);
    primality::lemma_square(0x84f6174410b13b7c641bfb1c0429a24ea8e8db82int,
        0x115aacdae40b5700791bc70c6f9c62aint, 0x926d1276e41fae13fdda5f78edb7802a76951509int,
        0x6612916104a493450a084aedbd746b56a189e009int,
        0x45a2fb0b7982a884c9039dc4e90cbf7cfd7748f6int);
    primality::lemma_square(0x84f6174410b13b7c641bfb1c0429a24ea8e8db82int,
        0x22b559b5c816ae00f2378e18df38c54int, 0x926d1276e41fae13fdda5f78edb7802a76951509int,
        0x45a2fb0b7982a884c9039dc4e90cbf7cfd7748f6int,
        0x2961fbd297ad3d84fa6aef7ab92519e9158ffa82int);
    primality::lemma_square(0x84f6174410b13b7c641bfb1c0429a24ea8e8db82int,
        0x456ab36b902d5c01e46f1c31be718a8int, 0x926d1276e41fae13fdda5f78edb7802a76951509int,
        0x2961fbd297ad3d84fa6aef7ab92519e9158ffa82int,
        0x53802be4b224866dfba1437f06f18b44889459c7int);
    primality::lemma_square(0x84f6174410b13b7c641bfb1c0429a24ea8e8db82int,
        0x8ad566d7205ab803c8de38637ce3150int, 0x926d1276e41fae13fdda5f78edb7802a76951509int,
        0x53802be4b224866dfba1437f06f18b44889459c7int,
        0x3ca9352df8b5a46a909ef7dd3fb1e9bd2247f331int);
    primality::lemma_square_multiply(0x84f6174410b13b7c641bfb1c0429a24ea8e8db82int,
        0x115aacdae40b5700791bc70c6f9c62a0int, 0x926d1276e41fae13fdda5f78edb7802a76951509int,
        0x3ca9352df8b5a46a909ef7dd3fb1e9bd2247f331int,
        0x6fd948ba6c1c16b15d1e89ee3fd14598309872bdint);
    primality::lemma_square(0x84f6174410b13b7c641bfb1c0429a24ea8e8db82int,
        0x22b559b5c816ae00f2378e18df38c541int, 0x926d1276e41fae13fdda5f78edb7802a76951509int,
        0x6fd948ba6c1c16b15d1e89ee3fd14598309872bdint,
        0x5c4e9399ada21e5fd1df0edf97562a80895cf883int);
    primality::lemma_square(0x84f6174410b13b7c641bfb1c0429a24ea8e8db82int,
        0x456ab36b902d5c01e46f1c31be718a82int, 0x926d1276e41fae13fdda5f78edb7802a76951509int,
        0x5c4e9399ada21e5fd1df0edf97562a80895cf883int,
        0x51f456615810c05070f22065efc0b0a6a6cbb09fint);
    primality::lemma_square(0x84f6174410b13b7c641bfb1c0429a24ea8e8db82int,
        0x8ad566d7205ab803c8de38637ce31504int, 0x926d1276e41fae13fdda5f78edb7802a76951509int,
        0x51f456615810c05070f22065efc0b0a6a6cbb09fint,
        0x80aa95639e230fa3df7f7bbd3ae65a9d395a4fdint);
}

proof fn prime_160_bits_241_power_1_3()
    requires
        primality::power_is(0x84f6174410b13b7c641bfb1c0429a24ea8e8db82int,
            0x115aacdae40b5700791bc70c6f9c62a08int, 0x926d1276e41fae13fdda5f78edb7802a76951509int,
            0x80aa95639e230fa3df7f7bbd3ae65a9d395a4fdint),
    ensures
        primality::power_is(0x84f6174410b13b7c641bfb1c0429a24ea8e8db82int,
            0x22b559b5c816ae00f2378e18df38c5410ed597int,
            0x926d1276e41fae13fdda5f78edb7802a76951509int, 1),
{
    primality::lemma_square(0x84f6174410b13b7c641bfb1c0429a24ea8e8db82int,
        0x115aacdae40b5700791bc70c6f9c62a08int, 0x926d1276e41fae13fdda5f78edb7802a76951509int,
        0x80aa95639e230fa3df7f7bbd3ae65a9d395a4fdint,
        0x4789190540db6b7c4a479422c377b8823b81a660int);
    primality::lemma_square_multiply(0x84f6174410b13b7c641bfb1c0429a24ea8e8db82int,
        0x22b559b5c816ae00f2378e18df38c5410int, 0x926d1276e41fae13fdda5f78edb7802a76951509int,
        0x4789190540db6b7c4a479422c377b8823b81a660int,
        0x28d848cc37aad6b1c97a538b67ef037be60b2916int);
    primality::lemma_square_multiply(0x84f6174410b13b7c641bfb1c0429a24ea8e8db82int,
        0x456ab36b902d5c01e46f1c31be718a821int, 0x926d1276e41fae13fdda5f78edb7802a76951509int,
        0x28d848cc37aad6b1c97a538b67ef037be60b2916int,
        0x200cc452b37ef752204f712cce8ac213fdeea556int);
    primality::lemma_square_multiply(0x84f6174410b13b7c641bfb1c0429a24ea8e8db82int,
        0x8ad566d7205ab803c8de38637ce315043int, 0x926d1276e41fae13fdda5f78edb7802a76951509int,
        0x200cc452b37ef752204f712cce8ac213fdeea556int,
        0x6a1f7722bf1424ff76bb746d352614d8e88c37b9int);
    primality::lemma_square(0x84f6174410b13b7c641bfb1c0429a24ea8e8db82int,
        0x115aacdae40b5700791bc70c6f9c62a087int, 0x926d1276e41fae13fdda5f78edb7802a76951509int,
        0x6a1f7722bf1424ff76bb746d352614d8e88c37b9int,
        0x707d2f85d5ffa65fe7b626de4e0b515731c2171int);
    primality::lemma_square_multiply(0x84f6174410b13b7c641bfb1c0429a24ea8e8db82int,
        0x22b559b5c816ae00f2378e18df38c5410eint, 0x926d1276e41fae13fdda5f78edb7802a76951509int,
        0x707d2f85d5ffa65fe7b626de4e0b515731c2171int,
        0x5da824ad16c3dbbbf609e2aba59b267ce14894c3int);
    primality::lemma_square_multiply(0x84f6174410b13b7c641bfb1c0429a24ea8e8db82int,
        0x456ab36b902d5c01e46f1c31be718a821dint, 0x926d1276e41fae13fdda5f78edb7802a76951509int,
        0x5da824ad16c3dbbbf609e2aba59b267ce14894c3int,
        0x7b4d28fba277d724b0a9071a60ba724506ce830aint);
    primality::lemma_square(0x84f6174410b13b7c641bfb1c0429a24ea8e8db82int,
        0x8ad566d7205ab803c8de38637ce315043bint, 0x926d1276e41fae13fdda5f78edb7802a76951509int,
        0x7b4d28fba277d724b0a9071a60ba724506ce830aint,
        0xf8fc99a21adaba3e4a036faaa7517f79196d1e4int);
    primality::lemma_square_multiply(0x84f6174410b13b7c641bfb1c0429a24ea8e8db82int,
        0x115aacdae40b5700791bc70c6f9c62a0876int, 0x926d1276e41fae13fdda5f78edb7802a76951509int,
        0xf8fc99a21adaba3e4a036faaa7517f79196d1e4int,
        0x1ee7c6bdf5a8d6a5dd470d2240aab53d2f7beaafint);
    primality::lemma_square(0x84f6174410b13b7c641bfb1c0429a24ea8e8db82int,
        0x22b559b5c816ae00f2378e18df38c5410edint, 0x926d1276e41fae13fdda5f78edb7802a76951509int,
        0x1ee7c6bdf5a8d6a5dd470d2240aab53d2f7beaafint,
        0x4899866e677c750505e5df32f4868884d949acc4int);
    primality::lemma_square_multiply(0x84f6174410b13b7c641bfb1c0429a24ea8e8db82int,
        0x456ab36b902d5c01e46f1c31be718a821daint, 0x926d1276e41fae13fdda5f78edb7802a76951509int,
        0x4899866e677c750505e5df32f4868884d949acc4int,
        0x34eef8bf46de469c3289a0ee28f5a4445040fc01int);
    primality::lemma_square(0x84f6174410b13b7c641bfb1c0429a24ea8e8db82int,
        0x8ad566d7205ab803c8de38637ce315043b5int, 0x926d1276e41fae13fdda5f78edb7802a76951509int,
        0x34eef8bf46de469c3289a0ee28f5a4445040fc01int, 0xf7dd14ba51f50a3c0bc351c88ee243c45be388int);
    primality::lemma_square_multiply(0x84f6174410b13b7c641bfb1c0429a24ea8e8db82int,
        0x115aacdae40b5700791bc70c6f9c62a0876aint, 0x926d1276e41fae13fdda5f78edb7802a76951509int,
        0xf7dd14ba51f50a3c0bc351c88ee243c45be388int, 0x5e717b4ee5578dc772c5014336d95eed13f055caint);
    primality::lemma_square_multiply(0x84f6174410b13b7c641bfb1c0429a24ea8e8db82int,
        0x22b559b5c816ae00f2378e18df38c5410ed5int, 0x926d1276e41fae13fdda5f78edb7802a76951509int,
        0x5e717b4ee5578dc772c5014336d95eed13f055caint,
        0x66892f91b32341966dc147a93e7205b6283e8fd3int);
    primality::lemma_square(0x84f6174410b13b7c641bfb1c0429a24ea8e8db82int,
        0x456ab36b902d5c01e46f1c31be718a821dabint, 0x926d1276e41fae13fdda5f78edb7802a76951509int,
        0x66892f91b32341966dc147a93e7205b6283e8fd3int,
        0x159d61711fa013eda85b461250c7c208e484f80aint);
    primality::lemma_square(0x84f6174410b13b7c641bfb1c0429a24ea8e8db82int,
        0x8ad566d7205ab803c8de38637ce315043b56int, 0x926d1276e41fae13fdda5f78edb7802a76951509int,
        0x159d61711fa013eda85b461250c7c208e484f80aint,
        0xa6e63c376fd96029af2accbb609fa7e0093775fint);
    primality::lemma_square_multiply(0x84f6174410b13b7c641bfb1c0429a24ea8e8db82int,
        0x115aacdae40b5700791bc70c6f9c62a0876acint, 0x926d1276e41fae13fdda5f78edb7802a76951509int,
        0xa6e63c376fd96029af2accbb609fa7e0093775fint,
        0x35ce0d92b6feb12125acbf9def4b23050b73468aint);
    primality::lemma_square(0x84f6174410b13b7c641bfb1c0429a24ea8e8db82int,
        0x22b559b5c816ae00f2378e18df38c5410ed59int, 0x926d1276e41fae13fdda5f78edb7802a76951509int,
        0x35ce0d92b6feb12125acbf9def4b23050b73468aint,
        0x8601711f4e2bbf9f9be50a04a025b4a32c47d696int);
    primality::lemma_square_multiply(0x84f6174410b13b7c641bfb1c0429a24ea8e8db82int,
        0x456ab36b902d5c01e46f1c31be718a821dab2int, 0x926d1276e41fae13fdda5f78edb7802a76951509int,
        0x8601711f4e2bbf9f9be50a04a025b4a32c47d696int,
        0x22eb4c53c092d37cd912820dbd3ae28a55e81a1cint);
    primality::lemma_square_multiply(0x84f6174410b13b7c641bfb1c0429a24ea8e8db82int,
        0x8ad566d7205ab803c8de38637ce315043b565int, 0x926d1276e41fae13fdda5f78edb7802a76951509int,
        0x22eb4c53c092d37cd912820dbd3ae28a55e81a1cint,
        0x6a22a91106d82924f6bf7d635238bbcff02667aeint);
    primality::lemma_square_multiply(0x84f6174410b13b7c641bfb1c0429a24ea8e8db82int,
        0x115aacdae40b5700791bc70c6f9c62a0876acbint, 0x926d1276e41fae13fdda5f78edb7802a76951509int,
        0x6a22a91106d82924f6bf7d635238bbcff02667aeint, 1);
}

proof fn lemma_prime_160_bits_241()
    ensures
        primes::is_prime(0x926d1276e41fae13fdda5f78edb7802a76951509int),
{
    lemma_prime_150_bits_303();
    prime_160_bits_241_power_1_1();
    prime_160_bits_241_power_1_2();
    prime_160_bits_241_power_1_3();
    primality::lemma_factors(0x926d1276e41fae13fdda5f78edb7802a76951509int,
        0x22b559b5c816ae00f2378e18df38c5410ed597int, 0x84f6174410b13b7c641bfb1c0429a24ea8e8db82int,
        0x915a3c97e1f064769fa3c1c13714e947fde75b95int);
    primality::lemma_prime(0x926d1276e41fae13fdda5f78edb7802a76951509int,
        0x22b559b5c816ae00f2378e18df38c5410ed597int);
}

proof fn field_modulus_prime_power_1_1()
    ensures
        primality::power_is(0x6e2de1e253b630ab90fb6c14c9913e3f79353ced1be9c68ed42e7ee18b96074eint,
            0x124da24edc83f5c27int, field_modulus(),
            0x2f1a6114f5dc8ded73082c4672be9c5f8aca94ab5bc3231c93b413683a5f4a37int),
{
    primality::lemma_first_power(0x6e2de1e253b630ab90fb6c14c9913e3f79353ced1be9c68ed42e7ee18b96074eint,
        field_modulus());
    primality::lemma_square(0x6e2de1e253b630ab90fb6c14c9913e3f79353ced1be9c68ed42e7ee18b96074eint,
        1, field_modulus(), 0x6e2de1e253b630ab90fb6c14c9913e3f79353ced1be9c68ed42e7ee18b96074eint,
        0xcddc511f363c3bb8116b46458a69d7a0274a503b440caa7d25c8bd87ae161f53int);
    primality::lemma_square(0x6e2de1e253b630ab90fb6c14c9913e3f79353ced1be9c68ed42e7ee18b96074eint,
        2, field_modulus(), 0xcddc511f363c3bb8116b46458a69d7a0274a503b440caa7d25c8bd87ae161f53int,
        0xf79fde8fbf89aae855a0596c22b0b85f5bcd6d8f9b65645e3aef7c4ee11869e5int);
    primality::lemma_square_multiply(0x6e2de1e253b630ab90fb6c14c9913e3f79353ced1be9c68ed42e7ee18b96074eint,
        4, field_modulus(), 0xf79fde8fbf89aae855a0596c22b0b85f5bcd6d8f9b65645e3aef7c4ee11869e5int,
        0x2424054e17717adb6c1cdaedeb038be8a41730d82100f79025d74a6d2fc0a50dint);
    primality::lemma_square(0x6e2de1e253b630ab90fb6c14c9913e3f79353ced1be9c68ed42e7ee18b96074eint,
        9, field_modulus(), 0x2424054e17717adb6c1cdaedeb038be8a41730d82100f79025d74a6d2fc0a50dint,
        0x879bb72ae39322e9f2c313257d2b5fb5164c8c9c6532d0d59b48e3fff34cf680int);
    primality::lemma_square(0x6e2de1e253b630ab90fb6c14c9913e3f79353ced1be9c68ed42e7ee18b96074eint,
        18, field_modulus(), 0x879bb72ae39322e9f2c313257d2b5fb5164c8c9c6532d0d59b48e3fff34cf680int,
        0xdc4c84ad702a12f7d6776a29a083b34a51ee48870c3f49e1130ddcb2c7f9f5e3int);
    primality::lemma_square_multiply(0x6e2de1e253b630ab90fb6c14c9913e3f79353ced1be9c68ed42e7ee18b96074eint,
        36, field_modulus(), 0xdc4c84ad702a12f7d6776a29a083b34a51ee48870c3f49e1130ddcb2c7f9f5e3int,
        0xcca2c3e3e84998a223ab8395c3faa652766f97b865db3ffe07d5a5c2d569ef1eint);
    primality::lemma_square(0x6e2de1e253b630ab90fb6c14c9913e3f79353ced1be9c68ed42e7ee18b96074eint,
        73, field_modulus(), 0xcca2c3e3e84998a223ab8395c3faa652766f97b865db3ffe07d5a5c2d569ef1eint,
        0x4946130ffc61cddf804f4e56aec674a27bb4d0ae18dfd60af2870ed09e9e7f29int);
    primality::lemma_square(0x6e2de1e253b630ab90fb6c14c9913e3f79353ced1be9c68ed42e7ee18b96074eint,
        146, field_modulus(), 0x4946130ffc61cddf804f4e56aec674a27bb4d0ae18dfd60af2870ed09e9e7f29int,
        0x995ff5dd604f3f3d47db2b4b08b5583a68e2a6c39a99b286cf52cfd6bb16441bint);
    primality::lemma_square_multiply(0x6e2de1e253b630ab90fb6c14c9913e3f79353ced1be9c68ed42e7ee18b96074eint,
        292, field_modulus(), 0x995ff5dd604f3f3d47db2b4b08b5583a68e2a6c39a99b286cf52cfd6bb16441bint,
        0xdc738799e5a80a6e1026d7c1de48f0f1108146a39029b6fb3d91381470501c53int);
    primality::lemma_square_multiply(0x6e2de1e253b630ab90fb6c14c9913e3f79353ced1be9c68ed42e7ee18b96074eint,
        585, field_modulus(), 0xdc738799e5a80a6e1026d7c1de48f0f1108146a39029b6fb3d91381470501c53int,
        0x4a77d791d7232e39b7d138dd4a507a02a39eea337e8ac6e6cb8a13b6217ea7e8int);
    primality::lemma_square(0x6e2de1e253b630ab90fb6c14c9913e3f79353ced1be9c68ed42e7ee18b96074eint,
        1171, field_modulus(),
        0x4a77d791d7232e39b7d138dd4a507a02a39eea337e8ac6e6cb8a13b6217ea7e8int,
        0xc756eca9e9297003f1c395e1dc4812cbe6855c9d3b050a71b7295dbc62903a37int);
    primality::lemma_square_multiply(0x6e2de1e253b630ab90fb6c14c9913e3f79353ced1be9c68ed42e7ee18b96074eint,
        2342, field_modulus(),
        0xc756eca9e9297003f1c395e1dc4812cbe6855c9d3b050a71b7295dbc62903a37int,
        0xa2af4fd7330a952d6c745ae4208e4c44776cb1ad8856c122d19b29594b5c3845int);
    primality::lemma_square_multiply(0x6e2de1e253b630ab90fb6c14c9913e3f79353ced1be9c68ed42e7ee18b96074eint,
        4685, field_modulus(),
        0xa2af4fd7330a952d6c745ae4208e4c44776cb1ad8856c122d19b29594b5c3845int,
        0xacead5859071a32c4d5df713641d54fa2b7e5fb53c437683aabafea7773bcd34int);
    primality::lemma_square(0x6e2de1e253b630ab90fb6c14c9913e3f79353ced1be9c68ed42e7ee18b96074eint,
        9371, field_modulus(),
        0xacead5859071a32c4d5df713641d54fa2b7e5fb53c437683aabafea7773bcd34int,
        0x8e8005e3af3431299cbf16c138022892c11d33650add48727fe054f0146f014aint);
    primality::lemma_square_multiply(0x6e2de1e253b630ab90fb6c14c9913e3f79353ced1be9c68ed42e7ee18b96074eint,
        0x4936, field_modulus(),
        0x8e8005e3af3431299cbf16c138022892c11d33650add48727fe054f0146f014aint,
        0x915341fb411034e524984ea48a0dfeeef468d1d04acd46efa44bda1cb2772594int);
    primality::lemma_square(0x6e2de1e253b630ab90fb6c14c9913e3f79353ced1be9c68ed42e7ee18b96074eint,
        0x926d, field_modulus(),
        0x915341fb411034e524984ea48a0dfeeef468d1d04acd46efa44bda1cb2772594int,
        0x89111d07d11cd7e2efead86c984b6ad8d2397c8a99ed6f350ff3c60e045d4798int);
    primality::lemma_square(0x6e2de1e253b630ab90fb6c14c9913e3f79353ced1be9c68ed42e7ee18b96074eint,
        0x124da, field_modulus(),
        0x89111d07d11cd7e2efead86c984b6ad8d2397c8a99ed6f350ff3c60e045d4798int,
        0x176c1613fbbbc6718d1d70a477c9310966b694db3ffef5a2dcdb1872c8ff09f5int);
    primality::lemma_square(0x6e2de1e253b630ab90fb6c14c9913e3f79353ced1be9c68ed42e7ee18b96074eint,
        0x249b4, field_modulus(),
        0x176c1613fbbbc6718d1d70a477c9310966b694db3ffef5a2dcdb1872c8ff09f5int,
        0x4c8f69c5f11fdeb89dba5979b3d8093bea95b215cdd207b737b5fbe903a30b93int);
    primality::lemma_square_multiply(0x6e2de1e253b630ab90fb6c14c9913e3f79353ced1be9c68ed42e7ee18b96074eint,
        0x49368, field_modulus(),
        0x4c8f69c5f11fdeb89dba5979b3d8093bea95b215cdd207b737b5fbe903a30b93int,
        0xae09b3f24bc8108c473d4b812170461c7804d36bf7583a754aa902029fcb6bfbint);
    primality::lemma_square(0x6e2de1e253b630ab90fb6c14c9913e3f79353ced1be9c68ed42e7ee18b96074eint,
        0x926d1, field_modulus(),
        0xae09b3f24bc8108c473d4b812170461c7804d36bf7583a754aa902029fcb6bfbint,
        0xd0b7aaac9dfa38d28c33f25f099ddadf9c4fce0e0060288a0c52494d08cce68eint);
    primality::lemma_square(0x6e2de1e253b630ab90fb6c14c9913e3f79353ced1be9c68ed42e7ee18b96074eint,
        0x124da2, field_modulus(),
        0xd0b7aaac9dfa38d28c33f25f099ddadf9c4fce0e0060288a0c52494d08cce68eint,
        0xbea97a7bf5cfa9402817ae32191605f7a26d5056f5af5b11ccd1b0c86a2381fbint);
    primality::lemma_square_multiply(0x6e2de1e253b630ab90fb6c14c9913e3f79353ced1be9c68ed42e7ee18b96074eint,
        0x249b44, field_modulus(),
        0xbea97a7bf5cfa9402817ae32191605f7a26d5056f5af5b11ccd1b0c86a2381fbint,
        0x84408e080654661d5b71a4010d773258e91e0775ef1b23c6a5c652b4ff73d604int);
    primality::lemma_square(0x6e2de1e253b630ab90fb6c14c9913e3f79353ced1be9c68ed42e7ee18b96074eint,
        0x493689, field_modulus(),
        0x84408e080654661d5b71a4010d773258e91e0775ef1b23c6a5c652b4ff73d604int,
        0x4f94b3786b8db5a18c1040363dc69878b40e98cd0370964fdf0c20aa938a9404int);
    primality::lemma_square(0x6e2de1e253b630ab90fb6c14c9913e3f79353ced1be9c68ed42e7ee18b96074eint,
        0x926d12, field_modulus(),
        0x4f94b3786b8db5a18c1040363dc69878b40e98cd0370964fdf0c20aa938a9404int,
        0xbc835037487eaa230f7bdc9923697913f8b312002f78ab1860f5afca571f5878int);
    primality::lemma_square_multiply(0x6e2de1e253b630ab90fb6c14c9913e3f79353ced1be9c68ed42e7ee18b96074eint,
        0x124da24, field_modulus(),
        0xbc835037487eaa230f7bdc9923697913f8b312002f78ab1860f5afca571f5878int,
        0x12e5b1dbcbc8b52ed76225e1685307004a8e000cd5cc98d51cccd75b60feb397int);
    primality::lemma_square_multiply(0x6e2de1e253b630ab90fb6c14c9913e3f79353ced1be9c68ed42e7ee18b96074eint,
        0x249b449, field_modulus(),
        0x12e5b1dbcbc8b52ed76225e1685307004a8e000cd5cc98d51cccd75b60feb397int,
        0x1ad84f481a0014d03f7e84224e99a64d240058618d72ebe8decbc8bb2930ae98int);
    primality::lemma_square_multiply(0x6e2de1e253b630ab90fb6c14c9913e3f79353ced1be9c68ed42e7ee18b96074eint,
        0x4936893, field_modulus(),
        0x1ad84f481a0014d03f7e84224e99a64d240058618d72ebe8decbc8bb2930ae98int,
        0x7724127d6951a3970ec0b2c8a78eee01425470f049fcd69788439c3905a4f2c7int);
    primality::lemma_square(0x6e2de1e253b630ab90fb6c14c9913e3f79353ced1be9c68ed42e7ee18b96074eint,
        0x926d127, field_modulus(),
        0x7724127d6951a3970ec0b2c8a78eee01425470f049fcd69788439c3905a4f2c7int,
        0x21a4af4fcf0deab03648f938a648283f195da14ec655d8ed351c18272a3c5bdfint);
    primality::lemma_square_multiply(0x6e2de1e253b630ab90fb6c14c9913e3f79353ced1be9c68ed42e7ee18b96074eint,
        0x124da24e, field_modulus(),
        0x21a4af4fcf0deab03648f938a648283f195da14ec655d8ed351c18272a3c5bdfint,
        0xca7e627504f29ff3d561851fd5a1326f48f39586baacced4ac7d2c7e855b0846int);
    primality::lemma_square_multiply(0x6e2de1e253b630ab90fb6c14c9913e3f79353ced1be9c68ed42e7ee18b96074eint,
        0x249b449d, field_modulus(),
        0xca7e627504f29ff3d561851fd5a1326f48f39586baacced4ac7d2c7e855b0846int,
        0x36438d9c8dd2a52f131fa8a00314994af7f4bac63fb6251da846652c8cb29875int);
    primality::lemma_square(0x6e2de1e253b630ab90fb6c14c9913e3f79353ced1be9c68ed42e7ee18b96074eint,
        0x4936893b, field_modulus(),
        0x36438d9c8dd2a52f131fa8a00314994af7f4bac63fb6251da846652c8cb29875int,
        0x158273403d49ef2f1fa172df7d6c7e0694a2faffd0b7f4dfeec95be0c4e6de75int);
    primality::lemma_square_multiply(0x6e2de1e253b630ab90fb6c14c9913e3f79353ced1be9c68ed42e7ee18b96074eint,
        0x926d1276, field_modulus(),
        0x158273403d49ef2f1fa172df7d6c7e0694a2faffd0b7f4dfeec95be0c4e6de75int,
        0xa51ab19a5a81de748c16854c8bc97a1f1e1f01bb58d5bf9cc0a4a71ef02eff46int);
    primality::lemma_square_multiply(0x6e2de1e253b630ab90fb6c14c9913e3f79353ced1be9c68ed42e7ee18b96074eint,
        0x124da24ed, field_modulus(),
        0xa51ab19a5a81de748c16854c8bc97a1f1e1f01bb58d5bf9cc0a4a71ef02eff46int,
        0x94de782355901fc6ad2c89bba0d4bfdf585e2390e93f1054b3443af086a6ee8eint);
    primality::lemma_square_multiply(0x6e2de1e253b630ab90fb6c14c9913e3f79353ced1be9c68ed42e7ee18b96074eint,
        0x249b449db, field_modulus(),
        0x94de782355901fc6ad2c89bba0d4bfdf585e2390e93f1054b3443af086a6ee8eint,
        0x80334f77ab904f3f6b597eb98a469e87cec4aee39b3c074652b34cc134d64ac3int);
    primality::lemma_square(0x6e2de1e253b630ab90fb6c14c9913e3f79353ced1be9c68ed42e7ee18b96074eint,
        0x4936893b7, field_modulus(),
        0x80334f77ab904f3f6b597eb98a469e87cec4aee39b3c074652b34cc134d64ac3int,
        0xb05023910c224ab5413888d39192a77719ac4c6be1b938ae745aed3cbddb4e95int);
    primality::lemma_square(0x6e2de1e253b630ab90fb6c14c9913e3f79353ced1be9c68ed42e7ee18b96074eint,
        0x926d1276e, field_modulus(),
        0xb05023910c224ab5413888d39192a77719ac4c6be1b938ae745aed3cbddb4e95int,
        0x37e823a2e574044019fd1a9abd92a2e09b9dcb74c8d72339febf3eae7ccf9622int);
    primality::lemma_square_multiply(0x6e2de1e253b630ab90fb6c14c9913e3f79353ced1be9c68ed42e7ee18b96074eint,
        0x124da24edc, field_modulus(),
        0x37e823a2e574044019fd1a9abd92a2e09b9dcb74c8d72339febf3eae7ccf9622int,
        0x207db5725ffc0e7944f7a9b0f3f5810f452fe454c62184794aba9eddc48687c3int);
    primality::lemma_square(0x6e2de1e253b630ab90fb6c14c9913e3f79353ced1be9c68ed42e7ee18b96074eint,
        0x249b449db9, field_modulus(),
        0x207db5725ffc0e7944f7a9b0f3f5810f452fe454c62184794aba9eddc48687c3int,
        0x647682e233756a0af1116b35ef90356423bd0ac525f0ecb6aa27e20874104227int);
    primality::lemma_square(0x6e2de1e253b630ab90fb6c14c9913e3f79353ced1be9c68ed42e7ee18b96074eint,
        0x4936893b72, field_modulus(),
        0x647682e233756a0af1116b35ef90356423bd0ac525f0ecb6aa27e20874104227int,
        0xe2f8935d905b8ee0c26ec9cd043a2e39a508d47531e110d90b1783dfbcc10d7int);
    primality::lemma_square(0x6e2de1e253b630ab90fb6c14c9913e3f79353ced1be9c68ed42e7ee18b96074eint,
        0x926d1276e4, field_modulus(),
        0xe2f8935d905b8ee0c26ec9cd043a2e39a508d47531e110d90b1783dfbcc10d7int,
        0x3e3fdfe8914536239fee579f8aa891e2ee55616f4e1283a2db43321f9395a3a7int);
    primality::lemma_square(0x6e2de1e253b630ab90fb6c14c9913e3f79353ced1be9c68ed42e7ee18b96074eint,
        0x124da24edc8, field_modulus(),
        0x3e3fdfe8914536239fee579f8aa891e2ee55616f4e1283a2db43321f9395a3a7int,
        0xb46526c4e2493976800f1af7fe491a8f52a0b5652617e9e5153b562e07e5d1c8int);
    primality::lemma_square(0x6e2de1e253b630ab90fb6c14c9913e3f79353ced1be9c68ed42e7ee18b96074eint,
        0x249b449db90, field_modulus(),
        0xb46526c4e2493976800f1af7fe491a8f52a0b5652617e9e5153b562e07e5d1c8int,
        0x32a0c030fdc68d4374332c68b78266edcb7aad36c101ac63f4ffa2d25d943ff0int);
    primality::lemma_square_multiply(0x6e2de1e253b630ab90fb6c14c9913e3f79353ced1be9c68ed42e7ee18b96074eint,
        0x4936893b720, field_modulus(),
        0x32a0c030fdc68d4374332c68b78266edcb7aad36c101ac63f4ffa2d25d943ff0int,
        0x7f2a2cbe2d4643ea18cbc4862f6823c46b3657c58d561ccbe2b57e67acc0cb0fint);
    primality::lemma_square_multiply(0x6e2de1e253b630ab90fb6c14c9913e3f79353ced1be9c68ed42e7ee18b96074eint,
        0x926d1276e41, field_modulus(),
        0x7f2a2cbe2d4643ea18cbc4862f6823c46b3657c58d561ccbe2b57e67acc0cb0fint,
        0xd9e21da083f8b4c4272f7a9c7dfa4d5f283d38b2701bc0b73b46fbab8612136int);
    primality::lemma_square_multiply(0x6e2de1e253b630ab90fb6c14c9913e3f79353ced1be9c68ed42e7ee18b96074eint,
        0x124da24edc83, field_modulus(),
        0xd9e21da083f8b4c4272f7a9c7dfa4d5f283d38b2701bc0b73b46fbab8612136int,
        0x930c1a0f4bb0082ec7dd8fa41c29ef9c24db0e39d7d090ce9269b07e1c9eb0edint);
    primality::lemma_square_multiply(0x6e2de1e253b630ab90fb6c14c9913e3f79353ced1be9c68ed42e7ee18b96074eint,
        0x249b449db907, field_modulus(),
        0x930c1a0f4bb0082ec7dd8fa41c29ef9c24db0e39d7d090ce9269b07e1c9eb0edint,
        0x1524a9e613146e82eb1314ad7561ccbd7e37c66b6843b98de9e231cbddb440b8int);
    primality::lemma_square_multiply(0x6e2de1e253b630ab90fb6c14c9913e3f79353ced1be9c68ed42e7ee18b96074eint,
        0x4936893b720f, field_modulus(),
        0x1524a9e613146e82eb1314ad7561ccbd7e37c66b6843b98de9e231cbddb440b8int,
        0xaaf06cb1fc86aac9a57feaca9518a476bc83d471519c5d778caa77da34d9a33fint);
    primality::lemma_square_multiply(0x6e2de1e253b630ab90fb6c14c9913e3f79353ced1be9c68ed42e7ee18b96074eint,
        0x926d1276e41f, field_modulus(),
        0xaaf06cb1fc86aac9a57feaca9518a476bc83d471519c5d778caa77da34d9a33fint,
        0x9d69874fb5ccca2ccc1bd3d720731083b928ac63e539968d053982c3a31247e1int);
    primality::lemma_square(0x6e2de1e253b630ab90fb6c14c9913e3f79353ced1be9c68ed42e7ee18b96074eint,
        0x124da24edc83f, field_modulus(),
        0x9d69874fb5ccca2ccc1bd3d720731083b928ac63e539968d053982c3a31247e1int,
        0x38942b114fc94eeed19bd538272381038b58ee128713b2d1f0eda597a9e62e81int);
    primality::lemma_square_multiply(0x6e2de1e253b630ab90fb6c14c9913e3f79353ced1be9c68ed42e7ee18b96074eint,
        0x249b449db907e, field_modulus(),
        0x38942b114fc94eeed19bd538272381038b58ee128713b2d1f0eda597a9e62e81int,
        0xea069b51b6b676a169b72877fc64ca3a8c3901c9ead1eefe22d711b0c5f19f9fint);
    primality::lemma_square(0x6e2de1e253b630ab90fb6c14c9913e3f79353ced1be9c68ed42e7ee18b96074eint,
        0x4936893b720fd, field_modulus(),
        0xea069b51b6b676a169b72877fc64ca3a8c3901c9ead1eefe22d711b0c5f19f9fint,
        0xbe431b8e50607ed14ba7516e4e41de40f968a435529b09c22ee8088e5b2a7c91int);
    primality::lemma_square_multiply(0x6e2de1e253b630ab90fb6c14c9913e3f79353ced1be9c68ed42e7ee18b96074eint,
        0x926d1276e41fa, field_modulus(),
        0xbe431b8e50607ed14ba7516e4e41de40f968a435529b09c22ee8088e5b2a7c91int,
        0x155960672ea75a156f8a5c896fe554e2e60259bb79a9c60733cdc134d9da6b49int);
    primality::lemma_square_multiply(0x6e2de1e253b630ab90fb6c14c9913e3f79353ced1be9c68ed42e7ee18b96074eint,
        0x124da24edc83f5, field_modulus(),
        0x155960672ea75a156f8a5c896fe554e2e60259bb79a9c60733cdc134d9da6b49int,
        0xe0f72ba0f84ab2b434915a85a13fcc3f36363aaea5eb2574ebe975e9ab3c646eint);
    primality::lemma_square_multiply(0x6e2de1e253b630ab90fb6c14c9913e3f79353ced1be9c68ed42e7ee18b96074eint,
        0x249b449db907eb, field_modulus(),
        0xe0f72ba0f84ab2b434915a85a13fcc3f36363aaea5eb2574ebe975e9ab3c646eint,
        0x26067a24fd12823013ad5ae5aa425368dd02297a4141a7bc71951e96af79e0ceint);
    primality::lemma_square(0x6e2de1e253b630ab90fb6c14c9913e3f79353ced1be9c68ed42e7ee18b96074eint,
        0x4936893b720fd7, field_modulus(),
        0x26067a24fd12823013ad5ae5aa425368dd02297a4141a7bc71951e96af79e0ceint,
        0x766508d308aa8b1c609fbe03f37e9b9a42081a94173f9a274c1f8202ee92a3afint);
    primality::lemma_square(0x6e2de1e253b630ab90fb6c14c9913e3f79353ced1be9c68ed42e7ee18b96074eint,
        0x926d1276e41fae, field_modulus(),
        0x766508d308aa8b1c609fbe03f37e9b9a42081a94173f9a274c1f8202ee92a3afint,
        0x55322f7295f5a7afb65ce67cf45463f675bd75c51bc57c8dc0a479156f059d4dint);
    primality::lemma_square(0x6e2de1e253b630ab90fb6c14c9913e3f79353ced1be9c68ed42e7ee18b96074eint,
        0x124da24edc83f5c, field_modulus(),
        0x55322f7295f5a7afb65ce67cf45463f675bd75c51bc57c8dc0a479156f059d4dint,
        0x5b1b8cd13c461e47e54b37218306040d976cd5ce57352492a73100cf01235005int);
    primality::lemma_square(0x6e2de1e253b630ab90fb6c14c9913e3f79353ced1be9c68ed42e7ee18b96074eint,
        0x249b449db907eb8, field_modulus(),
        0x5b1b8cd13c461e47e54b37218306040d976cd5ce57352492a73100cf01235005int,
        0xa7e5c9a7391a2a54de64697746407b1b7d8abc442af8d5c414296ebd7e38ec80int);
    primality::lemma_square_multiply(0x6e2de1e253b630ab90fb6c14c9913e3f79353ced1be9c68ed42e7ee18b96074eint,
        0x4936893b720fd70, field_modulus(),
        0xa7e5c9a7391a2a54de64697746407b1b7d8abc442af8d5c414296ebd7e38ec80int,
        0x82802805119348987a5f9f7c23c9016e99538142cd41af52bb6e8f23c98810c6int);
    primality::lemma_square(0x6e2de1e253b630ab90fb6c14c9913e3f79353ced1be9c68ed42e7ee18b96074eint,
        0x926d1276e41fae1, field_modulus(),
        0x82802805119348987a5f9f7c23c9016e99538142cd41af52bb6e8f23c98810c6int,
        0xe7b476ebd980d21b0c72ed1286337d082f185152dada0285220fa4a95a890641int);
    primality::lemma_square(0x6e2de1e253b630ab90fb6c14c9913e3f79353ced1be9c68ed42e7ee18b96074eint,
        0x124da24edc83f5c2, field_modulus(),
        0xe7b476ebd980d21b0c72ed1286337d082f185152dada0285220fa4a95a890641int,
        0xc83ec017dad27096805096708f889790c3382caa9431a60cfdc216595bc57445int);
    primality::lemma_square_multiply(0x6e2de1e253b630ab90fb6c14c9913e3f79353ced1be9c68ed42e7ee18b96074eint,
        0x249b449db907eb84, field_modulus(),
        0xc83ec017dad27096805096708f889790c3382caa9431a60cfdc216595bc57445int,
        0x8fffa6867af8f8c0fc4276ef7cc2e39a7d95c2bc1bbcf7a0d4d9f5f781f9d094int);
    primality::lemma_square_multiply(0x6e2de1e253b630ab90fb6c14c9913e3f79353ced1be9c68ed42e7ee18b96074eint,
        0x4936893b720fd709, field_modulus(),
        0x8fffa6867af8f8c0fc4276ef7cc2e39a7d95c2bc1bbcf7a0d4d9f5f781f9d094int,
        0x1a3401e2c8490ff858d11ad75f211edb3ee42bcd760197f24bc512a086b6a98cint);
    primality::lemma_square_multiply(0x6e2de1e253b630ab90fb6c14c9913e3f79353ced1be9c68ed42e7ee18b96074eint,
        0x926d1276e41fae13int, field_modulus(),
        0x1a3401e2c8490ff858d11ad75f211edb3ee42bcd760197f24bc512a086b6a98cint,
        0x2f1a6114f5dc8ded73082c4672be9c5f8aca94ab5bc3231c93b413683a5f4a37int);
}

proof fn field_modulus_prime_power_1_2()
    requires
        primality::power_is(0x6e2de1e253b630ab90fb6c14c9913e3f79353ced1be9c68ed42e7ee18b96074eint,
            0x124da24edc83f5c27int, field_modulus(),
            0x2f1a6114f5dc8ded73082c4672be9c5f8aca94ab5bc3231c93b413683a5f4a37int),
    ensures
        primality::power_is(0x6e2de1e253b630ab90fb6c14c9913e3f79353ced1be9c68ed42e7ee18b96074eint,
            0x124da24edc83f5c27fbb4bef1db6f0054int, field_modulus(),
            0x76d234365f5c29d7b02bd8ae59dfcbe4d2204d7b0a625b719676d242ccc519d4int),
{
    primality::lemma_square_multiply(0x6e2de1e253b630ab90fb6c14c9913e3f79353ced1be9c68ed42e7ee18b96074eint,
        0x124da24edc83f5c27int, field_modulus(),
        0x2f1a6114f5dc8ded73082c4672be9c5f8aca94ab5bc3231c93b413683a5f4a37int,
        0xa0bc6a67eac99307424545eb465f9ddb571e73d586db77a2472ad92bd8038389int);
    primality::lemma_square_multiply(0x6e2de1e253b630ab90fb6c14c9913e3f79353ced1be9c68ed42e7ee18b96074eint,
        0x249b449db907eb84fint, field_modulus(),
        0xa0bc6a67eac99307424545eb465f9ddb571e73d586db77a2472ad92bd8038389int,
        0x6ea696028ca52f70e2efd3e96c811614af5b683b8c5cc5750271fd48cdb075fint);
    primality::lemma_square_multiply(0x6e2de1e253b630ab90fb6c14c9913e3f79353ced1be9c68ed42e7ee18b96074eint,
        0x4936893b720fd709fint, field_modulus(),
        0x6ea696028ca52f70e2efd3e96c811614af5b683b8c5cc5750271fd48cdb075fint,
        0x340fcb9349b4ae5e956cc7f244dcb7ef0ef5c2524b69a2e27177a4de8dfbfff1int);
    primality::lemma_square_multiply(0x6e2de1e253b630ab90fb6c14c9913e3f79353ced1be9c68ed42e7ee18b96074eint,
        0x926d1276e41fae13fint, field_modulus(),
        0x340fcb9349b4ae5e956cc7f244dcb7ef0ef5c2524b69a2e27177a4de8dfbfff1int,
        0x3c2660cbcdd10e8173c4f3232b6d28f67187e4f6224e17292e8aa734a778ec84int);
    primality::lemma_square_multiply(0x6e2de1e253b630ab90fb6c14c9913e3f79353ced1be9c68ed42e7ee18b96074eint,
        0x124da24edc83f5c27fint, field_modulus(),
        0x3c2660cbcdd10e8173c4f3232b6d28f67187e4f6224e17292e8aa734a778ec84int,
        0x4d3183fae0434b56549c13834cbb05078ed875bfdc68c4fc0c72a947b0126da8int);
    primality::lemma_square(0x6e2de1e253b630ab90fb6c14c9913e3f79353ced1be9c68ed42e7ee18b96074eint,
        0x249b449db907eb84ffint, field_modulus(),
        0x4d3183fae0434b56549c13834cbb05078ed875bfdc68c4fc0c72a947b0126da8int,
        0x110fc39a6f81d7188a4171cefc34cd51473fec758200c9d5fe75ce8789e6d714int);
    primality::lemma_square_multiply(0x6e2de1e253b630ab90fb6c14c9913e3f79353ced1be9c68ed42e7ee18b96074eint,
        0x4936893b720fd709feint, field_modulus(),
        0x110fc39a6f81d7188a4171cefc34cd51473fec758200c9d5fe75ce8789e6d714int,
        0x2d014a91e13c37bccd0e1b0b5267edd616c0fdd52033969d302e7248f9d3d799int);
    primality::lemma_square_multiply(0x6e2de1e253b630ab90fb6c14c9913e3f79353ced1be9c68ed42e7ee18b96074eint,
        0x926d1276e41fae13fdint, field_modulus(),
        0x2d014a91e13c37bccd0e1b0b5267edd616c0fdd52033969d302e7248f9d3d799int,
        0xaccfaa6090e8a66fd4b9bd183844f8742b4c914758388eee734182fb7d8d947aint);
    primality::lemma_square_multiply(0x6e2de1e253b630ab90fb6c14c9913e3f79353ced1be9c68ed42e7ee18b96074eint,
        0x124da24edc83f5c27fbint, field_modulus(),
        0xaccfaa6090e8a66fd4b9bd183844f8742b4c914758388eee734182fb7d8d947aint,
        0x6505492395be582d61f23727c235714188fac98deccb75b55f4f7e4d2f46fa15int);
    primality::lemma_square(0x6e2de1e253b630ab90fb6c14c9913e3f79353ced1be9c68ed42e7ee18b96074eint,
        0x249b449db907eb84ff7int, field_modulus(),
        0x6505492395be582d61f23727c235714188fac98deccb75b55f4f7e4d2f46fa15int,
        0x3ce63214e22a424b7b7b83007328f5393af1074877042a17e6a6e78dc315578cint);
    primality::lemma_square_multiply(0x6e2de1e253b630ab90fb6c14c9913e3f79353ced1be9c68ed42e7ee18b96074eint,
        0x4936893b720fd709feeint, field_modulus(),
        0x3ce63214e22a424b7b7b83007328f5393af1074877042a17e6a6e78dc315578cint,
        0x7867315e55cd67f6f5ff6f41fc784e4c6da387997ece3cb1359cb2a80e30135fint);
    primality::lemma_square_multiply(0x6e2de1e253b630ab90fb6c14c9913e3f79353ced1be9c68ed42e7ee18b96074eint,
        0x926d1276e41fae13fddint, field_modulus(),
        0x7867315e55cd67f6f5ff6f41fc784e4c6da387997ece3cb1359cb2a80e30135fint,
        0x893bf489d07add46cb1a363d20be8d3ab4905c1cc6f1b259c371aff5a81f31fcint);
    primality::lemma_square(0x6e2de1e253b630ab90fb6c14c9913e3f79353ced1be9c68ed42e7ee18b96074eint,
        0x124da24edc83f5c27fbbint, field_modulus(),
        0x893bf489d07add46cb1a363d20be8d3ab4905c1cc6f1b259c371aff5a81f31fcint,
        0x78b9258ad14f06927d4fb79073fcae4b64d5b197e24f028c2ae6cd256d74ae1bint);
    primality::lemma_square_multiply(0x6e2de1e253b630ab90fb6c14c9913e3f79353ced1be9c68ed42e7ee18b96074eint,
        0x249b449db907eb84ff76int, field_modulus(),
        0x78b9258ad14f06927d4fb79073fcae4b64d5b197e24f028c2ae6cd256d74ae1bint,
        0xf6d1b56db13df93594af93138f6f71888a8e822055cdd1d2439c0827feae3d36int);
    primality::lemma_square(0x6e2de1e253b630ab90fb6c14c9913e3f79353ced1be9c68ed42e7ee18b96074eint,
        0x4936893b720fd709feedint, field_modulus(),
        0xf6d1b56db13df93594af93138f6f71888a8e822055cdd1d2439c0827feae3d36int,
        0xe9986cadf18c447af9303dcbeea94dd3a66184620c845eb88f4709ebf9af32a1int);
    primality::lemma_square(0x6e2de1e253b630ab90fb6c14c9913e3f79353ced1be9c68ed42e7ee18b96074eint,
        0x926d1276e41fae13fddaint, field_modulus(),
        0xe9986cadf18c447af9303dcbeea94dd3a66184620c845eb88f4709ebf9af32a1int,
        0xacfaf7baa1a4eabd6dfb56f10a1f52c662b789970126279e0d82215d84fd2599int);
    primality::lemma_square_multiply(0x6e2de1e253b630ab90fb6c14c9913e3f79353ced1be9c68ed42e7ee18b96074eint,
        0x124da24edc83f5c27fbb4int, field_modulus(),
        0xacfaf7baa1a4eabd6dfb56f10a1f52c662b789970126279e0d82215d84fd2599int,
        0xc09bfb58b25bbc8663e56845844c8b41e1b3de8e1f4435fb96ccfee394ede82bint);
    primality::lemma_square(0x6e2de1e253b630ab90fb6c14c9913e3f79353ced1be9c68ed42e7ee18b96074eint,
        0x249b449db907eb84ff769int, field_modulus(),
        0xc09bfb58b25bbc8663e56845844c8b41e1b3de8e1f4435fb96ccfee394ede82bint,
        0x7358b2ac97204531a7aa6f3e8a92fb330705b7d0fb9d3bd26994c3f98666d72eint);
    primality::lemma_square_multiply(0x6e2de1e253b630ab90fb6c14c9913e3f79353ced1be9c68ed42e7ee18b96074eint,
        0x4936893b720fd709feed2int, field_modulus(),
        0x7358b2ac97204531a7aa6f3e8a92fb330705b7d0fb9d3bd26994c3f98666d72eint,
        0x26e07153ce144a18a807f1c5558831593e9fff7f29aac6e831e68f786bf6f07cint);
    primality::lemma_square_multiply(0x6e2de1e253b630ab90fb6c14c9913e3f79353ced1be9c68ed42e7ee18b96074eint,
        0x926d1276e41fae13fdda5int, field_modulus(),
        0x26e07153ce144a18a807f1c5558831593e9fff7f29aac6e831e68f786bf6f07cint,
        0x8d2dae178db8125c2347e54e5137bf16e09659187417c9c843bd426388110f8aint);
    primality::lemma_square_multiply(0x6e2de1e253b630ab90fb6c14c9913e3f79353ced1be9c68ed42e7ee18b96074eint,
        0x124da24edc83f5c27fbb4bint, field_modulus(),
        0x8d2dae178db8125c2347e54e5137bf16e09659187417c9c843bd426388110f8aint,
        0xb3f5afeafab8a7485f83235bd7ada25e20a187dc758936611a8060ebdaa167caint);
    primality::lemma_square_multiply(0x6e2de1e253b630ab90fb6c14c9913e3f79353ced1be9c68ed42e7ee18b96074eint,
        0x249b449db907eb84ff7697int, field_modulus(),
        0xb3f5afeafab8a7485f83235bd7ada25e20a187dc758936611a8060ebdaa167caint,
        0xbc5f7f6a3eedb0a9317832128677e3b07f68631405bc70594176a0cc06b56ac6int);
    primality::lemma_square_multiply(0x6e2de1e253b630ab90fb6c14c9913e3f79353ced1be9c68ed42e7ee18b96074eint,
        0x4936893b720fd709feed2fint, field_modulus(),
        0xbc5f7f6a3eedb0a9317832128677e3b07f68631405bc70594176a0cc06b56ac6int,
        0xf748b3b73856f08e0cd598f836457183fc008b8907730f72a0b1fd0ecab3e9b5int);
    primality::lemma_square(0x6e2de1e253b630ab90fb6c14c9913e3f79353ced1be9c68ed42e7ee18b96074eint,
        0x926d1276e41fae13fdda5fint, field_modulus(),
        0xf748b3b73856f08e0cd598f836457183fc008b8907730f72a0b1fd0ecab3e9b5int,
        0x2e3fa99cba0804fb99f4bae3be02d39a47c1d3461ed73f34a7238c8d39e8b63fint);
    primality::lemma_square_multiply(0x6e2de1e253b630ab90fb6c14c9913e3f79353ced1be9c68ed42e7ee18b96074eint,
        0x124da24edc83f5c27fbb4beint, field_modulus(),
        0x2e3fa99cba0804fb99f4bae3be02d39a47c1d3461ed73f34a7238c8d39e8b63fint,
        0xad086c82e29eb027f711e31bb8c78a7d58938c34402cc3d0cd368ff586d58010int);
    primality::lemma_square_multiply(0x6e2de1e253b630ab90fb6c14c9913e3f79353ced1be9c68ed42e7ee18b96074eint,
        0x249b449db907eb84ff7697dint, field_modulus(),
        0xad086c82e29eb027f711e31bb8c78a7d58938c34402cc3d0cd368ff586d58010int,
        0xd01c2ffaf667844ea9ca12f33c72cff2073ca8cda9a7417d77369172e2a05ceeint);
    primality::lemma_square_multiply(0x6e2de1e253b630ab90fb6c14c9913e3f79353ced1be9c68ed42e7ee18b96074eint,
        0x4936893b720fd709feed2fbint, field_modulus(),
        0xd01c2ffaf667844ea9ca12f33c72cff2073ca8cda9a7417d77369172e2a05ceeint,
        0xadb9e70c82adecf22a0530d617fb36841bea00388b0ea12b25791b6808595c33int);
    primality::lemma_square_multiply(0x6e2de1e253b630ab90fb6c14c9913e3f79353ced1be9c68ed42e7ee18b96074eint,
        0x926d1276e41fae13fdda5f7int, field_modulus(),
        0xadb9e70c82adecf22a0530d617fb36841bea00388b0ea12b25791b6808595c33int,
        0x794723a7f272b49a318831d92d443c6572b1bf833f6206b7661b61d9d134da4cint);
    primality::lemma_square(0x6e2de1e253b630ab90fb6c14c9913e3f79353ced1be9c68ed42e7ee18b96074eint,
        0x124da24edc83f5c27fbb4befint, field_modulus(),
        0x794723a7f272b49a318831d92d443c6572b1bf833f6206b7661b61d9d134da4cint,
        0x1d4769ce1e7fcdc8278c4219bcafb504641ec253220d821adaab128b5b004349int);
    primality::lemma_square(0x6e2de1e253b630ab90fb6c14c9913e3f79353ced1be9c68ed42e7ee18b96074eint,
        0x249b449db907eb84ff7697deint, field_modulus(),
        0x1d4769ce1e7fcdc8278c4219bcafb504641ec253220d821adaab128b5b004349int,
        0x50142f00523fea803a74f52b19f5f8f650b032d56adf6e4ac559db3048268711int);
    primality::lemma_square(0x6e2de1e253b630ab90fb6c14c9913e3f79353ced1be9c68ed42e7ee18b96074eint,
        0x4936893b720fd709feed2fbcint, field_modulus(),
        0x50142f00523fea803a74f52b19f5f8f650b032d56adf6e4ac559db3048268711int,
        0xd9b2da2165ba7d53b2b1ba2804ea3f1339df0bd60326b39c714cdaa39ce6a980int);
    primality::lemma_square_multiply(0x6e2de1e253b630ab90fb6c14c9913e3f79353ced1be9c68ed42e7ee18b96074eint,
        0x926d1276e41fae13fdda5f78int, field_modulus(),
        0xd9b2da2165ba7d53b2b1ba2804ea3f1339df0bd60326b39c714cdaa39ce6a980int,
        0x566529d688cd0ae5d8d46caab59753d7753dfd596064410610598b0170d4ca27int);
    primality::lemma_square_multiply(0x6e2de1e253b630ab90fb6c14c9913e3f79353ced1be9c68ed42e7ee18b96074eint,
        0x124da24edc83f5c27fbb4bef1int, field_modulus(),
        0x566529d688cd0ae5d8d46caab59753d7753dfd596064410610598b0170d4ca27int,
        0xd7207c0d84f54c1ec5545501c706f50b7edb70b23fa7213be1e0e57aa79a3960int);
    primality::lemma_square_multiply(0x6e2de1e253b630ab90fb6c14c9913e3f79353ced1be9c68ed42e7ee18b96074eint,
        0x249b449db907eb84ff7697de3int, field_modulus(),
        0xd7207c0d84f54c1ec5545501c706f50b7edb70b23fa7213be1e0e57aa79a3960int,
        0xc29d756bf4af3bd10d26d9152b86f088db37fac101d02800a4b51c36e8ef2a29int);
    primality::lemma_square(0x6e2de1e253b630ab90fb6c14c9913e3f79353ced1be9c68ed42e7ee18b96074eint,
        0x4936893b720fd709feed2fbc7int, field_modulus(),
        0xc29d756bf4af3bd10d26d9152b86f088db37fac101d02800a4b51c36e8ef2a29int,
        0x8c5ff4782b016407eba716ca8c43c35df2003a1c1be2d3067de3b9d67b67010eint);
    primality::lemma_square_multiply(0x6e2de1e253b630ab90fb6c14c9913e3f79353ced1be9c68ed42e7ee18b96074eint,
        0x926d1276e41fae13fdda5f78eint, field_modulus(),
        0x8c5ff4782b016407eba716ca8c43c35df2003a1c1be2d3067de3b9d67b67010eint,
        0x9edc4db2173b9256dda99311cb7e987f93377a757c0837d48762690025f2de68int);
    primality::lemma_square_multiply(0x6e2de1e253b630ab90fb6c14c9913e3f79353ced1be9c68ed42e7ee18b96074eint,
        0x124da24edc83f5c27fbb4bef1dint, field_modulus(),
        0x9edc4db2173b9256dda99311cb7e987f93377a757c0837d48762690025f2de68int,
        0xdd706de015f301b5c40ddf70f8aa1baa0bcc7fb2b13f38770a51cc05a60e039bint);
    primality::lemma_square(0x6e2de1e253b630ab90fb6c14c9913e3f79353ced1be9c68ed42e7ee18b96074eint,
        0x249b449db907eb84ff7697de3bint, field_modulus(),
        0xdd706de015f301b5c40ddf70f8aa1baa0bcc7fb2b13f38770a51cc05a60e039bint,
        0x981a54212277741d6b970ae3f0804974255733ba7e2f58995e2bd9e4ce6046c5int);
    primality::lemma_square_multiply(0x6e2de1e253b630ab90fb6c14c9913e3f79353ced1be9c68ed42e7ee18b96074eint,
        0x4936893b720fd709feed2fbc76int, field_modulus(),
        0x981a54212277741d6b970ae3f0804974255733ba7e2f58995e2bd9e4ce6046c5int,
        0x6c1e2b8f0eb24dcd82b27e71af372707c36eb9df972f9681d96d3efa2171966int);
    primality::lemma_square_multiply(0x6e2de1e253b630ab90fb6c14c9913e3f79353ced1be9c68ed42e7ee18b96074eint,
        0x926d1276e41fae13fdda5f78edint, field_modulus(),
        0x6c1e2b8f0eb24dcd82b27e71af372707c36eb9df972f9681d96d3efa2171966int,
        0x5bac7aea0d184c2a12ee97dec427fdd9491fb4c1124e4f866df127d8b0a997deint);
    primality::lemma_square(0x6e2de1e253b630ab90fb6c14c9913e3f79353ced1be9c68ed42e7ee18b96074eint,
        0x124da24edc83f5c27fbb4bef1dbint, field_modulus(),
        0x5bac7aea0d184c2a12ee97dec427fdd9491fb4c1124e4f866df127d8b0a997deint,
        0x584add1948d091acf95c138bf7509f40bd0c610dd7043ef222633777f977e05cint);
    primality::lemma_square_multiply(0x6e2de1e253b630ab90fb6c14c9913e3f79353ced1be9c68ed42e7ee18b96074eint,
        0x249b449db907eb84ff7697de3b6int, field_modulus(),
        0x584add1948d091acf95c138bf7509f40bd0c610dd7043ef222633777f977e05cint,
        0xfd221e38a4b772d66a223381843ade5a2e4a457cf2143a8af6531febff662c7dint);
    primality::lemma_square_multiply(0x6e2de1e253b630ab90fb6c14c9913e3f79353ced1be9c68ed42e7ee18b96074eint,
        0x4936893b720fd709feed2fbc76dint, field_modulus(),
        0xfd221e38a4b772d66a223381843ade5a2e4a457cf2143a8af6531febff662c7dint,
        0xdf8f087b8dc68573904f4ec00b6066a96efd3de7119d70a253dd451a2b356fddint);
    primality::lemma_square(0x6e2de1e253b630ab90fb6c14c9913e3f79353ced1be9c68ed42e7ee18b96074eint,
        0x926d1276e41fae13fdda5f78edbint, field_modulus(),
        0xdf8f087b8dc68573904f4ec00b6066a96efd3de7119d70a253dd451a2b356fddint,
        0xdadb57f718086f6fbc61d8860abdfb750792b97dd8b935271d58b5e48f30e1a5int);
    primality::lemma_square_multiply(0x6e2de1e253b630ab90fb6c14c9913e3f79353ced1be9c68ed42e7ee18b96074eint,
        0x124da24edc83f5c27fbb4bef1db6int, field_modulus(),
        0xdadb57f718086f6fbc61d8860abdfb750792b97dd8b935271d58b5e48f30e1a5int,
        0xbca07a3ca081f9190a85e2066335ec5e318c9d2ab8ae62451a2519e766ea8d06int);
    primality::lemma_square_multiply(0x6e2de1e253b630ab90fb6c14c9913e3f79353ced1be9c68ed42e7ee18b96074eint,
        0x249b449db907eb84ff7697de3b6dint, field_modulus(),
        0xbca07a3ca081f9190a85e2066335ec5e318c9d2ab8ae62451a2519e766ea8d06int,
        0xc724918882a5325152a07759db29d18b7bca3319274a4c60a069fab00e67b554int);
    primality::lemma_square_multiply(0x6e2de1e253b630ab90fb6c14c9913e3f79353ced1be9c68ed42e7ee18b96074eint,
        0x4936893b720fd709feed2fbc76dbint, field_modulus(),
        0xc724918882a5325152a07759db29d18b7bca3319274a4c60a069fab00e67b554int,
        0x5c3e480d479d2511e1995014dbe228d2031822d63a1de4be55ea540eb9b6677eint);
    primality::lemma_square_multiply(0x6e2de1e253b630ab90fb6c14c9913e3f79353ced1be9c68ed42e7ee18b96074eint,
        0x926d1276e41fae13fdda5f78edb7int, field_modulus(),
        0x5c3e480d479d2511e1995014dbe228d2031822d63a1de4be55ea540eb9b6677eint,
        0x59f77a3ee7c948b96410368949ab20662ddff4b21f2c172e82c80a2ad9e184f3int);
    primality::lemma_square(0x6e2de1e253b630ab90fb6c14c9913e3f79353ced1be9c68ed42e7ee18b96074eint,
        0x124da24edc83f5c27fbb4bef1db6fint, field_modulus(),
        0x59f77a3ee7c948b96410368949ab20662ddff4b21f2c172e82c80a2ad9e184f3int,
        0xd75af310b424cdd3ea3da63b8d7755db9db425e31d652902c0ec52d8774f001aint);
    primality::lemma_square(0x6e2de1e253b630ab90fb6c14c9913e3f79353ced1be9c68ed42e7ee18b96074eint,
        0x249b449db907eb84ff7697de3b6deint, field_modulus(),
        0xd75af310b424cdd3ea3da63b8d7755db9db425e31d652902c0ec52d8774f001aint,
        0xc43ba8612e6ab09327512f184967e1f1a2b1332de7203cbf79d85341a397bb6aint);
    primality::lemma_square(0x6e2de1e253b630ab90fb6c14c9913e3f79353ced1be9c68ed42e7ee18b96074eint,
        0x4936893b720fd709feed2fbc76dbcint, field_modulus(),
        0xc43ba8612e6ab09327512f184967e1f1a2b1332de7203cbf79d85341a397bb6aint,
        0xe0fdef8e4a5aba451f4c60a7c266dd9a59cca9bf5cedf1a6cc9306944e7a92d8int);
    primality::lemma_square(0x6e2de1e253b630ab90fb6c14c9913e3f79353ced1be9c68ed42e7ee18b96074eint,
        0x926d1276e41fae13fdda5f78edb78int, field_modulus(),
        0xe0fdef8e4a5aba451f4c60a7c266dd9a59cca9bf5cedf1a6cc9306944e7a92d8int,
        0x9ce0d432118600e1536c79266977a22feec7cc8dae1ace63765084b2a1c60b30int);
    primality::lemma_square(0x6e2de1e253b630ab90fb6c14c9913e3f79353ced1be9c68ed42e7ee18b96074eint,
        0x124da24edc83f5c27fbb4bef1db6f0int, field_modulus(),
        0x9ce0d432118600e1536c79266977a22feec7cc8dae1ace63765084b2a1c60b30int,
        0x2d6ef39a362b92a235e24fb7c5f035f0f951ff11e01e0e96457a955b09d5809cint);
    primality::lemma_square(0x6e2de1e253b630ab90fb6c14c9913e3f79353ced1be9c68ed42e7ee18b96074eint,
        0x249b449db907eb84ff7697de3b6de0int, field_modulus(),
        0x2d6ef39a362b92a235e24fb7c5f035f0f951ff11e01e0e96457a955b09d5809cint,
        0xf44e04104aaa16014d0c1c02946e4db0bbd1430d960d2505b14c4d644210a4c9int);
    primality::lemma_square(0x6e2de1e253b630ab90fb6c14c9913e3f79353ced1be9c68ed42e7ee18b96074eint,
        0x4936893b720fd709feed2fbc76dbc0int, field_modulus(),
        0xf44e04104aaa16014d0c1c02946e4db0bbd1430d960d2505b14c4d644210a4c9int,
        0xca1e20ca225e6d1474c0e5b218f48c7ca2ae35e77015959c2dd06ad03547f2e0int);
    primality::lemma_square(0x6e2de1e253b630ab90fb6c14c9913e3f79353ced1be9c68ed42e7ee18b96074eint,
        0x926d1276e41fae13fdda5f78edb780int, field_modulus(),
        0xca1e20ca225e6d1474c0e5b218f48c7ca2ae35e77015959c2dd06ad03547f2e0int,
        0x24ca7edf1916fedbd42e8245f18b5264f4262dce9ed4102763c06a64d23eded0int);
    primality::lemma_square(0x6e2de1e253b630ab90fb6c14c9913e3f79353ced1be9c68ed42e7ee18b96074eint,
        0x124da24edc83f5c27fbb4bef1db6f00int, field_modulus(),
        0x24ca7edf1916fedbd42e8245f18b5264f4262dce9ed4102763c06a64d23eded0int,
        0xd4979897a7f37384a7b143144589743020ff0fd423fcfef110e6f5b7d270688eint);
    primality::lemma_square_multiply(0x6e2de1e253b630ab90fb6c14c9913e3f79353ced1be9c68ed42e7ee18b96074eint,
        0x249b449db907eb84ff7697de3b6de00int, field_modulus(),
        0xd4979897a7f37384a7b143144589743020ff0fd423fcfef110e6f5b7d270688eint,
        0xd2807e4a086316d192f1d3ed852ebecc88f546ff1a10b4e349cb445893666853int);
    primality::lemma_square(0x6e2de1e253b630ab90fb6c14c9913e3f79353ced1be9c68ed42e7ee18b96074eint,
        0x4936893b720fd709feed2fbc76dbc01int, field_modulus(),
        0xd2807e4a086316d192f1d3ed852ebecc88f546ff1a10b4e349cb445893666853int,
        0x6822d866e8f7723db7796632d52ceb854ecba2112b582aadce15ba1bd2fae622int);
    primality::lemma_square_multiply(0x6e2de1e253b630ab90fb6c14c9913e3f79353ced1be9c68ed42e7ee18b96074eint,
        0x926d1276e41fae13fdda5f78edb7802int, field_modulus(),
        0x6822d866e8f7723db7796632d52ceb854ecba2112b582aadce15ba1bd2fae622int,
        0x59030a17bbb6fa2fdf776f0689e2b578b29463e162965d6db4445a12fb82e39fint);
    primality::lemma_square(0x6e2de1e253b630ab90fb6c14c9913e3f79353ced1be9c68ed42e7ee18b96074eint,
        0x124da24edc83f5c27fbb4bef1db6f005int, field_modulus(),
        0x59030a17bbb6fa2fdf776f0689e2b578b29463e162965d6db4445a12fb82e39fint,
        0xbe2142a377d16d1dcd40ebbf43b480f22ced802d5500cd0652a78ebc8b849325int);
    primality::lemma_square_multiply(0x6e2de1e253b630ab90fb6c14c9913e3f79353ced1be9c68ed42e7ee18b96074eint,
        0x249b449db907eb84ff7697de3b6de00aint, field_modulus(),
        0xbe2142a377d16d1dcd40ebbf43b480f22ced802d5500cd0652a78ebc8b849325int,
        0x75fd2cde5f96b293ea5a1016047fcb0bb1cb7ea83e3ef70c54331d81245468d7int);
    primality::lemma_square(0x6e2de1e253b630ab90fb6c14c9913e3f79353ced1be9c68ed42e7ee18b96074eint,
        0x4936893b720fd709feed2fbc76dbc015int, field_modulus(),
        0x75fd2cde5f96b293ea5a1016047fcb0bb1cb7ea83e3ef70c54331d81245468d7int,
        0x228fb229af9f5c030e31c5eef9ab451b502f206250d894fdb5020806ccfa888dint);
    primality::lemma_square(0x6e2de1e253b630ab90fb6c14c9913e3f79353ced1be9c68ed42e7ee18b96074eint,
        0x926d1276e41fae13fdda5f78edb7802aint, field_modulus(),
        0x228fb229af9f5c030e31c5eef9ab451b502f206250d894fdb5020806ccfa888dint,
        0x76d234365f5c29d7b02bd8ae59dfcbe4d2204d7b0a625b719676d242ccc519d4int);
}

proof fn field_modulus_prime_power_1_3()
    requires
        primality::power_is(0x6e2de1e253b630ab90fb6c14c9913e3f79353ced1be9c68ed42e7ee18b96074eint,
            0x124da24edc83f5c27fbb4bef1db6f0054int, field_modulus(),
            0x76d234365f5c29d7b02bd8ae59dfcbe4d2204d7b0a625b719676d242ccc519d4int),
    ensures
        primality::power_is(0x6e2de1e253b630ab90fb6c14c9913e3f79353ced1be9c68ed42e7ee18b96074eint,
            0x926d1276e41fae13fdda5f78edb7802a76951509int, field_modulus(), 1),
{
    primality::lemma_square_multiply(0x6e2de1e253b630ab90fb6c14c9913e3f79353ced1be9c68ed42e7ee18b96074eint,
        0x124da24edc83f5c27fbb4bef1db6f0054int, field_modulus(),
        0x76d234365f5c29d7b02bd8ae59dfcbe4d2204d7b0a625b719676d242ccc519d4int,
        0x9eed3d2a76328f8bc97c14844285ec3c300eca9558977c098e60b9dbf6a66430int);
    primality::lemma_square_multiply(0x6e2de1e253b630ab90fb6c14c9913e3f79353ced1be9c68ed42e7ee18b96074eint,
        0x249b449db907eb84ff7697de3b6de00a9int, field_modulus(),
        0x9eed3d2a76328f8bc97c14844285ec3c300eca9558977c098e60b9dbf6a66430int,
        0xd2cecef9af420ae5cec167a82d91c8de8843ba554bd2b787c94a4c93e5ddbd43int);
    primality::lemma_square_multiply(0x6e2de1e253b630ab90fb6c14c9913e3f79353ced1be9c68ed42e7ee18b96074eint,
        0x4936893b720fd709feed2fbc76dbc0153int, field_modulus(),
        0xd2cecef9af420ae5cec167a82d91c8de8843ba554bd2b787c94a4c93e5ddbd43int,
        0x3e3d3e0658b41f120dd03a62fd2b49a32814663a161dcb76fd002d7d0b1d13d9int);
    primality::lemma_square(0x6e2de1e253b630ab90fb6c14c9913e3f79353ced1be9c68ed42e7ee18b96074eint,
        0x926d1276e41fae13fdda5f78edb7802a7int, field_modulus(),
        0x3e3d3e0658b41f120dd03a62fd2b49a32814663a161dcb76fd002d7d0b1d13d9int,
        0x3bb4225da977495a237b5ef9b65789f4861f1bf369c8055d29258b922eb407e7int);
    primality::lemma_square_multiply(0x6e2de1e253b630ab90fb6c14c9913e3f79353ced1be9c68ed42e7ee18b96074eint,
        0x124da24edc83f5c27fbb4bef1db6f0054eint, field_modulus(),
        0x3bb4225da977495a237b5ef9b65789f4861f1bf369c8055d29258b922eb407e7int,
        0x9a52f1283e0514f2fc91194da289c9510d053a7e0b5a13fd64523ebc32b8923int);
    primality::lemma_square_multiply(0x6e2de1e253b630ab90fb6c14c9913e3f79353ced1be9c68ed42e7ee18b96074eint,
        0x249b449db907eb84ff7697de3b6de00a9dint, field_modulus(),
        0x9a52f1283e0514f2fc91194da289c9510d053a7e0b5a13fd64523ebc32b8923int,
        0x98f18b4aa961063d204d8a8aa011cf38b5f6081da31f819a683746719f43d37aint);
    primality::lemma_square(0x6e2de1e253b630ab90fb6c14c9913e3f79353ced1be9c68ed42e7ee18b96074eint,
        0x4936893b720fd709feed2fbc76dbc0153bint, field_modulus(),
        0x98f18b4aa961063d204d8a8aa011cf38b5f6081da31f819a683746719f43d37aint,
        0x7d7eaf3846540ab3f6c42ecaa3c7253515bf8af9311822a341da6cdec4d36335int);
    primality::lemma_square_multiply(0x6e2de1e253b630ab90fb6c14c9913e3f79353ced1be9c68ed42e7ee18b96074eint,
        0x926d1276e41fae13fdda5f78edb7802a76int, field_modulus(),
        0x7d7eaf3846540ab3f6c42ecaa3c7253515bf8af9311822a341da6cdec4d36335int,
        0xc47cb756a46391621c1259595e44df974dd872e130e7851109c990811539540fint);
    primality::lemma_square(0x6e2de1e253b630ab90fb6c14c9913e3f79353ced1be9c68ed42e7ee18b96074eint,
        0x124da24edc83f5c27fbb4bef1db6f0054edint, field_modulus(),
        0xc47cb756a46391621c1259595e44df974dd872e130e7851109c990811539540fint,
        0x70bc1db5d9ec5bf4a527aeeaab7996881437261f7181a7eb8c5ad567aad31f98int);
    primality::lemma_square(0x6e2de1e253b630ab90fb6c14c9913e3f79353ced1be9c68ed42e7ee18b96074eint,
        0x249b449db907eb84ff7697de3b6de00a9daint, field_modulus(),
        0x70bc1db5d9ec5bf4a527aeeaab7996881437261f7181a7eb8c5ad567aad31f98int,
        0x791ad97f48093b2e3dfd0ca3b9f430ff8c0bf7951a07d3a3d3bb22a318da0e1aint);
    primality::lemma_square_multiply(0x6e2de1e253b630ab90fb6c14c9913e3f79353ced1be9c68ed42e7ee18b96074eint,
        0x4936893b720fd709feed2fbc76dbc0153b4int, field_modulus(),
        0x791ad97f48093b2e3dfd0ca3b9f430ff8c0bf7951a07d3a3d3bb22a318da0e1aint,
        0x42d1499609594e445d8c62ad7a267f1613318efe64609320a3408923469ffa87int);
    primality::lemma_square(0x6e2de1e253b630ab90fb6c14c9913e3f79353ced1be9c68ed42e7ee18b96074eint,
        0x926d1276e41fae13fdda5f78edb7802a769int, field_modulus(),
        0x42d1499609594e445d8c62ad7a267f1613318efe64609320a3408923469ffa87int,
        0x96ddc9f78ae82394466d8c0e5765a3843b23186e59fe952b7721d3021ebdb37int);
    primality::lemma_square_multiply(0x6e2de1e253b630ab90fb6c14c9913e3f79353ced1be9c68ed42e7ee18b96074eint,
        0x124da24edc83f5c27fbb4bef1db6f0054ed2int, field_modulus(),
        0x96ddc9f78ae82394466d8c0e5765a3843b23186e59fe952b7721d3021ebdb37int,
        0x5ff1e8d0fb4dae3fb0dcad3b5e2ec233783ffe68ade656a324a434fb1ea1fb50int);
    primality::lemma_square(0x6e2de1e253b630ab90fb6c14c9913e3f79353ced1be9c68ed42e7ee18b96074eint,
        0x249b449db907eb84ff7697de3b6de00a9da5int, field_modulus(),
        0x5ff1e8d0fb4dae3fb0dcad3b5e2ec233783ffe68ade656a324a434fb1ea1fb50int,
        0xb7a7035f63fb8e64a0cacc4d51558059b053e5469134b1da5d93e942e4683e91int);
    primality::lemma_square_multiply(0x6e2de1e253b630ab90fb6c14c9913e3f79353ced1be9c68ed42e7ee18b96074eint,
        0x4936893b720fd709feed2fbc76dbc0153b4aint, field_modulus(),
        0xb7a7035f63fb8e64a0cacc4d51558059b053e5469134b1da5d93e942e4683e91int,
        0xf8e46fe3972a911ab384e4b8b39c3ad1b7175d03e3d208c5e4314f82c3b83a90int);
    primality::lemma_square(0x6e2de1e253b630ab90fb6c14c9913e3f79353ced1be9c68ed42e7ee18b96074eint,
        0x926d1276e41fae13fdda5f78edb7802a7695int, field_modulus(),
        0xf8e46fe3972a911ab384e4b8b39c3ad1b7175d03e3d208c5e4314f82c3b83a90int,
        0x453bf1b0082a073d4ef3a5a18d54c38b8f1587248e1ffa6de733ce83c76cf511int);
    primality::lemma_square(0x6e2de1e253b630ab90fb6c14c9913e3f79353ced1be9c68ed42e7ee18b96074eint,
        0x124da24edc83f5c27fbb4bef1db6f0054ed2aint, field_modulus(),
        0x453bf1b0082a073d4ef3a5a18d54c38b8f1587248e1ffa6de733ce83c76cf511int,
        0x6c103b9507a9cc828e527bd987f4a2017fbd1b0d27a0054cdcc0026c82b2506int);
    primality::lemma_square(0x6e2de1e253b630ab90fb6c14c9913e3f79353ced1be9c68ed42e7ee18b96074eint,
        0x249b449db907eb84ff7697de3b6de00a9da54int, field_modulus(),
        0x6c103b9507a9cc828e527bd987f4a2017fbd1b0d27a0054cdcc0026c82b2506int,
        0xfd6d48feaed3ab490a33ce4af04aad11770c7ad3c8b0803da7ab907b480fb3dint);
    primality::lemma_square_multiply(0x6e2de1e253b630ab90fb6c14c9913e3f79353ced1be9c68ed42e7ee18b96074eint,
        0x4936893b720fd709feed2fbc76dbc0153b4a8int, field_modulus(),
        0xfd6d48feaed3ab490a33ce4af04aad11770c7ad3c8b0803da7ab907b480fb3dint,
        0xbb92cb64ddd486e8e13df6c43008a6310f2801403c5dbb139daf97a99a67028aint);
    primality::lemma_square(0x6e2de1e253b630ab90fb6c14c9913e3f79353ced1be9c68ed42e7ee18b96074eint,
        0x926d1276e41fae13fdda5f78edb7802a76951int, field_modulus(),
        0xbb92cb64ddd486e8e13df6c43008a6310f2801403c5dbb139daf97a99a67028aint,
        0x260ab4220b7b4e4031fa106e915493b8348aebeac3ff56d876a8a9b043e99083int);
    primality::lemma_square_multiply(0x6e2de1e253b630ab90fb6c14c9913e3f79353ced1be9c68ed42e7ee18b96074eint,
        0x124da24edc83f5c27fbb4bef1db6f0054ed2a2int, field_modulus(),
        0x260ab4220b7b4e4031fa106e915493b8348aebeac3ff56d876a8a9b043e99083int,
        0x78d78246432c32dabbfa7ad41a4c3ad86310457d459d17909a82da7a0be33ed0int);
    primality::lemma_square(0x6e2de1e253b630ab90fb6c14c9913e3f79353ced1be9c68ed42e7ee18b96074eint,
        0x249b449db907eb84ff7697de3b6de00a9da545int, field_modulus(),
        0x78d78246432c32dabbfa7ad41a4c3ad86310457d459d17909a82da7a0be33ed0int,
        0x71db3176eb360bde2cb1c3b71c3b17073781abe6b04143a32fca6b60e577da1cint);
    primality::lemma_square_multiply(0x6e2de1e253b630ab90fb6c14c9913e3f79353ced1be9c68ed42e7ee18b96074eint,
        0x4936893b720fd709feed2fbc76dbc0153b4a8aint, field_modulus(),
        0x71db3176eb360bde2cb1c3b71c3b17073781abe6b04143a32fca6b60e577da1cint,
        0x2c0dbbfd0bdc828eae74b789bb9cd1c94e9c874afe59fe229db0de45b0ed0abdint);
    primality::lemma_square(0x6e2de1e253b630ab90fb6c14c9913e3f79353ced1be9c68ed42e7ee18b96074eint,
        0x926d1276e41fae13fdda5f78edb7802a769515int, field_modulus(),
        0x2c0dbbfd0bdc828eae74b789bb9cd1c94e9c874afe59fe229db0de45b0ed0abdint,
        0x1bb90cc697305a65af08f2bc1b811d40418d84dc65602e9618007ebe008bfe9fint);
    primality::lemma_square(0x6e2de1e253b630ab90fb6c14c9913e3f79353ced1be9c68ed42e7ee18b96074eint,
        0x124da24edc83f5c27fbb4bef1db6f0054ed2a2aint, field_modulus(),
        0x1bb90cc697305a65af08f2bc1b811d40418d84dc65602e9618007ebe008bfe9fint,
        0xd9cc08c1356ae237474bfae6e06e023b3bde180600e7497fe351f22515842b61int);
    primality::lemma_square(0x6e2de1e253b630ab90fb6c14c9913e3f79353ced1be9c68ed42e7ee18b96074eint,
        0x249b449db907eb84ff7697de3b6de00a9da5454int, field_modulus(),
        0xd9cc08c1356ae237474bfae6e06e023b3bde180600e7497fe351f22515842b61int,
        0xaaa38d4aece36dc67b4d668da916d11a001bcbfe59d6266712a88064475a76edint);
    primality::lemma_square(0x6e2de1e253b630ab90fb6c14c9913e3f79353ced1be9c68ed42e7ee18b96074eint,
        0x4936893b720fd709feed2fbc76dbc0153b4a8a8int, field_modulus(),
        0xaaa38d4aece36dc67b4d668da916d11a001bcbfe59d6266712a88064475a76edint,
        0xdbb78c601595c16a3ec7e28b58bb0efd944b7fba7929f05b8acaa34dd5985f07int);
    primality::lemma_square_multiply(0x6e2de1e253b630ab90fb6c14c9913e3f79353ced1be9c68ed42e7ee18b96074eint,
        0x926d1276e41fae13fdda5f78edb7802a7695150int, field_modulus(),
        0xdbb78c601595c16a3ec7e28b58bb0efd944b7fba7929f05b8acaa34dd5985f07int,
        0x510e95326e8e67d073b7d7c5bf1ec41b8d8087b99ccdcd8ef80e0303d43bd8dcint);
    primality::lemma_square(0x6e2de1e253b630ab90fb6c14c9913e3f79353ced1be9c68ed42e7ee18b96074eint,
        0x124da24edc83f5c27fbb4bef1db6f0054ed2a2a1int, field_modulus(),
        0x510e95326e8e67d073b7d7c5bf1ec41b8d8087b99ccdcd8ef80e0303d43bd8dcint,
        0x812469e1b68da15c46fd080044d228ed0296e50de83e1fbe2c75ce4f51a50ffint);
    primality::lemma_square(0x6e2de1e253b630ab90fb6c14c9913e3f79353ced1be9c68ed42e7ee18b96074eint,
        0x249b449db907eb84ff7697de3b6de00a9da54542int, field_modulus(),
        0x812469e1b68da15c46fd080044d228ed0296e50de83e1fbe2c75ce4f51a50ffint,
        0xa6e8071f940f884e54a7a018a9b2488fc4bf3105a4a9674afb35dc9598cd5bfbint);
    primality::lemma_square_multiply(0x6e2de1e253b630ab90fb6c14c9913e3f79353ced1be9c68ed42e7ee18b96074eint,
        0x4936893b720fd709feed2fbc76dbc0153b4a8a84int, field_modulus(),
        0xa6e8071f940f884e54a7a018a9b2488fc4bf3105a4a9674afb35dc9598cd5bfbint, 1);
}

/// The field modulus is prime.
pub proof fn lemma_field_modulus_prime()
    ensures
        primes::is_prime(field_modulus()),
{
    lemma_prime_160_bits_241();
    field_modulus_prime_power_1_1();
    field_modulus_prime_power_1_2();
    field_modulus_prime_power_1_3();
    primality::lemma_factors(field_modulus(), 0x926d1276e41fae13fdda5f78edb7802a76951509int,
        0x6e2de1e253b630ab90fb6c14c9913e3f79353ced1be9c68ed42e7ee18b96074eint,
        0x4f5b418eca523fb75369a24772ba6e620c00261d7f768df08143595c559af3ceint);
    primality::lemma_prime(field_modulus(), 0x926d1276e41fae13fdda5f78edb7802a76951509int);
}

proof fn lemma_prime_43()
    ensures
        primes::is_prime(43),
{
    assert(primality::no_divisor_to(43, 1));
    assert(primality::no_divisor_to(43, 2));
    assert(primality::no_divisor_to(43, 3));
    assert(primality::no_divisor_to(43, 4));
    assert(primality::no_divisor_to(43, 5));
    assert(primality::no_divisor_to(43, 6));
    primality::lemma_small_prime(43, 6);
}

proof fn lemma_prime_7()
    ensures
        primes::is_prime(7),
{
    assert(primality::no_divisor_to(7, 1));
    assert(primality::no_divisor_to(7, 2));
    primality::lemma_small_prime(7, 2);
}

proof fn prime_155317_power_1_1()
    ensures
        primality::power_is(0x5c50, 43, 0x25eb5, 1),
{
    primality::lemma_first_power(0x5c50, 0x25eb5);
    primality::lemma_square(0x5c50, 1, 0x25eb5, 0x5c50, 0x1a139);
    primality::lemma_square_multiply(0x5c50, 2, 0x25eb5, 0x1a139, 0x2876);
    primality::lemma_square(0x5c50, 5, 0x25eb5, 0x2876, 0x1d28a);
    primality::lemma_square_multiply(0x5c50, 10, 0x25eb5, 0x1d28a, 0x67cf);
    primality::lemma_square_multiply(0x5c50, 21, 0x25eb5, 0x67cf, 1);
}

proof fn prime_155317_power_4_1()
    ensures
        primality::power_is(0x3f5f, 7, 0x25eb5, 1),
{
    primality::lemma_first_power(0x3f5f, 0x25eb5);
    primality::lemma_square_multiply(0x3f5f, 1, 0x25eb5, 0x3f5f, 0x13daa);
    primality::lemma_square_multiply(0x3f5f, 3, 0x25eb5, 0x13daa, 1);
}

proof fn prime_155317_power_7_1()
    ensures
        primality::power_is(0xcf21, 3, 0x25eb5, 1),
{
    primality::lemma_first_power(0xcf21, 0x25eb5);
    primality::lemma_square_multiply(0xcf21, 1, 0x25eb5, 0xcf21, 1);
}

proof fn lemma_prime_155317()
    ensures
        primes::is_prime(0x25eb5),
{
    lemma_prime_43();
    prime_155317_power_1_1();
    primality::lemma_factors(0x25eb5, 43, 0x5c50, 0x2426a);
    lemma_prime_7();
    prime_155317_power_4_1();
    primality::lemma_factors(0x25eb5, 7, 0x3f5f, 450);
    primality::lemma_factors_product(0x25eb5, 43, 7);
    lemma_prime_3();
    prime_155317_power_7_1();
    primality::lemma_factors(0x25eb5, 3, 0xcf21, 0x14f6d);
    primality::lemma_factors_product(0x25eb5, 301, 3);
    primality::lemma_prime(0x25eb5, 903);
}

proof fn prime_191039911_power_1_1()
    ensures
        primality::power_is(0x48b6081, 0x25eb5, 0xb6309a7, 1),
{
    primality::lemma_first_power(0x48b6081, 0xb6309a7);
    primality::lemma_square(0x48b6081, 1, 0xb6309a7, 0x48b6081, 0x137d2fe);
    primality::lemma_square(0x48b6081, 2, 0xb6309a7, 0x137d2fe, 0x1d4c19e);
    primality::lemma_square_multiply(0x48b6081, 4, 0xb6309a7, 0x1d4c19e, 0x45bf37c);
    primality::lemma_square(0x48b6081, 9, 0xb6309a7, 0x45bf37c, 0x9c136e4);
    primality::lemma_square_multiply(0x48b6081, 18, 0xb6309a7, 0x9c136e4, 0x20bbca8);
    primality::lemma_square_multiply(0x48b6081, 37, 0xb6309a7, 0x20bbca8, 0x95fb789);
    primality::lemma_square_multiply(0x48b6081, 75, 0xb6309a7, 0x95fb789, 0x1cf1c36);
    primality::lemma_square_multiply(0x48b6081, 151, 0xb6309a7, 0x1cf1c36, 0x2ea4d70);
    primality::lemma_square(0x48b6081, 303, 0xb6309a7, 0x2ea4d70, 0x7021e84);
    primality::lemma_square_multiply(0x48b6081, 606, 0xb6309a7, 0x7021e84, 0x5ca16eb);
    primality::lemma_square(0x48b6081, 1213, 0xb6309a7, 0x5ca16eb, 0xb0cf4f);
    primality::lemma_square_multiply(0x48b6081, 2426, 0xb6309a7, 0xb0cf4f, 0x92f2073);
    primality::lemma_square_multiply(0x48b6081, 4853, 0xb6309a7, 0x92f2073, 0x6124655);
    primality::lemma_square(0x48b6081, 9707, 0xb6309a7, 0x6124655, 0x48b9e22);
    primality::lemma_square_multiply(0x48b6081, 0x4bd6, 0xb6309a7, 0x48b9e22, 0x3a9e1b0);
    primality::lemma_square(0x48b6081, 0x97ad, 0xb6309a7, 0x3a9e1b0, 0x46c150);
    primality::lemma_square_multiply(0x48b6081, 0x12f5a, 0xb6309a7, 0x46c150, 1);
}

proof fn lemma_prime_191039911()
    ensures
        primes::is_prime(0xb6309a7),
{
    lemma_prime_155317();
    prime_191039911_power_1_1();
    primality::lemma_factors(0xb6309a7, 0x25eb5, 0x48b6081, 0x424d3b6);
    primality::lemma_prime(0xb6309a7, 0x25eb5);
}

proof fn lemma_prime_151()
    ensures
        primes::is_prime(151),
{
    assert(primality::no_divisor_to(151, 1));
    assert(primality::no_divisor_to(151, 2));
    assert(primality::no_divisor_to(151, 3));
    assert(primality::no_divisor_to(151, 4));
    assert(primality::no_divisor_to(151, 5));
    assert(primality::no_divisor_to(151, 6));
    assert(primality::no_divisor_to(151, 7));
    assert(primality::no_divisor_to(151, 8));
    assert(primality::no_divisor_to(151, 9));
    assert(primality::no_divisor_to(151, 10));
    assert(primality::no_divisor_to(151, 11));
    assert(primality::no_divisor_to(151, 12));
    primality::lemma_small_prime(151, 12);
}

proof fn prime_1511_power_1_1()
    ensures
        primality::power_is(1024, 151, 1511, 1),
{
    primality::lemma_first_power(1024, 1511);
    primality::lemma_square(1024, 1, 1511, 1024, 1453);
    primality::lemma_square(1024, 2, 1511, 1453, 342);
    primality::lemma_square_multiply(1024, 4, 1511, 342, 210);
    primality::lemma_square(1024, 9, 1511, 210, 281);
    primality::lemma_square_multiply(1024, 18, 1511, 281, 943);
    primality::lemma_square_multiply(1024, 37, 1511, 943, 425);
    primality::lemma_square_multiply(1024, 75, 1511, 425, 1);
}

proof fn lemma_prime_1511()
    ensures
        primes::is_prime(1511),
{
    lemma_prime_151();
    prime_1511_power_1_1();
    primality::lemma_factors(1511, 151, 1024, 418);
    primality::lemma_prime(1511, 151);
}

proof fn prime_3023_power_1_1()
    ensures
        primality::power_is(4, 1511, 3023, 1),
{
    primality::lemma_first_power(4, 3023);
    primality::lemma_square(4, 1, 3023, 4, 16);
    primality::lemma_square_multiply(4, 2, 3023, 16, 1024);
    primality::lemma_square_multiply(4, 5, 3023, 1024, 1403);
    primality::lemma_square_multiply(4, 11, 3023, 1403, 1744);
    primality::lemma_square_multiply(4, 23, 3023, 1744, 1592);
    primality::lemma_square(4, 47, 3023, 1592, 1190);
    primality::lemma_square(4, 94, 3023, 1190, 1336);
    primality::lemma_square_multiply(4, 188, 3023, 1336, 2281);
    primality::lemma_square_multiply(4, 377, 3023, 2281, 1512);
    primality::lemma_square_multiply(4, 755, 3023, 1512, 1);
}

proof fn lemma_prime_3023()
    ensures
        primes::is_prime(3023),
{
    lemma_prime_1511();
    prime_3023_power_1_1();
    primality::lemma_factors(3023, 1511, 4, 1008);
    primality::lemma_prime(3023, 1511);
}

proof fn prime_58_bits_979_power_1_1()
    ensures
        primality::power_is(0x13eb608199212c2, 0xb6309a7, 0x2e3802c35c7ed3b, 1),
{
    primality::lemma_first_power(0x13eb608199212c2, 0x2e3802c35c7ed3b);
    primality::lemma_square(0x13eb608199212c2, 1, 0x2e3802c35c7ed3b, 0x13eb608199212c2,
        0x28a0882740f950e);
    primality::lemma_square_multiply(0x13eb608199212c2, 2, 0x2e3802c35c7ed3b, 0x28a0882740f950e,
        0xb600e75719b2ec);
    primality::lemma_square_multiply(0x13eb608199212c2, 5, 0x2e3802c35c7ed3b, 0xb600e75719b2ec,
        0xc952d92ca78eea);
    primality::lemma_square(0x13eb608199212c2, 11, 0x2e3802c35c7ed3b, 0xc952d92ca78eea,
        0x2d123800db2a8b4);
    primality::lemma_square_multiply(0x13eb608199212c2, 22, 0x2e3802c35c7ed3b,
        0x2d123800db2a8b4, 0x7f0207e446b8ba);
    primality::lemma_square_multiply(0x13eb608199212c2, 45, 0x2e3802c35c7ed3b, 0x7f0207e446b8ba,
        0x1f7901608562b82);
    primality::lemma_square(0x13eb608199212c2, 91, 0x2e3802c35c7ed3b, 0x1f7901608562b82,
        0x2629a5c1b5824fb);
    primality::lemma_square(0x13eb608199212c2, 182, 0x2e3802c35c7ed3b, 0x2629a5c1b5824fb,
        0x1c43ae73708b6cd);
    primality::lemma_square(0x13eb608199212c2, 364, 0x2e3802c35c7ed3b, 0x1c43ae73708b6cd,
        0x28a333db162812f);
    primality::lemma_square_multiply(0x13eb608199212c2, 728, 0x2e3802c35c7ed3b,
        0x28a333db162812f, 0x26bd02d9a531b44);
    primality::lemma_square_multiply(0x13eb608199212c2, 1457, 0x2e3802c35c7ed3b,
        0x26bd02d9a531b44, 0x3db66240aa57ba);
    primality::lemma_square(0x13eb608199212c2, 2915, 0x2e3802c35c7ed3b, 0x3db66240aa57ba,
        0xdd88c646b00033);
    primality::lemma_square(0x13eb608199212c2, 5830, 0x2e3802c35c7ed3b, 0xdd88c646b00033,
        0x1bbd07f1ceb2d6);
    primality::lemma_square(0x13eb608199212c2, 0x2d8c, 0x2e3802c35c7ed3b, 0x1bbd07f1ceb2d6,
        0x26a470132175503);
    primality::lemma_square(0x13eb608199212c2, 0x5b18, 0x2e3802c35c7ed3b, 0x26a470132175503,
        0x1d81e3bddee16d0);
    primality::lemma_square_multiply(0x13eb608199212c2, 0xb630, 0x2e3802c35c7ed3b,
        0x1d81e3bddee16d0, 0x2da334183fd4d87);
    primality::lemma_square(0x13eb608199212c2, 0x16c61, 0x2e3802c35c7ed3b, 0x2da334183fd4d87,
        0x2bceaaca8e11c5e);
    primality::lemma_square(0x13eb608199212c2, 0x2d8c2, 0x2e3802c35c7ed3b, 0x2bceaaca8e11c5e,
        0x24c5d546adda776);
    primality::lemma_square_multiply(0x13eb608199212c2, 0x5b184, 0x2e3802c35c7ed3b,
        0x24c5d546adda776, 0x1d239f3aa020bec);
    primality::lemma_square_multiply(0x13eb608199212c2, 0xb6309, 0x2e3802c35c7ed3b,
        0x1d239f3aa020bec, 0xca3517bd51c322);
    primality::lemma_square(0x13eb608199212c2, 0x16c613, 0x2e3802c35c7ed3b, 0xca3517bd51c322,
        0x1a6d74859572dab);
    primality::lemma_square_multiply(0x13eb608199212c2, 0x2d8c26, 0x2e3802c35c7ed3b,
        0x1a6d74859572dab, 0x265a16388b29eb4);
    primality::lemma_square(0x13eb608199212c2, 0x5b184d, 0x2e3802c35c7ed3b, 0x265a16388b29eb4,
        0x2df9e78309df6a);
    primality::lemma_square(0x13eb608199212c2, 0xb6309a, 0x2e3802c35c7ed3b, 0x2df9e78309df6a,
        0x20676061b699320);
    primality::lemma_square_multiply(0x13eb608199212c2, 0x16c6134, 0x2e3802c35c7ed3b,
        0x20676061b699320, 0x236eb24d47d62f1);
    primality::lemma_square_multiply(0x13eb608199212c2, 0x2d8c269, 0x2e3802c35c7ed3b,
        0x236eb24d47d62f1, 0x60c5f3c1afd279);
    primality::lemma_square_multiply(0x13eb608199212c2, 0x5b184d3, 0x2e3802c35c7ed3b,
        0x60c5f3c1afd279, 1);
}

proof fn prime_58_bits_979_power_4_1()
    ensures
        primality::power_is(0x278744e714d9d32, 3023, 0x2e3802c35c7ed3b, 1),
{
    primality::lemma_first_power(0x278744e714d9d32, 0x2e3802c35c7ed3b);
    primality::lemma_square(0x278744e714d9d32, 1, 0x2e3802c35c7ed3b, 0x278744e714d9d32,
        0x1828cdd568540b5);
    primality::lemma_square_multiply(0x278744e714d9d32, 2, 0x2e3802c35c7ed3b, 0x1828cdd568540b5,
        0x23ef6b46aa333d9);
    primality::lemma_square_multiply(0x278744e714d9d32, 5, 0x2e3802c35c7ed3b, 0x23ef6b46aa333d9,
        0x10c6a089b9bdbfb);
    primality::lemma_square_multiply(0x278744e714d9d32, 11, 0x2e3802c35c7ed3b,
        0x10c6a089b9bdbfb, 0xca6ff2b12ecd04);
    primality::lemma_square_multiply(0x278744e714d9d32, 23, 0x2e3802c35c7ed3b, 0xca6ff2b12ecd04,
        0x62187c843ea846);
    primality::lemma_square(0x278744e714d9d32, 47, 0x2e3802c35c7ed3b, 0x62187c843ea846,
        0x2abde9434692919);
    primality::lemma_square(0x278744e714d9d32, 94, 0x2e3802c35c7ed3b, 0x2abde9434692919,
        0x6f5f281324934f);
    primality::lemma_square_multiply(0x278744e714d9d32, 188, 0x2e3802c35c7ed3b,
        0x6f5f281324934f, 0x295671a252da89e);
    primality::lemma_square_multiply(0x278744e714d9d32, 377, 0x2e3802c35c7ed3b,
        0x295671a252da89e, 0x2606f59cfe0ad);
    primality::lemma_square_multiply(0x278744e714d9d32, 755, 0x2e3802c35c7ed3b, 0x2606f59cfe0ad,
        0x8e56e6f06112d9);
    primality::lemma_square_multiply(0x278744e714d9d32, 1511, 0x2e3802c35c7ed3b,
        0x8e56e6f06112d9, 1);
}

proof fn lemma_prime_58_bits_979()
    ensures
        primes::is_prime(0x2e3802c35c7ed3b),
{
    lemma_prime_191039911();
    prime_58_bits_979_power_1_1();
    primality::lemma_factors(0x2e3802c35c7ed3b, 0xb6309a7, 0x13eb608199212c2, 0x1db8cf470f45437);
    lemma_prime_3023();
    prime_58_bits_979_power_4_1();
    primality::lemma_factors(0x2e3802c35c7ed3b, 3023, 0x278744e714d9d32, 0xf8b5a170b33cbe);
    primality::lemma_factors_product(0x2e3802c35c7ed3b, 0xb6309a7, 3023);
    primality::lemma_prime(0x2e3802c35c7ed3b, 0x86767efb09);
}

proof fn prime_92_bits_953_power_1_1()
    ensures
        primality::power_is(0x7abdbdcd50b580e230e79int, 0x2e3802c35c7ed3b,
            0x87b23e9d09d3e637b2aa341int, 1),
{
    primality::lemma_first_power(0x7abdbdcd50b580e230e79int, 0x87b23e9d09d3e637b2aa341int);
    primality::lemma_square(0x7abdbdcd50b580e230e79int, 1, 0x87b23e9d09d3e637b2aa341int,
        0x7abdbdcd50b580e230e79int, 0x4176f414a47023b4dc67e9fint);
    primality::lemma_square_multiply(0x7abdbdcd50b580e230e79int, 2,
        0x87b23e9d09d3e637b2aa341int, 0x4176f414a47023b4dc67e9fint, 0x743836039c7b937dd408904int);
    primality::lemma_square_multiply(0x7abdbdcd50b580e230e79int, 5,
        0x87b23e9d09d3e637b2aa341int, 0x743836039c7b937dd408904int, 0x85b565a272da0b0fcfc6758int);
    primality::lemma_square_multiply(0x7abdbdcd50b580e230e79int, 11,
        0x87b23e9d09d3e637b2aa341int, 0x85b565a272da0b0fcfc6758int, 0x3e53e11cedef4bcbe9a03f7int);
    primality::lemma_square(0x7abdbdcd50b580e230e79int, 23, 0x87b23e9d09d3e637b2aa341int,
        0x3e53e11cedef4bcbe9a03f7int, 0x74e97154ac203ecd55a9f22int);
    primality::lemma_square(0x7abdbdcd50b580e230e79int, 46, 0x87b23e9d09d3e637b2aa341int,
        0x74e97154ac203ecd55a9f22int, 0x8762a058f8c65bb0859d720int);
    primality::lemma_square(0x7abdbdcd50b580e230e79int, 92, 0x87b23e9d09d3e637b2aa341int,
        0x8762a058f8c65bb0859d720int, 0x1d82692e657ac6290d660d9int);
    primality::lemma_square_multiply(0x7abdbdcd50b580e230e79int, 184,
        0x87b23e9d09d3e637b2aa341int, 0x1d82692e657ac6290d660d9int, 0x64934306575e74613652e4cint);
    primality::lemma_square_multiply(0x7abdbdcd50b580e230e79int, 369,
        0x87b23e9d09d3e637b2aa341int, 0x64934306575e74613652e4cint, 0x5da4c215196286a1db13dfaint);
    primality::lemma_square_multiply(0x7abdbdcd50b580e230e79int, 739,
        0x87b23e9d09d3e637b2aa341int, 0x5da4c215196286a1db13dfaint, 0x58761572eaea761ac73c9a4int);
    primality::lemma_square(0x7abdbdcd50b580e230e79int, 1479, 0x87b23e9d09d3e637b2aa341int,
        0x58761572eaea761ac73c9a4int, 0x144f739d0482193c3948c17int);
    primality::lemma_square(0x7abdbdcd50b580e230e79int, 2958, 0x87b23e9d09d3e637b2aa341int,
        0x144f739d0482193c3948c17int, 0x5ce6c85e7fb503e6cfe46c6int);
    primality::lemma_square(0x7abdbdcd50b580e230e79int, 5916, 0x87b23e9d09d3e637b2aa341int,
        0x5ce6c85e7fb503e6cfe46c6int, 0x4fb04d147e006b0168f75b9int);
    primality::lemma_square(0x7abdbdcd50b580e230e79int, 0x2e38, 0x87b23e9d09d3e637b2aa341int,
        0x4fb04d147e006b0168f75b9int, 0xdf66128a94add9a67749ccint);
    primality::lemma_square(0x7abdbdcd50b580e230e79int, 0x5c70, 0x87b23e9d09d3e637b2aa341int,
        0xdf66128a94add9a67749ccint, 0x62efdcd5333d83ccbe4888int);
    primality::lemma_square(0x7abdbdcd50b580e230e79int, 0xb8e0, 0x87b23e9d09d3e637b2aa341int,
        0x62efdcd5333d83ccbe4888int, 0x19d8d1bfb3ecd6570a614eaint);
    primality::lemma_square(0x7abdbdcd50b580e230e79int, 0x171c0, 0x87b23e9d09d3e637b2aa341int,
        0x19d8d1bfb3ecd6570a614eaint, 0x16a88805bf6c3820527c1ddint);
    primality::lemma_square(0x7abdbdcd50b580e230e79int, 0x2e380, 0x87b23e9d09d3e637b2aa341int,
        0x16a88805bf6c3820527c1ddint, 0x6c0345be60f9320dc58e825int);
    primality::lemma_square(0x7abdbdcd50b580e230e79int, 0x5c700, 0x87b23e9d09d3e637b2aa341int,
        0x6c0345be60f9320dc58e825int, 0x1ebea99a08a0abd9229bda4int);
    primality::lemma_square_multiply(0x7abdbdcd50b580e230e79int, 0xb8e00,
        0x87b23e9d09d3e637b2aa341int, 0x1ebea99a08a0abd9229bda4int, 0xb614bc3a50eb5a7185ff1dint);
    primality::lemma_square(0x7abdbdcd50b580e230e79int, 0x171c01, 0x87b23e9d09d3e637b2aa341int,
        0xb614bc3a50eb5a7185ff1dint, 0x498923a70a1dbba9a6f1160int);
    primality::lemma_square_multiply(0x7abdbdcd50b580e230e79int, 0x2e3802,
        0x87b23e9d09d3e637b2aa341int, 0x498923a70a1dbba9a6f1160int, 0x571507dd1b96f8d6c12f523int);
    primality::lemma_square_multiply(0x7abdbdcd50b580e230e79int, 0x5c7005,
        0x87b23e9d09d3e637b2aa341int, 0x571507dd1b96f8d6c12f523int, 0x187d7a1839cb95bacdc70f0int);
    primality::lemma_square(0x7abdbdcd50b580e230e79int, 0xb8e00b, 0x87b23e9d09d3e637b2aa341int,
        0x187d7a1839cb95bacdc70f0int, 0x34ea955fc8308387537551dint);
    primality::lemma_square(0x7abdbdcd50b580e230e79int, 0x171c016, 0x87b23e9d09d3e637b2aa341int,
        0x34ea955fc8308387537551dint, 0x409d714924dc8043c9c4bf6int);
    primality::lemma_square(0x7abdbdcd50b580e230e79int, 0x2e3802c, 0x87b23e9d09d3e637b2aa341int,
        0x409d714924dc8043c9c4bf6int, 0x50e429ec863aaaac4336f8int);
    primality::lemma_square(0x7abdbdcd50b580e230e79int, 0x5c70058, 0x87b23e9d09d3e637b2aa341int,
        0x50e429ec863aaaac4336f8int, 0x40497f25427075845a2c4c2int);
    primality::lemma_square_multiply(0x7abdbdcd50b580e230e79int, 0xb8e00b0,
        0x87b23e9d09d3e637b2aa341int, 0x40497f25427075845a2c4c2int, 0x727a3412c8a65ac1e444f64int);
    primality::lemma_square_multiply(0x7abdbdcd50b580e230e79int, 0x171c0161,
        0x87b23e9d09d3e637b2aa341int, 0x727a3412c8a65ac1e444f64int, 0x3505df3fb286d666881a40aint);
    primality::lemma_square(0x7abdbdcd50b580e230e79int, 0x2e3802c3,
        0x87b23e9d09d3e637b2aa341int, 0x3505df3fb286d666881a40aint, 0xd787d99cbd43cbd1f54f17int);
    primality::lemma_square_multiply(0x7abdbdcd50b580e230e79int, 0x5c700586,
        0x87b23e9d09d3e637b2aa341int, 0xd787d99cbd43cbd1f54f17int, 0x314295eaddcd94f06f0c2fint);
    primality::lemma_square(0x7abdbdcd50b580e230e79int, 0xb8e00b0d,
        0x87b23e9d09d3e637b2aa341int, 0x314295eaddcd94f06f0c2fint, 0x665fe186eefe4169ffbe9a1int);
    primality::lemma_square_multiply(0x7abdbdcd50b580e230e79int, 0x171c0161a,
        0x87b23e9d09d3e637b2aa341int, 0x665fe186eefe4169ffbe9a1int, 0x5e5ed8704e37b902121fe8cint);
    primality::lemma_square_multiply(0x7abdbdcd50b580e230e79int, 0x2e3802c35,
        0x87b23e9d09d3e637b2aa341int, 0x5e5ed8704e37b902121fe8cint, 0xc3ebac4a98a123cc59e0edint);
    primality::lemma_square_multiply(0x7abdbdcd50b580e230e79int, 0x5c700586b,
        0x87b23e9d09d3e637b2aa341int, 0xc3ebac4a98a123cc59e0edint, 0x67b8c143c68f3a8d7dda5a1int);
    primality::lemma_square(0x7abdbdcd50b580e230e79int, 0xb8e00b0d7,
        0x87b23e9d09d3e637b2aa341int, 0x67b8c143c68f3a8d7dda5a1int, 0x3c7733da5f8c7d69aa29511int);
    primality::lemma_square(0x7abdbdcd50b580e230e79int, 0x171c0161ae,
        0x87b23e9d09d3e637b2aa341int, 0x3c7733da5f8c7d69aa29511int, 0x49b903ff3ba91420bd67fa1int);
    primality::lemma_square(0x7abdbdcd50b580e230e79int, 0x2e3802c35c,
        0x87b23e9d09d3e637b2aa341int, 0x49b903ff3ba91420bd67fa1int, 0xeb9982dd8c50eebfa58a53int);
    primality::lemma_square_multiply(0x7abdbdcd50b580e230e79int, 0x5c700586b8,
        0x87b23e9d09d3e637b2aa341int, 0xeb9982dd8c50eebfa58a53int, 0x3aff75d4da8869fe934f019int);
    primality::lemma_square_multiply(0x7abdbdcd50b580e230e79int, 0xb8e00b0d71,
        0x87b23e9d09d3e637b2aa341int, 0x3aff75d4da8869fe934f019int, 0x3e1198c4f0417ea089fc25fint);
    primality::lemma_square_multiply(0x7abdbdcd50b580e230e79int, 0x171c0161ae3,
        0x87b23e9d09d3e637b2aa341int, 0x3e1198c4f0417ea089fc25fint, 0x64965e0d529365b422819b9int);
    primality::lemma_square_multiply(0x7abdbdcd50b580e230e79int, 0x2e3802c35c7,
        0x87b23e9d09d3e637b2aa341int, 0x64965e0d529365b422819b9int, 0x3a96af8661a3a5056513a6bint);
    primality::lemma_square_multiply(0x7abdbdcd50b580e230e79int, 0x5c700586b8f,
        0x87b23e9d09d3e637b2aa341int, 0x3a96af8661a3a5056513a6bint, 0x5e12105351ee68632e0791cint);
    primality::lemma_square_multiply(0x7abdbdcd50b580e230e79int, 0xb8e00b0d71f,
        0x87b23e9d09d3e637b2aa341int, 0x5e12105351ee68632e0791cint, 0x7247a81ead497120044409eint);
    primality::lemma_square(0x7abdbdcd50b580e230e79int, 0x171c0161ae3f,
        0x87b23e9d09d3e637b2aa341int, 0x7247a81ead497120044409eint, 0x561108f65fe6df43c703e68int);
    primality::lemma_square_multiply(0x7abdbdcd50b580e230e79int, 0x2e3802c35c7e,
        0x87b23e9d09d3e637b2aa341int, 0x561108f65fe6df43c703e68int, 0x627533e3d65ded388b7e2a9int);
    primality::lemma_square_multiply(0x7abdbdcd50b580e230e79int, 0x5c700586b8fd,
        0x87b23e9d09d3e637b2aa341int, 0x627533e3d65ded388b7e2a9int, 0x2a17fc61d47852c618791f2int);
    primality::lemma_square(0x7abdbdcd50b580e230e79int, 0xb8e00b0d71fb,
        0x87b23e9d09d3e637b2aa341int, 0x2a17fc61d47852c618791f2int, 0x65f2255fe77bbea8448eee2int);
    primality::lemma_square_multiply(0x7abdbdcd50b580e230e79int, 0x171c0161ae3f6,
        0x87b23e9d09d3e637b2aa341int, 0x65f2255fe77bbea8448eee2int, 0x2d743be682427a2aaebe852int);
    primality::lemma_square(0x7abdbdcd50b580e230e79int, 0x2e3802c35c7ed,
        0x87b23e9d09d3e637b2aa341int, 0x2d743be682427a2aaebe852int, 0x1bab60784a2fca8e03ad526int);
    primality::lemma_square(0x7abdbdcd50b580e230e79int, 0x5c700586b8fda,
        0x87b23e9d09d3e637b2aa341int, 0x1bab60784a2fca8e03ad526int, 0x325604c1a59987705f456f9int);
    primality::lemma_square_multiply(0x7abdbdcd50b580e230e79int, 0xb8e00b0d71fb4,
        0x87b23e9d09d3e637b2aa341int, 0x325604c1a59987705f456f9int, 0x649e13822a93c9500bbc774int);
    primality::lemma_square_multiply(0x7abdbdcd50b580e230e79int, 0x171c0161ae3f69,
        0x87b23e9d09d3e637b2aa341int, 0x649e13822a93c9500bbc774int, 0x2497e9078ee6a975645bfa3int);
    primality::lemma_square_multiply(0x7abdbdcd50b580e230e79int, 0x2e3802c35c7ed3,
        0x87b23e9d09d3e637b2aa341int, 0x2497e9078ee6a975645bfa3int, 0x6137bdea165c6bed9454d6dint);
    primality::lemma_square(0x7abdbdcd50b580e230e79int, 0x5c700586b8fda7,
        0x87b23e9d09d3e637b2aa341int, 0x6137bdea165c6bed9454d6dint, 0x42de6d18b1e5d0f00ab791cint);
    primality::lemma_square_multiply(0x7abdbdcd50b580e230e79int, 0xb8e00b0d71fb4e,
        0x87b23e9d09d3e637b2aa341int, 0x42de6d18b1e5d0f00ab791cint, 0x6567a02b7f2cec207972300int);
    primality::lemma_square_multiply(0x7abdbdcd50b580e230e79int, 0x171c0161ae3f69d,
        0x87b23e9d09d3e637b2aa341int, 0x6567a02b7f2cec207972300int, 1);
}

proof fn lemma_prime_92_bits_953()
    ensures
        primes::is_prime(0x87b23e9d09d3e637b2aa341int),
{
    lemma_prime_58_bits_979();
    prime_92_bits_953_power_1_1();
    primality::lemma_factors(0x87b23e9d09d3e637b2aa341int, 0x2e3802c35c7ed3b,
        0x7abdbdcd50b580e230e79int, 0x693de961c10a589c336a85aint);
    primality::lemma_prime(0x87b23e9d09d3e637b2aa341int, 0x2e3802c35c7ed3b);
}

proof fn lemma_prime_337()
    ensures
        primes::is_prime(337),
{
    assert(primality::no_divisor_to(337, 1));
    assert(primality::no_divisor_to(337, 2));
    assert(primality::no_divisor_to(337, 3));
    assert(primality::no_divisor_to(337, 4));
    assert(primality::no_divisor_to(337, 5));
    assert(primality::no_divisor_to(337, 6));
    assert(primality::no_divisor_to(337, 7));
    assert(primality::no_divisor_to(337, 8));
    assert(primality::no_divisor_to(337, 9));
    assert(primality::no_divisor_to(337, 10));
    assert(primality::no_divisor_to(337, 11));
    assert(primality::no_divisor_to(337, 12));
    assert(primality::no_divisor_to(337, 13));
    assert(primality::no_divisor_to(337, 14));
    assert(primality::no_divisor_to(337, 15));
    assert(primality::no_divisor_to(337, 16));
    assert(primality::no_divisor_to(337, 17));
    assert(primality::no_divisor_to(337, 18));
    primality::lemma_small_prime(337, 18);
}

proof fn prime_104471_power_1_1()
    ensures
        primality::power_is(0xa30b, 337, 0x19817, 1),
{
    primality::lemma_first_power(0xa30b, 0x19817);
    primality::lemma_square(0xa30b, 1, 0x19817, 0xa30b, 0x16054);
    primality::lemma_square_multiply(0xa30b, 2, 0x19817, 0x16054, 0x18987);
    primality::lemma_square(0xa30b, 5, 0x19817, 0x18987, 3341);
    primality::lemma_square_multiply(0xa30b, 10, 0x19817, 3341, 0x5a05);
    primality::lemma_square(0xa30b, 21, 0x19817, 0x5a05, 0xb36c);
    primality::lemma_square(0xa30b, 42, 0x19817, 0xb36c, 0xef42);
    primality::lemma_square(0xa30b, 84, 0x19817, 0xef42, 8890);
    primality::lemma_square_multiply(0xa30b, 168, 0x19817, 8890, 1);
}

proof fn lemma_prime_104471()
    ensures
        primes::is_prime(0x19817),
{
    lemma_prime_337();
    prime_104471_power_1_1();
    primality::lemma_factors(0x19817, 337, 0xa30b, 0x6c80);
    primality::lemma_prime(0x19817, 337);
}

proof fn prime_3969899_power_1_1()
    ensures
        primality::power_is(0x200bd8, 0x19817, 0x3c936b, 1),
{
    primality::lemma_first_power(0x200bd8, 0x3c936b);
    primality::lemma_square_multiply(0x200bd8, 1, 0x3c936b, 0x200bd8, 0x7d354);
    primality::lemma_square(0x200bd8, 3, 0x3c936b, 0x7d354, 0x34444c);
    primality::lemma_square(0x200bd8, 6, 0x3c936b, 0x34444c, 0x34136a);
    primality::lemma_square_multiply(0x200bd8, 12, 0x3c936b, 0x34136a, 0xa5eb9);
    primality::lemma_square_multiply(0x200bd8, 25, 0x3c936b, 0xa5eb9, 0x30cf57);
    primality::lemma_square(0x200bd8, 51, 0x3c936b, 0x30cf57, 0x30358c);
    primality::lemma_square(0x200bd8, 102, 0x3c936b, 0x30358c, 0x292166);
    primality::lemma_square(0x200bd8, 204, 0x3c936b, 0x292166, 0x6445a);
    primality::lemma_square(0x200bd8, 408, 0x3c936b, 0x6445a, 0xf6ebb);
    primality::lemma_square(0x200bd8, 816, 0x3c936b, 0xf6ebb, 0x370d19);
    primality::lemma_square(0x200bd8, 1632, 0x3c936b, 0x370d19, 0x1ac185);
    primality::lemma_square_multiply(0x200bd8, 3264, 0x3c936b, 0x1ac185, 0x3e2d);
    primality::lemma_square(0x200bd8, 6529, 0x3c936b, 0x3e2d, 0x318c94);
    primality::lemma_square_multiply(0x200bd8, 0x3302, 0x3c936b, 0x318c94, 0x22dce6);
    primality::lemma_square_multiply(0x200bd8, 0x6605, 0x3c936b, 0x22dce6, 0x2d781e);
    primality::lemma_square_multiply(0x200bd8, 0xcc0b, 0x3c936b, 0x2d781e, 1);
}

proof fn lemma_prime_3969899()
    ensures
        primes::is_prime(0x3c936b),
{
    lemma_prime_104471();
    prime_3969899_power_1_1();
    primality::lemma_factors(0x3c936b, 0x19817, 0x200bd8, 0x223c42);
    primality::lemma_prime(0x3c936b, 0x19817);
}

proof fn prime_40_bits_319_power_1_1()
    ensures
        primality::power_is(0x33a6dcaeab, 0x3c936b, 0xe95f681f97, 1),
{
    primality::lemma_first_power(0x33a6dcaeab, 0xe95f681f97);
    primality::lemma_square_multiply(0x33a6dcaeab, 1, 0xe95f681f97, 0x33a6dcaeab, 0x2fc1b816f4);
    primality::lemma_square_multiply(0x33a6dcaeab, 3, 0xe95f681f97, 0x2fc1b816f4, 0x2ac04ef0f);
    primality::lemma_square_multiply(0x33a6dcaeab, 7, 0xe95f681f97, 0x2ac04ef0f, 0x97694a8750);
    primality::lemma_square(0x33a6dcaeab, 15, 0xe95f681f97, 0x97694a8750, 0xc80f63bb96);
    primality::lemma_square(0x33a6dcaeab, 30, 0xe95f681f97, 0xc80f63bb96, 0x5d32040d79);
    primality::lemma_square_multiply(0x33a6dcaeab, 60, 0xe95f681f97, 0x5d32040d79, 0x7ab03beaa6);
    primality::lemma_square(0x33a6dcaeab, 121, 0xe95f681f97, 0x7ab03beaa6, 0x30d83d933d);
    primality::lemma_square(0x33a6dcaeab, 242, 0xe95f681f97, 0x30d83d933d, 0xe7a30a819a);
    primality::lemma_square_multiply(0x33a6dcaeab, 484, 0xe95f681f97, 0xe7a30a819a, 0xa9c2feeca);
    primality::lemma_square(0x33a6dcaeab, 969, 0xe95f681f97, 0xa9c2feeca, 0xe18e6fb539);
    primality::lemma_square(0x33a6dcaeab, 1938, 0xe95f681f97, 0xe18e6fb539, 0x44ae62a761);
    primality::lemma_square_multiply(0x33a6dcaeab, 3876, 0xe95f681f97, 0x44ae62a761, 0x9c9497933);
    primality::lemma_square_multiply(0x33a6dcaeab, 7753, 0xe95f681f97, 0x9c9497933, 0x5b8bdfda40);
    primality::lemma_square(0x33a6dcaeab, 0x3c93, 0xe95f681f97, 0x5b8bdfda40, 0x421862bbaa);
    primality::lemma_square_multiply(0x33a6dcaeab, 0x7926, 0xe95f681f97, 0x421862bbaa,
        0xc338ab20ff);
    primality::lemma_square_multiply(0x33a6dcaeab, 0xf24d, 0xe95f681f97, 0xc338ab20ff,
        0xbd748a06e5);
    primality::lemma_square(0x33a6dcaeab, 0x1e49b, 0xe95f681f97, 0xbd748a06e5, 0xd120efd58e);
    primality::lemma_square_multiply(0x33a6dcaeab, 0x3c936, 0xe95f681f97, 0xd120efd58e,
        0x2e21555bfa);
    primality::lemma_square(0x33a6dcaeab, 0x7926d, 0xe95f681f97, 0x2e21555bfa, 0xb5d328e9d0);
    primality::lemma_square_multiply(0x33a6dcaeab, 0xf24da, 0xe95f681f97, 0xb5d328e9d0,
        0x18f86cec85);
    primality::lemma_square_multiply(0x33a6dcaeab, 0x1e49b5, 0xe95f681f97, 0x18f86cec85, 1);
}

proof fn lemma_prime_40_bits_319()
    ensures
        primes::is_prime(0xe95f681f97),
{
    lemma_prime_3969899();
    prime_40_bits_319_power_1_1();
    primality::lemma_factors(0xe95f681f97, 0x3c936b, 0x33a6dcaeab, 0xa75f7d650b);
    primality::lemma_prime(0xe95f681f97, 0x3c936b);
}

proof fn group_order_prime_power_1_1()
    ensures
        primality::power_is(0xc0915601e1a4a1534a1b5bb0f18a5be8c8606856c8892723c90c7158d2e5baafint,
            0x10f647d3a13a7cc6fint, group_order(),
            0xd255f66f2485f329719f4ad5489b7bd264459614d156547fcd1973abb1e3c1e3int),
{
    primality::lemma_first_power(0xc0915601e1a4a1534a1b5bb0f18a5be8c8606856c8892723c90c7158d2e5baafint,
        group_order());
    primality::lemma_square(0xc0915601e1a4a1534a1b5bb0f18a5be8c8606856c8892723c90c7158d2e5baafint,
        1, group_order(), 0xc0915601e1a4a1534a1b5bb0f18a5be8c8606856c8892723c90c7158d2e5baafint,
        0x92c59530e863439e2eec20b420f28e96c720826bbf1fe21812dbf86e0207ca39int);
    primality::lemma_square(0xc0915601e1a4a1534a1b5bb0f18a5be8c8606856c8892723c90c7158d2e5baafint,
        2, group_order(), 0x92c59530e863439e2eec20b420f28e96c720826bbf1fe21812dbf86e0207ca39int,
        0xd2ee8f53ed3b3da32cfcf6cbae3d2422e7bf82276c917d40a781529412ad1299int);
    primality::lemma_square(0xc0915601e1a4a1534a1b5bb0f18a5be8c8606856c8892723c90c7158d2e5baafint,
        4, group_order(), 0xd2ee8f53ed3b3da32cfcf6cbae3d2422e7bf82276c917d40a781529412ad1299int,
        0x2152e5f89db30de5109c11b75b74c22f04cd3127ff77cd4814fc29fb41e1a129int);
    primality::lemma_square(0xc0915601e1a4a1534a1b5bb0f18a5be8c8606856c8892723c90c7158d2e5baafint,
        8, group_order(), 0x2152e5f89db30de5109c11b75b74c22f04cd3127ff77cd4814fc29fb41e1a129int,
        0x31a996aa839ad5cb7f12eb00d91e46229946106abde420484d44dc8082cd2793int);
    primality::lemma_square_multiply(0xc0915601e1a4a1534a1b5bb0f18a5be8c8606856c8892723c90c7158d2e5baafint,
        16, group_order(), 0x31a996aa839ad5cb7f12eb00d91e46229946106abde420484d44dc8082cd2793int,
        0x67df05b59151590112b0c921c6f18018fb21d358c70b7d45df013eb642e230a7int);
    primality::lemma_square_multiply(0xc0915601e1a4a1534a1b5bb0f18a5be8c8606856c8892723c90c7158d2e5baafint,
        33, group_order(), 0x67df05b59151590112b0c921c6f18018fb21d358c70b7d45df013eb642e230a7int,
        0x372f01f6a0a9ec29d0777813584018e1868ac597aa8cb97021de80d96109c604int);
    primality::lemma_square_multiply(0xc0915601e1a4a1534a1b5bb0f18a5be8c8606856c8892723c90c7158d2e5baafint,
        67, group_order(), 0x372f01f6a0a9ec29d0777813584018e1868ac597aa8cb97021de80d96109c604int,
        0xa8c0a8d88a8d05a5a79d022164b1c55c2ca4d3585576ba6e34e28b187f014724int);
    primality::lemma_square_multiply(0xc0915601e1a4a1534a1b5bb0f18a5be8c8606856c8892723c90c7158d2e5baafint,
        135, group_order(), 0xa8c0a8d88a8d05a5a79d022164b1c55c2ca4d3585576ba6e34e28b187f014724int,
        0x6d146c0020b7e6ab8924dabf9e0dcdefcb02dee7b5cb17c7a5334ec5fef7d844int);
    primality::lemma_square(0xc0915601e1a4a1534a1b5bb0f18a5be8c8606856c8892723c90c7158d2e5baafint,
        271, group_order(), 0x6d146c0020b7e6ab8924dabf9e0dcdefcb02dee7b5cb17c7a5334ec5fef7d844int,
        0xce950f0010980d4e7be256b11a9bc617c9cd8b9108ab9a09452d9a7967100c8int);
    primality::lemma_square_multiply(0xc0915601e1a4a1534a1b5bb0f18a5be8c8606856c8892723c90c7158d2e5baafint,
        542, group_order(), 0xce950f0010980d4e7be256b11a9bc617c9cd8b9108ab9a09452d9a7967100c8int,
        0x9e3fdbfc86339323fe929928ae7dee7cfcb1db971848533c7fcb70ba16a295dbint);
    primality::lemma_square_multiply(0xc0915601e1a4a1534a1b5bb0f18a5be8c8606856c8892723c90c7158d2e5baafint,
        1085, group_order(), 0x9e3fdbfc86339323fe929928ae7dee7cfcb1db971848533c7fcb70ba16a295dbint,
        0x434d52dc47f5695877a56088482c95e0fa8585684589ea67b28d45e00698084fint);
    primality::lemma_square(0xc0915601e1a4a1534a1b5bb0f18a5be8c8606856c8892723c90c7158d2e5baafint,
        2171, group_order(), 0x434d52dc47f5695877a56088482c95e0fa8585684589ea67b28d45e00698084fint,
        0xf24906e9b65a1873c334c9b88a2b3b09a2c0bf8d8b6ea7eb28aa67c962ec7740int);
    primality::lemma_square(0xc0915601e1a4a1534a1b5bb0f18a5be8c8606856c8892723c90c7158d2e5baafint,
        4342, group_order(), 0xf24906e9b65a1873c334c9b88a2b3b09a2c0bf8d8b6ea7eb28aa67c962ec7740int,
        0xa664e5a3eae6aaf3e785ca35efd8f4fbcff23d44a4bde0e493e65fd6dc52a425int);
    primality::lemma_square_multiply(0xc0915601e1a4a1534a1b5bb0f18a5be8c8606856c8892723c90c7158d2e5baafint,
        8684, group_order(), 0xa664e5a3eae6aaf3e785ca35efd8f4fbcff23d44a4bde0e493e65fd6dc52a425int,
        0x947ad9b9eefa7ea251a73a35d23f07f6d35798f589cc58a36e4432f43fdfc2eint);
    primality::lemma_square(0xc0915601e1a4a1534a1b5bb0f18a5be8c8606856c8892723c90c7158d2e5baafint,
        0x43d9, group_order(), 0x947ad9b9eefa7ea251a73a35d23f07f6d35798f589cc58a36e4432f43fdfc2eint,
        0x5cda150a4b41db5212bdf8d271331df4c92c5ad60a41c0f0c2459ea847d61762int);
    primality::lemma_square(0xc0915601e1a4a1534a1b5bb0f18a5be8c8606856c8892723c90c7158d2e5baafint,
        0x87b2, group_order(),
        0x5cda150a4b41db5212bdf8d271331df4c92c5ad60a41c0f0c2459ea847d61762int,
        0xb8ef0a62409c215bd6d54634d7a51b5fd50c4be3deb494075aa26f81f20ff196int);
    primality::lemma_square(0xc0915601e1a4a1534a1b5bb0f18a5be8c8606856c8892723c90c7158d2e5baafint,
        0x10f64, group_order(),
        0xb8ef0a62409c215bd6d54634d7a51b5fd50c4be3deb494075aa26f81f20ff196int,
        0x3022a9bb9075fe49673a29cfbae736a6b5e1f6c9993b7b787f38435d7af67e75int);
    primality::lemma_square_multiply(0xc0915601e1a4a1534a1b5bb0f18a5be8c8606856c8892723c90c7158d2e5baafint,
        0x21ec8, group_order(),
        0x3022a9bb9075fe49673a29cfbae736a6b5e1f6c9993b7b787f38435d7af67e75int,
        0x4f9714cbd3ddd0cf440c516b0ddb1a4f1b440ecd659fb340f1c261d0c3018cfbint);
    primality::lemma_square_multiply(0xc0915601e1a4a1534a1b5bb0f18a5be8c8606856c8892723c90c7158d2e5baafint,
        0x43d91, group_order(),
        0x4f9714cbd3ddd0cf440c516b0ddb1a4f1b440ecd659fb340f1c261d0c3018cfbint,
        0x35614f078ddac9a98b5088fb1ead750bae5853435acd5558e77d2b85437dd18aint);
    primality::lemma_square_multiply(0xc0915601e1a4a1534a1b5bb0f18a5be8c8606856c8892723c90c7158d2e5baafint,
        0x87b23, group_order(),
        0x35614f078ddac9a98b5088fb1ead750bae5853435acd5558e77d2b85437dd18aint,
        0x14d72a138b5bcc6b131c54d720adda66e062b48357f054a515af33d9bd7a2f3dint);
    primality::lemma_square_multiply(0xc0915601e1a4a1534a1b5bb0f18a5be8c8606856c8892723c90c7158d2e5baafint,
        0x10f647, group_order(),
        0x14d72a138b5bcc6b131c54d720adda66e062b48357f054a515af33d9bd7a2f3dint,
        0x9e2229a172f11c8f59d2cf8cd705e52de457955d719ee35c3ee4068bad860d1int);
    primality::lemma_square_multiply(0xc0915601e1a4a1534a1b5bb0f18a5be8c8606856c8892723c90c7158d2e5baafint,
        0x21ec8f, group_order(),
        0x9e2229a172f11c8f59d2cf8cd705e52de457955d719ee35c3ee4068bad860d1int,
        0xa55e91a2261924cae6b977a401921f7e1563b89c2998118d4d8b3bdcfa82f89bint);
    primality::lemma_square(0xc0915601e1a4a1534a1b5bb0f18a5be8c8606856c8892723c90c7158d2e5baafint,
        0x43d91f, group_order(),
        0xa55e91a2261924cae6b977a401921f7e1563b89c2998118d4d8b3bdcfa82f89bint,
        0xa65f4dda491275360b3ef9da140ca70c526382bc6347978c4e8927cf82138dc4int);
    primality::lemma_square_multiply(0xc0915601e1a4a1534a1b5bb0f18a5be8c8606856c8892723c90c7158d2e5baafint,
        0x87b23e, group_order(),
        0xa65f4dda491275360b3ef9da140ca70c526382bc6347978c4e8927cf82138dc4int,
        0x2470a31805b1ac020645201a1576ed7307156d15ed9b85b9c8520791e62b4ff4int);
    primality::lemma_square(0xc0915601e1a4a1534a1b5bb0f18a5be8c8606856c8892723c90c7158d2e5baafint,
        0x10f647d, group_order(),
        0x2470a31805b1ac020645201a1576ed7307156d15ed9b85b9c8520791e62b4ff4int,
        0x3309fed8f5f388ce26eb003b3c923004b588a1210bdc5b5b5da227599ebc2c6bint);
    primality::lemma_square(0xc0915601e1a4a1534a1b5bb0f18a5be8c8606856c8892723c90c7158d2e5baafint,
        0x21ec8fa, group_order(),
        0x3309fed8f5f388ce26eb003b3c923004b588a1210bdc5b5b5da227599ebc2c6bint,
        0x15e33a7dc7e373d42ccdd605ae2fbe789b39078a93caeae553b99694e3a927adint);
    primality::lemma_square_multiply(0xc0915601e1a4a1534a1b5bb0f18a5be8c8606856c8892723c90c7158d2e5baafint,
        0x43d91f4, group_order(),
        0x15e33a7dc7e373d42ccdd605ae2fbe789b39078a93caeae553b99694e3a927adint,
        0x5a8614d5c9c8d2653da2ff8333db9996c549059a157dd95d83d79596fcb438ccint);
    primality::lemma_square_multiply(0xc0915601e1a4a1534a1b5bb0f18a5be8c8606856c8892723c90c7158d2e5baafint,
        0x87b23e9, group_order(),
        0x5a8614d5c9c8d2653da2ff8333db9996c549059a157dd95d83d79596fcb438ccint,
        0xe793db7e77ad0cc5ba0ccb6025e33cd472b3d333f81c34f971c19cd293f85078int);
    primality::lemma_square_multiply(0xc0915601e1a4a1534a1b5bb0f18a5be8c8606856c8892723c90c7158d2e5baafint,
        0x10f647d3, group_order(),
        0xe793db7e77ad0cc5ba0ccb6025e33cd472b3d333f81c34f971c19cd293f85078int,
        0x578c146d25b0b3a5df005e254f02a59cb963f1e4782efc0e6e4444818ef9ee83int);
    primality::lemma_square(0xc0915601e1a4a1534a1b5bb0f18a5be8c8606856c8892723c90c7158d2e5baafint,
        0x21ec8fa7, group_order(),
        0x578c146d25b0b3a5df005e254f02a59cb963f1e4782efc0e6e4444818ef9ee83int,
        0xe7a808347abe041dbbe78b8556290dd769cc2bf8bedf8b4b3f69ad3e267686d7int);
    primality::lemma_square_multiply(0xc0915601e1a4a1534a1b5bb0f18a5be8c8606856c8892723c90c7158d2e5baafint,
        0x43d91f4e, group_order(),
        0xe7a808347abe041dbbe78b8556290dd769cc2bf8bedf8b4b3f69ad3e267686d7int,
        0x42f0fc80ad07b8f876bd04c1bb7df363d874d9d77f342c5a6f1cd35ee7ae1b3dint);
    primality::lemma_square(0xc0915601e1a4a1534a1b5bb0f18a5be8c8606856c8892723c90c7158d2e5baafint,
        0x87b23e9d, group_order(),
        0x42f0fc80ad07b8f876bd04c1bb7df363d874d9d77f342c5a6f1cd35ee7ae1b3dint,
        0x240f4a00e843e4469ad674ec149a1805d37cedb85bbfc0bc28e04207d2f64eeaint);
    primality::lemma_square(0xc0915601e1a4a1534a1b5bb0f18a5be8c8606856c8892723c90c7158d2e5baafint,
        0x10f647d3a, group_order(),
        0x240f4a00e843e4469ad674ec149a1805d37cedb85bbfc0bc28e04207d2f64eeaint,
        0x8632f8292bdf6bab35ff3b1becaca04e3cb3665975752672df2d1d5a94a93502int);
    primality::lemma_square(0xc0915601e1a4a1534a1b5bb0f18a5be8c8606856c8892723c90c7158d2e5baafint,
        0x21ec8fa74, group_order(),
        0x8632f8292bdf6bab35ff3b1becaca04e3cb3665975752672df2d1d5a94a93502int,
        0x87a0a1790f97f16d43dea7fc00c62d46b76798eec7730fe173b6435c3112e60fint);
    primality::lemma_square(0xc0915601e1a4a1534a1b5bb0f18a5be8c8606856c8892723c90c7158d2e5baafint,
        0x43d91f4e8, group_order(),
        0x87a0a1790f97f16d43dea7fc00c62d46b76798eec7730fe173b6435c3112e60fint,
        0x35a3f4016838869b599ebfcb3af30609199994399f8974a8a8ba66a0d99c27bfint);
    primality::lemma_square_multiply(0xc0915601e1a4a1534a1b5bb0f18a5be8c8606856c8892723c90c7158d2e5baafint,
        0x87b23e9d0, group_order(),
        0x35a3f4016838869b599ebfcb3af30609199994399f8974a8a8ba66a0d99c27bfint,
        0x3949aee0532fef37848864f2c0c4bc5a1035823551488db614bd9e85dbc508c7int);
    primality::lemma_square(0xc0915601e1a4a1534a1b5bb0f18a5be8c8606856c8892723c90c7158d2e5baafint,
        0x10f647d3a1, group_order(),
        0x3949aee0532fef37848864f2c0c4bc5a1035823551488db614bd9e85dbc508c7int,
        0x650e1193556df917932ca5454518eff3f911f0cb3ec40c719e07e43487063de4int);
    primality::lemma_square(0xc0915601e1a4a1534a1b5bb0f18a5be8c8606856c8892723c90c7158d2e5baafint,
        0x21ec8fa742, group_order(),
        0x650e1193556df917932ca5454518eff3f911f0cb3ec40c719e07e43487063de4int,
        0x44cf3eaf6b3756d693af648e619a0d27f732cce0e95357fd0d4910e21c2ff1d0int);
    primality::lemma_square_multiply(0xc0915601e1a4a1534a1b5bb0f18a5be8c8606856c8892723c90c7158d2e5baafint,
        0x43d91f4e84, group_order(),
        0x44cf3eaf6b3756d693af648e619a0d27f732cce0e95357fd0d4910e21c2ff1d0int,
        0x968807a84de4e7f88a292faca874a69a11347d75d597372e295c74737acd7c93int);
    primality::lemma_square_multiply(0xc0915601e1a4a1534a1b5bb0f18a5be8c8606856c8892723c90c7158d2e5baafint,
        0x87b23e9d09, group_order(),
        0x968807a84de4e7f88a292faca874a69a11347d75d597372e295c74737acd7c93int,
        0x91f1fa1a4a80c51d2d4ed3bb7d27d54d0bae777b670736e754f5413602cc0abfint);
    primality::lemma_square_multiply(0xc0915601e1a4a1534a1b5bb0f18a5be8c8606856c8892723c90c7158d2e5baafint,
        0x10f647d3a13, group_order(),
        0x91f1fa1a4a80c51d2d4ed3bb7d27d54d0bae777b670736e754f5413602cc0abfint,
        0x2a68a7bcfd2ff4a815064d3f5726f388c4fc0472d07700c804d4987f256352bbint);
    primality::lemma_square(0xc0915601e1a4a1534a1b5bb0f18a5be8c8606856c8892723c90c7158d2e5baafint,
        0x21ec8fa7427, group_order(),
        0x2a68a7bcfd2ff4a815064d3f5726f388c4fc0472d07700c804d4987f256352bbint,
        0x9977799f493b4353a054cdc07106597715c0ddcf116aecc7c3f053b1c3b2a255int);
    primality::lemma_square_multiply(0xc0915601e1a4a1534a1b5bb0f18a5be8c8606856c8892723c90c7158d2e5baafint,
        0x43d91f4e84e, group_order(),
        0x9977799f493b4353a054cdc07106597715c0ddcf116aecc7c3f053b1c3b2a255int,
        0x6bb00282387b39a707f2d4fc24e586f6b7b9481a37f74965a446a4a9dd3f2ff0int);
    primality::lemma_square(0xc0915601e1a4a1534a1b5bb0f18a5be8c8606856c8892723c90c7158d2e5baafint,
        0x87b23e9d09d, group_order(),
        0x6bb00282387b39a707f2d4fc24e586f6b7b9481a37f74965a446a4a9dd3f2ff0int,
        0xc3f83c531944a0881ac6cf4d593f759c1d24cfacba8b88e065aa0f5690c4a9c1int);
    primality::lemma_square(0xc0915601e1a4a1534a1b5bb0f18a5be8c8606856c8892723c90c7158d2e5baafint,
        0x10f647d3a13a, group_order(),
        0xc3f83c531944a0881ac6cf4d593f759c1d24cfacba8b88e065aa0f5690c4a9c1int,
        0xa1e0821bb62b6081fd4475489f165ccdd6b484c6c66369111e442418ffe50d3int);
    primality::lemma_square_multiply(0xc0915601e1a4a1534a1b5bb0f18a5be8c8606856c8892723c90c7158d2e5baafint,
        0x21ec8fa74274, group_order(),
        0xa1e0821bb62b6081fd4475489f165ccdd6b484c6c66369111e442418ffe50d3int,
        0xe2f5a9f7bb555ba89e03ecc254c7b1552dc9741089f4ea5a88a6d9cb01b9cdc6int);
    primality::lemma_square_multiply(0xc0915601e1a4a1534a1b5bb0f18a5be8c8606856c8892723c90c7158d2e5baafint,
        0x43d91f4e84e9, group_order(),
        0xe2f5a9f7bb555ba89e03ecc254c7b1552dc9741089f4ea5a88a6d9cb01b9cdc6int,
        0xfd57ae180207f23634790d1fa343229e1fd36bcdc300011f1e63720308aa9905int);
    primality::lemma_square_multiply(0xc0915601e1a4a1534a1b5bb0f18a5be8c8606856c8892723c90c7158d2e5baafint,
        0x87b23e9d09d3, group_order(),
        0xfd57ae180207f23634790d1fa343229e1fd36bcdc300011f1e63720308aa9905int,
        0xf5b2046fbe151a354097e2f6c7b51d4330554c4466a4e4b794ea839f0ea67ad4int);
    primality::lemma_square_multiply(0xc0915601e1a4a1534a1b5bb0f18a5be8c8606856c8892723c90c7158d2e5baafint,
        0x10f647d3a13a7, group_order(),
        0xf5b2046fbe151a354097e2f6c7b51d4330554c4466a4e4b794ea839f0ea67ad4int,
        0xce37944ad8e4f9b402b7270cce53be3fae0eeb8264dce7555d19b0b44f82ab56int);
    primality::lemma_square_multiply(0xc0915601e1a4a1534a1b5bb0f18a5be8c8606856c8892723c90c7158d2e5baafint,
        0x21ec8fa74274f, group_order(),
        0xce37944ad8e4f9b402b7270cce53be3fae0eeb8264dce7555d19b0b44f82ab56int,
        0xa38b4a033134eb9cbf902167fbc6f02a2a8e9991eaa26c0e03a994f9b0a6a7dcint);
    primality::lemma_square(0xc0915601e1a4a1534a1b5bb0f18a5be8c8606856c8892723c90c7158d2e5baafint,
        0x43d91f4e84e9f, group_order(),
        0xa38b4a033134eb9cbf902167fbc6f02a2a8e9991eaa26c0e03a994f9b0a6a7dcint,
        0x29cfd56ce2aed7486e8d382386a60b6390cb128b7a154b81f29d4b88c5439ac0int);
    primality::lemma_square(0xc0915601e1a4a1534a1b5bb0f18a5be8c8606856c8892723c90c7158d2e5baafint,
        0x87b23e9d09d3e, group_order(),
        0x29cfd56ce2aed7486e8d382386a60b6390cb128b7a154b81f29d4b88c5439ac0int,
        0xe6a34f5613b132301189e1dbf381a0362a67a716cebedf6a99e8086f59cc6d8dint);
    primality::lemma_square_multiply(0xc0915601e1a4a1534a1b5bb0f18a5be8c8606856c8892723c90c7158d2e5baafint,
        0x10f647d3a13a7c, group_order(),
        0xe6a34f5613b132301189e1dbf381a0362a67a716cebedf6a99e8086f59cc6d8dint,
        0xb9c8e161f4ca0521a73afb4f90f204cf604195a72591f1507b6224542bda576fint);
    primality::lemma_square_multiply(0xc0915601e1a4a1534a1b5bb0f18a5be8c8606856c8892723c90c7158d2e5baafint,
        0x21ec8fa74274f9, group_order(),
        0xb9c8e161f4ca0521a73afb4f90f204cf604195a72591f1507b6224542bda576fint,
        0x643e854b12936b2e5cf88a62175d931d84ad0358c81d512915216d6bf69d62f1int);
    primality::lemma_square(0xc0915601e1a4a1534a1b5bb0f18a5be8c8606856c8892723c90c7158d2e5baafint,
        0x43d91f4e84e9f3, group_order(),
        0x643e854b12936b2e5cf88a62175d931d84ad0358c81d512915216d6bf69d62f1int,
        0x51a46b4895781dfea5628c08c48793d735c66bf147d28c27776269ac8ff97499int);
    primality::lemma_square(0xc0915601e1a4a1534a1b5bb0f18a5be8c8606856c8892723c90c7158d2e5baafint,
        0x87b23e9d09d3e6, group_order(),
        0x51a46b4895781dfea5628c08c48793d735c66bf147d28c27776269ac8ff97499int,
        0xafa6ae64deacb6bb57a6d9499263ced5cb04daf22365778d059aec61342c2a91int);
    primality::lemma_square(0xc0915601e1a4a1534a1b5bb0f18a5be8c8606856c8892723c90c7158d2e5baafint,
        0x10f647d3a13a7cc, group_order(),
        0xafa6ae64deacb6bb57a6d9499263ced5cb04daf22365778d059aec61342c2a91int,
        0x124064a9d011d999aace1269ad4fe854b919d673a1fd0df1325a7fcf8fd3baf3int);
    primality::lemma_square_multiply(0xc0915601e1a4a1534a1b5bb0f18a5be8c8606856c8892723c90c7158d2e5baafint,
        0x21ec8fa74274f98, group_order(),
        0x124064a9d011d999aace1269ad4fe854b919d673a1fd0df1325a7fcf8fd3baf3int,
        0xfc44da4a17cfbe478f03b4d92455a377d960d4d69f5afc0a27e1b60885313e65int);
    primality::lemma_square_multiply(0xc0915601e1a4a1534a1b5bb0f18a5be8c8606856c8892723c90c7158d2e5baafint,
        0x43d91f4e84e9f31, group_order(),
        0xfc44da4a17cfbe478f03b4d92455a377d960d4d69f5afc0a27e1b60885313e65int,
        0x13d061a59249a8e3c1b518610f2fb39112da90d40a88cf92ec2172543ccec8beint);
    primality::lemma_square(0xc0915601e1a4a1534a1b5bb0f18a5be8c8606856c8892723c90c7158d2e5baafint,
        0x87b23e9d09d3e63, group_order(),
        0x13d061a59249a8e3c1b518610f2fb39112da90d40a88cf92ec2172543ccec8beint,
        0x8bb0cb17096eefee801cdc53f2306102daabb5291131bdbb554aab8cf74442dint);
    primality::lemma_square_multiply(0xc0915601e1a4a1534a1b5bb0f18a5be8c8606856c8892723c90c7158d2e5baafint,
        0x10f647d3a13a7cc6, group_order(),
        0x8bb0cb17096eefee801cdc53f2306102daabb5291131bdbb554aab8cf74442dint,
        0x98fbb1449bc1222c4e242cc54086927d60706c07eb24ada895f0ff92a2c894f2int);
    primality::lemma_square_multiply(0xc0915601e1a4a1534a1b5bb0f18a5be8c8606856c8892723c90c7158d2e5baafint,
        0x21ec8fa74274f98d, group_order(),
        0x98fbb1449bc1222c4e242cc54086927d60706c07eb24ada895f0ff92a2c894f2int,
        0x9374a45be834b8c4c83412c14bc3e8cd0ef52dc02c7423460b87bcf48e54da49int);
    primality::lemma_square_multiply(0xc0915601e1a4a1534a1b5bb0f18a5be8c8606856c8892723c90c7158d2e5baafint,
        0x43d91f4e84e9f31b, group_order(),
        0x9374a45be834b8c4c83412c14bc3e8cd0ef52dc02c7423460b87bcf48e54da49int,
        0x9963cac218858e027431aa3066c1d5ab2a922e72e901f8419ddabb1e19e163ddint);
    primality::lemma_square_multiply(0xc0915601e1a4a1534a1b5bb0f18a5be8c8606856c8892723c90c7158d2e5baafint,
        0x87b23e9d09d3e637int, group_order(),
        0x9963cac218858e027431aa3066c1d5ab2a922e72e901f8419ddabb1e19e163ddint,
        0xd255f66f2485f329719f4ad5489b7bd264459614d156547fcd1973abb1e3c1e3int);
}

proof fn group_order_prime_power_1_2()
    requires
        primality::power_is(0xc0915601e1a4a1534a1b5bb0f18a5be8c8606856c8892723c90c7158d2e5baafint,
            0x10f647d3a13a7cc6fint, group_order(),
            0xd255f66f2485f329719f4ad5489b7bd264459614d156547fcd1973abb1e3c1e3int),
    ensures
        primality::power_is(0xc0915601e1a4a1534a1b5bb0f18a5be8c8606856c8892723c90c7158d2e5baafint,
            0x87b23e9d09d3e637b2aa341int, group_order(), 1),
{
    primality::lemma_square(0xc0915601e1a4a1534a1b5bb0f18a5be8c8606856c8892723c90c7158d2e5baafint,
        0x10f647d3a13a7cc6fint, group_order(),
        0xd255f66f2485f329719f4ad5489b7bd264459614d156547fcd1973abb1e3c1e3int,
        0x5f6d34766524fc1c78475e510889a13f42b462146ad6da5fa6e89931f4fbdb2fint);
    primality::lemma_square_multiply(0xc0915601e1a4a1534a1b5bb0f18a5be8c8606856c8892723c90c7158d2e5baafint,
        0x21ec8fa74274f98deint, group_order(),
        0x5f6d34766524fc1c78475e510889a13f42b462146ad6da5fa6e89931f4fbdb2fint,
        0x2fadcbfc49baa2966cf0ce51ffec39cc0f94b858c52e8142b58bb08db6c1fa53int);
    primality::lemma_square_multiply(0xc0915601e1a4a1534a1b5bb0f18a5be8c8606856c8892723c90c7158d2e5baafint,
        0x43d91f4e84e9f31bdint, group_order(),
        0x2fadcbfc49baa2966cf0ce51ffec39cc0f94b858c52e8142b58bb08db6c1fa53int,
        0x5fc19224908cfac9070673b23d18b8e9e6ebcef35a4be021668732d95b6ffecfint);
    primality::lemma_square(0xc0915601e1a4a1534a1b5bb0f18a5be8c8606856c8892723c90c7158d2e5baafint,
        0x87b23e9d09d3e637bint, group_order(),
        0x5fc19224908cfac9070673b23d18b8e9e6ebcef35a4be021668732d95b6ffecfint,
        0xfdff19aab16830df32b3fd9c61ca47072ca9cfadd45137c56d80b321d839b85fint);
    primality::lemma_square(0xc0915601e1a4a1534a1b5bb0f18a5be8c8606856c8892723c90c7158d2e5baafint,
        0x10f647d3a13a7cc6f6int, group_order(),
        0xfdff19aab16830df32b3fd9c61ca47072ca9cfadd45137c56d80b321d839b85fint,
        0x7763aea244c774b4d88953a72f20c4a06bb5730e4702621a192250ebe825b885int);
    primality::lemma_square_multiply(0xc0915601e1a4a1534a1b5bb0f18a5be8c8606856c8892723c90c7158d2e5baafint,
        0x21ec8fa74274f98decint, group_order(),
        0x7763aea244c774b4d88953a72f20c4a06bb5730e4702621a192250ebe825b885int,
        0x65109dd9c8bdab308fe64f7c93573a3853c15b31377f7476cc5ff1127653f2fcint);
    primality::lemma_square(0xc0915601e1a4a1534a1b5bb0f18a5be8c8606856c8892723c90c7158d2e5baafint,
        0x43d91f4e84e9f31bd9int, group_order(),
        0x65109dd9c8bdab308fe64f7c93573a3853c15b31377f7476cc5ff1127653f2fcint,
        0xd72270b67efba8248a0c340076f48b29f53ff9a71abd88923db6c64dda5d6b05int);
    primality::lemma_square_multiply(0xc0915601e1a4a1534a1b5bb0f18a5be8c8606856c8892723c90c7158d2e5baafint,
        0x87b23e9d09d3e637b2int, group_order(),
        0xd72270b67efba8248a0c340076f48b29f53ff9a71abd88923db6c64dda5d6b05int,
        0x4472e0e224f159f53853254fe5735042b80e3878f4df477ed226d5a17eacb171int);
    primality::lemma_square(0xc0915601e1a4a1534a1b5bb0f18a5be8c8606856c8892723c90c7158d2e5baafint,
        0x10f647d3a13a7cc6f65int, group_order(),
        0x4472e0e224f159f53853254fe5735042b80e3878f4df477ed226d5a17eacb171int,
        0x9f7669ebbc5dfa34c57fa4e998123c05c78ae665d50f448d612084f08e72064cint);
    primality::lemma_square_multiply(0xc0915601e1a4a1534a1b5bb0f18a5be8c8606856c8892723c90c7158d2e5baafint,
        0x21ec8fa74274f98decaint, group_order(),
        0x9f7669ebbc5dfa34c57fa4e998123c05c78ae665d50f448d612084f08e72064cint,
        0x67a1d8ebf5fed6bc79cc3654227a5f0020b26722538efa3ea03227d511db8b2eint);
    primality::lemma_square(0xc0915601e1a4a1534a1b5bb0f18a5be8c8606856c8892723c90c7158d2e5baafint,
        0x43d91f4e84e9f31bd95int, group_order(),
        0x67a1d8ebf5fed6bc79cc3654227a5f0020b26722538efa3ea03227d511db8b2eint,
        0x1810a13095788b6336838fd5cadad05b1e1b5d336c0c4e7270ab94076fd9a706int);
    primality::lemma_square_multiply(0xc0915601e1a4a1534a1b5bb0f18a5be8c8606856c8892723c90c7158d2e5baafint,
        0x87b23e9d09d3e637b2aint, group_order(),
        0x1810a13095788b6336838fd5cadad05b1e1b5d336c0c4e7270ab94076fd9a706int,
        0x4c05ca9501245bfb0ab00a9e62c072dfcbf1b47a4e2ada448bcb0d5cf5312fd8int);
    primality::lemma_square(0xc0915601e1a4a1534a1b5bb0f18a5be8c8606856c8892723c90c7158d2e5baafint,
        0x10f647d3a13a7cc6f655int, group_order(),
        0x4c05ca9501245bfb0ab00a9e62c072dfcbf1b47a4e2ada448bcb0d5cf5312fd8int,
        0x7028097c281a686aed77bcecb8d79fac9ff285c244dd8f54c52161864d0bf0ccint);
    primality::lemma_square_multiply(0xc0915601e1a4a1534a1b5bb0f18a5be8c8606856c8892723c90c7158d2e5baafint,
        0x21ec8fa74274f98decaaint, group_order(),
        0x7028097c281a686aed77bcecb8d79fac9ff285c244dd8f54c52161864d0bf0ccint,
        0x87a51809143a9157f0ccc1837dc1c6be3d2128e68c945300bf941a243cdd69bfint);
    primality::lemma_square(0xc0915601e1a4a1534a1b5bb0f18a5be8c8606856c8892723c90c7158d2e5baafint,
        0x43d91f4e84e9f31bd955int, group_order(),
        0x87a51809143a9157f0ccc1837dc1c6be3d2128e68c945300bf941a243cdd69bfint,
        0xf2b184c70772fc1b20a31644bf826b517dec321edd05e4c4eecb2b74dc09c831int);
    primality::lemma_square(0xc0915601e1a4a1534a1b5bb0f18a5be8c8606856c8892723c90c7158d2e5baafint,
        0x87b23e9d09d3e637b2aaint, group_order(),
        0xf2b184c70772fc1b20a31644bf826b517dec321edd05e4c4eecb2b74dc09c831int,
        0x74d0e5132bf96557b668f7dd4a5c4824299698a6fc5bd6bdfea2a52e4abc39bfint);
    primality::lemma_square(0xc0915601e1a4a1534a1b5bb0f18a5be8c8606856c8892723c90c7158d2e5baafint,
        0x10f647d3a13a7cc6f6554int, group_order(),
        0x74d0e5132bf96557b668f7dd4a5c4824299698a6fc5bd6bdfea2a52e4abc39bfint,
        0x68877e5411623614968693479116903514542384d2db4f8e3d3bdacaf738902eint);
    primality::lemma_square_multiply(0xc0915601e1a4a1534a1b5bb0f18a5be8c8606856c8892723c90c7158d2e5baafint,
        0x21ec8fa74274f98decaa8int, group_order(),
        0x68877e5411623614968693479116903514542384d2db4f8e3d3bdacaf738902eint,
        0x8c31785734ed18c44ae8380604491908d93e27c987674c38f57f95ada1e62e2dint);
    primality::lemma_square_multiply(0xc0915601e1a4a1534a1b5bb0f18a5be8c8606856c8892723c90c7158d2e5baafint,
        0x43d91f4e84e9f31bd9551int, group_order(),
        0x8c31785734ed18c44ae8380604491908d93e27c987674c38f57f95ada1e62e2dint,
        0x29d9b1cdb7a255f12d1ffe33dd1ced6eb465cb2891e376c0373cfb55a9287d4eint);
    primality::lemma_square(0xc0915601e1a4a1534a1b5bb0f18a5be8c8606856c8892723c90c7158d2e5baafint,
        0x87b23e9d09d3e637b2aa3int, group_order(),
        0x29d9b1cdb7a255f12d1ffe33dd1ced6eb465cb2891e376c0373cfb55a9287d4eint,
        0x2847d31b544c4a79bd809b44c74f2559101ee44e24350e9d4093017a45641beaint);
    primality::lemma_square_multiply(0xc0915601e1a4a1534a1b5bb0f18a5be8c8606856c8892723c90c7158d2e5baafint,
        0x10f647d3a13a7cc6f65546int, group_order(),
        0x2847d31b544c4a79bd809b44c74f2559101ee44e24350e9d4093017a45641beaint,
        0x6bc746b8de1d774817bf9cc7fd3960bd4c76b61d5f5c69607400a52c3dc16790int);
    primality::lemma_square(0xc0915601e1a4a1534a1b5bb0f18a5be8c8606856c8892723c90c7158d2e5baafint,
        0x21ec8fa74274f98decaa8dint, group_order(),
        0x6bc746b8de1d774817bf9cc7fd3960bd4c76b61d5f5c69607400a52c3dc16790int,
        0xdd13647c7942fc7cdcfa747ea78c3629f6715f4119a73a9dfe513b9608559a6fint);
    primality::lemma_square(0xc0915601e1a4a1534a1b5bb0f18a5be8c8606856c8892723c90c7158d2e5baafint,
        0x43d91f4e84e9f31bd9551aint, group_order(),
        0xdd13647c7942fc7cdcfa747ea78c3629f6715f4119a73a9dfe513b9608559a6fint,
        0x90b920ff319c35eec6584ea111ff3a19443eb94c24b92aee50c32a3c2c9c7aceint);
    primality::lemma_square(0xc0915601e1a4a1534a1b5bb0f18a5be8c8606856c8892723c90c7158d2e5baafint,
        0x87b23e9d09d3e637b2aa34int, group_order(),
        0x90b920ff319c35eec6584ea111ff3a19443eb94c24b92aee50c32a3c2c9c7aceint,
        0x4cea6b085f800dadd6318faa86c525c84eb9462ab1250b46c17c68d28876f4daint);
    primality::lemma_square(0xc0915601e1a4a1534a1b5bb0f18a5be8c8606856c8892723c90c7158d2e5baafint,
        0x10f647d3a13a7cc6f655468int, group_order(),
        0x4cea6b085f800dadd6318faa86c525c84eb9462ab1250b46c17c68d28876f4daint,
        0xb2be2c2eca3b79dd63f707966af89aa3aeb46e8249a3fa9c090f621559d5b80bint);
    primality::lemma_square(0xc0915601e1a4a1534a1b5bb0f18a5be8c8606856c8892723c90c7158d2e5baafint,
        0x21ec8fa74274f98decaa8d0int, group_order(),
        0xb2be2c2eca3b79dd63f707966af89aa3aeb46e8249a3fa9c090f621559d5b80bint,
        0xe3677be592ed7d2b3ae08a74adfb43c3e8f1c82632d8c699e89aadff556bcceaint);
    primality::lemma_square_multiply(0xc0915601e1a4a1534a1b5bb0f18a5be8c8606856c8892723c90c7158d2e5baafint,
        0x43d91f4e84e9f31bd9551a0int, group_order(),
        0xe3677be592ed7d2b3ae08a74adfb43c3e8f1c82632d8c699e89aadff556bcceaint, 1);
}

proof fn group_order_prime_power_4_1()
    ensures
        primality::power_is(0xa7a419086c4d06e3581581fc8cea9fd97004e8cbd03ae8c54ff7837cceee9919int,
            0xe95f681f97, group_order(), 1),
{
    primality::lemma_first_power(0xa7a419086c4d06e3581581fc8cea9fd97004e8cbd03ae8c54ff7837cceee9919int,
        group_order());
    primality::lemma_square_multiply(0xa7a419086c4d06e3581581fc8cea9fd97004e8cbd03ae8c54ff7837cceee9919int,
        1, group_order(), 0xa7a419086c4d06e3581581fc8cea9fd97004e8cbd03ae8c54ff7837cceee9919int,
        0xdd2ba844e6a8d5c8a819e5e8e140fbcd461156625f96b90a9970323361090676int);
    primality::lemma_square_multiply(0xa7a419086c4d06e3581581fc8cea9fd97004e8cbd03ae8c54ff7837cceee9919int,
        3, group_order(), 0xdd2ba844e6a8d5c8a819e5e8e140fbcd461156625f96b90a9970323361090676int,
        0x8bdafb757b66f6139a4101caf96e4dddcd370fd3874389634160cee199864e0dint);
    primality::lemma_square(0xa7a419086c4d06e3581581fc8cea9fd97004e8cbd03ae8c54ff7837cceee9919int,
        7, group_order(), 0x8bdafb757b66f6139a4101caf96e4dddcd370fd3874389634160cee199864e0dint,
        0xaa36b5ca190b279963c7f772f07a3987a94c851bc9dde417b20eb505762a4eedint);
    primality::lemma_square_multiply(0xa7a419086c4d06e3581581fc8cea9fd97004e8cbd03ae8c54ff7837cceee9919int,
        14, group_order(), 0xaa36b5ca190b279963c7f772f07a3987a94c851bc9dde417b20eb505762a4eedint,
        0x3888a2bd0307208289c70b5fe31336dd9dffe14b8e2b76b67b736599f108817fint);
    primality::lemma_square(0xa7a419086c4d06e3581581fc8cea9fd97004e8cbd03ae8c54ff7837cceee9919int,
        29, group_order(), 0x3888a2bd0307208289c70b5fe31336dd9dffe14b8e2b76b67b736599f108817fint,
        0xcd86b7481d993fd088104dd1c9ad7c11e0dd93e3fa20cf3d591e137bf41cd72eint);
    primality::lemma_square(0xa7a419086c4d06e3581581fc8cea9fd97004e8cbd03ae8c54ff7837cceee9919int,
        58, group_order(), 0xcd86b7481d993fd088104dd1c9ad7c11e0dd93e3fa20cf3d591e137bf41cd72eint,
        0x865942438ed22835a4ab2607720c5aa7f52457e3b6db280c1edc67c53650af1cint);
    primality::lemma_square_multiply(0xa7a419086c4d06e3581581fc8cea9fd97004e8cbd03ae8c54ff7837cceee9919int,
        116, group_order(), 0x865942438ed22835a4ab2607720c5aa7f52457e3b6db280c1edc67c53650af1cint,
        0x115c70422e6f5b9aee875617c3e262723334cda4dd12b8c4b226de4effb14f79int);
    primality::lemma_square(0xa7a419086c4d06e3581581fc8cea9fd97004e8cbd03ae8c54ff7837cceee9919int,
        233, group_order(), 0x115c70422e6f5b9aee875617c3e262723334cda4dd12b8c4b226de4effb14f79int,
        0x8f16816f8425631a7e37b0896bfcba589f0c16983c10b6d622c21df1e297983cint);
    primality::lemma_square_multiply(0xa7a419086c4d06e3581581fc8cea9fd97004e8cbd03ae8c54ff7837cceee9919int,
        466, group_order(), 0x8f16816f8425631a7e37b0896bfcba589f0c16983c10b6d622c21df1e297983cint,
        0x366e317a33f3277bb3287f1ac740d01178c7225914b6c85770709193c2042f2int);
    primality::lemma_square(0xa7a419086c4d06e3581581fc8cea9fd97004e8cbd03ae8c54ff7837cceee9919int,
        933, group_order(), 0x366e317a33f3277bb3287f1ac740d01178c7225914b6c85770709193c2042f2int,
        0xa7c7613e4232f59b31776c4854458164b3ab3f0a2fbb743a97faca25398df9fdint);
    primality::lemma_square_multiply(0xa7a419086c4d06e3581581fc8cea9fd97004e8cbd03ae8c54ff7837cceee9919int,
        1866, group_order(), 0xa7c7613e4232f59b31776c4854458164b3ab3f0a2fbb743a97faca25398df9fdint,
        0xa0037d54d99917979abfd9f7e749cf8030a61a8d4c7710943eaa11ed28060cbeint);
    primality::lemma_square_multiply(0xa7a419086c4d06e3581581fc8cea9fd97004e8cbd03ae8c54ff7837cceee9919int,
        3733, group_order(), 0xa0037d54d99917979abfd9f7e749cf8030a61a8d4c7710943eaa11ed28060cbeint,
        0xce03783b3cbb37feab8c86c2ff7e88a6c28a2835af8906e3343992cc29e47416int);
    primality::lemma_square_multiply(0xa7a419086c4d06e3581581fc8cea9fd97004e8cbd03ae8c54ff7837cceee9919int,
        7467, group_order(), 0xce03783b3cbb37feab8c86c2ff7e88a6c28a2835af8906e3343992cc29e47416int,
        0xaa1e77efc06403967e524507d2e65d9dc3e7efdf48f6634eef7d78c2f3639908int);
    primality::lemma_square_multiply(0xa7a419086c4d06e3581581fc8cea9fd97004e8cbd03ae8c54ff7837cceee9919int,
        0x3a57, group_order(),
        0xaa1e77efc06403967e524507d2e65d9dc3e7efdf48f6634eef7d78c2f3639908int,
        0x87311c9574a8794e2db2e3fe05f895c568626ca4093aeef92fc0c44d4803dbffint);
    primality::lemma_square_multiply(0xa7a419086c4d06e3581581fc8cea9fd97004e8cbd03ae8c54ff7837cceee9919int,
        0x74af, group_order(),
        0x87311c9574a8794e2db2e3fe05f895c568626ca4093aeef92fc0c44d4803dbffint,
        0xe72f23cc227abd5ebc1e572c90a65d5f5b3e6580edac076197e8b5ec1ea0c668int);
    primality::lemma_square(0xa7a419086c4d06e3581581fc8cea9fd97004e8cbd03ae8c54ff7837cceee9919int,
        0xe95f, group_order(),
        0xe72f23cc227abd5ebc1e572c90a65d5f5b3e6580edac076197e8b5ec1ea0c668int,
        0xb4697ef865d00dc351faa6ab122af8c3d27800b3b5fc570db15327c24c79c49dint);
    primality::lemma_square_multiply(0xa7a419086c4d06e3581581fc8cea9fd97004e8cbd03ae8c54ff7837cceee9919int,
        0x1d2be, group_order(),
        0xb4697ef865d00dc351faa6ab122af8c3d27800b3b5fc570db15327c24c79c49dint,
        0xe809081ffb929e47dc4c18d86d5b8543a8b522d2d08f07ab04cd629a29db5637int);
    primality::lemma_square_multiply(0xa7a419086c4d06e3581581fc8cea9fd97004e8cbd03ae8c54ff7837cceee9919int,
        0x3a57d, group_order(),
        0xe809081ffb929e47dc4c18d86d5b8543a8b522d2d08f07ab04cd629a29db5637int,
        0x26aafa041ac44d78b16c3aa9d19b50aa732f952be499a5a67666b1976503d7abint);
    primality::lemma_square(0xa7a419086c4d06e3581581fc8cea9fd97004e8cbd03ae8c54ff7837cceee9919int,
        0x74afb, group_order(),
        0x26aafa041ac44d78b16c3aa9d19b50aa732f952be499a5a67666b1976503d7abint,
        0x5bfb7cc18aebf68f40290322c139ba7fdc43099e468f9fde32bdcf2db8017e1dint);
    primality::lemma_square_multiply(0xa7a419086c4d06e3581581fc8cea9fd97004e8cbd03ae8c54ff7837cceee9919int,
        0xe95f6, group_order(),
        0x5bfb7cc18aebf68f40290322c139ba7fdc43099e468f9fde32bdcf2db8017e1dint,
        0x2a913fbed959fd0518caacce391d41e61ff0bfe817a987aba3bcd2170309d084int);
    primality::lemma_square(0xa7a419086c4d06e3581581fc8cea9fd97004e8cbd03ae8c54ff7837cceee9919int,
        0x1d2bed, group_order(),
        0x2a913fbed959fd0518caacce391d41e61ff0bfe817a987aba3bcd2170309d084int,
        0x39ace538676240a46d921442321baff8d52c9e34f2a9c75e7cdd9d710bd0d410int);
    primality::lemma_square(0xa7a419086c4d06e3581581fc8cea9fd97004e8cbd03ae8c54ff7837cceee9919int,
        0x3a57da, group_order(),
        0x39ace538676240a46d921442321baff8d52c9e34f2a9c75e7cdd9d710bd0d410int,
        0x8b12a8254edf0285fb413b9389a01f3b2a121745415eb34b7f729eaf7046fb5dint);
    primality::lemma_square(0xa7a419086c4d06e3581581fc8cea9fd97004e8cbd03ae8c54ff7837cceee9919int,
        0x74afb4, group_order(),
        0x8b12a8254edf0285fb413b9389a01f3b2a121745415eb34b7f729eaf7046fb5dint,
        0x3317172a021265bea402552a11564464357ce1bd8c56f6f2e21a7f7cf5a1addfint);
    primality::lemma_square(0xa7a419086c4d06e3581581fc8cea9fd97004e8cbd03ae8c54ff7837cceee9919int,
        0xe95f68, group_order(),
        0x3317172a021265bea402552a11564464357ce1bd8c56f6f2e21a7f7cf5a1addfint,
        0x1827ae31cee2343d65758057593dc13ff552ceeb15f56d528f853e9b9386fbf1int);
    primality::lemma_square(0xa7a419086c4d06e3581581fc8cea9fd97004e8cbd03ae8c54ff7837cceee9919int,
        0x1d2bed0, group_order(),
        0x1827ae31cee2343d65758057593dc13ff552ceeb15f56d528f853e9b9386fbf1int,
        0xc00b96a0b69d3f905bd0f9cec85fc36f874b445ed8675aa44152c7d581173075int);
    primality::lemma_square(0xa7a419086c4d06e3581581fc8cea9fd97004e8cbd03ae8c54ff7837cceee9919int,
        0x3a57da0, group_order(),
        0xc00b96a0b69d3f905bd0f9cec85fc36f874b445ed8675aa44152c7d581173075int,
        0x7d970a0517a4f25d15b7bc11edf15e5f6c7090ab60fb525e7138f3197262127aint);
    primality::lemma_square_multiply(0xa7a419086c4d06e3581581fc8cea9fd97004e8cbd03ae8c54ff7837cceee9919int,
        0x74afb40, group_order(),
        0x7d970a0517a4f25d15b7bc11edf15e5f6c7090ab60fb525e7138f3197262127aint,
        0x53e04240f0944353849287bebab626bc41d772b053250430442038b2cded4a1dint);
    primality::lemma_square_multiply(0xa7a419086c4d06e3581581fc8cea9fd97004e8cbd03ae8c54ff7837cceee9919int,
        0xe95f681, group_order(),
        0x53e04240f0944353849287bebab626bc41d772b053250430442038b2cded4a1dint,
        0xb70b0cf6e1af8bfb3cf55818d80b952b25e5080c5fe883eec727b4427e81c277int);
    primality::lemma_square_multiply(0xa7a419086c4d06e3581581fc8cea9fd97004e8cbd03ae8c54ff7837cceee9919int,
        0x1d2bed03, group_order(),
        0xb70b0cf6e1af8bfb3cf55818d80b952b25e5080c5fe883eec727b4427e81c277int,
        0x3421589ef6490971107dd58df8ef4caa69cda086c4d1f1e62de1869e8335dbf1int);
    primality::lemma_square_multiply(0xa7a419086c4d06e3581581fc8cea9fd97004e8cbd03ae8c54ff7837cceee9919int,
        0x3a57da07, group_order(),
        0x3421589ef6490971107dd58df8ef4caa69cda086c4d1f1e62de1869e8335dbf1int,
        0xa793122ee223dbdd83f289a068ac283e9aa070adc643657c83873f922d6c6874int);
    primality::lemma_square_multiply(0xa7a419086c4d06e3581581fc8cea9fd97004e8cbd03ae8c54ff7837cceee9919int,
        0x74afb40f, group_order(),
        0xa793122ee223dbdd83f289a068ac283e9aa070adc643657c83873f922d6c6874int,
        0x9d406714bf23fb0b0e8532d3a9b11ddc2cfbe17fa0d6f16692385e1a36fc4831int);
    primality::lemma_square_multiply(0xa7a419086c4d06e3581581fc8cea9fd97004e8cbd03ae8c54ff7837cceee9919int,
        0xe95f681f, group_order(),
        0x9d406714bf23fb0b0e8532d3a9b11ddc2cfbe17fa0d6f16692385e1a36fc4831int,
        0x61d1ddf4221ae508ca72b6ba21a532bcd64fd3d19cd5b17f0a759b352b39f9f0int);
    primality::lemma_square(0xa7a419086c4d06e3581581fc8cea9fd97004e8cbd03ae8c54ff7837cceee9919int,
        0x1d2bed03f, group_order(),
        0x61d1ddf4221ae508ca72b6ba21a532bcd64fd3d19cd5b17f0a759b352b39f9f0int,
        0xb26190bb87b16517d43839f938f6c9235c92aebca9130400bf4fd4bf2028a243int);
    primality::lemma_square(0xa7a419086c4d06e3581581fc8cea9fd97004e8cbd03ae8c54ff7837cceee9919int,
        0x3a57da07e, group_order(),
        0xb26190bb87b16517d43839f938f6c9235c92aebca9130400bf4fd4bf2028a243int,
        0xbc77fbca722fc38f6d83828f1b60b48573230d8ae978419360bf7ac2e153937int);
    primality::lemma_square_multiply(0xa7a419086c4d06e3581581fc8cea9fd97004e8cbd03ae8c54ff7837cceee9919int,
        0x74afb40fc, group_order(),
        0xbc77fbca722fc38f6d83828f1b60b48573230d8ae978419360bf7ac2e153937int,
        0x9f1da5cc2c6f8129dbfe792124c3951f72eb8e65eccf0fe62014fcab62545af3int);
    primality::lemma_square(0xa7a419086c4d06e3581581fc8cea9fd97004e8cbd03ae8c54ff7837cceee9919int,
        0xe95f681f9, group_order(),
        0x9f1da5cc2c6f8129dbfe792124c3951f72eb8e65eccf0fe62014fcab62545af3int,
        0x31cc5782e85b722bc469e20bd15e3c844bbfc87a69852a51ac8c43488b0bea1dint);
    primality::lemma_square_multiply(0xa7a419086c4d06e3581581fc8cea9fd97004e8cbd03ae8c54ff7837cceee9919int,
        0x1d2bed03f2, group_order(),
        0x31cc5782e85b722bc469e20bd15e3c844bbfc87a69852a51ac8c43488b0bea1dint,
        0xebedd67603248c9c7b263326393ba7215d0cceae3e934a7e28cdd513198b40cbint);
    primality::lemma_square_multiply(0xa7a419086c4d06e3581581fc8cea9fd97004e8cbd03ae8c54ff7837cceee9919int,
        0x3a57da07e5, group_order(),
        0xebedd67603248c9c7b263326393ba7215d0cceae3e934a7e28cdd513198b40cbint,
        0x886dd57c93baea09cd3932080ee575a44e631adfbc9977def89247d0d7f3bf17int);
    primality::lemma_square_multiply(0xa7a419086c4d06e3581581fc8cea9fd97004e8cbd03ae8c54ff7837cceee9919int,
        0x74afb40fcb, group_order(),
        0x886dd57c93baea09cd3932080ee575a44e631adfbc9977def89247d0d7f3bf17int, 1);
}

/// The group order is prime.
pub proof fn lemma_group_order_prime()
    ensures
        primes::is_prime(group_order()),
{
    lemma_prime_92_bits_953();
    group_order_prime_power_1_1();
    group_order_prime_power_1_2();
    primality::lemma_factors(group_order(), 0x87b23e9d09d3e637b2aa341int,
        0xc0915601e1a4a1534a1b5bb0f18a5be8c8606856c8892723c90c7158d2e5baafint,
        0x72ca5f0d48545c9059c0d962203775545c6248bf5ec7809bba828ec3264e8033int);
    lemma_prime_40_bits_319();
    group_order_prime_power_4_1();
    primality::lemma_factors(group_order(), 0xe95f681f97,
        0xa7a419086c4d06e3581581fc8cea9fd97004e8cbd03ae8c54ff7837cceee9919int,
        0x154af5d0cc57479fbc9811f668d2d15a1df4a0b040822adf2503fef7b3e6719eint);
    primality::lemma_factors_product(group_order(), 0x87b23e9d09d3e637b2aa341int, 0xe95f681f97);
    primality::lemma_prime(group_order(), 0x7bb3cd535248061c0743b4aa841532a57int);
}

} // verus!
