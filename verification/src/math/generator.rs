//! The generator of the group, and its order.
//!
//! The multiples of the generator along an addition chain are given with the
//! slopes that lead from one to the next. The chain ends at the inverse of the
//! generator.
use crate::math::addition;
use crate::math::certificates;
use crate::math::curve;
use crate::math::curve::Point;
use crate::math::fp;
use crate::math::multiples;
use vstd::arithmetic::mul::*;
use vstd::prelude::*;

verus! {

/// The abscissa of the generator.
pub open spec fn x() -> int {
    0x6b17d1f2e12c4247f8bce6e563a440f277037d812deb33a0f4a13945d898c296int
}

/// The ordinate of the generator.
pub open spec fn y() -> int {
    0x4fe342e2fe1a7f9b8ee7eb4a7c0f9e162bce33576b315ececbb6406837bf51f5int
}

/// The generator.
pub open spec fn point() -> Point {
    Point::Affine { x: x(), y: y() }
}

/// The generator is on the curve.
pub proof fn lemma_on_curve()
    ensures
        curve::on_curve(point()),
{
    lemma_equation(
        0x6b17d1f2e12c4247f8bce6e563a440f277037d812deb33a0f4a13945d898c296int,
        0x4fe342e2fe1a7f9b8ee7eb4a7c0f9e162bce33576b315ececbb6406837bf51f5int,
        0x98f6b84d29bef2b281819a5e0e3690d833b699495d694dd1002ae56c426b3f8cint,
        0x55df5d5850f47bad82149139979369fe498a9022a412b5e0bedd2cfc21c3ed91int,
    );
}

/// The curve equation from remainders.
proof fn lemma_equation(x: int, y: int, h: int, w: int)
    requires
        (x * x) % certificates::field_modulus() == h,
        (h * x - 3 * x + curve::b()) % certificates::field_modulus() == w,
        (y * y) % certificates::field_modulus() == w,
    ensures
        curve::satisfies(x, y),
{
    fp::lemma_reduce(x * x);
    fp::lemma_reduce(y * y);
    fp::lemma_reduce(h * x - 3 * x + curve::b());
    fp::lemma_zero();
    fp::lemma_mul(x * x, h, x, x);
    fp::lemma_trans(curve::cubic(x), h * x - 3 * x + curve::b(), w);
    fp::lemma_shift(curve::cubic(x), w);
    fp::lemma_trans(y * y, w, curve::cubic(x));
}

/// A multiple of the generator has the given coordinates.
#[verifier::opaque]
spec fn multiple_is(k: int, x: int, y: int) -> bool {
    k >= 0 && curve::times(k as nat, point()) == (Point::Affine { x, y })
}

/// Doubles a multiple.
proof fn lemma_double(k: int, x: int, y: int, l: int, x3: int, y3: int)
    requires
        multiple_is(k, x, y),
        0 < y < certificates::field_modulus(),
        0 <= x < certificates::field_modulus(),
        0 <= x3 < certificates::field_modulus(),
        0 <= y3 < certificates::field_modulus(),
        (2 * y * l - (3 * (x * x) - 3)) % certificates::field_modulus() == 0,
        (x3 - (l * l - x - x)) % certificates::field_modulus() == 0,
        (y3 - (l * (x - x3) - y)) % certificates::field_modulus() == 0,
    ensures
        multiple_is(2 * k, x3, y3),
{
    reveal(multiple_is);
    lemma_on_curve();
    fp::lemma_vanishes(2 * y * l - (3 * (x * x) - 3));
    fp::lemma_vanishes(x3 - (l * l - x - x));
    fp::lemma_vanishes(y3 - (l * (x - x3) - y));
    addition::lemma_plus_is(x, y, x, y, l, x3, y3);
    multiples::lemma_times_add(k as nat, k as nat, point());
}

/// Adds two multiples.
proof fn lemma_join(
    j: int,
    k: int,
    x1: int,
    y1: int,
    x2: int,
    y2: int,
    l: int,
    x3: int,
    y3: int,
)
    requires
        multiple_is(j, x1, y1),
        multiple_is(k, x2, y2),
        0 <= x1 < certificates::field_modulus(),
        0 <= y1 < certificates::field_modulus(),
        0 <= x2 < certificates::field_modulus(),
        0 <= y2 < certificates::field_modulus(),
        0 <= x3 < certificates::field_modulus(),
        0 <= y3 < certificates::field_modulus(),
        x1 != x2,
        (y2 - y1 - l * (x2 - x1)) % certificates::field_modulus() == 0,
        (x3 - (l * l - x1 - x2)) % certificates::field_modulus() == 0,
        (y3 - (l * (x1 - x3) - y1)) % certificates::field_modulus() == 0,
    ensures
        multiple_is(j + k, x3, y3),
{
    reveal(multiple_is);
    lemma_on_curve();
    fp::lemma_vanishes(y2 - y1 - l * (x2 - x1));
    fp::lemma_vanishes(x3 - (l * l - x1 - x2));
    fp::lemma_vanishes(y3 - (l * (x1 - x3) - y1));
    addition::lemma_plus_is(x1, y1, x2, y2, l, x3, y3);
    multiples::lemma_times_add(j as nat, k as nat, point());
}

/// Small odd multiples of the generator.
spec fn small_multiples() -> bool {
    &&& multiple_is(0x1int,
        0x6b17d1f2e12c4247f8bce6e563a440f277037d812deb33a0f4a13945d898c296int,
        0x4fe342e2fe1a7f9b8ee7eb4a7c0f9e162bce33576b315ececbb6406837bf51f5int)
    &&& multiple_is(0x3int,
        0x5ecbe4d1a6330a44c8f7ef951d4bf165e6c6b721efada985fb41661bc6e7fd6cint,
        0x8734640c4998ff7e374b06ce1a64a2ecd82ab036384fb83d9a79b127a27d5032int)
    &&& multiple_is(0x5int,
        0x51590b7a515140d2d784c85608668fdfef8c82fd1f5be52421554a0dc3d033edint,
        0xe0c17da8904a727d8ae1bf36bf8a79260d012f00d4d80888d1d0bb44fda16da4int)
    &&& multiple_is(0x7int,
        0x8e533b6fa0bf7b4625bb30667c01fb607ef9f8b8a80fef5b300628703187b2a3int,
        0x73eb1dbde03318366d069f83a6f5900053c73633cb041b21c55e1a86c1f400b4int)
    &&& multiple_is(0x9int,
        0xea68d7b6fedf0b71878938d51d71f8729e0acb8c2c6df8b3d79e8a4b90949ee0int,
        0x2a2744c972c9fce787014a964a8ea0c84d714feaa4de823fe85a224a4dd048faint)
    &&& multiple_is(0xbint,
        0x3ed113b7883b4c590638379db0c21cda16742ed0255048bf433391d374bc21d1int,
        0x9099209accc4c8a224c843afa4f4c68a090d04da5e9889dae2f8eefce82a3740int)
    &&& multiple_is(0xdint,
        0x177c837ae0ac495a61805df2d85ee2fc792e284b65ead58a98e15d9d46072c01int,
        0x63bb58cd4ebea558a24091adb40f4e7226ee14c3a1fb4df39c43bbe2efc7bfd8int)
    &&& multiple_is(0xfint,
        0xf0454dc6971abae7adfb378999888265ae03af92de3a0ef163668c63e59b9d5fint,
        0xb5b93ee3592e2d1f4e6594e51f9643e62a3b21ce75b5fa3f47e59cde0d034f36int)
}

/// The small odd multiples are what they are said to be.
proof fn lemma_small_multiples()
    ensures
        small_multiples(),
{
    lemma_on_curve();
    multiples::lemma_times_one(point());
    assert(multiple_is(0x1int,
        0x6b17d1f2e12c4247f8bce6e563a440f277037d812deb33a0f4a13945d898c296int,
        0x4fe342e2fe1a7f9b8ee7eb4a7c0f9e162bce33576b315ececbb6406837bf51f5int)) by {
        reveal(multiple_is);
    }
    lemma_double(0x1int, 0x6b17d1f2e12c4247f8bce6e563a440f277037d812deb33a0f4a13945d898c296int,
        0x4fe342e2fe1a7f9b8ee7eb4a7c0f9e162bce33576b315ececbb6406837bf51f5int,
        0xa249bcb3191802d3cb56fc75a8731f848e7b2caf080f3477a4e4d904a671af9dint,
        0x7cf27b188d034f7e8a52380304b51ac3c08969e277f21b35a60b48fc47669978int,
        0x7775510db8ed040293d9ac69f7430dbba7dade63ce982299e04b79d227873d1int);
    lemma_join(0x1int, 0x2int,
        0x6b17d1f2e12c4247f8bce6e563a440f277037d812deb33a0f4a13945d898c296int,
        0x4fe342e2fe1a7f9b8ee7eb4a7c0f9e162bce33576b315ececbb6406837bf51f5int,
        0x7cf27b188d034f7e8a52380304b51ac3c08969e277f21b35a60b48fc47669978int,
        0x7775510db8ed040293d9ac69f7430dbba7dade63ce982299e04b79d227873d1int,
        0x28cdb0fe6681d140c59fb73f85f16459ca4cee083742bada762de4ca226a8086int,
        0x5ecbe4d1a6330a44c8f7ef951d4bf165e6c6b721efada985fb41661bc6e7fd6cint,
        0x8734640c4998ff7e374b06ce1a64a2ecd82ab036384fb83d9a79b127a27d5032int);
    lemma_join(0x3int, 0x2int,
        0x5ecbe4d1a6330a44c8f7ef951d4bf165e6c6b721efada985fb41661bc6e7fd6cint,
        0x8734640c4998ff7e374b06ce1a64a2ecd82ab036384fb83d9a79b127a27d5032int,
        0x7cf27b188d034f7e8a52380304b51ac3c08969e277f21b35a60b48fc47669978int,
        0x7775510db8ed040293d9ac69f7430dbba7dade63ce982299e04b79d227873d1int,
        0x63fed8962c05ae08af71e0370a29504a31d75d0224fb0135dedbf2b49db4ec5aint,
        0x51590b7a515140d2d784c85608668fdfef8c82fd1f5be52421554a0dc3d033edint,
        0xe0c17da8904a727d8ae1bf36bf8a79260d012f00d4d80888d1d0bb44fda16da4int);
    lemma_join(0x5int, 0x2int,
        0x51590b7a515140d2d784c85608668fdfef8c82fd1f5be52421554a0dc3d033edint,
        0xe0c17da8904a727d8ae1bf36bf8a79260d012f00d4d80888d1d0bb44fda16da4int,
        0x7cf27b188d034f7e8a52380304b51ac3c08969e277f21b35a60b48fc47669978int,
        0x7775510db8ed040293d9ac69f7430dbba7dade63ce982299e04b79d227873d1int,
        0x18c1a34f6673f28e46938ebf9b6006dfa555d9d25d6b2f629017ff18d0bdd6d4int,
        0x8e533b6fa0bf7b4625bb30667c01fb607ef9f8b8a80fef5b300628703187b2a3int,
        0x73eb1dbde03318366d069f83a6f5900053c73633cb041b21c55e1a86c1f400b4int);
    lemma_join(0x7int, 0x2int,
        0x8e533b6fa0bf7b4625bb30667c01fb607ef9f8b8a80fef5b300628703187b2a3int,
        0x73eb1dbde03318366d069f83a6f5900053c73633cb041b21c55e1a86c1f400b4int,
        0x7cf27b188d034f7e8a52380304b51ac3c08969e277f21b35a60b48fc47669978int,
        0x7775510db8ed040293d9ac69f7430dbba7dade63ce982299e04b79d227873d1int,
        0xf99e2b967d8e0afc87caadb0694609415bcaba785f9c110a24a12fadca6231b6int,
        0xea68d7b6fedf0b71878938d51d71f8729e0acb8c2c6df8b3d79e8a4b90949ee0int,
        0x2a2744c972c9fce787014a964a8ea0c84d714feaa4de823fe85a224a4dd048faint);
    lemma_join(0x9int, 0x2int,
        0xea68d7b6fedf0b71878938d51d71f8729e0acb8c2c6df8b3d79e8a4b90949ee0int,
        0x2a2744c972c9fce787014a964a8ea0c84d714feaa4de823fe85a224a4dd048faint,
        0x7cf27b188d034f7e8a52380304b51ac3c08969e277f21b35a60b48fc47669978int,
        0x7775510db8ed040293d9ac69f7430dbba7dade63ce982299e04b79d227873d1int,
        0x16dd88585b31ab7ff112ecd9f4f7021e8f490327404d0833e208ccc3b94e18efint,
        0x3ed113b7883b4c590638379db0c21cda16742ed0255048bf433391d374bc21d1int,
        0x9099209accc4c8a224c843afa4f4c68a090d04da5e9889dae2f8eefce82a3740int);
    lemma_join(0xbint, 0x2int,
        0x3ed113b7883b4c590638379db0c21cda16742ed0255048bf433391d374bc21d1int,
        0x9099209accc4c8a224c843afa4f4c68a090d04da5e9889dae2f8eefce82a3740int,
        0x7cf27b188d034f7e8a52380304b51ac3c08969e277f21b35a60b48fc47669978int,
        0x7775510db8ed040293d9ac69f7430dbba7dade63ce982299e04b79d227873d1int,
        0xf26e7352f2ca442ca443dc72bb30806740769a5076e020a6932f7e4ecf8e5cf1int,
        0x177c837ae0ac495a61805df2d85ee2fc792e284b65ead58a98e15d9d46072c01int,
        0x63bb58cd4ebea558a24091adb40f4e7226ee14c3a1fb4df39c43bbe2efc7bfd8int);
    lemma_join(0xdint, 0x2int,
        0x177c837ae0ac495a61805df2d85ee2fc792e284b65ead58a98e15d9d46072c01int,
        0x63bb58cd4ebea558a24091adb40f4e7226ee14c3a1fb4df39c43bbe2efc7bfd8int,
        0x7cf27b188d034f7e8a52380304b51ac3c08969e277f21b35a60b48fc47669978int,
        0x7775510db8ed040293d9ac69f7430dbba7dade63ce982299e04b79d227873d1int,
        0x5d8068eeb9acd3d7640cc5e58c57a5869561fafb50e6d2a788471eb709ee40cdint,
        0xf0454dc6971abae7adfb378999888265ae03af92de3a0ef163668c63e59b9d5fint,
        0xb5b93ee3592e2d1f4e6594e51f9643e62a3b21ce75b5fa3f47e59cde0d034f36int);
}

/// The next multiples of the generator.
proof fn lemma_multiples_1()
    requires
        small_multiples(),
        multiple_is(0xfint,
            0xf0454dc6971abae7adfb378999888265ae03af92de3a0ef163668c63e59b9d5fint,
            0xb5b93ee3592e2d1f4e6594e51f9643e62a3b21ce75b5fa3f47e59cde0d034f36int),
    ensures
        multiple_is(0x1feint,
            0x3dabe0c9d2184e797c2657698ade55312d42895f799d62b16935e347ba25e8cbint,
            0x81c4776de2f520423450cffa9427100791f14b25ce7d9ed75d253fda5d3578d5int),
{
    lemma_double(0xfint, 0xf0454dc6971abae7adfb378999888265ae03af92de3a0ef163668c63e59b9d5fint,
        0xb5b93ee3592e2d1f4e6594e51f9643e62a3b21ce75b5fa3f47e59cde0d034f36int,
        0xee94ed8ec4ec9cf7d5783b311431460ded97acc17a52f66463d4c9bb3700a939int,
        0x409f8da21aea236a5f5a1904d0310c1c6192a67d0da08936319869a8ad0838a3int,
        0x70dcf7b1cf008e570e26e72bd3bd40f73e99a0ec162a6793e163d2c72a1e8f5aint);
    lemma_double(0x1eint, 0x409f8da21aea236a5f5a1904d0310c1c6192a67d0da08936319869a8ad0838a3int,
        0x70dcf7b1cf008e570e26e72bd3bd40f73e99a0ec162a6793e163d2c72a1e8f5aint,
        0x954e1702bb6eacff2c16dfddcdd735d0932c9a47d74139dc2bcc33fa893fd030int,
        0x5dae8c2c5a5afba7e53b9efcac1d0b8224559146918d320879bb82d96ef4963int,
        0xbb07a44d03c08119e2f782d0d70304cef299e802d1d3bf625690236051d34324int);
    lemma_double(0x3cint, 0x5dae8c2c5a5afba7e53b9efcac1d0b8224559146918d320879bb82d96ef4963int,
        0xbb07a44d03c08119e2f782d0d70304cef299e802d1d3bf625690236051d34324int,
        0xfcddb146265238f1a5c316525b94355a9bdadf49dd30f861bebb35d3b372c4e8int,
        0xe1b11b350da02131f7f545859060d2bb386f232ffe4215f7e822f66cb672a1d8int,
        0xfc8ba02c6b27fc2f88454df46adbeecf2b8808616f111687b63aa9ec681f679cint);
    lemma_double(0x78int, 0xe1b11b350da02131f7f545859060d2bb386f232ffe4215f7e822f66cb672a1d8int,
        0xfc8ba02c6b27fc2f88454df46adbeecf2b8808616f111687b63aa9ec681f679cint,
        0x3da1c91591f903163cef5a2cb9119bb8842a308bca34afaf06df38cd194692aint,
        0x99299baa8b91bcf5076cbf03f2482b08576b2b057cd50e962767456e87e030efint,
        0x5cc2e3d3333f8e18bf338101a6ceaa7957c12c499f4008444d8e6b7dd8d9aa9aint);
    lemma_join(0xf0int, 0xfint,
        0x99299baa8b91bcf5076cbf03f2482b08576b2b057cd50e962767456e87e030efint,
        0x5cc2e3d3333f8e18bf338101a6ceaa7957c12c499f4008444d8e6b7dd8d9aa9aint,
        0xf0454dc6971abae7adfb378999888265ae03af92de3a0ef163668c63e59b9d5fint,
        0xb5b93ee3592e2d1f4e6594e51f9643e62a3b21ce75b5fa3f47e59cde0d034f36int,
        0x59166c418e543be3a56be00316f9d268c759b59a178db9bcba696982a62dad6cint,
        0xf44b39759a2e6db723a6f90249972dfd08e95380f1fca470eacd1d03e5edf214int,
        0xbefafccf223ca065f0a0db4eea93ff06a2116fca81f7a4a9436a8d917a02dedeint);
    lemma_double(0xffint, 0xf44b39759a2e6db723a6f90249972dfd08e95380f1fca470eacd1d03e5edf214int,
        0xbefafccf223ca065f0a0db4eea93ff06a2116fca81f7a4a9436a8d917a02dedeint,
        0x654834a2e2af3b79968f41d26da517933bafd978d26f4115a21f5830d872938int,
        0x3dabe0c9d2184e797c2657698ade55312d42895f799d62b16935e347ba25e8cbint,
        0x81c4776de2f520423450cffa9427100791f14b25ce7d9ed75d253fda5d3578d5int);
}

/// The next multiples of the generator.
proof fn lemma_multiples_2()
    requires
        small_multiples(),
        multiple_is(0x1feint,
            0x3dabe0c9d2184e797c2657698ade55312d42895f799d62b16935e347ba25e8cbint,
            0x81c4776de2f520423450cffa9427100791f14b25ce7d9ed75d253fda5d3578d5int),
    ensures
        multiple_is(0x3ffcint,
            0x9735ec38eca982fbc807176a2714483d61359f3940a1e48605eab83ffdb5ae06int,
            0xc215a92bcd891d6c3d94d640c8c5c1bcf21ddd1e7e80671d51fc4c1f17ed94abint),
{
    lemma_double(0x1feint,
        0x3dabe0c9d2184e797c2657698ade55312d42895f799d62b16935e347ba25e8cbint,
        0x81c4776de2f520423450cffa9427100791f14b25ce7d9ed75d253fda5d3578d5int,
        0xa5320bd40141e5864483defcc981c8b7e48dc9d06522da5e027ee255f28cf7a9int,
        0x20a90cf94acb628d5b9c9bb63f8dc8ce65a1f3a6c445f76c075280147df42749int,
        0x71eb4bff795ab242bd18d03211892279838eed6c5143377a66da9c8209c0ce85int);
    lemma_double(0x3fcint,
        0x20a90cf94acb628d5b9c9bb63f8dc8ce65a1f3a6c445f76c075280147df42749int,
        0x71eb4bff795ab242bd18d03211892279838eed6c5143377a66da9c8209c0ce85int,
        0x1649266fdfb03bf5789e5212b00976b4628558e7412e33711568b247b993bc31int,
        0x8fc3c70d26bbde93efd946da4f010a8229663d09fdf310b4b309e5946fe11bc5int,
        0xce4a88633ecd916f94682d0acd267ed31bf98d676f96c9ce851341003e08e8e4int);
    lemma_double(0x7f8int,
        0x8fc3c70d26bbde93efd946da4f010a8229663d09fdf310b4b309e5946fe11bc5int,
        0xce4a88633ecd916f94682d0acd267ed31bf98d676f96c9ce851341003e08e8e4int,
        0xd6227a028c575b59048e7f2094a09fa6094899a85b243c69ff3bc94304b63349int,
        0x9528803e89afc1ec63ab8c682cd822f0a8c355692c618c6b4b97ff8a31bfbfeint,
        0x9b67195737f3d7337f3ac1f7bee3414a038235fb17db219fd8a7c1f2af71c8b4int);
    lemma_join(0xff0int, 0xfint,
        0x9528803e89afc1ec63ab8c682cd822f0a8c355692c618c6b4b97ff8a31bfbfeint,
        0x9b67195737f3d7337f3ac1f7bee3414a038235fb17db219fd8a7c1f2af71c8b4int,
        0xf0454dc6971abae7adfb378999888265ae03af92de3a0ef163668c63e59b9d5fint,
        0xb5b93ee3592e2d1f4e6594e51f9643e62a3b21ce75b5fa3f47e59cde0d034f36int,
        0xe967af55d7d556b818a341f431f38b4a50fa5b7139f771c954aa0ae54b242d3cint,
        0xfa3adb43a7bc695cc8a123870774558e9320dd795f5faf1158fa3901f99258d5int,
        0xe3a8d6e0d0408bc1ce8c24049a41d2ff23774098491715c4d5d4b46d1c882596int);
    lemma_double(0xfffint,
        0xfa3adb43a7bc695cc8a123870774558e9320dd795f5faf1158fa3901f99258d5int,
        0xe3a8d6e0d0408bc1ce8c24049a41d2ff23774098491715c4d5d4b46d1c882596int,
        0x243086982526beddf165d7c7dd843b0c8310293f9b484595886055124d708d12int,
        0xf47232160512db62dcb349802b78808c8ed8963a3ca3311783e4412028fe320dint,
        0x173eefc8af66a51bfde053931a88f7a7ea7cccc40a529adec3b32c4739adcf66int);
    lemma_double(0x1ffeint,
        0xf47232160512db62dcb349802b78808c8ed8963a3ca3311783e4412028fe320dint,
        0x173eefc8af66a51bfde053931a88f7a7ea7cccc40a529adec3b32c4739adcf66int,
        0x4b98f604b5240abe9cad0ca85fe3869b8dfe49e8b8adc6bb1abab9d77686d4c0int,
        0x9735ec38eca982fbc807176a2714483d61359f3940a1e48605eab83ffdb5ae06int,
        0xc215a92bcd891d6c3d94d640c8c5c1bcf21ddd1e7e80671d51fc4c1f17ed94abint);
}

/// The next multiples of the generator.
proof fn lemma_multiples_3()
    requires
        small_multiples(),
        multiple_is(0x3ffcint,
            0x9735ec38eca982fbc807176a2714483d61359f3940a1e48605eab83ffdb5ae06int,
            0xc215a92bcd891d6c3d94d640c8c5c1bcf21ddd1e7e80671d51fc4c1f17ed94abint),
    ensures
        multiple_is(0x7fff8int,
            0xa8da0d5429df123dd5086e39f492c6f2c2a922f54e10d8d7abc61441e240aedaint,
            0x14339c3b9958bcc1751cac4aa59ec17ff7af138d720c444b56d687c4f952df9eint),
{
    lemma_double(0x3ffcint,
        0x9735ec38eca982fbc807176a2714483d61359f3940a1e48605eab83ffdb5ae06int,
        0xc215a92bcd891d6c3d94d640c8c5c1bcf21ddd1e7e80671d51fc4c1f17ed94abint,
        0x2c237514d5b2be5202209ab79834c719e6fe882c60f6ae68b149aa8c430113ecint,
        0x6e5aecc073ed62ca6870ffbff653f13605d250b203e742620ab2a939f38d1772int,
        0x846778cb3c89559494192f203a2c10b177a9106991b571c940df954018abe7baint);
    lemma_double(0x7ff8int,
        0x6e5aecc073ed62ca6870ffbff653f13605d250b203e742620ab2a939f38d1772int,
        0x846778cb3c89559494192f203a2c10b177a9106991b571c940df954018abe7baint,
        0x2247ff24e04d07a538fcdf0ee3e106689123e18766e4d1b40497812bac46ebb1int,
        0x6d0f09921f15f21e1713210a6564865bac810c2e1eb90394b7bf65852f15f917int,
        0xd1d6a43e61f00a45cfa7f9836f6a3f2d0307c0c5c25f9227ac466574788d8dbfint);
    lemma_join(0xfff0int, 0xfint,
        0x6d0f09921f15f21e1713210a6564865bac810c2e1eb90394b7bf65852f15f917int,
        0xd1d6a43e61f00a45cfa7f9836f6a3f2d0307c0c5c25f9227ac466574788d8dbfint,
        0xf0454dc6971abae7adfb378999888265ae03af92de3a0ef163668c63e59b9d5fint,
        0xb5b93ee3592e2d1f4e6594e51f9643e62a3b21ce75b5fa3f47e59cde0d034f36int,
        0x596f5177fc07beda089c52c9910a7866122789efd9bcac9c38aa28fe6dba5f2fint,
        0xf249104d0e6f8f29e6016277780cda84dc84b83bc3d899dfb736ca0831fbe8cfint,
        0xb57e12fcdb031f59cab81b1c6b1e1c07e4512e52ce832f1a0cedefff8b4340e9int);
    lemma_double(0xffffint,
        0xf249104d0e6f8f29e6016277780cda84dc84b83bc3d899dfb736ca0831fbe8cfint,
        0xb57e12fcdb031f59cab81b1c6b1e1c07e4512e52ce832f1a0cedefff8b4340e9int,
        0x284437f876000545dea5703645ee881b3a8d7b04aab299eb6c09b5054a254e6bint,
        0xd97487d5610c73159732d6906496fa43fe724d07519e7ce70551369b81f1236eint,
        0xb4e657d8843da4ddd4eb932ca1d52ddd30bfaeaa23022b4d92cee2a9592cce8int);
    lemma_double(0x1fffeint,
        0xd97487d5610c73159732d6906496fa43fe724d07519e7ce70551369b81f1236eint,
        0xb4e657d8843da4ddd4eb932ca1d52ddd30bfaeaa23022b4d92cee2a9592cce8int,
        0xe70ec84d152e30078f2c9d14cedf0285caced12a663a4c8549acdf6c958cd073int,
        0xb4bd01150916e4230b441953c515cd6ed3b7d8857282b5d239853b45b7472db4int,
        0xd65d2cd76e2ca7038c609c629f0a3035b07b8406a2479d4e012b24baa375c17eint);
    lemma_double(0x3fffcint,
        0xb4bd01150916e4230b441953c515cd6ed3b7d8857282b5d239853b45b7472db4int,
        0xd65d2cd76e2ca7038c609c629f0a3035b07b8406a2479d4e012b24baa375c17eint,
        0x43a9c2d3eb10b269343fc01b197a463e93dbd94077dd2eddba6e2760f9dfc92cint,
        0xa8da0d5429df123dd5086e39f492c6f2c2a922f54e10d8d7abc61441e240aedaint,
        0x14339c3b9958bcc1751cac4aa59ec17ff7af138d720c444b56d687c4f952df9eint);
}

/// The next multiples of the generator.
proof fn lemma_multiples_4()
    requires
        small_multiples(),
        multiple_is(0x7fff8int,
            0xa8da0d5429df123dd5086e39f492c6f2c2a922f54e10d8d7abc61441e240aedaint,
            0x14339c3b9958bcc1751cac4aa59ec17ff7af138d720c444b56d687c4f952df9eint),
    ensures
        multiple_is(0xfffff0int,
            0x5829d906527fa7bb582f2bbbaf7d71845bfd975c71b771b7326da7a707aaf15fint,
            0x199b299502a816a98d19e3b9cd763cfd1f939a75b75048a8e694b2089354960eint),
{
    lemma_double(0x7fff8int,
        0xa8da0d5429df123dd5086e39f492c6f2c2a922f54e10d8d7abc61441e240aedaint,
        0x14339c3b9958bcc1751cac4aa59ec17ff7af138d720c444b56d687c4f952df9eint,
        0xa5bc43aa0bf6b131aaa992fbc635e855bd261e5c51ed1f1e32af974d7687b1c3int,
        0x379fb72b9110237ddaeaf1cdf35a4e8623f18c0d23b330fd2612f0a74e59d214int,
        0x1e5badc3daa5e1c0b7ae5157cafd2ae4011b11465cb52ba43f964400c2760cb4int);
    lemma_join(0xffff0int, 0xfint,
        0x379fb72b9110237ddaeaf1cdf35a4e8623f18c0d23b330fd2612f0a74e59d214int,
        0x1e5badc3daa5e1c0b7ae5157cafd2ae4011b11465cb52ba43f964400c2760cb4int,
        0xf0454dc6971abae7adfb378999888265ae03af92de3a0ef163668c63e59b9d5fint,
        0xb5b93ee3592e2d1f4e6594e51f9643e62a3b21ce75b5fa3f47e59cde0d034f36int,
        0xd832091e46f5d67e119a753d44b0a577e6b1c35e81765c565d2791eeb253458aint,
        0xa2ac4324369266e040588aa2f8488bf8cf9edaa221acad39b665a14f679ff67fint,
        0xa603a29623a46f463d10d18909b269d03f16461456525dbb383aaeb55c457137int);
    lemma_double(0xfffffint,
        0xa2ac4324369266e040588aa2f8488bf8cf9edaa221acad39b665a14f679ff67fint,
        0xa603a29623a46f463d10d18909b269d03f16461456525dbb383aaeb55c457137int,
        0xefb7da29c3bd82b499aadd4cdc78a1214f6edd630fd9718315e31bc74bbc9056int,
        0x1523c297044e4553f194dce3ea2e79621e27911dcfddf44decd7dd8f44508f3cint,
        0xde7029fc9db61ef077c1dc798787bc0e59cd421f03f899a4e25c03cf02b5a26fint);
    lemma_double(0x1ffffeint,
        0x1523c297044e4553f194dce3ea2e79621e27911dcfddf44decd7dd8f44508f3cint,
        0xde7029fc9db61ef077c1dc798787bc0e59cd421f03f899a4e25c03cf02b5a26fint,
        0xa633ccf4ccc19b162bfe3132301fb06d50e4afd6fdffa4262f19d205cc4ec720int,
        0x9ec98dccbddd311c4ae43c75d0e488ac5e93cc714c91718c105bb95fa1a7cb0bint,
        0x2c450cf4327524bd4929ab4a0fe3df219550b42ad3cd1261f6eaf58e586b9898int);
    lemma_double(0x3ffffcint,
        0x9ec98dccbddd311c4ae43c75d0e488ac5e93cc714c91718c105bb95fa1a7cb0bint,
        0x2c450cf4327524bd4929ab4a0fe3df219550b42ad3cd1261f6eaf58e586b9898int,
        0x14590dac23ab8db1aff94c00d7ed0eea5f9b6df39710ee3421a67e3ab6692fc5int,
        0x8bcf4617b8204fb70754cf54a36b5930f2ee1638795e342134ae6f788e3cc771int,
        0x3fbf9e5eeba3a1c5f344d73b35f33d10fed649cdcfebe27cb1f9ce9a95c91303int);
    lemma_double(0x7ffff8int,
        0x8bcf4617b8204fb70754cf54a36b5930f2ee1638795e342134ae6f788e3cc771int,
        0x3fbf9e5eeba3a1c5f344d73b35f33d10fed649cdcfebe27cb1f9ce9a95c91303int,
        0xdf8239e1eec457ba8cf9f52cb8c97910d3aede6386cf36a478b7f9ce23fa9fb9int,
        0x5829d906527fa7bb582f2bbbaf7d71845bfd975c71b771b7326da7a707aaf15fint,
        0x199b299502a816a98d19e3b9cd763cfd1f939a75b75048a8e694b2089354960eint);
}

/// The next multiples of the generator.
proof fn lemma_multiples_5()
    requires
        small_multiples(),
        multiple_is(0xfffff0int,
            0x5829d906527fa7bb582f2bbbaf7d71845bfd975c71b771b7326da7a707aaf15fint,
            0x199b299502a816a98d19e3b9cd763cfd1f939a75b75048a8e694b2089354960eint),
    ensures
        multiple_is(0xfffffffint,
            0xbfb4ad57338fa3b4b1bbdefbe92df2d3d10b140a450bc426cb16355d544b99f6int,
            0xc6ee62ee72fb46837fde1e861a10431c735de5d8a78668b46a252f19e0f61fbcint),
{
    lemma_join(0xfffff0int, 0xfint,
        0x5829d906527fa7bb582f2bbbaf7d71845bfd975c71b771b7326da7a707aaf15fint,
        0x199b299502a816a98d19e3b9cd763cfd1f939a75b75048a8e694b2089354960eint,
        0xf0454dc6971abae7adfb378999888265ae03af92de3a0ef163668c63e59b9d5fint,
        0xb5b93ee3592e2d1f4e6594e51f9643e62a3b21ce75b5fa3f47e59cde0d034f36int,
        0x402aa501d1cc1bf7eaacf7a043da3bef6d6e87592982c50289af98131861894cint,
        0x35b24fc7256e669a575c3584a619cedbeeda35ccc05020698630c9ad41293c8aint,
        0x78d553783e49a8bc5aa047e771bef4cd77366553098601e437cc0ee57be85932int);
    lemma_double(0xffffffint,
        0x35b24fc7256e669a575c3584a619cedbeeda35ccc05020698630c9ad41293c8aint,
        0x78d553783e49a8bc5aa047e771bef4cd77366553098601e437cc0ee57be85932int,
        0xb6ca6062da1151c14a2b116619de885cc425cbe04647ed540a7e31b3f6730f50int,
        0xc40a7b2f8abb296fd314f762b1f1d291d596b621d552de6341bcea2341f85c86int,
        0x4bc7e91d4eab6fc721660b9bc09f0dfe91b706d5c0df9ece22ab0c05c8809247int);
    lemma_double(0x1fffffeint,
        0xc40a7b2f8abb296fd314f762b1f1d291d596b621d552de6341bcea2341f85c86int,
        0x4bc7e91d4eab6fc721660b9bc09f0dfe91b706d5c0df9ece22ab0c05c8809247int,
        0x835a1cd97adbc0084647d113d7f4c1937c6c0498934486f79e6695fb5c009e4dint,
        0xa4745a94cf8e74d68b16bc270c5c0f2e8635604f547010fce4368725cf3dac8bint,
        0x26d68c6dd9e2ccf9854d80222d3ca11545e8823f96a8757ca4dca9c823d3de64int);
    lemma_double(0x3fffffcint,
        0xa4745a94cf8e74d68b16bc270c5c0f2e8635604f547010fce4368725cf3dac8bint,
        0x26d68c6dd9e2ccf9854d80222d3ca11545e8823f96a8757ca4dca9c823d3de64int,
        0x9aac2929c18bd6a7d719de85845f548e507f61f444ae942c46b2e94d6f43a650int,
        0xe7ab92feca0cd2531f4ad99ce5ca008843352430bcaf4397defb317defeb0b1bint,
        0x40b66b07a8ba5a6c930ebc3915f4fadf7d0af628f1ec77f0468136d6aa56e561int);
    lemma_double(0x7fffff8int,
        0xe7ab92feca0cd2531f4ad99ce5ca008843352430bcaf4397defb317defeb0b1bint,
        0x40b66b07a8ba5a6c930ebc3915f4fadf7d0af628f1ec77f0468136d6aa56e561int,
        0x445cec3b79f31772d6ea9a0a43367c86915eb1e63ae1724f46fa917eb61fd071int,
        0x3ab7ca93504611ee5633f359a4f7a0f47a80c9dd93047f7ec84596d123bb0dfint,
        0x8c65a469099f2701eee6c58474fb0165c967ec671ffb14f949e5b0d54030fd10int);
    lemma_join(0xffffff0int, 0xfint,
        0x3ab7ca93504611ee5633f359a4f7a0f47a80c9dd93047f7ec84596d123bb0dfint,
        0x8c65a469099f2701eee6c58474fb0165c967ec671ffb14f949e5b0d54030fd10int,
        0xf0454dc6971abae7adfb378999888265ae03af92de3a0ef163668c63e59b9d5fint,
        0xb5b93ee3592e2d1f4e6594e51f9643e62a3b21ce75b5fa3f47e59cde0d034f36int,
        0x3a181279e6d842f774da9fa5d952fb19479947d3928dba47ef5babe134da7f9fint,
        0xbfb4ad57338fa3b4b1bbdefbe92df2d3d10b140a450bc426cb16355d544b99f6int,
        0xc6ee62ee72fb46837fde1e861a10431c735de5d8a78668b46a252f19e0f61fbcint);
}

/// The next multiples of the generator.
proof fn lemma_multiples_6()
    requires
        small_multiples(),
        multiple_is(0xfffffffint,
            0xbfb4ad57338fa3b4b1bbdefbe92df2d3d10b140a450bc426cb16355d544b99f6int,
            0xc6ee62ee72fb46837fde1e861a10431c735de5d8a78668b46a252f19e0f61fbcint),
    ensures
        multiple_is(0x1fffffffeint,
            0x6f24db5a219067f6c7ed039151a8d5ac91ed91d9be5272b747b4e738b39a52daint,
            0x1777f41a8de3f291211ffde201744ddff0d3cb972b5cbd10c70e7a8e2aa70e31int),
{
    lemma_double(0xfffffffint,
        0xbfb4ad57338fa3b4b1bbdefbe92df2d3d10b140a450bc426cb16355d544b99f6int,
        0xc6ee62ee72fb46837fde1e861a10431c735de5d8a78668b46a252f19e0f61fbcint,
        0x829c9110290c5ff26c90f3f622c9d949793cbc101de848939aba934c13b01137int,
        0xcab620bf52b30ecebc4fd6a9f7f887f89ce7a2dccb24e43e6775faef89baf940int,
        0xcf6f3d38f7eaae8e16cdbe0c56ccc7b1140cc5a5f0ba2c93f2dd2fb70e953fedint);
    lemma_double(0x1ffffffeint,
        0xcab620bf52b30ecebc4fd6a9f7f887f89ce7a2dccb24e43e6775faef89baf940int,
        0xcf6f3d38f7eaae8e16cdbe0c56ccc7b1140cc5a5f0ba2c93f2dd2fb70e953fedint,
        0xdb68258b1c920fea769b3a328ebb540eb396b54b9f4a459ca71f358eb2a37ddaint,
        0xb912b803a6e632114c8ca816e5d58a93cc80d68b0c30984ff22d0874d04a9716int,
        0xb0854233957d9c4372636ce3995ab5546c8ba72c683bcedd05108396bf0c731fint);
    lemma_double(0x3ffffffcint,
        0xb912b803a6e632114c8ca816e5d58a93cc80d68b0c30984ff22d0874d04a9716int,
        0xb0854233957d9c4372636ce3995ab5546c8ba72c683bcedd05108396bf0c731fint,
        0x24536e03b7975983aa813181b7d80c31b1822dca04630b2fee21264ca095d86int,
        0xf402434e1b25c179d3869dda18000dc933ba139e15b1a9e8f35de63b338611bbint,
        0x1a7afa19a6bfb4da322d24ac3cc4bf7b9e22de0a2693af0b8bc805bf51fa31fdint);
    lemma_double(0x7ffffff8int,
        0xf402434e1b25c179d3869dda18000dc933ba139e15b1a9e8f35de63b338611bbint,
        0x1a7afa19a6bfb4da322d24ac3cc4bf7b9e22de0a2693af0b8bc805bf51fa31fdint,
        0x1c8ff184fdb764431b07fd46c8e952f98bf04c1dbb5bcf844ba4209b57060e7bint,
        0x37023b0470c2d87f896d5cb8c940a45799731c54507bd56b7202bbd66e42e355int,
        0xccfbf8f1c2c553fc736bca98cc4d32f64a365a5efe2bcf9af1f56e9ae41cd4f1int);
    lemma_join(0xfffffff0int, 0xfint,
        0x37023b0470c2d87f896d5cb8c940a45799731c54507bd56b7202bbd66e42e355int,
        0xccfbf8f1c2c553fc736bca98cc4d32f64a365a5efe2bcf9af1f56e9ae41cd4f1int,
        0xf0454dc6971abae7adfb378999888265ae03af92de3a0ef163668c63e59b9d5fint,
        0xb5b93ee3592e2d1f4e6594e51f9643e62a3b21ce75b5fa3f47e59cde0d034f36int,
        0x6f4d031c37cdd4a0bd9eb98c002d243b0c7796d5b0c2b28f5da5813af7df1c3fint,
        0x618466bcb739585c20c44b7fc962d8671d94867054859361a18293ffe4a720e1int,
        0x34587f80988db9bd798cb5da178ec512db9aec2fe35f85e0678b4e91f7c873b4int);
    lemma_double(0xffffffffint,
        0x618466bcb739585c20c44b7fc962d8671d94867054859361a18293ffe4a720e1int,
        0x34587f80988db9bd798cb5da178ec512db9aec2fe35f85e0678b4e91f7c873b4int,
        0xe7289190fbb5a7d7d62b51d40f3571670d41439c83a980a6ebf0c77129c5ea30int,
        0x6f24db5a219067f6c7ed039151a8d5ac91ed91d9be5272b747b4e738b39a52daint,
        0x1777f41a8de3f291211ffde201744ddff0d3cb972b5cbd10c70e7a8e2aa70e31int);
}

/// The next multiples of the generator.
proof fn lemma_multiples_7()
    requires
        small_multiples(),
        multiple_is(0x1fffffffeint,
            0x6f24db5a219067f6c7ed039151a8d5ac91ed91d9be5272b747b4e738b39a52daint,
            0x1777f41a8de3f291211ffde201744ddff0d3cb972b5cbd10c70e7a8e2aa70e31int),
    ensures
        multiple_is(0x7fffffff80int,
            0x45aacac4387db567315c42300d6461b1922b1d7b04d1ebca6998b46442e508d2int,
            0xf77a05dfe6f590829ad72adef8124d06b6b456871a9e6d77bbbd140a55062a47int),
{
    lemma_double(0x1fffffffeint,
        0x6f24db5a219067f6c7ed039151a8d5ac91ed91d9be5272b747b4e738b39a52daint,
        0x1777f41a8de3f291211ffde201744ddff0d3cb972b5cbd10c70e7a8e2aa70e31int,
        0xc0c0f69007425dc498074987e7b1b2cc32e5edf753f84c8d1e31e83a7f4c1fefint,
        0x6184d2a091f07c3846f28108a5d4111a113ef877df1b2e648b350e9fdcb3153fint,
        0xa9404e45027fa0c188aa763b8ebbb9de825ae68b25b5b6049ead0923d93f3e41int);
    lemma_double(0x3fffffffcint,
        0x6184d2a091f07c3846f28108a5d4111a113ef877df1b2e648b350e9fdcb3153fint,
        0xa9404e45027fa0c188aa763b8ebbb9de825ae68b25b5b6049ead0923d93f3e41int,
        0xe2266a64fc9e96910bfcc391499f69e6e3862cdee724bf5f53e52619a78d636bint,
        0x8354e03a605b57989d8254e9094e3040e6aca47e5fcfeef4513c003de9f0bf44int,
        0xf38de2e2640576d5a32995c9a49afecba4dff1093dd6b00b3ae64e2f51403216int);
    lemma_double(0x7fffffff8int,
        0x8354e03a605b57989d8254e9094e3040e6aca47e5fcfeef4513c003de9f0bf44int,
        0xf38de2e2640576d5a32995c9a49afecba4dff1093dd6b00b3ae64e2f51403216int,
        0xf7be988964ec4116f418581f98955a9ca415e34883c7a464aefb4b965b9e49f7int,
        0x803c9eaba8fa71eb4a4fa96536e4f714bdceff15c4f0f6b24ffbc30cf2458edaint,
        0xa3f72acb06bb7da031f43d0b98ca5a3b17f600bf3077db32f3f05f21c910018bint);
    lemma_double(0xffffffff0int,
        0x803c9eaba8fa71eb4a4fa96536e4f714bdceff15c4f0f6b24ffbc30cf2458edaint,
        0xa3f72acb06bb7da031f43d0b98ca5a3b17f600bf3077db32f3f05f21c910018bint,
        0x4eb34c79827117c2632524e9f4d02fecf1eede4cdbedd17bc9b364e5ee04dd99int,
        0xf5bfdd6e28096dbada5a90d36c5f333ddfcbae3ff9f95a88fc428b92495acaceint,
        0x7403dc2554fcff16d40a046e05a3507ac66684a300481a48a36736b59fe7a734int);
    lemma_double(0x1fffffffe0int,
        0xf5bfdd6e28096dbada5a90d36c5f333ddfcbae3ff9f95a88fc428b92495acaceint,
        0x7403dc2554fcff16d40a046e05a3507ac66684a300481a48a36736b59fe7a734int,
        0x53b963e0e2a551f86b7527b4da6ce25b70cc5b23592b9b7b4a6768e1eb9eab20int,
        0xf9bfbf82de9d176ca7c6bdf398a56fcbbabd61f41a4b6688bceb6a4ba82b72c8int,
        0xc1adae302045783f941ef0dbe93edb63c1f6b7ff42250dbfdcf2d2f99cbcae9dint);
    lemma_double(0x3fffffffc0int,
        0xf9bfbf82de9d176ca7c6bdf398a56fcbbabd61f41a4b6688bceb6a4ba82b72c8int,
        0xc1adae302045783f941ef0dbe93edb63c1f6b7ff42250dbfdcf2d2f99cbcae9dint,
        0xb8f8d77f98b07b91a739fe888ef94517d1e11ec5ae46114d5d9fcc91b1494e2fint,
        0x45aacac4387db567315c42300d6461b1922b1d7b04d1ebca6998b46442e508d2int,
        0xf77a05dfe6f590829ad72adef8124d06b6b456871a9e6d77bbbd140a55062a47int);
}

/// The next multiples of the generator.
proof fn lemma_multiples_8()
    requires
        small_multiples(),
        multiple_is(0x7fffffff80int,
            0x45aacac4387db567315c42300d6461b1922b1d7b04d1ebca6998b46442e508d2int,
            0xf77a05dfe6f590829ad72adef8124d06b6b456871a9e6d77bbbd140a55062a47int),
    ensures
        multiple_is(0x1fffffffe000int,
            0xdd75090da916a7714ecbf81dceedcb4f8169f117a9914a1ab3aaa90bbd0cf019int,
            0x380a0e0fdcc7d2c1a44902d9b9f5eb12a3f5dc48693e7ab288291c0ea7f1f4cbint),
{
    lemma_double(0x7fffffff80int,
        0x45aacac4387db567315c42300d6461b1922b1d7b04d1ebca6998b46442e508d2int,
        0xf77a05dfe6f590829ad72adef8124d06b6b456871a9e6d77bbbd140a55062a47int,
        0x856480bf6645295b7cc166fcbf9ccb4213ca02b689e6a51515b002a54653b436int,
        0xe586d59f96d1c3239f908e358bb827e5776d721ac17837813d0ca0436cdfba43int,
        0x2c221df09914a1101705f1adfb69fa1741efa2214a16d935b2444b2c2a59aae9int);
    lemma_double(0xffffffff00int,
        0xe586d59f96d1c3239f908e358bb827e5776d721ac17837813d0ca0436cdfba43int,
        0x2c221df09914a1101705f1adfb69fa1741efa2214a16d935b2444b2c2a59aae9int,
        0xe5bd602b7c75efe5dd4bfee34f6d5f15c12502dc3d6a454e8416bf7262efd14dint,
        0x25d493915d5523796695553f3b555771ba3c2d7991b127cf20c2d84ba10c6714int,
        0xdf23c7cbddac695731da10cc2089659d67726230ea177580789562cdcfc3c66cint);
    lemma_double(0x1fffffffe00int,
        0x25d493915d5523796695553f3b555771ba3c2d7991b127cf20c2d84ba10c6714int,
        0xdf23c7cbddac695731da10cc2089659d67726230ea177580789562cdcfc3c66cint,
        0x901938d044075d035fec1e3dcc28585a76a2c4f101473d40d33faf2d07a666efint,
        0xcb57c89a7f748b1058850cad0f56abdc64ba3cc261cd57f30646b2d75172ea99int,
        0x6fa11fa312fb916fd9dc88dc5bf95567f413b9026287fd49d78e0c515dbae569int);
    lemma_double(0x3fffffffc00int,
        0xcb57c89a7f748b1058850cad0f56abdc64ba3cc261cd57f30646b2d75172ea99int,
        0x6fa11fa312fb916fd9dc88dc5bf95567f413b9026287fd49d78e0c515dbae569int,
        0x225568746c8026c61a929d9ee21cc8b663b8b70852d3eab403172b36db27773aint,
        0xdc46ba3ba5930172cb8d86b64358c623f82bf466c96d0bed7d46dd2dbdbed6c8int,
        0x36eb8f0fe74ffacb3756823dc92193fb371324ae5a9fb7b638c04dfbff73428cint);
    lemma_double(0x7fffffff800int,
        0xdc46ba3ba5930172cb8d86b64358c623f82bf466c96d0bed7d46dd2dbdbed6c8int,
        0x36eb8f0fe74ffacb3756823dc92193fb371324ae5a9fb7b638c04dfbff73428cint,
        0x730e7f0e730508b34af19c004afc304711f461a3ad85aa214506bbb2d38216bcint,
        0x9ff074615589ac64025a090247b7ecdb5af12a8cbc0d68280d93583a3ca4905cint,
        0x390559a84227ab1dbec695c194b2a8b36706be18032012d7588cde558080d31cint);
    lemma_double(0xffffffff000int,
        0x9ff074615589ac64025a090247b7ecdb5af12a8cbc0d68280d93583a3ca4905cint,
        0x390559a84227ab1dbec695c194b2a8b36706be18032012d7588cde558080d31cint,
        0x61bcdb4b66643b59a748a3260de0d150ba66d53835998a7618465429d353b8bcint,
        0xdd75090da916a7714ecbf81dceedcb4f8169f117a9914a1ab3aaa90bbd0cf019int,
        0x380a0e0fdcc7d2c1a44902d9b9f5eb12a3f5dc48693e7ab288291c0ea7f1f4cbint);
}

/// The next multiples of the generator.
proof fn lemma_multiples_9()
    requires
        small_multiples(),
        multiple_is(0x1fffffffe000int,
            0xdd75090da916a7714ecbf81dceedcb4f8169f117a9914a1ab3aaa90bbd0cf019int,
            0x380a0e0fdcc7d2c1a44902d9b9f5eb12a3f5dc48693e7ab288291c0ea7f1f4cbint),
    ensures
        multiple_is(0x7fffffff80000int,
            0x6a2ca24329a14d2586d4d84afbbc2e427cd19f30e5da079043a0ff685627a21bint,
            0x715b966cbb3fbc9e8945f98206c054a762d417938414a26af21974727d2c9926int),
{
    lemma_double(0x1fffffffe000int,
        0xdd75090da916a7714ecbf81dceedcb4f8169f117a9914a1ab3aaa90bbd0cf019int,
        0x380a0e0fdcc7d2c1a44902d9b9f5eb12a3f5dc48693e7ab288291c0ea7f1f4cbint,
        0xc9651e62d6774d6d434978a729e20c44dbdf244c051785d459e9d397faf72d77int,
        0x5da7422f1663c6d57e2d1582920e4644d7fb1f5597d27d56d00eb7fb982f582bint,
        0xc6dc13fd9f8bac18f672b8fd5a1ed7fbb54eddbf6c2d22f158fe9c312858a10bint);
    lemma_double(0x3fffffffc000int,
        0x5da7422f1663c6d57e2d1582920e4644d7fb1f5597d27d56d00eb7fb982f582bint,
        0xc6dc13fd9f8bac18f672b8fd5a1ed7fbb54eddbf6c2d22f158fe9c312858a10bint,
        0xd5c0e76343a81b2fccebfe410ee5f059d6813035f76b381d8a4c32004e356535int,
        0xcc5cf8384395586507e793938f79a3025602ef45fbf8a89e0ff6c5db6a782a1cint,
        0xfb96d696ea57e0306d356bf964dd83943e50619e19dc791971d0e9a6a7840a5dint);
    lemma_double(0x7fffffff8000int,
        0xcc5cf8384395586507e793938f79a3025602ef45fbf8a89e0ff6c5db6a782a1cint,
        0xfb96d696ea57e0306d356bf964dd83943e50619e19dc791971d0e9a6a7840a5dint,
        0x33ca08f7f6caf3b2bc2dd0597e53765ce9a3a459a2d6ec8c14fd62b9829c8036int,
        0xf248d9b1b84ac2366fee7d47fce9f31c4533a9698bee5ee13fae5147b6139223int,
        0x73a4fbb68dcaeace798186ee0008cf52f074446c745a91109967d36b922c3028int);
    lemma_double(0xffffffff0000int,
        0xf248d9b1b84ac2366fee7d47fce9f31c4533a9698bee5ee13fae5147b6139223int,
        0x73a4fbb68dcaeace798186ee0008cf52f074446c745a91109967d36b922c3028int,
        0xe3d88474bf049aa8c92e117118d8ae2192be22c3afc88bbb6d45984b246b29a7int,
        0x3f069f0caf6d1b8a003183e31d6a7639fc9662fb33f78337c98fc3583bcdc78bint,
        0xf0d634c2804a56d4192802decaf900685a573f23359cd35a7037e22ba20ab87eint);
    lemma_double(0x1fffffffe0000int,
        0x3f069f0caf6d1b8a003183e31d6a7639fc9662fb33f78337c98fc3583bcdc78bint,
        0xf0d634c2804a56d4192802decaf900685a573f23359cd35a7037e22ba20ab87eint,
        0x48e767de0f22738d95a0cde900e2811f059cc9b0b4d8f7c6662c971f6dd8540eint,
        0x2b22713cb4d4d6f0729f0f208f747d99f65813faf13d28ced0db001f0bad4171int,
        0x60442684cdb5ae6002e09997cc26f8bc3267c71a48db3d6c479ac9fae4e701e2int);
    lemma_double(0x3fffffffc0000int,
        0x2b22713cb4d4d6f0729f0f208f747d99f65813faf13d28ced0db001f0bad4171int,
        0x60442684cdb5ae6002e09997cc26f8bc3267c71a48db3d6c479ac9fae4e701e2int,
        0x40ce2d624ccbdda2181d7203eceba6f86c74ffecf1099f60709afd4e366ad7fcint,
        0x6a2ca24329a14d2586d4d84afbbc2e427cd19f30e5da079043a0ff685627a21bint,
        0x715b966cbb3fbc9e8945f98206c054a762d417938414a26af21974727d2c9926int);
}

/// The next multiples of the generator.
proof fn lemma_multiples_10()
    requires
        small_multiples(),
        multiple_is(0x7fffffff80000int,
            0x6a2ca24329a14d2586d4d84afbbc2e427cd19f30e5da079043a0ff685627a21bint,
            0x715b966cbb3fbc9e8945f98206c054a762d417938414a26af21974727d2c9926int),
    ensures
        multiple_is(0x1fffffffe000000int,
            0x6fa565a378dde0df22f612f3779f8db8ff70ccae2e9ba8a15647f0ae541844efint,
            0x7ae276bec1d2bec9d4eb64f0b20da6fa810c27b136c0c00d0f0465141c8a47f0int),
{
    lemma_double(0x7fffffff80000int,
        0x6a2ca24329a14d2586d4d84afbbc2e427cd19f30e5da079043a0ff685627a21bint,
        0x715b966cbb3fbc9e8945f98206c054a762d417938414a26af21974727d2c9926int,
        0x7ca5a95dbd0f238188c92bc10fe3120ca5cdc8c94f5543f619e7b4a285fac63int,
        0xace880fd319db60e08e8312362822b4aab68bc33f988ea72759ded54b65286c3int,
        0xa393c7a518957d2cd62437d88a15ced5e93c5ec758dd9206fc340760108fa157int);
    lemma_double(0xffffffff00000int,
        0xace880fd319db60e08e8312362822b4aab68bc33f988ea72759ded54b65286c3int,
        0xa393c7a518957d2cd62437d88a15ced5e93c5ec758dd9206fc340760108fa157int,
        0x1695cb9add979f9b44bba53cddc3af6ec9a9ada1fcecce7cc21c53ebfe9bf13fint,
        0x17d021e5a0822845da7ff25f0cc23e3ecfb6e2b9adad4bf6fc0f32bc7663df1int,
        0x8889b06b8f2bc13f3816c9f400ca112eec03be1b188b1fab43488aeaa760c363int);
    lemma_double(0x1fffffffe00000int,
        0x17d021e5a0822845da7ff25f0cc23e3ecfb6e2b9adad4bf6fc0f32bc7663df1int,
        0x8889b06b8f2bc13f3816c9f400ca112eec03be1b188b1fab43488aeaa760c363int,
        0xb52ef301be713cd3721fb2eb26e9651c62dbd5611dbf05a2a082290ba0205c5bint,
        0xd53d5a852cb411a97e99b8cb5bb9578b51d8c2e6b1711a9d23700327fd38e388int,
        0x1b20a99853937f9873930c491b525c60d2c0203c21cbac126967833a34ebb804int);
    lemma_double(0x3fffffffc00000int,
        0xd53d5a852cb411a97e99b8cb5bb9578b51d8c2e6b1711a9d23700327fd38e388int,
        0x1b20a99853937f9873930c491b525c60d2c0203c21cbac126967833a34ebb804int,
        0x477a8d7b28feffaee439432c1cb34e620d2b28f77d7a02dd8f8b7b25da055f0aint,
        0x24688c9b2b59562d73bafa55e3694d2d98741c02069a5bff70e14afb6a34f44cint,
        0xd669974b3228c4a8a923dd131423654b3149fde6979481cbababd6e5e46fb164int);
    lemma_double(0x7fffffff800000int,
        0x24688c9b2b59562d73bafa55e3694d2d98741c02069a5bff70e14afb6a34f44cint,
        0xd669974b3228c4a8a923dd131423654b3149fde6979481cbababd6e5e46fb164int,
        0x3df23d02be64203da86b3586f55929b44d3b721a7d42d1f74c2790f568dedb19int,
        0x11007f19319af1a6d1ce80397deeb0e8563689ee692ba5a0315c20927bcf0185int,
        0xe817e244a8c06ac138d4c0b10e6810088a0267b0dcf51e6766dcf514fb4b3291int);
    lemma_double(0xffffffff000000int,
        0x11007f19319af1a6d1ce80397deeb0e8563689ee692ba5a0315c20927bcf0185int,
        0xe817e244a8c06ac138d4c0b10e6810088a0267b0dcf51e6766dcf514fb4b3291int,
        0xc4edab784cc66e9dc3ddc0a1bb35098abbebb6da1bd0379f4f35495b1810da1bint,
        0x6fa565a378dde0df22f612f3779f8db8ff70ccae2e9ba8a15647f0ae541844efint,
        0x7ae276bec1d2bec9d4eb64f0b20da6fa810c27b136c0c00d0f0465141c8a47f0int);
}

/// The next multiples of the generator.
proof fn lemma_multiples_11()
    requires
        small_multiples(),
        multiple_is(0x1fffffffe000000int,
            0x6fa565a378dde0df22f612f3779f8db8ff70ccae2e9ba8a15647f0ae541844efint,
            0x7ae276bec1d2bec9d4eb64f0b20da6fa810c27b136c0c00d0f0465141c8a47f0int),
    ensures
        multiple_is(0x7fffffff80000000int,
            0x59d10e27a2e1d2e0f244547873a77c6a9698147cfe238b843f329338c29aebdaint,
            0xfe9421b3711ca96e839fde225fd3fb52195f60e1434087b704602925f18c5f09int),
{
    lemma_double(0x1fffffffe000000int,
        0x6fa565a378dde0df22f612f3779f8db8ff70ccae2e9ba8a15647f0ae541844efint,
        0x7ae276bec1d2bec9d4eb64f0b20da6fa810c27b136c0c00d0f0465141c8a47f0int,
        0x88fd5e6ed410c082c3ce11a91fb70b3f67e4a7765d05e18d7f947b38ca97f419int,
        0x6db2fc5f840c467555dfc8257eacfed24cb8dab28afe143ac02ebf90e61dbba0int,
        0xf7a91123a9a8b15e300d42a897c5793991e38ff29bd9757303cb4a2799aed283int);
    lemma_double(0x3fffffffc000000int,
        0x6db2fc5f840c467555dfc8257eacfed24cb8dab28afe143ac02ebf90e61dbba0int,
        0xf7a91123a9a8b15e300d42a897c5793991e38ff29bd9757303cb4a2799aed283int,
        0xf20a57ee70df07d6ce91f0bd0a46160e3a6c07e71c958c66141e21069158d350int,
        0xc3376dd235c533ecccf4dde080377e969556216f981cb9db824041c9c94d7468int,
        0xa88754c4e3cd3d42fa0c78f4614d41b8bd7424db314f6710b6ec89cb7de14d0fint);
    lemma_double(0x7fffffff8000000int,
        0xc3376dd235c533ecccf4dde080377e969556216f981cb9db824041c9c94d7468int,
        0xa88754c4e3cd3d42fa0c78f4614d41b8bd7424db314f6710b6ec89cb7de14d0fint,
        0xf1fbc80729ab01a5ccb119d4f3c345cb8f969116d59a28f5bc535098ecc8e08cint,
        0x682c1373b018b924f6ec5ee81fd0d65ded7abe66e21640e973f132b2253ee808int,
        0x67eecad0de63ed1d78e66b6ea15d5fc4253683955d973189a31bc585d170e061int);
    lemma_double(0xffffffff0000000int,
        0x682c1373b018b924f6ec5ee81fd0d65ded7abe66e21640e973f132b2253ee808int,
        0x67eecad0de63ed1d78e66b6ea15d5fc4253683955d973189a31bc585d170e061int,
        0xb6f56f88616f73e59cd055fedf26a4e7e9b7d3805a7210f8280ce5f968813bdbint,
        0x8f4960d0fad5121e7ffffe005df1761de7f8e1c2cdf965478173dbe628e75af2int,
        0x7c853b801b2e85abe2a219299d17921498c82bfbec9ecd3ea2d6d5a066064c18int);
    lemma_double(0x1fffffffe0000000int,
        0x8f4960d0fad5121e7ffffe005df1761de7f8e1c2cdf965478173dbe628e75af2int,
        0x7c853b801b2e85abe2a219299d17921498c82bfbec9ecd3ea2d6d5a066064c18int,
        0x95293b8c9d1b7cbee1c6a40dddbfa08124cd4c445226188841a5ce723091ed70int,
        0xb780013f82cafd3fb064c465c74e23abd489f4c630168820d51976a7b9c1a67fint,
        0x8483796ed584235343c4095575ce7fd0fa870b4f17da440ff188eb514617cbdaint);
    lemma_double(0x3fffffffc0000000int,
        0xb780013f82cafd3fb064c465c74e23abd489f4c630168820d51976a7b9c1a67fint,
        0x8483796ed584235343c4095575ce7fd0fa870b4f17da440ff188eb514617cbdaint,
        0x5fc30199770d63f9306b8eb5b70c590e7a78844d7f32b7599bffe25242913afcint,
        0x59d10e27a2e1d2e0f244547873a77c6a9698147cfe238b843f329338c29aebdaint,
        0xfe9421b3711ca96e839fde225fd3fb52195f60e1434087b704602925f18c5f09int);
}

/// The next multiples of the generator.
proof fn lemma_multiples_12()
    requires
        small_multiples(),
        multiple_is(0x7fffffff80000000int,
            0x59d10e27a2e1d2e0f244547873a77c6a9698147cfe238b843f329338c29aebdaint,
            0xfe9421b3711ca96e839fde225fd3fb52195f60e1434087b704602925f18c5f09int),
    ensures
        multiple_is(0xffffffff00000000fint,
            0x1d3e5678323992c5407db0fc0d0b352895d35853bbe32e89347519e40a8f428dint,
            0xc3d31bc46b8ab302741b132c51657d03c669a0bb419b1f280c8de278a5c3e773int),
{
    lemma_double(0x7fffffff80000000int,
        0x59d10e27a2e1d2e0f244547873a77c6a9698147cfe238b843f329338c29aebdaint,
        0xfe9421b3711ca96e839fde225fd3fb52195f60e1434087b704602925f18c5f09int,
        0xe6f5915845524817c9b060c18d8b717cac8fca080e26cbcd288bf75a7faab605int,
        0xb9cdba7bfd6dadb74e360dbd5aa41547daa0afb084de8807cd635be8e4398ffcint,
        0x6422e5623a2035b7f4c596afa4bde2261698be60c7b910bdeee0554b1882c80int);
    lemma_double(0xffffffff00000000int,
        0xb9cdba7bfd6dadb74e360dbd5aa41547daa0afb084de8807cd635be8e4398ffcint,
        0x6422e5623a2035b7f4c596afa4bde2261698be60c7b910bdeee0554b1882c80int,
        0x5964c5233f7fd444ac5e95e0039f0cab6fa80871add7e1b32f0a722a6608889cint,
        0xd3e088b3d86e948a511cb9cd320eef8885a923bfafdd2e0045f1e3677ea17d8bint,
        0xa35c11622ee976688fcae92cef9b0a88aa57587ac49e2b69d1b33a403f5a98e3int);
    lemma_double(0x1fffffffe00000000int,
        0xd3e088b3d86e948a511cb9cd320eef8885a923bfafdd2e0045f1e3677ea17d8bint,
        0xa35c11622ee976688fcae92cef9b0a88aa57587ac49e2b69d1b33a403f5a98e3int,
        0x748605f98a44ffdb3930cea42bf820c24251d42f4514668204d50214f20ec435int,
        0xeefd602f85546c6feb2428f5bceb6cc400ec680ec663dce4b7168800b74a7f4cint,
        0x4ed6f3b4ee2669ad38432539763d66585c46a81af01e7557d9b87f9fe614367int);
    lemma_double(0x3fffffffc00000000int,
        0xeefd602f85546c6feb2428f5bceb6cc400ec680ec663dce4b7168800b74a7f4cint,
        0x4ed6f3b4ee2669ad38432539763d66585c46a81af01e7557d9b87f9fe614367int,
        0xbfa7581ba17e7011a35037f5554ec574466581d61ebf651be54010d1b3462128int,
        0x2e7a2e6feb61ffd53da8a3bd7d8967289ac109cf537c00cfffe410a12fb715acint,
        0xfb4d4a1b7deea4f310dd30892be8d98007a78d510a3a0434dfc1547efb43f30bint);
    lemma_double(0x7fffffff800000000int,
        0x2e7a2e6feb61ffd53da8a3bd7d8967289ac109cf537c00cfffe410a12fb715acint,
        0xfb4d4a1b7deea4f310dd30892be8d98007a78d510a3a0434dfc1547efb43f30bint,
        0x15ccf0c1cbb1265789c91d1e08af146542fc69685d2f29bbf2b57c8be05b29dcint,
        0x8af778ea48bd951207df9783c1b903d1f1228e1a898dc77a1a9122f8d78265b0int,
        0xeeb65ad4bca0878f8da03ddae0dde90504eeb9f7c175cfb158c6d018b807af34int);
    lemma_join(0xffffffff000000000int, 0xfint,
        0x8af778ea48bd951207df9783c1b903d1f1228e1a898dc77a1a9122f8d78265b0int,
        0xeeb65ad4bca0878f8da03ddae0dde90504eeb9f7c175cfb158c6d018b807af34int,
        0xf0454dc6971abae7adfb378999888265ae03af92de3a0ef163668c63e59b9d5fint,
        0xb5b93ee3592e2d1f4e6594e51f9643e62a3b21ce75b5fa3f47e59cde0d034f36int,
        0xcf922f75d168d612c95dd9504f8a11db8d608651ebbbd9f8f29b2ea48fe9bd76int,
        0x1d3e5678323992c5407db0fc0d0b352895d35853bbe32e89347519e40a8f428dint,
        0xc3d31bc46b8ab302741b132c51657d03c669a0bb419b1f280c8de278a5c3e773int);
}

/// The next multiples of the generator.
proof fn lemma_multiples_13()
    requires
        small_multiples(),
        multiple_is(0xffffffff00000000fint,
            0x1d3e5678323992c5407db0fc0d0b352895d35853bbe32e89347519e40a8f428dint,
            0xc3d31bc46b8ab302741b132c51657d03c669a0bb419b1f280c8de278a5c3e773int),
    ensures
        multiple_is(0x1fffffffe00000001feint,
            0x68d2ef28c2f97640ba9bacab4762bcb232cdf9f7d247a65b88ed89fc4489772fint,
            0x38fac840eb86a0c2980bd61f1134953ee4886dcc0a2847c7dd844770c3848afint),
{
    lemma_double(0xffffffff00000000fint,
        0x1d3e5678323992c5407db0fc0d0b352895d35853bbe32e89347519e40a8f428dint,
        0xc3d31bc46b8ab302741b132c51657d03c669a0bb419b1f280c8de278a5c3e773int,
        0x5f44fa9e56759b25e964f702cb194f3ebe9ea41bea10a3b7fea63fb8ff411f7int,
        0x365a94449264b3377e327fa5415ba41948ed7650fdb9f8e38fa8b1a6fc2ed81eint,
        0x94b2b60577f8a593f1967009c4247a0fb578b29863a58076cf15152fd8508228int);
    lemma_double(0x1fffffffe00000001eint,
        0x365a94449264b3377e327fa5415ba41948ed7650fdb9f8e38fa8b1a6fc2ed81eint,
        0x94b2b60577f8a593f1967009c4247a0fb578b29863a58076cf15152fd8508228int,
        0x5ac37258e30406a0dd5370ed0569d5656ec58e6bd1357a4cd4698ebb4585f9e9int,
        0xe09c7d3c046bd005ee7d10a76173903c9985bb70341e06d7dadea212359e2f51int,
        0x9821ce6f552d8b8b6d406f3f95106b44cd1f5197973dd475942e8ecf99a967cint);
    lemma_double(0x3fffffffc00000003cint,
        0xe09c7d3c046bd005ee7d10a76173903c9985bb70341e06d7dadea212359e2f51int,
        0x9821ce6f552d8b8b6d406f3f95106b44cd1f5197973dd475942e8ecf99a967cint,
        0xbd50a8cfdfd77ba711a8ea6fd3e54bac7d53c83648358064e0b7b5a63e30f963int,
        0x7131f999b8ce24d0b53bee84234185ca8d5a4bbd904f03e9d421c7e339136b50int,
        0xa59abbf3687c6c303d09ca66735aa07c53fa248e5dafd50bf55b3693ffd854d1int);
    lemma_double(0x7fffffff8000000078int,
        0x7131f999b8ce24d0b53bee84234185ca8d5a4bbd904f03e9d421c7e339136b50int,
        0xa59abbf3687c6c303d09ca66735aa07c53fa248e5dafd50bf55b3693ffd854d1int,
        0xc4e67f7115105aaf5efc4eae8dbef24adb55b39e154ac4bb498c9042fa16d913int,
        0xb67ad5652c693b6b3015bed64297ba00cb93b118936c266139149d5bd325984dint,
        0xd2d0c5bd186597a946847318de6390ec76ed7e161c5bec6ac372f41551745c78int);
    lemma_join(0xffffffff00000000f0int, 0xfint,
        0xb67ad5652c693b6b3015bed64297ba00cb93b118936c266139149d5bd325984dint,
        0xd2d0c5bd186597a946847318de6390ec76ed7e161c5bec6ac372f41551745c78int,
        0xf0454dc6971abae7adfb378999888265ae03af92de3a0ef163668c63e59b9d5fint,
        0xb5b93ee3592e2d1f4e6594e51f9643e62a3b21ce75b5fa3f47e59cde0d034f36int,
        0x8d61faf6af17ea8a1980af750e433c29f1d68708a3be283af60ba975f18985d5int,
        0x3caba4fdcfa5aa3d2b826f1a94f213183fc803b687e0ed9b695b78438b957012int,
        0x9366bdf513344e793eed58a70c463726e5ba5018a6216c45a47ac2943262b067int);
    lemma_double(0xffffffff00000000ffint,
        0x3caba4fdcfa5aa3d2b826f1a94f213183fc803b687e0ed9b695b78438b957012int,
        0x9366bdf513344e793eed58a70c463726e5ba5018a6216c45a47ac2943262b067int,
        0x63202e522ddf7de3dd735dcdd91ca51854212e2ae81f582fd2ead066ae75f9bbint,
        0x68d2ef28c2f97640ba9bacab4762bcb232cdf9f7d247a65b88ed89fc4489772fint,
        0x38fac840eb86a0c2980bd61f1134953ee4886dcc0a2847c7dd844770c3848afint);
}

/// The next multiples of the generator.
proof fn lemma_multiples_14()
    requires
        small_multiples(),
        multiple_is(0x1fffffffe00000001feint,
            0x68d2ef28c2f97640ba9bacab4762bcb232cdf9f7d247a65b88ed89fc4489772fint,
            0x38fac840eb86a0c2980bd61f1134953ee4886dcc0a2847c7dd844770c3848afint),
    ensures
        multiple_is(0x3fffffffc00000003ffcint,
            0x9033a9b4e3f9eb1ac93b918ffda2affadfdf2fd59c532cb2293171ecbc53da81int,
            0x15627634442a8e51b2ae67ade42e5c31577d42e5310c12e682b3d4ca4c229486int),
{
    lemma_double(0x1fffffffe00000001feint,
        0x68d2ef28c2f97640ba9bacab4762bcb232cdf9f7d247a65b88ed89fc4489772fint,
        0x38fac840eb86a0c2980bd61f1134953ee4886dcc0a2847c7dd844770c3848afint,
        0x858cec65a85691fc3ee59f00c03e1f9d0042722149dd5e44de43947f862ab4c1int,
        0x29ff37ed966477beecae845b344f970a27519e57b323b274052a3351caf9c478int,
        0xc878c76ff0f09bdad0ec1dd0b03cb8dca8d593662a5ec08a2aa62a36ca5e0cd4int);
    lemma_double(0x3fffffffc00000003fcint,
        0x29ff37ed966477beecae845b344f970a27519e57b323b274052a3351caf9c478int,
        0xc878c76ff0f09bdad0ec1dd0b03cb8dca8d593662a5ec08a2aa62a36ca5e0cd4int,
        0xbda512a6ede2f940625d9ee659e3d546fed9e9a24726bc96c09d65e69e947359int,
        0xe5bc6e9f4b3dc0d2d9fd36ce1d91d66235b9e6369e8bd87ef69b966ece8c759fint,
        0xf3bc4eb8e94f5a087c1e132700420948fc8b9da326fdcbd4150ad5b9f0185320int);
    lemma_double(0x7fffffff800000007f8int,
        0xe5bc6e9f4b3dc0d2d9fd36ce1d91d66235b9e6369e8bd87ef69b966ece8c759fint,
        0xf3bc4eb8e94f5a087c1e132700420948fc8b9da326fdcbd4150ad5b9f0185320int,
        0xab9d65af69841eec897692ed4b1b3804af62d4b6ad78b4429752fccf0dfadb3aint,
        0xc6c1b8296b00ec49986bb576ad6c18b9aeac9c1256c81c7c7ec3184a57b5bc75int,
        0x54ca134687042aad6047b5e0f235a2ce211566c176c4f7d155d3aa0f0094070dint);
    lemma_join(0xffffffff00000000ff0int, 0xfint,
        0xc6c1b8296b00ec49986bb576ad6c18b9aeac9c1256c81c7c7ec3184a57b5bc75int,
        0x54ca134687042aad6047b5e0f235a2ce211566c176c4f7d155d3aa0f0094070dint,
        0xf0454dc6971abae7adfb378999888265ae03af92de3a0ef163668c63e59b9d5fint,
        0xb5b93ee3592e2d1f4e6594e51f9643e62a3b21ce75b5fa3f47e59cde0d034f36int,
        0x287fa13fa2a0f48f31c051775fbcf0c66aafd911dfd2fc491782d8245d658db2int,
        0x9dc04f2587021078c29ed7a473a0bbb34832c5906cab3b6694cad7381dd33690int,
        0x6bf303ecbdb44e6c484c7425abcc9183f55f7bada9c2cc8ca3ca17eb699d2ef3int);
    lemma_double(0xffffffff00000000fffint,
        0x9dc04f2587021078c29ed7a473a0bbb34832c5906cab3b6694cad7381dd33690int,
        0x6bf303ecbdb44e6c484c7425abcc9183f55f7bada9c2cc8ca3ca17eb699d2ef3int,
        0x5e49ce521dde3639276fc58c8748a9fb9ee3cdd8c3b0abbce67f53dd15a1578bint,
        0xf3056f9a0c6a0bad68181cc15f93603c778f1562b965a2b3e75ff7e7e857e0b2int,
        0x5a340823ab634e7e2f388fc3b71bcbc8fe8d5c1220ac530c5b2598b48c718a5cint);
    lemma_double(0x1fffffffe00000001ffeint,
        0xf3056f9a0c6a0bad68181cc15f93603c778f1562b965a2b3e75ff7e7e857e0b2int,
        0x5a340823ab634e7e2f388fc3b71bcbc8fe8d5c1220ac530c5b2598b48c718a5cint,
        0x90517661937b6027fe3a017ffd461f3177c2acb5af3e79effc16bdda9423f5dint,
        0x9033a9b4e3f9eb1ac93b918ffda2affadfdf2fd59c532cb2293171ecbc53da81int,
        0x15627634442a8e51b2ae67ade42e5c31577d42e5310c12e682b3d4ca4c229486int);
}

/// The next multiples of the generator.
proof fn lemma_multiples_15()
    requires
        small_multiples(),
        multiple_is(0x3fffffffc00000003ffcint,
            0x9033a9b4e3f9eb1ac93b918ffda2affadfdf2fd59c532cb2293171ecbc53da81int,
            0x15627634442a8e51b2ae67ade42e5c31577d42e5310c12e682b3d4ca4c229486int),
    ensures
        multiple_is(0x7fffffff800000007fff8int,
            0xd7a213f7b07a6eb19f1d82a73027dca02400cb7cbfdc37d0dce041a4e5249f3fint,
            0x202d9d1cd84aaa392643a296eb661b6f7ab58d71a840bea232e47b8ed230e627int),
{
    lemma_double(0x3fffffffc00000003ffcint,
        0x9033a9b4e3f9eb1ac93b918ffda2affadfdf2fd59c532cb2293171ecbc53da81int,
        0x15627634442a8e51b2ae67ade42e5c31577d42e5310c12e682b3d4ca4c229486int,
        0x40e895d62f7a8e9cfd51ba3d79b90c983da61e7c643eddcc7b7ebaef63f0aba0int,
        0x1be2e52f852af6284b22c8fa9e71d532e21b8e2ed3e6db236af5131f74716ca6int,
        0xc9f53d776cc7d0546e66fb26b1b7d0f7c84b4c8c84b5d26604bcf74a6ea99d3aint);
    lemma_double(0x7fffffff800000007ff8int,
        0x1be2e52f852af6284b22c8fa9e71d532e21b8e2ed3e6db236af5131f74716ca6int,
        0xc9f53d776cc7d0546e66fb26b1b7d0f7c84b4c8c84b5d26604bcf74a6ea99d3aint,
        0xeccb79e975393df076b51b1bfe2c0fe745ed42b2a77880c34a792522df812759int,
        0x6da6874ed7430087fbe1fff43bce30a06a779335cb62fc3d8cd38e9c0f395803int,
        0xf6c009c7aa8ac9c0e4270eb330cd9458facb263b8715e32e92fd4e2025ff7b37int);
    lemma_join(0xffffffff00000000fff0int, 0xfint,
        0x6da6874ed7430087fbe1fff43bce30a06a779335cb62fc3d8cd38e9c0f395803int,
        0xf6c009c7aa8ac9c0e4270eb330cd9458facb263b8715e32e92fd4e2025ff7b37int,
        0xf0454dc6971abae7adfb378999888265ae03af92de3a0ef163668c63e59b9d5fint,
        0xb5b93ee3592e2d1f4e6594e51f9643e62a3b21ce75b5fa3f47e59cde0d034f36int,
        0xb6f60e3ea7cfa14e12f5a8d34786acd38c126415bb81cc7f8f850c501ccd54c6int,
        0x9c8d4a79f703679e000efc463af86aafc028e80b29a45f446e7ff85ed5f75c7fint,
        0xb7556ea323ed0ba2a47e09146ca998f88d4368231896b126c8c332d3640ccca5int);
    lemma_double(0xffffffff00000000ffffint,
        0x9c8d4a79f703679e000efc463af86aafc028e80b29a45f446e7ff85ed5f75c7fint,
        0xb7556ea323ed0ba2a47e09146ca998f88d4368231896b126c8c332d3640ccca5int,
        0xbc8b0845cfe9aed26c9f60a85e019fe3f7e48db3549398b43df5ae0951c1355bint,
        0xb2f011a174ce30b14936fe37919caba39be5bc48e521fe8611c27e93395f9f23int,
        0xfa7c699b2016fda1c844c68ab4f76e628431ccc090ab6f5594129bfde91594dfint);
    lemma_double(0x1fffffffe00000001fffeint,
        0xb2f011a174ce30b14936fe37919caba39be5bc48e521fe8611c27e93395f9f23int,
        0xfa7c699b2016fda1c844c68ab4f76e628431ccc090ab6f5594129bfde91594dfint,
        0x8ae90b44f2db7275dddec41b9b773671078313df93d70d7ec0d6a9d540a31e66int,
        0x9e56d0791f1cff551eba09f3c5663b3347bb5f93f5fac1cc8090414d9e5108b5int,
        0x72655317209ccc0ace04f6e9570d3311aeca808a9c99daf82a5a8bb836c38534int);
    lemma_double(0x3fffffffc00000003fffcint,
        0x9e56d0791f1cff551eba09f3c5663b3347bb5f93f5fac1cc8090414d9e5108b5int,
        0x72655317209ccc0ace04f6e9570d3311aeca808a9c99daf82a5a8bb836c38534int,
        0xdb614aebed68d7d8e4e807fbe625e9df9e918c17d7dd3d9df72a2759d4720227int,
        0xd7a213f7b07a6eb19f1d82a73027dca02400cb7cbfdc37d0dce041a4e5249f3fint,
        0x202d9d1cd84aaa392643a296eb661b6f7ab58d71a840bea232e47b8ed230e627int);
}

/// The next multiples of the generator.
proof fn lemma_multiples_16()
    requires
        small_multiples(),
        multiple_is(0x7fffffff800000007fff8int,
            0xd7a213f7b07a6eb19f1d82a73027dca02400cb7cbfdc37d0dce041a4e5249f3fint,
            0x202d9d1cd84aaa392643a296eb661b6f7ab58d71a840bea232e47b8ed230e627int),
    ensures
        multiple_is(0xffffffff00000000fffff0int,
            0xd3662178a2a702df6d699ec5b3440ebbed4a8aca314dcd5b7cb2d2daeeac3e4dint,
            0xfcbd72847d23bb19d67f433ba4e265efd1b78876a79fa9eff09969da64678052int),
{
    lemma_double(0x7fffffff800000007fff8int,
        0xd7a213f7b07a6eb19f1d82a73027dca02400cb7cbfdc37d0dce041a4e5249f3fint,
        0x202d9d1cd84aaa392643a296eb661b6f7ab58d71a840bea232e47b8ed230e627int,
        0x906098b81630498e7826360a6b9b5b8e70884c8b8faf779e5618f4ac85dec264int,
        0x50b97ea1c34376b722e08a3731fa88f22b6cb5ea29e5f6aec2dbc2d38aabd604int,
        0x1e5e50d3cd972d04500af4e8aec9f41ee990e7f86edd961a33a561913581b650int);
    lemma_join(0xffffffff00000000ffff0int, 0xfint,
        0x50b97ea1c34376b722e08a3731fa88f22b6cb5ea29e5f6aec2dbc2d38aabd604int,
        0x1e5e50d3cd972d04500af4e8aec9f41ee990e7f86edd961a33a561913581b650int,
        0xf0454dc6971abae7adfb378999888265ae03af92de3a0ef163668c63e59b9d5fint,
        0xb5b93ee3592e2d1f4e6594e51f9643e62a3b21ce75b5fa3f47e59cde0d034f36int,
        0xe063af166c024088b78a8e61f3918d7bf6ab47834754f4e33ab4ba44aa9413cint,
        0xa23339a0e941265a76a6f10b2e8aead481e57ad85490cc8696924923e547ed81int,
        0xa8ae4ceb924cd7c12fd0d8a512fdad30b358fdb076d7d958c49c39e0b8eb92fint);
    lemma_double(0xffffffff00000000fffffint,
        0xa23339a0e941265a76a6f10b2e8aead481e57ad85490cc8696924923e547ed81int,
        0xa8ae4ceb924cd7c12fd0d8a512fdad30b358fdb076d7d958c49c39e0b8eb92fint,
        0x4189983cc2a433e32e4c0ca067d18c8944722d6ff6e38f3c56c4aa36b977294dint,
        0x939fb0d93c5d6669432d90135d5f529f85cf2c9bef9981752710ac034d526acfint,
        0x13e8c5af048f49f0acfb14ae90b7da84a1aefb2c1605550d4b1898b0e16cf0aint);
    lemma_double(0x1fffffffe00000001ffffeint,
        0x939fb0d93c5d6669432d90135d5f529f85cf2c9bef9981752710ac034d526acfint,
        0x13e8c5af048f49f0acfb14ae90b7da84a1aefb2c1605550d4b1898b0e16cf0aint,
        0xe3ae71ae6334d2f4e70fd67aad0c9cbd5f2c37967c220bcd58c12e23d547a83cint,
        0xb1d9967cc26e2a8a80bbf1f507b816a20cd56964bdcf871c3539d54d9484df3aint,
        0xc6aadd7c55b013256c87b2e1654b5bce3b8e986a35c95068ece4c22cbec9dfadint);
    lemma_double(0x3fffffffc00000003ffffcint,
        0xb1d9967cc26e2a8a80bbf1f507b816a20cd56964bdcf871c3539d54d9484df3aint,
        0xc6aadd7c55b013256c87b2e1654b5bce3b8e986a35c95068ece4c22cbec9dfadint,
        0x40e350432d3c17a300c34f502ad1f5a319d15305bda6afcba6f776e0207b0f6dint,
        0x7c1f217703fa5033acaf088944aa09189fc7dbb412290daccb9529a0248bc823int,
        0xf6857ceae02a568a69a073194e95e1367dd7f2e82b167ce22e93c9aa0e478904int);
    lemma_double(0x7fffffff800000007ffff8int,
        0x7c1f217703fa5033acaf088944aa09189fc7dbb412290daccb9529a0248bc823int,
        0xf6857ceae02a568a69a073194e95e1367dd7f2e82b167ce22e93c9aa0e478904int,
        0x741b3bf9591fbd5e9daa492c805514765f3069621b7809273832d3e215165ef8int,
        0xd3662178a2a702df6d699ec5b3440ebbed4a8aca314dcd5b7cb2d2daeeac3e4dint,
        0xfcbd72847d23bb19d67f433ba4e265efd1b78876a79fa9eff09969da64678052int);
}

/// The next multiples of the generator.
proof fn lemma_multiples_17()
    requires
        small_multiples(),
        multiple_is(0xffffffff00000000fffff0int,
            0xd3662178a2a702df6d699ec5b3440ebbed4a8aca314dcd5b7cb2d2daeeac3e4dint,
            0xfcbd72847d23bb19d67f433ba4e265efd1b78876a79fa9eff09969da64678052int),
    ensures
        multiple_is(0xffffffff00000000fffffffint,
            0x53ca8538045229a5c6967f747a671f87ebeaa64ad499b8185593c4d6c6fca8d2int,
            0x2f72b528a37523d2d62db384a7fae055afe8bd4ad94184b335ed684801616a81int),
{
    lemma_join(0xffffffff00000000fffff0int, 0xfint,
        0xd3662178a2a702df6d699ec5b3440ebbed4a8aca314dcd5b7cb2d2daeeac3e4dint,
        0xfcbd72847d23bb19d67f433ba4e265efd1b78876a79fa9eff09969da64678052int,
        0xf0454dc6971abae7adfb378999888265ae03af92de3a0ef163668c63e59b9d5fint,
        0xb5b93ee3592e2d1f4e6594e51f9643e62a3b21ce75b5fa3f47e59cde0d034f36int,
        0x65d446c4875d8cb9f5212217df627739d02071a8394381199eff9b849922e746int,
        0xe35c1ee9588c4545fcf3c97026b5205b853fb1128a07785ec8a0e7e127ca4a5cint,
        0x592a0f53da6cac4b3cafc647d2003605e0bdbebd1375c0058c11ff17d7e31b3int);
    lemma_double(0xffffffff00000000ffffffint,
        0xe35c1ee9588c4545fcf3c97026b5205b853fb1128a07785ec8a0e7e127ca4a5cint,
        0x592a0f53da6cac4b3cafc647d2003605e0bdbebd1375c0058c11ff17d7e31b3int,
        0x5245eadac0e0afb5c3228f70e522c85905b158633c182336c1ad3c398752d2e8int,
        0x5b6f9e58d6c89b0a421833846674cdd8bd8ac06b70ad01b08868ffae17e7d37int,
        0xfb7d5886f6e0cbed75563e117f5368930e0d39c03123dbe9071f3f87dadee1deint);
    lemma_double(0x1fffffffe00000001fffffeint,
        0x5b6f9e58d6c89b0a421833846674cdd8bd8ac06b70ad01b08868ffae17e7d37int,
        0xfb7d5886f6e0cbed75563e117f5368930e0d39c03123dbe9071f3f87dadee1deint,
        0xb9b8333b33af5455a40d458f7a51fd39927b4b545e9847389e4b48e79068772int,
        0x1119d5b35235cf2c1af31ea11ebac79bac5e676b1abf626dca7d8fe0a98e1067int,
        0x33a0e4f34779e187e45db989349696c046ab7bdc0a7de8f6c32048db1bc7fb77int);
    lemma_double(0x3fffffffc00000003fffffcint,
        0x1119d5b35235cf2c1af31ea11ebac79bac5e676b1abf626dca7d8fe0a98e1067int,
        0x33a0e4f34779e187e45db989349696c046ab7bdc0a7de8f6c32048db1bc7fb77int,
        0xd9da11756ffa702878c8f79fc2d040822b7b29965a0f4658da6d361aa155b990int,
        0x793a728a6853dff4dce276de4356782ea2ef2490c1a1fb6271779a7a346ef9daint,
        0xa888e823306bcf87b2cfb072e99026c06c0fdb436a8be383d85c51521736cb76int);
    lemma_double(0x7fffffff800000007fffff8int,
        0x793a728a6853dff4dce276de4356782ea2ef2490c1a1fb6271779a7a346ef9daint,
        0xa888e823306bcf87b2cfb072e99026c06c0fdb436a8be383d85c51521736cb76int,
        0xb3dc2163e4958cfd5495d69565502fd805d882a2ed2caee02eb96eb70267b23cint,
        0x3c321aadbdace972742deb5fbaa2214dbcebf22c9472d9b043e4f21de0bb811int,
        0x77127350c7a3c7aaf3ea2b46aa47683ba96b0afe392ec2e524e7bccd02c1d074int);
    lemma_join(0xffffffff00000000ffffff0int, 0xfint,
        0x3c321aadbdace972742deb5fbaa2214dbcebf22c9472d9b043e4f21de0bb811int,
        0x77127350c7a3c7aaf3ea2b46aa47683ba96b0afe392ec2e524e7bccd02c1d074int,
        0xf0454dc6971abae7adfb378999888265ae03af92de3a0ef163668c63e59b9d5fint,
        0xb5b93ee3592e2d1f4e6594e51f9643e62a3b21ce75b5fa3f47e59cde0d034f36int,
        0x1ec416b0603b97e24f0e76c70bb921250b72106e3994c88016645821b053afbdint,
        0x53ca8538045229a5c6967f747a671f87ebeaa64ad499b8185593c4d6c6fca8d2int,
        0x2f72b528a37523d2d62db384a7fae055afe8bd4ad94184b335ed684801616a81int);
}

/// The next multiples of the generator.
proof fn lemma_multiples_18()
    requires
        small_multiples(),
        multiple_is(0xffffffff00000000fffffffint,
            0x53ca8538045229a5c6967f747a671f87ebeaa64ad499b8185593c4d6c6fca8d2int,
            0x2f72b528a37523d2d62db384a7fae055afe8bd4ad94184b335ed684801616a81int),
    ensures
        multiple_is(0x1fffffffe00000001fffffffeint,
            0x59edfe5995f1bf8e6b6bcb48214ae0d59e5529bdd21688d6fb2c844e1268d7cfint,
            0x7e7de23520b7505e4b173e5581e2597d2905c566ff674a5a996997a47cd4f169int),
{
    lemma_double(0xffffffff00000000fffffffint,
        0x53ca8538045229a5c6967f747a671f87ebeaa64ad499b8185593c4d6c6fca8d2int,
        0x2f72b528a37523d2d62db384a7fae055afe8bd4ad94184b335ed684801616a81int,
        0x62d81b3c0de39523156d1ad19620579d66cf4d7f0f07ec6deab93744c2944a05int,
        0x15793f5637f4c36a8b5c86300730b8bd021be30e1ad62d5d2a2c375d6dd273c3int,
        0x8da89bd6852eb3408bf284151e99edd260a4a483e0a05b2c87df8cc818007f01int);
    lemma_double(0x1fffffffe00000001ffffffeint,
        0x15793f5637f4c36a8b5c86300730b8bd021be30e1ad62d5d2a2c375d6dd273c3int,
        0x8da89bd6852eb3408bf284151e99edd260a4a483e0a05b2c87df8cc818007f01int,
        0x95f18dd9b0bdc20fd89caa9419c5c8fe22a98f89f6f1f5d5cd4218d5783d475cint,
        0x77a0f929801477d647d7e92b7b77f104415b00807aa6b202d17cf8b9c6e94afeint,
        0x499995e2455980dc93d484406fb2df94533a6365a8a716836a95ceb5e207d2a0int);
    lemma_double(0x3fffffffc00000003ffffffcint,
        0x77a0f929801477d647d7e92b7b77f104415b00807aa6b202d17cf8b9c6e94afeint,
        0x499995e2455980dc93d484406fb2df94533a6365a8a716836a95ceb5e207d2a0int,
        0x9cfd61f0d759ffa294b1db4dbdcc3a5ca594d8312dfe903bd165d52da63dbf8cint,
        0x328e98fddcb24800600244b158b55c3dc349a158a29656912296c76d01d2276bint,
        0x6e359e57836a9a869e0e39dcf3eed1e01d4606b2500c14a9adbef0400ee3ec5bint);
    lemma_double(0x7fffffff800000007ffffff8int,
        0x328e98fddcb24800600244b158b55c3dc349a158a29656912296c76d01d2276bint,
        0x6e359e57836a9a869e0e39dcf3eed1e01d4606b2500c14a9adbef0400ee3ec5bint,
        0x8064cc7595a2202908b40250facc627b90ff23388c651f30abe7113e9a404743int,
        0xe4b2d9cd7586520bc2e6a5cfebefc0f300961b87970e6d4342de8a256071da8int,
        0xb4557cb9ff72bce34f269ac8a9e82d0979dbd48614e2911360c7d08ebd42f52aint);
    lemma_join(0xffffffff00000000fffffff0int, 0xfint,
        0xe4b2d9cd7586520bc2e6a5cfebefc0f300961b87970e6d4342de8a256071da8int,
        0xb4557cb9ff72bce34f269ac8a9e82d0979dbd48614e2911360c7d08ebd42f52aint,
        0xf0454dc6971abae7adfb378999888265ae03af92de3a0ef163668c63e59b9d5fint,
        0xb5b93ee3592e2d1f4e6594e51f9643e62a3b21ce75b5fa3f47e59cde0d034f36int,
        0x6b684ff9e192f57183805f27212fcd7d397fb7905fc9ad7a56d6bc5ff62f37b7int,
        0xeb26590892332d8f2daa49906423fd6123641184e123c44519207317c49dfcf7int,
        0x9a5956c198b639c2dc64c68252d28cc674c2943144b78b2641d87d6e0a5f537eint);
    lemma_double(0xffffffff00000000ffffffffint,
        0xeb26590892332d8f2daa49906423fd6123641184e123c44519207317c49dfcf7int,
        0x9a5956c198b639c2dc64c68252d28cc674c2943144b78b2641d87d6e0a5f537eint,
        0x2b533d0d75373494ab6e521e47c78b73ec0da04ed717f1dd6289e1ccfb6547e7int,
        0x59edfe5995f1bf8e6b6bcb48214ae0d59e5529bdd21688d6fb2c844e1268d7cfint,
        0x7e7de23520b7505e4b173e5581e2597d2905c566ff674a5a996997a47cd4f169int);
}

/// The next multiples of the generator.
proof fn lemma_multiples_19()
    requires
        small_multiples(),
        multiple_is(0x1fffffffe00000001fffffffeint,
            0x59edfe5995f1bf8e6b6bcb48214ae0d59e5529bdd21688d6fb2c844e1268d7cfint,
            0x7e7de23520b7505e4b173e5581e2597d2905c566ff674a5a996997a47cd4f169int),
    ensures
        multiple_is(0x3fffffffc00000003ffffffffcint,
            0x9931ed864dcbdbc6e36618faf593f034c29b833ae76466ebe170f2862fdfb305int,
            0xc4434fedda295a62bcab9613a197e22dde0fb4e50a732607b5afd14fa5f795c5int),
{
    lemma_double(0x1fffffffe00000001fffffffeint,
        0x59edfe5995f1bf8e6b6bcb48214ae0d59e5529bdd21688d6fb2c844e1268d7cfint,
        0x7e7de23520b7505e4b173e5581e2597d2905c566ff674a5a996997a47cd4f169int,
        0x3befa847ff61fdd6e18d9c74828d6b81e4a67132f69487ecd9de0b41a2c1a54int,
        0x4167f1a7d91677a678794125dbdd1057a4c235d748a0da40bdb0588d83621feaint,
        0xa63646f2a966d0bbe27e51f66c2ddabeb447c7fc366b4d087eda9dbee762df24int);
    lemma_double(0x3fffffffc00000003fffffffcint,
        0x4167f1a7d91677a678794125dbdd1057a4c235d748a0da40bdb0588d83621feaint,
        0xa63646f2a966d0bbe27e51f66c2ddabeb447c7fc366b4d087eda9dbee762df24int,
        0x6275c6e3ab21875eac97d9db4210b0230e22f3fc2585f92774dd7da0d884c580int,
        0xb38c9c906b1a3dc2e6ea07d098fd7bc48d74d4391b439dadf4e4d9acf199695aint,
        0x518b8e22afe96e4d05c7ace8cbc131de81702f9c55ccfdbc6897f02c9eba7a8eint);
    lemma_double(0x7fffffff800000007fffffff8int,
        0xb38c9c906b1a3dc2e6ea07d098fd7bc48d74d4391b439dadf4e4d9acf199695aint,
        0x518b8e22afe96e4d05c7ace8cbc131de81702f9c55ccfdbc6897f02c9eba7a8eint,
        0xd9389a2e9be97a11907ea996b368ffd6f5b13e64747259f93d8cf9ce1343d0bfint,
        0x1d7028e76172d2a46c9678374545663bfccfa13e53aff458c02bbc0f39d2b0e8int,
        0x915762d4b73d82a5280fd60d1a532452ef5db0c3532ddb1afd2c3521492228feint);
    lemma_join(0xffffffff00000000ffffffff0int, 0xfint,
        0x1d7028e76172d2a46c9678374545663bfccfa13e53aff458c02bbc0f39d2b0e8int,
        0x915762d4b73d82a5280fd60d1a532452ef5db0c3532ddb1afd2c3521492228feint,
        0xf0454dc6971abae7adfb378999888265ae03af92de3a0ef163668c63e59b9d5fint,
        0xb5b93ee3592e2d1f4e6594e51f9643e62a3b21ce75b5fa3f47e59cde0d034f36int,
        0x2d9179a3505dc64b946724ffaf72a3311558911300a8200558ce2c988ce2dac8int,
        0xfbeb66e66b7276003ec6d9a65c714f186f69657545f58effd99593157fe69af7int,
        0x497125dc714e441073923309b7ac2ea82c9c93cf94c6f0c3d0992adbcfdfa517int);
    lemma_double(0xffffffff00000000fffffffffint,
        0xfbeb66e66b7276003ec6d9a65c714f186f69657545f58effd99593157fe69af7int,
        0x497125dc714e441073923309b7ac2ea82c9c93cf94c6f0c3d0992adbcfdfa517int,
        0xad97f5406c3006d84eee52776ffe7ff9d70f633d97e7cc97df6f722dad3e2adfint,
        0x3e05addeef7bbacac511d56c6197a0745b76878e958e52dc395b594c6925e69int,
        0x30e9b13faf9dc22bc2b9caf92d657d6b6354c435db64dbf42d426f063a9ba95int);
    lemma_double(0x1fffffffe00000001ffffffffeint,
        0x3e05addeef7bbacac511d56c6197a0745b76878e958e52dc395b594c6925e69int,
        0x30e9b13faf9dc22bc2b9caf92d657d6b6354c435db64dbf42d426f063a9ba95int,
        0x953f6bf41bff0f9019b7aad5d559982204b486ba68f443b90b4ae13186237cd8int,
        0x9931ed864dcbdbc6e36618faf593f034c29b833ae76466ebe170f2862fdfb305int,
        0xc4434fedda295a62bcab9613a197e22dde0fb4e50a732607b5afd14fa5f795c5int);
}

/// The next multiples of the generator.
proof fn lemma_multiples_20()
    requires
        small_multiples(),
        multiple_is(0x3fffffffc00000003ffffffffcint,
            0x9931ed864dcbdbc6e36618faf593f034c29b833ae76466ebe170f2862fdfb305int,
            0xc4434fedda295a62bcab9613a197e22dde0fb4e50a732607b5afd14fa5f795c5int),
    ensures
        multiple_is(0x7fffffff800000007fffffffff8int,
            0x887812dfcb0823d5954ec9dabb0363cad00ec887d8e889e41b71418a925065bbint,
            0x17a650302c913c7fc6253d28f77abb0a3186e3da5e1c52813f356cdfa19d3c93int),
{
    lemma_double(0x3fffffffc00000003ffffffffcint,
        0x9931ed864dcbdbc6e36618faf593f034c29b833ae76466ebe170f2862fdfb305int,
        0xc4434fedda295a62bcab9613a197e22dde0fb4e50a732607b5afd14fa5f795c5int,
        0x13053c508bb16f0001be803ecbce2ce86a3637861c4adf2054d617b5015c4ca5int,
        0xd0d76c10064fa3273aa111d741d383f6938f9d16f233df0242eb9ba0b49c5f09int,
        0xe6fcde7d8aed6fd83b3e56549d6639001ae616f2e59d58730a10a0b74b01cb18int);
    lemma_double(0x7fffffff800000007ffffffff8int,
        0xd0d76c10064fa3273aa111d741d383f6938f9d16f233df0242eb9ba0b49c5f09int,
        0xe6fcde7d8aed6fd83b3e56549d6639001ae616f2e59d58730a10a0b74b01cb18int,
        0x9ee86b9e2868b574f4a2b1728a10831144719eb6a7ebdc66f746143be07fd218int,
        0xdfebee1d7c627c98bb61cfec87fcddae1a21bff9e8b07c29e551f508bb414691int,
        0x9a026700f9049e3c4aca2b565ddfc1c54330208121e1128da8163eb81df8fc73int);
    lemma_join(0xffffffff00000000fffffffff0int, 0xfint,
        0xdfebee1d7c627c98bb61cfec87fcddae1a21bff9e8b07c29e551f508bb414691int,
        0x9a026700f9049e3c4aca2b565ddfc1c54330208121e1128da8163eb81df8fc73int,
        0xf0454dc6971abae7adfb378999888265ae03af92de3a0ef163668c63e59b9d5fint,
        0xb5b93ee3592e2d1f4e6594e51f9643e62a3b21ce75b5fa3f47e59cde0d034f36int,
        0x4feb64052039b35b8a651d1688db1e7394b560d4357990d42d25fc273184b7b5int,
        0x65c7e5934fe008a1d6bd836939df585b615a0b3dbd799bb5f446948b8feeb22cint,
        0x84b872f79c776f5d34a7b0213a724a9336e86a02d8dcdc1714217b6965e05f7bint);
    lemma_double(0xffffffff00000000ffffffffffint,
        0x65c7e5934fe008a1d6bd836939df585b615a0b3dbd799bb5f446948b8feeb22cint,
        0x84b872f79c776f5d34a7b0213a724a9336e86a02d8dcdc1714217b6965e05f7bint,
        0xa6c85074d081ebd26cad9a9be42b93b4873a2f39c80159778e7e7a509f501584int,
        0xb152e70ad1e02b1942cf13f34debca408db166e939479387891d3ae8b15a1cffint,
        0x5f637d9ada3b6ae070facc96c820b9a99c022028c8aedca1c92a5e2d927f05int);
    lemma_double(0x1fffffffe00000001fffffffffeint,
        0xb152e70ad1e02b1942cf13f34debca408db166e939479387891d3ae8b15a1cffint,
        0x5f637d9ada3b6ae070facc96c820b9a99c022028c8aedca1c92a5e2d927f05int,
        0x38368a24698414ee3180111cf09bdac9d8a6647440d37bd6d43970c881a46d5cint,
        0xe861a349a21dcb3529fb375a1c74ef90c2f33e01bad04d353c964bd7bfbadf27int,
        0xe02453ff032018ef9cfee0c9485f8a32875dcc21a84a45f0a4aece9650489a8cint);
    lemma_double(0x3fffffffc00000003fffffffffcint,
        0xe861a349a21dcb3529fb375a1c74ef90c2f33e01bad04d353c964bd7bfbadf27int,
        0xe02453ff032018ef9cfee0c9485f8a32875dcc21a84a45f0a4aece9650489a8cint,
        0xa69480debb57aa943c9095ae940ba79c5f2211ce766164d69da152f9b6b8262dint,
        0x887812dfcb0823d5954ec9dabb0363cad00ec887d8e889e41b71418a925065bbint,
        0x17a650302c913c7fc6253d28f77abb0a3186e3da5e1c52813f356cdfa19d3c93int);
}

/// The next multiples of the generator.
proof fn lemma_multiples_21()
    requires
        small_multiples(),
        multiple_is(0x7fffffff800000007fffffffff8int,
            0x887812dfcb0823d5954ec9dabb0363cad00ec887d8e889e41b71418a925065bbint,
            0x17a650302c913c7fc6253d28f77abb0a3186e3da5e1c52813f356cdfa19d3c93int),
    ensures
        multiple_is(0xffffffff00000000fffffffffff0int,
            0x1f3d8c53058cc998fd9589ee58a8eee24d6408ebb0e8cc4cb53c6c76cba87018int,
            0x9dd3e19d19a5737ad15fd3eaa122accaa76459d3433d5800a47b3d02956fb925int),
{
    lemma_double(0x7fffffff800000007fffffffff8int,
        0x887812dfcb0823d5954ec9dabb0363cad00ec887d8e889e41b71418a925065bbint,
        0x17a650302c913c7fc6253d28f77abb0a3186e3da5e1c52813f356cdfa19d3c93int,
        0x5a849c0a23e20e6f57582457e5f27c73a6414495fdb4177b47d3b4b83cbd102aint,
        0x5b046ea90041d387fd42ec34f1e5a77d4075b2868fb8e9c84fd6170792144606int,
        0xe1103d47685efd0e53007d20179ac3e2524f90d8a907b53e025fce871066dbe0int);
    lemma_join(0xffffffff00000000ffffffffff0int, 0xfint,
        0x5b046ea90041d387fd42ec34f1e5a77d4075b2868fb8e9c84fd6170792144606int,
        0xe1103d47685efd0e53007d20179ac3e2524f90d8a907b53e025fce871066dbe0int,
        0xf0454dc6971abae7adfb378999888265ae03af92de3a0ef163668c63e59b9d5fint,
        0xb5b93ee3592e2d1f4e6594e51f9643e62a3b21ce75b5fa3f47e59cde0d034f36int,
        0x457b20acdeb532eaa430e60dc41422557620f8cacef9d9063525db8d6d61da27int,
        0x878e774f6c94b66dbadfca63e93cc4d41fab2e71b33e7ac4f500c39ff3d4d184int,
        0x101a74c1e86bdba5b62d40e2eea662454f6f37d308216c4eb5a6dd20a71fa011int);
    lemma_double(0xffffffff00000000fffffffffffint,
        0x878e774f6c94b66dbadfca63e93cc4d41fab2e71b33e7ac4f500c39ff3d4d184int,
        0x101a74c1e86bdba5b62d40e2eea662454f6f37d308216c4eb5a6dd20a71fa011int,
        0x26953612f33eafded68613cf9787e67ca15ab0dab5469ce653a87cbf9056434eint,
        0x7bd7954bb502441853daababc5ae06e9170b341770b379e8bab4743ebea723cfint,
        0xabdb8a2572343f9149ed6da4a38c7a7f79bd5f104701c0e6477563c9aa893a81int);
    lemma_double(0x1fffffffe00000001ffffffffffeint,
        0x7bd7954bb502441853daababc5ae06e9170b341770b379e8bab4743ebea723cfint,
        0xabdb8a2572343f9149ed6da4a38c7a7f79bd5f104701c0e6477563c9aa893a81int,
        0x80961880fc349fcee0b6c526242a3d5ec59ffd03385ffa6caa933c21df769ebint,
        0x949934894ceff7476087352b3062c65fb2a5f4a225248ff0204522b57e834bint,
        0xb273a00a6804c0c853ce2bbafcdf87d50819f87f04826985d58076ed538fb7f6int);
    lemma_double(0x3fffffffc00000003ffffffffffcint,
        0x949934894ceff7476087352b3062c65fb2a5f4a225248ff0204522b57e834bint,
        0xb273a00a6804c0c853ce2bbafcdf87d50819f87f04826985d58076ed538fb7f6int,
        0x8b292d5714cdda9a5fab85bf273ab5908730d22915d4612191e9a62b0813cb52int,
        0x6637844774d4a83e719e132267bab42e799f57f147d88d78d55f5009815f8b21int,
        0x343cae7808d0a2bd58eac2be5df58395929fd46720a9ff4ef37931cd1ab43437int);
    lemma_double(0x7fffffff800000007ffffffffff8int,
        0x6637844774d4a83e719e132267bab42e799f57f147d88d78d55f5009815f8b21int,
        0x343cae7808d0a2bd58eac2be5df58395929fd46720a9ff4ef37931cd1ab43437int,
        0x588df0ebc9ecdeb8dc8762314340524bfe262bc421c73112435146d0785b9f87int,
        0x1f3d8c53058cc998fd9589ee58a8eee24d6408ebb0e8cc4cb53c6c76cba87018int,
        0x9dd3e19d19a5737ad15fd3eaa122accaa76459d3433d5800a47b3d02956fb925int);
}

/// The next multiples of the generator.
proof fn lemma_multiples_22()
    requires
        small_multiples(),
        multiple_is(0xffffffff00000000fffffffffff0int,
            0x1f3d8c53058cc998fd9589ee58a8eee24d6408ebb0e8cc4cb53c6c76cba87018int,
            0x9dd3e19d19a5737ad15fd3eaa122accaa76459d3433d5800a47b3d02956fb925int),
    ensures
        multiple_is(0xffffffff00000000fffffffffffffint,
            0xb0795021b42cbcc000dc6fc9710db8604e1babae122771dd38a54acdd8d23722int,
            0xd788f0eb7429c2c35d1515732e901fd7f160995944ec13037cc19acf9a625517int),
{
    lemma_join(0xffffffff00000000fffffffffff0int, 0xfint,
        0x1f3d8c53058cc998fd9589ee58a8eee24d6408ebb0e8cc4cb53c6c76cba87018int,
        0x9dd3e19d19a5737ad15fd3eaa122accaa76459d3433d5800a47b3d02956fb925int,
        0xf0454dc6971abae7adfb378999888265ae03af92de3a0ef163668c63e59b9d5fint,
        0xb5b93ee3592e2d1f4e6594e51f9643e62a3b21ce75b5fa3f47e59cde0d034f36int,
        0xf92a9bc52e5b7e6d52d31239a52aeaf3359e64f0bc81d31e1a1c553f57c5d562int,
        0x9ab317125d681dba6be1bc889bf6bd5926045ef4f1ac8d07728550ead5915d9eint,
        0xc4bd3ace25e65f08957cf540b298270279f733d498178b13fb52523b5a85dab9int);
    lemma_double(0xffffffff00000000ffffffffffffint,
        0x9ab317125d681dba6be1bc889bf6bd5926045ef4f1ac8d07728550ead5915d9eint,
        0xc4bd3ace25e65f08957cf540b298270279f733d498178b13fb52523b5a85dab9int,
        0xac1bae86dcfdca39f4900764740e00ead746c482d89449840a0a2a3fb9f9e52eint,
        0xe15684deeb5bf5853fe1fc266398967602a8ec814ec4af3d164a3391d5e60190int,
        0xb42a7b10bda7ca69d5d87c46901843001b261de90c630e98c9092af84a89839bint);
    lemma_double(0x1fffffffe00000001fffffffffffeint,
        0xe15684deeb5bf5853fe1fc266398967602a8ec814ec4af3d164a3391d5e60190int,
        0xb42a7b10bda7ca69d5d87c46901843001b261de90c630e98c9092af84a89839bint,
        0xdab607fdb65e4a81ec1770030525e18716990ae5752ddd92464d0b5f9b39374aint,
        0x25d2df93a97a27250f427432c92a6edfe79268a7c5c244174b9d73d3e4ef1362int,
        0x597ea7a54b05f88ae7b39117b8d15a842d42802179d053a35932cef59f98e629int);
    lemma_double(0x3fffffffc00000003fffffffffffcint,
        0x25d2df93a97a27250f427432c92a6edfe79268a7c5c244174b9d73d3e4ef1362int,
        0x597ea7a54b05f88ae7b39117b8d15a842d42802179d053a35932cef59f98e629int,
        0xcd9d496b07863d52351ec81a1c40abea735adf5770038482f491a599995b471eint,
        0xfabeaef813cbc77083e856e3fe041331b78ca169ec9021f1c1d287117458df9bint,
        0x76049246b2467774c194d8a05db77c319fe60ea184374baac7a254d20d49ffa1int);
    lemma_double(0x7fffffff800000007fffffffffff8int,
        0xfabeaef813cbc77083e856e3fe041331b78ca169ec9021f1c1d287117458df9bint,
        0x76049246b2467774c194d8a05db77c319fe60ea184374baac7a254d20d49ffa1int,
        0x9ed01a3287b243cdfe871eb08b818a0514bfc34331ecd166d8a568098d18098cint,
        0x2dac8c71644367550ccf590e4176d5f5194e8bf544cbb6e0bcc965f39d0533caint,
        0xe09528c4542f3faa9d38130a6c67c80ef16609c501a159fb28c9be6cfde6a9ceint);
    lemma_join(0xffffffff00000000ffffffffffff0int, 0xfint,
        0x2dac8c71644367550ccf590e4176d5f5194e8bf544cbb6e0bcc965f39d0533caint,
        0xe09528c4542f3faa9d38130a6c67c80ef16609c501a159fb28c9be6cfde6a9ceint,
        0xf0454dc6971abae7adfb378999888265ae03af92de3a0ef163668c63e59b9d5fint,
        0xb5b93ee3592e2d1f4e6594e51f9643e62a3b21ce75b5fa3f47e59cde0d034f36int,
        0xd5b850a3a7d29db97d3096de89506bc626aa5ee42e9d224926fc208dbbe2fc39int,
        0xb0795021b42cbcc000dc6fc9710db8604e1babae122771dd38a54acdd8d23722int,
        0xd788f0eb7429c2c35d1515732e901fd7f160995944ec13037cc19acf9a625517int);
}

/// The next multiples of the generator.
proof fn lemma_multiples_23()
    requires
        small_multiples(),
        multiple_is(0xffffffff00000000fffffffffffffint,
            0xb0795021b42cbcc000dc6fc9710db8604e1babae122771dd38a54acdd8d23722int,
            0xd788f0eb7429c2c35d1515732e901fd7f160995944ec13037cc19acf9a625517int),
    ensures
        multiple_is(0x1fffffffe00000001fffffffffffffeint,
            0x3f1c1df5350e1500baf6defcc20773a18a9c41b661d55c3e5df9d9b745ffe24dint,
            0xab9c8e34ceaa6045c4fb0a9050195829da25dcf76c8d97f1851d7551994faa0bint),
{
    lemma_double(0xffffffff00000000fffffffffffffint,
        0xb0795021b42cbcc000dc6fc9710db8604e1babae122771dd38a54acdd8d23722int,
        0xd788f0eb7429c2c35d1515732e901fd7f160995944ec13037cc19acf9a625517int,
        0xd06f3fc4f9acce6d10868ff1419258fa83a2c1c01af09415473f6260d4884df3int,
        0x22d8101ac330f47a369aedc6daa4c1446e4c0e58cd27666167a920f10dcbafacint,
        0x1b5188c870023433aabb310381624471086d150d5e379f6f648612646304ffb7int);
    lemma_double(0x1fffffffe00000001ffffffffffffeint,
        0x22d8101ac330f47a369aedc6daa4c1446e4c0e58cd27666167a920f10dcbafacint,
        0x1b5188c870023433aabb310381624471086d150d5e379f6f648612646304ffb7int,
        0xcf1a421f499a4c71cb2991bef6354c068c096cd8aa5c7bc2e42086046849dde0int,
        0x9372c179329879dea6a67cd76cef9577297b2a59ac4350b6768b083363547ff3int,
        0x2efd6a9c9759ea565debcc0008e91fba956e11de0aafb9668c1ebb4133a9a355int);
    lemma_double(0x3fffffffc00000003ffffffffffffcint,
        0x9372c179329879dea6a67cd76cef9577297b2a59ac4350b6768b083363547ff3int,
        0x2efd6a9c9759ea565debcc0008e91fba956e11de0aafb9668c1ebb4133a9a355int,
        0x51f9dba76b4eb535813579716152963bc9d39aba1e1794261e9acf5126ac0e1fint,
        0x697e3fc1703c0de4081cd58c11a7ef0c757c44e9b9db124ac27b1bcc4d074ddeint,
        0xac2594309c8b4e73d2b62648fb1764eb624dc6e32731474cd9afd05de71cd4d6int);
    lemma_double(0x7fffffff800000007ffffffffffff8int,
        0x697e3fc1703c0de4081cd58c11a7ef0c757c44e9b9db124ac27b1bcc4d074ddeint,
        0xac2594309c8b4e73d2b62648fb1764eb624dc6e32731474cd9afd05de71cd4d6int,
        0x74af2c2441cd2ff8b96f46444df08fc7b364115920b5de82190919438f1131feint,
        0xe6f57c736fc5dd8d51bec2d8a5de771804710243738f1172ba6d6965e835fc5dint,
        0xcfc08c0f4cb0fe3ae207369f26c0d6d17d6f16c1eeff90ca0a27abb3c84d1a61int);
    lemma_join(0xffffffff00000000fffffffffffff0int, 0xfint,
        0xe6f57c736fc5dd8d51bec2d8a5de771804710243738f1172ba6d6965e835fc5dint,
        0xcfc08c0f4cb0fe3ae207369f26c0d6d17d6f16c1eeff90ca0a27abb3c84d1a61int,
        0xf0454dc6971abae7adfb378999888265ae03af92de3a0ef163668c63e59b9d5fint,
        0xb5b93ee3592e2d1f4e6594e51f9643e62a3b21ce75b5fa3f47e59cde0d034f36int,
        0xd71a2f746819b0a86070c8ed0246568e920650523b4b92fe2290e95681d71bb1int,
        0xd1ec58fb37388fe050f1f99a1c897446cf5de41b8ad0a7d4994870da1094aec6int,
        0xef92d1291b7bf6723bdebb56e956d787acfed5dfe5c3997f47aaa0cc7ea2c55aint);
    lemma_double(0xffffffff00000000ffffffffffffffint,
        0xd1ec58fb37388fe050f1f99a1c897446cf5de41b8ad0a7d4994870da1094aec6int,
        0xef92d1291b7bf6723bdebb56e956d787acfed5dfe5c3997f47aaa0cc7ea2c55aint,
        0xe899dea1c6672ea3d24f9715437027b61e62204a5225d3a45d0e2152b5d6502eint,
        0x3f1c1df5350e1500baf6defcc20773a18a9c41b661d55c3e5df9d9b745ffe24dint,
        0xab9c8e34ceaa6045c4fb0a9050195829da25dcf76c8d97f1851d7551994faa0bint);
}

/// The next multiples of the generator.
proof fn lemma_multiples_24()
    requires
        small_multiples(),
        multiple_is(0x1fffffffe00000001fffffffffffffeint,
            0x3f1c1df5350e1500baf6defcc20773a18a9c41b661d55c3e5df9d9b745ffe24dint,
            0xab9c8e34ceaa6045c4fb0a9050195829da25dcf76c8d97f1851d7551994faa0bint),
    ensures
        multiple_is(0x3fffffffc00000003ffffffffffffffcint,
            0x7d305d2e3c840fb9dee120f4189329ab08e784c17795f8cdf7f6f05df54df10cint,
            0xf7353cb6fec7201fbeb2a616327858355615f97b6cc716fd284cc1dfac9cc774int),
{
    lemma_double(0x1fffffffe00000001fffffffffffffeint,
        0x3f1c1df5350e1500baf6defcc20773a18a9c41b661d55c3e5df9d9b745ffe24dint,
        0xab9c8e34ceaa6045c4fb0a9050195829da25dcf76c8d97f1851d7551994faa0bint,
        0x955caaf418fd3ce1a65165b694b78942eaef5fcc6bf9eaa1cd69b37bd90ede28int,
        0x147bd586ad7017b3bcaf02864a556ed93aa3548419f57690004a80368a95e495int,
        0xde0fd82847fc486c4b883c4f01d50f781b1fd8a94fe3e285c029f67b37a3d2c8int);
    lemma_double(0x3fffffffc00000003fffffffffffffcint,
        0x147bd586ad7017b3bcaf02864a556ed93aa3548419f57690004a80368a95e495int,
        0xde0fd82847fc486c4b883c4f01d50f781b1fd8a94fe3e285c029f67b37a3d2c8int,
        0x9c571a14bd0593c19be4a17538e57f8eafe2b0806802e95f51799d3f9a1a65cbint,
        0xf998c3913965700fa0a3af7e5aab083c5c468d637d2dbefe3e6ee7c2692a0d92int,
        0xe2fbc9297c7fb975ffe4c715ec4566210f2006c6cb1875acde9bd4aef3f96580int);
    lemma_double(0x7fffffff800000007fffffffffffff8int,
        0xf998c3913965700fa0a3af7e5aab083c5c468d637d2dbefe3e6ee7c2692a0d92int,
        0xe2fbc9297c7fb975ffe4c715ec4566210f2006c6cb1875acde9bd4aef3f96580int,
        0x342f4e460b781c2767ef2fb068fbbdcdc3ef97653f95f04432a7171033491b65int,
        0x61a388ab64b34421ecfb286fd22151ed2633c6d7f1133a0cec49403955e23f63int,
        0xca03e1f48afedb7f201b6270770d40bff4af564a6d6523972d8df925a90869bint);
    lemma_join(0xffffffff00000000ffffffffffffff0int, 0xfint,
        0x61a388ab64b34421ecfb286fd22151ed2633c6d7f1133a0cec49403955e23f63int,
        0xca03e1f48afedb7f201b6270770d40bff4af564a6d6523972d8df925a90869bint,
        0xf0454dc6971abae7adfb378999888265ae03af92de3a0ef163668c63e59b9d5fint,
        0xb5b93ee3592e2d1f4e6594e51f9643e62a3b21ce75b5fa3f47e59cde0d034f36int,
        0x13cb01c31f73effa5e3ed9c2305f3ab61b341cdc8d4bdbae3ed4330eced87cc2int,
        0x31f11797a7daa91d138652904c76065152043e1f1d8a52a244ebdcd540ad8fabint,
        0x2e241fd39b1030601f208e468d810f70b384d2dc11ec54d43c5b89b8bad8ca6fint);
    lemma_double(0xffffffff00000000fffffffffffffffint,
        0x31f11797a7daa91d138652904c76065152043e1f1d8a52a244ebdcd540ad8fabint,
        0x2e241fd39b1030601f208e468d810f70b384d2dc11ec54d43c5b89b8bad8ca6fint,
        0xcd5722b4f57a0a76a3e480571340c8491342f649808af45fe6fc79de2c63f3a2int,
        0xb65e40f446036157f30b14c99c7f88f627138cbfa86e17a7d992e2af8ada1b18int,
        0x3535b15408f180ce0426b2f5bdafa06f4bf4967ddf6fe36089573df2ca8efbcfint);
    lemma_double(0x1fffffffe00000001ffffffffffffffeint,
        0xb65e40f446036157f30b14c99c7f88f627138cbfa86e17a7d992e2af8ada1b18int,
        0x3535b15408f180ce0426b2f5bdafa06f4bf4967ddf6fe36089573df2ca8efbcfint,
        0x8378a742019cd2d464edd0378e910a239c14093c916f8420845333c55fbb9235int,
        0x7d305d2e3c840fb9dee120f4189329ab08e784c17795f8cdf7f6f05df54df10cint,
        0xf7353cb6fec7201fbeb2a616327858355615f97b6cc716fd284cc1dfac9cc774int);
}

/// The next multiples of the generator.
proof fn lemma_multiples_25()
    requires
        small_multiples(),
        multiple_is(0x3fffffffc00000003ffffffffffffffcint,
            0x7d305d2e3c840fb9dee120f4189329ab08e784c17795f8cdf7f6f05df54df10cint,
            0xf7353cb6fec7201fbeb2a616327858355615f97b6cc716fd284cc1dfac9cc774int),
    ensures
        multiple_is(0x7fffffff800000007fffffffffffffff8int,
            0x34cb3aeca10ff090d45fe5e5902eda843bff6d55d0866fb92c87cd1b81a24469int,
            0xeded54068ac147d3e7d6ae2c7906d4259c8bf9f5f11934ea7ad2837435149e3dint),
{
    lemma_double(0x3fffffffc00000003ffffffffffffffcint,
        0x7d305d2e3c840fb9dee120f4189329ab08e784c17795f8cdf7f6f05df54df10cint,
        0xf7353cb6fec7201fbeb2a616327858355615f97b6cc716fd284cc1dfac9cc774int,
        0xb1cae005538a672aa63da204a1fb321b0bc8555ade0f7f7590a4d57b8a070a6fint,
        0xea9a360eac0e199ecbfec14fd124dcfb8afe5a8a25747aaeadf100c39eaf22e9int,
        0xe48deb5be1d53b5d28d6161d367740826229f50111c2d73617cfa0b1ea441d4cint);
    lemma_double(0x7fffffff800000007ffffffffffffff8int,
        0xea9a360eac0e199ecbfec14fd124dcfb8afe5a8a25747aaeadf100c39eaf22e9int,
        0xe48deb5be1d53b5d28d6161d367740826229f50111c2d73617cfa0b1ea441d4cint,
        0x995221e9443839e11145a6471397cb9ec16cb3b6b3fbcd946fcfcfccdb6856bdint,
        0xae77dfc6482f5ba6f3e9fa382f316ddb911523b7f5cde1e04e46716f26ffba80int,
        0x36bfe08f3dc5d95aa43a2e5b398ab820743d1479134ac204ff4d430e0cf30a98int);
    lemma_join(0xffffffff00000000fffffffffffffff0int, 0xfint,
        0xae77dfc6482f5ba6f3e9fa382f316ddb911523b7f5cde1e04e46716f26ffba80int,
        0x36bfe08f3dc5d95aa43a2e5b398ab820743d1479134ac204ff4d430e0cf30a98int,
        0xf0454dc6971abae7adfb378999888265ae03af92de3a0ef163668c63e59b9d5fint,
        0xb5b93ee3592e2d1f4e6594e51f9643e62a3b21ce75b5fa3f47e59cde0d034f36int,
        0xdb86876da496823d0bde1b1efbce865b3f1f1c3b709365a287277d20772d50dfint,
        0x8748c7d085779cd58a8899e9edeae71b210c293b42286c1cd5da5cd76d1d1bd3int,
        0xed9665185905b41dab7f4487caf56539c968ff826be42303b0d2bc6a71773d50int);
    lemma_double(0xffffffff00000000ffffffffffffffffint,
        0x8748c7d085779cd58a8899e9edeae71b210c293b42286c1cd5da5cd76d1d1bd3int,
        0xed9665185905b41dab7f4487caf56539c968ff826be42303b0d2bc6a71773d50int,
        0x7bbd682ca56c620e51834596d63c8a983bd853d89d0ae8eeb7a9f016e8db674eint,
        0xcd2299c359da198339545ab0e4acf9ac434bfa00ec13fbaaa5393692534d5fdeint,
        0xcb8a2e5d2e4445dfbbb7d15674b5e1b9830e3652ae2434e64d265225bf8342eint);
    lemma_double(0x1fffffffe00000001fffffffffffffffeint,
        0xcd2299c359da198339545ab0e4acf9ac434bfa00ec13fbaaa5393692534d5fdeint,
        0xcb8a2e5d2e4445dfbbb7d15674b5e1b9830e3652ae2434e64d265225bf8342eint,
        0x273d1d57d84d64783d0b1759cc9ae412da7c982eae81947618e6d74856e416eaint,
        0x5daca3c94a36ca1f4a386f1c3436320ec5bacd10f8f0e040f58c88a3698ed064int,
        0x507e2132ebfdabcca90959e18ad690a91bf05e649f3f44a9d6d4cfba84893e66int);
    lemma_double(0x3fffffffc00000003fffffffffffffffcint,
        0x5daca3c94a36ca1f4a386f1c3436320ec5bacd10f8f0e040f58c88a3698ed064int,
        0x507e2132ebfdabcca90959e18ad690a91bf05e649f3f44a9d6d4cfba84893e66int,
        0xe6a5a90758bf835ecfa748ee848f56960ca416ce44bb2bffd4283c59db2b2704int,
        0x34cb3aeca10ff090d45fe5e5902eda843bff6d55d0866fb92c87cd1b81a24469int,
        0xeded54068ac147d3e7d6ae2c7906d4259c8bf9f5f11934ea7ad2837435149e3dint);
}

/// The next multiples of the generator.
proof fn lemma_multiples_26()
    requires
        small_multiples(),
        multiple_is(0x7fffffff800000007fffffffffffffff8int,
            0x34cb3aeca10ff090d45fe5e5902eda843bff6d55d0866fb92c87cd1b81a24469int,
            0xeded54068ac147d3e7d6ae2c7906d4259c8bf9f5f11934ea7ad2837435149e3dint),
    ensures
        multiple_is(0x7fffffff800000007fffffffffffffffdeint,
            0x2ad8057e55c876bcc9fab533b74a82cfc775bc8cd4336d0567836c9dd4783636int,
            0x6b967ec9bef09bd25808c29eb1a2ba1a1b38abf1db5708be6f61568291440336int),
{
    lemma_double(0x7fffffff800000007fffffffffffffff8int,
        0x34cb3aeca10ff090d45fe5e5902eda843bff6d55d0866fb92c87cd1b81a24469int,
        0xeded54068ac147d3e7d6ae2c7906d4259c8bf9f5f11934ea7ad2837435149e3dint,
        0x7807828583c92f8f0a183a3770ff79e3404c083ebe87edc35faacdb22bd3db13int,
        0xd00ee15ab4c2e790fde88cd7b319b331d46cf85545e16ef375c54985095d505aint,
        0x7ca35826d4ca6e355bbfeaa0372113d8ddba7a58b9d218c5c9c7194d02970c43int);
    lemma_join(0xffffffff00000000ffffffffffffffff0int, 0xbint,
        0xd00ee15ab4c2e790fde88cd7b319b331d46cf85545e16ef375c54985095d505aint,
        0x7ca35826d4ca6e355bbfeaa0372113d8ddba7a58b9d218c5c9c7194d02970c43int,
        0x3ed113b7883b4c590638379db0c21cda16742ed0255048bf433391d374bc21d1int,
        0x9099209accc4c8a224c843afa4f4c68a090d04da5e9889dae2f8eefce82a3740int,
        0xf858be3efa21f88d048f14d6b3c99ed05ef432be8bd5f68aa394d93736f721c3int,
        0x78303515700e6722fa41f5f547c71f42cc989d6d59d8a7d00c2c7ae070ac4366int,
        0xb0e533c9e15bd3b02346b0ed40ceed89d019b432e164a2a246cd95a4b2f328b3int);
    lemma_double(0xffffffff00000000ffffffffffffffffbint,
        0x78303515700e6722fa41f5f547c71f42cc989d6d59d8a7d00c2c7ae070ac4366int,
        0xb0e533c9e15bd3b02346b0ed40ceed89d019b432e164a2a246cd95a4b2f328b3int,
        0xc5b005dc9624a5e46ffdbd3d9759ec611fb2fe356615359d8356d5fff090beaaint,
        0x30f524d4b0c6a095b27b9532e58af91456a5229a1e9f25c98de00ba9d79cb7d0int,
        0x91e9218e46c08dcb3dfe5cfc19b116261af55e9f0cd927505781c3549123304cint);
    lemma_double(0x1fffffffe00000001ffffffffffffffff6int,
        0x30f524d4b0c6a095b27b9532e58af91456a5229a1e9f25c98de00ba9d79cb7d0int,
        0x91e9218e46c08dcb3dfe5cfc19b116261af55e9f0cd927505781c3549123304cint,
        0x8caa2f7ece2703143018c8da2e07c0b1f1cafd6841adf37482b3261d38b9e9a4int,
        0x1aec21a4e29fb72914f903855ce5a78142b8e889db00078ec2e24c2b2fa7eeaaint,
        0x855cbaef02dcf13b1129003733996809b10b699f39fab30e377dcc1a0200e8f9int);
    lemma_join(0x3fffffffc00000003fffffffffffffffecint, 0x3int,
        0x1aec21a4e29fb72914f903855ce5a78142b8e889db00078ec2e24c2b2fa7eeaaint,
        0x855cbaef02dcf13b1129003733996809b10b699f39fab30e377dcc1a0200e8f9int,
        0x5ecbe4d1a6330a44c8f7ef951d4bf165e6c6b721efada985fb41661bc6e7fd6cint,
        0x8734640c4998ff7e374b06ce1a64a2ecd82ab036384fb83d9a79b127a27d5032int,
        0x3ec5b2afc01de892b3a3f4190eddc8d30ad7cc5764e1ea066ad5eb262a8b727aint,
        0x93becc886afa689b744c94012578f800ae1d6295f677f50152c2e260f030bf32int,
        0xc774fe5cff4e0a9249880360266b0e24cd2fe71db9f3468abb5c348134beff03int);
    lemma_double(0x3fffffffc00000003fffffffffffffffefint,
        0x93becc886afa689b744c94012578f800ae1d6295f677f50152c2e260f030bf32int,
        0xc774fe5cff4e0a9249880360266b0e24cd2fe71db9f3468abb5c348134beff03int,
        0x674be996a79b1ffa91230f8457289247595753941f964900da839dfeaa64d097int,
        0x2ad8057e55c876bcc9fab533b74a82cfc775bc8cd4336d0567836c9dd4783636int,
        0x6b967ec9bef09bd25808c29eb1a2ba1a1b38abf1db5708be6f61568291440336int);
}

/// The next multiples of the generator.
proof fn lemma_multiples_27()
    requires
        small_multiples(),
        multiple_is(0x7fffffff800000007fffffffffffffffdeint,
            0x2ad8057e55c876bcc9fab533b74a82cfc775bc8cd4336d0567836c9dd4783636int,
            0x6b967ec9bef09bd25808c29eb1a2ba1a1b38abf1db5708be6f61568291440336int),
    ensures
        multiple_is(0xffffffff00000000ffffffffffffffffbceint,
            0x34c6411818e018562416ce796c0fa0880996e88a226a373ac70233a6ca5b4929int,
            0x3194ec77203b8f7bdf664e910439b090cd4d698684609c75515fa72159c036daint),
{
    lemma_double(0x7fffffff800000007fffffffffffffffdeint,
        0x2ad8057e55c876bcc9fab533b74a82cfc775bc8cd4336d0567836c9dd4783636int,
        0x6b967ec9bef09bd25808c29eb1a2ba1a1b38abf1db5708be6f61568291440336int,
        0xee5e7e6600de627f082365e48c6f6688ca2c9ead6d077753c293089bd937b41eint,
        0xea071d57a6e452bde848b0d819a52190d80b53fba3a09a2e38e5788b85099bb2int,
        0x18303c1eaee5b4645d0746417b41f1fb3d66c55709a0727e55b7fcb87dd40ac2int);
    lemma_double(0xffffffff00000000ffffffffffffffffbcint,
        0xea071d57a6e452bde848b0d819a52190d80b53fba3a09a2e38e5788b85099bb2int,
        0x18303c1eaee5b4645d0746417b41f1fb3d66c55709a0727e55b7fcb87dd40ac2int,
        0xcd91cc334db87c39c7ce70cfb2f30b7c6860531fb6369667b92df117f1189effint,
        0x5c9a9d9500bc17cc301d541815f139976a688f7f2bb306a0f0c110448c337ac3int,
        0x3f6e98b6fd2051244d3c6f5e8403f83a54c7845c24e131b17d44345a777c5cffint);
    lemma_double(0x1fffffffe00000001ffffffffffffffff78int,
        0x5c9a9d9500bc17cc301d541815f139976a688f7f2bb306a0f0c110448c337ac3int,
        0x3f6e98b6fd2051244d3c6f5e8403f83a54c7845c24e131b17d44345a777c5cffint,
        0x6a87849d55621a0d54421c8bc664857f96ad67b0e6dda85183cdc7fa9657308dint,
        0x5cf08cc89f937424fdedeefe87f922eccf0a7c7a56664697a0d59104665a557dint,
        0xa454e2702f10defcc8c056a034555546a3fe8b5ebced47a47e3b715f1d6d5eefint);
    lemma_double(0x3fffffffc00000003fffffffffffffffef0int,
        0x5cf08cc89f937424fdedeefe87f922eccf0a7c7a56664697a0d59104665a557dint,
        0xa454e2702f10defcc8c056a034555546a3fe8b5ebced47a47e3b715f1d6d5eefint,
        0x23dd65f27fb8322ef0afe44464cf5745f641339de1ab69269d1bb29305dc990bint,
        0x9a41ae46df88895208ac03061f03c8a6d1bcf0fcdfe9a375748abeeb460f7b0dint,
        0x6cc0fe1189e109de6377e648b9aba3edfe2ab207de33b611d13fe615ccba3ac3int);
    lemma_join(0x7fffffff800000007fffffffffffffffde0int, 0x7int,
        0x9a41ae46df88895208ac03061f03c8a6d1bcf0fcdfe9a375748abeeb460f7b0dint,
        0x6cc0fe1189e109de6377e648b9aba3edfe2ab207de33b611d13fe615ccba3ac3int,
        0x8e533b6fa0bf7b4625bb30667c01fb607ef9f8b8a80fef5b300628703187b2a3int,
        0x73eb1dbde03318366d069f83a6f5900053c73633cb041b21c55e1a86c1f400b4int,
        0x93e27c95e470adc6b307f50ff2df73d45fe5d3422493aed9b1a59a50ff3ffb3cint,
        0xf4cb17fb0f71f3ba8968eb52b42ab5dab57d98871e1ff8f126eb04c40384d64fint,
        0x8fd1eab70c0e9481787f2b7de03748fdb590f56744727679dacfb803391fa053int);
    lemma_double(0x7fffffff800000007fffffffffffffffde7int,
        0xf4cb17fb0f71f3ba8968eb52b42ab5dab57d98871e1ff8f126eb04c40384d64fint,
        0x8fd1eab70c0e9481787f2b7de03748fdb590f56744727679dacfb803391fa053int,
        0xaf4aebf985cfa16ba0a6d619d9a6e023514f5bb08c62d76b0420577c88407f52int,
        0x34c6411818e018562416ce796c0fa0880996e88a226a373ac70233a6ca5b4929int,
        0x3194ec77203b8f7bdf664e910439b090cd4d698684609c75515fa72159c036daint);
}

/// The next multiples of the generator.
proof fn lemma_multiples_28()
    requires
        small_multiples(),
        multiple_is(0xffffffff00000000ffffffffffffffffbceint,
            0x34c6411818e018562416ce796c0fa0880996e88a226a373ac70233a6ca5b4929int,
            0x3194ec77203b8f7bdf664e910439b090cd4d698684609c75515fa72159c036daint),
    ensures
        multiple_is(0x1fffffffe00000001ffffffffffffffff79cdint,
            0xe1686235d51426efac8bf6724273287aa9709bc1aaf5efb11ed877012d4745a4int,
            0x3cc26c3feee6f4049d4ff623d963693a98885d1a6806f3ffccf907eb5dd49898int),
{
    lemma_double(0xffffffff00000000ffffffffffffffffbceint,
        0x34c6411818e018562416ce796c0fa0880996e88a226a373ac70233a6ca5b4929int,
        0x3194ec77203b8f7bdf664e910439b090cd4d698684609c75515fa72159c036daint,
        0xad5555a05bce9b2281eabcab4e0aaaf83beca658b0c6b730bf3e204f948e8da0int,
        0xf59cab9c200cd1032b9b790626393051bf4023eb730f6ad1dd44a5aa650fed5int,
        0x642690bc9f44eb280f0f50e38538f831b4fdc996d43e304618af9f66f6a9fca1int);
    lemma_double(0x1fffffffe00000001ffffffffffffffff79cint,
        0xf59cab9c200cd1032b9b790626393051bf4023eb730f6ad1dd44a5aa650fed5int,
        0x642690bc9f44eb280f0f50e38538f831b4fdc996d43e304618af9f66f6a9fca1int,
        0x483de7956274d82c64f1a4dc18fccd7e45b35343f872e56a8a8bee2d07c8d126int,
        0xded7aad47be12aafb7bf29634e6f67bd135f7202b3534ab25ab6ebb40de80b67int,
        0x9adfe0331c072c3c1b22c158174d3ddb335c7d0c58b71ca17e87d76f99e5a08aint);
    lemma_double(0x3fffffffc00000003fffffffffffffffef38int,
        0xded7aad47be12aafb7bf29634e6f67bd135f7202b3534ab25ab6ebb40de80b67int,
        0x9adfe0331c072c3c1b22c158174d3ddb335c7d0c58b71ca17e87d76f99e5a08aint,
        0xae3e2903620c37d55d0ea6b3e1fc67d79e179eaa446f69c274092307b5504d8aint,
        0xfb327112c18dd4f830271a97633b763b80042c8057c41681bc26f8833229b4c6int,
        0xffb0443282ec4842fa685edaf68d2983afc6bc55a87a00d7f59ba6e9b55f84feint);
    lemma_double(0x7fffffff800000007fffffffffffffffde70int,
        0xfb327112c18dd4f830271a97633b763b80042c8057c41681bc26f8833229b4c6int,
        0xffb0443282ec4842fa685edaf68d2983afc6bc55a87a00d7f59ba6e9b55f84feint,
        0x57f70416236071624d21878e8af0182cd0d4c71067dd9430dcdacf3a52c7f258int,
        0xa3f8b20ecf12853da3b2345f0f6bd7d4cf505ba23dbac958a81451666cf8bbeeint,
        0x7b3ff85632daa06af862bbf259ffb1610cbb118197fbf3135b6c42bb1aa7812aint);
    lemma_double(0xffffffff00000000ffffffffffffffffbce0int,
        0xa3f8b20ecf12853da3b2345f0f6bd7d4cf505ba23dbac958a81451666cf8bbeeint,
        0x7b3ff85632daa06af862bbf259ffb1610cbb118197fbf3135b6c42bb1aa7812aint,
        0xdfe0b4214974e9710e5d25ca2ad23f73b45b5e6c55154dc395f6352cb7110447int,
        0xc0ada0b46fc24d257720c969d3596abb958cb9f20f5d6646117a0064b9154701int,
        0xc820e63e46e573d3854053f4d40092c83d836bb89c6ca9bcd499745b0e218296int);
    lemma_join(0x1fffffffe00000001ffffffffffffffff79c0int, 0xdint,
        0xc0ada0b46fc24d257720c969d3596abb958cb9f20f5d6646117a0064b9154701int,
        0xc820e63e46e573d3854053f4d40092c83d836bb89c6ca9bcd499745b0e218296int,
        0x177c837ae0ac495a61805df2d85ee2fc792e284b65ead58a98e15d9d46072c01int,
        0x63bb58cd4ebea558a24091adb40f4e7226ee14c3a1fb4df39c43bbe2efc7bfd8int,
        0x5458b5ca9a63f1dc4d89eb154f1c63a2f1c664d7381c8374794c960eb2990141int,
        0xe1686235d51426efac8bf6724273287aa9709bc1aaf5efb11ed877012d4745a4int,
        0x3cc26c3feee6f4049d4ff623d963693a98885d1a6806f3ffccf907eb5dd49898int);
}

/// The next multiples of the generator.
proof fn lemma_multiples_29()
    requires
        small_multiples(),
        multiple_is(0x1fffffffe00000001ffffffffffffffff79cdint,
            0xe1686235d51426efac8bf6724273287aa9709bc1aaf5efb11ed877012d4745a4int,
            0x3cc26c3feee6f4049d4ff623d963693a98885d1a6806f3ffccf907eb5dd49898int),
    ensures
        multiple_is(0x3fffffffc00000003fffffffffffffffef39beint,
            0x7c649cdaa274f2d85fe4d662ff27e4771806f0d760edbd634e5be1c172a27eb2int,
            0xc17f4ff35caffa5ba435a84df737119f576f3be6a16a0e90a5facf7679d0ee4aint),
{
    lemma_double(0x1fffffffe00000001ffffffffffffffff79cdint,
        0xe1686235d51426efac8bf6724273287aa9709bc1aaf5efb11ed877012d4745a4int,
        0x3cc26c3feee6f4049d4ff623d963693a98885d1a6806f3ffccf907eb5dd49898int,
        0x63d5a27d4896b73103d1f9742ee5aa39c4da5924885965e0b8ec8f06163c238aint,
        0x4b0b40a92acfa59b55a612346950bf02f435cf180332754699c8ae9180fbd5ddint,
        0x2656f5919e1bc01c76cfe4cb1cd15f479123bed24bd0ad9dc93437706744ddfdint);
    lemma_double(0x3fffffffc00000003fffffffffffffffef39aint,
        0x4b0b40a92acfa59b55a612346950bf02f435cf180332754699c8ae9180fbd5ddint,
        0x2656f5919e1bc01c76cfe4cb1cd15f479123bed24bd0ad9dc93437706744ddfdint,
        0x3f974baaf4c2973ccb20975d94f9f837f4dc1c32a7c8352b003ab6eceddc74int,
        0x8ad4c489e41523d35402e3f393632e15f4befdc1a28961418c53d4202cb75346int,
        0x6a42fbdbd479670190e3e4690a2a5913102b7312b5f2e72cf9a4e1d009ed4958int);
    lemma_double(0x7fffffff800000007fffffffffffffffde734int,
        0x8ad4c489e41523d35402e3f393632e15f4befdc1a28961418c53d4202cb75346int,
        0x6a42fbdbd479670190e3e4690a2a5913102b7312b5f2e72cf9a4e1d009ed4958int,
        0xc6dc45490fffdb39977914c7f9c6c2505db3b6ad5af3b70d1b99bba62a75d591int,
        0x3e4e6cd947c926c3de872f9d56b1f77e8dd6339699abd15b9e283a0322c2be25int,
        0xb442c8b7d6bb3f6edd8b223077455234a17f53d97679968d1247dced3291533cint);
    lemma_double(0xffffffff00000000ffffffffffffffffbce68int,
        0x3e4e6cd947c926c3de872f9d56b1f77e8dd6339699abd15b9e283a0322c2be25int,
        0xb442c8b7d6bb3f6edd8b223077455234a17f53d97679968d1247dced3291533cint,
        0x5ef2b28e44e0411f40c283970043bfdf1cda0d5116b44cf5553b3f754a6a3c08int,
        0xd2abb5529b83e66743a3a23d1b11e28bb217a82c4a9e8078083adb191e0fa468int,
        0xd5fea76d0188346239bd0e658e255e53da95e5ed6e2fab56cd4a22721fd5d8caint);
    lemma_join(0x1fffffffe00000001ffffffffffffffff79cd0int, 0xfint,
        0xd2abb5529b83e66743a3a23d1b11e28bb217a82c4a9e8078083adb191e0fa468int,
        0xd5fea76d0188346239bd0e658e255e53da95e5ed6e2fab56cd4a22721fd5d8caint,
        0xf0454dc6971abae7adfb378999888265ae03af92de3a0ef163668c63e59b9d5fint,
        0xb5b93ee3592e2d1f4e6594e51f9643e62a3b21ce75b5fa3f47e59cde0d034f36int,
        0x86c5464009b7ae58183099e5238fda859187941b1b72afe626647288cfe9fa5eint,
        0x723b207732b55c05256bf207c629892cb2cfcbce93e0ba471ba5a0b60607d05dint,
        0x4202ef0ef6651e8dc46616b8c1a6ebcf4bb45f3f2df03b3e3506d5656777e33fint);
    lemma_double(0x1fffffffe00000001ffffffffffffffff79cdfint,
        0x723b207732b55c05256bf207c629892cb2cfcbce93e0ba471ba5a0b60607d05dint,
        0x4202ef0ef6651e8dc46616b8c1a6ebcf4bb45f3f2df03b3e3506d5656777e33fint,
        0xf2e52cb7a0dbf5b7ef55f9954fdc0b324a0f39211cd3744d0693b7cb2962402aint,
        0x7c649cdaa274f2d85fe4d662ff27e4771806f0d760edbd634e5be1c172a27eb2int,
        0xc17f4ff35caffa5ba435a84df737119f576f3be6a16a0e90a5facf7679d0ee4aint);
}

/// The next multiples of the generator.
proof fn lemma_multiples_30()
    requires
        small_multiples(),
        multiple_is(0x3fffffffc00000003fffffffffffffffef39beint,
            0x7c649cdaa274f2d85fe4d662ff27e4771806f0d760edbd634e5be1c172a27eb2int,
            0xc17f4ff35caffa5ba435a84df737119f576f3be6a16a0e90a5facf7679d0ee4aint),
    ensures
        multiple_is(0x7fffffff800000007fffffffffffffffde737d4int,
            0x1b17b11cb2fb8d3df9eda6a5c5d9425c4cd1a560b1fb8e9477702496f48ff36cint,
            0x6072c070edece208332902a349036f4ab92b6f0d82d35e11d1d83bd515172359int),
{
    lemma_double(0x3fffffffc00000003fffffffffffffffef39beint,
        0x7c649cdaa274f2d85fe4d662ff27e4771806f0d760edbd634e5be1c172a27eb2int,
        0xc17f4ff35caffa5ba435a84df737119f576f3be6a16a0e90a5facf7679d0ee4aint,
        0x913748f5f4ebd40ee833087d5f049a3160d91a7e477ef3d255ff1d5003941e44int,
        0xa7493dd58024d4123d3d0d864bbe17328f2917d55d480aec657df9087a2146efint,
        0x8284f3ce7c42dd761e69d552b1c7763e991b52ef284128d4611c4d64a2a44233int);
    lemma_double(0x7fffffff800000007fffffffffffffffde737cint,
        0xa7493dd58024d4123d3d0d864bbe17328f2917d55d480aec657df9087a2146efint,
        0x8284f3ce7c42dd761e69d552b1c7763e991b52ef284128d4611c4d64a2a44233int,
        0x67cd271077eadff61d760b28c71cb39dd0643c50cf45455fe93906276c75ebd1int,
        0x5caf1eb38b4a62e0eef457cf620e99b9f85b4ef6d40e155085585a4e95bce7d6int,
        0x2044165b902c2b0242fa9e4120553e32aefc42a13851713a32fc531fb760c256int);
    lemma_double(0xffffffff00000000ffffffffffffffffbce6f8int,
        0x5caf1eb38b4a62e0eef457cf620e99b9f85b4ef6d40e155085585a4e95bce7d6int,
        0x2044165b902c2b0242fa9e4120553e32aefc42a13851713a32fc531fb760c256int,
        0xc39cd865a45b2ea35158cef71b74603dd89f0f459b9f5a8be4fe8371419211d1int,
        0xc43bd57e7b88b9437c3a76f73e2b93ffab8bd2227bc323faf1f9831b085bce86int,
        0xf82c8b9e9dcbe935fdee529da7606688e04e78c0c070af81be3c7219e65ceb0cint);
    lemma_join(0x1fffffffe00000001ffffffffffffffff79cdf0int, 0x5int,
        0xc43bd57e7b88b9437c3a76f73e2b93ffab8bd2227bc323faf1f9831b085bce86int,
        0xf82c8b9e9dcbe935fdee529da7606688e04e78c0c070af81be3c7219e65ceb0cint,
        0x51590b7a515140d2d784c85608668fdfef8c82fd1f5be52421554a0dc3d033edint,
        0xe0c17da8904a727d8ae1bf36bf8a79260d012f00d4d80888d1d0bb44fda16da4int,
        0x26b3225f315bd414a1d6193962b3f71becde70f3148f1e361b4ff457ffa12f9bint,
        0x6ae4e348851624e801b4f70613bf87374a82054ce3d76d78528e24b5149ebe48int,
        0x132a37974f57ac57480049b7e659c7583b211a4b1c3516a42cc735ee620c4146int);
    lemma_double(0x1fffffffe00000001ffffffffffffffff79cdf5int,
        0x6ae4e348851624e801b4f70613bf87374a82054ce3d76d78528e24b5149ebe48int,
        0x132a37974f57ac57480049b7e659c7583b211a4b1c3516a42cc735ee620c4146int,
        0x64d0d38d31f6655d7305cdaa081f8b3588f2ee7037fa56584ed2c138efa37b6eint,
        0x8d865ca64320c38e6014fb14f0105a055d42ca3af10c3c1ac1a578d326dc4c6cint,
        0x9e3743d1310eda639db861db6e819d5b5ffe94b93e777885550478b25b2c2af6int);
    lemma_double(0x3fffffffc00000003fffffffffffffffef39beaint,
        0x8d865ca64320c38e6014fb14f0105a055d42ca3af10c3c1ac1a578d326dc4c6cint,
        0x9e3743d1310eda639db861db6e819d5b5ffe94b93e777885550478b25b2c2af6int,
        0x34c0b6e689e3ebaa4a2cece3b57c7a923ef24ecb819a1795b6aa6193fa78ebcfint,
        0x1b17b11cb2fb8d3df9eda6a5c5d9425c4cd1a560b1fb8e9477702496f48ff36cint,
        0x6072c070edece208332902a349036f4ab92b6f0d82d35e11d1d83bd515172359int);
}

/// The next multiples of the generator.
proof fn lemma_multiples_31()
    requires
        small_multiples(),
        multiple_is(0x7fffffff800000007fffffffffffffffde737d4int,
            0x1b17b11cb2fb8d3df9eda6a5c5d9425c4cd1a560b1fb8e9477702496f48ff36cint,
            0x6072c070edece208332902a349036f4ab92b6f0d82d35e11d1d83bd515172359int),
    ensures
        multiple_is(0xffffffff00000000ffffffffffffffffbce6faacint,
            0xc799c88297ac2d1373f6af0c2f449a0e35bc010467bffed13d65750acd50932cint,
            0x2b83863f11a28958dfeeb0332eaf5c90ee32f05e9c88e74658fb1b9043d9bac1int),
{
    lemma_double(0x7fffffff800000007fffffffffffffffde737d4int,
        0x1b17b11cb2fb8d3df9eda6a5c5d9425c4cd1a560b1fb8e9477702496f48ff36cint,
        0x6072c070edece208332902a349036f4ab92b6f0d82d35e11d1d83bd515172359int,
        0x4c5ca3872a730e7756b42eda7c1f57adc499839bd7b913b70013b2686405c3a6int,
        0xc7637564581631a631b43adb0716b7783b9ae648b4f32d5b728449f5df7f4181int,
        0x94b0014f13858d02e2153e7d3b51a65b0ee5ff78cb9e689987690023a967b6bdint);
    lemma_double(0xffffffff00000000ffffffffffffffffbce6fa8int,
        0xc7637564581631a631b43adb0716b7783b9ae648b4f32d5b728449f5df7f4181int,
        0x94b0014f13858d02e2153e7d3b51a65b0ee5ff78cb9e689987690023a967b6bdint,
        0xd1cfe17be47f81023ea9182bad5d60eb41f0f4b06ec8059794bc7c5dfb986d92int,
        0xf8c207eae1ce21783814a495e85ceebc2c50abd30efd75c072e912e41ce01805int,
        0x76713ae63aa662fb422ca302bdca17c510d572ed77394fa8e879a1c2b80ae7a7int);
    lemma_double(0x1fffffffe00000001ffffffffffffffff79cdf50int,
        0xf8c207eae1ce21783814a495e85ceebc2c50abd30efd75c072e912e41ce01805int,
        0x76713ae63aa662fb422ca302bdca17c510d572ed77394fa8e879a1c2b80ae7a7int,
        0xcb7b5666a620a0b8ab8c367f77e6a0258b54580d219d4454fcbdcf60b56f463bint,
        0xf1e0e5c278b44e07abbaee1bf93fd963841cf0bfb019288f450173ca7dd91c87int,
        0x4a12c305e065cd7b99d9b2da631983b74a751fad83971ca60f167a780c088dcaint);
    lemma_join(0x3fffffffc00000003fffffffffffffffef39bea0int, 0xbint,
        0xf1e0e5c278b44e07abbaee1bf93fd963841cf0bfb019288f450173ca7dd91c87int,
        0x4a12c305e065cd7b99d9b2da631983b74a751fad83971ca60f167a780c088dcaint,
        0x3ed113b7883b4c590638379db0c21cda16742ed0255048bf433391d374bc21d1int,
        0x9099209accc4c8a224c843afa4f4c68a090d04da5e9889dae2f8eefce82a3740int,
        0xf7c31be79f5db46ef596741bcd16138186c4465b7c7a27f2903331f75b4e9b3int,
        0x66a9c992903f18467f22e9ef849aec9fd8a9028b2af7e0951c25460654e5329int,
        0x4114ebe60dc7c04ce187d883626cf27da496440d477560cd930a67617c6406c3int);
    lemma_double(0x3fffffffc00000003fffffffffffffffef39beabint,
        0x66a9c992903f18467f22e9ef849aec9fd8a9028b2af7e0951c25460654e5329int,
        0x4114ebe60dc7c04ce187d883626cf27da496440d477560cd930a67617c6406c3int,
        0xe49459c373c5dba80edde36f7347197dd8ca4cb493790182f5e3d808c610246aint,
        0x9466635111245cdf036a63ae28d4db375a26af5086e74da57b7284cdf8506c65int,
        0xfdd17a3902012890c00339743543a9e7991e388b62e0c7347edaaa4e244baad2int);
    lemma_double(0x7fffffff800000007fffffffffffffffde737d56int,
        0x9466635111245cdf036a63ae28d4db375a26af5086e74da57b7284cdf8506c65int,
        0xfdd17a3902012890c00339743543a9e7991e388b62e0c7347edaaa4e244baad2int,
        0xedcb40b3507486f3f28953bfccc450a88bd60d32f3732f1f0ce7246d95bf2b27int,
        0xc799c88297ac2d1373f6af0c2f449a0e35bc010467bffed13d65750acd50932cint,
        0x2b83863f11a28958dfeeb0332eaf5c90ee32f05e9c88e74658fb1b9043d9bac1int);
}

/// The next multiples of the generator.
proof fn lemma_multiples_32()
    requires
        small_multiples(),
        multiple_is(0xffffffff00000000ffffffffffffffffbce6faacint,
            0xc799c88297ac2d1373f6af0c2f449a0e35bc010467bffed13d65750acd50932cint,
            0x2b83863f11a28958dfeeb0332eaf5c90ee32f05e9c88e74658fb1b9043d9bac1int),
    ensures
        multiple_is(0x1fffffffe00000001ffffffffffffffff79cdf55b4int,
            0xe391a696c7ac0adf4f72004a60b8a6c7a688173cb829f61f9c85b8e0b62f4d25int,
            0x4690b02ac2d58cc655aca1095179d06f7619b6f7b8e05d568687ada93c6409b7int),
{
    lemma_double(0xffffffff00000000ffffffffffffffffbce6faacint,
        0xc799c88297ac2d1373f6af0c2f449a0e35bc010467bffed13d65750acd50932cint,
        0x2b83863f11a28958dfeeb0332eaf5c90ee32f05e9c88e74658fb1b9043d9bac1int,
        0x95a16d6b5ced6ecb415d706a506328de77b3cf0ae1c65c6677ccaeec3ba1466cint,
        0x3d5ae3af25cda884ce422f6c4c733e1a5a6b49082e41334eb4ee48ef4d48fa36int,
        0x858f1edb1c7a1a2060fcc745a3c96f5102fdf8d0b5c1b446a11c913be0e82c36int);
    lemma_double(0x1fffffffe00000001ffffffffffffffff79cdf558int,
        0x3d5ae3af25cda884ce422f6c4c733e1a5a6b49082e41334eb4ee48ef4d48fa36int,
        0x858f1edb1c7a1a2060fcc745a3c96f5102fdf8d0b5c1b446a11c913be0e82c36int,
        0x8bd712d997fb4900c0dd77cc654eca64ff73b31dd603d4f3bad0a04cfa8023ecint,
        0x5fc74cd181f0c1df01d4f3fe40f379526f9df88020633994799acecc3bfcaf14int,
        0x9486ec6ad6954a9dcdec1706767ccedb6dc7f3e4106532a0049bcabb9a5cf638int);
    lemma_double(0x3fffffffc00000003fffffffffffffffef39beab0int,
        0x5fc74cd181f0c1df01d4f3fe40f379526f9df88020633994799acecc3bfcaf14int,
        0x9486ec6ad6954a9dcdec1706767ccedb6dc7f3e4106532a0049bcabb9a5cf638int,
        0xad308154074aa9e2d7ea40c01a4341b7858dd67d1861225bb956b691667787cbint,
        0xd1e4d7d12731eb4da69295936ad9070a1cbfee48ca03f46581cf419309a1264fint,
        0xe798e35631ed5f8436b851909adf9f2c5ac00ccbbc3c086527a326c3f791f42dint);
    lemma_join(0x7fffffff800000007fffffffffffffffde737d560int, 0xdint,
        0xd1e4d7d12731eb4da69295936ad9070a1cbfee48ca03f46581cf419309a1264fint,
        0xe798e35631ed5f8436b851909adf9f2c5ac00ccbbc3c086527a326c3f791f42dint,
        0x177c837ae0ac495a61805df2d85ee2fc792e284b65ead58a98e15d9d46072c01int,
        0x63bb58cd4ebea558a24091adb40f4e7226ee14c3a1fb4df39c43bbe2efc7bfd8int,
        0x74bbb8ab255da8fded5f5b7eb3362437a8e98ef48e014039c57733918383c818int,
        0xf7282ba39e5db687ecf291b176123a7b5ea6d101464e02b148f236dddbe06bb0int,
        0x55201b1614b46074c1bc85f53ce53e9436db7045d0e86840d309e2be62c17606int);
    lemma_double(0x7fffffff800000007fffffffffffffffde737d56dint,
        0xf7282ba39e5db687ecf291b176123a7b5ea6d101464e02b148f236dddbe06bb0int,
        0x55201b1614b46074c1bc85f53ce53e9436db7045d0e86840d309e2be62c17606int,
        0x1687868d0c3c942a86f6a2f6bc2b0b0014da5b25d28de6968dd58ec932777ea8int,
        0x712882c6f5c608ceff86c68358099492bebb14c41242cf2c12a46fbd41a7fd26int,
        0xebc802f7c048b4c1c55b0bd20a483b3826015fa160bbc02de00a2c5d7b88419aint);
    lemma_double(0xffffffff00000000ffffffffffffffffbce6faadaint,
        0x712882c6f5c608ceff86c68358099492bebb14c41242cf2c12a46fbd41a7fd26int,
        0xebc802f7c048b4c1c55b0bd20a483b3826015fa160bbc02de00a2c5d7b88419aint,
        0x2e1d6d99905ca613107ae06ad50b69ee23145b1a91e4afb8a2ca74b9207129a5int,
        0xe391a696c7ac0adf4f72004a60b8a6c7a688173cb829f61f9c85b8e0b62f4d25int,
        0x4690b02ac2d58cc655aca1095179d06f7619b6f7b8e05d568687ada93c6409b7int);
}

/// The next multiples of the generator.
proof fn lemma_multiples_33()
    requires
        small_multiples(),
        multiple_is(0x1fffffffe00000001ffffffffffffffff79cdf55b4int,
            0xe391a696c7ac0adf4f72004a60b8a6c7a688173cb829f61f9c85b8e0b62f4d25int,
            0x4690b02ac2d58cc655aca1095179d06f7619b6f7b8e05d568687ada93c6409b7int),
    ensures
        multiple_is(0x3fffffffc00000003fffffffffffffffef39beab69cint,
            0x5480132ea18cb477bc329bbd68f50afcda3bbb8677a2d7ee7efbfc0fec3350dint,
            0x1f877a33c066a4cbe14e90b9a08facde10c9b147067f69ff82510001df2cdf19int),
{
    lemma_double(0x1fffffffe00000001ffffffffffffffff79cdf55b4int,
        0xe391a696c7ac0adf4f72004a60b8a6c7a688173cb829f61f9c85b8e0b62f4d25int,
        0x4690b02ac2d58cc655aca1095179d06f7619b6f7b8e05d568687ada93c6409b7int,
        0x4cc2cb0832313f941fe6fa205e66482b5c95e94b784f8cad768d71554e8dd58cint,
        0x99a88bba591b167f364e78fc101b386fd435e67c268c312231949065fbb5ae87int,
        0xb62c302f768c6006f5b7e5f6f591996d7ee34d94b0d1514fb19402dbb8816e99int);
    lemma_double(0x3fffffffc00000003fffffffffffffffef39beab68int,
        0x99a88bba591b167f364e78fc101b386fd435e67c268c312231949065fbb5ae87int,
        0xb62c302f768c6006f5b7e5f6f591996d7ee34d94b0d1514fb19402dbb8816e99int,
        0xff4ce11b3ed7035ce9a63e20e84cb5be9bf80dad1aad2075a1c8e6947fd04344int,
        0x2367ee2de9eb32b9988c9c8a866c32b30c0ab08760c64b39a896afc2680e0a04int,
        0xab7e4469a0ea3c594d9da618b84fb9a30cb52ad40e8e33902654e8c111533c50int);
    lemma_double(0x7fffffff800000007fffffffffffffffde737d56d0int,
        0x2367ee2de9eb32b9988c9c8a866c32b30c0ab08760c64b39a896afc2680e0a04int,
        0xab7e4469a0ea3c594d9da618b84fb9a30cb52ad40e8e33902654e8c111533c50int,
        0x6efe928cf319e8487f1de3b99b0e3f100002adbc41e054326a05c304c633153aint,
        0x57815b5f9f552a38439ae6e4dbb6941a6febd67246a186af12536299c6b60672int,
        0x3192617479071e47753ad1c071a489242869769b25260009182a694ddb2e2580int);
    lemma_join(0xffffffff00000000ffffffffffffffffbce6faada0int, 0x7int,
        0x57815b5f9f552a38439ae6e4dbb6941a6febd67246a186af12536299c6b60672int,
        0x3192617479071e47753ad1c071a489242869769b25260009182a694ddb2e2580int,
        0x8e533b6fa0bf7b4625bb30667c01fb607ef9f8b8a80fef5b300628703187b2a3int,
        0x73eb1dbde03318366d069f83a6f5900053c73633cb041b21c55e1a86c1f400b4int,
        0xd8864cb40606407df152356203494b884f5c90f238523ef437945acd9e6318c8int,
        0xd1605c7f98518c3bdc14099138ae10f58e00559a537595bd0102d52b4cb75d94int,
        0x61582c41e6e345a428575a5be939935a2a1735d0a001d63a1921c8f996f11e70int);
    lemma_double(0xffffffff00000000ffffffffffffffffbce6faada7int,
        0xd1605c7f98518c3bdc14099138ae10f58e00559a537595bd0102d52b4cb75d94int,
        0x61582c41e6e345a428575a5be939935a2a1735d0a001d63a1921c8f996f11e70int,
        0x328311006166da0e2d955527c15989dcadf4e3fd67e2fa1041c595d4d5bb5318int,
        0x324626b2a465f61d1d5335efa22ae562eb230a8431f0cc9c009c00d4fe34985dint,
        0xed335e389b3b10c230d9fbc9a5617c692d22b0adb969e71db302c73987fb7a1int);
    lemma_double(0x1fffffffe00000001ffffffffffffffff79cdf55b4eint,
        0x324626b2a465f61d1d5335efa22ae562eb230a8431f0cc9c009c00d4fe34985dint,
        0xed335e389b3b10c230d9fbc9a5617c692d22b0adb969e71db302c73987fb7a1int,
        0x7e087002e55cae077c9697c99e58a03e348c2cf038320cdadba6fdbdc2abda18int,
        0x5480132ea18cb477bc329bbd68f50afcda3bbb8677a2d7ee7efbfc0fec3350dint,
        0x1f877a33c066a4cbe14e90b9a08facde10c9b147067f69ff82510001df2cdf19int);
}

/// The next multiples of the generator.
proof fn lemma_multiples_34()
    requires
        small_multiples(),
        multiple_is(0x3fffffffc00000003fffffffffffffffef39beab69cint,
            0x5480132ea18cb477bc329bbd68f50afcda3bbb8677a2d7ee7efbfc0fec3350dint,
            0x1f877a33c066a4cbe14e90b9a08facde10c9b147067f69ff82510001df2cdf19int),
    ensures
        multiple_is(0x7fffffff800000007fffffffffffffffde737d56d38bint,
            0x906190c455f1999be9baf1609ac8a07033d3273c51381fbbe106e3134fd2444fint,
            0xf9145a5bad2300264c3594e25c56db384c0f465335761fc864bf0a0bc80b370bint),
{
    lemma_double(0x3fffffffc00000003fffffffffffffffef39beab69cint,
        0x5480132ea18cb477bc329bbd68f50afcda3bbb8677a2d7ee7efbfc0fec3350dint,
        0x1f877a33c066a4cbe14e90b9a08facde10c9b147067f69ff82510001df2cdf19int,
        0x874749fef062abebe4fcd8d6de89523c51b44716b020f206d464b45cebd0227dint,
        0x9da6d204a90c97e83677bd3abdd8e190f42f42a9b651c441e08db4811b49a35eint,
        0x2f16762c05aa3f6faa7daca4130d6c11ab881fcdbdea00a99534145f197ca6b3int);
    lemma_double(0x7fffffff800000007fffffffffffffffde737d56d38int,
        0x9da6d204a90c97e83677bd3abdd8e190f42f42a9b651c441e08db4811b49a35eint,
        0x2f16762c05aa3f6faa7daca4130d6c11ab881fcdbdea00a99534145f197ca6b3int,
        0x54f55f77ccd03ea178b1a9b03bc1897cea9b8351be047214c7608b24e0da4759int,
        0x3edd7d6d5efb143f842ae7a29746869cfcccf9c4aa741e2eaf73634cfb42e855int,
        0xecd4a5d53f7abdd49b7bdf8e93893bdb26c6611a69b12245a71b93919625b9dbint);
    lemma_double(0xffffffff00000000ffffffffffffffffbce6faada70int,
        0x3edd7d6d5efb143f842ae7a29746869cfcccf9c4aa741e2eaf73634cfb42e855int,
        0xecd4a5d53f7abdd49b7bdf8e93893bdb26c6611a69b12245a71b93919625b9dbint,
        0x4885c3c7bc7c14360fd64185e560f8c26050045a0f0610027e65651b1bfe0ffint,
        0x6efd299cfd2f57e13f638662f173faa6cd9bd90da24aab64d0445e0faf5681a4int,
        0x22717323552bf26c834732d5e877997485fe28e2ec15cd3e8332088ca1c158a0int);
    lemma_double(0x1fffffffe00000001ffffffffffffffff79cdf55b4e0int,
        0x6efd299cfd2f57e13f638662f173faa6cd9bd90da24aab64d0445e0faf5681a4int,
        0x22717323552bf26c834732d5e877997485fe28e2ec15cd3e8332088ca1c158a0int,
        0x8634cdcea3ab83d91f73201f7c040538893b241096a2d8dc4f6be8bcf976d5fint,
        0x3c3102f7926554d020fb7f4528d4324707ab6fa19e70ace673939dd1669588a1int,
        0x81b2adce94b3cca872355377ee778f6cbd18fec3f6e0224c553f134f81401f1aint);
    lemma_double(0x3fffffffc00000003fffffffffffffffef39beab69c0int,
        0x3c3102f7926554d020fb7f4528d4324707ab6fa19e70ace673939dd1669588a1int,
        0x81b2adce94b3cca872355377ee778f6cbd18fec3f6e0224c553f134f81401f1aint,
        0xd4b8a440112a7eaff2cc76448dc0a63235d74f68381153ef7d69722da83e3cc6int,
        0x7409dd5bb6dd49a33782ac3f8555c2895eeff424d4041cf6da72f36cd0d64ab8int,
        0xc2f33621b3dc26720addab9badb7ecab9ceccc19e429bfa2ff2b33ae57058de1int);
    lemma_join(0x7fffffff800000007fffffffffffffffde737d56d380int, 0xbint,
        0x7409dd5bb6dd49a33782ac3f8555c2895eeff424d4041cf6da72f36cd0d64ab8int,
        0xc2f33621b3dc26720addab9badb7ecab9ceccc19e429bfa2ff2b33ae57058de1int,
        0x3ed113b7883b4c590638379db0c21cda16742ed0255048bf433391d374bc21d1int,
        0x9099209accc4c8a224c843afa4f4c68a090d04da5e9889dae2f8eefce82a3740int,
        0xcca7c04a3847f61bee093ed868848270dd9ab02cd202cc3636ffaf0cb51666baint,
        0x906190c455f1999be9baf1609ac8a07033d3273c51381fbbe106e3134fd2444fint,
        0xf9145a5bad2300264c3594e25c56db384c0f465335761fc864bf0a0bc80b370bint);
}

/// The next multiples of the generator.
proof fn lemma_multiples_35()
    requires
        small_multiples(),
        multiple_is(0x7fffffff800000007fffffffffffffffde737d56d38bint,
            0x906190c455f1999be9baf1609ac8a07033d3273c51381fbbe106e3134fd2444fint,
            0xf9145a5bad2300264c3594e25c56db384c0f465335761fc864bf0a0bc80b370bint),
    ensures
        multiple_is(0xffffffff00000000ffffffffffffffffbce6faada7178int,
            0xae394b3bb634bc3ee13e7aca57fb126522004ec8720e8db5582034b4993918e6int,
            0x5ecefe9b5f7c9a3e2deada5a8854cfa1c5f4fdbbc5fb5edfb36325d000a41355int),
{
    lemma_double(0x7fffffff800000007fffffffffffffffde737d56d38bint,
        0x906190c455f1999be9baf1609ac8a07033d3273c51381fbbe106e3134fd2444fint,
        0xf9145a5bad2300264c3594e25c56db384c0f465335761fc864bf0a0bc80b370bint,
        0xe02cf3e22f37777a9f0a291795186edf86f76a830e192ee15156aab6c19d43f6int,
        0xc746d556fbddcc12b974f34d6444989a1e93ee8d2f4593a28893012435449dc8int,
        0x4f743d3c56cef78d831a700cdf5f83facc5af9e1afa2809cb2a565ffe322bb51int);
    lemma_double(0xffffffff00000000ffffffffffffffffbce6faada716int,
        0xc746d556fbddcc12b974f34d6444989a1e93ee8d2f4593a28893012435449dc8int,
        0x4f743d3c56cef78d831a700cdf5f83facc5af9e1afa2809cb2a565ffe322bb51int,
        0x853d6c45639ccb14baf6f540083b6107e567c4c52849c7fe2cacbd06939a0848int,
        0xc3255b52e3bae2fa71066a87094f5ec7189c2b56362f4bd2f58a644ae77c3bfbint,
        0x6ebaea82e3190aebae190cedc0cd2873814cae751201b227e84fdc8ceaf16642int);
    lemma_join(0x1fffffffe00000001ffffffffffffffff79cdf55b4e2cint, 0x3int,
        0xc3255b52e3bae2fa71066a87094f5ec7189c2b56362f4bd2f58a644ae77c3bfbint,
        0x6ebaea82e3190aebae190cedc0cd2873814cae751201b227e84fdc8ceaf16642int,
        0x5ecbe4d1a6330a44c8f7ef951d4bf165e6c6b721efada985fb41661bc6e7fd6cint,
        0x8734640c4998ff7e374b06ce1a64a2ecd82ab036384fb83d9a79b127a27d5032int,
        0x41c6dd21bd24e859532b0b27f97e97aca986f6c398f7d713b6304c99449fdf0eint,
        0xb5c20ed77f322d6bf7b6b2675cdfbfbb8375b251d39e84dfef37836e0c2d3c32int,
        0x56c0e75683597fc4b891115c4faee04e9d0837c8b7c2001f62505886c70d8dc6int);
    lemma_double(0x1fffffffe00000001ffffffffffffffff79cdf55b4e2fint,
        0xb5c20ed77f322d6bf7b6b2675cdfbfbb8375b251d39e84dfef37836e0c2d3c32int,
        0x56c0e75683597fc4b891115c4faee04e9d0837c8b7c2001f62505886c70d8dc6int,
        0x3050f99b1337c62004e120e368b9c0f76b837cba50537ff5e210843b7f72c84int,
        0x9ea323138c3021f1d1a58f22375cc3c5651bcb03de5568af3d9919999fa5ec7fint,
        0x4c00bea15a3fbbb38dc9392f03868fe2c124140d165e59f90d5d9b7f9e24d270int);
    lemma_double(0x3fffffffc00000003fffffffffffffffef39beab69c5eint,
        0x9ea323138c3021f1d1a58f22375cc3c5651bcb03de5568af3d9919999fa5ec7fint,
        0x4c00bea15a3fbbb38dc9392f03868fe2c124140d165e59f90d5d9b7f9e24d270int,
        0x359cb63dd575fe116d4334b14409ac9b98abc4fbae71c5208e980e73c5464763int,
        0x6c91ca6734a570c2491e92ce87836823dae578f99579baf6347b651c79b06c73int,
        0x413ad6b4ece5409ab15f0c9304dcd9153c5ba397655de0707c7111f2723cac56int);
    lemma_double(0x7fffffff800000007fffffffffffffffde737d56d38bcint,
        0x6c91ca6734a570c2491e92ce87836823dae578f99579baf6347b651c79b06c73int,
        0x413ad6b4ece5409ab15f0c9304dcd9153c5ba397655de0707c7111f2723cac56int,
        0x741d59dd266cf529f4c4d32cb6c774d98385e15d27764acc6c6e572e4e80178cint,
        0xae394b3bb634bc3ee13e7aca57fb126522004ec8720e8db5582034b4993918e6int,
        0x5ecefe9b5f7c9a3e2deada5a8854cfa1c5f4fdbbc5fb5edfb36325d000a41355int);
}

/// The next multiples of the generator.
proof fn lemma_multiples_36()
    requires
        small_multiples(),
        multiple_is(0xffffffff00000000ffffffffffffffffbce6faada7178int,
            0xae394b3bb634bc3ee13e7aca57fb126522004ec8720e8db5582034b4993918e6int,
            0x5ecefe9b5f7c9a3e2deada5a8854cfa1c5f4fdbbc5fb5edfb36325d000a41355int),
    ensures
        multiple_is(0x1fffffffe00000001ffffffffffffffff79cdf55b4e2f3cint,
            0x17447f8b000cb8adb9ef3e03a01e8aea0ff0d1241bb9a660d8d59d9009b65720int,
            0x5c9bd4932f6b38101f23c5b85f078c535207e702bda5a81b65fa0952596ef3int),
{
    lemma_double(0xffffffff00000000ffffffffffffffffbce6faada7178int,
        0xae394b3bb634bc3ee13e7aca57fb126522004ec8720e8db5582034b4993918e6int,
        0x5ecefe9b5f7c9a3e2deada5a8854cfa1c5f4fdbbc5fb5edfb36325d000a41355int,
        0x838c798bacfd36910554a1a9028aa094d8bd9b94695d0ee71ae95cdb81e6d87dint,
        0x7857a136ef18fdef797d06c254201cfb97319ee2e511670fcff6e7cdbcf9531eint,
        0x5754539d2dc58e4f0760c207a780900888e4698a2bf4e837dbc48770f9281229int);
    lemma_double(0x1fffffffe00000001ffffffffffffffff79cdf55b4e2f0int,
        0x7857a136ef18fdef797d06c254201cfb97319ee2e511670fcff6e7cdbcf9531eint,
        0x5754539d2dc58e4f0760c207a780900888e4698a2bf4e837dbc48770f9281229int,
        0xa07bedfc7b9eb7a05dbd8ad413513112744ea93a2df8955faa36e51bedbb579eint,
        0x2c46a29ac0c6dbdb68424248031d83cd29104f458b47561eef2e813ba9605a4bint,
        0xfed79016280d40fd51041c29d33f0eb78a2aab4534b7f6dece7d17690f1b148fint);
    lemma_double(0x3fffffffc00000003fffffffffffffffef39beab69c5e0int,
        0x2c46a29ac0c6dbdb68424248031d83cd29104f458b47561eef2e813ba9605a4bint,
        0xfed79016280d40fd51041c29d33f0eb78a2aab4534b7f6dece7d17690f1b148fint,
        0x1d467ff2995a6f6e5a2ed712b05270245749299052686a56e16badff8933357int,
        0x399a66a46ecf0c348d731defffc7ea683893998f1c24dd013f163be8052e6994int,
        0xb7e66aaf514467433fa48c0e3fea1f08d4a1e4348e5074cacc53f66190ca5d16int);
    lemma_join(0x7fffffff800000007fffffffffffffffde737d56d38bc0int, 0xfint,
        0x399a66a46ecf0c348d731defffc7ea683893998f1c24dd013f163be8052e6994int,
        0xb7e66aaf514467433fa48c0e3fea1f08d4a1e4348e5074cacc53f66190ca5d16int,
        0xf0454dc6971abae7adfb378999888265ae03af92de3a0ef163668c63e59b9d5fint,
        0xb5b93ee3592e2d1f4e6594e51f9643e62a3b21ce75b5fa3f47e59cde0d034f36int,
        0xee8ad5282f286ef901a803e423a9d26f5ab7859bce204f3ffed8bb0348ceb903int,
        0x98264d08b10d9868c1f1d37dab999279066354fcfb38c82d70a180d1e4fd7087int,
        0xb29bc827ee80893ed7fa5997cfc356b5e27051484829271f6b4b73d0e44f306dint);
    lemma_double(0x7fffffff800000007fffffffffffffffde737d56d38bcfint,
        0x98264d08b10d9868c1f1d37dab999279066354fcfb38c82d70a180d1e4fd7087int,
        0xb29bc827ee80893ed7fa5997cfc356b5e27051484829271f6b4b73d0e44f306dint,
        0xa062b7b604d46e0eec641b05bea0471db15e82688f5826c1c34637bbd3edec1aint,
        0x913b962857a991a62cdbfcb451513315b8685997fc0956ba592c5756e37e63c6int,
        0x297994edfd26d9486e66bb24dd0292fae1f11302c737cd4500c5e964d521e1d4int);
    lemma_double(0xffffffff00000000ffffffffffffffffbce6faada7179eint,
        0x913b962857a991a62cdbfcb451513315b8685997fc0956ba592c5756e37e63c6int,
        0x297994edfd26d9486e66bb24dd0292fae1f11302c737cd4500c5e964d521e1d4int,
        0x9fabde1ceaeb992e80017b12d617ae37f2035299330091887021ceb827ccbb36int,
        0x17447f8b000cb8adb9ef3e03a01e8aea0ff0d1241bb9a660d8d59d9009b65720int,
        0x5c9bd4932f6b38101f23c5b85f078c535207e702bda5a81b65fa0952596ef3int);
}

/// The next multiples of the generator.
proof fn lemma_multiples_37()
    requires
        small_multiples(),
        multiple_is(0x1fffffffe00000001ffffffffffffffff79cdf55b4e2f3cint,
            0x17447f8b000cb8adb9ef3e03a01e8aea0ff0d1241bb9a660d8d59d9009b65720int,
            0x5c9bd4932f6b38101f23c5b85f078c535207e702bda5a81b65fa0952596ef3int),
    ensures
        multiple_is(0x3fffffffc00000003fffffffffffffffef39beab69c5e7a0int,
            0x34cf5cabda4bb9c7e79f11e446f0d4689280c9689422c35a7b9f450df9567e24int,
            0xed47cc07b8c5765bc480e99029fd99f289d6dce633e3bfc75c5cc6f810bbe0a2int),
{
    lemma_join(0x1fffffffe00000001ffffffffffffffff79cdf55b4e2f3cint, 0x1int,
        0x17447f8b000cb8adb9ef3e03a01e8aea0ff0d1241bb9a660d8d59d9009b65720int,
        0x5c9bd4932f6b38101f23c5b85f078c535207e702bda5a81b65fa0952596ef3int,
        0x6b17d1f2e12c4247f8bce6e563a440f277037d812deb33a0f4a13945d898c296int,
        0x4fe342e2fe1a7f9b8ee7eb4a7c0f9e162bce33576b315ececbb6406837bf51f5int,
        0x230d7a4a3dcda864775eb4ffe8f319d14834441848fc304ad231797811c1302bint,
        0xb6c88e89b8129b7277b414a5648a11f4f2e9d97a40526e22ee25b80bac33406cint,
        0x7ccf333f633ccb065d76f4da59c7e0076d7776605ca9dcd853f4a31991655779int);
    lemma_double(0x1fffffffe00000001ffffffffffffffff79cdf55b4e2f3dint,
        0xb6c88e89b8129b7277b414a5648a11f4f2e9d97a40526e22ee25b80bac33406cint,
        0x7ccf333f633ccb065d76f4da59c7e0076d7776605ca9dcd853f4a31991655779int,
        0x5470a5c84b32e321637d2e208201a340a01ffeca339bd0aa80979c4f1170ec87int,
        0xc317254ba84a4bd587ba11b418a59cdfaf2c1f8f11b46f0639fd66ad9245261bint,
        0x62a7bfa2474c85a8c9974efe929cd60c4ec8fdd3265498bac720c79090aeda42int);
    lemma_double(0x3fffffffc00000003fffffffffffffffef39beab69c5e7aint,
        0xc317254ba84a4bd587ba11b418a59cdfaf2c1f8f11b46f0639fd66ad9245261bint,
        0x62a7bfa2474c85a8c9974efe929cd60c4ec8fdd3265498bac720c79090aeda42int,
        0x7e0a3376d947900a7a41aa6d2f81b1952d4c5c95a3d6fbf1603466442e7f0620int,
        0x37bb41f89568cef5c6cdd2e994cb1bcf272b106132f9e19f52686b3ce0dae342int,
        0x85cb39907677067b8d01b78d67511eb1647628882ae01b02da07cc24fc59eb29int);
    lemma_double(0x7fffffff800000007fffffffffffffffde737d56d38bcf4int,
        0x37bb41f89568cef5c6cdd2e994cb1bcf272b106132f9e19f52686b3ce0dae342int,
        0x85cb39907677067b8d01b78d67511eb1647628882ae01b02da07cc24fc59eb29int,
        0xe05d1f4553924fe6c8c2d7e3065b67bde5d0c944415fef1de4ee9e5bb461835int,
        0x7e6a7cd84f249d763a06b003098ff456b57fa8d78050bf86b6275d452773a44cint,
        0x1067c4bc316d219724468f96388fae55921cfd6ad7e94820bf6fce44199772deint);
    lemma_double(0xffffffff00000000ffffffffffffffffbce6faada7179e8int,
        0x7e6a7cd84f249d763a06b003098ff456b57fa8d78050bf86b6275d452773a44cint,
        0x1067c4bc316d219724468f96388fae55921cfd6ad7e94820bf6fce44199772deint,
        0xd6be9e6daef03da7f6225309237433fd6749d3ba48e55744d1086a32681a48b5int,
        0xc0c011ea3966c45eea06ad310e7eea14513bd10b558e47cf8d3fbb6c3561ad78int,
        0x3cb15e9eeb873f399b8642be3fea6fe85a73e2f6a5432017e0c56612730eb10cint);
    lemma_double(0x1fffffffe00000001ffffffffffffffff79cdf55b4e2f3d0int,
        0xc0c011ea3966c45eea06ad310e7eea14513bd10b558e47cf8d3fbb6c3561ad78int,
        0x3cb15e9eeb873f399b8642be3fea6fe85a73e2f6a5432017e0c56612730eb10cint,
        0x232359521f0e0a6d5ebdb8edfec99aa6083f85ee92d280a53cf82f10076328a7int,
        0x34cf5cabda4bb9c7e79f11e446f0d4689280c9689422c35a7b9f450df9567e24int,
        0xed47cc07b8c5765bc480e99029fd99f289d6dce633e3bfc75c5cc6f810bbe0a2int);
}

/// The next multiples of the generator.
proof fn lemma_multiples_38()
    requires
        small_multiples(),
        multiple_is(0x3fffffffc00000003fffffffffffffffef39beab69c5e7a0int,
            0x34cf5cabda4bb9c7e79f11e446f0d4689280c9689422c35a7b9f450df9567e24int,
            0xed47cc07b8c5765bc480e99029fd99f289d6dce633e3bfc75c5cc6f810bbe0a2int),
    ensures
        multiple_is(0x7fffffff800000007fffffffffffffffde737d56d38bcf424int,
            0xfabd6301de2bbfea5eb8ae119c15146be000574f647ccc4e7e96f6f7bbd2fc82int,
            0xa8eba4bfdf0b026453b36124015ed213d5e075b5d9be10da9c7cf8af39a655c6int),
{
    lemma_double(0x3fffffffc00000003fffffffffffffffef39beab69c5e7a0int,
        0x34cf5cabda4bb9c7e79f11e446f0d4689280c9689422c35a7b9f450df9567e24int,
        0xed47cc07b8c5765bc480e99029fd99f289d6dce633e3bfc75c5cc6f810bbe0a2int,
        0x92aa12e4ac71e4699357ef1f0e55c574a6608ced8c4ea4c0682e47cab3e69345int,
        0x24a4e168876dba5e0c1f1d8f5d15aaf928f816c883e7655d5f0aa6c10bb8b0e9int,
        0x765097b71e7d145abe357ed3f9fa889ba1bb184ddb4980951a0cd80334c94b7bint);
    lemma_double(0x7fffffff800000007fffffffffffffffde737d56d38bcf40int,
        0x24a4e168876dba5e0c1f1d8f5d15aaf928f816c883e7655d5f0aa6c10bb8b0e9int,
        0x765097b71e7d145abe357ed3f9fa889ba1bb184ddb4980951a0cd80334c94b7bint,
        0x6f7cfad88c4dc7d942b881e354b9ec0a64eccdc2bac97fcd94dfa9ac38c9a7e8int,
        0x1fe49046c2d65f9283c96b6d512e817b4de0daa6e0cc657dd8efd7d82818f880int,
        0x7ec62ca3b3d23aaec5a4d0972be28ee9edbf83d357e601700c75c670715bd3cfint);
    lemma_double(0xffffffff00000000ffffffffffffffffbce6faada7179e80int,
        0x1fe49046c2d65f9283c96b6d512e817b4de0daa6e0cc657dd8efd7d82818f880int,
        0x7ec62ca3b3d23aaec5a4d0972be28ee9edbf83d357e601700c75c670715bd3cfint,
        0x81a10f28cfe03783a0dabc05e41e344ebd12670d02fbb9d29cb081631ca537ceint,
        0xfb3956628924d1dfc7d8c0bb3304c08549592831c3c29b66bf169c3b054cab1cint,
        0x790714368426357f909a98d2728b14cf4db0f15d055b566eaac6d4ba4b2c99faint);
    lemma_join(0x1fffffffe00000001ffffffffffffffff79cdf55b4e2f3d00int, 0x9int,
        0xfb3956628924d1dfc7d8c0bb3304c08549592831c3c29b66bf169c3b054cab1cint,
        0x790714368426357f909a98d2728b14cf4db0f15d055b566eaac6d4ba4b2c99faint,
        0xea68d7b6fedf0b71878938d51d71f8729e0acb8c2c6df8b3d79e8a4b90949ee0int,
        0x2a2744c972c9fce787014a964a8ea0c84d714feaa4de823fe85a224a4dd048faint,
        0x802f452c4a4a0b0c992923ac9f0f96f47d15158d568665350bdd4b6f9adcf499int,
        0x310d20cb8f38036af5cc50104330e64da88914750c31b568ee130138fead1de4int,
        0xc034bf134f82a1375fb80c46ab0c06a406552ddfed08d74ea2605f3a3303a753int);
    lemma_double(0x1fffffffe00000001ffffffffffffffff79cdf55b4e2f3d09int,
        0x310d20cb8f38036af5cc50104330e64da88914750c31b568ee130138fead1de4int,
        0xc034bf134f82a1375fb80c46ab0c06a406552ddfed08d74ea2605f3a3303a753int,
        0xaa3974036dfdaaf916da0c1878bdbaf4f0c5d807fdef7cbb0941a7906a25ae06int,
        0x4989fdbbdccaec15457e1b060d559ff7da31dc4f291e3da443af7e034c8ae136int,
        0x7f695f877b3052918c5a8ddbaeb2abd151e59fd056e67acccc072e8c90ee27d7int);
    lemma_double(0x3fffffffc00000003fffffffffffffffef39beab69c5e7a12int,
        0x4989fdbbdccaec15457e1b060d559ff7da31dc4f291e3da443af7e034c8ae136int,
        0x7f695f877b3052918c5a8ddbaeb2abd151e59fd056e67acccc072e8c90ee27d7int,
        0x6dc11886394407bdb2ef635e777e9ed8ed91b622c027ea996bfae627142c8aa0int,
        0xfabd6301de2bbfea5eb8ae119c15146be000574f647ccc4e7e96f6f7bbd2fc82int,
        0xa8eba4bfdf0b026453b36124015ed213d5e075b5d9be10da9c7cf8af39a655c6int);
}

/// The next multiples of the generator.
proof fn lemma_multiples_39()
    requires
        small_multiples(),
        multiple_is(0x7fffffff800000007fffffffffffffffde737d56d38bcf424int,
            0xfabd6301de2bbfea5eb8ae119c15146be000574f647ccc4e7e96f6f7bbd2fc82int,
            0xa8eba4bfdf0b026453b36124015ed213d5e075b5d9be10da9c7cf8af39a655c6int),
    ensures
        multiple_is(0xffffffff00000000ffffffffffffffffbce6faada7179e84f0int,
            0x8d77532550c42d38835efed0f744bdef2c5368626eec8e63c671971ee96eac4cint,
            0xad5a4a4047936aaf21d58ceef337c6dde30fdb82a7d71387575466d7c53d109aint),
{
    lemma_double(0x7fffffff800000007fffffffffffffffde737d56d38bcf424int,
        0xfabd6301de2bbfea5eb8ae119c15146be000574f647ccc4e7e96f6f7bbd2fc82int,
        0xa8eba4bfdf0b026453b36124015ed213d5e075b5d9be10da9c7cf8af39a655c6int,
        0xef2e267948d7d644b102ebbc70b1956d200f527e38572a59cc3d931e9978a42dint,
        0x42b5a3fb01f83b616464c5a0af0972a84c4454c06d801e4038cafb45bdb3c80int,
        0x85588c232e5b9a70bbfbf038ec0c83822abbc3bfe50551221d0ce3bc1c0a6884int);
    lemma_join(0xffffffff00000000ffffffffffffffffbce6faada7179e848int, 0x7int,
        0x42b5a3fb01f83b616464c5a0af0972a84c4454c06d801e4038cafb45bdb3c80int,
        0x85588c232e5b9a70bbfbf038ec0c83822abbc3bfe50551221d0ce3bc1c0a6884int,
        0x8e533b6fa0bf7b4625bb30667c01fb607ef9f8b8a80fef5b300628703187b2a3int,
        0x73eb1dbde03318366d069f83a6f5900053c73633cb041b21c55e1a86c1f400b4int,
        0xb04c0dfdcefc8907ae2538988af5f906d1be2fba368d71e37d3f415d035f88e9int,
        0xe445fe0772a9bb62ec4d4a0e611389ddb7f562d17ba8c64a6d2a49ebca3a150fint,
        0xc76b8713907723a30ec55a26d1e0d7f2fc2c3ea91cabbd934a62df73b66fd4a0int);
    lemma_double(0xffffffff00000000ffffffffffffffffbce6faada7179e84fint,
        0xe445fe0772a9bb62ec4d4a0e611389ddb7f562d17ba8c64a6d2a49ebca3a150fint,
        0xc76b8713907723a30ec55a26d1e0d7f2fc2c3ea91cabbd934a62df73b66fd4a0int,
        0xd8833940fe6bd86636ea00d04162f80381a184a21c5014203d4cf7987edfe17bint,
        0x726406f3191b90e2067edfa7fbe371dadc5616a1e2251a0e35d60d00ce93c745int,
        0x400558df93c1544d142709569d8f610f949549102daf452041500ff38ea2a934int);
    lemma_double(0x1fffffffe00000001ffffffffffffffff79cdf55b4e2f3d09eint,
        0x726406f3191b90e2067edfa7fbe371dadc5616a1e2251a0e35d60d00ce93c745int,
        0x400558df93c1544d142709569d8f610f949549102daf452041500ff38ea2a934int,
        0x34e0318ef4cceb053031caf723efabaa1bc24c69e63a9d8f8719e91cde261341int,
        0x308bd24b70ebae7b5497e8509dfd775ed6e5ec9a7f25e58e952bbff61805095dint,
        0x5169297ab4db0865457f832c4438bb3f31b7f6f3e297480c00bed89333d5186int);
    lemma_double(0x3fffffffc00000003fffffffffffffffef39beab69c5e7a13cint,
        0x308bd24b70ebae7b5497e8509dfd775ed6e5ec9a7f25e58e952bbff61805095dint,
        0x5169297ab4db0865457f832c4438bb3f31b7f6f3e297480c00bed89333d5186int,
        0x3a2cd2afbd4549342122c9254195397712e1af3e5627b560e348ddaa5e7d72fcint,
        0x34dcee33140c18e064dfd2d26bfd4dfe770aabb858b527da55020737702f9809int,
        0x93bad2d9e56be6a251f6ccbcacd0cbe997f92f90efac031f7732cdeac30f51f8int);
    lemma_double(0x7fffffff800000007fffffffffffffffde737d56d38bcf4278int,
        0x34dcee33140c18e064dfd2d26bfd4dfe770aabb858b527da55020737702f9809int,
        0x93bad2d9e56be6a251f6ccbcacd0cbe997f92f90efac031f7732cdeac30f51f8int,
        0x3a6b2691a24ae678755d189ef36bb58dfdb026e30bd19f13797dfd7179a3b256int,
        0x8d77532550c42d38835efed0f744bdef2c5368626eec8e63c671971ee96eac4cint,
        0xad5a4a4047936aaf21d58ceef337c6dde30fdb82a7d71387575466d7c53d109aint);
}

/// The next multiples of the generator.
proof fn lemma_multiples_40()
    requires
        small_multiples(),
        multiple_is(0xffffffff00000000ffffffffffffffffbce6faada7179e84f0int,
            0x8d77532550c42d38835efed0f744bdef2c5368626eec8e63c671971ee96eac4cint,
            0xad5a4a4047936aaf21d58ceef337c6dde30fdb82a7d71387575466d7c53d109aint),
    ensures
        multiple_is(0x1fffffffe00000001ffffffffffffffff79cdf55b4e2f3d09e70int,
            0xb447d1351e89f5bf8dffbe92a932b45abebe6e3ba3870ffce13c611d7e6c53e5int,
            0x6e7c5bce55ecff7d9d514466bd443a2408e2450b771ac13718985cb4c47e79e5int),
{
    lemma_double(0xffffffff00000000ffffffffffffffffbce6faada7179e84f0int,
        0x8d77532550c42d38835efed0f744bdef2c5368626eec8e63c671971ee96eac4cint,
        0xad5a4a4047936aaf21d58ceef337c6dde30fdb82a7d71387575466d7c53d109aint,
        0x3558599714db370696ea7bc059f970a5de7e0324f9ea6e80e255bb38278fb845int,
        0x4c851380c8d72bf6d4b424c38c518165a337c5218e35cddc7e4f2d97d0e854b2int,
        0x7454391454de9c1d5216848fe1c8dc51bd0f8ab26fa202ba5e892d7519d1fa44int);
    lemma_join(0x1fffffffe00000001ffffffffffffffff79cdf55b4e2f3d09e0int, 0x7int,
        0x4c851380c8d72bf6d4b424c38c518165a337c5218e35cddc7e4f2d97d0e854b2int,
        0x7454391454de9c1d5216848fe1c8dc51bd0f8ab26fa202ba5e892d7519d1fa44int,
        0x8e533b6fa0bf7b4625bb30667c01fb607ef9f8b8a80fef5b300628703187b2a3int,
        0x73eb1dbde03318366d069f83a6f5900053c73633cb041b21c55e1a86c1f400b4int,
        0x9ea6599f41d1c8a9fccf2d88c3c52ff2e8ea9b922c6b84ffcdc8ec3330df258eint,
        0xabc316472f10ae371a5b2f81f586338564833d01af9e2de9bcece8ffd3e38153int,
        0xc111e30c43766a9270466483c1f99692f8e424d0a6d1e0e45763e1805f7cb2b9int);
    lemma_double(0x1fffffffe00000001ffffffffffffffff79cdf55b4e2f3d09e7int,
        0xabc316472f10ae371a5b2f81f586338564833d01af9e2de9bcece8ffd3e38153int,
        0xc111e30c43766a9270466483c1f99692f8e424d0a6d1e0e45763e1805f7cb2b9int,
        0x6ad3ef0cc2adb4848acee7f765112db3320d3015d9fdd461d525103004f36882int,
        0x9803d8ee5ed835c24ed71ca415fc880f0991869b56998d7a30801278180c0dd7int,
        0x7f09fec9101891316572dbf6ddd66afb4bc6366169e6d27a127cb07fc965279bint);
    lemma_double(0x3fffffffc00000003fffffffffffffffef39beab69c5e7a13ceint,
        0x9803d8ee5ed835c24ed71ca415fc880f0991869b56998d7a30801278180c0dd7int,
        0x7f09fec9101891316572dbf6ddd66afb4bc6366169e6d27a127cb07fc965279bint,
        0xb8117ba4cabcbf56c5077417a86c3c354d303a799c2df5fbf25209e098c918e0int,
        0x34b37a63c571bdf8cb5010757621d93f90c64beaefae469f440191be05338180int,
        0x42508ae1ebcad6b14b1c26715f0df46bfbb16f47d50ec7c3acade5addc47e6a9int);
    lemma_double(0x7fffffff800000007fffffffffffffffde737d56d38bcf4279cint,
        0x34b37a63c571bdf8cb5010757621d93f90c64beaefae469f440191be05338180int,
        0x42508ae1ebcad6b14b1c26715f0df46bfbb16f47d50ec7c3acade5addc47e6a9int,
        0xacbb7b07fcbff86cdde842b6b037754d56133796b4bc79076d291f552991ff54int,
        0x6a9a2e3775c8badf5b9c93ea05bf3fbdff18328ba19a77e7abef3b17136e6a54int,
        0x763847eab56f588fb3b45c7d7f622442294e4ef4844b67e0c992bdf3c30f1ffbint);
    lemma_double(0xffffffff00000000ffffffffffffffffbce6faada7179e84f38int,
        0x6a9a2e3775c8badf5b9c93ea05bf3fbdff18328ba19a77e7abef3b17136e6a54int,
        0x763847eab56f588fb3b45c7d7f622442294e4ef4844b67e0c992bdf3c30f1ffbint,
        0x6569738accefdeb7160996e63a592206eaa0a2fa33bd2b561950f524421a906int,
        0xb447d1351e89f5bf8dffbe92a932b45abebe6e3ba3870ffce13c611d7e6c53e5int,
        0x6e7c5bce55ecff7d9d514466bd443a2408e2450b771ac13718985cb4c47e79e5int);
}

/// The next multiples of the generator.
proof fn lemma_multiples_41()
    requires
        small_multiples(),
        multiple_is(0x1fffffffe00000001ffffffffffffffff79cdf55b4e2f3d09e70int,
            0xb447d1351e89f5bf8dffbe92a932b45abebe6e3ba3870ffce13c611d7e6c53e5int,
            0x6e7c5bce55ecff7d9d514466bd443a2408e2450b771ac13718985cb4c47e79e5int),
    ensures
        multiple_is(0x3fffffffc00000003fffffffffffffffef39beab69c5e7a13cee0int,
            0xa88e70b7b351052687c1b42d606de49b2e8cb7cf369b6d0a7dd9619f96f7da3bint,
            0x5b0062844596f5a213d9094cc105d935286fb43c7ae5be82ec799a74617e9ca9int),
{
    lemma_join(0x1fffffffe00000001ffffffffffffffff79cdf55b4e2f3d09e70int, 0x7int,
        0xb447d1351e89f5bf8dffbe92a932b45abebe6e3ba3870ffce13c611d7e6c53e5int,
        0x6e7c5bce55ecff7d9d514466bd443a2408e2450b771ac13718985cb4c47e79e5int,
        0x8e533b6fa0bf7b4625bb30667c01fb607ef9f8b8a80fef5b300628703187b2a3int,
        0x73eb1dbde03318366d069f83a6f5900053c73633cb041b21c55e1a86c1f400b4int,
        0xb3aac044555b8dd72ad6c3061a55e5f3e68cf32383fa3d46833c44f6878a1dceint,
        0x51a4486aaa58693d09405b5da85795c94e3683415f79f8d5cb6aaaca0d12a53dint,
        0x19dd46dfd341597ddab4efec57de93c3b43a28aeca657b5e98bbe3e4e787079bint);
    lemma_double(0x1fffffffe00000001ffffffffffffffff79cdf55b4e2f3d09e77int,
        0x51a4486aaa58693d09405b5da85795c94e3683415f79f8d5cb6aaaca0d12a53dint,
        0x19dd46dfd341597ddab4efec57de93c3b43a28aeca657b5e98bbe3e4e787079bint,
        0x1e24e23be43ebbe98edbe61394c3a6ed01a7f4444ac3d5e4cce9f95f1f1b30dbint,
        0xce6b18d2c17e439af6fcf8a067f812269b1a0b2de9f09e754890769cbe0a0a7aint,
        0x3b40d3a7d1a736b358f84b46b5ea317a19dce734401b04c9ec6d51b5cc34144int);
    lemma_double(0x3fffffffc00000003fffffffffffffffef39beab69c5e7a13ceeint,
        0xce6b18d2c17e439af6fcf8a067f812269b1a0b2de9f09e754890769cbe0a0a7aint,
        0x3b40d3a7d1a736b358f84b46b5ea317a19dce734401b04c9ec6d51b5cc34144int,
        0xaf7b1bedf0c2915b1da8d0b4b2c1a7744f9b9aea67bf3dcd991f35c737a3050bint,
        0xe8ae31ddff32121fa277545d8a32d6564b9a4a7b9b806450de387cda1c0191caint,
        0xb0a491693cea43bd90c8c8b874d134fd7e9c748ff1dcaa1c927f961323cf4362int);
    lemma_double(0x7fffffff800000007fffffffffffffffde737d56d38bcf4279dcint,
        0xe8ae31ddff32121fa277545d8a32d6564b9a4a7b9b806450de387cda1c0191caint,
        0xb0a491693cea43bd90c8c8b874d134fd7e9c748ff1dcaa1c927f961323cf4362int,
        0xead75cf07542905a364f01948be976aef4a71f8ffd4aea0c6334a6b6a53b30deint,
        0xf3dad445bcb603c3873eca923bf6a87dc0a1fb98e2f59f2e38a580d38bef0090int,
        0x9a15044ca1a7ea6aa71d19bf39fa3f2c205b72aeb828c4b8c387a54fda43ce97int);
    lemma_double(0xffffffff00000000ffffffffffffffffbce6faada7179e84f3b8int,
        0xf3dad445bcb603c3873eca923bf6a87dc0a1fb98e2f59f2e38a580d38bef0090int,
        0x9a15044ca1a7ea6aa71d19bf39fa3f2c205b72aeb828c4b8c387a54fda43ce97int,
        0x978cb8e07dd87c56cc89fe8d74bcc0fa1a1f46c755cda9d4569a19a28ff87862int,
        0x17109359766b062541007b485ce14bb009fe2c2b329f8d06b36eabd4ca4ef883int,
        0x57c35146a1a4e5b4bb84e2cee2995ea163a1616914e0fa26ea0f1a6b650a43b4int);
    lemma_double(0x1fffffffe00000001ffffffffffffffff79cdf55b4e2f3d09e770int,
        0x17109359766b062541007b485ce14bb009fe2c2b329f8d06b36eabd4ca4ef883int,
        0x57c35146a1a4e5b4bb84e2cee2995ea163a1616914e0fa26ea0f1a6b650a43b4int,
        0x1c9935001242e2ad61b239ed72dc2d076f2fa950d1f28b2213af8e2be74bb31int,
        0xa88e70b7b351052687c1b42d606de49b2e8cb7cf369b6d0a7dd9619f96f7da3bint,
        0x5b0062844596f5a213d9094cc105d935286fb43c7ae5be82ec799a74617e9ca9int);
}

/// The next multiples of the generator.
proof fn lemma_multiples_42()
    requires
        small_multiples(),
        multiple_is(0x3fffffffc00000003fffffffffffffffef39beab69c5e7a13cee0int,
            0xa88e70b7b351052687c1b42d606de49b2e8cb7cf369b6d0a7dd9619f96f7da3bint,
            0x5b0062844596f5a213d9094cc105d935286fb43c7ae5be82ec799a74617e9ca9int),
    ensures
        multiple_is(0x7fffffff800000007fffffffffffffffde737d56d38bcf4279dce0int,
            0x2b504dbbc709031aa41586b2e6f2bf7f12d797f9941537397ea25c9213a9988aint,
            0xe1606d04d83e3f772c45dec815757e51496ae81a4c10a1b5c55ba02ca981e91aint),
{
    lemma_join(0x3fffffffc00000003fffffffffffffffef39beab69c5e7a13cee0int, 0x7int,
        0xa88e70b7b351052687c1b42d606de49b2e8cb7cf369b6d0a7dd9619f96f7da3bint,
        0x5b0062844596f5a213d9094cc105d935286fb43c7ae5be82ec799a74617e9ca9int,
        0x8e533b6fa0bf7b4625bb30667c01fb607ef9f8b8a80fef5b300628703187b2a3int,
        0x73eb1dbde03318366d069f83a6f5900053c73633cb041b21c55e1a86c1f400b4int,
        0x83a30d9650f6258d14eb617429dcf3df59a5c928376aa4424d673ad1d1f967e8int,
        0x431dddbe570449d1058ecfea6167426f8962f097056454199c2b610ac035ef13int,
        0x30f4414edd73140f985b14d04985d969dce47aaf6350f7842899fd547f0b1b2aint);
    lemma_double(0x3fffffffc00000003fffffffffffffffef39beab69c5e7a13cee7int,
        0x431dddbe570449d1058ecfea6167426f8962f097056454199c2b610ac035ef13int,
        0x30f4414edd73140f985b14d04985d969dce47aaf6350f7842899fd547f0b1b2aint,
        0xf99a98c677df5fa909f310e9c1e4d2e4d7661c86650dd382f74d78255dbb4d17int,
        0x1e76d8e54486984edfd37b8e38573d6d672861491a6a5e836a8fdb7dd8b84e77int,
        0x8e58390b3841a2f022fc8d72bfc6b16c7a7716d89ee4a5016ef9fabfbcf03263int);
    lemma_double(0x7fffffff800000007fffffffffffffffde737d56d38bcf4279dceint,
        0x1e76d8e54486984edfd37b8e38573d6d672861491a6a5e836a8fdb7dd8b84e77int,
        0x8e58390b3841a2f022fc8d72bfc6b16c7a7716d89ee4a5016ef9fabfbcf03263int,
        0x1f7bfca8004798e8724c6e51d327af0c8b9dcfced075624ea910059c69819217int,
        0xe3bfc7dbbe3725bed6c62e067258481af657c81974217ea2c81a46d55ae99036int,
        0x35ee06c5a15d51eb79304aff9eb59bfc8b3e77328e7b29f7ffc220e0f979023fint);
    lemma_double(0xffffffff00000000ffffffffffffffffbce6faada7179e84f3b9cint,
        0xe3bfc7dbbe3725bed6c62e067258481af657c81974217ea2c81a46d55ae99036int,
        0x35ee06c5a15d51eb79304aff9eb59bfc8b3e77328e7b29f7ffc220e0f979023fint,
        0xfbe3f876cad27ea18b7ed7d9a18e7277f5ece4c2b3a80b2926ec17398dbd740int,
        0xa2267936161d8c81c934696572792fe648a67c8521ea364d778c5a453cf4e56fint,
        0x23e95370a3e4dc0e125fefe652b31ce50afba8ad5dbc9992feeff1a67601e895int);
    lemma_double(0x1fffffffe00000001ffffffffffffffff79cdf55b4e2f3d09e7738int,
        0xa2267936161d8c81c934696572792fe648a67c8521ea364d778c5a453cf4e56fint,
        0x23e95370a3e4dc0e125fefe652b31ce50afba8ad5dbc9992feeff1a67601e895int,
        0xea3bd5815214ac62bdd641c3c5ee11d4ff41787f86b8dcc7c880b123e93da3deint,
        0x7fe52bb28d3a8526e753e9d1566618fe10188d20d123a4cbb11fad3209c98bc9int,
        0x1121b8dae100cb2672afb7d25ae9406f015028c8b2986f5a452ecdb876c7547eint);
    lemma_double(0x3fffffffc00000003fffffffffffffffef39beab69c5e7a13cee70int,
        0x7fe52bb28d3a8526e753e9d1566618fe10188d20d123a4cbb11fad3209c98bc9int,
        0x1121b8dae100cb2672afb7d25ae9406f015028c8b2986f5a452ecdb876c7547eint,
        0x9f3a8f3f362a9495837039eaab7f0190e4339bd6662d086ff4ef8a06a53792fdint,
        0x2b504dbbc709031aa41586b2e6f2bf7f12d797f9941537397ea25c9213a9988aint,
        0xe1606d04d83e3f772c45dec815757e51496ae81a4c10a1b5c55ba02ca981e91aint);
}

/// The next multiples of the generator.
proof fn lemma_multiples_43()
    requires
        small_multiples(),
        multiple_is(0x7fffffff800000007fffffffffffffffde737d56d38bcf4279dce0int,
            0x2b504dbbc709031aa41586b2e6f2bf7f12d797f9941537397ea25c9213a9988aint,
            0xe1606d04d83e3f772c45dec815757e51496ae81a4c10a1b5c55ba02ca981e91aint),
    ensures
        multiple_is(0x7fffffff800000007fffffffffffffffde737d56d38bcf4279dce56int,
            0xf17bf6f5500b620c23e94fba5feecafc8442c2dfabe40c92515648b46bf4e66cint,
            0x497d40eee3b88406b2f350ed2c97c119d8ebd34b9ca56fe9faa2be137623a1f8int),
{
    lemma_join(0x7fffffff800000007fffffffffffffffde737d56d38bcf4279dce0int, 0x5int,
        0x2b504dbbc709031aa41586b2e6f2bf7f12d797f9941537397ea25c9213a9988aint,
        0xe1606d04d83e3f772c45dec815757e51496ae81a4c10a1b5c55ba02ca981e91aint,
        0x51590b7a515140d2d784c85608668fdfef8c82fd1f5be52421554a0dc3d033edint,
        0xe0c17da8904a727d8ae1bf36bf8a79260d012f00d4d80888d1d0bb44fda16da4int,
        0x9ecc36b24158c0aee2bfea02460f53789e1443c6404892c3417afa8dbdee388cint,
        0x83d7f747ab111aacd283859f95ff7c9500a071a1b0a16877be9a622617ccbee6int,
        0xf9488c0d47131fbe65d78dd31476e8467fa5713291f345cd39fba645cea646e5int);
    lemma_double(0x7fffffff800000007fffffffffffffffde737d56d38bcf4279dce5int,
        0x83d7f747ab111aacd283859f95ff7c9500a071a1b0a16877be9a622617ccbee6int,
        0xf9488c0d47131fbe65d78dd31476e8467fa5713291f345cd39fba645cea646e5int,
        0x97a3ec5a23b71974a2f8008a754e8ad427b671bcafeb52e4ae600b263a1ee532int,
        0x7bbd0f608c7928bf0fcaefc40349a491bbbfa62ad9fea7d1fb69bc2b83913f96int,
        0xa52d30ebb0712bf2e77166efd35a552873e6142c9a9f41ff242bd9ddae0c5863int);
    lemma_double(0xffffffff00000000ffffffffffffffffbce6faada7179e84f3b9caint,
        0x7bbd0f608c7928bf0fcaefc40349a491bbbfa62ad9fea7d1fb69bc2b83913f96int,
        0xa52d30ebb0712bf2e77166efd35a552873e6142c9a9f41ff242bd9ddae0c5863int,
        0xb069de89a4981947b55927be9b4aecceec0662f6fb4fe3ed1955d75938caf41eint,
        0x51d2cf0b19a59a252034813faf40539d58554064e0e2feb0c21876dbe37d0dc5int,
        0xc14d62ee741f87cd8c0b0b162f945ff4e525fcfd4b63f3046d926c413fa1ad6aint);
    lemma_double(0x1fffffffe00000001ffffffffffffffff79cdf55b4e2f3d09e77394int,
        0x51d2cf0b19a59a252034813faf40539d58554064e0e2feb0c21876dbe37d0dc5int,
        0xc14d62ee741f87cd8c0b0b162f945ff4e525fcfd4b63f3046d926c413fa1ad6aint,
        0x1e8b253cfaf950f1825d9a1be4a3c1e12311491ebcb87a7e1f467f3b00a286eaint,
        0x427c9b74af5cb30863416908d2da0b27a65ce6c64aebff45af0d891f0d16c4fdint,
        0xcd2dd4c8c99f184bf9c089e4c3f966e0c8606412d5c1ec26100113df92159d94int);
    lemma_join(0x3fffffffc00000003fffffffffffffffef39beab69c5e7a13cee728int, 0x3int,
        0x427c9b74af5cb30863416908d2da0b27a65ce6c64aebff45af0d891f0d16c4fdint,
        0xcd2dd4c8c99f184bf9c089e4c3f966e0c8606412d5c1ec26100113df92159d94int,
        0x5ecbe4d1a6330a44c8f7ef951d4bf165e6c6b721efada985fb41661bc6e7fd6cint,
        0x8734640c4998ff7e374b06ce1a64a2ecd82ab036384fb83d9a79b127a27d5032int,
        0x457437d699bd0319386f311d3466d83f747b228fccebb41271859bccc11c6347int,
        0xbeb48221be1c41c5322bebf2c6928f2a950d160aa591eb3f325e65b92e5dc213int,
        0x5f93f59d4eba656a9b1211971e3cb0305fafaddf25571b636628dc4af4028f7dint);
    lemma_double(0x3fffffffc00000003fffffffffffffffef39beab69c5e7a13cee72bint,
        0xbeb48221be1c41c5322bebf2c6928f2a950d160aa591eb3f325e65b92e5dc213int,
        0x5f93f59d4eba656a9b1211971e3cb0305fafaddf25571b636628dc4af4028f7dint,
        0xd179f413ae3bfd5ab16b4fa72c59c7cff3de907e09f0fe2e6784aa84fdd8df5bint,
        0xf17bf6f5500b620c23e94fba5feecafc8442c2dfabe40c92515648b46bf4e66cint,
        0x497d40eee3b88406b2f350ed2c97c119d8ebd34b9ca56fe9faa2be137623a1f8int);
}

/// The next multiples of the generator.
proof fn lemma_multiples_44()
    requires
        small_multiples(),
        multiple_is(0x7fffffff800000007fffffffffffffffde737d56d38bcf4279dce56int,
            0xf17bf6f5500b620c23e94fba5feecafc8442c2dfabe40c92515648b46bf4e66cint,
            0x497d40eee3b88406b2f350ed2c97c119d8ebd34b9ca56fe9faa2be137623a1f8int),
    ensures
        multiple_is(0x1fffffffe00000001ffffffffffffffff79cdf55b4e2f3d09e7739580int,
            0xe0fb4948ace127702c81721947299854b41a1372c900c73857f386e94a5390faint,
            0xe204ae528426dd3a51cf63a53a7f95de00439f9380215d6ed14ccd0febd64a55int),
{
    lemma_double(0x7fffffff800000007fffffffffffffffde737d56d38bcf4279dce56int,
        0xf17bf6f5500b620c23e94fba5feecafc8442c2dfabe40c92515648b46bf4e66cint,
        0x497d40eee3b88406b2f350ed2c97c119d8ebd34b9ca56fe9faa2be137623a1f8int,
        0xf3651f1948b6da881c2419f75d7cf4b68afc8df485801ac4b19c7755233c6f0cint,
        0xc36ee91ed515d43ab989458074f83c4f91e3167749b3b858f28e6386ebb672b6int,
        0xeb42b1f6eafb4bce7b4aef5df403dd994af5b51f8338c8b7ef51de2e4aee45edint);
    lemma_double(0xffffffff00000000ffffffffffffffffbce6faada7179e84f3b9cacint,
        0xc36ee91ed515d43ab989458074f83c4f91e3167749b3b858f28e6386ebb672b6int,
        0xeb42b1f6eafb4bce7b4aef5df403dd994af5b51f8338c8b7ef51de2e4aee45edint,
        0xbe23251d063af957b0c233d8caaad3245a71d35cee8041a4da77eb003fc49840int,
        0xb7683bb7439a44eec834adcc611fc91901a661c6acd117df993aeb88c3787051int,
        0xd17ee89fae871fec983a3d29587df306d5ba8ecfcd14fb14419916f2ca4a5496int);
    lemma_double(0x1fffffffe00000001ffffffffffffffff79cdf55b4e2f3d09e773958int,
        0xb7683bb7439a44eec834adcc611fc91901a661c6acd117df993aeb88c3787051int,
        0xd17ee89fae871fec983a3d29587df306d5ba8ecfcd14fb14419916f2ca4a5496int,
        0xd6773521eb6e218ad74d5d85cc0a9a6f3f123dbe6a34ec9433b8a7639848538dint,
        0x489896a1a073a10592fd7ccfa50b56234877908cef8eaef03490f1f1951a76cdint,
        0x52224b5cf59820e1e009d42b38c0ad2d16fc29c8bec8f9ec135c00bdc44bd1f8int);
    lemma_double(0x3fffffffc00000003fffffffffffffffef39beab69c5e7a13cee72b0int,
        0x489896a1a073a10592fd7ccfa50b56234877908cef8eaef03490f1f1951a76cdint,
        0x52224b5cf59820e1e009d42b38c0ad2d16fc29c8bec8f9ec135c00bdc44bd1f8int,
        0xc226bfbf1244da56d3dea59525961a1c5d7418bd2bf0657a343a360c1befd5fint,
        0x5eaa82cbb038bd4d76d695ff41ebf27f7d1f3d66b9d4e8afa6ada65080001ed2int,
        0x2af0b52404a10f51388fd1d652663bc4af3262ad8a903167065a90a8b18b6d0aint);
    lemma_double(0x7fffffff800000007fffffffffffffffde737d56d38bcf4279dce560int,
        0x5eaa82cbb038bd4d76d695ff41ebf27f7d1f3d66b9d4e8afa6ada65080001ed2int,
        0x2af0b52404a10f51388fd1d652663bc4af3262ad8a903167065a90a8b18b6d0aint,
        0xea30a681eb3db7191830e6b024dfecb258084f4748962ce8872c056b725175baint,
        0x12bb43b9ab7cc2dfee8ed0cd3e46225b83f05b2a9d3d8c89bc894971480ef009int,
        0xd2c24bc33d0ece46032a8c16751bf2aa5292cc492ee2f0743a5df3abafd2e2a2int);
    lemma_double(0xffffffff00000000ffffffffffffffffbce6faada7179e84f3b9cac0int,
        0x12bb43b9ab7cc2dfee8ed0cd3e46225b83f05b2a9d3d8c89bc894971480ef009int,
        0xd2c24bc33d0ece46032a8c16751bf2aa5292cc492ee2f0743a5df3abafd2e2a2int,
        0x1fa23c12f7f489104fd28394d71dfd3e52e79c226f047a8e036050030f87100cint,
        0xe0fb4948ace127702c81721947299854b41a1372c900c73857f386e94a5390faint,
        0xe204ae528426dd3a51cf63a53a7f95de00439f9380215d6ed14ccd0febd64a55int);
}

/// The next multiples of the generator.
proof fn lemma_multiples_45()
    requires
        small_multiples(),
        multiple_is(0x1fffffffe00000001ffffffffffffffff79cdf55b4e2f3d09e7739580int,
            0xe0fb4948ace127702c81721947299854b41a1372c900c73857f386e94a5390faint,
            0xe204ae528426dd3a51cf63a53a7f95de00439f9380215d6ed14ccd0febd64a55int),
    ensures
        multiple_is(0x3fffffffc00000003fffffffffffffffef39beab69c5e7a13cee72b0b0int,
            0xe4663d5e08628b954f39a7253254d7cb728276141a8293d53296c18ff48ae9a9int,
            0xb35b62caecbd25bf61f42c9ad05064c906736eb284a76a7e49b88296f0a2b830int),
{
    lemma_double(0x1fffffffe00000001ffffffffffffffff79cdf55b4e2f3d09e7739580int,
        0xe0fb4948ace127702c81721947299854b41a1372c900c73857f386e94a5390faint,
        0xe204ae528426dd3a51cf63a53a7f95de00439f9380215d6ed14ccd0febd64a55int,
        0x3e65babdf742db1543fd1d74953b20323e296a4e9382d73bc6727da54e17d646int,
        0x41bb3ac398b6a41cad96690e8c8c9af556ab0376d68cf61b058b6dd55f4d0aceint,
        0x45a6e44848ff1314294565b2f55c6fb97446e338b244ff312bcffccbfb271fb0int);
    lemma_join(0x3fffffffc00000003fffffffffffffffef39beab69c5e7a13cee72b00int, 0xbint,
        0x41bb3ac398b6a41cad96690e8c8c9af556ab0376d68cf61b058b6dd55f4d0aceint,
        0x45a6e44848ff1314294565b2f55c6fb97446e338b244ff312bcffccbfb271fb0int,
        0x3ed113b7883b4c590638379db0c21cda16742ed0255048bf433391d374bc21d1int,
        0x9099209accc4c8a224c843afa4f4c68a090d04da5e9889dae2f8eefce82a3740int,
        0x1312cac5f28b33e2985bc82b0b56e1a5aa162421c2600013b3fd0ab46de86a69int,
        0xb138c5f3c8ced28773b1429aafe90f14ef0e441cb8f809fa0267d9a71ce7bf32int,
        0x4bf010b48f0084f59ae5a04adcf69bb737c4b153926c0d87e4f14d54c5dca36cint);
    lemma_double(0x3fffffffc00000003fffffffffffffffef39beab69c5e7a13cee72b0bint,
        0xb138c5f3c8ced28773b1429aafe90f14ef0e441cb8f809fa0267d9a71ce7bf32int,
        0x4bf010b48f0084f59ae5a04adcf69bb737c4b153926c0d87e4f14d54c5dca36cint,
        0x5a9f1ba5969ef050801ccb05b8cac7546bca3397533e42c3a50b5fb7d02df229int,
        0x6a79213e0b742ce14414bc694efbbcc9e120e09ea05f87d40712ce9b38d5053dint,
        0x3a89743e1023a857bb2beba9c1e5a15fe969d05f427e59087cc22a501821ef99int);
    lemma_double(0x7fffffff800000007fffffffffffffffde737d56d38bcf4279dce5616int,
        0x6a79213e0b742ce14414bc694efbbcc9e120e09ea05f87d40712ce9b38d5053dint,
        0x3a89743e1023a857bb2beba9c1e5a15fe969d05f427e59087cc22a501821ef99int,
        0xcdc19dc82eb10b2155835c8235fe531821923f97c8fc43a964ba8609194a54aeint,
        0xac7368779f65324e4a6f343357dd2360ab3aaf63cb70a8a538850563efad0fe3int,
        0x2d5e74bb15dfb99f0457e7eb90602dd9d6d8927aa5da49d548563f25fe76f07bint);
    lemma_double(0xffffffff00000000ffffffffffffffffbce6faada7179e84f3b9cac2cint,
        0xac7368779f65324e4a6f343357dd2360ab3aaf63cb70a8a538850563efad0fe3int,
        0x2d5e74bb15dfb99f0457e7eb90602dd9d6d8927aa5da49d548563f25fe76f07bint,
        0xb033ce6598ab83a88dc9760121a06e42dd68ee9f47134a9901dae0f2177874ebint,
        0xdc987e1b9e7b5dbcf01f9f64d7a8ff32423ce48416711a5d2d6c36e5fb4a3c11int,
        0xc1f28fe87a275f30491551f38d85c1a902937947282632d3f26582f5ca065d0fint);
    lemma_double(0x1fffffffe00000001ffffffffffffffff79cdf55b4e2f3d09e77395858int,
        0xdc987e1b9e7b5dbcf01f9f64d7a8ff32423ce48416711a5d2d6c36e5fb4a3c11int,
        0xc1f28fe87a275f30491551f38d85c1a902937947282632d3f26582f5ca065d0fint,
        0xd42903aaed3848ef172b085c3f14709f205f0971bdef7ddb72664202390a4dabint,
        0xe4663d5e08628b954f39a7253254d7cb728276141a8293d53296c18ff48ae9a9int,
        0xb35b62caecbd25bf61f42c9ad05064c906736eb284a76a7e49b88296f0a2b830int);
}

/// The next multiples of the generator.
proof fn lemma_multiples_46()
    requires
        small_multiples(),
        multiple_is(0x3fffffffc00000003fffffffffffffffef39beab69c5e7a13cee72b0b0int,
            0xe4663d5e08628b954f39a7253254d7cb728276141a8293d53296c18ff48ae9a9int,
            0xb35b62caecbd25bf61f42c9ad05064c906736eb284a76a7e49b88296f0a2b830int),
    ensures
        multiple_is(0x7fffffff800000007fffffffffffffffde737d56d38bcf4279dce5617e0int,
            0xd8cdc77ea95ab2291b51badd5fa6219c7f248a94631a055fdf7a7ed7c2cd0617int,
            0xc87cf8e268c5a7f38979faab9a686971e558789e47e329a04e879d8b567128beint),
{
    lemma_join(0x3fffffffc00000003fffffffffffffffef39beab69c5e7a13cee72b0b0int, 0xfint,
        0xe4663d5e08628b954f39a7253254d7cb728276141a8293d53296c18ff48ae9a9int,
        0xb35b62caecbd25bf61f42c9ad05064c906736eb284a76a7e49b88296f0a2b830int,
        0xf0454dc6971abae7adfb378999888265ae03af92de3a0ef163668c63e59b9d5fint,
        0xb5b93ee3592e2d1f4e6594e51f9643e62a3b21ce75b5fa3f47e59cde0d034f36int,
        0xb7ab0f2a35236db144b494c2faadd556301529c2d38bce2d3c87178e1c359116int,
        0x5e05ef125fc5f7bf984f64c26ed21f5629355a5038ecf67cc1b0a68265931e04int,
        0x98a5a96d6a7ac9e943cb907aeba641317c1214144c690a5d2eb682d50fe9b3daint);
    lemma_double(0x3fffffffc00000003fffffffffffffffef39beab69c5e7a13cee72b0bfint,
        0x5e05ef125fc5f7bf984f64c26ed21f5629355a5038ecf67cc1b0a68265931e04int,
        0x98a5a96d6a7ac9e943cb907aeba641317c1214144c690a5d2eb682d50fe9b3daint,
        0xe04398830685690df5e208459a98defd8832b5196e2be0b8df82c16c77f7f5int,
        0x8e28605c6c1bcebff5c6b01155d9c0cc20d5c9e43471bb573bb66197cbe30dadint,
        0x1c1fe69fcae7f266731eeb4d3c55b4414c8f701b0a8f8f1a82e62906208fe9bbint);
    lemma_double(0x7fffffff800000007fffffffffffffffde737d56d38bcf4279dce5617eint,
        0x8e28605c6c1bcebff5c6b01155d9c0cc20d5c9e43471bb573bb66197cbe30dadint,
        0x1c1fe69fcae7f266731eeb4d3c55b4414c8f701b0a8f8f1a82e62906208fe9bbint,
        0xfcd96ffebeb7a47ee4590684b7c9a2e0b8fa03beabd83654d7d76cdbbcd60335int,
        0xf49a46909cc3c3ae5f0e0e4175f697b4a1329f91ef877055bd355de11d80cd19int,
        0x8dbbca34791cf88ce183167846fd2483d0e1a00d08a2297ec22a39c9f20f6e1aint);
    lemma_double(0xffffffff00000000ffffffffffffffffbce6faada7179e84f3b9cac2fcint,
        0xf49a46909cc3c3ae5f0e0e4175f697b4a1329f91ef877055bd355de11d80cd19int,
        0x8dbbca34791cf88ce183167846fd2483d0e1a00d08a2297ec22a39c9f20f6e1aint,
        0xa740a7573695f572d3c174ed4560cbd69eee3a8e77be3734bca252c05a6933a0int,
        0x5b7ae21390e06e5b56426232ef256ed7a045afced3129cbc97b48e5218d6851cint,
        0x6af7384ce28c73a8fb684e06a357b16f357d446649625cb70ce4ac07fe23c695int);
    lemma_double(0x1fffffffe00000001ffffffffffffffff79cdf55b4e2f3d09e7739585f8int,
        0x5b7ae21390e06e5b56426232ef256ed7a045afced3129cbc97b48e5218d6851cint,
        0x6af7384ce28c73a8fb684e06a357b16f357d446649625cb70ce4ac07fe23c695int,
        0x4c10a29d61779fcc20538fe766b7ba167322dbfe669dcbe6fed8df39242193b6int,
        0x8759d217f6435f047ae53c5b69064e5625ab65aef1dfe53297e1d06bdc6293a7int,
        0x1a4f9f8d6d125f3e68636f6197f317d835ad3472d85a3b5b1f30917c4cec7130int);
    lemma_double(0x3fffffffc00000003fffffffffffffffef39beab69c5e7a13cee72b0bf0int,
        0x8759d217f6435f047ae53c5b69064e5625ab65aef1dfe53297e1d06bdc6293a7int,
        0x1a4f9f8d6d125f3e68636f6197f317d835ad3472d85a3b5b1f30917c4cec7130int,
        0x600f9edbd10d66828a7b5b61845900b2176abcaf2446c42ae814cd26313db489int,
        0xd8cdc77ea95ab2291b51badd5fa6219c7f248a94631a055fdf7a7ed7c2cd0617int,
        0xc87cf8e268c5a7f38979faab9a686971e558789e47e329a04e879d8b567128beint);
}

/// The next multiples of the generator.
proof fn lemma_multiples_47()
    requires
        small_multiples(),
        multiple_is(0x7fffffff800000007fffffffffffffffde737d56d38bcf4279dce5617e0int,
            0xd8cdc77ea95ab2291b51badd5fa6219c7f248a94631a055fdf7a7ed7c2cd0617int,
            0xc87cf8e268c5a7f38979faab9a686971e558789e47e329a04e879d8b567128beint),
    ensures
        multiple_is(0xffffffff00000000ffffffffffffffffbce6faada7179e84f3b9cac2fc60int,
            0xb55a21a1e03a2f0a9b070978a7b655ae43fbaeb52a76ce53a44cea8555ac2958int,
            0x1466078abd02d5c45bdd45490e7a9b1300082a56ba1afaf7bbfad9e91af65c2int),
{
    lemma_join(0x7fffffff800000007fffffffffffffffde737d56d38bcf4279dce5617e0int, 0x3int,
        0xd8cdc77ea95ab2291b51badd5fa6219c7f248a94631a055fdf7a7ed7c2cd0617int,
        0xc87cf8e268c5a7f38979faab9a686971e558789e47e329a04e879d8b567128beint,
        0x5ecbe4d1a6330a44c8f7ef951d4bf165e6c6b721efada985fb41661bc6e7fd6cint,
        0x8734640c4998ff7e374b06ce1a64a2ecd82ab036384fb83d9a79b127a27d5032int,
        0x4d7c500039a977386ff5124974d9441977a535400d027d3d012aa0043ae909d0int,
        0x515a5c2b5c8be7dd4cbd739261d6551620e1d6b8b12b1e32bc2a7f2b16a8d329int,
        0xb73a18f19aae7e9a27c8b0783d5702c6dadd9bbc232c0138374a81b86d86a19fint);
    lemma_double(0x7fffffff800000007fffffffffffffffde737d56d38bcf4279dce5617e3int,
        0x515a5c2b5c8be7dd4cbd739261d6551620e1d6b8b12b1e32bc2a7f2b16a8d329int,
        0xb73a18f19aae7e9a27c8b0783d5702c6dadd9bbc232c0138374a81b86d86a19fint,
        0x9c82adc5593be14823416d07f9f833db891a9f58ca31315a0dca08778edd591cint,
        0x6fa0471754ef6e621119de5772c488c48a4b0d83f2cf1d66526fd06568bf77d4int,
        0x8145b5a6507bae52b1f9061e581e48ad0b0cf420d1b4b0b6636acdc60fe84454int);
    lemma_double(0xffffffff00000000ffffffffffffffffbce6faada7179e84f3b9cac2fc6int,
        0x6fa0471754ef6e621119de5772c488c48a4b0d83f2cf1d66526fd06568bf77d4int,
        0x8145b5a6507bae52b1f9061e581e48ad0b0cf420d1b4b0b6636acdc60fe84454int,
        0xff5fa2b8eaa15963bcf8f4d08ad28483801b21e4ab054838b84b2c1b7eec2911int,
        0xf68849425560ec635f6a997addf82e863b6ef2571c9b9270b636ebfb60179f22int,
        0x89bd903d03f97e4d9a173a09490b3e7640efd324e922d1bb29fbb671f0cb7a30int);
    lemma_double(0x1fffffffe00000001ffffffffffffffff79cdf55b4e2f3d09e7739585f8cint,
        0xf68849425560ec635f6a997addf82e863b6ef2571c9b9270b636ebfb60179f22int,
        0x89bd903d03f97e4d9a173a09490b3e7640efd324e922d1bb29fbb671f0cb7a30int,
        0x32057cfec2c8b40d8810f0fd0f1bc108f4d4bf6fbc21b9a5e7e521a26d065898int,
        0x5686115eae4ef47d7aab8ccc1d212187fd9f23d1fd328b227531f0d869eda59cint,
        0x810ebd4885a8653d3c2339e30a8e6692ab6d97760d344905c41231c32b9b2a0cint);
    lemma_double(0x3fffffffc00000003fffffffffffffffef39beab69c5e7a13cee72b0bf18int,
        0x5686115eae4ef47d7aab8ccc1d212187fd9f23d1fd328b227531f0d869eda59cint,
        0x810ebd4885a8653d3c2339e30a8e6692ab6d97760d344905c41231c32b9b2a0cint,
        0xab2d3277a3919fb090c5b011b0174c465bd9e87f95553f4ad7734df531758636int,
        0x400a1425e0a163db3f99bfa5fe9264af4fe47167a50a7b479a32d4e5ad7fa51fint,
        0x929355a79f1298075e0e3370207fbb9abbd8c4c20e0d71e644833ea4e75af6a6int);
    lemma_double(0x7fffffff800000007fffffffffffffffde737d56d38bcf4279dce5617e30int,
        0x400a1425e0a163db3f99bfa5fe9264af4fe47167a50a7b479a32d4e5ad7fa51fint,
        0x929355a79f1298075e0e3370207fbb9abbd8c4c20e0d71e644833ea4e75af6a6int,
        0xd299815f73c67c9dbe0d852cc95c113c9bdec24feee4972ab046c6be0409c1a5int,
        0xb55a21a1e03a2f0a9b070978a7b655ae43fbaeb52a76ce53a44cea8555ac2958int,
        0x1466078abd02d5c45bdd45490e7a9b1300082a56ba1afaf7bbfad9e91af65c2int);
}

/// The next multiples of the generator.
proof fn lemma_multiples_48()
    requires
        small_multiples(),
        multiple_is(0xffffffff00000000ffffffffffffffffbce6faada7179e84f3b9cac2fc60int,
            0xb55a21a1e03a2f0a9b070978a7b655ae43fbaeb52a76ce53a44cea8555ac2958int,
            0x1466078abd02d5c45bdd45490e7a9b1300082a56ba1afaf7bbfad9e91af65c2int),
    ensures
        multiple_is(0x1fffffffe00000001ffffffffffffffff79cdf55b4e2f3d09e7739585f8c60int,
            0xfc7b4e12ac8e26fdd07cca8b1315dc1686117e2e736713a467ecf7e274d7f67eint,
            0x6d7c2d96eeb265a1fa203bc1903d956666465dd2cc3ce7600fe4cd87d70f4180int),
{
    lemma_join(0xffffffff00000000ffffffffffffffffbce6faada7179e84f3b9cac2fc60int, 0x3int,
        0xb55a21a1e03a2f0a9b070978a7b655ae43fbaeb52a76ce53a44cea8555ac2958int,
        0x1466078abd02d5c45bdd45490e7a9b1300082a56ba1afaf7bbfad9e91af65c2int,
        0x5ecbe4d1a6330a44c8f7ef951d4bf165e6c6b721efada985fb41661bc6e7fd6cint,
        0x8734640c4998ff7e374b06ce1a64a2ecd82ab036384fb83d9a79b127a27d5032int,
        0xafb2a11bb61caaa91c68b19924a6f77a22545c4a917c2e50e853864410fabfdaint,
        0xb17e6bfed71f7f05e67541467d5e204f4b7661f3bd38ef80bbd444e18580c3a4int,
        0xbd586b987422eb9d9a8d2cbb5b0c59d45181fdc306289cf22ae9bbb57a11b0c9int);
    lemma_double(0xffffffff00000000ffffffffffffffffbce6faada7179e84f3b9cac2fc63int,
        0xb17e6bfed71f7f05e67541467d5e204f4b7661f3bd38ef80bbd444e18580c3a4int,
        0xbd586b987422eb9d9a8d2cbb5b0c59d45181fdc306289cf22ae9bbb57a11b0c9int,
        0x4439830783f364ff8326337036fd5b26868085c15009f456a82a1b0880ff7d67int,
        0x39ab958349697ab9f282dc26f0393ac0d35dc8fcfb59cf2e51bd8abd7446cc97int,
        0x8695cea513ae14ba940a4a4c21ed6ba5abd6f553af0bb38b0977265386e375adint);
    lemma_double(0x1fffffffe00000001ffffffffffffffff79cdf55b4e2f3d09e7739585f8c6int,
        0x39ab958349697ab9f282dc26f0393ac0d35dc8fcfb59cf2e51bd8abd7446cc97int,
        0x8695cea513ae14ba940a4a4c21ed6ba5abd6f553af0bb38b0977265386e375adint,
        0x2f41d190d91e77680712007969891e3ca1deeeaa9415496a1d4e302a4df1e551int,
        0x2ff9fd617c484d71768ef596387a74946231ded854ce0c17fa9f136403a53afbint,
        0xa0df35776489c430d028bcbf4df46e55894056910c81d6f03eb8c7e9fd19b663int);
    lemma_double(0x3fffffffc00000003fffffffffffffffef39beab69c5e7a13cee72b0bf18cint,
        0x2ff9fd617c484d71768ef596387a74946231ded854ce0c17fa9f136403a53afbint,
        0xa0df35776489c430d028bcbf4df46e55894056910c81d6f03eb8c7e9fd19b663int,
        0xe60a0cb18c966612d38cc039609f7ff3a2de07efeaf428b0a465c13b23621739int,
        0x547afdf3299ed7a0ac6898a1328e9cb4a8fadd5eb0e8316d1f958d1cd1ad2f22int,
        0x679d3ace3732e0d3b712c53df0cfd443a95160889165ef5d6d21e7c2909ca7ebint);
    lemma_double(0x7fffffff800000007fffffffffffffffde737d56d38bcf4279dce5617e318int,
        0x547afdf3299ed7a0ac6898a1328e9cb4a8fadd5eb0e8316d1f958d1cd1ad2f22int,
        0x679d3ace3732e0d3b712c53df0cfd443a95160889165ef5d6d21e7c2909ca7ebint,
        0x35ca18cd2cf4b17e8e2936c8dacad42209864d0c3605453612e1750a4cb88ecbint,
        0xec0d6cefef709ae43068258c12487ac86a5598abf65826f0b9f7deac5e7248b8int,
        0x144d9c22819e44660850c4f05a108c0bb7e743114cac03f3d84dc641697a8f2cint);
    lemma_double(0xffffffff00000000ffffffffffffffffbce6faada7179e84f3b9cac2fc630int,
        0xec0d6cefef709ae43068258c12487ac86a5598abf65826f0b9f7deac5e7248b8int,
        0x144d9c22819e44660850c4f05a108c0bb7e743114cac03f3d84dc641697a8f2cint,
        0xe02c83a19b5d26d223a51e3ca9c74e4b934c8fa28e0aeeafe54504ffee2bbac7int,
        0xfc7b4e12ac8e26fdd07cca8b1315dc1686117e2e736713a467ecf7e274d7f67eint,
        0x6d7c2d96eeb265a1fa203bc1903d956666465dd2cc3ce7600fe4cd87d70f4180int);
}

/// The next multiples of the generator.
proof fn lemma_multiples_49()
    requires
        small_multiples(),
        multiple_is(0x1fffffffe00000001ffffffffffffffff79cdf55b4e2f3d09e7739585f8c60int,
            0xfc7b4e12ac8e26fdd07cca8b1315dc1686117e2e736713a467ecf7e274d7f67eint,
            0x6d7c2d96eeb265a1fa203bc1903d956666465dd2cc3ce7600fe4cd87d70f4180int),
    ensures
        multiple_is(0x3fffffffc00000003fffffffffffffffef39beab69c5e7a13cee72b0bf18c90int,
            0x3e599168c43c46ae2fed5767f7f0e58bbeebb50af8123d58c8828a047f5f8ae1int,
            0x85bd5619539817343eab45b8e13e0ca8377d37d9299204d679ec11bf0149cd0int),
{
    lemma_double(0x1fffffffe00000001ffffffffffffffff79cdf55b4e2f3d09e7739585f8c60int,
        0xfc7b4e12ac8e26fdd07cca8b1315dc1686117e2e736713a467ecf7e274d7f67eint,
        0x6d7c2d96eeb265a1fa203bc1903d956666465dd2cc3ce7600fe4cd87d70f4180int,
        0xa1d3525f61eb1730002a03eb42fe6da8a75ffa55e7920e5f18fd5b1018aaf33fint,
        0x1ee8e5e21cfc342869edbddf827cf330449d82cd7e2a4f6de9c6ff038ac0f977int,
        0x4ac99efb3e7c8a80cd4d759cd43158fff0561d5d24163a5e93e8cea86dfd1e3dint);
    lemma_join(0x3fffffffc00000003fffffffffffffffef39beab69c5e7a13cee72b0bf18c0int, 0x9int,
        0x1ee8e5e21cfc342869edbddf827cf330449d82cd7e2a4f6de9c6ff038ac0f977int,
        0x4ac99efb3e7c8a80cd4d759cd43158fff0561d5d24163a5e93e8cea86dfd1e3dint,
        0xea68d7b6fedf0b71878938d51d71f8729e0acb8c2c6df8b3d79e8a4b90949ee0int,
        0x2a2744c972c9fce787014a964a8ea0c84d714feaa4de823fe85a224a4dd048faint,
        0x10863973a1a3a9a3d9bf6fc09aacc296f575c42b33b6dee10c95ffa0c0e71e05int,
        0x100cc5db446f83f8b506e69c7ccf1023d624d9b01cce5d610bd6ae6d0b11e615int,
        0x39652210041b0ed6ff8c4e944c72adef086e8e3a90cc3d91d9b98e6c63f9200aint);
    lemma_double(0x3fffffffc00000003fffffffffffffffef39beab69c5e7a13cee72b0bf18c9int,
        0x100cc5db446f83f8b506e69c7ccf1023d624d9b01cce5d610bd6ae6d0b11e615int,
        0x39652210041b0ed6ff8c4e944c72adef086e8e3a90cc3d91d9b98e6c63f9200aint,
        0x3d46e9ef5aed4aa9fea6810de4d5e822316732bcbdfbff222b7ea641d0f4c236int,
        0x897b2e8a15224a834ed3055d1fb73dc1456b55e4c81f6a272a221932e30a3c69int,
        0xc672d5fa0f1c427c70590789afcfc04bea0e0ad7264f681fa4d59bd0f2ee7793int);
    lemma_double(0x7fffffff800000007fffffffffffffffde737d56d38bcf4279dce5617e3192int,
        0x897b2e8a15224a834ed3055d1fb73dc1456b55e4c81f6a272a221932e30a3c69int,
        0xc672d5fa0f1c427c70590789afcfc04bea0e0ad7264f681fa4d59bd0f2ee7793int,
        0x2d45701fda7e3d7f4ecb15fd4fefebe30788a1a6861a4f6ca1431cd8c329e135int,
        0x6fedd00ca92b1fee729065e07e3045956e800dbe44934b24dda8d83d29752b79int,
        0xa3d3d10efa2d60ae0dc4345115bdad6fe27826ff3d7592fa19175f5d99edfb18int);
    lemma_double(0xffffffff00000000ffffffffffffffffbce6faada7179e84f3b9cac2fc6324int,
        0x6fedd00ca92b1fee729065e07e3045956e800dbe44934b24dda8d83d29752b79int,
        0xa3d3d10efa2d60ae0dc4345115bdad6fe27826ff3d7592fa19175f5d99edfb18int,
        0xf1deca311239017a17be9a516e9bd72380eea972043730d8b8d551ea4553ba94int,
        0x1c5f6bb0c98662883c81ae2904ff0036698bfd2576a73852d162de5080092debint,
        0xb554f9781a1c60c24ce383ec5f8f194bd8875736a212c27768967a35e5e766aaint);
    lemma_double(0x1fffffffe00000001ffffffffffffffff79cdf55b4e2f3d09e7739585f8c648int,
        0x1c5f6bb0c98662883c81ae2904ff0036698bfd2576a73852d162de5080092debint,
        0xb554f9781a1c60c24ce383ec5f8f194bd8875736a212c27768967a35e5e766aaint,
        0x25e292e0b60e5d1807335b8e243d630ec2dedbb7fbf1d12d5e899d0edac66e4cint,
        0x3e599168c43c46ae2fed5767f7f0e58bbeebb50af8123d58c8828a047f5f8ae1int,
        0x85bd5619539817343eab45b8e13e0ca8377d37d9299204d679ec11bf0149cd0int);
}

/// The next multiples of the generator.
proof fn lemma_multiples_50()
    requires
        small_multiples(),
        multiple_is(0x3fffffffc00000003fffffffffffffffef39beab69c5e7a13cee72b0bf18c90int,
            0x3e599168c43c46ae2fed5767f7f0e58bbeebb50af8123d58c8828a047f5f8ae1int,
            0x85bd5619539817343eab45b8e13e0ca8377d37d9299204d679ec11bf0149cd0int),
    ensures
        multiple_is(0x3fffffffc00000003fffffffffffffffef39beab69c5e7a13cee72b0bf18c954int,
            0x7469a88fab79ae982fa880b0b940b96c6108eaec0473e2f530a861fa608f682int,
            0xb6bf06c0f458180962cb09c94552fecea039e0575b739e4213c698318a66f8f1int),
{
    lemma_join(0x3fffffffc00000003fffffffffffffffef39beab69c5e7a13cee72b0bf18c90int, 0x5int,
        0x3e599168c43c46ae2fed5767f7f0e58bbeebb50af8123d58c8828a047f5f8ae1int,
        0x85bd5619539817343eab45b8e13e0ca8377d37d9299204d679ec11bf0149cd0int,
        0x51590b7a515140d2d784c85608668fdfef8c82fd1f5be52421554a0dc3d033edint,
        0xe0c17da8904a727d8ae1bf36bf8a79260d012f00d4d80888d1d0bb44fda16da4int,
        0xabc3f2e03f292c35379e52c49d99daeb242d7440e356cb59fa759ea05008b452int,
        0x3b79f0190d30ec507df4c9433006dc3f98108e8c840eecac60f2ee72576300c2int,
        0x7800cb8410e7425b27cb4ae12d2f1ce2dd35fb7758ad99e0729f0c20d9250146int);
    lemma_double(0x3fffffffc00000003fffffffffffffffef39beab69c5e7a13cee72b0bf18c95int,
        0x3b79f0190d30ec507df4c9433006dc3f98108e8c840eecac60f2ee72576300c2int,
        0x7800cb8410e7425b27cb4ae12d2f1ce2dd35fb7758ad99e0729f0c20d9250146int,
        0x13e1aace41718a701cfc777d12d8d44229a07d9deb4b28c637ee82e18b6b8866int,
        0xf005c5f391b8839d71d237050b742310632c4471bc90684abaddde575f701f04int,
        0x646f5eebabd61aa6f1f83cb7af67cc889746019ba17f47c4c9793666ec5ac01int);
    lemma_double(0x7fffffff800000007fffffffffffffffde737d56d38bcf4279dce5617e3192aint,
        0xf005c5f391b8839d71d237050b742310632c4471bc90684abaddde575f701f04int,
        0x646f5eebabd61aa6f1f83cb7af67cc889746019ba17f47c4c9793666ec5ac01int,
        0x56436ab347a1162845d4c6b9cbe939adea2c4f90c169d40a97e58c7fbaec7a9bint,
        0xad7046b18a9ad4d5338ffdb2a83922a5d7e2583283f65fd27f1c88acb211236int,
        0xf11ca539cfd85528e7b9c0f7b0574b11224ad4b45954da3481ef046e33b5fc6int);
    lemma_join(0xffffffff00000000ffffffffffffffffbce6faada7179e84f3b9cac2fc63254int, 0x1int,
        0xad7046b18a9ad4d5338ffdb2a83922a5d7e2583283f65fd27f1c88acb211236int,
        0xf11ca539cfd85528e7b9c0f7b0574b11224ad4b45954da3481ef046e33b5fc6int,
        0x6b17d1f2e12c4247f8bce6e563a440f277037d812deb33a0f4a13945d898c296int,
        0x4fe342e2fe1a7f9b8ee7eb4a7c0f9e162bce33576b315ececbb6406837bf51f5int,
        0x9b77ec69617f51069699bec6f62797e61fda164d9ad2f53842780fb17e45fa62int,
        0xb59926323f5188ed4aa844765881b0aa43de7963f0ce306a3b3b2d0bcc94e208int,
        0x6713a14ad58a39aebd2f04422c3243f82dc3ca46a7b6ba0103e8e1b7303bb397int);
    lemma_double(0xffffffff00000000ffffffffffffffffbce6faada7179e84f3b9cac2fc63255int,
        0xb59926323f5188ed4aa844765881b0aa43de7963f0ce306a3b3b2d0bcc94e208int,
        0x6713a14ad58a39aebd2f04422c3243f82dc3ca46a7b6ba0103e8e1b7303bb397int,
        0x510d851c47baf8984835e68c845e2bb545d52977fc75a523d9580f6237793779int,
        0x55998956742784829dca12de6a988ea385db1548366a5131359ae2fd09295726int,
        0x6f76653e8f904d66c1c95c432ece5aa6f2187c07620a71bd27e88e8fc6457cd6int);
    lemma_double(0x1fffffffe00000001ffffffffffffffff79cdf55b4e2f3d09e7739585f8c64aaint,
        0x55998956742784829dca12de6a988ea385db1548366a5131359ae2fd09295726int,
        0x6f76653e8f904d66c1c95c432ece5aa6f2187c07620a71bd27e88e8fc6457cd6int,
        0xb9fded35e510eaf5658921bfe5042746076d1426453aa249dcb6bd3495e18ec8int,
        0x7469a88fab79ae982fa880b0b940b96c6108eaec0473e2f530a861fa608f682int,
        0xb6bf06c0f458180962cb09c94552fecea039e0575b739e4213c698318a66f8f1int);
}

/// The next multiples of the generator.
proof fn lemma_multiples_51()
    requires
        small_multiples(),
        multiple_is(0x3fffffffc00000003fffffffffffffffef39beab69c5e7a13cee72b0bf18c954int,
            0x7469a88fab79ae982fa880b0b940b96c6108eaec0473e2f530a861fa608f682int,
            0xb6bf06c0f458180962cb09c94552fecea039e0575b739e4213c698318a66f8f1int),
    ensures
        multiple_is(0xffffffff00000000ffffffffffffffffbce6faada7179e84f3b9cac2fc632550int,
            0x6b17d1f2e12c4247f8bce6e563a440f277037d812deb33a0f4a13945d898c296int,
            0xb01cbd1c01e58065711814b583f061e9d431cca994cea1313449bf97c840ae0aint),
{
    lemma_double(0x3fffffffc00000003fffffffffffffffef39beab69c5e7a13cee72b0bf18c954int,
        0x7469a88fab79ae982fa880b0b940b96c6108eaec0473e2f530a861fa608f682int,
        0xb6bf06c0f458180962cb09c94552fecea039e0575b739e4213c698318a66f8f1int,
        0x755d14d98ff4cbf80f733a8570b5b20dd2d2e8c0fecc7ebe2d31bba5e4b33192int,
        0x2afa386b3f2bdcdb83f4d83f8fa3874d7b74dcb454bd644fdd6bf3d1f2da8db6int,
        0x72184be1caa8563462b536f10852d665ae8a64fdf1eb8d4c946ad589796f729cint);
    lemma_double(0x7fffffff800000007fffffffffffffffde737d56d38bcf4279dce5617e3192a8int,
        0x2afa386b3f2bdcdb83f4d83f8fa3874d7b74dcb454bd644fdd6bf3d1f2da8db6int,
        0x72184be1caa8563462b536f10852d665ae8a64fdf1eb8d4c946ad589796f729cint,
        0x83362c631c75685e3615425a3bf2d24ad3517a0496f1d94b79cc3fdabf3fe22aint,
        0x6b17d1f2e12c4247f8bce6e563a440f277037d812deb33a0f4a13945d898c296int,
        0xb01cbd1c01e58065711814b583f061e9d431cca994cea1313449bf97c840ae0aint);
}

/// The generator has the group order as a period.
pub proof fn lemma_order()
    ensures
        curve::times(certificates::group_order() as nat, point()) == Point::Infinity,
{
    lemma_small_multiples();
    lemma_multiples_1();
    lemma_multiples_2();
    lemma_multiples_3();
    lemma_multiples_4();
    lemma_multiples_5();
    lemma_multiples_6();
    lemma_multiples_7();
    lemma_multiples_8();
    lemma_multiples_9();
    lemma_multiples_10();
    lemma_multiples_11();
    lemma_multiples_12();
    lemma_multiples_13();
    lemma_multiples_14();
    lemma_multiples_15();
    lemma_multiples_16();
    lemma_multiples_17();
    lemma_multiples_18();
    lemma_multiples_19();
    lemma_multiples_20();
    lemma_multiples_21();
    lemma_multiples_22();
    lemma_multiples_23();
    lemma_multiples_24();
    lemma_multiples_25();
    lemma_multiples_26();
    lemma_multiples_27();
    lemma_multiples_28();
    lemma_multiples_29();
    lemma_multiples_30();
    lemma_multiples_31();
    lemma_multiples_32();
    lemma_multiples_33();
    lemma_multiples_34();
    lemma_multiples_35();
    lemma_multiples_36();
    lemma_multiples_37();
    lemma_multiples_38();
    lemma_multiples_39();
    lemma_multiples_40();
    lemma_multiples_41();
    lemma_multiples_42();
    lemma_multiples_43();
    lemma_multiples_44();
    lemma_multiples_45();
    lemma_multiples_46();
    lemma_multiples_47();
    lemma_multiples_48();
    lemma_multiples_49();
    lemma_multiples_50();
    lemma_multiples_51();
    assert(multiple_is(0xffffffff00000000ffffffffffffffffbce6faada7179e84f3b9cac2fc632550int,
        0x6b17d1f2e12c4247f8bce6e563a440f277037d812deb33a0f4a13945d898c296int,
        0xb01cbd1c01e58065711814b583f061e9d431cca994cea1313449bf97c840ae0aint));
    reveal(multiple_is);
    assert(certificates::group_order() - 1 ==
        0xffffffff00000000ffffffffffffffffbce6faada7179e84f3b9cac2fc632550int);
}

} // verus!
