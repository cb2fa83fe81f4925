//! A supply of points of the curve.
use crate::math::certificates;
use crate::math::curve;
use crate::math::fp;
use crate::math::polynomial;
use vstd::prelude::*;

verus! {

/// The number of sample points.
pub open spec fn count() -> nat {
    56
}

/// The abscissas of the sample points, in increasing order.
pub open spec fn abscissa(i: int) -> int {
    if i == 0 {
        0
    } else if i == 1 {
        5
    } else if i == 2 {
        6
    } else if i == 3 {
        8
    } else if i == 4 {
        9
    } else if i == 5 {
        12
    } else if i == 6 {
        13
    } else if i == 7 {
        17
    } else if i == 8 {
        23
    } else if i == 9 {
        24
    } else if i == 10 {
        25
    } else if i == 11 {
        26
    } else if i == 12 {
        29
    } else if i == 13 {
        31
    } else if i == 14 {
        34
    } else if i == 15 {
        35
    } else if i == 16 {
        37
    } else if i == 17 {
        39
    } else if i == 18 {
        44
    } else if i == 19 {
        45
    } else if i == 20 {
        48
    } else if i == 21 {
        50
    } else if i == 22 {
        51
    } else if i == 23 {
        52
    } else if i == 24 {
        53
    } else if i == 25 {
        54
    } else if i == 26 {
        56
    } else if i == 27 {
        57
    } else if i == 28 {
        59
    } else if i == 29 {
        60
    } else if i == 30 {
        62
    } else if i == 31 {
        67
    } else if i == 32 {
        69
    } else if i == 33 {
        70
    } else if i == 34 {
        71
    } else if i == 35 {
        74
    } else if i == 36 {
        78
    } else if i == 37 {
        83
    } else if i == 38 {
        84
    } else if i == 39 {
        85
    } else if i == 40 {
        86
    } else if i == 41 {
        89
    } else if i == 42 {
        90
    } else if i == 43 {
        91
    } else if i == 44 {
        94
    } else if i == 45 {
        95
    } else if i == 46 {
        97
    } else if i == 47 {
        98
    } else if i == 48 {
        99
    } else if i == 49 {
        101
    } else if i == 50 {
        104
    } else if i == 51 {
        105
    } else if i == 52 {
        107
    } else if i == 53 {
        109
    } else if i == 54 {
        110
    } else {
        111
    }
}

/// The ordinates of the sample points.
pub open spec fn ordinate(i: int) -> int {
    if i == 0 {
        0x66485c780e2f83d72433bd5d84a06bb6541c2af31dae871728bf856a174f93f4int
    } else if i == 1 {
        0x459243b9aa581806fe913bce99817ade11ca503c64d9a3c533415c083248fbccint
    } else if i == 2 {
        0x36b24c2c54250ac2466985e533720047dcd102b80fe7c0e9220d5128828223cbint
    } else if i == 3 {
        0x48f9d77435d6f25029db2e2dc0c80959d8db64ea29ce0096ddbd2f7a9c9fbe4cint
    } else if i == 4 {
        0x71eb17bbd350d1dd35556b082cccea34043add8ac39c5bcd24e7ed1b70184d68int
    } else if i == 5 {
        0x6c042d6434f97f3f39ac1c9c93b49aff38d9377d621a417d95443c4b4d48bc78int
    } else if i == 6 {
        0x7611acb15addfe56de66e50f66ccdd54ead245985bf02dc7610fdb973844e6b3int
    } else if i == 7 {
        0x60cc8df4d2762bf5c9bb02e1f9cce7209d780ff1a1421f333d2131671eba6539int
    } else if i == 8 {
        0x520df747dadad32aa7b0a84cf3e72978b1be30ff3e73c1074d2dec42be820012int
    } else if i == 9 {
        0x3a31a25d25de0d7b75bca22948c027c25ba9fdabd5ba177ab3393462a8d1f05bint
    } else if i == 10 {
        0x1ed77155e331b71e3e12e88be7f035b02337b7352d78be0436dff981bb8ea6a9int
    } else if i == 11 {
        0x35ffd38f6ebd054bb7064d25bf7526ccf693cda00b6bca31f9dbcffd2f0c01aeint
    } else if i == 12 {
        0x29813371b8f01678baff7094d51caea2b862b2386474429f69233beb3feeef0dint
    } else if i == 13 {
        0x72763d6d461b00d9908f870b6f111166b66066302192b7e8d14547a0a382c415int
    } else if i == 14 {
        0x7bcf498fa32102201db5bfba8f9a24edbf13d1cc3810d1df7719648712226ca8int
    } else if i == 15 {
        0x591677abaa77762671563b1e38e34104ca690ede9b92c89368dcb8ff5e53a0cfint
    } else if i == 16 {
        0x3bbc403f26b8e05c4f622393b09c7e42c051e23af0a29615d14554312c31c319int
    } else if i == 17 {
        0x094f99cb2ab60df85b076f83b0b157a34901d29ada4aa1c59c8d98004ad4fd43int
    } else if i == 18 {
        0x6443b86a8b5eefe60fad52d599dcf447d694d6a909daef7499571e8b6908dac4int
    } else if i == 19 {
        0x4d250a87b80c2a0374ea9b370f53e753ae6e5777e28f3bd42a807074d6c31914int
    } else if i == 20 {
        0x6a095718ade567893c68c3a2d629357c4fccdf9c2ee715fca5f409502bef2e56int
    } else if i == 21 {
        0x6ffcd22c4529b045b2ce1c5604bdbe5399d36c309c850e7f21715a00445e68b0int
    } else if i == 22 {
        0x61d4c842f625f7ec2cc327becdccde39f4e166d45795663405540c8b899a7f8aint
    } else if i == 23 {
        0x13be089cfa52eb187e2f5afac8f1d65c0325d77f185a500c37bb04122fa5c7d8int
    } else if i == 24 {
        0x28b8d2eae40262c145b4a9e0bba820b0488a6efd8ca78d35395cc4ccd260f51aint
    } else if i == 25 {
        0x7d3170a58a8f61d175cefaa4b37e8621abe634c207db01316b625e090ce07a76int
    } else if i == 26 {
        0x6db807a8e3e77885cc1b6720904edfa6b9a9fea30d2940714c26c0ce33bfdb9eint
    } else if i == 27 {
        0x49fd0d6b825a746a4b6d0f888d99ac820a2a6977ae2246eb60b5e59952f1c325int
    } else if i == 28 {
        0x4219823934d21e62d0ca91e00b5ae458dea1746ae48c40530471d135323af397int
    } else if i == 29 {
        0x00732d1e92b60907d7efab40def9181cd32f7348a1840c161a286911b17c3edbint
    } else if i == 30 {
        0x157e71589b23f51c2b3a2674a4a3cfb1ed3eeb8692471af44fa34d297a708051int
    } else if i == 31 {
        0x1c137e4c025f0cbc3c2bcbc03a4556f5057c35914fa1b320245bc8545715a60bint
    } else if i == 32 {
        0x24154cb5c2be5e1bede0b08d3a4197a72450e34f5820fd609e99f1bef44456b9int
    } else if i == 33 {
        0x5aaecb6f5c8f601e6d5004e15f13a80c216473b2a6eec09cda8d58314afbd37aint
    } else if i == 34 {
        0x20835c7fa470fb8297da04416898aa2406612fabd0a5fb74a2dc46735310dbacint
    } else if i == 35 {
        0x2c0c6d498a35f3e03f9d65cb724458cb30e08d93054d3a65f936849cbe797b1eint
    } else if i == 36 {
        0x4f847f67dded81f83f9486dda28288e01b761431a01085ee28529668cae3435fint
    } else if i == 37 {
        0x444d460a6ccdca7a2f896a2dd8eea69bbccc688f12acbe351db0ea5ed8a890faint
    } else if i == 38 {
        0x1fa1fd1a0c5baffa5b10012c3ce3c57f147938e7ddc2d65af556730d414efbd3int
    } else if i == 39 {
        0x593e136a695fca66767584534a583d1f33c1e84ba30c0c043fe8269a62069471int
    } else if i == 40 {
        0x345eda34c66ba7508bbc49a8cf58ed36998f88fda140c6e1ebbf741cd253444dint
    } else if i == 41 {
        0x39e8dc0de8f94db6e251d1c9416e4249ee0ded5767ef1c13ed56813c8c67d75dint
    } else if i == 42 {
        0x2eb3bfa50d0874cb04ed8dba1e41bea332025300974a681d69cd99ce5e5504a3int
    } else if i == 43 {
        0x47eb459fc3cc3d26dcabfa22e4c60ace53e5d3a1da822bbc31d06bdd770da9c2int
    } else if i == 44 {
        0x202013cd4b406f455855e98d8cac7217d7042974430a82ef75c7abdf77a2fc40int
    } else if i == 45 {
        0x7be6e6073adb1a81be99936c10af64cc6ab4e4054bc2b4a5a056a375ee5307cdint
    } else if i == 46 {
        0x1d06a37e9771df9fceb40e4e0b4af64ce8225c4da94fe7be979b5a73689610e5int
    } else if i == 47 {
        0x560569a36e9c328a87a623399c5a8dae2665b423ca80a292020a4f94ad6a2a06int
    } else if i == 48 {
        0x121c8f80f1a62276f46233a942fc7a8ebb5073a9fd77c1a158956aea6d88836fint
    } else if i == 49 {
        0x2db54702ce3fd4ada310c14c0a10e47f7cf7ce713f6696ef6525bcc9f4179312int
    } else if i == 50 {
        0x643a9d0a27ce8620ad24c7b9d3c81e34359ee7bcdf5d49809c5a207fb90d2dc0int
    } else if i == 51 {
        0x67e638aae23e873db12aac3091f939557c490a3f73e31f8fa32cfca188b3dcd2int
    } else if i == 52 {
        0x1c9c09e74d3dde7c94faef349bc957ff89838907c1cbcdb825d44639761a919bint
    } else if i == 53 {
        0x242195019c6b4b9e83dbd1d283855ed924d890b01deb66dd6f0f2f6362f0a8faint
    } else if i == 54 {
        0x76096bef91ac5a4e5c5c7760cc0d60fc2821c3273eec992d403d020674f9c865int
    } else {
        0x4f386bb9aaf94caa26a0f57ead535fe131c4b536326df4a1e7e81829278d3147int
    }
}

/// The abscissas as a sequence.
pub open spec fn abscissas() -> Seq<int> {
    Seq::new(count(), |i: int| abscissa(i))
}

/// A point with a small abscissa.
proof fn lemma_point(x: int, y: int, w: int)
    requires
        (y * y) % certificates::field_modulus() == w,
        curve::cubic(x) == w,
        fp::canonical(w),
        0 < y < certificates::field_modulus(),
    ensures
        curve::satisfies(x, y),
        !fp::vanishes(y),
{
    fp::lemma_reduce(y * y);
    fp::lemma_small(y);
}

/// The sample points are on the curve, and none has ordinate 0.
pub proof fn lemma_sample(i: int)
    requires
        0 <= i < count(),
    ensures
        curve::satisfies(abscissa(i), ordinate(i)),
        !fp::vanishes(ordinate(i)),
{
    if i == 0 {
        lemma_point(0, 0x66485c780e2f83d72433bd5d84a06bb6541c2af31dae871728bf856a174f93f4int,
            0x5ac635d8aa3a93e7b3ebbd55769886bc651d06b0cc53b0f63bce3c3e27d2604bint);
    } else if i == 1 {
        lemma_point(5, 0x459243b9aa581806fe913bce99817ade11ca503c64d9a3c533415c083248fbccint,
            0x5ac635d8aa3a93e7b3ebbd55769886bc651d06b0cc53b0f63bce3c3e27d260b9int);
    } else if i == 2 {
        lemma_point(6, 0x36b24c2c54250ac2466985e533720047dcd102b80fe7c0e9220d5128828223cbint,
            0x5ac635d8aa3a93e7b3ebbd55769886bc651d06b0cc53b0f63bce3c3e27d26111int);
    } else if i == 3 {
        lemma_point(8, 0x48f9d77435d6f25029db2e2dc0c80959d8db64ea29ce0096ddbd2f7a9c9fbe4cint,
            0x5ac635d8aa3a93e7b3ebbd55769886bc651d06b0cc53b0f63bce3c3e27d26233int);
    } else if i == 4 {
        lemma_point(9, 0x71eb17bbd350d1dd35556b082cccea34043add8ac39c5bcd24e7ed1b70184d68int,
            0x5ac635d8aa3a93e7b3ebbd55769886bc651d06b0cc53b0f63bce3c3e27d26309int);
    } else if i == 5 {
        lemma_point(12, 0x6c042d6434f97f3f39ac1c9c93b49aff38d9377d621a417d95443c4b4d48bc78int,
            0x5ac635d8aa3a93e7b3ebbd55769886bc651d06b0cc53b0f63bce3c3e27d266e7int);
    } else if i == 6 {
        lemma_point(13, 0x7611acb15addfe56de66e50f66ccdd54ead245985bf02dc7610fdb973844e6b3int,
            0x5ac635d8aa3a93e7b3ebbd55769886bc651d06b0cc53b0f63bce3c3e27d268b9int);
    } else if i == 7 {
        lemma_point(17, 0x60cc8df4d2762bf5c9bb02e1f9cce7209d780ff1a1421f333d2131671eba6539int,
            0x5ac635d8aa3a93e7b3ebbd55769886bc651d06b0cc53b0f63bce3c3e27d27349int);
    } else if i == 8 {
        lemma_point(23, 0x520df747dadad32aa7b0a84cf3e72978b1be30ff3e73c1074d2dec42be820012int,
            0x5ac635d8aa3a93e7b3ebbd55769886bc651d06b0cc53b0f63bce3c3e27d28f8dint);
    } else if i == 9 {
        lemma_point(24, 0x3a31a25d25de0d7b75bca22948c027c25ba9fdabd5ba177ab3393462a8d1f05bint,
            0x5ac635d8aa3a93e7b3ebbd55769886bc651d06b0cc53b0f63bce3c3e27d29603int);
    } else if i == 10 {
        lemma_point(25, 0x1ed77155e331b71e3e12e88be7f035b02337b7352d78be0436dff981bb8ea6a9int,
            0x5ac635d8aa3a93e7b3ebbd55769886bc651d06b0cc53b0f63bce3c3e27d29d09int);
    } else if i == 11 {
        lemma_point(26, 0x35ffd38f6ebd054bb7064d25bf7526ccf693cda00b6bca31f9dbcffd2f0c01aeint,
            0x5ac635d8aa3a93e7b3ebbd55769886bc651d06b0cc53b0f63bce3c3e27d2a4a5int);
    } else if i == 12 {
        lemma_point(29, 0x29813371b8f01678baff7094d51caea2b862b2386474429f69233beb3feeef0dint,
            0x5ac635d8aa3a93e7b3ebbd55769886bc651d06b0cc53b0f63bce3c3e27d2bf39int);
    } else if i == 13 {
        lemma_point(31, 0x72763d6d461b00d9908f870b6f111166b66066302192b7e8d14547a0a382c415int,
            0x5ac635d8aa3a93e7b3ebbd55769886bc651d06b0cc53b0f63bce3c3e27d2d44dint);
    } else if i == 14 {
        lemma_point(34, 0x7bcf498fa32102201db5bfba8f9a24edbf13d1cc3810d1df7719648712226ca8int,
            0x5ac635d8aa3a93e7b3ebbd55769886bc651d06b0cc53b0f63bce3c3e27d2f96dint);
    } else if i == 15 {
        lemma_point(35, 0x591677abaa77762671563b1e38e34104ca690ede9b92c89368dcb8ff5e53a0cfint,
            0x5ac635d8aa3a93e7b3ebbd55769886bc651d06b0cc53b0f63bce3c3e27d3075dint);
    } else if i == 16 {
        lemma_point(37, 0x3bbc403f26b8e05c4f622393b09c7e42c051e23af0a29615d14554312c31c319int,
            0x5ac635d8aa3a93e7b3ebbd55769886bc651d06b0cc53b0f63bce3c3e27d325b9int);
    } else if i == 17 {
        lemma_point(39, 0x094f99cb2ab60df85b076f83b0b157a34901d29ada4aa1c59c8d98004ad4fd43int,
            0x5ac635d8aa3a93e7b3ebbd55769886bc651d06b0cc53b0f63bce3c3e27d3478dint);
    } else if i == 18 {
        lemma_point(44, 0x6443b86a8b5eefe60fad52d599dcf447d694d6a909daef7499571e8b6908dac4int,
            0x5ac635d8aa3a93e7b3ebbd55769886bc651d06b0cc53b0f63bce3c3e27d3ac87int);
    } else if i == 19 {
        lemma_point(45, 0x4d250a87b80c2a0374ea9b370f53e753ae6e5777e28f3bd42a807074d6c31914int,
            0x5ac635d8aa3a93e7b3ebbd55769886bc651d06b0cc53b0f63bce3c3e27d3c3b9int);
    } else if i == 20 {
        lemma_point(48, 0x6a095718ade567893c68c3a2d629357c4fccdf9c2ee715fca5f409502bef2e56int,
            0x5ac635d8aa3a93e7b3ebbd55769886bc651d06b0cc53b0f63bce3c3e27d40fbbint);
    } else if i == 21 {
        lemma_point(50, 0x6ffcd22c4529b045b2ce1c5604bdbe5399d36c309c850e7f21715a00445e68b0int,
            0x5ac635d8aa3a93e7b3ebbd55769886bc651d06b0cc53b0f63bce3c3e27d447fdint);
    } else if i == 22 {
        lemma_point(51, 0x61d4c842f625f7ec2cc327becdccde39f4e166d45795663405540c8b899a7f8aint,
            0x5ac635d8aa3a93e7b3ebbd55769886bc651d06b0cc53b0f63bce3c3e27d465ddint);
    } else if i == 23 {
        lemma_point(52, 0x13be089cfa52eb187e2f5afac8f1d65c0325d77f185a500c37bb04122fa5c7d8int,
            0x5ac635d8aa3a93e7b3ebbd55769886bc651d06b0cc53b0f63bce3c3e27d484efint);
    } else if i == 24 {
        lemma_point(53, 0x28b8d2eae40262c145b4a9e0bba820b0488a6efd8ca78d35395cc4ccd260f51aint,
            0x5ac635d8aa3a93e7b3ebbd55769886bc651d06b0cc53b0f63bce3c3e27d4a539int);
    } else if i == 25 {
        lemma_point(54, 0x7d3170a58a8f61d175cefaa4b37e8621abe634c207db01316b625e090ce07a76int,
            0x5ac635d8aa3a93e7b3ebbd55769886bc651d06b0cc53b0f63bce3c3e27d4c6c1int);
    } else if i == 26 {
        lemma_point(56, 0x6db807a8e3e77885cc1b6720904edfa6b9a9fea30d2940714c26c0ce33bfdb9eint,
            0x5ac635d8aa3a93e7b3ebbd55769886bc651d06b0cc53b0f63bce3c3e27d50da3int);
    } else if i == 27 {
        lemma_point(57, 0x49fd0d6b825a746a4b6d0f888d99ac820a2a6977ae2246eb60b5e59952f1c325int,
            0x5ac635d8aa3a93e7b3ebbd55769886bc651d06b0cc53b0f63bce3c3e27d53309int);
    } else if i == 28 {
        lemma_point(59, 0x4219823934d21e62d0ca91e00b5ae458dea1746ae48c40530471d135323af397int,
            0x5ac635d8aa3a93e7b3ebbd55769886bc651d06b0cc53b0f63bce3c3e27d581ddint);
    } else if i == 29 {
        lemma_point(60, 0x00732d1e92b60907d7efab40def9181cd32f7348a1840c161a286911b17c3edbint,
            0x5ac635d8aa3a93e7b3ebbd55769886bc651d06b0cc53b0f63bce3c3e27d5ab57int);
    } else if i == 30 {
        lemma_point(62, 0x157e71589b23f51c2b3a2674a4a3cfb1ed3eeb8692471af44fa34d297a708051int,
            0x5ac635d8aa3a93e7b3ebbd55769886bc651d06b0cc53b0f63bce3c3e27d60289int);
    } else if i == 31 {
        lemma_point(67, 0x1c137e4c025f0cbc3c2bcbc03a4556f5057c35914fa1b320245bc8545715a60bint,
            0x5ac635d8aa3a93e7b3ebbd55769886bc651d06b0cc53b0f63bce3c3e27d6f65dint);
    } else if i == 32 {
        lemma_point(69, 0x24154cb5c2be5e1bede0b08d3a4197a72450e34f5820fd609e99f1bef44456b9int,
            0x5ac635d8aa3a93e7b3ebbd55769886bc651d06b0cc53b0f63bce3c3e27d762b9int);
    } else if i == 33 {
        lemma_point(70, 0x5aaecb6f5c8f601e6d5004e15f13a80c216473b2a6eec09cda8d58314afbd37aint,
            0x5ac635d8aa3a93e7b3ebbd55769886bc651d06b0cc53b0f63bce3c3e27d79b51int);
    } else if i == 34 {
        lemma_point(71, 0x20835c7fa470fb8297da04416898aa2406612fabd0a5fb74a2dc46735310dbacint,
            0x5ac635d8aa3a93e7b3ebbd55769886bc651d06b0cc53b0f63bce3c3e27d7d58dint);
    } else if i == 35 {
        lemma_point(74, 0x2c0c6d498a35f3e03f9d65cb724458cb30e08d93054d3a65f936849cbe797b1eint,
            0x5ac635d8aa3a93e7b3ebbd55769886bc651d06b0cc53b0f63bce3c3e27d88e55int);
    } else if i == 36 {
        lemma_point(78, 0x4f847f67dded81f83f9486dda28288e01b761431a01085ee28529668cae3435fint,
            0x5ac635d8aa3a93e7b3ebbd55769886bc651d06b0cc53b0f63bce3c3e27d99d19int);
    } else if i == 37 {
        lemma_point(83, 0x444d460a6ccdca7a2f896a2dd8eea69bbccc688f12acbe351db0ea5ed8a890faint,
            0x5ac635d8aa3a93e7b3ebbd55769886bc651d06b0cc53b0f63bce3c3e27db18ddint);
    } else if i == 38 {
        lemma_point(84, 0x1fa1fd1a0c5baffa5b10012c3ce3c57f147938e7ddc2d65af556730d414efbd3int,
            0x5ac635d8aa3a93e7b3ebbd55769886bc651d06b0cc53b0f63bce3c3e27db6a8fint);
    } else if i == 39 {
        lemma_point(85, 0x593e136a695fca66767584534a583d1f33c1e84ba30c0c043fe8269a62069471int,
            0x5ac635d8aa3a93e7b3ebbd55769886bc651d06b0cc53b0f63bce3c3e27dbbe39int);
    } else if i == 40 {
        lemma_point(86, 0x345eda34c66ba7508bbc49a8cf58ed36998f88fda140c6e1ebbf741cd253444dint,
            0x5ac635d8aa3a93e7b3ebbd55769886bc651d06b0cc53b0f63bce3c3e27dc13e1int);
    } else if i == 41 {
        lemma_point(89, 0x39e8dc0de8f94db6e251d1c9416e4249ee0ded5767ef1c13ed56813c8c67d75dint,
            0x5ac635d8aa3a93e7b3ebbd55769886bc651d06b0cc53b0f63bce3c3e27dd2109int);
    } else if i == 42 {
        lemma_point(90, 0x2eb3bfa50d0874cb04ed8dba1e41bea332025300974a681d69cd99ce5e5504a3int,
            0x5ac635d8aa3a93e7b3ebbd55769886bc651d06b0cc53b0f63bce3c3e27dd7ee5int);
    } else if i == 43 {
        lemma_point(91, 0x47eb459fc3cc3d26dcabfa22e4c60ace53e5d3a1da822bbc31d06bdd770da9c2int,
            0x5ac635d8aa3a93e7b3ebbd55769886bc651d06b0cc53b0f63bce3c3e27dddeddint);
    } else if i == 44 {
        lemma_point(94, 0x202013cd4b406f455855e98d8cac7217d7042974430a82ef75c7abdf77a2fc40int,
            0x5ac635d8aa3a93e7b3ebbd55769886bc651d06b0cc53b0f63bce3c3e27df0ba9int);
    } else if i == 45 {
        lemma_point(95, 0x7be6e6073adb1a81be99936c10af64cc6ab4e4054bc2b4a5a056a375ee5307cdint,
            0x5ac635d8aa3a93e7b3ebbd55769886bc651d06b0cc53b0f63bce3c3e27df744dint);
    } else if i == 46 {
        lemma_point(97, 0x1d06a37e9771df9fceb40e4e0b4af64ce8225c4da94fe7be979b5a73689610e5int,
            0x5ac635d8aa3a93e7b3ebbd55769886bc651d06b0cc53b0f63bce3c3e27e04c49int);
    } else if i == 47 {
        lemma_point(98, 0x560569a36e9c328a87a623399c5a8dae2665b423ca80a292020a4f94ad6a2a06int,
            0x5ac635d8aa3a93e7b3ebbd55769886bc651d06b0cc53b0f63bce3c3e27e0bbadint);
    } else if i == 48 {
        lemma_point(99, 0x121c8f80f1a62276f46233a942fc7a8ebb5073a9fd77c1a158956aea6d88836fint,
            0x5ac635d8aa3a93e7b3ebbd55769886bc651d06b0cc53b0f63bce3c3e27e12d5dint);
    } else if i == 49 {
        lemma_point(101, 0x2db54702ce3fd4ada310c14c0a10e47f7cf7ce713f6696ef6525bcc9f4179312int,
            0x5ac635d8aa3a93e7b3ebbd55769886bc651d06b0cc53b0f63bce3c3e27e217b9int);
    } else if i == 50 {
        lemma_point(104, 0x643a9d0a27ce8620ad24c7b9d3c81e34359ee7bcdf5d49809c5a207fb90d2dc0int,
            0x5ac635d8aa3a93e7b3ebbd55769886bc651d06b0cc53b0f63bce3c3e27e38913int);
    } else if i == 51 {
        lemma_point(105, 0x67e638aae23e873db12aac3091f939557c490a3f73e31f8fa32cfca188b3dcd2int,
            0x5ac635d8aa3a93e7b3ebbd55769886bc651d06b0cc53b0f63bce3c3e27e40909int);
    } else if i == 52 {
        lemma_point(107, 0x1c9c09e74d3dde7c94faef349bc957ff89838907c1cbcdb825d44639761a919bint,
            0x5ac635d8aa3a93e7b3ebbd55769886bc651d06b0cc53b0f63bce3c3e27e5105dint);
    } else if i == 53 {
        lemma_point(109, 0x242195019c6b4b9e83dbd1d283855ed924d890b01deb66dd6f0f2f6362f0a8faint,
            0x5ac635d8aa3a93e7b3ebbd55769886bc651d06b0cc53b0f63bce3c3e27e621b9int);
    } else if i == 54 {
        lemma_point(110, 0x76096bef91ac5a4e5c5c7760cc0d60fc2821c3273eec992d403d020674f9c865int,
            0x5ac635d8aa3a93e7b3ebbd55769886bc651d06b0cc53b0f63bce3c3e27e6ae39int);
    } else {
        lemma_point(111, 0x4f386bb9aaf94caa26a0f57ead535fe131c4b536326df4a1e7e81829278d3147int,
            0x5ac635d8aa3a93e7b3ebbd55769886bc651d06b0cc53b0f63bce3c3e27e73d4dint);
    }
}

/// The abscissas increase.
proof fn lemma_increasing(i: int, j: int)
    requires
        0 <= i < j < count(),
    ensures
        0 <= abscissa(i) < abscissa(j) < 1000,
    decreases j,
{
    assert(0 <= abscissa(j - 1) < abscissa(j) < 1000);
    if i < j - 1 {
        lemma_increasing(i, j - 1);
    }
}

/// The abscissas differ in the field.
pub proof fn lemma_distinct()
    ensures
        polynomial::distinct(abscissas()),
{
    let xs = abscissas();
    assert forall|i: int, j: int| 0 <= i < j < xs.len() implies !fp::vanishes(
        #[trigger] xs[j] - #[trigger] xs[i],
    ) by {
        lemma_increasing(i, j);
        fp::lemma_small(abscissa(j) - abscissa(i));
    }
}

} // verus!
