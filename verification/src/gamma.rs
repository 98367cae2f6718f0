//! Decoding of sRGB colour channels to linear light.
//!
//! A channel value `c` of an 8-bit sRGB colour stands for the intensity
//! `s = c / 255`. Its linear intensity is `s / 12.92` for `s <= 0.04045` and
//! `((s + 0.055) / 1.055) ^ 2.4` above that; the decoded channel is that
//! intensity scaled back to `0..=255` and rounded down. Everything here is
//! stated over integers: the upper branch is
//! `((40 c + 561) / 10761) ^ (12 / 5)`, so a level `k` is the decoded value
//! exactly when
//! `k^5 * 10761^12 <= 255^5 * (40 c + 561)^12 < (k + 1)^5 * 10761^12`.

use vstd::prelude::*;

verus! {

/// The fifth power of `x`.
pub open spec fn pow5(x: int) -> int {
    x * x * x * x * x
}

/// The twelfth power of `x`.
pub open spec fn pow12(x: int) -> int {
    let cube = x * x * x;
    cube * cube * cube * cube
}

/// Whether the channel lies on the linear toe of the curve, that is
/// `channel / 255 <= 0.04045`.
pub open spec fn on_linear_toe(channel: int) -> bool {
    channel * 100000 <= 4045 * 255
}

/// `linear` is the decoded value of the sRGB channel `channel`: the linear
/// intensity of `channel / 255`, times 255, rounded down.
pub open spec fn decodes_to(channel: int, linear: int) -> bool {
    if on_linear_toe(channel) {
        linear * 1292 <= channel * 100 < (linear + 1) * 1292
    } else {
        pow5(linear) * pow12(10761) <= pow5(255) * pow12(40 * channel + 561) < pow5(linear + 1)
            * pow12(10761)
    }
}

/// The decoded value of every channel, indexed by the channel.
pub const LINEAR_LEVELS: [u8; 256] = [
    0, 0, 0, 0, 0, 0, 0, 0, 0, 0, 0, 0, 0, 1, 1, 1,
    1, 1, 1, 1, 1, 1, 2, 2, 2, 2, 2, 2, 2, 3, 3, 3,
    3, 3, 4, 4, 4, 4, 4, 5, 5, 5, 5, 6, 6, 6, 6, 7,
    7, 7, 8, 8, 8, 9, 9, 9, 10, 10, 10, 11, 11, 11, 12, 12,
    13, 13, 13, 14, 14, 15, 15, 16, 16, 16, 17, 17, 18, 18, 19, 19,
    20, 20, 21, 22, 22, 23, 23, 24, 24, 25, 26, 26, 27, 27, 28, 29,
    29, 30, 31, 31, 32, 33, 33, 34, 35, 36, 36, 37, 38, 38, 39, 40,
    41, 42, 42, 43, 44, 45, 46, 47, 47, 48, 49, 50, 51, 52, 53, 54,
    55, 55, 56, 57, 58, 59, 60, 61, 62, 63, 64, 65, 66, 67, 68, 70,
    71, 72, 73, 74, 75, 76, 77, 78, 80, 81, 82, 83, 84, 85, 87, 88,
    89, 90, 92, 93, 94, 95, 97, 98, 99, 101, 102, 103, 105, 106, 107, 109,
    110, 112, 113, 114, 116, 117, 119, 120, 122, 123, 125, 126, 128, 129, 131, 132,
    134, 135, 137, 139, 140, 142, 144, 145, 147, 148, 150, 152, 153, 155, 157, 159,
    160, 162, 164, 166, 167, 169, 171, 173, 175, 176, 178, 180, 182, 184, 186, 188,
    190, 192, 193, 195, 197, 199, 201, 203, 205, 207, 209, 211, 213, 215, 218, 220,
    222, 224, 226, 228, 230, 232, 235, 237, 239, 241, 243, 245, 248, 250, 252, 255,
];

proof fn lemma_levels_from_0(channel: int)
    requires
        0 <= channel < 16,
    ensures
        decodes_to(channel, LINEAR_LEVELS[channel] as int),
{
    assert({
        &&& decodes_to(0, 0)
        &&& decodes_to(1, 0)
        &&& decodes_to(2, 0)
        &&& decodes_to(3, 0)
        &&& decodes_to(4, 0)
        &&& decodes_to(5, 0)
        &&& decodes_to(6, 0)
        &&& decodes_to(7, 0)
        &&& decodes_to(8, 0)
        &&& decodes_to(9, 0)
        &&& decodes_to(10, 0)
        &&& decodes_to(11, 0)
        &&& decodes_to(12, 0)
        &&& decodes_to(13, 1)
        &&& decodes_to(14, 1)
        &&& decodes_to(15, 1)
    }) by (nonlinear_arith);
}

proof fn lemma_levels_from_16(channel: int)
    requires
        16 <= channel < 32,
    ensures
        decodes_to(channel, LINEAR_LEVELS[channel] as int),
{
    assert({
        &&& decodes_to(16, 1)
        &&& decodes_to(17, 1)
        &&& decodes_to(18, 1)
        &&& decodes_to(19, 1)
        &&& decodes_to(20, 1)
        &&& decodes_to(21, 1)
        &&& decodes_to(22, 2)
        &&& decodes_to(23, 2)
        &&& decodes_to(24, 2)
        &&& decodes_to(25, 2)
        &&& decodes_to(26, 2)
        &&& decodes_to(27, 2)
        &&& decodes_to(28, 2)
        &&& decodes_to(29, 3)
        &&& decodes_to(30, 3)
        &&& decodes_to(31, 3)
    }) by (nonlinear_arith);
}

proof fn lemma_levels_from_32(channel: int)
    requires
        32 <= channel < 48,
    ensures
        decodes_to(channel, LINEAR_LEVELS[channel] as int),
{
    assert({
        &&& decodes_to(32, 3)
        &&& decodes_to(33, 3)
        &&& decodes_to(34, 4)
        &&& decodes_to(35, 4)
        &&& decodes_to(36, 4)
        &&& decodes_to(37, 4)
        &&& decodes_to(38, 4)
        &&& decodes_to(39, 5)
        &&& decodes_to(40, 5)
        &&& decodes_to(41, 5)
        &&& decodes_to(42, 5)
        &&& decodes_to(43, 6)
        &&& decodes_to(44, 6)
        &&& decodes_to(45, 6)
        &&& decodes_to(46, 6)
        &&& decodes_to(47, 7)
    }) by (nonlinear_arith);
}

proof fn lemma_levels_from_48(channel: int)
    requires
        48 <= channel < 64,
    ensures
        decodes_to(channel, LINEAR_LEVELS[channel] as int),
{
    assert({
        &&& decodes_to(48, 7)
        &&& decodes_to(49, 7)
        &&& decodes_to(50, 8)
        &&& decodes_to(51, 8)
        &&& decodes_to(52, 8)
        &&& decodes_to(53, 9)
        &&& decodes_to(54, 9)
        &&& decodes_to(55, 9)
        &&& decodes_to(56, 10)
        &&& decodes_to(57, 10)
        &&& decodes_to(58, 10)
        &&& decodes_to(59, 11)
        &&& decodes_to(60, 11)
        &&& decodes_to(61, 11)
        &&& decodes_to(62, 12)
        &&& decodes_to(63, 12)
    }) by (nonlinear_arith);
}

proof fn lemma_levels_from_64(channel: int)
    requires
        64 <= channel < 80,
    ensures
        decodes_to(channel, LINEAR_LEVELS[channel] as int),
{
    assert({
        &&& decodes_to(64, 13)
        &&& decodes_to(65, 13)
        &&& decodes_to(66, 13)
        &&& decodes_to(67, 14)
        &&& decodes_to(68, 14)
        &&& decodes_to(69, 15)
        &&& decodes_to(70, 15)
        &&& decodes_to(71, 16)
        &&& decodes_to(72, 16)
        &&& decodes_to(73, 16)
        &&& decodes_to(74, 17)
        &&& decodes_to(75, 17)
        &&& decodes_to(76, 18)
        &&& decodes_to(77, 18)
        &&& decodes_to(78, 19)
        &&& decodes_to(79, 19)
    }) by (nonlinear_arith);
}

proof fn lemma_levels_from_80(channel: int)
    requires
        80 <= channel < 96,
    ensures
        decodes_to(channel, LINEAR_LEVELS[channel] as int),
{
    assert({
        &&& decodes_to(80, 20)
        &&& decodes_to(81, 20)
        &&& decodes_to(82, 21)
        &&& decodes_to(83, 22)
        &&& decodes_to(84, 22)
        &&& decodes_to(85, 23)
        &&& decodes_to(86, 23)
        &&& decodes_to(87, 24)
        &&& decodes_to(88, 24)
        &&& decodes_to(89, 25)
        &&& decodes_to(90, 26)
        &&& decodes_to(91, 26)
        &&& decodes_to(92, 27)
        &&& decodes_to(93, 27)
        &&& decodes_to(94, 28)
        &&& decodes_to(95, 29)
    }) by (nonlinear_arith);
}

proof fn lemma_levels_from_96(channel: int)
    requires
        96 <= channel < 112,
    ensures
        decodes_to(channel, LINEAR_LEVELS[channel] as int),
{
    assert({
        &&& decodes_to(96, 29)
        &&& decodes_to(97, 30)
        &&& decodes_to(98, 31)
        &&& decodes_to(99, 31)
        &&& decodes_to(100, 32)
        &&& decodes_to(101, 33)
        &&& decodes_to(102, 33)
        &&& decodes_to(103, 34)
        &&& decodes_to(104, 35)
        &&& decodes_to(105, 36)
        &&& decodes_to(106, 36)
        &&& decodes_to(107, 37)
        &&& decodes_to(108, 38)
        &&& decodes_to(109, 38)
        &&& decodes_to(110, 39)
        &&& decodes_to(111, 40)
    }) by (nonlinear_arith);
}

proof fn lemma_levels_from_112(channel: int)
    requires
        112 <= channel < 128,
    ensures
        decodes_to(channel, LINEAR_LEVELS[channel] as int),
{
    assert({
        &&& decodes_to(112, 41)
        &&& decodes_to(113, 42)
        &&& decodes_to(114, 42)
        &&& decodes_to(115, 43)
        &&& decodes_to(116, 44)
        &&& decodes_to(117, 45)
        &&& decodes_to(118, 46)
        &&& decodes_to(119, 47)
        &&& decodes_to(120, 47)
        &&& decodes_to(121, 48)
        &&& decodes_to(122, 49)
        &&& decodes_to(123, 50)
        &&& decodes_to(124, 51)
        &&& decodes_to(125, 52)
        &&& decodes_to(126, 53)
        &&& decodes_to(127, 54)
    }) by (nonlinear_arith);
}

proof fn lemma_levels_from_128(channel: int)
    requires
        128 <= channel < 144,
    ensures
        decodes_to(channel, LINEAR_LEVELS[channel] as int),
{
    assert({
        &&& decodes_to(128, 55)
        &&& decodes_to(129, 55)
        &&& decodes_to(130, 56)
        &&& decodes_to(131, 57)
        &&& decodes_to(132, 58)
        &&& decodes_to(133, 59)
        &&& decodes_to(134, 60)
        &&& decodes_to(135, 61)
        &&& decodes_to(136, 62)
        &&& decodes_to(137, 63)
        &&& decodes_to(138, 64)
        &&& decodes_to(139, 65)
        &&& decodes_to(140, 66)
        &&& decodes_to(141, 67)
        &&& decodes_to(142, 68)
        &&& decodes_to(143, 70)
    }) by (nonlinear_arith);
}

proof fn lemma_levels_from_144(channel: int)
    requires
        144 <= channel < 160,
    ensures
        decodes_to(channel, LINEAR_LEVELS[channel] as int),
{
    assert({
        &&& decodes_to(144, 71)
        &&& decodes_to(145, 72)
        &&& decodes_to(146, 73)
        &&& decodes_to(147, 74)
        &&& decodes_to(148, 75)
        &&& decodes_to(149, 76)
        &&& decodes_to(150, 77)
        &&& decodes_to(151, 78)
        &&& decodes_to(152, 80)
        &&& decodes_to(153, 81)
        &&& decodes_to(154, 82)
        &&& decodes_to(155, 83)
        &&& decodes_to(156, 84)
        &&& decodes_to(157, 85)
        &&& decodes_to(158, 87)
        &&& decodes_to(159, 88)
    }) by (nonlinear_arith);
}

proof fn lemma_levels_from_160(channel: int)
    requires
        160 <= channel < 176,
    ensures
        decodes_to(channel, LINEAR_LEVELS[channel] as int),
{
    assert({
        &&& decodes_to(160, 89)
        &&& decodes_to(161, 90)
        &&& decodes_to(162, 92)
        &&& decodes_to(163, 93)
        &&& decodes_to(164, 94)
        &&& decodes_to(165, 95)
        &&& decodes_to(166, 97)
        &&& decodes_to(167, 98)
        &&& decodes_to(168, 99)
        &&& decodes_to(169, 101)
        &&& decodes_to(170, 102)
        &&& decodes_to(171, 103)
        &&& decodes_to(172, 105)
        &&& decodes_to(173, 106)
        &&& decodes_to(174, 107)
        &&& decodes_to(175, 109)
    }) by (nonlinear_arith);
}

proof fn lemma_levels_from_176(channel: int)
    requires
        176 <= channel < 192,
    ensures
        decodes_to(channel, LINEAR_LEVELS[channel] as int),
{
    assert({
        &&& decodes_to(176, 110)
        &&& decodes_to(177, 112)
        &&& decodes_to(178, 113)
        &&& decodes_to(179, 114)
        &&& decodes_to(180, 116)
        &&& decodes_to(181, 117)
        &&& decodes_to(182, 119)
        &&& decodes_to(183, 120)
        &&& decodes_to(184, 122)
        &&& decodes_to(185, 123)
        &&& decodes_to(186, 125)
        &&& decodes_to(187, 126)
        &&& decodes_to(188, 128)
        &&& decodes_to(189, 129)
        &&& decodes_to(190, 131)
        &&& decodes_to(191, 132)
    }) by (nonlinear_arith);
}

proof fn lemma_levels_from_192(channel: int)
    requires
        192 <= channel < 208,
    ensures
        decodes_to(channel, LINEAR_LEVELS[channel] as int),
{
    assert({
        &&& decodes_to(192, 134)
        &&& decodes_to(193, 135)
        &&& decodes_to(194, 137)
        &&& decodes_to(195, 139)
        &&& decodes_to(196, 140)
        &&& decodes_to(197, 142)
        &&& decodes_to(198, 144)
        &&& decodes_to(199, 145)
        &&& decodes_to(200, 147)
        &&& decodes_to(201, 148)
        &&& decodes_to(202, 150)
        &&& decodes_to(203, 152)
        &&& decodes_to(204, 153)
        &&& decodes_to(205, 155)
        &&& decodes_to(206, 157)
        &&& decodes_to(207, 159)
    }) by (nonlinear_arith);
}

proof fn lemma_levels_from_208(channel: int)
    requires
        208 <= channel < 224,
    ensures
        decodes_to(channel, LINEAR_LEVELS[channel] as int),
{
    assert({
        &&& decodes_to(208, 160)
        &&& decodes_to(209, 162)
        &&& decodes_to(210, 164)
        &&& decodes_to(211, 166)
        &&& decodes_to(212, 167)
        &&& decodes_to(213, 169)
        &&& decodes_to(214, 171)
        &&& decodes_to(215, 173)
        &&& decodes_to(216, 175)
        &&& decodes_to(217, 176)
        &&& decodes_to(218, 178)
        &&& decodes_to(219, 180)
        &&& decodes_to(220, 182)
        &&& decodes_to(221, 184)
        &&& decodes_to(222, 186)
        &&& decodes_to(223, 188)
    }) by (nonlinear_arith);
}

proof fn lemma_levels_from_224(channel: int)
    requires
        224 <= channel < 240,
    ensures
        decodes_to(channel, LINEAR_LEVELS[channel] as int),
{
    assert({
        &&& decodes_to(224, 190)
        &&& decodes_to(225, 192)
        &&& decodes_to(226, 193)
        &&& decodes_to(227, 195)
        &&& decodes_to(228, 197)
        &&& decodes_to(229, 199)
        &&& decodes_to(230, 201)
        &&& decodes_to(231, 203)
        &&& decodes_to(232, 205)
        &&& decodes_to(233, 207)
        &&& decodes_to(234, 209)
        &&& decodes_to(235, 211)
        &&& decodes_to(236, 213)
        &&& decodes_to(237, 215)
        &&& decodes_to(238, 218)
        &&& decodes_to(239, 220)
    }) by (nonlinear_arith);
}

proof fn lemma_levels_from_240(channel: int)
    requires
        240 <= channel < 256,
    ensures
        decodes_to(channel, LINEAR_LEVELS[channel] as int),
{
    assert({
        &&& decodes_to(240, 222)
        &&& decodes_to(241, 224)
        &&& decodes_to(242, 226)
        &&& decodes_to(243, 228)
        &&& decodes_to(244, 230)
        &&& decodes_to(245, 232)
        &&& decodes_to(246, 235)
        &&& decodes_to(247, 237)
        &&& decodes_to(248, 239)
        &&& decodes_to(249, 241)
        &&& decodes_to(250, 243)
        &&& decodes_to(251, 245)
        &&& decodes_to(252, 248)
        &&& decodes_to(253, 250)
        &&& decodes_to(254, 252)
        &&& decodes_to(255, 255)
    }) by (nonlinear_arith);
}

/// Every entry of the table is the decoded value of its index.
pub proof fn lemma_levels_decode(channel: int)
    requires
        0 <= channel < 256,
    ensures
        decodes_to(channel, LINEAR_LEVELS[channel] as int),
{
    if channel < 16 {
        lemma_levels_from_0(channel);
    } else if channel < 32 {
        lemma_levels_from_16(channel);
    } else if channel < 48 {
        lemma_levels_from_32(channel);
    } else if channel < 64 {
        lemma_levels_from_48(channel);
    } else if channel < 80 {
        lemma_levels_from_64(channel);
    } else if channel < 96 {
        lemma_levels_from_80(channel);
    } else if channel < 112 {
        lemma_levels_from_96(channel);
    } else if channel < 128 {
        lemma_levels_from_112(channel);
    } else if channel < 144 {
        lemma_levels_from_128(channel);
    } else if channel < 160 {
        lemma_levels_from_144(channel);
    } else if channel < 176 {
        lemma_levels_from_160(channel);
    } else if channel < 192 {
        lemma_levels_from_176(channel);
    } else if channel < 208 {
        lemma_levels_from_192(channel);
    } else if channel < 224 {
        lemma_levels_from_208(channel);
    } else if channel < 240 {
        lemma_levels_from_224(channel);
    } else {
        lemma_levels_from_240(channel);
    }
}

/// A channel has at most one decoded value.
pub proof fn lemma_decoding_unique(channel: int, a: int, b: int)
    requires
        0 <= a,
        0 <= b,
        decodes_to(channel, a),
        decodes_to(channel, b),
    ensures
        a == b,
{
    if !on_linear_toe(channel) {
        let unit = pow12(10761);
        assert(unit > 0) by (nonlinear_arith)
            requires
                unit == pow12(10761),
        ;
        if a < b {
            assert(pow5(a + 1) * unit <= pow5(b) * unit) by (nonlinear_arith)
                requires
                    0 <= a + 1 <= b,
                    unit > 0,
            ;
        } else if b < a {
            assert(pow5(b + 1) * unit <= pow5(a) * unit) by (nonlinear_arith)
                requires
                    0 <= b + 1 <= a,
                    unit > 0,
            ;
        }
    }
}

/// Decoding never brightens a channel: black and full white stay as they
/// are, and every value between them gets strictly darker.
pub proof fn lemma_decoding_darkens(channel: int, linear: int)
    requires
        0 <= channel < 256,
        0 <= linear,
        decodes_to(channel, linear),
    ensures
        linear <= channel,
        linear == channel <==> channel == 0 || channel == 255,
{
    lemma_levels_decode(channel);
    lemma_decoding_unique(channel, linear, LINEAR_LEVELS[channel] as int);
}

/// Decoding keeps the order of channels.
pub proof fn lemma_decoding_monotone(darker: int, brighter: int, low: int, high: int)
    requires
        0 <= darker <= brighter < 256,
        0 <= low,
        0 <= high,
        decodes_to(darker, low),
        decodes_to(brighter, high),
    ensures
        low <= high,
{
    lemma_levels_decode(darker);
    lemma_levels_decode(brighter);
    lemma_decoding_unique(darker, low, LINEAR_LEVELS[darker] as int);
    lemma_decoding_unique(brighter, high, LINEAR_LEVELS[brighter] as int);
}

/// The ends of the range are fixed points, and the mid-range channel 128
/// decodes to a value below 128.
pub proof fn lemma_decoding_boundaries()
    ensures
        decodes_to(0, 0),
        decodes_to(255, 255),
        forall|linear: int| 0 <= linear && decodes_to(128, linear) ==> linear < 128,
{
    lemma_levels_decode(0);
    lemma_levels_decode(255);
    assert forall|linear: int| 0 <= linear && decodes_to(128, linear) implies linear < 128 by {
        lemma_decoding_darkens(128, linear);
    }
}

/// Decodes one sRGB channel to linear light.
pub fn correct_gamma(channel: u8) -> (linear: u8)
    ensures
        decodes_to(channel as int, linear as int),
        linear == LINEAR_LEVELS[channel as int],
{
    proof {
        lemma_levels_decode(channel as int);
    }
    LINEAR_LEVELS[channel as usize]
}

} // verus!
