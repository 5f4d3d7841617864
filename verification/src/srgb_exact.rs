//! The lookup tables hold the nearest channel value to each curve's result.
//!
//! The curves have irrational exponents, so "nearest" is stated here without
//! them: `y = x^(12/5)` is `y^5 = x^12`, and a value `255 * y` rounds to `k`
//! where `2k - 1 <= 510 * y < 2k + 1`. Every inequality below is one between
//! integers.

use crate::srgb::{LINEARIZE, UNLINEARIZE};
use vstd::prelude::*;

verus! {

pub open spec fn pow5(x: int) -> int {
    x * x * x * x * x
}

pub open spec fn pow12(x: int) -> int {
    let x2 = x * x;
    let x4 = x2 * x2;
    x4 * x4 * x4
}

/// Whether `k` is the nearest channel value to the decoding curve's result
/// for the encoded channel value `c`, halves rounded up.
///
/// With `x = c / 255`: on the linear segment, `x <= 0.040449936`, the result
/// times 255 is `c / 12.92`. Above it, the result is `b^(12/5)` with
/// `b = (x + 0.055) / 1.055 = (1000 c + 14025) / 269025`.
pub open spec fn nearest_decoded(c: int, k: int) -> bool {
    if c * 1_000_000_000 <= 255 * 40_449_936 {
        (2 * k - 1) * 1292 <= 200 * c < (2 * k + 1) * 1292
    } else {
        &&& pow5(2 * k - 1) * pow12(269025) <= pow12(1000 * c + 14025) * pow5(510)
        &&& pow12(1000 * c + 14025) * pow5(510) < pow5(2 * k + 1) * pow12(269025)
    }
}

/// Whether `k` is the nearest channel value to the encoding curve's result
/// for the linear-light channel value `c`, halves rounded up.
///
/// With `x = c / 255`: on the linear segment, `x <= 0.0031308`, the result
/// times 255 is `12.92 c`. Above it, the result `1.055 x^(5/12) - 0.055`
/// rounds to `k` where `x^(5/12)` lies from `(2000 k + 27050) / 538050` up to,
/// but not at, `(2000 k + 29050) / 538050`.
pub open spec fn nearest_encoded(c: int, k: int) -> bool {
    if c * 10_000_000 <= 255 * 31_308 {
        (2 * k - 1) * 100 <= 2584 * c < (2 * k + 1) * 100
    } else {
        &&& pow12(2000 * k + 27050) * pow5(255) <= pow5(c) * pow12(538050)
        &&& pow5(c) * pow12(538050) < pow12(2000 * k + 29050) * pow5(255)
    }
}

proof fn decoding_entries_0_31()
    ensures
        forall|c: int| 0 <= c < 32 ==> nearest_decoded(c, #[trigger] LINEARIZE[c] as int),
{
    assert({
        &&& nearest_decoded(0, 0)
        &&& nearest_decoded(1, 0)
        &&& nearest_decoded(2, 0)
        &&& nearest_decoded(3, 0)
        &&& nearest_decoded(4, 0)
        &&& nearest_decoded(5, 0)
        &&& nearest_decoded(6, 0)
        &&& nearest_decoded(7, 1)
        &&& nearest_decoded(8, 1)
        &&& nearest_decoded(9, 1)
        &&& nearest_decoded(10, 1)
        &&& nearest_decoded(11, 1)
        &&& nearest_decoded(12, 1)
        &&& nearest_decoded(13, 1)
        &&& nearest_decoded(14, 1)
        &&& nearest_decoded(15, 1)
        &&& nearest_decoded(16, 1)
        &&& nearest_decoded(17, 1)
        &&& nearest_decoded(18, 2)
        &&& nearest_decoded(19, 2)
        &&& nearest_decoded(20, 2)
        &&& nearest_decoded(21, 2)
        &&& nearest_decoded(22, 2)
        &&& nearest_decoded(23, 2)
        &&& nearest_decoded(24, 2)
        &&& nearest_decoded(25, 2)
        &&& nearest_decoded(26, 3)
        &&& nearest_decoded(27, 3)
        &&& nearest_decoded(28, 3)
        &&& nearest_decoded(29, 3)
        &&& nearest_decoded(30, 3)
        &&& nearest_decoded(31, 3)
    }) by (nonlinear_arith);
}

proof fn decoding_entries_32_63()
    ensures
        forall|c: int| 32 <= c < 64 ==> nearest_decoded(c, #[trigger] LINEARIZE[c] as int),
{
    assert({
        &&& nearest_decoded(32, 4)
        &&& nearest_decoded(33, 4)
        &&& nearest_decoded(34, 4)
        &&& nearest_decoded(35, 4)
        &&& nearest_decoded(36, 4)
        &&& nearest_decoded(37, 5)
        &&& nearest_decoded(38, 5)
        &&& nearest_decoded(39, 5)
        &&& nearest_decoded(40, 5)
        &&& nearest_decoded(41, 6)
        &&& nearest_decoded(42, 6)
        &&& nearest_decoded(43, 6)
        &&& nearest_decoded(44, 6)
        &&& nearest_decoded(45, 7)
        &&& nearest_decoded(46, 7)
        &&& nearest_decoded(47, 7)
        &&& nearest_decoded(48, 8)
        &&& nearest_decoded(49, 8)
        &&& nearest_decoded(50, 8)
        &&& nearest_decoded(51, 8)
        &&& nearest_decoded(52, 9)
        &&& nearest_decoded(53, 9)
        &&& nearest_decoded(54, 9)
        &&& nearest_decoded(55, 10)
        &&& nearest_decoded(56, 10)
        &&& nearest_decoded(57, 10)
        &&& nearest_decoded(58, 11)
        &&& nearest_decoded(59, 11)
        &&& nearest_decoded(60, 12)
        &&& nearest_decoded(61, 12)
        &&& nearest_decoded(62, 12)
        &&& nearest_decoded(63, 13)
    }) by (nonlinear_arith);
}

proof fn decoding_entries_64_95()
    ensures
        forall|c: int| 64 <= c < 96 ==> nearest_decoded(c, #[trigger] LINEARIZE[c] as int),
{
    assert({
        &&& nearest_decoded(64, 13)
        &&& nearest_decoded(65, 13)
        &&& nearest_decoded(66, 14)
        &&& nearest_decoded(67, 14)
        &&& nearest_decoded(68, 15)
        &&& nearest_decoded(69, 15)
        &&& nearest_decoded(70, 16)
        &&& nearest_decoded(71, 16)
        &&& nearest_decoded(72, 17)
        &&& nearest_decoded(73, 17)
        &&& nearest_decoded(74, 17)
        &&& nearest_decoded(75, 18)
        &&& nearest_decoded(76, 18)
        &&& nearest_decoded(77, 19)
        &&& nearest_decoded(78, 19)
        &&& nearest_decoded(79, 20)
        &&& nearest_decoded(80, 20)
        &&& nearest_decoded(81, 21)
        &&& nearest_decoded(82, 22)
        &&& nearest_decoded(83, 22)
        &&& nearest_decoded(84, 23)
        &&& nearest_decoded(85, 23)
        &&& nearest_decoded(86, 24)
        &&& nearest_decoded(87, 24)
        &&& nearest_decoded(88, 25)
        &&& nearest_decoded(89, 25)
        &&& nearest_decoded(90, 26)
        &&& nearest_decoded(91, 27)
        &&& nearest_decoded(92, 27)
        &&& nearest_decoded(93, 28)
        &&& nearest_decoded(94, 29)
        &&& nearest_decoded(95, 29)
    }) by (nonlinear_arith);
}

proof fn decoding_entries_96_127()
    ensures
        forall|c: int| 96 <= c < 128 ==> nearest_decoded(c, #[trigger] LINEARIZE[c] as int),
{
    assert({
        &&& nearest_decoded(96, 30)
        &&& nearest_decoded(97, 30)
        &&& nearest_decoded(98, 31)
        &&& nearest_decoded(99, 32)
        &&& nearest_decoded(100, 32)
        &&& nearest_decoded(101, 33)
        &&& nearest_decoded(102, 34)
        &&& nearest_decoded(103, 35)
        &&& nearest_decoded(104, 35)
        &&& nearest_decoded(105, 36)
        &&& nearest_decoded(106, 37)
        &&& nearest_decoded(107, 37)
        &&& nearest_decoded(108, 38)
        &&& nearest_decoded(109, 39)
        &&& nearest_decoded(110, 40)
        &&& nearest_decoded(111, 41)
        &&& nearest_decoded(112, 41)
        &&& nearest_decoded(113, 42)
        &&& nearest_decoded(114, 43)
        &&& nearest_decoded(115, 44)
        &&& nearest_decoded(116, 45)
        &&& nearest_decoded(117, 45)
        &&& nearest_decoded(118, 46)
        &&& nearest_decoded(119, 47)
        &&& nearest_decoded(120, 48)
        &&& nearest_decoded(121, 49)
        &&& nearest_decoded(122, 50)
        &&& nearest_decoded(123, 51)
        &&& nearest_decoded(124, 51)
        &&& nearest_decoded(125, 52)
        &&& nearest_decoded(126, 53)
        &&& nearest_decoded(127, 54)
    }) by (nonlinear_arith);
}

proof fn decoding_entries_128_159()
    ensures
        forall|c: int| 128 <= c < 160 ==> nearest_decoded(c, #[trigger] LINEARIZE[c] as int),
{
    assert({
        &&& nearest_decoded(128, 55)
        &&& nearest_decoded(129, 56)
        &&& nearest_decoded(130, 57)
        &&& nearest_decoded(131, 58)
        &&& nearest_decoded(132, 59)
        &&& nearest_decoded(133, 60)
        &&& nearest_decoded(134, 61)
        &&& nearest_decoded(135, 62)
        &&& nearest_decoded(136, 63)
        &&& nearest_decoded(137, 64)
        &&& nearest_decoded(138, 65)
        &&& nearest_decoded(139, 66)
        &&& nearest_decoded(140, 67)
        &&& nearest_decoded(141, 68)
        &&& nearest_decoded(142, 69)
        &&& nearest_decoded(143, 70)
        &&& nearest_decoded(144, 71)
        &&& nearest_decoded(145, 72)
        &&& nearest_decoded(146, 73)
        &&& nearest_decoded(147, 74)
        &&& nearest_decoded(148, 76)
        &&& nearest_decoded(149, 77)
        &&& nearest_decoded(150, 78)
        &&& nearest_decoded(151, 79)
        &&& nearest_decoded(152, 80)
        &&& nearest_decoded(153, 81)
        &&& nearest_decoded(154, 82)
        &&& nearest_decoded(155, 84)
        &&& nearest_decoded(156, 85)
        &&& nearest_decoded(157, 86)
        &&& nearest_decoded(158, 87)
        &&& nearest_decoded(159, 88)
    }) by (nonlinear_arith);
}

proof fn decoding_entries_160_191()
    ensures
        forall|c: int| 160 <= c < 192 ==> nearest_decoded(c, #[trigger] LINEARIZE[c] as int),
{
    assert({
        &&& nearest_decoded(160, 90)
        &&& nearest_decoded(161, 91)
        &&& nearest_decoded(162, 92)
        &&& nearest_decoded(163, 93)
        &&& nearest_decoded(164, 95)
        &&& nearest_decoded(165, 96)
        &&& nearest_decoded(166, 97)
        &&& nearest_decoded(167, 99)
        &&& nearest_decoded(168, 100)
        &&& nearest_decoded(169, 101)
        &&& nearest_decoded(170, 103)
        &&& nearest_decoded(171, 104)
        &&& nearest_decoded(172, 105)
        &&& nearest_decoded(173, 107)
        &&& nearest_decoded(174, 108)
        &&& nearest_decoded(175, 109)
        &&& nearest_decoded(176, 111)
        &&& nearest_decoded(177, 112)
        &&& nearest_decoded(178, 114)
        &&& nearest_decoded(179, 115)
        &&& nearest_decoded(180, 116)
        &&& nearest_decoded(181, 118)
        &&& nearest_decoded(182, 119)
        &&& nearest_decoded(183, 121)
        &&& nearest_decoded(184, 122)
        &&& nearest_decoded(185, 124)
        &&& nearest_decoded(186, 125)
        &&& nearest_decoded(187, 127)
        &&& nearest_decoded(188, 128)
        &&& nearest_decoded(189, 130)
        &&& nearest_decoded(190, 131)
        &&& nearest_decoded(191, 133)
    }) by (nonlinear_arith);
}

proof fn decoding_entries_192_223()
    ensures
        forall|c: int| 192 <= c < 224 ==> nearest_decoded(c, #[trigger] LINEARIZE[c] as int),
{
    assert({
        &&& nearest_decoded(192, 134)
        &&& nearest_decoded(193, 136)
        &&& nearest_decoded(194, 138)
        &&& nearest_decoded(195, 139)
        &&& nearest_decoded(196, 141)
        &&& nearest_decoded(197, 142)
        &&& nearest_decoded(198, 144)
        &&& nearest_decoded(199, 146)
        &&& nearest_decoded(200, 147)
        &&& nearest_decoded(201, 149)
        &&& nearest_decoded(202, 151)
        &&& nearest_decoded(203, 152)
        &&& nearest_decoded(204, 154)
        &&& nearest_decoded(205, 156)
        &&& nearest_decoded(206, 157)
        &&& nearest_decoded(207, 159)
        &&& nearest_decoded(208, 161)
        &&& nearest_decoded(209, 163)
        &&& nearest_decoded(210, 164)
        &&& nearest_decoded(211, 166)
        &&& nearest_decoded(212, 168)
        &&& nearest_decoded(213, 170)
        &&& nearest_decoded(214, 171)
        &&& nearest_decoded(215, 173)
        &&& nearest_decoded(216, 175)
        &&& nearest_decoded(217, 177)
        &&& nearest_decoded(218, 179)
        &&& nearest_decoded(219, 181)
        &&& nearest_decoded(220, 183)
        &&& nearest_decoded(221, 184)
        &&& nearest_decoded(222, 186)
        &&& nearest_decoded(223, 188)
    }) by (nonlinear_arith);
}

proof fn decoding_entries_224_255()
    ensures
        forall|c: int| 224 <= c < 256 ==> nearest_decoded(c, #[trigger] LINEARIZE[c] as int),
{
    assert({
        &&& nearest_decoded(224, 190)
        &&& nearest_decoded(225, 192)
        &&& nearest_decoded(226, 194)
        &&& nearest_decoded(227, 196)
        &&& nearest_decoded(228, 198)
        &&& nearest_decoded(229, 200)
        &&& nearest_decoded(230, 202)
        &&& nearest_decoded(231, 204)
        &&& nearest_decoded(232, 206)
        &&& nearest_decoded(233, 208)
        &&& nearest_decoded(234, 210)
        &&& nearest_decoded(235, 212)
        &&& nearest_decoded(236, 214)
        &&& nearest_decoded(237, 216)
        &&& nearest_decoded(238, 218)
        &&& nearest_decoded(239, 220)
        &&& nearest_decoded(240, 222)
        &&& nearest_decoded(241, 224)
        &&& nearest_decoded(242, 226)
        &&& nearest_decoded(243, 229)
        &&& nearest_decoded(244, 231)
        &&& nearest_decoded(245, 233)
        &&& nearest_decoded(246, 235)
        &&& nearest_decoded(247, 237)
        &&& nearest_decoded(248, 239)
        &&& nearest_decoded(249, 242)
        &&& nearest_decoded(250, 244)
        &&& nearest_decoded(251, 246)
        &&& nearest_decoded(252, 248)
        &&& nearest_decoded(253, 250)
        &&& nearest_decoded(254, 253)
        &&& nearest_decoded(255, 255)
    }) by (nonlinear_arith);
}

proof fn encoding_entries_0_31()
    ensures
        forall|c: int| 0 <= c < 32 ==> nearest_encoded(c, #[trigger] UNLINEARIZE[c] as int),
{
    assert({
        &&& nearest_encoded(0, 0)
        &&& nearest_encoded(1, 13)
        &&& nearest_encoded(2, 22)
        &&& nearest_encoded(3, 28)
        &&& nearest_encoded(4, 34)
        &&& nearest_encoded(5, 38)
        &&& nearest_encoded(6, 42)
        &&& nearest_encoded(7, 46)
        &&& nearest_encoded(8, 50)
        &&& nearest_encoded(9, 53)
        &&& nearest_encoded(10, 56)
        &&& nearest_encoded(11, 59)
        &&& nearest_encoded(12, 61)
        &&& nearest_encoded(13, 64)
        &&& nearest_encoded(14, 66)
        &&& nearest_encoded(15, 69)
        &&& nearest_encoded(16, 71)
        &&& nearest_encoded(17, 73)
        &&& nearest_encoded(18, 75)
        &&& nearest_encoded(19, 77)
        &&& nearest_encoded(20, 79)
        &&& nearest_encoded(21, 81)
        &&& nearest_encoded(22, 83)
        &&& nearest_encoded(23, 85)
        &&& nearest_encoded(24, 86)
        &&& nearest_encoded(25, 88)
        &&& nearest_encoded(26, 90)
        &&& nearest_encoded(27, 92)
        &&& nearest_encoded(28, 93)
        &&& nearest_encoded(29, 95)
        &&& nearest_encoded(30, 96)
        &&& nearest_encoded(31, 98)
    }) by (nonlinear_arith);
}

proof fn encoding_entries_32_63()
    ensures
        forall|c: int| 32 <= c < 64 ==> nearest_encoded(c, #[trigger] UNLINEARIZE[c] as int),
{
    assert({
        &&& nearest_encoded(32, 99)
        &&& nearest_encoded(33, 101)
        &&& nearest_encoded(34, 102)
        &&& nearest_encoded(35, 104)
        &&& nearest_encoded(36, 105)
        &&& nearest_encoded(37, 106)
        &&& nearest_encoded(38, 108)
        &&& nearest_encoded(39, 109)
        &&& nearest_encoded(40, 110)
        &&& nearest_encoded(41, 112)
        &&& nearest_encoded(42, 113)
        &&& nearest_encoded(43, 114)
        &&& nearest_encoded(44, 115)
        &&& nearest_encoded(45, 117)
        &&& nearest_encoded(46, 118)
        &&& nearest_encoded(47, 119)
        &&& nearest_encoded(48, 120)
        &&& nearest_encoded(49, 121)
        &&& nearest_encoded(50, 122)
        &&& nearest_encoded(51, 124)
        &&& nearest_encoded(52, 125)
        &&& nearest_encoded(53, 126)
        &&& nearest_encoded(54, 127)
        &&& nearest_encoded(55, 128)
        &&& nearest_encoded(56, 129)
        &&& nearest_encoded(57, 130)
        &&& nearest_encoded(58, 131)
        &&& nearest_encoded(59, 132)
        &&& nearest_encoded(60, 133)
        &&& nearest_encoded(61, 134)
        &&& nearest_encoded(62, 135)
        &&& nearest_encoded(63, 136)
    }) by (nonlinear_arith);
}

proof fn encoding_entries_64_95()
    ensures
        forall|c: int| 64 <= c < 96 ==> nearest_encoded(c, #[trigger] UNLINEARIZE[c] as int),
{
    assert({
        &&& nearest_encoded(64, 137)
        &&& nearest_encoded(65, 138)
        &&& nearest_encoded(66, 139)
        &&& nearest_encoded(67, 140)
        &&& nearest_encoded(68, 141)
        &&& nearest_encoded(69, 142)
        &&& nearest_encoded(70, 143)
        &&& nearest_encoded(71, 144)
        &&& nearest_encoded(72, 145)
        &&& nearest_encoded(73, 146)
        &&& nearest_encoded(74, 147)
        &&& nearest_encoded(75, 148)
        &&& nearest_encoded(76, 148)
        &&& nearest_encoded(77, 149)
        &&& nearest_encoded(78, 150)
        &&& nearest_encoded(79, 151)
        &&& nearest_encoded(80, 152)
        &&& nearest_encoded(81, 153)
        &&& nearest_encoded(82, 154)
        &&& nearest_encoded(83, 155)
        &&& nearest_encoded(84, 155)
        &&& nearest_encoded(85, 156)
        &&& nearest_encoded(86, 157)
        &&& nearest_encoded(87, 158)
        &&& nearest_encoded(88, 159)
        &&& nearest_encoded(89, 159)
        &&& nearest_encoded(90, 160)
        &&& nearest_encoded(91, 161)
        &&& nearest_encoded(92, 162)
        &&& nearest_encoded(93, 163)
        &&& nearest_encoded(94, 163)
        &&& nearest_encoded(95, 164)
    }) by (nonlinear_arith);
}

proof fn encoding_entries_96_127()
    ensures
        forall|c: int| 96 <= c < 128 ==> nearest_encoded(c, #[trigger] UNLINEARIZE[c] as int),
{
    assert({
        &&& nearest_encoded(96, 165)
        &&& nearest_encoded(97, 166)
        &&& nearest_encoded(98, 167)
        &&& nearest_encoded(99, 167)
        &&& nearest_encoded(100, 168)
        &&& nearest_encoded(101, 169)
        &&& nearest_encoded(102, 170)
        &&& nearest_encoded(103, 170)
        &&& nearest_encoded(104, 171)
        &&& nearest_encoded(105, 172)
        &&& nearest_encoded(106, 173)
        &&& nearest_encoded(107, 173)
        &&& nearest_encoded(108, 174)
        &&& nearest_encoded(109, 175)
        &&& nearest_encoded(110, 175)
        &&& nearest_encoded(111, 176)
        &&& nearest_encoded(112, 177)
        &&& nearest_encoded(113, 178)
        &&& nearest_encoded(114, 178)
        &&& nearest_encoded(115, 179)
        &&& nearest_encoded(116, 180)
        &&& nearest_encoded(117, 180)
        &&& nearest_encoded(118, 181)
        &&& nearest_encoded(119, 182)
        &&& nearest_encoded(120, 182)
        &&& nearest_encoded(121, 183)
        &&& nearest_encoded(122, 184)
        &&& nearest_encoded(123, 185)
        &&& nearest_encoded(124, 185)
        &&& nearest_encoded(125, 186)
        &&& nearest_encoded(126, 187)
        &&& nearest_encoded(127, 187)
    }) by (nonlinear_arith);
}

proof fn encoding_entries_128_159()
    ensures
        forall|c: int| 128 <= c < 160 ==> nearest_encoded(c, #[trigger] UNLINEARIZE[c] as int),
{
    assert({
        &&& nearest_encoded(128, 188)
        &&& nearest_encoded(129, 189)
        &&& nearest_encoded(130, 189)
        &&& nearest_encoded(131, 190)
        &&& nearest_encoded(132, 190)
        &&& nearest_encoded(133, 191)
        &&& nearest_encoded(134, 192)
        &&& nearest_encoded(135, 192)
        &&& nearest_encoded(136, 193)
        &&& nearest_encoded(137, 194)
        &&& nearest_encoded(138, 194)
        &&& nearest_encoded(139, 195)
        &&& nearest_encoded(140, 196)
        &&& nearest_encoded(141, 196)
        &&& nearest_encoded(142, 197)
        &&& nearest_encoded(143, 197)
        &&& nearest_encoded(144, 198)
        &&& nearest_encoded(145, 199)
        &&& nearest_encoded(146, 199)
        &&& nearest_encoded(147, 200)
        &&& nearest_encoded(148, 200)
        &&& nearest_encoded(149, 201)
        &&& nearest_encoded(150, 202)
        &&& nearest_encoded(151, 202)
        &&& nearest_encoded(152, 203)
        &&& nearest_encoded(153, 203)
        &&& nearest_encoded(154, 204)
        &&& nearest_encoded(155, 205)
        &&& nearest_encoded(156, 205)
        &&& nearest_encoded(157, 206)
        &&& nearest_encoded(158, 206)
        &&& nearest_encoded(159, 207)
    }) by (nonlinear_arith);
}

proof fn encoding_entries_160_191()
    ensures
        forall|c: int| 160 <= c < 192 ==> nearest_encoded(c, #[trigger] UNLINEARIZE[c] as int),
{
    assert({
        &&& nearest_encoded(160, 208)
        &&& nearest_encoded(161, 208)
        &&& nearest_encoded(162, 209)
        &&& nearest_encoded(163, 209)
        &&& nearest_encoded(164, 210)
        &&& nearest_encoded(165, 210)
        &&& nearest_encoded(166, 211)
        &&& nearest_encoded(167, 212)
        &&& nearest_encoded(168, 212)
        &&& nearest_encoded(169, 213)
        &&& nearest_encoded(170, 213)
        &&& nearest_encoded(171, 214)
        &&& nearest_encoded(172, 214)
        &&& nearest_encoded(173, 215)
        &&& nearest_encoded(174, 215)
        &&& nearest_encoded(175, 216)
        &&& nearest_encoded(176, 216)
        &&& nearest_encoded(177, 217)
        &&& nearest_encoded(178, 218)
        &&& nearest_encoded(179, 218)
        &&& nearest_encoded(180, 219)
        &&& nearest_encoded(181, 219)
        &&& nearest_encoded(182, 220)
        &&& nearest_encoded(183, 220)
        &&& nearest_encoded(184, 221)
        &&& nearest_encoded(185, 221)
        &&& nearest_encoded(186, 222)
        &&& nearest_encoded(187, 222)
        &&& nearest_encoded(188, 223)
        &&& nearest_encoded(189, 223)
        &&& nearest_encoded(190, 224)
        &&& nearest_encoded(191, 224)
    }) by (nonlinear_arith);
}

proof fn encoding_entries_192_223()
    ensures
        forall|c: int| 192 <= c < 224 ==> nearest_encoded(c, #[trigger] UNLINEARIZE[c] as int),
{
    assert({
        &&& nearest_encoded(192, 225)
        &&& nearest_encoded(193, 226)
        &&& nearest_encoded(194, 226)
        &&& nearest_encoded(195, 227)
        &&& nearest_encoded(196, 227)
        &&& nearest_encoded(197, 228)
        &&& nearest_encoded(198, 228)
        &&& nearest_encoded(199, 229)
        &&& nearest_encoded(200, 229)
        &&& nearest_encoded(201, 230)
        &&& nearest_encoded(202, 230)
        &&& nearest_encoded(203, 231)
        &&& nearest_encoded(204, 231)
        &&& nearest_encoded(205, 232)
        &&& nearest_encoded(206, 232)
        &&& nearest_encoded(207, 233)
        &&& nearest_encoded(208, 233)
        &&& nearest_encoded(209, 234)
        &&& nearest_encoded(210, 234)
        &&& nearest_encoded(211, 235)
        &&& nearest_encoded(212, 235)
        &&& nearest_encoded(213, 236)
        &&& nearest_encoded(214, 236)
        &&& nearest_encoded(215, 237)
        &&& nearest_encoded(216, 237)
        &&& nearest_encoded(217, 238)
        &&& nearest_encoded(218, 238)
        &&& nearest_encoded(219, 238)
        &&& nearest_encoded(220, 239)
        &&& nearest_encoded(221, 239)
        &&& nearest_encoded(222, 240)
        &&& nearest_encoded(223, 240)
    }) by (nonlinear_arith);
}

proof fn encoding_entries_224_255()
    ensures
        forall|c: int| 224 <= c < 256 ==> nearest_encoded(c, #[trigger] UNLINEARIZE[c] as int),
{
    assert({
        &&& nearest_encoded(224, 241)
        &&& nearest_encoded(225, 241)
        &&& nearest_encoded(226, 242)
        &&& nearest_encoded(227, 242)
        &&& nearest_encoded(228, 243)
        &&& nearest_encoded(229, 243)
        &&& nearest_encoded(230, 244)
        &&& nearest_encoded(231, 244)
        &&& nearest_encoded(232, 245)
        &&& nearest_encoded(233, 245)
        &&& nearest_encoded(234, 246)
        &&& nearest_encoded(235, 246)
        &&& nearest_encoded(236, 246)
        &&& nearest_encoded(237, 247)
        &&& nearest_encoded(238, 247)
        &&& nearest_encoded(239, 248)
        &&& nearest_encoded(240, 248)
        &&& nearest_encoded(241, 249)
        &&& nearest_encoded(242, 249)
        &&& nearest_encoded(243, 250)
        &&& nearest_encoded(244, 250)
        &&& nearest_encoded(245, 251)
        &&& nearest_encoded(246, 251)
        &&& nearest_encoded(247, 251)
        &&& nearest_encoded(248, 252)
        &&& nearest_encoded(249, 252)
        &&& nearest_encoded(250, 253)
        &&& nearest_encoded(251, 253)
        &&& nearest_encoded(252, 254)
        &&& nearest_encoded(253, 254)
        &&& nearest_encoded(254, 255)
        &&& nearest_encoded(255, 255)
    }) by (nonlinear_arith);
}

/// Every entry of the decoding table is the nearest channel value to the
/// decoding curve's result.
pub proof fn lemma_decoding_table_is_nearest(c: u8)
    ensures
        nearest_decoded(c as int, LINEARIZE[c as int] as int),
{
    decoding_entries_0_31();
    decoding_entries_32_63();
    decoding_entries_64_95();
    decoding_entries_96_127();
    decoding_entries_128_159();
    decoding_entries_160_191();
    decoding_entries_192_223();
    decoding_entries_224_255();
}

/// Every entry of the encoding table is the nearest channel value to the
/// encoding curve's result.
pub proof fn lemma_encoding_table_is_nearest(c: u8)
    ensures
        nearest_encoded(c as int, UNLINEARIZE[c as int] as int),
{
    encoding_entries_0_31();
    encoding_entries_32_63();
    encoding_entries_64_95();
    encoding_entries_96_127();
    encoding_entries_128_159();
    encoding_entries_160_191();
    encoding_entries_192_223();
    encoding_entries_224_255();
}

} // verus!
