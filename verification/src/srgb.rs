//! Lookup tables between sRGB-encoded and linear-light channel values.
//!
//! A channel value is an integer from 0 to 255 that stands for the fraction
//! `c / 255`. The decoding curve sends an encoded fraction `x` to `x / 12.92`
//! where `x <= 12.92 * 0.0031308`, and to `((x + 0.055) / 1.055)^2.4` above
//! that. The encoding curve is its inverse: `12.92 * x` where
//! `x <= 0.0031308`, and `1.055 * x^(1 / 2.4) - 0.055` above that. Each table
//! holds, for every channel value, the nearest channel value to the curve's
//! result, halves rounded up.

use vstd::prelude::*;

verus! {

/// From an sRGB-encoded channel value to the linear-light one.
pub const LINEARIZE: [u8; 256] = [
    0, 0, 0, 0, 0, 0, 0, 1, 1, 1, 1, 1, 1, 1, 1, 1,
    1, 1, 2, 2, 2, 2, 2, 2, 2, 2, 3, 3, 3, 3, 3, 3,
    4, 4, 4, 4, 4, 5, 5, 5, 5, 6, 6, 6, 6, 7, 7, 7,
    8, 8, 8, 8, 9, 9, 9, 10, 10, 10, 11, 11, 12, 12, 12, 13,
    13, 13, 14, 14, 15, 15, 16, 16, 17, 17, 17, 18, 18, 19, 19, 20,
    20, 21, 22, 22, 23, 23, 24, 24, 25, 25, 26, 27, 27, 28, 29, 29,
    30, 30, 31, 32, 32, 33, 34, 35, 35, 36, 37, 37, 38, 39, 40, 41,
    41, 42, 43, 44, 45, 45, 46, 47, 48, 49, 50, 51, 51, 52, 53, 54,
    55, 56, 57, 58, 59, 60, 61, 62, 63, 64, 65, 66, 67, 68, 69, 70,
    71, 72, 73, 74, 76, 77, 78, 79, 80, 81, 82, 84, 85, 86, 87, 88,
    90, 91, 92, 93, 95, 96, 97, 99, 100, 101, 103, 104, 105, 107, 108, 109,
    111, 112, 114, 115, 116, 118, 119, 121, 122, 124, 125, 127, 128, 130, 131, 133,
    134, 136, 138, 139, 141, 142, 144, 146, 147, 149, 151, 152, 154, 156, 157, 159,
    161, 163, 164, 166, 168, 170, 171, 173, 175, 177, 179, 181, 183, 184, 186, 188,
    190, 192, 194, 196, 198, 200, 202, 204, 206, 208, 210, 212, 214, 216, 218, 220,
    222, 224, 226, 229, 231, 233, 235, 237, 239, 242, 244, 246, 248, 250, 253, 255,
];

/// From a linear-light channel value to the sRGB-encoded one.
pub const UNLINEARIZE: [u8; 256] = [
    0, 13, 22, 28, 34, 38, 42, 46, 50, 53, 56, 59, 61, 64, 66, 69,
    71, 73, 75, 77, 79, 81, 83, 85, 86, 88, 90, 92, 93, 95, 96, 98,
    99, 101, 102, 104, 105, 106, 108, 109, 110, 112, 113, 114, 115, 117, 118, 119,
    120, 121, 122, 124, 125, 126, 127, 128, 129, 130, 131, 132, 133, 134, 135, 136,
    137, 138, 139, 140, 141, 142, 143, 144, 145, 146, 147, 148, 148, 149, 150, 151,
    152, 153, 154, 155, 155, 156, 157, 158, 159, 159, 160, 161, 162, 163, 163, 164,
    165, 166, 167, 167, 168, 169, 170, 170, 171, 172, 173, 173, 174, 175, 175, 176,
    177, 178, 178, 179, 180, 180, 181, 182, 182, 183, 184, 185, 185, 186, 187, 187,
    188, 189, 189, 190, 190, 191, 192, 192, 193, 194, 194, 195, 196, 196, 197, 197,
    198, 199, 199, 200, 200, 201, 202, 202, 203, 203, 204, 205, 205, 206, 206, 207,
    208, 208, 209, 209, 210, 210, 211, 212, 212, 213, 213, 214, 214, 215, 215, 216,
    216, 217, 218, 218, 219, 219, 220, 220, 221, 221, 222, 222, 223, 223, 224, 224,
    225, 226, 226, 227, 227, 228, 228, 229, 229, 230, 230, 231, 231, 232, 232, 233,
    233, 234, 234, 235, 235, 236, 236, 237, 237, 238, 238, 238, 239, 239, 240, 240,
    241, 241, 242, 242, 243, 243, 244, 244, 245, 245, 246, 246, 246, 247, 247, 248,
    248, 249, 249, 250, 250, 251, 251, 251, 252, 252, 253, 253, 254, 254, 255, 255,
];

/// The linear-light value of the sRGB-encoded channel value `c`.
pub open spec fn linearized(c: u8) -> u8 {
    LINEARIZE[c as int]
}

/// The sRGB-encoded value of the linear-light channel value `c`.
pub open spec fn unlinearized(c: u8) -> u8 {
    UNLINEARIZE[c as int]
}

/// Whether two channel values differ by at most one step.
pub open spec fn within_one(a: u8, b: u8) -> bool {
    a - b <= 1 && b - a <= 1
}

/// The encoded values that decoding and encoding again moves by more than
/// one step. They lie in the dark end, where the decoded table is coarse:
/// up to eleven encoded values share one linear-light value there.
pub open spec fn coarse_when_decoded(c: u8) -> bool {
    ||| 2 <= c <= 11
    ||| 15 <= c <= 20
    ||| 24 <= c <= 26
    ||| 30 <= c <= 32
    ||| c == 36
    ||| c == 40
    ||| c == 44
    ||| c == 48
}

pub fn linearize(c: u8) -> (r: u8)
    ensures
        r == linearized(c),
{
    LINEARIZE[c as usize]
}

pub fn unlinearize(c: u8) -> (r: u8)
    ensures
        r == unlinearized(c),
{
    UNLINEARIZE[c as usize]
}

/// Both tables keep black and white where they are.
pub proof fn lemma_tables_fix_endpoints()
    ensures
        linearized(0) == 0,
        linearized(255) == 255,
        unlinearized(0) == 0,
        unlinearized(255) == 255,
{
}

/// Both tables keep the order of channel values.
pub proof fn lemma_tables_monotonic(c: u8, d: u8)
    requires
        c <= d,
    ensures
        linearized(c) <= linearized(d),
        unlinearized(c) <= unlinearized(d),
{
}

/// Decoding never brightens a channel and encoding never darkens one.
pub proof fn lemma_decoding_darkens(c: u8)
    ensures
        linearized(c) <= c,
        c <= unlinearized(c),
{
}

/// Encoding a linear-light value and decoding it again gives a value within
/// one step of the value encoded, for every channel value.
pub proof fn lemma_encode_then_decode(c: u8)
    ensures
        within_one(linearized(unlinearized(c)), c),
{
}

/// Decoding an encoded value and encoding it again gives a value within one
/// step of the value decoded, wherever the decoded table is not coarse.
pub proof fn lemma_decode_then_encode(c: u8)
    requires
        !coarse_when_decoded(c),
    ensures
        within_one(unlinearized(linearized(c)), c),
{
}

/// Where the decoded table is coarse, decoding and encoding again moves the
/// value by more than one step.
pub proof fn lemma_coarse_values_move(c: u8)
    requires
        coarse_when_decoded(c),
    ensures
        !within_one(unlinearized(linearized(c)), c),
{
}

} // verus!
