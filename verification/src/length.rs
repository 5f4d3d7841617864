//! The grammar of a length attribute: a decimal number and an optional unit.
//!
//! A length is, in this order: an optional sign; digits of the integer part;
//! optionally a point and digits of the fraction; optionally an exponent, the
//! letter `e` or `E` with an optional sign and at least one digit; and
//! optionally a unit. The integer part and the fraction hold at least one
//! digit between them. Each run of digits is the longest that can be read.
//! The letter `e` starts an exponent only where a digit, or a sign and a
//! digit, follows it, so that `1em` and `1ex` carry a unit.
//!
//! The number is kept as the digits it was written with. No value is computed
//! from them here.

use crate::error::{Attribute, ParseError};
use vstd::prelude::*;

verus! {

// The ASCII codes that the grammar names.
pub const DIGIT_ZERO: u8 = 48;
pub const DIGIT_NINE: u8 = 57;
pub const PLUS: u8 = 43;
pub const MINUS: u8 = 45;
pub const POINT: u8 = 46;
pub const PERCENT: u8 = 37;
pub const LOWER_E: u8 = 101;
pub const UPPER_E: u8 = 69;
pub const LOWER_P: u8 = 112;
pub const LOWER_X: u8 = 120;
pub const LOWER_M: u8 = 109;
pub const LOWER_I: u8 = 105;
pub const LOWER_N: u8 = 110;
pub const LOWER_C: u8 = 99;
pub const LOWER_T: u8 = 116;

/// The unit that a length is written with.
#[derive(Clone, Copy, Debug, PartialEq, Eq, Structural)]
pub enum LengthUnit {
    /// No unit: user units.
    Default,
    Px,
    Em,
    Ex,
    In,
    Cm,
    Mm,
    Pt,
    Pc,
    Percent,
}

/// A length as it was written. The digit sequences hold ASCII digits.
#[derive(Debug, PartialEq, Eq)]
pub struct Length {
    pub negative: bool,
    pub integer: Vec<u8>,
    pub fraction: Vec<u8>,
    pub exponent_negative: bool,
    pub exponent: Vec<u8>,
    pub unit: LengthUnit,
}

/// A length with its digits as sequences.
pub struct LengthView {
    pub negative: bool,
    pub integer: Seq<u8>,
    pub fraction: Seq<u8>,
    pub exponent_negative: bool,
    pub exponent: Seq<u8>,
    pub unit: LengthUnit,
}

impl View for Length {
    type V = LengthView;

    open spec fn view(&self) -> LengthView {
        LengthView {
            negative: self.negative,
            integer: self.integer@,
            fraction: self.fraction@,
            exponent_negative: self.exponent_negative,
            exponent: self.exponent@,
            unit: self.unit,
        }
    }
}

pub open spec fn is_digit(b: u8) -> bool {
    DIGIT_ZERO <= b <= DIGIT_NINE
}

pub open spec fn is_sign(b: u8) -> bool {
    b == PLUS || b == MINUS
}

/// The end of the longest run of digits of `s` that starts at `from`.
pub open spec fn digits_end(s: Seq<u8>, from: int) -> int
    decreases s.len() - from,
{
    if 0 <= from < s.len() && is_digit(s[from]) {
        digits_end(s, from + 1)
    } else {
        from
    }
}

/// Whether an exponent starts at `at`.
pub open spec fn exponent_starts(s: Seq<u8>, at: int) -> bool {
    &&& 0 <= at < s.len()
    &&& (s[at] == LOWER_E || s[at] == UPPER_E)
    &&& {
        ||| at + 1 < s.len() && is_digit(s[at + 1])
        ||| at + 2 < s.len() && is_sign(s[at + 1]) && is_digit(s[at + 2])
    }
}

/// The unit that `text` spells, if it spells one. Units are lower case.
pub open spec fn unit_of(text: Seq<u8>) -> Option<LengthUnit> {
    if text.len() == 0 {
        Some(LengthUnit::Default)
    } else if text.len() == 1 && text[0] == PERCENT {
        Some(LengthUnit::Percent)
    } else if text.len() == 2 {
        if text[0] == LOWER_P && text[1] == LOWER_X {
            Some(LengthUnit::Px)
        } else if text[0] == LOWER_E && text[1] == LOWER_M {
            Some(LengthUnit::Em)
        } else if text[0] == LOWER_E && text[1] == LOWER_X {
            Some(LengthUnit::Ex)
        } else if text[0] == LOWER_I && text[1] == LOWER_N {
            Some(LengthUnit::In)
        } else if text[0] == LOWER_C && text[1] == LOWER_M {
            Some(LengthUnit::Cm)
        } else if text[0] == LOWER_M && text[1] == LOWER_M {
            Some(LengthUnit::Mm)
        } else if text[0] == LOWER_P && text[1] == LOWER_T {
            Some(LengthUnit::Pt)
        } else if text[0] == LOWER_P && text[1] == LOWER_C {
            Some(LengthUnit::Pc)
        } else {
            None
        }
    } else {
        None
    }
}

/// Where the parts of a length lie in `s`, read from the left.
pub struct LengthLayout {
    /// Start of the integer digits: 1 after a sign, else 0.
    pub integer_start: int,
    pub integer_end: int,
    /// Start of the fraction digits: after the point, if there is one.
    pub fraction_start: int,
    pub fraction_end: int,
    /// Start of the exponent digits, after the letter and its sign.
    pub exponent_start: int,
    /// End of the number, where the unit starts.
    pub exponent_end: int,
}

pub open spec fn layout_of(s: Seq<u8>) -> LengthLayout {
    let integer_start: int = if s.len() > 0 && is_sign(s[0]) {
        1
    } else {
        0
    };
    let integer_end = digits_end(s, integer_start);
    let pointed = integer_end < s.len() && s[integer_end] == POINT;
    let fraction_start = if pointed {
        integer_end + 1
    } else {
        integer_end
    };
    let fraction_end = digits_end(s, fraction_start);
    let exponent_start = if exponent_starts(s, fraction_end) {
        if is_sign(s[fraction_end + 1]) {
            fraction_end + 2
        } else {
            fraction_end + 1
        }
    } else {
        fraction_end
    };
    let exponent_end = digits_end(s, exponent_start);
    LengthLayout {
        integer_start,
        integer_end,
        fraction_start,
        fraction_end,
        exponent_start,
        exponent_end,
    }
}

/// The length that the bytes `s` spell, if they spell one.
pub open spec fn length_of(s: Seq<u8>) -> Option<LengthView> {
    let l = layout_of(s);
    if l.integer_end - l.integer_start + l.fraction_end - l.fraction_start == 0 {
        None
    } else {
        match unit_of(s.subrange(l.exponent_end, s.len() as int)) {
            None => None,
            Some(unit) => Some(
                LengthView {
                    negative: s[0] == MINUS,
                    integer: s.subrange(l.integer_start, l.integer_end),
                    fraction: s.subrange(l.fraction_start, l.fraction_end),
                    exponent_negative: l.exponent_start == l.fraction_end + 2 && s[l.fraction_end
                        + 1] == MINUS,
                    exponent: s.subrange(l.exponent_start, l.exponent_end),
                    unit,
                },
            ),
        }
    }
}

/// The length that the characters `s` spell, if they spell one.
pub open spec fn length_of_text(s: Seq<char>) -> Option<LengthView> {
    length_of(vstd::utf8::encode_utf8(s))
}

/// Whether some digit of `digits` is not `0`.
pub open spec fn has_nonzero(digits: Seq<u8>) -> bool {
    exists|i: int| 0 <= i < digits.len() && digits[i] != DIGIT_ZERO
}

/// Whether a length is below zero: written with a minus sign and with a
/// digit other than `0` before the exponent.
pub open spec fn below_zero(v: LengthView) -> bool {
    v.negative && (has_nonzero(v.integer) || has_nonzero(v.fraction))
}

/// A run of digits ends inside the text, holds digits only, and stops at
/// the first byte that is no digit.
pub proof fn lemma_digits_end_bounds(s: Seq<u8>, from: int)
    requires
        0 <= from <= s.len(),
    ensures
        from <= digits_end(s, from) <= s.len(),
        forall|i: int| from <= i < digits_end(s, from) ==> is_digit(s[i]),
        digits_end(s, from) < s.len() ==> !is_digit(s[digits_end(s, from)]),
    decreases s.len() - from,
{
    if from < s.len() && is_digit(s[from]) {
        lemma_digits_end_bounds(s, from + 1);
    }
}

fn digit(b: u8) -> (r: bool)
    ensures
        r == is_digit(b),
{
    DIGIT_ZERO <= b && b <= DIGIT_NINE
}

fn sign(b: u8) -> (r: bool)
    ensures
        r == is_sign(b),
{
    b == PLUS || b == MINUS
}

/// The end of the longest run of digits that starts at `from`.
fn scan_digits(s: &[u8], from: usize) -> (end: usize)
    requires
        from <= s@.len(),
    ensures
        end == digits_end(s@, from as int),
        from <= end <= s@.len(),
{
    let mut i = from;
    while i < s.len() && digit(s[i])
        invariant
            from <= i <= s@.len(),
            digits_end(s@, from as int) == digits_end(s@, i as int),
        decreases s@.len() - i,
    {
        i += 1;
    }
    i
}

/// A copy of the bytes of `s` from `from` up to `to`.
fn copy_range(s: &[u8], from: usize, to: usize) -> (v: Vec<u8>)
    requires
        from <= to <= s@.len(),
    ensures
        v@ == s@.subrange(from as int, to as int),
{
    let mut v: Vec<u8> = Vec::new();
    let mut i = from;
    while i < to
        invariant
            from <= i <= to <= s@.len(),
            v@ == s@.subrange(from as int, i as int),
        decreases to - i,
    {
        v.push(s[i]);
        assert(v@ =~= s@.subrange(from as int, i + 1));
        i += 1;
    }
    v
}

/// The unit that the bytes of `s` from `from` on spell.
fn scan_unit(s: &[u8], from: usize) -> (r: Option<LengthUnit>)
    requires
        from <= s@.len(),
    ensures
        r == unit_of(s@.subrange(from as int, s@.len() as int)),
{
    let ghost text = s@.subrange(from as int, s@.len() as int);
    let n = s.len() - from;
    if n == 0 {
        Some(LengthUnit::Default)
    } else if n == 1 {
        assert(text[0] == s@[from as int]);
        if s[from] == PERCENT {
            Some(LengthUnit::Percent)
        } else {
            None
        }
    } else if n == 2 {
        assert(text[0] == s@[from as int]);
        assert(text[1] == s@[from + 1]);
        let a = s[from];
        let b = s[from + 1];
        if a == LOWER_P && b == LOWER_X {
            Some(LengthUnit::Px)
        } else if a == LOWER_E && b == LOWER_M {
            Some(LengthUnit::Em)
        } else if a == LOWER_E && b == LOWER_X {
            Some(LengthUnit::Ex)
        } else if a == LOWER_I && b == LOWER_N {
            Some(LengthUnit::In)
        } else if a == LOWER_C && b == LOWER_M {
            Some(LengthUnit::Cm)
        } else if a == LOWER_M && b == LOWER_M {
            Some(LengthUnit::Mm)
        } else if a == LOWER_P && b == LOWER_T {
            Some(LengthUnit::Pt)
        } else if a == LOWER_P && b == LOWER_C {
            Some(LengthUnit::Pc)
        } else {
            None
        }
    } else {
        None
    }
}

/// Whether some byte of `digits` is not `0`.
fn any_nonzero(digits: &Vec<u8>) -> (r: bool)
    ensures
        r == has_nonzero(digits@),
{
    let mut i: usize = 0;
    while i < digits.len()
        invariant
            i <= digits@.len(),
            forall|j: int| 0 <= j < i ==> digits@[j] == DIGIT_ZERO,
        decreases digits@.len() - i,
    {
        if digits[i] != DIGIT_ZERO {
            return true;
        }
        i += 1;
    }
    false
}

/// Where the parts of a length lie in a byte slice.
struct Layout {
    integer_start: usize,
    integer_end: usize,
    fraction_start: usize,
    fraction_end: usize,
    exponent_start: usize,
    exponent_end: usize,
}

impl Layout {
    spec fn matches(&self, l: LengthLayout) -> bool {
        &&& self.integer_start == l.integer_start
        &&& self.integer_end == l.integer_end
        &&& self.fraction_start == l.fraction_start
        &&& self.fraction_end == l.fraction_end
        &&& self.exponent_start == l.exponent_start
        &&& self.exponent_end == l.exponent_end
    }
}

/// Whether an exponent starts at `at`.
fn exponent_at(s: &[u8], at: usize) -> (r: bool)
    requires
        at <= s@.len(),
    ensures
        r == exponent_starts(s@, at as int),
{
    let left = s.len() - at;
    if left >= 2 && (s[at] == LOWER_E || s[at] == UPPER_E) {
        digit(s[at + 1]) || (left >= 3 && sign(s[at + 1]) && digit(s[at + 2]))
    } else {
        false
    }
}

fn scan_layout(s: &[u8]) -> (l: Layout)
    ensures
        l.matches(layout_of(s@)),
        l.integer_start <= l.integer_end <= l.fraction_start <= l.fraction_end
            <= l.exponent_start <= l.exponent_end <= s@.len(),
{
    let n = s.len();
    let integer_start: usize = if n > 0 && sign(s[0]) {
        1
    } else {
        0
    };
    let integer_end = scan_digits(s, integer_start);
    let fraction_start = if integer_end < n && s[integer_end] == POINT {
        integer_end + 1
    } else {
        integer_end
    };
    let fraction_end = scan_digits(s, fraction_start);
    let exponent_start = if exponent_at(s, fraction_end) {
        if sign(s[fraction_end + 1]) {
            fraction_end + 2
        } else {
            fraction_end + 1
        }
    } else {
        fraction_end
    };
    let exponent_end = scan_digits(s, exponent_start);
    Layout {
        integer_start,
        integer_end,
        fraction_start,
        fraction_end,
        exponent_start,
        exponent_end,
    }
}

impl Length {
    /// Parses the bytes of a length attribute.
    pub fn parse_bytes(attr: Attribute, s: &[u8]) -> (r: Result<Length, ParseError>)
        ensures
            match length_of(s@) {
                Some(v) => r is Ok && r->Ok_0@ == v,
                None => r == Err::<Length, ParseError>(ParseError { attribute: attr }),
            },
    {
        let l = scan_layout(s);
        if (l.integer_end - l.integer_start) + (l.fraction_end - l.fraction_start) == 0 {
            return Err(ParseError::new(attr));
        }
        match scan_unit(s, l.exponent_end) {
            None => Err(ParseError::new(attr)),
            Some(unit) => Ok(
                Length {
                    negative: s[0] == MINUS,
                    integer: copy_range(s, l.integer_start, l.integer_end),
                    fraction: copy_range(s, l.fraction_start, l.fraction_end),
                    exponent_negative: l.exponent_start - l.fraction_end == 2 && s[l.fraction_end
                        + 1] == MINUS,
                    exponent: copy_range(s, l.exponent_start, l.exponent_end),
                    unit,
                },
            ),
        }
    }

    /// Parses the value of a length attribute.
    pub fn parse(attr: Attribute, s: &str) -> (r: Result<Length, ParseError>)
        ensures
            match length_of_text(s@) {
                Some(v) => r is Ok && r->Ok_0@ == v,
                None => r == Err::<Length, ParseError>(ParseError { attribute: attr }),
            },
    {
        Self::parse_bytes(attr, s.as_bytes())
    }

    /// Whether this length is below zero.
    pub fn is_below_zero(&self) -> (r: bool)
        ensures
            r == below_zero(self@),
    {
        self.negative && (any_nonzero(&self.integer) || any_nonzero(&self.fraction))
    }
}

} // verus!
