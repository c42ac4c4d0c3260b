//! What a token must look like to stand for a value of a built-in type,
//! and the conversions that std performs.
use vstd::prelude::*;

verus! {

/// An ASCII decimal digit.
pub open spec fn is_digit(c: char) -> bool {
    '0' <= c && c <= '9'
}

/// The value of a decimal digit.
pub open spec fn digit_value(c: char) -> int {
    c as int - '0' as int
}

/// The value of a run of decimal digits, most significant first.
pub open spec fn digits_value(t: Seq<char>) -> int
    decreases t.len(),
{
    if t.len() == 0 {
        0
    } else {
        10 * digits_value(t.drop_last()) + digit_value(t.last())
    }
}

/// The value of `t` where it is a non-empty run of decimal digits.
pub open spec fn decimal(t: Seq<char>) -> Option<int> {
    if t.len() > 0 && forall|i: int| 0 <= i < t.len() ==> is_digit(#[trigger] t[i]) {
        Some(digits_value(t))
    } else {
        None
    }
}

/// The value of `t` where it is an optional `+` followed by decimal digits.
pub open spec fn unsigned_decimal(t: Seq<char>) -> Option<int> {
    if t.len() > 0 && t[0] == '+' {
        decimal(t.drop_first())
    } else {
        decimal(t)
    }
}

/// The value of `t` where it is an optional `+` or `-` followed by decimal
/// digits.
pub open spec fn signed_decimal(t: Seq<char>) -> Option<int> {
    if t.len() > 0 && t[0] == '-' {
        match decimal(t.drop_first()) {
            Some(n) => Some(-n),
            None => None,
        }
    } else {
        unsigned_decimal(t)
    }
}

/// `v` where it is a value between `lo` and `hi`.
pub open spec fn within(v: Option<int>, lo: int, hi: int) -> Option<int> {
    match v {
        Some(n) => if lo <= n && n <= hi {
            Some(n)
        } else {
            None
        },
        None => None,
    }
}

/// The `bool` that `t` spells.
pub open spec fn bool_of(t: Seq<char>) -> Option<bool> {
    if t == seq!['t', 'r', 'u', 'e'] {
        Some(true)
    } else if t == seq!['f', 'a', 'l', 's', 'e'] {
        Some(false)
    } else {
        None
    }
}

/// The one character of `t`.
pub open spec fn char_of(t: Seq<char>) -> Option<char> {
    if t.len() == 1 {
        Some(t[0])
    } else {
        None
    }
}

/// The value that a conversion to an integer type between `lo` and `hi`
/// gives for `t`.
pub open spec fn integer_of(t: Seq<char>, signed: bool, lo: int, hi: int) -> Option<int> {
    within(if signed { signed_decimal(t) } else { unsigned_decimal(t) }, lo, hi)
}

/// Relies on `<u16 as FromStr>::from_str`: an optional `+` and decimal digits
/// whose value fits the type.
#[verifier::external_body]
pub(crate) fn parse_u16(t: &str) -> (r: Option<u16>)
    ensures
        match r {
            Some(v) => integer_of(t@, false, u16::MIN as int, u16::MAX as int) == Some(v as int),
            None => integer_of(t@, false, u16::MIN as int, u16::MAX as int) is None,
        },
{
    t.parse::<u16>().ok()
}

/// Relies on `<u32 as FromStr>::from_str`: an optional `+` and decimal digits
/// whose value fits the type.
#[verifier::external_body]
pub(crate) fn parse_u32(t: &str) -> (r: Option<u32>)
    ensures
        match r {
            Some(v) => integer_of(t@, false, u32::MIN as int, u32::MAX as int) == Some(v as int),
            None => integer_of(t@, false, u32::MIN as int, u32::MAX as int) is None,
        },
{
    t.parse::<u32>().ok()
}

/// Relies on `<u64 as FromStr>::from_str`: an optional `+` and decimal digits
/// whose value fits the type.
#[verifier::external_body]
pub(crate) fn parse_u64(t: &str) -> (r: Option<u64>)
    ensures
        match r {
            Some(v) => integer_of(t@, false, u64::MIN as int, u64::MAX as int) == Some(v as int),
            None => integer_of(t@, false, u64::MIN as int, u64::MAX as int) is None,
        },
{
    t.parse::<u64>().ok()
}

/// Relies on `<u128 as FromStr>::from_str`: an optional `+` and decimal digits
/// whose value fits the type.
#[verifier::external_body]
pub(crate) fn parse_u128(t: &str) -> (r: Option<u128>)
    ensures
        match r {
            Some(v) => integer_of(t@, false, u128::MIN as int, u128::MAX as int) == Some(v as int),
            None => integer_of(t@, false, u128::MIN as int, u128::MAX as int) is None,
        },
{
    t.parse::<u128>().ok()
}

/// Relies on `<usize as FromStr>::from_str`: an optional `+` and decimal digits
/// whose value fits the type.
#[verifier::external_body]
pub(crate) fn parse_usize(t: &str) -> (r: Option<usize>)
    ensures
        match r {
            Some(v) => integer_of(t@, false, usize::MIN as int, usize::MAX as int)
                == Some(v as int),
            None => integer_of(t@, false, usize::MIN as int, usize::MAX as int) is None,
        },
{
    t.parse::<usize>().ok()
}

/// Relies on `<i8 as FromStr>::from_str`: an optional `+` or `-` and decimal digits
/// whose value fits the type.
#[verifier::external_body]
pub(crate) fn parse_i8(t: &str) -> (r: Option<i8>)
    ensures
        match r {
            Some(v) => integer_of(t@, true, i8::MIN as int, i8::MAX as int) == Some(v as int),
            None => integer_of(t@, true, i8::MIN as int, i8::MAX as int) is None,
        },
{
    t.parse::<i8>().ok()
}

/// Relies on `<i16 as FromStr>::from_str`: an optional `+` or `-` and decimal digits
/// whose value fits the type.
#[verifier::external_body]
pub(crate) fn parse_i16(t: &str) -> (r: Option<i16>)
    ensures
        match r {
            Some(v) => integer_of(t@, true, i16::MIN as int, i16::MAX as int) == Some(v as int),
            None => integer_of(t@, true, i16::MIN as int, i16::MAX as int) is None,
        },
{
    t.parse::<i16>().ok()
}

/// Relies on `<i32 as FromStr>::from_str`: an optional `+` or `-` and decimal digits
/// whose value fits the type.
#[verifier::external_body]
pub(crate) fn parse_i32(t: &str) -> (r: Option<i32>)
    ensures
        match r {
            Some(v) => integer_of(t@, true, i32::MIN as int, i32::MAX as int) == Some(v as int),
            None => integer_of(t@, true, i32::MIN as int, i32::MAX as int) is None,
        },
{
    t.parse::<i32>().ok()
}

/// Relies on `<i64 as FromStr>::from_str`: an optional `+` or `-` and decimal digits
/// whose value fits the type.
#[verifier::external_body]
pub(crate) fn parse_i64(t: &str) -> (r: Option<i64>)
    ensures
        match r {
            Some(v) => integer_of(t@, true, i64::MIN as int, i64::MAX as int) == Some(v as int),
            None => integer_of(t@, true, i64::MIN as int, i64::MAX as int) is None,
        },
{
    t.parse::<i64>().ok()
}

/// Relies on `<i128 as FromStr>::from_str`: an optional `+` or `-` and decimal digits
/// whose value fits the type.
#[verifier::external_body]
pub(crate) fn parse_i128(t: &str) -> (r: Option<i128>)
    ensures
        match r {
            Some(v) => integer_of(t@, true, i128::MIN as int, i128::MAX as int) == Some(v as int),
            None => integer_of(t@, true, i128::MIN as int, i128::MAX as int) is None,
        },
{
    t.parse::<i128>().ok()
}

/// Relies on `<isize as FromStr>::from_str`: an optional `+` or `-` and decimal digits
/// whose value fits the type.
#[verifier::external_body]
pub(crate) fn parse_isize(t: &str) -> (r: Option<isize>)
    ensures
        match r {
            Some(v) => integer_of(t@, true, isize::MIN as int, isize::MAX as int) == Some(v as int),
            None => integer_of(t@, true, isize::MIN as int, isize::MAX as int) is None,
        },
{
    t.parse::<isize>().ok()
}

/// Relies on `<bool as FromStr>::from_str`: exactly `true` or `false`.
#[verifier::external_body]
pub(crate) fn parse_bool(t: &str) -> (r: Option<bool>)
    ensures
        r == bool_of(t@),
{
    t.parse::<bool>().ok()
}

/// Relies on `<char as FromStr>::from_str`: exactly one character.
#[verifier::external_body]
pub(crate) fn parse_char(t: &str) -> (r: Option<char>)
    ensures
        r == char_of(t@),
{
    t.parse::<char>().ok()
}

} // verus!
