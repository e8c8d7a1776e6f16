//! Whole numbers as decimal text.
use vstd::prelude::*;

verus! {

/// Whether `c` is one of the ten ASCII digits.
pub open spec fn is_digit(c: char) -> bool {
    '0' <= c <= '9'
}

/// The number that a row of digits stands for.
pub open spec fn digits_value(s: Seq<char>) -> int
    decreases s.len(),
{
    if s.len() == 0 {
        0
    } else {
        digits_value(s.drop_last()) * 10 + (s.last() as int - '0' as int)
    }
}

/// Whether `s` is a non-empty row of digits.
pub open spec fn is_digits(s: Seq<char>) -> bool {
    s.len() > 0 && forall|i: int| 0 <= i < s.len() ==> is_digit(#[trigger] s[i])
}

/// The integer that `s` writes: digits, with at most one sign before them.
pub open spec fn integer_value(s: Seq<char>) -> Option<int> {
    if is_digits(s) {
        Some(digits_value(s))
    } else if s.len() > 0 && s[0] == '+' && is_digits(s.skip(1)) {
        Some(digits_value(s.skip(1)))
    } else if s.len() > 0 && s[0] == '-' && is_digits(s.skip(1)) {
        Some(-digits_value(s.skip(1)))
    } else {
        None
    }
}

/// The `i64` that `s` writes, where it writes one.
pub open spec fn i64_value(s: Seq<char>) -> Option<i64> {
    match integer_value(s) {
        Some(v) => if i64::MIN <= v <= i64::MAX {
            Some(v as i64)
        } else {
            None
        },
        None => None,
    }
}

/// Calls `str::parse::<i64>`.
///
/// Believed of it: it accepts exactly a non-empty row of ASCII digits with at most
/// one `+` or `-` before it whose value an `i64` can hold, and returns that value.
#[verifier::external_body]
pub(crate) fn parse_i64(s: &str) -> (value: Option<i64>)
    ensures
        value == i64_value(s@),
{
    s.parse::<i64>().ok()
}

/// The `u32` that `s` writes, where it writes one: digits, with at most one `+` before
/// them.
pub open spec fn u32_value(s: Seq<char>) -> Option<u32> {
    let digits = if s.len() > 0 && s[0] == '+' {
        s.skip(1)
    } else {
        s
    };
    if is_digits(digits) && digits_value(digits) <= u32::MAX {
        Some(digits_value(digits) as u32)
    } else {
        None
    }
}

/// `std::num::ParseIntError`: why a text is no number.
#[verifier::external_type_specification]
#[verifier::external_body]
pub struct ExParseIntError(std::num::ParseIntError);

/// Why `s` is no `u32`, where it is none.
pub uninterp spec fn u32_parse_error(s: Seq<char>) -> std::num::ParseIntError;

/// Calls `str::parse::<u32>`.
///
/// Believed of it: it accepts exactly a non-empty row of ASCII digits with at most
/// one `+` before it whose value a `u32` can hold, and returns that value. The error that
/// it gives for any other text depends on the text alone.
#[verifier::external_body]
pub(crate) fn parse_u32(s: &str) -> (value: Result<u32, std::num::ParseIntError>)
    ensures
        match u32_value(s@) {
            Some(v) => value == Ok::<u32, std::num::ParseIntError>(v),
            None => value == Err::<u32, std::num::ParseIntError>(u32_parse_error(s@)),
        },
{
    s.parse::<u32>()
}

/// The digit that stands for `d`.
pub open spec fn digit(d: nat) -> char {
    ('0' as nat + d) as char
}

/// `n` in decimal, without leading zeros.
pub open spec fn decimal(n: nat) -> Seq<char>
    decreases n,
{
    if n < 10 {
        seq![digit(n)]
    } else {
        decimal(n / 10).push(digit(n % 10))
    }
}

/// Calls `u32::to_string`.
///
/// Believed of it: the result is the number in decimal, without leading zeros.
#[verifier::external_body]
pub(crate) fn u32_to_string(n: u32) -> (text: String)
    ensures
        text@ == decimal(n as nat),
{
    n.to_string()
}

/// The texts of `parts`, with `,` between each two.
pub open spec fn comma_list(parts: Seq<u32>) -> Seq<char>
    decreases parts.len(),
{
    if parts.len() == 0 {
        Seq::empty()
    } else if parts.len() == 1 {
        decimal(parts[0] as nat)
    } else {
        comma_list(parts.drop_last()) + ","@ + decimal(parts.last() as nat)
    }
}

/// Writes numbers in decimal, with `,` between each two.
pub fn join_numbers(parts: &Vec<u32>) -> (text: String)
    ensures
        text@ == comma_list(parts@),
{
    let mut text = String::new();
    for i in 0..parts.len()
        invariant
            text@ == comma_list(parts@.take(i as int)),
    {
        assert(parts@.take(i + 1).drop_last() == parts@.take(i as int));
        if i > 0 {
            text.append(",");
        }
        text.append(u32_to_string(parts[i]).as_str());
    }
    assert(parts@.take(parts@.len() as int) == parts@);
    text
}

} // verus!
