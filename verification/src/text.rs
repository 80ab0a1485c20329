//! Text operations and their meaning over sequences of characters.
//!
//! The spec functions here say what the standard string operations used by
//! the gateway compute; the executable functions are thin calls into `std`
//! whose contracts are taken on trust from the standard library's
//! documentation.

use vstd::prelude::*;

verus! {

/// Whether `c` has the Unicode `White_Space` property.
pub open spec fn is_whitespace(c: char) -> bool {
    let n = c as u32;
    ||| 0x09 <= n <= 0x0D
    ||| n == 0x20
    ||| n == 0x85
    ||| n == 0xA0
    ||| n == 0x1680
    ||| 0x2000 <= n <= 0x200A
    ||| n == 0x2028
    ||| n == 0x2029
    ||| n == 0x202F
    ||| n == 0x205F
    ||| n == 0x3000
}

/// `s` without its leading whitespace.
pub open spec fn trim_start(s: Seq<char>) -> Seq<char>
    decreases s.len(),
{
    if s.len() > 0 && is_whitespace(s.first()) {
        trim_start(s.drop_first())
    } else {
        s
    }
}

/// `s` without its trailing whitespace.
pub open spec fn trim_end(s: Seq<char>) -> Seq<char>
    decreases s.len(),
{
    if s.len() > 0 && is_whitespace(s.last()) {
        trim_end(s.drop_last())
    } else {
        s
    }
}

/// `s` without leading and trailing whitespace.
pub open spec fn trimmed(s: Seq<char>) -> Seq<char> {
    trim_end(trim_start(s))
}

/// `s` without any trailing occurrences of `c`.
pub open spec fn trim_end_char(s: Seq<char>, c: char) -> Seq<char>
    decreases s.len(),
{
    if s.len() > 0 && s.last() == c {
        trim_end_char(s.drop_last(), c)
    } else {
        s
    }
}

/// The ASCII lower-case form of `c`; characters outside `A..=Z` are unchanged.
pub open spec fn ascii_lower(c: char) -> char {
    if 'A' <= c <= 'Z' {
        ((c as u8) + 32) as char
    } else {
        c
    }
}

/// `s` with every ASCII upper-case letter replaced by its lower-case form.
pub open spec fn lowercased(s: Seq<char>) -> Seq<char> {
    Seq::new(s.len(), |i: int| ascii_lower(s[i]))
}

/// Whether `pattern` occurs in `s` as a contiguous run of characters.
pub open spec fn contains_text(s: Seq<char>, pattern: Seq<char>) -> bool {
    exists|i: int|
        0 <= i <= s.len() - pattern.len() && #[trigger] s.subrange(i, i + pattern.len())
            == pattern
}

/// Whether `c` is one of the ASCII digits `0..=9`.
pub open spec fn is_digit(c: char) -> bool {
    '0' <= c <= '9'
}

/// The number that a run of ASCII digits denotes in base ten.
pub open spec fn digits_value(s: Seq<char>) -> nat
    decreases s.len(),
{
    if s.len() == 0 {
        0
    } else {
        (digits_value(s.drop_last()) * 10 + (s.last() as u8 - '0' as u8)) as nat
    }
}

/// The number that `s` denotes as an unsigned decimal literal: an optional
/// `+` followed by at least one ASCII digit, and nothing else.
pub open spec fn decimal_value(s: Seq<char>) -> Option<nat> {
    let digits = if s.len() > 0 && s.first() == '+' {
        s.drop_first()
    } else {
        s
    };
    if digits.len() > 0 && (forall|i: int| 0 <= i < digits.len() ==> is_digit(#[trigger] digits[i])) {
        Some(digits_value(digits))
    } else {
        None
    }
}

/// The number that `s` denotes if it is a decimal literal no greater than `max`.
pub open spec fn bounded_decimal(s: Seq<char>, max: nat) -> Option<nat> {
    match decimal_value(s) {
        Some(n) if n <= max => Some(n),
        _ => None,
    }
}

/// The characters of an optional string slice.
pub open spec fn text_of(value: Option<&str>) -> Option<Seq<char>> {
    match value {
        Some(s) => Some(s@),
        None => None,
    }
}

/// The characters of an optional string.
pub open spec fn string_text(value: Option<String>) -> Option<Seq<char>> {
    match value {
        Some(s) => Some(s@),
        None => None,
    }
}

/// The trimmed value of an optional setting; `None` where it is absent or blank.
pub open spec fn non_blank(value: Option<Seq<char>>) -> Option<Seq<char>> {
    match value {
        Some(v) if trimmed(v).len() > 0 => Some(trimmed(v)),
        _ => None,
    }
}

/// Calls `str::trim`, which by its documentation returns the slice with
/// leading and trailing `White_Space` characters removed.
#[verifier::external_body]
pub(crate) fn trim(s: &str) -> (r: &str)
    ensures
        r@ == trimmed(s@),
{
    s.trim()
}

/// Calls `str::trim_end_matches` with a single character as the pattern,
/// which removes every trailing repetition of that character.
#[verifier::external_body]
pub(crate) fn trim_end_matches(s: &str, c: char) -> (r: &str)
    ensures
        r@ == trim_end_char(s@, c),
{
    s.trim_end_matches(c)
}

/// Calls `str::to_ascii_lowercase`, which maps `A..=Z` to `a..=z` and leaves
/// every other character as it is.
#[verifier::external_body]
pub(crate) fn to_ascii_lowercase(s: &str) -> (r: String)
    ensures
        r@ == lowercased(s@),
{
    s.to_ascii_lowercase()
}

/// Calls `str::starts_with` with a string pattern: true exactly when the
/// pattern is a prefix of the slice.
#[verifier::external_body]
pub(crate) fn starts_with(s: &str, prefix: &str) -> (r: bool)
    ensures
        r == prefix@.is_prefix_of(s@),
{
    s.starts_with(prefix)
}

/// Calls `str::contains` with a string pattern: true exactly when the pattern
/// matches a sub-slice.
#[verifier::external_body]
pub(crate) fn contains(s: &str, pattern: &str) -> (r: bool)
    ensures
        r == contains_text(s@, pattern@),
{
    s.contains(pattern)
}

/// Compares two string slices with `==`, which holds exactly when they are
/// the same sequence of characters.
#[verifier::external_body]
pub(crate) fn str_eq(a: &str, b: &str) -> (r: bool)
    ensures
        r == (a@ == b@),
{
    a == b
}

/// Calls `str::eq_ignore_ascii_case`, which by its documentation is the same
/// as comparing the ASCII lower-case forms of both slices.
#[verifier::external_body]
pub(crate) fn eq_ignore_ascii_case(a: &str, b: &str) -> (r: bool)
    ensures
        r == (lowercased(a@) == lowercased(b@)),
{
    a.eq_ignore_ascii_case(b)
}

/// Calls `str::parse::<u16>`, which accepts an optional `+` followed by
/// decimal digits only and fails on an empty string, any other character,
/// or a value above `u16::MAX`.
#[verifier::external_body]
pub(crate) fn u16_from_str(s: &str) -> (r: Option<u16>)
    ensures
        match r {
            Some(n) => bounded_decimal(s@, u16::MAX as nat) == Some(n as nat),
            None => bounded_decimal(s@, u16::MAX as nat) is None,
        },
{
    s.parse::<u16>().ok()
}

/// Calls `str::parse::<u64>`, which accepts an optional `+` followed by
/// decimal digits only and fails on an empty string, any other character,
/// or a value above `u64::MAX`.
#[verifier::external_body]
pub(crate) fn u64_from_str(s: &str) -> (r: Option<u64>)
    ensures
        match r {
            Some(n) => bounded_decimal(s@, u64::MAX as nat) == Some(n as nat),
            None => bounded_decimal(s@, u64::MAX as nat) is None,
        },
{
    s.parse::<u64>().ok()
}

/// Calls `str::parse::<usize>`, which accepts an optional `+` followed by
/// decimal digits only and fails on an empty string, any other character,
/// or a value above `usize::MAX`.
#[verifier::external_body]
pub(crate) fn usize_from_str(s: &str) -> (r: Option<usize>)
    ensures
        match r {
            Some(n) => bounded_decimal(s@, usize::MAX as nat) == Some(n as nat),
            None => bounded_decimal(s@, usize::MAX as nat) is None,
        },
{
    s.parse::<usize>().ok()
}

} // verus!
