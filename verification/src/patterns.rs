//! The two text patterns that field rules match against, and the call into
//! the `regex` crate that decides a match.

use vstd::prelude::*;
use crate::text::{all_digits, all_white_space};

verus! {

/// Matches a string made of white space only, the empty string included.
pub const BLANK_PATTERN: &'static str = "^\\s*$";

/// Matches an amount with two decimals: one to eight digits, a point, two
/// digits.
pub const AMOUNT_PATTERN: &'static str = "^[[:digit:]]{1,8}\\.[[:digit:]]{2}$";

/// Whether `s` is one to eight ASCII digits, a point and two ASCII digits.
pub open spec fn is_two_decimal_amount(s: Seq<char>) -> bool {
    &&& 4 <= s.len() <= 11
    &&& s[s.len() - 3] == '.'
    &&& all_digits(s.subrange(0, s.len() - 3))
    &&& all_digits(s.subrange(s.len() - 2, s.len() as int))
}

/// Compiles `pattern` with `regex::Regex::new` and asks `Regex::is_match`
/// whether it matches somewhere in `haystack`.
///
/// Not proved, taken from the crate's syntax: both patterns are anchored at
/// the two ends of the haystack; `\s` is a character with the Unicode
/// property White_Space; `[[:digit:]]` is an ASCII digit. Both patterns
/// compile, so the `Err` arm is never taken.
#[verifier::external_body]
pub(crate) fn pattern_matches(pattern: &str, haystack: &str) -> (found: bool)
    requires
        pattern@ == BLANK_PATTERN@ || pattern@ == AMOUNT_PATTERN@,
    ensures
        pattern@ == BLANK_PATTERN@ ==> found == all_white_space(haystack@),
        pattern@ == AMOUNT_PATTERN@ ==> found == is_two_decimal_amount(haystack@),
{
    match regex::Regex::new(pattern) {
        Ok(re) => re.is_match(haystack),
        Err(_) => false,
    }
}

/// Whether `i` is an amount written with a point and two decimals.
pub fn validate_two_decimals(i: &str) -> (ok: bool)
    ensures
        ok == is_two_decimal_amount(i@),
{
    pattern_matches(AMOUNT_PATTERN, i)
}

} // verus!
