//! Settlement dates. A record writes a date as `DDMMYY`; the calendar check
//! needs a year of four digits, and the two that are missing are drawn at
//! random, each from 1 to 9. The outcome depends on the draw for one date
//! only: 29 February of a year written `00`.

use rand::Rng;
use vstd::prelude::*;
use vstd::string::*;
use crate::text::{
    all_digits, decimal_text, decimal_value, digit_char, digit_value, is_digit_char, number_text,
    slice_chars,
};

verus! {

/// The format that a date of four-digit year is read in.
pub const DATE_FORMAT: &'static str = "[day][month][year]";

/// Whether year `y` has a 29 February in the Gregorian calendar.
pub open spec fn is_leap_year(y: int) -> bool {
    y % 4 == 0 && (y % 100 != 0 || y % 400 == 0)
}

/// The number of days of month `m` (1 to 12) in year `y`.
pub open spec fn days_in_month(y: int, m: int) -> int {
    if m == 2 {
        if is_leap_year(y) {
            29
        } else {
            28
        }
    } else if m == 4 || m == 6 || m == 9 || m == 11 {
        30
    } else {
        31
    }
}

/// Whether `text` is eight ASCII digits `DDMMYYYY` that name a day of the
/// Gregorian calendar.
pub open spec fn is_calendar_date(text: Seq<char>) -> bool {
    &&& text.len() == 8
    &&& all_digits(text)
    &&& 1 <= decimal_value(text.subrange(2, 4)) <= 12
    &&& 1 <= decimal_value(text.subrange(0, 2)) <= days_in_month(
        decimal_value(text.subrange(4, 8)) as int,
        decimal_value(text.subrange(2, 4)) as int,
    )
}

/// The date `DDMMYY` at the head of `s` with the digits `c1` and `c2` put
/// before its year.
pub open spec fn with_century(s: Seq<char>, c1: nat, c2: nat) -> Seq<char>
    recommends
        s.len() >= 6,
{
    s.subrange(0, 4) + seq![digit_char(c1), digit_char(c2)] + s.subrange(4, 6)
}

/// Whether a digit may be drawn for the century.
pub open spec fn is_century_digit(c: int) -> bool {
    1 <= c <= 9
}

/// Whether the date at the head of `s` passes the calendar check when the
/// century digits drawn are `c1` and `c2`.
pub open spec fn date_accepted(s: Seq<char>, c1: int, c2: int) -> bool {
    s.len() >= 6 && is_calendar_date(with_century(s, c1 as nat, c2 as nat))
}

/// Whether the date at the head of `s` is 29 February of a year written
/// `00`: the one date whose check depends on the century.
pub open spec fn is_century_sensitive(s: Seq<char>) -> bool {
    &&& s.len() >= 6
    &&& all_digits(s.subrange(0, 6))
    &&& decimal_value(s.subrange(0, 2)) == 29
    &&& decimal_value(s.subrange(2, 4)) == 2
    &&& decimal_value(s.subrange(4, 6)) == 0
}

/// Whether the date `DDMMYY` at the head of `s` names a day of the year
/// `20YY`.
pub open spec fn is_settlement_date(s: Seq<char>) -> bool {
    &&& s.len() >= 6
    &&& all_digits(s.subrange(0, 6))
    &&& 1 <= decimal_value(s.subrange(2, 4)) <= 12
    &&& 1 <= decimal_value(s.subrange(0, 2)) <= days_in_month(
        2000 + decimal_value(s.subrange(4, 6)) as int,
        decimal_value(s.subrange(2, 4)) as int,
    )
}

/// Reads `text` with `time::Date::parse` against the description that
/// `time::format_description::parse_borrowed` makes of `format`.
///
/// Not proved, taken from the crate's source: day and month are two digits
/// each, an unsigned year four; nothing may follow; the three must name a
/// day of the proleptic Gregorian calendar. The format compiles, so the
/// `Err` arm is never taken.
#[verifier::external_body]
pub(crate) fn date_parses(text: &str, format: &str) -> (ok: bool)
    requires
        format@ == DATE_FORMAT@,
        text@.len() == 8,
    ensures
        ok == is_calendar_date(text@),
{
    match time::format_description::parse_borrowed::<1>(format) {
        Ok(items) => time::Date::parse(text, &items).is_ok(),
        Err(_) => false,
    }
}

/// Draws an integer from `low` to `high`, both included, with
/// `rand::Rng::gen_range` on `rand::thread_rng`. Only the range is claimed.
#[verifier::external_body]
pub(crate) fn random_between(low: i32, high: i32) -> (n: i32)
    requires
        low <= high,
    ensures
        low <= n <= high,
{
    rand::thread_rng().gen_range(low..=high)
}

/// The value of a string of two digits.
proof fn lemma_value_of_two(s: Seq<char>)
    requires
        s.len() == 2,
    ensures
        decimal_value(s) == digit_value(s[0]) * 10 + digit_value(s[1]),
{
    let a = s.drop_last();
    assert(a.drop_last() =~= Seq::<char>::empty());
    assert(decimal_value(a.drop_last()) == 0);
    assert(a.last() == s[0]);
    assert(decimal_value(a) == decimal_value(a.drop_last()) * 10 + digit_value(a.last()));
    assert(decimal_value(s) == decimal_value(a) * 10 + digit_value(s.last()));
}

/// The value of a string of four digits.
proof fn lemma_value_of_four(s: Seq<char>)
    requires
        s.len() == 4,
    ensures
        decimal_value(s) == decimal_value(s.subrange(0, 2)) * 100 + decimal_value(
            s.subrange(2, 4),
        ),
{
    let a = s.drop_last();
    let b = a.drop_last();
    assert(b =~= s.subrange(0, 2));
    assert(a.last() == s[2]);
    assert(s.last() == s[3]);
    assert(decimal_value(a) == decimal_value(b) * 10 + digit_value(a.last()));
    assert(decimal_value(s) == decimal_value(a) * 10 + digit_value(s.last()));
    lemma_value_of_two(s.subrange(2, 4));
}

/// What the calendar check sees of a date once the century is put in: the
/// year is `c1 c2 Y Y`, day and month are as written.
pub proof fn lemma_with_century_parts(s: Seq<char>, c1: int, c2: int)
    requires
        s.len() >= 6,
        is_century_digit(c1),
        is_century_digit(c2),
    ensures
        with_century(s, c1 as nat, c2 as nat).len() == 8,
        with_century(s, c1 as nat, c2 as nat).subrange(0, 2) == s.subrange(0, 2),
        with_century(s, c1 as nat, c2 as nat).subrange(2, 4) == s.subrange(2, 4),
        all_digits(with_century(s, c1 as nat, c2 as nat)) == all_digits(s.subrange(0, 6)),
        decimal_value(with_century(s, c1 as nat, c2 as nat).subrange(4, 8)) == (c1 * 10 + c2)
            * 100 + decimal_value(s.subrange(4, 6)),
{
    let t = with_century(s, c1 as nat, c2 as nat);
    let head = s.subrange(0, 6);
    assert(t.subrange(0, 2) =~= s.subrange(0, 2));
    assert(t.subrange(2, 4) =~= s.subrange(2, 4));
    let y = t.subrange(4, 8);
    assert(y.subrange(2, 4) =~= s.subrange(4, 6));
    assert(y.subrange(0, 2) =~= seq![digit_char(c1 as nat), digit_char(c2 as nat)]);
    lemma_value_of_four(y);
    lemma_value_of_two(y.subrange(0, 2));
    if all_digits(t) {
        assert forall|i: int| 0 <= i < 6 implies is_digit_char(
            #[trigger] head[i],
        ) by {
            if i < 4 {
                assert(t[i] == head[i]);
            } else {
                assert(t[i + 2] == head[i]);
            }
        }
    }
    if all_digits(head) {
        assert forall|i: int| 0 <= i < 8 implies is_digit_char(#[trigger] t[i]) by {
            if i < 4 {
                assert(t[i] == head[i]);
            } else if i >= 6 {
                assert(t[i] == head[i - 2]);
            }
        }
    }
}

/// The draw decides nothing but for 29 February of a year written `00`:
/// every other date passes the check exactly when it names a day of the
/// year `20YY`.
pub proof fn lemma_century_is_immaterial(s: Seq<char>, c1: int, c2: int)
    requires
        is_century_digit(c1),
        is_century_digit(c2),
        !is_century_sensitive(s),
    ensures
        date_accepted(s, c1, c2) == is_settlement_date(s),
{
    if s.len() >= 6 {
        lemma_with_century_parts(s, c1, c2);
        let head = s.subrange(0, 6);
        if all_digits(head) {
            let yy = s.subrange(4, 6);
            assert(yy[0] == head[4] && yy[1] == head[5]);
            assert(is_digit_char(head[4]) && is_digit_char(head[5]));
            lemma_value_of_two(yy);
            let dd = s.subrange(0, 2);
            assert(dd[0] == head[0] && dd[1] == head[1]);
            assert(is_digit_char(head[0]) && is_digit_char(head[1]));
            lemma_value_of_two(dd);
        }
    }
}

/// On 29 February of a year written `00` the draw decides: the date passes
/// exactly when the century drawn is a multiple of four.
pub proof fn lemma_century_decides_leap_day(s: Seq<char>, c1: int, c2: int)
    requires
        is_century_digit(c1),
        is_century_digit(c2),
        is_century_sensitive(s),
    ensures
        date_accepted(s, c1, c2) == ((c1 * 10 + c2) % 4 == 0),
{
    lemma_with_century_parts(s, c1, c2);
}

/// The one-character string that writes the century digit `d`.
fn century_digit_text(d: i32) -> (out: String)
    requires
        is_century_digit(d as int),
    ensures
        out@ == seq![digit_char(d as nat)],
{
    let out = number_text(d as u128);
    assert(decimal_text(d as nat) == seq![digit_char(d as nat)]);
    out
}

/// The date `DDMMYY` at the head of `i`, with the century digits `c1` and
/// `c2` put before its year.
pub fn expand_year(i: &str, c1: i32, c2: i32) -> (out: String)
    requires
        i@.len() >= 6,
        is_century_digit(c1 as int),
        is_century_digit(c2 as int),
    ensures
        out@ == with_century(i@, c1 as nat, c2 as nat),
{
    let mut out = slice_chars(i, 0, 4);
    out.append(century_digit_text(c1).as_str());
    out.append(century_digit_text(c2).as_str());
    out.append(slice_chars(i, 4, 6).as_str());
    assert(out@ =~= with_century(i@, c1 as nat, c2 as nat));
    out
}

/// Whether the expanded date `DDMMYYYY` names a day of the calendar.
pub fn check_expanded_date(date: &str) -> (ok: bool)
    requires
        date@.len() == 8,
    ensures
        ok == is_calendar_date(date@),
{
    date_parses(date, DATE_FORMAT)
}

} // verus!
