//! Small composite fields: a branch code, a date of two-digit year, and the
//! trailer's three amounts.

use vstd::prelude::*;
use vstd::string::*;
use crate::calendar::{expand_year, is_century_digit, random_between, with_century};
use crate::text::{char_count, slice_chars};

verus! {

/// A branch code `XXX-XXX`: three characters, a separator, three characters.
#[derive(Debug, Clone, Eq, PartialEq, Ord, PartialOrd, Hash, Default)]
pub struct Bsb {
    pub first: String,
    pub sep: String,
    pub second: String,
}

impl Bsb {
    /// What `to_string` writes of a branch code whose characters are
    /// `code`: the code and a line break.
    pub open spec fn shown(code: Seq<char>) -> Seq<char> {
        code + "\n"@
    }

    /// Reads a branch code off the head of `i`. `None` where `i` has fewer
    /// than seven characters; else the rest of `i` and the code.
    pub fn deserialise(i: &str) -> (out: Option<(&str, Bsb)>)
        ensures
            out is Some <==> i@.len() >= 7,
            out matches Some((rest, bsb)) ==> {
                &&& rest@ == i@.subrange(7, i@.len() as int)
                &&& bsb.first@ == i@.subrange(0, 3)
                &&& bsb.sep@ == i@.subrange(3, 4)
                &&& bsb.second@ == i@.subrange(4, 7)
            },
    {
        let n = char_count(i);
        if n < 7 {
            return None;
        }
        let bsb = Bsb {
            first: slice_chars(i, 0, 3),
            sep: slice_chars(i, 3, 4),
            second: slice_chars(i, 4, 7),
        };
        Some((i.substring_char(7, n), bsb))
    }

    /// The three parts in order, then a line break.
    pub fn to_string(&self) -> (out: String)
        ensures
            out@ == Bsb::shown(self.first@ + self.sep@ + self.second@),
    {
        let mut out = self.first.clone();
        out.append(self.sep.as_str());
        out.append(self.second.as_str());
        out.append("\n");
        out
    }
}

/// A date `DDMMYY`. For the calendar check the year gets two more digits in
/// front, each drawn at random from 1 to 9.
#[derive(Debug, Clone, Eq, PartialEq, Ord, PartialOrd, Hash, Default)]
pub struct TwoDigitYears {
    pub day: String,
    pub month: String,
    pub year: String,
}

impl TwoDigitYears {
    /// Reads a date off the head of `i` and expands its year. `None` where
    /// `i` has fewer than six characters; else the rest of `i` and the eight
    /// characters `DDMMccYY`, where each `c` is some digit from 1 to 9.
    pub fn deserialise(i: &str) -> (out: Option<(&str, String)>)
        ensures
            out is Some <==> i@.len() >= 6,
            out matches Some((rest, date)) ==> {
                &&& rest@ == i@.subrange(6, i@.len() as int)
                &&& exists|c1: int, c2: int|
                    is_century_digit(c1) && is_century_digit(c2) && date@ == with_century(
                        i@,
                        c1 as nat,
                        c2 as nat,
                    )
            },
    {
        let n = char_count(i);
        if n < 6 {
            return None;
        }
        let c1 = random_between(1, 9);
        let c2 = random_between(1, 9);
        let date = expand_year(i, c1, c2);
        assert(is_century_digit(c1 as int) && is_century_digit(c2 as int) && date@
            == with_century(i@, c1 as nat, c2 as nat));
        Some((i.substring_char(6, n), date))
    }

    /// Day, month and year in order, then a line break.
    pub fn to_string(&self) -> (out: String)
        ensures
            out@ == self.day@ + self.month@ + self.year@ + "\n"@,
    {
        let mut out = self.day.clone();
        out.append(self.month.as_str());
        out.append(self.year.as_str());
        out.append("\n");
        out
    }
}

/// The trailer's amounts: total, credit and debit, ten characters each.
#[derive(Debug, Clone, Eq, PartialEq, Ord, PartialOrd, Hash, Default)]
pub struct TotalField {
    pub total: String,
    pub credit: String,
    pub debit: String,
}

impl TotalField {
    /// Reads the three amounts off the head of `i`. `None` where `i` has
    /// fewer than thirty characters; else the rest of `i` and the amounts.
    pub fn deserialise(i: &str) -> (out: Option<(&str, TotalField)>)
        ensures
            out is Some <==> i@.len() >= 30,
            out matches Some((rest, field)) ==> {
                &&& rest@ == i@.subrange(30, i@.len() as int)
                &&& field.total@ == i@.subrange(0, 10)
                &&& field.credit@ == i@.subrange(10, 20)
                &&& field.debit@ == i@.subrange(20, 30)
            },
    {
        let n = char_count(i);
        if n < 30 {
            return None;
        }
        let field = TotalField {
            total: slice_chars(i, 0, 10),
            credit: slice_chars(i, 10, 20),
            debit: slice_chars(i, 20, 30),
        };
        Some((i.substring_char(30, n), field))
    }

    /// The three amounts in order, then a line break.
    pub fn to_string(&self) -> (out: String)
        ensures
            out@ == self.total@ + self.credit@ + self.debit@ + "\n"@,
    {
        let mut out = self.total.clone();
        out.append(self.credit.as_str());
        out.append(self.debit.as_str());
        out.append("\n");
        out
    }
}

} // verus!
