//! Padding to a field's width, amounts in cents, and the rules that settings
//! and payment rows must meet before a file is made of them.

use vstd::prelude::*;
use vstd::string::*;
use crate::calendar::{date_accepted, is_century_digit, is_century_sensitive, is_settlement_date};
use crate::parser_utils::{
    is_right_justified_number, right_justified_number, validate_date_format, validate_number,
};
use crate::patterns::{is_two_decimal_amount, validate_two_decimals};
use crate::reference::CodeTable;
use crate::text::{
    all_digits, char_count, contains_char, remove_char, repeated, starts_with_char, without_char,
};
use crate::types::{BsbType, FillStrategy};

verus! {

/// The complaint about a bank code that has not exactly three characters.
pub const BANK_NAME_FORMAT: &'static str =
    "Bank name field must be in the excat format of 3 upppercase characters";

/// The complaint about a bank code that the table does not list.
pub const BANK_NAME_UNKNOWN: &'static str = "Bank name field is not valid";

/// The complaint about an originator name that is empty or longer than 26
/// characters.
pub const USER_NAME_LENGTH: &'static str =
    "User name field must not be empty and exceed 26 characters";

/// The complaint about an originator identifier that is longer than six
/// characters or holds a character that is no digit.
pub const APCA_NUMBER_FORMAT: &'static str =
    "APCA code field must be in the excat format of 6 digits";

/// The complaint about a file description that is empty or longer than
/// twelve characters.
pub const FILE_DESCRIPTION_LENGTH: &'static str =
    "File description field must not be empty and exceed 12 characters";

/// The complaint about a settlement date that is empty, longer than six
/// characters or no day of the calendar.
pub const SETTLE_DATE_FORMAT: &'static str =
    "Settlement date field must be in the exact format of DDMMYY";

/// The complaint about a destination branch code that has not seven
/// characters.
pub const BSB_FORMAT: &'static str =
    "BSB field must be in the format of xxx-xxx where x are digits";

/// The complaint about a trace branch code that has not seven characters.
pub const TRACE_BSB_FORMAT: &'static str =
    "Trace BSB code field must be in the excat format of xxx-xxx where x are digits";

/// The complaint about a branch code that the table does not list.
pub const BSB_UNKNOWN: &'static str = "BSB code is not valid";

/// The complaint about a destination account number that is empty, longer
/// than nine characters or no number.
pub const ACCOUNT_NUMBER_FORMAT: &'static str =
    "Account number field must not be empty and exceed 9 digits";

/// The complaint about a trace account number that is empty, longer than
/// nine characters or no number.
pub const TRACE_ACCOUNT_NUMBER_FORMAT: &'static str =
    "Trace account number field must not be empty and exceed 9 digits";

/// The complaint about a trace account name that is empty or longer than
/// sixteen characters.
pub const TRACE_ACCOUNT_NAME_LENGTH: &'static str =
    "Trace ccount name field must not be empty and exceed 12 characters";

/// The complaint about a payee name that is empty or longer than 32
/// characters.
pub const CLIENT_NAME_LENGTH: &'static str =
    "Account name field must not be empty and exceed 32 characters";

/// The complaint about an amount that is empty, has more than ten digits or
/// holds a character that is neither digit nor point.
pub const AMOUNT_DIGITS: &'static str =
    "Amount field must be digits and must not be empty and exceed 10 digits";

/// The complaint about an amount with a point that is not written with two
/// decimals.
pub const AMOUNT_DECIMALS: &'static str = "Amount field must be in valid two deicmal format";

/// The complaint about a reference text that is longer than eighteen
/// characters or begins with `0` or `-`.
pub const COMMENT_FORMAT: &'static str =
    "Comment field must not exceed 18 characters or start with 0 and -";

/// The complaint about a withheld tax that has more than eight digits or
/// holds a character that is neither digit nor point.
pub const TAX_WITHHOLD_DIGITS: &'static str =
    "Tax withold field must be digits and must not exceed 8 digits";

/// The complaint about a withheld tax with a point that is not written with
/// two decimals.
pub const TAX_WITHHOLD_DECIMALS: &'static str =
    "Tax withold field must be in valid two deicmal format";

/// The reference text of a row that gives none: eighteen blanks.
pub const DEFAULT_COMMENT: &'static str = "                  ";

/// The withheld tax of a row that gives none: eight zeros.
pub const DEFAULT_TAX_WITHHOLD: &'static str = "00000000";

/// A list of complaints with one more, if there is one.
pub open spec fn noted(before: Seq<&'static str>, complaint: Option<&'static str>) -> Seq<
    &'static str,
> {
    match complaint {
        Some(text) => before.push(text),
        None => before,
    }
}

/// `value` padded on the right with `fill` to `size` characters; unchanged
/// where it has that many or more.
pub open spec fn left_adjusted(value: Seq<char>, size: nat, fill: char) -> Seq<char> {
    if value.len() < size {
        value + repeated(fill, (size - value.len()) as nat)
    } else {
        value
    }
}

/// `value` padded on the left with `fill` to `size` characters; unchanged
/// where it has that many or more.
pub open spec fn right_adjusted(value: Seq<char>, size: nat, fill: char) -> Seq<char> {
    if value.len() < size {
        repeated(fill, (size - value.len()) as nat) + value
    } else {
        value
    }
}

/// An amount in cents: a two-decimal amount loses its point, anything else
/// stays as written.
pub open spec fn normalised_amount(i: Seq<char>) -> Seq<char> {
    if is_two_decimal_amount(i) {
        without_char(i, '.')
    } else {
        i
    }
}

/// What is wrong with a bank code, if anything.
pub open spec fn bank_name_complaint(i: Seq<char>, banks: Set<Seq<char>>) -> Option<
    &'static str,
> {
    if i.len() != 3 {
        Some(BANK_NAME_FORMAT)
    } else if !banks.contains(i) {
        Some(BANK_NAME_UNKNOWN)
    } else {
        None
    }
}

/// What is wrong with a text of at most `limit` characters that may not be
/// empty, if anything.
pub open spec fn length_complaint(i: Seq<char>, limit: nat, text: &'static str) -> Option<
    &'static str,
> {
    if i.len() == 0 || i.len() > limit {
        Some(text)
    } else {
        None
    }
}

/// What is wrong with an originator identifier, if anything.
pub open spec fn apca_number_complaint(i: Seq<char>) -> Option<&'static str> {
    if i.len() > 6 || !all_digits(i) {
        Some(APCA_NUMBER_FORMAT)
    } else {
        None
    }
}

/// What is wrong with a settlement date whose calendar check came out as
/// `date_ok`, if anything.
pub open spec fn settle_date_complaint(i: Seq<char>, date_ok: bool) -> Option<&'static str> {
    if i.len() == 0 || i.len() > 6 || !date_ok {
        Some(SETTLE_DATE_FORMAT)
    } else {
        None
    }
}

/// What is wrong with a branch code, if anything.
pub open spec fn bsb_complaint(i: Seq<char>, bsb_type: BsbType, branches: Set<Seq<char>>) -> Option<
    &'static str,
> {
    if i.len() != 7 {
        match bsb_type {
            BsbType::DetailBsb => Some(BSB_FORMAT),
            BsbType::DetailTraceBsb => Some(TRACE_BSB_FORMAT),
        }
    } else if !branches.contains(i) {
        Some(BSB_UNKNOWN)
    } else {
        None
    }
}

/// What is wrong with an account number, if anything.
pub open spec fn account_number_complaint(i: Seq<char>, bsb_type: BsbType) -> Option<
    &'static str,
> {
    if i.len() > 9 || !is_right_justified_number(i) {
        match bsb_type {
            BsbType::DetailBsb => Some(ACCOUNT_NUMBER_FORMAT),
            BsbType::DetailTraceBsb => Some(TRACE_ACCOUNT_NUMBER_FORMAT),
        }
    } else {
        None
    }
}

/// What is wrong with an amount of at most `limit` digits, if anything:
/// first its digits, then, where it holds a point, its two decimals.
pub open spec fn digits_complaint(
    i: Seq<char>,
    limit: nat,
    digits_text: &'static str,
    decimals_text: &'static str,
) -> Option<&'static str> {
    if without_char(i, '.').len() > limit || !all_digits(without_char(i, '.')) {
        Some(digits_text)
    } else if i.contains('.') && !is_two_decimal_amount(i) {
        Some(decimals_text)
    } else {
        None
    }
}

/// What is wrong with a row's amount, if anything.
pub open spec fn amount_complaint(i: Seq<char>) -> Option<&'static str> {
    if i.len() == 0 {
        Some(AMOUNT_DIGITS)
    } else {
        digits_complaint(i, 10, AMOUNT_DIGITS, AMOUNT_DECIMALS)
    }
}

/// What is wrong with a row's withheld tax, if anything.
pub open spec fn tax_withhold_complaint(i: Seq<char>) -> Option<&'static str> {
    digits_complaint(i, 8, TAX_WITHHOLD_DIGITS, TAX_WITHHOLD_DECIMALS)
}

/// What is wrong with a row's reference text, if anything.
pub open spec fn comment_complaint(i: Seq<char>) -> Option<&'static str> {
    if i.len() > 18 || (i.len() > 0 && (i[0] == '0' || i[0] == '-')) {
        Some(COMMENT_FORMAT)
    } else {
        None
    }
}

/// The reference text of a row: its own, or eighteen blanks.
pub fn optional_comment(value: Option<String>) -> (out: Option<String>)
    ensures
        out is Some,
        out.unwrap()@ == match value {
            Some(comment) => comment@,
            None => DEFAULT_COMMENT@,
        },
{
    match value {
        Some(comment) => Some(comment),
        None => Some(String::from_str(DEFAULT_COMMENT)),
    }
}

/// The withheld tax of a row: its own, or eight zeros.
pub fn optional_tax_withhold(value: Option<String>) -> (out: Option<String>)
    ensures
        out is Some,
        out.unwrap()@ == match value {
            Some(tax) => tax@,
            None => DEFAULT_TAX_WITHHOLD@,
        },
{
    match value {
        Some(tax) => Some(tax),
        None => Some(String::from_str(DEFAULT_TAX_WITHHOLD)),
    }
}

/// `n` copies of the strategy's padding character.
pub fn fill(n: usize, strat: FillStrategy) -> (out: String)
    ensures
        out@ == repeated(strat.fill_char(), n as nat),
{
    proof {
        reveal_strlit("0");
        reveal_strlit(" ");
    }
    let unit = match strat {
        FillStrategy::Zero => "0",
        FillStrategy::Blank => " ",
    };
    let mut out = String::new();
    let mut k: usize = 0;
    assert(out@ =~= repeated(strat.fill_char(), 0));
    while k < n
        invariant
            k <= n,
            unit@ == seq![strat.fill_char()],
            out@ == repeated(strat.fill_char(), k as nat),
        decreases n - k,
    {
        out.append(unit);
        k += 1;
        assert(out@ =~= repeated(strat.fill_char(), k as nat));
    }
    out
}

/// Pads `i` on the right to `size` characters. A value that already has
/// `size` characters or more comes back unchanged: nothing is cut.
pub fn left_adjust(i: &str, size: usize, strat: FillStrategy) -> (out: String)
    ensures
        out@ == left_adjusted(i@, size as nat, strat.fill_char()),
{
    let n = char_count(i);
    if n < size {
        let mut res = String::from_str(i);
        res.append(fill(size - n, strat).as_str());
        res
    } else {
        String::from_str(i)
    }
}

/// Pads `i` on the left to `size` characters. A value that already has
/// `size` characters or more comes back unchanged: nothing is cut.
pub fn right_adjust(i: &str, size: usize, strat: FillStrategy) -> (out: String)
    ensures
        out@ == right_adjusted(i@, size as nat, strat.fill_char()),
{
    let n = char_count(i);
    if n < size {
        let mut res = fill(size - n, strat);
        res.append(i);
        res
    } else {
        String::from_str(i)
    }
}

/// The zeros that `i` lacks to `size` characters.
pub fn zero_fill(i: &str, size: usize) -> (out: String)
    requires
        i@.len() <= size,
    ensures
        out@ == repeated('0', (size - i@.len()) as nat),
{
    let remaining = size - char_count(i);
    fill(remaining, FillStrategy::Zero)
}

/// The blanks that `i` lacks to `size` characters.
pub fn blank_fill(i: &str, size: usize) -> (out: String)
    requires
        i@.len() <= size,
    ensures
        out@ == repeated(' ', (size - i@.len()) as nat),
{
    let remaining = size - char_count(i);
    fill(remaining, FillStrategy::Blank)
}

/// Turns an amount with two decimals into cents by taking its point out;
/// any other text comes back as it is.
pub fn normalise_amount(i: &str) -> (out: String)
    ensures
        out@ == normalised_amount(i@),
{
    if contains_char(i, '.') && validate_two_decimals(i) {
        remove_char(i, '.')
    } else {
        proof {
            if is_two_decimal_amount(i@) {
                assert(i@[i@.len() - 3] == '.');
            }
        }
        String::from_str(i)
    }
}

/// Checks a bank code: exactly three characters, listed in `banks`.
pub fn validate_csv_bank_name(i: &str, res: &mut Vec<&'static str>, banks: &CodeTable) -> (ok: bool)
    ensures
        ok == (bank_name_complaint(i@, banks@) is None),
        final(res)@ == noted(old(res)@, bank_name_complaint(i@, banks@)),
{
    if char_count(i) != 3 {
        res.push(BANK_NAME_FORMAT);
        return false;
    }
    if !banks.contains(i) {
        res.push(BANK_NAME_UNKNOWN);
        return false;
    }
    true
}

/// Checks an originator name: one to 26 characters.
pub fn validate_csv_user_name(i: &str, res: &mut Vec<&'static str>) -> (ok: bool)
    ensures
        ok == (length_complaint(i@, 26, USER_NAME_LENGTH) is None),
        final(res)@ == noted(old(res)@, length_complaint(i@, 26, USER_NAME_LENGTH)),
{
    let n = char_count(i);
    if n == 0 || n > 26 {
        res.push(USER_NAME_LENGTH);
        return false;
    }
    true
}

/// Checks an originator identifier: at most six characters, digits only.
pub fn validate_csv_apca_number(i: &str, res: &mut Vec<&'static str>) -> (ok: bool)
    ensures
        ok == (apca_number_complaint(i@) is None),
        final(res)@ == noted(old(res)@, apca_number_complaint(i@)),
{
    if char_count(i) > 6 || !validate_number(i) {
        res.push(APCA_NUMBER_FORMAT);
        return false;
    }
    true
}

/// Checks a file description: one to twelve characters.
pub fn validate_csv_file_description(i: &str, res: &mut Vec<&'static str>) -> (ok: bool)
    ensures
        ok == (length_complaint(i@, 12, FILE_DESCRIPTION_LENGTH) is None),
        final(res)@ == noted(old(res)@, length_complaint(i@, 12, FILE_DESCRIPTION_LENGTH)),
{
    let n = char_count(i);
    if n == 0 || n > 12 {
        res.push(FILE_DESCRIPTION_LENGTH);
        return false;
    }
    true
}

/// Checks a settlement date: one to six characters that pass the calendar
/// check. The check depends on a draw for 29 February of a year written
/// `00`; for every other date it passes exactly when the date names a day
/// of the year `20YY`.
pub fn validate_csv_settle_date(i: &str, res: &mut Vec<&'static str>) -> (ok: bool)
    ensures
        exists|c1: int, c2: int|
            is_century_digit(c1) && is_century_digit(c2) && ok == (settle_date_complaint(
                i@,
                date_accepted(i@, c1, c2),
            ) is None) && final(res)@ == noted(
                old(res)@,
                settle_date_complaint(i@, date_accepted(i@, c1, c2)),
            ),
        !is_century_sensitive(i@) ==> ok == (settle_date_complaint(i@, is_settlement_date(i@))
            is None) && final(res)@ == noted(
            old(res)@,
            settle_date_complaint(i@, is_settlement_date(i@)),
        ),
{
    let n = char_count(i);
    if n == 0 || n > 6 {
        res.push(SETTLE_DATE_FORMAT);
        proof {
            assert(settle_date_complaint(i@, date_accepted(i@, 1, 1)) == Some(SETTLE_DATE_FORMAT));
        }
        return false;
    }
    let date_ok = validate_date_format(i);
    if !date_ok {
        res.push(SETTLE_DATE_FORMAT);
        return false;
    }
    true
}

/// Checks a branch code: seven characters, listed in `branches`.
pub fn validate_bsb(
    i: &str,
    res: &mut Vec<&'static str>,
    bsb_type: BsbType,
    branches: &CodeTable,
) -> (ok: bool)
    ensures
        ok == (bsb_complaint(i@, bsb_type, branches@) is None),
        final(res)@ == noted(old(res)@, bsb_complaint(i@, bsb_type, branches@)),
{
    let n = char_count(i);
    if n == 0 || n != 7 {
        match bsb_type {
            BsbType::DetailBsb => res.push(BSB_FORMAT),
            BsbType::DetailTraceBsb => res.push(TRACE_BSB_FORMAT),
        }
        return false;
    }
    if !branches.contains(i) {
        res.push(BSB_UNKNOWN);
        return false;
    }
    true
}

/// Checks an account number: at most nine characters; after the leading
/// spaces, at least one digit and nothing but digits.
pub fn validate_account_number(i: &str, res: &mut Vec<&'static str>, bsb_type: BsbType) -> (ok:
    bool)
    ensures
        ok == (account_number_complaint(i@, bsb_type) is None),
        final(res)@ == noted(old(res)@, account_number_complaint(i@, bsb_type)),
{
    if char_count(i) > 9 || !right_justified_number(i) {
        match bsb_type {
            BsbType::DetailBsb => res.push(ACCOUNT_NUMBER_FORMAT),
            BsbType::DetailTraceBsb => res.push(TRACE_ACCOUNT_NUMBER_FORMAT),
        }
        return false;
    }
    true
}

/// Checks the name of the trace account: one to sixteen characters.
pub fn validate_csv_trace_account_name(i: &str, res: &mut Vec<&'static str>) -> (ok: bool)
    ensures
        ok == (length_complaint(i@, 16, TRACE_ACCOUNT_NAME_LENGTH) is None),
        final(res)@ == noted(old(res)@, length_complaint(i@, 16, TRACE_ACCOUNT_NAME_LENGTH)),
{
    let n = char_count(i);
    if n == 0 || n > 16 {
        res.push(TRACE_ACCOUNT_NAME_LENGTH);
        return false;
    }
    true
}

/// Checks a payee name: one to 32 characters.
pub fn validate_csv_client_name(i: &str, res: &mut Vec<&'static str>) -> (ok: bool)
    ensures
        ok == (length_complaint(i@, 32, CLIENT_NAME_LENGTH) is None),
        final(res)@ == noted(old(res)@, length_complaint(i@, 32, CLIENT_NAME_LENGTH)),
{
    let n = char_count(i);
    if n == 0 || n > 32 {
        res.push(CLIENT_NAME_LENGTH);
        return false;
    }
    true
}

/// Checks a row's amount: not empty; at most ten digits once the points are
/// taken out; where it holds a point, one to eight digits, the point and
/// two digits.
pub fn validate_csv_amount(i: &str, res: &mut Vec<&'static str>) -> (ok: bool)
    ensures
        ok == (amount_complaint(i@) is None),
        final(res)@ == noted(old(res)@, amount_complaint(i@)),
{
    let plain = remove_char(i, '.');
    if char_count(i) == 0 || char_count(plain.as_str()) > 10 || !validate_number(plain.as_str()) {
        res.push(AMOUNT_DIGITS);
        proof {
            if i@.len() == 0 {
                assert(without_char(i@, '.') =~= i@);
            }
        }
        false
    } else if contains_char(i, '.') {
        if validate_two_decimals(i) {
            true
        } else {
            res.push(AMOUNT_DECIMALS);
            false
        }
    } else {
        true
    }
}

/// Checks a row's reference text: at most eighteen characters, begun
/// neither by `0` nor by `-`.
pub fn validate_csv_comment(i: &str, res: &mut Vec<&'static str>) -> (ok: bool)
    ensures
        ok == (comment_complaint(i@) is None),
        final(res)@ == noted(old(res)@, comment_complaint(i@)),
{
    if char_count(i) > 18 || starts_with_char(i, '0') || starts_with_char(i, '-') {
        res.push(COMMENT_FORMAT);
        return false;
    }
    true
}

/// Checks a row's withheld tax: at most eight digits once the points are
/// taken out; where it holds a point, one to eight digits, the point and
/// two digits.
pub fn validate_csv_tax_withhold(i: &str, res: &mut Vec<&'static str>) -> (ok: bool)
    ensures
        ok == (tax_withhold_complaint(i@) is None),
        final(res)@ == noted(old(res)@, tax_withhold_complaint(i@)),
{
    let plain = remove_char(i, '.');
    if char_count(plain.as_str()) > 8 || !validate_number(plain.as_str()) {
        res.push(TAX_WITHHOLD_DIGITS);
        false
    } else if contains_char(i, '.') {
        if validate_two_decimals(i) {
            true
        } else {
            res.push(TAX_WITHHOLD_DECIMALS);
            false
        }
    } else {
        true
    }
}

} // verus!
