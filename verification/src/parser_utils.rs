//! One rule per field of a record line. A rule answers `Ok` or the failure
//! that a report will show; it never stops before it has looked.

use vstd::prelude::*;
use vstd::string::*;
use crate::calendar::{
    check_expanded_date, date_accepted, is_century_digit, is_century_sensitive,
    is_settlement_date, lemma_century_is_immaterial, lemma_with_century_parts, with_century,
};
use crate::errors::LineParseError;
use crate::helper::{Bsb, TotalField, TwoDigitYears};
use crate::patterns::{pattern_matches, BLANK_PATTERN};
use crate::reference::CodeTable;
use crate::text::{
    all_digits, all_white_space, char_count, decimal_value, digits_value, ends_with_char,
    is_digit_char, lemma_decimal_value_bound, skip_leading, starts_with_char, trim_start_char,
};
use crate::types::{BsbType, TotalAmountType, ValidationType};

verus! {

/// The text that a failed rule adds to a report; nothing where it held.
pub open spec fn said(held: bool, text: Seq<char>) -> Seq<char> {
    if held {
        Seq::empty()
    } else {
        text
    }
}

/// The text that the outcome of a rule adds to a report.
pub open spec fn report_of(outcome: Result<(), LineParseError>) -> Seq<char> {
    match outcome {
        Ok(_) => Seq::empty(),
        Err(failure) => failure.message(),
    }
}

/// The text that the outcome of a rule adds to a report.
pub fn text_of(outcome: Result<(), LineParseError>) -> (out: String)
    ensures
        out@ == report_of(outcome),
{
    match outcome {
        Err(failure) => failure.to_string(),
        Ok(_) => String::new(),
    }
}

/// The failure that a constant field of the header or the trailer reports
/// when it holds `found`; `None` for a tag that names no such field.
pub open spec fn filler_failure(fill_type: ValidationType, found: String) -> Option<
    LineParseError,
> {
    match fill_type {
        ValidationType::DescriptiveRecordTypeZero => Some(
            LineParseError::DescriptiveRecordTypeZero(found),
        ),
        ValidationType::DescriptiveBlankOne => Some(LineParseError::DescriptiveBlankOne),
        ValidationType::DescriptiveReelSequence => Some(
            LineParseError::DescriptiveReelSequence(found),
        ),
        ValidationType::DescriptiveBlankTwo => Some(LineParseError::DescriptiveBlankTwo),
        ValidationType::DescriptiveBlankThree => Some(LineParseError::DescriptiveBlankThree),
        ValidationType::TotalTypeSeven => Some(LineParseError::TotalTypeSeven(found)),
        ValidationType::TotalBsbFiller => Some(LineParseError::TotalBsbFiller(found)),
        ValidationType::TotalBlankOne => Some(LineParseError::TotalBlankOne),
        ValidationType::TotalBlankTwo => Some(LineParseError::TotalBlankTwo),
        ValidationType::TotalBlankThree => Some(LineParseError::TotalBlankThree),
        _ => None,
    }
}

/// A name or description: not blank, and not begun by a space.
pub open spec fn is_left_justified(s: Seq<char>) -> bool {
    !all_white_space(s) && !(s.len() > 0 && s[0] == ' ')
}

/// A number pushed to the right: after the leading spaces, at least one
/// digit and nothing but digits.
pub open spec fn is_right_justified_number(s: Seq<char>) -> bool {
    skip_leading(s, ' ').len() > 0 && all_digits(skip_leading(s, ' '))
}

/// One of the indicators `N`, `W`, `X`, `Y`, or a blank.
pub open spec fn is_indicator(s: Seq<char>) -> bool {
    s.len() == 1 && (s[0] == 'N' || s[0] == 'W' || s[0] == 'X' || s[0] == 'Y' || s[0] == ' ')
}

/// One of the transaction codes `13` and `50` to `57`.
pub open spec fn is_trans_code(s: Seq<char>) -> bool {
    s.len() == 2 && ((s[0] == '1' && s[1] == '3') || (s[0] == '5' && '0' <= s[1] && s[1] <= '7'))
}

/// A reference text: begun neither by `0` nor by `-`.
pub open spec fn is_lodge_ref(s: Seq<char>) -> bool {
    !(s.len() > 0 && (s[0] == '0' || s[0] == '-'))
}

/// Whether three digit strings reconcile: the total is the credit less the
/// debit, as integers.
pub open spec fn reconciles(credit: Seq<char>, debit: Seq<char>, total: Seq<char>) -> bool {
    decimal_value(total) == decimal_value(credit) - decimal_value(debit)
}

/// The failure, if any, of one of the trailer's three amounts. The total
/// is checked first for digits, then for the digits of the two others, then
/// for the reconciliation.
pub open spec fn total_field_outcome(i: Seq<char>, amount_type: TotalAmountType) -> Result<
    (),
    LineParseError,
> {
    let total = i.subrange(0, 10);
    let credit = i.subrange(10, 20);
    let debit = i.subrange(20, 30);
    match amount_type {
        TotalAmountType::Credit => if all_digits(credit) {
            Ok(())
        } else {
            Err(LineParseError::TotalCredit)
        },
        TotalAmountType::Debit => if all_digits(debit) {
            Ok(())
        } else {
            Err(LineParseError::TotalDebit)
        },
        TotalAmountType::Total => if !all_digits(total) {
            Err(LineParseError::TotalField)
        } else if !all_digits(credit) || !all_digits(debit) {
            Err(LineParseError::TotalMalformedCreditDebit)
        } else if !reconciles(credit, debit, total) {
            Err(LineParseError::TotalCompute)
        } else {
            Ok(())
        },
    }
}

/// The failure, if any, of the trailer's count against the number of
/// transaction lines.
pub open spec fn record_count_outcome(i: Seq<char>, line_count: u32) -> Result<
    (),
    LineParseError,
>
    recommends
        all_digits(i) ==> decimal_value(i) <= u32::MAX,
{
    if !all_digits(i) {
        Err(LineParseError::TotalNonNumeric)
    } else if decimal_value(i) != line_count {
        Err(LineParseError::TotalCount(decimal_value(i) as u32, line_count))
    } else {
        Ok(())
    }
}

/// Checks a constant field of the header or the trailer against the
/// `pattern` it must equal. A failure that shows a value shows `i`.
pub fn validate_generic_filler_str(i: String, pattern: String, fill_type: ValidationType) -> (out:
    Result<(), LineParseError>)
    ensures
        out == match filler_failure(fill_type, i) {
            Some(failure) => if i@ == pattern@ {
                Ok(())
            } else {
                Err(failure)
            },
            None => Ok(()),
        },
{
    let same = i == pattern;
    match fill_type {
        ValidationType::DescriptiveRecordTypeZero => {
            if !same {
                Err(LineParseError::DescriptiveRecordTypeZero(i))
            } else {
                Ok(())
            }
        },
        ValidationType::DescriptiveBlankOne => {
            if !same {
                Err(LineParseError::DescriptiveBlankOne)
            } else {
                Ok(())
            }
        },
        ValidationType::DescriptiveReelSequence => {
            if !same {
                Err(LineParseError::DescriptiveReelSequence(i))
            } else {
                Ok(())
            }
        },
        ValidationType::DescriptiveBlankTwo => {
            if !same {
                Err(LineParseError::DescriptiveBlankTwo)
            } else {
                Ok(())
            }
        },
        ValidationType::DescriptiveBlankThree => {
            if !same {
                Err(LineParseError::DescriptiveBlankThree)
            } else {
                Ok(())
            }
        },
        ValidationType::TotalTypeSeven => {
            if !same {
                Err(LineParseError::TotalTypeSeven(i))
            } else {
                Ok(())
            }
        },
        ValidationType::TotalBsbFiller => {
            if !same {
                Err(LineParseError::TotalBsbFiller(i))
            } else {
                Ok(())
            }
        },
        ValidationType::TotalBlankOne => {
            if !same {
                Err(LineParseError::TotalBlankOne)
            } else {
                Ok(())
            }
        },
        ValidationType::TotalBlankTwo => {
            if !same {
                Err(LineParseError::TotalBlankTwo)
            } else {
                Ok(())
            }
        },
        ValidationType::TotalBlankThree => {
            if !same {
                Err(LineParseError::TotalBlankThree)
            } else {
                Ok(())
            }
        },
        _ => Ok(()),
    }
}

/// Checks a transaction's record-type marker against the `pattern` it must
/// equal. The failure carries the line number and `i`.
pub fn validate_filler_str_line_counted(
    i: String,
    pattern: String,
    fill_type: ValidationType,
    line_count: &u32,
) -> (out: Result<(), LineParseError>)
    ensures
        out == if fill_type == ValidationType::DetailRecordTypeOne && i@ != pattern@ {
            Err::<(), LineParseError>(LineParseError::DetailRecordTypeOne(*line_count, i))
        } else {
            Ok(())
        },
{
    match fill_type {
        ValidationType::DetailRecordTypeOne => {
            if !(i == pattern) {
                Err(LineParseError::DetailRecordTypeOne(*line_count, i))
            } else {
                Ok(())
            }
        },
        _ => Ok(()),
    }
}

/// Checks the header's bank code: it must be listed in `banks`.
pub fn validate_user_name(i: String, fill_type: ValidationType, banks: &CodeTable) -> (out: Result<
    (),
    LineParseError,
>)
    ensures
        out == if fill_type == ValidationType::DescriptiveUsername && !banks@.contains(i@) {
            Err::<(), LineParseError>(LineParseError::DescriptiveUserName)
        } else {
            Ok(())
        },
{
    match fill_type {
        ValidationType::DescriptiveUsername => {
            if !banks.contains(i.as_str()) {
                Err(LineParseError::DescriptiveUserName)
            } else {
                Ok(())
            }
        },
        _ => Ok(()),
    }
}

/// Checks the header's originator name: not blank, not begun by a space.
pub fn validate_self_name(i: String, fill_type: ValidationType) -> (out: Result<
    (),
    LineParseError,
>)
    ensures
        out == if fill_type == ValidationType::DescriptiveSelfName && !is_left_justified(i@) {
            Err::<(), LineParseError>(LineParseError::DescriptiveSelfName)
        } else {
            Ok(())
        },
{
    match fill_type {
        ValidationType::DescriptiveSelfName => {
            if validate_blank(i.as_str()) || starts_with_char(i.as_str(), ' ') {
                Err(LineParseError::DescriptiveSelfName)
            } else {
                Ok(())
            }
        },
        _ => Ok(()),
    }
}

/// Whether `i`, after its leading spaces, is one digit or more and nothing
/// else.
pub fn right_justified_number(i: &str) -> (ok: bool)
    ensures
        ok == is_right_justified_number(i@),
{
    let rest = trim_start_char(i, ' ');
    char_count(rest.as_str()) > 0 && validate_number(rest.as_str())
}

/// Checks the header's originator identifier: every character a digit.
pub fn validate_apca_ident(i: String, fill_type: ValidationType) -> (out: Result<
    (),
    LineParseError,
>)
    ensures
        out == if fill_type == ValidationType::DescriptiveApca && !all_digits(i@) {
            Err::<(), LineParseError>(LineParseError::DescriptiveApca)
        } else {
            Ok(())
        },
{
    match fill_type {
        ValidationType::DescriptiveApca => {
            if !validate_number(i.as_str()) {
                Err(LineParseError::DescriptiveApca)
            } else {
                Ok(())
            }
        },
        _ => Ok(()),
    }
}

/// Checks the header's file description: not blank, not begun by a space.
pub fn validate_file_entry(i: String, fill_type: ValidationType) -> (out: Result<
    (),
    LineParseError,
>)
    ensures
        out == if fill_type == ValidationType::DescriptiveEntry && !is_left_justified(i@) {
            Err::<(), LineParseError>(LineParseError::DescriptiveFileEntry)
        } else {
            Ok(())
        },
{
    match fill_type {
        ValidationType::DescriptiveEntry => {
            if validate_blank(i.as_str()) || starts_with_char(i.as_str(), ' ') {
                Err(LineParseError::DescriptiveFileEntry)
            } else {
                Ok(())
            }
        },
        _ => Ok(()),
    }
}

/// Checks the header's settlement date. For a tag other than the date's the
/// answer is `Ok`. For the date's, it fails exactly when the calendar check
/// does: under some draw of the century digits, and, for every date but
/// 29 February of a year written `00`, exactly when the date names no day
/// of the year `20YY`.
pub fn validate_date(i: String, fill_type: ValidationType) -> (out: Result<(), LineParseError>)
    ensures
        fill_type != ValidationType::DescriptiveDate ==> out is Ok,
        out is Err ==> out == Err::<(), LineParseError>(LineParseError::DescriptiveDate),
        fill_type == ValidationType::DescriptiveDate ==> exists|c1: int, c2: int|
            is_century_digit(c1) && is_century_digit(c2) && (out is Ok) == date_accepted(
                i@,
                c1,
                c2,
            ),
        fill_type == ValidationType::DescriptiveDate && !is_century_sensitive(i@) ==> (out is Ok)
            == is_settlement_date(i@),
{
    match fill_type {
        ValidationType::DescriptiveDate => {
            if !validate_date_format(i.as_str()) {
                Err(LineParseError::DescriptiveDate)
            } else {
                Ok(())
            }
        },
        _ => Ok(()),
    }
}

/// Checks a transaction's destination branch code: the seven characters
/// must be listed in `branches`. The failure carries the line number and
/// the code as the field holds it.
pub fn validate_bsb_client(
    i: String,
    fill_type: BsbType,
    line_count: &u32,
    branches: &CodeTable,
) -> (out: Result<(), LineParseError>)
    requires
        i@.len() >= 7,
    ensures
        out is Err <==> (fill_type == BsbType::DetailBsb && !branches@.contains(
            i@.subrange(0, 7),
        )),
        out is Err ==> (out matches Err(LineParseError::DetailBsbClient(line, code)) && line
            == *line_count && code@ == i@.subrange(0, 7)),
{
    match fill_type {
        BsbType::DetailBsb => {
            let code = branch_code_of(i.as_str());
            if !branches.contains(code.as_str()) {
                Err(LineParseError::DetailBsbClient(*line_count, code))
            } else {
                Ok(())
            }
        },
        _ => Ok(()),
    }
}

/// The branch code at the head of `i`: its first seven characters.
fn branch_code_of(i: &str) -> (code: String)
    requires
        i@.len() >= 7,
    ensures
        code@ == i@.subrange(0, 7),
{
    match Bsb::deserialise(i) {
        Some((_, bsb)) => {
            let mut code = bsb.first.clone();
            code.append(bsb.sep.as_str());
            code.append(bsb.second.as_str());
            assert(code@ =~= i@.subrange(0, 7));
            code
        },
        None => String::new(),
    }
}

/// Checks a transaction's destination account: after the leading spaces,
/// at least one digit and nothing but digits.
pub fn validate_dest_acct(i: String, fill_type: ValidationType, line_count: &u32) -> (out: Result<
    (),
    LineParseError,
>)
    ensures
        out == if fill_type == ValidationType::DetailDestAccount && !is_right_justified_number(
            i@,
        ) {
            Err::<(), LineParseError>(LineParseError::DetailDestAccount(*line_count))
        } else {
            Ok(())
        },
{
    match fill_type {
        ValidationType::DetailDestAccount => {
            if !right_justified_number(i.as_str()) {
                Err(LineParseError::DetailDestAccount(*line_count))
            } else {
                Ok(())
            }
        },
        _ => Ok(()),
    }
}

/// Checks a transaction's indicator: `N`, `W`, `X`, `Y` or a blank.
pub fn validate_indicator(i: String, fill_type: ValidationType, line_count: &u32) -> (out: Result<
    (),
    LineParseError,
>)
    ensures
        out == if fill_type == ValidationType::DetailIndicator && !is_indicator(i@) {
            Err::<(), LineParseError>(LineParseError::DetailIndicator(*line_count))
        } else {
            Ok(())
        },
{
    match fill_type {
        ValidationType::DetailIndicator => {
            let s = i.as_str();
            let known = char_count(s) == 1 && {
                let c = s.get_char(0);
                c == 'N' || c == 'W' || c == 'X' || c == 'Y' || c == ' '
            };
            if !known {
                Err(LineParseError::DetailIndicator(*line_count))
            } else {
                Ok(())
            }
        },
        _ => Ok(()),
    }
}

/// Checks a transaction's type code: `13` or one of `50` to `57`.
pub fn validate_trans_code(i: String, fill_type: ValidationType, line_count: &u32) -> (out: Result<
    (),
    LineParseError,
>)
    ensures
        out == if fill_type == ValidationType::DetailTransCode && !is_trans_code(i@) {
            Err::<(), LineParseError>(LineParseError::DetailTransCode(*line_count))
        } else {
            Ok(())
        },
{
    match fill_type {
        ValidationType::DetailTransCode => {
            let s = i.as_str();
            let known = char_count(s) == 2 && {
                let a = s.get_char(0);
                let b = s.get_char(1);
                (a == '1' && b == '3') || (a == '5' && b >= '0' && b <= '7')
            };
            if !known {
                Err(LineParseError::DetailTransCode(*line_count))
            } else {
                Ok(())
            }
        },
        _ => Ok(()),
    }
}

/// Checks a transaction's amount: every character a digit, so that the
/// field is filled with zeros and holds no blank.
pub fn validate_amount(i: String, fill_type: ValidationType, line_count: &u32) -> (out: Result<
    (),
    LineParseError,
>)
    ensures
        out == if fill_type == ValidationType::DetailAmount && !all_digits(i@) {
            Err::<(), LineParseError>(LineParseError::DetailAmount(*line_count))
        } else {
            Ok(())
        },
{
    match fill_type {
        ValidationType::DetailAmount => {
            if !validate_number(i.as_str()) {
                Err(LineParseError::DetailAmount(*line_count))
            } else {
                Ok(())
            }
        },
        _ => Ok(()),
    }
}

/// Checks a transaction's payee name: not begun by a space.
pub fn validate_client_name(i: String, fill_type: ValidationType, line_count: &u32) -> (out:
    Result<(), LineParseError>)
    ensures
        out == if fill_type == ValidationType::DetailClientName && i@.len() > 0 && i@[0] == ' ' {
            Err::<(), LineParseError>(LineParseError::DetailClientName(*line_count))
        } else {
            Ok(())
        },
{
    match fill_type {
        ValidationType::DetailClientName => {
            if starts_with_char(i.as_str(), ' ') {
                Err(LineParseError::DetailClientName(*line_count))
            } else {
                Ok(())
            }
        },
        _ => Ok(()),
    }
}

/// Checks a transaction's reference text: begun neither by `0` nor by `-`.
pub fn validate_lodge_ref(i: String, fill_type: ValidationType, line_count: &u32) -> (out: Result<
    (),
    LineParseError,
>)
    ensures
        out == if fill_type == ValidationType::DetailLodgeRef && !is_lodge_ref(i@) {
            Err::<(), LineParseError>(LineParseError::DetailLodgeRef(*line_count))
        } else {
            Ok(())
        },
{
    match fill_type {
        ValidationType::DetailLodgeRef => {
            if starts_with_char(i.as_str(), '0') || starts_with_char(i.as_str(), '-') {
                Err(LineParseError::DetailLodgeRef(*line_count))
            } else {
                Ok(())
            }
        },
        _ => Ok(()),
    }
}

/// Checks a transaction's origin branch code: the seven characters must be
/// listed in `branches`. The failure carries the line number and the code
/// as the field holds it.
pub fn validate_bsb_trace(
    i: String,
    fill_type: BsbType,
    line_count: &u32,
    branches: &CodeTable,
) -> (out: Result<(), LineParseError>)
    requires
        i@.len() >= 7,
    ensures
        out is Err <==> (fill_type == BsbType::DetailTraceBsb && !branches@.contains(
            i@.subrange(0, 7),
        )),
        out is Err ==> (out matches Err(LineParseError::DetailBsbTrace(line, code)) && line
            == *line_count && code@ == i@.subrange(0, 7)),
{
    match fill_type {
        BsbType::DetailTraceBsb => {
            let code = branch_code_of(i.as_str());
            if !branches.contains(code.as_str()) {
                Err(LineParseError::DetailBsbTrace(*line_count, code))
            } else {
                Ok(())
            }
        },
        _ => Ok(()),
    }
}

/// Checks a transaction's origin account: after the leading spaces, at
/// least one digit and nothing but digits.
pub fn validate_src_acct(i: String, fill_type: ValidationType, line_count: &u32) -> (out: Result<
    (),
    LineParseError,
>)
    ensures
        out == if fill_type == ValidationType::DetailSrcAccount && !is_right_justified_number(i@) {
            Err::<(), LineParseError>(LineParseError::DetailSrcAccount(*line_count))
        } else {
            Ok(())
        },
{
    match fill_type {
        ValidationType::DetailSrcAccount => {
            if !right_justified_number(i.as_str()) {
                Err(LineParseError::DetailSrcAccount(*line_count))
            } else {
                Ok(())
            }
        },
        _ => Ok(()),
    }
}

/// Checks a transaction's remitter name: not blank, not begun by a space.
pub fn validate_remitter(i: String, fill_type: ValidationType, line_count: &u32) -> (out: Result<
    (),
    LineParseError,
>)
    ensures
        out == if fill_type == ValidationType::DetailRemitter && !is_left_justified(i@) {
            Err::<(), LineParseError>(LineParseError::DetailRemitter(*line_count))
        } else {
            Ok(())
        },
{
    match fill_type {
        ValidationType::DetailRemitter => {
            if validate_blank(i.as_str()) || starts_with_char(i.as_str(), ' ') {
                Err(LineParseError::DetailRemitter(*line_count))
            } else {
                Ok(())
            }
        },
        _ => Ok(()),
    }
}

/// Checks a transaction's withheld tax: digits only, no space anywhere.
pub fn validate_tax_withhold(i: String, fill_type: ValidationType, line_count: &u32) -> (out:
    Result<(), LineParseError>)
    ensures
        out == if fill_type == ValidationType::DetailTaxWithhold && !all_digits(i@) {
            Err::<(), LineParseError>(LineParseError::DetailTaxWithhold(*line_count))
        } else {
            Ok(())
        },
{
    match fill_type {
        ValidationType::DetailTaxWithhold => {
            if !validate_number(i.as_str()) || ends_with_char(i.as_str(), ' ') {
                proof {
                    if i@.len() > 0 && i@.last() == ' ' {
                        assert(!is_digit_char(i@[i@.len() - 1]));
                    }
                }
                Err(LineParseError::DetailTaxWithhold(*line_count))
            } else {
                Ok(())
            }
        },
        _ => Ok(()),
    }
}

/// Checks one of the trailer's three amounts, which stand at the head of
/// `i`, ten characters each.
pub fn validate_total_field(i: String, amount_type: TotalAmountType) -> (out: Result<
    (),
    LineParseError,
>)
    requires
        i@.len() >= 30,
    ensures
        out == total_field_outcome(i@, amount_type),
{
    match TotalField::deserialise(i.as_str()) {
        Some((_, total_field)) => {
            match amount_type {
                TotalAmountType::Credit => {
                    if !validate_number(total_field.credit.as_str()) {
                        Err(LineParseError::TotalCredit)
                    } else {
                        Ok(())
                    }
                },
                TotalAmountType::Debit => {
                    if !validate_number(total_field.debit.as_str()) {
                        Err(LineParseError::TotalDebit)
                    } else {
                        Ok(())
                    }
                },
                TotalAmountType::Total => {
                    if !validate_number(total_field.total.as_str()) {
                        Err(LineParseError::TotalField)
                    } else if !validate_number(total_field.credit.as_str()) || !validate_number(
                        total_field.debit.as_str(),
                    ) {
                        Err(LineParseError::TotalMalformedCreditDebit)
                    } else {
                        proof {
                            lemma_decimal_value_bound(total_field.credit@);
                            lemma_decimal_value_bound(total_field.debit@);
                            lemma_decimal_value_bound(total_field.total@);
                        }
                        if !validate_trim_then_compute(
                            total_field.credit.as_str(),
                            total_field.debit.as_str(),
                            total_field.total.as_str(),
                        ) {
                            Err(LineParseError::TotalCompute)
                        } else {
                            Ok(())
                        }
                    }
                },
            }
        },
        None => Ok(()),
    }
}

/// Checks the trailer's count of transactions against the number of
/// transaction lines. The count must fit the 32 bits that the failure
/// reports it in.
pub fn validate_record_type_count(i: String, line_count: &u32) -> (out: Result<(), LineParseError>)
    requires
        all_digits(i@) ==> decimal_value(i@) <= u32::MAX,
    ensures
        out == record_count_outcome(i@, *line_count),
{
    match digits_value(i.as_str()) {
        Some(value) => {
            let record_count = value as u32;
            if record_count != *line_count {
                Err(LineParseError::TotalCount(record_count, *line_count))
            } else {
                Ok(())
            }
        },
        None => Err(LineParseError::TotalNonNumeric),
    }
}

/// Whether the total is the credit less the debit, each read as an integer.
/// The three are digit strings whose values fit 128 bits.
pub fn validate_trim_then_compute(credit: &str, debit: &str, total: &str) -> (ok: bool)
    requires
        all_digits(credit@) && decimal_value(credit@) <= u128::MAX,
        all_digits(debit@) && decimal_value(debit@) <= u128::MAX,
        all_digits(total@) && decimal_value(total@) <= u128::MAX,
    ensures
        ok == reconciles(credit@, debit@, total@),
{
    let credit = digits_value(credit);
    let debit = digits_value(debit);
    let total = digits_value(total);
    match (credit, debit, total) {
        (Some(c), Some(d), Some(t)) => c >= d && c - d == t,
        _ => false,
    }
}

/// Reads a digit string as an integer; leading zeros do not count, and a
/// string of zeros, or none, reads as zero. The value must fit 32 bits.
pub fn validate_nonzero_str(i: &str) -> (value: u32)
    requires
        all_digits(i@),
        decimal_value(i@) <= u32::MAX,
    ensures
        value == decimal_value(i@),
{
    match digits_value(i) {
        Some(v) => v as u32,
        None => 0u32,
    }
}

/// Whether the date `DDMMYY` at the head of `i` passes the calendar check.
/// `false` where `i` has fewer than six characters. The check sees the year
/// with two more digits in front, each drawn from 1 to 9; the draw decides
/// for 29 February of a year written `00` and for no other date.
pub fn validate_date_format(i: &str) -> (ok: bool)
    ensures
        exists|c1: int, c2: int|
            is_century_digit(c1) && is_century_digit(c2) && ok == date_accepted(i@, c1, c2),
        !is_century_sensitive(i@) ==> ok == is_settlement_date(i@),
{
    match TwoDigitYears::deserialise(i) {
        Some((_, date)) => {
            let ghost (c1, c2) = choose|c1: int, c2: int|
                is_century_digit(c1) && is_century_digit(c2) && date@ == with_century(
                    i@,
                    c1 as nat,
                    c2 as nat,
                );
            proof {
                lemma_with_century_parts(i@, c1, c2);
            }
            let ok = check_expanded_date(date.as_str());
            proof {
                assert(ok == date_accepted(i@, c1, c2));
                if !is_century_sensitive(i@) {
                    lemma_century_is_immaterial(i@, c1, c2);
                }
            }
            ok
        },
        None => {
            proof {
                assert(false == date_accepted(i@, 1, 1));
            }
            false
        },
    }
}

/// Whether every character of `i` is an ASCII decimal digit.
pub fn validate_number(i: &str) -> (ok: bool)
    ensures
        ok == all_digits(i@),
{
    let n = char_count(i);
    let mut k: usize = 0;
    while k < n
        invariant
            k <= n,
            n == i@.len(),
            forall|j: int| 0 <= j < k ==> is_digit_char(#[trigger] i@[j]),
        decreases n - k,
    {
        let c = i.get_char(k);
        if !(c >= '0' && c <= '9') {
            return false;
        }
        k += 1;
    }
    true
}

/// Whether `i` holds nothing but white space.
pub fn validate_blank(i: &str) -> (blank: bool)
    ensures
        blank == all_white_space(i@),
{
    pattern_matches(BLANK_PATTERN, i)
}

} // verus!
