//! The failures that field validation reports, and the text of each.

use vstd::prelude::*;
use vstd::string::*;
use crate::text::{decimal_text, number_text};

verus! {

/// One failed field rule. Header and trailer failures name a fixed line;
/// transaction failures carry the 1-based number of their line. Where the
/// rule compares with a constant, the value that was found comes along.
#[non_exhaustive]
#[derive(Debug, Clone, PartialEq, Eq)]
pub enum LineParseError {
    DescriptiveRecordTypeZero(String),
    DescriptiveBlankOne,
    DescriptiveReelSequence(String),
    DescriptiveUserName,
    DescriptiveBlankTwo,
    DescriptiveSelfName,
    DescriptiveApca,
    DescriptiveFileEntry,
    DescriptiveDate,
    DescriptiveBlankThree,
    DetailRecordTypeOne(u32, String),
    DetailBsbClient(u32, String),
    DetailDestAccount(u32),
    DetailIndicator(u32),
    DetailTransCode(u32),
    DetailAmount(u32),
    DetailClientName(u32),
    DetailLodgeRef(u32),
    DetailBsbTrace(u32, String),
    DetailSrcAccount(u32),
    DetailRemitter(u32),
    DetailTaxWithhold(u32),
    TotalTypeSeven(String),
    TotalBsbFiller(String),
    TotalBlankOne,
    TotalField,
    TotalCompute,
    TotalMalformedCreditDebit,
    TotalCredit,
    TotalDebit,
    TotalBlankTwo,
    TotalNonNumeric,
    TotalCount(u32, u32),
    TotalBlankThree,
}

/// The text of `DescriptiveRecordTypeZero` for the value found.
pub open spec fn descriptive_record_type_zero_text(value: Seq<char>) -> Seq<char> {
    "- At line 1 in the descriptive block at character position 1, it must be 0 not "@
        + value
        + "\n"@
}

/// The text of `DescriptiveReelSequence` for the value found.
pub open spec fn descriptive_reel_sequence_text(value: Seq<char>) -> Seq<char> {
    "- At line 1 in the descriptive block between character position 19 - 20, all must be 01 not "@
        + value
        + "\n"@
}

/// The text of `DetailRecordTypeOne` for the value found.
pub open spec fn detail_record_type_one_text(line: u32, value: Seq<char>) -> Seq<char> {
    "- At line "@
        + decimal_text(line as nat)
        + " in the detail block at character position 1, it must be 1 not "@
        + value
        + "\n"@
}

/// The text of `DetailBsbClient` for the value found.
pub open spec fn detail_bsb_client_text(line: u32, value: Seq<char>) -> Seq<char> {
    "- At line "@
        + decimal_text(line as nat)
        + " in the detail block between character position 2 - 7, it must contain valid BSB number, but you have "@
        + value
        + "\n"@
}

/// The text of `DetailBsbTrace` for the value found.
pub open spec fn detail_bsb_trace_text(line: u32, value: Seq<char>) -> Seq<char> {
    "- At line "@
        + decimal_text(line as nat)
        + " in the detail block between character position 81 - 87, it must contain valid BSB number, but you have "@
        + value
        + "\n"@
}

/// The text of `TotalTypeSeven` for the value found.
pub open spec fn total_type_seven_text(value: Seq<char>) -> Seq<char> {
    "- At the last line in the total block at character position 1, it must be 7 not "@
        + value
        + "\n"@
}

/// The text of `TotalBsbFiller` for the value found.
pub open spec fn total_bsb_filler_text(value: Seq<char>) -> Seq<char> {
    "- At the last line in the total block between character position 2 - 8, it must be 999-999 not "@
        + value
        + "\n"@
}

impl LineParseError {
    /// The text of this failure: one line, ended by a line break.
    pub open spec fn message(self) -> Seq<char> {
        match self {
            LineParseError::DescriptiveRecordTypeZero(value) => descriptive_record_type_zero_text(value@),
            LineParseError::DescriptiveBlankOne => "- At line 1 in the descriptive block between character position 2 - 18, all must be 17 blanks\n"@,
            LineParseError::DescriptiveReelSequence(value) => descriptive_reel_sequence_text(value@),
            LineParseError::DescriptiveUserName => "- At line 1 in the descriptive block between character position 21 - 23, it must contain valid 3 character bank code\n"@,
            LineParseError::DescriptiveBlankTwo => "- At line 1 in the descriptive block between character position 24 - 30, all must be 7 blanks\n"@,
            LineParseError::DescriptiveSelfName => "- At line 1 in the descriptive block between character position 31 - 56, it must be left adjusted and must not be all blank\n"@,
            LineParseError::DescriptiveApca => "- At line 1 in the descriptive block between character position 57 - 62, all must be numerics\n"@,
            LineParseError::DescriptiveFileEntry => "- At line 1 in the descriptive block between character position 63 - 74, it must be left adjusted and must not be all blank\n"@,
            LineParseError::DescriptiveDate => "- At line 1 in the descriptive block between character position 75 - 80, the date format must be in DDMMYY\n"@,
            LineParseError::DescriptiveBlankThree => "- At line 1 in the descriptive block between character position 81 - 120, all must be 40 blanks\n"@,
            LineParseError::DetailRecordTypeOne(line, value) => detail_record_type_one_text(line, value@),
            LineParseError::DetailBsbClient(line, value) => detail_bsb_client_text(line, value@),
            LineParseError::DetailDestAccount(line) => "- At line "@
                + decimal_text(line as nat)
                + " in the detail block between character position 9 - 17, all must be numerics and right adjusted\n"@,
            LineParseError::DetailIndicator(line) => "- At line "@
                + decimal_text(line as nat)
                + " in the detail block at character position 18, the indicator must be one of N, W, X, Y, or blank\n"@,
            LineParseError::DetailTransCode(line) => "- At line "@
                + decimal_text(line as nat)
                + " in the detail block between character position 19 - 20, the transaction code must be one of 13, 50, 51, 52, 53, 54, 55, 56, 57\n"@,
            LineParseError::DetailAmount(line) => "- At line "@
                + decimal_text(line as nat)
                + " in the detail block between character position 21 -30, the amount must be right justified\n"@,
            LineParseError::DetailClientName(line) => "- At line "@
                + decimal_text(line as nat)
                + " in the detail block between character position 31 -62, the name must be left justified\n"@,
            LineParseError::DetailLodgeRef(line) => "- At line "@
                + decimal_text(line as nat)
                + " in the detail block between character position 63 - 80, the lodge reference must be left justifed and must not start zeros and hyphens\n"@,
            LineParseError::DetailBsbTrace(line, value) => detail_bsb_trace_text(line, value@),
            LineParseError::DetailSrcAccount(line) => "- At line "@
                + decimal_text(line as nat)
                + " in the detail block between character position 88 - 96, the account number must be right justified\n"@,
            LineParseError::DetailRemitter(line) => "- At line "@
                + decimal_text(line as nat)
                + " in the detail block between character position 97 - 112, the name must be left justified and must not be all blank\n"@,
            LineParseError::DetailTaxWithhold(line) => "- At line "@
                + decimal_text(line as nat)
                + " in the detail block between character position 113 - 120, the amount must be right justified\n"@,
            LineParseError::TotalTypeSeven(value) => total_type_seven_text(value@),
            LineParseError::TotalBsbFiller(value) => total_bsb_filler_text(value@),
            LineParseError::TotalBlankOne => "- At the last line in the total block between character position 9 - 20, all must be 12 blanks\n"@,
            LineParseError::TotalField => "- At the last line in the total block between character position 21 - 30, all must be numerics\n"@,
            LineParseError::TotalCompute => "- At the last line in the total block between character position 21 - 30, total is not equal to credit - debit\n"@,
            LineParseError::TotalMalformedCreditDebit => "- At the last line in the total block between character position 21 - 30, the credit/debit field failed validation, see next error(s)\n"@,
            LineParseError::TotalCredit => "- At the last line in the total block between character position 31 - 40, all must be numerics\n"@,
            LineParseError::TotalDebit => "- At the last line in the total block between character position 41 - 50, all must be numerics\n"@,
            LineParseError::TotalBlankTwo => "- At the last line in the total block between character position 51 - 74, all must be 24 blanks\n"@,
            LineParseError::TotalNonNumeric => "- At the last line in the total block between character position 75 - 80, all must be numerics\n"@,
            LineParseError::TotalCount(found, lines) => "- At the last line in the total block between character position 75 - 80, the record count "@
                + decimal_text(found as nat)
                + " is not equal to the detail line count "@
                + decimal_text(lines as nat)
                + "\n"@,
            LineParseError::TotalBlankThree => "- At the last line in the total block between character position 81 - 120, all must be 40 blanks\n"@,
        }
    }

    /// The text of this failure, for a report.
    pub fn to_string(&self) -> (out: String)
        ensures
            out@ == self.message(),
    {
        match self {
            LineParseError::DescriptiveRecordTypeZero(value) => {
                let mut out = String::from_str("- At line 1 in the descriptive block at character position 1, it must be 0 not ");
                out.append(value.as_str());
                out.append("\n");
                out
            },
            LineParseError::DescriptiveBlankOne => String::from_str("- At line 1 in the descriptive block between character position 2 - 18, all must be 17 blanks\n"),
            LineParseError::DescriptiveReelSequence(value) => {
                let mut out = String::from_str("- At line 1 in the descriptive block between character position 19 - 20, all must be 01 not ");
                out.append(value.as_str());
                out.append("\n");
                out
            },
            LineParseError::DescriptiveUserName => String::from_str("- At line 1 in the descriptive block between character position 21 - 23, it must contain valid 3 character bank code\n"),
            LineParseError::DescriptiveBlankTwo => String::from_str("- At line 1 in the descriptive block between character position 24 - 30, all must be 7 blanks\n"),
            LineParseError::DescriptiveSelfName => String::from_str("- At line 1 in the descriptive block between character position 31 - 56, it must be left adjusted and must not be all blank\n"),
            LineParseError::DescriptiveApca => String::from_str("- At line 1 in the descriptive block between character position 57 - 62, all must be numerics\n"),
            LineParseError::DescriptiveFileEntry => String::from_str("- At line 1 in the descriptive block between character position 63 - 74, it must be left adjusted and must not be all blank\n"),
            LineParseError::DescriptiveDate => String::from_str("- At line 1 in the descriptive block between character position 75 - 80, the date format must be in DDMMYY\n"),
            LineParseError::DescriptiveBlankThree => String::from_str("- At line 1 in the descriptive block between character position 81 - 120, all must be 40 blanks\n"),
            LineParseError::DetailRecordTypeOne(line, value) => {
                let mut out = String::from_str("- At line ");
                out.append(number_text(*line as u128).as_str());
                out.append(" in the detail block at character position 1, it must be 1 not ");
                out.append(value.as_str());
                out.append("\n");
                out
            },
            LineParseError::DetailBsbClient(line, value) => {
                let mut out = String::from_str("- At line ");
                out.append(number_text(*line as u128).as_str());
                out.append(" in the detail block between character position 2 - 7, it must contain valid BSB number, but you have ");
                out.append(value.as_str());
                out.append("\n");
                out
            },
            LineParseError::DetailDestAccount(line) => {
                let mut out = String::from_str("- At line ");
                out.append(number_text(*line as u128).as_str());
                out.append(" in the detail block between character position 9 - 17, all must be numerics and right adjusted\n");
                out
            },
            LineParseError::DetailIndicator(line) => {
                let mut out = String::from_str("- At line ");
                out.append(number_text(*line as u128).as_str());
                out.append(" in the detail block at character position 18, the indicator must be one of N, W, X, Y, or blank\n");
                out
            },
            LineParseError::DetailTransCode(line) => {
                let mut out = String::from_str("- At line ");
                out.append(number_text(*line as u128).as_str());
                out.append(" in the detail block between character position 19 - 20, the transaction code must be one of 13, 50, 51, 52, 53, 54, 55, 56, 57\n");
                out
            },
            LineParseError::DetailAmount(line) => {
                let mut out = String::from_str("- At line ");
                out.append(number_text(*line as u128).as_str());
                out.append(" in the detail block between character position 21 -30, the amount must be right justified\n");
                out
            },
            LineParseError::DetailClientName(line) => {
                let mut out = String::from_str("- At line ");
                out.append(number_text(*line as u128).as_str());
                out.append(" in the detail block between character position 31 -62, the name must be left justified\n");
                out
            },
            LineParseError::DetailLodgeRef(line) => {
                let mut out = String::from_str("- At line ");
                out.append(number_text(*line as u128).as_str());
                out.append(" in the detail block between character position 63 - 80, the lodge reference must be left justifed and must not start zeros and hyphens\n");
                out
            },
            LineParseError::DetailBsbTrace(line, value) => {
                let mut out = String::from_str("- At line ");
                out.append(number_text(*line as u128).as_str());
                out.append(" in the detail block between character position 81 - 87, it must contain valid BSB number, but you have ");
                out.append(value.as_str());
                out.append("\n");
                out
            },
            LineParseError::DetailSrcAccount(line) => {
                let mut out = String::from_str("- At line ");
                out.append(number_text(*line as u128).as_str());
                out.append(" in the detail block between character position 88 - 96, the account number must be right justified\n");
                out
            },
            LineParseError::DetailRemitter(line) => {
                let mut out = String::from_str("- At line ");
                out.append(number_text(*line as u128).as_str());
                out.append(" in the detail block between character position 97 - 112, the name must be left justified and must not be all blank\n");
                out
            },
            LineParseError::DetailTaxWithhold(line) => {
                let mut out = String::from_str("- At line ");
                out.append(number_text(*line as u128).as_str());
                out.append(" in the detail block between character position 113 - 120, the amount must be right justified\n");
                out
            },
            LineParseError::TotalTypeSeven(value) => {
                let mut out = String::from_str("- At the last line in the total block at character position 1, it must be 7 not ");
                out.append(value.as_str());
                out.append("\n");
                out
            },
            LineParseError::TotalBsbFiller(value) => {
                let mut out = String::from_str("- At the last line in the total block between character position 2 - 8, it must be 999-999 not ");
                out.append(value.as_str());
                out.append("\n");
                out
            },
            LineParseError::TotalBlankOne => String::from_str("- At the last line in the total block between character position 9 - 20, all must be 12 blanks\n"),
            LineParseError::TotalField => String::from_str("- At the last line in the total block between character position 21 - 30, all must be numerics\n"),
            LineParseError::TotalCompute => String::from_str("- At the last line in the total block between character position 21 - 30, total is not equal to credit - debit\n"),
            LineParseError::TotalMalformedCreditDebit => String::from_str("- At the last line in the total block between character position 21 - 30, the credit/debit field failed validation, see next error(s)\n"),
            LineParseError::TotalCredit => String::from_str("- At the last line in the total block between character position 31 - 40, all must be numerics\n"),
            LineParseError::TotalDebit => String::from_str("- At the last line in the total block between character position 41 - 50, all must be numerics\n"),
            LineParseError::TotalBlankTwo => String::from_str("- At the last line in the total block between character position 51 - 74, all must be 24 blanks\n"),
            LineParseError::TotalNonNumeric => String::from_str("- At the last line in the total block between character position 75 - 80, all must be numerics\n"),
            LineParseError::TotalCount(found, lines) => {
                let mut out = String::from_str("- At the last line in the total block between character position 75 - 80, the record count ");
                out.append(number_text(*found as u128).as_str());
                out.append(" is not equal to the detail line count ");
                out.append(number_text(*lines as u128).as_str());
                out.append("\n");
                out
            },
            LineParseError::TotalBlankThree => String::from_str("- At the last line in the total block between character position 81 - 120, all must be 40 blanks\n"),
        }
    }
}

} // verus!
