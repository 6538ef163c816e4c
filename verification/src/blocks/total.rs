//! The trailer record: the last line of a file.

use vstd::prelude::*;
use vstd::string::*;
use vstd::std_specs::convert::FromSpecImpl;
use crate::csv::csv_file::TotalRecord;
use crate::csv::csv_utils::{fill, right_adjusted};
use crate::errors::{total_bsb_filler_text, total_type_seven_text, LineParseError};
use crate::layout::{
    extract_fields, fits, join_fields, join_strings, lemma_join_of_split, lemma_join_width,
    lemma_split_fits, lemma_split_of_join, offset_of, split_fields, texts, total_width, widths_of,
};
use crate::parser_utils::{
    reconciles, record_count_outcome, report_of, said, text_of, total_field_outcome,
    validate_generic_filler_str, validate_record_type_count, validate_total_field,
};
use crate::text::{
    all_digits, char_count, decimal_text, decimal_value, is_digit_char, lemma_decimal_text_len,
    lemma_decimal_text_value, lemma_decimal_value_bound, lemma_leading_zeros_digits, lemma_leading_zeros_value, repeated,
};
use crate::types::{FillStrategy, TotalAmountType, ValidationType};

verus! {

/// The trailer's record-type marker.
pub const RECORD_TYPE: &'static str = "7";

/// The constant that stands where a branch code would.
pub const BSB_FILLER: &'static str = "999-999";

/// The debit of a generated file: every generated transaction is a credit.
pub const NO_DEBIT: &'static str = "0000000000";

/// The widths of the trailer's fields, in order: marker, branch constant,
/// blanks, the three amounts, blanks, count, blanks.
pub open spec fn total_layout() -> Seq<nat> {
    seq![1, 7, 12, 30, 24, 6, 40]
}

/// The trailer's layout covers a whole line.
pub proof fn lemma_total_layout_width()
    ensures
        total_width(total_layout()) == 120,
{
    reveal_with_fuel(offset_of, 8);
}

/// The trailer's layout, for the field codec.
pub fn total_widths() -> (out: Vec<usize>)
    ensures
        widths_of(out@) == total_layout(),
{
    let out: Vec<usize> = vec![1, 7, 12, 30, 24, 6, 40];
    assert(widths_of(out@) =~= total_layout());
    out
}

/// The text that each of the trailer's nine rules adds to a report; empty
/// where the rule held. The three amounts are checked in the order total,
/// credit, debit.
pub open spec fn trailer_findings(f: Seq<Seq<char>>, line_count: u32) -> Seq<Seq<char>>
    recommends
        f.len() == 7,
        f[3].len() >= 30,
{
    seq![
        said(f[0] == RECORD_TYPE@, total_type_seven_text(f[0])),
        said(f[1] == BSB_FILLER@, total_bsb_filler_text(f[1])),
        said(f[2] == repeated(' ', 12), LineParseError::TotalBlankOne.message()),
        report_of(total_field_outcome(f[3], TotalAmountType::Total)),
        report_of(total_field_outcome(f[3], TotalAmountType::Credit)),
        report_of(total_field_outcome(f[3], TotalAmountType::Debit)),
        said(f[4] == repeated(' ', 24), LineParseError::TotalBlankTwo.message()),
        report_of(record_count_outcome(f[5], line_count)),
        said(f[6] == repeated(' ', 40), LineParseError::TotalBlankThree.message()),
    ]
}

/// What validating a trailer against `line_count` transaction lines
/// reports: the texts of the rules that failed, in the order of the fields;
/// the three amounts are checked in the order total, credit, debit.
pub open spec fn trailer_report(f: Seq<Seq<char>>, line_count: u32) -> Seq<char> {
    join_fields(trailer_findings(f, line_count))
}

/// The fields of the trailer that is made of a count and a total: total and
/// credit both hold the total, the debit is zero.
pub open spec fn trailer_fields_of(tr: TotalRecord) -> Seq<Seq<char>> {
    seq![
        RECORD_TYPE@,
        BSB_FILLER@,
        repeated(' ', 12),
        tr.total@ + tr.total@ + NO_DEBIT@,
        repeated(' ', 24),
        tr.line_count@,
        repeated(' ', 40),
    ]
}

/// Width law: the line of a trailer whose fields have their declared widths
/// has exactly 120 characters.
pub proof fn lemma_total_line_width(block: TotalBlock)
    requires
        block.wf(),
    ensures
        join_fields(block@).len() == 120,
{
    block.lemma_wf_fits();
    lemma_total_layout_width();
    lemma_join_width(block@, total_layout());
}

/// Round trip law, record first: writing a trailer whose fields have their
/// declared widths and cutting the line again gives the same fields.
pub proof fn lemma_total_round_trip(block: TotalBlock)
    requires
        block.wf(),
    ensures
        split_fields(join_fields(block@), total_layout()) == block@,
{
    block.lemma_wf_fits();
    lemma_split_of_join(block@, total_layout());
}

/// Round trip law, line first: cutting a line of 120 characters into the
/// fields of a trailer and writing them again gives the same line.
pub proof fn lemma_total_line_round_trip(line: Seq<char>)
    requires
        line.len() == 120,
    ensures
        join_fields(split_fields(line, total_layout())) == line,
        fits(split_fields(line, total_layout()), total_layout()),
{
    lemma_total_layout_width();
    lemma_join_of_split(line, total_layout());
}

/// The fields of the trailer of a generated file of `count` transactions
/// that sum to `sum` cents.
pub open spec fn generated_trailer(count: nat, sum: nat) -> Seq<Seq<char>> {
    seq![
        RECORD_TYPE@,
        BSB_FILLER@,
        repeated(' ', 12),
        right_adjusted(decimal_text(sum), 10, '0') + right_adjusted(decimal_text(sum), 10, '0')
            + NO_DEBIT@,
        repeated(' ', 24),
        right_adjusted(decimal_text(count), 6, '0'),
        repeated(' ', 40),
    ]
}

/// Reconciliation law: in the trailer of a generated file the count reads
/// as the number of transactions; and, where the sum fits the ten digits of
/// its field, total and credit read as the sum, the debit as zero, and the
/// total is the credit less the debit, so that the three amounts pass their
/// checks. A sum of eleven digits or more is not cut: it pushes the amounts
/// out of their places, and the law does not hold of it.
pub proof fn lemma_generated_trailer_reconciles(count: nat, sum: nat)
    ensures
        all_digits(generated_trailer(count, sum)[5]),
        decimal_value(generated_trailer(count, sum)[5]) == count,
        sum < 10_000_000_000 ==> ({
            let amounts = generated_trailer(count, sum)[3];
            &&& amounts.len() == 30
            &&& all_digits(amounts)
            &&& decimal_value(amounts.subrange(0, 10)) == sum
            &&& decimal_value(amounts.subrange(10, 20)) == sum
            &&& decimal_value(amounts.subrange(20, 30)) == 0
            &&& reconciles(
                amounts.subrange(10, 20),
                amounts.subrange(20, 30),
                amounts.subrange(0, 10),
            )
            &&& total_field_outcome(amounts, TotalAmountType::Total) is Ok
            &&& total_field_outcome(amounts, TotalAmountType::Credit) is Ok
            &&& total_field_outcome(amounts, TotalAmountType::Debit) is Ok
        }),
        count < 1_000_000 ==> ({
            let counted = generated_trailer(count, sum)[5];
            &&& counted.len() == 6
            &&& record_count_outcome(counted, count as u32) is Ok
        }),
{
    reveal_strlit("0000000000");
    lemma_decimal_text_value(count);
    lemma_decimal_text_value(sum);
    lemma_decimal_text_len(count);
    lemma_decimal_text_len(sum);
    lemma_padded_number(decimal_text(count), 6);
    lemma_padded_number(decimal_text(sum), 10);
    let padded = right_adjusted(decimal_text(sum), 10, '0');
    let amounts = generated_trailer(count, sum)[3];
    if sum < 10_000_000_000 {
        assert(padded.len() == 10);
        assert(amounts.subrange(0, 10) =~= padded);
        assert(amounts.subrange(10, 20) =~= padded);
        assert(amounts.subrange(20, 30) =~= repeated('0', 10));
        assert(NO_DEBIT@ =~= repeated('0', 10));
        lemma_leading_zeros_value(10, Seq::<char>::empty());
        assert(repeated('0', 10) + Seq::<char>::empty() =~= repeated('0', 10));
        assert forall|k: int| 0 <= k < 30 implies is_digit_char(#[trigger] amounts[k]) by {
            if k < 10 {
                assert(amounts[k] == padded[k]);
            } else if k < 20 {
                assert(amounts[k] == padded[k - 10]);
            }
        }
        assert forall|k: int| 0 <= k < 10 implies is_digit_char(
            #[trigger] amounts.subrange(20, 30)[k],
        ) by {}
    }
}

/// A digit string padded with zeros on the left is a digit string that
/// reads as the same number; where it was no longer than the width, it now
/// has the width.
pub proof fn lemma_padded_number(digits: Seq<char>, width: nat)
    requires
        all_digits(digits),
    ensures
        all_digits(right_adjusted(digits, width, '0')),
        decimal_value(right_adjusted(digits, width, '0')) == decimal_value(digits),
        digits.len() <= width ==> right_adjusted(digits, width, '0').len() == width,
{
    if digits.len() < width {
        lemma_leading_zeros_value((width - digits.len()) as nat, digits);
        lemma_leading_zeros_digits((width - digits.len()) as nat, digits);
    }
}

/// The trailer record.
#[derive(Debug, Clone, Eq, PartialEq, Ord, PartialOrd, Hash, Default)]
pub struct TotalBlock {
    pub record_type: String,
    pub bsb_filler: String,
    pub blank_1: String,
    pub total_field: String,
    pub blank_2: String,
    pub record_count: String,
    pub blank_3: String,
}

impl View for TotalBlock {
    type V = Seq<Seq<char>>;

    /// The fields in the order of the line.
    open spec fn view(&self) -> Seq<Seq<char>> {
        seq![
            self.record_type@,
            self.bsb_filler@,
            self.blank_1@,
            self.total_field@,
            self.blank_2@,
            self.record_count@,
            self.blank_3@,
        ]
    }
}

impl TotalBlock {
    /// Whether every field has its declared width.
    pub open spec fn wf(&self) -> bool {
        &&& self.record_type@.len() == 1
        &&& self.bsb_filler@.len() == 7
        &&& self.blank_1@.len() == 12
        &&& self.total_field@.len() == 30
        &&& self.blank_2@.len() == 24
        &&& self.record_count@.len() == 6
        &&& self.blank_3@.len() == 40
    }

    /// A record is well formed exactly when its fields fit the layout.
    pub proof fn lemma_wf_fits(&self)
        ensures
            self.wf() <==> fits(self@, total_layout()),
    {
        let f = self@;
        let w = total_layout();
        if fits(f, w) {
            assert(f[0].len() == w[0]);
            assert(f[1].len() == w[1]);
            assert(f[2].len() == w[2]);
            assert(f[3].len() == w[3]);
            assert(f[4].len() == w[4]);
            assert(f[5].len() == w[5]);
            assert(f[6].len() == w[6]);
        }
    }

    /// Cuts a trailer out of the head of `i`. `None` where `i` has fewer
    /// than 120 characters; else what follows the 120 and the record, whose
    /// fields have their declared widths.
    pub fn deserialise(i: &str) -> (out: Option<(&str, TotalBlock)>)
        ensures
            out is Some <==> i@.len() >= 120,
            out matches Some((rest, block)) ==> {
                &&& rest@ == i@.subrange(120, i@.len() as int)
                &&& block@ == split_fields(i@, total_layout())
                &&& block.wf()
            },
    {
        proof {
            lemma_total_layout_width();
        }
        let layout = total_widths();
        match extract_fields(i, &layout) {
            Some(fields) => {
                assert(texts(fields@).len() == 7);
                let block = TotalBlock {
                    record_type: fields[0].clone(),
                    bsb_filler: fields[1].clone(),
                    blank_1: fields[2].clone(),
                    total_field: fields[3].clone(),
                    blank_2: fields[4].clone(),
                    record_count: fields[5].clone(),
                    blank_3: fields[6].clone(),
                };
                proof {
                    assert(block@ =~= texts(fields@));
                    lemma_split_fits(i@, total_layout());
                    block.lemma_wf_fits();
                }
                Some((i.substring_char(120, char_count(i)), block))
            },
            None => None,
        }
    }

    /// Checks every field, whatever the earlier ones gave, against
    /// `line_count` transaction lines, and returns the texts of the failures
    /// in the order of the fields; the empty text where every rule held.
    /// Never an error. The amounts must have their thirty characters, and
    /// the count no more than nine, so that it fits 32 bits.
    pub fn validate(&self, line_count: &u32) -> (out: Result<String, LineParseError>)
        requires
            self.total_field@.len() >= 30,
            self.record_count@.len() <= 9,
        ensures
            out is Ok,
            out.unwrap()@ == trailer_report(self@, *line_count),
    {
        proof {
            if all_digits(self.record_count@) {
                lemma_decimal_value_bound(self.record_count@);
            }
        }
        let found: Vec<String> = vec![
            text_of(
                validate_generic_filler_str(
                    self.record_type.clone(),
                    RECORD_TYPE.to_owned(),
                    ValidationType::TotalTypeSeven,
                ),
            ),
            text_of(
                validate_generic_filler_str(
                    self.bsb_filler.clone(),
                    BSB_FILLER.to_owned(),
                    ValidationType::TotalBsbFiller,
                ),
            ),
            text_of(
                validate_generic_filler_str(
                    self.blank_1.clone(),
                    fill(12, FillStrategy::Blank),
                    ValidationType::TotalBlankOne,
                ),
            ),
            text_of(validate_total_field(self.total_field.clone(), TotalAmountType::Total)),
            text_of(validate_total_field(self.total_field.clone(), TotalAmountType::Credit)),
            text_of(validate_total_field(self.total_field.clone(), TotalAmountType::Debit)),
            text_of(
                validate_generic_filler_str(
                    self.blank_2.clone(),
                    fill(24, FillStrategy::Blank),
                    ValidationType::TotalBlankTwo,
                ),
            ),
            text_of(validate_record_type_count(self.record_count.clone(), line_count)),
            text_of(
                validate_generic_filler_str(
                    self.blank_3.clone(),
                    fill(40, FillStrategy::Blank),
                    ValidationType::TotalBlankThree,
                ),
            ),
        ];
        assert(texts(found@) =~= trailer_findings(self@, *line_count));
        Ok(join_strings(&found))
    }

    /// The line of this record: its fields one after the other. A record
    /// whose fields have their declared widths gives 120 characters.
    pub fn to_string(&self) -> (out: String)
        ensures
            out@ == join_fields(self@),
    {
        let fields: Vec<String> = vec![
            self.record_type.clone(),
            self.bsb_filler.clone(),
            self.blank_1.clone(),
            self.total_field.clone(),
            self.blank_2.clone(),
            self.record_count.clone(),
            self.blank_3.clone(),
        ];
        assert(texts(fields@) =~= self@);
        join_strings(&fields)
    }
}

impl FromSpecImpl<TotalRecord> for TotalBlock {
    open spec fn obeys_from_spec() -> bool {
        false
    }

    open spec fn from_spec(v: TotalRecord) -> Self {
        arbitrary()
    }
}

impl From<TotalRecord> for TotalBlock {
    /// The trailer of a generated file. Total and credit both get the
    /// total, and the debit is zero: every generated transaction counts as
    /// a credit.
    fn from(tr: TotalRecord) -> (out: TotalBlock)
        ensures
            out@ == trailer_fields_of(tr),
    {
        let mut total_field = tr.total.clone();
        total_field.append(tr.total.as_str());
        total_field.append(NO_DEBIT);
        let out = TotalBlock {
            record_type: RECORD_TYPE.to_owned(),
            bsb_filler: BSB_FILLER.to_owned(),
            blank_1: fill(12, FillStrategy::Blank),
            total_field,
            blank_2: fill(24, FillStrategy::Blank),
            record_count: tr.line_count,
            blank_3: fill(40, FillStrategy::Blank),
        };
        assert(out@ =~= trailer_fields_of(tr));
        out
    }
}

} // verus!
