//! The transaction record: every line between the first and the last.

use vstd::prelude::*;
use vstd::string::*;
use vstd::std_specs::convert::FromSpecImpl;
use crate::csv::csv_file::{RecordWithConf, RowText, SettlementSettings};
use crate::csv::csv_utils::{left_adjust, left_adjusted, right_adjust, right_adjusted};
use crate::errors::{
    detail_bsb_client_text, detail_bsb_trace_text, detail_record_type_one_text, LineParseError,
};
use crate::layout::{
    extract_fields, fits, join_fields, join_strings, lemma_join_of_split, lemma_join_width,
    lemma_split_fits, lemma_split_of_join, offset_of, split_fields, texts, total_width, widths_of,
};
use crate::parser_utils::{
    is_indicator, is_left_justified, is_lodge_ref, is_right_justified_number, is_trans_code, said,
    text_of, validate_amount, validate_bsb_client, validate_bsb_trace, validate_client_name,
    validate_dest_acct, validate_filler_str_line_counted, validate_indicator, validate_lodge_ref,
    validate_remitter, validate_src_acct, validate_tax_withhold, validate_trans_code,
};
use crate::reference::CodeTable;
use crate::text::{all_digits, char_count};
use crate::types::{BsbType, FillStrategy, ValidationType};

verus! {

/// A transaction's record-type marker.
pub const RECORD_TYPE: &'static str = "1";

/// The indicator of a generated transaction: none.
pub const NO_INDICATOR: &'static str = " ";

/// The type code of a generated transaction: an ordinary credit.
pub const CREDIT_CODE: &'static str = "53";

/// The widths of a transaction's fields, in order: marker, destination
/// branch, destination account, indicator, type code, amount, payee name,
/// reference text, origin branch, origin account, remitter name, withheld
/// tax.
pub open spec fn detail_layout() -> Seq<nat> {
    seq![1, 7, 9, 1, 2, 10, 32, 18, 7, 9, 16, 8]
}

/// A transaction's layout covers a whole line.
pub proof fn lemma_detail_layout_width()
    ensures
        total_width(detail_layout()) == 120,
{
    reveal_with_fuel(offset_of, 13);
}

/// A transaction's layout, for the field codec.
pub fn detail_widths() -> (out: Vec<usize>)
    ensures
        widths_of(out@) == detail_layout(),
{
    let out: Vec<usize> = vec![1, 7, 9, 1, 2, 10, 32, 18, 7, 9, 16, 8];
    assert(widths_of(out@) =~= detail_layout());
    out
}

/// The text that each of a transaction's twelve rules adds to a report, in
/// the order of the fields; empty where the rule held.
pub open spec fn transaction_findings(
    f: Seq<Seq<char>>,
    line: u32,
    branches: Set<Seq<char>>,
) -> Seq<Seq<char>>
    recommends
        f.len() == 12,
        f[1].len() >= 7,
        f[8].len() >= 7,
{
    seq![
        said(f[0] == RECORD_TYPE@, detail_record_type_one_text(line, f[0])),
        said(
            branches.contains(f[1].subrange(0, 7)),
            detail_bsb_client_text(line, f[1].subrange(0, 7)),
        ),
        said(is_right_justified_number(f[2]), LineParseError::DetailDestAccount(line).message()),
        said(is_indicator(f[3]), LineParseError::DetailIndicator(line).message()),
        said(is_trans_code(f[4]), LineParseError::DetailTransCode(line).message()),
        said(all_digits(f[5]), LineParseError::DetailAmount(line).message()),
        said(!(f[6].len() > 0 && f[6][0] == ' '), LineParseError::DetailClientName(line).message()),
        said(is_lodge_ref(f[7]), LineParseError::DetailLodgeRef(line).message()),
        said(
            branches.contains(f[8].subrange(0, 7)),
            detail_bsb_trace_text(line, f[8].subrange(0, 7)),
        ),
        said(is_right_justified_number(f[9]), LineParseError::DetailSrcAccount(line).message()),
        said(is_left_justified(f[10]), LineParseError::DetailRemitter(line).message()),
        said(all_digits(f[11]), LineParseError::DetailTaxWithhold(line).message()),
    ]
}

/// What validating the transaction on line `line` reports: the texts of
/// the rules that failed, in the order of the fields.
pub open spec fn transaction_report(
    f: Seq<Seq<char>>,
    line: u32,
    branches: Set<Seq<char>>,
) -> Seq<char> {
    join_fields(transaction_findings(f, line, branches))
}

/// The fields of the transaction that is made of a row and its settings:
/// destination and amounts from the row, origin from the settings, no
/// indicator, the code of an ordinary credit.
pub open spec fn transaction_fields_of(row: RowText, conf: SettlementSettings) -> Seq<Seq<char>> {
    seq![
        RECORD_TYPE@,
        row.bsb,
        right_adjusted(row.account_number, 9, ' '),
        NO_INDICATOR@,
        CREDIT_CODE@,
        right_adjusted(row.amount, 10, '0'),
        left_adjusted(row.client_name, 32, ' '),
        left_adjusted(row.comment, 18, ' '),
        conf.trace_bsb@,
        right_adjusted(conf.trace_account_number@, 9, ' '),
        left_adjusted(conf.trace_account_name@, 16, ' '),
        right_adjusted(row.tax_withhold, 8, '0'),
    ]
}

/// Width law: the line of a transaction whose fields have their declared widths
/// has exactly 120 characters.
pub proof fn lemma_detail_line_width(block: DetailBlock)
    requires
        block.wf(),
    ensures
        join_fields(block@).len() == 120,
{
    block.lemma_wf_fits();
    lemma_detail_layout_width();
    lemma_join_width(block@, detail_layout());
}

/// Round trip law, record first: writing a transaction whose fields have their
/// declared widths and cutting the line again gives the same fields.
pub proof fn lemma_detail_round_trip(block: DetailBlock)
    requires
        block.wf(),
    ensures
        split_fields(join_fields(block@), detail_layout()) == block@,
{
    block.lemma_wf_fits();
    lemma_split_of_join(block@, detail_layout());
}

/// Round trip law, line first: cutting a line of 120 characters into the
/// fields of a transaction and writing them again gives the same line.
pub proof fn lemma_detail_line_round_trip(line: Seq<char>)
    requires
        line.len() == 120,
    ensures
        join_fields(split_fields(line, detail_layout())) == line,
        fits(split_fields(line, detail_layout()), detail_layout()),
{
    lemma_detail_layout_width();
    lemma_join_of_split(line, detail_layout());
}

/// The transaction record.
#[derive(Debug, Clone, Eq, PartialEq, Ord, PartialOrd, Hash, Default)]
pub struct DetailBlock {
    pub record_type: String,
    pub bsb_number: String,
    pub dest_acct: String,
    pub indicator: String,
    pub trans_code: String,
    pub amount: String,
    pub client_name: String,
    pub lodge_ref: String,
    pub trace_bsb: String,
    pub src_acct: String,
    pub account_name: String,
    pub tax_withhold: String,
}

impl View for DetailBlock {
    type V = Seq<Seq<char>>;

    /// The fields in the order of the line.
    open spec fn view(&self) -> Seq<Seq<char>> {
        seq![
            self.record_type@,
            self.bsb_number@,
            self.dest_acct@,
            self.indicator@,
            self.trans_code@,
            self.amount@,
            self.client_name@,
            self.lodge_ref@,
            self.trace_bsb@,
            self.src_acct@,
            self.account_name@,
            self.tax_withhold@,
        ]
    }
}

impl DetailBlock {
    /// Whether every field has its declared width.
    pub open spec fn wf(&self) -> bool {
        &&& self.record_type@.len() == 1
        &&& self.bsb_number@.len() == 7
        &&& self.dest_acct@.len() == 9
        &&& self.indicator@.len() == 1
        &&& self.trans_code@.len() == 2
        &&& self.amount@.len() == 10
        &&& self.client_name@.len() == 32
        &&& self.lodge_ref@.len() == 18
        &&& self.trace_bsb@.len() == 7
        &&& self.src_acct@.len() == 9
        &&& self.account_name@.len() == 16
        &&& self.tax_withhold@.len() == 8
    }

    /// A record is well formed exactly when its fields fit the layout.
    pub proof fn lemma_wf_fits(&self)
        ensures
            self.wf() <==> fits(self@, detail_layout()),
    {
        let f = self@;
        let w = detail_layout();
        if fits(f, w) {
            assert(f[0].len() == w[0]);
            assert(f[1].len() == w[1]);
            assert(f[2].len() == w[2]);
            assert(f[3].len() == w[3]);
            assert(f[4].len() == w[4]);
            assert(f[5].len() == w[5]);
            assert(f[6].len() == w[6]);
            assert(f[7].len() == w[7]);
            assert(f[8].len() == w[8]);
            assert(f[9].len() == w[9]);
            assert(f[10].len() == w[10]);
            assert(f[11].len() == w[11]);
        }
    }

    /// Cuts a transaction out of the head of `i`. `None` where `i` has
    /// fewer than 120 characters; else what follows the 120 and the record,
    /// whose fields have their declared widths.
    pub fn deserialise(i: &str) -> (out: Option<(&str, DetailBlock)>)
        ensures
            out is Some <==> i@.len() >= 120,
            out matches Some((rest, block)) ==> {
                &&& rest@ == i@.subrange(120, i@.len() as int)
                &&& block@ == split_fields(i@, detail_layout())
                &&& block.wf()
            },
    {
        proof {
            lemma_detail_layout_width();
        }
        let layout = detail_widths();
        match extract_fields(i, &layout) {
            Some(fields) => {
                assert(texts(fields@).len() == 12);
                let block = DetailBlock {
                    record_type: fields[0].clone(),
                    bsb_number: fields[1].clone(),
                    dest_acct: fields[2].clone(),
                    indicator: fields[3].clone(),
                    trans_code: fields[4].clone(),
                    amount: fields[5].clone(),
                    client_name: fields[6].clone(),
                    lodge_ref: fields[7].clone(),
                    trace_bsb: fields[8].clone(),
                    src_acct: fields[9].clone(),
                    account_name: fields[10].clone(),
                    tax_withhold: fields[11].clone(),
                };
                proof {
                    assert(block@ =~= texts(fields@));
                    lemma_split_fits(i@, detail_layout());
                    block.lemma_wf_fits();
                }
                Some((i.substring_char(120, char_count(i)), block))
            },
            None => None,
        }
    }

    /// Checks every field, whatever the earlier ones gave, and returns the
    /// texts of the failures in the order of the fields, each naming
    /// `line_count` as its line; the empty text where every rule held.
    /// Never an error. The two branch codes must have their seven
    /// characters.
    pub fn validate(&self, line_count: &u32, branches: &CodeTable) -> (out: Result<
        String,
        LineParseError,
    >)
        requires
            self.bsb_number@.len() >= 7,
            self.trace_bsb@.len() >= 7,
        ensures
            out is Ok,
            out.unwrap()@ == transaction_report(self@, *line_count, branches@),
    {
        let found: Vec<String> = vec![
            text_of(
                validate_filler_str_line_counted(
                    self.record_type.clone(),
                    RECORD_TYPE.to_owned(),
                    ValidationType::DetailRecordTypeOne,
                    line_count,
                ),
            ),
            text_of(
                validate_bsb_client(
                    self.bsb_number.clone(),
                    BsbType::DetailBsb,
                    line_count,
                    branches,
                ),
            ),
            text_of(
                validate_dest_acct(
                    self.dest_acct.clone(),
                    ValidationType::DetailDestAccount,
                    line_count,
                ),
            ),
            text_of(
                validate_indicator(
                    self.indicator.clone(),
                    ValidationType::DetailIndicator,
                    line_count,
                ),
            ),
            text_of(
                validate_trans_code(
                    self.trans_code.clone(),
                    ValidationType::DetailTransCode,
                    line_count,
                ),
            ),
            text_of(validate_amount(self.amount.clone(), ValidationType::DetailAmount, line_count)),
            text_of(
                validate_client_name(
                    self.client_name.clone(),
                    ValidationType::DetailClientName,
                    line_count,
                ),
            ),
            text_of(
                validate_lodge_ref(
                    self.lodge_ref.clone(),
                    ValidationType::DetailLodgeRef,
                    line_count,
                ),
            ),
            text_of(
                validate_bsb_trace(
                    self.trace_bsb.clone(),
                    BsbType::DetailTraceBsb,
                    line_count,
                    branches,
                ),
            ),
            text_of(
                validate_src_acct(
                    self.src_acct.clone(),
                    ValidationType::DetailSrcAccount,
                    line_count,
                ),
            ),
            text_of(
                validate_remitter(
                    self.account_name.clone(),
                    ValidationType::DetailRemitter,
                    line_count,
                ),
            ),
            text_of(
                validate_tax_withhold(
                    self.tax_withhold.clone(),
                    ValidationType::DetailTaxWithhold,
                    line_count,
                ),
            ),
        ];
        assert(texts(found@) =~= transaction_findings(self@, *line_count, branches@));
        Ok(join_strings(&found))
    }

    /// The line of this record: its fields one after the other. A record
    /// whose fields have their declared widths gives 120 characters.
    pub fn to_string(&self) -> (out: String)
        ensures
            out@ == join_fields(self@),
    {
        let fields: Vec<String> = vec![
            self.record_type.clone(),
            self.bsb_number.clone(),
            self.dest_acct.clone(),
            self.indicator.clone(),
            self.trans_code.clone(),
            self.amount.clone(),
            self.client_name.clone(),
            self.lodge_ref.clone(),
            self.trace_bsb.clone(),
            self.src_acct.clone(),
            self.account_name.clone(),
            self.tax_withhold.clone(),
        ];
        assert(texts(fields@) =~= self@);
        join_strings(&fields)
    }
}

impl FromSpecImpl<RecordWithConf> for DetailBlock {
    open spec fn obeys_from_spec() -> bool {
        false
    }

    open spec fn from_spec(v: RecordWithConf) -> Self {
        arbitrary()
    }
}

impl From<RecordWithConf> for DetailBlock {
    /// The transaction of one payment row: numbers pushed to the right,
    /// names to the left, amounts filled with zeros.
    fn from(rec_conf: RecordWithConf) -> (out: DetailBlock)
        ensures
            out@ == transaction_fields_of(rec_conf.rec@, rec_conf.conf),
    {
        let out = DetailBlock {
            record_type: RECORD_TYPE.to_owned(),
            dest_acct: right_adjust(
                rec_conf.rec.account_number.as_str(),
                9usize,
                FillStrategy::Blank,
            ),
            indicator: NO_INDICATOR.to_owned(),
            trans_code: CREDIT_CODE.to_owned(),
            amount: right_adjust(rec_conf.rec.amount.as_str(), 10usize, FillStrategy::Zero),
            client_name: left_adjust(
                rec_conf.rec.client_name.as_str(),
                32usize,
                FillStrategy::Blank,
            ),
            lodge_ref: left_adjust(rec_conf.rec.comment.as_str(), 18usize, FillStrategy::Blank),
            src_acct: right_adjust(
                rec_conf.conf.trace_account_number.as_str(),
                9usize,
                FillStrategy::Blank,
            ),
            account_name: left_adjust(
                rec_conf.conf.trace_account_name.as_str(),
                16usize,
                FillStrategy::Blank,
            ),
            tax_withhold: right_adjust(
                rec_conf.rec.tax_withhold.as_str(),
                8usize,
                FillStrategy::Zero,
            ),
            bsb_number: rec_conf.rec.bsb,
            trace_bsb: rec_conf.conf.trace_bsb,
        };
        assert(out@ =~= transaction_fields_of(rec_conf.rec@, rec_conf.conf));
        out
    }
}

} // verus!
