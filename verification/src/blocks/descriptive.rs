//! The header record: the first line of a file.

use vstd::prelude::*;
use vstd::string::*;
use vstd::std_specs::convert::FromSpecImpl;
use crate::calendar::{date_accepted, is_century_digit, is_century_sensitive, is_settlement_date};
use crate::csv::csv_file::SettlementSettings;
use crate::csv::csv_utils::{fill, left_adjust, left_adjusted, right_adjust, right_adjusted};
use crate::errors::{
    descriptive_record_type_zero_text, descriptive_reel_sequence_text, LineParseError,
};
use crate::layout::{
    extract_fields, fits, join_fields, join_strings, lemma_join_of_split, lemma_join_width,
    lemma_split_fits, lemma_split_of_join, offset_of, split_fields, texts, total_width, widths_of,
};
use crate::parser_utils::{
    is_left_justified, said, text_of, validate_apca_ident, validate_date,
    validate_file_entry, validate_generic_filler_str, validate_self_name, validate_user_name,
};
use crate::reference::CodeTable;
use crate::text::{all_digits, char_count, repeated};
use crate::types::{FillStrategy, ValidationType};

verus! {

/// The header's record-type marker.
pub const RECORD_TYPE: &'static str = "0";

/// The header's sequence marker.
pub const REEL_SEQUENCE: &'static str = "01";

/// The widths of the header's fields, in order: marker, blanks, sequence,
/// bank code, blanks, originator name, originator identifier, description,
/// settlement date, blanks.
pub open spec fn descriptive_layout() -> Seq<nat> {
    seq![1, 17, 2, 3, 7, 26, 6, 12, 6, 40]
}

/// The header's layout covers a whole line.
pub proof fn lemma_descriptive_layout_width()
    ensures
        total_width(descriptive_layout()) == 120,
{
    reveal_with_fuel(offset_of, 11);
}

/// The header's layout, for the field codec.
pub fn descriptive_widths() -> (out: Vec<usize>)
    ensures
        widths_of(out@) == descriptive_layout(),
{
    let out: Vec<usize> = vec![1, 17, 2, 3, 7, 26, 6, 12, 6, 40];
    assert(widths_of(out@) =~= descriptive_layout());
    out
}

/// The text that each of the header's ten rules adds to a report, in the
/// order of the fields; empty where the rule held. `date_ok` is the outcome
/// of the date's calendar check.
pub open spec fn header_findings(
    f: Seq<Seq<char>>,
    banks: Set<Seq<char>>,
    date_ok: bool,
) -> Seq<Seq<char>>
    recommends
        f.len() == 10,
{
    seq![
        said(f[0] == RECORD_TYPE@, descriptive_record_type_zero_text(f[0])),
        said(f[1] == repeated(' ', 17), LineParseError::DescriptiveBlankOne.message()),
        said(f[2] == REEL_SEQUENCE@, descriptive_reel_sequence_text(f[2])),
        said(banks.contains(f[3]), LineParseError::DescriptiveUserName.message()),
        said(f[4] == repeated(' ', 7), LineParseError::DescriptiveBlankTwo.message()),
        said(is_left_justified(f[5]), LineParseError::DescriptiveSelfName.message()),
        said(all_digits(f[6]), LineParseError::DescriptiveApca.message()),
        said(is_left_justified(f[7]), LineParseError::DescriptiveFileEntry.message()),
        said(date_ok, LineParseError::DescriptiveDate.message()),
        said(f[9] == repeated(' ', 40), LineParseError::DescriptiveBlankThree.message()),
    ]
}

/// What validating a header reports: the texts of the rules that failed, in
/// the order of the fields. `date_ok` is the outcome of the date's calendar
/// check.
pub open spec fn header_report(
    f: Seq<Seq<char>>,
    banks: Set<Seq<char>>,
    date_ok: bool,
) -> Seq<char> {
    join_fields(header_findings(f, banks, date_ok))
}

/// The fields of the header that is made of `settings`.
pub open spec fn header_fields_of(settings: SettlementSettings) -> Seq<Seq<char>> {
    seq![
        RECORD_TYPE@,
        repeated(' ', 17),
        REEL_SEQUENCE@,
        settings.bank_name@,
        repeated(' ', 7),
        left_adjusted(settings.user_name@, 26, ' '),
        right_adjusted(settings.apca_number@, 6, '0'),
        left_adjusted(settings.file_description@, 12, ' '),
        settings.settle_date@,
        repeated(' ', 40),
    ]
}

/// Width law: the line of a header whose fields have their declared widths
/// has exactly 120 characters.
pub proof fn lemma_descriptive_line_width(block: DescriptiveBlock)
    requires
        block.wf(),
    ensures
        join_fields(block@).len() == 120,
{
    block.lemma_wf_fits();
    lemma_descriptive_layout_width();
    lemma_join_width(block@, descriptive_layout());
}

/// Round trip law, record first: writing a header whose fields have their
/// declared widths and cutting the line again gives the same fields.
pub proof fn lemma_descriptive_round_trip(block: DescriptiveBlock)
    requires
        block.wf(),
    ensures
        split_fields(join_fields(block@), descriptive_layout()) == block@,
{
    block.lemma_wf_fits();
    lemma_split_of_join(block@, descriptive_layout());
}

/// Round trip law, line first: cutting a line of 120 characters into the
/// fields of a header and writing them again gives the same line.
pub proof fn lemma_descriptive_line_round_trip(line: Seq<char>)
    requires
        line.len() == 120,
    ensures
        join_fields(split_fields(line, descriptive_layout())) == line,
        fits(split_fields(line, descriptive_layout()), descriptive_layout()),
{
    lemma_descriptive_layout_width();
    lemma_join_of_split(line, descriptive_layout());
}

/// The header record.
#[derive(Debug, Clone, Eq, PartialEq, Ord, PartialOrd, Hash, Default)]
pub struct DescriptiveBlock {
    pub record_type: String,
    pub blank_1: String,
    pub reel_seq: String,
    pub bank_name: String,
    pub blank_2: String,
    pub user_name: String,
    pub apca_number: String,
    pub file_description: String,
    pub settle_date: String,
    pub blank_3: String,
}

impl View for DescriptiveBlock {
    type V = Seq<Seq<char>>;

    /// The fields in the order of the line.
    open spec fn view(&self) -> Seq<Seq<char>> {
        seq![
            self.record_type@,
            self.blank_1@,
            self.reel_seq@,
            self.bank_name@,
            self.blank_2@,
            self.user_name@,
            self.apca_number@,
            self.file_description@,
            self.settle_date@,
            self.blank_3@,
        ]
    }
}

impl DescriptiveBlock {
    /// Whether every field has its declared width.
    pub open spec fn wf(&self) -> bool {
        &&& self.record_type@.len() == 1
        &&& self.blank_1@.len() == 17
        &&& self.reel_seq@.len() == 2
        &&& self.bank_name@.len() == 3
        &&& self.blank_2@.len() == 7
        &&& self.user_name@.len() == 26
        &&& self.apca_number@.len() == 6
        &&& self.file_description@.len() == 12
        &&& self.settle_date@.len() == 6
        &&& self.blank_3@.len() == 40
    }

    /// A record is well formed exactly when its fields fit the layout.
    pub proof fn lemma_wf_fits(&self)
        ensures
            self.wf() <==> fits(self@, descriptive_layout()),
    {
        let f = self@;
        let w = descriptive_layout();
        if fits(f, w) {
            assert(f[0].len() == w[0]);
            assert(f[1].len() == w[1]);
            assert(f[2].len() == w[2]);
            assert(f[3].len() == w[3]);
            assert(f[4].len() == w[4]);
            assert(f[5].len() == w[5]);
            assert(f[6].len() == w[6]);
            assert(f[7].len() == w[7]);
            assert(f[8].len() == w[8]);
            assert(f[9].len() == w[9]);
        }
    }

    /// Cuts a header out of the head of `i`. `None` where `i` has fewer
    /// than 120 characters; else what follows the 120 and the record, whose
    /// fields have their declared widths.
    pub fn deserialise(i: &str) -> (out: Option<(&str, DescriptiveBlock)>)
        ensures
            out is Some <==> i@.len() >= 120,
            out matches Some((rest, block)) ==> {
                &&& rest@ == i@.subrange(120, i@.len() as int)
                &&& block@ == split_fields(i@, descriptive_layout())
                &&& block.wf()
            },
    {
        proof {
            lemma_descriptive_layout_width();
        }
        let layout = descriptive_widths();
        match extract_fields(i, &layout) {
            Some(fields) => {
                assert(texts(fields@).len() == 10);
                let block = DescriptiveBlock {
                    record_type: fields[0].clone(),
                    blank_1: fields[1].clone(),
                    reel_seq: fields[2].clone(),
                    bank_name: fields[3].clone(),
                    blank_2: fields[4].clone(),
                    user_name: fields[5].clone(),
                    apca_number: fields[6].clone(),
                    file_description: fields[7].clone(),
                    settle_date: fields[8].clone(),
                    blank_3: fields[9].clone(),
                };
                proof {
                    assert(block@ =~= texts(fields@));
                    lemma_split_fits(i@, descriptive_layout());
                    block.lemma_wf_fits();
                }
                Some((i.substring_char(120, char_count(i)), block))
            },
            None => None,
        }
    }

    /// Checks every field, whatever the earlier ones gave, and returns the
    /// texts of the failures in the order of the fields; the empty text
    /// where every rule held. Never an error. The date's check depends on a
    /// draw for 29 February of a year written `00` and for no other date.
    pub fn validate(&self, banks: &CodeTable) -> (out: Result<String, LineParseError>)
        ensures
            out is Ok,
            exists|c1: int, c2: int|
                is_century_digit(c1) && is_century_digit(c2) && out.unwrap()@ == header_report(
                    self@,
                    banks@,
                    date_accepted(self.settle_date@, c1, c2),
                ),
            !is_century_sensitive(self.settle_date@) ==> out.unwrap()@ == header_report(
                self@,
                banks@,
                is_settlement_date(self.settle_date@),
            ),
    {
        let dated = validate_date(self.settle_date.clone(), ValidationType::DescriptiveDate);
        let ghost (c1, c2) = choose|c1: int, c2: int|
            is_century_digit(c1) && is_century_digit(c2) && (dated is Ok) == date_accepted(
                self.settle_date@,
                c1,
                c2,
            );
        let found: Vec<String> = vec![
            text_of(
                validate_generic_filler_str(
                    self.record_type.clone(),
                    RECORD_TYPE.to_owned(),
                    ValidationType::DescriptiveRecordTypeZero,
                ),
            ),
            text_of(
                validate_generic_filler_str(
                    self.blank_1.clone(),
                    fill(17, FillStrategy::Blank),
                    ValidationType::DescriptiveBlankOne,
                ),
            ),
            text_of(
                validate_generic_filler_str(
                    self.reel_seq.clone(),
                    REEL_SEQUENCE.to_owned(),
                    ValidationType::DescriptiveReelSequence,
                ),
            ),
            text_of(
                validate_user_name(
                    self.bank_name.clone(),
                    ValidationType::DescriptiveUsername,
                    banks,
                ),
            ),
            text_of(
                validate_generic_filler_str(
                    self.blank_2.clone(),
                    fill(7, FillStrategy::Blank),
                    ValidationType::DescriptiveBlankTwo,
                ),
            ),
            text_of(
                validate_self_name(self.user_name.clone(), ValidationType::DescriptiveSelfName),
            ),
            text_of(validate_apca_ident(self.apca_number.clone(), ValidationType::DescriptiveApca)),
            text_of(
                validate_file_entry(
                    self.file_description.clone(),
                    ValidationType::DescriptiveEntry,
                ),
            ),
            text_of(dated),
            text_of(
                validate_generic_filler_str(
                    self.blank_3.clone(),
                    fill(40, FillStrategy::Blank),
                    ValidationType::DescriptiveBlankThree,
                ),
            ),
        ];
        proof {
            assert(texts(found@) =~= header_findings(
                self@,
                banks@,
                date_accepted(self.settle_date@, c1, c2),
            ));
            assert(is_century_digit(c1) && is_century_digit(c2) && join_fields(texts(found@))
                == header_report(self@, banks@, date_accepted(self.settle_date@, c1, c2)));
        }
        Ok(join_strings(&found))
    }

    /// The line of this record: its fields one after the other. A record
    /// whose fields have their declared widths gives 120 characters.
    pub fn to_string(&self) -> (out: String)
        ensures
            out@ == join_fields(self@),
    {
        let fields: Vec<String> = vec![
            self.record_type.clone(),
            self.blank_1.clone(),
            self.reel_seq.clone(),
            self.bank_name.clone(),
            self.blank_2.clone(),
            self.user_name.clone(),
            self.apca_number.clone(),
            self.file_description.clone(),
            self.settle_date.clone(),
            self.blank_3.clone(),
        ];
        assert(texts(fields@) =~= self@);
        join_strings(&fields)
    }
}

impl FromSpecImpl<SettlementSettings> for DescriptiveBlock {
    open spec fn obeys_from_spec() -> bool {
        false
    }

    open spec fn from_spec(v: SettlementSettings) -> Self {
        arbitrary()
    }
}

impl From<SettlementSettings> for DescriptiveBlock {
    /// The header of a file made for `desc_settings`: the constant fields,
    /// the bank code and the date as given, the names padded with blanks on
    /// the right, the identifier padded with zeros on the left.
    fn from(desc_settings: SettlementSettings) -> (out: DescriptiveBlock)
        ensures
            out@ == header_fields_of(desc_settings),
    {
        let out = DescriptiveBlock {
            record_type: RECORD_TYPE.to_owned(),
            blank_1: fill(17, FillStrategy::Blank),
            reel_seq: REEL_SEQUENCE.to_owned(),
            bank_name: desc_settings.bank_name,
            blank_2: fill(7, FillStrategy::Blank),
            user_name: left_adjust(desc_settings.user_name.as_str(), 26usize, FillStrategy::Blank),
            apca_number: right_adjust(
                desc_settings.apca_number.as_str(),
                6usize,
                FillStrategy::Zero,
            ),
            file_description: left_adjust(
                desc_settings.file_description.as_str(),
                12usize,
                FillStrategy::Blank,
            ),
            settle_date: desc_settings.settle_date,
            blank_3: fill(40, FillStrategy::Blank),
        };
        assert(out@ =~= header_fields_of(desc_settings));
        out
    }
}

} // verus!
