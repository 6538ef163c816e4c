//! The inputs of the generation path: the originator's settings, payment
//! rows as they are read, and rows made ready for a transaction record.

use vstd::prelude::*;
use vstd::string::*;
use crate::calendar::{date_accepted, is_century_digit, is_century_sensitive, is_settlement_date};
use crate::csv::csv_utils::{
    account_number_complaint, amount_complaint, apca_number_complaint, bank_name_complaint,
    bsb_complaint, comment_complaint, length_complaint, normalise_amount, normalised_amount, noted,
    optional_comment, optional_tax_withhold, right_adjust, right_adjusted, settle_date_complaint,
    tax_withhold_complaint, validate_account_number, validate_bsb, validate_csv_amount,
    validate_csv_apca_number, validate_csv_bank_name, validate_csv_client_name,
    validate_csv_comment, validate_csv_file_description, validate_csv_settle_date,
    validate_csv_tax_withhold, validate_csv_trace_account_name, validate_csv_user_name,
    CLIENT_NAME_LENGTH, DEFAULT_COMMENT, DEFAULT_TAX_WITHHOLD, FILE_DESCRIPTION_LENGTH,
    TRACE_ACCOUNT_NAME_LENGTH, USER_NAME_LENGTH,
};
use crate::reference::ReferenceData;
use crate::text::{skip_leading, trim, trim_start_char, trimmed};
use crate::types::{BsbType, FillStrategy};

verus! {

/// A payment row as it is read: one payee. The reference text and the
/// withheld tax may be absent.
#[derive(Debug, Clone, Eq, PartialEq, Ord, PartialOrd, Hash, Default)]
pub struct CsvRecord {
    pub bsb: String,
    pub account_number: String,
    pub client_name: String,
    pub amount: String,
    pub comment: Option<String>,
    pub tax_withhold: Option<String>,
}

/// A mandatory key that the settings do not hold.
#[derive(Debug, Clone, Copy, PartialEq, Eq)]
pub enum SettingsError {
    MissingKey(&'static str),
}

/// The key of the bank code.
pub const KEY_BANK_NAME: &'static str = "bank_name";

/// The key of the originator name.
pub const KEY_USER_NAME: &'static str = "user_name";

/// The key of the originator identifier.
pub const KEY_APCA_NUMBER: &'static str = "apca_number";

/// The key of the file description.
pub const KEY_FILE_DESCRIPTION: &'static str = "file_description";

/// The key of the settlement date.
pub const KEY_SETTLE_DATE: &'static str = "settle_date";

/// The key of the trace branch code.
pub const KEY_TRACE_BSB: &'static str = "trace_bsb";

/// The key of the trace account number.
pub const KEY_TRACE_ACCOUNT_NUMBER: &'static str = "trace_account_number";

/// The key of the trace account name.
pub const KEY_TRACE_ACCOUNT_NAME: &'static str = "trace_account_name";

/// The value that the first entry with the key `key` gives, if any does.
pub open spec fn value_of(entries: Seq<(String, String)>, key: Seq<char>) -> Option<Seq<char>>
    decreases entries.len(),
{
    if entries.len() == 0 {
        None
    } else if entries[0].0@ == key {
        Some(entries[0].1@)
    } else {
        value_of(entries.drop_first(), key)
    }
}

/// The first of the eight mandatory keys that `entries` lacks, if any.
pub open spec fn first_missing_key(entries: Seq<(String, String)>) -> Option<&'static str> {
    if value_of(entries, KEY_BANK_NAME@) is None {
        Some(KEY_BANK_NAME)
    } else if value_of(entries, KEY_USER_NAME@) is None {
        Some(KEY_USER_NAME)
    } else if value_of(entries, KEY_APCA_NUMBER@) is None {
        Some(KEY_APCA_NUMBER)
    } else if value_of(entries, KEY_FILE_DESCRIPTION@) is None {
        Some(KEY_FILE_DESCRIPTION)
    } else if value_of(entries, KEY_SETTLE_DATE@) is None {
        Some(KEY_SETTLE_DATE)
    } else if value_of(entries, KEY_TRACE_BSB@) is None {
        Some(KEY_TRACE_BSB)
    } else if value_of(entries, KEY_TRACE_ACCOUNT_NUMBER@) is None {
        Some(KEY_TRACE_ACCOUNT_NUMBER)
    } else if value_of(entries, KEY_TRACE_ACCOUNT_NAME@) is None {
        Some(KEY_TRACE_ACCOUNT_NAME)
    } else {
        None
    }
}

/// Looks `key` up in `entries`; the first entry with that key counts.
fn find_value<'a>(entries: &'a Vec<(String, String)>, key: &str) -> (out: Option<&'a String>)
    ensures
        out is Some <==> value_of(entries@, key@) is Some,
        out matches Some(value) ==> value_of(entries@, key@) == Some(value@),
{
    let wanted = key.to_owned();
    let mut k: usize = 0;
    assert(entries@.subrange(0, entries@.len() as int) =~= entries@);
    while k < entries.len()
        invariant
            k <= entries.len(),
            wanted@ == key@,
            value_of(entries@, key@) == value_of(
                entries@.subrange(k as int, entries@.len() as int),
                key@,
            ),
        decreases entries.len() - k,
    {
        let ghost rest = entries@.subrange(k as int, entries@.len() as int);
        assert(rest[0] == entries@[k as int]);
        if entries[k].0 == wanted {
            return Some(&entries[k].1);
        }
        assert(rest.drop_first() =~= entries@.subrange(k + 1, entries@.len() as int));
        k += 1;
    }
    None
}

/// The value of a mandatory key, trimmed; the key itself where it is missing.
fn mandatory(entries: &Vec<(String, String)>, key: &'static str) -> (out: Result<
    String,
    SettingsError,
>)
    ensures
        match value_of(entries@, key@) {
            Some(value) => out is Ok && out.unwrap()@ == trimmed(value),
            None => out == Err::<String, SettingsError>(SettingsError::MissingKey(key)),
        },
{
    match find_value(entries, key) {
        Some(value) => Ok(trim(value.as_str())),
        None => Err(SettingsError::MissingKey(key)),
    }
}

/// The originator's settings: what the header says of the originator, and
/// the trace account that every transaction is stamped with.
#[derive(Debug, Clone, Eq, PartialEq, Ord, PartialOrd, Hash, Default)]
pub struct SettlementSettings {
    pub bank_name: String,
    pub user_name: String,
    pub apca_number: String,
    pub file_description: String,
    pub settle_date: String,
    pub trace_bsb: String,
    pub trace_account_number: String,
    pub trace_account_name: String,
}

/// The complaints about settings, in the order of the checks, when the
/// date's calendar check came out as `date_ok`.
pub open spec fn settings_complaints(
    settings: SettlementSettings,
    reference: ReferenceData,
    date_ok: bool,
) -> Seq<&'static str> {
    let a = noted(Seq::empty(), bank_name_complaint(settings.bank_name@, reference.banks@));
    let b = noted(a, length_complaint(settings.user_name@, 26, USER_NAME_LENGTH));
    let c = noted(b, apca_number_complaint(settings.apca_number@));
    let d = noted(c, length_complaint(settings.file_description@, 12, FILE_DESCRIPTION_LENGTH));
    let e = noted(d, settle_date_complaint(settings.settle_date@, date_ok));
    let f = noted(
        e,
        bsb_complaint(settings.trace_bsb@, BsbType::DetailTraceBsb, reference.branches@),
    );
    let g = noted(
        f,
        account_number_complaint(settings.trace_account_number@, BsbType::DetailTraceBsb),
    );
    noted(g, length_complaint(settings.trace_account_name@, 16, TRACE_ACCOUNT_NAME_LENGTH))
}

impl SettlementSettings {
    /// Reads the settings out of key and value pairs. Each of the eight keys
    /// is mandatory; the first one missing, in the order of the fields, is
    /// the error. Values are trimmed of white space at both ends.
    pub fn new(entries: &Vec<(String, String)>) -> (out: Result<SettlementSettings, SettingsError>)
        ensures
            match first_missing_key(entries@) {
                Some(key) => out == Err::<SettlementSettings, SettingsError>(
                    SettingsError::MissingKey(key),
                ),
                None => out matches Ok(settings) && {
                    &&& settings.bank_name@ == trimmed(value_of(entries@, KEY_BANK_NAME@).unwrap())
                    &&& settings.user_name@ == trimmed(value_of(entries@, KEY_USER_NAME@).unwrap())
                    &&& settings.apca_number@ == trimmed(
                        value_of(entries@, KEY_APCA_NUMBER@).unwrap(),
                    )
                    &&& settings.file_description@ == trimmed(
                        value_of(entries@, KEY_FILE_DESCRIPTION@).unwrap(),
                    )
                    &&& settings.settle_date@ == trimmed(
                        value_of(entries@, KEY_SETTLE_DATE@).unwrap(),
                    )
                    &&& settings.trace_bsb@ == trimmed(value_of(entries@, KEY_TRACE_BSB@).unwrap())
                    &&& settings.trace_account_number@ == trimmed(
                        value_of(entries@, KEY_TRACE_ACCOUNT_NUMBER@).unwrap(),
                    )
                    &&& settings.trace_account_name@ == trimmed(
                        value_of(entries@, KEY_TRACE_ACCOUNT_NAME@).unwrap(),
                    )
                },
            },
    {
        let bank_name = match mandatory(entries, KEY_BANK_NAME) {
            Ok(value) => value,
            Err(e) => {
                return Err(e);
            },
        };
        let user_name = match mandatory(entries, KEY_USER_NAME) {
            Ok(value) => value,
            Err(e) => {
                return Err(e);
            },
        };
        let apca_number = match mandatory(entries, KEY_APCA_NUMBER) {
            Ok(value) => value,
            Err(e) => {
                return Err(e);
            },
        };
        let file_description = match mandatory(entries, KEY_FILE_DESCRIPTION) {
            Ok(value) => value,
            Err(e) => {
                return Err(e);
            },
        };
        let settle_date = match mandatory(entries, KEY_SETTLE_DATE) {
            Ok(value) => value,
            Err(e) => {
                return Err(e);
            },
        };
        let trace_bsb = match mandatory(entries, KEY_TRACE_BSB) {
            Ok(value) => value,
            Err(e) => {
                return Err(e);
            },
        };
        let trace_account_number = match mandatory(entries, KEY_TRACE_ACCOUNT_NUMBER) {
            Ok(value) => value,
            Err(e) => {
                return Err(e);
            },
        };
        let trace_account_name = match mandatory(entries, KEY_TRACE_ACCOUNT_NAME) {
            Ok(value) => value,
            Err(e) => {
                return Err(e);
            },
        };
        Ok(
            SettlementSettings {
                bank_name,
                user_name,
                apca_number,
                file_description,
                settle_date,
                trace_bsb,
                trace_account_number,
                trace_account_name,
            },
        )
    }

    /// Checks every setting, whatever the earlier ones gave, and returns the
    /// complaints in the order of the checks; none where the settings are
    /// sound. The date's check depends on a draw for 29 February of a year
    /// written `00` and for no other date.
    pub fn validate(&self, reference: &ReferenceData) -> (out: Vec<&'static str>)
        ensures
            exists|c1: int, c2: int|
                is_century_digit(c1) && is_century_digit(c2) && out@ == settings_complaints(
                    *self,
                    *reference,
                    date_accepted(self.settle_date@, c1, c2),
                ),
            !is_century_sensitive(self.settle_date@) ==> out@ == settings_complaints(
                *self,
                *reference,
                is_settlement_date(self.settle_date@),
            ),
    {
        let mut res: Vec<&'static str> = Vec::new();
        let _ = validate_csv_bank_name(self.bank_name.as_str(), &mut res, &reference.banks);
        let _ = validate_csv_user_name(self.user_name.as_str(), &mut res);
        let _ = validate_csv_apca_number(self.apca_number.as_str(), &mut res);
        let _ = validate_csv_file_description(self.file_description.as_str(), &mut res);
        let ghost before = res@;
        let _ = validate_csv_settle_date(self.settle_date.as_str(), &mut res);
        let ghost (c1, c2) = choose|c1: int, c2: int|
            is_century_digit(c1) && is_century_digit(c2) && res@ == noted(
                before,
                settle_date_complaint(
                    self.settle_date@,
                    date_accepted(self.settle_date@, c1, c2),
                ),
            );
        let _ = validate_bsb(
            self.trace_bsb.as_str(),
            &mut res,
            BsbType::DetailTraceBsb,
            &reference.branches,
        );
        let _ = validate_account_number(
            self.trace_account_number.as_str(),
            &mut res,
            BsbType::DetailTraceBsb,
        );
        let _ = validate_csv_trace_account_name(self.trace_account_name.as_str(), &mut res);
        proof {
            assert(is_century_digit(c1) && is_century_digit(c2) && res@ == settings_complaints(
                *self,
                *reference,
                date_accepted(self.settle_date@, c1, c2),
            ));
        }
        res
    }

    /// A copy of these settings, text for text.
    pub fn duplicate(&self) -> (out: SettlementSettings)
        ensures
            out.same_texts(*self),
    {
        SettlementSettings {
            bank_name: self.bank_name.clone(),
            user_name: self.user_name.clone(),
            apca_number: self.apca_number.clone(),
            file_description: self.file_description.clone(),
            settle_date: self.settle_date.clone(),
            trace_bsb: self.trace_bsb.clone(),
            trace_account_number: self.trace_account_number.clone(),
            trace_account_name: self.trace_account_name.clone(),
        }
    }

    /// Whether two settings hold the same eight texts.
    pub open spec fn same_texts(self, other: SettlementSettings) -> bool {
        &&& self.bank_name@ == other.bank_name@
        &&& self.user_name@ == other.user_name@
        &&& self.apca_number@ == other.apca_number@
        &&& self.file_description@ == other.file_description@
        &&& self.settle_date@ == other.settle_date@
        &&& self.trace_bsb@ == other.trace_bsb@
        &&& self.trace_account_number@ == other.trace_account_number@
        &&& self.trace_account_name@ == other.trace_account_name@
    }

    /// The eight settings written one after the other, then a line break.
    pub fn to_string(&self) -> (out: String)
        ensures
            out@ == self.bank_name@ + self.user_name@ + self.apca_number@
                + self.file_description@ + self.settle_date@ + self.trace_bsb@
                + self.trace_account_number@ + self.trace_account_name@ + "\n"@,
    {
        let mut out = self.bank_name.clone();
        out.append(self.user_name.as_str());
        out.append(self.apca_number.as_str());
        out.append(self.file_description.as_str());
        out.append(self.settle_date.as_str());
        out.append(self.trace_bsb.as_str());
        out.append(self.trace_account_number.as_str());
        out.append(self.trace_account_name.as_str());
        out.append("\n");
        out
    }
}

/// An amount as a row gives it, made into cents: trimmed, freed of leading
/// `$`, and, where it has two decimals, of its point.
pub open spec fn flattened_amount(raw: Seq<char>) -> Seq<char> {
    normalised_amount(skip_leading(trimmed(raw), '$'))
}

/// The text of an optional value: its own, or the default.
pub open spec fn text_or(value: Option<String>, default: Seq<char>) -> Seq<char> {
    match value {
        Some(text) => text@,
        None => default,
    }
}

/// The texts of a payment row made ready.
pub struct RowText {
    pub bsb: Seq<char>,
    pub account_number: Seq<char>,
    pub client_name: Seq<char>,
    pub amount: Seq<char>,
    pub comment: Seq<char>,
    pub tax_withhold: Seq<char>,
}

/// What a row as read becomes when it is made ready: every value trimmed,
/// amounts in cents, an absent reference text taken as eighteen blanks and
/// an absent withheld tax as eight zeros.
pub open spec fn ready(row: CsvRecord) -> RowText {
    RowText {
        bsb: trimmed(row.bsb@),
        account_number: trimmed(row.account_number@),
        client_name: trimmed(row.client_name@),
        amount: flattened_amount(row.amount@),
        comment: trimmed(text_or(row.comment, DEFAULT_COMMENT@)),
        tax_withhold: flattened_amount(text_or(row.tax_withhold, DEFAULT_TAX_WITHHOLD@)),
    }
}

/// A payment row made ready: every value trimmed, amounts in cents, the
/// optional values filled in.
#[derive(Debug, Clone, Eq, PartialEq, Ord, PartialOrd, Hash, Default)]
pub struct RecordFlatten {
    pub bsb: String,
    pub account_number: String,
    pub client_name: String,
    pub amount: String,
    pub comment: String,
    pub tax_withhold: String,
}

impl View for RecordFlatten {
    type V = RowText;

    open spec fn view(&self) -> RowText {
        RowText {
            bsb: self.bsb@,
            account_number: self.account_number@,
            client_name: self.client_name@,
            amount: self.amount@,
            comment: self.comment@,
            tax_withhold: self.tax_withhold@,
        }
    }
}

impl RecordFlatten {
    /// Makes a row ready. An absent reference text counts as eighteen blanks
    /// and an absent withheld tax as eight zeros, before trimming.
    pub fn new(rec: &CsvRecord) -> (out: RecordFlatten)
        ensures
            out@ == ready(*rec),
    {
        let comment = match optional_comment(rec.comment.clone()) {
            Some(text) => text,
            None => String::new(),
        };
        let tax_withhold = match optional_tax_withhold(rec.tax_withhold.clone()) {
            Some(text) => text,
            None => String::new(),
        };
        RecordFlatten {
            bsb: trim(rec.bsb.as_str()),
            account_number: trim(rec.account_number.as_str()),
            client_name: trim(rec.client_name.as_str()),
            amount: normalise_amount(
                trim_start_char(trim(rec.amount.as_str()).as_str(), '$').as_str(),
            ),
            comment: trim(comment.as_str()),
            tax_withhold: normalise_amount(
                trim_start_char(trim(tax_withhold.as_str()).as_str(), '$').as_str(),
            ),
        }
    }
}

/// The complaints about a row, in the order of the checks.
pub open spec fn row_complaints(row: RowText, branches: Set<Seq<char>>) -> Seq<&'static str> {
    let a = noted(Seq::empty(), bsb_complaint(row.bsb, BsbType::DetailBsb, branches));
    let b = noted(a, account_number_complaint(row.account_number, BsbType::DetailBsb));
    let c = noted(b, length_complaint(row.client_name, 32, CLIENT_NAME_LENGTH));
    let d = noted(c, amount_complaint(row.amount));
    let e = noted(d, comment_complaint(row.comment));
    noted(e, tax_withhold_complaint(row.tax_withhold))
}

/// A row made ready, together with the settings that its transaction
/// record takes the origin from.
#[derive(Debug, Clone, Eq, PartialEq, Ord, PartialOrd, Hash, Default)]
pub struct RecordWithConf {
    pub rec: RecordFlatten,
    pub conf: SettlementSettings,
}

impl RecordWithConf {
    /// Makes the row ready and puts the settings beside it.
    pub fn new(csv_rec: &CsvRecord, conf: SettlementSettings) -> (out: RecordWithConf)
        ensures
            out.conf == conf,
            out.rec@ == ready(*csv_rec),
    {
        RecordWithConf { rec: RecordFlatten::new(csv_rec), conf }
    }

    /// Checks every value of the row, whatever the earlier ones gave, and
    /// returns the complaints in the order of the checks. A row with a
    /// complaint adds one to `err_count`.
    pub fn validate(&self, reference: &ReferenceData, err_count: &mut u32) -> (out: Vec<
        &'static str,
    >)
        requires
            *old(err_count) < u32::MAX,
        ensures
            out@ == row_complaints(self.rec@, reference.branches@),
            *final(err_count) == *old(err_count) + (if out@.len() > 0 {
                1int
            } else {
                0int
            }),
    {
        let mut res: Vec<&'static str> = Vec::new();
        let _ = validate_bsb(
            self.rec.bsb.as_str(),
            &mut res,
            BsbType::DetailBsb,
            &reference.branches,
        );
        let _ = validate_account_number(
            self.rec.account_number.as_str(),
            &mut res,
            BsbType::DetailBsb,
        );
        let _ = validate_csv_client_name(self.rec.client_name.as_str(), &mut res);
        let _ = validate_csv_amount(self.rec.amount.as_str(), &mut res);
        let _ = validate_csv_comment(self.rec.comment.as_str(), &mut res);
        let _ = validate_csv_tax_withhold(self.rec.tax_withhold.as_str(), &mut res);
        if res.len() > 0 {
            *err_count += 1u32;
        }
        res
    }
}

/// The trailer's count and total, as the digits that go into the record.
#[derive(Debug, Clone, Eq, PartialEq, Ord, PartialOrd, Hash, Default)]
pub struct TotalRecord {
    pub line_count: String,
    pub total: String,
}

impl TotalRecord {
    /// Pads the count to six and the total to ten characters with zeros on
    /// the left. Nothing is cut from a longer value.
    pub fn new(line_count: String, total: String) -> (out: TotalRecord)
        ensures
            out.line_count@ == right_adjusted(line_count@, 6, '0'),
            out.total@ == right_adjusted(total@, 10, '0'),
    {
        TotalRecord {
            line_count: right_adjust(line_count.as_str(), 6, FillStrategy::Zero),
            total: right_adjust(total.as_str(), 10, FillStrategy::Zero),
        }
    }
}

} // verus!
