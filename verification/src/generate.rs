//! The generation path: from the originator's settings and the payment rows
//! to the text of a file. Nothing is written unless the settings and every
//! row are sound.

use vstd::prelude::*;
use vstd::string::*;
use crate::blocks::descriptive::{
    descriptive_layout, header_fields_of, lemma_descriptive_layout_width, DescriptiveBlock,
};
use crate::blocks::detail::{
    detail_layout, lemma_detail_layout_width, transaction_fields_of, DetailBlock,
};
use crate::blocks::total::{
    generated_trailer, lemma_generated_trailer_reconciles, lemma_total_layout_width, total_layout,
    TotalBlock,
};
use crate::calendar::{date_accepted, is_century_digit, is_century_sensitive, is_settlement_date};
use crate::csv::csv_file::{
    ready, row_complaints, settings_complaints, text_or, CsvRecord, RecordWithConf,
    SettlementSettings, TotalRecord,
};
use crate::csv::csv_utils::{
    amount_complaint, digits_complaint, normalised_amount, AMOUNT_DECIMALS, AMOUNT_DIGITS,
    DEFAULT_TAX_WITHHOLD, TAX_WITHHOLD_DECIMALS, TAX_WITHHOLD_DIGITS,
};
use crate::layout::{fits, join_fields, lemma_join_width};
use crate::patterns::is_two_decimal_amount;
use crate::reference::ReferenceData;
use crate::text::{
    all_digits, decimal_value, digits_value, lemma_decimal_value_bound, lemma_without_char_absent,
    number_text, skip_leading, trimmed, without_char,
};

verus! {

/// Why no file was made.
#[derive(Debug, Clone, PartialEq, Eq)]
pub enum GenerateError {
    /// The settings are unsound; the complaints, in the order of the checks.
    Settings(Vec<&'static str>),
    /// Some row is unsound; for each row in order, its complaints, none for
    /// a sound one.
    Rows(Vec<Vec<&'static str>>),
}

/// Whether no row has a complaint.
pub open spec fn rows_sound(rows: Seq<CsvRecord>, branches: Set<Seq<char>>) -> bool {
    forall|k: int|
        0 <= k < rows.len() ==> row_complaints(ready(#[trigger] rows[k]), branches).len() == 0
}

/// The sum of the rows' amounts, in cents.
pub open spec fn amounts_sum(rows: Seq<CsvRecord>) -> nat
    decreases rows.len(),
{
    if rows.len() == 0 {
        0
    } else {
        amounts_sum(rows.drop_last()) + decimal_value(ready(rows.last()).amount)
    }
}

/// The transaction lines of the rows, each ended by a line break.
pub open spec fn transactions_text(rows: Seq<CsvRecord>, conf: SettlementSettings) -> Seq<char>
    decreases rows.len(),
{
    if rows.len() == 0 {
        Seq::empty()
    } else {
        transactions_text(rows.drop_last(), conf) + join_fields(
            transaction_fields_of(ready(rows.last()), conf),
        ) + "\n"@
    }
}

/// The text of the file that is made of settings and rows: the header, one
/// transaction for each row in order, and the trailer with the number of
/// rows and the sum of their amounts; each line ended by a line break.
pub open spec fn generated_text(settings: SettlementSettings, rows: Seq<CsvRecord>) -> Seq<char> {
    join_fields(header_fields_of(settings)) + "\n"@ + transactions_text(rows, settings)
        + join_fields(generated_trailer(rows.len(), amounts_sum(rows))) + "\n"@
}

/// Whether `out` is what generation gives when the calendar check of the
/// settlement date came out as `date_ok`: the complaints about the
/// settings, else those about the rows, else the text of the file.
pub open spec fn generation_outcome(
    out: Result<String, GenerateError>,
    settings: SettlementSettings,
    rows: Seq<CsvRecord>,
    reference: ReferenceData,
    date_ok: bool,
) -> bool {
    if settings_complaints(settings, reference, date_ok).len() > 0 {
        out matches Err(GenerateError::Settings(said)) && said@ == settings_complaints(
            settings,
            reference,
            date_ok,
        )
    } else if !rows_sound(rows, reference.branches@) {
        out matches Err(GenerateError::Rows(said)) && said@.len() == rows.len() && forall|k: int|
            0 <= k < rows.len() ==> (#[trigger] said@[k])@ == row_complaints(
                ready(rows[k]),
                reference.branches@,
            )
    } else {
        out matches Ok(text) && text@ == generated_text(settings, rows)
    }
}

/// Taking a character out leaves none of it.
pub proof fn lemma_without_char_gone(s: Seq<char>, c: char)
    ensures
        !without_char(s, c).contains(c),
    decreases s.len(),
{
    if s.len() > 0 {
        lemma_without_char_gone(s.drop_last(), c);
        let rest = without_char(s.drop_last(), c);
        if s.last() != c {
            let all = rest.push(s.last());
            if all.contains(c) {
                let i = choose|i: int| 0 <= i < all.len() && all[i] == c;
                if i < rest.len() {
                    assert(rest[i] == c);
                }
            }
        }
    }
}

/// An amount in cents that draws no complaint is digits only, and no more
/// of them than its limit.
pub proof fn lemma_sound_digits(
    raw: Seq<char>,
    limit: nat,
    digits_text: &'static str,
    decimals_text: &'static str,
)
    requires
        digits_complaint(normalised_amount(raw), limit, digits_text, decimals_text) is None,
    ensures
        all_digits(normalised_amount(raw)),
        normalised_amount(raw).len() <= limit,
{
    let cents = normalised_amount(raw);
    if is_two_decimal_amount(raw) {
        lemma_without_char_gone(raw, '.');
    } else if cents.contains('.') {
        assert(is_two_decimal_amount(cents));
    }
    lemma_without_char_absent(cents, '.');
}

/// A row's amount in cents that draws no complaint is one to ten digits and
/// reads as less than ten to the power ten.
pub proof fn lemma_sound_amount(raw: Seq<char>)
    requires
        amount_complaint(normalised_amount(raw)) is None,
    ensures
        all_digits(normalised_amount(raw)),
        1 <= normalised_amount(raw).len() <= 10,
        decimal_value(normalised_amount(raw)) < 10_000_000_000,
{
    lemma_sound_digits(raw, 10, AMOUNT_DIGITS, AMOUNT_DECIMALS);
    lemma_decimal_value_bound(normalised_amount(raw));
}

/// Width law of generation, header: settings that draw no complaint make a
/// header whose fields have their declared widths; its line has 120
/// characters.
pub proof fn lemma_generated_header_fits(
    settings: SettlementSettings,
    reference: ReferenceData,
    c1: int,
    c2: int,
)
    requires
        settings_complaints(
            settings,
            reference,
            date_accepted(settings.settle_date@, c1, c2),
        ).len() == 0,
    ensures
        fits(header_fields_of(settings), descriptive_layout()),
        join_fields(header_fields_of(settings)).len() == 120,
{
    reveal_strlit("0");
    reveal_strlit("01");
    let f = header_fields_of(settings);
    assert(fits(f, descriptive_layout())) by {
        assert(f[0].len() == 1 && f[1].len() == 17 && f[2].len() == 2 && f[3].len() == 3);
        assert(f[4].len() == 7 && f[5].len() == 26 && f[6].len() == 6 && f[7].len() == 12);
        assert(f[8].len() == 6 && f[9].len() == 40);
    }
    lemma_descriptive_layout_width();
    lemma_join_width(f, descriptive_layout());
}

/// Width law of generation, transactions: a row that draws no complaint,
/// with settings that draw none, makes a transaction whose fields have
/// their declared widths; its line has 120 characters.
pub proof fn lemma_generated_transaction_fits(
    row: CsvRecord,
    settings: SettlementSettings,
    reference: ReferenceData,
    c1: int,
    c2: int,
)
    requires
        settings_complaints(
            settings,
            reference,
            date_accepted(settings.settle_date@, c1, c2),
        ).len() == 0,
        row_complaints(ready(row), reference.branches@).len() == 0,
    ensures
        fits(transaction_fields_of(ready(row), settings), detail_layout()),
        join_fields(transaction_fields_of(ready(row), settings)).len() == 120,
{
    reveal_strlit("1");
    reveal_strlit(" ");
    reveal_strlit("53");
    lemma_sound_amount(skip_leading(trimmed(row.amount@), '$'));
    lemma_sound_digits(
        skip_leading(trimmed(text_or(row.tax_withhold, DEFAULT_TAX_WITHHOLD@)), '$'),
        8,
        TAX_WITHHOLD_DIGITS,
        TAX_WITHHOLD_DECIMALS,
    );
    let f = transaction_fields_of(ready(row), settings);
    assert(fits(f, detail_layout())) by {
        assert(f[0].len() == 1 && f[1].len() == 7 && f[2].len() == 9 && f[3].len() == 1);
        assert(f[4].len() == 2 && f[5].len() == 10 && f[6].len() == 32 && f[7].len() == 18);
        assert(f[8].len() == 7 && f[9].len() == 9 && f[10].len() == 16 && f[11].len() == 8);
    }
    lemma_detail_layout_width();
    lemma_join_width(f, detail_layout());
}

/// Width law of generation, trailer: a count below ten to the power six and
/// a sum below ten to the power ten make a trailer whose fields have their
/// declared widths; its line has 120 characters.
pub proof fn lemma_generated_trailer_fits(count: nat, sum: nat)
    requires
        count < 1_000_000,
        sum < 10_000_000_000,
    ensures
        fits(generated_trailer(count, sum), total_layout()),
        join_fields(generated_trailer(count, sum)).len() == 120,
{
    reveal_strlit("7");
    reveal_strlit("999-999");
    lemma_generated_trailer_reconciles(count, sum);
    let f = generated_trailer(count, sum);
    assert(fits(f, total_layout())) by {
        assert(f[0].len() == 1 && f[1].len() == 7 && f[2].len() == 12 && f[3].len() == 30);
        assert(f[4].len() == 24 && f[5].len() == 6 && f[6].len() == 40);
    }
    lemma_total_layout_width();
    lemma_join_width(f, total_layout());
}

/// Makes the rows ready and checks each of them, whatever the earlier ones
/// gave. Where every row is sound: one transaction for each row in order,
/// the number of rows, and the sum of their amounts in cents. Else, for
/// each row in order, its complaints.
pub fn read_settings(
    settle_setting: &SettlementSettings,
    rec: &Vec<CsvRecord>,
    reference: &ReferenceData,
) -> (out: Result<(Vec<DetailBlock>, u32, u128), Vec<Vec<&'static str>>>)
    requires
        rec@.len() <= u32::MAX,
    ensures
        match out {
            Ok((details, line_count, total)) => {
                &&& rows_sound(rec@, reference.branches@)
                &&& line_count == rec@.len()
                &&& total == amounts_sum(rec@)
                &&& details@.len() == rec@.len()
                &&& forall|k: int|
                    0 <= k < rec@.len() ==> (#[trigger] details@[k])@ == transaction_fields_of(
                        ready(rec@[k]),
                        *settle_setting,
                    )
            },
            Err(said) => {
                &&& !rows_sound(rec@, reference.branches@)
                &&& said@.len() == rec@.len()
                &&& forall|k: int|
                    0 <= k < rec@.len() ==> (#[trigger] said@[k])@ == row_complaints(
                        ready(rec@[k]),
                        reference.branches@,
                    )
            },
        },
{
    let mut err_count = 0u32;
    let mut said: Vec<Vec<&'static str>> = Vec::new();
    let mut k: usize = 0;
    while k < rec.len()
        invariant
            k <= rec@.len(),
            rec@.len() <= u32::MAX,
            err_count <= k,
            said@.len() == k,
            forall|j: int|
                0 <= j < k ==> (#[trigger] said@[j])@ == row_complaints(
                    ready(rec@[j]),
                    reference.branches@,
                ),
            err_count == 0 <==> forall|j: int|
                0 <= j < k ==> row_complaints(ready(#[trigger] rec@[j]), reference.branches@).len()
                    == 0,
        decreases rec@.len() - k,
    {
        let rec_conf = RecordWithConf::new(&rec[k], settle_setting.duplicate());
        let complaints = rec_conf.validate(reference, &mut err_count);
        said.push(complaints);
        k += 1;
    }
    if err_count > 0u32 {
        return Err(said);
    }
    let mut details: Vec<DetailBlock> = Vec::new();
    let mut total: u128 = 0;
    let mut line_count: u32 = 0;
    let mut k: usize = 0;
    assert(rec@.take(0) =~= Seq::<CsvRecord>::empty());
    while k < rec.len()
        invariant
            k <= rec@.len(),
            rec@.len() <= u32::MAX,
            rows_sound(rec@, reference.branches@),
            line_count == k,
            total == amounts_sum(rec@.take(k as int)),
            total <= k * 10_000_000_000,
            details@.len() == k,
            forall|j: int|
                0 <= j < k ==> (#[trigger] details@[j])@ == transaction_fields_of(
                    ready(rec@[j]),
                    *settle_setting,
                ),
        decreases rec@.len() - k,
    {
        line_count += 1u32;
        let recs = RecordWithConf::new(&rec[k], settle_setting.duplicate());
        proof {
            let row = rec@[k as int];
            assert(row_complaints(ready(row), reference.branches@).len() == 0);
            lemma_sound_amount(skip_leading(trimmed(row.amount@), '$'));
            assert(rec@.take(k + 1).drop_last() =~= rec@.take(k as int));
            assert(rec@.take(k + 1).last() == row);
        }
        let cents = match digits_value(recs.rec.amount.as_str()) {
            Some(value) => value,
            None => 0,
        };
        total = total + cents;
        let detail_block = DetailBlock::from(recs);
        details.push(detail_block);
        k += 1;
    }
    assert(rec@.take(k as int) =~= rec@);
    Ok((details, line_count, total))
}

/// Makes the text of a file. Unsound settings stop before any row is
/// looked at; an unsound row stops before anything is written. Else the
/// text is the header, one transaction for each row and the trailer.
/// The calendar check of the settlement date depends on a draw for
/// 29 February of a year written `00` and for no other date.
pub fn aba_gen(
    settle_setting: SettlementSettings,
    rec: &Vec<CsvRecord>,
    reference: &ReferenceData,
) -> (out: Result<String, GenerateError>)
    requires
        rec@.len() <= u32::MAX,
    ensures
        exists|c1: int, c2: int|
            is_century_digit(c1) && is_century_digit(c2) && generation_outcome(
                out,
                settle_setting,
                rec@,
                *reference,
                date_accepted(settle_setting.settle_date@, c1, c2),
            ),
        !is_century_sensitive(settle_setting.settle_date@) ==> generation_outcome(
            out,
            settle_setting,
            rec@,
            *reference,
            is_settlement_date(settle_setting.settle_date@),
        ),
{
    let complaints = settle_setting.validate(reference);
    let ghost (c1, c2) = choose|c1: int, c2: int|
        is_century_digit(c1) && is_century_digit(c2) && complaints@ == settings_complaints(
            settle_setting,
            *reference,
            date_accepted(settle_setting.settle_date@, c1, c2),
        );
    if complaints.len() > 0 {
        let out = Err(GenerateError::Settings(complaints));
        proof {
            assert(is_century_digit(c1) && is_century_digit(c2) && generation_outcome(
                out,
                settle_setting,
                rec@,
                *reference,
                date_accepted(settle_setting.settle_date@, c1, c2),
            ));
        }
        return out;
    }
    let (details, line_count, total) = match read_settings(&settle_setting, rec, reference) {
        Ok(made) => made,
        Err(said) => {
            let out = Err(GenerateError::Rows(said));
            proof {
                assert(is_century_digit(c1) && is_century_digit(c2) && generation_outcome(
                    out,
                    settle_setting,
                    rec@,
                    *reference,
                    date_accepted(settle_setting.settle_date@, c1, c2),
                ));
            }
            return out;
        },
    };
    let total_record = TotalRecord::new(
        number_text(line_count as u128),
        number_text(total),
    );
    let total_block = TotalBlock::from(total_record);
    assert(total_block@ =~= generated_trailer(rec@.len(), amounts_sum(rec@)));
    let ghost settings = settle_setting;
    let desc_block = DescriptiveBlock::from(settle_setting);

    let mut aba = desc_block.to_string();
    aba.append("\n");
    let ghost head = aba@;
    let mut k: usize = 0;
    assert(rec@.take(0) =~= Seq::<CsvRecord>::empty());
    assert(aba@ =~= head + transactions_text(rec@.take(0), settings));
    while k < details.len()
        invariant
            k <= details@.len(),
            details@.len() == rec@.len(),
            forall|j: int|
                0 <= j < rec@.len() ==> (#[trigger] details@[j])@ == transaction_fields_of(
                    ready(rec@[j]),
                    settings,
                ),
            aba@ == head + transactions_text(rec@.take(k as int), settings),
        decreases details@.len() - k,
    {
        proof {
            assert(rec@.take(k + 1).drop_last() =~= rec@.take(k as int));
            assert(rec@.take(k + 1).last() == rec@[k as int]);
        }
        aba.append(details[k].to_string().as_str());
        aba.append("\n");
        k += 1;
        assert(aba@ =~= head + transactions_text(rec@.take(k as int), settings));
    }
    assert(rec@.take(k as int) =~= rec@);
    aba.append(total_block.to_string().as_str());
    aba.append("\n");
    assert(aba@ =~= generated_text(settings, rec@));
    let out = Ok(aba);
    proof {
        assert(is_century_digit(c1) && is_century_digit(c2) && generation_outcome(
            out,
            settings,
            rec@,
            *reference,
            date_accepted(settings.settle_date@, c1, c2),
        ));
    }
    out
}

} // verus!
