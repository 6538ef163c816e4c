//! A whole file: its lines split into header, transactions and trailer, the
//! structural checks that come before any field is looked at, and the
//! report that validating every record gives.

use vstd::prelude::*;
use vstd::string::*;
use crate::blocks::descriptive::{header_report, DescriptiveBlock, descriptive_layout};
use crate::blocks::detail::{detail_layout, transaction_report, DetailBlock};
use crate::blocks::total::{total_layout, trailer_report, TotalBlock};
use crate::calendar::{date_accepted, is_century_digit, is_century_sensitive, is_settlement_date};
use crate::errors::LineParseError;
use crate::layout::{split_fields, texts};
use crate::reference::ReferenceData;
use crate::text::{char_count, decimal_text, number_text};

verus! {

/// What a report says of a file without any failure.
pub const NO_ERRORS: &'static str = "No errors detected";

/// A file that is rejected before any field is looked at.
#[derive(Debug, Clone, PartialEq, Eq)]
pub enum FileError {
    /// The file has fewer than three lines; the number it has.
    TooFewLines(u32),
    /// Some line has not exactly 120 characters; one text per such line.
    LineLength(Vec<String>),
}

/// The outcome of validating a file: the text of the report, and the number
/// of records that had a failure.
#[derive(Debug, Clone, PartialEq, Eq)]
pub struct ValidationReport {
    pub text: String,
    pub error_count: u32,
}

/// What is said of line `line_number`, which has `count` characters and not
/// 120.
pub open spec fn line_length_text(line_number: nat, count: nat) -> Seq<char> {
    "at line "@ + decimal_text(line_number) + " the character count is "@ + decimal_text(count)
        + ", but in order to form a valid line it must be exactly 120 characters"@
}

/// The lines that have exactly 120 characters, in their order.
pub open spec fn well_sized(lines: Seq<Seq<char>>) -> Seq<Seq<char>>
    decreases lines.len(),
{
    if lines.len() == 0 {
        Seq::empty()
    } else if lines.last().len() == 120 {
        well_sized(lines.drop_last()).push(lines.last())
    } else {
        well_sized(lines.drop_last())
    }
}

/// What is said of the lines that have not exactly 120 characters, in their
/// order, when `before` lines came before these.
pub open spec fn size_complaints(lines: Seq<Seq<char>>, before: nat) -> Seq<Seq<char>>
    decreases lines.len(),
{
    if lines.len() == 0 {
        Seq::empty()
    } else if lines.last().len() == 120 {
        size_complaints(lines.drop_last(), before)
    } else {
        size_complaints(lines.drop_last(), before).push(
            line_length_text(before + lines.len(), lines.last().len()),
        )
    }
}

/// Where no line is complained of, every line has 120 characters, and the
/// other way round.
pub proof fn lemma_no_size_complaints(lines: Seq<Seq<char>>, before: nat)
    ensures
        size_complaints(lines, before).len() == 0 <==> (forall|k: int|
            0 <= k < lines.len() ==> (#[trigger] lines[k]).len() == 120),
        size_complaints(lines, before).len() == 0 ==> well_sized(lines) == lines,
    decreases lines.len(),
{
    if lines.len() > 0 {
        let head = lines.drop_last();
        lemma_no_size_complaints(head, before);
        if size_complaints(lines, before).len() == 0 {
            assert forall|k: int| 0 <= k < lines.len() implies (#[trigger] lines[k]).len()
                == 120 by {
                if k < lines.len() - 1 {
                    assert(head[k] == lines[k]);
                }
            }
            assert(well_sized(lines) =~= lines);
        } else {
            if lines.last().len() == 120 {
                let k = choose|k: int| 0 <= k < head.len() && (#[trigger] head[k]).len() != 120;
                assert(lines[k] == head[k]);
            }
        }
    }
}

/// What validating the transaction lines reports: the report of each, in
/// file order; the first transaction is line 2.
pub open spec fn details_report(details: Seq<Seq<char>>, branches: Set<Seq<char>>) -> Seq<char>
    decreases details.len(),
{
    if details.len() == 0 {
        Seq::empty()
    } else {
        details_report(details.drop_last(), branches) + transaction_report(
            split_fields(details.last(), detail_layout()),
            (details.len() + 1) as u32,
            branches,
        )
    }
}

/// The number of transaction lines that have at least one failure.
pub open spec fn details_failed(details: Seq<Seq<char>>, branches: Set<Seq<char>>) -> nat
    decreases details.len(),
{
    if details.len() == 0 {
        0
    } else {
        details_failed(details.drop_last(), branches) + if transaction_report(
            split_fields(details.last(), detail_layout()),
            (details.len() + 1) as u32,
            branches,
        ).len() > 0 {
            1nat
        } else {
            0nat
        }
    }
}

/// No more transaction lines fail than there are.
pub proof fn lemma_details_failed_bounded(details: Seq<Seq<char>>, branches: Set<Seq<char>>)
    ensures
        details_failed(details, branches) <= details.len(),
    decreases details.len(),
{
    if details.len() > 0 {
        lemma_details_failed_bounded(details.drop_last(), branches);
    }
}

/// One if the text is not empty, else zero.
pub open spec fn failed(text: Seq<char>) -> nat {
    if text.len() > 0 {
        1
    } else {
        0
    }
}

/// What the header line reports when its date check came out as `date_ok`.
pub open spec fn header_findings(header: Seq<char>, reference: ReferenceData, date_ok: bool) -> Seq<
    char,
> {
    header_report(split_fields(header, descriptive_layout()), reference.banks@, date_ok)
}

/// What the trailer line reports, held against the number of transaction
/// lines.
pub open spec fn trailer_findings(trailer: Seq<char>, transactions: nat) -> Seq<char> {
    trailer_report(split_fields(trailer, total_layout()), transactions as u32)
}

/// The settlement date that a header line holds.
pub open spec fn settle_date_of(header: Seq<char>) -> Seq<char> {
    split_fields(header, descriptive_layout())[8]
}

/// The text that all records of a file report: the header, the
/// transactions in file order, the trailer.
pub open spec fn file_findings(
    header: Seq<char>,
    details: Seq<Seq<char>>,
    trailer: Seq<char>,
    reference: ReferenceData,
    date_ok: bool,
) -> Seq<char> {
    header_findings(header, reference, date_ok) + details_report(details, reference.branches@)
        + trailer_findings(trailer, details.len())
}

/// The number of records of a file with a failure.
pub open spec fn file_failures(
    header: Seq<char>,
    details: Seq<Seq<char>>,
    trailer: Seq<char>,
    reference: ReferenceData,
    date_ok: bool,
) -> nat {
    failed(header_findings(header, reference, date_ok)) + details_failed(
        details,
        reference.branches@,
    ) + failed(trailer_findings(trailer, details.len()))
}

/// Whether `report` is what validating a file gives when the header's date
/// check came out as `date_ok`: the findings and the number of records that
/// have one, or the canonical text and zero where there is none.
pub open spec fn is_report_of(
    report: ValidationReport,
    header: Seq<char>,
    details: Seq<Seq<char>>,
    trailer: Seq<char>,
    reference: ReferenceData,
    date_ok: bool,
) -> bool {
    &&& report.error_count == file_failures(header, details, trailer, reference, date_ok)
    &&& report.text@ == if file_failures(header, details, trailer, reference, date_ok) == 0 {
        NO_ERRORS@
    } else {
        file_findings(header, details, trailer, reference, date_ok)
    }
}

/// The lines of a file, split by position.
#[derive(Debug, Clone, Eq, PartialEq, Ord, PartialOrd, Hash)]
pub struct CemtexInner {
    /// The first line.
    pub descriptive: String,
    /// The lines between the first and the last.
    pub detail: Vec<String>,
    /// The last line.
    pub total: String,
    /// The number of lines of the file, first and last included.
    pub line_count: u32,
}

impl CemtexInner {
    /// Whether the file is structurally sound: every line has 120
    /// characters, there is a transaction, and the count is that of all
    /// lines.
    pub open spec fn wf(&self) -> bool {
        &&& self.descriptive@.len() == 120
        &&& self.total@.len() == 120
        &&& forall|k: int|
            0 <= k < self.detail@.len() ==> (#[trigger] self.detail@[k])@.len() == 120
        &&& self.detail@.len() >= 1
        &&& self.line_count == self.detail@.len() + 2
    }

    /// Splits the lines of a file. A file of fewer than three lines is
    /// rejected first; then one with a line that has not exactly 120
    /// characters, with a text for each such line. Else the first line is
    /// the header, the last the trailer, and those between the
    /// transactions.
    pub fn new(lines: Vec<String>) -> (out: Result<CemtexInner, FileError>)
        requires
            lines@.len() <= u32::MAX,
        ensures
            lines@.len() < 3 ==> out == Err::<CemtexInner, FileError>(
                FileError::TooFewLines(lines@.len() as u32),
            ),
            lines@.len() >= 3 && size_complaints(texts(lines@), 0).len() > 0 ==> (out matches Err(
                FileError::LineLength(said),
            ) && texts(said@) == size_complaints(texts(lines@), 0)),
            lines@.len() >= 3 && size_complaints(texts(lines@), 0).len() == 0 ==> (out matches Ok(
                inner,
            ) && {
                &&& inner.wf()
                &&& inner.descriptive@ == lines@[0]@
                &&& texts(inner.detail@) == texts(lines@).subrange(1, lines@.len() - 1)
                &&& inner.total@ == lines@[lines@.len() - 1]@
                &&& inner.line_count == lines@.len()
            }),
    {
        let mut line_count: u32 = 0u32;
        let mut err_count: u32 = 0u32;
        let mut err: Vec<String> = Vec::new();
        let entries = read_buf(&lines, &mut line_count, &mut err_count, &mut err);
        if line_count < 3u32 {
            return Err(FileError::TooFewLines(line_count));
        }
        if err_count > 0u32 {
            proof {
                assert(texts(err@) =~= size_complaints(texts(lines@), 0));
            }
            return Err(FileError::LineLength(err));
        }
        proof {
            lemma_no_size_complaints(texts(lines@), 0);
            assert(texts(entries@).len() == lines@.len());
        }
        let n = entries.len();
        let mut detail: Vec<String> = Vec::new();
        let mut k: usize = 1;
        while k < n - 1
            invariant
                n == entries@.len(),
                n >= 3,
                1 <= k <= n - 1,
                detail@.len() == k - 1,
                forall|j: int| 0 <= j < k - 1 ==> (#[trigger] detail@[j])@ == entries@[j + 1]@,
            decreases n - k,
        {
            detail.push(entries[k].clone());
            k += 1;
        }
        let inner = CemtexInner {
            descriptive: entries[0usize].clone(),
            detail,
            total: entries[n - 1].clone(),
            line_count,
        };
        proof {
            let all = texts(lines@);
            assert forall|j: int| 0 <= j < n implies entries@[j]@ == lines@[j]@ by {
                assert(texts(entries@)[j] == all[j]);
            }
            assert(texts(inner.detail@) =~= all.subrange(1, lines@.len() - 1));
            assert forall|j: int| 0 <= j < inner.detail@.len() implies (
            #[trigger] inner.detail@[j])@.len() == 120 by {
                assert(all[j + 1].len() == 120);
            }
            assert(all[0].len() == 120);
            assert(all[n - 1].len() == 120);
        }
        Ok(inner)
    }

    /// Validates every record: the header, each transaction with its line
    /// number, the trailer against the number of transactions. No failure
    /// stops the work. The report is the text of all failures in file
    /// order, or the canonical text where there is none; the count is that
    /// of the records with a failure. Never an error. The header's date
    /// check depends on a draw for 29 February of a year written `00` and
    /// for no other date.
    pub fn validate_inner(&self, reference: &ReferenceData) -> (out: Result<
        ValidationReport,
        LineParseError,
    >)
        requires
            self.wf(),
        ensures
            out is Ok,
            exists|c1: int, c2: int|
                is_century_digit(c1) && is_century_digit(c2) && self.reported(
                    out.unwrap(),
                    *reference,
                    date_accepted(self.settle_date(), c1, c2),
                ),
            !is_century_sensitive(self.settle_date()) ==> self.reported(
                out.unwrap(),
                *reference,
                is_settlement_date(self.settle_date()),
            ),
    {
        let mut detail_line_count = 1u32;
        let mut error_count = 0u32;
        let mut text = String::new();

        let desc_res = header_text(self.descriptive.as_str(), reference);
        let ghost (c1, c2) = choose|c1: int, c2: int|
            is_century_digit(c1) && is_century_digit(c2) && desc_res@ == header_report(
                split_fields(self.descriptive@, descriptive_layout()),
                reference.banks@,
                date_accepted(self.settle_date(), c1, c2),
            );
        if char_count(desc_res.as_str()) > 0 {
            error_count += 1;
            text.append(desc_res.as_str());
        }
        let ghost header_text = desc_res@;
        assert(text@ =~= header_text);

        let ghost details = texts(self.detail@);
        let mut k: usize = 0;
        assert(details.take(0) =~= Seq::<Seq<char>>::empty());
        while k < self.detail.len()
            invariant
                self.wf(),
                details == texts(self.detail@),
                k <= self.detail@.len(),
                detail_line_count == k + 1,
                error_count == failed(header_text) + details_failed(
                    details.take(k as int),
                    reference.branches@,
                ),
                text@ == header_text + details_report(details.take(k as int), reference.branches@),
            decreases self.detail@.len() - k,
        {
            detail_line_count += 1u32;
            let ghost line = self.detail@[k as int];
            assert(line@.len() == 120);
            proof {
                assert(details.take(k + 1).drop_last() =~= details.take(k as int));
                assert(details.take(k + 1).last() == line@);
                lemma_details_failed_bounded(details.take(k as int), reference.branches@);
            }
            let detail_res = detail_text(self.detail[k].as_str(), &detail_line_count, reference);
            if char_count(detail_res.as_str()) > 0 {
                error_count += 1;
                text.append(detail_res.as_str());
            }
            k += 1;
            assert(text@ =~= header_text + details_report(
                details.take(k as int),
                reference.branches@,
            ));
        }
        assert(details.take(k as int) =~= details);

        proof {
            lemma_details_failed_bounded(details, reference.branches@);
        }
        let lines = self.line_count - 2u32;
        let total_res = trailer_text(self.total.as_str(), &lines);
        if char_count(total_res.as_str()) > 0 {
            error_count += 1;
            text.append(total_res.as_str());
        }
        let ghost date_ok = date_accepted(self.settle_date(), c1, c2);
        assert(text@ =~= file_findings(
            self.descriptive@,
            details,
            self.total@,
            *reference,
            date_ok,
        ));
        if error_count == 0 {
            text = String::from_str(NO_ERRORS);
        }
        let report = ValidationReport { text, error_count };
        proof {
            assert(is_century_digit(c1) && is_century_digit(c2) && self.reported(
                report,
                *reference,
                date_accepted(self.settle_date(), c1, c2),
            ));
        }
        Ok(report)
    }

    /// The header's settlement date as the line holds it.
    pub open spec fn settle_date(&self) -> Seq<char> {
        settle_date_of(self.descriptive@)
    }

    /// Whether `report` is what validating this file gives when the header's
    /// date check came out as `date_ok`.
    pub open spec fn reported(
        &self,
        report: ValidationReport,
        reference: ReferenceData,
        date_ok: bool,
    ) -> bool {
        is_report_of(
            report,
            self.descriptive@,
            texts(self.detail@),
            self.total@,
            reference,
            date_ok,
        )
    }
}

/// What validating the header line reports.
fn header_text(line: &str, reference: &ReferenceData) -> (out: String)
    requires
        line@.len() == 120,
    ensures
        exists|c1: int, c2: int|
            is_century_digit(c1) && is_century_digit(c2) && out@ == header_report(
                split_fields(line@, descriptive_layout()),
                reference.banks@,
                date_accepted(split_fields(line@, descriptive_layout())[8], c1, c2),
            ),
        !is_century_sensitive(split_fields(line@, descriptive_layout())[8]) ==> out@
            == header_report(
            split_fields(line@, descriptive_layout()),
            reference.banks@,
            is_settlement_date(split_fields(line@, descriptive_layout())[8]),
        ),
{
    match DescriptiveBlock::deserialise(line) {
        Some((_, block)) => {
            assert(block@[8] == block.settle_date@);
            match block.validate(&reference.banks) {
                Ok(found) => found,
                Err(_) => String::new(),
            }
        },
        None => String::new(),
    }
}

/// What validating the transaction on line `number` reports.
fn detail_text(line: &str, number: &u32, reference: &ReferenceData) -> (out: String)
    requires
        line@.len() == 120,
    ensures
        out@ == transaction_report(
            split_fields(line@, detail_layout()),
            *number,
            reference.branches@,
        ),
{
    match DetailBlock::deserialise(line) {
        Some((_, block)) => {
            match block.validate(number, &reference.branches) {
                Ok(found) => found,
                Err(_) => String::new(),
            }
        },
        None => String::new(),
    }
}

/// What validating the trailer line against `lines` transactions reports.
fn trailer_text(line: &str, lines: &u32) -> (out: String)
    requires
        line@.len() == 120,
    ensures
        out@ == trailer_report(split_fields(line@, total_layout()), *lines),
{
    match TotalBlock::deserialise(line) {
        Some((_, block)) => {
            match block.validate(lines) {
                Ok(found) => found,
                Err(_) => String::new(),
            }
        },
        None => String::new(),
    }
}

/// Sorts the lines by size: those of 120 characters are returned, in their
/// order; of each other one a text is added to `err`. `line_count` grows by
/// the number of lines, `err_count` by the number of texts added.
pub fn read_buf(
    lines: &Vec<String>,
    line_count: &mut u32,
    err_count: &mut u32,
    err: &mut Vec<String>,
) -> (entries: Vec<String>)
    requires
        *old(line_count) + lines@.len() <= u32::MAX,
        *old(err_count) + lines@.len() <= u32::MAX,
    ensures
        texts(entries@) == well_sized(texts(lines@)),
        *final(line_count) == *old(line_count) + lines@.len(),
        texts(final(err)@) == texts(old(err)@) + size_complaints(
            texts(lines@),
            *old(line_count) as nat,
        ),
        *final(err_count) == *old(err_count) + size_complaints(
            texts(lines@),
            *old(line_count) as nat,
        ).len(),
{
    let ghost all = texts(lines@);
    let ghost before = *line_count as nat;
    let ghost err_before = texts(err@);
    let ghost count_before = *err_count;
    let mut entries: Vec<String> = Vec::new();
    let mut k: usize = 0;
    proof {
        assert(all.take(0) =~= Seq::<Seq<char>>::empty());
        assert(texts(entries@) =~= well_sized(all.take(0)));
        assert(texts(err@) =~= err_before + size_complaints(all.take(0), before));
    }
    while k < lines.len()
        invariant
            all == texts(lines@),
            k <= lines@.len(),
            before + lines@.len() <= u32::MAX,
            count_before + lines@.len() <= u32::MAX,
            *line_count == before + k,
            texts(entries@) == well_sized(all.take(k as int)),
            texts(err@) == err_before + size_complaints(all.take(k as int), before),
            *err_count == count_before + size_complaints(all.take(k as int), before).len(),
            size_complaints(all.take(k as int), before).len() <= k,
        decreases lines@.len() - k,
    {
        *line_count += 1;
        let line = &lines[k];
        let size = char_count(line.as_str());
        proof {
            assert(all.take(k + 1).drop_last() =~= all.take(k as int));
            assert(all.take(k + 1).last() == line@);
        }
        if size != 120usize {
            let mut said = String::from_str("at line ");
            said.append(number_text(*line_count as u128).as_str());
            said.append(" the character count is ");
            said.append(number_text(size as u128).as_str());
            said.append(", but in order to form a valid line it must be exactly 120 characters");
            let ghost err_then = texts(err@);
            err.push(said);
            *err_count += 1;
            proof {
                assert(said@ == line_length_text((before + k + 1) as nat, line@.len()));
                assert(texts(err@) =~= err_then.push(said@));
                assert(texts(err@) =~= err_before + size_complaints(all.take(k + 1), before));
            }
        } else {
            let ghost then = texts(entries@);
            entries.push(line.clone());
            assert(texts(entries@) =~= then.push(line@));
        }
        k += 1;
    }
    assert(all.take(k as int) =~= all);
    entries
}

/// A file, ready to be validated.
#[derive(Debug, Clone, Eq, PartialEq, Ord, PartialOrd, Hash)]
pub struct Cemtex {
    pub inner: CemtexInner,
}

impl Cemtex {
    /// Splits the lines of a file; rejects what `CemtexInner::new` rejects.
    pub fn new(lines: Vec<String>) -> (out: Result<Cemtex, FileError>)
        requires
            lines@.len() <= u32::MAX,
        ensures
            lines@.len() < 3 ==> out == Err::<Cemtex, FileError>(
                FileError::TooFewLines(lines@.len() as u32),
            ),
            lines@.len() >= 3 && size_complaints(texts(lines@), 0).len() > 0 ==> (out matches Err(
                FileError::LineLength(said),
            ) && texts(said@) == size_complaints(texts(lines@), 0)),
            lines@.len() >= 3 && size_complaints(texts(lines@), 0).len() == 0 ==> (out matches Ok(
                file,
            ) && {
                &&& file.inner.wf()
                &&& file.inner.descriptive@ == lines@[0]@
                &&& texts(file.inner.detail@) == texts(lines@).subrange(1, lines@.len() - 1)
                &&& file.inner.total@ == lines@[lines@.len() - 1]@
                &&& file.inner.line_count == lines@.len()
            }),
    {
        match CemtexInner::new(lines) {
            Ok(inner) => Ok(Cemtex { inner }),
            Err(e) => Err(e),
        }
    }

    /// Validates every record of the file; see `CemtexInner::validate_inner`.
    pub fn validate(&self, reference: &ReferenceData) -> (out: ValidationReport)
        requires
            self.inner.wf(),
        ensures
            exists|c1: int, c2: int|
                is_century_digit(c1) && is_century_digit(c2) && self.inner.reported(
                    out,
                    *reference,
                    date_accepted(self.inner.settle_date(), c1, c2),
                ),
            !is_century_sensitive(self.inner.settle_date()) ==> self.inner.reported(
                out,
                *reference,
                is_settlement_date(self.inner.settle_date()),
            ),
    {
        match self.inner.validate_inner(reference) {
            Ok(report) => report,
            Err(_) => ValidationReport { text: String::new(), error_count: 0 },
        }
    }
}

/// Validates the lines of a file. A file that is structurally unsound is
/// rejected before any field is looked at; else every record is validated
/// and the report is returned. The header's date check depends on a draw
/// for 29 February of a year written `00` and for no other date.
pub fn aba_check(lines: Vec<String>, reference: &ReferenceData) -> (out: Result<
    ValidationReport,
    FileError,
>)
    requires
        lines@.len() <= u32::MAX,
    ensures
        lines@.len() < 3 ==> out == Err::<ValidationReport, FileError>(
            FileError::TooFewLines(lines@.len() as u32),
        ),
        lines@.len() >= 3 && size_complaints(texts(lines@), 0).len() > 0 ==> (out matches Err(
            FileError::LineLength(said),
        ) && texts(said@) == size_complaints(texts(lines@), 0)),
        lines@.len() >= 3 && size_complaints(texts(lines@), 0).len() == 0 ==> (out matches Ok(
            report,
        ) && {
            &&& exists|c1: int, c2: int|
                is_century_digit(c1) && is_century_digit(c2) && is_report_of(
                    report,
                    lines@[0]@,
                    texts(lines@).subrange(1, lines@.len() - 1),
                    lines@[lines@.len() - 1]@,
                    *reference,
                    date_accepted(settle_date_of(lines@[0]@), c1, c2),
                )
            &&& !is_century_sensitive(settle_date_of(lines@[0]@)) ==> is_report_of(
                report,
                lines@[0]@,
                texts(lines@).subrange(1, lines@.len() - 1),
                lines@[lines@.len() - 1]@,
                *reference,
                is_settlement_date(settle_date_of(lines@[0]@)),
            )
        }),
{
    match Cemtex::new(lines) {
        Ok(file) => Ok(file.validate(reference)),
        Err(e) => Err(e),
    }
}

} // verus!
