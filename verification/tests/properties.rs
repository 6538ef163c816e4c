use cemtexer::blocks::descriptive::DescriptiveBlock;
use cemtexer::blocks::detail::DetailBlock;
use cemtexer::blocks::total::TotalBlock;
use cemtexer::cemtex::{read_buf, Cemtex, CemtexInner, FileError};
use cemtexer::csv::csv_file::{CsvRecord, SettlementSettings};
use cemtexer::errors::LineParseError;
use cemtexer::generate::{aba_gen, read_settings, GenerateError};
use cemtexer::helper::TotalField;
use cemtexer::parser_utils::{validate_lodge_ref, validate_nonzero_str, validate_trim_then_compute};
use cemtexer::reference::{CodeTable, ReferenceData};
use cemtexer::types::ValidationType;

const HEADER: &str = "0                 01BQL       MY NAME                   1111111004231633  230410                                        ";
const DETAIL: &str = "1062-000157108231 530000001234S R SMITH                       TEST BATCH        062-000 12223123MY ACCOUNT      00001200";
const TRAILER: &str = "7999-999            000000123400000012340000000000                        000001                                        ";

fn reference() -> ReferenceData {
    ReferenceData {
        banks: CodeTable::new(vec!["BQL".to_string(), "CBA".to_string()]),
        branches: CodeTable::new(vec!["062-000".to_string(), "063-000".to_string()]),
    }
}

fn settings() -> SettlementSettings {
    SettlementSettings {
        bank_name: "BQL".to_string(),
        user_name: "MY NAME".to_string(),
        apca_number: "111111".to_string(),
        file_description: "PAYROLL".to_string(),
        settle_date: "230410".to_string(),
        trace_bsb: "062-000".to_string(),
        trace_account_number: "12223123".to_string(),
        trace_account_name: "MY ACCOUNT".to_string(),
    }
}

fn row(bsb: &str, account: &str, name: &str, amount: &str) -> CsvRecord {
    CsvRecord {
        bsb: bsb.to_string(),
        account_number: account.to_string(),
        client_name: name.to_string(),
        amount: amount.to_string(),
        comment: None,
        tax_withhold: None,
    }
}

fn lines(all: &[&str]) -> Vec<String> {
    all.iter().map(|l| l.to_string()).collect()
}

#[test]
fn sample_lines_have_120_characters() {
    assert_eq!(HEADER.chars().count(), 120);
    assert_eq!(DETAIL.chars().count(), 120);
    assert_eq!(TRAILER.chars().count(), 120);
}

#[test]
fn header_line_round_trips() {
    let (rest, block) = DescriptiveBlock::deserialise(HEADER).unwrap();
    assert_eq!(rest, "");
    assert_eq!(block.to_string(), HEADER);
    let written = block.to_string();
    let (_, again) = DescriptiveBlock::deserialise(&written).unwrap();
    assert_eq!(again, block);
}

#[test]
fn transaction_line_round_trips() {
    let (rest, block) = DetailBlock::deserialise(DETAIL).unwrap();
    assert_eq!(rest, "");
    assert_eq!(block.to_string(), DETAIL);
    let written = block.to_string();
    let (_, again) = DetailBlock::deserialise(&written).unwrap();
    assert_eq!(again, block);
}

#[test]
fn trailer_line_round_trips() {
    let (rest, block) = TotalBlock::deserialise(TRAILER).unwrap();
    assert_eq!(rest, "");
    assert_eq!(block.to_string(), TRAILER);
    let written = block.to_string();
    let (_, again) = TotalBlock::deserialise(&written).unwrap();
    assert_eq!(again, block);
}

#[test]
fn header_fields_are_cut_at_their_offsets() {
    let (_, block) = DescriptiveBlock::deserialise(HEADER).unwrap();
    assert_eq!(block.record_type, "0");
    assert_eq!(block.blank_1, " ".repeat(17));
    assert_eq!(block.reel_seq, "01");
    assert_eq!(block.bank_name, "BQL");
    assert_eq!(block.blank_2, " ".repeat(7));
    assert_eq!(block.user_name, "MY NAME                   ");
    assert_eq!(block.apca_number, "111111");
    assert_eq!(block.file_description, "1004231633  ");
    assert_eq!(block.settle_date, "230410");
    assert_eq!(block.blank_3, " ".repeat(40));
}

#[test]
fn transaction_fields_are_cut_at_their_offsets() {
    let (_, block) = DetailBlock::deserialise(DETAIL).unwrap();
    assert_eq!(block.record_type, "1");
    assert_eq!(block.bsb_number, "062-000");
    assert_eq!(block.dest_acct, "157108231");
    assert_eq!(block.indicator, " ");
    assert_eq!(block.trans_code, "53");
    assert_eq!(block.amount, "0000001234");
    assert_eq!(block.client_name, "S R SMITH                       ");
    assert_eq!(block.lodge_ref, "TEST BATCH        ");
    assert_eq!(block.trace_bsb, "062-000");
    assert_eq!(block.src_acct, " 12223123");
    assert_eq!(block.account_name, "MY ACCOUNT      ");
    assert_eq!(block.tax_withhold, "00001200");
}

#[test]
fn trailer_fields_are_cut_at_their_offsets() {
    let (_, block) = TotalBlock::deserialise(TRAILER).unwrap();
    assert_eq!(block.record_type, "7");
    assert_eq!(block.bsb_filler, "999-999");
    assert_eq!(block.blank_1, " ".repeat(12));
    assert_eq!(block.total_field, "000000123400000012340000000000");
    assert_eq!(block.blank_2, " ".repeat(24));
    assert_eq!(block.record_count, "000001");
    assert_eq!(block.blank_3, " ".repeat(40));
}

#[test]
fn short_line_is_no_record() {
    let short = &HEADER[..119];
    assert!(DescriptiveBlock::deserialise(short).is_none());
    assert!(DetailBlock::deserialise(short).is_none());
    assert!(TotalBlock::deserialise(short).is_none());
}

#[test]
fn longer_line_leaves_a_rest() {
    let long = format!("{}XYZ", DETAIL);
    let (rest, block) = DetailBlock::deserialise(&long).unwrap();
    assert_eq!(rest, "XYZ");
    assert_eq!(block.to_string(), DETAIL);
}

#[test]
fn widths_count_characters_not_bytes() {
    let line = HEADER.replacen("MY NAME", "MÿNÄMÉS", 1);
    assert_eq!(line.chars().count(), 120);
    assert!(line.len() > 120);
    let (rest, block) = DescriptiveBlock::deserialise(&line).unwrap();
    assert_eq!(rest, "");
    assert_eq!(block.user_name.chars().count(), 26);
    assert_eq!(block.to_string(), line);
}

#[test]
fn valid_file_reports_no_errors() {
    let file = Cemtex::new(lines(&[HEADER, DETAIL, TRAILER])).unwrap();
    let report = file.validate(&reference());
    assert_eq!(report.error_count, 0);
    assert_eq!(report.text, "No errors detected");
}

#[test]
fn file_is_split_by_position() {
    let inner = CemtexInner::new(lines(&[HEADER, DETAIL, DETAIL, TRAILER])).unwrap();
    assert_eq!(inner.descriptive, HEADER);
    assert_eq!(inner.detail, vec![DETAIL.to_string(), DETAIL.to_string()]);
    assert_eq!(inner.total, TRAILER);
    assert_eq!(inner.line_count, 4);
}

#[test]
fn two_line_file_is_rejected_before_validation() {
    let out = Cemtex::new(lines(&[HEADER, TRAILER]));
    assert_eq!(out.unwrap_err(), FileError::TooFewLines(2));
    let out = CemtexInner::new(lines(&["bad", "worse"]));
    assert_eq!(out.unwrap_err(), FileError::TooFewLines(2));
    let out = CemtexInner::new(Vec::new());
    assert_eq!(out.unwrap_err(), FileError::TooFewLines(0));
}

#[test]
fn wrong_line_length_is_rejected_with_a_text_per_line() {
    let short = &DETAIL[..119];
    let long = format!("{} ", TRAILER);
    let out = CemtexInner::new(lines(&[HEADER, short, DETAIL, &long]));
    assert_eq!(
        out.unwrap_err(),
        FileError::LineLength(vec![
            "at line 2 the character count is 119, but in order to form a valid line it must be exactly 120 characters".to_string(),
            "at line 4 the character count is 121, but in order to form a valid line it must be exactly 120 characters".to_string(),
        ])
    );
}

#[test]
fn read_buf_sorts_lines_by_size() {
    let all = lines(&[HEADER, "short", TRAILER]);
    let mut line_count = 0u32;
    let mut err_count = 0u32;
    let mut err: Vec<String> = Vec::new();
    let entries = read_buf(&all, &mut line_count, &mut err_count, &mut err);
    assert_eq!(entries, vec![HEADER.to_string(), TRAILER.to_string()]);
    assert_eq!(line_count, 3);
    assert_eq!(err_count, 1);
    assert_eq!(
        err,
        vec!["at line 2 the character count is 5, but in order to form a valid line it must be exactly 120 characters".to_string()]
    );
}

#[test]
fn header_reports_every_failure_not_only_the_first() {
    let bad = HEADER.replacen("0", "1", 1).replace("230410", "311310");
    assert_eq!(bad.chars().count(), 120);
    let (_, block) = DescriptiveBlock::deserialise(&bad).unwrap();
    let report = block.validate(&reference().banks).unwrap();
    assert_eq!(
        report,
        "- At line 1 in the descriptive block at character position 1, it must be 0 not 1\n\
         - At line 1 in the descriptive block between character position 75 - 80, the date format must be in DDMMYY\n"
    );
}

#[test]
fn unknown_branch_is_reported_once_with_its_line_and_the_trailer_is_still_checked() {
    let unknown = DETAIL.replacen("062-000", "123-456", 1);
    let file = Cemtex::new(lines(&[HEADER, DETAIL, &unknown, TRAILER])).unwrap();
    let report = file.validate(&reference());
    assert_eq!(report.error_count, 2);
    assert_eq!(
        report.text,
        "- At line 3 in the detail block between character position 2 - 7, it must contain valid BSB number, but you have 123-456\n\
         - At the last line in the total block between character position 75 - 80, the record count 1 is not equal to the detail line count 2\n"
    );
}

#[test]
fn unknown_branch_alone_gives_a_single_error() {
    let unknown = DETAIL.replacen("062-000", "123-456", 1);
    let file = Cemtex::new(lines(&[HEADER, &unknown, TRAILER])).unwrap();
    let report = file.validate(&reference());
    assert_eq!(report.error_count, 1);
    assert_eq!(
        report.text,
        "- At line 2 in the detail block between character position 2 - 7, it must contain valid BSB number, but you have 123-456\n"
    );
    let (_, block) = DetailBlock::deserialise(&unknown).unwrap();
    assert_eq!(
        block.validate(&2, &reference().branches).unwrap(),
        LineParseError::DetailBsbClient(2, block.bsb_number.clone()).to_string()
    );
}

#[test]
fn report_follows_file_order() {
    let bad_header = HEADER.replacen("BQL", "ZZZ", 1);
    let bad_first = DETAIL.replacen(" 53", "Q53", 1);
    let bad_second = DETAIL.replacen("530000001234", "990000001234", 1);
    let bad_trailer = TRAILER.replacen("999-999", "999-998", 1);
    let file = Cemtex::new(lines(&[&bad_header, &bad_first, &bad_second, &bad_trailer])).unwrap();
    let report = file.validate(&reference());
    assert_eq!(report.error_count, 4);
    assert_eq!(
        report.text,
        "- At line 1 in the descriptive block between character position 21 - 23, it must contain valid 3 character bank code\n\
         - At line 2 in the detail block at character position 18, the indicator must be one of N, W, X, Y, or blank\n\
         - At line 3 in the detail block between character position 19 - 20, the transaction code must be one of 13, 50, 51, 52, 53, 54, 55, 56, 57\n\
         - At the last line in the total block between character position 2 - 8, it must be 999-999 not 999-998\n\
         - At the last line in the total block between character position 75 - 80, the record count 1 is not equal to the detail line count 2\n"
    );
}

#[test]
fn reference_text_boundaries() {
    let line = 2u32;
    assert_eq!(
        validate_lodge_ref("0ABC".to_string(), ValidationType::DetailLodgeRef, &line),
        Err(LineParseError::DetailLodgeRef(2))
    );
    assert_eq!(
        validate_lodge_ref("-ABC".to_string(), ValidationType::DetailLodgeRef, &line),
        Err(LineParseError::DetailLodgeRef(2))
    );
    let exact = format!("{:<18}", "ABC");
    assert_eq!(exact.chars().count(), 18);
    assert_eq!(validate_lodge_ref(exact, ValidationType::DetailLodgeRef, &line), Ok(()));
    assert_eq!(
        validate_lodge_ref("0ABC".to_string(), ValidationType::DetailAmount, &line),
        Ok(())
    );
}

#[test]
fn generated_trailer_accumulates_cents() {
    let rows = vec![
        row("062-000", "157108231", "S R SMITH", "123.45"),
        row("063-000", "1234", "J DOE", "67.00"),
    ];
    let text = aba_gen(settings(), &rows, &reference()).unwrap();
    let made: Vec<&str> = text.lines().collect();
    assert_eq!(made.len(), 4);
    let (_, trailer) = TotalBlock::deserialise(made[3]).unwrap();
    let (_, amounts) = TotalField::deserialise(&trailer.total_field).unwrap();
    assert_eq!(amounts.total, "0000019045");
    assert_eq!(amounts.credit, "0000019045");
    assert_eq!(amounts.debit, "0000000000");
    assert_eq!(trailer.record_count, "000002");
}

#[test]
fn generated_file_is_exact() {
    let rows = vec![
        row(" 062-000 ", "157108231", "S R SMITH", "$123.45"),
        CsvRecord {
            bsb: "063-000".to_string(),
            account_number: "1234".to_string(),
            client_name: "J DOE".to_string(),
            amount: "67.00".to_string(),
            comment: Some("RENT".to_string()),
            tax_withhold: Some("1.50".to_string()),
        },
    ];
    let text = aba_gen(settings(), &rows, &reference()).unwrap();
    let expected = "\
0                 01BQL       MY NAME                   111111PAYROLL     230410                                        \n\
1062-000157108231 530000012345S R SMITH                                         062-000 12223123MY ACCOUNT      00000000\n\
1063-000     1234 530000006700J DOE                           RENT              062-000 12223123MY ACCOUNT      00000150\n\
7999-999            000001904500000190450000000000                        000002                                        \n";
    assert_eq!(text, expected);
}

#[test]
fn generated_file_has_full_width_lines_and_reconciles() {
    let rows = vec![
        row("062-000", "157108231", "S R SMITH", "123.45"),
        row("063-000", "1234", "J DOE", "67.00"),
        row("063-000", "99", "A B", "5"),
    ];
    let text = aba_gen(settings(), &rows, &reference()).unwrap();
    let made: Vec<String> = text.lines().map(|l| l.to_string()).collect();
    assert_eq!(made.len(), rows.len() + 2);
    for line in made.iter() {
        assert_eq!(line.chars().count(), 120);
    }
    let (_, trailer) = TotalBlock::deserialise(&made[made.len() - 1]).unwrap();
    let (_, amounts) = TotalField::deserialise(&trailer.total_field).unwrap();
    assert!(validate_trim_then_compute(&amounts.credit, &amounts.debit, &amounts.total));
    assert_eq!(validate_nonzero_str(&amounts.total), 19050);
    assert_eq!(validate_nonzero_str(&trailer.record_count), 3);
    let file = Cemtex::new(made).unwrap();
    let report = file.validate(&reference());
    assert_eq!(report.text, "No errors detected");
    assert_eq!(report.error_count, 0);
}

#[test]
fn unsound_settings_stop_generation_before_any_row() {
    let mut conf = settings();
    conf.bank_name = "ZZZ".to_string();
    conf.user_name = "".to_string();
    let rows = vec![row("bad", "", "", "")];
    assert_eq!(
        aba_gen(conf, &rows, &reference()),
        Err(GenerateError::Settings(vec![
            "Bank name field is not valid",
            "User name field must not be empty and exceed 26 characters",
        ]))
    );
}

#[test]
fn one_unsound_row_stops_the_whole_generation() {
    let rows = vec![
        row("062-000", "157108231", "S R SMITH", "123.45"),
        row("062-000", "157108231", "S R SMITH", "123.456"),
        row("999-000", "157108231", "", "12"),
    ];
    assert_eq!(
        aba_gen(settings(), &rows, &reference()),
        Err(GenerateError::Rows(vec![
            vec![],
            vec!["Amount field must be in valid two deicmal format"],
            vec![
                "BSB code is not valid",
                "Account name field must not be empty and exceed 32 characters",
            ],
        ]))
    );
}

#[test]
fn rows_become_transactions_with_count_and_sum() {
    let rows = vec![
        row("062-000", "157108231", "S R SMITH", "123.45"),
        row("063-000", "1234", "J DOE", "000"),
    ];
    let (details, line_count, total) = read_settings(&settings(), &rows, &reference()).unwrap();
    assert_eq!(line_count, 2);
    assert_eq!(total, 12345);
    assert_eq!(details.len(), 2);
    assert_eq!(details[0].amount, "0000012345");
    assert_eq!(details[1].amount, "0000000000");
    assert_eq!(details[1].dest_acct, "     1234");
    assert_eq!(details[1].trace_bsb, "062-000");
    assert_eq!(details[1].src_acct, " 12223123");
    assert_eq!(details[1].account_name, "MY ACCOUNT      ");
    assert_eq!(details[1].indicator, " ");
    assert_eq!(details[1].trans_code, "53");
    assert_eq!(details[1].record_type, "1");
}

#[test]
fn amount_field_with_a_blank_is_reported() {
    let blank = DETAIL.replacen("0000001234", "          ", 1);
    let padded = DETAIL.replacen("0000001234", "      1234", 1);
    let (_, block) = DetailBlock::deserialise(&blank).unwrap();
    assert_eq!(
        block.validate(&2, &reference().branches).unwrap(),
        LineParseError::DetailAmount(2).to_string()
    );
    let (_, block) = DetailBlock::deserialise(&padded).unwrap();
    assert_eq!(
        block.validate(&4, &reference().branches).unwrap(),
        LineParseError::DetailAmount(4).to_string()
    );
}

#[test]
fn blank_identifier_and_blank_accounts_are_reported() {
    let header = HEADER.replacen("111111", "   111", 1);
    let (_, block) = DescriptiveBlock::deserialise(&header).unwrap();
    assert_eq!(
        block.validate(&reference().banks).unwrap(),
        LineParseError::DescriptiveApca.to_string()
    );
    let detail = DETAIL.replacen("157108231", "         ", 1).replacen(" 12223123", "         ", 1);
    let (_, block) = DetailBlock::deserialise(&detail).unwrap();
    assert_eq!(
        block.validate(&2, &reference().branches).unwrap(),
        LineParseError::DetailDestAccount(2).to_string()
            + &LineParseError::DetailSrcAccount(2).to_string()
    );
}

#[test]
fn short_bank_code_stops_generation_even_where_listed() {
    let reference = ReferenceData {
        banks: CodeTable::new(vec!["BQ".to_string()]),
        branches: reference().branches,
    };
    let mut conf = settings();
    conf.bank_name = "BQ".to_string();
    let rows = vec![row("062-000", "157108231", "S R SMITH", "123.45")];
    assert_eq!(
        aba_gen(conf, &rows, &reference),
        Err(GenerateError::Settings(vec![
            "Bank name field must be in the excat format of 3 upppercase characters",
        ]))
    );
}

#[test]
fn no_row_gives_a_file_of_header_and_trailer() {
    let rows: Vec<CsvRecord> = Vec::new();
    let text = aba_gen(settings(), &rows, &reference()).unwrap();
    let made: Vec<&str> = text.lines().collect();
    assert_eq!(made.len(), 2);
    let (_, trailer) = TotalBlock::deserialise(made[1]).unwrap();
    assert_eq!(trailer.total_field, "000000000000000000000000000000");
    assert_eq!(trailer.record_count, "000000");
}
