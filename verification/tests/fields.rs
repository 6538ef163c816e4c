use cemtexer::blocks::descriptive::DescriptiveBlock;
use cemtexer::blocks::detail::DetailBlock;
use cemtexer::blocks::total::TotalBlock;
use cemtexer::calendar::{check_expanded_date, expand_year};
use cemtexer::csv::csv_file::{
    CsvRecord, RecordFlatten, RecordWithConf, SettingsError, SettlementSettings, TotalRecord,
};
use cemtexer::csv::csv_utils::{
    fill, left_adjust, normalise_amount, optional_comment, optional_tax_withhold, right_adjust,
    validate_account_number, validate_bsb, validate_csv_amount, validate_csv_apca_number,
    validate_csv_bank_name, validate_csv_comment, validate_csv_settle_date,
    validate_csv_tax_withhold,
};
use cemtexer::errors::LineParseError;
use cemtexer::helper::{Bsb, TotalField, TwoDigitYears};
use cemtexer::layout::{extract_fields, join_strings};
use cemtexer::parser_utils::{
    text_of, validate_amount, validate_apca_ident, validate_blank, validate_bsb_client,
    validate_bsb_trace, validate_client_name, validate_date, validate_date_format,
    validate_dest_acct, validate_file_entry, validate_filler_str_line_counted,
    validate_generic_filler_str, validate_indicator, validate_nonzero_str, validate_number,
    validate_record_type_count, validate_remitter, validate_self_name, validate_src_acct,
    validate_tax_withhold, validate_total_field, validate_trans_code, validate_trim_then_compute,
    validate_user_name,
};
use cemtexer::patterns::validate_two_decimals;
use cemtexer::reference::{CodeTable, ReferenceData};
use cemtexer::text::{
    contains_char, digits_value, ends_with_char, number_text, remove_char, slice_chars,
    starts_with_char, trim, trim_start_char,
};
use cemtexer::types::{BsbType, FillStrategy, TotalAmountType, ValidationType};

fn reference() -> ReferenceData {
    ReferenceData {
        banks: CodeTable::new(vec!["BQL".to_string(), "CBA".to_string()]),
        branches: CodeTable::new(vec!["062-000".to_string(), "063-000".to_string()]),
    }
}

fn s(text: &str) -> String {
    text.to_string()
}

#[test]
fn constant_fields_must_equal_their_pattern() {
    assert_eq!(validate_generic_filler_str(s("0"), s("0"), ValidationType::DescriptiveRecordTypeZero), Ok(()));
    assert_eq!(
        validate_generic_filler_str(s("9"), s("0"), ValidationType::DescriptiveRecordTypeZero),
        Err(LineParseError::DescriptiveRecordTypeZero(s("9")))
    );
    assert_eq!(
        validate_generic_filler_str(s("x"), s(" "), ValidationType::DescriptiveBlankOne),
        Err(LineParseError::DescriptiveBlankOne)
    );
    assert_eq!(
        validate_generic_filler_str(s("02"), s("01"), ValidationType::DescriptiveReelSequence),
        Err(LineParseError::DescriptiveReelSequence(s("02")))
    );
    assert_eq!(
        validate_generic_filler_str(s("x"), s(" "), ValidationType::DescriptiveBlankTwo),
        Err(LineParseError::DescriptiveBlankTwo)
    );
    assert_eq!(
        validate_generic_filler_str(s("x"), s(" "), ValidationType::DescriptiveBlankThree),
        Err(LineParseError::DescriptiveBlankThree)
    );
    assert_eq!(
        validate_generic_filler_str(s("8"), s("7"), ValidationType::TotalTypeSeven),
        Err(LineParseError::TotalTypeSeven(s("8")))
    );
    assert_eq!(
        validate_generic_filler_str(s("999-998"), s("999-999"), ValidationType::TotalBsbFiller),
        Err(LineParseError::TotalBsbFiller(s("999-998")))
    );
    assert_eq!(
        validate_generic_filler_str(s("x"), s(" "), ValidationType::TotalBlankOne),
        Err(LineParseError::TotalBlankOne)
    );
    assert_eq!(
        validate_generic_filler_str(s("x"), s(" "), ValidationType::TotalBlankTwo),
        Err(LineParseError::TotalBlankTwo)
    );
    assert_eq!(
        validate_generic_filler_str(s("x"), s(" "), ValidationType::TotalBlankThree),
        Err(LineParseError::TotalBlankThree)
    );
    assert_eq!(validate_generic_filler_str(s("x"), s(" "), ValidationType::DetailAmount), Ok(()));
    assert_eq!(validate_generic_filler_str(s("x"), s(" "), ValidationType::DescriptiveDate), Ok(()));
}

#[test]
fn transaction_marker_carries_line_and_value() {
    let line = 7u32;
    assert_eq!(
        validate_filler_str_line_counted(s("1"), s("1"), ValidationType::DetailRecordTypeOne, &line),
        Ok(())
    );
    assert_eq!(
        validate_filler_str_line_counted(s("2"), s("1"), ValidationType::DetailRecordTypeOne, &line),
        Err(LineParseError::DetailRecordTypeOne(7, s("2")))
    );
    assert_eq!(
        validate_filler_str_line_counted(s("2"), s("1"), ValidationType::DetailAmount, &line),
        Ok(())
    );
}

#[test]
fn header_field_rules() {
    let banks = reference().banks;
    assert_eq!(validate_user_name(s("BQL"), ValidationType::DescriptiveUsername, &banks), Ok(()));
    assert_eq!(
        validate_user_name(s("BQ"), ValidationType::DescriptiveUsername, &banks),
        Err(LineParseError::DescriptiveUserName)
    );
    assert_eq!(validate_user_name(s("ZZZ"), ValidationType::DescriptiveDate, &banks), Ok(()));
    assert_eq!(validate_self_name(s("MY NAME   "), ValidationType::DescriptiveSelfName), Ok(()));
    assert_eq!(
        validate_self_name(s("          "), ValidationType::DescriptiveSelfName),
        Err(LineParseError::DescriptiveSelfName)
    );
    assert_eq!(
        validate_self_name(s(" MY NAME"), ValidationType::DescriptiveSelfName),
        Err(LineParseError::DescriptiveSelfName)
    );
    assert_eq!(
        validate_self_name(s(""), ValidationType::DescriptiveSelfName),
        Err(LineParseError::DescriptiveSelfName)
    );
    assert_eq!(validate_apca_ident(s("111111"), ValidationType::DescriptiveApca), Ok(()));
    assert_eq!(validate_apca_ident(s("000042"), ValidationType::DescriptiveApca), Ok(()));
    assert_eq!(
        validate_apca_ident(s("  1111"), ValidationType::DescriptiveApca),
        Err(LineParseError::DescriptiveApca)
    );
    assert_eq!(
        validate_apca_ident(s("      "), ValidationType::DescriptiveApca),
        Err(LineParseError::DescriptiveApca)
    );
    assert_eq!(validate_apca_ident(s("      "), ValidationType::DescriptiveDate), Ok(()));
    assert_eq!(
        validate_apca_ident(s("1111  "), ValidationType::DescriptiveApca),
        Err(LineParseError::DescriptiveApca)
    );
    assert_eq!(
        validate_apca_ident(s("11a111"), ValidationType::DescriptiveApca),
        Err(LineParseError::DescriptiveApca)
    );
    assert_eq!(validate_file_entry(s("PAYROLL     "), ValidationType::DescriptiveEntry), Ok(()));
    assert_eq!(
        validate_file_entry(s(" PAYROLL    "), ValidationType::DescriptiveEntry),
        Err(LineParseError::DescriptiveFileEntry)
    );
    assert_eq!(validate_date(s("230410"), ValidationType::DescriptiveDate), Ok(()));
    assert_eq!(
        validate_date(s("311310"), ValidationType::DescriptiveDate),
        Err(LineParseError::DescriptiveDate)
    );
    assert_eq!(validate_date(s("311310"), ValidationType::DescriptiveApca), Ok(()));
}

#[test]
fn transaction_field_rules() {
    let branches = reference().branches;
    let line = 3u32;
    assert_eq!(validate_bsb_client(s("062-000"), BsbType::DetailBsb, &line, &branches), Ok(()));
    assert_eq!(
        validate_bsb_client(s("123-456"), BsbType::DetailBsb, &line, &branches),
        Err(LineParseError::DetailBsbClient(3, s("123-456")))
    );
    assert_eq!(validate_bsb_client(s("123-456"), BsbType::DetailTraceBsb, &line, &branches), Ok(()));
    assert_eq!(validate_bsb_trace(s("063-000"), BsbType::DetailTraceBsb, &line, &branches), Ok(()));
    assert_eq!(
        validate_bsb_trace(s("063 000"), BsbType::DetailTraceBsb, &line, &branches),
        Err(LineParseError::DetailBsbTrace(3, s("063 000")))
    );
    assert_eq!(validate_bsb_trace(s("063 000"), BsbType::DetailBsb, &line, &branches), Ok(()));
    assert_eq!(validate_dest_acct(s("   123456"), ValidationType::DetailDestAccount, &line), Ok(()));
    assert_eq!(validate_dest_acct(s("        0"), ValidationType::DetailDestAccount, &line), Ok(()));
    assert_eq!(
        validate_dest_acct(s("123456   "), ValidationType::DetailDestAccount, &line),
        Err(LineParseError::DetailDestAccount(3))
    );
    assert_eq!(
        validate_dest_acct(s("         "), ValidationType::DetailDestAccount, &line),
        Err(LineParseError::DetailDestAccount(3))
    );
    assert_eq!(
        validate_dest_acct(s(""), ValidationType::DetailDestAccount, &line),
        Err(LineParseError::DetailDestAccount(3))
    );
    for good in ["N", "W", "X", "Y", " "] {
        assert_eq!(validate_indicator(s(good), ValidationType::DetailIndicator, &line), Ok(()));
    }
    for bad in ["n", "Q", "", "NW", "0"] {
        assert_eq!(
            validate_indicator(s(bad), ValidationType::DetailIndicator, &line),
            Err(LineParseError::DetailIndicator(3))
        );
    }
    for good in ["13", "50", "51", "52", "53", "54", "55", "56", "57"] {
        assert_eq!(validate_trans_code(s(good), ValidationType::DetailTransCode, &line), Ok(()));
    }
    for bad in ["12", "14", "49", "58", "59", "5", "530", "", "3 "] {
        assert_eq!(
            validate_trans_code(s(bad), ValidationType::DetailTransCode, &line),
            Err(LineParseError::DetailTransCode(3))
        );
    }
    assert_eq!(validate_amount(s("0000001234"), ValidationType::DetailAmount, &line), Ok(()));
    assert_eq!(
        validate_amount(s("00000012.4"), ValidationType::DetailAmount, &line),
        Err(LineParseError::DetailAmount(3))
    );
    assert_eq!(
        validate_amount(" ".repeat(10), ValidationType::DetailAmount, &line),
        Err(LineParseError::DetailAmount(3))
    );
    assert_eq!(
        validate_amount(s("      1234"), ValidationType::DetailAmount, &line),
        Err(LineParseError::DetailAmount(3))
    );
    assert_eq!(validate_amount(" ".repeat(10), ValidationType::DetailTransCode, &line), Ok(()));
    assert_eq!(validate_client_name(s("S R SMITH"), ValidationType::DetailClientName, &line), Ok(()));
    assert_eq!(validate_client_name(s(""), ValidationType::DetailClientName, &line), Ok(()));
    assert_eq!(
        validate_client_name(s(" S R SMITH"), ValidationType::DetailClientName, &line),
        Err(LineParseError::DetailClientName(3))
    );
    assert_eq!(validate_src_acct(s(" 12223123"), ValidationType::DetailSrcAccount, &line), Ok(()));
    assert_eq!(
        validate_src_acct(s("1222312 3"), ValidationType::DetailSrcAccount, &line),
        Err(LineParseError::DetailSrcAccount(3))
    );
    assert_eq!(
        validate_src_acct(s("         "), ValidationType::DetailSrcAccount, &line),
        Err(LineParseError::DetailSrcAccount(3))
    );
    assert_eq!(validate_remitter(s("MY ACCOUNT"), ValidationType::DetailRemitter, &line), Ok(()));
    assert_eq!(
        validate_remitter(s("   "), ValidationType::DetailRemitter, &line),
        Err(LineParseError::DetailRemitter(3))
    );
    assert_eq!(validate_tax_withhold(s("00001200"), ValidationType::DetailTaxWithhold, &line), Ok(()));
    assert_eq!(
        validate_tax_withhold(s("    1200"), ValidationType::DetailTaxWithhold, &line),
        Err(LineParseError::DetailTaxWithhold(3))
    );
    assert_eq!(
        validate_tax_withhold(s("1200    "), ValidationType::DetailTaxWithhold, &line),
        Err(LineParseError::DetailTaxWithhold(3))
    );
}

#[test]
fn trailer_amount_rules() {
    let good = s("000001904500000190450000000000");
    assert_eq!(validate_total_field(good.clone(), TotalAmountType::Total), Ok(()));
    assert_eq!(validate_total_field(good.clone(), TotalAmountType::Credit), Ok(()));
    assert_eq!(validate_total_field(good, TotalAmountType::Debit), Ok(()));
    let net = s("000000003100000000320000000001");
    assert_eq!(validate_total_field(net, TotalAmountType::Total), Ok(()));
    let off = s("000000003100000000320000000000");
    assert_eq!(
        validate_total_field(off, TotalAmountType::Total),
        Err(LineParseError::TotalCompute)
    );
    let debit_larger = s("000000000100000000010000000002");
    assert_eq!(
        validate_total_field(debit_larger, TotalAmountType::Total),
        Err(LineParseError::TotalCompute)
    );
    let bad_total = s("00000000x100000000320000000001");
    assert_eq!(
        validate_total_field(bad_total.clone(), TotalAmountType::Total),
        Err(LineParseError::TotalField)
    );
    assert_eq!(validate_total_field(bad_total, TotalAmountType::Credit), Ok(()));
    let bad_credit = s("0000000031000000003 0000000001");
    assert_eq!(
        validate_total_field(bad_credit.clone(), TotalAmountType::Total),
        Err(LineParseError::TotalMalformedCreditDebit)
    );
    assert_eq!(
        validate_total_field(bad_credit.clone(), TotalAmountType::Credit),
        Err(LineParseError::TotalCredit)
    );
    assert_eq!(validate_total_field(bad_credit, TotalAmountType::Debit), Ok(()));
    let bad_debit = s("00000000310000000032000000000-");
    assert_eq!(
        validate_total_field(bad_debit.clone(), TotalAmountType::Total),
        Err(LineParseError::TotalMalformedCreditDebit)
    );
    assert_eq!(
        validate_total_field(bad_debit, TotalAmountType::Debit),
        Err(LineParseError::TotalDebit)
    );
}

#[test]
fn trailer_amounts_beyond_32_bits_reconcile() {
    let large = s("999999999999999999990000000000");
    assert_eq!(validate_total_field(large, TotalAmountType::Total), Ok(()));
    assert!(validate_trim_then_compute("9999999999", "5000000000", "4999999999"));
    assert!(!validate_trim_then_compute("9999999999", "5000000000", "5000000000"));
}

#[test]
fn trailer_count_rules() {
    assert_eq!(validate_record_type_count(s("000004"), &4), Ok(()));
    assert_eq!(
        validate_record_type_count(s("000004"), &3),
        Err(LineParseError::TotalCount(4, 3))
    );
    assert_eq!(validate_record_type_count(s("000000"), &0), Ok(()));
    assert_eq!(
        validate_record_type_count(s("000000"), &2),
        Err(LineParseError::TotalCount(0, 2))
    );
    assert_eq!(
        validate_record_type_count(s("00000a"), &4),
        Err(LineParseError::TotalNonNumeric)
    );
    assert_eq!(
        validate_record_type_count(s("    04"), &4),
        Err(LineParseError::TotalNonNumeric)
    );
}

#[test]
fn reconciliation_reads_integers() {
    assert!(validate_trim_then_compute("00032", "00001", "00031"));
    assert!(validate_trim_then_compute("32", "0", "0000000032"));
    assert!(validate_trim_then_compute("", "", ""));
    assert!(!validate_trim_then_compute("00001", "00002", "00001"));
    assert_eq!(validate_nonzero_str("0003129247"), 3129247);
    assert_eq!(validate_nonzero_str(""), 0);
    assert_eq!(validate_nonzero_str("4294967295"), u32::MAX);
}

#[test]
fn failure_texts_are_exact() {
    assert_eq!(
        LineParseError::DescriptiveRecordTypeZero(s("5")).to_string(),
        "- At line 1 in the descriptive block at character position 1, it must be 0 not 5\n"
    );
    assert_eq!(
        LineParseError::DetailRecordTypeOne(12, s("0")).to_string(),
        "- At line 12 in the detail block at character position 1, it must be 1 not 0\n"
    );
    assert_eq!(
        LineParseError::DetailDestAccount(4294967295).to_string(),
        "- At line 4294967295 in the detail block between character position 9 - 17, all must be numerics and right adjusted\n"
    );
    assert_eq!(
        LineParseError::DetailTaxWithhold(100).to_string(),
        "- At line 100 in the detail block between character position 113 - 120, the amount must be right justified\n"
    );
    assert_eq!(
        LineParseError::TotalCount(10, 0).to_string(),
        "- At the last line in the total block between character position 75 - 80, the record count 10 is not equal to the detail line count 0\n"
    );
    assert_eq!(
        LineParseError::TotalCompute.to_string(),
        "- At the last line in the total block between character position 21 - 30, total is not equal to credit - debit\n"
    );
    assert_eq!(text_of(Ok(())), "");
    assert_eq!(
        text_of(Err(LineParseError::TotalBlankTwo)),
        "- At the last line in the total block between character position 51 - 74, all must be 24 blanks\n"
    );
}

#[test]
fn every_failure_has_a_text_of_one_line() {
    let all = vec![
        LineParseError::DescriptiveRecordTypeZero(s("1")),
        LineParseError::DescriptiveBlankOne,
        LineParseError::DescriptiveReelSequence(s("02")),
        LineParseError::DescriptiveUserName,
        LineParseError::DescriptiveBlankTwo,
        LineParseError::DescriptiveSelfName,
        LineParseError::DescriptiveApca,
        LineParseError::DescriptiveFileEntry,
        LineParseError::DescriptiveDate,
        LineParseError::DescriptiveBlankThree,
        LineParseError::DetailRecordTypeOne(2, s("0")),
        LineParseError::DetailBsbClient(2, s("123-456")),
        LineParseError::DetailDestAccount(2),
        LineParseError::DetailIndicator(2),
        LineParseError::DetailTransCode(2),
        LineParseError::DetailAmount(2),
        LineParseError::DetailClientName(2),
        LineParseError::DetailLodgeRef(2),
        LineParseError::DetailBsbTrace(2, s("123-456")),
        LineParseError::DetailSrcAccount(2),
        LineParseError::DetailRemitter(2),
        LineParseError::DetailTaxWithhold(2),
        LineParseError::TotalTypeSeven(s("1")),
        LineParseError::TotalBsbFiller(s("123-456")),
        LineParseError::TotalBlankOne,
        LineParseError::TotalField,
        LineParseError::TotalCompute,
        LineParseError::TotalMalformedCreditDebit,
        LineParseError::TotalCredit,
        LineParseError::TotalDebit,
        LineParseError::TotalBlankTwo,
        LineParseError::TotalNonNumeric,
        LineParseError::TotalCount(1, 2),
        LineParseError::TotalBlankThree,
    ];
    for failure in all.iter() {
        let text = failure.to_string();
        assert!(text.starts_with("- At "));
        assert!(text.ends_with('\n'));
        assert_eq!(text.matches('\n').count(), 1);
    }
}

#[test]
fn header_rules_all_fire() {
    let line = format!("{}{}{}{}{}{}{}{}{}{}", "9", "x".repeat(17), "02", "ZZZ", "x".repeat(7),
        " ".repeat(26), "12345 ", " PAY        ", "320110", "x".repeat(40));
    let (_, block) = DescriptiveBlock::deserialise(&line).unwrap();
    let report = block.validate(&reference().banks).unwrap();
    let expected = [
        LineParseError::DescriptiveRecordTypeZero(s("9")),
        LineParseError::DescriptiveBlankOne,
        LineParseError::DescriptiveReelSequence(s("02")),
        LineParseError::DescriptiveUserName,
        LineParseError::DescriptiveBlankTwo,
        LineParseError::DescriptiveSelfName,
        LineParseError::DescriptiveApca,
        LineParseError::DescriptiveFileEntry,
        LineParseError::DescriptiveDate,
        LineParseError::DescriptiveBlankThree,
    ];
    let text: String = expected.iter().map(|e| e.to_string()).collect();
    assert_eq!(report, text);
}

#[test]
fn transaction_rules_all_fire() {
    let line = format!("{}{}{}{}{}{}{}{}{}{}{}{}", "7", "111-111", "12345678 ", "Q", "99",
        "12345678 x", " NAME".to_string() + &" ".repeat(27), "0REF".to_string() + &" ".repeat(14),
        "222-222", "x        ", " ".repeat(16), "1234567 ");
    assert_eq!(line.chars().count(), 120);
    let (_, block) = DetailBlock::deserialise(&line).unwrap();
    let report = block.validate(&5, &reference().branches).unwrap();
    let expected = [
        LineParseError::DetailRecordTypeOne(5, s("7")),
        LineParseError::DetailBsbClient(5, s("111-111")),
        LineParseError::DetailDestAccount(5),
        LineParseError::DetailIndicator(5),
        LineParseError::DetailTransCode(5),
        LineParseError::DetailAmount(5),
        LineParseError::DetailClientName(5),
        LineParseError::DetailLodgeRef(5),
        LineParseError::DetailBsbTrace(5, s("222-222")),
        LineParseError::DetailSrcAccount(5),
        LineParseError::DetailRemitter(5),
        LineParseError::DetailTaxWithhold(5),
    ];
    let text: String = expected.iter().map(|e| e.to_string()).collect();
    assert_eq!(report, text);
}

#[test]
fn trailer_rules_all_fire() {
    let line = format!("{}{}{}{}{}{}{}", "1", "999-990", "x".repeat(12),
        "00000000010000000002000000000x", "x".repeat(24), "00000x", "x".repeat(40));
    assert_eq!(line.chars().count(), 120);
    let (_, block) = TotalBlock::deserialise(&line).unwrap();
    let report = block.validate(&1).unwrap();
    let expected = [
        LineParseError::TotalTypeSeven(s("1")),
        LineParseError::TotalBsbFiller(s("999-990")),
        LineParseError::TotalBlankOne,
        LineParseError::TotalMalformedCreditDebit,
        LineParseError::TotalDebit,
        LineParseError::TotalBlankTwo,
        LineParseError::TotalNonNumeric,
        LineParseError::TotalBlankThree,
    ];
    let text: String = expected.iter().map(|e| e.to_string()).collect();
    assert_eq!(report, text);
}

#[test]
fn blank_means_white_space_only() {
    assert!(validate_blank(""));
    assert!(validate_blank("   "));
    assert!(validate_blank(" \t\r\n"));
    assert!(validate_blank("\u{a0}\u{2003}\u{3000}"));
    assert!(!validate_blank(" a "));
    assert!(!validate_blank("   \n."));
    assert!(!validate_blank("\u{200b}"));
}

#[test]
fn two_decimal_amounts() {
    assert!(validate_two_decimals("1.00"));
    assert!(validate_two_decimals("12345678.12"));
    assert!(!validate_two_decimals("123456789.12"));
    assert!(!validate_two_decimals(".12"));
    assert!(!validate_two_decimals("1.2"));
    assert!(!validate_two_decimals("1.234"));
    assert!(!validate_two_decimals("1,23"));
    assert!(!validate_two_decimals("12"));
    assert!(!validate_two_decimals("1.23\n"));
    assert!(!validate_two_decimals(" 1.23"));
    assert!(!validate_two_decimals("\u{661}.\u{662}\u{663}"));
    assert!(!validate_two_decimals(""));
}

#[test]
fn amounts_become_cents() {
    assert_eq!(normalise_amount("67.00"), "6700");
    assert_eq!(normalise_amount("0.05"), "005");
    assert_eq!(normalise_amount("12345678.12"), "1234567812");
    assert_eq!(normalise_amount("123.456"), "123.456");
    assert_eq!(normalise_amount("123456789.12"), "123456789.12");
    assert_eq!(normalise_amount("1.2.3"), "1.2.3");
    assert_eq!(normalise_amount("100"), "100");
    assert_eq!(normalise_amount(""), "");
}

#[test]
fn calendar_check_of_dates() {
    assert!(validate_date_format("230410"));
    assert!(validate_date_format("290224"));
    assert!(validate_date_format("311299"));
    assert!(validate_date_format("010100"));
    assert!(validate_date_format("280200"));
    assert!(!validate_date_format("290223"));
    assert!(!validate_date_format("310424"));
    assert!(!validate_date_format("000110"));
    assert!(!validate_date_format("011310"));
    assert!(!validate_date_format("010010"));
    assert!(!validate_date_format("1a0410"));
    assert!(!validate_date_format("23041 "));
    assert!(!validate_date_format("-10410"));
    assert!(!validate_date_format("2304"));
    assert!(!validate_date_format(""));
    assert!(validate_date_format("2304109999"));
}

#[test]
fn calendar_check_of_expanded_dates() {
    assert!(check_expanded_date("29022000"));
    assert!(check_expanded_date("29022400"));
    assert!(!check_expanded_date("29021900"));
    assert!(!check_expanded_date("29022100"));
    assert!(check_expanded_date("29021996"));
    assert!(!check_expanded_date("31061996"));
    assert!(check_expanded_date("31121111"));
    assert!(!check_expanded_date("+1011999"));
    assert_eq!(expand_year("290200", 1, 2), "29021200");
    assert_eq!(expand_year("2304109", 9, 1), "23049110");
    assert!(check_expanded_date(&expand_year("290200", 1, 2)));
    assert!(!check_expanded_date(&expand_year("290200", 1, 3)));
}

#[test]
fn drawn_century_digits_are_from_one_to_nine() {
    for _ in 0..200 {
        let (rest, date) = TwoDigitYears::deserialise("280222rest").unwrap();
        assert_eq!(rest, "rest");
        let chars: Vec<char> = date.chars().collect();
        assert_eq!(chars.len(), 8);
        assert!(('1'..='9').contains(&chars[4]));
        assert!(('1'..='9').contains(&chars[5]));
    }
    assert!(TwoDigitYears::deserialise("28022").is_none());
}

#[test]
fn leap_day_of_year_00_follows_the_drawn_century() {
    let mut seen_true = false;
    let mut seen_false = false;
    for _ in 0..2000 {
        if validate_date_format("290200") {
            seen_true = true;
        } else {
            seen_false = true;
        }
    }
    assert!(seen_true && seen_false);
}

#[test]
fn composite_fields() {
    let (rest, bsb) = Bsb::deserialise("063-000 and more").unwrap();
    assert_eq!(rest, " and more");
    assert_eq!((bsb.first.as_str(), bsb.sep.as_str(), bsb.second.as_str()), ("063", "-", "000"));
    assert_eq!(bsb.to_string(), "063-000\n");
    assert!(Bsb::deserialise("063-00").is_none());
    let (rest, field) = TotalField::deserialise("000312924700031292470000000000!").unwrap();
    assert_eq!(rest, "!");
    assert_eq!(field.credit, "0003129247");
    assert_eq!(field.debit, "0000000000");
    assert_eq!(field.to_string(), "000312924700031292470000000000\n");
    assert!(TotalField::deserialise("00031292470003129247000000000").is_none());
    let date = TwoDigitYears { day: s("23"), month: s("04"), year: s("10") };
    assert_eq!(date.to_string(), "230410\n");
}

#[test]
fn padding_never_cuts() {
    assert_eq!(left_adjust("AB", 5, FillStrategy::Blank), "AB   ");
    assert_eq!(left_adjust("AB", 5, FillStrategy::Zero), "AB000");
    assert_eq!(right_adjust("AB", 5, FillStrategy::Blank), "   AB");
    assert_eq!(right_adjust("12", 5, FillStrategy::Zero), "00012");
    assert_eq!(left_adjust("ABCDE", 5, FillStrategy::Blank), "ABCDE");
    assert_eq!(left_adjust("ABCDEF", 5, FillStrategy::Blank), "ABCDEF");
    assert_eq!(right_adjust("123456", 5, FillStrategy::Zero), "123456");
    assert_eq!(right_adjust("", 3, FillStrategy::Zero), "000");
    assert_eq!(left_adjust("é", 3, FillStrategy::Blank), "é  ");
    assert_eq!(fill(0, FillStrategy::Zero), "");
    assert_eq!(fill(4, FillStrategy::Blank), "    ");
}

#[test]
fn field_codec_cuts_and_joins() {
    let layout = vec![1usize, 0, 3, 2];
    let fields = extract_fields("abcdefg", &layout).unwrap();
    assert_eq!(fields, vec![s("a"), s(""), s("bcd"), s("ef")]);
    assert_eq!(join_strings(&fields), "abcdef");
    assert!(extract_fields("abcde", &layout).is_none());
    assert_eq!(extract_fields("", &Vec::new()), Some(Vec::new()));
    assert!(extract_fields("ab", &vec![usize::MAX, usize::MAX]).is_none());
}

#[test]
fn text_helpers() {
    assert_eq!(trim("  a b \t\n"), "a b");
    assert_eq!(trim("\u{a0}x\u{3000}"), "x");
    assert_eq!(trim("   "), "");
    assert_eq!(trim(""), "");
    assert_eq!(trim_start_char("$$1$", '$'), "1$");
    assert_eq!(trim_start_char("   ", ' '), "");
    assert_eq!(remove_char("1.2.3.", '.'), "123");
    assert_eq!(slice_chars("héllo", 1, 3), "él");
    assert!(starts_with_char("0a", '0') && !starts_with_char("", '0') && !starts_with_char("a0", '0'));
    assert!(ends_with_char("a ", ' ') && !ends_with_char("", ' ') && !ends_with_char(" a", ' '));
    assert!(contains_char("a.b", '.') && !contains_char("ab", '.'));
    assert!(validate_number("0123456789") && validate_number(""));
    assert!(!validate_number("12 ") && !validate_number("١٢"));
    assert_eq!(number_text(0), "0");
    assert_eq!(number_text(19045), "19045");
    assert_eq!(number_text(u128::MAX), "340282366920938463463374607431768211455");
    assert_eq!(digits_value("0000019045"), Some(19045));
    assert_eq!(digits_value(""), Some(0));
    assert_eq!(digits_value("340282366920938463463374607431768211455"), Some(u128::MAX));
    assert_eq!(digits_value("340282366920938463463374607431768211456"), None);
    assert_eq!(digits_value("12a"), None);
}

#[test]
fn code_table_lists_whole_codes_only() {
    let table = reference().branches;
    assert!(table.contains("062-000"));
    assert!(!table.contains("062-00"));
    assert!(!table.contains("062-0000"));
    assert!(!table.contains(""));
    assert!(!CodeTable::new(Vec::new()).contains("062-000"));
}

#[test]
fn optional_values_get_their_defaults() {
    assert_eq!(optional_comment(None), Some(" ".repeat(18)));
    assert_eq!(optional_comment(Some(s("RENT"))), Some(s("RENT")));
    assert_eq!(optional_tax_withhold(None), Some(s("00000000")));
    assert_eq!(optional_tax_withhold(Some(s("1.50"))), Some(s("1.50")));
}

#[test]
fn complaints_name_the_rule_that_failed() {
    let reference = reference();
    let mut res: Vec<&str> = Vec::new();
    assert!(validate_csv_bank_name("BQL", &mut res, &reference.banks));
    assert!(validate_csv_apca_number("", &mut res));
    assert!(validate_csv_settle_date("230410", &mut res));
    assert!(validate_bsb("062-000", &mut res, BsbType::DetailBsb, &reference.branches));
    assert!(validate_account_number("  1234", &mut res, BsbType::DetailBsb));
    assert!(validate_csv_amount("12345", &mut res));
    assert!(validate_csv_amount("1234567890", &mut res));
    assert!(validate_csv_comment("", &mut res));
    assert!(validate_csv_comment("123456789012345678", &mut res));
    assert!(validate_csv_tax_withhold("", &mut res));
    assert!(validate_csv_tax_withhold("12.34", &mut res));
    assert!(res.is_empty());
    assert!(!validate_account_number("   ", &mut res, BsbType::DetailBsb));
    assert_eq!(res, vec!["Account number field must not be empty and exceed 9 digits"]);
    res.clear();
    assert!(!validate_csv_bank_name("BQLX", &mut res, &reference.banks));
    assert!(!validate_csv_bank_name("ZZZ", &mut res, &reference.banks));
    assert!(!validate_csv_settle_date("2304", &mut res));
    assert!(!validate_bsb("062-00", &mut res, BsbType::DetailBsb, &reference.branches));
    assert!(!validate_bsb("062-00", &mut res, BsbType::DetailTraceBsb, &reference.branches));
    assert!(!validate_bsb("111-111", &mut res, BsbType::DetailTraceBsb, &reference.branches));
    assert!(!validate_account_number("12 34", &mut res, BsbType::DetailBsb));
    assert!(!validate_account_number("", &mut res, BsbType::DetailTraceBsb));
    assert!(!validate_csv_amount("12.345", &mut res));
    assert!(!validate_csv_amount("1.2", &mut res));
    assert!(!validate_csv_tax_withhold("123456789", &mut res));
    assert!(!validate_csv_tax_withhold("1.2", &mut res));
    assert_eq!(
        res,
        vec![
            "Bank name field must be in the excat format of 3 upppercase characters",
            "Bank name field is not valid",
            "Settlement date field must be in the exact format of DDMMYY",
            "BSB field must be in the format of xxx-xxx where x are digits",
            "Trace BSB code field must be in the excat format of xxx-xxx where x are digits",
            "BSB code is not valid",
            "Account number field must not be empty and exceed 9 digits",
            "Trace account number field must not be empty and exceed 9 digits",
            "Amount field must be in valid two deicmal format",
            "Amount field must be in valid two deicmal format",
            "Tax withold field must be digits and must not exceed 8 digits",
            "Tax withold field must be in valid two deicmal format",
        ]
    );
}

#[test]
fn bank_code_must_have_three_characters_even_where_listed() {
    let banks = CodeTable::new(vec![s("BQ"), s("B"), s("BQL"), s("BQLX"), s("")]);
    let mut res: Vec<&str> = Vec::new();
    assert!(validate_csv_bank_name("BQL", &mut res, &banks));
    assert!(res.is_empty());
    for code in ["", "B", "BQ", "BQLX"] {
        assert!(!validate_csv_bank_name(code, &mut res, &banks));
    }
    assert_eq!(
        res,
        vec!["Bank name field must be in the excat format of 3 upppercase characters"; 4]
    );
}

#[test]
fn branch_failure_shows_the_code_as_the_field_holds_it() {
    let branches = reference().branches;
    let out = validate_bsb_client(s("123-456"), BsbType::DetailBsb, &2, &branches);
    assert_eq!(out, Err(LineParseError::DetailBsbClient(2, s("123-456"))));
    assert_eq!(
        text_of(out),
        "- At line 2 in the detail block between character position 2 - 7, it must contain valid BSB number, but you have 123-456\n"
    );
    let out = validate_bsb_trace(s("123-456"), BsbType::DetailTraceBsb, &9, &branches);
    assert_eq!(out, Err(LineParseError::DetailBsbTrace(9, s("123-456"))));
    assert_eq!(
        text_of(out),
        "- At line 9 in the detail block between character position 81 - 87, it must contain valid BSB number, but you have 123-456\n"
    );
}

#[test]
fn settings_need_all_eight_keys() {
    let keys = [
        "bank_name", "user_name", "apca_number", "file_description", "settle_date", "trace_bsb",
        "trace_account_number", "trace_account_name",
    ];
    let all: Vec<(String, String)> =
        keys.iter().rev().map(|k| (k.to_string(), format!("  value of {} \n", k))).collect();
    let settings = SettlementSettings::new(&all).unwrap();
    assert_eq!(settings.bank_name, "value of bank_name");
    assert_eq!(settings.trace_account_name, "value of trace_account_name");
    assert_eq!(
        settings.to_string(),
        keys.iter().map(|k| format!("value of {}", k)).collect::<String>() + "\n"
    );
    for missing in keys.iter() {
        let some: Vec<(String, String)> =
            all.iter().filter(|(k, _)| k != missing).cloned().collect();
        assert_eq!(SettlementSettings::new(&some), Err(SettingsError::MissingKey(missing)));
    }
    let none: Vec<(String, String)> = Vec::new();
    assert_eq!(SettlementSettings::new(&none), Err(SettingsError::MissingKey("bank_name")));
    let without_two: Vec<(String, String)> = all
        .iter()
        .filter(|(k, _)| k != "trace_bsb" && k != "apca_number")
        .cloned()
        .collect();
    assert_eq!(
        SettlementSettings::new(&without_two),
        Err(SettingsError::MissingKey("apca_number"))
    );
    let mut twice = all.clone();
    twice.insert(0, (s("bank_name"), s("first")));
    assert_eq!(SettlementSettings::new(&twice).unwrap().bank_name, "first");
}

#[test]
fn settings_are_checked_to_the_end() {
    let settings = SettlementSettings {
        bank_name: s(""),
        user_name: s("x".repeat(27).as_str()),
        apca_number: s("12345a"),
        file_description: s(""),
        settle_date: s("310410"),
        trace_bsb: s("062-0000"),
        trace_account_number: s("1234567890"),
        trace_account_name: s("x".repeat(17).as_str()),
    };
    assert_eq!(
        settings.validate(&reference()),
        vec![
            "Bank name field must be in the excat format of 3 upppercase characters",
            "User name field must not be empty and exceed 26 characters",
            "APCA code field must be in the excat format of 6 digits",
            "File description field must not be empty and exceed 12 characters",
            "Settlement date field must be in the exact format of DDMMYY",
            "Trace BSB code field must be in the excat format of xxx-xxx where x are digits",
            "Trace account number field must not be empty and exceed 9 digits",
            "Trace ccount name field must not be empty and exceed 12 characters",
        ]
    );
    let copy = settings.duplicate();
    assert_eq!(copy, settings);
}

#[test]
fn rows_are_made_ready_and_checked_to_the_end() {
    let raw = CsvRecord {
        bsb: s(" 062-000 "),
        account_number: s(" 1234\t"),
        client_name: s("  J DOE  "),
        amount: s(" $$67.00 "),
        comment: None,
        tax_withhold: Some(s("$1.50")),
    };
    let flat = RecordFlatten::new(&raw);
    assert_eq!(flat.bsb, "062-000");
    assert_eq!(flat.account_number, "1234");
    assert_eq!(flat.client_name, "J DOE");
    assert_eq!(flat.amount, "6700");
    assert_eq!(flat.comment, "");
    assert_eq!(flat.tax_withhold, "150");
    let defaulted = RecordFlatten::new(&CsvRecord { tax_withhold: None, ..raw.clone() });
    assert_eq!(defaulted.tax_withhold, "00000000");

    let conf = SettlementSettings { trace_bsb: s("063-000"), ..SettlementSettings::default() };
    let sound = RecordWithConf::new(&raw, conf.clone());
    assert_eq!(sound.conf, conf);
    let mut err_count = 4u32;
    assert!(sound.validate(&reference(), &mut err_count).is_empty());
    assert_eq!(err_count, 4);

    let unsound = RecordWithConf::new(
        &CsvRecord {
            bsb: s("062-00"),
            account_number: s("12x4"),
            client_name: s(""),
            amount: s("1.2"),
            comment: Some(s("-REF")),
            tax_withhold: Some(s("abc")),
        },
        conf,
    );
    assert_eq!(
        unsound.validate(&reference(), &mut err_count),
        vec![
            "BSB field must be in the format of xxx-xxx where x are digits",
            "Account number field must not be empty and exceed 9 digits",
            "Account name field must not be empty and exceed 32 characters",
            "Amount field must be in valid two deicmal format",
            "Comment field must not exceed 18 characters or start with 0 and -",
            "Tax withold field must be digits and must not exceed 8 digits",
        ]
    );
    assert_eq!(err_count, 5);
}

#[test]
fn records_are_built_with_their_padding() {
    let header = DescriptiveBlock::from(SettlementSettings {
        bank_name: s("BQL"),
        user_name: s("MY NAME"),
        apca_number: s("42"),
        file_description: s("PAY"),
        settle_date: s("230410"),
        ..SettlementSettings::default()
    });
    assert_eq!(header.record_type, "0");
    assert_eq!(header.reel_seq, "01");
    assert_eq!(header.user_name, "MY NAME                   ");
    assert_eq!(header.apca_number, "000042");
    assert_eq!(header.file_description, "PAY         ");
    assert_eq!(header.to_string().chars().count(), 120);

    let total = TotalRecord::new(s("2"), s("19045"));
    assert_eq!(total.line_count, "000002");
    assert_eq!(total.total, "0000019045");
    let trailer = TotalBlock::from(total);
    assert_eq!(trailer.record_type, "7");
    assert_eq!(trailer.bsb_filler, "999-999");
    assert_eq!(trailer.total_field, "000001904500000190450000000000");
    assert_eq!(trailer.record_count, "000002");
    assert_eq!(trailer.to_string().chars().count(), 120);

    let oversized = TotalRecord::new(s("1234567"), s("12345678901"));
    assert_eq!(oversized.line_count, "1234567");
    assert_eq!(oversized.total, "12345678901");
    assert_eq!(TotalBlock::from(oversized).to_string().chars().count(), 123);
}
