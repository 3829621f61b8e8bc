use check_fastq::{
    decimal_string, diagnostic_block, scan_lines, validate_record, FastqError, FastqRecord,
    FastqScanner,
};

fn rec(h: &str, s: &str, p: &str, q: &str) -> FastqRecord {
    FastqRecord::new(h.to_string(), s.to_string(), p.to_string(), q.to_string())
}

fn lines(text: &[&str]) -> Vec<String> {
    text.iter().map(|l| l.to_string()).collect()
}

#[test]
fn valid_record_passes() {
    assert!(validate_record(&rec("@r1", "ACGT", "+", "!!!!"), 1).is_ok());
    assert!(validate_record(&rec("@", "", "+r1", ""), 9).is_ok());
}

#[test]
fn bad_header_reports_its_line() {
    let r = validate_record(&rec("r1", "ACGT", "+", "!!!!"), 5);
    assert!(matches!(r, Err(FastqError::InvalidHeader(5))));
    let r = validate_record(&rec("", "ACGT", "+", "!!!!"), 1);
    assert!(matches!(r, Err(FastqError::InvalidHeader(1))));
}

#[test]
fn bad_separator_reports_header_plus_two() {
    let r = validate_record(&rec("@r1", "ACGT", "-", "!!!!"), 5);
    assert!(matches!(r, Err(FastqError::InvalidPlusLine(7))));
    let r = validate_record(&rec("@r1", "ACGT", "", "!!!!"), 1);
    assert!(matches!(r, Err(FastqError::InvalidPlusLine(3))));
}

#[test]
fn length_mismatch_reports_both_lengths() {
    let r = validate_record(&rec("@r1", "ACGT", "+", "!!"), 5);
    assert!(matches!(
        r,
        Err(FastqError::LengthMismatch { seq_len: 4, qual_len: 2, line_num: 8 })
    ));
}

#[test]
fn header_error_wins_over_separator_error() {
    let r = validate_record(&rec("r1", "ACGT", "-", "!!"), 1);
    assert!(matches!(r, Err(FastqError::InvalidHeader(1))));
}

#[test]
fn lengths_count_characters_not_bytes() {
    assert!(validate_record(&rec("@r1", "ACGT", "+", "éééé"), 1).is_ok());
    let r = validate_record(&rec("@r1", "AC", "+", "é"), 1);
    assert!(matches!(
        r,
        Err(FastqError::LengthMismatch { seq_len: 2, qual_len: 1, line_num: 4 })
    ));
}

#[test]
fn decimal_digits() {
    assert_eq!(decimal_string(0), "0");
    assert_eq!(decimal_string(7), "7");
    assert_eq!(decimal_string(10), "10");
    assert_eq!(decimal_string(12345), "12345");
    assert_eq!(decimal_string(usize::MAX), usize::MAX.to_string());
}

#[test]
fn diagnostic_blocks_show_error_and_lines() {
    let r = rec("r1", "ACGT", "+", "!!!!");
    assert_eq!(
        diagnostic_block(&r, &FastqError::InvalidHeader(1)),
        "错误: InvalidHeader(1)\nr1\nACGT\n+\n!!!!\n---\n"
    );
    assert_eq!(
        diagnostic_block(&r, &FastqError::InvalidPlusLine(23)),
        "错误: InvalidPlusLine(23)\nr1\nACGT\n+\n!!!!\n---\n"
    );
    let err = FastqError::LengthMismatch { seq_len: 4, qual_len: 2, line_num: 104 };
    assert_eq!(
        diagnostic_block(&r, &err),
        "错误: LengthMismatch { seq_len: 4, qual_len: 2, line_num: 104 }\nr1\nACGT\n+\n!!!!\n---\n"
    );
    assert_eq!(format!("错误: {:?}", err), "错误: LengthMismatch { seq_len: 4, qual_len: 2, line_num: 104 }");
}

#[test]
fn one_valid_record() {
    let s = scan_lines(&lines(&["@r1", "ACGT", "+", "!!!!"])).unwrap();
    assert_eq!((s.record_count, s.error_count), (1, 0));
    assert_eq!(s.report, "");
}

#[test]
fn short_quality_is_counted_and_reported() {
    let s = scan_lines(&lines(&["@r1", "ACGT", "+", "!!"])).unwrap();
    assert_eq!((s.record_count, s.error_count), (1, 1));
    assert_eq!(
        s.report,
        "错误: LengthMismatch { seq_len: 4, qual_len: 2, line_num: 4 }\n@r1\nACGT\n+\n!!\n---\n"
    );
}

#[test]
fn missing_at_sign_is_counted_at_line_one() {
    let s = scan_lines(&lines(&["r1", "ACGT", "+", "!!!!"])).unwrap();
    assert_eq!((s.record_count, s.error_count), (1, 1));
    assert_eq!(s.report, "错误: InvalidHeader(1)\nr1\nACGT\n+\n!!!!\n---\n");
}

#[test]
fn three_lines_are_an_incomplete_record() {
    let r = scan_lines(&lines(&["@r1", "ACGT", "+"]));
    assert!(matches!(r, Err(FastqError::Incomplete(4))));
    let r = scan_lines(&lines(&["@r1", "ACGT", "+", "!!!!", "@r2"]));
    assert!(matches!(r, Err(FastqError::Incomplete(6))));
}

#[test]
fn empty_input_has_no_records() {
    let s = scan_lines(&Vec::new()).unwrap();
    assert_eq!((s.record_count, s.error_count), (0, 0));
    assert_eq!(s.report, "");
}

#[test]
fn scanning_twice_gives_the_same_result() {
    let input = lines(&["@r1", "ACGT", "+", "!!", "r2", "AC", "+", "!!", "@r3", "A", "+", "!"]);
    let a = scan_lines(&input).unwrap();
    let b = scan_lines(&input).unwrap();
    assert_eq!((a.record_count, a.error_count), (3, 2));
    assert_eq!((a.record_count, a.error_count), (b.record_count, b.error_count));
    assert_eq!(a.report, b.report);
}

#[test]
fn later_records_report_their_own_line_numbers() {
    let input = lines(&["@r1", "ACGT", "+", "!!!!", "@r2", "AC", "x", "!!", "@r3", "AC", "+", "!"]);
    let s = scan_lines(&input).unwrap();
    assert_eq!((s.record_count, s.error_count), (3, 2));
    assert_eq!(
        s.report,
        "错误: InvalidPlusLine(7)\n@r2\nAC\nx\n!!\n---\n\
         错误: LengthMismatch { seq_len: 2, qual_len: 1, line_num: 12 }\n@r3\nAC\n+\n!\n---\n"
    );
}

#[test]
fn scanner_hands_out_blocks_line_by_line() {
    let mut sc = FastqScanner::new();
    assert!(sc.push_line("r1".to_string()).is_none());
    assert!(sc.push_line("ACGT".to_string()).is_none());
    assert!(sc.push_line("+".to_string()).is_none());
    assert_eq!(sc.lines_read(), 3);
    assert!(matches!(sc.finish(), Err(FastqError::Incomplete(4))));
    let b = sc.push_line("!!!!".to_string());
    assert_eq!(b.as_deref(), Some("错误: InvalidHeader(1)\nr1\nACGT\n+\n!!!!\n---\n"));
    for l in ["@r2", "A", "+", "!"] {
        assert!(sc.push_line(l.to_string()).is_none());
    }
    assert_eq!((sc.record_count(), sc.error_count()), (2, 1));
    assert!(matches!(sc.finish(), Ok((2, 1))));
}
