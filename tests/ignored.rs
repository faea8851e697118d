use allure_report::{
    author_time_of_captures, is_kotlin_source, is_stale, parse_decimal, scan_captures, IgnoreScanner, Timestamp,
    MILLIS_PER_DAY,
};

fn lines(text: &[&str]) -> Vec<String> {
    text.iter().map(|l| l.to_string()).collect()
}

#[test]
fn scan_finds_ignored_test_with_reason_author_and_module() {
    let scanner = IgnoreScanner::new().unwrap();
    let file = lines(&[
        "package a.b",
        "@Developer(Developers.ALICE)",
        "@TestModule(TestModules.PAYMENTS)",
        "class PaymentTest {",
        "    @Ignore(\"flaky on CI\")",
        "    @Test fun pays() {}",
        "}",
    ]);
    let scan = scanner.scan_lines(&file).unwrap();
    assert_eq!(scan.line_number, 5);
    assert_eq!(scan.comment, Some("flaky on CI".to_string()));
    assert_eq!(scan.author, Some("ALICE".to_string()));
    assert_eq!(scan.test_module, Some("PAYMENTS".to_string()));
}

#[test]
fn scan_of_bare_ignore_has_no_reason() {
    let scanner = IgnoreScanner::new().unwrap();
    let file = lines(&["class A {", "  @Ignore", "  @Ignore(\"second\")", "}"]);
    let scan = scanner.scan_lines(&file).unwrap();
    assert_eq!(scan.line_number, 2);
    assert_eq!(scan.comment, None);
    assert_eq!(scan.author, None);
    assert_eq!(scan.test_module, None);
}

#[test]
fn scan_without_ignore_finds_nothing() {
    let scanner = IgnoreScanner::new().unwrap();
    let file = lines(&["@Developer(Developers.BOB)", "// @Ignore is mentioned here only", "class A"]);
    assert!(scanner.scan_lines(&file).is_none());
    assert!(scanner.scan_lines(&Vec::new()).is_none());
}

#[test]
fn author_time_reads_first_porcelain_time() {
    let scanner = IgnoreScanner::new().unwrap();
    let output = lines(&[
        "0123abcd 5 5 1",
        "author Bob",
        "author-mail <bob@example.com>",
        "author-time 1700000000",
        "author-tz +0000",
        "committer-time 1800000000",
    ]);
    assert_eq!(scanner.author_time(&output), Some(Timestamp { millis: 1_700_000_000_000 }));
}

#[test]
fn author_time_rejects_missing_or_out_of_range_values() {
    let scanner = IgnoreScanner::new().unwrap();
    assert_eq!(scanner.author_time(&lines(&["author Bob"])), None);
    assert_eq!(scanner.author_time(&lines(&["author-time 99999999999999999999"])), None);
    assert_eq!(scanner.author_time(&lines(&["author-time 8210266876800"])), None);
    assert_eq!(
        scanner.author_time(&lines(&["author-time 8210266876799"])),
        Some(Timestamp { millis: 8_210_266_876_799_000 })
    );
    assert_eq!(scanner.author_time(&lines(&["author-time 0"])), Some(Timestamp { millis: 0 }));
}

#[test]
fn seconds_convert_to_instants() {
    assert_eq!(Timestamp::from_seconds(-8_334_601_228_800), Some(Timestamp { millis: -8_334_601_228_800_000 }));
    assert_eq!(Timestamp::from_seconds(-8_334_601_228_801), None);
    assert_eq!(Timestamp::from_seconds(i64::MAX), None);
    assert_eq!(Timestamp::from_seconds(i64::MIN), None);
    assert_eq!(Timestamp::from_seconds(1), Some(Timestamp { millis: 1000 }));
}

#[test]
fn staleness_counts_whole_days() {
    let date = Timestamp { millis: 0 };
    assert!(is_stale(date, Timestamp { millis: 271 * MILLIS_PER_DAY }));
    assert!(!is_stale(date, Timestamp { millis: 271 * MILLIS_PER_DAY - 1 }));
    assert!(!is_stale(date, Timestamp { millis: 270 * MILLIS_PER_DAY }));
    assert!(!is_stale(Timestamp { millis: 271 * MILLIS_PER_DAY }, date));
}

fn groups(g: &[Option<&str>]) -> Option<Vec<Option<String>>> {
    Some(g.iter().map(|x| x.map(|s| s.to_string())).collect())
}

#[test]
fn scanner_patterns_compile() {
    assert!(IgnoreScanner::new().is_some());
}

#[test]
fn scan_of_given_captures() {
    let ignore = vec![None, None, groups(&[Some("@Ignore(\"why\")"), Some("(\"why\")"), Some("why")]), groups(&[Some("@Ignore"), None, None])];
    let developer = vec![None, groups(&[Some("@Developer(Developers.ANN)"), Some("ANN")]), groups(&[Some("x"), Some("LATER")])];
    let test_module = vec![None, None, None];
    let scan = scan_captures(ignore, developer, test_module).unwrap();
    assert_eq!(scan.line_number, 3);
    assert_eq!(scan.comment, Some("why".to_string()));
    assert_eq!(scan.author, Some("ANN".to_string()));
    assert_eq!(scan.test_module, None);
    assert!(scan_captures(vec![None, None], vec![groups(&[Some("a"), Some("b")])], vec![]).is_none());
    let short = scan_captures(vec![groups(&[Some("@Ignore")])], vec![], vec![]).unwrap();
    assert_eq!(short.line_number, 1);
    assert_eq!(short.comment, None);
}

#[test]
fn author_time_of_given_captures() {
    let caps = vec![None, groups(&[Some("author-time 60"), Some("60")]), groups(&[Some("author-time 7"), Some("7")])];
    assert_eq!(author_time_of_captures(caps), Some(Timestamp { millis: 60_000 }));
    assert_eq!(author_time_of_captures(vec![None]), None);
    assert_eq!(author_time_of_captures(vec![groups(&[Some("author-time x"), Some("x")])]), None);
}

#[test]
fn decimal_parsing() {
    assert_eq!(parse_decimal(&"0".to_string()), Some(0));
    assert_eq!(parse_decimal(&"1700000000".to_string()), Some(1_700_000_000));
    assert_eq!(parse_decimal(&"9223372036854775807".to_string()), Some(i64::MAX));
    assert_eq!(parse_decimal(&"9223372036854775808".to_string()), None);
    assert_eq!(parse_decimal(&"".to_string()), None);
    assert_eq!(parse_decimal(&"12a".to_string()), None);
    assert_eq!(parse_decimal(&"-5".to_string()), None);
}

#[test]
fn kotlin_source_names() {
    assert!(is_kotlin_source("PaymentTest.kt"));
    assert!(is_kotlin_source(".kt"));
    assert!(!is_kotlin_source("kt"));
    assert!(!is_kotlin_source("Build.kts"));
    assert!(!is_kotlin_source("Main.java"));
}
