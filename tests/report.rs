use allure_report::{
    collect_test_infos, get_test_uids_recursively, manifest_path, parse_test_info, test_case_path,
    AllureError, AllureJson, AllureJsonExtra, AllureJsonExtraRetry, AllureLabelJson, AllureTestStatus,
    AllureTimeJson, TestInfo, TestInfoJson, Timestamp, MAX_UTC_MILLIS, MIN_UTC_MILLIS,
};

fn label(name: &str, value: &str) -> AllureLabelJson {
    AllureLabelJson { name: name.to_string(), value: value.to_string() }
}

fn record(full_name: &str, start: i64, labels: Vec<AllureLabelJson>, retries: Vec<AllureJsonExtraRetry>) -> TestInfoJson {
    TestInfoJson {
        full_name: full_name.to_string(),
        time: AllureTimeJson { start, duration: 100 },
        description: None,
        status: AllureTestStatus::Passed,
        retries_count: retries.len() as u32,
        labels,
        extra: AllureJsonExtra { retries },
    }
}

fn retry(uid: &str, start: i64, duration: u64, status: AllureTestStatus) -> AllureJsonExtraRetry {
    AllureJsonExtraRetry { uid: uid.to_string(), status, time: AllureTimeJson { start, duration } }
}

fn parse(uid: &str, r: TestInfoJson) -> Result<TestInfo, AllureError<String>> {
    parse_test_info::<String>(&uid.to_string(), r)
}

#[test]
fn last_label_of_a_name_wins() {
    let r = record("a.B#m", 0, vec![label("developer", "alice"), label("developer", "bob")], vec![]);
    let info = parse("t", r).unwrap();
    assert_eq!(info.author, "bob");
}

#[test]
fn missing_labels_take_defaults() {
    let r = record("a.B#m", 0, vec![label("other", "x")], vec![]);
    let info = parse("t", r).unwrap();
    assert_eq!(info.author, "<no_author>");
    assert_eq!(info.team, "<no_team>");
    assert_eq!(info.host, "<no_host>");
}

#[test]
fn team_and_host_come_from_their_labels() {
    let r = record(
        "a.B#m",
        0,
        vec![label("suite", "core"), label("host", "ci-1"), label("suite", "payments"), label("developer", "eve")],
        vec![],
    );
    let info = parse("t", r).unwrap();
    assert_eq!(info.author, "eve");
    assert_eq!(info.team, "payments");
    assert_eq!(info.host, "ci-1");
}

#[test]
fn start_zero_is_the_epoch() {
    let info = parse("t", record("a.B#m", 0, vec![], vec![])).unwrap();
    assert_eq!(info.start_time, Timestamp { millis: 0 });
    assert_eq!(Timestamp::from_millis(0), Some(Timestamp { millis: 0 }));
}

#[test]
fn out_of_range_start_is_a_timestamp_error() {
    match parse("t9", record("a.B#m", i64::MAX, vec![], vec![])) {
        Err(AllureError::Timestamp { uid, start }) => {
            assert_eq!(uid, "t9");
            assert_eq!(start, i64::MAX);
        }
        other => panic!("unexpected {:?}", other),
    }
}

#[test]
fn range_of_instants_matches_chrono() {
    assert_eq!(Timestamp::from_millis(MAX_UTC_MILLIS), Some(Timestamp { millis: MAX_UTC_MILLIS }));
    assert_eq!(Timestamp::from_millis(MIN_UTC_MILLIS), Some(Timestamp { millis: MIN_UTC_MILLIS }));
    assert_eq!(Timestamp::from_millis(MAX_UTC_MILLIS + 1), None);
    assert_eq!(Timestamp::from_millis(MIN_UTC_MILLIS - 1), None);
    assert_eq!(Timestamp::from_millis(1_662_921_288_000), Some(Timestamp { millis: 1_662_921_288_000 }));
}

#[test]
fn out_of_range_retry_start_is_a_timestamp_error() {
    let retries = vec![
        retry("r1", 10, 5, AllureTestStatus::Failed),
        retry("r2", i64::MIN, 5, AllureTestStatus::Failed),
        retry("r3", i64::MAX, 5, AllureTestStatus::Failed),
    ];
    match parse("t2", record("a.B#m", 0, vec![], retries)) {
        Err(AllureError::Timestamp { uid, start }) => {
            assert_eq!(uid, "t2");
            assert_eq!(start, i64::MIN);
        }
        other => panic!("unexpected {:?}", other),
    }
}

#[test]
fn retries_keep_their_order() {
    let retries = vec![
        retry("r1", 1_000, 7, AllureTestStatus::Broken),
        retry("r2", 2_000, 8, AllureTestStatus::Failed),
    ];
    let info = parse("t", record("a.B#m", 3_000, vec![], retries)).unwrap();
    assert_eq!(info.retries.len(), 2);
    assert_eq!(info.retries[0].start_time, Timestamp { millis: 1_000 });
    assert_eq!(info.retries[0].duration_ms, 7);
    assert_eq!(info.retries[0].status, AllureTestStatus::Broken);
    assert_eq!(info.retries[1].start_time, Timestamp { millis: 2_000 });
    assert_eq!(info.retries[1].status, AllureTestStatus::Failed);
    assert_eq!(info.start_time, Timestamp { millis: 3_000 });
    assert_eq!(info.duration_ms, 100);
    assert_eq!(info.retries_count, 2);
}

#[test]
fn status_success_is_passed_only() {
    assert!(AllureTestStatus::Passed.is_success());
    assert!(!AllureTestStatus::Failed.is_success());
    assert!(!AllureTestStatus::Broken.is_success());
    assert!(!AllureTestStatus::Unknown.is_success());
}

#[test]
fn paths_of_report_files() {
    assert_eq!(manifest_path(), "data/packages.json");
    assert_eq!(test_case_path(&"t1".to_string()), "data/test-cases/t1.json");
}

fn ok_info(name: &str) -> Result<TestInfo, AllureError<String>> {
    parse("x", record(name, 0, vec![], vec![]))
}

#[test]
fn fail_fast_keeps_all_on_success() {
    let joined = collect_test_infos(vec![ok_info("a"), ok_info("b"), ok_info("c")]).unwrap();
    let names: Vec<String> = joined.into_iter().map(|t| t.full_name).collect();
    assert_eq!(names, vec!["a".to_string(), "b".to_string(), "c".to_string()]);
    assert!(collect_test_infos::<String>(vec![]).unwrap().is_empty());
}

#[test]
fn fail_fast_returns_the_first_failure() {
    let results = vec![
        ok_info("a"),
        Err(AllureError::Decode { uid: Some("t2".to_string()), message: "bad".to_string() }),
        ok_info("c"),
        Err(AllureError::Source("unreachable".to_string())),
    ];
    match collect_test_infos(results) {
        Err(AllureError::Decode { uid, message }) => {
            assert_eq!(uid, Some("t2".to_string()));
            assert_eq!(message, "bad");
        }
        other => panic!("unexpected {:?}", other),
    }
    match collect_test_infos(vec![ok_info("a"), Err(AllureError::Join("cancelled".to_string()))]) {
        Err(AllureError::Join(m)) => assert_eq!(m, "cancelled"),
        other => panic!("unexpected {:?}", other),
    }
}

#[test]
fn end_to_end_single_test() {
    let manifest = AllureJson {
        uid: "pkg1".to_string(),
        childrens: Some(vec![AllureJson { uid: "t1".to_string(), childrens: None, flaky: Some(false) }]),
        flaky: None,
    };
    let uids = get_test_uids_recursively(&manifest);
    assert_eq!(uids, vec!["t1".to_string()]);
    assert_eq!(test_case_path(&uids[0]), "data/test-cases/t1.json");
    let detail = TestInfoJson {
        full_name: "a.b.Test#m".to_string(),
        time: AllureTimeJson { start: 0, duration: 100 },
        description: None,
        status: AllureTestStatus::Passed,
        retries_count: 0,
        labels: vec![],
        extra: AllureJsonExtra { retries: vec![] },
    };
    let results = vec![parse_test_info::<String>(&uids[0], detail)];
    let infos = collect_test_infos(results).unwrap();
    assert_eq!(infos.len(), 1);
    assert_eq!(infos[0].full_name, "a.b.Test#m");
    assert_eq!(infos[0].status, AllureTestStatus::Passed);
    assert_eq!(infos[0].author, "<no_author>");
    assert!(infos[0].retries.is_empty());
    assert_eq!(infos[0].start_time, Timestamp { millis: 0 });
    assert_eq!(infos[0].duration_ms, 100);
}
