use allure_report::{
    make_aggregated_test_report, AllureFileSource, AllureNetworkSource, AllureTestStatus, IDTestReport,
    RetryInfo, TestInfo, Timestamp,
};

fn info(name: &str, start: i64, status: AllureTestStatus, retries: Vec<AllureTestStatus>) -> TestInfo {
    TestInfo {
        full_name: name.to_string(),
        start_time: Timestamp { millis: start },
        duration_ms: 250,
        description: Some("d".to_string()),
        status,
        retries_count: retries.len() as u32,
        author: "alice".to_string(),
        team: "core".to_string(),
        host: "ci-1".to_string(),
        retries: retries
            .into_iter()
            .map(|s| RetryInfo { start_time: Timestamp { millis: start }, duration_ms: 1, status: s })
            .collect(),
    }
}

#[test]
fn aggregated_report_counts_tests_and_tries() {
    let tests = vec![
        info("a", 1_000, AllureTestStatus::Passed, vec![AllureTestStatus::Failed, AllureTestStatus::Failed]),
        info("b", 2_000, AllureTestStatus::Failed, vec![AllureTestStatus::Broken]),
        info("c", 3_000, AllureTestStatus::Broken, vec![]),
        info("d", 4_000, AllureTestStatus::Unknown, vec![AllureTestStatus::Passed]),
        info("e", 5_000, AllureTestStatus::Passed, vec![]),
    ];
    let r = make_aggregated_test_report(&tests, "master");
    assert_eq!(r.time, Timestamp { millis: 1_000 });
    assert_eq!((r.passed_tests, r.failed_tests, r.broken_tests, r.unknown_tests), (2, 1, 1, 1));
    assert_eq!((r.passed_tries, r.failed_tries, r.broken_tries, r.unknown_tries), (3, 3, 2, 1));
    assert_eq!(r.is_success, 0);
    assert_eq!(r.branch, "master");
}

#[test]
fn aggregated_report_of_green_run_is_success() {
    let tests = vec![
        info("a", 7, AllureTestStatus::Passed, vec![AllureTestStatus::Failed]),
        info("b", 9, AllureTestStatus::Passed, vec![]),
    ];
    let r = make_aggregated_test_report(&tests, "dev");
    assert_eq!(r.is_success, 1);
    assert_eq!(r.passed_tests, 2);
    assert_eq!(r.passed_tries, 2);
    assert_eq!(r.failed_tries, 1);
    assert_eq!(r.time, Timestamp { millis: 7 });
}

#[test]
fn per_test_report_fields() {
    let t = info("pkg.Class#method", 10, AllureTestStatus::Passed, vec![AllureTestStatus::Failed]);
    let r = IDTestReport::from(&t, Timestamp { millis: 99 }, "main");
    assert_eq!(r.time, Timestamp { millis: 99 });
    assert_eq!(r.is_success, 1);
    assert_eq!(r.total_tries, 2);
    assert_eq!(r.duration, 250);
    assert_eq!(r.name, "pkg.Class#method");
    assert_eq!(r.branch, "main");
    assert_eq!((r.author.as_str(), r.team.as_str(), r.host.as_str()), ("alice", "core", "ci-1"));
    let failed = info("x", 10, AllureTestStatus::Broken, vec![]);
    let r = IDTestReport::from(&failed, Timestamp { millis: 1 }, "main");
    assert_eq!(r.is_success, 0);
    assert_eq!(r.total_tries, 1);
}

#[test]
fn sources_locate_files() {
    let net = AllureNetworkSource::new("http://reports.local/run/42");
    assert_eq!(net.base_url(), "http://reports.local/run/42");
    assert_eq!(net.file_url("data/packages.json"), "http://reports.local/run/42/data/packages.json");
    let fs = AllureFileSource::new("./allure-reports");
    assert_eq!(fs.root_path(), "./allure-reports");
}
