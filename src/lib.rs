//! Reading of Allure test-run reports into typed, enriched per-test records.
//!
//! The library holds the report's data model, the discovery of test cases in the
//! report tree, the enrichment of each detail record (labels, timestamps, retries),
//! the fail-fast assembly of the whole run, the summaries built from it, and the
//! scan of test sources for ignored tests. Fetching and decoding bytes, and running
//! `git`, are left to the caller.

pub mod discovery;
pub mod error;
pub mod ignored;
pub mod models;
pub mod pattern;
pub mod pipeline;
pub mod provider;
pub mod report;
pub mod status;
pub mod summary;
pub mod time;

pub use crate::discovery::{get_test_uids_recursively, lemma_discovery_empty, lemma_discovery_exact};
pub use crate::error::AllureError;
pub use crate::ignored::{
    author_time_of_captures, is_kotlin_source, is_stale, parse_decimal, scan_captures, IgnoreInfo, IgnoreScan, IgnoreScanner, DEVELOPER_ANNOTATION, GIT_AUTHOR_TIME, IGNORE_ANNOTATION,
    MILLIS_PER_DAY, STALE_AFTER_DAYS, TEST_MODULE_ANNOTATION,
};
pub use crate::models::{
    AllureJson, AllureJsonExtra, AllureJsonExtraRetry, AllureLabelJson, AllureTimeJson, TestInfoJson,
};
pub use crate::pipeline::{collect_test_infos, lemma_fail_fast, manifest_path, test_case_path};
pub use crate::provider::{AllureFileSource, AllureNetworkSource};
pub use crate::report::{parse_test_info, RetryInfo, TestInfo};
pub use crate::status::AllureTestStatus;
pub use crate::summary::{make_aggregated_test_report, IDAggregatedTestReport, IDTestReport};
pub use crate::time::{Timestamp, MAX_UTC_MILLIS, MIN_UTC_MILLIS};
