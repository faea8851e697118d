use vstd::prelude::*;
use vstd::string::*;

use crate::error::AllureError;
use crate::models::{AllureJsonExtraRetry, AllureLabelJson, AllureTimeJson, TestInfoJson};
use crate::status::AllureTestStatus;
use crate::time::{representable_millis, Timestamp};

verus! {

/// One earlier execution of a test, with its start time checked.
#[derive(Clone, Copy, Debug, PartialEq, Eq, Structural)]
pub struct RetryInfo {
    pub start_time: Timestamp,
    /// In milliseconds.
    pub duration_ms: u64,
    pub status: AllureTestStatus,
}

/// A test of the run, with the attributes drawn from its labels.
#[derive(Debug)]
pub struct TestInfo {
    /// Full name of the test: package, class and method.
    pub full_name: String,
    /// When the test started.
    pub start_time: Timestamp,
    /// How long the test ran, in milliseconds.
    pub duration_ms: u64,
    /// Description of the test.
    pub description: Option<String>,
    /// Status of the test after its last execution.
    pub status: AllureTestStatus,
    /// How many times the test was run again after the first run.
    pub retries_count: u32,
    /// The author's nickname (label `developer`).
    pub author: String,
    /// The team that owns the test (label `suite`).
    pub team: String,
    /// The host that ran the test (label `host`).
    pub host: String,
    /// The earlier executions, in the order that the report gives.
    pub retries: Vec<RetryInfo>,
}

/// The label key of the author.
pub open spec fn author_key() -> Seq<char> {
    seq!['d', 'e', 'v', 'e', 'l', 'o', 'p', 'e', 'r']
}

/// The label key of the team.
pub open spec fn team_key() -> Seq<char> {
    seq!['s', 'u', 'i', 't', 'e']
}

/// The label key of the host.
pub open spec fn host_key() -> Seq<char> {
    seq!['h', 'o', 's', 't']
}

/// The author of a test without a `developer` label.
pub open spec fn no_author() -> Seq<char> {
    seq!['<', 'n', 'o', '_', 'a', 'u', 't', 'h', 'o', 'r', '>']
}

/// The team of a test without a `suite` label.
pub open spec fn no_team() -> Seq<char> {
    seq!['<', 'n', 'o', '_', 't', 'e', 'a', 'm', '>']
}

/// The host of a test without a `host` label.
pub open spec fn no_host() -> Seq<char> {
    seq!['<', 'n', 'o', '_', 'h', 'o', 's', 't', '>']
}

/// The value of the last label named `key`, if any: a later label overrides an
/// earlier one of the same name.
pub open spec fn label_value(labels: Seq<AllureLabelJson>, key: Seq<char>) -> Option<Seq<char>>
    decreases labels.len(),
{
    if labels.len() == 0 {
        None
    } else if labels.last().name@ == key {
        Some(labels.last().value@)
    } else {
        label_value(labels.drop_last(), key)
    }
}

/// The value of label `key`, or `default` where there is none.
pub open spec fn label_or(labels: Seq<AllureLabelJson>, key: Seq<char>, default: Seq<char>) -> Seq<char> {
    match label_value(labels, key) {
        Some(v) => v,
        None => default,
    }
}

/// The retry that `retry` resolves to, where its start time is valid.
pub open spec fn retry_info_of(retry: AllureJsonExtraRetry) -> RetryInfo {
    RetryInfo {
        start_time: Timestamp { millis: retry.time.start },
        duration_ms: retry.time.duration,
        status: retry.status,
    }
}

/// The first `n` retries resolved in order, or the start time of the first of them
/// that lies out of range.
pub open spec fn resolve_retries(retries: Seq<AllureJsonExtraRetry>, n: nat) -> Result<Seq<RetryInfo>, i64>
    decreases n,
{
    if n == 0 || n > retries.len() {
        Ok(Seq::empty())
    } else {
        match resolve_retries(retries, (n - 1) as nat) {
            Err(start) => Err(start),
            Ok(done) => {
                let start = retries[n - 1].time.start;
                if representable_millis(start as int) {
                    Ok(done.push(retry_info_of(retries[n - 1])))
                } else {
                    Err(start)
                }
            },
        }
    }
}

/// The start time that makes `record` unusable: its own where out of range, else that
/// of its first retry out of range; `None` where every start time is valid.
pub open spec fn bad_start(record: TestInfoJson) -> Option<i64> {
    if !representable_millis(record.time.start as int) {
        Some(record.time.start)
    } else {
        match resolve_retries(record.extra.retries@, record.extra.retries@.len()) {
            Err(start) => Some(start),
            Ok(_) => None,
        }
    }
}

/// `info` is `record` resolved: its fields carried over, the start time checked, the
/// author, team and host taken from the labels, and the retries resolved in order.
pub open spec fn resolves_to(info: TestInfo, record: TestInfoJson) -> bool {
    &&& info.full_name@ == record.full_name@
    &&& info.start_time == Timestamp { millis: record.time.start }
    &&& info.duration_ms == record.time.duration
    &&& info.description == record.description
    &&& info.status == record.status
    &&& info.retries_count == record.retries_count
    &&& info.author@ == label_or(record.labels@, author_key(), no_author())
    &&& info.team@ == label_or(record.labels@, team_key(), no_team())
    &&& info.host@ == label_or(record.labels@, host_key(), no_host())
    &&& resolve_retries(record.extra.retries@, record.extra.retries@.len()) == Ok::<Seq<RetryInfo>, i64>(info.retries@)
}

/// The value of the last label named `key`, if any.
fn find_label(labels: &Vec<AllureLabelJson>, key: &String) -> (r: Option<String>)
    ensures
        r matches Some(v) ==> label_value(labels@, key@) == Some(v@),
        r is None ==> label_value(labels@, key@) is None,
{
    let mut i = labels.len();
    assert(labels@.take(i as int) =~= labels@);
    while i > 0
        invariant
            i <= labels@.len(),
            label_value(labels@, key@) == label_value(labels@.take(i as int), key@),
        decreases i,
    {
        assert(labels@.take(i as int).drop_last() == labels@.take(i - 1));
        if labels[i - 1].name == *key {
            return Some(labels[i - 1].value.clone());
        }
        i = i - 1;
    }
    None
}

/// The value of the last label named `key`, or `default` where there is none.
fn label_or_default(labels: &Vec<AllureLabelJson>, key: &str, default: &str) -> (r: String)
    ensures
        r@ == label_or(labels@, key@, default@),
{
    let key = String::from_str(key);
    match find_label(labels, &key) {
        Some(v) => v,
        None => String::from_str(default),
    }
}

/// Resolves the retries in order, or gives the start time of the first one out of range.
fn resolve_retry_list(retries: &Vec<AllureJsonExtraRetry>) -> (r: Result<Vec<RetryInfo>, i64>)
    ensures
        match r {
            Ok(v) => resolve_retries(retries@, retries@.len()) == Ok::<Seq<RetryInfo>, i64>(v@),
            Err(start) => resolve_retries(retries@, retries@.len()) == Err::<Seq<RetryInfo>, i64>(start),
        },
{
    let mut done: Vec<RetryInfo> = Vec::new();
    let n = retries.len();
    for i in 0..n
        invariant
            n == retries@.len(),
            resolve_retries(retries@, i as nat) == Ok::<Seq<RetryInfo>, i64>(done@),
    {
        let retry = &retries[i];
        match Timestamp::from_millis(retry.time.start) {
            Some(start_time) => {
                done.push(RetryInfo { start_time, duration_ms: retry.time.duration, status: retry.status });
            },
            None => {
                proof {
                    lemma_resolve_retries_stops(retries@, (i + 1) as nat, retries@.len());
                }
                return Err(retry.time.start);
            },
        }
    }
    Ok(done)
}

/// Once the first `n` retries fail to resolve, so do all longer prefixes, with the
/// same start time.
proof fn lemma_resolve_retries_stops(retries: Seq<AllureJsonExtraRetry>, n: nat, m: nat)
    requires
        n <= m <= retries.len(),
        resolve_retries(retries, n) is Err,
    ensures
        resolve_retries(retries, m) == resolve_retries(retries, n),
    decreases m - n,
{
    if m > n {
        lemma_resolve_retries_stops(retries, n, (m - 1) as nat);
    }
}

/// Resolves the detail record of the test `uid`: checks its start times, takes author,
/// team and host from its labels (the last label of a name wins, with a default where
/// there is none) and resolves its retries in order.
///
/// Fails with `AllureError::Timestamp` exactly where a start time lies outside the
/// range of instants, naming the first such value (the test's own, then its retries'
/// in order).
pub fn parse_test_info<E>(uid: &String, record: TestInfoJson) -> (r: Result<TestInfo, AllureError<E>>)
    ensures
        bad_start(record) is None ==> (r matches Ok(info) && resolves_to(info, record)),
        bad_start(record) matches Some(b) ==> (r matches Err(AllureError::Timestamp { uid: u, start })
            && u@ == uid@ && start == b),
{
    let start_time = match Timestamp::from_millis(record.time.start) {
        Some(t) => t,
        None => {
            return Err(AllureError::Timestamp { uid: uid.clone(), start: record.time.start });
        },
    };
    let retries = match resolve_retry_list(&record.extra.retries) {
        Ok(v) => v,
        Err(start) => {
            return Err(AllureError::Timestamp { uid: uid.clone(), start });
        },
    };
    let author = label_or_default(&record.labels, "developer", "<no_author>");
    let team = label_or_default(&record.labels, "suite", "<no_team>");
    let host = label_or_default(&record.labels, "host", "<no_host>");
    proof {
        reveal_strlit("developer");
        reveal_strlit("<no_author>");
        reveal_strlit("suite");
        reveal_strlit("<no_team>");
        reveal_strlit("host");
        reveal_strlit("<no_host>");
        assert("developer"@ =~= author_key());
        assert("<no_author>"@ =~= no_author());
        assert("suite"@ =~= team_key());
        assert("<no_team>"@ =~= no_team());
        assert("host"@ =~= host_key());
        assert("<no_host>"@ =~= no_host());
    }
    let TestInfoJson { full_name, time, description, status, retries_count, labels: _, extra: _ } = record;
    Ok(TestInfo {
        full_name,
        start_time,
        duration_ms: time.duration,
        description,
        status,
        retries_count,
        author,
        team,
        host,
        retries,
    })
}

} // verus!
