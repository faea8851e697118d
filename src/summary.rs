use vstd::prelude::*;
use vstd::string::*;

use crate::report::{RetryInfo, TestInfo};
use crate::status::AllureTestStatus;
use crate::time::Timestamp;

verus! {

/// How many of `tests` ended with status `s`.
pub open spec fn count_tests(tests: Seq<TestInfo>, s: AllureTestStatus) -> nat
    decreases tests.len(),
{
    if tests.len() == 0 {
        0
    } else {
        count_tests(tests.drop_last(), s) + if tests.last().status == s { 1nat } else { 0nat }
    }
}

/// How many of `retries` ended with status `s`.
pub open spec fn count_retries(retries: Seq<RetryInfo>, s: AllureTestStatus) -> nat
    decreases retries.len(),
{
    if retries.len() == 0 {
        0
    } else {
        count_retries(retries.drop_last(), s) + if retries.last().status == s { 1nat } else { 0nat }
    }
}

/// How many retries of all of `tests` ended with status `s`.
pub open spec fn count_retries_of(tests: Seq<TestInfo>, s: AllureTestStatus) -> nat
    decreases tests.len(),
{
    if tests.len() == 0 {
        0
    } else {
        count_retries_of(tests.drop_last(), s) + count_retries(tests.last().retries@, s)
    }
}

/// How many executions of `tests` ended with status `s`: the last one of each test and
/// each of its retries.
pub open spec fn count_tries(tests: Seq<TestInfo>, s: AllureTestStatus) -> nat {
    count_tests(tests, s) + count_retries_of(tests, s)
}

/// The number of retries of all of `tests`.
pub open spec fn total_retries(tests: Seq<TestInfo>) -> nat
    decreases tests.len(),
{
    if tests.len() == 0 {
        0
    } else {
        total_retries(tests.drop_last()) + tests.last().retries@.len()
    }
}

/// Every one of `tests` passed.
pub open spec fn all_passed(tests: Seq<TestInfo>) -> bool {
    forall|i: int| 0 <= i < tests.len() ==> (#[trigger] tests[i]).status == AllureTestStatus::Passed
}

/// Counts of executions by status.
#[derive(Clone, Copy, Debug, PartialEq, Eq, Structural)]
struct Tally {
    passed: u32,
    failed: u32,
    broken: u32,
    unknown: u32,
}

impl Tally {
    spec fn get(self, s: AllureTestStatus) -> nat {
        match s {
            AllureTestStatus::Passed => self.passed as nat,
            AllureTestStatus::Failed => self.failed as nat,
            AllureTestStatus::Broken => self.broken as nat,
            AllureTestStatus::Unknown => self.unknown as nat,
        }
    }

    fn zero() -> (r: Tally)
        ensures
            forall|s: AllureTestStatus| r.get(s) == 0,
    {
        Tally { passed: 0, failed: 0, broken: 0, unknown: 0 }
    }

    fn bump(&mut self, s: AllureTestStatus)
        requires
            old(self).get(s) < u32::MAX,
        ensures
            forall|t: AllureTestStatus|
                final(self).get(t) == old(self).get(t) + if t == s { 1nat } else { 0nat },
    {
        match s {
            AllureTestStatus::Passed => self.passed = self.passed + 1,
            AllureTestStatus::Failed => self.failed = self.failed + 1,
            AllureTestStatus::Broken => self.broken = self.broken + 1,
            AllureTestStatus::Unknown => self.unknown = self.unknown + 1,
        }
    }
}

proof fn lemma_count_retries_le(retries: Seq<RetryInfo>, s: AllureTestStatus)
    ensures
        count_retries(retries, s) <= retries.len(),
    decreases retries.len(),
{
    if retries.len() > 0 {
        lemma_count_retries_le(retries.drop_last(), s);
    }
}

proof fn lemma_count_tries_le(tests: Seq<TestInfo>, s: AllureTestStatus)
    ensures
        count_tries(tests, s) <= tests.len() + total_retries(tests),
    decreases tests.len(),
{
    if tests.len() > 0 {
        lemma_count_tries_le(tests.drop_last(), s);
        lemma_count_retries_le(tests.last().retries@, s);
    }
}

proof fn lemma_total_retries_prefix(tests: Seq<TestInfo>, i: int)
    requires
        0 <= i <= tests.len(),
    ensures
        i + total_retries(tests.take(i)) <= tests.len() + total_retries(tests),
    decreases tests.len() - i,
{
    if i < tests.len() {
        lemma_total_retries_prefix(tests, i + 1);
        assert(tests.take(i + 1).drop_last() =~= tests.take(i));
    } else {
        assert(tests.take(i) =~= tests);
    }
}

/// Summary of a whole run.
#[derive(Debug)]
pub struct IDAggregatedTestReport {
    /// Time of the run.
    pub time: Timestamp,
    pub passed_tests: u32,
    pub failed_tests: u32,
    pub broken_tests: u32,
    pub unknown_tests: u32,
    pub passed_tries: u32,
    pub failed_tries: u32,
    pub broken_tries: u32,
    pub unknown_tries: u32,
    /// 1 where every test passed, else 0.
    pub is_success: u32,
    /// Branch that the tests ran on.
    pub branch: String,
}

/// Summary of one test of a run.
#[derive(Debug)]
pub struct IDTestReport {
    /// Time of the whole run, not of this test.
    pub time: Timestamp,
    /// 1 where the test passed in the end, else 0.
    pub is_success: u32,
    /// Number of executions of the test, at least one.
    pub total_tries: u32,
    /// Duration of the last execution, in milliseconds.
    pub duration: u64,
    /// Full name of the test.
    pub name: String,
    /// Branch that the tests ran on.
    pub branch: String,
    /// The author's nickname.
    pub author: String,
    /// The team that owns the test.
    pub team: String,
    /// The host that ran the test.
    pub host: String,
}

impl IDTestReport {
    /// Summarises `test_report` for the run at `time` on `branch`.
    pub fn from(test_report: &TestInfo, time: Timestamp, branch: &str) -> (r: Self)
        requires
            test_report.retries_count < u32::MAX,
        ensures
            r.time == time,
            r.is_success == if test_report.status == AllureTestStatus::Passed { 1u32 } else { 0u32 },
            r.total_tries == test_report.retries_count + 1,
            r.duration == test_report.duration_ms,
            r.name@ == test_report.full_name@,
            r.branch@ == branch@,
            r.author@ == test_report.author@,
            r.team@ == test_report.team@,
            r.host@ == test_report.host@,
    {
        IDTestReport {
            time,
            is_success: if test_report.status.is_success() { 1 } else { 0 },
            total_tries: test_report.retries_count + 1,
            duration: test_report.duration_ms,
            name: test_report.full_name.clone(),
            branch: String::from_str(branch),
            author: test_report.author.clone(),
            team: test_report.team.clone(),
            host: test_report.host.clone(),
        }
    }
}

/// Summarises a run: the time of its first test, the number of tests and of
/// executions (tests and their retries) by status, whether every test passed, and the
/// branch.
pub fn make_aggregated_test_report(tests: &Vec<TestInfo>, branch: &str) -> (r: IDAggregatedTestReport)
    requires
        tests@.len() > 0,
        tests@.len() + total_retries(tests@) <= u32::MAX,
    ensures
        r.time == tests@[0].start_time,
        r.passed_tests == count_tests(tests@, AllureTestStatus::Passed),
        r.failed_tests == count_tests(tests@, AllureTestStatus::Failed),
        r.broken_tests == count_tests(tests@, AllureTestStatus::Broken),
        r.unknown_tests == count_tests(tests@, AllureTestStatus::Unknown),
        r.passed_tries == count_tries(tests@, AllureTestStatus::Passed),
        r.failed_tries == count_tries(tests@, AllureTestStatus::Failed),
        r.broken_tries == count_tries(tests@, AllureTestStatus::Broken),
        r.unknown_tries == count_tries(tests@, AllureTestStatus::Unknown),
        r.is_success == if all_passed(tests@) { 1u32 } else { 0u32 },
        r.branch@ == branch@,
{
    let mut finished = Tally::zero();
    let mut tries = Tally::zero();
    let mut is_success: u32 = 1;
    let n = tests.len();
    assert(tests@.take(0) =~= Seq::<TestInfo>::empty());
    for i in 0..n
        invariant
            n == tests@.len(),
            tests@.len() + total_retries(tests@) <= u32::MAX,
            forall|s: AllureTestStatus| #[trigger] finished.get(s) == count_tests(tests@.take(i as int), s),
            forall|s: AllureTestStatus| #[trigger] tries.get(s) == count_tries(tests@.take(i as int), s),
            is_success == if all_passed(tests@.take(i as int)) { 1u32 } else { 0u32 },
    {
        let test = &tests[i];
        let ghost before = tests@.take(i as int);
        let ghost after = tests@.take(i + 1);
        assert(after.drop_last() =~= before);
        assert(after.last() == *test);
        proof {
            lemma_total_retries_prefix(tests@, i + 1);
            lemma_count_tries_le(before, test.status);
            lemma_count_tests_le(before, test.status);
        }
        finished.bump(test.status);
        tries.bump(test.status);
        if !test.status.is_success() {
            is_success = 0;
        }
        assert(all_passed(after) == (all_passed(before) && test.status == AllureTestStatus::Passed)) by {
            if all_passed(after) {
                assert forall|k: int| 0 <= k < before.len() implies (#[trigger] before[k]).status
                    == AllureTestStatus::Passed by {
                    assert(before[k] == after[k]);
                }
                assert(after[i as int] == *test);
            }
            if all_passed(before) && test.status == AllureTestStatus::Passed {
                assert forall|k: int| 0 <= k < after.len() implies (#[trigger] after[k]).status
                    == AllureTestStatus::Passed by {
                    if k < i {
                        assert(before[k] == after[k]);
                    }
                }
            }
        }
        let m = test.retries.len();
        assert(test.retries@.take(0) =~= Seq::<RetryInfo>::empty());
        for j in 0..m
            invariant
                m == test.retries@.len(),
                n == tests@.len(),
                i < n,
                *test == tests@[i as int],
                after == tests@.take(i + 1),
                before == tests@.take(i as int),
                after.drop_last() == before,
                after.last() == *test,
                i + 1 + total_retries(after) <= u32::MAX,
                forall|s: AllureTestStatus| #[trigger] tries.get(s) == count_tests(after, s)
                    + count_retries_of(before, s) + count_retries(test.retries@.take(j as int), s),
        {
            let retry = &test.retries[j];
            let ghost seen = test.retries@.take(j as int);
            let ghost seen_next = test.retries@.take(j + 1);
            assert(seen_next.drop_last() =~= seen);
            assert(seen_next.last() == *retry);
            proof {
                lemma_count_tries_le(after, retry.status);
                lemma_count_retries_le(seen, retry.status);
                lemma_count_retries_le(test.retries@, retry.status);
                lemma_count_retries_prefix(test.retries@, j as int, retry.status);
                assert(count_tries(after, retry.status) == count_tests(after, retry.status)
                    + count_retries_of(before, retry.status) + count_retries(test.retries@, retry.status));
            }
            tries.bump(retry.status);
        }
        assert(test.retries@.take(m as int) =~= test.retries@);
    }
    assert(tests@.take(n as int) =~= tests@);
    assert(finished.get(AllureTestStatus::Passed) == count_tests(tests@, AllureTestStatus::Passed));
    assert(finished.get(AllureTestStatus::Failed) == count_tests(tests@, AllureTestStatus::Failed));
    assert(finished.get(AllureTestStatus::Broken) == count_tests(tests@, AllureTestStatus::Broken));
    assert(finished.get(AllureTestStatus::Unknown) == count_tests(tests@, AllureTestStatus::Unknown));
    assert(tries.get(AllureTestStatus::Passed) == count_tries(tests@, AllureTestStatus::Passed));
    assert(tries.get(AllureTestStatus::Failed) == count_tries(tests@, AllureTestStatus::Failed));
    assert(tries.get(AllureTestStatus::Broken) == count_tries(tests@, AllureTestStatus::Broken));
    assert(tries.get(AllureTestStatus::Unknown) == count_tries(tests@, AllureTestStatus::Unknown));
    IDAggregatedTestReport {
        time: tests[0].start_time,
        passed_tests: finished.passed,
        failed_tests: finished.failed,
        broken_tests: finished.broken,
        unknown_tests: finished.unknown,
        passed_tries: tries.passed,
        failed_tries: tries.failed,
        broken_tries: tries.broken,
        unknown_tries: tries.unknown,
        is_success,
        branch: String::from_str(branch),
    }
}

proof fn lemma_count_tests_le(tests: Seq<TestInfo>, s: AllureTestStatus)
    ensures
        count_tests(tests, s) <= tests.len(),
    decreases tests.len(),
{
    if tests.len() > 0 {
        lemma_count_tests_le(tests.drop_last(), s);
    }
}

proof fn lemma_count_retries_prefix(retries: Seq<RetryInfo>, j: int, s: AllureTestStatus)
    requires
        0 <= j < retries.len(),
    ensures
        count_retries(retries.take(j), s) + (if retries[j].status == s { 1nat } else { 0nat })
            <= count_retries(retries, s),
    decreases retries.len() - j,
{
    assert(retries.take(j + 1).drop_last() =~= retries.take(j));
    if j + 1 < retries.len() {
        lemma_count_retries_prefix(retries, j + 1, s);
    } else {
        assert(retries.take(j + 1) =~= retries);
    }
}

} // verus!
