use vstd::prelude::*;

use crate::status::AllureTestStatus;

verus! {

/// One node of the report tree (`data/packages.json`): a package or a test.
///
/// A node that carries the `flaky` field is a test; the field's value has no
/// further meaning here.
#[derive(Debug)]
pub struct AllureJson {
    pub uid: String,
    /// The `children` field.
    pub childrens: Option<Vec<AllureJson>>,
    pub flaky: Option<bool>,
}

/// The detail record of one test (`data/test-cases/<uid>.json`).
#[derive(Debug)]
pub struct TestInfoJson {
    pub full_name: String,
    pub time: AllureTimeJson,
    pub description: Option<String>,
    pub status: AllureTestStatus,
    pub retries_count: u32,
    pub labels: Vec<AllureLabelJson>,
    pub extra: AllureJsonExtra,
}

/// A time window: start in milliseconds since the Unix epoch, duration in milliseconds.
#[derive(Clone, Copy, Debug, PartialEq, Eq, Structural)]
pub struct AllureTimeJson {
    pub start: i64,
    pub duration: u64,
}

/// A `(name, value)` label of a test.
#[derive(Debug)]
pub struct AllureLabelJson {
    pub name: String,
    pub value: String,
}

/// The `extra` block of a detail record.
#[derive(Debug)]
pub struct AllureJsonExtra {
    pub retries: Vec<AllureJsonExtraRetry>,
}

/// One earlier execution of a test.
#[derive(Debug)]
pub struct AllureJsonExtraRetry {
    pub uid: String,
    pub status: AllureTestStatus,
    pub time: AllureTimeJson,
}

impl AllureJson {
    /// The children of the node, none where the field is absent.
    pub open spec fn children(self) -> Seq<AllureJson> {
        match self.childrens {
            Some(c) => c@,
            None => Seq::empty(),
        }
    }

    /// Whether the node is a test rather than a package.
    pub open spec fn is_test(self) -> bool {
        self.flaky is Some
    }
}

} // verus!
