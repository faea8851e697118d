use vstd::prelude::*;

verus! {

/// Why reading a report failed. Each of them ends the whole read.
///
/// `E` is the error type of the content source that the report was fetched from.
#[derive(Debug)]
#[allow(inconsistent_fields)]
pub enum AllureError<E> {
    /// The content source could not deliver a file.
    Source(E),
    /// A file is not the JSON structure expected of it; `uid` names the test whose
    /// detail record it is, `None` for the report tree.
    Decode { uid: Option<String>, message: String },
    /// A start time lies outside the range of instants; `start` is the offending value
    /// in milliseconds since the Unix epoch.
    Timestamp { uid: String, start: i64 },
    /// A concurrent task that read one test could not be run to its end.
    Join(String),
}

} // verus!
