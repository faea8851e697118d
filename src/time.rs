use vstd::prelude::*;

verus! {

/// The earliest instant that chrono's `DateTime<Utc>` holds, -262143-01-01T00:00:00Z,
/// in milliseconds since the Unix epoch.
pub const MIN_UTC_MILLIS: i64 = -8334601228800000;

/// The latest instant that chrono's `DateTime<Utc>` holds, 262142-12-31T23:59:59.999Z,
/// in milliseconds since the Unix epoch.
pub const MAX_UTC_MILLIS: i64 = 8210266876799999;

/// Whether `millis`, counted from the Unix epoch, names an instant that a
/// `DateTime<Utc>` can hold.
pub open spec fn representable_millis(millis: int) -> bool {
    MIN_UTC_MILLIS <= millis <= MAX_UTC_MILLIS
}

/// Relies on chrono's `DateTime::<Utc>::from_timestamp_millis`: `None` exactly outside
/// the range of `DateTime<Utc>`, and otherwise an instant whose `timestamp_millis`
/// gives the argument back.
#[verifier::external_body]
fn utc_from_millis(millis: i64) -> (r: Option<i64>)
    ensures
        r == (if representable_millis(millis as int) { Some(millis) } else { None::<i64> }),
{
    match chrono::DateTime::<chrono::Utc>::from_timestamp_millis(millis) {
        Some(t) => Some(t.timestamp_millis()),
        None => None,
    }
}

/// An instant in UTC, as milliseconds since the Unix epoch.
#[derive(Clone, Copy, Debug, PartialEq, Eq, Structural)]
pub struct Timestamp {
    pub millis: i64,
}

impl Timestamp {
    /// The instant lies in the range of `DateTime<Utc>`.
    pub open spec fn wf(self) -> bool {
        representable_millis(self.millis as int)
    }

    /// The instant `secs` seconds after the Unix epoch, if a `DateTime<Utc>` can hold it.
    pub fn from_seconds(secs: i64) -> (r: Option<Timestamp>)
        ensures
            r == (if representable_millis(secs * 1000) {
                Some(Timestamp { millis: (secs * 1000) as i64 })
            } else {
                None::<Timestamp>
            }),
            r matches Some(t) ==> t.wf(),
    {
        if secs < MIN_UTC_MILLIS / 1000 || secs > MAX_UTC_MILLIS / 1000 {
            None
        } else {
            Timestamp::from_millis(secs * 1000)
        }
    }

    /// The instant `millis` milliseconds after the Unix epoch, if a `DateTime<Utc>`
    /// can hold it.
    pub fn from_millis(millis: i64) -> (r: Option<Timestamp>)
        ensures
            r == (if representable_millis(millis as int) {
                Some(Timestamp { millis })
            } else {
                None::<Timestamp>
            }),
            r matches Some(t) ==> t.wf(),
    {
        match utc_from_millis(millis) {
            Some(m) => Some(Timestamp { millis: m }),
            None => None,
        }
    }
}

} // verus!
