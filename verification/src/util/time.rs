//! Points in time, held as nanoseconds since the Unix epoch.

use vstd::prelude::*;

verus! {

/// The first second that `chrono` can hold as a date and time: midnight on
/// 1 January of the year -262143.
pub const MIN_LEGAL_SECONDS: i64 = -8_334_601_228_800;

/// The last second that `chrono` can hold as a date and time: the end of
/// 31 December of the year 262142.
pub const MAX_LEGAL_SECONDS: i64 = 8_210_266_876_799;

/// The number of nanoseconds in a second.
pub const NANOS_PER_SECOND: i128 = 1_000_000_000;

/// Makes a date and time of a count of seconds with
/// `chrono::DateTime::from_timestamp_secs` and reads the count back with
/// `chrono::DateTime::timestamp`.
///
/// Trusted: `chrono` accepts exactly the seconds of the years -262143 to
/// 262142, and reading back gives the same count.
#[verifier::external_body]
fn legal_seconds(seconds: i64) -> (legal: Option<i64>)
    ensures
        legal == if MIN_LEGAL_SECONDS <= seconds <= MAX_LEGAL_SECONDS {
            Some(seconds)
        } else {
            None
        },
{
    chrono::DateTime::from_timestamp_secs(seconds).map(|moment| moment.timestamp())
}

/// Reads the system clock with `chrono::Utc::now`, as whole seconds since the
/// epoch and the nanoseconds beyond them.
///
/// Trusted: nothing is claimed of the result.
#[verifier::external_body]
fn clock_parts() -> (parts: (i64, u32)) {
    let moment = chrono::Utc::now();
    (moment.timestamp(), moment.timestamp_subsec_nanos())
}

/// A point in time.
#[derive(Debug, Clone, Copy, PartialEq, Eq, Structural)]
pub struct Timestamp {
    /// Nanoseconds since 1 January 1970, 00:00:00 UTC.
    pub nanos: i128,
}

impl Timestamp {
    /// The point `seconds` whole seconds and `subsec_nanos` nanoseconds after
    /// the epoch.
    pub open spec fn at(seconds: int, subsec_nanos: int) -> Timestamp {
        Timestamp { nanos: (seconds * 1_000_000_000 + subsec_nanos) as i128 }
    }

    /// Whether `chrono` can hold the given second as a date and time.
    pub open spec fn is_legal_seconds(seconds: int) -> bool {
        MIN_LEGAL_SECONDS <= seconds <= MAX_LEGAL_SECONDS
    }

    /// The distance between two points in time, in nanoseconds.
    pub open spec fn distance(self, other: Timestamp) -> int {
        if self.nanos >= other.nanos {
            self.nanos - other.nanos
        } else {
            other.nanos - self.nanos
        }
    }

    /// Whether `self` comes before `other`.
    pub open spec fn is_before(self, other: Timestamp) -> bool {
        self.nanos < other.nanos
    }

    /// The point `seconds` whole seconds and `subsec_nanos` nanoseconds after
    /// the epoch.
    pub fn from_parts(seconds: i64, subsec_nanos: u32) -> (moment: Timestamp)
        ensures
            moment == Timestamp::at(seconds as int, subsec_nanos as int),
    {
        let whole: i128 = seconds as i128;
        let beyond: i128 = subsec_nanos as i128;
        Timestamp { nanos: whole * NANOS_PER_SECOND + beyond }
    }

    /// The point `seconds` whole seconds after the epoch.
    pub fn from_seconds(seconds: i64) -> (moment: Timestamp)
        ensures
            moment == Timestamp::at(seconds as int, 0),
    {
        Timestamp::from_parts(seconds, 0)
    }

    /// The point at a second that `chrono` can hold as a date and time;
    /// `None` for any other second.
    pub fn from_legal_seconds(seconds: i64) -> (moment: Option<Timestamp>)
        ensures
            moment == if Timestamp::is_legal_seconds(seconds as int) {
                Some(Timestamp::at(seconds as int, 0))
            } else {
                None
            },
    {
        match legal_seconds(seconds) {
            Some(legal) => Some(Timestamp::from_seconds(legal)),
            None => None,
        }
    }

    /// The time that the system clock shows: the whole seconds since the
    /// epoch and the nanoseconds beyond them that the clock gives, as one
    /// point in time. Which seconds and nanoseconds these are is the
    /// clock's affair.
    pub fn now() -> (moment: Timestamp)
        ensures
            exists|seconds: i64, subsec_nanos: u32| #[trigger]
                Timestamp::at(seconds as int, subsec_nanos as int) == moment,
    {
        let parts = clock_parts();
        Timestamp::from_parts(parts.0, parts.1)
    }

    /// Whether two points in time are more than `limit` nanoseconds apart.
    pub fn is_farther_than(&self, other: &Timestamp, limit: u64) -> (farther: bool)
        ensures
            farther == (self.distance(*other) > limit),
    {
        let bound: i128 = limit as i128;
        let (early, late): (i128, i128) = if self.nanos >= other.nanos {
            (other.nanos, self.nanos)
        } else {
            (self.nanos, other.nanos)
        };
        if early < 0 && late >= 0 {
            // The difference may not fit: compare without forming it.
            late > bound + early
        } else {
            late - early > bound
        }
    }

    /// Whether `self` comes before `other`.
    pub fn precedes(&self, other: &Timestamp) -> (before: bool)
        ensures
            before == self.is_before(*other),
    {
        self.nanos < other.nanos
    }
}

} // verus!
