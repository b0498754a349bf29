//! UTC timestamps: seconds since the Unix epoch plus a sub-second part.

use vstd::prelude::*;

verus! {

/// The earliest Unix second that a UTC date-time can hold (January 1 of year -262143).
pub const MIN_UNIX_SECS: i64 = -8_334_601_228_800i64;

/// The latest Unix second that a UTC date-time can hold (December 31 of year 262142).
pub const MAX_UNIX_SECS: i64 = 8_210_266_876_799i64;

/// One second in nanoseconds.
pub const NANOS_PER_SEC: u32 = 1_000_000_000u32;

/// A point in time in UTC, as whole seconds since 1970-01-01T00:00:00Z and
/// the nanoseconds within that second.
#[derive(Clone, Copy, Debug, PartialEq, Eq, Structural)]
pub struct Timestamp {
    /// Whole seconds since the Unix epoch (negative before 1970).
    pub secs: i64,
    /// Nanoseconds within the second.
    pub nanos: u32,
}

impl Timestamp {
    /// A timestamp is well formed when it names a representable UTC date-time
    /// that is not inside a leap second.
    pub open spec fn wf(self) -> bool {
        &&& MIN_UNIX_SECS <= self.secs <= MAX_UNIX_SECS
        &&& self.nanos < NANOS_PER_SEC
    }

    /// The total order of points in time.
    pub open spec fn spec_before(self, other: Timestamp) -> bool {
        ||| self.secs < other.secs
        ||| (self.secs == other.secs && self.nanos < other.nanos)
    }

    /// Build a timestamp from Unix seconds and nanoseconds; `None` when the
    /// pair does not name a representable UTC date-time.
    pub fn from_unix(secs: i64, nanos: u32) -> (t: Option<Timestamp>)
        ensures
            t is Some <==> (Timestamp { secs, nanos }).wf(),
            t matches Some(t) ==> t.secs == secs && t.nanos == nanos,
    {
        if MIN_UNIX_SECS <= secs && secs <= MAX_UNIX_SECS && nanos < NANOS_PER_SEC {
            Some(Timestamp { secs, nanos })
        } else {
            None
        }
    }

    /// A copy of this timestamp.
    pub fn copy(&self) -> (t: Timestamp)
        ensures
            t == *self,
    {
        Timestamp { secs: self.secs, nanos: self.nanos }
    }

    /// Whether `self` is strictly earlier than `other`.
    pub fn is_before(&self, other: &Timestamp) -> (b: bool)
        ensures
            b == self.spec_before(*other),
    {
        self.secs < other.secs || (self.secs == other.secs && self.nanos < other.nanos)
    }

    /// This timestamp moved by `delta` whole seconds; `None` when the result
    /// would leave the representable range.
    pub fn plus_seconds(&self, delta: i64) -> (t: Option<Timestamp>)
        requires
            self.wf(),
        ensures
            t is Some <==> MIN_UNIX_SECS <= self.secs + delta <= MAX_UNIX_SECS,
            t matches Some(t) ==> t.secs == self.secs + delta && t.nanos == self.nanos && t.wf(),
    {
        if delta >= 0 {
            if self.secs <= MAX_UNIX_SECS - delta {
                Some(Timestamp { secs: self.secs + delta, nanos: self.nanos })
            } else {
                None
            }
        } else if self.secs >= MIN_UNIX_SECS - delta {
            Some(Timestamp { secs: self.secs + delta, nanos: self.nanos })
        } else {
            None
        }
    }
}

/// The RFC 3339 text that `chrono` writes for the UTC date-time at `secs`
/// seconds and `nanos` nanoseconds after the Unix epoch.
pub uninterp spec fn rfc3339_of(secs: i64, nanos: u32) -> Seq<char>;

/// Format a timestamp as RFC 3339 (for example `2024-05-01T12:00:00+00:00`).
///
/// Trusted: calls `chrono::DateTime::<Utc>::from_timestamp` and
/// `DateTime::to_rfc3339`. The contract names the text `rfc3339_of` of the two
/// numbers; `from_timestamp` succeeds on every well-formed timestamp, so the
/// `expect` never fires under the precondition.
#[verifier::external_body]
pub(crate) fn to_rfc3339(t: &Timestamp) -> (text: String)
    requires
        t.wf(),
    ensures
        text@ == rfc3339_of(t.secs, t.nanos),
{
    chrono::DateTime::<chrono::Utc>::from_timestamp(t.secs, t.nanos).expect(
        "well-formed timestamp",
    ).to_rfc3339()
}

/// The current time.
///
/// Trusted: calls `chrono::Utc::now`. Every `DateTime<Utc>` lies between
/// `MIN_UTC` and `MAX_UTC`, and `now` takes its nanoseconds from
/// `Duration::subsec_nanos`, which is below one second; nothing else is
/// promised about the value, which depends on the clock.
#[verifier::external_body]
pub(crate) fn now() -> (t: Timestamp)
    ensures
        t.wf(),
{
    let n = chrono::Utc::now();
    Timestamp { secs: n.timestamp(), nanos: n.timestamp_subsec_nanos() }
}

} // verus!
