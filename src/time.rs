use vstd::prelude::*;

verus! {

/// A point on the single global clock: whole seconds since the Unix epoch
/// and the nanoseconds within that second. A leap second is carried, as
/// chrono carries it, by a nanosecond part of one billion or more.
#[derive(Clone, Copy, Debug, PartialEq, Eq, Structural)]
pub struct Timestamp {
    pub secs: i64,
    pub nanos: u32,
}

impl Timestamp {
    /// The order of the clock: seconds first, then nanoseconds.
    pub open spec fn spec_le(self, other: Timestamp) -> bool {
        self.secs < other.secs || (self.secs == other.secs && self.nanos <= other.nanos)
    }

    pub fn new(secs: i64, nanos: u32) -> (r: Timestamp)
        ensures
            r.secs == secs,
            r.nanos == nanos,
    {
        Timestamp { secs, nanos }
    }

    /// Whether `self` is at or before `other`.
    pub fn le(&self, other: &Timestamp) -> (r: bool)
        ensures
            r == self.spec_le(*other),
    {
        self.secs < other.secs || (self.secs == other.secs && self.nanos <= other.nanos)
    }

    /// The current time, or `None` where the system clock reads before the
    /// Unix epoch or beyond the range of dates that chrono holds.
    pub fn now() -> (r: Option<Timestamp>)
        ensures
            r is Some ==> r->Some_0.nanos < 1_000_000_000,
    {
        read_clock()
    }
}

/// Relies on std's SystemTime::now, read as a Duration since the Unix epoch
/// (an error before it), whose subsecond part is below one billion
/// nanoseconds; and on chrono's DateTime::from_timestamp, which returns
/// `None` out of its range and otherwise keeps the seconds and nanoseconds
/// that DateTime::timestamp and DateTime::timestamp_subsec_nanos read back.
#[verifier::external_body]
fn read_clock() -> (r: Option<Timestamp>)
    ensures
        r is Some ==> r->Some_0.nanos < 1_000_000_000,
{
    let since = std::time::SystemTime::now().duration_since(std::time::UNIX_EPOCH).ok()?;
    let now = chrono::DateTime::from_timestamp(i64::try_from(since.as_secs()).ok()?, since.subsec_nanos())?;
    Some(Timestamp { secs: now.timestamp(), nanos: now.timestamp_subsec_nanos() })
}

} // verus!
