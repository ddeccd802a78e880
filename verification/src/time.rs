//! Points in time, as Firestore stores them: whole seconds since the Unix
//! epoch and a nanosecond part.
use vstd::prelude::*;

verus! {

/// Nanoseconds in one second.
pub const NANOS_PER_SECOND: i64 = 1_000_000_000;

/// Upper bound on the seconds of any time that the clock reports.
pub const MAX_CLOCK_SECONDS: i64 = 200_000_000_000_000;

/// A point in time: `seconds` since 1970-01-01T00:00:00Z plus `nanos`.
#[derive(Clone, Copy, Debug, PartialEq, Eq, Structural)]
pub struct Timestamp {
    pub seconds: i64,
    pub nanos: i32,
}

impl Timestamp {
    /// The time as a count of nanoseconds since the Unix epoch.
    pub open spec fn as_nanos(self) -> int {
        self.seconds * 1_000_000_000 + self.nanos
    }

    /// `nanos` is the sub-second part, as Firestore and the clock hand it out.
    pub open spec fn is_normalized(self) -> bool {
        0 <= self.nanos < 1_000_000_000
    }

    pub fn new(seconds: i64, nanos: i32) -> (t: Timestamp)
        ensures
            t.seconds == seconds,
            t.nanos == nanos,
    {
        Timestamp { seconds, nanos }
    }

    /// 1970-01-01T00:00:00Z.
    pub open spec fn unix_epoch_spec() -> Timestamp {
        Timestamp { seconds: 0, nanos: 0 }
    }

    /// 1970-01-01T00:00:00Z.
    pub fn unix_epoch() -> (t: Timestamp)
        ensures
            t == Timestamp::unix_epoch_spec(),
            t.as_nanos() == 0,
    {
        Timestamp { seconds: 0, nanos: 0 }
    }

    /// The time as a count of nanoseconds since the Unix epoch.
    pub fn to_nanos(&self) -> (n: i128)
        ensures
            n == self.as_nanos(),
    {
        let s: i128 = self.seconds as i128;
        assert(-0x8000_0000_0000_0000 * 1_000_000_000 <= s * 1_000_000_000
            <= 0x7fff_ffff_ffff_ffff * 1_000_000_000) by (nonlinear_arith)
            requires
                -0x8000_0000_0000_0000 <= s <= 0x7fff_ffff_ffff_ffff,
        ;
        s * 1_000_000_000 + self.nanos as i128
    }

    /// Whether `self` is the same time as `other` or a later one.
    pub fn is_at_or_after(&self, other: &Timestamp) -> (b: bool)
        ensures
            b == (self.as_nanos() >= other.as_nanos()),
    {
        self.to_nanos() >= other.to_nanos()
    }

    /// `self` moved `delta` whole seconds (forward for positive `delta`).
    pub fn plus_seconds(&self, delta: i64) -> (t: Timestamp)
        requires
            i64::MIN <= self.seconds + delta <= i64::MAX,
        ensures
            t.seconds == self.seconds + delta,
            t.nanos == self.nanos,
            t.as_nanos() == self.as_nanos() + delta * 1_000_000_000,
    {
        Timestamp { seconds: self.seconds + delta, nanos: self.nanos }
    }
}

/// A time that the clock can report: at or after the Unix epoch, within
/// chrono's range of dates, with a sub-second part under a second.
pub open spec fn is_clock_reading(t: Timestamp) -> bool {
    &&& 0 <= t.seconds <= MAX_CLOCK_SECONDS
    &&& t.is_normalized()
}

/// Reads the system clock through `chrono::Utc::now`. The clock can report
/// any time, so nothing ties the result to anything else. chrono builds the
/// result from the time elapsed since the Unix epoch and panics when the
/// clock reads before the epoch or past its own range of dates; so whenever
/// it returns, the time is at or after the epoch, within that range, and has
/// a sub-second part under a second.
#[verifier::external_body]
pub(crate) fn utc_now() -> (now: ClockReading)
    ensures
        is_clock_reading(now.at()),
{
    let now = chrono::Utc::now();
    ClockReading {
        time: Timestamp { seconds: now.timestamp(), nanos: now.timestamp_subsec_nanos() as i32 },
    }
}

/// A time that the system clock reported. Only `utc_now` makes one, so a
/// decision stated over `at()` of a reading was taken at a time that the
/// clock reported, not at a time computed from one.
pub struct ClockReading {
    time: Timestamp,
}

impl ClockReading {
    #[verifier::type_invariant]
    spec fn inv(self) -> bool {
        is_clock_reading(self.time)
    }

    /// The time that the clock reported.
    pub closed spec fn at(self) -> Timestamp {
        self.time
    }

    /// The time that the clock reported.
    pub fn time(&self) -> (t: Timestamp)
        ensures
            t == self.at(),
            is_clock_reading(t),
    {
        proof {
            use_type_invariant(self);
        }
        self.time
    }
}

} // verus!
