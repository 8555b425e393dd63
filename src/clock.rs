//! Instants in time, counted in nanoseconds since the Unix epoch.
use vstd::prelude::*;

verus! {

/// Nanoseconds in one day.
pub const NANOS_PER_DAY: i128 = 86_400_000_000_000;

/// How long an attribution record stays valid: thirty days, in nanoseconds.
pub const ATTRIBUTION_WINDOW_NANOS: i128 = 2_592_000_000_000_000;

/// Smallest instant that the clock can report (`i64::MIN` whole seconds).
pub const EARLIEST_NANOS: i128 = -9_223_372_036_854_775_808_000_000_000;

/// Largest instant that the clock can report (`i64::MAX` whole seconds and
/// the last nanosecond of that second).
pub const LATEST_NANOS: i128 = 9_223_372_036_854_775_807_999_999_999;

/// An instant, as a signed count of nanoseconds since 1970-01-01T00:00:00Z.
#[derive(Clone, Copy, Debug, PartialEq, Eq, Structural)]
pub struct Timestamp {
    pub unix_nanos: i128,
}

impl Timestamp {
    /// The instant `unix_nanos` nanoseconds after the epoch.
    pub fn from_unix_nanos(unix_nanos: i128) -> (r: Timestamp)
        ensures
            r.unix_nanos == unix_nanos,
    {
        Timestamp { unix_nanos }
    }

    /// Whether the clock could have reported this instant.
    pub open spec fn in_clock_range(self) -> bool {
        EARLIEST_NANOS <= self.unix_nanos <= LATEST_NANOS
    }

    /// The instant that lies `days` whole days after this one.
    pub open spec fn plus_days(self, days: int) -> int {
        self.unix_nanos + days * NANOS_PER_DAY
    }

    /// The end of the attribution window that opens at this instant.
    pub fn window_end(self) -> (r: Timestamp)
        requires
            self.in_clock_range(),
        ensures
            r.unix_nanos == self.plus_days(30),
    {
        Timestamp { unix_nanos: self.unix_nanos + ATTRIBUTION_WINDOW_NANOS }
    }
}

/// Relies on time's `OffsetDateTime::now_utc` and `unix_timestamp_nanos`: the
/// current instant, which is an `i64` count of whole seconds times 10^9 plus a
/// nanosecond below 10^9.
#[verifier::external_body]
pub fn now_utc() -> (r: Timestamp)
    ensures
        r.in_clock_range(),
{
    Timestamp { unix_nanos: time::OffsetDateTime::now_utc().unix_timestamp_nanos() }
}

} // verus!
