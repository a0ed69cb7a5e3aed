use chrono::TimeZone;
use vstd::prelude::*;

verus! {

/// A point in time as seconds and nanoseconds since the Unix epoch (UTC).
#[derive(Clone, Copy, Debug, PartialEq, Eq, Structural)]
pub struct Timestamp {
    pub secs: i64,
    pub nanos: u32,
}

impl Timestamp {
    /// Strict chronological order: seconds first, then nanoseconds.
    pub open spec fn spec_before(self, other: Timestamp) -> bool {
        self.secs < other.secs || (self.secs == other.secs && self.nanos < other.nanos)
    }

    /// The timestamp as one integer count, ordered as `spec_before` orders.
    pub open spec fn ordinal(self) -> int {
        self.secs as int * 0x1_0000_0000 + self.nanos as int
    }

    pub fn from_parts(secs: i64, nanos: u32) -> (r: Timestamp)
        ensures
            r.secs == secs,
            r.nanos == nanos,
    {
        Timestamp { secs, nanos }
    }

    pub fn before(&self, other: &Timestamp) -> (r: bool)
        ensures
            r == self.spec_before(*other),
    {
        self.secs < other.secs || (self.secs == other.secs && self.nanos < other.nanos)
    }
}

/// The first second of chrono's earliest date, 1 January of year -262143.
pub const UTC_MIN_SECS: i64 = -8_334_601_228_800;

/// The last second of chrono's latest date, 31 December of year 262142.
pub const UTC_MAX_SECS: i64 = 8_210_266_876_799;

/// Whether chrono can represent the given count of whole seconds since the
/// epoch as a UTC date and time.
pub open spec fn utc_representable(secs: int) -> bool {
    UTC_MIN_SECS <= secs <= UTC_MAX_SECS
}

/// Relies on `chrono::TimeZone::timestamp_opt` for `Utc` with zero
/// nanoseconds: it yields a single date and time holding exactly these
/// seconds when their day falls within chrono's years -262143 to 262142,
/// and none otherwise.
#[verifier::external_body]
pub(crate) fn utc_from_secs(secs: i64) -> (r: Option<Timestamp>)
    ensures
        r.is_some() == utc_representable(secs as int),
        r matches Some(t) ==> t.secs == secs && t.nanos == 0,
{
    match chrono::Utc.timestamp_opt(secs, 0).single() {
        Some(t) => Some(Timestamp { secs: t.timestamp(), nanos: t.timestamp_subsec_nanos() }),
        None => None,
    }
}

} // verus!
