//! Plain-integer time: points in time and spans between them.

use std::time::SystemTime;
use std::time::UNIX_EPOCH;
use vstd::prelude::*;

verus! {

/// Nanoseconds in one second.
pub const NANOS_PER_SEC: u128 = 1_000_000_000;

/// A span of time: whole seconds plus additional nanoseconds.
///
/// Any pair of field values is a span; its length is `total_nanos`.
#[derive(Debug, Clone, Copy, PartialEq, Eq, Structural)]
pub struct TimeSpan {
    pub secs: u64,
    pub nanos: u32,
}

impl TimeSpan {
    /// The length of the span in nanoseconds.
    pub open spec fn total_nanos(self) -> int {
        self.secs * 1_000_000_000 + self.nanos
    }

    /// The span of `secs` whole seconds.
    pub fn from_secs(secs: u64) -> (span: TimeSpan)
        ensures
            span == (TimeSpan { secs, nanos: 0 }),
            span.total_nanos() == secs * 1_000_000_000,
    {
        TimeSpan { secs, nanos: 0 }
    }

    /// The length of the span in nanoseconds.
    pub fn as_nanos(&self) -> (n: u128)
        ensures
            n == self.total_nanos(),
            n < 0x8000_0000_0000_0000_0000_0000,
    {
        let secs: u128 = self.secs as u128;
        let nanos: u128 = self.nanos as u128;
        secs * NANOS_PER_SEC + nanos
    }
}

/// A point in time: nanoseconds counted from the Unix epoch, negative before it.
#[derive(Debug, Clone, Copy, PartialEq, Eq, Structural)]
pub struct Timestamp {
    pub nanos: i128,
}

/// Reads the system clock with `SystemTime::now` and measures it against
/// `UNIX_EPOCH`: `Ok` carries the time elapsed since the epoch, `Err` the time
/// still to pass until it. Nothing is claimed about the reading.
#[verifier::external_body]
fn system_clock() -> (reading: Result<TimeSpan, TimeSpan>) {
    match SystemTime::now().duration_since(UNIX_EPOCH) {
        Ok(d) => Ok(TimeSpan { secs: d.as_secs(), nanos: d.subsec_nanos() }),
        Err(e) => Err(TimeSpan { secs: e.duration().as_secs(), nanos: e.duration().subsec_nanos() }),
    }
}

impl Timestamp {
    /// Whether a timestamp lies within the range a clock reading can take.
    pub open spec fn in_clock_range(self) -> bool {
        -0x8000_0000_0000_0000_0000_0000 < self.nanos < 0x8000_0000_0000_0000_0000_0000
    }

    /// The point in time `span` after the Unix epoch.
    pub fn after_epoch(span: TimeSpan) -> (t: Timestamp)
        ensures
            t.nanos == span.total_nanos(),
    {
        let n: u128 = span.as_nanos();
        Timestamp { nanos: n as i128 }
    }

    /// The point in time `span` before the Unix epoch.
    pub fn before_epoch(span: TimeSpan) -> (t: Timestamp)
        ensures
            t.nanos == -span.total_nanos(),
    {
        let n: u128 = span.as_nanos();
        Timestamp { nanos: -(n as i128) }
    }

    /// The point in time that a clock reading stands for.
    pub fn from_clock_reading(reading: Result<TimeSpan, TimeSpan>) -> (t: Timestamp)
        ensures
            t.nanos == match reading {
                Ok(since) => since.total_nanos(),
                Err(until) => -until.total_nanos(),
            },
            t.in_clock_range(),
    {
        match reading {
            Ok(since) => Timestamp::after_epoch(since),
            Err(until) => Timestamp::before_epoch(until),
        }
    }

    /// The current time by the system clock.
    ///
    /// Two calls may differ in either direction; only the range is known.
    pub fn now() -> (t: Timestamp)
        ensures
            t.in_clock_range(),
    {
        Timestamp::from_clock_reading(system_clock())
    }

    /// Whether adding `span` stays within the representable range.
    pub open spec fn can_add(self, span: TimeSpan) -> bool {
        self.nanos + span.total_nanos() <= i128::MAX
    }

    /// The point in time `span` after this one.
    pub fn plus(self, span: TimeSpan) -> (t: Timestamp)
        requires
            self.can_add(span),
        ensures
            t.nanos == self.nanos + span.total_nanos(),
    {
        let n: u128 = span.as_nanos();
        Timestamp { nanos: self.nanos + (n as i128) }
    }

    /// Whether this point in time is strictly later than `other`.
    pub fn is_after(self, other: Timestamp) -> (later: bool)
        ensures
            later == (self.nanos > other.nanos),
    {
        self.nanos > other.nanos
    }
}

/// Every clock reading can be extended by every span.
pub proof fn lemma_clock_range_can_add(t: Timestamp, span: TimeSpan)
    requires
        t.in_clock_range(),
    ensures
        t.can_add(span),
{
}

} // verus!
