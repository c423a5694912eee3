//! Points in time and spans of time as plain integers.

use std::time::{Duration, SystemTime, UNIX_EPOCH};
use vstd::prelude::*;

verus! {

/// Nanoseconds in one second.
pub const NANOS_PER_SEC: u32 = 1_000_000_000;

/// Declares std's wall-clock `SystemTime`.
#[verifier::external_type_specification]
#[verifier::external_body]
pub struct ExSystemTime(SystemTime);

/// Relies on std's SystemTime::now: the current wall-clock time (any value).
pub assume_specification[ SystemTime::now ]() -> SystemTime;

/// Declares tokio's monotonic `Instant`.
#[verifier::external_type_specification]
#[verifier::external_body]
pub struct ExTokioInstant(tokio::time::Instant);

/// Relies on tokio's `Instant::now`: a reading of the monotonic clock.
pub assume_specification[ tokio::time::Instant::now ]() -> tokio::time::Instant;

/// A non-negative span of time, kept as whole seconds and the nanoseconds
/// past them.
#[derive(Clone, Copy, Debug)]
pub struct TimeSpan {
    secs: u64,
    nanos: u32,
}

impl View for TimeSpan {
    type V = nat;

    /// The span in nanoseconds.
    closed spec fn view(&self) -> nat {
        (self.secs * 1_000_000_000 + self.nanos) as nat
    }
}

impl TimeSpan {
    #[verifier::type_invariant]
    spec fn inv(self) -> bool {
        self.nanos < 1_000_000_000
    }

    /// The span of `secs` whole seconds.
    pub fn from_secs(secs: u64) -> (r: TimeSpan)
        ensures
            r@ == secs * 1_000_000_000,
    {
        TimeSpan { secs, nanos: 0 }
    }

    /// The span of `millis` milliseconds.
    pub fn from_millis(millis: u64) -> (r: TimeSpan)
        ensures
            r@ == millis * 1_000_000,
    {
        let secs: u64 = millis / 1000;
        let rest: u64 = millis % 1000;
        let nanos: u32 = (rest * 1_000_000) as u32;
        TimeSpan { secs, nanos }
    }

    /// The span of `secs` seconds and `nanos` nanoseconds.
    pub fn from_parts(secs: u64, nanos: u32) -> (r: TimeSpan)
        requires
            nanos < 1_000_000_000,
        ensures
            r@ == secs * 1_000_000_000 + nanos,
    {
        TimeSpan { secs, nanos }
    }

    /// The span of `n` nanoseconds.
    pub fn from_nanos(n: u128) -> (r: TimeSpan)
        requires
            n <= u64::MAX * 1_000_000_000 + 999_999_999,
        ensures
            r@ == n,
    {
        let secs: u128 = n / 1_000_000_000;
        let nanos: u128 = n % 1_000_000_000;
        proof {
            vstd::arithmetic::div_mod::lemma_fundamental_div_mod(n as int, 1_000_000_000);
        }
        TimeSpan { secs: secs as u64, nanos: nanos as u32 }
    }

    /// The shorter of two spans.
    pub fn min(&self, other: &TimeSpan) -> (r: TimeSpan)
        ensures
            r@ == if self@ <= other@ { self@ } else { other@ },
    {
        if other.is_at_least(self) {
            *self
        } else {
            *other
        }
    }

    /// Twice this span, but no longer than `cap`.
    pub fn doubled_up_to(&self, cap: &TimeSpan) -> (r: TimeSpan)
        ensures
            r@ == if 2 * self@ <= cap@ { 2 * self@ } else { cap@ },
    {
        let twice = self.as_nanos() * 2;
        let c = cap.as_nanos();
        if twice <= c {
            TimeSpan::from_nanos(twice)
        } else {
            *cap
        }
    }

    /// The empty span.
    pub fn zero() -> (r: TimeSpan)
        ensures
            r@ == 0,
    {
        TimeSpan { secs: 0, nanos: 0 }
    }

    /// Whole seconds in the span.
    pub fn as_secs(&self) -> (r: u64)
        ensures
            r == self@ / 1_000_000_000,
    {
        proof { use_type_invariant(self); }
        self.secs
    }

    /// Nanoseconds past the whole seconds.
    pub fn subsec_nanos(&self) -> (r: u32)
        ensures
            r == self@ % 1_000_000_000,
    {
        proof { use_type_invariant(self); }
        self.nanos
    }

    /// The span in nanoseconds.
    pub fn as_nanos(&self) -> (r: u128)
        ensures
            r == self@,
            r <= u64::MAX * 1_000_000_000 + 999_999_999,
    {
        proof { use_type_invariant(self); }
        self.secs as u128 * 1_000_000_000u128 + self.nanos as u128
    }

    /// Whether the span is empty.
    pub fn is_zero(&self) -> (r: bool)
        ensures
            r == (self@ == 0),
    {
        self.secs == 0 && self.nanos == 0
    }

    /// Whether this span is at least as long as `other`.
    pub fn is_at_least(&self, other: &TimeSpan) -> (r: bool)
        ensures
            r == (self@ >= other@),
    {
        proof {
            use_type_invariant(self);
            use_type_invariant(other);
        }
        self.secs > other.secs || (self.secs == other.secs && self.nanos >= other.nanos)
    }

    /// The same span as a std `Duration`.
    pub fn to_std(&self) -> Duration {
        span_to_duration(self)
    }

    /// The span that a std `Duration` holds.
    pub fn from_std(d: Duration) -> TimeSpan {
        duration_to_span(&d)
    }
}

/// Relies on std's Duration::new, which does not panic when the nanoseconds
/// are under one second, as the span's invariant keeps them.
#[verifier::external_body]
fn span_to_duration(s: &TimeSpan) -> Duration {
    Duration::new(s.secs, s.nanos)
}

/// Relies on std's Duration::as_secs and Duration::subsec_nanos; the latter
/// is documented to stay under one second.
#[verifier::external_body]
fn duration_to_span(d: &Duration) -> TimeSpan {
    TimeSpan { secs: d.as_secs(), nanos: d.subsec_nanos() }
}

/// Relies on std's SystemTime::duration_since: the span from the Unix epoch
/// to `t`, or `None` when `t` lies before it.
#[verifier::external_body]
fn since_unix_epoch(t: &SystemTime) -> (r: Option<TimeSpan>) {
    match t.duration_since(UNIX_EPOCH) {
        Ok(d) => Some(TimeSpan { secs: d.as_secs(), nanos: d.subsec_nanos() }),
        Err(_) => None,
    }
}

/// Relies on std's `SystemTime::checked_add`: the time `secs` seconds and
/// `nanos` nanoseconds after the Unix epoch, or `None` when the platform's
/// `SystemTime` cannot hold it.
#[verifier::external_body]
fn unix_epoch_plus(secs: u64, nanos: u32) -> Option<SystemTime>
    requires
        nanos < 1_000_000_000,
{
    UNIX_EPOCH.checked_add(Duration::new(secs, nanos))
}

/// Relies on tokio's `Instant::elapsed`: the span from `i` to now on the
/// monotonic clock.
#[verifier::external_body]
fn monotonic_elapsed(i: &tokio::time::Instant) -> TimeSpan {
    let d = i.elapsed();
    TimeSpan { secs: d.as_secs(), nanos: d.subsec_nanos() }
}

/// Relies on tokio's `Instant::checked_sub`: the monotonic instant `span`
/// before `i`, or `None` when the clock cannot go back that far.
#[verifier::external_body]
fn monotonic_before(i: &tokio::time::Instant, span: &TimeSpan) -> Option<tokio::time::Instant> {
    i.checked_sub(Duration::new(span.secs, span.nanos))
}

/// A wall-clock instant, kept as seconds and nanoseconds since the Unix
/// epoch so that it can be stored and compared across restarts.
#[derive(Clone, Copy, Debug)]
pub struct SerializableInstant {
    secs: u64,
    nanos: u32,
}

impl View for SerializableInstant {
    type V = nat;

    /// Nanoseconds since the Unix epoch.
    closed spec fn view(&self) -> nat {
        (self.secs * 1_000_000_000 + self.nanos) as nat
    }
}

/// `a - b`, or zero when `b` is the later.
pub open spec fn saturating_diff(a: nat, b: nat) -> nat {
    if a > b {
        (a - b) as nat
    } else {
        0
    }
}

impl SerializableInstant {
    #[verifier::type_invariant]
    spec fn inv(self) -> bool {
        self.nanos < 1_000_000_000
    }

    /// Seconds since the epoch.
    pub closed spec fn spec_secs(self) -> u64 {
        self.secs
    }

    /// The instant `secs` seconds and `nanos` nanoseconds after the epoch.
    pub fn from_parts(secs: u64, nanos: u32) -> (r: SerializableInstant)
        requires
            nanos < 1_000_000_000,
        ensures
            r@ == secs * 1_000_000_000 + nanos,
            r.spec_secs() == secs,
    {
        SerializableInstant { secs, nanos }
    }

    /// The instant `secs` whole seconds after the epoch.
    pub fn from_secs(secs: u64) -> (r: SerializableInstant)
        ensures
            r@ == secs * 1_000_000_000,
            r.spec_secs() == secs,
    {
        SerializableInstant { secs, nanos: 0 }
    }

    /// The Unix epoch itself.
    pub fn epoch() -> (r: SerializableInstant)
        ensures
            r@ == 0,
            r.spec_secs() == 0,
    {
        SerializableInstant { secs: 0, nanos: 0 }
    }

    /// Seconds since the epoch.
    pub fn secs(&self) -> (r: u64)
        ensures
            r == self@ / 1_000_000_000,
            r == self.spec_secs(),
    {
        proof { use_type_invariant(self); }
        self.secs
    }

    /// Nanoseconds past the whole seconds.
    pub fn subsec_nanos(&self) -> (r: u32)
        ensures
            r == self@ % 1_000_000_000,
    {
        proof { use_type_invariant(self); }
        self.nanos
    }

    /// The current wall-clock time. A clock set before the epoch reads as
    /// the epoch.
    pub fn now() -> (r: SerializableInstant) {
        Self::from_system_time(SystemTime::now())
    }

    /// The span from this instant to the current time (zero if this
    /// instant lies in the future).
    pub fn elapsed(&self) -> (r: TimeSpan)
        ensures
            exists|now: nat| r@ == #[trigger] saturating_diff(now, self@),
    {
        let now = Self::now();
        now.duration_since(*self)
    }

    /// The span from `earlier` to this instant, or zero when `earlier` is
    /// not before it.
    pub fn duration_since(&self, earlier: SerializableInstant) -> (r: TimeSpan)
        ensures
            r@ == saturating_diff(self@, earlier@),
    {
        proof {
            use_type_invariant(self);
            use_type_invariant(&earlier);
        }
        if self.secs < earlier.secs || (self.secs == earlier.secs && self.nanos <= earlier.nanos) {
            TimeSpan { secs: 0, nanos: 0 }
        } else if self.nanos >= earlier.nanos {
            TimeSpan { secs: self.secs - earlier.secs, nanos: self.nanos - earlier.nanos }
        } else {
            TimeSpan {
                secs: self.secs - earlier.secs - 1,
                nanos: self.nanos + (NANOS_PER_SEC - earlier.nanos),
            }
        }
    }

    /// The instant `span` after this one, or `None` when it does not fit.
    pub fn checked_add(&self, span: TimeSpan) -> (r: Option<SerializableInstant>)
        ensures
            r matches Some(t) ==> t@ == self@ + span@,
            r is None <==> (self@ + span@) / 1_000_000_000 > u64::MAX,
    {
        proof {
            use_type_invariant(self);
            use_type_invariant(&span);
        }
        let nanos: u32 = self.nanos + span.nanos;
        let carry: u64 = if nanos >= NANOS_PER_SEC { 1 } else { 0 };
        let nanos: u32 = if nanos >= NANOS_PER_SEC { nanos - NANOS_PER_SEC } else { nanos };
        match self.secs.checked_add(span.secs) {
            None => None,
            Some(s) => match s.checked_add(carry) {
                None => None,
                Some(s) => Some(SerializableInstant { secs: s, nanos }),
            },
        }
    }

    /// The instant `span` before this one, or the epoch when `span` reaches
    /// back past it.
    pub fn saturating_sub(&self, span: TimeSpan) -> (r: SerializableInstant)
        ensures
            r@ == saturating_diff(self@, span@),
    {
        proof {
            use_type_invariant(self);
            use_type_invariant(&span);
        }
        if self.secs < span.secs || (self.secs == span.secs && self.nanos <= span.nanos) {
            SerializableInstant { secs: 0, nanos: 0 }
        } else if self.nanos >= span.nanos {
            SerializableInstant { secs: self.secs - span.secs, nanos: self.nanos - span.nanos }
        } else {
            SerializableInstant {
                secs: self.secs - span.secs - 1,
                nanos: self.nanos + (NANOS_PER_SEC - span.nanos),
            }
        }
    }

    /// The wall-clock instant of a monotonic instant: the current time less
    /// the span that has passed since `instant`.
    pub fn from_instant(instant: tokio::time::Instant) -> (r: SerializableInstant) {
        let since = monotonic_elapsed(&instant);
        Self::now().saturating_sub(since)
    }

    /// The monotonic instant of this wall-clock instant: now on the
    /// monotonic clock, less the span that has passed since this instant.
    /// An instant further back than the monotonic clock reaches reads as
    /// now.
    pub fn to_instant(&self) -> tokio::time::Instant {
        let since = Self::now().duration_since(*self);
        let now = tokio::time::Instant::now();
        match monotonic_before(&now, &since) {
            Some(i) => i,
            None => now,
        }
    }

    /// The instant that a `SystemTime` names. A time before the epoch reads
    /// as the epoch.
    pub fn from_system_time(time: SystemTime) -> (r: SerializableInstant) {
        Self::from_epoch_offset(since_unix_epoch(&time))
    }

    /// The instant `offset` after the epoch; `None`, a time before the
    /// epoch, reads as the epoch.
    pub fn from_epoch_offset(offset: Option<TimeSpan>) -> (r: SerializableInstant)
        ensures
            r@ == match offset {
                Some(span) => span@,
                None => 0,
            },
    {
        match offset {
            Some(span) => {
                proof { use_type_invariant(&span); }
                SerializableInstant { secs: span.secs, nanos: span.nanos }
            },
            None => SerializableInstant { secs: 0, nanos: 0 },
        }
    }

    /// The same instant as a `SystemTime`, or `None` when the platform's
    /// `SystemTime` cannot hold it.
    pub fn to_system_time(&self) -> Option<SystemTime> {
        proof { use_type_invariant(self); }
        unix_epoch_plus(self.secs, self.nanos)
    }
}

} // verus!
