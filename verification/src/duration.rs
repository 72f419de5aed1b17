//! A non-negative span of time with nanosecond resolution.
use vstd::prelude::*;

verus! {

/// Nanoseconds in one second.
pub const NANOS_PER_SEC: u32 = 1_000_000_000;

/// Nanoseconds in one millisecond.
pub const NANOS_PER_MILLI: u32 = 1_000_000;

/// Nanoseconds in one microsecond.
pub const NANOS_PER_MICRO: u32 = 1_000;

/// Milliseconds in one second.
pub const MILLIS_PER_SEC: u64 = 1_000;

/// Microseconds in one second.
pub const MICROS_PER_SEC: u64 = 1_000_000;

/// The longest span a [`Duration`] can hold, in nanoseconds.
pub open spec fn max_duration_nanos() -> nat {
    (u64::MAX * 1_000_000_000 + 999_999_999) as nat
}

/// Whole seconds plus a sub-second part that stays below one second.
///
/// The view of a duration is its length in nanoseconds.
#[derive(Clone, Copy, Debug, PartialEq, Eq, Structural)]
pub struct Duration {
    secs: u64,
    nanos: u32,
}

impl View for Duration {
    type V = nat;

    open spec fn view(&self) -> nat {
        (self.whole_secs() * 1_000_000_000 + self.subsec()) as nat
    }
}

impl Duration {
    /// The whole seconds of the span.
    pub closed spec fn whole_secs(self) -> u64 {
        self.secs
    }

    /// What is left of the span after its whole seconds, in nanoseconds.
    pub closed spec fn subsec(self) -> u32 {
        self.nanos
    }

    /// The sub-second part is less than one second.
    #[verifier::type_invariant]
    pub open spec fn wf(self) -> bool {
        self.subsec() < NANOS_PER_SEC
    }

    /// Two well-formed durations of the same length are the same value.
    pub proof fn lemma_same_length(self, other: Duration)
        requires
            self.wf(),
            other.wf(),
            self@ == other@,
        ensures
            self == other,
    {
    }

    /// A well-formed duration is no longer than [`max_duration_nanos`].
    pub proof fn lemma_bounded(self)
        requires
            self.wf(),
        ensures
            self@ <= max_duration_nanos(),
            self@ / 1_000_000_000 == self.whole_secs(),
            self@ % 1_000_000_000 == self.subsec(),
    {
    }

    /// A span of `secs` seconds and `nanos` nanoseconds. Nanoseconds beyond one
    /// second carry over into the seconds, which must still fit.
    pub fn new(secs: u64, nanos: u32) -> (d: Duration)
        requires
            secs + nanos / NANOS_PER_SEC <= u64::MAX,
        ensures
            d@ == secs * 1_000_000_000 + nanos,
    {
        let carry: u32 = nanos / NANOS_PER_SEC;
        Duration { secs: secs + carry as u64, nanos: nanos % NANOS_PER_SEC }
    }

    /// A span of `secs` whole seconds.
    pub fn from_secs(secs: u64) -> (d: Duration)
        ensures
            d@ == secs * 1_000_000_000,
    {
        Duration { secs, nanos: 0 }
    }

    /// A span of `millis` milliseconds.
    pub fn from_millis(millis: u64) -> (d: Duration)
        ensures
            d@ == millis * 1_000_000,
    {
        let sub: u32 = (millis % MILLIS_PER_SEC) as u32;
        Duration { secs: millis / MILLIS_PER_SEC, nanos: sub * NANOS_PER_MILLI }
    }

    /// A span of `micros` microseconds.
    pub fn from_micros(micros: u64) -> (d: Duration)
        ensures
            d@ == micros * 1_000,
    {
        let sub: u32 = (micros % MICROS_PER_SEC) as u32;
        Duration { secs: micros / MICROS_PER_SEC, nanos: sub * NANOS_PER_MICRO }
    }

    /// A span of `nanos` nanoseconds.
    pub fn from_nanos(nanos: u64) -> (d: Duration)
        ensures
            d@ == nanos,
    {
        let per_sec: u64 = 1_000_000_000;
        Duration { secs: nanos / per_sec, nanos: (nanos % per_sec) as u32 }
    }

    /// The whole seconds of the span; the sub-second part is dropped.
    pub fn as_secs(&self) -> (secs: u64)
        ensures
            secs == self@ / 1_000_000_000,
            secs == self.whole_secs(),
    {
        proof {
            use_type_invariant(self);
        }
        self.secs
    }

    /// The part of the span below one second, in nanoseconds.
    pub fn subsec_nanos(&self) -> (nanos: u32)
        ensures
            nanos == self@ % 1_000_000_000,
            nanos == self.subsec(),
            nanos < NANOS_PER_SEC,
    {
        proof {
            use_type_invariant(self);
        }
        self.nanos
    }

    /// The whole milliseconds of the span.
    pub fn as_millis(&self) -> (millis: u128)
        ensures
            millis == self@ / 1_000_000,
    {
        proof {
            use_type_invariant(self);
        }
        self.secs as u128 * 1_000 + (self.nanos / NANOS_PER_MILLI) as u128
    }

    /// The whole microseconds of the span.
    pub fn as_micros(&self) -> (micros: u128)
        ensures
            micros == self@ / 1_000,
    {
        proof {
            use_type_invariant(self);
        }
        self.secs as u128 * 1_000_000 + (self.nanos / NANOS_PER_MICRO) as u128
    }

    /// The length of the span in nanoseconds.
    pub fn as_nanos(&self) -> (nanos: u128)
        ensures
            nanos == self@,
            nanos <= max_duration_nanos(),
    {
        proof {
            use_type_invariant(self);
        }
        self.secs as u128 * 1_000_000_000 + self.nanos as u128
    }
}

} // verus!
