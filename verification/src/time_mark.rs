//! An absolute point in time, held as its distance from a fixed epoch.
use vstd::prelude::*;
use crate::duration::Duration;
use crate::duration::NANOS_PER_SEC;
use crate::wire::TimeError;

verus! {

/// The earliest time mark, in nanoseconds relative to the epoch.
pub open spec fn min_mark_nanos() -> int {
    i64::MIN * 1_000_000_000
}

/// The latest time mark, in nanoseconds relative to the epoch.
pub open spec fn max_mark_nanos() -> int {
    i64::MAX * 1_000_000_000 + 999_999_999
}

/// A point in time: whole seconds relative to the epoch, negative before it,
/// plus a part below one second that always counts forward.
///
/// The view of a time mark is its distance from the epoch in nanoseconds,
/// negative for a mark before the epoch.
#[derive(Clone, Copy, Debug, PartialEq, Eq, Structural)]
pub struct TimeMark {
    secs: i64,
    nanos: u32,
}

impl View for TimeMark {
    type V = int;

    open spec fn view(&self) -> int {
        self.whole_secs() * 1_000_000_000 + self.subsec()
    }
}

impl TimeMark {
    /// The whole seconds between the epoch and the mark, rounded down.
    pub closed spec fn whole_secs(self) -> i64 {
        self.secs
    }

    /// The nanoseconds from the whole second at or before the mark up to it.
    pub closed spec fn subsec(self) -> u32 {
        self.nanos
    }

    /// The sub-second part is less than one second.
    #[verifier::type_invariant]
    pub open spec fn wf(self) -> bool {
        self.subsec() < NANOS_PER_SEC
    }

    /// Two well-formed time marks at the same distance from the epoch are the
    /// same value.
    pub proof fn lemma_same_instant(self, other: TimeMark)
        requires
            self.wf(),
            other.wf(),
            self@ == other@,
        ensures
            self == other,
    {
    }

    /// The epoch itself.
    pub fn epoch() -> (t: TimeMark)
        ensures
            t@ == 0,
    {
        TimeMark { secs: 0, nanos: 0 }
    }

    /// The mark `d` later than this one, unless it lies beyond the last mark.
    pub fn checked_add(&self, d: &Duration) -> (r: Option<TimeMark>)
        ensures
            match r {
                Some(t) => t@ == self@ + d@ && self@ + d@ <= max_mark_nanos(),
                None => self@ + d@ > max_mark_nanos(),
            },
    {
        proof {
            use_type_invariant(self);
        }
        let whole: i128 = self.secs as i128 + d.as_secs() as i128;
        let part: u32 = self.nanos + d.subsec_nanos();
        let (secs, nanos): (i128, u32) = if part >= NANOS_PER_SEC {
            (whole + 1, part - NANOS_PER_SEC)
        } else {
            (whole, part)
        };
        if secs > i64::MAX as i128 {
            None
        } else {
            Some(TimeMark { secs: secs as i64, nanos })
        }
    }

    /// The mark `d` earlier than this one, unless it lies before the first
    /// mark.
    pub fn checked_sub(&self, d: &Duration) -> (r: Option<TimeMark>)
        ensures
            match r {
                Some(t) => t@ == self@ - d@ && self@ - d@ >= min_mark_nanos(),
                None => self@ - d@ < min_mark_nanos(),
            },
    {
        proof {
            use_type_invariant(self);
        }
        let whole: i128 = self.secs as i128 - d.as_secs() as i128;
        let back: u32 = d.subsec_nanos();
        let (secs, nanos): (i128, u32) = if self.nanos >= back {
            (whole, self.nanos - back)
        } else {
            (whole - 1, self.nanos + NANOS_PER_SEC - back)
        };
        if secs < i64::MIN as i128 {
            None
        } else {
            Some(TimeMark { secs: secs as i64, nanos })
        }
    }

    /// The time elapsed from the epoch to this mark. A mark before the epoch
    /// has none: that is an error, never a span of zero.
    pub fn duration_since_epoch(&self) -> (r: Result<Duration, TimeError>)
        ensures
            match r {
                Ok(d) => self@ >= 0 && d@ == self@,
                Err(e) => self@ < 0 && e == TimeError::EpochUnderflow,
            },
    {
        proof {
            use_type_invariant(self);
        }
        if self.secs < 0 {
            Err(TimeError::EpochUnderflow)
        } else {
            Ok(Duration::new(self.secs as u64, self.nanos))
        }
    }
}

} // verus!
