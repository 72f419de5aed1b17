//! Durations and time marks as a whole number of nanoseconds.
//!
//! What a value holds below one nanosecond is not written. The count is written
//! in 128 bits, which hold the count of every duration; a count is taken in 64
//! bits or in 128.
use vstd::prelude::*;
use crate::codec::duration_outcome;
use crate::codec::decoded;
use crate::codec::encoded;
use crate::codec::mark_decoded;
use crate::codec::mark_encoded;
use crate::codec::mark_outcome;
use crate::codec::read_duration;
use crate::codec::read_mark;
use crate::codec::write_duration;
use crate::codec::write_mark;
use crate::duration::Duration;
use crate::time_mark::TimeMark;
use crate::unit::Unit;
use crate::wire::TimeError;
use crate::wire::WireInt;
use crate::wire::INTEGER_SUPPORT;

pub mod option;

verus! {

/// A value that can be written as a number of nanoseconds.
pub trait SerializeNanos {
    /// The number that the value is written as, or why it has none.
    spec fn nanos_written(&self) -> Result<WireInt, TimeError>;

    /// Writes the value as a number of nanoseconds.
    fn serialize(&self) -> (r: Result<WireInt, TimeError>)
        ensures
            r == self.nanos_written(),
    ;
}

/// A value that can be read from a number of nanoseconds.
pub trait DeserializeNanos: Sized {
    /// Whether `r` is what reading the number `wire` comes to.
    spec fn nanos_read(wire: WireInt, r: Result<Self, TimeError>) -> bool;

    /// Reads a value from a number of nanoseconds.
    fn deserialize(wire: WireInt) -> (r: Result<Self, TimeError>)
        ensures
            Self::nanos_read(wire, r),
    ;
}

impl SerializeNanos for Duration {
    open spec fn nanos_written(&self) -> Result<WireInt, TimeError> {
        encoded(Unit::Nanos, INTEGER_SUPPORT, self@)
    }

    /// The whole nanoseconds of the span, in 128 bits. This never fails.
    fn serialize(&self) -> (r: Result<WireInt, TimeError>)
        ensures
            r is Ok,
    {
        write_duration(Unit::Nanos, INTEGER_SUPPORT, self)
    }
}

impl SerializeNanos for TimeMark {
    open spec fn nanos_written(&self) -> Result<WireInt, TimeError> {
        mark_encoded(Unit::Nanos, INTEGER_SUPPORT, self@)
    }

    /// The whole nanoseconds from the epoch to the mark, in 128 bits. A mark
    /// before the epoch is an epoch underflow.
    fn serialize(&self) -> (r: Result<WireInt, TimeError>)
        ensures
            self@ >= 0 ==> r is Ok,
            self@ < 0 ==> r == Err::<WireInt, TimeError>(TimeError::EpochUnderflow),
    {
        write_mark(Unit::Nanos, INTEGER_SUPPORT, self)
    }
}

impl DeserializeNanos for Duration {
    open spec fn nanos_read(wire: WireInt, r: Result<Self, TimeError>) -> bool {
        duration_outcome(r) == decoded(Unit::Nanos, INTEGER_SUPPORT, wire)
    }

    /// The span of as many nanoseconds as the number says. A 128-bit number
    /// whose whole seconds need more than 64 bits is a seconds overflow.
    fn deserialize(wire: WireInt) -> (r: Result<Self, TimeError>)
        ensures
            wire is U64 ==> r is Ok,
            wire matches WireInt::U128(n) ==> (r is Err <==> Unit::Nanos.secs_in(n as nat)
                > u64::MAX),
            r matches Err(e) ==> e == TimeError::SecondsOverflow,
    {
        read_duration(Unit::Nanos, INTEGER_SUPPORT, wire)
    }
}

impl DeserializeNanos for TimeMark {
    open spec fn nanos_read(wire: WireInt, r: Result<Self, TimeError>) -> bool {
        mark_outcome(r) == mark_decoded(Unit::Nanos, INTEGER_SUPPORT, wire)
    }

    /// The mark as many nanoseconds after the epoch as the number says, unless
    /// that lies beyond the last mark.
    fn deserialize(wire: WireInt) -> (r: Result<Self, TimeError>) {
        read_mark(Unit::Nanos, INTEGER_SUPPORT, wire)
    }
}

/// Writes `this` as a number of nanoseconds.
pub fn serialize<T: SerializeNanos>(this: &T) -> (r: Result<WireInt, TimeError>)
    ensures
        r == this.nanos_written(),
{
    this.serialize()
}

/// Reads a value from a number of nanoseconds.
pub fn deserialize<T: DeserializeNanos>(wire: WireInt) -> (r: Result<T, TimeError>)
    ensures
        T::nanos_read(wire, r),
{
    T::deserialize(wire)
}

} // verus!
