//! Durations and time marks as a whole number of milliseconds.
//!
//! What a value holds below one millisecond is not written. The count is written
//! in 128 bits, which hold the count of every duration; a count is taken in 64
//! bits or in 128.
use vstd::prelude::*;
use crate::codec::duration_outcome;
use crate::codec::decoded;
use crate::codec::encoded;
use crate::codec::mark_decoded;
use crate::codec::mark_encoded;
use crate::codec::mark_outcome;
use crate::codec::read_duration;
use crate::codec::read_mark;
use crate::codec::write_duration;
use crate::codec::write_mark;
use crate::duration::Duration;
use crate::time_mark::TimeMark;
use crate::unit::Unit;
use crate::wire::TimeError;
use crate::wire::WireInt;
use crate::wire::INTEGER_SUPPORT;

pub mod option;

verus! {

/// A value that can be written as a number of milliseconds.
pub trait SerializeMillis {
    /// The number that the value is written as, or why it has none.
    spec fn millis_written(&self) -> Result<WireInt, TimeError>;

    /// Writes the value as a number of milliseconds.
    fn serialize(&self) -> (r: Result<WireInt, TimeError>)
        ensures
            r == self.millis_written(),
    ;
}

/// A value that can be read from a number of milliseconds.
pub trait DeserializeMillis: Sized {
    /// Whether `r` is what reading the number `wire` comes to.
    spec fn millis_read(wire: WireInt, r: Result<Self, TimeError>) -> bool;

    /// Reads a value from a number of milliseconds.
    fn deserialize(wire: WireInt) -> (r: Result<Self, TimeError>)
        ensures
            Self::millis_read(wire, r),
    ;
}

impl SerializeMillis for Duration {
    open spec fn millis_written(&self) -> Result<WireInt, TimeError> {
        encoded(Unit::Millis, INTEGER_SUPPORT, self@)
    }

    /// The whole milliseconds of the span, in 128 bits. This never fails.
    fn serialize(&self) -> (r: Result<WireInt, TimeError>)
        ensures
            r is Ok,
    {
        write_duration(Unit::Millis, INTEGER_SUPPORT, self)
    }
}

impl SerializeMillis for TimeMark {
    open spec fn millis_written(&self) -> Result<WireInt, TimeError> {
        mark_encoded(Unit::Millis, INTEGER_SUPPORT, self@)
    }

    /// The whole milliseconds from the epoch to the mark, in 128 bits. A mark
    /// before the epoch is an epoch underflow.
    fn serialize(&self) -> (r: Result<WireInt, TimeError>)
        ensures
            self@ >= 0 ==> r is Ok,
            self@ < 0 ==> r == Err::<WireInt, TimeError>(TimeError::EpochUnderflow),
    {
        write_mark(Unit::Millis, INTEGER_SUPPORT, self)
    }
}

impl DeserializeMillis for Duration {
    open spec fn millis_read(wire: WireInt, r: Result<Self, TimeError>) -> bool {
        duration_outcome(r) == decoded(Unit::Millis, INTEGER_SUPPORT, wire)
    }

    /// The span of as many milliseconds as the number says. A 128-bit number
    /// whose whole seconds need more than 64 bits is a seconds overflow.
    fn deserialize(wire: WireInt) -> (r: Result<Self, TimeError>)
        ensures
            wire is U64 ==> r is Ok,
            wire matches WireInt::U128(n) ==> (r is Err <==> Unit::Millis.secs_in(n as nat)
                > u64::MAX),
            r matches Err(e) ==> e == TimeError::SecondsOverflow,
    {
        read_duration(Unit::Millis, INTEGER_SUPPORT, wire)
    }
}

impl DeserializeMillis for TimeMark {
    open spec fn millis_read(wire: WireInt, r: Result<Self, TimeError>) -> bool {
        mark_outcome(r) == mark_decoded(Unit::Millis, INTEGER_SUPPORT, wire)
    }

    /// The mark as many milliseconds after the epoch as the number says, unless
    /// that lies beyond the last mark.
    fn deserialize(wire: WireInt) -> (r: Result<Self, TimeError>) {
        read_mark(Unit::Millis, INTEGER_SUPPORT, wire)
    }
}

/// Writes `this` as a number of milliseconds.
pub fn serialize<T: SerializeMillis>(this: &T) -> (r: Result<WireInt, TimeError>)
    ensures
        r == this.millis_written(),
{
    this.serialize()
}

/// Reads a value from a number of milliseconds.
pub fn deserialize<T: DeserializeMillis>(wire: WireInt) -> (r: Result<T, TimeError>)
    ensures
        T::millis_read(wire, r),
{
    T::deserialize(wire)
}

} // verus!
