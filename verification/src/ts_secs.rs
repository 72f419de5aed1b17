//! Durations and time marks as a whole number of seconds.
//!
//! What a value holds below one second is not written. Seconds always fit 64
//! bits, so that is the only width written and the only one taken.
use vstd::prelude::*;
use crate::codec::duration_outcome;
use crate::codec::decoded;
use crate::codec::encoded;
use crate::codec::mark_decoded;
use crate::codec::mark_encoded;
use crate::codec::mark_outcome;
use crate::codec::read_duration;
use crate::codec::read_mark;
use crate::codec::write_duration;
use crate::codec::write_mark;
use crate::duration::Duration;
use crate::time_mark::TimeMark;
use crate::unit::Unit;
use crate::wire::TimeError;
use crate::wire::WireInt;
use crate::wire::INTEGER_SUPPORT;

pub mod option;

verus! {

/// A value that can be written as a number of seconds.
pub trait SerializeSecs {
    /// The number that the value is written as, or why it has none.
    spec fn secs_written(&self) -> Result<WireInt, TimeError>;

    /// Writes the value as a number of seconds.
    fn serialize(&self) -> (r: Result<WireInt, TimeError>)
        ensures
            r == self.secs_written(),
    ;
}

/// A value that can be read from a number of seconds.
pub trait DeserializeSecs: Sized {
    /// Whether `r` is what reading the number `wire` comes to.
    spec fn secs_read(wire: WireInt, r: Result<Self, TimeError>) -> bool;

    /// Reads a value from a number of seconds.
    fn deserialize(wire: WireInt) -> (r: Result<Self, TimeError>)
        ensures
            Self::secs_read(wire, r),
    ;
}

impl SerializeSecs for Duration {
    open spec fn secs_written(&self) -> Result<WireInt, TimeError> {
        encoded(Unit::Secs, INTEGER_SUPPORT, self@)
    }

    /// The whole seconds of the span, in 64 bits. This never fails.
    fn serialize(&self) -> (r: Result<WireInt, TimeError>)
        ensures
            r is Ok,
    {
        write_duration(Unit::Secs, INTEGER_SUPPORT, self)
    }
}

impl SerializeSecs for TimeMark {
    open spec fn secs_written(&self) -> Result<WireInt, TimeError> {
        mark_encoded(Unit::Secs, INTEGER_SUPPORT, self@)
    }

    /// The whole seconds from the epoch to the mark, in 64 bits. A mark before
    /// the epoch is an epoch underflow.
    fn serialize(&self) -> (r: Result<WireInt, TimeError>)
        ensures
            self@ >= 0 ==> r is Ok,
            self@ < 0 ==> r == Err::<WireInt, TimeError>(TimeError::EpochUnderflow),
    {
        write_mark(Unit::Secs, INTEGER_SUPPORT, self)
    }
}

impl DeserializeSecs for Duration {
    open spec fn secs_read(wire: WireInt, r: Result<Self, TimeError>) -> bool {
        duration_outcome(r) == decoded(Unit::Secs, INTEGER_SUPPORT, wire)
    }

    /// The span of as many seconds as the 64-bit number says. A 128-bit number
    /// is not a number of seconds.
    fn deserialize(wire: WireInt) -> (r: Result<Self, TimeError>)
        ensures
            wire is U64 ==> r is Ok,
            wire is U128 ==> r == Err::<Duration, TimeError>(TimeError::UnexpectedShape),
    {
        read_duration(Unit::Secs, INTEGER_SUPPORT, wire)
    }
}

impl DeserializeSecs for TimeMark {
    open spec fn secs_read(wire: WireInt, r: Result<Self, TimeError>) -> bool {
        mark_outcome(r) == mark_decoded(Unit::Secs, INTEGER_SUPPORT, wire)
    }

    /// The mark as many seconds after the epoch as the 64-bit number says,
    /// unless that lies beyond the last mark.
    fn deserialize(wire: WireInt) -> (r: Result<Self, TimeError>) {
        read_mark(Unit::Secs, INTEGER_SUPPORT, wire)
    }
}

/// Writes `this` as a number of seconds.
pub fn serialize<T: SerializeSecs>(this: &T) -> (r: Result<WireInt, TimeError>)
    ensures
        r == this.secs_written(),
{
    this.serialize()
}

/// Reads a value from a number of seconds.
pub fn deserialize<T: DeserializeSecs>(wire: WireInt) -> (r: Result<T, TimeError>)
    ensures
        T::secs_read(wire, r),
{
    T::deserialize(wire)
}

} // verus!
