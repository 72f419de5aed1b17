//! Optional durations and time marks as a whole number of seconds, or as
//! nothing.
use vstd::prelude::*;
use crate::ts_secs::DeserializeSecs;
use crate::ts_secs::SerializeSecs;
use crate::wire::TimeError;
use crate::wire::WireInt;

verus! {

/// What an optional value is written as: nothing for no value, and else the
/// number of the value inside, or its failure.
pub open spec fn written<T: SerializeSecs>(this: Option<T>) -> Result<Option<WireInt>, TimeError> {
    match this {
        None => Ok(None),
        Some(value) => match value.secs_written() {
            Ok(wire) => Ok(Some(wire)),
            Err(e) => Err(e),
        },
    }
}

/// Whether `r` is what reading the optional number `wire` comes to: no value
/// for nothing, and else what reading the number comes to.
pub open spec fn read<T: DeserializeSecs>(wire: Option<WireInt>, r: Result<Option<T>, TimeError>) -> bool {
    match wire {
        None => r == Ok::<Option<T>, TimeError>(None),
        Some(number) => match r {
            Ok(Some(value)) => T::secs_read(number, Ok(value)),
            Ok(None) => false,
            Err(e) => T::secs_read(number, Err(e)),
        },
    }
}

/// Writes an optional value: no value as nothing, a value as its number of
/// seconds.
pub fn serialize<T: SerializeSecs>(this: &Option<T>) -> (r: Result<Option<WireInt>, TimeError>)
    ensures
        r == written(*this),
        *this is None ==> r == Ok::<Option<WireInt>, TimeError>(None),
{
    match this {
        None => Ok(None),
        Some(value) => match value.serialize() {
            Ok(wire) => Ok(Some(wire)),
            Err(e) => Err(e),
        },
    }
}

/// Reads an optional value: nothing as no value, a number of seconds as the
/// value it stands for.
pub fn deserialize<T: DeserializeSecs>(wire: Option<WireInt>) -> (r: Result<Option<T>, TimeError>)
    ensures
        read(wire, r),
        wire is None ==> r == Ok::<Option<T>, TimeError>(None),
{
    match wire {
        None => Ok(None),
        Some(number) => match T::deserialize(number) {
            Ok(value) => Ok(Some(value)),
            Err(e) => Err(e),
        },
    }
}

} // verus!
