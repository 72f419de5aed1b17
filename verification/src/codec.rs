//! Time quantities as one whole number of a unit, in both directions.
//!
//! The functions here take the unit and the integer widths on offer as
//! arguments. The modules named after a unit fix both.
use vstd::prelude::*;
use crate::duration::Duration;
use crate::time_mark::max_mark_nanos;
use crate::time_mark::TimeMark;
use crate::unit::Unit;
use crate::wire::IntegerSupport;
use crate::wire::TimeError;
use crate::wire::WireInt;

verus! {

/// Whether a reader of `unit` takes a 128-bit number.
pub open spec fn takes_wide(unit: Unit, support: IntegerSupport) -> bool {
    unit != Unit::Secs && support == IntegerSupport::Wide
}

/// The number that a span of `nanos` nanoseconds is written as.
///
/// Seconds always fit 64 bits. The finer units are written in 128 bits where
/// those are on offer, and otherwise in 64 bits or not at all.
pub open spec fn encoded(unit: Unit, support: IntegerSupport, nanos: nat) -> Result<
    WireInt,
    TimeError,
> {
    let count = unit.units_in(nanos);
    if unit == Unit::Secs {
        Ok(WireInt::U64(count as u64))
    } else if support == IntegerSupport::Wide {
        Ok(WireInt::U128(count as u128))
    } else if count <= u64::MAX {
        Ok(WireInt::U64(count as u64))
    } else {
        Err(TimeError::NumericOverflow)
    }
}

/// The span, in nanoseconds, that the number `wire` of `unit` stands for.
///
/// A 64-bit number is always a span. A 128-bit number is one where the unit
/// takes that width and its whole seconds fit 64 bits.
pub open spec fn decoded(unit: Unit, support: IntegerSupport, wire: WireInt) -> Result<
    nat,
    TimeError,
> {
    match wire {
        WireInt::U64(n) => Ok(unit.nanos_in(n as nat)),
        WireInt::U128(n) => if !takes_wide(unit, support) {
            Err(TimeError::UnexpectedShape)
        } else if unit.secs_in(n as nat) > u64::MAX {
            Err(TimeError::SecondsOverflow)
        } else {
            Ok(unit.nanos_in(n as nat))
        },
    }
}

/// The number that the time mark `mark` nanoseconds from the epoch is written
/// as: that of the span since the epoch, which a mark before the epoch lacks.
pub open spec fn mark_encoded(unit: Unit, support: IntegerSupport, mark: int) -> Result<
    WireInt,
    TimeError,
> {
    if mark < 0 {
        Err(TimeError::EpochUnderflow)
    } else {
        encoded(unit, support, mark as nat)
    }
}

/// The time mark, in nanoseconds from the epoch, that the number `wire` of
/// `unit` stands for: the epoch plus the span, where that is still a mark.
pub open spec fn mark_decoded(unit: Unit, support: IntegerSupport, wire: WireInt) -> Result<
    int,
    TimeError,
> {
    match decoded(unit, support, wire) {
        Ok(nanos) => if nanos > max_mark_nanos() {
            Err(TimeError::MarkOverflow)
        } else {
            Ok(nanos as int)
        },
        Err(e) => Err(e),
    }
}

/// A result with the duration in it replaced by its length.
pub open spec fn duration_outcome(r: Result<Duration, TimeError>) -> Result<nat, TimeError> {
    match r {
        Ok(d) => Ok(d@),
        Err(e) => Err(e),
    }
}

/// A result with the time mark in it replaced by its distance from the epoch.
pub open spec fn mark_outcome(r: Result<TimeMark, TimeError>) -> Result<int, TimeError> {
    match r {
        Ok(t) => Ok(t@),
        Err(e) => Err(e),
    }
}

/// The whole units in `d`.
pub fn unit_count(unit: Unit, d: &Duration) -> (count: u128)
    ensures
        count == unit.units_in(d@),
{
    match unit {
        Unit::Nanos => d.as_nanos(),
        Unit::Micros => d.as_micros(),
        Unit::Millis => d.as_millis(),
        Unit::Secs => d.as_secs() as u128,
    }
}

/// Writes `d` as a number of `unit`.
///
/// Fails only for a finer unit than seconds, with 64 bits alone on offer, when
/// the count needs more.
pub fn write_duration(unit: Unit, support: IntegerSupport, d: &Duration) -> (r: Result<
    WireInt,
    TimeError,
>)
    ensures
        r == encoded(unit, support, d@),
        unit == Unit::Secs || support == IntegerSupport::Wide ==> r is Ok,
        r matches Ok(w) ==> w@ == unit.units_in(d@),
        r is Err ==> unit.units_in(d@) > u64::MAX,
{
    match unit {
        Unit::Secs => Ok(WireInt::U64(d.as_secs())),
        _ => {
            let count: u128 = unit_count(unit, d);
            match support {
                IntegerSupport::Wide => Ok(WireInt::U128(count)),
                IntegerSupport::Narrow => {
                    if count <= u64::MAX as u128 {
                        Ok(WireInt::U64(count as u64))
                    } else {
                        Err(TimeError::NumericOverflow)
                    }
                },
            }
        },
    }
}

/// The span of `n` units. Every 64-bit count is a span.
pub fn duration_from_u64(unit: Unit, n: u64) -> (d: Duration)
    ensures
        d@ == unit.nanos_in(n as nat),
{
    match unit {
        Unit::Nanos => Duration::from_nanos(n),
        Unit::Micros => Duration::from_micros(n),
        Unit::Millis => Duration::from_millis(n),
        Unit::Secs => Duration::from_secs(n),
    }
}

/// The span of `n` units, where `n` may need 128 bits.
///
/// The count splits into whole seconds and a rest below one second. The
/// seconds must fit 64 bits: a larger count is refused, never cut down.
pub fn duration_from_u128(unit: Unit, n: u128) -> (r: Result<Duration, TimeError>)
    ensures
        match r {
            Ok(d) => unit.secs_in(n as nat) <= u64::MAX && d@ == unit.nanos_in(n as nat),
            Err(e) => unit.secs_in(n as nat) > u64::MAX && e == TimeError::SecondsOverflow,
        },
{
    proof {
        unit.lemma_scale(n as nat);
    }
    let per_second: u128 = unit.per_second() as u128;
    let secs: u128 = n / per_second;
    if secs > u64::MAX as u128 {
        return Err(TimeError::SecondsOverflow);
    }
    let rest: u32 = (n % per_second) as u32;
    let nanos: u32 = rest * unit.nanos();
    Ok(Duration::new(secs as u64, nanos))
}

/// Reads a span from the number `wire` of `unit`.
pub fn read_duration(unit: Unit, support: IntegerSupport, wire: WireInt) -> (r: Result<
    Duration,
    TimeError,
>)
    ensures
        duration_outcome(r) == decoded(unit, support, wire),
        wire is U64 ==> r is Ok,
{
    match wire {
        WireInt::U64(n) => Ok(duration_from_u64(unit, n)),
        WireInt::U128(n) => {
            match (unit, support) {
                (Unit::Secs, _) => Err(TimeError::UnexpectedShape),
                (_, IntegerSupport::Narrow) => Err(TimeError::UnexpectedShape),
                (_, IntegerSupport::Wide) => duration_from_u128(unit, n),
            }
        },
    }
}

/// Writes the time mark `t` as a number of `unit`: the span from the epoch to
/// `t`, which must not lie before the epoch.
pub fn write_mark(unit: Unit, support: IntegerSupport, t: &TimeMark) -> (r: Result<
    WireInt,
    TimeError,
>)
    ensures
        r == mark_encoded(unit, support, t@),
        t@ < 0 ==> r == Err::<WireInt, TimeError>(TimeError::EpochUnderflow),
        t@ >= 0 && (unit == Unit::Secs || support == IntegerSupport::Wide) ==> r is Ok,
{
    match t.duration_since_epoch() {
        Ok(elapsed) => write_duration(unit, support, &elapsed),
        Err(e) => Err(e),
    }
}

/// Reads a time mark from the number `wire` of `unit`: the epoch plus the span
/// read, unless that lies beyond the last mark.
pub fn read_mark(unit: Unit, support: IntegerSupport, wire: WireInt) -> (r: Result<
    TimeMark,
    TimeError,
>)
    ensures
        mark_outcome(r) == mark_decoded(unit, support, wire),
{
    match read_duration(unit, support, wire) {
        Ok(elapsed) => {
            match TimeMark::epoch().checked_add(&elapsed) {
                Some(t) => Ok(t),
                None => Err(TimeError::MarkOverflow),
            }
        },
        Err(e) => Err(e),
    }
}

/// The part of a span of `nanos` nanoseconds that is made of whole units.
pub open spec fn whole_units(unit: Unit, nanos: nat) -> nat {
    unit.nanos_in(unit.units_in(nanos))
}

/// Cutting a span down to whole units takes away less than one unit, and
/// nothing from a span made of whole units.
pub proof fn lemma_whole_units(unit: Unit, nanos: nat)
    ensures
        whole_units(unit, nanos) == nanos - nanos % (unit.spec_nanos() as nat),
        whole_units(unit, nanos) <= nanos < whole_units(unit, nanos) + unit.spec_nanos(),
        nanos % (unit.spec_nanos() as nat) == 0 ==> whole_units(unit, nanos) == nanos,
        unit.secs_in(unit.units_in(nanos)) == nanos / 1_000_000_000,
{
    match unit {
        Unit::Nanos => {},
        Unit::Micros => {},
        Unit::Millis => {},
        Unit::Secs => {},
    }
}

/// Writing a span and reading the number back loses only what is finer than
/// the unit: the result is the span cut down to whole units. With 128 bits on
/// offer, and for seconds in any case, the span can always be written.
pub proof fn duration_round_trip_to_unit(unit: Unit, support: IntegerSupport, d: Duration)
    requires
        d.wf(),
    ensures
        unit == Unit::Secs || support == IntegerSupport::Wide ==> encoded(unit, support, d@) is Ok,
        encoded(unit, support, d@) matches Ok(w) ==> decoded(unit, support, w) == Ok::<
            nat,
            TimeError,
        >(whole_units(unit, d@)),
{
    d.lemma_bounded();
    lemma_whole_units(unit, d@);
}

/// A span made of whole units comes back unchanged: whenever it can be
/// written, reading the number gives the same span.
pub proof fn duration_round_trip(unit: Unit, support: IntegerSupport, d: Duration)
    requires
        d.wf(),
        d@ % (unit.spec_nanos() as nat) == 0,
    ensures
        unit == Unit::Secs || support == IntegerSupport::Wide ==> encoded(unit, support, d@) is Ok,
        encoded(unit, support, d@) matches Ok(w) ==> decoded(unit, support, w) == Ok::<
            nat,
            TimeError,
        >(d@),
{
    duration_round_trip_to_unit(unit, support, d);
    lemma_whole_units(unit, d@);
}

/// The duration read back from the number of a span made of whole units is
/// the duration that was written, value for value.
pub proof fn duration_comes_back(unit: Unit, support: IntegerSupport, d: Duration, back: Duration)
    requires
        d.wf(),
        back.wf(),
        d@ % (unit.spec_nanos() as nat) == 0,
        encoded(unit, support, d@) matches Ok(w) && decoded(unit, support, w) == Ok::<
            nat,
            TimeError,
        >(back@),
    ensures
        back == d,
{
    duration_round_trip(unit, support, d);
    d.lemma_same_length(back);
}

/// A time mark at or after the epoch comes back as itself up to the precision
/// of the unit: whenever it can be written, reading the number gives the mark
/// cut down to whole units, which is less than one unit before it, and the
/// mark itself where it is made of whole units.
pub proof fn mark_round_trip(unit: Unit, support: IntegerSupport, t: TimeMark)
    requires
        t.wf(),
        t@ >= 0,
    ensures
        unit == Unit::Secs || support == IntegerSupport::Wide ==> mark_encoded(unit, support, t@)
            is Ok,
        mark_encoded(unit, support, t@) matches Ok(w) ==> mark_decoded(unit, support, w) == Ok::<
            int,
            TimeError,
        >(whole_units(unit, t@ as nat) as int),
        whole_units(unit, t@ as nat) <= t@ < whole_units(unit, t@ as nat) + unit.spec_nanos(),
        t@ % (unit.spec_nanos() as int) == 0 ==> whole_units(unit, t@ as nat) == t@,
{
    lemma_whole_units(unit, t@ as nat);
}

/// The time mark read back from the number of a mark that lies a whole number
/// of units after the epoch is the mark that was written, value for value.
pub proof fn mark_comes_back(unit: Unit, support: IntegerSupport, t: TimeMark, back: TimeMark)
    requires
        t.wf(),
        back.wf(),
        t@ >= 0,
        t@ % (unit.spec_nanos() as int) == 0,
        mark_encoded(unit, support, t@) matches Ok(w) && mark_decoded(unit, support, w) == Ok::<
            int,
            TimeError,
        >(back@),
    ensures
        back == t,
{
    mark_round_trip(unit, support, t);
    t.lemma_same_instant(back);
}

/// A time mark before the epoch cannot be written, whatever the unit: the
/// failure is an epoch underflow, and no number, zero included, stands in.
pub proof fn mark_before_epoch_is_refused(unit: Unit, support: IntegerSupport, t: TimeMark)
    requires
        t.wf(),
        t@ < 0,
    ensures
        mark_encoded(unit, support, t@) == Err::<WireInt, TimeError>(TimeError::EpochUnderflow),
{
}

/// A 128-bit count whose whole seconds need more than 64 bits is refused as
/// an overflow, for a span and for a time mark alike, wherever 128-bit counts
/// are taken at all.
pub proof fn wide_count_overflow_is_refused(unit: Unit, n: u128)
    requires
        unit != Unit::Secs,
        unit.secs_in(n as nat) > u64::MAX,
    ensures
        decoded(unit, IntegerSupport::Wide, WireInt::U128(n)) == Err::<nat, TimeError>(
            TimeError::SecondsOverflow,
        ),
        mark_decoded(unit, IntegerSupport::Wide, WireInt::U128(n)) == Err::<int, TimeError>(
            TimeError::SecondsOverflow,
        ),
{
}

/// Where 128-bit counts are taken, the width in which a count arrives does
/// not matter: two wire numbers of the same value read the same.
pub proof fn width_does_not_matter(unit: Unit, a: WireInt, b: WireInt)
    requires
        unit != Unit::Secs,
        a@ == b@,
    ensures
        decoded(unit, IntegerSupport::Wide, a) == decoded(unit, IntegerSupport::Wide, b),
        mark_decoded(unit, IntegerSupport::Wide, a) == mark_decoded(unit, IntegerSupport::Wide, b),
{
    match unit {
        Unit::Nanos => {},
        Unit::Micros => {},
        Unit::Millis => {},
        Unit::Secs => {},
    }
}

} // verus!
