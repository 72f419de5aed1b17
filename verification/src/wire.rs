//! The numbers that stand for a time quantity on the wire, and the ways a
//! conversion can fail.
use vstd::prelude::*;

verus! {

/// An unsigned whole number as a format carries it: in 64 bits or in 128.
#[derive(Clone, Copy, Debug, PartialEq, Eq, Structural)]
pub enum WireInt {
    U64(u64),
    U128(u128),
}

impl View for WireInt {
    type V = nat;

    /// The number itself, whatever its width.
    open spec fn view(&self) -> nat {
        match *self {
            WireInt::U64(n) => n as nat,
            WireInt::U128(n) => n as nat,
        }
    }
}

/// The widest unsigned integer that the adapters may put on the wire or take
/// from it.
#[derive(Clone, Copy, Debug, PartialEq, Eq, Structural)]
pub enum IntegerSupport {
    /// 128-bit integers are available.
    Wide,
    /// Only 64-bit integers are available.
    Narrow,
}

/// The widths that the adapters named after a unit work with. 128-bit
/// integers are part of the language on every target, so the wide form is
/// written and taken.
pub const INTEGER_SUPPORT: IntegerSupport = IntegerSupport::Wide;

/// Why a time quantity could not be written or read.
#[derive(Clone, Copy, Debug, PartialEq, Eq, Structural)]
pub enum TimeError {
    /// The time mark lies before the epoch, so no duration since the epoch
    /// exists.
    EpochUnderflow,
    /// The count of units does not fit the 64 bits that the wire offers.
    NumericOverflow,
    /// The whole seconds of the number read do not fit 64 bits.
    SecondsOverflow,
    /// The epoch plus the duration read lies beyond the last time mark.
    MarkOverflow,
    /// The wire holds a number of a width that this unit does not take.
    UnexpectedShape,
}

/// The broad classes of failure.
#[derive(Clone, Copy, Debug, PartialEq, Eq, Structural)]
pub enum ErrorKind {
    /// The wire value has a shape that the reader does not accept.
    ShapeMismatch,
    /// The value is outside what the target can hold.
    Range,
    /// The value has no meaning as the quantity asked for.
    Domain,
}

impl TimeError {
    /// The class of this failure.
    pub open spec fn spec_kind(self) -> ErrorKind {
        match self {
            TimeError::EpochUnderflow => ErrorKind::Domain,
            TimeError::NumericOverflow => ErrorKind::Range,
            TimeError::SecondsOverflow => ErrorKind::Range,
            TimeError::MarkOverflow => ErrorKind::Range,
            TimeError::UnexpectedShape => ErrorKind::ShapeMismatch,
        }
    }

    /// The text of this failure.
    pub open spec fn spec_message(self) -> Seq<char> {
        match self {
            TimeError::EpochUnderflow => "second time provided was later than self"@,
            TimeError::NumericOverflow => "out of range integral type conversion attempted"@,
            TimeError::SecondsOverflow => "out of range integral type conversion attempted"@,
            TimeError::MarkOverflow => "overflow when adding duration to system time"@,
            TimeError::UnexpectedShape => "integer of a width that this unit does not take"@,
        }
    }

    /// The class of this failure.
    #[verifier::when_used_as_spec(spec_kind)]
    pub fn kind(self) -> (kind: ErrorKind)
        ensures
            kind == self.spec_kind(),
    {
        match self {
            TimeError::EpochUnderflow => ErrorKind::Domain,
            TimeError::NumericOverflow => ErrorKind::Range,
            TimeError::SecondsOverflow => ErrorKind::Range,
            TimeError::MarkOverflow => ErrorKind::Range,
            TimeError::UnexpectedShape => ErrorKind::ShapeMismatch,
        }
    }

    /// A description of this failure for whoever receives the error.
    pub fn message(self) -> (text: &'static str)
        ensures
            text@ == self.spec_message(),
    {
        match self {
            TimeError::EpochUnderflow => "second time provided was later than self",
            TimeError::NumericOverflow => "out of range integral type conversion attempted",
            TimeError::SecondsOverflow => "out of range integral type conversion attempted",
            TimeError::MarkOverflow => "overflow when adding duration to system time",
            TimeError::UnexpectedShape => "integer of a width that this unit does not take",
        }
    }
}

} // verus!
