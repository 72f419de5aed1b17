//! The units in which a time quantity can travel as one number.
use vstd::prelude::*;

verus! {

/// The unit that a wire number counts.
#[derive(Clone, Copy, Debug, PartialEq, Eq, Structural)]
pub enum Unit {
    Nanos,
    Micros,
    Millis,
    Secs,
}

impl Unit {
    /// How many of this unit make one second.
    pub open spec fn spec_per_second(self) -> u32 {
        match self {
            Unit::Nanos => 1_000_000_000u32,
            Unit::Micros => 1_000_000u32,
            Unit::Millis => 1_000u32,
            Unit::Secs => 1u32,
        }
    }

    /// How many nanoseconds make one of this unit.
    pub open spec fn spec_nanos(self) -> u32 {
        match self {
            Unit::Nanos => 1u32,
            Unit::Micros => 1_000u32,
            Unit::Millis => 1_000_000u32,
            Unit::Secs => 1_000_000_000u32,
        }
    }

    /// The nanoseconds in `count` of this unit.
    pub open spec fn nanos_in(self, count: nat) -> nat {
        match self {
            Unit::Nanos => count,
            Unit::Micros => count * 1_000,
            Unit::Millis => count * 1_000_000,
            Unit::Secs => count * 1_000_000_000,
        }
    }

    /// The whole units in `nanos` nanoseconds; what is left over is dropped.
    pub open spec fn units_in(self, nanos: nat) -> nat {
        match self {
            Unit::Nanos => nanos,
            Unit::Micros => nanos / 1_000,
            Unit::Millis => nanos / 1_000_000,
            Unit::Secs => nanos / 1_000_000_000,
        }
    }

    /// The whole seconds in `count` of this unit.
    pub open spec fn secs_in(self, count: nat) -> nat {
        match self {
            Unit::Nanos => count / 1_000_000_000,
            Unit::Micros => count / 1_000_000,
            Unit::Millis => count / 1_000,
            Unit::Secs => count,
        }
    }

    /// The text that names a number of this unit to the reader of an error.
    pub open spec fn spec_expecting(self) -> Seq<char> {
        match self {
            Unit::Nanos => "a nanoseconds timestamp"@,
            Unit::Micros => "a microseconds timestamp"@,
            Unit::Millis => "a milliseconds timestamp"@,
            Unit::Secs => "a second timestamp"@,
        }
    }

    /// One second splits into whole units and one unit into whole nanoseconds,
    /// and the conversions of a count follow these two factors.
    pub proof fn lemma_scale(self, n: nat)
        ensures
            self.spec_per_second() * self.spec_nanos() == 1_000_000_000,
            self.nanos_in(n) == n * self.spec_nanos(),
            self.units_in(n) == n / (self.spec_nanos() as nat),
            self.secs_in(n) == n / (self.spec_per_second() as nat),
            self.nanos_in(n) == self.secs_in(n) * 1_000_000_000 + (n % (
            self.spec_per_second() as nat)) * self.spec_nanos(),
            (n % (self.spec_per_second() as nat)) * self.spec_nanos() < 1_000_000_000,
    {
        match self {
            Unit::Nanos => {},
            Unit::Micros => {},
            Unit::Millis => {},
            Unit::Secs => {},
        }
    }

    /// How many of this unit make one second.
    #[verifier::when_used_as_spec(spec_per_second)]
    pub fn per_second(self) -> (n: u32)
        ensures
            n == self.spec_per_second(),
    {
        match self {
            Unit::Nanos => 1_000_000_000,
            Unit::Micros => 1_000_000,
            Unit::Millis => 1_000,
            Unit::Secs => 1,
        }
    }

    /// How many nanoseconds make one of this unit.
    #[verifier::when_used_as_spec(spec_nanos)]
    pub fn nanos(self) -> (n: u32)
        ensures
            n == self.spec_nanos(),
    {
        match self {
            Unit::Nanos => 1,
            Unit::Micros => 1_000,
            Unit::Millis => 1_000_000,
            Unit::Secs => 1_000_000_000,
        }
    }

    /// What a reader of this unit expects on the wire, for an error about a
    /// value of another shape.
    pub fn expecting(self) -> (text: &'static str)
        ensures
            text@ == self.spec_expecting(),
    {
        match self {
            Unit::Nanos => "a nanoseconds timestamp",
            Unit::Micros => "a microseconds timestamp",
            Unit::Millis => "a milliseconds timestamp",
            Unit::Secs => "a second timestamp",
        }
    }
}

} // verus!
