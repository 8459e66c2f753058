//! The kinds of virtual sensor and the range of values each one produces.

use vstd::prelude::*;

verus! {

/// One of the three virtual sensors of the node.
#[derive(Clone, Copy, Debug, PartialEq, Eq, Structural)]
pub enum SensorKind {
    Temperature,
    Humidity,
    Light,
}

impl SensorKind {
    /// The smallest value, in hundredths, that a sensor of this kind produces.
    pub open spec fn spec_range_low(self) -> i32 {
        match self {
            SensorKind::Temperature => 2000,
            SensorKind::Humidity => 3000,
            SensorKind::Light => 0,
        }
    }

    /// The bound, in hundredths, that every value of this kind stays below.
    pub open spec fn spec_range_high(self) -> i32 {
        match self {
            SensorKind::Temperature => 3000,
            SensorKind::Humidity => 7000,
            SensorKind::Light => 10000,
        }
    }

    /// Whether `value` lies in the half-open range of this kind.
    pub open spec fn spec_in_range(self, value: int) -> bool {
        self.spec_range_low() <= value < self.spec_range_high()
    }

    #[verifier::when_used_as_spec(spec_range_low)]
    pub fn range_low(self) -> (low: i32)
        ensures
            low == self.spec_range_low(),
    {
        match self {
            SensorKind::Temperature => 2000,
            SensorKind::Humidity => 3000,
            SensorKind::Light => 0,
        }
    }

    #[verifier::when_used_as_spec(spec_range_high)]
    pub fn range_high(self) -> (high: i32)
        ensures
            high == self.spec_range_high(),
    {
        match self {
            SensorKind::Temperature => 3000,
            SensorKind::Humidity => 7000,
            SensorKind::Light => 10000,
        }
    }

    pub fn in_range(self, value: i32) -> (inside: bool)
        ensures
            inside == self.spec_in_range(value as int),
    {
        self.range_low() <= value && value < self.range_high()
    }
}

} // verus!
