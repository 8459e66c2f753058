//! The virtual sensors: each reading is drawn at random from the range of
//! its kind.

use vstd::prelude::*;
use rand::Rng;
use crate::kind::SensorKind;
use crate::scheduler::DueSet;

verus! {

/// Draws an integer with `rand::thread_rng().gen_range(low..high)`.
///
/// Believed of rand, not proved: for a range that is not empty the call
/// returns a value of the half-open range, `low` included and `high` not.
/// On an empty range the call panics, so `low < high` is required. Which
/// value comes back is left open: it is random. The generator is seeded by
/// the operating system when the thread first uses it, and rand gives up
/// where the system has no entropy to give.
#[verifier::external_body]
fn random_in_range(low: i32, high: i32) -> (value: i32)
    requires
        low < high,
    ensures
        low <= value < high,
{
    rand::thread_rng().gen_range(low..high)
}

/// One value of one sensor, taken at one moment.
#[derive(Clone, Copy, Debug, PartialEq, Eq, Structural)]
pub struct Reading {
    pub kind: SensorKind,
    /// In hundredths of the unit of `kind`.
    pub value: i32,
    /// In milliseconds.
    pub timestamp: u64,
}

impl Reading {
    /// The value lies in the range of the reading's kind.
    pub open spec fn wf(&self) -> bool {
        self.kind.spec_in_range(self.value as int)
    }
}

/// The values read in one tick: one for each sensor that fired, none for
/// the others.
#[derive(Clone, Copy, Debug, PartialEq, Eq, Structural)]
pub struct TickReadings {
    pub temperature: Option<i32>,
    pub humidity: Option<i32>,
    pub light: Option<i32>,
}

impl TickReadings {
    pub open spec fn spec_value(&self, kind: SensorKind) -> Option<i32> {
        match kind {
            SensorKind::Temperature => self.temperature,
            SensorKind::Humidity => self.humidity,
            SensorKind::Light => self.light,
        }
    }

    pub open spec fn spec_is_complete(&self) -> bool {
        self.temperature is Some && self.humidity is Some && self.light is Some
    }

    /// There is a value for exactly the sensors of `due`, each in the range
    /// of its kind.
    pub open spec fn taken_for(&self, due: DueSet) -> bool {
        forall|kind: SensorKind|
            match #[trigger] self.spec_value(kind) {
                Some(value) => due.spec_contains(kind) && kind.spec_in_range(value as int),
                None => !due.spec_contains(kind),
            }
    }

    /// The value read from `kind` in this tick, if it fired.
    #[verifier::when_used_as_spec(spec_value)]
    pub fn value(&self, kind: SensorKind) -> (value: Option<i32>)
        ensures
            value == self.spec_value(kind),
    {
        match kind {
            SensorKind::Temperature => self.temperature,
            SensorKind::Humidity => self.humidity,
            SensorKind::Light => self.light,
        }
    }

    /// Whether all three sensors were read.
    #[verifier::when_used_as_spec(spec_is_complete)]
    pub fn is_complete(&self) -> (complete: bool)
        ensures
            complete == self.spec_is_complete(),
    {
        self.temperature.is_some() && self.humidity.is_some() && self.light.is_some()
    }
}

/// The source of simulated readings. It keeps no state: every value is drawn
/// anew from the random generator of the running thread.
#[derive(Clone, Copy, Debug)]
pub struct VirtualSensor;

impl VirtualSensor {
    pub fn new() -> (sensor: VirtualSensor) {
        VirtualSensor
    }

    /// A value of `kind`, somewhere in its range.
    pub fn sample(&self, kind: SensorKind) -> (value: i32)
        ensures
            kind.spec_in_range(value as int),
    {
        random_in_range(kind.range_low(), kind.range_high())
    }

    /// A temperature from 20.00 up to, but not including, 30.00 degrees.
    pub fn read_temperature(&self) -> (value: i32)
        ensures
            2000 <= value < 3000,
    {
        self.sample(SensorKind::Temperature)
    }

    /// A humidity from 30.00 up to, but not including, 70.00 percent.
    pub fn read_humidity(&self) -> (value: i32)
        ensures
            3000 <= value < 7000,
    {
        self.sample(SensorKind::Humidity)
    }

    /// A light intensity from 0.00 up to, but not including, 100.00 percent.
    pub fn read_light_intensity(&self) -> (value: i32)
        ensures
            0 <= value < 10000,
    {
        self.sample(SensorKind::Light)
    }

    /// A reading of `kind`, stamped with `timestamp`.
    pub fn read(&self, kind: SensorKind, timestamp: u64) -> (reading: Reading)
        ensures
            reading.kind == kind,
            reading.timestamp == timestamp,
            reading.wf(),
    {
        Reading { kind, value: self.sample(kind), timestamp }
    }

    /// Reads the sensors that are due, and only those.
    pub fn read_due(&self, due: DueSet) -> (readings: TickReadings)
        ensures
            readings.taken_for(due),
    {
        let temperature = if due.temperature {
            Some(self.read_temperature())
        } else {
            None
        };
        let humidity = if due.humidity {
            Some(self.read_humidity())
        } else {
            None
        };
        let light = if due.light {
            Some(self.read_light_intensity())
        } else {
            None
        };
        TickReadings { temperature, humidity, light }
    }
}

} // verus!
