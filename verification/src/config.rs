//! What a node is configured with: how often each sensor is sampled, the
//! threshold above which each one alerts, where the log goes, and whether the
//! history is drawn.

use vstd::prelude::*;
use vstd::string::*;
use crate::kind::SensorKind;

verus! {

/// Why a configuration is refused.
#[derive(Clone, Copy, Debug, PartialEq, Eq, Structural)]
pub enum ConfigError {
    /// The sampling interval of this sensor is zero seconds.
    ZeroInterval(SensorKind),
}

/// The sampling interval of each sensor, in whole seconds. Every interval is
/// at least one second.
#[derive(Clone, Copy, Debug, PartialEq, Eq, Structural)]
pub struct SensorConfig {
    temperature_sampling_rate: u64,
    humidity_sampling_rate: u64,
    light_sampling_rate: u64,
}

/// The first sensor, in the fixed order, whose interval is zero.
pub open spec fn first_zero_interval(temperature: u64, humidity: u64, light: u64) -> Option<
    SensorKind,
> {
    if temperature == 0 {
        Some(SensorKind::Temperature)
    } else if humidity == 0 {
        Some(SensorKind::Humidity)
    } else if light == 0 {
        Some(SensorKind::Light)
    } else {
        None
    }
}

impl SensorConfig {
    /// The sampling interval of `kind`, in seconds.
    pub closed spec fn interval(&self, kind: SensorKind) -> u64 {
        match kind {
            SensorKind::Temperature => self.temperature_sampling_rate,
            SensorKind::Humidity => self.humidity_sampling_rate,
            SensorKind::Light => self.light_sampling_rate,
        }
    }

    /// Every interval is at least one second.
    pub open spec fn wf(&self) -> bool {
        &&& self.interval(SensorKind::Temperature) >= 1
        &&& self.interval(SensorKind::Humidity) >= 1
        &&& self.interval(SensorKind::Light) >= 1
    }

    /// The configuration with the three intervals given, in seconds. It is
    /// refused where one of them is zero, with the first such sensor named.
    pub fn new(temperature: u64, humidity: u64, light: u64) -> (result: Result<
        SensorConfig,
        ConfigError,
    >)
        ensures
            match result {
                Ok(config) => {
                    &&& first_zero_interval(temperature, humidity, light) is None
                    &&& config.wf()
                    &&& config.interval(SensorKind::Temperature) == temperature
                    &&& config.interval(SensorKind::Humidity) == humidity
                    &&& config.interval(SensorKind::Light) == light
                },
                Err(ConfigError::ZeroInterval(kind)) => first_zero_interval(
                    temperature,
                    humidity,
                    light,
                ) == Some(kind),
            },
    {
        if temperature == 0 {
            Err(ConfigError::ZeroInterval(SensorKind::Temperature))
        } else if humidity == 0 {
            Err(ConfigError::ZeroInterval(SensorKind::Humidity))
        } else if light == 0 {
            Err(ConfigError::ZeroInterval(SensorKind::Light))
        } else {
            Ok(
                SensorConfig {
                    temperature_sampling_rate: temperature,
                    humidity_sampling_rate: humidity,
                    light_sampling_rate: light,
                },
            )
        }
    }

    /// The sampling interval of `kind`, in seconds.
    pub fn sampling_rate(&self, kind: SensorKind) -> (seconds: u64)
        ensures
            seconds == self.interval(kind),
    {
        match kind {
            SensorKind::Temperature => self.temperature_sampling_rate,
            SensorKind::Humidity => self.humidity_sampling_rate,
            SensorKind::Light => self.light_sampling_rate,
        }
    }

    /// Sets the sampling interval of `kind` and leaves the others. An
    /// interval of zero seconds is refused, and nothing changes.
    pub fn set_sampling_rate(&mut self, kind: SensorKind, seconds: u64) -> (result: Result<
        (),
        ConfigError,
    >)
        ensures
            seconds == 0 ==> result == Err::<(), ConfigError>(ConfigError::ZeroInterval(kind))
                && *final(self) == *old(self),
            seconds >= 1 ==> result is Ok && forall|other: SensorKind| #[trigger]
                final(self).interval(other) == if other == kind {
                    seconds
                } else {
                    old(self).interval(other)
                },
            old(self).wf() ==> final(self).wf(),
    {
        if seconds == 0 {
            return Err(ConfigError::ZeroInterval(kind));
        }
        match kind {
            SensorKind::Temperature => {
                self.temperature_sampling_rate = seconds;
            },
            SensorKind::Humidity => {
                self.humidity_sampling_rate = seconds;
            },
            SensorKind::Light => {
                self.light_sampling_rate = seconds;
            },
        }
        Ok(())
    }
}

/// The threshold of each sensor, in hundredths. A reading alerts where it is
/// strictly greater than the threshold of its kind.
#[derive(Clone, Copy, Debug, PartialEq, Eq, Structural)]
pub struct AlertConfig {
    pub temperature_threshold: i32,
    pub humidity_threshold: i32,
    pub light_threshold: i32,
}

impl AlertConfig {
    pub open spec fn spec_threshold(&self, kind: SensorKind) -> i32 {
        match kind {
            SensorKind::Temperature => self.temperature_threshold,
            SensorKind::Humidity => self.humidity_threshold,
            SensorKind::Light => self.light_threshold,
        }
    }

    /// The threshold of `kind`.
    #[verifier::when_used_as_spec(spec_threshold)]
    pub fn threshold(&self, kind: SensorKind) -> (bound: i32)
        ensures
            bound == self.spec_threshold(kind),
    {
        match kind {
            SensorKind::Temperature => self.temperature_threshold,
            SensorKind::Humidity => self.humidity_threshold,
            SensorKind::Light => self.light_threshold,
        }
    }

    /// Sets the threshold of `kind` and leaves the others.
    pub fn set_threshold(&mut self, kind: SensorKind, bound: i32)
        ensures
            forall|other: SensorKind| #[trigger]
                final(self).spec_threshold(other) == if other == kind {
                    bound
                } else {
                    old(self).spec_threshold(other)
                },
    {
        match kind {
            SensorKind::Temperature => {
                self.temperature_threshold = bound;
            },
            SensorKind::Humidity => {
                self.humidity_threshold = bound;
            },
            SensorKind::Light => {
                self.light_threshold = bound;
            },
        }
    }
}

/// Where the log is kept.
#[derive(Clone, Debug, PartialEq, Eq)]
pub struct StorageConfig {
    pub log_file_path: String,
}

/// How readings are shown.
#[derive(Clone, Copy, Debug, PartialEq, Eq, Structural)]
pub struct DisplayConfig {
    /// Whether the history is drawn as a bar graph after each reading.
    pub real_time_graph: bool,
}

/// The whole configuration of a node.
#[derive(Clone, Debug, PartialEq, Eq)]
pub struct Config {
    pub sensors: SensorConfig,
    pub storage: StorageConfig,
    pub display: DisplayConfig,
    pub alerts: AlertConfig,
}

} // verus!
