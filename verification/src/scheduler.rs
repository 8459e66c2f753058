//! The sampling scheduler: it remembers when each sensor last fired and
//! decides, at each tick, which sensors are due.
//!
//! A run starts with every sensor marked as fired at the start time, so that
//! a sensor first fires one full interval after the start, not at the start.

use vstd::prelude::*;
use crate::config::SensorConfig;
use crate::kind::SensorKind;

verus! {

/// The number of clock units, milliseconds, in one second.
pub const MILLIS_PER_SECOND: u64 = 1000;

/// Whether a sensor that last fired at `last_fire` and is sampled every
/// `interval` seconds is due at `now`: the time that has passed since it
/// fired is at least its interval. Both times are in milliseconds. A `now`
/// that lies before `last_fire` is never due.
pub open spec fn is_due(now: u64, last_fire: u64, interval: u64) -> bool {
    now - last_fire >= interval * MILLIS_PER_SECOND
}

/// Decides `is_due` without leaving the range of the machine's integers.
pub fn due_at(now: u64, last_fire: u64, interval: u64) -> (due: bool)
    ensures
        due == is_due(now, last_fire, interval),
{
    now >= last_fire && (now - last_fire) / MILLIS_PER_SECOND >= interval
}

/// The sensors that are due in one tick.
#[derive(Clone, Copy, Debug, PartialEq, Eq, Structural)]
pub struct DueSet {
    pub temperature: bool,
    pub humidity: bool,
    pub light: bool,
}

impl DueSet {
    pub open spec fn spec_contains(&self, kind: SensorKind) -> bool {
        match kind {
            SensorKind::Temperature => self.temperature,
            SensorKind::Humidity => self.humidity,
            SensorKind::Light => self.light,
        }
    }

    pub open spec fn spec_is_complete(&self) -> bool {
        self.temperature && self.humidity && self.light
    }

    pub open spec fn spec_count(&self) -> usize {
        let t: usize = if self.temperature {
            1
        } else {
            0
        };
        let h: usize = if self.humidity {
            1
        } else {
            0
        };
        let l: usize = if self.light {
            1
        } else {
            0
        };
        (t + h + l) as usize
    }

    /// Whether `kind` is due.
    #[verifier::when_used_as_spec(spec_contains)]
    pub fn contains(&self, kind: SensorKind) -> (due: bool)
        ensures
            due == self.spec_contains(kind),
    {
        match kind {
            SensorKind::Temperature => self.temperature,
            SensorKind::Humidity => self.humidity,
            SensorKind::Light => self.light,
        }
    }

    /// Whether all three sensors are due.
    #[verifier::when_used_as_spec(spec_is_complete)]
    pub fn is_complete(&self) -> (complete: bool)
        ensures
            complete == self.spec_is_complete(),
    {
        self.temperature && self.humidity && self.light
    }

    /// How many sensors are due: none, one, two or three.
    #[verifier::when_used_as_spec(spec_count)]
    pub fn count(&self) -> (due: usize)
        ensures
            due == self.spec_count(),
            due <= 3,
    {
        let mut due: usize = 0;
        if self.temperature {
            due = due + 1;
        }
        if self.humidity {
            due = due + 1;
        }
        if self.light {
            due = due + 1;
        }
        due
    }
}

/// When each sensor last fired, in milliseconds.
#[derive(Clone, Copy, Debug, PartialEq, Eq, Structural)]
pub struct SchedulerState {
    pub last_temperature: u64,
    pub last_humidity: u64,
    pub last_light: u64,
}

impl SchedulerState {
    pub open spec fn spec_last_fire(&self, kind: SensorKind) -> u64 {
        match kind {
            SensorKind::Temperature => self.last_temperature,
            SensorKind::Humidity => self.last_humidity,
            SensorKind::Light => self.last_light,
        }
    }

    /// The sensors that are due at `now`: each one whose interval has passed
    /// since it last fired.
    pub open spec fn due_set(&self, now: u64, config: SensorConfig) -> DueSet {
        DueSet {
            temperature: is_due(
                now,
                self.last_temperature,
                config.interval(SensorKind::Temperature),
            ),
            humidity: is_due(now, self.last_humidity, config.interval(SensorKind::Humidity)),
            light: is_due(now, self.last_light, config.interval(SensorKind::Light)),
        }
    }

    /// The state after a tick at `now`: the sensors that were due have fired
    /// at `now`, the others keep their last firing.
    pub open spec fn after_tick(&self, now: u64, config: SensorConfig) -> SchedulerState {
        let due = self.due_set(now, config);
        SchedulerState {
            last_temperature: if due.temperature {
                now
            } else {
                self.last_temperature
            },
            last_humidity: if due.humidity {
                now
            } else {
                self.last_humidity
            },
            last_light: if due.light {
                now
            } else {
                self.last_light
            },
        }
    }

    /// The state at the start of a run: every sensor counts as fired at
    /// `now`.
    pub fn new(now: u64) -> (state: SchedulerState)
        ensures
            state == (SchedulerState { last_temperature: now, last_humidity: now, last_light: now }),
    {
        SchedulerState { last_temperature: now, last_humidity: now, last_light: now }
    }

    /// When `kind` last fired.
    #[verifier::when_used_as_spec(spec_last_fire)]
    pub fn last_fire(&self, kind: SensorKind) -> (at: u64)
        ensures
            at == self.spec_last_fire(kind),
    {
        match kind {
            SensorKind::Temperature => self.last_temperature,
            SensorKind::Humidity => self.last_humidity,
            SensorKind::Light => self.last_light,
        }
    }

    /// One tick of the scheduler at time `now`. Each sensor is judged by
    /// itself: it is due where its interval has passed since it last fired.
    /// A sensor that is due fires: its last firing becomes `now`, whatever
    /// is done with its reading afterwards. The others keep theirs.
    pub fn tick(&mut self, now: u64, config: &SensorConfig) -> (due: DueSet)
        ensures
            due == old(self).due_set(now, *config),
            *final(self) == old(self).after_tick(now, *config),
    {
        let temperature = due_at(
            now,
            self.last_temperature,
            config.sampling_rate(SensorKind::Temperature),
        );
        if temperature {
            self.last_temperature = now;
        }
        let humidity = due_at(now, self.last_humidity, config.sampling_rate(SensorKind::Humidity));
        if humidity {
            self.last_humidity = now;
        }
        let light = due_at(now, self.last_light, config.sampling_rate(SensorKind::Light));
        if light {
            self.last_light = now;
        }
        DueSet { temperature, humidity, light }
    }
}

/// A sensor is due at a tick exactly where the time since it last fired is
/// at least its interval, and a tick moves the last firing of exactly the
/// sensors that are due.
pub proof fn lemma_due_iff_interval_elapsed(
    state: SchedulerState,
    config: SensorConfig,
    kind: SensorKind,
    now: u64,
)
    ensures
        state.due_set(now, config).spec_contains(kind) <==> now - state.spec_last_fire(kind)
            >= config.interval(kind) * MILLIS_PER_SECOND,
        state.after_tick(now, config).spec_last_fire(kind) == if state.due_set(
            now,
            config,
        ).spec_contains(kind) {
            now
        } else {
            state.spec_last_fire(kind)
        },
{
}

/// Once a sensor is due it stays due for as long as it has not fired.
pub proof fn lemma_due_is_monotonic(earlier: u64, later: u64, last_fire: u64, interval: u64)
    requires
        earlier <= later,
        is_due(earlier, last_fire, interval),
    ensures
        is_due(later, last_fire, interval),
{
}

/// A sensor that fires in a tick at `fired` is not due again until a full
/// interval has passed since that tick, and is due from then on; with an
/// interval of at least one second it is not due at `fired` itself.
pub proof fn lemma_fired_sensor_waits_full_interval(
    state: SchedulerState,
    config: SensorConfig,
    kind: SensorKind,
    fired: u64,
    now: u64,
)
    requires
        state.due_set(fired, config).spec_contains(kind),
    ensures
        state.after_tick(fired, config).due_set(now, config).spec_contains(kind) <==> now - fired
            >= config.interval(kind) * MILLIS_PER_SECOND,
        config.interval(kind) >= 1 ==> !state.after_tick(fired, config).due_set(
            fired,
            config,
        ).spec_contains(kind),
{
}

} // verus!
