//! One run of the simulation, as a state machine: idle, then running, then
//! completed. The caller owns the clock and the pause between ticks; the run
//! decides what each tick does.
//!
//! A tick gives something out only where all three sensors are due in it.
//! A tick in which fewer are due still fires those, and drops their
//! readings.

use vstd::prelude::*;
use crate::alerts::check_alerts;
use crate::config::{Config, SensorConfig};
use crate::emission::Emission;
use crate::kind::SensorKind;
use crate::scheduler::{due_at, DueSet, SchedulerState, MILLIS_PER_SECOND};
use crate::sensor::{TickReadings, VirtualSensor};
use crate::stats::calculate_statistics;
use crate::window::{most_recent, RollingWindow, WINDOW_CAPACITY};

verus! {

/// Where a run stands.
#[derive(Clone, Copy, Debug, PartialEq, Eq, Structural)]
pub enum RunPhase {
    /// Not started yet.
    Idle,
    /// Started, and its duration has not been seen to have passed.
    Running,
    /// Over. No tick does anything any more.
    Completed,
}

/// What a tick is to do, decided before any sensor is read.
#[derive(Clone, Copy, Debug, PartialEq, Eq, Structural)]
pub enum TickPlan {
    /// The run has not been started.
    Idle,
    /// The run is over, or this tick found its duration passed.
    Completed,
    /// The run goes on: these sensors fire in this tick.
    Sample(DueSet),
}

/// What a tick did.
#[derive(Clone, Debug, PartialEq, Eq)]
pub enum TickOutcome {
    /// The run has not been started.
    Idle,
    /// The run is over, or this tick found its duration passed.
    Completed,
    /// Fewer than all three sensors were due. Those that were have fired;
    /// nothing is given out.
    Skipped(DueSet),
    /// All three sensors fired.
    Emitted(Emission),
}

/// The state of a run as contracts see it.
pub struct RunView {
    pub phase: RunPhase,
    /// When the run was started, in milliseconds.
    pub started_at: u64,
    /// How long the run lasts, in seconds.
    pub duration: u64,
    pub scheduler: SchedulerState,
    /// The temperatures in the rolling window, oldest first.
    pub window: Seq<i32>,
}

impl RunView {
    /// The rolling window is within its capacity, and a run that was started
    /// has no sensor marked as fired before its start.
    pub open spec fn wf(self) -> bool {
        &&& self.window.len() <= WINDOW_CAPACITY
        &&& self.phase != RunPhase::Idle ==> {
            &&& self.started_at <= self.scheduler.last_temperature
            &&& self.started_at <= self.scheduler.last_humidity
            &&& self.started_at <= self.scheduler.last_light
        }
    }

    /// The duration of the run has passed at `now`.
    pub open spec fn has_elapsed(self, now: u64) -> bool {
        now - self.started_at >= self.duration * MILLIS_PER_SECOND
    }

    /// The run after it was started at `now`: an idle run begins to run,
    /// with every sensor counted as fired at `now`; any other is left as it
    /// is.
    pub open spec fn after_start(self, now: u64) -> RunView {
        if self.phase == RunPhase::Idle {
            RunView {
                phase: RunPhase::Running,
                started_at: now,
                scheduler: SchedulerState {
                    last_temperature: now,
                    last_humidity: now,
                    last_light: now,
                },
                ..self
            }
        } else {
            self
        }
    }

    /// What a tick at `now` is to do.
    pub open spec fn plan(self, now: u64, config: SensorConfig) -> TickPlan {
        match self.phase {
            RunPhase::Idle => TickPlan::Idle,
            RunPhase::Completed => TickPlan::Completed,
            RunPhase::Running => if self.has_elapsed(now) {
                TickPlan::Completed
            } else {
                TickPlan::Sample(self.scheduler.due_set(now, config))
            },
        }
    }

    /// The run after the plan of a tick at `now` was made: a run whose
    /// duration has passed is completed; one that goes on has fired the
    /// sensors that were due.
    pub open spec fn after_poll(self, now: u64, config: SensorConfig) -> RunView {
        match self.plan(now, config) {
            TickPlan::Idle => self,
            TickPlan::Completed => RunView { phase: RunPhase::Completed, ..self },
            TickPlan::Sample(_) => RunView {
                scheduler: self.scheduler.after_tick(now, config),
                ..self
            },
        }
    }

    /// The readings of a tick are taken up: the run is running and all
    /// three sensors were read.
    pub open spec fn accepts(self, readings: TickReadings) -> bool {
        self.phase == RunPhase::Running && readings.spec_is_complete()
    }

    /// The run after the readings of a tick were handed to it: where they
    /// are taken up, the temperature has entered the rolling window;
    /// otherwise nothing has changed.
    pub open spec fn after_record(self, readings: TickReadings) -> RunView {
        if self.accepts(readings) {
            RunView {
                window: most_recent(
                    self.window.push(readings.temperature->Some_0),
                    WINDOW_CAPACITY as nat,
                ),
                ..self
            }
        } else {
            self
        }
    }

    /// A tick at `now` gives something out: the run goes on and all three
    /// sensors are due.
    pub open spec fn emits_at(self, now: u64, config: SensorConfig) -> bool {
        match self.plan(now, config) {
            TickPlan::Sample(due) => due.spec_is_complete(),
            _ => false,
        }
    }
}

/// One run of the simulation. It owns the scheduler's state and the rolling
/// window of temperatures; both end with it.
#[derive(Clone, Debug)]
pub struct SimulationRun {
    phase: RunPhase,
    started_at: u64,
    duration: u64,
    scheduler: SchedulerState,
    window: RollingWindow,
}

impl View for SimulationRun {
    type V = RunView;

    closed spec fn view(&self) -> RunView {
        RunView {
            phase: self.phase,
            started_at: self.started_at,
            duration: self.duration,
            scheduler: self.scheduler,
            window: self.window@,
        }
    }
}

impl SimulationRun {
    pub open spec fn wf(&self) -> bool {
        self@.wf()
    }

    /// A run of `duration` seconds that has not been started.
    pub fn new(duration: u64) -> (run: SimulationRun)
        ensures
            run.wf(),
            run@ == (RunView {
                phase: RunPhase::Idle,
                started_at: 0,
                duration,
                scheduler: SchedulerState { last_temperature: 0, last_humidity: 0, last_light: 0 },
                window: Seq::<i32>::empty(),
            }),
    {
        SimulationRun {
            phase: RunPhase::Idle,
            started_at: 0,
            duration,
            scheduler: SchedulerState::new(0),
            window: RollingWindow::new(),
        }
    }

    /// Starts an idle run at `now`, and says whether it did. A run that was
    /// started before is left as it is.
    pub fn start(&mut self, now: u64) -> (started: bool)
        requires
            old(self).wf(),
        ensures
            final(self).wf(),
            started == (old(self)@.phase == RunPhase::Idle),
            final(self)@ == old(self)@.after_start(now),
    {
        match self.phase {
            RunPhase::Idle => {
                self.phase = RunPhase::Running;
                self.started_at = now;
                self.scheduler = SchedulerState::new(now);
                true
            },
            _ => false,
        }
    }

    pub fn phase(&self) -> (phase: RunPhase)
        ensures
            phase == self@.phase,
    {
        self.phase
    }

    /// When the run was started, in milliseconds.
    pub fn started_at(&self) -> (at: u64)
        ensures
            at == self@.started_at,
    {
        self.started_at
    }

    /// How long the run lasts, in seconds.
    pub fn duration(&self) -> (seconds: u64)
        ensures
            seconds == self@.duration,
    {
        self.duration
    }

    pub fn scheduler(&self) -> (state: SchedulerState)
        ensures
            state == self@.scheduler,
    {
        self.scheduler
    }

    /// The temperatures in the rolling window, oldest first.
    pub fn history(&self) -> (values: Vec<i32>)
        ensures
            values@ == self@.window,
    {
        self.window.snapshot()
    }

    /// Plans a tick at `now`. A running run whose duration has passed is
    /// completed, for good. One that goes on lets the scheduler decide
    /// which sensors are due, and those fire at once.
    pub fn poll(&mut self, now: u64, config: &SensorConfig) -> (plan: TickPlan)
        requires
            old(self).wf(),
        ensures
            final(self).wf(),
            plan == old(self)@.plan(now, *config),
            final(self)@ == old(self)@.after_poll(now, *config),
    {
        match self.phase {
            RunPhase::Idle => TickPlan::Idle,
            RunPhase::Completed => TickPlan::Completed,
            RunPhase::Running => {
                if due_at(now, self.started_at, self.duration) {
                    self.phase = RunPhase::Completed;
                    TickPlan::Completed
                } else {
                    let due = self.scheduler.tick(now, config);
                    TickPlan::Sample(due)
                }
            },
        }
    }

    /// Takes the readings of the tick at `now`. Where the run is running
    /// and all three sensors were read, the temperature enters the rolling
    /// window, and the readings are given out together with the window, its
    /// statistics and the alerts. Otherwise the readings are dropped and
    /// nothing changes.
    pub fn record(&mut self, now: u64, readings: &TickReadings, config: &Config) -> (emitted: Option<
        Emission,
    >)
        requires
            old(self).wf(),
        ensures
            final(self).wf(),
            final(self)@ == old(self)@.after_record(*readings),
            match emitted {
                Some(emission) => old(self)@.accepts(*readings) && emission.describes(
                    now,
                    *readings,
                    final(self)@.window,
                    config.alerts,
                ),
                None => !old(self)@.accepts(*readings),
            },
    {
        match (self.phase, readings.temperature, readings.humidity, readings.light) {
            (RunPhase::Running, Some(temperature), Some(humidity), Some(light)) => {
                self.window.push(temperature);
                let history = self.window.snapshot();
                let alerts = check_alerts(readings, &config.alerts);
                match calculate_statistics(history.as_slice()) {
                    Ok(statistics) => Some(
                        Emission {
                            timestamp: now,
                            temperature,
                            humidity,
                            light,
                            history,
                            statistics,
                            alerts,
                        },
                    ),
                    Err(_) => vstd::pervasive::unreached(),
                }
            },
            _ => None,
        }
    }

    /// One whole tick at `now`: plans it, reads the sensors that are due
    /// from `sensor`, and takes the readings.
    pub fn tick(&mut self, now: u64, config: &Config, sensor: &VirtualSensor) -> (outcome:
        TickOutcome)
        requires
            old(self).wf(),
        ensures
            final(self).wf(),
            match outcome {
                TickOutcome::Idle => {
                    &&& old(self)@.plan(now, config.sensors) == TickPlan::Idle
                    &&& final(self)@ == old(self)@
                },
                TickOutcome::Completed => {
                    &&& old(self)@.plan(now, config.sensors) == TickPlan::Completed
                    &&& final(self)@ == old(self)@.after_poll(now, config.sensors)
                },
                TickOutcome::Skipped(due) => {
                    &&& old(self)@.plan(now, config.sensors) == TickPlan::Sample(due)
                    &&& !due.spec_is_complete()
                    &&& final(self)@ == old(self)@.after_poll(now, config.sensors)
                },
                TickOutcome::Emitted(emission) => {
                    &&& old(self)@.emits_at(now, config.sensors)
                    &&& emission.readings().taken_for(
                        old(self)@.scheduler.due_set(now, config.sensors),
                    )
                    &&& final(self)@ == old(self)@.after_poll(now, config.sensors).after_record(
                        emission.readings(),
                    )
                    &&& emission.describes(
                        now,
                        emission.readings(),
                        final(self)@.window,
                        config.alerts,
                    )
                },
            },
    {
        match self.poll(now, &config.sensors) {
            TickPlan::Idle => TickOutcome::Idle,
            TickPlan::Completed => TickOutcome::Completed,
            TickPlan::Sample(due) => {
                let readings = sensor.read_due(due);
                proof {
                    assert(readings.spec_value(SensorKind::Temperature) == readings.temperature);
                    assert(readings.spec_value(SensorKind::Humidity) == readings.humidity);
                    assert(readings.spec_value(SensorKind::Light) == readings.light);
                }
                match self.record(now, &readings, config) {
                    Some(emission) => TickOutcome::Emitted(emission),
                    None => TickOutcome::Skipped(due),
                }
            },
        }
    }
}

} // verus!
