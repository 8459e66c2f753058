//! What a run gives out over a whole sequence of ticks.
//!
//! Which ticks give something out depends on the clock alone: the readings
//! enter the rolling window and steer nothing.

use vstd::prelude::*;
use crate::config::SensorConfig;
use crate::run::{RunPhase, RunView, TickPlan};
use crate::scheduler::MILLIS_PER_SECOND;
use crate::sensor::TickReadings;

verus! {

/// The times, among the ticks at `times` taken in their order, at which a
/// run in state `run` gives something out.
pub open spec fn emission_times(run: RunView, config: SensorConfig, times: Seq<u64>) -> Seq<u64>
    decreases times.len(),
{
    if times.len() == 0 {
        Seq::<u64>::empty()
    } else {
        let now = times.first();
        let rest = emission_times(run.after_poll(now, config), config, times.drop_first());
        if run.emits_at(now, config) {
            seq![now] + rest
        } else {
            rest
        }
    }
}

/// Two states agree in all but the rolling window.
pub open spec fn same_schedule(a: RunView, b: RunView) -> bool {
    &&& a.phase == b.phase
    &&& a.started_at == b.started_at
    &&& a.duration == b.duration
    &&& a.scheduler == b.scheduler
}

/// The rolling window steers nothing: two runs that agree in all but their
/// windows give something out at the same times.
pub proof fn lemma_window_steers_nothing(a: RunView, b: RunView, config: SensorConfig, times: Seq<u64>)
    requires
        same_schedule(a, b),
    ensures
        emission_times(a, config, times) == emission_times(b, config, times),
    decreases times.len(),
{
    if times.len() > 0 {
        let now = times.first();
        lemma_window_steers_nothing(
            a.after_poll(now, config),
            b.after_poll(now, config),
            config,
            times.drop_first(),
        );
    }
}

/// The readings that are handed to a run change its window and nothing
/// else: the plan of the next tick, and the times of all later emissions,
/// are the same with and without them.
pub proof fn lemma_readings_steer_nothing(
    run: RunView,
    readings: TickReadings,
    config: SensorConfig,
    times: Seq<u64>,
)
    ensures
        same_schedule(run.after_record(readings), run),
        forall|now: u64| #[trigger]
            run.after_record(readings).plan(now, config) == run.plan(now, config),
        emission_times(run.after_record(readings), config, times) == emission_times(
            run,
            config,
            times,
        ),
{
    lemma_window_steers_nothing(run.after_record(readings), run, config, times);
}

/// A tick in which not all three sensors are due gives nothing out: the
/// readings of the sensors that fired are dropped, and the rolling window
/// stays as it was.
pub proof fn lemma_partial_tick_emits_nothing(
    run: RunView,
    config: SensorConfig,
    now: u64,
    readings: TickReadings,
)
    requires
        run.plan(now, config) matches TickPlan::Sample(due) && !due.spec_is_complete()
            && readings.taken_for(due),
    ensures
        !run.emits_at(now, config),
        !run.after_poll(now, config).accepts(readings),
        run.after_poll(now, config).after_record(readings) == run.after_poll(now, config),
{
    assert(readings.spec_value(crate::kind::SensorKind::Temperature) == readings.temperature);
    assert(readings.spec_value(crate::kind::SensorKind::Humidity) == readings.humidity);
    assert(readings.spec_value(crate::kind::SensorKind::Light) == readings.light);
}

/// A run that is not running gives nothing out, whatever the ticks.
pub proof fn lemma_stopped_run_is_silent(run: RunView, config: SensorConfig, times: Seq<u64>)
    requires
        run.phase != RunPhase::Running,
    ensures
        emission_times(run, config, times) == Seq::<u64>::empty(),
    decreases times.len(),
{
    if times.len() > 0 {
        lemma_stopped_run_is_silent(
            run.after_poll(times.first(), config),
            config,
            times.drop_first(),
        );
    }
}

/// Every emission of a run lies before the end of the run, and the one at
/// position `i` lies at least `i + 1` seconds after the temperature sensor
/// last fired.
pub proof fn lemma_emissions_are_spaced(run: RunView, config: SensorConfig, times: Seq<u64>)
    requires
        config.wf(),
    ensures
        forall|i: int|
            0 <= i < emission_times(run, config, times).len() ==> {
                &&& (#[trigger] emission_times(run, config, times)[i])
                    >= run.scheduler.last_temperature + (i + 1) * MILLIS_PER_SECOND
                &&& emission_times(run, config, times)[i] - run.started_at < run.duration
                    * MILLIS_PER_SECOND
            },
    decreases times.len(),
{
    if times.len() > 0 {
        let now = times.first();
        let next = run.after_poll(now, config);
        let rest = emission_times(next, config, times.drop_first());
        let all = emission_times(run, config, times);
        lemma_emissions_are_spaced(next, config, times.drop_first());
        if run.phase != RunPhase::Running {
            lemma_stopped_run_is_silent(run, config, times);
        } else if run.has_elapsed(now) {
            lemma_stopped_run_is_silent(next, config, times.drop_first());
        } else {
            assert(next.scheduler.last_temperature >= run.scheduler.last_temperature);
            assert(next.started_at == run.started_at && next.duration == run.duration);
            if run.emits_at(now, config) {
                assert(now >= run.scheduler.last_temperature + MILLIS_PER_SECOND);
                assert(next.scheduler.last_temperature == now);
                assert forall|i: int| 0 <= i < all.len() implies {
                    &&& (#[trigger] all[i]) >= run.scheduler.last_temperature + (i + 1)
                        * MILLIS_PER_SECOND
                    &&& all[i] - run.started_at < run.duration * MILLIS_PER_SECOND
                } by {
                    if i > 0 {
                        assert(all[i] == rest[i - 1]);
                    }
                }
            } else {
                assert(all == rest);
            }
        }
    }
}

/// The emissions of a run come at strictly increasing times, each at least
/// one second after the one before.
pub proof fn lemma_emission_times_increase(run: RunView, config: SensorConfig, times: Seq<u64>)
    requires
        config.wf(),
    ensures
        forall|i: int|
            0 <= i && i + 1 < emission_times(run, config, times).len() ==> (
            #[trigger] emission_times(run, config, times)[i]) + MILLIS_PER_SECOND
                <= emission_times(run, config, times)[i + 1],
    decreases times.len(),
{
    if times.len() > 0 {
        let now = times.first();
        let next = run.after_poll(now, config);
        let rest = emission_times(next, config, times.drop_first());
        let all = emission_times(run, config, times);
        lemma_emission_times_increase(next, config, times.drop_first());
        if run.emits_at(now, config) {
            lemma_emissions_are_spaced(next, config, times.drop_first());
            assert(next.scheduler.last_temperature == now);
            assert forall|i: int| 0 <= i && i + 1 < all.len() implies (#[trigger] all[i])
                + MILLIS_PER_SECOND <= all[i + 1] by {
                assert(all[i + 1] == rest[i]);
                if i > 0 {
                    assert(all[i] == rest[i - 1]);
                } else {
                    assert(rest[0] >= now + MILLIS_PER_SECOND);
                }
            }
        } else {
            assert(all == rest);
        }
    }
}

/// A run gives out at most as many combined readings as it lasts seconds,
/// however often and whenever it is ticked.
pub proof fn lemma_emissions_bounded_by_duration(run: RunView, config: SensorConfig, times: Seq<u64>)
    requires
        config.wf(),
        run.wf(),
    ensures
        emission_times(run, config, times).len() <= run.duration,
{
    let all = emission_times(run, config, times);
    if run.phase != RunPhase::Running {
        lemma_stopped_run_is_silent(run, config, times);
    } else if all.len() > 0 {
        lemma_emissions_are_spaced(run, config, times);
        let last = all.len() - 1;
        assert(all[last] >= run.scheduler.last_temperature + (last + 1) * MILLIS_PER_SECOND);
        assert(all[last] - run.started_at < run.duration * MILLIS_PER_SECOND);
    }
}

} // verus!
