use sensor_node::config::SensorConfig;
use sensor_node::kind::SensorKind;
use sensor_node::scheduler::{due_at, DueSet, SchedulerState};

#[test]
fn sensor_is_due_once_its_interval_has_passed() {
    assert!(!due_at(0, 0, 1));
    assert!(!due_at(999, 0, 1));
    assert!(due_at(1000, 0, 1));
    assert!(due_at(1001, 0, 1));
    assert!(!due_at(4999, 2000, 3));
    assert!(due_at(5000, 2000, 3));
}

#[test]
fn time_before_the_last_firing_is_never_due() {
    assert!(!due_at(10, 5000, 1));
    assert!(!due_at(0, u64::MAX, 1));
}

#[test]
fn huge_interval_does_not_wrap() {
    assert!(!due_at(u64::MAX, 0, u64::MAX));
    assert!(due_at(u64::MAX, 0, u64::MAX / 1000));
    assert!(!due_at(u64::MAX, 0, u64::MAX / 1000 + 1));
}

#[test]
fn new_state_counts_every_sensor_as_fired_at_the_start() {
    let state = SchedulerState::new(700);
    assert_eq!(state.last_fire(SensorKind::Temperature), 700);
    assert_eq!(state.last_fire(SensorKind::Humidity), 700);
    assert_eq!(state.last_fire(SensorKind::Light), 700);
}

#[test]
fn nothing_fires_at_the_start() {
    let config = SensorConfig::new(1, 1, 1).unwrap();
    let mut state = SchedulerState::new(0);
    let due = state.tick(0, &config);
    assert_eq!(due, DueSet { temperature: false, humidity: false, light: false });
    assert_eq!(due.count(), 0);
    assert_eq!(state, SchedulerState::new(0));
}

#[test]
fn each_sensor_is_judged_by_itself() {
    let config = SensorConfig::new(1, 2, 3).unwrap();
    let mut state = SchedulerState::new(0);

    let due = state.tick(1000, &config);
    assert_eq!(due, DueSet { temperature: true, humidity: false, light: false });
    assert_eq!(due.count(), 1);
    assert!(due.contains(SensorKind::Temperature));
    assert!(!due.contains(SensorKind::Humidity));
    assert!(!due.is_complete());

    let due = state.tick(2000, &config);
    assert_eq!(due, DueSet { temperature: true, humidity: true, light: false });
    assert_eq!(due.count(), 2);

    let due = state.tick(3000, &config);
    assert_eq!(due, DueSet { temperature: true, humidity: false, light: true });

    let due = state.tick(6000, &config);
    assert_eq!(due, DueSet { temperature: true, humidity: true, light: true });
    assert_eq!(due.count(), 3);
    assert!(due.is_complete());
}

#[test]
fn firing_moves_the_last_firing_of_due_sensors_only() {
    let config = SensorConfig::new(1, 5, 5).unwrap();
    let mut state = SchedulerState::new(100);
    state.tick(1100, &config);
    assert_eq!(state.last_fire(SensorKind::Temperature), 1100);
    assert_eq!(state.last_fire(SensorKind::Humidity), 100);
    assert_eq!(state.last_fire(SensorKind::Light), 100);
}

#[test]
fn fired_sensor_is_not_due_again_before_a_full_interval() {
    let config = SensorConfig::new(2, 2, 2).unwrap();
    let mut state = SchedulerState::new(0);
    assert!(state.tick(2500, &config).temperature);
    assert!(!state.tick(2500, &config).temperature);
    assert!(!state.tick(4499, &config).temperature);
    assert!(state.tick(4500, &config).temperature);
}
