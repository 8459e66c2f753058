use sensor_node::alerts::AlertEvent;
use sensor_node::config::{AlertConfig, Config, DisplayConfig, SensorConfig, StorageConfig};
use sensor_node::display::ConsoleDisplay;
use sensor_node::emission::{Emission, Output, Sink};
use sensor_node::kind::SensorKind;
use sensor_node::run::{RunPhase, SimulationRun, TickOutcome, TickPlan};
use sensor_node::scheduler::{DueSet, SchedulerState};
use sensor_node::sensor::{TickReadings, VirtualSensor};
use sensor_node::stats::Statistics;

fn config(temperature: u64, humidity: u64, light: u64) -> Config {
    Config {
        sensors: SensorConfig::new(temperature, humidity, light).unwrap(),
        storage: StorageConfig { log_file_path: "sensor_log.txt".to_string() },
        display: DisplayConfig { real_time_graph: true },
        alerts: AlertConfig { temperature_threshold: 2800, humidity_threshold: 6000, light_threshold: 8000 },
    }
}

fn all(temperature: i32, humidity: i32, light: i32) -> TickReadings {
    TickReadings { temperature: Some(temperature), humidity: Some(humidity), light: Some(light) }
}

fn show(text: &str) -> Output {
    Output { sink: Sink::Display, text: text.to_string() }
}

#[test]
fn new_run_is_idle() {
    let run = SimulationRun::new(15);
    assert_eq!(run.phase(), RunPhase::Idle);
    assert_eq!(run.duration(), 15);
    assert_eq!(run.history(), Vec::<i32>::new());
}

#[test]
fn idle_run_does_nothing() {
    let config = config(1, 1, 1);
    let mut run = SimulationRun::new(15);
    assert_eq!(run.poll(5000, &config.sensors), TickPlan::Idle);
    assert_eq!(run.record(5000, &all(2500, 4000, 5000), &config), None);
    assert_eq!(run.tick(5000, &config, &VirtualSensor::new()), TickOutcome::Idle);
    assert_eq!(run.phase(), RunPhase::Idle);
    assert_eq!(run.history(), Vec::<i32>::new());
}

#[test]
fn start_begins_an_idle_run_only() {
    let mut run = SimulationRun::new(15);
    assert!(run.start(400));
    assert_eq!(run.phase(), RunPhase::Running);
    assert_eq!(run.started_at(), 400);
    assert_eq!(run.scheduler(), SchedulerState::new(400));
    assert!(!run.start(900));
    assert_eq!(run.started_at(), 400);
    assert_eq!(run.scheduler(), SchedulerState::new(400));
}

#[test]
fn run_completes_when_its_duration_has_passed() {
    let config = config(1, 1, 1);
    let mut run = SimulationRun::new(15);
    run.start(1000);
    assert_eq!(run.poll(15999, &config.sensors), TickPlan::Sample(DueSet { temperature: true, humidity: true, light: true }));
    assert_eq!(run.phase(), RunPhase::Running);
    assert_eq!(run.poll(16000, &config.sensors), TickPlan::Completed);
    assert_eq!(run.phase(), RunPhase::Completed);
}

#[test]
fn completed_run_stays_completed() {
    let config = config(1, 1, 1);
    let mut run = SimulationRun::new(2);
    run.start(0);
    assert_eq!(run.poll(2000, &config.sensors), TickPlan::Completed);
    assert_eq!(run.poll(100, &config.sensors), TickPlan::Completed);
    assert_eq!(run.record(100, &all(2500, 4000, 5000), &config), None);
    assert_eq!(run.tick(100, &config, &VirtualSensor::new()), TickOutcome::Completed);
    assert!(!run.start(0));
    assert_eq!(run.phase(), RunPhase::Completed);
    assert_eq!(run.history(), Vec::<i32>::new());
}

#[test]
fn run_of_no_seconds_completes_at_once() {
    let config = config(1, 1, 1);
    let mut run = SimulationRun::new(0);
    run.start(50);
    assert_eq!(run.tick(50, &config, &VirtualSensor::new()), TickOutcome::Completed);
}

#[test]
fn combined_tick_gives_out_readings_statistics_and_alerts() {
    let config = config(1, 1, 1);
    let mut run = SimulationRun::new(15);
    run.start(0);
    assert_eq!(
        run.poll(1000, &config.sensors),
        TickPlan::Sample(DueSet { temperature: true, humidity: true, light: true })
    );
    let first = run.record(1000, &all(2000, 4000, 5000), &config).unwrap();
    assert_eq!(
        first,
        Emission {
            timestamp: 1000,
            temperature: 2000,
            humidity: 4000,
            light: 5000,
            history: vec![2000],
            statistics: Statistics { average: 2000, min: 2000, max: 2000 },
            alerts: vec![],
        }
    );
    run.poll(2000, &config.sensors);
    run.record(2000, &all(2500, 4000, 5000), &config).unwrap();
    run.poll(3000, &config.sensors);
    let third = run.record(3000, &all(3000, 6001, 8000), &config).unwrap();
    assert_eq!(third.history, vec![2000, 2500, 3000]);
    assert_eq!(third.statistics, Statistics { average: 2500, min: 2000, max: 3000 });
    assert_eq!(
        third.alerts,
        vec![
            AlertEvent {
                kind: SensorKind::Temperature,
                value: 3000,
                message: "Temperature exceeded threshold: 30.00°C".to_string(),
            },
            AlertEvent {
                kind: SensorKind::Humidity,
                value: 6001,
                message: "Humidity exceeded threshold: 60.01%".to_string(),
            },
        ]
    );
    assert_eq!(run.history(), vec![2000, 2500, 3000]);
}

#[test]
fn partial_tick_gives_nothing_out() {
    let config = config(1, 1, 2);
    let mut run = SimulationRun::new(15);
    run.start(0);
    let plan = run.poll(1000, &config.sensors);
    assert_eq!(plan, TickPlan::Sample(DueSet { temperature: true, humidity: true, light: false }));
    let readings = TickReadings { temperature: Some(2950), humidity: Some(6900), light: None };
    assert_eq!(run.record(1000, &readings, &config), None);
    assert_eq!(run.history(), Vec::<i32>::new());
    assert_eq!(run.scheduler().last_fire(SensorKind::Temperature), 1000);
    assert_eq!(run.scheduler().last_fire(SensorKind::Humidity), 1000);
    assert_eq!(run.scheduler().last_fire(SensorKind::Light), 0);
}

#[test]
fn partial_tick_with_the_virtual_sensor_is_skipped() {
    let config = config(1, 1, 2);
    let mut run = SimulationRun::new(15);
    run.start(0);
    assert_eq!(
        run.tick(1000, &config, &VirtualSensor::new()),
        TickOutcome::Skipped(DueSet { temperature: true, humidity: true, light: false })
    );
    assert_eq!(run.history(), Vec::<i32>::new());
    match run.tick(2000, &config, &VirtualSensor::new()) {
        TickOutcome::Emitted(emission) => assert_eq!(emission.timestamp, 2000),
        other => panic!("unexpected outcome: {:?}", other),
    }
}

#[test]
fn tick_before_any_interval_has_passed_is_skipped() {
    let config = config(1, 1, 1);
    let mut run = SimulationRun::new(15);
    run.start(0);
    assert_eq!(
        run.tick(0, &config, &VirtualSensor::new()),
        TickOutcome::Skipped(DueSet { temperature: false, humidity: false, light: false })
    );
    assert_eq!(
        run.tick(999, &config, &VirtualSensor::new()),
        TickOutcome::Skipped(DueSet { temperature: false, humidity: false, light: false })
    );
}

#[test]
fn end_to_end_run_of_fifteen_seconds() {
    let config = config(1, 1, 1);
    let sensor = VirtualSensor::new();
    let mut run = SimulationRun::new(15);
    run.start(0);
    let mut emissions: Vec<Emission> = Vec::new();
    let mut now = 0;
    loop {
        match run.tick(now, &config, &sensor) {
            TickOutcome::Completed => break,
            TickOutcome::Emitted(emission) => emissions.push(emission),
            TickOutcome::Skipped(_) => {}
            TickOutcome::Idle => panic!("the run was started"),
        }
        now += 1000;
    }
    assert_eq!(now, 15000);
    assert_eq!(emissions.len(), 14);
    assert!(emissions.len() <= 15);
    for (i, emission) in emissions.iter().enumerate() {
        assert_eq!(emission.timestamp, 1000 * (i as u64 + 1));
        assert!(SensorKind::Temperature.in_range(emission.temperature));
        assert!(SensorKind::Humidity.in_range(emission.humidity));
        assert!(SensorKind::Light.in_range(emission.light));
        assert_eq!(emission.history.len(), (i + 1).min(10));
        assert_eq!(*emission.history.last().unwrap(), emission.temperature);
        assert!(emission.statistics.min <= emission.statistics.average);
        assert!(emission.statistics.average <= emission.statistics.max);
    }
    for pair in emissions.windows(2) {
        assert!(pair[0].timestamp < pair[1].timestamp);
    }
    assert_eq!(run.phase(), RunPhase::Completed);
}

#[test]
fn emissions_never_outnumber_the_seconds_of_the_run() {
    let config = config(1, 1, 1);
    let sensor = VirtualSensor::new();
    let mut run = SimulationRun::new(3);
    run.start(10);
    let mut count = 0;
    let mut now = 10;
    while now < 5000 {
        if let TickOutcome::Emitted(_) = run.tick(now, &config, &sensor) {
            count += 1;
        }
        now += 7;
    }
    assert_eq!(count, 2);
    assert_eq!(run.phase(), RunPhase::Completed);
}

#[test]
fn virtual_sensor_stays_in_range() {
    let sensor = VirtualSensor::new();
    for _ in 0..2000 {
        let t = sensor.read_temperature();
        assert!((2000..3000).contains(&t));
        let h = sensor.read_humidity();
        assert!((3000..7000).contains(&h));
        let l = sensor.read_light_intensity();
        assert!((0..10000).contains(&l));
    }
}

#[test]
fn virtual_sensor_does_not_hand_back_a_bound() {
    let sensor = VirtualSensor::new();
    let mut seen_above_low = false;
    for _ in 0..200 {
        if sensor.sample(SensorKind::Humidity) != 3000 {
            seen_above_low = true;
        }
    }
    assert!(seen_above_low);
}

#[test]
fn reading_is_stamped_and_in_range() {
    let sensor = VirtualSensor::new();
    let reading = sensor.read(SensorKind::Light, 1234);
    assert_eq!(reading.kind, SensorKind::Light);
    assert_eq!(reading.timestamp, 1234);
    assert!(SensorKind::Light.in_range(reading.value));
}

#[test]
fn only_due_sensors_are_read() {
    let sensor = VirtualSensor::new();
    let readings = sensor.read_due(DueSet { temperature: true, humidity: false, light: true });
    assert!(readings.temperature.is_some());
    assert_eq!(readings.humidity, None);
    assert!(readings.light.is_some());
    assert!(!readings.is_complete());
    assert_eq!(readings.value(SensorKind::Humidity), None);
    let none = sensor.read_due(DueSet { temperature: false, humidity: false, light: false });
    assert_eq!(none, TickReadings { temperature: None, humidity: None, light: None });
    assert!(sensor.read_due(DueSet { temperature: true, humidity: true, light: true }).is_complete());
}

#[test]
fn ranges_of_the_kinds() {
    assert_eq!(SensorKind::Temperature.range_low(), 2000);
    assert_eq!(SensorKind::Temperature.range_high(), 3000);
    assert_eq!(SensorKind::Humidity.range_low(), 3000);
    assert_eq!(SensorKind::Humidity.range_high(), 7000);
    assert_eq!(SensorKind::Light.range_low(), 0);
    assert_eq!(SensorKind::Light.range_high(), 10000);
    assert!(SensorKind::Temperature.in_range(2000));
    assert!(SensorKind::Temperature.in_range(2999));
    assert!(!SensorKind::Temperature.in_range(3000));
    assert!(!SensorKind::Temperature.in_range(1999));
    assert!(!SensorKind::Light.in_range(-1));
}

#[test]
fn outputs_come_in_the_fixed_order() {
    let emission = Emission {
        timestamp: 3000,
        temperature: 2950,
        humidity: 4500,
        light: 8100,
        history: vec![2000, 2950],
        statistics: Statistics { average: 2475, min: 2000, max: 2950 },
        alerts: vec![
            AlertEvent {
                kind: SensorKind::Temperature,
                value: 2950,
                message: "Temperature exceeded threshold: 29.50°C".to_string(),
            },
            AlertEvent {
                kind: SensorKind::Light,
                value: 8100,
                message: "Light intensity exceeded threshold: 81.00%".to_string(),
            },
        ],
    };
    let display = ConsoleDisplay::new();
    assert_eq!(
        emission.outputs(&display, true),
        vec![
            show("[LCD Display]: Temperature: 29.50°C, Humidity: 45.00%, Light: 81.00%"),
            Output { sink: Sink::Log, text: "29.50, 45.00, 81.00".to_string() },
            show("[Real-Time Graph]"),
            show("20.00 | =========="),
            show("29.50 | =============="),
            show("[ALERT]: Temperature exceeded threshold: 29.50°C"),
            show("[ALERT]: Light intensity exceeded threshold: 81.00%"),
            show("[Statistics] Average: 24.75°C, Min: 20.00°C, Max: 29.50°C"),
        ]
    );
    assert_eq!(
        emission.outputs(&display, false),
        vec![
            show("[LCD Display]: Temperature: 29.50°C, Humidity: 45.00%, Light: 81.00%"),
            Output { sink: Sink::Log, text: "29.50, 45.00, 81.00".to_string() },
            show("[ALERT]: Temperature exceeded threshold: 29.50°C"),
            show("[ALERT]: Light intensity exceeded threshold: 81.00%"),
            show("[Statistics] Average: 24.75°C, Min: 20.00°C, Max: 29.50°C"),
        ]
    );
}
