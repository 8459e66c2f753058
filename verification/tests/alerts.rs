use sensor_node::alerts::{alert_message, check_alerts, AlertEvent};
use sensor_node::config::AlertConfig;
use sensor_node::kind::SensorKind;
use sensor_node::sensor::TickReadings;

fn thresholds(temperature: i32, humidity: i32, light: i32) -> AlertConfig {
    AlertConfig {
        temperature_threshold: temperature,
        humidity_threshold: humidity,
        light_threshold: light,
    }
}

#[test]
fn temperature_above_threshold_alerts_once() {
    let readings = TickReadings { temperature: Some(3100), humidity: None, light: None };
    let alerts = check_alerts(&readings, &thresholds(3000, 6000, 8000));
    assert_eq!(
        alerts,
        vec![AlertEvent {
            kind: SensorKind::Temperature,
            value: 3100,
            message: "Temperature exceeded threshold: 31.00°C".to_string(),
        }]
    );
}

#[test]
fn temperature_at_threshold_does_not_alert() {
    let readings = TickReadings { temperature: Some(3000), humidity: None, light: None };
    let alerts = check_alerts(&readings, &thresholds(3000, 6000, 8000));
    assert_eq!(alerts, Vec::<AlertEvent>::new());
}

#[test]
fn alerts_come_in_the_fixed_order() {
    let readings = TickReadings { temperature: Some(2950), humidity: Some(6512), light: Some(9907) };
    let alerts = check_alerts(&readings, &thresholds(2500, 6000, 8000));
    assert_eq!(alerts.len(), 3);
    assert_eq!(alerts[0].kind, SensorKind::Temperature);
    assert_eq!(alerts[0].message, "Temperature exceeded threshold: 29.50°C");
    assert_eq!(alerts[1].kind, SensorKind::Humidity);
    assert_eq!(alerts[1].value, 6512);
    assert_eq!(alerts[1].message, "Humidity exceeded threshold: 65.12%");
    assert_eq!(alerts[2].kind, SensorKind::Light);
    assert_eq!(alerts[2].message, "Light intensity exceeded threshold: 99.07%");
}

#[test]
fn only_sensors_that_were_read_are_judged() {
    let readings = TickReadings { temperature: None, humidity: Some(6900), light: None };
    let alerts = check_alerts(&readings, &thresholds(0, 6000, 0));
    assert_eq!(alerts.len(), 1);
    assert_eq!(alerts[0].kind, SensorKind::Humidity);
}

#[test]
fn two_of_three_can_alert() {
    let readings = TickReadings { temperature: Some(2999), humidity: Some(3000), light: Some(1) };
    let alerts = check_alerts(&readings, &thresholds(2000, 3000, 0));
    assert_eq!(alerts.len(), 2);
    assert_eq!(alerts[0].kind, SensorKind::Temperature);
    assert_eq!(alerts[1].kind, SensorKind::Light);
    assert_eq!(alerts[1].message, "Light intensity exceeded threshold: 0.01%");
}

#[test]
fn same_condition_alerts_again_at_the_next_tick() {
    let readings = TickReadings { temperature: Some(2800), humidity: None, light: None };
    let config = thresholds(2700, 0, 0);
    assert_eq!(check_alerts(&readings, &config), check_alerts(&readings, &config));
    assert_eq!(check_alerts(&readings, &config).len(), 1);
}

#[test]
fn alert_message_names_sensor_value_and_unit() {
    assert_eq!(alert_message(SensorKind::Temperature, -5), "Temperature exceeded threshold: -0.05°C");
    assert_eq!(alert_message(SensorKind::Humidity, 7000), "Humidity exceeded threshold: 70.00%");
    assert_eq!(alert_message(SensorKind::Light, 0), "Light intensity exceeded threshold: 0.00%");
}

#[test]
fn threshold_of_each_kind() {
    let mut config = thresholds(1, 2, 3);
    assert_eq!(config.threshold(SensorKind::Temperature), 1);
    assert_eq!(config.threshold(SensorKind::Humidity), 2);
    assert_eq!(config.threshold(SensorKind::Light), 3);
    config.set_threshold(SensorKind::Humidity, -250);
    assert_eq!(config, thresholds(1, -250, 3));
}
