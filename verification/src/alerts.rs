//! The alert evaluator: a reading that is strictly greater than the
//! threshold of its kind raises one alert.

use vstd::prelude::*;
use vstd::string::*;
use crate::config::AlertConfig;
use crate::decimal::{append_fixed, fixed_text};
use crate::kind::SensorKind;
use crate::sensor::TickReadings;

verus! {

/// How an alert names the sensor.
pub open spec fn alert_label(kind: SensorKind) -> Seq<char> {
    match kind {
        SensorKind::Temperature => "Temperature"@,
        SensorKind::Humidity => "Humidity"@,
        SensorKind::Light => "Light intensity"@,
    }
}

/// The unit that follows a value of `kind`.
pub open spec fn unit_text(kind: SensorKind) -> Seq<char> {
    match kind {
        SensorKind::Temperature => "°C"@,
        SensorKind::Humidity => "%"@,
        SensorKind::Light => "%"@,
    }
}

/// The message of an alert: the sensor, the value with two decimals, and
/// its unit.
pub open spec fn alert_text(kind: SensorKind, value: int) -> Seq<char> {
    alert_label(kind) + " exceeded threshold: "@ + fixed_text(value) + unit_text(kind)
}

/// Whether the reading of `kind` in this tick raises an alert: there is one,
/// and it is strictly greater than the threshold. A reading equal to the
/// threshold raises none.
pub open spec fn alerts_on(readings: TickReadings, config: AlertConfig, kind: SensorKind) -> bool {
    match readings.spec_value(kind) {
        Some(value) => value > config.spec_threshold(kind),
        None => false,
    }
}

/// The kinds that raise an alert in this tick, in the fixed order:
/// temperature, humidity, light.
pub open spec fn alerting_kinds(readings: TickReadings, config: AlertConfig) -> Seq<SensorKind> {
    let temperature = if alerts_on(readings, config, SensorKind::Temperature) {
        seq![SensorKind::Temperature]
    } else {
        Seq::<SensorKind>::empty()
    };
    let humidity = if alerts_on(readings, config, SensorKind::Humidity) {
        seq![SensorKind::Humidity]
    } else {
        Seq::<SensorKind>::empty()
    };
    let light = if alerts_on(readings, config, SensorKind::Light) {
        seq![SensorKind::Light]
    } else {
        Seq::<SensorKind>::empty()
    };
    temperature + humidity + light
}

/// One alert: the sensor, the value that exceeded, and the message to show.
#[derive(Clone, Debug, PartialEq, Eq)]
pub struct AlertEvent {
    pub kind: SensorKind,
    pub value: i32,
    pub message: String,
}

impl AlertEvent {
    /// This event is the alert of `kind` for the readings of a tick: it
    /// carries the value read and the message for it.
    pub open spec fn reports(&self, readings: TickReadings, kind: SensorKind) -> bool {
        &&& self.kind == kind
        &&& readings.spec_value(kind) == Some(self.value)
        &&& self.message@ == alert_text(kind, self.value as int)
    }
}

/// The events in `alerts` are those that `readings` raise under `config`:
/// one for each alerting kind, in the fixed order.
pub open spec fn alerts_match(
    alerts: Seq<AlertEvent>,
    readings: TickReadings,
    config: AlertConfig,
) -> bool {
    &&& alerts.len() == alerting_kinds(readings, config).len()
    &&& forall|i: int|
        0 <= i < alerts.len() ==> (#[trigger] alerts[i]).reports(
            readings,
            alerting_kinds(readings, config)[i],
        )
}

/// The message of an alert of `kind` for `value`.
pub fn alert_message(kind: SensorKind, value: i32) -> (message: String)
    ensures
        message@ == alert_text(kind, value as int),
{
    let mut message = String::new();
    match kind {
        SensorKind::Temperature => {
            message.append("Temperature");
        },
        SensorKind::Humidity => {
            message.append("Humidity");
        },
        SensorKind::Light => {
            message.append("Light intensity");
        },
    }
    message.append(" exceeded threshold: ");
    append_fixed(&mut message, value);
    match kind {
        SensorKind::Temperature => {
            message.append("°C");
        },
        SensorKind::Humidity => {
            message.append("%");
        },
        SensorKind::Light => {
            message.append("%");
        },
    }
    assert(message@ =~= alert_text(kind, value as int));
    message
}

/// Judges the reading of one kind, and appends its alert where it raises
/// one.
fn judge(alerts: &mut Vec<AlertEvent>, readings: &TickReadings, config: &AlertConfig, kind: SensorKind)
    ensures
        alerts_on(*readings, *config, kind) ==> {
            &&& final(alerts)@.len() == old(alerts)@.len() + 1
            &&& final(alerts)@.drop_last() == old(alerts)@
            &&& final(alerts)@.last().reports(*readings, kind)
        },
        !alerts_on(*readings, *config, kind) ==> final(alerts)@ == old(alerts)@,
{
    match readings.value(kind) {
        Some(value) => {
            if value > config.threshold(kind) {
                let message = alert_message(kind, value);
                alerts.push(AlertEvent { kind, value, message });
                assert(alerts@.drop_last() =~= old(alerts)@);
            }
        },
        None => {},
    }
}

/// Compares the readings of one tick with the thresholds. Only sensors that
/// were read are judged, always in the order temperature, humidity, light.
/// Nothing is remembered from tick to tick: a condition that lasts alerts
/// at every tick.
pub fn check_alerts(readings: &TickReadings, config: &AlertConfig) -> (alerts: Vec<AlertEvent>)
    ensures
        alerts_match(alerts@, *readings, *config),
{
    let mut alerts: Vec<AlertEvent> = Vec::new();
    judge(&mut alerts, readings, config, SensorKind::Temperature);
    let ghost first = alerts@;
    judge(&mut alerts, readings, config, SensorKind::Humidity);
    let ghost second = alerts@;
    judge(&mut alerts, readings, config, SensorKind::Light);
    proof {
        let expected = alerting_kinds(*readings, *config);
        assert(alerts@.len() == expected.len());
        assert forall|i: int| 0 <= i < alerts@.len() implies (#[trigger] alerts@[i]).reports(
            *readings,
            expected[i],
        ) by {
            if i < first.len() {
                assert(alerts@[i] == second[i]);
                assert(second[i] == first[i]);
                assert(first[i] == first.last());
            } else if i < second.len() {
                assert(alerts@[i] == second[i]);
                assert(second[i] == second.last());
            } else {
                assert(alerts@[i] == alerts@.last());
            }
        }
    }
    alerts
}

} // verus!
