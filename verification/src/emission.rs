//! What a combined tick gives out: the three readings, the history after
//! them, its statistics and the alerts.

use vstd::prelude::*;
use vstd::string::*;
use crate::alerts::{alerts_match, AlertEvent};
use crate::config::AlertConfig;
use crate::display::{alert_line_text, display_text, format_readings, graph_row_text, reading_text, statistics_text, ConsoleDisplay};
use crate::logger::{format_log_data, log_data_text};
use crate::sensor::TickReadings;
use crate::stats::{floor_mean, is_maximum, is_minimum, Statistics};

verus! {

/// The statistics are those of `window`: its mean, rounded down, and its
/// two extremes.
pub open spec fn statistics_of(stats: Statistics, window: Seq<i32>) -> bool {
    &&& stats.average == floor_mean(window)
    &&& is_minimum(window, stats.min)
    &&& is_maximum(window, stats.max)
}

/// The result of a tick in which all three sensors fired.
#[derive(Clone, Debug, PartialEq, Eq)]
pub struct Emission {
    /// The time of the tick, in milliseconds.
    pub timestamp: u64,
    pub temperature: i32,
    pub humidity: i32,
    pub light: i32,
    /// The temperatures of the rolling window, this one included, oldest
    /// first.
    pub history: Vec<i32>,
    pub statistics: Statistics,
    pub alerts: Vec<AlertEvent>,
}

impl Emission {
    /// The three readings of the tick.
    pub open spec fn readings(&self) -> TickReadings {
        TickReadings {
            temperature: Some(self.temperature),
            humidity: Some(self.humidity),
            light: Some(self.light),
        }
    }

    /// This is what a tick at `now` gives out for `readings`, with the
    /// rolling window at `window` after the temperature was pushed: the
    /// readings themselves, the window, the statistics of the window and the
    /// alerts that the readings raise under `config`.
    pub open spec fn describes(
        &self,
        now: u64,
        readings: TickReadings,
        window: Seq<i32>,
        config: AlertConfig,
    ) -> bool {
        &&& self.timestamp == now
        &&& self.readings() == readings
        &&& self.history@ == window
        &&& statistics_of(self.statistics, window)
        &&& alerts_match(self.alerts@, readings, config)
    }
}

/// Where a piece of output goes.
#[derive(Clone, Copy, Debug, PartialEq, Eq, Structural)]
pub enum Sink {
    /// A line for the display.
    Display,
    /// The data of one record for the log.
    Log,
}

/// One piece of output: a text and the sink that it is meant for.
#[derive(Clone, Debug, PartialEq, Eq)]
pub struct Output {
    pub sink: Sink,
    pub text: String,
}

impl View for Output {
    type V = (Sink, Seq<char>);

    open spec fn view(&self) -> (Sink, Seq<char>) {
        (self.sink, self.text@)
    }
}

/// The sinks and texts of `outputs`, in their order.
pub open spec fn output_views(outputs: Seq<Output>) -> Seq<(Sink, Seq<char>)> {
    Seq::new(outputs.len(), |i: int| outputs[i]@)
}

/// The graph of `history` as output: its heading, then one row for each
/// value.
pub open spec fn graph_outputs(history: Seq<i32>) -> Seq<(Sink, Seq<char>)> {
    seq![(Sink::Display, "[Real-Time Graph]"@)] + Seq::new(
        history.len(),
        |i: int| (Sink::Display, graph_row_text(history[i] as int)),
    )
}

/// One line of the display for each alert, in their order.
pub open spec fn alert_outputs(alerts: Seq<AlertEvent>) -> Seq<(Sink, Seq<char>)> {
    Seq::new(alerts.len(), |i: int| (Sink::Display, alert_line_text(alerts[i].message@)))
}

/// One more output adds its sink and text at the end.
proof fn lemma_views_push(outputs: Seq<Output>, last: Output)
    ensures
        output_views(outputs.push(last)) == output_views(outputs).push(last@),
{
    assert(output_views(outputs.push(last)) =~= output_views(outputs).push(last@));
}

/// One more value adds its row at the end of the graph.
proof fn lemma_graph_grows(history: Seq<i32>, i: int)
    requires
        0 <= i < history.len(),
    ensures
        graph_outputs(history.take(i + 1)) == graph_outputs(history.take(i)).push(
            (Sink::Display, graph_row_text(history[i] as int)),
        ),
{
    assert(graph_outputs(history.take(i + 1)) =~= graph_outputs(history.take(i)).push(
        (Sink::Display, graph_row_text(history[i] as int)),
    ));
}

/// One more alert adds its line at the end.
proof fn lemma_alerts_grow(alerts: Seq<AlertEvent>, i: int)
    requires
        0 <= i < alerts.len(),
    ensures
        alert_outputs(alerts.take(i + 1)) == alert_outputs(alerts.take(i)).push(
            (Sink::Display, alert_line_text(alerts[i].message@)),
        ),
{
    assert(alert_outputs(alerts.take(i + 1)) =~= alert_outputs(alerts.take(i)).push(
        (Sink::Display, alert_line_text(alerts[i].message@)),
    ));
}

impl Emission {
    /// All that this emission sends out, in the order in which it is sent:
    /// the line of the combined reading, the data for the log, the graph
    /// where it is switched on, the alerts, and the line of the statistics.
    pub open spec fn output_texts(&self, graph: bool) -> Seq<(Sink, Seq<char>)> {
        seq![
            (
                Sink::Display,
                display_text(
                    reading_text(self.temperature as int, self.humidity as int, self.light as int),
                ),
            ),
            (
                Sink::Log,
                log_data_text(self.temperature as int, self.humidity as int, self.light as int),
            ),
        ] + (if graph {
            graph_outputs(self.history@)
        } else {
            Seq::<(Sink, Seq<char>)>::empty()
        }) + alert_outputs(self.alerts@) + seq![(Sink::Display, statistics_text(self.statistics))]
    }

    /// The output of this emission, in the order in which it is to be sent.
    /// The graph is part of it where `graph` is set.
    pub fn outputs(&self, display: &ConsoleDisplay, graph: bool) -> (outputs: Vec<Output>)
        ensures
            output_views(outputs@) == self.output_texts(graph),
    {
        let mut outputs: Vec<Output> = Vec::new();
        let reading = format_readings(self.temperature, self.humidity, self.light);
        outputs.push(Output { sink: Sink::Display, text: display.show(reading.as_str()) });
        outputs.push(
            Output {
                sink: Sink::Log,
                text: format_log_data(self.temperature, self.humidity, self.light),
            },
        );
        let ghost head = output_views(outputs@);
        if graph {
            outputs.push(Output { sink: Sink::Display, text: String::from_str("[Real-Time Graph]") });
            let mut i: usize = 0;
            while i < self.history.len()
                invariant
                    i <= self.history@.len(),
                    output_views(outputs@) == head + graph_outputs(self.history@.take(i as int)),
                decreases self.history@.len() - i,
            {
                let row = display.graph_row(self.history[i]);
                let ghost before = outputs@;
                let ghost rows = graph_outputs(self.history@.take(i as int));
                let next = Output { sink: Sink::Display, text: row };
                proof {
                    lemma_views_push(before, next);
                    lemma_graph_grows(self.history@, i as int);
                    assert((head + rows).push(next@) =~= head + rows.push(next@));
                }
                outputs.push(next);
                i = i + 1;
            }
            assert(self.history@.take(i as int) =~= self.history@);
        }
        let ghost body = output_views(outputs@);
        let mut k: usize = 0;
        while k < self.alerts.len()
            invariant
                k <= self.alerts@.len(),
                output_views(outputs@) == body + alert_outputs(self.alerts@.take(k as int)),
            decreases self.alerts@.len() - k,
        {
            let line = display.show_alert(self.alerts[k].message.as_str());
            let ghost before = outputs@;
            let ghost lines = alert_outputs(self.alerts@.take(k as int));
            let next = Output { sink: Sink::Display, text: line };
            proof {
                lemma_views_push(before, next);
                lemma_alerts_grow(self.alerts@, k as int);
                assert((body + lines).push(next@) =~= body + lines.push(next@));
            }
            outputs.push(next);
            k = k + 1;
        }
        assert(self.alerts@.take(k as int) =~= self.alerts@);
        let ghost most = output_views(outputs@);
        outputs.push(Output { sink: Sink::Display, text: display.show_statistics(&self.statistics) });
        assert(output_views(outputs@) =~= most + seq![
            (Sink::Display, statistics_text(self.statistics)),
        ]);
        assert(output_views(outputs@) =~= self.output_texts(graph));
        outputs
    }
}

} // verus!
