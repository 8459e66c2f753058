//! The lines that the node shows: the combined reading, alerts, the bar
//! graph of the history and the statistics. The lines are made here; to
//! print them is left to the caller.

use vstd::prelude::*;
use vstd::string::*;
use crate::decimal::{append_fixed, append_repeated, fixed_text, format_fixed_padded, padded_text, repeated};
use crate::stats::Statistics;

verus! {

/// The width of the field in which a row of the graph shows its value.
pub const GRAPH_VALUE_WIDTH: usize = 5;

/// The text of one combined reading.
pub open spec fn reading_text(temperature: int, humidity: int, light: int) -> Seq<char> {
    "Temperature: "@ + fixed_text(temperature) + "°C, Humidity: "@ + fixed_text(humidity)
        + "%, Light: "@ + fixed_text(light) + "%"@
}

/// A line of the display.
pub open spec fn display_text(data: Seq<char>) -> Seq<char> {
    "[LCD Display]: "@ + data
}

/// A line that shows an alert.
pub open spec fn alert_line_text(message: Seq<char>) -> Seq<char> {
    "[ALERT]: "@ + message
}

/// The length of the bar for a value of hundredths: one mark for every two
/// whole units, and none for a value that is not positive.
pub open spec fn bar_length(value: int) -> nat {
    if value <= 0 {
        0
    } else {
        (value / 200) as nat
    }
}

/// One row of the graph: the value, set to the right in its field, and its
/// bar.
pub open spec fn graph_row_text(value: int) -> Seq<char> {
    padded_text(fixed_text(value), GRAPH_VALUE_WIDTH as nat) + " | "@ + repeated(
        '=',
        bar_length(value),
    )
}

/// The line of the statistics.
pub open spec fn statistics_text(stats: Statistics) -> Seq<char> {
    "[Statistics] Average: "@ + fixed_text(stats.average as int) + "°C, Min: "@ + fixed_text(
        stats.min as int,
    ) + "°C, Max: "@ + fixed_text(stats.max as int) + "°C"@
}

/// The text of one combined reading: the three values with two decimals
/// and their units.
pub fn format_readings(temperature: i32, humidity: i32, light: i32) -> (text: String)
    ensures
        text@ == reading_text(temperature as int, humidity as int, light as int),
{
    let mut text = String::new();
    text.append("Temperature: ");
    append_fixed(&mut text, temperature);
    text.append("°C, Humidity: ");
    append_fixed(&mut text, humidity);
    text.append("%, Light: ");
    append_fixed(&mut text, light);
    text.append("%");
    assert(text@ =~= reading_text(temperature as int, humidity as int, light as int));
    text
}

/// The number of marks in the bar of `value`.
pub fn bar_marks(value: i32) -> (marks: usize)
    ensures
        marks == bar_length(value as int),
{
    if value <= 0 {
        0
    } else {
        (value / 200) as usize
    }
}

/// The text display of the node.
#[derive(Clone, Copy, Debug)]
pub struct ConsoleDisplay;

impl ConsoleDisplay {
    pub fn new() -> (display: ConsoleDisplay) {
        ConsoleDisplay
    }

    /// The line that shows `data`.
    pub fn show(&self, data: &str) -> (line: String)
        ensures
            line@ == display_text(data@),
    {
        let mut line = String::new();
        line.append("[LCD Display]: ");
        line.append(data);
        assert(line@ =~= display_text(data@));
        line
    }

    /// The line that shows an alert.
    pub fn show_alert(&self, message: &str) -> (line: String)
        ensures
            line@ == alert_line_text(message@),
    {
        let mut line = String::new();
        line.append("[ALERT]: ");
        line.append(message);
        assert(line@ =~= alert_line_text(message@));
        line
    }

    /// One row of the graph.
    pub fn graph_row(&self, value: i32) -> (row: String)
        ensures
            row@ == graph_row_text(value as int),
    {
        let mut row = format_fixed_padded(value, GRAPH_VALUE_WIDTH);
        row.append(" | ");
        proof {
            reveal_strlit("=");
        }
        append_repeated(&mut row, "=", bar_marks(value));
        assert(row@ =~= graph_row_text(value as int));
        row
    }

    /// The graph of `values`: a heading, then one row for each value, in
    /// their order.
    pub fn show_graph(&self, values: &[i32]) -> (lines: Vec<String>)
        ensures
            lines@.len() == values@.len() + 1,
            lines@[0]@ == "[Real-Time Graph]"@,
            forall|i: int|
                0 <= i < values@.len() ==> (#[trigger] lines@[i + 1])@ == graph_row_text(
                    values@[i] as int,
                ),
    {
        let mut lines: Vec<String> = Vec::new();
        lines.push(String::from_str("[Real-Time Graph]"));
        let mut i: usize = 0;
        while i < values.len()
            invariant
                i <= values@.len(),
                lines@.len() == i + 1,
                lines@[0]@ == "[Real-Time Graph]"@,
                forall|j: int|
                    0 <= j < i ==> (#[trigger] lines@[j + 1])@ == graph_row_text(values@[j] as int),
            decreases values@.len() - i,
        {
            let row = self.graph_row(values[i]);
            let ghost before = lines@;
            lines.push(row);
            assert forall|j: int| 0 <= j < i + 1 implies (#[trigger] lines@[j + 1])@
                == graph_row_text(values@[j] as int) by {
                if j < i {
                    assert(lines@[j + 1] == before[j + 1]);
                }
            }
            i = i + 1;
        }
        lines
    }

    /// The line of the statistics.
    pub fn show_statistics(&self, stats: &Statistics) -> (line: String)
        ensures
            line@ == statistics_text(*stats),
    {
        let mut line = String::new();
        line.append("[Statistics] Average: ");
        append_fixed(&mut line, stats.average);
        line.append("°C, Min: ");
        append_fixed(&mut line, stats.min);
        line.append("°C, Max: ");
        append_fixed(&mut line, stats.max);
        line.append("°C");
        assert(line@ =~= statistics_text(*stats));
        line
    }
}

} // verus!
