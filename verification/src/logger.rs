//! The records of the log: one line for each combined reading. The lines are
//! made and stamped here; to write them to the file is left to the caller.

use vstd::prelude::*;
use vstd::string::*;
use crate::decimal::{append_fixed, fixed_text};

verus! {

/// The three values of a combined reading, with two decimals, separated by
/// a comma and a blank.
pub open spec fn log_data_text(temperature: int, humidity: int, light: int) -> Seq<char> {
    fixed_text(temperature) + ", "@ + fixed_text(humidity) + ", "@ + fixed_text(light)
}

/// A record of the log: the time stamp, a comma and a blank, and the data.
pub open spec fn record_text(timestamp: Seq<char>, data: Seq<char>) -> Seq<char> {
    timestamp + ", "@ + data
}

/// Reads the local time with chrono's `Local::now()` and writes it out with
/// `format("%Y-%m-%d %H:%M:%S")`.
///
/// Nothing is claimed of the text that comes back: it depends on the clock
/// and on the time zone of the machine. chrono gives up on a clock that is
/// set before the year 1970.
#[verifier::external_body]
fn local_timestamp() -> (stamp: String) {
    chrono::Local::now().format("%Y-%m-%d %H:%M:%S").to_string()
}

/// The values of a combined reading as the log holds them.
pub fn format_log_data(temperature: i32, humidity: i32, light: i32) -> (text: String)
    ensures
        text@ == log_data_text(temperature as int, humidity as int, light as int),
{
    let mut text = String::new();
    append_fixed(&mut text, temperature);
    text.append(", ");
    append_fixed(&mut text, humidity);
    text.append(", ");
    append_fixed(&mut text, light);
    assert(text@ =~= log_data_text(temperature as int, humidity as int, light as int));
    text
}

/// The log of the node: it knows the file that the records are appended to.
#[derive(Clone, Debug, PartialEq, Eq)]
pub struct FileLogger {
    pub file_path: String,
}

impl FileLogger {
    pub fn new(file_path: &str) -> (logger: FileLogger)
        ensures
            logger.file_path@ == file_path@,
    {
        FileLogger { file_path: String::from_str(file_path) }
    }

    /// The record that holds `data`, stamped with `timestamp`. It has no
    /// line end.
    pub fn record(&self, timestamp: &str, data: &str) -> (line: String)
        ensures
            line@ == record_text(timestamp@, data@),
    {
        let mut line = String::new();
        line.append(timestamp);
        line.append(", ");
        line.append(data);
        assert(line@ =~= record_text(timestamp@, data@));
        line
    }

    /// The record that holds `data`, stamped with the local time at the
    /// moment of the call. It has no line end.
    pub fn stamped_record(&self, data: &str) -> (line: String)
        ensures
            exists|stamp: Seq<char>| line@ == record_text(stamp, data@),
    {
        let stamp = local_timestamp();
        self.record(stamp.as_str(), data)
    }
}

} // verus!
