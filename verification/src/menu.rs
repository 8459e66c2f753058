//! What the operator's answers to the menus mean.

use vstd::prelude::*;
use vstd::string::*;
use crate::kind::SensorKind;

verus! {

/// What the operator picked in the main menu.
#[derive(Clone, Copy, Debug, PartialEq, Eq, Structural)]
pub enum MainChoice {
    StartSimulation,
    AdjustSettings,
    ViewLogs,
    Exit,
    Invalid,
}

/// What the operator picked in the menu of the settings.
#[derive(Clone, Copy, Debug, PartialEq, Eq, Structural)]
pub enum SettingsChoice {
    SamplingRate(SensorKind),
    Threshold(SensorKind),
    Back,
    Invalid,
}

/// How long a simulation runs, and whether that was picked or fallen back
/// to.
#[derive(Clone, Copy, Debug, PartialEq, Eq, Structural)]
pub struct DurationChoice {
    pub seconds: u64,
    /// The answer was none of those offered, and the longer run was taken.
    pub defaulted: bool,
}

/// The shorter of the two runs that are offered, in seconds.
pub const SHORT_RUN_SECONDS: u64 = 15;

/// The longer of the two runs that are offered, in seconds, which is also
/// the one taken for an answer that is not understood.
pub const LONG_RUN_SECONDS: u64 = 30;

/// The answer is the single character `digit`.
pub open spec fn is_answer(input: Seq<char>, digit: char) -> bool {
    input.len() == 1 && input[0] == digit
}

pub open spec fn main_choice_of(input: Seq<char>) -> MainChoice {
    if is_answer(input, '1') {
        MainChoice::StartSimulation
    } else if is_answer(input, '2') {
        MainChoice::AdjustSettings
    } else if is_answer(input, '3') {
        MainChoice::ViewLogs
    } else if is_answer(input, '4') {
        MainChoice::Exit
    } else {
        MainChoice::Invalid
    }
}

pub open spec fn settings_choice_of(input: Seq<char>) -> SettingsChoice {
    if is_answer(input, '1') {
        SettingsChoice::SamplingRate(SensorKind::Temperature)
    } else if is_answer(input, '2') {
        SettingsChoice::SamplingRate(SensorKind::Humidity)
    } else if is_answer(input, '3') {
        SettingsChoice::SamplingRate(SensorKind::Light)
    } else if is_answer(input, '4') {
        SettingsChoice::Threshold(SensorKind::Temperature)
    } else if is_answer(input, '5') {
        SettingsChoice::Threshold(SensorKind::Humidity)
    } else if is_answer(input, '6') {
        SettingsChoice::Threshold(SensorKind::Light)
    } else if is_answer(input, '7') {
        SettingsChoice::Back
    } else {
        SettingsChoice::Invalid
    }
}

pub open spec fn duration_choice_of(input: Seq<char>) -> DurationChoice {
    if is_answer(input, '1') {
        DurationChoice { seconds: SHORT_RUN_SECONDS, defaulted: false }
    } else if is_answer(input, '2') {
        DurationChoice { seconds: LONG_RUN_SECONDS, defaulted: false }
    } else {
        DurationChoice { seconds: LONG_RUN_SECONDS, defaulted: true }
    }
}

/// The only character of `input`, where it has exactly one.
fn sole_char(input: &str) -> (found: Option<char>)
    ensures
        match found {
            Some(c) => is_answer(input@, c),
            None => input@.len() != 1,
        },
{
    if input.unicode_len() == 1 {
        Some(input.get_char(0))
    } else {
        None
    }
}

/// Reads an answer to the main menu. The answer is taken as it is: blanks
/// around it are the caller's to remove.
pub fn parse_main_choice(input: &str) -> (choice: MainChoice)
    ensures
        choice == main_choice_of(input@),
{
    match sole_char(input) {
        Some('1') => MainChoice::StartSimulation,
        Some('2') => MainChoice::AdjustSettings,
        Some('3') => MainChoice::ViewLogs,
        Some('4') => MainChoice::Exit,
        _ => MainChoice::Invalid,
    }
}

/// Reads an answer to the menu of the settings.
pub fn parse_settings_choice(input: &str) -> (choice: SettingsChoice)
    ensures
        choice == settings_choice_of(input@),
{
    match sole_char(input) {
        Some('1') => SettingsChoice::SamplingRate(SensorKind::Temperature),
        Some('2') => SettingsChoice::SamplingRate(SensorKind::Humidity),
        Some('3') => SettingsChoice::SamplingRate(SensorKind::Light),
        Some('4') => SettingsChoice::Threshold(SensorKind::Temperature),
        Some('5') => SettingsChoice::Threshold(SensorKind::Humidity),
        Some('6') => SettingsChoice::Threshold(SensorKind::Light),
        Some('7') => SettingsChoice::Back,
        _ => SettingsChoice::Invalid,
    }
}

/// Reads an answer to the question how long the simulation runs. An answer
/// that is none of those offered gives the longer run, and says so.
pub fn parse_duration_choice(input: &str) -> (choice: DurationChoice)
    ensures
        choice == duration_choice_of(input@),
{
    match sole_char(input) {
        Some('1') => DurationChoice { seconds: SHORT_RUN_SECONDS, defaulted: false },
        Some('2') => DurationChoice { seconds: LONG_RUN_SECONDS, defaulted: false },
        _ => DurationChoice { seconds: LONG_RUN_SECONDS, defaulted: true },
    }
}

/// Whether `c` is one of the ten decimal digits.
pub open spec fn is_digit(c: char) -> bool {
    48 <= c as u32 <= 57
}

/// The value of a decimal digit, and zero for any other character.
pub open spec fn digit_value(c: char) -> nat {
    if is_digit(c) {
        (c as u32 - 48) as nat
    } else {
        0
    }
}

/// The number that `digits` writes in base ten.
pub open spec fn decimal_value(digits: Seq<char>) -> nat
    decreases digits.len(),
{
    if digits.len() == 0 {
        0
    } else {
        decimal_value(digits.drop_last()) * 10 + digit_value(digits.last())
    }
}

/// Every character of `text` is a decimal digit.
pub open spec fn all_digits(text: Seq<char>) -> bool {
    forall|i: int| 0 <= i < text.len() ==> is_digit(#[trigger] text[i])
}

/// `input` without the plus sign that may stand in front of a number.
pub open spec fn unsigned_part(input: Seq<char>) -> Seq<char> {
    if input.len() > 0 && input[0] == '+' {
        input.subrange(1, input.len() as int)
    } else {
        input
    }
}

/// The whole number of seconds that `input` writes: one or more decimal
/// digits, with or without a plus sign in front, whose value a `u64` can
/// hold. Any other text writes none.
pub open spec fn seconds_of(input: Seq<char>) -> Option<u64> {
    let digits = unsigned_part(input);
    if digits.len() > 0 && all_digits(digits) && decimal_value(digits) <= u64::MAX {
        Some(decimal_value(digits) as u64)
    } else {
        None
    }
}

/// A number is at least as large as the number that its first digits write.
proof fn lemma_value_at_least_prefix(digits: Seq<char>, k: int)
    requires
        0 <= k <= digits.len(),
    ensures
        decimal_value(digits.take(k)) <= decimal_value(digits),
    decreases digits.len(),
{
    if k == digits.len() {
        assert(digits.take(k) =~= digits);
    } else {
        lemma_value_at_least_prefix(digits.drop_last(), k);
        assert(digits.drop_last().take(k) =~= digits.take(k));
    }
}

/// Reads a number of seconds as the operator typed it. The text is taken
/// as it is: blanks around it are the caller's to remove.
pub fn parse_seconds(input: &str) -> (seconds: Option<u64>)
    ensures
        seconds == seconds_of(input@),
{
    let n = input.unicode_len();
    let start: usize = if n > 0 && input.get_char(0) == '+' {
        1
    } else {
        0
    };
    if start == n {
        return None;
    }
    let ghost digits = unsigned_part(input@);
    assert(digits =~= input@.subrange(start as int, n as int));
    let mut value: u64 = 0;
    let mut i: usize = start;
    assert(digits.take(0) =~= Seq::<char>::empty());
    while i < n
        invariant
            start <= i <= n,
            n == input@.len(),
            digits == unsigned_part(input@),
            digits == input@.subrange(start as int, n as int),
            all_digits(digits.take(i - start)),
            value == decimal_value(digits.take(i - start)),
        decreases n - i,
    {
        let c = input.get_char(i);
        let code = c as u32;
        assert(c == digits[i - start]);
        if code < 48 || code > 57 {
            assert(!is_digit(digits[i - start]));
            return None;
        }
        let d = (code - 48) as u64;
        proof {
            let longer = digits.take(i - start + 1);
            assert(longer.drop_last() =~= digits.take(i - start));
            assert(longer.last() == c);
            assert(decimal_value(longer) == value * 10 + d);
            lemma_value_at_least_prefix(digits, i - start + 1);
        }
        if value > (u64::MAX - d) / 10 {
            return None;
        }
        value = value * 10 + d;
        i = i + 1;
    }
    assert(digits.take(n - start) =~= digits);
    Some(value)
}

} // verus!
