//! Decimal text for fixed-point values: `2550` is written `25.50`.

use vstd::prelude::*;
use vstd::string::*;

verus! {

/// The character of one decimal digit.
pub open spec fn digit_char(d: int) -> char {
    if d == 0 {
        '0'
    } else if d == 1 {
        '1'
    } else if d == 2 {
        '2'
    } else if d == 3 {
        '3'
    } else if d == 4 {
        '4'
    } else if d == 5 {
        '5'
    } else if d == 6 {
        '6'
    } else if d == 7 {
        '7'
    } else if d == 8 {
        '8'
    } else {
        '9'
    }
}

/// The decimal digits of `n`, most significant first, without leading zeros
/// (zero itself is the single digit `0`).
pub open spec fn digits_text(n: nat) -> Seq<char>
    decreases n,
{
    if n < 10 {
        seq![digit_char(n as int)]
    } else {
        digits_text(n / 10).push(digit_char((n % 10) as int))
    }
}

/// The size of a value of hundredths without its sign.
pub open spec fn magnitude(value: int) -> nat {
    if value < 0 {
        (-value) as nat
    } else {
        value as nat
    }
}

/// The text of a value of hundredths with exactly two decimal places: a
/// minus sign where the value is negative, the whole part, a point, and the
/// two digits of the hundredths.
pub open spec fn fixed_text(value: int) -> Seq<char> {
    let m = magnitude(value);
    let sign = if value < 0 {
        seq!['-']
    } else {
        Seq::<char>::empty()
    };
    sign + digits_text(m / 100) + seq![
        '.',
        digit_char(((m / 10) % 10) as int),
        digit_char((m % 10) as int),
    ]
}

/// `count` copies of `fill`.
pub open spec fn repeated(fill: char, count: nat) -> Seq<char> {
    Seq::new(count, |i: int| fill)
}

/// `text` with blanks in front of it until it is `width` characters long; a
/// text that is already as long is left as it is.
pub open spec fn padded_text(text: Seq<char>, width: nat) -> Seq<char> {
    if text.len() >= width {
        text
    } else {
        repeated(' ', (width - text.len()) as nat) + text
    }
}

fn digit_str(d: u64) -> (s: &'static str)
    requires
        d < 10,
    ensures
        s@ == seq![digit_char(d as int)],
{
    proof {
        reveal_strlit("0");
        reveal_strlit("1");
        reveal_strlit("2");
        reveal_strlit("3");
        reveal_strlit("4");
        reveal_strlit("5");
        reveal_strlit("6");
        reveal_strlit("7");
        reveal_strlit("8");
        reveal_strlit("9");
    }
    let s = if d == 0 {
        "0"
    } else if d == 1 {
        "1"
    } else if d == 2 {
        "2"
    } else if d == 3 {
        "3"
    } else if d == 4 {
        "4"
    } else if d == 5 {
        "5"
    } else if d == 6 {
        "6"
    } else if d == 7 {
        "7"
    } else if d == 8 {
        "8"
    } else {
        "9"
    };
    assert(s@ =~= seq![digit_char(d as int)]);
    s
}

/// Appends the decimal digits of `n` to `out`.
pub fn append_digits(out: &mut String, n: u64)
    ensures
        final(out)@ == old(out)@ + digits_text(n as nat),
    decreases n,
{
    if n >= 10 {
        append_digits(out, n / 10);
    }
    out.append(digit_str(n % 10));
    assert(out@ =~= old(out)@ + digits_text(n as nat));
}

/// Appends `count` copies of the one-character text `unit` to `out`.
pub fn append_repeated(out: &mut String, unit: &str, count: usize)
    requires
        unit@.len() == 1,
    ensures
        final(out)@ == old(out)@ + repeated(unit@[0], count as nat),
{
    let mut done: usize = 0;
    while done < count
        invariant
            done <= count,
            unit@.len() == 1,
            out@ == old(out)@ + repeated(unit@[0], done as nat),
        decreases count - done,
    {
        out.append(unit);
        done = done + 1;
        assert(out@ =~= old(out)@ + repeated(unit@[0], done as nat));
    }
}

/// Appends the two-decimal text of `value` to `out`.
pub fn append_fixed(out: &mut String, value: i32)
    ensures
        final(out)@ == old(out)@ + fixed_text(value as int),
{
    let wide: i64 = value as i64;
    let m: u64 = if wide < 0 {
        (-wide) as u64
    } else {
        wide as u64
    };
    if value < 0 {
        out.append("-");
    }
    append_digits(out, m / 100);
    out.append(".");
    out.append(digit_str((m / 10) % 10));
    out.append(digit_str(m % 10));
    proof {
        reveal_strlit("-");
        reveal_strlit(".");
        assert(m as nat == magnitude(value as int));
        assert(out@ =~= old(out)@ + fixed_text(value as int));
    }
}

/// The two-decimal text of a value of hundredths: `2550` gives `25.50`,
/// `-5` gives `-0.05`.
pub fn format_fixed(value: i32) -> (text: String)
    ensures
        text@ == fixed_text(value as int),
{
    let mut text = String::new();
    append_fixed(&mut text, value);
    assert(text@ =~= fixed_text(value as int));
    text
}

/// The two-decimal text of `value`, set to the right in a field of `width`
/// characters.
pub fn format_fixed_padded(value: i32, width: usize) -> (text: String)
    ensures
        text@ == padded_text(fixed_text(value as int), width as nat),
{
    let body = format_fixed(value);
    let used = body.as_str().unicode_len();
    let mut text = String::new();
    if used < width {
        proof {
            reveal_strlit(" ");
        }
        append_repeated(&mut text, " ", width - used);
    }
    text.append(body.as_str());
    assert(text@ =~= padded_text(fixed_text(value as int), width as nat));
    text
}

} // verus!
