//! The diagnostic lines of the control loop.
//!
//! Two kinds of line go to the console: the raw button sample of every
//! cycle, and the status of every action tick. The lines are for people to
//! read; each is returned without a line ending.

use vstd::prelude::*;
use vstd::string::StringExecFns;
use crate::buttons::ButtonState;
use crate::control::StatusReport;

verus! {

/// What the line of a raw sample starts with.
pub const SAMPLE_PREFIX: &'static str = "buttonABC: ";

/// What the status line starts with while button A is not held.
pub const IDLE_PREFIX: &'static str = "Hello world counter=";

/// What the status line starts with while button A is held.
pub const PRESSED_PREFIX: &'static str = "BtnA Pressed !! counter=";

/// The character of one decimal digit.
pub open spec fn digit_char(digit: nat) -> char {
    if digit == 0 {
        '0'
    } else if digit == 1 {
        '1'
    } else if digit == 2 {
        '2'
    } else if digit == 3 {
        '3'
    } else if digit == 4 {
        '4'
    } else if digit == 5 {
        '5'
    } else if digit == 6 {
        '6'
    } else if digit == 7 {
        '7'
    } else if digit == 8 {
        '8'
    } else {
        '9'
    }
}

/// The decimal digits of `n`, most significant first, without leading zeros.
pub open spec fn digits(n: nat) -> Seq<char>
    decreases n,
{
    if n < 10 {
        seq![digit_char(n)]
    } else {
        digits(n / 10).push(digit_char(n % 10))
    }
}

/// `value` in decimal, with a minus sign in front where it is negative.
pub open spec fn decimal(value: int) -> Seq<char> {
    if value < 0 {
        seq!['-'] + digits((-value) as nat)
    } else {
        digits(value as nat)
    }
}

/// `true` or `false`, spelled out.
pub open spec fn truth(held: bool) -> Seq<char> {
    if held {
        "true"@
    } else {
        "false"@
    }
}

/// The line of a raw sample: the prefix and the three buttons in the order
/// A, B, C, separated by single spaces.
pub open spec fn sample_text(state: ButtonState) -> Seq<char> {
    SAMPLE_PREFIX@ + truth(state.a) + " "@ + truth(state.b) + " "@ + truth(state.c)
}

/// The line of an action tick: the prefix that tells whether A was held, and
/// the counter in decimal.
pub open spec fn status_text(report: StatusReport) -> Seq<char> {
    (if report.a_pressed {
        PRESSED_PREFIX@
    } else {
        IDLE_PREFIX@
    }) + decimal(report.counter as int)
}

fn digit_text(digit: u8) -> (text: &'static str)
    requires
        digit < 10,
    ensures
        text@ == seq![digit_char(digit as nat)],
{
    proof {
        reveal_strlit("0");
        reveal_strlit("1");
        reveal_strlit("2");
        reveal_strlit("3");
        reveal_strlit("4");
        reveal_strlit("5");
        reveal_strlit("6");
        reveal_strlit("7");
        reveal_strlit("8");
        reveal_strlit("9");
    }
    let text: &'static str = match digit {
        0 => "0",
        1 => "1",
        2 => "2",
        3 => "3",
        4 => "4",
        5 => "5",
        6 => "6",
        7 => "7",
        8 => "8",
        _ => "9",
    };
    assert(text@ =~= seq![digit_char(digit as nat)]);
    text
}

fn truth_text(held: bool) -> (text: &'static str)
    ensures
        text@ == truth(held),
{
    if held {
        "true"
    } else {
        "false"
    }
}

/// `value` in decimal.
pub fn decimal_text(value: i8) -> (text: String)
    ensures
        text@ == decimal(value as int),
{
    let wide: i16 = value as i16;
    let magnitude: i16 = if wide < 0 { -wide } else { wide };
    let mut text: String = String::new();
    if wide < 0 {
        proof {
            reveal_strlit("-");
        }
        text.append("-");
    }
    if magnitude >= 100 {
        text.append(digit_text((magnitude / 100) as u8));
    }
    if magnitude >= 10 {
        text.append(digit_text(((magnitude / 10) % 10) as u8));
    }
    text.append(digit_text((magnitude % 10) as u8));
    proof {
        reveal_with_fuel(digits, 3);
        assert(text@ =~= decimal(value as int));
    }
    text
}

/// The line that reports the raw sample of a cycle.
pub fn sample_line(state: ButtonState) -> (line: String)
    ensures
        line@ == sample_text(state),
{
    let mut line: String = String::from_str(SAMPLE_PREFIX);
    line.append(truth_text(state.a));
    line.append(" ");
    line.append(truth_text(state.b));
    line.append(" ");
    line.append(truth_text(state.c));
    line
}

/// The line that reports an action tick.
pub fn status_line(report: StatusReport) -> (line: String)
    ensures
        line@ == status_text(report),
{
    let mut line: String = String::from_str(if report.a_pressed {
        PRESSED_PREFIX
    } else {
        IDLE_PREFIX
    });
    let counter: String = decimal_text(report.counter);
    line.append(counter.as_str());
    line
}

/// A counter takes between one and four characters in decimal.
pub proof fn lemma_decimal_is_short(value: int)
    requires
        -128 <= value <= 127,
    ensures
        1 <= decimal(value).len() <= 4,
{
    reveal_with_fuel(digits, 3);
}

} // verus!
