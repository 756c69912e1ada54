//! The text shown on the display and the pacing of the render loop.
//!
//! Each tick the caller reads the monotonic counter and asks `begin_tick` for
//! the line to draw; after drawing it reports the outcome to `end_tick`, which
//! answers with the sleep until the next tick or with a halt.

use vstd::prelude::*;
use crate::calendar::{accepted_civil, civil_time_of, to_civil, utc_civil_fields, CivilTime};
use crate::clock::{projected_seconds, projection_defined, try_project, ReferenceTime};

verus! {

/// Milliseconds from one tick of the render loop to the next.
pub const RENDER_CADENCE_MS: u32 = 1000;

/// The fixed zone offset of the display: three hours east of UTC.
pub const ZONE_OFFSET_SECONDS: i32 = 10800;

/// Number of characters of a formatted timestamp.
pub const TIMESTAMP_LEN: usize = 20;

/// The character of a decimal digit.
pub open spec fn digit_char(digit: int) -> char {
    if digit == 0 {
        '0'
    } else if digit == 1 {
        '1'
    } else if digit == 2 {
        '2'
    } else if digit == 3 {
        '3'
    } else if digit == 4 {
        '4'
    } else if digit == 5 {
        '5'
    } else if digit == 6 {
        '6'
    } else if digit == 7 {
        '7'
    } else if digit == 8 {
        '8'
    } else {
        '9'
    }
}

/// The two decimal digits of a number below a hundred.
pub open spec fn two_digits(number: int) -> Seq<char> {
    seq![digit_char(number / 10), digit_char(number % 10)]
}

/// The four decimal digits of a number below ten thousand.
pub open spec fn four_digits(number: int) -> Seq<char> {
    two_digits(number / 100) + two_digits(number % 100)
}

/// The date written as `YYYY-MM-DD`.
pub open spec fn date_text(civil: CivilTime) -> Seq<char> {
    four_digits(civil.year as int) + seq!['-'] + two_digits(civil.month as int) + seq!['-']
        + two_digits(civil.day as int)
}

/// The time of day written as `HH:MM:SS`.
pub open spec fn time_text(civil: CivilTime) -> Seq<char> {
    two_digits(civil.hour as int) + seq![':'] + two_digits(civil.minute as int) + seq![':']
        + two_digits(civil.second as int)
}

/// The civil time written as `YYYY-MM-DD THH:MM:SS`.
pub open spec fn timestamp_text(civil: CivilTime) -> Seq<char> {
    date_text(civil) + seq![' ', 'T'] + time_text(civil)
}

/// The line that a tick draws: the projected time as a civil time, written
/// out. There is none where the projection is not defined or the calendar
/// conversion was not accepted.
pub open spec fn tick_text(
    reference: ReferenceTime,
    monotonic_now: u64,
    zone_offset_seconds: i32,
) -> Option<Seq<char>> {
    let seconds = projected_seconds(reference, monotonic_now as int, zone_offset_seconds as int);
    if projection_defined(reference, monotonic_now as int, zone_offset_seconds as int) {
        match accepted_civil(utc_civil_fields(seconds as u32), seconds) {
            Some(civil) => Some(timestamp_text(civil)),
            None => None,
        }
    } else {
        None
    }
}

/// What the caller of the render loop has to do next.
#[derive(Debug, PartialEq, Eq)]
pub enum RenderAction {
    /// Hand this line to the display.
    Draw(String),
    /// Sleep this many milliseconds, then begin the next tick.
    Sleep { millis: u32 },
    /// Stop the process.
    Halt,
}

/// Formats the date of a civil time as `YYYY-MM-DD`.
pub fn format_date(civil: &CivilTime) -> (text: String)
    requires
        civil.wf(),
    ensures
        text@ == date_text(*civil),
        text@.len() == 10,
{
    proof {
        reveal_strlit("-");
    }
    let year: u32 = civil.year as u32;
    let mut text = String::new();
    push_two_digits(&mut text, year / 100);
    push_two_digits(&mut text, year % 100);
    assert(text@ =~= four_digits(civil.year as int));
    text.append("-");
    push_two_digits(&mut text, civil.month);
    text.append("-");
    push_two_digits(&mut text, civil.day);
    assert(text@ =~= date_text(*civil));
    text
}

/// Formats the time of day of a civil time as `HH:MM:SS`.
pub fn format_time(civil: &CivilTime) -> (text: String)
    requires
        civil.wf(),
    ensures
        text@ == time_text(*civil),
        text@.len() == 8,
{
    proof {
        reveal_strlit(":");
    }
    let mut text = String::new();
    push_two_digits(&mut text, civil.hour);
    text.append(":");
    push_two_digits(&mut text, civil.minute);
    text.append(":");
    push_two_digits(&mut text, civil.second);
    assert(text@ =~= time_text(*civil));
    text
}

/// Formats a civil time as `YYYY-MM-DD THH:MM:SS`.
pub fn format_timestamp(civil: &CivilTime) -> (text: String)
    requires
        civil.wf(),
    ensures
        text@ == timestamp_text(*civil),
        text@.len() == TIMESTAMP_LEN,
{
    proof {
        reveal_strlit(" T");
    }
    let mut text = format_date(civil);
    text.append(" T");
    let time = format_time(civil);
    text.append(time.as_str());
    assert(text@ =~= timestamp_text(*civil));
    text
}

/// Begins a tick of the render loop: projects the reference onto the counter
/// reading, converts the result to a civil time and formats it.
pub fn begin_tick(
    reference: ReferenceTime,
    monotonic_now: u64,
    zone_offset_seconds: i32,
) -> (action: RenderAction)
    ensures
        match action {
            RenderAction::Draw(text) => tick_text(reference, monotonic_now, zone_offset_seconds)
                == Some(text@),
            RenderAction::Halt => tick_text(reference, monotonic_now, zone_offset_seconds) is None,
            RenderAction::Sleep { .. } => false,
        },
        action matches RenderAction::Draw(text) ==> text@ == timestamp_text(
            civil_time_of(
                projected_seconds(reference, monotonic_now as int, zone_offset_seconds as int),
            ),
        ),
        !projection_defined(reference, monotonic_now as int, zone_offset_seconds as int)
            ==> action == RenderAction::Halt,
{
    match try_project(reference, monotonic_now, zone_offset_seconds) {
        Some(seconds) => match to_civil(seconds) {
            Some(civil) => RenderAction::Draw(format_timestamp(&civil)),
            None => RenderAction::Halt,
        },
        None => RenderAction::Halt,
    }
}

/// Ends a tick: after a line was drawn the loop sleeps until the next tick,
/// and after a failure of the display it halts.
pub fn end_tick(drawn: bool) -> (action: RenderAction)
    ensures
        drawn ==> action == (RenderAction::Sleep { millis: RENDER_CADENCE_MS }),
        !drawn ==> action == RenderAction::Halt,
{
    if drawn {
        RenderAction::Sleep { millis: RENDER_CADENCE_MS }
    } else {
        RenderAction::Halt
    }
}

/// Appends the character of one decimal digit.
fn push_digit(text: &mut String, digit: u32)
    requires
        digit < 10,
    ensures
        final(text)@ == old(text)@.push(digit_char(digit as int)),
{
    let literal: &str = if digit == 0 {
        "0"
    } else if digit == 1 {
        "1"
    } else if digit == 2 {
        "2"
    } else if digit == 3 {
        "3"
    } else if digit == 4 {
        "4"
    } else if digit == 5 {
        "5"
    } else if digit == 6 {
        "6"
    } else if digit == 7 {
        "7"
    } else if digit == 8 {
        "8"
    } else {
        "9"
    };
    proof {
        reveal_strlit("0");
        reveal_strlit("1");
        reveal_strlit("2");
        reveal_strlit("3");
        reveal_strlit("4");
        reveal_strlit("5");
        reveal_strlit("6");
        reveal_strlit("7");
        reveal_strlit("8");
        reveal_strlit("9");
        assert(literal@ =~= seq![digit_char(digit as int)]);
    }
    text.append(literal);
    assert(text@ =~= old(text)@.push(digit_char(digit as int)));
}

/// Appends the two decimal digits of a number below a hundred.
fn push_two_digits(text: &mut String, number: u32)
    requires
        number < 100,
    ensures
        final(text)@ == old(text)@ + two_digits(number as int),
{
    push_digit(text, number / 10);
    push_digit(text, number % 10);
    assert(text@ =~= old(text)@ + two_digits(number as int));
}

} // verus!
