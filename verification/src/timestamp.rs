//! The capture time of a frame as local date and time.
//!
//! The text has the form `MM/DD/YYYY HH:MM:SS`, so it exists for the times
//! whose local year has four digits: the years 0 to 9999. The local time
//! is the time at an offset from UTC. The caller says what the offset is;
//! the library reads no time zone.

use vstd::prelude::*;

verus! {

/// Microseconds in a second.
pub const MICROS_PER_SECOND: i64 = 1_000_000;

/// Seconds in a day. An offset from UTC is less than a day, east or west.
pub const DAY: i64 = 86_400;

/// The first second of the year 0, counted from the epoch.
pub const FIRST_SECOND: i64 = -62_167_219_200;

/// The first second of the year 10000, counted from the epoch.
pub const END_SECOND: i64 = 253_402_300_800;

/// The pattern of the text: month, day and year, then hour, minute and
/// second.
pub const TIME_PATTERN: &'static str = "%m/%d/%Y %H:%M:%S";

/// The text that shows the instant `seconds` after the epoch as date and
/// time of day at `offset` seconds east of UTC, written after `pattern`.
pub uninterp spec fn time_text_at(seconds: int, offset: int, pattern: Seq<char>) -> Seq<char>;

/// The text of a capture time: the instant `seconds` at `offset`, written
/// after `TIME_PATTERN`.
pub open spec fn timestamp_text(seconds: int, offset: int) -> Seq<char> {
    time_text_at(seconds, offset, TIME_PATTERN@)
}

/// Whether `microseconds` lie within one second.
pub open spec fn is_subsecond(microseconds: i64) -> bool {
    0 <= microseconds < MICROS_PER_SECOND
}

/// Whether `offset` is an offset from UTC: less than a day, east or west.
pub open spec fn is_offset(offset: int) -> bool {
    -DAY < offset < DAY
}

/// Whether the instant `seconds` is shown at `offset`: the local year
/// there is one of 0 to 9999.
pub open spec fn is_shown_at(seconds: int, offset: int) -> bool {
    is_offset(offset) && FIRST_SECOND <= seconds + offset < END_SECOND
}

/// The number that the digit `c` stands for.
pub open spec fn digit_value(c: char) -> int {
    c as int - '0' as int
}

/// Whether `c` is a decimal digit.
pub open spec fn is_digit(c: char) -> bool {
    0 <= digit_value(c) <= 9
}

/// The number that the two digits at `at` stand for.
pub open spec fn two_digits(text: Seq<char>, at: int) -> int {
    digit_value(text[at]) * 10 + digit_value(text[at + 1])
}

/// Whether `text` has the form `MM/DD/YYYY HH:MM:SS`: digits between the
/// separators, a month from 01 to 12, a day from 01 to 31, a year of four
/// digits, an hour from 00 to 23, and minute and second from 00 to 59.
pub open spec fn is_timestamp_text(text: Seq<char>) -> bool {
    &&& text.len() == 19
    &&& text[2] == '/' && text[5] == '/' && text[10] == ' ' && text[13] == ':' && text[16] == ':'
    &&& forall|i: int|
        0 <= i < 19 && i != 2 && i != 5 && i != 10 && i != 13 && i != 16 ==> is_digit(
            #[trigger] text[i],
        )
    &&& 1 <= two_digits(text, 0) <= 12
    &&& 1 <= two_digits(text, 3) <= 31
    &&& two_digits(text, 11) <= 23
    &&& two_digits(text, 14) <= 59
    &&& two_digits(text, 17) <= 59
}

/// Calls `chrono::FixedOffset::east_opt` and
/// `chrono::DateTime::from_timestamp`, moves the time to that offset with
/// `with_timezone` and formats it after `pattern`. Not proved: that there
/// is a result for an instant that is shown at the offset, that it is the
/// text named by `time_text_at`, and that after `TIME_PATTERN` it has the
/// form `MM/DD/YYYY HH:MM:SS` with each field in its range. The call
/// panics on a pattern that chrono cannot read, which `requires` leaves
/// out.
#[verifier::external_body]
fn text_at(seconds: i64, offset: i32, pattern: &str) -> (text: Option<String>)
    requires
        is_shown_at(seconds as int, offset as int),
        pattern@ == TIME_PATTERN@,
    ensures
        text is Some,
        text matches Some(shown) ==> shown@ == time_text_at(seconds as int, offset as int, pattern@),
        text matches Some(shown) ==> is_timestamp_text(shown@),
{
    let zone = chrono::FixedOffset::east_opt(offset)?;
    let utc = chrono::DateTime::from_timestamp(seconds, 0)?;
    Some(utc.with_timezone(&zone).format(pattern).to_string())
}

/// The date and time of day of the instant `seconds` at `offset` seconds
/// east of UTC, as `MM/DD/YYYY HH:MM:SS`. There is a text exactly where
/// the instant is shown at the offset.
pub fn format_at(seconds: i64, offset: i32) -> (text: Option<String>)
    ensures
        text is Some <==> is_shown_at(seconds as int, offset as int),
        text matches Some(shown) ==> shown@ == timestamp_text(seconds as int, offset as int),
        text matches Some(shown) ==> is_timestamp_text(shown@),
{
    if -DAY < offset as i64 && (offset as i64) < DAY && FIRST_SECOND - DAY < seconds && seconds
        < END_SECOND + DAY {
        let local: i64 = seconds + offset as i64;
        if FIRST_SECOND <= local && local < END_SECOND {
            return text_at(seconds, offset, TIME_PATTERN);
        }
    }
    None
}

/// The local date and time of a capture time, as `MM/DD/YYYY HH:MM:SS`:
/// the text for its seconds at `offset`, the local offset from UTC at that
/// instant in seconds east. The microseconds must lie within the second
/// and change nothing in the text. There is a text exactly where they do
/// and the instant is shown at the offset.
pub fn format_timeval(seconds: i64, microseconds: i64, offset: i32) -> (text: Option<String>)
    ensures
        text is Some <==> is_subsecond(microseconds) && is_shown_at(
            seconds as int,
            offset as int,
        ),
        text matches Some(shown) ==> shown@ == timestamp_text(seconds as int, offset as int),
        text matches Some(shown) ==> is_timestamp_text(shown@),
{
    if 0 <= microseconds && microseconds < MICROS_PER_SECOND {
        format_at(seconds, offset)
    } else {
        None
    }
}

} // verus!
