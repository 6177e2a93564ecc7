use vstd::prelude::*;

verus! {

/// The first instant the calendar can express, in seconds from the Unix
/// epoch: the start of the year -262143.
pub const MIN_UNIX_SECS: i64 = -8_334_601_228_800;

/// The last instant the calendar can express: the end of the year 262142.
pub const MAX_UNIX_SECS: i64 = 8_210_266_876_799;

/// The first second of the year 0, in seconds from the Unix epoch.
pub const YEAR_0_START: i64 = -62_167_219_200;

/// The last second of the year 9999.
pub const YEAR_9999_END: i64 = 253_402_300_799;

/// Whether an instant has a wall-clock text at an offset from UTC: the
/// offset is less than a day either way and the calendar holds the instant.
pub open spec fn has_text(unix_secs: int, utc_offset_secs: int) -> bool {
    &&& -86_400 < utc_offset_secs < 86_400
    &&& MIN_UNIX_SECS <= unix_secs <= MAX_UNIX_SECS
}

/// Whether the wall clock at that offset shows a year from 0 to 9999.
pub open spec fn in_four_digit_years(unix_secs: int, utc_offset_secs: int) -> bool {
    YEAR_0_START <= unix_secs + utc_offset_secs <= YEAR_9999_END
}

/// Whether `t` has the shape `dddd-dd-dd dd:dd:dd`, each `d` a digit.
pub open spec fn is_date_time_text(t: Seq<char>) -> bool {
    &&& t.len() == 19
    &&& forall|i: int|
        0 <= i < 19 ==> if i == 4 || i == 7 {
            #[trigger] t[i] == '-'
        } else if i == 10 {
            t[i] == ' '
        } else if i == 13 || i == 16 {
            t[i] == ':'
        } else {
            '0' <= t[i] <= '9'
        }
}

/// The wall-clock text, as `year-month-day hour:minute:second`, of the
/// instant `unix_secs` seconds after the Unix epoch, read on a clock that is
/// `utc_offset_secs` seconds ahead of UTC; `None` where the instant has no
/// text.
pub uninterp spec fn local_time_text(unix_secs: int, utc_offset_secs: int) -> Option<Seq<char>>;

/// Formats an instant with `chrono::DateTime::format`, pattern
/// `%Y-%m-%d %H:%M:%S`, at a fixed offset from UTC.
///
/// Trusted: the text is a function of the two numbers alone, which
/// `local_time_text` names. The instant is built with
/// `DateTime::from_timestamp`, which takes every second of the years
/// -262143 to 262142 and no other, and the offset with
/// `FixedOffset::east_opt`, which takes the offsets of less than a day;
/// where either turns its number down, so does this function. For a year
/// from 0 to 9999 the pattern writes four digits, and it writes two for
/// each other field.
#[verifier::external_body]
fn format_at_offset(unix_secs: i64, utc_offset_secs: i32) -> (text: Option<String>)
    ensures
        text.is_some() == has_text(unix_secs as int, utc_offset_secs as int),
        match text {
            Some(t) => local_time_text(unix_secs as int, utc_offset_secs as int) == Some(t@),
            None => local_time_text(unix_secs as int, utc_offset_secs as int).is_none(),
        },
        text.is_some() && in_four_digit_years(unix_secs as int, utc_offset_secs as int)
            ==> is_date_time_text(text.unwrap()@),
{
    let offset = chrono::FixedOffset::east_opt(utc_offset_secs)?;
    let instant = chrono::DateTime::from_timestamp(unix_secs, 0)?;
    Some(instant.with_timezone(&offset).format("%Y-%m-%d %H:%M:%S").to_string())
}

/// Every delay has a text of nineteen characters on a clock that reads well
/// inside the years 0 to 9999.
///
/// Where `now_unix_secs` is at least an `i32` of seconds and a day away from
/// both ends of those years, the instant `seconds` later has a text at every
/// offset of less than a day, and the clock there shows a year from 0 to
/// 9999, whatever `seconds` is.
pub proof fn law_clock_readings_have_text(now_unix_secs: i64, utc_offset_secs: i32, seconds: i32)
    requires
        YEAR_0_START + 0x8000_0000 + 86_400 <= now_unix_secs,
        now_unix_secs <= YEAR_9999_END - 0x8000_0000 - 86_400,
        -86_400 < utc_offset_secs < 86_400,
    ensures
        has_text(now_unix_secs + seconds, utc_offset_secs as int),
        in_four_digit_years(now_unix_secs + seconds, utc_offset_secs as int),
{
}

/// The instant `seconds` seconds after `now_unix_secs`, unless it is beyond
/// `i64` seconds.
pub fn future_instant(now_unix_secs: i64, seconds: i32) -> (future: Option<i64>)
    ensures
        future.is_some() == (i64::MIN <= now_unix_secs + seconds <= i64::MAX),
        future.is_some() ==> future.unwrap() == now_unix_secs + seconds,
{
    now_unix_secs.checked_add(seconds as i64)
}

/// The wall-clock text of the instant `seconds` seconds after
/// `now_unix_secs`, on a clock `utc_offset_secs` seconds ahead of UTC.
///
/// There is a text exactly when that instant is one of the calendar and the
/// offset is less than a day. Where the clock then shows a year from 0 to
/// 9999, the text has nineteen characters, `dddd-dd-dd dd:dd:dd`.
pub fn caculate_future_time(now_unix_secs: i64, utc_offset_secs: i32, seconds: i32) -> (text:
    Option<String>)
    ensures
        text.is_some() == has_text(now_unix_secs + seconds, utc_offset_secs as int),
        match text {
            Some(t) => local_time_text(now_unix_secs + seconds, utc_offset_secs as int) == Some(
                t@,
            ),
            None => true,
        },
        text.is_some() && in_four_digit_years(now_unix_secs + seconds, utc_offset_secs as int)
            ==> is_date_time_text(text.unwrap()@),
{
    match future_instant(now_unix_secs, seconds) {
        Some(future) => format_at_offset(future, utc_offset_secs),
        None => None,
    }
}

} // verus!
