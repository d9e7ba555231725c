//! Dates, times and durations: the two accepted textual time formats, the
//! current local time, and the compact rendering of a duration.
use vstd::prelude::*;

use crate::error::KimaiError;
use crate::query::{decimal, digit_char, digit_char_spec, push_char, push_decimal};
use chrono::{Datelike, TimeZone, Timelike};

verus! {

/// A date with a time: year, month and day, then time of day.
pub const DATETIME_FORMAT: &'static str = "%Y-%m-%d %H:%M";

/// A time of day on the current local date.
pub const TIME_FORMAT: &'static str = "%H:%M";

/// Leap years of the proleptic Gregorian calendar.
pub open spec fn is_leap_year(y: int) -> bool {
    (y % 4 == 0 && y % 100 != 0) || y % 400 == 0
}

/// The number of days of month `m` (1 to 12) of year `y`.
pub open spec fn days_in_month(y: int, m: int) -> int {
    if m == 2 {
        if is_leap_year(y) {
            29
        } else {
            28
        }
    } else if m == 4 || m == 6 || m == 9 || m == 11 {
        30
    } else {
        31
    }
}

/// A calendar date.
#[derive(Debug, Clone, Copy, PartialEq, Eq, Structural)]
pub struct CivilDate {
    pub year: i32,
    pub month: u32,
    pub day: u32,
}

impl CivilDate {
    pub open spec fn wf(&self) -> bool {
        1 <= self.month <= 12 && 1 <= self.day <= days_in_month(self.year as int, self.month as int)
    }
}

/// A time of day. A leap second is held as second 59 with a nanosecond
/// count of one second or more; no other second holds such a count.
#[derive(Debug, Clone, Copy, PartialEq, Eq, Structural)]
pub struct ClockTime {
    pub hour: u32,
    pub minute: u32,
    pub second: u32,
    pub nanosecond: u32,
}

impl ClockTime {
    pub open spec fn wf(&self) -> bool {
        &&& self.hour < 24
        &&& self.minute < 60
        &&& self.second < 60
        &&& (self.nanosecond < 1_000_000_000 || (self.second == 59 && self.nanosecond
            < 2_000_000_000))
    }
}

/// A date and time of day with no time zone.
#[derive(Debug, Clone, Copy, PartialEq, Eq, Structural)]
pub struct NaiveStamp {
    pub date: CivilDate,
    pub time: ClockTime,
}

impl NaiveStamp {
    pub open spec fn wf(&self) -> bool {
        self.date.wf() && self.time.wf()
    }
}

/// A local date and time with the offset of the local time zone at that
/// moment, in seconds east of UTC.
#[derive(Debug, Clone, Copy, PartialEq, Eq, Structural)]
pub struct LocalStamp {
    pub local: NaiveStamp,
    pub offset_seconds: i32,
}

impl LocalStamp {
    pub open spec fn wf(&self) -> bool {
        self.local.wf() && -86_400 < self.offset_seconds < 86_400
    }
}

/// What chrono's `NaiveDateTime::parse_from_str` returns for a text and a
/// format.
pub uninterp spec fn naive_datetime_parse(s: Seq<char>, fmt: Seq<char>) -> Option<NaiveStamp>;

/// What chrono's `NaiveTime::parse_from_str` returns for a text and a
/// format.
pub uninterp spec fn naive_time_parse(s: Seq<char>, fmt: Seq<char>) -> Option<ClockTime>;

/// Relies on chrono's `NaiveDateTime::parse_from_str`: the result depends on
/// the text and the format alone, and a parsed value is a valid date and time.
/// A format without seconds gives second 0 and nanosecond 0.
#[verifier::external_body]
fn parse_naive_datetime(s: &str, fmt: &str) -> (r: Option<NaiveStamp>)
    ensures
        r == naive_datetime_parse(s@, fmt@),
        r matches Some(d) ==> d.wf(),
        fmt@ == DATETIME_FORMAT@ ==> (r matches Some(d) ==> d.time.second == 0
            && d.time.nanosecond == 0),
{
    match chrono::NaiveDateTime::parse_from_str(s, fmt) {
        Ok(d) => Some(NaiveStamp {
            date: CivilDate { year: d.year(), month: d.month(), day: d.day() },
            time: ClockTime { hour: d.hour(), minute: d.minute(), second: d.second(), nanosecond: d.nanosecond() },
        }),
        Err(_) => None,
    }
}

/// Relies on chrono's `NaiveTime::parse_from_str`: the result depends on the
/// text and the format alone, and a parsed value is a valid time of day.
/// A format without seconds gives second 0 and nanosecond 0.
#[verifier::external_body]
fn parse_naive_time(s: &str, fmt: &str) -> (r: Option<ClockTime>)
    ensures
        r == naive_time_parse(s@, fmt@),
        r matches Some(t) ==> t.wf(),
        fmt@ == TIME_FORMAT@ ==> (r matches Some(t) ==> t.second == 0 && t.nanosecond == 0),
{
    match chrono::NaiveTime::parse_from_str(s, fmt) {
        Ok(t) => Some(ClockTime { hour: t.hour(), minute: t.minute(), second: t.second(), nanosecond: t.nanosecond() }),
        Err(_) => None,
    }
}

#[verifier::external_type_specification]
#[verifier::external_body]
pub struct ExSystemTime(std::time::SystemTime);

/// Relies on `SystemTime::now`: a reading of the system clock.
#[verifier::external_body]
fn system_now() -> (r: std::time::SystemTime) {
    std::time::SystemTime::now()
}

/// Relies on `SystemTime::duration_since` with `UNIX_EPOCH`: the whole
/// seconds and the nanoseconds past them since 1970, or `None` for a reading
/// before 1970.
#[verifier::external_body]
fn since_unix_epoch(t: &std::time::SystemTime) -> (r: Option<(u64, u32)>)
    ensures
        r matches Some(p) ==> p.1 < 1_000_000_000,
{
    match t.duration_since(std::time::UNIX_EPOCH) {
        Ok(d) => Some((d.as_secs(), d.subsec_nanos())),
        Err(_) => None,
    }
}

/// The number of days from 1970-01-01 to a date of the proleptic Gregorian
/// calendar, negative before it.
pub open spec fn days_from_civil(y: int, m: int, d: int) -> int {
    let y0 = if m <= 2 { y - 1 } else { y };
    let era = y0 / 400;
    let yoe = y0 - era * 400;
    let mp = if m > 2 { m - 3 } else { m + 9 };
    let doy = (153 * mp + 2) / 5 + d - 1;
    let doe = yoe * 365 + yoe / 4 - yoe / 100 + doy;
    era * 146097 + doe - 719468
}

/// The Unix time, in whole seconds, of a local date and time at its offset.
pub open spec fn unix_seconds(z: LocalStamp) -> int {
    days_from_civil(z.local.date.year as int, z.local.date.month as int, z.local.date.day as int)
        * 86400 + z.local.time.hour * 3600 + z.local.time.minute * 60 + z.local.time.second
        - z.offset_seconds
}

/// Relies on chrono's `DateTime::from_timestamp` and `with_timezone(&Local)`:
/// the local date and time of a Unix timestamp, which is valid, with the
/// local zone's offset, which is under a day, at the same instant and with
/// the same nanoseconds; `None` outside chrono's range.
#[verifier::external_body]
fn local_at(secs: u64, nanos: u32) -> (r: Option<LocalStamp>)
    requires
        nanos < 1_000_000_000,
    ensures
        r matches Some(z) ==> z.wf() && unix_seconds(z) == secs && z.local.time.nanosecond
            == nanos,
{
    let n = chrono::DateTime::from_timestamp(i64::try_from(secs).ok()?, nanos)?.with_timezone(&chrono::Local);
    Some(LocalStamp {
        local: NaiveStamp {
            date: CivilDate { year: n.year(), month: n.month(), day: n.day() },
            time: ClockTime { hour: n.hour(), minute: n.minute(), second: n.second(), nanosecond: n.nanosecond() },
        },
        offset_seconds: n.offset().local_minus_utc(),
    })
}

/// The current local date and time; `None` where the system clock reads
/// before 1970 or beyond the range of dates.
fn local_now() -> (r: Option<LocalStamp>)
    ensures
        r matches Some(z) ==> z.wf(),
{
    match since_unix_epoch(&system_now()) {
        Some((secs, nanos)) => local_at(secs, nanos),
        None => None,
    }
}

/// Relies on chrono's `Local::from_local_datetime`: where the local time
/// zone gives the date and time exactly one instant, that instant, which
/// keeps the local date and time; `None` where it gives none or two.
#[verifier::external_body]
fn local_from_naive(d: &NaiveStamp) -> (r: Option<LocalStamp>)
    requires
        d.wf(),
    ensures
        r matches Some(z) ==> z.local == *d && z.wf(),
{
    let t = chrono::NaiveTime::from_hms_nano_opt(d.time.hour, d.time.minute, d.time.second, d.time.nanosecond)?;
    let n = chrono::NaiveDate::from_ymd_opt(d.date.year, d.date.month, d.date.day)?.and_time(t);
    let z = chrono::Local.from_local_datetime(&n).single()?;
    Some(LocalStamp { local: *d, offset_seconds: z.offset().local_minus_utc() })
}

/// The message of a date or time string that matched neither format.
pub open spec fn unparsable_message() -> Seq<char> {
    "input matches neither \"%Y-%m-%d %H:%M\" nor \"%H:%M\""@
}

/// The message of a time of day given while the system clock cannot tell
/// today's date.
pub open spec fn no_clock_message() -> Seq<char> {
    "the system clock cannot tell today's date"@
}

/// The date and time that a text denotes, given what the two formats made
/// of it and today's date, if known: the full format first, then a time of
/// day on `today`; an error naming both formats when neither matched.
pub fn choose_datetime(full: Option<NaiveStamp>, time: Option<ClockTime>, today: Option<CivilDate>) -> (r:
    Result<NaiveStamp, KimaiError>)
    ensures
        full matches Some(d) ==> r == Ok::<NaiveStamp, KimaiError>(d),
        full is None ==> (time matches Some(t) ==> (today matches Some(day) ==> r == Ok::<
            NaiveStamp,
            KimaiError,
        >(NaiveStamp { date: day, time: t }))),
        full is None && time is Some && today is None ==> (r matches Err(KimaiError::Other(m))
            && m@ == no_clock_message()),
        full is None && time is None ==> (r matches Err(KimaiError::ChronoParse(m)) && m@
            == unparsable_message()),
{
    match full {
        Some(d) => Ok(d),
        None => match time {
            Some(t) => match today {
                Some(day) => Ok(NaiveStamp { date: day, time: t }),
                None => Err(KimaiError::Other("the system clock cannot tell today's date".to_string())),
            },
            None => Err(
                KimaiError::ChronoParse(
                    "input matches neither \"%Y-%m-%d %H:%M\" nor \"%H:%M\"".to_string(),
                ),
            ),
        },
    }
}

/// The message of a local date and time that the local time zone gives no
/// single instant.
pub open spec fn no_single_instant_message() -> Seq<char> {
    "the local time zone gives this date and time no single instant"@
}

/// What reading `s` as a local date and time may give: the full format's
/// date and time where it matches, unless the local time zone gives it no
/// single instant; else the time of day on today's date, unless the clock
/// cannot tell the date or the zone gives no single instant; else the error
/// that names both formats. A date and time read from either format has no
/// seconds.
pub open spec fn datetime_outcome(s: Seq<char>, r: Result<LocalStamp, KimaiError>) -> bool {
    &&& r matches Ok(z) ==> z.wf() && z.local.time.second == 0 && z.local.time.nanosecond == 0
    &&& naive_datetime_parse(s, DATETIME_FORMAT@) matches Some(d) ==> {
        ||| r matches Ok(z) && z.local == d
        ||| r matches Err(KimaiError::ChronoParse(m)) && m@ == no_single_instant_message()
    }
    &&& naive_datetime_parse(s, DATETIME_FORMAT@) is None ==> (naive_time_parse(s, TIME_FORMAT@) matches Some(t) ==> {
        ||| r matches Ok(z) && z.local.time == t
        ||| r matches Err(KimaiError::ChronoParse(m)) && m@ == no_single_instant_message()
        ||| r matches Err(KimaiError::Other(m)) && m@ == no_clock_message()
    })
    &&& naive_datetime_parse(s, DATETIME_FORMAT@) is None && naive_time_parse(s, TIME_FORMAT@) is None
        ==> (r matches Err(KimaiError::ChronoParse(m)) && m@ == unparsable_message())
}

/// The local date and time that a text denotes: in the full format, or as
/// a time of day on today's local date.
pub fn str_to_datetime(date_str: &str) -> (r: Result<LocalStamp, KimaiError>)
    ensures
        datetime_outcome(date_str@, r),
{
    let full = parse_naive_datetime(date_str, DATETIME_FORMAT);
    let time = match full {
        Some(_) => None,
        None => parse_naive_time(date_str, TIME_FORMAT),
    };
    let today = match (&full, &time) {
        (None, Some(_)) => match local_now() {
            Some(z) => Some(z.local.date),
            None => None,
        },
        _ => None,
    };
    let naive = choose_datetime(full, time, today)?;
    match local_from_naive(&naive) {
        Some(z) => Ok(z),
        None => Err(
            KimaiError::ChronoParse(
                "the local time zone gives this date and time no single instant".to_string(),
            ),
        ),
    }
}

/// The same moment with the fraction of a second dropped.
pub fn truncate_subsec(z: LocalStamp) -> (r: LocalStamp)
    ensures
        r == (LocalStamp {
            local: NaiveStamp {
                date: z.local.date,
                time: ClockTime { nanosecond: 0, ..z.local.time },
            },
            ..z
        }),
{
    LocalStamp {
        local: NaiveStamp { date: z.local.date, time: ClockTime { nanosecond: 0, ..z.local.time } },
        ..z
    }
}

/// The message of a begin time asked of a system clock that reads before
/// 1970 or beyond the range of dates.
pub open spec fn clock_unreadable_message() -> Seq<char> {
    "the system clock reads outside the range of dates"@
}

/// The begin time of a new record: the text read as by `str_to_datetime`,
/// or, where none is given, the current local time without its fraction of
/// a second.
pub fn get_datetime(datetime_str: Option<String>) -> (r: Result<LocalStamp, KimaiError>)
    ensures
        datetime_str matches Some(s) ==> datetime_outcome(s@, r),
        datetime_str is None ==> (r matches Ok(z) ==> z.wf() && z.local.time.nanosecond == 0),
        datetime_str is None ==> (r is Err ==> (r matches Err(KimaiError::Other(m)) && m@
            == clock_unreadable_message())),
{
    match datetime_str {
        Some(s) => str_to_datetime(s.as_str()),
        None => match local_now() {
            Some(z) => Ok(truncate_subsec(z)),
            None => Err(KimaiError::Other("the system clock reads outside the range of dates".to_string())),
        },
    }
}

/// The text of a non-negative duration given in seconds: whole hours, a
/// colon, then the minutes past the hour in two digits.
pub open spec fn duration_text(seconds: nat) -> Seq<char> {
    let minutes = (seconds / 60) % 60;
    decimal(seconds / 3600) + seq![':', digit_char_spec(minutes / 10), digit_char_spec(minutes % 10)]
}

/// Renders a duration in seconds as `H:MM`, hours not capped at a day.
pub fn format_duration(seconds: i64) -> (r: String)
    requires
        seconds >= 0,
    ensures
        r@ == duration_text(seconds as nat),
{
    let s = seconds as u64;
    let minutes = (s / 60) % 60;
    let mut out = String::new();
    push_decimal(&mut out, s / 3600);
    push_char(&mut out, ':');
    push_char(&mut out, digit_char(minutes / 10));
    push_char(&mut out, digit_char(minutes % 10));
    assert(out@ =~= duration_text(seconds as nat));
    out
}

} // verus!
