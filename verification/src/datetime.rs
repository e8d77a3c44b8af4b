//! Calendar dates and times of day, as chrono models them: validity, the
//! text chrono shows, weekdays and earlier days, and the clock.
use vstd::prelude::*;
use chrono::{Datelike, Timelike};

verus! {

/// The smallest year a calendar date may have.
pub const MIN_YEAR: i32 = -262143;
/// The largest year a calendar date may have.
pub const MAX_YEAR: i32 = 262142;

/// A day of the proleptic Gregorian calendar.
#[derive(Debug, Clone, Copy, PartialEq, Eq, Structural)]
pub struct NaiveDate {
    pub year: i32,
    pub month: u32,
    pub day: u32,
}

/// A time of day, with nanoseconds; `nano` may reach into a second
/// second only at second 59 (a leap second).
#[derive(Debug, Clone, Copy, PartialEq, Eq, Structural)]
pub struct NaiveTime {
    pub hour: u32,
    pub minute: u32,
    pub second: u32,
    pub nano: u32,
}

/// A calendar day together with a time of day, without a time zone.
#[derive(Debug, Clone, Copy, PartialEq, Eq, Structural)]
pub struct NaiveDateTime {
    pub date: NaiveDate,
    pub time: NaiveTime,
}

pub open spec fn is_leap_year(y: int) -> bool {
    y % 4 == 0 && (y % 100 != 0 || y % 400 == 0)
}

pub open spec fn days_in_month(y: int, m: int) -> int {
    if m == 2 {
        if is_leap_year(y) { 29 } else { 28 }
    } else if m == 4 || m == 6 || m == 9 || m == 11 {
        30
    } else {
        31
    }
}

/// Whether year, month and day name a day that exists and is in range.
pub open spec fn valid_ymd(y: int, m: int, d: int) -> bool {
    &&& MIN_YEAR <= y <= MAX_YEAR
    &&& 1 <= m <= 12
    &&& 1 <= d <= days_in_month(y, m)
}

/// Whether hour, minute, second and nanosecond name a time of day.
pub open spec fn valid_hms_nano(h: int, mi: int, s: int, n: int) -> bool {
    &&& h < 24
    &&& mi < 60
    &&& s < 60
    &&& n < 2_000_000_000
    &&& (n >= 1_000_000_000 ==> s == 59)
}

impl NaiveDate {
    pub open spec fn wf(self) -> bool {
        valid_ymd(self.year as int, self.month as int, self.day as int)
    }

    /// The date with the given year, month and day; `None` when that day
    /// does not exist or the year is out of range.
    pub fn from_ymd_opt(year: i32, month: u32, day: u32) -> (r: Option<NaiveDate>)
        ensures
            r == (if valid_ymd(year as int, month as int, day as int) {
                Some(NaiveDate { year, month, day })
            } else {
                None
            }),
    {
        if year < MIN_YEAR || year > MAX_YEAR || month < 1 || month > 12 || day < 1 {
            return None;
        }
        let a: u32 = if year < 0 { (0 - year) as u32 } else { year as u32 };
        assert((year as int) % 4 == 0 <==> (a as int) % 4 == 0);
        assert((year as int) % 100 == 0 <==> (a as int) % 100 == 0);
        assert((year as int) % 400 == 0 <==> (a as int) % 400 == 0);
        let leap = a % 4 == 0 && (a % 100 != 0 || a % 400 == 0);
        let dim: u32 = if month == 2 {
            if leap { 29 } else { 28 }
        } else if month == 4 || month == 6 || month == 9 || month == 11 {
            30
        } else {
            31
        };
        if day > dim {
            None
        } else {
            Some(NaiveDate { year, month, day })
        }
    }

    /// This date at the given time of day; `None` when the time is invalid.
    pub fn and_hms_opt(self, hour: u32, min: u32, sec: u32) -> (r: Option<NaiveDateTime>)
        ensures
            r == (if valid_hms_nano(hour as int, min as int, sec as int, 0) {
                Some(NaiveDateTime { date: self, time: NaiveTime { hour, minute: min, second: sec, nano: 0 } })
            } else {
                None
            }),
    {
        match NaiveTime::from_hms_opt(hour, min, sec) {
            Some(t) => Some(NaiveDateTime { date: self, time: t }),
            None => None,
        }
    }

    /// This date at the given time of day.
    pub fn and_time(self, time: NaiveTime) -> (r: NaiveDateTime)
        ensures
            r == (NaiveDateTime { date: self, time }),
    {
        NaiveDateTime { date: self, time }
    }
}

impl NaiveTime {
    pub open spec fn wf(self) -> bool {
        valid_hms_nano(self.hour as int, self.minute as int, self.second as int, self.nano as int)
    }

    /// The time of day with the given parts; `None` when they name no time.
    pub fn from_hms_nano_opt(hour: u32, min: u32, sec: u32, nano: u32) -> (r: Option<NaiveTime>)
        ensures
            r == (if valid_hms_nano(hour as int, min as int, sec as int, nano as int) {
                Some(NaiveTime { hour, minute: min, second: sec, nano })
            } else {
                None
            }),
    {
        if hour >= 24 || min >= 60 || sec >= 60 || (nano >= 1_000_000_000 && sec != 59)
            || nano >= 2_000_000_000 {
            None
        } else {
            Some(NaiveTime { hour, minute: min, second: sec, nano })
        }
    }

    /// The time of day at a whole second; `None` when the parts name no time.
    pub fn from_hms_opt(hour: u32, min: u32, sec: u32) -> (r: Option<NaiveTime>)
        ensures
            r == (if valid_hms_nano(hour as int, min as int, sec as int, 0) {
                Some(NaiveTime { hour, minute: min, second: sec, nano: 0 })
            } else {
                None
            }),
    {
        NaiveTime::from_hms_nano_opt(hour, min, sec, 0)
    }

    /// The time of day with microseconds; `None` when the parts name no time
    /// or the microseconds do not fit in nanoseconds.
    pub fn from_hms_micro_opt(hour: u32, min: u32, sec: u32, micro: u32) -> (r: Option<NaiveTime>)
        ensures
            r == (if micro as int * 1000 <= u32::MAX && valid_hms_nano(
                hour as int,
                min as int,
                sec as int,
                micro as int * 1000,
            ) {
                Some(NaiveTime { hour, minute: min, second: sec, nano: (micro * 1000) as u32 })
            } else {
                None
            }),
    {
        match micro.checked_mul(1000) {
            Some(nano) => NaiveTime::from_hms_nano_opt(hour, min, sec, nano),
            None => None,
        }
    }
}

impl NaiveDateTime {
    pub open spec fn wf(self) -> bool {
        self.date.wf() && self.time.wf()
    }

    /// The date and time joined.
    pub fn new(date: NaiveDate, time: NaiveTime) -> (r: NaiveDateTime)
        ensures
            r == (NaiveDateTime { date, time }),
    {
        NaiveDateTime { date, time }
    }

    /// The calendar day of this moment.
    pub fn date(&self) -> (r: NaiveDate)
        ensures
            r == self.date,
    {
        self.date
    }

    /// The text chrono's `Display` shows for this moment, such as
    /// `2024-07-15 14:30:45.123456` (see `chrono_datetime_text`).
    pub fn to_string(&self) -> (s: String)
        requires
            self.wf(),
        ensures
            s@ == chrono_datetime_text(*self),
    {
        chrono_display(self)
    }
}

/// What `Display` of `chrono::NaiveDateTime` shows for a date and time.
pub uninterp spec fn chrono_datetime_text(dt: NaiveDateTime) -> Seq<char>;

/// Builds the `chrono::NaiveDateTime` of a valid date and time and formats
/// it with its `Display`. The text is named `chrono_datetime_text`; a valid
/// date and time is one chrono accepts, so the conversion does not fail.
#[verifier::external_body]
fn chrono_display(dt: &NaiveDateTime) -> (s: String)
    requires
        dt.wf(),
    ensures
        s@ == chrono_datetime_text(*dt),
{
    let d = chrono::NaiveDate::from_ymd_opt(dt.date.year, dt.date.month, dt.date.day).expect("valid date");
    d.and_hms_nano_opt(dt.time.hour, dt.time.minute, dt.time.second, dt.time.nano).expect("valid time").to_string()
}

/// Reads the clock: `chrono::Utc::now().naive_utc()`, taken apart into its fields.
/// Which moment it is depends on the clock; stated are its validity and that
/// it is not before 1970 (chrono panics on a clock set before the Unix epoch).
#[verifier::external_body]
pub(crate) fn now_utc() -> (r: NaiveDateTime)
    ensures
        r.wf(),
        r.date.year >= 1970,
{
    let n = chrono::Utc::now().naive_utc();
    NaiveDateTime {
        date: NaiveDate { year: n.year(), month: n.month(), day: n.day() },
        time: NaiveTime { hour: n.hour(), minute: n.minute(), second: n.second(), nano: n.nanosecond() },
    }
}

/// What `chrono::NaiveDate::parse_from_str` gives for a text and a format:
/// the date, or the text of the parse error.
pub uninterp spec fn chrono_parse_date(s: Seq<char>, fmt: Seq<char>) -> Result<NaiveDate, Seq<char>>;

/// Calls `chrono::NaiveDate::parse_from_str`. Its result is named
/// `chrono_parse_date`; a parsed date is a valid chrono date.
#[verifier::external_body]
pub(crate) fn parse_date(s: &str, fmt: &str) -> (r: Result<NaiveDate, String>)
    ensures
        match r {
            Ok(d) => chrono_parse_date(s@, fmt@) == Ok::<NaiveDate, Seq<char>>(d) && d.wf(),
            Err(e) => chrono_parse_date(s@, fmt@) == Err::<NaiveDate, Seq<char>>(e@),
        },
{
    match chrono::NaiveDate::parse_from_str(s, fmt) {
        Ok(d) => Ok(NaiveDate { year: d.year(), month: d.month(), day: d.day() }),
        Err(e) => Err(e.to_string()),
    }
}

/// The weekday of a day counted from Sunday (0) to Saturday (6), in the
/// proleptic Gregorian calendar (Sakamoto's method).
pub open spec fn weekday_from_sunday(d: NaiveDate) -> int {
    let m = d.month as int;
    let y = if m < 3 { d.year as int - 1 } else { d.year as int };
    let t: int = if m == 1 { 0 } else if m == 2 { 3 } else if m == 3 { 2 } else if m == 4 { 5 } else if m == 5 { 0 }
        else if m == 6 { 3 } else if m == 7 { 5 } else if m == 8 { 1 } else if m == 9 { 4 } else if m == 10 { 6 }
        else if m == 11 { 2 } else { 4 };
    (y + y / 4 - y / 100 + y / 400 + t + d.day as int) % 7
}

/// Calls chrono's `weekday().num_days_from_sunday()` on a valid date.
#[verifier::external_body]
pub(crate) fn days_from_sunday(d: NaiveDate) -> (r: u32)
    requires
        d.wf(),
    ensures
        r == weekday_from_sunday(d),
{
    chrono::NaiveDate::from_ymd_opt(d.year, d.month, d.day).expect("valid date").weekday().num_days_from_sunday()
}

/// The day before a day.
pub open spec fn day_before(d: NaiveDate) -> NaiveDate {
    if d.day > 1 {
        NaiveDate { day: (d.day - 1) as u32, ..d }
    } else if d.month > 1 {
        NaiveDate { month: (d.month - 1) as u32, day: days_in_month(d.year as int, d.month - 1) as u32, ..d }
    } else {
        NaiveDate { year: (d.year - 1) as i32, month: 12, day: 31 }
    }
}

/// The day `k` days before a day.
pub open spec fn days_before(d: NaiveDate, k: nat) -> NaiveDate
    decreases k,
{
    if k == 0 {
        d
    } else {
        day_before(days_before(d, (k - 1) as nat))
    }
}

/// Calls chrono's subtraction of whole days (`dt - Duration::days(days)`)
/// from a valid date and time that is not in a leap second: the day moves
/// back by the days and the time of day stays. At least a year above the
/// smallest year, fewer than seven days cannot leave chrono's range.
#[verifier::external_body]
pub(crate) fn minus_days(dt: &NaiveDateTime, days: u32) -> (r: NaiveDateTime)
    requires
        dt.wf(),
        dt.time.nano < 1_000_000_000,
        dt.date.year > MIN_YEAR,
        days < 7,
    ensures
        r == (NaiveDateTime { date: days_before(dt.date, days as nat), time: dt.time }),
{
    let start = chrono::NaiveDate::from_ymd_opt(dt.date.year, dt.date.month, dt.date.day)
        .and_then(|d| d.and_hms_nano_opt(dt.time.hour, dt.time.minute, dt.time.second, dt.time.nano))
        .expect("valid date and time");
    let n = start - chrono::Duration::days(days as i64);
    NaiveDateTime {
        date: NaiveDate { year: n.year(), month: n.month(), day: n.day() },
        time: NaiveTime { hour: n.hour(), minute: n.minute(), second: n.second(), nano: n.nanosecond() },
    }
}

/// Whether month and day name a day of the calendar, in any year.
pub open spec fn calendar_day(d: NaiveDate) -> bool {
    1 <= d.month <= 12 && 1 <= d.day <= days_in_month(d.year as int, d.month as int)
}

/// The number of leap days in the years up to `y`, offset as Sakamoto's method counts them.
spec fn year_shift(y: int) -> int {
    y + y / 4 - y / 100 + y / 400
}

proof fn lemma_year_shift_step(y: int)
    ensures
        year_shift(y) - year_shift(y - 1) == 1 + (if is_leap_year(y) { 1int } else { 0int }),
{
    assert(y / 4 - (y - 1) / 4 == (if y % 4 == 0 { 1int } else { 0int }));
    assert(y / 100 - (y - 1) / 100 == (if y % 100 == 0 { 1int } else { 0int }));
    assert(y / 400 - (y - 1) / 400 == (if y % 400 == 0 { 1int } else { 0int }));
    assert(y % 400 == 0 ==> y % 100 == 0 && y % 4 == 0);
    assert(y % 100 == 0 ==> y % 4 == 0);
}

/// The day before a day of the calendar is a day of the calendar, one weekday earlier.
proof fn lemma_day_before_weekday(d: NaiveDate)
    requires
        calendar_day(d),
        d.year > i32::MIN,
    ensures
        calendar_day(day_before(d)),
        weekday_from_sunday(day_before(d)) == (weekday_from_sunday(d) + 6) % 7,
{
    let p = day_before(d);
    let y = d.year as int;
    if d.day == 1 && d.month == 3 {
        lemma_year_shift_step(y);
        assert(year_shift(y) == y + y / 4 - y / 100 + y / 400);
        assert(year_shift(y - 1) == (y - 1) + (y - 1) / 4 - (y - 1) / 100 + (y - 1) / 400);
    }
}

/// Going back `k` days from a day of the calendar, for `k` up to its weekday,
/// stays in the calendar, at most `k` years back, and `k` weekdays earlier.
#[verifier::rlimit(40)]
proof fn lemma_days_before_weekday(d: NaiveDate, k: nat)
    requires
        calendar_day(d),
        d.year > i32::MIN + 7,
        k <= weekday_from_sunday(d),
    ensures
        calendar_day(days_before(d, k)),
        days_before(d, k).year >= d.year - k,
        weekday_from_sunday(days_before(d, k)) == weekday_from_sunday(d) - k,
    decreases k,
{
    if k > 0 {
        let prev = days_before(d, (k - 1) as nat);
        lemma_days_before_weekday(d, (k - 1) as nat);
        assert(0 <= weekday_from_sunday(d) < 7);
        lemma_day_before_weekday(prev);
        assert(days_before(d, k) == day_before(prev));
    }
}

/// Going back from a day by its weekday reaches a Sunday.
pub(crate) proof fn lemma_back_to_sunday(d: NaiveDate)
    requires
        d.wf(),
    ensures
        weekday_from_sunday(days_before(d, weekday_from_sunday(d) as nat)) == 0,
{
    lemma_days_before_weekday(d, weekday_from_sunday(d) as nat);
}

} // verus!
