//! Points in time, as the catalog records them, and the two ways they are
//! written out: compact, as a backup id, and readable, for listings.

use vstd::prelude::*;
use vstd::string::*;
use crate::text::zero_padded;
use chrono::{Datelike, Timelike};

verus! {

/// A civil date and time of day with its offset from UTC.
#[derive(Clone, Copy, Debug, PartialEq, Eq, Structural)]
pub struct Timestamp {
    pub year: i32,
    pub month: u32,
    pub day: u32,
    pub hour: u32,
    pub minute: u32,
    pub second: u32,
    /// From 1,000,000,000 on, the second is a leap second after `second`.
    pub nanosecond: u32,
    /// Seconds to add to UTC to get the local time.
    pub utc_offset_seconds: i32,
}

/// The first and the last year a date can lie in.
pub const MIN_YEAR: i32 = -262143;

pub const MAX_YEAR: i32 = 262142;

/// The pattern that writes a timestamp as a backup id.
pub const ID_PATTERN: &'static str = "%Y%m%d_%H%M%S";

/// The pattern that writes a timestamp for a listing.
pub const DISPLAY_PATTERN: &'static str = "%Y-%m-%d %H:%M:%S";

/// Whether `year` is a leap year of the proleptic Gregorian calendar.
pub open spec fn is_leap_year(year: int) -> bool {
    year % 4 == 0 && (year % 100 != 0 || year % 400 == 0)
}

/// The number of days of `month` (1 to 12) in `year`.
pub open spec fn days_in_month(year: int, month: int) -> int {
    if month == 2 {
        if is_leap_year(year) {
            29
        } else {
            28
        }
    } else if month == 4 || month == 6 || month == 9 || month == 11 {
        30
    } else {
        31
    }
}

/// The year as a timestamp shows it: four digits from 0 to 9999, and a sign
/// before at least four digits outside of that.
pub open spec fn year_text(year: int) -> Seq<char> {
    if 0 <= year <= 9999 {
        zero_padded(year as nat, 4)
    } else if year < 0 {
        seq!['-'] + zero_padded((-year) as nat, 4)
    } else {
        seq!['+'] + zero_padded(year as nat, 4)
    }
}

/// A number below 100 as two digits.
pub open spec fn two_digits(n: int) -> Seq<char> {
    zero_padded(n as nat, 2)
}

impl Timestamp {
    /// Whether the fields name a date of the calendar and a time of day.
    pub open spec fn is_valid(&self) -> bool {
        &&& MIN_YEAR <= self.year <= MAX_YEAR
        &&& 1 <= self.month <= 12
        &&& 1 <= self.day <= days_in_month(self.year as int, self.month as int)
        &&& self.hour < 24
        &&& self.minute < 60
        &&& self.second < 60
        &&& self.nanosecond < 2_000_000_000
        &&& (self.nanosecond >= 1_000_000_000 ==> self.second == 59)
        &&& -86_400 < self.utc_offset_seconds < 86_400
    }

    /// The second as it is shown: 60 during a leap second.
    pub open spec fn shown_second(&self) -> int {
        self.second + self.nanosecond / 1_000_000_000
    }

    /// The timestamp in the compact form, `YYYYMMDD_HHMMSS`.
    pub open spec fn id_text(&self) -> Seq<char> {
        year_text(self.year as int) + two_digits(self.month as int) + two_digits(self.day as int)
            + seq!['_'] + two_digits(self.hour as int) + two_digits(self.minute as int)
            + two_digits(self.shown_second())
    }

    /// The timestamp in the readable form, `YYYY-MM-DD HH:MM:SS`.
    pub open spec fn display_text(&self) -> Seq<char> {
        year_text(self.year as int) + seq!['-'] + two_digits(self.month as int) + seq!['-']
            + two_digits(self.day as int) + seq![' '] + two_digits(self.hour as int) + seq![':']
            + two_digits(self.minute as int) + seq![':'] + two_digits(self.shown_second())
    }
}

/// Reads the clock with `chrono::Local::now` and hands out the fields of the
/// local date and time, as `Datelike`, `Timelike` and
/// `FixedOffset::local_minus_utc` give them. The contract is not proved. It
/// claims nothing of the value but what chrono holds of every date and time
/// it builds: the date is one of the calendar, the time one of the day, a
/// nanosecond count from 1,000,000,000 on only stands beside second 59, and
/// the offset is less than a day. On a machine whose clock stands before
/// 1970 chrono does not return.
#[verifier::external_body]
pub(crate) fn local_now() -> (r: Timestamp)
    ensures
        r.is_valid(),
{
    let now = chrono::Local::now();
    Timestamp {
        year: now.year(),
        month: now.month(),
        day: now.day(),
        hour: now.hour(),
        minute: now.minute(),
        second: now.second(),
        nanosecond: now.nanosecond(),
        utc_offset_seconds: now.offset().local_minus_utc(),
    }
}

/// Writes a timestamp with chrono: `NaiveDate::from_ymd_opt` and
/// `NaiveDate::and_hms_nano_opt` build the date and time from the fields,
/// `NaiveDateTime::format` writes them with `pattern`. The contract is not
/// proved. It claims, for the two patterns of this module, what chrono's
/// `%Y`, `%m`, `%d`, `%H`, `%M` and `%S` produce: the year on four digits,
/// with a sign outside 0 to 9999, every other field on two, the second
/// shown as 60 during a leap second, and the other characters of the
/// pattern as they are. A valid timestamp is one that the two constructors
/// accept, and the two patterns are ones that `format` can write.
#[verifier::external_body]
pub(crate) fn format_timestamp(ts: &Timestamp, pattern: &str) -> (r: String)
    requires
        ts.is_valid(),
        pattern@ == ID_PATTERN@ || pattern@ == DISPLAY_PATTERN@,
    ensures
        pattern@ == ID_PATTERN@ ==> r@ == ts.id_text(),
        pattern@ == DISPLAY_PATTERN@ ==> r@ == ts.display_text(),
{
    chrono::NaiveDate::from_ymd_opt(ts.year, ts.month, ts.day)
        .unwrap()
        .and_hms_nano_opt(ts.hour, ts.minute, ts.second, ts.nanosecond)
        .unwrap()
        .format(pattern)
        .to_string()
}

impl Timestamp {
    /// The current local time.
    pub fn now() -> (r: Timestamp)
        ensures
            r.is_valid(),
    {
        local_now()
    }

    /// Whether the fields name a date of the calendar and a time of day.
    pub fn check_valid(&self) -> (r: bool)
        ensures
            r == self.is_valid(),
    {
        if self.year < MIN_YEAR || self.year > MAX_YEAR {
            return false;
        }
        if self.month < 1 || self.month > 12 || self.day < 1 {
            return false;
        }
        let leap = self.year % 4 == 0 && (self.year % 100 != 0 || self.year % 400 == 0);
        let days: u32 = if self.month == 2 {
            if leap {
                29
            } else {
                28
            }
        } else if self.month == 4 || self.month == 6 || self.month == 9 || self.month == 11 {
            30
        } else {
            31
        };
        self.day <= days && self.hour < 24 && self.minute < 60 && self.second < 60
            && self.nanosecond < 2_000_000_000 && (self.nanosecond < 1_000_000_000 || self.second
            == 59) && -86_400 < self.utc_offset_seconds && self.utc_offset_seconds < 86_400
    }

    /// The id of a backup made at this time: `YYYYMMDD_HHMMSS`.
    pub fn backup_id(&self) -> (r: String)
        requires
            self.is_valid(),
        ensures
            r@ == self.id_text(),
    {
        format_timestamp(self, ID_PATTERN)
    }

    /// The time as listings show it: `YYYY-MM-DD HH:MM:SS`.
    pub fn display(&self) -> (r: String)
        requires
            self.is_valid(),
        ensures
            r@ == self.display_text(),
    {
        format_timestamp(self, DISPLAY_PATTERN)
    }
}

} // verus!
