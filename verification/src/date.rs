//! Calendar dates and the range of one full local day of a zone.

use vstd::prelude::*;
use crate::zone::AwattarZone;

verus! {

/// Largest year of the supported date range; the day after its last day has
/// no representation here.
pub const MAX_YEAR: i32 = 262142;

/// Whether a year is a leap year of the proleptic Gregorian calendar.
pub open spec fn is_leap_year(year: int) -> bool {
    (year % 4 == 0 && year % 100 != 0) || year % 400 == 0
}

/// How many days the given month of the given year has.
pub open spec fn days_in_month(year: int, month: int) -> int {
    if month == 2 {
        if is_leap_year(year) {
            29
        } else {
            28
        }
    } else if month == 4 || month == 6 || month == 9 || month == 11 {
        30
    } else {
        31
    }
}

/// A calendar date of the proleptic Gregorian calendar, local to whatever
/// timezone it is combined with.
#[derive(Clone, Copy, Debug, PartialEq, Eq, Structural)]
pub struct CivilDate {
    /// Calendar year
    pub year: i32,
    /// Month of the year, starting at 1 for January
    pub month: u8,
    /// Day of the month, starting at 1
    pub day: u8,
}

/// The day after a well-formed date that is not the last supported day:
/// the next day of the month, or the first day of the next month or year.
pub open spec fn spec_next_day(d: CivilDate) -> CivilDate {
    if d.day < days_in_month(d.year as int, d.month as int) {
        CivilDate { year: d.year, month: d.month, day: (d.day + 1) as u8 }
    } else if d.month < 12 {
        CivilDate { year: d.year, month: (d.month + 1) as u8, day: 1 }
    } else {
        CivilDate { year: (d.year + 1) as i32, month: 1, day: 1 }
    }
}

impl CivilDate {
    /// A date is well formed when its day exists in its month and year and
    /// the year lies in the supported range.
    pub open spec fn wf(self) -> bool {
        &&& 1 <= self.year <= MAX_YEAR
        &&& 1 <= self.month <= 12
        &&& 1 <= self.day <= days_in_month(self.year as int, self.month as int)
    }

    /// How many days this date's month has.
    fn month_days(&self) -> (r: u8)
        requires
            self.year >= 1,
        ensures
            r as int == days_in_month(self.year as int, self.month as int),
    {
        if self.month == 2 {
            let y = self.year as u32;
            if (y % 4 == 0 && y % 100 != 0) || y % 400 == 0 {
                29
            } else {
                28
            }
        } else if self.month == 4 || self.month == 6 || self.month == 9 || self.month == 11 {
            30
        } else {
            31
        }
    }

    /// Whether the fields form a well-formed date.
    pub fn is_valid(&self) -> (r: bool)
        ensures
            r == self.wf(),
    {
        if self.year < 1 || self.year > MAX_YEAR {
            return false;
        }
        if self.month < 1 || self.month > 12 {
            return false;
        }
        1 <= self.day && self.day <= self.month_days()
    }

    /// Builds a date from its fields, or nothing when they do not form a
    /// well-formed date.
    pub fn from_ymd(year: i32, month: u8, day: u8) -> (r: Option<CivilDate>)
        ensures
            ({
                let d = CivilDate { year, month, day };
                if d.wf() {
                    r == Some(d)
                } else {
                    r is None
                }
            }),
    {
        let d = CivilDate { year, month, day };
        if d.is_valid() {
            Some(d)
        } else {
            None
        }
    }

    /// The day after this one, or nothing when it would leave the supported
    /// year range.
    pub fn next_day(&self) -> (r: Option<CivilDate>)
        requires
            self.wf(),
        ensures
            match r {
                Some(n) => n.wf() && n == spec_next_day(*self),
                None => self.year == MAX_YEAR && self.month == 12 && self.day == 31,
            },
    {
        let md = self.month_days();
        if self.day < md {
            Some(CivilDate { year: self.year, month: self.month, day: self.day + 1 })
        } else if self.month < 12 {
            Some(CivilDate { year: self.year, month: self.month + 1, day: 1 })
        } else if self.year < MAX_YEAR {
            Some(CivilDate { year: self.year + 1, month: 1, day: 1 })
        } else {
            None
        }
    }
}

/// What combining a calendar date with an IANA timezone name yields as that
/// date's local midnight: the milliseconds since the Unix epoch of the
/// instant, or nothing when the name is unknown, the date lies outside the
/// range the timezone conversion supports, or local midnight of that date
/// does not exist unambiguously. The timezone data is embedded in the
/// conversion library at compile time, so the result is a function of the
/// name and the date alone.
pub uninterp spec fn local_midnight_millis(tz: Seq<char>, year: int, month: int, day: int) -> Option<
    i64,
>;

/// Relies on chrono_tz's `Tz::from_str` (a lookup in the compiled-in
/// timezone table) and on chrono's `NaiveDate::from_ymd_opt`,
/// `NaiveDate::and_hms_opt`, `NaiveDateTime::and_local_timezone` and
/// `DateTime::timestamp_millis`: each is a pure function of its arguments,
/// so the composed result depends on the timezone name and the date alone.
#[verifier::external_body]
fn tz_local_midnight_millis(tz_name: &str, year: i32, month: u8, day: u8) -> (r: Option<i64>)
    ensures
        r == local_midnight_millis(tz_name@, year as int, month as int, day as int),
{
    let tz: chrono_tz::Tz = tz_name.parse().ok()?;
    let date = chrono::NaiveDate::from_ymd_opt(year, month as u32, day as u32)?;
    let midnight = date.and_hms_opt(0, 0, 0)?;
    let zoned = midnight.and_local_timezone(tz).single()?;
    Some(zoned.timestamp_millis())
}

/// The query range covering one full local day of a zone: local midnight of
/// the date and local midnight of the following date in the zone's own
/// timezone, each in milliseconds since the Unix epoch; nothing when either
/// date has no such unambiguous instant or the date is not well formed.
pub open spec fn spec_date_query_range(zone: AwattarZone, date: CivilDate) -> Option<(i64, i64)> {
    if !date.wf() || (date.year == MAX_YEAR && date.month == 12 && date.day == 31) {
        None
    } else {
        let next = spec_next_day(date);
        let start = local_midnight_millis(
            zone.spec_timezone(),
            date.year as int,
            date.month as int,
            date.day as int,
        );
        let end = local_midnight_millis(
            zone.spec_timezone(),
            next.year as int,
            next.month as int,
            next.day as int,
        );
        match (start, end) {
            (Some(s), Some(e)) => Some((s, e)),
            _ => None,
        }
    }
}

/// Computes the query range covering one full local day of the zone: from
/// local midnight of `date` to local midnight of the following date, both
/// in the zone's own timezone. Querying with this range yields a full local
/// day's worth of slots rather than a naive 24-hour span.
pub fn date_query_range(zone: AwattarZone, date: CivilDate) -> (r: Option<(i64, i64)>)
    ensures
        r == spec_date_query_range(zone, date),
{
    if !date.is_valid() {
        return None;
    }
    let next = match date.next_day() {
        Some(n) => n,
        None => return None,
    };
    let start = tz_local_midnight_millis(zone.timezone(), date.year, date.month, date.day);
    let end = tz_local_midnight_millis(zone.timezone(), next.year, next.month, next.day);
    match (start, end) {
        (Some(s), Some(e)) => Some((s, e)),
        _ => None,
    }
}

} // verus!
