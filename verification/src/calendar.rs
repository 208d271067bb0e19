//! Calendar dates with a time of day, and the quarter of the year that a
//! date falls in.

use vstd::prelude::*;

verus! {

/// Whether `year` has a 29th of February.
pub open spec fn is_leap_year(year: int) -> bool {
    year % 4 == 0 && (year % 100 != 0 || year % 400 == 0)
}

/// The number of days of `month` in `year`.
pub open spec fn days_in_month(year: int, month: int) -> int {
    if month == 4 || month == 6 || month == 9 || month == 11 {
        30
    } else if month == 2 {
        if is_leap_year(year) {
            29
        } else {
            28
        }
    } else {
        31
    }
}

/// The first month of the quarter that `month` falls in.
pub open spec fn quarter_start_month(month: int) -> int {
    (month - 1) / 3 * 3 + 1
}

/// The last month of the quarter that `month` falls in.
pub open spec fn quarter_end_month(month: int) -> int {
    quarter_start_month(month) + 2
}

/// The text that chrono's formatter gives the moment `seconds` after
/// 1970-01-01 00:00:00 UTC under the strftime pattern `pattern`, or `None`
/// where chrono has no such moment or takes no such pattern.
pub uninterp spec fn utc_text(seconds: int, pattern: Seq<char>) -> Option<Seq<char>>;

/// Whether `text` holds the characters `expected`, or both are `None`.
pub open spec fn text_is(text: Option<String>, expected: Option<Seq<char>>) -> bool {
    match text {
        Some(held) => expected == Some(held@),
        None => expected is None,
    }
}

/// `chrono::DateTime::from_timestamp`, `DateTime::format` and
/// `DelayedFormat::write_to`: the UTC moment `seconds` after the epoch,
/// written under the strftime pattern `pattern`. The result is a function
/// of the two arguments alone: the moment is in UTC and no locale is read.
/// It is `None` where the moment is out of chrono's range or the pattern
/// is not one that chrono can write.
#[verifier::external_body]
pub(crate) fn format_utc(seconds: i64, pattern: &str) -> (text: Option<String>)
    ensures
        text_is(text, utc_text(seconds as int, pattern@)),
{
    let moment = chrono::DateTime::from_timestamp(seconds, 0)?;
    let mut text = String::new();
    moment.format(pattern).write_to(&mut text).ok()?;
    Some(text)
}

/// A calendar date with a time of day, as plain numbers.
pub ghost struct Civil {
    pub year: int,
    pub month: int,
    pub day: int,
    pub hour: int,
    pub minute: int,
    pub second: int,
}

impl Civil {
    /// The date exists in the calendar and the time exists in a day.
    pub open spec fn valid(self) -> bool {
        &&& 1 <= self.month <= 12
        &&& 1 <= self.day <= days_in_month(self.year, self.month)
        &&& 0 <= self.hour < 24
        &&& 0 <= self.minute < 60
        &&& 0 <= self.second < 60
    }

    /// The first second of the quarter that this date falls in.
    pub open spec fn quarter_start(self) -> Civil {
        Civil {
            year: self.year,
            month: quarter_start_month(self.month),
            day: 1,
            hour: 0,
            minute: 0,
            second: 0,
        }
    }

    /// The last second of the quarter that this date falls in.
    pub open spec fn quarter_end(self) -> Civil {
        Civil {
            year: self.year,
            month: quarter_end_month(self.month),
            day: days_in_month(self.year, quarter_end_month(self.month)),
            hour: 23,
            minute: 59,
            second: 59,
        }
    }
}

/// A calendar date with a time of day. Every value is a date that exists.
#[derive(Clone, Copy, Debug, PartialEq, Eq)]
pub struct CivilDateTime {
    year: i32,
    month: u32,
    day: u32,
    hour: u32,
    minute: u32,
    second: u32,
}

impl View for CivilDateTime {
    type V = Civil;

    closed spec fn view(&self) -> Civil {
        Civil {
            year: self.year as int,
            month: self.month as int,
            day: self.day as int,
            hour: self.hour as int,
            minute: self.minute as int,
            second: self.second as int,
        }
    }
}

/// Whether `year` has a 29th of February.
pub fn leap_year(year: i32) -> (leap: bool)
    ensures
        leap == is_leap_year(year as int),
{
    // The leap years repeat every 400 years: count from a year before any `i32`.
    let shifted: i64 = year as i64 + 400 * 5_368_710;
    shifted % 4 == 0 && (shifted % 100 != 0 || shifted % 400 == 0)
}

/// The number of days of `month` in `year`.
pub fn month_length(year: i32, month: u32) -> (days: u32)
    ensures
        days == days_in_month(year as int, month as int),
{
    if month == 4 || month == 6 || month == 9 || month == 11 {
        30
    } else if month == 2 {
        if leap_year(year) {
            29
        } else {
            28
        }
    } else {
        31
    }
}

impl CivilDateTime {
    #[verifier::type_invariant]
    closed spec fn inv(&self) -> bool {
        self@.valid()
    }

    /// The date and time with these numbers, or `None` where the calendar
    /// has no such date or the day no such time.
    pub fn new(year: i32, month: u32, day: u32, hour: u32, minute: u32, second: u32) -> (made:
        Option<Self>)
        ensures
            match made {
                Some(moment) => moment@ == (Civil {
                    year: year as int,
                    month: month as int,
                    day: day as int,
                    hour: hour as int,
                    minute: minute as int,
                    second: second as int,
                }) && moment@.valid(),
                None => !(Civil {
                    year: year as int,
                    month: month as int,
                    day: day as int,
                    hour: hour as int,
                    minute: minute as int,
                    second: second as int,
                }).valid(),
            },
    {
        if 1 <= month && month <= 12 && 1 <= day && day <= month_length(year, month) && hour < 24
            && minute < 60 && second < 60 {
            Some(CivilDateTime { year, month, day, hour, minute, second })
        } else {
            None
        }
    }

    pub fn year(&self) -> (year: i32)
        ensures
            year == self@.year,
    {
        self.year
    }

    pub fn month(&self) -> (month: u32)
        ensures
            month == self@.month,
            1 <= month <= 12,
    {
        proof {
            use_type_invariant(self);
        }
        self.month
    }

    pub fn day(&self) -> (day: u32)
        ensures
            day == self@.day,
            1 <= day <= 31,
    {
        proof {
            use_type_invariant(self);
        }
        self.day
    }

    pub fn hour(&self) -> (hour: u32)
        ensures
            hour == self@.hour,
            hour < 24,
    {
        proof {
            use_type_invariant(self);
        }
        self.hour
    }

    pub fn minute(&self) -> (minute: u32)
        ensures
            minute == self@.minute,
            minute < 60,
    {
        proof {
            use_type_invariant(self);
        }
        self.minute
    }

    pub fn second(&self) -> (second: u32)
        ensures
            second == self@.second,
            second < 60,
    {
        proof {
            use_type_invariant(self);
        }
        self.second
    }

    /// The first and the last second of the quarter of the year that this
    /// date falls in.
    pub fn quarter_range(&self) -> (range: (CivilDateTime, CivilDateTime))
        ensures
            range.0@ == self@.quarter_start(),
            range.1@ == self@.quarter_end(),
            range.0@.valid(),
            range.1@.valid(),
    {
        proof {
            use_type_invariant(self);
        }
        let quarter = (self.month - 1) / 3 + 1;
        let start_month = (quarter - 1) * 3 + 1;
        let end_month = start_month + 2;
        let last_day = month_length(self.year, end_month);
        let start = CivilDateTime {
            year: self.year,
            month: start_month,
            day: 1,
            hour: 0,
            minute: 0,
            second: 0,
        };
        let end = CivilDateTime {
            year: self.year,
            month: end_month,
            day: last_day,
            hour: 23,
            minute: 59,
            second: 59,
        };
        (start, end)
    }
}

/// A quarter starts in January, April, July or October, ends two months
/// later, and holds the month it is the quarter of.
pub proof fn lemma_quarter_months(month: int)
    requires
        1 <= month <= 12,
    ensures
        quarter_start_month(month) == 1 || quarter_start_month(month) == 4 || quarter_start_month(
            month,
        ) == 7 || quarter_start_month(month) == 10,
        quarter_start_month(month) <= month <= quarter_end_month(month),
        quarter_end_month(month) <= 12,
{
}

} // verus!
