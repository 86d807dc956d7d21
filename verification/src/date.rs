//! Calendar dates of the proleptic Gregorian calendar.

use vstd::prelude::*;

verus! {

/// The earliest year a [`Date`] can lie in.
pub const MIN_YEAR: i32 = -262143;

/// The latest year a [`Date`] can lie in.
pub const MAX_YEAR: i32 = 262142;

/// Whether `year` has a 29th of February.
pub open spec fn is_leap_year(year: int) -> bool {
    year % 4 == 0 && (year % 100 != 0 || year % 400 == 0)
}

/// The number of days of `month` in `year`.
pub open spec fn days_in_month(year: int, month: int) -> int {
    if month == 2 {
        if is_leap_year(year) {
            29
        } else {
            28
        }
    } else if month == 4 || month == 6 || month == 9 || month == 11 {
        30
    } else {
        31
    }
}

/// Whether the day `day` of month `month` of `year` exists and lies in the
/// years that a [`Date`] covers.
pub open spec fn valid_ymd(year: int, month: int, day: int) -> bool {
    &&& MIN_YEAR <= year <= MAX_YEAR
    &&& 1 <= month <= 12
    &&& 1 <= day <= days_in_month(year, month)
}

/// The character of the decimal digit `d`.
pub open spec fn digit(d: int) -> char
    recommends
        0 <= d <= 9,
{
    seq!['0', '1', '2', '3', '4', '5', '6', '7', '8', '9'][d]
}

/// The decimal digits of `n`, padded with zeros on the left to at least
/// `width` characters.
pub open spec fn padded(n: nat, width: nat) -> Seq<char>
    decreases n, width,
{
    if n < 10 && width <= 1 {
        seq![digit(n as int)]
    } else if n < 10 {
        seq!['0'] + padded(n, (width - 1) as nat)
    } else {
        padded(n / 10, if width == 0 { 0 } else { (width - 1) as nat }).push(digit((n % 10) as int))
    }
}

/// A year as text: four digits for the years 0 to 9999, and a sign followed
/// by at least four digits for every other year.
pub open spec fn year_text(year: int) -> Seq<char> {
    if 0 <= year <= 9999 {
        padded(year as nat, 4)
    } else if year < 0 {
        seq!['-'] + padded((-year) as nat, 4)
    } else {
        seq!['+'] + padded(year as nat, 4)
    }
}

/// A date as text: the year, the month in two digits and the day in two
/// digits, joined by hyphens.
pub open spec fn date_text(year: int, month: int, day: int) -> Seq<char>
    recommends
        valid_ymd(year, month, day),
{
    year_text(year) + seq!['-'] + padded(month as nat, 2) + seq!['-'] + padded(day as nat, 2)
}

/// Whether `text` is the text of `date`, and absent where the date is.
pub open spec fn is_text_of(text: Option<String>, date: Option<Date>) -> bool {
    match date {
        Some(d) => text matches Some(t) && t@ == d.text(),
        None => text is None,
    }
}

/// A day of the calendar.
#[derive(Clone, Copy, Debug, PartialEq, Eq)]
pub struct Date {
    year: i32,
    month: u32,
    day: u32,
}

/// Formats a date through `chrono`: `NaiveDate::from_ymd_opt` builds the
/// date, which exists by the precondition, and `NaiveDate::format` with the
/// pattern `%Y-%m-%d` writes it. The contract repeats what chrono documents
/// for the three specifiers: `%Y` is the year padded with zeros to four
/// digits, with a leading sign outside the years 0 to 9999; `%m` and `%d` are
/// the month and the day padded with zeros to two digits.
#[verifier::external_body]
fn format_ymd(year: i32, month: u32, day: u32) -> (text: String)
    requires
        valid_ymd(year as int, month as int, day as int),
    ensures
        text@ == date_text(year as int, month as int, day as int),
{
    chrono::NaiveDate::from_ymd_opt(year, month, day).unwrap().format("%Y-%m-%d").to_string()
}

impl Date {
    /// Every date is a day that the calendar has.
    #[verifier::type_invariant]
    pub closed spec fn exists_in_calendar(self) -> bool {
        valid_ymd(self.year as int, self.month as int, self.day as int)
    }

    /// The year, the month (1 to 12) and the day of the month (1 to 31).
    pub closed spec fn ymd(self) -> (int, int, int) {
        (self.year as int, self.month as int, self.day as int)
    }

    /// The date as text, `2024-02-29` for the 29th of February 2024.
    pub open spec fn text(self) -> Seq<char> {
        date_text(self.ymd().0, self.ymd().1, self.ymd().2)
    }

    /// The given day, if the calendar has it.
    pub fn from_ymd(year: i32, month: u32, day: u32) -> (r: Option<Date>)
        ensures
            r is Some <==> valid_ymd(year as int, month as int, day as int),
            r matches Some(d) ==> d.ymd() == (year as int, month as int, day as int),
    {
        if year < MIN_YEAR || year > MAX_YEAR || month < 1 || month > 12 || day < 1 {
            return None;
        }
        // 262400 is a multiple of 400, so the shifted year has the same
        // remainders and is not negative.
        let shifted: i32 = year + 262400;
        let leap = shifted % 4 == 0 && (shifted % 100 != 0 || shifted % 400 == 0);
        let last: u32 = if month == 2 {
            if leap {
                29
            } else {
                28
            }
        } else if month == 4 || month == 6 || month == 9 || month == 11 {
            30
        } else {
            31
        };
        if day > last {
            return None;
        }
        Some(Date { year, month, day })
    }

    /// The year of the date.
    pub fn year(&self) -> (y: i32)
        ensures
            y == self.ymd().0,
    {
        self.year
    }

    /// The month of the date, 1 for January.
    pub fn month(&self) -> (m: u32)
        ensures
            m == self.ymd().1,
            1 <= m <= 12,
    {
        proof {
            use_type_invariant(self);
        }
        self.month
    }

    /// The day of the month.
    pub fn day(&self) -> (d: u32)
        ensures
            d == self.ymd().2,
            1 <= d <= 31,
    {
        proof {
            use_type_invariant(self);
        }
        self.day
    }

    /// The date as text, `2024-02-29` for the 29th of February 2024.
    pub fn to_text(&self) -> (text: String)
        ensures
            text@ == self.text(),
    {
        proof {
            use_type_invariant(self);
        }
        format_ymd(self.year, self.month, self.day)
    }
}

/// The text of `date`, where there is a date.
pub fn opt_date_text(date: &Option<Date>) -> (text: Option<String>)
    ensures
        is_text_of(text, *date),
{
    match date {
        Some(d) => Some(d.to_text()),
        None => None,
    }
}

} // verus!
