//! A user's age in full years, counted from the date of birth to a fixed
//! day.
//!
//! Which dates exist and how the fixed day is read from its text is left to
//! `chrono`; the counting is done here, on year, month and day.

use vstd::prelude::*;

verus! {

/// The day on which ages are counted, as text.
pub const NOW: &'static str = "2019-06-26 23:56:04";

/// A calendar day.
#[derive(Clone, Copy, Debug, PartialEq, Eq, Structural)]
pub struct Day {
    pub year: i32,
    pub month: u32,
    pub day: u32,
}

/// `year` is a leap year of the Gregorian calendar, counted backwards too.
pub open spec fn is_leap(year: int) -> bool {
    year % 4 == 0 && (year % 100 != 0 || year % 400 == 0)
}

/// The number of days of the month `month` of the year `year`.
pub open spec fn days_in_month(year: int, month: int) -> int {
    if month == 2 {
        if is_leap(year) {
            29
        } else {
            28
        }
    } else if month == 4 || month == 6 || month == 9 || month == 11 {
        30
    } else {
        31
    }
}

/// The day exists: the year is one that `chrono` can hold, the month is of
/// the twelve, and the day is of the month.
pub open spec fn is_date(year: int, month: int, day: int) -> bool {
    &&& -262144 <= year <= 262143
    &&& 1 <= month <= 12
    &&& 1 <= day <= days_in_month(year, month)
}

/// The date that `chrono::NaiveDateTime::parse_from_str` reads from the
/// text under the format `%Y-%m-%d %H:%M:%S`, as year, month and day, or
/// nothing where it refuses the text.
pub uninterp spec fn chrono_parsed_day(text: Seq<char>) -> Option<Day>;

/// Asks `chrono::Utc.ymd_opt` whether the day exists. It does where year,
/// month and day make a date of the Gregorian calendar within the years
/// that the crate can hold.
#[verifier::external_body]
fn date_exists(year: i32, month: u32, day: u32) -> (b: bool)
    ensures
        b == is_date(year as int, month as int, day as int),
{
    chrono::TimeZone::ymd_opt(&chrono::Utc, year, month, day).single().is_some()
}

/// Reads the day out of a text such as `NOW` with
/// `chrono::NaiveDateTime::parse_from_str`. The result is the crate's
/// reading; an error of the crate comes back as nothing.
#[verifier::external_body]
fn parse_day(text: &str) -> (r: Option<Day>)
    ensures
        r == chrono_parsed_day(text@),
{
    chrono::NaiveDateTime::parse_from_str(text, "%Y-%m-%d %H:%M:%S").ok().map(
        |t| Day {
            year: chrono::Datelike::year(&t),
            month: chrono::Datelike::month(&t),
            day: chrono::Datelike::day(&t),
        },
    )
}

/// The full years from `birth` to `today`: none if `today` is not in a
/// later year; else the difference of the years, less one if the birthday
/// of the year is still to come.
pub open spec fn full_years(birth: Day, today: Day) -> int {
    let y_diff = today.year - birth.year;
    if y_diff <= 0 {
        0
    } else if today.month > birth.month || (today.month == birth.month && today.day >= birth.day) {
        y_diff
    } else {
        y_diff - 1
    }
}

/// A user, known by the date of birth.
pub struct User(Day);

impl User {
    /// The date of birth.
    pub closed spec fn birthdate(&self) -> Day {
        self.0
    }

    /// The user born on the given day, which must exist.
    pub fn with_birthdate(year: i32, month: u32, day: u32) -> (u: Self)
        requires
            is_date(year as int, month as int, day as int),
        ensures
            u.birthdate() == (Day { year, month, day }),
    {
        User(Day { year, month, day })
    }

    /// The user born on the given day, or nothing if there is no such day.
    pub fn try_with_birthdate(year: i32, month: u32, day: u32) -> (r: Option<Self>)
        ensures
            r is Some <==> is_date(year as int, month as int, day as int),
            r matches Some(u) ==> u.birthdate() == (Day { year, month, day }),
    {
        if date_exists(year, month, day) {
            Some(User::with_birthdate(year, month, day))
        } else {
            None
        }
    }

    /// The user's age in full years on the day `today`; nothing if it does
    /// not fit in a `u16`.
    pub fn age_on(&self, today: Day) -> (r: Option<u16>)
        ensures
            r == (if full_years(self.birthdate(), today) <= u16::MAX {
                Some(full_years(self.birthdate(), today) as u16)
            } else {
                None
            }),
    {
        let y_diff: i64 = today.year as i64 - self.0.year as i64;
        let years = if y_diff <= 0 {
            0
        } else if today.month > self.0.month || (today.month == self.0.month && today.day
            >= self.0.day) {
            y_diff
        } else {
            y_diff - 1
        };
        if years <= u16::MAX as i64 {
            Some(years as u16)
        } else {
            None
        }
    }

    /// The age that `age` returns: the full years up to the day that `NOW`
    /// writes; nothing if `NOW` cannot be read or the age does not fit in a
    /// `u16`.
    pub open spec fn age_now(&self) -> Option<u16> {
        match chrono_parsed_day(NOW@) {
            Some(today) => if full_years(self.birthdate(), today) <= u16::MAX {
                Some(full_years(self.birthdate(), today) as u16)
            } else {
                None
            },
            None => None,
        }
    }

    /// The user's age in full years on the day that `NOW` writes, where
    /// there is one.
    pub fn try_age(&self) -> (r: Option<u16>)
        ensures
            r == self.age_now(),
    {
        match parse_day(NOW) {
            Some(today) => self.age_on(today),
            None => None,
        }
    }

    /// The user's age in full years on the day that `NOW` writes.
    pub fn age(&self) -> (r: u16)
        requires
            self.age_now() is Some,
        ensures
            Some(r) == self.age_now(),
    {
        match self.try_age() {
            Some(a) => a,
            None => 0,
        }
    }

    /// Whether the user is eighteen or older on the day that `NOW` writes.
    pub fn is_adult(&self) -> (b: bool)
        requires
            self.age_now() is Some,
        ensures
            b == (self.age_now()->Some_0 >= 18),
    {
        self.age() >= 18
    }

    /// Whether the user is eighteen or older on the day that `NOW` writes,
    /// where the age is known.
    pub fn try_is_adult(&self) -> (r: Option<bool>)
        ensures
            r == (match self.age_now() {
                Some(a) => Some(a >= 18),
                None => None,
            }),
    {
        if self.try_age().is_some() {
            Some(self.is_adult())
        } else {
            None
        }
    }
}

} // verus!
