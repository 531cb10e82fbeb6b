//! The Gregorian calendar: which day of which month a second lies on, in UTC.
use chrono::Datelike;
use vstd::prelude::*;

verus! {

/// The first year that `chrono` knows.
pub const FIRST_YEAR: i64 = -262_143;

/// The last year that `chrono` knows.
pub const LAST_YEAR: i64 = 262_142;

/// Every fourth year is a leap year, but of the full centuries only every fourth.
pub open spec fn is_leap(year: int) -> bool {
    year % 4 == 0 && (year % 100 != 0 || year % 400 == 0)
}

/// Days in a month.
pub open spec fn month_length(year: int, month: int) -> int {
    if month == 2 {
        if is_leap(year) {
            29
        } else {
            28
        }
    } else if month == 4 || month == 6 || month == 9 || month == 11 {
        30
    } else {
        31
    }
}

/// Days of the year before a month.
pub open spec fn days_before_month(year: int, month: int) -> int
    decreases month,
{
    if month <= 1 {
        0
    } else {
        days_before_month(year, month - 1) + month_length(year, month - 1)
    }
}

/// How many leap years there are from the year 1 to `year`; for an earlier `year`, minus those
/// after it up to the year 0.
pub open spec fn leap_years_to(year: int) -> int {
    year / 4 - year / 100 + year / 400
}

/// Days from the start of 1970 to the start of a year.
pub open spec fn days_before_year(year: int) -> int {
    365 * (year - 1970) + leap_years_to(year - 1) - leap_years_to(1969)
}

/// Day number `number`, counted from the start of 1970, is this day of this month and year.
pub open spec fn is_day(number: int, year: int, month: int, day: int) -> bool {
    &&& 1 <= month <= 12
    &&& 1 <= day <= month_length(year, month)
    &&& number == days_before_year(year) + days_before_month(year, month) + day - 1
}

/// The second, counted from the start of 1970, lies on this day of this month of some year.
pub open spec fn is_date(timestamp: int, month: int, day: int) -> bool {
    exists|year: int| #[trigger] is_day(timestamp / 86_400, year, month, day)
}

/// The second lies in a year that `chrono` knows.
pub open spec fn in_calendar(timestamp: int) -> bool {
    days_before_year(FIRST_YEAR as int) <= timestamp / 86_400 < days_before_year(LAST_YEAR + 1)
}

/// Calls `chrono::DateTime::from_timestamp`, `Datelike::month` and `Datelike::day`. Claimed of
/// them: a date is found for exactly the seconds of the years that `chrono` knows, and it is the
/// month and day on which the second lies.
#[verifier::external_body]
pub(crate) fn month_and_day(timestamp: i64) -> (r: Option<(u32, u32)>)
    ensures
        r is Some == in_calendar(timestamp as int),
        r matches Some(d) ==> is_date(timestamp as int, d.0 as int, d.1 as int),
{
    chrono::DateTime::from_timestamp(timestamp, 0).map(|date| (date.month(), date.day()))
}

proof fn lemma_year_length(year: int)
    ensures
        days_before_year(year + 1) == days_before_year(year) + (if is_leap(year) {
            366int
        } else {
            365int
        }),
        days_before_month(year, 13) == (if is_leap(year) {
            366int
        } else {
            365int
        }),
{
    reveal_with_fuel(days_before_month, 14);
}

proof fn lemma_years_in_order(earlier: int, later: int)
    requires
        earlier <= later,
    ensures
        days_before_year(earlier) <= days_before_year(later),
    decreases later - earlier,
{
    if earlier < later {
        lemma_year_length(later - 1);
        lemma_years_in_order(earlier, later - 1);
    }
}

proof fn lemma_months_in_order(year: int, earlier: int, later: int)
    requires
        1 <= earlier < later,
    ensures
        days_before_month(year, earlier) + month_length(year, earlier) <= days_before_month(
            year,
            later,
        ),
    decreases later - earlier,
{
    if earlier < later - 1 {
        lemma_months_in_order(year, earlier, later - 1);
    }
}

proof fn lemma_day_in_year(number: int, year: int, month: int, day: int)
    requires
        is_day(number, year, month, day),
    ensures
        days_before_year(year) <= number < days_before_year(year + 1),
{
    lemma_year_length(year);
    lemma_months_in_order(year, month, 13);
    if month > 1 {
        lemma_months_in_order(year, 1, month);
    }
}

/// A second lies on no more than one day of the year.
pub proof fn law_a_second_lies_on_one_date(
    timestamp: int,
    month: int,
    day: int,
    other_month: int,
    other_day: int,
)
    requires
        is_date(timestamp, month, day),
        is_date(timestamp, other_month, other_day),
    ensures
        month == other_month,
        day == other_day,
{
    let number = timestamp / 86_400;
    let year = choose|year: int| #[trigger] is_day(number, year, month, day);
    let other_year = choose|year: int| #[trigger] is_day(number, year, other_month, other_day);
    lemma_day_in_year(number, year, month, day);
    lemma_day_in_year(number, other_year, other_month, other_day);
    if year < other_year {
        lemma_years_in_order(year + 1, other_year);
    }
    if other_year < year {
        lemma_years_in_order(other_year + 1, year);
    }
    if month < other_month {
        lemma_months_in_order(year, month, other_month);
    }
    if other_month < month {
        lemma_months_in_order(year, other_month, month);
    }
}

} // verus!
