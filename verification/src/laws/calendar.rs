//! The calendar, one second after the other.
use vstd::prelude::*;

use crate::datetime::{
    civil, civil_at, days_before_month, days_before_year, days_in_month, stored, Civil,
    MAX_TIMESTAMP, MIN_TIMESTAMP,
};

verus! {

/// The months have the lengths that they have: the second one 29 days in a leap year and
/// 28 in any other, the fourth, sixth, ninth and eleventh 30, the others 31.
pub proof fn law_month_lengths(year: int, month: int)
    ensures
        month == 1 || month == 3 || month == 5 || month == 7 || month == 8 || month == 10 || month
            == 12 ==> days_in_month(year, month) == 31,
        month == 4 || month == 6 || month == 9 || month == 11 ==> days_in_month(year, month) == 30,
        year % 400 == 0 ==> days_in_month(year, 2) == 29,
        year % 100 == 0 && year % 400 != 0 ==> days_in_month(year, 2) == 28,
        year % 4 == 0 && year % 100 != 0 ==> days_in_month(year, 2) == 29,
        year % 4 != 0 ==> days_in_month(year, 2) == 28,
{
}

/// A moment exists where its month, its day and its time do; the database holds those of
/// the years from -100000 to 100000.
pub proof fn law_moments(
    year: int,
    month: int,
    day: int,
    hour: int,
    minute: int,
    second: int,
    nanosecond: int,
)
    ensures
        ({
            let c = civil(year, month, day, hour, minute, second, nanosecond);
            &&& c.year == year && c.month == month && c.day == day
            &&& c.hour == hour && c.minute == minute && c.second == second
            &&& c.nanosecond == nanosecond
            &&& c.valid() <==> 1 <= month <= 12 && 1 <= day <= days_in_month(year, month) && 0
                <= hour <= 23 && 0 <= minute <= 59 && 0 <= second <= 59 && 0 <= nanosecond
                <= 999_999_999
            &&& stored(c) <==> c.valid() && -100_000 <= year <= 100_000
        }),
{
}

/// The timestamps that can be handed to the database are those from the start of the year
/// -262143 to the last second of the year 262142.
pub proof fn law_range_of_timestamps()
    ensures
        MIN_TIMESTAMP == civil(-262_143, 1, 1, 0, 0, 0, 0).unix_seconds(),
        MAX_TIMESTAMP == civil(262_142, 12, 31, 23, 59, 59, 0).unix_seconds(),
{
    reveal_with_fuel(days_before_month, 13);
}

/// The moment one second later.
pub open spec fn next_second(c: Civil) -> Civil {
    if c.second < 59 {
        Civil { second: c.second + 1, ..c }
    } else if c.minute < 59 {
        Civil { minute: c.minute + 1, second: 0, ..c }
    } else if c.hour < 23 {
        Civil { hour: c.hour + 1, minute: 0, second: 0, ..c }
    } else if c.day < days_in_month(c.year, c.month) {
        Civil { day: c.day + 1, hour: 0, minute: 0, second: 0, ..c }
    } else if c.month < 12 {
        Civil { month: c.month + 1, day: 1, hour: 0, minute: 0, second: 0, ..c }
    } else {
        Civil { year: c.year + 1, month: 1, day: 1, hour: 0, minute: 0, second: 0, ..c }
    }
}

/// A year has 365 days, and one more where its second month has.
proof fn lemma_year_length(year: int)
    ensures
        days_before_year(year + 1) - days_before_year(year) == days_before_month(year, 12) + 31,
        days_before_month(year, 12) + 31 == 337 + days_in_month(year, 2),
{
    reveal_with_fuel(days_before_month, 13);
}

/// The clock starts with the year 1970, each second counts one, and the fraction of a
/// second does not count.
pub proof fn law_seconds(c: Civil, nanosecond: int)
    requires
        c.valid(),
    ensures
        civil(1970, 1, 1, 0, 0, 0, 0).unix_seconds() == 0,
        next_second(c).valid(),
        next_second(c).unix_seconds() == c.unix_seconds() + 1,
        (Civil { nanosecond, ..c }).unix_seconds() == c.unix_seconds(),
{
    reveal_with_fuel(days_before_month, 2);
    lemma_year_length(c.year);
}

/// From 1970 on, there is a moment at each second.
proof fn lemma_moment_at(secs: nat) -> (c: Civil)
    ensures
        c.valid(),
        c.nanosecond == 0,
        c.unix_seconds() == secs,
    decreases secs,
{
    let start = civil(1970, 1, 1, 0, 0, 0, 0);
    law_seconds(start, 0);
    if secs == 0 {
        start
    } else {
        let before = lemma_moment_at((secs - 1) as nat);
        law_seconds(before, 0);
        next_second(before)
    }
}

/// The moment that is looked for by its distance from 1970 is there, and lies at that
/// distance.
pub proof fn law_moment_at(secs: nat)
    ensures
        civil_at(secs as int).valid(),
        civil_at(secs as int).nanosecond == 0,
        civil_at(secs as int).unix_seconds() == secs,
{
    let c = lemma_moment_at(secs);
}

} // verus!
