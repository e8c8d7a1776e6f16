//! Dates and times as the database stores them, and their distance from the
//! start of 1970 in seconds.
use chrono::{Datelike, Timelike};
use vstd::prelude::*;

verus! {

/// A moment on the proleptic Gregorian calendar, without a time zone.
pub struct Civil {
    pub year: int,
    pub month: int,
    pub day: int,
    pub hour: int,
    pub minute: int,
    pub second: int,
    pub nanosecond: int,
}

/// Whether `year` has a 29th of February.
pub open spec fn is_leap_year(year: int) -> bool {
    year % 4 == 0 && (year % 100 != 0 || year % 400 == 0)
}

/// The number of days of a month.
pub open spec fn days_in_month(year: int, month: int) -> int {
    if month == 2 {
        if is_leap_year(year) {
            29
        } else {
            28
        }
    } else if month == 4 || month == 6 || month == 9 || month == 11 {
        30
    } else {
        31
    }
}

/// The number of days of `year` that lie before its month `month`.
pub open spec fn days_before_month(year: int, month: int) -> int
    decreases month,
{
    if month <= 1 {
        0
    } else {
        days_before_month(year, month - 1) + days_in_month(year, month - 1)
    }
}

/// The number of days from the 1st of January of year 1 to the 1st of January of `year`.
pub open spec fn days_before_year(year: int) -> int {
    365 * (year - 1) + (year - 1) / 4 - (year - 1) / 100 + (year - 1) / 400
}

impl Civil {
    /// Every component lies in its range, and the day exists in its month.
    pub open spec fn valid(self) -> bool {
        &&& 1 <= self.month <= 12
        &&& 1 <= self.day <= days_in_month(self.year, self.month)
        &&& 0 <= self.hour < 24
        &&& 0 <= self.minute < 60
        &&& 0 <= self.second < 60
        &&& 0 <= self.nanosecond < 1_000_000_000
    }

    /// The number of days from the 1st of January 1970 to the day of `self`.
    pub open spec fn day_number(self) -> int {
        days_before_year(self.year) + days_before_month(self.year, self.month) + self.day - 719_163
    }

    /// The number of whole seconds from the start of the 1st of January 1970 to `self`.
    pub open spec fn unix_seconds(self) -> int {
        self.day_number() * 86_400 + self.hour * 3_600 + self.minute * 60 + self.second
    }
}

/// The months that follow `month` lie after its last day.
proof fn lemma_days_before_month(year: int, month: int, later: int)
    requires
        1 <= month < later <= 12,
    ensures
        days_before_month(year, month) + days_in_month(year, month) <= days_before_month(
            year,
            later,
        ),
    decreases later,
{
    if month + 1 < later {
        lemma_days_before_month(year, month, later - 1);
    }
}

/// A day of a year lies before the first day of the next year.
proof fn lemma_day_of_year(year: int, month: int, day: int)
    requires
        1 <= month <= 12,
        1 <= day <= days_in_month(year, month),
    ensures
        0 <= days_before_month(year, month),
        days_before_month(year, month) + day <= days_before_year(year + 1) - days_before_year(year),
{
    assert(days_before_month(year, 12) <= 334 + if is_leap_year(year) { 1int } else { 0int }) by {
        reveal_with_fuel(days_before_month, 13);
    }
    if month < 12 {
        lemma_days_before_month(year, month, 12);
    }
    if 1 < month {
        lemma_days_before_month(year, 1, month);
    }
}

/// Of two valid moments, the one in the earlier year has the smaller day number.
proof fn lemma_day_number_by_year(a: Civil, b: Civil)
    requires
        a.valid(),
        b.valid(),
        a.year < b.year,
    ensures
        a.day_number() < b.day_number(),
{
    lemma_day_of_year(a.year, a.month, a.day);
    lemma_day_of_year(b.year, b.month, b.day);
    assert(days_before_year(a.year + 1) <= days_before_year(b.year));
}

/// Two valid moments with the same distance from 1970 agree in every component,
/// the fraction of the second aside.
pub proof fn law_unix_seconds_injective(a: Civil, b: Civil)
    requires
        a.valid(),
        b.valid(),
        a.unix_seconds() == b.unix_seconds(),
    ensures
        a == (Civil { nanosecond: a.nanosecond, ..b }),
{
    assert(a.day_number() == b.day_number());
    if a.year < b.year {
        lemma_day_number_by_year(a, b);
    } else if b.year < a.year {
        lemma_day_number_by_year(b, a);
    }
    if a.month < b.month {
        lemma_days_before_month(a.year, a.month, b.month);
    } else if b.month < a.month {
        lemma_days_before_month(a.year, b.month, a.month);
    }
}

/// The moment that lies `secs` seconds after the start of 1970.
pub open spec fn civil_at(secs: int) -> Civil {
    choose|c: Civil| c.valid() && c.nanosecond == 0 && #[trigger] c.unix_seconds() == secs
}

/// A moment without a fraction of a second is found again from its distance
/// from 1970.
pub proof fn law_civil_at_unix_seconds(c: Civil)
    requires
        c.valid(),
        c.nanosecond == 0,
    ensures
        civil_at(c.unix_seconds()) == c,
{
    law_unix_seconds_injective(civil_at(c.unix_seconds()), c);
}

/// The first year of a stored date.
pub const MIN_STORED_YEAR: i32 = -100_000;

/// The last year of a stored date.
pub const MAX_STORED_YEAR: i32 = 100_000;

/// The first moment of a `chrono::NaiveDateTime`, in seconds from the start of 1970.
pub const MIN_TIMESTAMP: i64 = -8_334_601_228_800;

/// The last whole second of a `chrono::NaiveDateTime`, from the start of 1970.
pub const MAX_TIMESTAMP: i64 = 8_210_266_876_799;

/// Calls `sqlx::types::time::PrimitiveDateTime::timestamp` on the moment with the
/// given components.
///
/// Believed of it: for a valid moment within the years that the type holds, the
/// result is the moment's distance from the start of 1970 in whole seconds; the
/// fraction of the second does not count.
#[verifier::external_body]
#[allow(deprecated)]
fn primitive_timestamp(
    year: i32,
    month: u8,
    day: u8,
    hour: u8,
    minute: u8,
    second: u8,
    nanosecond: u32,
) -> (secs: i64)
    requires
        MIN_STORED_YEAR <= year <= MAX_STORED_YEAR,
        civil(
            year as int,
            month as int,
            day as int,
            hour as int,
            minute as int,
            second as int,
            nanosecond as int,
        ).valid(),
    ensures
        secs == civil(
            year as int,
            month as int,
            day as int,
            hour as int,
            minute as int,
            second as int,
            nanosecond as int,
        ).unix_seconds(),
{
    let date = sqlx::types::time::Date::try_from_ymd(year, month, day).unwrap();
    let time = sqlx::types::time::Time::try_from_hms_nano(hour, minute, second, nanosecond);
    sqlx::types::time::PrimitiveDateTime::new(date, time.unwrap()).timestamp()
}

/// Calls `chrono::NaiveDateTime::from_timestamp_opt` without a fraction of a second,
/// and hands out year, month, day, hour, minute and second of what it returns.
///
/// Believed of it: it returns a moment exactly for the seconds from `MIN_TIMESTAMP`
/// to `MAX_TIMESTAMP`, and that moment is valid and lies that many seconds from the
/// start of 1970. (`NaiveDateTime::from_timestamp` is the same function, but panics
/// outside that range.)
#[verifier::external_body]
#[allow(deprecated)]
fn naive_from_timestamp(secs: i64) -> (moment: Option<(i32, u32, u32, u32, u32, u32)>)
    ensures
        moment is Some <==> MIN_TIMESTAMP <= secs <= MAX_TIMESTAMP,
        moment matches Some(m) ==> {
            let c = civil(
                m.0 as int,
                m.1 as int,
                m.2 as int,
                m.3 as int,
                m.4 as int,
                m.5 as int,
                0,
            );
            c.valid() && c.unix_seconds() == secs
        },
{
    match chrono::NaiveDateTime::from_timestamp_opt(secs, 0) {
        Some(t) => Some((t.year(), t.month(), t.day(), t.hour(), t.minute(), t.second())),
        None => None,
    }
}

/// The moment with the given components.
pub open spec fn civil(
    year: int,
    month: int,
    day: int,
    hour: int,
    minute: int,
    second: int,
    nanosecond: int,
) -> Civil {
    Civil { year, month, day, hour, minute, second, nanosecond }
}

/// A date and time as a row of the database holds it.
#[derive(Clone, Copy, Debug, PartialEq, Eq)]
pub struct PrimitiveDateTime {
    year: i32,
    month: u8,
    day: u8,
    hour: u8,
    minute: u8,
    second: u8,
    nanosecond: u32,
}

impl View for PrimitiveDateTime {
    type V = Civil;

    closed spec fn view(&self) -> Civil {
        civil(
            self.year as int,
            self.month as int,
            self.day as int,
            self.hour as int,
            self.minute as int,
            self.second as int,
            self.nanosecond as int,
        )
    }
}

impl PrimitiveDateTime {
    #[verifier::type_invariant]
    spec fn well_formed(self) -> bool {
        stored(self@)
    }

    /// The date and time with the given components, where there is one.
    pub fn new(
        year: i32,
        month: u8,
        day: u8,
        hour: u8,
        minute: u8,
        second: u8,
        nanosecond: u32,
    ) -> (moment: Option<PrimitiveDateTime>)
        ensures
            ({
                let c = civil(
                    year as int,
                    month as int,
                    day as int,
                    hour as int,
                    minute as int,
                    second as int,
                    nanosecond as int,
                );
                &&& moment is Some <==> stored(c)
                &&& moment matches Some(m) ==> m@ == c
            }),
    {
        if year < MIN_STORED_YEAR || MAX_STORED_YEAR < year || month < 1 || 12 < month || day < 1
            || month_length(year, month) < day || 24 <= hour || 60 <= minute || 60 <= second
            || 1_000_000_000 <= nanosecond {
            return None;
        }
        Some(PrimitiveDateTime { year, month, day, hour, minute, second, nanosecond })
    }

    /// The number of whole seconds from the start of 1970 to this moment.
    pub fn timestamp(&self) -> (secs: i64)
        ensures
            secs == self@.unix_seconds(),
    {
        proof {
            use_type_invariant(self);
        }
        primitive_timestamp(
            self.year,
            self.month,
            self.day,
            self.hour,
            self.minute,
            self.second,
            self.nanosecond,
        )
    }
}

/// The moments that a row of the database can hold.
pub open spec fn stored(c: Civil) -> bool {
    c.valid() && MIN_STORED_YEAR <= c.year <= MAX_STORED_YEAR
}

/// The timestamp of a stored moment without a fraction of a second is in range, and
/// leads back to that moment.
pub proof fn law_stored_moment_round_trip(c: Civil)
    requires
        stored(c),
        c.nanosecond == 0,
    ensures
        MIN_TIMESTAMP <= c.unix_seconds() <= MAX_TIMESTAMP,
        civil_at(c.unix_seconds()) == c,
{
    lemma_day_of_year(c.year, c.month, c.day);
    law_civil_at_unix_seconds(c);
}

fn month_length(year: i32, month: u8) -> (days: u8)
    ensures
        days == days_in_month(year as int, month as int),
{
    if month == 2 {
        if year % 4 == 0 && (year % 100 != 0 || year % 400 == 0) {
            29
        } else {
            28
        }
    } else if month == 4 || month == 6 || month == 9 || month == 11 {
        30
    } else {
        31
    }
}

/// A date and time that is handed to the database.
#[derive(Clone, Copy, Debug, PartialEq, Eq)]
pub struct NaiveDateTime {
    pub year: i32,
    pub month: u32,
    pub day: u32,
    pub hour: u32,
    pub minute: u32,
    pub second: u32,
}

impl View for NaiveDateTime {
    type V = Civil;

    open spec fn view(&self) -> Civil {
        civil(
            self.year as int,
            self.month as int,
            self.day as int,
            self.hour as int,
            self.minute as int,
            self.second as int,
            0,
        )
    }
}

impl NaiveDateTime {
    /// The moment that lies `secs` seconds from the start of 1970, where the range
    /// of the type reaches it.
    pub fn from_timestamp(secs: i64) -> (moment: Option<NaiveDateTime>)
        ensures
            moment is Some <==> MIN_TIMESTAMP <= secs <= MAX_TIMESTAMP,
            moment matches Some(m) ==> {
                &&& m@.valid()
                &&& m@.unix_seconds() == secs
                &&& m@ == civil_at(secs as int)
            },
    {
        match naive_from_timestamp(secs) {
            Some((year, month, day, hour, minute, second)) => {
                let moment = NaiveDateTime { year, month, day, hour, minute, second };
                proof {
                    law_civil_at_unix_seconds(moment@);
                }
                Some(moment)
            },
            None => None,
        }
    }
}

} // verus!
