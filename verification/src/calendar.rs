//! Calendar dates of the proleptic Gregorian calendar, as `chrono::NaiveDate` knows them.
//!
//! A [`Date`] holds year, month and day as plain values; building one and moving it by days or
//! months is done by `chrono`, whose behaviour the trusted items below state.
use vstd::prelude::*;

use chrono::Datelike;

verus! {

/// The earliest year `chrono::NaiveDate` represents.
pub const MIN_YEAR: i32 = -262143i32;

/// The latest year `chrono::NaiveDate` represents.
pub const MAX_YEAR: i32 = 262142i32;

/// A calendar day.
#[derive(Debug, Clone, Copy, PartialEq, Eq, Structural)]
pub struct Date {
    pub year: i32,
    pub month: u32,
    pub day: u32,
}

/// Gregorian leap year (years divisible by 4, except centuries not divisible by 400).
pub open spec fn is_leap(y: int) -> bool {
    (y % 4 == 0 && y % 100 != 0) || y % 400 == 0
}

/// The length of month `m` (1..=12) of year `y`.
pub open spec fn month_len(y: int, m: int) -> int {
    if m == 2 {
        if is_leap(y) {
            29
        } else {
            28
        }
    } else if m == 4 || m == 6 || m == 9 || m == 11 {
        30
    } else {
        31
    }
}

/// `(y, m, d)` names a day `chrono::NaiveDate` can hold.
pub open spec fn valid_ymd(y: int, m: int, d: int) -> bool {
    &&& MIN_YEAR <= y <= MAX_YEAR
    &&& 1 <= m <= 12
    &&& 1 <= d <= month_len(y, m)
}

/// Days in the months of year `y` before month `m`.
pub open spec fn days_before_month(y: int, m: int) -> int
    decreases m,
{
    if m <= 1 {
        0
    } else {
        days_before_month(y, m - 1) + month_len(y, m - 1)
    }
}

/// The day's number counted from January 1 of year 1 (day 1), the count `chrono` calls
/// `num_days_from_ce`.
pub open spec fn day_number(y: int, m: int, d: int) -> int {
    let p = y - 1;
    365 * p + p / 4 - p / 100 + p / 400 + days_before_month(y, m) + d
}

/// The first and the last day number `chrono::NaiveDate` holds.
pub open spec fn min_day_number() -> int {
    day_number(MIN_YEAR as int, 1, 1)
}

/// The last day number `chrono::NaiveDate` holds.
pub open spec fn max_day_number() -> int {
    day_number(MAX_YEAR as int, 12, 31)
}

impl Date {
    /// The day exists in the calendar and in chrono's range.
    pub open spec fn valid(self) -> bool {
        valid_ymd(self.year as int, self.month as int, self.day as int)
    }

    /// The day's number, counted from January 1 of year 1.
    pub open spec fn number(self) -> int {
        day_number(self.year as int, self.month as int, self.day as int)
    }

    /// Chronological order, which for valid dates is the order of (year, month, day).
    pub open spec fn before(self, other: Date) -> bool {
        ||| self.year < other.year
        ||| self.year == other.year && self.month < other.month
        ||| self.year == other.year && self.month == other.month && self.day < other.day
    }

    /// The date for `(year, month, day)`, if that day exists.
    pub fn from_ymd(year: i32, month: u32, day: u32) -> (r: Option<Date>)
        ensures
            r is Some <==> valid_ymd(year as int, month as int, day as int),
            r matches Some(d) ==> d == (Date { year, month, day }),
    {
        if chrono_ymd_exists(year, month, day) {
            Some(Date { year, month, day })
        } else {
            None
        }
    }

    /// Strictly earlier.
    pub fn lt(&self, other: &Date) -> (r: bool)
        ensures
            r == self.before(*other),
    {
        self.year < other.year || (self.year == other.year && (self.month < other.month || (
        self.month == other.month && self.day < other.day)))
    }
}

/// What `NaiveDate::checked_add_signed` returns when a date moves by `n` days.
pub uninterp spec fn chrono_days_later(d: Date, n: int) -> Option<Date>;

/// `NaiveDate::from_ymd_opt(y, m, d).is_some()`: the day exists in the proleptic Gregorian
/// calendar and its year lies in chrono's range.
#[verifier::external_body]
fn chrono_ymd_exists(y: i32, m: u32, d: u32) -> (r: bool)
    ensures
        r == valid_ymd(y as int, m as int, d as int),
{
    chrono::NaiveDate::from_ymd_opt(y, m, d).is_some()
}

/// `NaiveDate::checked_add_signed(TimeDelta::days(n))`. Named; the date `n` days on, which exists
/// exactly when its day number lies in chrono's range.
#[verifier::external_body]
fn chrono_add_days(d: Date, n: i32) -> (r: Option<Date>)
    requires
        d.valid(),
    ensures
        r == chrono_days_later(d, n as int),
        r is Some <==> min_day_number() <= d.number() + n <= max_day_number(),
        r matches Some(e) ==> e.valid() && e.number() == d.number() + n,
{
    let date = chrono::NaiveDate::from_ymd_opt(d.year, d.month, d.day).unwrap();
    date.checked_add_signed(chrono::TimeDelta::days(n as i64)).map(
        |e| Date { year: e.year(), month: e.month(), day: e.day() },
    )
}

/// The month index `year * 12 + month - 1` moved `k` months on, as a (year, month) pair.
pub open spec fn months_on(d: Date, k: int) -> (int, int) {
    let t = d.year * 12 + (d.month - 1) + k;
    (t / 12, t % 12 + 1)
}

/// What `NaiveDate::checked_add_months` gives: the same day `k` months on, clamped to the last day
/// of a shorter month; `None` when the year leaves chrono's range or `k` exceeds `i32::MAX`.
pub open spec fn spec_add_months(d: Date, k: int) -> Option<Date> {
    let (y, m) = months_on(d, k);
    if k > i32::MAX || y < MIN_YEAR || y > MAX_YEAR {
        None
    } else {
        Some(
            Date {
                year: y as i32,
                month: m as u32,
                day: (if d.day <= month_len(y, m) {
                    d.day as int
                } else {
                    month_len(y, m)
                }) as u32,
            },
        )
    }
}

/// `NaiveDate::checked_add_months(Months::new(k))`: the same day `k` months later, the last day of
/// the month where that month is shorter; `None` when out of chrono's range.
#[verifier::external_body]
fn chrono_add_months(d: Date, k: u32) -> (r: Option<Date>)
    requires
        d.valid(),
    ensures
        r == spec_add_months(d, k as int),
{
    let date = chrono::NaiveDate::from_ymd_opt(d.year, d.month, d.day).unwrap();
    date.checked_add_months(chrono::Months::new(k)).map(
        |e| Date { year: e.year(), month: e.month(), day: e.day() },
    )
}

/// `(b - a).num_days()` on two `NaiveDate`s: the signed count of days from `a` to `b`.
#[verifier::external_body]
fn chrono_days_between(a: Date, b: Date) -> (r: i64)
    requires
        a.valid(),
        b.valid(),
    ensures
        r == b.number() - a.number(),
{
    let x = chrono::NaiveDate::from_ymd_opt(a.year, a.month, a.day).unwrap();
    let y = chrono::NaiveDate::from_ymd_opt(b.year, b.month, b.day).unwrap();
    (y - x).num_days()
}

/// How many days an invoice due on `due_date` is overdue on `today` (negative while not yet due).
pub fn days_overdue(due_date: Date, today: Date) -> (r: i64)
    requires
        due_date.valid(),
        today.valid(),
    ensures
        r == today.number() - due_date.number(),
{
    chrono_days_between(due_date, today)
}

/// The date `n` days after `d` (before, for negative `n`), if chrono's range holds it.
pub fn add_days(d: Date, n: i32) -> (r: Option<Date>)
    requires
        d.valid(),
    ensures
        r == chrono_days_later(d, n as int),
        r is Some <==> min_day_number() <= d.number() + n <= max_day_number(),
        r matches Some(e) ==> e.valid() && e.number() == d.number() + n,
{
    chrono_add_days(d, n)
}

/// The date `k` months after `d`, clamped to the end of a shorter month.
pub fn add_months(d: Date, k: u32) -> (r: Option<Date>)
    requires
        d.valid(),
    ensures
        r == spec_add_months(d, k as int),
        r matches Some(e) ==> e.valid(),
{
    proof {
        lemma_add_months_valid(d, k as int);
    }
    chrono_add_months(d, k)
}

/// What the day-count helper of the payment-term derivation returns: the month's length, where
/// February is asked of chrono (29 only where the 29th exists), and 30 for a month outside 1..=12.
pub open spec fn spec_days_in_month(year: int, month: int) -> int {
    if month == 1 || month == 3 || month == 5 || month == 7 || month == 8 || month == 10 || month
        == 12 {
        31
    } else if month == 4 || month == 6 || month == 9 || month == 11 {
        30
    } else if month == 2 {
        if valid_ymd(year, 2, 29) {
            29
        } else {
            28
        }
    } else {
        30
    }
}

/// Days in a (year, month), used to clamp a day-of-month target (Feb 31 becomes Feb 28/29).
pub fn days_in_month(year: i32, month: u32) -> (r: u32)
    ensures
        r == spec_days_in_month(year as int, month as int),
{
    if month == 1 || month == 3 || month == 5 || month == 7 || month == 8 || month == 10 || month
        == 12 {
        31
    } else if month == 4 || month == 6 || month == 9 || month == 11 {
        30
    } else if month == 2 {
        if chrono_ymd_exists(year, 2, 29) {
            29
        } else {
            28
        }
    } else {
        30
    }
}

/// For a year in chrono's range, the helper's count is the month's true length.
pub proof fn lemma_days_in_month_valid(y: int, m: int)
    requires
        MIN_YEAR <= y <= MAX_YEAR,
        1 <= m <= 12,
    ensures
        spec_days_in_month(y, m) == month_len(y, m),
{
}

proof fn lemma_add_months_valid(d: Date, k: int)
    requires
        d.valid(),
        k >= 0,
    ensures
        spec_add_months(d, k) matches Some(e) ==> e.valid(),
{
    let (y, m) = months_on(d, k);
    assert(1 <= m <= 12);
}

} // verus!
