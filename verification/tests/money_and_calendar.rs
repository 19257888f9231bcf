use billing::calendar::add_days;
use billing::calendar::add_months;
use billing::calendar::days_in_month;
use billing::calendar::days_overdue;
use billing::calendar::Date;
use billing::dec::checked_add;
use billing::dec::checked_div;
use billing::dec::checked_mul;
use billing::dec::checked_sub;
use billing::dec::le;
use billing::dec::lt;
use billing::dec::min;
use billing::dec::money;
use billing::dec::Dec;

fn d(mantissa: i128, scale: u32) -> Dec {
    Dec { mantissa, scale }
}

fn date(year: i32, month: u32, day: u32) -> Date {
    Date { year, month, day }
}

#[test]
fn money_rounds_half_away_from_zero() {
    assert_eq!(money(d(12345, 3)), d(1235, 2));
    assert_eq!(money(d(-12345, 3)), d(-1235, 2));
    assert_eq!(money(d(12344, 3)), d(1234, 2));
    assert_eq!(money(d(1234999, 5)), d(1235, 2));
}

#[test]
fn money_keeps_two_digit_amounts() {
    assert_eq!(money(d(5, 0)), d(5, 0));
    assert_eq!(money(d(1999, 2)), d(1999, 2));
    assert_eq!(money(money(d(77777, 4))), money(d(77777, 4)));
}

#[test]
fn decimal_arithmetic_is_exact_in_range() {
    let s = checked_add(d(150, 2), d(25, 1)).unwrap();
    assert_eq!(s, d(400, 2));
    let t = checked_sub(d(100, 0), d(1, 2)).unwrap();
    assert_eq!(t, d(9999, 2));
    let p = checked_mul(d(15, 1), d(3, 0)).unwrap();
    assert_eq!(p, d(45, 1));
    let q = checked_div(d(4500, 2), d(100, 0)).unwrap();
    assert!(!lt(q, d(45, 2)) && !lt(d(45, 2), q));
    assert_eq!(checked_div(d(1, 0), d(0, 0)), None);
}

#[test]
fn decimal_overflow_is_none() {
    let max = d(79228162514264337593543950335, 0);
    assert_eq!(checked_add(max, d(1, 0)), None);
    assert_eq!(checked_mul(max, d(2, 0)), None);
}

#[test]
fn decimal_order_is_by_value() {
    assert!(lt(d(1, 0), d(101, 2)));
    assert!(!lt(d(100, 2), d(1, 0)));
    assert!(le(d(100, 2), d(1, 0)));
    assert_eq!(min(d(3, 0), d(25, 1)), d(25, 1));
    assert_eq!(min(d(100, 2), d(1, 0)), d(1, 0));
}

#[test]
fn date_validation() {
    assert_eq!(Date::from_ymd(2024, 2, 29), Some(date(2024, 2, 29)));
    assert_eq!(Date::from_ymd(2023, 2, 29), None);
    assert_eq!(Date::from_ymd(2023, 13, 1), None);
    assert!(date(2024, 1, 31).lt(&date(2024, 2, 1)));
    assert!(!date(2024, 2, 1).lt(&date(2024, 2, 1)));
}

#[test]
fn add_days_crosses_months_and_leap_days() {
    assert_eq!(add_days(date(2024, 1, 31), 30), Some(date(2024, 3, 1)));
    assert_eq!(add_days(date(2023, 1, 31), 30), Some(date(2023, 3, 2)));
    assert_eq!(add_days(date(2024, 3, 1), -1), Some(date(2024, 2, 29)));
    assert_eq!(add_days(date(262142, 12, 31), 1), None);
}

#[test]
fn add_months_clamps_to_month_end() {
    assert_eq!(add_months(date(2024, 1, 31), 1), Some(date(2024, 2, 29)));
    assert_eq!(add_months(date(2023, 1, 31), 1), Some(date(2023, 2, 28)));
    assert_eq!(add_months(date(2024, 11, 15), 3), Some(date(2025, 2, 15)));
}

#[test]
fn days_in_month_table() {
    assert_eq!(days_in_month(2024, 2), 29);
    assert_eq!(days_in_month(2023, 2), 28);
    assert_eq!(days_in_month(1900, 2), 28);
    assert_eq!(days_in_month(2000, 2), 29);
    assert_eq!(days_in_month(2024, 4), 30);
    assert_eq!(days_in_month(2024, 12), 31);
}

#[test]
fn days_overdue_counts_calendar_days() {
    assert_eq!(days_overdue(date(2024, 1, 31), date(2024, 3, 1)), 30);
    assert_eq!(days_overdue(date(2024, 3, 1), date(2024, 1, 31)), -30);
    assert_eq!(days_overdue(date(2023, 12, 31), date(2024, 1, 1)), 1);
}
