use billing::calendar::Date;
use billing::dec::le;
use billing::dec::Dec;
use billing::error::BillingError;
use billing::terms::check_term_status;
use billing::terms::default_anchor;
use billing::terms::default_delay_type;
use billing::terms::default_discount_tax_basis;
use billing::terms::default_sequence;
use billing::terms::derive_schedule;
use billing::terms::line_due_date;
use billing::terms::plan_term_on_post;
use billing::terms::preview_term;
use billing::terms::term_status_updated;
use billing::terms::try_derive_schedule;
use billing::terms::try_validate_term;
use billing::terms::validate_term;
use billing::terms::NewTermLine;
use billing::terms::TermHeaderRow;
use billing::terms::TermLineRow;

fn d(mantissa: i128, scale: u32) -> Dec {
    Dec { mantissa, scale }
}

fn date(year: i32, month: u32, day: u32) -> Date {
    Date { year, month, day }
}

fn same(a: Dec, b: Dec) -> bool {
    le(a, b) && le(b, a)
}

fn row(value: &str, amount: Dec, nb_days: i32, dom: Option<i32>, delay: &str, anchor: &str) -> TermLineRow {
    TermLineRow {
        id: 7,
        value: value.to_string(),
        value_amount: amount,
        nb_days,
        day_of_month: dom,
        delay_type: delay.to_string(),
        anchor: anchor.to_string(),
        sequence: 10,
    }
}

fn new_line(value: &str, amount: Dec, nb_days: i32, dom: Option<i32>, delay: &str) -> NewTermLine {
    NewTermLine {
        value: value.to_string(),
        value_amount: amount,
        nb_days,
        day_of_month: dom,
        delay_type: delay.to_string(),
        anchor: "invoice_date".to_string(),
        sequence: 10,
    }
}

fn header(company_id: Option<u128>, status: &str, early_discount: bool) -> TermHeaderRow {
    TermHeaderRow {
        id: 99,
        company_id,
        name: "Net 30".to_string(),
        status: status.to_string(),
        early_discount,
        discount_percent: d(2, 0),
        discount_days: 10,
        discount_account_id: if early_discount { Some(555) } else { None },
    }
}

fn term_code(r: Result<(), BillingError>) -> String {
    match r {
        Err(e) => e.code(),
        Ok(()) => "ok".to_string(),
    }
}

#[test]
fn due_date_delay_and_anchor_matrix() {
    let pd = date(2024, 1, 15);
    assert_eq!(line_due_date(&row("balance", d(0, 0), 30, None, "days", "invoice_date"), pd), Some(date(2024, 2, 14)));
    assert_eq!(line_due_date(&row("balance", d(0, 0), 0, None, "days", "end_of_invoice_month"), pd), Some(date(2024, 1, 31)));
    assert_eq!(line_due_date(&row("balance", d(0, 0), 30, None, "days", "end_of_invoice_month"), pd), Some(date(2024, 3, 1)));
    assert_eq!(line_due_date(&row("balance", d(0, 0), 1, Some(31), "day_current_month", "invoice_date"), pd), Some(date(2024, 2, 29)));
    assert_eq!(line_due_date(&row("balance", d(0, 0), 0, Some(10), "day_current_month", "invoice_date"), pd), Some(date(2024, 1, 10)));
    assert_eq!(line_due_date(&row("balance", d(0, 0), 0, Some(10), "day_following_month", "invoice_date"), pd), Some(date(2024, 2, 10)));
    assert_eq!(line_due_date(&row("balance", d(0, 0), 1, Some(31), "day_following_month", "invoice_date"), pd), Some(date(2024, 3, 31)));
    assert_eq!(line_due_date(&row("balance", d(0, 0), 0, None, "day_current_month", "invoice_date"), pd), None);
    assert_eq!(line_due_date(&row("balance", d(0, 0), 0, None, "weeks", "invoice_date"), pd), None);
}

#[test]
fn schedule_splits_percent_and_balance() {
    let lines = vec![
        row("percent", d(30, 0), 0, None, "days", "invoice_date"),
        row("balance", d(0, 0), 30, None, "days", "invoice_date"),
    ];
    let s = derive_schedule(&lines, date(2024, 1, 15), d(100000, 2)).unwrap();
    assert_eq!(s.len(), 2);
    assert_eq!(s[0].0, date(2024, 1, 15));
    assert!(same(s[0].1, d(30000, 2)));
    assert_eq!(s[1].0, date(2024, 2, 14));
    assert!(same(s[1].1, d(70000, 2)));
}

#[test]
fn schedule_conserves_the_total_to_the_cent() {
    let lines = vec![
        row("percent", d(3333, 2), 0, None, "days", "invoice_date"),
        row("percent", d(3333, 2), 30, None, "days", "invoice_date"),
        row("balance", d(0, 0), 60, None, "days", "invoice_date"),
    ];
    let s = derive_schedule(&lines, date(2024, 1, 1), d(10000, 2)).unwrap();
    assert_eq!(s.len(), 3);
    assert!(same(s[0].1, d(3333, 2)));
    assert!(same(s[1].1, d(3333, 2)));
    assert!(same(s[2].1, d(3334, 2)));
    let mut total = d(0, 0);
    for (_, a) in &s {
        total = billing::dec::checked_add(total, *a).unwrap();
    }
    assert!(same(total, d(10000, 2)));
}

#[test]
fn schedule_collapses_same_date_slices_in_date_order() {
    let lines = vec![
        row("percent", d(50, 0), 30, None, "days", "invoice_date"),
        row("fixed", d(100, 0), 0, None, "days", "invoice_date"),
        row("balance", d(0, 0), 30, None, "days", "invoice_date"),
    ];
    let s = derive_schedule(&lines, date(2024, 1, 1), d(1000, 0)).unwrap();
    assert_eq!(s.len(), 2);
    assert_eq!(s[0].0, date(2024, 1, 1));
    assert!(same(s[0].1, d(100, 0)));
    assert_eq!(s[1].0, date(2024, 1, 31));
    assert!(same(s[1].1, d(900, 0)));
}

#[test]
fn schedule_without_lines_covers_only_a_zero_total() {
    let s = derive_schedule(&[], date(2024, 5, 5), d(0, 2)).unwrap();
    assert_eq!(s, vec![(date(2024, 5, 5), d(0, 2))]);
    let e = derive_schedule(&[], date(2024, 5, 5), d(4250, 2)).unwrap_err();
    assert_eq!(e.code(), "term_does_not_cover_total");
}

#[test]
fn schedule_refusals() {
    let half = vec![row("percent", d(50, 0), 30, None, "days", "invoice_date")];
    let e = derive_schedule(&half, date(2024, 1, 1), d(1000, 0)).unwrap_err();
    assert_eq!(e.code(), "term_does_not_cover_total");
    let too_much = vec![
        row("fixed", d(1500, 0), 0, None, "days", "invoice_date"),
        row("balance", d(0, 0), 30, None, "days", "invoice_date"),
    ];
    let e = derive_schedule(&too_much, date(2024, 1, 1), d(1000, 0)).unwrap_err();
    assert_eq!(e.code(), "term_exceeds_total");
    let e = derive_schedule(&half, date(2024, 1, 1), d(-1, 0)).unwrap_err();
    assert_eq!(e.code(), "negative_amount");
    let bad_value = vec![row("rest", d(0, 0), 0, None, "days", "invoice_date")];
    match derive_schedule(&bad_value, date(2024, 1, 1), d(1000, 0)) {
        Err(BillingError::TermInvalid { code, message }) => {
            assert_eq!(code, "term_value_invalid");
            assert_eq!(message, "unknown term slice value 'rest'");
        }
        _ => panic!("expected term_value_invalid"),
    }
    let bad_delay = vec![row("balance", d(0, 0), 0, None, "weeks", "invoice_date")];
    let e = derive_schedule(&bad_delay, date(2024, 1, 1), d(1000, 0)).unwrap_err();
    assert_eq!(e.code(), "term_delay_invalid");
}

#[test]
fn schedule_overflow_is_reported_as_none() {
    let lines = vec![row("percent", d(79228162514264337593543950335, 0), 0, None, "days", "invoice_date")];
    assert!(try_derive_schedule(&lines, date(2024, 1, 1), d(79228162514264337593543950335, 0)).is_none());
}

#[test]
fn validate_term_accepts_a_well_formed_term() {
    let lines = vec![
        new_line("percent", d(40, 0), 0, None, "days"),
        new_line("fixed", d(10, 0), 15, None, "days"),
        new_line("balance", d(0, 0), 1, Some(15), "day_following_month"),
    ];
    assert_eq!(term_code(validate_term("Split", &lines, true, d(2, 0), 10, Some(9), "included")), "ok");
}

#[test]
fn validate_term_refusals() {
    let ok = vec![new_line("balance", d(0, 0), 30, None, "days")];
    assert_eq!(term_code(validate_term("  ", &ok, false, d(0, 0), 0, None, "included")), "term_name_required");
    assert_eq!(term_code(validate_term("T", &[], false, d(0, 0), 0, None, "included")), "term_lines_required");
    assert_eq!(term_code(validate_term("T", &ok, false, d(0, 0), 0, None, "reduced_price")), "discount_tax_basis_unsupported");
    assert_eq!(term_code(validate_term("T", &ok, true, d(0, 0), 10, Some(1), "included")), "discount_percent_out_of_range");
    assert_eq!(term_code(validate_term("T", &ok, true, d(101, 0), 10, Some(1), "included")), "discount_percent_out_of_range");
    assert_eq!(term_code(validate_term("T", &ok, true, d(2, 0), 0, Some(1), "included")), "discount_days_out_of_range");
    assert_eq!(term_code(validate_term("T", &ok, true, d(2, 0), 10, None, "included")), "discount_account_required");
    let two_balances = vec![new_line("balance", d(0, 0), 0, None, "days"), new_line("balance", d(0, 0), 0, None, "days")];
    assert_eq!(term_code(validate_term("T", &two_balances, false, d(0, 0), 0, None, "included")), "term_balance_not_last");
    let balance_first = vec![new_line("balance", d(0, 0), 0, None, "days"), new_line("fixed", d(5, 0), 0, None, "days")];
    assert_eq!(term_code(validate_term("T", &balance_first, false, d(0, 0), 0, None, "included")), "term_balance_not_last");
    let pct = vec![new_line("percent", d(0, 0), 0, None, "days")];
    assert_eq!(term_code(validate_term("T", &pct, false, d(0, 0), 0, None, "included")), "term_percent_out_of_range");
    let fixed = vec![new_line("fixed", d(0, 0), 0, None, "days")];
    assert_eq!(term_code(validate_term("T", &fixed, false, d(0, 0), 0, None, "included")), "term_fixed_out_of_range");
    let neg = vec![new_line("fixed", d(5, 0), -1, None, "days")];
    assert_eq!(term_code(validate_term("T", &neg, false, d(0, 0), 0, None, "included")), "term_days_negative");
    let no_dom = vec![new_line("fixed", d(5, 0), 0, None, "day_current_month")];
    assert_eq!(term_code(validate_term("T", &no_dom, false, d(0, 0), 0, None, "included")), "term_day_of_month_required");
    let big_dom = vec![new_line("fixed", d(5, 0), 0, Some(32), "day_current_month")];
    assert_eq!(term_code(validate_term("T", &big_dom, false, d(0, 0), 0, None, "included")), "term_day_of_month_required");
    let bad_delay = vec![new_line("fixed", d(5, 0), 0, None, "weeks")];
    assert_eq!(term_code(validate_term("T", &bad_delay, false, d(0, 0), 0, None, "included")), "term_delay_invalid");
    let over = vec![new_line("percent", d(60, 0), 0, None, "days"), new_line("percent", d(50, 0), 0, None, "days")];
    assert_eq!(term_code(validate_term("T", &over, false, d(0, 0), 0, None, "included")), "term_percent_exceeds_total");
    let weird = vec![new_line("rest", d(5, 0), 0, None, "days")];
    match validate_term("T", &weird, false, d(0, 0), 0, None, "included") {
        Err(BillingError::TermInvalid { code, message }) => {
            assert_eq!(code, "term_value_invalid");
            assert_eq!(message, "unknown term slice value 'rest'");
        }
        _ => panic!("expected term_value_invalid"),
    }
}

#[test]
fn post_hook_plans_due_date_discount_and_installments() {
    let lines = vec![
        row("percent", d(50, 0), 0, None, "days", "invoice_date"),
        row("balance", d(0, 0), 30, None, "days", "invoice_date"),
    ];
    let plan = plan_term_on_post(Some((header(Some(1), "active", true), lines)), 1, 99, date(2024, 1, 15), d(20000, 2), None, false)
        .unwrap()
        .unwrap();
    assert_eq!(plan.due_date, date(2024, 2, 14));
    assert_eq!(plan.epd_percent, d(2, 0));
    assert_eq!(plan.epd_deadline, Some(date(2024, 1, 25)));
    assert_eq!(plan.epd_account, Some(555));
    assert_eq!(plan.installments.len(), 2);
    assert!(same(plan.installments[1].1, d(10000, 2)));
}

#[test]
fn post_hook_single_slice_writes_only_the_due_date() {
    let lines = vec![row("balance", d(0, 0), 30, None, "days", "invoice_date")];
    let plan = plan_term_on_post(Some((header(None, "active", false), lines)), 1, 99, date(2024, 1, 15), d(20000, 2), None, false)
        .unwrap()
        .unwrap();
    assert_eq!(plan.due_date, date(2024, 2, 14));
    assert_eq!(plan.epd_percent, d(0, 0));
    assert_eq!(plan.epd_deadline, None);
    assert!(plan.installments.is_empty());
}

#[test]
fn post_hook_refusals() {
    let lines = || vec![row("balance", d(0, 0), 30, None, "days", "invoice_date")];
    match plan_term_on_post(None, 1, 99, date(2024, 1, 15), d(1, 0), None, false) {
        Some(Err(BillingError::TermNotFound(t))) => assert_eq!(t, 99),
        _ => panic!("expected term_not_found"),
    }
    match plan_term_on_post(Some((header(Some(2), "active", false), lines())), 1, 99, date(2024, 1, 15), d(1, 0), None, false) {
        Some(Err(BillingError::TermNotFound(t))) => assert_eq!(t, 99),
        _ => panic!("expected term_not_found for another company's term"),
    }
    let e = plan_term_on_post(Some((header(Some(1), "active", false), lines())), 1, 99, date(2024, 1, 15), d(1, 0), Some(date(2024, 2, 1)), false)
        .unwrap()
        .err()
        .unwrap();
    assert_eq!(e.code(), "due_date_conflicts_with_term");
    let e = plan_term_on_post(Some((header(Some(1), "active", false), lines())), 1, 99, date(2024, 1, 15), d(1, 0), None, true)
        .unwrap()
        .err()
        .unwrap();
    assert_eq!(e.code(), "schedule_conflicts_with_term");
}

#[test]
fn preview_refuses_retired_terms() {
    let lines = vec![row("balance", d(0, 0), 30, None, "days", "invoice_date")];
    let e = preview_term(Some((header(Some(1), "inactive", false), lines)), 99, date(2024, 1, 15), d(1, 0))
        .unwrap()
        .err()
        .unwrap();
    assert_eq!(e.code(), "term_inactive");
    match preview_term(None, 42, date(2024, 1, 15), d(1, 0)) {
        Some(Err(BillingError::TermNotFound(t))) => assert_eq!(t, 42),
        _ => panic!("expected term_not_found"),
    }
    let lines = vec![row("balance", d(0, 0), 30, None, "days", "invoice_date")];
    let s = preview_term(Some((header(None, "active", false), lines)), 99, date(2024, 1, 15), d(5, 0)).unwrap().unwrap();
    assert_eq!(s, vec![(date(2024, 2, 14), d(5, 0))]);
}

#[test]
fn term_status_updates() {
    assert_eq!(term_code(check_term_status("active")), "ok");
    assert_eq!(term_code(check_term_status("inactive")), "ok");
    assert_eq!(term_code(check_term_status("archived")), "term_status_invalid");
    assert_eq!(term_code(term_status_updated(5, 1)), "ok");
    match term_status_updated(5, 0) {
        Err(BillingError::TermNotFound(t)) => assert_eq!(t, 5),
        _ => panic!("expected term_not_found"),
    }
}

#[test]
fn request_body_defaults() {
    assert_eq!(default_delay_type(), "days");
    assert_eq!(default_anchor(), "invoice_date");
    assert_eq!(default_sequence(), 10);
    assert_eq!(default_discount_tax_basis(), "included");
}

#[test]
fn checked_validation_agrees_with_the_plain_one() {
    let lines = vec![
        new_line("percent", d(40, 0), 0, None, "days"),
        new_line("balance", d(0, 0), 1, Some(15), "day_following_month"),
    ];
    assert!(matches!(try_validate_term("Split", &lines, false, d(0, 0), 0, None, "included"), Some(Ok(()))));
    let over = vec![new_line("percent", d(60, 0), 0, None, "days"), new_line("percent", d(50, 0), 0, None, "days")];
    let r = try_validate_term("T", &over, false, d(0, 0), 0, None, "included").unwrap();
    assert_eq!(term_code(r), "term_percent_exceeds_total");
}

#[test]
fn percent_rounding_is_absorbed_by_the_last_slice() {
    let split = vec![
        row("percent", d(50, 0), 0, None, "days", "invoice_date"),
        row("percent", d(50, 0), 30, None, "days", "invoice_date"),
    ];
    let s = derive_schedule(&split, date(2026, 1, 1), d(3, 2)).unwrap();
    assert_eq!(s.len(), 2);
    assert_eq!(s[0].0, date(2026, 1, 1));
    assert!(same(s[0].1, d(2, 2)));
    assert_eq!(s[1].0, date(2026, 1, 31));
    assert!(same(s[1].1, d(1, 2)));
    let thirds = vec![
        row("percent", d(3333, 2), 0, None, "days", "invoice_date"),
        row("percent", d(3333, 2), 30, None, "days", "invoice_date"),
        row("percent", d(3334, 2), 60, None, "days", "invoice_date"),
    ];
    let s = derive_schedule(&thirds, date(2026, 1, 1), d(1, 2)).unwrap();
    assert_eq!(s.len(), 3);
    assert!(same(s[0].1, d(0, 2)) && same(s[1].1, d(0, 2)) && same(s[2].1, d(1, 2)));
}

#[test]
fn percent_and_fixed_shares_beyond_the_total_are_refused() {
    let over = vec![
        row("fixed", d(30, 0), 0, None, "days", "invoice_date"),
        row("percent", d(80, 0), 30, None, "days", "invoice_date"),
        row("balance", d(0, 0), 60, None, "days", "invoice_date"),
    ];
    let e = derive_schedule(&over, date(2024, 1, 1), d(100, 0)).unwrap_err();
    assert_eq!(e.code(), "term_exceeds_total");
    let mixed = vec![
        row("fixed", d(30, 0), 0, None, "days", "invoice_date"),
        row("percent", d(70, 0), 30, None, "days", "invoice_date"),
    ];
    let s = derive_schedule(&mixed, date(2024, 1, 1), d(100, 0)).unwrap();
    assert!(same(s[0].1, d(30, 0)) && same(s[1].1, d(70, 0)));
}
