use billing::calendar::Date;
use billing::dec::Dec;
use billing::domain::payment_schedule_status::PaymentScheduleStatus;
use billing::error::BillingError;
use billing::settlement::check_manual_schedule;
use billing::settlement::check_reconcile_ack;
use billing::settlement::clamp_settlement;
use billing::settlement::draw_down_schedules;
use billing::settlement::early_pay_discount;
use billing::settlement::edge_sides;
use billing::settlement::invoice_kind;
use billing::settlement::invoice_table;
use billing::settlement::manual_schedule_rows;
use billing::settlement::parse_invoice_kind;
use billing::settlement::restore_settlement;
use billing::settlement::rewind_schedules;
use billing::settlement::settlement_outcome;
use billing::settlement::settlement_request;
use billing::settlement::settlement_table;
use billing::settlement::InvoiceEpdRow;
use billing::settlement::InvoiceKind;
use billing::settlement::InvoiceSettlementRepository;
use billing::settlement::NewScheduleRow;
use billing::settlement::OutstandingStatus;
use billing::settlement::ScheduleRow;
use billing::settlement::ScheduleUpdate;
use billing::settlement::SettlementOutcome;
use billing::settlement::SettlementTally;
use billing::settlement::TermContextRow;
use billing::settlement::try_clamp_settlement;
use billing::settlement::try_draw_down_schedules;
use billing::settlement::try_restore_settlement;
use billing::settlement::try_reverse_step;
use billing::settlement::reverse_step;
use billing::settlement::ReverseAction;
use billing::settlement::OutstandingRow;
use billing::settlement::try_settlement_outcome;
use billing::settlement::try_rewind_schedules;

fn d(mantissa: i128, scale: u32) -> Dec {
    Dec { mantissa, scale }
}

fn date(year: i32, month: u32, day: u32) -> Date {
    Date { year, month, day }
}

#[test]
fn invoice_kinds_and_tables() {
    assert_eq!(parse_invoice_kind("sales"), Some(InvoiceKind::Sales));
    assert_eq!(parse_invoice_kind("purchase"), Some(InvoiceKind::Purchase));
    assert_eq!(parse_invoice_kind("Sales"), None);
    assert_eq!(settlement_table(InvoiceKind::Sales), "billing.sales_invoices");
    assert_eq!(settlement_table(InvoiceKind::Purchase), "billing.purchase_invoices");
    assert_eq!(invoice_table(InvoiceKind::Sales), "sales_invoices");
    assert_eq!(invoice_table(InvoiceKind::Purchase), "purchase_invoices");
    assert_eq!(invoice_kind("sales").ok(), Some(InvoiceKind::Sales));
    match invoice_kind("refund") {
        Err(BillingError::NotDraft(m)) => assert_eq!(m, "unknown invoice kind refund"),
        _ => panic!("expected an unknown-kind refusal"),
    }
    let _repo = InvoiceSettlementRepository::new();
    let _repo2 = InvoiceSettlementRepository::default();
}

#[test]
fn reconciliation_sides_follow_the_ledger_direction() {
    let (debit, credit) = edge_sides(InvoiceKind::Sales, 11, 500, 22);
    assert_eq!((debit.source_type.as_str(), debit.source_id, debit.account_id, debit.reversing), ("order", 11, 500, false));
    assert_eq!((credit.source_type.as_str(), credit.source_id, credit.account_id), ("payment", 22, 500));
    let (debit, credit) = edge_sides(InvoiceKind::Purchase, 11, 600, 22);
    assert_eq!((debit.source_type.as_str(), debit.source_id, debit.account_id), ("payment", 22, 600));
    assert_eq!((credit.source_type.as_str(), credit.source_id, credit.account_id), ("expense", 11, 600));
}

#[test]
fn settlement_request_checks() {
    assert_eq!(settlement_request("sales", d(12345, 3)).ok(), Some(Some((InvoiceKind::Sales, d(1235, 2)))));
    assert_eq!(settlement_request("sales", d(4, 3)).ok(), Some(None));
    assert!(matches!(settlement_request("sales", d(-1, 0)), Err(BillingError::NegativeAmount)));
    assert!(matches!(settlement_request("loan", d(1, 0)), Err(BillingError::NotDraft(_))));
}

#[test]
fn settlement_clamps_to_the_outstanding() {
    let step = clamp_settlement(d(10000, 2), d(2500, 2)).unwrap();
    assert_eq!(step.applied, d(2500, 2));
    assert_eq!(step.outstanding, d(7500, 2));
    assert_eq!(step.status, OutstandingStatus::PartiallyPaid);
    assert_eq!(step.status.as_str(), "partially_paid");
    let step = clamp_settlement(d(10000, 2), d(25000, 2)).unwrap();
    assert_eq!(step.applied, d(10000, 2));
    assert_eq!(step.outstanding, d(0, 2));
    assert_eq!(step.status, OutstandingStatus::Paid);
    assert!(clamp_settlement(d(0, 2), d(500, 2)).is_none());
}

#[test]
fn reversal_restores_at_most_what_was_settled() {
    let step = restore_settlement(d(7500, 2), d(10000, 2), d(5000, 2)).unwrap();
    assert_eq!(step.applied, d(2500, 2));
    assert_eq!(step.outstanding, d(10000, 2));
    assert_eq!(step.status, OutstandingStatus::Submitted);
    assert_eq!(step.status.as_str(), "submitted");
    let step = restore_settlement(d(2000, 2), d(10000, 2), d(3000, 2)).unwrap();
    assert_eq!(step.applied, d(3000, 2));
    assert_eq!(step.outstanding, d(5000, 2));
    assert_eq!(step.status, OutstandingStatus::PartiallyPaid);
    assert!(restore_settlement(d(10000, 2), d(10000, 2), d(3000, 2)).is_none());
}

#[test]
fn settle_then_reverse_restores_the_outstanding() {
    let before = d(10000, 2);
    let step = clamp_settlement(before, d(4000, 2)).unwrap();
    let back = restore_settlement(step.outstanding, d(10000, 2), step.applied).unwrap();
    assert_eq!(back.outstanding, before);
}

#[test]
fn schedules_fill_in_order_and_rewind_last_first() {
    let scheds = vec![
        ScheduleRow { id: 1, amount: d(3000, 2), paid_amount: d(0, 2) },
        ScheduleRow { id: 2, amount: d(7000, 2), paid_amount: d(0, 2) },
    ];
    let ups = draw_down_schedules(&scheds, d(5000, 2));
    assert_eq!(
        ups,
        vec![
            ScheduleUpdate { id: 1, paid_amount: d(3000, 2), status: PaymentScheduleStatus::Paid },
            ScheduleUpdate { id: 2, paid_amount: d(2000, 2), status: PaymentScheduleStatus::PartiallyPaid },
        ]
    );
    let paid = vec![
        ScheduleRow { id: 2, amount: d(7000, 2), paid_amount: d(2000, 2) },
        ScheduleRow { id: 1, amount: d(3000, 2), paid_amount: d(3000, 2) },
    ];
    let ups = rewind_schedules(&paid, d(2500, 2));
    assert_eq!(
        ups,
        vec![
            ScheduleUpdate { id: 2, paid_amount: d(0, 2), status: PaymentScheduleStatus::Unpaid },
            ScheduleUpdate { id: 1, paid_amount: d(2500, 2), status: PaymentScheduleStatus::PartiallyPaid },
        ]
    );
    assert!(draw_down_schedules(&scheds, d(0, 2)).is_empty());
}

#[test]
fn outcome_reports_the_unapplied_remainder() {
    assert_eq!(settlement_outcome(d(12000, 2), d(10000, 2)), SettlementOutcome { applied: d(10000, 2), remainder: d(2000, 2) });
    let mut tally = SettlementTally::new();
    tally.count(d(5000, 2), d(5000, 2));
    tally.count(d(350001, 4), d(3000, 2));
    let o = tally.outcome();
    assert_eq!(o.applied, d(8000, 2));
    assert_eq!(o.remainder, d(500, 2));
}

#[test]
fn reconcile_ack_must_match_the_clamp() {
    assert!(check_reconcile_ack(d(2500, 2), d(25, 0)).is_ok());
    match check_reconcile_ack(d(2500, 2), d(2400, 2)) {
        Err(BillingError::ReconcileRefused { code, message }) => {
            assert_eq!(code, "reconcile_clamp_mismatch");
            assert_eq!(message, "billing clamped 25.00 but the graph applied 24.00");
        }
        _ => panic!("expected a clamp mismatch"),
    }
}

fn epd_row(state: &str, deadline: Option<Date>) -> InvoiceEpdRow {
    InvoiceEpdRow {
        early_pay_discount_percent: d(2, 0),
        early_pay_discount_deadline: deadline,
        early_pay_discount_account_id: Some(77),
        outstanding_amount: d(10000, 2),
        posting_state: state.to_string(),
    }
}

#[test]
fn early_pay_discount_window() {
    let e = early_pay_discount(Some(epd_row("posted", Some(date(2024, 1, 25)))), 5, "sales", date(2024, 1, 25)).unwrap();
    assert_eq!((e.invoice_ref, e.invoice_kind.as_str(), e.percent, e.outstanding_basis, e.account_id), (5, "sales", d(2, 0), d(10000, 2), 77));
    assert!(early_pay_discount(Some(epd_row("posted", Some(date(2024, 1, 25)))), 5, "sales", date(2024, 1, 26)).is_none());
    assert!(early_pay_discount(Some(epd_row("draft", Some(date(2024, 1, 25)))), 5, "sales", date(2024, 1, 20)).is_none());
    assert!(early_pay_discount(Some(epd_row("posted", None)), 5, "sales", date(2024, 1, 20)).is_none());
    assert!(early_pay_discount(None, 5, "sales", date(2024, 1, 20)).is_none());
}

#[test]
fn manual_schedules() {
    let ctx = Some(TermContextRow { payment_term_id: Some(3), posting_date: date(2024, 1, 1), grand_total: d(1, 0), manual_due_date: None });
    match check_manual_schedule(&ctx) {
        Err(BillingError::TermInvalid { code, .. }) => assert_eq!(code, "schedule_conflicts_with_term"),
        _ => panic!("expected a term conflict"),
    }
    assert!(check_manual_schedule(&None).is_ok());
    let rows = manual_schedule_rows(&[(date(2024, 2, 1), d(33333, 3)), (date(2024, 3, 1), d(66667, 3))]);
    assert_eq!(
        rows,
        vec![
            NewScheduleRow { installment_no: 1, due_date: date(2024, 2, 1), amount: d(3333, 2) },
            NewScheduleRow { installment_no: 2, due_date: date(2024, 3, 1), amount: d(6667, 2) },
        ]
    );
}

fn units_of(d: Dec) -> i128 {
    let mut m = d.mantissa;
    let mut s = d.scale;
    while s < 4 {
        m *= 10;
        s += 1;
    }
    m
}

#[test]
fn drawdown_moves_the_applied_amount_up_to_the_open_room() {
    let scheds = vec![
        ScheduleRow { id: 7, amount: d(3000, 2), paid_amount: d(1000, 2) },
        ScheduleRow { id: 8, amount: d(2000, 2), paid_amount: d(2000, 2) },
        ScheduleRow { id: 9, amount: d(4000, 2), paid_amount: d(500, 2) },
    ];
    let moved = |ups: &Vec<ScheduleUpdate>| -> i128 {
        ups.iter()
            .map(|u| {
                let row = scheds.iter().find(|r| r.id == u.id).unwrap();
                units_of(u.paid_amount) - units_of(row.paid_amount)
            })
            .sum()
    };
    let ups = try_draw_down_schedules(&scheds, d(2500, 2)).unwrap();
    assert_eq!(
        ups,
        vec![
            ScheduleUpdate { id: 7, paid_amount: d(3000, 2), status: PaymentScheduleStatus::Paid },
            ScheduleUpdate { id: 9, paid_amount: d(1000, 2), status: PaymentScheduleStatus::PartiallyPaid },
        ]
    );
    assert_eq!(moved(&ups), units_of(d(2500, 2)));
    let all = try_draw_down_schedules(&scheds, d(10000, 2)).unwrap();
    assert_eq!(moved(&all), units_of(d(5500, 2)));
    assert_eq!(all.len(), 2);
    assert!(all.iter().all(|u| u.status == PaymentScheduleStatus::Paid));
}

#[test]
fn rewind_takes_back_the_restored_amount_up_to_what_was_paid() {
    let scheds = vec![
        ScheduleRow { id: 9, amount: d(4000, 2), paid_amount: d(1000, 2) },
        ScheduleRow { id: 8, amount: d(2000, 2), paid_amount: d(0, 2) },
        ScheduleRow { id: 7, amount: d(3000, 2), paid_amount: d(3000, 2) },
    ];
    let ups = try_rewind_schedules(&scheds, d(1500, 2)).unwrap();
    assert_eq!(
        ups,
        vec![
            ScheduleUpdate { id: 9, paid_amount: d(0, 2), status: PaymentScheduleStatus::Unpaid },
            ScheduleUpdate { id: 7, paid_amount: d(2500, 2), status: PaymentScheduleStatus::PartiallyPaid },
        ]
    );
    let all = try_rewind_schedules(&scheds, d(99999, 2)).unwrap();
    assert_eq!(
        all,
        vec![
            ScheduleUpdate { id: 9, paid_amount: d(0, 2), status: PaymentScheduleStatus::Unpaid },
            ScheduleUpdate { id: 7, paid_amount: d(0, 2), status: PaymentScheduleStatus::Unpaid },
        ]
    );
}

#[test]
fn drawdown_reports_overflow_instead_of_panicking() {
    let max = Dec { mantissa: 79228162514264337593543950335, scale: 0 };
    let scheds = vec![ScheduleRow { id: 1, amount: max, paid_amount: Dec { mantissa: -1, scale: 0 } }];
    assert!(try_draw_down_schedules(&scheds, d(100, 2)).is_none());
    assert!(try_draw_down_schedules(&[], d(100, 2)).unwrap().is_empty());
}

#[test]
fn rewinding_a_drawdown_restores_the_schedule() {
    let scheds = vec![
        ScheduleRow { id: 1, amount: d(3000, 2), paid_amount: d(3000, 2) },
        ScheduleRow { id: 2, amount: d(7000, 2), paid_amount: d(2000, 2) },
        ScheduleRow { id: 3, amount: d(5000, 2), paid_amount: d(0, 2) },
    ];
    let ups = try_draw_down_schedules(&scheds, d(6000, 2)).unwrap();
    let mut after: Vec<ScheduleRow> = scheds
        .iter()
        .map(|r| {
            let paid = ups.iter().find(|u| u.id == r.id).map(|u| u.paid_amount).unwrap_or(r.paid_amount);
            ScheduleRow { id: r.id, amount: r.amount, paid_amount: paid }
        })
        .collect();
    assert_eq!(units_of(after[1].paid_amount), units_of(d(7000, 2)));
    assert_eq!(units_of(after[2].paid_amount), units_of(d(1000, 2)));
    after.reverse();
    let back = try_rewind_schedules(&after, d(6000, 2)).unwrap();
    for r in &scheds {
        let mid = after.iter().find(|a| a.id == r.id).unwrap().paid_amount;
        let now = back.iter().find(|u| u.id == r.id).map(|u| u.paid_amount).unwrap_or(mid);
        assert_eq!(units_of(now), units_of(r.paid_amount));
    }
}

#[test]
fn checked_settlement_steps_agree_with_the_plain_ones() {
    let step = try_clamp_settlement(d(10000, 2), d(4000, 2)).unwrap().unwrap();
    assert_eq!(step.applied, d(4000, 2));
    assert_eq!(step.outstanding, d(6000, 2));
    assert_eq!(step.status, OutstandingStatus::PartiallyPaid);
    assert!(try_clamp_settlement(d(0, 2), d(4000, 2)).unwrap().is_none());
    let back = try_restore_settlement(d(6000, 2), d(10000, 2), d(9000, 2)).unwrap().unwrap();
    assert_eq!(back.applied, d(4000, 2));
    assert_eq!(back.outstanding, d(10000, 2));
    assert_eq!(back.status, OutstandingStatus::Submitted);
    assert_eq!(
        try_settlement_outcome(d(12000, 2), d(10000, 2)),
        Some(SettlementOutcome { applied: d(10000, 2), remainder: d(2000, 2) })
    );
}

#[test]
fn checked_settlement_steps_report_overflow() {
    let max = Dec { mantissa: 79228162514264337593543950335, scale: 0 };
    let neg = Dec { mantissa: -79228162514264337593543950335, scale: 0 };
    assert!(try_restore_settlement(neg, max, d(100, 2)).is_none());
    assert!(try_settlement_outcome(max, neg).is_none());
    let mut tally = SettlementTally::new();
    assert!(tally.try_count(d(5000, 2), d(4000, 2)));
    assert!(!tally.try_count(max, d(0, 2)));
    assert_eq!(tally.requested_total, d(5000, 2));
    assert_eq!(tally.try_outcome(), Some(SettlementOutcome { applied: d(4000, 2), remainder: d(1000, 2) }));
    let mut big = SettlementTally { requested_total: max, applied_total: d(0, 2) };
    assert!(!big.try_count(max, d(0, 2)));
    assert_eq!(big.requested_total, max);
}

#[test]
fn schedules_follow_the_outstanding() {
    let scheds = vec![
        ScheduleRow { id: 1, amount: d(3000, 2), paid_amount: d(3000, 2) },
        ScheduleRow { id: 2, amount: d(7000, 2), paid_amount: d(2000, 2) },
        ScheduleRow { id: 3, amount: d(5000, 2), paid_amount: d(0, 2) },
    ];
    let step = clamp_settlement(d(10000, 2), d(12000, 2)).unwrap();
    assert_eq!(step.applied, d(10000, 2));
    assert_eq!(units_of(step.outstanding), 0);
    let ups = try_draw_down_schedules(&scheds, step.applied).unwrap();
    assert_eq!(ups.len(), 2);
    assert!(ups.iter().all(|u| u.status == PaymentScheduleStatus::Paid));
    let back = restore_settlement(step.outstanding, d(15000, 2), d(20000, 2)).unwrap();
    assert_eq!(back.applied, d(15000, 2));
    let full: Vec<ScheduleRow> = scheds.iter().rev().map(|r| ScheduleRow { id: r.id, amount: r.amount, paid_amount: r.amount }).collect();
    let ups = try_rewind_schedules(&full, back.applied).unwrap();
    assert_eq!(ups.len(), 3);
    assert!(ups.iter().all(|u| units_of(u.paid_amount) == 0 && u.status == PaymentScheduleStatus::Unpaid));
}

fn orow(outstanding: Dec, grand: Dec) -> Option<OutstandingRow> {
    Some(OutstandingRow { outstanding_amount: outstanding, grand_total: grand, control_account_id: 9 })
}

#[test]
fn reverse_step_decides_before_any_unlink() {
    match reverse_step("sales", d(4000, 2), 5, orow(d(6000, 2), d(10000, 2))) {
        Ok(ReverseAction::Unlink(s)) => {
            assert_eq!(s.applied, d(4000, 2));
            assert_eq!(s.outstanding, d(10000, 2));
            assert_eq!(s.status, OutstandingStatus::Submitted);
        }
        _ => panic!("expected an unlink"),
    }
    // nothing was settled: a repeated reverse is done without touching the graph
    assert!(matches!(reverse_step("sales", d(4000, 2), 5, orow(d(10000, 2), d(10000, 2))), Ok(ReverseAction::Done(z)) if z == d(0, 0)));
    assert!(matches!(reverse_step("sales", d(0, 2), 5, None), Ok(ReverseAction::Done(z)) if z == d(0, 0)));
    assert!(matches!(reverse_step("sales", d(4000, 2), 5, None), Err(BillingError::InvoiceNotFound(5))));
    assert!(matches!(reverse_step("Sales", d(4000, 2), 5, None), Err(BillingError::NotDraft(_))));
    assert!(matches!(reverse_step("purchase", d(-1, 2), 5, None), Err(BillingError::NegativeAmount)));
    let max = Dec { mantissa: 79228162514264337593543950335, scale: 0 };
    let neg = Dec { mantissa: -79228162514264337593543950335, scale: 0 };
    assert!(try_reverse_step("sales", d(100, 2), 5, orow(neg, max)).is_none());
}
