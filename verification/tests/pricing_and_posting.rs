use billing::calendar::Date;
use billing::dec::le;
use billing::dec::Dec;
use billing::error::BillingError;
use billing::events::billed_lines;
use billing::events::BilledLine;
use billing::posting::build_ar_post;
use billing::posting::credit_note;
use billing::posting::group_by_account;
use billing::posting::posted_outcome;
use billing::posting::try_build_ap_post;
use billing::posting::try_build_ar_post;
use billing::posting::AccountAmount;
use billing::posting::ApHeader;
use billing::posting::ArHeader;
use billing::posting::PostEnvelope;
use billing::posting::PostOutcome;
use billing::posting::PostingStateRow;
use billing::pricing::begin_pricing;
use billing::pricing::currency_or_default;
use billing::pricing::engine_request_lines;
use billing::pricing::is_templated;
use billing::pricing::plan_purchase_invoice;
use billing::pricing::plan_sales_invoice;
use billing::pricing::price;
use billing::pricing::sum_by_basis;
use billing::pricing::templated_document;
use billing::pricing::try_price;
use billing::pricing::untemplated_document;
use billing::pricing::EngineResult;
use billing::pricing::EngineTaxLine;
use billing::pricing::NewInvoiceLine;
use billing::pricing::NewTaxLine;
use billing::pricing::PricingStep;

fn d(mantissa: i128, scale: u32) -> Dec {
    Dec { mantissa, scale }
}

fn same(a: Dec, b: Dec) -> bool {
    le(a, b) && le(b, a)
}

fn line(account_id: u128, quantity: Dec, unit_price: Dec, template: Option<u128>) -> NewInvoiceLine {
    NewInvoiceLine {
        item_id: 900 + account_id,
        account_id,
        description: Some("widget".to_string()),
        quantity,
        unit_price,
        tax_template_id: template,
    }
}

fn tax(basis: &str, amount: Dec) -> NewTaxLine {
    NewTaxLine {
        account_id: 2100,
        basis: basis.to_string(),
        description: None,
        rate: d(11, 0),
        tax_amount: amount,
        taxable_base: d(0, 0),
        tax_template_id: None,
        repartition_line_id: None,
        real_account_id: None,
        exigibility: None,
    }
}

#[test]
fn price_rounds_each_line_and_totals_by_basis() {
    let lines = vec![line(4000, d(3, 0), d(3333, 3), None), line(4100, d(2, 0), d(1005, 2), None)];
    let taxes = vec![tax("output", d(110, 2)), tax("output", d(221, 2)), tax("input", d(50, 2)), tax("withholding", d(20, 2)), tax("other", d(999, 0))];
    let (priced, net, output, input, wht) = price(&lines, &taxes).ok().unwrap();
    assert_eq!(priced.len(), 2);
    assert_eq!(priced[0].net_amount, d(1000, 2));
    assert!(same(priced[1].net_amount, d(2010, 2)));
    assert!(same(net, d(3010, 2)));
    assert!(same(output, d(331, 2)));
    assert!(same(input, d(50, 2)));
    assert!(same(wht, d(20, 2)));
}

#[test]
fn price_refusals() {
    assert!(matches!(price(&[], &[]), Err(BillingError::EmptyDocument)));
    assert!(matches!(price(&[line(1, d(-1, 0), d(1, 0), None)], &[]), Err(BillingError::NegativeAmount)));
    assert!(matches!(price(&[line(1, d(1, 0), d(-1, 0), None)], &[]), Err(BillingError::NegativeAmount)));
    assert!(matches!(price(&[line(1, d(1, 0), d(1, 0), None)], &[tax("output", d(-1, 0))]), Err(BillingError::NegativeAmount)));
    assert!(matches!(price(&[line(1, d(1, 0), d(1, 0), None)], &[tax("excise", d(-1, 0))]), Err(BillingError::NegativeAmount)));
    assert!(price(&[line(1, d(1, 0), d(1, 0), None)], &[tax("excise", d(1, 0))]).is_ok());
    let max = d(79228162514264337593543950335, 0);
    assert!(try_price(&[line(1, max, max, None)], &[]).is_none());
}

#[test]
fn sales_draft_totals() {
    let lines = vec![line(4000, d(2, 0), d(5000, 2), None)];
    let draft = plan_sales_invoice(&lines, &[tax("output", d(1100, 2))], None).unwrap().ok().unwrap();
    assert!(same(draft.net_total, d(10000, 2)));
    assert!(same(draft.tax_total, d(1100, 2)));
    assert!(same(draft.grand_total, d(11100, 2)));
    assert_eq!(draft.currency, "IDR");
    let draft = plan_sales_invoice(&lines, &[], Some("USD".to_string())).unwrap().ok().unwrap();
    assert_eq!(draft.currency, "USD");
}

#[test]
fn purchase_draft_deducts_withholding_and_refuses_a_negative_payable() {
    let lines = vec![line(5000, d(1, 0), d(10000, 2), None)];
    let draft = plan_purchase_invoice(&lines, &[tax("input", d(1100, 2)), tax("withholding", d(200, 2))], None).unwrap().ok().unwrap();
    assert!(same(draft.grand_total, d(10900, 2)));
    assert!(same(draft.withholding_total, d(200, 2)));
    let e = plan_purchase_invoice(&lines, &[tax("withholding", d(20000, 2))], None).unwrap().err().unwrap();
    assert_eq!(e.code(), "negative_amount");
}

#[test]
fn sum_by_basis_ignores_unknown_bases() {
    let (o, i, w) = sum_by_basis(&[tax("output", d(10005, 4)), tax("output", d(1, 2)), tax("vat", d(5, 0))]);
    assert!(same(o, d(101, 2)));
    assert!(same(i, d(0, 0)));
    assert!(same(w, d(0, 0)));
    assert_eq!(currency_or_default(None), "IDR");
}

#[test]
fn untemplated_documents_keep_the_supplied_tax_lines() {
    let lines = vec![line(4000, d(1, 0), d(1000, 2), None)];
    let supplied = vec![tax("output", d(110, 2))];
    let (priced, _, _, _, _) = price(&lines, &supplied).ok().unwrap();
    assert!(!is_templated(&lines));
    let doc = untemplated_document(priced, &supplied).unwrap();
    assert!(same(doc.net_total, d(1000, 2)));
    assert_eq!(doc.tax_lines.len(), 1);
    assert!(same(doc.output, d(110, 2)));
}

fn engine_line(source_index: usize, account_id: Option<u128>, amount: Dec, withholding: bool) -> EngineTaxLine {
    EngineTaxLine {
        source_index,
        template_id: 0x0123456789abcdef0123456789abcdef,
        account_id,
        real_account_id: None,
        rate: d(11, 0),
        tax_amount: amount,
        is_withholding: withholding,
        description: Some("PPN".to_string()),
        repartition_line_id: None,
    }
}

#[test]
fn templated_documents_take_the_engine_nets_and_splits() {
    let lines = vec![line(4000, d(1, 0), d(1780, 2), Some(1)), line(4100, d(1, 0), d(500, 2), None), line(4000, d(1, 0), d(1780, 2), Some(1))];
    assert!(is_templated(&lines));
    let req = engine_request_lines(&lines);
    assert_eq!(req, vec![(1, d(1, 0), d(1780, 2)), (1, d(1, 0), d(1780, 2))]);
    let (priced, _, _, _, _) = price(&lines, &[]).ok().unwrap();
    let result = EngineResult {
        net_amounts: vec![d(1780, 2), d(1779, 2)],
        lines: vec![engine_line(0, Some(2100), d(374, 2), false), engine_line(1, Some(2100), d(373, 2), false), engine_line(1, Some(2200), d(-36, 2), true)],
    };
    let doc = templated_document(&lines, priced, result, "sales").unwrap().ok().unwrap();
    assert!(same(doc.priced[2].net_amount, d(1779, 2)));
    assert!(same(doc.priced[1].net_amount, d(500, 2)));
    assert!(same(doc.net_total, d(4059, 2)));
    assert_eq!(doc.tax_lines.len(), 3);
    assert_eq!(doc.tax_lines[0].basis, "output");
    assert_eq!(doc.tax_lines[2].basis, "withholding");
    assert_eq!(doc.tax_lines[2].tax_amount, d(36, 2));
    assert_eq!(doc.tax_lines[1].taxable_base, d(1779, 2));
    assert_eq!(doc.tax_lines[0].exigibility.as_deref(), Some("on_invoice"));
    assert!(same(doc.output, d(747, 2)));
    assert!(same(doc.withholding, d(36, 2)));
}

#[test]
fn templated_documents_refuse_unrouted_splits() {
    let lines = vec![line(4000, d(1, 0), d(100, 2), Some(1))];
    let (priced, _, _, _, _) = price(&lines, &[]).ok().unwrap();
    let result = EngineResult { net_amounts: vec![d(100, 2)], lines: vec![engine_line(0, None, d(11, 2), false)] };
    match templated_document(&lines, priced, result, "purchase") {
        Some(Err(BillingError::TaxCompute { code, message })) => {
            assert_eq!(code, "tax_line_unrouted");
            assert_eq!(
                message,
                "template 01234567-89ab-cdef-0123-456789abcdef produced a tax split with no routing account (repartition tax lines need an account)"
            );
        }
        _ => panic!("expected tax_line_unrouted"),
    }
}

fn aa(account_id: u128, amount: Dec) -> AccountAmount {
    AccountAmount { account_id, amount }
}

#[test]
fn grouping_sums_per_account_in_account_order() {
    let g = group_by_account(&[aa(9, d(100, 2)), aa(3, d(250, 2)), aa(9, d(50, 2)), aa(5, d(1, 0))]).unwrap();
    let got: Vec<(u128, bool)> = vec![(g[0].account_id, same(g[0].amount, d(250, 2))), (g[1].account_id, same(g[1].amount, d(1, 0))), (g[2].account_id, same(g[2].amount, d(150, 2)))];
    assert_eq!(got, vec![(3, true), (5, true), (9, true)]);
    assert_eq!(g.len(), 3);
    let max = d(79228162514264337593543950335, 0);
    assert!(group_by_account(&[aa(1, max), aa(1, max)]).is_none());
}

fn ar_header(currency: &str, grand: Dec) -> ArHeader {
    ArHeader {
        invoice_number: "SI-001".to_string(),
        company_id: 1,
        branch_id: None,
        customer_id: 77,
        receivable_account_id: 1100,
        posting_date: Date { year: 2024, month: 1, day: 15 },
        currency: currency.to_string(),
        grand_total: grand,
    }
}

const INVOICE: u128 = 0x00112233445566778899aabbccddeeff;

fn ar_post() -> PostEnvelope {
    let revenue = vec![aa(4100, d(5000, 2)), aa(4000, d(3000, 2)), aa(4100, d(2000, 2))];
    let tax_rows = vec![aa(2100, d(1100, 2))];
    build_ar_post(INVOICE, &ar_header("IDR", d(11100, 2)), &revenue, &tax_rows).ok().unwrap()
}

#[test]
fn sales_post_is_balanced_and_ordered() {
    let env = ar_post();
    assert_eq!(env.idempotency_key, "00112233-4455-6677-8899-aabbccddeeff");
    assert_eq!(env.source_type, "order");
    assert_eq!(env.source_id, INVOICE);
    assert_eq!(env.posting_type, "original");
    assert_eq!(env.description.as_deref(), Some("Sales invoice"));
    assert_eq!(env.lines.len(), 4);
    let l0 = &env.lines[0];
    assert_eq!((l0.account_id, l0.debit, l0.party_type.as_deref(), l0.party_id, l0.description.as_deref()), (1100, d(11100, 2), Some("customer"), Some(77), Some("A/R SI-001")));
    assert_eq!((env.lines[1].account_id, env.lines[1].description.as_deref()), (4000, Some("Revenue")));
    assert_eq!(env.lines[2].account_id, 4100);
    assert!(same(env.lines[2].credit, d(7000, 2)));
    assert_eq!((env.lines[3].account_id, env.lines[3].credit, env.lines[3].description.as_deref()), (2100, d(1100, 2), Some("PPN Output")));
    assert_eq!(env.is_balanced(), Some(true));
}

#[test]
fn sales_post_refusals() {
    let e = build_ar_post(INVOICE, &ar_header("USD", d(1, 0)), &[], &[]).err().unwrap();
    match e {
        BillingError::UnsupportedCurrency(c) => assert_eq!(c, "USD"),
        _ => panic!("expected unsupported_currency"),
    }
    let e = build_ar_post(INVOICE, &ar_header("IDR", d(100, 0)), &[aa(4000, d(90, 0))], &[]).err().unwrap();
    assert_eq!(e.code(), "unbalanced_post");
    let max = d(79228162514264337593543950335, 0);
    assert!(try_build_ar_post(INVOICE, &ar_header("IDR", max), &[aa(4000, max), aa(4000, max)], &[]).is_none());
}

#[test]
fn purchase_post_is_balanced() {
    let header = ApHeader {
        invoice_number: "PI-9".to_string(),
        company_id: 1,
        branch_id: Some(2),
        supplier_id: 88,
        payable_account_id: 2000,
        posting_date: Date { year: 2024, month: 2, day: 1 },
        currency: "IDR".to_string(),
        grand_total: d(10900, 2),
    };
    let env = try_build_ap_post(INVOICE, &header, &[aa(5000, d(10000, 2))], &[aa(1400, d(1100, 2))], &[aa(2300, d(200, 2))]).unwrap().ok().unwrap();
    assert_eq!(env.source_type, "expense");
    assert_eq!(env.description.as_deref(), Some("Purchase invoice"));
    let shape: Vec<(u128, Dec, Dec, Option<&str>)> = env.lines.iter().map(|l| (l.account_id, l.debit, l.credit, l.description.as_deref())).collect();
    assert_eq!(
        shape,
        vec![
            (5000, d(10000, 2), d(0, 0), Some("Expense/GR-IR")),
            (1400, d(1100, 2), d(0, 0), Some("PPN Input")),
            (2000, d(0, 0), d(10900, 2), Some("A/P PI-9")),
            (2300, d(0, 0), d(200, 2), Some("PPh Payable")),
        ]
    );
    assert_eq!(env.lines[2].party_type.as_deref(), Some("supplier"));
    assert_eq!(env.is_balanced(), Some(true));
}

#[test]
fn credit_note_flips_a_balanced_post() {
    let fwd = ar_post();
    let note = credit_note(&fwd, INVOICE, Some(31)).unwrap().ok().unwrap();
    assert_eq!(note.idempotency_key, "reversal:00112233-4455-6677-8899-aabbccddeeff");
    assert_eq!(note.posting_type, "reversal");
    assert_eq!(note.reverses_post_id, Some(31));
    assert_eq!(note.description.as_deref(), Some("Credit note: Sales invoice"));
    assert_eq!(note.lines.len(), fwd.lines.len());
    for (n, f) in note.lines.iter().zip(fwd.lines.iter()) {
        assert_eq!((n.account_id, n.debit, n.credit), (f.account_id, f.credit, f.debit));
    }
    assert_eq!(note.lines[0].description.as_deref(), Some("Credit note: A/R SI-001"));
    assert_eq!(note.lines[0].party_type.as_deref(), Some("customer"));
    assert_eq!(note.is_balanced(), Some(true));
}

#[test]
fn posted_short_circuit() {
    let row = PostingStateRow { posting_state: "posted".to_string(), journal_id: Some(5), accounting_post_id: Some(6) };
    assert_eq!(posted_outcome(9, &row), Some(PostOutcome { invoice_id: 9, post_id: 6, journal_id: 5, idempotent_reuse: true }));
    let row = PostingStateRow { posting_state: "posted".to_string(), journal_id: None, accounting_post_id: Some(6) };
    assert_eq!(posted_outcome(9, &row), None);
    let row = PostingStateRow { posting_state: "pending".to_string(), journal_id: Some(5), accounting_post_id: Some(6) };
    assert_eq!(posted_outcome(9, &row), None);
}

#[test]
fn billed_lines_keep_item_and_quantity() {
    assert_eq!(billed_lines(&[(1, d(2, 0)), (3, d(15, 1))]), vec![BilledLine { item_id: 1, quantity: d(2, 0) }, BilledLine { item_id: 3, quantity: d(15, 1) }]);
}

#[test]
fn pricing_waits_on_the_engine_only_for_templated_documents() {
    let plain = vec![line(4000, d(2, 0), d(500, 2), None)];
    match begin_pricing(&plain, &[tax("output", d(110, 2))], false) {
        Some(Ok(PricingStep::Priced(doc))) => {
            assert!(same(doc.net_total, d(1000, 2)));
            assert!(same(doc.output, d(110, 2)));
        }
        _ => panic!("expected a priced document"),
    }
    let templated = vec![line(4000, d(2, 0), d(500, 2), Some(8)), line(4100, d(1, 0), d(100, 2), None)];
    match begin_pricing(&templated, &[tax("output", d(110, 2))], false) {
        Some(Err(BillingError::TaxEngineUnwired)) => {}
        _ => panic!("expected tax_engine_unwired"),
    }
    match begin_pricing(&templated, &[], true) {
        Some(Ok(PricingStep::Engine { priced, request })) => {
            assert_eq!(priced.len(), 2);
            assert_eq!(request, vec![(8, d(2, 0), d(500, 2))]);
        }
        _ => panic!("expected an engine request"),
    }
    match begin_pricing(&[], &[], true) {
        Some(Err(BillingError::EmptyDocument)) => {}
        _ => panic!("expected empty_document"),
    }
}

#[test]
fn a_created_sales_invoice_posts_balanced() {
    let lines = vec![line(4000, d(3, 0), d(1999, 2), None), line(4100, d(1, 0), d(25050, 3), None), line(4000, d(2, 0), d(100, 2), None)];
    let taxes = vec![tax("output", d(660, 2)), tax("output", d(275, 2)), tax("input", d(1, 0))];
    let draft = plan_sales_invoice(&lines, &taxes, None).unwrap().ok().unwrap();
    let revenue: Vec<AccountAmount> = draft.priced.iter().map(|p| aa(p.account_id, p.net_amount)).collect();
    let output: Vec<AccountAmount> = taxes.iter().filter(|t| t.basis == "output").map(|t| aa(t.account_id, t.tax_amount)).collect();
    let env = build_ar_post(INVOICE, &ar_header("IDR", draft.grand_total), &revenue, &output).ok().unwrap();
    assert_eq!(env.is_balanced(), Some(true));
    assert!(same(draft.grand_total, d(9637, 2)));
}

#[test]
fn a_created_purchase_invoice_posts_balanced() {
    let lines = vec![line(5000, d(4, 0), d(1250, 2), None), line(5100, d(1, 0), d(999, 2), None)];
    let taxes = vec![tax("input", d(660, 2)), tax("withholding", d(100, 2)), tax("output", d(3, 0))];
    let draft = plan_purchase_invoice(&lines, &taxes, None).unwrap().ok().unwrap();
    let expense: Vec<AccountAmount> = draft.priced.iter().map(|p| aa(p.account_id, p.net_amount)).collect();
    let input: Vec<AccountAmount> = taxes.iter().filter(|t| t.basis == "input").map(|t| aa(t.account_id, t.tax_amount)).collect();
    let wht: Vec<AccountAmount> = taxes.iter().filter(|t| t.basis == "withholding").map(|t| aa(t.account_id, t.tax_amount)).collect();
    let header = ApHeader {
        invoice_number: "PI-2".to_string(),
        company_id: 1,
        branch_id: None,
        supplier_id: 9,
        payable_account_id: 2000,
        posting_date: Date { year: 2024, month: 3, day: 3 },
        currency: "IDR".to_string(),
        grand_total: draft.grand_total,
    };
    let env = try_build_ap_post(INVOICE, &header, &expense, &input, &wht).unwrap().ok().unwrap();
    assert_eq!(env.is_balanced(), Some(true));
    assert!(same(draft.grand_total, d(6559, 2)));
}
