use billing::calendar::Date;
use billing::dec::Dec;
use billing::domain::bank_account_status::BankAccountStatus;
use billing::domain::bank_account_type::BankAccountType;
use billing::domain::discount_tax_basis::DiscountTaxBasis;
use billing::domain::earning_status::EarningStatus;
use billing::domain::earning_type::EarningType;
use billing::domain::invoice_party_role::InvoicePartyRole;
use billing::domain::invoice_party_type::InvoicePartyType;
use billing::domain::invoice_status::InvoiceStatus;
use billing::domain::invoice_type::InvoiceType;
use billing::domain::invoiceable_type::InvoiceableType;
use billing::domain::payable_type::PayableType;
use billing::domain::payee_type::PayeeType;
use billing::domain::payer_type::PayerType;
use billing::domain::payment_channel::PaymentChannel;
use billing::domain::payment_fee_type::PaymentFeeType;
use billing::domain::payment_gateway::PaymentGateway;
use billing::domain::payment_term_anchor::PaymentTermAnchor;
use billing::domain::payment_term_delay_type::PaymentTermDelayType;
use billing::domain::payment_term_line_value::PaymentTermLineValue;
use billing::domain::payment_term_status::PaymentTermStatus;
use billing::domain::payment_transaction_status::PaymentTransactionStatus;
use billing::domain::refund_method::RefundMethod;
use billing::domain::refund_reason::RefundReason;
use billing::domain::refund_status::RefundStatus;
use billing::domain::tax_basis::TaxBasis;
use billing::domain::verification_method::VerificationMethod;
use billing::entity::AuditMetadata;
use billing::entity::agent_earning::AgentEarning;
use billing::entity::agent_earning::AgentEarningPatch;
use billing::entity::invoice::Invoice;
use billing::entity::invoice::InvoicePatch;
use billing::entity::invoice_line_item::InvoiceLineItem;
use billing::entity::invoice_line_item::InvoiceLineItemPatch;
use billing::entity::invoice_party::InvoiceParty;
use billing::entity::invoice_party::InvoicePartyPatch;
use billing::entity::invoice_tax_line::InvoiceTaxLine;
use billing::entity::invoice_tax_line::InvoiceTaxLinePatch;
use billing::entity::payment::Payment;
use billing::entity::payment::PaymentPatch;
use billing::entity::payment_fee::PaymentFee;
use billing::entity::payment_fee::PaymentFeePatch;
use billing::entity::payment_gateway_detail::PaymentGatewayDetail;
use billing::entity::payment_gateway_detail::PaymentGatewayDetailPatch;
use billing::entity::payment_term::PaymentTerm;
use billing::entity::payment_term::PaymentTermPatch;
use billing::entity::payment_term_line::PaymentTermLine;
use billing::entity::payment_term_line::PaymentTermLinePatch;
use billing::entity::provider_bank_account::ProviderBankAccount;
use billing::entity::provider_bank_account::ProviderBankAccountPatch;
use billing::entity::refund_request::RefundRequest;
use billing::entity::refund_request::RefundRequestPatch;
use billing::settlement::InvoiceKind;

#[test]
fn agent_earning_builder_names_the_first_missing_field() {
    assert_eq!(AgentEarning::builder().build().err(), Some("agent_id is required".to_string()));
    let b = AgentEarning::builder().agent_id(11);
    assert_eq!(b.build().err(), Some("earning_type is required".to_string()));
}

#[test]
fn agent_earning_builder_fills_defaults() {
    let e = AgentEarning::builder()
        .agent_id(11)
        .earning_type(EarningType::default())
        .base_amount(Dec { mantissa: 1250, scale: 2 })
        .total_earning(Dec { mantissa: 1250, scale: 2 })
        .earned_at(1700000000000000)
        .earning_date(Date { year: 2024, month: 3, day: 15 })
        .build()
        .unwrap();
    assert_eq!(e.agent_id, 11);
    assert_eq!(e.task_id, None);
    assert_eq!(e.order_id, None);
    assert_eq!(e.earning_type, EarningType::default());
    assert_eq!(e.description, None);
    assert_eq!(e.currency, "IDR");
    assert_eq!(e.base_amount, Dec { mantissa: 1250, scale: 2 });
    assert_eq!(e.distance_km, None);
    assert_eq!(e.distance_bonus, Dec { mantissa: 0, scale: 0 });
    assert_eq!(e.time_bonus, Dec { mantissa: 0, scale: 0 });
    assert_eq!(e.surge_bonus, Dec { mantissa: 0, scale: 0 });
    assert_eq!(e.incentive_bonus, Dec { mantissa: 0, scale: 0 });
    assert_eq!(e.tip_amount, Dec { mantissa: 0, scale: 0 });
    assert_eq!(e.deduction_amount, Dec { mantissa: 0, scale: 0 });
    assert_eq!(e.deduction_reason, None);
    assert_eq!(e.total_earning, Dec { mantissa: 1250, scale: 2 });
    assert_eq!(e.status, EarningStatus::Pending);
    assert_eq!(e.earned_at, 1700000000000000);
    assert_eq!(e.earning_date, Date { year: 2024, month: 3, day: 15 });
    assert_eq!(e.is_paid, false);
    assert_eq!(e.payout_id, None);
    assert_eq!(e.paid_at, None);
    assert_eq!(e.cod_collected, Dec { mantissa: 0, scale: 0 });
    assert_eq!(e.cod_deposited, false);
    assert_eq!(e.cod_deposited_at, None);
    assert_eq!(e.metadata, AuditMetadata::default());
    assert!(e.is_active() && !e.is_deleted());
    assert_eq!(e.created_at(), None);
    assert_eq!(e.typed_id().into_inner(), e.id);
}

#[test]
fn agent_earning_patch_replaces_only_the_given_fields() {
    let mut e = AgentEarning::new(11, EarningType::default(), "alpha".to_string(), Dec { mantissa: 1250, scale: 2 }, Dec { mantissa: 1250, scale: 2 }, Dec { mantissa: 1250, scale: 2 }, Dec { mantissa: 1250, scale: 2 }, Dec { mantissa: 1250, scale: 2 }, Dec { mantissa: 1250, scale: 2 }, Dec { mantissa: 1250, scale: 2 }, Dec { mantissa: 1250, scale: 2 }, EarningStatus::default(), 1700000000000000, Date { year: 2024, month: 3, day: 15 }, true, Dec { mantissa: 1250, scale: 2 }, true);
    let kept = e.task_id.clone();
    let id = e.id;
    e.apply_patch(AgentEarningPatch { agent_id: Some(22), task_id: None, order_id: None, earning_type: None, description: None, currency: None, base_amount: None, distance_km: None, distance_bonus: None, time_bonus: None, surge_bonus: None, incentive_bonus: None, tip_amount: None, deduction_amount: None, deduction_reason: None, total_earning: None, status: None, earned_at: None, earning_date: None, is_paid: None, payout_id: None, paid_at: None, cod_collected: None, cod_deposited: None, cod_deposited_at: None });
    assert_eq!(e.agent_id, 22);
    assert_eq!(e.task_id, kept);
    assert_eq!(e.id, id);
    let e = e.with_task_id(22);
    assert_eq!(e.task_id, Some(22));
}

#[test]
fn invoice_builder_names_the_first_missing_field() {
    assert_eq!(Invoice::builder().build().err(), Some("invoice_number is required".to_string()));
    let b = Invoice::builder().invoice_number("alpha".to_string());
    assert_eq!(b.build().err(), Some("invoiceable_type is required".to_string()));
}

#[test]
fn invoice_builder_fills_defaults() {
    let e = Invoice::builder()
        .invoice_number("alpha".to_string())
        .invoiceable_type(InvoiceableType::default())
        .invoiceable_id(11)
        .issue_date(Date { year: 2024, month: 3, day: 15 })
        .subtotal(Dec { mantissa: 1250, scale: 2 })
        .total_amount(Dec { mantissa: 1250, scale: 2 })
        .build()
        .unwrap();
    assert_eq!(e.invoice_number, "alpha".to_string());
    assert_eq!(e.invoice_type, InvoiceType::Order);
    assert_eq!(e.invoiceable_type, InvoiceableType::default());
    assert_eq!(e.invoiceable_id, 11);
    assert_eq!(e.order_id, None);
    assert_eq!(e.settlement_id, None);
    assert_eq!(e.issue_date, Date { year: 2024, month: 3, day: 15 });
    assert_eq!(e.due_date, None);
    assert_eq!(e.currency, "IDR");
    assert_eq!(e.subtotal, Dec { mantissa: 1250, scale: 2 });
    assert_eq!(e.discount_amount, Dec { mantissa: 0, scale: 0 });
    assert_eq!(e.tax_amount, Dec { mantissa: 0, scale: 0 });
    assert_eq!(e.tax_rate, None);
    assert_eq!(e.total_amount, Dec { mantissa: 1250, scale: 2 });
    assert_eq!(e.status, InvoiceStatus::Draft);
    assert_eq!(e.sent_via, None);
    assert_eq!(e.paid_at, None);
    assert_eq!(e.payment_id, None);
    assert_eq!(e.pdf_url, None);
    assert_eq!(e.pdf_generated_at, None);
    assert_eq!(e.notes, None);
    assert_eq!(e.terms, None);
    assert_eq!(e.footer, None);
    assert_eq!(e.data, "{\"balance_due\":0,\"paid_amount\":0,\"sent_at\":null,\"viewed_at\":null}");
    assert_eq!(e.metadata, AuditMetadata::default());
    assert!(e.is_active() && !e.is_deleted());
    assert_eq!(e.created_at(), None);
    assert_eq!(e.typed_id().into_inner(), e.id);
}

#[test]
fn invoice_patch_replaces_only_the_given_fields() {
    let mut e = Invoice::new("alpha".to_string(), InvoiceType::default(), InvoiceableType::default(), 11, Date { year: 2024, month: 3, day: 15 }, "alpha".to_string(), Dec { mantissa: 1250, scale: 2 }, Dec { mantissa: 1250, scale: 2 }, Dec { mantissa: 1250, scale: 2 }, Dec { mantissa: 1250, scale: 2 }, InvoiceStatus::default(), "alpha".to_string());
    let kept = e.invoiceable_id.clone();
    let id = e.id;
    e.apply_patch(InvoicePatch { invoice_number: Some("beta".to_string()), invoice_type: None, invoiceable_type: None, invoiceable_id: None, order_id: None, settlement_id: None, issue_date: None, due_date: None, currency: None, subtotal: None, discount_amount: None, tax_amount: None, tax_rate: None, total_amount: None, status: None, sent_via: None, paid_at: None, payment_id: None, pdf_url: None, pdf_generated_at: None, notes: None, terms: None, footer: None, data: None });
    assert_eq!(e.invoice_number, "beta".to_string());
    assert_eq!(e.invoiceable_id, kept);
    assert_eq!(e.id, id);
    let e = e.with_order_id(22);
    assert_eq!(e.order_id, Some(22));
}

#[test]
fn invoice_line_item_builder_names_the_first_missing_field() {
    assert_eq!(InvoiceLineItem::builder().build().err(), Some("invoice_id is required".to_string()));
    let b = InvoiceLineItem::builder().invoice_id(11);
    assert_eq!(b.build().err(), Some("description is required".to_string()));
}

#[test]
fn invoice_line_item_builder_fills_defaults() {
    let e = InvoiceLineItem::builder()
        .invoice_id(11)
        .description("alpha".to_string())
        .quantity(Dec { mantissa: 1250, scale: 2 })
        .unit_price(Dec { mantissa: 1250, scale: 2 })
        .amount(Dec { mantissa: 1250, scale: 2 })
        .build()
        .unwrap();
    assert_eq!(e.invoice_id, 11);
    assert_eq!(e.sort_order, 0);
    assert_eq!(e.description, "alpha".to_string());
    assert_eq!(e.quantity, Dec { mantissa: 1250, scale: 2 });
    assert_eq!(e.unit_price, Dec { mantissa: 1250, scale: 2 });
    assert_eq!(e.amount, Dec { mantissa: 1250, scale: 2 });
    assert_eq!(e.metadata, AuditMetadata::default());
    assert!(e.is_active() && !e.is_deleted());
    assert_eq!(e.created_at(), None);
    assert_eq!(e.typed_id().into_inner(), e.id);
}

#[test]
fn invoice_line_item_patch_replaces_only_the_given_fields() {
    let mut e = InvoiceLineItem::new(11, 5, "alpha".to_string(), Dec { mantissa: 1250, scale: 2 }, Dec { mantissa: 1250, scale: 2 }, Dec { mantissa: 1250, scale: 2 });
    let kept = e.sort_order.clone();
    let id = e.id;
    e.apply_patch(InvoiceLineItemPatch { invoice_id: Some(22), sort_order: None, description: None, quantity: None, unit_price: None, amount: None });
    assert_eq!(e.invoice_id, 22);
    assert_eq!(e.sort_order, kept);
    assert_eq!(e.id, id);
}

#[test]
fn invoice_party_builder_names_the_first_missing_field() {
    assert_eq!(InvoiceParty::builder().build().err(), Some("invoice_id is required".to_string()));
    let b = InvoiceParty::builder().invoice_id(11);
    assert_eq!(b.build().err(), Some("role is required".to_string()));
}

#[test]
fn invoice_party_builder_fills_defaults() {
    let e = InvoiceParty::builder()
        .invoice_id(11)
        .role(InvoicePartyRole::default())
        .party_type(InvoicePartyType::default())
        .name("alpha".to_string())
        .build()
        .unwrap();
    assert_eq!(e.invoice_id, 11);
    assert_eq!(e.role, InvoicePartyRole::default());
    assert_eq!(e.party_type, InvoicePartyType::default());
    assert_eq!(e.party_id, None);
    assert_eq!(e.name, "alpha".to_string());
    assert_eq!(e.email, None);
    assert_eq!(e.address, None);
    assert_eq!(e.tax_id, None);
    assert_eq!(e.metadata, AuditMetadata::default());
    assert!(e.is_active() && !e.is_deleted());
    assert_eq!(e.created_at(), None);
    assert_eq!(e.typed_id().into_inner(), e.id);
}

#[test]
fn invoice_party_patch_replaces_only_the_given_fields() {
    let mut e = InvoiceParty::new(11, InvoicePartyRole::default(), InvoicePartyType::default(), "alpha".to_string());
    let kept = e.party_id.clone();
    let id = e.id;
    e.apply_patch(InvoicePartyPatch { invoice_id: Some(22), role: None, party_type: None, party_id: None, name: None, email: None, address: None, tax_id: None });
    assert_eq!(e.invoice_id, 22);
    assert_eq!(e.party_id, kept);
    assert_eq!(e.id, id);
    let e = e.with_party_id(22);
    assert_eq!(e.party_id, Some(22));
}

#[test]
fn invoice_tax_line_builder_names_the_first_missing_field() {
    assert_eq!(InvoiceTaxLine::builder().build().err(), Some("invoice_ref is required".to_string()));
    let b = InvoiceTaxLine::builder().invoice_ref(11);
    assert_eq!(b.build().err(), Some("invoice_kind is required".to_string()));
}

#[test]
fn invoice_tax_line_builder_fills_defaults() {
    let e = InvoiceTaxLine::builder()
        .invoice_ref(11)
        .invoice_kind(InvoiceKind::Sales)
        .company_id(11)
        .account_id(11)
        .basis(TaxBasis::default())
        .tax_amount(Dec { mantissa: 1250, scale: 2 })
        .build()
        .unwrap();
    assert_eq!(e.invoice_ref, 11);
    assert_eq!(e.invoice_kind, InvoiceKind::Sales);
    assert_eq!(e.company_id, 11);
    assert_eq!(e.account_id, 11);
    assert_eq!(e.basis, TaxBasis::default());
    assert_eq!(e.description, None);
    assert_eq!(e.taxable_base, Dec { mantissa: 0, scale: 0 });
    assert_eq!(e.rate, Dec { mantissa: 0, scale: 0 });
    assert_eq!(e.tax_amount, Dec { mantissa: 1250, scale: 2 });
    assert_eq!(e.metadata, AuditMetadata::default());
    assert!(e.is_active() && !e.is_deleted());
    assert_eq!(e.created_at(), None);
    assert_eq!(e.typed_id().into_inner(), e.id);
}

#[test]
fn invoice_tax_line_patch_replaces_only_the_given_fields() {
    let mut e = InvoiceTaxLine::new(11, InvoiceKind::Sales, 11, 11, TaxBasis::default(), Dec { mantissa: 1250, scale: 2 }, Dec { mantissa: 1250, scale: 2 }, Dec { mantissa: 1250, scale: 2 });
    let kept = e.company_id.clone();
    let id = e.id;
    e.apply_patch(InvoiceTaxLinePatch { invoice_ref: Some(22), invoice_kind: None, company_id: None, account_id: None, basis: None, description: None, taxable_base: None, rate: None, tax_amount: None });
    assert_eq!(e.invoice_ref, 22);
    assert_eq!(e.company_id, kept);
    assert_eq!(e.id, id);
    let e = e.with_description("beta".to_string());
    assert_eq!(e.description, Some("beta".to_string()));
}

#[test]
fn payment_builder_names_the_first_missing_field() {
    assert_eq!(Payment::builder().build().err(), Some("payment_number is required".to_string()));
    let b = Payment::builder().payment_number("alpha".to_string());
    assert_eq!(b.build().err(), Some("payable_type is required".to_string()));
}

#[test]
fn payment_builder_fills_defaults() {
    let e = Payment::builder()
        .payment_number("alpha".to_string())
        .payable_type(PayableType::default())
        .payable_id(11)
        .payer_type(PayerType::default())
        .payer_id(11)
        .payee_type(PayeeType::default())
        .amount(Dec { mantissa: 1250, scale: 2 })
        .net_amount(Dec { mantissa: 1250, scale: 2 })
        .channel(PaymentChannel::default())
        .build()
        .unwrap();
    assert_eq!(e.payment_number, "alpha".to_string());
    assert_eq!(e.payable_type, PayableType::default());
    assert_eq!(e.payable_id, 11);
    assert_eq!(e.order_id, None);
    assert_eq!(e.payer_type, PayerType::default());
    assert_eq!(e.payer_id, 11);
    assert_eq!(e.payee_type, PayeeType::default());
    assert_eq!(e.payee_id, None);
    assert_eq!(e.currency, "IDR");
    assert_eq!(e.amount, Dec { mantissa: 1250, scale: 2 });
    assert_eq!(e.net_amount, Dec { mantissa: 1250, scale: 2 });
    assert_eq!(e.gateway, PaymentGateway::Xendit);
    assert_eq!(e.channel, PaymentChannel::default());
    assert_eq!(e.status, PaymentTransactionStatus::Pending);
    assert_eq!(e.expires_at, None);
    assert_eq!(e.paid_at, None);
    assert_eq!(e.failed_at, None);
    assert_eq!(e.cancelled_at, None);
    assert_eq!(e.failure_code, None);
    assert_eq!(e.failure_message, None);
    assert_eq!(e.settlement_id, None);
    assert_eq!(e.description, None);
    assert_eq!(e.notes, None);
    assert_eq!(e.data, "{\"is_refunded\":false,\"is_settled\":false,\"payer_email\":null,\"payer_name\":null,\"payer_phone\":null,\"refunded_amount\":0,\"settled_at\":null}");
    assert_eq!(e.metadata, AuditMetadata::default());
    assert!(e.is_active() && !e.is_deleted());
    assert_eq!(e.created_at(), None);
    assert_eq!(e.typed_id().into_inner(), e.id);
}

#[test]
fn payment_patch_replaces_only_the_given_fields() {
    let mut e = Payment::new("alpha".to_string(), PayableType::default(), 11, PayerType::default(), 11, PayeeType::default(), "alpha".to_string(), Dec { mantissa: 1250, scale: 2 }, Dec { mantissa: 1250, scale: 2 }, PaymentGateway::default(), PaymentChannel::default(), PaymentTransactionStatus::default(), "alpha".to_string());
    let kept = e.payable_id.clone();
    let id = e.id;
    e.apply_patch(PaymentPatch { payment_number: Some("beta".to_string()), payable_type: None, payable_id: None, order_id: None, payer_type: None, payer_id: None, payee_type: None, payee_id: None, currency: None, amount: None, net_amount: None, gateway: None, channel: None, status: None, expires_at: None, paid_at: None, failed_at: None, cancelled_at: None, failure_code: None, failure_message: None, settlement_id: None, description: None, notes: None, data: None });
    assert_eq!(e.payment_number, "beta".to_string());
    assert_eq!(e.payable_id, kept);
    assert_eq!(e.id, id);
    let e = e.with_order_id(22);
    assert_eq!(e.order_id, Some(22));
}

#[test]
fn payment_fee_builder_names_the_first_missing_field() {
    assert_eq!(PaymentFee::builder().build().err(), Some("payment_id is required".to_string()));
    let b = PaymentFee::builder().payment_id(11);
    assert_eq!(b.build().err(), Some("fee_type is required".to_string()));
}

#[test]
fn payment_fee_builder_fills_defaults() {
    let e = PaymentFee::builder()
        .payment_id(11)
        .fee_type(PaymentFeeType::default())
        .amount(Dec { mantissa: 1250, scale: 2 })
        .build()
        .unwrap();
    assert_eq!(e.payment_id, 11);
    assert_eq!(e.fee_type, PaymentFeeType::default());
    assert_eq!(e.amount, Dec { mantissa: 1250, scale: 2 });
    assert_eq!(e.description, None);
    assert_eq!(e.metadata, AuditMetadata::default());
    assert!(e.is_active() && !e.is_deleted());
    assert_eq!(e.created_at(), None);
    assert_eq!(e.typed_id().into_inner(), e.id);
}

#[test]
fn payment_fee_patch_replaces_only_the_given_fields() {
    let mut e = PaymentFee::new(11, PaymentFeeType::default(), Dec { mantissa: 1250, scale: 2 });
    let kept = e.amount.clone();
    let id = e.id;
    e.apply_patch(PaymentFeePatch { payment_id: Some(22), fee_type: None, amount: None, description: None });
    assert_eq!(e.payment_id, 22);
    assert_eq!(e.amount, kept);
    assert_eq!(e.id, id);
    let e = e.with_description("beta".to_string());
    assert_eq!(e.description, Some("beta".to_string()));
}

#[test]
fn payment_gateway_detail_builder_names_the_first_missing_field() {
    assert_eq!(PaymentGatewayDetail::builder().build().err(), Some("payment_id is required".to_string()));
}

#[test]
fn payment_gateway_detail_builder_fills_defaults() {
    let e = PaymentGatewayDetail::builder()
        .payment_id(11)
        .build()
        .unwrap();
    assert_eq!(e.payment_id, 11);
    assert_eq!(e.external_id, None);
    assert_eq!(e.invoice_url, None);
    assert_eq!(e.checkout_url, None);
    assert_eq!(e.qr_code_url, None);
    assert_eq!(e.virtual_account_number, None);
    assert_eq!(e.virtual_account_bank, None);
    assert_eq!(e.webhook_payload, None);
    assert_eq!(e.webhook_received_at, None);
    assert_eq!(e.metadata, AuditMetadata::default());
    assert!(e.is_active() && !e.is_deleted());
    assert_eq!(e.created_at(), None);
    assert_eq!(e.typed_id().into_inner(), e.id);
}

#[test]
fn payment_gateway_detail_patch_replaces_only_the_given_fields() {
    let mut e = PaymentGatewayDetail::new(11);
    let kept = e.external_id.clone();
    let id = e.id;
    e.apply_patch(PaymentGatewayDetailPatch { payment_id: Some(22), external_id: None, invoice_url: None, checkout_url: None, qr_code_url: None, virtual_account_number: None, virtual_account_bank: None, webhook_payload: None, webhook_received_at: None });
    assert_eq!(e.payment_id, 22);
    assert_eq!(e.external_id, kept);
    assert_eq!(e.id, id);
    let e = e.with_external_id("beta".to_string());
    assert_eq!(e.external_id, Some("beta".to_string()));
}

#[test]
fn payment_term_builder_names_the_first_missing_field() {
    assert_eq!(PaymentTerm::builder().build().err(), Some("name is required".to_string()));
}

#[test]
fn payment_term_builder_fills_defaults() {
    let e = PaymentTerm::builder()
        .name("alpha".to_string())
        .build()
        .unwrap();
    assert_eq!(e.company_id, None);
    assert_eq!(e.name, "alpha".to_string());
    assert_eq!(e.note, None);
    assert_eq!(e.sequence, 10);
    assert_eq!(e.status, PaymentTermStatus::Active);
    assert_eq!(e.early_discount, false);
    assert_eq!(e.discount_percent, Dec { mantissa: 0, scale: 0 });
    assert_eq!(e.discount_days, 0);
    assert_eq!(e.discount_account_id, None);
    assert_eq!(e.discount_tax_basis, DiscountTaxBasis::Included);
    assert_eq!(e.metadata, AuditMetadata::default());
    assert!(e.is_active() && !e.is_deleted());
    assert_eq!(e.created_at(), None);
    assert_eq!(e.typed_id().into_inner(), e.id);
}

#[test]
fn payment_term_patch_replaces_only_the_given_fields() {
    let mut e = PaymentTerm::new("alpha".to_string(), 5, PaymentTermStatus::default(), true, Dec { mantissa: 1250, scale: 2 }, 5, DiscountTaxBasis::default());
    let kept = e.name.clone();
    let id = e.id;
    e.apply_patch(PaymentTermPatch { company_id: Some(Some(22)), name: None, note: None, sequence: None, status: None, early_discount: None, discount_percent: None, discount_days: None, discount_account_id: None, discount_tax_basis: None });
    assert_eq!(e.company_id, Some(22));
    assert_eq!(e.name, kept);
    assert_eq!(e.id, id);
    let e = e.with_company_id(22);
    assert_eq!(e.company_id, Some(22));
}

#[test]
fn payment_term_line_builder_names_the_first_missing_field() {
    assert_eq!(PaymentTermLine::builder().build().err(), Some("term_id is required".to_string()));
    let b = PaymentTermLine::builder().term_id(11);
    assert_eq!(b.build().err(), Some("nb_days is required".to_string()));
}

#[test]
fn payment_term_line_builder_fills_defaults() {
    let e = PaymentTermLine::builder()
        .term_id(11)
        .nb_days(5)
        .build()
        .unwrap();
    assert_eq!(e.term_id, 11);
    assert_eq!(e.company_id, None);
    assert_eq!(e.value, PaymentTermLineValue::Balance);
    assert_eq!(e.value_amount, Dec { mantissa: 0, scale: 0 });
    assert_eq!(e.nb_days, 5);
    assert_eq!(e.day_of_month, None);
    assert_eq!(e.delay_type, PaymentTermDelayType::Days);
    assert_eq!(e.anchor, PaymentTermAnchor::InvoiceDate);
    assert_eq!(e.sequence, 10);
    assert_eq!(e.metadata, AuditMetadata::default());
    assert!(e.is_active() && !e.is_deleted());
    assert_eq!(e.created_at(), None);
    assert_eq!(e.typed_id().into_inner(), e.id);
}

#[test]
fn payment_term_line_patch_replaces_only_the_given_fields() {
    let mut e = PaymentTermLine::new(11, PaymentTermLineValue::default(), Dec { mantissa: 1250, scale: 2 }, 5, PaymentTermDelayType::default(), PaymentTermAnchor::default(), 5);
    let kept = e.company_id.clone();
    let id = e.id;
    e.apply_patch(PaymentTermLinePatch { term_id: Some(22), company_id: None, value: None, value_amount: None, nb_days: None, day_of_month: None, delay_type: None, anchor: None, sequence: None });
    assert_eq!(e.term_id, 22);
    assert_eq!(e.company_id, kept);
    assert_eq!(e.id, id);
    let e = e.with_company_id(22);
    assert_eq!(e.company_id, Some(22));
}

#[test]
fn provider_bank_account_builder_names_the_first_missing_field() {
    assert_eq!(ProviderBankAccount::builder().build().err(), Some("provider_id is required".to_string()));
    let b = ProviderBankAccount::builder().provider_id(11);
    assert_eq!(b.build().err(), Some("bank_code is required".to_string()));
}

#[test]
fn provider_bank_account_builder_fills_defaults() {
    let e = ProviderBankAccount::builder()
        .provider_id(11)
        .bank_code("alpha".to_string())
        .bank_name("alpha".to_string())
        .account_number("alpha".to_string())
        .account_name("alpha".to_string())
        .build()
        .unwrap();
    assert_eq!(e.provider_id, 11);
    assert_eq!(e.bank_code, "alpha".to_string());
    assert_eq!(e.bank_name, "alpha".to_string());
    assert_eq!(e.account_number, "alpha".to_string());
    assert_eq!(e.account_name, "alpha".to_string());
    assert_eq!(e.account_type, BankAccountType::Checking);
    assert_eq!(e.branch_name, None);
    assert_eq!(e.branch_code, None);
    assert_eq!(e.swift_code, None);
    assert_eq!(e.status, BankAccountStatus::Pending);
    assert_eq!(e.is_verified, false);
    assert_eq!(e.verified_at, None);
    assert_eq!(e.verified_by, None);
    assert_eq!(e.verification_method, None);
    assert_eq!(e.verification_notes, None);
    assert_eq!(e.rejection_reason, None);
    assert_eq!(e.rejected_at, None);
    assert_eq!(e.rejected_by, None);
    assert_eq!(e.is_primary, false);
    assert_eq!(e.is_active, true);
    assert_eq!(e.gateway_account_id, None);
    assert_eq!(e.gateway_status, None);
    assert_eq!(e.gateway_metadata, "{}");
    assert_eq!(e.document_url, None);
    assert_eq!(e.document_type, None);
    assert_eq!(e.total_settlements, 0);
    assert_eq!(e.total_amount_received, Dec { mantissa: 0, scale: 0 });
    assert_eq!(e.last_settlement_at, None);
    assert_eq!(e.last_settlement_amount, None);
    assert_eq!(e.notes, None);
    assert_eq!(e.metadata, AuditMetadata::default());
    assert!(e.is_active() && !e.is_deleted());
    assert_eq!(e.created_at(), None);
    assert_eq!(e.typed_id().into_inner(), e.id);
}

#[test]
fn provider_bank_account_patch_replaces_only_the_given_fields() {
    let mut e = ProviderBankAccount::new(11, "alpha".to_string(), "alpha".to_string(), "alpha".to_string(), "alpha".to_string(), BankAccountType::default(), BankAccountStatus::default(), true, true, true, "alpha".to_string(), 5, Dec { mantissa: 1250, scale: 2 });
    let kept = e.bank_code.clone();
    let id = e.id;
    e.apply_patch(ProviderBankAccountPatch { provider_id: Some(22), bank_code: None, bank_name: None, account_number: None, account_name: None, account_type: None, branch_name: None, branch_code: None, swift_code: None, status: None, is_verified: None, verified_at: None, verified_by: None, verification_method: None, verification_notes: None, rejection_reason: None, rejected_at: None, rejected_by: None, is_primary: None, is_active: None, gateway_account_id: None, gateway_status: None, gateway_metadata: None, document_url: None, document_type: None, total_settlements: None, total_amount_received: None, last_settlement_at: None, last_settlement_amount: None, notes: None });
    assert_eq!(e.provider_id, 22);
    assert_eq!(e.bank_code, kept);
    assert_eq!(e.id, id);
    let e = e.with_branch_name("beta".to_string());
    assert_eq!(e.branch_name, Some("beta".to_string()));
}

#[test]
fn refund_request_builder_names_the_first_missing_field() {
    assert_eq!(RefundRequest::builder().build().err(), Some("refund_number is required".to_string()));
    let b = RefundRequest::builder().refund_number("alpha".to_string());
    assert_eq!(b.build().err(), Some("payment_id is required".to_string()));
}

#[test]
fn refund_request_builder_fills_defaults() {
    let e = RefundRequest::builder()
        .refund_number("alpha".to_string())
        .payment_id(11)
        .requester_type("alpha".to_string())
        .requester_id(11)
        .original_amount(Dec { mantissa: 1250, scale: 2 })
        .requested_amount(Dec { mantissa: 1250, scale: 2 })
        .build()
        .unwrap();
    assert_eq!(e.refund_number, "alpha".to_string());
    assert_eq!(e.payment_id, 11);
    assert_eq!(e.order_id, None);
    assert_eq!(e.requester_type, "alpha".to_string());
    assert_eq!(e.requester_id, 11);
    assert_eq!(e.requester_name, None);
    assert_eq!(e.currency, "IDR");
    assert_eq!(e.original_amount, Dec { mantissa: 1250, scale: 2 });
    assert_eq!(e.requested_amount, Dec { mantissa: 1250, scale: 2 });
    assert_eq!(e.approved_amount, None);
    assert_eq!(e.refunded_amount, Dec { mantissa: 0, scale: 0 });
    assert_eq!(e.reason, RefundReason::CustomerRequest);
    assert_eq!(e.reason_detail, None);
    assert_eq!(e.evidence_urls, "[]");
    assert_eq!(e.status, RefundStatus::Pending);
    assert_eq!(e.reviewed_by, None);
    assert_eq!(e.reviewed_at, None);
    assert_eq!(e.review_notes, None);
    assert_eq!(e.approved_by, None);
    assert_eq!(e.approved_at, None);
    assert_eq!(e.approval_notes, None);
    assert_eq!(e.rejected_by, None);
    assert_eq!(e.rejected_at, None);
    assert_eq!(e.rejection_reason, None);
    assert_eq!(e.processing_started_at, None);
    assert_eq!(e.completed_at, None);
    assert_eq!(e.failed_at, None);
    assert_eq!(e.failure_reason, None);
    assert_eq!(e.gateway_refund_id, None);
    assert_eq!(e.gateway_status, None);
    assert_eq!(e.refund_method, None);
    assert_eq!(e.bank_name, None);
    assert_eq!(e.account_number, None);
    assert_eq!(e.account_name, None);
    assert_eq!(e.customer_notified, false);
    assert_eq!(e.customer_notified_at, None);
    assert_eq!(e.notes, None);
    assert_eq!(e.metadata, AuditMetadata::default());
    assert!(e.is_active() && !e.is_deleted());
    assert_eq!(e.created_at(), None);
    assert_eq!(e.typed_id().into_inner(), e.id);
}

#[test]
fn refund_request_patch_replaces_only_the_given_fields() {
    let mut e = RefundRequest::new("alpha".to_string(), 11, "alpha".to_string(), 11, "alpha".to_string(), Dec { mantissa: 1250, scale: 2 }, Dec { mantissa: 1250, scale: 2 }, Dec { mantissa: 1250, scale: 2 }, RefundReason::default(), "alpha".to_string(), RefundStatus::default(), true);
    let kept = e.payment_id.clone();
    let id = e.id;
    e.apply_patch(RefundRequestPatch { refund_number: Some("beta".to_string()), payment_id: None, order_id: None, requester_type: None, requester_id: None, requester_name: None, currency: None, original_amount: None, requested_amount: None, approved_amount: None, refunded_amount: None, reason: None, reason_detail: None, evidence_urls: None, status: None, reviewed_by: None, reviewed_at: None, review_notes: None, approved_by: None, approved_at: None, approval_notes: None, rejected_by: None, rejected_at: None, rejection_reason: None, processing_started_at: None, completed_at: None, failed_at: None, failure_reason: None, gateway_refund_id: None, gateway_status: None, refund_method: None, bank_name: None, account_number: None, account_name: None, customer_notified: None, customer_notified_at: None, notes: None });
    assert_eq!(e.refund_number, "beta".to_string());
    assert_eq!(e.payment_id, kept);
    assert_eq!(e.id, id);
    let e = e.with_order_id(22);
    assert_eq!(e.order_id, Some(22));
}
