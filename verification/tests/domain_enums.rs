use billing::domain::bank_account_status::BankAccountStatus;
use billing::domain::bank_account_type::BankAccountType;
use billing::domain::discount_tax_basis::DiscountTaxBasis;
use billing::domain::earning_status::EarningStatus;
use billing::domain::earning_type::EarningType;
use billing::domain::financial_period_status::FinancialPeriodStatus;
use billing::domain::invoice_party_role::InvoicePartyRole;
use billing::domain::invoice_party_type::InvoicePartyType;
use billing::domain::invoice_status::InvoiceStatus;
use billing::domain::invoice_type::InvoiceType;
use billing::domain::invoiceable_type::InvoiceableType;
use billing::domain::payable_type::PayableType;
use billing::domain::payee_type::PayeeType;
use billing::domain::payer_type::PayerType;
use billing::domain::payment_channel::PaymentChannel;
use billing::domain::payment_fee_type::PaymentFeeType;
use billing::domain::payment_gateway::PaymentGateway;
use billing::domain::payment_schedule_status::PaymentScheduleStatus;
use billing::domain::payment_term_anchor::PaymentTermAnchor;
use billing::domain::payment_term_delay_type::PaymentTermDelayType;
use billing::domain::payment_term_line_value::PaymentTermLineValue;
use billing::domain::payment_transaction_status::PaymentTransactionStatus;
use billing::domain::refund_method::RefundMethod;
use billing::domain::refund_reason::RefundReason;
use billing::domain::refund_status::RefundStatus;
use billing::domain::settlement_frequency::SettlementFrequency;
use billing::domain::tax_basis::TaxBasis;
use billing::domain::verification_method::VerificationMethod;
use std::str::FromStr;

#[test]
fn bank_account_status_wire_names_round_trip() {
    assert_eq!(BankAccountStatus::Pending.as_str(), "pending");
    assert_eq!(BankAccountStatus::Pending.to_string(), "pending");
    assert_eq!(BankAccountStatus::parse("pending"), Ok(BankAccountStatus::Pending));
    assert_eq!(BankAccountStatus::parse("PENDING"), Ok(BankAccountStatus::Pending));
    assert_eq!(BankAccountStatus::from_str("pending"), Ok(BankAccountStatus::Pending));
    assert_eq!(BankAccountStatus::Verified.as_str(), "verified");
    assert_eq!(BankAccountStatus::Verified.to_string(), "verified");
    assert_eq!(BankAccountStatus::parse("verified"), Ok(BankAccountStatus::Verified));
    assert_eq!(BankAccountStatus::parse("VERIFIED"), Ok(BankAccountStatus::Verified));
    assert_eq!(BankAccountStatus::from_str("verified"), Ok(BankAccountStatus::Verified));
    assert_eq!(BankAccountStatus::Rejected.as_str(), "rejected");
    assert_eq!(BankAccountStatus::Rejected.to_string(), "rejected");
    assert_eq!(BankAccountStatus::parse("rejected"), Ok(BankAccountStatus::Rejected));
    assert_eq!(BankAccountStatus::parse("REJECTED"), Ok(BankAccountStatus::Rejected));
    assert_eq!(BankAccountStatus::from_str("rejected"), Ok(BankAccountStatus::Rejected));
    assert_eq!(BankAccountStatus::Suspended.as_str(), "suspended");
    assert_eq!(BankAccountStatus::Suspended.to_string(), "suspended");
    assert_eq!(BankAccountStatus::parse("suspended"), Ok(BankAccountStatus::Suspended));
    assert_eq!(BankAccountStatus::parse("SUSPENDED"), Ok(BankAccountStatus::Suspended));
    assert_eq!(BankAccountStatus::from_str("suspended"), Ok(BankAccountStatus::Suspended));
    assert_eq!(BankAccountStatus::Inactive.as_str(), "inactive");
    assert_eq!(BankAccountStatus::Inactive.to_string(), "inactive");
    assert_eq!(BankAccountStatus::parse("inactive"), Ok(BankAccountStatus::Inactive));
    assert_eq!(BankAccountStatus::parse("INACTIVE"), Ok(BankAccountStatus::Inactive));
    assert_eq!(BankAccountStatus::from_str("inactive"), Ok(BankAccountStatus::Inactive));
}

#[test]
fn bank_account_status_default_and_unknown() {
    assert_eq!(BankAccountStatus::default(), BankAccountStatus::Pending);
    assert_eq!(BankAccountStatus::parse("no_such_value"), Err("Unknown BankAccountStatus variant: no_such_value".to_string()));
}

#[test]
fn bank_account_type_wire_names_round_trip() {
    assert_eq!(BankAccountType::Checking.as_str(), "checking");
    assert_eq!(BankAccountType::Checking.to_string(), "checking");
    assert_eq!(BankAccountType::parse("checking"), Ok(BankAccountType::Checking));
    assert_eq!(BankAccountType::parse("CHECKING"), Ok(BankAccountType::Checking));
    assert_eq!(BankAccountType::from_str("checking"), Ok(BankAccountType::Checking));
    assert_eq!(BankAccountType::Savings.as_str(), "savings");
    assert_eq!(BankAccountType::Savings.to_string(), "savings");
    assert_eq!(BankAccountType::parse("savings"), Ok(BankAccountType::Savings));
    assert_eq!(BankAccountType::parse("SAVINGS"), Ok(BankAccountType::Savings));
    assert_eq!(BankAccountType::from_str("savings"), Ok(BankAccountType::Savings));
    assert_eq!(BankAccountType::Business.as_str(), "business");
    assert_eq!(BankAccountType::Business.to_string(), "business");
    assert_eq!(BankAccountType::parse("business"), Ok(BankAccountType::Business));
    assert_eq!(BankAccountType::parse("BUSINESS"), Ok(BankAccountType::Business));
    assert_eq!(BankAccountType::from_str("business"), Ok(BankAccountType::Business));
}

#[test]
fn bank_account_type_default_and_unknown() {
    assert_eq!(BankAccountType::default(), BankAccountType::Checking);
    assert_eq!(BankAccountType::parse("no_such_value"), Err("Unknown BankAccountType variant: no_such_value".to_string()));
}

#[test]
fn discount_tax_basis_wire_names_round_trip() {
    assert_eq!(DiscountTaxBasis::Included.as_str(), "included");
    assert_eq!(DiscountTaxBasis::Included.to_string(), "included");
    assert_eq!(DiscountTaxBasis::parse("included"), Ok(DiscountTaxBasis::Included));
    assert_eq!(DiscountTaxBasis::parse("INCLUDED"), Ok(DiscountTaxBasis::Included));
    assert_eq!(DiscountTaxBasis::from_str("included"), Ok(DiscountTaxBasis::Included));
    assert_eq!(DiscountTaxBasis::ReducedPrice.as_str(), "reduced_price");
    assert_eq!(DiscountTaxBasis::ReducedPrice.to_string(), "reduced_price");
    assert_eq!(DiscountTaxBasis::parse("reduced_price"), Ok(DiscountTaxBasis::ReducedPrice));
    assert_eq!(DiscountTaxBasis::parse("REDUCED_PRICE"), Ok(DiscountTaxBasis::ReducedPrice));
    assert_eq!(DiscountTaxBasis::from_str("reduced_price"), Ok(DiscountTaxBasis::ReducedPrice));
}

#[test]
fn discount_tax_basis_default_and_unknown() {
    assert_eq!(DiscountTaxBasis::default(), DiscountTaxBasis::Included);
    assert_eq!(DiscountTaxBasis::parse("no_such_value"), Err("Unknown DiscountTaxBasis variant: no_such_value".to_string()));
}

#[test]
fn earning_status_wire_names_round_trip() {
    assert_eq!(EarningStatus::Pending.as_str(), "pending");
    assert_eq!(EarningStatus::Pending.to_string(), "pending");
    assert_eq!(EarningStatus::parse("pending"), Ok(EarningStatus::Pending));
    assert_eq!(EarningStatus::parse("PENDING"), Ok(EarningStatus::Pending));
    assert_eq!(EarningStatus::from_str("pending"), Ok(EarningStatus::Pending));
    assert_eq!(EarningStatus::Confirmed.as_str(), "confirmed");
    assert_eq!(EarningStatus::Confirmed.to_string(), "confirmed");
    assert_eq!(EarningStatus::parse("confirmed"), Ok(EarningStatus::Confirmed));
    assert_eq!(EarningStatus::parse("CONFIRMED"), Ok(EarningStatus::Confirmed));
    assert_eq!(EarningStatus::from_str("confirmed"), Ok(EarningStatus::Confirmed));
    assert_eq!(EarningStatus::Paid.as_str(), "paid");
    assert_eq!(EarningStatus::Paid.to_string(), "paid");
    assert_eq!(EarningStatus::parse("paid"), Ok(EarningStatus::Paid));
    assert_eq!(EarningStatus::parse("PAID"), Ok(EarningStatus::Paid));
    assert_eq!(EarningStatus::from_str("paid"), Ok(EarningStatus::Paid));
    assert_eq!(EarningStatus::Cancelled.as_str(), "cancelled");
    assert_eq!(EarningStatus::Cancelled.to_string(), "cancelled");
    assert_eq!(EarningStatus::parse("cancelled"), Ok(EarningStatus::Cancelled));
    assert_eq!(EarningStatus::parse("CANCELLED"), Ok(EarningStatus::Cancelled));
    assert_eq!(EarningStatus::from_str("cancelled"), Ok(EarningStatus::Cancelled));
    assert_eq!(EarningStatus::Disputed.as_str(), "disputed");
    assert_eq!(EarningStatus::Disputed.to_string(), "disputed");
    assert_eq!(EarningStatus::parse("disputed"), Ok(EarningStatus::Disputed));
    assert_eq!(EarningStatus::parse("DISPUTED"), Ok(EarningStatus::Disputed));
    assert_eq!(EarningStatus::from_str("disputed"), Ok(EarningStatus::Disputed));
}

#[test]
fn earning_status_default_and_unknown() {
    assert_eq!(EarningStatus::default(), EarningStatus::Pending);
    assert_eq!(EarningStatus::parse("no_such_value"), Err("Unknown EarningStatus variant: no_such_value".to_string()));
}

#[test]
fn earning_type_wire_names_round_trip() {
    assert_eq!(EarningType::Pickup.as_str(), "pickup");
    assert_eq!(EarningType::Pickup.to_string(), "pickup");
    assert_eq!(EarningType::parse("pickup"), Ok(EarningType::Pickup));
    assert_eq!(EarningType::parse("PICKUP"), Ok(EarningType::Pickup));
    assert_eq!(EarningType::from_str("pickup"), Ok(EarningType::Pickup));
    assert_eq!(EarningType::Delivery.as_str(), "delivery");
    assert_eq!(EarningType::Delivery.to_string(), "delivery");
    assert_eq!(EarningType::parse("delivery"), Ok(EarningType::Delivery));
    assert_eq!(EarningType::parse("DELIVERY"), Ok(EarningType::Delivery));
    assert_eq!(EarningType::from_str("delivery"), Ok(EarningType::Delivery));
    assert_eq!(EarningType::PickupDelivery.as_str(), "pickup_delivery");
    assert_eq!(EarningType::PickupDelivery.to_string(), "pickup_delivery");
    assert_eq!(EarningType::parse("pickup_delivery"), Ok(EarningType::PickupDelivery));
    assert_eq!(EarningType::parse("PICKUP_DELIVERY"), Ok(EarningType::PickupDelivery));
    assert_eq!(EarningType::from_str("pickup_delivery"), Ok(EarningType::PickupDelivery));
    assert_eq!(EarningType::Bonus.as_str(), "bonus");
    assert_eq!(EarningType::Bonus.to_string(), "bonus");
    assert_eq!(EarningType::parse("bonus"), Ok(EarningType::Bonus));
    assert_eq!(EarningType::parse("BONUS"), Ok(EarningType::Bonus));
    assert_eq!(EarningType::from_str("bonus"), Ok(EarningType::Bonus));
    assert_eq!(EarningType::Tip.as_str(), "tip");
    assert_eq!(EarningType::Tip.to_string(), "tip");
    assert_eq!(EarningType::parse("tip"), Ok(EarningType::Tip));
    assert_eq!(EarningType::parse("TIP"), Ok(EarningType::Tip));
    assert_eq!(EarningType::from_str("tip"), Ok(EarningType::Tip));
    assert_eq!(EarningType::Incentive.as_str(), "incentive");
    assert_eq!(EarningType::Incentive.to_string(), "incentive");
    assert_eq!(EarningType::parse("incentive"), Ok(EarningType::Incentive));
    assert_eq!(EarningType::parse("INCENTIVE"), Ok(EarningType::Incentive));
    assert_eq!(EarningType::from_str("incentive"), Ok(EarningType::Incentive));
    assert_eq!(EarningType::Adjustment.as_str(), "adjustment");
    assert_eq!(EarningType::Adjustment.to_string(), "adjustment");
    assert_eq!(EarningType::parse("adjustment"), Ok(EarningType::Adjustment));
    assert_eq!(EarningType::parse("ADJUSTMENT"), Ok(EarningType::Adjustment));
    assert_eq!(EarningType::from_str("adjustment"), Ok(EarningType::Adjustment));
    assert_eq!(EarningType::Referral.as_str(), "referral");
    assert_eq!(EarningType::Referral.to_string(), "referral");
    assert_eq!(EarningType::parse("referral"), Ok(EarningType::Referral));
    assert_eq!(EarningType::parse("REFERRAL"), Ok(EarningType::Referral));
    assert_eq!(EarningType::from_str("referral"), Ok(EarningType::Referral));
}

#[test]
fn earning_type_default_and_unknown() {
    assert_eq!(EarningType::default(), EarningType::PickupDelivery);
    assert_eq!(EarningType::parse("no_such_value"), Err("Unknown EarningType variant: no_such_value".to_string()));
}

#[test]
fn financial_period_status_wire_names_round_trip() {
    assert_eq!(FinancialPeriodStatus::Open.as_str(), "open");
    assert_eq!(FinancialPeriodStatus::Open.to_string(), "open");
    assert_eq!(FinancialPeriodStatus::parse("open"), Ok(FinancialPeriodStatus::Open));
    assert_eq!(FinancialPeriodStatus::parse("OPEN"), Ok(FinancialPeriodStatus::Open));
    assert_eq!(FinancialPeriodStatus::from_str("open"), Ok(FinancialPeriodStatus::Open));
    assert_eq!(FinancialPeriodStatus::Closing.as_str(), "closing");
    assert_eq!(FinancialPeriodStatus::Closing.to_string(), "closing");
    assert_eq!(FinancialPeriodStatus::parse("closing"), Ok(FinancialPeriodStatus::Closing));
    assert_eq!(FinancialPeriodStatus::parse("CLOSING"), Ok(FinancialPeriodStatus::Closing));
    assert_eq!(FinancialPeriodStatus::from_str("closing"), Ok(FinancialPeriodStatus::Closing));
    assert_eq!(FinancialPeriodStatus::Closed.as_str(), "closed");
    assert_eq!(FinancialPeriodStatus::Closed.to_string(), "closed");
    assert_eq!(FinancialPeriodStatus::parse("closed"), Ok(FinancialPeriodStatus::Closed));
    assert_eq!(FinancialPeriodStatus::parse("CLOSED"), Ok(FinancialPeriodStatus::Closed));
    assert_eq!(FinancialPeriodStatus::from_str("closed"), Ok(FinancialPeriodStatus::Closed));
    assert_eq!(FinancialPeriodStatus::Locked.as_str(), "locked");
    assert_eq!(FinancialPeriodStatus::Locked.to_string(), "locked");
    assert_eq!(FinancialPeriodStatus::parse("locked"), Ok(FinancialPeriodStatus::Locked));
    assert_eq!(FinancialPeriodStatus::parse("LOCKED"), Ok(FinancialPeriodStatus::Locked));
    assert_eq!(FinancialPeriodStatus::from_str("locked"), Ok(FinancialPeriodStatus::Locked));
}

#[test]
fn financial_period_status_default_and_unknown() {
    assert_eq!(FinancialPeriodStatus::default(), FinancialPeriodStatus::Open);
    assert_eq!(FinancialPeriodStatus::parse("no_such_value"), Err("Unknown FinancialPeriodStatus variant: no_such_value".to_string()));
}

#[test]
fn invoice_party_role_wire_names_round_trip() {
    assert_eq!(InvoicePartyRole::Issuer.as_str(), "issuer");
    assert_eq!(InvoicePartyRole::Issuer.to_string(), "issuer");
    assert_eq!(InvoicePartyRole::parse("issuer"), Ok(InvoicePartyRole::Issuer));
    assert_eq!(InvoicePartyRole::parse("ISSUER"), Ok(InvoicePartyRole::Issuer));
    assert_eq!(InvoicePartyRole::from_str("issuer"), Ok(InvoicePartyRole::Issuer));
    assert_eq!(InvoicePartyRole::Recipient.as_str(), "recipient");
    assert_eq!(InvoicePartyRole::Recipient.to_string(), "recipient");
    assert_eq!(InvoicePartyRole::parse("recipient"), Ok(InvoicePartyRole::Recipient));
    assert_eq!(InvoicePartyRole::parse("RECIPIENT"), Ok(InvoicePartyRole::Recipient));
    assert_eq!(InvoicePartyRole::from_str("recipient"), Ok(InvoicePartyRole::Recipient));
}

#[test]
fn invoice_party_role_default_and_unknown() {
    assert_eq!(InvoicePartyRole::default(), InvoicePartyRole::Issuer);
    assert_eq!(InvoicePartyRole::parse("no_such_value"), Err("Unknown InvoicePartyRole variant: no_such_value".to_string()));
}

#[test]
fn invoice_party_type_wire_names_round_trip() {
    assert_eq!(InvoicePartyType::Platform.as_str(), "platform");
    assert_eq!(InvoicePartyType::Platform.to_string(), "platform");
    assert_eq!(InvoicePartyType::parse("platform"), Ok(InvoicePartyType::Platform));
    assert_eq!(InvoicePartyType::parse("PLATFORM"), Ok(InvoicePartyType::Platform));
    assert_eq!(InvoicePartyType::from_str("platform"), Ok(InvoicePartyType::Platform));
    assert_eq!(InvoicePartyType::Provider.as_str(), "provider");
    assert_eq!(InvoicePartyType::Provider.to_string(), "provider");
    assert_eq!(InvoicePartyType::parse("provider"), Ok(InvoicePartyType::Provider));
    assert_eq!(InvoicePartyType::parse("PROVIDER"), Ok(InvoicePartyType::Provider));
    assert_eq!(InvoicePartyType::from_str("provider"), Ok(InvoicePartyType::Provider));
    assert_eq!(InvoicePartyType::Customer.as_str(), "customer");
    assert_eq!(InvoicePartyType::Customer.to_string(), "customer");
    assert_eq!(InvoicePartyType::parse("customer"), Ok(InvoicePartyType::Customer));
    assert_eq!(InvoicePartyType::parse("CUSTOMER"), Ok(InvoicePartyType::Customer));
    assert_eq!(InvoicePartyType::from_str("customer"), Ok(InvoicePartyType::Customer));
    assert_eq!(InvoicePartyType::Corporate.as_str(), "corporate");
    assert_eq!(InvoicePartyType::Corporate.to_string(), "corporate");
    assert_eq!(InvoicePartyType::parse("corporate"), Ok(InvoicePartyType::Corporate));
    assert_eq!(InvoicePartyType::parse("CORPORATE"), Ok(InvoicePartyType::Corporate));
    assert_eq!(InvoicePartyType::from_str("corporate"), Ok(InvoicePartyType::Corporate));
}

#[test]
fn invoice_party_type_default_and_unknown() {
    assert_eq!(InvoicePartyType::default(), InvoicePartyType::Platform);
    assert_eq!(InvoicePartyType::parse("no_such_value"), Err("Unknown InvoicePartyType variant: no_such_value".to_string()));
}

#[test]
fn invoice_status_wire_names_round_trip() {
    assert_eq!(InvoiceStatus::Draft.as_str(), "draft");
    assert_eq!(InvoiceStatus::Draft.to_string(), "draft");
    assert_eq!(InvoiceStatus::parse("draft"), Ok(InvoiceStatus::Draft));
    assert_eq!(InvoiceStatus::parse("DRAFT"), Ok(InvoiceStatus::Draft));
    assert_eq!(InvoiceStatus::from_str("draft"), Ok(InvoiceStatus::Draft));
    assert_eq!(InvoiceStatus::Sent.as_str(), "sent");
    assert_eq!(InvoiceStatus::Sent.to_string(), "sent");
    assert_eq!(InvoiceStatus::parse("sent"), Ok(InvoiceStatus::Sent));
    assert_eq!(InvoiceStatus::parse("SENT"), Ok(InvoiceStatus::Sent));
    assert_eq!(InvoiceStatus::from_str("sent"), Ok(InvoiceStatus::Sent));
    assert_eq!(InvoiceStatus::Viewed.as_str(), "viewed");
    assert_eq!(InvoiceStatus::Viewed.to_string(), "viewed");
    assert_eq!(InvoiceStatus::parse("viewed"), Ok(InvoiceStatus::Viewed));
    assert_eq!(InvoiceStatus::parse("VIEWED"), Ok(InvoiceStatus::Viewed));
    assert_eq!(InvoiceStatus::from_str("viewed"), Ok(InvoiceStatus::Viewed));
    assert_eq!(InvoiceStatus::Paid.as_str(), "paid");
    assert_eq!(InvoiceStatus::Paid.to_string(), "paid");
    assert_eq!(InvoiceStatus::parse("paid"), Ok(InvoiceStatus::Paid));
    assert_eq!(InvoiceStatus::parse("PAID"), Ok(InvoiceStatus::Paid));
    assert_eq!(InvoiceStatus::from_str("paid"), Ok(InvoiceStatus::Paid));
    assert_eq!(InvoiceStatus::PartiallyPaid.as_str(), "partially_paid");
    assert_eq!(InvoiceStatus::PartiallyPaid.to_string(), "partially_paid");
    assert_eq!(InvoiceStatus::parse("partially_paid"), Ok(InvoiceStatus::PartiallyPaid));
    assert_eq!(InvoiceStatus::parse("PARTIALLY_PAID"), Ok(InvoiceStatus::PartiallyPaid));
    assert_eq!(InvoiceStatus::from_str("partially_paid"), Ok(InvoiceStatus::PartiallyPaid));
    assert_eq!(InvoiceStatus::Overdue.as_str(), "overdue");
    assert_eq!(InvoiceStatus::Overdue.to_string(), "overdue");
    assert_eq!(InvoiceStatus::parse("overdue"), Ok(InvoiceStatus::Overdue));
    assert_eq!(InvoiceStatus::parse("OVERDUE"), Ok(InvoiceStatus::Overdue));
    assert_eq!(InvoiceStatus::from_str("overdue"), Ok(InvoiceStatus::Overdue));
    assert_eq!(InvoiceStatus::Cancelled.as_str(), "cancelled");
    assert_eq!(InvoiceStatus::Cancelled.to_string(), "cancelled");
    assert_eq!(InvoiceStatus::parse("cancelled"), Ok(InvoiceStatus::Cancelled));
    assert_eq!(InvoiceStatus::parse("CANCELLED"), Ok(InvoiceStatus::Cancelled));
    assert_eq!(InvoiceStatus::from_str("cancelled"), Ok(InvoiceStatus::Cancelled));
    assert_eq!(InvoiceStatus::Void.as_str(), "void");
    assert_eq!(InvoiceStatus::Void.to_string(), "void");
    assert_eq!(InvoiceStatus::parse("void"), Ok(InvoiceStatus::Void));
    assert_eq!(InvoiceStatus::parse("VOID"), Ok(InvoiceStatus::Void));
    assert_eq!(InvoiceStatus::from_str("void"), Ok(InvoiceStatus::Void));
}

#[test]
fn invoice_status_default_and_unknown() {
    assert_eq!(InvoiceStatus::default(), InvoiceStatus::Draft);
    assert_eq!(InvoiceStatus::parse("no_such_value"), Err("Unknown InvoiceStatus variant: no_such_value".to_string()));
}

#[test]
fn invoice_type_wire_names_round_trip() {
    assert_eq!(InvoiceType::Order.as_str(), "order");
    assert_eq!(InvoiceType::Order.to_string(), "order");
    assert_eq!(InvoiceType::parse("order"), Ok(InvoiceType::Order));
    assert_eq!(InvoiceType::parse("ORDER"), Ok(InvoiceType::Order));
    assert_eq!(InvoiceType::from_str("order"), Ok(InvoiceType::Order));
    assert_eq!(InvoiceType::Subscription.as_str(), "subscription");
    assert_eq!(InvoiceType::Subscription.to_string(), "subscription");
    assert_eq!(InvoiceType::parse("subscription"), Ok(InvoiceType::Subscription));
    assert_eq!(InvoiceType::parse("SUBSCRIPTION"), Ok(InvoiceType::Subscription));
    assert_eq!(InvoiceType::from_str("subscription"), Ok(InvoiceType::Subscription));
    assert_eq!(InvoiceType::Registration.as_str(), "registration");
    assert_eq!(InvoiceType::Registration.to_string(), "registration");
    assert_eq!(InvoiceType::parse("registration"), Ok(InvoiceType::Registration));
    assert_eq!(InvoiceType::parse("REGISTRATION"), Ok(InvoiceType::Registration));
    assert_eq!(InvoiceType::from_str("registration"), Ok(InvoiceType::Registration));
    assert_eq!(InvoiceType::Settlement.as_str(), "settlement");
    assert_eq!(InvoiceType::Settlement.to_string(), "settlement");
    assert_eq!(InvoiceType::parse("settlement"), Ok(InvoiceType::Settlement));
    assert_eq!(InvoiceType::parse("SETTLEMENT"), Ok(InvoiceType::Settlement));
    assert_eq!(InvoiceType::from_str("settlement"), Ok(InvoiceType::Settlement));
    assert_eq!(InvoiceType::Corporate.as_str(), "corporate");
    assert_eq!(InvoiceType::Corporate.to_string(), "corporate");
    assert_eq!(InvoiceType::parse("corporate"), Ok(InvoiceType::Corporate));
    assert_eq!(InvoiceType::parse("CORPORATE"), Ok(InvoiceType::Corporate));
    assert_eq!(InvoiceType::from_str("corporate"), Ok(InvoiceType::Corporate));
}

#[test]
fn invoice_type_default_and_unknown() {
    assert_eq!(InvoiceType::default(), InvoiceType::Order);
    assert_eq!(InvoiceType::parse("no_such_value"), Err("Unknown InvoiceType variant: no_such_value".to_string()));
}

#[test]
fn invoiceable_type_wire_names_round_trip() {
    assert_eq!(InvoiceableType::Order.as_str(), "order");
    assert_eq!(InvoiceableType::Order.to_string(), "order");
    assert_eq!(InvoiceableType::parse("order"), Ok(InvoiceableType::Order));
    assert_eq!(InvoiceableType::parse("ORDER"), Ok(InvoiceableType::Order));
    assert_eq!(InvoiceableType::from_str("order"), Ok(InvoiceableType::Order));
    assert_eq!(InvoiceableType::Settlement.as_str(), "settlement");
    assert_eq!(InvoiceableType::Settlement.to_string(), "settlement");
    assert_eq!(InvoiceableType::parse("settlement"), Ok(InvoiceableType::Settlement));
    assert_eq!(InvoiceableType::parse("SETTLEMENT"), Ok(InvoiceableType::Settlement));
    assert_eq!(InvoiceableType::from_str("settlement"), Ok(InvoiceableType::Settlement));
    assert_eq!(InvoiceableType::Subscription.as_str(), "subscription");
    assert_eq!(InvoiceableType::Subscription.to_string(), "subscription");
    assert_eq!(InvoiceableType::parse("subscription"), Ok(InvoiceableType::Subscription));
    assert_eq!(InvoiceableType::parse("SUBSCRIPTION"), Ok(InvoiceableType::Subscription));
    assert_eq!(InvoiceableType::from_str("subscription"), Ok(InvoiceableType::Subscription));
    assert_eq!(InvoiceableType::CorporateInvoice.as_str(), "corporate_invoice");
    assert_eq!(InvoiceableType::CorporateInvoice.to_string(), "corporate_invoice");
    assert_eq!(InvoiceableType::parse("corporate_invoice"), Ok(InvoiceableType::CorporateInvoice));
    assert_eq!(InvoiceableType::parse("CORPORATE_INVOICE"), Ok(InvoiceableType::CorporateInvoice));
    assert_eq!(InvoiceableType::from_str("corporate_invoice"), Ok(InvoiceableType::CorporateInvoice));
}

#[test]
fn invoiceable_type_default_and_unknown() {
    assert_eq!(InvoiceableType::default(), InvoiceableType::Order);
    assert_eq!(InvoiceableType::parse("no_such_value"), Err("Unknown InvoiceableType variant: no_such_value".to_string()));
}

#[test]
fn payable_type_wire_names_round_trip() {
    assert_eq!(PayableType::Order.as_str(), "order");
    assert_eq!(PayableType::Order.to_string(), "order");
    assert_eq!(PayableType::parse("order"), Ok(PayableType::Order));
    assert_eq!(PayableType::parse("ORDER"), Ok(PayableType::Order));
    assert_eq!(PayableType::from_str("order"), Ok(PayableType::Order));
    assert_eq!(PayableType::Subscription.as_str(), "subscription");
    assert_eq!(PayableType::Subscription.to_string(), "subscription");
    assert_eq!(PayableType::parse("subscription"), Ok(PayableType::Subscription));
    assert_eq!(PayableType::parse("SUBSCRIPTION"), Ok(PayableType::Subscription));
    assert_eq!(PayableType::from_str("subscription"), Ok(PayableType::Subscription));
    assert_eq!(PayableType::Registration.as_str(), "registration");
    assert_eq!(PayableType::Registration.to_string(), "registration");
    assert_eq!(PayableType::parse("registration"), Ok(PayableType::Registration));
    assert_eq!(PayableType::parse("REGISTRATION"), Ok(PayableType::Registration));
    assert_eq!(PayableType::from_str("registration"), Ok(PayableType::Registration));
    assert_eq!(PayableType::CorporateInvoice.as_str(), "corporate_invoice");
    assert_eq!(PayableType::CorporateInvoice.to_string(), "corporate_invoice");
    assert_eq!(PayableType::parse("corporate_invoice"), Ok(PayableType::CorporateInvoice));
    assert_eq!(PayableType::parse("CORPORATE_INVOICE"), Ok(PayableType::CorporateInvoice));
    assert_eq!(PayableType::from_str("corporate_invoice"), Ok(PayableType::CorporateInvoice));
}

#[test]
fn payable_type_default_and_unknown() {
    assert_eq!(PayableType::default(), PayableType::Order);
    assert_eq!(PayableType::parse("no_such_value"), Err("Unknown PayableType variant: no_such_value".to_string()));
}

#[test]
fn payee_type_wire_names_round_trip() {
    assert_eq!(PayeeType::Provider.as_str(), "provider");
    assert_eq!(PayeeType::Provider.to_string(), "provider");
    assert_eq!(PayeeType::parse("provider"), Ok(PayeeType::Provider));
    assert_eq!(PayeeType::parse("PROVIDER"), Ok(PayeeType::Provider));
    assert_eq!(PayeeType::from_str("provider"), Ok(PayeeType::Provider));
    assert_eq!(PayeeType::Platform.as_str(), "platform");
    assert_eq!(PayeeType::Platform.to_string(), "platform");
    assert_eq!(PayeeType::parse("platform"), Ok(PayeeType::Platform));
    assert_eq!(PayeeType::parse("PLATFORM"), Ok(PayeeType::Platform));
    assert_eq!(PayeeType::from_str("platform"), Ok(PayeeType::Platform));
}

#[test]
fn payee_type_default_and_unknown() {
    assert_eq!(PayeeType::default(), PayeeType::Provider);
    assert_eq!(PayeeType::parse("no_such_value"), Err("Unknown PayeeType variant: no_such_value".to_string()));
}

#[test]
fn payer_type_wire_names_round_trip() {
    assert_eq!(PayerType::Customer.as_str(), "customer");
    assert_eq!(PayerType::Customer.to_string(), "customer");
    assert_eq!(PayerType::parse("customer"), Ok(PayerType::Customer));
    assert_eq!(PayerType::parse("CUSTOMER"), Ok(PayerType::Customer));
    assert_eq!(PayerType::from_str("customer"), Ok(PayerType::Customer));
    assert_eq!(PayerType::Corporate.as_str(), "corporate");
    assert_eq!(PayerType::Corporate.to_string(), "corporate");
    assert_eq!(PayerType::parse("corporate"), Ok(PayerType::Corporate));
    assert_eq!(PayerType::parse("CORPORATE"), Ok(PayerType::Corporate));
    assert_eq!(PayerType::from_str("corporate"), Ok(PayerType::Corporate));
    assert_eq!(PayerType::Provider.as_str(), "provider");
    assert_eq!(PayerType::Provider.to_string(), "provider");
    assert_eq!(PayerType::parse("provider"), Ok(PayerType::Provider));
    assert_eq!(PayerType::parse("PROVIDER"), Ok(PayerType::Provider));
    assert_eq!(PayerType::from_str("provider"), Ok(PayerType::Provider));
}

#[test]
fn payer_type_default_and_unknown() {
    assert_eq!(PayerType::default(), PayerType::Customer);
    assert_eq!(PayerType::parse("no_such_value"), Err("Unknown PayerType variant: no_such_value".to_string()));
}

#[test]
fn payment_channel_wire_names_round_trip() {
    assert_eq!(PaymentChannel::Qris.as_str(), "qris");
    assert_eq!(PaymentChannel::Qris.to_string(), "qris");
    assert_eq!(PaymentChannel::parse("qris"), Ok(PaymentChannel::Qris));
    assert_eq!(PaymentChannel::parse("QRIS"), Ok(PaymentChannel::Qris));
    assert_eq!(PaymentChannel::from_str("qris"), Ok(PaymentChannel::Qris));
    assert_eq!(PaymentChannel::VaBca.as_str(), "va_bca");
    assert_eq!(PaymentChannel::VaBca.to_string(), "va_bca");
    assert_eq!(PaymentChannel::parse("va_bca"), Ok(PaymentChannel::VaBca));
    assert_eq!(PaymentChannel::parse("VA_BCA"), Ok(PaymentChannel::VaBca));
    assert_eq!(PaymentChannel::from_str("va_bca"), Ok(PaymentChannel::VaBca));
    assert_eq!(PaymentChannel::VaBni.as_str(), "va_bni");
    assert_eq!(PaymentChannel::VaBni.to_string(), "va_bni");
    assert_eq!(PaymentChannel::parse("va_bni"), Ok(PaymentChannel::VaBni));
    assert_eq!(PaymentChannel::parse("VA_BNI"), Ok(PaymentChannel::VaBni));
    assert_eq!(PaymentChannel::from_str("va_bni"), Ok(PaymentChannel::VaBni));
    assert_eq!(PaymentChannel::VaBri.as_str(), "va_bri");
    assert_eq!(PaymentChannel::VaBri.to_string(), "va_bri");
    assert_eq!(PaymentChannel::parse("va_bri"), Ok(PaymentChannel::VaBri));
    assert_eq!(PaymentChannel::parse("VA_BRI"), Ok(PaymentChannel::VaBri));
    assert_eq!(PaymentChannel::from_str("va_bri"), Ok(PaymentChannel::VaBri));
    assert_eq!(PaymentChannel::VaMandiri.as_str(), "va_mandiri");
    assert_eq!(PaymentChannel::VaMandiri.to_string(), "va_mandiri");
    assert_eq!(PaymentChannel::parse("va_mandiri"), Ok(PaymentChannel::VaMandiri));
    assert_eq!(PaymentChannel::parse("VA_MANDIRI"), Ok(PaymentChannel::VaMandiri));
    assert_eq!(PaymentChannel::from_str("va_mandiri"), Ok(PaymentChannel::VaMandiri));
    assert_eq!(PaymentChannel::VaPermata.as_str(), "va_permata");
    assert_eq!(PaymentChannel::VaPermata.to_string(), "va_permata");
    assert_eq!(PaymentChannel::parse("va_permata"), Ok(PaymentChannel::VaPermata));
    assert_eq!(PaymentChannel::parse("VA_PERMATA"), Ok(PaymentChannel::VaPermata));
    assert_eq!(PaymentChannel::from_str("va_permata"), Ok(PaymentChannel::VaPermata));
    assert_eq!(PaymentChannel::VaCimb.as_str(), "va_cimb");
    assert_eq!(PaymentChannel::VaCimb.to_string(), "va_cimb");
    assert_eq!(PaymentChannel::parse("va_cimb"), Ok(PaymentChannel::VaCimb));
    assert_eq!(PaymentChannel::parse("VA_CIMB"), Ok(PaymentChannel::VaCimb));
    assert_eq!(PaymentChannel::from_str("va_cimb"), Ok(PaymentChannel::VaCimb));
    assert_eq!(PaymentChannel::Ovo.as_str(), "ovo");
    assert_eq!(PaymentChannel::Ovo.to_string(), "ovo");
    assert_eq!(PaymentChannel::parse("ovo"), Ok(PaymentChannel::Ovo));
    assert_eq!(PaymentChannel::parse("OVO"), Ok(PaymentChannel::Ovo));
    assert_eq!(PaymentChannel::from_str("ovo"), Ok(PaymentChannel::Ovo));
    assert_eq!(PaymentChannel::Gopay.as_str(), "gopay");
    assert_eq!(PaymentChannel::Gopay.to_string(), "gopay");
    assert_eq!(PaymentChannel::parse("gopay"), Ok(PaymentChannel::Gopay));
    assert_eq!(PaymentChannel::parse("GOPAY"), Ok(PaymentChannel::Gopay));
    assert_eq!(PaymentChannel::from_str("gopay"), Ok(PaymentChannel::Gopay));
    assert_eq!(PaymentChannel::Dana.as_str(), "dana");
    assert_eq!(PaymentChannel::Dana.to_string(), "dana");
    assert_eq!(PaymentChannel::parse("dana"), Ok(PaymentChannel::Dana));
    assert_eq!(PaymentChannel::parse("DANA"), Ok(PaymentChannel::Dana));
    assert_eq!(PaymentChannel::from_str("dana"), Ok(PaymentChannel::Dana));
    assert_eq!(PaymentChannel::Shopeepay.as_str(), "shopeepay");
    assert_eq!(PaymentChannel::Shopeepay.to_string(), "shopeepay");
    assert_eq!(PaymentChannel::parse("shopeepay"), Ok(PaymentChannel::Shopeepay));
    assert_eq!(PaymentChannel::parse("SHOPEEPAY"), Ok(PaymentChannel::Shopeepay));
    assert_eq!(PaymentChannel::from_str("shopeepay"), Ok(PaymentChannel::Shopeepay));
    assert_eq!(PaymentChannel::Linkaja.as_str(), "linkaja");
    assert_eq!(PaymentChannel::Linkaja.to_string(), "linkaja");
    assert_eq!(PaymentChannel::parse("linkaja"), Ok(PaymentChannel::Linkaja));
    assert_eq!(PaymentChannel::parse("LINKAJA"), Ok(PaymentChannel::Linkaja));
    assert_eq!(PaymentChannel::from_str("linkaja"), Ok(PaymentChannel::Linkaja));
    assert_eq!(PaymentChannel::CreditCard.as_str(), "credit_card");
    assert_eq!(PaymentChannel::CreditCard.to_string(), "credit_card");
    assert_eq!(PaymentChannel::parse("credit_card"), Ok(PaymentChannel::CreditCard));
    assert_eq!(PaymentChannel::parse("CREDIT_CARD"), Ok(PaymentChannel::CreditCard));
    assert_eq!(PaymentChannel::from_str("credit_card"), Ok(PaymentChannel::CreditCard));
    assert_eq!(PaymentChannel::DebitCard.as_str(), "debit_card");
    assert_eq!(PaymentChannel::DebitCard.to_string(), "debit_card");
    assert_eq!(PaymentChannel::parse("debit_card"), Ok(PaymentChannel::DebitCard));
    assert_eq!(PaymentChannel::parse("DEBIT_CARD"), Ok(PaymentChannel::DebitCard));
    assert_eq!(PaymentChannel::from_str("debit_card"), Ok(PaymentChannel::DebitCard));
    assert_eq!(PaymentChannel::Cash.as_str(), "cash");
    assert_eq!(PaymentChannel::Cash.to_string(), "cash");
    assert_eq!(PaymentChannel::parse("cash"), Ok(PaymentChannel::Cash));
    assert_eq!(PaymentChannel::parse("CASH"), Ok(PaymentChannel::Cash));
    assert_eq!(PaymentChannel::from_str("cash"), Ok(PaymentChannel::Cash));
    assert_eq!(PaymentChannel::BankTransfer.as_str(), "bank_transfer");
    assert_eq!(PaymentChannel::BankTransfer.to_string(), "bank_transfer");
    assert_eq!(PaymentChannel::parse("bank_transfer"), Ok(PaymentChannel::BankTransfer));
    assert_eq!(PaymentChannel::parse("BANK_TRANSFER"), Ok(PaymentChannel::BankTransfer));
    assert_eq!(PaymentChannel::from_str("bank_transfer"), Ok(PaymentChannel::BankTransfer));
}

#[test]
fn payment_channel_default_and_unknown() {
    assert_eq!(PaymentChannel::default(), PaymentChannel::Qris);
    assert_eq!(PaymentChannel::parse("no_such_value"), Err("Unknown PaymentChannel variant: no_such_value".to_string()));
}

#[test]
fn payment_fee_type_wire_names_round_trip() {
    assert_eq!(PaymentFeeType::ServiceFee.as_str(), "service_fee");
    assert_eq!(PaymentFeeType::ServiceFee.to_string(), "service_fee");
    assert_eq!(PaymentFeeType::parse("service_fee"), Ok(PaymentFeeType::ServiceFee));
    assert_eq!(PaymentFeeType::parse("SERVICE_FEE"), Ok(PaymentFeeType::ServiceFee));
    assert_eq!(PaymentFeeType::from_str("service_fee"), Ok(PaymentFeeType::ServiceFee));
    assert_eq!(PaymentFeeType::GatewayFee.as_str(), "gateway_fee");
    assert_eq!(PaymentFeeType::GatewayFee.to_string(), "gateway_fee");
    assert_eq!(PaymentFeeType::parse("gateway_fee"), Ok(PaymentFeeType::GatewayFee));
    assert_eq!(PaymentFeeType::parse("GATEWAY_FEE"), Ok(PaymentFeeType::GatewayFee));
    assert_eq!(PaymentFeeType::from_str("gateway_fee"), Ok(PaymentFeeType::GatewayFee));
    assert_eq!(PaymentFeeType::Tax.as_str(), "tax");
    assert_eq!(PaymentFeeType::Tax.to_string(), "tax");
    assert_eq!(PaymentFeeType::parse("tax"), Ok(PaymentFeeType::Tax));
    assert_eq!(PaymentFeeType::parse("TAX"), Ok(PaymentFeeType::Tax));
    assert_eq!(PaymentFeeType::from_str("tax"), Ok(PaymentFeeType::Tax));
}

#[test]
fn payment_fee_type_default_and_unknown() {
    assert_eq!(PaymentFeeType::default(), PaymentFeeType::ServiceFee);
    assert_eq!(PaymentFeeType::parse("no_such_value"), Err("Unknown PaymentFeeType variant: no_such_value".to_string()));
}

#[test]
fn payment_gateway_wire_names_round_trip() {
    assert_eq!(PaymentGateway::Xendit.as_str(), "xendit");
    assert_eq!(PaymentGateway::Xendit.to_string(), "xendit");
    assert_eq!(PaymentGateway::parse("xendit"), Ok(PaymentGateway::Xendit));
    assert_eq!(PaymentGateway::parse("XENDIT"), Ok(PaymentGateway::Xendit));
    assert_eq!(PaymentGateway::from_str("xendit"), Ok(PaymentGateway::Xendit));
    assert_eq!(PaymentGateway::Midtrans.as_str(), "midtrans");
    assert_eq!(PaymentGateway::Midtrans.to_string(), "midtrans");
    assert_eq!(PaymentGateway::parse("midtrans"), Ok(PaymentGateway::Midtrans));
    assert_eq!(PaymentGateway::parse("MIDTRANS"), Ok(PaymentGateway::Midtrans));
    assert_eq!(PaymentGateway::from_str("midtrans"), Ok(PaymentGateway::Midtrans));
    assert_eq!(PaymentGateway::Doku.as_str(), "doku");
    assert_eq!(PaymentGateway::Doku.to_string(), "doku");
    assert_eq!(PaymentGateway::parse("doku"), Ok(PaymentGateway::Doku));
    assert_eq!(PaymentGateway::parse("DOKU"), Ok(PaymentGateway::Doku));
    assert_eq!(PaymentGateway::from_str("doku"), Ok(PaymentGateway::Doku));
    assert_eq!(PaymentGateway::Stripe.as_str(), "stripe");
    assert_eq!(PaymentGateway::Stripe.to_string(), "stripe");
    assert_eq!(PaymentGateway::parse("stripe"), Ok(PaymentGateway::Stripe));
    assert_eq!(PaymentGateway::parse("STRIPE"), Ok(PaymentGateway::Stripe));
    assert_eq!(PaymentGateway::from_str("stripe"), Ok(PaymentGateway::Stripe));
    assert_eq!(PaymentGateway::Manual.as_str(), "manual");
    assert_eq!(PaymentGateway::Manual.to_string(), "manual");
    assert_eq!(PaymentGateway::parse("manual"), Ok(PaymentGateway::Manual));
    assert_eq!(PaymentGateway::parse("MANUAL"), Ok(PaymentGateway::Manual));
    assert_eq!(PaymentGateway::from_str("manual"), Ok(PaymentGateway::Manual));
}

#[test]
fn payment_gateway_default_and_unknown() {
    assert_eq!(PaymentGateway::default(), PaymentGateway::Xendit);
    assert_eq!(PaymentGateway::parse("no_such_value"), Err("Unknown PaymentGateway variant: no_such_value".to_string()));
}

#[test]
fn payment_schedule_status_wire_names_round_trip() {
    assert_eq!(PaymentScheduleStatus::Unpaid.as_str(), "unpaid");
    assert_eq!(PaymentScheduleStatus::Unpaid.to_string(), "unpaid");
    assert_eq!(PaymentScheduleStatus::parse("unpaid"), Ok(PaymentScheduleStatus::Unpaid));
    assert_eq!(PaymentScheduleStatus::parse("UNPAID"), Ok(PaymentScheduleStatus::Unpaid));
    assert_eq!(PaymentScheduleStatus::from_str("unpaid"), Ok(PaymentScheduleStatus::Unpaid));
    assert_eq!(PaymentScheduleStatus::PartiallyPaid.as_str(), "partially_paid");
    assert_eq!(PaymentScheduleStatus::PartiallyPaid.to_string(), "partially_paid");
    assert_eq!(PaymentScheduleStatus::parse("partially_paid"), Ok(PaymentScheduleStatus::PartiallyPaid));
    assert_eq!(PaymentScheduleStatus::parse("PARTIALLY_PAID"), Ok(PaymentScheduleStatus::PartiallyPaid));
    assert_eq!(PaymentScheduleStatus::from_str("partially_paid"), Ok(PaymentScheduleStatus::PartiallyPaid));
    assert_eq!(PaymentScheduleStatus::Paid.as_str(), "paid");
    assert_eq!(PaymentScheduleStatus::Paid.to_string(), "paid");
    assert_eq!(PaymentScheduleStatus::parse("paid"), Ok(PaymentScheduleStatus::Paid));
    assert_eq!(PaymentScheduleStatus::parse("PAID"), Ok(PaymentScheduleStatus::Paid));
    assert_eq!(PaymentScheduleStatus::from_str("paid"), Ok(PaymentScheduleStatus::Paid));
    assert_eq!(PaymentScheduleStatus::Overdue.as_str(), "overdue");
    assert_eq!(PaymentScheduleStatus::Overdue.to_string(), "overdue");
    assert_eq!(PaymentScheduleStatus::parse("overdue"), Ok(PaymentScheduleStatus::Overdue));
    assert_eq!(PaymentScheduleStatus::parse("OVERDUE"), Ok(PaymentScheduleStatus::Overdue));
    assert_eq!(PaymentScheduleStatus::from_str("overdue"), Ok(PaymentScheduleStatus::Overdue));
}

#[test]
fn payment_schedule_status_default_and_unknown() {
    assert_eq!(PaymentScheduleStatus::default(), PaymentScheduleStatus::Unpaid);
    assert_eq!(PaymentScheduleStatus::parse("no_such_value"), Err("Unknown PaymentScheduleStatus variant: no_such_value".to_string()));
}

#[test]
fn payment_term_anchor_wire_names_round_trip() {
    assert_eq!(PaymentTermAnchor::InvoiceDate.as_str(), "invoice_date");
    assert_eq!(PaymentTermAnchor::InvoiceDate.to_string(), "invoice_date");
    assert_eq!(PaymentTermAnchor::parse("invoice_date"), Ok(PaymentTermAnchor::InvoiceDate));
    assert_eq!(PaymentTermAnchor::parse("INVOICE_DATE"), Ok(PaymentTermAnchor::InvoiceDate));
    assert_eq!(PaymentTermAnchor::from_str("invoice_date"), Ok(PaymentTermAnchor::InvoiceDate));
    assert_eq!(PaymentTermAnchor::EndOfInvoiceMonth.as_str(), "end_of_invoice_month");
    assert_eq!(PaymentTermAnchor::EndOfInvoiceMonth.to_string(), "end_of_invoice_month");
    assert_eq!(PaymentTermAnchor::parse("end_of_invoice_month"), Ok(PaymentTermAnchor::EndOfInvoiceMonth));
    assert_eq!(PaymentTermAnchor::parse("END_OF_INVOICE_MONTH"), Ok(PaymentTermAnchor::EndOfInvoiceMonth));
    assert_eq!(PaymentTermAnchor::from_str("end_of_invoice_month"), Ok(PaymentTermAnchor::EndOfInvoiceMonth));
}

#[test]
fn payment_term_anchor_default_and_unknown() {
    assert_eq!(PaymentTermAnchor::default(), PaymentTermAnchor::InvoiceDate);
    assert_eq!(PaymentTermAnchor::parse("no_such_value"), Err("Unknown PaymentTermAnchor variant: no_such_value".to_string()));
}

#[test]
fn payment_term_delay_type_wire_names_round_trip() {
    assert_eq!(PaymentTermDelayType::Days.as_str(), "days");
    assert_eq!(PaymentTermDelayType::Days.to_string(), "days");
    assert_eq!(PaymentTermDelayType::parse("days"), Ok(PaymentTermDelayType::Days));
    assert_eq!(PaymentTermDelayType::parse("DAYS"), Ok(PaymentTermDelayType::Days));
    assert_eq!(PaymentTermDelayType::from_str("days"), Ok(PaymentTermDelayType::Days));
    assert_eq!(PaymentTermDelayType::DayFollowingMonth.as_str(), "day_following_month");
    assert_eq!(PaymentTermDelayType::DayFollowingMonth.to_string(), "day_following_month");
    assert_eq!(PaymentTermDelayType::parse("day_following_month"), Ok(PaymentTermDelayType::DayFollowingMonth));
    assert_eq!(PaymentTermDelayType::parse("DAY_FOLLOWING_MONTH"), Ok(PaymentTermDelayType::DayFollowingMonth));
    assert_eq!(PaymentTermDelayType::from_str("day_following_month"), Ok(PaymentTermDelayType::DayFollowingMonth));
    assert_eq!(PaymentTermDelayType::DayCurrentMonth.as_str(), "day_current_month");
    assert_eq!(PaymentTermDelayType::DayCurrentMonth.to_string(), "day_current_month");
    assert_eq!(PaymentTermDelayType::parse("day_current_month"), Ok(PaymentTermDelayType::DayCurrentMonth));
    assert_eq!(PaymentTermDelayType::parse("DAY_CURRENT_MONTH"), Ok(PaymentTermDelayType::DayCurrentMonth));
    assert_eq!(PaymentTermDelayType::from_str("day_current_month"), Ok(PaymentTermDelayType::DayCurrentMonth));
}

#[test]
fn payment_term_delay_type_default_and_unknown() {
    assert_eq!(PaymentTermDelayType::default(), PaymentTermDelayType::Days);
    assert_eq!(PaymentTermDelayType::parse("no_such_value"), Err("Unknown PaymentTermDelayType variant: no_such_value".to_string()));
}

#[test]
fn payment_term_line_value_wire_names_round_trip() {
    assert_eq!(PaymentTermLineValue::Balance.as_str(), "balance");
    assert_eq!(PaymentTermLineValue::Balance.to_string(), "balance");
    assert_eq!(PaymentTermLineValue::parse("balance"), Ok(PaymentTermLineValue::Balance));
    assert_eq!(PaymentTermLineValue::parse("BALANCE"), Ok(PaymentTermLineValue::Balance));
    assert_eq!(PaymentTermLineValue::from_str("balance"), Ok(PaymentTermLineValue::Balance));
    assert_eq!(PaymentTermLineValue::Percent.as_str(), "percent");
    assert_eq!(PaymentTermLineValue::Percent.to_string(), "percent");
    assert_eq!(PaymentTermLineValue::parse("percent"), Ok(PaymentTermLineValue::Percent));
    assert_eq!(PaymentTermLineValue::parse("PERCENT"), Ok(PaymentTermLineValue::Percent));
    assert_eq!(PaymentTermLineValue::from_str("percent"), Ok(PaymentTermLineValue::Percent));
    assert_eq!(PaymentTermLineValue::Fixed.as_str(), "fixed");
    assert_eq!(PaymentTermLineValue::Fixed.to_string(), "fixed");
    assert_eq!(PaymentTermLineValue::parse("fixed"), Ok(PaymentTermLineValue::Fixed));
    assert_eq!(PaymentTermLineValue::parse("FIXED"), Ok(PaymentTermLineValue::Fixed));
    assert_eq!(PaymentTermLineValue::from_str("fixed"), Ok(PaymentTermLineValue::Fixed));
}

#[test]
fn payment_term_line_value_default_and_unknown() {
    assert_eq!(PaymentTermLineValue::default(), PaymentTermLineValue::Balance);
    assert_eq!(PaymentTermLineValue::parse("no_such_value"), Err("Unknown PaymentTermLineValue variant: no_such_value".to_string()));
}

#[test]
fn payment_transaction_status_wire_names_round_trip() {
    assert_eq!(PaymentTransactionStatus::Pending.as_str(), "pending");
    assert_eq!(PaymentTransactionStatus::Pending.to_string(), "pending");
    assert_eq!(PaymentTransactionStatus::parse("pending"), Ok(PaymentTransactionStatus::Pending));
    assert_eq!(PaymentTransactionStatus::parse("PENDING"), Ok(PaymentTransactionStatus::Pending));
    assert_eq!(PaymentTransactionStatus::from_str("pending"), Ok(PaymentTransactionStatus::Pending));
    assert_eq!(PaymentTransactionStatus::Processing.as_str(), "processing");
    assert_eq!(PaymentTransactionStatus::Processing.to_string(), "processing");
    assert_eq!(PaymentTransactionStatus::parse("processing"), Ok(PaymentTransactionStatus::Processing));
    assert_eq!(PaymentTransactionStatus::parse("PROCESSING"), Ok(PaymentTransactionStatus::Processing));
    assert_eq!(PaymentTransactionStatus::from_str("processing"), Ok(PaymentTransactionStatus::Processing));
    assert_eq!(PaymentTransactionStatus::Completed.as_str(), "completed");
    assert_eq!(PaymentTransactionStatus::Completed.to_string(), "completed");
    assert_eq!(PaymentTransactionStatus::parse("completed"), Ok(PaymentTransactionStatus::Completed));
    assert_eq!(PaymentTransactionStatus::parse("COMPLETED"), Ok(PaymentTransactionStatus::Completed));
    assert_eq!(PaymentTransactionStatus::from_str("completed"), Ok(PaymentTransactionStatus::Completed));
    assert_eq!(PaymentTransactionStatus::Failed.as_str(), "failed");
    assert_eq!(PaymentTransactionStatus::Failed.to_string(), "failed");
    assert_eq!(PaymentTransactionStatus::parse("failed"), Ok(PaymentTransactionStatus::Failed));
    assert_eq!(PaymentTransactionStatus::parse("FAILED"), Ok(PaymentTransactionStatus::Failed));
    assert_eq!(PaymentTransactionStatus::from_str("failed"), Ok(PaymentTransactionStatus::Failed));
    assert_eq!(PaymentTransactionStatus::Expired.as_str(), "expired");
    assert_eq!(PaymentTransactionStatus::Expired.to_string(), "expired");
    assert_eq!(PaymentTransactionStatus::parse("expired"), Ok(PaymentTransactionStatus::Expired));
    assert_eq!(PaymentTransactionStatus::parse("EXPIRED"), Ok(PaymentTransactionStatus::Expired));
    assert_eq!(PaymentTransactionStatus::from_str("expired"), Ok(PaymentTransactionStatus::Expired));
    assert_eq!(PaymentTransactionStatus::Cancelled.as_str(), "cancelled");
    assert_eq!(PaymentTransactionStatus::Cancelled.to_string(), "cancelled");
    assert_eq!(PaymentTransactionStatus::parse("cancelled"), Ok(PaymentTransactionStatus::Cancelled));
    assert_eq!(PaymentTransactionStatus::parse("CANCELLED"), Ok(PaymentTransactionStatus::Cancelled));
    assert_eq!(PaymentTransactionStatus::from_str("cancelled"), Ok(PaymentTransactionStatus::Cancelled));
    assert_eq!(PaymentTransactionStatus::Refunded.as_str(), "refunded");
    assert_eq!(PaymentTransactionStatus::Refunded.to_string(), "refunded");
    assert_eq!(PaymentTransactionStatus::parse("refunded"), Ok(PaymentTransactionStatus::Refunded));
    assert_eq!(PaymentTransactionStatus::parse("REFUNDED"), Ok(PaymentTransactionStatus::Refunded));
    assert_eq!(PaymentTransactionStatus::from_str("refunded"), Ok(PaymentTransactionStatus::Refunded));
    assert_eq!(PaymentTransactionStatus::PartiallyRefunded.as_str(), "partially_refunded");
    assert_eq!(PaymentTransactionStatus::PartiallyRefunded.to_string(), "partially_refunded");
    assert_eq!(PaymentTransactionStatus::parse("partially_refunded"), Ok(PaymentTransactionStatus::PartiallyRefunded));
    assert_eq!(PaymentTransactionStatus::parse("PARTIALLY_REFUNDED"), Ok(PaymentTransactionStatus::PartiallyRefunded));
    assert_eq!(PaymentTransactionStatus::from_str("partially_refunded"), Ok(PaymentTransactionStatus::PartiallyRefunded));
}

#[test]
fn payment_transaction_status_default_and_unknown() {
    assert_eq!(PaymentTransactionStatus::default(), PaymentTransactionStatus::Pending);
    assert_eq!(PaymentTransactionStatus::parse("no_such_value"), Err("Unknown PaymentTransactionStatus variant: no_such_value".to_string()));
}

#[test]
fn refund_method_wire_names_round_trip() {
    assert_eq!(RefundMethod::Original.as_str(), "original");
    assert_eq!(RefundMethod::Original.to_string(), "original");
    assert_eq!(RefundMethod::parse("original"), Ok(RefundMethod::Original));
    assert_eq!(RefundMethod::parse("ORIGINAL"), Ok(RefundMethod::Original));
    assert_eq!(RefundMethod::from_str("original"), Ok(RefundMethod::Original));
    assert_eq!(RefundMethod::BankTransfer.as_str(), "bank_transfer");
    assert_eq!(RefundMethod::BankTransfer.to_string(), "bank_transfer");
    assert_eq!(RefundMethod::parse("bank_transfer"), Ok(RefundMethod::BankTransfer));
    assert_eq!(RefundMethod::parse("BANK_TRANSFER"), Ok(RefundMethod::BankTransfer));
    assert_eq!(RefundMethod::from_str("bank_transfer"), Ok(RefundMethod::BankTransfer));
    assert_eq!(RefundMethod::Ewallet.as_str(), "ewallet");
    assert_eq!(RefundMethod::Ewallet.to_string(), "ewallet");
    assert_eq!(RefundMethod::parse("ewallet"), Ok(RefundMethod::Ewallet));
    assert_eq!(RefundMethod::parse("EWALLET"), Ok(RefundMethod::Ewallet));
    assert_eq!(RefundMethod::from_str("ewallet"), Ok(RefundMethod::Ewallet));
}

#[test]
fn refund_method_default_and_unknown() {
    assert_eq!(RefundMethod::default(), RefundMethod::Original);
    assert_eq!(RefundMethod::parse("no_such_value"), Err("Unknown RefundMethod variant: no_such_value".to_string()));
}

#[test]
fn refund_reason_wire_names_round_trip() {
    assert_eq!(RefundReason::CustomerRequest.as_str(), "customer_request");
    assert_eq!(RefundReason::CustomerRequest.to_string(), "customer_request");
    assert_eq!(RefundReason::parse("customer_request"), Ok(RefundReason::CustomerRequest));
    assert_eq!(RefundReason::parse("CUSTOMER_REQUEST"), Ok(RefundReason::CustomerRequest));
    assert_eq!(RefundReason::from_str("customer_request"), Ok(RefundReason::CustomerRequest));
    assert_eq!(RefundReason::OrderCancelled.as_str(), "order_cancelled");
    assert_eq!(RefundReason::OrderCancelled.to_string(), "order_cancelled");
    assert_eq!(RefundReason::parse("order_cancelled"), Ok(RefundReason::OrderCancelled));
    assert_eq!(RefundReason::parse("ORDER_CANCELLED"), Ok(RefundReason::OrderCancelled));
    assert_eq!(RefundReason::from_str("order_cancelled"), Ok(RefundReason::OrderCancelled));
    assert_eq!(RefundReason::ServiceIssue.as_str(), "service_issue");
    assert_eq!(RefundReason::ServiceIssue.to_string(), "service_issue");
    assert_eq!(RefundReason::parse("service_issue"), Ok(RefundReason::ServiceIssue));
    assert_eq!(RefundReason::parse("SERVICE_ISSUE"), Ok(RefundReason::ServiceIssue));
    assert_eq!(RefundReason::from_str("service_issue"), Ok(RefundReason::ServiceIssue));
    assert_eq!(RefundReason::ItemDamaged.as_str(), "item_damaged");
    assert_eq!(RefundReason::ItemDamaged.to_string(), "item_damaged");
    assert_eq!(RefundReason::parse("item_damaged"), Ok(RefundReason::ItemDamaged));
    assert_eq!(RefundReason::parse("ITEM_DAMAGED"), Ok(RefundReason::ItemDamaged));
    assert_eq!(RefundReason::from_str("item_damaged"), Ok(RefundReason::ItemDamaged));
    assert_eq!(RefundReason::ItemLost.as_str(), "item_lost");
    assert_eq!(RefundReason::ItemLost.to_string(), "item_lost");
    assert_eq!(RefundReason::parse("item_lost"), Ok(RefundReason::ItemLost));
    assert_eq!(RefundReason::parse("ITEM_LOST"), Ok(RefundReason::ItemLost));
    assert_eq!(RefundReason::from_str("item_lost"), Ok(RefundReason::ItemLost));
    assert_eq!(RefundReason::Overcharge.as_str(), "overcharge");
    assert_eq!(RefundReason::Overcharge.to_string(), "overcharge");
    assert_eq!(RefundReason::parse("overcharge"), Ok(RefundReason::Overcharge));
    assert_eq!(RefundReason::parse("OVERCHARGE"), Ok(RefundReason::Overcharge));
    assert_eq!(RefundReason::from_str("overcharge"), Ok(RefundReason::Overcharge));
    assert_eq!(RefundReason::DuplicatePayment.as_str(), "duplicate_payment");
    assert_eq!(RefundReason::DuplicatePayment.to_string(), "duplicate_payment");
    assert_eq!(RefundReason::parse("duplicate_payment"), Ok(RefundReason::DuplicatePayment));
    assert_eq!(RefundReason::parse("DUPLICATE_PAYMENT"), Ok(RefundReason::DuplicatePayment));
    assert_eq!(RefundReason::from_str("duplicate_payment"), Ok(RefundReason::DuplicatePayment));
    assert_eq!(RefundReason::ProviderUnable.as_str(), "provider_unable");
    assert_eq!(RefundReason::ProviderUnable.to_string(), "provider_unable");
    assert_eq!(RefundReason::parse("provider_unable"), Ok(RefundReason::ProviderUnable));
    assert_eq!(RefundReason::parse("PROVIDER_UNABLE"), Ok(RefundReason::ProviderUnable));
    assert_eq!(RefundReason::from_str("provider_unable"), Ok(RefundReason::ProviderUnable));
    assert_eq!(RefundReason::Other.as_str(), "other");
    assert_eq!(RefundReason::Other.to_string(), "other");
    assert_eq!(RefundReason::parse("other"), Ok(RefundReason::Other));
    assert_eq!(RefundReason::parse("OTHER"), Ok(RefundReason::Other));
    assert_eq!(RefundReason::from_str("other"), Ok(RefundReason::Other));
}

#[test]
fn refund_reason_default_and_unknown() {
    assert_eq!(RefundReason::default(), RefundReason::CustomerRequest);
    assert_eq!(RefundReason::parse("no_such_value"), Err("Unknown RefundReason variant: no_such_value".to_string()));
}

#[test]
fn refund_status_wire_names_round_trip() {
    assert_eq!(RefundStatus::Pending.as_str(), "pending");
    assert_eq!(RefundStatus::Pending.to_string(), "pending");
    assert_eq!(RefundStatus::parse("pending"), Ok(RefundStatus::Pending));
    assert_eq!(RefundStatus::parse("PENDING"), Ok(RefundStatus::Pending));
    assert_eq!(RefundStatus::from_str("pending"), Ok(RefundStatus::Pending));
    assert_eq!(RefundStatus::UnderReview.as_str(), "under_review");
    assert_eq!(RefundStatus::UnderReview.to_string(), "under_review");
    assert_eq!(RefundStatus::parse("under_review"), Ok(RefundStatus::UnderReview));
    assert_eq!(RefundStatus::parse("UNDER_REVIEW"), Ok(RefundStatus::UnderReview));
    assert_eq!(RefundStatus::from_str("under_review"), Ok(RefundStatus::UnderReview));
    assert_eq!(RefundStatus::Approved.as_str(), "approved");
    assert_eq!(RefundStatus::Approved.to_string(), "approved");
    assert_eq!(RefundStatus::parse("approved"), Ok(RefundStatus::Approved));
    assert_eq!(RefundStatus::parse("APPROVED"), Ok(RefundStatus::Approved));
    assert_eq!(RefundStatus::from_str("approved"), Ok(RefundStatus::Approved));
    assert_eq!(RefundStatus::Processing.as_str(), "processing");
    assert_eq!(RefundStatus::Processing.to_string(), "processing");
    assert_eq!(RefundStatus::parse("processing"), Ok(RefundStatus::Processing));
    assert_eq!(RefundStatus::parse("PROCESSING"), Ok(RefundStatus::Processing));
    assert_eq!(RefundStatus::from_str("processing"), Ok(RefundStatus::Processing));
    assert_eq!(RefundStatus::Completed.as_str(), "completed");
    assert_eq!(RefundStatus::Completed.to_string(), "completed");
    assert_eq!(RefundStatus::parse("completed"), Ok(RefundStatus::Completed));
    assert_eq!(RefundStatus::parse("COMPLETED"), Ok(RefundStatus::Completed));
    assert_eq!(RefundStatus::from_str("completed"), Ok(RefundStatus::Completed));
    assert_eq!(RefundStatus::Rejected.as_str(), "rejected");
    assert_eq!(RefundStatus::Rejected.to_string(), "rejected");
    assert_eq!(RefundStatus::parse("rejected"), Ok(RefundStatus::Rejected));
    assert_eq!(RefundStatus::parse("REJECTED"), Ok(RefundStatus::Rejected));
    assert_eq!(RefundStatus::from_str("rejected"), Ok(RefundStatus::Rejected));
    assert_eq!(RefundStatus::Failed.as_str(), "failed");
    assert_eq!(RefundStatus::Failed.to_string(), "failed");
    assert_eq!(RefundStatus::parse("failed"), Ok(RefundStatus::Failed));
    assert_eq!(RefundStatus::parse("FAILED"), Ok(RefundStatus::Failed));
    assert_eq!(RefundStatus::from_str("failed"), Ok(RefundStatus::Failed));
    assert_eq!(RefundStatus::Cancelled.as_str(), "cancelled");
    assert_eq!(RefundStatus::Cancelled.to_string(), "cancelled");
    assert_eq!(RefundStatus::parse("cancelled"), Ok(RefundStatus::Cancelled));
    assert_eq!(RefundStatus::parse("CANCELLED"), Ok(RefundStatus::Cancelled));
    assert_eq!(RefundStatus::from_str("cancelled"), Ok(RefundStatus::Cancelled));
}

#[test]
fn refund_status_default_and_unknown() {
    assert_eq!(RefundStatus::default(), RefundStatus::Pending);
    assert_eq!(RefundStatus::parse("no_such_value"), Err("Unknown RefundStatus variant: no_such_value".to_string()));
}

#[test]
fn settlement_frequency_wire_names_round_trip() {
    assert_eq!(SettlementFrequency::Daily.as_str(), "daily");
    assert_eq!(SettlementFrequency::Daily.to_string(), "daily");
    assert_eq!(SettlementFrequency::parse("daily"), Ok(SettlementFrequency::Daily));
    assert_eq!(SettlementFrequency::parse("DAILY"), Ok(SettlementFrequency::Daily));
    assert_eq!(SettlementFrequency::from_str("daily"), Ok(SettlementFrequency::Daily));
    assert_eq!(SettlementFrequency::Weekly.as_str(), "weekly");
    assert_eq!(SettlementFrequency::Weekly.to_string(), "weekly");
    assert_eq!(SettlementFrequency::parse("weekly"), Ok(SettlementFrequency::Weekly));
    assert_eq!(SettlementFrequency::parse("WEEKLY"), Ok(SettlementFrequency::Weekly));
    assert_eq!(SettlementFrequency::from_str("weekly"), Ok(SettlementFrequency::Weekly));
    assert_eq!(SettlementFrequency::Biweekly.as_str(), "biweekly");
    assert_eq!(SettlementFrequency::Biweekly.to_string(), "biweekly");
    assert_eq!(SettlementFrequency::parse("biweekly"), Ok(SettlementFrequency::Biweekly));
    assert_eq!(SettlementFrequency::parse("BIWEEKLY"), Ok(SettlementFrequency::Biweekly));
    assert_eq!(SettlementFrequency::from_str("biweekly"), Ok(SettlementFrequency::Biweekly));
    assert_eq!(SettlementFrequency::Monthly.as_str(), "monthly");
    assert_eq!(SettlementFrequency::Monthly.to_string(), "monthly");
    assert_eq!(SettlementFrequency::parse("monthly"), Ok(SettlementFrequency::Monthly));
    assert_eq!(SettlementFrequency::parse("MONTHLY"), Ok(SettlementFrequency::Monthly));
    assert_eq!(SettlementFrequency::from_str("monthly"), Ok(SettlementFrequency::Monthly));
}

#[test]
fn settlement_frequency_default_and_unknown() {
    assert_eq!(SettlementFrequency::default(), SettlementFrequency::Daily);
    assert_eq!(SettlementFrequency::parse("no_such_value"), Err("Unknown SettlementFrequency variant: no_such_value".to_string()));
}

#[test]
fn tax_basis_wire_names_round_trip() {
    assert_eq!(TaxBasis::Output.as_str(), "output");
    assert_eq!(TaxBasis::Output.to_string(), "output");
    assert_eq!(TaxBasis::parse("output"), Ok(TaxBasis::Output));
    assert_eq!(TaxBasis::parse("OUTPUT"), Ok(TaxBasis::Output));
    assert_eq!(TaxBasis::from_str("output"), Ok(TaxBasis::Output));
    assert_eq!(TaxBasis::Input.as_str(), "input");
    assert_eq!(TaxBasis::Input.to_string(), "input");
    assert_eq!(TaxBasis::parse("input"), Ok(TaxBasis::Input));
    assert_eq!(TaxBasis::parse("INPUT"), Ok(TaxBasis::Input));
    assert_eq!(TaxBasis::from_str("input"), Ok(TaxBasis::Input));
    assert_eq!(TaxBasis::Withholding.as_str(), "withholding");
    assert_eq!(TaxBasis::Withholding.to_string(), "withholding");
    assert_eq!(TaxBasis::parse("withholding"), Ok(TaxBasis::Withholding));
    assert_eq!(TaxBasis::parse("WITHHOLDING"), Ok(TaxBasis::Withholding));
    assert_eq!(TaxBasis::from_str("withholding"), Ok(TaxBasis::Withholding));
}

#[test]
fn tax_basis_default_and_unknown() {
    assert_eq!(TaxBasis::default(), TaxBasis::Output);
    assert_eq!(TaxBasis::parse("no_such_value"), Err("Unknown TaxBasis variant: no_such_value".to_string()));
}

#[test]
fn verification_method_wire_names_round_trip() {
    assert_eq!(VerificationMethod::MicroDeposit.as_str(), "micro_deposit");
    assert_eq!(VerificationMethod::MicroDeposit.to_string(), "micro_deposit");
    assert_eq!(VerificationMethod::parse("micro_deposit"), Ok(VerificationMethod::MicroDeposit));
    assert_eq!(VerificationMethod::parse("MICRO_DEPOSIT"), Ok(VerificationMethod::MicroDeposit));
    assert_eq!(VerificationMethod::from_str("micro_deposit"), Ok(VerificationMethod::MicroDeposit));
    assert_eq!(VerificationMethod::Document.as_str(), "document");
    assert_eq!(VerificationMethod::Document.to_string(), "document");
    assert_eq!(VerificationMethod::parse("document"), Ok(VerificationMethod::Document));
    assert_eq!(VerificationMethod::parse("DOCUMENT"), Ok(VerificationMethod::Document));
    assert_eq!(VerificationMethod::from_str("document"), Ok(VerificationMethod::Document));
    assert_eq!(VerificationMethod::Instant.as_str(), "instant");
    assert_eq!(VerificationMethod::Instant.to_string(), "instant");
    assert_eq!(VerificationMethod::parse("instant"), Ok(VerificationMethod::Instant));
    assert_eq!(VerificationMethod::parse("INSTANT"), Ok(VerificationMethod::Instant));
    assert_eq!(VerificationMethod::from_str("instant"), Ok(VerificationMethod::Instant));
    assert_eq!(VerificationMethod::Manual.as_str(), "manual");
    assert_eq!(VerificationMethod::Manual.to_string(), "manual");
    assert_eq!(VerificationMethod::parse("manual"), Ok(VerificationMethod::Manual));
    assert_eq!(VerificationMethod::parse("MANUAL"), Ok(VerificationMethod::Manual));
    assert_eq!(VerificationMethod::from_str("manual"), Ok(VerificationMethod::Manual));
}

#[test]
fn verification_method_default_and_unknown() {
    assert_eq!(VerificationMethod::default(), VerificationMethod::MicroDeposit);
    assert_eq!(VerificationMethod::parse("no_such_value"), Err("Unknown VerificationMethod variant: no_such_value".to_string()));
}
