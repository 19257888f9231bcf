//! The domain's closed vocabularies: statuses, types and methods, each stored and displayed by its
//! wire name.

pub mod bank_account_status;
pub mod bank_account_type;
pub mod discount_tax_basis;
pub mod earning_status;
pub mod earning_type;
pub mod financial_period_status;
pub mod invoice_party_role;
pub mod invoice_party_type;
pub mod invoice_status;
pub mod invoice_type;
pub mod invoiceable_type;
pub mod payable_type;
pub mod payee_type;
pub mod payer_type;
pub mod payment_channel;
pub mod payment_fee_type;
pub mod payment_gateway;
pub mod payment_schedule_status;
pub mod payment_term_anchor;
pub mod payment_term_delay_type;
pub mod payment_term_line_value;
pub mod payment_term_status;
pub mod payment_transaction_status;
pub mod refund_method;
pub mod refund_reason;
pub mod refund_status;
pub mod settlement_frequency;
pub mod tax_basis;
pub mod verification_method;
