//! Billing: invoice pricing, payment terms, settlement of invoices by payments, and the balanced
//! ledger posts that invoices produce.
pub mod calendar;
pub mod dec;
pub mod domain;
pub mod entity;
pub mod error;
pub mod events;
pub mod posting;
pub mod pricing;
pub mod settlement;
pub mod terms;
pub mod text;
