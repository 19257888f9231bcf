//! The billing records: invoices and their lines, parties and tax lines, payments with their fees
//! and gateway details, payment terms and their lines, agent earnings, provider bank accounts and
//! refund requests. Each has a typed id, a constructor, accessors, a partial update and a builder.
use vstd::prelude::*;

pub mod agent_earning;
pub mod invoice;
pub mod invoice_line_item;
pub mod invoice_party;
pub mod invoice_tax_line;
pub mod payment;
pub mod payment_fee;
pub mod payment_gateway_detail;
pub mod payment_term;
pub mod payment_term_line;
pub mod provider_bank_account;
pub mod refund_request;

verus! {

/// Audit data kept with every record: when it was created, last updated and soft-deleted
/// (microseconds since the Unix epoch, UTC), and by whom.
#[derive(Debug, Clone, Copy, PartialEq, Eq, Structural)]
pub struct AuditMetadata {
    pub created_at: Option<i64>,
    pub updated_at: Option<i64>,
    pub deleted_at: Option<i64>,
    pub created_by: Option<u128>,
    pub updated_by: Option<u128>,
    pub deleted_by: Option<u128>,
}

impl AuditMetadata {
    /// Audit data with nothing recorded.
    pub open spec fn blank() -> Self {
        AuditMetadata {
            created_at: None,
            updated_at: None,
            deleted_at: None,
            created_by: None,
            updated_by: None,
            deleted_by: None,
        }
    }
}

impl Default for AuditMetadata {
    fn default() -> (r: Self)
        ensures
            r == AuditMetadata::blank(),
    {
        AuditMetadata {
            created_at: None,
            updated_at: None,
            deleted_at: None,
            created_by: None,
            updated_by: None,
            deleted_by: None,
        }
    }
}

/// Replace the value in `slot` with `value` where there is one.
pub(crate) fn replace_if_some<T>(slot: &mut T, value: Option<T>)
    ensures
        *final(slot) == match value {
            Some(v) => v,
            None => *old(slot),
        },
{
    if let Some(v) = value {
        *slot = v;
    }
}

/// `uuid::Uuid::new_v4`: a fresh random (version 4) UUID, as its 128-bit value. It is random, so
/// nothing is stated of it.
#[verifier::external_body]
pub(crate) fn new_entity_id() -> u128 {
    uuid::Uuid::new_v4().as_u128()
}

} // verus!
