//! The payment fee record (`PaymentFee`): its typed id, constructor, accessors, partial update and
//! builder.
//!
//! Ids are 128-bit UUID values, timestamps are microseconds since the Unix epoch (UTC), and
//! JSON documents are held as their text.
use vstd::prelude::*;

use crate::dec::Dec;
use crate::domain::payment_fee_type::PaymentFeeType;
use crate::entity::new_entity_id;
use crate::entity::replace_if_some;
use crate::entity::AuditMetadata;

verus! {

broadcast use vstd::string::group_string_axioms;

/// Strongly-typed id of a [`PaymentFee`].
#[derive(Debug, Clone, Copy, PartialEq, Eq, Hash, Structural)]
pub struct PaymentFeeId(pub u128);

impl PaymentFeeId {
    /// Wrap an id.
    pub fn new(id: u128) -> (r: Self)
        ensures
            r.0 == id,
    {
        PaymentFeeId(id)
    }

    /// A fresh random id.
    pub fn generate() -> (r: Self) {
        PaymentFeeId(new_entity_id())
    }

    /// The id inside.
    pub fn into_inner(self) -> (r: u128)
        ensures
            r == self.0,
    {
        self.0
    }
}

impl From<u128> for PaymentFeeId {
    fn from(id: u128) -> (r: Self) {
        PaymentFeeId(id)
    }
}

impl vstd::std_specs::convert::FromSpecImpl<u128> for PaymentFeeId {
    open spec fn obeys_from_spec() -> bool {
        true
    }

    open spec fn from_spec(v: u128) -> Self {
        PaymentFeeId(v)
    }
}

/// A payment fee record.
#[derive(Debug, Clone)]
pub struct PaymentFee {
    pub id: u128,
    pub payment_id: u128,
    pub fee_type: PaymentFeeType,
    pub amount: Dec,
    pub description: Option<String>,
    pub metadata: AuditMetadata,
}

/// A partial update of a [`PaymentFee`]: each field that is `Some` replaces the record's value.
#[derive(Debug, Clone)]
pub struct PaymentFeePatch {
    pub payment_id: Option<u128>,
    pub fee_type: Option<PaymentFeeType>,
    pub amount: Option<Dec>,
    pub description: Option<Option<String>>,
}

impl PaymentFeePatch {
    /// The record once this patch is applied.
    pub open spec fn applied_to(self, e: PaymentFee) -> PaymentFee {
        PaymentFee {
            id: e.id,
            payment_id: match self.payment_id {
                Some(v) => v,
                None => e.payment_id,
            },
            fee_type: match self.fee_type {
                Some(v) => v,
                None => e.fee_type,
            },
            amount: match self.amount {
                Some(v) => v,
                None => e.amount,
            },
            description: match self.description {
                Some(v) => v,
                None => e.description,
            },
            metadata: e.metadata,
        }
    }
}

impl PaymentFee {
    /// A builder with nothing set.
    pub fn builder() -> (r: PaymentFeeBuilder)
        ensures
            r == PaymentFeeBuilder::blank(),
    {
        PaymentFeeBuilder::default()
    }

    /// A new record from its required fields, with a fresh id, the other fields unset and blank
    /// audit data.
    pub fn new(
        payment_id: u128,
        fee_type: PaymentFeeType,
        amount: Dec,
    ) -> (r: Self)
        ensures
            r == (PaymentFee {
                id: r.id,
                payment_id,
                fee_type,
                amount,
                description: None,
                metadata: AuditMetadata::blank(),
            }),
    {
        PaymentFee {
            id: new_entity_id(),
            payment_id,
            fee_type,
            amount,
            description: None,
            metadata: AuditMetadata::default(),
        }
    }

    /// The record's id.
    pub fn id(&self) -> (r: &u128)
        ensures
            *r == self.id,
    {
        &self.id
    }

    /// The record's typed id.
    pub fn typed_id(&self) -> (r: PaymentFeeId)
        ensures
            r == PaymentFeeId(self.id),
    {
        PaymentFeeId(self.id)
    }

    /// When the record was created.
    pub fn created_at(&self) -> (r: Option<&i64>)
        ensures
            r is Some <==> self.metadata.created_at is Some,
            r is Some ==> r->0 == self.metadata.created_at->0,
    {
        self.metadata.created_at.as_ref()
    }

    /// When the record was last updated.
    pub fn updated_at(&self) -> (r: Option<&i64>)
        ensures
            r is Some <==> self.metadata.updated_at is Some,
            r is Some ==> r->0 == self.metadata.updated_at->0,
    {
        self.metadata.updated_at.as_ref()
    }

    /// Whether the record is soft-deleted.
    pub fn is_deleted(&self) -> (r: bool)
        ensures
            r == self.metadata.deleted_at is Some,
    {
        self.metadata.deleted_at.is_some()
    }

    /// Whether the record is active (not soft-deleted).
    pub fn is_active(&self) -> (r: bool)
        ensures
            r == self.metadata.deleted_at is None,
    {
        self.metadata.deleted_at.is_none()
    }

    /// When the record was soft-deleted.
    pub fn deleted_at(&self) -> (r: Option<&i64>)
        ensures
            r is Some <==> self.metadata.deleted_at is Some,
            r is Some ==> r->0 == self.metadata.deleted_at->0,
    {
        self.metadata.deleted_at.as_ref()
    }

    /// Who created the record.
    pub fn created_by(&self) -> (r: Option<&u128>)
        ensures
            r is Some <==> self.metadata.created_by is Some,
            r is Some ==> r->0 == self.metadata.created_by->0,
    {
        self.metadata.created_by.as_ref()
    }

    /// Who last updated the record.
    pub fn updated_by(&self) -> (r: Option<&u128>)
        ensures
            r is Some <==> self.metadata.updated_by is Some,
            r is Some ==> r->0 == self.metadata.updated_by->0,
    {
        self.metadata.updated_by.as_ref()
    }

    /// Who soft-deleted the record.
    pub fn deleted_by(&self) -> (r: Option<&u128>)
        ensures
            r is Some <==> self.metadata.deleted_by is Some,
            r is Some ==> r->0 == self.metadata.deleted_by->0,
    {
        self.metadata.deleted_by.as_ref()
    }

    /// The record with `description` set.
    pub fn with_description(self, value: String) -> (r: Self)
        ensures
            r == (PaymentFee { description: Some(value), ..self }),
    {
        let mut s = self;
        s.description = Some(value);
        s
    }

    /// Apply a partial update: each field the patch holds replaces the record's value.
    pub fn apply_patch(&mut self, patch: PaymentFeePatch)
        ensures
            *final(self) == patch.applied_to(*old(self)),
    {
        let PaymentFeePatch {
            payment_id,
            fee_type,
            amount,
            description,
        } = patch;
        replace_if_some(&mut self.payment_id, payment_id);
        replace_if_some(&mut self.fee_type, fee_type);
        replace_if_some(&mut self.amount, amount);
        replace_if_some(&mut self.description, description);
    }
}

/// A fluent builder of a [`PaymentFee`]; the id and the audit data are set when it is built.
#[derive(Debug, Clone)]
pub struct PaymentFeeBuilder {
    pub payment_id: Option<u128>,
    pub fee_type: Option<PaymentFeeType>,
    pub amount: Option<Dec>,
    pub description: Option<String>,
}

impl PaymentFeeBuilder {
    /// A builder with nothing set.
    pub open spec fn blank() -> Self {
        PaymentFeeBuilder { payment_id: None, fee_type: None, amount: None, description: None }
    }

    /// Set `payment_id` (required).
    pub fn payment_id(self, value: u128) -> (r: Self)
        ensures
            r == (PaymentFeeBuilder { payment_id: Some(value), ..self }),
    {
        let mut s = self;
        s.payment_id = Some(value);
        s
    }

    /// Set `fee_type` (required).
    pub fn fee_type(self, value: PaymentFeeType) -> (r: Self)
        ensures
            r == (PaymentFeeBuilder { fee_type: Some(value), ..self }),
    {
        let mut s = self;
        s.fee_type = Some(value);
        s
    }

    /// Set `amount` (required).
    pub fn amount(self, value: Dec) -> (r: Self)
        ensures
            r == (PaymentFeeBuilder { amount: Some(value), ..self }),
    {
        let mut s = self;
        s.amount = Some(value);
        s
    }

    /// Set `description` (optional).
    pub fn description(self, value: String) -> (r: Self)
        ensures
            r == (PaymentFeeBuilder { description: Some(value), ..self }),
    {
        let mut s = self;
        s.description = Some(value);
        s
    }

    /// Build the record, with a fresh id and blank audit data; an error names the first
    /// required field that is missing. Unset fields with a default take it.
    pub fn build(self) -> (r: Result<PaymentFee, String>)
        ensures
            match r {
                Ok(e) => {
                    &&& self.payment_id is Some
                    &&& self.fee_type is Some
                    &&& self.amount is Some
                    &&& e == (PaymentFee {
                        id: e.id,
                        payment_id: self.payment_id.unwrap(),
                        fee_type: self.fee_type.unwrap(),
                        amount: self.amount.unwrap(),
                        description: self.description,
                        metadata: AuditMetadata::blank()
                    })
                },
                Err(m) => if self.payment_id is None {
                    m@ == "payment_id is required"@
                } else if self.fee_type is None {
                    m@ == "fee_type is required"@
                } else if self.amount is None {
                    m@ == "amount is required"@
                } else {
                    false
                },
            },
    {
        let PaymentFeeBuilder {
            payment_id,
            fee_type,
            amount,
            description,
        } = self;
        let payment_id = match payment_id {
            Some(v) => v,
            None => {
                return Err("payment_id is required".to_string());
            },
        };
        let fee_type = match fee_type {
            Some(v) => v,
            None => {
                return Err("fee_type is required".to_string());
            },
        };
        let amount = match amount {
            Some(v) => v,
            None => {
                return Err("amount is required".to_string());
            },
        };
        Ok(PaymentFee {
            id: new_entity_id(),
            payment_id,
            fee_type,
            amount,
            description,
            metadata: AuditMetadata::default(),
        })
    }
}

impl Default for PaymentFeeBuilder {
    fn default() -> (r: Self)
        ensures
            r == PaymentFeeBuilder::blank(),
    {
        PaymentFeeBuilder {
            payment_id: None,
            fee_type: None,
            amount: None,
            description: None,
        }
    }
}

} // verus!
