//! The payment gateway detail record (`PaymentGatewayDetail`): its typed id, constructor, accessors, partial update and
//! builder.
//!
//! Ids are 128-bit UUID values, timestamps are microseconds since the Unix epoch (UTC), and
//! JSON documents are held as their text.
use vstd::prelude::*;

use crate::entity::new_entity_id;
use crate::entity::replace_if_some;
use crate::entity::AuditMetadata;

verus! {

broadcast use vstd::string::group_string_axioms;

/// Strongly-typed id of a [`PaymentGatewayDetail`].
#[derive(Debug, Clone, Copy, PartialEq, Eq, Hash, Structural)]
pub struct PaymentGatewayDetailId(pub u128);

impl PaymentGatewayDetailId {
    /// Wrap an id.
    pub fn new(id: u128) -> (r: Self)
        ensures
            r.0 == id,
    {
        PaymentGatewayDetailId(id)
    }

    /// A fresh random id.
    pub fn generate() -> (r: Self) {
        PaymentGatewayDetailId(new_entity_id())
    }

    /// The id inside.
    pub fn into_inner(self) -> (r: u128)
        ensures
            r == self.0,
    {
        self.0
    }
}

impl From<u128> for PaymentGatewayDetailId {
    fn from(id: u128) -> (r: Self) {
        PaymentGatewayDetailId(id)
    }
}

impl vstd::std_specs::convert::FromSpecImpl<u128> for PaymentGatewayDetailId {
    open spec fn obeys_from_spec() -> bool {
        true
    }

    open spec fn from_spec(v: u128) -> Self {
        PaymentGatewayDetailId(v)
    }
}

/// A payment gateway detail record.
#[derive(Debug, Clone)]
pub struct PaymentGatewayDetail {
    pub id: u128,
    pub payment_id: u128,
    pub external_id: Option<String>,
    pub invoice_url: Option<String>,
    pub checkout_url: Option<String>,
    pub qr_code_url: Option<String>,
    pub virtual_account_number: Option<String>,
    pub virtual_account_bank: Option<String>,
    pub webhook_payload: Option<String>,
    pub webhook_received_at: Option<i64>,
    pub metadata: AuditMetadata,
}

/// A partial update of a [`PaymentGatewayDetail`]: each field that is `Some` replaces the record's value.
#[derive(Debug, Clone)]
pub struct PaymentGatewayDetailPatch {
    pub payment_id: Option<u128>,
    pub external_id: Option<Option<String>>,
    pub invoice_url: Option<Option<String>>,
    pub checkout_url: Option<Option<String>>,
    pub qr_code_url: Option<Option<String>>,
    pub virtual_account_number: Option<Option<String>>,
    pub virtual_account_bank: Option<Option<String>>,
    pub webhook_payload: Option<Option<String>>,
    pub webhook_received_at: Option<Option<i64>>,
}

impl PaymentGatewayDetailPatch {
    /// The record once this patch is applied.
    pub open spec fn applied_to(self, e: PaymentGatewayDetail) -> PaymentGatewayDetail {
        PaymentGatewayDetail {
            id: e.id,
            payment_id: match self.payment_id {
                Some(v) => v,
                None => e.payment_id,
            },
            external_id: match self.external_id {
                Some(v) => v,
                None => e.external_id,
            },
            invoice_url: match self.invoice_url {
                Some(v) => v,
                None => e.invoice_url,
            },
            checkout_url: match self.checkout_url {
                Some(v) => v,
                None => e.checkout_url,
            },
            qr_code_url: match self.qr_code_url {
                Some(v) => v,
                None => e.qr_code_url,
            },
            virtual_account_number: match self.virtual_account_number {
                Some(v) => v,
                None => e.virtual_account_number,
            },
            virtual_account_bank: match self.virtual_account_bank {
                Some(v) => v,
                None => e.virtual_account_bank,
            },
            webhook_payload: match self.webhook_payload {
                Some(v) => v,
                None => e.webhook_payload,
            },
            webhook_received_at: match self.webhook_received_at {
                Some(v) => v,
                None => e.webhook_received_at,
            },
            metadata: e.metadata,
        }
    }
}

impl PaymentGatewayDetail {
    /// A builder with nothing set.
    pub fn builder() -> (r: PaymentGatewayDetailBuilder)
        ensures
            r == PaymentGatewayDetailBuilder::blank(),
    {
        PaymentGatewayDetailBuilder::default()
    }

    /// A new record from its required fields, with a fresh id, the other fields unset and blank
    /// audit data.
    pub fn new(
        payment_id: u128,
    ) -> (r: Self)
        ensures
            r == (PaymentGatewayDetail {
                id: r.id,
                payment_id,
                external_id: None,
                invoice_url: None,
                checkout_url: None,
                qr_code_url: None,
                virtual_account_number: None,
                virtual_account_bank: None,
                webhook_payload: None,
                webhook_received_at: None,
                metadata: AuditMetadata::blank(),
            }),
    {
        PaymentGatewayDetail {
            id: new_entity_id(),
            payment_id,
            external_id: None,
            invoice_url: None,
            checkout_url: None,
            qr_code_url: None,
            virtual_account_number: None,
            virtual_account_bank: None,
            webhook_payload: None,
            webhook_received_at: None,
            metadata: AuditMetadata::default(),
        }
    }

    /// The record's id.
    pub fn id(&self) -> (r: &u128)
        ensures
            *r == self.id,
    {
        &self.id
    }

    /// The record's typed id.
    pub fn typed_id(&self) -> (r: PaymentGatewayDetailId)
        ensures
            r == PaymentGatewayDetailId(self.id),
    {
        PaymentGatewayDetailId(self.id)
    }

    /// When the record was created.
    pub fn created_at(&self) -> (r: Option<&i64>)
        ensures
            r is Some <==> self.metadata.created_at is Some,
            r is Some ==> r->0 == self.metadata.created_at->0,
    {
        self.metadata.created_at.as_ref()
    }

    /// When the record was last updated.
    pub fn updated_at(&self) -> (r: Option<&i64>)
        ensures
            r is Some <==> self.metadata.updated_at is Some,
            r is Some ==> r->0 == self.metadata.updated_at->0,
    {
        self.metadata.updated_at.as_ref()
    }

    /// Whether the record is soft-deleted.
    pub fn is_deleted(&self) -> (r: bool)
        ensures
            r == self.metadata.deleted_at is Some,
    {
        self.metadata.deleted_at.is_some()
    }

    /// Whether the record is active (not soft-deleted).
    pub fn is_active(&self) -> (r: bool)
        ensures
            r == self.metadata.deleted_at is None,
    {
        self.metadata.deleted_at.is_none()
    }

    /// When the record was soft-deleted.
    pub fn deleted_at(&self) -> (r: Option<&i64>)
        ensures
            r is Some <==> self.metadata.deleted_at is Some,
            r is Some ==> r->0 == self.metadata.deleted_at->0,
    {
        self.metadata.deleted_at.as_ref()
    }

    /// Who created the record.
    pub fn created_by(&self) -> (r: Option<&u128>)
        ensures
            r is Some <==> self.metadata.created_by is Some,
            r is Some ==> r->0 == self.metadata.created_by->0,
    {
        self.metadata.created_by.as_ref()
    }

    /// Who last updated the record.
    pub fn updated_by(&self) -> (r: Option<&u128>)
        ensures
            r is Some <==> self.metadata.updated_by is Some,
            r is Some ==> r->0 == self.metadata.updated_by->0,
    {
        self.metadata.updated_by.as_ref()
    }

    /// Who soft-deleted the record.
    pub fn deleted_by(&self) -> (r: Option<&u128>)
        ensures
            r is Some <==> self.metadata.deleted_by is Some,
            r is Some ==> r->0 == self.metadata.deleted_by->0,
    {
        self.metadata.deleted_by.as_ref()
    }

    /// The record with `external_id` set.
    pub fn with_external_id(self, value: String) -> (r: Self)
        ensures
            r == (PaymentGatewayDetail { external_id: Some(value), ..self }),
    {
        let mut s = self;
        s.external_id = Some(value);
        s
    }

    /// The record with `invoice_url` set.
    pub fn with_invoice_url(self, value: String) -> (r: Self)
        ensures
            r == (PaymentGatewayDetail { invoice_url: Some(value), ..self }),
    {
        let mut s = self;
        s.invoice_url = Some(value);
        s
    }

    /// The record with `checkout_url` set.
    pub fn with_checkout_url(self, value: String) -> (r: Self)
        ensures
            r == (PaymentGatewayDetail { checkout_url: Some(value), ..self }),
    {
        let mut s = self;
        s.checkout_url = Some(value);
        s
    }

    /// The record with `qr_code_url` set.
    pub fn with_qr_code_url(self, value: String) -> (r: Self)
        ensures
            r == (PaymentGatewayDetail { qr_code_url: Some(value), ..self }),
    {
        let mut s = self;
        s.qr_code_url = Some(value);
        s
    }

    /// The record with `virtual_account_number` set.
    pub fn with_virtual_account_number(self, value: String) -> (r: Self)
        ensures
            r == (PaymentGatewayDetail { virtual_account_number: Some(value), ..self }),
    {
        let mut s = self;
        s.virtual_account_number = Some(value);
        s
    }

    /// The record with `virtual_account_bank` set.
    pub fn with_virtual_account_bank(self, value: String) -> (r: Self)
        ensures
            r == (PaymentGatewayDetail { virtual_account_bank: Some(value), ..self }),
    {
        let mut s = self;
        s.virtual_account_bank = Some(value);
        s
    }

    /// The record with `webhook_payload` set.
    pub fn with_webhook_payload(self, value: String) -> (r: Self)
        ensures
            r == (PaymentGatewayDetail { webhook_payload: Some(value), ..self }),
    {
        let mut s = self;
        s.webhook_payload = Some(value);
        s
    }

    /// The record with `webhook_received_at` set.
    pub fn with_webhook_received_at(self, value: i64) -> (r: Self)
        ensures
            r == (PaymentGatewayDetail { webhook_received_at: Some(value), ..self }),
    {
        let mut s = self;
        s.webhook_received_at = Some(value);
        s
    }

    /// Apply a partial update: each field the patch holds replaces the record's value.
    pub fn apply_patch(&mut self, patch: PaymentGatewayDetailPatch)
        ensures
            *final(self) == patch.applied_to(*old(self)),
    {
        let PaymentGatewayDetailPatch {
            payment_id,
            external_id,
            invoice_url,
            checkout_url,
            qr_code_url,
            virtual_account_number,
            virtual_account_bank,
            webhook_payload,
            webhook_received_at,
        } = patch;
        replace_if_some(&mut self.payment_id, payment_id);
        replace_if_some(&mut self.external_id, external_id);
        replace_if_some(&mut self.invoice_url, invoice_url);
        replace_if_some(&mut self.checkout_url, checkout_url);
        replace_if_some(&mut self.qr_code_url, qr_code_url);
        replace_if_some(&mut self.virtual_account_number, virtual_account_number);
        replace_if_some(&mut self.virtual_account_bank, virtual_account_bank);
        replace_if_some(&mut self.webhook_payload, webhook_payload);
        replace_if_some(&mut self.webhook_received_at, webhook_received_at);
    }
}

/// A fluent builder of a [`PaymentGatewayDetail`]; the id and the audit data are set when it is built.
#[derive(Debug, Clone)]
pub struct PaymentGatewayDetailBuilder {
    pub payment_id: Option<u128>,
    pub external_id: Option<String>,
    pub invoice_url: Option<String>,
    pub checkout_url: Option<String>,
    pub qr_code_url: Option<String>,
    pub virtual_account_number: Option<String>,
    pub virtual_account_bank: Option<String>,
    pub webhook_payload: Option<String>,
    pub webhook_received_at: Option<i64>,
}

impl PaymentGatewayDetailBuilder {
    /// A builder with nothing set.
    pub open spec fn blank() -> Self {
        PaymentGatewayDetailBuilder { payment_id: None, external_id: None, invoice_url: None, checkout_url: None, qr_code_url: None, virtual_account_number: None, virtual_account_bank: None, webhook_payload: None, webhook_received_at: None }
    }

    /// Set `payment_id` (required).
    pub fn payment_id(self, value: u128) -> (r: Self)
        ensures
            r == (PaymentGatewayDetailBuilder { payment_id: Some(value), ..self }),
    {
        let mut s = self;
        s.payment_id = Some(value);
        s
    }

    /// Set `external_id` (optional).
    pub fn external_id(self, value: String) -> (r: Self)
        ensures
            r == (PaymentGatewayDetailBuilder { external_id: Some(value), ..self }),
    {
        let mut s = self;
        s.external_id = Some(value);
        s
    }

    /// Set `invoice_url` (optional).
    pub fn invoice_url(self, value: String) -> (r: Self)
        ensures
            r == (PaymentGatewayDetailBuilder { invoice_url: Some(value), ..self }),
    {
        let mut s = self;
        s.invoice_url = Some(value);
        s
    }

    /// Set `checkout_url` (optional).
    pub fn checkout_url(self, value: String) -> (r: Self)
        ensures
            r == (PaymentGatewayDetailBuilder { checkout_url: Some(value), ..self }),
    {
        let mut s = self;
        s.checkout_url = Some(value);
        s
    }

    /// Set `qr_code_url` (optional).
    pub fn qr_code_url(self, value: String) -> (r: Self)
        ensures
            r == (PaymentGatewayDetailBuilder { qr_code_url: Some(value), ..self }),
    {
        let mut s = self;
        s.qr_code_url = Some(value);
        s
    }

    /// Set `virtual_account_number` (optional).
    pub fn virtual_account_number(self, value: String) -> (r: Self)
        ensures
            r == (PaymentGatewayDetailBuilder { virtual_account_number: Some(value), ..self }),
    {
        let mut s = self;
        s.virtual_account_number = Some(value);
        s
    }

    /// Set `virtual_account_bank` (optional).
    pub fn virtual_account_bank(self, value: String) -> (r: Self)
        ensures
            r == (PaymentGatewayDetailBuilder { virtual_account_bank: Some(value), ..self }),
    {
        let mut s = self;
        s.virtual_account_bank = Some(value);
        s
    }

    /// Set `webhook_payload` (optional).
    pub fn webhook_payload(self, value: String) -> (r: Self)
        ensures
            r == (PaymentGatewayDetailBuilder { webhook_payload: Some(value), ..self }),
    {
        let mut s = self;
        s.webhook_payload = Some(value);
        s
    }

    /// Set `webhook_received_at` (optional).
    pub fn webhook_received_at(self, value: i64) -> (r: Self)
        ensures
            r == (PaymentGatewayDetailBuilder { webhook_received_at: Some(value), ..self }),
    {
        let mut s = self;
        s.webhook_received_at = Some(value);
        s
    }

    /// Build the record, with a fresh id and blank audit data; an error names the first
    /// required field that is missing. Unset fields with a default take it.
    pub fn build(self) -> (r: Result<PaymentGatewayDetail, String>)
        ensures
            match r {
                Ok(e) => {
                    &&& self.payment_id is Some
                    &&& e == (PaymentGatewayDetail {
                        id: e.id,
                        payment_id: self.payment_id.unwrap(),
                        external_id: self.external_id,
                        invoice_url: self.invoice_url,
                        checkout_url: self.checkout_url,
                        qr_code_url: self.qr_code_url,
                        virtual_account_number: self.virtual_account_number,
                        virtual_account_bank: self.virtual_account_bank,
                        webhook_payload: self.webhook_payload,
                        webhook_received_at: self.webhook_received_at,
                        metadata: AuditMetadata::blank()
                    })
                },
                Err(m) => if self.payment_id is None {
                    m@ == "payment_id is required"@
                } else {
                    false
                },
            },
    {
        let PaymentGatewayDetailBuilder {
            payment_id,
            external_id,
            invoice_url,
            checkout_url,
            qr_code_url,
            virtual_account_number,
            virtual_account_bank,
            webhook_payload,
            webhook_received_at,
        } = self;
        let payment_id = match payment_id {
            Some(v) => v,
            None => {
                return Err("payment_id is required".to_string());
            },
        };
        Ok(PaymentGatewayDetail {
            id: new_entity_id(),
            payment_id,
            external_id,
            invoice_url,
            checkout_url,
            qr_code_url,
            virtual_account_number,
            virtual_account_bank,
            webhook_payload,
            webhook_received_at,
            metadata: AuditMetadata::default(),
        })
    }
}

impl Default for PaymentGatewayDetailBuilder {
    fn default() -> (r: Self)
        ensures
            r == PaymentGatewayDetailBuilder::blank(),
    {
        PaymentGatewayDetailBuilder {
            payment_id: None,
            external_id: None,
            invoice_url: None,
            checkout_url: None,
            qr_code_url: None,
            virtual_account_number: None,
            virtual_account_bank: None,
            webhook_payload: None,
            webhook_received_at: None,
        }
    }
}

} // verus!
