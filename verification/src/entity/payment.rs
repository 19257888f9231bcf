//! The payment record (`Payment`): its typed id, constructor, accessors, partial update and
//! builder.
//!
//! Ids are 128-bit UUID values, timestamps are microseconds since the Unix epoch (UTC), and
//! JSON documents are held as their text.
use vstd::prelude::*;

use crate::dec::Dec;
use crate::domain::payable_type::PayableType;
use crate::domain::payee_type::PayeeType;
use crate::domain::payer_type::PayerType;
use crate::domain::payment_channel::PaymentChannel;
use crate::domain::payment_gateway::PaymentGateway;
use crate::domain::payment_transaction_status::PaymentTransactionStatus;
use crate::entity::new_entity_id;
use crate::entity::replace_if_some;
use crate::entity::AuditMetadata;

verus! {

broadcast use vstd::string::group_string_axioms;

/// Strongly-typed id of a [`Payment`].
#[derive(Debug, Clone, Copy, PartialEq, Eq, Hash, Structural)]
pub struct PaymentId(pub u128);

impl PaymentId {
    /// Wrap an id.
    pub fn new(id: u128) -> (r: Self)
        ensures
            r.0 == id,
    {
        PaymentId(id)
    }

    /// A fresh random id.
    pub fn generate() -> (r: Self) {
        PaymentId(new_entity_id())
    }

    /// The id inside.
    pub fn into_inner(self) -> (r: u128)
        ensures
            r == self.0,
    {
        self.0
    }
}

impl From<u128> for PaymentId {
    fn from(id: u128) -> (r: Self) {
        PaymentId(id)
    }
}

impl vstd::std_specs::convert::FromSpecImpl<u128> for PaymentId {
    open spec fn obeys_from_spec() -> bool {
        true
    }

    open spec fn from_spec(v: u128) -> Self {
        PaymentId(v)
    }
}

/// A payment record.
#[derive(Debug, Clone)]
pub struct Payment {
    pub id: u128,
    pub payment_number: String,
    pub payable_type: PayableType,
    pub payable_id: u128,
    pub order_id: Option<u128>,
    pub payer_type: PayerType,
    pub payer_id: u128,
    pub payee_type: PayeeType,
    pub payee_id: Option<u128>,
    pub currency: String,
    pub amount: Dec,
    pub net_amount: Dec,
    pub gateway: PaymentGateway,
    pub channel: PaymentChannel,
    pub status: PaymentTransactionStatus,
    pub expires_at: Option<i64>,
    pub paid_at: Option<i64>,
    pub failed_at: Option<i64>,
    pub cancelled_at: Option<i64>,
    pub failure_code: Option<String>,
    pub failure_message: Option<String>,
    pub settlement_id: Option<u128>,
    pub description: Option<String>,
    pub notes: Option<String>,
    pub data: String,
    pub metadata: AuditMetadata,
}

/// A partial update of a [`Payment`]: each field that is `Some` replaces the record's value.
#[derive(Debug, Clone)]
pub struct PaymentPatch {
    pub payment_number: Option<String>,
    pub payable_type: Option<PayableType>,
    pub payable_id: Option<u128>,
    pub order_id: Option<Option<u128>>,
    pub payer_type: Option<PayerType>,
    pub payer_id: Option<u128>,
    pub payee_type: Option<PayeeType>,
    pub payee_id: Option<Option<u128>>,
    pub currency: Option<String>,
    pub amount: Option<Dec>,
    pub net_amount: Option<Dec>,
    pub gateway: Option<PaymentGateway>,
    pub channel: Option<PaymentChannel>,
    pub status: Option<PaymentTransactionStatus>,
    pub expires_at: Option<Option<i64>>,
    pub paid_at: Option<Option<i64>>,
    pub failed_at: Option<Option<i64>>,
    pub cancelled_at: Option<Option<i64>>,
    pub failure_code: Option<Option<String>>,
    pub failure_message: Option<Option<String>>,
    pub settlement_id: Option<Option<u128>>,
    pub description: Option<Option<String>>,
    pub notes: Option<Option<String>>,
    pub data: Option<String>,
}

impl PaymentPatch {
    /// The record once this patch is applied.
    pub open spec fn applied_to(self, e: Payment) -> Payment {
        Payment {
            id: e.id,
            payment_number: match self.payment_number {
                Some(v) => v,
                None => e.payment_number,
            },
            payable_type: match self.payable_type {
                Some(v) => v,
                None => e.payable_type,
            },
            payable_id: match self.payable_id {
                Some(v) => v,
                None => e.payable_id,
            },
            order_id: match self.order_id {
                Some(v) => v,
                None => e.order_id,
            },
            payer_type: match self.payer_type {
                Some(v) => v,
                None => e.payer_type,
            },
            payer_id: match self.payer_id {
                Some(v) => v,
                None => e.payer_id,
            },
            payee_type: match self.payee_type {
                Some(v) => v,
                None => e.payee_type,
            },
            payee_id: match self.payee_id {
                Some(v) => v,
                None => e.payee_id,
            },
            currency: match self.currency {
                Some(v) => v,
                None => e.currency,
            },
            amount: match self.amount {
                Some(v) => v,
                None => e.amount,
            },
            net_amount: match self.net_amount {
                Some(v) => v,
                None => e.net_amount,
            },
            gateway: match self.gateway {
                Some(v) => v,
                None => e.gateway,
            },
            channel: match self.channel {
                Some(v) => v,
                None => e.channel,
            },
            status: match self.status {
                Some(v) => v,
                None => e.status,
            },
            expires_at: match self.expires_at {
                Some(v) => v,
                None => e.expires_at,
            },
            paid_at: match self.paid_at {
                Some(v) => v,
                None => e.paid_at,
            },
            failed_at: match self.failed_at {
                Some(v) => v,
                None => e.failed_at,
            },
            cancelled_at: match self.cancelled_at {
                Some(v) => v,
                None => e.cancelled_at,
            },
            failure_code: match self.failure_code {
                Some(v) => v,
                None => e.failure_code,
            },
            failure_message: match self.failure_message {
                Some(v) => v,
                None => e.failure_message,
            },
            settlement_id: match self.settlement_id {
                Some(v) => v,
                None => e.settlement_id,
            },
            description: match self.description {
                Some(v) => v,
                None => e.description,
            },
            notes: match self.notes {
                Some(v) => v,
                None => e.notes,
            },
            data: match self.data {
                Some(v) => v,
                None => e.data,
            },
            metadata: e.metadata,
        }
    }
}

impl Payment {
    /// A builder with nothing set.
    pub fn builder() -> (r: PaymentBuilder)
        ensures
            r == PaymentBuilder::blank(),
    {
        PaymentBuilder::default()
    }

    /// A new record from its required fields, with a fresh id, the other fields unset and blank
    /// audit data.
    pub fn new(
        payment_number: String,
        payable_type: PayableType,
        payable_id: u128,
        payer_type: PayerType,
        payer_id: u128,
        payee_type: PayeeType,
        currency: String,
        amount: Dec,
        net_amount: Dec,
        gateway: PaymentGateway,
        channel: PaymentChannel,
        status: PaymentTransactionStatus,
        data: String,
    ) -> (r: Self)
        ensures
            r == (Payment {
                id: r.id,
                payment_number,
                payable_type,
                payable_id,
                order_id: None,
                payer_type,
                payer_id,
                payee_type,
                payee_id: None,
                currency,
                amount,
                net_amount,
                gateway,
                channel,
                status,
                expires_at: None,
                paid_at: None,
                failed_at: None,
                cancelled_at: None,
                failure_code: None,
                failure_message: None,
                settlement_id: None,
                description: None,
                notes: None,
                data,
                metadata: AuditMetadata::blank(),
            }),
    {
        Payment {
            id: new_entity_id(),
            payment_number,
            payable_type,
            payable_id,
            order_id: None,
            payer_type,
            payer_id,
            payee_type,
            payee_id: None,
            currency,
            amount,
            net_amount,
            gateway,
            channel,
            status,
            expires_at: None,
            paid_at: None,
            failed_at: None,
            cancelled_at: None,
            failure_code: None,
            failure_message: None,
            settlement_id: None,
            description: None,
            notes: None,
            data,
            metadata: AuditMetadata::default(),
        }
    }

    /// The record's id.
    pub fn id(&self) -> (r: &u128)
        ensures
            *r == self.id,
    {
        &self.id
    }

    /// The record's typed id.
    pub fn typed_id(&self) -> (r: PaymentId)
        ensures
            r == PaymentId(self.id),
    {
        PaymentId(self.id)
    }

    /// When the record was created.
    pub fn created_at(&self) -> (r: Option<&i64>)
        ensures
            r is Some <==> self.metadata.created_at is Some,
            r is Some ==> r->0 == self.metadata.created_at->0,
    {
        self.metadata.created_at.as_ref()
    }

    /// When the record was last updated.
    pub fn updated_at(&self) -> (r: Option<&i64>)
        ensures
            r is Some <==> self.metadata.updated_at is Some,
            r is Some ==> r->0 == self.metadata.updated_at->0,
    {
        self.metadata.updated_at.as_ref()
    }

    /// Whether the record is soft-deleted.
    pub fn is_deleted(&self) -> (r: bool)
        ensures
            r == self.metadata.deleted_at is Some,
    {
        self.metadata.deleted_at.is_some()
    }

    /// Whether the record is active (not soft-deleted).
    pub fn is_active(&self) -> (r: bool)
        ensures
            r == self.metadata.deleted_at is None,
    {
        self.metadata.deleted_at.is_none()
    }

    /// When the record was soft-deleted.
    pub fn deleted_at(&self) -> (r: Option<&i64>)
        ensures
            r is Some <==> self.metadata.deleted_at is Some,
            r is Some ==> r->0 == self.metadata.deleted_at->0,
    {
        self.metadata.deleted_at.as_ref()
    }

    /// Who created the record.
    pub fn created_by(&self) -> (r: Option<&u128>)
        ensures
            r is Some <==> self.metadata.created_by is Some,
            r is Some ==> r->0 == self.metadata.created_by->0,
    {
        self.metadata.created_by.as_ref()
    }

    /// Who last updated the record.
    pub fn updated_by(&self) -> (r: Option<&u128>)
        ensures
            r is Some <==> self.metadata.updated_by is Some,
            r is Some ==> r->0 == self.metadata.updated_by->0,
    {
        self.metadata.updated_by.as_ref()
    }

    /// Who soft-deleted the record.
    pub fn deleted_by(&self) -> (r: Option<&u128>)
        ensures
            r is Some <==> self.metadata.deleted_by is Some,
            r is Some ==> r->0 == self.metadata.deleted_by->0,
    {
        self.metadata.deleted_by.as_ref()
    }

    /// The record's status.
    pub fn status(&self) -> (r: &PaymentTransactionStatus)
        ensures
            *r == self.status,
    {
        &self.status
    }

    /// The record with `order_id` set.
    pub fn with_order_id(self, value: u128) -> (r: Self)
        ensures
            r == (Payment { order_id: Some(value), ..self }),
    {
        let mut s = self;
        s.order_id = Some(value);
        s
    }

    /// The record with `payee_id` set.
    pub fn with_payee_id(self, value: u128) -> (r: Self)
        ensures
            r == (Payment { payee_id: Some(value), ..self }),
    {
        let mut s = self;
        s.payee_id = Some(value);
        s
    }

    /// The record with `expires_at` set.
    pub fn with_expires_at(self, value: i64) -> (r: Self)
        ensures
            r == (Payment { expires_at: Some(value), ..self }),
    {
        let mut s = self;
        s.expires_at = Some(value);
        s
    }

    /// The record with `paid_at` set.
    pub fn with_paid_at(self, value: i64) -> (r: Self)
        ensures
            r == (Payment { paid_at: Some(value), ..self }),
    {
        let mut s = self;
        s.paid_at = Some(value);
        s
    }

    /// The record with `failed_at` set.
    pub fn with_failed_at(self, value: i64) -> (r: Self)
        ensures
            r == (Payment { failed_at: Some(value), ..self }),
    {
        let mut s = self;
        s.failed_at = Some(value);
        s
    }

    /// The record with `cancelled_at` set.
    pub fn with_cancelled_at(self, value: i64) -> (r: Self)
        ensures
            r == (Payment { cancelled_at: Some(value), ..self }),
    {
        let mut s = self;
        s.cancelled_at = Some(value);
        s
    }

    /// The record with `failure_code` set.
    pub fn with_failure_code(self, value: String) -> (r: Self)
        ensures
            r == (Payment { failure_code: Some(value), ..self }),
    {
        let mut s = self;
        s.failure_code = Some(value);
        s
    }

    /// The record with `failure_message` set.
    pub fn with_failure_message(self, value: String) -> (r: Self)
        ensures
            r == (Payment { failure_message: Some(value), ..self }),
    {
        let mut s = self;
        s.failure_message = Some(value);
        s
    }

    /// The record with `settlement_id` set.
    pub fn with_settlement_id(self, value: u128) -> (r: Self)
        ensures
            r == (Payment { settlement_id: Some(value), ..self }),
    {
        let mut s = self;
        s.settlement_id = Some(value);
        s
    }

    /// The record with `description` set.
    pub fn with_description(self, value: String) -> (r: Self)
        ensures
            r == (Payment { description: Some(value), ..self }),
    {
        let mut s = self;
        s.description = Some(value);
        s
    }

    /// The record with `notes` set.
    pub fn with_notes(self, value: String) -> (r: Self)
        ensures
            r == (Payment { notes: Some(value), ..self }),
    {
        let mut s = self;
        s.notes = Some(value);
        s
    }

    /// Apply a partial update: each field the patch holds replaces the record's value.
    pub fn apply_patch(&mut self, patch: PaymentPatch)
        ensures
            *final(self) == patch.applied_to(*old(self)),
    {
        let PaymentPatch {
            payment_number,
            payable_type,
            payable_id,
            order_id,
            payer_type,
            payer_id,
            payee_type,
            payee_id,
            currency,
            amount,
            net_amount,
            gateway,
            channel,
            status,
            expires_at,
            paid_at,
            failed_at,
            cancelled_at,
            failure_code,
            failure_message,
            settlement_id,
            description,
            notes,
            data,
        } = patch;
        replace_if_some(&mut self.payment_number, payment_number);
        replace_if_some(&mut self.payable_type, payable_type);
        replace_if_some(&mut self.payable_id, payable_id);
        replace_if_some(&mut self.order_id, order_id);
        replace_if_some(&mut self.payer_type, payer_type);
        replace_if_some(&mut self.payer_id, payer_id);
        replace_if_some(&mut self.payee_type, payee_type);
        replace_if_some(&mut self.payee_id, payee_id);
        replace_if_some(&mut self.currency, currency);
        replace_if_some(&mut self.amount, amount);
        replace_if_some(&mut self.net_amount, net_amount);
        replace_if_some(&mut self.gateway, gateway);
        replace_if_some(&mut self.channel, channel);
        replace_if_some(&mut self.status, status);
        replace_if_some(&mut self.expires_at, expires_at);
        replace_if_some(&mut self.paid_at, paid_at);
        replace_if_some(&mut self.failed_at, failed_at);
        replace_if_some(&mut self.cancelled_at, cancelled_at);
        replace_if_some(&mut self.failure_code, failure_code);
        replace_if_some(&mut self.failure_message, failure_message);
        replace_if_some(&mut self.settlement_id, settlement_id);
        replace_if_some(&mut self.description, description);
        replace_if_some(&mut self.notes, notes);
        replace_if_some(&mut self.data, data);
    }
}

/// A fluent builder of a [`Payment`]; the id and the audit data are set when it is built.
#[derive(Debug, Clone)]
pub struct PaymentBuilder {
    pub payment_number: Option<String>,
    pub payable_type: Option<PayableType>,
    pub payable_id: Option<u128>,
    pub order_id: Option<u128>,
    pub payer_type: Option<PayerType>,
    pub payer_id: Option<u128>,
    pub payee_type: Option<PayeeType>,
    pub payee_id: Option<u128>,
    pub currency: Option<String>,
    pub amount: Option<Dec>,
    pub net_amount: Option<Dec>,
    pub gateway: Option<PaymentGateway>,
    pub channel: Option<PaymentChannel>,
    pub status: Option<PaymentTransactionStatus>,
    pub expires_at: Option<i64>,
    pub paid_at: Option<i64>,
    pub failed_at: Option<i64>,
    pub cancelled_at: Option<i64>,
    pub failure_code: Option<String>,
    pub failure_message: Option<String>,
    pub settlement_id: Option<u128>,
    pub description: Option<String>,
    pub notes: Option<String>,
    pub data: Option<String>,
}

impl PaymentBuilder {
    /// A builder with nothing set.
    pub open spec fn blank() -> Self {
        PaymentBuilder { payment_number: None, payable_type: None, payable_id: None, order_id: None, payer_type: None, payer_id: None, payee_type: None, payee_id: None, currency: None, amount: None, net_amount: None, gateway: None, channel: None, status: None, expires_at: None, paid_at: None, failed_at: None, cancelled_at: None, failure_code: None, failure_message: None, settlement_id: None, description: None, notes: None, data: None }
    }

    /// Set `payment_number` (required).
    pub fn payment_number(self, value: String) -> (r: Self)
        ensures
            r == (PaymentBuilder { payment_number: Some(value), ..self }),
    {
        let mut s = self;
        s.payment_number = Some(value);
        s
    }

    /// Set `payable_type` (required).
    pub fn payable_type(self, value: PayableType) -> (r: Self)
        ensures
            r == (PaymentBuilder { payable_type: Some(value), ..self }),
    {
        let mut s = self;
        s.payable_type = Some(value);
        s
    }

    /// Set `payable_id` (required).
    pub fn payable_id(self, value: u128) -> (r: Self)
        ensures
            r == (PaymentBuilder { payable_id: Some(value), ..self }),
    {
        let mut s = self;
        s.payable_id = Some(value);
        s
    }

    /// Set `order_id` (optional).
    pub fn order_id(self, value: u128) -> (r: Self)
        ensures
            r == (PaymentBuilder { order_id: Some(value), ..self }),
    {
        let mut s = self;
        s.order_id = Some(value);
        s
    }

    /// Set `payer_type` (required).
    pub fn payer_type(self, value: PayerType) -> (r: Self)
        ensures
            r == (PaymentBuilder { payer_type: Some(value), ..self }),
    {
        let mut s = self;
        s.payer_type = Some(value);
        s
    }

    /// Set `payer_id` (required).
    pub fn payer_id(self, value: u128) -> (r: Self)
        ensures
            r == (PaymentBuilder { payer_id: Some(value), ..self }),
    {
        let mut s = self;
        s.payer_id = Some(value);
        s
    }

    /// Set `payee_type` (required).
    pub fn payee_type(self, value: PayeeType) -> (r: Self)
        ensures
            r == (PaymentBuilder { payee_type: Some(value), ..self }),
    {
        let mut s = self;
        s.payee_type = Some(value);
        s
    }

    /// Set `payee_id` (optional).
    pub fn payee_id(self, value: u128) -> (r: Self)
        ensures
            r == (PaymentBuilder { payee_id: Some(value), ..self }),
    {
        let mut s = self;
        s.payee_id = Some(value);
        s
    }

    /// Set `currency` (has a default).
    pub fn currency(self, value: String) -> (r: Self)
        ensures
            r == (PaymentBuilder { currency: Some(value), ..self }),
    {
        let mut s = self;
        s.currency = Some(value);
        s
    }

    /// Set `amount` (required).
    pub fn amount(self, value: Dec) -> (r: Self)
        ensures
            r == (PaymentBuilder { amount: Some(value), ..self }),
    {
        let mut s = self;
        s.amount = Some(value);
        s
    }

    /// Set `net_amount` (required).
    pub fn net_amount(self, value: Dec) -> (r: Self)
        ensures
            r == (PaymentBuilder { net_amount: Some(value), ..self }),
    {
        let mut s = self;
        s.net_amount = Some(value);
        s
    }

    /// Set `gateway` (has a default).
    pub fn gateway(self, value: PaymentGateway) -> (r: Self)
        ensures
            r == (PaymentBuilder { gateway: Some(value), ..self }),
    {
        let mut s = self;
        s.gateway = Some(value);
        s
    }

    /// Set `channel` (required).
    pub fn channel(self, value: PaymentChannel) -> (r: Self)
        ensures
            r == (PaymentBuilder { channel: Some(value), ..self }),
    {
        let mut s = self;
        s.channel = Some(value);
        s
    }

    /// Set `status` (has a default).
    pub fn status(self, value: PaymentTransactionStatus) -> (r: Self)
        ensures
            r == (PaymentBuilder { status: Some(value), ..self }),
    {
        let mut s = self;
        s.status = Some(value);
        s
    }

    /// Set `expires_at` (optional).
    pub fn expires_at(self, value: i64) -> (r: Self)
        ensures
            r == (PaymentBuilder { expires_at: Some(value), ..self }),
    {
        let mut s = self;
        s.expires_at = Some(value);
        s
    }

    /// Set `paid_at` (optional).
    pub fn paid_at(self, value: i64) -> (r: Self)
        ensures
            r == (PaymentBuilder { paid_at: Some(value), ..self }),
    {
        let mut s = self;
        s.paid_at = Some(value);
        s
    }

    /// Set `failed_at` (optional).
    pub fn failed_at(self, value: i64) -> (r: Self)
        ensures
            r == (PaymentBuilder { failed_at: Some(value), ..self }),
    {
        let mut s = self;
        s.failed_at = Some(value);
        s
    }

    /// Set `cancelled_at` (optional).
    pub fn cancelled_at(self, value: i64) -> (r: Self)
        ensures
            r == (PaymentBuilder { cancelled_at: Some(value), ..self }),
    {
        let mut s = self;
        s.cancelled_at = Some(value);
        s
    }

    /// Set `failure_code` (optional).
    pub fn failure_code(self, value: String) -> (r: Self)
        ensures
            r == (PaymentBuilder { failure_code: Some(value), ..self }),
    {
        let mut s = self;
        s.failure_code = Some(value);
        s
    }

    /// Set `failure_message` (optional).
    pub fn failure_message(self, value: String) -> (r: Self)
        ensures
            r == (PaymentBuilder { failure_message: Some(value), ..self }),
    {
        let mut s = self;
        s.failure_message = Some(value);
        s
    }

    /// Set `settlement_id` (optional).
    pub fn settlement_id(self, value: u128) -> (r: Self)
        ensures
            r == (PaymentBuilder { settlement_id: Some(value), ..self }),
    {
        let mut s = self;
        s.settlement_id = Some(value);
        s
    }

    /// Set `description` (optional).
    pub fn description(self, value: String) -> (r: Self)
        ensures
            r == (PaymentBuilder { description: Some(value), ..self }),
    {
        let mut s = self;
        s.description = Some(value);
        s
    }

    /// Set `notes` (optional).
    pub fn notes(self, value: String) -> (r: Self)
        ensures
            r == (PaymentBuilder { notes: Some(value), ..self }),
    {
        let mut s = self;
        s.notes = Some(value);
        s
    }

    /// Set `data` (has a default).
    pub fn data(self, value: String) -> (r: Self)
        ensures
            r == (PaymentBuilder { data: Some(value), ..self }),
    {
        let mut s = self;
        s.data = Some(value);
        s
    }

    /// Build the record, with a fresh id and blank audit data; an error names the first
    /// required field that is missing. Unset fields with a default take it.
    pub fn build(self) -> (r: Result<Payment, String>)
        ensures
            match r {
                Ok(e) => {
                    &&& self.payment_number is Some
                    &&& self.payable_type is Some
                    &&& self.payable_id is Some
                    &&& self.payer_type is Some
                    &&& self.payer_id is Some
                    &&& self.payee_type is Some
                    &&& self.amount is Some
                    &&& self.net_amount is Some
                    &&& self.channel is Some
                    &&& e == (Payment {
                        id: e.id,
                        payment_number: self.payment_number.unwrap(),
                        payable_type: self.payable_type.unwrap(),
                        payable_id: self.payable_id.unwrap(),
                        order_id: self.order_id,
                        payer_type: self.payer_type.unwrap(),
                        payer_id: self.payer_id.unwrap(),
                        payee_type: self.payee_type.unwrap(),
                        payee_id: self.payee_id,
                        currency: e.currency,
                        amount: self.amount.unwrap(),
                        net_amount: self.net_amount.unwrap(),
                        gateway: match self.gateway {
                            Some(v) => v,
                            None => PaymentGateway::Xendit,
                        },
                        channel: self.channel.unwrap(),
                        status: match self.status {
                            Some(v) => v,
                            None => PaymentTransactionStatus::Pending,
                        },
                        expires_at: self.expires_at,
                        paid_at: self.paid_at,
                        failed_at: self.failed_at,
                        cancelled_at: self.cancelled_at,
                        failure_code: self.failure_code,
                        failure_message: self.failure_message,
                        settlement_id: self.settlement_id,
                        description: self.description,
                        notes: self.notes,
                        data: e.data,
                        metadata: AuditMetadata::blank()
                    })
                    &&& e.currency@ == match self.currency {
                        Some(v) => v@,
                        None => "IDR"@,
                    }
                    &&& e.data@ == match self.data {
                        Some(v) => v@,
                        None => "{\"is_refunded\":false,\"is_settled\":false,\"payer_email\":null,\"payer_name\":null,\"payer_phone\":null,\"refunded_amount\":0,\"settled_at\":null}"@,
                    }
                },
                Err(m) => if self.payment_number is None {
                    m@ == "payment_number is required"@
                } else if self.payable_type is None {
                    m@ == "payable_type is required"@
                } else if self.payable_id is None {
                    m@ == "payable_id is required"@
                } else if self.payer_type is None {
                    m@ == "payer_type is required"@
                } else if self.payer_id is None {
                    m@ == "payer_id is required"@
                } else if self.payee_type is None {
                    m@ == "payee_type is required"@
                } else if self.amount is None {
                    m@ == "amount is required"@
                } else if self.net_amount is None {
                    m@ == "net_amount is required"@
                } else if self.channel is None {
                    m@ == "channel is required"@
                } else {
                    false
                },
            },
    {
        let PaymentBuilder {
            payment_number,
            payable_type,
            payable_id,
            order_id,
            payer_type,
            payer_id,
            payee_type,
            payee_id,
            currency,
            amount,
            net_amount,
            gateway,
            channel,
            status,
            expires_at,
            paid_at,
            failed_at,
            cancelled_at,
            failure_code,
            failure_message,
            settlement_id,
            description,
            notes,
            data,
        } = self;
        let payment_number = match payment_number {
            Some(v) => v,
            None => {
                return Err("payment_number is required".to_string());
            },
        };
        let payable_type = match payable_type {
            Some(v) => v,
            None => {
                return Err("payable_type is required".to_string());
            },
        };
        let payable_id = match payable_id {
            Some(v) => v,
            None => {
                return Err("payable_id is required".to_string());
            },
        };
        let payer_type = match payer_type {
            Some(v) => v,
            None => {
                return Err("payer_type is required".to_string());
            },
        };
        let payer_id = match payer_id {
            Some(v) => v,
            None => {
                return Err("payer_id is required".to_string());
            },
        };
        let payee_type = match payee_type {
            Some(v) => v,
            None => {
                return Err("payee_type is required".to_string());
            },
        };
        let amount = match amount {
            Some(v) => v,
            None => {
                return Err("amount is required".to_string());
            },
        };
        let net_amount = match net_amount {
            Some(v) => v,
            None => {
                return Err("net_amount is required".to_string());
            },
        };
        let channel = match channel {
            Some(v) => v,
            None => {
                return Err("channel is required".to_string());
            },
        };
        Ok(Payment {
            id: new_entity_id(),
            payment_number,
            payable_type,
            payable_id,
            order_id,
            payer_type,
            payer_id,
            payee_type,
            payee_id,
            currency: match currency {
                Some(v) => v,
                None => "IDR".to_string(),
            },
            amount,
            net_amount,
            gateway: match gateway {
                Some(v) => v,
                None => PaymentGateway::default(),
            },
            channel,
            status: match status {
                Some(v) => v,
                None => PaymentTransactionStatus::default(),
            },
            expires_at,
            paid_at,
            failed_at,
            cancelled_at,
            failure_code,
            failure_message,
            settlement_id,
            description,
            notes,
            data: match data {
                Some(v) => v,
                None => "{\"is_refunded\":false,\"is_settled\":false,\"payer_email\":null,\"payer_name\":null,\"payer_phone\":null,\"refunded_amount\":0,\"settled_at\":null}".to_string(),
            },
            metadata: AuditMetadata::default(),
        })
    }
}

impl Default for PaymentBuilder {
    fn default() -> (r: Self)
        ensures
            r == PaymentBuilder::blank(),
    {
        PaymentBuilder {
            payment_number: None,
            payable_type: None,
            payable_id: None,
            order_id: None,
            payer_type: None,
            payer_id: None,
            payee_type: None,
            payee_id: None,
            currency: None,
            amount: None,
            net_amount: None,
            gateway: None,
            channel: None,
            status: None,
            expires_at: None,
            paid_at: None,
            failed_at: None,
            cancelled_at: None,
            failure_code: None,
            failure_message: None,
            settlement_id: None,
            description: None,
            notes: None,
            data: None,
        }
    }
}

} // verus!
