//! The refund request record (`RefundRequest`): its typed id, constructor, accessors, partial update and
//! builder.
//!
//! Ids are 128-bit UUID values, timestamps are microseconds since the Unix epoch (UTC), and
//! JSON documents are held as their text.
use vstd::prelude::*;

use crate::dec::Dec;
use crate::domain::refund_method::RefundMethod;
use crate::domain::refund_reason::RefundReason;
use crate::domain::refund_status::RefundStatus;
use crate::entity::new_entity_id;
use crate::entity::replace_if_some;
use crate::entity::AuditMetadata;

verus! {

broadcast use vstd::string::group_string_axioms;

/// Strongly-typed id of a [`RefundRequest`].
#[derive(Debug, Clone, Copy, PartialEq, Eq, Hash, Structural)]
pub struct RefundRequestId(pub u128);

impl RefundRequestId {
    /// Wrap an id.
    pub fn new(id: u128) -> (r: Self)
        ensures
            r.0 == id,
    {
        RefundRequestId(id)
    }

    /// A fresh random id.
    pub fn generate() -> (r: Self) {
        RefundRequestId(new_entity_id())
    }

    /// The id inside.
    pub fn into_inner(self) -> (r: u128)
        ensures
            r == self.0,
    {
        self.0
    }
}

impl From<u128> for RefundRequestId {
    fn from(id: u128) -> (r: Self) {
        RefundRequestId(id)
    }
}

impl vstd::std_specs::convert::FromSpecImpl<u128> for RefundRequestId {
    open spec fn obeys_from_spec() -> bool {
        true
    }

    open spec fn from_spec(v: u128) -> Self {
        RefundRequestId(v)
    }
}

/// A refund request record.
#[derive(Debug, Clone)]
pub struct RefundRequest {
    pub id: u128,
    pub refund_number: String,
    pub payment_id: u128,
    pub order_id: Option<u128>,
    pub requester_type: String,
    pub requester_id: u128,
    pub requester_name: Option<String>,
    pub currency: String,
    pub original_amount: Dec,
    pub requested_amount: Dec,
    pub approved_amount: Option<Dec>,
    pub refunded_amount: Dec,
    pub reason: RefundReason,
    pub reason_detail: Option<String>,
    pub evidence_urls: String,
    pub status: RefundStatus,
    pub reviewed_by: Option<u128>,
    pub reviewed_at: Option<i64>,
    pub review_notes: Option<String>,
    pub approved_by: Option<u128>,
    pub approved_at: Option<i64>,
    pub approval_notes: Option<String>,
    pub rejected_by: Option<u128>,
    pub rejected_at: Option<i64>,
    pub rejection_reason: Option<String>,
    pub processing_started_at: Option<i64>,
    pub completed_at: Option<i64>,
    pub failed_at: Option<i64>,
    pub failure_reason: Option<String>,
    pub gateway_refund_id: Option<String>,
    pub gateway_status: Option<String>,
    pub refund_method: Option<RefundMethod>,
    pub bank_name: Option<String>,
    pub account_number: Option<String>,
    pub account_name: Option<String>,
    pub customer_notified: bool,
    pub customer_notified_at: Option<i64>,
    pub notes: Option<String>,
    pub metadata: AuditMetadata,
}

/// A partial update of a [`RefundRequest`]: each field that is `Some` replaces the record's value.
#[derive(Debug, Clone)]
pub struct RefundRequestPatch {
    pub refund_number: Option<String>,
    pub payment_id: Option<u128>,
    pub order_id: Option<Option<u128>>,
    pub requester_type: Option<String>,
    pub requester_id: Option<u128>,
    pub requester_name: Option<Option<String>>,
    pub currency: Option<String>,
    pub original_amount: Option<Dec>,
    pub requested_amount: Option<Dec>,
    pub approved_amount: Option<Option<Dec>>,
    pub refunded_amount: Option<Dec>,
    pub reason: Option<RefundReason>,
    pub reason_detail: Option<Option<String>>,
    pub evidence_urls: Option<String>,
    pub status: Option<RefundStatus>,
    pub reviewed_by: Option<Option<u128>>,
    pub reviewed_at: Option<Option<i64>>,
    pub review_notes: Option<Option<String>>,
    pub approved_by: Option<Option<u128>>,
    pub approved_at: Option<Option<i64>>,
    pub approval_notes: Option<Option<String>>,
    pub rejected_by: Option<Option<u128>>,
    pub rejected_at: Option<Option<i64>>,
    pub rejection_reason: Option<Option<String>>,
    pub processing_started_at: Option<Option<i64>>,
    pub completed_at: Option<Option<i64>>,
    pub failed_at: Option<Option<i64>>,
    pub failure_reason: Option<Option<String>>,
    pub gateway_refund_id: Option<Option<String>>,
    pub gateway_status: Option<Option<String>>,
    pub refund_method: Option<Option<RefundMethod>>,
    pub bank_name: Option<Option<String>>,
    pub account_number: Option<Option<String>>,
    pub account_name: Option<Option<String>>,
    pub customer_notified: Option<bool>,
    pub customer_notified_at: Option<Option<i64>>,
    pub notes: Option<Option<String>>,
}

impl RefundRequestPatch {
    /// The record once this patch is applied.
    pub open spec fn applied_to(self, e: RefundRequest) -> RefundRequest {
        RefundRequest {
            id: e.id,
            refund_number: match self.refund_number {
                Some(v) => v,
                None => e.refund_number,
            },
            payment_id: match self.payment_id {
                Some(v) => v,
                None => e.payment_id,
            },
            order_id: match self.order_id {
                Some(v) => v,
                None => e.order_id,
            },
            requester_type: match self.requester_type {
                Some(v) => v,
                None => e.requester_type,
            },
            requester_id: match self.requester_id {
                Some(v) => v,
                None => e.requester_id,
            },
            requester_name: match self.requester_name {
                Some(v) => v,
                None => e.requester_name,
            },
            currency: match self.currency {
                Some(v) => v,
                None => e.currency,
            },
            original_amount: match self.original_amount {
                Some(v) => v,
                None => e.original_amount,
            },
            requested_amount: match self.requested_amount {
                Some(v) => v,
                None => e.requested_amount,
            },
            approved_amount: match self.approved_amount {
                Some(v) => v,
                None => e.approved_amount,
            },
            refunded_amount: match self.refunded_amount {
                Some(v) => v,
                None => e.refunded_amount,
            },
            reason: match self.reason {
                Some(v) => v,
                None => e.reason,
            },
            reason_detail: match self.reason_detail {
                Some(v) => v,
                None => e.reason_detail,
            },
            evidence_urls: match self.evidence_urls {
                Some(v) => v,
                None => e.evidence_urls,
            },
            status: match self.status {
                Some(v) => v,
                None => e.status,
            },
            reviewed_by: match self.reviewed_by {
                Some(v) => v,
                None => e.reviewed_by,
            },
            reviewed_at: match self.reviewed_at {
                Some(v) => v,
                None => e.reviewed_at,
            },
            review_notes: match self.review_notes {
                Some(v) => v,
                None => e.review_notes,
            },
            approved_by: match self.approved_by {
                Some(v) => v,
                None => e.approved_by,
            },
            approved_at: match self.approved_at {
                Some(v) => v,
                None => e.approved_at,
            },
            approval_notes: match self.approval_notes {
                Some(v) => v,
                None => e.approval_notes,
            },
            rejected_by: match self.rejected_by {
                Some(v) => v,
                None => e.rejected_by,
            },
            rejected_at: match self.rejected_at {
                Some(v) => v,
                None => e.rejected_at,
            },
            rejection_reason: match self.rejection_reason {
                Some(v) => v,
                None => e.rejection_reason,
            },
            processing_started_at: match self.processing_started_at {
                Some(v) => v,
                None => e.processing_started_at,
            },
            completed_at: match self.completed_at {
                Some(v) => v,
                None => e.completed_at,
            },
            failed_at: match self.failed_at {
                Some(v) => v,
                None => e.failed_at,
            },
            failure_reason: match self.failure_reason {
                Some(v) => v,
                None => e.failure_reason,
            },
            gateway_refund_id: match self.gateway_refund_id {
                Some(v) => v,
                None => e.gateway_refund_id,
            },
            gateway_status: match self.gateway_status {
                Some(v) => v,
                None => e.gateway_status,
            },
            refund_method: match self.refund_method {
                Some(v) => v,
                None => e.refund_method,
            },
            bank_name: match self.bank_name {
                Some(v) => v,
                None => e.bank_name,
            },
            account_number: match self.account_number {
                Some(v) => v,
                None => e.account_number,
            },
            account_name: match self.account_name {
                Some(v) => v,
                None => e.account_name,
            },
            customer_notified: match self.customer_notified {
                Some(v) => v,
                None => e.customer_notified,
            },
            customer_notified_at: match self.customer_notified_at {
                Some(v) => v,
                None => e.customer_notified_at,
            },
            notes: match self.notes {
                Some(v) => v,
                None => e.notes,
            },
            metadata: e.metadata,
        }
    }
}

impl RefundRequest {
    /// A builder with nothing set.
    pub fn builder() -> (r: RefundRequestBuilder)
        ensures
            r == RefundRequestBuilder::blank(),
    {
        RefundRequestBuilder::default()
    }

    /// A new record from its required fields, with a fresh id, the other fields unset and blank
    /// audit data.
    pub fn new(
        refund_number: String,
        payment_id: u128,
        requester_type: String,
        requester_id: u128,
        currency: String,
        original_amount: Dec,
        requested_amount: Dec,
        refunded_amount: Dec,
        reason: RefundReason,
        evidence_urls: String,
        status: RefundStatus,
        customer_notified: bool,
    ) -> (r: Self)
        ensures
            r == (RefundRequest {
                id: r.id,
                refund_number,
                payment_id,
                order_id: None,
                requester_type,
                requester_id,
                requester_name: None,
                currency,
                original_amount,
                requested_amount,
                approved_amount: None,
                refunded_amount,
                reason,
                reason_detail: None,
                evidence_urls,
                status,
                reviewed_by: None,
                reviewed_at: None,
                review_notes: None,
                approved_by: None,
                approved_at: None,
                approval_notes: None,
                rejected_by: None,
                rejected_at: None,
                rejection_reason: None,
                processing_started_at: None,
                completed_at: None,
                failed_at: None,
                failure_reason: None,
                gateway_refund_id: None,
                gateway_status: None,
                refund_method: None,
                bank_name: None,
                account_number: None,
                account_name: None,
                customer_notified,
                customer_notified_at: None,
                notes: None,
                metadata: AuditMetadata::blank(),
            }),
    {
        RefundRequest {
            id: new_entity_id(),
            refund_number,
            payment_id,
            order_id: None,
            requester_type,
            requester_id,
            requester_name: None,
            currency,
            original_amount,
            requested_amount,
            approved_amount: None,
            refunded_amount,
            reason,
            reason_detail: None,
            evidence_urls,
            status,
            reviewed_by: None,
            reviewed_at: None,
            review_notes: None,
            approved_by: None,
            approved_at: None,
            approval_notes: None,
            rejected_by: None,
            rejected_at: None,
            rejection_reason: None,
            processing_started_at: None,
            completed_at: None,
            failed_at: None,
            failure_reason: None,
            gateway_refund_id: None,
            gateway_status: None,
            refund_method: None,
            bank_name: None,
            account_number: None,
            account_name: None,
            customer_notified,
            customer_notified_at: None,
            notes: None,
            metadata: AuditMetadata::default(),
        }
    }

    /// The record's id.
    pub fn id(&self) -> (r: &u128)
        ensures
            *r == self.id,
    {
        &self.id
    }

    /// The record's typed id.
    pub fn typed_id(&self) -> (r: RefundRequestId)
        ensures
            r == RefundRequestId(self.id),
    {
        RefundRequestId(self.id)
    }

    /// When the record was created.
    pub fn created_at(&self) -> (r: Option<&i64>)
        ensures
            r is Some <==> self.metadata.created_at is Some,
            r is Some ==> r->0 == self.metadata.created_at->0,
    {
        self.metadata.created_at.as_ref()
    }

    /// When the record was last updated.
    pub fn updated_at(&self) -> (r: Option<&i64>)
        ensures
            r is Some <==> self.metadata.updated_at is Some,
            r is Some ==> r->0 == self.metadata.updated_at->0,
    {
        self.metadata.updated_at.as_ref()
    }

    /// Whether the record is soft-deleted.
    pub fn is_deleted(&self) -> (r: bool)
        ensures
            r == self.metadata.deleted_at is Some,
    {
        self.metadata.deleted_at.is_some()
    }

    /// Whether the record is active (not soft-deleted).
    pub fn is_active(&self) -> (r: bool)
        ensures
            r == self.metadata.deleted_at is None,
    {
        self.metadata.deleted_at.is_none()
    }

    /// When the record was soft-deleted.
    pub fn deleted_at(&self) -> (r: Option<&i64>)
        ensures
            r is Some <==> self.metadata.deleted_at is Some,
            r is Some ==> r->0 == self.metadata.deleted_at->0,
    {
        self.metadata.deleted_at.as_ref()
    }

    /// Who created the record.
    pub fn created_by(&self) -> (r: Option<&u128>)
        ensures
            r is Some <==> self.metadata.created_by is Some,
            r is Some ==> r->0 == self.metadata.created_by->0,
    {
        self.metadata.created_by.as_ref()
    }

    /// Who last updated the record.
    pub fn updated_by(&self) -> (r: Option<&u128>)
        ensures
            r is Some <==> self.metadata.updated_by is Some,
            r is Some ==> r->0 == self.metadata.updated_by->0,
    {
        self.metadata.updated_by.as_ref()
    }

    /// Who soft-deleted the record.
    pub fn deleted_by(&self) -> (r: Option<&u128>)
        ensures
            r is Some <==> self.metadata.deleted_by is Some,
            r is Some ==> r->0 == self.metadata.deleted_by->0,
    {
        self.metadata.deleted_by.as_ref()
    }

    /// The record's status.
    pub fn status(&self) -> (r: &RefundStatus)
        ensures
            *r == self.status,
    {
        &self.status
    }

    /// The record with `order_id` set.
    pub fn with_order_id(self, value: u128) -> (r: Self)
        ensures
            r == (RefundRequest { order_id: Some(value), ..self }),
    {
        let mut s = self;
        s.order_id = Some(value);
        s
    }

    /// The record with `requester_name` set.
    pub fn with_requester_name(self, value: String) -> (r: Self)
        ensures
            r == (RefundRequest { requester_name: Some(value), ..self }),
    {
        let mut s = self;
        s.requester_name = Some(value);
        s
    }

    /// The record with `approved_amount` set.
    pub fn with_approved_amount(self, value: Dec) -> (r: Self)
        ensures
            r == (RefundRequest { approved_amount: Some(value), ..self }),
    {
        let mut s = self;
        s.approved_amount = Some(value);
        s
    }

    /// The record with `reason_detail` set.
    pub fn with_reason_detail(self, value: String) -> (r: Self)
        ensures
            r == (RefundRequest { reason_detail: Some(value), ..self }),
    {
        let mut s = self;
        s.reason_detail = Some(value);
        s
    }

    /// The record with `reviewed_by` set.
    pub fn with_reviewed_by(self, value: u128) -> (r: Self)
        ensures
            r == (RefundRequest { reviewed_by: Some(value), ..self }),
    {
        let mut s = self;
        s.reviewed_by = Some(value);
        s
    }

    /// The record with `reviewed_at` set.
    pub fn with_reviewed_at(self, value: i64) -> (r: Self)
        ensures
            r == (RefundRequest { reviewed_at: Some(value), ..self }),
    {
        let mut s = self;
        s.reviewed_at = Some(value);
        s
    }

    /// The record with `review_notes` set.
    pub fn with_review_notes(self, value: String) -> (r: Self)
        ensures
            r == (RefundRequest { review_notes: Some(value), ..self }),
    {
        let mut s = self;
        s.review_notes = Some(value);
        s
    }

    /// The record with `approved_by` set.
    pub fn with_approved_by(self, value: u128) -> (r: Self)
        ensures
            r == (RefundRequest { approved_by: Some(value), ..self }),
    {
        let mut s = self;
        s.approved_by = Some(value);
        s
    }

    /// The record with `approved_at` set.
    pub fn with_approved_at(self, value: i64) -> (r: Self)
        ensures
            r == (RefundRequest { approved_at: Some(value), ..self }),
    {
        let mut s = self;
        s.approved_at = Some(value);
        s
    }

    /// The record with `approval_notes` set.
    pub fn with_approval_notes(self, value: String) -> (r: Self)
        ensures
            r == (RefundRequest { approval_notes: Some(value), ..self }),
    {
        let mut s = self;
        s.approval_notes = Some(value);
        s
    }

    /// The record with `rejected_by` set.
    pub fn with_rejected_by(self, value: u128) -> (r: Self)
        ensures
            r == (RefundRequest { rejected_by: Some(value), ..self }),
    {
        let mut s = self;
        s.rejected_by = Some(value);
        s
    }

    /// The record with `rejected_at` set.
    pub fn with_rejected_at(self, value: i64) -> (r: Self)
        ensures
            r == (RefundRequest { rejected_at: Some(value), ..self }),
    {
        let mut s = self;
        s.rejected_at = Some(value);
        s
    }

    /// The record with `rejection_reason` set.
    pub fn with_rejection_reason(self, value: String) -> (r: Self)
        ensures
            r == (RefundRequest { rejection_reason: Some(value), ..self }),
    {
        let mut s = self;
        s.rejection_reason = Some(value);
        s
    }

    /// The record with `processing_started_at` set.
    pub fn with_processing_started_at(self, value: i64) -> (r: Self)
        ensures
            r == (RefundRequest { processing_started_at: Some(value), ..self }),
    {
        let mut s = self;
        s.processing_started_at = Some(value);
        s
    }

    /// The record with `completed_at` set.
    pub fn with_completed_at(self, value: i64) -> (r: Self)
        ensures
            r == (RefundRequest { completed_at: Some(value), ..self }),
    {
        let mut s = self;
        s.completed_at = Some(value);
        s
    }

    /// The record with `failed_at` set.
    pub fn with_failed_at(self, value: i64) -> (r: Self)
        ensures
            r == (RefundRequest { failed_at: Some(value), ..self }),
    {
        let mut s = self;
        s.failed_at = Some(value);
        s
    }

    /// The record with `failure_reason` set.
    pub fn with_failure_reason(self, value: String) -> (r: Self)
        ensures
            r == (RefundRequest { failure_reason: Some(value), ..self }),
    {
        let mut s = self;
        s.failure_reason = Some(value);
        s
    }

    /// The record with `gateway_refund_id` set.
    pub fn with_gateway_refund_id(self, value: String) -> (r: Self)
        ensures
            r == (RefundRequest { gateway_refund_id: Some(value), ..self }),
    {
        let mut s = self;
        s.gateway_refund_id = Some(value);
        s
    }

    /// The record with `gateway_status` set.
    pub fn with_gateway_status(self, value: String) -> (r: Self)
        ensures
            r == (RefundRequest { gateway_status: Some(value), ..self }),
    {
        let mut s = self;
        s.gateway_status = Some(value);
        s
    }

    /// The record with `refund_method` set.
    pub fn with_refund_method(self, value: RefundMethod) -> (r: Self)
        ensures
            r == (RefundRequest { refund_method: Some(value), ..self }),
    {
        let mut s = self;
        s.refund_method = Some(value);
        s
    }

    /// The record with `bank_name` set.
    pub fn with_bank_name(self, value: String) -> (r: Self)
        ensures
            r == (RefundRequest { bank_name: Some(value), ..self }),
    {
        let mut s = self;
        s.bank_name = Some(value);
        s
    }

    /// The record with `account_number` set.
    pub fn with_account_number(self, value: String) -> (r: Self)
        ensures
            r == (RefundRequest { account_number: Some(value), ..self }),
    {
        let mut s = self;
        s.account_number = Some(value);
        s
    }

    /// The record with `account_name` set.
    pub fn with_account_name(self, value: String) -> (r: Self)
        ensures
            r == (RefundRequest { account_name: Some(value), ..self }),
    {
        let mut s = self;
        s.account_name = Some(value);
        s
    }

    /// The record with `customer_notified_at` set.
    pub fn with_customer_notified_at(self, value: i64) -> (r: Self)
        ensures
            r == (RefundRequest { customer_notified_at: Some(value), ..self }),
    {
        let mut s = self;
        s.customer_notified_at = Some(value);
        s
    }

    /// The record with `notes` set.
    pub fn with_notes(self, value: String) -> (r: Self)
        ensures
            r == (RefundRequest { notes: Some(value), ..self }),
    {
        let mut s = self;
        s.notes = Some(value);
        s
    }

    /// Apply a partial update: each field the patch holds replaces the record's value.
    pub fn apply_patch(&mut self, patch: RefundRequestPatch)
        ensures
            *final(self) == patch.applied_to(*old(self)),
    {
        let RefundRequestPatch {
            refund_number,
            payment_id,
            order_id,
            requester_type,
            requester_id,
            requester_name,
            currency,
            original_amount,
            requested_amount,
            approved_amount,
            refunded_amount,
            reason,
            reason_detail,
            evidence_urls,
            status,
            reviewed_by,
            reviewed_at,
            review_notes,
            approved_by,
            approved_at,
            approval_notes,
            rejected_by,
            rejected_at,
            rejection_reason,
            processing_started_at,
            completed_at,
            failed_at,
            failure_reason,
            gateway_refund_id,
            gateway_status,
            refund_method,
            bank_name,
            account_number,
            account_name,
            customer_notified,
            customer_notified_at,
            notes,
        } = patch;
        replace_if_some(&mut self.refund_number, refund_number);
        replace_if_some(&mut self.payment_id, payment_id);
        replace_if_some(&mut self.order_id, order_id);
        replace_if_some(&mut self.requester_type, requester_type);
        replace_if_some(&mut self.requester_id, requester_id);
        replace_if_some(&mut self.requester_name, requester_name);
        replace_if_some(&mut self.currency, currency);
        replace_if_some(&mut self.original_amount, original_amount);
        replace_if_some(&mut self.requested_amount, requested_amount);
        replace_if_some(&mut self.approved_amount, approved_amount);
        replace_if_some(&mut self.refunded_amount, refunded_amount);
        replace_if_some(&mut self.reason, reason);
        replace_if_some(&mut self.reason_detail, reason_detail);
        replace_if_some(&mut self.evidence_urls, evidence_urls);
        replace_if_some(&mut self.status, status);
        replace_if_some(&mut self.reviewed_by, reviewed_by);
        replace_if_some(&mut self.reviewed_at, reviewed_at);
        replace_if_some(&mut self.review_notes, review_notes);
        replace_if_some(&mut self.approved_by, approved_by);
        replace_if_some(&mut self.approved_at, approved_at);
        replace_if_some(&mut self.approval_notes, approval_notes);
        replace_if_some(&mut self.rejected_by, rejected_by);
        replace_if_some(&mut self.rejected_at, rejected_at);
        replace_if_some(&mut self.rejection_reason, rejection_reason);
        replace_if_some(&mut self.processing_started_at, processing_started_at);
        replace_if_some(&mut self.completed_at, completed_at);
        replace_if_some(&mut self.failed_at, failed_at);
        replace_if_some(&mut self.failure_reason, failure_reason);
        replace_if_some(&mut self.gateway_refund_id, gateway_refund_id);
        replace_if_some(&mut self.gateway_status, gateway_status);
        replace_if_some(&mut self.refund_method, refund_method);
        replace_if_some(&mut self.bank_name, bank_name);
        replace_if_some(&mut self.account_number, account_number);
        replace_if_some(&mut self.account_name, account_name);
        replace_if_some(&mut self.customer_notified, customer_notified);
        replace_if_some(&mut self.customer_notified_at, customer_notified_at);
        replace_if_some(&mut self.notes, notes);
    }
}

/// A fluent builder of a [`RefundRequest`]; the id and the audit data are set when it is built.
#[derive(Debug, Clone)]
pub struct RefundRequestBuilder {
    pub refund_number: Option<String>,
    pub payment_id: Option<u128>,
    pub order_id: Option<u128>,
    pub requester_type: Option<String>,
    pub requester_id: Option<u128>,
    pub requester_name: Option<String>,
    pub currency: Option<String>,
    pub original_amount: Option<Dec>,
    pub requested_amount: Option<Dec>,
    pub approved_amount: Option<Dec>,
    pub refunded_amount: Option<Dec>,
    pub reason: Option<RefundReason>,
    pub reason_detail: Option<String>,
    pub evidence_urls: Option<String>,
    pub status: Option<RefundStatus>,
    pub reviewed_by: Option<u128>,
    pub reviewed_at: Option<i64>,
    pub review_notes: Option<String>,
    pub approved_by: Option<u128>,
    pub approved_at: Option<i64>,
    pub approval_notes: Option<String>,
    pub rejected_by: Option<u128>,
    pub rejected_at: Option<i64>,
    pub rejection_reason: Option<String>,
    pub processing_started_at: Option<i64>,
    pub completed_at: Option<i64>,
    pub failed_at: Option<i64>,
    pub failure_reason: Option<String>,
    pub gateway_refund_id: Option<String>,
    pub gateway_status: Option<String>,
    pub refund_method: Option<RefundMethod>,
    pub bank_name: Option<String>,
    pub account_number: Option<String>,
    pub account_name: Option<String>,
    pub customer_notified: Option<bool>,
    pub customer_notified_at: Option<i64>,
    pub notes: Option<String>,
}

impl RefundRequestBuilder {
    /// A builder with nothing set.
    pub open spec fn blank() -> Self {
        RefundRequestBuilder { refund_number: None, payment_id: None, order_id: None, requester_type: None, requester_id: None, requester_name: None, currency: None, original_amount: None, requested_amount: None, approved_amount: None, refunded_amount: None, reason: None, reason_detail: None, evidence_urls: None, status: None, reviewed_by: None, reviewed_at: None, review_notes: None, approved_by: None, approved_at: None, approval_notes: None, rejected_by: None, rejected_at: None, rejection_reason: None, processing_started_at: None, completed_at: None, failed_at: None, failure_reason: None, gateway_refund_id: None, gateway_status: None, refund_method: None, bank_name: None, account_number: None, account_name: None, customer_notified: None, customer_notified_at: None, notes: None }
    }

    /// Set `refund_number` (required).
    pub fn refund_number(self, value: String) -> (r: Self)
        ensures
            r == (RefundRequestBuilder { refund_number: Some(value), ..self }),
    {
        let mut s = self;
        s.refund_number = Some(value);
        s
    }

    /// Set `payment_id` (required).
    pub fn payment_id(self, value: u128) -> (r: Self)
        ensures
            r == (RefundRequestBuilder { payment_id: Some(value), ..self }),
    {
        let mut s = self;
        s.payment_id = Some(value);
        s
    }

    /// Set `order_id` (optional).
    pub fn order_id(self, value: u128) -> (r: Self)
        ensures
            r == (RefundRequestBuilder { order_id: Some(value), ..self }),
    {
        let mut s = self;
        s.order_id = Some(value);
        s
    }

    /// Set `requester_type` (required).
    pub fn requester_type(self, value: String) -> (r: Self)
        ensures
            r == (RefundRequestBuilder { requester_type: Some(value), ..self }),
    {
        let mut s = self;
        s.requester_type = Some(value);
        s
    }

    /// Set `requester_id` (required).
    pub fn requester_id(self, value: u128) -> (r: Self)
        ensures
            r == (RefundRequestBuilder { requester_id: Some(value), ..self }),
    {
        let mut s = self;
        s.requester_id = Some(value);
        s
    }

    /// Set `requester_name` (optional).
    pub fn requester_name(self, value: String) -> (r: Self)
        ensures
            r == (RefundRequestBuilder { requester_name: Some(value), ..self }),
    {
        let mut s = self;
        s.requester_name = Some(value);
        s
    }

    /// Set `currency` (has a default).
    pub fn currency(self, value: String) -> (r: Self)
        ensures
            r == (RefundRequestBuilder { currency: Some(value), ..self }),
    {
        let mut s = self;
        s.currency = Some(value);
        s
    }

    /// Set `original_amount` (required).
    pub fn original_amount(self, value: Dec) -> (r: Self)
        ensures
            r == (RefundRequestBuilder { original_amount: Some(value), ..self }),
    {
        let mut s = self;
        s.original_amount = Some(value);
        s
    }

    /// Set `requested_amount` (required).
    pub fn requested_amount(self, value: Dec) -> (r: Self)
        ensures
            r == (RefundRequestBuilder { requested_amount: Some(value), ..self }),
    {
        let mut s = self;
        s.requested_amount = Some(value);
        s
    }

    /// Set `approved_amount` (optional).
    pub fn approved_amount(self, value: Dec) -> (r: Self)
        ensures
            r == (RefundRequestBuilder { approved_amount: Some(value), ..self }),
    {
        let mut s = self;
        s.approved_amount = Some(value);
        s
    }

    /// Set `refunded_amount` (has a default).
    pub fn refunded_amount(self, value: Dec) -> (r: Self)
        ensures
            r == (RefundRequestBuilder { refunded_amount: Some(value), ..self }),
    {
        let mut s = self;
        s.refunded_amount = Some(value);
        s
    }

    /// Set `reason` (has a default).
    pub fn reason(self, value: RefundReason) -> (r: Self)
        ensures
            r == (RefundRequestBuilder { reason: Some(value), ..self }),
    {
        let mut s = self;
        s.reason = Some(value);
        s
    }

    /// Set `reason_detail` (optional).
    pub fn reason_detail(self, value: String) -> (r: Self)
        ensures
            r == (RefundRequestBuilder { reason_detail: Some(value), ..self }),
    {
        let mut s = self;
        s.reason_detail = Some(value);
        s
    }

    /// Set `evidence_urls` (has a default).
    pub fn evidence_urls(self, value: String) -> (r: Self)
        ensures
            r == (RefundRequestBuilder { evidence_urls: Some(value), ..self }),
    {
        let mut s = self;
        s.evidence_urls = Some(value);
        s
    }

    /// Set `status` (has a default).
    pub fn status(self, value: RefundStatus) -> (r: Self)
        ensures
            r == (RefundRequestBuilder { status: Some(value), ..self }),
    {
        let mut s = self;
        s.status = Some(value);
        s
    }

    /// Set `reviewed_by` (optional).
    pub fn reviewed_by(self, value: u128) -> (r: Self)
        ensures
            r == (RefundRequestBuilder { reviewed_by: Some(value), ..self }),
    {
        let mut s = self;
        s.reviewed_by = Some(value);
        s
    }

    /// Set `reviewed_at` (optional).
    pub fn reviewed_at(self, value: i64) -> (r: Self)
        ensures
            r == (RefundRequestBuilder { reviewed_at: Some(value), ..self }),
    {
        let mut s = self;
        s.reviewed_at = Some(value);
        s
    }

    /// Set `review_notes` (optional).
    pub fn review_notes(self, value: String) -> (r: Self)
        ensures
            r == (RefundRequestBuilder { review_notes: Some(value), ..self }),
    {
        let mut s = self;
        s.review_notes = Some(value);
        s
    }

    /// Set `approved_by` (optional).
    pub fn approved_by(self, value: u128) -> (r: Self)
        ensures
            r == (RefundRequestBuilder { approved_by: Some(value), ..self }),
    {
        let mut s = self;
        s.approved_by = Some(value);
        s
    }

    /// Set `approved_at` (optional).
    pub fn approved_at(self, value: i64) -> (r: Self)
        ensures
            r == (RefundRequestBuilder { approved_at: Some(value), ..self }),
    {
        let mut s = self;
        s.approved_at = Some(value);
        s
    }

    /// Set `approval_notes` (optional).
    pub fn approval_notes(self, value: String) -> (r: Self)
        ensures
            r == (RefundRequestBuilder { approval_notes: Some(value), ..self }),
    {
        let mut s = self;
        s.approval_notes = Some(value);
        s
    }

    /// Set `rejected_by` (optional).
    pub fn rejected_by(self, value: u128) -> (r: Self)
        ensures
            r == (RefundRequestBuilder { rejected_by: Some(value), ..self }),
    {
        let mut s = self;
        s.rejected_by = Some(value);
        s
    }

    /// Set `rejected_at` (optional).
    pub fn rejected_at(self, value: i64) -> (r: Self)
        ensures
            r == (RefundRequestBuilder { rejected_at: Some(value), ..self }),
    {
        let mut s = self;
        s.rejected_at = Some(value);
        s
    }

    /// Set `rejection_reason` (optional).
    pub fn rejection_reason(self, value: String) -> (r: Self)
        ensures
            r == (RefundRequestBuilder { rejection_reason: Some(value), ..self }),
    {
        let mut s = self;
        s.rejection_reason = Some(value);
        s
    }

    /// Set `processing_started_at` (optional).
    pub fn processing_started_at(self, value: i64) -> (r: Self)
        ensures
            r == (RefundRequestBuilder { processing_started_at: Some(value), ..self }),
    {
        let mut s = self;
        s.processing_started_at = Some(value);
        s
    }

    /// Set `completed_at` (optional).
    pub fn completed_at(self, value: i64) -> (r: Self)
        ensures
            r == (RefundRequestBuilder { completed_at: Some(value), ..self }),
    {
        let mut s = self;
        s.completed_at = Some(value);
        s
    }

    /// Set `failed_at` (optional).
    pub fn failed_at(self, value: i64) -> (r: Self)
        ensures
            r == (RefundRequestBuilder { failed_at: Some(value), ..self }),
    {
        let mut s = self;
        s.failed_at = Some(value);
        s
    }

    /// Set `failure_reason` (optional).
    pub fn failure_reason(self, value: String) -> (r: Self)
        ensures
            r == (RefundRequestBuilder { failure_reason: Some(value), ..self }),
    {
        let mut s = self;
        s.failure_reason = Some(value);
        s
    }

    /// Set `gateway_refund_id` (optional).
    pub fn gateway_refund_id(self, value: String) -> (r: Self)
        ensures
            r == (RefundRequestBuilder { gateway_refund_id: Some(value), ..self }),
    {
        let mut s = self;
        s.gateway_refund_id = Some(value);
        s
    }

    /// Set `gateway_status` (optional).
    pub fn gateway_status(self, value: String) -> (r: Self)
        ensures
            r == (RefundRequestBuilder { gateway_status: Some(value), ..self }),
    {
        let mut s = self;
        s.gateway_status = Some(value);
        s
    }

    /// Set `refund_method` (optional).
    pub fn refund_method(self, value: RefundMethod) -> (r: Self)
        ensures
            r == (RefundRequestBuilder { refund_method: Some(value), ..self }),
    {
        let mut s = self;
        s.refund_method = Some(value);
        s
    }

    /// Set `bank_name` (optional).
    pub fn bank_name(self, value: String) -> (r: Self)
        ensures
            r == (RefundRequestBuilder { bank_name: Some(value), ..self }),
    {
        let mut s = self;
        s.bank_name = Some(value);
        s
    }

    /// Set `account_number` (optional).
    pub fn account_number(self, value: String) -> (r: Self)
        ensures
            r == (RefundRequestBuilder { account_number: Some(value), ..self }),
    {
        let mut s = self;
        s.account_number = Some(value);
        s
    }

    /// Set `account_name` (optional).
    pub fn account_name(self, value: String) -> (r: Self)
        ensures
            r == (RefundRequestBuilder { account_name: Some(value), ..self }),
    {
        let mut s = self;
        s.account_name = Some(value);
        s
    }

    /// Set `customer_notified` (has a default).
    pub fn customer_notified(self, value: bool) -> (r: Self)
        ensures
            r == (RefundRequestBuilder { customer_notified: Some(value), ..self }),
    {
        let mut s = self;
        s.customer_notified = Some(value);
        s
    }

    /// Set `customer_notified_at` (optional).
    pub fn customer_notified_at(self, value: i64) -> (r: Self)
        ensures
            r == (RefundRequestBuilder { customer_notified_at: Some(value), ..self }),
    {
        let mut s = self;
        s.customer_notified_at = Some(value);
        s
    }

    /// Set `notes` (optional).
    pub fn notes(self, value: String) -> (r: Self)
        ensures
            r == (RefundRequestBuilder { notes: Some(value), ..self }),
    {
        let mut s = self;
        s.notes = Some(value);
        s
    }

    /// Build the record, with a fresh id and blank audit data; an error names the first
    /// required field that is missing. Unset fields with a default take it.
    pub fn build(self) -> (r: Result<RefundRequest, String>)
        ensures
            match r {
                Ok(e) => {
                    &&& self.refund_number is Some
                    &&& self.payment_id is Some
                    &&& self.requester_type is Some
                    &&& self.requester_id is Some
                    &&& self.original_amount is Some
                    &&& self.requested_amount is Some
                    &&& e == (RefundRequest {
                        id: e.id,
                        refund_number: self.refund_number.unwrap(),
                        payment_id: self.payment_id.unwrap(),
                        order_id: self.order_id,
                        requester_type: self.requester_type.unwrap(),
                        requester_id: self.requester_id.unwrap(),
                        requester_name: self.requester_name,
                        currency: e.currency,
                        original_amount: self.original_amount.unwrap(),
                        requested_amount: self.requested_amount.unwrap(),
                        approved_amount: self.approved_amount,
                        refunded_amount: match self.refunded_amount {
                            Some(v) => v,
                            None => Dec { mantissa: 0, scale: 0 },
                        },
                        reason: match self.reason {
                            Some(v) => v,
                            None => RefundReason::CustomerRequest,
                        },
                        reason_detail: self.reason_detail,
                        evidence_urls: e.evidence_urls,
                        status: match self.status {
                            Some(v) => v,
                            None => RefundStatus::Pending,
                        },
                        reviewed_by: self.reviewed_by,
                        reviewed_at: self.reviewed_at,
                        review_notes: self.review_notes,
                        approved_by: self.approved_by,
                        approved_at: self.approved_at,
                        approval_notes: self.approval_notes,
                        rejected_by: self.rejected_by,
                        rejected_at: self.rejected_at,
                        rejection_reason: self.rejection_reason,
                        processing_started_at: self.processing_started_at,
                        completed_at: self.completed_at,
                        failed_at: self.failed_at,
                        failure_reason: self.failure_reason,
                        gateway_refund_id: self.gateway_refund_id,
                        gateway_status: self.gateway_status,
                        refund_method: self.refund_method,
                        bank_name: self.bank_name,
                        account_number: self.account_number,
                        account_name: self.account_name,
                        customer_notified: match self.customer_notified {
                            Some(v) => v,
                            None => false,
                        },
                        customer_notified_at: self.customer_notified_at,
                        notes: self.notes,
                        metadata: AuditMetadata::blank()
                    })
                    &&& e.currency@ == match self.currency {
                        Some(v) => v@,
                        None => "IDR"@,
                    }
                    &&& e.evidence_urls@ == match self.evidence_urls {
                        Some(v) => v@,
                        None => "[]"@,
                    }
                },
                Err(m) => if self.refund_number is None {
                    m@ == "refund_number is required"@
                } else if self.payment_id is None {
                    m@ == "payment_id is required"@
                } else if self.requester_type is None {
                    m@ == "requester_type is required"@
                } else if self.requester_id is None {
                    m@ == "requester_id is required"@
                } else if self.original_amount is None {
                    m@ == "original_amount is required"@
                } else if self.requested_amount is None {
                    m@ == "requested_amount is required"@
                } else {
                    false
                },
            },
    {
        let RefundRequestBuilder {
            refund_number,
            payment_id,
            order_id,
            requester_type,
            requester_id,
            requester_name,
            currency,
            original_amount,
            requested_amount,
            approved_amount,
            refunded_amount,
            reason,
            reason_detail,
            evidence_urls,
            status,
            reviewed_by,
            reviewed_at,
            review_notes,
            approved_by,
            approved_at,
            approval_notes,
            rejected_by,
            rejected_at,
            rejection_reason,
            processing_started_at,
            completed_at,
            failed_at,
            failure_reason,
            gateway_refund_id,
            gateway_status,
            refund_method,
            bank_name,
            account_number,
            account_name,
            customer_notified,
            customer_notified_at,
            notes,
        } = self;
        let refund_number = match refund_number {
            Some(v) => v,
            None => {
                return Err("refund_number is required".to_string());
            },
        };
        let payment_id = match payment_id {
            Some(v) => v,
            None => {
                return Err("payment_id is required".to_string());
            },
        };
        let requester_type = match requester_type {
            Some(v) => v,
            None => {
                return Err("requester_type is required".to_string());
            },
        };
        let requester_id = match requester_id {
            Some(v) => v,
            None => {
                return Err("requester_id is required".to_string());
            },
        };
        let original_amount = match original_amount {
            Some(v) => v,
            None => {
                return Err("original_amount is required".to_string());
            },
        };
        let requested_amount = match requested_amount {
            Some(v) => v,
            None => {
                return Err("requested_amount is required".to_string());
            },
        };
        Ok(RefundRequest {
            id: new_entity_id(),
            refund_number,
            payment_id,
            order_id,
            requester_type,
            requester_id,
            requester_name,
            currency: match currency {
                Some(v) => v,
                None => "IDR".to_string(),
            },
            original_amount,
            requested_amount,
            approved_amount,
            refunded_amount: match refunded_amount {
                Some(v) => v,
                None => Dec::zero(),
            },
            reason: match reason {
                Some(v) => v,
                None => RefundReason::default(),
            },
            reason_detail,
            evidence_urls: match evidence_urls {
                Some(v) => v,
                None => "[]".to_string(),
            },
            status: match status {
                Some(v) => v,
                None => RefundStatus::default(),
            },
            reviewed_by,
            reviewed_at,
            review_notes,
            approved_by,
            approved_at,
            approval_notes,
            rejected_by,
            rejected_at,
            rejection_reason,
            processing_started_at,
            completed_at,
            failed_at,
            failure_reason,
            gateway_refund_id,
            gateway_status,
            refund_method,
            bank_name,
            account_number,
            account_name,
            customer_notified: match customer_notified {
                Some(v) => v,
                None => false,
            },
            customer_notified_at,
            notes,
            metadata: AuditMetadata::default(),
        })
    }
}

impl Default for RefundRequestBuilder {
    fn default() -> (r: Self)
        ensures
            r == RefundRequestBuilder::blank(),
    {
        RefundRequestBuilder {
            refund_number: None,
            payment_id: None,
            order_id: None,
            requester_type: None,
            requester_id: None,
            requester_name: None,
            currency: None,
            original_amount: None,
            requested_amount: None,
            approved_amount: None,
            refunded_amount: None,
            reason: None,
            reason_detail: None,
            evidence_urls: None,
            status: None,
            reviewed_by: None,
            reviewed_at: None,
            review_notes: None,
            approved_by: None,
            approved_at: None,
            approval_notes: None,
            rejected_by: None,
            rejected_at: None,
            rejection_reason: None,
            processing_started_at: None,
            completed_at: None,
            failed_at: None,
            failure_reason: None,
            gateway_refund_id: None,
            gateway_status: None,
            refund_method: None,
            bank_name: None,
            account_number: None,
            account_name: None,
            customer_notified: None,
            customer_notified_at: None,
            notes: None,
        }
    }
}

} // verus!
