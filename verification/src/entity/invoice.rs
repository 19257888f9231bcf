//! The invoice record (`Invoice`): its typed id, constructor, accessors, partial update and
//! builder.
//!
//! Ids are 128-bit UUID values, timestamps are microseconds since the Unix epoch (UTC), and
//! JSON documents are held as their text.
use vstd::prelude::*;

use crate::calendar::Date;
use crate::dec::Dec;
use crate::domain::invoice_status::InvoiceStatus;
use crate::domain::invoice_type::InvoiceType;
use crate::domain::invoiceable_type::InvoiceableType;
use crate::entity::new_entity_id;
use crate::entity::replace_if_some;
use crate::entity::AuditMetadata;

verus! {

broadcast use vstd::string::group_string_axioms;

/// Strongly-typed id of an [`Invoice`].
#[derive(Debug, Clone, Copy, PartialEq, Eq, Hash, Structural)]
pub struct InvoiceId(pub u128);

impl InvoiceId {
    /// Wrap an id.
    pub fn new(id: u128) -> (r: Self)
        ensures
            r.0 == id,
    {
        InvoiceId(id)
    }

    /// A fresh random id.
    pub fn generate() -> (r: Self) {
        InvoiceId(new_entity_id())
    }

    /// The id inside.
    pub fn into_inner(self) -> (r: u128)
        ensures
            r == self.0,
    {
        self.0
    }
}

impl From<u128> for InvoiceId {
    fn from(id: u128) -> (r: Self) {
        InvoiceId(id)
    }
}

impl vstd::std_specs::convert::FromSpecImpl<u128> for InvoiceId {
    open spec fn obeys_from_spec() -> bool {
        true
    }

    open spec fn from_spec(v: u128) -> Self {
        InvoiceId(v)
    }
}

/// An invoice record.
#[derive(Debug, Clone)]
pub struct Invoice {
    pub id: u128,
    pub invoice_number: String,
    pub invoice_type: InvoiceType,
    pub invoiceable_type: InvoiceableType,
    pub invoiceable_id: u128,
    pub order_id: Option<u128>,
    pub settlement_id: Option<u128>,
    pub issue_date: Date,
    pub due_date: Option<Date>,
    pub currency: String,
    pub subtotal: Dec,
    pub discount_amount: Dec,
    pub tax_amount: Dec,
    pub tax_rate: Option<Dec>,
    pub total_amount: Dec,
    pub status: InvoiceStatus,
    pub sent_via: Option<String>,
    pub paid_at: Option<i64>,
    pub payment_id: Option<u128>,
    pub pdf_url: Option<String>,
    pub pdf_generated_at: Option<i64>,
    pub notes: Option<String>,
    pub terms: Option<String>,
    pub footer: Option<String>,
    pub data: String,
    pub metadata: AuditMetadata,
}

/// A partial update of an [`Invoice`]: each field that is `Some` replaces the record's value.
#[derive(Debug, Clone)]
pub struct InvoicePatch {
    pub invoice_number: Option<String>,
    pub invoice_type: Option<InvoiceType>,
    pub invoiceable_type: Option<InvoiceableType>,
    pub invoiceable_id: Option<u128>,
    pub order_id: Option<Option<u128>>,
    pub settlement_id: Option<Option<u128>>,
    pub issue_date: Option<Date>,
    pub due_date: Option<Option<Date>>,
    pub currency: Option<String>,
    pub subtotal: Option<Dec>,
    pub discount_amount: Option<Dec>,
    pub tax_amount: Option<Dec>,
    pub tax_rate: Option<Option<Dec>>,
    pub total_amount: Option<Dec>,
    pub status: Option<InvoiceStatus>,
    pub sent_via: Option<Option<String>>,
    pub paid_at: Option<Option<i64>>,
    pub payment_id: Option<Option<u128>>,
    pub pdf_url: Option<Option<String>>,
    pub pdf_generated_at: Option<Option<i64>>,
    pub notes: Option<Option<String>>,
    pub terms: Option<Option<String>>,
    pub footer: Option<Option<String>>,
    pub data: Option<String>,
}

impl InvoicePatch {
    /// The record once this patch is applied.
    pub open spec fn applied_to(self, e: Invoice) -> Invoice {
        Invoice {
            id: e.id,
            invoice_number: match self.invoice_number {
                Some(v) => v,
                None => e.invoice_number,
            },
            invoice_type: match self.invoice_type {
                Some(v) => v,
                None => e.invoice_type,
            },
            invoiceable_type: match self.invoiceable_type {
                Some(v) => v,
                None => e.invoiceable_type,
            },
            invoiceable_id: match self.invoiceable_id {
                Some(v) => v,
                None => e.invoiceable_id,
            },
            order_id: match self.order_id {
                Some(v) => v,
                None => e.order_id,
            },
            settlement_id: match self.settlement_id {
                Some(v) => v,
                None => e.settlement_id,
            },
            issue_date: match self.issue_date {
                Some(v) => v,
                None => e.issue_date,
            },
            due_date: match self.due_date {
                Some(v) => v,
                None => e.due_date,
            },
            currency: match self.currency {
                Some(v) => v,
                None => e.currency,
            },
            subtotal: match self.subtotal {
                Some(v) => v,
                None => e.subtotal,
            },
            discount_amount: match self.discount_amount {
                Some(v) => v,
                None => e.discount_amount,
            },
            tax_amount: match self.tax_amount {
                Some(v) => v,
                None => e.tax_amount,
            },
            tax_rate: match self.tax_rate {
                Some(v) => v,
                None => e.tax_rate,
            },
            total_amount: match self.total_amount {
                Some(v) => v,
                None => e.total_amount,
            },
            status: match self.status {
                Some(v) => v,
                None => e.status,
            },
            sent_via: match self.sent_via {
                Some(v) => v,
                None => e.sent_via,
            },
            paid_at: match self.paid_at {
                Some(v) => v,
                None => e.paid_at,
            },
            payment_id: match self.payment_id {
                Some(v) => v,
                None => e.payment_id,
            },
            pdf_url: match self.pdf_url {
                Some(v) => v,
                None => e.pdf_url,
            },
            pdf_generated_at: match self.pdf_generated_at {
                Some(v) => v,
                None => e.pdf_generated_at,
            },
            notes: match self.notes {
                Some(v) => v,
                None => e.notes,
            },
            terms: match self.terms {
                Some(v) => v,
                None => e.terms,
            },
            footer: match self.footer {
                Some(v) => v,
                None => e.footer,
            },
            data: match self.data {
                Some(v) => v,
                None => e.data,
            },
            metadata: e.metadata,
        }
    }
}

impl Invoice {
    /// A builder with nothing set.
    pub fn builder() -> (r: InvoiceBuilder)
        ensures
            r == InvoiceBuilder::blank(),
    {
        InvoiceBuilder::default()
    }

    /// A new record from its required fields, with a fresh id, the other fields unset and blank
    /// audit data.
    pub fn new(
        invoice_number: String,
        invoice_type: InvoiceType,
        invoiceable_type: InvoiceableType,
        invoiceable_id: u128,
        issue_date: Date,
        currency: String,
        subtotal: Dec,
        discount_amount: Dec,
        tax_amount: Dec,
        total_amount: Dec,
        status: InvoiceStatus,
        data: String,
    ) -> (r: Self)
        ensures
            r == (Invoice {
                id: r.id,
                invoice_number,
                invoice_type,
                invoiceable_type,
                invoiceable_id,
                order_id: None,
                settlement_id: None,
                issue_date,
                due_date: None,
                currency,
                subtotal,
                discount_amount,
                tax_amount,
                tax_rate: None,
                total_amount,
                status,
                sent_via: None,
                paid_at: None,
                payment_id: None,
                pdf_url: None,
                pdf_generated_at: None,
                notes: None,
                terms: None,
                footer: None,
                data,
                metadata: AuditMetadata::blank(),
            }),
    {
        Invoice {
            id: new_entity_id(),
            invoice_number,
            invoice_type,
            invoiceable_type,
            invoiceable_id,
            order_id: None,
            settlement_id: None,
            issue_date,
            due_date: None,
            currency,
            subtotal,
            discount_amount,
            tax_amount,
            tax_rate: None,
            total_amount,
            status,
            sent_via: None,
            paid_at: None,
            payment_id: None,
            pdf_url: None,
            pdf_generated_at: None,
            notes: None,
            terms: None,
            footer: None,
            data,
            metadata: AuditMetadata::default(),
        }
    }

    /// The record's id.
    pub fn id(&self) -> (r: &u128)
        ensures
            *r == self.id,
    {
        &self.id
    }

    /// The record's typed id.
    pub fn typed_id(&self) -> (r: InvoiceId)
        ensures
            r == InvoiceId(self.id),
    {
        InvoiceId(self.id)
    }

    /// When the record was created.
    pub fn created_at(&self) -> (r: Option<&i64>)
        ensures
            r is Some <==> self.metadata.created_at is Some,
            r is Some ==> r->0 == self.metadata.created_at->0,
    {
        self.metadata.created_at.as_ref()
    }

    /// When the record was last updated.
    pub fn updated_at(&self) -> (r: Option<&i64>)
        ensures
            r is Some <==> self.metadata.updated_at is Some,
            r is Some ==> r->0 == self.metadata.updated_at->0,
    {
        self.metadata.updated_at.as_ref()
    }

    /// Whether the record is soft-deleted.
    pub fn is_deleted(&self) -> (r: bool)
        ensures
            r == self.metadata.deleted_at is Some,
    {
        self.metadata.deleted_at.is_some()
    }

    /// Whether the record is active (not soft-deleted).
    pub fn is_active(&self) -> (r: bool)
        ensures
            r == self.metadata.deleted_at is None,
    {
        self.metadata.deleted_at.is_none()
    }

    /// When the record was soft-deleted.
    pub fn deleted_at(&self) -> (r: Option<&i64>)
        ensures
            r is Some <==> self.metadata.deleted_at is Some,
            r is Some ==> r->0 == self.metadata.deleted_at->0,
    {
        self.metadata.deleted_at.as_ref()
    }

    /// Who created the record.
    pub fn created_by(&self) -> (r: Option<&u128>)
        ensures
            r is Some <==> self.metadata.created_by is Some,
            r is Some ==> r->0 == self.metadata.created_by->0,
    {
        self.metadata.created_by.as_ref()
    }

    /// Who last updated the record.
    pub fn updated_by(&self) -> (r: Option<&u128>)
        ensures
            r is Some <==> self.metadata.updated_by is Some,
            r is Some ==> r->0 == self.metadata.updated_by->0,
    {
        self.metadata.updated_by.as_ref()
    }

    /// Who soft-deleted the record.
    pub fn deleted_by(&self) -> (r: Option<&u128>)
        ensures
            r is Some <==> self.metadata.deleted_by is Some,
            r is Some ==> r->0 == self.metadata.deleted_by->0,
    {
        self.metadata.deleted_by.as_ref()
    }

    /// The record's status.
    pub fn status(&self) -> (r: &InvoiceStatus)
        ensures
            *r == self.status,
    {
        &self.status
    }

    /// The record with `order_id` set.
    pub fn with_order_id(self, value: u128) -> (r: Self)
        ensures
            r == (Invoice { order_id: Some(value), ..self }),
    {
        let mut s = self;
        s.order_id = Some(value);
        s
    }

    /// The record with `settlement_id` set.
    pub fn with_settlement_id(self, value: u128) -> (r: Self)
        ensures
            r == (Invoice { settlement_id: Some(value), ..self }),
    {
        let mut s = self;
        s.settlement_id = Some(value);
        s
    }

    /// The record with `due_date` set.
    pub fn with_due_date(self, value: Date) -> (r: Self)
        ensures
            r == (Invoice { due_date: Some(value), ..self }),
    {
        let mut s = self;
        s.due_date = Some(value);
        s
    }

    /// The record with `tax_rate` set.
    pub fn with_tax_rate(self, value: Dec) -> (r: Self)
        ensures
            r == (Invoice { tax_rate: Some(value), ..self }),
    {
        let mut s = self;
        s.tax_rate = Some(value);
        s
    }

    /// The record with `sent_via` set.
    pub fn with_sent_via(self, value: String) -> (r: Self)
        ensures
            r == (Invoice { sent_via: Some(value), ..self }),
    {
        let mut s = self;
        s.sent_via = Some(value);
        s
    }

    /// The record with `paid_at` set.
    pub fn with_paid_at(self, value: i64) -> (r: Self)
        ensures
            r == (Invoice { paid_at: Some(value), ..self }),
    {
        let mut s = self;
        s.paid_at = Some(value);
        s
    }

    /// The record with `payment_id` set.
    pub fn with_payment_id(self, value: u128) -> (r: Self)
        ensures
            r == (Invoice { payment_id: Some(value), ..self }),
    {
        let mut s = self;
        s.payment_id = Some(value);
        s
    }

    /// The record with `pdf_url` set.
    pub fn with_pdf_url(self, value: String) -> (r: Self)
        ensures
            r == (Invoice { pdf_url: Some(value), ..self }),
    {
        let mut s = self;
        s.pdf_url = Some(value);
        s
    }

    /// The record with `pdf_generated_at` set.
    pub fn with_pdf_generated_at(self, value: i64) -> (r: Self)
        ensures
            r == (Invoice { pdf_generated_at: Some(value), ..self }),
    {
        let mut s = self;
        s.pdf_generated_at = Some(value);
        s
    }

    /// The record with `notes` set.
    pub fn with_notes(self, value: String) -> (r: Self)
        ensures
            r == (Invoice { notes: Some(value), ..self }),
    {
        let mut s = self;
        s.notes = Some(value);
        s
    }

    /// The record with `terms` set.
    pub fn with_terms(self, value: String) -> (r: Self)
        ensures
            r == (Invoice { terms: Some(value), ..self }),
    {
        let mut s = self;
        s.terms = Some(value);
        s
    }

    /// The record with `footer` set.
    pub fn with_footer(self, value: String) -> (r: Self)
        ensures
            r == (Invoice { footer: Some(value), ..self }),
    {
        let mut s = self;
        s.footer = Some(value);
        s
    }

    /// Apply a partial update: each field the patch holds replaces the record's value.
    pub fn apply_patch(&mut self, patch: InvoicePatch)
        ensures
            *final(self) == patch.applied_to(*old(self)),
    {
        let InvoicePatch {
            invoice_number,
            invoice_type,
            invoiceable_type,
            invoiceable_id,
            order_id,
            settlement_id,
            issue_date,
            due_date,
            currency,
            subtotal,
            discount_amount,
            tax_amount,
            tax_rate,
            total_amount,
            status,
            sent_via,
            paid_at,
            payment_id,
            pdf_url,
            pdf_generated_at,
            notes,
            terms,
            footer,
            data,
        } = patch;
        replace_if_some(&mut self.invoice_number, invoice_number);
        replace_if_some(&mut self.invoice_type, invoice_type);
        replace_if_some(&mut self.invoiceable_type, invoiceable_type);
        replace_if_some(&mut self.invoiceable_id, invoiceable_id);
        replace_if_some(&mut self.order_id, order_id);
        replace_if_some(&mut self.settlement_id, settlement_id);
        replace_if_some(&mut self.issue_date, issue_date);
        replace_if_some(&mut self.due_date, due_date);
        replace_if_some(&mut self.currency, currency);
        replace_if_some(&mut self.subtotal, subtotal);
        replace_if_some(&mut self.discount_amount, discount_amount);
        replace_if_some(&mut self.tax_amount, tax_amount);
        replace_if_some(&mut self.tax_rate, tax_rate);
        replace_if_some(&mut self.total_amount, total_amount);
        replace_if_some(&mut self.status, status);
        replace_if_some(&mut self.sent_via, sent_via);
        replace_if_some(&mut self.paid_at, paid_at);
        replace_if_some(&mut self.payment_id, payment_id);
        replace_if_some(&mut self.pdf_url, pdf_url);
        replace_if_some(&mut self.pdf_generated_at, pdf_generated_at);
        replace_if_some(&mut self.notes, notes);
        replace_if_some(&mut self.terms, terms);
        replace_if_some(&mut self.footer, footer);
        replace_if_some(&mut self.data, data);
    }
}

/// A fluent builder of an [`Invoice`]; the id and the audit data are set when it is built.
#[derive(Debug, Clone)]
pub struct InvoiceBuilder {
    pub invoice_number: Option<String>,
    pub invoice_type: Option<InvoiceType>,
    pub invoiceable_type: Option<InvoiceableType>,
    pub invoiceable_id: Option<u128>,
    pub order_id: Option<u128>,
    pub settlement_id: Option<u128>,
    pub issue_date: Option<Date>,
    pub due_date: Option<Date>,
    pub currency: Option<String>,
    pub subtotal: Option<Dec>,
    pub discount_amount: Option<Dec>,
    pub tax_amount: Option<Dec>,
    pub tax_rate: Option<Dec>,
    pub total_amount: Option<Dec>,
    pub status: Option<InvoiceStatus>,
    pub sent_via: Option<String>,
    pub paid_at: Option<i64>,
    pub payment_id: Option<u128>,
    pub pdf_url: Option<String>,
    pub pdf_generated_at: Option<i64>,
    pub notes: Option<String>,
    pub terms: Option<String>,
    pub footer: Option<String>,
    pub data: Option<String>,
}

impl InvoiceBuilder {
    /// A builder with nothing set.
    pub open spec fn blank() -> Self {
        InvoiceBuilder { invoice_number: None, invoice_type: None, invoiceable_type: None, invoiceable_id: None, order_id: None, settlement_id: None, issue_date: None, due_date: None, currency: None, subtotal: None, discount_amount: None, tax_amount: None, tax_rate: None, total_amount: None, status: None, sent_via: None, paid_at: None, payment_id: None, pdf_url: None, pdf_generated_at: None, notes: None, terms: None, footer: None, data: None }
    }

    /// Set `invoice_number` (required).
    pub fn invoice_number(self, value: String) -> (r: Self)
        ensures
            r == (InvoiceBuilder { invoice_number: Some(value), ..self }),
    {
        let mut s = self;
        s.invoice_number = Some(value);
        s
    }

    /// Set `invoice_type` (has a default).
    pub fn invoice_type(self, value: InvoiceType) -> (r: Self)
        ensures
            r == (InvoiceBuilder { invoice_type: Some(value), ..self }),
    {
        let mut s = self;
        s.invoice_type = Some(value);
        s
    }

    /// Set `invoiceable_type` (required).
    pub fn invoiceable_type(self, value: InvoiceableType) -> (r: Self)
        ensures
            r == (InvoiceBuilder { invoiceable_type: Some(value), ..self }),
    {
        let mut s = self;
        s.invoiceable_type = Some(value);
        s
    }

    /// Set `invoiceable_id` (required).
    pub fn invoiceable_id(self, value: u128) -> (r: Self)
        ensures
            r == (InvoiceBuilder { invoiceable_id: Some(value), ..self }),
    {
        let mut s = self;
        s.invoiceable_id = Some(value);
        s
    }

    /// Set `order_id` (optional).
    pub fn order_id(self, value: u128) -> (r: Self)
        ensures
            r == (InvoiceBuilder { order_id: Some(value), ..self }),
    {
        let mut s = self;
        s.order_id = Some(value);
        s
    }

    /// Set `settlement_id` (optional).
    pub fn settlement_id(self, value: u128) -> (r: Self)
        ensures
            r == (InvoiceBuilder { settlement_id: Some(value), ..self }),
    {
        let mut s = self;
        s.settlement_id = Some(value);
        s
    }

    /// Set `issue_date` (required).
    pub fn issue_date(self, value: Date) -> (r: Self)
        ensures
            r == (InvoiceBuilder { issue_date: Some(value), ..self }),
    {
        let mut s = self;
        s.issue_date = Some(value);
        s
    }

    /// Set `due_date` (optional).
    pub fn due_date(self, value: Date) -> (r: Self)
        ensures
            r == (InvoiceBuilder { due_date: Some(value), ..self }),
    {
        let mut s = self;
        s.due_date = Some(value);
        s
    }

    /// Set `currency` (has a default).
    pub fn currency(self, value: String) -> (r: Self)
        ensures
            r == (InvoiceBuilder { currency: Some(value), ..self }),
    {
        let mut s = self;
        s.currency = Some(value);
        s
    }

    /// Set `subtotal` (required).
    pub fn subtotal(self, value: Dec) -> (r: Self)
        ensures
            r == (InvoiceBuilder { subtotal: Some(value), ..self }),
    {
        let mut s = self;
        s.subtotal = Some(value);
        s
    }

    /// Set `discount_amount` (has a default).
    pub fn discount_amount(self, value: Dec) -> (r: Self)
        ensures
            r == (InvoiceBuilder { discount_amount: Some(value), ..self }),
    {
        let mut s = self;
        s.discount_amount = Some(value);
        s
    }

    /// Set `tax_amount` (has a default).
    pub fn tax_amount(self, value: Dec) -> (r: Self)
        ensures
            r == (InvoiceBuilder { tax_amount: Some(value), ..self }),
    {
        let mut s = self;
        s.tax_amount = Some(value);
        s
    }

    /// Set `tax_rate` (optional).
    pub fn tax_rate(self, value: Dec) -> (r: Self)
        ensures
            r == (InvoiceBuilder { tax_rate: Some(value), ..self }),
    {
        let mut s = self;
        s.tax_rate = Some(value);
        s
    }

    /// Set `total_amount` (required).
    pub fn total_amount(self, value: Dec) -> (r: Self)
        ensures
            r == (InvoiceBuilder { total_amount: Some(value), ..self }),
    {
        let mut s = self;
        s.total_amount = Some(value);
        s
    }

    /// Set `status` (has a default).
    pub fn status(self, value: InvoiceStatus) -> (r: Self)
        ensures
            r == (InvoiceBuilder { status: Some(value), ..self }),
    {
        let mut s = self;
        s.status = Some(value);
        s
    }

    /// Set `sent_via` (optional).
    pub fn sent_via(self, value: String) -> (r: Self)
        ensures
            r == (InvoiceBuilder { sent_via: Some(value), ..self }),
    {
        let mut s = self;
        s.sent_via = Some(value);
        s
    }

    /// Set `paid_at` (optional).
    pub fn paid_at(self, value: i64) -> (r: Self)
        ensures
            r == (InvoiceBuilder { paid_at: Some(value), ..self }),
    {
        let mut s = self;
        s.paid_at = Some(value);
        s
    }

    /// Set `payment_id` (optional).
    pub fn payment_id(self, value: u128) -> (r: Self)
        ensures
            r == (InvoiceBuilder { payment_id: Some(value), ..self }),
    {
        let mut s = self;
        s.payment_id = Some(value);
        s
    }

    /// Set `pdf_url` (optional).
    pub fn pdf_url(self, value: String) -> (r: Self)
        ensures
            r == (InvoiceBuilder { pdf_url: Some(value), ..self }),
    {
        let mut s = self;
        s.pdf_url = Some(value);
        s
    }

    /// Set `pdf_generated_at` (optional).
    pub fn pdf_generated_at(self, value: i64) -> (r: Self)
        ensures
            r == (InvoiceBuilder { pdf_generated_at: Some(value), ..self }),
    {
        let mut s = self;
        s.pdf_generated_at = Some(value);
        s
    }

    /// Set `notes` (optional).
    pub fn notes(self, value: String) -> (r: Self)
        ensures
            r == (InvoiceBuilder { notes: Some(value), ..self }),
    {
        let mut s = self;
        s.notes = Some(value);
        s
    }

    /// Set `terms` (optional).
    pub fn terms(self, value: String) -> (r: Self)
        ensures
            r == (InvoiceBuilder { terms: Some(value), ..self }),
    {
        let mut s = self;
        s.terms = Some(value);
        s
    }

    /// Set `footer` (optional).
    pub fn footer(self, value: String) -> (r: Self)
        ensures
            r == (InvoiceBuilder { footer: Some(value), ..self }),
    {
        let mut s = self;
        s.footer = Some(value);
        s
    }

    /// Set `data` (has a default).
    pub fn data(self, value: String) -> (r: Self)
        ensures
            r == (InvoiceBuilder { data: Some(value), ..self }),
    {
        let mut s = self;
        s.data = Some(value);
        s
    }

    /// Build the record, with a fresh id and blank audit data; an error names the first
    /// required field that is missing. Unset fields with a default take it.
    pub fn build(self) -> (r: Result<Invoice, String>)
        ensures
            match r {
                Ok(e) => {
                    &&& self.invoice_number is Some
                    &&& self.invoiceable_type is Some
                    &&& self.invoiceable_id is Some
                    &&& self.issue_date is Some
                    &&& self.subtotal is Some
                    &&& self.total_amount is Some
                    &&& e == (Invoice {
                        id: e.id,
                        invoice_number: self.invoice_number.unwrap(),
                        invoice_type: match self.invoice_type {
                            Some(v) => v,
                            None => InvoiceType::Order,
                        },
                        invoiceable_type: self.invoiceable_type.unwrap(),
                        invoiceable_id: self.invoiceable_id.unwrap(),
                        order_id: self.order_id,
                        settlement_id: self.settlement_id,
                        issue_date: self.issue_date.unwrap(),
                        due_date: self.due_date,
                        currency: e.currency,
                        subtotal: self.subtotal.unwrap(),
                        discount_amount: match self.discount_amount {
                            Some(v) => v,
                            None => Dec { mantissa: 0, scale: 0 },
                        },
                        tax_amount: match self.tax_amount {
                            Some(v) => v,
                            None => Dec { mantissa: 0, scale: 0 },
                        },
                        tax_rate: self.tax_rate,
                        total_amount: self.total_amount.unwrap(),
                        status: match self.status {
                            Some(v) => v,
                            None => InvoiceStatus::Draft,
                        },
                        sent_via: self.sent_via,
                        paid_at: self.paid_at,
                        payment_id: self.payment_id,
                        pdf_url: self.pdf_url,
                        pdf_generated_at: self.pdf_generated_at,
                        notes: self.notes,
                        terms: self.terms,
                        footer: self.footer,
                        data: e.data,
                        metadata: AuditMetadata::blank()
                    })
                    &&& e.currency@ == match self.currency {
                        Some(v) => v@,
                        None => "IDR"@,
                    }
                    &&& e.data@ == match self.data {
                        Some(v) => v@,
                        None => "{\"balance_due\":0,\"paid_amount\":0,\"sent_at\":null,\"viewed_at\":null}"@,
                    }
                },
                Err(m) => if self.invoice_number is None {
                    m@ == "invoice_number is required"@
                } else if self.invoiceable_type is None {
                    m@ == "invoiceable_type is required"@
                } else if self.invoiceable_id is None {
                    m@ == "invoiceable_id is required"@
                } else if self.issue_date is None {
                    m@ == "issue_date is required"@
                } else if self.subtotal is None {
                    m@ == "subtotal is required"@
                } else if self.total_amount is None {
                    m@ == "total_amount is required"@
                } else {
                    false
                },
            },
    {
        let InvoiceBuilder {
            invoice_number,
            invoice_type,
            invoiceable_type,
            invoiceable_id,
            order_id,
            settlement_id,
            issue_date,
            due_date,
            currency,
            subtotal,
            discount_amount,
            tax_amount,
            tax_rate,
            total_amount,
            status,
            sent_via,
            paid_at,
            payment_id,
            pdf_url,
            pdf_generated_at,
            notes,
            terms,
            footer,
            data,
        } = self;
        let invoice_number = match invoice_number {
            Some(v) => v,
            None => {
                return Err("invoice_number is required".to_string());
            },
        };
        let invoiceable_type = match invoiceable_type {
            Some(v) => v,
            None => {
                return Err("invoiceable_type is required".to_string());
            },
        };
        let invoiceable_id = match invoiceable_id {
            Some(v) => v,
            None => {
                return Err("invoiceable_id is required".to_string());
            },
        };
        let issue_date = match issue_date {
            Some(v) => v,
            None => {
                return Err("issue_date is required".to_string());
            },
        };
        let subtotal = match subtotal {
            Some(v) => v,
            None => {
                return Err("subtotal is required".to_string());
            },
        };
        let total_amount = match total_amount {
            Some(v) => v,
            None => {
                return Err("total_amount is required".to_string());
            },
        };
        Ok(Invoice {
            id: new_entity_id(),
            invoice_number,
            invoice_type: match invoice_type {
                Some(v) => v,
                None => InvoiceType::default(),
            },
            invoiceable_type,
            invoiceable_id,
            order_id,
            settlement_id,
            issue_date,
            due_date,
            currency: match currency {
                Some(v) => v,
                None => "IDR".to_string(),
            },
            subtotal,
            discount_amount: match discount_amount {
                Some(v) => v,
                None => Dec::zero(),
            },
            tax_amount: match tax_amount {
                Some(v) => v,
                None => Dec::zero(),
            },
            tax_rate,
            total_amount,
            status: match status {
                Some(v) => v,
                None => InvoiceStatus::default(),
            },
            sent_via,
            paid_at,
            payment_id,
            pdf_url,
            pdf_generated_at,
            notes,
            terms,
            footer,
            data: match data {
                Some(v) => v,
                None => "{\"balance_due\":0,\"paid_amount\":0,\"sent_at\":null,\"viewed_at\":null}".to_string(),
            },
            metadata: AuditMetadata::default(),
        })
    }
}

impl Default for InvoiceBuilder {
    fn default() -> (r: Self)
        ensures
            r == InvoiceBuilder::blank(),
    {
        InvoiceBuilder {
            invoice_number: None,
            invoice_type: None,
            invoiceable_type: None,
            invoiceable_id: None,
            order_id: None,
            settlement_id: None,
            issue_date: None,
            due_date: None,
            currency: None,
            subtotal: None,
            discount_amount: None,
            tax_amount: None,
            tax_rate: None,
            total_amount: None,
            status: None,
            sent_via: None,
            paid_at: None,
            payment_id: None,
            pdf_url: None,
            pdf_generated_at: None,
            notes: None,
            terms: None,
            footer: None,
            data: None,
        }
    }
}

} // verus!
