//! The invoice tax line record (`InvoiceTaxLine`): its typed id, constructor, accessors, partial update and
//! builder.
//!
//! Ids are 128-bit UUID values, timestamps are microseconds since the Unix epoch (UTC), and
//! JSON documents are held as their text.
use vstd::prelude::*;

use crate::dec::Dec;
use crate::domain::tax_basis::TaxBasis;
use crate::settlement::InvoiceKind;
use crate::entity::new_entity_id;
use crate::entity::replace_if_some;
use crate::entity::AuditMetadata;

verus! {

broadcast use vstd::string::group_string_axioms;

/// Strongly-typed id of an [`InvoiceTaxLine`].
#[derive(Debug, Clone, Copy, PartialEq, Eq, Hash, Structural)]
pub struct InvoiceTaxLineId(pub u128);

impl InvoiceTaxLineId {
    /// Wrap an id.
    pub fn new(id: u128) -> (r: Self)
        ensures
            r.0 == id,
    {
        InvoiceTaxLineId(id)
    }

    /// A fresh random id.
    pub fn generate() -> (r: Self) {
        InvoiceTaxLineId(new_entity_id())
    }

    /// The id inside.
    pub fn into_inner(self) -> (r: u128)
        ensures
            r == self.0,
    {
        self.0
    }
}

impl From<u128> for InvoiceTaxLineId {
    fn from(id: u128) -> (r: Self) {
        InvoiceTaxLineId(id)
    }
}

impl vstd::std_specs::convert::FromSpecImpl<u128> for InvoiceTaxLineId {
    open spec fn obeys_from_spec() -> bool {
        true
    }

    open spec fn from_spec(v: u128) -> Self {
        InvoiceTaxLineId(v)
    }
}

/// An invoice tax line record.
#[derive(Debug, Clone)]
pub struct InvoiceTaxLine {
    pub id: u128,
    pub invoice_ref: u128,
    pub invoice_kind: InvoiceKind,
    pub company_id: u128,
    pub account_id: u128,
    pub basis: TaxBasis,
    pub description: Option<String>,
    pub taxable_base: Dec,
    pub rate: Dec,
    pub tax_amount: Dec,
    pub metadata: AuditMetadata,
}

/// A partial update of an [`InvoiceTaxLine`]: each field that is `Some` replaces the record's value.
#[derive(Debug, Clone)]
pub struct InvoiceTaxLinePatch {
    pub invoice_ref: Option<u128>,
    pub invoice_kind: Option<InvoiceKind>,
    pub company_id: Option<u128>,
    pub account_id: Option<u128>,
    pub basis: Option<TaxBasis>,
    pub description: Option<Option<String>>,
    pub taxable_base: Option<Dec>,
    pub rate: Option<Dec>,
    pub tax_amount: Option<Dec>,
}

impl InvoiceTaxLinePatch {
    /// The record once this patch is applied.
    pub open spec fn applied_to(self, e: InvoiceTaxLine) -> InvoiceTaxLine {
        InvoiceTaxLine {
            id: e.id,
            invoice_ref: match self.invoice_ref {
                Some(v) => v,
                None => e.invoice_ref,
            },
            invoice_kind: match self.invoice_kind {
                Some(v) => v,
                None => e.invoice_kind,
            },
            company_id: match self.company_id {
                Some(v) => v,
                None => e.company_id,
            },
            account_id: match self.account_id {
                Some(v) => v,
                None => e.account_id,
            },
            basis: match self.basis {
                Some(v) => v,
                None => e.basis,
            },
            description: match self.description {
                Some(v) => v,
                None => e.description,
            },
            taxable_base: match self.taxable_base {
                Some(v) => v,
                None => e.taxable_base,
            },
            rate: match self.rate {
                Some(v) => v,
                None => e.rate,
            },
            tax_amount: match self.tax_amount {
                Some(v) => v,
                None => e.tax_amount,
            },
            metadata: e.metadata,
        }
    }
}

impl InvoiceTaxLine {
    /// A builder with nothing set.
    pub fn builder() -> (r: InvoiceTaxLineBuilder)
        ensures
            r == InvoiceTaxLineBuilder::blank(),
    {
        InvoiceTaxLineBuilder::default()
    }

    /// A new record from its required fields, with a fresh id, the other fields unset and blank
    /// audit data.
    pub fn new(
        invoice_ref: u128,
        invoice_kind: InvoiceKind,
        company_id: u128,
        account_id: u128,
        basis: TaxBasis,
        taxable_base: Dec,
        rate: Dec,
        tax_amount: Dec,
    ) -> (r: Self)
        ensures
            r == (InvoiceTaxLine {
                id: r.id,
                invoice_ref,
                invoice_kind,
                company_id,
                account_id,
                basis,
                description: None,
                taxable_base,
                rate,
                tax_amount,
                metadata: AuditMetadata::blank(),
            }),
    {
        InvoiceTaxLine {
            id: new_entity_id(),
            invoice_ref,
            invoice_kind,
            company_id,
            account_id,
            basis,
            description: None,
            taxable_base,
            rate,
            tax_amount,
            metadata: AuditMetadata::default(),
        }
    }

    /// The record's id.
    pub fn id(&self) -> (r: &u128)
        ensures
            *r == self.id,
    {
        &self.id
    }

    /// The record's typed id.
    pub fn typed_id(&self) -> (r: InvoiceTaxLineId)
        ensures
            r == InvoiceTaxLineId(self.id),
    {
        InvoiceTaxLineId(self.id)
    }

    /// When the record was created.
    pub fn created_at(&self) -> (r: Option<&i64>)
        ensures
            r is Some <==> self.metadata.created_at is Some,
            r is Some ==> r->0 == self.metadata.created_at->0,
    {
        self.metadata.created_at.as_ref()
    }

    /// When the record was last updated.
    pub fn updated_at(&self) -> (r: Option<&i64>)
        ensures
            r is Some <==> self.metadata.updated_at is Some,
            r is Some ==> r->0 == self.metadata.updated_at->0,
    {
        self.metadata.updated_at.as_ref()
    }

    /// Whether the record is soft-deleted.
    pub fn is_deleted(&self) -> (r: bool)
        ensures
            r == self.metadata.deleted_at is Some,
    {
        self.metadata.deleted_at.is_some()
    }

    /// Whether the record is active (not soft-deleted).
    pub fn is_active(&self) -> (r: bool)
        ensures
            r == self.metadata.deleted_at is None,
    {
        self.metadata.deleted_at.is_none()
    }

    /// When the record was soft-deleted.
    pub fn deleted_at(&self) -> (r: Option<&i64>)
        ensures
            r is Some <==> self.metadata.deleted_at is Some,
            r is Some ==> r->0 == self.metadata.deleted_at->0,
    {
        self.metadata.deleted_at.as_ref()
    }

    /// Who created the record.
    pub fn created_by(&self) -> (r: Option<&u128>)
        ensures
            r is Some <==> self.metadata.created_by is Some,
            r is Some ==> r->0 == self.metadata.created_by->0,
    {
        self.metadata.created_by.as_ref()
    }

    /// Who last updated the record.
    pub fn updated_by(&self) -> (r: Option<&u128>)
        ensures
            r is Some <==> self.metadata.updated_by is Some,
            r is Some ==> r->0 == self.metadata.updated_by->0,
    {
        self.metadata.updated_by.as_ref()
    }

    /// Who soft-deleted the record.
    pub fn deleted_by(&self) -> (r: Option<&u128>)
        ensures
            r is Some <==> self.metadata.deleted_by is Some,
            r is Some ==> r->0 == self.metadata.deleted_by->0,
    {
        self.metadata.deleted_by.as_ref()
    }

    /// The record with `description` set.
    pub fn with_description(self, value: String) -> (r: Self)
        ensures
            r == (InvoiceTaxLine { description: Some(value), ..self }),
    {
        let mut s = self;
        s.description = Some(value);
        s
    }

    /// Apply a partial update: each field the patch holds replaces the record's value.
    pub fn apply_patch(&mut self, patch: InvoiceTaxLinePatch)
        ensures
            *final(self) == patch.applied_to(*old(self)),
    {
        let InvoiceTaxLinePatch {
            invoice_ref,
            invoice_kind,
            company_id,
            account_id,
            basis,
            description,
            taxable_base,
            rate,
            tax_amount,
        } = patch;
        replace_if_some(&mut self.invoice_ref, invoice_ref);
        replace_if_some(&mut self.invoice_kind, invoice_kind);
        replace_if_some(&mut self.company_id, company_id);
        replace_if_some(&mut self.account_id, account_id);
        replace_if_some(&mut self.basis, basis);
        replace_if_some(&mut self.description, description);
        replace_if_some(&mut self.taxable_base, taxable_base);
        replace_if_some(&mut self.rate, rate);
        replace_if_some(&mut self.tax_amount, tax_amount);
    }
}

/// A fluent builder of an [`InvoiceTaxLine`]; the id and the audit data are set when it is built.
#[derive(Debug, Clone)]
pub struct InvoiceTaxLineBuilder {
    pub invoice_ref: Option<u128>,
    pub invoice_kind: Option<InvoiceKind>,
    pub company_id: Option<u128>,
    pub account_id: Option<u128>,
    pub basis: Option<TaxBasis>,
    pub description: Option<String>,
    pub taxable_base: Option<Dec>,
    pub rate: Option<Dec>,
    pub tax_amount: Option<Dec>,
}

impl InvoiceTaxLineBuilder {
    /// A builder with nothing set.
    pub open spec fn blank() -> Self {
        InvoiceTaxLineBuilder { invoice_ref: None, invoice_kind: None, company_id: None, account_id: None, basis: None, description: None, taxable_base: None, rate: None, tax_amount: None }
    }

    /// Set `invoice_ref` (required).
    pub fn invoice_ref(self, value: u128) -> (r: Self)
        ensures
            r == (InvoiceTaxLineBuilder { invoice_ref: Some(value), ..self }),
    {
        let mut s = self;
        s.invoice_ref = Some(value);
        s
    }

    /// Set `invoice_kind` (required).
    pub fn invoice_kind(self, value: InvoiceKind) -> (r: Self)
        ensures
            r == (InvoiceTaxLineBuilder { invoice_kind: Some(value), ..self }),
    {
        let mut s = self;
        s.invoice_kind = Some(value);
        s
    }

    /// Set `company_id` (required).
    pub fn company_id(self, value: u128) -> (r: Self)
        ensures
            r == (InvoiceTaxLineBuilder { company_id: Some(value), ..self }),
    {
        let mut s = self;
        s.company_id = Some(value);
        s
    }

    /// Set `account_id` (required).
    pub fn account_id(self, value: u128) -> (r: Self)
        ensures
            r == (InvoiceTaxLineBuilder { account_id: Some(value), ..self }),
    {
        let mut s = self;
        s.account_id = Some(value);
        s
    }

    /// Set `basis` (required).
    pub fn basis(self, value: TaxBasis) -> (r: Self)
        ensures
            r == (InvoiceTaxLineBuilder { basis: Some(value), ..self }),
    {
        let mut s = self;
        s.basis = Some(value);
        s
    }

    /// Set `description` (optional).
    pub fn description(self, value: String) -> (r: Self)
        ensures
            r == (InvoiceTaxLineBuilder { description: Some(value), ..self }),
    {
        let mut s = self;
        s.description = Some(value);
        s
    }

    /// Set `taxable_base` (has a default).
    pub fn taxable_base(self, value: Dec) -> (r: Self)
        ensures
            r == (InvoiceTaxLineBuilder { taxable_base: Some(value), ..self }),
    {
        let mut s = self;
        s.taxable_base = Some(value);
        s
    }

    /// Set `rate` (has a default).
    pub fn rate(self, value: Dec) -> (r: Self)
        ensures
            r == (InvoiceTaxLineBuilder { rate: Some(value), ..self }),
    {
        let mut s = self;
        s.rate = Some(value);
        s
    }

    /// Set `tax_amount` (required).
    pub fn tax_amount(self, value: Dec) -> (r: Self)
        ensures
            r == (InvoiceTaxLineBuilder { tax_amount: Some(value), ..self }),
    {
        let mut s = self;
        s.tax_amount = Some(value);
        s
    }

    /// Build the record, with a fresh id and blank audit data; an error names the first
    /// required field that is missing. Unset fields with a default take it.
    pub fn build(self) -> (r: Result<InvoiceTaxLine, String>)
        ensures
            match r {
                Ok(e) => {
                    &&& self.invoice_ref is Some
                    &&& self.invoice_kind is Some
                    &&& self.company_id is Some
                    &&& self.account_id is Some
                    &&& self.basis is Some
                    &&& self.tax_amount is Some
                    &&& e == (InvoiceTaxLine {
                        id: e.id,
                        invoice_ref: self.invoice_ref.unwrap(),
                        invoice_kind: self.invoice_kind.unwrap(),
                        company_id: self.company_id.unwrap(),
                        account_id: self.account_id.unwrap(),
                        basis: self.basis.unwrap(),
                        description: self.description,
                        taxable_base: match self.taxable_base {
                            Some(v) => v,
                            None => Dec { mantissa: 0, scale: 0 },
                        },
                        rate: match self.rate {
                            Some(v) => v,
                            None => Dec { mantissa: 0, scale: 0 },
                        },
                        tax_amount: self.tax_amount.unwrap(),
                        metadata: AuditMetadata::blank()
                    })
                },
                Err(m) => if self.invoice_ref is None {
                    m@ == "invoice_ref is required"@
                } else if self.invoice_kind is None {
                    m@ == "invoice_kind is required"@
                } else if self.company_id is None {
                    m@ == "company_id is required"@
                } else if self.account_id is None {
                    m@ == "account_id is required"@
                } else if self.basis is None {
                    m@ == "basis is required"@
                } else if self.tax_amount is None {
                    m@ == "tax_amount is required"@
                } else {
                    false
                },
            },
    {
        let InvoiceTaxLineBuilder {
            invoice_ref,
            invoice_kind,
            company_id,
            account_id,
            basis,
            description,
            taxable_base,
            rate,
            tax_amount,
        } = self;
        let invoice_ref = match invoice_ref {
            Some(v) => v,
            None => {
                return Err("invoice_ref is required".to_string());
            },
        };
        let invoice_kind = match invoice_kind {
            Some(v) => v,
            None => {
                return Err("invoice_kind is required".to_string());
            },
        };
        let company_id = match company_id {
            Some(v) => v,
            None => {
                return Err("company_id is required".to_string());
            },
        };
        let account_id = match account_id {
            Some(v) => v,
            None => {
                return Err("account_id is required".to_string());
            },
        };
        let basis = match basis {
            Some(v) => v,
            None => {
                return Err("basis is required".to_string());
            },
        };
        let tax_amount = match tax_amount {
            Some(v) => v,
            None => {
                return Err("tax_amount is required".to_string());
            },
        };
        Ok(InvoiceTaxLine {
            id: new_entity_id(),
            invoice_ref,
            invoice_kind,
            company_id,
            account_id,
            basis,
            description,
            taxable_base: match taxable_base {
                Some(v) => v,
                None => Dec::zero(),
            },
            rate: match rate {
                Some(v) => v,
                None => Dec::zero(),
            },
            tax_amount,
            metadata: AuditMetadata::default(),
        })
    }
}

impl Default for InvoiceTaxLineBuilder {
    fn default() -> (r: Self)
        ensures
            r == InvoiceTaxLineBuilder::blank(),
    {
        InvoiceTaxLineBuilder {
            invoice_ref: None,
            invoice_kind: None,
            company_id: None,
            account_id: None,
            basis: None,
            description: None,
            taxable_base: None,
            rate: None,
            tax_amount: None,
        }
    }
}

} // verus!
