//! The payment term record (`PaymentTerm`): its typed id, constructor, accessors, partial update and
//! builder.
//!
//! Ids are 128-bit UUID values, timestamps are microseconds since the Unix epoch (UTC), and
//! JSON documents are held as their text.
use vstd::prelude::*;

use crate::dec::Dec;
use crate::domain::discount_tax_basis::DiscountTaxBasis;
use crate::domain::payment_term_status::PaymentTermStatus;
use crate::entity::new_entity_id;
use crate::entity::replace_if_some;
use crate::entity::AuditMetadata;

verus! {

broadcast use vstd::string::group_string_axioms;

/// Strongly-typed id of a [`PaymentTerm`].
#[derive(Debug, Clone, Copy, PartialEq, Eq, Hash, Structural)]
pub struct PaymentTermId(pub u128);

impl PaymentTermId {
    /// Wrap an id.
    pub fn new(id: u128) -> (r: Self)
        ensures
            r.0 == id,
    {
        PaymentTermId(id)
    }

    /// A fresh random id.
    pub fn generate() -> (r: Self) {
        PaymentTermId(new_entity_id())
    }

    /// The id inside.
    pub fn into_inner(self) -> (r: u128)
        ensures
            r == self.0,
    {
        self.0
    }
}

impl From<u128> for PaymentTermId {
    fn from(id: u128) -> (r: Self) {
        PaymentTermId(id)
    }
}

impl vstd::std_specs::convert::FromSpecImpl<u128> for PaymentTermId {
    open spec fn obeys_from_spec() -> bool {
        true
    }

    open spec fn from_spec(v: u128) -> Self {
        PaymentTermId(v)
    }
}

/// A payment term record.
#[derive(Debug, Clone)]
pub struct PaymentTerm {
    pub id: u128,
    pub company_id: Option<u128>,
    pub name: String,
    pub note: Option<String>,
    pub sequence: i32,
    pub status: PaymentTermStatus,
    pub early_discount: bool,
    pub discount_percent: Dec,
    pub discount_days: i32,
    pub discount_account_id: Option<u128>,
    pub discount_tax_basis: DiscountTaxBasis,
    pub metadata: AuditMetadata,
}

/// A partial update of a [`PaymentTerm`]: each field that is `Some` replaces the record's value.
#[derive(Debug, Clone)]
pub struct PaymentTermPatch {
    pub company_id: Option<Option<u128>>,
    pub name: Option<String>,
    pub note: Option<Option<String>>,
    pub sequence: Option<i32>,
    pub status: Option<PaymentTermStatus>,
    pub early_discount: Option<bool>,
    pub discount_percent: Option<Dec>,
    pub discount_days: Option<i32>,
    pub discount_account_id: Option<Option<u128>>,
    pub discount_tax_basis: Option<DiscountTaxBasis>,
}

impl PaymentTermPatch {
    /// The record once this patch is applied.
    pub open spec fn applied_to(self, e: PaymentTerm) -> PaymentTerm {
        PaymentTerm {
            id: e.id,
            company_id: match self.company_id {
                Some(v) => v,
                None => e.company_id,
            },
            name: match self.name {
                Some(v) => v,
                None => e.name,
            },
            note: match self.note {
                Some(v) => v,
                None => e.note,
            },
            sequence: match self.sequence {
                Some(v) => v,
                None => e.sequence,
            },
            status: match self.status {
                Some(v) => v,
                None => e.status,
            },
            early_discount: match self.early_discount {
                Some(v) => v,
                None => e.early_discount,
            },
            discount_percent: match self.discount_percent {
                Some(v) => v,
                None => e.discount_percent,
            },
            discount_days: match self.discount_days {
                Some(v) => v,
                None => e.discount_days,
            },
            discount_account_id: match self.discount_account_id {
                Some(v) => v,
                None => e.discount_account_id,
            },
            discount_tax_basis: match self.discount_tax_basis {
                Some(v) => v,
                None => e.discount_tax_basis,
            },
            metadata: e.metadata,
        }
    }
}

impl PaymentTerm {
    /// A builder with nothing set.
    pub fn builder() -> (r: PaymentTermBuilder)
        ensures
            r == PaymentTermBuilder::blank(),
    {
        PaymentTermBuilder::default()
    }

    /// A new record from its required fields, with a fresh id, the other fields unset and blank
    /// audit data.
    pub fn new(
        name: String,
        sequence: i32,
        status: PaymentTermStatus,
        early_discount: bool,
        discount_percent: Dec,
        discount_days: i32,
        discount_tax_basis: DiscountTaxBasis,
    ) -> (r: Self)
        ensures
            r == (PaymentTerm {
                id: r.id,
                company_id: None,
                name,
                note: None,
                sequence,
                status,
                early_discount,
                discount_percent,
                discount_days,
                discount_account_id: None,
                discount_tax_basis,
                metadata: AuditMetadata::blank(),
            }),
    {
        PaymentTerm {
            id: new_entity_id(),
            company_id: None,
            name,
            note: None,
            sequence,
            status,
            early_discount,
            discount_percent,
            discount_days,
            discount_account_id: None,
            discount_tax_basis,
            metadata: AuditMetadata::default(),
        }
    }

    /// The record's id.
    pub fn id(&self) -> (r: &u128)
        ensures
            *r == self.id,
    {
        &self.id
    }

    /// The record's typed id.
    pub fn typed_id(&self) -> (r: PaymentTermId)
        ensures
            r == PaymentTermId(self.id),
    {
        PaymentTermId(self.id)
    }

    /// When the record was created.
    pub fn created_at(&self) -> (r: Option<&i64>)
        ensures
            r is Some <==> self.metadata.created_at is Some,
            r is Some ==> r->0 == self.metadata.created_at->0,
    {
        self.metadata.created_at.as_ref()
    }

    /// When the record was last updated.
    pub fn updated_at(&self) -> (r: Option<&i64>)
        ensures
            r is Some <==> self.metadata.updated_at is Some,
            r is Some ==> r->0 == self.metadata.updated_at->0,
    {
        self.metadata.updated_at.as_ref()
    }

    /// Whether the record is soft-deleted.
    pub fn is_deleted(&self) -> (r: bool)
        ensures
            r == self.metadata.deleted_at is Some,
    {
        self.metadata.deleted_at.is_some()
    }

    /// Whether the record is active (not soft-deleted).
    pub fn is_active(&self) -> (r: bool)
        ensures
            r == self.metadata.deleted_at is None,
    {
        self.metadata.deleted_at.is_none()
    }

    /// When the record was soft-deleted.
    pub fn deleted_at(&self) -> (r: Option<&i64>)
        ensures
            r is Some <==> self.metadata.deleted_at is Some,
            r is Some ==> r->0 == self.metadata.deleted_at->0,
    {
        self.metadata.deleted_at.as_ref()
    }

    /// Who created the record.
    pub fn created_by(&self) -> (r: Option<&u128>)
        ensures
            r is Some <==> self.metadata.created_by is Some,
            r is Some ==> r->0 == self.metadata.created_by->0,
    {
        self.metadata.created_by.as_ref()
    }

    /// Who last updated the record.
    pub fn updated_by(&self) -> (r: Option<&u128>)
        ensures
            r is Some <==> self.metadata.updated_by is Some,
            r is Some ==> r->0 == self.metadata.updated_by->0,
    {
        self.metadata.updated_by.as_ref()
    }

    /// Who soft-deleted the record.
    pub fn deleted_by(&self) -> (r: Option<&u128>)
        ensures
            r is Some <==> self.metadata.deleted_by is Some,
            r is Some ==> r->0 == self.metadata.deleted_by->0,
    {
        self.metadata.deleted_by.as_ref()
    }

    /// The record's status.
    pub fn status(&self) -> (r: &PaymentTermStatus)
        ensures
            *r == self.status,
    {
        &self.status
    }

    /// The record with `company_id` set.
    pub fn with_company_id(self, value: u128) -> (r: Self)
        ensures
            r == (PaymentTerm { company_id: Some(value), ..self }),
    {
        let mut s = self;
        s.company_id = Some(value);
        s
    }

    /// The record with `note` set.
    pub fn with_note(self, value: String) -> (r: Self)
        ensures
            r == (PaymentTerm { note: Some(value), ..self }),
    {
        let mut s = self;
        s.note = Some(value);
        s
    }

    /// The record with `discount_account_id` set.
    pub fn with_discount_account_id(self, value: u128) -> (r: Self)
        ensures
            r == (PaymentTerm { discount_account_id: Some(value), ..self }),
    {
        let mut s = self;
        s.discount_account_id = Some(value);
        s
    }

    /// Apply a partial update: each field the patch holds replaces the record's value.
    pub fn apply_patch(&mut self, patch: PaymentTermPatch)
        ensures
            *final(self) == patch.applied_to(*old(self)),
    {
        let PaymentTermPatch {
            company_id,
            name,
            note,
            sequence,
            status,
            early_discount,
            discount_percent,
            discount_days,
            discount_account_id,
            discount_tax_basis,
        } = patch;
        replace_if_some(&mut self.company_id, company_id);
        replace_if_some(&mut self.name, name);
        replace_if_some(&mut self.note, note);
        replace_if_some(&mut self.sequence, sequence);
        replace_if_some(&mut self.status, status);
        replace_if_some(&mut self.early_discount, early_discount);
        replace_if_some(&mut self.discount_percent, discount_percent);
        replace_if_some(&mut self.discount_days, discount_days);
        replace_if_some(&mut self.discount_account_id, discount_account_id);
        replace_if_some(&mut self.discount_tax_basis, discount_tax_basis);
    }
}

/// A fluent builder of a [`PaymentTerm`]; the id and the audit data are set when it is built.
#[derive(Debug, Clone)]
pub struct PaymentTermBuilder {
    pub company_id: Option<u128>,
    pub name: Option<String>,
    pub note: Option<String>,
    pub sequence: Option<i32>,
    pub status: Option<PaymentTermStatus>,
    pub early_discount: Option<bool>,
    pub discount_percent: Option<Dec>,
    pub discount_days: Option<i32>,
    pub discount_account_id: Option<u128>,
    pub discount_tax_basis: Option<DiscountTaxBasis>,
}

impl PaymentTermBuilder {
    /// A builder with nothing set.
    pub open spec fn blank() -> Self {
        PaymentTermBuilder { company_id: None, name: None, note: None, sequence: None, status: None, early_discount: None, discount_percent: None, discount_days: None, discount_account_id: None, discount_tax_basis: None }
    }

    /// Set `company_id` (optional).
    pub fn company_id(self, value: u128) -> (r: Self)
        ensures
            r == (PaymentTermBuilder { company_id: Some(value), ..self }),
    {
        let mut s = self;
        s.company_id = Some(value);
        s
    }

    /// Set `name` (required).
    pub fn name(self, value: String) -> (r: Self)
        ensures
            r == (PaymentTermBuilder { name: Some(value), ..self }),
    {
        let mut s = self;
        s.name = Some(value);
        s
    }

    /// Set `note` (optional).
    pub fn note(self, value: String) -> (r: Self)
        ensures
            r == (PaymentTermBuilder { note: Some(value), ..self }),
    {
        let mut s = self;
        s.note = Some(value);
        s
    }

    /// Set `sequence` (has a default).
    pub fn sequence(self, value: i32) -> (r: Self)
        ensures
            r == (PaymentTermBuilder { sequence: Some(value), ..self }),
    {
        let mut s = self;
        s.sequence = Some(value);
        s
    }

    /// Set `status` (has a default).
    pub fn status(self, value: PaymentTermStatus) -> (r: Self)
        ensures
            r == (PaymentTermBuilder { status: Some(value), ..self }),
    {
        let mut s = self;
        s.status = Some(value);
        s
    }

    /// Set `early_discount` (has a default).
    pub fn early_discount(self, value: bool) -> (r: Self)
        ensures
            r == (PaymentTermBuilder { early_discount: Some(value), ..self }),
    {
        let mut s = self;
        s.early_discount = Some(value);
        s
    }

    /// Set `discount_percent` (has a default).
    pub fn discount_percent(self, value: Dec) -> (r: Self)
        ensures
            r == (PaymentTermBuilder { discount_percent: Some(value), ..self }),
    {
        let mut s = self;
        s.discount_percent = Some(value);
        s
    }

    /// Set `discount_days` (has a default).
    pub fn discount_days(self, value: i32) -> (r: Self)
        ensures
            r == (PaymentTermBuilder { discount_days: Some(value), ..self }),
    {
        let mut s = self;
        s.discount_days = Some(value);
        s
    }

    /// Set `discount_account_id` (optional).
    pub fn discount_account_id(self, value: u128) -> (r: Self)
        ensures
            r == (PaymentTermBuilder { discount_account_id: Some(value), ..self }),
    {
        let mut s = self;
        s.discount_account_id = Some(value);
        s
    }

    /// Set `discount_tax_basis` (has a default).
    pub fn discount_tax_basis(self, value: DiscountTaxBasis) -> (r: Self)
        ensures
            r == (PaymentTermBuilder { discount_tax_basis: Some(value), ..self }),
    {
        let mut s = self;
        s.discount_tax_basis = Some(value);
        s
    }

    /// Build the record, with a fresh id and blank audit data; an error names the first
    /// required field that is missing. Unset fields with a default take it.
    pub fn build(self) -> (r: Result<PaymentTerm, String>)
        ensures
            match r {
                Ok(e) => {
                    &&& self.name is Some
                    &&& e == (PaymentTerm {
                        id: e.id,
                        company_id: self.company_id,
                        name: self.name.unwrap(),
                        note: self.note,
                        sequence: match self.sequence {
                            Some(v) => v,
                            None => 10,
                        },
                        status: match self.status {
                            Some(v) => v,
                            None => PaymentTermStatus::Active,
                        },
                        early_discount: match self.early_discount {
                            Some(v) => v,
                            None => false,
                        },
                        discount_percent: match self.discount_percent {
                            Some(v) => v,
                            None => Dec { mantissa: 0, scale: 0 },
                        },
                        discount_days: match self.discount_days {
                            Some(v) => v,
                            None => 0,
                        },
                        discount_account_id: self.discount_account_id,
                        discount_tax_basis: match self.discount_tax_basis {
                            Some(v) => v,
                            None => DiscountTaxBasis::Included,
                        },
                        metadata: AuditMetadata::blank()
                    })
                },
                Err(m) => if self.name is None {
                    m@ == "name is required"@
                } else {
                    false
                },
            },
    {
        let PaymentTermBuilder {
            company_id,
            name,
            note,
            sequence,
            status,
            early_discount,
            discount_percent,
            discount_days,
            discount_account_id,
            discount_tax_basis,
        } = self;
        let name = match name {
            Some(v) => v,
            None => {
                return Err("name is required".to_string());
            },
        };
        Ok(PaymentTerm {
            id: new_entity_id(),
            company_id,
            name,
            note,
            sequence: match sequence {
                Some(v) => v,
                None => 10,
            },
            status: match status {
                Some(v) => v,
                None => PaymentTermStatus::default(),
            },
            early_discount: match early_discount {
                Some(v) => v,
                None => false,
            },
            discount_percent: match discount_percent {
                Some(v) => v,
                None => Dec::zero(),
            },
            discount_days: match discount_days {
                Some(v) => v,
                None => 0,
            },
            discount_account_id,
            discount_tax_basis: match discount_tax_basis {
                Some(v) => v,
                None => DiscountTaxBasis::default(),
            },
            metadata: AuditMetadata::default(),
        })
    }
}

impl Default for PaymentTermBuilder {
    fn default() -> (r: Self)
        ensures
            r == PaymentTermBuilder::blank(),
    {
        PaymentTermBuilder {
            company_id: None,
            name: None,
            note: None,
            sequence: None,
            status: None,
            early_discount: None,
            discount_percent: None,
            discount_days: None,
            discount_account_id: None,
            discount_tax_basis: None,
        }
    }
}

} // verus!
