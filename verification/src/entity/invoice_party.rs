//! The invoice party record (`InvoiceParty`): its typed id, constructor, accessors, partial update and
//! builder.
//!
//! Ids are 128-bit UUID values, timestamps are microseconds since the Unix epoch (UTC), and
//! JSON documents are held as their text.
use vstd::prelude::*;

use crate::domain::invoice_party_role::InvoicePartyRole;
use crate::domain::invoice_party_type::InvoicePartyType;
use crate::entity::new_entity_id;
use crate::entity::replace_if_some;
use crate::entity::AuditMetadata;

verus! {

broadcast use vstd::string::group_string_axioms;

/// Strongly-typed id of an [`InvoiceParty`].
#[derive(Debug, Clone, Copy, PartialEq, Eq, Hash, Structural)]
pub struct InvoicePartyId(pub u128);

impl InvoicePartyId {
    /// Wrap an id.
    pub fn new(id: u128) -> (r: Self)
        ensures
            r.0 == id,
    {
        InvoicePartyId(id)
    }

    /// A fresh random id.
    pub fn generate() -> (r: Self) {
        InvoicePartyId(new_entity_id())
    }

    /// The id inside.
    pub fn into_inner(self) -> (r: u128)
        ensures
            r == self.0,
    {
        self.0
    }
}

impl From<u128> for InvoicePartyId {
    fn from(id: u128) -> (r: Self) {
        InvoicePartyId(id)
    }
}

impl vstd::std_specs::convert::FromSpecImpl<u128> for InvoicePartyId {
    open spec fn obeys_from_spec() -> bool {
        true
    }

    open spec fn from_spec(v: u128) -> Self {
        InvoicePartyId(v)
    }
}

/// An invoice party record.
#[derive(Debug, Clone)]
pub struct InvoiceParty {
    pub id: u128,
    pub invoice_id: u128,
    pub role: InvoicePartyRole,
    pub party_type: InvoicePartyType,
    pub party_id: Option<u128>,
    pub name: String,
    pub email: Option<String>,
    pub address: Option<String>,
    pub tax_id: Option<String>,
    pub metadata: AuditMetadata,
}

/// A partial update of an [`InvoiceParty`]: each field that is `Some` replaces the record's value.
#[derive(Debug, Clone)]
pub struct InvoicePartyPatch {
    pub invoice_id: Option<u128>,
    pub role: Option<InvoicePartyRole>,
    pub party_type: Option<InvoicePartyType>,
    pub party_id: Option<Option<u128>>,
    pub name: Option<String>,
    pub email: Option<Option<String>>,
    pub address: Option<Option<String>>,
    pub tax_id: Option<Option<String>>,
}

impl InvoicePartyPatch {
    /// The record once this patch is applied.
    pub open spec fn applied_to(self, e: InvoiceParty) -> InvoiceParty {
        InvoiceParty {
            id: e.id,
            invoice_id: match self.invoice_id {
                Some(v) => v,
                None => e.invoice_id,
            },
            role: match self.role {
                Some(v) => v,
                None => e.role,
            },
            party_type: match self.party_type {
                Some(v) => v,
                None => e.party_type,
            },
            party_id: match self.party_id {
                Some(v) => v,
                None => e.party_id,
            },
            name: match self.name {
                Some(v) => v,
                None => e.name,
            },
            email: match self.email {
                Some(v) => v,
                None => e.email,
            },
            address: match self.address {
                Some(v) => v,
                None => e.address,
            },
            tax_id: match self.tax_id {
                Some(v) => v,
                None => e.tax_id,
            },
            metadata: e.metadata,
        }
    }
}

impl InvoiceParty {
    /// A builder with nothing set.
    pub fn builder() -> (r: InvoicePartyBuilder)
        ensures
            r == InvoicePartyBuilder::blank(),
    {
        InvoicePartyBuilder::default()
    }

    /// A new record from its required fields, with a fresh id, the other fields unset and blank
    /// audit data.
    pub fn new(
        invoice_id: u128,
        role: InvoicePartyRole,
        party_type: InvoicePartyType,
        name: String,
    ) -> (r: Self)
        ensures
            r == (InvoiceParty {
                id: r.id,
                invoice_id,
                role,
                party_type,
                party_id: None,
                name,
                email: None,
                address: None,
                tax_id: None,
                metadata: AuditMetadata::blank(),
            }),
    {
        InvoiceParty {
            id: new_entity_id(),
            invoice_id,
            role,
            party_type,
            party_id: None,
            name,
            email: None,
            address: None,
            tax_id: None,
            metadata: AuditMetadata::default(),
        }
    }

    /// The record's id.
    pub fn id(&self) -> (r: &u128)
        ensures
            *r == self.id,
    {
        &self.id
    }

    /// The record's typed id.
    pub fn typed_id(&self) -> (r: InvoicePartyId)
        ensures
            r == InvoicePartyId(self.id),
    {
        InvoicePartyId(self.id)
    }

    /// When the record was created.
    pub fn created_at(&self) -> (r: Option<&i64>)
        ensures
            r is Some <==> self.metadata.created_at is Some,
            r is Some ==> r->0 == self.metadata.created_at->0,
    {
        self.metadata.created_at.as_ref()
    }

    /// When the record was last updated.
    pub fn updated_at(&self) -> (r: Option<&i64>)
        ensures
            r is Some <==> self.metadata.updated_at is Some,
            r is Some ==> r->0 == self.metadata.updated_at->0,
    {
        self.metadata.updated_at.as_ref()
    }

    /// Whether the record is soft-deleted.
    pub fn is_deleted(&self) -> (r: bool)
        ensures
            r == self.metadata.deleted_at is Some,
    {
        self.metadata.deleted_at.is_some()
    }

    /// Whether the record is active (not soft-deleted).
    pub fn is_active(&self) -> (r: bool)
        ensures
            r == self.metadata.deleted_at is None,
    {
        self.metadata.deleted_at.is_none()
    }

    /// When the record was soft-deleted.
    pub fn deleted_at(&self) -> (r: Option<&i64>)
        ensures
            r is Some <==> self.metadata.deleted_at is Some,
            r is Some ==> r->0 == self.metadata.deleted_at->0,
    {
        self.metadata.deleted_at.as_ref()
    }

    /// Who created the record.
    pub fn created_by(&self) -> (r: Option<&u128>)
        ensures
            r is Some <==> self.metadata.created_by is Some,
            r is Some ==> r->0 == self.metadata.created_by->0,
    {
        self.metadata.created_by.as_ref()
    }

    /// Who last updated the record.
    pub fn updated_by(&self) -> (r: Option<&u128>)
        ensures
            r is Some <==> self.metadata.updated_by is Some,
            r is Some ==> r->0 == self.metadata.updated_by->0,
    {
        self.metadata.updated_by.as_ref()
    }

    /// Who soft-deleted the record.
    pub fn deleted_by(&self) -> (r: Option<&u128>)
        ensures
            r is Some <==> self.metadata.deleted_by is Some,
            r is Some ==> r->0 == self.metadata.deleted_by->0,
    {
        self.metadata.deleted_by.as_ref()
    }

    /// The record with `party_id` set.
    pub fn with_party_id(self, value: u128) -> (r: Self)
        ensures
            r == (InvoiceParty { party_id: Some(value), ..self }),
    {
        let mut s = self;
        s.party_id = Some(value);
        s
    }

    /// The record with `email` set.
    pub fn with_email(self, value: String) -> (r: Self)
        ensures
            r == (InvoiceParty { email: Some(value), ..self }),
    {
        let mut s = self;
        s.email = Some(value);
        s
    }

    /// The record with `address` set.
    pub fn with_address(self, value: String) -> (r: Self)
        ensures
            r == (InvoiceParty { address: Some(value), ..self }),
    {
        let mut s = self;
        s.address = Some(value);
        s
    }

    /// The record with `tax_id` set.
    pub fn with_tax_id(self, value: String) -> (r: Self)
        ensures
            r == (InvoiceParty { tax_id: Some(value), ..self }),
    {
        let mut s = self;
        s.tax_id = Some(value);
        s
    }

    /// Apply a partial update: each field the patch holds replaces the record's value.
    pub fn apply_patch(&mut self, patch: InvoicePartyPatch)
        ensures
            *final(self) == patch.applied_to(*old(self)),
    {
        let InvoicePartyPatch {
            invoice_id,
            role,
            party_type,
            party_id,
            name,
            email,
            address,
            tax_id,
        } = patch;
        replace_if_some(&mut self.invoice_id, invoice_id);
        replace_if_some(&mut self.role, role);
        replace_if_some(&mut self.party_type, party_type);
        replace_if_some(&mut self.party_id, party_id);
        replace_if_some(&mut self.name, name);
        replace_if_some(&mut self.email, email);
        replace_if_some(&mut self.address, address);
        replace_if_some(&mut self.tax_id, tax_id);
    }
}

/// A fluent builder of an [`InvoiceParty`]; the id and the audit data are set when it is built.
#[derive(Debug, Clone)]
pub struct InvoicePartyBuilder {
    pub invoice_id: Option<u128>,
    pub role: Option<InvoicePartyRole>,
    pub party_type: Option<InvoicePartyType>,
    pub party_id: Option<u128>,
    pub name: Option<String>,
    pub email: Option<String>,
    pub address: Option<String>,
    pub tax_id: Option<String>,
}

impl InvoicePartyBuilder {
    /// A builder with nothing set.
    pub open spec fn blank() -> Self {
        InvoicePartyBuilder { invoice_id: None, role: None, party_type: None, party_id: None, name: None, email: None, address: None, tax_id: None }
    }

    /// Set `invoice_id` (required).
    pub fn invoice_id(self, value: u128) -> (r: Self)
        ensures
            r == (InvoicePartyBuilder { invoice_id: Some(value), ..self }),
    {
        let mut s = self;
        s.invoice_id = Some(value);
        s
    }

    /// Set `role` (required).
    pub fn role(self, value: InvoicePartyRole) -> (r: Self)
        ensures
            r == (InvoicePartyBuilder { role: Some(value), ..self }),
    {
        let mut s = self;
        s.role = Some(value);
        s
    }

    /// Set `party_type` (required).
    pub fn party_type(self, value: InvoicePartyType) -> (r: Self)
        ensures
            r == (InvoicePartyBuilder { party_type: Some(value), ..self }),
    {
        let mut s = self;
        s.party_type = Some(value);
        s
    }

    /// Set `party_id` (optional).
    pub fn party_id(self, value: u128) -> (r: Self)
        ensures
            r == (InvoicePartyBuilder { party_id: Some(value), ..self }),
    {
        let mut s = self;
        s.party_id = Some(value);
        s
    }

    /// Set `name` (required).
    pub fn name(self, value: String) -> (r: Self)
        ensures
            r == (InvoicePartyBuilder { name: Some(value), ..self }),
    {
        let mut s = self;
        s.name = Some(value);
        s
    }

    /// Set `email` (optional).
    pub fn email(self, value: String) -> (r: Self)
        ensures
            r == (InvoicePartyBuilder { email: Some(value), ..self }),
    {
        let mut s = self;
        s.email = Some(value);
        s
    }

    /// Set `address` (optional).
    pub fn address(self, value: String) -> (r: Self)
        ensures
            r == (InvoicePartyBuilder { address: Some(value), ..self }),
    {
        let mut s = self;
        s.address = Some(value);
        s
    }

    /// Set `tax_id` (optional).
    pub fn tax_id(self, value: String) -> (r: Self)
        ensures
            r == (InvoicePartyBuilder { tax_id: Some(value), ..self }),
    {
        let mut s = self;
        s.tax_id = Some(value);
        s
    }

    /// Build the record, with a fresh id and blank audit data; an error names the first
    /// required field that is missing. Unset fields with a default take it.
    pub fn build(self) -> (r: Result<InvoiceParty, String>)
        ensures
            match r {
                Ok(e) => {
                    &&& self.invoice_id is Some
                    &&& self.role is Some
                    &&& self.party_type is Some
                    &&& self.name is Some
                    &&& e == (InvoiceParty {
                        id: e.id,
                        invoice_id: self.invoice_id.unwrap(),
                        role: self.role.unwrap(),
                        party_type: self.party_type.unwrap(),
                        party_id: self.party_id,
                        name: self.name.unwrap(),
                        email: self.email,
                        address: self.address,
                        tax_id: self.tax_id,
                        metadata: AuditMetadata::blank()
                    })
                },
                Err(m) => if self.invoice_id is None {
                    m@ == "invoice_id is required"@
                } else if self.role is None {
                    m@ == "role is required"@
                } else if self.party_type is None {
                    m@ == "party_type is required"@
                } else if self.name is None {
                    m@ == "name is required"@
                } else {
                    false
                },
            },
    {
        let InvoicePartyBuilder {
            invoice_id,
            role,
            party_type,
            party_id,
            name,
            email,
            address,
            tax_id,
        } = self;
        let invoice_id = match invoice_id {
            Some(v) => v,
            None => {
                return Err("invoice_id is required".to_string());
            },
        };
        let role = match role {
            Some(v) => v,
            None => {
                return Err("role is required".to_string());
            },
        };
        let party_type = match party_type {
            Some(v) => v,
            None => {
                return Err("party_type is required".to_string());
            },
        };
        let name = match name {
            Some(v) => v,
            None => {
                return Err("name is required".to_string());
            },
        };
        Ok(InvoiceParty {
            id: new_entity_id(),
            invoice_id,
            role,
            party_type,
            party_id,
            name,
            email,
            address,
            tax_id,
            metadata: AuditMetadata::default(),
        })
    }
}

impl Default for InvoicePartyBuilder {
    fn default() -> (r: Self)
        ensures
            r == InvoicePartyBuilder::blank(),
    {
        InvoicePartyBuilder {
            invoice_id: None,
            role: None,
            party_type: None,
            party_id: None,
            name: None,
            email: None,
            address: None,
            tax_id: None,
        }
    }
}

} // verus!
