//! The invoice line item record (`InvoiceLineItem`): its typed id, constructor, accessors, partial update and
//! builder.
//!
//! Ids are 128-bit UUID values, timestamps are microseconds since the Unix epoch (UTC), and
//! JSON documents are held as their text.
use vstd::prelude::*;

use crate::dec::Dec;
use crate::entity::new_entity_id;
use crate::entity::replace_if_some;
use crate::entity::AuditMetadata;

verus! {

broadcast use vstd::string::group_string_axioms;

/// Strongly-typed id of an [`InvoiceLineItem`].
#[derive(Debug, Clone, Copy, PartialEq, Eq, Hash, Structural)]
pub struct InvoiceLineItemId(pub u128);

impl InvoiceLineItemId {
    /// Wrap an id.
    pub fn new(id: u128) -> (r: Self)
        ensures
            r.0 == id,
    {
        InvoiceLineItemId(id)
    }

    /// A fresh random id.
    pub fn generate() -> (r: Self) {
        InvoiceLineItemId(new_entity_id())
    }

    /// The id inside.
    pub fn into_inner(self) -> (r: u128)
        ensures
            r == self.0,
    {
        self.0
    }
}

impl From<u128> for InvoiceLineItemId {
    fn from(id: u128) -> (r: Self) {
        InvoiceLineItemId(id)
    }
}

impl vstd::std_specs::convert::FromSpecImpl<u128> for InvoiceLineItemId {
    open spec fn obeys_from_spec() -> bool {
        true
    }

    open spec fn from_spec(v: u128) -> Self {
        InvoiceLineItemId(v)
    }
}

/// An invoice line item record.
#[derive(Debug, Clone)]
pub struct InvoiceLineItem {
    pub id: u128,
    pub invoice_id: u128,
    pub sort_order: i32,
    pub description: String,
    pub quantity: Dec,
    pub unit_price: Dec,
    pub amount: Dec,
    pub metadata: AuditMetadata,
}

/// A partial update of an [`InvoiceLineItem`]: each field that is `Some` replaces the record's value.
#[derive(Debug, Clone)]
pub struct InvoiceLineItemPatch {
    pub invoice_id: Option<u128>,
    pub sort_order: Option<i32>,
    pub description: Option<String>,
    pub quantity: Option<Dec>,
    pub unit_price: Option<Dec>,
    pub amount: Option<Dec>,
}

impl InvoiceLineItemPatch {
    /// The record once this patch is applied.
    pub open spec fn applied_to(self, e: InvoiceLineItem) -> InvoiceLineItem {
        InvoiceLineItem {
            id: e.id,
            invoice_id: match self.invoice_id {
                Some(v) => v,
                None => e.invoice_id,
            },
            sort_order: match self.sort_order {
                Some(v) => v,
                None => e.sort_order,
            },
            description: match self.description {
                Some(v) => v,
                None => e.description,
            },
            quantity: match self.quantity {
                Some(v) => v,
                None => e.quantity,
            },
            unit_price: match self.unit_price {
                Some(v) => v,
                None => e.unit_price,
            },
            amount: match self.amount {
                Some(v) => v,
                None => e.amount,
            },
            metadata: e.metadata,
        }
    }
}

impl InvoiceLineItem {
    /// A builder with nothing set.
    pub fn builder() -> (r: InvoiceLineItemBuilder)
        ensures
            r == InvoiceLineItemBuilder::blank(),
    {
        InvoiceLineItemBuilder::default()
    }

    /// A new record from its required fields, with a fresh id, the other fields unset and blank
    /// audit data.
    pub fn new(
        invoice_id: u128,
        sort_order: i32,
        description: String,
        quantity: Dec,
        unit_price: Dec,
        amount: Dec,
    ) -> (r: Self)
        ensures
            r == (InvoiceLineItem {
                id: r.id,
                invoice_id,
                sort_order,
                description,
                quantity,
                unit_price,
                amount,
                metadata: AuditMetadata::blank(),
            }),
    {
        InvoiceLineItem {
            id: new_entity_id(),
            invoice_id,
            sort_order,
            description,
            quantity,
            unit_price,
            amount,
            metadata: AuditMetadata::default(),
        }
    }

    /// The record's id.
    pub fn id(&self) -> (r: &u128)
        ensures
            *r == self.id,
    {
        &self.id
    }

    /// The record's typed id.
    pub fn typed_id(&self) -> (r: InvoiceLineItemId)
        ensures
            r == InvoiceLineItemId(self.id),
    {
        InvoiceLineItemId(self.id)
    }

    /// When the record was created.
    pub fn created_at(&self) -> (r: Option<&i64>)
        ensures
            r is Some <==> self.metadata.created_at is Some,
            r is Some ==> r->0 == self.metadata.created_at->0,
    {
        self.metadata.created_at.as_ref()
    }

    /// When the record was last updated.
    pub fn updated_at(&self) -> (r: Option<&i64>)
        ensures
            r is Some <==> self.metadata.updated_at is Some,
            r is Some ==> r->0 == self.metadata.updated_at->0,
    {
        self.metadata.updated_at.as_ref()
    }

    /// Whether the record is soft-deleted.
    pub fn is_deleted(&self) -> (r: bool)
        ensures
            r == self.metadata.deleted_at is Some,
    {
        self.metadata.deleted_at.is_some()
    }

    /// Whether the record is active (not soft-deleted).
    pub fn is_active(&self) -> (r: bool)
        ensures
            r == self.metadata.deleted_at is None,
    {
        self.metadata.deleted_at.is_none()
    }

    /// When the record was soft-deleted.
    pub fn deleted_at(&self) -> (r: Option<&i64>)
        ensures
            r is Some <==> self.metadata.deleted_at is Some,
            r is Some ==> r->0 == self.metadata.deleted_at->0,
    {
        self.metadata.deleted_at.as_ref()
    }

    /// Who created the record.
    pub fn created_by(&self) -> (r: Option<&u128>)
        ensures
            r is Some <==> self.metadata.created_by is Some,
            r is Some ==> r->0 == self.metadata.created_by->0,
    {
        self.metadata.created_by.as_ref()
    }

    /// Who last updated the record.
    pub fn updated_by(&self) -> (r: Option<&u128>)
        ensures
            r is Some <==> self.metadata.updated_by is Some,
            r is Some ==> r->0 == self.metadata.updated_by->0,
    {
        self.metadata.updated_by.as_ref()
    }

    /// Who soft-deleted the record.
    pub fn deleted_by(&self) -> (r: Option<&u128>)
        ensures
            r is Some <==> self.metadata.deleted_by is Some,
            r is Some ==> r->0 == self.metadata.deleted_by->0,
    {
        self.metadata.deleted_by.as_ref()
    }

    /// Apply a partial update: each field the patch holds replaces the record's value.
    pub fn apply_patch(&mut self, patch: InvoiceLineItemPatch)
        ensures
            *final(self) == patch.applied_to(*old(self)),
    {
        let InvoiceLineItemPatch {
            invoice_id,
            sort_order,
            description,
            quantity,
            unit_price,
            amount,
        } = patch;
        replace_if_some(&mut self.invoice_id, invoice_id);
        replace_if_some(&mut self.sort_order, sort_order);
        replace_if_some(&mut self.description, description);
        replace_if_some(&mut self.quantity, quantity);
        replace_if_some(&mut self.unit_price, unit_price);
        replace_if_some(&mut self.amount, amount);
    }
}

/// A fluent builder of an [`InvoiceLineItem`]; the id and the audit data are set when it is built.
#[derive(Debug, Clone)]
pub struct InvoiceLineItemBuilder {
    pub invoice_id: Option<u128>,
    pub sort_order: Option<i32>,
    pub description: Option<String>,
    pub quantity: Option<Dec>,
    pub unit_price: Option<Dec>,
    pub amount: Option<Dec>,
}

impl InvoiceLineItemBuilder {
    /// A builder with nothing set.
    pub open spec fn blank() -> Self {
        InvoiceLineItemBuilder { invoice_id: None, sort_order: None, description: None, quantity: None, unit_price: None, amount: None }
    }

    /// Set `invoice_id` (required).
    pub fn invoice_id(self, value: u128) -> (r: Self)
        ensures
            r == (InvoiceLineItemBuilder { invoice_id: Some(value), ..self }),
    {
        let mut s = self;
        s.invoice_id = Some(value);
        s
    }

    /// Set `sort_order` (has a default).
    pub fn sort_order(self, value: i32) -> (r: Self)
        ensures
            r == (InvoiceLineItemBuilder { sort_order: Some(value), ..self }),
    {
        let mut s = self;
        s.sort_order = Some(value);
        s
    }

    /// Set `description` (required).
    pub fn description(self, value: String) -> (r: Self)
        ensures
            r == (InvoiceLineItemBuilder { description: Some(value), ..self }),
    {
        let mut s = self;
        s.description = Some(value);
        s
    }

    /// Set `quantity` (required).
    pub fn quantity(self, value: Dec) -> (r: Self)
        ensures
            r == (InvoiceLineItemBuilder { quantity: Some(value), ..self }),
    {
        let mut s = self;
        s.quantity = Some(value);
        s
    }

    /// Set `unit_price` (required).
    pub fn unit_price(self, value: Dec) -> (r: Self)
        ensures
            r == (InvoiceLineItemBuilder { unit_price: Some(value), ..self }),
    {
        let mut s = self;
        s.unit_price = Some(value);
        s
    }

    /// Set `amount` (required).
    pub fn amount(self, value: Dec) -> (r: Self)
        ensures
            r == (InvoiceLineItemBuilder { amount: Some(value), ..self }),
    {
        let mut s = self;
        s.amount = Some(value);
        s
    }

    /// Build the record, with a fresh id and blank audit data; an error names the first
    /// required field that is missing. Unset fields with a default take it.
    pub fn build(self) -> (r: Result<InvoiceLineItem, String>)
        ensures
            match r {
                Ok(e) => {
                    &&& self.invoice_id is Some
                    &&& self.description is Some
                    &&& self.quantity is Some
                    &&& self.unit_price is Some
                    &&& self.amount is Some
                    &&& e == (InvoiceLineItem {
                        id: e.id,
                        invoice_id: self.invoice_id.unwrap(),
                        sort_order: match self.sort_order {
                            Some(v) => v,
                            None => 0,
                        },
                        description: self.description.unwrap(),
                        quantity: self.quantity.unwrap(),
                        unit_price: self.unit_price.unwrap(),
                        amount: self.amount.unwrap(),
                        metadata: AuditMetadata::blank()
                    })
                },
                Err(m) => if self.invoice_id is None {
                    m@ == "invoice_id is required"@
                } else if self.description is None {
                    m@ == "description is required"@
                } else if self.quantity is None {
                    m@ == "quantity is required"@
                } else if self.unit_price is None {
                    m@ == "unit_price is required"@
                } else if self.amount is None {
                    m@ == "amount is required"@
                } else {
                    false
                },
            },
    {
        let InvoiceLineItemBuilder {
            invoice_id,
            sort_order,
            description,
            quantity,
            unit_price,
            amount,
        } = self;
        let invoice_id = match invoice_id {
            Some(v) => v,
            None => {
                return Err("invoice_id is required".to_string());
            },
        };
        let description = match description {
            Some(v) => v,
            None => {
                return Err("description is required".to_string());
            },
        };
        let quantity = match quantity {
            Some(v) => v,
            None => {
                return Err("quantity is required".to_string());
            },
        };
        let unit_price = match unit_price {
            Some(v) => v,
            None => {
                return Err("unit_price is required".to_string());
            },
        };
        let amount = match amount {
            Some(v) => v,
            None => {
                return Err("amount is required".to_string());
            },
        };
        Ok(InvoiceLineItem {
            id: new_entity_id(),
            invoice_id,
            sort_order: match sort_order {
                Some(v) => v,
                None => 0,
            },
            description,
            quantity,
            unit_price,
            amount,
            metadata: AuditMetadata::default(),
        })
    }
}

impl Default for InvoiceLineItemBuilder {
    fn default() -> (r: Self)
        ensures
            r == InvoiceLineItemBuilder::blank(),
    {
        InvoiceLineItemBuilder {
            invoice_id: None,
            sort_order: None,
            description: None,
            quantity: None,
            unit_price: None,
            amount: None,
        }
    }
}

} // verus!
