//! The payment term line record (`PaymentTermLine`): its typed id, constructor, accessors, partial update and
//! builder.
//!
//! Ids are 128-bit UUID values, timestamps are microseconds since the Unix epoch (UTC), and
//! JSON documents are held as their text.
use vstd::prelude::*;

use crate::dec::Dec;
use crate::domain::payment_term_anchor::PaymentTermAnchor;
use crate::domain::payment_term_delay_type::PaymentTermDelayType;
use crate::domain::payment_term_line_value::PaymentTermLineValue;
use crate::entity::new_entity_id;
use crate::entity::replace_if_some;
use crate::entity::AuditMetadata;

verus! {

broadcast use vstd::string::group_string_axioms;

/// Strongly-typed id of a [`PaymentTermLine`].
#[derive(Debug, Clone, Copy, PartialEq, Eq, Hash, Structural)]
pub struct PaymentTermLineId(pub u128);

impl PaymentTermLineId {
    /// Wrap an id.
    pub fn new(id: u128) -> (r: Self)
        ensures
            r.0 == id,
    {
        PaymentTermLineId(id)
    }

    /// A fresh random id.
    pub fn generate() -> (r: Self) {
        PaymentTermLineId(new_entity_id())
    }

    /// The id inside.
    pub fn into_inner(self) -> (r: u128)
        ensures
            r == self.0,
    {
        self.0
    }
}

impl From<u128> for PaymentTermLineId {
    fn from(id: u128) -> (r: Self) {
        PaymentTermLineId(id)
    }
}

impl vstd::std_specs::convert::FromSpecImpl<u128> for PaymentTermLineId {
    open spec fn obeys_from_spec() -> bool {
        true
    }

    open spec fn from_spec(v: u128) -> Self {
        PaymentTermLineId(v)
    }
}

/// A payment term line record.
#[derive(Debug, Clone)]
pub struct PaymentTermLine {
    pub id: u128,
    pub term_id: u128,
    pub company_id: Option<u128>,
    pub value: PaymentTermLineValue,
    pub value_amount: Dec,
    pub nb_days: i32,
    pub day_of_month: Option<i32>,
    pub delay_type: PaymentTermDelayType,
    pub anchor: PaymentTermAnchor,
    pub sequence: i32,
    pub metadata: AuditMetadata,
}

/// A partial update of a [`PaymentTermLine`]: each field that is `Some` replaces the record's value.
#[derive(Debug, Clone)]
pub struct PaymentTermLinePatch {
    pub term_id: Option<u128>,
    pub company_id: Option<Option<u128>>,
    pub value: Option<PaymentTermLineValue>,
    pub value_amount: Option<Dec>,
    pub nb_days: Option<i32>,
    pub day_of_month: Option<Option<i32>>,
    pub delay_type: Option<PaymentTermDelayType>,
    pub anchor: Option<PaymentTermAnchor>,
    pub sequence: Option<i32>,
}

impl PaymentTermLinePatch {
    /// The record once this patch is applied.
    pub open spec fn applied_to(self, e: PaymentTermLine) -> PaymentTermLine {
        PaymentTermLine {
            id: e.id,
            term_id: match self.term_id {
                Some(v) => v,
                None => e.term_id,
            },
            company_id: match self.company_id {
                Some(v) => v,
                None => e.company_id,
            },
            value: match self.value {
                Some(v) => v,
                None => e.value,
            },
            value_amount: match self.value_amount {
                Some(v) => v,
                None => e.value_amount,
            },
            nb_days: match self.nb_days {
                Some(v) => v,
                None => e.nb_days,
            },
            day_of_month: match self.day_of_month {
                Some(v) => v,
                None => e.day_of_month,
            },
            delay_type: match self.delay_type {
                Some(v) => v,
                None => e.delay_type,
            },
            anchor: match self.anchor {
                Some(v) => v,
                None => e.anchor,
            },
            sequence: match self.sequence {
                Some(v) => v,
                None => e.sequence,
            },
            metadata: e.metadata,
        }
    }
}

impl PaymentTermLine {
    /// A builder with nothing set.
    pub fn builder() -> (r: PaymentTermLineBuilder)
        ensures
            r == PaymentTermLineBuilder::blank(),
    {
        PaymentTermLineBuilder::default()
    }

    /// A new record from its required fields, with a fresh id, the other fields unset and blank
    /// audit data.
    pub fn new(
        term_id: u128,
        value: PaymentTermLineValue,
        value_amount: Dec,
        nb_days: i32,
        delay_type: PaymentTermDelayType,
        anchor: PaymentTermAnchor,
        sequence: i32,
    ) -> (r: Self)
        ensures
            r == (PaymentTermLine {
                id: r.id,
                term_id,
                company_id: None,
                value,
                value_amount,
                nb_days,
                day_of_month: None,
                delay_type,
                anchor,
                sequence,
                metadata: AuditMetadata::blank(),
            }),
    {
        PaymentTermLine {
            id: new_entity_id(),
            term_id,
            company_id: None,
            value,
            value_amount,
            nb_days,
            day_of_month: None,
            delay_type,
            anchor,
            sequence,
            metadata: AuditMetadata::default(),
        }
    }

    /// The record's id.
    pub fn id(&self) -> (r: &u128)
        ensures
            *r == self.id,
    {
        &self.id
    }

    /// The record's typed id.
    pub fn typed_id(&self) -> (r: PaymentTermLineId)
        ensures
            r == PaymentTermLineId(self.id),
    {
        PaymentTermLineId(self.id)
    }

    /// When the record was created.
    pub fn created_at(&self) -> (r: Option<&i64>)
        ensures
            r is Some <==> self.metadata.created_at is Some,
            r is Some ==> r->0 == self.metadata.created_at->0,
    {
        self.metadata.created_at.as_ref()
    }

    /// When the record was last updated.
    pub fn updated_at(&self) -> (r: Option<&i64>)
        ensures
            r is Some <==> self.metadata.updated_at is Some,
            r is Some ==> r->0 == self.metadata.updated_at->0,
    {
        self.metadata.updated_at.as_ref()
    }

    /// Whether the record is soft-deleted.
    pub fn is_deleted(&self) -> (r: bool)
        ensures
            r == self.metadata.deleted_at is Some,
    {
        self.metadata.deleted_at.is_some()
    }

    /// Whether the record is active (not soft-deleted).
    pub fn is_active(&self) -> (r: bool)
        ensures
            r == self.metadata.deleted_at is None,
    {
        self.metadata.deleted_at.is_none()
    }

    /// When the record was soft-deleted.
    pub fn deleted_at(&self) -> (r: Option<&i64>)
        ensures
            r is Some <==> self.metadata.deleted_at is Some,
            r is Some ==> r->0 == self.metadata.deleted_at->0,
    {
        self.metadata.deleted_at.as_ref()
    }

    /// Who created the record.
    pub fn created_by(&self) -> (r: Option<&u128>)
        ensures
            r is Some <==> self.metadata.created_by is Some,
            r is Some ==> r->0 == self.metadata.created_by->0,
    {
        self.metadata.created_by.as_ref()
    }

    /// Who last updated the record.
    pub fn updated_by(&self) -> (r: Option<&u128>)
        ensures
            r is Some <==> self.metadata.updated_by is Some,
            r is Some ==> r->0 == self.metadata.updated_by->0,
    {
        self.metadata.updated_by.as_ref()
    }

    /// Who soft-deleted the record.
    pub fn deleted_by(&self) -> (r: Option<&u128>)
        ensures
            r is Some <==> self.metadata.deleted_by is Some,
            r is Some ==> r->0 == self.metadata.deleted_by->0,
    {
        self.metadata.deleted_by.as_ref()
    }

    /// The record with `company_id` set.
    pub fn with_company_id(self, value: u128) -> (r: Self)
        ensures
            r == (PaymentTermLine { company_id: Some(value), ..self }),
    {
        let mut s = self;
        s.company_id = Some(value);
        s
    }

    /// The record with `day_of_month` set.
    pub fn with_day_of_month(self, value: i32) -> (r: Self)
        ensures
            r == (PaymentTermLine { day_of_month: Some(value), ..self }),
    {
        let mut s = self;
        s.day_of_month = Some(value);
        s
    }

    /// Apply a partial update: each field the patch holds replaces the record's value.
    pub fn apply_patch(&mut self, patch: PaymentTermLinePatch)
        ensures
            *final(self) == patch.applied_to(*old(self)),
    {
        let PaymentTermLinePatch {
            term_id,
            company_id,
            value,
            value_amount,
            nb_days,
            day_of_month,
            delay_type,
            anchor,
            sequence,
        } = patch;
        replace_if_some(&mut self.term_id, term_id);
        replace_if_some(&mut self.company_id, company_id);
        replace_if_some(&mut self.value, value);
        replace_if_some(&mut self.value_amount, value_amount);
        replace_if_some(&mut self.nb_days, nb_days);
        replace_if_some(&mut self.day_of_month, day_of_month);
        replace_if_some(&mut self.delay_type, delay_type);
        replace_if_some(&mut self.anchor, anchor);
        replace_if_some(&mut self.sequence, sequence);
    }
}

/// A fluent builder of a [`PaymentTermLine`]; the id and the audit data are set when it is built.
#[derive(Debug, Clone)]
pub struct PaymentTermLineBuilder {
    pub term_id: Option<u128>,
    pub company_id: Option<u128>,
    pub value: Option<PaymentTermLineValue>,
    pub value_amount: Option<Dec>,
    pub nb_days: Option<i32>,
    pub day_of_month: Option<i32>,
    pub delay_type: Option<PaymentTermDelayType>,
    pub anchor: Option<PaymentTermAnchor>,
    pub sequence: Option<i32>,
}

impl PaymentTermLineBuilder {
    /// A builder with nothing set.
    pub open spec fn blank() -> Self {
        PaymentTermLineBuilder { term_id: None, company_id: None, value: None, value_amount: None, nb_days: None, day_of_month: None, delay_type: None, anchor: None, sequence: None }
    }

    /// Set `term_id` (required).
    pub fn term_id(self, value: u128) -> (r: Self)
        ensures
            r == (PaymentTermLineBuilder { term_id: Some(value), ..self }),
    {
        let mut s = self;
        s.term_id = Some(value);
        s
    }

    /// Set `company_id` (optional).
    pub fn company_id(self, value: u128) -> (r: Self)
        ensures
            r == (PaymentTermLineBuilder { company_id: Some(value), ..self }),
    {
        let mut s = self;
        s.company_id = Some(value);
        s
    }

    /// Set `value` (has a default).
    pub fn value(self, value: PaymentTermLineValue) -> (r: Self)
        ensures
            r == (PaymentTermLineBuilder { value: Some(value), ..self }),
    {
        let mut s = self;
        s.value = Some(value);
        s
    }

    /// Set `value_amount` (has a default).
    pub fn value_amount(self, value: Dec) -> (r: Self)
        ensures
            r == (PaymentTermLineBuilder { value_amount: Some(value), ..self }),
    {
        let mut s = self;
        s.value_amount = Some(value);
        s
    }

    /// Set `nb_days` (required).
    pub fn nb_days(self, value: i32) -> (r: Self)
        ensures
            r == (PaymentTermLineBuilder { nb_days: Some(value), ..self }),
    {
        let mut s = self;
        s.nb_days = Some(value);
        s
    }

    /// Set `day_of_month` (optional).
    pub fn day_of_month(self, value: i32) -> (r: Self)
        ensures
            r == (PaymentTermLineBuilder { day_of_month: Some(value), ..self }),
    {
        let mut s = self;
        s.day_of_month = Some(value);
        s
    }

    /// Set `delay_type` (has a default).
    pub fn delay_type(self, value: PaymentTermDelayType) -> (r: Self)
        ensures
            r == (PaymentTermLineBuilder { delay_type: Some(value), ..self }),
    {
        let mut s = self;
        s.delay_type = Some(value);
        s
    }

    /// Set `anchor` (has a default).
    pub fn anchor(self, value: PaymentTermAnchor) -> (r: Self)
        ensures
            r == (PaymentTermLineBuilder { anchor: Some(value), ..self }),
    {
        let mut s = self;
        s.anchor = Some(value);
        s
    }

    /// Set `sequence` (has a default).
    pub fn sequence(self, value: i32) -> (r: Self)
        ensures
            r == (PaymentTermLineBuilder { sequence: Some(value), ..self }),
    {
        let mut s = self;
        s.sequence = Some(value);
        s
    }

    /// Build the record, with a fresh id and blank audit data; an error names the first
    /// required field that is missing. Unset fields with a default take it.
    pub fn build(self) -> (r: Result<PaymentTermLine, String>)
        ensures
            match r {
                Ok(e) => {
                    &&& self.term_id is Some
                    &&& self.nb_days is Some
                    &&& e == (PaymentTermLine {
                        id: e.id,
                        term_id: self.term_id.unwrap(),
                        company_id: self.company_id,
                        value: match self.value {
                            Some(v) => v,
                            None => PaymentTermLineValue::Balance,
                        },
                        value_amount: match self.value_amount {
                            Some(v) => v,
                            None => Dec { mantissa: 0, scale: 0 },
                        },
                        nb_days: self.nb_days.unwrap(),
                        day_of_month: self.day_of_month,
                        delay_type: match self.delay_type {
                            Some(v) => v,
                            None => PaymentTermDelayType::Days,
                        },
                        anchor: match self.anchor {
                            Some(v) => v,
                            None => PaymentTermAnchor::InvoiceDate,
                        },
                        sequence: match self.sequence {
                            Some(v) => v,
                            None => 10,
                        },
                        metadata: AuditMetadata::blank()
                    })
                },
                Err(m) => if self.term_id is None {
                    m@ == "term_id is required"@
                } else if self.nb_days is None {
                    m@ == "nb_days is required"@
                } else {
                    false
                },
            },
    {
        let PaymentTermLineBuilder {
            term_id,
            company_id,
            value,
            value_amount,
            nb_days,
            day_of_month,
            delay_type,
            anchor,
            sequence,
        } = self;
        let term_id = match term_id {
            Some(v) => v,
            None => {
                return Err("term_id is required".to_string());
            },
        };
        let nb_days = match nb_days {
            Some(v) => v,
            None => {
                return Err("nb_days is required".to_string());
            },
        };
        Ok(PaymentTermLine {
            id: new_entity_id(),
            term_id,
            company_id,
            value: match value {
                Some(v) => v,
                None => PaymentTermLineValue::default(),
            },
            value_amount: match value_amount {
                Some(v) => v,
                None => Dec::zero(),
            },
            nb_days,
            day_of_month,
            delay_type: match delay_type {
                Some(v) => v,
                None => PaymentTermDelayType::default(),
            },
            anchor: match anchor {
                Some(v) => v,
                None => PaymentTermAnchor::default(),
            },
            sequence: match sequence {
                Some(v) => v,
                None => 10,
            },
            metadata: AuditMetadata::default(),
        })
    }
}

impl Default for PaymentTermLineBuilder {
    fn default() -> (r: Self)
        ensures
            r == PaymentTermLineBuilder::blank(),
    {
        PaymentTermLineBuilder {
            term_id: None,
            company_id: None,
            value: None,
            value_amount: None,
            nb_days: None,
            day_of_month: None,
            delay_type: None,
            anchor: None,
            sequence: None,
        }
    }
}

} // verus!
