//! The agent earning record (`AgentEarning`): its typed id, constructor, accessors, partial update and
//! builder.
//!
//! Ids are 128-bit UUID values, timestamps are microseconds since the Unix epoch (UTC), and
//! JSON documents are held as their text.
use vstd::prelude::*;

use crate::calendar::Date;
use crate::dec::Dec;
use crate::domain::earning_status::EarningStatus;
use crate::domain::earning_type::EarningType;
use crate::entity::new_entity_id;
use crate::entity::replace_if_some;
use crate::entity::AuditMetadata;

verus! {

broadcast use vstd::string::group_string_axioms;

/// Strongly-typed id of an [`AgentEarning`].
#[derive(Debug, Clone, Copy, PartialEq, Eq, Hash, Structural)]
pub struct AgentEarningId(pub u128);

impl AgentEarningId {
    /// Wrap an id.
    pub fn new(id: u128) -> (r: Self)
        ensures
            r.0 == id,
    {
        AgentEarningId(id)
    }

    /// A fresh random id.
    pub fn generate() -> (r: Self) {
        AgentEarningId(new_entity_id())
    }

    /// The id inside.
    pub fn into_inner(self) -> (r: u128)
        ensures
            r == self.0,
    {
        self.0
    }
}

impl From<u128> for AgentEarningId {
    fn from(id: u128) -> (r: Self) {
        AgentEarningId(id)
    }
}

impl vstd::std_specs::convert::FromSpecImpl<u128> for AgentEarningId {
    open spec fn obeys_from_spec() -> bool {
        true
    }

    open spec fn from_spec(v: u128) -> Self {
        AgentEarningId(v)
    }
}

/// An agent earning record.
#[derive(Debug, Clone)]
pub struct AgentEarning {
    pub id: u128,
    pub agent_id: u128,
    pub task_id: Option<u128>,
    pub order_id: Option<u128>,
    pub earning_type: EarningType,
    pub description: Option<String>,
    pub currency: String,
    pub base_amount: Dec,
    pub distance_km: Option<Dec>,
    pub distance_bonus: Dec,
    pub time_bonus: Dec,
    pub surge_bonus: Dec,
    pub incentive_bonus: Dec,
    pub tip_amount: Dec,
    pub deduction_amount: Dec,
    pub deduction_reason: Option<String>,
    pub total_earning: Dec,
    pub status: EarningStatus,
    pub earned_at: i64,
    pub earning_date: Date,
    pub is_paid: bool,
    pub payout_id: Option<u128>,
    pub paid_at: Option<i64>,
    pub cod_collected: Dec,
    pub cod_deposited: bool,
    pub cod_deposited_at: Option<i64>,
    pub metadata: AuditMetadata,
}

/// A partial update of an [`AgentEarning`]: each field that is `Some` replaces the record's value.
#[derive(Debug, Clone)]
pub struct AgentEarningPatch {
    pub agent_id: Option<u128>,
    pub task_id: Option<Option<u128>>,
    pub order_id: Option<Option<u128>>,
    pub earning_type: Option<EarningType>,
    pub description: Option<Option<String>>,
    pub currency: Option<String>,
    pub base_amount: Option<Dec>,
    pub distance_km: Option<Option<Dec>>,
    pub distance_bonus: Option<Dec>,
    pub time_bonus: Option<Dec>,
    pub surge_bonus: Option<Dec>,
    pub incentive_bonus: Option<Dec>,
    pub tip_amount: Option<Dec>,
    pub deduction_amount: Option<Dec>,
    pub deduction_reason: Option<Option<String>>,
    pub total_earning: Option<Dec>,
    pub status: Option<EarningStatus>,
    pub earned_at: Option<i64>,
    pub earning_date: Option<Date>,
    pub is_paid: Option<bool>,
    pub payout_id: Option<Option<u128>>,
    pub paid_at: Option<Option<i64>>,
    pub cod_collected: Option<Dec>,
    pub cod_deposited: Option<bool>,
    pub cod_deposited_at: Option<Option<i64>>,
}

impl AgentEarningPatch {
    /// The record once this patch is applied.
    pub open spec fn applied_to(self, e: AgentEarning) -> AgentEarning {
        AgentEarning {
            id: e.id,
            agent_id: match self.agent_id {
                Some(v) => v,
                None => e.agent_id,
            },
            task_id: match self.task_id {
                Some(v) => v,
                None => e.task_id,
            },
            order_id: match self.order_id {
                Some(v) => v,
                None => e.order_id,
            },
            earning_type: match self.earning_type {
                Some(v) => v,
                None => e.earning_type,
            },
            description: match self.description {
                Some(v) => v,
                None => e.description,
            },
            currency: match self.currency {
                Some(v) => v,
                None => e.currency,
            },
            base_amount: match self.base_amount {
                Some(v) => v,
                None => e.base_amount,
            },
            distance_km: match self.distance_km {
                Some(v) => v,
                None => e.distance_km,
            },
            distance_bonus: match self.distance_bonus {
                Some(v) => v,
                None => e.distance_bonus,
            },
            time_bonus: match self.time_bonus {
                Some(v) => v,
                None => e.time_bonus,
            },
            surge_bonus: match self.surge_bonus {
                Some(v) => v,
                None => e.surge_bonus,
            },
            incentive_bonus: match self.incentive_bonus {
                Some(v) => v,
                None => e.incentive_bonus,
            },
            tip_amount: match self.tip_amount {
                Some(v) => v,
                None => e.tip_amount,
            },
            deduction_amount: match self.deduction_amount {
                Some(v) => v,
                None => e.deduction_amount,
            },
            deduction_reason: match self.deduction_reason {
                Some(v) => v,
                None => e.deduction_reason,
            },
            total_earning: match self.total_earning {
                Some(v) => v,
                None => e.total_earning,
            },
            status: match self.status {
                Some(v) => v,
                None => e.status,
            },
            earned_at: match self.earned_at {
                Some(v) => v,
                None => e.earned_at,
            },
            earning_date: match self.earning_date {
                Some(v) => v,
                None => e.earning_date,
            },
            is_paid: match self.is_paid {
                Some(v) => v,
                None => e.is_paid,
            },
            payout_id: match self.payout_id {
                Some(v) => v,
                None => e.payout_id,
            },
            paid_at: match self.paid_at {
                Some(v) => v,
                None => e.paid_at,
            },
            cod_collected: match self.cod_collected {
                Some(v) => v,
                None => e.cod_collected,
            },
            cod_deposited: match self.cod_deposited {
                Some(v) => v,
                None => e.cod_deposited,
            },
            cod_deposited_at: match self.cod_deposited_at {
                Some(v) => v,
                None => e.cod_deposited_at,
            },
            metadata: e.metadata,
        }
    }
}

impl AgentEarning {
    /// A builder with nothing set.
    pub fn builder() -> (r: AgentEarningBuilder)
        ensures
            r == AgentEarningBuilder::blank(),
    {
        AgentEarningBuilder::default()
    }

    /// A new record from its required fields, with a fresh id, the other fields unset and blank
    /// audit data.
    pub fn new(
        agent_id: u128,
        earning_type: EarningType,
        currency: String,
        base_amount: Dec,
        distance_bonus: Dec,
        time_bonus: Dec,
        surge_bonus: Dec,
        incentive_bonus: Dec,
        tip_amount: Dec,
        deduction_amount: Dec,
        total_earning: Dec,
        status: EarningStatus,
        earned_at: i64,
        earning_date: Date,
        is_paid: bool,
        cod_collected: Dec,
        cod_deposited: bool,
    ) -> (r: Self)
        ensures
            r == (AgentEarning {
                id: r.id,
                agent_id,
                task_id: None,
                order_id: None,
                earning_type,
                description: None,
                currency,
                base_amount,
                distance_km: None,
                distance_bonus,
                time_bonus,
                surge_bonus,
                incentive_bonus,
                tip_amount,
                deduction_amount,
                deduction_reason: None,
                total_earning,
                status,
                earned_at,
                earning_date,
                is_paid,
                payout_id: None,
                paid_at: None,
                cod_collected,
                cod_deposited,
                cod_deposited_at: None,
                metadata: AuditMetadata::blank(),
            }),
    {
        AgentEarning {
            id: new_entity_id(),
            agent_id,
            task_id: None,
            order_id: None,
            earning_type,
            description: None,
            currency,
            base_amount,
            distance_km: None,
            distance_bonus,
            time_bonus,
            surge_bonus,
            incentive_bonus,
            tip_amount,
            deduction_amount,
            deduction_reason: None,
            total_earning,
            status,
            earned_at,
            earning_date,
            is_paid,
            payout_id: None,
            paid_at: None,
            cod_collected,
            cod_deposited,
            cod_deposited_at: None,
            metadata: AuditMetadata::default(),
        }
    }

    /// The record's id.
    pub fn id(&self) -> (r: &u128)
        ensures
            *r == self.id,
    {
        &self.id
    }

    /// The record's typed id.
    pub fn typed_id(&self) -> (r: AgentEarningId)
        ensures
            r == AgentEarningId(self.id),
    {
        AgentEarningId(self.id)
    }

    /// When the record was created.
    pub fn created_at(&self) -> (r: Option<&i64>)
        ensures
            r is Some <==> self.metadata.created_at is Some,
            r is Some ==> r->0 == self.metadata.created_at->0,
    {
        self.metadata.created_at.as_ref()
    }

    /// When the record was last updated.
    pub fn updated_at(&self) -> (r: Option<&i64>)
        ensures
            r is Some <==> self.metadata.updated_at is Some,
            r is Some ==> r->0 == self.metadata.updated_at->0,
    {
        self.metadata.updated_at.as_ref()
    }

    /// Whether the record is soft-deleted.
    pub fn is_deleted(&self) -> (r: bool)
        ensures
            r == self.metadata.deleted_at is Some,
    {
        self.metadata.deleted_at.is_some()
    }

    /// Whether the record is active (not soft-deleted).
    pub fn is_active(&self) -> (r: bool)
        ensures
            r == self.metadata.deleted_at is None,
    {
        self.metadata.deleted_at.is_none()
    }

    /// When the record was soft-deleted.
    pub fn deleted_at(&self) -> (r: Option<&i64>)
        ensures
            r is Some <==> self.metadata.deleted_at is Some,
            r is Some ==> r->0 == self.metadata.deleted_at->0,
    {
        self.metadata.deleted_at.as_ref()
    }

    /// Who created the record.
    pub fn created_by(&self) -> (r: Option<&u128>)
        ensures
            r is Some <==> self.metadata.created_by is Some,
            r is Some ==> r->0 == self.metadata.created_by->0,
    {
        self.metadata.created_by.as_ref()
    }

    /// Who last updated the record.
    pub fn updated_by(&self) -> (r: Option<&u128>)
        ensures
            r is Some <==> self.metadata.updated_by is Some,
            r is Some ==> r->0 == self.metadata.updated_by->0,
    {
        self.metadata.updated_by.as_ref()
    }

    /// Who soft-deleted the record.
    pub fn deleted_by(&self) -> (r: Option<&u128>)
        ensures
            r is Some <==> self.metadata.deleted_by is Some,
            r is Some ==> r->0 == self.metadata.deleted_by->0,
    {
        self.metadata.deleted_by.as_ref()
    }

    /// The record's status.
    pub fn status(&self) -> (r: &EarningStatus)
        ensures
            *r == self.status,
    {
        &self.status
    }

    /// The record with `task_id` set.
    pub fn with_task_id(self, value: u128) -> (r: Self)
        ensures
            r == (AgentEarning { task_id: Some(value), ..self }),
    {
        let mut s = self;
        s.task_id = Some(value);
        s
    }

    /// The record with `order_id` set.
    pub fn with_order_id(self, value: u128) -> (r: Self)
        ensures
            r == (AgentEarning { order_id: Some(value), ..self }),
    {
        let mut s = self;
        s.order_id = Some(value);
        s
    }

    /// The record with `description` set.
    pub fn with_description(self, value: String) -> (r: Self)
        ensures
            r == (AgentEarning { description: Some(value), ..self }),
    {
        let mut s = self;
        s.description = Some(value);
        s
    }

    /// The record with `distance_km` set.
    pub fn with_distance_km(self, value: Dec) -> (r: Self)
        ensures
            r == (AgentEarning { distance_km: Some(value), ..self }),
    {
        let mut s = self;
        s.distance_km = Some(value);
        s
    }

    /// The record with `deduction_reason` set.
    pub fn with_deduction_reason(self, value: String) -> (r: Self)
        ensures
            r == (AgentEarning { deduction_reason: Some(value), ..self }),
    {
        let mut s = self;
        s.deduction_reason = Some(value);
        s
    }

    /// The record with `payout_id` set.
    pub fn with_payout_id(self, value: u128) -> (r: Self)
        ensures
            r == (AgentEarning { payout_id: Some(value), ..self }),
    {
        let mut s = self;
        s.payout_id = Some(value);
        s
    }

    /// The record with `paid_at` set.
    pub fn with_paid_at(self, value: i64) -> (r: Self)
        ensures
            r == (AgentEarning { paid_at: Some(value), ..self }),
    {
        let mut s = self;
        s.paid_at = Some(value);
        s
    }

    /// The record with `cod_deposited_at` set.
    pub fn with_cod_deposited_at(self, value: i64) -> (r: Self)
        ensures
            r == (AgentEarning { cod_deposited_at: Some(value), ..self }),
    {
        let mut s = self;
        s.cod_deposited_at = Some(value);
        s
    }

    /// Apply a partial update: each field the patch holds replaces the record's value.
    pub fn apply_patch(&mut self, patch: AgentEarningPatch)
        ensures
            *final(self) == patch.applied_to(*old(self)),
    {
        let AgentEarningPatch {
            agent_id,
            task_id,
            order_id,
            earning_type,
            description,
            currency,
            base_amount,
            distance_km,
            distance_bonus,
            time_bonus,
            surge_bonus,
            incentive_bonus,
            tip_amount,
            deduction_amount,
            deduction_reason,
            total_earning,
            status,
            earned_at,
            earning_date,
            is_paid,
            payout_id,
            paid_at,
            cod_collected,
            cod_deposited,
            cod_deposited_at,
        } = patch;
        replace_if_some(&mut self.agent_id, agent_id);
        replace_if_some(&mut self.task_id, task_id);
        replace_if_some(&mut self.order_id, order_id);
        replace_if_some(&mut self.earning_type, earning_type);
        replace_if_some(&mut self.description, description);
        replace_if_some(&mut self.currency, currency);
        replace_if_some(&mut self.base_amount, base_amount);
        replace_if_some(&mut self.distance_km, distance_km);
        replace_if_some(&mut self.distance_bonus, distance_bonus);
        replace_if_some(&mut self.time_bonus, time_bonus);
        replace_if_some(&mut self.surge_bonus, surge_bonus);
        replace_if_some(&mut self.incentive_bonus, incentive_bonus);
        replace_if_some(&mut self.tip_amount, tip_amount);
        replace_if_some(&mut self.deduction_amount, deduction_amount);
        replace_if_some(&mut self.deduction_reason, deduction_reason);
        replace_if_some(&mut self.total_earning, total_earning);
        replace_if_some(&mut self.status, status);
        replace_if_some(&mut self.earned_at, earned_at);
        replace_if_some(&mut self.earning_date, earning_date);
        replace_if_some(&mut self.is_paid, is_paid);
        replace_if_some(&mut self.payout_id, payout_id);
        replace_if_some(&mut self.paid_at, paid_at);
        replace_if_some(&mut self.cod_collected, cod_collected);
        replace_if_some(&mut self.cod_deposited, cod_deposited);
        replace_if_some(&mut self.cod_deposited_at, cod_deposited_at);
    }
}

/// A fluent builder of an [`AgentEarning`]; the id and the audit data are set when it is built.
#[derive(Debug, Clone)]
pub struct AgentEarningBuilder {
    pub agent_id: Option<u128>,
    pub task_id: Option<u128>,
    pub order_id: Option<u128>,
    pub earning_type: Option<EarningType>,
    pub description: Option<String>,
    pub currency: Option<String>,
    pub base_amount: Option<Dec>,
    pub distance_km: Option<Dec>,
    pub distance_bonus: Option<Dec>,
    pub time_bonus: Option<Dec>,
    pub surge_bonus: Option<Dec>,
    pub incentive_bonus: Option<Dec>,
    pub tip_amount: Option<Dec>,
    pub deduction_amount: Option<Dec>,
    pub deduction_reason: Option<String>,
    pub total_earning: Option<Dec>,
    pub status: Option<EarningStatus>,
    pub earned_at: Option<i64>,
    pub earning_date: Option<Date>,
    pub is_paid: Option<bool>,
    pub payout_id: Option<u128>,
    pub paid_at: Option<i64>,
    pub cod_collected: Option<Dec>,
    pub cod_deposited: Option<bool>,
    pub cod_deposited_at: Option<i64>,
}

impl AgentEarningBuilder {
    /// A builder with nothing set.
    pub open spec fn blank() -> Self {
        AgentEarningBuilder { agent_id: None, task_id: None, order_id: None, earning_type: None, description: None, currency: None, base_amount: None, distance_km: None, distance_bonus: None, time_bonus: None, surge_bonus: None, incentive_bonus: None, tip_amount: None, deduction_amount: None, deduction_reason: None, total_earning: None, status: None, earned_at: None, earning_date: None, is_paid: None, payout_id: None, paid_at: None, cod_collected: None, cod_deposited: None, cod_deposited_at: None }
    }

    /// Set `agent_id` (required).
    pub fn agent_id(self, value: u128) -> (r: Self)
        ensures
            r == (AgentEarningBuilder { agent_id: Some(value), ..self }),
    {
        let mut s = self;
        s.agent_id = Some(value);
        s
    }

    /// Set `task_id` (optional).
    pub fn task_id(self, value: u128) -> (r: Self)
        ensures
            r == (AgentEarningBuilder { task_id: Some(value), ..self }),
    {
        let mut s = self;
        s.task_id = Some(value);
        s
    }

    /// Set `order_id` (optional).
    pub fn order_id(self, value: u128) -> (r: Self)
        ensures
            r == (AgentEarningBuilder { order_id: Some(value), ..self }),
    {
        let mut s = self;
        s.order_id = Some(value);
        s
    }

    /// Set `earning_type` (required).
    pub fn earning_type(self, value: EarningType) -> (r: Self)
        ensures
            r == (AgentEarningBuilder { earning_type: Some(value), ..self }),
    {
        let mut s = self;
        s.earning_type = Some(value);
        s
    }

    /// Set `description` (optional).
    pub fn description(self, value: String) -> (r: Self)
        ensures
            r == (AgentEarningBuilder { description: Some(value), ..self }),
    {
        let mut s = self;
        s.description = Some(value);
        s
    }

    /// Set `currency` (has a default).
    pub fn currency(self, value: String) -> (r: Self)
        ensures
            r == (AgentEarningBuilder { currency: Some(value), ..self }),
    {
        let mut s = self;
        s.currency = Some(value);
        s
    }

    /// Set `base_amount` (required).
    pub fn base_amount(self, value: Dec) -> (r: Self)
        ensures
            r == (AgentEarningBuilder { base_amount: Some(value), ..self }),
    {
        let mut s = self;
        s.base_amount = Some(value);
        s
    }

    /// Set `distance_km` (optional).
    pub fn distance_km(self, value: Dec) -> (r: Self)
        ensures
            r == (AgentEarningBuilder { distance_km: Some(value), ..self }),
    {
        let mut s = self;
        s.distance_km = Some(value);
        s
    }

    /// Set `distance_bonus` (has a default).
    pub fn distance_bonus(self, value: Dec) -> (r: Self)
        ensures
            r == (AgentEarningBuilder { distance_bonus: Some(value), ..self }),
    {
        let mut s = self;
        s.distance_bonus = Some(value);
        s
    }

    /// Set `time_bonus` (has a default).
    pub fn time_bonus(self, value: Dec) -> (r: Self)
        ensures
            r == (AgentEarningBuilder { time_bonus: Some(value), ..self }),
    {
        let mut s = self;
        s.time_bonus = Some(value);
        s
    }

    /// Set `surge_bonus` (has a default).
    pub fn surge_bonus(self, value: Dec) -> (r: Self)
        ensures
            r == (AgentEarningBuilder { surge_bonus: Some(value), ..self }),
    {
        let mut s = self;
        s.surge_bonus = Some(value);
        s
    }

    /// Set `incentive_bonus` (has a default).
    pub fn incentive_bonus(self, value: Dec) -> (r: Self)
        ensures
            r == (AgentEarningBuilder { incentive_bonus: Some(value), ..self }),
    {
        let mut s = self;
        s.incentive_bonus = Some(value);
        s
    }

    /// Set `tip_amount` (has a default).
    pub fn tip_amount(self, value: Dec) -> (r: Self)
        ensures
            r == (AgentEarningBuilder { tip_amount: Some(value), ..self }),
    {
        let mut s = self;
        s.tip_amount = Some(value);
        s
    }

    /// Set `deduction_amount` (has a default).
    pub fn deduction_amount(self, value: Dec) -> (r: Self)
        ensures
            r == (AgentEarningBuilder { deduction_amount: Some(value), ..self }),
    {
        let mut s = self;
        s.deduction_amount = Some(value);
        s
    }

    /// Set `deduction_reason` (optional).
    pub fn deduction_reason(self, value: String) -> (r: Self)
        ensures
            r == (AgentEarningBuilder { deduction_reason: Some(value), ..self }),
    {
        let mut s = self;
        s.deduction_reason = Some(value);
        s
    }

    /// Set `total_earning` (required).
    pub fn total_earning(self, value: Dec) -> (r: Self)
        ensures
            r == (AgentEarningBuilder { total_earning: Some(value), ..self }),
    {
        let mut s = self;
        s.total_earning = Some(value);
        s
    }

    /// Set `status` (has a default).
    pub fn status(self, value: EarningStatus) -> (r: Self)
        ensures
            r == (AgentEarningBuilder { status: Some(value), ..self }),
    {
        let mut s = self;
        s.status = Some(value);
        s
    }

    /// Set `earned_at` (required).
    pub fn earned_at(self, value: i64) -> (r: Self)
        ensures
            r == (AgentEarningBuilder { earned_at: Some(value), ..self }),
    {
        let mut s = self;
        s.earned_at = Some(value);
        s
    }

    /// Set `earning_date` (required).
    pub fn earning_date(self, value: Date) -> (r: Self)
        ensures
            r == (AgentEarningBuilder { earning_date: Some(value), ..self }),
    {
        let mut s = self;
        s.earning_date = Some(value);
        s
    }

    /// Set `is_paid` (has a default).
    pub fn is_paid(self, value: bool) -> (r: Self)
        ensures
            r == (AgentEarningBuilder { is_paid: Some(value), ..self }),
    {
        let mut s = self;
        s.is_paid = Some(value);
        s
    }

    /// Set `payout_id` (optional).
    pub fn payout_id(self, value: u128) -> (r: Self)
        ensures
            r == (AgentEarningBuilder { payout_id: Some(value), ..self }),
    {
        let mut s = self;
        s.payout_id = Some(value);
        s
    }

    /// Set `paid_at` (optional).
    pub fn paid_at(self, value: i64) -> (r: Self)
        ensures
            r == (AgentEarningBuilder { paid_at: Some(value), ..self }),
    {
        let mut s = self;
        s.paid_at = Some(value);
        s
    }

    /// Set `cod_collected` (has a default).
    pub fn cod_collected(self, value: Dec) -> (r: Self)
        ensures
            r == (AgentEarningBuilder { cod_collected: Some(value), ..self }),
    {
        let mut s = self;
        s.cod_collected = Some(value);
        s
    }

    /// Set `cod_deposited` (has a default).
    pub fn cod_deposited(self, value: bool) -> (r: Self)
        ensures
            r == (AgentEarningBuilder { cod_deposited: Some(value), ..self }),
    {
        let mut s = self;
        s.cod_deposited = Some(value);
        s
    }

    /// Set `cod_deposited_at` (optional).
    pub fn cod_deposited_at(self, value: i64) -> (r: Self)
        ensures
            r == (AgentEarningBuilder { cod_deposited_at: Some(value), ..self }),
    {
        let mut s = self;
        s.cod_deposited_at = Some(value);
        s
    }

    /// Build the record, with a fresh id and blank audit data; an error names the first
    /// required field that is missing. Unset fields with a default take it.
    pub fn build(self) -> (r: Result<AgentEarning, String>)
        ensures
            match r {
                Ok(e) => {
                    &&& self.agent_id is Some
                    &&& self.earning_type is Some
                    &&& self.base_amount is Some
                    &&& self.total_earning is Some
                    &&& self.earned_at is Some
                    &&& self.earning_date is Some
                    &&& e == (AgentEarning {
                        id: e.id,
                        agent_id: self.agent_id.unwrap(),
                        task_id: self.task_id,
                        order_id: self.order_id,
                        earning_type: self.earning_type.unwrap(),
                        description: self.description,
                        currency: e.currency,
                        base_amount: self.base_amount.unwrap(),
                        distance_km: self.distance_km,
                        distance_bonus: match self.distance_bonus {
                            Some(v) => v,
                            None => Dec { mantissa: 0, scale: 0 },
                        },
                        time_bonus: match self.time_bonus {
                            Some(v) => v,
                            None => Dec { mantissa: 0, scale: 0 },
                        },
                        surge_bonus: match self.surge_bonus {
                            Some(v) => v,
                            None => Dec { mantissa: 0, scale: 0 },
                        },
                        incentive_bonus: match self.incentive_bonus {
                            Some(v) => v,
                            None => Dec { mantissa: 0, scale: 0 },
                        },
                        tip_amount: match self.tip_amount {
                            Some(v) => v,
                            None => Dec { mantissa: 0, scale: 0 },
                        },
                        deduction_amount: match self.deduction_amount {
                            Some(v) => v,
                            None => Dec { mantissa: 0, scale: 0 },
                        },
                        deduction_reason: self.deduction_reason,
                        total_earning: self.total_earning.unwrap(),
                        status: match self.status {
                            Some(v) => v,
                            None => EarningStatus::Pending,
                        },
                        earned_at: self.earned_at.unwrap(),
                        earning_date: self.earning_date.unwrap(),
                        is_paid: match self.is_paid {
                            Some(v) => v,
                            None => false,
                        },
                        payout_id: self.payout_id,
                        paid_at: self.paid_at,
                        cod_collected: match self.cod_collected {
                            Some(v) => v,
                            None => Dec { mantissa: 0, scale: 0 },
                        },
                        cod_deposited: match self.cod_deposited {
                            Some(v) => v,
                            None => false,
                        },
                        cod_deposited_at: self.cod_deposited_at,
                        metadata: AuditMetadata::blank()
                    })
                    &&& e.currency@ == match self.currency {
                        Some(v) => v@,
                        None => "IDR"@,
                    }
                },
                Err(m) => if self.agent_id is None {
                    m@ == "agent_id is required"@
                } else if self.earning_type is None {
                    m@ == "earning_type is required"@
                } else if self.base_amount is None {
                    m@ == "base_amount is required"@
                } else if self.total_earning is None {
                    m@ == "total_earning is required"@
                } else if self.earned_at is None {
                    m@ == "earned_at is required"@
                } else if self.earning_date is None {
                    m@ == "earning_date is required"@
                } else {
                    false
                },
            },
    {
        let AgentEarningBuilder {
            agent_id,
            task_id,
            order_id,
            earning_type,
            description,
            currency,
            base_amount,
            distance_km,
            distance_bonus,
            time_bonus,
            surge_bonus,
            incentive_bonus,
            tip_amount,
            deduction_amount,
            deduction_reason,
            total_earning,
            status,
            earned_at,
            earning_date,
            is_paid,
            payout_id,
            paid_at,
            cod_collected,
            cod_deposited,
            cod_deposited_at,
        } = self;
        let agent_id = match agent_id {
            Some(v) => v,
            None => {
                return Err("agent_id is required".to_string());
            },
        };
        let earning_type = match earning_type {
            Some(v) => v,
            None => {
                return Err("earning_type is required".to_string());
            },
        };
        let base_amount = match base_amount {
            Some(v) => v,
            None => {
                return Err("base_amount is required".to_string());
            },
        };
        let total_earning = match total_earning {
            Some(v) => v,
            None => {
                return Err("total_earning is required".to_string());
            },
        };
        let earned_at = match earned_at {
            Some(v) => v,
            None => {
                return Err("earned_at is required".to_string());
            },
        };
        let earning_date = match earning_date {
            Some(v) => v,
            None => {
                return Err("earning_date is required".to_string());
            },
        };
        Ok(AgentEarning {
            id: new_entity_id(),
            agent_id,
            task_id,
            order_id,
            earning_type,
            description,
            currency: match currency {
                Some(v) => v,
                None => "IDR".to_string(),
            },
            base_amount,
            distance_km,
            distance_bonus: match distance_bonus {
                Some(v) => v,
                None => Dec::zero(),
            },
            time_bonus: match time_bonus {
                Some(v) => v,
                None => Dec::zero(),
            },
            surge_bonus: match surge_bonus {
                Some(v) => v,
                None => Dec::zero(),
            },
            incentive_bonus: match incentive_bonus {
                Some(v) => v,
                None => Dec::zero(),
            },
            tip_amount: match tip_amount {
                Some(v) => v,
                None => Dec::zero(),
            },
            deduction_amount: match deduction_amount {
                Some(v) => v,
                None => Dec::zero(),
            },
            deduction_reason,
            total_earning,
            status: match status {
                Some(v) => v,
                None => EarningStatus::default(),
            },
            earned_at,
            earning_date,
            is_paid: match is_paid {
                Some(v) => v,
                None => false,
            },
            payout_id,
            paid_at,
            cod_collected: match cod_collected {
                Some(v) => v,
                None => Dec::zero(),
            },
            cod_deposited: match cod_deposited {
                Some(v) => v,
                None => false,
            },
            cod_deposited_at,
            metadata: AuditMetadata::default(),
        })
    }
}

impl Default for AgentEarningBuilder {
    fn default() -> (r: Self)
        ensures
            r == AgentEarningBuilder::blank(),
    {
        AgentEarningBuilder {
            agent_id: None,
            task_id: None,
            order_id: None,
            earning_type: None,
            description: None,
            currency: None,
            base_amount: None,
            distance_km: None,
            distance_bonus: None,
            time_bonus: None,
            surge_bonus: None,
            incentive_bonus: None,
            tip_amount: None,
            deduction_amount: None,
            deduction_reason: None,
            total_earning: None,
            status: None,
            earned_at: None,
            earning_date: None,
            is_paid: None,
            payout_id: None,
            paid_at: None,
            cod_collected: None,
            cod_deposited: None,
            cod_deposited_at: None,
        }
    }
}

} // verus!
