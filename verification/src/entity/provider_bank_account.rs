//! The provider bank account record (`ProviderBankAccount`): its typed id, constructor, accessors, partial update and
//! builder.
//!
//! Ids are 128-bit UUID values, timestamps are microseconds since the Unix epoch (UTC), and
//! JSON documents are held as their text.
use vstd::prelude::*;

use crate::dec::Dec;
use crate::domain::bank_account_status::BankAccountStatus;
use crate::domain::bank_account_type::BankAccountType;
use crate::domain::verification_method::VerificationMethod;
use crate::entity::new_entity_id;
use crate::entity::replace_if_some;
use crate::entity::AuditMetadata;

verus! {

broadcast use vstd::string::group_string_axioms;

/// Strongly-typed id of a [`ProviderBankAccount`].
#[derive(Debug, Clone, Copy, PartialEq, Eq, Hash, Structural)]
pub struct ProviderBankAccountId(pub u128);

impl ProviderBankAccountId {
    /// Wrap an id.
    pub fn new(id: u128) -> (r: Self)
        ensures
            r.0 == id,
    {
        ProviderBankAccountId(id)
    }

    /// A fresh random id.
    pub fn generate() -> (r: Self) {
        ProviderBankAccountId(new_entity_id())
    }

    /// The id inside.
    pub fn into_inner(self) -> (r: u128)
        ensures
            r == self.0,
    {
        self.0
    }
}

impl From<u128> for ProviderBankAccountId {
    fn from(id: u128) -> (r: Self) {
        ProviderBankAccountId(id)
    }
}

impl vstd::std_specs::convert::FromSpecImpl<u128> for ProviderBankAccountId {
    open spec fn obeys_from_spec() -> bool {
        true
    }

    open spec fn from_spec(v: u128) -> Self {
        ProviderBankAccountId(v)
    }
}

/// A provider bank account record.
#[derive(Debug, Clone)]
pub struct ProviderBankAccount {
    pub id: u128,
    pub provider_id: u128,
    pub bank_code: String,
    pub bank_name: String,
    pub account_number: String,
    pub account_name: String,
    pub account_type: BankAccountType,
    pub branch_name: Option<String>,
    pub branch_code: Option<String>,
    pub swift_code: Option<String>,
    pub status: BankAccountStatus,
    pub is_verified: bool,
    pub verified_at: Option<i64>,
    pub verified_by: Option<u128>,
    pub verification_method: Option<VerificationMethod>,
    pub verification_notes: Option<String>,
    pub rejection_reason: Option<String>,
    pub rejected_at: Option<i64>,
    pub rejected_by: Option<u128>,
    pub is_primary: bool,
    pub is_active: bool,
    pub gateway_account_id: Option<String>,
    pub gateway_status: Option<String>,
    pub gateway_metadata: String,
    pub document_url: Option<String>,
    pub document_type: Option<String>,
    pub total_settlements: i32,
    pub total_amount_received: Dec,
    pub last_settlement_at: Option<i64>,
    pub last_settlement_amount: Option<Dec>,
    pub notes: Option<String>,
    pub metadata: AuditMetadata,
}

/// A partial update of a [`ProviderBankAccount`]: each field that is `Some` replaces the record's value.
#[derive(Debug, Clone)]
pub struct ProviderBankAccountPatch {
    pub provider_id: Option<u128>,
    pub bank_code: Option<String>,
    pub bank_name: Option<String>,
    pub account_number: Option<String>,
    pub account_name: Option<String>,
    pub account_type: Option<BankAccountType>,
    pub branch_name: Option<Option<String>>,
    pub branch_code: Option<Option<String>>,
    pub swift_code: Option<Option<String>>,
    pub status: Option<BankAccountStatus>,
    pub is_verified: Option<bool>,
    pub verified_at: Option<Option<i64>>,
    pub verified_by: Option<Option<u128>>,
    pub verification_method: Option<Option<VerificationMethod>>,
    pub verification_notes: Option<Option<String>>,
    pub rejection_reason: Option<Option<String>>,
    pub rejected_at: Option<Option<i64>>,
    pub rejected_by: Option<Option<u128>>,
    pub is_primary: Option<bool>,
    pub is_active: Option<bool>,
    pub gateway_account_id: Option<Option<String>>,
    pub gateway_status: Option<Option<String>>,
    pub gateway_metadata: Option<String>,
    pub document_url: Option<Option<String>>,
    pub document_type: Option<Option<String>>,
    pub total_settlements: Option<i32>,
    pub total_amount_received: Option<Dec>,
    pub last_settlement_at: Option<Option<i64>>,
    pub last_settlement_amount: Option<Option<Dec>>,
    pub notes: Option<Option<String>>,
}

impl ProviderBankAccountPatch {
    /// The record once this patch is applied.
    pub open spec fn applied_to(self, e: ProviderBankAccount) -> ProviderBankAccount {
        ProviderBankAccount {
            id: e.id,
            provider_id: match self.provider_id {
                Some(v) => v,
                None => e.provider_id,
            },
            bank_code: match self.bank_code {
                Some(v) => v,
                None => e.bank_code,
            },
            bank_name: match self.bank_name {
                Some(v) => v,
                None => e.bank_name,
            },
            account_number: match self.account_number {
                Some(v) => v,
                None => e.account_number,
            },
            account_name: match self.account_name {
                Some(v) => v,
                None => e.account_name,
            },
            account_type: match self.account_type {
                Some(v) => v,
                None => e.account_type,
            },
            branch_name: match self.branch_name {
                Some(v) => v,
                None => e.branch_name,
            },
            branch_code: match self.branch_code {
                Some(v) => v,
                None => e.branch_code,
            },
            swift_code: match self.swift_code {
                Some(v) => v,
                None => e.swift_code,
            },
            status: match self.status {
                Some(v) => v,
                None => e.status,
            },
            is_verified: match self.is_verified {
                Some(v) => v,
                None => e.is_verified,
            },
            verified_at: match self.verified_at {
                Some(v) => v,
                None => e.verified_at,
            },
            verified_by: match self.verified_by {
                Some(v) => v,
                None => e.verified_by,
            },
            verification_method: match self.verification_method {
                Some(v) => v,
                None => e.verification_method,
            },
            verification_notes: match self.verification_notes {
                Some(v) => v,
                None => e.verification_notes,
            },
            rejection_reason: match self.rejection_reason {
                Some(v) => v,
                None => e.rejection_reason,
            },
            rejected_at: match self.rejected_at {
                Some(v) => v,
                None => e.rejected_at,
            },
            rejected_by: match self.rejected_by {
                Some(v) => v,
                None => e.rejected_by,
            },
            is_primary: match self.is_primary {
                Some(v) => v,
                None => e.is_primary,
            },
            is_active: match self.is_active {
                Some(v) => v,
                None => e.is_active,
            },
            gateway_account_id: match self.gateway_account_id {
                Some(v) => v,
                None => e.gateway_account_id,
            },
            gateway_status: match self.gateway_status {
                Some(v) => v,
                None => e.gateway_status,
            },
            gateway_metadata: match self.gateway_metadata {
                Some(v) => v,
                None => e.gateway_metadata,
            },
            document_url: match self.document_url {
                Some(v) => v,
                None => e.document_url,
            },
            document_type: match self.document_type {
                Some(v) => v,
                None => e.document_type,
            },
            total_settlements: match self.total_settlements {
                Some(v) => v,
                None => e.total_settlements,
            },
            total_amount_received: match self.total_amount_received {
                Some(v) => v,
                None => e.total_amount_received,
            },
            last_settlement_at: match self.last_settlement_at {
                Some(v) => v,
                None => e.last_settlement_at,
            },
            last_settlement_amount: match self.last_settlement_amount {
                Some(v) => v,
                None => e.last_settlement_amount,
            },
            notes: match self.notes {
                Some(v) => v,
                None => e.notes,
            },
            metadata: e.metadata,
        }
    }
}

impl ProviderBankAccount {
    /// A builder with nothing set.
    pub fn builder() -> (r: ProviderBankAccountBuilder)
        ensures
            r == ProviderBankAccountBuilder::blank(),
    {
        ProviderBankAccountBuilder::default()
    }

    /// A new record from its required fields, with a fresh id, the other fields unset and blank
    /// audit data.
    pub fn new(
        provider_id: u128,
        bank_code: String,
        bank_name: String,
        account_number: String,
        account_name: String,
        account_type: BankAccountType,
        status: BankAccountStatus,
        is_verified: bool,
        is_primary: bool,
        is_active: bool,
        gateway_metadata: String,
        total_settlements: i32,
        total_amount_received: Dec,
    ) -> (r: Self)
        ensures
            r == (ProviderBankAccount {
                id: r.id,
                provider_id,
                bank_code,
                bank_name,
                account_number,
                account_name,
                account_type,
                branch_name: None,
                branch_code: None,
                swift_code: None,
                status,
                is_verified,
                verified_at: None,
                verified_by: None,
                verification_method: None,
                verification_notes: None,
                rejection_reason: None,
                rejected_at: None,
                rejected_by: None,
                is_primary,
                is_active,
                gateway_account_id: None,
                gateway_status: None,
                gateway_metadata,
                document_url: None,
                document_type: None,
                total_settlements,
                total_amount_received,
                last_settlement_at: None,
                last_settlement_amount: None,
                notes: None,
                metadata: AuditMetadata::blank(),
            }),
    {
        ProviderBankAccount {
            id: new_entity_id(),
            provider_id,
            bank_code,
            bank_name,
            account_number,
            account_name,
            account_type,
            branch_name: None,
            branch_code: None,
            swift_code: None,
            status,
            is_verified,
            verified_at: None,
            verified_by: None,
            verification_method: None,
            verification_notes: None,
            rejection_reason: None,
            rejected_at: None,
            rejected_by: None,
            is_primary,
            is_active,
            gateway_account_id: None,
            gateway_status: None,
            gateway_metadata,
            document_url: None,
            document_type: None,
            total_settlements,
            total_amount_received,
            last_settlement_at: None,
            last_settlement_amount: None,
            notes: None,
            metadata: AuditMetadata::default(),
        }
    }

    /// The record's id.
    pub fn id(&self) -> (r: &u128)
        ensures
            *r == self.id,
    {
        &self.id
    }

    /// The record's typed id.
    pub fn typed_id(&self) -> (r: ProviderBankAccountId)
        ensures
            r == ProviderBankAccountId(self.id),
    {
        ProviderBankAccountId(self.id)
    }

    /// When the record was created.
    pub fn created_at(&self) -> (r: Option<&i64>)
        ensures
            r is Some <==> self.metadata.created_at is Some,
            r is Some ==> r->0 == self.metadata.created_at->0,
    {
        self.metadata.created_at.as_ref()
    }

    /// When the record was last updated.
    pub fn updated_at(&self) -> (r: Option<&i64>)
        ensures
            r is Some <==> self.metadata.updated_at is Some,
            r is Some ==> r->0 == self.metadata.updated_at->0,
    {
        self.metadata.updated_at.as_ref()
    }

    /// Whether the record is soft-deleted.
    pub fn is_deleted(&self) -> (r: bool)
        ensures
            r == self.metadata.deleted_at is Some,
    {
        self.metadata.deleted_at.is_some()
    }

    /// Whether the record is active (not soft-deleted).
    pub fn is_active(&self) -> (r: bool)
        ensures
            r == self.metadata.deleted_at is None,
    {
        self.metadata.deleted_at.is_none()
    }

    /// When the record was soft-deleted.
    pub fn deleted_at(&self) -> (r: Option<&i64>)
        ensures
            r is Some <==> self.metadata.deleted_at is Some,
            r is Some ==> r->0 == self.metadata.deleted_at->0,
    {
        self.metadata.deleted_at.as_ref()
    }

    /// Who created the record.
    pub fn created_by(&self) -> (r: Option<&u128>)
        ensures
            r is Some <==> self.metadata.created_by is Some,
            r is Some ==> r->0 == self.metadata.created_by->0,
    {
        self.metadata.created_by.as_ref()
    }

    /// Who last updated the record.
    pub fn updated_by(&self) -> (r: Option<&u128>)
        ensures
            r is Some <==> self.metadata.updated_by is Some,
            r is Some ==> r->0 == self.metadata.updated_by->0,
    {
        self.metadata.updated_by.as_ref()
    }

    /// Who soft-deleted the record.
    pub fn deleted_by(&self) -> (r: Option<&u128>)
        ensures
            r is Some <==> self.metadata.deleted_by is Some,
            r is Some ==> r->0 == self.metadata.deleted_by->0,
    {
        self.metadata.deleted_by.as_ref()
    }

    /// The record's status.
    pub fn status(&self) -> (r: &BankAccountStatus)
        ensures
            *r == self.status,
    {
        &self.status
    }

    /// The record with `branch_name` set.
    pub fn with_branch_name(self, value: String) -> (r: Self)
        ensures
            r == (ProviderBankAccount { branch_name: Some(value), ..self }),
    {
        let mut s = self;
        s.branch_name = Some(value);
        s
    }

    /// The record with `branch_code` set.
    pub fn with_branch_code(self, value: String) -> (r: Self)
        ensures
            r == (ProviderBankAccount { branch_code: Some(value), ..self }),
    {
        let mut s = self;
        s.branch_code = Some(value);
        s
    }

    /// The record with `swift_code` set.
    pub fn with_swift_code(self, value: String) -> (r: Self)
        ensures
            r == (ProviderBankAccount { swift_code: Some(value), ..self }),
    {
        let mut s = self;
        s.swift_code = Some(value);
        s
    }

    /// The record with `verified_at` set.
    pub fn with_verified_at(self, value: i64) -> (r: Self)
        ensures
            r == (ProviderBankAccount { verified_at: Some(value), ..self }),
    {
        let mut s = self;
        s.verified_at = Some(value);
        s
    }

    /// The record with `verified_by` set.
    pub fn with_verified_by(self, value: u128) -> (r: Self)
        ensures
            r == (ProviderBankAccount { verified_by: Some(value), ..self }),
    {
        let mut s = self;
        s.verified_by = Some(value);
        s
    }

    /// The record with `verification_method` set.
    pub fn with_verification_method(self, value: VerificationMethod) -> (r: Self)
        ensures
            r == (ProviderBankAccount { verification_method: Some(value), ..self }),
    {
        let mut s = self;
        s.verification_method = Some(value);
        s
    }

    /// The record with `verification_notes` set.
    pub fn with_verification_notes(self, value: String) -> (r: Self)
        ensures
            r == (ProviderBankAccount { verification_notes: Some(value), ..self }),
    {
        let mut s = self;
        s.verification_notes = Some(value);
        s
    }

    /// The record with `rejection_reason` set.
    pub fn with_rejection_reason(self, value: String) -> (r: Self)
        ensures
            r == (ProviderBankAccount { rejection_reason: Some(value), ..self }),
    {
        let mut s = self;
        s.rejection_reason = Some(value);
        s
    }

    /// The record with `rejected_at` set.
    pub fn with_rejected_at(self, value: i64) -> (r: Self)
        ensures
            r == (ProviderBankAccount { rejected_at: Some(value), ..self }),
    {
        let mut s = self;
        s.rejected_at = Some(value);
        s
    }

    /// The record with `rejected_by` set.
    pub fn with_rejected_by(self, value: u128) -> (r: Self)
        ensures
            r == (ProviderBankAccount { rejected_by: Some(value), ..self }),
    {
        let mut s = self;
        s.rejected_by = Some(value);
        s
    }

    /// The record with `gateway_account_id` set.
    pub fn with_gateway_account_id(self, value: String) -> (r: Self)
        ensures
            r == (ProviderBankAccount { gateway_account_id: Some(value), ..self }),
    {
        let mut s = self;
        s.gateway_account_id = Some(value);
        s
    }

    /// The record with `gateway_status` set.
    pub fn with_gateway_status(self, value: String) -> (r: Self)
        ensures
            r == (ProviderBankAccount { gateway_status: Some(value), ..self }),
    {
        let mut s = self;
        s.gateway_status = Some(value);
        s
    }

    /// The record with `document_url` set.
    pub fn with_document_url(self, value: String) -> (r: Self)
        ensures
            r == (ProviderBankAccount { document_url: Some(value), ..self }),
    {
        let mut s = self;
        s.document_url = Some(value);
        s
    }

    /// The record with `document_type` set.
    pub fn with_document_type(self, value: String) -> (r: Self)
        ensures
            r == (ProviderBankAccount { document_type: Some(value), ..self }),
    {
        let mut s = self;
        s.document_type = Some(value);
        s
    }

    /// The record with `last_settlement_at` set.
    pub fn with_last_settlement_at(self, value: i64) -> (r: Self)
        ensures
            r == (ProviderBankAccount { last_settlement_at: Some(value), ..self }),
    {
        let mut s = self;
        s.last_settlement_at = Some(value);
        s
    }

    /// The record with `last_settlement_amount` set.
    pub fn with_last_settlement_amount(self, value: Dec) -> (r: Self)
        ensures
            r == (ProviderBankAccount { last_settlement_amount: Some(value), ..self }),
    {
        let mut s = self;
        s.last_settlement_amount = Some(value);
        s
    }

    /// The record with `notes` set.
    pub fn with_notes(self, value: String) -> (r: Self)
        ensures
            r == (ProviderBankAccount { notes: Some(value), ..self }),
    {
        let mut s = self;
        s.notes = Some(value);
        s
    }

    /// Apply a partial update: each field the patch holds replaces the record's value.
    pub fn apply_patch(&mut self, patch: ProviderBankAccountPatch)
        ensures
            *final(self) == patch.applied_to(*old(self)),
    {
        let ProviderBankAccountPatch {
            provider_id,
            bank_code,
            bank_name,
            account_number,
            account_name,
            account_type,
            branch_name,
            branch_code,
            swift_code,
            status,
            is_verified,
            verified_at,
            verified_by,
            verification_method,
            verification_notes,
            rejection_reason,
            rejected_at,
            rejected_by,
            is_primary,
            is_active,
            gateway_account_id,
            gateway_status,
            gateway_metadata,
            document_url,
            document_type,
            total_settlements,
            total_amount_received,
            last_settlement_at,
            last_settlement_amount,
            notes,
        } = patch;
        replace_if_some(&mut self.provider_id, provider_id);
        replace_if_some(&mut self.bank_code, bank_code);
        replace_if_some(&mut self.bank_name, bank_name);
        replace_if_some(&mut self.account_number, account_number);
        replace_if_some(&mut self.account_name, account_name);
        replace_if_some(&mut self.account_type, account_type);
        replace_if_some(&mut self.branch_name, branch_name);
        replace_if_some(&mut self.branch_code, branch_code);
        replace_if_some(&mut self.swift_code, swift_code);
        replace_if_some(&mut self.status, status);
        replace_if_some(&mut self.is_verified, is_verified);
        replace_if_some(&mut self.verified_at, verified_at);
        replace_if_some(&mut self.verified_by, verified_by);
        replace_if_some(&mut self.verification_method, verification_method);
        replace_if_some(&mut self.verification_notes, verification_notes);
        replace_if_some(&mut self.rejection_reason, rejection_reason);
        replace_if_some(&mut self.rejected_at, rejected_at);
        replace_if_some(&mut self.rejected_by, rejected_by);
        replace_if_some(&mut self.is_primary, is_primary);
        replace_if_some(&mut self.is_active, is_active);
        replace_if_some(&mut self.gateway_account_id, gateway_account_id);
        replace_if_some(&mut self.gateway_status, gateway_status);
        replace_if_some(&mut self.gateway_metadata, gateway_metadata);
        replace_if_some(&mut self.document_url, document_url);
        replace_if_some(&mut self.document_type, document_type);
        replace_if_some(&mut self.total_settlements, total_settlements);
        replace_if_some(&mut self.total_amount_received, total_amount_received);
        replace_if_some(&mut self.last_settlement_at, last_settlement_at);
        replace_if_some(&mut self.last_settlement_amount, last_settlement_amount);
        replace_if_some(&mut self.notes, notes);
    }
}

/// A fluent builder of a [`ProviderBankAccount`]; the id and the audit data are set when it is built.
#[derive(Debug, Clone)]
pub struct ProviderBankAccountBuilder {
    pub provider_id: Option<u128>,
    pub bank_code: Option<String>,
    pub bank_name: Option<String>,
    pub account_number: Option<String>,
    pub account_name: Option<String>,
    pub account_type: Option<BankAccountType>,
    pub branch_name: Option<String>,
    pub branch_code: Option<String>,
    pub swift_code: Option<String>,
    pub status: Option<BankAccountStatus>,
    pub is_verified: Option<bool>,
    pub verified_at: Option<i64>,
    pub verified_by: Option<u128>,
    pub verification_method: Option<VerificationMethod>,
    pub verification_notes: Option<String>,
    pub rejection_reason: Option<String>,
    pub rejected_at: Option<i64>,
    pub rejected_by: Option<u128>,
    pub is_primary: Option<bool>,
    pub is_active: Option<bool>,
    pub gateway_account_id: Option<String>,
    pub gateway_status: Option<String>,
    pub gateway_metadata: Option<String>,
    pub document_url: Option<String>,
    pub document_type: Option<String>,
    pub total_settlements: Option<i32>,
    pub total_amount_received: Option<Dec>,
    pub last_settlement_at: Option<i64>,
    pub last_settlement_amount: Option<Dec>,
    pub notes: Option<String>,
}

impl ProviderBankAccountBuilder {
    /// A builder with nothing set.
    pub open spec fn blank() -> Self {
        ProviderBankAccountBuilder { provider_id: None, bank_code: None, bank_name: None, account_number: None, account_name: None, account_type: None, branch_name: None, branch_code: None, swift_code: None, status: None, is_verified: None, verified_at: None, verified_by: None, verification_method: None, verification_notes: None, rejection_reason: None, rejected_at: None, rejected_by: None, is_primary: None, is_active: None, gateway_account_id: None, gateway_status: None, gateway_metadata: None, document_url: None, document_type: None, total_settlements: None, total_amount_received: None, last_settlement_at: None, last_settlement_amount: None, notes: None }
    }

    /// Set `provider_id` (required).
    pub fn provider_id(self, value: u128) -> (r: Self)
        ensures
            r == (ProviderBankAccountBuilder { provider_id: Some(value), ..self }),
    {
        let mut s = self;
        s.provider_id = Some(value);
        s
    }

    /// Set `bank_code` (required).
    pub fn bank_code(self, value: String) -> (r: Self)
        ensures
            r == (ProviderBankAccountBuilder { bank_code: Some(value), ..self }),
    {
        let mut s = self;
        s.bank_code = Some(value);
        s
    }

    /// Set `bank_name` (required).
    pub fn bank_name(self, value: String) -> (r: Self)
        ensures
            r == (ProviderBankAccountBuilder { bank_name: Some(value), ..self }),
    {
        let mut s = self;
        s.bank_name = Some(value);
        s
    }

    /// Set `account_number` (required).
    pub fn account_number(self, value: String) -> (r: Self)
        ensures
            r == (ProviderBankAccountBuilder { account_number: Some(value), ..self }),
    {
        let mut s = self;
        s.account_number = Some(value);
        s
    }

    /// Set `account_name` (required).
    pub fn account_name(self, value: String) -> (r: Self)
        ensures
            r == (ProviderBankAccountBuilder { account_name: Some(value), ..self }),
    {
        let mut s = self;
        s.account_name = Some(value);
        s
    }

    /// Set `account_type` (has a default).
    pub fn account_type(self, value: BankAccountType) -> (r: Self)
        ensures
            r == (ProviderBankAccountBuilder { account_type: Some(value), ..self }),
    {
        let mut s = self;
        s.account_type = Some(value);
        s
    }

    /// Set `branch_name` (optional).
    pub fn branch_name(self, value: String) -> (r: Self)
        ensures
            r == (ProviderBankAccountBuilder { branch_name: Some(value), ..self }),
    {
        let mut s = self;
        s.branch_name = Some(value);
        s
    }

    /// Set `branch_code` (optional).
    pub fn branch_code(self, value: String) -> (r: Self)
        ensures
            r == (ProviderBankAccountBuilder { branch_code: Some(value), ..self }),
    {
        let mut s = self;
        s.branch_code = Some(value);
        s
    }

    /// Set `swift_code` (optional).
    pub fn swift_code(self, value: String) -> (r: Self)
        ensures
            r == (ProviderBankAccountBuilder { swift_code: Some(value), ..self }),
    {
        let mut s = self;
        s.swift_code = Some(value);
        s
    }

    /// Set `status` (has a default).
    pub fn status(self, value: BankAccountStatus) -> (r: Self)
        ensures
            r == (ProviderBankAccountBuilder { status: Some(value), ..self }),
    {
        let mut s = self;
        s.status = Some(value);
        s
    }

    /// Set `is_verified` (has a default).
    pub fn is_verified(self, value: bool) -> (r: Self)
        ensures
            r == (ProviderBankAccountBuilder { is_verified: Some(value), ..self }),
    {
        let mut s = self;
        s.is_verified = Some(value);
        s
    }

    /// Set `verified_at` (optional).
    pub fn verified_at(self, value: i64) -> (r: Self)
        ensures
            r == (ProviderBankAccountBuilder { verified_at: Some(value), ..self }),
    {
        let mut s = self;
        s.verified_at = Some(value);
        s
    }

    /// Set `verified_by` (optional).
    pub fn verified_by(self, value: u128) -> (r: Self)
        ensures
            r == (ProviderBankAccountBuilder { verified_by: Some(value), ..self }),
    {
        let mut s = self;
        s.verified_by = Some(value);
        s
    }

    /// Set `verification_method` (optional).
    pub fn verification_method(self, value: VerificationMethod) -> (r: Self)
        ensures
            r == (ProviderBankAccountBuilder { verification_method: Some(value), ..self }),
    {
        let mut s = self;
        s.verification_method = Some(value);
        s
    }

    /// Set `verification_notes` (optional).
    pub fn verification_notes(self, value: String) -> (r: Self)
        ensures
            r == (ProviderBankAccountBuilder { verification_notes: Some(value), ..self }),
    {
        let mut s = self;
        s.verification_notes = Some(value);
        s
    }

    /// Set `rejection_reason` (optional).
    pub fn rejection_reason(self, value: String) -> (r: Self)
        ensures
            r == (ProviderBankAccountBuilder { rejection_reason: Some(value), ..self }),
    {
        let mut s = self;
        s.rejection_reason = Some(value);
        s
    }

    /// Set `rejected_at` (optional).
    pub fn rejected_at(self, value: i64) -> (r: Self)
        ensures
            r == (ProviderBankAccountBuilder { rejected_at: Some(value), ..self }),
    {
        let mut s = self;
        s.rejected_at = Some(value);
        s
    }

    /// Set `rejected_by` (optional).
    pub fn rejected_by(self, value: u128) -> (r: Self)
        ensures
            r == (ProviderBankAccountBuilder { rejected_by: Some(value), ..self }),
    {
        let mut s = self;
        s.rejected_by = Some(value);
        s
    }

    /// Set `is_primary` (has a default).
    pub fn is_primary(self, value: bool) -> (r: Self)
        ensures
            r == (ProviderBankAccountBuilder { is_primary: Some(value), ..self }),
    {
        let mut s = self;
        s.is_primary = Some(value);
        s
    }

    /// Set `is_active` (has a default).
    pub fn is_active(self, value: bool) -> (r: Self)
        ensures
            r == (ProviderBankAccountBuilder { is_active: Some(value), ..self }),
    {
        let mut s = self;
        s.is_active = Some(value);
        s
    }

    /// Set `gateway_account_id` (optional).
    pub fn gateway_account_id(self, value: String) -> (r: Self)
        ensures
            r == (ProviderBankAccountBuilder { gateway_account_id: Some(value), ..self }),
    {
        let mut s = self;
        s.gateway_account_id = Some(value);
        s
    }

    /// Set `gateway_status` (optional).
    pub fn gateway_status(self, value: String) -> (r: Self)
        ensures
            r == (ProviderBankAccountBuilder { gateway_status: Some(value), ..self }),
    {
        let mut s = self;
        s.gateway_status = Some(value);
        s
    }

    /// Set `gateway_metadata` (has a default).
    pub fn gateway_metadata(self, value: String) -> (r: Self)
        ensures
            r == (ProviderBankAccountBuilder { gateway_metadata: Some(value), ..self }),
    {
        let mut s = self;
        s.gateway_metadata = Some(value);
        s
    }

    /// Set `document_url` (optional).
    pub fn document_url(self, value: String) -> (r: Self)
        ensures
            r == (ProviderBankAccountBuilder { document_url: Some(value), ..self }),
    {
        let mut s = self;
        s.document_url = Some(value);
        s
    }

    /// Set `document_type` (optional).
    pub fn document_type(self, value: String) -> (r: Self)
        ensures
            r == (ProviderBankAccountBuilder { document_type: Some(value), ..self }),
    {
        let mut s = self;
        s.document_type = Some(value);
        s
    }

    /// Set `total_settlements` (has a default).
    pub fn total_settlements(self, value: i32) -> (r: Self)
        ensures
            r == (ProviderBankAccountBuilder { total_settlements: Some(value), ..self }),
    {
        let mut s = self;
        s.total_settlements = Some(value);
        s
    }

    /// Set `total_amount_received` (has a default).
    pub fn total_amount_received(self, value: Dec) -> (r: Self)
        ensures
            r == (ProviderBankAccountBuilder { total_amount_received: Some(value), ..self }),
    {
        let mut s = self;
        s.total_amount_received = Some(value);
        s
    }

    /// Set `last_settlement_at` (optional).
    pub fn last_settlement_at(self, value: i64) -> (r: Self)
        ensures
            r == (ProviderBankAccountBuilder { last_settlement_at: Some(value), ..self }),
    {
        let mut s = self;
        s.last_settlement_at = Some(value);
        s
    }

    /// Set `last_settlement_amount` (optional).
    pub fn last_settlement_amount(self, value: Dec) -> (r: Self)
        ensures
            r == (ProviderBankAccountBuilder { last_settlement_amount: Some(value), ..self }),
    {
        let mut s = self;
        s.last_settlement_amount = Some(value);
        s
    }

    /// Set `notes` (optional).
    pub fn notes(self, value: String) -> (r: Self)
        ensures
            r == (ProviderBankAccountBuilder { notes: Some(value), ..self }),
    {
        let mut s = self;
        s.notes = Some(value);
        s
    }

    /// Build the record, with a fresh id and blank audit data; an error names the first
    /// required field that is missing. Unset fields with a default take it.
    pub fn build(self) -> (r: Result<ProviderBankAccount, String>)
        ensures
            match r {
                Ok(e) => {
                    &&& self.provider_id is Some
                    &&& self.bank_code is Some
                    &&& self.bank_name is Some
                    &&& self.account_number is Some
                    &&& self.account_name is Some
                    &&& e == (ProviderBankAccount {
                        id: e.id,
                        provider_id: self.provider_id.unwrap(),
                        bank_code: self.bank_code.unwrap(),
                        bank_name: self.bank_name.unwrap(),
                        account_number: self.account_number.unwrap(),
                        account_name: self.account_name.unwrap(),
                        account_type: match self.account_type {
                            Some(v) => v,
                            None => BankAccountType::Checking,
                        },
                        branch_name: self.branch_name,
                        branch_code: self.branch_code,
                        swift_code: self.swift_code,
                        status: match self.status {
                            Some(v) => v,
                            None => BankAccountStatus::Pending,
                        },
                        is_verified: match self.is_verified {
                            Some(v) => v,
                            None => false,
                        },
                        verified_at: self.verified_at,
                        verified_by: self.verified_by,
                        verification_method: self.verification_method,
                        verification_notes: self.verification_notes,
                        rejection_reason: self.rejection_reason,
                        rejected_at: self.rejected_at,
                        rejected_by: self.rejected_by,
                        is_primary: match self.is_primary {
                            Some(v) => v,
                            None => false,
                        },
                        is_active: match self.is_active {
                            Some(v) => v,
                            None => true,
                        },
                        gateway_account_id: self.gateway_account_id,
                        gateway_status: self.gateway_status,
                        gateway_metadata: e.gateway_metadata,
                        document_url: self.document_url,
                        document_type: self.document_type,
                        total_settlements: match self.total_settlements {
                            Some(v) => v,
                            None => 0,
                        },
                        total_amount_received: match self.total_amount_received {
                            Some(v) => v,
                            None => Dec { mantissa: 0, scale: 0 },
                        },
                        last_settlement_at: self.last_settlement_at,
                        last_settlement_amount: self.last_settlement_amount,
                        notes: self.notes,
                        metadata: AuditMetadata::blank()
                    })
                    &&& e.gateway_metadata@ == match self.gateway_metadata {
                        Some(v) => v@,
                        None => "{}"@,
                    }
                },
                Err(m) => if self.provider_id is None {
                    m@ == "provider_id is required"@
                } else if self.bank_code is None {
                    m@ == "bank_code is required"@
                } else if self.bank_name is None {
                    m@ == "bank_name is required"@
                } else if self.account_number is None {
                    m@ == "account_number is required"@
                } else if self.account_name is None {
                    m@ == "account_name is required"@
                } else {
                    false
                },
            },
    {
        let ProviderBankAccountBuilder {
            provider_id,
            bank_code,
            bank_name,
            account_number,
            account_name,
            account_type,
            branch_name,
            branch_code,
            swift_code,
            status,
            is_verified,
            verified_at,
            verified_by,
            verification_method,
            verification_notes,
            rejection_reason,
            rejected_at,
            rejected_by,
            is_primary,
            is_active,
            gateway_account_id,
            gateway_status,
            gateway_metadata,
            document_url,
            document_type,
            total_settlements,
            total_amount_received,
            last_settlement_at,
            last_settlement_amount,
            notes,
        } = self;
        let provider_id = match provider_id {
            Some(v) => v,
            None => {
                return Err("provider_id is required".to_string());
            },
        };
        let bank_code = match bank_code {
            Some(v) => v,
            None => {
                return Err("bank_code is required".to_string());
            },
        };
        let bank_name = match bank_name {
            Some(v) => v,
            None => {
                return Err("bank_name is required".to_string());
            },
        };
        let account_number = match account_number {
            Some(v) => v,
            None => {
                return Err("account_number is required".to_string());
            },
        };
        let account_name = match account_name {
            Some(v) => v,
            None => {
                return Err("account_name is required".to_string());
            },
        };
        Ok(ProviderBankAccount {
            id: new_entity_id(),
            provider_id,
            bank_code,
            bank_name,
            account_number,
            account_name,
            account_type: match account_type {
                Some(v) => v,
                None => BankAccountType::default(),
            },
            branch_name,
            branch_code,
            swift_code,
            status: match status {
                Some(v) => v,
                None => BankAccountStatus::default(),
            },
            is_verified: match is_verified {
                Some(v) => v,
                None => false,
            },
            verified_at,
            verified_by,
            verification_method,
            verification_notes,
            rejection_reason,
            rejected_at,
            rejected_by,
            is_primary: match is_primary {
                Some(v) => v,
                None => false,
            },
            is_active: match is_active {
                Some(v) => v,
                None => true,
            },
            gateway_account_id,
            gateway_status,
            gateway_metadata: match gateway_metadata {
                Some(v) => v,
                None => "{}".to_string(),
            },
            document_url,
            document_type,
            total_settlements: match total_settlements {
                Some(v) => v,
                None => 0,
            },
            total_amount_received: match total_amount_received {
                Some(v) => v,
                None => Dec::zero(),
            },
            last_settlement_at,
            last_settlement_amount,
            notes,
            metadata: AuditMetadata::default(),
        })
    }
}

impl Default for ProviderBankAccountBuilder {
    fn default() -> (r: Self)
        ensures
            r == ProviderBankAccountBuilder::blank(),
    {
        ProviderBankAccountBuilder {
            provider_id: None,
            bank_code: None,
            bank_name: None,
            account_number: None,
            account_name: None,
            account_type: None,
            branch_name: None,
            branch_code: None,
            swift_code: None,
            status: None,
            is_verified: None,
            verified_at: None,
            verified_by: None,
            verification_method: None,
            verification_notes: None,
            rejection_reason: None,
            rejected_at: None,
            rejected_by: None,
            is_primary: None,
            is_active: None,
            gateway_account_id: None,
            gateway_status: None,
            gateway_metadata: None,
            document_url: None,
            document_type: None,
            total_settlements: None,
            total_amount_received: None,
            last_settlement_at: None,
            last_settlement_amount: None,
            notes: None,
        }
    }
}

} // verus!
