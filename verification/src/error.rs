//! The billing domain's errors, their stable codes and HTTP statuses.
use vstd::prelude::*;

verus! {

broadcast use vstd::string::group_string_axioms;

/// A database error, carried through as it is.
#[verifier::external_type_specification]
#[verifier::external_body]
pub struct ExSqlxError(sqlx::Error);

/// Why a billing verb refused or failed.
#[derive(Debug)]
pub enum BillingError {
    EmptyDocument,
    NegativeAmount,
    UnsupportedCurrency(String),
    UnbalancedPost,
    DuplicateNumber(String),
    /// The invoice (by its 128-bit UUID) does not exist in the caller's scope.
    InvoiceNotFound(u128),
    NotDraft(String),
    GlRejected { code: String, message: String },
    /// The reconciliation-graph sink refused the settlement's edge, or clamped to a different
    /// amount than billing did.
    ReconcileRefused { code: String, message: String },
    /// A line carried a tax template but no tax engine is wired.
    TaxEngineUnwired,
    /// The tax engine refused or failed the document computation.
    TaxCompute { code: String, message: String },
    /// A payment term (by its 128-bit UUID) was not found.
    TermNotFound(u128),
    /// A payment term or its invoice application is shape-invalid.
    TermInvalid { code: String, message: String },
    Db(sqlx::Error),
}

/// The stable machine code of an error.
pub open spec fn spec_code(e: &BillingError) -> Seq<char> {
    match e {
        BillingError::EmptyDocument => "empty_document"@,
        BillingError::NegativeAmount => "negative_amount"@,
        BillingError::UnsupportedCurrency(_) => "unsupported_currency"@,
        BillingError::UnbalancedPost => "unbalanced_post"@,
        BillingError::DuplicateNumber(_) => "duplicate_number"@,
        BillingError::InvoiceNotFound(_) => "invoice_not_found"@,
        BillingError::NotDraft(_) => "invoice_not_draft"@,
        BillingError::GlRejected { code, .. } => code@,
        BillingError::ReconcileRefused { code, .. } => code@,
        BillingError::TaxEngineUnwired => "tax_engine_unwired"@,
        BillingError::TaxCompute { code, .. } => code@,
        BillingError::TermNotFound(_) => "term_not_found"@,
        BillingError::TermInvalid { code, .. } => code@,
        BillingError::Db(_) => "internal_error"@,
    }
}

/// The HTTP status an error answers with.
pub open spec fn spec_http_status(e: &BillingError) -> u16 {
    match e {
        BillingError::InvoiceNotFound(_) | BillingError::TermNotFound(_) => 404,
        BillingError::Db(_) => 500,
        _ => 422,
    }
}

/// The human-readable text: `code: message` where the error carries a message, the code otherwise.
pub open spec fn spec_message(e: &BillingError) -> Seq<char> {
    match e {
        BillingError::GlRejected { code, message } => code@ + ": "@ + message@,
        BillingError::ReconcileRefused { code, message } => code@ + ": "@ + message@,
        BillingError::TaxCompute { code, message } => code@ + ": "@ + message@,
        BillingError::TermInvalid { code, message } => code@ + ": "@ + message@,
        _ => spec_code(e),
    }
}

fn code_message(code: &String, message: &String) -> (r: String)
    ensures
        r@ == code@ + ": "@ + message@,
{
    let s = code.clone();
    let s = s.concat(": ");
    s.concat(message.as_str())
}

impl BillingError {
    /// The stable machine code.
    pub fn code(&self) -> (r: String)
        ensures
            r@ == spec_code(self),
    {
        match self {
            BillingError::EmptyDocument => "empty_document".to_string(),
            BillingError::NegativeAmount => "negative_amount".to_string(),
            BillingError::UnsupportedCurrency(_) => "unsupported_currency".to_string(),
            BillingError::UnbalancedPost => "unbalanced_post".to_string(),
            BillingError::DuplicateNumber(_) => "duplicate_number".to_string(),
            BillingError::InvoiceNotFound(_) => "invoice_not_found".to_string(),
            BillingError::NotDraft(_) => "invoice_not_draft".to_string(),
            BillingError::GlRejected { code, .. } => code.clone(),
            BillingError::ReconcileRefused { code, .. } => code.clone(),
            BillingError::TaxEngineUnwired => "tax_engine_unwired".to_string(),
            BillingError::TaxCompute { code, .. } => code.clone(),
            BillingError::TermNotFound(_) => "term_not_found".to_string(),
            BillingError::TermInvalid { code, .. } => code.clone(),
            BillingError::Db(_) => "internal_error".to_string(),
        }
    }

    /// The HTTP status the error answers with: 404 for a missing invoice or term, 500 for a
    /// database failure, 422 otherwise.
    pub fn http_status(&self) -> (r: u16)
        ensures
            r == spec_http_status(self),
    {
        match self {
            BillingError::InvoiceNotFound(_) | BillingError::TermNotFound(_) => 404,
            BillingError::Db(_) => 500,
            _ => 422,
        }
    }

    /// The error's text (what its `Display` writes).
    pub fn message(&self) -> (r: String)
        ensures
            r@ == spec_message(self),
    {
        match self {
            BillingError::GlRejected { code, message } => code_message(code, message),
            BillingError::ReconcileRefused { code, message } => code_message(code, message),
            BillingError::TaxCompute { code, message } => code_message(code, message),
            BillingError::TermInvalid { code, message } => code_message(code, message),
            _ => self.code(),
        }
    }
}

/// A database failure is an internal error of the verb.
impl From<sqlx::Error> for BillingError {
    fn from(e: sqlx::Error) -> (r: Self) {
        BillingError::Db(e)
    }
}

impl vstd::std_specs::convert::FromSpecImpl<sqlx::Error> for BillingError {
    open spec fn obeys_from_spec() -> bool {
        true
    }

    open spec fn from_spec(v: sqlx::Error) -> Self {
        BillingError::Db(v)
    }
}

/// Why a computation does not produce its result, in the terms its contract states.
pub enum Fault {
    /// A decimal operation overflowed (where the arithmetic would panic).
    Overflow,
    /// A negative amount (`negative_amount`).
    Negative,
    /// A document without lines (`empty_document`).
    Empty,
    /// A `TermInvalid` refusal with its code and message.
    Term(Seq<char>, Seq<char>),
}

/// The error a fault is reported as.
pub open spec fn reports(e: &BillingError, f: Fault) -> bool {
    match f {
        Fault::Overflow => false,
        Fault::Negative => e is NegativeAmount,
        Fault::Empty => e is EmptyDocument,
        Fault::Term(c, m) => e matches BillingError::TermInvalid { code, message } && code@ == c
            && message@ == m,
    }
}

/// A `TermInvalid` error with the given code and message.
pub fn term_err(code: &str, message: &str) -> (r: BillingError)
    ensures
        r matches BillingError::TermInvalid { code: c, message: m } && c@ == code@ && m@
            == message@,
{
    BillingError::TermInvalid { code: code.to_string(), message: message.to_string() }
}

} // verus!
