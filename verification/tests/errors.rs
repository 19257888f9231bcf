use billing::error::term_err;
use billing::error::BillingError;

#[test]
fn error_codes_and_statuses() {
    let cases: Vec<(BillingError, &str, u16)> = vec![
        (BillingError::EmptyDocument, "empty_document", 422),
        (BillingError::NegativeAmount, "negative_amount", 422),
        (BillingError::UnsupportedCurrency("USD".to_string()), "unsupported_currency", 422),
        (BillingError::UnbalancedPost, "unbalanced_post", 422),
        (BillingError::DuplicateNumber("SI-1".to_string()), "duplicate_number", 422),
        (BillingError::InvoiceNotFound(3), "invoice_not_found", 404),
        (BillingError::NotDraft("x".to_string()), "invoice_not_draft", 422),
        (BillingError::GlRejected { code: "period_closed".to_string(), message: "closed".to_string() }, "period_closed", 422),
        (BillingError::ReconcileRefused { code: "edge_refused".to_string(), message: "no".to_string() }, "edge_refused", 422),
        (BillingError::TaxEngineUnwired, "tax_engine_unwired", 422),
        (BillingError::TaxCompute { code: "no_rate".to_string(), message: "m".to_string() }, "no_rate", 422),
        (BillingError::TermNotFound(4), "term_not_found", 404),
        (BillingError::TermInvalid { code: "term_inactive".to_string(), message: "m".to_string() }, "term_inactive", 422),
        (BillingError::Db(sqlx::Error::RowNotFound), "internal_error", 500),
    ];
    for (e, code, status) in cases {
        assert_eq!(e.code(), code);
        assert_eq!(e.http_status(), status);
    }
}

#[test]
fn error_messages() {
    let e = BillingError::GlRejected { code: "period_closed".to_string(), message: "the period is closed".to_string() };
    assert_eq!(e.message(), "period_closed: the period is closed");
    assert_eq!(BillingError::UnbalancedPost.message(), "unbalanced_post");
    assert_eq!(BillingError::Db(sqlx::Error::RowNotFound).message(), "internal_error");
    match term_err("term_inactive", "retired") {
        BillingError::TermInvalid { code, message } => {
            assert_eq!(code, "term_inactive");
            assert_eq!(message, "retired");
        }
        _ => panic!("expected TermInvalid"),
    }
}

#[test]
fn database_errors_convert_to_internal_errors() {
    let e: BillingError = sqlx::Error::RowNotFound.into();
    assert_eq!(e.code(), "internal_error");
    assert_eq!(e.http_status(), 500);
}
