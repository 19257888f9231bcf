//! Billing's domain events: what a posted or cancelled invoice announces to the rest of the system.
use vstd::prelude::*;

use crate::dec::Dec;

verus! {

/// A sales invoice's revenue was posted to the ledger.
pub struct SalesInvoicePosted {
    pub invoice_id: u128,
    pub company_id: u128,
    pub journal_id: u128,
    pub post_id: u128,
    pub source_so_id: Option<u128>,
    pub billed_lines: Vec<BilledLine>,
    pub grand_total: Dec,
}

/// One billed line (item and quantity): what a source order's billed quantity advances by.
#[derive(Debug, Clone, Copy, PartialEq, Eq, Structural)]
pub struct BilledLine {
    pub item_id: u128,
    pub quantity: Dec,
}

/// A purchase invoice's payable was posted; it carries the source purchase order and the billed
/// lines so the order's billed quantities advance.
pub struct PurchaseInvoicePosted {
    pub invoice_id: u128,
    pub company_id: u128,
    pub journal_id: u128,
    pub post_id: u128,
    pub source_po_id: Option<u128>,
    pub billed_lines: Vec<BilledLine>,
    pub grand_total: Dec,
}

/// An invoice was cancelled (its reversal post is emitted separately); `kind` is "sales" or
/// "purchase".
pub struct InvoiceCancelled {
    pub invoice_id: u128,
    pub kind: String,
}

/// The billing domain events.
pub enum BillingEvent {
    SalesInvoicePosted(SalesInvoicePosted),
    PurchaseInvoicePosted(PurchaseInvoicePosted),
    InvoiceCancelled(InvoiceCancelled),
}

/// The default event sink, which records each event in the structured log.
#[derive(Debug, Clone, Copy, PartialEq, Eq, Structural)]
pub struct LoggingSink;

/// The billed lines of an invoice: each line's item and quantity, in order.
pub fn billed_lines(lines: &[(u128, Dec)]) -> (r: Vec<BilledLine>)
    ensures
        r@.len() == lines@.len(),
        forall|i: int|
            0 <= i < lines@.len() ==> (#[trigger] r@[i]) == (BilledLine {
                item_id: lines@[i].0,
                quantity: lines@[i].1,
            }),
{
    let mut out: Vec<BilledLine> = Vec::new();
    let n = lines.len();
    let mut i: usize = 0;
    while i < n
        invariant
            n == lines@.len(),
            0 <= i <= n,
            out@.len() == i,
            forall|k: int|
                0 <= k < i ==> (#[trigger] out@[k]) == (BilledLine {
                    item_id: lines@[k].0,
                    quantity: lines@[k].1,
                }),
        decreases n - i,
    {
        let (item_id, quantity) = lines[i];
        out.push(BilledLine { item_id, quantity });
        i = i + 1;
    }
    out
}

} // verus!
