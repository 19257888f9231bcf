//! The settlement seam: how a payment's allocation draws an invoice's outstanding down (and a
//! cancelled payment restores it), how the payment schedules follow, and the early-pay-discount
//! decision.
//!
//! Billing's invariant is the CLAMP: a settlement knocks off only what is owed,
//! `applied = min(requested, outstanding)`, and reports the unapplied remainder
//! (`requested − applied`) for the caller to book as an on-account credit. A reversal restores at
//! most what was settled, `restored = min(requested, grand_total − outstanding)`, so the
//! outstanding never rises above the invoice total. The installments follow: a drawdown fills
//! them in order by what was applied, a rewind empties them last-first by what was restored, and
//! on installments paid in order the rewind is the drawdown's inverse.
use vstd::prelude::*;

use crate::calendar::Date;
use crate::dec::abs_int;
use crate::dec::add_fits;
use crate::dec::checked_add;
use crate::dec::checked_sub;
use crate::dec::decimal_checked_add;
use crate::dec::decimal_checked_sub;
use crate::dec::le;
use crate::dec::lt;
use crate::dec::lemma_add_fits_in_room;
use crate::dec::money;
use crate::dec::room;
use crate::dec::spec_money;
use crate::dec::sub_fits;
use crate::dec::Dec;
use crate::domain::payment_schedule_status::PaymentScheduleStatus;
use crate::error::BillingError;
use crate::text::str_eq;

use rust_decimal::Decimal;

verus! {

broadcast use vstd::string::group_string_axioms;

/// Which billing invoice table a settlement targets.
#[derive(Debug, Clone, Copy, PartialEq, Eq, Structural)]
pub enum InvoiceKind {
    Sales,
    Purchase,
}

/// The settlement seam's wire `kind`, matched exactly (no lowercasing).
pub open spec fn spec_parse_invoice_kind(kind: Seq<char>) -> Option<InvoiceKind> {
    if kind == "sales"@ {
        Some(InvoiceKind::Sales)
    } else if kind == "purchase"@ {
        Some(InvoiceKind::Purchase)
    } else {
        None
    }
}

/// Parse the settlement seam's wire `kind` into the closed [`InvoiceKind`]. `None` = unknown
/// kind. Deliberately exact: "Sales" or "PURCHASE" are not kinds.
pub fn parse_invoice_kind(kind: &str) -> (r: Option<InvoiceKind>)
    ensures
        r == spec_parse_invoice_kind(kind@),
{
    if str_eq(kind, "sales") {
        Some(InvoiceKind::Sales)
    } else if str_eq(kind, "purchase") {
        Some(InvoiceKind::Purchase)
    } else {
        None
    }
}

/// Resolve the wire `kind` into the closed enum; an unknown kind is refused with the long-standing
/// domain error (`invoice_not_draft`, "unknown invoice kind <kind>").
pub fn invoice_kind(kind: &str) -> (r: Result<InvoiceKind, BillingError>)
    ensures
        match spec_parse_invoice_kind(kind@) {
            Some(k) => r matches Ok(x) && x == k,
            None => r matches Err(BillingError::NotDraft(m)) && m@ == "unknown invoice kind "@
                + kind@,
        },
{
    match parse_invoice_kind(kind) {
        Some(k) => Ok(k),
        None => Err(BillingError::NotDraft("unknown invoice kind ".to_string().concat(kind))),
    }
}

/// The table a kind settles against.
pub open spec fn spec_settlement_table(kind: InvoiceKind) -> Seq<char> {
    match kind {
        InvoiceKind::Sales => "billing.sales_invoices"@,
        InvoiceKind::Purchase => "billing.purchase_invoices"@,
    }
}

/// The table a given kind settles against: one of two fixed names, never caller text.
pub fn settlement_table(kind: InvoiceKind) -> (r: &'static str)
    ensures
        r@ == spec_settlement_table(kind),
{
    match kind {
        InvoiceKind::Sales => "billing.sales_invoices",
        InvoiceKind::Purchase => "billing.purchase_invoices",
    }
}

/// The settlement drawdown's statements run against the caller's transaction; the repository
/// itself holds no state.
pub struct InvoiceSettlementRepository;

impl InvoiceSettlementRepository {
    /// The repository; it holds no state.
    pub fn new() -> (r: Self) {
        InvoiceSettlementRepository
    }
}

impl Default for InvoiceSettlementRepository {
    fn default() -> (r: Self) {
        Self::new()
    }
}

/// A locked invoice's settlement state.
pub struct OutstandingRow {
    pub outstanding_amount: Dec,
    /// The ceiling a reversal restores against.
    pub grand_total: Dec,
    /// The receivable (sales) or payable (purchase) control account, as a 128-bit UUID.
    pub control_account_id: u128,
}

/// One side of a reconciliation edge: a producer source, the document it posted, and the control
/// account both sides share.
#[derive(Debug, Clone, PartialEq, Eq)]
pub struct ReconcileSide {
    pub source_type: String,
    pub source_id: u128,
    pub account_id: u128,
    pub reversing: bool,
}

/// The (debit, credit) sides of one invoice↔payment settlement: for a sales invoice the invoice's
/// receivable line (`order`) owes and the payment (`payment`) pays; a purchase mirrors it, the
/// payment debiting the payable and the invoice (`expense`) crediting it.
pub open spec fn spec_edge_sides(
    kind: InvoiceKind,
    invoice_ref: u128,
    control_account: u128,
    payment_id: u128,
) -> ((Seq<char>, u128), (Seq<char>, u128)) {
    match kind {
        InvoiceKind::Sales => (("order"@, invoice_ref), ("payment"@, payment_id)),
        InvoiceKind::Purchase => (("payment"@, payment_id), ("expense"@, invoice_ref)),
    }
}

/// Side `s` locates source `src` on `account`, not reversing.
pub open spec fn side_is(s: ReconcileSide, src: (Seq<char>, u128), account: u128) -> bool {
    s.source_type@ == src.0 && s.source_id == src.1 && s.account_id == account && !s.reversing
}

/// The two reconciliation-graph locator sides of one invoice↔payment settlement, on the invoice's
/// control account.
pub fn edge_sides(kind: InvoiceKind, invoice_ref: u128, control_account: u128, payment_id: u128) -> (r: (
    ReconcileSide,
    ReconcileSide,
))
    ensures
        side_is(r.0, spec_edge_sides(kind, invoice_ref, control_account, payment_id).0, control_account),
        side_is(r.1, spec_edge_sides(kind, invoice_ref, control_account, payment_id).1, control_account),
{
    let line = |source_type: &str, source_id: u128| -> (s: ReconcileSide)
        ensures
            s.source_type@ == source_type@ && s.source_id == source_id && s.account_id
                == control_account && !s.reversing,
        {
            ReconcileSide {
                source_type: source_type.to_string(),
                source_id,
                account_id: control_account,
                reversing: false,
            }
        };
    match kind {
        InvoiceKind::Sales => (line("order", invoice_ref), line("payment", payment_id)),
        InvoiceKind::Purchase => (line("payment", payment_id), line("expense", invoice_ref)),
    }
}

/// An invoice's outstanding status after a settlement or a reversal.
#[derive(Debug, Clone, Copy, PartialEq, Eq, Structural)]
pub enum OutstandingStatus {
    Paid,
    PartiallyPaid,
    /// Owed in full again.
    Submitted,
}

impl OutstandingStatus {
    /// The `invoice_status` text of the status.
    pub open spec fn spec_name(self) -> Seq<char> {
        match self {
            OutstandingStatus::Paid => "paid"@,
            OutstandingStatus::PartiallyPaid => "partially_paid"@,
            OutstandingStatus::Submitted => "submitted"@,
        }
    }

    /// The `invoice_status` text the row is written with.
    pub fn as_str(&self) -> (r: &'static str)
        ensures
            r@ == self.spec_name(),
    {
        match self {
            OutstandingStatus::Paid => "paid",
            OutstandingStatus::PartiallyPaid => "partially_paid",
            OutstandingStatus::Submitted => "submitted",
        }
    }
}

/// The checks both settlement directions run before touching the invoice: a known kind, a
/// non-negative amount; the amount is rounded to money and a zero amount is a no-op (`None`).
pub fn settlement_request(kind: &str, amount: Dec) -> (r: Result<Option<(InvoiceKind, Dec)>, BillingError>)
    requires
        amount.wf(),
    ensures
        match spec_parse_invoice_kind(kind@) {
            None => r matches Err(BillingError::NotDraft(m)) && m@ == "unknown invoice kind "@
                + kind@,
            Some(k) => if amount.units() < 0 {
                r matches Err(BillingError::NegativeAmount)
            } else if spec_money(amount).units() == 0 {
                r matches Ok(None)
            } else {
                r matches Ok(Some((k2, a))) && k2 == k && a == spec_money(amount)
            },
        },
        r matches Ok(Some((_, a))) ==> a.wf() && a.scale <= 2 && a.units() > 0,
{
    let k = invoice_kind(kind)?;
    if lt(amount, Dec::zero()) {
        return Err(BillingError::NegativeAmount);
    }
    let a = money(amount);
    if a.is_zero() {
        return Ok(None);
    }
    proof {
        crate::dec::lemma_money_sign(amount);
    }
    Ok(Some((k, a)))
}

/// What a settlement does to a locked invoice row.
pub struct SettlementStep {
    /// What was knocked off (clamped to what was owed).
    pub applied: Dec,
    /// The outstanding written back.
    pub outstanding: Dec,
    pub status: OutstandingStatus,
}

/// The clamp: `applied = min(requested, outstanding)`; nothing happens when that is zero;
/// otherwise the outstanding drops by `applied` and the invoice is `paid` when nothing is left,
/// `partially_paid` otherwise.
pub open spec fn spec_clamp_settlement(outstanding: Dec, requested: Dec) -> Option<(Dec, Dec, OutstandingStatus)> {
    let applied = if requested.units() < outstanding.units() {
        requested
    } else {
        outstanding
    };
    if applied.units() == 0 {
        None
    } else {
        match decimal_checked_sub(outstanding, applied) {
            None => None,
            Some(new_out) => Some(
                (
                    applied,
                    new_out,
                    if new_out.units() == 0 {
                        OutstandingStatus::Paid
                    } else {
                        OutstandingStatus::PartiallyPaid
                    },
                ),
            ),
        }
    }
}

/// The outstanding's drawdown does not overflow.
pub open spec fn clamp_defined(outstanding: Dec, requested: Dec) -> bool {
    let applied = if requested.units() < outstanding.units() {
        requested
    } else {
        outstanding
    };
    applied.units() != 0 ==> decimal_checked_sub(outstanding, applied) is Some
}

/// Apply a settlement's requested amount to an invoice's outstanding (the clamp). `None` when
/// nothing is applied.
pub fn clamp_settlement(outstanding: Dec, requested: Dec) -> (r: Option<SettlementStep>)
    requires
        outstanding.wf(),
        requested.wf(),
        clamp_defined(outstanding, requested),
    ensures
        match spec_clamp_settlement(outstanding, requested) {
            None => r is None,
            Some((a, o, s)) => r matches Some(step) && step.applied == a && step.outstanding == o
                && step.status == s,
        },
        r matches Some(step) ==> step.applied.wf() && step.outstanding.wf(),
        r is None <==> clamped_units(outstanding.units(), requested.units()) == 0,
        r matches Some(step) ==> step.applied.units() == clamped_units(
            outstanding.units(),
            requested.units(),
        ),
        sub_fits(outstanding, applied_of(outstanding, requested)) ==> (r matches Some(step)
            ==> step.outstanding.units() == outstanding.units() - step.applied.units()),
{
    let applied = if lt(requested, outstanding) {
        requested
    } else {
        outstanding
    };
    if applied.is_zero() {
        return None;
    }
    let new_out = checked_sub(outstanding, applied).unwrap();
    let status = if new_out.is_zero() {
        OutstandingStatus::Paid
    } else {
        OutstandingStatus::PartiallyPaid
    };
    Some(SettlementStep { applied, outstanding: new_out, status })
}

/// [`clamp_settlement`] where the outstanding's drawdown may overflow: `None` exactly when it
/// does (never when the subtraction fits), and otherwise what [`clamp_settlement`] returns.
pub fn try_clamp_settlement(outstanding: Dec, requested: Dec) -> (r: Option<Option<SettlementStep>>)
    requires
        outstanding.wf(),
        requested.wf(),
    ensures
        r is Some <==> clamp_defined(outstanding, requested),
        sub_fits(outstanding, applied_of(outstanding, requested)) ==> r is Some,
        r matches Some(x) ==> match spec_clamp_settlement(outstanding, requested) {
            None => x is None,
            Some((a, o, s)) => x matches Some(step) && step.applied == a && step.outstanding == o
                && step.status == s,
        },
        r matches Some(Some(step)) ==> step.applied.wf() && step.outstanding.wf(),
        r matches Some(x) ==> (x is None <==> clamped_units(outstanding.units(), requested.units())
            == 0),
        r matches Some(Some(step)) ==> step.applied.units() == clamped_units(
            outstanding.units(),
            requested.units(),
        ),
        sub_fits(outstanding, applied_of(outstanding, requested)) ==> (r matches Some(Some(step))
            ==> step.outstanding.units() == outstanding.units() - step.applied.units()),
{
    let applied = if lt(requested, outstanding) {
        requested
    } else {
        outstanding
    };
    if !applied.is_zero() && checked_sub(outstanding, applied).is_none() {
        return None;
    }
    Some(clamp_settlement(outstanding, requested))
}

/// What a settlement applies: the requested amount, capped at what is owed.
pub open spec fn applied_of(outstanding: Dec, requested: Dec) -> Dec {
    if requested.units() < outstanding.units() {
        requested
    } else {
        outstanding
    }
}

/// The clamp in values: `min(requested, outstanding)`.
pub open spec fn clamped_units(outstanding: int, requested: int) -> int {
    if requested < outstanding {
        requested
    } else {
        outstanding
    }
}

/// The restore in values: `min(requested, grand_total − outstanding)`.
pub open spec fn restorable_units(outstanding: int, grand_total: int, requested: int) -> int {
    if requested < grand_total - outstanding {
        requested
    } else {
        grand_total - outstanding
    }
}

/// A settlement of a non-negative amount against a non-negative outstanding knocks off neither
/// more than was requested nor more than was owed, never leaves a negative outstanding, and leaves
/// the invoice paid exactly when the request covered it.
pub proof fn law_settlement_clamps(outstanding: int, requested: int)
    requires
        outstanding >= 0,
        requested >= 0,
    ensures
        0 <= clamped_units(outstanding, requested) <= requested,
        clamped_units(outstanding, requested) <= outstanding,
        outstanding - clamped_units(outstanding, requested) >= 0,
        outstanding - clamped_units(outstanding, requested) == 0 <==> requested >= outstanding,
        requested - clamped_units(outstanding, requested) >= 0,
{
}

/// A reversal never pushes the outstanding above the invoice total, nor restores more than was
/// requested.
pub proof fn law_restore_bounded(outstanding: int, grand_total: int, requested: int)
    requires
        outstanding <= grand_total,
        requested >= 0,
    ensures
        0 <= restorable_units(outstanding, grand_total, requested) <= requested,
        outstanding + restorable_units(outstanding, grand_total, requested) <= grand_total,
{
}

/// Reversing a settlement that was not an over-payment, by the amount it applied, restores the
/// invoice's outstanding exactly (the reversal is the settlement's mirror).
pub proof fn law_reverse_undoes_settlement(outstanding: int, grand_total: int, requested: int)
    requires
        0 <= outstanding <= grand_total,
        0 <= requested,
    ensures
        ({
            let applied = clamped_units(outstanding, requested);
            let after = outstanding - applied;
            &&& (requested <= outstanding ==> applied == requested)
            &&& restorable_units(after, grand_total, applied) == applied
            &&& after + restorable_units(after, grand_total, applied) == outstanding
        }),
{
}

/// The same over the decimals the settlement and the reversal compute: where the settlement's
/// drawdown, the reversal's headroom and its restored outstanding are exact (as [`clamp_settlement`]
/// and [`restore_settlement`] state them where the amounts fit), reversing a settlement by what it
/// applied restores that amount and gives back the outstanding it started from.
pub proof fn law_reverse_restores_the_outstanding(outstanding: Dec, grand_total: Dec, requested: Dec)
    requires
        0 <= outstanding.units() <= grand_total.units(),
        0 <= requested.units(),
        spec_clamp_settlement(outstanding, requested) matches Some((a, after, _)) && after.units()
            == outstanding.units() - a.units() && (decimal_checked_sub(grand_total, after) matches Some(h)
            && h.units() == grand_total.units() - after.units()) && (spec_restore_settlement(
            after,
            grand_total,
            a,
        ) matches Some((b, back, _)) && back.units() == after.units() + b.units()),
    ensures
        spec_clamp_settlement(outstanding, requested) matches Some((a, after, _))
            && spec_restore_settlement(after, grand_total, a) matches Some((b, back, _)) && b.units()
            == a.units() && back.units() == outstanding.units(),
{
}

/// A settlement marks the invoice `paid` exactly when nothing is left outstanding, and
/// `partially_paid` otherwise; where the drawdown is exact, that is exactly when the payment covers
/// the outstanding (`requested >= outstanding`). A reversal marks it `submitted` (owed in full)
/// exactly when the restored outstanding reaches the invoice total, and `partially_paid`
/// otherwise. Both apply `min` of the request and what is owed (or restorable).
pub proof fn law_settlement_status(outstanding: Dec, grand_total: Dec, requested: Dec)
    ensures
        spec_clamp_settlement(outstanding, requested) matches Some((a, after, s)) ==> {
            &&& a.units() == clamped_units(outstanding.units(), requested.units())
            &&& a.units() != 0
            &&& (s == OutstandingStatus::Paid <==> after.units() == 0)
            &&& (s == OutstandingStatus::PartiallyPaid <==> after.units() != 0)
            &&& (after.units() == outstanding.units() - a.units() ==> (s == OutstandingStatus::Paid
                <==> requested.units() >= outstanding.units()))
        },
        spec_restore_settlement(outstanding, grand_total, requested) matches Some((b, back, s)) ==> {
            &&& b.units() != 0
            &&& (s == OutstandingStatus::Submitted <==> back.units() >= grand_total.units())
            &&& (s == OutstandingStatus::PartiallyPaid <==> back.units() < grand_total.units())
        },
{
}

/// The reversal's restore: `restored = min(requested, grand_total − outstanding)`; nothing when that
/// is zero; otherwise the outstanding rises by `restored` and the invoice is `submitted` (owed in
/// full) when it reaches the total, `partially_paid` otherwise.
pub open spec fn spec_restore_settlement(outstanding: Dec, grand_total: Dec, requested: Dec) -> Option<
    (Dec, Dec, OutstandingStatus),
> {
    match decimal_checked_sub(grand_total, outstanding) {
        None => None,
        Some(headroom) => {
            let restored = if requested.units() < headroom.units() {
                requested
            } else {
                headroom
            };
            if restored.units() == 0 {
                None
            } else {
                match decimal_checked_add(outstanding, restored) {
                    None => None,
                    Some(new_out) => Some(
                        (
                            restored,
                            new_out,
                            if new_out.units() >= grand_total.units() {
                                OutstandingStatus::Submitted
                            } else {
                                OutstandingStatus::PartiallyPaid
                            },
                        ),
                    ),
                }
            }
        },
    }
}

/// The restore's arithmetic does not overflow.
pub open spec fn restore_defined(outstanding: Dec, grand_total: Dec, requested: Dec) -> bool {
    match decimal_checked_sub(grand_total, outstanding) {
        None => false,
        Some(headroom) => {
            let restored = if requested.units() < headroom.units() {
                requested
            } else {
                headroom
            };
            restored.units() != 0 ==> decimal_checked_add(outstanding, restored) is Some
        },
    }
}

/// Reverse a settlement on a locked invoice row: restore at most what was settled. `None` when
/// nothing is restored.
pub fn restore_settlement(outstanding: Dec, grand_total: Dec, requested: Dec) -> (r: Option<
    SettlementStep,
>)
    requires
        outstanding.wf(),
        grand_total.wf(),
        requested.wf(),
        restore_defined(outstanding, grand_total, requested),
    ensures
        match spec_restore_settlement(outstanding, grand_total, requested) {
            None => r is None,
            Some((a, o, s)) => r matches Some(step) && step.applied == a && step.outstanding == o
                && step.status == s,
        },
        r matches Some(step) ==> step.applied.wf() && step.outstanding.wf(),
        sub_fits(grand_total, outstanding) ==> (r is None <==> restorable_units(
            outstanding.units(),
            grand_total.units(),
            requested.units(),
        ) == 0),
        sub_fits(grand_total, outstanding) ==> (r matches Some(step) ==> step.applied.units()
            == restorable_units(outstanding.units(), grand_total.units(), requested.units())),
        r matches Some(step) ==> (add_fits(outstanding, step.applied)
            ==> step.outstanding.units() == outstanding.units() + step.applied.units()),
{
    let headroom = checked_sub(grand_total, outstanding).unwrap();
    let restored = if lt(requested, headroom) {
        requested
    } else {
        headroom
    };
    if restored.is_zero() {
        return None;
    }
    let new_out = checked_add(outstanding, restored).unwrap();
    let status = if le(grand_total, new_out) {
        OutstandingStatus::Submitted
    } else {
        OutstandingStatus::PartiallyPaid
    };
    Some(SettlementStep { applied: restored, outstanding: new_out, status })
}

/// [`restore_settlement`] where the headroom or the restored outstanding may overflow: `None`
/// exactly when one does, and otherwise what [`restore_settlement`] returns.
pub fn try_restore_settlement(outstanding: Dec, grand_total: Dec, requested: Dec) -> (r: Option<
    Option<SettlementStep>,
>)
    requires
        outstanding.wf(),
        grand_total.wf(),
        requested.wf(),
    ensures
        r is Some <==> restore_defined(outstanding, grand_total, requested),
        r matches Some(x) ==> match spec_restore_settlement(outstanding, grand_total, requested) {
            None => x is None,
            Some((a, o, s)) => x matches Some(step) && step.applied == a && step.outstanding == o
                && step.status == s,
        },
        r matches Some(Some(step)) ==> step.applied.wf() && step.outstanding.wf(),
        sub_fits(grand_total, outstanding) ==> (r matches Some(x) ==> (x is None
            <==> restorable_units(outstanding.units(), grand_total.units(), requested.units())
            == 0)),
        sub_fits(grand_total, outstanding) ==> (r matches Some(Some(step)) ==> step.applied.units()
            == restorable_units(outstanding.units(), grand_total.units(), requested.units())),
        r matches Some(Some(step)) ==> (add_fits(outstanding, step.applied)
            ==> step.outstanding.units() == outstanding.units() + step.applied.units()),
{
    let headroom = match checked_sub(grand_total, outstanding) {
        Some(h) => h,
        None => {
            return None;
        },
    };
    let restored = if lt(requested, headroom) {
        requested
    } else {
        headroom
    };
    if !restored.is_zero() && checked_add(outstanding, restored).is_none() {
        return None;
    }
    Some(restore_settlement(outstanding, grand_total, requested))
}

/// What a reversal does once its request is checked and the invoice row is locked.
pub enum ReverseAction {
    /// Nothing is restored (a zero amount, or nothing settled to restore): the reconciliation
    /// graph is left alone and the amount restored, zero, is returned.
    Done(Dec),
    /// Unlink the settlement's graph edge first, then write this step back and rewind the
    /// installments by what it restores.
    Unlink(SettlementStep),
}

/// The decision of a reversal, checked in the order the reversal runs: the kind must be known
/// (`invoice_not_draft`), the amount non-negative (`negative_amount`); a zero amount (once rounded
/// to money) is done at once; the invoice row must exist (`invoice_not_found`); and where nothing
/// can be restored (`min(money(amount), grand_total − outstanding)` is zero) the reversal is done
/// without touching the graph. Otherwise the edge is unlinked and the restore step is what
/// [`restore_settlement`] returns. `None` where the restore's decimal steps overflow.
pub fn try_reverse_step(kind: &str, amount: Dec, invoice_ref: u128, row: Option<OutstandingRow>) -> (r:
    Option<Result<ReverseAction, BillingError>>)
    requires
        amount.wf(),
        row matches Some(x) ==> x.outstanding_amount.wf() && x.grand_total.wf(),
    ensures
        match spec_parse_invoice_kind(kind@) {
            None => r matches Some(Err(BillingError::NotDraft(m))) && m@ == "unknown invoice kind "@
                + kind@,
            Some(_) => if amount.units() < 0 {
                r matches Some(Err(BillingError::NegativeAmount))
            } else if spec_money(amount).units() == 0 {
                r matches Some(Ok(ReverseAction::Done(z))) && z == (Dec { mantissa: 0, scale: 0 })
            } else {
                match row {
                    None => r matches Some(Err(BillingError::InvoiceNotFound(t))) && t == invoice_ref,
                    Some(x) => if !restore_defined(
                        x.outstanding_amount,
                        x.grand_total,
                        spec_money(amount),
                    ) {
                        r is None
                    } else {
                        match spec_restore_settlement(
                            x.outstanding_amount,
                            x.grand_total,
                            spec_money(amount),
                        ) {
                            None => r matches Some(Ok(ReverseAction::Done(z))) && z == (Dec {
                                mantissa: 0,
                                scale: 0,
                            }),
                            Some((a, o, s)) => r matches Some(Ok(ReverseAction::Unlink(step)))
                                && step.applied == a && step.outstanding == o && step.status == s,
                        }
                    },
                }
            },
        },
{
    let requested = match settlement_request(kind, amount) {
        Err(e) => {
            return Some(Err(e));
        },
        Ok(None) => {
            return Some(Ok(ReverseAction::Done(Dec::zero())));
        },
        Ok(Some((_, a))) => a,
    };
    let row = match row {
        None => {
            return Some(Err(BillingError::InvoiceNotFound(invoice_ref)));
        },
        Some(x) => x,
    };
    match try_restore_settlement(row.outstanding_amount, row.grand_total, requested) {
        None => None,
        Some(None) => Some(Ok(ReverseAction::Done(Dec::zero()))),
        Some(Some(step)) => Some(Ok(ReverseAction::Unlink(step))),
    }
}

/// [`try_reverse_step`] where the restore's decimal steps stay in range.
pub fn reverse_step(kind: &str, amount: Dec, invoice_ref: u128, row: Option<OutstandingRow>) -> (r:
    Result<ReverseAction, BillingError>)
    requires
        amount.wf(),
        row matches Some(x) ==> x.outstanding_amount.wf() && x.grand_total.wf(),
        (spec_parse_invoice_kind(kind@) is Some && amount.units() >= 0 && spec_money(amount).units()
            != 0) ==> (row matches Some(x) ==> restore_defined(
            x.outstanding_amount,
            x.grand_total,
            spec_money(amount),
        )),
    ensures
        match spec_parse_invoice_kind(kind@) {
            None => r matches Err(BillingError::NotDraft(m)) && m@ == "unknown invoice kind "@
                + kind@,
            Some(_) => if amount.units() < 0 {
                r matches Err(BillingError::NegativeAmount)
            } else if spec_money(amount).units() == 0 {
                r matches Ok(ReverseAction::Done(z)) && z == (Dec { mantissa: 0, scale: 0 })
            } else {
                match row {
                    None => r matches Err(BillingError::InvoiceNotFound(t)) && t == invoice_ref,
                    Some(x) => match spec_restore_settlement(
                        x.outstanding_amount,
                        x.grand_total,
                        spec_money(amount),
                    ) {
                        None => r matches Ok(ReverseAction::Done(z)) && z == (Dec {
                            mantissa: 0,
                            scale: 0,
                        }),
                        Some((a, o, s)) => r matches Ok(ReverseAction::Unlink(step))
                            && step.applied == a && step.outstanding == o && step.status == s,
                    },
                }
            },
        },
{
    try_reverse_step(kind, amount, invoice_ref, row).unwrap()
}

/// A payment-schedule installment as the drawdown locks it.
pub struct ScheduleRow {
    /// The installment's 128-bit UUID.
    pub id: u128,
    pub amount: Dec,
    pub paid_amount: Dec,
}

/// An installment's new paid amount and status.
#[derive(Debug, Clone, Copy, PartialEq, Eq, Structural)]
pub struct ScheduleUpdate {
    pub id: u128,
    pub paid_amount: Dec,
    pub status: PaymentScheduleStatus,
}

/// The installments are representable decimals.
pub open spec fn schedules_wf(s: Seq<ScheduleRow>) -> bool {
    forall|i: int| 0 <= i < s.len() ==> (#[trigger] s[i]).amount.wf() && s[i].paid_amount.wf()
}

/// Fill-in-order drawdown of the installments from `i` on by `remaining`: each installment with
/// room (`amount − paid > 0`) takes `min(room, remaining)` and is `paid` once its paid amount
/// reaches its amount, `partially_paid` otherwise; the drawdown stops when nothing remains.
/// `None` where the arithmetic overflows.
pub open spec fn spec_fill(
    scheds: Seq<ScheduleRow>,
    i: int,
    remaining: Dec,
    ups: Seq<ScheduleUpdate>,
) -> Option<Seq<ScheduleUpdate>>
    decreases scheds.len() - i,
{
    if i < 0 || i >= scheds.len() || remaining.units() == 0 {
        Some(ups)
    } else {
        let s = scheds[i];
        match decimal_checked_sub(s.amount, s.paid_amount) {
            None => None,
            Some(cap) => if cap.units() <= 0 {
                spec_fill(scheds, i + 1, remaining, ups)
            } else {
                let take = if cap.units() < remaining.units() {
                    cap
                } else {
                    remaining
                };
                match decimal_checked_add(s.paid_amount, take) {
                    None => None,
                    Some(np) => match decimal_checked_sub(remaining, take) {
                        None => None,
                        Some(rem) => spec_fill(
                            scheds,
                            i + 1,
                            rem,
                            ups.push(
                                ScheduleUpdate {
                                    id: s.id,
                                    paid_amount: np,
                                    status: if np.units() >= s.amount.units() {
                                        PaymentScheduleStatus::Paid
                                    } else {
                                        PaymentScheduleStatus::PartiallyPaid
                                    },
                                },
                            ),
                        ),
                    },
                }
            },
        }
    }
}

/// Rewind of the installments from `i` on (given last-installment first) by `remaining`: each
/// installment with something paid gives back `min(paid, remaining)` and becomes `unpaid` at zero,
/// `paid` if still covering its amount, `partially_paid` otherwise. `None` where the arithmetic
/// overflows.
pub open spec fn spec_rewind(
    scheds: Seq<ScheduleRow>,
    i: int,
    remaining: Dec,
    ups: Seq<ScheduleUpdate>,
) -> Option<Seq<ScheduleUpdate>>
    decreases scheds.len() - i,
{
    if i < 0 || i >= scheds.len() || remaining.units() == 0 {
        Some(ups)
    } else {
        let s = scheds[i];
        if s.paid_amount.units() <= 0 {
            spec_rewind(scheds, i + 1, remaining, ups)
        } else {
            let take = if s.paid_amount.units() < remaining.units() {
                s.paid_amount
            } else {
                remaining
            };
            match decimal_checked_sub(s.paid_amount, take) {
                None => None,
                Some(np) => match decimal_checked_sub(remaining, take) {
                    None => None,
                    Some(rem) => spec_rewind(
                        scheds,
                        i + 1,
                        rem,
                        ups.push(
                            ScheduleUpdate {
                                id: s.id,
                                paid_amount: np,
                                status: if np.units() == 0 {
                                    PaymentScheduleStatus::Unpaid
                                } else if np.units() >= s.amount.units() {
                                    PaymentScheduleStatus::Paid
                                } else {
                                    PaymentScheduleStatus::PartiallyPaid
                                },
                            },
                        ),
                    ),
                },
            }
        }
    }
}

/// A money amount a schedule step can carry exactly: representable, at most two fractional digits,
/// and within half the room of two-digit decimals (so that any two such amounts add and subtract
/// without overflow or rounding).
pub open spec fn money_within(d: Dec) -> bool {
    &&& d.wf()
    &&& d.scale <= 2
    &&& 2 * abs_int(d.units()) <= room(2)
}

/// The installments and the amount moved are all [`money_within`].
pub open spec fn schedules_fit(scheds: Seq<ScheduleRow>, amount: Dec) -> bool {
    &&& money_within(amount)
    &&& forall|i: int|
        0 <= i < scheds.len() ==> money_within((#[trigger] scheds[i]).amount) && money_within(
            scheds[i].paid_amount,
        )
}

/// The installments' amounts, in units.
pub open spec fn amounts_of(scheds: Seq<ScheduleRow>) -> Seq<int> {
    scheds.map_values(|r: ScheduleRow| r.amount.units())
}

/// The installments' paid amounts, in units.
pub open spec fn paid_of(scheds: Seq<ScheduleRow>) -> Seq<int> {
    scheds.map_values(|r: ScheduleRow| r.paid_amount.units())
}

/// The fill-in-order drawdown in units, from installment `i` on, of `rem`, over amounts `am` and
/// paid amounts `pd`: the installments it touches, in order, each with its index and its new paid
/// amount. An installment with room `amount − paid > 0` takes `min(room, rem)`; the drawdown stops
/// when nothing remains.
pub open spec fn fill_plan(am: Seq<int>, pd: Seq<int>, i: int, rem: int) -> Seq<(int, int)>
    decreases am.len() - i,
{
    if i < 0 || i >= am.len() || rem == 0 {
        seq![]
    } else {
        let cap = am[i] - pd[i];
        if cap <= 0 {
            fill_plan(am, pd, i + 1, rem)
        } else {
            let take = if cap < rem {
                cap
            } else {
                rem
            };
            seq![(i, pd[i] + take)] + fill_plan(am, pd, i + 1, rem - take)
        }
    }
}

/// The rewind in units, from installment `i` on (given last installment first), of `rem`, over
/// paid amounts `pd`: the installments it touches, in order, each with its index and its new paid
/// amount. An installment with something paid gives back `min(paid, rem)`; the rewind stops when
/// nothing remains.
pub open spec fn rewind_plan(pd: Seq<int>, i: int, rem: int) -> Seq<(int, int)>
    decreases pd.len() - i,
{
    if i < 0 || i >= pd.len() || rem == 0 {
        seq![]
    } else if pd[i] <= 0 {
        rewind_plan(pd, i + 1, rem)
    } else {
        let take = if pd[i] < rem {
            pd[i]
        } else {
            rem
        };
        seq![(i, pd[i] - take)] + rewind_plan(pd, i + 1, rem - take)
    }
}

/// The status an installment takes after a drawdown: `paid` once its paid amount reaches its amount.
pub open spec fn filled_status(amount: int, paid: int) -> PaymentScheduleStatus {
    if paid >= amount {
        PaymentScheduleStatus::Paid
    } else {
        PaymentScheduleStatus::PartiallyPaid
    }
}

/// The status an installment takes after a rewind: `unpaid` at zero.
pub open spec fn rewound_status(amount: int, paid: int) -> PaymentScheduleStatus {
    if paid == 0 {
        PaymentScheduleStatus::Unpaid
    } else {
        filled_status(amount, paid)
    }
}

/// The updates carry out a plan: one per planned installment, in order, with that installment's
/// id, the planned paid amount, and the status it gives (`rewound` picks the rewind's statuses).
pub open spec fn carries_out(
    scheds: Seq<ScheduleRow>,
    ups: Seq<ScheduleUpdate>,
    plan: Seq<(int, int)>,
    rewound: bool,
) -> bool {
    &&& ups.len() == plan.len()
    &&& forall|k: int|
        0 <= k < plan.len() ==> {
            let j = (#[trigger] plan[k]).0;
            &&& 0 <= j < scheds.len()
            &&& ups[k].id == scheds[j].id
            &&& ups[k].paid_amount.units() == plan[k].1
            &&& ups[k].status == if rewound {
                rewound_status(scheds[j].amount.units(), plan[k].1)
            } else {
                filled_status(scheds[j].amount.units(), plan[k].1)
            }
        }
}

/// An installment update marks it `paid` exactly when its new paid amount reaches its amount (and,
/// after a rewind, is not zero), `unpaid` exactly when a rewind leaves nothing paid, and
/// `partially_paid` otherwise; a drawdown never marks one `unpaid`.
pub proof fn law_installment_status(
    scheds: Seq<ScheduleRow>,
    ups: Seq<ScheduleUpdate>,
    plan: Seq<(int, int)>,
    rewound: bool,
)
    requires
        carries_out(scheds, ups, plan, rewound),
    ensures
        forall|k: int|
            0 <= k < ups.len() ==> {
                let paid = (#[trigger] ups[k]).paid_amount.units();
                let amount = scheds[plan[k].0].amount.units();
                &&& (ups[k].status == PaymentScheduleStatus::Unpaid <==> (rewound && paid == 0))
                &&& (ups[k].status == PaymentScheduleStatus::Paid <==> (paid >= amount && !(rewound
                    && paid == 0)))
                &&& (ups[k].status == PaymentScheduleStatus::PartiallyPaid <==> (paid < amount && !(
                rewound && paid == 0)))
            },
{
    assert forall|k: int| 0 <= k < ups.len() implies {
        let paid = (#[trigger] ups[k]).paid_amount.units();
        let amount = scheds[plan[k].0].amount.units();
        &&& (ups[k].status == PaymentScheduleStatus::Unpaid <==> (rewound && paid == 0))
        &&& (ups[k].status == PaymentScheduleStatus::Paid <==> (paid >= amount && !(rewound && paid
            == 0)))
        &&& (ups[k].status == PaymentScheduleStatus::PartiallyPaid <==> (paid < amount && !(rewound
            && paid == 0)))
    } by {
        assert(0 <= plan[k].0 < scheds.len());
    }
}

/// The paid amounts once a plan is carried out.
pub open spec fn after_plan(pd: Seq<int>, plan: Seq<(int, int)>) -> Seq<int>
    decreases plan.len(),
{
    if plan.len() == 0 {
        pd
    } else {
        after_plan(pd.update(plan[0].0, plan[0].1), plan.drop_first())
    }
}

/// How much a plan moves the paid amounts `pd`, in total (new paid minus old paid).
pub open spec fn plan_moved(pd: Seq<int>, plan: Seq<(int, int)>) -> int
    decreases plan.len(),
{
    if plan.len() == 0 {
        0
    } else {
        (plan[0].1 - pd[plan[0].0]) + plan_moved(pd, plan.drop_first())
    }
}

/// The room left on the installments from `i` on: `Σ max(amount − paid, 0)`.
pub open spec fn open_room(am: Seq<int>, pd: Seq<int>, i: int) -> int
    decreases am.len() - i,
{
    if i < 0 || i >= am.len() {
        0
    } else {
        let cap = am[i] - pd[i];
        (if cap > 0 {
            cap
        } else {
            0
        }) + open_room(am, pd, i + 1)
    }
}

/// What has been paid on the installments from `i` on: `Σ max(paid, 0)`.
pub open spec fn paid_in(pd: Seq<int>, i: int) -> int
    decreases pd.len() - i,
{
    if i < 0 || i >= pd.len() {
        0
    } else {
        (if pd[i] > 0 {
            pd[i]
        } else {
            0
        }) + paid_in(pd, i + 1)
    }
}

/// The first `j` amounts added up.
pub open spec fn prefix_sum(am: Seq<int>, j: int) -> int
    decreases j,
{
    if j <= 0 {
        0
    } else {
        prefix_sum(am, j - 1) + am[j - 1]
    }
}

/// `x` held to `[0, hi]`.
pub open spec fn clamp_to(x: int, hi: int) -> int {
    if x < 0 {
        0
    } else if x > hi {
        hi
    } else {
        x
    }
}

/// The schedule is paid in order up to a total `t`: each installment holds what is left of `t`
/// after the installments before it, up to its amount (earlier installments full, one partial,
/// later ones unpaid). Amounts are non-negative and `t` is at most their sum.
pub open spec fn filled_to(am: Seq<int>, pd: Seq<int>, t: int) -> bool {
    &&& am.len() == pd.len()
    &&& 0 <= t <= prefix_sum(am, am.len() as int)
    &&& forall|j: int| 0 <= j < am.len() ==> #[trigger] am[j] >= 0
    &&& forall|j: int|
        0 <= j < am.len() ==> #[trigger] pd[j] == clamp_to(t - prefix_sum(am, j), am[j])
}

proof fn lemma_fill_moves(am: Seq<int>, pd: Seq<int>, i: int, rem: int)
    requires
        0 <= i,
        rem >= 0,
    ensures
        open_room(am, pd, i) >= 0,
        plan_moved(pd, fill_plan(am, pd, i, rem)) == if rem < open_room(am, pd, i) {
            rem
        } else {
            open_room(am, pd, i)
        },
    decreases am.len() - i,
{
    if i < am.len() {
        let cap = am[i] - pd[i];
        if cap > 0 && rem != 0 {
            let take = if cap < rem {
                cap
            } else {
                rem
            };
            lemma_fill_moves(am, pd, i + 1, rem - take);
            let rest = fill_plan(am, pd, i + 1, rem - take);
            assert((seq![(i, pd[i] + take)] + rest).drop_first() =~= rest);
        } else {
            lemma_fill_moves(am, pd, i + 1, rem);
        }
    }
}

proof fn lemma_rewind_moves(pd: Seq<int>, i: int, rem: int)
    requires
        0 <= i,
        rem >= 0,
    ensures
        paid_in(pd, i) >= 0,
        plan_moved(pd, rewind_plan(pd, i, rem)) == -(if rem < paid_in(pd, i) {
            rem
        } else {
            paid_in(pd, i)
        }),
    decreases pd.len() - i,
{
    if i < pd.len() {
        if pd[i] > 0 && rem != 0 {
            let take = if pd[i] < rem {
                pd[i]
            } else {
                rem
            };
            lemma_rewind_moves(pd, i + 1, rem - take);
            let rest = rewind_plan(pd, i + 1, rem - take);
            assert((seq![(i, pd[i] - take)] + rest).drop_first() =~= rest);
        } else {
            lemma_rewind_moves(pd, i + 1, rem);
        }
    }
}

proof fn lemma_prefix_mono(am: Seq<int>, a: int, b: int)
    requires
        0 <= a <= b <= am.len(),
        forall|j: int| 0 <= j < am.len() ==> #[trigger] am[j] >= 0,
    ensures
        prefix_sum(am, a) <= prefix_sum(am, b),
    decreases b - a,
{
    if a < b {
        lemma_prefix_mono(am, a, b - 1);
    }
}

proof fn lemma_after_plan_step(q: Seq<int>, i: int, v: int, rest: Seq<(int, int)>)
    ensures
        after_plan(q, seq![(i, v)] + rest) == after_plan(q.update(i, v), rest),
{
    let plan = seq![(i, v)] + rest;
    assert(plan.drop_first() =~= rest);
    assert(plan[0] == (i, v));
}

/// The drawdown's effect on a schedule paid in order, installment `i` on, where those installments
/// hold a total `t` in order: they end up holding `t + m` in order, `m` the amount moved.
proof fn lemma_fill_shape(am: Seq<int>, pd: Seq<int>, q: Seq<int>, i: int, t: int, rem: int)
    requires
        am.len() == pd.len(),
        q.len() == pd.len(),
        0 <= i <= am.len(),
        forall|j: int| 0 <= j < am.len() ==> #[trigger] am[j] >= 0,
        0 <= t <= prefix_sum(am, am.len() as int) - prefix_sum(am, i),
        forall|j: int|
            i <= j < am.len() ==> #[trigger] pd[j] == clamp_to(
                t - (prefix_sum(am, j) - prefix_sum(am, i)),
                am[j],
            ),
        forall|j: int| i <= j < am.len() ==> #[trigger] q[j] == pd[j],
        rem >= 0,
    ensures
        after_plan(q, fill_plan(am, pd, i, rem)).len() == q.len(),
        forall|j: int|
            0 <= j < i ==> #[trigger] after_plan(q, fill_plan(am, pd, i, rem))[j] == q[j],
        forall|j: int|
            i <= j < am.len() ==> #[trigger] after_plan(q, fill_plan(am, pd, i, rem))[j]
                == clamp_to(
                t + (if rem < prefix_sum(am, am.len() as int) - prefix_sum(am, i) - t {
                    rem
                } else {
                    prefix_sum(am, am.len() as int) - prefix_sum(am, i) - t
                }) - (prefix_sum(am, j) - prefix_sum(am, i)),
                am[j],
            ),
    decreases am.len() - i,
{
    let n = am.len() as int;
    let pn = prefix_sum(am, n);
    let pi = prefix_sum(am, i);
    if i == n {
        return;
    }
    let pi1 = prefix_sum(am, i + 1);
    assert(pi1 == pi + am[i]);
    assert forall|j: int| i + 1 <= j < n implies pi1 <= #[trigger] prefix_sum(am, j) by {
        lemma_prefix_mono(am, i + 1, j);
    }
    lemma_prefix_mono(am, i + 1, n);
    let m = if rem < pn - pi - t {
        rem
    } else {
        pn - pi - t
    };
    assert(pd[i] == clamp_to(t, am[i]));
    if rem == 0 {
        assert(fill_plan(am, pd, i, rem) =~= seq![]);
        return;
    }
    if t >= am[i] {
        // a full installment is skipped
        let t1 = t - am[i];
        assert forall|j: int| i + 1 <= j < n implies #[trigger] pd[j] == clamp_to(
            t1 - (prefix_sum(am, j) - pi1),
            am[j],
        ) by {
            assert(pd[j] == clamp_to(t - (prefix_sum(am, j) - pi), am[j]));
        }
        lemma_fill_shape(am, pd, q, i + 1, t1, rem);
        assert(fill_plan(am, pd, i, rem) == fill_plan(am, pd, i + 1, rem));
        let after = after_plan(q, fill_plan(am, pd, i, rem));
        assert forall|j: int| i <= j < n implies #[trigger] after[j] == clamp_to(
            t + m - (prefix_sum(am, j) - pi),
            am[j],
        ) by {
            if j > i {
                assert(after[j] == clamp_to(t1 + m - (prefix_sum(am, j) - pi1), am[j]));
            }
        }
    } else {
        // the partial installment takes what it can; the rest start unpaid
        let cap = am[i] - pd[i];
        let take = if cap < rem {
            cap
        } else {
            rem
        };
        let v = pd[i] + take;
        assert forall|j: int| i + 1 <= j < n implies #[trigger] pd[j] == clamp_to(
            0 - (prefix_sum(am, j) - pi1),
            am[j],
        ) by {
            assert(pd[j] == clamp_to(t - (prefix_sum(am, j) - pi), am[j]));
        }
        let q1 = q.update(i, v);
        assert forall|j: int| i + 1 <= j < n implies #[trigger] q1[j] == pd[j] by {
            assert(q1[j] == q[j]);
        }
        lemma_fill_shape(am, pd, q1, i + 1, 0, rem - take);
        let rest = fill_plan(am, pd, i + 1, rem - take);
        assert(fill_plan(am, pd, i, rem) == seq![(i, v)] + rest);
        lemma_after_plan_step(q, i, v, rest);
        let after = after_plan(q, fill_plan(am, pd, i, rem));
        assert(after == after_plan(q1, rest));
        let m1 = if rem - take < pn - pi1 {
            rem - take
        } else {
            pn - pi1
        };
        assert forall|j: int| 0 <= j < i implies #[trigger] after[j] == q[j] by {
            assert(after_plan(q1, rest)[j] == q1[j]);
        }
        assert forall|j: int| i <= j < n implies #[trigger] after[j] == clamp_to(
            t + m - (prefix_sum(am, j) - pi),
            am[j],
        ) by {
            if j == i {
                assert(after_plan(q1, rest)[i] == q1[i]);
            } else {
                assert(after[j] == clamp_to(0 + m1 - (prefix_sum(am, j) - pi1), am[j]));
            }
        }
    }
}

/// The rewind's effect on installments `i` on (given last installment first) that hold a total `t`
/// paid from the far end: they end up holding `t − m` the same way, `m` the amount taken back.
proof fn lemma_rewind_shape(am: Seq<int>, pd: Seq<int>, q: Seq<int>, i: int, t: int, rem: int)
    requires
        am.len() == pd.len(),
        q.len() == pd.len(),
        0 <= i <= am.len(),
        forall|j: int| 0 <= j < am.len() ==> #[trigger] am[j] >= 0,
        0 <= t <= prefix_sum(am, am.len() as int) - prefix_sum(am, i),
        forall|j: int|
            i <= j < am.len() ==> #[trigger] pd[j] == clamp_to(
                t - (prefix_sum(am, am.len() as int) - prefix_sum(am, j + 1)),
                am[j],
            ),
        forall|j: int| i <= j < am.len() ==> #[trigger] q[j] == pd[j],
        rem >= 0,
    ensures
        after_plan(q, rewind_plan(pd, i, rem)).len() == q.len(),
        forall|j: int| 0 <= j < i ==> #[trigger] after_plan(q, rewind_plan(pd, i, rem))[j] == q[j],
        forall|j: int|
            i <= j < am.len() ==> #[trigger] after_plan(q, rewind_plan(pd, i, rem))[j] == clamp_to(
                t - (if rem < t {
                    rem
                } else {
                    t
                }) - (prefix_sum(am, am.len() as int) - prefix_sum(am, j + 1)),
                am[j],
            ),
    decreases am.len() - i,
{
    let n = am.len() as int;
    let pn = prefix_sum(am, n);
    let pi = prefix_sum(am, i);
    if i == n {
        return;
    }
    let pi1 = prefix_sum(am, i + 1);
    assert(pi1 == pi + am[i]);
    assert forall|j: int| i + 1 <= j < n implies pi1 + am[j] <= #[trigger] prefix_sum(am, j + 1) by {
        lemma_prefix_mono(am, i + 1, j);
    }
    lemma_prefix_mono(am, i + 1, n);
    let m = if rem < t {
        rem
    } else {
        t
    };
    assert(pd[i] == clamp_to(t - (pn - pi1), am[i]));
    if rem == 0 {
        assert(rewind_plan(pd, i, rem) =~= seq![]);
        return;
    }
    if pd[i] <= 0 {
        // an unpaid installment is skipped
        lemma_rewind_shape(am, pd, q, i + 1, t, rem);
        assert(rewind_plan(pd, i, rem) == rewind_plan(pd, i + 1, rem));
    } else {
        // the paid-in part gives back what it can; the rest are full
        let take = if pd[i] < rem {
            pd[i]
        } else {
            rem
        };
        let v = pd[i] - take;
        let t1 = pn - pi1;
        assert forall|j: int| i + 1 <= j < n implies #[trigger] pd[j] == clamp_to(
            t1 - (pn - prefix_sum(am, j + 1)),
            am[j],
        ) by {
            assert(pd[j] == clamp_to(t - (pn - prefix_sum(am, j + 1)), am[j]));
        }
        let q1 = q.update(i, v);
        assert forall|j: int| i + 1 <= j < n implies #[trigger] q1[j] == pd[j] by {
            assert(q1[j] == q[j]);
        }
        lemma_rewind_shape(am, pd, q1, i + 1, t1, rem - take);
        let rest = rewind_plan(pd, i + 1, rem - take);
        assert(rewind_plan(pd, i, rem) == seq![(i, v)] + rest);
        lemma_after_plan_step(q, i, v, rest);
        let after = after_plan(q, rewind_plan(pd, i, rem));
        assert(after == after_plan(q1, rest));
        let m1 = if rem - take < t1 {
            rem - take
        } else {
            t1
        };
        assert forall|j: int| 0 <= j < i implies #[trigger] after[j] == q[j] by {
            assert(after_plan(q1, rest)[j] == q1[j]);
        }
        assert forall|j: int| i <= j < n implies #[trigger] after[j] == clamp_to(
            t - m - (pn - prefix_sum(am, j + 1)),
            am[j],
        ) by {
            if j == i {
                assert(after_plan(q1, rest)[i] == q1[i]);
            } else {
                assert(after[j] == clamp_to(t1 - m1 - (pn - prefix_sum(am, j + 1)), am[j]));
            }
        }
    }
}

proof fn lemma_prefix_reverse(am: Seq<int>, j: int)
    requires
        0 <= j <= am.len(),
    ensures
        prefix_sum(am.reverse(), j) == prefix_sum(am, am.len() as int) - prefix_sum(
            am,
            am.len() - j,
        ),
    decreases j,
{
    if j > 0 {
        lemma_prefix_reverse(am, j - 1);
        assert(am.reverse()[j - 1] == am[am.len() - j]);
    }
}

/// The paid amounts once a schedule is drawn down by `applied`.
pub open spec fn paid_after_drawdown(am: Seq<int>, pd: Seq<int>, applied: int) -> Seq<int> {
    after_plan(pd, fill_plan(am, pd, 0, applied))
}

/// The paid amounts, in schedule order, once a schedule is rewound last installment first by
/// `restored`.
pub open spec fn paid_after_rewind(pd: Seq<int>, restored: int) -> Seq<int> {
    after_plan(pd.reverse(), rewind_plan(pd.reverse(), 0, restored)).reverse()
}

proof fn lemma_drawdown_fills(am: Seq<int>, pd: Seq<int>, t: int, applied: int)
    requires
        filled_to(am, pd, t),
        0 <= applied <= prefix_sum(am, am.len() as int) - t,
    ensures
        filled_to(am, paid_after_drawdown(am, pd, applied), t + applied),
{
    let n = am.len() as int;
    let pd2 = paid_after_drawdown(am, pd, applied);
    assert forall|j: int| 0 <= j < n implies #[trigger] pd[j] == clamp_to(
        t - (prefix_sum(am, j) - prefix_sum(am, 0)),
        am[j],
    ) by {
        assert(pd[j] == clamp_to(t - prefix_sum(am, j), am[j]));
    }
    lemma_fill_shape(am, pd, pd, 0, t, applied);
    assert forall|j: int| 0 <= j < n implies #[trigger] pd2[j] == clamp_to(
        (t + applied) - prefix_sum(am, j),
        am[j],
    ) by {
        assert(pd2[j] == clamp_to(t + applied - (prefix_sum(am, j) - prefix_sum(am, 0)), am[j]));
    }
}

proof fn lemma_rewind_empties(am: Seq<int>, pd: Seq<int>, t: int, restored: int)
    requires
        filled_to(am, pd, t),
        0 <= restored <= t,
    ensures
        filled_to(am, paid_after_rewind(pd, restored), t - restored),
{
    let n = am.len() as int;
    let ar = am.reverse();
    let pr = pd.reverse();
    lemma_prefix_reverse(am, n);
    assert forall|j: int| 0 <= j < n implies #[trigger] ar[j] >= 0 by {
        assert(ar[j] == am[n - 1 - j]);
    }
    assert forall|j: int| 0 <= j < n implies #[trigger] pr[j] == clamp_to(
        t - (prefix_sum(ar, n) - prefix_sum(ar, j + 1)),
        ar[j],
    ) by {
        lemma_prefix_reverse(am, j + 1);
        assert(pr[j] == pd[n - 1 - j]);
        assert(ar[j] == am[n - 1 - j]);
    }
    lemma_rewind_shape(ar, pr, pr, 0, t, restored);
    let back = after_plan(pr, rewind_plan(pr, 0, restored));
    let out = paid_after_rewind(pd, restored);
    assert(out == back.reverse());
    assert forall|j: int| 0 <= j < n implies #[trigger] out[j] == clamp_to(
        (t - restored) - prefix_sum(am, j),
        am[j],
    ) by {
        let k = n - 1 - j;
        lemma_prefix_reverse(am, k + 1);
        assert(back.reverse()[j] == back[k]);
        assert(back[k] == clamp_to(
            t - restored - (prefix_sum(ar, n) - prefix_sum(ar, k + 1)),
            ar[k],
        ));
        assert(ar[k] == am[j]);
    }
}

/// On a schedule paid in order (earlier installments full, one partial, later ones unpaid) to a
/// total `t`, a drawdown of `applied` that the open amount covers leaves it paid in order to
/// `t + applied`, and rewinding it last installment first by the same amount gives back the paid
/// amounts it started from: the rewind is the drawdown's inverse.
pub proof fn law_rewind_undoes_drawdown(am: Seq<int>, pd: Seq<int>, t: int, applied: int)
    requires
        filled_to(am, pd, t),
        0 <= applied <= prefix_sum(am, am.len() as int) - t,
    ensures
        filled_to(am, paid_after_drawdown(am, pd, applied), t + applied),
        paid_after_rewind(paid_after_drawdown(am, pd, applied), applied) == pd,
{
    lemma_drawdown_fills(am, pd, t, applied);
    let pd2 = paid_after_drawdown(am, pd, applied);
    lemma_rewind_empties(am, pd2, t + applied, applied);
    let back = paid_after_rewind(pd2, applied);
    assert(back =~= pd);
}

/// Settling and reversing keep an invoice's installments in step with its outstanding: where the
/// installments (adding up to the invoice total) are paid in order to `grand_total − outstanding`,
/// drawing them down by what a settlement applies (`min(requested, outstanding)`) leaves them paid
/// in order to `grand_total` minus the new outstanding, and rewinding them by what a reversal
/// restores (`min(requested, grand_total − outstanding)`) does the same.
pub proof fn law_schedules_follow_the_outstanding(
    am: Seq<int>,
    pd: Seq<int>,
    grand_total: int,
    outstanding: int,
    requested: int,
)
    requires
        filled_to(am, pd, grand_total - outstanding),
        prefix_sum(am, am.len() as int) == grand_total,
        0 <= outstanding <= grand_total,
        requested >= 0,
    ensures
        filled_to(
            am,
            paid_after_drawdown(am, pd, clamped_units(outstanding, requested)),
            grand_total - (outstanding - clamped_units(outstanding, requested)),
        ),
        filled_to(
            am,
            paid_after_rewind(pd, restorable_units(outstanding, grand_total, requested)),
            grand_total - (outstanding + restorable_units(outstanding, grand_total, requested)),
        ),
{
    lemma_drawdown_fills(am, pd, grand_total - outstanding, clamped_units(outstanding, requested));
    lemma_rewind_empties(
        am,
        pd,
        grand_total - outstanding,
        restorable_units(outstanding, grand_total, requested),
    );
}

/// A drawdown moves exactly what it is given onto the installments, up to the room they have left:
/// the paid amounts rise in total by `min(applied, Σ max(amount − paid, 0))`.
pub proof fn law_drawdown_conserves(am: Seq<int>, pd: Seq<int>, applied: int)
    requires
        applied >= 0,
    ensures
        plan_moved(pd, fill_plan(am, pd, 0, applied)) == if applied < open_room(am, pd, 0) {
            applied
        } else {
            open_room(am, pd, 0)
        },
{
    lemma_fill_moves(am, pd, 0, applied);
}

/// A rewind takes back exactly what it is given, up to what has been paid: the paid amounts fall in
/// total by `min(restored, Σ max(paid, 0))`.
pub proof fn law_rewind_conserves(pd: Seq<int>, restored: int)
    requires
        restored >= 0,
    ensures
        plan_moved(pd, rewind_plan(pd, 0, restored)) == -(if restored < paid_in(pd, 0) {
            restored
        } else {
            paid_in(pd, 0)
        }),
{
    lemma_rewind_moves(pd, 0, restored);
}

/// Draw the payment schedules down, fill-in-order (earliest installment first), by the amount a
/// settlement applied. Returns the installments to update, in order, or `None` where the decimal
/// arithmetic overflows. Where every amount is [`money_within`] nothing overflows or rounds, and the
/// updates carry out [`fill_plan`].
pub fn try_draw_down_schedules(scheds: &[ScheduleRow], applied: Dec) -> (r: Option<
    Vec<ScheduleUpdate>,
>)
    requires
        schedules_wf(scheds@),
        applied.wf(),
    ensures
        match r {
            Some(v) => spec_fill(scheds@, 0, applied, seq![]) == Some(v@),
            None => spec_fill(scheds@, 0, applied, seq![]) is None,
        },
        schedules_fit(scheds@, applied) ==> (r matches Some(v) && carries_out(
            scheds@,
            v@,
            fill_plan(amounts_of(scheds@), paid_of(scheds@), 0, applied.units()),
            false,
        )),
{
    let mut ups: Vec<ScheduleUpdate> = Vec::new();
    let mut remaining = applied;
    let n = scheds.len();
    let mut i: usize = 0;
    let ghost fits = schedules_fit(scheds@, applied);
    let ghost mut done: Seq<(int, int)> = seq![];
    while i < n
        invariant
            n == scheds@.len(),
            0 <= i <= n,
            schedules_wf(scheds@),
            remaining.wf(),
            fits == schedules_fit(scheds@, applied),
            spec_fill(scheds@, 0, applied, seq![]) == spec_fill(scheds@, i as int, remaining, ups@),
            fits ==> {
                &&& money_within(remaining)
                &&& fill_plan(amounts_of(scheds@), paid_of(scheds@), 0, applied.units()) == done + fill_plan(
                    amounts_of(scheds@),
                    paid_of(scheds@),
                    i as int,
                    remaining.units(),
                )
                &&& carries_out(scheds@, ups@, done, false)
            },
        ensures
            spec_fill(scheds@, 0, applied, seq![]) == spec_fill(scheds@, i as int, remaining, ups@),
            i >= n || remaining.units() == 0,
            fits ==> {
                &&& money_within(remaining)
                &&& fill_plan(amounts_of(scheds@), paid_of(scheds@), 0, applied.units()) == done + fill_plan(
                    amounts_of(scheds@),
                    paid_of(scheds@),
                    i as int,
                    remaining.units(),
                )
                &&& carries_out(scheds@, ups@, done, false)
            },
        decreases n - i,
    {
        if remaining.is_zero() {
            break;
        }
        let s = &scheds[i];
        assert(scheds@[i as int] == *s);
        proof {
            if fits {
                lemma_add_fits_in_room(s.amount, s.paid_amount, 2);
            }
        }
        let cap = match checked_sub(s.amount, s.paid_amount) {
            Some(c) => c,
            None => return None,
        };
        if lt(Dec::zero(), cap) {
            let take = if lt(cap, remaining) {
                cap
            } else {
                remaining
            };
            proof {
                if fits {
                    lemma_add_fits_in_room(s.paid_amount, take, 2);
                    lemma_add_fits_in_room(remaining, take, 2);
                }
            }
            let new_paid = match checked_add(s.paid_amount, take) {
                Some(p) => p,
                None => return None,
            };
            let rest = match checked_sub(remaining, take) {
                Some(m) => m,
                None => return None,
            };
            let status = if le(s.amount, new_paid) {
                PaymentScheduleStatus::Paid
            } else {
                PaymentScheduleStatus::PartiallyPaid
            };
            let ghost step = (i as int, new_paid.units());
            proof {
                if fits {
                    let am = amounts_of(scheds@);
                    let pd = paid_of(scheds@);
                    assert(am[i as int] == s.amount.units() && pd[i as int] == s.paid_amount.units());
                    let tail = fill_plan(am, pd, i as int + 1, rest.units());
                    assert(fill_plan(am, pd, i as int, remaining.units()) == seq![step] + tail);
                    assert(done + (seq![step] + tail) =~= done.push(step) + tail);
                }
                done = done.push(step);
            }
            ups.push(ScheduleUpdate { id: s.id, paid_amount: new_paid, status });
            remaining = rest;
        }
        i = i + 1;
    }
    Some(ups)
}

/// Draw the payment schedules down, fill-in-order (earliest installment first), by the amount a
/// settlement applied. Returns the installments to update, in order.
pub fn draw_down_schedules(scheds: &[ScheduleRow], applied: Dec) -> (r: Vec<ScheduleUpdate>)
    requires
        schedules_wf(scheds@),
        applied.wf(),
        spec_fill(scheds@, 0, applied, seq![]) is Some,
    ensures
        r@ == spec_fill(scheds@, 0, applied, seq![]).unwrap(),
        schedules_fit(scheds@, applied) ==> carries_out(
            scheds@,
            r@,
            fill_plan(amounts_of(scheds@), paid_of(scheds@), 0, applied.units()),
            false,
        ),
{
    try_draw_down_schedules(scheds, applied).unwrap()
}

/// Rewind the payment schedules, last installment first (the inverse of the fill-in-order
/// drawdown), by the amount a reversal restored; `scheds` comes in rewind order. Returns the
/// installments to update, in order, or `None` where the decimal arithmetic overflows. Where every
/// amount is [`money_within`] nothing overflows or rounds, and the updates carry out
/// [`rewind_plan`].
pub fn try_rewind_schedules(scheds: &[ScheduleRow], restored: Dec) -> (r: Option<
    Vec<ScheduleUpdate>,
>)
    requires
        schedules_wf(scheds@),
        restored.wf(),
    ensures
        match r {
            Some(v) => spec_rewind(scheds@, 0, restored, seq![]) == Some(v@),
            None => spec_rewind(scheds@, 0, restored, seq![]) is None,
        },
        schedules_fit(scheds@, restored) ==> (r matches Some(v) && carries_out(
            scheds@,
            v@,
            rewind_plan(paid_of(scheds@), 0, restored.units()),
            true,
        )),
{
    let mut ups: Vec<ScheduleUpdate> = Vec::new();
    let mut remaining = restored;
    let n = scheds.len();
    let mut i: usize = 0;
    let ghost fits = schedules_fit(scheds@, restored);
    let ghost mut done: Seq<(int, int)> = seq![];
    while i < n
        invariant
            n == scheds@.len(),
            0 <= i <= n,
            schedules_wf(scheds@),
            remaining.wf(),
            fits == schedules_fit(scheds@, restored),
            spec_rewind(scheds@, 0, restored, seq![]) == spec_rewind(
                scheds@,
                i as int,
                remaining,
                ups@,
            ),
            fits ==> {
                &&& money_within(remaining)
                &&& rewind_plan(paid_of(scheds@), 0, restored.units()) == done + rewind_plan(
                    paid_of(scheds@),
                    i as int,
                    remaining.units(),
                )
                &&& carries_out(scheds@, ups@, done, true)
            },
        ensures
            spec_rewind(scheds@, 0, restored, seq![]) == spec_rewind(
                scheds@,
                i as int,
                remaining,
                ups@,
            ),
            i >= n || remaining.units() == 0,
            fits ==> {
                &&& money_within(remaining)
                &&& rewind_plan(paid_of(scheds@), 0, restored.units()) == done + rewind_plan(
                    paid_of(scheds@),
                    i as int,
                    remaining.units(),
                )
                &&& carries_out(scheds@, ups@, done, true)
            },
        decreases n - i,
    {
        if remaining.is_zero() {
            break;
        }
        let s = &scheds[i];
        assert(scheds@[i as int] == *s);
        if lt(Dec::zero(), s.paid_amount) {
            let take = if lt(s.paid_amount, remaining) {
                s.paid_amount
            } else {
                remaining
            };
            proof {
                if fits {
                    lemma_add_fits_in_room(s.paid_amount, take, 2);
                    lemma_add_fits_in_room(remaining, take, 2);
                }
            }
            let new_paid = match checked_sub(s.paid_amount, take) {
                Some(p) => p,
                None => return None,
            };
            let rest = match checked_sub(remaining, take) {
                Some(m) => m,
                None => return None,
            };
            let status = if new_paid.is_zero() {
                PaymentScheduleStatus::Unpaid
            } else if le(s.amount, new_paid) {
                PaymentScheduleStatus::Paid
            } else {
                PaymentScheduleStatus::PartiallyPaid
            };
            let ghost step = (i as int, new_paid.units());
            proof {
                if fits {
                    let pd = paid_of(scheds@);
                    assert(pd[i as int] == s.paid_amount.units());
                    let tail = rewind_plan(pd, i as int + 1, rest.units());
                    assert(rewind_plan(pd, i as int, remaining.units()) == seq![step] + tail);
                    assert(done + (seq![step] + tail) =~= done.push(step) + tail);
                }
                done = done.push(step);
            }
            ups.push(ScheduleUpdate { id: s.id, paid_amount: new_paid, status });
            remaining = rest;
        }
        i = i + 1;
    }
    Some(ups)
}

/// Rewind the payment schedules, last installment first (the inverse of the fill-in-order
/// drawdown), by the amount a reversal restored. `scheds` comes in rewind order.
pub fn rewind_schedules(scheds: &[ScheduleRow], restored: Dec) -> (r: Vec<ScheduleUpdate>)
    requires
        schedules_wf(scheds@),
        restored.wf(),
        spec_rewind(scheds@, 0, restored, seq![]) is Some,
    ensures
        r@ == spec_rewind(scheds@, 0, restored, seq![]).unwrap(),
        schedules_fit(scheds@, restored) ==> carries_out(
            scheds@,
            r@,
            rewind_plan(paid_of(scheds@), 0, restored.units()),
            true,
        ),
{
    try_rewind_schedules(scheds, restored).unwrap()
}

/// The result of applying a settlement to an invoice: what was knocked off, and the unapplied
/// remainder (`requested − applied`) the caller books as an on-account party credit.
#[derive(Debug, Clone, Copy, PartialEq, Eq, Structural)]
pub struct SettlementOutcome {
    pub applied: Dec,
    pub remainder: Dec,
}

/// The outcome of one settlement: `applied`, and the remainder `money(requested) − applied`.
pub fn settlement_outcome(requested: Dec, applied: Dec) -> (r: SettlementOutcome)
    requires
        requested.wf(),
        applied.wf(),
        decimal_checked_sub(spec_money(requested), applied) is Some,
    ensures
        r.applied == applied,
        r.remainder == decimal_checked_sub(spec_money(requested), applied).unwrap(),
        sub_fits(spec_money(requested), applied) ==> r.applied.units() + r.remainder.units()
            == spec_money(requested).units(),
{
    let m = money(requested);
    let remainder = checked_sub(m, applied).unwrap();
    SettlementOutcome { applied, remainder }
}

/// [`settlement_outcome`] where the remainder may overflow: `None` exactly when it does (never
/// when the subtraction fits), and otherwise what [`settlement_outcome`] returns.
pub fn try_settlement_outcome(requested: Dec, applied: Dec) -> (r: Option<SettlementOutcome>)
    requires
        requested.wf(),
        applied.wf(),
    ensures
        r is Some <==> decimal_checked_sub(spec_money(requested), applied) is Some,
        sub_fits(spec_money(requested), applied) ==> r is Some,
        r matches Some(o) ==> o.applied == applied && o.remainder == decimal_checked_sub(
            spec_money(requested),
            applied,
        ).unwrap(),
        sub_fits(spec_money(requested), applied) ==> (r matches Some(o) ==> o.applied.units()
            + o.remainder.units() == spec_money(requested).units()),
{
    let m = money(requested);
    match checked_sub(m, applied) {
        Some(remainder) => Some(SettlementOutcome { applied, remainder }),
        None => None,
    }
}

/// Running totals of one payment event's allocations.
#[derive(Debug, Clone, Copy, PartialEq, Eq, Structural)]
pub struct SettlementTally {
    pub requested_total: Dec,
    pub applied_total: Dec,
}

impl SettlementTally {
    /// No allocation counted yet.
    pub fn new() -> (r: SettlementTally)
        ensures
            r.requested_total == (Dec { mantissa: 0, scale: 0 }),
            r.applied_total == (Dec { mantissa: 0, scale: 0 }),
    {
        SettlementTally { requested_total: Dec::zero(), applied_total: Dec::zero() }
    }

    /// Count one allocation: its requested amount (rounded to money) and what it applied.
    pub fn count(&mut self, requested: Dec, applied: Dec)
        requires
            old(self).requested_total.wf(),
            old(self).applied_total.wf(),
            requested.wf(),
            applied.wf(),
            decimal_checked_add(old(self).requested_total, spec_money(requested)) is Some,
            decimal_checked_add(old(self).applied_total, applied) is Some,
        ensures
            final(self).requested_total == decimal_checked_add(
                old(self).requested_total,
                spec_money(requested),
            ).unwrap(),
            final(self).applied_total == decimal_checked_add(old(self).applied_total, applied).unwrap(),
            final(self).requested_total.wf(),
            final(self).applied_total.wf(),
            add_fits(old(self).requested_total, spec_money(requested))
                ==> final(self).requested_total.units() == old(self).requested_total.units()
                + spec_money(requested).units(),
            add_fits(old(self).applied_total, applied) ==> final(self).applied_total.units()
                == old(self).applied_total.units() + applied.units(),
    {
        let m = money(requested);
        self.requested_total = checked_add(self.requested_total, m).unwrap();
        self.applied_total = checked_add(self.applied_total, applied).unwrap();
    }

    /// The event's outcome: the total applied and the total remainder.
    pub fn outcome(&self) -> (r: SettlementOutcome)
        requires
            self.requested_total.wf(),
            self.applied_total.wf(),
            decimal_checked_sub(self.requested_total, self.applied_total) is Some,
        ensures
            r.applied == self.applied_total,
            r.remainder == decimal_checked_sub(self.requested_total, self.applied_total).unwrap(),
            sub_fits(self.requested_total, self.applied_total) ==> r.applied.units()
                + r.remainder.units() == self.requested_total.units(),
    {
        let remainder = checked_sub(self.requested_total, self.applied_total).unwrap();
        SettlementOutcome { applied: self.applied_total, remainder }
    }

    /// [`count`](Self::count) where a total may overflow: counts the allocation and returns
    /// `true` when both totals add up, and leaves the tally as it was and returns `false`
    /// otherwise.
    pub fn try_count(&mut self, requested: Dec, applied: Dec) -> (ok: bool)
        requires
            old(self).requested_total.wf(),
            old(self).applied_total.wf(),
            requested.wf(),
            applied.wf(),
        ensures
            ok <==> (decimal_checked_add(old(self).requested_total, spec_money(requested)) is Some
                && decimal_checked_add(old(self).applied_total, applied) is Some),
            ok ==> final(self).requested_total == decimal_checked_add(
                old(self).requested_total,
                spec_money(requested),
            ).unwrap(),
            ok ==> final(self).applied_total == decimal_checked_add(
                old(self).applied_total,
                applied,
            ).unwrap(),
            !ok ==> *final(self) == *old(self),
            final(self).requested_total.wf(),
            final(self).applied_total.wf(),
            (add_fits(old(self).requested_total, spec_money(requested)) && add_fits(
                old(self).applied_total,
                applied,
            )) ==> ok,
    {
        let m = money(requested);
        let r = checked_add(self.requested_total, m);
        let a = checked_add(self.applied_total, applied);
        match (r, a) {
            (Some(r), Some(a)) => {
                self.requested_total = r;
                self.applied_total = a;
                true
            },
            _ => false,
        }
    }

    /// [`outcome`](Self::outcome) where the remainder may overflow: `None` exactly when it does.
    pub fn try_outcome(&self) -> (r: Option<SettlementOutcome>)
        requires
            self.requested_total.wf(),
            self.applied_total.wf(),
        ensures
            r is Some <==> decimal_checked_sub(self.requested_total, self.applied_total) is Some,
            r matches Some(o) ==> o.applied == self.applied_total && o.remainder
                == decimal_checked_sub(self.requested_total, self.applied_total).unwrap(),
            sub_fits(self.requested_total, self.applied_total) ==> (r matches Some(o)
                && o.applied.units() + o.remainder.units() == self.requested_total.units()),
    {
        match checked_sub(self.requested_total, self.applied_total) {
            Some(remainder) => Some(SettlementOutcome { applied: self.applied_total, remainder }),
            None => None,
        }
    }
}

/// What `rust_decimal` writes for a decimal (its `Display`).
pub uninterp spec fn decimal_display(d: Dec) -> Seq<char>;

/// `Decimal`'s `Display` text. Named; the digits of the value with as many fractional digits as
/// its scale.
#[verifier::external_body]
fn decimal_text(d: Dec) -> (r: String)
    requires
        d.wf(),
    ensures
        r@ == decimal_display(d),
{
    Decimal::from_i128_with_scale(d.mantissa, d.scale).to_string()
}

/// The graph must have applied exactly what billing clamped; otherwise the settlement is refused
/// (`reconcile_clamp_mismatch`) rather than let the subledger and the ledger drift.
pub fn check_reconcile_ack(applied: Dec, graph_applied: Dec) -> (r: Result<(), BillingError>)
    requires
        applied.wf(),
        graph_applied.wf(),
    ensures
        applied.units() == graph_applied.units() ==> r is Ok,
        applied.units() != graph_applied.units() ==> (r matches Err(
            BillingError::ReconcileRefused { code, message },
        ) && code@ == "reconcile_clamp_mismatch"@ && message@ == "billing clamped "@
            + decimal_display(applied) + " but the graph applied "@ + decimal_display(graph_applied)),
{
    if lt(applied, graph_applied) || lt(graph_applied, applied) {
        let message = "billing clamped ".to_string().concat(decimal_text(applied).as_str()).concat(
            " but the graph applied ",
        ).concat(decimal_text(graph_applied).as_str());
        Err(BillingError::ReconcileRefused { code: "reconcile_clamp_mismatch".to_string(), message })
    } else {
        Ok(())
    }
}

/// The invoice table (in the billing schema) a kind's reads and writes go to.
pub open spec fn spec_invoice_table(kind: InvoiceKind) -> Seq<char> {
    match kind {
        InvoiceKind::Sales => "sales_invoices"@,
        InvoiceKind::Purchase => "purchase_invoices"@,
    }
}

/// The invoice table (in the billing schema) a kind's reads and writes go to.
pub fn invoice_table(kind: InvoiceKind) -> (r: &'static str)
    ensures
        r@ == spec_invoice_table(kind),
{
    match kind {
        InvoiceKind::Sales => "sales_invoices",
        InvoiceKind::Purchase => "purchase_invoices",
    }
}

/// An invoice's materialized early-pay-discount block, read back at settlement time.
pub struct InvoiceEpdRow {
    pub early_pay_discount_percent: Dec,
    pub early_pay_discount_deadline: Option<Date>,
    /// The expense account the discount lands on (128-bit UUID).
    pub early_pay_discount_account_id: Option<u128>,
    pub outstanding_amount: Dec,
    /// "draft" | "posted" | … — only posted invoices carry a live discount.
    pub posting_state: String,
}

/// An invoice's early-pay-discount decision: the percent and the outstanding basis (the caller
/// computes the amount on what it actually allocates, clamped to the basis).
pub struct EarlyPayDiscount {
    pub invoice_ref: u128,
    pub invoice_kind: String,
    pub percent: Dec,
    pub outstanding_basis: Dec,
    pub account_id: u128,
}

/// The discount applies on `on_date`: the invoice is posted, its discount percent and outstanding
/// are positive, the deadline is set and not passed, and the expense account is set.
pub open spec fn epd_applies(row: InvoiceEpdRow, on_date: Date) -> bool {
    &&& row.posting_state@ == "posted"@
    &&& row.early_pay_discount_percent.units() > 0
    &&& row.outstanding_amount.units() > 0
    &&& row.early_pay_discount_deadline matches Some(deadline) && !deadline.before(on_date)
    &&& row.early_pay_discount_account_id is Some
}

/// Resolve an invoice's early-pay-discount decision for a settlement happening on `on_date`, from
/// its block as read (`None` for an unknown invoice: no discount, the settlement itself will 404).
pub fn early_pay_discount(fetched: Option<InvoiceEpdRow>, invoice_ref: u128, kind: &str, on_date: Date) -> (r:
    Option<EarlyPayDiscount>)
    requires
        fetched matches Some(row) ==> row.early_pay_discount_percent.wf()
            && row.outstanding_amount.wf(),
    ensures
        match fetched {
            None => r is None,
            Some(row) => if epd_applies(row, on_date) {
                r matches Some(e) && e.invoice_ref == invoice_ref && e.invoice_kind@ == kind@
                    && e.percent == row.early_pay_discount_percent && e.outstanding_basis
                    == row.outstanding_amount && row.early_pay_discount_account_id == Some(
                    e.account_id,
                )
            } else {
                r is None
            },
        },
{
    let epd = match fetched {
        Some(row) => row,
        None => {
            return None;
        },
    };
    if !str_eq(epd.posting_state.as_str(), "posted") {
        return None;  // drafts carry no live discount decision
    }
    let zero = Dec::zero();
    if !lt(zero, epd.early_pay_discount_percent) || !lt(zero, epd.outstanding_amount) {
        return None;
    }
    let deadline = match epd.early_pay_discount_deadline {
        Some(d) => d,
        None => {
            return None;
        },
    };
    if deadline.lt(&on_date) {
        return None;  // outside the window: full amount only
    }
    let account_id = match epd.early_pay_discount_account_id {
        Some(a) => a,
        None => {
            return None;
        },
    };
    Some(
        EarlyPayDiscount {
            invoice_ref,
            invoice_kind: kind.to_string(),
            percent: epd.early_pay_discount_percent,
            outstanding_basis: epd.outstanding_amount,
            account_id,
        },
    )
}

/// What the post hook and the manual schedule read off an invoice header.
pub struct TermContextRow {
    pub payment_term_id: Option<u128>,
    pub posting_date: Date,
    pub grand_total: Dec,
    /// The create-time manual due date; `None` when a term is applied.
    pub manual_due_date: Option<Date>,
}

/// A manual schedule is refused on an invoice that carries a payment term: the term's derived
/// installments and a manual schedule cannot coexist.
pub fn check_manual_schedule(ctx: &Option<TermContextRow>) -> (r: Result<(), BillingError>)
    ensures
        (ctx matches Some(c) && c.payment_term_id is Some) ==> (r matches Err(
            BillingError::TermInvalid { code, message },
        ) && code@ == "schedule_conflicts_with_term"@ && message@
            == "an invoice with a payment term derives its installments; drop the term first"@),
        !(ctx matches Some(c) && c.payment_term_id is Some) ==> r is Ok,
{
    match ctx {
        Some(c) => {
            if c.payment_term_id.is_some() {
                return Err(
                    crate::error::term_err(
                        "schedule_conflicts_with_term",
                        "an invoice with a payment term derives its installments; drop the term first",
                    ),
                );
            }
            Ok(())
        },
        None => Ok(()),
    }
}

/// One installment row to insert.
#[derive(Debug, Clone, Copy, PartialEq, Eq, Structural)]
pub struct NewScheduleRow {
    /// 1-based.
    pub installment_no: i32,
    pub due_date: Date,
    pub amount: Dec,
}

/// The rows of a manual schedule: installments numbered from 1 in the given order, amounts
/// rounded to money.
pub fn manual_schedule_rows(installments: &[(Date, Dec)]) -> (r: Vec<NewScheduleRow>)
    requires
        forall|i: int| 0 <= i < installments@.len() ==> (#[trigger] installments@[i]).1.wf(),
    ensures
        r@.len() == installments@.len(),
        forall|i: int|
            0 <= i < r@.len() ==> (#[trigger] r@[i]).installment_no == (i + 1) as i32
                && r@[i].due_date == installments@[i].0 && r@[i].amount == spec_money(
                installments@[i].1,
            ),
{
    let mut rows: Vec<NewScheduleRow> = Vec::new();
    let n = installments.len();
    let mut i: usize = 0;
    while i < n
        invariant
            n == installments@.len(),
            0 <= i <= n,
            forall|k: int| 0 <= k < installments@.len() ==> (#[trigger] installments@[k]).1.wf(),
            rows@.len() == i,
            forall|k: int|
                0 <= k < i ==> (#[trigger] rows@[k]).installment_no == (k + 1) as i32
                    && rows@[k].due_date == installments@[k].0 && rows@[k].amount == spec_money(
                    installments@[k].1,
                ),
        decreases n - i,
    {
        let (due, amt) = installments[i];
        #[verifier::truncate]
        let no = (i + 1) as i32;
        rows.push(NewScheduleRow { installment_no: no, due_date: due, amount: money(amt) });
        i = i + 1;
    }
    rows
}

} // verus!
