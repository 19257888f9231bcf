//! Pricing an invoice: line nets, the tax overlay's totals by basis, and the header totals.
//!
//! `net = money(quantity × unit_price)` per line; empty documents and negative quantities, prices
//! or tax amounts are refused; the supplied tax lines are totalled by basis ("output" | "input" |
//! "withholding", any other basis ignored), each total rounded once. A sales invoice's grand total
//! is `net + output`; a purchase invoice's (the payable owed) is `net + input − withholding`.
use vstd::prelude::*;

use crate::dec::add_fits;
use crate::dec::abs_int;
use crate::dec::checked_add;
use crate::dec::decs_abs;
use crate::dec::decs_total;
use crate::dec::lemma_add_fits_in_room;
use crate::dec::lemma_decs_bounds;
use crate::dec::lemma_decs_push;
use crate::dec::lemma_decs_take;
use crate::dec::room;
use crate::dec::checked_mul;
use crate::dec::checked_sub;
use crate::dec::decimal_checked_add;
use crate::dec::decimal_checked_mul;
use crate::dec::decimal_checked_sub;
use crate::dec::lt;
use crate::dec::money;
use crate::dec::spec_money;
use crate::dec::sub_fits;
use crate::dec::Dec;
use crate::error::reports;
use crate::error::BillingError;
use crate::error::Fault;
use crate::text::str_eq;

verus! {

broadcast use vstd::string::group_string_axioms;

/// An invoice line as the create API receives it. Ids are 128-bit UUIDs.
pub struct NewInvoiceLine {
    pub item_id: u128,
    /// Revenue account (sales) or expense/GR-IR account (purchase).
    pub account_id: u128,
    pub description: Option<String>,
    pub quantity: Dec,
    pub unit_price: Dec,
    /// A tax template: when any line carries one, the document's tax comes from the tax engine.
    pub tax_template_id: Option<u128>,
}

/// A tax line of the overlay. `basis`: "output" | "input" | "withholding".
pub struct NewTaxLine {
    pub account_id: u128,
    pub basis: String,
    pub description: Option<String>,
    pub rate: Dec,
    pub tax_amount: Dec,
    /// The base the tax was computed on (zero for caller-supplied lines).
    pub taxable_base: Dec,
    pub tax_template_id: Option<u128>,
    pub repartition_line_id: Option<u128>,
    /// Set iff the amount is cash-basis deferred (posted to the transition `account_id` first).
    pub real_account_id: Option<u128>,
    /// "on_invoice" | "on_payment"
    pub exigibility: Option<String>,
}

/// A validated line with its net.
pub struct PricedLine {
    pub item_id: u128,
    pub account_id: u128,
    pub description: Option<String>,
    pub quantity: Dec,
    pub unit_price: Dec,
    pub net_amount: Dec,
}

/// A line's net: `money(quantity × unit_price)` (`None` where the product overflows).
pub open spec fn line_net(l: NewInvoiceLine) -> Option<Dec> {
    match decimal_checked_mul(l.quantity, l.unit_price) {
        None => None,
        Some(p) => Some(spec_money(p)),
    }
}

/// The lines from `i` on, validated (no negative quantity or price) and their nets summed onto
/// `total`.
pub open spec fn price_lines_from(lines: Seq<NewInvoiceLine>, i: int, total: Dec) -> Result<Dec, Fault>
    decreases lines.len() - i,
{
    if i < 0 || i >= lines.len() {
        Ok(total)
    } else {
        let l = lines[i];
        if l.quantity.units() < 0 || l.unit_price.units() < 0 {
            Err(Fault::Negative)
        } else {
            match line_net(l) {
                None => Err(Fault::Overflow),
                Some(n) => match decimal_checked_add(total, n) {
                    None => Err(Fault::Overflow),
                    Some(t) => price_lines_from(lines, i + 1, t),
                },
            }
        }
    }
}

/// Add one amount to a running total.
pub open spec fn add_to(total: Dec, a: Dec) -> Result<Dec, Fault> {
    match decimal_checked_add(total, a) {
        None => Err(Fault::Overflow),
        Some(t) => Ok(t),
    }
}

/// The tax lines from `i` on totalled by basis onto (output, input, withholding); with
/// `check_negative` a negative tax amount is refused.
pub open spec fn basis_totals_from(
    tax: Seq<NewTaxLine>,
    i: int,
    check_negative: bool,
    output: Dec,
    input: Dec,
    wht: Dec,
) -> Result<(Dec, Dec, Dec), Fault>
    decreases tax.len() - i,
{
    if i < 0 || i >= tax.len() {
        Ok((output, input, wht))
    } else {
        let t = tax[i];
        if check_negative && t.tax_amount.units() < 0 {
            Err(Fault::Negative)
        } else if t.basis@ == "output"@ {
            match add_to(output, t.tax_amount) {
                Err(f) => Err(f),
                Ok(o) => basis_totals_from(tax, i + 1, check_negative, o, input, wht),
            }
        } else if t.basis@ == "input"@ {
            match add_to(input, t.tax_amount) {
                Err(f) => Err(f),
                Ok(n) => basis_totals_from(tax, i + 1, check_negative, output, n, wht),
            }
        } else if t.basis@ == "withholding"@ {
            match add_to(wht, t.tax_amount) {
                Err(f) => Err(f),
                Ok(w) => basis_totals_from(tax, i + 1, check_negative, output, input, w),
            }
        } else {
            basis_totals_from(tax, i + 1, check_negative, output, input, wht)
        }
    }
}

/// Zero, written without fractional digits.
pub open spec fn zero() -> Dec {
    Dec { mantissa: 0, scale: 0 }
}

/// Pricing a document: (net total, output, input, withholding), each rounded to money.
pub open spec fn spec_price(lines: Seq<NewInvoiceLine>, tax: Seq<NewTaxLine>) -> Result<
    (Dec, Dec, Dec, Dec),
    Fault,
> {
    if lines.len() == 0 {
        Err(Fault::Empty)
    } else {
        match price_lines_from(lines, 0, zero()) {
            Err(f) => Err(f),
            Ok(net_total) => match basis_totals_from(tax, 0, true, zero(), zero(), zero()) {
                Err(f) => Err(f),
                Ok((o, i, w)) => Ok(
                    (spec_money(net_total), spec_money(o), spec_money(i), spec_money(w)),
                ),
            },
        }
    }
}

/// The tax overlay totalled by basis, each total rounded once.
pub open spec fn spec_sum_by_basis(tax: Seq<NewTaxLine>) -> Result<(Dec, Dec, Dec), Fault> {
    match basis_totals_from(tax, 0, false, zero(), zero(), zero()) {
        Err(f) => Err(f),
        Ok((o, i, w)) => Ok((spec_money(o), spec_money(i), spec_money(w))),
    }
}

/// A line with a negative quantity or unit price.
pub open spec fn negative_line(l: NewInvoiceLine) -> bool {
    l.quantity.units() < 0 || l.unit_price.units() < 0
}

proof fn lemma_lines_fail(lines: Seq<NewInvoiceLine>, i: int, total: Dec)
    requires
        0 <= i <= lines.len(),
    ensures
        price_lines_from(lines, i, total) is Err ==> (price_lines_from(lines, i, total) == Err::<
            Dec,
            Fault,
        >(Fault::Negative) || price_lines_from(lines, i, total) == Err::<Dec, Fault>(
            Fault::Overflow,
        )),
        (forall|j: int| i <= j < lines.len() ==> !negative_line(#[trigger] lines[j]))
            ==> price_lines_from(lines, i, total) != Err::<Dec, Fault>(Fault::Negative),
        (exists|j: int| i <= j < lines.len() && negative_line(#[trigger] lines[j]))
            ==> price_lines_from(lines, i, total) is Err,
    decreases lines.len() - i,
{
    if i < lines.len() {
        let l = lines[i];
        if !negative_line(l) {
            match line_net(l) {
                None => {},
                Some(n) => match decimal_checked_add(total, n) {
                    None => {},
                    Some(t) => {
                        lemma_lines_fail(lines, i + 1, t);
                        if exists|j: int| i <= j < lines.len() && negative_line(#[trigger] lines[j]) {
                            let j = choose|j: int| i <= j < lines.len() && negative_line(#[trigger] lines[j]);
                            assert(j != i);
                            assert(exists|k: int| i + 1 <= k < lines.len() && negative_line(#[trigger] lines[k]));
                        }
                    },
                },
            }
        }
    }
}

proof fn lemma_taxes_fail(tax: Seq<NewTaxLine>, i: int, o: Dec, n: Dec, w: Dec)
    requires
        0 <= i <= tax.len(),
    ensures
        basis_totals_from(tax, i, true, o, n, w) is Err ==> (basis_totals_from(tax, i, true, o, n, w)
            == Err::<(Dec, Dec, Dec), Fault>(Fault::Negative) || basis_totals_from(
            tax,
            i,
            true,
            o,
            n,
            w,
        ) == Err::<(Dec, Dec, Dec), Fault>(Fault::Overflow)),
        (forall|j: int| i <= j < tax.len() ==> (#[trigger] tax[j]).tax_amount.units() >= 0)
            ==> basis_totals_from(tax, i, true, o, n, w) != Err::<(Dec, Dec, Dec), Fault>(
            Fault::Negative,
        ),
        (exists|j: int| i <= j < tax.len() && (#[trigger] tax[j]).tax_amount.units() < 0)
            ==> basis_totals_from(tax, i, true, o, n, w) is Err,
    decreases tax.len() - i,
{
    if i < tax.len() {
        let t = tax[i];
        if t.tax_amount.units() >= 0 {
            if exists|j: int| i <= j < tax.len() && (#[trigger] tax[j]).tax_amount.units() < 0 {
                let j = choose|j: int| i <= j < tax.len() && (#[trigger] tax[j]).tax_amount.units() < 0;
                assert(j != i);
                assert(exists|k: int| i + 1 <= k < tax.len() && (#[trigger] tax[k]).tax_amount.units() < 0);
            }
            if t.basis@ == "output"@ {
                match add_to(o, t.tax_amount) {
                    Err(_) => {},
                    Ok(o2) => lemma_taxes_fail(tax, i + 1, o2, n, w),
                }
            } else if t.basis@ == "input"@ {
                match add_to(n, t.tax_amount) {
                    Err(_) => {},
                    Ok(n2) => lemma_taxes_fail(tax, i + 1, o, n2, w),
                }
            } else if t.basis@ == "withholding"@ {
                match add_to(w, t.tax_amount) {
                    Err(_) => {},
                    Ok(w2) => lemma_taxes_fail(tax, i + 1, o, n, w2),
                }
            } else {
                lemma_taxes_fail(tax, i + 1, o, n, w);
            }
        }
    }
}

/// Pricing a document with lines refuses it exactly when a line has a negative quantity or unit
/// price or a tax line a negative amount (whatever its basis), and every refusal is
/// `negative_amount` (wherever the sums do not overflow).
pub proof fn law_price_refuses_only_negatives(lines: Seq<NewInvoiceLine>, tax: Seq<NewTaxLine>)
    requires
        lines.len() > 0,
        spec_price(lines, tax) != Err::<(Dec, Dec, Dec, Dec), Fault>(Fault::Overflow),
    ensures
        spec_price(lines, tax) is Err <==> ((exists|i: int|
            0 <= i < lines.len() && negative_line(#[trigger] lines[i])) || (exists|i: int|
            0 <= i < tax.len() && (#[trigger] tax[i]).tax_amount.units() < 0)),
        spec_price(lines, tax) is Err ==> spec_price(lines, tax) == Err::<(Dec, Dec, Dec, Dec), Fault>(
            Fault::Negative,
        ),
{
    lemma_lines_fail(lines, 0, zero());
    match price_lines_from(lines, 0, zero()) {
        Err(_) => {},
        Ok(_) => {
            lemma_taxes_fail(tax, 0, zero(), zero(), zero());
        },
    }
}

/// The decimals of the lines are representable.
pub open spec fn invoice_lines_wf(lines: Seq<NewInvoiceLine>) -> bool {
    forall|i: int|
        0 <= i < lines.len() ==> (#[trigger] lines[i]).quantity.wf() && lines[i].unit_price.wf()
}

/// The decimals of the tax lines are representable.
pub open spec fn tax_lines_wf(tax: Seq<NewTaxLine>) -> bool {
    forall|i: int| 0 <= i < tax.len() ==> (#[trigger] tax[i]).tax_amount.wf()
}

/// The lines' nets, in order.
pub open spec fn line_nets(lines: Seq<NewInvoiceLine>) -> Seq<Dec> {
    Seq::new(lines.len(), |i: int| line_net(lines[i]).unwrap())
}

/// The tax amounts on one basis added up, in units.
pub open spec fn basis_units(tax: Seq<NewTaxLine>, basis: Seq<char>) -> int
    decreases tax.len(),
{
    if tax.len() == 0 {
        0
    } else {
        basis_units(tax.drop_last(), basis) + if tax.last().basis@ == basis {
            tax.last().tax_amount.units()
        } else {
            0
        }
    }
}

/// The tax amounts' magnitudes added up, in units.
pub open spec fn tax_abs(tax: Seq<NewTaxLine>) -> int
    decreases tax.len(),
{
    if tax.len() == 0 {
        0
    } else {
        tax_abs(tax.drop_last()) + abs_int(tax.last().tax_amount.units())
    }
}

/// Every tax amount has at most two fractional digits.
pub open spec fn tax_money(tax: Seq<NewTaxLine>) -> bool {
    forall|i: int| 0 <= i < tax.len() ==> (#[trigger] tax[i]).tax_amount.scale <= 2
}

/// The tax amounts have at most two fractional digits, and they and the line nets lie far enough
/// inside the decimal range for every total of the document to be exact.
pub open spec fn price_fits(lines: Seq<NewInvoiceLine>, tax: Seq<NewTaxLine>) -> bool {
    &&& tax_money(tax)
    &&& decs_abs(line_nets(lines)) + tax_abs(tax) <= room(2)
}

proof fn lemma_tax_bounds(s: Seq<NewTaxLine>, basis: Seq<char>)
    ensures
        tax_abs(s) >= 0,
        abs_int(basis_units(s, basis)) <= tax_abs(s),
    decreases s.len(),
{
    if s.len() > 0 {
        lemma_tax_bounds(s.drop_last(), basis);
    }
}

proof fn lemma_tax_two_bases(s: Seq<NewTaxLine>, b1: Seq<char>, b2: Seq<char>)
    requires
        b1 != b2,
    ensures
        abs_int(basis_units(s, b1)) + abs_int(basis_units(s, b2)) <= tax_abs(s),
    decreases s.len(),
{
    if s.len() > 0 {
        lemma_tax_two_bases(s.drop_last(), b1, b2);
    }
}

proof fn lemma_tax_take(s: Seq<NewTaxLine>, k: int)
    requires
        0 <= k <= s.len(),
    ensures
        tax_abs(s.take(k)) <= tax_abs(s),
    decreases s.len() - k,
{
    if k < s.len() {
        assert(s.take(k + 1).drop_last() =~= s.take(k));
        lemma_tax_take(s, k + 1);
    } else {
        assert(s.take(k) =~= s);
    }
}

/// `p` is line `l` priced: the same item, account, description, quantity and price, and its net.
pub open spec fn priced_from(p: PricedLine, l: NewInvoiceLine) -> bool {
    &&& p.item_id == l.item_id
    &&& p.account_id == l.account_id
    &&& p.description == l.description
    &&& p.quantity == l.quantity
    &&& p.unit_price == l.unit_price
    &&& line_net(l) == Some(p.net_amount)
    &&& p.net_amount.wf()
}

fn clone_description(d: &Option<String>) -> (r: Option<String>)
    ensures
        r == *d,
{
    match d {
        Some(s) => Some(s.clone()),
        None => None,
    }
}

fn totals_by_basis(tax: &[NewTaxLine], check_negative: bool) -> (r: Option<
    Result<(Dec, Dec, Dec), BillingError>,
>)
    requires
        tax_lines_wf(tax@),
    ensures
        match basis_totals_from(tax@, 0, check_negative, zero(), zero(), zero()) {
            Ok(t) => r == Some(Ok::<(Dec, Dec, Dec), BillingError>(t)) && t.0.wf() && t.1.wf()
                && t.2.wf(),
            Err(Fault::Overflow) => r is None,
            Err(f) => r matches Some(Err(e)) && reports(&e, f),
        },
        tax_money(tax@) && tax_abs(tax@) <= room(2) ==> (r matches Some(Ok(t)) ==> t.0.units()
            == basis_units(tax@, "output"@) && t.1.units() == basis_units(tax@, "input"@)
            && t.2.units() == basis_units(tax@, "withholding"@) && t.0.scale <= 2 && t.1.scale <= 2
            && t.2.scale <= 2),
{
    let ghost fits = tax_money(tax@) && tax_abs(tax@) <= room(2);
    proof {
        reveal_strlit("output");
        reveal_strlit("input");
        reveal_strlit("withholding");
        crate::dec::lemma_pow10_28();
        assert(tax@.take(0) =~= Seq::<NewTaxLine>::empty());
    }
    let mut output = Dec::zero();
    let mut input = Dec::zero();
    let mut wht = Dec::zero();
    let n = tax.len();
    let mut i: usize = 0;
    while i < n
        invariant
            n == tax@.len(),
            0 <= i <= n,
            tax_lines_wf(tax@),
            output.wf(),
            input.wf(),
            wht.wf(),
            basis_totals_from(tax@, 0, check_negative, zero(), zero(), zero()) == basis_totals_from(
                tax@,
                i as int,
                check_negative,
                output,
                input,
                wht,
            ),
            fits == (tax_money(tax@) && tax_abs(tax@) <= room(2)),
            fits ==> output.units() == basis_units(tax@.take(i as int), "output"@) && input.units()
                == basis_units(tax@.take(i as int), "input"@) && wht.units() == basis_units(
                tax@.take(i as int),
                "withholding"@,
            ) && output.scale <= 2 && input.scale <= 2 && wht.scale <= 2,
            "output"@.len() == 6 && "input"@.len() == 5 && "withholding"@.len() == 11,
        decreases n - i,
    {
        let t = &tax[i];
        assert(tax@[i as int] == *t);
        let ghost pre = tax@.take(i as int);
        let ghost post = tax@.take(i + 1);
        proof {
            assert(post.drop_last() =~= pre);
            assert(post.last() == *t);
            lemma_tax_take(tax@, i + 1);
            lemma_tax_bounds(pre, "output"@);
            lemma_tax_bounds(pre, "input"@);
            lemma_tax_bounds(pre, "withholding"@);
            lemma_tax_bounds(post, "output"@);
            lemma_tax_bounds(post, "input"@);
            lemma_tax_bounds(post, "withholding"@);
            if fits {
                assert(t.tax_amount.scale <= 2);
                if t.basis@ == "output"@ {
                    lemma_add_fits_in_room(output, t.tax_amount, 2);
                } else if t.basis@ == "input"@ {
                    lemma_add_fits_in_room(input, t.tax_amount, 2);
                } else if t.basis@ == "withholding"@ {
                    lemma_add_fits_in_room(wht, t.tax_amount, 2);
                }
            }
        }
        if check_negative && lt(t.tax_amount, Dec::zero()) {
            return Some(Err(BillingError::NegativeAmount));
        }
        if str_eq(t.basis.as_str(), "output") {
            match checked_add(output, t.tax_amount) {
                Some(x) => {
                    output = x;
                },
                None => {
                    return None;
                },
            }
        } else if str_eq(t.basis.as_str(), "input") {
            match checked_add(input, t.tax_amount) {
                Some(x) => {
                    input = x;
                },
                None => {
                    return None;
                },
            }
        } else if str_eq(t.basis.as_str(), "withholding") {
            match checked_add(wht, t.tax_amount) {
                Some(x) => {
                    wht = x;
                },
                None => {
                    return None;
                },
            }
        }
        i = i + 1;
    }
    assert(tax@.take(n as int) =~= tax@);
    Some(Ok((output, input, wht)))
}

/// The priced document, its totals rounded to money: what [`price`] returns where it succeeds.
pub open spec fn priced_ok(
    lines: Seq<NewInvoiceLine>,
    priced: Seq<PricedLine>,
    t: (Dec, Dec, Dec, Dec),
    expected: (Dec, Dec, Dec, Dec),
) -> bool {
    &&& t == expected
    &&& priced.len() == lines.len()
    &&& forall|k: int| 0 <= k < lines.len() ==> priced_from(#[trigger] priced[k], lines[k])
}

/// Price lines (`net = money(qty × price)`), reject an empty document and negative quantities,
/// prices or tax amounts, and total the supplied tax lines by basis: (priced lines, net total,
/// output, input, withholding), the totals rounded to money. `None` where a decimal step leaves its
/// range. Where the amounts fit ([`price_fits`]), the net total is exactly the sum of the line nets
/// and each basis total exactly the sum of its tax amounts.
pub fn try_price(lines: &[NewInvoiceLine], tax: &[NewTaxLine]) -> (r: Option<
    Result<(Vec<PricedLine>, Dec, Dec, Dec, Dec), BillingError>,
>)
    requires
        invoice_lines_wf(lines@),
        tax_lines_wf(tax@),
    ensures
        match spec_price(lines@, tax@) {
            Ok(e) => r matches Some(Ok((priced, a, b, c, d))) && priced_ok(
                lines@,
                priced@,
                (a, b, c, d),
                e,
            ),
            Err(Fault::Overflow) => r is None,
            Err(f) => r matches Some(Err(e)) && reports(&e, f),
        },
        r matches Some(Ok((_, a, b, c, d))) ==> a.wf() && b.wf() && c.wf() && d.wf(),
        price_fits(lines@, tax@) ==> (r matches Some(Ok((_, a, b, c, d))) ==> a.units() == decs_total(
            line_nets(lines@),
        ) && b.units() == basis_units(tax@, "output"@) && c.units() == basis_units(tax@, "input"@)
            && d.units() == basis_units(tax@, "withholding"@) && a.scale <= 2 && b.scale <= 2
            && c.scale <= 2 && d.scale <= 2),
{
    let ghost fits = price_fits(lines@, tax@);
    let ghost nets = line_nets(lines@);
    proof {
        crate::dec::lemma_pow10_28();
        assert(nets.take(0) =~= Seq::<Dec>::empty());
        lemma_decs_bounds(nets);
        lemma_tax_bounds(tax@, "output"@);
    }
    if lines.len() == 0 {
        return Some(Err(BillingError::EmptyDocument));
    }
    let mut priced: Vec<PricedLine> = Vec::new();
    let mut net_total = Dec::zero();
    let n = lines.len();
    let mut i: usize = 0;
    while i < n
        invariant
            n == lines@.len(),
            n > 0,
            0 <= i <= n,
            invoice_lines_wf(lines@),
            net_total.wf(),
            priced@.len() == i,
            forall|k: int| 0 <= k < i ==> priced_from(#[trigger] priced@[k], lines@[k]),
            price_lines_from(lines@, 0, zero()) == price_lines_from(lines@, i as int, net_total),
            fits == price_fits(lines@, tax@),
            nets == line_nets(lines@),
            decs_abs(nets) >= 0,
            tax_abs(tax@) >= 0,
            fits ==> net_total.units() == decs_total(nets.take(i as int)) && net_total.scale <= 2,
            spec_price(lines@, tax@) == match price_lines_from(lines@, 0, zero()) {
                Err(f) => Err(f),
                Ok(net_total) => match basis_totals_from(
                    tax@,
                    0,
                    true,
                    zero(),
                    zero(),
                    zero(),
                ) {
                    Err(f) => Err(f),
                    Ok((o, i, w)) => Ok(
                        (spec_money(net_total), spec_money(o), spec_money(i), spec_money(w)),
                    ),
                },
            },
        decreases n - i,
    {
        let l = &lines[i];
        assert(lines@[i as int] == *l);
        let zero = Dec::zero();
        if lt(l.quantity, zero) || lt(l.unit_price, zero) {
            return Some(Err(BillingError::NegativeAmount));
        }
        let product = match checked_mul(l.quantity, l.unit_price) {
            Some(p) => p,
            None => {
                return None;
            },
        };
        let net = money(product);
        proof {
            assert(nets[i as int] == net);
            assert(nets.take(i + 1) =~= nets.take(i as int).push(net));
            lemma_decs_push(nets.take(i as int), net);
            lemma_decs_bounds(nets.take(i as int));
            lemma_decs_bounds(nets.take(i + 1));
            lemma_decs_take(nets, i + 1);
            if fits {
                lemma_add_fits_in_room(net_total, net, 2);
            }
        }
        net_total = match checked_add(net_total, net) {
            Some(t) => t,
            None => {
                return None;
            },
        };
        priced.push(
            PricedLine {
                item_id: l.item_id,
                account_id: l.account_id,
                description: clone_description(&l.description),
                quantity: l.quantity,
                unit_price: l.unit_price,
                net_amount: net,
            },
        );
        i = i + 1;
    }
    proof {
        assert(nets.take(n as int) =~= nets);
    }
    match totals_by_basis(tax, true) {
        None => None,
        Some(Err(e)) => Some(Err(e)),
        Some(Ok((output, input, wht))) => Some(
            Ok((priced, money(net_total), money(output), money(input), money(wht))),
        ),
    }
}

/// [`try_price`] where its decimal steps stay in range.
pub fn price(lines: &[NewInvoiceLine], tax: &[NewTaxLine]) -> (r: Result<
    (Vec<PricedLine>, Dec, Dec, Dec, Dec),
    BillingError,
>)
    requires
        invoice_lines_wf(lines@),
        tax_lines_wf(tax@),
        spec_price(lines@, tax@) != Err::<(Dec, Dec, Dec, Dec), Fault>(Fault::Overflow),
    ensures
        match spec_price(lines@, tax@) {
            Ok(e) => r matches Ok((priced, a, b, c, d)) && priced_ok(
                lines@,
                priced@,
                (a, b, c, d),
                e,
            ),
            Err(f) => r matches Err(e) && reports(&e, f),
        },
{
    try_price(lines, tax).unwrap()
}

/// The tax lines totalled by basis ("output" | "input" | "withholding"), each total rounded once;
/// `None` where a sum leaves the decimal range.
pub fn try_sum_by_basis(tax: &[NewTaxLine]) -> (r: Option<(Dec, Dec, Dec)>)
    requires
        tax_lines_wf(tax@),
    ensures
        match spec_sum_by_basis(tax@) {
            Ok(t) => r == Some(t),
            Err(_) => r is None,
        },
{
    match totals_by_basis(tax, false) {
        Some(Ok((o, i, w))) => Some((money(o), money(i), money(w))),
        _ => None,
    }
}

/// Sum a tax-line set by basis ("output" | "input" | "withholding"), each total rounded once.
pub fn sum_by_basis(tax: &[NewTaxLine]) -> (r: (Dec, Dec, Dec))
    requires
        tax_lines_wf(tax@),
        spec_sum_by_basis(tax@) is Ok,
    ensures
        spec_sum_by_basis(tax@) == Ok::<(Dec, Dec, Dec), Fault>(r),
{
    try_sum_by_basis(tax).unwrap()
}

/// The A/P a purchase invoice owes: `net + input − withholding`.
pub open spec fn spec_purchase_grand(net_total: Dec, input: Dec, wht: Dec) -> Option<Dec> {
    match decimal_checked_add(net_total, input) {
        None => None,
        Some(s) => decimal_checked_sub(s, wht),
    }
}

/// The invoice currency: the one requested, else "IDR".
pub fn currency_or_default(currency: Option<String>) -> (r: String)
    ensures
        match currency {
            Some(c) => r == c,
            None => r@ == "IDR"@,
        },
{
    match currency {
        Some(c) => c,
        None => "IDR".to_string(),
    }
}

/// What a new invoice's draft holds: its priced lines, net total, tax total (output for a sales
/// invoice, input for a purchase invoice), withholding total (zero on a sales invoice), grand total
/// and currency.
pub struct InvoiceDraft {
    pub priced: Vec<PricedLine>,
    pub net_total: Dec,
    pub tax_total: Dec,
    pub withholding_total: Dec,
    pub grand_total: Dec,
    pub currency: String,
}

/// The draft's currency reads as asked: the one requested, else "IDR".
pub open spec fn currency_is(d: InvoiceDraft, currency: Option<String>) -> bool {
    match currency {
        Some(c) => d.currency == c,
        None => d.currency@ == "IDR"@,
    }
}

/// The draft of a new sales invoice: the document priced, `grand = net + output`, the currency
/// defaulted. `None` where a decimal step leaves its range. Where the amounts fit
/// ([`price_fits`]), the grand total is exactly the line nets plus the output tax amounts.
pub fn plan_sales_invoice(lines: &[NewInvoiceLine], tax: &[NewTaxLine], currency: Option<String>) -> (r:
    Option<Result<InvoiceDraft, BillingError>>)
    requires
        invoice_lines_wf(lines@),
        tax_lines_wf(tax@),
    ensures
        match spec_price(lines@, tax@) {
            Err(Fault::Overflow) => r is None,
            Err(f) => r matches Some(Err(e)) && reports(&e, f),
            Ok((nt, o, i, w)) => match decimal_checked_add(nt, o) {
                None => r is None,
                Some(g) => r matches Some(Ok(d)) && priced_ok(
                    lines@,
                    d.priced@,
                    (d.net_total, d.tax_total, i, w),
                    (nt, o, i, w),
                ) && d.withholding_total == zero() && d.grand_total == g && currency_is(d, currency)
                    && (add_fits(nt, o) ==> g.units() == nt.units() + o.units()),
            },
        },
        price_fits(lines@, tax@) ==> (r matches Some(Ok(d)) ==> d.grand_total.units() == decs_total(
            line_nets(lines@),
        ) + basis_units(tax@, "output"@)),
{
    let (priced, net_total, output, _input, _wht) = match try_price(lines, tax) {
        None => {
            return None;
        },
        Some(Err(e)) => {
            return Some(Err(e));
        },
        Some(Ok(t)) => t,
    };
    proof {
        if price_fits(lines@, tax@) {
            lemma_decs_bounds(line_nets(lines@));
            lemma_tax_bounds(tax@, "output"@);
            lemma_add_fits_in_room(net_total, output, 2);
        }
    }
    let grand_total = match checked_add(net_total, output) {
        None => {
            return None;
        },
        Some(g) => g,
    };
    let currency = currency_or_default(currency);
    Some(
        Ok(
            InvoiceDraft {
                priced,
                net_total,
                tax_total: output,
                withholding_total: Dec::zero(),
                grand_total,
                currency,
            },
        ),
    )
}

/// The draft of a new purchase invoice: the document priced, `grand = net + input − withholding`
/// (the A/P owed; a negative payable is refused with `negative_amount`), the currency defaulted.
/// `None` where a decimal step leaves its range. Where the amounts fit ([`price_fits`]), the grand
/// total is exactly the line nets plus the input tax less the withholding.
pub fn plan_purchase_invoice(lines: &[NewInvoiceLine], tax: &[NewTaxLine], currency: Option<String>) -> (r:
    Option<Result<InvoiceDraft, BillingError>>)
    requires
        invoice_lines_wf(lines@),
        tax_lines_wf(tax@),
    ensures
        match spec_price(lines@, tax@) {
            Err(Fault::Overflow) => r is None,
            Err(f) => r matches Some(Err(e)) && reports(&e, f),
            Ok((nt, o, i, w)) => match spec_purchase_grand(nt, i, w) {
                None => r is None,
                Some(g) => (if g.units() < 0 {
                    r matches Some(Err(BillingError::NegativeAmount))
                } else {
                    r matches Some(Ok(d)) && priced_ok(
                        lines@,
                        d.priced@,
                        (d.net_total, o, d.tax_total, d.withholding_total),
                        (nt, o, i, w),
                    ) && d.grand_total == g && currency_is(d, currency)
                }) && (add_fits(nt, i) ==> (decimal_checked_add(nt, i) matches Some(s) && s.units()
                    == nt.units() + i.units() && (sub_fits(s, w) ==> g.units() == nt.units()
                    + i.units() - w.units()))),
            },
        },
        price_fits(lines@, tax@) ==> (r matches Some(Ok(d)) ==> d.grand_total.units() == decs_total(
            line_nets(lines@),
        ) + basis_units(tax@, "input"@) - basis_units(tax@, "withholding"@)),
{
    let (priced, net_total, _output, input, wht) = match try_price(lines, tax) {
        None => {
            return None;
        },
        Some(Err(e)) => {
            return Some(Err(e));
        },
        Some(Ok(t)) => t,
    };
    proof {
        if price_fits(lines@, tax@) {
            reveal_strlit("input");
            reveal_strlit("withholding");
            assert("input"@.len() != "withholding"@.len());
            lemma_decs_bounds(line_nets(lines@));
            lemma_tax_two_bases(tax@, "input"@, "withholding"@);
            lemma_tax_bounds(tax@, "input"@);
            lemma_add_fits_in_room(net_total, input, 2);
        }
    }
    let s = match checked_add(net_total, input) {
        None => {
            return None;
        },
        Some(s) => s,
    };
    proof {
        if price_fits(lines@, tax@) {
            lemma_add_fits_in_room(s, wht, 2);
        }
    }
    let grand_total = match checked_sub(s, wht) {
        None => {
            return None;
        },
        Some(g) => g,
    };
    if lt(grand_total, Dec::zero()) {
        return Some(Err(BillingError::NegativeAmount));
    }
    let currency = currency_or_default(currency);
    Some(
        Ok(
            InvoiceDraft {
                priced,
                net_total,
                tax_total: input,
                withholding_total: wht,
                grand_total,
                currency,
            },
        ),
    )
}

/// One routed tax split the tax engine computed for a document (`source_index` is the input line
/// that generated it; withholding amounts come signed negative).
pub struct EngineTaxLine {
    pub source_index: usize,
    pub template_id: u128,
    pub account_id: Option<u128>,
    pub real_account_id: Option<u128>,
    pub rate: Dec,
    pub tax_amount: Dec,
    pub is_withholding: bool,
    pub description: Option<String>,
    pub repartition_line_id: Option<u128>,
}

/// The tax engine's document result: the post-policy net per templated line (in input order) and
/// the tax splits.
pub struct EngineResult {
    pub net_amounts: Vec<Dec>,
    pub lines: Vec<EngineTaxLine>,
}

/// A fully priced document: lines with their final nets, the overlay tax lines to persist and the
/// basis totals the header carries.
pub struct PricedDocument {
    pub priced: Vec<PricedLine>,
    pub net_total: Dec,
    pub tax_lines: Vec<NewTaxLine>,
    pub output: Dec,
    pub input: Dec,
    pub withholding: Dec,
}

/// A line carries a tax template.
pub open spec fn templated(l: NewInvoiceLine) -> bool {
    l.tax_template_id is Some
}

/// The number of templated lines before index `i`.
pub open spec fn templated_before(lines: Seq<NewInvoiceLine>, i: int) -> int
    decreases i,
{
    if i <= 0 || i > lines.len() {
        0
    } else {
        templated_before(lines, i - 1) + if templated(lines[i - 1]) {
            1int
        } else {
            0int
        }
    }
}

/// Whether any line carries a tax template (the document is then priced by the tax engine).
pub fn is_templated(lines: &[NewInvoiceLine]) -> (r: bool)
    ensures
        r == exists|i: int| 0 <= i < lines@.len() && templated(#[trigger] lines@[i]),
{
    let n = lines.len();
    let mut i: usize = 0;
    while i < n
        invariant
            n == lines@.len(),
            0 <= i <= n,
            forall|k: int| 0 <= k < i ==> !templated(#[trigger] lines@[k]),
        decreases n - i,
    {
        if lines[i].tax_template_id.is_some() {
            assert(templated(lines@[i as int]));
            return true;
        }
        i = i + 1;
    }
    false
}

/// The tax engine's request lines: the templated lines' (template, quantity, unit price), in order.
pub fn engine_request_lines(lines: &[NewInvoiceLine]) -> (r: Vec<(u128, Dec, Dec)>)
    ensures
        r@.len() == templated_before(lines@, lines@.len() as int),
        forall|i: int|
            0 <= i < lines@.len() && templated(#[trigger] lines@[i]) ==> r@[templated_before(
                lines@,
                i,
            )] == (lines@[i].tax_template_id.unwrap(), lines@[i].quantity, lines@[i].unit_price),
{
    let mut out: Vec<(u128, Dec, Dec)> = Vec::new();
    let n = lines.len();
    let mut i: usize = 0;
    while i < n
        invariant
            n == lines@.len(),
            0 <= i <= n,
            out@.len() == templated_before(lines@, i as int),
            forall|k: int|
                0 <= k < i && templated(#[trigger] lines@[k]) ==> out@[templated_before(lines@, k)]
                    == (lines@[k].tax_template_id.unwrap(), lines@[k].quantity, lines@[k].unit_price),
        decreases n - i,
    {
        let l = &lines[i];
        assert(lines@[i as int] == *l);
        assert forall|k: int| 0 <= k < i && templated(#[trigger] lines@[k]) implies templated_before(
            lines@,
            k,
        ) < templated_before(lines@, i as int) by {
            lemma_templated_before_mono(lines@, k, i as int);
        }
        let ghost before = out@;
        assert(templated_before(lines@, i + 1) == templated_before(lines@, i as int) + if templated(
            lines@[i as int],
        ) {
            1int
        } else {
            0int
        });
        match l.tax_template_id {
            Some(t) => {
                out.push((t, l.quantity, l.unit_price));
                assert forall|k: int|
                    0 <= k < i && templated(#[trigger] lines@[k]) implies out@[templated_before(
                    lines@,
                    k,
                )] == before[templated_before(lines@, k)] by {
                    lemma_templated_before_mono(lines@, k, i as int);
                    lemma_templated_before_nonneg(lines@, k);
                    assert(out@ == before.push((t, l.quantity, l.unit_price)));
                }
            },
            None => {},
        }
        i = i + 1;
    }
    out
}

/// A decimal sum of nets from `i` on onto `total` (`None` where it overflows).
pub open spec fn sum_nets_from(p: Seq<PricedLine>, i: int, total: Dec) -> Option<Dec>
    decreases p.len() - i,
{
    if i < 0 || i >= p.len() {
        Some(total)
    } else {
        match decimal_checked_add(total, p[i].net_amount) {
            None => None,
            Some(t) => sum_nets_from(p, i + 1, t),
        }
    }
}

/// The priced lines' nets are representable.
pub open spec fn priced_wf(p: Seq<PricedLine>) -> bool {
    forall|i: int| 0 <= i < p.len() ==> (#[trigger] p[i]).net_amount.wf()
}

fn try_sum_nets(priced: &Vec<PricedLine>) -> (r: Option<Dec>)
    requires
        priced_wf(priced@),
    ensures
        r == sum_nets_from(priced@, 0, zero()),
        r matches Some(t) ==> t.wf(),
{
    let mut total = Dec::zero();
    let n = priced.len();
    let mut i: usize = 0;
    while i < n
        invariant
            n == priced@.len(),
            0 <= i <= n,
            priced_wf(priced@),
            total.wf(),
            sum_nets_from(priced@, 0, zero()) == sum_nets_from(priced@, i as int, total),
        decreases n - i,
    {
        assert(priced@[i as int].net_amount.wf());
        total = match checked_add(total, priced[i].net_amount) {
            Some(t) => t,
            None => {
                return None;
            },
        };
        i = i + 1;
    }
    Some(total)
}

fn clone_string(s: &String) -> (r: String)
    ensures
        r == *s,
{
    s.clone()
}

fn clone_tax_line(t: &NewTaxLine) -> (r: NewTaxLine)
    ensures
        r == *t,
{
    NewTaxLine {
        account_id: t.account_id,
        basis: clone_string(&t.basis),
        description: clone_description(&t.description),
        rate: t.rate,
        tax_amount: t.tax_amount,
        taxable_base: t.taxable_base,
        tax_template_id: t.tax_template_id,
        repartition_line_id: t.repartition_line_id,
        real_account_id: t.real_account_id,
        exigibility: clone_description(&t.exigibility),
    }
}

/// An un-templated document keeps the supplied tax lines verbatim: net total = money(Σ nets), the
/// tax lines as given, and their totals by basis (`None` where a sum leaves the decimal range).
pub fn untemplated_document(priced: Vec<PricedLine>, supplied: &[NewTaxLine]) -> (r: Option<
    PricedDocument,
>)
    requires
        priced_wf(priced@),
        tax_lines_wf(supplied@),
    ensures
        r is Some <==> sum_nets_from(priced@, 0, zero()) is Some && spec_sum_by_basis(supplied@) is Ok,
        r matches Some(d) ==> d.priced@ == priced@ && d.net_total == spec_money(
            sum_nets_from(priced@, 0, zero()).unwrap(),
        ) && d.tax_lines@ == supplied@ && spec_sum_by_basis(supplied@) == Ok::<
            (Dec, Dec, Dec),
            Fault,
        >((d.output, d.input, d.withholding)),
{
    let net_total = match try_sum_nets(&priced) {
        None => {
            return None;
        },
        Some(t) => money(t),
    };
    let (output, input, withholding) = match try_sum_by_basis(supplied) {
        None => {
            return None;
        },
        Some(t) => t,
    };
    let mut tax_lines: Vec<NewTaxLine> = Vec::new();
    let n = supplied.len();
    let mut i: usize = 0;
    while i < n
        invariant
            n == supplied@.len(),
            0 <= i <= n,
            tax_lines@ == supplied@.take(i as int),
        decreases n - i,
    {
        tax_lines.push(clone_tax_line(&supplied[i]));
        assert(supplied@.take(i + 1) == supplied@.take(i as int).push(supplied@[i as int]));
        i = i + 1;
    }
    assert(supplied@.take(n as int) == supplied@);
    Some(PricedDocument { priced, net_total, tax_lines, output, input, withholding })
}

/// Where pricing a document stands after its own steps: priced outright (no line carries a tax
/// template), or waiting on the tax engine with the validated lines and the engine's request.
pub enum PricingStep {
    Priced(PricedDocument),
    Engine { priced: Vec<PricedLine>, request: Vec<(u128, Dec, Dec)> },
}

/// The engine request `req` lists the templated lines' (template, quantity, unit price) in order.
pub open spec fn request_of(req: Seq<(u128, Dec, Dec)>, lines: Seq<NewInvoiceLine>) -> bool {
    &&& req.len() == templated_before(lines, lines.len() as int)
    &&& forall|i: int|
        0 <= i < lines.len() && templated(#[trigger] lines[i]) ==> req[templated_before(lines, i)] == (
            lines[i].tax_template_id.unwrap(),
            lines[i].quantity,
            lines[i].unit_price,
        )
}

/// Price a document for creation, up to the tax engine: the lines are validated and priced (empty
/// and negative documents refused); a document with no templated line keeps the supplied tax lines
/// verbatim; a templated one is refused with `tax_engine_unwired` when no engine is wired, and
/// otherwise waits on the engine, the supplied tax lines ignored. `None` where a decimal step leaves
/// its range.
pub fn begin_pricing(lines: &[NewInvoiceLine], supplied: &[NewTaxLine], engine_wired: bool) -> (r:
    Option<Result<PricingStep, BillingError>>)
    requires
        invoice_lines_wf(lines@),
        tax_lines_wf(supplied@),
    ensures
        match spec_price(lines@, supplied@) {
            Err(Fault::Overflow) => r is None,
            Err(f) => r matches Some(Err(e)) && reports(&e, f),
            Ok(t) => if !(exists|i: int| 0 <= i < lines@.len() && templated(#[trigger] lines@[i])) {
                match r {
                    None => !(exists|p: Seq<PricedLine>| #[trigger] priced_ok(lines@, p, t, t)
                        && sum_nets_from(p, 0, zero()) is Some && spec_sum_by_basis(supplied@) is Ok),
                    Some(Ok(PricingStep::Priced(doc))) => priced_ok(lines@, doc.priced@, t, t)
                        && doc.net_total == spec_money(sum_nets_from(doc.priced@, 0, zero()).unwrap())
                        && doc.tax_lines@ == supplied@ && spec_sum_by_basis(supplied@) == Ok::<
                        (Dec, Dec, Dec),
                        Fault,
                    >((doc.output, doc.input, doc.withholding)),
                    _ => false,
                }
            } else if !engine_wired {
                r matches Some(Err(BillingError::TaxEngineUnwired))
            } else {
                r matches Some(Ok(PricingStep::Engine { priced, request })) && priced_ok(
                    lines@,
                    priced@,
                    t,
                    t,
                ) && request_of(request@, lines@)
            },
        },
{
    let (priced, a, b, c, d) = match try_price(lines, supplied) {
        None => {
            return None;
        },
        Some(Err(e)) => {
            return Some(Err(e));
        },
        Some(Ok(x)) => x,
    };
    if !is_templated(lines) {
        let ghost p = priced@;
        proof {
            assert forall|q: Seq<PricedLine>| #[trigger] priced_ok(lines@, q, (a, b, c, d), (a, b, c, d))
                implies sum_nets_from(q, 0, zero()) == sum_nets_from(p, 0, zero()) by {
                assert(q =~= p) by {
                    assert forall|k: int| 0 <= k < q.len() implies q[k] == p[k] by {
                        assert(priced_from(q[k], lines@[k]));
                        assert(priced_from(p[k], lines@[k]));
                    }
                }
            }
        }
        return match untemplated_document(priced, supplied) {
            None => None,
            Some(doc) => Some(Ok(PricingStep::Priced(doc))),
        };
    }
    if !engine_wired {
        return Some(Err(BillingError::TaxEngineUnwired));
    }
    let request = engine_request_lines(lines);
    Some(Ok(PricingStep::Engine { priced, request }))
}

/// The priced lines with each templated line's net replaced by the engine's post-policy net.
pub open spec fn overwritten(p: PricedLine, l: NewInvoiceLine, lines: Seq<NewInvoiceLine>, i: int, nets: Seq<Dec>) -> PricedLine {
    if templated(l) {
        PricedLine { net_amount: nets[templated_before(lines, i)], ..p }
    } else {
        p
    }
}

/// What the engine's text for a template id reads (a UUID's hyphenated form).
pub uninterp spec fn uuid_display(id: u128) -> Seq<char>;

/// `uuid::Uuid::from_u128(id).to_string()`. Named: the id's hyphenated lowercase form.
#[verifier::external_body]
pub(crate) fn uuid_text(id: u128) -> (r: String)
    ensures
        r@ == uuid_display(id),
{
    uuid::Uuid::from_u128(id).to_string()
}

/// A decimal's absolute value (same scale).
pub open spec fn spec_abs(d: Dec) -> Dec {
    Dec {
        mantissa: if d.mantissa < 0 {
            (-d.mantissa) as i128
        } else {
            d.mantissa
        },
        scale: d.scale,
    }
}

/// `Decimal::abs`: the same digits without the sign.
pub fn abs(d: Dec) -> (r: Dec)
    requires
        d.wf(),
    ensures
        r == spec_abs(d),
        r.wf(),
{
    Dec {
        mantissa: if d.mantissa < 0 {
            -d.mantissa
        } else {
            d.mantissa
        },
        scale: d.scale,
    }
}

/// The overlay line an engine split becomes: its routing account, basis `withholding` for a
/// withholding split and otherwise `output` (sales) or `input` (purchase), the face amount, the
/// source line's post-policy net as taxable base (zero if out of range), the template, and
/// `on_payment` exigibility iff the amount is deferred to a real account.
pub open spec fn overlay_line(t: NewTaxLine, tl: EngineTaxLine, nets: Seq<Dec>, kind: Seq<char>) -> bool {
    &&& tl.account_id == Some(t.account_id)
    &&& t.basis@ == (if tl.is_withholding {
        "withholding"@
    } else if kind == "sales"@ {
        "output"@
    } else {
        "input"@
    })
    &&& t.description == tl.description
    &&& t.rate == tl.rate
    &&& t.tax_amount == spec_abs(tl.tax_amount)
    &&& t.taxable_base == (if tl.source_index < nets.len() {
        nets[tl.source_index as int]
    } else {
        zero()
    })
    &&& t.tax_template_id == Some(tl.template_id)
    &&& t.repartition_line_id == tl.repartition_line_id
    &&& t.real_account_id == tl.real_account_id
    &&& t.exigibility matches Some(x) && x@ == (if tl.real_account_id is Some {
        "on_payment"@
    } else {
        "on_invoice"@
    })
}

/// The index of the first engine split without a routing account, if any.
pub open spec fn first_unrouted(tls: Seq<EngineTaxLine>) -> Option<int> {
    if exists|i: int| 0 <= i < tls.len() && (#[trigger] tls[i]).account_id is None {
        Some(choose|i: int| 0 <= i < tls.len() && (#[trigger] tls[i]).account_id is None && forall|j: int| 0 <= j < i ==> (#[trigger] tls[j]).account_id is Some)
    } else {
        None
    }
}

fn overlay_of(tl: &EngineTaxLine, nets: &Vec<Dec>, kind: &str) -> (r: NewTaxLine)
    requires
        tl.account_id is Some,
        tl.tax_amount.wf(),
        forall|i: int| 0 <= i < nets@.len() ==> (#[trigger] nets@[i]).wf(),
    ensures
        overlay_line(r, *tl, nets@, kind@),
        r.tax_amount.wf(),
{
    let basis = if tl.is_withholding {
        "withholding"
    } else if str_eq(kind, "sales") {
        "output"
    } else {
        "input"
    };
    let taxable_base = if tl.source_index < nets.len() {
        nets[tl.source_index]
    } else {
        Dec::zero()
    };
    let exigibility = if tl.real_account_id.is_some() {
        "on_payment"
    } else {
        "on_invoice"
    };
    NewTaxLine {
        account_id: tl.account_id.unwrap(),
        basis: basis.to_string(),
        description: clone_description(&tl.description),
        rate: tl.rate,
        tax_amount: abs(tl.tax_amount),
        taxable_base,
        tax_template_id: Some(tl.template_id),
        repartition_line_id: tl.repartition_line_id,
        real_account_id: tl.real_account_id,
        exigibility: Some(exigibility.to_string()),
    }
}

/// The engine result's decimals are representable.
pub open spec fn engine_wf(res: EngineResult) -> bool {
    &&& forall|i: int| 0 <= i < res.net_amounts@.len() ==> (#[trigger] res.net_amounts@[i]).wf()
    &&& forall|i: int| 0 <= i < res.lines@.len() ==> (#[trigger] res.lines@[i]).tax_amount.wf()
}

/// The overlay lines `ts` are the engine's splits, each as [`overlay_line`] reads it.
pub open spec fn overlays_of(ts: Seq<NewTaxLine>, result: EngineResult, kind: Seq<char>) -> bool {
    &&& ts.len() == result.lines@.len()
    &&& forall|i: int|
        0 <= i < ts.len() ==> overlay_line(#[trigger] ts[i], result.lines@[i], result.net_amounts@, kind)
}

/// The engine splits' amounts (each taken without its sign) added up, over the splits that are
/// (`withholding`) or are not withholding splits, in units.
pub open spec fn split_units(tls: Seq<EngineTaxLine>, withholding: bool) -> int
    decreases tls.len(),
{
    if tls.len() == 0 {
        0
    } else {
        split_units(tls.drop_last(), withholding) + if tls.last().is_withholding == withholding {
            spec_abs(tls.last().tax_amount).units()
        } else {
            0
        }
    }
}

/// The engine splits' amounts (without sign) added up over the splits that are (`deferred`) or are
/// not deferred to a real account, in units.
pub open spec fn deferred_units(tls: Seq<EngineTaxLine>, deferred: bool) -> int
    decreases tls.len(),
{
    if tls.len() == 0 {
        0
    } else {
        deferred_units(tls.drop_last(), deferred) + if (tls.last().real_account_id is Some)
            == deferred {
            spec_abs(tls.last().tax_amount).units()
        } else {
            0
        }
    }
}

/// The tax lines' amounts added up over the lines of the given exigibility, in units.
pub open spec fn exigibility_units(ts: Seq<NewTaxLine>, exigibility: Seq<char>) -> int
    decreases ts.len(),
{
    if ts.len() == 0 {
        0
    } else {
        exigibility_units(ts.drop_last(), exigibility) + if ts.last().exigibility matches Some(x)
            && x@ == exigibility {
            ts.last().tax_amount.units()
        } else {
            0
        }
    }
}

proof fn lemma_overlay_totals(
    ts: Seq<NewTaxLine>,
    tls: Seq<EngineTaxLine>,
    nets: Seq<Dec>,
    kind: Seq<char>,
)
    requires
        ts.len() == tls.len(),
        forall|i: int| 0 <= i < ts.len() ==> overlay_line(#[trigger] ts[i], tls[i], nets, kind),
    ensures
        basis_units(ts, "withholding"@) == split_units(tls, true),
        kind == "sales"@ ==> basis_units(ts, "output"@) == split_units(tls, false) && basis_units(
            ts,
            "input"@,
        ) == 0,
        kind != "sales"@ ==> basis_units(ts, "input"@) == split_units(tls, false) && basis_units(
            ts,
            "output"@,
        ) == 0,
        exigibility_units(ts, "on_payment"@) == deferred_units(tls, true),
        exigibility_units(ts, "on_invoice"@) == deferred_units(tls, false),
    decreases ts.len(),
{
    reveal_strlit("withholding");
    reveal_strlit("output");
    reveal_strlit("input");
    reveal_strlit("on_payment");
    reveal_strlit("on_invoice");
    assert("withholding"@[0] != "output"@[0] && "withholding"@[0] != "input"@[0] && "output"@[0]
        != "input"@[0]);
    assert("on_payment"@[3] != "on_invoice"@[3]);
    if ts.len() > 0 {
        let n = ts.len() - 1;
        assert forall|i: int| 0 <= i < ts.drop_last().len() implies overlay_line(
            #[trigger] ts.drop_last()[i],
            tls.drop_last()[i],
            nets,
            kind,
        ) by {
            assert(overlay_line(ts[i], tls[i], nets, kind));
        }
        lemma_overlay_totals(ts.drop_last(), tls.drop_last(), nets, kind);
        assert(overlay_line(ts[n], tls[n], nets, kind));
        assert(ts.last() == ts[n] && tls.last() == tls[n]);
    }
}

/// Where a document's tax lines are the tax engine's splits: each withholding split becomes a
/// `withholding` line and every other split an `output` line on a sales document and an `input`
/// line on any other (purchase) document, for the split's amount without its sign. So the
/// withholding lines add up to the withholding splits, a sales document's output lines to its
/// other splits (and it has no input lines), and a purchase document's input lines to its other
/// splits (and it has no output lines). A line is due `on_payment` exactly when its split is
/// deferred to a real account (cash-basis), and `on_invoice` otherwise, so the `on_payment` lines
/// add up to the deferred splits.
pub proof fn law_overlay_bases_follow_the_document(
    ts: Seq<NewTaxLine>,
    result: EngineResult,
    kind: Seq<char>,
)
    requires
        overlays_of(ts, result, kind),
    ensures
        basis_units(ts, "withholding"@) == split_units(result.lines@, true),
        kind == "sales"@ ==> basis_units(ts, "output"@) == split_units(result.lines@, false)
            && basis_units(ts, "input"@) == 0,
        kind != "sales"@ ==> basis_units(ts, "input"@) == split_units(result.lines@, false)
            && basis_units(ts, "output"@) == 0,
        forall|i: int|
            0 <= i < ts.len() ==> ((#[trigger] ts[i]).exigibility matches Some(x) && (x@
                == "on_payment"@ <==> result.lines@[i].real_account_id is Some) && (x@
                == "on_invoice"@ <==> result.lines@[i].real_account_id is None)),
        exigibility_units(ts, "on_payment"@) == deferred_units(result.lines@, true),
        exigibility_units(ts, "on_invoice"@) == deferred_units(result.lines@, false),
{
    reveal_strlit("on_payment");
    reveal_strlit("on_invoice");
    assert("on_payment"@[3] != "on_invoice"@[3]);
    lemma_overlay_totals(ts, result.lines@, result.net_amounts@, kind);
    assert forall|i: int| 0 <= i < ts.len() implies ((#[trigger] ts[i]).exigibility matches Some(x)
        && (x@ == "on_payment"@ <==> result.lines@[i].real_account_id is Some) && (x@
        == "on_invoice"@ <==> result.lines@[i].real_account_id is None)) by {
        assert(overlay_line(ts[i], result.lines@[i], result.net_amounts@, kind));
    }
}

proof fn lemma_untouched_basis(
    tax: Seq<NewTaxLine>,
    i: int,
    cn: bool,
    o: Dec,
    n: Dec,
    w: Dec,
    basis: Seq<char>,
)
    requires
        0 <= i <= tax.len(),
        basis == "output"@ || basis == "input"@ || basis == "withholding"@,
        forall|j: int| i <= j < tax.len() ==> (#[trigger] tax[j]).basis@ != basis,
        basis_totals_from(tax, i, cn, o, n, w) is Ok,
    ensures
        ({
            let (o2, n2, w2) = basis_totals_from(tax, i, cn, o, n, w)->Ok_0;
            &&& basis == "output"@ ==> o2 == o
            &&& basis == "input"@ ==> n2 == n
            &&& basis == "withholding"@ ==> w2 == w
        }),
    decreases tax.len() - i,
{
    if i < tax.len() {
        let t = tax[i];
        if t.basis@ == "output"@ {
            lemma_untouched_basis(tax, i + 1, cn, add_to(o, t.tax_amount)->Ok_0, n, w, basis);
        } else if t.basis@ == "input"@ {
            lemma_untouched_basis(tax, i + 1, cn, o, add_to(n, t.tax_amount)->Ok_0, w, basis);
        } else if t.basis@ == "withholding"@ {
            lemma_untouched_basis(tax, i + 1, cn, o, n, add_to(w, t.tax_amount)->Ok_0, basis);
        } else {
            lemma_untouched_basis(tax, i + 1, cn, o, n, w, basis);
        }
    }
}

/// A priced template-driven purchase document carries no output tax and a sales document no input
/// tax: the header total of the basis the document's kind never produces is zero.
pub proof fn law_templated_totals_by_kind(ts: Seq<NewTaxLine>, result: EngineResult, kind: Seq<char>)
    requires
        overlays_of(ts, result, kind),
        spec_sum_by_basis(ts) is Ok,
    ensures
        kind != "sales"@ ==> spec_sum_by_basis(ts)->Ok_0.0 == zero(),
        kind == "sales"@ ==> spec_sum_by_basis(ts)->Ok_0.1 == zero(),
{
    reveal_strlit("withholding");
    reveal_strlit("output");
    reveal_strlit("input");
    assert("withholding"@[0] != "output"@[0] && "withholding"@[0] != "input"@[0] && "output"@[0]
        != "input"@[0]);
    if kind != "sales"@ {
        assert forall|j: int| 0 <= j < ts.len() implies (#[trigger] ts[j]).basis@ != "output"@ by {
            assert(overlay_line(ts[j], result.lines@[j], result.net_amounts@, kind));
        }
        lemma_untouched_basis(ts, 0, false, zero(), zero(), zero(), "output"@);
    } else {
        assert forall|j: int| 0 <= j < ts.len() implies (#[trigger] ts[j]).basis@ != "input"@ by {
            assert(overlay_line(ts[j], result.lines@[j], result.net_amounts@, kind));
        }
        lemma_untouched_basis(ts, 0, false, zero(), zero(), zero(), "input"@);
    }
}

/// The priced lines with the engine's nets written over the templated ones.
pub open spec fn engine_priced(priced: Seq<PricedLine>, lines: Seq<NewInvoiceLine>, nets: Seq<Dec>) -> Seq<
    PricedLine,
> {
    Seq::new(priced.len(), |i: int| overwritten(priced[i], lines[i], lines, i, nets))
}

/// A template-driven document priced from the tax engine's result: each templated line's net is
/// OVERWRITTEN by the engine's post-policy net (in order), the net total is money(Σ nets), and the
/// engine's splits become the overlay tax lines (refused with `tax_line_unrouted` where a split has
/// no routing account), totalled by basis. `None` where a sum leaves the decimal range.
pub fn templated_document(
    lines: &[NewInvoiceLine],
    priced: Vec<PricedLine>,
    result: EngineResult,
    kind: &str,
) -> (r: Option<Result<PricedDocument, BillingError>>)
    requires
        priced@.len() == lines@.len(),
        priced_wf(priced@),
        engine_wf(result),
        templated_before(lines@, lines@.len() as int) <= result.net_amounts@.len(),
    ensures
        ({
            let p2 = engine_priced(priced@, lines@, result.net_amounts@);
            if sum_nets_from(p2, 0, zero()) is None {
                r is None
            } else {
                match first_unrouted(result.lines@) {
                    Some(k) => r matches Some(Err(BillingError::TaxCompute { code, message }))
                        && code@ == "tax_line_unrouted"@ && message@ == "template "@ + uuid_display(
                        result.lines@[k].template_id,
                    ) + " produced a tax split with no routing account (repartition tax lines need an account)"@,
                    None => match r {
                        None => exists|ts: Seq<NewTaxLine>|
                            #[trigger] overlays_of(ts, result, kind@) && spec_sum_by_basis(ts) is Err,
                        Some(Err(_)) => false,
                        Some(Ok(doc)) => doc.priced@ == p2 && doc.net_total == spec_money(
                            sum_nets_from(p2, 0, zero()).unwrap(),
                        ) && overlays_of(doc.tax_lines@, result, kind@) && spec_sum_by_basis(
                            doc.tax_lines@,
                        ) == Ok::<(Dec, Dec, Dec), Fault>((doc.output, doc.input, doc.withholding)),
                    },
                }
            }
        }),
{
    let ghost p2 = engine_priced(priced@, lines@, result.net_amounts@);
    let mut priced = priced;
    let ghost orig = priced@;
    let n = lines.len();
    let mut k: usize = 0;
    let mut i: usize = 0;
    while i < n
        invariant
            n == lines@.len(),
            orig.len() == n,
            priced@.len() == n,
            0 <= i <= n,
            k == templated_before(lines@, i as int),
            templated_before(lines@, n as int) <= result.net_amounts@.len(),
            engine_wf(result),
            priced_wf(orig),
            p2 == engine_priced(orig, lines@, result.net_amounts@),
            forall|j: int| 0 <= j < i ==> priced@[j] == #[trigger] p2[j],
            forall|j: int| i <= j < n ==> priced@[j] == #[trigger] orig[j],
            priced_wf(priced@),
        decreases n - i,
    {
        proof {
            lemma_templated_before_mono(lines@, i as int + 1, n as int);
        }
        if lines[i].tax_template_id.is_some() {
            assert(templated(lines@[i as int]));
            assert(templated_before(lines@, i as int + 1) == templated_before(lines@, i as int) + 1);
            let net = result.net_amounts[k];
            let p = &priced[i];
            let updated = PricedLine {
                item_id: p.item_id,
                account_id: p.account_id,
                description: clone_description(&p.description),
                quantity: p.quantity,
                unit_price: p.unit_price,
                net_amount: net,
            };
            priced.set(i, updated);
            assert(k < result.net_amounts.len());
            k = k + 1;
        }
        i = i + 1;
    }
    assert(priced@ =~= p2);
    assert(p2 == engine_priced(orig, lines@, result.net_amounts@));
    let net_total = match try_sum_nets(&priced) {
        None => {
            return None;
        },
        Some(t) => money(t),
    };
    if let Some(k) = find_unrouted(&result.lines) {
        let message = "template ".to_string().concat(uuid_text(result.lines[k].template_id).as_str()).concat(
            " produced a tax split with no routing account (repartition tax lines need an account)",
        );
        assert(sum_nets_from(p2, 0, zero()) is Some);
        assert(first_unrouted(result.lines@) == Some(k as int));
        assert(message@ == "template "@ + uuid_display(result.lines@[k as int].template_id) + " produced a tax split with no routing account (repartition tax lines need an account)"@);
        let code = "tax_line_unrouted".to_string();
        assert(code@ == "tax_line_unrouted"@);
        return Some(Err(BillingError::TaxCompute { code, message }));
    }
    let m = result.lines.len();
    let mut tax_lines: Vec<NewTaxLine> = Vec::new();
    let mut j: usize = 0;
    while j < m
        invariant
            m == result.lines@.len(),
            0 <= j <= m,
            engine_wf(result),
            first_unrouted(result.lines@) is None,
            tax_lines@.len() == j,
            forall|t: int|
                0 <= t < j ==> overlay_line(
                    #[trigger] tax_lines@[t],
                    result.lines@[t],
                    result.net_amounts@,
                    kind@,
                ),
            forall|t: int| 0 <= t < j ==> (#[trigger] tax_lines@[t]).tax_amount.wf(),
        decreases m - j,
    {
        let tl = &result.lines[j];
        assert(result.lines@[j as int].account_id is Some) by {
            if result.lines@[j as int].account_id is None {
                assert(exists|i: int| 0 <= i < result.lines@.len() && (#[trigger] result.lines@[i]).account_id is None);
            }
        }
        tax_lines.push(overlay_of(tl, &result.net_amounts, kind));
        j = j + 1;
    }
    assert(first_unrouted(result.lines@) is None);
    assert(overlays_of(tax_lines@, result, kind@));
    let (output, input, withholding) = match try_sum_by_basis(tax_lines.as_slice()) {
        None => {
            return None;
        },
        Some(t) => t,
    };
    Some(Ok(PricedDocument { priced, net_total, tax_lines, output, input, withholding }))
}

fn find_unrouted(tls: &Vec<EngineTaxLine>) -> (r: Option<usize>)
    ensures
        r matches Some(k) ==> first_unrouted(tls@) == Some(k as int) && k < tls@.len(),
        r is None ==> first_unrouted(tls@) is None,
{
    let n = tls.len();
    let mut j: usize = 0;
    while j < n
        invariant
            n == tls@.len(),
            0 <= j <= n,
            forall|t: int| 0 <= t < j ==> (#[trigger] tls@[t]).account_id is Some,
        decreases n - j,
    {
        if tls[j].account_id.is_none() {
            proof {
                assert(tls@[j as int].account_id is None);
                let k = choose|k: int|
                    0 <= k < tls@.len() && (#[trigger] tls@[k]).account_id is None && forall|t: int|
                        0 <= t < k ==> (#[trigger] tls@[t]).account_id is Some;
                assert(k == j) by {
                    if k < j {
                        assert(tls@[k].account_id is Some);
                    }
                    if k > j {
                        assert(tls@[j as int].account_id is Some);
                    }
                }
            }
            return Some(j);
        }
        j = j + 1;
    }
    None
}

proof fn lemma_templated_before_nonneg(lines: Seq<NewInvoiceLine>, a: int)
    ensures
        templated_before(lines, a) >= 0,
    decreases a,
{
    if a > 0 {
        lemma_templated_before_nonneg(lines, a - 1);
    }
}

proof fn lemma_templated_before_mono(lines: Seq<NewInvoiceLine>, a: int, b: int)
    requires
        0 <= a <= b <= lines.len(),
    ensures
        templated_before(lines, a) <= templated_before(lines, b),
        a < b && templated(lines[a]) ==> templated_before(lines, a) < templated_before(lines, b),
    decreases b - a,
{
    if a < b {
        lemma_templated_before_mono(lines, a, b - 1);
        if a < b - 1 {
            lemma_templated_before_mono(lines, a + 1, b);
        }
    }
}

} // verus!
