//! The balanced ledger posts billing emits, and their credit notes.
//!
//! A sales invoice posts `Dr A/R (grand) [customer] · Cr Revenue (net per account) · Cr PPN Output
//! (per output tax line)`; a purchase invoice posts `Dr Expense (net per account) · Dr PPN Input
//! (per input tax line) · Cr A/P (grand) [supplier] · Cr PPh Payable (per withholding line)`.
//! Revenue and expense are summed per account, the accounts in ascending order. A post is sent only
//! when its debits and credits total the same; a credit note is the forward post with debits and
//! credits swapped.
//!
//! Decimal sums go through `rust_decimal`, which panics where a sum leaves its range; the functions
//! here answer `None` there instead, and their `build_*` forms leave those inputs out.
use vstd::prelude::*;

use crate::calendar::Date;
use crate::dec::abs_int;
use crate::dec::checked_add;
use crate::dec::decs_abs;
use crate::dec::decs_money;
use crate::dec::decs_total;
use crate::dec::lemma_decs_bounds;
use crate::dec::lemma_decs_take;
use crate::dec::lemma_add_fits_in_room;
use crate::dec::room;
use crate::dec::decimal_checked_add;
use crate::dec::le;
use crate::dec::Dec;
use crate::error::BillingError;
use crate::pricing::basis_units;
use crate::pricing::line_nets;
use crate::pricing::uuid_display;
use crate::pricing::NewInvoiceLine;
use crate::pricing::NewTaxLine;
use crate::pricing::uuid_text;
use crate::pricing::zero;
use crate::text::str_eq;

verus! {

broadcast use vstd::string::group_string_axioms;

/// An amount against a ledger account: a line's net on its revenue or expense account, or a tax
/// line's amount on its tax account.
#[derive(Debug, Clone, Copy)]
pub struct AccountAmount {
    pub account_id: u128,
    pub amount: Dec,
}

/// The decimal sum of `s` from left to right, starting at zero, as `rust_decimal` adds (`None` once
/// a step leaves the range).
pub open spec fn dec_sum(s: Seq<Dec>) -> Option<Dec>
    decreases s.len(),
{
    if s.len() == 0 {
        Some(zero())
    } else {
        match dec_sum(s.drop_last()) {
            None => None,
            Some(t) => decimal_checked_add(t, s.last()),
        }
    }
}

/// The amounts booked on account `k`, in row order.
pub open spec fn account_amounts(rows: Seq<AccountAmount>, k: u128) -> Seq<Dec>
    decreases rows.len(),
{
    if rows.len() == 0 {
        Seq::empty()
    } else {
        let prev = account_amounts(rows.drop_last(), k);
        if rows.last().account_id == k {
            prev.push(rows.last().amount)
        } else {
            prev
        }
    }
}

/// Some row books on account `k`.
pub open spec fn has_account(rows: Seq<AccountAmount>, k: u128) -> bool {
    exists|j: int| 0 <= j < rows.len() && (#[trigger] rows[j]).account_id == k
}

/// `g` is `rows` summed per account: one entry per account that occurs, in ascending account
/// order, each holding the sum of that account's amounts taken in row order.
pub open spec fn grouped(rows: Seq<AccountAmount>, g: Seq<AccountAmount>) -> bool {
    &&& forall|a: int, b: int|
        0 <= a < b < g.len() ==> (#[trigger] g[a]).account_id < (#[trigger] g[b]).account_id
    &&& forall|k: u128| has_account(g, k) <==> has_account(rows, k)
    &&& forall|a: int|
        0 <= a < g.len() ==> dec_sum(account_amounts(rows, (#[trigger] g[a]).account_id)) == Some(
            g[a].amount,
        )
}

/// Every account's sum stays in the decimal range.
pub open spec fn group_fits(rows: Seq<AccountAmount>) -> bool {
    forall|j: int|
        0 <= j < rows.len() ==> dec_sum(account_amounts(rows, (#[trigger] rows[j]).account_id)) is Some
}

/// All amounts are representable decimals.
pub open spec fn amounts_wf(rows: Seq<AccountAmount>) -> bool {
    forall|j: int| 0 <= j < rows.len() ==> (#[trigger] rows[j]).amount.wf()
}

/// The amounts added up, in units.
pub open spec fn amounts_total(rows: Seq<AccountAmount>) -> int
    decreases rows.len(),
{
    if rows.len() == 0 {
        0
    } else {
        amounts_total(rows.drop_last()) + rows.last().amount.units()
    }
}

/// The amounts' magnitudes added up, in units.
pub open spec fn amounts_abs(rows: Seq<AccountAmount>) -> int
    decreases rows.len(),
{
    if rows.len() == 0 {
        0
    } else {
        amounts_abs(rows.drop_last()) + abs_int(rows.last().amount.units())
    }
}

/// Every amount has at most two fractional digits.
pub open spec fn amounts_money(rows: Seq<AccountAmount>) -> bool {
    forall|i: int| 0 <= i < rows.len() ==> (#[trigger] rows[i]).amount.scale <= 2
}

proof fn lemma_amounts_bounds(s: Seq<AccountAmount>)
    ensures
        amounts_abs(s) >= 0,
        abs_int(amounts_total(s)) <= amounts_abs(s),
        forall|i: int| 0 <= i < s.len() ==> abs_int((#[trigger] s[i]).amount.units()) <= amounts_abs(s),
    decreases s.len(),
{
    if s.len() > 0 {
        let d = s.drop_last();
        lemma_amounts_bounds(d);
        assert forall|i: int| 0 <= i < s.len() implies abs_int((#[trigger] s[i]).amount.units())
            <= amounts_abs(s) by {
            if i < s.len() - 1 {
                assert(s[i] == d[i]);
            }
        }
    }
}

proof fn lemma_amounts_push(s: Seq<AccountAmount>, x: AccountAmount)
    ensures
        amounts_total(s.push(x)) == amounts_total(s) + x.amount.units(),
        amounts_abs(s.push(x)) == amounts_abs(s) + abs_int(x.amount.units()),
{
    assert(s.push(x).drop_last() =~= s);
}

proof fn lemma_amounts_update(s: Seq<AccountAmount>, i: int, x: AccountAmount)
    requires
        0 <= i < s.len(),
    ensures
        amounts_total(s.update(i, x)) == amounts_total(s) - s[i].amount.units() + x.amount.units(),
        amounts_abs(s.update(i, x)) == amounts_abs(s) - abs_int(s[i].amount.units()) + abs_int(
            x.amount.units(),
        ),
    decreases s.len(),
{
    let u = s.update(i, x);
    if i == s.len() - 1 {
        assert(u.drop_last() =~= s.drop_last());
    } else {
        assert(u.drop_last() =~= s.drop_last().update(i, x));
        lemma_amounts_update(s.drop_last(), i, x);
    }
}

proof fn lemma_amounts_insert(s: Seq<AccountAmount>, i: int, x: AccountAmount)
    requires
        0 <= i <= s.len(),
    ensures
        amounts_total(s.insert(i, x)) == amounts_total(s) + x.amount.units(),
        amounts_abs(s.insert(i, x)) == amounts_abs(s) + abs_int(x.amount.units()),
    decreases s.len(),
{
    let u = s.insert(i, x);
    if i == s.len() {
        assert(u =~= s.push(x));
        lemma_amounts_push(s, x);
    } else {
        assert(u.drop_last() =~= s.drop_last().insert(i, x));
        lemma_amounts_insert(s.drop_last(), i, x);
    }
}

proof fn lemma_amounts_take(s: Seq<AccountAmount>, k: int)
    requires
        0 <= k <= s.len(),
    ensures
        amounts_abs(s.take(k)) <= amounts_abs(s),
    decreases s.len() - k,
{
    if k < s.len() {
        assert(s.take(k + 1).drop_last() =~= s.take(k));
        lemma_amounts_take(s, k + 1);
    } else {
        assert(s.take(k) =~= s);
    }
}

proof fn lemma_dec_sum_prefix_none(s: Seq<Dec>, i: int)
    requires
        0 <= i <= s.len(),
        dec_sum(s.take(i)) is None,
    ensures
        dec_sum(s) is None,
    decreases s.len() - i,
{
    if i < s.len() {
        assert(s.take(i + 1).drop_last() =~= s.take(i));
        lemma_dec_sum_prefix_none(s, i + 1);
    } else {
        assert(s.take(i) =~= s);
    }
}

proof fn lemma_account_amounts_prefix_none(rows: Seq<AccountAmount>, i: int, k: u128)
    requires
        0 <= i <= rows.len(),
        dec_sum(account_amounts(rows.take(i), k)) is None,
    ensures
        dec_sum(account_amounts(rows, k)) is None,
    decreases rows.len() - i,
{
    if i < rows.len() {
        assert(rows.take(i + 1).drop_last() =~= rows.take(i));
        let prev = account_amounts(rows.take(i), k);
        if rows[i].account_id == k {
            assert(prev.push(rows[i].amount).drop_last() =~= prev);
        }
        lemma_account_amounts_prefix_none(rows, i + 1, k);
    } else {
        assert(rows.take(i) =~= rows);
    }
}

proof fn lemma_account_amounts_absent(rows: Seq<AccountAmount>, k: u128)
    requires
        !has_account(rows, k),
    ensures
        account_amounts(rows, k) =~= Seq::<Dec>::empty(),
    decreases rows.len(),
{
    if rows.len() > 0 {
        let d = rows.drop_last();
        assert(!has_account(d, k)) by {
            if has_account(d, k) {
                let j = choose|j: int| 0 <= j < d.len() && (#[trigger] d[j]).account_id == k;
                assert(rows[j] == d[j]);
            }
        }
        assert(rows[rows.len() - 1].account_id != k);
        lemma_account_amounts_absent(d, k);
    }
}

proof fn lemma_grouped_fits(rows: Seq<AccountAmount>, g: Seq<AccountAmount>)
    requires
        grouped(rows, g),
    ensures
        group_fits(rows),
{
    assert forall|j: int| 0 <= j < rows.len() implies dec_sum(
        account_amounts(rows, (#[trigger] rows[j]).account_id),
    ) is Some by {
        let k = rows[j].account_id;
        assert(has_account(rows, k));
        assert(has_account(g, k));
        let a = choose|a: int| 0 <= a < g.len() && (#[trigger] g[a]).account_id == k;
        assert(dec_sum(account_amounts(rows, g[a].account_id)) == Some(g[a].amount));
    }
}

/// The rows summed per account, in ascending account order (`None` where an account's sum leaves
/// the decimal range).
#[verifier::rlimit(80)]
pub fn group_by_account(rows: &[AccountAmount]) -> (r: Option<Vec<AccountAmount>>)
    requires
        amounts_wf(rows@),
    ensures
        r is Some <==> group_fits(rows@),
        r matches Some(g) ==> grouped(rows@, g@) && amounts_wf(g@),
        amounts_money(rows@) && amounts_abs(rows@) <= room(2) ==> (r matches Some(g) && amounts_total(
            g@,
        ) == amounts_total(rows@) && amounts_abs(g@) <= amounts_abs(rows@) && amounts_money(g@)),
{
    let ghost fitting = amounts_money(rows@) && amounts_abs(rows@) <= room(2);
    let mut g: Vec<AccountAmount> = Vec::new();
    let n = rows.len();
    let mut i: usize = 0;
    assert(rows@.take(0) =~= Seq::<AccountAmount>::empty());
    while i < n
        invariant
            n == rows@.len(),
            0 <= i <= n,
            amounts_wf(rows@),
            amounts_wf(g@),
            grouped(rows@.take(i as int), g@),
            fitting == (amounts_money(rows@) && amounts_abs(rows@) <= room(2)),
            fitting ==> amounts_total(g@) == amounts_total(rows@.take(i as int)) && amounts_abs(g@)
                <= amounts_abs(rows@.take(i as int)) && amounts_money(g@),
        decreases n - i,
    {
        let row = rows[i];
        let k = row.account_id;
        let ghost pre = rows@.take(i as int);
        let ghost post = rows@.take(i as int + 1);
        assert(post.drop_last() =~= pre);
        assert(post.last() == row);
        assert(row.amount.wf());
        proof {
            lemma_amounts_push(pre, row);
            assert(pre.push(row) =~= post);
            lemma_amounts_take(rows@, i as int + 1);
            lemma_amounts_bounds(g@);
            lemma_amounts_bounds(post);
            if fitting {
                assert(rows@[i as int].amount.scale <= 2);
            }
        }
        let mut p: usize = 0;
        while p < g.len() && g[p].account_id < k
            invariant
                0 <= p <= g@.len(),
                forall|t: int| 0 <= t < p ==> (#[trigger] g@[t]).account_id < k,
            decreases g@.len() - p,
        {
            p = p + 1;
        }
        let ghost old_g = g@;
        if p < g.len() && g[p].account_id == k {
            let cur = g[p].amount;
            assert(dec_sum(account_amounts(pre, k)) == Some(cur));
            assert(account_amounts(post, k) == account_amounts(pre, k).push(row.amount));
            assert(account_amounts(pre, k).push(row.amount).drop_last() =~= account_amounts(pre, k));
            proof {
                if fitting {
                    assert(abs_int(cur.units()) <= amounts_abs(g@));
                    assert(cur.scale <= 2);
                    lemma_add_fits_in_room(cur, row.amount, 2);
                }
            }
            match checked_add(cur, row.amount) {
                None => {
                    proof {
                        assert(dec_sum(account_amounts(post, k)) is None);
                        lemma_account_amounts_prefix_none(rows@, i as int + 1, k);
                        assert(rows@[i as int].account_id == k);
                    }
                    return None;
                },
                Some(v) => {
                    g.set(p, AccountAmount { account_id: k, amount: v });
                    proof {
                        lemma_amounts_update(old_g, p as int, AccountAmount { account_id: k, amount: v });
                        if fitting {
                            assert forall|t: int| 0 <= t < g@.len() implies (#[trigger] g@[t]).amount.scale
                                <= 2 by {
                                if t != p {
                                    assert(g@[t] == old_g[t]);
                                }
                            }
                        }
                        assert forall|kk: u128| has_account(g@, kk) <==> has_account(post, kk) by {
                            if has_account(g@, kk) {
                                let a = choose|a: int| 0 <= a < g@.len() && (#[trigger] g@[a]).account_id == kk;
                                assert(old_g[a].account_id == kk);
                                assert(has_account(old_g, kk));
                                assert(has_account(pre, kk));
                                let j = choose|j: int| 0 <= j < pre.len() && (#[trigger] pre[j]).account_id == kk;
                                assert(post[j] == pre[j]);
                            }
                            if has_account(post, kk) {
                                let j = choose|j: int| 0 <= j < post.len() && (#[trigger] post[j]).account_id == kk;
                                if j < pre.len() {
                                    assert(pre[j] == post[j]);
                                    assert(has_account(pre, kk));
                                    assert(has_account(old_g, kk));
                                    let a = choose|a: int| 0 <= a < old_g.len() && (#[trigger] old_g[a]).account_id == kk;
                                    assert(g@[a].account_id == kk);
                                } else {
                                    assert(g@[p as int].account_id == kk);
                                }
                            }
                        }
                        assert forall|a: int| 0 <= a < g@.len() implies dec_sum(
                            account_amounts(post, (#[trigger] g@[a]).account_id),
                        ) == Some(g@[a].amount) by {
                            if a != p {
                                assert(g@[a] == old_g[a]);
                                assert(old_g[a].account_id != k) by {
                                    if a < p {
                                        assert(old_g[a].account_id < old_g[p as int].account_id);
                                    } else {
                                        assert(old_g[p as int].account_id < old_g[a].account_id);
                                    }
                                }
                            }
                        }
                    }
                },
            }
        } else {
            proof {
                assert(!has_account(old_g, k)) by {
                    if has_account(old_g, k) {
                        let a = choose|a: int| 0 <= a < old_g.len() && (#[trigger] old_g[a]).account_id == k;
                        if a >= p {
                            assert(p < old_g.len());
                            if a > p {
                                assert(old_g[p as int].account_id < old_g[a].account_id);
                            }
                        }
                    }
                }
                assert(!has_account(pre, k));
                lemma_account_amounts_absent(pre, k);
                assert(account_amounts(post, k) == account_amounts(pre, k).push(row.amount));
                assert(account_amounts(post, k).drop_last() =~= Seq::<Dec>::empty());
            }
            proof {
                if fitting {
                    crate::dec::lemma_pow10_28();
                    assert((Dec { mantissa: 0, scale: 0 }).units() == 0);
                    lemma_add_fits_in_room(Dec { mantissa: 0, scale: 0 }, row.amount, 2);
                }
            }
            match checked_add(Dec::zero(), row.amount) {
                None => {
                    proof {
                        assert(dec_sum(account_amounts(post, k)) is None);
                        lemma_account_amounts_prefix_none(rows@, i as int + 1, k);
                        assert(rows@[i as int].account_id == k);
                    }
                    return None;
                },
                Some(v) => {
                    g.insert(p, AccountAmount { account_id: k, amount: v });
                    proof {
                        lemma_amounts_insert(old_g, p as int, AccountAmount { account_id: k, amount: v });
                        if fitting {
                            assert forall|t: int| 0 <= t < g@.len() implies (#[trigger] g@[t]).amount.scale
                                <= 2 by {
                                if t < p {
                                    assert(g@[t] == old_g[t]);
                                } else if t > p {
                                    assert(g@[t] == old_g[t - 1]);
                                }
                            }
                        }
                        assert(g@ == old_g.insert(p as int, AccountAmount { account_id: k, amount: v }));
                        assert forall|a: int, b: int|
                            0 <= a < b < g@.len() implies (#[trigger] g@[a]).account_id < (
                            #[trigger] g@[b]).account_id by {
                            if b < p {
                            } else if b == p {
                            } else if a < p {
                                assert(old_g[b - 1].account_id > k) by {
                                    if b - 1 > p {
                                        assert(old_g[p as int].account_id < old_g[b - 1].account_id);
                                    }
                                }
                            } else if a == p {
                                assert(old_g[b - 1].account_id > k) by {
                                    if b - 1 > p {
                                        assert(old_g[p as int].account_id < old_g[b - 1].account_id);
                                    }
                                }
                            } else {
                                assert(old_g[a - 1].account_id < old_g[b - 1].account_id);
                            }
                        }
                        assert forall|kk: u128| has_account(g@, kk) <==> has_account(post, kk) by {
                            if has_account(g@, kk) {
                                let a = choose|a: int| 0 <= a < g@.len() && (#[trigger] g@[a]).account_id == kk;
                                if a == p {
                                    assert(post[i as int].account_id == kk);
                                } else {
                                    let a2 = if a < p { a } else { a - 1 };
                                    assert(old_g[a2].account_id == kk);
                                    assert(has_account(old_g, kk));
                                    assert(has_account(pre, kk));
                                    let j = choose|j: int| 0 <= j < pre.len() && (#[trigger] pre[j]).account_id == kk;
                                    assert(post[j] == pre[j]);
                                }
                            }
                            if has_account(post, kk) {
                                let j = choose|j: int| 0 <= j < post.len() && (#[trigger] post[j]).account_id == kk;
                                if j < pre.len() {
                                    assert(pre[j] == post[j]);
                                    assert(has_account(pre, kk));
                                    assert(has_account(old_g, kk));
                                    let a = choose|a: int| 0 <= a < old_g.len() && (#[trigger] old_g[a]).account_id == kk;
                                    if a < p {
                                        assert(g@[a].account_id == kk);
                                    } else {
                                        assert(g@[a + 1].account_id == kk);
                                    }
                                } else {
                                    assert(g@[p as int].account_id == kk);
                                }
                            }
                        }
                        assert forall|a: int| 0 <= a < g@.len() implies dec_sum(
                            account_amounts(post, (#[trigger] g@[a]).account_id),
                        ) == Some(g@[a].amount) by {
                            if a != p {
                                let a2 = if a < p { a } else { a - 1 };
                                assert(g@[a] == old_g[a2]);
                                assert(old_g[a2].account_id != k);
                                assert(dec_sum(account_amounts(pre, old_g[a2].account_id)) == Some(old_g[a2].amount));
                            }
                        }
                    }
                },
            }
        }
        i = i + 1;
    }
    assert(rows@.take(n as int) =~= rows@);
    proof {
        lemma_grouped_fits(rows@, g@);
    }
    Some(g)
}


/// One debit or credit line of a GL post.
pub struct PostLine {
    pub account_id: u128,
    pub debit: Dec,
    pub credit: Dec,
    pub party_type: Option<String>,
    pub party_id: Option<u128>,
    pub description: Option<String>,
}

/// A GL post as billing emits it. `source_id` is the invoice, which the ledger dedups on;
/// `posting_type` is "original" or "reversal", and `reverses_post_id` is set only on a reversal.
pub struct PostEnvelope {
    pub idempotency_key: String,
    pub company_id: u128,
    pub branch_id: Option<u128>,
    pub source_type: String,
    pub source_id: u128,
    pub source_reference: Option<String>,
    pub posting_date: Date,
    pub currency: String,
    pub posting_type: String,
    pub reverses_post_id: Option<u128>,
    pub description: Option<String>,
    pub lines: Vec<PostLine>,
}

/// The text of an optional string.
pub open spec fn opt_text(o: Option<String>) -> Option<Seq<char>> {
    match o {
        Some(s) => Some(s@),
        None => None,
    }
}

/// Line `l` books `debit` and `credit` on `account_id`, for `party` (type and id) if any, under
/// `description`.
pub open spec fn line_is(
    l: PostLine,
    account_id: u128,
    debit: Dec,
    credit: Dec,
    party: Option<(Seq<char>, u128)>,
    description: Seq<char>,
) -> bool {
    &&& l.account_id == account_id
    &&& l.debit == debit
    &&& l.credit == credit
    &&& opt_text(l.party_type) == (match party {
        Some(p) => Some(p.0),
        None => None::<Seq<char>>,
    })
    &&& l.party_id == (match party {
        Some(p) => Some(p.1),
        None => None::<u128>,
    })
    &&& opt_text(l.description) == Some(description)
}

/// Line `l` books `a` as a debit (or as a credit) on its account, with no party.
pub open spec fn amount_line(l: PostLine, a: AccountAmount, is_debit: bool, description: Seq<char>) -> bool {
    if is_debit {
        line_is(l, a.account_id, a.amount, zero(), None, description)
    } else {
        line_is(l, a.account_id, zero(), a.amount, None, description)
    }
}

/// From `start` on, `lines` book `rows` one line each, in order.
pub open spec fn amount_lines(
    lines: Seq<PostLine>,
    start: int,
    rows: Seq<AccountAmount>,
    is_debit: bool,
    description: Seq<char>,
) -> bool {
    forall|t: int|
        #![trigger rows[t]]
        0 <= t < rows.len() ==> amount_line(lines[start + t], rows[t], is_debit, description)
}

/// The debit amounts of `lines`, in order.
pub open spec fn debits(lines: Seq<PostLine>) -> Seq<Dec> {
    lines.map_values(|l: PostLine| l.debit)
}

/// The credit amounts of `lines`, in order.
pub open spec fn credits(lines: Seq<PostLine>) -> Seq<Dec> {
    lines.map_values(|l: PostLine| l.credit)
}

/// The debit and credit totals (`None` where a sum leaves the decimal range).
pub open spec fn post_totals(lines: Seq<PostLine>) -> Option<(Dec, Dec)> {
    match dec_sum(debits(lines)) {
        None => None,
        Some(d) => match dec_sum(credits(lines)) {
            None => None,
            Some(c) => Some((d, c)),
        },
    }
}

/// A post balances: it has lines and its debits total its credits.
pub open spec fn balanced(lines: Seq<PostLine>) -> bool {
    &&& post_totals(lines) matches Some(t)
    &&& t.0.units() == t.1.units()
    &&& lines.len() > 0
}

/// All amounts of the lines are representable decimals.
pub open spec fn lines_wf(lines: Seq<PostLine>) -> bool {
    forall|i: int| 0 <= i < lines.len() ==> (#[trigger] lines[i]).debit.wf() && lines[i].credit.wf()
}

/// What a checked post comes to: `None` where its totals leave the decimal range, the post itself
/// when it balances, and `UnbalancedPost` otherwise.
pub open spec fn checked_outcome(env: PostEnvelope) -> Option<Result<PostEnvelope, BillingError>> {
    match post_totals(env.lines@) {
        None => None,
        Some(_) => if balanced(env.lines@) {
            Some(Ok(env))
        } else {
            Some(Err(BillingError::UnbalancedPost))
        },
    }
}

/// Every line's amounts have at most two fractional digits, and the debits' and the credits'
/// magnitudes each add up within the room of two digits: every sum of the post is exact.
pub open spec fn post_fits(lines: Seq<PostLine>) -> bool {
    &&& decs_money(debits(lines))
    &&& decs_money(credits(lines))
    &&& decs_abs(debits(lines)) <= room(2)
    &&& decs_abs(credits(lines)) <= room(2)
}

impl PostEnvelope {
    /// The debit and credit totals of the lines (`None` where a sum leaves the decimal range).
    pub fn totals(&self) -> (r: Option<(Dec, Dec)>)
        requires
            lines_wf(self.lines@),
        ensures
            r == post_totals(self.lines@),
            r matches Some(t) ==> t.0.wf() && t.1.wf(),
            post_fits(self.lines@) ==> (r matches Some(t) && t.0.units() == decs_total(
                debits(self.lines@),
            ) && t.1.units() == decs_total(credits(self.lines@))),
    {
        let ghost fits = post_fits(self.lines@);
        let lines = &self.lines;
        let n = lines.len();
        let ghost ds = debits(lines@);
        let ghost cs = credits(lines@);
        let mut d = Dec::zero();
        let mut c = Dec::zero();
        let mut i: usize = 0;
        assert(ds.take(0) =~= Seq::<Dec>::empty());
        assert(cs.take(0) =~= Seq::<Dec>::empty());
        while i < n
            invariant
                n == lines@.len(),
                0 <= i <= n,
                lines@ == self.lines@,
                ds == debits(lines@),
                cs == credits(lines@),
                lines_wf(lines@),
                d.wf(),
                c.wf(),
                dec_sum(ds.take(i as int)) == Some(d),
                dec_sum(cs.take(i as int)) == Some(c),
                fits == post_fits(self.lines@),
                fits ==> d.units() == decs_total(ds.take(i as int)) && d.scale <= 2 && c.units()
                    == decs_total(cs.take(i as int)) && c.scale <= 2,
            decreases n - i,
        {
            proof {
                lemma_decs_bounds(ds.take(i as int));
                lemma_decs_bounds(cs.take(i as int));
                lemma_decs_bounds(ds.take(i + 1));
                lemma_decs_bounds(cs.take(i + 1));
                lemma_decs_take(ds, i + 1);
                lemma_decs_take(cs, i + 1);
                assert(ds.take(i + 1).drop_last() =~= ds.take(i as int));
                assert(cs.take(i + 1).drop_last() =~= cs.take(i as int));
                assert(ds.take(i + 1).last() == ds[i as int]);
                assert(cs.take(i + 1).last() == cs[i as int]);
                if fits {
                    assert(ds[i as int].scale <= 2);
                    assert(cs[i as int].scale <= 2);
                    lemma_add_fits_in_room(d, ds[i as int], 2);
                    lemma_add_fits_in_room(c, cs[i as int], 2);
                }
            }
            assert(ds.take(i + 1).drop_last() =~= ds.take(i as int));
            assert(cs.take(i + 1).drop_last() =~= cs.take(i as int));
            assert(lines@[i as int].debit.wf());
            assert(ds.take(i + 1).last() == lines@[i as int].debit);
            assert(cs.take(i + 1).last() == lines@[i as int].credit);
            assert(dec_sum(ds.take(i + 1)) == decimal_checked_add(d, lines@[i as int].debit));
            match checked_add(d, lines[i].debit) {
                None => {
                    proof {
                        lemma_dec_sum_prefix_none(ds, i + 1);
                    }
                    return None;
                },
                Some(nd) => {
                    d = nd;
                },
            }
            assert(dec_sum(cs.take(i + 1)) == decimal_checked_add(c, lines@[i as int].credit));
            match checked_add(c, lines[i].credit) {
                None => {
                    proof {
                        lemma_dec_sum_prefix_none(cs, i + 1);
                    }
                    return None;
                },
                Some(nc) => {
                    c = nc;
                },
            }
            i = i + 1;
        }
        assert(ds.take(n as int) =~= ds);
        assert(cs.take(n as int) =~= cs);
        Some((d, c))
    }

    /// Whether the post balances: it has lines and its debits total its credits (`None` where a
    /// sum leaves the decimal range).
    pub fn is_balanced(&self) -> (r: Option<bool>)
        requires
            lines_wf(self.lines@),
        ensures
            r is Some <==> post_totals(self.lines@) is Some,
            r matches Some(b) ==> b == balanced(self.lines@),
            post_fits(self.lines@) ==> r == Some(
                decs_total(debits(self.lines@)) == decs_total(credits(self.lines@))
                    && self.lines@.len() > 0,
            ),
    {
        match self.totals() {
            None => None,
            Some((d, c)) => Some(le(d, c) && le(c, d) && self.lines.len() > 0),
        }
    }
}

/// Check a post before it is sent: `None` where its totals leave the decimal range,
/// `UnbalancedPost` where debits and credits differ, the post otherwise.
pub fn checked_post(env: PostEnvelope) -> (r: Option<Result<PostEnvelope, BillingError>>)
    requires
        lines_wf(env.lines@),
    ensures
        r == checked_outcome(env),
        post_fits(env.lines@) ==> (r is Some && (r matches Some(Ok(_)) <==> (decs_total(
            debits(env.lines@),
        ) == decs_total(credits(env.lines@)) && env.lines@.len() > 0))),
{
    match env.is_balanced() {
        None => None,
        Some(true) => Some(Ok(env)),
        Some(false) => Some(Err(BillingError::UnbalancedPost)),
    }
}

/// A line booking `amount` on `account_id` as a debit (or a credit), with no party.
fn amount_post_line(a: AccountAmount, is_debit: bool, description: &str) -> (r: PostLine)
    ensures
        amount_line(r, a, is_debit, description@),
{
    if is_debit {
        PostLine {
            account_id: a.account_id,
            debit: a.amount,
            credit: Dec::zero(),
            party_type: None,
            party_id: None,
            description: Some(description.to_string()),
        }
    } else {
        PostLine {
            account_id: a.account_id,
            debit: Dec::zero(),
            credit: a.amount,
            party_type: None,
            party_id: None,
            description: Some(description.to_string()),
        }
    }
}

/// Append one line per row to `lines`.
fn push_amount_lines(lines: &mut Vec<PostLine>, rows: &[AccountAmount], is_debit: bool, description: &str)
    requires
        amounts_wf(rows@),
        lines_wf(old(lines)@),
    ensures
        final(lines)@.len() == old(lines)@.len() + rows@.len(),
        forall|i: int| 0 <= i < old(lines)@.len() ==> final(lines)@[i] == old(lines)@[i],
        amount_lines(final(lines)@, old(lines)@.len() as int, rows@, is_debit, description@),
        lines_wf(final(lines)@),
        decs_total(debits(final(lines)@)) == decs_total(debits(old(lines)@)) + (if is_debit {
            amounts_total(rows@)
        } else {
            0
        }),
        decs_total(credits(final(lines)@)) == decs_total(credits(old(lines)@)) + (if is_debit {
            0
        } else {
            amounts_total(rows@)
        }),
        decs_abs(debits(final(lines)@)) == decs_abs(debits(old(lines)@)) + (if is_debit {
            amounts_abs(rows@)
        } else {
            0
        }),
        decs_abs(credits(final(lines)@)) == decs_abs(credits(old(lines)@)) + (if is_debit {
            0
        } else {
            amounts_abs(rows@)
        }),
        decs_money(debits(old(lines)@)) && decs_money(credits(old(lines)@)) && amounts_money(rows@)
            ==> decs_money(debits(final(lines)@)) && decs_money(credits(final(lines)@)),
{
    let ghost start = lines@.len();
    let ghost orig = lines@;
    let n = rows.len();
    let mut i: usize = 0;
    assert(rows@.take(0) =~= Seq::<AccountAmount>::empty());
    while i < n
        invariant
            n == rows@.len(),
            0 <= i <= n,
            amounts_wf(rows@),
            lines@.len() == start + i,
            forall|j: int| 0 <= j < start ==> lines@[j] == orig[j],
            forall|t: int|
                #![trigger rows@[t]]
                0 <= t < i ==> amount_line(lines@[start + t], rows@[t], is_debit, description@),
            lines_wf(lines@),
            decs_total(debits(lines@)) == decs_total(debits(orig)) + (if is_debit {
                amounts_total(rows@.take(i as int))
            } else {
                0
            }),
            decs_total(credits(lines@)) == decs_total(credits(orig)) + (if is_debit {
                0
            } else {
                amounts_total(rows@.take(i as int))
            }),
            decs_abs(debits(lines@)) == decs_abs(debits(orig)) + (if is_debit {
                amounts_abs(rows@.take(i as int))
            } else {
                0
            }),
            decs_abs(credits(lines@)) == decs_abs(credits(orig)) + (if is_debit {
                0
            } else {
                amounts_abs(rows@.take(i as int))
            }),
            decs_money(debits(orig)) && decs_money(credits(orig)) && amounts_money(rows@)
                ==> decs_money(debits(lines@)) && decs_money(credits(lines@)),
        decreases n - i,
    {
        assert(rows@[i as int].amount.wf());
        let l = amount_post_line(rows[i], is_debit, description);
        let ghost before = lines@;
        lines.push(l);
        proof {
            assert(debits(lines@) =~= debits(before).push(l.debit));
            assert(credits(lines@) =~= credits(before).push(l.credit));
            assert(debits(before).push(l.debit).drop_last() =~= debits(before));
            assert(credits(before).push(l.credit).drop_last() =~= credits(before));
            assert(rows@.take(i + 1).drop_last() =~= rows@.take(i as int));
            assert(rows@.take(i + 1).last() == rows@[i as int]);
            crate::dec::lemma_pow10_28();
            assert((Dec { mantissa: 0, scale: 0 }).units() == 0);
            if decs_money(debits(orig)) && decs_money(credits(orig)) && amounts_money(rows@) {
                assert(rows@[i as int].amount.scale <= 2);
                assert forall|t: int| 0 <= t < lines@.len() implies (#[trigger] debits(lines@)[t]).scale
                    <= 2 by {
                    if t < before.len() {
                        assert(debits(lines@)[t] == debits(before)[t]);
                    }
                }
                assert forall|t: int| 0 <= t < lines@.len() implies (#[trigger] credits(lines@)[t]).scale
                    <= 2 by {
                    if t < before.len() {
                        assert(credits(lines@)[t] == credits(before)[t]);
                    }
                }
            }
        }
        i = i + 1;
    }
    assert(rows@.take(n as int) =~= rows@);
}

/// A sales invoice's header as its post reads it.
pub struct ArHeader {
    pub invoice_number: String,
    pub company_id: u128,
    pub branch_id: Option<u128>,
    pub customer_id: u128,
    pub receivable_account_id: u128,
    pub posting_date: Date,
    pub currency: String,
    pub grand_total: Dec,
}

/// A purchase invoice's header as its post reads it.
pub struct ApHeader {
    pub invoice_number: String,
    pub company_id: u128,
    pub branch_id: Option<u128>,
    pub supplier_id: u128,
    pub payable_account_id: u128,
    pub posting_date: Date,
    pub currency: String,
    pub grand_total: Dec,
}

/// The envelope's own fields (all but its lines) read as given.
pub open spec fn envelope_is(
    env: PostEnvelope,
    key: Seq<char>,
    company_id: u128,
    branch_id: Option<u128>,
    source_type: Seq<char>,
    source_id: u128,
    source_reference: Option<Seq<char>>,
    posting_date: Date,
    currency: Seq<char>,
    posting_type: Seq<char>,
    reverses_post_id: Option<u128>,
    description: Option<Seq<char>>,
) -> bool {
    &&& env.idempotency_key@ == key
    &&& env.company_id == company_id
    &&& env.branch_id == branch_id
    &&& env.source_type@ == source_type
    &&& env.source_id == source_id
    &&& opt_text(env.source_reference) == source_reference
    &&& env.posting_date == posting_date
    &&& env.currency@ == currency
    &&& env.posting_type@ == posting_type
    &&& env.reverses_post_id == reverses_post_id
    &&& opt_text(env.description) == description
}

/// `env` is the revenue post of sales invoice `invoice_id`: keyed and sourced by the invoice
/// ("order"), `Dr A/R (grand) [customer]`, then `Cr Revenue` per account of `revenue` summed and in
/// ascending account order, then `Cr PPN Output` per output tax row.
pub open spec fn ar_post_is(
    env: PostEnvelope,
    invoice_id: u128,
    h: ArHeader,
    revenue: Seq<AccountAmount>,
    tax: Seq<AccountAmount>,
) -> bool {
    let lines = env.lines@;
    &&& envelope_is(
        env,
        uuid_display(invoice_id),
        h.company_id,
        h.branch_id,
        "order"@,
        invoice_id,
        Some(h.invoice_number@),
        h.posting_date,
        h.currency@,
        "original"@,
        None,
        Some("Sales invoice"@),
    )
    &&& exists|g: Seq<AccountAmount>|
        #[trigger] grouped(revenue, g) && lines.len() == 1 + g.len() + tax.len() && line_is(
            lines[0],
            h.receivable_account_id,
            h.grand_total,
            zero(),
            Some(("customer"@, h.customer_id)),
            "A/R "@ + h.invoice_number@,
        ) && amount_lines(lines, 1, g, false, "Revenue"@) && amount_lines(
            lines,
            1 + g.len() as int,
            tax,
            false,
            "PPN Output"@,
        )
}

/// `env` is the payable post of purchase invoice `invoice_id`: keyed and sourced by the invoice
/// ("expense"), `Dr Expense/GR-IR` per account of `expense` summed and in ascending account order,
/// `Dr PPN Input` per input tax row, `Cr A/P (grand) [supplier]`, then `Cr PPh Payable` per
/// withholding row.
pub open spec fn ap_post_is(
    env: PostEnvelope,
    invoice_id: u128,
    h: ApHeader,
    expense: Seq<AccountAmount>,
    input: Seq<AccountAmount>,
    wht: Seq<AccountAmount>,
) -> bool {
    let lines = env.lines@;
    &&& envelope_is(
        env,
        uuid_display(invoice_id),
        h.company_id,
        h.branch_id,
        "expense"@,
        invoice_id,
        Some(h.invoice_number@),
        h.posting_date,
        h.currency@,
        "original"@,
        None,
        Some("Purchase invoice"@),
    )
    &&& exists|g: Seq<AccountAmount>|
        #[trigger] grouped(expense, g) && lines.len() == g.len() + input.len() + 1 + wht.len()
            && amount_lines(lines, 0, g, true, "Expense/GR-IR"@) && amount_lines(
            lines,
            g.len() as int,
            input,
            true,
            "PPN Input"@,
        ) && line_is(
            lines[g.len() + input.len() as int],
            h.payable_account_id,
            zero(),
            h.grand_total,
            Some(("supplier"@, h.supplier_id)),
            "A/P "@ + h.invoice_number@,
        ) && amount_lines(lines, g.len() + input.len() as int + 1, wht, false, "PPh Payable"@)
}

/// The sales post's amounts have at most two fractional digits and lie far enough inside the
/// decimal range for every sum of the post to be exact.
pub open spec fn ar_post_fits(h: ArHeader, revenue: Seq<AccountAmount>, tax: Seq<AccountAmount>) -> bool {
    &&& h.grand_total.scale <= 2
    &&& amounts_money(revenue)
    &&& amounts_money(tax)
    &&& abs_int(h.grand_total.units()) <= room(2)
    &&& amounts_abs(revenue) + amounts_abs(tax) <= room(2)
}

/// The purchase post's amounts have at most two fractional digits and lie far enough inside the
/// decimal range for every sum of the post to be exact.
pub open spec fn ap_post_fits(
    h: ApHeader,
    expense: Seq<AccountAmount>,
    input: Seq<AccountAmount>,
    wht: Seq<AccountAmount>,
) -> bool {
    &&& h.grand_total.scale <= 2
    &&& amounts_money(expense)
    &&& amounts_money(input)
    &&& amounts_money(wht)
    &&& amounts_abs(expense) + amounts_abs(input) <= room(2)
    &&& abs_int(h.grand_total.units()) + amounts_abs(wht) <= room(2)
}

proof fn lemma_single_line_totals(x: Dec)
    ensures
        decs_total(seq![x]) == x.units(),
        decs_abs(seq![x]) == abs_int(x.units()),
{
    assert(seq![x].drop_last() =~= Seq::<Dec>::empty());
    assert(decs_total(Seq::<Dec>::empty()) == 0);
    assert(decs_abs(Seq::<Dec>::empty()) == 0);
    assert(seq![x].last() == x);
}

/// Build the balanced revenue post of sales invoice `invoice_id` from its header, its lines' nets
/// on their revenue accounts and its output tax lines. `None` where a decimal sum leaves its range.
/// Where the amounts are at money precision and well inside the range ([`ar_post_fits`]), the post
/// is returned exactly when the grand total is the nets plus the output tax, and refused as
/// unbalanced otherwise.
pub fn try_build_ar_post(
    invoice_id: u128,
    h: &ArHeader,
    revenue: &[AccountAmount],
    tax: &[AccountAmount],
) -> (r: Option<Result<PostEnvelope, BillingError>>)
    requires
        h.grand_total.wf(),
        amounts_wf(revenue@),
        amounts_wf(tax@),
    ensures
        h.currency@ != "IDR"@ ==> (r matches Some(Err(BillingError::UnsupportedCurrency(c))) && c@
            == h.currency@),
        h.currency@ == "IDR"@ && !group_fits(revenue@) ==> r is None,
        h.currency@ == "IDR"@ && group_fits(revenue@) ==> exists|env: PostEnvelope|
            #[trigger] ar_post_is(env, invoice_id, *h, revenue@, tax@) && r == checked_outcome(env),
        h.currency@ == "IDR"@ && ar_post_fits(*h, revenue@, tax@) ==> (r is Some && (r matches Some(
            Ok(_),
        ) <==> h.grand_total.units() == amounts_total(revenue@) + amounts_total(tax@))),
{
    let ghost fits = ar_post_fits(*h, revenue@, tax@);
    if !str_eq(h.currency.as_str(), "IDR") {
        return Some(Err(BillingError::UnsupportedCurrency(h.currency.clone())));
    }
    proof {
        lemma_amounts_bounds(tax@);
        lemma_amounts_bounds(revenue@);
    }
    let g = match group_by_account(revenue) {
        None => {
            return None;
        },
        Some(g) => g,
    };
    let mut lines: Vec<PostLine> = Vec::new();
    lines.push(
        PostLine {
            account_id: h.receivable_account_id,
            debit: h.grand_total,
            credit: Dec::zero(),
            party_type: Some("customer".to_string()),
            party_id: Some(h.customer_id),
            description: Some("A/R ".to_string().concat(h.invoice_number.as_str())),
        },
    );
    let ghost first = lines@[0];
    proof {
        assert(debits(lines@) =~= seq![h.grand_total]);
        assert(credits(lines@) =~= seq![Dec { mantissa: 0, scale: 0 }]);
        lemma_single_line_totals(h.grand_total);
        lemma_single_line_totals(Dec { mantissa: 0, scale: 0 });
        crate::dec::lemma_pow10_28();
        assert((Dec { mantissa: 0, scale: 0 }).units() == 0);
    }
    push_amount_lines(&mut lines, g.as_slice(), false, "Revenue");
    push_amount_lines(&mut lines, tax, false, "PPN Output");
    proof {
        if fits {
            lemma_amounts_bounds(g@);
            lemma_amounts_bounds(tax@);
            assert(post_fits(lines@));
        }
    }
    let env = PostEnvelope {
        idempotency_key: uuid_text(invoice_id),
        company_id: h.company_id,
        branch_id: h.branch_id,
        source_type: "order".to_string(),
        source_id: invoice_id,
        source_reference: Some(h.invoice_number.clone()),
        posting_date: h.posting_date,
        currency: h.currency.clone(),
        posting_type: "original".to_string(),
        reverses_post_id: None,
        description: Some("Sales invoice".to_string()),
        lines,
    };
    assert(grouped(revenue@, g@));
    assert(ar_post_is(env, invoice_id, *h, revenue@, tax@));
    checked_post(env)
}

/// The output of [`try_build_ar_post`] where its decimal sums stay in range: the revenue post, or
/// `UnsupportedCurrency` for a currency other than IDR, or `UnbalancedPost`.
pub fn build_ar_post(invoice_id: u128, h: &ArHeader, revenue: &[AccountAmount], tax: &[AccountAmount]) -> (r: Result<
    PostEnvelope,
    BillingError,
>)
    requires
        h.grand_total.wf(),
        amounts_wf(revenue@),
        amounts_wf(tax@),
        h.currency@ == "IDR"@ ==> group_fits(revenue@) && forall|env: PostEnvelope|
            #[trigger] ar_post_is(env, invoice_id, *h, revenue@, tax@) ==> post_totals(env.lines@) is Some,
    ensures
        h.currency@ != "IDR"@ ==> (r matches Err(BillingError::UnsupportedCurrency(c)) && c@
            == h.currency@),
        h.currency@ == "IDR"@ ==> exists|env: PostEnvelope|
            #[trigger] ar_post_is(env, invoice_id, *h, revenue@, tax@) && Some(r) == checked_outcome(env),
        h.currency@ == "IDR"@ && ar_post_fits(*h, revenue@, tax@) ==> (r matches Ok(_) <==> h.grand_total.units()
            == amounts_total(revenue@) + amounts_total(tax@)),
{
    let r = try_build_ar_post(invoice_id, h, revenue, tax);
    proof {
        if h.currency@ == "IDR"@ {
            let env = choose|env: PostEnvelope|
                #[trigger] ar_post_is(env, invoice_id, *h, revenue@, tax@) && r == checked_outcome(env);
            assert(post_totals(env.lines@) is Some);
        }
    }
    r.unwrap()
}


/// Build the balanced payable post of purchase invoice `invoice_id` from its header, its lines'
/// nets on their expense accounts, and its input and withholding tax lines. `None` where a decimal
/// sum leaves its range. Where the amounts are at money precision and well inside the range
/// ([`ap_post_fits`]), the post is returned exactly when the nets plus the input tax equal the
/// grand total plus the withholding, and refused as unbalanced otherwise.
pub fn try_build_ap_post(
    invoice_id: u128,
    h: &ApHeader,
    expense: &[AccountAmount],
    input: &[AccountAmount],
    wht: &[AccountAmount],
) -> (r: Option<Result<PostEnvelope, BillingError>>)
    requires
        h.grand_total.wf(),
        amounts_wf(expense@),
        amounts_wf(input@),
        amounts_wf(wht@),
    ensures
        h.currency@ != "IDR"@ ==> (r matches Some(Err(BillingError::UnsupportedCurrency(c))) && c@
            == h.currency@),
        h.currency@ == "IDR"@ && !group_fits(expense@) ==> r is None,
        h.currency@ == "IDR"@ && group_fits(expense@) ==> exists|env: PostEnvelope|
            #[trigger] ap_post_is(env, invoice_id, *h, expense@, input@, wht@) && r == checked_outcome(
                env,
            ),
        h.currency@ == "IDR"@ && ap_post_fits(*h, expense@, input@, wht@) ==> (r is Some && (r matches Some(
            Ok(_),
        ) <==> amounts_total(expense@) + amounts_total(input@) == h.grand_total.units()
            + amounts_total(wht@))),
{
    let ghost fits = ap_post_fits(*h, expense@, input@, wht@);
    if !str_eq(h.currency.as_str(), "IDR") {
        return Some(Err(BillingError::UnsupportedCurrency(h.currency.clone())));
    }
    proof {
        lemma_amounts_bounds(expense@);
        lemma_amounts_bounds(input@);
        lemma_amounts_bounds(wht@);
        crate::dec::lemma_pow10_28();
        assert((Dec { mantissa: 0, scale: 0 }).units() == 0);
        assert(debits(Seq::<PostLine>::empty()) =~= Seq::<Dec>::empty());
        assert(credits(Seq::<PostLine>::empty()) =~= Seq::<Dec>::empty());
    }
    let g = match group_by_account(expense) {
        None => {
            return None;
        },
        Some(g) => g,
    };
    let mut lines: Vec<PostLine> = Vec::new();
    push_amount_lines(&mut lines, g.as_slice(), true, "Expense/GR-IR");
    push_amount_lines(&mut lines, input, true, "PPN Input");
    let ghost before = lines@;
    let ap_line = PostLine {
        account_id: h.payable_account_id,
        debit: Dec::zero(),
        credit: h.grand_total,
        party_type: Some("supplier".to_string()),
        party_id: Some(h.supplier_id),
        description: Some("A/P ".to_string().concat(h.invoice_number.as_str())),
    };
    proof {
        assert(debits(before.push(ap_line)) =~= debits(before).push(Dec { mantissa: 0, scale: 0 }));
        assert(credits(before.push(ap_line)) =~= credits(before).push(h.grand_total));
        assert(debits(before).push(Dec { mantissa: 0, scale: 0 }).drop_last() =~= debits(before));
        assert(credits(before).push(h.grand_total).drop_last() =~= credits(before));
        if fits {
            lemma_amounts_bounds(g@);
            assert forall|t: int| 0 <= t < before.len() + 1 implies (#[trigger] debits(
                before.push(ap_line),
            )[t]).scale <= 2 by {
                if t < before.len() {
                    assert(debits(before.push(ap_line))[t] == debits(before)[t]);
                }
            }
            assert forall|t: int| 0 <= t < before.len() + 1 implies (#[trigger] credits(
                before.push(ap_line),
            )[t]).scale <= 2 by {
                if t < before.len() {
                    assert(credits(before.push(ap_line))[t] == credits(before)[t]);
                }
            }
        }
    }
    lines.push(ap_line);
    assert forall|t: int| #![trigger g@[t]] 0 <= t < g@.len() implies amount_line(lines@[0 + t], g@[t], true, "Expense/GR-IR"@) by {
        assert(lines@[0 + t] == before[0 + t]);
    }
    assert forall|t: int| #![trigger input@[t]] 0 <= t < input@.len() implies amount_line(lines@[g@.len() + t], input@[t], true, "PPN Input"@) by {
        assert(lines@[g@.len() + t] == before[g@.len() + t]);
    }
    push_amount_lines(&mut lines, wht, false, "PPh Payable");
    proof {
        if fits {
            assert(post_fits(lines@));
        }
    }
    let env = PostEnvelope {
        idempotency_key: uuid_text(invoice_id),
        company_id: h.company_id,
        branch_id: h.branch_id,
        source_type: "expense".to_string(),
        source_id: invoice_id,
        source_reference: Some(h.invoice_number.clone()),
        posting_date: h.posting_date,
        currency: h.currency.clone(),
        posting_type: "original".to_string(),
        reverses_post_id: None,
        description: Some("Purchase invoice".to_string()),
        lines,
    };
    assert(grouped(expense@, g@));
    assert(ap_post_is(env, invoice_id, *h, expense@, input@, wht@));
    checked_post(env)
}

/// The output of [`try_build_ap_post`] where its decimal sums stay in range: the payable post, or
/// `UnsupportedCurrency` for a currency other than IDR, or `UnbalancedPost`.
pub fn build_ap_post(
    invoice_id: u128,
    h: &ApHeader,
    expense: &[AccountAmount],
    input: &[AccountAmount],
    wht: &[AccountAmount],
) -> (r: Result<PostEnvelope, BillingError>)
    requires
        h.grand_total.wf(),
        amounts_wf(expense@),
        amounts_wf(input@),
        amounts_wf(wht@),
        h.currency@ == "IDR"@ ==> group_fits(expense@) && forall|env: PostEnvelope|
            #[trigger] ap_post_is(env, invoice_id, *h, expense@, input@, wht@) ==> post_totals(
                env.lines@,
            ) is Some,
    ensures
        h.currency@ != "IDR"@ ==> (r matches Err(BillingError::UnsupportedCurrency(c)) && c@
            == h.currency@),
        h.currency@ == "IDR"@ ==> exists|env: PostEnvelope|
            #[trigger] ap_post_is(env, invoice_id, *h, expense@, input@, wht@) && Some(r)
                == checked_outcome(env),
        h.currency@ == "IDR"@ && ap_post_fits(*h, expense@, input@, wht@) ==> (r matches Ok(_) <==> amounts_total(
            expense@,
        ) + amounts_total(input@) == h.grand_total.units() + amounts_total(wht@)),
{
    let r = try_build_ap_post(invoice_id, h, expense, input, wht);
    proof {
        if h.currency@ == "IDR"@ {
            let env = choose|env: PostEnvelope|
                #[trigger] ap_post_is(env, invoice_id, *h, expense@, input@, wht@) && r
                    == checked_outcome(env);
            assert(post_totals(env.lines@) is Some);
        }
    }
    r.unwrap()
}

/// The text a credit note gives a forward description: `"Credit note: "` before it.
pub open spec fn credit_note_text(d: Option<Seq<char>>) -> Option<Seq<char>> {
    match d {
        Some(t) => Some("Credit note: "@ + t),
        None => None,
    }
}

/// Line `n` is line `f` with debit and credit swapped and its description marked as a credit note.
pub open spec fn flipped_line(n: PostLine, f: PostLine) -> bool {
    &&& n.account_id == f.account_id
    &&& n.debit == f.credit
    &&& n.credit == f.debit
    &&& opt_text(n.party_type) == opt_text(f.party_type)
    &&& n.party_id == f.party_id
    &&& opt_text(n.description) == credit_note_text(opt_text(f.description))
}

/// The lines of `n` are those of `f`, each flipped.
pub open spec fn flipped_lines(n: Seq<PostLine>, f: Seq<PostLine>) -> bool {
    &&& n.len() == f.len()
    &&& forall|i: int| 0 <= i < n.len() ==> flipped_line(#[trigger] n[i], f[i])
}

/// `env` is the credit note of forward post `fwd` for invoice `invoice_id`: keyed
/// `reversal:<invoice>`, a "reversal" of `orig_post`, its description and lines those of `fwd`
/// flipped, all else as `fwd`.
pub open spec fn credit_note_is(
    env: PostEnvelope,
    fwd: PostEnvelope,
    invoice_id: u128,
    orig_post: Option<u128>,
) -> bool {
    &&& envelope_is(
        env,
        "reversal:"@ + uuid_display(invoice_id),
        fwd.company_id,
        fwd.branch_id,
        fwd.source_type@,
        fwd.source_id,
        opt_text(fwd.source_reference),
        fwd.posting_date,
        fwd.currency@,
        "reversal"@,
        orig_post,
        credit_note_text(opt_text(fwd.description)),
    )
    &&& flipped_lines(env.lines@, fwd.lines@)
}

/// Flipping a post's lines swaps its debit and credit totals, so the credit note of a balanced post
/// balances.
pub proof fn law_credit_note_balances(note: Seq<PostLine>, fwd: Seq<PostLine>)
    requires
        flipped_lines(note, fwd),
    ensures
        post_totals(fwd) matches Some(t) ==> post_totals(note) == Some((t.1, t.0)),
        post_totals(fwd) is Some <==> post_totals(note) is Some,
        balanced(fwd) <==> balanced(note),
{
    assert(debits(note) =~= credits(fwd)) by {
        assert forall|i: int| 0 <= i < note.len() implies debits(note)[i] == credits(fwd)[i] by {
            assert(flipped_line(note[i], fwd[i]));
        }
    }
    assert(credits(note) =~= debits(fwd)) by {
        assert forall|i: int| 0 <= i < note.len() implies credits(note)[i] == debits(fwd)[i] by {
            assert(flipped_line(note[i], fwd[i]));
        }
    }
}

fn clone_text(o: &Option<String>) -> (r: Option<String>)
    ensures
        opt_text(r) == opt_text(*o),
{
    match o {
        Some(s) => Some(s.clone()),
        None => None,
    }
}

fn credit_note_description(o: &Option<String>) -> (r: Option<String>)
    ensures
        opt_text(r) == credit_note_text(opt_text(*o)),
{
    match o {
        Some(s) => Some("Credit note: ".to_string().concat(s.as_str())),
        None => None,
    }
}

/// The credit note of a posted sales invoice: its forward post with debits and credits swapped,
/// keyed `reversal:<invoice>` and linked to the original post. `None` where a decimal sum leaves
/// its range; `UnbalancedPost` where the flipped post does not balance, which a balanced forward
/// post never gives.
pub fn credit_note(fwd: &PostEnvelope, invoice_id: u128, orig_post: Option<u128>) -> (r: Option<
    Result<PostEnvelope, BillingError>,
>)
    requires
        lines_wf(fwd.lines@),
    ensures
        exists|env: PostEnvelope|
            #[trigger] credit_note_is(env, *fwd, invoice_id, orig_post) && r == checked_outcome(env),
        balanced(fwd.lines@) ==> r matches Some(Ok(_)),
{
    let n = fwd.lines.len();
    let mut lines: Vec<PostLine> = Vec::new();
    let mut i: usize = 0;
    while i < n
        invariant
            n == fwd.lines@.len(),
            0 <= i <= n,
            lines@.len() == i,
            lines_wf(fwd.lines@),
            forall|j: int| 0 <= j < i ==> flipped_line(#[trigger] lines@[j], fwd.lines@[j]),
            lines_wf(lines@),
        decreases n - i,
    {
        let l = &fwd.lines[i];
        let flipped = PostLine {
            account_id: l.account_id,
            debit: l.credit,
            credit: l.debit,
            party_type: clone_text(&l.party_type),
            party_id: l.party_id,
            description: credit_note_description(&l.description),
        };
        lines.push(flipped);
        i = i + 1;
    }
    let env = PostEnvelope {
        idempotency_key: "reversal:".to_string().concat(uuid_text(invoice_id).as_str()),
        company_id: fwd.company_id,
        branch_id: fwd.branch_id,
        source_type: fwd.source_type.clone(),
        source_id: fwd.source_id,
        source_reference: clone_text(&fwd.source_reference),
        posting_date: fwd.posting_date,
        currency: fwd.currency.clone(),
        posting_type: "reversal".to_string(),
        reverses_post_id: orig_post,
        description: credit_note_description(&fwd.description),
        lines,
    };
    assert(credit_note_is(env, *fwd, invoice_id, orig_post));
    proof {
        law_credit_note_balances(env.lines@, fwd.lines@);
    }
    checked_post(env)
}

/// An invoice's persisted posting state.
pub struct PostingStateRow {
    pub posting_state: String,
    pub journal_id: Option<u128>,
    pub accounting_post_id: Option<u128>,
}

/// The result of posting an invoice: the post and journal the ledger made, and whether the call
/// reused an earlier post.
#[derive(Debug, Clone, Copy, PartialEq, Eq, Structural)]
pub struct PostOutcome {
    pub invoice_id: u128,
    pub post_id: u128,
    pub journal_id: u128,
    pub idempotent_reuse: bool,
}

/// The outcome an already-posted invoice answers with: when its state is "posted" and both its
/// journal and its post are recorded, that post, marked as reused; otherwise none.
pub fn posted_outcome(invoice_id: u128, row: &PostingStateRow) -> (r: Option<PostOutcome>)
    ensures
        r == (if row.posting_state@ == "posted"@ && row.journal_id is Some
            && row.accounting_post_id is Some {
            Some(
                PostOutcome {
                    invoice_id,
                    post_id: row.accounting_post_id.unwrap(),
                    journal_id: row.journal_id.unwrap(),
                    idempotent_reuse: true,
                },
            )
        } else {
            None
        }),
{
    if str_eq(row.posting_state.as_str(), "posted") {
        match (row.journal_id, row.accounting_post_id) {
            (Some(j), Some(p)) => {
                return Some(
                    PostOutcome { invoice_id, post_id: p, journal_id: j, idempotent_reuse: true },
                );
            },
            _ => {},
        }
    }
    None
}

/// The rows an invoice's lines book on their revenue (or expense) accounts: each line's net.
pub open spec fn net_rows(lines: Seq<NewInvoiceLine>) -> Seq<AccountAmount> {
    Seq::new(
        lines.len(),
        |i: int| AccountAmount { account_id: lines[i].account_id, amount: line_nets(lines)[i] },
    )
}

/// The rows an invoice's tax lines of one basis book: each amount on its tax account, in order.
pub open spec fn basis_rows(tax: Seq<NewTaxLine>, basis: Seq<char>) -> Seq<AccountAmount>
    decreases tax.len(),
{
    if tax.len() == 0 {
        Seq::empty()
    } else {
        let prev = basis_rows(tax.drop_last(), basis);
        if tax.last().basis@ == basis {
            prev.push(AccountAmount { account_id: tax.last().account_id, amount: tax.last().tax_amount })
        } else {
            prev
        }
    }
}

proof fn lemma_net_rows_total(lines: Seq<NewInvoiceLine>)
    ensures
        amounts_total(net_rows(lines)) == decs_total(line_nets(lines)),
    decreases lines.len(),
{
    if lines.len() > 0 {
        let d = lines.drop_last();
        lemma_net_rows_total(d);
        assert(net_rows(lines).drop_last() =~= net_rows(d));
        assert(line_nets(lines).drop_last() =~= line_nets(d));
    }
}

proof fn lemma_basis_rows_total(tax: Seq<NewTaxLine>, basis: Seq<char>)
    ensures
        amounts_total(basis_rows(tax, basis)) == basis_units(tax, basis),
    decreases tax.len(),
{
    if tax.len() > 0 {
        let prev = basis_rows(tax.drop_last(), basis);
        lemma_basis_rows_total(tax.drop_last(), basis);
        if tax.last().basis@ == basis {
            lemma_amounts_push(
                prev,
                AccountAmount { account_id: tax.last().account_id, amount: tax.last().tax_amount },
            );
        }
    }
}

/// A sales invoice posts balanced from what it was created with: when its grand total is its line
/// nets plus its output tax amounts (as the draft's is, where the amounts fit), the lines' nets on
/// their revenue accounts and the output tax lines on their tax accounts add up to that grand
/// total, so the revenue post built from them balances.
pub proof fn law_sales_draft_posts_balanced(lines: Seq<NewInvoiceLine>, tax: Seq<NewTaxLine>, grand: Dec)
    requires
        grand.units() == decs_total(line_nets(lines)) + basis_units(tax, "output"@),
    ensures
        grand.units() == amounts_total(net_rows(lines)) + amounts_total(basis_rows(tax, "output"@)),
{
    lemma_net_rows_total(lines);
    lemma_basis_rows_total(tax, "output"@);
}

/// A purchase invoice posts balanced from what it was created with: when its grand total is its
/// line nets plus its input tax less its withholding (as the draft's is, where the amounts fit),
/// the nets and the input tax rows on the debit side equal the grand total and the withholding rows
/// on the credit side, so the payable post built from them balances.
pub proof fn law_purchase_draft_posts_balanced(lines: Seq<NewInvoiceLine>, tax: Seq<NewTaxLine>, grand: Dec)
    requires
        grand.units() == decs_total(line_nets(lines)) + basis_units(tax, "input"@) - basis_units(
            tax,
            "withholding"@,
        ),
    ensures
        amounts_total(net_rows(lines)) + amounts_total(basis_rows(tax, "input"@)) == grand.units()
            + amounts_total(basis_rows(tax, "withholding"@)),
{
    lemma_net_rows_total(lines);
    lemma_basis_rows_total(tax, "input"@);
    lemma_basis_rows_total(tax, "withholding"@);
}

} // verus!
