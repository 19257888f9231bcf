//! Payment terms: how a term's lines become an invoice's due dates and installment amounts.
//!
//! `line_due_date` resolves one slice's due date from the posting date; `validate_term` checks a
//! term's shape when it is created; `derive_schedule` turns term lines, a posting date and an
//! invoice total into the installment slices, same-date slices collapsed, the balance (and any
//! rounding remainder) carried by the last one.
use vstd::prelude::*;

use crate::calendar::add_days;
use crate::calendar::add_months;
use crate::calendar::chrono_days_later;
use crate::calendar::days_in_month;
use crate::calendar::lemma_days_in_month_valid;
use crate::calendar::spec_add_months;
use crate::calendar::spec_days_in_month;
use crate::calendar::valid_ymd;
use crate::calendar::Date;
use crate::dec::checked_add;
use crate::dec::checked_div;
use crate::dec::checked_mul;
use crate::dec::checked_sub;
use crate::dec::decimal_checked_add;
use crate::dec::decimal_checked_div;
use crate::dec::decimal_checked_mul;
use crate::dec::decimal_checked_sub;
use crate::dec::abs_int;
use crate::dec::lemma_add_fits_in_room;
use crate::dec::lemma_room_mono;
use crate::dec::room;
use crate::dec::lt;
use crate::dec::money;
use crate::dec::spec_money;
use crate::dec::Dec;
use crate::error::term_err;
use crate::error::reports;
use crate::error::BillingError;
use crate::error::Fault;
use crate::text::blank;
use crate::text::is_blank;
use crate::text::str_eq;

verus! {

broadcast use vstd::string::group_string_axioms;

/// One slice of a term's installment shape, as the schedule derivation consumes it. The enum
/// columns arrive as their text.
pub struct TermLineRow {
    /// The line's 128-bit UUID.
    pub id: u128,
    /// "balance" | "percent" | "fixed"
    pub value: String,
    pub value_amount: Dec,
    pub nb_days: i32,
    pub day_of_month: Option<i32>,
    /// "days" | "day_following_month" | "day_current_month"
    pub delay_type: String,
    /// "invoice_date" | "end_of_invoice_month"
    pub anchor: String,
    pub sequence: i32,
}

/// One term slice as the create API receives it.
pub struct NewTermLine {
    pub value: String,
    pub value_amount: Dec,
    pub nb_days: i32,
    pub day_of_month: Option<i32>,
    pub delay_type: String,
    pub anchor: String,
    pub sequence: i32,
}

/// The anchor a slice counts from: the posting date, or the last day of its month.
pub open spec fn spec_anchor(line: TermLineRow, pd: Date) -> Date {
    if line.anchor@ == "end_of_invoice_month"@ {
        Date {
            year: pd.year,
            month: pd.month,
            day: spec_days_in_month(pd.year as int, pd.month as int) as u32,
        }
    } else {
        pd
    }
}

/// The `day_of_month` of the month `months` after the anchor's, clamped to that month's length.
pub open spec fn day_shaped(anchor: Date, dom: i32, months: int) -> Option<Date> {
    match spec_add_months(anchor, months) {
        None => None,
        Some(s) => {
            let dim = spec_days_in_month(s.year as int, s.month as int);
            let want = (dom as u32) as int;
            let d = if want <= dim {
                want
            } else {
                dim
            };
            if valid_ymd(s.year as int, s.month as int, d) {
                Some(Date { year: s.year, month: s.month, day: d as u32 })
            } else {
                None
            }
        },
    }
}

/// A slice's due date:
/// - `days`: anchor + `nb_days` calendar days;
/// - `day_current_month`: the `day_of_month` of the anchor month, `nb_days` months on;
/// - `day_following_month`: the `day_of_month` of the month after the anchor's, `nb_days` months on;
/// day-shaped dates clamp to the month's last day; `None` for any other delay, a missing
/// `day_of_month`, or a date out of range.
pub open spec fn spec_line_due_date(line: TermLineRow, pd: Date) -> Option<Date> {
    let anchor = spec_anchor(line, pd);
    let months = if line.nb_days < 0 {
        0
    } else {
        line.nb_days as int
    };
    if line.delay_type@ == "days"@ {
        chrono_days_later(anchor, line.nb_days as int)
    } else if line.delay_type@ == "day_current_month"@ {
        match line.day_of_month {
            Some(dom) => day_shaped(anchor, dom, months),
            None => None,
        }
    } else if line.delay_type@ == "day_following_month"@ {
        match line.day_of_month {
            Some(dom) => day_shaped(anchor, dom, months + 1),
            None => None,
        }
    } else {
        None
    }
}

/// A day-shaped slice falls due in the month `nb_days` months (never fewer than none) after the
/// posting date's month (`day_current_month`), or one month later still (`day_following_month`),
/// whichever anchor it counts from (the posting date or the end of its month): on its day of the
/// month, or that month's last day where the month is shorter.
pub proof fn law_day_shaped_due_date(line: TermLineRow, pd: Date)
    requires
        pd.valid(),
        line.day_of_month matches Some(dom) && 1 <= dom <= 31,
        line.delay_type@ == "day_current_month"@ || line.delay_type@ == "day_following_month"@,
    ensures
        spec_line_due_date(line, pd) matches Some(d) ==> {
            let months = (if line.nb_days < 0 {
                0
            } else {
                line.nb_days as int
            }) + (if line.delay_type@ == "day_following_month"@ {
                1int
            } else {
                0int
            });
            let dom = line.day_of_month->0 as int;
            &&& 1 <= d.month <= 12
            &&& d.year * 12 + (d.month - 1) == pd.year * 12 + (pd.month - 1) + months
            &&& d.day == (if dom <= crate::calendar::month_len(d.year as int, d.month as int) {
                dom
            } else {
                crate::calendar::month_len(d.year as int, d.month as int)
            })
        },
{
    reveal_strlit("days");
    reveal_strlit("day_current_month");
    reveal_strlit("day_following_month");
    assert("days"@.len() != "day_current_month"@.len());
    assert("days"@.len() != "day_following_month"@.len());
    assert("day_current_month"@[4] != "day_following_month"@[4]);
    let anchor = spec_anchor(line, pd);
    assert(anchor.year == pd.year && anchor.month == pd.month);
    let k = (if line.nb_days < 0 {
        0
    } else {
        line.nb_days as int
    }) + (if line.delay_type@ == "day_following_month"@ {
        1int
    } else {
        0int
    });
    let t = anchor.year * 12 + (anchor.month - 1) + k;
    vstd::arithmetic::div_mod::lemma_fundamental_div_mod(t, 12);
    if spec_line_due_date(line, pd) is Some {
        let d = spec_line_due_date(line, pd)->0;
        assert(spec_line_due_date(line, pd) == day_shaped(anchor, line.day_of_month->0, k));
        let s = spec_add_months(anchor, k)->0;
        assert(s.year == t / 12 && s.month == t % 12 + 1);
        assert(d.year == s.year && d.month == s.month);
        assert(valid_ymd(d.year as int, d.month as int, d.day as int));
        assert(spec_days_in_month(d.year as int, d.month as int) == crate::calendar::month_len(
            d.year as int,
            d.month as int,
        ));
    }
}

fn day_shaped_due(anchor: Date, dom: i32, months: u32) -> (r: Option<Date>)
    requires
        anchor.valid(),
    ensures
        r == day_shaped(anchor, dom, months as int),
        r matches Some(d) ==> d.valid(),
{
    #[verifier::truncate]
    let want = dom as u32;
    match add_months(anchor, months) {
        None => None,
        Some(s) => {
            let dim = days_in_month(s.year, s.month);
            let d = if want <= dim {
                want
            } else {
                dim
            };
            Date::from_ymd(s.year, s.month, d)
        },
    }
}

/// Resolve one slice's due date from the invoice's posting date.
pub fn line_due_date(line: &TermLineRow, posting_date: Date) -> (r: Option<Date>)
    requires
        posting_date.valid(),
    ensures
        r == spec_line_due_date(*line, posting_date),
        r matches Some(d) ==> d.valid(),
{
    let anchor = if str_eq(line.anchor.as_str(), "end_of_invoice_month") {
        let dim = days_in_month(posting_date.year, posting_date.month);
        proof {
            lemma_days_in_month_valid(posting_date.year as int, posting_date.month as int);
        }
        Date { year: posting_date.year, month: posting_date.month, day: dim }
    } else {
        posting_date
    };
    let months: u32 = if line.nb_days < 0 {
        0
    } else {
        line.nb_days as u32
    };
    if str_eq(line.delay_type.as_str(), "days") {
        add_days(anchor, line.nb_days)
    } else if str_eq(line.delay_type.as_str(), "day_current_month") {
        match line.day_of_month {
            Some(dom) => day_shaped_due(anchor, dom, months),
            None => None,
        }
    } else if str_eq(line.delay_type.as_str(), "day_following_month") {
        match line.day_of_month {
            Some(dom) => day_shaped_due(anchor, dom, months + 1),
            None => None,
        }
    } else {
        None
    }
}

/// The date a term's delays are probed against at creation (January 31 of 2026).
pub open spec fn probe_date() -> Date {
    Date { year: 2026, month: 1, day: 31 }
}

/// The stored shape of a line being validated.
pub open spec fn probe_line(l: NewTermLine) -> TermLineRow {
    TermLineRow {
        id: 0,
        value: l.value,
        value_amount: l.value_amount,
        nb_days: l.nb_days,
        day_of_month: l.day_of_month,
        delay_type: l.delay_type,
        anchor: l.anchor,
        sequence: l.sequence,
    }
}

/// One hundred, in units.
pub open spec fn hundred_units() -> int {
    100 * crate::dec::pow10(28)
}

/// A `TermInvalid` refusal with the given code and message.
pub open spec fn term_fault(code: &str, message: &str) -> Fault {
    Fault::Term(code@, message@)
}

/// The delay is shaped by a day of the month.
pub open spec fn is_day_shaped(delay: Seq<char>) -> bool {
    delay == "day_current_month"@ || delay == "day_following_month"@
}

/// The value part of a line's check: the balance slice at most once and last, percents in
/// (0, 100] and summed, fixed amounts positive, no other value.
pub open spec fn check_value(l: NewTermLine, is_last: bool, saw_balance: bool, psum: Dec) -> Result<
    (bool, Dec),
    Fault,
> {
    if l.value@ == "balance"@ {
        if saw_balance {
            Err(term_fault("term_multiple_balance", "only one balance slice per term"))
        } else if !is_last {
            Err(term_fault("term_balance_not_last", "the balance slice must be the term's last line"))
        } else {
            Ok((true, psum))
        }
    } else if l.value@ == "percent"@ {
        if l.value_amount.units() <= 0 || l.value_amount.units() > hundred_units() {
            Err(term_fault("term_percent_out_of_range", "percent slices must be in (0, 100]"))
        } else {
            match decimal_checked_add(psum, l.value_amount) {
                None => Err(Fault::Overflow),
                Some(s) => Ok((saw_balance, s)),
            }
        }
    } else if l.value@ == "fixed"@ {
        if l.value_amount.units() <= 0 {
            Err(term_fault("term_fixed_out_of_range", "fixed slices must be positive"))
        } else {
            Ok((saw_balance, psum))
        }
    } else {
        Err(Fault::Term("term_value_invalid"@, "unknown term slice value '"@ + l.value@ + "'"@))
    }
}

/// A line's whole check: its value, then a non-negative day offset, a day of the month in 1..=31
/// for day-shaped delays, and a delay/anchor that resolves a date.
pub open spec fn check_line(l: NewTermLine, is_last: bool, saw_balance: bool, psum: Dec) -> Result<
    (bool, Dec),
    Fault,
> {
    match check_value(l, is_last, saw_balance, psum) {
        Err(f) => Err(f),
        Ok(next) => if l.nb_days < 0 {
            Err(term_fault("term_days_negative", "slice day offsets must be ≥ 0"))
        } else if is_day_shaped(l.delay_type@) && !(l.day_of_month matches Some(d) && 1 <= d
            <= 31) {
            Err(
                term_fault(
                    "term_day_of_month_required",
                    "day-shaped delays need a day_of_month in 1..=31",
                ),
            )
        } else if spec_line_due_date(probe_line(l), probe_date()) is None {
            Err(term_fault("term_delay_invalid", "the delay/anchor combination resolves no date"))
        } else {
            Ok(next)
        },
    }
}

/// The lines from `i` on, checked in order; the percents' sum at the end.
pub open spec fn check_lines(lines: Seq<NewTermLine>, i: int, saw_balance: bool, psum: Dec) -> Result<
    Dec,
    Fault,
>
    decreases lines.len() - i,
{
    if i < 0 || i >= lines.len() {
        Ok(psum)
    } else {
        match check_line(lines[i], i == lines.len() - 1, saw_balance, psum) {
            Err(f) => Err(f),
            Ok((saw, ps)) => check_lines(lines, i + 1, saw, ps),
        }
    }
}

/// A term's shape check at creation.
pub open spec fn spec_validate_term(
    name: Seq<char>,
    lines: Seq<NewTermLine>,
    early_discount: bool,
    discount_percent: Dec,
    discount_days: i32,
    discount_account_id: Option<u128>,
    discount_tax_basis: Seq<char>,
) -> Result<(), Fault> {
    if is_blank(name) {
        Err(term_fault("term_name_required", "a payment term needs a name"))
    } else if lines.len() == 0 {
        Err(term_fault("term_lines_required", "a payment term needs at least one line"))
    } else if discount_tax_basis == "reduced_price"@ {
        Err(
            term_fault(
                "discount_tax_basis_unsupported",
                "discount on the pre-tax base needs the settlement-time tax recompute; use 'included'",
            ),
        )
    } else if early_discount && (discount_percent.units() <= 0 || discount_percent.units()
        > hundred_units()) {
        Err(
            term_fault(
                "discount_percent_out_of_range",
                "early-pay discount percent must be in (0, 100]",
            ),
        )
    } else if early_discount && discount_days <= 0 {
        Err(
            term_fault(
                "discount_days_out_of_range",
                "an early-pay discount needs a positive discount window",
            ),
        )
    } else if early_discount && discount_account_id is None {
        Err(
            term_fault(
                "discount_account_required",
                "an early-pay discount needs an explicit expense account",
            ),
        )
    } else {
        finish_validate(check_lines(lines, 0, false, Dec { mantissa: 0, scale: 0 }))
    }
}

/// The last check, on the percents' sum.
pub open spec fn finish_validate(lines_checked: Result<Dec, Fault>) -> Result<(), Fault> {
    match lines_checked {
        Err(f) => Err(f),
        Ok(psum) => if psum.units() > hundred_units() {
            Err(term_fault("term_percent_exceeds_total", "percent slices must sum to at most 100"))
        } else {
            Ok(())
        },
    }
}

/// A line a term may hold: `balance` only as the last line, `percent` in (0, 100], `fixed`
/// positive, no other value; a non-negative day offset, a day of the month in 1..=31 for
/// day-shaped delays, and a delay/anchor that resolves a date.
pub open spec fn line_ok(l: NewTermLine, is_last: bool) -> bool {
    &&& (l.value@ == "balance"@ ==> is_last)
    &&& (l.value@ == "percent"@ ==> 0 < l.value_amount.units() <= hundred_units())
    &&& (l.value@ == "fixed"@ ==> l.value_amount.units() > 0)
    &&& (l.value@ == "balance"@ || l.value@ == "percent"@ || l.value@ == "fixed"@)
    &&& l.nb_days >= 0
    &&& (is_day_shaped(l.delay_type@) ==> (l.day_of_month matches Some(d) && 1 <= d <= 31))
    &&& spec_line_due_date(probe_line(l), probe_date()) is Some
}

/// The percent lines' percentages from line `i` on, added to `acc` in order (as `rust_decimal`
/// adds them; `None` where a sum overflows).
pub open spec fn percent_sum(lines: Seq<NewTermLine>, i: int, acc: Dec) -> Option<Dec>
    decreases lines.len() - i,
{
    if i < 0 || i >= lines.len() {
        Some(acc)
    } else if lines[i].value@ == "percent"@ {
        match decimal_checked_add(acc, lines[i].value_amount) {
            None => None,
            Some(s) => percent_sum(lines, i + 1, s),
        }
    } else {
        percent_sum(lines, i + 1, acc)
    }
}

/// What a valid term is: a non-blank name, at least one line, no `reduced_price` discount basis, a
/// complete early-pay-discount block when enabled (percent in (0, 100], a positive window, an
/// account), every line acceptable, and the percents summing to at most 100.
pub open spec fn term_well_formed(
    name: Seq<char>,
    lines: Seq<NewTermLine>,
    early_discount: bool,
    discount_percent: Dec,
    discount_days: i32,
    discount_account_id: Option<u128>,
    discount_tax_basis: Seq<char>,
) -> bool {
    &&& !is_blank(name)
    &&& lines.len() > 0
    &&& discount_tax_basis != "reduced_price"@
    &&& (early_discount ==> 0 < discount_percent.units() <= hundred_units() && discount_days > 0
        && discount_account_id is Some)
    &&& forall|i: int| 0 <= i < lines.len() ==> line_ok(#[trigger] lines[i], i == lines.len() - 1)
    &&& percent_sum(lines, 0, Dec { mantissa: 0, scale: 0 }) matches Some(s) && s.units()
        <= hundred_units()
}

proof fn lemma_check_lines_shape(lines: Seq<NewTermLine>, i: int, saw: bool, acc: Dec)
    requires
        0 <= i <= lines.len(),
        saw ==> i == lines.len(),
    ensures
        (forall|j: int| i <= j < lines.len() ==> line_ok(#[trigger] lines[j], j == lines.len() - 1))
            ==> check_lines(lines, i, saw, acc) == match percent_sum(lines, i, acc) {
            None => Err(Fault::Overflow),
            Some(p) => Ok::<Dec, Fault>(p),
        },
        !(forall|j: int| i <= j < lines.len() ==> line_ok(#[trigger] lines[j], j == lines.len() - 1))
            ==> check_lines(lines, i, saw, acc) is Err,
    decreases lines.len() - i,
{
    if i < lines.len() {
        let l = lines[i];
        let last = i == lines.len() - 1;
        reveal_strlit("balance");
        reveal_strlit("percent");
        reveal_strlit("fixed");
        assert("balance"@ != "percent"@ && "balance"@ != "fixed"@ && "percent"@ != "fixed"@) by {
            assert("balance"@[0] != "percent"@[0]);
            assert("balance"@[0] != "fixed"@[0]);
            assert("percent"@[0] != "fixed"@[0]);
        }
        match check_line(l, last, saw, acc) {
            Err(_) => {
                lemma_check_lines_shape(lines, i + 1, false, acc);
            },
            Ok((saw2, acc2)) => {
                lemma_check_lines_shape(lines, i + 1, saw2, acc2);
            },
        }
        if !line_ok(l, last) {
            assert(check_line(l, last, saw, acc) is Err);
        }
        if forall|j: int| i <= j < lines.len() ==> line_ok(#[trigger] lines[j], j == lines.len() - 1) {
            assert(line_ok(lines[i], last));
            assert forall|j: int| i + 1 <= j < lines.len() implies line_ok(
                #[trigger] lines[j],
                j == lines.len() - 1,
            ) by {
                assert(line_ok(lines[j], j == lines.len() - 1));
            }
        } else {
            let j = choose|j: int| i <= j < lines.len() && !line_ok(#[trigger] lines[j], j == lines.len() - 1);
            if j > i {
                assert(!(forall|k: int| i + 1 <= k < lines.len() ==> line_ok(
                    #[trigger] lines[k],
                    k == lines.len() - 1,
                ))) by {
                    assert(!line_ok(lines[j], j == lines.len() - 1));
                }
            }
        }
    }
}

/// A term passes validation exactly when it is [`term_well_formed`] (wherever the percents' sum
/// does not overflow).
pub proof fn law_valid_term(
    name: Seq<char>,
    lines: Seq<NewTermLine>,
    early_discount: bool,
    discount_percent: Dec,
    discount_days: i32,
    discount_account_id: Option<u128>,
    discount_tax_basis: Seq<char>,
)
    requires
        spec_validate_term(
            name,
            lines,
            early_discount,
            discount_percent,
            discount_days,
            discount_account_id,
            discount_tax_basis,
        ) != Err::<(), Fault>(Fault::Overflow),
    ensures
        spec_validate_term(
            name,
            lines,
            early_discount,
            discount_percent,
            discount_days,
            discount_account_id,
            discount_tax_basis,
        ) is Ok <==> term_well_formed(
            name,
            lines,
            early_discount,
            discount_percent,
            discount_days,
            discount_account_id,
            discount_tax_basis,
        ),
{
    lemma_check_lines_shape(lines, 0, false, Dec { mantissa: 0, scale: 0 });
}

/// The decimals a validation reads are representable.
pub open spec fn new_lines_wf(lines: Seq<NewTermLine>) -> bool {
    forall|i: int| 0 <= i < lines.len() ==> (#[trigger] lines[i]).value_amount.wf()
}

fn hundred() -> (r: Dec)
    ensures
        r == (Dec { mantissa: 100, scale: 0 }),
        r.wf(),
        r.units() == hundred_units(),
{
    proof {
        crate::dec::lemma_pow10_28();
    }
    Dec { mantissa: 100, scale: 0 }
}

fn probe_due_date(l: &NewTermLine) -> (r: bool)
    ensures
        r == (spec_line_due_date(probe_line(*l), probe_date()) is Some),
{
    let row = TermLineRow {
        id: 0,
        value: l.value.clone(),
        value_amount: l.value_amount,
        nb_days: l.nb_days,
        day_of_month: l.day_of_month,
        delay_type: l.delay_type.clone(),
        anchor: l.anchor.clone(),
        sequence: l.sequence,
    };
    assert(row == probe_line(*l));
    line_due_date(&row, Date { year: 2026, month: 1, day: 31 }).is_some()
}

/// One line's check, as [`check_line`] states it.
fn check_one_line(l: &NewTermLine, is_last: bool, saw_balance: bool, percent_sum: Dec) -> (r: Option<
    Result<(bool, Dec), BillingError>,
>)
    requires
        l.value_amount.wf(),
        percent_sum.wf(),
    ensures
        match check_line(*l, is_last, saw_balance, percent_sum) {
            Ok(next) => r == Some(Ok::<(bool, Dec), BillingError>(next)) && next.1.wf(),
            Err(Fault::Overflow) => r is None,
            Err(f) => r matches Some(Err(e)) && reports(&e, f),
        },
{
    let zero = Dec::zero();
    let hundred = hundred();
    let mut saw_balance = saw_balance;
    let mut percent_sum = percent_sum;
    if str_eq(l.value.as_str(), "balance") {
        if saw_balance {
            return Some(Err(term_err("term_multiple_balance", "only one balance slice per term")));
        }
        if !is_last {
            return Some(Err(
                term_err(
                    "term_balance_not_last",
                    "the balance slice must be the term's last line",
                ),
            ));
        }
        saw_balance = true;
    } else if str_eq(l.value.as_str(), "percent") {
        if !lt(zero, l.value_amount) || lt(hundred, l.value_amount) {
            return Some(Err(
                term_err("term_percent_out_of_range", "percent slices must be in (0, 100]"),
            ));
        }
        percent_sum = match checked_add(percent_sum, l.value_amount) {
            Some(v) => v,
            None => {
                return None;
            },
        };
    } else if str_eq(l.value.as_str(), "fixed") {
        if !lt(zero, l.value_amount) {
            return Some(Err(term_err("term_fixed_out_of_range", "fixed slices must be positive")));
        }
    } else {
        let msg = "unknown term slice value '".to_string().concat(l.value.as_str()).concat("'");
        return Some(Err(BillingError::TermInvalid { code: "term_value_invalid".to_string(), message: msg }));
    }
    if l.nb_days < 0 {
        return Some(Err(term_err("term_days_negative", "slice day offsets must be ≥ 0")));
    }
    if str_eq(l.delay_type.as_str(), "day_current_month") || str_eq(
        l.delay_type.as_str(),
        "day_following_month",
    ) {
        let ok = match l.day_of_month {
            Some(d) => 1 <= d && d <= 31,
            None => false,
        };
        if !ok {
            return Some(Err(
                term_err(
                    "term_day_of_month_required",
                    "day-shaped delays need a day_of_month in 1..=31",
                ),
            ));
        }
    }
    if !probe_due_date(l) {
        return Some(Err(
            term_err("term_delay_invalid", "the delay/anchor combination resolves no date"),
        ));
    }
    Some(Ok((saw_balance, percent_sum)))
}

/// Validate a term's shape at create: a non-blank name, at least one line, at most one `balance`
/// slice and it must be the last, percents in (0, 100] summing to at most 100, fixed amounts
/// positive, non-negative day offsets, day-shaped delays carrying a `day_of_month` in 1..=31, a
/// delay that resolves a date, and the early-pay-discount block complete when enabled.
/// `reduced_price` discounts are refused outright. `None` where the percents' decimal sum
/// overflows.
pub fn try_validate_term(
    name: &str,
    lines: &[NewTermLine],
    early_discount: bool,
    discount_percent: Dec,
    discount_days: i32,
    discount_account_id: Option<u128>,
    discount_tax_basis: &str,
) -> (r: Option<Result<(), BillingError>>)
    requires
        discount_percent.wf(),
        new_lines_wf(lines@),
    ensures
        match spec_validate_term(
            name@,
            lines@,
            early_discount,
            discount_percent,
            discount_days,
            discount_account_id,
            discount_tax_basis@,
        ) {
            Ok(_) => r == Some(Ok::<(), BillingError>(())),
            Err(Fault::Overflow) => r is None,
            Err(f) => r matches Some(Err(e)) && reports(&e, f),
        },
{
    let zero = Dec::zero();
    let hundred = hundred();
    if blank(name) {
        return Some(Err(term_err("term_name_required", "a payment term needs a name")));
    }
    if lines.len() == 0 {
        return Some(Err(term_err("term_lines_required", "a payment term needs at least one line")));
    }
    if str_eq(discount_tax_basis, "reduced_price") {
        return Some(Err(
            term_err(
                "discount_tax_basis_unsupported",
                "discount on the pre-tax base needs the settlement-time tax recompute; use 'included'",
            ),
        ));
    }
    if early_discount {
        if !lt(zero, discount_percent) || lt(hundred, discount_percent) {
            return Some(Err(
                term_err(
                    "discount_percent_out_of_range",
                    "early-pay discount percent must be in (0, 100]",
                ),
            ));
        }
        if discount_days <= 0 {
            return Some(Err(
                term_err(
                    "discount_days_out_of_range",
                    "an early-pay discount needs a positive discount window",
                ),
            ));
        }
        if discount_account_id.is_none() {
            return Some(Err(
                term_err(
                    "discount_account_required",
                    "an early-pay discount needs an explicit expense account",
                ),
            ));
        }
    }
    let mut percent_sum = zero;
    let mut saw_balance = false;
    let n = lines.len();
    let mut i: usize = 0;
    while i < n
        invariant
            n == lines@.len(),
            0 <= i <= n,
            n > 0,
            percent_sum.wf(),
            new_lines_wf(lines@),
            zero == (Dec { mantissa: 0, scale: 0 }),
            hundred.units() == hundred_units(),
            hundred.wf(),
            check_lines(lines@, 0, false, zero) == check_lines(lines@, i as int, saw_balance, percent_sum),
            spec_validate_term(
                name@,
                lines@,
                early_discount,
                discount_percent,
                discount_days,
                discount_account_id,
                discount_tax_basis@,
            ) == finish_validate(check_lines(lines@, 0, false, zero)),
        decreases n - i,
    {
        let l = &lines[i];
        let is_last = i == n - 1;
        assert(lines@[i as int] == *l);
        assert(check_lines(lines@, i as int, saw_balance, percent_sum) == match check_line(
            *l,
            is_last,
            saw_balance,
            percent_sum,
        ) {
            Err(f) => Err(f),
            Ok((saw, ps)) => check_lines(lines@, i + 1, saw, ps),
        });
        match check_one_line(l, is_last, saw_balance, percent_sum) {
            Some(Ok((saw, ps))) => {
                saw_balance = saw;
                percent_sum = ps;
            },
            Some(Err(e)) => {
                return Some(Err(e));
            },
            None => {
                return None;
            },
        }
        i = i + 1;
    }
    if lt(hundred, percent_sum) {
        return Some(Err(
            term_err("term_percent_exceeds_total", "percent slices must sum to at most 100"),
        ));
    }
    Some(Ok(()))
}

/// As [`try_validate_term`], for a term whose percents' decimal sum does not overflow.
pub fn validate_term(
    name: &str,
    lines: &[NewTermLine],
    early_discount: bool,
    discount_percent: Dec,
    discount_days: i32,
    discount_account_id: Option<u128>,
    discount_tax_basis: &str,
) -> (r: Result<(), BillingError>)
    requires
        discount_percent.wf(),
        new_lines_wf(lines@),
        spec_validate_term(
            name@,
            lines@,
            early_discount,
            discount_percent,
            discount_days,
            discount_account_id,
            discount_tax_basis@,
        ) != Err::<(), Fault>(Fault::Overflow),
    ensures
        match spec_validate_term(
            name@,
            lines@,
            early_discount,
            discount_percent,
            discount_days,
            discount_account_id,
            discount_tax_basis@,
        ) {
            Ok(_) => r is Ok,
            Err(f) => r matches Err(e) && reports(&e, f),
        },
{
    try_validate_term(
        name,
        lines,
        early_discount,
        discount_percent,
        discount_days,
        discount_account_id,
        discount_tax_basis,
    ).unwrap()
}

/// A slice's amount: `fixed` takes its amount rounded to money, `percent` takes
/// `money(grand × percent / 100)`, `balance` a zero placeholder; any other value is refused.
pub open spec fn slice_amount(l: TermLineRow, grand: Dec) -> Result<Dec, Fault> {
    if l.value@ == "fixed"@ {
        Ok(spec_money(l.value_amount))
    } else if l.value@ == "percent"@ {
        match decimal_checked_mul(grand, l.value_amount) {
            None => Err(Fault::Overflow),
            Some(p) => match decimal_checked_div(p, Dec { mantissa: 100, scale: 0 }) {
                None => Err(Fault::Overflow),
                Some(q) => Ok(spec_money(q)),
            },
        }
    } else if l.value@ == "balance"@ {
        Ok(Dec { mantissa: 0, scale: 0 })
    } else {
        Err(Fault::Term("term_value_invalid"@, "unknown term slice value '"@ + l.value@ + "'"@))
    }
}

/// The slices of the lines from `i` on, in line order, and the running total of the fixed and
/// percent slices.
pub open spec fn scan_from(
    lines: Seq<TermLineRow>,
    i: int,
    pd: Date,
    grand: Dec,
    slices: Seq<(Date, Dec)>,
    fixed_and_percent: Dec,
) -> Result<(Seq<(Date, Dec)>, Dec), Fault>
    decreases lines.len() - i,
{
    if i < 0 || i >= lines.len() {
        Ok((slices, fixed_and_percent))
    } else {
        let l = lines[i];
        match spec_line_due_date(l, pd) {
            None => Err(term_fault("term_delay_invalid", "the delay/anchor combination resolves no date")),
            Some(due) => match slice_amount(l, grand) {
                Err(f) => Err(f),
                Ok(a) => if l.value@ == "balance"@ {
                    scan_from(lines, i + 1, pd, grand, slices.push((due, a)), fixed_and_percent)
                } else {
                    match decimal_checked_add(fixed_and_percent, a) {
                        None => Err(Fault::Overflow),
                        Some(f2) => scan_from(lines, i + 1, pd, grand, slices.push((due, a)), f2),
                    }
                },
            },
        }
    }
}

/// The index of the first entry not dated before `d` (from `i` on), or the length.
pub open spec fn first_not_before(col: Seq<(Date, Dec)>, d: Date, i: int) -> int
    decreases col.len() - i,
{
    if i < 0 || i >= col.len() || !col[i].0.before(d) {
        i
    } else {
        first_not_before(col, d, i + 1)
    }
}

/// Add one slice to a date-ordered schedule: an entry with the same date absorbs its amount
/// (`entry + amount`), otherwise it is inserted before the first later entry.
pub open spec fn insert_slice(col: Seq<(Date, Dec)>, d: Date, a: Dec) -> Option<Seq<(Date, Dec)>> {
    let i = first_not_before(col, d, 0);
    if 0 <= i < col.len() && col[i].0 == d {
        match decimal_checked_add(col[i].1, a) {
            Some(s) => Some(col.update(i, (d, s))),
            None => None,
        }
    } else {
        Some(col.insert(i, (d, a)))
    }
}

/// Same-date slices collapsed into one installment of their sum, ordered by date: the slices from
/// `i` on added, in line order, to `col`.
pub open spec fn collapse_from(slices: Seq<(Date, Dec)>, i: int, col: Seq<(Date, Dec)>) -> Option<
    Seq<(Date, Dec)>,
>
    decreases slices.len() - i,
{
    if i < 0 || i >= slices.len() {
        Some(col)
    } else {
        match insert_slice(col, slices[i].0, slices[i].1) {
            None => None,
            Some(c) => collapse_from(slices, i + 1, c),
        }
    }
}

/// A line of the term is the balance slice.
pub open spec fn has_balance(lines: Seq<TermLineRow>) -> bool {
    exists|i: int| 0 <= i < lines.len() && (#[trigger] lines[i]).value@ == "balance"@
}

/// The fixed slices' amounts (each rounded to money) added to `acc`, from line `i` on; `None`
/// where the sum overflows.
pub open spec fn fixed_total(lines: Seq<TermLineRow>, i: int, acc: Dec) -> Option<Dec>
    decreases lines.len() - i,
{
    if i < 0 || i >= lines.len() {
        Some(acc)
    } else if lines[i].value@ == "fixed"@ {
        match decimal_checked_add(acc, spec_money(lines[i].value_amount)) {
            None => None,
            Some(a) => fixed_total(lines, i + 1, a),
        }
    } else {
        fixed_total(lines, i + 1, acc)
    }
}

/// The percent slices' percentages added to `acc`, from line `i` on; `None` where the sum
/// overflows.
pub open spec fn percent_total(lines: Seq<TermLineRow>, i: int, acc: Dec) -> Option<Dec>
    decreases lines.len() - i,
{
    if i < 0 || i >= lines.len() {
        Some(acc)
    } else if lines[i].value@ == "percent"@ {
        match decimal_checked_add(acc, lines[i].value_amount) {
            None => None,
            Some(a) => percent_total(lines, i + 1, a),
        }
    } else {
        percent_total(lines, i + 1, acc)
    }
}

/// The last installment absorbs `grand − fixed_and_percent`: the balance, and the rounding
/// remainder of the percent slices (smooth-delta). The term is refused where its fixed slices
/// alone exceed the total, or where the fixed slices and the exact percent shares
/// (`grand × percent / 100`) together exceed it (`term_exceeds_total`); a term without a balance
/// slice must cover the total exactly with them (`term_does_not_cover_total`). A schedule with no
/// slice is one installment of the total on the posting date.
pub open spec fn finish_schedule(
    col: Seq<(Date, Dec)>,
    fixed_and_percent: Dec,
    fixed: Dec,
    percent: Dec,
    grand: Dec,
    balance_slice: bool,
    pd: Date,
) -> Result<Seq<(Date, Dec)>, Fault> {
    match decimal_checked_sub(grand, fixed_and_percent) {
        None => Err(Fault::Overflow),
        Some(left) => if grand.units() < fixed.units() {
            Err(term_fault("term_exceeds_total", "fixed slices alone exceed the invoice total"))
        } else {
            match decimal_checked_sub(grand, fixed) {
                None => Err(Fault::Overflow),
                Some(rest) => match decimal_checked_mul(rest, Dec { mantissa: 100, scale: 0 }) {
                    None => Err(Fault::Overflow),
                    Some(open) => match decimal_checked_mul(grand, percent) {
                        None => Err(Fault::Overflow),
                        Some(shares) => if open.units() < shares.units() {
                            Err(
                                term_fault(
                                    "term_exceeds_total",
                                    "fixed slices alone exceed the invoice total",
                                ),
                            )
                        } else if !balance_slice && shares.units() < open.units() {
                            Err(
                                term_fault(
                                    "term_does_not_cover_total",
                                    "the term has no balance slice and does not cover the invoice total",
                                ),
                            )
                        } else if col.len() > 0 {
                            match decimal_checked_add(col.last().1, left) {
                                None => Err(Fault::Overflow),
                                Some(s) => Ok(col.update(col.len() - 1, (col.last().0, s))),
                            }
                        } else {
                            Ok(seq![(pd, grand)])
                        },
                    },
                },
            }
        },
    }
}

/// [`finish_schedule`] with the term's fixed total and percent total.
pub open spec fn settle_schedule(
    col: Seq<(Date, Dec)>,
    fixed_and_percent: Dec,
    lines: Seq<TermLineRow>,
    grand: Dec,
    pd: Date,
) -> Result<Seq<(Date, Dec)>, Fault> {
    match fixed_total(lines, 0, Dec { mantissa: 0, scale: 0 }) {
        None => Err(Fault::Overflow),
        Some(f) => match percent_total(lines, 0, Dec { mantissa: 0, scale: 0 }) {
            None => Err(Fault::Overflow),
            Some(p) => finish_schedule(col, fixed_and_percent, f, p, grand, has_balance(lines), pd),
        },
    }
}

/// The installment slices `(due_date, amount)` of an invoice: term lines + posting date + grand
/// total.
pub open spec fn spec_derive_schedule(lines: Seq<TermLineRow>, pd: Date, grand: Dec) -> Result<
    Seq<(Date, Dec)>,
    Fault,
> {
    if grand.units() < 0 {
        Err(Fault::Negative)
    } else {
        match scan_from(lines, 0, pd, grand, seq![], Dec { mantissa: 0, scale: 0 }) {
            Err(f) => Err(f),
            Ok((slices, fap)) => match collapse_from(slices, 0, seq![]) {
                None => Err(Fault::Overflow),
                Some(col) => settle_schedule(col, fap, lines, grand, pd),
            },
        }
    }
}

/// The dates of a schedule.
pub open spec fn dates_of(s: Seq<(Date, Dec)>) -> Set<Date> {
    Set::new(|d: Date| exists|i: int| 0 <= i < s.len() && (#[trigger] s[i]).0 == d)
}

/// The due dates of the lines from `i` on.
pub open spec fn due_dates_from(lines: Seq<TermLineRow>, i: int, pd: Date) -> Set<Date> {
    Set::new(
        |d: Date|
            exists|j: int| i <= j < lines.len() && spec_line_due_date(#[trigger] lines[j], pd) == Some(d),
    )
}

proof fn lemma_insert_slice_dates(col: Seq<(Date, Dec)>, d: Date, a: Dec)
    requires
        insert_slice(col, d, a) is Some,
    ensures
        dates_of(insert_slice(col, d, a).unwrap()) == dates_of(col).insert(d),
{
    let i = first_not_before(col, d, 0);
    let c = insert_slice(col, d, a).unwrap();
    if 0 <= i < col.len() && col[i].0 == d {
        assert forall|x: Date| dates_of(c).contains(x) <==> dates_of(col).insert(d).contains(x) by {
            if dates_of(c).contains(x) {
                let k = choose|k: int| 0 <= k < c.len() && (#[trigger] c[k]).0 == x;
                assert(col[k].0 == x);
            }
            if dates_of(col).contains(x) {
                let k = choose|k: int| 0 <= k < col.len() && (#[trigger] col[k]).0 == x;
                assert(c[k].0 == x);
            }
            if x == d {
                assert(c[i].0 == d);
            }
        }
    } else {
        lemma_first_not_before_range(col, d, 0);
        assert forall|x: Date| dates_of(c).contains(x) <==> dates_of(col).insert(d).contains(x) by {
            if dates_of(c).contains(x) {
                let k = choose|k: int| 0 <= k < c.len() && (#[trigger] c[k]).0 == x;
                if k < i {
                    assert(col[k].0 == x);
                } else if k > i {
                    assert(col[k - 1].0 == x);
                }
            }
            if dates_of(col).contains(x) {
                let k = choose|k: int| 0 <= k < col.len() && (#[trigger] col[k]).0 == x;
                if k < i {
                    assert(c[k].0 == x);
                } else {
                    assert(c[k + 1].0 == x);
                }
            }
            if x == d {
                assert(c[i].0 == d);
            }
        }
    }
    assert(dates_of(c) =~= dates_of(col).insert(d));
}

proof fn lemma_first_not_before_range(col: Seq<(Date, Dec)>, d: Date, i: int)
    requires
        0 <= i <= col.len(),
    ensures
        i <= first_not_before(col, d, i) <= col.len(),
    decreases col.len() - i,
{
    if i < col.len() && col[i].0.before(d) {
        lemma_first_not_before_range(col, d, i + 1);
    }
}

proof fn lemma_collapse_dates(slices: Seq<(Date, Dec)>, i: int, col: Seq<(Date, Dec)>)
    requires
        0 <= i <= slices.len(),
        collapse_from(slices, i, col) is Some,
    ensures
        dates_of(collapse_from(slices, i, col).unwrap()) == dates_of(col).union(
            dates_of(slices.subrange(i, slices.len() as int)),
        ),
    decreases slices.len() - i,
{
    let rest = slices.subrange(i, slices.len() as int);
    if i == slices.len() {
        assert(dates_of(rest) =~= Set::<Date>::empty());
        assert(dates_of(col).union(dates_of(rest)) =~= dates_of(col));
    } else {
        let c = insert_slice(col, slices[i].0, slices[i].1).unwrap();
        lemma_insert_slice_dates(col, slices[i].0, slices[i].1);
        lemma_collapse_dates(slices, i + 1, c);
        let rest1 = slices.subrange(i + 1, slices.len() as int);
        assert forall|x: Date| dates_of(rest).contains(x) <==> (x == slices[i].0 || dates_of(
            rest1,
        ).contains(x)) by {
            if dates_of(rest).contains(x) {
                let k = choose|k: int| 0 <= k < rest.len() && (#[trigger] rest[k]).0 == x;
                if k > 0 {
                    assert(rest1[k - 1].0 == x);
                }
            }
            if dates_of(rest1).contains(x) {
                let k = choose|k: int| 0 <= k < rest1.len() && (#[trigger] rest1[k]).0 == x;
                assert(rest[k + 1].0 == x);
            }
            if x == slices[i].0 {
                assert(rest[0].0 == x);
            }
        }
        assert(dates_of(c).union(dates_of(rest1)) =~= dates_of(col).union(dates_of(rest)));
    }
}

proof fn lemma_scan_dates(
    lines: Seq<TermLineRow>,
    i: int,
    pd: Date,
    grand: Dec,
    slices: Seq<(Date, Dec)>,
    fap: Dec,
)
    requires
        0 <= i <= lines.len(),
        scan_from(lines, i, pd, grand, slices, fap) is Ok,
    ensures
        ({
            let sl = scan_from(lines, i, pd, grand, slices, fap)->Ok_0.0;
            dates_of(sl) == dates_of(slices).union(due_dates_from(lines, i, pd))
        }),
    decreases lines.len() - i,
{
    if i == lines.len() {
        assert(due_dates_from(lines, i, pd) =~= Set::<Date>::empty());
        assert(dates_of(slices).union(due_dates_from(lines, i, pd)) =~= dates_of(slices));
    } else {
        let l = lines[i];
        let due = spec_line_due_date(l, pd).unwrap();
        let a = slice_amount(l, grand)->Ok_0;
        let s2 = slices.push((due, a));
        let f2 = if l.value@ == "balance"@ {
            fap
        } else {
            decimal_checked_add(fap, a).unwrap()
        };
        assert(scan_from(lines, i, pd, grand, slices, fap) == scan_from(lines, i + 1, pd, grand, s2, f2));
        lemma_scan_dates(lines, i + 1, pd, grand, s2, f2);
        assert forall|x: Date| dates_of(s2).contains(x) <==> (x == due || dates_of(slices).contains(x)) by {
            if dates_of(s2).contains(x) {
                let k = choose|k: int| 0 <= k < s2.len() && (#[trigger] s2[k]).0 == x;
                if k < slices.len() {
                    assert(slices[k].0 == x);
                }
            }
            if dates_of(slices).contains(x) {
                let k = choose|k: int| 0 <= k < slices.len() && (#[trigger] slices[k]).0 == x;
                assert(s2[k].0 == x);
            }
            if x == due {
                assert(s2[slices.len() as int].0 == due);
            }
        }
        assert forall|x: Date| due_dates_from(lines, i, pd).contains(x) <==> (x == due
            || due_dates_from(lines, i + 1, pd).contains(x)) by {
            if due_dates_from(lines, i, pd).contains(x) {
                let j = choose|j: int| i <= j < lines.len() && spec_line_due_date(#[trigger] lines[j], pd)
                    == Some(x);
                if j > i {
                    assert(i + 1 <= j < lines.len() && spec_line_due_date(lines[j], pd) == Some(x));
                }
            }
            if due_dates_from(lines, i + 1, pd).contains(x) {
                let j = choose|j: int| i + 1 <= j < lines.len() && spec_line_due_date(
                    #[trigger] lines[j],
                    pd,
                ) == Some(x);
                assert(i <= j < lines.len() && spec_line_due_date(lines[j], pd) == Some(x));
            }
            if x == due {
                assert(spec_line_due_date(lines[i], pd) == Some(x));
            }
        }
        let sl = scan_from(lines, i, pd, grand, slices, fap)->Ok_0.0;
        assert(dates_of(sl) =~= dates_of(slices).union(due_dates_from(lines, i, pd)));
    }
}

/// A derived schedule's installment dates are exactly the lines' due dates (slices sharing a date
/// are one installment); a term without lines is one installment on the posting date.
pub proof fn law_schedule_dates(lines: Seq<TermLineRow>, pd: Date, grand: Dec)
    requires
        spec_derive_schedule(lines, pd, grand) is Ok,
    ensures
        lines.len() > 0 ==> dates_of(spec_derive_schedule(lines, pd, grand)->Ok_0) == due_dates_from(
            lines,
            0,
            pd,
        ),
        lines.len() == 0 ==> spec_derive_schedule(lines, pd, grand)->Ok_0 == seq![(pd, grand)],
{
    let z = Dec { mantissa: 0, scale: 0 };
    let (sl, fap) = scan_from(lines, 0, pd, grand, seq![], z)->Ok_0;
    lemma_scan_dates(lines, 0, pd, grand, seq![], z);
    assert(dates_of(seq![]) =~= Set::<Date>::empty());
    assert(dates_of(sl) =~= due_dates_from(lines, 0, pd));
    let col = collapse_from(sl, 0, seq![]).unwrap();
    lemma_collapse_dates(sl, 0, seq![]);
    assert(sl.subrange(0, sl.len() as int) =~= sl);
    assert(dates_of(col) =~= dates_of(sl));
    if lines.len() > 0 {
        let d0 = spec_line_due_date(lines[0], pd).unwrap();
        assert(due_dates_from(lines, 0, pd).contains(d0));
        assert(col.len() > 0);
        let s = spec_derive_schedule(lines, pd, grand)->Ok_0;
        assert(s.len() == col.len());
        assert forall|k: int| 0 <= k < s.len() implies (#[trigger] s[k]).0 == col[k].0 by {}
        assert forall|x: Date| dates_of(s).contains(x) <==> dates_of(col).contains(x) by {
            if dates_of(s).contains(x) {
                let k = choose|k: int| 0 <= k < s.len() && (#[trigger] s[k]).0 == x;
                assert(col[k].0 == x);
            }
            if dates_of(col).contains(x) {
                let k = choose|k: int| 0 <= k < col.len() && (#[trigger] col[k]).0 == x;
                assert(s[k].0 == x);
            }
        }
        assert(dates_of(s) =~= dates_of(col));
    } else {
        assert(sl.len() == 0);
        assert(col.len() == 0);
    }
}

/// The decimals a derivation reads are representable.
pub open spec fn rows_wf(lines: Seq<TermLineRow>) -> bool {
    forall|i: int| 0 <= i < lines.len() ==> (#[trigger] lines[i]).value_amount.wf()
}

/// The installment amounts added up, in units.
pub open spec fn units_total(s: Seq<(Date, Dec)>) -> int
    decreases s.len(),
{
    if s.len() == 0 {
        0
    } else {
        units_total(s.drop_last()) + s.last().1.units()
    }
}

/// The installment amounts' magnitudes added up, in units.
pub open spec fn abs_total(s: Seq<(Date, Dec)>) -> int
    decreases s.len(),
{
    if s.len() == 0 {
        0
    } else {
        abs_total(s.drop_last()) + abs_int(s.last().1.units())
    }
}

/// Every amount has at most two fractional digits.
pub open spec fn money_scaled(s: Seq<(Date, Dec)>) -> bool {
    forall|i: int| 0 <= i < s.len() ==> (#[trigger] s[i]).1.scale <= 2
}

/// The slices and the total lie far enough inside the decimal range for every sum a derivation
/// forms to be exact: three times their magnitudes stay within the room of the total's digits
/// (at least two).
pub open spec fn schedule_fits(slices: Seq<(Date, Dec)>, grand: Dec) -> bool {
    3 * (abs_total(slices) + abs_int(grand.units())) <= room(
        (if grand.scale <= 2 {
            2
        } else {
            grand.scale
        }) as nat,
    )
}

proof fn lemma_totals_bounds(s: Seq<(Date, Dec)>)
    ensures
        abs_total(s) >= 0,
        abs_int(units_total(s)) <= abs_total(s),
        forall|i: int| 0 <= i < s.len() ==> abs_int((#[trigger] s[i]).1.units()) <= abs_total(s),
    decreases s.len(),
{
    if s.len() > 0 {
        let d = s.drop_last();
        lemma_totals_bounds(d);
        assert forall|i: int| 0 <= i < s.len() implies abs_int((#[trigger] s[i]).1.units())
            <= abs_total(s) by {
            if i < s.len() - 1 {
                assert(s[i] == d[i]);
            }
        }
    }
}

proof fn lemma_totals_push(s: Seq<(Date, Dec)>, x: (Date, Dec))
    ensures
        units_total(s.push(x)) == units_total(s) + x.1.units(),
        abs_total(s.push(x)) == abs_total(s) + abs_int(x.1.units()),
{
    assert(s.push(x).drop_last() =~= s);
}

proof fn lemma_totals_update(s: Seq<(Date, Dec)>, i: int, x: (Date, Dec))
    requires
        0 <= i < s.len(),
    ensures
        units_total(s.update(i, x)) == units_total(s) - s[i].1.units() + x.1.units(),
        abs_total(s.update(i, x)) == abs_total(s) - abs_int(s[i].1.units()) + abs_int(x.1.units()),
    decreases s.len(),
{
    let u = s.update(i, x);
    if i == s.len() - 1 {
        assert(u.drop_last() =~= s.drop_last());
    } else {
        assert(u.drop_last() =~= s.drop_last().update(i, x));
        lemma_totals_update(s.drop_last(), i, x);
    }
}

proof fn lemma_totals_insert(s: Seq<(Date, Dec)>, i: int, x: (Date, Dec))
    requires
        0 <= i <= s.len(),
    ensures
        units_total(s.insert(i, x)) == units_total(s) + x.1.units(),
        abs_total(s.insert(i, x)) == abs_total(s) + abs_int(x.1.units()),
    decreases s.len(),
{
    let u = s.insert(i, x);
    if i == s.len() {
        assert(u =~= s.push(x));
        lemma_totals_push(s, x);
    } else {
        assert(u.drop_last() =~= s.drop_last().insert(i, x));
        lemma_totals_insert(s.drop_last(), i, x);
    }
}

proof fn lemma_abs_total_take(s: Seq<(Date, Dec)>, k: int)
    requires
        0 <= k <= s.len(),
    ensures
        abs_total(s.take(k)) <= abs_total(s),
    decreases s.len() - k,
{
    if k < s.len() {
        assert(s.take(k + 1).drop_last() =~= s.take(k));
        lemma_abs_total_take(s, k + 1);
    } else {
        assert(s.take(k) =~= s);
    }
}

/// Every amount of a schedule is representable.
pub open spec fn slices_wf(s: Seq<(Date, Dec)>) -> bool {
    forall|i: int| 0 <= i < s.len() ==> (#[trigger] s[i]).1.wf()
}

fn term_slice(l: &TermLineRow, posting_date: Date, grand_total: Dec) -> (r: Option<
    Result<(Date, Dec), BillingError>,
>)
    requires
        posting_date.valid(),
        grand_total.wf(),
        l.value_amount.wf(),
    ensures
        match spec_line_due_date(*l, posting_date) {
            None => r matches Some(Err(e)) && reports(
                &e,
                term_fault("term_delay_invalid", "the delay/anchor combination resolves no date"),
            ),
            Some(due) => match slice_amount(*l, grand_total) {
                Err(Fault::Overflow) => r is None,
                Err(f) => r matches Some(Err(e)) && reports(&e, f),
                Ok(a) => r == Some(Ok::<(Date, Dec), BillingError>((due, a))) && a.wf() && a.scale
                    <= 2,
            },
        },
{
    let due = match line_due_date(l, posting_date) {
        Some(d) => d,
        None => {
            return Some(
                Err(term_err("term_delay_invalid", "the delay/anchor combination resolves no date")),
            );
        },
    };
    if str_eq(l.value.as_str(), "fixed") {
        Some(Ok((due, money(l.value_amount))))
    } else if str_eq(l.value.as_str(), "percent") {
        let p = match checked_mul(grand_total, l.value_amount) {
            Some(p) => p,
            None => {
                return None;
            },
        };
        let q = match checked_div(p, hundred()) {
            Some(q) => q,
            None => {
                return None;
            },
        };
        Some(Ok((due, money(q))))
    } else if str_eq(l.value.as_str(), "balance") {
        Some(Ok((due, Dec::zero())))
    } else {
        let msg = "unknown term slice value '".to_string().concat(l.value.as_str()).concat("'");
        Some(Err(BillingError::TermInvalid { code: "term_value_invalid".to_string(), message: msg }))
    }
}

/// The installments' dates strictly ascend.
pub open spec fn dates_ascending(s: Seq<(Date, Dec)>) -> bool {
    forall|i: int, j: int| 0 <= i < j < s.len() ==> (#[trigger] s[i]).0.before((#[trigger] s[j]).0)
}

fn insert_into_schedule(col: &mut Vec<(Date, Dec)>, d: Date, a: Dec) -> (r: bool)
    requires
        slices_wf(old(col)@),
        a.wf(),
    ensures
        r == insert_slice(old(col)@, d, a) is Some,
        r ==> final(col)@ == insert_slice(old(col)@, d, a).unwrap(),
        slices_wf(final(col)@),
        r && dates_ascending(old(col)@) ==> dates_ascending(final(col)@),
        r && money_scaled(old(col)@) && a.scale <= 2 && abs_total(old(col)@) + abs_int(a.units())
            <= room(2) ==> units_total(final(col)@) == units_total(old(col)@) + a.units()
            && abs_total(final(col)@) <= abs_total(old(col)@) + abs_int(a.units()) && money_scaled(
            final(col)@,
        ),
{
    let ghost old_col = col@;
    let n = col.len();
    let mut i: usize = 0;
    while i < n && col[i].0.lt(&d)
        invariant
            n == col@.len(),
            0 <= i <= n,
            col@ == old_col,
            first_not_before(col@, d, 0) == first_not_before(col@, d, i as int),
            forall|k: int| 0 <= k < i ==> (#[trigger] col@[k]).0.before(d),
        decreases n - i,
    {
        i = i + 1;
    }
    assert(first_not_before(col@, d, 0) == i);
    proof {
        lemma_totals_bounds(old_col);
    }
    if i < n && col[i].0 == d {
        let cur = col[i].1;
        assert(col@[i as int].1.wf());
        proof {
            if money_scaled(old_col) && a.scale <= 2 && abs_total(old_col) + abs_int(a.units()) <= room(2) {
                assert(abs_int(cur.units()) <= abs_total(old_col));
                assert(cur.scale <= 2);
                lemma_add_fits_in_room(cur, a, 2);
            }
        }
        match checked_add(cur, a) {
            Some(s) => {
                col.set(i, (d, s));
                proof {
                    lemma_totals_update(old_col, i as int, (d, s));
                    assert forall|x: int, y: int|
                        0 <= x < y < col@.len() && dates_ascending(old_col) implies (
                        #[trigger] col@[x]).0.before((#[trigger] col@[y]).0) by {
                        assert(col@[x].0 == old_col[x].0);
                        assert(col@[y].0 == old_col[y].0);
                    }
                }
            },
            None => {
                return false;
            },
        }
    } else {
        col.insert(i, (d, a));
        proof {
            lemma_totals_insert(old_col, i as int, (d, a));
            if dates_ascending(old_col) {
                assert(i < n ==> d.before(old_col[i as int].0));
                assert forall|x: int, y: int| 0 <= x < y < col@.len() implies (
                #[trigger] col@[x]).0.before((#[trigger] col@[y]).0) by {
                    if y < i {
                        assert(col@[x] == old_col[x]);
                        assert(col@[y] == old_col[y]);
                    } else if y == i {
                        assert(col@[x] == old_col[x]);
                    } else if x < i {
                        assert(col@[x] == old_col[x]);
                        assert(col@[y] == old_col[y - 1]);
                        assert(old_col[x].0.before(old_col[y - 1].0));
                    } else if x == i {
                        assert(col@[y] == old_col[y - 1]);
                        if y - 1 > i {
                            assert(old_col[i as int].0.before(old_col[y - 1].0));
                        }
                    } else {
                        assert(col@[x] == old_col[x - 1]);
                        assert(col@[y] == old_col[y - 1]);
                    }
                }
            }
        }
    }
    assert(slices_wf(col@)) by {
        assert forall|k: int| 0 <= k < col@.len() implies (#[trigger] col@[k]).1.wf() by {
            if i < n && old_col[i as int].0 == d {
            } else if k < i {
                assert(col@[k] == old_col[k]);
            } else if k > i {
                assert(col@[k] == old_col[k - 1]);
            }
        }
    }
    assert(money_scaled(old_col) && a.scale <= 2 && abs_total(old_col) + abs_int(a.units()) <= room(2)
        ==> money_scaled(col@)) by {
        if money_scaled(old_col) && a.scale <= 2 && abs_total(old_col) + abs_int(a.units()) <= room(2) {
            assert forall|k: int| 0 <= k < col@.len() implies (#[trigger] col@[k]).1.scale <= 2 by {
                if i < n && old_col[i as int].0 == d {
                    if k != i {
                        assert(col@[k] == old_col[k]);
                    }
                } else if k < i {
                    assert(col@[k] == old_col[k]);
                } else if k > i {
                    assert(col@[k] == old_col[k - 1]);
                }
            }
        }
    }
    true
}

/// Derive the installment slices for one invoice: term lines + posting date + grand total →
/// `(due_date, amount)` pairs ordered by date, same-date slices collapsed into one.
///
/// `fixed` slices take their amount, `percent` slices `money(grand × percent / 100)`, and the
/// `balance` whatever is left, carried (with the percent slices' rounding remainder) by the last
/// installment. Whether a term covers the total is judged on the exact percent shares
/// (`grand × percent / 100`), before rounding: a term without a balance slice must cover it
/// exactly (`term_does_not_cover_total`), the fixed slices and the shares may not exceed it
/// (`term_exceeds_total`), and a negative total is refused.
/// `None` where a decimal step leaves its range.
///
/// The installments' dates strictly ascend, and where the amounts lie well inside the decimal
/// range ([`schedule_fits`]) they add up to the grand total exactly.
#[verifier::spinoff_prover]
pub fn try_derive_schedule(lines: &[TermLineRow], posting_date: Date, grand_total: Dec) -> (r: Option<
    Result<Vec<(Date, Dec)>, BillingError>,
>)
    requires
        posting_date.valid(),
        grand_total.wf(),
        rows_wf(lines@),
    ensures
        match spec_derive_schedule(lines@, posting_date, grand_total) {
            Ok(s) => r matches Some(Ok(v)) && v@ == s,
            Err(Fault::Overflow) => r is None,
            Err(f) => r matches Some(Err(e)) && reports(&e, f),
        },
        r matches Some(Ok(v)) ==> dates_ascending(v@) && v@.len() >= 1,
        r matches Some(Ok(v)) ==> (match scan_from(
            lines@,
            0,
            posting_date,
            grand_total,
            seq![],
            Dec { mantissa: 0, scale: 0 },
        ) {
            Ok((sl, _)) => schedule_fits(sl, grand_total) ==> units_total(v@) == grand_total.units(),
            Err(_) => true,
        }),
{
    let zero = Dec::zero();
    if lt(grand_total, zero) {
        return Some(Err(BillingError::NegativeAmount));
    }
    let mut slices: Vec<(Date, Dec)> = Vec::new();
    let mut fixed_and_percent = zero;
    let n = lines.len();
    let mut i: usize = 0;
    while i < n
        invariant
            n == lines@.len(),
            0 <= i <= n,
            posting_date.valid(),
            grand_total.wf(),
            grand_total.units() >= 0,
            rows_wf(lines@),
            fixed_and_percent.wf(),
            slices_wf(slices@),
            money_scaled(slices@),
            schedule_fits(slices@, grand_total) ==> fixed_and_percent.units() == units_total(slices@)
                && fixed_and_percent.scale <= 2,
            scan_from(lines@, 0, posting_date, grand_total, seq![], zero) == scan_from(
                lines@,
                i as int,
                posting_date,
                grand_total,
                slices@,
                fixed_and_percent,
            ),
            spec_derive_schedule(lines@, posting_date, grand_total) == match scan_from(
                lines@,
                0,
                posting_date,
                grand_total,
                seq![],
                zero,
            ) {
                Err(f) => Err(f),
                Ok((sl, fap)) => match collapse_from(sl, 0, seq![]) {
                    None => Err(Fault::Overflow),
                    Some(col) => settle_schedule(col, fap, lines@, grand_total, posting_date),
                },
            },
        decreases n - i,
    {
        let l = &lines[i];
        assert(lines@[i as int] == *l);
        assert(l.value_amount.wf());
        match term_slice(l, posting_date, grand_total) {
            None => {
                return None;
            },
            Some(Err(e)) => {
                return Some(Err(e));
            },
            Some(Ok((due, a))) => {
                let ghost before = slices@;
                let ghost after = slices@.push((due, a));
                let ghost old_fap = fixed_and_percent;
                let ghost fits_now = schedule_fits(after, grand_total);
                proof {
                    lemma_totals_push(before, (due, a));
                    lemma_totals_bounds(before);
                    lemma_totals_bounds(after);
                    let sc: nat = (if grand_total.scale <= 2 { 2 } else { grand_total.scale }) as nat;
                    lemma_room_mono(2, sc);
                    assert(after[after.len() - 1] == (due, a));
                    if fits_now {
                        assert(schedule_fits(before, grand_total));
                        assert(old_fap.units() == units_total(before));
                        if l.value@ != "balance"@ {
                            lemma_add_fits_in_room(fixed_and_percent, a, 2);
                        }
                    }
                }
                if !str_eq(l.value.as_str(), "balance") {
                    match checked_add(fixed_and_percent, a) {
                        Some(f2) => {
                            fixed_and_percent = f2;
                        },
                        None => {
                            return None;
                        },
                    }
                } else {
                    proof {
                        reveal_strlit("balance");
                        reveal_strlit("fixed");
                        reveal_strlit("percent");
                        assert(l.value@ =~= "balance"@);
                        assert(l.value@[0] != "fixed"@[0]);
                        assert(l.value@[0] != "percent"@[0]);
                        assert(a == Dec { mantissa: 0, scale: 0 });
                    }
                }
                assert(fits_now ==> fixed_and_percent.units() == units_total(after)
                    && fixed_and_percent.scale <= 2);
                slices.push((due, a));
                assert(money_scaled(slices@)) by {
                    assert forall|t: int| 0 <= t < slices@.len() implies (#[trigger] slices@[t]).1.scale
                        <= 2 by {
                        if t < before.len() {
                            assert(slices@[t] == before[t]);
                        }
                    }
                }
            },
        }
        i = i + 1;
    }
    assert(scan_from(lines@, 0, posting_date, grand_total, seq![], zero) == Ok::<
        (Seq<(Date, Dec)>, Dec),
        Fault,
    >((slices@, fixed_and_percent)));
    let ghost fits = schedule_fits(slices@, grand_total);
    let ghost sc: nat = (if grand_total.scale <= 2 { 2 } else { grand_total.scale }) as nat;
    proof {
        lemma_room_mono(2, sc);
        lemma_totals_bounds(slices@);
        assert(slices@.take(0) =~= Seq::<(Date, Dec)>::empty());
    }
    // Same-date slices collapse (two 30-day slices of one term are one installment of the sum).
    let mut collapsed: Vec<(Date, Dec)> = Vec::new();
    let m = slices.len();
    let mut k: usize = 0;
    while k < m
        invariant
            m == slices@.len(),
            0 <= k <= m,
            slices_wf(slices@),
            slices_wf(collapsed@),
            money_scaled(slices@),
            dates_ascending(collapsed@),
            fits == schedule_fits(slices@, grand_total),
            abs_total(slices@) >= 0,
            sc == (if grand_total.scale <= 2 { 2 } else { grand_total.scale }) as nat,
            room(sc) <= room(2),
            fits ==> units_total(collapsed@) == units_total(slices@.take(k as int)) && abs_total(
                collapsed@,
            ) <= abs_total(slices@.take(k as int)) && money_scaled(collapsed@),
            collapse_from(slices@, 0, seq![]) == collapse_from(slices@, k as int, collapsed@),
            spec_derive_schedule(lines@, posting_date, grand_total) == match collapse_from(
                slices@,
                0,
                seq![],
            ) {
                None => Err(Fault::Overflow),
                Some(col) => settle_schedule(
                    col,
                    fixed_and_percent,
                    lines@,
                    grand_total,
                    posting_date,
                ),
            },
        decreases m - k,
    {
        let (d, a) = slices[k];
        assert(slices@[k as int].1.wf());
        proof {
            assert(slices@.take(k + 1).drop_last() =~= slices@.take(k as int));
            assert(slices@.take(k + 1).last() == (d, a));
            lemma_totals_push(slices@.take(k as int), (d, a));
            assert(slices@.take(k as int).push((d, a)) =~= slices@.take(k + 1));
            lemma_abs_total_take(slices@, k + 1);
            assert(slices@[k as int].1.scale <= 2);
            if fits {
                assert(abs_total(slices@) <= room(sc));
                assert(abs_total(collapsed@) + abs_int(a.units()) <= room(2));
            }
        }
        if !insert_into_schedule(&mut collapsed, d, a) {
            return None;
        }
        k = k + 1;
    }
    proof {
        assert(slices@.take(m as int) =~= slices@);
        lemma_totals_bounds(collapsed@);
        if fits {
            lemma_add_fits_in_room(grand_total, fixed_and_percent, sc);
        }
    }
    // The fixed total, the percent total, and whether the term has a balance slice.
    let mut balance_slice = false;
    let mut fixed = zero;
    let mut percent = zero;
    let mut j: usize = 0;
    while j < n
        invariant
            n == lines@.len(),
            0 <= j <= n,
            rows_wf(lines@),
            fixed.wf(),
            percent.wf(),
            zero == (Dec { mantissa: 0, scale: 0 }),
            balance_slice == exists|t: int| 0 <= t < j && (#[trigger] lines@[t]).value@ == "balance"@,
            fixed_total(lines@, 0, zero) == fixed_total(lines@, j as int, fixed),
            percent_total(lines@, 0, zero) == percent_total(lines@, j as int, percent),
            spec_derive_schedule(lines@, posting_date, grand_total) == settle_schedule(
                collapsed@,
                fixed_and_percent,
                lines@,
                grand_total,
                posting_date,
            ),
        decreases n - j,
    {
        let l = &lines[j];
        assert(lines@[j as int] == *l);
        assert(l.value_amount.wf());
        if str_eq(l.value.as_str(), "balance") {
            balance_slice = true;
        }
        if str_eq(l.value.as_str(), "fixed") {
            fixed = match checked_add(fixed, money(l.value_amount)) {
                Some(f) => f,
                None => {
                    return None;
                },
            };
        }
        if str_eq(l.value.as_str(), "percent") {
            percent = match checked_add(percent, l.value_amount) {
                Some(p) => p,
                None => {
                    return None;
                },
            };
        }
        j = j + 1;
    }
    // Assign the balance + absorb the rounding delta into the last slice (smooth-delta tail).
    let left = match checked_sub(grand_total, fixed_and_percent) {
        Some(x) => x,
        None => {
            return None;
        },
    };
    if lt(grand_total, fixed) {
        return Some(
            Err(term_err("term_exceeds_total", "fixed slices alone exceed the invoice total")),
        );
    }
    let rest = match checked_sub(grand_total, fixed) {
        Some(x) => x,
        None => {
            return None;
        },
    };
    let open = match checked_mul(rest, hundred()) {
        Some(x) => x,
        None => {
            return None;
        },
    };
    let shares = match checked_mul(grand_total, percent) {
        Some(x) => x,
        None => {
            return None;
        },
    };
    if lt(open, shares) {
        return Some(
            Err(term_err("term_exceeds_total", "fixed slices alone exceed the invoice total")),
        );
    }
    if !balance_slice && lt(shares, open) {
        return Some(
            Err(
                term_err(
                    "term_does_not_cover_total",
                    "the term has no balance slice and does not cover the invoice total",
                ),
            ),
        );
    }
    let c = collapsed.len();
    if c > 0 {
        let (d, last) = collapsed[c - 1];
        assert(collapsed@[c - 1].1.wf());
        let ghost col = collapsed@;
        proof {
            if fits {
                assert(abs_int(last.units()) <= abs_total(col));
                assert(last.scale <= 2);
                lemma_add_fits_in_room(last, left, sc);
            }
        }
        match checked_add(last, left) {
            Some(s) => {
                collapsed.set(c - 1, (d, s));
                proof {
                    lemma_totals_update(col, c - 1, (d, s));
                    assert forall|x: int, y: int| 0 <= x < y < collapsed@.len() implies (
                    #[trigger] collapsed@[x]).0.before((#[trigger] collapsed@[y]).0) by {
                        assert(collapsed@[x].0 == col[x].0);
                        assert(collapsed@[y].0 == col[y].0);
                    }
                }
            },
            None => {
                return None;
            },
        }
    } else {
        proof {
            lemma_totals_push(collapsed@, (posting_date, grand_total));
        }
        collapsed.push((posting_date, grand_total));
    }
    Some(Ok(collapsed))
}

/// [`try_derive_schedule`] where its decimal steps stay in range.
pub fn derive_schedule(lines: &[TermLineRow], posting_date: Date, grand_total: Dec) -> (r: Result<
    Vec<(Date, Dec)>,
    BillingError,
>)
    requires
        posting_date.valid(),
        grand_total.wf(),
        rows_wf(lines@),
        spec_derive_schedule(lines@, posting_date, grand_total) != Err::<Seq<(Date, Dec)>, Fault>(
            Fault::Overflow,
        ),
    ensures
        match spec_derive_schedule(lines@, posting_date, grand_total) {
            Ok(s) => r matches Ok(v) && v@ == s,
            Err(f) => r matches Err(e) && reports(&e, f),
        },
        r matches Ok(v) ==> dates_ascending(v@) && v@.len() >= 1,
        r matches Ok(v) ==> (match scan_from(
            lines@,
            0,
            posting_date,
            grand_total,
            seq![],
            Dec { mantissa: 0, scale: 0 },
        ) {
            Ok((sl, _)) => schedule_fits(sl, grand_total) ==> units_total(v@) == grand_total.units(),
            Err(_) => true,
        }),
{
    try_derive_schedule(lines, posting_date, grand_total).unwrap()
}

/// A term header's decision inputs.
pub struct TermHeaderRow {
    pub id: u128,
    /// `None` = a global template.
    pub company_id: Option<u128>,
    pub name: String,
    /// "active" | "inactive"
    pub status: String,
    pub early_discount: bool,
    pub discount_percent: Dec,
    pub discount_days: i32,
    pub discount_account_id: Option<u128>,
}

/// What applying a term to an invoice at posting writes: the derived due date (the last slice's
/// date), the early-pay-discount block, and the installment rows (only when the term splits the
/// invoice into more than one installment).
pub struct TermPlan {
    pub due_date: Date,
    pub epd_percent: Dec,
    pub epd_deadline: Option<Date>,
    pub epd_account: Option<u128>,
    pub installments: Vec<(Date, Dec)>,
}

/// A term may be applied to this company's invoice: a global template, or the company's own.
pub open spec fn term_visible(h: TermHeaderRow, company_id: u128) -> bool {
    h.company_id is None || h.company_id == Some(company_id)
}

/// The discount deadline (posting date + the discount window) exists in chrono's range.
pub open spec fn epd_deadline_defined(h: TermHeaderRow, pd: Date) -> bool {
    h.early_discount ==> crate::calendar::min_day_number() <= pd.number() + h.discount_days
        <= crate::calendar::max_day_number()
}

/// The invoice-post hook's decision: materialize one invoice's term.
///
/// Refuses a term that is missing or another company's (`term_not_found`), a manual due date
/// competing with the term (`due_date_conflicts_with_term`) and pre-existing schedule rows
/// (`schedule_conflicts_with_term`); otherwise derives the schedule, stamps the due date (the last
/// slice's, or the posting date) and the early-pay-discount block (percent, posting date +
/// window, account; zero and none without a discount), and seeds the installments when the term
/// splits the invoice into more than one. `None` where the derivation's decimal steps leave their
/// range, or where the discount deadline (posting date + window) leaves the calendar.
pub fn plan_term_on_post(
    fetched: Option<(TermHeaderRow, Vec<TermLineRow>)>,
    company_id: u128,
    term_id: u128,
    posting_date: Date,
    grand_total: Dec,
    manual_due_date: Option<Date>,
    has_manual_schedules: bool,
) -> (r: Option<Result<TermPlan, BillingError>>)
    requires
        posting_date.valid(),
        grand_total.wf(),
        fetched matches Some((h, lines)) ==> rows_wf(lines@),
    ensures
        match fetched {
            None => r matches Some(Err(BillingError::TermNotFound(t))) && t == term_id,
            Some((h, lines)) => if !term_visible(h, company_id) {
                r matches Some(Err(BillingError::TermNotFound(t))) && t == term_id
            } else if manual_due_date is Some {
                r matches Some(Err(e)) && reports(
                    &e,
                    term_fault(
                        "due_date_conflicts_with_term",
                        "an invoice with a payment term derives its due date; drop the manual due_date",
                    ),
                )
            } else if has_manual_schedules {
                r matches Some(Err(e)) && reports(
                    &e,
                    term_fault(
                        "schedule_conflicts_with_term",
                        "an invoice with a payment term derives its installments; drop the manual schedule",
                    ),
                )
            } else {
                match spec_derive_schedule(lines@, posting_date, grand_total) {
                    Err(Fault::Overflow) => r is None,
                    Err(f) => r matches Some(Err(e)) && reports(&e, f),
                    Ok(s) => if !epd_deadline_defined(h, posting_date) {
                        r is None
                    } else {
                        r matches Some(Ok(plan)) && plan.due_date == (if s.len() > 0 {
                        s.last().0
                    } else {
                        posting_date
                    }) && (if h.early_discount {
                        &&& plan.epd_percent == h.discount_percent
                        &&& plan.epd_deadline == chrono_days_later(
                            posting_date,
                            h.discount_days as int,
                        )
                        &&& plan.epd_deadline matches Some(d) && d.number() == posting_date.number()
                            + h.discount_days
                        &&& plan.epd_account == h.discount_account_id
                    } else {
                        &&& plan.epd_percent == (Dec { mantissa: 0, scale: 0 })
                        &&& plan.epd_deadline is None
                        &&& plan.epd_account is None
                    }) && plan.installments@ == (if s.len() > 1 {
                        s
                    } else {
                        seq![]
                    })
                    },
                }
            },
        },
{
    let (header, lines) = match fetched {
        Some(x) => x,
        None => {
            return Some(Err(BillingError::TermNotFound(term_id)));
        },
    };
    // A term belonging to another company is never applied across tenants.
    match header.company_id {
        Some(c) => {
            if c != company_id {
                return Some(Err(BillingError::TermNotFound(term_id)));
            }
        },
        None => {},
    }
    if manual_due_date.is_some() {
        return Some(Err(
            term_err(
                "due_date_conflicts_with_term",
                "an invoice with a payment term derives its due date; drop the manual due_date",
            ),
        ));
    }
    if has_manual_schedules {
        return Some(Err(
            term_err(
                "schedule_conflicts_with_term",
                "an invoice with a payment term derives its installments; drop the manual schedule",
            ),
        ));
    }
    let schedule = match try_derive_schedule(lines.as_slice(), posting_date, grand_total) {
        None => {
            return None;
        },
        Some(Err(e)) => {
            return Some(Err(e));
        },
        Some(Ok(s)) => s,
    };
    let n = schedule.len();
    let due_date = if n > 0 {
        schedule[n - 1].0
    } else {
        posting_date
    };
    let (epd_percent, epd_deadline, epd_account) = if header.early_discount {
        let deadline = add_days(posting_date, header.discount_days);
        if deadline.is_none() {
            return None;
        }
        (header.discount_percent, deadline, header.discount_account_id)
    } else {
        (Dec::zero(), None, None)
    };
    let installments = if n > 1 {
        schedule
    } else {
        Vec::new()
    };
    Some(Ok(TermPlan { due_date, epd_percent, epd_deadline, epd_account, installments }))
}

/// Preview a term's due dates for a hypothetical invoice: a missing term is `term_not_found`, a
/// retired one `term_inactive`; otherwise the derivation the post hook materializes (`None` where
/// its decimal steps leave their range).
pub fn preview_term(
    fetched: Option<(TermHeaderRow, Vec<TermLineRow>)>,
    term_id: u128,
    posting_date: Date,
    grand_total: Dec,
) -> (r: Option<Result<Vec<(Date, Dec)>, BillingError>>)
    requires
        posting_date.valid(),
        grand_total.wf(),
        fetched matches Some((h, lines)) ==> rows_wf(lines@),
    ensures
        match fetched {
            None => r matches Some(Err(BillingError::TermNotFound(t))) && t == term_id,
            Some((h, lines)) => if h.status@ != "active"@ {
                r matches Some(Err(e)) && reports(
                    &e,
                    term_fault("term_inactive", "the term is retired; pick an active one"),
                )
            } else {
                match spec_derive_schedule(lines@, posting_date, grand_total) {
                    Ok(s) => r matches Some(Ok(v)) && v@ == s,
                    Err(Fault::Overflow) => r is None,
                    Err(f) => r matches Some(Err(e)) && reports(&e, f),
                }
            },
        },
{
    let (header, lines) = match fetched {
        Some(x) => x,
        None => {
            return Some(Err(BillingError::TermNotFound(term_id)));
        },
    };
    if !str_eq(header.status.as_str(), "active") {
        return Some(Err(term_err("term_inactive", "the term is retired; pick an active one")));
    }
    try_derive_schedule(lines.as_slice(), posting_date, grand_total)
}

/// A term's status may only be set to `active` or `inactive`.
pub fn check_term_status(status: &str) -> (r: Result<(), BillingError>)
    ensures
        (status@ == "active"@ || status@ == "inactive"@) ==> r is Ok,
        !(status@ == "active"@ || status@ == "inactive"@) ==> (r matches Err(e) && reports(
            &e,
            term_fault("term_status_invalid", "status must be 'active' or 'inactive'"),
        )),
{
    if !str_eq(status, "active") && !str_eq(status, "inactive") {
        return Err(term_err("term_status_invalid", "status must be 'active' or 'inactive'"));
    }
    Ok(())
}

/// A status update that matched no row (a global template, another company's term, or no term)
/// reads as `term_not_found`.
pub fn term_status_updated(term_id: u128, affected: u64) -> (r: Result<(), BillingError>)
    ensures
        affected > 0 ==> r is Ok,
        affected == 0 ==> (r matches Err(BillingError::TermNotFound(t)) && t == term_id),
{
    if affected > 0 {
        Ok(())
    } else {
        Err(BillingError::TermNotFound(term_id))
    }
}

/// A term line's delay when the request names none.
pub fn default_delay_type() -> (r: String)
    ensures
        r@ == "days"@,
{
    "days".to_string()
}

/// A term line's anchor when the request names none.
pub fn default_anchor() -> (r: String)
    ensures
        r@ == "invoice_date"@,
{
    "invoice_date".to_string()
}

/// A term's (or line's) sequence when the request names none.
pub fn default_sequence() -> (r: i32)
    ensures
        r == 10,
{
    10
}

/// A term's discount tax basis when the request names none.
pub fn default_discount_tax_basis() -> (r: String)
    ensures
        r@ == "included"@,
{
    "included".to_string()
}

} // verus!
