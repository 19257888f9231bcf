//! Exact decimal amounts.
//!
//! Money, quantities, prices and percentages are decimals with a 96-bit mantissa and a scale of at
//! most 28 fractional digits. The library holds such a number as plain values, a [`Dec`], and
//! hands every arithmetic step to `rust_decimal`, whose behaviour the trusted items below state.
//!
//! The mathematical value of a [`Dec`] is `mantissa / 10^scale`; the spec works with
//! [`Dec::units`], that value counted in units of `10^-28`, which is always an integer.
use vstd::prelude::*;

use rust_decimal::Decimal;
use rust_decimal::RoundingStrategy;

verus! {

/// The largest mantissa magnitude a decimal can carry (`2^96 - 1`).
pub const MAX_MANTISSA: i128 = 79228162514264337593543950335i128;

/// The largest scale (number of fractional digits) a decimal can carry.
pub const MAX_SCALE: u32 = 28u32;

/// `10^n`.
pub open spec fn pow10(n: nat) -> int
    decreases n,
{
    if n == 0 {
        1
    } else {
        10 * pow10((n - 1) as nat)
    }
}

/// A decimal number `mantissa / 10^scale`.
#[derive(Debug, Clone, Copy, PartialEq, Eq, Structural)]
pub struct Dec {
    pub mantissa: i128,
    pub scale: u32,
}

impl Dec {
    /// The number is one `rust_decimal` can represent.
    pub open spec fn wf(self) -> bool {
        &&& self.scale <= MAX_SCALE
        &&& -MAX_MANTISSA <= self.mantissa <= MAX_MANTISSA
    }

    /// The value, counted in units of `10^-28`.
    pub open spec fn units(self) -> int {
        self.mantissa as int * pow10((MAX_SCALE - self.scale) as nat)
    }

    /// The mantissa rescaled to `s` fractional digits (`s >= self.scale`).
    pub open spec fn aligned(self, s: nat) -> int {
        self.mantissa as int * pow10((s - self.scale) as nat)
    }

    /// Zero, written without fractional digits.
    pub fn zero() -> (r: Dec)
        ensures
            r == (Dec { mantissa: 0, scale: 0 }),
            r.wf(),
            r.units() == 0,
    {
        Dec { mantissa: 0, scale: 0 }
    }

    /// A whole number.
    pub fn from_int(n: i64) -> (r: Dec)
        ensures
            r == (Dec { mantissa: n as i128, scale: 0 }),
            r.wf(),
            r.units() == n * pow10(28),
    {
        proof {
            lemma_pow10_28();
        }
        Dec { mantissa: n as i128, scale: 0 }
    }

    /// Whether the value is zero.
    pub fn is_zero(&self) -> (b: bool)
        ensures
            b == (self.units() == 0),
    {
        proof {
            lemma_pow10_pos((MAX_SCALE - self.scale) as nat);
            vstd::arithmetic::mul::lemma_mul_nonzero(
                self.mantissa as int,
                pow10((MAX_SCALE - self.scale) as nat),
            );
        }
        self.mantissa == 0
    }
}

/// A power of ten is positive.
pub proof fn lemma_pow10_pos(n: nat)
    ensures
        pow10(n) > 0,
    decreases n,
{
    if n > 0 {
        lemma_pow10_pos((n - 1) as nat);
    }
}

/// Powers of ten multiply by adding exponents.
pub proof fn lemma_pow10_adds(a: nat, b: nat)
    ensures
        pow10(a + b) == pow10(a) * pow10(b),
    decreases a,
{
    if a == 0 {
    } else {
        lemma_pow10_adds((a - 1) as nat, b);
        assert(pow10(a + b) == 10 * pow10((a - 1 + b) as nat));
        vstd::arithmetic::mul::lemma_mul_is_associative(10, pow10((a - 1) as nat), pow10(b));
    }
}

/// A larger exponent gives a larger power of ten.
pub proof fn lemma_pow10_mono(a: nat, b: nat)
    requires
        a <= b,
    ensures
        pow10(a) <= pow10(b),
    decreases b,
{
    if a < b {
        lemma_pow10_mono(a, (b - 1) as nat);
        lemma_pow10_pos((b - 1) as nat);
    }
}

/// The powers of ten the money arithmetic uses.
pub proof fn lemma_pow10_28()
    ensures
        pow10(0) == 1,
        pow10(1) == 10,
        pow10(2) == 100,
        pow10(26) == 100000000000000000000000000,
        pow10(28) == 10000000000000000000000000000,
{
    reveal_with_fuel(pow10, 29);
}

/// A value rescaled: `aligned(d, s) * 10^(28 - s) == units(d)`.
pub proof fn lemma_aligned_units(d: Dec, s: nat)
    requires
        d.scale <= s <= 28,
    ensures
        d.aligned(s) * pow10((28 - s) as nat) == d.units(),
{
    lemma_pow10_adds((s - d.scale) as nat, (28 - s) as nat);
    vstd::arithmetic::mul::lemma_mul_is_associative(
        d.mantissa as int,
        pow10((s - d.scale) as nat),
        pow10((28 - s) as nat),
    );
}

/// The larger of two scales.
pub open spec fn max_scale(a: Dec, b: Dec) -> nat {
    if a.scale >= b.scale {
        a.scale as nat
    } else {
        b.scale as nat
    }
}

/// Both operands, and their sum, fit in the mantissa once aligned to the larger scale; in that case
/// the decimal sum is exact.
pub open spec fn add_fits(a: Dec, b: Dec) -> bool {
    let s = max_scale(a, b);
    &&& -MAX_MANTISSA <= a.aligned(s) <= MAX_MANTISSA
    &&& -MAX_MANTISSA <= b.aligned(s) <= MAX_MANTISSA
    &&& -MAX_MANTISSA <= a.aligned(s) + b.aligned(s) <= MAX_MANTISSA
}

/// As [`add_fits`], for the difference.
pub open spec fn sub_fits(a: Dec, b: Dec) -> bool {
    let s = max_scale(a, b);
    &&& -MAX_MANTISSA <= a.aligned(s) <= MAX_MANTISSA
    &&& -MAX_MANTISSA <= b.aligned(s) <= MAX_MANTISSA
    &&& -MAX_MANTISSA <= a.aligned(s) - b.aligned(s) <= MAX_MANTISSA
}

/// The product's digits fit: the scales add up to at most 28 and the mantissas' product fits.
pub open spec fn mul_fits(a: Dec, b: Dec) -> bool {
    &&& a.scale + b.scale <= MAX_SCALE
    &&& -MAX_MANTISSA <= a.mantissa * b.mantissa <= MAX_MANTISSA
}

/// What `rust_decimal`'s checked addition returns for two decimals.
pub uninterp spec fn decimal_checked_add(a: Dec, b: Dec) -> Option<Dec>;

/// What `rust_decimal`'s checked subtraction returns for two decimals.
pub uninterp spec fn decimal_checked_sub(a: Dec, b: Dec) -> Option<Dec>;

/// What `rust_decimal`'s checked multiplication returns for two decimals.
pub uninterp spec fn decimal_checked_mul(a: Dec, b: Dec) -> Option<Dec>;

/// What `rust_decimal`'s checked division returns for two decimals.
pub uninterp spec fn decimal_checked_div(a: Dec, b: Dec) -> Option<Dec>;

/// `Decimal::checked_add`. The result is named; when the aligned operands and their sum fit in the
/// mantissa it is the exact sum. Otherwise `rust_decimal` may drop fractional digits (rounding) or
/// report overflow, which is left unsaid beyond the name.
#[verifier::external_body]
fn decimal_add(a: Dec, b: Dec) -> (r: Option<Dec>)
    requires
        a.wf(),
        b.wf(),
    ensures
        r == decimal_checked_add(a, b),
        r matches Some(c) ==> c.wf(),
        add_fits(a, b) ==> (r is Some && r.unwrap().units() == a.units() + b.units()
            && r.unwrap().scale <= max_scale(a, b)),
{
    let x = Decimal::from_i128_with_scale(a.mantissa, a.scale);
    let y = Decimal::from_i128_with_scale(b.mantissa, b.scale);
    x.checked_add(y).map(|c| Dec { mantissa: c.mantissa(), scale: c.scale() })
}

/// `Decimal::checked_sub`, stated as [`decimal_add`] is.
#[verifier::external_body]
fn decimal_sub(a: Dec, b: Dec) -> (r: Option<Dec>)
    requires
        a.wf(),
        b.wf(),
    ensures
        r == decimal_checked_sub(a, b),
        r matches Some(c) ==> c.wf(),
        sub_fits(a, b) ==> (r is Some && r.unwrap().units() == a.units() - b.units()
            && r.unwrap().scale <= max_scale(a, b)),
{
    let x = Decimal::from_i128_with_scale(a.mantissa, a.scale);
    let y = Decimal::from_i128_with_scale(b.mantissa, b.scale);
    x.checked_sub(y).map(|c| Dec { mantissa: c.mantissa(), scale: c.scale() })
}

/// `Decimal::checked_mul`. Named; exact (mantissas multiplied, scales added) when that product
/// fits, and zero (without fractional digits) when an operand is zero; otherwise `rust_decimal`
/// rounds away digits or reports overflow, left unsaid.
#[verifier::external_body]
fn decimal_mul(a: Dec, b: Dec) -> (r: Option<Dec>)
    requires
        a.wf(),
        b.wf(),
    ensures
        r == decimal_checked_mul(a, b),
        r matches Some(c) ==> c.wf(),
        mul_fits(a, b) ==> (r is Some && r.unwrap().units() == (a.mantissa * b.mantissa) * pow10(
            (MAX_SCALE - a.scale - b.scale) as nat,
        )),
        (mul_fits(a, b) && a.mantissa != 0 && b.mantissa != 0) ==> (r is Some
            && r.unwrap().mantissa == a.mantissa * b.mantissa && r.unwrap().scale == a.scale
            + b.scale),
        (a.mantissa == 0 || b.mantissa == 0) ==> r == Some(Dec { mantissa: 0, scale: 0 }),
{
    let x = Decimal::from_i128_with_scale(a.mantissa, a.scale);
    let y = Decimal::from_i128_with_scale(b.mantissa, b.scale);
    x.checked_mul(y).map(|c| Dec { mantissa: c.mantissa(), scale: c.scale() })
}

/// `Decimal::checked_div`. Named; `None` for a zero divisor, and the exact quotient when dividing
/// by one hundred a number with at most 26 fractional digits. Other quotients are left unsaid.
#[verifier::external_body]
fn decimal_div(a: Dec, b: Dec) -> (r: Option<Dec>)
    requires
        a.wf(),
        b.wf(),
    ensures
        r == decimal_checked_div(a, b),
        r matches Some(c) ==> c.wf(),
        b.mantissa == 0 ==> r is None,
        (b == Dec { mantissa: 100, scale: 0 } && a.scale <= 26) ==> (r is Some && r.unwrap().units()
            * 100 == a.units()),
{
    let x = Decimal::from_i128_with_scale(a.mantissa, a.scale);
    let y = Decimal::from_i128_with_scale(b.mantissa, b.scale);
    x.checked_div(y).map(|c| Dec { mantissa: c.mantissa(), scale: c.scale() })
}

/// Integer division of `m` by `p` rounding half away from zero.
pub open spec fn div_round_half_away(m: int, p: int) -> int {
    if m >= 0 {
        if (m % p) * 2 >= p {
            m / p + 1
        } else {
            m / p
        }
    } else {
        -(if ((-m) % p) * 2 >= p {
            (-m) / p + 1
        } else {
            (-m) / p
        })
    }
}

/// A value rounded to two fractional digits, midpoint away from zero; values with at most two
/// fractional digits are kept as they are.
pub open spec fn spec_money(d: Dec) -> Dec {
    if d.scale <= 2 {
        d
    } else {
        Dec {
            mantissa: div_round_half_away(d.mantissa as int, pow10((d.scale - 2) as nat)) as i128,
            scale: 2,
        }
    }
}

/// `Decimal::round_dp_with_strategy(2, RoundingStrategy::MidpointAwayFromZero)`: a value with at
/// most two fractional digits comes back unchanged, any other is rounded to two fractional digits,
/// half away from zero.
#[verifier::external_body]
fn decimal_round_money(a: Dec) -> (r: Dec)
    requires
        a.wf(),
    ensures
        r == spec_money(a),
{
    let x = Decimal::from_i128_with_scale(a.mantissa, a.scale);
    let c = x.round_dp_with_strategy(2, RoundingStrategy::MidpointAwayFromZero);
    Dec { mantissa: c.mantissa(), scale: c.scale() }
}

/// `Decimal`'s `<`: the numeric order.
#[verifier::external_body]
fn decimal_lt(a: Dec, b: Dec) -> (r: bool)
    requires
        a.wf(),
        b.wf(),
    ensures
        r == (a.units() < b.units()),
{
    Decimal::from_i128_with_scale(a.mantissa, a.scale) < Decimal::from_i128_with_scale(
        b.mantissa,
        b.scale,
    )
}

/// `a + b`, as `rust_decimal` computes it (`None` where it overflows).
pub fn checked_add(a: Dec, b: Dec) -> (r: Option<Dec>)
    requires
        a.wf(),
        b.wf(),
    ensures
        r == decimal_checked_add(a, b),
        r matches Some(c) ==> c.wf(),
        add_fits(a, b) ==> (r is Some && r.unwrap().units() == a.units() + b.units()
            && r.unwrap().scale <= max_scale(a, b)),
{
    decimal_add(a, b)
}

/// `a - b`, as `rust_decimal` computes it (`None` where it overflows).
pub fn checked_sub(a: Dec, b: Dec) -> (r: Option<Dec>)
    requires
        a.wf(),
        b.wf(),
    ensures
        r == decimal_checked_sub(a, b),
        r matches Some(c) ==> c.wf(),
        sub_fits(a, b) ==> (r is Some && r.unwrap().units() == a.units() - b.units()
            && r.unwrap().scale <= max_scale(a, b)),
{
    decimal_sub(a, b)
}

/// `a * b`, as `rust_decimal` computes it (`None` where it overflows).
pub fn checked_mul(a: Dec, b: Dec) -> (r: Option<Dec>)
    requires
        a.wf(),
        b.wf(),
    ensures
        r == decimal_checked_mul(a, b),
        r matches Some(c) ==> c.wf(),
        mul_fits(a, b) ==> (r is Some && r.unwrap().units() == (a.mantissa * b.mantissa) * pow10(
            (MAX_SCALE - a.scale - b.scale) as nat,
        )),
        (mul_fits(a, b) && a.mantissa != 0 && b.mantissa != 0) ==> (r is Some
            && r.unwrap().mantissa == a.mantissa * b.mantissa && r.unwrap().scale == a.scale
            + b.scale),
        (a.mantissa == 0 || b.mantissa == 0) ==> r == Some(Dec { mantissa: 0, scale: 0 }),
{
    decimal_mul(a, b)
}

/// `a / b`, as `rust_decimal` computes it (`None` where it overflows or `b` is zero).
pub fn checked_div(a: Dec, b: Dec) -> (r: Option<Dec>)
    requires
        a.wf(),
        b.wf(),
    ensures
        r == decimal_checked_div(a, b),
        r matches Some(c) ==> c.wf(),
        b.mantissa == 0 ==> r is None,
        (b == Dec { mantissa: 100, scale: 0 } && a.scale <= 26) ==> (r is Some && r.unwrap().units()
            * 100 == a.units()),
{
    decimal_div(a, b)
}

/// Round an amount to money precision: two fractional digits, midpoint away from zero.
pub fn money(v: Dec) -> (r: Dec)
    requires
        v.wf(),
    ensures
        r == spec_money(v),
        r.wf(),
        r.scale <= 2,
{
    proof {
        lemma_money_wf(v);
    }
    decimal_round_money(v)
}

/// `a < b` by value.
pub fn lt(a: Dec, b: Dec) -> (r: bool)
    requires
        a.wf(),
        b.wf(),
    ensures
        r == (a.units() < b.units()),
{
    decimal_lt(a, b)
}

/// `a <= b` by value.
pub fn le(a: Dec, b: Dec) -> (r: bool)
    requires
        a.wf(),
        b.wf(),
    ensures
        r == (a.units() <= b.units()),
{
    !decimal_lt(b, a)
}

/// The smaller of two values (the first on a tie).
pub fn min(a: Dec, b: Dec) -> (r: Dec)
    requires
        a.wf(),
        b.wf(),
    ensures
        r == (if a.units() < b.units() { a } else { b }),
{
    if decimal_lt(a, b) {
        a
    } else {
        b
    }
}

/// Rounding to money precision keeps a number representable.
pub proof fn lemma_money_wf(v: Dec)
    requires
        v.wf(),
    ensures
        spec_money(v).wf(),
        spec_money(v).scale <= 2,
{
    if v.scale > 2 {
        let p = pow10((v.scale - 2) as nat);
        lemma_pow10_pos((v.scale - 2) as nat);
        lemma_pow10_mono(1, (v.scale - 2) as nat);
        reveal_with_fuel(pow10, 2);
        let m = v.mantissa as int;
        if m >= 0 {
            vstd::arithmetic::div_mod::lemma_div_is_ordered_by_denominator(m, 10, p);
            assert(m / 10 <= MAX_MANTISSA / 10) by {
                vstd::arithmetic::div_mod::lemma_div_is_ordered(m, MAX_MANTISSA as int, 10);
            }
        } else {
            let a = -m;
            vstd::arithmetic::div_mod::lemma_div_is_ordered_by_denominator(a, 10, p);
            assert(a / 10 <= MAX_MANTISSA / 10) by {
                vstd::arithmetic::div_mod::lemma_div_is_ordered(a, MAX_MANTISSA as int, 10);
            }
        }
    }
}

/// Rounding to money precision twice changes nothing.
pub proof fn lemma_money_idempotent(v: Dec)
    requires
        v.wf(),
    ensures
        spec_money(spec_money(v)) == spec_money(v),
{
    lemma_money_wf(v);
}

/// The sign of a value is the sign of its mantissa.
pub proof fn lemma_units_sign(v: Dec)
    ensures
        v.units() > 0 <==> v.mantissa > 0,
        v.units() == 0 <==> v.mantissa == 0,
        v.units() < 0 <==> v.mantissa < 0,
{
    let p = pow10((MAX_SCALE - v.scale) as nat);
    lemma_pow10_pos((MAX_SCALE - v.scale) as nat);
    let m = v.mantissa as int;
    assert(v.units() == m * p);
    assert(m > 0 ==> m * p > 0) by (nonlinear_arith)
        requires
            p > 0,
    ;
    assert(m < 0 ==> m * p < 0) by (nonlinear_arith)
        requires
            p > 0,
    ;
    assert(m == 0 ==> m * p == 0) by (nonlinear_arith);
}

/// Rounding to money keeps a non-negative amount non-negative.
pub proof fn lemma_money_sign(v: Dec)
    requires
        v.wf(),
    ensures
        v.units() >= 0 ==> spec_money(v).units() >= 0,
{
    lemma_units_sign(v);
    lemma_units_sign(spec_money(v));
    if v.scale > 2 {
        lemma_pow10_pos((v.scale - 2) as nat);
    }
}

/// How far from zero a value with at most `s` fractional digits may lie and still be carried exactly
/// (its mantissa at `s` digits within range), in units.
pub open spec fn room(s: nat) -> int {
    MAX_MANTISSA * pow10((28 - s) as nat)
}

/// The magnitude of an integer.
pub open spec fn abs_int(x: int) -> int {
    if x < 0 {
        -x
    } else {
        x
    }
}

proof fn lemma_scaled_bound(x: int, p: int, q: int, m: int)
    requires
        p >= q > 0,
        m >= 0,
        abs_int(x * p) <= m * q,
    ensures
        abs_int(x) <= m,
{
    assert(abs_int(x) <= m) by (nonlinear_arith)
        requires
            p >= q > 0,
            m >= 0,
            abs_int(x * p) <= m * q,
            abs_int(x) == (if x < 0 { -x } else { x }),
            abs_int(x * p) == (if x * p < 0 { -(x * p) } else { x * p }),
    ;
}

/// A wider room for fewer digits.
pub proof fn lemma_room_mono(s: nat, t: nat)
    requires
        s <= t <= 28,
    ensures
        room(t) <= room(s),
{
    lemma_pow10_mono((28 - t) as nat, (28 - s) as nat);
    assert(MAX_MANTISSA * pow10((28 - t) as nat) <= MAX_MANTISSA * pow10((28 - s) as nat)) by (nonlinear_arith)
        requires
            pow10((28 - t) as nat) <= pow10((28 - s) as nat),
    ;
}

/// Numbers with at most `s` fractional digits whose values and sum lie within `room(s)` add
/// exactly.
pub proof fn lemma_add_fits_in_room(a: Dec, b: Dec, s: nat)
    requires
        a.scale <= s <= 28,
        b.scale <= s,
        abs_int(a.units()) <= room(s),
        abs_int(b.units()) <= room(s),
        abs_int(a.units() + b.units()) <= room(s),
    ensures
        add_fits(a, b),
        sub_fits(a, b) <== abs_int(a.units() - b.units()) <= room(s),
{
    let t = max_scale(a, b);
    let p = pow10((28 - t) as nat);
    let q = pow10((28 - s) as nat);
    lemma_pow10_mono((28 - s) as nat, (28 - t) as nat);
    lemma_pow10_pos((28 - s) as nat);
    lemma_aligned_units(a, t);
    lemma_aligned_units(b, t);
    let x = a.aligned(t);
    let y = b.aligned(t);
    lemma_scaled_bound(x, p, q, MAX_MANTISSA as int);
    lemma_scaled_bound(y, p, q, MAX_MANTISSA as int);
    assert((x + y) * p == x * p + y * p) by (nonlinear_arith);
    lemma_scaled_bound(x + y, p, q, MAX_MANTISSA as int);
    if abs_int(a.units() - b.units()) <= room(s) {
        assert((x - y) * p == x * p - y * p) by (nonlinear_arith);
        lemma_scaled_bound(x - y, p, q, MAX_MANTISSA as int);
    }
}

/// The decimals added up, in units.
pub open spec fn decs_total(s: Seq<Dec>) -> int
    decreases s.len(),
{
    if s.len() == 0 {
        0
    } else {
        decs_total(s.drop_last()) + s.last().units()
    }
}

/// The decimals' magnitudes added up, in units.
pub open spec fn decs_abs(s: Seq<Dec>) -> int
    decreases s.len(),
{
    if s.len() == 0 {
        0
    } else {
        decs_abs(s.drop_last()) + abs_int(s.last().units())
    }
}

/// Every decimal has at most two fractional digits.
pub open spec fn decs_money(s: Seq<Dec>) -> bool {
    forall|i: int| 0 <= i < s.len() ==> (#[trigger] s[i]).scale <= 2
}

/// A sum is no larger in magnitude than the sum of the magnitudes.
pub proof fn lemma_decs_bounds(s: Seq<Dec>)
    ensures
        decs_abs(s) >= 0,
        abs_int(decs_total(s)) <= decs_abs(s),
    decreases s.len(),
{
    if s.len() > 0 {
        lemma_decs_bounds(s.drop_last());
    }
}

/// A prefix's magnitudes add up to no more than the whole's.
pub proof fn lemma_decs_take(s: Seq<Dec>, k: int)
    requires
        0 <= k <= s.len(),
    ensures
        decs_abs(s.take(k)) <= decs_abs(s),
    decreases s.len() - k,
{
    if k < s.len() {
        assert(s.take(k + 1).drop_last() =~= s.take(k));
        lemma_decs_take(s, k + 1);
    } else {
        assert(s.take(k) =~= s);
    }
}

/// A sum grows by the last term.
pub proof fn lemma_decs_push(s: Seq<Dec>, x: Dec)
    ensures
        decs_total(s.push(x)) == decs_total(s) + x.units(),
        decs_abs(s.push(x)) == decs_abs(s) + abs_int(x.units()),
{
    assert(s.push(x).drop_last() =~= s);
}

} // verus!
