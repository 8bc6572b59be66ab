//! The collateral-value-to-loan ratio (CVL) of a credit facility, in percent.

use vstd::prelude::*;
use crate::decimal::{
    abs, aligned_sum, decimal_product, decimal_quotient, decimal_sum, decimal_text,
    lemma_pow10_positive, sum_kept_exact,
    lemma_rounded_to_zero_bound,
    less_value, pow10, product_exact, product_fits, quotient_floor, rounded, same_value, usd,
    value_order, whole_u64, Dec, Rounding, MAX_MANTISSA,
};
use crate::primitives::UsdCents;
use std::cmp::Ordering;
use vstd::std_specs::cmp::PartialEqSpecImpl;
use vstd::std_specs::cmp::PartialOrdSpecImpl;

verus! {

/// A collateral-value-to-loan ratio in percent: a finite decimal, or infinite
/// when nothing is owed against the collateral.
#[derive(Clone, Copy, Debug)]
pub enum CVLPct {
    Finite(Dec),
    Infinite,
}

/// One hundred, without fractional digits.
pub open spec fn hundred() -> Dec {
    Dec { mantissa: 100, scale: 0 }
}

/// The ratio `collateral / outstanding` in percent, cut (towards zero) to
/// whole hundredths before it is turned into a percentage: zero without
/// collateral, infinite when nothing is outstanding.
pub open spec fn loan_ratio(collateral: UsdCents, outstanding: UsdCents) -> CVLPct {
    if collateral.cents == 0 {
        CVLPct::Finite(Dec { mantissa: 0, scale: 0 })
    } else if outstanding.cents == 0 {
        CVLPct::Infinite
    } else {
        CVLPct::Finite(
            product_exact(
                rounded(decimal_quotient(usd(collateral), usd(outstanding))->0, 2, Rounding::ToZero),
                hundred(),
            ),
        )
    }
}

/// The cents that `pct` percent of `amount` come to, rounded away from zero
/// to whole cents: `amount` in dollars times one hundred times `pct / 100`.
/// None where a step overflows or the result is not a `u64`.
pub open spec fn scaled_cents(pct: Dec, amount: UsdCents) -> Option<u64> {
    let cents = product_exact(usd(amount), hundred());
    match decimal_quotient(pct, hundred()) {
        Some(fraction) => match decimal_product(cents, fraction) {
            Some(p) => whole_u64(rounded(p, 0, Rounding::AwayFromZero)),
            None => None,
        },
        None => None,
    }
}

/// The sum of two ratios: infinite if either is.
pub open spec fn cvl_sum(a: CVLPct, b: CVLPct) -> CVLPct {
    match (a, b) {
        (CVLPct::Finite(x), CVLPct::Finite(y)) => CVLPct::Finite(decimal_sum(x, y)->0),
        _ => CVLPct::Infinite,
    }
}

/// The sum of two ratios exists: the decimal addition does not overflow.
pub open spec fn cvl_sum_defined(a: CVLPct, b: CVLPct) -> bool {
    match (a, b) {
        (CVLPct::Finite(x), CVLPct::Finite(y)) => decimal_sum(x, y) is Some,
        _ => true,
    }
}

/// Both ratios are finite, and the decimal crate adds them exactly (see
/// `sum_kept_exact`).
pub open spec fn finite_sum_kept_exact(a: CVLPct, b: CVLPct) -> bool {
    match (a, b) {
        (CVLPct::Finite(x), CVLPct::Finite(y)) => sum_kept_exact(x, y),
        _ => false,
    }
}

/// `a` is a greater ratio than `b`: infinity is above every finite ratio,
/// finite ratios compare as numbers.
pub open spec fn cvl_greater(a: CVLPct, b: CVLPct) -> bool {
    match (a, b) {
        (CVLPct::Infinite, CVLPct::Finite(_)) => true,
        (CVLPct::Finite(x), CVLPct::Finite(y)) => less_value(y, x),
        _ => false,
    }
}

impl CVLPct {
    /// A finite ratio holds a decimal that a decimal can hold.
    pub open spec fn is_valid(self) -> bool {
        self is Finite ==> self->Finite_0.is_valid()
    }

    /// The zero ratio.
    pub fn zero() -> (c: CVLPct)
        ensures
            c == CVLPct::Finite(Dec { mantissa: 0, scale: 0 }),
    {
        CVLPct::Finite(Dec::zero())
    }

    /// The whole percentage `value`.
    pub fn new(value: u64) -> (c: CVLPct)
        ensures
            c is Finite,
            c->Finite_0.mantissa == value,
            c->Finite_0.scale == 0,
            c.is_valid(),
    {
        CVLPct::Finite(Dec::from_u64(value))
    }

    /// The ratio of the collateral's value to the amount outstanding.
    pub fn from_loan_amounts(collateral_value: UsdCents, total_outstanding_amount: UsdCents) -> (c:
        CVLPct)
        ensures
            c == loan_ratio(collateral_value, total_outstanding_amount),
            c.is_valid(),
            total_outstanding_amount.cents > 0 && collateral_value.cents
                % total_outstanding_amount.cents == 0 ==> c == CVLPct::Finite(
                Dec {
                    mantissa: (100 * (collateral_value.cents / total_outstanding_amount.cents))
                        as i128,
                    scale: 0,
                },
            ),
    {
        if collateral_value.is_zero() {
            return CVLPct::zero();
        }
        if total_outstanding_amount.is_zero() {
            return CVLPct::Infinite;
        }
        let collateral = collateral_value.to_usd();
        let outstanding = total_outstanding_amount.to_usd();
        let quotient = match collateral.checked_div(outstanding) {
            Some(q) => q,
            None => unreached(),
        };
        let cut = quotient.round_dp(2, Rounding::ToZero);
        proof {
            lemma_cut_ratio_fits(collateral_value, total_outstanding_amount, quotient, cut);
            let c = collateral_value.cents as int;
            let o = total_outstanding_amount.cents as int;
            if c % o == 0 {
                assert(collateral.mantissa / outstanding.mantissa == c / o);
                assert(quotient == Dec { mantissa: (c / o) as i128, scale: 0 });
                assert(cut == quotient);
                assert(c / o >= 1) by {
                    vstd::arithmetic::div_mod::lemma_fundamental_div_mod(c, o);
                    let q = c / o;
                    assert(q >= 1) by (nonlinear_arith)
                        requires
                            c == o * q,
                            c >= 1,
                            o >= 1,
                    ;
                }
                assert(c / o <= c) by {
                    vstd::arithmetic::div_mod::lemma_div_is_ordered_by_denominator(c, 1, o);
                }
            }
        }
        match cut.checked_mul(Dec::from_u64(100)) {
            Some(p) => CVLPct::Finite(p),
            None => unreached(),
        }
    }

    /// The ratio as text: the decimal's text, or `∞`.
    pub fn to_string(&self) -> (s: String)
        requires
            self.is_valid(),
        ensures
            s@ == match *self {
                CVLPct::Finite(v) => decimal_text(v),
                CVLPct::Infinite => "∞"@,
            },
    {
        match self {
            CVLPct::Finite(value) => value.to_string(),
            CVLPct::Infinite => "∞".to_owned(),
        }
    }

    /// Whether the ratio is a finite zero.
    pub fn is_zero(&self) -> (b: bool)
        ensures
            b == (self is Finite && self->Finite_0.mantissa == 0),
    {
        match self {
            CVLPct::Finite(value) => value.mantissa == 0,
            CVLPct::Infinite => false,
        }
    }

    /// `amount` scaled by the percentage, in whole cents rounded away from
    /// zero.
    pub fn scale(&self, amount: UsdCents) -> (r: UsdCents)
        requires
            self.is_valid(),
            self is Finite,
            scaled_cents(self->Finite_0, amount) is Some,
        ensures
            r.cents == scaled_cents(self->Finite_0, amount)->0,
            ({
                let p = self->Finite_0;
                p.scale == 0 && p.mantissa >= 0 && p.mantissa % 100 == 0 && amount.cents * (
                p.mantissa / 100) <= u64::MAX ==> r.cents == amount.cents * (p.mantissa / 100)
            }),
    {
        let pct = match self {
            CVLPct::Finite(pct) => *pct,
            CVLPct::Infinite => unreached(),
        };
        let cents = match amount.to_usd().checked_mul(Dec::from_u64(100)) {
            Some(c) => c,
            None => unreached(),
        };
        let fraction = match pct.checked_div(Dec::from_u64(100)) {
            Some(f) => f,
            None => unreached(),
        };
        proof {
            if pct.scale == 0 && pct.mantissa >= 0 && pct.mantissa % 100 == 0 && amount.cents * (
            pct.mantissa / 100) <= u64::MAX {
                lemma_whole_hundreds(pct, amount, cents, fraction);
            }
        }
        let product = match cents.checked_mul(fraction) {
            Some(p) => p,
            None => unreached(),
        };
        let whole = product.round_dp(0, Rounding::AwayFromZero);
        match whole.to_u64() {
            Some(c) => UsdCents { cents: c },
            None => unreached(),
        }
    }

    /// `amount` scaled by the percentage, where the scaling has a result:
    /// none for an infinite ratio, or where a step overflows or the result is
    /// not a `u64`.
    pub fn try_scale(&self, amount: UsdCents) -> (r: Option<UsdCents>)
        requires
            self.is_valid(),
        ensures
            r is Some <==> (self is Finite && scaled_cents(self->Finite_0, amount) is Some),
            r is Some ==> r->0.cents == scaled_cents(self->Finite_0, amount)->0,
            ({
                let p = self->Finite_0;
                self is Finite && p.scale == 0 && p.mantissa >= 0 && p.mantissa % 100 == 0
                    && amount.cents * (p.mantissa / 100) <= u64::MAX ==> r == Some(
                    UsdCents { cents: (amount.cents * (p.mantissa / 100)) as u64 },
                )
            }),
    {
        let pct = match self {
            CVLPct::Finite(pct) => *pct,
            CVLPct::Infinite => {
                return None;
            },
        };
        let cents = match amount.to_usd().checked_mul(Dec::from_u64(100)) {
            Some(c) => c,
            None => unreached(),
        };
        let fraction = match pct.checked_div(Dec::from_u64(100)) {
            Some(f) => f,
            None => unreached(),
        };
        proof {
            if pct.scale == 0 && pct.mantissa >= 0 && pct.mantissa % 100 == 0 && amount.cents * (
            pct.mantissa / 100) <= u64::MAX {
                lemma_whole_hundreds(pct, amount, cents, fraction);
            }
        }
        let product = match cents.checked_mul(fraction) {
            Some(p) => p,
            None => {
                return None;
            },
        };
        match product.round_dp(0, Rounding::AwayFromZero).to_u64() {
            Some(_) => Some(self.scale(amount)),
            None => None,
        }
    }

    /// Whether `other` exceeds this ratio by more than `buffer`.
    pub fn is_significantly_lower_than(&self, other: CVLPct, buffer: CVLPct) -> (b: bool)
        requires
            self.is_valid(),
            other.is_valid(),
            buffer.is_valid(),
            cvl_sum_defined(*self, buffer),
        ensures
            b == cvl_greater(other, cvl_sum(*self, buffer)),
            finite_sum_kept_exact(*self, buffer) ==> cvl_sum(*self, buffer) == CVLPct::Finite(aligned_sum(self->0, buffer->0)),
    {
        let threshold = match (*self, buffer) {
            (CVLPct::Finite(a), CVLPct::Finite(b)) => match a.checked_add(b) {
                Some(s) => CVLPct::Finite(s),
                None => unreached(),
            },
            _ => CVLPct::Infinite,
        };
        other > threshold
    }

    /// Whether `other` exceeds this ratio by more than `buffer`, where the
    /// sum of this ratio and `buffer` exists; none where it overflows.
    pub fn checked_is_significantly_lower_than(&self, other: CVLPct, buffer: CVLPct) -> (r: Option<
        bool,
    >)
        requires
            self.is_valid(),
            other.is_valid(),
            buffer.is_valid(),
        ensures
            r is Some <==> cvl_sum_defined(*self, buffer),
            r is Some ==> r->0 == cvl_greater(other, cvl_sum(*self, buffer)),
            finite_sum_kept_exact(*self, buffer) ==> r is Some && cvl_sum(*self, buffer) == CVLPct::Finite(aligned_sum(self->0, buffer->0)),
    {
        match (*self, buffer) {
            (CVLPct::Finite(a), CVLPct::Finite(b)) => {
                if a.checked_add(b).is_none() {
                    return None;
                }
            },
            _ => {},
        }
        Some(self.is_significantly_lower_than(other, buffer))
    }
}

/// The cut ratio of two amounts of cents, the second not zero, fits in a
/// decimal once multiplied by one hundred.
proof fn lemma_cut_ratio_fits(collateral: UsdCents, outstanding: UsdCents, quotient: Dec, cut: Dec)
    requires
        collateral.cents >= 1,
        outstanding.cents >= 1,
        quotient.is_valid(),
        abs(quotient.mantissa as int) <= (quotient_floor(usd(collateral), usd(outstanding)) + 1)
            * pow10(quotient.scale as nat),
        cut == rounded(quotient, 2, Rounding::ToZero),
    ensures
        product_fits(cut, hundred()),
{
    reveal_with_fuel(pow10, 3);
    let c = collateral.cents as int;
    let o = outstanding.cents as int;
    assert(quotient_floor(usd(collateral), usd(outstanding)) == (c * 100) / (o * 100));
    assert((c * 100) / (o * 100) <= c) by {
        vstd::arithmetic::div_mod::lemma_div_is_ordered_by_denominator(c * 100, 100, o * 100);
        vstd::arithmetic::div_mod::lemma_div_by_multiple(c, 100);
    }
    assert((c * 100) / (o * 100) >= 0) by {
        vstd::arithmetic::div_mod::lemma_div_pos_is_pos(c * 100, o * 100);
    }
    let bound = quotient_floor(usd(collateral), usd(outstanding)) + 1;
    lemma_rounded_to_zero_bound(quotient, 2, bound);
    assert(abs(cut.mantissa * 100) <= MAX_MANTISSA) by (nonlinear_arith)
        requires
            abs(cut.mantissa as int) <= bound * 100,
            1 <= bound <= c + 1,
            c <= u64::MAX,
    ;
}

/// Scaling by a whole number of hundreds of percent multiplies exactly: the
/// product fits and rounds to `amount * k` cents.
proof fn lemma_whole_hundreds(pct: Dec, amount: UsdCents, cents: Dec, fraction: Dec)
    requires
        pct.scale == 0,
        pct.mantissa >= 0,
        pct.mantissa % 100 == 0,
        amount.cents * (pct.mantissa / 100) <= u64::MAX,
        cents == product_exact(usd(amount), hundred()),
        pct.mantissa != 0 ==> fraction == (Dec { mantissa: (pct.mantissa / 100) as i128, scale: 0 }),
        pct.mantissa == 0 ==> fraction == (Dec { mantissa: 0, scale: 0 }),
    ensures
        product_fits(cents, fraction),
        whole_u64(rounded(product_exact(cents, fraction), 0, Rounding::AwayFromZero)) == Some(
            (amount.cents * (pct.mantissa / 100)) as u64,
        ),
{
    reveal_with_fuel(pow10, 3);
    let a = amount.cents as int;
    let k = pct.mantissa / 100;
    assert(k >= 0);
    if a == 0 || k == 0 {
        let z = Dec { mantissa: 0, scale: 0 };
        assert(product_exact(cents, fraction) == z);
        assert(rounded(z, 0, Rounding::AwayFromZero) == z);
        assert(whole_u64(z) == Some(0u64));
        assert(a * k == 0) by (nonlinear_arith)
            requires
                a == 0 || k == 0,
        ;
    } else {
        assert(cents == Dec { mantissa: (a * 100) as i128, scale: 2 });
        assert(fraction.mantissa == k);
        assert(a * 100 * k == 100 * (a * k)) by (nonlinear_arith);
        assert(a * k <= u64::MAX);
        assert(a * k >= 1) by (nonlinear_arith)
            requires
                a >= 1,
                k >= 1,
        ;
        assert(abs(cents.mantissa * fraction.mantissa) <= MAX_MANTISSA) by (nonlinear_arith)
            requires
                cents.mantissa == a * 100,
                fraction.mantissa == k,
                a * 100 * k == 100 * (a * k),
                1 <= a * k <= u64::MAX,
        ;
        let p = product_exact(cents, fraction);
        assert(p.mantissa == 100 * (a * k));
        assert(p.scale == 2);
        assert((100 * (a * k)) / 100 == a * k) by {
            vstd::arithmetic::div_mod::lemma_div_by_multiple(a * k, 100);
        }
        assert((100 * (a * k)) % 100 == 0) by {
            vstd::arithmetic::div_mod::lemma_mod_multiples_basic(a * k, 100);
        }
        let r = rounded(p, 0, Rounding::AwayFromZero);
        assert(r.mantissa == a * k);
        assert(r.scale == 0);
        assert(pow10(0) == 1);
        assert((r.mantissa as int) / 1 == a * k);
        assert(whole_u64(r) == Some((a * k) as u64));
    }
}

/// Equality of ratios: finite ratios that a decimal can hold are equal when
/// they stand for the same number; infinity equals infinity.
pub open spec fn ratio_eq(a: CVLPct, b: CVLPct) -> bool {
    match (a, b) {
        (CVLPct::Finite(x), CVLPct::Finite(y)) => if x.is_valid() && y.is_valid() {
            same_value(x, y)
        } else {
            x == y
        },
        (CVLPct::Infinite, CVLPct::Infinite) => true,
        _ => false,
    }
}

/// How two ratios compare: infinity is above every finite ratio; finite
/// ratios that a decimal can hold compare as numbers.
pub open spec fn ratio_order(a: CVLPct, b: CVLPct) -> Option<Ordering> {
    match (a, b) {
        (CVLPct::Infinite, CVLPct::Infinite) => Some(Ordering::Equal),
        (CVLPct::Infinite, CVLPct::Finite(_)) => Some(Ordering::Greater),
        (CVLPct::Finite(_), CVLPct::Infinite) => Some(Ordering::Less),
        (CVLPct::Finite(x), CVLPct::Finite(y)) => if x.is_valid() && y.is_valid() {
            Some(value_order(x, y))
        } else {
            None
        },
    }
}

proof fn lemma_less_value_transitive(a: Dec, b: Dec, c: Dec)
    requires
        less_value(a, b),
        less_value(b, c),
    ensures
        less_value(a, c),
{
    let pa = pow10(a.scale as nat);
    let pb = pow10(b.scale as nat);
    let pc = pow10(c.scale as nat);
    lemma_pow10_positive(a.scale as nat);
    lemma_pow10_positive(b.scale as nat);
    lemma_pow10_positive(c.scale as nat);
    let am = a.mantissa as int;
    let bm = b.mantissa as int;
    let cm = c.mantissa as int;
    assert(am * pc < cm * pa) by (nonlinear_arith)
        requires
            am * pb < bm * pa,
            bm * pc < cm * pb,
            pa >= 1,
            pb >= 1,
            pc >= 1,
    {
        assert(am * pb * pc < bm * pa * pc);
        assert(bm * pc * pa < cm * pb * pa);
        assert(am * pc * pb < cm * pa * pb);
    }
}

/// Ratios that a decimal can hold are totally ordered (`partial_cmp` and
/// `==` on ratios compute `ratio_order` and `ratio_eq`): any two compare,
/// `a < b` exactly when `b > a`, they compare equal exactly when they are
/// equal, which is by value (`1.50 == 1.5`), and `<` is transitive. Infinity
/// is above every finite ratio.
pub proof fn ratio_order_is_total(a: CVLPct, b: CVLPct, c: CVLPct)
    requires
        a.is_valid(),
        b.is_valid(),
        c.is_valid(),
    ensures
        ratio_order(a, b) is Some,
        (ratio_order(a, b) == Some(Ordering::Less)) == (ratio_order(b, a) == Some(
            Ordering::Greater,
        )),
        (ratio_order(a, b) == Some(Ordering::Equal)) == ratio_eq(a, b),
        ratio_order(a, b) == Some(Ordering::Less) && ratio_order(b, c) == Some(Ordering::Less)
            ==> ratio_order(a, c) == Some(Ordering::Less),
        a is Finite ==> ratio_order(CVLPct::Infinite, a) == Some(Ordering::Greater),
{
    if let (CVLPct::Finite(x), CVLPct::Finite(y), CVLPct::Finite(z)) = (a, b, c) {
        if less_value(x, y) && less_value(y, z) {
            lemma_less_value_transitive(x, y, z);
        }
    }
}

impl PartialEq for CVLPct {
    fn eq(&self, other: &CVLPct) -> (r: bool) {
        match (*self, *other) {
            (CVLPct::Finite(a), CVLPct::Finite(b)) => {
                if a.check_valid() && b.check_valid() {
                    match a.compare(b) {
                        Ordering::Equal => true,
                        _ => false,
                    }
                } else {
                    a.mantissa == b.mantissa && a.scale == b.scale
                }
            },
            (CVLPct::Infinite, CVLPct::Infinite) => true,
            _ => false,
        }
    }
}

impl PartialEqSpecImpl for CVLPct {
    open spec fn obeys_eq_spec() -> bool {
        true
    }

    open spec fn eq_spec(&self, other: &CVLPct) -> bool {
        ratio_eq(*self, *other)
    }
}

impl PartialOrd for CVLPct {
    fn partial_cmp(&self, other: &CVLPct) -> (r: Option<Ordering>) {
        match (*self, *other) {
            (CVLPct::Infinite, CVLPct::Infinite) => Some(Ordering::Equal),
            (CVLPct::Infinite, CVLPct::Finite(_)) => Some(Ordering::Greater),
            (CVLPct::Finite(_), CVLPct::Infinite) => Some(Ordering::Less),
            (CVLPct::Finite(a), CVLPct::Finite(b)) => {
                if a.check_valid() && b.check_valid() {
                    Some(a.compare(b))
                } else {
                    None
                }
            },
        }
    }
}

impl PartialOrdSpecImpl for CVLPct {
    open spec fn obeys_partial_cmp_spec() -> bool {
        true
    }

    open spec fn partial_cmp_spec(&self, other: &CVLPct) -> Option<Ordering> {
        ratio_order(*self, *other)
    }
}

impl std::ops::Add for CVLPct {
    type Output = CVLPct;

    fn add(self, other: CVLPct) -> (r: CVLPct) {
        match (self, other) {
            (CVLPct::Finite(a), CVLPct::Finite(b)) => match a.checked_add(b) {
                Some(s) => CVLPct::Finite(s),
                None => unreached(),
            },
            _ => CVLPct::Infinite,
        }
    }
}

impl vstd::std_specs::ops::AddSpecImpl for CVLPct {
    open spec fn obeys_add_spec() -> bool {
        true
    }

    open spec fn add_req(self, rhs: CVLPct) -> bool {
        self.is_valid() && rhs.is_valid() && cvl_sum_defined(self, rhs)
    }

    open spec fn add_spec(self, rhs: CVLPct) -> CVLPct {
        cvl_sum(self, rhs)
    }
}

impl From<Dec> for CVLPct {
    fn from(value: Dec) -> (c: CVLPct) {
        CVLPct::Finite(value)
    }
}

impl vstd::std_specs::convert::FromSpecImpl<Dec> for CVLPct {
    open spec fn obeys_from_spec() -> bool {
        true
    }

    open spec fn from_spec(value: Dec) -> CVLPct {
        CVLPct::Finite(value)
    }
}

} // verus!
