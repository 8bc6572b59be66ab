//! Fixed-point decimal numbers, held as a signed mantissa and a count of
//! fractional digits, and the arithmetic of `rust_decimal` on them.
//!
//! A value `d` stands for `d.mantissa / 10^d.scale`. The arithmetic itself is
//! done by `rust_decimal`; each call goes through a wrapper below whose
//! contract states what the crate's source shows of the result.

use vstd::prelude::*;
use crate::primitives::{hex_digit, UsdCents};
use std::cmp::Ordering;
use vstd::std_specs::cmp::PartialEqSpecImpl;

verus! {

/// The largest mantissa a decimal can hold: 2^96 - 1.
pub const MAX_MANTISSA: i128 = 79_228_162_514_264_337_593_543_950_335i128;

/// The largest number of fractional digits a decimal can hold.
pub const MAX_SCALE: u32 = 28u32;

/// A decimal number: `mantissa / 10^scale`.
#[derive(Clone, Copy, Debug)]
pub struct Dec {
    pub mantissa: i128,
    pub scale: u32,
}

/// How a value is rounded to fewer fractional digits.
#[derive(Clone, Copy, Debug, PartialEq, Eq, Structural)]
pub enum Rounding {
    /// Drop the extra digits.
    ToZero,
    /// Drop the extra digits and, if any of them was not zero, add one unit
    /// of the last kept digit to the magnitude.
    AwayFromZero,
}

pub open spec fn pow10(n: nat) -> int
    decreases n,
{
    if n == 0 {
        1
    } else {
        10 * pow10((n - 1) as nat)
    }
}

pub open spec fn abs(x: int) -> int {
    if x < 0 {
        -x
    } else {
        x
    }
}

impl Dec {
    /// The mantissa and the scale are within what a decimal can hold.
    pub open spec fn is_valid(self) -> bool {
        &&& self.scale <= MAX_SCALE
        &&& abs(self.mantissa as int) <= MAX_MANTISSA
    }

    /// Zero, with no fractional digits.
    pub fn zero() -> (d: Dec)
        ensures
            d == (Dec { mantissa: 0, scale: 0 }),
    {
        Dec { mantissa: 0, scale: 0 }
    }

    /// Whether the mantissa and the scale are within what a decimal can hold.
    pub fn check_valid(&self) -> (b: bool)
        ensures
            b == self.is_valid(),
    {
        self.scale <= MAX_SCALE && -MAX_MANTISSA <= self.mantissa && self.mantissa <= MAX_MANTISSA
    }

    /// The whole number `n`.
    pub fn from_u64(n: u64) -> (d: Dec)
        ensures
            d.mantissa == n,
            d.scale == 0,
            d.is_valid(),
    {
        Dec { mantissa: n as i128, scale: 0 }
    }
}

/// The decimal for an amount of cents: the cents with two fractional digits.
pub open spec fn usd(amount: UsdCents) -> Dec {
    Dec { mantissa: amount.cents as i128, scale: 2 }
}

/// Every power of ten is at least one.
pub proof fn lemma_pow10_positive(n: nat)
    ensures
        pow10(n) >= 1,
    decreases n,
{
    if n > 0 {
        lemma_pow10_positive((n - 1) as nat);
    }
}

/// `10^(a+b) = 10^a * 10^b`.
pub proof fn lemma_pow10_add(a: nat, b: nat)
    ensures
        pow10(a + b) == pow10(a) * pow10(b),
    decreases b,
{
    if b > 0 {
        lemma_pow10_add(a, (b - 1) as nat);
        assert(pow10(a + b) == 10 * pow10((a + b - 1) as nat));
        assert(pow10(a) * pow10(b) == pow10(a) * (10 * pow10((b - 1) as nat)));
        assert(pow10(a) * (10 * pow10((b - 1) as nat)) == 10 * (pow10(a) * pow10(
            (b - 1) as nat,
        ))) by (nonlinear_arith);
    }
}

/// Powers of ten grow with the exponent.
pub proof fn lemma_pow10_monotonic(a: nat, b: nat)
    requires
        a <= b,
    ensures
        pow10(a) <= pow10(b),
{
    lemma_pow10_add(a, (b - a) as nat);
    lemma_pow10_positive(a);
    lemma_pow10_positive((b - a) as nat);
    assert(pow10(a) * pow10((b - a) as nat) >= pow10(a) * 1) by (nonlinear_arith)
        requires
            pow10(a) >= 1,
            pow10((b - a) as nat) >= 1,
    ;
}

/// Rounding towards zero keeps a bound on the magnitude: if `|d|` is at most
/// `bound`, so is the rounded value.
pub proof fn lemma_rounded_to_zero_bound(d: Dec, dp: u32, bound: int)
    requires
        d.is_valid(),
        bound >= 0,
        abs(d.mantissa as int) <= bound * pow10(d.scale as nat),
    ensures
        abs(rounded(d, dp, Rounding::ToZero).mantissa as int) <= bound * pow10(dp as nat),
        rounded(d, dp, Rounding::ToZero).scale <= dp,
{
    if d.scale <= dp {
        lemma_pow10_monotonic(d.scale as nat, dp as nat);
        assert(bound * pow10(d.scale as nat) <= bound * pow10(dp as nat)) by (nonlinear_arith)
            requires
                bound >= 0,
                pow10(d.scale as nat) <= pow10(dp as nat),
        ;
    } else {
        let k = (d.scale - dp) as nat;
        let unit = pow10(k);
        let m = abs(d.mantissa as int);
        lemma_pow10_positive(k);
        lemma_pow10_positive(dp as nat);
        lemma_pow10_add(dp as nat, k);
        assert(bound * pow10(dp as nat) >= 0) by (nonlinear_arith)
            requires
                bound >= 0,
                pow10(dp as nat) >= 1,
        ;
        assert(dp as nat + k == d.scale as nat);
        assert(m <= (bound * pow10(dp as nat)) * unit) by (nonlinear_arith)
            requires
                m <= bound * pow10(d.scale as nat),
                pow10(d.scale as nat) == pow10(dp as nat) * unit,
        ;
        vstd::arithmetic::div_mod::lemma_div_is_ordered(m, (bound * pow10(dp as nat)) * unit, unit);
        vstd::arithmetic::div_mod::lemma_div_by_multiple(bound * pow10(dp as nat), unit);
        assert(m / unit <= m) by {
            vstd::arithmetic::div_mod::lemma_div_is_ordered_by_denominator(m, 1, unit);
        }
        assert(m / unit >= 0) by {
            vstd::arithmetic::div_mod::lemma_div_pos_is_pos(m, unit);
        }
    }
}

/// `a` and `b` stand for the same number.
pub open spec fn same_value(a: Dec, b: Dec) -> bool {
    a.mantissa * pow10(b.scale as nat) == b.mantissa * pow10(a.scale as nat)
}

/// `a` stands for a smaller number than `b`.
pub open spec fn less_value(a: Dec, b: Dec) -> bool {
    a.mantissa * pow10(b.scale as nat) < b.mantissa * pow10(a.scale as nat)
}

/// How the numbers that `a` and `b` stand for compare.
pub open spec fn value_order(a: Dec, b: Dec) -> Ordering {
    if less_value(a, b) {
        Ordering::Less
    } else if same_value(a, b) {
        Ordering::Equal
    } else {
        Ordering::Greater
    }
}

/// `d` rounded to at most `dp` fractional digits in the given mode. A value
/// with `dp` or fewer fractional digits is left as it is; otherwise the
/// result has exactly `dp` of them and keeps the sign.
pub open spec fn rounded(d: Dec, dp: u32, mode: Rounding) -> Dec {
    if d.scale <= dp {
        d
    } else {
        let unit = pow10((d.scale - dp) as nat);
        let kept = abs(d.mantissa as int) / unit;
        let bump: int = if mode == Rounding::AwayFromZero && abs(d.mantissa as int) % unit != 0 {
            1
        } else {
            0
        };
        let magnitude = kept + bump;
        Dec { mantissa: (if d.mantissa < 0 { -magnitude } else { magnitude }) as i128, scale: dp }
    }
}

/// The whole part of `d` as a `u64`: none for a negative mantissa or a whole
/// part beyond `u64::MAX`.
pub open spec fn whole_u64(d: Dec) -> Option<u64> {
    if d.mantissa < 0 {
        None
    } else if (d.mantissa as int) / pow10(d.scale as nat) <= u64::MAX {
        Some(((d.mantissa as int) / pow10(d.scale as nat)) as u64)
    } else {
        None
    }
}

/// The exact product: zero without fractional digits when a factor is zero,
/// else the product of the mantissas with the scales added.
pub open spec fn product_exact(a: Dec, b: Dec) -> Dec {
    if a.mantissa == 0 || b.mantissa == 0 {
        Dec { mantissa: 0, scale: 0 }
    } else {
        Dec { mantissa: (a.mantissa * b.mantissa) as i128, scale: (a.scale + b.scale) as u32 }
    }
}

/// The exact product of `a` and `b` can be held by a decimal.
pub open spec fn product_fits(a: Dec, b: Dec) -> bool {
    ||| a.mantissa == 0
    ||| b.mantissa == 0
    ||| (abs(a.mantissa * b.mantissa) <= MAX_MANTISSA && a.scale + b.scale <= MAX_SCALE)
}

/// The larger of the two scales.
pub open spec fn common_scale(a: Dec, b: Dec) -> u32 {
    if a.scale >= b.scale {
        a.scale
    } else {
        b.scale
    }
}

/// The mantissa of `a + b` at the common scale: each mantissa multiplied up
/// to that scale, then added.
pub open spec fn aligned_sum_mantissa(a: Dec, b: Dec) -> int {
    let s = common_scale(a, b);
    a.mantissa * pow10((s - a.scale) as nat) + b.mantissa * pow10((s - b.scale) as nat)
}

/// The exact sum of `a` and `b`, at the larger of the two scales.
pub open spec fn aligned_sum(a: Dec, b: Dec) -> Dec {
    Dec { mantissa: aligned_sum_mantissa(a, b) as i128, scale: common_scale(a, b) }
}

/// The operands for which the decimal crate adds in 128-bit arithmetic and
/// keeps the exact sum: neither is zero, both mantissas are below 2^64 in
/// magnitude, the scales differ by at most 19, and the exact sum at the
/// common scale is below 2^96 in magnitude.
pub open spec fn sum_kept_exact(a: Dec, b: Dec) -> bool {
    &&& a.mantissa != 0
    &&& b.mantissa != 0
    &&& abs(a.mantissa as int) < 0x1_0000_0000_0000_0000
    &&& abs(b.mantissa as int) < 0x1_0000_0000_0000_0000
    &&& abs(a.scale - b.scale) <= 19
    &&& abs(aligned_sum_mantissa(a, b)) < 0x1_0000_0000_0000_0000_0000_0000
}

/// The whole part of `|a| / |b|`.
pub open spec fn quotient_floor(a: Dec, b: Dec) -> int {
    (abs(a.mantissa as int) * pow10(b.scale as nat)) / (abs(b.mantissa as int) * pow10(
        a.scale as nat,
    ))
}

/// `q` is the quotient `a / b` rounded to the nearest number with `q.scale`
/// fractional digits: it differs from the exact quotient by at most half a
/// unit of its last digit. With `A = a.mantissa * 10^b.scale` and
/// `B = b.mantissa * 10^a.scale` the exact quotient is `A / B`, so the
/// condition reads `|q.mantissa * B - A * 10^q.scale| <= |B| / 2`.
pub open spec fn nearest_quotient(a: Dec, b: Dec, q: Dec) -> bool {
    let num = a.mantissa * pow10(b.scale as nat);
    let den = b.mantissa * pow10(a.scale as nat);
    2 * abs(q.mantissa * den - num * pow10(q.scale as nat)) <= abs(den)
}

/// `q` is exactly the quotient `a / b`: `q.mantissa * B == A * 10^q.scale`,
/// with `A` and `B` as in `nearest_quotient`.
pub open spec fn exact_quotient(a: Dec, b: Dec, q: Dec) -> bool {
    let num = a.mantissa * pow10(b.scale as nat);
    let den = b.mantissa * pow10(a.scale as nat);
    q.mantissa * den == num * pow10(q.scale as nat)
}

/// The exact quotient `a / b` ends within the digits a decimal can hold: it
/// is `m / 10^s` for some scale `s` of at most 28 and some mantissa `m` of at
/// most 2^96 - 1 in magnitude.
pub open spec fn quotient_ends_within_precision(a: Dec, b: Dec) -> bool {
    exists|s: nat, m: int|
        #![trigger pow10(s), abs(m)]
        s <= MAX_SCALE && abs(m) <= MAX_MANTISSA && m * (b.mantissa * pow10(a.scale as nat))
            == a.mantissa * pow10(b.scale as nat) * pow10(s)
}

/// What `rust_decimal::Decimal::checked_div` returns for the two decimals.
pub uninterp spec fn decimal_quotient(dividend: Dec, divisor: Dec) -> Option<Dec>;

/// What `rust_decimal::Decimal::checked_mul` returns for the two decimals.
pub uninterp spec fn decimal_product(a: Dec, b: Dec) -> Option<Dec>;

/// What `rust_decimal::Decimal::checked_add` returns for the two decimals.
pub uninterp spec fn decimal_sum(a: Dec, b: Dec) -> Option<Dec>;

/// Calls `rust_decimal::Decimal::checked_div`. The quotient is rounded to the
/// digits a decimal can hold, so the contract names it. It states what the
/// crate's division shows: no quotient for a zero divisor, zero (without
/// fractional digits) for a zero dividend, every quotient rounded to the
/// nearest at its own scale, and, when the dividend has at least as many
/// fractional digits as the divisor, always a quotient, whose magnitude is at
/// most the whole part of the exact quotient plus one, and which is the
/// quotient of the mantissas, with the difference of the scales, when the
/// divisor's mantissa divides the dividend's. A quotient that ends within the
/// digits a decimal can hold is returned exactly. How many fractional digits
/// a quotient that does not end keeps depends on how large it is; the
/// contract leaves that scale open.
#[verifier::external_body]
fn decimal_checked_div(a: Dec, b: Dec) -> (r: Option<Dec>)
    requires
        a.is_valid(),
        b.is_valid(),
    ensures
        r == decimal_quotient(a, b),
        r is Some ==> r->0.is_valid() && nearest_quotient(a, b, r->0),
        b.mantissa == 0 ==> r is None,
        b.mantissa != 0 && quotient_ends_within_precision(a, b) ==> r is Some && exact_quotient(
            a,
            b,
            r->0,
        ),
        b.mantissa != 0 && a.mantissa == 0 ==> r == Some(Dec { mantissa: 0, scale: 0 }),
        b.mantissa != 0 && a.scale >= b.scale ==> r is Some && abs(r->0.mantissa as int) <= (
        quotient_floor(a, b) + 1) * pow10(r->0.scale as nat),
        b.mantissa != 0 && a.mantissa != 0 && a.scale >= b.scale && a.mantissa % b.mantissa == 0
            ==> r == Some(
            Dec {
                mantissa: (a.mantissa / b.mantissa) as i128,
                scale: (a.scale - b.scale) as u32,
            },
        ),
{
    let x = rust_decimal::Decimal::from_i128_with_scale(a.mantissa, a.scale);
    let y = rust_decimal::Decimal::from_i128_with_scale(b.mantissa, b.scale);
    match x.checked_div(y) {
        Some(q) => Some(Dec { mantissa: q.mantissa(), scale: q.scale() }),
        None => None,
    }
}

/// Calls `rust_decimal::Decimal::checked_mul`. When the exact product fits
/// in a decimal it is returned as it is (zero without fractional digits if a
/// factor is zero); otherwise the crate rounds or overflows, and the contract
/// only names the result.
#[verifier::external_body]
fn decimal_checked_mul(a: Dec, b: Dec) -> (r: Option<Dec>)
    requires
        a.is_valid(),
        b.is_valid(),
    ensures
        r == decimal_product(a, b),
        r is Some ==> r->0.is_valid(),
        product_fits(a, b) ==> r == Some(product_exact(a, b)),
{
    let x = rust_decimal::Decimal::from_i128_with_scale(a.mantissa, a.scale);
    let y = rust_decimal::Decimal::from_i128_with_scale(b.mantissa, b.scale);
    match x.checked_mul(y) {
        Some(p) => Some(Dec { mantissa: p.mantissa(), scale: p.scale() }),
        None => None,
    }
}

/// Calls `rust_decimal::Decimal::checked_add`. Adding zero gives the other
/// operand back unchanged, and operands that the crate adds in 128-bit
/// arithmetic (see `sum_kept_exact`) give their exact sum at the larger
/// scale. Beyond these the contract only names the result, which the crate
/// may round or find to overflow.
#[verifier::external_body]
fn decimal_checked_add(a: Dec, b: Dec) -> (r: Option<Dec>)
    requires
        a.is_valid(),
        b.is_valid(),
    ensures
        r == decimal_sum(a, b),
        r is Some ==> r->0.is_valid(),
        a.mantissa == 0 ==> r == Some(b),
        a.mantissa != 0 && b.mantissa == 0 ==> r == Some(a),
        sum_kept_exact(a, b) ==> r == Some(aligned_sum(a, b)),
{
    let x = rust_decimal::Decimal::from_i128_with_scale(a.mantissa, a.scale);
    let y = rust_decimal::Decimal::from_i128_with_scale(b.mantissa, b.scale);
    match x.checked_add(y) {
        Some(s) => Some(Dec { mantissa: s.mantissa(), scale: s.scale() }),
        None => None,
    }
}

/// Calls `rust_decimal::Decimal::round_dp_with_strategy` with the matching
/// strategy (`ToZero` or `AwayFromZero`); the contract states the result
/// exactly.
#[verifier::external_body]
fn decimal_round_dp(d: Dec, dp: u32, mode: Rounding) -> (r: Dec)
    requires
        d.is_valid(),
    ensures
        r == rounded(d, dp, mode),
        r.is_valid(),
{
    let x = rust_decimal::Decimal::from_i128_with_scale(d.mantissa, d.scale);
    let strategy = match mode {
        Rounding::ToZero => rust_decimal::RoundingStrategy::ToZero,
        Rounding::AwayFromZero => rust_decimal::RoundingStrategy::AwayFromZero,
    };
    let y = x.round_dp_with_strategy(dp, strategy);
    Dec { mantissa: y.mantissa(), scale: y.scale() }
}

/// Calls `rust_decimal::Decimal::to_u64`: the whole part, if the value is not
/// negative and the whole part fits in a `u64`.
#[verifier::external_body]
fn decimal_to_u64(d: Dec) -> (r: Option<u64>)
    requires
        d.is_valid(),
    ensures
        r == whole_u64(d),
{
    let x = rust_decimal::Decimal::from_i128_with_scale(d.mantissa, d.scale);
    rust_decimal::prelude::ToPrimitive::to_u64(&x)
}

/// Calls `rust_decimal::Decimal::cmp`, which orders decimals by the numbers
/// they stand for.
#[verifier::external_body]
fn decimal_order(a: Dec, b: Dec) -> (o: Ordering)
    requires
        a.is_valid(),
        b.is_valid(),
    ensures
        o == value_order(a, b),
{
    let x = rust_decimal::Decimal::from_i128_with_scale(a.mantissa, a.scale);
    let y = rust_decimal::Decimal::from_i128_with_scale(b.mantissa, b.scale);
    x.cmp(&y)
}

/// The decimal digits of `n`, the most significant first; none for zero.
pub open spec fn magnitude_digits(n: nat) -> Seq<char>
    decreases n,
{
    if n == 0 {
        Seq::empty()
    } else {
        magnitude_digits(n / 10).push(hex_digit((n % 10) as int))
    }
}

/// The digits of `|d.mantissa|`, with zeros in front up to `d.scale` digits.
pub open spec fn padded_digits(d: Dec) -> Seq<char> {
    let digits = magnitude_digits(abs(d.mantissa as int) as nat);
    if digits.len() < d.scale {
        Seq::new((d.scale - digits.len()) as nat, |i: int| '0') + digits
    } else {
        digits
    }
}

/// The text of a decimal: a minus sign for a negative mantissa, the whole
/// digits (`0` when there are none), then, for a positive scale, a point
/// and the last `scale` digits, trailing zeros kept.
pub open spec fn decimal_text(d: Dec) -> Seq<char> {
    let digits = padded_digits(d);
    let whole = (digits.len() - d.scale) as int;
    let sign = if d.mantissa < 0 {
        seq!['-']
    } else {
        Seq::empty()
    };
    let whole_part = if whole == 0 {
        seq!['0']
    } else {
        digits.take(whole)
    };
    if d.scale == 0 {
        sign + whole_part
    } else {
        sign + whole_part + seq!['.'] + digits.skip(whole)
    }
}

/// Calls `rust_decimal::Decimal::to_string`, which writes the text that
/// `decimal_text` describes (no precision is asked for).
#[verifier::external_body]
fn decimal_to_string(d: Dec) -> (s: String)
    requires
        d.is_valid(),
    ensures
        s@ == decimal_text(d),
{
    rust_decimal::Decimal::from_i128_with_scale(d.mantissa, d.scale).to_string()
}

impl Dec {
    /// The quotient `self / divisor`, as the decimal crate computes it.
    pub fn checked_div(self, divisor: Dec) -> (r: Option<Dec>)
        requires
            self.is_valid(),
            divisor.is_valid(),
        ensures
            r == decimal_quotient(self, divisor),
            r is Some ==> r->0.is_valid() && nearest_quotient(self, divisor, r->0),
            divisor.mantissa != 0 && quotient_ends_within_precision(self, divisor) ==> r is Some
                && exact_quotient(self, divisor, r->0),
            divisor.mantissa == 0 ==> r is None,
            divisor.mantissa != 0 && self.mantissa == 0 ==> r == Some(Dec { mantissa: 0, scale: 0 }),
            divisor.mantissa != 0 && self.scale >= divisor.scale ==> r is Some && abs(
                r->0.mantissa as int,
            ) <= (quotient_floor(self, divisor) + 1) * pow10(r->0.scale as nat),
            divisor.mantissa != 0 && self.mantissa != 0 && self.scale >= divisor.scale
                && self.mantissa % divisor.mantissa == 0 ==> r == Some(
                Dec {
                    mantissa: (self.mantissa / divisor.mantissa) as i128,
                    scale: (self.scale - divisor.scale) as u32,
                },
            ),
    {
        decimal_checked_div(self, divisor)
    }

    /// The product `self * other`, as the decimal crate computes it.
    pub fn checked_mul(self, other: Dec) -> (r: Option<Dec>)
        requires
            self.is_valid(),
            other.is_valid(),
        ensures
            r == decimal_product(self, other),
            r is Some ==> r->0.is_valid(),
            product_fits(self, other) ==> r == Some(product_exact(self, other)),
    {
        decimal_checked_mul(self, other)
    }

    /// The sum `self + other`, as the decimal crate computes it.
    pub fn checked_add(self, other: Dec) -> (r: Option<Dec>)
        requires
            self.is_valid(),
            other.is_valid(),
        ensures
            r == decimal_sum(self, other),
            r is Some ==> r->0.is_valid(),
            self.mantissa == 0 ==> r == Some(other),
            self.mantissa != 0 && other.mantissa == 0 ==> r == Some(self),
            sum_kept_exact(self, other) ==> r == Some(aligned_sum(self, other)),
    {
        decimal_checked_add(self, other)
    }

    /// `self` rounded to `dp` fractional digits.
    pub fn round_dp(self, dp: u32, mode: Rounding) -> (r: Dec)
        requires
            self.is_valid(),
        ensures
            r == rounded(self, dp, mode),
            r.is_valid(),
    {
        decimal_round_dp(self, dp, mode)
    }

    /// The whole part as a `u64`, if there is one.
    pub fn to_u64(self) -> (r: Option<u64>)
        requires
            self.is_valid(),
        ensures
            r == whole_u64(self),
    {
        decimal_to_u64(self)
    }

    /// The decimal as text, as the decimal crate writes it.
    pub fn to_string(&self) -> (s: String)
        requires
            self.is_valid(),
        ensures
            s@ == decimal_text(*self),
    {
        decimal_to_string(*self)
    }

    /// How `self` and `other` compare as numbers.
    pub fn compare(self, other: Dec) -> (o: Ordering)
        requires
            self.is_valid(),
            other.is_valid(),
        ensures
            o == value_order(self, other),
    {
        decimal_order(self, other)
    }
}

/// Decimals that a decimal can hold are equal when they stand for the same
/// number (`1.50 == 1.5`); other pairs are equal when mantissa and scale are.
pub open spec fn dec_eq(a: Dec, b: Dec) -> bool {
    if a.is_valid() && b.is_valid() {
        same_value(a, b)
    } else {
        a == b
    }
}

impl PartialEq for Dec {
    fn eq(&self, other: &Dec) -> (r: bool) {
        if self.check_valid() && other.check_valid() {
            match self.compare(*other) {
                Ordering::Equal => true,
                _ => false,
            }
        } else {
            self.mantissa == other.mantissa && self.scale == other.scale
        }
    }
}

impl PartialEqSpecImpl for Dec {
    open spec fn obeys_eq_spec() -> bool {
        true
    }

    open spec fn eq_spec(&self, other: &Dec) -> bool {
        dec_eq(*self, *other)
    }
}

impl UsdCents {
    /// The amount in dollars: the cents with two fractional digits.
    pub fn to_usd(&self) -> (d: Dec)
        ensures
            d == (Dec { mantissa: self.cents as i128, scale: 2 }),
            d.is_valid(),
    {
        Dec { mantissa: self.cents as i128, scale: 2 }
    }
}

} // verus!
