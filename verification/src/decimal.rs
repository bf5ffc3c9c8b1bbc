//! Decimal percentages.
//!
//! A return on investment is carried as a decimal number with up to 28
//! fractional digits and a 96-bit mantissa, the representation of
//! `rust_decimal::Decimal`, which does the arithmetic.

use rust_decimal::Decimal;
use vstd::arithmetic::power::pow;
use vstd::prelude::*;

verus! {

/// The largest number of fractional digits.
pub const MAX_SCALE: u32 = 28;

/// The largest magnitude of a mantissa: 2^96 - 1.
pub const MAX_MANTISSA: i128 = 0xFFFF_FFFF_FFFF_FFFF_FFFF_FFFF;

/// The decimal number `mantissa / 10^scale`.
#[derive(Debug, Clone, Copy, PartialEq, Eq, Structural)]
pub struct DecimalPct {
    pub mantissa: i128,
    pub scale: u32,
}

/// Whether `a.0 / 10^a.1 >= b.0 / 10^b.1`, stated without division.
pub open spec fn decimal_ge(a: (int, nat), b: (int, nat)) -> bool {
    a.0 * pow(10, b.1) >= b.0 * pow(10, a.1)
}

/// What `rust_decimal` returns for the quotient of two integers, as
/// mantissa and scale.
pub uninterp spec fn decimal_quotient(numerator: int, denominator: int) -> (int, nat);

/// The text that `rust_decimal` writes for a number with one fractional
/// digit.
pub uninterp spec fn decimal_one_place(mantissa: int, scale: nat) -> Seq<char>;

impl View for DecimalPct {
    type V = (int, nat);

    open spec fn view(&self) -> (int, nat) {
        (self.mantissa as int, self.scale as nat)
    }
}

impl DecimalPct {
    /// The number fits the representation: at most 28 fractional digits and
    /// a mantissa of at most 96 bits.
    pub open spec fn wf(self) -> bool {
        self.scale <= MAX_SCALE && -MAX_MANTISSA <= self.mantissa <= MAX_MANTISSA
    }

    /// The number `mantissa / 10^scale`, if it fits the representation.
    pub fn new(mantissa: i128, scale: u32) -> (pct: Option<DecimalPct>)
        ensures
            pct == (if scale <= MAX_SCALE && -MAX_MANTISSA <= mantissa <= MAX_MANTISSA {
                Some(DecimalPct { mantissa, scale })
            } else {
                None
            }),
    {
        if scale <= MAX_SCALE && -MAX_MANTISSA <= mantissa && mantissa <= MAX_MANTISSA {
            Some(DecimalPct { mantissa, scale })
        } else {
            None
        }
    }

    /// The number zero.
    pub fn zero() -> (pct: DecimalPct)
        ensures
            pct.wf(),
            pct@ == (0int, 0nat),
    {
        DecimalPct { mantissa: 0, scale: 0 }
    }

    /// The whole number `value`.
    pub fn from_int(value: i64) -> (pct: DecimalPct)
        ensures
            pct.wf(),
            pct@ == (value as int, 0nat),
    {
        DecimalPct { mantissa: value as i128, scale: 0 }
    }

    /// Whether the number fits the representation.
    pub fn is_valid(&self) -> (ok: bool)
        ensures
            ok == self.wf(),
    {
        self.scale <= MAX_SCALE && -MAX_MANTISSA <= self.mantissa && self.mantissa <= MAX_MANTISSA
    }

    /// The number written with one fractional digit.
    pub fn to_one_place(&self) -> (text: String)
        requires
            self.wf(),
        ensures
            text@ == decimal_one_place(self.mantissa as int, self.scale as nat),
    {
        decimal_format_one_place(*self)
    }

    /// Whether this number is at least `other`.
    pub fn at_least(&self, other: &DecimalPct) -> (r: bool)
        requires
            self.wf(),
            other.wf(),
        ensures
            r == decimal_ge(self@, other@),
    {
        decimal_at_least(*self, *other)
    }

    /// The quotient `numerator / denominator` as `rust_decimal` rounds it.
    pub fn ratio(numerator: i64, denominator: i64) -> (pct: DecimalPct)
        requires
            denominator != 0,
        ensures
            pct.wf(),
            pct@ == decimal_quotient(numerator as int, denominator as int),
    {
        decimal_divide(numerator, denominator)
    }
}

/// Divides two integers with `rust_decimal`: `Decimal::from` on each and
/// `Decimal`'s `/`. Trusted: the quotient depends on the operands alone and
/// is named `decimal_quotient`; being a `Decimal`, it has a scale of at most
/// 28 and a mantissa of at most 96 bits. The division panics only on a zero
/// divisor, which is ruled out here, or where the quotient exceeds 96 bits,
/// which a quotient of two 64-bit integers cannot.
#[verifier::external_body]
fn decimal_divide(numerator: i64, denominator: i64) -> (q: DecimalPct)
    requires
        denominator != 0,
    ensures
        q.wf(),
        q@ == decimal_quotient(numerator as int, denominator as int),
{
    let d = Decimal::from(numerator) / Decimal::from(denominator);
    DecimalPct { mantissa: d.mantissa(), scale: d.scale() }
}

/// Writes a number with `Decimal`'s `Display` at a precision of one digit,
/// after `Decimal::from_i128_with_scale`. Trusted: the text depends on the
/// number alone; it is named `decimal_one_place`. The constructor panics
/// only on a pair that is ruled out here.
#[verifier::external_body]
fn decimal_format_one_place(value: DecimalPct) -> (text: String)
    requires
        value.wf(),
    ensures
        text@ == decimal_one_place(value.mantissa as int, value.scale as nat),
{
    format!("{:.1}", Decimal::from_i128_with_scale(value.mantissa, value.scale))
}

/// Compares two numbers with `Decimal`'s `>=`, after
/// `Decimal::from_i128_with_scale` on each. Trusted: `Decimal` orders its
/// values by the numbers they stand for, whatever their scales. The
/// constructor panics only on a pair that is ruled out here.
#[verifier::external_body]
fn decimal_at_least(a: DecimalPct, b: DecimalPct) -> (r: bool)
    requires
        a.wf(),
        b.wf(),
    ensures
        r == decimal_ge(a@, b@),
{
    Decimal::from_i128_with_scale(a.mantissa, a.scale)
        >= Decimal::from_i128_with_scale(b.mantissa, b.scale)
}

} // verus!
