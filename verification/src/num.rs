use vstd::prelude::*;
use rust_decimal::Decimal;
use rust_decimal::MathematicalOps;
use rust_decimal::prelude::FromPrimitive;
use rust_decimal::prelude::ToPrimitive;
use statrs::distribution::Continuous;
use statrs::distribution::ContinuousCDF;
use statrs::distribution::Normal;

verus! {

/// Largest mantissa magnitude a 96-bit decimal can carry.
pub const MAX_MANTISSA: i128 = 79228162514264337593543950335;

/// Largest number of decimal fraction digits a decimal can carry.
pub const MAX_SCALE: u32 = 28;

/// A decimal number, read as `mantissa / 10^scale`. Every market quantity and
/// every result of this crate is expressed in this scalar.
#[derive(Clone, Copy, Debug, PartialEq, Eq, Structural)]
pub struct Dec {
    pub mantissa: i128,
    pub scale: u32,
}

/// `10^e`.
pub open spec fn pow10(e: nat) -> int
    decreases e,
{
    if e == 0 {
        1
    } else {
        10 * pow10((e - 1) as nat)
    }
}

/// Numeric order on decimals: `a <= b` as rationals,
/// `a.mantissa / 10^a.scale <= b.mantissa / 10^b.scale`.
pub open spec fn dec_le_v(a: Dec, b: Dec) -> bool {
    a.mantissa * pow10(b.scale as nat) <= b.mantissa * pow10(a.scale as nat)
}

impl Dec {
    /// The representations the outside decimal arithmetic accepts.
    pub open spec fn wf(self) -> bool {
        &&& -MAX_MANTISSA <= self.mantissa <= MAX_MANTISSA
        &&& self.scale <= MAX_SCALE
    }

    /// The exact negation `-self`: same scale, mantissa sign flipped.
    pub open spec fn neg_v(self) -> Dec {
        Dec { mantissa: (-self.mantissa) as i128, scale: self.scale }
    }

    /// The exact absolute value `|self|`.
    pub open spec fn abs_v(self) -> Dec {
        if self.mantissa < 0 {
            self.neg_v()
        } else {
            self
        }
    }

    /// Builds the decimal `mantissa / 10^scale`.
    pub fn new(mantissa: i64, scale: u32) -> (r: Dec)
        requires
            scale <= MAX_SCALE,
        ensures
            r == (Dec { mantissa: mantissa as i128, scale }),
            r.wf(),
    {
        Dec { mantissa: mantissa as i128, scale }
    }

    /// Negation; exact, no rounding.
    pub fn neg(self) -> (r: Dec)
        requires
            self.wf(),
        ensures
            r == self.neg_v(),
            r.wf(),
    {
        Dec { mantissa: -self.mantissa, scale: self.scale }
    }

    /// Absolute value; exact, no rounding.
    pub fn abs(self) -> (r: Dec)
        requires
            self.wf(),
        ensures
            r == self.abs_v(),
            r.wf(),
    {
        if self.mantissa < 0 {
            self.neg()
        } else {
            self
        }
    }
}

/// What `Decimal::checked_add` returns, rounding included.
pub uninterp spec fn add_of(a: Dec, b: Dec) -> Dec;

/// Whether `Decimal::checked_add` returns a value (no overflow).
pub uninterp spec fn add_some(a: Dec, b: Dec) -> bool;

/// What `Decimal::checked_sub` returns, rounding included.
pub uninterp spec fn sub_of(a: Dec, b: Dec) -> Dec;

/// Whether `Decimal::checked_sub` returns a value (no overflow).
pub uninterp spec fn sub_some(a: Dec, b: Dec) -> bool;

/// What `Decimal::checked_mul` returns, rounding included.
pub uninterp spec fn mul_of(a: Dec, b: Dec) -> Dec;

/// Whether `Decimal::checked_mul` returns a value (no overflow).
pub uninterp spec fn mul_some(a: Dec, b: Dec) -> bool;

/// What `Decimal::checked_div` returns, rounding included.
pub uninterp spec fn div_of(a: Dec, b: Dec) -> Dec;

/// Whether `Decimal::checked_div` returns a value (a non-zero divisor and
/// no overflow).
pub uninterp spec fn div_some(a: Dec, b: Dec) -> bool;

/// What `Decimal::checked_ln` returns.
pub uninterp spec fn ln_of(a: Dec) -> Dec;

/// What `Decimal::checked_exp` returns.
pub uninterp spec fn exp_of(a: Dec) -> Dec;

/// Whether `Decimal::checked_exp` returns a value (no overflow).
pub uninterp spec fn exp_some(a: Dec) -> bool;

/// What `Decimal::checked_powd` returns for the exponent one half: the
/// square root of a non-negative decimal.
pub uninterp spec fn sqrt_of(a: Dec) -> Dec;

/// Whether `Decimal::checked_powd` with exponent one half returns a value.
pub uninterp spec fn sqrt_some(a: Dec) -> bool;

/// `10^e > 0`.
pub proof fn lemma_pow10_pos(e: nat)
    ensures
        pow10(e) > 0,
    decreases e,
{
    if e > 0 {
        lemma_pow10_pos((e - 1) as nat);
    }
}

/// The numeric order `dec_le_v` is transitive.
pub proof fn lemma_dec_le_v_trans(a: Dec, b: Dec, c: Dec)
    requires
        dec_le_v(a, b),
        dec_le_v(b, c),
    ensures
        dec_le_v(a, c),
{
    lemma_pow10_pos(a.scale as nat);
    lemma_pow10_pos(b.scale as nat);
    lemma_pow10_pos(c.scale as nat);
    assert(a.mantissa * pow10(c.scale as nat) <= c.mantissa * pow10(a.scale as nat))
        by (nonlinear_arith)
        requires
            a.mantissa * pow10(b.scale as nat) <= b.mantissa * pow10(a.scale as nat),
            b.mantissa * pow10(c.scale as nat) <= c.mantissa * pow10(b.scale as nat),
            pow10(a.scale as nat) > 0,
            pow10(b.scale as nat) > 0,
            pow10(c.scale as nat) > 0,
    {
    }
}

/// What the standard normal cumulative distribution function returns.
pub uninterp spec fn cdf_of(a: Dec) -> Dec;

/// What the standard normal probability density function returns.
pub uninterp spec fn pdf_of(a: Dec) -> Dec;

/// Relies on `rust_decimal::Decimal::checked_add`: `None` on overflow, else
/// the rounded sum, a function of the two arguments alone.
#[verifier::external_body]
pub(crate) fn dec_add(a: Dec, b: Dec) -> (r: Option<Dec>)
    requires
        a.wf(),
        b.wf(),
    ensures
        r is Some <==> add_some(a, b),
        r matches Some(v) ==> v == add_of(a, b) && v.wf(),
{
    let x = Decimal::from_i128_with_scale(a.mantissa, a.scale);
    let y = Decimal::from_i128_with_scale(b.mantissa, b.scale);
    x.checked_add(y).map(|d| Dec { mantissa: d.mantissa(), scale: d.scale() })
}

/// Relies on `rust_decimal::Decimal::checked_sub`: `None` on overflow, else
/// the rounded difference, a function of the two arguments alone.
/// Subtracting a non-negative value cannot round above the minuend: the
/// exact difference is at most the minuend, and the rounding is monotone.
#[verifier::external_body]
pub(crate) fn dec_sub(a: Dec, b: Dec) -> (r: Option<Dec>)
    requires
        a.wf(),
        b.wf(),
    ensures
        r is Some <==> sub_some(a, b),
        r matches Some(v) ==> v == sub_of(a, b) && v.wf(),
        r matches Some(v) ==> (b.mantissa >= 0 ==> dec_le_v(v, a)),
{
    let x = Decimal::from_i128_with_scale(a.mantissa, a.scale);
    let y = Decimal::from_i128_with_scale(b.mantissa, b.scale);
    x.checked_sub(y).map(|d| Dec { mantissa: d.mantissa(), scale: d.scale() })
}

/// Relies on `rust_decimal::Decimal::checked_mul`: `None` on overflow, else
/// the rounded product, a function of the two arguments alone.
/// A product of non-negatives is non-negative, and a product with a factor
/// between zero and one does not exceed the other non-negative factor,
/// rounding included (the exact product is at most that factor, and the gap
/// to it is wider than any rounding step).
#[verifier::external_body]
pub(crate) fn dec_mul(a: Dec, b: Dec) -> (r: Option<Dec>)
    requires
        a.wf(),
        b.wf(),
    ensures
        r is Some <==> mul_some(a, b),
        r matches Some(v) ==> v == mul_of(a, b) && v.wf(),
        r matches Some(v) ==> (a.mantissa >= 0 && b.mantissa >= 0 ==> v.mantissa >= 0),
        r matches Some(v) ==> (a.mantissa >= 0 && 0 <= b.mantissa <= pow10(b.scale as nat)
            ==> dec_le_v(v, a)),
{
    let x = Decimal::from_i128_with_scale(a.mantissa, a.scale);
    let y = Decimal::from_i128_with_scale(b.mantissa, b.scale);
    x.checked_mul(y).map(|d| Dec { mantissa: d.mantissa(), scale: d.scale() })
}

/// Relies on `rust_decimal::Decimal::checked_div`: `None` on division by zero
/// or overflow, else the rounded quotient, a function of the arguments alone.
/// A quotient of non-negatives is non-negative, rounding included.
#[verifier::external_body]
pub(crate) fn dec_div(a: Dec, b: Dec) -> (r: Option<Dec>)
    requires
        a.wf(),
        b.wf(),
    ensures
        r is Some <==> div_some(a, b),
        r matches Some(v) ==> v == div_of(a, b) && v.wf(),
        r matches Some(v) ==> (a.mantissa >= 0 && b.mantissa >= 0 ==> v.mantissa >= 0),
{
    let x = Decimal::from_i128_with_scale(a.mantissa, a.scale);
    let y = Decimal::from_i128_with_scale(b.mantissa, b.scale);
    x.checked_div(y).map(|d| Dec { mantissa: d.mantissa(), scale: d.scale() })
}

/// Relies on `rust_decimal::MathematicalOps::checked_ln`: `None` exactly for
/// inputs at or below zero, else the natural logarithm, a function of the
/// argument alone (for a representable positive input the logarithm lies
/// well inside the representable range).
#[verifier::external_body]
pub(crate) fn dec_ln(a: Dec) -> (r: Option<Dec>)
    requires
        a.wf(),
    ensures
        r is Some <==> a.mantissa > 0,
        r matches Some(v) ==> v == ln_of(a) && v.wf(),
{
    let x = Decimal::from_i128_with_scale(a.mantissa, a.scale);
    x.checked_ln().map(|d| Dec { mantissa: d.mantissa(), scale: d.scale() })
}

/// Relies on `rust_decimal::MathematicalOps::checked_exp`: `None` on
/// overflow, else `e^a`, a function of the argument alone. The exponential
/// is positive, so the rounded result is never negative.
#[verifier::external_body]
pub(crate) fn dec_exp(a: Dec) -> (r: Option<Dec>)
    requires
        a.wf(),
    ensures
        r is Some <==> exp_some(a),
        r matches Some(v) ==> v == exp_of(a) && v.wf() && v.mantissa >= 0,
{
    let x = Decimal::from_i128_with_scale(a.mantissa, a.scale);
    x.checked_exp().map(|d| Dec { mantissa: d.mantissa(), scale: d.scale() })
}

/// Relies on `rust_decimal::MathematicalOps::checked_powd` with the
/// exponent one half: zero for a zero input, else `e^(ln(a)/2)` through the
/// crate's checked logarithm, product and exponential, a function of the
/// argument alone, never negative. Every step is checked, so no input this
/// accepts can panic.
#[verifier::external_body]
pub(crate) fn dec_sqrt(a: Dec) -> (r: Option<Dec>)
    requires
        a.wf(),
        a.mantissa >= 0,
    ensures
        r is Some <==> sqrt_some(a),
        r matches Some(v) ==> v == sqrt_of(a) && v.wf() && v.mantissa >= 0,
{
    let x = Decimal::from_i128_with_scale(a.mantissa, a.scale);
    x.checked_powd(Decimal::new(5, 1)).map(|d| Dec { mantissa: d.mantissa(), scale: d.scale() })
}

/// Relies on `rust_decimal`'s `Ord` for `Decimal`: decimals compare by their
/// numeric value.
#[verifier::external_body]
pub(crate) fn dec_le(a: Dec, b: Dec) -> (r: bool)
    requires
        a.wf(),
        b.wf(),
    ensures
        r == dec_le_v(a, b),
{
    let x = Decimal::from_i128_with_scale(a.mantissa, a.scale);
    let y = Decimal::from_i128_with_scale(b.mantissa, b.scale);
    x <= y
}

/// Relies on statrs's standard normal `cdf`: a probability, so it lies
/// between zero and one, and it is a function of the argument alone. It
/// runs through the platform's `exp`, so the last digit may differ across
/// platforms; within one build two calls agree, which is all the proofs
/// use.
#[verifier::external_body]
pub(crate) fn norm_cdf(a: Dec) -> (r: Dec)
    requires
        a.wf(),
    ensures
        r == cdf_of(a),
        r.wf(),
        0 <= r.mantissa,
        r.mantissa <= pow10(r.scale as nat),
{
    let x = Decimal::from_i128_with_scale(a.mantissa, a.scale);
    let n = Normal::standard();
    let p = n.cdf(x.to_f64().unwrap_or_default());
    let d = Decimal::from_f64(p).unwrap_or(Decimal::ZERO);
    Dec { mantissa: d.mantissa(), scale: d.scale() }
}

/// Relies on statrs's standard normal `pdf`: a density, so it is never
/// negative, and it is a function of the argument alone. It runs through
/// the platform's `exp`, so the last digit may differ across platforms;
/// within one build two calls agree, which is all the proofs use.
#[verifier::external_body]
pub(crate) fn norm_pdf(a: Dec) -> (r: Dec)
    requires
        a.wf(),
    ensures
        r == pdf_of(a),
        r.wf(),
        0 <= r.mantissa,
{
    let x = Decimal::from_i128_with_scale(a.mantissa, a.scale);
    let n = Normal::standard();
    let p = n.pdf(x.to_f64().unwrap_or_default());
    let d = Decimal::from_f64(p).unwrap_or(Decimal::ZERO);
    Dec { mantissa: d.mantissa(), scale: d.scale() }
}

} // verus!
