use crate::error::ExtractionError;
use vstd::prelude::*;

verus! {

/// An exchange rate as a fraction: `numerator` units of base currency are
/// worth `denominator` units of the pool's derivative token.
pub struct Ratio {
    pub numerator: nat,
    pub denominator: nat,
}

impl Ratio {
    /// A rate is usable for conversion in both directions when neither side
    /// of the fraction is zero.
    pub open spec fn is_valid(self) -> bool {
        self.numerator > 0 && self.denominator > 0
    }

    /// Base-currency value of `derivative` units, rounded down.
    pub open spec fn to_base(self, derivative: nat) -> nat {
        (derivative * self.numerator) / self.denominator
    }

    /// Derivative units that `base` units of base currency buy, rounded down.
    pub open spec fn to_derivative(self, base: nat) -> nat {
        (base * self.denominator) / self.numerator
    }
}

/// An amount as a 64-bit balance, or the overflow error when it does not fit.
pub open spec fn checked_amount(value: nat) -> Result<u64, ExtractionError> {
    if value <= u64::MAX {
        Ok(value as u64)
    } else {
        Err(ExtractionError::ArithmeticOverflow)
    }
}

/// The exchange rate of one pool at the moment it was read. Both sides of
/// the fraction are non-zero in every value of this type.
#[derive(Clone, Copy, Debug, PartialEq, Eq)]
pub struct ExchangeRate {
    numerator: u64,
    denominator: u64,
}

impl View for ExchangeRate {
    type V = Ratio;

    closed spec fn view(&self) -> Ratio {
        Ratio { numerator: self.numerator as nat, denominator: self.denominator as nat }
    }
}

impl ExchangeRate {
    /// What holds of every rate: it can be used for conversion.
    #[verifier::type_invariant]
    pub open spec fn well_formed(self) -> bool {
        self@.is_valid()
    }

    /// A rate of `numerator` base units per `denominator` derivative units;
    /// `None` when either is zero.
    pub fn new(numerator: u64, denominator: u64) -> (rate: Option<ExchangeRate>)
        ensures
            rate is Some <==> numerator > 0 && denominator > 0,
            rate matches Some(r) ==> r@ == (Ratio {
                numerator: numerator as nat,
                denominator: denominator as nat,
            }),
    {
        if numerator == 0 || denominator == 0 {
            None
        } else {
            Some(ExchangeRate { numerator, denominator })
        }
    }

    /// Base units on the upper side of the fraction.
    pub fn numerator(&self) -> (n: u64)
        ensures
            n == self@.numerator,
    {
        self.numerator
    }

    /// Derivative units on the lower side of the fraction.
    pub fn denominator(&self) -> (d: u64)
        ensures
            d == self@.denominator,
    {
        self.denominator
    }

    /// Converts derivative units into base currency, rounding down. Fails
    /// with `ArithmeticOverflow` exactly when the value exceeds `u64::MAX`.
    pub fn to_base_currency(&self, derivative_amount: u64) -> (base: Result<u64, ExtractionError>)
        ensures
            base == checked_amount(self@.to_base(derivative_amount as nat)),
    {
        proof {
            use_type_invariant(self);
        }
        scale(derivative_amount, self.numerator, self.denominator)
    }

    /// Converts base currency into derivative units, rounding down. Fails
    /// with `ArithmeticOverflow` exactly when the amount exceeds `u64::MAX`.
    pub fn to_derivative_units(&self, base_amount: u64) -> (derivative: Result<
        u64,
        ExtractionError,
    >)
        ensures
            derivative == checked_amount(self@.to_derivative(base_amount as nat)),
    {
        proof {
            use_type_invariant(self);
        }
        scale(base_amount, self.denominator, self.numerator)
    }
}

/// `amount * multiplier / divisor`, rounded down, with the product taken in
/// 128 bits so that only the quotient can fail to fit.
fn scale(amount: u64, multiplier: u64, divisor: u64) -> (scaled: Result<u64, ExtractionError>)
    requires
        divisor > 0,
    ensures
        scaled == checked_amount((amount as nat * multiplier as nat) / (divisor as nat)),
{
    assert(amount as nat * multiplier as nat <= 0xFFFF_FFFF_FFFF_FFFF * 0xFFFF_FFFF_FFFF_FFFF)
        by (nonlinear_arith)
        requires
            amount <= 0xFFFF_FFFF_FFFF_FFFF,
            multiplier <= 0xFFFF_FFFF_FFFF_FFFF,
    ;
    let product: u128 = (amount as u128) * (multiplier as u128);
    let quotient: u128 = product / (divisor as u128);
    if quotient > u64::MAX as u128 {
        Err(ExtractionError::ArithmeticOverflow)
    } else {
        Ok(quotient as u64)
    }
}

/// Rounding down loses value, never makes it: converting derivative units
/// to base currency and back gives at most the units one started with.
pub proof fn lemma_round_trip_never_gains(rate: Ratio, derivative: nat)
    requires
        rate.is_valid(),
    ensures
        rate.to_derivative(rate.to_base(derivative)) <= derivative,
{
    let n: int = rate.numerator as int;
    let d: int = rate.denominator as int;
    let x: int = derivative as int;
    let base: int = (x * n) / d;
    assert(base * d <= x * n) by (nonlinear_arith)
        requires
            base == (x * n) / d,
            d > 0,
    ;
    assert((base * d) / n <= x) by (nonlinear_arith)
        requires
            base * d <= x * n,
            n > 0,
    ;
}

/// The same in the other direction: base currency converted to derivative
/// units and back is worth at most the base currency one started with.
pub proof fn lemma_round_trip_from_base_never_gains(rate: Ratio, base: nat)
    requires
        rate.is_valid(),
    ensures
        rate.to_base(rate.to_derivative(base)) <= base,
{
    let flipped = Ratio { numerator: rate.denominator, denominator: rate.numerator };
    lemma_round_trip_never_gains(flipped, base);
}

/// More derivative units are never worth less base currency.
pub proof fn lemma_to_base_monotonic(rate: Ratio, smaller: nat, larger: nat)
    requires
        rate.is_valid(),
        smaller <= larger,
    ensures
        rate.to_base(smaller) <= rate.to_base(larger),
{
    let n: int = rate.numerator as int;
    let d: int = rate.denominator as int;
    let a: int = smaller as int;
    let b: int = larger as int;
    assert((a * n) / d <= (b * n) / d) by (nonlinear_arith)
        requires
            0 <= a <= b,
            n > 0,
            d > 0,
    ;
}

/// More base currency never buys fewer derivative units.
pub proof fn lemma_to_derivative_monotonic(rate: Ratio, smaller: nat, larger: nat)
    requires
        rate.is_valid(),
        smaller <= larger,
    ensures
        rate.to_derivative(smaller) <= rate.to_derivative(larger),
{
    let flipped = Ratio { numerator: rate.denominator, denominator: rate.numerator };
    lemma_to_base_monotonic(flipped, smaller, larger);
}

/// Taking out of a holding the derivative units that `base` units of base
/// currency buy lowers the holding's value by at most `base`.
pub proof fn lemma_withdrawal_costs_at_most(rate: Ratio, holding: nat, base: nat)
    requires
        rate.is_valid(),
        rate.to_derivative(base) <= holding,
    ensures
        rate.to_base((holding - rate.to_derivative(base)) as nat) + base >= rate.to_base(holding),
{
    let n: int = rate.numerator as int;
    let d: int = rate.denominator as int;
    let h: int = holding as int;
    let b: int = base as int;
    let taken: int = (b * d) / n;
    assert(taken * n <= b * d) by (nonlinear_arith)
        requires
            taken == (b * d) / n,
            n > 0,
    ;
    assert((h - taken) * n == h * n - taken * n) by (nonlinear_arith);
    assert((h * n - b * d) / d == (h * n) / d - b) by (nonlinear_arith)
        requires
            d > 0,
    ;
    assert((h * n - b * d) / d <= ((h - taken) * n) / d) by (nonlinear_arith)
        requires
            h * n - b * d <= (h - taken) * n,
            d > 0,
    ;
}

/// Nothing converts to nothing, in both directions.
pub proof fn lemma_zero_converts_to_zero(rate: Ratio)
    requires
        rate.is_valid(),
    ensures
        rate.to_base(0) == 0,
        rate.to_derivative(0) == 0,
{
    let n: int = rate.numerator as int;
    let d: int = rate.denominator as int;
    assert((0 * n) / d == 0 && (0 * d) / n == 0) by (nonlinear_arith)
        requires
            n > 0,
            d > 0,
    ;
}

} // verus!
