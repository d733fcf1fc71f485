//! An 18-digit fixed-point decimal held as a count of atomic units.

use vstd::prelude::*;

verus! {

/// Atomic units in one whole unit: 10^18.
pub const FRACTIONAL: u128 = 1_000_000_000_000_000_000;

/// A non-negative fixed-point number with 18 decimal places; its value is
/// `atomics / 10^18`.
#[derive(Clone, Copy, Debug, PartialEq, Eq, Structural, PartialOrd, Ord, Hash)]
pub struct Decimal {
    pub atomics: u128,
}

impl Decimal {
    /// The value in atomic units.
    pub open spec fn view(self) -> nat {
        self.atomics as nat
    }

    pub fn zero() -> (r: Decimal)
        ensures
            r@ == 0,
    {
        Decimal { atomics: 0 }
    }

    pub fn one() -> (r: Decimal)
        ensures
            r@ == FRACTIONAL,
    {
        Decimal { atomics: FRACTIONAL }
    }

    /// `x` percent, that is `x / 100`.
    pub fn percent(x: u64) -> (r: Decimal)
        ensures
            r@ == x * 10_000_000_000_000_000,
    {
        Decimal { atomics: (x as u128) * 10_000_000_000_000_000 }
    }

    /// `x` per mille, that is `x / 1000`.
    pub fn permille(x: u64) -> (r: Decimal)
        ensures
            r@ == x * 1_000_000_000_000_000,
    {
        Decimal { atomics: (x as u128) * 1_000_000_000_000_000 }
    }

    /// The decimal with the given number of atomic units.
    pub fn raw(atomics: u128) -> (r: Decimal)
        ensures
            r@ == atomics,
    {
        Decimal { atomics }
    }

    pub fn atomics(&self) -> (r: u128)
        ensures
            r == self@,
    {
        self.atomics
    }

    pub fn is_zero(&self) -> (r: bool)
        ensures
            r == (self@ == 0),
    {
        self.atomics == 0
    }

    /// The sum; the caller keeps it within the representable range.
    pub fn add(self, other: Decimal) -> (r: Decimal)
        requires
            self@ + other@ <= u128::MAX,
        ensures
            r@ == self@ + other@,
    {
        Decimal { atomics: self.atomics + other.atomics }
    }

    /// The difference; the caller keeps it non-negative.
    pub fn sub(self, other: Decimal) -> (r: Decimal)
        requires
            self@ >= other@,
        ensures
            r@ == self@ - other@,
    {
        Decimal { atomics: self.atomics - other.atomics }
    }

    /// The sum, or `None` where it is not representable.
    pub fn checked_add(self, other: Decimal) -> (r: Option<Decimal>)
        ensures
            r is Some <==> self@ + other@ <= u128::MAX,
            r is Some ==> r->0@ == self@ + other@,
    {
        match self.atomics.checked_add(other.atomics) {
            Some(a) => Some(Decimal { atomics: a }),
            None => None,
        }
    }

    /// `|self - other|`.
    pub fn abs_diff(self, other: Decimal) -> (r: Decimal)
        ensures
            r@ == abs_diff(self@ as int, other@ as int),
    {
        if self.atomics > other.atomics {
            Decimal { atomics: self.atomics - other.atomics }
        } else {
            Decimal { atomics: other.atomics - self.atomics }
        }
    }

    /// The smaller of the two.
    pub fn min(self, other: Decimal) -> (r: Decimal)
        ensures
            r@ == if self@ <= other@ { self@ } else { other@ },
    {
        if self.atomics <= other.atomics {
            self
        } else {
            other
        }
    }
}

/// Absolute difference of two integers.
pub open spec fn abs_diff(a: int, b: int) -> nat {
    if a >= b {
        (a - b) as nat
    } else {
        (b - a) as nat
    }
}

/// `floor(amount * d)`: an amount scaled by a decimal, rounded down.
pub open spec fn mul_floor_spec(amount: nat, d: nat) -> nat {
    (amount * d / (FRACTIONAL as nat)) as nat
}

/// `floor(a * b)` for two decimals, in atomic units.
pub open spec fn decimal_mul_spec(a: nat, b: nat) -> nat {
    (a * b / (FRACTIONAL as nat)) as nat
}

/// Scaling by a decimal of at most 1.0 never exceeds the amount scaled.
pub proof fn lemma_scaled_at_most(amount: nat, rate: nat)
    requires
        rate <= FRACTIONAL,
    ensures
        mul_floor_spec(amount, rate) <= amount,
{
    let f = FRACTIONAL as nat;
    assert(amount * rate <= amount * f) by (nonlinear_arith)
        requires
            rate <= f,
    ;
    assert(amount * f / f == amount) by (nonlinear_arith)
        requires
            f > 0,
    ;
    vstd::arithmetic::div_mod::lemma_div_is_ordered((amount * rate) as int, (amount * f) as int, f as int);
}

/// Relies on cosmwasm_std's `Uint128 * Decimal`, which is
/// `multiply_ratio(atomics, 10^18)`: the product rounded down, and a panic
/// where it does not fit in 128 bits.
#[verifier::external_body]
pub(crate) fn mul_floor(amount: u128, d: Decimal) -> (r: u128)
    requires
        mul_floor_spec(amount as nat, d@) <= u128::MAX,
    ensures
        r == mul_floor_spec(amount as nat, d@),
{
    (cosmwasm_std::Uint128::new(amount) * cosmwasm_std::Decimal::raw(d.atomics)).u128()
}

/// Relies on cosmwasm_std's `Decimal * Decimal`: the product of the atomics
/// divided by 10^18, rounded down, and a panic where it does not fit.
#[verifier::external_body]
pub(crate) fn decimal_mul(a: Decimal, b: Decimal) -> (r: Decimal)
    requires
        decimal_mul_spec(a@, b@) <= u128::MAX,
    ensures
        r@ == decimal_mul_spec(a@, b@),
{
    let product = cosmwasm_std::Decimal::raw(a.atomics) * cosmwasm_std::Decimal::raw(b.atomics);
    Decimal { atomics: product.atomics().u128() }
}

/// Relies on cosmwasm_std's `Uint128::checked_multiply_ratio`: `value *
/// numerator / denominator` computed in 256 bits and rounded down, `Err` where
/// the result does not fit in 128 bits.
#[verifier::external_body]
pub(crate) fn checked_multiply_ratio(value: u128, numerator: u128, denominator: u128) -> (r: Option<u128>)
    requires
        denominator > 0,
    ensures
        r is Some <==> (value as nat) * (numerator as nat) / (denominator as nat) <= u128::MAX,
        r is Some ==> r->0 == (value as nat) * (numerator as nat) / (denominator as nat),
{
    cosmwasm_std::Uint128::new(value).checked_multiply_ratio(numerator, denominator).ok().map(|q| q.u128())
}

impl Decimal {
    /// `floor(amount * self)`, or `None` where it does not fit in 128 bits.
    pub fn mul_amount(self, amount: u128) -> (r: Option<u128>)
        ensures
            r is Some <==> mul_floor_spec(amount as nat, self@) <= u128::MAX,
            r is Some ==> r->0 == mul_floor_spec(amount as nat, self@),
    {
        checked_multiply_ratio(amount, self.atomics, FRACTIONAL)
    }
}

} // verus!
