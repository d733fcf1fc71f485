//! Price helpers: deviation from the peg, the dynamic fee and the price
//! implied by collateral and supply.

use vstd::prelude::*;
use crate::error::ContractError;
use crate::fee::{deviation, deviation_spec, FeeCurve};
use crate::fixed::{abs_diff, checked_multiply_ratio, Decimal, FRACTIONAL};

verus! {

/// The queries that a price oracle answers.
#[derive(Clone, Debug, PartialEq, Eq)]
pub enum OracleQueryMsg {
    GetPrice { denom: String },
    GetExchangeRate { base_denom: String, quote_denom: String },
    GetPrices {},
}

/// `|market_price - 1|`.
pub fn calculate_deviation_from_peg(market_price: Decimal) -> (r: Decimal)
    ensures
        r@ == abs_diff(market_price@ as int, FRACTIONAL as int),
{
    deviation(market_price, Decimal::one())
}

/// The dynamic fee: 0.1% plus the deviation from `target_price` (1.0 when
/// none is given), capped at 5%.
pub fn calculate_dynamic_fee(current_price: Decimal, target_price: Option<Decimal>) -> (r: Result<Decimal, ContractError>)
    ensures
        r is Ok,
        r->Ok_0@ == FeeCurve::dynamic_spec().rate_spec(deviation_spec(
            current_price,
            match target_price {
                Some(t) => t,
                None => Decimal { atomics: FRACTIONAL },
            },
        )),
{
    let target = match target_price {
        Some(t) => t,
        None => Decimal::one(),
    };
    let curve = FeeCurve::dynamic();
    Ok(curve.fee_rate(deviation(current_price, target)))
}

/// `floor(collateral * 10^18 / supply)` in atomic units: the price per unit of
/// supply.
pub open spec fn price_spec(collateral: nat, supply: nat) -> nat {
    collateral * (FRACTIONAL as nat) / supply
}

/// Collateral per unit of supply, and zero for an empty supply; `Overflow`
/// where the price is not representable.
pub fn calculate_price(collateral: u128, supply: u128) -> (r: Result<Decimal, ContractError>)
    ensures
        supply == 0 ==> r == Ok::<Decimal, ContractError>(Decimal { atomics: 0 }),
        supply > 0 ==> (r is Ok <==> price_spec(collateral as nat, supply as nat) <= u128::MAX),
        supply > 0 && r is Ok ==> r->Ok_0@ == price_spec(collateral as nat, supply as nat),
        r is Err ==> r->Err_0 == ContractError::Overflow,
{
    if supply == 0 {
        return Ok(Decimal::zero());
    }
    match checked_multiply_ratio(collateral, FRACTIONAL, supply) {
        Some(atomics) => Ok(Decimal::raw(atomics)),
        None => Err(ContractError::Overflow),
    }
}

} // verus!
