//! The price and fee formulas in their strict form: a zero supply is an
//! error and the fee target is explicit.

use vstd::prelude::*;
use crate::error::ContractError;
use crate::fee::{deviation, deviation_spec, FeeCurve};
use crate::fixed::{checked_multiply_ratio, Decimal, FRACTIONAL};
use crate::oracle::price_spec;

verus! {

/// Collateral per unit of supply: `DivideByZero` for an empty supply,
/// `Overflow` where the price is not representable.
pub fn calculate_price(collateral: u128, supply: u128) -> (r: Result<Decimal, ContractError>)
    ensures
        supply == 0 ==> r == Err::<Decimal, ContractError>(ContractError::DivideByZero),
        supply > 0 ==> (r is Ok <==> price_spec(collateral as nat, supply as nat) <= u128::MAX),
        r is Ok ==> r->Ok_0@ == price_spec(collateral as nat, supply as nat),
        supply > 0 && r is Err ==> r->Err_0 == ContractError::Overflow,
{
    if supply == 0 {
        return Err(ContractError::DivideByZero);
    }
    match checked_multiply_ratio(collateral, FRACTIONAL, supply) {
        Some(atomics) => Ok(Decimal::raw(atomics)),
        None => Err(ContractError::Overflow),
    }
}

/// The dynamic fee against an explicit target: 0.1% plus the deviation,
/// capped at 5%.
pub fn calculate_dynamic_fee(current_price: Decimal, target_price: Decimal) -> (r: Result<Decimal, ContractError>)
    ensures
        r is Ok,
        r->Ok_0@ == FeeCurve::dynamic_spec().rate_spec(deviation_spec(current_price, target_price)),
{
    let curve = FeeCurve::dynamic();
    Ok(curve.fee_rate(deviation(current_price, target_price)))
}

} // verus!
