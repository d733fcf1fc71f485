//! Solvency: required collateral, collateralisation ratio and the check
//! that a liquidation trigger calls.

use vstd::prelude::*;
use crate::error::ContractError;
use crate::fixed::checked_multiply_ratio;

verus! {

/// `floor(outstanding_supply * threshold_ratio / 100)`.
pub open spec fn required_collateral_spec(outstanding_supply: nat, threshold_ratio: nat) -> nat {
    outstanding_supply * threshold_ratio / 100
}

/// `floor(collateral_total * 100 / outstanding_supply)`, and 0 for an empty
/// system.
pub open spec fn current_ratio_spec(collateral_total: nat, outstanding_supply: nat) -> nat {
    if outstanding_supply == 0 {
        0
    } else {
        collateral_total * 100 / outstanding_supply
    }
}

/// Solvent while the collateral meets the required collateral.
pub open spec fn is_solvent_spec(collateral_total: nat, outstanding_supply: nat, threshold_ratio: nat) -> bool {
    collateral_total >= required_collateral_spec(outstanding_supply, threshold_ratio)
}

/// The error of a failed solvency check: the requirement, saturated at the
/// largest `u128`, and the collateral available.
pub open spec fn shortfall_error(collateral_total: u128, outstanding_supply: u128, threshold_ratio: u64) -> ContractError {
    let required = required_collateral_spec(outstanding_supply as nat, threshold_ratio as nat);
    ContractError::InsufficientCollateral {
        required: if required <= u128::MAX { required as u128 } else { u128::MAX },
        available: collateral_total,
    }
}

/// Solvency only improves as the outstanding supply shrinks: a system solvent
/// at one supply is solvent at any smaller one.
pub proof fn lemma_solvency_anti_monotone(collateral_total: nat, smaller: nat, larger: nat, threshold_ratio: nat)
    requires
        smaller <= larger,
        is_solvent_spec(collateral_total, larger, threshold_ratio),
    ensures
        is_solvent_spec(collateral_total, smaller, threshold_ratio),
{
    assert(smaller * threshold_ratio <= larger * threshold_ratio) by (nonlinear_arith)
        requires
            smaller <= larger,
    ;
    vstd::arithmetic::div_mod::lemma_div_is_ordered(
        (smaller * threshold_ratio) as int,
        (larger * threshold_ratio) as int,
        100,
    );
}

/// The collateral that `outstanding_supply` requires at `threshold_ratio`
/// percent, rounded down; `Overflow` where it does not fit in 128 bits.
pub fn required_collateral(outstanding_supply: u128, threshold_ratio: u64) -> (r: Result<u128, ContractError>)
    ensures
        r is Ok <==> required_collateral_spec(outstanding_supply as nat, threshold_ratio as nat) <= u128::MAX,
        r is Ok ==> r->Ok_0 == required_collateral_spec(outstanding_supply as nat, threshold_ratio as nat),
        r is Err ==> r->Err_0 == ContractError::Overflow,
{
    match checked_multiply_ratio(outstanding_supply, threshold_ratio as u128, 100) {
        Some(v) => Ok(v),
        None => Err(ContractError::Overflow),
    }
}

/// The collateralisation ratio in percent, rounded down; 0 when nothing is
/// outstanding; `Overflow` where it does not fit in 128 bits.
pub fn current_ratio(collateral_total: u128, outstanding_supply: u128) -> (r: Result<u128, ContractError>)
    ensures
        r is Ok <==> current_ratio_spec(collateral_total as nat, outstanding_supply as nat) <= u128::MAX,
        r is Ok ==> r->Ok_0 == current_ratio_spec(collateral_total as nat, outstanding_supply as nat),
        r is Err ==> r->Err_0 == ContractError::Overflow,
        outstanding_supply == 0 ==> r == Ok::<u128, ContractError>(0),
{
    if outstanding_supply == 0 {
        return Ok(0);
    }
    match checked_multiply_ratio(collateral_total, 100, outstanding_supply) {
        Some(v) => Ok(v),
        None => Err(ContractError::Overflow),
    }
}

/// Whether the collateral meets the requirement; an empty system is always
/// solvent.
pub fn is_solvent(collateral_total: u128, outstanding_supply: u128, threshold_ratio: u64) -> (r: bool)
    ensures
        r == is_solvent_spec(collateral_total as nat, outstanding_supply as nat, threshold_ratio as nat),
        outstanding_supply == 0 ==> r,
{
    proof {
        let t = threshold_ratio as nat;
        if outstanding_supply == 0 {
            assert(0nat * t / 100 == 0) by (nonlinear_arith);
        }
    }
    match required_collateral(outstanding_supply, threshold_ratio) {
        Ok(required) => collateral_total >= required,
        Err(_) => false,
    }
}

/// The hook of a liquidation trigger: `InsufficientCollateral`, with the
/// requirement (saturated at the largest `u128`) and the collateral, unless
/// solvent.
pub fn check_and_signal(collateral_total: u128, outstanding_supply: u128, threshold_ratio: u64) -> (r: Result<(), ContractError>)
    ensures
        r is Ok <==> is_solvent_spec(collateral_total as nat, outstanding_supply as nat, threshold_ratio as nat),
        r is Err ==> r->Err_0 == shortfall_error(collateral_total, outstanding_supply, threshold_ratio),
{
    match required_collateral(outstanding_supply, threshold_ratio) {
        Ok(required) => {
            if collateral_total >= required {
                Ok(())
            } else {
                Err(ContractError::InsufficientCollateral { required, available: collateral_total })
            }
        },
        Err(_) => Err(ContractError::InsufficientCollateral { required: u128::MAX, available: collateral_total }),
    }
}

/// The collateralisation ratio against a debt, in percent and rounded down:
/// 0 for a zero debt, `Overflow` where the ratio does not fit.
pub fn calculate_collateral_ratio(total_locked: u128, debt_amount: u128) -> (r: Result<u128, ContractError>)
    ensures
        debt_amount == 0 ==> r == Ok::<u128, ContractError>(0),
        r is Ok <==> current_ratio_spec(total_locked as nat, debt_amount as nat) <= u128::MAX,
        r is Ok ==> r->Ok_0 == current_ratio_spec(total_locked as nat, debt_amount as nat),
        r is Err ==> r->Err_0 == ContractError::Overflow,
{
    current_ratio(total_locked, debt_amount)
}

/// Whether the collateralisation ratio against a debt reaches `min_ratio`
/// percent; a zero debt is always properly collateralized, and a ratio too
/// large for 128 bits reaches any minimum.
pub fn is_properly_collateralized(total_locked: u128, debt_amount: u128, min_ratio: u64) -> (r: Result<bool, ContractError>)
    ensures
        debt_amount == 0 ==> r == Ok::<bool, ContractError>(true),
        r == Ok::<bool, ContractError>(
            debt_amount == 0 || current_ratio_spec(total_locked as nat, debt_amount as nat) >= min_ratio,
        ),
{
    if debt_amount == 0 {
        return Ok(true);
    }
    match current_ratio(total_locked, debt_amount) {
        Ok(ratio) => Ok(ratio >= min_ratio as u128),
        Err(_) => Ok(true),
    }
}

} // verus!
