//! Liquidation configuration and the checks that a liquidation trigger runs.

use vstd::prelude::*;
use crate::error::ContractError;
use crate::fixed::checked_multiply_ratio;
use crate::solvency::{
    check_and_signal, current_ratio, current_ratio_spec, is_solvent, is_solvent_spec, shortfall_error,
};

verus! {

/// The smallest threshold ratio, in percent.
pub const MIN_THRESHOLD_RATIO: u64 = 100;

/// The largest liquidation fee, in percent.
pub const MAX_LIQUIDATION_FEE: u64 = 20;

/// The liquidation fee, in percent, when none is configured.
pub const DEFAULT_LIQUIDATION_FEE: u64 = 5;

/// Atomic units of one price unit in the prices that the liquidation
/// status takes (6 decimals).
pub const PRICE_UNIT: u128 = 1_000_000;

/// Administrator-owned liquidation settings.
#[derive(Clone, Debug, PartialEq, Eq)]
pub struct LiquidationConfig {
    /// The price oracle to consult, if any.
    pub oracle_address: Option<String>,
    /// Minimum collateralisation, in percent.
    pub threshold_ratio: u64,
    /// Penalty on liquidated positions, in percent.
    pub liquidation_fee: u64,
    /// The kill switch: checks are bypassed while it is off.
    pub is_active: bool,
}

/// The outcome of a liquidation check that did not fail.
#[derive(Clone, Copy, Debug, PartialEq, Eq, Structural)]
pub enum LiquidationCheck {
    /// Liquidation is switched off; nothing was checked.
    Bypassed,
    /// Solvent, at the given collateralisation ratio in percent.
    Solvent { collateral_ratio: u128 },
}

/// A report on the protocol's collateralisation.
#[derive(Clone, Copy, Debug, PartialEq, Eq, Structural)]
pub struct LiquidationStatus {
    pub is_solvent: bool,
    pub current_ratio: u128,
    pub required_ratio: u64,
    pub collateral_value: u128,
    /// `floor(supply * price / 10^6)`: the supply valued at the price.
    pub backed_value: u128,
}

impl LiquidationConfig {
    pub open spec fn wf(&self) -> bool {
        &&& self.threshold_ratio >= MIN_THRESHOLD_RATIO
        &&& self.liquidation_fee <= MAX_LIQUIDATION_FEE
    }

    /// An active configuration; `InvalidConfiguration` for a threshold
    /// below 100% or a fee above 20%. The fee defaults to 5%.
    pub fn new(threshold_ratio: u64, liquidation_fee: Option<u64>, oracle_address: Option<String>) -> (r: Result<LiquidationConfig, ContractError>)
        ensures
            r is Ok <==> threshold_ratio >= MIN_THRESHOLD_RATIO && (liquidation_fee matches Some(f) ==> f <= MAX_LIQUIDATION_FEE),
            r is Ok ==> r->Ok_0.wf() && r->Ok_0.threshold_ratio == threshold_ratio && r->Ok_0.is_active
                && r->Ok_0.oracle_address == oracle_address
                && r->Ok_0.liquidation_fee == (match liquidation_fee {
                    Some(f) => f,
                    None => DEFAULT_LIQUIDATION_FEE,
                }),
            r is Err ==> r->Err_0 == ContractError::InvalidConfiguration,
    {
        if threshold_ratio < MIN_THRESHOLD_RATIO {
            return Err(ContractError::InvalidConfiguration);
        }
        let fee = match liquidation_fee {
            Some(f) => f,
            None => DEFAULT_LIQUIDATION_FEE,
        };
        if fee > MAX_LIQUIDATION_FEE {
            return Err(ContractError::InvalidConfiguration);
        }
        Ok(LiquidationConfig { oracle_address, threshold_ratio, liquidation_fee: fee, is_active: true })
    }

    /// Applies the given changes together or not at all: `Unauthorized`
    /// first, then `InvalidConfiguration` for a threshold below 100% or a
    /// fee above 20%.
    pub fn execute_update_config(
        &mut self,
        authorized: bool,
        oracle_address: Option<String>,
        threshold_ratio: Option<u64>,
        liquidation_fee: Option<u64>,
        is_active: Option<bool>,
    ) -> (r: Result<(), ContractError>)
        requires
            old(self).wf(),
        ensures
            final(self).wf(),
            r is Ok <==> authorized && (threshold_ratio matches Some(t) ==> t >= MIN_THRESHOLD_RATIO)
                && (liquidation_fee matches Some(f) ==> f <= MAX_LIQUIDATION_FEE),
            !authorized ==> r == Err::<(), ContractError>(ContractError::Unauthorized),
            authorized && r is Err ==> r->Err_0 == ContractError::InvalidConfiguration,
            r is Err ==> *final(self) == *old(self),
            r is Ok ==> final(self).oracle_address == (match oracle_address {
                Some(a) => Some(a),
                None => old(self).oracle_address,
            }),
            r is Ok ==> final(self).threshold_ratio == (match threshold_ratio {
                Some(t) => t,
                None => old(self).threshold_ratio,
            }),
            r is Ok ==> final(self).liquidation_fee == (match liquidation_fee {
                Some(f) => f,
                None => old(self).liquidation_fee,
            }),
            r is Ok ==> final(self).is_active == (match is_active {
                Some(a) => a,
                None => old(self).is_active,
            }),
    {
        if !authorized {
            return Err(ContractError::Unauthorized);
        }
        if let Some(t) = threshold_ratio {
            if t < MIN_THRESHOLD_RATIO {
                return Err(ContractError::InvalidConfiguration);
            }
        }
        if let Some(f) = liquidation_fee {
            if f > MAX_LIQUIDATION_FEE {
                return Err(ContractError::InvalidConfiguration);
            }
        }
        if let Some(a) = oracle_address {
            self.oracle_address = Some(a);
        }
        if let Some(t) = threshold_ratio {
            self.threshold_ratio = t;
        }
        if let Some(f) = liquidation_fee {
            self.liquidation_fee = f;
        }
        if let Some(a) = is_active {
            self.is_active = a;
        }
        Ok(())
    }

    /// The check of a liquidation trigger: bypassed while switched off, else
    /// `InsufficientCollateral` unless solvent, else the collateralisation
    /// ratio, saturated at the largest `u128`.
    pub fn execute_check_liquidation(&self, collateral_total: u128, eqa_supply: u128) -> (r: Result<LiquidationCheck, ContractError>)
        ensures
            !self.is_active ==> r == Ok::<LiquidationCheck, ContractError>(LiquidationCheck::Bypassed),
            self.is_active ==> (r is Ok <==> is_solvent_spec(collateral_total as nat, eqa_supply as nat, self.threshold_ratio as nat)),
            self.is_active && !is_solvent_spec(collateral_total as nat, eqa_supply as nat, self.threshold_ratio as nat)
                ==> r == Err::<LiquidationCheck, ContractError>(shortfall_error(collateral_total, eqa_supply, self.threshold_ratio)),
            self.is_active && r is Ok ==> r->Ok_0 == (LiquidationCheck::Solvent {
                collateral_ratio: if current_ratio_spec(collateral_total as nat, eqa_supply as nat) <= u128::MAX {
                    current_ratio_spec(collateral_total as nat, eqa_supply as nat) as u128
                } else {
                    u128::MAX
                },
            }),
    {
        if !self.is_active {
            return Ok(LiquidationCheck::Bypassed);
        }
        match check_and_signal(collateral_total, eqa_supply, self.threshold_ratio) {
            Ok(()) => {},
            Err(e) => return Err(e),
        }
        let collateral_ratio = match current_ratio(collateral_total, eqa_supply) {
            Ok(ratio) => ratio,
            Err(_) => u128::MAX,
        };
        Ok(LiquidationCheck::Solvent { collateral_ratio })
    }

    /// The collateralisation report for a supply valued at `price` (6
    /// decimals); `Overflow` where the ratio or the backed value does not fit.
    pub fn query_liquidation_status(&self, collateral_total: u128, eqa_supply: u128, price: u128) -> (r: Result<LiquidationStatus, ContractError>)
        ensures
            r is Ok <==> current_ratio_spec(collateral_total as nat, eqa_supply as nat) <= u128::MAX
                && (eqa_supply as nat) * (price as nat) / (PRICE_UNIT as nat) <= u128::MAX,
            r is Ok ==> r->Ok_0 == (LiquidationStatus {
                is_solvent: is_solvent_spec(collateral_total as nat, eqa_supply as nat, self.threshold_ratio as nat),
                current_ratio: current_ratio_spec(collateral_total as nat, eqa_supply as nat) as u128,
                required_ratio: self.threshold_ratio,
                collateral_value: collateral_total,
                backed_value: ((eqa_supply as nat) * (price as nat) / (PRICE_UNIT as nat)) as u128,
            }),
            r is Err ==> r->Err_0 == ContractError::Overflow,
    {
        let backed_value = match checked_multiply_ratio(eqa_supply, price, PRICE_UNIT) {
            Some(v) => v,
            None => return Err(ContractError::Overflow),
        };
        let ratio = match current_ratio(collateral_total, eqa_supply) {
            Ok(v) => v,
            Err(e) => return Err(e),
        };
        Ok(LiquidationStatus {
            is_solvent: is_solvent(collateral_total, eqa_supply, self.threshold_ratio),
            current_ratio: ratio,
            required_ratio: self.threshold_ratio,
            collateral_value: collateral_total,
            backed_value,
        })
    }
}

} // verus!
