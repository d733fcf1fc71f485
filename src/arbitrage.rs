//! Arbitrage incentives: whether a deviation from the peg is worth trading
//! and what the trade earns.

use vstd::prelude::*;
use crate::error::ContractError;
use crate::fee::{deviation, deviation_spec};
use crate::fixed::{
    checked_multiply_ratio, decimal_mul, decimal_mul_spec, lemma_scaled_at_most, mul_floor_spec, Decimal,
    FRACTIONAL,
};

verus! {

/// The largest reward percentage.
pub const MAX_REWARD_PERCENT: u64 = 50;

/// The trade size that the opportunity query proposes.
pub const OPTIMAL_TRADE_SIZE: u128 = 100_000;

/// The deviation, in atomic units, above which an opportunity exists (1%).
pub const OPPORTUNITY_THRESHOLD: u128 = 10_000_000_000_000_000;

/// The side that brings the price back to the peg.
#[derive(Clone, Copy, Debug, PartialEq, Eq, Structural)]
pub enum TradeDirection {
    Buy,
    Sell,
}

impl TradeDirection {
    /// `"buy"` or `"sell"`.
    pub fn name(&self) -> (r: &'static str)
        ensures
            r@ == (match self {
                TradeDirection::Buy => "buy"@,
                TradeDirection::Sell => "sell"@,
            }),
    {
        match self {
            TradeDirection::Buy => "buy",
            TradeDirection::Sell => "sell",
        }
    }
}

/// What the opportunity query reports.
#[derive(Clone, Copy, Debug, PartialEq, Eq, Structural)]
pub struct ArbitrageOpportunity {
    pub opportunity_exists: bool,
    pub optimal_trade_size: u128,
    pub expected_profit: Decimal,
    pub direction: TradeDirection,
}

/// The reward percentage, accepted up to 50%; `InvalidConfiguration` above.
pub fn validate_reward_percentage(reward_percentage: Decimal) -> (r: Result<Decimal, ContractError>)
    ensures
        r is Ok <==> reward_percentage@ <= MAX_REWARD_PERCENT * 10_000_000_000_000_000,
        r is Ok ==> r->Ok_0 == reward_percentage,
        r is Err ==> r->Err_0 == ContractError::InvalidConfiguration,
{
    if reward_percentage.atomics > Decimal::percent(MAX_REWARD_PERCENT).atomics {
        return Err(ContractError::InvalidConfiguration);
    }
    Ok(reward_percentage)
}

/// The opportunity at `current_price` against a peg of 1.0: one exists above
/// a 1% deviation; the expected profit is the deviation times the reward
/// percentage; selling brings a price above the peg down, buying one below up.
pub fn query_arbitrage_opportunity(current_price: Decimal, reward_percentage: Decimal) -> (r: ArbitrageOpportunity)
    requires
        reward_percentage@ <= FRACTIONAL,
    ensures
        r.opportunity_exists == (deviation_spec(current_price, Decimal { atomics: FRACTIONAL }) > OPPORTUNITY_THRESHOLD),
        r.optimal_trade_size == OPTIMAL_TRADE_SIZE,
        r.expected_profit@ == decimal_mul_spec(deviation_spec(current_price, Decimal { atomics: FRACTIONAL }), reward_percentage@),
        r.direction == (if current_price@ > FRACTIONAL { TradeDirection::Sell } else { TradeDirection::Buy }),
{
    let dev = deviation(current_price, Decimal::one());
    proof {
        lemma_scaled_at_most(dev@, reward_percentage@);
    }
    let expected_profit = decimal_mul(dev, reward_percentage);
    let direction = if current_price.atomics > FRACTIONAL {
        TradeDirection::Sell
    } else {
        TradeDirection::Buy
    };
    ArbitrageOpportunity {
        opportunity_exists: dev.atomics > OPPORTUNITY_THRESHOLD,
        optimal_trade_size: OPTIMAL_TRADE_SIZE,
        expected_profit,
        direction,
    }
}

/// The reward for trading `amount` at `target_price`: `floor(amount *
/// (deviation * reward_percentage))`; `Overflow` where it does not fit.
pub fn execute_arbitrage(amount: u128, target_price: Decimal, reward_percentage: Decimal) -> (r: Result<u128, ContractError>)
    requires
        reward_percentage@ <= FRACTIONAL,
    ensures
        ({
            let share = decimal_mul_spec(deviation_spec(target_price, Decimal { atomics: FRACTIONAL }), reward_percentage@);
            &&& (r is Ok <==> mul_floor_spec(amount as nat, share) <= u128::MAX)
            &&& (r is Ok ==> r->Ok_0 == mul_floor_spec(amount as nat, share))
            &&& (r is Err ==> r->Err_0 == ContractError::Overflow)
        }),
{
    let dev = deviation(target_price, Decimal::one());
    proof {
        lemma_scaled_at_most(dev@, reward_percentage@);
    }
    let share = decimal_mul(dev, reward_percentage);
    match checked_multiply_ratio(amount, share.atomics, FRACTIONAL) {
        Some(reward) => Ok(reward),
        None => Err(ContractError::Overflow),
    }
}

} // verus!
