//! The fee curve: a deterministic map from price deviation to a fee rate.

use vstd::prelude::*;
use crate::error::ContractError;
use crate::fixed::{abs_diff, Decimal, FRACTIONAL};

verus! {

/// How a fee curve turns a deviation into a rate.
#[derive(Clone, Copy, Debug, PartialEq, Eq, Structural)]
pub enum FeeRule {
    /// `min(base + deviation, max)`.
    Continuous,
    /// `max` where the deviation exceeds `threshold`, else `base`.
    Step { threshold: Decimal },
}

/// A fee curve with its bounds: every rate lies in `[base_fee_rate, max_fee_rate]`.
#[derive(Clone, Copy, Debug, PartialEq, Eq, Structural)]
pub struct FeeCurve {
    pub rule: FeeRule,
    pub base_fee_rate: Decimal,
    pub max_fee_rate: Decimal,
}

/// `|current - target|`: the deviation never carries a direction.
pub open spec fn deviation_spec(current: Decimal, target: Decimal) -> nat {
    abs_diff(current@ as int, target@ as int)
}

impl FeeCurve {
    /// The bounds are ordered and the cap is at most 100%.
    pub open spec fn wf(self) -> bool {
        self.base_fee_rate@ <= self.max_fee_rate@ <= FRACTIONAL
    }

    /// The rate, in atomic units, charged at a deviation of `d` atomic units.
    pub open spec fn rate_spec(self, d: nat) -> nat {
        match self.rule {
            FeeRule::Continuous => {
                if self.base_fee_rate@ + d <= self.max_fee_rate@ {
                    self.base_fee_rate@ + d
                } else {
                    self.max_fee_rate@
                }
            },
            FeeRule::Step { threshold } => {
                if d > threshold@ {
                    self.max_fee_rate@
                } else {
                    self.base_fee_rate@
                }
            },
        }
    }

    /// A continuous curve; rejected unless `base <= max <= 100%`.
    pub fn continuous(base_fee_rate: Decimal, max_fee_rate: Decimal) -> (r: Result<FeeCurve, ContractError>)
        ensures
            r is Ok <==> base_fee_rate@ <= max_fee_rate@ <= FRACTIONAL,
            r is Ok ==> r->Ok_0 == (FeeCurve { rule: FeeRule::Continuous, base_fee_rate, max_fee_rate }),
            r is Err ==> r->Err_0 == ContractError::InvalidConfiguration,
    {
        if base_fee_rate.atomics <= max_fee_rate.atomics && max_fee_rate.atomics <= FRACTIONAL {
            Ok(FeeCurve { rule: FeeRule::Continuous, base_fee_rate, max_fee_rate })
        } else {
            Err(ContractError::InvalidConfiguration)
        }
    }

    /// A step curve charging `high_fee_rate` above `threshold`; rejected
    /// unless `base <= high <= 100%`.
    pub fn step(base_fee_rate: Decimal, high_fee_rate: Decimal, threshold: Decimal) -> (r: Result<FeeCurve, ContractError>)
        ensures
            r is Ok <==> base_fee_rate@ <= high_fee_rate@ <= FRACTIONAL,
            r is Ok ==> r->Ok_0 == (FeeCurve {
                rule: FeeRule::Step { threshold },
                base_fee_rate,
                max_fee_rate: high_fee_rate,
            }),
            r is Err ==> r->Err_0 == ContractError::InvalidConfiguration,
    {
        if base_fee_rate.atomics <= high_fee_rate.atomics && high_fee_rate.atomics <= FRACTIONAL {
            Ok(FeeCurve { rule: FeeRule::Step { threshold }, base_fee_rate, max_fee_rate: high_fee_rate })
        } else {
            Err(ContractError::InvalidConfiguration)
        }
    }

    /// The continuous curve of the price module: 0.1% plus the deviation,
    /// capped at 5%.
    pub fn dynamic() -> (r: FeeCurve)
        ensures
            r.wf(),
            r == FeeCurve::dynamic_spec(),
    {
        FeeCurve { rule: FeeRule::Continuous, base_fee_rate: Decimal::permille(1), max_fee_rate: Decimal::percent(5) }
    }

    /// The curve that the mint/redeem engine charges by default: 1% while the
    /// price is within 1% of the peg, 5% beyond it.
    pub fn tiered() -> (r: FeeCurve)
        ensures
            r.wf(),
            r == FeeCurve::tiered_spec(),
    {
        FeeCurve {
            rule: FeeRule::Step { threshold: Decimal::percent(1) },
            base_fee_rate: Decimal::percent(1),
            max_fee_rate: Decimal::percent(5),
        }
    }

    /// The fee rate at the given deviation.
    pub fn fee_rate(&self, deviation: Decimal) -> (r: Decimal)
        requires
            self.wf(),
        ensures
            r@ == self.rate_spec(deviation@),
            self.base_fee_rate@ <= r@ <= self.max_fee_rate@,
    {
        match self.rule {
            FeeRule::Continuous => {
                match self.base_fee_rate.checked_add(deviation) {
                    Some(total) => total.min(self.max_fee_rate),
                    None => self.max_fee_rate,
                }
            },
            FeeRule::Step { threshold } => {
                if deviation.atomics > threshold.atomics {
                    self.max_fee_rate
                } else {
                    self.base_fee_rate
                }
            },
        }
    }
}

/// The fee rate never falls as the deviation grows, and stays within the
/// curve's bounds.
pub proof fn lemma_fee_rate_monotone(curve: FeeCurve, d1: nat, d2: nat)
    requires
        curve.wf(),
        d1 <= d2,
    ensures
        curve.rate_spec(d1) <= curve.rate_spec(d2),
        curve.base_fee_rate@ <= curve.rate_spec(d1) <= curve.max_fee_rate@,
        curve.base_fee_rate@ <= curve.rate_spec(d2) <= curve.max_fee_rate@,
{
}

/// `|current - target|`.
pub fn deviation(current: Decimal, target: Decimal) -> (r: Decimal)
    ensures
        r@ == deviation_spec(current, target),
{
    current.abs_diff(target)
}

impl FeeCurve {
    /// The value that `tiered` returns.
    pub open spec fn tiered_spec() -> FeeCurve {
        FeeCurve {
            rule: FeeRule::Step { threshold: Decimal { atomics: 10_000_000_000_000_000 } },
            base_fee_rate: Decimal { atomics: 10_000_000_000_000_000 },
            max_fee_rate: Decimal { atomics: 50_000_000_000_000_000 },
        }
    }

    /// The value that `dynamic` returns.
    pub open spec fn dynamic_spec() -> FeeCurve {
        FeeCurve {
            rule: FeeRule::Continuous,
            base_fee_rate: Decimal { atomics: 1_000_000_000_000_000 },
            max_fee_rate: Decimal { atomics: 50_000_000_000_000_000 },
        }
    }
}

} // verus!
