//! The mint/redeem engine: applies the fee curve to requested amounts and
//! keeps the outstanding supply.
//!
//! Fees are never issued: a mint adds only the net amount to the supply and
//! the fee is simply not minted; a redeem removes the full requested amount
//! from the supply and pays out the net amount.
//!
//! The engine charges with the fee curve it holds. `with_defaults` holds the
//! tiered curve (1% while the price is within 1% of the peg, 5% beyond); a
//! continuous curve can be supplied to `new` instead.

use vstd::prelude::*;
use crate::error::ContractError;
use crate::fee::{deviation, deviation_spec, FeeCurve};
use crate::fixed::{lemma_scaled_at_most, mul_floor, mul_floor_spec, Decimal, FRACTIONAL};

verus! {

/// What a mint issued and what it withheld.
#[derive(Clone, Copy, Debug, PartialEq, Eq, Structural)]
pub struct MintReceipt {
    pub fee: u128,
    pub net_minted: u128,
}

/// What a redeem withheld and what it pays out.
#[derive(Clone, Copy, Debug, PartialEq, Eq, Structural)]
pub struct RedeemReceipt {
    pub fee: u128,
    pub net_redeemed: u128,
}

/// One mint or redeem request.
#[derive(Clone, Copy, Debug, PartialEq, Eq, Structural)]
pub enum SupplyOp {
    Mint { amount: u128, market_price: Decimal },
    Redeem { amount: u128, market_price: Decimal, caller_balance: u128 },
}

/// The outstanding supply together with the fee curve, the peg and an
/// optional supply cap.
#[derive(Clone, Copy, Debug, PartialEq, Eq, Structural)]
pub struct MintRedeemEngine {
    pub total_supply: u128,
    pub fee_curve: FeeCurve,
    pub peg: Decimal,
    pub supply_cap: Option<u128>,
}

impl MintRedeemEngine {
    pub open spec fn wf(self) -> bool {
        self.fee_curve.wf()
    }

    /// The fee rate at a market price.
    pub open spec fn rate_at(self, market_price: Decimal) -> nat {
        self.fee_curve.rate_spec(deviation_spec(market_price, self.peg))
    }

    /// `floor(amount * rate)`.
    pub open spec fn fee_spec(self, amount: nat, market_price: Decimal) -> nat {
        mul_floor_spec(amount, self.rate_at(market_price))
    }

    /// The amount less its fee.
    pub open spec fn net_spec(self, amount: nat, market_price: Decimal) -> nat {
        (amount - self.fee_spec(amount, market_price)) as nat
    }

    /// A mint is accepted while the supply plus the net amount stays within
    /// the cap, if any, and within 128 bits.
    pub open spec fn mint_accepts(self, amount: nat, market_price: Decimal) -> bool {
        let next = self.total_supply + self.net_spec(amount, market_price);
        &&& next <= u128::MAX
        &&& (self.supply_cap matches Some(cap) ==> next <= cap)
    }

    /// A redeem is accepted while the caller holds the amount and the supply
    /// covers it.
    pub open spec fn redeem_accepts(self, amount: nat, caller_balance: nat) -> bool {
        caller_balance >= amount && self.total_supply >= amount
    }

    pub open spec fn accepts(self, op: SupplyOp) -> bool {
        match op {
            SupplyOp::Mint { amount, market_price } => self.mint_accepts(amount as nat, market_price),
            SupplyOp::Redeem { amount, caller_balance, .. } => self.redeem_accepts(amount as nat, caller_balance as nat),
        }
    }

    /// What the operation adds to the supply when accepted.
    pub open spec fn minted(self, op: SupplyOp) -> nat {
        match op {
            SupplyOp::Mint { amount, market_price } =>
                if self.accepts(op) { self.net_spec(amount as nat, market_price) } else { 0 },
            SupplyOp::Redeem { .. } => 0,
        }
    }

    /// What the operation removes from the supply when accepted.
    pub open spec fn redeemed(self, op: SupplyOp) -> nat {
        match op {
            SupplyOp::Mint { .. } => 0,
            SupplyOp::Redeem { amount, .. } => if self.accepts(op) { amount as nat } else { 0 },
        }
    }

    /// The engine after the operation; a rejected one changes nothing.
    pub open spec fn after(self, op: SupplyOp) -> MintRedeemEngine {
        MintRedeemEngine {
            total_supply: (self.total_supply + self.minted(op) - self.redeemed(op)) as u128,
            ..self
        }
    }

    /// An engine with no supply; `InvalidConfiguration` unless the fee curve
    /// is well formed.
    pub fn new(fee_curve: FeeCurve, peg: Decimal, supply_cap: Option<u128>) -> (r: Result<MintRedeemEngine, ContractError>)
        ensures
            r is Ok <==> fee_curve.wf(),
            r is Ok ==> r->Ok_0 == (MintRedeemEngine { total_supply: 0, fee_curve, peg, supply_cap }),
            r is Err ==> r->Err_0 == ContractError::InvalidConfiguration,
    {
        if fee_curve.base_fee_rate.atomics <= fee_curve.max_fee_rate.atomics
            && fee_curve.max_fee_rate.atomics <= FRACTIONAL {
            Ok(MintRedeemEngine { total_supply: 0, fee_curve, peg, supply_cap })
        } else {
            Err(ContractError::InvalidConfiguration)
        }
    }

    /// The default engine: the tiered curve, a peg of 1.0, no cap, no supply.
    pub fn with_defaults() -> (r: MintRedeemEngine)
        ensures
            r.wf(),
            r.total_supply == 0,
            r.fee_curve == FeeCurve::tiered_spec(),
            r.peg@ == FRACTIONAL,
            r.supply_cap is None,
    {
        MintRedeemEngine { total_supply: 0, fee_curve: FeeCurve::tiered(), peg: Decimal::one(), supply_cap: None }
    }

    /// The fee on `amount` at `market_price`, rounded down.
    pub fn fee_for(&self, amount: u128, market_price: Decimal) -> (r: u128)
        requires
            self.wf(),
        ensures
            r == self.fee_spec(amount as nat, market_price),
            r <= amount,
    {
        let rate = self.fee_curve.fee_rate(deviation(market_price, self.peg));
        proof {
            lemma_scaled_at_most(amount as nat, rate@);
        }
        mul_floor(amount, rate)
    }

    /// Mints `requested_amount` less its fee: `CapExceeded` where the supply
    /// would pass the cap, `Overflow` where it would not fit; the supply is
    /// unchanged on failure.
    pub fn mint(&mut self, requested_amount: u128, market_price: Decimal) -> (r: Result<MintReceipt, ContractError>)
        requires
            old(self).wf(),
        ensures
            final(self).wf(),
            *final(self) == old(self).after(SupplyOp::Mint { amount: requested_amount, market_price }),
            r is Ok <==> old(self).mint_accepts(requested_amount as nat, market_price),
            r is Ok ==> r->Ok_0 == (MintReceipt {
                fee: old(self).fee_spec(requested_amount as nat, market_price) as u128,
                net_minted: old(self).net_spec(requested_amount as nat, market_price) as u128,
            }),
            r is Err ==> r->Err_0 == (if old(self).supply_cap is Some && old(self).total_supply
                + old(self).net_spec(requested_amount as nat, market_price) > old(self).supply_cap->0 {
                ContractError::CapExceeded
            } else {
                ContractError::Overflow
            }),
    {
        let fee = self.fee_for(requested_amount, market_price);
        let net_minted = requested_amount - fee;
        if net_minted > u128::MAX - self.total_supply {
            if self.supply_cap.is_some() {
                return Err(ContractError::CapExceeded);
            }
            return Err(ContractError::Overflow);
        }
        let next = self.total_supply + net_minted;
        if let Some(cap) = self.supply_cap {
            if next > cap {
                return Err(ContractError::CapExceeded);
            }
        }
        self.total_supply = next;
        Ok(MintReceipt { fee, net_minted })
    }

    /// Redeems `requested_amount`: the full amount leaves the supply and the
    /// amount less its fee is paid out. `InsufficientFunds` where the caller
    /// holds less than the amount (or the supply does); nothing changes then.
    pub fn redeem(&mut self, requested_amount: u128, market_price: Decimal, caller_balance: u128) -> (r: Result<RedeemReceipt, ContractError>)
        requires
            old(self).wf(),
        ensures
            final(self).wf(),
            *final(self) == old(self).after(SupplyOp::Redeem { amount: requested_amount, market_price, caller_balance }),
            r is Ok <==> old(self).redeem_accepts(requested_amount as nat, caller_balance as nat),
            r is Ok ==> r->Ok_0 == (RedeemReceipt {
                fee: old(self).fee_spec(requested_amount as nat, market_price) as u128,
                net_redeemed: old(self).net_spec(requested_amount as nat, market_price) as u128,
            }),
            r is Err ==> r->Err_0 == ContractError::InsufficientFunds,
    {
        if caller_balance < requested_amount || self.total_supply < requested_amount {
            return Err(ContractError::InsufficientFunds);
        }
        let fee = self.fee_for(requested_amount, market_price);
        let net_redeemed = requested_amount - fee;
        self.total_supply = self.total_supply - requested_amount;
        Ok(RedeemReceipt { fee, net_redeemed })
    }
}

/// The engine after a sequence of requests, each applied in turn.
pub open spec fn replay_supply(engine: MintRedeemEngine, ops: Seq<SupplyOp>) -> MintRedeemEngine
    decreases ops.len(),
{
    if ops.len() == 0 {
        engine
    } else {
        replay_supply(engine.after(ops[0]), ops.drop_first())
    }
}

/// The net amounts issued by the accepted mints of a sequence.
pub open spec fn total_net_minted(engine: MintRedeemEngine, ops: Seq<SupplyOp>) -> nat
    decreases ops.len(),
{
    if ops.len() == 0 {
        0
    } else {
        engine.minted(ops[0]) + total_net_minted(engine.after(ops[0]), ops.drop_first())
    }
}

/// The full amounts removed by the accepted redeems of a sequence.
pub open spec fn total_redeemed(engine: MintRedeemEngine, ops: Seq<SupplyOp>) -> nat
    decreases ops.len(),
{
    if ops.len() == 0 {
        0
    } else {
        engine.redeemed(ops[0]) + total_redeemed(engine.after(ops[0]), ops.drop_first())
    }
}

/// Over any sequence of mints and redeems the supply never goes negative and
/// equals the starting supply plus the net amounts minted minus the full
/// amounts redeemed.
pub proof fn lemma_supply_accounting(engine: MintRedeemEngine, ops: Seq<SupplyOp>)
    requires
        engine.wf(),
    ensures
        replay_supply(engine, ops).wf(),
        total_redeemed(engine, ops) <= engine.total_supply + total_net_minted(engine, ops),
        replay_supply(engine, ops).total_supply
            == engine.total_supply + total_net_minted(engine, ops) - total_redeemed(engine, ops),
    decreases ops.len(),
{
    if ops.len() > 0 {
        let next = engine.after(ops[0]);
        lemma_supply_accounting(next, ops.drop_first());
    }
}

} // verus!
