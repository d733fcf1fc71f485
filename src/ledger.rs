//! The collateral ledger: per-source balances and their aggregate.

use vstd::prelude::*;
use crate::error::ContractError;
use crate::text::text_eq;

verus! {

/// The sources that collateral can come from.
#[derive(Clone, Copy, Debug, PartialEq, Eq, Structural, Hash)]
pub enum CollateralSource {
    /// USDC bridged through Axelar.
    AxelarUsdc,
    /// USDC bridged through Noble.
    NobleUsdc,
}

impl CollateralSource {
    /// The registry key of the source.
    pub fn key(&self) -> (r: &'static str)
        ensures
            r@ == self.key_spec(),
    {
        match self {
            CollateralSource::AxelarUsdc => "axelar_usdc",
            CollateralSource::NobleUsdc => "noble_usdc",
        }
    }

    /// The source with the given registry key, if any.
    pub fn from_key(key: &str) -> (r: Option<CollateralSource>)
        ensures
            r is Some <==> key@ == "axelar_usdc"@ || key@ == "noble_usdc"@,
            r is Some ==> r->0.key_spec() == key@,
    {
        if text_eq(key, "axelar_usdc") {
            Some(CollateralSource::AxelarUsdc)
        } else if text_eq(key, "noble_usdc") {
            Some(CollateralSource::NobleUsdc)
        } else {
            None
        }
    }

    pub open spec fn key_spec(&self) -> Seq<char> {
        match self {
            CollateralSource::AxelarUsdc => "axelar_usdc"@,
            CollateralSource::NobleUsdc => "noble_usdc"@,
        }
    }
}

/// A deposit into, or a withdrawal from, one source.
#[derive(Clone, Copy, Debug, PartialEq, Eq, Structural)]
pub enum LedgerOp {
    Deposit { source: CollateralSource, amount: u128 },
    Withdraw { source: CollateralSource, amount: u128 },
}

/// The pooled collateral. `total_locked` is recomputed from the balances on
/// every change and always equals their sum (`wf`).
#[derive(Clone, Copy, Debug, PartialEq, Eq, Structural)]
pub struct CollateralLedger {
    pub usdc_axelar: u128,
    pub usdc_noble: u128,
    pub total_locked: u128,
}

impl CollateralLedger {
    pub open spec fn wf(self) -> bool {
        self.total_locked == self.usdc_axelar + self.usdc_noble
    }

    pub open spec fn balance_spec(self, source: CollateralSource) -> nat {
        match source {
            CollateralSource::AxelarUsdc => self.usdc_axelar as nat,
            CollateralSource::NobleUsdc => self.usdc_noble as nat,
        }
    }

    /// The sum of all balances.
    pub open spec fn sum_of_balances(self) -> nat {
        self.balance_spec(CollateralSource::AxelarUsdc) + self.balance_spec(CollateralSource::NobleUsdc)
    }

    /// The ledger with one balance replaced and the total recomputed.
    pub open spec fn with_balance(self, source: CollateralSource, value: nat) -> CollateralLedger {
        match source {
            CollateralSource::AxelarUsdc => CollateralLedger {
                usdc_axelar: value as u128,
                usdc_noble: self.usdc_noble,
                total_locked: (value + self.usdc_noble) as u128,
            },
            CollateralSource::NobleUsdc => CollateralLedger {
                usdc_axelar: self.usdc_axelar,
                usdc_noble: value as u128,
                total_locked: (self.usdc_axelar + value) as u128,
            },
        }
    }

    /// Whether the operation is accepted: a deposit while the total stays
    /// representable, a withdrawal while the source holds enough.
    pub open spec fn accepts(self, op: LedgerOp) -> bool {
        match op {
            LedgerOp::Deposit { source, amount } => self.total_locked + amount <= u128::MAX,
            LedgerOp::Withdraw { source, amount } => self.balance_spec(source) >= amount,
        }
    }

    /// The ledger after the operation; a rejected operation changes nothing.
    pub open spec fn after(self, op: LedgerOp) -> CollateralLedger {
        if !self.accepts(op) {
            self
        } else {
            match op {
                LedgerOp::Deposit { source, amount } =>
                    self.with_balance(source, (self.balance_spec(source) + amount) as nat),
                LedgerOp::Withdraw { source, amount } =>
                    self.with_balance(source, (self.balance_spec(source) - amount) as nat),
            }
        }
    }

    /// The error that a rejected operation reports.
    pub open spec fn rejection(op: LedgerOp) -> ContractError {
        match op {
            LedgerOp::Deposit { .. } => ContractError::Overflow,
            LedgerOp::Withdraw { .. } => ContractError::InsufficientBalance,
        }
    }

    /// An empty ledger: every balance zero.
    pub fn new() -> (r: CollateralLedger)
        ensures
            r.wf(),
            r.usdc_axelar == 0,
            r.usdc_noble == 0,
            r.total_locked == 0,
    {
        CollateralLedger { usdc_axelar: 0, usdc_noble: 0, total_locked: 0 }
    }

    /// A ledger holding the given balances; `Overflow` where their sum does
    /// not fit.
    pub fn from_balances(usdc_axelar: u128, usdc_noble: u128) -> (r: Result<CollateralLedger, ContractError>)
        ensures
            r is Ok <==> usdc_axelar + usdc_noble <= u128::MAX,
            r is Ok ==> r->Ok_0.wf() && r->Ok_0.usdc_axelar == usdc_axelar && r->Ok_0.usdc_noble == usdc_noble,
            r is Err ==> r->Err_0 == ContractError::Overflow,
    {
        match usdc_axelar.checked_add(usdc_noble) {
            Some(total) => Ok(CollateralLedger { usdc_axelar, usdc_noble, total_locked: total }),
            None => Err(ContractError::Overflow),
        }
    }

    /// The balance of one source.
    pub fn balance(&self, source: CollateralSource) -> (r: u128)
        ensures
            r == self.balance_spec(source),
    {
        match source {
            CollateralSource::AxelarUsdc => self.usdc_axelar,
            CollateralSource::NobleUsdc => self.usdc_noble,
        }
    }

    /// The total locked collateral, which is the sum of the balances.
    pub fn total(&self) -> (r: u128)
        requires
            self.wf(),
        ensures
            r == self.sum_of_balances(),
    {
        self.total_locked
    }

    /// Replaces both balances and recomputes the total; on `Overflow` the
    /// ledger is left as it was.
    pub fn set_balances(&mut self, usdc_axelar: u128, usdc_noble: u128) -> (r: Result<(), ContractError>)
        requires
            old(self).wf(),
        ensures
            final(self).wf(),
            r is Ok <==> usdc_axelar + usdc_noble <= u128::MAX,
            r is Ok ==> final(self).usdc_axelar == usdc_axelar && final(self).usdc_noble == usdc_noble,
            r is Err ==> r->Err_0 == ContractError::Overflow && *final(self) == *old(self),
    {
        match usdc_axelar.checked_add(usdc_noble) {
            Some(total) => {
                *self = CollateralLedger { usdc_axelar, usdc_noble, total_locked: total };
                Ok(())
            },
            None => Err(ContractError::Overflow),
        }
    }

    /// Adds `amount` to one source; `Overflow` where the total would not fit.
    pub fn deposit(&mut self, source: CollateralSource, amount: u128) -> (r: Result<(), ContractError>)
        requires
            old(self).wf(),
        ensures
            final(self).wf(),
            *final(self) == old(self).after(LedgerOp::Deposit { source, amount }),
            r is Ok <==> old(self).accepts(LedgerOp::Deposit { source, amount }),
            r is Err ==> r->Err_0 == ContractError::Overflow,
    {
        if amount > u128::MAX - self.total_locked {
            return Err(ContractError::Overflow);
        }
        match source {
            CollateralSource::AxelarUsdc => self.usdc_axelar = self.usdc_axelar + amount,
            CollateralSource::NobleUsdc => self.usdc_noble = self.usdc_noble + amount,
        }
        self.total_locked = self.usdc_axelar + self.usdc_noble;
        Ok(())
    }

    /// Takes `amount` from one source, all or nothing;
    /// `InsufficientBalance` where the source holds less.
    pub fn withdraw(&mut self, source: CollateralSource, amount: u128) -> (r: Result<(), ContractError>)
        requires
            old(self).wf(),
        ensures
            final(self).wf(),
            *final(self) == old(self).after(LedgerOp::Withdraw { source, amount }),
            r is Ok <==> old(self).accepts(LedgerOp::Withdraw { source, amount }),
            r is Err ==> r->Err_0 == ContractError::InsufficientBalance,
    {
        match source {
            CollateralSource::AxelarUsdc => {
                if self.usdc_axelar < amount {
                    return Err(ContractError::InsufficientBalance);
                }
                self.usdc_axelar = self.usdc_axelar - amount;
            },
            CollateralSource::NobleUsdc => {
                if self.usdc_noble < amount {
                    return Err(ContractError::InsufficientBalance);
                }
                self.usdc_noble = self.usdc_noble - amount;
            },
        }
        self.total_locked = self.usdc_axelar + self.usdc_noble;
        Ok(())
    }

    /// Applies one operation.
    pub fn apply(&mut self, op: LedgerOp) -> (r: Result<(), ContractError>)
        requires
            old(self).wf(),
        ensures
            final(self).wf(),
            *final(self) == old(self).after(op),
            r is Ok <==> old(self).accepts(op),
            r is Err ==> r->Err_0 == CollateralLedger::rejection(op),
    {
        match op {
            LedgerOp::Deposit { source, amount } => self.deposit(source, amount),
            LedgerOp::Withdraw { source, amount } => self.withdraw(source, amount),
        }
    }

    /// The collateral update of an administrator: both balances replaced,
    /// `Unauthorized` unless the caller was authorized.
    pub fn execute_update_collateral(&mut self, authorized: bool, usdc_axelar: u128, usdc_noble: u128) -> (r: Result<(), ContractError>)
        requires
            old(self).wf(),
        ensures
            final(self).wf(),
            r is Ok <==> authorized && usdc_axelar + usdc_noble <= u128::MAX,
            r is Ok ==> final(self).usdc_axelar == usdc_axelar && final(self).usdc_noble == usdc_noble,
            !authorized ==> r == Err::<(), ContractError>(ContractError::Unauthorized),
            authorized && r is Err ==> r->Err_0 == ContractError::Overflow,
            r is Err ==> *final(self) == *old(self),
    {
        if !authorized {
            return Err(ContractError::Unauthorized);
        }
        self.set_balances(usdc_axelar, usdc_noble)
    }
}

/// The ledger after a sequence of operations, each applied in turn.
pub open spec fn replay(ledger: CollateralLedger, ops: Seq<LedgerOp>) -> CollateralLedger
    decreases ops.len(),
{
    if ops.len() == 0 {
        ledger
    } else {
        replay(ledger.after(ops[0]), ops.drop_first())
    }
}

/// After any sequence of deposits and withdrawals, accepted or rejected,
/// the total equals the sum of the balances.
pub proof fn lemma_total_is_sum_after_ops(ledger: CollateralLedger, ops: Seq<LedgerOp>)
    requires
        ledger.wf(),
    ensures
        replay(ledger, ops).wf(),
        replay(ledger, ops).total_locked == replay(ledger, ops).sum_of_balances(),
    decreases ops.len(),
{
    if ops.len() > 0 {
        lemma_total_is_sum_after_ops(ledger.after(ops[0]), ops.drop_first());
    }
}

} // verus!
