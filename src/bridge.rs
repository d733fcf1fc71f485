//! Cross-chain collateral movements: which token is which source, the fee
//! that a bridge transfer must carry, and deposits announced by a gateway.

use vstd::prelude::*;
use crate::error::ContractError;
use crate::ledger::{CollateralLedger, CollateralSource, LedgerOp};
use crate::text::text_eq;

verus! {

/// The fee of an Axelar transfer, in uluna.
pub const AXELAR_FEE: u128 = 1_000_000;

/// The fee of a Noble transfer, in unble.
pub const NOBLE_FEE: u128 = 500_000;

/// A cross-chain bridge.
#[derive(Clone, Copy, Debug, PartialEq, Eq, Structural)]
pub enum Bridge {
    Axelar,
    Noble,
}

/// An amount of one denomination sent along with a message.
#[derive(Clone, Debug, PartialEq, Eq)]
pub struct Coin {
    pub denom: String,
    pub amount: u128,
}

/// The fields of a gateway message, each absent where the payload lacks it.
#[derive(Clone, Debug, PartialEq, Eq)]
pub struct BridgePayload {
    pub action: Option<String>,
    pub recipient: Option<String>,
    pub amount: Option<String>,
}

/// A deposit credited from a gateway message.
#[derive(Clone, Debug, PartialEq, Eq)]
pub struct BridgeDeposit {
    pub recipient: String,
    pub amount: u128,
}

impl Bridge {
    pub open spec fn fee_denom_spec(&self) -> Seq<char> {
        match self {
            Bridge::Axelar => "uluna"@,
            Bridge::Noble => "unble"@,
        }
    }

    pub open spec fn fee_spec(&self) -> u128 {
        match self {
            Bridge::Axelar => AXELAR_FEE,
            Bridge::Noble => NOBLE_FEE,
        }
    }

    pub open spec fn source_spec(&self) -> CollateralSource {
        match self {
            Bridge::Axelar => CollateralSource::AxelarUsdc,
            Bridge::Noble => CollateralSource::NobleUsdc,
        }
    }

    /// The denomination that pays the bridge's fee.
    pub fn fee_denom(&self) -> (r: &'static str)
        ensures
            r@ == self.fee_denom_spec(),
    {
        match self {
            Bridge::Axelar => "uluna",
            Bridge::Noble => "unble",
        }
    }

    /// The fee of one transfer.
    pub fn fee(&self) -> (r: u128)
        ensures
            r == self.fee_spec(),
    {
        match self {
            Bridge::Axelar => AXELAR_FEE,
            Bridge::Noble => NOBLE_FEE,
        }
    }

    /// The collateral source that the bridge carries.
    pub fn source(&self) -> (r: CollateralSource)
        ensures
            r == self.source_spec(),
    {
        match self {
            Bridge::Axelar => CollateralSource::AxelarUsdc,
            Bridge::Noble => CollateralSource::NobleUsdc,
        }
    }
}

/// Whether the funds pay the bridge's fee: the first coin of its fee
/// denomination carries at least the fee.
pub open spec fn pays_fee(funds: Seq<Coin>, bridge: Bridge) -> bool {
    match first_amount_of(funds, bridge.fee_denom_spec()) {
        Some(a) => a >= bridge.fee_spec(),
        None => false,
    }
}

/// The amount of the first coin of denomination `denom`, if any.
pub open spec fn first_amount_of(funds: Seq<Coin>, denom: Seq<char>) -> Option<u128>
    decreases funds.len(),
{
    if funds.len() == 0 {
        None
    } else if funds[0].denom@ == denom {
        Some(funds[0].amount)
    } else {
        first_amount_of(funds.drop_first(), denom)
    }
}

/// The amount of the first coin of denomination `denom` among `funds`.
pub fn find_amount(funds: &Vec<Coin>, denom: &str) -> (r: Option<u128>)
    ensures
        r == first_amount_of(funds@, denom@),
{
    let mut i: usize = 0;
    assert(funds@.subrange(0, funds@.len() as int) =~= funds@);
    while i < funds.len()
        invariant
            i <= funds@.len(),
            first_amount_of(funds@, denom@) == first_amount_of(funds@.subrange(i as int, funds@.len() as int), denom@),
        decreases funds@.len() - i,
    {
        let rest = Ghost(funds@.subrange(i as int, funds@.len() as int));
        assert(rest@.drop_first() =~= funds@.subrange(i + 1, funds@.len() as int));
        if text_eq(funds[i].denom.as_str(), denom) {
            return Some(funds[i].amount);
        }
        i = i + 1;
    }
    assert(funds@.subrange(i as int, funds@.len() as int).len() == 0);
    None
}

/// The fee paid towards a bridge transfer: `InvalidFunds` unless the funds
/// hold the bridge's fee denomination with at least the fee (the first coin
/// of that denomination counts).
pub fn check_bridge_fee(bridge: Bridge, funds: &Vec<Coin>) -> (r: Result<u128, ContractError>)
    ensures
        r is Ok <==> pays_fee(funds@, bridge),
        r is Ok ==> Some(r->Ok_0) == first_amount_of(funds@, bridge.fee_denom_spec()),
        r is Err ==> r->Err_0 == ContractError::InvalidFunds,
{
    match find_amount(funds, bridge.fee_denom()) {
        Some(sent) => {
            if sent < bridge.fee() {
                Err(ContractError::InvalidFunds)
            } else {
                Ok(sent)
            }
        },
        None => Err(ContractError::InvalidFunds),
    }
}

/// The source of a token, given the token addresses that the registry holds
/// for each source.
pub open spec fn source_of(token_addr: Seq<char>, axelar_token: Seq<char>, noble_token: Seq<char>) -> Option<CollateralSource> {
    if token_addr == axelar_token {
        Some(CollateralSource::AxelarUsdc)
    } else if token_addr == noble_token {
        Some(CollateralSource::NobleUsdc)
    } else {
        None
    }
}

/// The source that a token address belongs to; `InvalidToken` for any
/// other token.
pub fn get_token_type(token_addr: &str, axelar_token: &str, noble_token: &str) -> (r: Result<CollateralSource, ContractError>)
    ensures
        r is Ok <==> source_of(token_addr@, axelar_token@, noble_token@) is Some,
        r is Ok ==> r->Ok_0 == source_of(token_addr@, axelar_token@, noble_token@)->0,
        r is Err ==> r->Err_0 == ContractError::InvalidToken,
{
    if text_eq(token_addr, axelar_token) {
        Ok(CollateralSource::AxelarUsdc)
    } else if text_eq(token_addr, noble_token) {
        Ok(CollateralSource::NobleUsdc)
    } else {
        Err(ContractError::InvalidToken)
    }
}

/// Whether the token is one of the collateral sources.
pub fn is_supported_token(token_addr: &str, axelar_token: &str, noble_token: &str) -> (r: bool)
    ensures
        r == source_of(token_addr@, axelar_token@, noble_token@) is Some,
{
    text_eq(token_addr, axelar_token) || text_eq(token_addr, noble_token)
}

/// Credits tokens received into the ledger under their source:
/// `InvalidToken` or `Overflow`, with the ledger unchanged, otherwise the
/// source credited.
pub fn receive_tokens(ledger: &mut CollateralLedger, token_addr: &str, axelar_token: &str, noble_token: &str, amount: u128) -> (r: Result<CollateralSource, ContractError>)
    requires
        old(ledger).wf(),
    ensures
        final(ledger).wf(),
        source_of(token_addr@, axelar_token@, noble_token@) is None ==> r == Err::<CollateralSource, ContractError>(ContractError::InvalidToken) && *final(ledger) == *old(ledger),
        source_of(token_addr@, axelar_token@, noble_token@) matches Some(s) ==> {
            &&& *final(ledger) == old(ledger).after(LedgerOp::Deposit { source: s, amount })
            &&& (r is Ok <==> old(ledger).accepts(LedgerOp::Deposit { source: s, amount }))
            &&& (r is Ok ==> r->Ok_0 == s)
            &&& (r is Err ==> r->Err_0 == ContractError::Overflow)
        },
{
    let source = match get_token_type(token_addr, axelar_token, noble_token) {
        Ok(s) => s,
        Err(e) => return Err(e),
    };
    match ledger.deposit(source, amount) {
        Ok(()) => Ok(source),
        Err(e) => Err(e),
    }
}

/// Debits tokens sent out from the ledger under their source:
/// `InvalidToken` or `InsufficientBalance`, with the ledger unchanged,
/// otherwise the source debited.
pub fn send_tokens(ledger: &mut CollateralLedger, token_addr: &str, axelar_token: &str, noble_token: &str, amount: u128) -> (r: Result<CollateralSource, ContractError>)
    requires
        old(ledger).wf(),
    ensures
        final(ledger).wf(),
        source_of(token_addr@, axelar_token@, noble_token@) is None ==> r == Err::<CollateralSource, ContractError>(ContractError::InvalidToken) && *final(ledger) == *old(ledger),
        source_of(token_addr@, axelar_token@, noble_token@) matches Some(s) ==> {
            &&& *final(ledger) == old(ledger).after(LedgerOp::Withdraw { source: s, amount })
            &&& (r is Ok <==> old(ledger).accepts(LedgerOp::Withdraw { source: s, amount }))
            &&& (r is Ok ==> r->Ok_0 == s)
            &&& (r is Err ==> r->Err_0 == ContractError::InsufficientBalance)
        },
{
    let source = match get_token_type(token_addr, axelar_token, noble_token) {
        Ok(s) => s,
        Err(e) => return Err(e),
    };
    match ledger.withdraw(source, amount) {
        Ok(()) => Ok(source),
        Err(e) => Err(e),
    }
}

/// An outgoing bridge transfer: the fee is checked (`InvalidFunds`), then the
/// amount is pulled into the pool under the bridge's source (`Overflow`);
/// returns the fee paid. The ledger is unchanged on failure.
pub fn send_via_bridge(ledger: &mut CollateralLedger, bridge: Bridge, funds: &Vec<Coin>, amount: u128) -> (r: Result<u128, ContractError>)
    requires
        old(ledger).wf(),
    ensures
        final(ledger).wf(),
        r is Ok <==> pays_fee(funds@, bridge)
            && old(ledger).accepts(LedgerOp::Deposit { source: bridge.source_spec(), amount }),
        r is Ok ==> Some(r->Ok_0) == first_amount_of(funds@, bridge.fee_denom_spec())
            && *final(ledger) == old(ledger).after(LedgerOp::Deposit { source: bridge.source_spec(), amount }),
        r is Err ==> *final(ledger) == *old(ledger),
        !pays_fee(funds@, bridge) ==> r == Err::<u128, ContractError>(ContractError::InvalidFunds),
{
    let paid = match check_bridge_fee(bridge, funds) {
        Ok(p) => p,
        Err(e) => return Err(e),
    };
    match ledger.deposit(bridge.source(), amount) {
        Ok(()) => Ok(paid),
        Err(e) => Err(e),
    }
}

/// The digits of `s` as a number.
pub open spec fn digits_value(s: Seq<char>) -> nat
    decreases s.len(),
{
    if s.len() == 0 {
        0
    } else {
        digits_value(s.drop_last()) * 10 + ((s.last() as u32) - ('0' as u32)) as nat
    }
}

/// Whether `s` is one or more ASCII digits.
pub open spec fn all_digits(s: Seq<char>) -> bool {
    s.len() > 0 && forall|i: int| 0 <= i < s.len() ==> '0' <= #[trigger] s[i] <= '9'
}

/// The amount that a decimal text denotes: an optional `+` and then only
/// digits, with a value that fits in 128 bits.
pub open spec fn amount_of_text(s: Seq<char>) -> Option<u128> {
    let digits = if s.len() > 0 && s[0] == '+' { s.drop_first() } else { s };
    if all_digits(digits) && digits_value(digits) <= u128::MAX {
        Some(digits_value(digits) as u128)
    } else {
        None
    }
}

/// Relies on cosmwasm_std's `Uint128::from_str`, which is `str::parse::<u128>`:
/// an optional `+` followed by only ASCII digits, rejected where the value
/// does not fit.
#[verifier::external_body]
pub(crate) fn parse_amount(text: &str) -> (r: Option<u128>)
    ensures
        r == amount_of_text(text@),
{
    <cosmwasm_std::Uint128 as std::str::FromStr>::from_str(text).ok().map(|v| v.u128())
}

/// What a gateway payload asks to deposit: `InvalidPayload` for an unreadable
/// payload, an action other than `deposit` or a missing recipient or amount,
/// `InvalidAmount` for an amount that is not a decimal number.
pub open spec fn requested_deposit(payload: Option<BridgePayload>) -> Result<u128, ContractError> {
    match payload {
        None => Err(ContractError::InvalidPayload),
        Some(p) => {
            if !(p.action matches Some(a) && a@ == "deposit"@) || p.recipient is None {
                Err(ContractError::InvalidPayload)
            } else {
                match p.amount {
                    None => Err(ContractError::InvalidPayload),
                    Some(t) => match amount_of_text(t@) {
                        None => Err(ContractError::InvalidAmount),
                        Some(v) => Ok(v),
                    },
                }
            }
        },
    }
}

/// A deposit announced by the Axelar gateway: `Unauthorized` unless the
/// message came from the gateway, then the errors of `requested_deposit`,
/// else the amount credited to Axelar USDC (`Overflow` where the total would
/// not fit). The ledger is unchanged on failure.
pub fn handle_axelar_message(ledger: &mut CollateralLedger, from_gateway: bool, payload: &Option<BridgePayload>) -> (r: Result<BridgeDeposit, ContractError>)
    requires
        old(ledger).wf(),
    ensures
        final(ledger).wf(),
        !from_gateway ==> r == Err::<BridgeDeposit, ContractError>(ContractError::Unauthorized),
        from_gateway && requested_deposit(*payload) is Err ==> r == Err::<BridgeDeposit, ContractError>(requested_deposit(*payload)->Err_0),
        from_gateway ==> (requested_deposit(*payload) matches Ok(v) ==> {
            &&& *final(ledger) == old(ledger).after(LedgerOp::Deposit { source: CollateralSource::AxelarUsdc, amount: v })
            &&& (r is Ok <==> old(ledger).accepts(LedgerOp::Deposit { source: CollateralSource::AxelarUsdc, amount: v }))
            &&& (r is Ok ==> r->Ok_0 == (BridgeDeposit { recipient: payload->0.recipient->0, amount: v }))
            &&& (r is Err ==> r->Err_0 == ContractError::Overflow)
        }),
        r is Err ==> *final(ledger) == *old(ledger),
{
    if !from_gateway {
        return Err(ContractError::Unauthorized);
    }
    let p = match payload {
        Some(p) => p,
        None => return Err(ContractError::InvalidPayload),
    };
    let is_deposit = match &p.action {
        Some(a) => text_eq(a.as_str(), "deposit"),
        None => false,
    };
    if !is_deposit {
        return Err(ContractError::InvalidPayload);
    }
    let recipient = match &p.recipient {
        Some(r) => r.clone(),
        None => return Err(ContractError::InvalidPayload),
    };
    let amount = match &p.amount {
        Some(t) => match parse_amount(t.as_str()) {
            Some(v) => v,
            None => return Err(ContractError::InvalidAmount),
        },
        None => return Err(ContractError::InvalidPayload),
    };
    match ledger.deposit(CollateralSource::AxelarUsdc, amount) {
        Ok(()) => Ok(BridgeDeposit { recipient, amount }),
        Err(e) => Err(e),
    }
}

/// A message from the Noble gateway: `Unauthorized` unless it came from the
/// gateway, `InvalidPayload` for an unreadable payload.
pub fn handle_noble_message(from_gateway: bool, payload_readable: bool) -> (r: Result<(), ContractError>)
    ensures
        r is Ok <==> from_gateway && payload_readable,
        !from_gateway ==> r == Err::<(), ContractError>(ContractError::Unauthorized),
        from_gateway && !payload_readable ==> r == Err::<(), ContractError>(ContractError::InvalidPayload),
{
    if !from_gateway {
        return Err(ContractError::Unauthorized);
    }
    if !payload_readable {
        return Err(ContractError::InvalidPayload);
    }
    Ok(())
}

} // verus!
