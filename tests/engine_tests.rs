use equilibria_smart_contracts::engine::{MintReceipt, MintRedeemEngine, RedeemReceipt};
use equilibria_smart_contracts::error::ContractError;
use equilibria_smart_contracts::fee::FeeCurve;
use equilibria_smart_contracts::fixed::Decimal;

#[test]
fn test_minting_and_redemption() {
    let mut engine = MintRedeemEngine::with_defaults();
    // the caller's balance is kept by the caller-balance collaborator
    let mut balance = 0u128;
    let minted = engine.mint(100_000_000, Decimal::one()).unwrap();
    balance += minted.net_minted;
    assert_eq!(balance, 99_000_000);
    let redeemed = engine.redeem(50_000_000, Decimal::one(), balance).unwrap();
    balance -= 50_000_000;
    assert_eq!(redeemed.net_redeemed, 49_500_000);
    assert_eq!(balance, 49_000_000);
    assert_eq!(engine.total_supply, 49_000_000);
}

#[test]
fn test_mint_eqa() {
    let mut engine = MintRedeemEngine::with_defaults();
    let received = engine.mint(100_000_000, Decimal::one()).unwrap().net_minted;
    assert_eq!(received, 99_000_000);
}

#[test]
fn scenario_mint_at_peg() {
    let mut engine = MintRedeemEngine::with_defaults();
    let receipt = engine.mint(100_000_000, Decimal::one());
    assert_eq!(receipt, Ok(MintReceipt { fee: 1_000_000, net_minted: 99_000_000 }));
    assert_eq!(engine.total_supply, 99_000_000);
}

#[test]
fn scenario_redeem_beyond_balance_changes_nothing() {
    let mut engine = MintRedeemEngine::with_defaults();
    engine.mint(100_000_000, Decimal::one()).unwrap();
    let before = engine;
    assert_eq!(engine.redeem(50_000_000, Decimal::one(), 40_000_000), Err(ContractError::InsufficientFunds));
    assert_eq!(engine, before);
}

#[test]
fn redeem_removes_the_full_amount() {
    let mut engine = MintRedeemEngine::with_defaults();
    engine.mint(1_000_000_000, Decimal::one()).unwrap();
    assert_eq!(engine.total_supply, 990_000_000);
    // 3% off the peg: the 5% tier
    let receipt = engine.redeem(100_000_000, Decimal::percent(97), 990_000_000).unwrap();
    assert_eq!(receipt, RedeemReceipt { fee: 5_000_000, net_redeemed: 95_000_000 });
    assert_eq!(engine.total_supply, 890_000_000);
}

#[test]
fn redeem_more_than_the_supply_is_refused() {
    let mut engine = MintRedeemEngine::with_defaults();
    engine.mint(100, Decimal::one()).unwrap();
    assert_eq!(engine.redeem(200, Decimal::one(), 1_000), Err(ContractError::InsufficientFunds));
    assert_eq!(engine.total_supply, 99);
}

#[test]
fn mint_respects_the_cap() {
    let mut engine = MintRedeemEngine::new(FeeCurve::tiered(), Decimal::one(), Some(1_000)).unwrap();
    // 1,010 less 1% (10) is 1,000: exactly the cap
    assert_eq!(engine.mint(1_010, Decimal::one()), Ok(MintReceipt { fee: 10, net_minted: 1_000 }));
    assert_eq!(engine.mint(1, Decimal::one()), Err(ContractError::CapExceeded));
    assert_eq!(engine.total_supply, 1_000);
}

#[test]
fn mint_overflow_is_reported() {
    let mut engine = MintRedeemEngine::with_defaults();
    engine.mint(u128::MAX, Decimal::one()).unwrap();
    let before = engine;
    assert_eq!(engine.mint(u128::MAX, Decimal::one()), Err(ContractError::Overflow));
    assert_eq!(engine, before);
}

#[test]
fn engine_rejects_a_fee_cap_above_one() {
    let curve = FeeCurve {
        rule: equilibria_smart_contracts::fee::FeeRule::Continuous,
        base_fee_rate: Decimal::percent(1),
        max_fee_rate: Decimal::percent(150),
    };
    assert_eq!(MintRedeemEngine::new(curve, Decimal::one(), None), Err(ContractError::InvalidConfiguration));
}

#[test]
fn supply_equals_net_minted_less_redeemed() {
    let mut engine = MintRedeemEngine::with_defaults();
    let mut minted = 0u128;
    let mut redeemed = 0u128;
    let prices = [Decimal::one(), Decimal::percent(98), Decimal::permille(1_005), Decimal::percent(103)];
    for (i, price) in prices.iter().enumerate() {
        let amount = 10_000_000u128 * (i as u128 + 1);
        minted += engine.mint(amount, *price).unwrap().net_minted;
        if i % 2 == 1 {
            engine.redeem(amount / 2, *price, engine.total_supply).unwrap();
            redeemed += amount / 2;
        }
        // a refused redeem changes nothing
        assert!(engine.redeem(engine.total_supply + 1, *price, u128::MAX).is_err());
        assert_eq!(engine.total_supply, minted - redeemed);
    }
}
