use equilibria_smart_contracts::bridge::{
    check_bridge_fee, get_token_type, handle_axelar_message, handle_noble_message, is_supported_token,
    receive_tokens, send_tokens, send_via_bridge, Bridge, BridgeDeposit, BridgePayload, Coin,
};
use equilibria_smart_contracts::error::ContractError;
use equilibria_smart_contracts::ledger::{CollateralLedger, CollateralSource};
use equilibria_smart_contracts::messages::RegisteredAsset;

const AXELAR_TOKEN: &str = "terra1axelar_usdc_address";
const NOBLE_TOKEN: &str = "terra1noble_usdc_address";

fn coins(amount: u128, denom: &str) -> Vec<Coin> {
    vec![Coin { denom: denom.to_string(), amount }]
}

fn deposit_payload(amount: &str) -> Option<BridgePayload> {
    Some(BridgePayload {
        action: Some("deposit".to_string()),
        recipient: Some("user1".to_string()),
        amount: Some(amount.to_string()),
    })
}

#[test]
fn test_cw20_token_handling_with_registry() {
    let mut ledger = CollateralLedger::new();
    assert!(is_supported_token(AXELAR_TOKEN, AXELAR_TOKEN, NOBLE_TOKEN));
    assert!(!is_supported_token("terra1other", AXELAR_TOKEN, NOBLE_TOKEN));
    assert_eq!(get_token_type(NOBLE_TOKEN, AXELAR_TOKEN, NOBLE_TOKEN), Ok(CollateralSource::NobleUsdc));
    assert_eq!(receive_tokens(&mut ledger, AXELAR_TOKEN, AXELAR_TOKEN, NOBLE_TOKEN, 100), Ok(CollateralSource::AxelarUsdc));
    assert_eq!(ledger.balance(CollateralSource::AxelarUsdc), 100);
    assert_eq!(
        receive_tokens(&mut ledger, "terra1other", AXELAR_TOKEN, NOBLE_TOKEN, 100),
        Err(ContractError::InvalidToken)
    );
    assert_eq!(ledger.total(), 100);
    assert_eq!(
        send_tokens(&mut ledger, AXELAR_TOKEN, AXELAR_TOKEN, NOBLE_TOKEN, 101),
        Err(ContractError::InsufficientBalance)
    );
    assert_eq!(send_tokens(&mut ledger, AXELAR_TOKEN, AXELAR_TOKEN, NOBLE_TOKEN, 40), Ok(CollateralSource::AxelarUsdc));
    assert_eq!(ledger.total(), 60);
}

#[test]
fn test_cross_chain_with_registry() {
    let mut ledger = CollateralLedger::new();
    assert_eq!(send_via_bridge(&mut ledger, Bridge::Noble, &coins(500_000, "unble"), 2_000), Ok(500_000));
    assert_eq!(ledger.balance(CollateralSource::NobleUsdc), 2_000);
    assert_eq!(
        send_via_bridge(&mut ledger, Bridge::Noble, &coins(500_000, "uluna"), 2_000),
        Err(ContractError::InvalidFunds)
    );
    assert_eq!(ledger.total(), 2_000);
}

#[test]
fn test_cw20_token_handling() {
    let mut ledger = CollateralLedger::new();
    receive_tokens(&mut ledger, "usdc_axelar_token", "usdc_axelar_token", "usdc_noble_token", 1_000_000).unwrap();
    assert_eq!(ledger.usdc_axelar, 1_000_000);
    assert_eq!(ledger.total_locked, 1_000_000);
    let res = send_via_bridge(&mut ledger, Bridge::Axelar, &coins(1_000_000, "uluna"), 500_000);
    assert_eq!(res, Ok(1_000_000));
}

#[test]
fn test_handle_cross_chain_messages() {
    let mut ledger = CollateralLedger::new();
    let res = handle_axelar_message(&mut ledger, true, &deposit_payload("1000000"));
    assert_eq!(res, Ok(BridgeDeposit { recipient: "user1".to_string(), amount: 1_000_000 }));
    assert_eq!(ledger.usdc_axelar, 1_000_000);
    assert_eq!(ledger.total_locked, 1_000_000);
}

#[test]
fn test_cross_chain_fee_validation() {
    assert_eq!(check_bridge_fee(Bridge::Axelar, &coins(500_000, "uluna")), Err(ContractError::InvalidFunds));
    assert_eq!(check_bridge_fee(Bridge::Axelar, &coins(1_500_000, "uluna")), Ok(1_500_000));
}

#[test]
fn bridge_fee_looks_at_the_first_matching_coin() {
    let funds = vec![
        Coin { denom: "uusd".to_string(), amount: 9_000_000 },
        Coin { denom: "unble".to_string(), amount: 499_999 },
        Coin { denom: "unble".to_string(), amount: 900_000 },
    ];
    assert_eq!(check_bridge_fee(Bridge::Noble, &funds), Err(ContractError::InvalidFunds));
    assert_eq!(check_bridge_fee(Bridge::Noble, &vec![]), Err(ContractError::InvalidFunds));
    assert_eq!(Bridge::Noble.fee(), 500_000);
    assert_eq!(Bridge::Axelar.fee_denom(), "uluna");
    assert_eq!(Bridge::Noble.source(), CollateralSource::NobleUsdc);
}

#[test]
fn gateway_messages_are_checked() {
    let mut ledger = CollateralLedger::new();
    assert_eq!(handle_axelar_message(&mut ledger, false, &deposit_payload("5")), Err(ContractError::Unauthorized));
    assert_eq!(handle_axelar_message(&mut ledger, true, &None), Err(ContractError::InvalidPayload));
    let withdraw = Some(BridgePayload {
        action: Some("withdraw".to_string()),
        recipient: Some("user1".to_string()),
        amount: Some("5".to_string()),
    });
    assert_eq!(handle_axelar_message(&mut ledger, true, &withdraw), Err(ContractError::InvalidPayload));
    let no_recipient = Some(BridgePayload { action: Some("deposit".to_string()), recipient: None, amount: Some("5".to_string()) });
    assert_eq!(handle_axelar_message(&mut ledger, true, &no_recipient), Err(ContractError::InvalidPayload));
    for bad in ["", "+", "12a", "-5", " 5", "340282366920938463463374607431768211456"] {
        assert_eq!(handle_axelar_message(&mut ledger, true, &deposit_payload(bad)), Err(ContractError::InvalidAmount));
    }
    assert_eq!(ledger.total(), 0);
    assert_eq!(
        handle_axelar_message(&mut ledger, true, &deposit_payload("+42")),
        Ok(BridgeDeposit { recipient: "user1".to_string(), amount: 42 })
    );
    assert_eq!(
        handle_axelar_message(&mut ledger, true, &deposit_payload("340282366920938463463374607431768211455")),
        Err(ContractError::Overflow)
    );
    assert_eq!(ledger.total(), 42);
    assert_eq!(handle_noble_message(false, true), Err(ContractError::Unauthorized));
    assert_eq!(handle_noble_message(true, false), Err(ContractError::InvalidPayload));
    assert_eq!(handle_noble_message(true, true), Ok(()));
}

#[test]
fn oracle_default_assets() {
    let assets = RegisteredAsset::defaults();
    assert_eq!(assets.len(), 2);
    assert_eq!(assets[0].denom, "uluna");
    assert_eq!(assets[0].symbol, "LUNA");
    assert_eq!(assets[1].denom, "uusd");
    assert_eq!(assets[1].symbol, "UST");
}
