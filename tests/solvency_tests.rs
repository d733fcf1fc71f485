use equilibria_smart_contracts::error::ContractError;
use equilibria_smart_contracts::ledger::CollateralLedger;
use equilibria_smart_contracts::liquidation::{LiquidationCheck, LiquidationConfig};
use equilibria_smart_contracts::solvency::{
    calculate_collateral_ratio, check_and_signal, current_ratio, is_properly_collateralized, is_solvent,
    required_collateral,
};

#[test]
fn test_basic_liquidation_math() {
    let collateral = 100_000u128;
    let debt = 90_000u128;
    let threshold_ratio = 110u64;
    let required = required_collateral(debt, threshold_ratio).unwrap();
    assert_eq!(required, 99_000);
    assert!(collateral >= required);
    assert!(is_solvent(collateral, debt, threshold_ratio));
    let ratio = current_ratio(collateral, debt).unwrap();
    assert_eq!(ratio, 111);
    assert!(ratio >= threshold_ratio as u128);
    let high_debt = 95_000u128;
    let required_high = required_collateral(high_debt, threshold_ratio).unwrap();
    assert_eq!(required_high, 104_500);
    assert!(collateral < required_high);
    assert!(!is_solvent(collateral, high_debt, threshold_ratio));
}

#[test]
fn test_simplified_liquidation_math() {
    let collateral = 100_000u128;
    let debt = 90_000u128;
    let required = required_collateral(debt, 110).unwrap();
    assert_eq!(required, 99_000);
    assert!(is_solvent(collateral, debt, 110));
    assert_eq!(current_ratio(collateral, debt).unwrap(), 111);
    let required_high = required_collateral(95_000, 110).unwrap();
    assert_eq!(required_high, 104_500);
    assert!(!is_solvent(collateral, 95_000, 110));
}

#[test]
fn test_collateralization_checks() {
    let collateral = 100_000u128;
    assert_eq!(required_collateral(90_000, 110).unwrap(), 99_000);
    assert!(collateral >= required_collateral(90_000, 110).unwrap());
    assert_eq!(required_collateral(95_000, 110).unwrap(), 104_500);
    assert!(collateral < required_collateral(95_000, 110).unwrap());
}

#[test]
fn test_collateralization_requirement() {
    let debt = 100_000u128;
    let collateral = 150_000u128;
    assert!(is_solvent(collateral, debt, 150));
}

#[test]
fn test_collateralization_alternative() {
    let required = required_collateral(100_000, 150).unwrap();
    assert!(150_000 >= required);
    assert_eq!(required, 150_000);
}

#[test]
fn correct_test_test_collateralization_check() {
    let required = required_collateral(100, 110).unwrap();
    assert_eq!(required, 110);
    assert!(is_solvent(110, 100, 110));
    assert!(!is_solvent(109, 100, 110));
}

#[test]
fn no_division_tests_test_collateralization_check() {
    assert!(is_solvent(110, 100, 110));
    assert!(!is_solvent(109, 100, 110));
}

#[test]
fn test_alternative_approach() {
    let required = required_collateral(100, 110).unwrap();
    assert!(110 >= required);
    assert!(109 < required);
}

#[test]
fn test_collateralization_direct() {
    let required = required_collateral(100, 110).unwrap();
    assert_eq!(required, 110);
    assert!(is_solvent(110, 100, 110));
    assert!(!is_solvent(109, 100, 110));
}

#[test]
fn test_collateralization() {
    let required = required_collateral(100, 110).unwrap();
    assert_eq!(required, 110);
    assert!(110 >= required);
    assert!(109 < required);
}

#[test]
fn scenario_solvent_at_ninety_thousand() {
    let supply = 90_000_000_000u128;
    let collateral = 100_000_000_000u128;
    assert_eq!(required_collateral(supply, 110), Ok(99_000_000_000));
    assert!(is_solvent(collateral, supply, 110));
    assert_eq!(check_and_signal(collateral, supply, 110), Ok(()));
}

#[test]
fn scenario_insolvent_at_ninety_five_thousand() {
    let supply = 95_000_000_000u128;
    let collateral = 100_000_000_000u128;
    assert_eq!(required_collateral(supply, 110), Ok(104_500_000_000));
    assert!(!is_solvent(collateral, supply, 110));
    assert_eq!(
        check_and_signal(collateral, supply, 110),
        Err(ContractError::InsufficientCollateral { required: 104_500_000_000, available: collateral })
    );
}

#[test]
fn zero_supply_is_always_solvent() {
    assert!(is_solvent(0, 0, 110));
    assert!(is_solvent(u128::MAX, 0, u64::MAX));
    assert_eq!(current_ratio(5, 0), Ok(0));
    assert_eq!(required_collateral(0, 250), Ok(0));
}

#[test]
fn huge_requirements_overflow_instead_of_panicking() {
    assert_eq!(required_collateral(u128::MAX, 200), Err(ContractError::Overflow));
    assert!(!is_solvent(u128::MAX, u128::MAX, 200));
    assert_eq!(
        check_and_signal(7, u128::MAX, 200),
        Err(ContractError::InsufficientCollateral { required: u128::MAX, available: 7 })
    );
    assert_eq!(current_ratio(u128::MAX, 1), Err(ContractError::Overflow));
    // the ratio is computed in wide arithmetic: only the result must fit
    assert_eq!(required_collateral(u128::MAX / 2, 150), Ok(u128::MAX / 2 / 100 * 150 + (u128::MAX / 2 % 100) * 150 / 100));
}

#[test]
fn collateral_ratio_against_debt() {
    assert_eq!(calculate_collateral_ratio(150, 100), Ok(150));
    assert_eq!(calculate_collateral_ratio(100_000_000_000, 0), Ok(0));
    assert_eq!(calculate_collateral_ratio(u128::MAX, 1), Err(ContractError::Overflow));
    assert_eq!(is_properly_collateralized(110, 100, 110), Ok(true));
    assert_eq!(is_properly_collateralized(109, 100, 110), Ok(false));
    assert_eq!(is_properly_collateralized(109, 0, 110), Ok(true));
    assert_eq!(is_properly_collateralized(0, 0, u64::MAX), Ok(true));
    // a ratio beyond 128 bits meets any minimum
    assert_eq!(is_properly_collateralized(u128::MAX, 1, u64::MAX), Ok(true));
}

#[test]
fn test_collateral_and_liquidation() {
    let mut ledger = CollateralLedger::new();
    ledger.execute_update_collateral(true, 60_000_000_000, 40_000_000_000).unwrap();
    assert_eq!(ledger.balance(equilibria_smart_contracts::ledger::CollateralSource::AxelarUsdc), 60_000_000_000);
    assert_eq!(ledger.balance(equilibria_smart_contracts::ledger::CollateralSource::NobleUsdc), 40_000_000_000);
    assert_eq!(ledger.total(), 100_000_000_000);
    let config = LiquidationConfig::new(110, None, None).unwrap();
    let res = config.execute_check_liquidation(ledger.total(), 90_000_000_000);
    assert!(res.is_ok());
    assert_eq!(res, Ok(LiquidationCheck::Solvent { collateral_ratio: 111 }));
    let res = config.execute_check_liquidation(ledger.total(), 95_000_000_000);
    assert!(res.is_err());
}

#[test]
fn liquidation_config_bounds_and_updates() {
    assert_eq!(LiquidationConfig::new(99, None, None), Err(ContractError::InvalidConfiguration));
    assert_eq!(LiquidationConfig::new(110, Some(21), None), Err(ContractError::InvalidConfiguration));
    let mut config = LiquidationConfig::new(110, None, None).unwrap();
    assert_eq!(config.liquidation_fee, 5);
    assert!(config.is_active);
    let before = config.clone();
    assert_eq!(config.execute_update_config(false, None, Some(120), None, None), Err(ContractError::Unauthorized));
    assert_eq!(config, before);
    assert_eq!(
        config.execute_update_config(true, Some("oracle".to_string()), Some(150), Some(25), None),
        Err(ContractError::InvalidConfiguration)
    );
    assert_eq!(config, before);
    config.execute_update_config(true, Some("oracle".to_string()), Some(150), Some(10), Some(false)).unwrap();
    assert_eq!(config.threshold_ratio, 150);
    assert_eq!(config.liquidation_fee, 10);
    assert_eq!(config.oracle_address, Some("oracle".to_string()));
    assert!(!config.is_active);
    // switched off: even an undercollateralised system passes
    assert_eq!(config.execute_check_liquidation(1, 1_000_000), Ok(LiquidationCheck::Bypassed));
}

#[test]
fn liquidation_status_values_the_supply() {
    let config = LiquidationConfig::new(110, None, None).unwrap();
    let status = config.query_liquidation_status(100_000_000_000, 90_000_000_000, 1_000_000).unwrap();
    assert!(status.is_solvent);
    assert_eq!(status.current_ratio, 111);
    assert_eq!(status.required_ratio, 110);
    assert_eq!(status.collateral_value, 100_000_000_000);
    assert_eq!(status.backed_value, 90_000_000_000);
    let status = config.query_liquidation_status(100, 0, 1_000_000).unwrap();
    assert!(status.is_solvent);
    assert_eq!(status.current_ratio, 0);
}

#[test]
fn solvent_check_never_fails_on_a_huge_ratio() {
    let config = LiquidationConfig::new(100, None, None).unwrap();
    let collateral = 1u128 << 127;
    assert_eq!(
        config.execute_check_liquidation(collateral, 100),
        Ok(LiquidationCheck::Solvent { collateral_ratio: collateral })
    );
    assert_eq!(
        config.execute_check_liquidation(collateral, 1),
        Ok(LiquidationCheck::Solvent { collateral_ratio: u128::MAX })
    );
    for supply in [1u128, 2, 99, 1_000, collateral] {
        assert!(config.execute_check_liquidation(collateral, supply).is_ok());
    }
    assert!(config.execute_check_liquidation(collateral, collateral + 1).is_err());
}
