//! Collateralisation and fee-curve engine of an over-collateralised
//! stablecoin: a multi-source collateral ledger, a deviation-sensitive fee
//! curve, solvency checks and the mint/redeem engine built on them, with the
//! configuration, bridge, governance and arbitrage rules around them.

pub mod fixed;
pub mod error;
pub mod text;

pub mod fee;
pub mod ledger;
pub mod solvency;
pub mod engine;
pub mod liquidation;

pub mod oracle;
pub mod math;
pub mod arbitrage;

pub mod config;
pub mod network;
pub mod bridge;
pub mod governance;
pub mod messages;
