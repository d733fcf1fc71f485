//! Plain records that the contracts hand to and receive from their callers.

use vstd::prelude::*;
use vstd::string::StringExecFns;

verus! {

/// Name, symbol and precision of the token.
#[derive(Clone, Debug, PartialEq, Eq)]
pub struct TokenInfo {
    pub name: String,
    pub symbol: String,
    pub decimals: u8,
}

/// The registry that a contract consults.
#[derive(Clone, Debug, PartialEq, Eq)]
pub struct RegistryResponse {
    pub address: String,
}

/// An asset that the price oracle quotes.
#[derive(Clone, Debug, PartialEq, Eq)]
pub struct RegisteredAsset {
    pub denom: String,
    pub symbol: String,
}

/// Every asset that the price oracle quotes.
#[derive(Clone, Debug, PartialEq, Eq)]
pub struct RegisteredAssetResponse {
    pub assets: Vec<RegisteredAsset>,
}

/// One named contract of the registry.
#[derive(Clone, Debug, PartialEq, Eq)]
pub struct ContractAddressResponse {
    pub name: String,
    pub address: String,
}

/// Every named contract of the registry.
#[derive(Clone, Debug, PartialEq, Eq)]
pub struct AllContractsResponse {
    pub contracts: Vec<ContractAddressResponse>,
}

impl RegisteredAsset {
    /// The assets that the oracle quotes from the start: uluna as LUNA and
    /// uusd as UST.
    pub fn defaults() -> (r: Vec<RegisteredAsset>)
        ensures
            r@.len() == 2,
            r@[0].denom@ == "uluna"@ && r@[0].symbol@ == "LUNA"@,
            r@[1].denom@ == "uusd"@ && r@[1].symbol@ == "UST"@,
    {
        let mut assets: Vec<RegisteredAsset> = Vec::new();
        assets.push(RegisteredAsset { denom: String::from_str("uluna"), symbol: String::from_str("LUNA") });
        assets.push(RegisteredAsset { denom: String::from_str("uusd"), symbol: String::from_str("UST") });
        assets
    }
}

} // verus!
