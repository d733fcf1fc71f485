//! Network detection from the chain id and address lookup by contract name.

use vstd::prelude::*;
use vstd::string::StringExecFns;
use crate::config::{GlobalConfig, NetworkConfig, NetworkEnvironment};
use crate::error::ContractError;
use crate::text::{has_prefix, starts_with, text_eq};

verus! {

/// The environment that a chain id names: phoenix-1 and columbus-5 are
/// mainnet, pisco-1 and every bombay chain testnet, anything else localnet.
pub open spec fn network_of(chain_id: Seq<char>) -> NetworkEnvironment {
    if chain_id == "phoenix-1"@ || chain_id == "columbus-5"@ {
        NetworkEnvironment::Mainnet
    } else if chain_id == "pisco-1"@ || has_prefix(chain_id, "bombay"@) {
        NetworkEnvironment::Testnet
    } else {
        NetworkEnvironment::LocalNet
    }
}

/// The address that `name` stands for in a network configuration.
pub open spec fn contract_address_of(config: NetworkConfig, name: Seq<char>) -> Option<Seq<char>> {
    if name == "registry"@ {
        Some(config.registry_address@)
    } else if name == "oracle"@ {
        Some(config.oracle_address@)
    } else if name == "fee_collector"@ {
        Some(config.fee_collector_address@)
    } else if name == "axelar_gateway"@ {
        Some(config.gateway_config.axelar_gateway@)
    } else if name == "noble_gateway"@ {
        Some(config.gateway_config.noble_gateway@)
    } else {
        None
    }
}

/// Network detection and address lookup.
pub struct NetworkManager {}

impl NetworkManager {
    /// The environment of the chain with the given id.
    pub fn detect_network(chain_id: &str) -> (r: NetworkEnvironment)
        ensures
            r == network_of(chain_id@),
    {
        if text_eq(chain_id, "phoenix-1") || text_eq(chain_id, "columbus-5") {
            return NetworkEnvironment::Mainnet;
        }
        if text_eq(chain_id, "pisco-1") || starts_with(chain_id, "bombay") {
            return NetworkEnvironment::Testnet;
        }
        NetworkEnvironment::LocalNet
    }

    /// `NetworkMismatch` when the fallback is off and the chain is not in
    /// the expected environment.
    pub fn verify_network(config: &GlobalConfig, chain_id: &str, expected: NetworkEnvironment) -> (r: Result<(), ContractError>)
        ensures
            r is Ok <==> config.fallback_enabled || network_of(chain_id@) == expected,
            r is Err ==> r->Err_0 == ContractError::NetworkMismatch,
    {
        let current = Self::detect_network(chain_id);
        if !config.fallback_enabled && current != expected {
            return Err(ContractError::NetworkMismatch);
        }
        Ok(())
    }

    /// Makes the detected environment the active one and returns it.
    pub fn auto_configure_network(config: &mut GlobalConfig, chain_id: &str) -> (r: NetworkEnvironment)
        ensures
            r == network_of(chain_id@),
            *final(config) == (GlobalConfig { active_network: r, ..*old(config) }),
    {
        let detected = Self::detect_network(chain_id);
        config.set_active_network(detected);
        detected
    }

    /// The address of a contract by name in the configuration in use:
    /// registry, oracle, fee_collector, axelar_gateway or noble_gateway;
    /// `UnknownContract` for any other name.
    pub fn get_contract_address(config: &GlobalConfig, contract_name: &str) -> (r: Result<String, ContractError>)
        ensures
            r is Ok <==> contract_address_of(config.active_config_spec(), contract_name@) is Some,
            r is Ok ==> r->Ok_0@ == contract_address_of(config.active_config_spec(), contract_name@)->0,
            r is Err ==> r->Err_0 == ContractError::UnknownContract,
    {
        let active = config.get_active_config();
        if text_eq(contract_name, "registry") {
            Ok(active.registry_address.clone())
        } else if text_eq(contract_name, "oracle") {
            Ok(active.oracle_address.clone())
        } else if text_eq(contract_name, "fee_collector") {
            Ok(active.fee_collector_address.clone())
        } else if text_eq(contract_name, "axelar_gateway") {
            Ok(active.gateway_config.axelar_gateway.clone())
        } else if text_eq(contract_name, "noble_gateway") {
            Ok(active.gateway_config.noble_gateway.clone())
        } else {
            Err(ContractError::UnknownContract)
        }
    }

    /// The address of the `<gateway_type>_gateway` contract.
    pub fn query_gateway_address(config: &GlobalConfig, gateway_type: &str) -> (r: Result<String, ContractError>)
        ensures
            r is Ok <==> contract_address_of(config.active_config_spec(), gateway_type@ + "_gateway"@) is Some,
            r is Ok ==> r->Ok_0@ == contract_address_of(config.active_config_spec(), gateway_type@ + "_gateway"@)->0,
            r is Err ==> r->Err_0 == ContractError::UnknownContract,
    {
        let name = String::from_str(gateway_type).concat("_gateway");
        Self::get_contract_address(config, name.as_str())
    }
}

} // verus!
