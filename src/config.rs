//! Network configuration: per-environment addresses and the choice of the
//! active environment, with an optional fallback towards mainnet.

use vstd::prelude::*;
use vstd::string::StringExecFns;
use crate::text::text_eq;

verus! {

/// The environments that the contracts can run in.
#[derive(Clone, Copy, Debug, PartialEq, Eq, Structural)]
pub enum NetworkEnvironment {
    Mainnet,
    Testnet,
    LocalNet,
}

impl NetworkEnvironment {
    pub open spec fn name_spec(&self) -> Seq<char> {
        match self {
            NetworkEnvironment::Mainnet => "mainnet"@,
            NetworkEnvironment::Testnet => "testnet"@,
            NetworkEnvironment::LocalNet => "localnet"@,
        }
    }

    /// The lower-case name of the environment.
    pub fn name(&self) -> (r: &'static str)
        ensures
            r@ == self.name_spec(),
    {
        match self {
            NetworkEnvironment::Mainnet => "mainnet",
            NetworkEnvironment::Testnet => "testnet",
            NetworkEnvironment::LocalNet => "localnet",
        }
    }

    /// The name as an owned string.
    pub fn to_string(&self) -> (r: String)
        ensures
            r@ == self.name_spec(),
    {
        String::from_str(self.name())
    }
}

/// Gateway contracts for cross-chain transfers.
#[derive(Clone, Debug, PartialEq, Eq)]
pub struct GatewayConfig {
    pub axelar_gateway: String,
    pub noble_gateway: String,
}

/// The addresses of one environment.
#[derive(Clone, Debug, PartialEq, Eq)]
pub struct NetworkConfig {
    pub environment: NetworkEnvironment,
    pub gateway_config: GatewayConfig,
    pub registry_address: String,
    pub oracle_address: String,
    pub fee_collector_address: String,
}

/// Every environment's addresses, the active one and the fallback switch.
#[derive(Clone, Debug, PartialEq, Eq)]
pub struct GlobalConfig {
    pub active_network: NetworkEnvironment,
    pub mainnet_config: NetworkConfig,
    pub testnet_config: NetworkConfig,
    pub localnet_config: NetworkConfig,
    pub fallback_enabled: bool,
}

/// The configuration of one environment with its default addresses.
fn default_network_config(
    environment: NetworkEnvironment,
    axelar_gateway: &str,
    noble_gateway: &str,
    registry_address: String,
    oracle_address: &str,
    fee_collector_address: &str,
) -> (r: NetworkConfig)
    ensures
        r.environment == environment,
        r.gateway_config.axelar_gateway@ == axelar_gateway@,
        r.gateway_config.noble_gateway@ == noble_gateway@,
        r.registry_address == registry_address,
        r.oracle_address@ == oracle_address@,
        r.fee_collector_address@ == fee_collector_address@,
{
    NetworkConfig {
        environment,
        gateway_config: GatewayConfig {
            axelar_gateway: String::from_str(axelar_gateway),
            noble_gateway: String::from_str(noble_gateway),
        },
        registry_address,
        oracle_address: String::from_str(oracle_address),
        fee_collector_address: String::from_str(fee_collector_address),
    }
}

impl GlobalConfig {
    /// The configuration in use: the active environment's, except that with
    /// the fallback on, testnet and localnet defer to a mainnet
    /// configuration that is marked mainnet, and localnet next to a testnet
    /// one that is marked testnet.
    pub open spec fn active_config_spec(&self) -> NetworkConfig {
        match self.active_network {
            NetworkEnvironment::Mainnet => self.mainnet_config,
            NetworkEnvironment::Testnet => {
                if self.fallback_enabled && self.mainnet_config.environment == NetworkEnvironment::Mainnet {
                    self.mainnet_config
                } else {
                    self.testnet_config
                }
            },
            NetworkEnvironment::LocalNet => {
                if self.fallback_enabled && self.mainnet_config.environment == NetworkEnvironment::Mainnet {
                    self.mainnet_config
                } else if self.fallback_enabled && self.testnet_config.environment == NetworkEnvironment::Testnet {
                    self.testnet_config
                } else {
                    self.localnet_config
                }
            },
        }
    }

    /// The initial configuration: mainnet active, fallback on, the given
    /// registries and the default addresses of each environment.
    pub fn initialize_config(mainnet_registry: String, testnet_registry: String, localnet_registry: String) -> (r: GlobalConfig)
        ensures
            r.active_network == NetworkEnvironment::Mainnet,
            r.fallback_enabled,
            r.mainnet_config.environment == NetworkEnvironment::Mainnet,
            r.testnet_config.environment == NetworkEnvironment::Testnet,
            r.localnet_config.environment == NetworkEnvironment::LocalNet,
            r.mainnet_config.registry_address == mainnet_registry,
            r.testnet_config.registry_address == testnet_registry,
            r.localnet_config.registry_address == localnet_registry,
            r.mainnet_config.oracle_address@ == "terra1oracle_mainnet"@,
            r.testnet_config.oracle_address@ == "terra1oracle_testnet"@,
            r.localnet_config.oracle_address@ == "terra1oracle_localnet"@,
            r.mainnet_config.gateway_config.axelar_gateway@ == "terra1axelar_mainnet"@,
            r.mainnet_config.gateway_config.noble_gateway@ == "terra1noble_mainnet"@,
            r.testnet_config.gateway_config.axelar_gateway@ == "terra1axelar_testnet"@,
            r.testnet_config.gateway_config.noble_gateway@ == "terra1noble_testnet"@,
            r.localnet_config.gateway_config.axelar_gateway@ == "terra1axelar_localnet"@,
            r.localnet_config.gateway_config.noble_gateway@ == "terra1noble_localnet"@,
            r.mainnet_config.fee_collector_address@ == "terra1fee_collector_mainnet"@,
            r.testnet_config.fee_collector_address@ == "terra1fee_collector_testnet"@,
            r.localnet_config.fee_collector_address@ == "terra1fee_collector_localnet"@,
    {
        GlobalConfig {
            active_network: NetworkEnvironment::Mainnet,
            fallback_enabled: true,
            mainnet_config: default_network_config(
                NetworkEnvironment::Mainnet,
                "terra1axelar_mainnet",
                "terra1noble_mainnet",
                mainnet_registry,
                "terra1oracle_mainnet",
                "terra1fee_collector_mainnet",
            ),
            testnet_config: default_network_config(
                NetworkEnvironment::Testnet,
                "terra1axelar_testnet",
                "terra1noble_testnet",
                testnet_registry,
                "terra1oracle_testnet",
                "terra1fee_collector_testnet",
            ),
            localnet_config: default_network_config(
                NetworkEnvironment::LocalNet,
                "terra1axelar_localnet",
                "terra1noble_localnet",
                localnet_registry,
                "terra1oracle_localnet",
                "terra1fee_collector_localnet",
            ),
        }
    }

    /// The configuration in use, following the fallback chain when enabled.
    pub fn get_active_config(&self) -> (r: &NetworkConfig)
        ensures
            *r == self.active_config_spec(),
    {
        match self.active_network {
            NetworkEnvironment::Mainnet => &self.mainnet_config,
            NetworkEnvironment::Testnet => {
                if self.fallback_enabled && self.mainnet_config.environment == NetworkEnvironment::Mainnet {
                    &self.mainnet_config
                } else {
                    &self.testnet_config
                }
            },
            NetworkEnvironment::LocalNet => {
                if self.fallback_enabled {
                    if self.mainnet_config.environment == NetworkEnvironment::Mainnet {
                        &self.mainnet_config
                    } else if self.testnet_config.environment == NetworkEnvironment::Testnet {
                        &self.testnet_config
                    } else {
                        &self.localnet_config
                    }
                } else {
                    &self.localnet_config
                }
            },
        }
    }

    /// The gateway address of `"axelar"` or `"noble"` in the configuration in
    /// use; empty for any other type.
    pub fn get_gateway_address(&self, gateway_type: &str) -> (r: String)
        ensures
            r@ == (if gateway_type@ == "axelar"@ {
                self.active_config_spec().gateway_config.axelar_gateway@
            } else if gateway_type@ == "noble"@ {
                self.active_config_spec().gateway_config.noble_gateway@
            } else {
                Seq::<char>::empty()
            }),
    {
        let config = self.get_active_config();
        if text_eq(gateway_type, "axelar") {
            config.gateway_config.axelar_gateway.clone()
        } else if text_eq(gateway_type, "noble") {
            config.gateway_config.noble_gateway.clone()
        } else {
            proof {
                reveal_strlit("");
            }
            String::from_str("")
        }
    }

    /// Makes `network` the active environment; nothing else changes.
    pub fn set_active_network(&mut self, network: NetworkEnvironment)
        ensures
            *final(self) == (GlobalConfig { active_network: network, ..*old(self) }),
    {
        self.active_network = network;
    }

    /// Switches the fallback on or off; nothing else changes.
    pub fn set_fallback_enabled(&mut self, enabled: bool)
        ensures
            *final(self) == (GlobalConfig { fallback_enabled: enabled, ..*old(self) }),
    {
        self.fallback_enabled = enabled;
    }
}

} // verus!
