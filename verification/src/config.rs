//! What of a node's configuration decides how the node is put together.

use crate::component::Component;
use substrate_prometheus_endpoint::Registry;
use vstd::prelude::*;

verus! {

/// The registry of the Prometheus crate. Nothing inside it is visible; what it
/// was made with is what [`crate::metrics::registry_prefix`] and
/// [`crate::metrics::registry_labels`] name.
#[verifier::external_type_specification]
#[verifier::external_body]
pub struct ExRegistry(Registry);

/// The part that a node plays on the network.
#[derive(Clone, Copy, Debug, PartialEq, Eq, Structural)]
pub struct Role {
    /// Whether the node takes part in authoring and finalizing blocks.
    pub authority: bool,
    /// Whether the node is announced to the network as an authority.
    pub network_authority: bool,
}

impl Role {
    /// Whether the node takes part in authoring and finalizing blocks.
    pub fn is_authority(&self) -> (r: bool)
        ensures
            r == self.authority,
    {
        self.authority
    }

    /// Whether the node is announced to the network as an authority.
    pub fn is_network_authority(&self) -> (r: bool)
        ensures
            r == self.network_authority,
    {
        self.network_authority
    }
}

/// Where the keys of a node are kept.
#[derive(Debug, PartialEq, Eq)]
pub enum KeystoreConfig {
    /// In a directory.
    Path {
        /// The directory.
        path: String,
    },
    /// In memory, for as long as the node runs.
    InMemory,
}

/// Where metrics are collected and served.
#[derive(Debug)]
pub struct PrometheusConfig {
    /// The port that metrics are served on.
    pub port: u16,
    /// The registry that metrics are collected in.
    pub registry: Registry,
}

/// The network's share of the configuration.
#[derive(Debug, PartialEq, Eq)]
pub struct NetworkConfiguration {
    /// The name that the node goes by.
    pub node_name: String,
}

/// The offchain workers' share of the configuration.
#[derive(Clone, Copy, Debug, PartialEq, Eq, Structural)]
pub struct OffchainWorkerConfig {
    /// Whether offchain workers run at all.
    pub enabled: bool,
}

/// The configuration of a node.
#[derive(Debug)]
pub struct Configuration {
    /// The part that the node plays on the network.
    pub role: Role,
    /// Where the keys are kept.
    pub keystore: KeystoreConfig,
    /// The address of a remote keystore, if one is asked for.
    pub keystore_remote: Option<String>,
    /// Where metrics are collected and served, if they are.
    pub prometheus_config: Option<PrometheusConfig>,
    /// The network's share.
    pub network: NetworkConfiguration,
    /// The offchain workers' share.
    pub offchain_worker: OffchainWorkerConfig,
    /// Whether to author blocks even while the node is not in sync.
    pub force_authoring: bool,
    /// Whether the node stays out of finality voting.
    pub disable_grandpa: bool,
    /// Whether the node is built with its command line interface, and so
    /// answers warp sync requests.
    pub cli: bool,
}

impl Configuration {
    /// The registry that metrics are collected in, if any.
    pub open spec fn spec_registry(self) -> Option<Component> {
        if self.prometheus_config is Some {
            Some(Component::PrometheusRegistry)
        } else {
            None
        }
    }

    /// The registry that metrics are collected in, if any.
    pub fn registry(&self) -> (r: Option<Component>)
        ensures
            r == self.spec_registry(),
    {
        if self.prometheus_config.is_some() {
            Some(Component::PrometheusRegistry)
        } else {
            None
        }
    }
}

} // verus!
