//! What the RPC extensions of a node are built from.

use crate::component::Component;
use vstd::prelude::*;

verus! {

/// Whether calls that are not safe to expose are refused.
#[derive(Clone, Copy, Debug, PartialEq, Eq, Structural)]
pub enum DenyUnsafe {
    /// They are refused.
    Yes,
    /// They are answered.
    No,
}

/// What the RPC extensions need of block production.
#[derive(Clone, Copy, Debug, PartialEq, Eq, Structural)]
pub struct BabeDeps {
    /// The configuration of block production.
    pub babe_config: Component,
    /// The epoch changes.
    pub shared_epoch_changes: Component,
    /// The container whose keystore signs.
    pub keystore: Component,
}

/// What the RPC extensions need of finality.
#[derive(Clone, Copy, Debug, PartialEq, Eq, Structural)]
pub struct GrandpaDeps {
    /// The state of the voter.
    pub shared_voter_state: Component,
    /// The authority set.
    pub shared_authority_set: Component,
    /// The stream of justifications.
    pub justification_stream: Component,
    /// The executor that subscriptions to justifications run on.
    pub subscription_executor: Component,
    /// The provider of finality proofs.
    pub finality_provider: Component,
}

/// What the RPC extensions of a full node need.
#[derive(Clone, Copy, Debug, PartialEq, Eq, Structural)]
pub struct FullDeps {
    /// The client.
    pub client: Component,
    /// The transaction pool.
    pub pool: Component,
    /// The rule that picks the best chain.
    pub select_chain: Component,
    /// The chain specification.
    pub chain_spec: Component,
    /// Whether unsafe calls are refused.
    pub deny_unsafe: DenyUnsafe,
    /// Whether the node is an authority.
    pub is_authority: bool,
    /// The network.
    pub network: Component,
    /// The needs of block production.
    pub babe: BabeDeps,
    /// The needs of finality.
    pub grandpa: GrandpaDeps,
}

/// What the RPC extension of a light node needs.
#[derive(Clone, Copy, Debug, PartialEq, Eq, Structural)]
pub struct LightDeps {
    /// The backend whose remote blockchain answers.
    pub remote_blockchain: Component,
    /// The fetcher of data from other nodes.
    pub fetcher: Component,
    /// The client.
    pub client: Component,
    /// The transaction pool.
    pub pool: Component,
}

/// The arguments that the RPC extensions of a full node are created with.
#[derive(Clone, Copy, Debug, PartialEq, Eq, Structural)]
pub struct FullRpc {
    /// What the extensions need.
    pub deps: FullDeps,
    /// The executor that their subscriptions run on.
    pub subscription_task_executor: Component,
}

/// The parts that a full node's RPC extensions hold on to, from which they are
/// created anew for each transport.
#[derive(Clone, Copy, Debug, PartialEq, Eq, Structural)]
pub struct RpcExtensionsBuilder {
    /// The client.
    pub client: Component,
    /// The container whose keystore signs.
    pub keystore: Component,
    /// The transaction pool.
    pub transaction_pool: Component,
    /// The rule that picks the best chain.
    pub select_chain: Component,
    /// The chain specification.
    pub chain_spec: Component,
    /// The configuration of block production.
    pub babe_config: Component,
    /// The epoch changes.
    pub shared_epoch_changes: Component,
    /// The state of the voter.
    pub shared_voter_state: Component,
    /// The authority set.
    pub shared_authority_set: Component,
    /// The stream of justifications.
    pub justification_stream: Component,
    /// The provider of finality proofs.
    pub finality_proof_provider: Component,
    /// The executor that subscriptions run on.
    pub subscription_task_executor: Component,
}

impl RpcExtensionsBuilder {
    /// The arguments for one transport: the held parts, and what the caller says
    /// of the transport, the node's role, the network and its own executor.
    pub open spec fn spec_build(
        self,
        deny_unsafe: DenyUnsafe,
        is_authority: bool,
        network: Component,
        subscription_executor: Component,
    ) -> FullRpc {
        FullRpc {
            deps: FullDeps {
                client: self.client,
                pool: self.transaction_pool,
                select_chain: self.select_chain,
                chain_spec: self.chain_spec,
                deny_unsafe,
                is_authority,
                network,
                babe: BabeDeps {
                    babe_config: self.babe_config,
                    shared_epoch_changes: self.shared_epoch_changes,
                    keystore: self.keystore,
                },
                grandpa: GrandpaDeps {
                    shared_voter_state: self.shared_voter_state,
                    shared_authority_set: self.shared_authority_set,
                    justification_stream: self.justification_stream,
                    subscription_executor,
                    finality_provider: self.finality_proof_provider,
                },
            },
            subscription_task_executor: self.subscription_task_executor,
        }
    }

    /// The arguments for one transport.
    pub fn build(
        &self,
        deny_unsafe: DenyUnsafe,
        is_authority: bool,
        network: Component,
        subscription_executor: Component,
    ) -> (r: FullRpc)
        ensures
            r == self.spec_build(deny_unsafe, is_authority, network, subscription_executor),
    {
        let deps = FullDeps {
            client: self.client,
            pool: self.transaction_pool,
            select_chain: self.select_chain,
            chain_spec: self.chain_spec,
            deny_unsafe,
            is_authority,
            network,
            babe: BabeDeps {
                babe_config: self.babe_config,
                shared_epoch_changes: self.shared_epoch_changes,
                keystore: self.keystore,
            },
            grandpa: GrandpaDeps {
                shared_voter_state: self.shared_voter_state,
                shared_authority_set: self.shared_authority_set,
                justification_stream: self.justification_stream,
                subscription_executor,
                finality_provider: self.finality_proof_provider,
            },
        };
        FullRpc { deps, subscription_task_executor: self.subscription_task_executor }
    }
}

/// A [`RpcExtensionsBuilder`] that has been told the node's role and its network,
/// so that only the transport is left open.
#[derive(Clone, Copy, Debug, PartialEq, Eq, Structural)]
pub struct NodeRpcExtensionsBuilder {
    /// The builder.
    pub builder: RpcExtensionsBuilder,
    /// Whether the node is an authority.
    pub is_authority: bool,
    /// The network.
    pub network: Component,
}

impl NodeRpcExtensionsBuilder {
    /// The arguments for one transport.
    pub fn build(&self, deny_unsafe: DenyUnsafe, subscription_executor: Component) -> (r: FullRpc)
        ensures
            r == self.builder.spec_build(
                deny_unsafe,
                self.is_authority,
                self.network,
                subscription_executor,
            ),
    {
        self.builder.build(deny_unsafe, self.is_authority, self.network, subscription_executor)
    }
}

/// How the RPC extensions of a node come about.
#[derive(Clone, Copy, Debug, PartialEq, Eq, Structural)]
pub enum RpcExtensions {
    /// They are created anew for each transport.
    PerTransport(NodeRpcExtensionsBuilder),
    /// One extension serves every transport.
    Shared(Component),
}

} // verus!
