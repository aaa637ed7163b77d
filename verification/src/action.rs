//! The steps that put a node together.

use crate::component::Component;
use crate::rpc::{LightDeps, RpcExtensions};
use vstd::prelude::*;

verus! {

/// Who may author blocks, as far as the import queue and the block production
/// task are concerned.
#[derive(Clone, Copy, Debug, PartialEq, Eq, Structural)]
pub enum CanAuthorWith {
    /// A node whose native runtime, that of the client's executor, matches the
    /// runtime of the chain.
    NativeVersion {
        /// The client whose executor is asked.
        client: Component,
    },
    /// Nobody.
    Never,
}

/// When to hold back from authoring.
#[derive(Clone, Copy, Debug, PartialEq, Eq, Structural)]
pub enum BackoffAuthoringBlocks {
    /// While the finalized head lags behind, by the default measure.
    OnFinalizedHeadLagging,
}

/// Which rules restrict what the finality voter votes for.
#[derive(Clone, Copy, Debug, PartialEq, Eq, Structural)]
pub enum VotingRule {
    /// The default rules.
    Default,
}

/// A set of peers that the network keeps beside the default one.
#[derive(Clone, Copy, Debug, PartialEq, Eq, Structural)]
pub enum PeersSet {
    /// The set of the finality gadget.
    Grandpa,
}

/// What the node does about authority discovery.
#[derive(Clone, Copy, Debug, PartialEq, Eq, Structural)]
pub enum AuthorityDiscoveryRole {
    /// It publishes its own addresses, signed with its keys, and looks for those
    /// of the others.
    PublishAndDiscover {
        /// The container whose keystore signs.
        keystore: Component,
    },
}

/// What block production is started with.
#[derive(Clone, Copy, Debug, PartialEq, Eq, Structural)]
pub struct BabeParams {
    /// The container whose keystore signs blocks.
    pub keystore: Component,
    /// The client.
    pub client: Component,
    /// The rule that picks the chain to build on.
    pub select_chain: Component,
    /// The import of authored blocks.
    pub block_import: Component,
    /// The factory of block proposers.
    pub env: Component,
    /// Where to learn whether the node is in sync.
    pub sync_oracle: Component,
    /// The providers of inherent data.
    pub inherent_data_providers: Component,
    /// Whether to author even while not in sync.
    pub force_authoring: bool,
    /// When to hold back from authoring.
    pub backoff_authoring_blocks: Option<BackoffAuthoringBlocks>,
    /// The link to the state of block production.
    pub babe_link: Component,
    /// Who may author.
    pub can_author_with: CanAuthorWith,
}

/// How the finality voter behaves.
#[derive(Debug, PartialEq, Eq)]
pub struct GrandpaConfig {
    /// How long a round of gossip lasts, in milliseconds.
    pub gossip_duration_millis: u64,
    /// How many blocks may be finalized without a stored justification.
    pub justification_period: u32,
    /// The name that the node goes by.
    pub name: Option<String>,
    /// Whether a node that does not vote follows the votes.
    pub observer_enabled: bool,
    /// The container whose keystore signs votes, where there is one to sign with.
    pub keystore: Option<Component>,
    /// Whether the node takes part as an authority.
    pub is_authority: bool,
}

/// What the finality voter is run with.
#[derive(Debug, PartialEq, Eq)]
pub struct GrandpaParams {
    /// How it behaves.
    pub config: GrandpaConfig,
    /// The other half of its block import.
    pub link: Component,
    /// The network.
    pub network: Component,
    /// The notifier whose stream of connections it follows, where there is one.
    pub telemetry_on_connect: Component,
    /// What it votes for.
    pub voting_rule: VotingRule,
    /// The metrics registry, if any.
    pub prometheus_registry: Option<Component>,
    /// The state that it shares.
    pub shared_voter_state: Component,
}

/// One step of an assembly: one call on the parts of the node.
#[derive(Debug, PartialEq, Eq)]
pub enum Action {
    /// Makes an empty set of inherent data providers.
    CreateInherentDataProviders,
    /// Makes client, backend, keystore container, task manager and telemetry span
    /// of a full node.
    CreateFullParts {
        /// The configuration.
        config: Component,
    },
    /// Makes client, backend, keystore container, task manager, fetcher and
    /// telemetry span of a light node.
    CreateLightParts {
        /// The configuration.
        config: Component,
    },
    /// Picks the longest chain as the best one.
    SelectLongestChain {
        /// The backend that knows the chains.
        backend: Component,
    },
    /// Makes the transaction pool of a full node.
    CreateFullPool {
        /// The configuration that holds the pool's options.
        config: Component,
        /// Whether the node is an authority.
        is_authority: bool,
        /// The metrics registry, if any.
        prometheus_registry: Option<Component>,
        /// The manager to spawn on.
        spawner: Component,
        /// The client that validates.
        client: Component,
    },
    /// Makes the transaction pool of a light node.
    CreateLightPool {
        /// The configuration that holds the pool's options.
        config: Component,
        /// The metrics registry, if any.
        prometheus_registry: Option<Component>,
        /// The manager to spawn on.
        spawner: Component,
        /// The client.
        client: Component,
        /// The fetcher that validates through other nodes.
        fetcher: Component,
    },
    /// Makes the block import and link of the finality gadget.
    CreateGrandpaBlockImport {
        /// The client to import into.
        client: Component,
        /// The client that knows the genesis authorities.
        genesis_authorities: Component,
        /// The rule that picks the best chain.
        select_chain: Component,
        /// How many hard forks of the authority set are known, where the import
        /// is told of hard forks at all.
        authority_set_hard_forks: Option<usize>,
    },
    /// Makes the block import that indexes Ethereum blocks.
    CreateFrontierBlockImport {
        /// The import that blocks are passed on to.
        inner: Component,
        /// The client.
        client: Component,
        /// Whether indexing is on.
        enabled: bool,
    },
    /// Reads the configuration of block production from the chain.
    ReadBabeConfig {
        /// The client to read through.
        client: Component,
    },
    /// Makes the block import and link of block production.
    CreateBabeBlockImport {
        /// The configuration of block production.
        config: Component,
        /// The import that blocks are passed on to.
        inner: Component,
        /// The client.
        client: Component,
    },
    /// Makes the import queue.
    CreateImportQueue {
        /// The link to the state of block production.
        babe_link: Component,
        /// The import of blocks.
        block_import: Component,
        /// The import of justifications, if any.
        justification_import: Option<Component>,
        /// The client.
        client: Component,
        /// The rule that picks the best chain.
        select_chain: Component,
        /// The providers of inherent data.
        inherent_data_providers: Component,
        /// The manager to spawn on.
        spawner: Component,
        /// The metrics registry, if any.
        prometheus_registry: Option<Component>,
        /// Who may author.
        can_author_with: CanAuthorWith,
    },
    /// Takes the stream of justifications.
    OpenJustificationStream {
        /// The link that justifications come from.
        grandpa_link: Component,
    },
    /// Shares the authority set.
    ShareAuthoritySet {
        /// The link that holds it.
        grandpa_link: Component,
    },
    /// Makes an empty voter state.
    CreateVoterState,
    /// Makes the provider of finality proofs.
    CreateFinalityProofProvider {
        /// The backend.
        backend: Component,
        /// The authority set, if known.
        shared_authority_set: Option<Component>,
    },
    /// Copies the configuration of block production.
    CopyBabeConfig {
        /// The link that holds it.
        babe_link: Component,
    },
    /// Shares the epoch changes.
    ShareEpochChanges {
        /// The link that holds them.
        babe_link: Component,
    },
    /// Makes the executor that RPC subscriptions run on.
    CreateSubscriptionTaskExecutor {
        /// The manager to spawn on.
        spawner: Component,
    },
    /// Copies the chain specification.
    CopyChainSpec {
        /// The configuration that holds it.
        config: Component,
    },
    /// Adds a set of peers to the network's configuration.
    AddPeersSet {
        /// The configuration.
        config: Component,
        /// The set.
        set: PeersSet,
    },
    /// Adds the protocol that answers warp sync requests to the network's
    /// configuration.
    AddWarpSyncProtocol {
        /// The configuration.
        config: Component,
        /// The manager to spawn on.
        spawner: Component,
        /// The backend to answer from.
        backend: Component,
    },
    /// Makes the network, its status sinks, the sender of system RPC requests and
    /// the network's starter.
    BuildNetwork {
        /// The configuration.
        config: Component,
        /// The client.
        client: Component,
        /// The transaction pool.
        transaction_pool: Component,
        /// The manager to spawn on.
        spawner: Component,
        /// The import queue.
        import_queue: Component,
        /// The fetcher of data from other nodes, if any.
        on_demand: Option<Component>,
        /// The builder of the validator of block announcements, if any.
        block_announce_validator_builder: Option<Component>,
    },
    /// Starts the offchain workers.
    BuildOffchainWorkers {
        /// The configuration.
        config: Component,
        /// The backend.
        backend: Component,
        /// The manager to spawn on.
        spawner: Component,
        /// The client.
        client: Component,
        /// The network.
        network: Component,
    },
    /// Makes the RPC extension of a light node.
    CreateLightRpc {
        /// What it needs.
        deps: LightDeps,
    },
    /// Spawns the tasks that every node runs, and makes the RPC handlers and the
    /// notifier of telemetry connections.
    SpawnTasks {
        /// The configuration.
        config: Component,
        /// The backend.
        backend: Component,
        /// The client.
        client: Component,
        /// The container of the keystore.
        keystore: Component,
        /// The network.
        network: Component,
        /// How the RPC extensions come about.
        rpc_extensions: RpcExtensions,
        /// The transaction pool.
        transaction_pool: Component,
        /// The manager to spawn on.
        task_manager: Component,
        /// The fetcher of data from other nodes, if any.
        on_demand: Option<Component>,
        /// The backend whose remote blockchain is consulted, if any.
        remote_blockchain: Option<Component>,
        /// The telemetry span.
        telemetry_span: Component,
        /// The sinks of the network's status.
        network_status_sinks: Component,
        /// The sender of system RPC requests.
        system_rpc_tx: Component,
    },
    /// Makes the factory of block proposers.
    CreateProposer {
        /// The manager to spawn on.
        spawner: Component,
        /// The client.
        client: Component,
        /// The pool that transactions are taken from.
        transaction_pool: Component,
        /// The metrics registry, if any.
        prometheus_registry: Option<Component>,
    },
    /// Makes the block production task.
    StartBabe {
        /// What it is started with.
        babe: BabeParams,
    },
    /// Makes the finality voter task.
    RunGrandpaVoter {
        /// What it is run with.
        grandpa: GrandpaParams,
    },
    /// Opens the stream of distributed hash table events: the network's events of
    /// which [`crate::event::dht_event`] keeps something.
    OpenDhtEventStream {
        /// The network.
        network: Component,
        /// The name of the stream.
        name: &'static str,
    },
    /// Makes the authority discovery worker.
    CreateAuthorityDiscovery {
        /// The client.
        client: Component,
        /// The network.
        network: Component,
        /// The events to follow.
        dht_event_stream: Component,
        /// What the node does.
        role: AuthorityDiscoveryRole,
        /// The metrics registry, if any.
        prometheus_registry: Option<Component>,
    },
    /// Spawns a blocking task that the node cannot do without.
    SpawnEssentialBlocking {
        /// The manager to spawn on.
        task_manager: Component,
        /// The name of the task.
        name: &'static str,
        /// The task.
        task: Component,
    },
    /// Spawns a task.
    Spawn {
        /// The manager to spawn on.
        task_manager: Component,
        /// The name of the task.
        name: &'static str,
        /// The task.
        task: Component,
    },
    /// Starts the network.
    StartNetwork {
        /// The starter.
        starter: Component,
    },
}

impl Action {
    /// Whether the step may fail.
    pub open spec fn spec_can_fail(self) -> bool {
        ||| self is CreateFullParts
        ||| self is CreateLightParts
        ||| self is CreateGrandpaBlockImport
        ||| self is ReadBabeConfig
        ||| self is CreateBabeBlockImport
        ||| self is CreateImportQueue
        ||| self is BuildNetwork
        ||| self is SpawnTasks
        ||| self is StartBabe
        ||| self is RunGrandpaVoter
    }

    /// Whether the step may fail.
    pub fn can_fail(&self) -> (r: bool)
        ensures
            r == self.spec_can_fail(),
    {
        match self {
            Action::CreateFullParts { .. } => true,
            Action::CreateLightParts { .. } => true,
            Action::CreateGrandpaBlockImport { .. } => true,
            Action::ReadBabeConfig { .. } => true,
            Action::CreateBabeBlockImport { .. } => true,
            Action::CreateImportQueue { .. } => true,
            Action::BuildNetwork { .. } => true,
            Action::SpawnTasks { .. } => true,
            Action::StartBabe { .. } => true,
            Action::RunGrandpaVoter { .. } => true,
            _ => false,
        }
    }
}

} // verus!
