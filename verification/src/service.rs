//! How nodes are put together: full nodes, light nodes, and the parts that
//! operations on the chain need.

use crate::action::{
    Action, AuthorityDiscoveryRole, BabeParams, BackoffAuthoringBlocks, CanAuthorWith,
    GrandpaConfig, GrandpaParams, PeersSet, VotingRule,
};
use crate::component::Component;
use crate::config::{Configuration, KeystoreConfig};
use crate::error::ServiceError;
use crate::keystore::hook_remote_keystore;
use crate::metrics::set_prometheus_registry;
use crate::rpc::{LightDeps, NodeRpcExtensionsBuilder, RpcExtensions, RpcExtensionsBuilder};
use crate::runtime::{
    ConstructRuntimeApi, DRMLClient, FullBackend, FullClient, FullState, HyperspaceExecutor,
    HyperspaceRuntimeApi, LightClient, LightState, NativeExecutionDispatch, OpaqueBlock,
    RuntimeApiCollection,
};
use std::marker::PhantomData;
use vstd::prelude::*;

verus! {

/// The steps that put something together, and what is handed over when all of
/// them have been taken.
#[derive(Debug)]
pub struct Assembly<T> {
    /// The steps, in the order in which they are taken.
    pub steps: Vec<Action>,
    /// What is handed over.
    pub parts: T,
}

/// A node laid out: the configuration that its steps work on, the steps, and what
/// is handed over when all of them have been taken.
#[derive(Debug)]
pub struct Node<T> {
    /// The configuration.
    pub config: Configuration,
    /// The steps, in the order in which they are taken.
    pub steps: Vec<Action>,
    /// What is handed over.
    pub parts: T,
}

/// What full nodes and chain operations have in common.
#[derive(Debug)]
pub struct PartialComponents<RuntimeApi, Executor> {
    /// The client.
    pub client: FullClient<RuntimeApi, Executor>,
    /// The backend.
    pub backend: Component,
    /// The task manager.
    pub task_manager: Component,
    /// The keystore container.
    pub keystore_container: Component,
    /// The rule that picks the best chain.
    pub select_chain: Component,
    /// The import queue.
    pub import_queue: Component,
    /// The transaction pool.
    pub transaction_pool: Component,
    /// The providers of inherent data.
    pub inherent_data_providers: Component,
    /// The builder of the RPC extensions.
    pub rpc_extensions_builder: RpcExtensionsBuilder,
    /// The block import, the finality link and the block production link.
    pub import_setup: (Component, Component, Component),
    /// The state of the finality voter.
    pub rpc_setup: Component,
    /// The telemetry span.
    pub telemetry_span: Component,
}

/// The words in which a remote keystore is turned down.
pub open spec fn remote_keystores_are_not_supported() -> Seq<char> {
    "Remote Keystores are not supported."@
}

/// The parts that the RPC extensions of a full node hold on to.
pub open spec fn spec_rpc_extensions_builder() -> RpcExtensionsBuilder {
    RpcExtensionsBuilder {
        client: Component::Client,
        keystore: Component::KeystoreContainer,
        transaction_pool: Component::TransactionPool,
        select_chain: Component::SelectChain,
        chain_spec: Component::ChainSpec,
        babe_config: Component::LinkedBabeConfig,
        shared_epoch_changes: Component::SharedEpochChanges,
        shared_voter_state: Component::SharedVoterState,
        shared_authority_set: Component::SharedAuthoritySet,
        justification_stream: Component::JustificationStream,
        finality_proof_provider: Component::FinalityProofProvider,
        subscription_task_executor: Component::SubscriptionTaskExecutor,
    }
}

/// Whether `parts` names each common part by what it is.
pub open spec fn is_partial_components<RuntimeApi, Executor>(
    parts: PartialComponents<RuntimeApi, Executor>,
) -> bool {
    &&& parts.client.component == Component::Client
    &&& parts.backend == Component::Backend
    &&& parts.task_manager == Component::TaskManager
    &&& parts.keystore_container == Component::KeystoreContainer
    &&& parts.select_chain == Component::SelectChain
    &&& parts.import_queue == Component::ImportQueue
    &&& parts.transaction_pool == Component::TransactionPool
    &&& parts.inherent_data_providers == Component::InherentDataProviders
    &&& parts.rpc_extensions_builder == spec_rpc_extensions_builder()
    &&& parts.import_setup == (
        Component::BabeBlockImport,
        Component::GrandpaLink,
        Component::BabeLink,
    )
    &&& parts.rpc_setup == Component::SharedVoterState
    &&& parts.telemetry_span == Component::TelemetrySpan
}

/// Whether `r` is what laying out the common parts gives, where `before` is the
/// configuration that is given and `after` what becomes of it.
///
/// A remote keystore is turned down: there is an error exactly if one is asked
/// for, always in the same words, and the configuration is left alone. Otherwise
/// the metrics registry is replaced.
pub open spec fn is_partial_layout<RuntimeApi, Executor>(
    before: Configuration,
    after: Configuration,
    r: Result<Assembly<PartialComponents<RuntimeApi, Executor>>, ServiceError>,
) -> bool {
    &&& r is Err <==> before.keystore_remote is Some
    &&& r is Err ==> {
        &&& r->Err_0.says(remote_keystores_are_not_supported())
        &&& after == before
    }
    &&& r is Ok ==> {
        &&& crate::metrics::registry_replaced(before, after)
        &&& r->Ok_0.steps@ == partial_steps(before.role.authority, before.spec_registry())
        &&& is_partial_components(r->Ok_0.parts)
    }
}

/// Whether `r` is what laying out a full node gives.
///
/// A remote keystore is turned down: there is an error exactly if one is asked
/// for, always in the same words. Otherwise the steps are those of a full node,
/// and its task manager, client and RPC handlers are handed over.
pub open spec fn is_full_layout<RuntimeApi, Executor>(
    config: Configuration,
    authority_discovery_disabled: bool,
    r: Result<Node<(Component, FullClient<RuntimeApi, Executor>, Component)>, ServiceError>,
) -> bool {
    &&& r is Err <==> config.keystore_remote is Some
    &&& r is Err ==> r->Err_0.says(remote_keystores_are_not_supported())
    &&& r is Ok ==> {
        &&& crate::metrics::registry_replaced(config, r->Ok_0.config)
        &&& r->Ok_0.steps@ == full_steps(config, authority_discovery_disabled)
        &&& r->Ok_0.parts.0 == Component::TaskManager
        &&& r->Ok_0.parts.1.component == Component::Client
        &&& r->Ok_0.parts.2 == Component::RpcHandlers
    }
}

/// Whether `r` is what laying out chain operations gives, where `before` is the
/// configuration that is given and `after` what becomes of it.
///
/// Keys are kept in memory in any case. A remote keystore is turned down, always in
/// the same words. Otherwise the metrics registry is replaced, and the client, the
/// backend, the import queue and the task manager are handed over.
pub open spec fn is_chain_ops_layout<Runtime, Dispatch>(
    before: Configuration,
    after: Configuration,
    r: Result<
        Assembly<(FullClient<Runtime, Dispatch>, Component, Component, Component)>,
        ServiceError,
    >,
) -> bool {
    &&& r is Err <==> before.keystore_remote is Some
    &&& r is Err ==> {
        &&& r->Err_0.says(remote_keystores_are_not_supported())
        &&& after == in_memory(before)
    }
    &&& r is Ok ==> {
        &&& crate::metrics::registry_replaced(in_memory(before), after)
        &&& r->Ok_0.steps@ == partial_steps(before.role.authority, before.spec_registry())
        &&& r->Ok_0.parts.0.component == Component::Client
        &&& r->Ok_0.parts.1 == Component::Backend
        &&& r->Ok_0.parts.2 == Component::ImportQueue
        &&& r->Ok_0.parts.3 == Component::TaskManager
    }
}

/// Whether `r` is what laying out a light node gives: never an error, the steps of a
/// light node, and its task manager, RPC handlers and notifier of telemetry
/// connections handed over.
pub open spec fn is_light_layout(
    config: Configuration,
    r: Result<Node<(Component, Component, Component)>, ServiceError>,
) -> bool {
    &&& r is Ok
    &&& crate::metrics::registry_replaced(config, r->Ok_0.config)
    &&& r->Ok_0.steps@ == light_steps(config)
    &&& r->Ok_0.parts == (
        Component::TaskManager,
        Component::RpcHandlers,
        Component::TelemetryConnectionNotifier,
    )
}

/// The steps that a layout gives: none where it is an error.
pub open spec fn laid_out_steps<T>(r: Result<Node<T>, ServiceError>) -> Seq<Action> {
    match r {
        Ok(node) => node.steps@,
        Err(_) => seq![],
    }
}

/// The configuration with its keys kept in memory.
pub open spec fn in_memory(config: Configuration) -> Configuration {
    Configuration { keystore: KeystoreConfig::InMemory, ..config }
}

/// The steps that make the basic parts of a full node.
pub open spec fn full_basic_steps(is_authority: bool, registry: Option<Component>) -> Seq<Action> {
    seq![
        Action::CreateInherentDataProviders,
        Action::CreateFullParts { config: Component::Configuration },
        Action::SelectLongestChain { backend: Component::Backend },
        Action::CreateFullPool {
            config: Component::Configuration,
            is_authority,
            prometheus_registry: registry,
            spawner: Component::TaskManager,
            client: Component::Client,
        },
    ]
}

/// The steps that make the block import of finality, inside that of Ethereum
/// indexing, inside that of block production, and the import queue in front.
pub open spec fn full_import_steps(registry: Option<Component>) -> Seq<Action> {
    seq![
        Action::CreateGrandpaBlockImport {
            client: Component::Client,
            genesis_authorities: Component::Client,
            select_chain: Component::SelectChain,
            authority_set_hard_forks: Some(0),
        },
        Action::CreateFrontierBlockImport {
            inner: Component::GrandpaBlockImport,
            client: Component::Client,
            enabled: true,
        },
        Action::ReadBabeConfig { client: Component::Client },
        Action::CreateBabeBlockImport {
            config: Component::BabeConfig,
            inner: Component::FrontierBlockImport,
            client: Component::Client,
        },
        Action::CreateImportQueue {
            babe_link: Component::BabeLink,
            block_import: Component::BabeBlockImport,
            justification_import: Some(Component::GrandpaBlockImport),
            client: Component::Client,
            select_chain: Component::SelectChain,
            inherent_data_providers: Component::InherentDataProviders,
            spawner: Component::TaskManager,
            prometheus_registry: registry,
            can_author_with: CanAuthorWith::NativeVersion { client: Component::Client },
        },
    ]
}

/// The steps that make what the RPC extensions of a full node hold on to.
pub open spec fn full_rpc_steps() -> Seq<Action> {
    seq![
        Action::OpenJustificationStream { grandpa_link: Component::GrandpaLink },
        Action::ShareAuthoritySet { grandpa_link: Component::GrandpaLink },
        Action::CreateVoterState,
        Action::CreateFinalityProofProvider {
            backend: Component::Backend,
            shared_authority_set: Some(Component::SharedAuthoritySet),
        },
        Action::CopyBabeConfig { babe_link: Component::BabeLink },
        Action::ShareEpochChanges { babe_link: Component::BabeLink },
        Action::CreateSubscriptionTaskExecutor { spawner: Component::TaskManager },
        Action::CopyChainSpec { config: Component::Configuration },
    ]
}

/// The steps that full nodes and chain operations have in common.
pub open spec fn partial_steps(is_authority: bool, registry: Option<Component>) -> Seq<Action> {
    full_basic_steps(is_authority, registry) + full_import_steps(registry) + full_rpc_steps()
}

/// The steps that prepare the network's configuration and build the network of a
/// full node.
pub open spec fn full_network_steps(cli: bool) -> Seq<Action> {
    seq![
        Action::AddPeersSet { config: Component::Configuration, set: PeersSet::Grandpa },
    ] + (if cli {
        seq![
            Action::AddWarpSyncProtocol {
                config: Component::Configuration,
                spawner: Component::TaskManager,
                backend: Component::Backend,
            },
        ]
    } else {
        seq![]
    }) + seq![
        Action::BuildNetwork {
            config: Component::Configuration,
            client: Component::Client,
            transaction_pool: Component::TransactionPool,
            spawner: Component::TaskManager,
            import_queue: Component::ImportQueue,
            on_demand: None,
            block_announce_validator_builder: None,
        },
    ]
}

/// The step that starts the offchain workers, if they run.
pub open spec fn offchain_worker_steps(enabled: bool) -> Seq<Action> {
    if enabled {
        seq![
            Action::BuildOffchainWorkers {
                config: Component::Configuration,
                backend: Component::Backend,
                spawner: Component::TaskManager,
                client: Component::Client,
                network: Component::Network,
            },
        ]
    } else {
        seq![]
    }
}

/// The step that spawns the tasks of a full node. Its RPC extensions are created
/// for each transport, and know the node's role and network.
pub open spec fn spawn_full_tasks(is_authority: bool) -> Action {
    Action::SpawnTasks {
        config: Component::Configuration,
        backend: Component::Backend,
        client: Component::Client,
        keystore: Component::KeystoreContainer,
        network: Component::Network,
        rpc_extensions: RpcExtensions::PerTransport(
            NodeRpcExtensionsBuilder {
                builder: spec_rpc_extensions_builder(),
                is_authority,
                network: Component::Network,
            },
        ),
        transaction_pool: Component::TransactionPool,
        task_manager: Component::TaskManager,
        on_demand: None,
        remote_blockchain: None,
        telemetry_span: Component::TelemetrySpan,
        network_status_sinks: Component::NetworkStatusSinks,
        system_rpc_tx: Component::SystemRpcTx,
    }
}

/// The steps that set an authority to authoring blocks.
pub open spec fn authoring_steps(
    is_authority: bool,
    force_authoring: bool,
    registry: Option<Component>,
) -> Seq<Action> {
    if is_authority {
        seq![
            Action::CreateProposer {
                spawner: Component::TaskManager,
                client: Component::Client,
                transaction_pool: Component::TransactionPool,
                prometheus_registry: registry,
            },
            Action::StartBabe {
                babe: BabeParams {
                    keystore: Component::KeystoreContainer,
                    client: Component::Client,
                    select_chain: Component::SelectChain,
                    block_import: Component::BabeBlockImport,
                    env: Component::Proposer,
                    sync_oracle: Component::Network,
                    inherent_data_providers: Component::InherentDataProviders,
                    force_authoring,
                    backoff_authoring_blocks: Some(BackoffAuthoringBlocks::OnFinalizedHeadLagging),
                    babe_link: Component::BabeLink,
                    can_author_with: CanAuthorWith::NativeVersion { client: Component::Client },
                },
            },
            Action::SpawnEssentialBlocking {
                task_manager: Component::TaskManager,
                name: "babe",
                task: Component::BabeTask,
            },
        ]
    } else {
        seq![]
    }
}

/// How the finality voter of a node behaves: a second of gossip, a justification
/// at least every 512 blocks, no mere observing, and keys for authorities only.
pub open spec fn spec_grandpa_config(config: Configuration) -> GrandpaConfig {
    GrandpaConfig {
        gossip_duration_millis: 1000,
        justification_period: 512,
        name: Some(config.network.node_name),
        observer_enabled: false,
        keystore: if config.role.authority {
            Some(Component::KeystoreContainer)
        } else {
            None
        },
        is_authority: config.role.network_authority,
    }
}

/// The steps that run the finality voter, unless the node stays out of it.
pub open spec fn finality_steps(config: Configuration) -> Seq<Action> {
    if config.disable_grandpa {
        seq![]
    } else {
        seq![
            Action::RunGrandpaVoter {
                grandpa: GrandpaParams {
                    config: spec_grandpa_config(config),
                    link: Component::GrandpaLink,
                    network: Component::Network,
                    telemetry_on_connect: Component::TelemetryConnectionNotifier,
                    voting_rule: VotingRule::Default,
                    prometheus_registry: config.spec_registry(),
                    shared_voter_state: Component::SharedVoterState,
                },
            },
            Action::SpawnEssentialBlocking {
                task_manager: Component::TaskManager,
                name: "grandpa-voter",
                task: Component::GrandpaVoter,
            },
        ]
    }
}

/// The steps that let an authority be found and find the others, unless that is
/// switched off.
pub open spec fn authority_discovery_steps(
    is_authority: bool,
    disabled: bool,
    registry: Option<Component>,
) -> Seq<Action> {
    if is_authority && !disabled {
        seq![
            Action::OpenDhtEventStream { network: Component::Network, name: "authority-discovery" },
            Action::CreateAuthorityDiscovery {
                client: Component::Client,
                network: Component::Network,
                dht_event_stream: Component::DhtEventStream,
                role: AuthorityDiscoveryRole::PublishAndDiscover {
                    keystore: Component::KeystoreContainer,
                },
                prometheus_registry: registry,
            },
            Action::Spawn {
                task_manager: Component::TaskManager,
                name: "authority-discovery-worker",
                task: Component::AuthorityDiscoveryWorker,
            },
        ]
    } else {
        seq![]
    }
}

/// The step that starts the network.
pub open spec fn start_network() -> Action {
    Action::StartNetwork { starter: Component::NetworkStarter }
}

/// The steps that put a full node together and start it.
pub open spec fn full_steps(
    config: Configuration,
    authority_discovery_disabled: bool,
) -> Seq<Action> {
    partial_steps(config.role.authority, config.spec_registry()) + full_network_steps(config.cli)
        + offchain_worker_steps(config.offchain_worker.enabled) + seq![
        spawn_full_tasks(config.role.authority),
    ] + authoring_steps(config.role.authority, config.force_authoring, config.spec_registry())
        + finality_steps(config) + authority_discovery_steps(
        config.role.authority,
        authority_discovery_disabled,
        config.spec_registry(),
    ) + seq![start_network()]
}

/// The steps that make the basic parts of a light node, and tell its network of
/// the peers of finality.
pub open spec fn light_basic_steps(registry: Option<Component>) -> Seq<Action> {
    seq![
        Action::CreateLightParts { config: Component::Configuration },
        Action::AddPeersSet { config: Component::Configuration, set: PeersSet::Grandpa },
        Action::SelectLongestChain { backend: Component::Backend },
        Action::CreateLightPool {
            config: Component::Configuration,
            prometheus_registry: registry,
            spawner: Component::TaskManager,
            client: Component::Client,
            fetcher: Component::OnDemand,
        },
    ]
}

/// The steps that make the block import of finality inside that of block
/// production, an import queue in front that never authors, and the network of a
/// light node.
pub open spec fn light_import_steps(registry: Option<Component>) -> Seq<Action> {
    seq![
        Action::CreateGrandpaBlockImport {
            client: Component::Client,
            genesis_authorities: Component::Client,
            select_chain: Component::SelectChain,
            authority_set_hard_forks: None,
        },
        Action::ReadBabeConfig { client: Component::Client },
        Action::CreateBabeBlockImport {
            config: Component::BabeConfig,
            inner: Component::GrandpaBlockImport,
            client: Component::Client,
        },
        Action::CreateInherentDataProviders,
        Action::CreateImportQueue {
            babe_link: Component::BabeLink,
            block_import: Component::BabeBlockImport,
            justification_import: Some(Component::GrandpaBlockImport),
            client: Component::Client,
            select_chain: Component::SelectChain,
            inherent_data_providers: Component::InherentDataProviders,
            spawner: Component::TaskManager,
            prometheus_registry: registry,
            can_author_with: CanAuthorWith::Never,
        },
        Action::BuildNetwork {
            config: Component::Configuration,
            client: Component::Client,
            transaction_pool: Component::TransactionPool,
            spawner: Component::TaskManager,
            import_queue: Component::ImportQueue,
            on_demand: Some(Component::OnDemand),
            block_announce_validator_builder: None,
        },
    ]
}

/// The steps of a light node past its network and offchain workers: one RPC
/// extension for every transport, the tasks of the node, and the start of the
/// network.
pub open spec fn light_task_steps() -> Seq<Action> {
    seq![
        Action::CreateLightRpc {
            deps: LightDeps {
                remote_blockchain: Component::Backend,
                fetcher: Component::OnDemand,
                client: Component::Client,
                pool: Component::TransactionPool,
            },
        },
        Action::SpawnTasks {
            config: Component::Configuration,
            backend: Component::Backend,
            client: Component::Client,
            keystore: Component::KeystoreContainer,
            network: Component::Network,
            rpc_extensions: RpcExtensions::Shared(Component::RpcExtension),
            transaction_pool: Component::TransactionPool,
            task_manager: Component::TaskManager,
            on_demand: Some(Component::OnDemand),
            remote_blockchain: Some(Component::Backend),
            telemetry_span: Component::TelemetrySpan,
            network_status_sinks: Component::NetworkStatusSinks,
            system_rpc_tx: Component::SystemRpcTx,
        },
        start_network(),
    ]
}

/// The steps that put a light node together and start it.
pub open spec fn light_steps(config: Configuration) -> Seq<Action> {
    light_basic_steps(config.spec_registry()) + light_import_steps(
        config.spec_registry(),
    ) + offchain_worker_steps(
        config.offchain_worker.enabled,
    ) + light_task_steps()
}

/// Lays out the parts that full nodes and chain operations have in common.
///
/// A remote keystore is turned down, and then nothing is laid out and the
/// configuration is left alone. Otherwise the metrics registry is replaced.
pub fn new_partial<RuntimeApi, Executor>(config: &mut Configuration) -> (r: Result<
    Assembly<PartialComponents<RuntimeApi, Executor>>,
    ServiceError,
>) where
    Executor: NativeExecutionDispatch,
    RuntimeApi: ConstructRuntimeApi<OpaqueBlock, FullClient<RuntimeApi, Executor>>,
    RuntimeApi::RuntimeApi: RuntimeApiCollection<StateBackend = FullState>,

    ensures
        is_partial_layout(*old(config), *final(config), r),
{
    if config.keystore_remote.is_some() {
        return Err(ServiceError::Other("Remote Keystores are not supported.".to_owned()));
    }
    match set_prometheus_registry(config) {
        Ok(()) => {},
        Err(error) => {
            return Err(error);
        },
    }
    let registry = config.registry();
    let mut steps: Vec<Action> = Vec::new();
    steps.push(Action::CreateInherentDataProviders);
    steps.push(Action::CreateFullParts { config: Component::Configuration });
    steps.push(Action::SelectLongestChain { backend: Component::Backend });
    steps.push(
        Action::CreateFullPool {
            config: Component::Configuration,
            is_authority: config.role.is_authority(),
            prometheus_registry: registry,
            spawner: Component::TaskManager,
            client: Component::Client,
        },
    );
    steps.push(
        Action::CreateGrandpaBlockImport {
            client: Component::Client,
            genesis_authorities: Component::Client,
            select_chain: Component::SelectChain,
            authority_set_hard_forks: Some(0),
        },
    );
    steps.push(
        Action::CreateFrontierBlockImport {
            inner: Component::GrandpaBlockImport,
            client: Component::Client,
            enabled: true,
        },
    );
    steps.push(Action::ReadBabeConfig { client: Component::Client });
    steps.push(
        Action::CreateBabeBlockImport {
            config: Component::BabeConfig,
            inner: Component::FrontierBlockImport,
            client: Component::Client,
        },
    );
    steps.push(
        Action::CreateImportQueue {
            babe_link: Component::BabeLink,
            block_import: Component::BabeBlockImport,
            justification_import: Some(Component::GrandpaBlockImport),
            client: Component::Client,
            select_chain: Component::SelectChain,
            inherent_data_providers: Component::InherentDataProviders,
            spawner: Component::TaskManager,
            prometheus_registry: registry,
            can_author_with: CanAuthorWith::NativeVersion { client: Component::Client },
        },
    );
    steps.push(Action::OpenJustificationStream { grandpa_link: Component::GrandpaLink });
    steps.push(Action::ShareAuthoritySet { grandpa_link: Component::GrandpaLink });
    steps.push(Action::CreateVoterState);
    steps.push(
        Action::CreateFinalityProofProvider {
            backend: Component::Backend,
            shared_authority_set: Some(Component::SharedAuthoritySet),
        },
    );
    steps.push(Action::CopyBabeConfig { babe_link: Component::BabeLink });
    steps.push(Action::ShareEpochChanges { babe_link: Component::BabeLink });
    steps.push(Action::CreateSubscriptionTaskExecutor { spawner: Component::TaskManager });
    steps.push(Action::CopyChainSpec { config: Component::Configuration });
    assert(steps@ =~= partial_steps(old(config).role.authority, old(config).spec_registry()));
    let rpc_extensions_builder = RpcExtensionsBuilder {
        client: Component::Client,
        keystore: Component::KeystoreContainer,
        transaction_pool: Component::TransactionPool,
        select_chain: Component::SelectChain,
        chain_spec: Component::ChainSpec,
        babe_config: Component::LinkedBabeConfig,
        shared_epoch_changes: Component::SharedEpochChanges,
        shared_voter_state: Component::SharedVoterState,
        shared_authority_set: Component::SharedAuthoritySet,
        justification_stream: Component::JustificationStream,
        finality_proof_provider: Component::FinalityProofProvider,
        subscription_task_executor: Component::SubscriptionTaskExecutor,
    };
    let parts = PartialComponents {
        client: FullClient { component: Component::Client, runs: PhantomData },
        backend: Component::Backend,
        task_manager: Component::TaskManager,
        keystore_container: Component::KeystoreContainer,
        select_chain: Component::SelectChain,
        import_queue: Component::ImportQueue,
        transaction_pool: Component::TransactionPool,
        inherent_data_providers: Component::InherentDataProviders,
        rpc_extensions_builder,
        import_setup: (Component::BabeBlockImport, Component::GrandpaLink, Component::BabeLink),
        rpc_setup: Component::SharedVoterState,
        telemetry_span: Component::TelemetrySpan,
    };
    Ok(Assembly { steps, parts })
}

/// Adds the step that starts the offchain workers, if they run.
fn add_offchain_workers(steps: &mut Vec<Action>, enabled: bool)
    ensures
        final(steps)@ == old(steps)@ + offchain_worker_steps(enabled),
{
    if enabled {
        steps.push(
            Action::BuildOffchainWorkers {
                config: Component::Configuration,
                backend: Component::Backend,
                spawner: Component::TaskManager,
                client: Component::Client,
                network: Component::Network,
            },
        );
    }
}

/// Adds the steps that prepare the network's configuration and build the network
/// of a full node.
fn add_full_network<RuntimeApi, Executor>(
    steps: &mut Vec<Action>,
    parts: &PartialComponents<RuntimeApi, Executor>,
    cli: bool,
)
    requires
        is_partial_components(*parts),
    ensures
        final(steps)@ == old(steps)@ + full_network_steps(cli),
{
    steps.push(Action::AddPeersSet { config: Component::Configuration, set: PeersSet::Grandpa });
    if cli {
        steps.push(
            Action::AddWarpSyncProtocol {
                config: Component::Configuration,
                spawner: parts.task_manager,
                backend: parts.backend,
            },
        );
    }
    steps.push(
        Action::BuildNetwork {
            config: Component::Configuration,
            client: parts.client.component,
            transaction_pool: parts.transaction_pool,
            spawner: parts.task_manager,
            import_queue: parts.import_queue,
            on_demand: None,
            block_announce_validator_builder: None,
        },
    );
}

/// Adds the step that spawns the tasks of a full node.
fn add_full_tasks<RuntimeApi, Executor>(
    steps: &mut Vec<Action>,
    parts: &PartialComponents<RuntimeApi, Executor>,
    is_authority: bool,
)
    requires
        is_partial_components(*parts),
    ensures
        final(steps)@ == old(steps)@.push(spawn_full_tasks(is_authority)),
{
    let wrap_rpc_extensions_builder = NodeRpcExtensionsBuilder {
        builder: parts.rpc_extensions_builder,
        is_authority,
        network: Component::Network,
    };
    steps.push(
        Action::SpawnTasks {
            config: Component::Configuration,
            backend: parts.backend,
            client: parts.client.component,
            keystore: parts.keystore_container,
            network: Component::Network,
            rpc_extensions: RpcExtensions::PerTransport(wrap_rpc_extensions_builder),
            transaction_pool: parts.transaction_pool,
            task_manager: parts.task_manager,
            on_demand: None,
            remote_blockchain: None,
            telemetry_span: parts.telemetry_span,
            network_status_sinks: Component::NetworkStatusSinks,
            system_rpc_tx: Component::SystemRpcTx,
        },
    );
}

/// Adds the steps that set an authority to authoring blocks.
fn add_authoring<RuntimeApi, Executor>(
    steps: &mut Vec<Action>,
    parts: &PartialComponents<RuntimeApi, Executor>,
    is_authority: bool,
    force_authoring: bool,
    prometheus_registry: Option<Component>,
)
    requires
        is_partial_components(*parts),
    ensures
        final(steps)@ == old(steps)@ + authoring_steps(
            is_authority,
            force_authoring,
            prometheus_registry,
        ),
{
    if is_authority {
        let (block_import, _, babe_link) = parts.import_setup;
        let can_author_with = CanAuthorWith::NativeVersion { client: parts.client.component };
        steps.push(
            Action::CreateProposer {
                spawner: parts.task_manager,
                client: parts.client.component,
                transaction_pool: parts.transaction_pool,
                prometheus_registry,
            },
        );
        let babe = BabeParams {
            keystore: parts.keystore_container,
            client: parts.client.component,
            select_chain: parts.select_chain,
            block_import,
            env: Component::Proposer,
            sync_oracle: Component::Network,
            inherent_data_providers: parts.inherent_data_providers,
            force_authoring,
            backoff_authoring_blocks: Some(BackoffAuthoringBlocks::OnFinalizedHeadLagging),
            babe_link,
            can_author_with,
        };
        steps.push(Action::StartBabe { babe });
        steps.push(
            Action::SpawnEssentialBlocking {
                task_manager: parts.task_manager,
                name: "babe",
                task: Component::BabeTask,
            },
        );
    }
}

/// Adds the steps that run the finality voter, unless the node stays out of it.
fn add_finality<RuntimeApi, Executor>(
    steps: &mut Vec<Action>,
    parts: &PartialComponents<RuntimeApi, Executor>,
    config: &Configuration,
)
    requires
        is_partial_components(*parts),
    ensures
        final(steps)@ == old(steps)@ + finality_steps(*config),
{
    let keystore = if config.role.is_authority() {
        Some(parts.keystore_container)
    } else {
        None
    };
    let grandpa_config = GrandpaConfig {
        gossip_duration_millis: 1000,
        justification_period: 512,
        name: Some(config.network.node_name.clone()),
        observer_enabled: false,
        keystore,
        is_authority: config.role.is_network_authority(),
    };
    let enable_grandpa = !config.disable_grandpa;

    if enable_grandpa {
        let (_, link_half, _) = parts.import_setup;
        let grandpa = GrandpaParams {
            config: grandpa_config,
            link: link_half,
            network: Component::Network,
            telemetry_on_connect: Component::TelemetryConnectionNotifier,
            voting_rule: VotingRule::Default,
            prometheus_registry: config.registry(),
            shared_voter_state: parts.rpc_setup,
        };
        steps.push(Action::RunGrandpaVoter { grandpa });
        steps.push(
            Action::SpawnEssentialBlocking {
                task_manager: parts.task_manager,
                name: "grandpa-voter",
                task: Component::GrandpaVoter,
            },
        );
    }
}

/// Adds the steps that let an authority be found and find the others, unless that
/// is switched off.
fn add_authority_discovery<RuntimeApi, Executor>(
    steps: &mut Vec<Action>,
    parts: &PartialComponents<RuntimeApi, Executor>,
    is_authority: bool,
    disabled: bool,
    prometheus_registry: Option<Component>,
)
    requires
        is_partial_components(*parts),
    ensures
        final(steps)@ == old(steps)@ + authority_discovery_steps(
            is_authority,
            disabled,
            prometheus_registry,
        ),
{
    if is_authority && !disabled {
        let role = AuthorityDiscoveryRole::PublishAndDiscover {
            keystore: parts.keystore_container,
        };
        steps.push(
            Action::OpenDhtEventStream { network: Component::Network, name: "authority-discovery" },
        );
        steps.push(
            Action::CreateAuthorityDiscovery {
                client: parts.client.component,
                network: Component::Network,
                dht_event_stream: Component::DhtEventStream,
                role,
                prometheus_registry,
            },
        );
        steps.push(
            Action::Spawn {
                task_manager: parts.task_manager,
                name: "authority-discovery-worker",
                task: Component::AuthorityDiscoveryWorker,
            },
        );
    }
}

/// Lays out a full node.
pub fn new_full<RuntimeApi, Executor>(
    mut config: Configuration,
    authority_discovery_disabled: bool,
) -> (r: Result<
    Node<(Component, FullClient<RuntimeApi, Executor>, Component)>,
    ServiceError,
>) where
    Executor: NativeExecutionDispatch,
    RuntimeApi: ConstructRuntimeApi<OpaqueBlock, FullClient<RuntimeApi, Executor>>,
    RuntimeApi::RuntimeApi: RuntimeApiCollection<StateBackend = FullState>,

    ensures
        is_full_layout(config, authority_discovery_disabled, r),
{
    let ghost given = config;
    let is_authority = config.role.is_authority();
    let (mut steps, parts) = match new_partial::<RuntimeApi, Executor>(&mut config) {
        Ok(Assembly { steps, parts }) => (steps, parts),
        Err(error) => {
            return Err(error);
        },
    };

    if let Some(url) = &config.keystore_remote {
        match hook_remote_keystore(url) {
            // No remote keystore can be built, so there is never one to hook up.
            Ok(_keystore) => {
                assert(false);
            },
            Err(error) => {
                return Err(error);
            },
        }
    }
    let prometheus_registry = config.registry();

    add_full_network(&mut steps, &parts, config.cli);
    add_offchain_workers(&mut steps, config.offchain_worker.enabled);
    add_full_tasks(&mut steps, &parts, is_authority);
    add_authoring(&mut steps, &parts, is_authority, config.force_authoring, prometheus_registry);
    add_finality(&mut steps, &parts, &config);
    add_authority_discovery(
        &mut steps,
        &parts,
        is_authority,
        authority_discovery_disabled,
        prometheus_registry,
    );
    steps.push(Action::StartNetwork { starter: Component::NetworkStarter });
    assert(steps@ =~= full_steps(given, authority_discovery_disabled));

    let handed_over = (parts.task_manager, parts.client, Component::RpcHandlers);
    Ok(Node { config, steps, parts: handed_over })
}

/// Lays out a light node.
pub fn new_light<RuntimeApi, Executor>(mut config: Configuration) -> (r: Result<
    Node<(Component, Component, Component)>,
    ServiceError,
>) where
    Executor: NativeExecutionDispatch,
    RuntimeApi: ConstructRuntimeApi<OpaqueBlock, LightClient<RuntimeApi, Executor>>,
    RuntimeApi::RuntimeApi: RuntimeApiCollection<StateBackend = LightState>,

    ensures
        r is Ok,
        crate::metrics::registry_replaced(config, r->Ok_0.config),
        r->Ok_0.steps@ == light_steps(config),
        r->Ok_0.parts == (
            Component::TaskManager,
            Component::RpcHandlers,
            Component::TelemetryConnectionNotifier,
        ),
{
    let ghost given = config;
    match set_prometheus_registry(&mut config) {
        Ok(()) => {},
        Err(error) => {
            return Err(error);
        },
    }
    let registry = config.registry();
    let mut steps: Vec<Action> = Vec::new();
    steps.push(Action::CreateLightParts { config: Component::Configuration });
    steps.push(Action::AddPeersSet { config: Component::Configuration, set: PeersSet::Grandpa });
    steps.push(Action::SelectLongestChain { backend: Component::Backend });
    steps.push(
        Action::CreateLightPool {
            config: Component::Configuration,
            prometheus_registry: registry,
            spawner: Component::TaskManager,
            client: Component::Client,
            fetcher: Component::OnDemand,
        },
    );
    steps.push(
        Action::CreateGrandpaBlockImport {
            client: Component::Client,
            genesis_authorities: Component::Client,
            select_chain: Component::SelectChain,
            authority_set_hard_forks: None,
        },
    );
    steps.push(Action::ReadBabeConfig { client: Component::Client });
    steps.push(
        Action::CreateBabeBlockImport {
            config: Component::BabeConfig,
            inner: Component::GrandpaBlockImport,
            client: Component::Client,
        },
    );
    steps.push(Action::CreateInherentDataProviders);
    steps.push(
        Action::CreateImportQueue {
            babe_link: Component::BabeLink,
            block_import: Component::BabeBlockImport,
            justification_import: Some(Component::GrandpaBlockImport),
            client: Component::Client,
            select_chain: Component::SelectChain,
            inherent_data_providers: Component::InherentDataProviders,
            spawner: Component::TaskManager,
            prometheus_registry: registry,
            can_author_with: CanAuthorWith::Never,
        },
    );
    steps.push(
        Action::BuildNetwork {
            config: Component::Configuration,
            client: Component::Client,
            transaction_pool: Component::TransactionPool,
            spawner: Component::TaskManager,
            import_queue: Component::ImportQueue,
            on_demand: Some(Component::OnDemand),
            block_announce_validator_builder: None,
        },
    );
    assert(steps@ =~= light_basic_steps(given.spec_registry()) + light_import_steps(
        given.spec_registry(),
    ));

    add_offchain_workers(&mut steps, config.offchain_worker.enabled);

    let light_deps = LightDeps {
        remote_blockchain: Component::Backend,
        fetcher: Component::OnDemand,
        client: Component::Client,
        pool: Component::TransactionPool,
    };
    steps.push(Action::CreateLightRpc { deps: light_deps });
    steps.push(
        Action::SpawnTasks {
            config: Component::Configuration,
            backend: Component::Backend,
            client: Component::Client,
            keystore: Component::KeystoreContainer,
            network: Component::Network,
            rpc_extensions: RpcExtensions::Shared(Component::RpcExtension),
            transaction_pool: Component::TransactionPool,
            task_manager: Component::TaskManager,
            on_demand: Some(Component::OnDemand),
            remote_blockchain: Some(Component::Backend),
            telemetry_span: Component::TelemetrySpan,
            network_status_sinks: Component::NetworkStatusSinks,
            system_rpc_tx: Component::SystemRpcTx,
        },
    );
    steps.push(Action::StartNetwork { starter: Component::NetworkStarter });
    assert(steps@ =~= light_steps(given));

    let parts = (
        Component::TaskManager,
        Component::RpcHandlers,
        Component::TelemetryConnectionNotifier,
    );
    Ok(Node { config, steps, parts })
}

/// Builds a new object suitable for chain operations.
///
/// Keys are kept in memory from then on. What is handed over is the client, the
/// backend, the import queue and the task manager.
pub fn new_chain_ops<Runtime, Dispatch>(config: &mut Configuration) -> (r: Result<
    Assembly<(FullClient<Runtime, Dispatch>, Component, Component, Component)>,
    ServiceError,
>) where
    Dispatch: NativeExecutionDispatch,
    Runtime: ConstructRuntimeApi<OpaqueBlock, FullClient<Runtime, Dispatch>>,
    Runtime::RuntimeApi: RuntimeApiCollection<StateBackend = FullState>,

    ensures
        r is Err <==> old(config).keystore_remote is Some,
        r is Err ==> {
            &&& r->Err_0.says(remote_keystores_are_not_supported())
            &&& *final(config) == in_memory(*old(config))
        },
        r is Ok ==> {
            &&& crate::metrics::registry_replaced(in_memory(*old(config)), *final(config))
            &&& r->Ok_0.steps@ == partial_steps(
                old(config).role.authority,
                old(config).spec_registry(),
            )
            &&& r->Ok_0.parts.0.component == Component::Client
            &&& r->Ok_0.parts.1 == Component::Backend
            &&& r->Ok_0.parts.2 == Component::ImportQueue
            &&& r->Ok_0.parts.3 == Component::TaskManager
        },
{
    config.keystore = KeystoreConfig::InMemory;
    match new_partial::<Runtime, Dispatch>(config) {
        Ok(Assembly { steps, parts }) => {
            let PartialComponents { client, backend, import_queue, task_manager, .. } = parts;
            Ok(Assembly { steps, parts: (client, backend, import_queue, task_manager) })
        },
        Err(error) => Err(error),
    }
}

/// Hands on a client of which no more is known than that it is a [`DRMLClient`].
fn as_drml_client<Store, Runtime, Client>(client: Client) -> (r: Client) where
    Store: crate::runtime::Backend<OpaqueBlock>,
    Runtime: ConstructRuntimeApi<OpaqueBlock, Client>,
    Client: DRMLClient<OpaqueBlock, Store, Runtime>,

    ensures
        r == client,
{
    client
}

/// Create a new DRML service for a full node.
///
/// What is handed over is the task manager, the client and the RPC handlers. A
/// remote keystore is turned down.
pub fn hyperspace_new_full(config: Configuration, authority_discovery_disabled: bool) -> (r: Result<
    Node<(Component, FullClient<HyperspaceRuntimeApi, HyperspaceExecutor>, Component)>,
    ServiceError,
>)
    ensures
        is_full_layout(config, authority_discovery_disabled, r),
{
    match new_full::<HyperspaceRuntimeApi, HyperspaceExecutor>(
        config,
        authority_discovery_disabled,
    ) {
        Ok(Node { config, steps, parts }) => {
            let (components, client, rpc_handlers) = parts;
            let client = as_drml_client::<
                FullBackend,
                HyperspaceRuntimeApi,
                FullClient<HyperspaceRuntimeApi, HyperspaceExecutor>,
            >(client);
            Ok(Node { config, steps, parts: (components, client, rpc_handlers) })
        },
        Err(error) => Err(error),
    }
}

/// Create a new DRML service for a light client.
///
/// What is handed over is the task manager, the RPC handlers and the notifier of
/// telemetry connections. Nothing in the configuration is turned down.
pub fn hyperspace_new_light(config: Configuration) -> (r: Result<
    Node<(Component, Component, Component)>,
    ServiceError,
>)
    ensures
        r is Ok,
        crate::metrics::registry_replaced(config, r->Ok_0.config),
        r->Ok_0.steps@ == light_steps(config),
        r->Ok_0.parts == (
            Component::TaskManager,
            Component::RpcHandlers,
            Component::TelemetryConnectionNotifier,
        ),
{
    new_light::<HyperspaceRuntimeApi, HyperspaceExecutor>(config)
}

} // verus!
