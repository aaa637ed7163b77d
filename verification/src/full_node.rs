//! What a full node is: which steps it takes, in which order, and with what.

use crate::action::{
    Action, AuthorityDiscoveryRole, BackoffAuthoringBlocks, CanAuthorWith, PeersSet, VotingRule,
};
use crate::component::Component;
use crate::config::Configuration;
use crate::error::ServiceError;
use crate::laws::{lemma_some_full, some_step};
use crate::metrics::{registry_labels, registry_prefix};
use crate::rpc::RpcExtensions;
use crate::runtime::FullClient;
use crate::service::{full_steps, is_full_layout, Node};
use vstd::prelude::*;

verus! {

/// Whether each of `steps` comes at a later place than the one before, all of them
/// from `low` up to but not including `high`.
pub open spec fn ascends(
    steps: Seq<Action>,
    place: spec_fn(Action) -> int,
    low: int,
    high: int,
) -> bool {
    &&& forall|i: int| 0 <= i < steps.len() ==> low <= place(#[trigger] steps[i]) < high
    &&& forall|i: int, j: int|
        0 <= i < j < steps.len() ==> place(#[trigger] steps[i]) < place(#[trigger] steps[j])
}

/// Two runs of steps ascend in turn if the second begins where the first ends.
pub proof fn lemma_ascends_concat(
    first: Seq<Action>,
    second: Seq<Action>,
    place: spec_fn(Action) -> int,
    low: int,
    middle: int,
    high: int,
)
    requires
        ascends(first, place, low, middle),
        ascends(second, place, middle, high),
        low <= middle <= high,
    ensures
        ascends(first + second, place, low, high),
{
    let both = first + second;
    assert forall|i: int| 0 <= i < both.len() implies low <= place(#[trigger] both[i]) < high by {
        if i < first.len() {
            assert(both[i] == first[i]);
        } else {
            assert(both[i] == second[i - first.len()]);
        }
    }
    assert forall|i: int, j: int| 0 <= i < j < both.len() implies place(#[trigger] both[i]) < place(
        #[trigger] both[j],
    ) by {
        if j < first.len() {
            assert(both[i] == first[i] && both[j] == first[j]);
        } else if i < first.len() {
            assert(both[i] == first[i] && both[j] == second[j - first.len()]);
        } else {
            assert(both[i] == second[i - first.len()] && both[j] == second[j - first.len()]);
        }
    }
}

/// Where each step of a full node has its place.
spec fn full_place() -> spec_fn(Action) -> int {
    |action: Action|
        match action {
            Action::CreateInherentDataProviders => 0,
            Action::CreateFullParts { .. } => 1,
            Action::SelectLongestChain { .. } => 2,
            Action::CreateFullPool { .. } => 3,
            Action::CreateGrandpaBlockImport { .. } => 4,
            Action::CreateFrontierBlockImport { .. } => 5,
            Action::ReadBabeConfig { .. } => 6,
            Action::CreateBabeBlockImport { .. } => 7,
            Action::CreateImportQueue { .. } => 8,
            Action::OpenJustificationStream { .. } => 9,
            Action::ShareAuthoritySet { .. } => 10,
            Action::CreateVoterState => 11,
            Action::CreateFinalityProofProvider { .. } => 12,
            Action::CopyBabeConfig { .. } => 13,
            Action::ShareEpochChanges { .. } => 14,
            Action::CreateSubscriptionTaskExecutor { .. } => 15,
            Action::CopyChainSpec { .. } => 16,
            Action::AddPeersSet { .. } => 17,
            Action::AddWarpSyncProtocol { .. } => 18,
            Action::BuildNetwork { .. } => 19,
            Action::BuildOffchainWorkers { .. } => 20,
            Action::SpawnTasks { .. } => 21,
            Action::CreateProposer { .. } => 22,
            Action::StartBabe { .. } => 23,
            Action::SpawnEssentialBlocking { task: Component::BabeTask, .. } => 24,
            Action::RunGrandpaVoter { .. } => 25,
            Action::SpawnEssentialBlocking { task: Component::GrandpaVoter, .. } => 26,
            Action::OpenDhtEventStream { .. } => 27,
            Action::CreateAuthorityDiscovery { .. } => 28,
            Action::Spawn { .. } => 29,
            Action::StartNetwork { .. } => 30,
            _ => -1,
        }
}

/// The steps of a full node ascend.
proof fn lemma_full_ascends(config: Configuration, authority_discovery_disabled: bool)
    ensures
        ascends(full_steps(config, authority_discovery_disabled), full_place(), 0, 31),
{
    let registry = config.spec_registry();
    let authority = config.role.authority;
    let place = full_place();
    let basic = crate::service::full_basic_steps(authority, registry);
    let import = crate::service::full_import_steps(registry);
    let rpc = crate::service::full_rpc_steps();
    let network = crate::service::full_network_steps(config.cli);
    let offchain = crate::service::offchain_worker_steps(config.offchain_worker.enabled);
    let tasks = seq![crate::service::spawn_full_tasks(authority)];
    let authoring = crate::service::authoring_steps(authority, config.force_authoring, registry);
    let finality = crate::service::finality_steps(config);
    let discovery = crate::service::authority_discovery_steps(
        authority,
        authority_discovery_disabled,
        registry,
    );
    let start = seq![crate::service::start_network()];
    assert(ascends(basic, place, 0, 4));
    assert(ascends(import, place, 4, 9));
    assert(ascends(rpc, place, 9, 17));
    assert(ascends(network, place, 17, 20));
    assert(ascends(offchain, place, 20, 21));
    assert(ascends(tasks, place, 21, 22));
    assert(ascends(authoring, place, 22, 25));
    assert(ascends(finality, place, 25, 27));
    assert(ascends(discovery, place, 27, 30));
    assert(ascends(start, place, 30, 31));
    lemma_ascends_concat(basic, import, place, 0, 4, 9);
    let t2 = basic + import;
    lemma_ascends_concat(t2, rpc, place, 0, 9, 17);
    let t3 = t2 + rpc;
    lemma_ascends_concat(t3, network, place, 0, 17, 20);
    let t4 = t3 + network;
    lemma_ascends_concat(t4, offchain, place, 0, 20, 21);
    let t5 = t4 + offchain;
    lemma_ascends_concat(t5, tasks, place, 0, 21, 22);
    let t6 = t5 + tasks;
    lemma_ascends_concat(t6, authoring, place, 0, 22, 25);
    let t7 = t6 + authoring;
    lemma_ascends_concat(t7, finality, place, 0, 25, 27);
    let t8 = t7 + finality;
    lemma_ascends_concat(t8, discovery, place, 0, 27, 30);
    let t9 = t8 + discovery;
    lemma_ascends_concat(t9, start, place, 0, 30, 31);
}

/// Which places are taken among the steps of a full node.
proof fn lemma_full_places(config: Configuration, authority_discovery_disabled: bool, at: int)
    ensures
        some_step(
            full_steps(config, authority_discovery_disabled),
            |action: Action| full_place()(action) == at,
        ) <==> {
            ||| 0 <= at <= 17
            ||| at == 18 && config.cli
            ||| at == 19
            ||| at == 20 && config.offchain_worker.enabled
            ||| at == 21
            ||| 22 <= at <= 24 && config.role.authority
            ||| 25 <= at <= 26 && !config.disable_grandpa
            ||| 27 <= at <= 29 && config.role.authority && !authority_discovery_disabled
            ||| at == 30
        },
{
    let kind = |action: Action| full_place()(action) == at;
    lemma_some_full(config, authority_discovery_disabled, kind);
    let registry = config.spec_registry();
    let authority = config.role.authority;
    let partial = crate::service::partial_steps(authority, registry);
    let network = crate::service::full_network_steps(config.cli);
    let offchain = crate::service::offchain_worker_steps(config.offchain_worker.enabled);
    let tasks = seq![crate::service::spawn_full_tasks(authority)];
    let authoring = crate::service::authoring_steps(authority, config.force_authoring, registry);
    let finality = crate::service::finality_steps(config);
    let discovery = crate::service::authority_discovery_steps(
        authority,
        authority_discovery_disabled,
        registry,
    );
    let start = seq![crate::service::start_network()];
    if 0 <= at <= 16 {
        assert(kind(partial[at]));
    }
    if at == 17 {
        assert(kind(network[0]));
    }
    if at == 18 && config.cli {
        assert(kind(network[1]));
    }
    if at == 19 {
        assert(kind(network[network.len() - 1]));
    }
    if at == 20 && config.offchain_worker.enabled {
        assert(kind(offchain[0]));
    }
    if at == 21 {
        assert(kind(tasks[0]));
    }
    if 22 <= at <= 24 && authority {
        assert(kind(authoring[at - 22]));
    }
    if 25 <= at <= 26 && !config.disable_grandpa {
        assert(kind(finality[at - 25]));
    }
    if 27 <= at <= 29 && authority && !authority_discovery_disabled {
        assert(kind(discovery[at - 27]));
    }
    if at == 30 {
        assert(kind(start[0]));
    }
}

/// Which steps a full node takes, and in which order. The common parts, the network
/// with the peers of finality, the tasks of every node and the start of the network
/// are there whatever the configuration; warp sync, offchain workers, authoring,
/// voting and discovery are there exactly if the configuration asks for them. Each
/// step is taken once, and in the order of the places below; `at` is any place.
pub proof fn law_full_node_takes_these_steps_in_this_order<RuntimeApi, Executor>(
    config: Configuration,
    authority_discovery_disabled: bool,
    r: Result<Node<(Component, FullClient<RuntimeApi, Executor>, Component)>, ServiceError>,
    at: int,
)
    requires
        is_full_layout(config, authority_discovery_disabled, r),
        r is Ok,
    ensures
        ({
            let steps = r->Ok_0.steps@;
            let place = |action: Action|
                match action {
                    Action::CreateInherentDataProviders => 0,
                    Action::CreateFullParts { .. } => 1,
                    Action::SelectLongestChain { .. } => 2,
                    Action::CreateFullPool { .. } => 3,
                    Action::CreateGrandpaBlockImport { .. } => 4,
                    Action::CreateFrontierBlockImport { .. } => 5,
                    Action::ReadBabeConfig { .. } => 6,
                    Action::CreateBabeBlockImport { .. } => 7,
                    Action::CreateImportQueue { .. } => 8,
                    Action::OpenJustificationStream { .. } => 9,
                    Action::ShareAuthoritySet { .. } => 10,
                    Action::CreateVoterState => 11,
                    Action::CreateFinalityProofProvider { .. } => 12,
                    Action::CopyBabeConfig { .. } => 13,
                    Action::ShareEpochChanges { .. } => 14,
                    Action::CreateSubscriptionTaskExecutor { .. } => 15,
                    Action::CopyChainSpec { .. } => 16,
                    Action::AddPeersSet { .. } => 17,
                    Action::AddWarpSyncProtocol { .. } => 18,
                    Action::BuildNetwork { .. } => 19,
                    Action::BuildOffchainWorkers { .. } => 20,
                    Action::SpawnTasks { .. } => 21,
                    Action::CreateProposer { .. } => 22,
                    Action::StartBabe { .. } => 23,
                    Action::SpawnEssentialBlocking { task: Component::BabeTask, .. } => 24,
                    Action::RunGrandpaVoter { .. } => 25,
                    Action::SpawnEssentialBlocking { task: Component::GrandpaVoter, .. } => 26,
                    Action::OpenDhtEventStream { .. } => 27,
                    Action::CreateAuthorityDiscovery { .. } => 28,
                    Action::Spawn { .. } => 29,
                    Action::StartNetwork { .. } => 30,
                    _ => -1,
                };
            &&& forall|i: int| 0 <= i < steps.len() ==> 0 <= place(#[trigger] steps[i]) <= 30
            &&& forall|i: int, j: int|
                0 <= i < j < steps.len() ==> place(#[trigger] steps[i]) < place(#[trigger] steps[j])
            &&& (exists|i: int| 0 <= i < steps.len() && place(#[trigger] steps[i]) == at) <==> {
                ||| 0 <= at <= 17
                ||| at == 18 && config.cli
                ||| at == 19
                ||| at == 20 && config.offchain_worker.enabled
                ||| at == 21
                ||| 22 <= at <= 24 && config.role.authority
                ||| 25 <= at <= 26 && !config.disable_grandpa
                ||| 27 <= at <= 29 && config.role.authority && !authority_discovery_disabled
                ||| at == 30
            }
        }),
{
    let steps = r->Ok_0.steps@;
    lemma_full_ascends(config, authority_discovery_disabled);
    let place = |action: Action|
        match action {
            Action::CreateInherentDataProviders => 0,
            Action::CreateFullParts { .. } => 1,
            Action::SelectLongestChain { .. } => 2,
            Action::CreateFullPool { .. } => 3,
            Action::CreateGrandpaBlockImport { .. } => 4,
            Action::CreateFrontierBlockImport { .. } => 5,
            Action::ReadBabeConfig { .. } => 6,
            Action::CreateBabeBlockImport { .. } => 7,
            Action::CreateImportQueue { .. } => 8,
            Action::OpenJustificationStream { .. } => 9,
            Action::ShareAuthoritySet { .. } => 10,
            Action::CreateVoterState => 11,
            Action::CreateFinalityProofProvider { .. } => 12,
            Action::CopyBabeConfig { .. } => 13,
            Action::ShareEpochChanges { .. } => 14,
            Action::CreateSubscriptionTaskExecutor { .. } => 15,
            Action::CopyChainSpec { .. } => 16,
            Action::AddPeersSet { .. } => 17,
            Action::AddWarpSyncProtocol { .. } => 18,
            Action::BuildNetwork { .. } => 19,
            Action::BuildOffchainWorkers { .. } => 20,
            Action::SpawnTasks { .. } => 21,
            Action::CreateProposer { .. } => 22,
            Action::StartBabe { .. } => 23,
            Action::SpawnEssentialBlocking { task: Component::BabeTask, .. } => 24,
            Action::RunGrandpaVoter { .. } => 25,
            Action::SpawnEssentialBlocking { task: Component::GrandpaVoter, .. } => 26,
            Action::OpenDhtEventStream { .. } => 27,
            Action::CreateAuthorityDiscovery { .. } => 28,
            Action::Spawn { .. } => 29,
            Action::StartNetwork { .. } => 30,
            _ => -1,
        };
    lemma_full_places(config, authority_discovery_disabled, at);
    let kind = |action: Action| full_place()(action) == at;
    if some_step(steps, kind) {
        let i = choose|i: int| 0 <= i < steps.len() && kind(#[trigger] steps[i]);
        assert(place(steps[i]) == at);
    }
    if exists|i: int| 0 <= i < steps.len() && place(#[trigger] steps[i]) == at {
        let i = choose|i: int| 0 <= i < steps.len() && place(#[trigger] steps[i]) == at;
        assert(kind(steps[i]));
    }
}

/// What each step of a full node is.
#[verifier::opaque]
spec fn full_step(config: Configuration, action: Action) -> bool {
    match action {
        Action::CreateFullPool { is_authority, prometheus_registry, config: pool_config, spawner, client, .. } => {
            &&& is_authority == config.role.authority
            &&& prometheus_registry == (if config.prometheus_config is Some {
                Some(Component::PrometheusRegistry)
            } else {
                None
            })
            &&& pool_config == Component::Configuration
            &&& spawner == Component::TaskManager
            &&& client == Component::Client
        },
        Action::SpawnTasks { rpc_extensions, config: task_config, backend, client, keystore, network, transaction_pool, task_manager, on_demand, remote_blockchain, telemetry_span, network_status_sinks, system_rpc_tx, .. } => {
            &&& rpc_extensions matches RpcExtensions::PerTransport(node) && node.is_authority
                == config.role.authority
            &&& task_config == Component::Configuration
            &&& backend == Component::Backend
            &&& client == Component::Client
            &&& keystore == Component::KeystoreContainer
            &&& network == Component::Network
            &&& transaction_pool == Component::TransactionPool
            &&& task_manager == Component::TaskManager
            &&& on_demand is None
            &&& remote_blockchain is None
            &&& telemetry_span == Component::TelemetrySpan
            &&& network_status_sinks == Component::NetworkStatusSinks
            &&& system_rpc_tx == Component::SystemRpcTx
            &&& rpc_extensions matches RpcExtensions::PerTransport(node)
            &&& node.network == Component::Network
            &&& node.builder.client == Component::Client
            &&& node.builder.keystore == Component::KeystoreContainer
            &&& node.builder.transaction_pool == Component::TransactionPool
            &&& node.builder.select_chain == Component::SelectChain
            &&& node.builder.chain_spec == Component::ChainSpec
            &&& node.builder.babe_config == Component::LinkedBabeConfig
            &&& node.builder.shared_epoch_changes == Component::SharedEpochChanges
            &&& node.builder.shared_voter_state == Component::SharedVoterState
            &&& node.builder.shared_authority_set == Component::SharedAuthoritySet
            &&& node.builder.justification_stream == Component::JustificationStream
            &&& node.builder.finality_proof_provider == Component::FinalityProofProvider
            &&& node.builder.subscription_task_executor == Component::SubscriptionTaskExecutor
        },
        Action::CreateProposer { spawner, client, transaction_pool, prometheus_registry, .. } => {
            &&& spawner == Component::TaskManager
            &&& client == Component::Client
            &&& transaction_pool == Component::TransactionPool
            &&& prometheus_registry == (if config.prometheus_config is Some {
                Some(Component::PrometheusRegistry)
            } else {
                None
            })
        },
        Action::StartBabe { babe, .. } => {
            &&& babe.force_authoring == config.force_authoring
            &&& babe.backoff_authoring_blocks == Some(BackoffAuthoringBlocks::OnFinalizedHeadLagging)
            &&& babe.can_author_with == (CanAuthorWith::NativeVersion { client: Component::Client })
            &&& babe.keystore == Component::KeystoreContainer
            &&& babe.client == Component::Client
            &&& babe.select_chain == Component::SelectChain
            &&& babe.block_import == Component::BabeBlockImport
            &&& babe.env == Component::Proposer
            &&& babe.sync_oracle == Component::Network
            &&& babe.inherent_data_providers == Component::InherentDataProviders
            &&& babe.babe_link == Component::BabeLink
        },
        Action::RunGrandpaVoter { grandpa, .. } => {
            &&& grandpa.config.is_authority == config.role.network_authority
            &&& grandpa.config.name == Some(config.network.node_name)
            &&& grandpa.config.keystore == (if config.role.authority {
                Some(Component::KeystoreContainer)
            } else {
                None
            })
            &&& grandpa.config.gossip_duration_millis == 1000
            &&& grandpa.config.justification_period == 512
            &&& !grandpa.config.observer_enabled
            &&& grandpa.voting_rule == VotingRule::Default
            &&& grandpa.link == Component::GrandpaLink
            &&& grandpa.network == Component::Network
            &&& grandpa.telemetry_on_connect == Component::TelemetryConnectionNotifier
            &&& grandpa.shared_voter_state == Component::SharedVoterState
            &&& grandpa.prometheus_registry == (if config.prometheus_config is Some {
                Some(Component::PrometheusRegistry)
            } else {
                None
            })
        },
        Action::CreateImportQueue { prometheus_registry, babe_link, block_import, justification_import, client, select_chain, inherent_data_providers, spawner, can_author_with, .. } => {
            &&& prometheus_registry == (if config.prometheus_config is Some {
                Some(Component::PrometheusRegistry)
            } else {
                None
            })
            &&& babe_link == Component::BabeLink
            &&& block_import == Component::BabeBlockImport
            &&& justification_import == Some(Component::GrandpaBlockImport)
            &&& client == Component::Client
            &&& select_chain == Component::SelectChain
            &&& inherent_data_providers == Component::InherentDataProviders
            &&& spawner == Component::TaskManager
            &&& can_author_with == (CanAuthorWith::NativeVersion { client: Component::Client })
        },
        Action::CreateAuthorityDiscovery { prometheus_registry, client, network, dht_event_stream, role, .. } => {
            &&& prometheus_registry == (if config.prometheus_config is Some {
                Some(Component::PrometheusRegistry)
            } else {
                None
            })
            &&& client == Component::Client
            &&& network == Component::Network
            &&& dht_event_stream == Component::DhtEventStream
            &&& role == (AuthorityDiscoveryRole::PublishAndDiscover {
                keystore: Component::KeystoreContainer,
            })
        },
        Action::CreateFullParts { config: parts_config, .. } => {
            &&& parts_config == Component::Configuration
        },
        Action::SelectLongestChain { backend, .. } => {
            &&& backend == Component::Backend
        },
        Action::CreateGrandpaBlockImport { client, genesis_authorities, select_chain, authority_set_hard_forks, .. } => {
            &&& client == Component::Client
            &&& genesis_authorities == Component::Client
            &&& select_chain == Component::SelectChain
            &&& authority_set_hard_forks == Some(0usize)
        },
        Action::CreateFrontierBlockImport { inner, client, enabled, .. } => {
            &&& inner == Component::GrandpaBlockImport
            &&& client == Component::Client
            &&& enabled
        },
        Action::ReadBabeConfig { client, .. } => {
            &&& client == Component::Client
        },
        Action::CreateBabeBlockImport { config: babe_config, inner, client, .. } => {
            &&& babe_config == Component::BabeConfig
            &&& inner == Component::FrontierBlockImport
            &&& client == Component::Client
        },
        Action::OpenJustificationStream { grandpa_link, .. } => {
            &&& grandpa_link == Component::GrandpaLink
        },
        Action::ShareAuthoritySet { grandpa_link, .. } => {
            &&& grandpa_link == Component::GrandpaLink
        },
        Action::CreateFinalityProofProvider { backend, shared_authority_set, .. } => {
            &&& backend == Component::Backend
            &&& shared_authority_set == Some(Component::SharedAuthoritySet)
        },
        Action::CopyBabeConfig { babe_link, .. } => {
            &&& babe_link == Component::BabeLink
        },
        Action::ShareEpochChanges { babe_link, .. } => {
            &&& babe_link == Component::BabeLink
        },
        Action::CreateSubscriptionTaskExecutor { spawner, .. } => {
            &&& spawner == Component::TaskManager
        },
        Action::CopyChainSpec { config: chain_config, .. } => {
            &&& chain_config == Component::Configuration
        },
        Action::AddPeersSet { config: network_config, set, .. } => {
            &&& network_config == Component::Configuration
            &&& set == PeersSet::Grandpa
        },
        Action::AddWarpSyncProtocol { config: network_config, spawner, backend, .. } => {
            &&& network_config == Component::Configuration
            &&& spawner == Component::TaskManager
            &&& backend == Component::Backend
        },
        Action::BuildNetwork { config: network_config, client, transaction_pool, spawner, import_queue, on_demand, block_announce_validator_builder, .. } => {
            &&& network_config == Component::Configuration
            &&& client == Component::Client
            &&& transaction_pool == Component::TransactionPool
            &&& spawner == Component::TaskManager
            &&& import_queue == Component::ImportQueue
            &&& on_demand is None
            &&& block_announce_validator_builder is None
        },
        Action::BuildOffchainWorkers { config: worker_config, backend, spawner, client, network, .. } => {
            &&& worker_config == Component::Configuration
            &&& backend == Component::Backend
            &&& spawner == Component::TaskManager
            &&& client == Component::Client
            &&& network == Component::Network
        },
        Action::StartNetwork { starter, .. } => {
            &&& starter == Component::NetworkStarter
        },
        Action::OpenDhtEventStream { network, name, .. } => {
            &&& network == Component::Network
            &&& name == "authority-discovery"
        },
        Action::SpawnEssentialBlocking { task_manager, name, task, .. } => {
            &&& task_manager == Component::TaskManager
            &&& (task == Component::BabeTask && name == "babe") || (task
                == Component::GrandpaVoter && name == "grandpa-voter")
        },
        Action::Spawn { task_manager, name, task, .. } => {
            &&& task_manager == Component::TaskManager
            &&& name == "authority-discovery-worker"
            &&& task == Component::AuthorityDiscoveryWorker
        },
        _ => true,
    }
}

/// Whether each of `steps` is as `is` says.
pub open spec fn every_step(steps: Seq<Action>, is: spec_fn(Action) -> bool) -> bool {
    forall|i: int| 0 <= i < steps.len() ==> is(#[trigger] steps[i])
}

/// Each of two runs of steps is as said if each of either is.
pub proof fn lemma_every_concat(first: Seq<Action>, second: Seq<Action>, is: spec_fn(Action) -> bool)
    requires
        every_step(first, is),
        every_step(second, is),
    ensures
        every_step(first + second, is),
{
    let both = first + second;
    assert forall|i: int| 0 <= i < both.len() implies is(#[trigger] both[i]) by {
        if i < first.len() {
            assert(both[i] == first[i]);
        } else {
            assert(both[i] == second[i - first.len()]);
        }
    }
}

/// That an action is what a step of a full node is said to be.
spec fn full_step_of(config: Configuration) -> spec_fn(Action) -> bool {
    |action: Action| full_step(config, action)
}

/// The basic steps of a full node are what they are said to be.
proof fn lemma_full_step_basic(config: Configuration)
    ensures
        every_step(
            crate::service::full_basic_steps(config.role.authority, config.spec_registry()),
            full_step_of(config),
        ),
{
    reveal(full_step);
    let steps = crate::service::full_basic_steps(config.role.authority, config.spec_registry());
    assert forall|i: int| 0 <= i < steps.len() implies full_step_of(config)(#[trigger] steps[i]) by {
        assert(i == 0 || i == 1 || i == 2 || i == 3);
    }
}

/// The import steps of a full node are what they are said to be.
proof fn lemma_full_step_import(config: Configuration)
    ensures
        every_step(
            crate::service::full_import_steps(config.spec_registry()),
            full_step_of(config),
        ),
{
    reveal(full_step);
    let steps = crate::service::full_import_steps(config.spec_registry());
    assert forall|i: int| 0 <= i < steps.len() implies full_step_of(config)(#[trigger] steps[i]) by {
        assert(i == 0 || i == 1 || i == 2 || i == 3 || i == 4);
    }
}

/// The steps for the RPC extensions of a full node are what they are said to be.
proof fn lemma_full_step_rpc(config: Configuration)
    ensures
        every_step(
            crate::service::full_rpc_steps(),
            full_step_of(config),
        ),
{
    reveal(full_step);
    let steps = crate::service::full_rpc_steps();
    assert forall|i: int| 0 <= i < steps.len() implies full_step_of(config)(#[trigger] steps[i]) by {
        assert(i == 0 || i == 1 || i == 2 || i == 3 || i == 4 || i == 5 || i == 6 || i == 7);
    }
}

/// The network steps of a full node are what they are said to be.
proof fn lemma_full_step_network(config: Configuration)
    ensures
        every_step(
            crate::service::full_network_steps(config.cli),
            full_step_of(config),
        ),
{
    reveal(full_step);
    let steps = crate::service::full_network_steps(config.cli);
    assert forall|i: int| 0 <= i < steps.len() implies full_step_of(config)(#[trigger] steps[i]) by {
        assert(i == 0 || i == 1 || i == 2);
    }
}

/// The offchain worker step of a full node is what it is said to be.
proof fn lemma_full_step_offchain(config: Configuration)
    ensures
        every_step(
            crate::service::offchain_worker_steps(config.offchain_worker.enabled),
            full_step_of(config),
        ),
{
    reveal(full_step);
    let steps = crate::service::offchain_worker_steps(config.offchain_worker.enabled);
    assert forall|i: int| 0 <= i < steps.len() implies full_step_of(config)(#[trigger] steps[i]) by {
        assert(i == 0);
    }
}

/// The step by which a full node spawns the tasks of every node is what it is said to
/// be.
proof fn lemma_full_step_tasks(config: Configuration)
    ensures
        every_step(
            seq![crate::service::spawn_full_tasks(config.role.authority)],
            full_step_of(config),
        ),
{
    reveal(full_step);
    let steps = seq![crate::service::spawn_full_tasks(config.role.authority)];
    assert forall|i: int| 0 <= i < steps.len() implies full_step_of(config)(#[trigger] steps[i]) by {
        assert(i == 0);
    }
}

/// The authoring steps of a full node are what they are said to be.
proof fn lemma_full_step_authoring(config: Configuration)
    ensures
        every_step(
            crate::service::authoring_steps(
                config.role.authority,
                config.force_authoring,
                config.spec_registry(),
            ),
            full_step_of(config),
        ),
{
    reveal(full_step);
    let steps = crate::service::authoring_steps(
        config.role.authority,
        config.force_authoring,
        config.spec_registry(),
    );
    assert forall|i: int| 0 <= i < steps.len() implies full_step_of(config)(#[trigger] steps[i]) by {
        assert(i == 0 || i == 1 || i == 2);
    }
}

/// The finality steps of a full node are what they are said to be.
proof fn lemma_full_step_finality(config: Configuration)
    ensures
        every_step(
            crate::service::finality_steps(config),
            full_step_of(config),
        ),
{
    reveal(full_step);
    let steps = crate::service::finality_steps(config);
    assert forall|i: int| 0 <= i < steps.len() implies full_step_of(config)(#[trigger] steps[i]) by {
        assert(i == 0 || i == 1);
    }
}

/// The discovery steps of a full node are what they are said to be.
proof fn lemma_full_step_discovery(config: Configuration, authority_discovery_disabled: bool)
    ensures
        every_step(
            crate::service::authority_discovery_steps(
                config.role.authority,
                authority_discovery_disabled,
                config.spec_registry(),
            ),
            full_step_of(config),
        ),
{
    reveal(full_step);
    let steps = crate::service::authority_discovery_steps(
        config.role.authority,
        authority_discovery_disabled,
        config.spec_registry(),
    );
    assert forall|i: int| 0 <= i < steps.len() implies full_step_of(config)(#[trigger] steps[i]) by {
        assert(i == 0 || i == 1 || i == 2);
    }
}

/// The step that starts a full node's network is what it is said to be.
proof fn lemma_full_step_start(config: Configuration)
    ensures
        every_step(
            seq![crate::service::start_network()],
            full_step_of(config),
        ),
{
    reveal(full_step);
    let steps = seq![crate::service::start_network()];
    assert forall|i: int| 0 <= i < steps.len() implies full_step_of(config)(#[trigger] steps[i]) by {
        assert(i == 0);
    }
}

/// Each step of a full node is what it is said to be.
proof fn lemma_full_step(config: Configuration, authority_discovery_disabled: bool)
    ensures
        every_step(full_steps(config, authority_discovery_disabled), full_step_of(config)),
{
    let is = full_step_of(config);
    let basic = crate::service::full_basic_steps(config.role.authority, config.spec_registry());
    let import = crate::service::full_import_steps(config.spec_registry());
    let rpc = crate::service::full_rpc_steps();
    let network = crate::service::full_network_steps(config.cli);
    let offchain = crate::service::offchain_worker_steps(config.offchain_worker.enabled);
    let tasks = seq![crate::service::spawn_full_tasks(config.role.authority)];
    let authoring = crate::service::authoring_steps(
        config.role.authority,
        config.force_authoring,
        config.spec_registry(),
    );
    let finality = crate::service::finality_steps(config);
    let discovery = crate::service::authority_discovery_steps(
        config.role.authority,
        authority_discovery_disabled,
        config.spec_registry(),
    );
    let start = seq![crate::service::start_network()];
    lemma_full_step_basic(config);
    lemma_full_step_import(config);
    lemma_full_step_rpc(config);
    lemma_full_step_network(config);
    lemma_full_step_offchain(config);
    lemma_full_step_tasks(config);
    lemma_full_step_authoring(config);
    lemma_full_step_finality(config);
    lemma_full_step_discovery(config, authority_discovery_disabled);
    lemma_full_step_start(config);
    lemma_every_concat(basic, import, is);
    let t2 = basic + import;
    lemma_every_concat(t2, rpc, is);
    let t3 = t2 + rpc;
    lemma_every_concat(t3, network, is);
    let t4 = t3 + network;
    lemma_every_concat(t4, offchain, is);
    let t5 = t4 + offchain;
    lemma_every_concat(t5, tasks, is);
    let t6 = t5 + tasks;
    lemma_every_concat(t6, authoring, is);
    let t7 = t6 + authoring;
    lemma_every_concat(t7, finality, is);
    let t8 = t7 + finality;
    lemma_every_concat(t8, discovery, is);
    let t9 = t8 + discovery;
    lemma_every_concat(t9, start, is);
}

/// The step of a full node at `i` is what it is said to be.
proof fn lemma_full_step_at(
    config: Configuration,
    authority_discovery_disabled: bool,
    steps: Seq<Action>,
    i: int,
)
    requires
        steps == full_steps(config, authority_discovery_disabled),
        0 <= i < steps.len(),
    ensures
        full_step(config, steps[i]),
{
    lemma_full_step(config, authority_discovery_disabled);
    assert(full_step_of(config)(steps[i]));
}

/// The transaction pool and the RPC extensions of a full node are told whether the
/// node is an authority, as its role says.
pub proof fn law_pool_and_rpc_know_the_role<RuntimeApi, Executor>(
    config: Configuration,
    authority_discovery_disabled: bool,
    r: Result<Node<(Component, FullClient<RuntimeApi, Executor>, Component)>, ServiceError>,
)
    requires
        is_full_layout(config, authority_discovery_disabled, r),
        r is Ok,
    ensures
        forall|i: int|
            0 <= i < r->Ok_0.steps@.len() ==> match #[trigger] r->Ok_0.steps@[i] {
                Action::CreateFullPool {
                    is_authority,
                    ..
                } => {
                    &&& is_authority == config.role.authority
                },
                Action::SpawnTasks {
                    rpc_extensions,
                    ..
                } => {
                    &&& rpc_extensions matches RpcExtensions::PerTransport(node) && node.is_authority
                        == config.role.authority
                },
                _ => true,
            },
{
    let steps = r->Ok_0.steps@;
    assert forall|i: int| 0 <= i < steps.len() implies (match #[trigger] steps[i] {
                Action::CreateFullPool {
                    is_authority,
                    ..
                } => {
                    &&& is_authority == config.role.authority
                },
                Action::SpawnTasks {
                    rpc_extensions,
                    ..
                } => {
                    &&& rpc_extensions matches RpcExtensions::PerTransport(node) && node.is_authority
                        == config.role.authority
                },
                _ => true,
            }) by {
        lemma_full_step_at(config, authority_discovery_disabled, steps, i);
        reveal(full_step);
    }
}

/// A full node authors blocks while out of sync exactly if it is told to. It always
/// holds back while finality lags, asks its own executor who may author, signs with
/// its own keys, and builds on the chain that its rule picks.
pub proof fn law_authoring_follows_the_settings<RuntimeApi, Executor>(
    config: Configuration,
    authority_discovery_disabled: bool,
    r: Result<Node<(Component, FullClient<RuntimeApi, Executor>, Component)>, ServiceError>,
)
    requires
        is_full_layout(config, authority_discovery_disabled, r),
        r is Ok,
    ensures
        forall|i: int|
            0 <= i < r->Ok_0.steps@.len() ==> match #[trigger] r->Ok_0.steps@[i] {
                Action::CreateProposer {
                    spawner,
                    client,
                    transaction_pool,
                    ..
                } => {
                    &&& spawner == Component::TaskManager
                    &&& client == Component::Client
                    &&& transaction_pool == Component::TransactionPool
                },
                Action::StartBabe {
                    babe,
                } => {
                    &&& babe.force_authoring == config.force_authoring
                    &&& babe.backoff_authoring_blocks == Some(BackoffAuthoringBlocks::OnFinalizedHeadLagging)
                    &&& babe.can_author_with == (CanAuthorWith::NativeVersion { client: Component::Client })
                    &&& babe.keystore == Component::KeystoreContainer
                    &&& babe.client == Component::Client
                    &&& babe.select_chain == Component::SelectChain
                    &&& babe.block_import == Component::BabeBlockImport
                    &&& babe.env == Component::Proposer
                    &&& babe.sync_oracle == Component::Network
                    &&& babe.inherent_data_providers == Component::InherentDataProviders
                    &&& babe.babe_link == Component::BabeLink
                },
                _ => true,
            },
{
    let steps = r->Ok_0.steps@;
    assert forall|i: int| 0 <= i < steps.len() implies (match #[trigger] steps[i] {
                Action::CreateProposer {
                    spawner,
                    client,
                    transaction_pool,
                    ..
                } => {
                    &&& spawner == Component::TaskManager
                    &&& client == Component::Client
                    &&& transaction_pool == Component::TransactionPool
                },
                Action::StartBabe {
                    babe,
                } => {
                    &&& babe.force_authoring == config.force_authoring
                    &&& babe.backoff_authoring_blocks == Some(BackoffAuthoringBlocks::OnFinalizedHeadLagging)
                    &&& babe.can_author_with == (CanAuthorWith::NativeVersion { client: Component::Client })
                    &&& babe.keystore == Component::KeystoreContainer
                    &&& babe.client == Component::Client
                    &&& babe.select_chain == Component::SelectChain
                    &&& babe.block_import == Component::BabeBlockImport
                    &&& babe.env == Component::Proposer
                    &&& babe.sync_oracle == Component::Network
                    &&& babe.inherent_data_providers == Component::InherentDataProviders
                    &&& babe.babe_link == Component::BabeLink
                },
                _ => true,
            }) by {
        lemma_full_step_at(config, authority_discovery_disabled, steps, i);
        reveal(full_step);
    }
}

/// The finality voter of a full node takes part as an authority exactly if the role
/// is announced as one, goes by the name of the node, signs with the keys of an
/// authority only, gossips for a second, keeps a justification every 512 blocks, does
/// not merely observe, and votes by the default rules.
pub proof fn law_voter_follows_role_and_name<RuntimeApi, Executor>(
    config: Configuration,
    authority_discovery_disabled: bool,
    r: Result<Node<(Component, FullClient<RuntimeApi, Executor>, Component)>, ServiceError>,
)
    requires
        is_full_layout(config, authority_discovery_disabled, r),
        r is Ok,
    ensures
        forall|i: int|
            0 <= i < r->Ok_0.steps@.len() ==> match #[trigger] r->Ok_0.steps@[i] {
                Action::RunGrandpaVoter {
                    grandpa,
                } => {
                    &&& grandpa.config.is_authority == config.role.network_authority
                    &&& grandpa.config.name == Some(config.network.node_name)
                    &&& grandpa.config.keystore == (if config.role.authority {
                        Some(Component::KeystoreContainer)
                    } else {
                        None
                    })
                    &&& grandpa.config.gossip_duration_millis == 1000
                    &&& grandpa.config.justification_period == 512
                    &&& !grandpa.config.observer_enabled
                    &&& grandpa.voting_rule == VotingRule::Default
                    &&& grandpa.link == Component::GrandpaLink
                    &&& grandpa.network == Component::Network
                    &&& grandpa.telemetry_on_connect == Component::TelemetryConnectionNotifier
                    &&& grandpa.shared_voter_state == Component::SharedVoterState
                },
                _ => true,
            },
{
    let steps = r->Ok_0.steps@;
    assert forall|i: int| 0 <= i < steps.len() implies (match #[trigger] steps[i] {
                Action::RunGrandpaVoter {
                    grandpa,
                } => {
                    &&& grandpa.config.is_authority == config.role.network_authority
                    &&& grandpa.config.name == Some(config.network.node_name)
                    &&& grandpa.config.keystore == (if config.role.authority {
                        Some(Component::KeystoreContainer)
                    } else {
                        None
                    })
                    &&& grandpa.config.gossip_duration_millis == 1000
                    &&& grandpa.config.justification_period == 512
                    &&& !grandpa.config.observer_enabled
                    &&& grandpa.voting_rule == VotingRule::Default
                    &&& grandpa.link == Component::GrandpaLink
                    &&& grandpa.network == Component::Network
                    &&& grandpa.telemetry_on_connect == Component::TelemetryConnectionNotifier
                    &&& grandpa.shared_voter_state == Component::SharedVoterState
                },
                _ => true,
            }) by {
        lemma_full_step_at(config, authority_discovery_disabled, steps, i);
        reveal(full_step);
    }
}

/// Every step of a full node that can collect metrics is handed the registry if the
/// configuration has a place to serve metrics, whatever else it says, and none if it
/// has not.
pub proof fn law_full_node_metrics_follow_the_configuration<RuntimeApi, Executor>(
    config: Configuration,
    authority_discovery_disabled: bool,
    r: Result<Node<(Component, FullClient<RuntimeApi, Executor>, Component)>, ServiceError>,
)
    requires
        is_full_layout(config, authority_discovery_disabled, r),
        r is Ok,
    ensures
        forall|i: int|
            0 <= i < r->Ok_0.steps@.len() ==> match #[trigger] r->Ok_0.steps@[i] {
                Action::CreateFullPool {
                    prometheus_registry,
                    ..
                } => {
                    &&& prometheus_registry == (if config.prometheus_config is Some {
                        Some(Component::PrometheusRegistry)
                    } else {
                        None
                    })
                },
                Action::CreateImportQueue {
                    prometheus_registry,
                    ..
                } => {
                    &&& prometheus_registry == (if config.prometheus_config is Some {
                        Some(Component::PrometheusRegistry)
                    } else {
                        None
                    })
                },
                Action::CreateProposer {
                    prometheus_registry,
                    ..
                } => {
                    &&& prometheus_registry == (if config.prometheus_config is Some {
                        Some(Component::PrometheusRegistry)
                    } else {
                        None
                    })
                },
                Action::CreateAuthorityDiscovery {
                    prometheus_registry,
                    ..
                } => {
                    &&& prometheus_registry == (if config.prometheus_config is Some {
                        Some(Component::PrometheusRegistry)
                    } else {
                        None
                    })
                },
                Action::RunGrandpaVoter {
                    grandpa,
                } => {
                    &&& grandpa.prometheus_registry == (if config.prometheus_config is Some {
                        Some(Component::PrometheusRegistry)
                    } else {
                        None
                    })
                },
                _ => true,
            },
{
    let steps = r->Ok_0.steps@;
    assert forall|i: int| 0 <= i < steps.len() implies (match #[trigger] steps[i] {
                Action::CreateFullPool {
                    prometheus_registry,
                    ..
                } => {
                    &&& prometheus_registry == (if config.prometheus_config is Some {
                        Some(Component::PrometheusRegistry)
                    } else {
                        None
                    })
                },
                Action::CreateImportQueue {
                    prometheus_registry,
                    ..
                } => {
                    &&& prometheus_registry == (if config.prometheus_config is Some {
                        Some(Component::PrometheusRegistry)
                    } else {
                        None
                    })
                },
                Action::CreateProposer {
                    prometheus_registry,
                    ..
                } => {
                    &&& prometheus_registry == (if config.prometheus_config is Some {
                        Some(Component::PrometheusRegistry)
                    } else {
                        None
                    })
                },
                Action::CreateAuthorityDiscovery {
                    prometheus_registry,
                    ..
                } => {
                    &&& prometheus_registry == (if config.prometheus_config is Some {
                        Some(Component::PrometheusRegistry)
                    } else {
                        None
                    })
                },
                Action::RunGrandpaVoter {
                    grandpa,
                } => {
                    &&& grandpa.prometheus_registry == (if config.prometheus_config is Some {
                        Some(Component::PrometheusRegistry)
                    } else {
                        None
                    })
                },
                _ => true,
            }) by {
        lemma_full_step_at(config, authority_discovery_disabled, steps, i);
        reveal(full_step);
    }
}

/// The basic parts of a full node are made from its configuration and from one
/// another.
pub proof fn law_full_node_basic_parts<RuntimeApi, Executor>(
    config: Configuration,
    authority_discovery_disabled: bool,
    r: Result<Node<(Component, FullClient<RuntimeApi, Executor>, Component)>, ServiceError>,
)
    requires
        is_full_layout(config, authority_discovery_disabled, r),
        r is Ok,
    ensures
        forall|i: int|
            0 <= i < r->Ok_0.steps@.len() ==> match #[trigger] r->Ok_0.steps@[i] {
                Action::CreateFullParts {
                    config: parts_config,
                } => {
                    &&& parts_config == Component::Configuration
                },
                Action::SelectLongestChain {
                    backend,
                } => {
                    &&& backend == Component::Backend
                },
                Action::CreateFullPool {
                    config: pool_config,
                    spawner,
                    client,
                    ..
                } => {
                    &&& pool_config == Component::Configuration
                    &&& spawner == Component::TaskManager
                    &&& client == Component::Client
                },
                _ => true,
            },
{
    let steps = r->Ok_0.steps@;
    assert forall|i: int| 0 <= i < steps.len() implies (match #[trigger] steps[i] {
                Action::CreateFullParts {
                    config: parts_config,
                } => {
                    &&& parts_config == Component::Configuration
                },
                Action::SelectLongestChain {
                    backend,
                } => {
                    &&& backend == Component::Backend
                },
                Action::CreateFullPool {
                    config: pool_config,
                    spawner,
                    client,
                    ..
                } => {
                    &&& pool_config == Component::Configuration
                    &&& spawner == Component::TaskManager
                    &&& client == Component::Client
                },
                _ => true,
            }) by {
        lemma_full_step_at(config, authority_discovery_disabled, steps, i);
        reveal(full_step);
    }
}

/// A block that a full node imports goes through block production, then through
/// Ethereum indexing, which is on, then through finality, which knows of no hard fork.
/// Justifications go to finality at once. The import queue stands in front, and asks
/// the node's own executor who may author.
pub proof fn law_full_node_imports_are_nested<RuntimeApi, Executor>(
    config: Configuration,
    authority_discovery_disabled: bool,
    r: Result<Node<(Component, FullClient<RuntimeApi, Executor>, Component)>, ServiceError>,
)
    requires
        is_full_layout(config, authority_discovery_disabled, r),
        r is Ok,
    ensures
        forall|i: int|
            0 <= i < r->Ok_0.steps@.len() ==> match #[trigger] r->Ok_0.steps@[i] {
                Action::CreateGrandpaBlockImport {
                    client,
                    genesis_authorities,
                    select_chain,
                    authority_set_hard_forks,
                } => {
                    &&& client == Component::Client
                    &&& genesis_authorities == Component::Client
                    &&& select_chain == Component::SelectChain
                    &&& authority_set_hard_forks == Some(0usize)
                },
                Action::CreateFrontierBlockImport {
                    inner,
                    client,
                    enabled,
                } => {
                    &&& inner == Component::GrandpaBlockImport
                    &&& client == Component::Client
                    &&& enabled
                },
                Action::ReadBabeConfig {
                    client,
                } => {
                    &&& client == Component::Client
                },
                Action::CreateBabeBlockImport {
                    config: babe_config,
                    inner,
                    client,
                } => {
                    &&& babe_config == Component::BabeConfig
                    &&& inner == Component::FrontierBlockImport
                    &&& client == Component::Client
                },
                Action::CreateImportQueue {
                    babe_link,
                    block_import,
                    justification_import,
                    client,
                    select_chain,
                    inherent_data_providers,
                    spawner,
                    can_author_with,
                    ..
                } => {
                    &&& babe_link == Component::BabeLink
                    &&& block_import == Component::BabeBlockImport
                    &&& justification_import == Some(Component::GrandpaBlockImport)
                    &&& client == Component::Client
                    &&& select_chain == Component::SelectChain
                    &&& inherent_data_providers == Component::InherentDataProviders
                    &&& spawner == Component::TaskManager
                    &&& can_author_with == (CanAuthorWith::NativeVersion { client: Component::Client })
                },
                _ => true,
            },
{
    let steps = r->Ok_0.steps@;
    assert forall|i: int| 0 <= i < steps.len() implies (match #[trigger] steps[i] {
                Action::CreateGrandpaBlockImport {
                    client,
                    genesis_authorities,
                    select_chain,
                    authority_set_hard_forks,
                } => {
                    &&& client == Component::Client
                    &&& genesis_authorities == Component::Client
                    &&& select_chain == Component::SelectChain
                    &&& authority_set_hard_forks == Some(0usize)
                },
                Action::CreateFrontierBlockImport {
                    inner,
                    client,
                    enabled,
                } => {
                    &&& inner == Component::GrandpaBlockImport
                    &&& client == Component::Client
                    &&& enabled
                },
                Action::ReadBabeConfig {
                    client,
                } => {
                    &&& client == Component::Client
                },
                Action::CreateBabeBlockImport {
                    config: babe_config,
                    inner,
                    client,
                } => {
                    &&& babe_config == Component::BabeConfig
                    &&& inner == Component::FrontierBlockImport
                    &&& client == Component::Client
                },
                Action::CreateImportQueue {
                    babe_link,
                    block_import,
                    justification_import,
                    client,
                    select_chain,
                    inherent_data_providers,
                    spawner,
                    can_author_with,
                    ..
                } => {
                    &&& babe_link == Component::BabeLink
                    &&& block_import == Component::BabeBlockImport
                    &&& justification_import == Some(Component::GrandpaBlockImport)
                    &&& client == Component::Client
                    &&& select_chain == Component::SelectChain
                    &&& inherent_data_providers == Component::InherentDataProviders
                    &&& spawner == Component::TaskManager
                    &&& can_author_with == (CanAuthorWith::NativeVersion { client: Component::Client })
                },
                _ => true,
            }) by {
        lemma_full_step_at(config, authority_discovery_disabled, steps, i);
        reveal(full_step);
    }
}

/// What the RPC extensions of a full node share with the node is taken from the links
/// of finality and block production, the backend, the task manager and the
/// configuration.
pub proof fn law_full_node_shares_with_rpc<RuntimeApi, Executor>(
    config: Configuration,
    authority_discovery_disabled: bool,
    r: Result<Node<(Component, FullClient<RuntimeApi, Executor>, Component)>, ServiceError>,
)
    requires
        is_full_layout(config, authority_discovery_disabled, r),
        r is Ok,
    ensures
        forall|i: int|
            0 <= i < r->Ok_0.steps@.len() ==> match #[trigger] r->Ok_0.steps@[i] {
                Action::OpenJustificationStream {
                    grandpa_link,
                } => {
                    &&& grandpa_link == Component::GrandpaLink
                },
                Action::ShareAuthoritySet {
                    grandpa_link,
                } => {
                    &&& grandpa_link == Component::GrandpaLink
                },
                Action::CreateFinalityProofProvider {
                    backend,
                    shared_authority_set,
                } => {
                    &&& backend == Component::Backend
                    &&& shared_authority_set == Some(Component::SharedAuthoritySet)
                },
                Action::CopyBabeConfig {
                    babe_link,
                } => {
                    &&& babe_link == Component::BabeLink
                },
                Action::ShareEpochChanges {
                    babe_link,
                } => {
                    &&& babe_link == Component::BabeLink
                },
                Action::CreateSubscriptionTaskExecutor {
                    spawner,
                } => {
                    &&& spawner == Component::TaskManager
                },
                Action::CopyChainSpec {
                    config: chain_config,
                } => {
                    &&& chain_config == Component::Configuration
                },
                _ => true,
            },
{
    let steps = r->Ok_0.steps@;
    assert forall|i: int| 0 <= i < steps.len() implies (match #[trigger] steps[i] {
                Action::OpenJustificationStream {
                    grandpa_link,
                } => {
                    &&& grandpa_link == Component::GrandpaLink
                },
                Action::ShareAuthoritySet {
                    grandpa_link,
                } => {
                    &&& grandpa_link == Component::GrandpaLink
                },
                Action::CreateFinalityProofProvider {
                    backend,
                    shared_authority_set,
                } => {
                    &&& backend == Component::Backend
                    &&& shared_authority_set == Some(Component::SharedAuthoritySet)
                },
                Action::CopyBabeConfig {
                    babe_link,
                } => {
                    &&& babe_link == Component::BabeLink
                },
                Action::ShareEpochChanges {
                    babe_link,
                } => {
                    &&& babe_link == Component::BabeLink
                },
                Action::CreateSubscriptionTaskExecutor {
                    spawner,
                } => {
                    &&& spawner == Component::TaskManager
                },
                Action::CopyChainSpec {
                    config: chain_config,
                } => {
                    &&& chain_config == Component::Configuration
                },
                _ => true,
            }) by {
        lemma_full_step_at(config, authority_discovery_disabled, steps, i);
        reveal(full_step);
    }
}

/// The network of a full node learns of the peers of finality, answers warp sync from
/// the node's backend, fetches nothing on demand, and validates no announcement of
/// blocks. What runs on it are the node's own client, pool and import queue.
pub proof fn law_full_node_network<RuntimeApi, Executor>(
    config: Configuration,
    authority_discovery_disabled: bool,
    r: Result<Node<(Component, FullClient<RuntimeApi, Executor>, Component)>, ServiceError>,
)
    requires
        is_full_layout(config, authority_discovery_disabled, r),
        r is Ok,
    ensures
        forall|i: int|
            0 <= i < r->Ok_0.steps@.len() ==> match #[trigger] r->Ok_0.steps@[i] {
                Action::AddPeersSet {
                    config: network_config,
                    set,
                } => {
                    &&& network_config == Component::Configuration
                    &&& set == PeersSet::Grandpa
                },
                Action::AddWarpSyncProtocol {
                    config: network_config,
                    spawner,
                    backend,
                } => {
                    &&& network_config == Component::Configuration
                    &&& spawner == Component::TaskManager
                    &&& backend == Component::Backend
                },
                Action::BuildNetwork {
                    config: network_config,
                    client,
                    transaction_pool,
                    spawner,
                    import_queue,
                    on_demand,
                    block_announce_validator_builder,
                } => {
                    &&& network_config == Component::Configuration
                    &&& client == Component::Client
                    &&& transaction_pool == Component::TransactionPool
                    &&& spawner == Component::TaskManager
                    &&& import_queue == Component::ImportQueue
                    &&& on_demand is None
                    &&& block_announce_validator_builder is None
                },
                Action::BuildOffchainWorkers {
                    config: worker_config,
                    backend,
                    spawner,
                    client,
                    network,
                } => {
                    &&& worker_config == Component::Configuration
                    &&& backend == Component::Backend
                    &&& spawner == Component::TaskManager
                    &&& client == Component::Client
                    &&& network == Component::Network
                },
                Action::StartNetwork {
                    starter,
                } => {
                    &&& starter == Component::NetworkStarter
                },
                _ => true,
            },
{
    let steps = r->Ok_0.steps@;
    assert forall|i: int| 0 <= i < steps.len() implies (match #[trigger] steps[i] {
                Action::AddPeersSet {
                    config: network_config,
                    set,
                } => {
                    &&& network_config == Component::Configuration
                    &&& set == PeersSet::Grandpa
                },
                Action::AddWarpSyncProtocol {
                    config: network_config,
                    spawner,
                    backend,
                } => {
                    &&& network_config == Component::Configuration
                    &&& spawner == Component::TaskManager
                    &&& backend == Component::Backend
                },
                Action::BuildNetwork {
                    config: network_config,
                    client,
                    transaction_pool,
                    spawner,
                    import_queue,
                    on_demand,
                    block_announce_validator_builder,
                } => {
                    &&& network_config == Component::Configuration
                    &&& client == Component::Client
                    &&& transaction_pool == Component::TransactionPool
                    &&& spawner == Component::TaskManager
                    &&& import_queue == Component::ImportQueue
                    &&& on_demand is None
                    &&& block_announce_validator_builder is None
                },
                Action::BuildOffchainWorkers {
                    config: worker_config,
                    backend,
                    spawner,
                    client,
                    network,
                } => {
                    &&& worker_config == Component::Configuration
                    &&& backend == Component::Backend
                    &&& spawner == Component::TaskManager
                    &&& client == Component::Client
                    &&& network == Component::Network
                },
                Action::StartNetwork {
                    starter,
                } => {
                    &&& starter == Component::NetworkStarter
                },
                _ => true,
            }) by {
        lemma_full_step_at(config, authority_discovery_disabled, steps, i);
        reveal(full_step);
    }
}

/// The tasks that every node runs are spawned with the node's own parts. A full node
/// has nothing to fetch remotely, and creates its RPC extensions for each transport
/// from the parts that it shares with them.
pub proof fn law_full_node_tasks<RuntimeApi, Executor>(
    config: Configuration,
    authority_discovery_disabled: bool,
    r: Result<Node<(Component, FullClient<RuntimeApi, Executor>, Component)>, ServiceError>,
)
    requires
        is_full_layout(config, authority_discovery_disabled, r),
        r is Ok,
    ensures
        forall|i: int|
            0 <= i < r->Ok_0.steps@.len() ==> match #[trigger] r->Ok_0.steps@[i] {
                Action::SpawnTasks {
                    config: task_config,
                    backend,
                    client,
                    keystore,
                    network,
                    rpc_extensions,
                    transaction_pool,
                    task_manager,
                    on_demand,
                    remote_blockchain,
                    telemetry_span,
                    network_status_sinks,
                    system_rpc_tx,
                } => {
                    &&& task_config == Component::Configuration
                    &&& backend == Component::Backend
                    &&& client == Component::Client
                    &&& keystore == Component::KeystoreContainer
                    &&& network == Component::Network
                    &&& transaction_pool == Component::TransactionPool
                    &&& task_manager == Component::TaskManager
                    &&& on_demand is None
                    &&& remote_blockchain is None
                    &&& telemetry_span == Component::TelemetrySpan
                    &&& network_status_sinks == Component::NetworkStatusSinks
                    &&& system_rpc_tx == Component::SystemRpcTx
                    &&& rpc_extensions matches RpcExtensions::PerTransport(node)
                    &&& node.network == Component::Network
                    &&& node.builder.client == Component::Client
                    &&& node.builder.keystore == Component::KeystoreContainer
                    &&& node.builder.transaction_pool == Component::TransactionPool
                    &&& node.builder.select_chain == Component::SelectChain
                    &&& node.builder.chain_spec == Component::ChainSpec
                    &&& node.builder.babe_config == Component::LinkedBabeConfig
                    &&& node.builder.shared_epoch_changes == Component::SharedEpochChanges
                    &&& node.builder.shared_voter_state == Component::SharedVoterState
                    &&& node.builder.shared_authority_set == Component::SharedAuthoritySet
                    &&& node.builder.justification_stream == Component::JustificationStream
                    &&& node.builder.finality_proof_provider == Component::FinalityProofProvider
                    &&& node.builder.subscription_task_executor == Component::SubscriptionTaskExecutor
                },
                _ => true,
            },
{
    let steps = r->Ok_0.steps@;
    assert forall|i: int| 0 <= i < steps.len() implies (match #[trigger] steps[i] {
                Action::SpawnTasks {
                    config: task_config,
                    backend,
                    client,
                    keystore,
                    network,
                    rpc_extensions,
                    transaction_pool,
                    task_manager,
                    on_demand,
                    remote_blockchain,
                    telemetry_span,
                    network_status_sinks,
                    system_rpc_tx,
                } => {
                    &&& task_config == Component::Configuration
                    &&& backend == Component::Backend
                    &&& client == Component::Client
                    &&& keystore == Component::KeystoreContainer
                    &&& network == Component::Network
                    &&& transaction_pool == Component::TransactionPool
                    &&& task_manager == Component::TaskManager
                    &&& on_demand is None
                    &&& remote_blockchain is None
                    &&& telemetry_span == Component::TelemetrySpan
                    &&& network_status_sinks == Component::NetworkStatusSinks
                    &&& system_rpc_tx == Component::SystemRpcTx
                    &&& rpc_extensions matches RpcExtensions::PerTransport(node)
                    &&& node.network == Component::Network
                    &&& node.builder.client == Component::Client
                    &&& node.builder.keystore == Component::KeystoreContainer
                    &&& node.builder.transaction_pool == Component::TransactionPool
                    &&& node.builder.select_chain == Component::SelectChain
                    &&& node.builder.chain_spec == Component::ChainSpec
                    &&& node.builder.babe_config == Component::LinkedBabeConfig
                    &&& node.builder.shared_epoch_changes == Component::SharedEpochChanges
                    &&& node.builder.shared_voter_state == Component::SharedVoterState
                    &&& node.builder.shared_authority_set == Component::SharedAuthoritySet
                    &&& node.builder.justification_stream == Component::JustificationStream
                    &&& node.builder.finality_proof_provider == Component::FinalityProofProvider
                    &&& node.builder.subscription_task_executor == Component::SubscriptionTaskExecutor
                },
                _ => true,
            }) by {
        lemma_full_step_at(config, authority_discovery_disabled, steps, i);
        reveal(full_step);
    }
}

/// Authority discovery follows the hash table events of the node's network, under its
/// own name, and publishes with the node's keys. Block production and the voter are
/// spawned as tasks that the node cannot do without, discovery as one like any other,
/// each under its name.
pub proof fn law_full_node_discovery_and_spawning<RuntimeApi, Executor>(
    config: Configuration,
    authority_discovery_disabled: bool,
    r: Result<Node<(Component, FullClient<RuntimeApi, Executor>, Component)>, ServiceError>,
)
    requires
        is_full_layout(config, authority_discovery_disabled, r),
        r is Ok,
    ensures
        forall|i: int|
            0 <= i < r->Ok_0.steps@.len() ==> match #[trigger] r->Ok_0.steps@[i] {
                Action::OpenDhtEventStream {
                    network,
                    name,
                } => {
                    &&& network == Component::Network
                    &&& name == "authority-discovery"
                },
                Action::CreateAuthorityDiscovery {
                    client,
                    network,
                    dht_event_stream,
                    role,
                    ..
                } => {
                    &&& client == Component::Client
                    &&& network == Component::Network
                    &&& dht_event_stream == Component::DhtEventStream
                    &&& role == (AuthorityDiscoveryRole::PublishAndDiscover {
                        keystore: Component::KeystoreContainer,
                    })
                },
                Action::SpawnEssentialBlocking {
                    task_manager,
                    name,
                    task,
                } => {
                    &&& task_manager == Component::TaskManager
                    &&& (task == Component::BabeTask && name == "babe") || (task
                        == Component::GrandpaVoter && name == "grandpa-voter")
                },
                Action::Spawn {
                    task_manager,
                    name,
                    task,
                } => {
                    &&& task_manager == Component::TaskManager
                    &&& name == "authority-discovery-worker"
                    &&& task == Component::AuthorityDiscoveryWorker
                },
                _ => true,
            },
{
    let steps = r->Ok_0.steps@;
    assert forall|i: int| 0 <= i < steps.len() implies (match #[trigger] steps[i] {
                Action::OpenDhtEventStream {
                    network,
                    name,
                } => {
                    &&& network == Component::Network
                    &&& name == "authority-discovery"
                },
                Action::CreateAuthorityDiscovery {
                    client,
                    network,
                    dht_event_stream,
                    role,
                    ..
                } => {
                    &&& client == Component::Client
                    &&& network == Component::Network
                    &&& dht_event_stream == Component::DhtEventStream
                    &&& role == (AuthorityDiscoveryRole::PublishAndDiscover {
                        keystore: Component::KeystoreContainer,
                    })
                },
                Action::SpawnEssentialBlocking {
                    task_manager,
                    name,
                    task,
                } => {
                    &&& task_manager == Component::TaskManager
                    &&& (task == Component::BabeTask && name == "babe") || (task
                        == Component::GrandpaVoter && name == "grandpa-voter")
                },
                Action::Spawn {
                    task_manager,
                    name,
                    task,
                } => {
                    &&& task_manager == Component::TaskManager
                    &&& name == "authority-discovery-worker"
                    &&& task == Component::AuthorityDiscoveryWorker
                },
                _ => true,
            }) by {
        lemma_full_step_at(config, authority_discovery_disabled, steps, i);
        reveal(full_step);
    }
}

/// What is handed over of a full node is its task manager, its client and its RPC
/// handlers. Its configuration is the one it was given in everything but the metrics
/// registry, which is there exactly if it was, on the same port, with the prefix DRML
/// and no labels.
pub proof fn law_full_node_keeps_its_configuration<RuntimeApi, Executor>(
    config: Configuration,
    authority_discovery_disabled: bool,
    r: Result<Node<(Component, FullClient<RuntimeApi, Executor>, Component)>, ServiceError>,
)
    requires
        is_full_layout(config, authority_discovery_disabled, r),
        r is Ok,
    ensures
        r->Ok_0.parts.0 == Component::TaskManager,
        r->Ok_0.parts.1.component == Component::Client,
        r->Ok_0.parts.2 == Component::RpcHandlers,
        r->Ok_0.config.role == config.role,
        r->Ok_0.config.keystore == config.keystore,
        r->Ok_0.config.keystore_remote == config.keystore_remote,
        r->Ok_0.config.network == config.network,
        r->Ok_0.config.offchain_worker == config.offchain_worker,
        r->Ok_0.config.force_authoring == config.force_authoring,
        r->Ok_0.config.disable_grandpa == config.disable_grandpa,
        r->Ok_0.config.cli == config.cli,
        r->Ok_0.config.prometheus_config is Some <==> config.prometheus_config is Some,
        config.prometheus_config is Some ==> {
            let served = r->Ok_0.config.prometheus_config->0;
            &&& served.port == config.prometheus_config->0.port
            &&& registry_prefix(served.registry) == Some("DRML"@)
            &&& registry_labels(served.registry) is None
        },
{
}

/// A full node is refused exactly if it asks for a remote keystore, and is told so in
/// these words.
pub proof fn law_full_node_refuses_remote_keystores_only<RuntimeApi, Executor>(
    config: Configuration,
    authority_discovery_disabled: bool,
    r: Result<Node<(Component, FullClient<RuntimeApi, Executor>, Component)>, ServiceError>,
)
    requires
        is_full_layout(config, authority_discovery_disabled, r),
    ensures
        r is Err <==> config.keystore_remote is Some,
        r is Err ==> (r->Err_0 matches ServiceError::Other(reason) && reason@
            == "Remote Keystores are not supported."@),
{
}

} // verus!
