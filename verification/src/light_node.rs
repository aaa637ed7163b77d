//! What a light node is: which steps it takes, in which order, and with what.

use crate::action::{Action, CanAuthorWith, PeersSet};
use crate::component::Component;
use crate::config::Configuration;
use crate::error::ServiceError;
use crate::full_node::{ascends, every_step, lemma_ascends_concat, lemma_every_concat};
use crate::laws::{lemma_some_concat, some_step};
use crate::metrics::{registry_labels, registry_prefix};
use crate::rpc::RpcExtensions;
use crate::service::{is_light_layout, light_steps, Node};
use vstd::prelude::*;

verus! {

/// What each step of a light node is.
#[verifier::opaque]
spec fn light_step(config: Configuration, action: Action) -> bool {
    match action {
        Action::CreateLightPool { prometheus_registry, config: pool_config, spawner, client, fetcher, .. } => {
            &&& prometheus_registry == (if config.prometheus_config is Some {
                Some(Component::PrometheusRegistry)
            } else {
                None
            })
            &&& pool_config == Component::Configuration
            &&& spawner == Component::TaskManager
            &&& client == Component::Client
            &&& fetcher == Component::OnDemand
        },
        Action::CreateImportQueue { prometheus_registry, babe_link, block_import, justification_import, client, select_chain, inherent_data_providers, spawner, can_author_with, .. } => {
            &&& prometheus_registry == (if config.prometheus_config is Some {
                Some(Component::PrometheusRegistry)
            } else {
                None
            })
            &&& babe_link == Component::BabeLink
            &&& block_import == Component::BabeBlockImport
            &&& justification_import == Some(Component::GrandpaBlockImport)
            &&& client == Component::Client
            &&& select_chain == Component::SelectChain
            &&& inherent_data_providers == Component::InherentDataProviders
            &&& spawner == Component::TaskManager
            &&& can_author_with == CanAuthorWith::Never
        },
        Action::CreateLightParts { config: parts_config, .. } => {
            &&& parts_config == Component::Configuration
        },
        Action::SelectLongestChain { backend, .. } => {
            &&& backend == Component::Backend
        },
        Action::CreateGrandpaBlockImport { client, genesis_authorities, select_chain, authority_set_hard_forks, .. } => {
            &&& client == Component::Client
            &&& genesis_authorities == Component::Client
            &&& select_chain == Component::SelectChain
            &&& authority_set_hard_forks is None
        },
        Action::ReadBabeConfig { client, .. } => {
            &&& client == Component::Client
        },
        Action::CreateBabeBlockImport { config: babe_config, inner, client, .. } => {
            &&& babe_config == Component::BabeConfig
            &&& inner == Component::GrandpaBlockImport
            &&& client == Component::Client
        },
        Action::AddPeersSet { config: network_config, set, .. } => {
            &&& network_config == Component::Configuration
            &&& set == PeersSet::Grandpa
        },
        Action::BuildNetwork { config: network_config, client, transaction_pool, spawner, import_queue, on_demand, block_announce_validator_builder, .. } => {
            &&& network_config == Component::Configuration
            &&& client == Component::Client
            &&& transaction_pool == Component::TransactionPool
            &&& spawner == Component::TaskManager
            &&& import_queue == Component::ImportQueue
            &&& on_demand == Some(Component::OnDemand)
            &&& block_announce_validator_builder is None
        },
        Action::BuildOffchainWorkers { config: worker_config, backend, spawner, client, network, .. } => {
            &&& worker_config == Component::Configuration
            &&& backend == Component::Backend
            &&& spawner == Component::TaskManager
            &&& client == Component::Client
            &&& network == Component::Network
        },
        Action::StartNetwork { starter, .. } => {
            &&& starter == Component::NetworkStarter
        },
        Action::CreateLightRpc { deps, .. } => {
            &&& deps.remote_blockchain == Component::Backend
            &&& deps.fetcher == Component::OnDemand
            &&& deps.client == Component::Client
            &&& deps.pool == Component::TransactionPool
        },
        Action::SpawnTasks { config: task_config, backend, client, keystore, network, rpc_extensions, transaction_pool, task_manager, on_demand, remote_blockchain, telemetry_span, network_status_sinks, system_rpc_tx, .. } => {
            &&& task_config == Component::Configuration
            &&& backend == Component::Backend
            &&& client == Component::Client
            &&& keystore == Component::KeystoreContainer
            &&& network == Component::Network
            &&& transaction_pool == Component::TransactionPool
            &&& task_manager == Component::TaskManager
            &&& on_demand == Some(Component::OnDemand)
            &&& remote_blockchain == Some(Component::Backend)
            &&& telemetry_span == Component::TelemetrySpan
            &&& network_status_sinks == Component::NetworkStatusSinks
            &&& system_rpc_tx == Component::SystemRpcTx
            &&& rpc_extensions == RpcExtensions::Shared(Component::RpcExtension)
        },
        _ => true,
    }
}

/// That an action is what a step of a light node is said to be.
spec fn light_step_of(config: Configuration) -> spec_fn(Action) -> bool {
    |action: Action| light_step(config, action)
}

/// The basic steps of a light node are what they are said to be.
proof fn lemma_light_step_basic(config: Configuration)
    ensures
        every_step(crate::service::light_basic_steps(config.spec_registry()), light_step_of(config)),
{
    reveal(light_step);
    let steps = crate::service::light_basic_steps(config.spec_registry());
    assert forall|i: int| 0 <= i < steps.len() implies light_step_of(config)(#[trigger] steps[i]) by {
        assert(i == 0 || i == 1 || i == 2 || i == 3);
    }
}

/// The import and network steps of a light node are what they are said to be.
proof fn lemma_light_step_import(config: Configuration)
    ensures
        every_step(crate::service::light_import_steps(config.spec_registry()), light_step_of(config)),
{
    reveal(light_step);
    let steps = crate::service::light_import_steps(config.spec_registry());
    assert forall|i: int| 0 <= i < steps.len() implies light_step_of(config)(#[trigger] steps[i]) by {
        assert(i == 0 || i == 1 || i == 2 || i == 3 || i == 4 || i == 5);
    }
}

/// The offchain worker step of a light node is what it is said to be.
proof fn lemma_light_step_offchain(config: Configuration)
    ensures
        every_step(crate::service::offchain_worker_steps(config.offchain_worker.enabled), light_step_of(config)),
{
    reveal(light_step);
    let steps = crate::service::offchain_worker_steps(config.offchain_worker.enabled);
    assert forall|i: int| 0 <= i < steps.len() implies light_step_of(config)(#[trigger] steps[i]) by {
        assert(i == 0);
    }
}

/// The last steps of a light node are what they are said to be.
proof fn lemma_light_step_tasks(config: Configuration)
    ensures
        every_step(crate::service::light_task_steps(), light_step_of(config)),
{
    reveal(light_step);
    let steps = crate::service::light_task_steps();
    assert forall|i: int| 0 <= i < steps.len() implies light_step_of(config)(#[trigger] steps[i]) by {
        assert(i == 0 || i == 1 || i == 2);
    }
}

/// The step of a light node at `i` is what it is said to be.
proof fn lemma_light_step_at(config: Configuration, steps: Seq<Action>, i: int)
    requires
        steps == light_steps(config),
        0 <= i < steps.len(),
    ensures
        light_step(config, steps[i]),
{
    let is = light_step_of(config);
    let basic = crate::service::light_basic_steps(config.spec_registry());
    let import = crate::service::light_import_steps(config.spec_registry());
    let offchain = crate::service::offchain_worker_steps(config.offchain_worker.enabled);
    let tasks = crate::service::light_task_steps();
    lemma_light_step_basic(config);
    lemma_light_step_import(config);
    lemma_light_step_offchain(config);
    lemma_light_step_tasks(config);
    lemma_every_concat(basic, import, is);
    lemma_every_concat(basic + import, offchain, is);
    lemma_every_concat(basic + import + offchain, tasks, is);
    assert(is(steps[i]));
}

/// Where each step of a light node has its place.
spec fn light_place() -> spec_fn(Action) -> int {
    |action: Action|
        match action {
            Action::CreateLightParts { .. } => 0,
            Action::AddPeersSet { .. } => 1,
            Action::SelectLongestChain { .. } => 2,
            Action::CreateLightPool { .. } => 3,
            Action::CreateGrandpaBlockImport { .. } => 4,
            Action::ReadBabeConfig { .. } => 5,
            Action::CreateBabeBlockImport { .. } => 6,
            Action::CreateInherentDataProviders => 7,
            Action::CreateImportQueue { .. } => 8,
            Action::BuildNetwork { .. } => 9,
            Action::BuildOffchainWorkers { .. } => 10,
            Action::CreateLightRpc { .. } => 11,
            Action::SpawnTasks { .. } => 12,
            Action::StartNetwork { .. } => 13,
            _ => -1,
        }
}

/// The steps of a light node ascend.
proof fn lemma_light_ascends(config: Configuration)
    ensures
        ascends(light_steps(config), light_place(), 0, 14),
{
    let place = light_place();
    let basic = crate::service::light_basic_steps(config.spec_registry());
    let import = crate::service::light_import_steps(config.spec_registry());
    let offchain = crate::service::offchain_worker_steps(config.offchain_worker.enabled);
    let tasks = crate::service::light_task_steps();
    assert(ascends(basic, place, 0, 4));
    assert(ascends(import, place, 4, 10));
    assert(ascends(offchain, place, 10, 11));
    assert(ascends(tasks, place, 11, 14));
    lemma_ascends_concat(basic, import, place, 0, 4, 10);
    lemma_ascends_concat(basic + import, offchain, place, 0, 10, 11);
    lemma_ascends_concat(basic + import + offchain, tasks, place, 0, 11, 14);
}

/// Which places are taken among the steps of a light node.
proof fn lemma_light_places(config: Configuration, at: int)
    ensures
        some_step(light_steps(config), |action: Action| light_place()(action) == at) <==> {
            ||| 0 <= at <= 9
            ||| at == 10 && config.offchain_worker.enabled
            ||| 11 <= at <= 13
        },
{
    let kind = |action: Action| light_place()(action) == at;
    let basic = crate::service::light_basic_steps(config.spec_registry());
    let import = crate::service::light_import_steps(config.spec_registry());
    let offchain = crate::service::offchain_worker_steps(config.offchain_worker.enabled);
    let tasks = crate::service::light_task_steps();
    lemma_some_concat(basic, import, kind);
    lemma_some_concat(basic + import, offchain, kind);
    lemma_some_concat(basic + import + offchain, tasks, kind);
    if 0 <= at <= 3 {
        assert(kind(basic[at]));
    }
    if 4 <= at <= 9 {
        assert(kind(import[at - 4]));
    }
    if at == 10 && config.offchain_worker.enabled {
        assert(kind(offchain[0]));
    }
    if 11 <= at <= 13 {
        assert(kind(tasks[at - 11]));
    }
}

/// Which steps a light node takes, and in which order: those at the places below, each
/// once and in the order of the places. Only the offchain workers depend on the
/// configuration: they are there exactly if they are enabled, whatever the role. `at`
/// is any place.
pub proof fn law_light_node_takes_these_steps_in_this_order(
    config: Configuration,
    r: Result<Node<(Component, Component, Component)>, ServiceError>,
    at: int,
)
    requires
        is_light_layout(config, r),
    ensures
        r is Ok,
        ({
            let steps = r->Ok_0.steps@;
            let place = |action: Action|
                match action {
                    Action::CreateLightParts { .. } => 0,
                    Action::AddPeersSet { .. } => 1,
                    Action::SelectLongestChain { .. } => 2,
                    Action::CreateLightPool { .. } => 3,
                    Action::CreateGrandpaBlockImport { .. } => 4,
                    Action::ReadBabeConfig { .. } => 5,
                    Action::CreateBabeBlockImport { .. } => 6,
                    Action::CreateInherentDataProviders => 7,
                    Action::CreateImportQueue { .. } => 8,
                    Action::BuildNetwork { .. } => 9,
                    Action::BuildOffchainWorkers { .. } => 10,
                    Action::CreateLightRpc { .. } => 11,
                    Action::SpawnTasks { .. } => 12,
                    Action::StartNetwork { .. } => 13,
                    _ => -1,
                };
            &&& forall|i: int| 0 <= i < steps.len() ==> 0 <= place(#[trigger] steps[i]) <= 13
            &&& forall|i: int, j: int|
                0 <= i < j < steps.len() ==> place(#[trigger] steps[i]) < place(#[trigger] steps[j])
            &&& (exists|i: int| 0 <= i < steps.len() && place(#[trigger] steps[i]) == at) <==> {
                ||| 0 <= at <= 9
                ||| at == 10 && config.offchain_worker.enabled
                ||| 11 <= at <= 13
            }
        }),
{
    let steps = r->Ok_0.steps@;
    lemma_light_ascends(config);
    let place = |action: Action|
        match action {
            Action::CreateLightParts { .. } => 0,
            Action::AddPeersSet { .. } => 1,
            Action::SelectLongestChain { .. } => 2,
            Action::CreateLightPool { .. } => 3,
            Action::CreateGrandpaBlockImport { .. } => 4,
            Action::ReadBabeConfig { .. } => 5,
            Action::CreateBabeBlockImport { .. } => 6,
            Action::CreateInherentDataProviders => 7,
            Action::CreateImportQueue { .. } => 8,
            Action::BuildNetwork { .. } => 9,
            Action::BuildOffchainWorkers { .. } => 10,
            Action::CreateLightRpc { .. } => 11,
            Action::SpawnTasks { .. } => 12,
            Action::StartNetwork { .. } => 13,
            _ => -1,
        };
    lemma_light_places(config, at);
    let kind = |action: Action| light_place()(action) == at;
    if some_step(steps, kind) {
        let i = choose|i: int| 0 <= i < steps.len() && kind(#[trigger] steps[i]);
        assert(place(steps[i]) == at);
    }
    if exists|i: int| 0 <= i < steps.len() && place(#[trigger] steps[i]) == at {
        let i = choose|i: int| 0 <= i < steps.len() && place(#[trigger] steps[i]) == at;
        assert(kind(steps[i]));
    }
}

/// Some step of a light node builds offchain workers exactly if they are enabled,
/// after the network and before the RPC extension.
pub proof fn law_light_node_works_offchain_if_enabled(
    config: Configuration,
    r: Result<Node<(Component, Component, Component)>, ServiceError>,
)
    requires
        is_light_layout(config, r),
    ensures
        (exists|i: int|
            0 <= i < r->Ok_0.steps@.len() && #[trigger] r->Ok_0.steps@[i] is BuildOffchainWorkers)
            <==> config.offchain_worker.enabled,
        forall|i: int, j: int|
            0 <= i < r->Ok_0.steps@.len() && 0 <= j < r->Ok_0.steps@.len()
                && #[trigger] r->Ok_0.steps@[i] is BuildOffchainWorkers ==> {
                let other = #[trigger] r->Ok_0.steps@[j];
                &&& other is BuildNetwork ==> j < i
                &&& other is CreateLightRpc ==> i < j
            },
{
    let steps = r->Ok_0.steps@;
    law_light_node_takes_these_steps_in_this_order(config, r, 10);
}

/// Every step of a light node that can collect metrics is handed the registry if the
/// configuration has a place to serve metrics, whatever else it says, and none if it
/// has not.
pub proof fn law_light_node_metrics_follow_the_configuration(
    config: Configuration,
    r: Result<Node<(Component, Component, Component)>, ServiceError>,
)
    requires
        is_light_layout(config, r),
    ensures
        forall|i: int|
            0 <= i < r->Ok_0.steps@.len() ==> match #[trigger] r->Ok_0.steps@[i] {
                Action::CreateLightPool {
                    prometheus_registry,
                    ..
                } => {
                    &&& prometheus_registry == (if config.prometheus_config is Some {
                        Some(Component::PrometheusRegistry)
                    } else {
                        None
                    })
                },
                Action::CreateImportQueue {
                    prometheus_registry,
                    ..
                } => {
                    &&& prometheus_registry == (if config.prometheus_config is Some {
                        Some(Component::PrometheusRegistry)
                    } else {
                        None
                    })
                },
                _ => true,
            },
{
    let steps = r->Ok_0.steps@;
    assert forall|i: int| 0 <= i < steps.len() implies (match #[trigger] steps[i] {
                Action::CreateLightPool {
                    prometheus_registry,
                    ..
                } => {
                    &&& prometheus_registry == (if config.prometheus_config is Some {
                        Some(Component::PrometheusRegistry)
                    } else {
                        None
                    })
                },
                Action::CreateImportQueue {
                    prometheus_registry,
                    ..
                } => {
                    &&& prometheus_registry == (if config.prometheus_config is Some {
                        Some(Component::PrometheusRegistry)
                    } else {
                        None
                    })
                },
                _ => true,
            }) by {
        lemma_light_step_at(config, steps, i);
        reveal(light_step);
    }
}

/// The basic parts of a light node are made from its configuration and from one
/// another. What it lacks is fetched on demand.
pub proof fn law_light_node_basic_parts(
    config: Configuration,
    r: Result<Node<(Component, Component, Component)>, ServiceError>,
)
    requires
        is_light_layout(config, r),
    ensures
        forall|i: int|
            0 <= i < r->Ok_0.steps@.len() ==> match #[trigger] r->Ok_0.steps@[i] {
                Action::CreateLightParts {
                    config: parts_config,
                } => {
                    &&& parts_config == Component::Configuration
                },
                Action::SelectLongestChain {
                    backend,
                } => {
                    &&& backend == Component::Backend
                },
                Action::CreateLightPool {
                    config: pool_config,
                    spawner,
                    client,
                    fetcher,
                    ..
                } => {
                    &&& pool_config == Component::Configuration
                    &&& spawner == Component::TaskManager
                    &&& client == Component::Client
                    &&& fetcher == Component::OnDemand
                },
                _ => true,
            },
{
    let steps = r->Ok_0.steps@;
    assert forall|i: int| 0 <= i < steps.len() implies (match #[trigger] steps[i] {
                Action::CreateLightParts {
                    config: parts_config,
                } => {
                    &&& parts_config == Component::Configuration
                },
                Action::SelectLongestChain {
                    backend,
                } => {
                    &&& backend == Component::Backend
                },
                Action::CreateLightPool {
                    config: pool_config,
                    spawner,
                    client,
                    fetcher,
                    ..
                } => {
                    &&& pool_config == Component::Configuration
                    &&& spawner == Component::TaskManager
                    &&& client == Component::Client
                    &&& fetcher == Component::OnDemand
                },
                _ => true,
            }) by {
        lemma_light_step_at(config, steps, i);
        reveal(light_step);
    }
}

/// A block that a light node imports goes through block production, then through
/// finality. Justifications go to finality at once. The import queue stands in front,
/// and holds that nobody may author.
pub proof fn law_light_node_imports_are_nested(
    config: Configuration,
    r: Result<Node<(Component, Component, Component)>, ServiceError>,
)
    requires
        is_light_layout(config, r),
    ensures
        forall|i: int|
            0 <= i < r->Ok_0.steps@.len() ==> match #[trigger] r->Ok_0.steps@[i] {
                Action::CreateGrandpaBlockImport {
                    client,
                    genesis_authorities,
                    select_chain,
                    authority_set_hard_forks,
                } => {
                    &&& client == Component::Client
                    &&& genesis_authorities == Component::Client
                    &&& select_chain == Component::SelectChain
                    &&& authority_set_hard_forks is None
                },
                Action::ReadBabeConfig {
                    client,
                } => {
                    &&& client == Component::Client
                },
                Action::CreateBabeBlockImport {
                    config: babe_config,
                    inner,
                    client,
                } => {
                    &&& babe_config == Component::BabeConfig
                    &&& inner == Component::GrandpaBlockImport
                    &&& client == Component::Client
                },
                Action::CreateImportQueue {
                    babe_link,
                    block_import,
                    justification_import,
                    client,
                    select_chain,
                    inherent_data_providers,
                    spawner,
                    can_author_with,
                    ..
                } => {
                    &&& babe_link == Component::BabeLink
                    &&& block_import == Component::BabeBlockImport
                    &&& justification_import == Some(Component::GrandpaBlockImport)
                    &&& client == Component::Client
                    &&& select_chain == Component::SelectChain
                    &&& inherent_data_providers == Component::InherentDataProviders
                    &&& spawner == Component::TaskManager
                    &&& can_author_with == CanAuthorWith::Never
                },
                _ => true,
            },
{
    let steps = r->Ok_0.steps@;
    assert forall|i: int| 0 <= i < steps.len() implies (match #[trigger] steps[i] {
                Action::CreateGrandpaBlockImport {
                    client,
                    genesis_authorities,
                    select_chain,
                    authority_set_hard_forks,
                } => {
                    &&& client == Component::Client
                    &&& genesis_authorities == Component::Client
                    &&& select_chain == Component::SelectChain
                    &&& authority_set_hard_forks is None
                },
                Action::ReadBabeConfig {
                    client,
                } => {
                    &&& client == Component::Client
                },
                Action::CreateBabeBlockImport {
                    config: babe_config,
                    inner,
                    client,
                } => {
                    &&& babe_config == Component::BabeConfig
                    &&& inner == Component::GrandpaBlockImport
                    &&& client == Component::Client
                },
                Action::CreateImportQueue {
                    babe_link,
                    block_import,
                    justification_import,
                    client,
                    select_chain,
                    inherent_data_providers,
                    spawner,
                    can_author_with,
                    ..
                } => {
                    &&& babe_link == Component::BabeLink
                    &&& block_import == Component::BabeBlockImport
                    &&& justification_import == Some(Component::GrandpaBlockImport)
                    &&& client == Component::Client
                    &&& select_chain == Component::SelectChain
                    &&& inherent_data_providers == Component::InherentDataProviders
                    &&& spawner == Component::TaskManager
                    &&& can_author_with == CanAuthorWith::Never
                },
                _ => true,
            }) by {
        lemma_light_step_at(config, steps, i);
        reveal(light_step);
    }
}

/// The network of a light node learns of the peers of finality, fetches on demand, and
/// validates no announcement of blocks. What runs on it are the node's own client,
/// pool and import queue.
pub proof fn law_light_node_network(
    config: Configuration,
    r: Result<Node<(Component, Component, Component)>, ServiceError>,
)
    requires
        is_light_layout(config, r),
    ensures
        forall|i: int|
            0 <= i < r->Ok_0.steps@.len() ==> match #[trigger] r->Ok_0.steps@[i] {
                Action::AddPeersSet {
                    config: network_config,
                    set,
                } => {
                    &&& network_config == Component::Configuration
                    &&& set == PeersSet::Grandpa
                },
                Action::BuildNetwork {
                    config: network_config,
                    client,
                    transaction_pool,
                    spawner,
                    import_queue,
                    on_demand,
                    block_announce_validator_builder,
                } => {
                    &&& network_config == Component::Configuration
                    &&& client == Component::Client
                    &&& transaction_pool == Component::TransactionPool
                    &&& spawner == Component::TaskManager
                    &&& import_queue == Component::ImportQueue
                    &&& on_demand == Some(Component::OnDemand)
                    &&& block_announce_validator_builder is None
                },
                Action::BuildOffchainWorkers {
                    config: worker_config,
                    backend,
                    spawner,
                    client,
                    network,
                } => {
                    &&& worker_config == Component::Configuration
                    &&& backend == Component::Backend
                    &&& spawner == Component::TaskManager
                    &&& client == Component::Client
                    &&& network == Component::Network
                },
                Action::StartNetwork {
                    starter,
                } => {
                    &&& starter == Component::NetworkStarter
                },
                _ => true,
            },
{
    let steps = r->Ok_0.steps@;
    assert forall|i: int| 0 <= i < steps.len() implies (match #[trigger] steps[i] {
                Action::AddPeersSet {
                    config: network_config,
                    set,
                } => {
                    &&& network_config == Component::Configuration
                    &&& set == PeersSet::Grandpa
                },
                Action::BuildNetwork {
                    config: network_config,
                    client,
                    transaction_pool,
                    spawner,
                    import_queue,
                    on_demand,
                    block_announce_validator_builder,
                } => {
                    &&& network_config == Component::Configuration
                    &&& client == Component::Client
                    &&& transaction_pool == Component::TransactionPool
                    &&& spawner == Component::TaskManager
                    &&& import_queue == Component::ImportQueue
                    &&& on_demand == Some(Component::OnDemand)
                    &&& block_announce_validator_builder is None
                },
                Action::BuildOffchainWorkers {
                    config: worker_config,
                    backend,
                    spawner,
                    client,
                    network,
                } => {
                    &&& worker_config == Component::Configuration
                    &&& backend == Component::Backend
                    &&& spawner == Component::TaskManager
                    &&& client == Component::Client
                    &&& network == Component::Network
                },
                Action::StartNetwork {
                    starter,
                } => {
                    &&& starter == Component::NetworkStarter
                },
                _ => true,
            }) by {
        lemma_light_step_at(config, steps, i);
        reveal(light_step);
    }
}

/// The tasks that every node runs are spawned with the light node's own parts. One RPC
/// extension serves every transport, and both it and the tasks consult the blockchain
/// remotely, through the fetcher.
pub proof fn law_light_node_tasks(
    config: Configuration,
    r: Result<Node<(Component, Component, Component)>, ServiceError>,
)
    requires
        is_light_layout(config, r),
    ensures
        forall|i: int|
            0 <= i < r->Ok_0.steps@.len() ==> match #[trigger] r->Ok_0.steps@[i] {
                Action::CreateLightRpc {
                    deps,
                } => {
                    &&& deps.remote_blockchain == Component::Backend
                    &&& deps.fetcher == Component::OnDemand
                    &&& deps.client == Component::Client
                    &&& deps.pool == Component::TransactionPool
                },
                Action::SpawnTasks {
                    config: task_config,
                    backend,
                    client,
                    keystore,
                    network,
                    rpc_extensions,
                    transaction_pool,
                    task_manager,
                    on_demand,
                    remote_blockchain,
                    telemetry_span,
                    network_status_sinks,
                    system_rpc_tx,
                } => {
                    &&& task_config == Component::Configuration
                    &&& backend == Component::Backend
                    &&& client == Component::Client
                    &&& keystore == Component::KeystoreContainer
                    &&& network == Component::Network
                    &&& transaction_pool == Component::TransactionPool
                    &&& task_manager == Component::TaskManager
                    &&& on_demand == Some(Component::OnDemand)
                    &&& remote_blockchain == Some(Component::Backend)
                    &&& telemetry_span == Component::TelemetrySpan
                    &&& network_status_sinks == Component::NetworkStatusSinks
                    &&& system_rpc_tx == Component::SystemRpcTx
                    &&& rpc_extensions == RpcExtensions::Shared(Component::RpcExtension)
                },
                _ => true,
            },
{
    let steps = r->Ok_0.steps@;
    assert forall|i: int| 0 <= i < steps.len() implies (match #[trigger] steps[i] {
                Action::CreateLightRpc {
                    deps,
                } => {
                    &&& deps.remote_blockchain == Component::Backend
                    &&& deps.fetcher == Component::OnDemand
                    &&& deps.client == Component::Client
                    &&& deps.pool == Component::TransactionPool
                },
                Action::SpawnTasks {
                    config: task_config,
                    backend,
                    client,
                    keystore,
                    network,
                    rpc_extensions,
                    transaction_pool,
                    task_manager,
                    on_demand,
                    remote_blockchain,
                    telemetry_span,
                    network_status_sinks,
                    system_rpc_tx,
                } => {
                    &&& task_config == Component::Configuration
                    &&& backend == Component::Backend
                    &&& client == Component::Client
                    &&& keystore == Component::KeystoreContainer
                    &&& network == Component::Network
                    &&& transaction_pool == Component::TransactionPool
                    &&& task_manager == Component::TaskManager
                    &&& on_demand == Some(Component::OnDemand)
                    &&& remote_blockchain == Some(Component::Backend)
                    &&& telemetry_span == Component::TelemetrySpan
                    &&& network_status_sinks == Component::NetworkStatusSinks
                    &&& system_rpc_tx == Component::SystemRpcTx
                    &&& rpc_extensions == RpcExtensions::Shared(Component::RpcExtension)
                },
                _ => true,
            }) by {
        lemma_light_step_at(config, steps, i);
        reveal(light_step);
    }
}

/// A light node is never refused. What is handed over of it is its task manager, its
/// RPC handlers and its notifier of telemetry connections. Its configuration is the one
/// it was given in everything but the metrics registry, which is there exactly if it
/// was, on the same port, with the prefix DRML and no labels.
pub proof fn law_light_node_keeps_its_configuration(
    config: Configuration,
    r: Result<Node<(Component, Component, Component)>, ServiceError>,
)
    requires
        is_light_layout(config, r),
    ensures
        r is Ok,
        r->Ok_0.parts.0 == Component::TaskManager,
        r->Ok_0.parts.1 == Component::RpcHandlers,
        r->Ok_0.parts.2 == Component::TelemetryConnectionNotifier,
        r->Ok_0.config.role == config.role,
        r->Ok_0.config.keystore == config.keystore,
        r->Ok_0.config.keystore_remote == config.keystore_remote,
        r->Ok_0.config.network == config.network,
        r->Ok_0.config.offchain_worker == config.offchain_worker,
        r->Ok_0.config.force_authoring == config.force_authoring,
        r->Ok_0.config.disable_grandpa == config.disable_grandpa,
        r->Ok_0.config.cli == config.cli,
        r->Ok_0.config.prometheus_config is Some <==> config.prometheus_config is Some,
        config.prometheus_config is Some ==> {
            let served = r->Ok_0.config.prometheus_config->0;
            &&& served.port == config.prometheus_config->0.port
            &&& registry_prefix(served.registry) == Some("DRML"@)
            &&& registry_labels(served.registry) is None
        },
{
}

} // verus!
