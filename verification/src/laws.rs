//! What holds of every node, whatever its configuration.

use crate::action::{Action, CanAuthorWith};
use crate::component::Component;
use crate::config::Configuration;
use crate::error::ServiceError;
use crate::rpc::{DenyUnsafe, FullDeps, FullRpc, GrandpaDeps};
use crate::runtime::FullClient;
use crate::service::{
    full_steps, is_full_layout, is_partial_layout, laid_out_steps, light_steps, partial_steps,
    Assembly, Node, PartialComponents,
};
use crate::startup::{law_startup_follows_its_outcomes, StartupView};
use crate::wiring::makes;
use vstd::prelude::*;

verus! {

/// A full node begins with the very steps that chain operations take under the
/// same configuration.
pub proof fn law_full_node_begins_like_chain_ops(
    config: Configuration,
    authority_discovery_disabled: bool,
)
    ensures
        partial_steps(config.role.authority, config.spec_registry()).is_prefix_of(
            full_steps(config, authority_discovery_disabled),
        ),
{
}

/// The network of a full node is started once, after everything else.
pub proof fn law_full_network_starts_last(
    config: Configuration,
    authority_discovery_disabled: bool,
)
    ensures
        ({
            let steps = full_steps(config, authority_discovery_disabled);
            &&& steps.len() > 0
            &&& forall|i: int|
                0 <= i < steps.len() ==> (#[trigger] steps[i] is StartNetwork <==> i
                    == steps.len() - 1)
        }),
{
}

/// The network of a light node is started once, after everything else.
pub proof fn law_light_network_starts_last(config: Configuration)
    ensures
        ({
            let steps = light_steps(config);
            &&& steps.len() > 0
            &&& forall|i: int|
                0 <= i < steps.len() ==> (#[trigger] steps[i] is StartNetwork <==> i
                    == steps.len() - 1)
        }),
{
}

/// Whether `steps` builds the network, adds the peers of finality, and does all
/// that it adds to the network's configuration before it builds the network.
pub open spec fn prepares_network(steps: Seq<Action>) -> bool {
    &&& exists|i: int| 0 <= i < steps.len() && #[trigger] steps[i] is AddPeersSet
    &&& exists|j: int| 0 <= j < steps.len() && #[trigger] steps[j] is BuildNetwork
    &&& forall|i: int, j: int|
        0 <= i < steps.len() && 0 <= j < steps.len() && (#[trigger] steps[i] is AddPeersSet
            || steps[i] is AddWarpSyncProtocol) && #[trigger] steps[j] is BuildNetwork ==> i < j
}

/// The network of a full node is built once its configuration is complete.
pub proof fn law_full_network_is_prepared(
    config: Configuration,
    authority_discovery_disabled: bool,
)
    ensures
        prepares_network(full_steps(config, authority_discovery_disabled)),
{
    let steps = full_steps(config, authority_discovery_disabled);
    let at_network = partial_steps(config.role.authority, config.spec_registry()).len() as int;
    let built = at_network + crate::service::full_network_steps(config.cli).len() - 1;
    assert(steps[at_network] is AddPeersSet);
    assert(steps[built] is BuildNetwork);
    assert forall|i: int| 0 <= i < steps.len() && #[trigger] steps[i] is BuildNetwork implies i
        == built by {
    }
    assert forall|i: int|
        0 <= i < steps.len() && (#[trigger] steps[i] is AddPeersSet
            || steps[i] is AddWarpSyncProtocol) implies i < built by {
    }
}

/// The network of a light node is built once its configuration is complete.
pub proof fn law_light_network_is_prepared(config: Configuration)
    ensures
        prepares_network(light_steps(config)),
{
    let steps = light_steps(config);
    assert(steps[1] is AddPeersSet);
    assert(steps[9] is BuildNetwork);
    assert forall|i: int| 0 <= i < steps.len() && #[trigger] steps[i] is BuildNetwork implies i
        == 9 by {
    }
    assert forall|i: int|
        0 <= i < steps.len() && (#[trigger] steps[i] is AddPeersSet
            || steps[i] is AddWarpSyncProtocol) implies i < 9 by {
    }
}

/// Whether one of `steps` is of a given kind.
pub open spec fn some_step(steps: Seq<Action>, kind: spec_fn(Action) -> bool) -> bool {
    exists|i: int| 0 <= i < steps.len() && kind(#[trigger] steps[i])
}

/// One of two runs of steps is of a given kind if a step of either is.
pub proof fn lemma_some_concat(first: Seq<Action>, second: Seq<Action>, kind: spec_fn(Action) -> bool)
    ensures
        some_step(first + second, kind) <==> (some_step(first, kind) || some_step(second, kind)),
{
    let both = first + second;
    if some_step(first, kind) {
        let i = choose|i: int| 0 <= i < first.len() && kind(#[trigger] first[i]);
        assert(kind(both[i]));
    }
    if some_step(second, kind) {
        let i = choose|i: int| 0 <= i < second.len() && kind(#[trigger] second[i]);
        assert(kind(both[first.len() + i]));
    }
    if some_step(both, kind) {
        let i = choose|i: int| 0 <= i < both.len() && kind(#[trigger] both[i]);
        if i < first.len() {
            assert(kind(first[i]));
        } else {
            assert(kind(second[i - first.len()]));
        }
    }
}

/// A step of a full node is a step of one of the runs that make it up.
pub proof fn lemma_some_full(
    config: Configuration,
    authority_discovery_disabled: bool,
    kind: spec_fn(Action) -> bool,
)
    ensures
        some_step(full_steps(config, authority_discovery_disabled), kind) <==> {
            ||| some_step(partial_steps(config.role.authority, config.spec_registry()), kind)
            ||| some_step(crate::service::full_network_steps(config.cli), kind)
            ||| some_step(
                crate::service::offchain_worker_steps(config.offchain_worker.enabled),
                kind,
            )
            ||| some_step(
                seq![crate::service::spawn_full_tasks(config.role.authority)],
                kind,
            )
            ||| some_step(
                crate::service::authoring_steps(
                    config.role.authority,
                    config.force_authoring,
                    config.spec_registry(),
                ),
                kind,
            )
            ||| some_step(crate::service::finality_steps(config), kind)
            ||| some_step(
                crate::service::authority_discovery_steps(
                    config.role.authority,
                    authority_discovery_disabled,
                    config.spec_registry(),
                ),
                kind,
            )
            ||| some_step(seq![crate::service::start_network()], kind)
        },
{
    let registry = config.spec_registry();
    let authority = config.role.authority;
    let t1 = partial_steps(authority, registry);
    let network = crate::service::full_network_steps(config.cli);
    let offchain = crate::service::offchain_worker_steps(config.offchain_worker.enabled);
    let tasks = seq![crate::service::spawn_full_tasks(authority)];
    let authoring = crate::service::authoring_steps(authority, config.force_authoring, registry);
    let finality = crate::service::finality_steps(config);
    let discovery = crate::service::authority_discovery_steps(
        authority,
        authority_discovery_disabled,
        registry,
    );
    let start = seq![crate::service::start_network()];
    lemma_some_concat(t1, network, kind);
    let t2 = t1 + network;
    lemma_some_concat(t2, offchain, kind);
    let t3 = t2 + offchain;
    lemma_some_concat(t3, tasks, kind);
    let t4 = t3 + tasks;
    lemma_some_concat(t4, authoring, kind);
    let t5 = t4 + authoring;
    lemma_some_concat(t5, finality, kind);
    let t6 = t5 + finality;
    lemma_some_concat(t6, discovery, kind);
    let t7 = t6 + discovery;
    lemma_some_concat(t7, start, kind);
}

/// The kind of step that makes the block production task.
pub open spec fn authors() -> spec_fn(Action) -> bool {
    |action: Action| action is StartBabe
}

/// The kind of step that makes the finality voter.
pub open spec fn votes() -> spec_fn(Action) -> bool {
    |action: Action| action is RunGrandpaVoter
}

/// The kind of step that makes the authority discovery worker.
pub open spec fn discovers() -> spec_fn(Action) -> bool {
    |action: Action| action is CreateAuthorityDiscovery
}

/// The kind of step that spawns the block production task, as one that the node
/// cannot do without.
pub open spec fn spawns_authoring() -> spec_fn(Action) -> bool {
    |action: Action|
        action == (Action::SpawnEssentialBlocking {
            task_manager: Component::TaskManager,
            name: "babe",
            task: Component::BabeTask,
        })
}

/// The kind of step that spawns the finality voter, as a task that the node cannot
/// do without.
pub open spec fn spawns_voting() -> spec_fn(Action) -> bool {
    |action: Action|
        action == (Action::SpawnEssentialBlocking {
            task_manager: Component::TaskManager,
            name: "grandpa-voter",
            task: Component::GrandpaVoter,
        })
}

/// The kind of step that spawns the authority discovery worker, as a task like any
/// other.
pub open spec fn spawns_discovery() -> spec_fn(Action) -> bool {
    |action: Action|
        action == (Action::Spawn {
            task_manager: Component::TaskManager,
            name: "authority-discovery-worker",
            task: Component::AuthorityDiscoveryWorker,
        })
}

/// The kind of step by which a node runs offchain workers.
pub open spec fn works_offchain() -> spec_fn(Action) -> bool {
    |action: Action| action is BuildOffchainWorkers
}

/// The kind of step by which a node answers warp sync requests.
pub open spec fn answers_warp_sync() -> spec_fn(Action) -> bool {
    |action: Action| action is AddWarpSyncProtocol
}

/// When a full node makes the block production task.
proof fn lemma_authors(config: Configuration, authority_discovery_disabled: bool)
    ensures
        some_step(full_steps(config, authority_discovery_disabled), authors()) <==> config.role.authority,
{
    lemma_some_full(config, authority_discovery_disabled, authors());
    let authoring = crate::service::authoring_steps(
        config.role.authority,
        config.force_authoring,
        config.spec_registry(),
    );
    if config.role.authority {
        assert(authors()(authoring[1]));
    }
}

/// When a full node makes the finality voter.
proof fn lemma_votes(config: Configuration, authority_discovery_disabled: bool)
    ensures
        some_step(full_steps(config, authority_discovery_disabled), votes()) <==> !config.disable_grandpa,
{
    lemma_some_full(config, authority_discovery_disabled, votes());
    let finality = crate::service::finality_steps(config);
    if !config.disable_grandpa {
        assert(votes()(finality[0]));
    }
}

/// When a full node makes the authority discovery worker.
proof fn lemma_discovers(config: Configuration, authority_discovery_disabled: bool)
    ensures
        some_step(full_steps(config, authority_discovery_disabled), discovers()) <==> (config.role.authority && !authority_discovery_disabled),
{
    lemma_some_full(config, authority_discovery_disabled, discovers());
    let discovery = crate::service::authority_discovery_steps(
        config.role.authority,
        authority_discovery_disabled,
        config.spec_registry(),
    );
    if config.role.authority && !authority_discovery_disabled {
        assert(discovers()(discovery[1]));
    }
}

/// When a full node spawns the block production task.
proof fn lemma_spawns_authoring(config: Configuration, authority_discovery_disabled: bool)
    ensures
        some_step(full_steps(config, authority_discovery_disabled), spawns_authoring())
            <==> config.role.authority,
{
    lemma_some_full(config, authority_discovery_disabled, spawns_authoring());
    let authoring = crate::service::authoring_steps(
        config.role.authority,
        config.force_authoring,
        config.spec_registry(),
    );
    if config.role.authority {
        assert(spawns_authoring()(authoring[2]));
    }
}

/// When a full node spawns the finality voter.
proof fn lemma_spawns_voting(config: Configuration, authority_discovery_disabled: bool)
    ensures
        some_step(full_steps(config, authority_discovery_disabled), spawns_voting())
            <==> !config.disable_grandpa,
{
    lemma_some_full(config, authority_discovery_disabled, spawns_voting());
    let finality = crate::service::finality_steps(config);
    if !config.disable_grandpa {
        assert(spawns_voting()(finality[1]));
    }
}

/// When a full node spawns the authority discovery worker.
proof fn lemma_spawns_discovery(config: Configuration, authority_discovery_disabled: bool)
    ensures
        some_step(full_steps(config, authority_discovery_disabled), spawns_discovery()) <==> (
        config.role.authority && !authority_discovery_disabled),
{
    lemma_some_full(config, authority_discovery_disabled, spawns_discovery());
    let discovery = crate::service::authority_discovery_steps(
        config.role.authority,
        authority_discovery_disabled,
        config.spec_registry(),
    );
    if config.role.authority && !authority_discovery_disabled {
        assert(spawns_discovery()(discovery[2]));
    }
}

/// When a full node runs offchain workers.
proof fn lemma_works_offchain(config: Configuration, authority_discovery_disabled: bool)
    ensures
        some_step(full_steps(config, authority_discovery_disabled), works_offchain()) <==> config.offchain_worker.enabled,
{
    lemma_some_full(config, authority_discovery_disabled, works_offchain());
    let offchain = crate::service::offchain_worker_steps(config.offchain_worker.enabled);
    if config.offchain_worker.enabled {
        assert(works_offchain()(offchain[0]));
    }
}

/// When a full node answers warp sync requests.
proof fn lemma_answers_warp_sync(config: Configuration, authority_discovery_disabled: bool)
    ensures
        some_step(full_steps(config, authority_discovery_disabled), answers_warp_sync()) <==> config.cli,
{
    lemma_some_full(config, authority_discovery_disabled, answers_warp_sync());
    let network = crate::service::full_network_steps(config.cli);
    if config.cli {
        assert(answers_warp_sync()(network[1]));
    }
}

/// Each optional task of a full node runs exactly if its role and configuration
/// ask for it: authorities author; everybody votes on finality unless told not to;
/// authorities are discovered unless that is switched off; offchain workers run if
/// enabled; and warp sync requests are answered by builds with the command line
/// interface. To run a task is to make it and to spawn it: block production and the
/// voter as tasks that the node cannot do without, discovery as one like any other.
pub proof fn law_full_node_runs_what_it_is_asked_to(
    config: Configuration,
    authority_discovery_disabled: bool,
)
    ensures
        ({
            let steps = full_steps(config, authority_discovery_disabled);
            &&& some_step(steps, authors()) <==> config.role.authority
            &&& some_step(steps, spawns_authoring()) <==> config.role.authority
            &&& some_step(steps, votes()) <==> !config.disable_grandpa
            &&& some_step(steps, spawns_voting()) <==> !config.disable_grandpa
            &&& some_step(steps, discovers()) <==> (config.role.authority
                && !authority_discovery_disabled)
            &&& some_step(steps, spawns_discovery()) <==> (config.role.authority
                && !authority_discovery_disabled)
            &&& some_step(steps, works_offchain()) <==> config.offchain_worker.enabled
            &&& some_step(steps, answers_warp_sync()) <==> config.cli
        }),
{
    lemma_authors(config, authority_discovery_disabled);
    lemma_spawns_authoring(config, authority_discovery_disabled);
    lemma_votes(config, authority_discovery_disabled);
    lemma_spawns_voting(config, authority_discovery_disabled);
    lemma_discovers(config, authority_discovery_disabled);
    lemma_spawns_discovery(config, authority_discovery_disabled);
    lemma_works_offchain(config, authority_discovery_disabled);
    lemma_answers_warp_sync(config, authority_discovery_disabled);
}

/// Whether a step spawns a task.
pub open spec fn spawns(action: Action) -> bool {
    action is SpawnEssentialBlocking || action is Spawn
}

/// A full node spawns no task of its own but block production, the voter and
/// discovery, each in its one way, and a light node spawns none.
pub proof fn law_tasks_are_spawned_in_one_way(
    config: Configuration,
    authority_discovery_disabled: bool,
)
    ensures
        forall|i: int|
            0 <= i < full_steps(config, authority_discovery_disabled).len() ==> {
                let step = #[trigger] full_steps(config, authority_discovery_disabled)[i];
                spawns(step) ==> spawns_authoring()(step) || spawns_voting()(step)
                    || spawns_discovery()(step)
            },
        forall|i: int|
            0 <= i < light_steps(config).len() ==> !spawns(#[trigger] light_steps(config)[i]),
{
}

/// A full node that is no authority signs nothing: it authors no block, publishes
/// no address, and votes, if it runs the voter at all, without keys. An authority
/// that votes votes with its keys.
pub proof fn law_only_authorities_sign(config: Configuration, authority_discovery_disabled: bool)
    ensures
        forall|i: int|
            0 <= i < full_steps(config, authority_discovery_disabled).len() ==> {
                let step = #[trigger] full_steps(config, authority_discovery_disabled)[i];
                &&& step is StartBabe ==> config.role.authority
                &&& step is CreateAuthorityDiscovery ==> config.role.authority
                &&& step is RunGrandpaVoter ==> (step->grandpa.config.keystore is Some
                    <==> config.role.authority)
            },
{
}

/// A light node never authors, votes or publishes addresses, and its import queue
/// holds that nobody can author.
pub proof fn law_light_node_never_authors(config: Configuration)
    ensures
        forall|i: int|
            0 <= i < light_steps(config).len() ==> {
                let step = #[trigger] light_steps(config)[i];
                &&& !(step is StartBabe)
                &&& !(step is RunGrandpaVoter)
                &&& !(step is CreateAuthorityDiscovery)
                &&& step is CreateImportQueue ==> step->can_author_with == CanAuthorWith::Never
            },
{
}

/// Metrics are collected wherever they can be, or not at all: every step of a full
/// or a light node that takes a metrics registry is handed one exactly if the
/// configuration has one.
pub proof fn law_metrics_are_all_or_nothing(
    config: Configuration,
    authority_discovery_disabled: bool,
)
    ensures
        forall|i: int|
            0 <= i < full_steps(config, authority_discovery_disabled).len() ==> hands_out(
                #[trigger] full_steps(config, authority_discovery_disabled)[i],
                config.spec_registry(),
            ),
        forall|i: int|
            0 <= i < light_steps(config).len() ==> hands_out(
                #[trigger] light_steps(config)[i],
                config.spec_registry(),
            ),
{
}

/// Whether a step, if it takes a metrics registry, is handed `registry`.
pub open spec fn hands_out(action: Action, registry: Option<Component>) -> bool {
    match action {
        Action::CreateFullPool { prometheus_registry, .. } => prometheus_registry == registry,
        Action::CreateLightPool { prometheus_registry, .. } => prometheus_registry == registry,
        Action::CreateImportQueue { prometheus_registry, .. } => prometheus_registry == registry,
        Action::CreateProposer { prometheus_registry, .. } => prometheus_registry == registry,
        Action::RunGrandpaVoter { grandpa } => grandpa.prometheus_registry == registry,
        Action::CreateAuthorityDiscovery { prometheus_registry, .. } => prometheus_registry
            == registry,
        _ => true,
    }
}

/// Replacing the metrics registry again changes no more than replacing it once,
/// and neither adds nor removes one.
pub proof fn law_replacing_the_registry_settles(
    first: Configuration,
    second: Configuration,
    third: Configuration,
)
    requires
        crate::metrics::registry_replaced(first, second),
        crate::metrics::registry_replaced(second, third),
    ensures
        crate::metrics::registry_replaced(first, third),
        second.spec_registry() == first.spec_registry(),
{
}

/// A full node whose startup fails never goes on the network: no step that was
/// taken started it.
pub proof fn law_failed_full_node_stays_off_the_network<E>(
    config: Configuration,
    authority_discovery_disabled: bool,
    outcomes: Seq<Result<(), E>>,
)
    requires
        StartupView::<E>::fresh(full_steps(config, authority_discovery_disabled)).admits_all(
            outcomes,
        ),
        outcomes.len() > 0,
        outcomes.last() is Err,
    ensures
        ({
            let end = StartupView::<E>::fresh(
                full_steps(config, authority_discovery_disabled),
            ).after_all(outcomes);
            forall|i: int|
                0 <= i < end.taken_steps().len() ==> !(#[trigger] end.taken_steps()[i]
                    is StartNetwork)
        }),
{
    let steps = full_steps(config, authority_discovery_disabled);
    law_startup_follows_its_outcomes(steps, outcomes);
    law_full_network_starts_last(config, authority_discovery_disabled);
    let end = StartupView::<E>::fresh(steps).after_all(outcomes);
    assert forall|i: int| 0 <= i < end.taken_steps().len() implies !(
    #[trigger] end.taken_steps()[i] is StartNetwork) by {
        assert(end.taken_steps()[i] == steps[i]);
    }
}

/// A light node whose startup fails never goes on the network: no step that was
/// taken started it.
pub proof fn law_failed_light_node_stays_off_the_network<E>(
    config: Configuration,
    outcomes: Seq<Result<(), E>>,
)
    requires
        StartupView::<E>::fresh(light_steps(config)).admits_all(outcomes),
        outcomes.len() > 0,
        outcomes.last() is Err,
    ensures
        ({
            let end = StartupView::<E>::fresh(light_steps(config)).after_all(outcomes);
            forall|i: int|
                0 <= i < end.taken_steps().len() ==> !(#[trigger] end.taken_steps()[i]
                    is StartNetwork)
        }),
{
    let steps = light_steps(config);
    law_startup_follows_its_outcomes(steps, outcomes);
    law_light_network_starts_last(config);
    let end = StartupView::<E>::fresh(steps).after_all(outcomes);
    assert forall|i: int| 0 <= i < end.taken_steps().len() implies !(
    #[trigger] end.taken_steps()[i] is StartNetwork) by {
        assert(end.taken_steps()[i] == steps[i]);
    }
}

/// Every full node that asks for a remote keystore is refused alike: in the same
/// words, whatever the address, the role and the rest of the configuration, and
/// with no step to take.
pub proof fn law_remote_keystores_are_refused_alike<RuntimeApi, Executor>(
    config1: Configuration,
    disabled1: bool,
    r1: Result<Node<(Component, FullClient<RuntimeApi, Executor>, Component)>, ServiceError>,
    config2: Configuration,
    disabled2: bool,
    r2: Result<Node<(Component, FullClient<RuntimeApi, Executor>, Component)>, ServiceError>,
)
    requires
        config1.keystore_remote is Some,
        config2.keystore_remote is Some,
        is_full_layout(config1, disabled1, r1),
        is_full_layout(config2, disabled2, r2),
    ensures
        r1 is Err,
        r2 is Err,
        r1->Err_0 is Other,
        r2->Err_0 is Other,
        r1->Err_0->Other_0@ == r2->Err_0->Other_0@,
        laid_out_steps(r1) == Seq::<Action>::empty(),
        laid_out_steps(r2) == Seq::<Action>::empty(),
{
}

/// The RPC extensions of a full node can be created any number of times. Each time
/// they carry what the caller says, the role too. They hold on to the client, the
/// pool, the keystore and the rule that picks the best chain, all of them common
/// parts, and to a copy of the configuration's chain specification. Two sets of
/// extensions differ in nothing but what their callers say.
pub proof fn law_rpc_extensions_share_their_parts<RuntimeApi, Executor>(
    before: Configuration,
    after: Configuration,
    r: Result<Assembly<PartialComponents<RuntimeApi, Executor>>, ServiceError>,
    deny_unsafe1: DenyUnsafe,
    is_authority1: bool,
    network1: Component,
    subscription_executor1: Component,
    deny_unsafe2: DenyUnsafe,
    is_authority2: bool,
    network2: Component,
    subscription_executor2: Component,
)
    requires
        is_partial_layout(before, after, r),
        r is Ok,
    ensures
        ({
            let steps = r->Ok_0.steps@;
            let parts = r->Ok_0.parts;
            let rpc1 = parts.rpc_extensions_builder.spec_build(
                deny_unsafe1,
                is_authority1,
                network1,
                subscription_executor1,
            );
            let rpc2 = parts.rpc_extensions_builder.spec_build(
                deny_unsafe2,
                is_authority2,
                network2,
                subscription_executor2,
            );
            &&& rpc1.deps.deny_unsafe == deny_unsafe1
            &&& rpc1.deps.is_authority == is_authority1
            &&& rpc1.deps.network == network1
            &&& rpc1.deps.grandpa.subscription_executor == subscription_executor1
            &&& rpc1.deps.client == parts.client.component
            &&& rpc1.deps.pool == parts.transaction_pool
            &&& rpc1.deps.select_chain == parts.select_chain
            &&& rpc1.deps.babe.keystore == parts.keystore_container
            &&& exists|i: int|
                0 <= i < steps.len() && makes(#[trigger] steps[i]).contains(rpc1.deps.chain_spec)
            &&& forall|i: int|
                0 <= i < steps.len() && makes(#[trigger] steps[i]).contains(rpc1.deps.chain_spec)
                    ==> steps[i] == (Action::CopyChainSpec { config: Component::Configuration })
            &&& rpc2 == (FullRpc {
                deps: FullDeps {
                    deny_unsafe: deny_unsafe2,
                    is_authority: is_authority2,
                    network: network2,
                    grandpa: GrandpaDeps {
                        subscription_executor: subscription_executor2,
                        ..rpc1.deps.grandpa
                    },
                    ..rpc1.deps
                },
                ..rpc1
            })
        }),
{
    let steps = r->Ok_0.steps@;
    assert(makes(steps[16]).contains(Component::ChainSpec));
}

} // verus!
