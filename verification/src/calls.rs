//! What each function gives, whatever it is called with.

use crate::action::Action;
use crate::component::Component;
use crate::config::{Configuration, Role};
use crate::error::ServiceError;
use crate::event::{dht_event, Event};
use crate::keystore::{hook_remote_keystore, remote_keystore};
use crate::metrics::{registry_labels, registry_prefix, set_prometheus_registry};
use crate::rpc::{DenyUnsafe, FullRpc, NodeRpcExtensionsBuilder, RpcExtensionsBuilder};
use crate::runtime::{
    ConstructRuntimeApi, FullClient, FullState, HyperspaceExecutor, HyperspaceRuntimeApi,
    LightClient, LightState, NativeExecutionDispatch, OpaqueBlock, RuntimeApiCollection,
};
use crate::service::{
    hyperspace_new_full, hyperspace_new_light, is_chain_ops_layout, is_full_layout,
    is_light_layout, is_partial_layout, new_chain_ops, new_full, new_light, new_partial, Assembly,
    Node, PartialComponents,
};
use crate::startup::Startup;
use sc_keystore::LocalKeystore;
use std::sync::Arc;
use vstd::prelude::*;

verus! {

/// Whatever `new_partial` returns and makes of the configuration is a layout of the
/// common parts.
pub proof fn law_new_partial_lays_out_common_parts<RuntimeApi, Executor>(
    config: &mut Configuration,
    r: Result<Assembly<PartialComponents<RuntimeApi, Executor>>, ServiceError>,
) where
    Executor: NativeExecutionDispatch,
    RuntimeApi: ConstructRuntimeApi<OpaqueBlock, FullClient<RuntimeApi, Executor>>,
    RuntimeApi::RuntimeApi: RuntimeApiCollection<StateBackend = FullState>,

    requires
        call_ensures(new_partial::<RuntimeApi, Executor>, (config,), r),
    ensures
        is_partial_layout(*old(config), *final(config), r),
{
}

/// Whatever `new_full` returns is a layout of the full node that is asked for.
pub proof fn law_new_full_lays_out_a_full_node<RuntimeApi, Executor>(
    config: Configuration,
    authority_discovery_disabled: bool,
    r: Result<Node<(Component, FullClient<RuntimeApi, Executor>, Component)>, ServiceError>,
) where
    Executor: NativeExecutionDispatch,
    RuntimeApi: ConstructRuntimeApi<OpaqueBlock, FullClient<RuntimeApi, Executor>>,
    RuntimeApi::RuntimeApi: RuntimeApiCollection<StateBackend = FullState>,

    requires
        call_ensures(new_full::<RuntimeApi, Executor>, (config, authority_discovery_disabled), r),
    ensures
        is_full_layout(config, authority_discovery_disabled, r),
{
}

/// Whatever `new_light` returns is a layout of a light node.
pub proof fn law_new_light_lays_out_a_light_node<RuntimeApi, Executor>(
    config: Configuration,
    r: Result<Node<(Component, Component, Component)>, ServiceError>,
) where
    Executor: NativeExecutionDispatch,
    RuntimeApi: ConstructRuntimeApi<OpaqueBlock, LightClient<RuntimeApi, Executor>>,
    RuntimeApi::RuntimeApi: RuntimeApiCollection<StateBackend = LightState>,

    requires
        call_ensures(new_light::<RuntimeApi, Executor>, (config,), r),
    ensures
        is_light_layout(config, r),
{
}

/// Whatever `new_chain_ops` returns and makes of the configuration is a layout of
/// chain operations.
pub proof fn law_new_chain_ops_lays_out_chain_ops<RuntimeApi, Executor>(
    config: &mut Configuration,
    r: Result<
        Assembly<(FullClient<RuntimeApi, Executor>, Component, Component, Component)>,
        ServiceError,
    >,
) where
    Executor: NativeExecutionDispatch,
    RuntimeApi: ConstructRuntimeApi<OpaqueBlock, FullClient<RuntimeApi, Executor>>,
    RuntimeApi::RuntimeApi: RuntimeApiCollection<StateBackend = FullState>,

    requires
        call_ensures(new_chain_ops::<RuntimeApi, Executor>, (config,), r),
    ensures
        is_chain_ops_layout(*old(config), *final(config), r),
{
}

/// Whatever `hyperspace_new_full` returns is a layout of the full node that is asked
/// for.
pub proof fn law_hyperspace_new_full_lays_out_a_full_node(
    config: Configuration,
    authority_discovery_disabled: bool,
    r: Result<
        Node<(Component, FullClient<HyperspaceRuntimeApi, HyperspaceExecutor>, Component)>,
        ServiceError,
    >,
)
    requires
        call_ensures(hyperspace_new_full, (config, authority_discovery_disabled), r),
    ensures
        is_full_layout(config, authority_discovery_disabled, r),
{
}

/// Whatever `hyperspace_new_light` returns is a layout of a light node.
pub proof fn law_hyperspace_new_light_lays_out_a_light_node(
    config: Configuration,
    r: Result<Node<(Component, Component, Component)>, ServiceError>,
)
    requires
        call_ensures(hyperspace_new_light, (config,), r),
    ensures
        is_light_layout(config, r),
{
}

/// Replacing the metrics registry always succeeds. A configuration that serves metrics
/// goes on serving them on the same port, from a registry with the prefix DRML and no
/// labels; one that serves none goes on serving none; and nothing else changes.
pub proof fn law_set_prometheus_registry_replaces_the_registry_only(
    config: &mut Configuration,
    r: Result<(), ServiceError>,
)
    requires
        call_ensures(set_prometheus_registry, (config,), r),
    ensures
        r is Ok,
        final(config).role == old(config).role,
        final(config).keystore == old(config).keystore,
        final(config).keystore_remote == old(config).keystore_remote,
        final(config).network == old(config).network,
        final(config).offchain_worker == old(config).offchain_worker,
        final(config).force_authoring == old(config).force_authoring,
        final(config).disable_grandpa == old(config).disable_grandpa,
        final(config).cli == old(config).cli,
        final(config).prometheus_config is Some <==> old(config).prometheus_config is Some,
        old(config).prometheus_config is Some ==> {
            let served = final(config).prometheus_config->0;
            &&& served.port == old(config).prometheus_config->0.port
            &&& registry_prefix(served.registry) == Some("DRML"@)
            &&& registry_labels(served.registry) is None
        },
{
}

/// A configuration has a metrics registry exactly if it has a place to serve metrics,
/// whatever else it says.
pub proof fn law_registry_is_there_if_metrics_are_served(
    config: Configuration,
    r: Option<Component>,
)
    requires
        call_ensures(Configuration::registry, (&config,), r),
    ensures
        r is Some <==> config.prometheus_config is Some,
        r is Some ==> r->0 == Component::PrometheusRegistry,
{
}

/// A role answers each of the two questions about authority by its own field.
pub proof fn law_role_answers_each_question(role: Role, authority: bool, announced: bool)
    requires
        call_ensures(Role::is_authority, (&role,), authority),
        call_ensures(Role::is_network_authority, (&role,), announced),
    ensures
        authority <==> role.authority,
        announced <==> role.network_authority,
{
}

/// No address has a remote keystore, and the refusals differ in nothing but the
/// address that they name.
pub proof fn law_no_address_has_a_remote_keystore(
    url: String,
    built: Result<Arc<LocalKeystore>, &'static str>,
    hooked: Result<Arc<LocalKeystore>, ServiceError>,
)
    requires
        call_ensures(remote_keystore, (&url,), built),
        call_ensures(hook_remote_keystore, (&url,), hooked),
    ensures
        built is Err,
        built->Err_0@ == "Remote Keystore not supported."@,
        hooked is Err,
        hooked->Err_0 matches ServiceError::Other(reason) && reason@
            == "Error hooking up remote keystore for "@ + url@ + ": "@ + built->Err_0@,
{
}

/// The RPC extensions of a full node hold what their builder holds, each part in its
/// own place, and what the caller says, unchanged.
pub proof fn law_rpc_extensions_hold_what_they_are_given(
    builder: RpcExtensionsBuilder,
    deny_unsafe: DenyUnsafe,
    is_authority: bool,
    network: Component,
    subscription_executor: Component,
    rpc: FullRpc,
)
    requires
        call_ensures(
            RpcExtensionsBuilder::build,
            (&builder, deny_unsafe, is_authority, network, subscription_executor),
            rpc,
        ),
    ensures
        rpc.deps.deny_unsafe == deny_unsafe,
        rpc.deps.is_authority == is_authority,
        rpc.deps.network == network,
        rpc.deps.grandpa.subscription_executor == subscription_executor,
        rpc.deps.client == builder.client,
        rpc.deps.pool == builder.transaction_pool,
        rpc.deps.select_chain == builder.select_chain,
        rpc.deps.chain_spec == builder.chain_spec,
        rpc.deps.babe.babe_config == builder.babe_config,
        rpc.deps.babe.shared_epoch_changes == builder.shared_epoch_changes,
        rpc.deps.babe.keystore == builder.keystore,
        rpc.deps.grandpa.shared_voter_state == builder.shared_voter_state,
        rpc.deps.grandpa.shared_authority_set == builder.shared_authority_set,
        rpc.deps.grandpa.justification_stream == builder.justification_stream,
        rpc.deps.grandpa.finality_provider == builder.finality_proof_provider,
        rpc.subscription_task_executor == builder.subscription_task_executor,
{
}

/// A node that knows its role and its network creates the extensions that its builder
/// would create when told that role and that network.
pub proof fn law_node_fixes_role_and_network(
    node: NodeRpcExtensionsBuilder,
    deny_unsafe: DenyUnsafe,
    subscription_executor: Component,
    by_node: FullRpc,
    by_builder: FullRpc,
)
    requires
        call_ensures(
            NodeRpcExtensionsBuilder::build,
            (&node, deny_unsafe, subscription_executor),
            by_node,
        ),
        call_ensures(
            RpcExtensionsBuilder::build,
            (&node.builder, deny_unsafe, node.is_authority, node.network, subscription_executor),
            by_builder,
        ),
    ensures
        by_node == by_builder,
        by_node.deps.is_authority == node.is_authority,
        by_node.deps.network == node.network,
        by_node.deps.deny_unsafe == deny_unsafe,
        by_node.deps.grandpa.subscription_executor == subscription_executor,
{
}

/// Of an event, what the hash table says is taken, unchanged, and nothing else.
pub proof fn law_dht_events_are_taken_unchanged<D>(event: Event<D>, said: D, r: Option<D>)
    requires
        call_ensures(dht_event::<D>, (event,), r),
    ensures
        event == Event::Dht(said) <==> r == Some(said),
        event is Other <==> r is None,
{
}

/// The steps that can fail are those that make the basic parts, read or build what
/// imports blocks, build the network, spawn the tasks of every node, or make the block
/// production task or the voter. No other step can.
pub proof fn law_these_steps_can_fail(action: Action, r: bool)
    requires
        call_ensures(Action::can_fail, (&action,), r),
    ensures
        r <==> match action {
            Action::CreateFullParts { .. } | Action::CreateLightParts { .. } => true,
            Action::CreateGrandpaBlockImport { .. } | Action::ReadBabeConfig { .. } => true,
            Action::CreateBabeBlockImport { .. } | Action::CreateImportQueue { .. } => true,
            Action::BuildNetwork { .. } | Action::SpawnTasks { .. } => true,
            Action::StartBabe { .. } | Action::RunGrandpaVoter { .. } => true,
            _ => false,
        },
{
}

/// A startup begins at its first step, or is through at once if it has none.
pub proof fn law_startup_begins_at_the_first_step<E>(
    steps: Vec<Action>,
    startup: Startup<E>,
    next: Option<&Action>,
    end: Option<Result<(), E>>,
)
    requires
        call_ensures(Startup::<E>::new, (steps,), startup),
        call_ensures(Startup::<E>::next_action, (&startup,), next),
        call_ensures(Startup::<E>::finish, (startup,), end),
    ensures
        startup@.steps == steps@,
        startup@.taken == 0,
        next is Some <==> steps@.len() > 0,
        next is Some ==> *next->0 == steps@[0],
        end == (if steps@.len() > 0 {
            None
        } else {
            Some(Ok::<(), E>(()))
        }),
{
}

/// After a step succeeded, the next one is the step behind it; behind the last one
/// there is none, and the startup is through.
pub proof fn law_success_leads_to_the_step_behind<E>(
    startup: &mut Startup<E>,
    next: Option<&Action>,
    end: Option<Result<(), E>>,
)
    requires
        old(startup)@.failure is None,
        old(startup)@.taken < old(startup)@.steps.len(),
        call_ensures(Startup::<E>::advance, (startup, Ok(())), ()),
        call_ensures(Startup::<E>::next_action, (&*final(startup),), next),
        call_ensures(Startup::<E>::finish, (*final(startup),), end),
    ensures
        final(startup)@.steps == old(startup)@.steps,
        final(startup)@.taken == old(startup)@.taken + 1,
        next is Some <==> old(startup)@.taken + 1 < old(startup)@.steps.len(),
        next is Some ==> *next->0 == old(startup)@.steps[old(startup)@.taken as int + 1],
        end == (if old(startup)@.taken + 1 < old(startup)@.steps.len() {
            None
        } else {
            Some(Ok::<(), E>(()))
        }),
{
}

/// After a step failed there is no next step, and the startup ends with that failure.
pub proof fn law_failure_is_what_the_startup_ends_with<E>(
    startup: &mut Startup<E>,
    error: E,
    next: Option<&Action>,
    end: Option<Result<(), E>>,
)
    requires
        call_ensures(Startup::<E>::advance, (startup, Err(error)), ()),
        call_ensures(Startup::<E>::next_action, (&*final(startup),), next),
        call_ensures(Startup::<E>::finish, (*final(startup),), end),
    ensures
        final(startup)@.steps == old(startup)@.steps,
        final(startup)@.taken == old(startup)@.taken,
        next is None,
        end == Some(Err::<(), E>(error)),
{
}

} // verus!
