//! What the common parts of full nodes and chain operations are.

use crate::action::Action;
use crate::component::Component;
use crate::config::{Configuration, KeystoreConfig};
use crate::error::ServiceError;
use crate::metrics::{registry_labels, registry_prefix};
use crate::runtime::FullClient;
use crate::service::{
    is_chain_ops_layout, is_full_layout, is_partial_layout, partial_steps, Assembly, Node,
    PartialComponents,
};
use vstd::prelude::*;

verus! {

/// The common parts are made exactly as a full node under the same configuration
/// makes them: their steps are those that the node takes before it turns to its
/// network.
pub proof fn law_common_parts_are_those_of_a_full_node<RuntimeApi, Executor>(
    before: Configuration,
    after: Configuration,
    common: Result<Assembly<PartialComponents<RuntimeApi, Executor>>, ServiceError>,
    authority_discovery_disabled: bool,
    full: Result<Node<(Component, FullClient<RuntimeApi, Executor>, Component)>, ServiceError>,
)
    requires
        is_partial_layout(before, after, common),
        is_full_layout(before, authority_discovery_disabled, full),
    ensures
        common is Ok <==> full is Ok,
        common is Ok ==> {
            let first = common->Ok_0.steps@;
            let all = full->Ok_0.steps@;
            &&& first.len() < all.len()
            &&& forall|i: int| 0 <= i < first.len() ==> #[trigger] first[i] == all[i]
            &&& all[first.len() as int] is AddPeersSet
        },
{
}

/// The transaction pool of the common parts is told whether the node is an
/// authority, as its role says. The pool and the import queue are handed the metrics
/// registry if the configuration has a place to serve metrics, and none if it has
/// not.
pub proof fn law_common_parts_follow_role_and_metrics<RuntimeApi, Executor>(
    before: Configuration,
    after: Configuration,
    r: Result<Assembly<PartialComponents<RuntimeApi, Executor>>, ServiceError>,
)
    requires
        is_partial_layout(before, after, r),
        r is Ok,
    ensures
        forall|i: int|
            0 <= i < r->Ok_0.steps@.len() ==> match #[trigger] r->Ok_0.steps@[i] {
                Action::CreateFullPool { is_authority, prometheus_registry, .. } => {
                    &&& is_authority == before.role.authority
                    &&& prometheus_registry == (if before.prometheus_config is Some {
                        Some(Component::PrometheusRegistry)
                    } else {
                        None
                    })
                },
                Action::CreateImportQueue { prometheus_registry, .. } => prometheus_registry == (
                if before.prometheus_config is Some {
                    Some(Component::PrometheusRegistry)
                } else {
                    None
                }),
                _ => true,
            },
{
    let steps = r->Ok_0.steps@;
    assert(steps == partial_steps(before.role.authority, before.spec_registry()));
    assert(steps.len() == 17);
    assert forall|i: int| 0 <= i < steps.len() implies (match #[trigger] steps[i] {
        Action::CreateFullPool { is_authority, prometheus_registry, .. } => {
            &&& is_authority == before.role.authority
            &&& prometheus_registry == (if before.prometheus_config is Some {
                Some(Component::PrometheusRegistry)
            } else {
                None
            })
        },
        Action::CreateImportQueue { prometheus_registry, .. } => prometheus_registry == (
        if before.prometheus_config is Some {
            Some(Component::PrometheusRegistry)
        } else {
            None
        }),
        _ => true,
    }) by {
        assert(steps[3] is CreateFullPool && steps[8] is CreateImportQueue);
    }
}

/// The common parts are refused exactly if a remote keystore is asked for, in these
/// words and with the configuration left alone. Otherwise each is named by what it
/// is, and the configuration is the given one in everything but the metrics registry,
/// which is there exactly if it was, on the same port, with the prefix DRML and no
/// labels.
pub proof fn law_common_parts_are_handed_over<RuntimeApi, Executor>(
    before: Configuration,
    after: Configuration,
    r: Result<Assembly<PartialComponents<RuntimeApi, Executor>>, ServiceError>,
)
    requires
        is_partial_layout(before, after, r),
    ensures
        r is Err <==> before.keystore_remote is Some,
        r is Err ==> after == before,
        r is Err ==> (r->Err_0 matches ServiceError::Other(reason) && reason@
            == "Remote Keystores are not supported."@),
        after.role == before.role,
        after.keystore == before.keystore,
        after.keystore_remote == before.keystore_remote,
        after.network == before.network,
        after.offchain_worker == before.offchain_worker,
        after.force_authoring == before.force_authoring,
        after.disable_grandpa == before.disable_grandpa,
        after.cli == before.cli,
        after.prometheus_config is Some <==> before.prometheus_config is Some,
        r is Ok && before.prometheus_config is Some ==> {
            let served = after.prometheus_config->0;
            &&& served.port == before.prometheus_config->0.port
            &&& registry_prefix(served.registry) == Some("DRML"@)
            &&& registry_labels(served.registry) is None
        },
        r is Ok ==> {
            let parts = r->Ok_0.parts;
            &&& parts.client.component == Component::Client
            &&& parts.backend == Component::Backend
            &&& parts.task_manager == Component::TaskManager
            &&& parts.keystore_container == Component::KeystoreContainer
            &&& parts.select_chain == Component::SelectChain
            &&& parts.import_queue == Component::ImportQueue
            &&& parts.transaction_pool == Component::TransactionPool
            &&& parts.inherent_data_providers == Component::InherentDataProviders
            &&& parts.import_setup.0 == Component::BabeBlockImport
            &&& parts.import_setup.1 == Component::GrandpaLink
            &&& parts.import_setup.2 == Component::BabeLink
            &&& parts.rpc_setup == Component::SharedVoterState
            &&& parts.telemetry_span == Component::TelemetrySpan
            &&& parts.rpc_extensions_builder.client == Component::Client
            &&& parts.rpc_extensions_builder.keystore == Component::KeystoreContainer
            &&& parts.rpc_extensions_builder.transaction_pool == Component::TransactionPool
            &&& parts.rpc_extensions_builder.select_chain == Component::SelectChain
            &&& parts.rpc_extensions_builder.chain_spec == Component::ChainSpec
            &&& parts.rpc_extensions_builder.babe_config == Component::LinkedBabeConfig
            &&& parts.rpc_extensions_builder.shared_epoch_changes == Component::SharedEpochChanges
            &&& parts.rpc_extensions_builder.shared_voter_state == Component::SharedVoterState
            &&& parts.rpc_extensions_builder.shared_authority_set == Component::SharedAuthoritySet
            &&& parts.rpc_extensions_builder.justification_stream == Component::JustificationStream
            &&& parts.rpc_extensions_builder.finality_proof_provider
                == Component::FinalityProofProvider
            &&& parts.rpc_extensions_builder.subscription_task_executor
                == Component::SubscriptionTaskExecutor
        },
{
}

/// Chain operations take the steps of the common parts, and are refused when those
/// are, in the same words.
pub proof fn law_chain_ops_take_the_common_steps<RuntimeApi, Executor>(
    config: Configuration,
    after_ops: Configuration,
    ops: Result<
        Assembly<(FullClient<RuntimeApi, Executor>, Component, Component, Component)>,
        ServiceError,
    >,
    after_common: Configuration,
    common: Result<Assembly<PartialComponents<RuntimeApi, Executor>>, ServiceError>,
)
    requires
        is_chain_ops_layout(config, after_ops, ops),
        is_partial_layout(config, after_common, common),
    ensures
        ops is Ok <==> common is Ok,
        ops is Ok ==> ops->Ok_0.steps@ == common->Ok_0.steps@,
        ops is Err ==> ops->Err_0 is Other && common->Err_0 is Other && ops->Err_0->Other_0@
            == common->Err_0->Other_0@,
{
}

/// Chain operations keep keys in memory from then on, refused or not. They are
/// refused exactly if a remote keystore is asked for, in these words. Otherwise the
/// client, the backend, the import queue and the task manager are handed over, and of
/// the rest of the configuration only the metrics registry changes: it is there
/// exactly if it was, on the same port, with the prefix DRML and no labels.
pub proof fn law_chain_ops_keep_keys_in_memory<RuntimeApi, Executor>(
    before: Configuration,
    after: Configuration,
    r: Result<
        Assembly<(FullClient<RuntimeApi, Executor>, Component, Component, Component)>,
        ServiceError,
    >,
)
    requires
        is_chain_ops_layout(before, after, r),
    ensures
        after.keystore == KeystoreConfig::InMemory,
        r is Err <==> before.keystore_remote is Some,
        r is Err ==> after.prometheus_config == before.prometheus_config,
        r is Err ==> (r->Err_0 matches ServiceError::Other(reason) && reason@
            == "Remote Keystores are not supported."@),
        after.role == before.role,
        after.keystore_remote == before.keystore_remote,
        after.network == before.network,
        after.offchain_worker == before.offchain_worker,
        after.force_authoring == before.force_authoring,
        after.disable_grandpa == before.disable_grandpa,
        after.cli == before.cli,
        after.prometheus_config is Some <==> before.prometheus_config is Some,
        r is Ok && before.prometheus_config is Some ==> {
            let served = after.prometheus_config->0;
            &&& served.port == before.prometheus_config->0.port
            &&& registry_prefix(served.registry) == Some("DRML"@)
            &&& registry_labels(served.registry) is None
        },
        r is Ok ==> {
            &&& r->Ok_0.parts.0.component == Component::Client
            &&& r->Ok_0.parts.1 == Component::Backend
            &&& r->Ok_0.parts.2 == Component::ImportQueue
            &&& r->Ok_0.parts.3 == Component::TaskManager
        },
{
}

} // verus!
