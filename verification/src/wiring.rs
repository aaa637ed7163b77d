//! How the steps of an assembly depend on one another.
//!
//! A step works on parts of the node and makes others. An assembly is well wired
//! if every step finds the parts it works on: each has been made by an earlier
//! step, and none has been given away before.

use crate::action::{Action, AuthorityDiscoveryRole, CanAuthorWith};
use crate::component::Component;
use crate::config::Configuration;
use crate::rpc::{RpcExtensions, RpcExtensionsBuilder};
use vstd::prelude::*;

verus! {

/// The part, if there is one.
pub open spec fn optional(part: Option<Component>) -> Set<Component> {
    match part {
        Some(there) => set![there],
        None => set![],
    }
}

/// The parts that the RPC extensions of a full node hold on to.
pub open spec fn held(builder: RpcExtensionsBuilder) -> Set<Component> {
    set![
        builder.client,
        builder.keystore,
        builder.transaction_pool,
        builder.select_chain,
        builder.chain_spec,
        builder.babe_config,
        builder.shared_epoch_changes,
        builder.shared_voter_state,
        builder.shared_authority_set,
        builder.justification_stream,
        builder.finality_proof_provider,
        builder.subscription_task_executor,
    ]
}

/// The parts that RPC extensions come about from.
pub open spec fn rpc_parts(rpc_extensions: RpcExtensions) -> Set<Component> {
    match rpc_extensions {
        RpcExtensions::PerTransport(node) => held(node.builder).insert(node.network),
        RpcExtensions::Shared(extension) => set![extension],
    }
}

/// The part that is asked who may author, if anybody may.
pub open spec fn asked(can_author_with: CanAuthorWith) -> Set<Component> {
    match can_author_with {
        CanAuthorWith::NativeVersion { client } => set![client],
        CanAuthorWith::Never => set![],
    }
}

/// The parts that a step works on.
pub open spec fn uses(action: Action) -> Set<Component> {
    match action {
        Action::CreateInherentDataProviders => set![],
        Action::CreateFullParts { config } => set![config],
        Action::CreateLightParts { config } => set![config],
        Action::SelectLongestChain { backend } => set![backend],
        Action::CreateFullPool { config, is_authority: _, prometheus_registry, spawner, client } =>
            set![config, spawner, client].union(optional(prometheus_registry)),
        Action::CreateLightPool { config, prometheus_registry, spawner, client, fetcher } =>
            set![config, spawner, client, fetcher].union(optional(prometheus_registry)),
        Action::CreateGrandpaBlockImport {
            client,
            genesis_authorities,
            select_chain,
            authority_set_hard_forks: _,
        } => set![client, genesis_authorities, select_chain],
        Action::CreateFrontierBlockImport { inner, client, enabled: _ } => set![inner, client],
        Action::ReadBabeConfig { client } => set![client],
        Action::CreateBabeBlockImport { config, inner, client } => set![config, inner, client],
        Action::CreateImportQueue {
            babe_link,
            block_import,
            justification_import,
            client,
            select_chain,
            inherent_data_providers,
            spawner,
            prometheus_registry,
            can_author_with,
        } => set![babe_link, block_import, client, select_chain, inherent_data_providers, spawner].union(
            optional(justification_import),
        ).union(optional(prometheus_registry)).union(asked(can_author_with)),
        Action::OpenJustificationStream { grandpa_link } => set![grandpa_link],
        Action::ShareAuthoritySet { grandpa_link } => set![grandpa_link],
        Action::CreateVoterState => set![],
        Action::CreateFinalityProofProvider { backend, shared_authority_set } => set![
            backend,
        ].union(optional(shared_authority_set)),
        Action::CopyBabeConfig { babe_link } => set![babe_link],
        Action::ShareEpochChanges { babe_link } => set![babe_link],
        Action::CreateSubscriptionTaskExecutor { spawner } => set![spawner],
        Action::CopyChainSpec { config } => set![config],
        Action::AddPeersSet { config, set: _ } => set![config],
        Action::AddWarpSyncProtocol { config, spawner, backend } => set![config, spawner, backend],
        Action::BuildNetwork {
            config,
            client,
            transaction_pool,
            spawner,
            import_queue,
            on_demand,
            block_announce_validator_builder,
        } => set![config, client, transaction_pool, spawner, import_queue].union(
            optional(on_demand),
        ).union(optional(block_announce_validator_builder)),
        Action::BuildOffchainWorkers { config, backend, spawner, client, network } => set![
            config,
            backend,
            spawner,
            client,
            network,
        ],
        Action::CreateLightRpc { deps } => set![
            deps.remote_blockchain,
            deps.fetcher,
            deps.client,
            deps.pool,
        ],
        Action::SpawnTasks {
            config,
            backend,
            client,
            keystore,
            network,
            rpc_extensions,
            transaction_pool,
            task_manager,
            on_demand,
            remote_blockchain,
            telemetry_span,
            network_status_sinks,
            system_rpc_tx,
        } => set![
            config,
            backend,
            client,
            keystore,
            network,
            transaction_pool,
            task_manager,
            telemetry_span,
            network_status_sinks,
            system_rpc_tx,
        ].union(rpc_parts(rpc_extensions)).union(optional(on_demand)).union(
            optional(remote_blockchain),
        ),
        Action::CreateProposer { spawner, client, transaction_pool, prometheus_registry } => set![
            spawner,
            client,
            transaction_pool,
        ].union(optional(prometheus_registry)),
        Action::StartBabe { babe } => set![
            babe.keystore,
            babe.client,
            babe.select_chain,
            babe.block_import,
            babe.env,
            babe.sync_oracle,
            babe.inherent_data_providers,
            babe.babe_link,
        ].union(asked(babe.can_author_with)),
        Action::RunGrandpaVoter { grandpa } => set![
            grandpa.link,
            grandpa.network,
            grandpa.telemetry_on_connect,
            grandpa.shared_voter_state,
        ].union(optional(grandpa.config.keystore)).union(optional(grandpa.prometheus_registry)),
        Action::OpenDhtEventStream { network, name: _ } => set![network],
        Action::CreateAuthorityDiscovery {
            client,
            network,
            dht_event_stream,
            role: AuthorityDiscoveryRole::PublishAndDiscover { keystore },
            prometheus_registry,
        } => set![client, network, dht_event_stream, keystore].union(
            optional(prometheus_registry),
        ),
        Action::SpawnEssentialBlocking { task_manager, name: _, task } => set![task_manager, task],
        Action::Spawn { task_manager, name: _, task } => set![task_manager, task],
        Action::StartNetwork { starter } => set![starter],
    }
}

/// The block import that is handed over to the one around it. That of finality is
/// shared instead, since justifications are imported through it as well.
pub open spec fn handed_over(inner: Component) -> Set<Component> {
    if inner == Component::GrandpaBlockImport {
        set![]
    } else {
        set![inner]
    }
}

/// The parts that a step takes for good, so that no later step can work on them.
pub open spec fn takes(action: Action) -> Set<Component> {
    match action {
        Action::CreateBabeBlockImport { config, inner, .. } => set![config].union(
            handed_over(inner),
        ),
        Action::BuildNetwork { import_queue, .. } => set![import_queue],
        Action::SpawnTasks {
            config,
            rpc_extensions,
            telemetry_span,
            network_status_sinks,
            system_rpc_tx,
            ..
        } => set![config, telemetry_span, network_status_sinks, system_rpc_tx].union(
            match rpc_extensions {
                RpcExtensions::PerTransport(_) => set![],
                RpcExtensions::Shared(extension) => set![extension],
            },
        ),
        Action::StartBabe { babe } => set![babe.env],
        Action::RunGrandpaVoter { grandpa } => set![grandpa.link, grandpa.telemetry_on_connect],
        Action::CreateAuthorityDiscovery { dht_event_stream, .. } => set![dht_event_stream],
        Action::SpawnEssentialBlocking { task, .. } => set![task],
        Action::Spawn { task, .. } => set![task],
        Action::StartNetwork { starter } => set![starter],
        _ => set![],
    }
}

/// The parts that a step makes.
pub open spec fn makes(action: Action) -> Set<Component> {
    match action {
        Action::CreateInherentDataProviders => set![Component::InherentDataProviders],
        Action::CreateFullParts { .. } => set![
            Component::Client,
            Component::Backend,
            Component::KeystoreContainer,
            Component::TaskManager,
            Component::TelemetrySpan,
        ],
        Action::CreateLightParts { .. } => set![
            Component::Client,
            Component::Backend,
            Component::KeystoreContainer,
            Component::TaskManager,
            Component::OnDemand,
            Component::TelemetrySpan,
        ],
        Action::SelectLongestChain { .. } => set![Component::SelectChain],
        Action::CreateFullPool { .. } => set![Component::TransactionPool],
        Action::CreateLightPool { .. } => set![Component::TransactionPool],
        Action::CreateGrandpaBlockImport { .. } => set![
            Component::GrandpaBlockImport,
            Component::GrandpaLink,
        ],
        Action::CreateFrontierBlockImport { .. } => set![Component::FrontierBlockImport],
        Action::ReadBabeConfig { .. } => set![Component::BabeConfig],
        Action::CreateBabeBlockImport { .. } => set![
            Component::BabeBlockImport,
            Component::BabeLink,
        ],
        Action::CreateImportQueue { .. } => set![Component::ImportQueue],
        Action::OpenJustificationStream { .. } => set![Component::JustificationStream],
        Action::ShareAuthoritySet { .. } => set![Component::SharedAuthoritySet],
        Action::CreateVoterState => set![Component::SharedVoterState],
        Action::CreateFinalityProofProvider { .. } => set![Component::FinalityProofProvider],
        Action::CopyBabeConfig { .. } => set![Component::LinkedBabeConfig],
        Action::ShareEpochChanges { .. } => set![Component::SharedEpochChanges],
        Action::CreateSubscriptionTaskExecutor { .. } => set![Component::SubscriptionTaskExecutor],
        Action::CopyChainSpec { .. } => set![Component::ChainSpec],
        Action::BuildNetwork { .. } => set![
            Component::Network,
            Component::NetworkStatusSinks,
            Component::SystemRpcTx,
            Component::NetworkStarter,
        ],
        Action::CreateLightRpc { .. } => set![Component::RpcExtension],
        Action::SpawnTasks { .. } => set![
            Component::RpcHandlers,
            Component::TelemetryConnectionNotifier,
        ],
        Action::CreateProposer { .. } => set![Component::Proposer],
        Action::StartBabe { .. } => set![Component::BabeTask],
        Action::RunGrandpaVoter { .. } => set![Component::GrandpaVoter],
        Action::OpenDhtEventStream { .. } => set![Component::DhtEventStream],
        Action::CreateAuthorityDiscovery { .. } => set![Component::AuthorityDiscoveryWorker],
        _ => set![],
    }
}

/// The parts that have been made so far, and those that have been given away.
#[verifier::ext_equal]
pub struct Stock {
    /// The parts that have been made, or were there from the start.
    pub made: Set<Component>,
    /// The parts that some step took for good.
    pub gone: Set<Component>,
}

impl Stock {
    /// What is there before the first step: the configuration, and the metrics
    /// registry if there is one.
    pub open spec fn initial(registry: Option<Component>) -> Stock {
        Stock { made: set![Component::Configuration].union(optional(registry)), gone: set![] }
    }

    /// Whether a part is at hand.
    pub open spec fn has(self, part: Component) -> bool {
        self.made.contains(part) && !self.gone.contains(part)
    }

    /// Whether a part has neither been made nor given away.
    pub open spec fn lacks(self, part: Component) -> bool {
        !self.made.contains(part) && !self.gone.contains(part)
    }

    /// Whether a step can be taken: what it works on is at hand, and what it makes
    /// has not been made before.
    pub open spec fn allows(self, action: Action) -> bool {
        &&& forall|part: Component| #[trigger]
            uses(action).contains(part) ==> self.has(part)
        &&& forall|part: Component| #[trigger]
            makes(action).contains(part) ==> !self.made.contains(part)
    }

    /// What is there after a step.
    pub open spec fn after(self, action: Action) -> Stock {
        Stock {
            made: self.made.union(makes(action)),
            gone: self.gone.union(takes(action)),
        }
    }

    /// What is there after the first `count` of `steps`.
    pub open spec fn after_steps(self, steps: Seq<Action>, count: nat) -> Stock
        decreases count,
    {
        if count == 0 {
            self
        } else {
            self.after_steps(steps, (count - 1) as nat).after(steps[count - 1])
        }
    }

    /// Whether each of `steps` in turn can be taken.
    pub open spec fn allows_all(self, steps: Seq<Action>) -> bool {
        forall|i: nat|
            i < steps.len() ==> (#[trigger] self.after_steps(steps, i)).allows(steps[i as int])
    }
}

/// What is there after two runs of steps is what the second run leaves of what
/// the first one left.
proof fn lemma_after_concat(stock: Stock, first: Seq<Action>, second: Seq<Action>, count: nat)
    requires
        count <= second.len(),
    ensures
        stock.after_steps(first + second, first.len() + count) == stock.after_steps(
            first,
            first.len(),
        ).after_steps(second, count),
    decreases count,
{
    if count == 0 {
        lemma_after_prefix(stock, first, second, first.len());
    } else {
        lemma_after_concat(stock, first, second, (count - 1) as nat);
        assert((first + second)[first.len() + count - 1] == second[count - 1]);
    }
}

/// What is there after some steps does not depend on the steps to come.
proof fn lemma_after_prefix(stock: Stock, first: Seq<Action>, second: Seq<Action>, count: nat)
    requires
        count <= first.len(),
    ensures
        stock.after_steps(first + second, count) == stock.after_steps(first, count),
    decreases count,
{
    if count > 0 {
        lemma_after_prefix(stock, first, second, (count - 1) as nat);
        assert((first + second)[count - 1] == first[count - 1]);
    }
}

/// Two runs of steps can be taken in turn if the second can be taken on what the
/// first one leaves.
proof fn lemma_concat(stock: Stock, first: Seq<Action>, second: Seq<Action>)
    requires
        stock.allows_all(first),
        stock.after_steps(first, first.len()).allows_all(second),
    ensures
        stock.allows_all(first + second),
        stock.after_steps(first + second, (first + second).len()) == stock.after_steps(
            first,
            first.len(),
        ).after_steps(second, second.len()),
{
    lemma_after_concat(stock, first, second, second.len());
    let steps = first + second;
    let middle = stock.after_steps(first, first.len());
    assert forall|i: nat| i < steps.len() implies (#[trigger] stock.after_steps(steps, i)).allows(
        steps[i as int],
    ) by {
        if i < first.len() {
            lemma_after_prefix(stock, first, second, i);
            assert(stock.after_steps(first, i).allows(first[i as int]));
        } else {
            let j = (i - first.len()) as nat;
            lemma_after_concat(stock, first, second, j);
            assert(middle.after_steps(second, j).allows(second[j as int]));
        }
    }
}

/// What is there once some parts have been added and others have gone.
pub open spec fn changed(stock: Stock, added: Set<Component>, taken: Set<Component>) -> Stock {
    Stock { made: stock.made.union(added), gone: stock.gone.union(taken) }
}

/// Whether `steps` can be taken on `stock`, where they add some parts and take
/// others for good.
pub open spec fn runs(
    stock: Stock,
    steps: Seq<Action>,
    added: Set<Component>,
    taken: Set<Component>,
) -> bool {
    &&& stock.allows_all(steps)
    &&& stock.after_steps(steps, steps.len()) =~= changed(stock, added, taken)
}

/// Whether the metrics registry that is handed out, if any, is there.
pub open spec fn has_registry(stock: Stock, registry: Option<Component>) -> bool {
    registry is Some ==> stock.has(registry->0)
}

/// The basic steps of a full node are well wired.
proof fn lemma_full_basic(stock: Stock, is_authority: bool, registry: Option<Component>)
    requires
        has_registry(stock, registry),
        stock.has(Component::Configuration),
        stock.lacks(Component::InherentDataProviders),
        stock.lacks(Component::Client),
        stock.lacks(Component::Backend),
        stock.lacks(Component::KeystoreContainer),
        stock.lacks(Component::TaskManager),
        stock.lacks(Component::TelemetrySpan),
        stock.lacks(Component::SelectChain),
        stock.lacks(Component::TransactionPool),
    ensures
        runs(
            stock,
            crate::service::full_basic_steps(is_authority, registry),
            set![
                Component::InherentDataProviders,
                Component::Client,
                Component::Backend,
                Component::KeystoreContainer,
                Component::TaskManager,
                Component::TelemetrySpan,
                Component::SelectChain,
                Component::TransactionPool,
            ],
            set![],
        ),
{
    let steps = crate::service::full_basic_steps(is_authority, registry);
    reveal_with_fuel(Stock::after_steps, 5);
    assert forall|i: nat| i < steps.len() implies (#[trigger] stock.after_steps(steps, i)).allows(
        steps[i as int],
    ) by {
        assert(i == 0 || i == 1 || i == 2 || i == 3);
    }
}

/// The import steps of a full node are well wired.
proof fn lemma_full_import(stock: Stock, registry: Option<Component>)
    requires
        has_registry(stock, registry),
        stock.has(Component::Client),
        stock.has(Component::SelectChain),
        stock.has(Component::InherentDataProviders),
        stock.has(Component::TaskManager),
        stock.lacks(Component::GrandpaBlockImport),
        stock.lacks(Component::GrandpaLink),
        stock.lacks(Component::FrontierBlockImport),
        stock.lacks(Component::BabeConfig),
        stock.lacks(Component::BabeBlockImport),
        stock.lacks(Component::BabeLink),
        stock.lacks(Component::ImportQueue),
    ensures
        runs(
            stock,
            crate::service::full_import_steps(registry),
            set![
                Component::GrandpaBlockImport,
                Component::GrandpaLink,
                Component::FrontierBlockImport,
                Component::BabeConfig,
                Component::BabeBlockImport,
                Component::BabeLink,
                Component::ImportQueue,
            ],
            set![Component::BabeConfig, Component::FrontierBlockImport],
        ),
{
    let steps = crate::service::full_import_steps(registry);
    reveal_with_fuel(Stock::after_steps, 6);
    assert forall|i: nat| i < steps.len() implies (#[trigger] stock.after_steps(steps, i)).allows(
        steps[i as int],
    ) by {
        assert(i == 0 || i == 1 || i == 2 || i == 3 || i == 4);
    }
}

/// The steps that make what a full node's RPC extensions hold are well wired.
proof fn lemma_full_rpc(stock: Stock)
    requires
        stock.has(Component::Configuration),
        stock.has(Component::Backend),
        stock.has(Component::TaskManager),
        stock.has(Component::GrandpaLink),
        stock.has(Component::BabeLink),
        stock.lacks(Component::JustificationStream),
        stock.lacks(Component::SharedAuthoritySet),
        stock.lacks(Component::SharedVoterState),
        stock.lacks(Component::FinalityProofProvider),
        stock.lacks(Component::LinkedBabeConfig),
        stock.lacks(Component::SharedEpochChanges),
        stock.lacks(Component::SubscriptionTaskExecutor),
        stock.lacks(Component::ChainSpec),
    ensures
        runs(
            stock,
            crate::service::full_rpc_steps(),
            set![
                Component::JustificationStream,
                Component::SharedAuthoritySet,
                Component::SharedVoterState,
                Component::FinalityProofProvider,
                Component::LinkedBabeConfig,
                Component::SharedEpochChanges,
                Component::SubscriptionTaskExecutor,
                Component::ChainSpec,
            ],
            set![],
        ),
{
    let steps = crate::service::full_rpc_steps();
    reveal_with_fuel(Stock::after_steps, 9);
    assert forall|i: nat| i < steps.len() implies (#[trigger] stock.after_steps(steps, i)).allows(
        steps[i as int],
    ) by {
        assert(i == 0 || i == 1 || i == 2 || i == 3 || i == 4 || i == 5 || i == 6 || i == 7);
    }
}

/// The network steps of a full node are well wired.
proof fn lemma_full_network(stock: Stock, cli: bool)
    requires
        stock.has(Component::Configuration),
        stock.has(Component::Client),
        stock.has(Component::Backend),
        stock.has(Component::TransactionPool),
        stock.has(Component::TaskManager),
        stock.has(Component::ImportQueue),
        stock.lacks(Component::Network),
        stock.lacks(Component::NetworkStatusSinks),
        stock.lacks(Component::SystemRpcTx),
        stock.lacks(Component::NetworkStarter),
    ensures
        runs(
            stock,
            crate::service::full_network_steps(cli),
            set![
                Component::Network,
                Component::NetworkStatusSinks,
                Component::SystemRpcTx,
                Component::NetworkStarter,
            ],
            set![Component::ImportQueue],
        ),
{
    let steps = crate::service::full_network_steps(cli);
    reveal_with_fuel(Stock::after_steps, 4);
    assert forall|i: nat| i < steps.len() implies (#[trigger] stock.after_steps(steps, i)).allows(
        steps[i as int],
    ) by {
        assert(i == 0 || i == 1 || i == 2);
    }
}

/// The step that starts the offchain workers is well wired.
proof fn lemma_offchain_workers(stock: Stock, enabled: bool)
    requires
        stock.has(Component::Configuration),
        stock.has(Component::Backend),
        stock.has(Component::TaskManager),
        stock.has(Component::Client),
        stock.has(Component::Network),
    ensures
        runs(
            stock,
            crate::service::offchain_worker_steps(enabled),
            set![],
            set![],
        ),
{
    let steps = crate::service::offchain_worker_steps(enabled);
    reveal_with_fuel(Stock::after_steps, 2);
    assert forall|i: nat| i < steps.len() implies (#[trigger] stock.after_steps(steps, i)).allows(
        steps[i as int],
    ) by {
        assert(i == 0);
    }
}

/// The step that spawns the tasks of a full node is well wired.
proof fn lemma_full_tasks(stock: Stock, is_authority: bool)
    requires
        stock.has(Component::Configuration),
        stock.has(Component::Backend),
        stock.has(Component::Network),
        stock.has(Component::TaskManager),
        stock.has(Component::TelemetrySpan),
        stock.has(Component::NetworkStatusSinks),
        stock.has(Component::SystemRpcTx),
        stock.has(Component::Client),
        stock.has(Component::KeystoreContainer),
        stock.has(Component::TransactionPool),
        stock.has(Component::SelectChain),
        stock.has(Component::ChainSpec),
        stock.has(Component::LinkedBabeConfig),
        stock.has(Component::SharedEpochChanges),
        stock.has(Component::SharedVoterState),
        stock.has(Component::SharedAuthoritySet),
        stock.has(Component::JustificationStream),
        stock.has(Component::FinalityProofProvider),
        stock.has(Component::SubscriptionTaskExecutor),
        stock.lacks(Component::RpcHandlers),
        stock.lacks(Component::TelemetryConnectionNotifier),
    ensures
        runs(
            stock,
            seq![crate::service::spawn_full_tasks(is_authority)],
            set![
                Component::RpcHandlers,
                Component::TelemetryConnectionNotifier,
            ],
            set![
                Component::Configuration,
                Component::TelemetrySpan,
                Component::NetworkStatusSinks,
                Component::SystemRpcTx,
            ],
        ),
{
    let steps = seq![crate::service::spawn_full_tasks(is_authority)];
    reveal_with_fuel(Stock::after_steps, 2);
    assert forall|i: nat| i < steps.len() implies (#[trigger] stock.after_steps(steps, i)).allows(
        steps[i as int],
    ) by {
        assert(i == 0);
    }
}

/// The steps that set an authority to authoring are well wired.
proof fn lemma_authoring(stock: Stock, is_authority: bool, force_authoring: bool, registry: Option<Component>)
    requires
        has_registry(stock, registry),
        stock.has(Component::TaskManager),
        stock.has(Component::Client),
        stock.has(Component::TransactionPool),
        stock.has(Component::KeystoreContainer),
        stock.has(Component::SelectChain),
        stock.has(Component::BabeBlockImport),
        stock.has(Component::Network),
        stock.has(Component::InherentDataProviders),
        stock.has(Component::BabeLink),
        stock.lacks(Component::Proposer),
        stock.lacks(Component::BabeTask),
    ensures
        runs(
            stock,
            crate::service::authoring_steps(is_authority, force_authoring, registry),
            if is_authority {
                set![
                    Component::Proposer,
                    Component::BabeTask,
                ]
            } else {
                set![]
            },
            if is_authority {
                set![
                    Component::Proposer,
                    Component::BabeTask,
                ]
            } else {
                set![]
            },
        ),
{
    let steps = crate::service::authoring_steps(is_authority, force_authoring, registry);
    reveal_with_fuel(Stock::after_steps, 4);
    assert forall|i: nat| i < steps.len() implies (#[trigger] stock.after_steps(steps, i)).allows(
        steps[i as int],
    ) by {
        assert(i == 0 || i == 1 || i == 2);
    }
}

/// The steps that run the finality voter are well wired.
proof fn lemma_finality(stock: Stock, config: Configuration)
    requires
        has_registry(stock, config.spec_registry()),
        stock.has(Component::TaskManager),
        stock.has(Component::KeystoreContainer),
        stock.has(Component::GrandpaLink),
        stock.has(Component::Network),
        stock.has(Component::TelemetryConnectionNotifier),
        stock.has(Component::SharedVoterState),
        stock.lacks(Component::GrandpaVoter),
    ensures
        runs(
            stock,
            crate::service::finality_steps(config),
            if !config.disable_grandpa {
                set![Component::GrandpaVoter]
            } else {
                set![]
            },
            if !config.disable_grandpa {
                set![
                    Component::GrandpaVoter,
                    Component::GrandpaLink,
                    Component::TelemetryConnectionNotifier,
                ]
            } else {
                set![]
            },
        ),
{
    let steps = crate::service::finality_steps(config);
    reveal_with_fuel(Stock::after_steps, 3);
    assert forall|i: nat| i < steps.len() implies (#[trigger] stock.after_steps(steps, i)).allows(
        steps[i as int],
    ) by {
        assert(i == 0 || i == 1);
    }
}

/// The steps of authority discovery are well wired.
proof fn lemma_authority_discovery(stock: Stock, is_authority: bool, disabled: bool, registry: Option<Component>)
    requires
        has_registry(stock, registry),
        stock.has(Component::TaskManager),
        stock.has(Component::Client),
        stock.has(Component::Network),
        stock.has(Component::KeystoreContainer),
        stock.lacks(Component::DhtEventStream),
        stock.lacks(Component::AuthorityDiscoveryWorker),
    ensures
        runs(
            stock,
            crate::service::authority_discovery_steps(is_authority, disabled, registry),
            if is_authority && !disabled {
                set![
                    Component::DhtEventStream,
                    Component::AuthorityDiscoveryWorker,
                ]
            } else {
                set![]
            },
            if is_authority && !disabled {
                set![
                    Component::DhtEventStream,
                    Component::AuthorityDiscoveryWorker,
                ]
            } else {
                set![]
            },
        ),
{
    let steps = crate::service::authority_discovery_steps(is_authority, disabled, registry);
    reveal_with_fuel(Stock::after_steps, 4);
    assert forall|i: nat| i < steps.len() implies (#[trigger] stock.after_steps(steps, i)).allows(
        steps[i as int],
    ) by {
        assert(i == 0 || i == 1 || i == 2);
    }
}

/// The step that starts the network is well wired.
proof fn lemma_start_network(stock: Stock)
    requires
        stock.has(Component::NetworkStarter),
    ensures
        runs(
            stock,
            seq![crate::service::start_network()],
            set![],
            set![Component::NetworkStarter],
        ),
{
    let steps = seq![crate::service::start_network()];
    reveal_with_fuel(Stock::after_steps, 2);
    assert forall|i: nat| i < steps.len() implies (#[trigger] stock.after_steps(steps, i)).allows(
        steps[i as int],
    ) by {
        assert(i == 0);
    }
}

/// The basic steps of a light node are well wired.
proof fn lemma_light_basic(stock: Stock, registry: Option<Component>)
    requires
        has_registry(stock, registry),
        stock.has(Component::Configuration),
        stock.lacks(Component::Client),
        stock.lacks(Component::Backend),
        stock.lacks(Component::KeystoreContainer),
        stock.lacks(Component::TaskManager),
        stock.lacks(Component::OnDemand),
        stock.lacks(Component::TelemetrySpan),
        stock.lacks(Component::SelectChain),
        stock.lacks(Component::TransactionPool),
    ensures
        runs(
            stock,
            crate::service::light_basic_steps(registry),
            set![
                Component::Client,
                Component::Backend,
                Component::KeystoreContainer,
                Component::TaskManager,
                Component::OnDemand,
                Component::TelemetrySpan,
                Component::SelectChain,
                Component::TransactionPool,
            ],
            set![],
        ),
{
    let steps = crate::service::light_basic_steps(registry);
    reveal_with_fuel(Stock::after_steps, 5);
    assert forall|i: nat| i < steps.len() implies (#[trigger] stock.after_steps(steps, i)).allows(
        steps[i as int],
    ) by {
        assert(i == 0 || i == 1 || i == 2 || i == 3);
    }
}

/// The import and network steps of a light node are well wired.
proof fn lemma_light_import(stock: Stock, registry: Option<Component>)
    requires
        has_registry(stock, registry),
        stock.has(Component::Configuration),
        stock.has(Component::Client),
        stock.has(Component::SelectChain),
        stock.has(Component::TaskManager),
        stock.has(Component::TransactionPool),
        stock.has(Component::OnDemand),
        stock.lacks(Component::GrandpaBlockImport),
        stock.lacks(Component::GrandpaLink),
        stock.lacks(Component::BabeConfig),
        stock.lacks(Component::BabeBlockImport),
        stock.lacks(Component::BabeLink),
        stock.lacks(Component::InherentDataProviders),
        stock.lacks(Component::ImportQueue),
        stock.lacks(Component::Network),
        stock.lacks(Component::NetworkStatusSinks),
        stock.lacks(Component::SystemRpcTx),
        stock.lacks(Component::NetworkStarter),
    ensures
        runs(
            stock,
            crate::service::light_import_steps(registry),
            set![
                Component::GrandpaBlockImport,
                Component::GrandpaLink,
                Component::BabeConfig,
                Component::BabeBlockImport,
                Component::BabeLink,
                Component::InherentDataProviders,
                Component::ImportQueue,
                Component::Network,
                Component::NetworkStatusSinks,
                Component::SystemRpcTx,
                Component::NetworkStarter,
            ],
            set![
                Component::BabeConfig,
                Component::ImportQueue,
            ],
        ),
{
    let steps = crate::service::light_import_steps(registry);
    reveal_with_fuel(Stock::after_steps, 7);
    assert forall|i: nat| i < steps.len() implies (#[trigger] stock.after_steps(steps, i)).allows(
        steps[i as int],
    ) by {
        assert(i == 0 || i == 1 || i == 2 || i == 3 || i == 4 || i == 5);
    }
}

/// The last steps of a light node are well wired.
proof fn lemma_light_tasks(stock: Stock)
    requires
        stock.has(Component::Configuration),
        stock.has(Component::Backend),
        stock.has(Component::Client),
        stock.has(Component::KeystoreContainer),
        stock.has(Component::Network),
        stock.has(Component::TransactionPool),
        stock.has(Component::TaskManager),
        stock.has(Component::OnDemand),
        stock.has(Component::TelemetrySpan),
        stock.has(Component::NetworkStatusSinks),
        stock.has(Component::SystemRpcTx),
        stock.has(Component::NetworkStarter),
        stock.lacks(Component::RpcExtension),
        stock.lacks(Component::RpcHandlers),
        stock.lacks(Component::TelemetryConnectionNotifier),
    ensures
        runs(
            stock,
            crate::service::light_task_steps(),
            set![
                Component::RpcExtension,
                Component::RpcHandlers,
                Component::TelemetryConnectionNotifier,
            ],
            set![
                Component::Configuration,
                Component::RpcExtension,
                Component::TelemetrySpan,
                Component::NetworkStatusSinks,
                Component::SystemRpcTx,
                Component::NetworkStarter,
            ],
        ),
{
    let steps = crate::service::light_task_steps();
    reveal_with_fuel(Stock::after_steps, 4);
    assert forall|i: nat| i < steps.len() implies (#[trigger] stock.after_steps(steps, i)).allows(
        steps[i as int],
    ) by {
        assert(i == 0 || i == 1 || i == 2);
    }
}

/// What chain operations are put together from is well wired, whatever the
/// configuration: every step finds the parts it works on, no part is made twice,
/// and none is worked on after it was given away. In the end the parts that are
/// handed over are at hand.
pub proof fn law_chain_ops_are_well_wired(config: Configuration)
    ensures
        ({
            let steps = crate::service::partial_steps(
                config.role.authority,
                config.spec_registry(),
            );
            let start = Stock::initial(config.spec_registry());
            let end = start.after_steps(steps, steps.len());
            &&& start.allows_all(steps)
            &&& end.has(Component::Client)
            &&& end.has(Component::Backend)
            &&& end.has(Component::ImportQueue)
            &&& end.has(Component::TaskManager)
        }),
{
    lemma_partial(config);
}

/// The common steps of full nodes and chain operations are well wired.
proof fn lemma_partial(config: Configuration)
    ensures
        runs(
            Stock::initial(config.spec_registry()),
            crate::service::partial_steps(config.role.authority, config.spec_registry()),
            added_by_partial(),
            set![Component::BabeConfig, Component::FrontierBlockImport],
        ),
{
    let registry = config.spec_registry();
    let is_authority = config.role.authority;
    let start = Stock::initial(registry);
    let basic = crate::service::full_basic_steps(is_authority, registry);
    let import = crate::service::full_import_steps(registry);
    let rpc = crate::service::full_rpc_steps();
    lemma_full_basic(start, is_authority, registry);
    let after_basic = start.after_steps(basic, basic.len());
    lemma_full_import(after_basic, registry);
    let after_import = after_basic.after_steps(import, import.len());
    lemma_full_rpc(after_import);
    lemma_concat(start, basic, import);
    lemma_concat(start, basic + import, rpc);
    assert(start.after_steps(basic + import + rpc, (basic + import + rpc).len()) =~= changed(
        start,
        added_by_partial(),
        set![Component::BabeConfig, Component::FrontierBlockImport],
    ));
}

/// The parts that the common steps of full nodes and chain operations add.
pub open spec fn added_by_partial() -> Set<Component> {
    set![
        Component::InherentDataProviders,
        Component::Client,
        Component::Backend,
        Component::KeystoreContainer,
        Component::TaskManager,
        Component::TelemetrySpan,
        Component::SelectChain,
        Component::TransactionPool,
        Component::GrandpaBlockImport,
        Component::GrandpaLink,
        Component::FrontierBlockImport,
        Component::BabeConfig,
        Component::BabeBlockImport,
        Component::BabeLink,
        Component::ImportQueue,
        Component::JustificationStream,
        Component::SharedAuthoritySet,
        Component::SharedVoterState,
        Component::FinalityProofProvider,
        Component::LinkedBabeConfig,
        Component::SharedEpochChanges,
        Component::SubscriptionTaskExecutor,
        Component::ChainSpec,
    ]
}

/// What a full node is put together from is well wired, whatever the
/// configuration: every step finds the parts it works on, no part is made twice,
/// and none is worked on after it was given away. In the end the parts that are
/// handed over are at hand.
pub proof fn law_full_node_is_well_wired(config: Configuration, authority_discovery_disabled: bool)
    ensures
        ({
            let steps = crate::service::full_steps(config, authority_discovery_disabled);
            let start = Stock::initial(config.spec_registry());
            let end = start.after_steps(steps, steps.len());
            &&& start.allows_all(steps)
            &&& end.has(Component::TaskManager)
            &&& end.has(Component::Client)
            &&& end.has(Component::RpcHandlers)
        }),
{
    let registry = config.spec_registry();
    let is_authority = config.role.authority;
    let start = Stock::initial(registry);

    lemma_partial(config);
    let partial = crate::service::partial_steps(is_authority, registry);
    let s1 = changed(
        start,
        added_by_partial(),
        set![Component::BabeConfig, Component::FrontierBlockImport],
    );

    lemma_full_network(s1, config.cli);
    let network = crate::service::full_network_steps(config.cli);
    let s2 = s1.after_steps(network, network.len());
    lemma_concat(start, partial, network);
    let t2 = partial + network;

    lemma_offchain_workers(s2, config.offchain_worker.enabled);
    let offchain = crate::service::offchain_worker_steps(config.offchain_worker.enabled);
    let s3 = s2.after_steps(offchain, offchain.len());
    lemma_concat(start, t2, offchain);
    let t3 = t2 + offchain;

    lemma_full_tasks(s3, is_authority);
    let tasks = seq![crate::service::spawn_full_tasks(is_authority)];
    let s4 = s3.after_steps(tasks, tasks.len());
    lemma_concat(start, t3, tasks);
    let t4 = t3 + tasks;

    lemma_authoring(s4, is_authority, config.force_authoring, registry);
    let authoring = crate::service::authoring_steps(
        is_authority,
        config.force_authoring,
        registry,
    );
    let s5 = s4.after_steps(authoring, authoring.len());
    lemma_concat(start, t4, authoring);
    let t5 = t4 + authoring;

    lemma_finality(s5, config);
    let finality = crate::service::finality_steps(config);
    let s6 = s5.after_steps(finality, finality.len());
    lemma_concat(start, t5, finality);
    let t6 = t5 + finality;

    lemma_authority_discovery(s6, is_authority, authority_discovery_disabled, registry);
    let discovery = crate::service::authority_discovery_steps(
        is_authority,
        authority_discovery_disabled,
        registry,
    );
    let s7 = s6.after_steps(discovery, discovery.len());
    lemma_concat(start, t6, discovery);
    let t7 = t6 + discovery;

    lemma_start_network(s7);
    lemma_concat(start, t7, seq![crate::service::start_network()]);
}

/// What a light node is put together from is well wired, whatever the
/// configuration: every step finds the parts it works on, no part is made twice,
/// and none is worked on after it was given away. In the end the parts that are
/// handed over are at hand.
pub proof fn law_light_node_is_well_wired(config: Configuration)
    ensures
        ({
            let steps = crate::service::light_steps(config);
            let start = Stock::initial(config.spec_registry());
            let end = start.after_steps(steps, steps.len());
            &&& start.allows_all(steps)
            &&& end.has(Component::TaskManager)
            &&& end.has(Component::RpcHandlers)
            &&& end.has(Component::TelemetryConnectionNotifier)
        }),
{
    let registry = config.spec_registry();
    let start = Stock::initial(registry);

    lemma_light_basic(start, registry);
    let basic = crate::service::light_basic_steps(registry);
    let s1 = start.after_steps(basic, basic.len());

    lemma_light_import(s1, registry);
    let import = crate::service::light_import_steps(registry);
    let s2 = s1.after_steps(import, import.len());
    lemma_concat(start, basic, import);
    let t2 = basic + import;

    lemma_offchain_workers(s2, config.offchain_worker.enabled);
    let offchain = crate::service::offchain_worker_steps(config.offchain_worker.enabled);
    let s3 = s2.after_steps(offchain, offchain.len());
    lemma_concat(start, t2, offchain);
    let t3 = t2 + offchain;

    lemma_light_tasks(s3);
    lemma_concat(start, t3, crate::service::light_task_steps());
}

} // verus!
