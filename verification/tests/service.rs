use hyperspace_service::action::{
    Action, AuthorityDiscoveryRole, BabeParams, BackoffAuthoringBlocks, CanAuthorWith,
    GrandpaConfig, GrandpaParams, PeersSet, VotingRule,
};
use hyperspace_service::component::Component;
use hyperspace_service::config::{
    Configuration, KeystoreConfig, NetworkConfiguration, OffchainWorkerConfig, PrometheusConfig,
    Role,
};
use hyperspace_service::error::ServiceError;
use hyperspace_service::rpc::{
    DenyUnsafe, LightDeps, NodeRpcExtensionsBuilder, RpcExtensions, RpcExtensionsBuilder,
};
use hyperspace_service::runtime::{HyperspaceExecutor, HyperspaceRuntimeApi};
use hyperspace_service::service::{
    hyperspace_new_full, hyperspace_new_light, new_chain_ops, new_full, new_light, new_partial,
};
use substrate_prometheus_endpoint::{register, Counter, Registry, U64};

fn plain() -> Configuration {
    Configuration {
        role: Role {
            authority: false,
            network_authority: false,
        },
        keystore: KeystoreConfig::Path {
            path: "keys".to_string(),
        },
        keystore_remote: None,
        prometheus_config: None,
        network: NetworkConfiguration {
            node_name: "alice".to_string(),
        },
        offchain_worker: OffchainWorkerConfig { enabled: false },
        force_authoring: false,
        disable_grandpa: true,
        cli: false,
    }
}

fn authority() -> Configuration {
    Configuration {
        role: Role {
            authority: true,
            network_authority: true,
        },
        prometheus_config: Some(PrometheusConfig {
            port: 9615,
            registry: Registry::new(),
        }),
        offchain_worker: OffchainWorkerConfig { enabled: true },
        force_authoring: true,
        disable_grandpa: false,
        cli: true,
        ..plain()
    }
}

fn remote() -> Configuration {
    Configuration {
        keystore_remote: Some("http://keys".to_string()),
        ..authority()
    }
}

fn common(is_authority: bool, registry: Option<Component>) -> Vec<Action> {
    vec![
        Action::CreateInherentDataProviders,
        Action::CreateFullParts {
            config: Component::Configuration,
        },
        Action::SelectLongestChain {
            backend: Component::Backend,
        },
        Action::CreateFullPool {
            config: Component::Configuration,
            is_authority,
            prometheus_registry: registry,
            spawner: Component::TaskManager,
            client: Component::Client,
        },
        Action::CreateGrandpaBlockImport {
            client: Component::Client,
            genesis_authorities: Component::Client,
            select_chain: Component::SelectChain,
            authority_set_hard_forks: Some(0),
        },
        Action::CreateFrontierBlockImport {
            inner: Component::GrandpaBlockImport,
            client: Component::Client,
            enabled: true,
        },
        Action::ReadBabeConfig {
            client: Component::Client,
        },
        Action::CreateBabeBlockImport {
            config: Component::BabeConfig,
            inner: Component::FrontierBlockImport,
            client: Component::Client,
        },
        Action::CreateImportQueue {
            babe_link: Component::BabeLink,
            block_import: Component::BabeBlockImport,
            justification_import: Some(Component::GrandpaBlockImport),
            client: Component::Client,
            select_chain: Component::SelectChain,
            inherent_data_providers: Component::InherentDataProviders,
            spawner: Component::TaskManager,
            prometheus_registry: registry,
            can_author_with: CanAuthorWith::NativeVersion {
                client: Component::Client,
            },
        },
        Action::OpenJustificationStream {
            grandpa_link: Component::GrandpaLink,
        },
        Action::ShareAuthoritySet {
            grandpa_link: Component::GrandpaLink,
        },
        Action::CreateVoterState,
        Action::CreateFinalityProofProvider {
            backend: Component::Backend,
            shared_authority_set: Some(Component::SharedAuthoritySet),
        },
        Action::CopyBabeConfig {
            babe_link: Component::BabeLink,
        },
        Action::ShareEpochChanges {
            babe_link: Component::BabeLink,
        },
        Action::CreateSubscriptionTaskExecutor {
            spawner: Component::TaskManager,
        },
        Action::CopyChainSpec {
            config: Component::Configuration,
        },
    ]
}

fn spawn_full_tasks(is_authority: bool) -> Action {
    Action::SpawnTasks {
        config: Component::Configuration,
        backend: Component::Backend,
        client: Component::Client,
        keystore: Component::KeystoreContainer,
        network: Component::Network,
        rpc_extensions: RpcExtensions::PerTransport(NodeRpcExtensionsBuilder {
            builder: RpcExtensionsBuilder {
                client: Component::Client,
                keystore: Component::KeystoreContainer,
                transaction_pool: Component::TransactionPool,
                select_chain: Component::SelectChain,
                chain_spec: Component::ChainSpec,
                babe_config: Component::LinkedBabeConfig,
                shared_epoch_changes: Component::SharedEpochChanges,
                shared_voter_state: Component::SharedVoterState,
                shared_authority_set: Component::SharedAuthoritySet,
                justification_stream: Component::JustificationStream,
                finality_proof_provider: Component::FinalityProofProvider,
                subscription_task_executor: Component::SubscriptionTaskExecutor,
            },
            is_authority,
            network: Component::Network,
        }),
        transaction_pool: Component::TransactionPool,
        task_manager: Component::TaskManager,
        on_demand: None,
        remote_blockchain: None,
        telemetry_span: Component::TelemetrySpan,
        network_status_sinks: Component::NetworkStatusSinks,
        system_rpc_tx: Component::SystemRpcTx,
    }
}

fn build_full_network() -> Action {
    Action::BuildNetwork {
        config: Component::Configuration,
        client: Component::Client,
        transaction_pool: Component::TransactionPool,
        spawner: Component::TaskManager,
        import_queue: Component::ImportQueue,
        on_demand: None,
        block_announce_validator_builder: None,
    }
}

fn add_finality_peers() -> Action {
    Action::AddPeersSet {
        config: Component::Configuration,
        set: PeersSet::Grandpa,
    }
}

fn build_offchain_workers() -> Action {
    Action::BuildOffchainWorkers {
        config: Component::Configuration,
        backend: Component::Backend,
        spawner: Component::TaskManager,
        client: Component::Client,
        network: Component::Network,
    }
}

fn start_network() -> Action {
    Action::StartNetwork {
        starter: Component::NetworkStarter,
    }
}

/// The names under which a registry hands out one counter.
fn names(registry: &Registry) -> Vec<String> {
    let counter = Counter::<U64>::new("blocks", "blocks seen").unwrap();
    register(counter, registry).unwrap();
    registry
        .gather()
        .iter()
        .map(|family| family.get_name().to_string())
        .collect()
}

#[test]
fn an_authority_runs_everything() {
    let node = hyperspace_new_full(authority(), false).unwrap();
    let registry = Some(Component::PrometheusRegistry);
    let mut expected = common(true, registry);
    expected.push(add_finality_peers());
    expected.push(Action::AddWarpSyncProtocol {
        config: Component::Configuration,
        spawner: Component::TaskManager,
        backend: Component::Backend,
    });
    expected.push(build_full_network());
    expected.push(build_offchain_workers());
    expected.push(spawn_full_tasks(true));
    expected.push(Action::CreateProposer {
        spawner: Component::TaskManager,
        client: Component::Client,
        transaction_pool: Component::TransactionPool,
        prometheus_registry: registry,
    });
    expected.push(Action::StartBabe {
        babe: BabeParams {
            keystore: Component::KeystoreContainer,
            client: Component::Client,
            select_chain: Component::SelectChain,
            block_import: Component::BabeBlockImport,
            env: Component::Proposer,
            sync_oracle: Component::Network,
            inherent_data_providers: Component::InherentDataProviders,
            force_authoring: true,
            backoff_authoring_blocks: Some(BackoffAuthoringBlocks::OnFinalizedHeadLagging),
            babe_link: Component::BabeLink,
            can_author_with: CanAuthorWith::NativeVersion {
                client: Component::Client,
            },
        },
    });
    expected.push(Action::SpawnEssentialBlocking {
        task_manager: Component::TaskManager,
        name: "babe",
        task: Component::BabeTask,
    });
    expected.push(Action::RunGrandpaVoter {
        grandpa: GrandpaParams {
            config: GrandpaConfig {
                gossip_duration_millis: 1000,
                justification_period: 512,
                name: Some("alice".to_string()),
                observer_enabled: false,
                keystore: Some(Component::KeystoreContainer),
                is_authority: true,
            },
            link: Component::GrandpaLink,
            network: Component::Network,
            telemetry_on_connect: Component::TelemetryConnectionNotifier,
            voting_rule: VotingRule::Default,
            prometheus_registry: registry,
            shared_voter_state: Component::SharedVoterState,
        },
    });
    expected.push(Action::SpawnEssentialBlocking {
        task_manager: Component::TaskManager,
        name: "grandpa-voter",
        task: Component::GrandpaVoter,
    });
    expected.push(Action::OpenDhtEventStream {
        network: Component::Network,
        name: "authority-discovery",
    });
    expected.push(Action::CreateAuthorityDiscovery {
        client: Component::Client,
        network: Component::Network,
        dht_event_stream: Component::DhtEventStream,
        role: AuthorityDiscoveryRole::PublishAndDiscover {
            keystore: Component::KeystoreContainer,
        },
        prometheus_registry: registry,
    });
    expected.push(Action::Spawn {
        task_manager: Component::TaskManager,
        name: "authority-discovery-worker",
        task: Component::AuthorityDiscoveryWorker,
    });
    expected.push(start_network());
    assert_eq!(node.steps, expected);
    assert_eq!(node.parts.0, Component::TaskManager);
    assert_eq!(node.parts.1.component, Component::Client);
    assert_eq!(node.parts.2, Component::RpcHandlers);
}

#[test]
fn a_plain_full_node_runs_nothing_optional() {
    let node = hyperspace_new_full(plain(), false).unwrap();
    let mut expected = common(false, None);
    expected.push(add_finality_peers());
    expected.push(build_full_network());
    expected.push(spawn_full_tasks(false));
    expected.push(start_network());
    assert_eq!(node.steps, expected);
}

#[test]
fn a_full_node_follows_finality_without_keys() {
    let config = Configuration {
        role: Role {
            authority: false,
            network_authority: true,
        },
        disable_grandpa: false,
        ..plain()
    };
    let node = hyperspace_new_full(config, false).unwrap();
    let voters: Vec<&GrandpaParams> = node
        .steps
        .iter()
        .filter_map(|step| match step {
            Action::RunGrandpaVoter { grandpa } => Some(grandpa),
            _ => None,
        })
        .collect();
    assert_eq!(voters.len(), 1);
    assert_eq!(voters[0].config.keystore, None);
    assert!(voters[0].config.is_authority);
    assert_eq!(voters[0].prometheus_registry, None);
    assert!(!node
        .steps
        .iter()
        .any(|step| matches!(step, Action::StartBabe { .. } | Action::CreateAuthorityDiscovery { .. })));
}

#[test]
fn authority_discovery_can_be_switched_off() {
    let with = hyperspace_new_full(authority(), false).unwrap().steps;
    let without = hyperspace_new_full(authority(), true).unwrap().steps;
    assert_eq!(with.len(), without.len() + 3);
    assert!(!without
        .iter()
        .any(|step| matches!(step, Action::CreateAuthorityDiscovery { .. })));
    assert!(without
        .iter()
        .any(|step| matches!(step, Action::StartBabe { .. })));
}

#[test]
fn finality_can_be_switched_off() {
    let config = Configuration {
        disable_grandpa: true,
        ..authority()
    };
    let steps = hyperspace_new_full(config, false).unwrap().steps;
    assert!(!steps
        .iter()
        .any(|step| matches!(step, Action::RunGrandpaVoter { .. })));
}

#[test]
fn a_light_node_is_put_together() {
    let node = hyperspace_new_light(authority()).unwrap();
    let registry = Some(Component::PrometheusRegistry);
    let expected = vec![
        Action::CreateLightParts {
            config: Component::Configuration,
        },
        add_finality_peers(),
        Action::SelectLongestChain {
            backend: Component::Backend,
        },
        Action::CreateLightPool {
            config: Component::Configuration,
            prometheus_registry: registry,
            spawner: Component::TaskManager,
            client: Component::Client,
            fetcher: Component::OnDemand,
        },
        Action::CreateGrandpaBlockImport {
            client: Component::Client,
            genesis_authorities: Component::Client,
            select_chain: Component::SelectChain,
            authority_set_hard_forks: None,
        },
        Action::ReadBabeConfig {
            client: Component::Client,
        },
        Action::CreateBabeBlockImport {
            config: Component::BabeConfig,
            inner: Component::GrandpaBlockImport,
            client: Component::Client,
        },
        Action::CreateInherentDataProviders,
        Action::CreateImportQueue {
            babe_link: Component::BabeLink,
            block_import: Component::BabeBlockImport,
            justification_import: Some(Component::GrandpaBlockImport),
            client: Component::Client,
            select_chain: Component::SelectChain,
            inherent_data_providers: Component::InherentDataProviders,
            spawner: Component::TaskManager,
            prometheus_registry: registry,
            can_author_with: CanAuthorWith::Never,
        },
        Action::BuildNetwork {
            config: Component::Configuration,
            client: Component::Client,
            transaction_pool: Component::TransactionPool,
            spawner: Component::TaskManager,
            import_queue: Component::ImportQueue,
            on_demand: Some(Component::OnDemand),
            block_announce_validator_builder: None,
        },
        build_offchain_workers(),
        Action::CreateLightRpc {
            deps: LightDeps {
                remote_blockchain: Component::Backend,
                fetcher: Component::OnDemand,
                client: Component::Client,
                pool: Component::TransactionPool,
            },
        },
        Action::SpawnTasks {
            config: Component::Configuration,
            backend: Component::Backend,
            client: Component::Client,
            keystore: Component::KeystoreContainer,
            network: Component::Network,
            rpc_extensions: RpcExtensions::Shared(Component::RpcExtension),
            transaction_pool: Component::TransactionPool,
            task_manager: Component::TaskManager,
            on_demand: Some(Component::OnDemand),
            remote_blockchain: Some(Component::Backend),
            telemetry_span: Component::TelemetrySpan,
            network_status_sinks: Component::NetworkStatusSinks,
            system_rpc_tx: Component::SystemRpcTx,
        },
        start_network(),
    ];
    assert_eq!(node.steps, expected);
    assert_eq!(
        node.parts,
        (
            Component::TaskManager,
            Component::RpcHandlers,
            Component::TelemetryConnectionNotifier,
        )
    );
}

#[test]
fn a_light_node_does_not_mind_a_remote_keystore() {
    let node = hyperspace_new_light(remote()).unwrap();
    assert_eq!(node.config.keystore_remote.as_deref(), Some("http://keys"));
    assert_eq!(
        node.steps,
        hyperspace_new_light(authority()).unwrap().steps
    );
}

#[test]
fn a_light_node_without_offchain_workers_takes_one_step_less() {
    let steps = hyperspace_new_light(plain()).unwrap().steps;
    assert_eq!(steps.len(), 13);
    assert!(!steps
        .iter()
        .any(|step| matches!(step, Action::BuildOffchainWorkers { .. })));
}

#[test]
fn nodes_collect_metrics_under_their_prefix() {
    let full = hyperspace_new_full(authority(), false).unwrap();
    let light = hyperspace_new_light(authority()).unwrap();
    for config in [full.config, light.config] {
        let prometheus = config.prometheus_config.unwrap();
        assert_eq!(prometheus.port, 9615);
        assert_eq!(names(&prometheus.registry), ["DRML_blocks"]);
    }
    assert!(hyperspace_new_full(plain(), false)
        .unwrap()
        .config
        .prometheus_config
        .is_none());
}

#[test]
fn a_full_node_turns_down_a_remote_keystore() {
    match hyperspace_new_full(remote(), false) {
        Err(ServiceError::Other(words)) => {
            assert_eq!(words, "Remote Keystores are not supported.")
        }
        _ => panic!("a remote keystore was accepted"),
    }
}

#[test]
fn chain_operations_keep_keys_in_memory() {
    let mut config = authority();
    let assembly =
        new_chain_ops::<HyperspaceRuntimeApi, HyperspaceExecutor>(&mut config).unwrap();
    assert_eq!(config.keystore, KeystoreConfig::InMemory);
    assert_eq!(
        names(&config.prometheus_config.unwrap().registry),
        ["DRML_blocks"]
    );
    assert_eq!(
        assembly.steps,
        common(true, Some(Component::PrometheusRegistry))
    );
    assert_eq!(assembly.parts.0.component, Component::Client);
    assert_eq!(assembly.parts.1, Component::Backend);
    assert_eq!(assembly.parts.2, Component::ImportQueue);
    assert_eq!(assembly.parts.3, Component::TaskManager);
}

#[test]
fn chain_operations_turn_down_a_remote_keystore() {
    let mut config = remote();
    match new_chain_ops::<HyperspaceRuntimeApi, HyperspaceExecutor>(&mut config) {
        Err(ServiceError::Other(words)) => {
            assert_eq!(words, "Remote Keystores are not supported.")
        }
        _ => panic!("a remote keystore was accepted"),
    }
    assert_eq!(config.keystore, KeystoreConfig::InMemory);
    // The registry is left as it was.
    assert_eq!(
        names(&config.prometheus_config.unwrap().registry),
        ["blocks"]
    );
}

#[test]
fn full_nodes_begin_like_chain_operations() {
    for make in [plain, authority] {
        let mut config = make();
        let chain_ops =
            new_chain_ops::<HyperspaceRuntimeApi, HyperspaceExecutor>(&mut config).unwrap();
        let full = hyperspace_new_full(make(), false).unwrap();
        assert_eq!(full.steps[..chain_ops.steps.len()], chain_ops.steps[..]);
    }
}

#[test]
fn networks_start_last_and_once() {
    for steps in [
        hyperspace_new_full(plain(), false).unwrap().steps,
        hyperspace_new_full(authority(), true).unwrap().steps,
        hyperspace_new_light(plain()).unwrap().steps,
        hyperspace_new_light(authority()).unwrap().steps,
    ] {
        let starts: Vec<usize> = (0..steps.len())
            .filter(|&i| matches!(steps[i], Action::StartNetwork { .. }))
            .collect();
        assert_eq!(starts, [steps.len() - 1]);
    }
}

#[test]
fn networks_are_built_with_their_peers() {
    for steps in [
        hyperspace_new_full(authority(), false).unwrap().steps,
        hyperspace_new_light(authority()).unwrap().steps,
    ] {
        let built = steps
            .iter()
            .position(|step| matches!(step, Action::BuildNetwork { .. }))
            .unwrap();
        let added = steps
            .iter()
            .rposition(|step| {
                matches!(
                    step,
                    Action::AddPeersSet { .. } | Action::AddWarpSyncProtocol { .. }
                )
            })
            .unwrap();
        assert!(added < built);
    }
}

#[test]
fn parts_are_made_before_they_are_handed_on() {
    let steps = hyperspace_new_full(authority(), false).unwrap().steps;
    let position = |kind: fn(&Action) -> bool| steps.iter().position(kind).unwrap();
    let parts = position(|s| matches!(s, Action::CreateFullParts { .. }));
    let queue = position(|s| matches!(s, Action::CreateImportQueue { .. }));
    let network = position(|s| matches!(s, Action::BuildNetwork { .. }));
    let tasks = position(|s| matches!(s, Action::SpawnTasks { .. }));
    let babe = position(|s| matches!(s, Action::StartBabe { .. }));
    let voter = position(|s| matches!(s, Action::RunGrandpaVoter { .. }));
    assert!(parts < queue && queue < network && network < tasks && tasks < babe && babe < voter);
}

#[test]
fn remote_keystores_are_refused_alike() {
    let elsewhere = Configuration {
        keystore_remote: Some("ws://other:1234".to_string()),
        ..plain()
    };
    let mut words = Vec::new();
    for (config, disabled) in [(remote(), false), (elsewhere, true)] {
        match new_full::<HyperspaceRuntimeApi, HyperspaceExecutor>(config, disabled) {
            Err(ServiceError::Other(reason)) => words.push(reason),
            other => panic!("{:?}", other),
        }
    }
    assert_eq!(
        words,
        [
            "Remote Keystores are not supported.",
            "Remote Keystores are not supported."
        ]
    );
}

#[test]
fn rpc_extensions_share_the_parts_of_the_node() {
    let mut config = authority();
    let assembly =
        new_partial::<HyperspaceRuntimeApi, HyperspaceExecutor>(&mut config).unwrap();
    assert_eq!(
        assembly.steps,
        common(true, Some(Component::PrometheusRegistry))
    );
    let parts = assembly.parts;
    let first = parts.rpc_extensions_builder.build(
        DenyUnsafe::Yes,
        false,
        Component::Network,
        Component::CallerSubscriptionExecutor,
    );
    let second = parts.rpc_extensions_builder.build(
        DenyUnsafe::No,
        true,
        Component::Network,
        Component::CallerSubscriptionExecutor,
    );
    assert_eq!(first.deps.deny_unsafe, DenyUnsafe::Yes);
    assert_eq!(second.deps.deny_unsafe, DenyUnsafe::No);
    assert!(!first.deps.is_authority);
    assert!(second.deps.is_authority);
    for rpc in [first, second] {
        assert_eq!(rpc.deps.client, parts.client.component);
        assert_eq!(rpc.deps.pool, parts.transaction_pool);
        assert_eq!(rpc.deps.select_chain, parts.select_chain);
        assert_eq!(rpc.deps.chain_spec, Component::ChainSpec);
        assert_eq!(rpc.deps.babe.keystore, parts.keystore_container);
        assert_eq!(
            rpc.deps.grandpa.subscription_executor,
            Component::CallerSubscriptionExecutor
        );
    }
    assert_eq!(first.deps.babe, second.deps.babe);
    assert_eq!(first.deps.grandpa, second.deps.grandpa);
}

#[test]
fn the_common_parts_need_a_local_keystore() {
    let mut config = remote();
    let refused = new_partial::<HyperspaceRuntimeApi, HyperspaceExecutor>(&mut config);
    assert!(matches!(
        refused,
        Err(ServiceError::Other(reason)) if reason == "Remote Keystores are not supported."
    ));
    assert_eq!(
        names(&config.prometheus_config.unwrap().registry),
        ["blocks"]
    );
}

#[test]
fn no_network_validates_block_announcements() {
    let full = new_full::<HyperspaceRuntimeApi, HyperspaceExecutor>(authority(), false);
    let light = new_light::<HyperspaceRuntimeApi, HyperspaceExecutor>(authority());
    for steps in [full.unwrap().steps, light.unwrap().steps] {
        let validators: Vec<Option<Component>> = steps
            .iter()
            .filter_map(|step| match step {
                Action::BuildNetwork {
                    block_announce_validator_builder,
                    ..
                } => Some(*block_announce_validator_builder),
                _ => None,
            })
            .collect();
        assert_eq!(validators, [None]);
    }
}

#[test]
fn tasks_are_spawned_in_one_way() {
    let spawned = |steps: &Vec<Action>| -> Vec<(bool, &'static str, Component)> {
        steps
            .iter()
            .filter_map(|step| match step {
                Action::SpawnEssentialBlocking { name, task, .. } => Some((true, *name, *task)),
                Action::Spawn { name, task, .. } => Some((false, *name, *task)),
                _ => None,
            })
            .collect()
    };
    assert_eq!(
        spawned(&hyperspace_new_full(authority(), false).unwrap().steps),
        [
            (true, "babe", Component::BabeTask),
            (true, "grandpa-voter", Component::GrandpaVoter),
            (
                false,
                "authority-discovery-worker",
                Component::AuthorityDiscoveryWorker
            ),
        ]
    );
    assert_eq!(spawned(&hyperspace_new_full(plain(), false).unwrap().steps), []);
    assert_eq!(spawned(&hyperspace_new_light(authority()).unwrap().steps), []);
}
