use hyperspace_service::component::Component;
use hyperspace_service::event::{dht_event, Event};
use hyperspace_service::rpc::{
    BabeDeps, DenyUnsafe, FullDeps, GrandpaDeps, NodeRpcExtensionsBuilder, RpcExtensionsBuilder,
};

fn builder() -> RpcExtensionsBuilder {
    RpcExtensionsBuilder {
        client: Component::Client,
        keystore: Component::KeystoreContainer,
        transaction_pool: Component::TransactionPool,
        select_chain: Component::SelectChain,
        chain_spec: Component::ChainSpec,
        babe_config: Component::LinkedBabeConfig,
        shared_epoch_changes: Component::SharedEpochChanges,
        shared_voter_state: Component::SharedVoterState,
        shared_authority_set: Component::SharedAuthoritySet,
        justification_stream: Component::JustificationStream,
        finality_proof_provider: Component::FinalityProofProvider,
        subscription_task_executor: Component::SubscriptionTaskExecutor,
    }
}

#[test]
fn extensions_are_built_from_what_is_held_and_what_is_said() {
    let built = builder().build(
        DenyUnsafe::Yes,
        true,
        Component::Network,
        Component::CallerSubscriptionExecutor,
    );
    assert_eq!(
        built.deps,
        FullDeps {
            client: Component::Client,
            pool: Component::TransactionPool,
            select_chain: Component::SelectChain,
            chain_spec: Component::ChainSpec,
            deny_unsafe: DenyUnsafe::Yes,
            is_authority: true,
            network: Component::Network,
            babe: BabeDeps {
                babe_config: Component::LinkedBabeConfig,
                shared_epoch_changes: Component::SharedEpochChanges,
                keystore: Component::KeystoreContainer,
            },
            grandpa: GrandpaDeps {
                shared_voter_state: Component::SharedVoterState,
                shared_authority_set: Component::SharedAuthoritySet,
                justification_stream: Component::JustificationStream,
                subscription_executor: Component::CallerSubscriptionExecutor,
                finality_provider: Component::FinalityProofProvider,
            },
        }
    );
    assert_eq!(
        built.subscription_task_executor,
        Component::SubscriptionTaskExecutor
    );
}

#[test]
fn a_node_fixes_its_role_and_network() {
    for is_authority in [false, true] {
        let node = NodeRpcExtensionsBuilder {
            builder: builder(),
            is_authority,
            network: Component::Network,
        };
        for deny_unsafe in [DenyUnsafe::Yes, DenyUnsafe::No] {
            assert_eq!(
                node.build(deny_unsafe, Component::CallerSubscriptionExecutor),
                builder().build(
                    deny_unsafe,
                    is_authority,
                    Component::Network,
                    Component::CallerSubscriptionExecutor,
                )
            );
        }
    }
}

#[test]
fn only_events_of_the_hash_table_are_followed() {
    let events = vec![Event::Other, Event::Dht(1), Event::Other, Event::Dht(2)];
    let followed: Vec<u32> = events.into_iter().filter_map(dht_event).collect();
    assert_eq!(followed, [1, 2]);
}
