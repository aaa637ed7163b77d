//! The parts a node is made of.

use vstd::prelude::*;

verus! {

/// One part of a node.
///
/// Steps of an assembly name the parts they work on. A part stands for the one
/// object of its kind that the node holds, or for the absence of it where the
/// part is optional ([`Component::TelemetrySpan`],
/// [`Component::TelemetryConnectionNotifier`]).
#[derive(Clone, Copy, Debug, PartialEq, Eq, Structural)]
pub enum Component {
    /// The configuration the node is started with.
    Configuration,
    /// The registry that the configuration collects metrics in.
    PrometheusRegistry,
    /// The providers of inherent data.
    InherentDataProviders,
    /// The client that imports and executes blocks.
    Client,
    /// The storage backend.
    Backend,
    /// The container of the node's keystores.
    KeystoreContainer,
    /// The manager that background tasks are spawned on.
    TaskManager,
    /// The telemetry span, where telemetry is enabled.
    TelemetrySpan,
    /// The fetcher of data from other nodes, which light nodes rely on.
    OnDemand,
    /// The rule that picks the best chain.
    SelectChain,
    /// The pool of pending transactions.
    TransactionPool,
    /// The block import of the finality gadget.
    GrandpaBlockImport,
    /// The other half of the finality gadget's block import.
    GrandpaLink,
    /// The block import that indexes Ethereum blocks.
    FrontierBlockImport,
    /// The configuration of block production, read from the chain.
    BabeConfig,
    /// The block import of block production.
    BabeBlockImport,
    /// The link to the state of block production.
    BabeLink,
    /// The queue of blocks to import.
    ImportQueue,
    /// The stream of finality justifications.
    JustificationStream,
    /// The shared set of finality authorities.
    SharedAuthoritySet,
    /// The shared state of the finality voter.
    SharedVoterState,
    /// The provider of finality proofs.
    FinalityProofProvider,
    /// The configuration of block production, as the link holds it.
    LinkedBabeConfig,
    /// The shared epoch changes of block production.
    SharedEpochChanges,
    /// The executor that RPC subscriptions run on.
    SubscriptionTaskExecutor,
    /// A copy of the chain specification.
    ChainSpec,
    /// The executor that a caller of the RPC extensions brings along.
    CallerSubscriptionExecutor,
    /// The RPC extension of a light node.
    RpcExtension,
    /// The network service.
    Network,
    /// The sinks of the network's status.
    NetworkStatusSinks,
    /// The sender of system RPC requests.
    SystemRpcTx,
    /// The switch that starts the network.
    NetworkStarter,
    /// The RPC handlers.
    RpcHandlers,
    /// The notifier of telemetry connections, where telemetry is enabled.
    TelemetryConnectionNotifier,
    /// The factory of block proposers.
    Proposer,
    /// The block production task.
    BabeTask,
    /// The finality voter task.
    GrandpaVoter,
    /// The stream of distributed hash table events.
    DhtEventStream,
    /// The authority discovery worker.
    AuthorityDiscoveryWorker,
}

} // verus!
