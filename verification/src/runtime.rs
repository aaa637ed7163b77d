//! What a runtime and a client must offer for a node to be put together around
//! them.
//!
//! The types and the traits without methods stand for those of the chain, and have
//! nothing inside. They describe the shape of the bounds only: which runtimes and
//! clients a layout can be written for. That the runtime of a running node offers
//! what they name is checked where its steps are taken.

use crate::component::Component;
use std::marker::PhantomData;
use vstd::prelude::*;

verus! {

/// A block of the chain, its transactions unread.
#[derive(Clone, Copy, Debug)]
pub struct OpaqueBlock;

/// The identity of an account.
#[derive(Clone, Copy, Debug)]
pub struct AccountId;

/// An amount of currency.
#[derive(Clone, Copy, Debug)]
pub struct Balance;

/// The hash of a block.
#[derive(Clone, Copy, Debug)]
pub struct Hash;

/// How many transactions an account has sent.
#[derive(Clone, Copy, Debug)]
pub struct Nonce;

/// The weight of a stake.
#[derive(Clone, Copy, Debug)]
pub struct Power;

/// The hash function of the chain.
#[derive(Clone, Copy, Debug)]
pub struct BlakeTwo256;

/// The error of a blockchain backend.
#[derive(Clone, Copy, Debug)]
pub struct BlockchainError;

/// A kind of block.
pub trait BlockKind {

}

/// A storage of state that is hashed with `Hasher`.
pub trait StateBackend<Hasher> {

}

/// A storage of blocks and state.
pub trait Backend<Block> {
    /// The state it stores.
    type State;
}

/// A runtime's calls, and the state they work on.
pub trait ApiExt<Block> {
    /// The error of a call.
    type Error;

    /// The state that calls work on.
    type StateBackend;
}

/// A runtime that describes itself.
pub trait Metadata<Block> {

}

/// A runtime that knows the authorities to discover.
pub trait AuthorityDiscoveryApi<Block> {

}

/// A runtime that builds blocks.
pub trait BlockBuilder<Block> {

}

/// A runtime that configures block production.
pub trait BabeApi<Block> {

}

/// A runtime that configures finality.
pub trait GrandpaApi<Block> {

}

/// A runtime with an offchain worker.
pub trait OffchainWorkerApi<Block> {

}

/// A runtime that makes session keys.
pub trait SessionKeys<Block> {

}

/// A runtime that validates transactions for the pool.
pub trait TaggedTransactionQueue<Block> {

}

/// A runtime that knows the nonces of accounts.
pub trait AccountNonceApi<Block, AccountId, Nonce> {

}

/// A runtime that knows what transactions cost.
pub trait TransactionPaymentApi<Block, Balance> {

}

/// A runtime that knows the balances of accounts.
pub trait BalancesApi<Block, AccountId, Balance> {

}

/// A runtime that proves headers by a mountain range.
pub trait HeaderMMRApi<Block, Hash> {

}

/// A runtime that knows the stakes of accounts.
pub trait StakingApi<Block, AccountId, Power> {

}

/// A runtime that answers Ethereum requests.
pub trait EthereumRuntimeRPCApi<Block> {

}

/// A set of APIs that hyperspace-like runtimes must implement.
pub trait RuntimeApiCollection: ApiExt<OpaqueBlock, Error = BlockchainError> + Metadata<
    OpaqueBlock,
> + AuthorityDiscoveryApi<OpaqueBlock> + BlockBuilder<OpaqueBlock> + BabeApi<
    OpaqueBlock,
> + GrandpaApi<OpaqueBlock> + OffchainWorkerApi<OpaqueBlock> + SessionKeys<
    OpaqueBlock,
> + TaggedTransactionQueue<OpaqueBlock> + AccountNonceApi<
    OpaqueBlock,
    AccountId,
    Nonce,
> + TransactionPaymentApi<OpaqueBlock, Balance> + BalancesApi<
    OpaqueBlock,
    AccountId,
    Balance,
> + HeaderMMRApi<OpaqueBlock, Hash> + StakingApi<
    OpaqueBlock,
    AccountId,
    Power,
> + EthereumRuntimeRPCApi<OpaqueBlock> where
    <Self as ApiExt<OpaqueBlock>>::StateBackend: StateBackend<BlakeTwo256>,
 {

}

impl<Api> RuntimeApiCollection for Api where
    Api: ApiExt<OpaqueBlock, Error = BlockchainError> + Metadata<
        OpaqueBlock,
    > + AuthorityDiscoveryApi<OpaqueBlock> + BlockBuilder<OpaqueBlock> + BabeApi<
        OpaqueBlock,
    > + GrandpaApi<OpaqueBlock> + OffchainWorkerApi<OpaqueBlock> + SessionKeys<
        OpaqueBlock,
    > + TaggedTransactionQueue<OpaqueBlock> + AccountNonceApi<
        OpaqueBlock,
        AccountId,
        Nonce,
    > + TransactionPaymentApi<OpaqueBlock, Balance> + BalancesApi<
        OpaqueBlock,
        AccountId,
        Balance,
    > + HeaderMMRApi<OpaqueBlock, Hash> + StakingApi<
        OpaqueBlock,
        AccountId,
        Power,
    > + EthereumRuntimeRPCApi<OpaqueBlock>,
    <Self as ApiExt<OpaqueBlock>>::StateBackend: StateBackend<BlakeTwo256>,
 {

}

/// A client that tells of new blocks.
pub trait BlockchainEvents<Block> {

}

/// A client that calls the runtime as of a given block.
pub trait CallApiAt<Block> {
    /// The error of a call.
    type Error;

    /// The state that calls work on.
    type StateBackend;
}

/// A client that hands out the calls of the runtime.
pub trait ProvideRuntimeApi<Block> {
    /// The calls.
    type Api;
}

/// A client that knows the headers of the chain.
pub trait HeaderBackend<Block> {

}

/// A runtime whose calls can be made through a client.
pub trait ConstructRuntimeApi<Block, Client> {
    /// The calls.
    type RuntimeApi;
}

/// A native build of a runtime.
pub trait NativeExecutionDispatch {

}

/// DRML client abstraction, this super trait only pulls in functionality required for
/// DRML internal crates like DRML-collator.
pub trait DRMLClient<Block, Store, Runtime>: Sized + Send + Sync + BlockchainEvents<
    Block,
> + CallApiAt<Block, Error = BlockchainError, StateBackend = Store::State> + ProvideRuntimeApi<
    Block,
    Api = Runtime::RuntimeApi,
> + HeaderBackend<Block> where
    Store: Backend<Block>,
    Block: BlockKind,
    Runtime: ConstructRuntimeApi<Block, Self>,
 {

}

impl<Block, Store, Runtime, Client> DRMLClient<Block, Store, Runtime> for Client where
    Store: Backend<Block>,
    Block: BlockKind,
    Client: Sized + Send + Sync + BlockchainEvents<Block> + CallApiAt<
        Block,
        Error = BlockchainError,
        StateBackend = Store::State,
    > + ProvideRuntimeApi<Block, Api = Runtime::RuntimeApi> + HeaderBackend<Block>,
    Runtime: ConstructRuntimeApi<Block, Self>,
 {

}

impl BlockKind for OpaqueBlock {

}

/// The state of a full node, all of it at hand.
#[derive(Clone, Copy, Debug)]
pub struct FullState;

impl StateBackend<BlakeTwo256> for FullState {

}

/// The backend of a full node.
#[derive(Clone, Copy, Debug)]
pub struct FullBackend;

impl Backend<OpaqueBlock> for FullBackend {
    type State = FullState;
}

/// The state of a light node, fetched as needed.
#[derive(Clone, Copy, Debug)]
pub struct LightState;

impl StateBackend<BlakeTwo256> for LightState {

}

/// The client of a full node that runs `RuntimeApi`, natively where `Executor`
/// matches.
#[derive(Debug)]
pub struct FullClient<RuntimeApi, Executor> {
    /// The client among the node's parts.
    pub component: Component,
    /// What the client runs.
    pub runs: PhantomData<(RuntimeApi, Executor)>,
}

impl<RuntimeApi, Executor> BlockchainEvents<OpaqueBlock> for FullClient<RuntimeApi, Executor> {

}

impl<RuntimeApi, Executor> CallApiAt<OpaqueBlock> for FullClient<RuntimeApi, Executor> {
    type Error = BlockchainError;

    type StateBackend = FullState;
}

impl<RuntimeApi, Executor> HeaderBackend<OpaqueBlock> for FullClient<RuntimeApi, Executor> {

}

impl<RuntimeApi, Executor> ProvideRuntimeApi<OpaqueBlock> for FullClient<
    RuntimeApi,
    Executor,
> where RuntimeApi: ConstructRuntimeApi<OpaqueBlock, FullClient<RuntimeApi, Executor>> {
    type Api = RuntimeApi::RuntimeApi;
}

/// The client of a light node that runs `RuntimeApi`, natively where `Executor`
/// matches.
#[derive(Debug)]
pub struct LightClient<RuntimeApi, Executor> {
    /// What the client runs.
    pub runs: PhantomData<(RuntimeApi, Executor)>,
}

impl<RuntimeApi, Executor> CallApiAt<OpaqueBlock> for LightClient<RuntimeApi, Executor> {
    type Error = BlockchainError;

    type StateBackend = LightState;
}

/// The native build of the Hyperspace runtime.
#[derive(Clone, Copy, Debug)]
pub struct HyperspaceExecutor;

impl NativeExecutionDispatch for HyperspaceExecutor {

}

/// The Hyperspace runtime.
#[derive(Clone, Copy, Debug)]
pub struct HyperspaceRuntimeApi;

/// The calls of the Hyperspace runtime, on a given kind of state.
#[derive(Debug)]
pub struct HyperspaceApi<State> {
    /// The state that calls work on.
    pub state: PhantomData<State>,
}

impl<Client: CallApiAt<OpaqueBlock>> ConstructRuntimeApi<
    OpaqueBlock,
    Client,
> for HyperspaceRuntimeApi {
    type RuntimeApi = HyperspaceApi<Client::StateBackend>;
}

impl<State> ApiExt<OpaqueBlock> for HyperspaceApi<State> {
    type Error = BlockchainError;

    type StateBackend = State;
}

impl<State> Metadata<OpaqueBlock> for HyperspaceApi<State> {

}

impl<State> AuthorityDiscoveryApi<OpaqueBlock> for HyperspaceApi<State> {

}

impl<State> BlockBuilder<OpaqueBlock> for HyperspaceApi<State> {

}

impl<State> BabeApi<OpaqueBlock> for HyperspaceApi<State> {

}

impl<State> GrandpaApi<OpaqueBlock> for HyperspaceApi<State> {

}

impl<State> OffchainWorkerApi<OpaqueBlock> for HyperspaceApi<State> {

}

impl<State> SessionKeys<OpaqueBlock> for HyperspaceApi<State> {

}

impl<State> TaggedTransactionQueue<OpaqueBlock> for HyperspaceApi<State> {

}

impl<State> AccountNonceApi<OpaqueBlock, AccountId, Nonce> for HyperspaceApi<State> {

}

impl<State> TransactionPaymentApi<OpaqueBlock, Balance> for HyperspaceApi<State> {

}

impl<State> BalancesApi<OpaqueBlock, AccountId, Balance> for HyperspaceApi<State> {

}

impl<State> HeaderMMRApi<OpaqueBlock, Hash> for HyperspaceApi<State> {

}

impl<State> StakingApi<OpaqueBlock, AccountId, Power> for HyperspaceApi<State> {

}

impl<State> EthereumRuntimeRPCApi<OpaqueBlock> for HyperspaceApi<State> {

}

} // verus!
