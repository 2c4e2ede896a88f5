use vstd::prelude::*;
use crate::block::block_header::{Block, BlockId, BlockView, PeerId};
use crate::block::chain::block_option_view;
use crate::node::config::Setting;

verus! {

/// What the validator reports when it cannot do what it was asked.
#[derive(Debug)]
pub enum ServiceError {
    EncodingError(String),
    SendError(String),
    ReceiveError(String),
    InvalidState(String),
    /// The validator has no block of this id.
    UnknownBlock(BlockId),
    UnknownPeer(String),
    NoChainHead,
    /// The block in the making cannot be summarized or finalized yet.
    BlockNotReady,
}

/// What the validator tells the engine.
#[derive(Debug)]
pub enum Update {
    PeerConnected(PeerId),
    PeerDisconnected(PeerId),
    PeerMessage(Vec<u8>, PeerId),
    BlockNew(Block),
    BlockValid(BlockId),
    BlockInvalid(BlockId),
    BlockCommit(BlockId),
    Shutdown,
}

/// What the engine is started with.
#[derive(Debug)]
pub struct StartupState {
    pub chain_head: Block,
    pub local_peer_id: PeerId,
}

/// What the node asks of the validator.
#[derive(Debug)]
pub enum Request {
    InitializeBlock(Option<BlockId>),
    SummarizeBlock,
    FinalizeBlock(Vec<u8>),
    CancelBlock,
    CheckBlocks(Vec<BlockId>),
    CommitBlock(BlockId),
    IgnoreBlock(BlockId),
    FailBlock(BlockId),
    /// The block of this id.
    GetBlock(BlockId),
    /// The settings of these keys as of the block of this id.
    GetSettings(BlockId, Vec<String>),
}

/// What the validator answers.
#[derive(Debug)]
pub enum Reply {
    /// The answer to a request that hands nothing back.
    Done(Result<(), ServiceError>),
    /// The answer to `SummarizeBlock`.
    Summary(Result<Vec<u8>, ServiceError>),
    /// The answer to `FinalizeBlock`: the id of the new block.
    Finalized(Result<BlockId, ServiceError>),
    /// The answer to `GetBlock`: the block, or none where the validator has none.
    Block(Option<Block>),
    /// The answer to `GetSettings`.
    Settings(Result<Vec<Setting>, ServiceError>),
}

/// How the handling of an update ended.
#[derive(Clone, Copy, Debug, PartialEq, Eq, Structural)]
pub enum EventResult {
    Continue,
    /// A new chain head was committed; the flag says whether a block was
    /// published on the way.
    Restart(bool),
    Shutdown,
}

/// How an attempt to publish ended.
#[derive(Clone, Copy, Debug, PartialEq, Eq, Structural)]
pub enum EventPublishResult {
    Published,
    Pending,
}

/// What came of an operation of the node.
#[derive(Clone, Copy, Debug, PartialEq, Eq, Structural)]
pub enum Outcome {
    /// An update was handled.
    Update(EventResult),
    /// An attempt to publish ended.
    Publish(EventPublishResult),
    /// The node is started.
    Initialized,
    /// The configuration was loaded again.
    Reloaded,
}

/// What the node does next: it asks the validator, and goes on when the
/// answer is handed to it, or it is done.
#[derive(Debug)]
pub enum Step {
    Call(Request),
    Done(Result<Outcome, ServiceError>),
}

/// A `ServiceError` as plain values.
pub ghost enum ServiceErrorView {
    EncodingError(Seq<char>),
    SendError(Seq<char>),
    ReceiveError(Seq<char>),
    InvalidState(Seq<char>),
    UnknownBlock(Seq<u8>),
    UnknownPeer(Seq<char>),
    NoChainHead,
    BlockNotReady,
}

impl View for ServiceError {
    type V = ServiceErrorView;

    open spec fn view(&self) -> ServiceErrorView {
        match self {
            ServiceError::EncodingError(text) => ServiceErrorView::EncodingError(text@),
            ServiceError::SendError(text) => ServiceErrorView::SendError(text@),
            ServiceError::ReceiveError(text) => ServiceErrorView::ReceiveError(text@),
            ServiceError::InvalidState(text) => ServiceErrorView::InvalidState(text@),
            ServiceError::UnknownBlock(block_id) => ServiceErrorView::UnknownBlock(block_id@),
            ServiceError::UnknownPeer(text) => ServiceErrorView::UnknownPeer(text@),
            ServiceError::NoChainHead => ServiceErrorView::NoChainHead,
            ServiceError::BlockNotReady => ServiceErrorView::BlockNotReady,
        }
    }
}

/// An `Update` as plain values; of what concerns peers only that it does.
pub ghost enum UpdateView {
    Peer,
    BlockNew(BlockView),
    BlockValid(Seq<u8>),
    BlockInvalid(Seq<u8>),
    BlockCommit(Seq<u8>),
    Shutdown,
}

impl View for Update {
    type V = UpdateView;

    open spec fn view(&self) -> UpdateView {
        match self {
            Update::PeerConnected(_) => UpdateView::Peer,
            Update::PeerDisconnected(_) => UpdateView::Peer,
            Update::PeerMessage(_, _) => UpdateView::Peer,
            Update::BlockNew(block) => UpdateView::BlockNew(block@),
            Update::BlockValid(block_id) => UpdateView::BlockValid(block_id@),
            Update::BlockInvalid(block_id) => UpdateView::BlockInvalid(block_id@),
            Update::BlockCommit(block_id) => UpdateView::BlockCommit(block_id@),
            Update::Shutdown => UpdateView::Shutdown,
        }
    }
}

pub open spec fn ids_view(ids: Seq<BlockId>) -> Seq<Seq<u8>> {
    ids.map_values(|block_id: BlockId| block_id@)
}

pub open spec fn keys_view(keys: Seq<String>) -> Seq<Seq<char>> {
    keys.map_values(|key: String| key@)
}

/// A `Request` as plain values.
pub ghost enum RequestView {
    InitializeBlock(Option<Seq<u8>>),
    SummarizeBlock,
    FinalizeBlock(Seq<u8>),
    CancelBlock,
    CheckBlocks(Seq<Seq<u8>>),
    CommitBlock(Seq<u8>),
    IgnoreBlock(Seq<u8>),
    FailBlock(Seq<u8>),
    GetBlock(Seq<u8>),
    GetSettings(Seq<u8>, Seq<Seq<char>>),
}

impl View for Request {
    type V = RequestView;

    open spec fn view(&self) -> RequestView {
        match self {
            Request::InitializeBlock(previous) => RequestView::InitializeBlock(
                match previous {
                    Some(block_id) => Some(block_id@),
                    None => None,
                },
            ),
            Request::SummarizeBlock => RequestView::SummarizeBlock,
            Request::FinalizeBlock(consensus) => RequestView::FinalizeBlock(consensus@),
            Request::CancelBlock => RequestView::CancelBlock,
            Request::CheckBlocks(ids) => RequestView::CheckBlocks(ids_view(ids@)),
            Request::CommitBlock(block_id) => RequestView::CommitBlock(block_id@),
            Request::IgnoreBlock(block_id) => RequestView::IgnoreBlock(block_id@),
            Request::FailBlock(block_id) => RequestView::FailBlock(block_id@),
            Request::GetBlock(block_id) => RequestView::GetBlock(block_id@),
            Request::GetSettings(block_id, keys) => RequestView::GetSettings(
                block_id@,
                keys_view(keys@),
            ),
        }
    }
}

/// A `Reply` as plain values; of a summary and of the id of a finalized
/// block only that they came.
pub ghost enum ReplyView {
    Done(Result<(), ServiceErrorView>),
    Summary(Result<(), ServiceErrorView>),
    Finalized(Result<(), ServiceErrorView>),
    Block(Option<BlockView>),
    Settings(Result<Seq<Setting>, ServiceErrorView>),
}

impl View for Reply {
    type V = ReplyView;

    open spec fn view(&self) -> ReplyView {
        match self {
            Reply::Done(Ok(_)) => ReplyView::Done(Ok(())),
            Reply::Done(Err(error)) => ReplyView::Done(Err(error@)),
            Reply::Summary(Ok(_)) => ReplyView::Summary(Ok(())),
            Reply::Summary(Err(error)) => ReplyView::Summary(Err(error@)),
            Reply::Finalized(Ok(_)) => ReplyView::Finalized(Ok(())),
            Reply::Finalized(Err(error)) => ReplyView::Finalized(Err(error@)),
            Reply::Block(block) => ReplyView::Block(block_option_view(*block)),
            Reply::Settings(Ok(settings)) => ReplyView::Settings(Ok(settings@)),
            Reply::Settings(Err(error)) => ReplyView::Settings(Err(error@)),
        }
    }
}

/// A `Step` as plain values.
pub ghost enum StepView {
    Call(RequestView),
    Done(Result<Outcome, ServiceErrorView>),
}

impl View for Step {
    type V = StepView;

    open spec fn view(&self) -> StepView {
        match self {
            Step::Call(request) => StepView::Call(request@),
            Step::Done(Ok(outcome)) => StepView::Done(Ok(*outcome)),
            Step::Done(Err(error)) => StepView::Done(Err(error@)),
        }
    }
}

} // verus!
