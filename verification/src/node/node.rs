use vstd::prelude::*;
use crate::block::block_header::{has_header, Block, BlockHeader, BlockId, BlockView};
use crate::block::chain::{Chain, ChainView, Walk, Walked};
use crate::miner::answer::{answer_payload, AnswerView};
use crate::miner::challenge::{Challenge, ChallengeView};
use crate::miner::miner::{absorbed, messages_view, Miner};
use crate::miner::worker::{MessageToMiner, MessageToMinerView};
use crate::node::config::{loaded_config, PowConfig};
use crate::node::fork::{choose_fork, fork_verdict, Verdict, VerdictView};
use crate::node::guard::Guard;
use crate::node::service::{
    ids_view, keys_view, EventPublishResult, EventResult, Outcome, Reply, ReplyView, Request,
    RequestView, ServiceError, ServiceErrorView, StartupState, Step, StepView, Update, UpdateView,
};
use crate::node::state::{PowState, StateView};
use crate::primitives::{bytes_eq, bytes_to_vec, CCDifficulty};
use crate::timestamp::Timestamp;

verus! {

/// The id that stands for "no block": a new block that names it as its
/// predecessor is refused.
pub const NULL_BLOCK_IDENTIFIER: [u8; 8] = [0, 0, 0, 0, 0, 0, 0, 0];

pub open spec fn null_block_identifier() -> Seq<u8> {
    seq![0u8, 0u8, 0u8, 0u8, 0u8, 0u8, 0u8, 0u8]
}

/// What follows once the configuration was loaded.
#[derive(Debug)]
pub enum Followup {
    /// The first block is initialized: the node starts.
    Startup,
    /// The guards are cleared and a block on the new head is initialized.
    Commit { block_id: BlockId, did_publish: bool },
    /// Nothing.
    Alone,
}

/// A `Followup` as plain values.
pub ghost enum FollowupView {
    Startup,
    Commit { block_id: Seq<u8>, did_publish: bool },
    Alone,
}

impl View for Followup {
    type V = FollowupView;

    open spec fn view(&self) -> FollowupView {
        match self {
            Followup::Startup => FollowupView::Startup,
            Followup::Commit { block_id, did_publish } => FollowupView::Commit {
                block_id: block_id@,
                did_publish: *did_publish,
            },
            Followup::Alone => FollowupView::Alone,
        }
    }
}

/// Which answer of the validator the node waits for, and what it goes on
/// with once the answer has come.
#[derive(Debug)]
pub enum Phase {
    /// No request is open.
    Idle,
    /// The last request of an update is open.
    Closing,
    /// The block `asked` is needed to choose between the chain head and `candidate`.
    Choosing { candidate: BlockId, asked: BlockId },
    /// The block in the making is being summarized, to be finalized with
    /// `consensus`; `commit` names the new head where a commit is under way.
    Summarizing { consensus: Vec<u8>, commit: Option<BlockId> },
    /// The block in the making is being finalized.
    Finalizing { commit: Option<BlockId> },
    /// The block in the making is being cancelled for the new head `block_id`.
    Cancelling { block_id: BlockId, did_publish: bool },
    /// The settings are being read.
    Reloading { then: Followup },
    /// A block is being initialized, after which the operation ends with `outcome`.
    Initializing { outcome: Outcome },
}

/// A `Phase` as plain values.
pub ghost enum PhaseView {
    Idle,
    Closing,
    Choosing { candidate: Seq<u8>, asked: Seq<u8> },
    Summarizing { consensus: Seq<u8>, commit: Option<Seq<u8>> },
    Finalizing { commit: Option<Seq<u8>> },
    Cancelling { block_id: Seq<u8>, did_publish: bool },
    Reloading { then: FollowupView },
    Initializing { outcome: Outcome },
}

pub open spec fn commit_view(commit: Option<BlockId>) -> Option<Seq<u8>> {
    match commit {
        Some(block_id) => Some(block_id@),
        None => None,
    }
}

impl View for Phase {
    type V = PhaseView;

    open spec fn view(&self) -> PhaseView {
        match self {
            Phase::Idle => PhaseView::Idle,
            Phase::Closing => PhaseView::Closing,
            Phase::Choosing { candidate, asked } => PhaseView::Choosing {
                candidate: candidate@,
                asked: asked@,
            },
            Phase::Summarizing { consensus, commit } => PhaseView::Summarizing {
                consensus: consensus@,
                commit: commit_view(*commit),
            },
            Phase::Finalizing { commit } => PhaseView::Finalizing { commit: commit_view(*commit) },
            Phase::Cancelling { block_id, did_publish } => PhaseView::Cancelling {
                block_id: block_id@,
                did_publish: *did_publish,
            },
            Phase::Reloading { then } => PhaseView::Reloading { then: then@ },
            Phase::Initializing { outcome } => PhaseView::Initializing { outcome: *outcome },
        }
    }
}

/// A `PowNode` as plain values.
pub ghost struct NodeView {
    pub config: PowConfig,
    pub state: StateView,
    /// The latest answer of the worker that was not taken yet.
    pub answer: Option<AnswerView>,
    /// What the validator has said of its chain while the update at hand is handled.
    pub chain: Chain,
    pub phase: PhaseView,
}

/// While the block in the making is being summarized or finalized, it is
/// not finalized yet.
pub open spec fn node_wf(node: NodeView) -> bool {
    (node.phase is Summarizing || node.phase is Finalizing) ==> !node.state.guards.contains(
        Guard::Finalized,
    )
}

/// The keys of the settings that the node reads.
pub open spec fn settings_keys() -> Seq<Seq<char>> {
    seq![
        "seconds_between_blocks"@,
        "difficulty_adjustment_block_count"@,
        "difficulty_tuning_block_count"@,
        "initial_difficulty"@,
    ]
}

pub open spec fn with_phase(node: NodeView, phase: PhaseView) -> NodeView {
    NodeView { phase, ..node }
}

pub open spec fn with_guards(node: NodeView, guards: Set<Guard>) -> NodeView {
    NodeView { state: StateView { guards, ..node.state }, ..node }
}

pub open spec fn done(outcome: Outcome) -> StepView {
    StepView::Done(Ok(outcome))
}

pub open spec fn failed(error: ServiceErrorView) -> StepView {
    StepView::Done(Err(error))
}

/// The node reads the settings as of its chain head.
pub open spec fn reloading(node: NodeView, then: FollowupView) -> (NodeView, StepView) {
    (
        with_phase(node, PhaseView::Reloading { then }),
        StepView::Call(RequestView::GetSettings(node.state.chain_head, settings_keys())),
    )
}

/// The node goes on with a commit of `block_id` after its attempt to
/// publish: it cancels the block in the making unless that block is
/// finalized, and then reads the settings.
pub open spec fn committing(node: NodeView, block_id: Seq<u8>, did_publish: bool) -> (
    NodeView,
    StepView,
) {
    if !node.state.guards.contains(Guard::Finalized) {
        (
            with_phase(node, PhaseView::Cancelling { block_id, did_publish }),
            StepView::Call(RequestView::CancelBlock),
        )
    } else {
        reloading(node, FollowupView::Commit { block_id, did_publish })
    }
}

/// An attempt to publish has ended with `result`. Alone, that is how the
/// operation ends; within a commit the commit goes on, whatever the result.
pub open spec fn published(
    node: NodeView,
    commit: Option<Seq<u8>>,
    result: Result<EventPublishResult, ServiceErrorView>,
) -> (NodeView, StepView) {
    match commit {
        None => (
            with_phase(node, PhaseView::Idle),
            match result {
                Ok(result) => done(Outcome::Publish(result)),
                Err(error) => failed(error),
            },
        ),
        Some(block_id) => committing(
            with_phase(node, PhaseView::Idle),
            block_id,
            result == Ok::<EventPublishResult, ServiceErrorView>(EventPublishResult::Published),
        ),
    }
}

/// The node attempts to publish. Nothing happens where the block in the
/// making is finalized, or where the miner has no answer. Else the answer is
/// taken and `Consensus` set; the block is summarized unless it has been,
/// and then finalized with the payload of the answer.
pub open spec fn publishing(node: NodeView, commit: Option<Seq<u8>>) -> (NodeView, StepView) {
    if node.state.guards.contains(Guard::Finalized) {
        published(node, commit, Ok(EventPublishResult::Pending))
    } else {
        match node.answer {
            None => published(node, commit, Ok(EventPublishResult::Pending)),
            Some(answer) => {
                let taken = NodeView { answer: None, ..node };
                let guarded = with_guards(taken, node.state.guards.insert(Guard::Consensus));
                if !node.state.guards.contains(Guard::Summarized) {
                    (
                        with_phase(
                            guarded,
                            PhaseView::Summarizing { consensus: answer_payload(answer), commit },
                        ),
                        StepView::Call(RequestView::SummarizeBlock),
                    )
                } else {
                    (
                        with_phase(guarded, PhaseView::Finalizing { commit }),
                        StepView::Call(RequestView::FinalizeBlock(answer_payload(answer))),
                    )
                }
            },
        }
    }
}

/// The node chooses between its chain head and `candidate`, or asks for a
/// block that it needs for the choice. A committed candidate is the chain
/// head from then on.
pub open spec fn choosing(node: NodeView, candidate: Seq<u8>) -> (NodeView, StepView) {
    match fork_verdict(node.chain, node.state.chain_head, candidate) {
        Walked::Need(block_id) => (
            with_phase(node, PhaseView::Choosing { candidate, asked: block_id }),
            StepView::Call(RequestView::GetBlock(block_id)),
        ),
        Walked::Done(VerdictView::Commit) => (
            NodeView {
                state: StateView { chain_head: candidate, ..node.state },
                phase: PhaseView::Closing,
                ..node
            },
            StepView::Call(RequestView::CommitBlock(candidate)),
        ),
        Walked::Done(VerdictView::Ignore) => (
            with_phase(node, PhaseView::Closing),
            StepView::Call(RequestView::IgnoreBlock(candidate)),
        ),
        Walked::Done(VerdictView::Unknown(block_id)) => (
            with_phase(node, PhaseView::Idle),
            failed(ServiceErrorView::UnknownBlock(block_id)),
        ),
    }
}

/// Whether a new block is refused: it names no predecessor, or no header
/// can be made of it.
pub open spec fn refused(block: BlockView) -> bool {
    block.previous_id == null_block_identifier() || !has_header(block)
}

/// The node takes up what came from the worker, drops what was left open,
/// and handles an update of the validator.
pub open spec fn updating(node: NodeView, update: UpdateView, messages: Seq<MessageToMinerView>) -> (
    NodeView,
    StepView,
) {
    let fresh = NodeView { answer: absorbed(node.answer, messages), phase: PhaseView::Idle, ..node };
    match update {
        UpdateView::BlockNew(block) => (
            with_phase(fresh, PhaseView::Closing),
            if refused(block) {
                StepView::Call(RequestView::FailBlock(block.block_id))
            } else {
                StepView::Call(RequestView::CheckBlocks(seq![block.block_id]))
            },
        ),
        UpdateView::BlockValid(block_id) => choosing(
            NodeView { chain: Map::empty(), ..fresh },
            block_id,
        ),
        UpdateView::BlockInvalid(_) => (fresh, done(Outcome::Update(EventResult::Continue))),
        UpdateView::BlockCommit(block_id) => publishing(fresh, Some(block_id)),
        UpdateView::Shutdown => (fresh, done(Outcome::Update(EventResult::Shutdown))),
        UpdateView::Peer => (fresh, done(Outcome::Update(EventResult::Continue))),
    }
}

/// The node takes up what came from the worker, drops what was left open,
/// and attempts to publish.
pub open spec fn try_publishing(node: NodeView, messages: Seq<MessageToMinerView>) -> (
    NodeView,
    StepView,
) {
    publishing(
        NodeView { answer: absorbed(node.answer, messages), phase: PhaseView::Idle, ..node },
        None,
    )
}

/// The node starts: it notes its peer id and the chain head, and reads the settings.
pub open spec fn initializing(node: NodeView, chain_head: Seq<u8>, peer_id: Seq<u8>) -> (
    NodeView,
    StepView,
) {
    reloading(
        NodeView {
            state: StateView { chain_head, peer_id, ..node.state },
            phase: PhaseView::Idle,
            ..node
        },
        FollowupView::Startup,
    )
}

/// An answer that no open request asked for.
pub open spec fn unexpected() -> StepView {
    failed(ServiceErrorView::InvalidState("unexpected reply"@))
}

/// The node goes on with the answer of the validator to its open request.
pub open spec fn resumed(node: NodeView, reply: ReplyView) -> (NodeView, StepView) {
    let idle = with_phase(node, PhaseView::Idle);
    match (node.phase, reply) {
        (PhaseView::Closing, ReplyView::Done(result)) => (
            idle,
            match result {
                Ok(_) => done(Outcome::Update(EventResult::Continue)),
                Err(error) => failed(error),
            },
        ),
        (PhaseView::Choosing { candidate, asked }, ReplyView::Block(block)) => choosing(
            NodeView { chain: node.chain.insert(asked, block), ..idle },
            candidate,
        ),
        (PhaseView::Summarizing { consensus, commit }, ReplyView::Summary(result)) => match result {
            Ok(_) => (
                with_phase(
                    with_guards(node, node.state.guards.insert(Guard::Summarized)),
                    PhaseView::Finalizing { commit },
                ),
                StepView::Call(RequestView::FinalizeBlock(consensus)),
            ),
            Err(ServiceErrorView::BlockNotReady) => published(
                idle,
                commit,
                Ok(EventPublishResult::Pending),
            ),
            Err(error) => published(idle, commit, Err(error)),
        },
        (PhaseView::Finalizing { commit }, ReplyView::Finalized(result)) => match result {
            Ok(_) => published(
                with_guards(
                    idle,
                    node.state.guards.insert(Guard::Finalized).remove(Guard::Consensus).remove(
                        Guard::Summarized,
                    ),
                ),
                commit,
                Ok(EventPublishResult::Published),
            ),
            Err(ServiceErrorView::BlockNotReady) => published(
                idle,
                commit,
                Ok(EventPublishResult::Pending),
            ),
            Err(error) => published(idle, commit, Err(error)),
        },
        (PhaseView::Cancelling { block_id, did_publish }, ReplyView::Done(result)) => match result {
            Ok(_) => reloading(idle, FollowupView::Commit { block_id, did_publish }),
            Err(error) => (idle, failed(error)),
        },
        (PhaseView::Reloading { then }, ReplyView::Settings(result)) => match result {
            Err(error) => (idle, failed(error)),
            Ok(settings) => {
                let loaded = NodeView { config: loaded_config(node.config, settings), ..idle };
                match then {
                    FollowupView::Alone => (loaded, done(Outcome::Reloaded)),
                    FollowupView::Startup => (
                        with_phase(
                            loaded,
                            PhaseView::Initializing { outcome: Outcome::Initialized },
                        ),
                        StepView::Call(RequestView::InitializeBlock(None)),
                    ),
                    FollowupView::Commit { block_id, did_publish } => (
                        with_phase(
                            with_guards(loaded, Set::empty()),
                            PhaseView::Initializing {
                                outcome: Outcome::Update(EventResult::Restart(did_publish)),
                            },
                        ),
                        StepView::Call(RequestView::InitializeBlock(Some(block_id))),
                    ),
                }
            },
        },
        (PhaseView::Initializing { outcome }, ReplyView::Done(result)) => (
            idle,
            match result {
                Ok(_) => done(outcome),
                Err(error) => failed(error),
            },
        ),
        _ => (idle, unexpected()),
    }
}

/// The proof-of-work node: what it remembers, and where it stands in its
/// exchange with the validator.
#[derive(Debug)]
pub struct PowNode {
    config: PowConfig,
    state: PowState,
    miner: Miner,
    chain: ChainView,
    phase: Phase,
}

impl View for PowNode {
    type V = NodeView;

    closed spec fn view(&self) -> NodeView {
        NodeView {
            config: self.config,
            state: self.state@,
            answer: self.miner@,
            chain: self.chain@,
            phase: self.phase@,
        }
    }
}

impl PowNode {
    /// A node with the default configuration.
    pub fn new() -> (node: Self)
        ensures
            node@ == (NodeView {
                config: crate::node::config::default_config(),
                state: StateView {
                    chain_head: Seq::empty(),
                    peer_id: Seq::empty(),
                    guards: Set::empty(),
                },
                answer: None,
                chain: Map::empty(),
                phase: PhaseView::Idle,
            }),
    {
        Self::with_config(PowConfig::new())
    }

    /// A node with the given configuration.
    pub fn with_config(config: PowConfig) -> (node: Self)
        ensures
            node@ == (NodeView {
                config,
                state: StateView {
                    chain_head: Seq::empty(),
                    peer_id: Seq::empty(),
                    guards: Set::empty(),
                },
                answer: None,
                chain: Map::empty(),
                phase: PhaseView::Idle,
            }),
    {
        Self::with_state(config, PowState::new())
    }

    /// A node with the given configuration and state.
    pub fn with_state(config: PowConfig, state: PowState) -> (node: Self)
        ensures
            node@ == (NodeView {
                config,
                state: state@,
                answer: None,
                chain: Map::empty(),
                phase: PhaseView::Idle,
            }),
    {
        Self { config, state, miner: Miner::default(), chain: ChainView::new(), phase: Phase::Idle }
    }

    pub fn config(&self) -> (config: &PowConfig)
        ensures
            *config == self@.config,
    {
        &self.config
    }

    pub fn state(&self) -> (state: &PowState)
        ensures
            state@ == self@.state,
    {
        &self.state
    }

    /// Sets the challenge for the successor of the chain head, to be mined
    /// under the peer id of the node, and drops the answer to the challenge
    /// before.
    pub fn mine(&mut self, difficulty: CCDifficulty, timestamp: Timestamp) -> (challenge: Challenge)
        ensures
            final(self)@ == (NodeView { answer: None, ..old(self)@ }),
            challenge@ == (ChallengeView {
                difficulty: difficulty as nat,
                timestamp: timestamp@,
                block_id: old(self)@.state.chain_head,
                peer_id: old(self)@.state.peer_id,
            }),
    {
        let block_id: Vec<u8> = bytes_to_vec(self.state.chain_head.as_slice());
        let peer_id: Vec<u8> = bytes_to_vec(self.state.peer_id.as_slice());
        self.miner.mine(block_id, peer_id, difficulty, timestamp)
    }

    /// Whether the node waits for an answer of the validator.
    pub fn is_waiting(&self) -> (waiting: bool)
        ensures
            waiting == !(self@.phase is Idle),
    {
        match &self.phase {
            Phase::Idle => false,
            _ => true,
        }
    }

    fn take_phase(&mut self) -> (phase: Phase)
        ensures
            phase@ == old(self)@.phase,
            final(self)@ == with_phase(old(self)@, PhaseView::Idle),
    {
        let mut phase = Phase::Idle;
        core::mem::swap(&mut self.phase, &mut phase);
        phase
    }

    fn reload_begins(&mut self, then: Followup) -> (step: Step)
        requires
            old(self)@.phase is Idle,
        ensures
            final(self)@ == reloading(old(self)@, then@).0,
            step@ == reloading(old(self)@, then@).1,
    {
        let keys: Vec<String> = PowConfig::consensus_chain_settings();
        assert(keys_view(keys@) =~= settings_keys());
        let chain_head: Vec<u8> = bytes_to_vec(self.state.chain_head.as_slice());
        self.phase = Phase::Reloading { then };
        Step::Call(Request::GetSettings(chain_head, keys))
    }

    fn commit_continues(&mut self, block_id: BlockId, did_publish: bool) -> (step: Step)
        requires
            old(self)@.phase is Idle,
        ensures
            final(self)@ == committing(old(self)@, block_id@, did_publish).0,
            step@ == committing(old(self)@, block_id@, did_publish).1,
    {
        if !self.state.guards.contains(Guard::Finalized) {
            self.phase = Phase::Cancelling { block_id, did_publish };
            Step::Call(Request::CancelBlock)
        } else {
            self.reload_begins(Followup::Commit { block_id, did_publish })
        }
    }

    fn publish_ends(
        &mut self,
        commit: Option<BlockId>,
        result: Result<EventPublishResult, ServiceError>,
    ) -> (step: Step)
        requires
            old(self)@.phase is Idle,
        ensures
            final(self)@ == published(
                old(self)@,
                commit_view(commit),
                match result {
                    Ok(result) => Ok(result),
                    Err(error) => Err(error@),
                },
            ).0,
            step@ == published(
                old(self)@,
                commit_view(commit),
                match result {
                    Ok(result) => Ok(result),
                    Err(error) => Err(error@),
                },
            ).1,
    {
        assert(with_phase(self@, PhaseView::Idle) == self@);
        match commit {
            None => match result {
                Ok(result) => Step::Done(Ok(Outcome::Publish(result))),
                Err(error) => Step::Done(Err(error)),
            },
            Some(block_id) => {
                let did_publish: bool = match result {
                    Ok(EventPublishResult::Published) => true,
                    _ => false,
                };
                self.commit_continues(block_id, did_publish)
            },
        }
    }

    fn publish(&mut self, commit: Option<BlockId>) -> (step: Step)
        requires
            old(self)@.phase is Idle,
        ensures
            final(self)@ == publishing(old(self)@, commit_view(commit)).0,
            step@ == publishing(old(self)@, commit_view(commit)).1,
    {
        if self.state.guards.contains(Guard::Finalized) {
            return self.publish_ends(commit, Ok(EventPublishResult::Pending));
        }
        let consensus: Vec<u8> = match self.miner.try_create_consensus(Vec::new()) {
            Some(consensus) => consensus,
            None => {
                return self.publish_ends(commit, Ok(EventPublishResult::Pending));
            },
        };
        let summarized: bool = self.state.guards.contains(Guard::Summarized);
        self.state.guards.insert(Guard::Consensus);
        if !summarized {
            self.phase = Phase::Summarizing { consensus, commit };
            Step::Call(Request::SummarizeBlock)
        } else {
            self.phase = Phase::Finalizing { commit };
            Step::Call(Request::FinalizeBlock(consensus))
        }
    }

    fn decide(&mut self, candidate: BlockId) -> (step: Step)
        requires
            old(self)@.phase is Idle,
        ensures
            final(self)@ == choosing(old(self)@, candidate@).0,
            step@ == choosing(old(self)@, candidate@).1,
    {
        match choose_fork(&self.chain, self.state.chain_head.as_slice(), candidate.as_slice()) {
            Walk::Need(block_id) => {
                let asked: Vec<u8> = bytes_to_vec(block_id.as_slice());
                self.phase = Phase::Choosing { candidate, asked };
                Step::Call(Request::GetBlock(block_id))
            },
            Walk::Done(Verdict::Commit) => {
                self.wrapper_service_commit_block(candidate)
            },
            Walk::Done(Verdict::Ignore) => {
                self.phase = Phase::Closing;
                Step::Call(Request::IgnoreBlock(candidate))
            },
            Walk::Done(Verdict::Unknown(block_id)) => Step::Done(
                Err(ServiceError::UnknownBlock(block_id)),
            ),
        }
    }

    fn wrapper_service_commit_block(&mut self, block_id: BlockId) -> (step: Step)
        requires
            old(self)@.phase is Idle,
        ensures
            final(self)@ == (NodeView {
                state: StateView { chain_head: block_id@, ..old(self)@.state },
                phase: PhaseView::Closing,
                ..old(self)@
            }),
            step@ == StepView::Call(RequestView::CommitBlock(block_id@)),
    {
        self.state.chain_head = bytes_to_vec(block_id.as_slice());
        self.phase = Phase::Closing;
        Step::Call(Request::CommitBlock(block_id))
    }

    fn on_block_new(&mut self, block: Block) -> (step: Step)
        requires
            old(self)@.phase is Idle,
        ensures
            final(self)@ == with_phase(old(self)@, PhaseView::Closing),
            step@ == (if refused(block@) {
                StepView::Call(RequestView::FailBlock(block@.block_id))
            } else {
                StepView::Call(RequestView::CheckBlocks(seq![block@.block_id]))
            }),
    {
        let null: [u8; 8] = NULL_BLOCK_IDENTIFIER;
        assert(null@ =~= null_block_identifier());
        self.phase = Phase::Closing;
        if bytes_eq(block.previous_id.as_slice(), null.as_slice()) {
            return Step::Call(Request::FailBlock(block.block_id));
        }
        match BlockHeader::borrowed(&block) {
            Ok(_) => {
                let mut ids: Vec<BlockId> = Vec::new();
                ids.push(block.block_id);
                assert(ids_view(ids@) =~= seq![block@.block_id]);
                Step::Call(Request::CheckBlocks(ids))
            },
            Err(_) => Step::Call(Request::FailBlock(block.block_id)),
        }
    }

    fn on_block_valid(&mut self, block_id: BlockId) -> (step: Step)
        requires
            old(self)@.phase is Idle,
        ensures
            final(self)@ == choosing(
                NodeView { chain: Map::empty(), ..old(self)@ },
                block_id@,
            ).0,
            step@ == choosing(NodeView { chain: Map::empty(), ..old(self)@ }, block_id@).1,
    {
        self.chain.clear();
        self.decide(block_id)
    }

    fn on_block_invalid(&mut self, _block_id: BlockId) -> (step: Step)
        ensures
            final(self)@ == old(self)@,
            step@ == done(Outcome::Update(EventResult::Continue)),
    {
        Step::Done(Ok(Outcome::Update(EventResult::Continue)))
    }

    fn on_block_commit(&mut self, block_id: BlockId) -> (step: Step)
        requires
            old(self)@.phase is Idle,
        ensures
            final(self)@ == publishing(old(self)@, Some(block_id@)).0,
            step@ == publishing(old(self)@, Some(block_id@)).1,
    {
        self.publish(Some(block_id))
    }

    /// Takes up what came from the worker and handles an update of the
    /// validator. A request that was still open is dropped.
    pub fn handle_update(&mut self, update: Update, drained: Vec<MessageToMiner>) -> (step: Step)
        ensures
            final(self)@ == updating(old(self)@, update@, messages_view(drained@)).0,
            step@ == updating(old(self)@, update@, messages_view(drained@)).1,
    {
        self.phase = Phase::Idle;
        self.miner.absorb(drained);
        let step = match update {
            Update::BlockNew(block) => self.on_block_new(block),
            Update::BlockValid(block_id) => self.on_block_valid(block_id),
            Update::BlockInvalid(block_id) => self.on_block_invalid(block_id),
            Update::BlockCommit(block_id) => self.on_block_commit(block_id),
            Update::Shutdown => Step::Done(Ok(Outcome::Update(EventResult::Shutdown))),
            Update::PeerConnected(_) | Update::PeerDisconnected(_) | Update::PeerMessage(_, _) => {
                Step::Done(Ok(Outcome::Update(EventResult::Continue)))
            },
        };
        step
    }

    /// Takes up what came from the worker and attempts to publish the block
    /// in the making. May be called again at any point of publishing.
    pub fn try_publish(&mut self, drained: Vec<MessageToMiner>) -> (step: Step)
        ensures
            final(self)@ == try_publishing(old(self)@, messages_view(drained@)).0,
            step@ == try_publishing(old(self)@, messages_view(drained@)).1,
    {
        self.phase = Phase::Idle;
        self.miner.absorb(drained);
        let step = self.publish(None);
        step
    }

    /// Starts the node with what the validator handed to the engine.
    pub fn initialize(&mut self, state: StartupState) -> (step: Step)
        ensures
            final(self)@ == initializing(
                old(self)@,
                state.chain_head@.block_id,
                state.local_peer_id@,
            ).0,
            step@ == initializing(old(self)@, state.chain_head@.block_id, state.local_peer_id@).1,
    {
        self.phase = Phase::Idle;
        self.state.peer_id = state.local_peer_id;
        self.state.chain_head = state.chain_head.block_id;
        let step = self.reload_begins(Followup::Startup);
        step
    }

    /// Reads the settings as of the chain head into the configuration.
    pub fn reload_configuration(&mut self) -> (step: Step)
        ensures
            final(self)@ == reloading(
                with_phase(old(self)@, PhaseView::Idle),
                FollowupView::Alone,
            ).0,
            step@ == reloading(with_phase(old(self)@, PhaseView::Idle), FollowupView::Alone).1,
    {
        self.phase = Phase::Idle;
        let step = self.reload_begins(Followup::Alone);
        step
    }

    /// Goes on with the answer of the validator to the request that is open.
    pub fn resume(&mut self, reply: Reply) -> (step: Step)
        ensures
            final(self)@ == resumed(old(self)@, reply@).0,
            step@ == resumed(old(self)@, reply@).1,
    {
        let phase = self.take_phase();
        let step = match (phase, reply) {
            (Phase::Closing, Reply::Done(result)) => match result {
                Ok(_) => Step::Done(Ok(Outcome::Update(EventResult::Continue))),
                Err(error) => Step::Done(Err(error)),
            },
            (Phase::Choosing { candidate, asked }, Reply::Block(block)) => {
                self.chain.record(asked, block);
                self.decide(candidate)
            },
            (Phase::Summarizing { consensus, commit }, Reply::Summary(result)) => match result {
                Ok(_) => {
                    self.state.guards.insert(Guard::Summarized);
                    self.phase = Phase::Finalizing { commit };
                    Step::Call(Request::FinalizeBlock(consensus))
                },
                Err(ServiceError::BlockNotReady) => self.publish_ends(
                    commit,
                    Ok(EventPublishResult::Pending),
                ),
                Err(error) => self.publish_ends(commit, Err(error)),
            },
            (Phase::Finalizing { commit }, Reply::Finalized(result)) => match result {
                Ok(_) => {
                    self.state.guards.insert(Guard::Finalized);
                    self.state.guards.remove(Guard::Consensus);
                    self.state.guards.remove(Guard::Summarized);
                    self.publish_ends(commit, Ok(EventPublishResult::Published))
                },
                Err(ServiceError::BlockNotReady) => self.publish_ends(
                    commit,
                    Ok(EventPublishResult::Pending),
                ),
                Err(error) => self.publish_ends(commit, Err(error)),
            },
            (Phase::Cancelling { block_id, did_publish }, Reply::Done(result)) => match result {
                Ok(_) => self.reload_begins(Followup::Commit { block_id, did_publish }),
                Err(error) => Step::Done(Err(error)),
            },
            (Phase::Reloading { then }, Reply::Settings(result)) => match result {
                Err(error) => Step::Done(Err(error)),
                Ok(settings) => {
                    self.config.load(&settings);
                    match then {
                        Followup::Alone => Step::Done(Ok(Outcome::Reloaded)),
                        Followup::Startup => {
                            self.phase = Phase::Initializing { outcome: Outcome::Initialized };
                            Step::Call(Request::InitializeBlock(None))
                        },
                        Followup::Commit { block_id, did_publish } => {
                            self.state.guards.clear();
                            self.phase = Phase::Initializing {
                                outcome: Outcome::Update(EventResult::Restart(did_publish)),
                            };
                            Step::Call(Request::InitializeBlock(Some(block_id)))
                        },
                    }
                },
            },
            (Phase::Initializing { outcome }, Reply::Done(result)) => match result {
                Ok(_) => Step::Done(Ok(outcome)),
                Err(error) => Step::Done(Err(error)),
            },
            _ => Step::Done(Err(ServiceError::InvalidState(String::from_str("unexpected reply")))),
        };
        step
    }
}

} // verus!
