use vstd::prelude::*;
use crate::block::block_consensus::ConsensusError;
use crate::block::block_header::{has_header, BlockHeader, BlockId, PeerId};
use crate::block::chain::{Chain, ChainView, Lookup, Walk, Walked};
use crate::miner::answer::{answer_payload, Answer, AnswerView};
use crate::miner::challenge::{Challenge, ChallengeView};
use crate::miner::worker::{MessageToMiner, MessageToMinerView};
use crate::node::config::PowConfig;
use crate::primitives::{bytes_to_vec, CCDifficulty};
use crate::timestamp::Timestamp;
use crate::work::{difficulty_plan, get_difficulty, Retarget, RetargetView};

verus! {

/// The latest answer of the worker, after `messages` came from it in this
/// order: `Started` drops the answer, `Solved` puts a new one in its place,
/// so the last message decides.
pub open spec fn absorbed(answer: Option<AnswerView>, messages: Seq<MessageToMinerView>) -> Option<
    AnswerView,
> {
    if messages.len() == 0 {
        answer
    } else {
        match messages.last() {
            MessageToMinerView::Solved(solved) => Some(solved),
            MessageToMinerView::Started => None,
        }
    }
}

pub open spec fn messages_view(messages: Seq<MessageToMiner>) -> Seq<MessageToMinerView> {
    messages.map_values(|message: MessageToMiner| message@)
}

pub open spec fn answer_option_view(answer: Option<Answer>) -> Option<AnswerView> {
    match answer {
        Some(answer) => Some(answer@),
        None => None,
    }
}

/// What the miner needs before it can set a challenge for the successor of a block.
#[derive(Debug)]
pub enum Prepared {
    /// The validator must be asked for the block of this id.
    Need(BlockId),
    /// The validator does not have the block that is to be mined on.
    UnknownBlock(BlockId),
    /// No header can be made of the block that is to be mined on.
    NoHeader(ConsensusError),
    /// What the difficulty controller comes to.
    Plan(Retarget),
}

/// A `Prepared` as plain values, the reason for a missing header left out.
pub ghost enum PreparedView {
    Need(Seq<u8>),
    UnknownBlock(Seq<u8>),
    NoHeader,
    Plan(RetargetView),
}

impl View for Prepared {
    type V = PreparedView;

    open spec fn view(&self) -> PreparedView {
        match self {
            Prepared::Need(block_id) => PreparedView::Need(block_id@),
            Prepared::UnknownBlock(block_id) => PreparedView::UnknownBlock(block_id@),
            Prepared::NoHeader(_) => PreparedView::NoHeader,
            Prepared::Plan(plan) => PreparedView::Plan(plan@),
        }
    }
}

/// What the miner needs before it can set a challenge for the successor
/// of the block of `block_id`.
pub open spec fn prepared(chain: Chain, block_id: Seq<u8>, config: PowConfig) -> PreparedView {
    if !chain.dom().contains(block_id) {
        PreparedView::Need(block_id)
    } else {
        match chain[block_id] {
            None => PreparedView::UnknownBlock(block_id),
            Some(block) => if !has_header(block) {
                PreparedView::NoHeader
            } else {
                match difficulty_plan(chain, block, config) {
                    Walked::Need(ancestor) => PreparedView::Need(ancestor),
                    Walked::Done(plan) => PreparedView::Plan(plan),
                }
            },
        }
    }
}

/// The node's side of the miner: the latest answer of the worker, kept
/// until it is taken.
#[derive(Debug)]
pub struct Miner {
    answer: Option<Answer>,
}

impl View for Miner {
    type V = Option<AnswerView>;

    closed spec fn view(&self) -> Option<AnswerView> {
        answer_option_view(self.answer)
    }
}

impl Default for Miner {
    fn default() -> (miner: Self)
        ensures
            miner@ is None,
    {
        Miner { answer: None }
    }
}

impl Miner {
    /// Takes up what came from the worker, in the order in which it came.
    pub fn absorb(&mut self, drained: Vec<MessageToMiner>)
        ensures
            final(self)@ == absorbed(old(self)@, messages_view(drained@)),
    {
        let mut drained = drained;
        let ghost messages = messages_view(drained@);
        match drained.pop() {
            Some(MessageToMiner::Solved(answer)) => {
                assert(messages.last() == MessageToMinerView::Solved(answer@));
                self.answer = Some(answer);
            },
            Some(MessageToMiner::Started) => {
                assert(messages.last() == MessageToMinerView::Started);
                self.answer = None;
            },
            None => {},
        }
    }

    /// Takes up what came from the worker and hands out the payload of the
    /// latest answer, if there is one. The answer is gone once it was handed out.
    pub fn try_create_consensus(&mut self, drained: Vec<MessageToMiner>) -> (consensus: Option<
        Vec<u8>,
    >)
        ensures
            final(self)@ is None,
            match absorbed(old(self)@, messages_view(drained@)) {
                Some(answer) => consensus matches Some(payload) && payload@ == answer_payload(
                    answer,
                ),
                None => consensus is None,
            },
    {
        self.absorb(drained);
        let answer = self.answer.take();
        match answer {
            Some(answer) => Some(answer.to_consensus()),
            None => None,
        }
    }

    /// Whether an answer is waiting to be taken.
    pub fn has_answer(&self) -> (waiting: bool)
        ensures
            waiting == self@ is Some,
    {
        self.answer.is_some()
    }

    /// Looks up the block that is to be mined on and asks the difficulty
    /// controller what its successor must reach.
    pub fn prepare(block_id: &[u8], chain: &ChainView, config: &PowConfig) -> (result: Prepared)
        ensures
            result@ == prepared(chain@, block_id@, *config),
    {
        match chain.lookup(block_id) {
            Lookup::Missing => Prepared::Need(bytes_to_vec(block_id)),
            Lookup::Unknown => Prepared::UnknownBlock(bytes_to_vec(block_id)),
            Lookup::Found(block) => match BlockHeader::borrowed(block) {
                Err(error) => Prepared::NoHeader(error),
                Ok(header) => match get_difficulty(&header, chain, config) {
                    Walk::Need(ancestor) => Prepared::Need(ancestor),
                    Walk::Done(plan) => Prepared::Plan(plan),
                },
            },
        }
    }

    /// Sets the challenge for the successor of the block of `block_id`, and
    /// drops the answer to the challenge before.
    pub fn mine(
        &mut self,
        block_id: BlockId,
        peer_id: PeerId,
        difficulty: CCDifficulty,
        timestamp: Timestamp,
    ) -> (challenge: Challenge)
        ensures
            final(self)@ is None,
            challenge@ == (ChallengeView {
                difficulty: difficulty as nat,
                timestamp: timestamp@,
                block_id: block_id@,
                peer_id: peer_id@,
            }),
    {
        self.clear_answer();
        Challenge { difficulty, timestamp, block_id, peer_id }
    }

    fn clear_answer(&mut self)
        ensures
            final(self)@ is None,
    {
        self.answer = None;
    }
}

} // verus!
