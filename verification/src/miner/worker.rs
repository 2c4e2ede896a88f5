use vstd::prelude::*;
use rand::Rng;
use crate::miner::answer::{Answer, AnswerView};
use crate::miner::challenge::{Challenge, ChallengeView};
use crate::primitives::{CCNonce, H256};
use crate::work::{is_valid_proof_of_work, mkhash, realized_difficulty};

verus! {

/// What the node sends to the worker.
#[derive(Debug)]
pub enum MessageToWorker {
    Shutdown,
    Challenge(Challenge),
}

/// What the worker sends to the node.
#[derive(Debug)]
pub enum MessageToMiner {
    Solved(Answer),
    Started,
}

/// A `MessageToMiner` as plain values.
pub ghost enum MessageToMinerView {
    Solved(AnswerView),
    Started,
}

impl View for MessageToMiner {
    type V = MessageToMinerView;

    open spec fn view(&self) -> MessageToMinerView {
        match self {
            MessageToMiner::Solved(answer) => MessageToMinerView::Solved(answer@),
            MessageToMiner::Started => MessageToMinerView::Started,
        }
    }
}

/// What the worker does after it has looked at its inbox.
#[derive(Clone, Copy, Debug, PartialEq, Eq, Structural)]
pub enum Reaction {
    /// Nothing came: the search goes on with the next nonce.
    Continue,
    /// A new challenge came: the worker reports `Started` and searches for it.
    Started,
    /// The node asked the worker to end.
    Shutdown,
}

/// The search of the worker for one challenge.
#[derive(Debug)]
pub struct Worker {
    challenge: Challenge,
    nonce: CCNonce,
    is_first: bool,
}

/// A `Worker` as plain values.
pub ghost struct WorkerView {
    pub challenge: ChallengeView,
    pub nonce: CCNonce,
    pub is_first: bool,
}

impl View for Worker {
    type V = WorkerView;

    closed spec fn view(&self) -> WorkerView {
        WorkerView { challenge: self.challenge@, nonce: self.nonce, is_first: self.is_first }
    }
}

/// The score that the nonce at which the search stands reaches.
pub open spec fn reached(search: WorkerView) -> nat {
    realized_difficulty(search.challenge.block_id, search.challenge.peer_id, search.nonce)
}

/// Whether the nonce at which the search stands is an answer: it reaches
/// the difficulty of the challenge, and exceeds it unless it is the first
/// answer to the challenge.
pub open spec fn solves(search: WorkerView) -> bool {
    reached(search) >= search.challenge.difficulty && (search.is_first || reached(search)
        > search.challenge.difficulty)
}

/// The search after its nonce was examined: an answer raises the
/// difficulty of the challenge to the score that it reaches.
pub open spec fn examined(search: WorkerView) -> WorkerView {
    if solves(search) {
        WorkerView {
            challenge: ChallengeView { difficulty: reached(search), ..search.challenge },
            nonce: search.nonce,
            is_first: false,
        }
    } else {
        search
    }
}

/// The nonce behind `nonce`; the one behind the largest is zero.
pub open spec fn next_nonce(nonce: CCNonce) -> CCNonce {
    if nonce == u64::MAX {
        0
    } else {
        (nonce + 1) as u64
    }
}

/// The search after one round in which nothing came from the node.
pub open spec fn round(search: WorkerView) -> WorkerView {
    WorkerView { nonce: next_nonce(search.nonce), ..examined(search) }
}

/// The search after `rounds` rounds in which nothing came from the node.
pub open spec fn after_rounds(search: WorkerView, rounds: nat) -> WorkerView
    decreases rounds,
{
    if rounds == 0 {
        search
    } else {
        round(after_rounds(search, (rounds - 1) as nat))
    }
}

/// After an answer, the difficulty of the challenge stays at or above the
/// score that the answer reached, and no later answer counts as the first.
pub proof fn lemma_difficulty_holds(search: WorkerView, earlier: nat, later: nat)
    requires
        earlier < later,
        solves(after_rounds(search, earlier)),
    ensures
        after_rounds(search, later).challenge.difficulty >= reached(after_rounds(search, earlier)),
        !after_rounds(search, later).is_first,
        after_rounds(search, later).challenge.block_id == after_rounds(
            search,
            earlier,
        ).challenge.block_id,
        after_rounds(search, later).challenge.peer_id == after_rounds(
            search,
            earlier,
        ).challenge.peer_id,
    decreases later,
{
    if later > earlier + 1 {
        lemma_difficulty_holds(search, earlier, (later - 1) as nat);
    }
}

/// Of two answers that the worker gives to one challenge, the later one
/// reaches a strictly higher score, and their nonces differ.
pub proof fn lemma_answers_grow(search: WorkerView, earlier: nat, later: nat)
    requires
        earlier < later,
        solves(after_rounds(search, earlier)),
        solves(after_rounds(search, later)),
    ensures
        reached(after_rounds(search, earlier)) < reached(after_rounds(search, later)),
        after_rounds(search, earlier).nonce != after_rounds(search, later).nonce,
{
    lemma_difficulty_holds(search, earlier, later);
}

/// Calls `rand::thread_rng` and `Rng::gen_range` of the `rand` crate with
/// the range from zero up to, and without, the largest `u64`. Trusted: the
/// number drawn lies in that range. Two calls may give different numbers.
#[verifier::external_body]
fn random_nonce() -> (nonce: CCNonce)
    ensures
        nonce < u64::MAX,
{
    rand::thread_rng().gen_range(0..u64::MAX)
}

impl Worker {
    /// Starts the search for `challenge` at a nonce drawn at random.
    pub fn start(challenge: Challenge) -> (search: Self)
        ensures
            search@.challenge == challenge@,
            search@.is_first,
            search@.nonce < u64::MAX,
    {
        Self::start_at(challenge, random_nonce())
    }

    /// Starts the search for `challenge` at `nonce`.
    pub fn start_at(challenge: Challenge, nonce: CCNonce) -> (search: Self)
        ensures
            search@ == (WorkerView { challenge: challenge@, nonce, is_first: true }),
    {
        Worker { challenge, nonce, is_first: true }
    }

    /// The challenge of the search, its difficulty raised to the score of
    /// the last answer.
    pub fn challenge(&self) -> (challenge: &Challenge)
        ensures
            challenge@ == self@.challenge,
    {
        &self.challenge
    }

    /// The nonce at which the search stands.
    pub fn nonce(&self) -> (nonce: CCNonce)
        ensures
            nonce == self@.nonce,
    {
        self.nonce
    }

    /// Examines the nonce at which the search stands. Where it is an
    /// answer, hands it out with the challenge as it stood, and raises the
    /// difficulty of the challenge to the score reached.
    pub fn examine(&mut self) -> (solved: Option<Answer>)
        ensures
            final(self)@ == examined(old(self)@),
            match solved {
                Some(answer) => solves(old(self)@) && answer@ == (AnswerView {
                    challenge: old(self)@.challenge,
                    nonce: old(self)@.nonce,
                }),
                None => !solves(old(self)@),
            },
    {
        let output: H256 = mkhash(
            self.challenge.block_id.as_slice(),
            self.challenge.peer_id.as_slice(),
            self.nonce,
        );
        let (is_valid, solution_diff) = is_valid_proof_of_work(&output, self.challenge.difficulty);
        if is_valid && (self.is_first || solution_diff > self.challenge.difficulty) {
            let answer = Answer { challenge: self.challenge.clone(), nonce: self.nonce };
            self.is_first = false;
            self.challenge.difficulty = solution_diff;
            Some(answer)
        } else {
            None
        }
    }

    /// Takes up what came from the node after a nonce was examined. A new
    /// challenge replaces the search, which starts over at a nonce drawn at
    /// random; without a message the search moves to the next nonce; after
    /// `Shutdown` it stays as it is.
    pub fn react(&mut self, polled: Option<MessageToWorker>) -> (reaction: Reaction)
        ensures
            match polled {
                Some(MessageToWorker::Challenge(update)) => {
                    &&& reaction == Reaction::Started
                    &&& final(self)@.challenge == update@
                    &&& final(self)@.is_first
                    &&& final(self)@.nonce < u64::MAX
                },
                Some(MessageToWorker::Shutdown) => reaction == Reaction::Shutdown && final(self)@
                    == old(self)@,
                None => reaction == Reaction::Continue && final(self)@ == (WorkerView {
                    nonce: next_nonce(old(self)@.nonce),
                    ..old(self)@
                }),
            },
    {
        match polled {
            Some(MessageToWorker::Challenge(update)) => {
                *self = Worker::start(update);
                Reaction::Started
            },
            Some(MessageToWorker::Shutdown) => Reaction::Shutdown,
            None => {
                self.nonce = self.nonce.wrapping_add(1);
                Reaction::Continue
            },
        }
    }
}

} // verus!
