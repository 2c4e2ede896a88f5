use vstd::prelude::*;
use crate::block::block_consensus::{payload_text, BlockConsensus};
use crate::miner::challenge::{Challenge, ChallengeView};

verus! {

/// A nonce that meets a challenge.
#[derive(Debug)]
pub struct Answer {
    pub challenge: Challenge,
    pub nonce: u64,
}

/// An `Answer` as plain values.
pub ghost struct AnswerView {
    pub challenge: ChallengeView,
    pub nonce: u64,
}

impl View for Answer {
    type V = AnswerView;

    open spec fn view(&self) -> AnswerView {
        AnswerView { challenge: self.challenge@, nonce: self.nonce }
    }
}

/// The payload that carries an answer: the difficulty and the timestamp of
/// its challenge, and its nonce.
pub open spec fn answer_payload(answer: AnswerView) -> Seq<u8> {
    payload_text(answer.challenge.difficulty as u32, answer.challenge.timestamp, answer.nonce)
}

impl Answer {
    /// The payload that carries the answer.
    pub fn to_consensus(&self) -> (payload: Vec<u8>)
        ensures
            payload@ == answer_payload(self@),
    {
        BlockConsensus::serialize(self.challenge.difficulty, &self.challenge.timestamp, self.nonce)
    }
}

impl Clone for Answer {
    fn clone(&self) -> (copy: Self)
        ensures
            copy@ == self@,
    {
        Answer { challenge: self.challenge.clone(), nonce: self.nonce }
    }
}

} // verus!
