use vstd::prelude::*;
use crate::block::block_header::{BlockId, PeerId};
use crate::primitives::{bytes_to_vec, CCDifficulty};
use crate::timestamp::Timestamp;

verus! {

/// The task of the miner: a nonce whose digest over `block_id` and
/// `peer_id` reaches `difficulty`.
#[derive(Debug)]
pub struct Challenge {
    pub difficulty: CCDifficulty,
    pub timestamp: Timestamp,
    pub block_id: BlockId,
    pub peer_id: PeerId,
}

/// A `Challenge` as plain values.
pub ghost struct ChallengeView {
    pub difficulty: nat,
    pub timestamp: Seq<u8>,
    pub block_id: Seq<u8>,
    pub peer_id: Seq<u8>,
}

impl View for Challenge {
    type V = ChallengeView;

    open spec fn view(&self) -> ChallengeView {
        ChallengeView {
            difficulty: self.difficulty as nat,
            timestamp: self.timestamp@,
            block_id: self.block_id@,
            peer_id: self.peer_id@,
        }
    }
}

impl Clone for Challenge {
    fn clone(&self) -> (copy: Self)
        ensures
            copy@ == self@,
    {
        Challenge {
            difficulty: self.difficulty,
            timestamp: self.timestamp.clone(),
            block_id: bytes_to_vec(self.block_id.as_slice()),
            peer_id: bytes_to_vec(self.peer_id.as_slice()),
        }
    }
}

} // verus!
