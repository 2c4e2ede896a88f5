use vstd::prelude::*;
use vstd::arithmetic::power2::pow2;
use crate::block::block_consensus::{
    default_consensus, fault_error, parse_payload, BlockConsensus, ConsensusError,
    ConsensusErrorView, ConsensusView, PayloadFault,
};
use crate::decimal::{append_decimal, decimal_chars};
use crate::primitives::{bytes_to_vec, CCDifficulty, H256};
use crate::wide::Work;
use crate::work::{is_valid_proof_of_work, mkhash, realized_difficulty};

verus! {

pub type BlockId = Vec<u8>;

pub type PeerId = Vec<u8>;

/// What the engine reads of a block of the validator.
#[derive(Debug)]
pub struct Block {
    pub block_id: BlockId,
    pub previous_id: BlockId,
    pub signer_id: PeerId,
    pub block_num: u64,
    pub payload: Vec<u8>,
    pub summary: Vec<u8>,
}

/// A `Block` as plain values.
pub ghost struct BlockView {
    pub block_id: Seq<u8>,
    pub previous_id: Seq<u8>,
    pub signer_id: Seq<u8>,
    pub block_num: u64,
    pub payload: Seq<u8>,
    pub summary: Seq<u8>,
}

impl View for Block {
    type V = BlockView;

    open spec fn view(&self) -> BlockView {
        BlockView {
            block_id: self.block_id@,
            previous_id: self.previous_id@,
            signer_id: self.signer_id@,
            block_num: self.block_num,
            payload: self.payload@,
            summary: self.summary@,
        }
    }
}

impl Clone for Block {
    fn clone(&self) -> (copy: Self)
        ensures
            copy@ == self@,
    {
        Block {
            block_id: bytes_to_vec(self.block_id.as_slice()),
            previous_id: bytes_to_vec(self.previous_id.as_slice()),
            signer_id: bytes_to_vec(self.signer_id.as_slice()),
            block_num: self.block_num,
            payload: bytes_to_vec(self.payload.as_slice()),
            summary: bytes_to_vec(self.summary.as_slice()),
        }
    }
}

impl Default for Block {
    fn default() -> (block: Self)
        ensures
            block@ == (BlockView {
                block_id: Seq::empty(),
                previous_id: Seq::empty(),
                signer_id: Seq::empty(),
                block_num: 0,
                payload: Seq::empty(),
                summary: Seq::empty(),
            }),
    {
        Block {
            block_id: Vec::new(),
            previous_id: Vec::new(),
            signer_id: Vec::new(),
            block_num: 0,
            payload: Vec::new(),
            summary: Vec::new(),
        }
    }
}

/// The consensus that a block carries: none at height zero, else what its
/// payload holds.
pub open spec fn header_consensus(block: BlockView) -> Result<ConsensusView, PayloadFault> {
    if block.block_num == 0 {
        Ok(default_consensus())
    } else {
        parse_payload(block.payload)
    }
}

/// Whether a header can be made of the block.
pub open spec fn has_header(block: BlockView) -> bool {
    header_consensus(block) is Ok
}

/// The consensus of a block of which a header can be made.
pub open spec fn consensus_of(block: BlockView) -> ConsensusView {
    match header_consensus(block) {
        Ok(consensus) => consensus,
        Err(_) => default_consensus(),
    }
}

/// The score of the block's own proof of work: that of the digest of its
/// predecessor's id, its signer's id and its nonce.
pub open spec fn block_realized(block: BlockView) -> nat {
    realized_difficulty(block.previous_id, block.signer_id, consensus_of(block).nonce)
}

/// The work that a block stands for: two to the power of the score of its
/// own proof of work.
pub open spec fn block_work(block: BlockView) -> nat {
    pow2(block_realized(block))
}

/// Whether the block passes for a successor that must reach `required`: the
/// block at height zero always does.
pub open spec fn block_valid(block: BlockView, required: CCDifficulty) -> bool {
    block.block_num == 0 || block_realized(block) >= required
}

/// What a failed proof check reports: the score asked for and the score reached.
pub open spec fn invalid_hash_text(required: CCDifficulty, realized: CCDifficulty) -> Seq<char> {
    "(Expected "@ + decimal_chars(required as nat) + ", got "@ + decimal_chars(realized as nat)
        + ")"@
}

/// A block together with the consensus that it carries.
#[derive(Debug)]
pub struct BlockHeader {
    block: Block,
    consensus: BlockConsensus,
}

impl View for BlockHeader {
    type V = BlockView;

    closed spec fn view(&self) -> BlockView {
        self.block@
    }
}

impl BlockHeader {
    #[verifier::type_invariant]
    spec fn well_formed(&self) -> bool {
        header_consensus(self.block@) == Ok::<ConsensusView, PayloadFault>(self.consensus@)
    }

    /// The header of `block`.
    pub fn owned(block: Block) -> (result: Result<Self, ConsensusError>)
        ensures
            match result {
                Ok(header) => header@ == block@ && has_header(block@),
                Err(error) => header_consensus(block@) matches Err(fault) && error@ == fault_error(
                    fault,
                ),
            },
    {
        let consensus = if block.block_num == 0 {
            BlockConsensus::new()
        } else {
            match BlockConsensus::deserialize(block.payload.as_slice()) {
                Ok(consensus) => consensus,
                Err(error) => {
                    return Err(error);
                },
            }
        };
        Ok(Self { block, consensus })
    }

    /// The header of a copy of `block`.
    pub fn borrowed(block: &Block) -> (result: Result<Self, ConsensusError>)
        ensures
            match result {
                Ok(header) => header@ == block@ && has_header(block@),
                Err(error) => header_consensus(block@) matches Err(fault) && error@ == fault_error(
                    fault,
                ),
            },
    {
        Self::owned(block.clone())
    }

    /// The block of the header.
    pub fn block(&self) -> (block: &Block)
        ensures
            block@ == self@,
            has_header(self@),
    {
        proof {
            use_type_invariant(self);
        }
        &self.block
    }

    /// The consensus that the block carries.
    pub fn consensus(&self) -> (consensus: &BlockConsensus)
        ensures
            consensus@ == consensus_of(self@),
            has_header(self@),
    {
        proof {
            use_type_invariant(self);
        }
        &self.consensus
    }

    pub fn is_genesis(&self) -> (genesis: bool)
        ensures
            genesis == (self@.block_num == 0),
    {
        self.block.block_num == 0
    }

    /// The score of the block's own proof of work.
    pub fn realized(&self) -> (score: CCDifficulty)
        ensures
            score == block_realized(self@),
    {
        proof {
            use_type_invariant(self);
        }
        let hash: H256 = mkhash(
            self.block.previous_id.as_slice(),
            self.block.signer_id.as_slice(),
            self.consensus.nonce,
        );
        let (_, realized) = is_valid_proof_of_work(&hash, 0);
        realized
    }

    /// The work that the block stands for.
    pub fn work(&self) -> (work: Work)
        ensures
            work@ == block_work(self@),
    {
        Work::pow2(self.realized())
    }

    /// Hands the header back if its block passes for a successor that must
    /// reach `minimum_difficulty`.
    pub fn validate(self, minimum_difficulty: CCDifficulty) -> (result: Result<Self, ConsensusError>)
        ensures
            match result {
                Ok(header) => header@ == self@ && block_valid(self@, minimum_difficulty),
                Err(error) => !block_valid(self@, minimum_difficulty) && error@
                    == ConsensusErrorView::InvalidHash(
                    invalid_hash_text(minimum_difficulty, block_realized(self@) as u32),
                ),
            },
    {
        if self.is_genesis() {
            return Ok(self);
        }
        match self.validate_proof_of_work(minimum_difficulty) {
            Ok(_) => Ok(self),
            Err(error) => Err(error),
        }
    }

    /// The score of the block's own proof of work, if it reaches `difficulty`.
    pub fn validate_proof_of_work(&self, difficulty: CCDifficulty) -> (result: Result<
        CCDifficulty,
        ConsensusError,
    >)
        ensures
            match result {
                Ok(realized) => realized == block_realized(self@) && realized >= difficulty,
                Err(error) => block_realized(self@) < difficulty && error@
                    == ConsensusErrorView::InvalidHash(
                    invalid_hash_text(difficulty, block_realized(self@) as u32),
                ),
            },
    {
        proof {
            use_type_invariant(self);
        }
        let hash: H256 = mkhash(
            self.block.previous_id.as_slice(),
            self.block.signer_id.as_slice(),
            self.consensus.nonce,
        );
        let (is_valid, realized) = is_valid_proof_of_work(&hash, difficulty);
        if is_valid {
            Ok(realized)
        } else {
            let mut message: String = String::from_str("(Expected ");
            append_decimal(&mut message, difficulty as u64);
            message.append(", got ");
            append_decimal(&mut message, realized as u64);
            message.append(")");
            assert(message@ =~= invalid_hash_text(difficulty, realized));
            Err(ConsensusError::InvalidHash(message))
        }
    }
}

impl Clone for BlockHeader {
    fn clone(&self) -> (copy: Self)
        ensures
            copy@ == self@,
    {
        proof {
            use_type_invariant(self);
        }
        Self { block: self.block.clone(), consensus: self.consensus.clone() }
    }
}

} // verus!
