use vstd::prelude::*;
use crate::block::block_header::{Block, BlockView};
use crate::primitives::bytes_eq;

verus! {

/// What is known of the validator's chain: for each block id that was asked
/// for, the block, or that the validator has none of that id.
pub type Chain = Map<Seq<u8>, Option<BlockView>>;

/// Whether everything that `known` says of the chain, `full` says too.
pub open spec fn chain_within(known: Chain, full: Chain) -> bool {
    forall|block_id: Seq<u8>| #[trigger]
        known.dom().contains(block_id) ==> full.dom().contains(block_id) && full[block_id]
            == known[block_id]
}

/// One answer of the validator: the block of an id, or none.
#[derive(Debug)]
pub struct ChainEntry {
    pub block_id: Vec<u8>,
    pub block: Option<Block>,
}

pub open spec fn block_option_view(block: Option<Block>) -> Option<BlockView> {
    match block {
        Some(block) => Some(block@),
        None => None,
    }
}

/// The answers as a map; of two answers for one id the later one counts.
pub open spec fn entries_view(entries: Seq<ChainEntry>) -> Chain
    decreases entries.len(),
{
    if entries.len() == 0 {
        Map::empty()
    } else {
        entries_view(entries.drop_last()).insert(
            entries.last().block_id@,
            block_option_view(entries.last().block),
        )
    }
}

/// The answers that the validator has given while one event is handled.
#[derive(Debug)]
pub struct ChainView {
    entries: Vec<ChainEntry>,
}

impl View for ChainView {
    type V = Chain;

    closed spec fn view(&self) -> Chain {
        entries_view(self.entries@)
    }
}

/// What a chain view says of a block id.
#[derive(Debug)]
pub enum Lookup<'a> {
    /// The validator was not asked yet.
    Missing,
    /// The validator has no block of that id.
    Unknown,
    /// The block of that id.
    Found(&'a Block),
}

/// What a walk over a chain view comes to: a result, or the id of a block
/// that the validator must be asked for before the walk can go on.
#[derive(Debug)]
pub enum Walk<T> {
    Need(Vec<u8>),
    Done(T),
}

/// A `Walk` over plain values.
pub ghost enum Walked<T> {
    Need(Seq<u8>),
    Done(T),
}

impl ChainView {
    /// A chain view without answers.
    pub fn new() -> (chain: Self)
        ensures
            chain@ == Map::<Seq<u8>, Option<BlockView>>::empty(),
    {
        ChainView { entries: Vec::new() }
    }

    /// Forgets every answer.
    pub fn clear(&mut self)
        ensures
            final(self)@ == Map::<Seq<u8>, Option<BlockView>>::empty(),
    {
        self.entries = Vec::new();
    }

    /// Notes the validator's answer for `block_id`.
    pub fn record(&mut self, block_id: Vec<u8>, block: Option<Block>)
        ensures
            final(self)@ == old(self)@.insert(block_id@, block_option_view(block)),
    {
        let ghost before = self.entries@;
        self.entries.push(ChainEntry { block_id, block });
        assert(self.entries@.drop_last() =~= before);
    }

    /// What is known of `block_id`.
    pub fn lookup<'a>(&'a self, block_id: &[u8]) -> (found: Lookup<'a>)
        ensures
            match found {
                Lookup::Missing => !self@.dom().contains(block_id@),
                Lookup::Unknown => self@.dom().contains(block_id@) && self@[block_id@] is None,
                Lookup::Found(block) => self@.dom().contains(block_id@) && self@[block_id@] == Some(
                    block@,
                ),
            },
    {
        let mut i: usize = self.entries.len();
        assert(self.entries@.take(i as int) =~= self.entries@);
        while i > 0
            invariant
                i <= self.entries@.len(),
                self@.dom().contains(block_id@) == entries_view(
                    self.entries@.take(i as int),
                ).dom().contains(block_id@),
                self@.dom().contains(block_id@) ==> self@[block_id@] == entries_view(
                    self.entries@.take(i as int),
                )[block_id@],
            decreases i,
        {
            i -= 1;
            assert(self.entries@.take(i + 1).drop_last() =~= self.entries@.take(i as int));
            let entry: &ChainEntry = &self.entries[i];
            if bytes_eq(entry.block_id.as_slice(), block_id) {
                match &entry.block {
                    Some(block) => {
                        return Lookup::Found(block);
                    },
                    None => {
                        return Lookup::Unknown;
                    },
                }
            }
        }
        Lookup::Missing
    }
}

} // verus!
