use vstd::prelude::*;
use crate::block::block_ancestors::{id_option_view, load_side, side_after, side_at, step_side};
use crate::block::block_header::{BlockHeader, BlockView};
use crate::block::chain::{Chain, ChainView, Walk, Walked};

verus! {

/// What a walk in pairs finds where its sides stand at `local` and
/// `foreign`: the two blocks, nothing if either side has none, or the need
/// to ask the validator first, for the local side before the foreign one.
pub open spec fn pair_at(chain: Chain, local: Option<Seq<u8>>, foreign: Option<Seq<u8>>) -> Walked<
    Option<(BlockView, BlockView)>,
> {
    match side_at(chain, local) {
        Walked::Need(block_id) => Walked::Need(block_id),
        Walked::Done(left) => match side_at(chain, foreign) {
            Walked::Need(block_id) => Walked::Need(block_id),
            Walked::Done(right) => match (left, right) {
                (Some(left), Some(right)) => Walked::Done(Some((left, right))),
                _ => Walked::Done(None),
            },
        },
    }
}

/// Where the sides stand after a step from `local` and `foreign` that did
/// not need to ask: each at the predecessor of what it found, or at its end.
pub open spec fn pair_after(chain: Chain, local: Option<Seq<u8>>, foreign: Option<Seq<u8>>) -> (
    Option<Seq<u8>>,
    Option<Seq<u8>>,
) {
    match (side_at(chain, local), side_at(chain, foreign)) {
        (Walked::Done(left), Walked::Done(right)) => (side_after(left), side_after(right)),
        _ => (local, foreign),
    }
}

pub open spec fn pair_option_view(pair: Option<(BlockHeader, BlockHeader)>) -> Option<
    (BlockView, BlockView),
> {
    match pair {
        Some((left, right)) => Some((left@, right@)),
        None => None,
    }
}

/// A walk along two chains in step, one pair of headers at a time. It ends
/// as soon as either side does.
#[derive(Debug)]
pub struct PairedFork {
    local_head_block: Option<Vec<u8>>,
    foreign_head_block: Option<Vec<u8>>,
}

impl View for PairedFork {
    type V = (Option<Seq<u8>>, Option<Seq<u8>>);

    closed spec fn view(&self) -> (Option<Seq<u8>>, Option<Seq<u8>>) {
        (id_option_view(self.local_head_block), id_option_view(self.foreign_head_block))
    }
}

impl PairedFork {
    /// A walk whose first pair is made of the headers of the two blocks.
    pub fn new(local_head_block: Option<Vec<u8>>, foreign_head_block: Option<Vec<u8>>) -> (pairs:
        Self)
        ensures
            pairs@ == (id_option_view(local_head_block), id_option_view(foreign_head_block)),
    {
        PairedFork { local_head_block, foreign_head_block }
    }

    /// The next pair of the walk. Where the chain view lacks a block, the
    /// walk stays where it is and names the block.
    pub fn next(&mut self, chain: &ChainView) -> (item: Walk<Option<(BlockHeader, BlockHeader)>>)
        ensures
            match item {
                Walk::Need(block_id) => pair_at(chain@, old(self)@.0, old(self)@.1)
                    == Walked::<Option<(BlockView, BlockView)>>::Need(block_id@) && final(self)@
                    == old(self)@,
                Walk::Done(pair) => pair_at(chain@, old(self)@.0, old(self)@.1) == Walked::Done(
                    pair_option_view(pair),
                ) && final(self)@ == pair_after(chain@, old(self)@.0, old(self)@.1),
            },
    {
        let local = match load_side(chain, &self.local_head_block) {
            Walk::Need(block_id) => {
                return Walk::Need(block_id);
            },
            Walk::Done(header) => header,
        };
        let foreign = match load_side(chain, &self.foreign_head_block) {
            Walk::Need(block_id) => {
                return Walk::Need(block_id);
            },
            Walk::Done(header) => header,
        };
        self.local_head_block = step_side(&local);
        self.foreign_head_block = step_side(&foreign);
        match (local, foreign) {
            (Some(left), Some(right)) => Walk::Done(Some((left, right))),
            _ => Walk::Done(None),
        }
    }
}

} // verus!
