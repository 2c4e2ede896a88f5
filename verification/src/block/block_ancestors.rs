use vstd::prelude::*;
use crate::block::block_header::{has_header, BlockHeader, BlockView};
use crate::block::chain::{Chain, ChainView, Lookup, Walk, Walked};
use crate::block::paired_fork::PairedFork;
use crate::primitives::bytes_to_vec;

verus! {

/// What an ancestor walk finds at `block_id`: the block, if the validator
/// has it and a header can be made of it; nothing, if not; or the need to
/// ask the validator first.
pub open spec fn ancestor_at(chain: Chain, block_id: Seq<u8>) -> Walked<Option<BlockView>> {
    if !chain.dom().contains(block_id) {
        Walked::Need(block_id)
    } else {
        match chain[block_id] {
            Some(block) => if has_header(block) {
                Walked::Done(Some(block))
            } else {
                Walked::Done(None)
            },
            None => Walked::Done(None),
        }
    }
}

/// What a walk finds on a side that stands at `at`; nothing, where the side has ended.
pub open spec fn side_at(chain: Chain, at: Option<Seq<u8>>) -> Walked<Option<BlockView>> {
    match at {
        Some(block_id) => ancestor_at(chain, block_id),
        None => Walked::Done(None),
    }
}

/// Where a walk stands after it found `found`: at the predecessor, or at its end.
pub open spec fn side_after(found: Option<BlockView>) -> Option<Seq<u8>> {
    match found {
        Some(block) => Some(block.previous_id),
        None => None,
    }
}

pub open spec fn id_option_view(at: Option<Vec<u8>>) -> Option<Seq<u8>> {
    match at {
        Some(block_id) => Some(block_id@),
        None => None,
    }
}

pub open spec fn header_option_view(header: Option<BlockHeader>) -> Option<BlockView> {
    match header {
        Some(header) => Some(header@),
        None => None,
    }
}

/// Whether what a walk hands out is what the plain walk comes to.
pub open spec fn found_as(item: Walk<Option<BlockHeader>>, plain: Walked<Option<BlockView>>) -> bool {
    match item {
        Walk::Need(block_id) => plain == Walked::<Option<BlockView>>::Need(block_id@),
        Walk::Done(header) => plain == Walked::Done(header_option_view(header)),
    }
}

/// Looks up the header of `block_id`.
pub fn load_header(chain: &ChainView, block_id: &[u8]) -> (item: Walk<Option<BlockHeader>>)
    ensures
        found_as(item, ancestor_at(chain@, block_id@)),
{
    match chain.lookup(block_id) {
        Lookup::Missing => Walk::Need(bytes_to_vec(block_id)),
        Lookup::Unknown => Walk::Done(None),
        Lookup::Found(block) => match BlockHeader::borrowed(block) {
            Ok(header) => Walk::Done(Some(header)),
            Err(_) => Walk::Done(None),
        },
    }
}

/// Looks up the header at which a side stands.
pub fn load_side(chain: &ChainView, at: &Option<Vec<u8>>) -> (item: Walk<Option<BlockHeader>>)
    ensures
        found_as(item, side_at(chain@, id_option_view(*at))),
{
    match at {
        Some(block_id) => load_header(chain, block_id.as_slice()),
        None => Walk::Done(None),
    }
}

/// Where a side stands after it found `found`.
pub fn step_side(found: &Option<BlockHeader>) -> (at: Option<Vec<u8>>)
    ensures
        id_option_view(at) == side_after(header_option_view(*found)),
{
    match found {
        Some(header) => Some(bytes_to_vec(header.block().previous_id.as_slice())),
        None => None,
    }
}

/// A walk from a block to its predecessors, one header at a time. It ends at
/// the first block that the validator does not have or that no header can be
/// made of.
#[derive(Debug)]
pub struct BlockAncestors {
    block: Option<Vec<u8>>,
}

impl View for BlockAncestors {
    type V = Option<Seq<u8>>;

    closed spec fn view(&self) -> Option<Seq<u8>> {
        id_option_view(self.block)
    }
}

impl BlockAncestors {
    /// A walk whose first header is that of `block`.
    pub fn new(block: &[u8]) -> (walk: Self)
        ensures
            walk@ == Some(block@),
    {
        Self { block: Some(bytes_to_vec(block)) }
    }

    /// A walk in pairs: this walk on the one side, one from
    /// `foreign_head_block` on the other.
    pub fn paired_fork_iter(self, foreign_head_block: &[u8]) -> (pairs: PairedFork)
        ensures
            pairs@ == (self@, Some(foreign_head_block@)),
    {
        PairedFork::new(self.block, Some(bytes_to_vec(foreign_head_block)))
    }

    /// The next header of the walk. Where the chain view lacks the block,
    /// the walk stays where it is and names the block.
    pub fn next(&mut self, chain: &ChainView) -> (item: Walk<Option<BlockHeader>>)
        ensures
            found_as(item, side_at(chain@, old(self)@)),
            match item {
                Walk::Need(_) => final(self)@ == old(self)@,
                Walk::Done(header) => final(self)@ == side_after(header_option_view(header)),
            },
    {
        let item = load_side(chain, &self.block);
        match &item {
            Walk::Need(_) => {},
            Walk::Done(header) => {
                self.block = step_side(header);
            },
        }
        item
    }
}

} // verus!
