use vstd::prelude::*;
use crate::block::block_ancestors::{ancestor_at, BlockAncestors};
use crate::block::block_consensus::{parse_payload, pow_tag, BlockConsensus};
use crate::block::block_header::{
    block_work, consensus_of, Block, BlockHeader, BlockId, BlockView,
};
use crate::block::chain::{chain_within, Chain, ChainView, Lookup, Walk, Walked};
use crate::block::paired_fork::{pair_at, PairedFork};
use crate::primitives::{bytes_eq, bytes_to_vec};
use crate::wide::Work;

verus! {

/// What the node does with a block that the validator found valid.
#[derive(Debug)]
pub enum Verdict {
    /// The block becomes the chain head.
    Commit,
    /// The block is passed over.
    Ignore,
    /// The validator lacks the block of this id, without which nothing can be decided.
    Unknown(BlockId),
}

/// A `Verdict` as plain values.
pub ghost enum VerdictView {
    Commit,
    Ignore,
    Unknown(Seq<u8>),
}

impl View for Verdict {
    type V = VerdictView;

    open spec fn view(&self) -> VerdictView {
        match self {
            Verdict::Commit => VerdictView::Commit,
            Verdict::Ignore => VerdictView::Ignore,
            Verdict::Unknown(block_id) => VerdictView::Unknown(block_id@),
        }
    }
}

/// Whether the verdict handed out is what the plain choice comes to.
pub open spec fn verdict_as(item: Walk<Verdict>, plain: Walked<VerdictView>) -> bool {
    match item {
        Walk::Need(block_id) => plain == Walked::<VerdictView>::Need(block_id@),
        Walk::Done(verdict) => plain == Walked::Done(verdict@),
    }
}

/// Whether the block carries a proof-of-work consensus in its header.
pub open spec fn is_pow_block(block: BlockView) -> bool {
    consensus_of(block).tag == pow_tag()
}

/// Whether a payload is that of a proof-of-work block.
pub open spec fn is_pow_payload(payload: Seq<u8>) -> bool {
    parse_payload(payload) is Ok
}

pub open spec fn headers_view(headers: Seq<BlockHeader>) -> Seq<BlockView> {
    headers.map_values(|header: BlockHeader| header@)
}

/// The blocks that a walk back from `start` collects: proof-of-work blocks,
/// `limit` of them at most. The walk ends before the first block that is
/// none, that the validator lacks, or that no header can be made of.
pub open spec fn orphans(chain: Chain, start: Seq<u8>, limit: nat) -> Walked<Seq<BlockView>>
    decreases limit,
{
    if limit == 0 {
        Walked::Done(Seq::empty())
    } else {
        match ancestor_at(chain, start) {
            Walked::Need(block_id) => Walked::Need(block_id),
            Walked::Done(None) => Walked::Done(Seq::empty()),
            Walked::Done(Some(block)) => if !is_pow_block(block) {
                Walked::Done(Seq::empty())
            } else {
                match orphans(chain, block.previous_id, (limit - 1) as nat) {
                    Walked::Need(block_id) => Walked::Need(block_id),
                    Walked::Done(rest) => Walked::Done(seq![block] + rest),
                }
            },
        }
    }
}

/// Whether a walk in pairs goes on behind the two blocks: they differ in
/// their ids, neither stands at height zero, and both are proof-of-work blocks.
pub open spec fn keeps_apart(local: BlockView, foreign: BlockView) -> bool {
    &&& local.block_id != foreign.block_id
    &&& local.block_num != 0
    &&& foreign.block_num != 0
    &&& is_pow_block(local)
    &&& is_pow_block(foreign)
}

/// The blocks that a walk in pairs collects on either side, `limit` pairs at
/// most: those before the first pair that has a common block, a block at
/// height zero, or a block that is no proof-of-work block, and before the
/// end of either side.
pub open spec fn fork_pairs(
    chain: Chain,
    local: Option<Seq<u8>>,
    foreign: Option<Seq<u8>>,
    limit: nat,
) -> Walked<(Seq<BlockView>, Seq<BlockView>)>
    decreases limit,
{
    if limit == 0 {
        Walked::Done((Seq::empty(), Seq::empty()))
    } else {
        match pair_at(chain, local, foreign) {
            Walked::Need(block_id) => Walked::Need(block_id),
            Walked::Done(None) => Walked::Done((Seq::empty(), Seq::empty())),
            Walked::Done(Some((left, right))) => if !keeps_apart(left, right) {
                Walked::Done((Seq::empty(), Seq::empty()))
            } else {
                match fork_pairs(
                    chain,
                    Some(left.previous_id),
                    Some(right.previous_id),
                    (limit - 1) as nat,
                ) {
                    Walked::Need(block_id) => Walked::Need(block_id),
                    Walked::Done((lefts, rights)) => Walked::Done(
                        (seq![left] + lefts, seq![right] + rights),
                    ),
                }
            },
        }
    }
}

/// The sum of the work of the blocks.
pub open spec fn total_work(blocks: Seq<BlockView>) -> nat
    decreases blocks.len(),
{
    if blocks.len() == 0 {
        0
    } else {
        total_work(blocks.drop_last()) + block_work(blocks.last())
    }
}

/// The block from which the walk in pairs starts on a side: the deepest
/// orphan of the side, or its chain head where it has no orphan.
pub open spec fn fork_head(orphans: Seq<BlockView>, head: BlockView) -> BlockView {
    if orphans.len() > 0 {
        orphans.last()
    } else {
        head
    }
}

/// Whether the walk in pairs started on a side with the deepest orphan of that side.
pub open spec fn starts_with_orphan(orphans: Seq<BlockView>, paired: Seq<BlockView>) -> bool {
    orphans.len() > 0 && paired.len() > 0 && paired[0].block_id == orphans.last().block_id
}

/// The work of a side: that of its orphans and of its blocks of the walk in
/// pairs, the deepest orphan counted once where the walk started with it.
pub open spec fn side_work(orphans: Seq<BlockView>, paired: Seq<BlockView>) -> nat {
    total_work(orphans) + total_work(
        if starts_with_orphan(orphans, paired) {
            paired.skip(1)
        } else {
            paired
        },
    )
}

/// The number of ancestors that a head at `height` has above the height `other`.
pub open spec fn height_gap(height: u64, other: u64) -> nat {
    if height > other {
        (height - other) as nat
    } else {
        0
    }
}

/// The choice between two heads of which neither extends the other: the
/// new head is committed if and only if the work of its side exceeds that of
/// the current side.
pub open spec fn resolved(chain: Chain, cur: BlockView, new: BlockView) -> Walked<VerdictView> {
    match orphans(chain, cur.previous_id, height_gap(cur.block_num, new.block_num)) {
        Walked::Need(block_id) => Walked::Need(block_id),
        Walked::Done(cur_orphans) => match orphans(
            chain,
            new.previous_id,
            height_gap(new.block_num, cur.block_num),
        ) {
            Walked::Need(block_id) => Walked::Need(block_id),
            Walked::Done(new_orphans) => {
                let cur_fork = fork_head(cur_orphans, cur);
                let new_fork = fork_head(new_orphans, new);
                match fork_pairs(
                    chain,
                    Some(cur_fork.block_id),
                    Some(new_fork.block_id),
                    cur_fork.block_num as nat,
                ) {
                    Walked::Need(block_id) => Walked::Need(block_id),
                    Walked::Done((cur_paired, new_paired)) => if side_work(new_orphans, new_paired)
                        > side_work(cur_orphans, cur_paired) {
                        Walked::Done(VerdictView::Commit)
                    } else {
                        Walked::Done(VerdictView::Ignore)
                    },
                }
            },
        }
    }
}

/// The choice for a new head over a current head that is no proof-of-work
/// block: the walk back from the new head commits it at the block that
/// follows the current head, and passes it over at a block without
/// proof-of-work payload, or after `fuel` steps.
pub open spec fn switched(chain: Chain, cur_id: Seq<u8>, fork_block: BlockView, fuel: nat) -> Walked<
    VerdictView,
>
    decreases fuel,
{
    if fork_block.previous_id == cur_id {
        Walked::Done(VerdictView::Commit)
    } else if !is_pow_payload(fork_block.payload) {
        Walked::Done(VerdictView::Ignore)
    } else if fuel == 0 {
        Walked::Done(VerdictView::Ignore)
    } else if !chain.dom().contains(fork_block.previous_id) {
        Walked::Need(fork_block.previous_id)
    } else {
        match chain[fork_block.previous_id] {
            None => Walked::Done(VerdictView::Unknown(fork_block.previous_id)),
            Some(block) => switched(chain, cur_id, block, (fuel - 1) as nat),
        }
    }
}

/// Whether `new` is the block that follows `cur`.
pub open spec fn extends(cur: BlockView, new: BlockView) -> bool {
    new.block_num == cur.block_num + 1 && new.previous_id == cur.block_id
}

/// The choice between the current head and a new head.
pub open spec fn compared(chain: Chain, cur: BlockView, new: BlockView) -> Walked<VerdictView> {
    if !is_pow_payload(new.payload) {
        Walked::Done(VerdictView::Ignore)
    } else if !is_pow_payload(cur.payload) {
        switched(chain, cur.block_id, new, new.block_num as nat)
    } else if extends(cur, new) {
        Walked::Done(VerdictView::Commit)
    } else {
        resolved(chain, cur, new)
    }
}

/// The choice between the current head and a new head, by their ids.
pub open spec fn fork_verdict(chain: Chain, cur_id: Seq<u8>, new_id: Seq<u8>) -> Walked<
    VerdictView,
> {
    if !chain.dom().contains(cur_id) {
        Walked::Need(cur_id)
    } else {
        match chain[cur_id] {
            None => Walked::Done(VerdictView::Unknown(cur_id)),
            Some(cur) => if !chain.dom().contains(new_id) {
                Walked::Need(new_id)
            } else {
                match chain[new_id] {
                    None => Walked::Done(VerdictView::Unknown(new_id)),
                    Some(new) => compared(chain, cur, new),
                }
            },
        }
    }
}

/// A walk for orphans that has come to an end comes to the same end when
/// more of the chain is known.
pub proof fn lemma_orphans_are_stable(known: Chain, full: Chain, start: Seq<u8>, limit: nat)
    requires
        chain_within(known, full),
        orphans(known, start, limit) is Done,
    ensures
        orphans(full, start, limit) == orphans(known, start, limit),
    decreases limit,
{
    if limit > 0 {
        match ancestor_at(known, start) {
            Walked::Done(Some(block)) => {
                if is_pow_block(block) {
                    lemma_orphans_are_stable(known, full, block.previous_id, (limit - 1) as nat);
                }
            },
            _ => {},
        }
    }
}

/// A walk in pairs that has come to an end comes to the same end when more
/// of the chain is known.
pub proof fn lemma_fork_pairs_are_stable(
    known: Chain,
    full: Chain,
    local: Option<Seq<u8>>,
    foreign: Option<Seq<u8>>,
    limit: nat,
)
    requires
        chain_within(known, full),
        fork_pairs(known, local, foreign, limit) is Done,
    ensures
        fork_pairs(full, local, foreign, limit) == fork_pairs(known, local, foreign, limit),
    decreases limit,
{
    if limit > 0 {
        match pair_at(known, local, foreign) {
            Walked::Done(Some((left, right))) => {
                if keeps_apart(left, right) {
                    lemma_fork_pairs_are_stable(
                        known,
                        full,
                        Some(left.previous_id),
                        Some(right.previous_id),
                        (limit - 1) as nat,
                    );
                }
            },
            _ => {},
        }
    }
}

/// A walk behind a head of another consensus that has come to an end comes
/// to the same end when more of the chain is known.
pub proof fn lemma_switched_is_stable(
    known: Chain,
    full: Chain,
    cur_id: Seq<u8>,
    fork_block: BlockView,
    fuel: nat,
)
    requires
        chain_within(known, full),
        switched(known, cur_id, fork_block, fuel) is Done,
    ensures
        switched(full, cur_id, fork_block, fuel) == switched(known, cur_id, fork_block, fuel),
    decreases fuel,
{
    if fork_block.previous_id != cur_id && is_pow_payload(fork_block.payload) && fuel > 0 {
        match known[fork_block.previous_id] {
            Some(block) => {
                lemma_switched_is_stable(known, full, cur_id, block, (fuel - 1) as nat);
            },
            None => {},
        }
    }
}

/// The choice between two heads depends on the blocks that it looks at
/// alone: once made, it is the same however much more of the chain is known.
pub proof fn lemma_fork_verdict_is_stable(
    known: Chain,
    full: Chain,
    cur_id: Seq<u8>,
    new_id: Seq<u8>,
)
    requires
        chain_within(known, full),
        fork_verdict(known, cur_id, new_id) is Done,
    ensures
        fork_verdict(full, cur_id, new_id) == fork_verdict(known, cur_id, new_id),
{
    match (known[cur_id], known[new_id]) {
        (Some(cur), Some(new)) => {
            if !is_pow_payload(new.payload) {
            } else if !is_pow_payload(cur.payload) {
                lemma_switched_is_stable(known, full, cur.block_id, new, new.block_num as nat);
            } else if extends(cur, new) {
            } else {
                let cur_gap = height_gap(cur.block_num, new.block_num);
                let new_gap = height_gap(new.block_num, cur.block_num);
                lemma_orphans_are_stable(known, full, cur.previous_id, cur_gap);
                let cur_orphans = orphans(known, cur.previous_id, cur_gap)->Done_0;
                lemma_orphans_are_stable(known, full, new.previous_id, new_gap);
                let new_orphans = orphans(known, new.previous_id, new_gap)->Done_0;
                let cur_fork = fork_head(cur_orphans, cur);
                let new_fork = fork_head(new_orphans, new);
                lemma_fork_pairs_are_stable(
                    known,
                    full,
                    Some(cur_fork.block_id),
                    Some(new_fork.block_id),
                    cur_fork.block_num as nat,
                );
            }
        },
        _ => {},
    }
}

/// The choice between two heads asks only for blocks of which nothing is
/// known yet.
pub proof fn lemma_fork_verdict_asks_for_news(chain: Chain, cur_id: Seq<u8>, new_id: Seq<u8>)
    ensures
        fork_verdict(chain, cur_id, new_id) matches Walked::Need(block_id)
            ==> !chain.dom().contains(block_id),
{
    if chain.dom().contains(cur_id) && chain.dom().contains(new_id) {
        match (chain[cur_id], chain[new_id]) {
            (Some(cur), Some(new)) => {
                if !is_pow_payload(new.payload) {
                } else if !is_pow_payload(cur.payload) {
                    lemma_switched_asks_for_news(chain, cur.block_id, new, new.block_num as nat);
                } else if extends(cur, new) {
                } else {
                    let cur_gap = height_gap(cur.block_num, new.block_num);
                    let new_gap = height_gap(new.block_num, cur.block_num);
                    lemma_orphans_ask_for_news(chain, cur.previous_id, cur_gap);
                    lemma_orphans_ask_for_news(chain, new.previous_id, new_gap);
                    match (
                        orphans(chain, cur.previous_id, cur_gap),
                        orphans(chain, new.previous_id, new_gap),
                    ) {
                        (Walked::Done(cur_orphans), Walked::Done(new_orphans)) => {
                            let cur_fork = fork_head(cur_orphans, cur);
                            let new_fork = fork_head(new_orphans, new);
                            lemma_fork_pairs_ask_for_news(
                                chain,
                                Some(cur_fork.block_id),
                                Some(new_fork.block_id),
                                cur_fork.block_num as nat,
                            );
                        },
                        _ => {},
                    }
                }
            },
            _ => {},
        }
    }
}

proof fn lemma_orphans_ask_for_news(chain: Chain, start: Seq<u8>, limit: nat)
    ensures
        orphans(chain, start, limit) matches Walked::Need(block_id) ==> !chain.dom().contains(
            block_id,
        ),
    decreases limit,
{
    if limit > 0 {
        match ancestor_at(chain, start) {
            Walked::Done(Some(block)) => {
                if is_pow_block(block) {
                    lemma_orphans_ask_for_news(chain, block.previous_id, (limit - 1) as nat);
                }
            },
            _ => {},
        }
    }
}

proof fn lemma_fork_pairs_ask_for_news(
    chain: Chain,
    local: Option<Seq<u8>>,
    foreign: Option<Seq<u8>>,
    limit: nat,
)
    ensures
        fork_pairs(chain, local, foreign, limit) matches Walked::Need(block_id)
            ==> !chain.dom().contains(block_id),
    decreases limit,
{
    if limit > 0 {
        match pair_at(chain, local, foreign) {
            Walked::Done(Some((left, right))) => {
                if keeps_apart(left, right) {
                    lemma_fork_pairs_ask_for_news(
                        chain,
                        Some(left.previous_id),
                        Some(right.previous_id),
                        (limit - 1) as nat,
                    );
                }
            },
            _ => {},
        }
    }
}

proof fn lemma_switched_asks_for_news(
    chain: Chain,
    cur_id: Seq<u8>,
    fork_block: BlockView,
    fuel: nat,
)
    ensures
        switched(chain, cur_id, fork_block, fuel) matches Walked::Need(block_id)
            ==> !chain.dom().contains(block_id),
    decreases fuel,
{
    if fork_block.previous_id != cur_id && is_pow_payload(fork_block.payload) && fuel > 0
        && chain.dom().contains(fork_block.previous_id) {
        match chain[fork_block.previous_id] {
            Some(block) => {
                lemma_switched_asks_for_news(chain, cur_id, block, (fuel - 1) as nat);
            },
            None => {},
        }
    }
}

/// What remains of a walk after `collected` was collected.
pub open spec fn orphans_after(collected: Seq<BlockView>, rest: Walked<Seq<BlockView>>) -> Walked<
    Seq<BlockView>,
> {
    match rest {
        Walked::Need(block_id) => Walked::Need(block_id),
        Walked::Done(rest) => Walked::Done(collected + rest),
    }
}

/// What remains of a walk in pairs after `lefts` and `rights` were collected.
pub open spec fn pairs_after(
    lefts: Seq<BlockView>,
    rights: Seq<BlockView>,
    rest: Walked<(Seq<BlockView>, Seq<BlockView>)>,
) -> Walked<(Seq<BlockView>, Seq<BlockView>)> {
    match rest {
        Walked::Need(block_id) => Walked::Need(block_id),
        Walked::Done((more_lefts, more_rights)) => Walked::Done(
            (lefts + more_lefts, rights + more_rights),
        ),
    }
}

/// Whether the headers handed out are what the plain walk comes to.
pub open spec fn orphans_as(item: Walk<Vec<BlockHeader>>, plain: Walked<Seq<BlockView>>) -> bool {
    match item {
        Walk::Need(block_id) => plain == Walked::<Seq<BlockView>>::Need(block_id@),
        Walk::Done(headers) => plain == Walked::Done(headers_view(headers@)),
    }
}

/// Whether the headers handed out are what the plain walk in pairs comes to.
pub open spec fn pairs_as(
    item: Walk<(Vec<BlockHeader>, Vec<BlockHeader>)>,
    plain: Walked<(Seq<BlockView>, Seq<BlockView>)>,
) -> bool {
    match item {
        Walk::Need(block_id) => plain == Walked::<(Seq<BlockView>, Seq<BlockView>)>::Need(
            block_id@,
        ),
        Walk::Done((lefts, rights)) => plain == Walked::Done(
            (headers_view(lefts@), headers_view(rights@)),
        ),
    }
}

/// Collects the proof-of-work ancestors from `start` on, `limit` at most.
pub fn collect_orphans(chain: &ChainView, start: &[u8], limit: u64) -> (item: Walk<Vec<BlockHeader>>)
    ensures
        orphans_as(item, orphans(chain@, start@, limit as nat)),
{
    let mut collected: Vec<BlockHeader> = Vec::new();
    let mut walk = BlockAncestors::new(start);
    let mut left: u64 = limit;
    let ghost mut at: Seq<u8> = start@;
    proof {
        assert(headers_view(collected@) =~= Seq::<BlockView>::empty());
        assert(Seq::<BlockView>::empty() + Seq::<BlockView>::empty() =~= Seq::<BlockView>::empty());
        match orphans(chain@, start@, limit as nat) {
            Walked::Need(_) => {},
            Walked::Done(rest) => {
                assert(Seq::<BlockView>::empty() + rest =~= rest);
            },
        }
    }
    while left > 0
        invariant
            walk@ == Some(at),
            orphans(chain@, start@, limit as nat) == orphans_after(
                headers_view(collected@),
                orphans(chain@, at, left as nat),
            ),
        decreases left,
    {
        match walk.next(chain) {
            Walk::Need(block_id) => {
                return Walk::Need(block_id);
            },
            Walk::Done(None) => {
                assert(headers_view(collected@) + Seq::<BlockView>::empty() =~= headers_view(
                    collected@,
                ));
                return Walk::Done(collected);
            },
            Walk::Done(Some(header)) => {
                if !header.consensus().is_pow() {
                    assert(headers_view(collected@) + Seq::<BlockView>::empty() =~= headers_view(
                        collected@,
                    ));
                    return Walk::Done(collected);
                }
                proof {
                    let before = headers_view(collected@);
                    let block = header@;
                    match orphans(chain@, block.previous_id, (left - 1) as nat) {
                        Walked::Need(_) => {},
                        Walked::Done(rest) => {
                            assert(before + (seq![block] + rest) =~= before.push(block) + rest);
                        },
                    }
                    assert(headers_view(collected@.push(header)) =~= before.push(block));
                    at = block.previous_id;
                }
                collected.push(header);
                left -= 1;
            },
        }
    }
    assert(headers_view(collected@) + Seq::<BlockView>::empty() =~= headers_view(collected@));
    Walk::Done(collected)
}

/// Collects the blocks on either side of a walk in pairs from `local` and
/// `foreign` on, `limit` pairs at most.
pub fn collect_pairs(chain: &ChainView, local: &[u8], foreign: &[u8], limit: u64) -> (item: Walk<
    (Vec<BlockHeader>, Vec<BlockHeader>),
>)
    ensures
        pairs_as(item, fork_pairs(chain@, Some(local@), Some(foreign@), limit as nat)),
{
    let mut lefts: Vec<BlockHeader> = Vec::new();
    let mut rights: Vec<BlockHeader> = Vec::new();
    let mut walk: PairedFork = BlockAncestors::new(local).paired_fork_iter(foreign);
    let mut left: u64 = limit;
    let ghost mut at: (Seq<u8>, Seq<u8>) = (local@, foreign@);
    let ghost empty = Seq::<BlockView>::empty();
    proof {
        assert(headers_view(lefts@) =~= empty);
        assert(headers_view(rights@) =~= empty);
        match fork_pairs(chain@, Some(local@), Some(foreign@), limit as nat) {
            Walked::Need(_) => {},
            Walked::Done((more_lefts, more_rights)) => {
                assert(empty + more_lefts =~= more_lefts);
                assert(empty + more_rights =~= more_rights);
            },
        }
    }
    while left > 0
        invariant
            empty == Seq::<BlockView>::empty(),
            walk@ == (Some(at.0), Some(at.1)),
            fork_pairs(chain@, Some(local@), Some(foreign@), limit as nat) == pairs_after(
                headers_view(lefts@),
                headers_view(rights@),
                fork_pairs(chain@, Some(at.0), Some(at.1), left as nat),
            ),
        decreases left,
    {
        match walk.next(chain) {
            Walk::Need(block_id) => {
                return Walk::Need(block_id);
            },
            Walk::Done(None) => {
                assert(headers_view(lefts@) + empty =~= headers_view(lefts@));
                assert(headers_view(rights@) + empty =~= headers_view(rights@));
                return Walk::Done((lefts, rights));
            },
            Walk::Done(Some((block_a, block_b))) => {
                let apart: bool = !bytes_eq(
                    block_a.block().block_id.as_slice(),
                    block_b.block().block_id.as_slice(),
                ) && !block_a.is_genesis() && !block_b.is_genesis() && block_a.consensus().is_pow()
                    && block_b.consensus().is_pow();
                if !apart {
                    assert(headers_view(lefts@) + empty =~= headers_view(lefts@));
                    assert(headers_view(rights@) + empty =~= headers_view(rights@));
                    return Walk::Done((lefts, rights));
                }
                proof {
                    let before_lefts = headers_view(lefts@);
                    let before_rights = headers_view(rights@);
                    let a = block_a@;
                    let b = block_b@;
                    match fork_pairs(
                        chain@,
                        Some(a.previous_id),
                        Some(b.previous_id),
                        (left - 1) as nat,
                    ) {
                        Walked::Need(_) => {},
                        Walked::Done((more_lefts, more_rights)) => {
                            assert(before_lefts + (seq![a] + more_lefts) =~= before_lefts.push(a)
                                + more_lefts);
                            assert(before_rights + (seq![b] + more_rights) =~= before_rights.push(
                                b,
                            ) + more_rights);
                        },
                    }
                    assert(headers_view(lefts@.push(block_a)) =~= before_lefts.push(a));
                    assert(headers_view(rights@.push(block_b)) =~= before_rights.push(b));
                    at = (a.previous_id, b.previous_id);
                }
                lefts.push(block_a);
                rights.push(block_b);
                left -= 1;
            },
        }
    }
    assert(headers_view(lefts@) + empty =~= headers_view(lefts@));
    assert(headers_view(rights@) + empty =~= headers_view(rights@));
    Walk::Done((lefts, rights))
}

/// Sums the work of the headers from the index `from` on.
fn sum_work(headers: &Vec<BlockHeader>, from: usize) -> (total: Work)
    requires
        from <= headers@.len(),
    ensures
        total@ == total_work(headers_view(headers@).skip(from as int)),
{
    let mut total: Work = Work::zero();
    let mut i: usize = from;
    let ghost blocks = headers_view(headers@);
    assert(blocks.subrange(from as int, from as int).len() == 0);
    while i < headers.len()
        invariant
            from <= i <= headers@.len(),
            blocks == headers_view(headers@),
            total@ == total_work(blocks.subrange(from as int, i as int)),
        decreases headers@.len() - i,
    {
        let work: Work = headers[i].work();
        total = total.add(&work);
        proof {
            assert(blocks.subrange(from as int, i + 1).drop_last() =~= blocks.subrange(
                from as int,
                i as int,
            ));
            assert(blocks.subrange(from as int, i + 1).last() == headers@[i as int]@);
        }
        i += 1;
    }
    assert(blocks.subrange(from as int, i as int) =~= blocks.skip(from as int));
    total
}

/// Sums the work of a side.
pub fn sum_side(orphans: &Vec<BlockHeader>, paired: &Vec<BlockHeader>) -> (total: Work)
    ensures
        total@ == side_work(headers_view(orphans@), headers_view(paired@)),
{
    let doubled: bool = orphans.len() > 0 && paired.len() > 0 && bytes_eq(
        paired[0].block().block_id.as_slice(),
        orphans[orphans.len() - 1].block().block_id.as_slice(),
    );
    let from: usize = if doubled { 1 } else { 0 };
    let first: Work = sum_work(orphans, 0);
    let second: Work = sum_work(paired, from);
    proof {
        assert(headers_view(orphans@).skip(0) =~= headers_view(orphans@));
        assert(headers_view(paired@).skip(0) =~= headers_view(paired@));
    }
    first.add(&second)
}

/// Chooses between two heads of which neither extends the other.
pub fn resolve_fork(chain: &ChainView, cur_head: &Block, new_head: &Block) -> (item: Walk<Verdict>)
    ensures
        verdict_as(item, resolved(chain@, cur_head@, new_head@)),
{
    let cur_diff_size: u64 = if cur_head.block_num > new_head.block_num {
        cur_head.block_num - new_head.block_num
    } else {
        0
    };
    let new_diff_size: u64 = if new_head.block_num > cur_head.block_num {
        new_head.block_num - cur_head.block_num
    } else {
        0
    };
    let cur_chain_orphans: Vec<BlockHeader> = match collect_orphans(
        chain,
        cur_head.previous_id.as_slice(),
        cur_diff_size,
    ) {
        Walk::Need(block_id) => {
            return Walk::Need(block_id);
        },
        Walk::Done(headers) => headers,
    };
    let new_chain_orphans: Vec<BlockHeader> = match collect_orphans(
        chain,
        new_head.previous_id.as_slice(),
        new_diff_size,
    ) {
        Walk::Need(block_id) => {
            return Walk::Need(block_id);
        },
        Walk::Done(headers) => headers,
    };
    let cur_fork_head: &Block = if cur_chain_orphans.len() > 0 {
        cur_chain_orphans[cur_chain_orphans.len() - 1].block()
    } else {
        cur_head
    };
    let new_fork_head: &Block = if new_chain_orphans.len() > 0 {
        new_chain_orphans[new_chain_orphans.len() - 1].block()
    } else {
        new_head
    };
    let (cur_fork_blocks, new_fork_blocks) = match collect_pairs(
        chain,
        cur_fork_head.block_id.as_slice(),
        new_fork_head.block_id.as_slice(),
        cur_fork_head.block_num,
    ) {
        Walk::Need(block_id) => {
            return Walk::Need(block_id);
        },
        Walk::Done(sides) => sides,
    };
    let new_work: Work = sum_side(&new_chain_orphans, &new_fork_blocks);
    let cur_work: Work = sum_side(&cur_chain_orphans, &cur_fork_blocks);
    if new_work.exceeds(&cur_work) {
        Walk::Done(Verdict::Commit)
    } else {
        Walk::Done(Verdict::Ignore)
    }
}

/// Chooses for a new head over a current head that is no proof-of-work block.
fn switch_forks(chain: &ChainView, cur_head: &Block, new_head: &Block) -> (item: Walk<Verdict>)
    ensures
        verdict_as(
            item,
            switched(chain@, cur_head@.block_id, new_head@, new_head@.block_num as nat),
        ),
{
    let mut fork_block: Block = new_head.clone();
    let mut fuel: u64 = new_head.block_num;
    loop
        invariant
            switched(chain@, cur_head@.block_id, new_head@, new_head@.block_num as nat) == switched(
                chain@,
                cur_head@.block_id,
                fork_block@,
                fuel as nat,
            ),
        decreases fuel,
    {
        if bytes_eq(fork_block.previous_id.as_slice(), cur_head.block_id.as_slice()) {
            return Walk::Done(Verdict::Commit);
        }
        if !BlockConsensus::is_pow_consensus(fork_block.payload.as_slice()) {
            return Walk::Done(Verdict::Ignore);
        }
        if fuel == 0 {
            return Walk::Done(Verdict::Ignore);
        }
        match chain.lookup(fork_block.previous_id.as_slice()) {
            Lookup::Missing => {
                return Walk::Need(bytes_to_vec(fork_block.previous_id.as_slice()));
            },
            Lookup::Unknown => {
                return Walk::Done(
                    Verdict::Unknown(bytes_to_vec(fork_block.previous_id.as_slice())),
                );
            },
            Lookup::Found(block) => {
                fork_block = block.clone();
                fuel -= 1;
            },
        }
    }
}

/// Chooses between the current head and a new head.
pub fn compare_forks(chain: &ChainView, cur_head: &Block, new_head: &Block) -> (item: Walk<Verdict>)
    ensures
        verdict_as(item, compared(chain@, cur_head@, new_head@)),
{
    if !BlockConsensus::is_pow_consensus(new_head.payload.as_slice()) {
        return Walk::Done(Verdict::Ignore);
    }
    if !BlockConsensus::is_pow_consensus(cur_head.payload.as_slice()) {
        switch_forks(chain, cur_head, new_head)
    } else if cur_head.block_num < 0xffff_ffff_ffff_ffff && new_head.block_num == cur_head.block_num
        + 1 && bytes_eq(new_head.previous_id.as_slice(), cur_head.block_id.as_slice()) {
        Walk::Done(Verdict::Commit)
    } else {
        resolve_fork(chain, cur_head, new_head)
    }
}

/// Chooses between the current head and a new head, by their ids.
pub fn choose_fork(chain: &ChainView, cur_id: &[u8], new_id: &[u8]) -> (item: Walk<Verdict>)
    ensures
        verdict_as(item, fork_verdict(chain@, cur_id@, new_id@)),
{
    let cur_head: &Block = match chain.lookup(cur_id) {
        Lookup::Missing => {
            return Walk::Need(bytes_to_vec(cur_id));
        },
        Lookup::Unknown => {
            return Walk::Done(Verdict::Unknown(bytes_to_vec(cur_id)));
        },
        Lookup::Found(block) => block,
    };
    let new_head: &Block = match chain.lookup(new_id) {
        Lookup::Missing => {
            return Walk::Need(bytes_to_vec(new_id));
        },
        Lookup::Unknown => {
            return Walk::Done(Verdict::Unknown(bytes_to_vec(new_id)));
        },
        Lookup::Found(block) => block,
    };
    compare_forks(chain, cur_head, new_head)
}

} // verus!
