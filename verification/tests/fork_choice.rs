use ccconsensus::block::{Block, BlockConsensus, ChainView, Walk};
use ccconsensus::node::fork::{
    choose_fork, collect_orphans, collect_pairs, compare_forks, resolve_fork, sum_side, Verdict,
};
use ccconsensus::timestamp::Timestamp;
use ccconsensus::wide::Work;
use ccconsensus::work::{digest_score, mkhash};

const SIGNER: &[u8] = b"signer";

fn id(chain: &str, num: u64) -> Vec<u8> {
    format!("{}{}", chain, num).into_bytes()
}

/// A nonce whose digest over `previous` and the signer scores exactly `score`.
fn nonce_scoring(previous: &[u8], score: u32) -> u64 {
    let mut nonce: u64 = 0;
    while digest_score(&mkhash(previous, SIGNER, nonce)) != score {
        nonce += 1;
    }
    nonce
}

/// A proof-of-work block whose own proof scores exactly `score`.
fn pow_block(block_id: Vec<u8>, previous: Vec<u8>, num: u64, score: u32) -> Block {
    let nonce = nonce_scoring(&previous, score);
    Block {
        block_id,
        previous_id: previous,
        signer_id: SIGNER.to_vec(),
        block_num: num,
        payload: BlockConsensus::serialize(1, &Timestamp::parse(b"1").unwrap(), nonce),
        summary: Vec::new(),
    }
}

fn genesis(block_id: Vec<u8>) -> Block {
    Block {
        block_id,
        previous_id: Vec::new(),
        signer_id: SIGNER.to_vec(),
        block_num: 0,
        payload: Vec::new(),
        summary: Vec::new(),
    }
}

/// Records a common trunk `c0..=c<fork>` and on it the branch `name`, whose
/// blocks from height `fork + 1` on score as `scores` says.
fn grow(chain: &mut ChainView, name: &str, fork: u64, scores: &[u32]) -> Vec<Block> {
    chain.record(id("c", 0), Some(genesis(id("c", 0))));
    chain.record(Vec::new(), None);
    for num in 1..=fork {
        chain.record(id("c", num), Some(pow_block(id("c", num), id("c", num - 1), num, 0)));
    }
    let mut blocks: Vec<Block> = Vec::new();
    let mut previous = id("c", fork);
    for (index, score) in scores.iter().enumerate() {
        let num = fork + 1 + index as u64;
        let block = pow_block(id(name, num), previous, num, *score);
        previous = block.block_id.clone();
        chain.record(block.block_id.clone(), Some(block.clone()));
        blocks.push(block);
    }
    blocks
}

fn verdict(item: Walk<Verdict>) -> Verdict {
    match item {
        Walk::Done(verdict) => verdict,
        Walk::Need(block_id) => panic!("the choice needs {:?}", block_id),
    }
}

#[test]
fn a_block_that_extends_the_head_is_committed() {
    let mut chain = ChainView::new();
    let blocks = grow(&mut chain, "a", 2, &[0, 0]);
    assert!(matches!(
        verdict(compare_forks(&chain, &blocks[0], &blocks[1])),
        Verdict::Commit
    ));
    assert!(matches!(
        verdict(choose_fork(&chain, &id("a", 3), &id("a", 4))),
        Verdict::Commit
    ));
}

#[test]
fn a_block_without_pow_payload_is_ignored() {
    let mut chain = ChainView::new();
    let blocks = grow(&mut chain, "a", 2, &[0]);
    let mut other = pow_block(id("x", 4), id("a", 3), 4, 0);
    other.payload = b"other consensus".to_vec();
    assert!(matches!(
        verdict(compare_forks(&chain, &blocks[0], &other)),
        Verdict::Ignore
    ));
}

#[test]
fn fork_with_greater_work_is_committed() {
    // two chains at height 10 that part behind height 5
    let mut chain = ChainView::new();
    let a = grow(&mut chain, "a", 5, &[2, 2, 2, 2, 2]);
    let b = grow(&mut chain, "b", 5, &[3, 3, 3, 3, 3]);
    assert_eq!(a[4].block_num, 10);
    assert_eq!(b[4].block_num, 10);
    assert!(matches!(
        verdict(choose_fork(&chain, &id("a", 10), &id("b", 10))),
        Verdict::Commit
    ));
    assert!(matches!(
        verdict(resolve_fork(&chain, &a[4], &b[4])),
        Verdict::Commit
    ));
    // and the lighter chain does not take the place of the heavier
    assert!(matches!(
        verdict(choose_fork(&chain, &id("b", 10), &id("a", 10))),
        Verdict::Ignore
    ));
}

#[test]
fn one_heavy_block_outweighs_many_light_ones() {
    let mut chain = ChainView::new();
    grow(&mut chain, "a", 1, &[1, 1, 1, 1]);
    grow(&mut chain, "b", 1, &[0, 0, 0, 4]);
    // a: 4 * 2 = 8, b: 3 * 1 + 16 = 19
    assert!(matches!(
        verdict(choose_fork(&chain, &id("a", 5), &id("b", 5))),
        Verdict::Commit
    ));
    assert!(matches!(
        verdict(choose_fork(&chain, &id("b", 5), &id("a", 5))),
        Verdict::Ignore
    ));
}

#[test]
fn with_equal_work_the_current_head_stays() {
    let mut chain = ChainView::new();
    grow(&mut chain, "a", 3, &[2, 1, 3]);
    grow(&mut chain, "b", 3, &[3, 2, 1]);
    assert!(matches!(
        verdict(choose_fork(&chain, &id("a", 6), &id("b", 6))),
        Verdict::Ignore
    ));
    assert!(matches!(
        verdict(choose_fork(&chain, &id("b", 6), &id("a", 6))),
        Verdict::Ignore
    ));
}

#[test]
fn the_choice_is_the_same_every_time() {
    let mut chain = ChainView::new();
    grow(&mut chain, "a", 3, &[2, 1]);
    grow(&mut chain, "b", 3, &[1, 3]);
    for _ in 0..5 {
        assert!(matches!(
            verdict(choose_fork(&chain, &id("a", 5), &id("b", 5))),
            Verdict::Commit
        ));
    }
}

#[test]
fn heads_without_orphans_are_their_own_fork_heads() {
    let mut chain = ChainView::new();
    let a = grow(&mut chain, "a", 2, &[1]);
    let b = grow(&mut chain, "b", 2, &[2]);
    let orphans = match collect_orphans(&chain, &a[0].previous_id, 0) {
        Walk::Done(orphans) => orphans,
        Walk::Need(block_id) => panic!("the walk needs {:?}", block_id),
    };
    assert!(orphans.is_empty());
    let (lefts, rights) = match collect_pairs(&chain, &id("a", 3), &id("b", 3), 3) {
        Walk::Done(sides) => sides,
        Walk::Need(block_id) => panic!("the walk needs {:?}", block_id),
    };
    // the heads themselves are weighed; the common trunk is not
    assert_eq!(lefts.len(), 1);
    assert_eq!(rights.len(), 1);
    assert_eq!(lefts[0].block().block_id, id("a", 3));
    assert_eq!(rights[0].block().block_id, id("b", 3));
    assert!(sum_side(&orphans, &lefts).equals(&Work::pow2(1)));
    assert!(sum_side(&orphans, &rights).equals(&Work::pow2(2)));
    assert!(matches!(
        verdict(resolve_fork(&chain, &a[0], &b[0])),
        Verdict::Commit
    ));
    assert!(matches!(
        verdict(resolve_fork(&chain, &b[0], &a[0])),
        Verdict::Ignore
    ));
}

#[test]
fn orphans_are_the_ancestors_above_the_other_head() {
    let mut chain = ChainView::new();
    let a = grow(&mut chain, "a", 3, &[1, 3, 1, 0]);
    grow(&mut chain, "b", 3, &[0, 4]);
    // the current head a7 stands two above the new head b5
    let orphans = match collect_orphans(&chain, &a[3].previous_id, 2) {
        Walk::Done(orphans) => orphans,
        Walk::Need(block_id) => panic!("the walk needs {:?}", block_id),
    };
    let heights: Vec<u64> = orphans.iter().map(|h| h.block().block_num).collect();
    assert_eq!(heights, vec![6, 5]);
}

#[test]
fn the_deepest_orphan_is_weighed_once() {
    let mut chain = ChainView::new();
    let a = grow(&mut chain, "a", 3, &[1, 3, 1, 0]);
    let b = grow(&mut chain, "b", 3, &[0, 4]);
    let orphans = match collect_orphans(&chain, &a[3].previous_id, 2) {
        Walk::Done(orphans) => orphans,
        Walk::Need(block_id) => panic!("the walk needs {:?}", block_id),
    };
    let (lefts, rights) = match collect_pairs(&chain, &id("a", 5), &id("b", 5), 5) {
        Walk::Done(sides) => sides,
        Walk::Need(block_id) => panic!("the walk needs {:?}", block_id),
    };
    assert_eq!(lefts.len(), 2);
    // a6 + a5 + a4 = 2 + 8 + 2
    let cur = sum_side(&orphans, &lefts);
    assert!(cur.equals(&Work::pow2(3).add(&Work::pow2(2))));
    // b5 + b4 = 16 + 1
    let new = sum_side(&Vec::new(), &rights);
    assert!(new.equals(&Work::pow2(4).add(&Work::pow2(0))));
    assert!(matches!(
        verdict(resolve_fork(&chain, &a[3], &b[1])),
        Verdict::Commit
    ));
    assert!(matches!(
        verdict(choose_fork(&chain, &id("a", 7), &id("b", 5))),
        Verdict::Commit
    ));
}

#[test]
fn a_longer_new_chain_brings_its_orphans() {
    let mut chain = ChainView::new();
    grow(&mut chain, "a", 3, &[3]);
    grow(&mut chain, "b", 3, &[1, 1, 1]);
    // cur a4 = 8; new orphans b5, b4 and the pair side b4 once: 2 + 2,
    // the new head b6 itself is not weighed
    assert!(matches!(
        verdict(choose_fork(&chain, &id("a", 4), &id("b", 6))),
        Verdict::Ignore
    ));
    let mut chain = ChainView::new();
    grow(&mut chain, "a", 3, &[1]);
    grow(&mut chain, "b", 3, &[1, 1, 1]);
    // cur a4 = 2; new = 2 + 2
    assert!(matches!(
        verdict(choose_fork(&chain, &id("a", 4), &id("b", 6))),
        Verdict::Commit
    ));
}

#[test]
fn the_choice_names_the_blocks_it_lacks_one_by_one() {
    let mut full = ChainView::new();
    grow(&mut full, "a", 2, &[1, 1]);
    grow(&mut full, "b", 2, &[2, 2]);
    let mut chain = ChainView::new();
    let mut asked: Vec<Vec<u8>> = Vec::new();
    let verdict = loop {
        match choose_fork(&chain, &id("a", 4), &id("b", 4)) {
            Walk::Done(verdict) => break verdict,
            Walk::Need(block_id) => {
                assert!(!asked.contains(&block_id));
                let block = match full.lookup(&block_id) {
                    ccconsensus::block::Lookup::Found(block) => Some(block.clone()),
                    _ => None,
                };
                chain.record(block_id.clone(), block);
                asked.push(block_id);
            }
        }
    };
    assert!(matches!(verdict, Verdict::Commit));
    assert_eq!(
        asked,
        vec![id("a", 4), id("b", 4), id("a", 3), id("b", 3), id("c", 2)]
    );
}

#[test]
fn an_unknown_head_cannot_be_weighed() {
    let mut chain = ChainView::new();
    grow(&mut chain, "a", 2, &[1]);
    chain.record(id("b", 3), None);
    match verdict(choose_fork(&chain, &id("a", 3), &id("b", 3))) {
        Verdict::Unknown(block_id) => assert_eq!(block_id, id("b", 3)),
        other => panic!("expected an unknown block, got {:?}", other),
    }
    match verdict(choose_fork(&chain, &id("b", 3), &id("a", 3))) {
        Verdict::Unknown(block_id) => assert_eq!(block_id, id("b", 3)),
        other => panic!("expected an unknown block, got {:?}", other),
    }
}

#[test]
fn behind_a_head_of_another_consensus_a_descendant_is_committed() {
    let mut chain = ChainView::new();
    // the current head is a block of another consensus at height 5
    let mut head = pow_block(id("x", 5), id("x", 4), 5, 0);
    head.payload = b"other consensus".to_vec();
    chain.record(id("x", 5), Some(head.clone()));
    let first = pow_block(id("p", 6), id("x", 5), 6, 0);
    let second = pow_block(id("p", 7), id("p", 6), 7, 0);
    chain.record(id("p", 6), Some(first.clone()));
    chain.record(id("p", 7), Some(second.clone()));
    assert!(matches!(
        verdict(compare_forks(&chain, &head, &first)),
        Verdict::Commit
    ));
    assert!(matches!(
        verdict(compare_forks(&chain, &head, &second)),
        Verdict::Commit
    ));
}

#[test]
fn behind_a_head_of_another_consensus_a_stranger_is_ignored() {
    let mut chain = ChainView::new();
    let mut head = pow_block(id("x", 5), id("x", 4), 5, 0);
    head.payload = b"other consensus".to_vec();
    chain.record(id("x", 5), Some(head.clone()));
    // a proof-of-work block on a trunk that does not pass the current head
    let mut root = pow_block(id("y", 5), id("y", 4), 5, 0);
    root.payload = b"other consensus".to_vec();
    chain.record(id("y", 5), Some(root));
    let first = pow_block(id("q", 6), id("y", 5), 6, 0);
    let second = pow_block(id("q", 7), id("q", 6), 7, 0);
    chain.record(id("q", 6), Some(first));
    chain.record(id("q", 7), Some(second.clone()));
    assert!(matches!(
        verdict(compare_forks(&chain, &head, &second)),
        Verdict::Ignore
    ));
}

#[test]
fn behind_a_head_of_another_consensus_a_missing_ancestor_is_an_error() {
    let mut chain = ChainView::new();
    let mut head = pow_block(id("x", 5), id("x", 4), 5, 0);
    head.payload = b"other consensus".to_vec();
    let second = pow_block(id("q", 7), id("q", 6), 7, 0);
    match compare_forks(&chain, &head, &second) {
        Walk::Need(block_id) => assert_eq!(block_id, id("q", 6)),
        other => panic!("expected a need, got {:?}", other),
    }
    chain.record(id("q", 6), None);
    match verdict(compare_forks(&chain, &head, &second)) {
        Verdict::Unknown(block_id) => assert_eq!(block_id, id("q", 6)),
        other => panic!("expected an unknown block, got {:?}", other),
    }
}
