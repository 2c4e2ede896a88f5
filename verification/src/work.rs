use vstd::prelude::*;
use sha2::Digest;
use crate::block::block_consensus::{parse_payload, BlockConsensus};
use crate::block::block_header::{consensus_of, BlockHeader, BlockView};
use crate::block::chain::{chain_within, Chain, ChainView, Lookup, Walk, Walked};
use crate::decimal::{decimal_text, push_decimal};
use crate::node::config::PowConfig;
use crate::primitives::{bytes_to_vec, CCDifficulty, CCNonce, H256};
use crate::timestamp::Timestamp;

verus! {

/// What the first non-zero byte of a digest adds to the digest's score: the
/// number of zero bits above its highest set bit.
pub open spec fn bucket(byte: u8) -> nat {
    if byte >= 128 {
        0
    } else if byte >= 64 {
        1
    } else if byte >= 32 {
        2
    } else if byte >= 16 {
        3
    } else if byte >= 8 {
        4
    } else if byte >= 4 {
        5
    } else if byte >= 2 {
        6
    } else {
        7
    }
}

/// The score of a digest: eight for every leading zero byte, plus the bucket
/// of the first non-zero byte. Nothing behind that byte counts.
pub open spec fn score(digest: Seq<u8>) -> nat
    decreases digest.len(),
{
    if digest.len() == 0 {
        0
    } else if digest[0] == 0 {
        8 + score(digest.skip(1))
    } else {
        bucket(digest[0])
    }
}

/// A digest that starts with `zeros` zero bytes scores eight for each of
/// them, plus the score of what follows.
pub proof fn lemma_score_zero_prefix(digest: Seq<u8>, zeros: int)
    requires
        0 <= zeros <= digest.len(),
        forall|k: int| 0 <= k < zeros ==> digest[k] == 0,
    ensures
        score(digest) == 8 * zeros + score(digest.skip(zeros)),
    decreases zeros,
{
    if zeros == 0 {
        assert(digest.skip(0) =~= digest);
    } else {
        let rest = digest.skip(1);
        assert forall|k: int| 0 <= k < zeros - 1 implies rest[k] == 0 by {
            assert(rest[k] == digest[k + 1]);
        }
        lemma_score_zero_prefix(rest, zeros - 1);
        assert(rest.skip(zeros - 1) =~= digest.skip(zeros));
    }
}

/// Scores a digest.
pub fn digest_score(digest: &H256) -> (result: u32)
    ensures
        result == score(digest@),
        result <= 256,
{
    let mut i: usize = 0;
    while i < 32
        invariant
            i <= 32,
            forall|k: int| 0 <= k < i ==> digest@[k] == 0,
        decreases 32 - i,
    {
        let byte: u8 = digest[i];
        if byte > 0 {
            proof {
                lemma_score_zero_prefix(digest@, i as int);
                assert(digest@.skip(i as int)[0] == byte);
            }
            let zeros: u32 = 8 * (i as u32);
            if byte >= 128 {
                return zeros;
            } else if byte >= 64 {
                return zeros + 1;
            } else if byte >= 32 {
                return zeros + 2;
            } else if byte >= 16 {
                return zeros + 3;
            } else if byte >= 8 {
                return zeros + 4;
            } else if byte >= 4 {
                return zeros + 5;
            } else if byte >= 2 {
                return zeros + 6;
            } else {
                return zeros + 7;
            }
        }
        i += 1;
    }
    proof {
        lemma_score_zero_prefix(digest@, 32);
        assert(digest@.skip(32).len() == 0);
    }
    256
}

/// Whether `hash` reaches `difficulty`, together with the score it reaches.
pub fn is_valid_proof_of_work(hash: &H256, difficulty: CCDifficulty) -> (result: (bool, CCDifficulty))
    ensures
        result.1 == score(hash@),
        result.0 == (score(hash@) >= difficulty),
{
    let digest: u32 = digest_score(hash);
    (digest >= difficulty, digest)
}

/// The SHA-256 digest of a byte string.
pub uninterp spec fn sha256_of(data: Seq<u8>) -> Seq<u8>;

/// Calls `sha2::Sha256::digest`, the one-shot form of the hasher of the
/// `sha2` crate. Trusted: the result is the SHA-256 digest of `data`, which
/// depends on `data` alone.
#[verifier::external_body]
fn sha256(data: &[u8]) -> (digest: H256)
    ensures
        digest@ == sha256_of(data@),
{
    sha2::Sha256::digest(data).into()
}

/// What is hashed for a proof of work: the block id, the peer id, and the
/// nonce as decimal text, one behind the other.
pub open spec fn pow_input(block_id: Seq<u8>, peer_id: Seq<u8>, nonce: CCNonce) -> Seq<u8> {
    block_id + peer_id + decimal_text(nonce as nat)
}

/// The proof-of-work digest of a nonce over a block id and a peer id.
pub open spec fn pow_hash(block_id: Seq<u8>, peer_id: Seq<u8>, nonce: CCNonce) -> Seq<u8> {
    sha256_of(pow_input(block_id, peer_id, nonce))
}

/// The score that a nonce reaches over a block id and a peer id.
pub open spec fn realized_difficulty(block_id: Seq<u8>, peer_id: Seq<u8>, nonce: CCNonce) -> nat {
    score(pow_hash(block_id, peer_id, nonce))
}

/// Computes the proof-of-work digest of `nonce` over `block_id` and `peer_id`.
pub fn mkhash(block_id: &[u8], peer_id: &[u8], nonce: CCNonce) -> (output: H256)
    ensures
        output@ == pow_hash(block_id@, peer_id@, nonce),
{
    let mut input: Vec<u8> = Vec::new();
    input.extend_from_slice(block_id);
    input.extend_from_slice(peer_id);
    push_decimal(&mut input, nonce);
    assert(input@ =~= pow_input(block_id@, peer_id@, nonce));
    sha256(input.as_slice())
}

/// Computes the proof-of-work digest of `nonce` over `block_id` and
/// `peer_id` and stores it in `output`.
pub fn mkhash_into(output: &mut H256, block_id: &[u8], peer_id: &[u8], nonce: CCNonce)
    ensures
        final(output)@ == pow_hash(block_id@, peer_id@, nonce),
{
    *output = mkhash(block_id, peer_id, nonce);
}

/// Which of the two windows a retarget looks back over.
#[derive(Clone, Copy, Debug, PartialEq, Eq, Structural)]
pub enum Window {
    /// The long window, held against the expected time itself.
    Tuning,
    /// The short window, held against half and against twice the expected time.
    Adjustment,
}

/// How the time that a window of blocks took stands to the time expected
/// for it. Over a tuning window the bounds are the expected time itself;
/// over an adjustment window, half of it below and twice of it above.
#[derive(Clone, Copy, Debug, PartialEq, Eq, Structural)]
pub enum Pace {
    /// The blocks took less than the lower bound.
    Fast,
    /// The blocks took neither less than the lower nor more than the upper bound.
    OnTarget,
    /// The blocks took more than the upper bound.
    Slow,
}

/// What the difficulty controller comes to before time is measured.
#[derive(Debug)]
pub enum Retarget {
    /// The difficulty is settled.
    Fixed(CCDifficulty),
    /// The difficulty follows from the pace of the blocks since `since`,
    /// for which `expected_seconds` were expected.
    Timed { difficulty: CCDifficulty, window: Window, since: Timestamp, expected_seconds: u128 },
}

/// A `Retarget` as plain values.
pub ghost enum RetargetView {
    Fixed(CCDifficulty),
    Timed { difficulty: CCDifficulty, window: Window, since: Seq<u8>, expected_seconds: nat },
}

impl View for Retarget {
    type V = RetargetView;

    open spec fn view(&self) -> RetargetView {
        match self {
            Retarget::Fixed(difficulty) => RetargetView::Fixed(*difficulty),
            Retarget::Timed { difficulty, window, since, expected_seconds } => RetargetView::Timed {
                difficulty: *difficulty,
                window: *window,
                since: since@,
                expected_seconds: *expected_seconds as nat,
            },
        }
    }
}

/// Whether a block at `height` opens an epoch of `count` blocks: its height
/// is a multiple of `count`, and `count` is not zero.
pub open spec fn is_epoch(height: u64, count: u64) -> bool {
    count != 0 && height % count == 0
}

/// The walk back from `block_id` that looks for the start of a window of
/// `total` blocks, `count` of which have been passed, the earliest of them
/// mined at `since`. It ends at a block without proof-of-work payload, or
/// when `total` blocks have been passed, with the time of the earliest block
/// and the number of blocks; it ends with nothing at a block that the
/// validator does not have.
pub open spec fn elapsed_from(
    chain: Chain,
    block_id: Seq<u8>,
    since: Seq<u8>,
    count: nat,
    total: nat,
) -> Walked<Option<(Seq<u8>, nat)>>
    decreases total - count,
{
    if !chain.dom().contains(block_id) {
        Walked::Need(block_id)
    } else {
        match chain[block_id] {
            None => Walked::Done(None),
            Some(block) => match parse_payload(block.payload) {
                Err(_) => Walked::Done(Some((since, count))),
                Ok(consensus) => if count + 1 >= total {
                    Walked::Done(Some((consensus.timestamp, count + 1)))
                } else {
                    elapsed_from(chain, block.previous_id, consensus.timestamp, count + 1, total)
                },
            },
        }
    }
}

/// The window of `total` blocks that ends with `header`.
pub open spec fn elapsed(chain: Chain, header: BlockView, total: nat) -> Walked<
    Option<(Seq<u8>, nat)>,
> {
    elapsed_from(chain, header.previous_id, consensus_of(header).timestamp, 1, total)
}

/// The retarget over a window of `total` blocks that ends with `header`:
/// timed over the blocks found, each expected to take `interval` seconds; or
/// fixed at `fallback` where the validator lacks a block of the window.
pub open spec fn timed_plan(
    chain: Chain,
    header: BlockView,
    window: Window,
    total: u64,
    interval: u64,
    fallback: CCDifficulty,
) -> Walked<RetargetView> {
    match elapsed(chain, header, total as nat) {
        Walked::Need(block_id) => Walked::Need(block_id),
        Walked::Done(None) => Walked::Done(RetargetView::Fixed(fallback)),
        Walked::Done(Some((since, count))) => Walked::Done(
            RetargetView::Timed {
                difficulty: consensus_of(header).difficulty,
                window,
                since,
                expected_seconds: (count * interval) as nat,
            },
        ),
    }
}

/// What the difficulty controller comes to for the successor of `header`:
/// the initial difficulty behind the block at height zero; a retarget over
/// the tuning window where the height opens a tuning epoch; else one over the
/// adjustment window where it opens an adjustment epoch; else the difficulty
/// that `header` declares.
pub open spec fn difficulty_plan(chain: Chain, header: BlockView, config: PowConfig) -> Walked<
    RetargetView,
> {
    if header.block_num == 0 {
        Walked::Done(RetargetView::Fixed(config.initial_difficulty))
    } else if is_epoch(header.block_num, config.difficulty_tuning_block_count) {
        timed_plan(
            chain,
            header,
            Window::Tuning,
            config.difficulty_tuning_block_count,
            config.seconds_between_blocks,
            config.initial_difficulty,
        )
    } else if is_epoch(header.block_num, config.difficulty_adjustment_block_count) {
        timed_plan(
            chain,
            header,
            Window::Adjustment,
            config.difficulty_adjustment_block_count,
            config.seconds_between_blocks,
            config.initial_difficulty,
        )
    } else {
        Walked::Done(RetargetView::Fixed(consensus_of(header).difficulty))
    }
}

/// The difficulty after a window at the given pace: one more after a fast
/// window, unless it stands at 255 or above; one less after a slow window,
/// unless it stands at zero; else unchanged.
pub open spec fn retarget(difficulty: CCDifficulty, pace: Pace) -> CCDifficulty {
    match pace {
        Pace::Fast => if difficulty < 255 {
            (difficulty + 1) as u32
        } else {
            difficulty
        },
        Pace::Slow => if difficulty > 0 {
            (difficulty - 1) as u32
        } else {
            difficulty
        },
        Pace::OnTarget => difficulty,
    }
}

/// The difficulty that a plan settles on at the given pace.
pub open spec fn settled(plan: RetargetView, pace: Pace) -> CCDifficulty {
    match plan {
        RetargetView::Fixed(difficulty) => difficulty,
        RetargetView::Timed { difficulty, .. } => retarget(difficulty, pace),
    }
}

/// Whether the plan handed out is what the plain plan comes to.
pub open spec fn plan_as(item: Walk<Retarget>, plain: Walked<RetargetView>) -> bool {
    match item {
        Walk::Need(block_id) => plain == Walked::<RetargetView>::Need(block_id@),
        Walk::Done(plan) => plain == Walked::Done(plan@),
    }
}

impl Retarget {
    /// The difficulty that the plan settles on at the given pace.
    pub fn settle(&self, pace: Pace) -> (difficulty: CCDifficulty)
        ensures
            difficulty == settled(self@, pace),
    {
        match self {
            Retarget::Fixed(difficulty) => *difficulty,
            Retarget::Timed { difficulty, .. } => match pace {
                Pace::Fast => if *difficulty < 255 {
                    *difficulty + 1
                } else {
                    *difficulty
                },
                Pace::Slow => if *difficulty > 0 {
                    *difficulty - 1
                } else {
                    *difficulty
                },
                Pace::OnTarget => *difficulty,
            },
        }
    }
}

/// A retarget moves the difficulty by one at most, and never from within
/// 0 to 255 to a value outside.
pub proof fn lemma_retarget_stays_close(difficulty: CCDifficulty, pace: Pace)
    ensures
        retarget(difficulty, pace) == difficulty || retarget(difficulty, pace) == difficulty + 1
            || retarget(difficulty, pace) == difficulty - 1,
        difficulty <= 255 ==> retarget(difficulty, pace) <= 255,
{
}

/// Behind a parent above height zero that declares a difficulty of at most
/// 255, the difficulty controller settles on the parent's difficulty, on one
/// more or on one less, and on no more than 255, unless the validator lacks
/// a block of the window.
pub proof fn lemma_difficulty_stays_close(
    chain: Chain,
    parent: BlockView,
    config: PowConfig,
    pace: Pace,
)
    requires
        parent.block_num != 0,
        consensus_of(parent).difficulty <= 255,
        difficulty_plan(chain, parent, config) is Done,
        is_epoch(parent.block_num, config.difficulty_tuning_block_count) ==> !(elapsed(
            chain,
            parent,
            config.difficulty_tuning_block_count as nat,
        ) matches Walked::Done(None)),
        !is_epoch(parent.block_num, config.difficulty_tuning_block_count) && is_epoch(
            parent.block_num,
            config.difficulty_adjustment_block_count,
        ) ==> !(elapsed(chain, parent, config.difficulty_adjustment_block_count as nat)
            matches Walked::Done(None)),
    ensures
        ({
            let declared = consensus_of(parent).difficulty;
            let next = settled(difficulty_plan(chain, parent, config)->Done_0, pace);
            &&& next == declared || next == declared + 1 || next == declared - 1
            &&& next <= 255
        }),
{
}

/// A walk over a window that has come to an end comes to the same end
/// when more of the chain is known.
pub proof fn lemma_elapsed_is_stable(
    known: Chain,
    full: Chain,
    block_id: Seq<u8>,
    since: Seq<u8>,
    count: nat,
    total: nat,
)
    requires
        chain_within(known, full),
        elapsed_from(known, block_id, since, count, total) is Done,
    ensures
        elapsed_from(full, block_id, since, count, total) == elapsed_from(
            known,
            block_id,
            since,
            count,
            total,
        ),
    decreases total - count,
{
    match known[block_id] {
        Some(block) => match parse_payload(block.payload) {
            Ok(consensus) => {
                if count + 1 < total {
                    lemma_elapsed_is_stable(
                        known,
                        full,
                        block.previous_id,
                        consensus.timestamp,
                        count + 1,
                        total,
                    );
                }
            },
            Err(_) => {},
        },
        None => {},
    }
}

/// What the difficulty controller comes to depends on the blocks that it
/// looks at alone: it is the same however much more of the chain is known.
pub proof fn lemma_difficulty_plan_is_stable(
    known: Chain,
    full: Chain,
    header: BlockView,
    config: PowConfig,
)
    requires
        chain_within(known, full),
        difficulty_plan(known, header, config) is Done,
    ensures
        difficulty_plan(full, header, config) == difficulty_plan(known, header, config),
{
    if header.block_num != 0 {
        let since = consensus_of(header).timestamp;
        if is_epoch(header.block_num, config.difficulty_tuning_block_count) {
            lemma_elapsed_is_stable(
                known,
                full,
                header.previous_id,
                since,
                1,
                config.difficulty_tuning_block_count as nat,
            );
        } else if is_epoch(header.block_num, config.difficulty_adjustment_block_count) {
            lemma_elapsed_is_stable(
                known,
                full,
                header.previous_id,
                since,
                1,
                config.difficulty_adjustment_block_count as nat,
            );
        }
    }
}

proof fn lemma_elapsed_asks_for_news(
    chain: Chain,
    block_id: Seq<u8>,
    since: Seq<u8>,
    count: nat,
    total: nat,
)
    ensures
        elapsed_from(chain, block_id, since, count, total) matches Walked::Need(asked)
            ==> !chain.dom().contains(asked),
    decreases total - count,
{
    if chain.dom().contains(block_id) {
        match chain[block_id] {
            Some(block) => match parse_payload(block.payload) {
                Ok(consensus) => {
                    if count + 1 < total {
                        lemma_elapsed_asks_for_news(
                            chain,
                            block.previous_id,
                            consensus.timestamp,
                            count + 1,
                            total,
                        );
                    }
                },
                Err(_) => {},
            },
            None => {},
        }
    }
}

/// The difficulty controller asks only for blocks of which nothing is known yet.
pub proof fn lemma_difficulty_plan_asks_for_news(chain: Chain, header: BlockView, config: PowConfig)
    ensures
        difficulty_plan(chain, header, config) matches Walked::Need(asked)
            ==> !chain.dom().contains(asked),
{
    let since = consensus_of(header).timestamp;
    lemma_elapsed_asks_for_news(
        chain,
        header.previous_id,
        since,
        1,
        config.difficulty_tuning_block_count as nat,
    );
    lemma_elapsed_asks_for_news(
        chain,
        header.previous_id,
        since,
        1,
        config.difficulty_adjustment_block_count as nat,
    );
}

pub fn is_tuning_block(header: &BlockHeader, config: &PowConfig) -> (epoch: bool)
    ensures
        epoch == is_epoch(header@.block_num, config.difficulty_tuning_block_count),
{
    config.difficulty_tuning_block_count != 0 && header.block().block_num
        % config.difficulty_tuning_block_count == 0
}

pub fn is_adjustment_block(header: &BlockHeader, config: &PowConfig) -> (epoch: bool)
    ensures
        epoch == is_epoch(header@.block_num, config.difficulty_adjustment_block_count),
{
    config.difficulty_adjustment_block_count != 0 && header.block().block_num
        % config.difficulty_adjustment_block_count == 0
}

/// Whether what the walk hands out is what the plain walk comes to.
pub open spec fn elapsed_as(
    item: Walk<Option<(Timestamp, u128)>>,
    plain: Walked<Option<(Seq<u8>, nat)>>,
    interval: u64,
) -> bool {
    match item {
        Walk::Need(block_id) => plain == Walked::<Option<(Seq<u8>, nat)>>::Need(block_id@),
        Walk::Done(None) => plain == Walked::<Option<(Seq<u8>, nat)>>::Done(None),
        Walk::Done(Some((since, expected))) => plain matches Walked::Done(Some((start, count)))
            && start == since@ && expected == count * interval,
    }
}

/// Walks back over the window of `total_count` blocks that ends with
/// `header`. Hands out the time at which the earliest block found was mined,
/// and the seconds expected for the blocks found at `expected_interval`
/// seconds each.
pub fn elapsed_time(
    header: &BlockHeader,
    chain: &ChainView,
    total_count: u64,
    expected_interval: u64,
) -> (item: Walk<Option<(Timestamp, u128)>>)
    ensures
        elapsed_as(item, elapsed(chain@, header@, total_count as nat), expected_interval),
{
    let mut count: u64 = 1;
    let mut since: Timestamp = header.consensus().timestamp.clone();
    let mut block_id: Vec<u8> = bytes_to_vec(header.block().previous_id.as_slice());
    let mut done: bool = false;
    while !done
        invariant
            count >= 1,
            !done ==> (count == 1 || count < total_count),
            !done ==> elapsed(chain@, header@, total_count as nat) == elapsed_from(
                chain@,
                block_id@,
                since@,
                count as nat,
                total_count as nat,
            ),
            done ==> elapsed(chain@, header@, total_count as nat) == Walked::Done(
                Some((since@, count as nat)),
            ),
        decreases
                (if done {
                    0
                } else if total_count > count {
                    1 + total_count - count
                } else {
                    1
                }),
    {
        match chain.lookup(block_id.as_slice()) {
            Lookup::Missing => {
                return Walk::Need(block_id);
            },
            Lookup::Unknown => {
                return Walk::Done(None);
            },
            Lookup::Found(block) => {
                match BlockConsensus::deserialize(block.payload.as_slice()) {
                    Err(_) => {
                        done = true;
                    },
                    Ok(consensus) => {
                        count += 1;
                        block_id = bytes_to_vec(block.previous_id.as_slice());
                        since = consensus.timestamp;
                        if count >= total_count {
                            done = true;
                        }
                    },
                }
            },
        }
    }
    assert((count as u128) * (expected_interval as u128) <= 0xffff_ffff_ffff_ffff
        * 0xffff_ffff_ffff_ffff) by (nonlinear_arith)
        requires
            count <= 0xffff_ffff_ffff_ffff,
            expected_interval <= 0xffff_ffff_ffff_ffff,
    ;
    Walk::Done(Some((since, (count as u128) * (expected_interval as u128))))
}

fn calculate_timed_difficulty(
    header: &BlockHeader,
    chain: &ChainView,
    window: Window,
    total_count: u64,
    config: &PowConfig,
) -> (plan: Walk<Retarget>)
    ensures
        plan_as(
            plan,
            timed_plan(
                chain@,
                header@,
                window,
                total_count,
                config.seconds_between_blocks,
                config.initial_difficulty,
            ),
        ),
{
    match elapsed_time(header, chain, total_count, config.seconds_between_blocks) {
        Walk::Need(block_id) => Walk::Need(block_id),
        Walk::Done(None) => Walk::Done(Retarget::Fixed(config.initial_difficulty)),
        Walk::Done(Some((since, expected_seconds))) => Walk::Done(
            Retarget::Timed {
                difficulty: header.consensus().difficulty,
                window,
                since,
                expected_seconds,
            },
        ),
    }
}

/// The retarget over the tuning window that ends with `header`.
pub fn calculate_tuning_difficulty(header: &BlockHeader, chain: &ChainView, config: &PowConfig) -> (plan:
    Walk<Retarget>)
    ensures
        plan_as(
            plan,
            timed_plan(
                chain@,
                header@,
                Window::Tuning,
                config.difficulty_tuning_block_count,
                config.seconds_between_blocks,
                config.initial_difficulty,
            ),
        ),
{
    calculate_timed_difficulty(
        header,
        chain,
        Window::Tuning,
        config.difficulty_tuning_block_count,
        config,
    )
}

/// The retarget over the adjustment window that ends with `header`.
pub fn calculate_adjustment_difficulty(
    header: &BlockHeader,
    chain: &ChainView,
    config: &PowConfig,
) -> (plan: Walk<Retarget>)
    ensures
        plan_as(
            plan,
            timed_plan(
                chain@,
                header@,
                Window::Adjustment,
                config.difficulty_adjustment_block_count,
                config.seconds_between_blocks,
                config.initial_difficulty,
            ),
        ),
{
    calculate_timed_difficulty(
        header,
        chain,
        Window::Adjustment,
        config.difficulty_adjustment_block_count,
        config,
    )
}

/// What the difficulty controller comes to for the successor of `header`.
pub fn get_difficulty(header: &BlockHeader, chain: &ChainView, config: &PowConfig) -> (plan: Walk<
    Retarget,
>)
    ensures
        plan_as(plan, difficulty_plan(chain@, header@, *config)),
{
    if header.is_genesis() {
        return Walk::Done(Retarget::Fixed(config.initial_difficulty));
    }
    if is_tuning_block(header, config) {
        calculate_tuning_difficulty(header, chain, config)
    } else if is_adjustment_block(header, config) {
        calculate_adjustment_difficulty(header, chain, config)
    } else {
        Walk::Done(Retarget::Fixed(header.consensus().difficulty))
    }
}

} // verus!
