use ccconsensus::block::{Block, BlockConsensus, BlockHeader, ChainView, Walk};
use ccconsensus::node::PowConfig;
use ccconsensus::timestamp::Timestamp;
use ccconsensus::work::{
    calculate_adjustment_difficulty, calculate_tuning_difficulty, elapsed_time, get_difficulty,
    is_adjustment_block, is_tuning_block, Pace, Retarget, Window,
};

fn id(num: u64) -> Vec<u8> {
    format!("block-{}", num).into_bytes()
}

fn pow_block(num: u64, difficulty: u32, seconds: u64) -> Block {
    let timestamp = Timestamp::parse(format!("{}", seconds).as_bytes()).unwrap();
    Block {
        block_id: id(num),
        previous_id: if num == 0 { Vec::new() } else { id(num - 1) },
        signer_id: b"signer".to_vec(),
        block_num: num,
        payload: if num == 0 {
            Vec::new()
        } else {
            BlockConsensus::serialize(difficulty, &timestamp, num)
        },
        summary: Vec::new(),
    }
}

/// A chain from the block at height zero up to `height`, a block every second.
fn chain_up_to(height: u64, difficulty: u32) -> ChainView {
    let mut chain = ChainView::new();
    for num in 0..=height {
        chain.record(id(num), Some(pow_block(num, difficulty, 1000 + num)));
    }
    chain
}

fn header(num: u64, difficulty: u32) -> BlockHeader {
    BlockHeader::owned(pow_block(num, difficulty, 1000 + num)).unwrap()
}

fn plan(item: Walk<Retarget>) -> Retarget {
    match item {
        Walk::Done(plan) => plan,
        Walk::Need(block_id) => panic!("the walk needs {:?}", block_id),
    }
}

#[test]
fn genesis_parent_gives_the_initial_difficulty() {
    let config = PowConfig::new();
    let chain = ChainView::new();
    let genesis = header(0, 0);
    let plan = plan(get_difficulty(&genesis, &chain, &config));
    assert!(matches!(plan, Retarget::Fixed(22)));
    assert_eq!(plan.settle(Pace::Fast), 22);
    assert_eq!(plan.settle(Pace::Slow), 22);
}

#[test]
fn between_epochs_the_declared_difficulty_stays() {
    let config = PowConfig::new();
    let chain = ChainView::new();
    for num in [1u64, 7, 11, 99, 101] {
        let parent = header(num, 40);
        assert!(!is_tuning_block(&parent, &config));
        assert!(!is_adjustment_block(&parent, &config));
        let plan = plan(get_difficulty(&parent, &chain, &config));
        assert!(matches!(plan, Retarget::Fixed(40)));
    }
}

#[test]
fn epochs_are_multiples_of_the_counts() {
    let config = PowConfig::new();
    assert!(is_adjustment_block(&header(10, 1), &config));
    assert!(is_adjustment_block(&header(20, 1), &config));
    assert!(!is_tuning_block(&header(20, 1), &config));
    assert!(is_tuning_block(&header(100, 1), &config));
    assert!(is_adjustment_block(&header(100, 1), &config));
    let mut none = PowConfig::new();
    none.difficulty_tuning_block_count = 0;
    none.difficulty_adjustment_block_count = 0;
    assert!(!is_tuning_block(&header(100, 1), &none));
    assert!(!is_adjustment_block(&header(10, 1), &none));
}

#[test]
fn adjustment_epoch_looks_back_over_its_window() {
    let config = PowConfig::new();
    let chain = chain_up_to(20, 30);
    let parent = header(20, 30);
    match plan(get_difficulty(&parent, &chain, &config)) {
        Retarget::Timed { difficulty, window, since, expected_seconds } => {
            assert_eq!(difficulty, 30);
            assert_eq!(window, Window::Adjustment);
            // ten blocks: the parent and nine before it, the earliest mined at 1011
            assert_eq!(since.as_bytes(), b"1011");
            assert_eq!(expected_seconds, 600);
        }
        other => panic!("expected a timed plan, got {:?}", other),
    }
}

#[test]
fn tuning_takes_precedence_over_adjustment() {
    let config = PowConfig::new();
    let chain = chain_up_to(200, 30);
    let parent = header(200, 30);
    match plan(get_difficulty(&parent, &chain, &config)) {
        Retarget::Timed { window, since, expected_seconds, .. } => {
            assert_eq!(window, Window::Tuning);
            assert_eq!(since.as_bytes(), b"1101");
            assert_eq!(expected_seconds, 6000);
        }
        other => panic!("expected a timed plan, got {:?}", other),
    }
    match plan(calculate_adjustment_difficulty(&parent, &chain, &config)) {
        Retarget::Timed { window, expected_seconds, .. } => {
            assert_eq!(window, Window::Adjustment);
            assert_eq!(expected_seconds, 600);
        }
        other => panic!("expected a timed plan, got {:?}", other),
    }
    match plan(calculate_tuning_difficulty(&parent, &chain, &config)) {
        Retarget::Timed { window, .. } => assert_eq!(window, Window::Tuning),
        other => panic!("expected a timed plan, got {:?}", other),
    }
}

#[test]
fn the_walk_stops_at_a_block_without_pow_payload() {
    let config = PowConfig::new();
    // the chain starts at height zero, so the window of block 10 ends there
    let chain = chain_up_to(10, 30);
    let parent = header(10, 30);
    match plan(get_difficulty(&parent, &chain, &config)) {
        Retarget::Timed { since, expected_seconds, .. } => {
            // ten blocks counted: heights 10 down to 1
            assert_eq!(since.as_bytes(), b"1001");
            assert_eq!(expected_seconds, 600);
        }
        other => panic!("expected a timed plan, got {:?}", other),
    }
    let mut short = PowConfig::new();
    short.difficulty_adjustment_block_count = 4;
    short.difficulty_tuning_block_count = 1000;
    let mut chain = ChainView::new();
    chain.record(id(3), Some(pow_block(3, 30, 1003)));
    let mut foreign = pow_block(2, 30, 1002);
    foreign.payload = b"other consensus".to_vec();
    chain.record(id(2), Some(foreign));
    let parent = header(4, 30);
    match plan(get_difficulty(&parent, &chain, &short)) {
        Retarget::Timed { since, expected_seconds, .. } => {
            // the parent and block 3 were counted
            assert_eq!(since.as_bytes(), b"1003");
            assert_eq!(expected_seconds, 120);
        }
        other => panic!("expected a timed plan, got {:?}", other),
    }
}

#[test]
fn an_unknown_block_falls_back_to_the_initial_difficulty() {
    let config = PowConfig::new();
    let mut chain = ChainView::new();
    chain.record(id(19), Some(pow_block(19, 30, 1019)));
    chain.record(id(18), None);
    let parent = header(20, 30);
    let plan = plan(get_difficulty(&parent, &chain, &config));
    assert!(matches!(plan, Retarget::Fixed(22)));
}

#[test]
fn the_walk_names_the_block_it_lacks() {
    let config = PowConfig::new();
    let mut chain = ChainView::new();
    let parent = header(20, 30);
    match get_difficulty(&parent, &chain, &config) {
        Walk::Need(block_id) => assert_eq!(block_id, id(19)),
        Walk::Done(plan) => panic!("expected a need, got {:?}", plan),
    }
    chain.record(id(19), Some(pow_block(19, 30, 1019)));
    match get_difficulty(&parent, &chain, &config) {
        Walk::Need(block_id) => assert_eq!(block_id, id(18)),
        Walk::Done(plan) => panic!("expected a need, got {:?}", plan),
    }
}

#[test]
fn elapsed_time_looks_at_one_block_at_least() {
    let chain = chain_up_to(5, 30);
    let parent = header(5, 30);
    for total in [0u64, 1, 2] {
        match elapsed_time(&parent, &chain, total, 60) {
            Walk::Done(Some((since, expected))) => {
                assert_eq!(since.as_bytes(), b"1004");
                assert_eq!(expected, 120);
            }
            other => panic!("expected a window, got {:?}", other),
        }
    }
    match elapsed_time(&parent, &chain, 3, 7) {
        Walk::Done(Some((since, expected))) => {
            assert_eq!(since.as_bytes(), b"1003");
            assert_eq!(expected, 21);
        }
        other => panic!("expected a window, got {:?}", other),
    }
}

#[test]
fn expected_seconds_do_not_overflow() {
    let chain = chain_up_to(5, 30);
    let parent = header(5, 30);
    match elapsed_time(&parent, &chain, 3, u64::MAX) {
        Walk::Done(Some((_, expected))) => assert_eq!(expected, 3 * (u64::MAX as u128)),
        other => panic!("expected a window, got {:?}", other),
    }
}

#[test]
fn a_timed_plan_moves_by_one_at_most() {
    let timed = |difficulty: u32| Retarget::Timed {
        difficulty,
        window: Window::Tuning,
        since: Timestamp::parse(b"1").unwrap(),
        expected_seconds: 60,
    };
    assert_eq!(timed(30).settle(Pace::Fast), 31);
    assert_eq!(timed(30).settle(Pace::OnTarget), 30);
    assert_eq!(timed(30).settle(Pace::Slow), 29);
    assert_eq!(timed(254).settle(Pace::Fast), 255);
    assert_eq!(timed(255).settle(Pace::Fast), 255);
    assert_eq!(timed(255).settle(Pace::Slow), 254);
    assert_eq!(timed(0).settle(Pace::Slow), 0);
    assert_eq!(timed(0).settle(Pace::Fast), 1);
    assert_eq!(timed(1).settle(Pace::Slow), 0);
    for difficulty in 0..=255u32 {
        for pace in [Pace::Fast, Pace::OnTarget, Pace::Slow] {
            let next = timed(difficulty).settle(pace);
            assert!(next <= 255);
            assert!(next + 1 >= difficulty && next <= difficulty + 1);
        }
    }
}

#[test]
fn a_difficulty_above_255_is_not_raised() {
    let timed = Retarget::Timed {
        difficulty: 300,
        window: Window::Adjustment,
        since: Timestamp::parse(b"1").unwrap(),
        expected_seconds: 60,
    };
    assert_eq!(timed.settle(Pace::Fast), 300);
    assert_eq!(timed.settle(Pace::Slow), 299);
}
