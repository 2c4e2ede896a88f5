use ccconsensus::block::{Block, BlockConsensus, ChainView};
use ccconsensus::miner::{
    Answer, Challenge, MessageToMiner, MessageToWorker, Miner, Prepared, Reaction, Worker,
};
use ccconsensus::node::PowConfig;
use ccconsensus::timestamp::Timestamp;
use ccconsensus::work::{digest_score, is_valid_proof_of_work, mkhash, Pace, Retarget};

fn challenge(difficulty: u32) -> Challenge {
    Challenge {
        difficulty,
        timestamp: Timestamp::parse(b"1700000000.5").unwrap(),
        block_id: b"1111111111111111".to_vec(),
        peer_id: b"1111111111111111".to_vec(),
    }
}

fn answer(difficulty: u32, nonce: u64) -> Answer {
    Answer { challenge: challenge(difficulty), nonce }
}

/// Runs the search until it gives an answer, and hands the answer to the miner.
fn next_consensus(worker: &mut Worker, miner: &mut Miner) -> Vec<u8> {
    loop {
        if let Some(answer) = worker.examine() {
            assert_eq!(worker.react(None), Reaction::Continue);
            if let Some(consensus) = miner.try_create_consensus(vec![MessageToMiner::Solved(answer)])
            {
                return consensus;
            }
        } else {
            assert_eq!(worker.react(None), Reaction::Continue);
        }
    }
}

#[test]
fn default_miner() {
    let mut m = Miner::default();
    assert!(!m.has_answer());
    assert!(m.try_create_consensus(Vec::new()).is_none());
}

#[test]
/// Worker shouldn't stop unless shutdown.
/// Refine the answer until it receives a new challenge.
/// It shouldn't yield an answer twice.
fn worker_wont_stop() {
    let mut miner = Miner::default();
    let mut worker = Worker::start(challenge(12));
    let mut consensus: Vec<u8> = next_consensus(&mut worker, &mut miner);
    //Don't return the same answer when polled again
    assert!(miner.try_create_consensus(Vec::new()).is_none());
    let new = next_consensus(&mut worker, &mut miner);
    assert_ne!(consensus, new);
    //Restart challenge
    assert_eq!(
        worker.react(Some(MessageToWorker::Challenge(challenge(12)))),
        Reaction::Started
    );
    assert!(miner.try_create_consensus(vec![MessageToMiner::Started]).is_none());
    let new = next_consensus(&mut worker, &mut miner);
    assert_ne!(consensus, new);
    consensus = new;
    let new = next_consensus(&mut worker, &mut miner);
    assert_ne!(consensus, new);
}

#[test]
fn first_pow_block_difficulty() {
    let config = PowConfig::new();
    let mut chain = ChainView::new();
    let mut miner = Miner::default();
    let block_id = b"1111111111111111".to_vec();
    let peer_id = b"2222222222222222".to_vec();
    chain.record(block_id.clone(), Some(Block::default()));
    let plan = match Miner::prepare(&block_id, &chain, &config) {
        Prepared::Plan(plan) => plan,
        other => panic!("expected a plan, got {:?}", other),
    };
    assert!(matches!(plan, Retarget::Fixed(22)));
    let difficulty = plan.settle(Pace::OnTarget);
    let challenge = miner.mine(block_id, peer_id, difficulty, Timestamp::parse(b"5").unwrap());
    // first block's difficulty should be pulled from config
    assert_eq!(challenge.difficulty, config.initial_difficulty);
    let mut config = config;
    config.initial_difficulty = 6;
    let mut chain = ChainView::new();
    chain.record(b"head".to_vec(), Some(Block::default()));
    let plan = match Miner::prepare(b"head", &chain, &config) {
        Prepared::Plan(plan) => plan,
        other => panic!("expected a plan, got {:?}", other),
    };
    let challenge = miner.mine(
        b"head".to_vec(),
        b"peer".to_vec(),
        plan.settle(Pace::Fast),
        Timestamp::parse(b"5").unwrap(),
    );
    let mut worker = Worker::start(challenge);
    loop {
        if let Some(ans) = worker.examine() {
            assert_eq!(ans.challenge.difficulty, 6);
            break;
        }
        worker.react(None);
    }
}

#[test]
fn prepare_asks_for_the_block_it_lacks() {
    let config = PowConfig::new();
    let chain = ChainView::new();
    match Miner::prepare(b"head", &chain, &config) {
        Prepared::Need(block_id) => assert_eq!(block_id, b"head".to_vec()),
        other => panic!("expected a need, got {:?}", other),
    }
    let mut chain = ChainView::new();
    chain.record(b"head".to_vec(), None);
    match Miner::prepare(b"head", &chain, &config) {
        Prepared::UnknownBlock(block_id) => assert_eq!(block_id, b"head".to_vec()),
        other => panic!("expected an unknown block, got {:?}", other),
    }
    let mut chain = ChainView::new();
    let mut broken = Block::default();
    broken.block_num = 4;
    broken.payload = b"woo:1:1:1".to_vec();
    chain.record(b"head".to_vec(), Some(broken));
    assert!(matches!(
        Miner::prepare(b"head", &chain, &config),
        Prepared::NoHeader(_)
    ));
}

#[test]
fn mine_drops_the_answer_to_the_challenge_before() {
    let mut miner = Miner::default();
    miner.absorb(vec![MessageToMiner::Solved(answer(3, 9))]);
    assert!(miner.has_answer());
    let challenge = miner.mine(
        b"head".to_vec(),
        b"peer".to_vec(),
        17,
        Timestamp::parse(b"12.25").unwrap(),
    );
    assert!(!miner.has_answer());
    assert_eq!(challenge.difficulty, 17);
    assert_eq!(challenge.block_id, b"head".to_vec());
    assert_eq!(challenge.peer_id, b"peer".to_vec());
    assert_eq!(challenge.timestamp.as_bytes(), b"12.25");
}

#[test]
fn the_latest_message_decides_the_answer() {
    let mut miner = Miner::default();
    let consensus = miner.try_create_consensus(vec![
        MessageToMiner::Started,
        MessageToMiner::Solved(answer(3, 9)),
        MessageToMiner::Solved(answer(5, 11)),
    ]);
    assert_eq!(consensus, Some(b"PoW:5:11:1700000000.5".to_vec()));
    let consensus = miner.try_create_consensus(vec![
        MessageToMiner::Solved(answer(3, 9)),
        MessageToMiner::Started,
    ]);
    assert_eq!(consensus, None);
}

#[test]
fn an_answer_is_handed_out_once() {
    let mut miner = Miner::default();
    miner.absorb(vec![MessageToMiner::Solved(answer(3, 9))]);
    assert!(miner.has_answer());
    assert_eq!(
        miner.try_create_consensus(Vec::new()),
        Some(b"PoW:3:9:1700000000.5".to_vec())
    );
    assert!(!miner.has_answer());
    assert_eq!(miner.try_create_consensus(Vec::new()), None);
}

#[test]
fn started_drops_a_kept_answer() {
    let mut miner = Miner::default();
    miner.absorb(vec![MessageToMiner::Solved(answer(3, 9))]);
    miner.absorb(vec![MessageToMiner::Started]);
    assert!(!miner.has_answer());
}

#[test]
fn answer_payload_carries_challenge_and_nonce() {
    let consensus = BlockConsensus::deserialize(&answer(22, 4711).to_consensus()).unwrap();
    assert!(consensus.is_pow());
    assert_eq!(consensus.difficulty, 22);
    assert_eq!(consensus.nonce, 4711);
    assert_eq!(consensus.timestamp.as_bytes(), b"1700000000.5");
}

#[test]
fn answers_reach_strictly_more_and_differ_in_nonce() {
    let mut worker = Worker::start_at(challenge(4), 0);
    let mut answers: Vec<Answer> = Vec::new();
    let mut rounds = 0;
    while answers.len() < 4 && rounds < 2_000_000 {
        if let Some(answer) = worker.examine() {
            answers.push(answer);
        }
        worker.react(None);
        rounds += 1;
    }
    assert_eq!(answers.len(), 4);
    let scores: Vec<u32> = answers
        .iter()
        .map(|a| digest_score(&mkhash(&a.challenge.block_id, &a.challenge.peer_id, a.nonce)))
        .collect();
    assert!(scores[0] >= 4);
    for pair in scores.windows(2) {
        assert!(pair[0] < pair[1]);
    }
    for (index, answer) in answers.iter().enumerate() {
        for other in &answers[index + 1..] {
            assert_ne!(answer.nonce, other.nonce);
        }
    }
    // each answer carries the difficulty that it had to reach
    assert_eq!(answers[0].challenge.difficulty, 4);
    for index in 1..answers.len() {
        assert_eq!(answers[index].challenge.difficulty, scores[index - 1]);
    }
    assert_eq!(worker.challenge().difficulty, scores[3]);
}

#[test]
fn the_first_answer_may_just_reach_the_difficulty() {
    // find a nonce that reaches exactly its score, and ask for that score
    let mut nonce: u64 = 0;
    let target = loop {
        let score = digest_score(&mkhash(b"1111111111111111", b"1111111111111111", nonce));
        if score >= 3 {
            break score;
        }
        nonce += 1;
    };
    let mut worker = Worker::start_at(challenge(target), nonce);
    let first = worker.examine().expect("the first answer");
    assert_eq!(first.nonce, nonce);
    assert_eq!(first.challenge.difficulty, target);
    // the same score is no second answer
    assert!(worker.examine().is_none());
    let (valid, realized) =
        is_valid_proof_of_work(&mkhash(b"1111111111111111", b"1111111111111111", nonce), target);
    assert!(valid);
    assert_eq!(realized, target);
}

#[test]
fn the_search_moves_on_by_one_and_wraps() {
    let mut worker = Worker::start_at(challenge(200), 41);
    assert!(worker.examine().is_none());
    assert_eq!(worker.react(None), Reaction::Continue);
    assert_eq!(worker.nonce(), 42);
    let mut worker = Worker::start_at(challenge(200), u64::MAX);
    assert_eq!(worker.react(None), Reaction::Continue);
    assert_eq!(worker.nonce(), 0);
}

#[test]
fn a_new_challenge_starts_the_search_over() {
    let mut worker = Worker::start_at(challenge(1), 0);
    while worker.examine().is_none() {
        worker.react(None);
    }
    let raised = worker.challenge().difficulty;
    assert!(raised >= 1);
    let update = Challenge {
        difficulty: 0,
        timestamp: Timestamp::parse(b"2").unwrap(),
        block_id: b"other".to_vec(),
        peer_id: b"peer".to_vec(),
    };
    assert_eq!(
        worker.react(Some(MessageToWorker::Challenge(update))),
        Reaction::Started
    );
    assert_eq!(worker.challenge().difficulty, 0);
    assert_eq!(worker.challenge().block_id, b"other".to_vec());
    assert!(worker.nonce() < u64::MAX);
    // every nonce answers a challenge of difficulty zero, once
    let first = worker.examine().expect("the first answer");
    assert_eq!(first.challenge.difficulty, 0);
    assert_eq!(first.challenge.timestamp.as_bytes(), b"2");
}

#[test]
fn shutdown_ends_the_search_where_it_stands() {
    let mut worker = Worker::start_at(challenge(9), 77);
    assert_eq!(
        worker.react(Some(MessageToWorker::Shutdown)),
        Reaction::Shutdown
    );
    assert_eq!(worker.nonce(), 77);
    assert_eq!(worker.challenge().difficulty, 9);
}

#[test]
fn a_random_start_differs_between_searches() {
    let mut nonces: Vec<u64> = Vec::new();
    for _ in 0..8 {
        let worker = Worker::start(challenge(1));
        assert!(worker.nonce() < u64::MAX);
        nonces.push(worker.nonce());
    }
    nonces.sort();
    nonces.dedup();
    assert!(nonces.len() > 1);
}
