use ccconsensus::block::{Block, BlockConsensus, BlockHeader, ConsensusError};
use ccconsensus::miner::{Challenge, Worker};
use ccconsensus::timestamp::Timestamp;
use ccconsensus::wide::Work;
use ccconsensus::work::{digest_score, mkhash};

fn block(num: u64, id: &[u8], previous: &[u8], signer: &[u8], payload: &[u8]) -> Block {
    Block {
        block_id: id.to_vec(),
        previous_id: previous.to_vec(),
        signer_id: signer.to_vec(),
        block_num: num,
        payload: payload.to_vec(),
        summary: Vec::new(),
    }
}

fn realized(previous: &[u8], signer: &[u8], nonce: u64) -> u32 {
    digest_score(&mkhash(previous, signer, nonce))
}

fn nonce_reaching(previous: &[u8], signer: &[u8], target: u32) -> u64 {
    let mut nonce: u64 = 0;
    while realized(previous, signer, nonce) < target {
        nonce += 1;
    }
    nonce
}

fn payload(difficulty: u32, nonce: u64) -> Vec<u8> {
    BlockConsensus::serialize(difficulty, &Timestamp::parse(b"100.5").unwrap(), nonce)
}

#[test]
///Validate proof of work could mistakenly return the expected difficulty instead of the actual difficulty.
fn validate_proof_of_work_returns_actual_diff() {
    let mut b = Block::default();

    let challenge = Challenge {
        difficulty: 7,
        timestamp: Timestamp::parse(b"1.5").unwrap(),
        block_id: b"1111111111111111".to_vec(),
        peer_id: b"2222222222222222".to_vec(),
    };
    let mut worker = Worker::start(challenge);

    loop {
        if let Some(answer) = worker.examine() {
            b.payload = answer.to_consensus();
            break;
        }
        worker.react(None);
    }

    let block_header = BlockHeader::borrowed(&b).expect("test-block");
    let exp_diff = 0;
    let actual_diff = block_header.validate_proof_of_work(exp_diff).unwrap();
    assert_ne!(actual_diff, exp_diff);
}

#[test]
fn genesis_has_the_default_consensus() {
    let genesis = block(0, b"g", b"", b"s", b"not a payload");
    let header = BlockHeader::owned(genesis).unwrap();
    assert!(header.is_genesis());
    assert!(!header.consensus().is_pow());
    assert_eq!(header.consensus().difficulty, 0);
    assert_eq!(header.consensus().nonce, 0);
    assert_eq!(header.block().block_id, b"g".to_vec());
}

#[test]
fn genesis_is_valid_whatever_is_required() {
    let genesis = block(0, b"g", b"", b"s", b"");
    let header = BlockHeader::owned(genesis).unwrap();
    assert!(header.validate(255).is_ok());
}

#[test]
fn header_holds_what_the_payload_says() {
    let b = block(3, b"b3", b"b2", b"signer", b"PoW:30:123:500.555");
    let header = BlockHeader::borrowed(&b).unwrap();
    assert!(!header.is_genesis());
    assert!(header.consensus().is_pow());
    assert_eq!(header.consensus().difficulty, 30);
    assert_eq!(header.consensus().nonce, 123);
    assert_eq!(header.consensus().timestamp.as_bytes(), b"500.555");
    assert_eq!(header.block().previous_id, b"b2".to_vec());
    assert_eq!(header.clone().block().block_num, 3);
}

#[test]
fn header_of_a_malformed_payload_fails() {
    let b = block(3, b"b3", b"b2", b"signer", b"woo:1:1:1");
    assert!(matches!(
        BlockHeader::borrowed(&b),
        Err(ConsensusError::NotPoWError(_))
    ));
    let b = block(3, b"b3", b"b2", b"signer", b"PoW:1:x:1");
    assert!(matches!(
        BlockHeader::owned(b),
        Err(ConsensusError::ParsingError(_))
    ));
    let b = block(1, b"b1", b"b0", b"signer", b"");
    assert!(matches!(
        BlockHeader::owned(b),
        Err(ConsensusError::ParsingError(_))
    ));
}

#[test]
fn validation_compares_the_realized_score() {
    let nonce = nonce_reaching(b"parent", b"signer", 6);
    let reached = realized(b"parent", b"signer", nonce);
    assert!(reached >= 6);
    let b = block(5, b"child", b"parent", b"signer", &payload(3, nonce));
    let header = BlockHeader::borrowed(&b).unwrap();
    assert_eq!(header.realized(), reached);
    assert_eq!(header.validate_proof_of_work(reached).unwrap(), reached);
    assert_eq!(header.validate_proof_of_work(0).unwrap(), reached);
    assert!(header.clone().validate(reached).is_ok());
    match header.validate_proof_of_work(reached + 1) {
        Err(ConsensusError::InvalidHash(message)) => {
            assert_eq!(message, format!("(Expected {}, got {})", reached + 1, reached))
        }
        other => panic!("expected InvalidHash, got {:?}", other),
    }
    assert!(matches!(
        header.validate(reached + 1),
        Err(ConsensusError::InvalidHash(_))
    ));
}

#[test]
fn the_hash_is_taken_over_predecessor_and_signer() {
    let b = block(5, b"child", b"parent", b"signer", &payload(3, 41));
    let header = BlockHeader::borrowed(&b).unwrap();
    assert_eq!(header.realized(), realized(b"parent", b"signer", 41));
}

#[test]
fn work_is_two_to_the_realized_score() {
    let nonce = nonce_reaching(b"parent", b"signer", 5);
    let reached = realized(b"parent", b"signer", nonce);
    let b = block(5, b"child", b"parent", b"signer", &payload(1, nonce));
    let header = BlockHeader::borrowed(&b).unwrap();
    assert!(header.work().equals(&Work::pow2(reached)));
    assert!(header.work().exceeds(&Work::pow2(reached - 1)));
    assert!(Work::pow2(reached + 1).exceeds(&header.work()));
}
