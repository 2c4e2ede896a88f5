use ccconsensus::engine::{major_minor, PowEngine};
use ccconsensus::node::{PowConfig, PowState};

#[test]
fn engine_metadata() {
    let engine = PowEngine::new();
    assert_eq!(engine.name(), "PoW");
    assert_eq!(engine.version(), "0.1");
    assert!(engine.additional_protocols().is_empty());
}

#[test]
fn the_version_is_the_package_version_without_its_patch() {
    let engine = PowEngine::default();
    assert_eq!(
        engine.version().into_bytes(),
        major_minor(b"0.1.0").unwrap()
    );
}

#[test]
fn major_minor_drops_what_follows_the_last_point() {
    assert_eq!(major_minor(b"0.1.0"), Some(b"0.1".to_vec()));
    assert_eq!(major_minor(b"12.34.56"), Some(b"12.34".to_vec()));
    assert_eq!(major_minor(b"1.2"), Some(b"1".to_vec()));
    assert_eq!(major_minor(b"1."), Some(b"1".to_vec()));
    assert_eq!(major_minor(b".5"), Some(Vec::new()));
    assert_eq!(major_minor(b"7"), None);
    assert_eq!(major_minor(b""), None);
}

#[test]
fn the_node_takes_the_configuration_of_the_engine() {
    let mut config = PowConfig::new();
    config.initial_difficulty = 3;
    let mut engine = PowEngine::with_config(config);
    let node = engine.init_node();
    assert_eq!(node.config().initial_difficulty, 3);
    assert!(!node.is_waiting());
    // the configuration is handed over once
    let node = engine.init_node();
    assert_eq!(*node.config(), PowConfig::new());
}

#[test]
fn an_engine_without_configuration_starts_with_the_defaults() {
    let mut engine = PowEngine::new();
    let node = engine.init_node();
    assert_eq!(*node.config(), PowConfig::new());
    assert!(node.state().chain_head.is_empty());
    assert!(node.state().peer_id.is_empty());
    assert!(node.state().guards.is_empty());
}

#[test]
fn a_new_state_is_empty() {
    let state = PowState::new();
    assert!(state.chain_head.is_empty());
    assert!(state.peer_id.is_empty());
    assert!(state.guards.is_empty());
    assert!(state.guards.to_vec().is_empty());
    let state = PowState::default();
    assert!(state.guards.is_empty());
}
