use ccconsensus::node::config::get_setting;
use ccconsensus::node::{PowConfig, Setting};

fn settings(pairs: &[(&str, &str)]) -> Vec<Setting> {
    pairs
        .iter()
        .map(|(key, value)| Setting { key: key.to_string(), value: value.to_string() })
        .collect()
}

#[test]
fn defaults() {
    let config = PowConfig::new();
    assert_eq!(config.initial_difficulty, 22);
    assert_eq!(config.seconds_between_blocks, 60);
    assert_eq!(config.difficulty_adjustment_block_count, 10);
    assert_eq!(config.difficulty_tuning_block_count, 100);
    assert_eq!(PowConfig::default(), config);
}

#[test]
fn the_keys_that_are_read() {
    assert_eq!(
        PowConfig::consensus_chain_settings(),
        vec![
            "seconds_between_blocks".to_string(),
            "difficulty_adjustment_block_count".to_string(),
            "difficulty_tuning_block_count".to_string(),
            "initial_difficulty".to_string(),
        ]
    );
}

#[test]
fn load_takes_what_the_settings_give() {
    let mut config = PowConfig::new();
    config.load(&settings(&[
        ("seconds_between_blocks", "30"),
        ("difficulty_adjustment_block_count", "5"),
        ("difficulty_tuning_block_count", "50"),
        ("initial_difficulty", "12"),
    ]));
    assert_eq!(
        config,
        PowConfig {
            initial_difficulty: 12,
            seconds_between_blocks: 30,
            difficulty_adjustment_block_count: 5,
            difficulty_tuning_block_count: 50,
        }
    );
}

#[test]
fn load_without_settings_changes_nothing() {
    let mut config = PowConfig::new();
    config.initial_difficulty = 7;
    config.load(&Vec::new());
    assert_eq!(config.initial_difficulty, 7);
    assert_eq!(config.seconds_between_blocks, 60);
}

#[test]
fn load_passes_over_what_does_not_parse() {
    let mut config = PowConfig::new();
    config.load(&settings(&[
        ("seconds_between_blocks", "soon"),
        ("difficulty_adjustment_block_count", "-5"),
        ("difficulty_tuning_block_count", ""),
        ("initial_difficulty", "4294967296"),
    ]));
    assert_eq!(config, PowConfig::new());
    config.load(&settings(&[
        ("seconds_between_blocks", " 30"),
        ("difficulty_adjustment_block_count", "1.5"),
        ("initial_difficulty", "+9"),
    ]));
    assert_eq!(config.seconds_between_blocks, 60);
    assert_eq!(config.difficulty_adjustment_block_count, 10);
    assert_eq!(config.initial_difficulty, 9);
}

#[test]
fn load_keeps_a_field_whose_key_is_missing() {
    let mut config = PowConfig::new();
    config.load(&settings(&[("initial_difficulty", "3"), ("other", "99")]));
    assert_eq!(config.initial_difficulty, 3);
    assert_eq!(config.seconds_between_blocks, 60);
    assert_eq!(config.difficulty_adjustment_block_count, 10);
    assert_eq!(config.difficulty_tuning_block_count, 100);
}

#[test]
fn settings_view_starts_from_the_defaults() {
    let config = PowConfig::consensus_settings_view(&settings(&[("seconds_between_blocks", "1")]));
    assert_eq!(config.seconds_between_blocks, 1);
    assert_eq!(config.initial_difficulty, 22);
    assert_eq!(PowConfig::consensus_settings_view(&Vec::new()), PowConfig::new());
}

#[test]
fn the_first_setting_of_a_key_counts() {
    let all = settings(&[("initial_difficulty", "3"), ("initial_difficulty", "4")]);
    assert_eq!(get_setting("initial_difficulty", &all, u32::MAX as u64), Some(3));
    let all = settings(&[("initial_difficulty", "x"), ("initial_difficulty", "4")]);
    assert_eq!(get_setting("initial_difficulty", &all, u32::MAX as u64), None);
    assert_eq!(get_setting("missing", &all, u32::MAX as u64), None);
}

#[test]
fn zero_counts_are_taken_as_they_are() {
    let mut config = PowConfig::new();
    config.load(&settings(&[
        ("difficulty_adjustment_block_count", "0"),
        ("difficulty_tuning_block_count", "0"),
        ("seconds_between_blocks", "18446744073709551615"),
    ]));
    assert_eq!(config.difficulty_adjustment_block_count, 0);
    assert_eq!(config.difficulty_tuning_block_count, 0);
    assert_eq!(config.seconds_between_blocks, u64::MAX);
}
