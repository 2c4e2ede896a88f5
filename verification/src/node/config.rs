use vstd::prelude::*;
use vstd::utf8::encode_utf8;
use crate::decimal::{parse_bounded, parse_unsigned};

verus! {

pub const INITIAL_DIFFICULTY: u32 = 22;

pub const SECONDS_BETWEEN_BLOCKS: u64 = 60;

pub const DIFFICULTY_ADJUSTMENT_BLOCK_COUNT: u64 = 10;

pub const DIFFICULTY_TUNING_BLOCK_COUNT: u64 = 100;

/// One on-chain setting as the validator hands it out.
#[derive(Debug)]
pub struct Setting {
    pub key: String,
    pub value: String,
}

/// What governs mining and publishing.
#[derive(Clone, Copy, Debug, PartialEq, Eq, Structural)]
pub struct PowConfig {
    pub initial_difficulty: u32,
    pub seconds_between_blocks: u64,
    pub difficulty_adjustment_block_count: u64,
    pub difficulty_tuning_block_count: u64,
}

/// The configuration that holds where the chain sets nothing.
pub open spec fn default_config() -> PowConfig {
    PowConfig {
        initial_difficulty: 22,
        seconds_between_blocks: 60,
        difficulty_adjustment_block_count: 10,
        difficulty_tuning_block_count: 100,
    }
}

/// The text that the settings give for `key`: that of the first setting of that key.
pub open spec fn setting_text(settings: Seq<Setting>, key: Seq<char>) -> Option<Seq<char>>
    decreases settings.len(),
{
    if settings.len() == 0 {
        None
    } else if settings[0].key@ == key {
        Some(settings[0].value@)
    } else {
        setting_text(settings.skip(1), key)
    }
}

/// The number that the settings give for `key`, if they give a text for it
/// that is an unsigned decimal number of at most `max`.
pub open spec fn setting_value(settings: Seq<Setting>, key: Seq<char>, max: nat) -> Option<nat> {
    match setting_text(settings, key) {
        Some(text) => match parse_unsigned(encode_utf8(text), max) {
            Ok(value) => Some(value),
            Err(_) => None,
        },
        None => None,
    }
}

/// The value of a field after loading: the number that the settings give
/// for its key, else the value it had.
pub open spec fn loaded(settings: Seq<Setting>, key: Seq<char>, max: nat, current: nat) -> nat {
    match setting_value(settings, key, max) {
        Some(value) => value,
        None => current,
    }
}

/// The configuration after loading `settings` into `config`.
pub open spec fn loaded_config(config: PowConfig, settings: Seq<Setting>) -> PowConfig {
    PowConfig {
        initial_difficulty: loaded(
            settings,
            "initial_difficulty"@,
            u32::MAX as nat,
            config.initial_difficulty as nat,
        ) as u32,
        seconds_between_blocks: loaded(
            settings,
            "seconds_between_blocks"@,
            u64::MAX as nat,
            config.seconds_between_blocks as nat,
        ) as u64,
        difficulty_adjustment_block_count: loaded(
            settings,
            "difficulty_adjustment_block_count"@,
            u64::MAX as nat,
            config.difficulty_adjustment_block_count as nat,
        ) as u64,
        difficulty_tuning_block_count: loaded(
            settings,
            "difficulty_tuning_block_count"@,
            u64::MAX as nat,
            config.difficulty_tuning_block_count as nat,
        ) as u64,
    }
}

/// The number that the settings give for `key`, if any that does not exceed `max`.
pub fn get_setting(key: &str, settings: &Vec<Setting>, max: u64) -> (value: Option<u64>)
    ensures
        match value {
            Some(value) => setting_value(settings@, key@, max as nat) == Some(value as nat),
            None => setting_value(settings@, key@, max as nat) is None,
        },
{
    let wanted: String = String::from_str(key);
    let mut i: usize = 0;
    assert(settings@.skip(0) =~= settings@);
    while i < settings.len()
        invariant
            i <= settings@.len(),
            wanted@ == key@,
            setting_text(settings@, key@) == setting_text(settings@.skip(i as int), key@),
        decreases settings@.len() - i,
    {
        assert(settings@.skip(i as int).skip(1) =~= settings@.skip(i + 1));
        if settings[i].key == wanted {
            return match parse_bounded(settings[i].value.as_str().as_bytes(), max) {
                Ok(value) => Some(value),
                Err(_) => None,
            };
        }
        i += 1;
    }
    None
}

impl Default for PowConfig {
    fn default() -> (config: Self)
        ensures
            config == default_config(),
    {
        Self {
            initial_difficulty: INITIAL_DIFFICULTY,
            seconds_between_blocks: SECONDS_BETWEEN_BLOCKS,
            difficulty_adjustment_block_count: DIFFICULTY_ADJUSTMENT_BLOCK_COUNT,
            difficulty_tuning_block_count: DIFFICULTY_TUNING_BLOCK_COUNT,
        }
    }
}

impl PowConfig {
    pub fn new() -> (config: Self)
        ensures
            config == default_config(),
    {
        Self {
            initial_difficulty: INITIAL_DIFFICULTY,
            seconds_between_blocks: SECONDS_BETWEEN_BLOCKS,
            difficulty_adjustment_block_count: DIFFICULTY_ADJUSTMENT_BLOCK_COUNT,
            difficulty_tuning_block_count: DIFFICULTY_TUNING_BLOCK_COUNT,
        }
    }

    /// The keys of the on-chain settings that the configuration is read from.
    pub fn consensus_chain_settings() -> (keys: Vec<String>)
        ensures
            keys@.len() == 4,
            keys@[0]@ == "seconds_between_blocks"@,
            keys@[1]@ == "difficulty_adjustment_block_count"@,
            keys@[2]@ == "difficulty_tuning_block_count"@,
            keys@[3]@ == "initial_difficulty"@,
    {
        let mut keys: Vec<String> = Vec::new();
        keys.push(String::from_str("seconds_between_blocks"));
        keys.push(String::from_str("difficulty_adjustment_block_count"));
        keys.push(String::from_str("difficulty_tuning_block_count"));
        keys.push(String::from_str("initial_difficulty"));
        keys
    }

    /// The configuration that the settings describe: the default, with
    /// every value that the settings give in its place.
    pub fn consensus_settings_view(settings: &Vec<Setting>) -> (config: Self)
        ensures
            config == loaded_config(default_config(), settings@),
    {
        let mut config = Self::new();
        config.load(settings);
        config
    }

    /// Takes over every value that the settings give. A setting that is
    /// missing, or whose text is no number that fits, leaves its field as it is.
    pub fn load(&mut self, settings: &Vec<Setting>)
        ensures
            *final(self) == loaded_config(*old(self), settings@),
    {
        if let Some(value) = get_setting("seconds_between_blocks", settings, 0xffff_ffff_ffff_ffff) {
            if self.seconds_between_blocks != value {
                self.seconds_between_blocks = value;
            }
        }
        if let Some(value) = get_setting(
            "difficulty_adjustment_block_count",
            settings,
            0xffff_ffff_ffff_ffff,
        ) {
            if self.difficulty_adjustment_block_count != value {
                self.difficulty_adjustment_block_count = value;
            }
        }
        if let Some(value) = get_setting(
            "difficulty_tuning_block_count",
            settings,
            0xffff_ffff_ffff_ffff,
        ) {
            if self.difficulty_tuning_block_count != value {
                self.difficulty_tuning_block_count = value;
            }
        }
        if let Some(value) = get_setting("initial_difficulty", settings, 0xffff_ffff) {
            if self.initial_difficulty != value as u32 {
                self.initial_difficulty = value as u32;
            }
        }
    }
}

} // verus!
