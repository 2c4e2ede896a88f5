pub mod answer;
pub mod challenge;
pub mod error;
pub mod miner;
pub mod worker;

pub use self::answer::Answer;
pub use self::challenge::Challenge;
pub use self::error::MinerError;
pub use self::miner::{Miner, Prepared};
pub use self::worker::{MessageToMiner, MessageToWorker, Reaction, Worker};
