pub mod block_ancestors;
pub mod block_consensus;
pub mod block_header;
pub mod chain;
pub mod paired_fork;

pub use self::block_ancestors::BlockAncestors;
pub use self::block_consensus::{BlockConsensus, ByteTag, ConsensusError, SerializedBlockConsensus};
pub use self::block_header::{Block, BlockHeader, BlockId, PeerId};
pub use self::chain::{ChainEntry, ChainView, Lookup, Walk};
pub use self::paired_fork::PairedFork;
