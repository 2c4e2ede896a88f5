pub mod config;
pub mod fork;
pub mod guard;
pub mod laws;
pub mod node;
pub mod service;
pub mod state;

pub use self::config::{PowConfig, Setting};
pub use self::fork::Verdict;
pub use self::guard::{Guard, Guards};
pub use self::node::{PowNode, NULL_BLOCK_IDENTIFIER};
pub use self::service::{
    EventPublishResult, EventResult, Outcome, Reply, Request, ServiceError, StartupState, Step,
    Update,
};
pub use self::state::PowState;
