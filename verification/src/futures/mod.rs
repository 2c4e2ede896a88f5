pub mod update_stream;

pub use self::update_stream::{Flags, Polled, Tick};
pub use crate::node::service::EventResult;
