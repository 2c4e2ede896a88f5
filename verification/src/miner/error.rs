use vstd::prelude::*;

verus! {

/// Why the miner could not be set up.
#[derive(Clone, Copy, Debug, PartialEq, Eq, Structural)]
pub enum MinerError {
    UnknownError,
}

impl MinerError {
    /// The text that describes the error.
    pub fn to_string(&self) -> (text: String)
        ensures
            text@ == "Unknown Error"@,
    {
        match self {
            MinerError::UnknownError => String::from_str("Unknown Error"),
        }
    }
}

} // verus!
