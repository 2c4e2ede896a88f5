use vstd::prelude::*;
use crate::block::block_header::{BlockId, PeerId};
use crate::node::guard::{Guard, Guards};

verus! {

/// What the node remembers between events.
#[derive(Debug)]
pub struct PowState {
    pub chain_head: BlockId,
    pub peer_id: PeerId,
    pub guards: Guards,
}

/// A `PowState` as plain values.
pub ghost struct StateView {
    pub chain_head: Seq<u8>,
    pub peer_id: Seq<u8>,
    pub guards: Set<Guard>,
}

impl View for PowState {
    type V = StateView;

    open spec fn view(&self) -> StateView {
        StateView { chain_head: self.chain_head@, peer_id: self.peer_id@, guards: self.guards@ }
    }
}

impl PowState {
    /// The state before startup: empty ids and no guard.
    pub fn new() -> (state: Self)
        ensures
            state@ == (StateView {
                chain_head: Seq::empty(),
                peer_id: Seq::empty(),
                guards: Set::empty(),
            }),
    {
        Self { chain_head: Vec::new(), peer_id: Vec::new(), guards: Guards::new() }
    }
}

impl Default for PowState {
    fn default() -> (state: Self)
        ensures
            state@ == (StateView {
                chain_head: Seq::empty(),
                peer_id: Seq::empty(),
                guards: Set::empty(),
            }),
    {
        Self::new()
    }
}

} // verus!
