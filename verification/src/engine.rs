use vstd::prelude::*;
use crate::node::config::PowConfig;
use crate::node::node::{NodeView, PhaseView, PowNode};
use crate::node::state::StateView;
use crate::primitives::bytes_to_vec;

verus! {

/// The index of the last point in `text`, if it holds one.
pub open spec fn last_point(text: Seq<u8>) -> Option<int>
    decreases text.len(),
{
    if text.len() == 0 {
        None
    } else if text.last() == 46 {
        Some(text.len() - 1)
    } else {
        last_point(text.drop_last())
    }
}

/// A version without its patch level: what stands before its last point.
pub open spec fn without_patch(version: Seq<u8>) -> Option<Seq<u8>> {
    match last_point(version) {
        Some(point) => Some(version.subrange(0, point)),
        None => None,
    }
}

/// The major and minor part of a version: what stands before its last
/// point. A version without a point has none.
pub fn major_minor(version: &[u8]) -> (short: Option<Vec<u8>>)
    ensures
        match short {
            Some(short) => without_patch(version@) == Some(short@),
            None => without_patch(version@) is None,
        },
{
    let mut i: usize = version.len();
    assert(version@.subrange(0, i as int) =~= version@);
    while i > 0
        invariant
            i <= version@.len(),
            last_point(version@) == last_point(version@.subrange(0, i as int)),
        decreases i,
    {
        i -= 1;
        assert(version@.subrange(0, i + 1).drop_last() =~= version@.subrange(0, i as int));
        if version[i] == 46 {
            return Some(bytes_to_vec(vstd::slice::slice_subrange(version, 0, i)));
        }
    }
    None
}

/// The proof-of-work engine, before it is started.
#[derive(Debug)]
pub struct PowEngine {
    config: Option<PowConfig>,
}

impl View for PowEngine {
    type V = Option<PowConfig>;

    closed spec fn view(&self) -> Option<PowConfig> {
        self.config
    }
}

impl PowEngine {
    /// An engine that starts its node with the default configuration.
    pub fn new() -> (engine: Self)
        ensures
            engine@ is None,
    {
        Self { config: None }
    }

    /// An engine that starts its node with `config`.
    pub fn with_config(config: PowConfig) -> (engine: Self)
        ensures
            engine@ == Some(config),
    {
        Self { config: Some(config) }
    }

    /// The name of the engine.
    pub fn name(&self) -> (name: String)
        ensures
            name@ == "PoW"@,
    {
        String::from_str("PoW")
    }

    /// The version of the engine: major and minor, without the patch level.
    pub fn version(&self) -> (version: String)
        ensures
            version@ == "0.1"@,
    {
        String::from_str("0.1")
    }

    /// The engine supports no protocol besides its own.
    pub fn additional_protocols(&self) -> (protocols: Vec<(String, String)>)
        ensures
            protocols@.len() == 0,
    {
        Vec::new()
    }

    /// The node of the engine: with the configuration of the engine if it
    /// has one, which is then taken from it, else with the default.
    pub fn init_node(&mut self) -> (node: PowNode)
        ensures
            final(self)@ is None,
            node@ == (NodeView {
                config: match old(self)@ {
                    Some(config) => config,
                    None => crate::node::config::default_config(),
                },
                state: StateView {
                    chain_head: Seq::empty(),
                    peer_id: Seq::empty(),
                    guards: Set::empty(),
                },
                answer: None,
                chain: Map::empty(),
                phase: PhaseView::Idle,
            }),
    {
        match self.config.take() {
            Some(config) => PowNode::with_config(config),
            None => PowNode::new(),
        }
    }
}

impl Default for PowEngine {
    fn default() -> (engine: Self)
        ensures
            engine@ is None,
    {
        Self::new()
    }
}

} // verus!
