//! The plain minimax agent.

use vstd::prelude::*;
use super::negamax::{agent_name, make_agent_name};

verus! {

/// A minimax agent of a given depth.
pub struct MinimaxAgent {
    pub depth: u32,
    name: String,
}

impl MinimaxAgent {
    /// The agent's name.
    pub closed spec fn label(&self) -> Seq<char> {
        self.name@
    }

    /// The agent's search depth.
    pub closed spec fn depth_of(&self) -> u32 {
        self.depth
    }

    /// An agent of the given depth, named `Minimax(d<depth>)`.
    pub fn new(depth: u32) -> (r: MinimaxAgent)
        ensures
            r.depth_of() == depth,
            r.label() == agent_name("Minimax"@, 'd', depth as nat),
    {
        MinimaxAgent { depth, name: make_agent_name("Minimax", 'd', depth) }
    }

    /// The agent's name.
    pub fn name(&self) -> (r: &str)
        ensures
            r@ == self.label(),
    {
        self.name.as_str()
    }
}

} // verus!
