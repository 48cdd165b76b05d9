//! The agent that plays a random legal move.

use vstd::prelude::*;
use std::time::Duration;
use crate::chess::board::GameState;
use crate::chess::position::legal_moves_of;
use crate::chess::types::ChessMove;
use rand::seq::IndexedRandom;

verus! {

/// One element of a list, chosen at random (`IndexedRandom::choose` with
/// the thread-local generator `rand::rng`); `None` exactly when the list is empty.
#[verifier::external_body]
fn choose_one(moves: &Vec<ChessMove>) -> (r: Option<ChessMove>)
    ensures
        r is None <==> moves@.len() == 0,
        r matches Some(m) ==> moves@.contains(m),
{
    let mut rng = rand::rng();
    moves.choose(&mut rng).copied()
}

/// An agent that plays a uniformly random legal move.
pub struct RandomAgent {
    name: String,
}

impl RandomAgent {
    /// The agent's name.
    pub closed spec fn label(&self) -> Seq<char> {
        self.name@
    }

    /// The agent's name.
    pub fn name(&self) -> (r: &str)
        ensures
            r@ == self.label(),
    {
        self.name.as_str()
    }

    /// A random legal move of the position.
    pub fn select_move(&mut self, state: &GameState, time_budget: Option<Duration>) -> (r: ChessMove)
        requires
            legal_moves_of(state.position@).len() > 0,
        ensures
            legal_moves_of(state.position@).contains(r),
    {
        let moves = state.legal_moves();
        match choose_one(&moves) {
            Some(m) => m,
            None => moves[0],
        }
    }
}

impl Default for RandomAgent {
    fn default() -> (r: RandomAgent)
        ensures
            r.label() == "Random"@,
    {
        proof { reveal_strlit("Random"); }
        RandomAgent { name: crate::text::owned("Random") }
    }
}

} // verus!
