//! The output encoding of the policy network.

use vstd::prelude::*;
use crate::chess::types::ChessMove;

verus! {

/// Number of policy outputs: one per pair of origin and target squares.
pub const POLICY_LEN: usize = 4096;

/// The policy index of a move: `from * 64 + to`. Under-promotions share the
/// index of the queen promotion, since the squares are the same.
pub open spec fn move_index(m: ChessMove) -> int {
    m.origin()->0 as int * 64 + m.target() as int
}

/// The policy index of a move with an origin square; it lies in `[0, 4096)`.
pub fn encode_move(mv: &ChessMove) -> (r: usize)
    requires
        mv.origin() is Some,
        mv.well_formed(),
    ensures
        r as int == move_index(*mv),
        r < POLICY_LEN,
{
    let from = match mv.from() {
        Some(f) => f,
        None => 0,
    };
    let to = mv.to();
    from as usize * 64 + to as usize
}

/// The policy indices of a list of moves, in order.
pub fn encode_moves(moves: &Vec<ChessMove>) -> (r: Vec<usize>)
    requires
        forall|i: int| 0 <= i < moves@.len() ==> (#[trigger] moves@[i]).origin() is Some && moves@[i].well_formed(),
    ensures
        r@.len() == moves@.len(),
        forall|i: int| 0 <= i < moves@.len() ==> #[trigger] r@[i] as int == move_index(moves@[i]) && r@[i] < POLICY_LEN,
{
    let mut r: Vec<usize> = Vec::new();
    let mut i: usize = 0;
    while i < moves.len()
        invariant
            i <= moves@.len(),
            r@.len() == i,
            forall|i: int| 0 <= i < moves@.len() ==> (#[trigger] moves@[i]).origin() is Some && moves@[i].well_formed(),
            forall|j: int| 0 <= j < i ==> #[trigger] r@[j] as int == move_index(moves@[j]) && r@[j] < POLICY_LEN,
        decreases moves@.len() - i,
    {
        r.push(encode_move(&moves[i]));
        i = i + 1;
    }
    r
}


/// Moves between the same squares share a policy index, so an
/// under-promotion has the index of the queen promotion.
pub proof fn lemma_same_squares_same_index(a: ChessMove, b: ChessMove)
    requires
        a.origin() == b.origin(),
        a.target() == b.target(),
    ensures
        move_index(a) == move_index(b),
{
}

/// Every move with an origin square has a policy index in `[0, 4096)`.
pub proof fn lemma_move_index_in_range(m: ChessMove)
    requires
        m.origin() is Some,
        m.well_formed(),
    ensures
        0 <= move_index(m) < POLICY_LEN,
{
}

/// The layer sizes of the policy network: 832 inputs, two hidden layers, 4096 outputs.
#[derive(Debug, Clone, Copy)]
pub struct ChessPolicyNetConfig {
    pub hidden1: usize,
    pub hidden2: usize,
}

impl ChessPolicyNetConfig {
    /// The default sizes: 256 and 128.
    pub fn new() -> (r: ChessPolicyNetConfig)
        ensures
            r.hidden1 == 256 && r.hidden2 == 128,
    {
        ChessPolicyNetConfig { hidden1: 256, hidden2: 128 }
    }
}

} // verus!
