//! The classical alpha-beta agent.

use vstd::prelude::*;
use std::time::{Duration, Instant};
use crate::chess::board::GameState;
use crate::chess::position::legal_moves_of;
use crate::chess::types::ChessMove;
use crate::text::{decimal, owned, push_char, push_decimal};
use super::clock::{Deadline, budget_of, instant_after};
use super::search::{Table, captures_first, classical_white, deepened_by, lemma_captures_first_members, negamax, order_moves, root_iter_by, table_ok};
use crate::chess::position::PositionView;
use crate::eval::classical::MATE_SCORE;
use std::collections::HashMap;

verus! {

/// An agent that searches with alpha-beta negamax and the classical evaluation.
pub struct NegamaxAgent {
    pub depth: u32,
    name: String,
}

/// The name of an agent: a label, the letter that stands for its parameter,
/// and the parameter's value, as in `Negamax(d3)`.
pub open spec fn agent_name(label: Seq<char>, letter: char, n: nat) -> Seq<char> {
    label + seq!['(', letter] + decimal(n) + seq![')']
}

/// Builds an agent name such as `Negamax(d3)`.
pub fn make_agent_name(label: &str, letter: char, n: u32) -> (r: String)
    ensures
        r@ == agent_name(label@, letter, n as nat),
{
    let mut s = owned(label);
    push_char(&mut s, '(');
    push_char(&mut s, letter);
    push_decimal(&mut s, n as u64);
    push_char(&mut s, ')');
    assert(s@ =~= agent_name(label@, letter, n as nat));
    s
}

/// One iteration of the classical root search at depth `d`, from move `i`
/// on (`root_iter_by` with the classical evaluation at the leaves).
pub open spec fn root_iter(
    p: PositionView,
    moves: Seq<ChessMove>,
    i: int,
    d: u32,
    alpha: int,
    best_score: int,
    best_move: ChessMove,
    tt: Map<u64, (i32, u32)>,
) -> (ChessMove, Map<u64, (i32, u32)>) {
    root_iter_by(classical_white(), p, moves, i, d, alpha, best_score, best_move, tt)
}

/// Classical iterative deepening (`deepened_by` with the classical
/// evaluation at the leaves).
pub open spec fn deepened(p: PositionView, d: u32) -> (ChessMove, Map<u64, (i32, u32)>) {
    deepened_by(classical_white(), p, d)
}

impl NegamaxAgent {
    /// The agent's name.
    pub closed spec fn label(&self) -> Seq<char> {
        self.name@
    }

    /// The agent's search depth.
    pub closed spec fn depth_of(&self) -> u32 {
        self.depth
    }

    /// An agent that searches `depth` plies deep, named `Negamax(d<depth>)`.
    pub fn new(depth: u32) -> (r: NegamaxAgent)
        ensures
            r.depth_of() == depth,
            r.label() == agent_name("Negamax"@, 'd', depth as nat),
    {
        NegamaxAgent { depth, name: make_agent_name("Negamax", 'd', depth) }
    }

    /// The agent's name.
    pub fn name(&self) -> (r: &str)
        ensures
            r@ == self.label(),
    {
        self.name.as_str()
    }

    /// Chooses a move by iterative deepening within the time budget (five
    /// seconds when none is given): the move of `deepened` for the deepest
    /// iteration that finished before the deadline, the first ordered move
    /// if none did. The move is always a legal one; where the budget is too
    /// long for any deadline to be represented, every iteration finishes.
    pub fn select_move(&mut self, state: &GameState, time_budget: Option<Duration>) -> (r: ChessMove)
        requires
            legal_moves_of(state.position@).len() > 0,
        ensures
            legal_moves_of(state.position@).contains(r),
            exists|d: u32| d <= old(self).depth_of() && r == #[trigger] deepened(state.position@, d).0,
            old(self).depth_of() == 0 ==> r == captures_first(legal_moves_of(state.position@))[0],
            (forall|t: Instant| #[trigger] instant_after(t, budget_of(time_budget)) is None)
                ==> r == deepened(state.position@, old(self).depth_of()).0,
            final(self).depth_of() == old(self).depth_of(),
            final(self).label() == old(self).label(),
    {
        let deadline = Deadline::from_budget(time_budget);
        proof {
            let t = choose|t: Instant| deadline.at == #[trigger] instant_after(t, budget_of(time_budget));
            if forall|t: Instant| #[trigger] instant_after(t, budget_of(time_budget)) is None {
                assert(instant_after(t, budget_of(time_budget)) is None);
            }
        }
        let ghost never = (forall|t: Instant| #[trigger] instant_after(t, budget_of(time_budget)) is None);
        assert(never ==> deadline.at is None);
        let pos = &state.position;
        let ghost p = pos@;
        let mut tt: Table = HashMap::new();
        let legal = pos.legal_moves();
        let moves = order_moves(&legal);
        proof { lemma_captures_first_members(legal_moves_of(p)); }
        let mut best_move = moves[0];
        let mut d: u32 = 0;
        let ghost mut done: u32 = 0;
        assert(tt@ =~= deepened(p, 0).1);
        while d < self.depth
            invariant_except_break
                done == d,
            invariant
                d <= self.depth,
                done <= d,
                p == pos@,
                moves@ == captures_first(legal_moves_of(p)),
                moves@.len() == legal_moves_of(p).len(),
                moves@.len() > 0,
                forall|j: int| 0 <= j < moves@.len() ==> legal_moves_of(p).contains(#[trigger] moves@[j]),
                forall|j: int| 0 <= j < legal_moves_of(p).len() ==> (#[trigger] legal_moves_of(p)[j]).well_formed(),
                legal_moves_of(p).contains(best_move),
                best_move == deepened(p, done).0,
                done == d ==> tt@ == deepened(p, d).1,
                table_ok(tt@),
            ensures
                done <= self.depth,
                deadline.at is None ==> done == self.depth,
                legal_moves_of(p).contains(best_move),
                best_move == deepened(p, done).0,
            decreases self.depth - d,
        {
            d = d + 1;
            let ghost start = tt@;
            let mut iter_best_score: i32 = -MATE_SCORE;
            let mut iter_best_move = moves[0];
            let mut alpha: i32 = -MATE_SCORE;
            let mut completed = true;
            let mut i: usize = 0;
            while i < moves.len()
                invariant_except_break
                    completed,
                    root_iter(p, moves@, i as int, d, alpha as int, iter_best_score as int, iter_best_move, tt@)
                        == root_iter(p, moves@, 0, d, -(MATE_SCORE as int), -(MATE_SCORE as int), moves@[0], start),
                invariant
                    i <= moves@.len(),
                    1 <= d <= self.depth,
                    p == pos@,
                    moves@ == captures_first(legal_moves_of(p)),
                    moves@.len() > 0,
                    forall|j: int| 0 <= j < moves@.len() ==> legal_moves_of(p).contains(#[trigger] moves@[j]),
                    forall|j: int| 0 <= j < legal_moves_of(p).len() ==> (#[trigger] legal_moves_of(p)[j]).well_formed(),
                    legal_moves_of(p).contains(iter_best_move),
                    alpha > i32::MIN,
                    iter_best_score > i32::MIN,
                    table_ok(tt@),
                ensures
                    completed ==> (iter_best_move, tt@)
                        == root_iter(p, moves@, 0, d, -(MATE_SCORE as int), -(MATE_SCORE as int), moves@[0], start),
                    deadline.at is None ==> completed,
                    legal_moves_of(p).contains(iter_best_move),
                    table_ok(tt@),
                decreases moves@.len() - i,
            {
                if deadline.expired() {
                    completed = false;
                    break;
                }
                let mv = moves[i];
                assert(legal_moves_of(p).contains(mv));
                let next = match pos.play(&mv) {
                    Some(q) => q,
                    None => {
                        completed = false;
                        break;
                    },
                };
                let found = negamax(&next, d - 1, -MATE_SCORE, -alpha, &deadline, &mut tt);
                let score = match found {
                    Some(s) => -s,
                    None => {
                        completed = false;
                        break;
                    },
                };
                if score > iter_best_score {
                    iter_best_score = score;
                    iter_best_move = mv;
                }
                if score > alpha {
                    alpha = score;
                }
                i = i + 1;
            }
            if completed {
                best_move = iter_best_move;
                proof { done = d; }
            } else {
                break;
            }
        }
        best_move
    }

}

} // verus!
