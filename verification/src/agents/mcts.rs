//! The integer decisions of Monte Carlo tree search: terminal values, the
//! most visited move and the visit counts handed to training.

use vstd::prelude::*;
use crate::chess::position::uci_text;
use crate::chess::rules::GameResult;
use crate::chess::types::{ChessMove, Side};

verus! {

/// How often the search visited a move; `uci` is the move in UCI notation.
#[derive(Debug)]
pub struct MoveVisit {
    pub uci: String,
    pub visits: u32,
}

/// The value of a finished game for the side to move: 1 for a win, -1 for a
/// loss, 0 for a draw.
pub open spec fn terminal_score(result: GameResult, turn: Side) -> int {
    match result {
        GameResult::WhiteWins => if turn == Side::White { 1 } else { -1 },
        GameResult::BlackWins => if turn == Side::Black { 1 } else { -1 },
        GameResult::Draw => 0,
    }
}

/// The value of a finished game for the side to move.
pub fn terminal_value(result: GameResult, turn: Side) -> (r: i32)
    ensures
        r as int == terminal_score(result, turn),
{
    match result {
        GameResult::WhiteWins => if turn.is_white() { 1 } else { -1 },
        GameResult::BlackWins => if turn.is_white() { -1 } else { 1 },
        GameResult::Draw => 0,
    }
}

/// The index of the most visited entry; among equally visited entries the
/// last one, as `Iterator::max_by_key` chooses. `None` for an empty list.
pub fn most_visited(visits: &Vec<u32>) -> (r: Option<usize>)
    ensures
        r is None <==> visits@.len() == 0,
        r matches Some(i) ==> i < visits@.len()
            && (forall|j: int| 0 <= j < visits@.len() ==> visits@[j] <= visits@[i as int])
            && (forall|j: int| i < j < visits@.len() ==> visits@[j] < visits@[i as int]),
{
    if visits.len() == 0 {
        return None;
    }
    let mut best: usize = 0;
    let mut k: usize = 1;
    while k < visits.len()
        invariant
            1 <= k <= visits@.len(),
            best < k,
            forall|j: int| 0 <= j < k ==> visits@[j] <= visits@[best as int],
            forall|j: int| best < j < k ==> visits@[j] < visits@[best as int],
        decreases visits@.len() - k,
    {
        if visits[k] >= visits[best] {
            best = k;
        }
        k = k + 1;
    }
    Some(best)
}

/// The visit counts of the root's moves, with the moves in UCI notation.
pub fn visit_list(moves: &Vec<ChessMove>, visits: &Vec<u32>) -> (r: Vec<MoveVisit>)
    requires
        moves@.len() == visits@.len(),
        forall|i: int| 0 <= i < moves@.len() ==> (#[trigger] moves@[i]).well_formed(),
    ensures
        r@.len() == moves@.len(),
        forall|i: int| 0 <= i < moves@.len() ==> (#[trigger] r@[i]).uci@ == uci_text(moves@[i])
            && r@[i].visits == visits@[i],
{
    let mut r: Vec<MoveVisit> = Vec::new();
    let mut i: usize = 0;
    while i < moves.len()
        invariant
            i <= moves@.len(),
            moves@.len() == visits@.len(),
            r@.len() == i,
            forall|i: int| 0 <= i < moves@.len() ==> (#[trigger] moves@[i]).well_formed(),
            forall|j: int| 0 <= j < i ==> (#[trigger] r@[j]).uci@ == uci_text(moves@[j]) && r@[j].visits == visits@[j],
        decreases moves@.len() - i,
    {
        let uci = crate::chess::moves::move_to_uci(&moves[i]);
        r.push(MoveVisit { uci, visits: visits[i] });
        i = i + 1;
    }
    r
}


/// A side that is checkmated has lost: its terminal value is -1.
pub proof fn lemma_mated_side_loses(p: crate::chess::position::PositionView)
    requires
        crate::chess::position::checkmated(p),
    ensures
        crate::chess::position::outcome_of(p) is Some,
        terminal_score(crate::chess::rules::result_of(crate::chess::position::outcome_of(p)->0), p.turn) == -1,
{
}

/// A stalemated side has drawn: its terminal value is 0.
pub proof fn lemma_stalemate_scores_zero(p: crate::chess::position::PositionView)
    requires
        crate::chess::position::stalemated(p),
    ensures
        crate::chess::position::outcome_of(p) is Some,
        terminal_score(crate::chess::rules::result_of(crate::chess::position::outcome_of(p)->0), p.turn) == 0,
{
}

} // verus!
