//! When a self-play game ends, and how it scored.

use vstd::prelude::*;
use crate::chess::board::GameState;
use crate::chess::rules::{GameResult, game_result, game_result_of};

verus! {

/// The longest self-play game, in plies; longer games count as draws.
pub const MAX_GAME_PLIES: usize = 200;

/// A result as a score for White: 1 for a win, -1 for a loss, 0 for a draw.
pub open spec fn outcome_value(r: GameResult) -> int {
    match r {
        GameResult::WhiteWins => 1,
        GameResult::BlackWins => -1,
        GameResult::Draw => 0,
    }
}

/// The score for White of a result.
pub fn outcome_score(r: GameResult) -> (s: i32)
    ensures
        s as int == outcome_value(r),
{
    match r {
        GameResult::WhiteWins => 1,
        GameResult::BlackWins => -1,
        GameResult::Draw => 0,
    }
}

/// Whether a self-play game is over, and its score for White: the result
/// of the rules (with the fifty-move rule) if there is one, else a draw
/// once two hundred plies have been played.
pub fn self_play_verdict(state: &GameState) -> (r: Option<i32>)
    ensures
        r == match game_result_of(state.position@, state.position@.halfmoves as nat) {
            Some(res) => Some(outcome_value(res) as i32),
            None => if state.history@.len() >= MAX_GAME_PLIES { Some(0i32) } else { None },
        },
{
    match game_result(&state.position, state.halfmove_clock()) {
        Some(res) => Some(outcome_score(res)),
        None => if state.history.len() >= MAX_GAME_PLIES { Some(0) } else { None },
    }
}

} // verus!
