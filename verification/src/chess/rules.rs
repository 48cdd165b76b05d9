//! Game-ending rules.

use vstd::prelude::*;
use super::position::{GameOutcome, Position, PositionView, outcome_of, insufficient_material};
use super::types::Side;

verus! {

/// How a finished game ended.
#[derive(Debug, Clone, Copy, PartialEq, Eq, Structural)]
pub enum GameResult {
    WhiteWins,
    BlackWins,
    Draw,
}

/// The result that an outcome of the rules stands for.
pub open spec fn result_of(o: GameOutcome) -> GameResult {
    match o {
        GameOutcome::Decisive { winner: Side::White } => GameResult::WhiteWins,
        GameOutcome::Decisive { winner: Side::Black } => GameResult::BlackWins,
        GameOutcome::Draw => GameResult::Draw,
    }
}

impl From<GameOutcome> for GameResult {
    fn from(outcome: GameOutcome) -> (r: GameResult) {
        match outcome {
            GameOutcome::Decisive { winner: Side::White } => GameResult::WhiteWins,
            GameOutcome::Decisive { winner: Side::Black } => GameResult::BlackWins,
            GameOutcome::Draw => GameResult::Draw,
        }
    }
}

impl vstd::std_specs::convert::FromSpecImpl<GameOutcome> for GameResult {
    open spec fn obeys_from_spec() -> bool {
        true
    }

    open spec fn from_spec(outcome: GameOutcome) -> GameResult {
        result_of(outcome)
    }
}

/// The fifty-move rule: one hundred half-moves without a capture or a pawn move.
pub open spec fn fifty_move_rule(halfmove_clock: nat) -> bool {
    halfmove_clock >= 100
}

/// Whether the half-move clock has reached the fifty-move draw threshold.
pub fn is_fifty_move_draw(halfmove_clock: u32) -> (r: bool)
    ensures
        r == fifty_move_rule(halfmove_clock as nat),
{
    halfmove_clock >= 100
}

/// The result of a game in a position with the given half-move clock:
/// the rules' outcome (mate, stalemate, insufficient material) first, then
/// the fifty-move rule, then insufficient material once more.
pub open spec fn game_result_of(p: PositionView, halfmove_clock: nat) -> Option<GameResult> {
    match outcome_of(p) {
        Some(o) => Some(result_of(o)),
        None => if fifty_move_rule(halfmove_clock) || insufficient_material(p) {
            Some(GameResult::Draw)
        } else {
            None
        },
    }
}

/// The result of the game, if it is over.
pub fn game_result(pos: &Position, halfmove_clock: u32) -> (r: Option<GameResult>)
    ensures
        r == game_result_of(pos@, halfmove_clock as nat),
{
    match pos.outcome() {
        Some(o) => Some(GameResult::from(o)),
        None => {
            if is_fifty_move_draw(halfmove_clock) {
                Some(GameResult::Draw)
            } else if pos.is_insufficient_material() {
                Some(GameResult::Draw)
            } else {
                None
            }
        },
    }
}

} // verus!
