//! The state of a game: the current position and the moves played so far.

use vstd::prelude::*;
use super::position::{
    FenFailure, GameOutcome, Position, checkmated, stalemated, outcome_of, legal_moves_of,
    after_move, fen_position, fen_error_text, fen_text, initial_position,
};
use super::types::{ChessMove, Side, long_algebraic};

verus! {

/// The position of a game and the moves that led to it.
pub struct GameState {
    pub position: Position,
    pub history: Vec<ChessMove>,
}

/// Why a game operation failed.
#[derive(Debug)]
pub enum BoardError {
    /// The move is not legal; the text is the move in long algebraic notation.
    IllegalMove(String),
    /// The FEN text was rejected; the text says why.
    FenParse(String),
}

impl BoardError {
    /// The message of the error, as the game reports it.
    pub fn message(&self) -> (r: String)
        ensures
            r@ == match self {
                BoardError::IllegalMove(m) => "illegal move: "@ + m@,
                BoardError::FenParse(m) => "FEN parse error: "@ + m@,
            },
    {
        proof {
            reveal_strlit("illegal move: ");
            reveal_strlit("FEN parse error: ");
        }
        match self {
            BoardError::IllegalMove(m) => {
                let mut s = crate::text::owned("illegal move: ");
                crate::text::push_str(&mut s, m.as_str());
                s
            },
            BoardError::FenParse(m) => {
                let mut s = crate::text::owned("FEN parse error: ");
                crate::text::push_str(&mut s, m.as_str());
                s
            },
        }
    }
}

impl GameState {
    /// A new game from the starting position.
    pub fn new() -> (r: GameState)
        ensures
            r.position@ == initial_position(),
            r.history@.len() == 0,
    {
        GameState { position: Position::initial(), history: Vec::new() }
    }

    /// A game that starts from the given position.
    pub fn from_position(position: Position) -> (r: GameState)
        ensures
            r.position@ == position@,
            r.history@.len() == 0,
    {
        GameState { position, history: Vec::new() }
    }

    /// A game that starts from the position of a FEN text.
    pub fn from_fen(s: &str) -> (r: Result<GameState, BoardError>)
        ensures
            match r {
                Ok(g) => fen_position(s@) == Some(g.position@) && g.history@.len() == 0,
                Err(BoardError::FenParse(msg)) => fen_position(s@) is None && msg@ == fen_error_text(s@),
                Err(BoardError::IllegalMove(_)) => false,
            },
    {
        match Position::from_fen(s) {
            Ok(position) => Ok(GameState { position, history: Vec::new() }),
            Err(FenFailure::Syntax(msg)) => Err(BoardError::FenParse(msg)),
            Err(FenFailure::IllegalPosition(msg)) => Err(BoardError::FenParse(msg)),
        }
    }

    /// The FEN text of the current position.
    pub fn to_fen(&self) -> (r: String)
        ensures
            r@ == fen_text(self.position@),
    {
        self.position.to_fen()
    }

    /// The legal moves in the current position.
    pub fn legal_moves(&self) -> (r: Vec<ChessMove>)
        ensures
            r@ == legal_moves_of(self.position@),
            forall|i: int| 0 <= i < r@.len() ==> (#[trigger] r@[i]).well_formed() && r@[i].origin() is Some,
    {
        self.position.legal_moves()
    }

    /// The side to move is checkmated.
    pub fn is_checkmate(&self) -> (r: bool)
        ensures
            r == checkmated(self.position@),
    {
        self.position.is_checkmate()
    }

    /// The side to move is stalemated.
    pub fn is_stalemate(&self) -> (r: bool)
        ensures
            r == stalemated(self.position@),
    {
        self.position.is_stalemate()
    }

    /// The outcome of the game, if the rules end it.
    pub fn outcome(&self) -> (r: Option<GameOutcome>)
        ensures
            r == outcome_of(self.position@),
    {
        self.position.outcome()
    }

    /// The side to move.
    pub fn side_to_move(&self) -> (r: Side)
        ensures
            r == self.position@.turn,
    {
        self.position.turn()
    }

    /// The half-move clock.
    pub fn halfmove_clock(&self) -> (r: u32)
        ensures
            r == self.position@.halfmoves,
    {
        self.position.halfmoves()
    }

    /// The full-move number.
    pub fn fullmove_number(&self) -> (r: u32)
        ensures
            r == self.position@.fullmoves,
    {
        self.position.fullmoves()
    }

    /// Plays a move: if it is legal, the position advances and the move is
    /// added to the history; otherwise the game is unchanged and the error
    /// names the move.
    pub fn apply_move(&mut self, mv: ChessMove) -> (r: Result<(), BoardError>)
        requires
            mv.well_formed(),
        ensures
            r is Ok <==> legal_moves_of(old(self).position@).contains(mv),
            r is Ok ==> final(self).position@ == after_move(old(self).position@, mv)
                && final(self).history@ == old(self).history@.push(mv),
            r is Err ==> *final(self) == *old(self)
                && r->Err_0 is IllegalMove
                && r->Err_0->IllegalMove_0@ == long_algebraic(mv),
    {
        match self.position.play(&mv) {
            Some(next) => {
                self.position = next;
                self.history.push(mv);
                Ok(())
            },
            None => Err(BoardError::IllegalMove(super::position::move_text(&mv))),
        }
    }
}

impl Default for GameState {
    fn default() -> (r: GameState)
        ensures
            r.position@ == initial_position(),
            r.history@.len() == 0,
    {
        GameState::new()
    }
}

} // verus!
