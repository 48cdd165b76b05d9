//! Reading and writing moves in UCI and SAN notation.

use vstd::prelude::*;
use super::position::{
    NotationFailure, Position, legal_moves_of, san_move, san_syntax_ok, san_text, uci_move,
    uci_syntax_ok, uci_text,
};
use super::types::ChessMove;

verus! {

/// Why a move text was not accepted: each variant holds the text and the
/// reason `shakmaty` gives (`invalid uci`, `illegal uci`, `invalid san`,
/// `illegal san` or `ambiguous san`).
#[derive(Debug)]
pub enum MoveError {
    /// The text is not a UCI move.
    InvalidUci(String, String),
    /// The text is a UCI move that is not legal in the position.
    IllegalUci(String, String),
    /// The text is not a SAN move.
    InvalidSan(String, String),
    /// The text is a SAN move that names no single legal move of the position.
    IllegalSan(String, String),
}

/// The message of a move error, such as `illegal UCI 'e2e5': illegal uci`.
pub open spec fn move_error_text(kind: Seq<char>, text: Seq<char>, reason: Seq<char>) -> Seq<char> {
    kind + " '"@ + text + "': "@ + reason
}

fn error_text(kind: &str, text: &str, reason: &str) -> (r: String)
    ensures
        r@ == move_error_text(kind@, text@, reason@),
{
    proof {
        reveal_strlit(" '");
        reveal_strlit("': ");
    }
    let mut s = crate::text::owned(kind);
    crate::text::push_str(&mut s, " '");
    crate::text::push_str(&mut s, text);
    crate::text::push_str(&mut s, "': ");
    crate::text::push_str(&mut s, reason);
    s
}

impl MoveError {
    /// The message of the error.
    pub fn message(&self) -> (r: String)
        ensures
            r@ == match self {
                MoveError::InvalidUci(t, e) => move_error_text("invalid UCI"@, t@, e@),
                MoveError::IllegalUci(t, e) => move_error_text("illegal UCI"@, t@, e@),
                MoveError::InvalidSan(t, e) => move_error_text("invalid SAN"@, t@, e@),
                MoveError::IllegalSan(t, e) => move_error_text("illegal SAN"@, t@, e@),
            },
    {
        match self {
            MoveError::InvalidUci(t, e) => error_text("invalid UCI", t.as_str(), e.as_str()),
            MoveError::IllegalUci(t, e) => error_text("illegal UCI", t.as_str(), e.as_str()),
            MoveError::InvalidSan(t, e) => error_text("invalid SAN", t.as_str(), e.as_str()),
            MoveError::IllegalSan(t, e) => error_text("illegal SAN", t.as_str(), e.as_str()),
        }
    }
}

/// Reads a move in UCI notation (such as `e2e4` or `e7e8q`) in a position.
pub fn parse_uci(position: &Position, s: &str) -> (r: Result<ChessMove, MoveError>)
    ensures
        match r {
            Ok(m) => uci_syntax_ok(s@) && uci_move(position@, s@) == Some(m)
                && legal_moves_of(position@).contains(m) && m.well_formed() && m.origin() is Some,
            Err(MoveError::InvalidUci(t, e)) => !uci_syntax_ok(s@) && t@ == s@ && e@ == "invalid uci"@,
            Err(MoveError::IllegalUci(t, e)) => uci_syntax_ok(s@) && uci_move(position@, s@) is None
                && t@ == s@ && e@ == "illegal uci"@,
            Err(_) => false,
        },
{
    proof {
        reveal_strlit("invalid uci");
        reveal_strlit("illegal uci");
    }
    match position.parse_uci_move(s) {
        Ok(m) => Ok(m),
        Err(NotationFailure::Syntax) => Err(MoveError::InvalidUci(crate::text::owned(s), crate::text::owned("invalid uci"))),
        Err(_) => Err(MoveError::IllegalUci(crate::text::owned(s), crate::text::owned("illegal uci"))),
    }
}

/// Reads a move in standard algebraic notation (such as `Nf3` or `exd5`) in
/// a position. A text that names no single legal move is refused with the
/// reason `illegal san` where no legal move matches it and `ambiguous san`
/// where several do (`san_move`).
pub fn parse_san(position: &Position, s: &str) -> (r: Result<ChessMove, MoveError>)
    ensures
        match r {
            Ok(m) => san_syntax_ok(s@) && san_move(position@, s@) == Ok::<ChessMove, NotationFailure>(m)
                && legal_moves_of(position@).contains(m) && m.well_formed() && m.origin() is Some,
            Err(MoveError::InvalidSan(t, e)) => !san_syntax_ok(s@) && t@ == s@ && e@ == "invalid san"@,
            Err(MoveError::IllegalSan(t, e)) => san_syntax_ok(s@) && t@ == s@ && (
                (san_move(position@, s@) == Err::<ChessMove, NotationFailure>(NotationFailure::Illegal) && e@ == "illegal san"@)
                || (san_move(position@, s@) == Err::<ChessMove, NotationFailure>(NotationFailure::Ambiguous) && e@ == "ambiguous san"@)),
            Err(_) => false,
        },
{
    proof {
        reveal_strlit("invalid san");
        reveal_strlit("illegal san");
        reveal_strlit("ambiguous san");
    }
    match position.parse_san_move(s) {
        Ok(m) => Ok(m),
        Err(NotationFailure::Syntax) => Err(MoveError::InvalidSan(crate::text::owned(s), crate::text::owned("invalid san"))),
        Err(NotationFailure::Illegal) => Err(MoveError::IllegalSan(crate::text::owned(s), crate::text::owned("illegal san"))),
        Err(NotationFailure::Ambiguous) => Err(MoveError::IllegalSan(crate::text::owned(s), crate::text::owned("ambiguous san"))),
    }
}

/// The standard algebraic notation of a move, with check or mate suffix
/// where the move is legal.
pub fn move_to_san(position: &Position, mv: &ChessMove) -> (r: String)
    requires
        mv.well_formed(),
    ensures
        r@ == san_text(position@, *mv),
{
    position.san(mv)
}

/// The UCI notation of a move.
pub fn move_to_uci(mv: &ChessMove) -> (r: String)
    requires
        mv.well_formed(),
    ensures
        r@ == uci_text(*mv),
{
    super::position::move_uci(mv)
}

} // verus!
