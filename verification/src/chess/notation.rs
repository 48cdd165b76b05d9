//! FEN, EPD and PGN text of positions and games.

use vstd::prelude::*;
use super::position::{
    FenFailure, Position, PositionView, after_move, epd_text, fen_error_text, fen_position,
    fen_syntax_ok, legal_moves_of, san_play_text,
};
use super::types::{ChessMove, Side};
use crate::text::{decimal, push_char, push_decimal, push_str};

verus! {

/// Why `fen_to_position` rejected a text.
#[derive(Debug)]
pub enum NotationError {
    /// The text is not FEN.
    InvalidFen,
    /// The text is FEN of an illegal position; the text says why.
    InvalidPosition(String),
}

impl NotationError {
    /// The message of the error.
    pub fn message(&self) -> (r: String)
        ensures
            r@ == match self {
                NotationError::InvalidFen => "invalid FEN string"@,
                NotationError::InvalidPosition(m) => "invalid position: "@ + m@,
            },
    {
        proof {
            reveal_strlit("invalid FEN string");
            reveal_strlit("invalid position: ");
        }
        match self {
            NotationError::InvalidFen => crate::text::owned("invalid FEN string"),
            NotationError::InvalidPosition(m) => {
                let mut s = crate::text::owned("invalid position: ");
                push_str(&mut s, m.as_str());
                s
            },
        }
    }
}

/// Reads a position from FEN in standard castling mode.
pub fn fen_to_position(fen: &str) -> (r: Result<Position, NotationError>)
    ensures
        match r {
            Ok(p) => fen_position(fen@) == Some(p@),
            Err(NotationError::InvalidFen) => !fen_syntax_ok(fen@),
            Err(NotationError::InvalidPosition(m)) => fen_syntax_ok(fen@) && fen_position(fen@) is None
                && m@ == fen_error_text(fen@),
        },
{
    match Position::from_fen(fen) {
        Ok(p) => Ok(p),
        Err(FenFailure::Syntax(_)) => Err(NotationError::InvalidFen),
        Err(FenFailure::IllegalPosition(m)) => Err(NotationError::InvalidPosition(m)),
    }
}

/// The EPD text of a position.
pub fn position_to_epd(pos: &Position) -> (r: String)
    ensures
        r@ == epd_text(pos@),
{
    pos.to_epd()
}

/// The position after the first `n` moves of a line.
pub open spec fn position_after(start: PositionView, moves: Seq<ChessMove>, n: int) -> PositionView
    decreases n,
{
    if n <= 0 { start } else { after_move(position_after(start, moves, n - 1), moves[n - 1]) }
}

/// Every move of the line is legal where it is played.
pub open spec fn legal_line(start: PositionView, moves: Seq<ChessMove>) -> bool {
    forall|i: int| 0 <= i < moves.len() ==>
        legal_moves_of(#[trigger] position_after(start, moves, i)).contains(moves[i])
            && moves[i].well_formed()
}

/// The PGN words of one move: the move number before a White move, then the
/// move in SAN with check or mate suffix.
pub open spec fn move_words(start: PositionView, moves: Seq<ChessMove>, i: int) -> Seq<Seq<char>> {
    let p = position_after(start, moves, i);
    let number = if p.turn == Side::White { seq![decimal(p.fullmoves as nat).push('.')] } else { Seq::empty() };
    number.push(san_play_text(p, moves[i]))
}

/// The PGN words of the first `n` moves of a line.
pub open spec fn pgn_words(start: PositionView, moves: Seq<ChessMove>, n: int) -> Seq<Seq<char>>
    decreases n,
{
    if n <= 0 { Seq::empty() } else { pgn_words(start, moves, n - 1) + move_words(start, moves, n - 1) }
}

/// Words joined by single spaces.
pub open spec fn join_words(words: Seq<Seq<char>>) -> Seq<char>
    decreases words.len(),
{
    if words.len() == 0 {
        Seq::empty()
    } else if words.len() == 1 {
        words[0]
    } else {
        join_words(words.drop_last()) + seq![' '] + words.last()
    }
}

fn push_word(s: &mut String, words: Ghost<Seq<Seq<char>>>, empty: bool, word: &str)
    requires
        old(s)@ == join_words(words@),
        empty == (words@.len() == 0),
    ensures
        final(s)@ == join_words(words@.push(word@)),
{
    assert(words@.push(word@).drop_last() =~= words@);
    if !empty {
        push_char(s, ' ');
    } else {
        assert(old(s)@ =~= Seq::<char>::empty());
    }
    push_str(s, word);
    assert(final(s)@ =~= join_words(words@.push(word@)));
}

/// The movetext of a game in PGN: move numbers before White's moves and the
/// moves in SAN, separated by single spaces (for example `1. f3 e5 2. g4 Qh4#`).
pub fn moves_to_pgn(start: &Position, moves: &Vec<ChessMove>) -> (r: String)
    requires
        legal_line(start@, moves@),
    ensures
        r@ == join_words(pgn_words(start@, moves@, moves@.len() as int)),
{
    let mut pgn = String::new();
    let mut pos = start.duplicate();
    let mut empty = true;
    let mut words: Ghost<Seq<Seq<char>>> = Ghost(Seq::empty());
    let mut i: usize = 0;
    assert(pgn@ =~= join_words(words@));
    while i < moves.len()
        invariant
            i <= moves@.len(),
            legal_line(start@, moves@),
            pos@ == position_after(start@, moves@, i as int),
            words@ == pgn_words(start@, moves@, i as int),
            pgn@ == join_words(words@),
            empty == (words@.len() == 0),
        decreases moves@.len() - i,
    {
        let mv = moves[i];
        assert(legal_moves_of(position_after(start@, moves@, i as int)).contains(moves@[i as int]));
        let ghost before = words@;
        if pos.turn().is_white() {
            let mut number = String::new();
            push_decimal(&mut number, pos.fullmoves() as u64);
            push_char(&mut number, '.');
            push_word(&mut pgn, words, empty, number.as_str());
            proof { words@ = words@.push(number@); }
            empty = false;
        }
        let san = pos.play_with_san(&mv);
        push_word(&mut pgn, words, empty, san.as_str());
        empty = false;
        proof {
            words@ = words@.push(san@);
            assert(words@ =~= before + move_words(start@, moves@, i as int));
        }
        i = i + 1;
    }
    pgn
}

} // verus!
