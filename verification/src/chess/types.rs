//! Plain values for sides, pieces, squares and moves.
//!
//! Squares are numbered as in `shakmaty`: `a1 = 0`, `b1 = 1`, ..., `h8 = 63`,
//! that is `rank * 8 + file`.

use vstd::prelude::*;

verus! {

/// The colour of a side or a piece.
#[derive(Debug, Clone, Copy, PartialEq, Eq, Structural)]
pub enum Side {
    White,
    Black,
}

impl Side {
    pub open spec fn opposite(self) -> Side {
        match self {
            Side::White => Side::Black,
            Side::Black => Side::White,
        }
    }

    /// The other side.
    pub fn other(self) -> (r: Side)
        ensures
            r == self.opposite(),
    {
        match self {
            Side::White => Side::Black,
            Side::Black => Side::White,
        }
    }

    pub fn is_white(self) -> (r: bool)
        ensures
            r == (self == Side::White),
    {
        match self {
            Side::White => true,
            Side::Black => false,
        }
    }
}

/// The kind of a piece.
#[derive(Debug, Clone, Copy, PartialEq, Eq, Structural)]
pub enum PieceKind {
    Pawn,
    Knight,
    Bishop,
    Rook,
    Queen,
    King,
}

/// A piece: a colour and a role.
#[derive(Debug, Clone, Copy, PartialEq, Eq, Structural)]
pub struct Piece {
    pub color: Side,
    pub role: PieceKind,
}

/// A move, as the move generator describes it.
#[derive(Debug, Clone, Copy, PartialEq, Eq, Structural)]
pub enum ChessMove {
    /// A piece moves from one square to another, possibly capturing and promoting.
    Normal { role: PieceKind, from: u8, capture: Option<PieceKind>, to: u8, promotion: Option<PieceKind> },
    /// A pawn captures en passant.
    EnPassant { from: u8, to: u8 },
    /// Castling, given by the king's square and the rook's square.
    Castle { king: u8, rook: u8 },
    /// A piece drop (never legal in standard chess).
    Put { role: PieceKind, to: u8 },
}

/// A square index names a square of the board.
pub open spec fn is_square(sq: int) -> bool {
    0 <= sq < 64
}

/// The file (0 = a, ..., 7 = h) of a square.
pub open spec fn file_of(sq: int) -> int {
    sq % 8
}

/// The rank (0 = first, ..., 7 = eighth) of a square.
pub open spec fn rank_of(sq: int) -> int {
    sq / 8
}

/// The square on the same file and the mirrored rank.
pub open spec fn flip_vertical(sq: int) -> int {
    (7 - sq / 8) * 8 + sq % 8
}

/// Mirroring twice gives the square back.
pub proof fn lemma_flip_involutive(sq: int)
    requires
        is_square(sq),
    ensures
        is_square(flip_vertical(sq)),
        flip_vertical(flip_vertical(sq)) == sq,
{
}

/// Mirrors a square index (`Square::flip_vertical`).
pub fn flip_square(sq: u8) -> (r: u8)
    requires
        sq < 64,
    ensures
        r as int == flip_vertical(sq as int),
        r < 64,
{
    (7 - sq / 8) * 8 + sq % 8
}

impl ChessMove {
    /// The origin square: `None` for drops; the king's square for castling.
    pub open spec fn origin(self) -> Option<u8> {
        match self {
            ChessMove::Normal { from, .. } => Some(from),
            ChessMove::EnPassant { from, .. } => Some(from),
            ChessMove::Castle { king, .. } => Some(king),
            ChessMove::Put { .. } => None,
        }
    }

    /// The target square; for castling the rook's square.
    pub open spec fn target(self) -> u8 {
        match self {
            ChessMove::Normal { to, .. } => to,
            ChessMove::EnPassant { to, .. } => to,
            ChessMove::Castle { rook, .. } => rook,
            ChessMove::Put { to, .. } => to,
        }
    }

    /// The move captures a piece.
    pub open spec fn captures(self) -> bool {
        match self {
            ChessMove::Normal { capture, .. } => capture is Some,
            ChessMove::EnPassant { .. } => true,
            _ => false,
        }
    }

    /// The role a pawn promotes to, if any.
    pub open spec fn promotes_to(self) -> Option<PieceKind> {
        match self {
            ChessMove::Normal { promotion, .. } => promotion,
            _ => None,
        }
    }

    /// Every square the move names exists.
    pub open spec fn well_formed(self) -> bool {
        match self {
            ChessMove::Normal { from, to, .. } => from < 64 && to < 64,
            ChessMove::EnPassant { from, to } => from < 64 && to < 64,
            ChessMove::Castle { king, rook } => king < 64 && rook < 64,
            ChessMove::Put { to, .. } => to < 64,
        }
    }

    /// Whether every square the move names exists.
    pub fn well_formed_exec(&self) -> (r: bool)
        ensures
            r == self.well_formed(),
    {
        match *self {
            ChessMove::Normal { from, to, .. } => from < 64 && to < 64,
            ChessMove::EnPassant { from, to } => from < 64 && to < 64,
            ChessMove::Castle { king, rook } => king < 64 && rook < 64,
            ChessMove::Put { to, .. } => to < 64,
        }
    }

    /// The origin square (`Move::from`).
    pub fn from(&self) -> (r: Option<u8>)
        ensures
            r == self.origin(),
    {
        match *self {
            ChessMove::Normal { from, .. } => Some(from),
            ChessMove::EnPassant { from, .. } => Some(from),
            ChessMove::Castle { king, .. } => Some(king),
            ChessMove::Put { .. } => None,
        }
    }

    /// The target square (`Move::to`).
    pub fn to(&self) -> (r: u8)
        ensures
            r == self.target(),
    {
        match *self {
            ChessMove::Normal { to, .. } => to,
            ChessMove::EnPassant { to, .. } => to,
            ChessMove::Castle { rook, .. } => rook,
            ChessMove::Put { to, .. } => to,
        }
    }

    /// Whether the move is a capture (`Move::is_capture`).
    pub fn is_capture(&self) -> (r: bool)
        ensures
            r == self.captures(),
    {
        match *self {
            ChessMove::Normal { capture, .. } => capture.is_some(),
            ChessMove::EnPassant { .. } => true,
            _ => false,
        }
    }

    /// The promotion role (`Move::promotion`).
    pub fn promotion(&self) -> (r: Option<PieceKind>)
        ensures
            r == self.promotes_to(),
    {
        match *self {
            ChessMove::Normal { promotion, .. } => promotion,
            _ => None,
        }
    }
}

/// The letter of a file.
pub open spec fn file_char(f: int) -> char {
    if f == 0 { 'a' }
    else if f == 1 { 'b' }
    else if f == 2 { 'c' }
    else if f == 3 { 'd' }
    else if f == 4 { 'e' }
    else if f == 5 { 'f' }
    else if f == 6 { 'g' }
    else { 'h' }
}

/// The digit of a rank.
pub open spec fn rank_char(r: int) -> char {
    if r == 0 { '1' }
    else if r == 1 { '2' }
    else if r == 2 { '3' }
    else if r == 3 { '4' }
    else if r == 4 { '5' }
    else if r == 5 { '6' }
    else if r == 6 { '7' }
    else { '8' }
}

/// The name of a square, such as `e4`.
pub open spec fn square_name(sq: int) -> Seq<char> {
    seq![file_char(file_of(sq)), rank_char(rank_of(sq))]
}

/// The upper-case letter of a role.
pub open spec fn role_upper(r: PieceKind) -> char {
    match r {
        PieceKind::Pawn => 'P',
        PieceKind::Knight => 'N',
        PieceKind::Bishop => 'B',
        PieceKind::Rook => 'R',
        PieceKind::Queen => 'Q',
        PieceKind::King => 'K',
    }
}

/// Long algebraic notation of a move, as `shakmaty` displays a `Move`
/// (for example `Ng1-f3`, `e5xd6`, `e7-e8=Q`, `O-O`, `Q@g8`).
pub open spec fn long_algebraic(m: ChessMove) -> Seq<char> {
    match m {
        ChessMove::Normal { role, from, capture, to, promotion } => {
            let piece = if role == PieceKind::Pawn { Seq::<char>::empty() } else { seq![role_upper(role)] };
            let sep = if capture is Some { 'x' } else { '-' };
            let promo = match promotion {
                Some(p) => seq!['=', role_upper(p)],
                None => Seq::<char>::empty(),
            };
            piece + square_name(from as int) + seq![sep] + square_name(to as int) + promo
        },
        ChessMove::EnPassant { from, to } => square_name(from as int) + seq!['x'] + square_name(to as int),
        ChessMove::Castle { king, rook } => if king < rook { seq!['O', '-', 'O'] } else { seq!['O', '-', 'O', '-', 'O'] },
        ChessMove::Put { role, to } => {
            let piece = if role == PieceKind::Pawn { Seq::<char>::empty() } else { seq![role_upper(role)] };
            piece + seq!['@'] + square_name(to as int)
        },
    }
}

} // verus!
