//! The layout of the board on screen: which square goes where, how it is
//! shaded, and which glyph shows a piece.

use vstd::prelude::*;
use crate::chess::types::{PieceKind, Side};

verus! {

/// Width of a square on screen, in cells.
pub const CELL_W: u16 = 4;
/// Height of a square on screen, in cells.
pub const CELL_H: u16 = 2;
/// Width of the board on screen, including the rank labels.
pub const BOARD_WIDTH: u16 = 34;
/// Height of the board on screen, including the file labels.
pub const BOARD_HEIGHT: u16 = 17;

/// What the board view shows besides the pieces: the cursor (file, rank),
/// the selected square, the squares the selected piece can move to, and
/// whether the board is seen from Black's side.
pub struct BoardState {
    pub cursor: (u8, u8),
    pub selected: Option<u8>,
    pub legal_targets: Vec<u8>,
    pub flipped: bool,
}

impl Default for BoardState {
    fn default() -> (r: BoardState)
        ensures
            r.cursor == (4u8, 1u8),
            r.selected is None,
            r.legal_targets@.len() == 0,
            !r.flipped,
    {
        BoardState { cursor: (4, 1), selected: None, legal_targets: Vec::new(), flipped: false }
    }
}

/// How a square is shaded, in order of priority.
#[derive(Debug, Clone, Copy, PartialEq, Eq, Structural)]
pub enum Shade {
    Cursor,
    Selected,
    Target,
    Light,
    Dark,
}

/// The shade of the square on `file` and `rank`: the cursor first, then the
/// selected square, then a target of the selected piece, then the colour of
/// the square (light when file + rank is odd).
pub open spec fn shade_of(cursor: (u8, u8), selected: Option<u8>, targets: Seq<u8>, file: u8, rank: u8) -> Shade {
    let sq = (rank * 8 + file) as u8;
    if cursor == (file, rank) {
        Shade::Cursor
    } else if selected == Some(sq) {
        Shade::Selected
    } else if targets.contains(sq) {
        Shade::Target
    } else if (file + rank) % 2 == 1 {
        Shade::Light
    } else {
        Shade::Dark
    }
}

fn contains_square(squares: &Vec<u8>, sq: u8) -> (r: bool)
    ensures
        r == squares@.contains(sq),
{
    let mut i: usize = 0;
    while i < squares.len()
        invariant
            i <= squares@.len(),
            forall|j: int| 0 <= j < i ==> squares@[j] != sq,
        decreases squares@.len() - i,
    {
        if squares[i] == sq {
            assert(squares@[i as int] == sq);
            return true;
        }
        i = i + 1;
    }
    false
}

impl BoardState {
    /// The shade of the square on `file` and `rank`.
    pub fn shade(&self, file: u8, rank: u8) -> (r: Shade)
        requires
            file < 8,
            rank < 8,
        ensures
            r == shade_of(self.cursor, self.selected, self.legal_targets@, file, rank),
    {
        let sq = rank * 8 + file;
        if self.cursor.0 == file && self.cursor.1 == rank {
            Shade::Cursor
        } else if self.selected == Some(sq) {
            Shade::Selected
        } else if contains_square(&self.legal_targets, sq) {
            Shade::Target
        } else if (file + rank) % 2 == 1 {
            Shade::Light
        } else {
            Shade::Dark
        }
    }
}

/// Where the square on `file` and `rank` is drawn, relative to the board's
/// corner: two columns of rank labels, then four cells per file; rank 8 on
/// top unless the board is flipped.
pub open spec fn cell_of(flipped: bool, file: int, rank: int) -> (int, int) {
    let (screen_file, screen_rank) = if !flipped { (file, 7 - rank) } else { (7 - file, rank) };
    (2 + screen_file * 4, screen_rank * 2)
}

/// The screen offset (column, row) of a square.
pub fn square_cell(flipped: bool, file: u8, rank: u8) -> (r: (u16, u16))
    requires
        file < 8,
        rank < 8,
    ensures
        (r.0 as int, r.1 as int) == cell_of(flipped, file as int, rank as int),
{
    let (screen_file, screen_rank): (u16, u16) = if !flipped {
        (file as u16, 7 - rank as u16)
    } else {
        (7 - file as u16, rank as u16)
    };
    (2 + screen_file * CELL_W, screen_rank * CELL_H)
}

/// The rank label of screen row `row`: 8 down to 1, or 1 up to 8 when flipped.
pub fn rank_label(flipped: bool, row: u8) -> (c: char)
    requires
        row < 8,
    ensures
        c == crate::chess::types::rank_char(if !flipped { 7 - row } else { row as int }),
{
    let r: u8 = if !flipped { 7 - row } else { row };
    if r == 0 { '1' }
    else if r == 1 { '2' }
    else if r == 2 { '3' }
    else if r == 3 { '4' }
    else if r == 4 { '5' }
    else if r == 5 { '6' }
    else if r == 6 { '7' }
    else { '8' }
}

/// The file label of screen column `col`: a to h, or h to a when flipped.
pub fn file_label(flipped: bool, col: u8) -> (c: char)
    requires
        col < 8,
    ensures
        c == crate::chess::types::file_char(if !flipped { col as int } else { 7 - col }),
{
    let f: u8 = if !flipped { col } else { 7 - col };
    if f == 0 { 'a' }
    else if f == 1 { 'b' }
    else if f == 2 { 'c' }
    else if f == 3 { 'd' }
    else if f == 4 { 'e' }
    else if f == 5 { 'f' }
    else if f == 6 { 'g' }
    else { 'h' }
}

/// The chess symbol of a piece.
pub open spec fn glyph_of(kind: PieceKind, color: Side) -> Seq<char> {
    match (color, kind) {
        (Side::White, PieceKind::King) => "♔"@,
        (Side::White, PieceKind::Queen) => "♕"@,
        (Side::White, PieceKind::Rook) => "♖"@,
        (Side::White, PieceKind::Bishop) => "♗"@,
        (Side::White, PieceKind::Knight) => "♘"@,
        (Side::White, PieceKind::Pawn) => "♙"@,
        (Side::Black, PieceKind::King) => "♚"@,
        (Side::Black, PieceKind::Queen) => "♛"@,
        (Side::Black, PieceKind::Rook) => "♜"@,
        (Side::Black, PieceKind::Bishop) => "♝"@,
        (Side::Black, PieceKind::Knight) => "♞"@,
        (Side::Black, PieceKind::Pawn) => "♟"@,
    }
}

/// The chess symbol of a piece.
pub fn piece_glyph(kind: PieceKind, color: Side) -> (r: &'static str)
    ensures
        r@ == glyph_of(kind, color),
{
    match (color, kind) {
        (Side::White, PieceKind::King) => "♔",
        (Side::White, PieceKind::Queen) => "♕",
        (Side::White, PieceKind::Rook) => "♖",
        (Side::White, PieceKind::Bishop) => "♗",
        (Side::White, PieceKind::Knight) => "♘",
        (Side::White, PieceKind::Pawn) => "♙",
        (Side::Black, PieceKind::King) => "♚",
        (Side::Black, PieceKind::Queen) => "♛",
        (Side::Black, PieceKind::Rook) => "♜",
        (Side::Black, PieceKind::Bishop) => "♝",
        (Side::Black, PieceKind::Knight) => "♞",
        (Side::Black, PieceKind::Pawn) => "♟",
    }
}

} // verus!
