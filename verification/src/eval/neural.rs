//! The input encoding of the value and policy networks.

use vstd::prelude::*;
use crate::chess::board::GameState;
use crate::chess::position::PositionView;
use crate::chess::types::{Piece, PieceKind, Side};

verus! {

/// Number of inputs: twelve piece planes and one side-to-move plane of 64 squares.
pub const ENCODED_LEN: usize = 832;

/// The index of a piece kind within a colour's six planes.
pub open spec fn kind_index(k: PieceKind) -> int {
    match k {
        PieceKind::Pawn => 0,
        PieceKind::Knight => 1,
        PieceKind::Bishop => 2,
        PieceKind::Rook => 3,
        PieceKind::Queen => 4,
        PieceKind::King => 5,
    }
}

/// The plane of a piece: White's pieces on planes 0 to 5, Black's on 6 to 11.
pub open spec fn plane_of(p: Piece) -> int {
    (if p.color == Side::White { 0int } else { 6int }) + kind_index(p.role)
}

/// Input `i` of the encoding of a position: for `i < 768`, whether the
/// square `i % 64` holds a piece of plane `i / 64`; the last 64 inputs are
/// all 1 when White is to move and 0 otherwise.
pub open spec fn encoded_input(p: PositionView, i: int) -> u8 {
    if i < 768 {
        match p.board[i % 64] {
            Some(piece) => if plane_of(piece) == i / 64 { 1u8 } else { 0u8 },
            None => 0u8,
        }
    } else if p.turn == Side::White {
        1u8
    } else {
        0u8
    }
}

fn plane_index(p: Piece) -> (r: usize)
    ensures
        r as int == plane_of(p),
        r < 12,
{
    let color_offset: usize = if p.color.is_white() { 0 } else { 6 };
    let kind_offset: usize = match p.role {
        PieceKind::Pawn => 0,
        PieceKind::Knight => 1,
        PieceKind::Bishop => 2,
        PieceKind::Rook => 3,
        PieceKind::Queen => 4,
        PieceKind::King => 5,
    };
    color_offset + kind_offset
}

/// Encodes a position as 832 inputs of 0 or 1: one plane of 64 squares per
/// colour and piece kind, then one plane for the side to move.
pub fn encode_position(state: &GameState) -> (r: Vec<u8>)
    ensures
        r@.len() == ENCODED_LEN,
        forall|i: int| 0 <= i < ENCODED_LEN ==> #[trigger] r@[i] == encoded_input(state.position@, i),
{
    let pos = &state.position;
    let ghost view = pos@;
    let mut planes: Vec<u8> = Vec::new();
    let mut i: usize = 0;
    while i < ENCODED_LEN
        invariant
            i <= ENCODED_LEN,
            planes@.len() == i,
            forall|j: int| 0 <= j < i ==> planes@[j] == 0u8,
        decreases ENCODED_LEN - i,
    {
        planes.push(0u8);
        i = i + 1;
    }
    let mut sq: u8 = 0;
    while sq < 64
        invariant
            sq <= 64,
            view == pos@,
            planes@.len() == ENCODED_LEN,
            forall|j: int| 0 <= j < 768 ==> #[trigger] planes@[j] == (if j % 64 < sq { encoded_input(view, j) } else { 0u8 }),
            forall|j: int| 768 <= j < ENCODED_LEN ==> #[trigger] planes@[j] == 0u8,
        decreases 64 - sq,
    {
        match pos.piece_at(sq) {
            Some(piece) => {
                let plane = plane_index(piece);
                let idx = plane * 64 + sq as usize;
                planes.set(idx, 1u8);
                assert forall|j: int| 0 <= j < 768 implies #[trigger] planes@[j] == (if j % 64 < sq + 1 { encoded_input(view, j) } else { 0u8 }) by {
                    if j == idx as int {
                        assert(j % 64 == sq as int);
                        assert(j / 64 == plane as int);
                    } else if j % 64 == sq as int {
                        assert(j / 64 != plane as int);
                    }
                }
            },
            None => {
                assert forall|j: int| 0 <= j < 768 implies #[trigger] planes@[j] == (if j % 64 < sq + 1 { encoded_input(view, j) } else { 0u8 }) by {
                }
            },
        }
        sq = sq + 1;
    }
    if pos.turn().is_white() {
        let mut k: usize = 768;
        while k < ENCODED_LEN
            invariant
                768 <= k <= ENCODED_LEN,
                view == pos@,
                view.turn == Side::White,
                planes@.len() == ENCODED_LEN,
                forall|j: int| 0 <= j < 768 ==> #[trigger] planes@[j] == encoded_input(view, j),
                forall|j: int| 768 <= j < ENCODED_LEN ==> #[trigger] planes@[j] == (if j < k { 1u8 } else { 0u8 }),
            decreases ENCODED_LEN - k,
        {
            planes.set(k, 1u8);
            k = k + 1;
        }
    }
    planes
}


/// Each piece on the board sets exactly one of the twelve piece inputs of
/// its square, and an empty square sets none.
pub proof fn lemma_one_plane_per_piece(p: PositionView, sq: int, plane: int)
    requires
        0 <= sq < 64,
        0 <= plane < 12,
    ensures
        encoded_input(p, plane * 64 + sq) == (match p.board[sq] {
            Some(piece) => if plane_of(piece) == plane { 1u8 } else { 0u8 },
            None => 0u8,
        }),
{
    assert((plane * 64 + sq) % 64 == sq) by (nonlinear_arith)
        requires 0 <= sq < 64, 0 <= plane < 12;
    assert((plane * 64 + sq) / 64 == plane) by (nonlinear_arith)
        requires 0 <= sq < 64, 0 <= plane < 12;
}

/// The layer sizes of the value network: 832 inputs, three hidden layers, one output.
#[derive(Debug, Clone, Copy)]
pub struct ChessValueNetConfig {
    pub hidden1: usize,
    pub hidden2: usize,
    pub hidden3: usize,
}

impl ChessValueNetConfig {
    /// The default sizes: 256, 128 and 64.
    pub fn new() -> (r: ChessValueNetConfig)
        ensures
            r.hidden1 == 256 && r.hidden2 == 128 && r.hidden3 == 64,
    {
        ChessValueNetConfig { hidden1: 256, hidden2: 128, hidden3: 64 }
    }
}

} // verus!
