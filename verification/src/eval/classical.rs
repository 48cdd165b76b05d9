//! The classical evaluator: material and piece-square tables.

use vstd::prelude::*;
use crate::chess::position::{Position, PositionView, checkmated, stalemated, in_check, insufficient_material, initial_position, initial_square, legal_moves_of};
use crate::chess::types::{Piece, PieceKind, Side, flip_vertical, flip_square, is_square, lemma_flip_involutive};

verus! {

/// The score of a checkmate, in centipawns.
pub const MATE_SCORE: i32 = 1_000_000;

/// The score of a drawn position.
pub const DRAW_SCORE: i32 = 0;

pub const PAWN_PST: [i32; 64] = [
      0,   0,   0,   0,   0,   0,   0,   0,
      5,  10,  10, -20, -20,  10,  10,   5,
      5,  -5, -10,   0,   0, -10,  -5,   5,
      0,   0,   0,  20,  20,   0,   0,   0,
      5,   5,  10,  25,  25,  10,   5,   5,
     10,  10,  20,  30,  30,  20,  10,  10,
     50,  50,  50,  50,  50,  50,  50,  50,
      0,   0,   0,   0,   0,   0,   0,   0,
];

pub const KNIGHT_PST: [i32; 64] = [
    -50, -40, -30, -30, -30, -30, -40, -50,
    -40, -20,   0,   5,   5,   0, -20, -40,
    -30,   5,  10,  15,  15,  10,   5, -30,
    -30,   0,  15,  20,  20,  15,   0, -30,
    -30,   5,  15,  20,  20,  15,   5, -30,
    -30,   0,  10,  15,  15,  10,   0, -30,
    -40, -20,   0,   0,   0,   0, -20, -40,
    -50, -40, -30, -30, -30, -30, -40, -50,
];

pub const BISHOP_PST: [i32; 64] = [
    -20, -10, -10, -10, -10, -10, -10, -20,
    -10,   5,   0,   0,   0,   0,   5, -10,
    -10,  10,  10,  10,  10,  10,  10, -10,
    -10,   0,  10,  10,  10,  10,   0, -10,
    -10,   5,   5,  10,  10,   5,   5, -10,
    -10,   0,   5,  10,  10,   5,   0, -10,
    -10,   0,   0,   0,   0,   0,   0, -10,
    -20, -10, -10, -10, -10, -10, -10, -20,
];

pub const ROOK_PST: [i32; 64] = [
      0,   0,   0,   5,   5,   0,   0,   0,
     -5,   0,   0,   0,   0,   0,   0,  -5,
     -5,   0,   0,   0,   0,   0,   0,  -5,
     -5,   0,   0,   0,   0,   0,   0,  -5,
     -5,   0,   0,   0,   0,   0,   0,  -5,
     -5,   0,   0,   0,   0,   0,   0,  -5,
      5,  10,  10,  10,  10,  10,  10,   5,
      0,   0,   0,   0,   0,   0,   0,   0,
];

pub const QUEEN_PST: [i32; 64] = [
    -20, -10, -10,  -5,  -5, -10, -10, -20,
    -10,   0,   5,   0,   0,   0,   0, -10,
    -10,   5,   5,   5,   5,   5,   0, -10,
      0,   0,   5,   5,   5,   5,   0,  -5,
     -5,   0,   5,   5,   5,   5,   0,  -5,
    -10,   0,   5,   5,   5,   5,   0, -10,
    -10,   0,   0,   0,   0,   0,   0, -10,
    -20, -10, -10,  -5,  -5, -10, -10, -20,
];

pub const KING_MIDGAME_PST: [i32; 64] = [
     20,  30,  10,   0,   0,  10,  30,  20,
     20,  20,   0,   0,   0,   0,  20,  20,
    -10, -20, -20, -20, -20, -20, -20, -10,
    -20, -30, -30, -40, -40, -30, -30, -20,
    -30, -40, -40, -50, -50, -40, -40, -30,
    -30, -40, -40, -50, -50, -40, -40, -30,
    -30, -40, -40, -50, -50, -40, -40, -30,
    -30, -40, -40, -50, -50, -40, -40, -30,
];

/// The material value of a piece kind, in centipawns.
pub open spec fn material(kind: PieceKind) -> int {
    match kind {
        PieceKind::Pawn => 100,
        PieceKind::Knight => 320,
        PieceKind::Bishop => 330,
        PieceKind::Rook => 500,
        PieceKind::Queen => 900,
        PieceKind::King => 20_000,
    }
}

/// The piece-square table of a piece kind, indexed from White's side.
pub open spec fn table_of(kind: PieceKind) -> Seq<i32> {
    match kind {
        PieceKind::Pawn => PAWN_PST@,
        PieceKind::Knight => KNIGHT_PST@,
        PieceKind::Bishop => BISHOP_PST@,
        PieceKind::Rook => ROOK_PST@,
        PieceKind::Queen => QUEEN_PST@,
        PieceKind::King => KING_MIDGAME_PST@,
    }
}

/// The contribution of the piece on a square, from White's point of view:
/// material plus the table entry (looked up on the mirrored square for
/// Black), positive for White's pieces and negative for Black's.
pub open spec fn square_score(board: Seq<Option<Piece>>, sq: int) -> int {
    match board[sq] {
        None => 0,
        Some(p) => {
            let idx = if p.color == Side::White { sq } else { flip_vertical(sq) };
            let v = material(p.role) + table_of(p.role)[idx];
            if p.color == Side::White { v } else { -v }
        },
    }
}

/// The sum of the first `n` squares of a rank.
pub open spec fn files_score(board: Seq<Option<Piece>>, rank: int, n: int) -> int
    decreases n,
{
    if n <= 0 { 0 } else { files_score(board, rank, n - 1) + square_score(board, rank * 8 + n - 1) }
}

/// The sum of the first `n` ranks.
pub open spec fn ranks_score(board: Seq<Option<Piece>>, n: int) -> int
    decreases n,
{
    if n <= 0 { 0 } else { ranks_score(board, n - 1) + files_score(board, n - 1, 8) }
}

/// The material and placement balance of a board: the sum of all squares.
pub open spec fn board_score(board: Seq<Option<Piece>>) -> int {
    ranks_score(board, 8)
}

/// The evaluation of a position, from White's point of view: a mate scores
/// `MATE_SCORE` for the winner, stalemate and insufficient material are
/// draws, otherwise the board balance.
pub open spec fn evaluation(p: PositionView) -> int {
    if checkmated(p) {
        if p.turn == Side::White { -MATE_SCORE } else { MATE_SCORE as int }
    } else if stalemated(p) || insufficient_material(p) {
        DRAW_SCORE as int
    } else {
        board_score(p.board)
    }
}

/// The largest size of one square's contribution.
pub open spec fn square_bound() -> int {
    20_050
}

spec fn bounded_prefix(t: Seq<i32>, n: nat) -> bool
    decreases n,
{
    n == 0 || (bounded_prefix(t, (n - 1) as nat) && -50 <= t[n - 1] <= 50)
}

proof fn lemma_bounded_prefix(t: Seq<i32>, n: nat, i: int)
    requires
        bounded_prefix(t, n),
        0 <= i < n,
    ensures
        -50 <= t[i] <= 50,
    decreases n,
{
    if i < n - 1 {
        lemma_bounded_prefix(t, (n - 1) as nat, i);
    }
}

proof fn lemma_table_bounded(kind: PieceKind, i: int)
    requires
        0 <= i < 64,
    ensures
        table_of(kind).len() == 64,
        -50 <= table_of(kind)[i] <= 50,
{
    reveal_with_fuel(bounded_prefix, 65);
    assert(bounded_prefix(table_of(kind), 64));
    lemma_bounded_prefix(table_of(kind), 64, i);
}

proof fn lemma_square_bounded(board: Seq<Option<Piece>>, sq: int)
    requires
        is_square(sq),
    ensures
        -square_bound() <= square_score(board, sq) <= square_bound(),
{
    lemma_flip_involutive(sq);
    match board[sq] {
        None => {},
        Some(p) => {
            let idx = if p.color == Side::White { sq } else { flip_vertical(sq) };
            lemma_table_bounded(p.role, idx);
        },
    }
}

proof fn lemma_files_bounded(board: Seq<Option<Piece>>, rank: int, n: int)
    requires
        0 <= rank < 8,
        0 <= n <= 8,
    ensures
        -n * square_bound() <= files_score(board, rank, n) <= n * square_bound(),
    decreases n,
{
    if n > 0 {
        lemma_files_bounded(board, rank, n - 1);
        lemma_square_bounded(board, rank * 8 + n - 1);
    }
}

proof fn lemma_ranks_bounded(board: Seq<Option<Piece>>, n: int)
    requires
        0 <= n <= 8,
    ensures
        -n * 8 * square_bound() <= ranks_score(board, n) <= n * 8 * square_bound(),
    decreases n,
{
    if n > 0 {
        lemma_ranks_bounded(board, n - 1);
        lemma_files_bounded(board, n - 1, 8);
    }
}

/// Every board balance lies within ±1 283 200 centipawns, so it fits an `i32`.
pub proof fn lemma_board_score_bounded(board: Seq<Option<Piece>>)
    ensures
        -1_283_200 <= board_score(board) <= 1_283_200,
{
    lemma_ranks_bounded(board, 8);
}

/// Every evaluation lies within ±1 283 200 centipawns.
pub proof fn lemma_evaluation_bounded(p: PositionView)
    ensures
        -1_283_200 <= evaluation(p) <= 1_283_200,
{
    lemma_board_score_bounded(p.board);
}

/// The material value of a piece kind.
pub fn material_value(kind: PieceKind) -> (r: i32)
    ensures
        r == material(kind),
{
    match kind {
        PieceKind::Pawn => 100,
        PieceKind::Knight => 320,
        PieceKind::Bishop => 330,
        PieceKind::Rook => 500,
        PieceKind::Queen => 900,
        PieceKind::King => 20_000,
    }
}

/// The piece-square table of a piece kind.
pub fn pst_for(kind: PieceKind) -> (r: &'static [i32; 64])
    ensures
        r@ == table_of(kind),
{
    match kind {
        PieceKind::Pawn => &PAWN_PST,
        PieceKind::Knight => &KNIGHT_PST,
        PieceKind::Bishop => &BISHOP_PST,
        PieceKind::Rook => &ROOK_PST,
        PieceKind::Queen => &QUEEN_PST,
        PieceKind::King => &KING_MIDGAME_PST,
    }
}

fn square_contribution(pos: &Position, sq: u8) -> (r: i32)
    requires
        sq < 64,
    ensures
        r == square_score(pos@.board, sq as int),
{
    proof { lemma_square_bounded(pos@.board, sq as int); }
    match pos.piece_at(sq) {
        None => 0,
        Some(piece) => {
            let idx = if piece.color.is_white() { sq } else { flip_square(sq) };
            proof { lemma_table_bounded(piece.role, idx as int); }
            let value = material_value(piece.role) + pst_for(piece.role)[idx as usize];
            if piece.color.is_white() { value } else { -value }
        },
    }
}

/// Evaluates a position from White's point of view, in centipawns.
pub fn evaluate(pos: &Position) -> (r: i32)
    ensures
        r == evaluation(pos@),
{
    if pos.is_checkmate() {
        return if pos.turn().is_white() { -MATE_SCORE } else { MATE_SCORE };
    }
    if pos.is_stalemate() || pos.is_insufficient_material() {
        return DRAW_SCORE;
    }
    let ghost board = pos@.board;
    let mut score: i32 = 0;
    let mut rank: u8 = 0;
    while rank < 8
        invariant
            rank <= 8,
            board == pos@.board,
            score == ranks_score(board, rank as int),
        decreases 8 - rank,
    {
        let mut file: u8 = 0;
        while file < 8
            invariant
                rank < 8,
                file <= 8,
                board == pos@.board,
                score == ranks_score(board, rank as int) + files_score(board, rank as int, file as int),
            decreases 8 - file,
        {
            proof {
                lemma_ranks_bounded(board, rank as int);
                lemma_files_bounded(board, rank as int, file as int + 1);
            }
            score = score + square_contribution(pos, rank * 8 + file);
            file = file + 1;
        }
        rank = rank + 1;
    }
    score
}

/// A board seen from the other side: every piece changes colour and moves
/// to the mirrored square.
pub open spec fn mirror_board(board: Seq<Option<Piece>>) -> Seq<Option<Piece>> {
    Seq::new(64, |sq: int| match board[flip_vertical(sq)] {
        Some(p) => Some(Piece { color: p.color.opposite(), role: p.role }),
        None => None,
    })
}

proof fn lemma_mirror_square(board: Seq<Option<Piece>>, sq: int)
    requires
        is_square(sq),
    ensures
        square_score(mirror_board(board), sq) == -square_score(board, flip_vertical(sq)),
{
    lemma_flip_involutive(sq);
}

proof fn lemma_mirror_files(board: Seq<Option<Piece>>, rank: int, n: int)
    requires
        0 <= rank < 8,
        0 <= n <= 8,
    ensures
        files_score(mirror_board(board), rank, n) == -files_score(board, 7 - rank, n),
    decreases n,
{
    if n > 0 {
        lemma_mirror_files(board, rank, n - 1);
        let sq = rank * 8 + n - 1;
        lemma_mirror_square(board, sq);
        assert(flip_vertical(sq) == (7 - rank) * 8 + n - 1);
    }
}

/// Colour symmetry of the board balance: seen from the other side, a board
/// is worth exactly the opposite.
pub proof fn lemma_mirror_negates_score(board: Seq<Option<Piece>>)
    ensures
        board_score(mirror_board(board)) == -board_score(board),
{
    let m = mirror_board(board);
    reveal_with_fuel(ranks_score, 9);
    lemma_mirror_files(board, 0, 8);
    lemma_mirror_files(board, 1, 8);
    lemma_mirror_files(board, 2, 8);
    lemma_mirror_files(board, 3, 8);
    lemma_mirror_files(board, 4, 8);
    lemma_mirror_files(board, 5, 8);
    lemma_mirror_files(board, 6, 8);
    lemma_mirror_files(board, 7, 8);
}

/// The starting board is its own mirror image.
pub proof fn lemma_initial_board_symmetric()
    ensures
        mirror_board(initial_position().board) =~= initial_position().board,
{
    let b = initial_position().board;
    assert forall|sq: int| 0 <= sq < 64 implies #[trigger] mirror_board(b)[sq] == b[sq] by {
        lemma_flip_involutive(sq);
        let f = flip_vertical(sq);
        assert(f / 8 == 7 - sq / 8);
        assert(f % 8 == sq % 8);
    }
}

/// The starting board is balanced: its score is zero.
pub proof fn lemma_initial_board_balanced()
    ensures
        board_score(initial_position().board) == 0,
{
    lemma_initial_board_symmetric();
    lemma_mirror_negates_score(initial_position().board);
}

/// Colour symmetry of the evaluation: a position seen from the other side
/// (board mirrored with the colours swapped, the other side to move) is
/// worth exactly the opposite, provided the rules treat the two alike: the
/// side to move is in check in one exactly when it is in the other, both
/// have the same number of legal moves, and both have or lack sufficient
/// material. A mate then scores against the mated side in both, and a draw
/// is a draw in both.
pub proof fn lemma_mirror_negates_evaluation(p: PositionView, m: PositionView)
    requires
        m.board == mirror_board(p.board),
        m.turn == p.turn.opposite(),
        in_check(m) == in_check(p),
        legal_moves_of(m).len() == legal_moves_of(p).len(),
        insufficient_material(m) == insufficient_material(p),
    ensures
        evaluation(m) == -evaluation(p),
{
    lemma_mirror_negates_score(p.board);
}

/// How a finished game scores: a mated side has lost by the mate score
/// (negative when White is mated, positive when Black is), and a stalemate
/// or a position without enough material for mate is a draw, worth nothing,
/// whatever stands on the board.
pub proof fn lemma_finished_games_score(p: PositionView)
    ensures
        checkmated(p) && p.turn == Side::White ==> evaluation(p) == -MATE_SCORE,
        checkmated(p) && p.turn == Side::Black ==> evaluation(p) == MATE_SCORE,
        !checkmated(p) && stalemated(p) ==> evaluation(p) == 0,
        !checkmated(p) && insufficient_material(p) ==> evaluation(p) == 0,
        !checkmated(p) && !stalemated(p) && !insufficient_material(p) ==> evaluation(p) == board_score(p.board),
{
}

} // verus!
