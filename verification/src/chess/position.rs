//! Chess positions: the board and game state as plain values, with the rules
//! of the game (move generation, check detection, move execution, notation)
//! supplied by the `shakmaty` crate.

use vstd::prelude::*;
use shakmaty::Position as RulesPosition;
use shakmaty::zobrist::{Zobrist64, ZobristHash};
use super::types::{ChessMove, Piece, PieceKind, Side, rank_of, role_upper, square_name};

verus! {

#[verifier::external_type_specification]
#[verifier::external_body]
pub struct ExChess(shakmaty::Chess);

#[verifier::external_type_specification]
#[verifier::external_body]
pub struct ExMove(shakmaty::Move);

#[verifier::external_type_specification]
#[verifier::external_body]
pub struct ExRole(shakmaty::Role);

#[verifier::external_type_specification]
#[verifier::external_body]
pub struct ExColor(shakmaty::Color);

/// What a position is made of: the pieces on the 64 squares, the side to
/// move, the castling rights (a bitboard of the rooks that may still castle),
/// the en passant square (only where an en passant capture is legal), the
/// half-move clock and the full-move number.
pub struct PositionView {
    pub board: Seq<Option<Piece>>,
    pub turn: Side,
    pub castling_rights: u64,
    pub ep_square: Option<u8>,
    pub halfmoves: u32,
    pub fullmoves: u32,
}

/// A legal chess position.
///
/// The fields hold the position both as plain values and as the `shakmaty`
/// position that they describe; every `Position` is made by the functions of
/// this module from a `shakmaty` position, so the two always agree.
pub struct Position {
    chess: shakmaty::Chess,
    board: Vec<Option<Piece>>,
    turn: Side,
    castling_rights: u64,
    ep_square: Option<u8>,
    halfmoves: u32,
    fullmoves: u32,
}

impl Position {
    #[verifier::type_invariant]
    spec fn well_formed(self) -> bool {
        self.board@.len() == 64
    }
}

impl View for Position {
    type V = PositionView;

    closed spec fn view(&self) -> PositionView {
        PositionView {
            board: Seq::new(64, |i: int| self.board@[i]),
            turn: self.turn,
            castling_rights: self.castling_rights,
            ep_square: self.ep_square,
            halfmoves: self.halfmoves,
            fullmoves: self.fullmoves,
        }
    }
}

/// The legal moves of a position, in the order in which `shakmaty` generates them.
pub uninterp spec fn legal_moves_of(p: PositionView) -> Seq<ChessMove>;

/// The side to move is in check.
pub uninterp spec fn in_check(p: PositionView) -> bool;

/// Neither side has enough material left to deliver mate.
pub uninterp spec fn insufficient_material(p: PositionView) -> bool;

/// The position reached by playing a legal move.
pub uninterp spec fn after_move(p: PositionView, m: ChessMove) -> PositionView;

/// The 64-bit Zobrist hash of a position.
pub uninterp spec fn zobrist_key(p: PositionView) -> u64;

/// The FEN text of a position.
pub uninterp spec fn fen_text(p: PositionView) -> Seq<char>;

/// The EPD text of a position.
pub uninterp spec fn epd_text(p: PositionView) -> Seq<char>;

/// The position that a FEN text describes, if it is valid FEN of a legal position.
pub uninterp spec fn fen_position(s: Seq<char>) -> Option<PositionView>;

/// The message that explains why a FEN text was rejected.
pub uninterp spec fn fen_error_text(s: Seq<char>) -> Seq<char>;

/// A text is syntactically FEN.
pub uninterp spec fn fen_syntax_ok(s: Seq<char>) -> bool;

/// Why a FEN text was rejected, with the message of the step that failed.
pub enum FenFailure {
    /// The text is not FEN.
    Syntax(String),
    /// The text is FEN, but of a position that is not legal.
    IllegalPosition(String),
}

impl FenFailure {
    pub open spec fn message(self) -> String {
        match self {
            FenFailure::Syntax(m) => m,
            FenFailure::IllegalPosition(m) => m,
        }
    }
}

/// The standard algebraic notation of a move, with check or mate suffix where it is legal.
pub uninterp spec fn san_text(p: PositionView, m: ChessMove) -> Seq<char>;

/// The standard algebraic notation, with suffix, that is produced while playing a legal move.
pub uninterp spec fn san_play_text(p: PositionView, m: ChessMove) -> Seq<char>;

/// The lower-case letter of a role, as UCI writes promotions.
pub open spec fn role_lower(r: PieceKind) -> char {
    match r {
        PieceKind::Pawn => 'p',
        PieceKind::Knight => 'n',
        PieceKind::Bishop => 'b',
        PieceKind::Rook => 'r',
        PieceKind::Queen => 'q',
        PieceKind::King => 'k',
    }
}

/// The UCI text of a move in standard chess, as `UciMove::from_standard`
/// and its `Display` write it: origin and target squares, then the
/// promotion in lower case (`e7e8q`); castling as the king's move to the
/// g- or c-file (`e1g1`); a drop as the role, `@` and the square.
pub open spec fn uci_text(m: ChessMove) -> Seq<char> {
    match m {
        ChessMove::Normal { from, to, promotion, .. } => square_name(from as int) + square_name(to as int)
            + match promotion {
                Some(p) => seq![role_lower(p)],
                None => Seq::<char>::empty(),
            },
        ChessMove::EnPassant { from, to } => square_name(from as int) + square_name(to as int),
        ChessMove::Castle { king, rook } => square_name(king as int)
            + square_name(rank_of(king as int) * 8 + if king < rook { 6int } else { 2int }),
        ChessMove::Put { role, to } => seq![role_upper(role), '@'] + square_name(to as int),
    }
}

/// A text is syntactically a UCI move.
pub uninterp spec fn uci_syntax_ok(s: Seq<char>) -> bool;

/// The legal move that a UCI text denotes in a position, if any.
pub uninterp spec fn uci_move(p: PositionView, s: Seq<char>) -> Option<ChessMove>;

/// A text is syntactically a SAN move.
pub uninterp spec fn san_syntax_ok(s: Seq<char>) -> bool;

/// What a syntactically valid SAN text gives in a position: the legal move
/// it denotes, or `Illegal` when no legal move matches it, or `Ambiguous`
/// when several do.
pub uninterp spec fn san_move(p: PositionView, s: Seq<char>) -> Result<ChessMove, NotationFailure>;

/// The side to move is checkmated.
pub open spec fn checkmated(p: PositionView) -> bool {
    in_check(p) && legal_moves_of(p).len() == 0
}

/// The side to move is stalemated.
pub open spec fn stalemated(p: PositionView) -> bool {
    !in_check(p) && legal_moves_of(p).len() == 0
}

/// How a finished game ended, as the rules see it.
#[derive(Debug, Clone, Copy, PartialEq, Eq, Structural)]
pub enum GameOutcome {
    Decisive { winner: Side },
    Draw,
}

/// The outcome of a position: mate, stalemate or insufficient material.
pub open spec fn outcome_of(p: PositionView) -> Option<GameOutcome> {
    if legal_moves_of(p).len() == 0 {
        if in_check(p) {
            Some(GameOutcome::Decisive { winner: p.turn.opposite() })
        } else {
            Some(GameOutcome::Draw)
        }
    } else if insufficient_material(p) {
        Some(GameOutcome::Draw)
    } else {
        None
    }
}

/// The role of the pieces on the first and eighth rank, by file, at the start.
pub open spec fn back_rank_role(file: int) -> PieceKind {
    if file == 0 || file == 7 {
        PieceKind::Rook
    } else if file == 1 || file == 6 {
        PieceKind::Knight
    } else if file == 2 || file == 5 {
        PieceKind::Bishop
    } else if file == 3 {
        PieceKind::Queen
    } else {
        PieceKind::King
    }
}

/// The piece on a square at the start of a game.
pub open spec fn initial_square(sq: int) -> Option<Piece> {
    let rank = sq / 8;
    let file = sq % 8;
    if rank == 0 {
        Some(Piece { color: Side::White, role: back_rank_role(file) })
    } else if rank == 1 {
        Some(Piece { color: Side::White, role: PieceKind::Pawn })
    } else if rank == 6 {
        Some(Piece { color: Side::Black, role: PieceKind::Pawn })
    } else if rank == 7 {
        Some(Piece { color: Side::Black, role: back_rank_role(file) })
    } else {
        None
    }
}

/// The starting position: White to move, all castling rights (the rooks on
/// a1, h1, a8 and h8), no en passant square, clocks at zero and move one.
pub open spec fn initial_position() -> PositionView {
    PositionView {
        board: Seq::new(64, |sq: int| initial_square(sq)),
        turn: Side::White,
        castling_rights: 0x8100_0000_0000_0081u64,
        ep_square: None,
        halfmoves: 0,
        fullmoves: 1,
    }
}

/// Converts a `shakmaty` role.
#[verifier::external_body]
fn role_in(r: shakmaty::Role) -> PieceKind {
    match r {
        shakmaty::Role::Pawn => PieceKind::Pawn,
        shakmaty::Role::Knight => PieceKind::Knight,
        shakmaty::Role::Bishop => PieceKind::Bishop,
        shakmaty::Role::Rook => PieceKind::Rook,
        shakmaty::Role::Queen => PieceKind::Queen,
        shakmaty::Role::King => PieceKind::King,
    }
}

/// Converts a role to a `shakmaty` role.
#[verifier::external_body]
fn role_out(r: PieceKind) -> shakmaty::Role {
    match r {
        PieceKind::Pawn => shakmaty::Role::Pawn,
        PieceKind::Knight => shakmaty::Role::Knight,
        PieceKind::Bishop => shakmaty::Role::Bishop,
        PieceKind::Rook => shakmaty::Role::Rook,
        PieceKind::Queen => shakmaty::Role::Queen,
        PieceKind::King => shakmaty::Role::King,
    }
}

/// Converts a `shakmaty` colour.
#[verifier::external_body]
fn side_in(c: shakmaty::Color) -> Side {
    match c {
        shakmaty::Color::White => Side::White,
        shakmaty::Color::Black => Side::Black,
    }
}

/// Converts a `shakmaty` move.
#[verifier::external_body]
fn move_in(m: &shakmaty::Move) -> ChessMove {
    match *m {
        shakmaty::Move::Normal { role, from, capture, to, promotion } => ChessMove::Normal {
            role: role_in(role), from: u8::from(from), capture: capture.map(role_in),
            to: u8::from(to), promotion: promotion.map(role_in),
        },
        shakmaty::Move::EnPassant { from, to } => ChessMove::EnPassant { from: u8::from(from), to: u8::from(to) },
        shakmaty::Move::Castle { king, rook } => ChessMove::Castle { king: u8::from(king), rook: u8::from(rook) },
        shakmaty::Move::Put { role, to } => ChessMove::Put { role: role_in(role), to: u8::from(to) },
    }
}

/// Converts a move to a `shakmaty` move.
#[verifier::external_body]
fn move_out(m: &ChessMove) -> shakmaty::Move
    requires
        m.well_formed(),
{
    let sq = |s: u8| shakmaty::Square::new(s as u32);
    match *m {
        ChessMove::Normal { role, from, capture, to, promotion } => shakmaty::Move::Normal {
            role: role_out(role), from: sq(from), capture: capture.map(role_out),
            to: sq(to), promotion: promotion.map(role_out),
        },
        ChessMove::EnPassant { from, to } => shakmaty::Move::EnPassant { from: sq(from), to: sq(to) },
        ChessMove::Castle { king, rook } => shakmaty::Move::Castle { king: sq(king), rook: sq(rook) },
        ChessMove::Put { role, to } => shakmaty::Move::Put { role: role_out(role), to: sq(to) },
    }
}

/// A copy of a position: the `shakmaty` position cloned (`Chess::clone`)
/// together with the plain values that describe it, so the two still agree.
#[verifier::external_body]
fn copy_position(p: &Position) -> (r: Position)
    ensures
        r@ == p@,
{
    Position { chess: p.chess.clone(), board: p.board.clone(), ..*p }
}

/// Reads a `shakmaty` position into its plain values (`Board::piece_at`,
/// `Position::turn`, `castling_rights`, `ep_square`, `halfmoves`, `fullmoves`).
#[verifier::external_body]
fn from_rules(chess: shakmaty::Chess) -> Position {
    let board = (0..64u32).map(|i| chess.board().piece_at(shakmaty::Square::new(i))
        .map(|p| Piece { color: side_in(p.color), role: role_in(p.role) })).collect();
    Position {
        board,
        turn: side_in(chess.turn()),
        castling_rights: chess.castles().castling_rights().0,
        ep_square: chess.ep_square(shakmaty::EnPassantMode::Legal).map(u8::from),
        halfmoves: chess.halfmoves(),
        fullmoves: chess.fullmoves().get(),
        chess,
    }
}

impl Position {
    /// The starting position (`Chess::default`).
    #[verifier::external_body]
    pub(crate) fn initial() -> (r: Position)
        ensures
            r@ == initial_position(),
    {
        from_rules(shakmaty::Chess::default())
    }

    /// Parses a FEN text into a position in standard castling mode
    /// (`Fen::from_ascii`, then `Fen::into_position`), with the failing
    /// step's message on error.
    #[verifier::external_body]
    pub(crate) fn from_fen(s: &str) -> (r: Result<Position, FenFailure>)
        ensures
            r is Ok <==> fen_position(s@) is Some,
            r is Ok ==> Some(r->Ok_0@) == fen_position(s@),
            (r is Err && r->Err_0 is Syntax) <==> !fen_syntax_ok(s@),
            r is Err ==> r->Err_0.message()@ == fen_error_text(s@),
    {
        let fen = shakmaty::fen::Fen::from_ascii(s.as_bytes()).map_err(|e| FenFailure::Syntax(e.to_string()))?;
        fen.into_position(shakmaty::CastlingMode::Standard).map(from_rules)
            .map_err(|e| FenFailure::IllegalPosition(e.to_string()))
    }

    /// The FEN text of the position (`Fen::from_position` with legal en passant squares).
    #[verifier::external_body]
    pub(crate) fn to_fen(&self) -> (r: String)
        ensures
            r@ == fen_text(self@),
    {
        shakmaty::fen::Fen::from_position(self.chess.clone(), shakmaty::EnPassantMode::Legal).to_string()
    }

    /// The EPD text of the position (`Epd::from_position` with legal en passant squares).
    #[verifier::external_body]
    pub(crate) fn to_epd(&self) -> (r: String)
        ensures
            r@ == epd_text(self@),
    {
        shakmaty::fen::Epd::from_position(self.chess.clone(), shakmaty::EnPassantMode::Legal).to_string()
    }

    /// A copy of the position.
    pub fn duplicate(&self) -> (r: Position)
        ensures
            r@ == self@,
    {
        copy_position(self)
    }

    /// The legal moves (`Position::legal_moves`). In standard chess every
    /// legal move has an origin square.
    #[verifier::external_body]
    pub(crate) fn legal_moves(&self) -> (r: Vec<ChessMove>)
        ensures
            r@ == legal_moves_of(self@),
            forall|i: int| 0 <= i < r@.len() ==> (#[trigger] r@[i]).well_formed() && r@[i].origin() is Some,
    {
        self.chess.legal_moves().iter().map(move_in).collect()
    }

    /// Whether the side to move is in check (`Position::is_check`).
    #[verifier::external_body]
    pub(crate) fn is_check(&self) -> (r: bool)
        ensures
            r == in_check(self@),
    {
        self.chess.is_check()
    }

    /// Checkmate: in check and without a legal move (`Position::is_checkmate`).
    #[verifier::external_body]
    pub(crate) fn is_checkmate(&self) -> (r: bool)
        ensures
            r == checkmated(self@),
    {
        self.chess.is_checkmate()
    }

    /// Stalemate: not in check and without a legal move (`Position::is_stalemate`).
    #[verifier::external_body]
    pub(crate) fn is_stalemate(&self) -> (r: bool)
        ensures
            r == stalemated(self@),
    {
        self.chess.is_stalemate()
    }

    /// Insufficient material on both sides (`Position::is_insufficient_material`).
    #[verifier::external_body]
    pub(crate) fn is_insufficient_material(&self) -> (r: bool)
        ensures
            r == insufficient_material(self@),
    {
        self.chess.is_insufficient_material()
    }

    /// The outcome of the game, if it is over (`Position::outcome`).
    #[verifier::external_body]
    pub(crate) fn outcome(&self) -> (r: Option<GameOutcome>)
        ensures
            r == outcome_of(self@),
    {
        self.chess.outcome().map(|o| match o {
            shakmaty::Outcome::Decisive { winner } => GameOutcome::Decisive { winner: side_in(winner) },
            shakmaty::Outcome::Draw => GameOutcome::Draw,
        })
    }

    /// Plays a move (`Position::play`): the position after it if it is
    /// legal, `None` otherwise.
    #[verifier::external_body]
    pub(crate) fn play(&self, m: &ChessMove) -> (r: Option<Position>)
        requires
            m.well_formed(),
        ensures
            r is Some <==> legal_moves_of(self@).contains(*m),
            r matches Some(q) ==> q@ == after_move(self@, *m),
    {
        self.chess.clone().play(&move_out(m)).ok().map(from_rules)
    }

    /// The Zobrist hash of the position, counting legal en passant squares
    /// (`ZobristHash::zobrist_hash::<Zobrist64>`).
    #[verifier::external_body]
    pub(crate) fn zobrist(&self) -> (r: u64)
        ensures
            r == zobrist_key(self@),
    {
        self.chess.zobrist_hash::<Zobrist64>(shakmaty::EnPassantMode::Legal).0
    }

    /// The standard algebraic notation of a move, with check or mate suffix
    /// where the move is legal (`SanPlus::from_move`).
    #[verifier::external_body]
    pub(crate) fn san(&self, m: &ChessMove) -> (r: String)
        requires
            m.well_formed(),
        ensures
            r@ == san_text(self@, *m),
    {
        shakmaty::san::SanPlus::from_move(self.chess.clone(), &move_out(m)).to_string()
    }

    /// Plays a legal move and returns its standard algebraic notation with
    /// suffix (`SanPlus::from_move_and_play_unchecked`).
    #[verifier::external_body]
    pub(crate) fn play_with_san(&mut self, m: &ChessMove) -> (r: String)
        requires
            legal_moves_of(old(self)@).contains(*m),
            m.well_formed(),
        ensures
            r@ == san_play_text(old(self)@, *m),
            final(self)@ == after_move(old(self)@, *m),
    {
        let mut chess = self.chess.clone();
        let san = shakmaty::san::SanPlus::from_move_and_play_unchecked(&mut chess, &move_out(m));
        *self = from_rules(chess);
        san.to_string()
    }

    /// Reads a UCI move in this position (`UciMove::from_ascii`, then
    /// `UciMove::to_move`).
    #[verifier::external_body]
    pub(crate) fn parse_uci_move(&self, s: &str) -> (r: Result<ChessMove, NotationFailure>)
        ensures
            (r == Err::<ChessMove, NotationFailure>(NotationFailure::Syntax)) == !uci_syntax_ok(s@),
            (r == Err::<ChessMove, NotationFailure>(NotationFailure::Illegal)) == (uci_syntax_ok(s@) && uci_move(self@, s@) is None),
            r is Err ==> r->Err_0 != NotationFailure::Ambiguous,
            r is Ok ==> uci_syntax_ok(s@) && uci_move(self@, s@) == Some(r->Ok_0)
                && legal_moves_of(self@).contains(r->Ok_0) && r->Ok_0.well_formed() && r->Ok_0.origin() is Some,
    {
        let uci = shakmaty::uci::UciMove::from_ascii(s.as_bytes()).map_err(|_| NotationFailure::Syntax)?;
        uci.to_move(&self.chess).map(|m| move_in(&m)).map_err(|_| NotationFailure::Illegal)
    }

    /// Reads a SAN move in this position (`San::from_ascii`, then
    /// `San::to_move`): a text that is not SAN is refused as `Syntax`; the
    /// result of a SAN text is `san_move`.
    #[verifier::external_body]
    pub(crate) fn parse_san_move(&self, s: &str) -> (r: Result<ChessMove, NotationFailure>)
        ensures
            (r == Err::<ChessMove, NotationFailure>(NotationFailure::Syntax)) == !san_syntax_ok(s@),
            san_syntax_ok(s@) ==> r == san_move(self@, s@),
            r is Ok ==> legal_moves_of(self@).contains(r->Ok_0) && r->Ok_0.well_formed() && r->Ok_0.origin() is Some,
    {
        let san = shakmaty::san::San::from_ascii(s.as_bytes()).map_err(|_| NotationFailure::Syntax)?;
        san.to_move(&self.chess).map(|m| move_in(&m)).map_err(|e| match e {
            shakmaty::san::SanError::IllegalSan => NotationFailure::Illegal,
            shakmaty::san::SanError::AmbiguousSan => NotationFailure::Ambiguous,
        })
    }

    /// The piece on a square.
    pub fn piece_at(&self, sq: u8) -> (r: Option<Piece>)
        requires
            sq < 64,
        ensures
            r == self@.board[sq as int],
    {
        proof { use_type_invariant(self); }
        self.board[sq as usize]
    }

    /// The side to move.
    pub fn turn(&self) -> (r: Side)
        ensures
            r == self@.turn,
    {
        self.turn
    }

    /// The half-move clock.
    pub fn halfmoves(&self) -> (r: u32)
        ensures
            r == self@.halfmoves,
    {
        self.halfmoves
    }

    /// The full-move number.
    pub fn fullmoves(&self) -> (r: u32)
        ensures
            r == self@.fullmoves,
    {
        self.fullmoves
    }

    /// The castling rights, as a bitboard of rook squares.
    pub fn castling_rights(&self) -> (r: u64)
        ensures
            r == self@.castling_rights,
    {
        self.castling_rights
    }

    /// The en passant square, where an en passant capture is legal.
    pub fn ep_square(&self) -> (r: Option<u8>)
        ensures
            r == self@.ep_square,
    {
        self.ep_square
    }
}

/// Why a move text was not accepted.
#[derive(Debug, Clone, Copy, PartialEq, Eq, Structural)]
pub enum NotationFailure {
    /// The text is not a move in the notation.
    Syntax,
    /// The text is a move, but not a legal one in the position.
    Illegal,
    /// The text matches more than one legal move of the position.
    Ambiguous,
}

/// The UCI text of a move (`UciMove::from_standard`, then `Display`).
#[verifier::external_body]
pub(crate) fn move_uci(m: &ChessMove) -> (r: String)
    requires
        m.well_formed(),
    ensures
        r@ == uci_text(*m),
{
    shakmaty::uci::UciMove::from_standard(&move_out(m)).to_string()
}

/// The long algebraic notation of a move (`Display` for `Move`).
#[verifier::external_body]
pub(crate) fn move_text(m: &ChessMove) -> (r: String)
    requires
        m.well_formed(),
    ensures
        r@ == super::types::long_algebraic(*m),
{
    move_out(m).to_string()
}

} // verus!
