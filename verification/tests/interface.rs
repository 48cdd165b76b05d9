use ml_chess::chess::board::GameState;
use ml_chess::chess::types::{PieceKind, Side};
use ml_chess::tui::board_widget::{piece_glyph, square_cell, BoardState, Shade};

#[test]
fn board_widget_renders_without_panic() {
    let state = BoardState::default();
    // A1: file=0, rank=0 -> col=2, row=14; (0+0)%2==0 -> dark square
    assert_eq!(square_cell(state.flipped, 0, 0), (2, 14));
    assert_eq!(state.shade(0, 0), Shade::Dark);
}

#[test]
fn board_widget_initial_rook_on_a1() {
    let pos = GameState::new().position;
    let state = BoardState::default();
    let (col, row) = square_cell(state.flipped, 0, 0);
    // White Rook glyph at (col+1, row) = (3, 14)
    assert_eq!((col + 1, row), (3, 14));
    let piece = pos.piece_at(0).expect("a piece on a1");
    assert_eq!(piece.role, PieceKind::Rook);
    assert_eq!(piece.color, Side::White);
    assert_eq!(piece_glyph(piece.role, piece.color), "♖");
}
