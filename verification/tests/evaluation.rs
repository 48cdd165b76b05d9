use ml_chess::chess::board::GameState;
use ml_chess::chess::moves::parse_uci;
use ml_chess::chess::notation::fen_to_position;
use ml_chess::chess::position::Position;
use ml_chess::eval::classical::{evaluate, DRAW_SCORE, MATE_SCORE};
use ml_chess::eval::neural::encode_position;
use ml_chess::eval::policy::encode_move;

fn pos_from_fen(fen: &str) -> Position {
    match fen_to_position(fen) {
        Ok(p) => p,
        Err(_) => panic!("valid FEN"),
    }
}

#[test]
fn initial_position_is_zero() {
    let state = GameState::new();
    assert_eq!(evaluate(&state.position), 0);
}

#[test]
fn scholars_mate_white_wins() {
    let pos = pos_from_fen("r1bqkb1r/pppp1Qpp/2n2n2/4p3/2B1P3/8/PPPP1PPP/RNB1K1NR b KQkq - 0 4");
    assert_eq!(evaluate(&pos), MATE_SCORE);
}

#[test]
fn fools_mate_white_loses() {
    let mut state = GameState::new();
    for mv in ["f2f3", "e7e5", "g2g4", "d8h4"] {
        let m = parse_uci(&state.position, mv).expect("valid move");
        state.apply_move(m).expect("legal move");
    }
    assert_eq!(evaluate(&state.position), -MATE_SCORE);
}

#[test]
fn stalemate_is_draw() {
    let pos = pos_from_fen("k7/8/1QK5/8/8/8/8/8 b - - 0 1");
    assert_eq!(evaluate(&pos), DRAW_SCORE);
}

#[test]
fn extra_queen_for_white_is_positive() {
    let pos = pos_from_fen("rnb1kbnr/pppppppp/8/8/8/8/PPPPPPPP/RNBQKBNR w KQkq - 0 1");
    assert!(evaluate(&pos) > 800);
}

#[test]
fn encode_starting_position_has_32_pieces() {
    let state = GameState::new();
    let encoded = encode_position(&state);
    let piece_sum: u32 = encoded[..12 * 64].iter().map(|&x| x as u32).sum();
    assert_eq!(piece_sum, 32);
}

#[test]
fn encode_side_to_move_plane() {
    let state = GameState::new();
    let encoded = encode_position(&state);
    let side_plane_sum: u32 = encoded[12 * 64..].iter().map(|&x| x as u32).sum();
    assert_eq!(side_plane_sum, 64);
}

#[test]
fn encode_move_is_in_range() {
    let state = GameState::new();
    for mv in state.legal_moves() {
        let idx = encode_move(&mv);
        assert!(idx < 4096, "encode_move out of range: {idx}");
    }
}
