use ml_chess::chess::board::GameState;
use ml_chess::chess::moves::parse_uci;
use ml_chess::chess::notation::moves_to_pgn;
use ml_chess::chess::rules::{game_result, is_fifty_move_draw};

#[test]
fn initial_position_has_20_legal_moves() {
    let state = GameState::new();
    assert_eq!(state.legal_moves().len(), 20);
}

#[test]
fn fen_roundtrip() {
    let fen = "r1bqkb1r/pppp1ppp/2n2n2/4p3/2B1P3/5N2/PPPP1PPP/RNBQK2R w KQkq - 4 4";
    let state = GameState::from_fen(fen).expect("valid FEN");
    let roundtrip = state.to_fen();
    let state2 = GameState::from_fen(&roundtrip).expect("roundtrip FEN");
    assert_eq!(state2.to_fen(), roundtrip);
}

#[test]
fn fool_mate() {
    let mut state = GameState::new();
    for uci in &["f2f3", "e7e5", "g2g4", "d8h4"] {
        let mv = parse_uci(&state.position, uci).expect("valid move");
        state.apply_move(mv).expect("legal move");
    }
    assert!(state.is_checkmate());
}

#[test]
fn pgn_e4_e5() {
    let start = GameState::new();
    let mut state = GameState::new();
    let mut moves = Vec::new();
    for uci in &["e2e4", "e7e5"] {
        let mv = parse_uci(&state.position, uci).expect("valid");
        state.apply_move(mv.clone()).expect("legal");
        moves.push(mv);
    }
    let pgn = moves_to_pgn(&start.position, &moves);
    assert_eq!(pgn, "1. e4 e5");
}

#[test]
fn pgn_fools_mate() {
    let start = GameState::new();
    let mut state = GameState::new();
    let mut moves = Vec::new();
    for uci in &["f2f3", "e7e5", "g2g4", "d8h4"] {
        let mv = parse_uci(&state.position, uci).expect("valid");
        state.apply_move(mv.clone()).expect("legal");
        moves.push(mv);
    }
    let pgn = moves_to_pgn(&start.position, &moves);
    assert_eq!(pgn, "1. f3 e5 2. g4 Qh4#");
}

#[test]
fn initial_position_is_not_over() {
    let state = GameState::new();
    assert_eq!(game_result(&state.position, 0), None);
}

#[test]
fn fifty_move_threshold() {
    assert!(!is_fifty_move_draw(99));
    assert!(is_fifty_move_draw(100));
    assert!(is_fifty_move_draw(101));
}
