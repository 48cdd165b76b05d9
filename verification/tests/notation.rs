use ml_chess::chess::board::{BoardError, GameState};
use ml_chess::chess::moves::{move_to_san, move_to_uci, parse_san, parse_uci, MoveError};
use ml_chess::chess::notation::{fen_to_position, position_to_epd, NotationError};
use ml_chess::chess::position::GameOutcome;
use ml_chess::chess::rules::{game_result, GameResult};
use ml_chess::chess::types::{flip_square, ChessMove, PieceKind, Side};
use ml_chess::tui::game_ui::{history_lines, history_sans};

const START_FEN: &str = "rnbqkbnr/pppppppp/8/8/8/8/PPPPPPPP/RNBQKBNR w KQkq - 0 1";

fn play(state: &mut GameState, ucis: &[&str]) {
    for uci in ucis {
        let mv = parse_uci(&state.position, uci).expect("legal move");
        state.apply_move(mv).expect("legal move");
    }
}

#[test]
fn starting_position_values() {
    let state = GameState::new();
    assert_eq!(state.to_fen(), START_FEN);
    assert_eq!(state.side_to_move(), Side::White);
    assert_eq!(state.halfmove_clock(), 0);
    assert_eq!(state.fullmove_number(), 1);
    assert_eq!(state.position.castling_rights(), 0x8100_0000_0000_0081);
    assert_eq!(state.position.ep_square(), None);
    assert_eq!(position_to_epd(&state.position), "rnbqkbnr/pppppppp/8/8/8/8/PPPPPPPP/RNBQKBNR w KQkq -");
    assert!(state.outcome().is_none());
    assert!(!state.is_checkmate());
    assert!(!state.is_stalemate());
}

#[test]
fn clocks_and_en_passant_after_moves() {
    let mut state = GameState::new();
    play(&mut state, &["g1f3", "g8f6", "e2e4"]);
    assert_eq!(state.halfmove_clock(), 0);
    assert_eq!(state.fullmove_number(), 2);
    assert_eq!(state.side_to_move(), Side::Black);
    assert_eq!(state.history.len(), 3);
    let mut state = GameState::new();
    play(&mut state, &["g1f3", "g8f6"]);
    assert_eq!(state.halfmove_clock(), 2);
    let mut state = GameState::new();
    play(&mut state, &["e2e4", "a7a6", "e4e5", "d7d5"]);
    assert_eq!(state.position.ep_square(), Some(43));
}

#[test]
fn an_illegal_move_leaves_the_game_unchanged() {
    let mut state = GameState::new();
    let mv = ChessMove::Normal { role: PieceKind::Pawn, from: 12, capture: None, to: 36, promotion: None };
    match state.apply_move(mv) {
        Err(BoardError::IllegalMove(text)) => assert_eq!(text, "e2-e5"),
        _ => panic!("expected an illegal move"),
    }
    assert_eq!(state.to_fen(), START_FEN);
    assert!(state.history.is_empty());
    let err = BoardError::IllegalMove(String::from("e2-e5"));
    assert_eq!(err.message(), "illegal move: e2-e5");
}

#[test]
fn bad_fen_is_a_parse_error() {
    match GameState::from_fen("not a position") {
        Err(BoardError::FenParse(msg)) => {
            let err = BoardError::FenParse(msg.clone());
            assert_eq!(err.message(), format!("FEN parse error: {msg}"));
        },
        _ => panic!("expected a FEN error"),
    }
    assert!(matches!(GameState::from_fen("8/8/8/8/8/8/8/8 w - - 0 1"), Err(BoardError::FenParse(_))));
}

#[test]
fn fen_to_position_errors() {
    assert!(matches!(fen_to_position("not a position"), Err(NotationError::InvalidFen)));
    assert_eq!(NotationError::InvalidFen.message(), "invalid FEN string");
    match fen_to_position("8/8/8/8/8/8/8/8 w - - 0 1") {
        Err(NotationError::InvalidPosition(m)) => {
            let e = NotationError::InvalidPosition(m.clone());
            assert_eq!(e.message(), format!("invalid position: {m}"));
        },
        _ => panic!("expected an illegal position"),
    }
    let pos = fen_to_position(START_FEN).expect("valid FEN");
    assert_eq!(GameState::from_position(pos).to_fen(), START_FEN);
}

#[test]
fn uci_parse_errors() {
    let state = GameState::new();
    match parse_uci(&state.position, "zz") {
        Err(MoveError::InvalidUci(t, e)) => {
            assert_eq!(t, "zz");
            assert_eq!(e, "invalid uci");
            assert_eq!(MoveError::InvalidUci(t, e).message(), "invalid UCI 'zz': invalid uci");
        },
        _ => panic!("expected invalid UCI"),
    }
    match parse_uci(&state.position, "e2e5") {
        Err(MoveError::IllegalUci(t, e)) => {
            assert_eq!(t, "e2e5");
            assert_eq!(MoveError::IllegalUci(t, e).message(), "illegal UCI 'e2e5': illegal uci");
        },
        _ => panic!("expected illegal UCI"),
    }
}

#[test]
fn san_parsing() {
    let state = GameState::new();
    let mv = parse_san(&state.position, "Nf3").expect("legal SAN");
    assert_eq!(mv, parse_uci(&state.position, "g1f3").unwrap());
    match parse_san(&state.position, "Zz9") {
        Err(MoveError::InvalidSan(t, e)) => {
            assert_eq!(t, "Zz9");
            assert_eq!(MoveError::InvalidSan(t, e).message(), "invalid SAN 'Zz9': invalid san");
        },
        _ => panic!("expected invalid SAN"),
    }
    match parse_san(&state.position, "Nf6") {
        Err(MoveError::IllegalSan(t, e)) => {
            assert_eq!(t, "Nf6");
            assert_eq!(MoveError::IllegalSan(t, e).message(), "illegal SAN 'Nf6': illegal san");
        },
        _ => panic!("expected illegal SAN"),
    }
}

#[test]
fn moves_in_san_and_uci() {
    let state = GameState::new();
    let mv = parse_uci(&state.position, "g1f3").unwrap();
    assert_eq!(move_to_san(&state.position, &mv), "Nf3");
    assert_eq!(move_to_uci(&mv), "g1f3");
    let promo = GameState::from_fen("k7/4P3/8/8/8/8/8/K7 w - - 0 1").expect("valid FEN");
    let q = parse_uci(&promo.position, "e7e8q").unwrap();
    assert_eq!(q.promotion(), Some(PieceKind::Queen));
    assert_eq!(move_to_uci(&q), "e7e8q");
    assert_eq!(move_to_san(&promo.position, &q), "e8=Q+");
}

#[test]
fn move_parts() {
    let castle = ChessMove::Castle { king: 4, rook: 7 };
    assert_eq!(castle.from(), Some(4));
    assert_eq!(castle.to(), 7);
    assert!(!castle.is_capture());
    let ep = ChessMove::EnPassant { from: 36, to: 43 };
    assert!(ep.is_capture());
    assert_eq!(ep.promotion(), None);
    let drop = ChessMove::Put { role: PieceKind::Knight, to: 20 };
    assert_eq!(drop.from(), None);
    assert!(!ChessMove::Put { role: PieceKind::Knight, to: 64 }.well_formed_exec());
    assert!(castle.well_formed_exec());
    assert_eq!(flip_square(0), 56);
    assert_eq!(flip_square(12), 52);
    assert_eq!(flip_square(flip_square(37)), 37);
    assert_eq!(Side::White.other(), Side::Black);
    assert!(!Side::Black.is_white());
}

#[test]
fn results_of_finished_games() {
    let mut state = GameState::new();
    play(&mut state, &["f2f3", "e7e5", "g2g4", "d8h4"]);
    assert_eq!(state.outcome(), Some(GameOutcome::Decisive { winner: Side::Black }));
    assert_eq!(game_result(&state.position, state.halfmove_clock()), Some(GameResult::BlackWins));
    assert_eq!(GameResult::from(GameOutcome::Decisive { winner: Side::White }), GameResult::WhiteWins);
    assert_eq!(GameResult::from(GameOutcome::Draw), GameResult::Draw);
    let stalemate = GameState::from_fen("k7/8/1QK5/8/8/8/8/8 b - - 0 1").expect("valid FEN");
    assert!(stalemate.is_stalemate());
    assert_eq!(game_result(&stalemate.position, 0), Some(GameResult::Draw));
}

#[test]
fn fifty_moves_and_bare_kings_are_draws() {
    let rook = GameState::from_fen("8/8/8/4k3/8/8/4K3/4R3 w - - 100 80").expect("valid FEN");
    assert_eq!(game_result(&rook.position, rook.halfmove_clock()), Some(GameResult::Draw));
    assert_eq!(game_result(&rook.position, 99), None);
    let kings = GameState::from_fen("8/8/8/4k3/8/8/4K3/8 w - - 0 1").expect("valid FEN");
    assert_eq!(game_result(&kings.position, 0), Some(GameResult::Draw));
}

#[test]
fn move_list_lines() {
    let mut state = GameState::new();
    play(&mut state, &["e2e4", "e7e5", "g1f3"]);
    assert_eq!(history_sans(&state.history), vec!["e4", "e5", "Nf3"]);
    assert_eq!(history_lines(&state.history), vec!["1. e4 e5", "2. Nf3"]);
    assert!(history_lines(&Vec::new()).is_empty());
}

#[test]
fn move_list_stops_at_an_illegal_move() {
    let mut state = GameState::new();
    play(&mut state, &["e2e4"]);
    let mut history = state.history.clone();
    history.push(ChessMove::Normal { role: PieceKind::Pawn, from: 12, capture: None, to: 28, promotion: None });
    history.push(ChessMove::Normal { role: PieceKind::Pawn, from: 52, capture: None, to: 36, promotion: None });
    assert_eq!(history_lines(&history), vec!["1. e4"]);
}

#[test]
fn ambiguous_san_is_refused() {
    let state = GameState::from_fen("4k3/8/8/8/8/8/8/1N2KN2 w - - 0 1").expect("valid FEN");
    match parse_san(&state.position, "Nd2") {
        Err(MoveError::IllegalSan(t, e)) => {
            assert_eq!(t, "Nd2");
            assert_eq!(e, "ambiguous san");
        },
        _ => panic!("expected an ambiguous move"),
    }
    let mv = parse_san(&state.position, "Nbd2").expect("disambiguated");
    assert_eq!(move_to_san(&state.position, &mv), "Nbd2");
}

#[test]
fn san_of_an_illegal_move_has_no_suffix() {
    let state = GameState::new();
    let mv = ChessMove::Normal { role: PieceKind::Queen, from: 3, capture: None, to: 39, promotion: None };
    assert_eq!(move_to_san(&state.position, &mv), "Qh5");
}

#[test]
fn uci_of_castling_and_drops() {
    assert_eq!(move_to_uci(&ChessMove::Castle { king: 4, rook: 7 }), "e1g1");
    assert_eq!(move_to_uci(&ChessMove::Castle { king: 4, rook: 0 }), "e1c1");
    assert_eq!(move_to_uci(&ChessMove::Castle { king: 60, rook: 63 }), "e8g8");
    assert_eq!(move_to_uci(&ChessMove::Put { role: PieceKind::Knight, to: 20 }), "N@e3");
    assert_eq!(move_to_uci(&ChessMove::EnPassant { from: 36, to: 43 }), "e5d6");
    let promo = ChessMove::Normal { role: PieceKind::Pawn, from: 52, capture: Some(PieceKind::Rook), to: 61, promotion: Some(PieceKind::Knight) };
    assert_eq!(move_to_uci(&promo), "e7f8n");
}
