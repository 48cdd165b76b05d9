use ml_chess::agents::mcts::MoveVisit;
use ml_chess::chess::board::GameState;
use ml_chess::chess::moves::parse_uci;
use ml_chess::chess::types::PieceKind;
use ml_chess::eval::classical::{evaluate, material_value, pst_for, KNIGHT_PST, MATE_SCORE, PAWN_PST, ROOK_PST};
use ml_chess::eval::neural::{encode_position, ChessValueNetConfig, ENCODED_LEN};
use ml_chess::eval::policy::{encode_move, encode_moves, ChessPolicyNetConfig, POLICY_LEN};
use ml_chess::training::examples::{encode_fens, policy_counts};
use ml_chess::training::self_play::{outcome_score, self_play_verdict, MAX_GAME_PLIES};
use ml_chess::chess::rules::GameResult;
use ml_chess::tui::board_widget::{
    file_label, rank_label, square_cell, BoardState, Shade, BOARD_HEIGHT, BOARD_WIDTH, CELL_H, CELL_W,
};

fn state_of(fen: &str) -> GameState {
    GameState::from_fen(fen).expect("valid FEN")
}

fn visit(uci: &str, visits: u32) -> MoveVisit {
    MoveVisit { uci: String::from(uci), visits }
}

#[test]
fn mirrored_positions_have_opposite_scores() {
    let a = state_of("4k3/8/8/8/8/8/4P3/4K3 w - - 0 1");
    let b = state_of("4k3/4p3/8/8/8/8/8/4K3 b - - 0 1");
    assert_eq!(evaluate(&a.position), -evaluate(&b.position));
    assert!(evaluate(&a.position) > 0);
    let c = state_of("r1bqkbnr/pppp1ppp/2n5/4p3/4P3/5N2/PPPP1PPP/RNBQKB1R w KQkq - 2 3");
    let d = state_of("rnbqkb1r/pppp1ppp/5n2/4p3/4P3/2N5/PPPP1PPP/R1BQKBNR b KQkq - 2 3");
    assert_eq!(evaluate(&c.position), -evaluate(&d.position));
}

#[test]
fn symmetric_positions_score_zero() {
    let mut state = GameState::new();
    for uci in ["e2e4", "e7e5", "g1f3", "g8f6"] {
        let mv = parse_uci(&state.position, uci).unwrap();
        state.apply_move(mv).unwrap();
    }
    assert_eq!(evaluate(&state.position), 0);
}

#[test]
fn piece_values_and_tables() {
    assert_eq!(material_value(PieceKind::Pawn), 100);
    assert_eq!(material_value(PieceKind::Knight), 320);
    assert_eq!(material_value(PieceKind::Bishop), 330);
    assert_eq!(material_value(PieceKind::Rook), 500);
    assert_eq!(material_value(PieceKind::Queen), 900);
    assert_eq!(material_value(PieceKind::King), 20_000);
    assert_eq!(pst_for(PieceKind::Knight), &KNIGHT_PST);
    assert_eq!(pst_for(PieceKind::Pawn), &PAWN_PST);
}

#[test]
fn a_lone_rook_is_worth_its_material_and_square() {
    let state = state_of("4k3/8/8/8/8/8/8/1R2K3 w - - 0 1");
    let kings_only = state_of("4k3/8/8/8/8/8/8/4K3 w - - 0 1");
    assert_eq!(evaluate(&kings_only.position), 0);
    assert_eq!(evaluate(&state.position), 500 + ROOK_PST[1]);
}

#[test]
fn checkmate_scores_for_the_winner() {
    let mated_white = state_of("rnb1kbnr/pppp1ppp/8/4p3/6Pq/5P2/PPPPP2P/RNBQKBNR w KQkq - 1 3");
    assert_eq!(evaluate(&mated_white.position), -MATE_SCORE);
}

#[test]
fn encoding_after_a_pawn_move() {
    let mut state = GameState::new();
    let mv = parse_uci(&state.position, "e2e4").unwrap();
    state.apply_move(mv).unwrap();
    let enc = encode_position(&state);
    assert_eq!(enc.len(), ENCODED_LEN);
    assert_eq!(enc[12], 0);
    assert_eq!(enc[28], 1);
    assert_eq!(enc[6 * 64 + 52], 1);
    assert_eq!(enc[5 * 64 + 4], 1);
    assert_eq!(enc[11 * 64 + 60], 1);
    assert!(enc[768..].iter().all(|&x| x == 0));
    assert!(enc.iter().all(|&x| x <= 1));
}

#[test]
fn promotions_share_the_policy_index() {
    let state = state_of("k7/4P3/8/8/8/8/8/K7 w - - 0 1");
    let q = parse_uci(&state.position, "e7e8q").unwrap();
    let n = parse_uci(&state.position, "e7e8n").unwrap();
    assert_eq!(encode_move(&q), 52 * 64 + 60);
    assert_eq!(encode_move(&n), encode_move(&q));
    let start = GameState::new();
    let legal = start.legal_moves();
    let idx = encode_moves(&legal);
    assert_eq!(idx.len(), legal.len());
    for (m, i) in legal.iter().zip(idx.iter()) {
        assert_eq!(encode_move(m), *i);
        assert!(*i < POLICY_LEN);
    }
    let e4 = parse_uci(&start.position, "e2e4").unwrap();
    assert_eq!(encode_move(&e4), 12 * 64 + 28);
}

#[test]
fn network_sizes() {
    let v = ChessValueNetConfig::new();
    assert_eq!((v.hidden1, v.hidden2, v.hidden3), (256, 128, 64));
    let p = ChessPolicyNetConfig::new();
    assert_eq!((p.hidden1, p.hidden2), (256, 128));
}

#[test]
fn fen_records_are_encoded_skipping_bad_texts() {
    let fens = vec![
        String::from("rnbqkbnr/pppppppp/8/8/8/8/PPPPPPPP/RNBQKBNR w KQkq - 0 1"),
        String::from("garbage"),
        String::from("4k3/8/8/8/8/8/4P3/4K3 b - - 0 1"),
    ];
    let enc = encode_fens(&fens);
    assert_eq!(enc.len(), 2);
    assert_eq!(enc[0], encode_position(&GameState::new()));
    assert_eq!(enc[1], encode_position(&state_of("4k3/8/8/8/8/8/4P3/4K3 b - - 0 1")));
    assert!(encode_fens(&Vec::new()).is_empty());
}

#[test]
fn policy_counts_keep_legal_moves_and_the_total() {
    let state = GameState::new();
    let visits = vec![visit("e2e4", 3), visit("zzzz", 2), visit("e2e3", 5), visit("e2e5", 1)];
    let (total, entries) = policy_counts(&state, &visits).expect("visited");
    assert_eq!(total, 11);
    assert_eq!(entries, vec![(12 * 64 + 28, 3), (12 * 64 + 20, 5)]);
    assert!(policy_counts(&state, &vec![visit("e2e4", 0)]).is_none());
    assert!(policy_counts(&state, &Vec::new()).is_none());
}

#[test]
fn policy_counts_do_not_overflow() {
    let state = GameState::new();
    let visits = vec![visit("e2e4", u32::MAX), visit("d2d4", u32::MAX)];
    let (total, entries) = policy_counts(&state, &visits).expect("visited");
    assert_eq!(total, 2 * u32::MAX as u128);
    assert_eq!(entries.len(), 2);
}

#[test]
fn self_play_verdicts() {
    assert_eq!(outcome_score(GameResult::WhiteWins), 1);
    assert_eq!(outcome_score(GameResult::BlackWins), -1);
    assert_eq!(outcome_score(GameResult::Draw), 0);
    let mut state = GameState::new();
    assert_eq!(self_play_verdict(&state), None);
    for uci in ["f2f3", "e7e5", "g2g4", "d8h4"] {
        let mv = parse_uci(&state.position, uci).unwrap();
        state.apply_move(mv).unwrap();
    }
    assert_eq!(self_play_verdict(&state), Some(-1));
    let fifty = state_of("8/8/8/4k3/8/8/4K3/4R3 w - - 100 80");
    assert_eq!(self_play_verdict(&fifty), Some(0));
}

#[test]
fn long_self_play_games_are_draws() {
    let start = GameState::new();
    let mv = parse_uci(&start.position, "g1f3").unwrap();
    let nearly = GameState { position: GameState::new().position, history: vec![mv; MAX_GAME_PLIES - 1] };
    assert_eq!(self_play_verdict(&nearly), None);
    let long = GameState { position: GameState::new().position, history: vec![mv; MAX_GAME_PLIES] };
    assert_eq!(self_play_verdict(&long), Some(0));
}

#[test]
fn board_layout() {
    assert_eq!((CELL_W, CELL_H, BOARD_WIDTH, BOARD_HEIGHT), (4, 2, 34, 17));
    assert_eq!(square_cell(false, 7, 7), (30, 0));
    assert_eq!(square_cell(true, 0, 0), (30, 0));
    assert_eq!(square_cell(true, 7, 7), (2, 14));
    assert_eq!(rank_label(false, 0), '8');
    assert_eq!(rank_label(true, 0), '1');
    assert_eq!(file_label(false, 0), 'a');
    assert_eq!(file_label(true, 0), 'h');
}

#[test]
fn square_shades_by_priority() {
    let state = BoardState { cursor: (0, 0), selected: Some(9), legal_targets: vec![17, 0], flipped: false };
    assert_eq!(state.shade(0, 0), Shade::Cursor);
    assert_eq!(state.shade(1, 1), Shade::Selected);
    assert_eq!(state.shade(1, 2), Shade::Target);
    assert_eq!(state.shade(1, 0), Shade::Light);
    assert_eq!(state.shade(2, 0), Shade::Dark);
}

#[test]
fn mirrored_mates_have_opposite_scores() {
    let white_mates = state_of("r1bqkb1r/pppp1Qpp/2n2n2/4p3/2B1P3/8/PPPP1PPP/RNB1K1NR b KQkq - 0 4");
    let black_mates = state_of("rnb1k1nr/pppp1ppp/8/2b1p3/4P3/2N2N2/PPPP1qPP/R1BQKB1R w KQkq - 0 4");
    assert_eq!(evaluate(&white_mates.position), MATE_SCORE);
    assert_eq!(evaluate(&black_mates.position), -evaluate(&white_mates.position));
}
