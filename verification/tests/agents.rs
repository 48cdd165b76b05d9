use std::sync::mpsc;
use std::time::Duration;

use ml_chess::agents::human::HumanAgent;
use ml_chess::agents::negamax::NegamaxAgent;
use ml_chess::agents::random::RandomAgent;
use ml_chess::chess::board::GameState;
use ml_chess::chess::moves::parse_uci;

#[test]
fn human_agent_returns_sent_move() {
    let state = GameState::new();
    let (tx, rx) = mpsc::channel();
    let mv = parse_uci(&state.position, "e2e4").unwrap();
    tx.send(mv.clone()).unwrap();
    let mut agent = HumanAgent::new("TestHuman", rx);
    let received = agent.select_move(&state, None).expect("HumanAgent move channel disconnected");
    assert_eq!(received, mv);
}

#[test]
fn random_agent_returns_legal_move() {
    let state = GameState::new();
    let legal = state.legal_moves();
    let mut agent = RandomAgent::default();
    let chosen = agent.select_move(&state, None);
    assert!(legal.contains(&chosen));
}

#[test]
fn finds_mate_in_one() {
    // Scholar's mate setup: White has Qxf7# available
    let mut state = GameState::from_fen(
        "r1bqkb1r/pppp1ppp/2n2n2/4p2Q/2B1P3/8/PPPP1PPP/RNB1K1NR w KQkq - 4 4",
    )
    .expect("valid FEN");
    let mut agent = NegamaxAgent::new(2);
    let mv = agent.select_move(&state, Some(Duration::from_secs(5)));
    state.apply_move(mv).expect("legal");
    assert!(state.is_checkmate());
}
