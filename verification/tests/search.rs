use std::collections::HashMap;
use std::sync::mpsc;
use std::time::Duration;

use ml_chess::agents::clock::Deadline;
use ml_chess::agents::human::HumanAgent;
use ml_chess::agents::mcts::{most_visited, terminal_value, visit_list};
use ml_chess::agents::minimax::MinimaxAgent;
use ml_chess::agents::negamax::{make_agent_name, NegamaxAgent};
use ml_chess::agents::random::RandomAgent;
use ml_chess::agents::search::{best_move_by_deepening, classical_leaf, negamax, order_moves, Table};
use ml_chess::chess::board::GameState;
use ml_chess::chess::moves::parse_uci;
use ml_chess::chess::rules::GameResult;
use ml_chess::chess::types::Side;
use ml_chess::eval::classical::{evaluate, MATE_SCORE};
use ml_chess::text::decimal_string;

const SCHOLAR_SETUP: &str = "r1bqkb1r/pppp1ppp/2n2n2/4p2Q/2B1P3/8/PPPP1PPP/RNB1K1NR w KQkq - 4 4";

#[test]
fn agent_names() {
    let agent = NegamaxAgent::new(3);
    assert_eq!(agent.name(), "Negamax(d3)");
    assert_eq!(agent.depth, 3);
    assert_eq!(MinimaxAgent::new(4).name(), "Minimax(d4)");
    assert_eq!(make_agent_name("NNAgent", 'd', 12), "NNAgent(d12)");
    assert_eq!(make_agent_name("MCTS", 's', 800), "MCTS(s800)");
    assert_eq!(RandomAgent::default().name(), "Random");
}

#[test]
fn decimal_strings() {
    assert_eq!(decimal_string(0), "0");
    assert_eq!(decimal_string(7), "7");
    assert_eq!(decimal_string(4096), "4096");
    assert_eq!(decimal_string(u32::MAX), "4294967295");
}

#[test]
fn human_agent_without_sender_has_no_move() {
    let (tx, rx) = mpsc::channel();
    drop(tx);
    let mut agent = HumanAgent::new("Player", rx);
    assert_eq!(agent.name(), "Player");
    let state = GameState::new();
    assert!(agent.select_move(&state, None).is_none());
}

#[test]
fn deadlines() {
    assert!(!Deadline::from_budget(None).expired());
    assert!(!Deadline::from_budget(Some(Duration::from_secs(3600))).expired());
    assert!(Deadline::from_budget(Some(Duration::ZERO)).expired());
    assert!(!Deadline::from_budget(Some(Duration::MAX)).expired());
}

#[test]
fn captures_are_ordered_first() {
    let state = GameState::from_fen(SCHOLAR_SETUP).expect("valid FEN");
    let legal = state.legal_moves();
    let ordered = order_moves(&legal);
    assert_eq!(ordered.len(), legal.len());
    let first_quiet = ordered.iter().position(|m| !m.is_capture()).expect("quiet moves");
    assert!(first_quiet > 0);
    assert!(ordered[first_quiet..].iter().all(|m| !m.is_capture()));
    let caps: Vec<_> = legal.iter().filter(|m| m.is_capture()).copied().collect();
    let quiet: Vec<_> = legal.iter().filter(|m| !m.is_capture()).copied().collect();
    assert_eq!(ordered[..first_quiet].to_vec(), caps);
    assert_eq!(ordered[first_quiet..].to_vec(), quiet);
}

#[test]
fn depth_zero_scores_with_the_evaluation_for_the_side_to_move() {
    let mut state = GameState::new();
    let mv = parse_uci(&state.position, "e2e4").unwrap();
    state.apply_move(mv).unwrap();
    let mut tt: Table = HashMap::new();
    let deadline = Deadline::from_budget(None);
    let score = negamax(&state.position, 0, -MATE_SCORE, MATE_SCORE, &deadline, &mut tt);
    assert_eq!(score, Some(-evaluate(&state.position)));
    assert_eq!(classical_leaf(&state.position), evaluate(&state.position));
}

#[test]
fn negamax_sees_mate_in_one() {
    let state = GameState::from_fen(SCHOLAR_SETUP).expect("valid FEN");
    let mut tt: Table = HashMap::new();
    let deadline = Deadline::from_budget(None);
    let score = negamax(&state.position, 1, -MATE_SCORE, MATE_SCORE, &deadline, &mut tt);
    assert_eq!(score, Some(MATE_SCORE));
    assert!(!tt.is_empty());
}

#[test]
fn a_deeper_table_entry_is_reused() {
    let state = GameState::new();
    let mut tt: Table = HashMap::new();
    let deadline = Deadline::from_budget(None);
    let deep = negamax(&state.position, 2, -MATE_SCORE, MATE_SCORE, &deadline, &mut tt).expect("in time");
    let shallow = negamax(&state.position, 1, -MATE_SCORE, MATE_SCORE, &deadline, &mut tt).expect("in time");
    assert_eq!(deep, shallow);
}

#[test]
fn an_expired_deadline_stops_the_search() {
    let state = GameState::new();
    let mut tt: Table = HashMap::new();
    let deadline = Deadline::from_budget(Some(Duration::ZERO));
    assert_eq!(negamax(&state.position, 2, -MATE_SCORE, MATE_SCORE, &deadline, &mut tt), None);
}

#[test]
fn deepening_with_no_time_plays_the_first_ordered_move() {
    let state = GameState::from_fen(SCHOLAR_SETUP).expect("valid FEN");
    let ordered = order_moves(&state.legal_moves());
    let deadline = Deadline::from_budget(Some(Duration::ZERO));
    let leaf = |p: &ml_chess::chess::position::Position| classical_leaf(p);
    let mv = best_move_by_deepening(&state.position, 3, &deadline, &leaf);
    assert_eq!(mv, ordered[0]);
}

#[test]
fn depth_zero_agent_plays_the_first_ordered_move() {
    let state = GameState::new();
    let ordered = order_moves(&state.legal_moves());
    let mut agent = NegamaxAgent::new(0);
    assert_eq!(agent.select_move(&state, None), ordered[0]);
}

#[test]
fn negamax_agent_takes_a_hanging_queen() {
    let state = GameState::from_fen("4k3/8/8/3q4/4P3/8/8/4K3 w - - 0 1").expect("valid FEN");
    let mut agent = NegamaxAgent::new(1);
    let mv = agent.select_move(&state, Some(Duration::from_secs(5)));
    assert_eq!(mv, parse_uci(&state.position, "e4d5").unwrap());
}

#[test]
fn terminal_values() {
    assert_eq!(terminal_value(GameResult::WhiteWins, Side::White), 1);
    assert_eq!(terminal_value(GameResult::WhiteWins, Side::Black), -1);
    assert_eq!(terminal_value(GameResult::BlackWins, Side::Black), 1);
    assert_eq!(terminal_value(GameResult::BlackWins, Side::White), -1);
    assert_eq!(terminal_value(GameResult::Draw, Side::White), 0);
}

#[test]
fn most_visited_prefers_the_last_of_equal_counts() {
    assert_eq!(most_visited(&vec![]), None);
    assert_eq!(most_visited(&vec![5]), Some(0));
    assert_eq!(most_visited(&vec![3, 7, 7, 2]), Some(2));
    assert_eq!(most_visited(&vec![9, 1, 8]), Some(0));
}

#[test]
fn visit_lists_name_moves_in_uci() {
    let state = GameState::new();
    let moves = vec![
        parse_uci(&state.position, "e2e4").unwrap(),
        parse_uci(&state.position, "g1f3").unwrap(),
    ];
    let list = visit_list(&moves, &vec![12, 30]);
    assert_eq!(list.len(), 2);
    assert_eq!(list[0].uci, "e2e4");
    assert_eq!(list[0].visits, 12);
    assert_eq!(list[1].uci, "g1f3");
    assert_eq!(list[1].visits, 30);
}

#[test]
fn a_deadline_that_never_comes_lets_the_search_finish() {
    let never = Deadline { at: None };
    assert!(!never.expired());
    let state = GameState::from_fen(SCHOLAR_SETUP).expect("valid FEN");
    let mut tt: Table = HashMap::new();
    assert_eq!(negamax(&state.position, 1, -MATE_SCORE, MATE_SCORE, &never, &mut tt), Some(MATE_SCORE));
}

#[test]
fn generic_search_scores_leaves_and_keeps_the_table() {
    let state = GameState::from_fen(SCHOLAR_SETUP).expect("valid FEN");
    let never = Deadline { at: None };
    let leaf = |p: &ml_chess::chess::position::Position| classical_leaf(p);
    let mut tt: Table = HashMap::new();
    let score = ml_chess::agents::search::search(&state.position, 0, -MATE_SCORE, MATE_SCORE, &never, &mut tt, &leaf);
    assert_eq!(score, Some(evaluate(&state.position)));
    assert!(tt.is_empty());
    let deep = ml_chess::agents::search::search(&state.position, 1, -MATE_SCORE, MATE_SCORE, &never, &mut tt, &leaf);
    assert_eq!(deep, Some(MATE_SCORE));
    assert_eq!(tt.len(), 1);
}

#[test]
fn deepening_without_a_deadline_finds_the_mate() {
    let state = GameState::from_fen(SCHOLAR_SETUP).expect("valid FEN");
    let never = Deadline { at: None };
    let leaf = |p: &ml_chess::chess::position::Position| classical_leaf(p);
    let mv = best_move_by_deepening(&state.position, 1, &never, &leaf);
    assert_eq!(mv, parse_uci(&state.position, "h5f7").unwrap());
}

#[test]
fn depth_one_search_is_the_best_reply() {
    for fen in [
        "rnbqkbnr/pppppppp/8/8/8/8/PPPPPPPP/RNBQKBNR w KQkq - 0 1",
        "4k3/8/8/3q4/4P3/8/8/4K3 w - - 0 1",
        "r1bqkbnr/pppp1ppp/2n5/4p3/4P3/5N2/PPPP1PPP/RNBQKB1R b KQkq - 3 3",
    ] {
        let state = GameState::from_fen(fen).expect("valid FEN");
        let mut best = i32::MIN;
        for mv in state.legal_moves() {
            let mut child = GameState::from_position(state.position.duplicate());
            child.apply_move(mv).unwrap();
            let e = evaluate(&child.position);
            let leaf = if child.side_to_move() == Side::White { e } else { -e };
            best = best.max(-leaf);
        }
        let never = Deadline { at: None };
        let mut tt: Table = HashMap::new();
        assert_eq!(negamax(&state.position, 1, -MATE_SCORE, MATE_SCORE, &never, &mut tt), Some(best));
    }
}

#[test]
fn an_unbounded_budget_searches_every_depth() {
    let state = GameState::from_fen("r1bqkbnr/pppp1ppp/2n5/4p3/4P3/5N2/PPPP1PPP/RNBQKB1R w KQkq - 2 3")
        .expect("valid FEN");
    let mut agent = NegamaxAgent::new(2);
    let mv = agent.select_move(&state, Some(Duration::MAX));
    let never = Deadline { at: None };
    let leaf = |p: &ml_chess::chess::position::Position| classical_leaf(p);
    assert_eq!(mv, best_move_by_deepening(&state.position, 2, &never, &leaf));
}
