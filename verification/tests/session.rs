use ml_chess::app::{Command, Key, Screen, Seat, Session};
use ml_chess::chess::moves::parse_uci;
use ml_chess::chess::types::{ChessMove, PieceKind, Side};
use ml_chess::tui::menu::{MainMenu, MenuSelection};

fn screen_message(s: &Session) -> Option<String> {
    match &s.screen {
        Screen::GameOver { message } => Some(message.clone()),
        _ => None,
    }
}

fn press(s: &mut Session, keys: &[Key]) -> Command {
    let mut last = Command::Idle;
    for k in keys {
        last = s.handle_key(*k);
    }
    last
}

#[test]
fn menu_highlight_stays_on_the_entries() {
    let mut menu = MainMenu::default();
    menu.move_up();
    assert_eq!(menu.selected_index, 0);
    assert_eq!(menu.current(), MenuSelection::HumanVsAI);
    for _ in 0..10 {
        menu.move_down();
    }
    assert_eq!(menu.selected_index, 4);
    assert_eq!(menu.current(), MenuSelection::Quit);
    menu.move_up();
    assert_eq!(menu.current(), MenuSelection::Train);
}

#[test]
fn menu_labels() {
    assert_eq!(MenuSelection::HumanVsAI.label(), "Human vs AI");
    assert_eq!(MenuSelection::HumanVsHuman.label(), "Human vs Human");
    assert_eq!(MenuSelection::AIVsAI.label(), "AI vs AI");
    assert_eq!(MenuSelection::Train.label(), "Train");
    assert_eq!(MenuSelection::Quit.label(), "Quit");
    assert_eq!(MenuSelection::default(), MenuSelection::HumanVsAI);
    assert_eq!(MenuSelection::at(2), MenuSelection::AIVsAI);
}

#[test]
fn new_session_shows_the_menu() {
    let s = Session::new();
    assert!(matches!(s.screen, Screen::Menu));
    assert_eq!(s.menu.selected_index, 0);
    assert_eq!(s.board_state.cursor, (4, 1));
    assert!(s.thinking.is_none());
    assert!(s.game.history.is_empty());
}

#[test]
fn human_vs_human_starts_with_white_to_move() {
    let mut s = Session::new();
    let c = press(&mut s, &[Key::Down, Key::Enter]);
    assert!(matches!(c, Command::Idle));
    assert!(matches!(s.screen, Screen::Game));
    assert_eq!(s.white_seat, Seat::Human);
    assert_eq!(s.black_seat, Seat::Human);
    assert_eq!(s.white_name, "White");
    assert_eq!(s.black_name, "Black");
    assert_eq!(s.status, "White to move");
    assert!(s.is_human_turn());
}

#[test]
fn human_vs_ai_seats_the_negamax_agent_as_black() {
    let mut s = Session::new();
    let c = press(&mut s, &[Key::Enter]);
    assert!(matches!(c, Command::Idle));
    assert_eq!(s.white_seat, Seat::Human);
    assert_eq!(s.black_seat, Seat::Negamax(3));
    assert_eq!(s.white_name, "Human");
    assert_eq!(s.black_name, "AI (Negamax d3)");
}

#[test]
fn ai_vs_ai_asks_white_to_think() {
    let mut s = Session::new();
    let c = press(&mut s, &[Key::Down, Key::Down, Key::Enter]);
    assert!(matches!(c, Command::Think(Side::White)));
    assert_eq!(s.thinking, Some(Side::White));
    assert_eq!(s.status, "AI is thinking...");
    assert_eq!(s.white_seat, Seat::Negamax(3));
    assert_eq!(s.black_seat, Seat::Minimax(3));
    assert_eq!(s.black_name, "AI (Minimax d3)");
    assert!(!s.is_human_turn());
}

#[test]
fn train_entry_reports_that_training_is_not_here() {
    let mut s = Session::new();
    let c = press(&mut s, &[Key::Down, Key::Down, Key::Down, Key::Enter]);
    assert!(matches!(c, Command::Idle));
    assert_eq!(screen_message(&s).as_deref(), Some("Training not implemented yet"));
    let c = s.handle_key(Key::Char('x'));
    assert!(matches!(c, Command::Idle));
    assert!(matches!(s.screen, Screen::Menu));
}

#[test]
fn quitting_from_the_menu() {
    let mut s = Session::new();
    assert!(matches!(s.handle_key(Key::Char('q')), Command::Quit));
    assert!(matches!(s.handle_key(Key::Esc), Command::Quit));
    assert!(matches!(s.handle_key(Key::Other), Command::Idle));
    let c = press(&mut s, &[Key::Down, Key::Down, Key::Down, Key::Down, Key::Enter]);
    assert!(matches!(c, Command::Quit));
}

#[test]
fn arrows_move_the_cursor_and_stop_at_the_edge() {
    let mut s = Session::new();
    press(&mut s, &[Key::Down, Key::Enter]);
    press(&mut s, &[Key::Up]);
    assert_eq!(s.board_state.cursor, (4, 2));
    press(&mut s, &[Key::Right, Key::Right, Key::Right, Key::Right]);
    assert_eq!(s.board_state.cursor, (7, 2));
    press(&mut s, &[Key::Down, Key::Down, Key::Down]);
    assert_eq!(s.board_state.cursor, (7, 0));
}

#[test]
fn flipped_board_reverses_the_arrows() {
    let mut s = Session::new();
    press(&mut s, &[Key::Down, Key::Enter]);
    let c = s.handle_key(Key::Char('f'));
    assert!(matches!(c, Command::Idle));
    assert!(s.board_state.flipped);
    press(&mut s, &[Key::Up]);
    assert_eq!(s.board_state.cursor, (4, 0));
    press(&mut s, &[Key::Left]);
    assert_eq!(s.board_state.cursor, (5, 0));
    press(&mut s, &[Key::Char('f')]);
    assert!(!s.board_state.flipped);
}

#[test]
fn selecting_a_pawn_marks_its_targets_and_enter_moves_it() {
    let mut s = Session::new();
    press(&mut s, &[Key::Down, Key::Enter]);
    // The cursor starts on e2.
    press(&mut s, &[Key::Enter]);
    assert_eq!(s.board_state.selected, Some(12));
    let mut targets = s.board_state.legal_targets.clone();
    targets.sort();
    assert_eq!(targets, vec![20, 28]);
    let c = press(&mut s, &[Key::Up, Key::Up, Key::Enter]);
    assert!(matches!(c, Command::Idle));
    assert_eq!(s.game.history.len(), 1);
    assert_eq!(s.board_state.selected, None);
    assert!(s.board_state.legal_targets.is_empty());
    assert_eq!(s.status, "Black to move");
    assert_eq!(s.game.side_to_move(), Side::Black);
}

#[test]
fn enter_on_an_empty_square_selects_nothing() {
    let mut s = Session::new();
    press(&mut s, &[Key::Down, Key::Enter]);
    press(&mut s, &[Key::Up, Key::Up, Key::Enter]);
    assert_eq!(s.board_state.selected, None);
    assert_eq!(s.game.history.len(), 0);
}

#[test]
fn enter_on_an_unreachable_square_clears_the_selection() {
    let mut s = Session::new();
    press(&mut s, &[Key::Down, Key::Enter]);
    press(&mut s, &[Key::Enter]);
    assert_eq!(s.board_state.selected, Some(12));
    press(&mut s, &[Key::Up, Key::Up, Key::Up, Key::Enter]);
    assert_eq!(s.board_state.selected, None);
    assert!(s.board_state.legal_targets.is_empty());
    assert_eq!(s.game.history.len(), 0);
}

#[test]
fn enter_on_another_own_piece_selects_it() {
    let mut s = Session::new();
    press(&mut s, &[Key::Down, Key::Enter]);
    press(&mut s, &[Key::Enter, Key::Left, Key::Enter]);
    assert_eq!(s.board_state.selected, Some(11));
}

#[test]
fn esc_clears_the_selection() {
    let mut s = Session::new();
    press(&mut s, &[Key::Down, Key::Enter]);
    press(&mut s, &[Key::Enter]);
    assert!(s.board_state.selected.is_some());
    let c = s.handle_key(Key::Esc);
    assert!(matches!(c, Command::Idle));
    assert_eq!(s.board_state.selected, None);
    assert!(s.board_state.legal_targets.is_empty());
}

#[test]
fn q_in_a_game_returns_to_the_menu() {
    let mut s = Session::new();
    press(&mut s, &[Key::Down, Key::Down, Key::Enter]);
    let c = s.handle_key(Key::Char('q'));
    assert!(matches!(c, Command::StopThinking));
    assert!(matches!(s.screen, Screen::Menu));
    assert!(s.thinking.is_none());
}

#[test]
fn keys_are_ignored_while_an_agent_thinks() {
    let mut s = Session::new();
    press(&mut s, &[Key::Down, Key::Down, Key::Enter]);
    let c = s.handle_key(Key::Enter);
    assert!(matches!(c, Command::Idle));
    assert!(s.board_state.selected.is_none());
}

#[test]
fn fools_mate_ends_the_game_for_black() {
    let mut s = Session::new();
    press(&mut s, &[Key::Down, Key::Enter]);
    for uci in ["f2f3", "e7e5", "g2g4", "d8h4"] {
        let mv = parse_uci(&s.game.position, uci).expect("legal move");
        let c = s.apply_player_move(mv);
        assert!(matches!(c, Command::Idle));
    }
    assert_eq!(screen_message(&s).as_deref(), Some("Black wins!"));
    let c = s.handle_key(Key::Up);
    assert!(matches!(c, Command::Idle));
    assert!(matches!(s.screen, Screen::Menu));
}

#[test]
fn an_illegal_move_is_reported_and_changes_nothing() {
    let mut s = Session::new();
    press(&mut s, &[Key::Down, Key::Enter]);
    let mv = ChessMove::Normal { role: PieceKind::Pawn, from: 12, capture: None, to: 36, promotion: None };
    let c = s.apply_player_move(mv);
    match c {
        Command::Report(text) => assert_eq!(text, "Error applying move: illegal move: e2-e5"),
        _ => panic!("expected a report"),
    }
    assert!(s.game.history.is_empty());
    assert_eq!(s.status, "White to move");
}

#[test]
fn an_agent_move_is_played_and_the_next_agent_is_asked() {
    let mut s = Session::new();
    press(&mut s, &[Key::Down, Key::Down, Key::Enter]);
    let mv = parse_uci(&s.game.position, "e2e4").expect("legal move");
    let c = s.ai_moved(mv);
    assert!(matches!(c, Command::Think(Side::Black)));
    assert_eq!(s.thinking, Some(Side::Black));
    assert_eq!(s.game.history.len(), 1);
}

#[test]
fn an_agent_move_hands_the_turn_to_a_person() {
    let mut s = Session::new();
    s.start_with(Seat::Engine, Seat::Human, String::from("Engine"), String::from("Human"));
    assert_eq!(s.thinking, Some(Side::White));
    let mv = parse_uci(&s.game.position, "d2d4").expect("legal move");
    let c = s.ai_moved(mv);
    assert!(matches!(c, Command::Idle));
    assert!(s.thinking.is_none());
    assert_eq!(s.status, "Black to move");
    assert!(s.is_human_turn());
}

#[test]
fn check_is_shown_in_the_status_line() {
    let mut s = Session::new();
    press(&mut s, &[Key::Down, Key::Enter]);
    for uci in ["e2e4", "f7f6", "d1h5"] {
        let mv = parse_uci(&s.game.position, uci).expect("legal move");
        s.apply_player_move(mv);
    }
    assert_eq!(s.status, "Check! Black to move");
}
