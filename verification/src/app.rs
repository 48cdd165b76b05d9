//! The decisions of the terminal interface: what each key does, when an
//! agent is asked to think, and what the status line and game-over message
//! say. The host program draws the screen, reads the keyboard and runs the
//! agents; it hands every key press and every move an agent found to a
//! `Session` and carries out the `Command` it gets back.

use vstd::prelude::*;
use crate::chess::board::GameState;
use crate::chess::position::{GameOutcome, PositionView, after_move, in_check, initial_position, legal_moves_of, outcome_of};
use crate::chess::types::{ChessMove, PieceKind, Side, long_algebraic};
use crate::text::{owned, push_str};
use crate::tui::board_widget::BoardState;
use crate::tui::menu::{MENU_LEN, MainMenu, MenuSelection, menu_entry};

verus! {

/// The screen being shown.
pub enum Screen {
    Menu,
    Game,
    GameOver { message: String },
}

/// Who plays a side.
#[derive(Debug, Clone, Copy, PartialEq, Eq, Structural)]
pub enum Seat {
    /// A person, through the board.
    Human,
    /// The alpha-beta agent of the given depth.
    Negamax(u32),
    /// The minimax agent of the given depth.
    Minimax(u32),
    /// An agent that the host program supplies.
    Engine,
}

/// A key press, as the interface distinguishes them.
#[derive(Debug, Clone, Copy, PartialEq, Eq, Structural)]
pub enum Key {
    Up,
    Down,
    Left,
    Right,
    Enter,
    Esc,
    Char(char),
    Other,
}

/// What the host has to do after an event.
pub enum Command {
    /// Nothing.
    Idle,
    /// Leave the program.
    Quit,
    /// Ask the agent of the side to find a move in the current game.
    Think(Side),
    /// Stop waiting for the agent that is thinking.
    StopThinking,
    /// Report an error on the error output.
    Report(String),
}

/// The state of the interface.
pub struct Session {
    pub screen: Screen,
    pub menu: MainMenu,
    pub game: GameState,
    pub board_state: BoardState,
    pub white_name: String,
    pub black_name: String,
    pub white_seat: Seat,
    pub black_seat: Seat,
    /// The side whose agent is thinking, if one is.
    pub thinking: Option<Side>,
    pub status: String,
}

/// The name of a side.
pub open spec fn side_name(s: Side) -> Seq<char> {
    match s {
        Side::White => "White"@,
        Side::Black => "Black"@,
    }
}

/// The status line: whose move it is, and whether that side is in check.
pub open spec fn status_text(p: PositionView) -> Seq<char> {
    if in_check(p) {
        "Check! "@ + side_name(p.turn) + " to move"@
    } else {
        side_name(p.turn) + " to move"@
    }
}

/// The message that ends a game: the rules' outcome first, then the
/// fifty-move rule.
pub open spec fn game_over_text(p: PositionView) -> Option<Seq<char>> {
    match outcome_of(p) {
        Some(GameOutcome::Decisive { winner }) => Some(side_name(winner) + " wins!"@),
        Some(GameOutcome::Draw) => Some("Draw!"@),
        None => if p.halfmoves >= 100 { Some("Draw (50-move rule)"@) } else { None },
    }
}

/// The cursor after an arrow key: up and down change the rank, left and
/// right the file, reversed when the board is flipped, never leaving the board.
pub open spec fn cursor_after(c: (u8, u8), flipped: bool, key: Key) -> (u8, u8) {
    let (f, r) = c;
    match key {
        Key::Up => if !flipped { if r < 7 { (f, (r + 1) as u8) } else { c } } else { if r > 0 { (f, (r - 1) as u8) } else { c } },
        Key::Down => if !flipped { if r > 0 { (f, (r - 1) as u8) } else { c } } else { if r < 7 { (f, (r + 1) as u8) } else { c } },
        Key::Left => if !flipped { if f > 0 { ((f - 1) as u8, r) } else { c } } else { if f < 7 { ((f + 1) as u8, r) } else { c } },
        Key::Right => if !flipped { if f < 7 { ((f + 1) as u8, r) } else { c } } else { if f > 0 { ((f - 1) as u8, r) } else { c } },
        _ => c,
    }
}

/// The preference among moves between the same squares: queen promotions first.
pub open spec fn queen_key(m: ChessMove) -> int {
    if m.promotes_to() == Some(PieceKind::Queen) { 1 } else { 0 }
}

/// The move from `from` to `to` that a click chooses: among the legal
/// moves between those squares, the last one with the highest preference
/// (as `Iterator::max_by_key` chooses).
pub open spec fn chosen_move(moves: Seq<ChessMove>, from: u8, to: u8) -> Option<ChessMove>
    decreases moves.len(),
{
    if moves.len() == 0 {
        None
    } else {
        let prev = chosen_move(moves.drop_last(), from, to);
        let m = moves.last();
        if m.origin() == Some(from) && m.target() == to {
            match prev {
                None => Some(m),
                Some(b) => if queen_key(m) >= queen_key(b) { Some(m) } else { prev },
            }
        } else {
            prev
        }
    }
}

/// A move between two squares.
pub open spec fn joins(m: ChessMove, from: u8, to: u8) -> bool {
    m.origin() == Some(from) && m.target() == to
}

/// What a click plays: a move from the selected square to the clicked one
/// whenever the list holds one, taken from the list, and a queen promotion
/// whenever the list holds a queen promotion between those squares.
pub proof fn lemma_chosen_move_prefers_queen(moves: Seq<ChessMove>, from: u8, to: u8)
    ensures
        chosen_move(moves, from, to) is None <==> !(exists|m: ChessMove| moves.contains(m) && #[trigger] joins(m, from, to)),
        chosen_move(moves, from, to) matches Some(c) ==> moves.contains(c) && joins(c, from, to),
        (exists|m: ChessMove| moves.contains(m) && #[trigger] joins(m, from, to) && m.promotes_to() == Some(PieceKind::Queen))
            ==> (chosen_move(moves, from, to) matches Some(c) && c.promotes_to() == Some(PieceKind::Queen)),
    decreases moves.len(),
{
    if moves.len() > 0 {
        let t = moves.drop_last();
        let last = moves.last();
        lemma_chosen_move_prefers_queen(t, from, to);
        assert(moves =~= t.push(last));
        assert forall|m: ChessMove| moves.contains(m) implies (t.contains(m) || m == last) by {
            let j = choose|j: int| 0 <= j < moves.len() && moves[j] == m;
            if j < moves.len() - 1 {
                assert(t[j] == m);
            }
        }
        assert forall|m: ChessMove| t.contains(m) implies moves.contains(m) by {
            let j = choose|j: int| 0 <= j < t.len() && t[j] == m;
            assert(moves[j] == m);
        }
        assert(moves[moves.len() - 1] == last);
        if joins(last, from, to) {
            assert(moves.contains(last));
        }
        if exists|m: ChessMove| moves.contains(m) && #[trigger] joins(m, from, to) && m.promotes_to() == Some(PieceKind::Queen) {
            let m = choose|m: ChessMove| moves.contains(m) && #[trigger] joins(m, from, to) && m.promotes_to() == Some(PieceKind::Queen);
            if m != last {
                assert(t.contains(m));
            }
        }
    }
}

/// Moving the cursor on a flipped board is moving it on the board seen
/// from the other side: the arrows act on the mirrored square as they act
/// on an unflipped board, and the result is mirrored back.
pub proof fn lemma_flipped_cursor_mirrors(c: (u8, u8), key: Key)
    requires
        cursor_ok(c),
    ensures
        cursor_after(c, true, key) == mirror_cursor(cursor_after(mirror_cursor(c), false, key)),
{
}

/// Left and Right undo each other, and so do Up and Down, away from the
/// edges of the board and whichever way the board is turned.
pub proof fn lemma_cursor_moves_undo(c: (u8, u8), flipped: bool)
    requires
        0 < c.0 < 7,
        0 < c.1 < 7,
    ensures
        cursor_after(cursor_after(c, flipped, Key::Left), flipped, Key::Right) == c,
        cursor_after(cursor_after(c, flipped, Key::Right), flipped, Key::Left) == c,
        cursor_after(cursor_after(c, flipped, Key::Up), flipped, Key::Down) == c,
        cursor_after(cursor_after(c, flipped, Key::Down), flipped, Key::Up) == c,
        cursor_after(c, flipped, Key::Right).0 == if flipped { c.0 - 1 } else { c.0 + 1 },
        cursor_after(c, flipped, Key::Up).1 == if flipped { c.1 - 1 } else { c.1 + 1 },
{
}

/// The square seen from the other side of the board.
pub open spec fn mirror_cursor(c: (u8, u8)) -> (u8, u8) {
    ((7 - c.0) as u8, (7 - c.1) as u8)
}

/// The target squares of the moves from a square, in order.
pub open spec fn targets_from(moves: Seq<ChessMove>, from: u8) -> Seq<u8>
    decreases moves.len(),
{
    if moves.len() == 0 {
        Seq::empty()
    } else if moves.last().origin() == Some(from) {
        targets_from(moves.drop_last(), from).push(moves.last().target())
    } else {
        targets_from(moves.drop_last(), from)
    }
}

/// The seat of a side.
pub open spec fn seat_of(white: Seat, black: Seat, s: Side) -> Seat {
    match s {
        Side::White => white,
        Side::Black => black,
    }
}

/// The square under the cursor.
pub open spec fn cursor_square(c: (u8, u8)) -> u8 {
    (c.1 * 8 + c.0) as u8
}

/// The side to move owns the piece on a square.
pub open spec fn own_piece(p: PositionView, sq: u8) -> bool {
    p.board[sq as int] matches Some(piece) && piece.color == p.turn
}

/// The seats and names that a menu entry starts a game with; `None` for
/// the entries that start no game.
pub open spec fn seats_for(sel: MenuSelection) -> Option<(Seat, Seat, Seq<char>, Seq<char>)> {
    match sel {
        MenuSelection::HumanVsHuman => Some((Seat::Human, Seat::Human, "White"@, "Black"@)),
        MenuSelection::HumanVsAI => Some((Seat::Human, Seat::Negamax(3), "Human"@, "AI (Negamax d3)"@)),
        MenuSelection::AIVsAI => Some((Seat::Negamax(3), Seat::Minimax(3), "AI (Negamax d3)"@, "AI (Minimax d3)"@)),
        _ => None,
    }
}

fn name_of_side(s: Side) -> (r: &'static str)
    ensures
        r@ == side_name(s),
{
    match s {
        Side::White => "White",
        Side::Black => "Black",
    }
}

fn find_move(moves: &Vec<ChessMove>, from: u8, to: u8) -> (r: Option<ChessMove>)
    ensures
        r == chosen_move(moves@, from, to),
        r matches Some(m) ==> moves@.contains(m),
{
    let mut best: Option<ChessMove> = None;
    let mut i: usize = 0;
    while i < moves.len()
        invariant
            i <= moves@.len(),
            best == chosen_move(moves@.take(i as int), from, to),
            best matches Some(m) ==> moves@.contains(m),
        decreases moves@.len() - i,
    {
        let m = moves[i];
        assert(moves@.take(i as int + 1).drop_last() =~= moves@.take(i as int));
        assert(moves@.take(i as int + 1).last() == m);
        if m.from() == Some(from) && m.to() == to {
            let key_m: u8 = if m.promotion() == Some(PieceKind::Queen) { 1 } else { 0 };
            match best {
                None => { best = Some(m); },
                Some(b) => {
                    let key_b: u8 = if b.promotion() == Some(PieceKind::Queen) { 1 } else { 0 };
                    if key_m >= key_b {
                        best = Some(m);
                    }
                },
            }
        }
        i = i + 1;
    }
    assert(moves@.take(moves@.len() as int) =~= moves@);
    best
}

fn targets_of(moves: &Vec<ChessMove>, from: u8) -> (r: Vec<u8>)
    ensures
        r@ == targets_from(moves@, from),
{
    let mut r: Vec<u8> = Vec::new();
    let mut i: usize = 0;
    while i < moves.len()
        invariant
            i <= moves@.len(),
            r@ == targets_from(moves@.take(i as int), from),
        decreases moves@.len() - i,
    {
        let m = moves[i];
        assert(moves@.take(i as int + 1).drop_last() =~= moves@.take(i as int));
        if m.from() == Some(from) {
            r.push(m.to());
        }
        i = i + 1;
    }
    assert(moves@.take(moves@.len() as int) =~= moves@);
    r
}

/// The board cursor stays on the board.
pub open spec fn cursor_ok(c: (u8, u8)) -> bool {
    c.0 < 8 && c.1 < 8
}

impl Session {
    /// The cursor is on the board and the menu highlight on an entry.
    pub open spec fn well_formed(&self) -> bool {
        &&& cursor_ok(self.board_state.cursor)
        &&& self.menu.selected_index < MENU_LEN
    }

    /// A session that shows the main menu.
    pub fn new() -> (r: Session)
        ensures
            r.well_formed(),
            r.screen is Menu,
            r.menu.selected_index == 0,
            r.game.position@ == initial_position(),
            r.game.history@.len() == 0,
            r.board_state.cursor == (4u8, 1u8),
            r.board_state.selected is None,
            r.board_state.legal_targets@.len() == 0,
            !r.board_state.flipped,
            r.white_name@.len() == 0,
            r.black_name@.len() == 0,
            r.white_seat == Seat::Human,
            r.black_seat == Seat::Human,
            r.thinking is None,
            r.status@.len() == 0,
    {
        Session {
            screen: Screen::Menu,
            menu: MainMenu::default(),
            game: GameState::new(),
            board_state: BoardState::default(),
            white_name: String::new(),
            black_name: String::new(),
            white_seat: Seat::Human,
            black_seat: Seat::Human,
            thinking: None,
            status: String::new(),
        }
    }

    /// Sets the status line for the position.
    pub fn update_status(&mut self)
        ensures
            final(self).status@ == status_text(old(self).game.position@),
            final(self).game == old(self).game,
            final(self).board_state == old(self).board_state,
            final(self).menu == old(self).menu,
            final(self).thinking == old(self).thinking,
            final(self).white_seat == old(self).white_seat,
            final(self).black_seat == old(self).black_seat,
            final(self).screen == old(self).screen,
            final(self).white_name == old(self).white_name,
            final(self).black_name == old(self).black_name,
    {
        let side = name_of_side(self.game.side_to_move());
        let mut s = if self.game.position.is_check() { owned("Check! ") } else { String::new() };
        push_str(&mut s, side);
        push_str(&mut s, " to move");
        self.status = s;
    }

    /// Whether a person may move now: no agent is thinking and the side to
    /// move has a human seat.
    pub fn is_human_turn(&self) -> (r: bool)
        ensures
            r == (self.thinking is None
                && seat_of(self.white_seat, self.black_seat, self.game.position@.turn) == Seat::Human),
    {
        if self.thinking.is_some() {
            return false;
        }
        match self.game.side_to_move() {
            Side::White => self.white_seat == Seat::Human,
            Side::Black => self.black_seat == Seat::Human,
        }
    }

    /// Hands the move to the agent of the side to move, if that side has one.
    pub fn start_ai_thinking(&mut self) -> (c: Command)
        ensures
            ({
                let side = old(self).game.position@.turn;
                if seat_of(old(self).white_seat, old(self).black_seat, side) == Seat::Human {
                    c is Idle && final(self).thinking == old(self).thinking
                        && final(self).status == old(self).status
                } else {
                    c == Command::Think(side) && final(self).thinking == Some(side)
                        && final(self).status@ == "AI is thinking..."@
                }
            }),
            final(self).game == old(self).game,
            final(self).board_state == old(self).board_state,
            final(self).menu == old(self).menu,
            final(self).screen == old(self).screen,
            final(self).white_seat == old(self).white_seat,
            final(self).black_seat == old(self).black_seat,
            final(self).white_name == old(self).white_name,
            final(self).black_name == old(self).black_name,
    {
        let side = self.game.side_to_move();
        let seat = match side {
            Side::White => self.white_seat,
            Side::Black => self.black_seat,
        };
        if seat == Seat::Human {
            return Command::Idle;
        }
        self.thinking = Some(side);
        self.status = owned("AI is thinking...");
        Command::Think(side)
    }
}

/// The effect of a legal move on the session: the game advances and the
/// selection is cleared; then the game ends with the rules' or the
/// fifty-move rule's message, or the status line is updated and, while the
/// game screen is shown, the next side's agent (if any) is asked to think.
pub open spec fn after_player_move(old: &Session, new: &Session, mv: ChessMove, c: &Command) -> bool {
    let p = after_move(old.game.position@, mv);
    &&& new.game.position@ == p
    &&& new.game.history@ == old.game.history@.push(mv)
    &&& new.board_state.selected is None
    &&& new.board_state.legal_targets@.len() == 0
    &&& new.board_state.cursor == old.board_state.cursor
    &&& new.board_state.flipped == old.board_state.flipped
    &&& new.menu == old.menu
    &&& new.white_seat == old.white_seat
    &&& new.black_seat == old.black_seat
    &&& new.white_name == old.white_name
    &&& new.black_name == old.black_name
    &&& match game_over_text(p) {
        Some(t) => new.screen matches Screen::GameOver { message } && message@ == t
            && *c is Idle && new.thinking == old.thinking && new.status == old.status,
        None => {
            &&& new.screen == old.screen
            &&& if old.screen is Game && seat_of(old.white_seat, old.black_seat, p.turn) != Seat::Human {
                *c == Command::Think(p.turn) && new.thinking == Some(p.turn)
                    && new.status@ == "AI is thinking..."@
            } else {
                *c is Idle && new.thinking == old.thinking && new.status@ == status_text(p)
            }
        },
    }
}

/// Everything but the board view is as it was.
pub open spec fn same_but_board(old: &Session, new: &Session) -> bool {
    &&& new.screen == old.screen
    &&& new.menu == old.menu
    &&& new.game == old.game
    &&& new.white_name == old.white_name
    &&& new.black_name == old.black_name
    &&& new.white_seat == old.white_seat
    &&& new.black_seat == old.black_seat
    &&& new.thinking == old.thinking
    &&& new.status == old.status
}

/// The board view marks a square as selected, with the targets of its moves.
pub open spec fn selects(old: &Session, new: &Session, sq: u8) -> bool {
    &&& same_but_board(old, new)
    &&& new.board_state.selected == Some(sq)
    &&& new.board_state.legal_targets@ == targets_from(legal_moves_of(old.game.position@), sq)
    &&& new.board_state.cursor == old.board_state.cursor
    &&& new.board_state.flipped == old.board_state.flipped
}

/// The board view has nothing selected and no targets marked.
pub open spec fn clears_selection(old: &Session, new: &Session) -> bool {
    &&& same_but_board(old, new)
    &&& new.board_state.selected is None
    &&& new.board_state.legal_targets@.len() == 0
    &&& new.board_state.cursor == old.board_state.cursor
    &&& new.board_state.flipped == old.board_state.flipped
}

/// The effect of Enter on the board. Unless a person is to move, nothing
/// happens. With a piece selected, the chosen legal move to the cursor
/// square is played; without such a move, the cursor square is selected if
/// it holds one of the mover's pieces, and the selection is cleared
/// otherwise. With nothing selected, the cursor square is selected if it
/// holds one of the mover's pieces.
pub open spec fn enter_effect(old: &Session, new: &Session, c: &Command) -> bool {
    let p = old.game.position@;
    let to = cursor_square(old.board_state.cursor);
    if !(old.thinking is None && seat_of(old.white_seat, old.black_seat, p.turn) == Seat::Human) {
        *new == *old && *c is Idle
    } else {
        match old.board_state.selected {
            Some(from) => match chosen_move(legal_moves_of(p), from, to) {
                Some(m) => after_player_move(old, new, m, c),
                None => *c is Idle && if own_piece(p, to) { selects(old, new, to) } else { clears_selection(old, new) },
            },
            None => *c is Idle && if own_piece(p, to) { selects(old, new, to) } else { *new == *old },
        }
    }
}

/// The effect of a key on the game screen. After a game is over any key
/// returns to the menu. Otherwise the arrows move the cursor
/// (`cursor_after`), Enter selects or moves (`enter_effect`), `f` flips the
/// board, Esc clears the selection, `q` returns to the menu, giving up on an
/// agent that is thinking, and other keys do nothing.
pub open spec fn game_key_effect(old: &Session, new: &Session, key: Key, c: &Command) -> bool {
    if old.screen is GameOver {
        *c is Idle && *new == Session { screen: Screen::Menu, ..*old }
    } else if key == Key::Up || key == Key::Down || key == Key::Left || key == Key::Right {
        &&& *c is Idle
        &&& same_but_board(old, new)
        &&& new.board_state.cursor == cursor_after(old.board_state.cursor, old.board_state.flipped, key)
        &&& new.board_state.selected == old.board_state.selected
        &&& new.board_state.legal_targets == old.board_state.legal_targets
        &&& new.board_state.flipped == old.board_state.flipped
    } else if key == Key::Enter {
        enter_effect(old, new, c)
    } else if key == Key::Char('f') {
        &&& *c is Idle
        &&& same_but_board(old, new)
        &&& new.board_state.cursor == old.board_state.cursor
        &&& new.board_state.selected == old.board_state.selected
        &&& new.board_state.legal_targets == old.board_state.legal_targets
        &&& new.board_state.flipped == !old.board_state.flipped
    } else if key == Key::Esc {
        *c is Idle && clears_selection(old, new)
    } else if key == Key::Char('q') {
        *c is StopThinking && *new == Session { screen: Screen::Menu, thinking: None, ..*old }
    } else {
        *c is Idle && *new == *old
    }
}

/// A game has started between the given seats and names: a fresh game and
/// board view, the game screen and its status line; if White has an agent,
/// it is asked to think.
pub open spec fn started(old: &Session, new: &Session, w: Seat, b: Seat, wn: Seq<char>, bn: Seq<char>, c: &Command) -> bool {
    &&& new.game.position@ == initial_position()
    &&& new.game.history@.len() == 0
    &&& new.board_state.cursor == (4u8, 1u8)
    &&& new.board_state.selected is None
    &&& new.board_state.legal_targets@.len() == 0
    &&& !new.board_state.flipped
    &&& new.screen is Game
    &&& new.white_seat == w
    &&& new.black_seat == b
    &&& new.white_name@ == wn
    &&& new.black_name@ == bn
    &&& new.menu == old.menu
    &&& if w == Seat::Human {
        *c is Idle && new.thinking is None && new.status@ == status_text(initial_position())
    } else {
        *c == Command::Think(Side::White) && new.thinking == Some(Side::White)
            && new.status@ == "AI is thinking..."@
    }
}

/// The effect of choosing a menu entry: Quit leaves, Train reports that
/// training is not available here, the others start a game with the seats
/// and names of `seats_for`.
pub open spec fn start_effect(old: &Session, new: &Session, sel: MenuSelection, c: &Command) -> bool {
    match seats_for(sel) {
        Some((w, b, wn, bn)) => started(old, new, w, b, wn, bn, c),
        None => if sel == MenuSelection::Quit {
            *c is Quit && *new == *old
        } else {
            &&& *c is Idle
            &&& *new == Session { screen: new.screen, ..*old }
            &&& new.screen matches Screen::GameOver { message } && message@ == "Training not implemented yet"@
        },
    }
}

/// The effect of a key on the menu: the arrows move the highlight, Enter
/// chooses the highlighted entry (`start_effect`), `q` and Esc leave, other
/// keys do nothing.
pub open spec fn menu_key_effect(old: &Session, new: &Session, key: Key, c: &Command) -> bool {
    let i = old.menu.selected_index;
    if key == Key::Up {
        *c is Idle && *new == Session { menu: MainMenu { selected_index: if i > 0 { (i - 1) as usize } else { i } }, ..*old }
    } else if key == Key::Down {
        *c is Idle && *new == Session { menu: MainMenu { selected_index: if i < MENU_LEN - 1 { (i + 1) as usize } else { i } }, ..*old }
    } else if key == Key::Enter {
        start_effect(old, new, menu_entry(i as int), c)
    } else if key == Key::Char('q') || key == Key::Esc {
        *c is Quit && *new == *old
    } else {
        *c is Idle && *new == *old
    }
}

impl Session {
    /// Plays a move in the game. A legal move has the effects described by
    /// `after_player_move`; an illegal one changes nothing and is reported.
    pub fn apply_player_move(&mut self, mv: ChessMove) -> (c: Command)
        requires
            mv.well_formed(),
            old(self).well_formed(),
        ensures
            final(self).well_formed(),
            legal_moves_of(old(self).game.position@).contains(mv) ==> after_player_move(old(self), final(self), mv, &c),
            !legal_moves_of(old(self).game.position@).contains(mv) ==> *final(self) == *old(self)
                && c is Report
                && c->Report_0@ == "Error applying move: "@ + "illegal move: "@ + long_algebraic(mv),
    {
        match self.game.apply_move(mv) {
            Err(e) => {
                let mut msg = owned("Error applying move: ");
                let text = e.message();
                push_str(&mut msg, text.as_str());
                assert(msg@ =~= "Error applying move: "@ + ("illegal move: "@ + long_algebraic(mv)));
                return Command::Report(msg);
            },
            Ok(()) => {},
        }
        self.board_state.selected = None;
        self.board_state.legal_targets = Vec::new();
        match self.game.outcome() {
            Some(GameOutcome::Decisive { winner }) => {
                let mut msg = owned(name_of_side(winner));
                push_str(&mut msg, " wins!");
                self.screen = Screen::GameOver { message: msg };
                return Command::Idle;
            },
            Some(GameOutcome::Draw) => {
                self.screen = Screen::GameOver { message: owned("Draw!") };
                return Command::Idle;
            },
            None => {},
        }
        if self.game.halfmove_clock() >= 100 {
            self.screen = Screen::GameOver { message: owned("Draw (50-move rule)") };
            return Command::Idle;
        }
        self.update_status();
        match self.screen {
            Screen::Game => self.start_ai_thinking(),
            _ => Command::Idle,
        }
    }

    /// Selects a square: the targets of the legal moves from it are marked.
    pub fn do_select(&mut self, sq: u8)
        ensures
            selects(old(self), final(self), sq),
    {
        self.board_state.selected = Some(sq);
        let legal = self.game.legal_moves();
        self.board_state.legal_targets = targets_of(&legal, sq);
    }

    /// Enter on the board, on a person's turn: with a piece selected, plays
    /// the chosen legal move to the cursor square, or else selects the
    /// cursor square if it holds one of the mover's pieces and clears the
    /// selection otherwise; with nothing selected, selects the cursor square
    /// if it holds one of the mover's pieces.
    pub fn select_or_move(&mut self) -> (c: Command)
        requires
            old(self).well_formed(),
        ensures
            final(self).well_formed(),
            enter_effect(old(self), final(self), &c),
    {
        if !self.is_human_turn() {
            return Command::Idle;
        }
        let (f, r) = self.board_state.cursor;
        let to = r * 8 + f;
        let own = match self.game.position.piece_at(to) {
            Some(piece) => piece.color == self.game.side_to_move(),
            None => false,
        };
        match self.board_state.selected {
            Some(from) => {
                let legal = self.game.legal_moves();
                match find_move(&legal, from, to) {
                    Some(m) => {
                        self.board_state.selected = None;
                        self.board_state.legal_targets = Vec::new();
                        let ghost cleared = *self;
                        let c = self.apply_player_move(m);
                        c
                    },
                    None => {
                        if own {
                            self.do_select(to);
                        } else {
                            self.board_state.selected = None;
                            self.board_state.legal_targets = Vec::new();
                        }
                        Command::Idle
                    },
                }
            },
            None => {
                if own {
                    self.do_select(to);
                }
                Command::Idle
            },
        }
    }
}

impl Session {
    /// Starts a game between the given seats: a fresh game and board, the
    /// names, the game screen and its status line; if White has an agent,
    /// it is asked to think.
    pub fn start_with(&mut self, white: Seat, black: Seat, white_name: String, black_name: String) -> (c: Command)
        requires
            old(self).well_formed(),
        ensures
            final(self).well_formed(),
            started(old(self), final(self), white, black, white_name@, black_name@, &c),
            final(self).white_name == white_name,
            final(self).black_name == black_name,
    {
        self.game = GameState::new();
        self.board_state = BoardState::default();
        self.thinking = None;
        self.white_seat = white;
        self.black_seat = black;
        self.white_name = white_name;
        self.black_name = black_name;
        self.screen = Screen::Game;
        self.update_status();
        self.start_ai_thinking()
    }

    /// Acts on a menu entry: training is not available yet, Quit leaves,
    /// the other entries start a game with the seats of `seats_for`.
    pub fn start_game(&mut self, selection: MenuSelection) -> (c: Command)
        requires
            old(self).well_formed(),
        ensures
            final(self).well_formed(),
            start_effect(old(self), final(self), selection, &c),
    {
        match selection {
            MenuSelection::Train => {
                self.screen = Screen::GameOver { message: owned("Training not implemented yet") };
                Command::Idle
            },
            MenuSelection::Quit => Command::Quit,
            MenuSelection::HumanVsHuman => self.start_with(Seat::Human, Seat::Human, owned("White"), owned("Black")),
            MenuSelection::HumanVsAI => self.start_with(Seat::Human, Seat::Negamax(3), owned("Human"), owned("AI (Negamax d3)")),
            MenuSelection::AIVsAI => self.start_with(Seat::Negamax(3), Seat::Minimax(3), owned("AI (Negamax d3)"), owned("AI (Minimax d3)")),
        }
    }

    /// A key on the menu: the arrows move the highlight, Enter acts on the
    /// highlighted entry, `q` and Esc leave.
    pub fn handle_key_menu(&mut self, key: Key) -> (c: Command)
        requires
            old(self).well_formed(),
        ensures
            final(self).well_formed(),
            menu_key_effect(old(self), final(self), key, &c),
    {
        match key {
            Key::Up => {
                self.menu.move_up();
                Command::Idle
            },
            Key::Down => {
                self.menu.move_down();
                Command::Idle
            },
            Key::Enter => {
                let selection = self.menu.current();
                self.start_game(selection)
            },
            Key::Char(ch) => if ch == 'q' { Command::Quit } else { Command::Idle },
            Key::Esc => Command::Quit,
            _ => Command::Idle,
        }
    }

    /// A key on the game screen. After a game is over any key returns to
    /// the menu. Otherwise the arrows move the cursor (`cursor_after`),
    /// Enter selects or moves (`select_or_move`), `f` flips the board, Esc
    /// clears the selection and `q` returns to the menu, giving up on an
    /// agent that is thinking.
    pub fn handle_key_game(&mut self, key: Key) -> (c: Command)
        requires
            old(self).well_formed(),
        ensures
            final(self).well_formed(),
            game_key_effect(old(self), final(self), key, &c),
    {
        match self.screen {
            Screen::GameOver { .. } => {
                self.screen = Screen::Menu;
                return Command::Idle;
            },
            _ => {},
        }
        let (f, r) = self.board_state.cursor;
        let flipped = self.board_state.flipped;
        match key {
            Key::Up => {
                if !flipped {
                    if r < 7 { self.board_state.cursor = (f, r + 1); }
                } else if r > 0 {
                    self.board_state.cursor = (f, r - 1);
                }
                Command::Idle
            },
            Key::Down => {
                if !flipped {
                    if r > 0 { self.board_state.cursor = (f, r - 1); }
                } else if r < 7 {
                    self.board_state.cursor = (f, r + 1);
                }
                Command::Idle
            },
            Key::Left => {
                if !flipped {
                    if f > 0 { self.board_state.cursor = (f - 1, r); }
                } else if f < 7 {
                    self.board_state.cursor = (f + 1, r);
                }
                Command::Idle
            },
            Key::Right => {
                if !flipped {
                    if f < 7 { self.board_state.cursor = (f + 1, r); }
                } else if f > 0 {
                    self.board_state.cursor = (f - 1, r);
                }
                Command::Idle
            },
            Key::Enter => self.select_or_move(),
            Key::Char(ch) => {
                if ch == 'f' {
                    self.board_state.flipped = !flipped;
                    Command::Idle
                } else if ch == 'q' {
                    self.screen = Screen::Menu;
                    self.thinking = None;
                    Command::StopThinking
                } else {
                    Command::Idle
                }
            },
            Key::Esc => {
                self.board_state.selected = None;
                self.board_state.legal_targets = Vec::new();
                Command::Idle
            },
            Key::Other => Command::Idle,
        }
    }

    /// A key press, on whichever screen is shown.
    pub fn handle_key(&mut self, key: Key) -> (c: Command)
        requires
            old(self).well_formed(),
        ensures
            final(self).well_formed(),
            old(self).screen is Menu ==> menu_key_effect(old(self), final(self), key, &c),
            !(old(self).screen is Menu) ==> game_key_effect(old(self), final(self), key, &c),
    {
        match self.screen {
            Screen::Menu => self.handle_key_menu(key),
            _ => self.handle_key_game(key),
        }
    }

    /// The move an agent found: the session stops waiting and plays it.
    pub fn ai_moved(&mut self, mv: ChessMove) -> (c: Command)
        requires
            old(self).well_formed(),
            mv.well_formed(),
        ensures
            final(self).well_formed(),
            ({
                let waiting = Session { thinking: None, ..*old(self) };
                &&& legal_moves_of(old(self).game.position@).contains(mv) ==> after_player_move(&waiting, final(self), mv, &c)
                &&& !legal_moves_of(old(self).game.position@).contains(mv) ==> c is Report
                    && c->Report_0@ == "Error applying move: "@ + "illegal move: "@ + long_algebraic(mv)
                    && *final(self) == waiting
            }),
    {
        self.thinking = None;
        self.apply_player_move(mv)
    }
}

} // verus!
