//! The text of the game screen's side panel: the move list.

use vstd::prelude::*;
use crate::chess::position::{Position, PositionView, after_move, initial_position, legal_moves_of, san_text};
use crate::chess::types::ChessMove;
use crate::text::{decimal, push_char, push_decimal, push_str};

verus! {

/// The SAN of the moves of a game played from a position, up to the first
/// move that is not legal there.
pub open spec fn sans_from(p: PositionView, moves: Seq<ChessMove>) -> Seq<Seq<char>>
    decreases moves.len(),
{
    if moves.len() == 0 || !legal_moves_of(p).contains(moves[0]) || !moves[0].well_formed() {
        Seq::empty()
    } else {
        seq![san_text(p, moves[0])] + sans_from(after_move(p, moves[0]), moves.drop_first())
    }
}

/// Line `j` of the move list: the move number, White's move and, if there
/// is one, Black's reply, as in `1. e4 e5`.
pub open spec fn move_line(sans: Seq<Seq<char>>, j: int) -> Seq<char> {
    let head = decimal((j + 1) as nat) + seq!['.', ' '] + sans[2 * j];
    if 2 * j + 1 < sans.len() { head + seq![' '] + sans[2 * j + 1] } else { head }
}

/// The move list: one line per move pair.
pub open spec fn move_lines(sans: Seq<Seq<char>>) -> Seq<Seq<char>> {
    Seq::new(((sans.len() + 1) / 2) as nat, |j: int| move_line(sans, j))
}

/// The SAN of the moves of a game from the starting position, stopping at
/// the first move that is not legal.
pub fn history_sans(history: &Vec<ChessMove>) -> (r: Vec<String>)
    ensures
        r@.map_values(|s: String| s@) == sans_from(initial_position(), history@),
{
    let mut pos = Position::initial();
    let mut out: Vec<String> = Vec::new();
    let mut i: usize = 0;
    assert(history@.skip(0) =~= history@);
    assert(out@.map_values(|s: String| s@) =~= Seq::<Seq<char>>::empty());
    assert(out@.map_values(|s: String| s@) + sans_from(pos@, history@) =~= sans_from(pos@, history@));
    while i < history.len()
        invariant
            i <= history@.len(),
            out@.map_values(|s: String| s@) + sans_from(pos@, history@.skip(i as int))
                == sans_from(initial_position(), history@),
        decreases history@.len() - i,
    {
        let mv = history[i];
        let ghost rest = history@.skip(i as int);
        assert(rest[0] == mv);
        assert(rest.drop_first() =~= history@.skip(i as int + 1));
        let next = if mv.well_formed_exec() { pos.play(&mv) } else { None };
        match next {
            None => {
                assert(sans_from(pos@, rest) =~= Seq::<Seq<char>>::empty());
                assert(out@.map_values(|s: String| s@) =~= out@.map_values(|s: String| s@) + Seq::<Seq<char>>::empty());
                return out;
            },
            Some(q) => {
                let san = pos.san(&mv);
                let ghost before = out@.map_values(|s: String| s@);
                out.push(san);
                assert(out@.map_values(|s: String| s@) =~= before.push(san@));
                assert(before.push(san@) + sans_from(q@, rest.drop_first()) =~= before + sans_from(pos@, rest));
                pos = q;
            },
        }
        i = i + 1;
    }
    assert(history@.skip(i as int) =~= Seq::<ChessMove>::empty());
    assert(out@.map_values(|s: String| s@) =~= out@.map_values(|s: String| s@) + Seq::<Seq<char>>::empty());
    out
}

/// The move list of a game from the starting position, one line per move
/// pair, up to the first move that is not legal.
pub fn history_lines(history: &Vec<ChessMove>) -> (r: Vec<String>)
    ensures
        r@.map_values(|s: String| s@) == move_lines(sans_from(initial_position(), history@)),
{
    let sans = history_sans(history);
    let ghost sv = sans@.map_values(|s: String| s@);
    let mut lines: Vec<String> = Vec::new();
    let n = sans.len();
    let mut j: usize = 0;
    while j < n - j
        invariant
            sv == sans@.map_values(|s: String| s@),
            n == sans@.len(),
            j <= n,
            2 * j <= n + 1,
            lines@.len() == j,
            forall|k: int| 0 <= k < j ==> (#[trigger] lines@[k])@ == move_line(sv, k),
        decreases n + 1 - 2 * j,
    {
        let mut line = String::new();
        assert(sv[2 * j as int] == sans@[2 * j as int]@);
        push_decimal(&mut line, (j + 1) as u64);
        push_char(&mut line, '.');
        push_char(&mut line, ' ');
        push_str(&mut line, sans[2 * j].as_str());
        if j + 1 < n - j {
            assert(sv[2 * j as int + 1] == sans@[2 * j as int + 1]@);
            push_char(&mut line, ' ');
            push_str(&mut line, sans[2 * j + 1].as_str());
        }
        assert(line@ =~= move_line(sv, j as int));
        lines.push(line);
        j = j + 1;
    }
    assert(lines@.map_values(|s: String| s@) =~= move_lines(sv));
    lines
}

} // verus!
