//! Training examples: network inputs for recorded positions and the
//! visit counts that make the policy targets.

use vstd::prelude::*;
use crate::agents::mcts::MoveVisit;
use crate::chess::board::GameState;
use crate::chess::moves::{MoveError, parse_uci};
use crate::chess::position::{PositionView, fen_position, uci_move, uci_syntax_ok};
use crate::eval::neural::{ENCODED_LEN, encode_position, encoded_input};
use crate::eval::policy::{encode_move, move_index};

verus! {

/// The inputs of the positions of a list of FEN texts that are valid, in order.
pub open spec fn fen_inputs(fens: Seq<Seq<char>>) -> Seq<PositionView>
    decreases fens.len(),
{
    if fens.len() == 0 {
        Seq::empty()
    } else {
        match fen_position(fens.last()) {
            Some(p) => fen_inputs(fens.drop_last()).push(p),
            None => fen_inputs(fens.drop_last()),
        }
    }
}

/// The encoding of a position is what `encode_position` computes for it.
pub open spec fn encodes(v: Seq<u8>, p: PositionView) -> bool {
    v.len() == ENCODED_LEN && forall|i: int| 0 <= i < ENCODED_LEN ==> #[trigger] v[i] == encoded_input(p, i)
}

/// Encodes the positions of the FEN texts of a game record, skipping the
/// texts that do not parse.
pub fn encode_fens(fens: &Vec<String>) -> (r: Vec<Vec<u8>>)
    ensures
        r@.len() == fen_inputs(fens@.map_values(|s: String| s@)).len(),
        forall|i: int| 0 <= i < r@.len() ==> encodes(#[trigger] r@[i]@, fen_inputs(fens@.map_values(|s: String| s@))[i]),
{
    let ghost texts = fens@.map_values(|s: String| s@);
    let mut r: Vec<Vec<u8>> = Vec::new();
    let mut i: usize = 0;
    while i < fens.len()
        invariant
            i <= fens@.len(),
            texts == fens@.map_values(|s: String| s@),
            r@.len() == fen_inputs(texts.take(i as int)).len(),
            forall|j: int| 0 <= j < r@.len() ==> encodes(#[trigger] r@[j]@, fen_inputs(texts.take(i as int))[j]),
        decreases fens@.len() - i,
    {
        assert(texts.take(i as int + 1).drop_last() =~= texts.take(i as int));
        assert(texts.take(i as int + 1).last() == fens@[i as int]@);
        match GameState::from_fen(fens[i].as_str()) {
            Ok(state) => {
                let enc = encode_position(&state);
                r.push(enc);
            },
            Err(_) => {},
        }
        i = i + 1;
    }
    assert(texts.take(fens@.len() as int) =~= texts);
    r
}

/// The sum of the visit counts.
pub open spec fn total_visits(v: Seq<MoveVisit>) -> int
    decreases v.len(),
{
    if v.len() == 0 { 0 } else { total_visits(v.drop_last()) + v.last().visits }
}

/// The policy entries of the visit counts in a position: for each entry
/// whose UCI text is a legal move, the move's policy index and the visit
/// count, in order.
pub open spec fn policy_entries(p: PositionView, v: Seq<MoveVisit>) -> Seq<(int, u32)>
    decreases v.len(),
{
    if v.len() == 0 {
        Seq::empty()
    } else {
        let e = v.last();
        let rest = policy_entries(p, v.drop_last());
        if uci_syntax_ok(e.uci@) && uci_move(p, e.uci@) is Some {
            rest.push((move_index(uci_move(p, e.uci@)->0), e.visits))
        } else {
            rest
        }
    }
}

/// The policy target of a position as integers: the total visit count and
/// the (policy index, visits) entries of the legal moves, in order; the
/// target of an entry is its visits divided by the total, a later entry for
/// the same index replacing an earlier one. `None` when no move was visited.
pub fn policy_counts(state: &GameState, visits: &Vec<MoveVisit>) -> (r: Option<(u128, Vec<(usize, u32)>)>)
    ensures
        r is None <==> total_visits(visits@) == 0,
        r matches Some((total, entries)) ==> total as int == total_visits(visits@)
            && entries@.len() == policy_entries(state.position@, visits@).len()
            && forall|i: int| 0 <= i < entries@.len() ==>
                (#[trigger] entries@[i]).0 as int == policy_entries(state.position@, visits@)[i].0
                && entries@[i].1 == policy_entries(state.position@, visits@)[i].1,
{
    let mut total: u128 = 0;
    let mut entries: Vec<(usize, u32)> = Vec::new();
    let mut i: usize = 0;
    while i < visits.len()
        invariant
            i <= visits@.len(),
            total as int == total_visits(visits@.take(i as int)),
            total as int <= i * 0x1_0000_0000,
            entries@.len() == policy_entries(state.position@, visits@.take(i as int)).len(),
            forall|j: int| 0 <= j < entries@.len() ==>
                (#[trigger] entries@[j]).0 as int == policy_entries(state.position@, visits@.take(i as int))[j].0
                && entries@[j].1 == policy_entries(state.position@, visits@.take(i as int))[j].1,
        decreases visits@.len() - i,
    {
        assert(visits@.take(i as int + 1).drop_last() =~= visits@.take(i as int));
        assert(visits@.take(i as int + 1).last() == visits@[i as int]);
        let v = &visits[i];
        total = total + v.visits as u128;
        match parse_uci(&state.position, v.uci.as_str()) {
            Ok(mv) => {
                entries.push((encode_move(&mv), v.visits));
            },
            Err(_) => {},
        }
        i = i + 1;
    }
    assert(visits@.take(visits@.len() as int) =~= visits@);
    if total == 0 {
        None
    } else {
        Some((total, entries))
    }
}

} // verus!
