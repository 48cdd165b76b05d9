//! Alpha-beta search in negamax form, with a transposition table and a deadline.

use vstd::prelude::*;
use std::collections::HashMap;
use crate::chess::position::{Position, PositionView, after_move, legal_moves_of, zobrist_key};
use crate::chess::types::{ChessMove, Side};
use crate::eval::classical::{MATE_SCORE, evaluate, evaluation, lemma_evaluation_bounded};
use super::clock::Deadline;

verus! {

broadcast use vstd::std_specs::hash::group_hash_axioms;

/// Scores are centipawns.
pub type Score = i32;

/// The transposition table: position hash to score and the depth it was searched to.
pub type Table = HashMap<u64, (i32, u32)>;

/// The largest size of any score the search handles.
pub open spec fn score_limit() -> int {
    1_283_200
}

/// A score within the search's limits (its negation is then a score too).
pub open spec fn score_ok(s: int) -> bool {
    -score_limit() <= s <= score_limit()
}

/// Every score stored in the table can be negated: none is `i32::MIN`.
pub open spec fn table_ok(tt: Map<u64, (i32, u32)>) -> bool {
    forall|k: u64| #[trigger] tt.contains_key(k) ==> tt[k].0 > i32::MIN
}

/// A score from White's point of view, turned to the point of view of the side to move.
pub open spec fn for_side(turn: Side, white_score: int) -> int {
    if turn == Side::White { white_score } else { -white_score }
}

/// The moves that capture, in their order.
pub open spec fn capturing(s: Seq<ChessMove>) -> Seq<ChessMove>
    decreases s.len(),
{
    if s.len() == 0 {
        Seq::empty()
    } else if s.last().captures() {
        capturing(s.drop_last()).push(s.last())
    } else {
        capturing(s.drop_last())
    }
}

/// The moves that do not capture, in their order.
pub open spec fn quiet(s: Seq<ChessMove>) -> Seq<ChessMove>
    decreases s.len(),
{
    if s.len() == 0 {
        Seq::empty()
    } else if s.last().captures() {
        quiet(s.drop_last())
    } else {
        quiet(s.drop_last()).push(s.last())
    }
}

/// Move ordering: captures first, each group in the order given (a
/// stable sort on "is not a capture").
pub open spec fn captures_first(s: Seq<ChessMove>) -> Seq<ChessMove> {
    capturing(s) + quiet(s)
}

/// Move ordering keeps the number of moves and yields only moves it was given.
pub proof fn lemma_captures_first_members(s: Seq<ChessMove>)
    ensures
        captures_first(s).len() == s.len(),
        forall|i: int| 0 <= i < s.len() ==> s.contains(#[trigger] captures_first(s)[i]),
    decreases s.len(),
{
    if s.len() > 0 {
        let t = s.drop_last();
        lemma_captures_first_members(t);
        assert forall|i: int| 0 <= i < s.len() implies s.contains(#[trigger] captures_first(s)[i]) by {
            let c = capturing(t);
            let q = quiet(t);
            assert(forall|j: int| 0 <= j < t.len() ==> s[j] == t[j]);
            if i < c.len() {
                assert(captures_first(t)[i] == c[i]);
                let j = choose|j: int| 0 <= j < t.len() && t[j] == captures_first(t)[i];
                assert(s[j] == captures_first(s)[i]);
            } else if s.last().captures() && i == c.len() {
                assert(captures_first(s)[i] == s.last());
                assert(s[s.len() - 1] == s.last());
            } else {
                let k = if s.last().captures() { i - 1 } else { i };
                if k < t.len() {
                    assert(captures_first(t)[k] == captures_first(s)[i]);
                    let j = choose|j: int| 0 <= j < t.len() && t[j] == captures_first(t)[k];
                    assert(s[j] == captures_first(s)[i]);
                } else {
                    assert(captures_first(s)[i] == s.last());
                    assert(s[s.len() - 1] == s.last());
                }
            }
        }
    }
}

/// Move ordering is a permutation: it yields every move it was given, as
/// often as it was given.
pub proof fn lemma_captures_first_permutes(s: Seq<ChessMove>)
    ensures
        captures_first(s).to_multiset() =~= s.to_multiset(),
    decreases s.len(),
{
    broadcast use vstd::seq_lib::group_to_multiset_ensures;
    vstd::seq_lib::lemma_multiset_commutative(capturing(s), quiet(s));
    if s.len() == 0 {
        assert(capturing(s) =~= Seq::<ChessMove>::empty());
        assert(quiet(s) =~= Seq::<ChessMove>::empty());
    } else {
        let t = s.drop_last();
        lemma_captures_first_permutes(t);
        vstd::seq_lib::lemma_multiset_commutative(capturing(t), quiet(t));
        assert(s =~= t.push(s.last()));
    }
}

/// Orders moves with captures first, keeping the order within each group.
pub fn order_moves(moves: &Vec<ChessMove>) -> (r: Vec<ChessMove>)
    ensures
        r@ == captures_first(moves@),
{
    let mut caps: Vec<ChessMove> = Vec::new();
    let mut rest: Vec<ChessMove> = Vec::new();
    let mut i: usize = 0;
    while i < moves.len()
        invariant
            i <= moves@.len(),
            caps@ == capturing(moves@.take(i as int)),
            rest@ == quiet(moves@.take(i as int)),
        decreases moves@.len() - i,
    {
        let m = moves[i];
        assert(moves@.take(i as int + 1).drop_last() =~= moves@.take(i as int));
        if m.is_capture() {
            caps.push(m);
        } else {
            rest.push(m);
        }
        i = i + 1;
    }
    assert(moves@.take(moves@.len() as int) =~= moves@);
    caps.append(&mut rest);
    caps
}

/// The score a leaf function gives a position, from White's point of view:
/// the value it returns for a position with that view.
pub open spec fn leaf_result<F: Fn(&Position) -> i32>(leaf: F, p: PositionView) -> int {
    (choose|q: &Position, s: i32| q@ == p && #[trigger] leaf.ensures((q,), s)).1 as int
}

/// A leaf function as a function of position views.
pub open spec fn leaf_view<F: Fn(&Position) -> i32>(leaf: F) -> spec_fn(PositionView) -> int {
    |p: PositionView| leaf_result(leaf, p)
}

/// A leaf function gives one score per position: two positions with the
/// same view get the same score.
pub open spec fn leaf_deterministic<F: Fn(&Position) -> i32>(leaf: F) -> bool {
    forall|p: &Position, q: &Position, s: i32, t: i32|
        #[trigger] leaf.ensures((p,), s) && #[trigger] leaf.ensures((q,), t) && p@ == q@ ==> s == t
}

/// What a call of a deterministic leaf function returns is its `leaf_result`.
proof fn lemma_leaf_result<F: Fn(&Position) -> i32>(leaf: F, p: &Position, s: i32)
    requires
        leaf_deterministic(leaf),
        leaf.ensures((p,), s),
    ensures
        leaf_result(leaf, p@) == s as int,
{
    assert(exists|q: &Position, t: i32| q@ == p@ && #[trigger] leaf.ensures((q,), t));
    let (q, t) = choose|q: &Position, t: i32| q@ == p@ && #[trigger] leaf.ensures((q,), t);
    assert(leaf.ensures((q,), t) && leaf.ensures((p,), s) && q@ == p@);
}

/// What alpha-beta search computes when it runs to the end, with `white`
/// scoring the leaves from White's point of view: the score of the position
/// for the side to move, and the transposition table afterwards. A table
/// entry searched at least as deep is the answer, and the table stays as it
/// was; a position at depth zero or without legal moves gets its leaf score
/// for the side to move, and the table stays as it was; otherwise the moves
/// are searched captures first (`ab_children_by`) and the best score is
/// stored with the depth.
pub open spec fn ab_value_by(
    white: spec_fn(PositionView) -> int,
    p: PositionView,
    depth: u32,
    alpha: int,
    beta: int,
    tt: Map<u64, (i32, u32)>,
) -> (int, Map<u64, (i32, u32)>)
    decreases depth, 1int, 0int,
{
    let k = zobrist_key(p);
    if tt.contains_key(k) && tt[k].1 >= depth {
        (tt[k].0 as int, tt)
    } else if depth == 0 || legal_moves_of(p).len() == 0 {
        (for_side(p.turn, white(p)), tt)
    } else {
        let r = ab_children_by(white, p, captures_first(legal_moves_of(p)), 0, depth, alpha, beta, -(MATE_SCORE as int), tt);
        (r.0, r.1.insert(k, (r.0 as i32, depth)))
    }
}

/// The search of the moves from index `i` on, with the current window
/// lower bound `alpha`, the best score so far and the table so far: each
/// child is searched with the window negated, its negated score may raise
/// the best score and `alpha`, and the search stops once `alpha` reaches `beta`.
pub open spec fn ab_children_by(
    white: spec_fn(PositionView) -> int,
    p: PositionView,
    moves: Seq<ChessMove>,
    i: int,
    depth: u32,
    alpha: int,
    beta: int,
    best: int,
    tt: Map<u64, (i32, u32)>,
) -> (int, Map<u64, (i32, u32)>)
    decreases depth, 0int, moves.len() - i,
{
    if i < 0 || i >= moves.len() || depth == 0 {
        (best, tt)
    } else {
        let child = ab_value_by(white, after_move(p, moves[i]), (depth - 1) as u32, -beta, -alpha, tt);
        let score = -child.0;
        let best2 = if score > best { score } else { best };
        let alpha2 = if best2 > alpha { best2 } else { alpha };
        if alpha2 >= beta {
            (best2, child.1)
        } else {
            ab_children_by(white, p, moves, i + 1, depth, alpha2, beta, best2, child.1)
        }
    }
}

/// The requirements on a leaf function: it can always be called, it gives
/// one score per position, and its scores are within the limits.
pub open spec fn leaf_ok<F: Fn(&Position) -> i32>(leaf: F) -> bool {
    &&& forall|p: &Position| #[trigger] leaf.requires((p,))
    &&& forall|p: &Position, s: i32| #[trigger] leaf.ensures((p,), s) ==> score_ok(s as int)
    &&& leaf_deterministic(leaf)
}

/// Negamax with alpha-beta pruning, a transposition table and a deadline,
/// with `leaf` scoring the leaves from White's point of view.
///
/// The score is from the point of view of the side to move; `None` means
/// the deadline passed, which never happens for a deadline that cannot be
/// represented. Otherwise the score and the table are those of
/// `ab_value_by` with the leaf function's scores.
pub fn search<F: Fn(&Position) -> i32>(
    pos: &Position,
    depth: u32,
    alpha: i32,
    beta: i32,
    deadline: &Deadline,
    tt: &mut Table,
    leaf: &F,
) -> (r: Option<i32>)
    requires
        table_ok(old(tt)@),
        alpha > i32::MIN,
        beta > i32::MIN,
        leaf_ok(*leaf),
    ensures
        table_ok(final(tt)@),
        deadline.at is None ==> r is Some,
        r matches Some(s) ==> s > i32::MIN,
        r matches Some(s) ==> s as int == ab_value_by(leaf_view(*leaf), pos@, depth, alpha as int, beta as int, old(tt)@).0
            && final(tt)@ == ab_value_by(leaf_view(*leaf), pos@, depth, alpha as int, beta as int, old(tt)@).1,
    decreases depth,
{
    if deadline.expired() {
        return None;
    }
    let hash = pos.zobrist();
    match tt.get(&hash) {
        Some(entry) => {
            let (score, cached_depth) = *entry;
            if cached_depth >= depth {
                return Some(score);
            }
        },
        None => {},
    }
    let moves = pos.legal_moves();
    if depth == 0 || moves.len() == 0 {
        let raw = leaf(pos);
        proof { lemma_leaf_result(*leaf, pos, raw); }
        return Some(if pos.turn().is_white() { raw } else { -raw });
    }
    let moves = order_moves(&moves);
    proof { lemma_captures_first_members(legal_moves_of(pos@)); }
    let ghost white = leaf_view(*leaf);
    let ghost total = ab_children_by(white, pos@, moves@, 0, depth, alpha as int, beta as int, -(MATE_SCORE as int), tt@);
    let mut alpha = alpha;
    let mut best: i32 = -MATE_SCORE;
    let mut i: usize = 0;
    while i < moves.len()
        invariant_except_break
            ab_children_by(white, pos@, moves@, i as int, depth, alpha as int, beta as int, best as int, tt@) == total,
        invariant
            white == leaf_view(*leaf),
            i <= moves@.len(),
            moves@ == captures_first(legal_moves_of(pos@)),
            captures_first(legal_moves_of(pos@)).len() == legal_moves_of(pos@).len(),
            forall|j: int| 0 <= j < moves@.len() ==> legal_moves_of(pos@).contains(#[trigger] moves@[j]),
            forall|j: int| 0 <= j < legal_moves_of(pos@).len() ==> (#[trigger] legal_moves_of(pos@)[j]).well_formed(),
            table_ok(tt@),
            alpha > i32::MIN,
            beta > i32::MIN,
            -MATE_SCORE <= best,
            depth > 0,
            leaf_ok(*leaf),
        ensures
            (best as int, tt@) == total,
            table_ok(tt@),
            -MATE_SCORE <= best,
        decreases moves@.len() - i,
    {
        if deadline.expired() {
            return None;
        }
        let mv = moves[i];
        assert(legal_moves_of(pos@).contains(mv));
        let next = match pos.play(&mv) {
            Some(q) => q,
            None => { return None; },
        };
        let child = match search(&next, depth - 1, -beta, -alpha, deadline, tt, leaf) {
            Some(c) => c,
            None => { return None; },
        };
        let score = -child;
        if score > best {
            best = score;
        }
        if best > alpha {
            alpha = best;
        }
        if alpha >= beta {
            break;
        }
        i = i + 1;
    }
    tt.insert(hash, (best, depth));
    Some(best)
}

/// The classical evaluation used at the leaves, from White's point of view.
pub fn classical_leaf(p: &Position) -> (s: i32)
    ensures
        s as int == evaluation(p@),
        score_ok(s as int),
{
    proof { lemma_evaluation_bounded(p@); }
    evaluate(p)
}

/// The classical evaluation as a leaf function.
pub open spec fn classical_white() -> spec_fn(PositionView) -> int {
    |p: PositionView| evaluation(p)
}

/// The value of a position at the leaves of the classical search: the
/// evaluation, from the point of view of the side to move.
pub open spec fn leaf_value(p: PositionView) -> int {
    for_side(p.turn, evaluation(p))
}

/// What the classical alpha-beta search computes: `ab_value_by` with the
/// classical evaluation at the leaves.
pub open spec fn ab_value(p: PositionView, depth: u32, alpha: int, beta: int, tt: Map<u64, (i32, u32)>) -> (int, Map<u64, (i32, u32)>) {
    ab_value_by(classical_white(), p, depth, alpha, beta, tt)
}

/// The classical search of the moves from index `i` on (`ab_children_by`
/// with the classical evaluation at the leaves).
pub open spec fn ab_children(
    p: PositionView,
    moves: Seq<ChessMove>,
    i: int,
    depth: u32,
    alpha: int,
    beta: int,
    best: int,
    tt: Map<u64, (i32, u32)>,
) -> (int, Map<u64, (i32, u32)>) {
    ab_children_by(classical_white(), p, moves, i, depth, alpha, beta, best, tt)
}

/// The score of a move for the side that plays it, one ply deep: the
/// negated leaf value of the position it leads to.
pub open spec fn child_score(p: PositionView, m: ChessMove) -> int {
    -leaf_value(after_move(p, m))
}

proof fn lemma_one_ply_children(p: PositionView, moves: Seq<ChessMove>, i: int, best: int)
    requires
        0 <= i <= moves.len(),
        -(MATE_SCORE as int) <= best <= MATE_SCORE as int,
        forall|j: int| 0 <= j < moves.len() ==>
            -(MATE_SCORE as int) <= #[trigger] child_score(p, moves[j]) <= MATE_SCORE as int,
    ensures
        ({
            let r = ab_children(p, moves, i, 1, best, MATE_SCORE as int, best, Map::empty());
            &&& r.1 == Map::<u64, (i32, u32)>::empty()
            &&& best <= r.0
            &&& forall|j: int| i <= j < moves.len() ==> #[trigger] child_score(p, moves[j]) <= r.0
            &&& (r.0 == best || exists|j: int| i <= j < moves.len() && r.0 == #[trigger] child_score(p, moves[j]))
        }),
    decreases moves.len() - i,
{
    if i < moves.len() {
        let c = after_move(p, moves[i]);
        assert(!Map::<u64, (i32, u32)>::empty().contains_key(zobrist_key(c)));
        assert(classical_white()(c) == evaluation(c));
        assert(ab_value_by(classical_white(), c, 0, -(MATE_SCORE as int), -best, Map::empty())
            == (leaf_value(c), Map::<u64, (i32, u32)>::empty()));
        let score = child_score(p, moves[i]);
        assert(score == child_score(p, moves[i]));
        let best2 = if score > best { score } else { best };
        if best2 < MATE_SCORE as int {
            lemma_one_ply_children(p, moves, i + 1, best2);
            let r = ab_children(p, moves, i + 1, 1, best2, MATE_SCORE as int, best2, Map::empty());
            assert(ab_children(p, moves, i, 1, best, MATE_SCORE as int, best, Map::empty()) == r);
            if r.0 == best2 && best2 == score {
                assert(r.0 == child_score(p, moves[i]));
            }
        }
    }
}

/// A search one ply deep from an empty table, with the full window from
/// minus mate to mate, finds the plain one-ply maximum: the best score over
/// the legal moves of the negated leaf value of the position each leads to.
/// This holds when every such score lies within the mate scores, which
/// the cut-off at the mate score needs.
pub proof fn lemma_depth_one_is_best_reply(p: PositionView)
    requires
        legal_moves_of(p).len() > 0,
        forall|m: ChessMove| legal_moves_of(p).contains(m) ==>
            -(MATE_SCORE as int) <= #[trigger] child_score(p, m) <= MATE_SCORE as int,
    ensures
        forall|m: ChessMove| legal_moves_of(p).contains(m) ==>
            #[trigger] child_score(p, m) <= ab_value(p, 1, -(MATE_SCORE as int), MATE_SCORE as int, Map::empty()).0,
        exists|m: ChessMove| legal_moves_of(p).contains(m)
            && ab_value(p, 1, -(MATE_SCORE as int), MATE_SCORE as int, Map::empty()).0 == #[trigger] child_score(p, m),
{
    broadcast use vstd::seq_lib::group_to_multiset_ensures;
    let legal = legal_moves_of(p);
    let moves = captures_first(legal);
    lemma_captures_first_members(legal);
    lemma_captures_first_permutes(legal);
    assert forall|j: int| 0 <= j < moves.len() implies
        -(MATE_SCORE as int) <= #[trigger] child_score(p, moves[j]) <= MATE_SCORE as int by {
        assert(legal.contains(moves[j]));
    }
    lemma_one_ply_children(p, moves, 0, -(MATE_SCORE as int));
    let r = ab_children(p, moves, 0, 1, -(MATE_SCORE as int), MATE_SCORE as int, -(MATE_SCORE as int), Map::empty());
    assert(!Map::<u64, (i32, u32)>::empty().contains_key(zobrist_key(p)));
    assert(ab_value(p, 1, -(MATE_SCORE as int), MATE_SCORE as int, Map::empty()).0 == r.0);
    assert forall|m: ChessMove| legal.contains(m) implies #[trigger] child_score(p, m) <= r.0 by {
        assert(legal.to_multiset().count(m) > 0);
        assert(moves.to_multiset().count(m) > 0);
        assert(moves.contains(m));
        let j = choose|j: int| 0 <= j < moves.len() && moves[j] == m;
        assert(child_score(p, moves[j]) <= r.0);
    }
    if r.0 == -(MATE_SCORE as int) {
        assert(legal.contains(moves[0]));
        assert(child_score(p, moves[0]) <= r.0);
        assert(child_score(p, moves[0]) == r.0);
    } else {
        let j = choose|j: int| 0 <= j < moves.len() && r.0 == #[trigger] child_score(p, moves[j]);
        assert(legal.contains(moves[j]));
    }
}

/// Negamax with alpha-beta pruning, the classical evaluation at the leaves,
/// a transposition table and a deadline. `None` means the deadline passed;
/// otherwise the score and the table are those of `ab_value`.
pub fn negamax(
    pos: &Position,
    depth: u32,
    alpha: i32,
    beta: i32,
    deadline: &Deadline,
    tt: &mut Table,
) -> (r: Option<i32>)
    requires
        table_ok(old(tt)@),
        alpha > i32::MIN,
        beta > i32::MIN,
    ensures
        table_ok(final(tt)@),
        deadline.at is None ==> r is Some,
        r matches Some(s) ==> s > i32::MIN,
        r matches Some(s) ==> s as int == ab_value(pos@, depth, alpha as int, beta as int, old(tt)@).0
            && final(tt)@ == ab_value(pos@, depth, alpha as int, beta as int, old(tt)@).1,
    decreases depth,
{
    if deadline.expired() {
        return None;
    }
    let hash = pos.zobrist();
    match tt.get(&hash) {
        Some(entry) => {
            let (score, cached_depth) = *entry;
            if cached_depth >= depth {
                return Some(score);
            }
        },
        None => {},
    }
    let moves = pos.legal_moves();
    if depth == 0 || moves.len() == 0 {
        let raw = classical_leaf(pos);
        return Some(if pos.turn().is_white() { raw } else { -raw });
    }
    let moves = order_moves(&moves);
    proof { lemma_captures_first_members(legal_moves_of(pos@)); }
    let ghost total = ab_children(pos@, moves@, 0, depth, alpha as int, beta as int, -(MATE_SCORE as int), tt@);
    let mut alpha = alpha;
    let mut best: i32 = -MATE_SCORE;
    let mut i: usize = 0;
    while i < moves.len()
        invariant_except_break
            ab_children(pos@, moves@, i as int, depth, alpha as int, beta as int, best as int, tt@) == total,
        invariant
            i <= moves@.len(),
            moves@ == captures_first(legal_moves_of(pos@)),
            captures_first(legal_moves_of(pos@)).len() == legal_moves_of(pos@).len(),
            forall|j: int| 0 <= j < moves@.len() ==> legal_moves_of(pos@).contains(#[trigger] moves@[j]),
            forall|j: int| 0 <= j < legal_moves_of(pos@).len() ==> (#[trigger] legal_moves_of(pos@)[j]).well_formed(),
            table_ok(tt@),
            alpha > i32::MIN,
            beta > i32::MIN,
            -MATE_SCORE <= best,
            depth > 0,
        ensures
            (best as int, tt@) == total,
            table_ok(tt@),
            -MATE_SCORE <= best,
        decreases moves@.len() - i,
    {
        if deadline.expired() {
            return None;
        }
        let mv = moves[i];
        assert(legal_moves_of(pos@).contains(mv));
        let next = match pos.play(&mv) {
            Some(q) => q,
            None => { return None; },
        };
        let child = match negamax(&next, depth - 1, -beta, -alpha, deadline, tt) {
            Some(c) => c,
            None => { return None; },
        };
        let score = -child;
        if score > best {
            best = score;
        }
        if best > alpha {
            alpha = best;
        }
        if alpha >= beta {
            break;
        }
        i = i + 1;
    }
    tt.insert(hash, (best, depth));
    Some(best)
}

/// One iteration of the root search at depth `d`, from move `i` on, with
/// `white` scoring the leaves: each move is searched with the window from
/// minus mate to the negated best score so far, and the first move with
/// the highest score is kept.
pub open spec fn root_iter_by(
    white: spec_fn(PositionView) -> int,
    p: PositionView,
    moves: Seq<ChessMove>,
    i: int,
    d: u32,
    alpha: int,
    best_score: int,
    best_move: ChessMove,
    tt: Map<u64, (i32, u32)>,
) -> (ChessMove, Map<u64, (i32, u32)>)
    decreases moves.len() - i,
{
    if i < 0 || i >= moves.len() || d == 0 {
        (best_move, tt)
    } else {
        let child = ab_value_by(white, after_move(p, moves[i]), (d - 1) as u32, -(MATE_SCORE as int), -alpha, tt);
        let score = -child.0;
        let bs = if score > best_score { score } else { best_score };
        let bm = if score > best_score { moves[i] } else { best_move };
        let alpha2 = if score > alpha { score } else { alpha };
        root_iter_by(white, p, moves, i + 1, d, alpha2, bs, bm, child.1)
    }
}

/// Iterative deepening with `white` scoring the leaves: the move chosen
/// once the iterations at depths 1 to `d` have all finished, and the
/// transposition table they leave; with no iteration, the first move in
/// search order and an empty table.
pub open spec fn deepened_by(white: spec_fn(PositionView) -> int, p: PositionView, d: u32) -> (ChessMove, Map<u64, (i32, u32)>)
    decreases d,
{
    let moves = captures_first(legal_moves_of(p));
    if d == 0 {
        (moves[0], Map::empty())
    } else {
        let prev = deepened_by(white, p, (d - 1) as u32);
        root_iter_by(white, p, moves, 0, d, -(MATE_SCORE as int), -(MATE_SCORE as int), moves[0], prev.1)
    }
}

/// Iterative deepening at the root, with `leaf` scoring the leaves: searches
/// every move (captures first) at depths 1, 2, ..., `depth`, and returns the
/// move of `deepened_by` for the deepest iteration that finished before the
/// deadline, the first ordered move if none did.
pub fn best_move_by_deepening<F: Fn(&Position) -> i32>(
    pos: &Position,
    depth: u32,
    deadline: &Deadline,
    leaf: &F,
) -> (r: ChessMove)
    requires
        legal_moves_of(pos@).len() > 0,
        leaf_ok(*leaf),
    ensures
        legal_moves_of(pos@).contains(r),
        exists|d: u32| d <= depth && r == #[trigger] deepened_by(leaf_view(*leaf), pos@, d).0,
        deadline.at is None ==> r == deepened_by(leaf_view(*leaf), pos@, depth).0,
        depth == 0 ==> r == captures_first(legal_moves_of(pos@))[0],
{
    let ghost p = pos@;
    let ghost white = leaf_view(*leaf);
    let mut tt: Table = HashMap::new();
    let legal = pos.legal_moves();
    let moves = order_moves(&legal);
    proof { lemma_captures_first_members(legal_moves_of(p)); }
    let mut best_move = moves[0];
    let mut d: u32 = 0;
    let ghost mut done: u32 = 0;
    assert(tt@ =~= deepened_by(white, p, 0).1);
    while d < depth
        invariant_except_break
            done == d,
        invariant
            d <= depth,
            done <= d,
            p == pos@,
            white == leaf_view(*leaf),
            leaf_ok(*leaf),
            moves@ == captures_first(legal_moves_of(p)),
            moves@.len() == legal_moves_of(p).len(),
            moves@.len() > 0,
            forall|j: int| 0 <= j < moves@.len() ==> legal_moves_of(p).contains(#[trigger] moves@[j]),
            forall|j: int| 0 <= j < legal_moves_of(p).len() ==> (#[trigger] legal_moves_of(p)[j]).well_formed(),
            legal_moves_of(p).contains(best_move),
            best_move == deepened_by(white, p, done).0,
            done == d ==> tt@ == deepened_by(white, p, d).1,
            table_ok(tt@),
        ensures
            done <= depth,
            deadline.at is None ==> done == depth,
            legal_moves_of(p).contains(best_move),
            best_move == deepened_by(white, p, done).0,
        decreases depth - d,
    {
        d = d + 1;
        let ghost start = tt@;
        let mut iter_best_score: i32 = -MATE_SCORE;
        let mut iter_best_move = moves[0];
        let mut alpha: i32 = -MATE_SCORE;
        let mut completed = true;
        let mut i: usize = 0;
        while i < moves.len()
            invariant_except_break
                completed,
                root_iter_by(white, p, moves@, i as int, d, alpha as int, iter_best_score as int, iter_best_move, tt@)
                    == root_iter_by(white, p, moves@, 0, d, -(MATE_SCORE as int), -(MATE_SCORE as int), moves@[0], start),
            invariant
                i <= moves@.len(),
                1 <= d <= depth,
                p == pos@,
                white == leaf_view(*leaf),
                leaf_ok(*leaf),
                moves@ == captures_first(legal_moves_of(p)),
                moves@.len() > 0,
                forall|j: int| 0 <= j < moves@.len() ==> legal_moves_of(p).contains(#[trigger] moves@[j]),
                forall|j: int| 0 <= j < legal_moves_of(p).len() ==> (#[trigger] legal_moves_of(p)[j]).well_formed(),
                legal_moves_of(p).contains(iter_best_move),
                alpha > i32::MIN,
                iter_best_score > i32::MIN,
                table_ok(tt@),
            ensures
                completed ==> (iter_best_move, tt@)
                    == root_iter_by(white, p, moves@, 0, d, -(MATE_SCORE as int), -(MATE_SCORE as int), moves@[0], start),
                deadline.at is None ==> completed,
                legal_moves_of(p).contains(iter_best_move),
                table_ok(tt@),
            decreases moves@.len() - i,
        {
            if deadline.expired() {
                completed = false;
                break;
            }
            let mv = moves[i];
            assert(legal_moves_of(p).contains(mv));
            let next = match pos.play(&mv) {
                Some(q) => q,
                None => {
                    completed = false;
                    break;
                },
            };
            let found = search(&next, d - 1, -MATE_SCORE, -alpha, deadline, &mut tt, leaf);
            let score = match found {
                Some(s) => -s,
                None => {
                    completed = false;
                    break;
                },
            };
            if score > iter_best_score {
                iter_best_score = score;
                iter_best_move = mv;
            }
            if score > alpha {
                alpha = score;
            }
            i = i + 1;
        }
        if completed {
            best_move = iter_best_move;
            proof { done = d; }
        } else {
            break;
        }
    }
    best_move
}

} // verus!
