//! What alpha-beta search computes, compared with plain negamax: the
//! value of a position is the best, over its legal moves, of the negated
//! value of the position each leads to, with no pruning and no table.

use vstd::prelude::*;
use crate::chess::position::{PositionView, after_move, legal_moves_of, zobrist_key};
use crate::chess::types::ChessMove;
use crate::eval::classical::MATE_SCORE;
use super::search::{ab_children_by, ab_value, ab_value_by, classical_white, captures_first, for_side, lemma_captures_first_members, lemma_captures_first_permutes};

verus! {

/// The score of a position at a leaf, for the side to move, with `white`
/// scoring positions from White's point of view.
pub open spec fn leaf_for(white: spec_fn(PositionView) -> int, q: PositionView) -> int {
    for_side(q.turn, white(q))
}

/// Plain negamax to a given depth: a leaf at depth zero or without legal
/// moves; otherwise the best reply over the legal moves.
pub open spec fn negamax_value(white: spec_fn(PositionView) -> int, p: PositionView, depth: nat) -> int
    decreases depth, 0int,
{
    if depth == 0 || legal_moves_of(p).len() == 0 {
        leaf_for(white, p)
    } else {
        best_reply(white, p, legal_moves_of(p), (depth - 1) as nat)
    }
}

/// The best score over some moves of the negated plain negamax value of the
/// positions they lead to, searched `depth` deep; minus mate when there are
/// none or all are worse.
pub open spec fn best_reply(white: spec_fn(PositionView) -> int, p: PositionView, moves: Seq<ChessMove>, depth: nat) -> int
    decreases depth, moves.len() + 1,
{
    if moves.len() == 0 {
        -(MATE_SCORE as int)
    } else {
        let b = best_reply(white, p, moves.drop_last(), depth);
        let s = -negamax_value(white, after_move(p, moves.last()), depth);
        if s > b { s } else { b }
    }
}

/// The score of a move for the side that plays it: the negated plain
/// negamax value of the position it leads to.
pub open spec fn reply_score(white: spec_fn(PositionView) -> int, p: PositionView, m: ChessMove, depth: nat) -> int {
    -negamax_value(white, after_move(p, m), depth)
}

/// The best reply is the largest reply score, or minus mate when none is larger.
proof fn lemma_best_reply(white: spec_fn(PositionView) -> int, p: PositionView, moves: Seq<ChessMove>, depth: nat)
    ensures
        best_reply(white, p, moves, depth) >= -(MATE_SCORE as int),
        forall|m: ChessMove| moves.contains(m) ==> #[trigger] reply_score(white, p, m, depth) <= best_reply(white, p, moves, depth),
        best_reply(white, p, moves, depth) == -(MATE_SCORE as int)
            || exists|m: ChessMove| moves.contains(m) && best_reply(white, p, moves, depth) == #[trigger] reply_score(white, p, m, depth),
    decreases moves.len(),
{
    if moves.len() > 0 {
        let t = moves.drop_last();
        lemma_best_reply(white, p, t, depth);
        assert forall|m: ChessMove| moves.contains(m) implies #[trigger] reply_score(white, p, m, depth) <= best_reply(white, p, moves, depth) by {
            let j = choose|j: int| 0 <= j < moves.len() && moves[j] == m;
            if j < moves.len() - 1 {
                assert(t[j] == m);
                assert(t.contains(m));
            }
        }
        let r = best_reply(white, p, moves, depth);
        if r != -(MATE_SCORE as int) {
            if r == reply_score(white, p, moves.last(), depth) {
                assert(moves[moves.len() - 1] == moves.last());
                assert(moves.contains(moves.last()));
            } else {
                let m = choose|m: ChessMove| t.contains(m) && best_reply(white, p, t, depth) == #[trigger] reply_score(white, p, m, depth);
                let j = choose|j: int| 0 <= j < t.len() && t[j] == m;
                assert(moves[j] == m);
                assert(moves.contains(m));
            }
        }
    }
}

/// An entry of the table for a child is settled for a window bound: it is
/// the child's value, or it lies between the negated bound and that value.
pub open spec fn settled(v: int, u: int, alpha: int) -> bool {
    v == u || (-alpha <= v && v <= u)
}

/// Every table entry belongs to a child of `p` searched one ply deep and is
/// settled for the bound `alpha`.
pub open spec fn children_table(white: spec_fn(PositionView) -> int, p: PositionView, tt: Map<u64, (i32, u32)>, alpha: int) -> bool {
    forall|k: u64| #[trigger] tt.contains_key(k) ==> {
        &&& tt[k].1 == 1
        &&& -(MATE_SCORE as int) <= tt[k].0 <= MATE_SCORE as int
        &&& exists|m: ChessMove| legal_moves_of(p).contains(m) && zobrist_key(after_move(p, m)) == k
            && settled(tt[k].0 as int, #[trigger] negamax_value(white, after_move(p, m), 1), alpha)
    }
}

/// Alpha-beta one ply deep: with the window from `best` to `b` and no table
/// entry for the positions one move away, the result is the best of the
/// scores when none reaches `b`, and otherwise a score of at least `b`; it
/// is always `best` or one of the scores, and the table is untouched.
proof fn lemma_ab_one_ply(
    white: spec_fn(PositionView) -> int,
    c: PositionView,
    ms: Seq<ChessMove>,
    i: int,
    best: int,
    b: int,
    tt: Map<u64, (i32, u32)>,
)
    requires
        0 <= i <= ms.len(),
        -(MATE_SCORE as int) <= best <= MATE_SCORE as int,
        forall|j: int| 0 <= j < ms.len() ==> !tt.contains_key(#[trigger] zobrist_key(after_move(c, ms[j]))),
        forall|j: int| 0 <= j < ms.len() ==>
            -(MATE_SCORE as int) <= #[trigger] reply_score(white, c, ms[j], 0) <= MATE_SCORE as int,
    ensures
        ({
            let r = ab_children_by(white, c, ms, i, 1, best, b, best, tt);
            &&& r.1 == tt
            &&& best <= r.0 <= MATE_SCORE as int
            &&& (r.0 == best || exists|j: int| i <= j < ms.len() && r.0 == #[trigger] reply_score(white, c, ms[j], 0))
            &&& ((forall|j: int| i <= j < ms.len() ==> #[trigger] reply_score(white, c, ms[j], 0) <= r.0) || b <= r.0)
        }),
    decreases ms.len() - i,
{
    if i < ms.len() {
        let g = after_move(c, ms[i]);
        assert(!tt.contains_key(zobrist_key(g)));
        assert(reply_score(white, c, ms[i], 0) == -leaf_for(white, g));
        assert(ab_value_by(white, g, 0, -b, -best, tt) == (for_side(g.turn, white(g)), tt));
        let score = reply_score(white, c, ms[i], 0);
        let best2 = if score > best { score } else { best };
        if best2 < b {
            lemma_ab_one_ply(white, c, ms, i + 1, best2, b, tt);
            let r = ab_children_by(white, c, ms, i + 1, 1, best2, b, best2, tt);
            assert(ab_children_by(white, c, ms, i, 1, best, b, best, tt) == r);
            if r.0 == best2 && best2 == score {
                assert(r.0 == reply_score(white, c, ms[i], 0));
            }
        }
    }
}

/// The keys of the positions one and two moves away from `p` tell apart
/// what they must: children with the same key are the same position, and
/// no grandchild has the key of a child.
pub open spec fn keys_separate(p: PositionView) -> bool {
    &&& forall|m1: ChessMove, m2: ChessMove|
        legal_moves_of(p).contains(m1) && legal_moves_of(p).contains(m2)
            && #[trigger] zobrist_key(after_move(p, m1)) == #[trigger] zobrist_key(after_move(p, m2))
            ==> after_move(p, m1) == after_move(p, m2)
    &&& forall|m1: ChessMove, m2: ChessMove, m3: ChessMove|
        legal_moves_of(p).contains(m1) && legal_moves_of(p).contains(m2) && legal_moves_of(after_move(p, m2)).contains(m3)
            ==> #[trigger] zobrist_key(after_move(after_move(p, m2), m3)) != #[trigger] zobrist_key(after_move(p, m1))
}

/// The leaf scores one and two moves away from `p` lie within the mate scores.
pub open spec fn leaves_bounded(white: spec_fn(PositionView) -> int, p: PositionView) -> bool {
    &&& forall|m: ChessMove| legal_moves_of(p).contains(m) ==>
        -(MATE_SCORE as int) <= #[trigger] leaf_for(white, after_move(p, m)) <= MATE_SCORE as int
    &&& forall|m: ChessMove, m3: ChessMove| legal_moves_of(p).contains(m) && legal_moves_of(after_move(p, m)).contains(m3) ==>
        -(MATE_SCORE as int) <= #[trigger] leaf_for(white, after_move(after_move(p, m), m3)) <= MATE_SCORE as int
}

/// The value of a child one ply deep lies within the mate scores.
proof fn lemma_child_value_bounded(white: spec_fn(PositionView) -> int, p: PositionView, m: ChessMove)
    requires
        leaves_bounded(white, p),
        legal_moves_of(p).contains(m),
    ensures
        -(MATE_SCORE as int) <= negamax_value(white, after_move(p, m), 1) <= MATE_SCORE as int,
{
    let c = after_move(p, m);
    assert(-(MATE_SCORE as int) <= leaf_for(white, c) <= MATE_SCORE as int);
    if legal_moves_of(c).len() > 0 {
        let lc = legal_moves_of(c);
        lemma_best_reply(white, c, lc, 0);
        let u = best_reply(white, c, lc, 0);
        if u != -(MATE_SCORE as int) {
            let m3 = choose|m3: ChessMove| lc.contains(m3) && u == #[trigger] reply_score(white, c, m3, 0);
            assert(-(MATE_SCORE as int) <= leaf_for(white, after_move(c, m3)) <= MATE_SCORE as int);
        }
    }
}

/// One root move searched one ply deep: the value the search gives the
/// child is settled for the current bound, and the table keeps its shape.
proof fn lemma_ab_child(
    white: spec_fn(PositionView) -> int,
    p: PositionView,
    m: ChessMove,
    best: int,
    tt: Map<u64, (i32, u32)>,
)
    requires
        legal_moves_of(p).contains(m),
        -(MATE_SCORE as int) <= best < MATE_SCORE as int,
        children_table(white, p, tt, best),
        keys_separate(p),
        leaves_bounded(white, p),
    ensures
        ({
            let cv = ab_value_by(white, after_move(p, m), 1, -(MATE_SCORE as int), -best, tt);
            &&& -(MATE_SCORE as int) <= cv.0 <= MATE_SCORE as int
            &&& settled(cv.0, negamax_value(white, after_move(p, m), 1), best)
            &&& children_table(white, p, cv.1, best)
        }),
{
    let c = after_move(p, m);
    let k = zobrist_key(c);
    let u = negamax_value(white, c, 1);
    let cv = ab_value_by(white, c, 1, -(MATE_SCORE as int), -best, tt);
    lemma_child_value_bounded(white, p, m);
    if tt.contains_key(k) && tt[k].1 >= 1 {
        let m2 = choose|m2: ChessMove| legal_moves_of(p).contains(m2) && zobrist_key(after_move(p, m2)) == k
            && settled(tt[k].0 as int, #[trigger] negamax_value(white, after_move(p, m2), 1), best);
        assert(zobrist_key(after_move(p, m2)) == zobrist_key(after_move(p, m)));
        assert(after_move(p, m2) == c);
    } else if legal_moves_of(c).len() == 0 {
        assert(cv == (for_side(c.turn, white(c)), tt));
    } else {
        let lc = legal_moves_of(c);
        let ms = captures_first(lc);
        lemma_captures_first_members(lc);
        lemma_captures_first_permutes(lc);
        assert forall|j: int| 0 <= j < ms.len() implies !tt.contains_key(#[trigger] zobrist_key(after_move(c, ms[j]))) by {
            assert(lc.contains(ms[j]));
            if tt.contains_key(zobrist_key(after_move(c, ms[j]))) {
                let kk = zobrist_key(after_move(c, ms[j]));
                let m1 = choose|m1: ChessMove| legal_moves_of(p).contains(m1) && zobrist_key(after_move(p, m1)) == kk
                    && settled(tt[kk].0 as int, #[trigger] negamax_value(white, after_move(p, m1), 1), best);
                assert(zobrist_key(after_move(after_move(p, m), ms[j])) != zobrist_key(after_move(p, m1)));
            }
        }
        assert forall|j: int| 0 <= j < ms.len() implies
            -(MATE_SCORE as int) <= #[trigger] reply_score(white, c, ms[j], 0) <= MATE_SCORE as int by {
            assert(lc.contains(ms[j]));
            assert(-(MATE_SCORE as int) <= leaf_for(white, after_move(after_move(p, m), ms[j])) <= MATE_SCORE as int);
        }
        lemma_ab_one_ply(white, c, ms, 0, -(MATE_SCORE as int), -best, tt);
        let r = ab_children_by(white, c, ms, 0, 1, -(MATE_SCORE as int), -best, -(MATE_SCORE as int), tt);
        assert(cv == (r.0, r.1.insert(k, (r.0 as i32, 1u32))));
        lemma_best_reply(white, c, lc, 0);
        assert(u == best_reply(white, c, lc, 0));
        // The result is minus mate or a reply score, so at most the best reply.
        if r.0 != -(MATE_SCORE as int) {
            let j = choose|j: int| 0 <= j < ms.len() && r.0 == #[trigger] reply_score(white, c, ms[j], 0);
            assert(lc.contains(ms[j]));
            assert(reply_score(white, c, ms[j], 0) <= u);
        }
        if forall|j: int| 0 <= j < ms.len() ==> #[trigger] reply_score(white, c, ms[j], 0) <= r.0 {
            if u != -(MATE_SCORE as int) {
                let m3 = choose|m3: ChessMove| lc.contains(m3) && u == #[trigger] reply_score(white, c, m3, 0);
                assert(lc.to_multiset().count(m3) > 0) by {
                    broadcast use vstd::seq_lib::group_to_multiset_ensures;
                }
                assert(ms.to_multiset().count(m3) > 0) by {
                    broadcast use vstd::seq_lib::group_to_multiset_ensures;
                }
                assert(ms.contains(m3)) by {
                    broadcast use vstd::seq_lib::group_to_multiset_ensures;
                }
                let j = choose|j: int| 0 <= j < ms.len() && ms[j] == m3;
                assert(reply_score(white, c, ms[j], 0) <= r.0);
            }
        }
        let nt = r.1.insert(k, (r.0 as i32, 1u32));
        assert forall|kk: u64| #[trigger] nt.contains_key(kk) implies {
            &&& nt[kk].1 == 1
            &&& -(MATE_SCORE as int) <= nt[kk].0 <= MATE_SCORE as int
            &&& exists|m1: ChessMove| legal_moves_of(p).contains(m1) && zobrist_key(after_move(p, m1)) == kk
                && settled(nt[kk].0 as int, #[trigger] negamax_value(white, after_move(p, m1), 1), best)
        } by {
            if kk == k {
                assert(legal_moves_of(p).contains(m) && zobrist_key(after_move(p, m)) == kk
                    && settled(nt[kk].0 as int, negamax_value(white, after_move(p, m), 1), best));
            } else {
                assert(tt.contains_key(kk));
            }
        }
    }
}

/// Alpha-beta at the root, two plies deep: the result is the best of the
/// children's negated plain values (or the starting best score).
proof fn lemma_ab_two_ply(
    white: spec_fn(PositionView) -> int,
    p: PositionView,
    ms: Seq<ChessMove>,
    i: int,
    best: int,
    tt: Map<u64, (i32, u32)>,
)
    requires
        0 <= i <= ms.len(),
        forall|j: int| 0 <= j < ms.len() ==> legal_moves_of(p).contains(#[trigger] ms[j]),
        -(MATE_SCORE as int) <= best < MATE_SCORE as int,
        children_table(white, p, tt, best),
        keys_separate(p),
        leaves_bounded(white, p),
    ensures
        ({
            let r = ab_children_by(white, p, ms, i, 2, best, MATE_SCORE as int, best, tt);
            &&& best <= r.0
            &&& forall|j: int| i <= j < ms.len() ==> #[trigger] reply_score(white, p, ms[j], 1) <= r.0
            &&& (r.0 == best || exists|j: int| i <= j < ms.len() && r.0 == #[trigger] reply_score(white, p, ms[j], 1))
        }),
    decreases ms.len() - i,
{
    if i < ms.len() {
        let m = ms[i];
        assert(legal_moves_of(p).contains(m));
        let c = after_move(p, m);
        let u = negamax_value(white, c, 1);
        lemma_child_value_bounded(white, p, m);
        let r = ab_children_by(white, p, ms, i, 2, best, MATE_SCORE as int, best, tt);
        {
            lemma_ab_child(white, p, m, best, tt);
            let cv = ab_value_by(white, c, 1, -(MATE_SCORE as int), -best, tt);
            let score = -cv.0;
            let best2 = if score > best { score } else { best };
            assert(best2 == if -u > best { -u } else { best });
            assert(reply_score(white, p, m, 1) == -u);
            if best2 >= MATE_SCORE as int {
                assert(r == (best2, cv.1));
                assert(r.0 == reply_score(white, p, ms[i], 1));
                assert forall|j: int| i <= j < ms.len() implies #[trigger] reply_score(white, p, ms[j], 1) <= r.0 by {
                    assert(legal_moves_of(p).contains(ms[j]));
                    lemma_child_value_bounded(white, p, ms[j]);
                }
            } else {
                assert forall|kk: u64| #[trigger] cv.1.contains_key(kk) implies {
                    &&& cv.1[kk].1 == 1
                    &&& -(MATE_SCORE as int) <= cv.1[kk].0 <= MATE_SCORE as int
                    &&& exists|m1: ChessMove| legal_moves_of(p).contains(m1) && zobrist_key(after_move(p, m1)) == kk
                        && settled(cv.1[kk].0 as int, #[trigger] negamax_value(white, after_move(p, m1), 1), best2)
                } by {
                    let m1 = choose|m1: ChessMove| legal_moves_of(p).contains(m1) && zobrist_key(after_move(p, m1)) == kk
                        && settled(cv.1[kk].0 as int, #[trigger] negamax_value(white, after_move(p, m1), 1), best);
                    assert(settled(cv.1[kk].0 as int, negamax_value(white, after_move(p, m1), 1), best2));
                }
                lemma_ab_two_ply(white, p, ms, i + 1, best2, cv.1);
                let r2 = ab_children_by(white, p, ms, i + 1, 2, best2, MATE_SCORE as int, best2, cv.1);
                assert(r == r2);
                if r2.0 == best2 && best2 == -u {
                    assert(r.0 == reply_score(white, p, ms[i], 1));
                }
            }
        }
    }
}

/// Alpha-beta search two plies deep, from an empty table and with the full
/// window from minus mate to mate, gives the plain negamax value: the best
/// over the legal moves of the negated best reply of the opponent, that is
/// the best over the moves of the worst leaf score over the replies. The
/// pruning never changes the value. This holds where the transposition
/// table cannot confuse two positions of the search (`keys_separate`) and
/// every leaf score lies within the mate scores (`leaves_bounded`).
pub proof fn lemma_depth_two_is_plain_negamax(white: spec_fn(PositionView) -> int, p: PositionView)
    requires
        keys_separate(p),
        leaves_bounded(white, p),
    ensures
        ab_value_by(white, p, 2, -(MATE_SCORE as int), MATE_SCORE as int, Map::empty()).0 == negamax_value(white, p, 2),
{
    let e = Map::<u64, (i32, u32)>::empty();
    assert(!e.contains_key(zobrist_key(p)));
    let legal = legal_moves_of(p);
    if legal.len() > 0 {
        let ms = captures_first(legal);
        lemma_captures_first_members(legal);
        lemma_captures_first_permutes(legal);
        assert forall|j: int| 0 <= j < ms.len() implies legal_moves_of(p).contains(#[trigger] ms[j]) by {}
        lemma_ab_two_ply(white, p, ms, 0, -(MATE_SCORE as int), e);
        let r = ab_children_by(white, p, ms, 0, 2, -(MATE_SCORE as int), MATE_SCORE as int, -(MATE_SCORE as int), e);
        let v = negamax_value(white, p, 2);
        lemma_best_reply(white, p, legal, 1);
        assert(v == best_reply(white, p, legal, 1));
        assert(r.0 <= v) by {
            if r.0 != -(MATE_SCORE as int) {
                let j = choose|j: int| 0 <= j < ms.len() && r.0 == #[trigger] reply_score(white, p, ms[j], 1);
                assert(legal.contains(ms[j]));
            }
        }
        assert(v <= r.0) by {
            if v != -(MATE_SCORE as int) {
                let m = choose|m: ChessMove| legal.contains(m) && v == #[trigger] reply_score(white, p, m, 1);
                assert(ms.contains(m)) by {
                    broadcast use vstd::seq_lib::group_to_multiset_ensures;
                    assert(legal.to_multiset().count(m) > 0);
                }
                let j = choose|j: int| 0 <= j < ms.len() && ms[j] == m;
                assert(reply_score(white, p, ms[j], 1) <= r.0);
            }
        }
    }
}

/// The classical search two plies deep is plain negamax with the classical
/// evaluation, under the same conditions.
pub proof fn lemma_classical_depth_two(p: PositionView)
    requires
        keys_separate(p),
        leaves_bounded(classical_white(), p),
    ensures
        ab_value(p, 2, -(MATE_SCORE as int), MATE_SCORE as int, Map::empty()).0 == negamax_value(classical_white(), p, 2),
{
    lemma_depth_two_is_plain_negamax(classical_white(), p);
}

} // verus!
