//! Move ordering: the transposition-table hash move first, then captures
//! by MVV-LVA (most valuable victim minus least valuable attacker), then
//! everything else.
//!
//! Moves travel as pairs `(Mv, T)`: the structural model the scorer reads,
//! and an opaque payload (the rules library's own move value) that rides
//! along so the chosen move can be played later.

use vstd::prelude::*;

use crate::mv::{null_move, null_mv, spec_piece_value, piece_value, Mv};
use crate::tt::TranspositionTable;

verus! {

broadcast use vstd::seq_lib::group_to_multiset_ensures, vstd::seq_lib::to_multiset_update;

/// Ordering score given to the hash move; strictly above every capture
/// score and the quiet-move score 0.
pub const HASH_MOVE_SCORE: i16 = 25_000;

/// Base score that lifts every capture above every quiet move.
pub const CAPTURE_SCORE: i16 = 10_000;

/// Priority of a move: the hash move on top, then captures as a class
/// ranked among themselves by MVV-LVA (victim value minus attacker
/// value), then the quiet moves.
pub open spec fn spec_move_score(m: Mv, hash_move: Mv) -> int {
    if m == hash_move {
        HASH_MOVE_SCORE as int
    } else if m.spec_is_capture() {
        CAPTURE_SCORE + spec_piece_value(m.capture) - spec_piece_value(m.role)
    } else {
        0
    }
}

/// The move the table suggests for this position, or the sentinel on a miss.
pub open spec fn spec_hash_move(tt: &TranspositionTable, zobrist: u64) -> Mv {
    match tt.spec_get(zobrist) {
        Some(e) => e.best_move,
        None => null_mv(),
    }
}

fn move_score(m: &Mv, hash_move: &Mv) -> (r: i16)
    ensures
        r as int == spec_move_score(*m, *hash_move),
{
    if *m == *hash_move {
        HASH_MOVE_SCORE
    } else if m.is_capture() {
        let victim = piece_value(m.capture);
        let attacker = piece_value(m.role);
        assert(-2000 <= victim - attacker <= 2000) by {
            assert(0 <= spec_piece_value(m.capture) <= 2000);
            assert(0 <= spec_piece_value(m.role) <= 2000);
        };
        CAPTURE_SCORE + victim - attacker
    } else {
        0
    }
}

/// Scores descending over a whole sequence of scored pairs.
pub open spec fn spec_sorted_desc<T>(s: Seq<(Mv, T)>, hash_move: Mv) -> bool {
    forall|i: int, j: int|
        0 <= i < j < s.len() ==> spec_move_score(#[trigger] s[i].0, hash_move) >= spec_move_score(
            #[trigger] s[j].0,
            hash_move,
        )
}

/// In-place insertion sort of the move list by descending move score.
fn sort_moves<T: Copy>(moves: &mut Vec<(Mv, T)>, hash_move: &Mv)
    ensures
        final(moves)@.len() == old(moves)@.len(),
        final(moves)@.to_multiset() == old(moves)@.to_multiset(),
        spec_sorted_desc(final(moves)@, *hash_move),
{
    let n = moves.len();
    let mut i: usize = 1;
    while i < n
        invariant
            n == moves@.len(),
            1 <= i,
            i <= n || n <= 1,
            moves@.to_multiset() == old(moves)@.to_multiset(),
            forall|k1: int, k2: int|
                0 <= k1 < k2 < i ==> spec_move_score(#[trigger] moves@[k1].0, *hash_move)
                    >= spec_move_score(#[trigger] moves@[k2].0, *hash_move),
        decreases n - i,
    {
        let mut j: usize = i;
        while j > 0
            invariant
                n == moves@.len(),
                i < n,
                0 <= j <= i,
                moves@.to_multiset() == old(moves)@.to_multiset(),
                forall|k1: int, k2: int|
                    0 <= k1 < k2 <= i && k1 != j && k2 != j ==> spec_move_score(
                        #[trigger] moves@[k1].0,
                        *hash_move,
                    ) >= spec_move_score(#[trigger] moves@[k2].0, *hash_move),
                forall|k: int|
                    j < k <= i ==> spec_move_score(moves@[j as int].0, *hash_move)
                        > spec_move_score(#[trigger] moves@[k].0, *hash_move),
            ensures
                n == moves@.len(),
                moves@.to_multiset() == old(moves)@.to_multiset(),
                forall|k1: int, k2: int|
                    0 <= k1 < k2 <= i ==> spec_move_score(#[trigger] moves@[k1].0, *hash_move)
                        >= spec_move_score(#[trigger] moves@[k2].0, *hash_move),
            decreases j,
        {
            let s_here = move_score(&moves[j].0, hash_move);
            let s_left = move_score(&moves[j - 1].0, hash_move);
            if s_here <= s_left {
                break;
            }
            let a = moves[j - 1];
            let b = moves[j];
            let ghost pre = moves@;
            moves[j - 1] = b;
            moves[j] = a;
            proof {
                assert(moves@ == pre.update(j - 1, pre[j as int]).update(j as int, pre[j - 1]));
                assert(moves@.to_multiset() =~= pre.to_multiset());
            }
            j -= 1;
        }
        i += 1;
    }
}

/// Produce the legal move list ordered by descending priority: the hash
/// move stored for this Zobrist key first, then captures by MVV-LVA,
/// then the remaining moves.  The result is a permutation of the input;
/// if the table's stored best move occurs in the input, it comes out at
/// index 0.
pub fn order_moves<T: Copy>(
    position_moves: Vec<(Mv, T)>,
    tt: &TranspositionTable,
    zobrist: u64,
) -> (r: Vec<(Mv, T)>)
    requires
        tt.wf(),
    ensures
        r@.len() == position_moves@.len(),
        r@.to_multiset() == position_moves@.to_multiset(),
        spec_sorted_desc(r@, spec_hash_move(tt, zobrist)),
        (exists|i: int|
            0 <= i < position_moves@.len() && (#[trigger] position_moves@[i]).0 == spec_hash_move(
                tt,
                zobrist,
            )) ==> r@.len() > 0 && r@[0].0 == spec_hash_move(tt, zobrist),
{
    let hash_move = match tt.get(&zobrist) {
        Some(transposition) => transposition.best_move,
        None => null_move(),
    };
    let mut moves = position_moves;
    sort_moves(&mut moves, &hash_move);
    proof {
        let ghost hm = spec_hash_move(tt, zobrist);
        if exists|i: int|
            0 <= i < position_moves@.len() && (#[trigger] position_moves@[i]).0 == hm {
            let i = choose|i: int|
                0 <= i < position_moves@.len() && (#[trigger] position_moves@[i]).0 == hm;
            let p = position_moves@[i];
            assert(position_moves@.to_multiset().contains(p));
            assert(moves@.to_multiset().contains(p));
            assert(moves@.contains(p));
            let k = choose|k: int| 0 <= k < moves@.len() && moves@[k] == p;
            assert(spec_move_score(moves@[k].0, hm) == HASH_MOVE_SCORE as int);
            if k > 0 {
                assert(spec_move_score(moves@[0].0, hm) >= HASH_MOVE_SCORE as int);
            }
            assert(spec_move_score(moves@[0].0, hm) >= HASH_MOVE_SCORE as int);
            assert(moves@[0].0 == hm) by {
                let m0 = moves@[0].0;
                if m0 != hm {
                    assert(spec_piece_value(m0.capture) <= 2000);
                    assert(spec_piece_value(m0.role) >= 0);
                    assert(spec_move_score(m0, hm) <= CAPTURE_SCORE + 2000);
                }
            };
        }
    }
    moves
}

} // verus!
