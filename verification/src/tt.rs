//! Transposition table: a fixed-size, always-replace hash table keyed by
//! the 64-bit Zobrist hash of a position.
//!
//! A slot is chosen as `key mod slot_count`.  An empty slot is encoded by
//! `key == 0` together with the sentinel move; a probe for key 0 is always
//! a miss (the astronomically unlikely real position hashing to 0 is
//! deliberately treated as absent).

use vstd::prelude::*;

use crate::evaluation::{NEG_INF, POS_INF};
use crate::mv::{null_mv, null_move, Mv};

verus! {

/// How the stored evaluation bounds the true minimax value:
/// `Exact` is a true value to the stored depth, `Alpha` an upper bound
/// (fail-low), `Beta` a lower bound (fail-high).
#[derive(Clone, Copy, PartialEq, Eq, Structural, Debug)]
pub enum EvaluationType {
    Exact,
    Alpha,
    Beta,
}

#[derive(Clone, Copy, PartialEq, Eq, Structural, Debug)]
pub struct Transposition {
    pub key: u64,
    pub best_move: Mv,
    pub evaluation: i16,
    pub depth_left: u8,
    pub evaluation_type: EvaluationType,
}

/// The contents of an empty slot.
pub open spec fn empty_entry() -> Transposition {
    Transposition {
        key: 0,
        best_move: null_mv(),
        evaluation: 0,
        depth_left: 0,
        evaluation_type: EvaluationType::Exact,
    }
}

impl Transposition {
    pub fn new() -> (r: Transposition)
        ensures
            r == empty_entry(),
    {
        Transposition {
            key: 0,
            best_move: null_move(),
            evaluation: 0,
            depth_left: 0,
            evaluation_type: EvaluationType::Exact,
        }
    }
}

/// Nominal footprint of one table entry in bytes, used to turn a size in
/// megabytes into a slot count.
pub const ENTRY_BYTES: u64 = 24;

/// Largest accepted table size in megabytes (the UCI `Hash` spin range).
pub const MAX_HASH_MB: u32 = 33_554_432;

/// The slot an entry for `key` lives in.
pub open spec fn spec_slot(key: u64, n: nat) -> int
    recommends
        n > 0,
{
    key as int % n as int
}

pub struct TranspositionTable {
    transpositions: Vec<Transposition>,
    count: usize,
}

impl TranspositionTable {
    pub closed spec fn wf(&self) -> bool {
        &&& self.count == self.transpositions@.len()
        &&& self.count >= 1
        &&& forall|i: int|
            0 <= i < self.transpositions@.len() ==> NEG_INF <= (
            #[trigger] self.transpositions@[i]).evaluation <= POS_INF
    }

    pub closed spec fn slots(&self) -> Seq<Transposition> {
        self.transpositions@
    }

    pub closed spec fn slot_count(&self) -> nat {
        self.count as nat
    }

    /// Allocate `floor(mb * 2^20 / ENTRY_BYTES)` zeroed slots (capped at
    /// the address-space limit on narrow machines).
    pub fn new(desired_size_in_mb: u32) -> (r: TranspositionTable)
        requires
            1 <= desired_size_in_mb <= MAX_HASH_MB,
        ensures
            r.wf(),
            desired_size_in_mb as nat * 0x100000 / ENTRY_BYTES as nat <= usize::MAX as nat
                ==> r.slot_count() == desired_size_in_mb as nat * 0x100000 / ENTRY_BYTES as nat,
            forall|i: int| 0 <= i < r.slots().len() ==> r.slots()[i] == empty_entry(),
    {
        let bytes: u64 = desired_size_in_mb as u64 * 0x100000;
        let num_entries: u64 = bytes / ENTRY_BYTES;
        assert(num_entries >= 1) by {
            assert(bytes >= 0x100000);
        };
        let n: usize = if num_entries <= usize::MAX as u64 {
            num_entries as usize
        } else {
            usize::MAX
        };
        let transpositions: Vec<Transposition> = vec![Transposition::new(); n];
        TranspositionTable { transpositions, count: n }
    }

    /// Reset every slot to empty.
    pub fn clear(&mut self)
        requires
            old(self).wf(),
        ensures
            final(self).wf(),
            final(self).slot_count() == old(self).slot_count(),
            forall|i: int|
                0 <= i < final(self).slots().len() ==> final(self).slots()[i] == empty_entry(),
    {
        let n = self.transpositions.len();
        let mut i: usize = 0;
        while i < n
            invariant
                self.wf(),
                self.count == old(self).count,
                n == self.transpositions@.len(),
                i <= n,
                forall|j: int| 0 <= j < i ==> self.transpositions@[j] == empty_entry(),
            decreases n - i,
        {
            self.transpositions[i] = Transposition::new();
            i += 1;
        }
    }

    /// Write an entry at `key mod slot_count`, unconditionally replacing
    /// the previous occupant.
    pub fn insert(
        &mut self,
        key: u64,
        best_move: Mv,
        evaluation: i16,
        depth_left: u8,
        evaluation_type: EvaluationType,
    )
        requires
            old(self).wf(),
            NEG_INF <= evaluation <= POS_INF,
        ensures
            final(self).wf(),
            final(self).slot_count() == old(self).slot_count(),
            final(self).slots() == old(self).slots().update(
                spec_slot(key, old(self).slot_count()),
                Transposition { key, best_move, evaluation, depth_left, evaluation_type },
            ),
    {
        let index: usize = (key % (self.count as u64)) as usize;
        self.transpositions[index] = Transposition {
            key,
            best_move,
            evaluation,
            depth_left,
            evaluation_type,
        };
    }

    /// What `get` returns: the occupant of the key's slot, if it records
    /// exactly this (nonzero) key.
    pub open spec fn spec_get(&self, key: u64) -> Option<Transposition> {
        let e = self.slots()[spec_slot(key, self.slot_count())];
        if key != 0 && e.key == key {
            Some(e)
        } else {
            None
        }
    }

    /// Return the occupant of the key's slot iff its stored key equals
    /// `key`; key 0 (the empty-slot encoding) is always a miss.
    pub fn get(&self, key: &u64) -> (r: Option<Transposition>)
        requires
            self.wf(),
        ensures
            r == self.spec_get(*key),
            r is Some ==> NEG_INF <= r.unwrap().evaluation <= POS_INF,
    {
        let index: usize = (*key % (self.count as u64)) as usize;
        let transposition = &self.transpositions[index];
        if *key != 0 && transposition.key == *key {
            Some(*transposition)
        } else {
            None
        }
    }

    /// What `probe_table` returns.  A hit needs a stored entry for `key`
    /// whose depth is at least the requested depth, and then:
    /// an `Exact` entry reports its own evaluation; an `Alpha` (upper
    /// bound) entry reports `alpha` when its bound cannot raise `alpha`;
    /// a `Beta` (lower bound) entry reports `beta` when its bound already
    /// reaches `beta`.  The stored move is returned on every hit.
    pub open spec fn spec_probe(
        &self,
        key: u64,
        depth_left: u8,
        alpha: i16,
        beta: i16,
    ) -> Option<(Mv, i16)> {
        match self.spec_get(key) {
            None => None,
            Some(e) => {
                if e.depth_left >= depth_left {
                    if e.evaluation_type == EvaluationType::Exact {
                        Some((e.best_move, e.evaluation))
                    } else if e.evaluation_type == EvaluationType::Alpha && e.evaluation <= alpha {
                        Some((e.best_move, alpha))
                    } else if e.evaluation_type == EvaluationType::Beta && e.evaluation >= beta {
                        Some((e.best_move, beta))
                    } else {
                        None
                    }
                } else {
                    None
                }
            },
        }
    }

    pub fn probe_table(&self, key: &u64, depth_left: u8, alpha: i16, beta: i16) -> (r: Option<
        (Mv, i16),
    >)
        requires
            self.wf(),
            NEG_INF <= alpha,
            alpha <= beta,
            beta <= POS_INF,
        ensures
            r == self.spec_probe(*key, depth_left, alpha, beta),
            r is Some ==> NEG_INF <= r.unwrap().1 <= POS_INF,
    {
        let looked_up = self.get(key);
        match looked_up {
            None => None,
            Some(transposition) => {
                let best_move = transposition.best_move;
                let evaluation = transposition.evaluation;
                if transposition.depth_left >= depth_left {
                    if transposition.evaluation_type == EvaluationType::Exact {
                        return Some((best_move, evaluation));
                    }
                    if transposition.evaluation_type == EvaluationType::Alpha && evaluation
                        <= alpha {
                        return Some((best_move, alpha));
                    }
                    if transposition.evaluation_type == EvaluationType::Beta && evaluation >= beta {
                        return Some((best_move, beta));
                    }
                }
                None
            },
        }
    }
}

/// Under well-formedness the table's slot vector has exactly
/// `slot_count` entries and every key's slot lies inside it, so callers
/// can reason about `spec_get` and `spec_probe` directly.
pub proof fn lemma_slot_in_range(tt: TranspositionTable, key: u64)
    requires
        tt.wf(),
    ensures
        tt.slots().len() == tt.slot_count(),
        tt.slot_count() >= 1,
        0 <= spec_slot(key, tt.slot_count()) < tt.slots().len(),
{
}

/// Soundness of probes against the table contents: a probe that returns
/// `(m, s)` found an entry stored under exactly the probed key, deep
/// enough for the request, and the reported score is the entry's own
/// evaluation for an `Exact` bound, is at most the stored upper bound
/// (and equals the probe's `alpha`) for an `Alpha` entry, and is at least
/// the stored lower bound (and equals the probe's `beta`) for a `Beta`
/// entry.
pub proof fn lemma_probe_sound(
    tt: TranspositionTable,
    key: u64,
    depth_left: u8,
    alpha: i16,
    beta: i16,
    m: Mv,
    s: i16,
)
    requires
        tt.wf(),
        tt.spec_probe(key, depth_left, alpha, beta) == Some((m, s)),
    ensures
        ({
            let e = tt.slots()[spec_slot(key, tt.slot_count())];
            &&& e.key == key
            &&& key != 0
            &&& e.best_move == m
            &&& e.depth_left >= depth_left
            &&& (e.evaluation_type == EvaluationType::Exact ==> s == e.evaluation)
            &&& (e.evaluation_type == EvaluationType::Alpha ==> s == alpha && s >= e.evaluation)
            &&& (e.evaluation_type == EvaluationType::Beta ==> s == beta && s <= e.evaluation)
        }),
{
}

/// After an insert, a probe for the same key on the same table answers
/// from exactly the entry just written: deep-enough probes hit according
/// to the written bound, and the written move is returned on every hit.
pub proof fn lemma_probe_after_insert(
    before: TranspositionTable,
    after: TranspositionTable,
    key: u64,
    best_move: Mv,
    evaluation: i16,
    depth_left: u8,
    evaluation_type: EvaluationType,
    probe_depth: u8,
    alpha: i16,
    beta: i16,
)
    requires
        before.wf(),
        after.wf(),
        after.slot_count() == before.slot_count(),
        key != 0,
        after.slots() == before.slots().update(
            spec_slot(key, before.slot_count()),
            Transposition { key, best_move, evaluation, depth_left, evaluation_type },
        ),
    ensures
        depth_left >= probe_depth && evaluation_type == EvaluationType::Exact
            ==> after.spec_probe(key, probe_depth, alpha, beta) == Some((best_move, evaluation)),
        depth_left >= probe_depth && evaluation_type == EvaluationType::Alpha && evaluation
            <= alpha ==> after.spec_probe(key, probe_depth, alpha, beta) == Some(
            (best_move, alpha),
        ),
        depth_left >= probe_depth && evaluation_type == EvaluationType::Beta && evaluation >= beta
            ==> after.spec_probe(key, probe_depth, alpha, beta) == Some((best_move, beta)),
        depth_left < probe_depth ==> after.spec_probe(key, probe_depth, alpha, beta) is None,
{
    assert(0 <= spec_slot(key, before.slot_count()) < before.slots().len()) by {
        assert(before.slot_count() > 0);
    };
}

} // verus!
