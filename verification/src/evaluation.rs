//! Static evaluation: material plus piece-square score, side-to-move
//! relative, with the decisive outcomes mapped to the mate sentinels.
//!
//! The evaluator works on `PositionFacts`, the plain data extracted from a
//! position: the twelve piece bitboards, the side to move, and the game
//! outcome.  It is exact (`spec_evaluate`) and symmetric in the side to
//! move (`lemma_evaluate_symmetry`).

use vstd::prelude::*;

use crate::tables::{parse_tables, spec_bit, spec_parse_tables};

verus! {

/// Score of a resolved win for the side to move; `-POS_INF` a resolved
/// loss.  Ordinary evaluations stay strictly inside the sentinels.
pub const POS_INF: i16 = 25_000;

pub const NEG_INF: i16 = -25_000;

/// Ordinary (non-mate) evaluations are clamped into this band, leaving
/// room below the mate sentinels.
pub const EVAL_CLAMP: i16 = 24_000;

#[derive(Clone, Copy, PartialEq, Eq, Structural, Debug)]
pub enum GameOutcome {
    Ongoing,
    Draw,
    WhiteWins,
    BlackWins,
}

/// The facts of a position that evaluation reads: piece placement as
/// bitboards (`boards[0..6]` White's pawn..king, `boards[6..12]` Black's),
/// the side to move, and whether the game is decided.
#[derive(Clone, Copy, Debug)]
pub struct PositionFacts {
    pub boards: [u64; 12],
    pub white_to_move: bool,
    pub outcome: GameOutcome,
}

/// Number of set bits among the squares below `n`.
pub open spec fn spec_popcount(bb: u64, n: int) -> int
    decreases n,
{
    if n <= 0 {
        0
    } else {
        spec_popcount(bb, n - 1) + if spec_bit(bb, (n - 1) as u64) {
            1int
        } else {
            0int
        }
    }
}

fn popcount(bb: u64) -> (r: u32)
    ensures
        r as int == spec_popcount(bb, 64),
        r <= 64,
{
    let mut count: u32 = 0;
    let mut sq: u64 = 0;
    while sq < 64
        invariant
            0 <= sq <= 64,
            count as int == spec_popcount(bb, sq as int),
            count <= sq,
        decreases 64 - sq,
    {
        if (bb >> sq) & 1 == 1 {
            count = count + 1;
        }
        sq = sq + 1;
    }
    count
}

/// Material difference in centipawns from White's point of view: piece
/// counts weighted 100/300/300/500/900, king excluded.
pub open spec fn spec_count_pieces(boards: [u64; 12]) -> int {
    100 * (spec_popcount(boards[0], 64) - spec_popcount(boards[6], 64)) + 300 * (spec_popcount(
        boards[1],
        64,
    ) - spec_popcount(boards[7], 64)) + 300 * (spec_popcount(boards[2], 64) - spec_popcount(
        boards[8],
        64,
    )) + 500 * (spec_popcount(boards[3], 64) - spec_popcount(boards[9], 64)) + 900 * (
    spec_popcount(boards[4], 64) - spec_popcount(boards[10], 64))
}

pub fn count_pieces(boards: &[u64; 12]) -> (r: i32)
    ensures
        r as int == spec_count_pieces(*boards),
        -134_400 <= r <= 134_400,
{
    let pawns = popcount(boards[0]) as i32 - popcount(boards[6]) as i32;
    let knights = popcount(boards[1]) as i32 - popcount(boards[7]) as i32;
    let bishops = popcount(boards[2]) as i32 - popcount(boards[8]) as i32;
    let rooks = popcount(boards[3]) as i32 - popcount(boards[9]) as i32;
    let queens = popcount(boards[4]) as i32 - popcount(boards[10]) as i32;
    100 * pawns + 300 * knights + 300 * bishops + 500 * rooks + 900 * queens
}

/// Clamp an ordinary evaluation into the non-mate band.
pub open spec fn spec_clamp_eval(v: int) -> int {
    if v > EVAL_CLAMP as int {
        EVAL_CLAMP as int
    } else if v < -EVAL_CLAMP as int {
        -EVAL_CLAMP as int
    } else {
        v
    }
}

/// The static evaluation, side-to-move relative: 0 for a drawn position,
/// the mate sentinel for a decided one, otherwise material plus
/// piece-square score (clamped), negated when Black is to move.
pub open spec fn spec_evaluate(f: PositionFacts) -> int {
    let white_relative = match f.outcome {
        GameOutcome::Draw => 0int,
        GameOutcome::WhiteWins => POS_INF as int,
        GameOutcome::BlackWins => NEG_INF as int,
        GameOutcome::Ongoing => spec_clamp_eval(
            spec_count_pieces(f.boards) + spec_parse_tables(f.boards),
        ),
    };
    if f.white_to_move {
        white_relative
    } else {
        -white_relative
    }
}

pub fn evaluate_facts(facts: &PositionFacts) -> (r: i16)
    ensures
        r as int == spec_evaluate(*facts),
        NEG_INF <= r <= POS_INF,
{
    let white_relative: i16 = match facts.outcome {
        GameOutcome::Draw => 0,
        GameOutcome::WhiteWins => POS_INF,
        GameOutcome::BlackWins => NEG_INF,
        GameOutcome::Ongoing => {
            let value: i32 = count_pieces(&facts.boards) + parse_tables(&facts.boards);
            if value > EVAL_CLAMP as i32 {
                EVAL_CLAMP
            } else if value < -(EVAL_CLAMP as i32) {
                -EVAL_CLAMP
            } else {
                value as i16
            }
        },
    };
    if facts.white_to_move {
        white_relative
    } else {
        -white_relative
    }
}

/// Static evaluation of a position, side-to-move relative.  The exact
/// statement lives on `evaluate_facts`; this reads the position's facts
/// through the rules adapter and scores them.
pub fn evaluate(position: &shakmaty::Chess) -> (r: i16)
    ensures
        NEG_INF <= r <= POS_INF,
{
    let facts = crate::rules::observe(position);
    evaluate_facts(&facts)
}

/// The same position with only the side to move exchanged.
pub open spec fn spec_swap_side(f: PositionFacts) -> PositionFacts {
    PositionFacts { boards: f.boards, white_to_move: !f.white_to_move, outcome: f.outcome }
}

/// Evaluator symmetry: exchanging the side to move negates the
/// evaluation.
pub proof fn lemma_evaluate_symmetry(f: PositionFacts)
    ensures
        spec_evaluate(spec_swap_side(f)) == -spec_evaluate(f),
{
}

} // verus!
