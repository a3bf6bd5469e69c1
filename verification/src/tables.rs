//! Piece-square tables and their summation over bitboards.
//!
//! Each table is a per-role 8x8 grid of centipawn bonuses, laid out with
//! square a1 at index 0.  Black's contribution reads the board as it
//! stands; White's reads it vertically flipped (square index XOR 56), so
//! that "the rank the table rewards promotion toward" is always the
//! opponent's back rank.

use vstd::prelude::*;

verus! {

pub const PAWN_SQUARE_TABLE: [i16; 64] = [
    0, 0, 0, 0, 0, 0, 0, 0,
    98, 134, 61, 95, 68, 126, 34, -11,
    -6, 7, 26, 31, 65, 56, 25, -20,
    -14, 13, 6, 21, 23, 12, 17, -23,
    -27, -2, -5, 12, 17, 6, 10, -25,
    -26, -4, -4, -10, 3, 3, 33, -12,
    -35, -1, -20, -23, -15, 24, 38, -22,
    0, 0, 0, 0, 0, 0, 0, 0,
];

pub const KNIGHT_SQUARE_TABLE: [i16; 64] = [
    -167, -89, -34, -49, 61, -97, -15, -107,
    -73, -41, 72, 36, 23, 62, 7, -17,
    -47, 60, 37, 65, 84, 129, 73, 44,
    -9, 17, 19, 53, 37, 69, 18, 22,
    -13, 4, 16, 13, 28, 19, 21, -8,
    -23, -9, 12, 10, 19, 17, 25, -16,
    -29, -53, -12, -3, -1, 18, -14, -19,
    -105, -21, -58, -33, -17, -28, -19, -23,
];

pub const BISHOP_SQUARE_TABLE: [i16; 64] = [
    -29, 4, -82, -37, -25, -42, 7, -8,
    -26, 16, -18, -13, 30, 59, 18, -47,
    -16, 37, 43, 40, 35, 50, 37, -2,
    -4, 5, 19, 50, 37, 37, 7, -2,
    -6, 13, 13, 26, 34, 12, 10, 4,
    0, 15, 15, 15, 14, 27, 18, 10,
    4, 15, 16, 0, 7, 21, 33, 1,
    -33, -3, -14, -21, -13, -12, -39, -21,
];

pub const ROOK_SQUARE_TABLE: [i16; 64] = [
    32, 42, 32, 51, 63, 9, 31, 43,
    27, 32, 58, 62, 80, 67, 26, 44,
    -5, 19, 26, 36, 17, 45, 61, 16,
    -24, -11, 7, 26, 24, 35, -8, -20,
    -36, -26, -12, -1, 9, -7, 6, -23,
    -45, -25, -16, -17, 3, 0, -5, -33,
    -44, -16, -20, -9, -1, 11, -6, -71,
    -19, -13, 1, 17, 16, 7, -37, -26,
];

pub const QUEEN_SQUARE_TABLE: [i16; 64] = [
    -28, 0, 29, 12, 59, 44, 43, 45,
    -24, -39, -5, 1, -16, 57, 28, 54,
    -13, -17, 7, 8, 29, 56, 47, 57,
    -27, -27, -16, -16, -1, 17, -2, 1,
    -9, -26, -9, -10, -2, -4, 3, -3,
    -14, 2, -11, -2, -5, 2, 14, 5,
    -35, -8, 11, 2, 8, 15, -3, 1,
    -1, -18, -9, 10, -15, -25, -31, -50,
];

pub const KING_SQUARE_TABLE: [i16; 64] = [
    -65, 23, 16, -15, -56, -34, 2, 13,
    29, -1, -20, -7, -8, -4, -38, -29,
    -9, 24, 2, -16, -20, 6, 22, -22,
    -17, -20, -12, -27, -30, -25, -14, -36,
    -49, -1, -27, -39, -46, -44, -33, -51,
    -14, -14, -22, -46, -44, -30, -15, -27,
    1, 7, -8, -64, -43, -16, 9, 8,
    -15, 36, 12, -54, 8, -28, 24, 14,
];

/// Whether square `sq` is occupied in bitboard `bb`.
pub open spec fn spec_bit(bb: u64, sq: u64) -> bool {
    (bb >> sq) & 1 == 1
}

/// Table index that square `sq` contributes: the square itself, or its
/// vertical mirror when `flip` is set.
pub open spec fn spec_table_index(sq: u64, flip: bool) -> u64 {
    if flip {
        sq ^ 56
    } else {
        sq
    }
}

/// Sum of the table entries of the occupied squares below `n`.
pub open spec fn spec_table_sum(bb: u64, table: [i16; 64], flip: bool, n: int) -> int
    decreases n,
{
    if n <= 0 {
        0
    } else {
        spec_table_sum(bb, table, flip, n - 1) + if spec_bit(bb, (n - 1) as u64) {
            table[spec_table_index((n - 1) as u64, flip) as int] as int
        } else {
            0
        }
    }
}

proof fn lemma_table_sum_bound(bb: u64, table: [i16; 64], flip: bool, n: int)
    requires
        0 <= n <= 64,
    ensures
        -0x8000 * n <= spec_table_sum(bb, table, flip, n) <= 0x8000 * n,
    decreases n,
{
    if n > 0 {
        lemma_table_sum_bound(bb, table, flip, n - 1);
    }
}

/// Sum the table entries of the squares set in `bb`, mirroring the square
/// index vertically when `flip` is set.
fn table_sum(bb: u64, table: &[i16; 64], flip: bool) -> (r: i32)
    ensures
        r as int == spec_table_sum(bb, *table, flip, 64),
{
    let mut sum: i32 = 0;
    let mut sq: u64 = 0;
    while sq < 64
        invariant
            0 <= sq <= 64,
            sum as int == spec_table_sum(bb, *table, flip, sq as int),
            -0x8000 * sq <= sum <= 0x8000 * sq,
        decreases 64 - sq,
    {
        if (bb >> sq) & 1 == 1 {
            let index: u64 = if flip {
                sq ^ 56
            } else {
                sq
            };
            assert(index < 64) by (bit_vector)
                requires
                    index == (if flip { sq ^ 56 } else { sq }) && sq < 64,
            ;
            sum = sum + table[index as usize] as i32;
        }
        sq = sq + 1;
    }
    sum
}

/// Sum of `table` over the squares set in `bitboard`, a1 first.
pub fn parse_table(bitboard: u64, square_table: &[i16; 64]) -> (r: i32)
    ensures
        r as int == spec_table_sum(bitboard, *square_table, false, 64),
{
    table_sum(bitboard, square_table, false)
}

/// Positional score of a full set of piece bitboards, in centipawns from
/// White's point of view: for each role, White's (vertically mirrored)
/// occupancy adds its table sum and Black's subtracts it.
/// `boards[0..6]` are White's pawn..king bitboards, `boards[6..12]`
/// Black's, in the same role order as the tables.
pub open spec fn spec_parse_tables(boards: [u64; 12]) -> int {
    spec_table_sum(boards[0], PAWN_SQUARE_TABLE, true, 64) + spec_table_sum(
        boards[1],
        KNIGHT_SQUARE_TABLE,
        true,
        64,
    ) + spec_table_sum(boards[2], BISHOP_SQUARE_TABLE, true, 64) + spec_table_sum(
        boards[3],
        ROOK_SQUARE_TABLE,
        true,
        64,
    ) + spec_table_sum(boards[4], QUEEN_SQUARE_TABLE, true, 64) + spec_table_sum(
        boards[5],
        KING_SQUARE_TABLE,
        true,
        64,
    ) - spec_table_sum(boards[6], PAWN_SQUARE_TABLE, false, 64) - spec_table_sum(
        boards[7],
        KNIGHT_SQUARE_TABLE,
        false,
        64,
    ) - spec_table_sum(boards[8], BISHOP_SQUARE_TABLE, false, 64) - spec_table_sum(
        boards[9],
        ROOK_SQUARE_TABLE,
        false,
        64,
    ) - spec_table_sum(boards[10], QUEEN_SQUARE_TABLE, false, 64) - spec_table_sum(
        boards[11],
        KING_SQUARE_TABLE,
        false,
        64,
    )
}

pub fn parse_tables(boards: &[u64; 12]) -> (r: i32)
    ensures
        r as int == spec_parse_tables(*boards),
        -25_165_824 <= r <= 25_165_824,
{
    proof {
        lemma_table_sum_bound(boards[0], PAWN_SQUARE_TABLE, true, 64);
        lemma_table_sum_bound(boards[1], KNIGHT_SQUARE_TABLE, true, 64);
        lemma_table_sum_bound(boards[2], BISHOP_SQUARE_TABLE, true, 64);
        lemma_table_sum_bound(boards[3], ROOK_SQUARE_TABLE, true, 64);
        lemma_table_sum_bound(boards[4], QUEEN_SQUARE_TABLE, true, 64);
        lemma_table_sum_bound(boards[5], KING_SQUARE_TABLE, true, 64);
        lemma_table_sum_bound(boards[6], PAWN_SQUARE_TABLE, false, 64);
        lemma_table_sum_bound(boards[7], KNIGHT_SQUARE_TABLE, false, 64);
        lemma_table_sum_bound(boards[8], BISHOP_SQUARE_TABLE, false, 64);
        lemma_table_sum_bound(boards[9], ROOK_SQUARE_TABLE, false, 64);
        lemma_table_sum_bound(boards[10], QUEEN_SQUARE_TABLE, false, 64);
        lemma_table_sum_bound(boards[11], KING_SQUARE_TABLE, false, 64);
    }
    let white = table_sum(boards[0], &PAWN_SQUARE_TABLE, true) + table_sum(
        boards[1],
        &KNIGHT_SQUARE_TABLE,
        true,
    ) + table_sum(boards[2], &BISHOP_SQUARE_TABLE, true) + table_sum(
        boards[3],
        &ROOK_SQUARE_TABLE,
        true,
    ) + table_sum(boards[4], &QUEEN_SQUARE_TABLE, true) + table_sum(
        boards[5],
        &KING_SQUARE_TABLE,
        true,
    );
    let black = table_sum(boards[6], &PAWN_SQUARE_TABLE, false) + table_sum(
        boards[7],
        &KNIGHT_SQUARE_TABLE,
        false,
    ) + table_sum(boards[8], &BISHOP_SQUARE_TABLE, false) + table_sum(
        boards[9],
        &ROOK_SQUARE_TABLE,
        false,
    ) + table_sum(boards[10], &QUEEN_SQUARE_TABLE, false) + table_sum(
        boards[11],
        &KING_SQUARE_TABLE,
        false,
    );
    white - black
}

} // verus!
