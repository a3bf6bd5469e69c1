//! A plain-value model of a chess move.
//!
//! The search core never inspects the move representation of the rules
//! library; it works on `Mv`, a structural record of the facts the engine
//! reads from a move: the moving piece, the squares, and whether the move
//! captures, promotes, castles or takes en passant.  Role codes are 1..=6
//! for pawn, knight, bishop, rook, queen, king; 0 stands for "none" in the
//! `capture` and `promotion` fields.

use vstd::prelude::*;

verus! {

pub const ROLE_NONE: u8 = 0;

pub const ROLE_PAWN: u8 = 1;

pub const ROLE_KNIGHT: u8 = 2;

pub const ROLE_BISHOP: u8 = 3;

pub const ROLE_ROOK: u8 = 4;

pub const ROLE_QUEEN: u8 = 5;

pub const ROLE_KING: u8 = 6;

/// Square index of the origin when a move has no origin square (piece drops
/// in variant games); ordinary squares are 0..=63.
pub const NO_SQUARE: u8 = 64;

#[derive(Clone, Copy, PartialEq, Eq, Structural, Debug, Hash)]
pub struct Mv {
    pub castle: bool,
    pub en_passant: bool,
    /// Role of the moved piece (1..=6).
    pub role: u8,
    /// Origin square 0..=63, or `NO_SQUARE`.
    pub from: u8,
    /// Target square 0..=63 (for castling: the rook's square).
    pub to: u8,
    /// Role of the captured piece, or 0 for a quiet move.
    pub capture: u8,
    /// Promotion role, or 0.
    pub promotion: u8,
}

impl Mv {
    pub open spec fn wf(self) -> bool {
        &&& 1 <= self.role <= 6
        &&& self.from <= 64
        &&& self.to < 64
        &&& self.capture <= 6
        &&& self.promotion <= 6
    }

    pub open spec fn spec_is_capture(self) -> bool {
        self.capture != ROLE_NONE
    }

    pub open spec fn spec_is_promotion(self) -> bool {
        self.promotion != ROLE_NONE
    }

    pub fn is_capture(&self) -> (r: bool)
        ensures
            r == self.spec_is_capture(),
    {
        self.capture != ROLE_NONE
    }

    pub fn is_promotion(&self) -> (r: bool)
        ensures
            r == self.spec_is_promotion(),
    {
        self.promotion != ROLE_NONE
    }
}

/// The sentinel "no move": a pawn standing still on square 0.  Stored in
/// empty transposition slots, for leaf entries, and as the "no move yet"
/// placeholder during search.
pub open spec fn null_mv() -> Mv {
    Mv {
        castle: false,
        en_passant: false,
        role: ROLE_PAWN,
        from: 0,
        to: 0,
        capture: ROLE_NONE,
        promotion: ROLE_NONE,
    }
}

pub fn null_move() -> (r: Mv)
    ensures
        r == null_mv(),
        r.wf(),
{
    Mv {
        castle: false,
        en_passant: false,
        role: ROLE_PAWN,
        from: 0,
        to: 0,
        capture: ROLE_NONE,
        promotion: ROLE_NONE,
    }
}

/// Material value of a piece role in centipawns, as used both by the
/// evaluator and by MVV-LVA capture ordering.
pub open spec fn spec_piece_value(role: u8) -> int {
    if role == ROLE_PAWN {
        100
    } else if role == ROLE_KNIGHT || role == ROLE_BISHOP {
        300
    } else if role == ROLE_ROOK {
        500
    } else if role == ROLE_QUEEN {
        900
    } else if role == ROLE_KING {
        2000
    } else {
        0
    }
}

pub fn piece_value(role: u8) -> (r: i16)
    ensures
        r as int == spec_piece_value(role),
{
    if role == ROLE_PAWN {
        100
    } else if role == ROLE_KNIGHT || role == ROLE_BISHOP {
        300
    } else if role == ROLE_ROOK {
        500
    } else if role == ROLE_QUEEN {
        900
    } else if role == ROLE_KING {
        2000
    } else {
        0
    }
}

} // verus!
