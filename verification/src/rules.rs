//! Trusted adapter over the `shakmaty` chess rules library.
//!
//! The search core treats a position as an opaque value and reads plain
//! facts out of it through the wrappers below: the legal move list (as
//! `Mv` models paired with the library's own move values), piece
//! bitboards, the side to move, check and outcome status, and the Zobrist
//! hash.  Each wrapper's doc comment names the `shakmaty` item relied on.

use vstd::prelude::*;

use shakmaty::Position;

use crate::evaluation::{GameOutcome, PositionFacts};
use crate::mv::Mv;

verus! {

#[verifier::external_type_specification]
#[verifier::external_body]
pub struct ExChess(shakmaty::Chess);

#[verifier::external_type_specification]
#[verifier::external_body]
pub struct ExMove(shakmaty::Move);

/// Relies on `shakmaty::Chess::new`: the standard starting position.
#[verifier::external_body]
pub fn start_position() -> shakmaty::Chess {
    shakmaty::Chess::new()
}

/// Relies on `shakmaty::fen::Fen::from_str` and `Fen::into_position`:
/// `Some` exactly for text that parses as FEN and describes a position
/// that is legal under standard castling rules.
#[verifier::external_body]
pub fn fen_position(fen: &str) -> (r: Option<shakmaty::Chess>)
    ensures
        r is Some ==> fen_ok(fen@),
{
    let parsed: shakmaty::fen::Fen = match fen.parse() {
        Ok(f) => f,
        Err(_) => return None,
    };
    parsed.into_position(shakmaty::CastlingMode::Standard).ok()
}

/// Relies on `shakmaty::Position::legal_moves`: every legal move of the
/// position, in a list of at most 270 entries.
#[verifier::external_body]
fn legal_moves_list(position: &shakmaty::Chess) -> (r: Vec<shakmaty::Move>)
    ensures
        r@.len() <= 270,
{
    position.legal_moves().into_iter().collect()
}

/// Relies on the `shakmaty::Move` accessors `is_castle`, `is_en_passant`,
/// `role`, `from`, `to`, `capture` and `promotion` to read the plain
/// facts of a move; roles are numbered 1..=6, squares 0..=63.
#[verifier::external_body]
pub fn move_model(m: &shakmaty::Move) -> (r: Mv)
    ensures
        r.wf(),
{
    Mv {
        castle: m.is_castle(),
        en_passant: m.is_en_passant(),
        role: m.role() as u8,
        from: m.from().map_or(64u8, |s| s as u8),
        to: m.to() as u8,
        capture: m.capture().map_or(0u8, |r| r as u8),
        promotion: m.promotion().map_or(0u8, |r| r as u8),
    }
}

/// Relies on `shakmaty::Position::play`: the position after the move,
/// or `None` if the move is not legal here.
#[verifier::external_body]
pub fn play_move(position: &shakmaty::Chess, m: &shakmaty::Move) -> Option<shakmaty::Chess> {
    position.clone().play(*m).ok()
}

/// Relies on `shakmaty::Position::zobrist_hash` with `Zobrist64` values
/// and legal en-passant mode: the 64-bit Zobrist hash of the position.
#[verifier::external_body]
pub fn zobrist_key(position: &shakmaty::Chess) -> u64 {
    position.zobrist_hash::<shakmaty::zobrist::Zobrist64>(shakmaty::EnPassantMode::Legal).0
}

/// Relies on `shakmaty::Position::is_check`: whether the side to move is
/// in check.
#[verifier::external_body]
pub fn is_check(position: &shakmaty::Chess) -> bool {
    position.is_check()
}

/// Relies on `shakmaty::Position::is_checkmate`.
#[verifier::external_body]
pub fn is_checkmate(position: &shakmaty::Chess) -> bool {
    position.is_checkmate()
}

/// Relies on `shakmaty::Position::turn`: `true` when White is to move.
#[verifier::external_body]
pub fn turn_is_white(position: &shakmaty::Chess) -> bool {
    position.turn() == shakmaty::Color::White
}

/// Relies on `shakmaty::Position::outcome`: whether the game here is
/// over, and for whom.
#[verifier::external_body]
pub fn outcome_of(position: &shakmaty::Chess) -> GameOutcome {
    match position.outcome() {
        shakmaty::Outcome::Known(shakmaty::KnownOutcome::Draw) => GameOutcome::Draw,
        shakmaty::Outcome::Known(
            shakmaty::KnownOutcome::Decisive { winner: shakmaty::Color::White },
        ) => GameOutcome::WhiteWins,
        shakmaty::Outcome::Known(
            shakmaty::KnownOutcome::Decisive { winner: shakmaty::Color::Black },
        ) => GameOutcome::BlackWins,
        shakmaty::Outcome::Unknown => GameOutcome::Ongoing,
    }
}

/// Relies on `shakmaty::Position::swap_turn`: the same position with the
/// other side to move (a "null move"), or `None` when that would be an
/// illegal position (the side then not to move stands in check).
#[verifier::external_body]
pub fn swap_sides(position: &shakmaty::Chess) -> Option<shakmaty::Chess> {
    position.clone().swap_turn().ok()
}

/// Relies on `shakmaty::Board::by_color` and `Board::by_role`: the
/// bitboard of the pieces of one color and role (1..=6, pawn..king).
#[verifier::external_body]
fn piece_board(position: &shakmaty::Chess, white: bool, role: u8) -> u64
    requires
        1 <= role <= 6,
{
    let board = position.board();
    let color = if white {
        shakmaty::Color::White
    } else {
        shakmaty::Color::Black
    };
    let r = match role {
        1 => shakmaty::Role::Pawn,
        2 => shakmaty::Role::Knight,
        3 => shakmaty::Role::Bishop,
        4 => shakmaty::Role::Rook,
        5 => shakmaty::Role::Queen,
        _ => shakmaty::Role::King,
    };
    (board.by_color(color) & board.by_role(r)).0
}

/// Relies on `shakmaty::uci::UciMove::from_str` and `UciMove::to_move`:
/// the legal move the UCI text denotes here, or `None`.
#[verifier::external_body]
pub fn uci_to_move(position: &shakmaty::Chess, text: &str) -> Option<shakmaty::Move> {
    let uci: shakmaty::uci::UciMove = text.parse().ok()?;
    uci.to_move(position).ok()
}

/// Relies on `shakmaty::Move::to_uci` (standard castling mode) and its
/// `Display`: the move in UCI text form.
#[verifier::external_body]
pub fn move_uci_string(m: &shakmaty::Move) -> String {
    m.to_uci(shakmaty::CastlingMode::Standard).to_string()
}

/// Names the verdict of `shakmaty::fen::Fen::from_str`: whether a text
/// is a well-formed FEN record is a function of the text alone.
pub uninterp spec fn fen_ok(text: Seq<char>) -> bool;

/// Names the verdict of `shakmaty::uci::UciMove::from_str`: whether a
/// text has the shape of a UCI move is a function of the text alone.
pub uninterp spec fn move_ok(text: Seq<char>) -> bool;

/// Relies on `shakmaty::uci::UciMove::from_str`: whether the text has
/// the shape of a UCI move.
#[verifier::external_body]
pub fn is_move_text(text: &str) -> (r: bool)
    ensures
        r == move_ok(text@),
{
    text.parse::<shakmaty::uci::UciMove>().is_ok()
}

/// The legal moves of a position, each paired with its structural model.
pub fn labelled_legal_moves(position: &shakmaty::Chess) -> (r: Vec<(Mv, shakmaty::Move)>)
    ensures
        forall|i: int| 0 <= i < r@.len() ==> (#[trigger] r@[i]).0.wf(),
{
    let raw = legal_moves_list(position);
    let mut pairs: Vec<(Mv, shakmaty::Move)> = Vec::new();
    let mut i: usize = 0;
    while i < raw.len()
        invariant
            i <= raw@.len(),
            pairs@.len() == i,
            forall|k: int| 0 <= k < pairs@.len() ==> (#[trigger] pairs@[k]).0.wf(),
        decreases raw@.len() - i,
    {
        let m = raw[i];
        pairs.push((move_model(&m), m));
        i += 1;
    }
    pairs
}

/// The plain facts of a position: the twelve piece bitboards (White's
/// pawn..king, then Black's), the side to move, and the outcome.
pub fn observe(position: &shakmaty::Chess) -> (r: PositionFacts)
{
    let boards: [u64; 12] = [
        piece_board(position, true, 1),
        piece_board(position, true, 2),
        piece_board(position, true, 3),
        piece_board(position, true, 4),
        piece_board(position, true, 5),
        piece_board(position, true, 6),
        piece_board(position, false, 1),
        piece_board(position, false, 2),
        piece_board(position, false, 3),
        piece_board(position, false, 4),
        piece_board(position, false, 5),
        piece_board(position, false, 6),
    ];
    PositionFacts {
        boards,
        white_to_move: turn_is_white(position),
        outcome: outcome_of(position),
    }
}

} // verus!
