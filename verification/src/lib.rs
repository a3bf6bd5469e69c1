//! A small UCI chess engine built around a verified search core.
//!
//! The engine performs iterative-deepening negamax search with alpha-beta
//! pruning, aspiration windows, a Zobrist-keyed transposition table,
//! MVV-LVA move ordering and a quiescence extension.  Chess rules (legal
//! move generation, make-move, hashing) are consumed from the `shakmaty`
//! crate through a thin trusted adapter; everything that decides, orders,
//! scores and accounts is verified.

pub mod book;
pub mod clock;
pub mod duel;
pub mod evaluation;
pub mod mv;
pub mod neural_eval;
pub mod ordering;
pub mod pgn;
pub mod rules;
pub mod search;
pub mod tables;
pub mod tt;
pub mod uci;

pub use tt::{EvaluationType, Transposition, TranspositionTable};
