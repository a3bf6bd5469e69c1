//! Decision core of the engine-versus-engine match runner.
//!
//! The embedding application spawns two engine processes and shuttles
//! UCI text; everything the runner decides lives here: which engine acts
//! next, the `position` command describing the game so far, how an
//! engine's reply advances the game, the hundred-move draw cutoff, and
//! which side's point a finished game scores.

use vstd::prelude::*;
use vstd::string::StringSliceAdditionalSpecFns;

use crate::evaluation::GameOutcome;

verus! {

broadcast use vstd::string::is_ascii_spec_bytes;

/// A finished game is called a draw after this many replies.
pub const MATCH_PLY_LIMIT: u16 = 100;

/// The side a FEN record puts to move: `Some(true)` when its second
/// field is the single letter `w`, `Some(false)` for `b`, `None` when
/// the record has no recognizable second field.
pub fn black_or_white(fen: &str) -> (r: Option<bool>)
{
    if !fen.is_ascii() {
        return None;
    }
    let n = fen.unicode_len();
    let mut i: usize = 0;
    let mut word_index: u8 = 0;
    while i < n
        invariant
            fen.is_ascii(),
            n == fen@.len(),
            i <= n,
            word_index <= 1,
        decreases n - i,
    {
        if fen.get_ascii(i) == 32 {
            i += 1;
            continue ;
        }
        let mut j: usize = i + 1;
        while j < n
            invariant
                fen.is_ascii(),
                n == fen@.len(),
                i < j <= n,
            decreases n - j,
        {
            if fen.get_ascii(j) == 32 {
                break ;
            }
            j += 1;
        }
        if word_index == 1 {
            if j - i == 1 && fen.get_ascii(i) == 119 {
                return Some(true);
            }
            if j - i == 1 && fen.get_ascii(i) == 98 {
                return Some(false);
            }
            return None;
        }
        word_index += 1;
        i = j;
    }
    None
}

/// One engine reply, as the runner reads it: a best move, a reported
/// game outcome, or anything else.
pub enum EngineReply {
    BestMove(String),
    Finished(GameOutcome),
    Other,
}

/// The outcome named by a UCI `info outcome` word.
pub open spec fn spec_outcome_word(w: Seq<u8>) -> Option<GameOutcome> {
    if w == "1-0".spec_bytes() {
        Some(GameOutcome::WhiteWins)
    } else if w == "0-1".spec_bytes() {
        Some(GameOutcome::BlackWins)
    } else if w == "1/2-1/2".spec_bytes() {
        Some(GameOutcome::Draw)
    } else {
        None
    }
}

fn outcome_of_word(word: &str) -> (r: Option<GameOutcome>)
    ensures
        r == spec_outcome_word(word.spec_bytes()),
{
    if crate::uci::bytes_eq(word.as_bytes(), "1-0".as_bytes()) {
        Some(GameOutcome::WhiteWins)
    } else if crate::uci::bytes_eq(word.as_bytes(), "0-1".as_bytes()) {
        Some(GameOutcome::BlackWins)
    } else if crate::uci::bytes_eq(word.as_bytes(), "1/2-1/2".as_bytes()) {
        Some(GameOutcome::Draw)
    } else {
        None
    }
}

/// Read one engine output line: `bestmove <m>` yields the move,
/// `info outcome <o>` the finished game, anything else `Other`.
pub fn parse_engine_reply(line: &str) -> (r: EngineReply) {
    if !line.is_ascii() {
        return EngineReply::Other;
    }
    let mut words: Vec<String> = Vec::new();
    let n = line.unicode_len();
    let mut i: usize = 0;
    while i < n
        invariant
            line.is_ascii(),
            n == line@.len(),
            i <= n,
        decreases n - i,
    {
        if line.get_ascii(i) == 32 {
            i += 1;
            continue ;
        }
        let mut j: usize = i + 1;
        while j < n
            invariant
                line.is_ascii(),
                n == line@.len(),
                i < j <= n,
            decreases n - j,
        {
            if line.get_ascii(j) == 32 {
                break ;
            }
            j += 1;
        }
        words.push(line.substring_ascii(i, j).to_owned());
        i = j;
    }
    if words.len() >= 2 && crate::uci::bytes_eq(words[0].as_str().as_bytes(), "bestmove".as_bytes()) {
        let m = words[1].clone();
        return EngineReply::BestMove(m);
    }
    if words.len() >= 3 && crate::uci::bytes_eq(words[0].as_str().as_bytes(), "info".as_bytes())
        && crate::uci::bytes_eq(words[1].as_str().as_bytes(), "outcome".as_bytes()) {
        match outcome_of_word(words[2].as_str()) {
            Some(outcome) => {
                return EngineReply::Finished(outcome);
            },
            None => {
                return EngineReply::Other;
            },
        }
    }
    EngineReply::Other
}

/// Concatenation of `" " + ms[k]` for the first `n` moves.
pub open spec fn spec_joined_moves(ms: Seq<Seq<char>>, n: int) -> Seq<char>
    decreases n,
{
    if n <= 0 {
        Seq::empty()
    } else {
        spec_joined_moves(ms, n - 1) + seq![' '] + ms[n - 1]
    }
}

/// One game of a match: the start position, the moves played so far,
/// whose reply comes next, and the ply count toward the draw cutoff.
pub struct MatchSession {
    fen: String,
    moves: Vec<String>,
    first_to_act: bool,
    plies: u16,
}

impl MatchSession {
    pub closed spec fn spec_fen(&self) -> Seq<char> {
        self.fen@
    }

    pub closed spec fn spec_moves(&self) -> Seq<Seq<char>> {
        self.moves@.map_values(|m: String| m@)
    }

    pub closed spec fn spec_first_to_act(&self) -> bool {
        self.first_to_act
    }

    pub closed spec fn spec_plies(&self) -> u16 {
        self.plies
    }

    /// A fresh game from the given start position; the first engine acts
    /// first.
    pub fn new(fen: String) -> (r: MatchSession)
        ensures
            r.spec_fen() == fen@,
            r.spec_moves().len() == 0,
            r.spec_first_to_act(),
            r.spec_plies() == 0,
    {
        MatchSession { fen, moves: Vec::new(), first_to_act: true, plies: 0 }
    }

    /// Whether the first engine is the one to ask now.
    pub fn first_to_act(&self) -> (r: bool)
        ensures
            r == self.spec_first_to_act(),
    {
        self.first_to_act
    }

    /// Whether the game is called a draw by the ply cutoff.
    pub fn reply_limit_reached(&self) -> (r: bool)
        ensures
            r == (self.spec_plies() > MATCH_PLY_LIMIT),
    {
        self.plies > MATCH_PLY_LIMIT
    }

    /// The `position` command that reproduces the game so far:
    /// `position fen <fen>` followed by ` moves` and each move, in order.
    pub fn position_command(&self) -> (r: String)
        ensures
            self.spec_moves().len() == 0 ==> r@ == "position fen "@ + self.spec_fen(),
            self.spec_moves().len() > 0 ==> r@ == "position fen "@ + self.spec_fen() + " moves"@
                + spec_joined_moves(self.spec_moves(), self.spec_moves().len() as int),
    {
        let mut out: String = "position fen ".to_owned();
        out.append(self.fen.as_str());
        if self.moves.len() > 0 {
            out.append(" moves");
            let ghost base = "position fen "@ + self.spec_fen() + " moves"@;
            let mut k: usize = 0;
            while k < self.moves.len()
                invariant
                    k <= self.moves@.len(),
                    self.spec_moves().len() == self.moves@.len(),
                    out@ == base + spec_joined_moves(self.spec_moves(), k as int),
                decreases self.moves@.len() - k,
            {
                out.append(" ");
                out.append(self.moves[k].as_str());
                proof {
                    assert(" "@ =~= seq![' ']) by {
                        reveal_strlit(" ");
                    };
                    assert(out@ =~= base + spec_joined_moves(self.spec_moves(), k + 1));
                }
                k += 1;
            }
        }
        out
    }

    /// Record a `bestmove` reply: the move joins the game, the other
    /// engine is up, and the ply count advances (saturating).
    pub fn record_best_move(&mut self, uci_text: String)
        ensures
            final(self).spec_fen() == old(self).spec_fen(),
            final(self).spec_moves() == old(self).spec_moves().push(uci_text@),
            final(self).spec_first_to_act() == !old(self).spec_first_to_act(),
            final(self).spec_plies() == if old(self).spec_plies() < u16::MAX {
                old(self).spec_plies() + 1
            } else {
                old(self).spec_plies() as int
            },
    {
        self.moves.push(uci_text);
        self.first_to_act = !self.first_to_act;
        self.plies = self.plies.saturating_add(1);
        proof {
            assert(self.spec_moves() =~= old(self).spec_moves().push(
                self.moves@[self.moves@.len() - 1]@,
            ));
        }
    }
}

/// Which contestant a finished game's point goes to: `Some(true)` for
/// the first engine, `Some(false)` for the second, `None` for a draw.
/// The first engine owns White exactly when it acted first from a
/// position with White to move.
pub open spec fn spec_match_point(outcome: GameOutcome, first_played_white: bool) -> Option<bool> {
    match outcome {
        GameOutcome::Draw => None,
        GameOutcome::WhiteWins => Some(first_played_white),
        GameOutcome::BlackWins => Some(!first_played_white),
        GameOutcome::Ongoing => None,
    }
}

pub fn match_point(outcome: GameOutcome, first_played_white: bool) -> (r: Option<bool>)
    ensures
        r == spec_match_point(outcome, first_played_white),
{
    match outcome {
        GameOutcome::Draw => None,
        GameOutcome::WhiteWins => Some(first_played_white),
        GameOutcome::BlackWins => Some(!first_played_white),
        GameOutcome::Ongoing => None,
    }
}

} // verus!
