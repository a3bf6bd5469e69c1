//! A minimal PGN reader for harvesting training data: headers and
//! space-separated movetext tokens, one game at a time, from a byte
//! buffer.
//!
//! The format read here is deliberately crude: `[Key value]` lines fill
//! the header list; the first blank line starts the movetext; movetext
//! tokens are split on single spaces (`?` and `!` annotation marks are
//! dropped); the next blank line ends the game.  Text is kept as raw
//! bytes; the embedding application decodes it for display.

use vstd::prelude::*;

verus! {

pub const BYTE_OPEN_BRACKET: u8 = 91;

pub const BYTE_CLOSE_BRACKET: u8 = 93;

pub const BYTE_SPACE: u8 = 32;

pub const BYTE_NEWLINE: u8 = 10;

pub const BYTE_QUESTION: u8 = 63;

pub const BYTE_BANG: u8 = 33;

/// One game: its header pairs and its movetext tokens, in input order.
pub struct Game {
    pub moves: Vec<Vec<u8>>,
    pub headers: Vec<(Vec<u8>, Vec<u8>)>,
}

impl Game {
    pub open spec fn moves_view(&self) -> Seq<Seq<u8>> {
        Seq::new(self.moves@.len(), |i: int| self.moves@[i]@)
    }

    pub open spec fn headers_view(&self) -> Seq<(Seq<u8>, Seq<u8>)> {
        Seq::new(self.headers@.len(), |i: int| (self.headers@[i].0@, self.headers@[i].1@))
    }
}

/// The reader's full state between two input bytes.
#[verifier::ext_equal]
pub struct PgnScan {
    /// Whether the first blank line (movetext start) has passed.
    pub is_game: bool,
    /// In the header section: whether bytes go to the key or the value.
    pub read_key: bool,
    /// Whether any newline has been seen yet.
    pub seen_newline: bool,
    /// Index of the most recent newline.
    pub prev_newline: int,
    pub key: Seq<u8>,
    pub value: Seq<u8>,
    pub move_buf: Seq<u8>,
    pub headers: Seq<(Seq<u8>, Seq<u8>)>,
    pub moves: Seq<Seq<u8>>,
}

pub open spec fn spec_initial_scan() -> PgnScan {
    PgnScan {
        is_game: false,
        read_key: true,
        seen_newline: false,
        prev_newline: 0,
        key: Seq::empty(),
        value: Seq::empty(),
        move_buf: Seq::empty(),
        headers: Seq::empty(),
        moves: Seq::empty(),
    }
}

/// A second consecutive newline inside the movetext ends the game.
pub open spec fn spec_game_ends(st: PgnScan, c: u8, i: int) -> bool {
    st.is_game && c == BYTE_NEWLINE && st.seen_newline && i >= 1 && i - 1 == st.prev_newline
}

/// How one input byte at index `i` advances the reader.
pub open spec fn spec_scan_step(st: PgnScan, c: u8, i: int) -> PgnScan {
    if !st.is_game {
        if c == BYTE_OPEN_BRACKET {
            PgnScan { read_key: true, ..st }
        } else if c == BYTE_SPACE {
            PgnScan { read_key: false, ..st }
        } else if c == BYTE_CLOSE_BRACKET {
            PgnScan {
                headers: st.headers.push((st.key, st.value)),
                key: Seq::empty(),
                value: Seq::empty(),
                ..st
            }
        } else if c == BYTE_NEWLINE {
            PgnScan {
                is_game: st.seen_newline && i >= 1 && i - 1 == st.prev_newline,
                seen_newline: true,
                prev_newline: i,
                ..st
            }
        } else if st.read_key {
            PgnScan { key: st.key.push(c), ..st }
        } else {
            PgnScan { value: st.value.push(c), ..st }
        }
    } else {
        if c == BYTE_QUESTION || c == BYTE_BANG {
            st
        } else if c == BYTE_SPACE {
            PgnScan { moves: st.moves.push(st.move_buf), move_buf: Seq::empty(), ..st }
        } else if c == BYTE_NEWLINE {
            PgnScan { seen_newline: true, prev_newline: i, ..st }
        } else {
            PgnScan { move_buf: st.move_buf.push(c), ..st }
        }
    }
}

/// Run the reader from byte `i`: the first game it completes (its moves
/// and headers, and the index just past its closing blank line), or
/// `None` when the input ends first.
pub open spec fn spec_scan(input: Seq<u8>, i: int, st: PgnScan) -> Option<
    (Seq<Seq<u8>>, Seq<(Seq<u8>, Seq<u8>)>, int),
>
    decreases input.len() - i,
{
    if i < 0 || i >= input.len() {
        None
    } else if spec_game_ends(st, input[i], i) {
        Some((st.moves, st.headers, i + 1))
    } else {
        spec_scan(input, i + 1, spec_scan_step(st, input[i], i))
    }
}

/// Read one game from `input`, starting at byte `from`.  Returns exactly
/// what the reader's state machine (`spec_scan`) yields: the game and
/// the position after its terminating blank line, or `None` when the
/// buffer holds no further complete game (a trailing partial game is
/// discarded).
pub fn next_game(input: &[u8], from: usize) -> (r: Option<(Game, usize)>)
    requires
        from <= input@.len(),
    ensures
        r is Some ==> from < r.unwrap().1 <= input@.len(),
        r is Some ==> spec_scan(input@, from as int, spec_initial_scan()) == Some(
            (r.unwrap().0.moves_view(), r.unwrap().0.headers_view(), r.unwrap().1 as int),
        ),
        r is None ==> spec_scan(input@, from as int, spec_initial_scan()) is None,
{
    let n = input.len();
    let mut game = Game { moves: Vec::new(), headers: Vec::new() };
    let mut is_game = false;
    let mut read_key = true;
    let mut seen_newline = false;
    let mut prev_newline: usize = 0;
    let mut key: Vec<u8> = Vec::new();
    let mut value: Vec<u8> = Vec::new();
    let mut move_buf: Vec<u8> = Vec::new();
    let mut i: usize = from;
    proof {
        let st0 = PgnScan {
            is_game,
            read_key,
            seen_newline,
            prev_newline: prev_newline as int,
            key: key@,
            value: value@,
            move_buf: move_buf@,
            headers: game.headers_view(),
            moves: game.moves_view(),
        };
        assert(st0 =~~= spec_initial_scan());
    }
    while i < n
        invariant
            n == input@.len(),
            from <= i <= n,
            spec_scan(input@, from as int, spec_initial_scan()) == spec_scan(
                input@,
                i as int,
                PgnScan {
                    is_game,
                    read_key,
                    seen_newline,
                    prev_newline: prev_newline as int,
                    key: key@,
                    value: value@,
                    move_buf: move_buf@,
                    headers: game.headers_view(),
                    moves: game.moves_view(),
                },
            ),
        decreases n - i,
    {
        let ghost st = PgnScan {
            is_game,
            read_key,
            seen_newline,
            prev_newline: prev_newline as int,
            key: key@,
            value: value@,
            move_buf: move_buf@,
            headers: game.headers_view(),
            moves: game.moves_view(),
        };
        let c = input[i];
        if is_game && c == BYTE_NEWLINE && seen_newline && i >= 1 && i - 1 == prev_newline {
            assert(spec_game_ends(st, c, i as int));
            return Some((game, i + 1));
        }
        assert(!spec_game_ends(st, c, i as int));
        if !is_game {
            if c == BYTE_OPEN_BRACKET {
                read_key = true;
            } else if c == BYTE_SPACE {
                read_key = false;
            } else if c == BYTE_CLOSE_BRACKET {
                let done_key = key;
                let done_value = value;
                game.headers.push((done_key, done_value));
                key = Vec::new();
                value = Vec::new();
                proof {
                    assert(game.headers_view() =~= st.headers.push((st.key, st.value)));
                }
            } else if c == BYTE_NEWLINE {
                is_game = seen_newline && i >= 1 && i - 1 == prev_newline;
                seen_newline = true;
                prev_newline = i;
            } else {
                if read_key {
                    key.push(c);
                } else {
                    value.push(c);
                }
            }
        } else {
            if c == BYTE_QUESTION || c == BYTE_BANG {
                // annotation marks are dropped
            } else if c == BYTE_SPACE {
                let done_move = move_buf;
                game.moves.push(done_move);
                move_buf = Vec::new();
                proof {
                    assert(game.moves_view() =~= st.moves.push(st.move_buf));
                }
            } else if c == BYTE_NEWLINE {
                seen_newline = true;
                prev_newline = i;
            } else {
                move_buf.push(c);
            }
        }
        proof {
            let stepped = PgnScan {
                is_game,
                read_key,
                seen_newline,
                prev_newline: prev_newline as int,
                key: key@,
                value: value@,
                move_buf: move_buf@,
                headers: game.headers_view(),
                moves: game.moves_view(),
            };
            assert(stepped =~~= spec_scan_step(st, c, i as int));
        }
        i += 1;
    }
    None
}

} // verus!
