//! UCI front-end: tokenizer, command dispatch and time-budget
//! computation.
//!
//! The embedding application owns stdin/stdout; this module turns one
//! line of text into tokens, executes them against the engine state, and
//! hands back structured replies for the application to print.  A line
//! that does not parse produces an error reply and is otherwise dropped;
//! nothing here panics.

use vstd::prelude::*;
use vstd::string::StringSliceAdditionalSpecFns;

use crate::rules::{
    fen_position, is_move_text, outcome_of, play_move, start_position, turn_is_white, uci_to_move,
};
use crate::evaluation::GameOutcome;
use crate::search::{Engine, InfoEvent, MAX_PLY};

verus! {

broadcast use vstd::string::is_ascii_spec_bytes;

/// Fixed allowance subtracted from a computed time budget to cover
/// input/output latency.
pub const LATENCY_MS: u64 = 100;

#[derive(Clone, Debug)]
pub enum Token {
    UCI,
    IsReady,
    SetOption,
    Register,
    UciNewGame,
    Position,
    FEN,
    StartPos,
    Moves,
    Go,
    SearchMoves,
    Ponder,
    WTime,
    BTime,
    WInc,
    BInc,
    MovesToGo,
    Depth,
    Nodes,
    Mate,
    MoveTime,
    Infinite,
    Stop,
    PonderHit,
    Quit,
    Move(String),
    Number(u64),
    FENStr(String),
    OptionName(String),
    OptionValue(String),
}

/// What the engine says back; the application renders each as one line.
#[derive(Clone, Debug)]
pub enum Reply {
    IdName,
    IdAuthor,
    OptionHash,
    OptionBook,
    OptionNn,
    UciOk,
    ReadyOk,
    Info(InfoEvent),
    BestMove(String),
    OutcomeLine(GameOutcome),
    ErrInvalidFen,
    ErrInvalidMove,
    ErrBadOption,
}

/// Byte-for-byte equality of two slices.
pub(crate) fn bytes_eq(a: &[u8], b: &[u8]) -> (r: bool)
    ensures
        r == (a@ == b@),
{
    if a.len() != b.len() {
        assert(a@.len() != b@.len());
        return false;
    }
    let n = a.len();
    let mut i: usize = 0;
    while i < n
        invariant
            n == a@.len() == b@.len(),
            i <= n,
            forall|k: int| 0 <= k < i ==> a@[k] == b@[k],
        decreases n - i,
    {
        if a[i] != b[i] {
            return false;
        }
        i += 1;
    }
    proof {
        assert(a@ =~= b@);
    }
    true
}

fn word_eq(word: &str, keyword: &str) -> (r: bool)
    ensures
        r == (word.spec_bytes() == keyword.spec_bytes()),
{
    bytes_eq(word.as_bytes(), keyword.as_bytes())
}

/// Value of the decimal digit string `s` up to index `n`.
pub open spec fn spec_digits_val(s: Seq<u8>, n: int) -> int
    decreases n,
{
    if n <= 0 {
        0
    } else {
        spec_digits_val(s, n - 1) * 10 + (s[n - 1] - 48)
    }
}

pub open spec fn spec_is_digits(s: Seq<u8>) -> bool {
    s.len() >= 1 && forall|i: int| 0 <= i < s.len() ==> 48 <= #[trigger] s[i] <= 57
}

proof fn lemma_digits_val_grows(s: Seq<u8>, k: int, n: int)
    requires
        0 <= k <= n <= s.len(),
        forall|i: int| 0 <= i < n ==> 48 <= #[trigger] s[i] <= 57,
    ensures
        spec_digits_val(s, k) <= spec_digits_val(s, n),
        spec_digits_val(s, k) >= 0,
    decreases n,
{
    if n > 0 {
        if k <= n - 1 {
            lemma_digits_val_grows(s, k, n - 1);
            assert(spec_digits_val(s, n) == spec_digits_val(s, n - 1) * 10 + (s[n - 1] - 48));
            assert(spec_digits_val(s, n - 1) * 10 >= spec_digits_val(s, n - 1)) by (
            nonlinear_arith)
                requires
                    spec_digits_val(s, n - 1) >= 0,
            ;
        } else {
            lemma_digits_val_grows(s, k - 1, n - 1);
        }
    }
}

/// Parse an unsigned decimal number: succeeds exactly on nonempty
/// all-digit strings whose value fits in 64 bits, and then returns that
/// value.
pub fn parse_u64(s: &[u8]) -> (r: Option<u64>)
    ensures
        r is Some <==> spec_is_digits(s@) && spec_digits_val(s@, s@.len() as int) <= u64::MAX,
        r is Some ==> r.unwrap() as int == spec_digits_val(s@, s@.len() as int),
{
    let n = s.len();
    if n == 0 {
        return None;
    }
    let mut value: u64 = 0;
    let mut i: usize = 0;
    while i < n
        invariant
            n == s@.len(),
            i <= n,
            forall|k: int| 0 <= k < i ==> 48 <= #[trigger] s@[k] <= 57,
            value as int == spec_digits_val(s@, i as int),
        decreases n - i,
    {
        let c = s[i];
        if c < 48 || c > 57 {
            return None;
        }
        let d: u64 = (c - 48) as u64;
        if value > (u64::MAX - d) / 10 {
            proof {
                lemma_digits_val_grows(s@, 0, i as int);
                assert(spec_digits_val(s@, i as int + 1) == spec_digits_val(s@, i as int) * 10 + (
                s@[i as int] - 48));
                assert(spec_digits_val(s@, i as int) * 10 + d > u64::MAX) by (nonlinear_arith)
                    requires
                        spec_digits_val(s@, i as int) == value as int,
                        value > (u64::MAX - d) / 10,
                        0 <= d <= 9,
                ;
                if spec_is_digits(s@) {
                    lemma_digits_val_grows(s@, i as int + 1, s@.len() as int);
                }
            }
            return None;
        }
        proof {
            lemma_digits_val_grows(s@, 0, i as int);
            assert(value * 10 + d <= u64::MAX) by (nonlinear_arith)
                requires
                    0 <= value,
                    value <= (u64::MAX - d) / 10,
                    0 <= d <= 9,
            ;
        }
        value = value * 10 + d;
        i += 1;
    }
    Some(value)
}

/// The keyword token a word denotes, or `None` for non-keywords.
#[verifier::opaque]
pub open spec fn spec_keyword(w: Seq<u8>) -> Option<Token> {
    if w == "uci".spec_bytes() {
        Some(Token::UCI)
    } else if w == "setoption".spec_bytes() {
        Some(Token::SetOption)
    } else if w == "isready".spec_bytes() {
        Some(Token::IsReady)
    } else if w == "register".spec_bytes() {
        Some(Token::Register)
    } else if w == "ucinewgame".spec_bytes() {
        Some(Token::UciNewGame)
    } else if w == "position".spec_bytes() {
        Some(Token::Position)
    } else if w == "fen".spec_bytes() {
        Some(Token::FEN)
    } else if w == "startpos".spec_bytes() {
        Some(Token::StartPos)
    } else if w == "moves".spec_bytes() {
        Some(Token::Moves)
    } else if w == "go".spec_bytes() {
        Some(Token::Go)
    } else if w == "searchmoves".spec_bytes() {
        Some(Token::SearchMoves)
    } else if w == "ponder".spec_bytes() {
        Some(Token::Ponder)
    } else if w == "wtime".spec_bytes() {
        Some(Token::WTime)
    } else if w == "btime".spec_bytes() {
        Some(Token::BTime)
    } else if w == "winc".spec_bytes() {
        Some(Token::WInc)
    } else if w == "binc".spec_bytes() {
        Some(Token::BInc)
    } else if w == "movestogo".spec_bytes() {
        Some(Token::MovesToGo)
    } else if w == "depth".spec_bytes() {
        Some(Token::Depth)
    } else if w == "nodes".spec_bytes() {
        Some(Token::Nodes)
    } else if w == "mate".spec_bytes() {
        Some(Token::Mate)
    } else if w == "movetime".spec_bytes() {
        Some(Token::MoveTime)
    } else if w == "infinite".spec_bytes() {
        Some(Token::Infinite)
    } else if w == "stop".spec_bytes() {
        Some(Token::Stop)
    } else if w == "ponderhit".spec_bytes() {
        Some(Token::PonderHit)
    } else if w == "quit".spec_bytes() {
        Some(Token::Quit)
    } else {
        None
    }
}

fn keyword_token(word: &str) -> (r: Option<Token>)
    ensures
        r is Some <==> spec_keyword(word.spec_bytes()) is Some,
        r is Some ==> r == spec_keyword(word.spec_bytes()),
{
    proof {
        reveal(spec_keyword);
    }
    if word_eq(word, "uci") {
        Some(Token::UCI)
    } else if word_eq(word, "setoption") {
        Some(Token::SetOption)
    } else if word_eq(word, "isready") {
        Some(Token::IsReady)
    } else if word_eq(word, "register") {
        Some(Token::Register)
    } else if word_eq(word, "ucinewgame") {
        Some(Token::UciNewGame)
    } else if word_eq(word, "position") {
        Some(Token::Position)
    } else if word_eq(word, "fen") {
        Some(Token::FEN)
    } else if word_eq(word, "startpos") {
        Some(Token::StartPos)
    } else if word_eq(word, "moves") {
        Some(Token::Moves)
    } else if word_eq(word, "go") {
        Some(Token::Go)
    } else if word_eq(word, "searchmoves") {
        Some(Token::SearchMoves)
    } else if word_eq(word, "ponder") {
        Some(Token::Ponder)
    } else if word_eq(word, "wtime") {
        Some(Token::WTime)
    } else if word_eq(word, "btime") {
        Some(Token::BTime)
    } else if word_eq(word, "winc") {
        Some(Token::WInc)
    } else if word_eq(word, "binc") {
        Some(Token::BInc)
    } else if word_eq(word, "movestogo") {
        Some(Token::MovesToGo)
    } else if word_eq(word, "depth") {
        Some(Token::Depth)
    } else if word_eq(word, "nodes") {
        Some(Token::Nodes)
    } else if word_eq(word, "mate") {
        Some(Token::Mate)
    } else if word_eq(word, "movetime") {
        Some(Token::MoveTime)
    } else if word_eq(word, "infinite") {
        Some(Token::Infinite)
    } else if word_eq(word, "stop") {
        Some(Token::Stop)
    } else if word_eq(word, "ponderhit") {
        Some(Token::PonderHit)
    } else if word_eq(word, "quit") {
        Some(Token::Quit)
    } else {
        None
    }
}

/// ASCII whitespace, as word separation goes.
pub open spec fn spec_is_ws(b: u8) -> bool {
    b == 32 || b == 9 || b == 10 || b == 13 || b == 11 || b == 12
}

fn is_ws(b: u8) -> (r: bool)
    ensures
        r == spec_is_ws(b),
{
    b == 32 || b == 9 || b == 10 || b == 13 || b == 11 || b == 12
}

/// Go-command parameters, with the engine's defaults.
#[derive(Clone, Copy, PartialEq, Eq, Structural, Debug)]
pub struct GoParams {
    pub wtime: u64,
    pub btime: u64,
    pub winc: u64,
    pub binc: u64,
    pub movetime: u64,
    pub depth: u64,
}

pub open spec fn spec_go_defaults() -> GoParams {
    GoParams { wtime: 1000, btime: 1000, winc: 1000, binc: 1000, movetime: 0, depth: 20 }
}

#[derive(Clone, Copy, PartialEq, Eq, Structural, Debug)]
pub enum PrevKey {
    WTime,
    BTime,
    WInc,
    BInc,
    Depth,
    MoveTime,
    Other,
}

pub open spec fn spec_prev_key(t: Token) -> PrevKey {
    match t {
        Token::WTime => PrevKey::WTime,
        Token::BTime => PrevKey::BTime,
        Token::WInc => PrevKey::WInc,
        Token::BInc => PrevKey::BInc,
        Token::Depth => PrevKey::Depth,
        Token::MoveTime => PrevKey::MoveTime,
        _ => PrevKey::Other,
    }
}

pub open spec fn spec_apply_number(acc: GoParams, prev: PrevKey, n: u64) -> GoParams {
    match prev {
        PrevKey::WTime => GoParams { wtime: n, ..acc },
        PrevKey::BTime => GoParams { btime: n, ..acc },
        PrevKey::WInc => GoParams { winc: n, ..acc },
        PrevKey::BInc => GoParams { binc: n, ..acc },
        PrevKey::Depth => GoParams { depth: n, ..acc },
        PrevKey::MoveTime => GoParams { movetime: n, ..acc },
        PrevKey::Other => GoParams { movetime: 1000, ..acc },
    }
}

/// Fold the tokens from index `i` on: a number is assigned to the slot
/// the preceding keyword names, `infinite` stands for an unbounded move
/// time, and every other token becomes the new preceding keyword.
pub open spec fn spec_go_scan(tokens: Seq<Token>, i: int, prev: PrevKey, acc: GoParams) -> GoParams
    decreases tokens.len() - i,
{
    if i < 0 || i >= tokens.len() {
        acc
    } else {
        match tokens[i] {
            Token::Number(n) => spec_go_scan(tokens, i + 1, prev, spec_apply_number(acc, prev, n)),
            Token::Infinite => spec_go_scan(
                tokens,
                i + 1,
                prev,
                GoParams { movetime: u64::MAX, ..acc },
            ),
            _ => spec_go_scan(tokens, i + 1, spec_prev_key(tokens[i]), acc),
        }
    }
}

pub open spec fn spec_go_params(tokens: Seq<Token>) -> GoParams {
    if tokens.len() == 0 {
        spec_go_defaults()
    } else {
        spec_go_scan(tokens, 1, spec_prev_key(tokens[0]), spec_go_defaults())
    }
}

/// Read the go-command parameters out of a token list.
pub fn go_params(tokens: &Vec<Token>) -> (r: GoParams)
    ensures
        r == spec_go_params(tokens@),
{
    let defaults = GoParams {
        wtime: 1000,
        btime: 1000,
        winc: 1000,
        binc: 1000,
        movetime: 0,
        depth: 20,
    };
    assert(defaults == spec_go_defaults());
    if tokens.len() == 0 {
        return defaults;
    }
    let mut prev = prev_key_of(&tokens[0]);
    let mut acc = defaults;
    let mut i: usize = 1;
    while i < tokens.len()
        invariant
            1 <= i <= tokens@.len(),
            spec_go_scan(tokens@, i as int, prev, acc) == spec_go_params(tokens@),
        decreases tokens@.len() - i,
    {
        match &tokens[i] {
            Token::Number(n) => {
                acc = apply_number(acc, prev, *n);
            },
            Token::Infinite => {
                acc = GoParams { movetime: u64::MAX, ..acc };
            },
            _ => {
                prev = prev_key_of(&tokens[i]);
            },
        }
        i += 1;
    }
    assert(spec_go_scan(tokens@, i as int, prev, acc) == acc);
    acc
}

fn prev_key_of(t: &Token) -> (r: PrevKey)
    ensures
        r == spec_prev_key(*t),
{
    match t {
        Token::WTime => PrevKey::WTime,
        Token::BTime => PrevKey::BTime,
        Token::WInc => PrevKey::WInc,
        Token::BInc => PrevKey::BInc,
        Token::Depth => PrevKey::Depth,
        Token::MoveTime => PrevKey::MoveTime,
        _ => PrevKey::Other,
    }
}

fn apply_number(acc: GoParams, prev: PrevKey, n: u64) -> (r: GoParams)
    ensures
        r == spec_apply_number(acc, prev, n),
{
    match prev {
        PrevKey::WTime => GoParams { wtime: n, ..acc },
        PrevKey::BTime => GoParams { btime: n, ..acc },
        PrevKey::WInc => GoParams { winc: n, ..acc },
        PrevKey::BInc => GoParams { binc: n, ..acc },
        PrevKey::Depth => GoParams { depth: n, ..acc },
        PrevKey::MoveTime => GoParams { movetime: n, ..acc },
        PrevKey::Other => GoParams { movetime: 1000, ..acc },
    }
}

/// The milliseconds a search may spend: the explicit move time when one
/// was given, otherwise a twentieth of the side's clock plus its
/// increment, less the latency allowance (never below zero).
pub open spec fn spec_think_time(p: GoParams, white_to_move: bool) -> u64 {
    if p.movetime != 0 {
        p.movetime
    } else {
        let base = if white_to_move {
            p.wtime as int / 20 + p.winc as int
        } else {
            p.btime as int / 20 + p.binc as int
        };
        let capped = if base > u64::MAX as int {
            u64::MAX as int
        } else {
            base
        };
        if capped >= LATENCY_MS as int {
            (capped - LATENCY_MS) as u64
        } else {
            0u64
        }
    }
}

pub fn think_time(p: &GoParams, white_to_move: bool) -> (r: u64)
    ensures
        r == spec_think_time(*p, white_to_move),
{
    if p.movetime != 0 {
        return p.movetime;
    }
    let base: u64 = if white_to_move {
        (p.wtime / 20).saturating_add(p.winc)
    } else {
        (p.btime / 20).saturating_add(p.binc)
    };
    if base >= LATENCY_MS {
        base - LATENCY_MS
    } else {
        0
    }
}


/// Spec-level image of a token: payloads as character sequences.
pub enum TokenV {
    UCI,
    IsReady,
    SetOption,
    Register,
    UciNewGame,
    Position,
    FEN,
    StartPos,
    Moves,
    Go,
    SearchMoves,
    Ponder,
    WTime,
    BTime,
    WInc,
    BInc,
    MovesToGo,
    Depth,
    Nodes,
    Mate,
    MoveTime,
    Infinite,
    Stop,
    PonderHit,
    Quit,
    Move(Seq<char>),
    Number(u64),
    FENStr(Seq<char>),
    OptionName(Seq<char>),
    OptionValue(Seq<char>),
}

pub open spec fn token_view(t: Token) -> TokenV {
    match t {
        Token::UCI => TokenV::UCI,
        Token::IsReady => TokenV::IsReady,
        Token::SetOption => TokenV::SetOption,
        Token::Register => TokenV::Register,
        Token::UciNewGame => TokenV::UciNewGame,
        Token::Position => TokenV::Position,
        Token::FEN => TokenV::FEN,
        Token::StartPos => TokenV::StartPos,
        Token::Moves => TokenV::Moves,
        Token::Go => TokenV::Go,
        Token::SearchMoves => TokenV::SearchMoves,
        Token::Ponder => TokenV::Ponder,
        Token::WTime => TokenV::WTime,
        Token::BTime => TokenV::BTime,
        Token::WInc => TokenV::WInc,
        Token::BInc => TokenV::BInc,
        Token::MovesToGo => TokenV::MovesToGo,
        Token::Depth => TokenV::Depth,
        Token::Nodes => TokenV::Nodes,
        Token::Mate => TokenV::Mate,
        Token::MoveTime => TokenV::MoveTime,
        Token::Infinite => TokenV::Infinite,
        Token::Stop => TokenV::Stop,
        Token::PonderHit => TokenV::PonderHit,
        Token::Quit => TokenV::Quit,
        Token::Move(text) => TokenV::Move(text@),
        Token::Number(n) => TokenV::Number(n),
        Token::FENStr(text) => TokenV::FENStr(text@),
        Token::OptionName(text) => TokenV::OptionName(text@),
        Token::OptionValue(text) => TokenV::OptionValue(text@),
    }
}

/// The bytes of an ASCII character sequence.
pub open spec fn spec_ascii_bytes(s: Seq<char>) -> Seq<u8> {
    Seq::new(s.len(), |i: int| s[i] as u8)
}

/// The tokenizer's state between words.
#[verifier::ext_equal]
pub struct TokScan {
    pub is_fen: bool,
    pub fen_start: int,
    pub fen_words: int,
    pub opt_state: int,
    pub tokens: Seq<TokenV>,
}

pub open spec fn spec_initial_tok_scan() -> TokScan {
    TokScan { is_fen: false, fen_start: 0, fen_words: 0, opt_state: 0, tokens: Seq::empty() }
}

/// First whitespace-or-end index at or after `k`.
pub open spec fn spec_word_close(msg: Seq<char>, k: int) -> int
    decreases msg.len() - k,
{
    if k < 0 || k >= msg.len() {
        msg.len() as int
    } else if spec_is_ws(msg[k] as u8) {
        k
    } else {
        spec_word_close(msg, k + 1)
    }
}

proof fn lemma_word_close_at(msg: Seq<char>, a: int, j: int)
    requires
        0 <= a <= j <= msg.len(),
        forall|k: int| a <= k < j ==> !spec_is_ws(#[trigger] msg[k] as u8),
        j == msg.len() || spec_is_ws(msg[j] as u8),
    ensures
        spec_word_close(msg, a) == j,
    decreases j - a,
{
    if a < j {
        lemma_word_close_at(msg, a + 1, j);
    }
}

/// The sequence without its leading whitespace.
pub open spec fn spec_trim_start(s: Seq<char>) -> Seq<char>
    decreases s.len(),
{
    if s.len() > 0 && spec_is_ws(s[0] as u8) {
        spec_trim_start(s.skip(1))
    } else {
        s
    }
}

proof fn lemma_trim_start_at(s: Seq<char>, i: int)
    requires
        0 <= i <= s.len(),
        forall|k: int| 0 <= k < i ==> spec_is_ws(#[trigger] s[k] as u8),
        i == s.len() || !spec_is_ws(s[i] as u8),
    ensures
        spec_trim_start(s) == s.subrange(i, s.len() as int),
    decreases i,
{
    if i == 0 {
        assert(spec_trim_start(s) == s);
        assert(s.subrange(0, s.len() as int) =~= s);
    } else {
        assert(s.len() > 0 && spec_is_ws(s[0] as u8));
        lemma_trim_start_at(s.skip(1), i - 1);
        assert(s.skip(1).subrange(i - 1, s.skip(1).len() as int) =~= s.subrange(i, s.len() as int));
    }
}

/// How one word `msg[i..j]` advances the tokenizer.
#[verifier::opaque]
pub open spec fn spec_tok_step(st: TokScan, msg: Seq<char>, i: int, j: int) -> TokScan {
    let w = msg.subrange(i, j);
    let wb = spec_ascii_bytes(w);
    if st.opt_state == 1 {
        TokScan { opt_state: if wb == "name".spec_bytes() { 2int } else { 0int }, ..st }
    } else if st.opt_state == 2 {
        TokScan { tokens: st.tokens.push(TokenV::OptionName(w)), opt_state: 3, ..st }
    } else if st.opt_state == 3 {
        TokScan { opt_state: if wb == "value".spec_bytes() { 4int } else { 0int }, ..st }
    } else if st.opt_state == 4 {
        TokScan { tokens: st.tokens.push(TokenV::OptionValue(w)), opt_state: 0, ..st }
    } else {
        match spec_keyword(wb) {
            Some(token) => TokScan {
                tokens: st.tokens.push(token_view(token)),
                opt_state: if wb == "setoption".spec_bytes() { 1int } else { st.opt_state },
                is_fen: if wb == "fen".spec_bytes() { true } else { st.is_fen },
                fen_start: if wb == "fen".spec_bytes() { j } else { st.fen_start },
                fen_words: if wb == "fen".spec_bytes() { 0int } else { st.fen_words },
            },
            None => {
                if st.is_fen {
                    let counted = if st.fen_words < 6 { st.fen_words + 1 } else { st.fen_words };
                    if counted == 6 {
                        let from = if st.fen_start < i { st.fen_start } else { i };
                        let trimmed = spec_trim_start(msg.subrange(from, j));
                        TokScan {
                            is_fen: false,
                            fen_words: counted,
                            tokens: st.tokens.push(TokenV::FENStr(trimmed)),
                            ..st
                        }
                    } else {
                        TokScan { fen_words: counted, ..st }
                    }
                } else if spec_is_digits(wb) && spec_digits_val(wb, wb.len() as int) <= u64::MAX {
                    TokScan {
                        tokens: st.tokens.push(
                            TokenV::Number(spec_digits_val(wb, wb.len() as int) as u64),
                        ),
                        ..st
                    }
                } else if crate::rules::move_ok(w) {
                    TokScan { tokens: st.tokens.push(TokenV::Move(w)), ..st }
                } else {
                    st
                }
            },
        }
    }
}

/// Run the tokenizer from index `i`: skip whitespace, step over each
/// word, and yield the collected tokens at the end of the line.
#[verifier::rlimit(100)]
pub open spec fn spec_tokenize(msg: Seq<char>, i: int, st: TokScan) -> Seq<TokenV>
    decreases msg.len() - i,
{
    if i < 0 || i >= msg.len() {
        st.tokens
    } else if spec_is_ws(msg[i] as u8) {
        spec_tokenize(msg, i + 1, st)
    } else {
        let j = spec_word_close(msg, i + 1);
        spec_tokenize(
            msg,
            if i < j && j <= msg.len() {
                j
            } else {
                i + 1
            },
            spec_tok_step(st, msg, i, j),
        )
    }
}


/// Some reply in the list acknowledges readiness.
pub open spec fn spec_has_ready_ok(rs: Seq<Reply>) -> bool {
    exists|j: int| 0 <= j < rs.len() && (#[trigger] rs[j]) is ReadyOk
}

/// The list carries the whole `uci` handshake: both id lines, the three
/// option advertisements, and `uciok`.
pub open spec fn spec_has_handshake(rs: Seq<Reply>) -> bool {
    &&& exists|j: int| 0 <= j < rs.len() && (#[trigger] rs[j]) is IdName
    &&& exists|j: int| 0 <= j < rs.len() && (#[trigger] rs[j]) is IdAuthor
    &&& exists|j: int| 0 <= j < rs.len() && (#[trigger] rs[j]) is OptionHash
    &&& exists|j: int| 0 <= j < rs.len() && (#[trigger] rs[j]) is OptionBook
    &&& exists|j: int| 0 <= j < rs.len() && (#[trigger] rs[j]) is OptionNn
    &&& exists|j: int| 0 <= j < rs.len() && (#[trigger] rs[j]) is UciOk
}

/// Some reply reports a best move or a finished game.
pub open spec fn spec_has_best_or_outcome(rs: Seq<Reply>) -> bool {
    exists|j: int| 0 <= j < rs.len() && ((#[trigger] rs[j]) is BestMove || rs[j] is OutcomeLine)
}

/// Tokens the dispatcher acts on (or passes over) without ever saying
/// anything back.
pub open spec fn spec_silent_token(t: Token) -> bool {
    match t {
        Token::UCI => false,
        Token::IsReady => false,
        Token::FENStr(_) => false,
        Token::Move(_) => false,
        Token::Go => false,
        Token::SetOption => false,
        _ => true,
    }
}

/// Extending a reply list preserves what it already contains.
proof fn lemma_replies_extend(pre: Seq<Reply>, now: Seq<Reply>)
    requires
        pre.len() <= now.len(),
        forall|j: int| 0 <= j < pre.len() ==> now[j] == pre[j],
    ensures
        spec_has_ready_ok(pre) ==> spec_has_ready_ok(now),
        spec_has_handshake(pre) ==> spec_has_handshake(now),
        spec_has_best_or_outcome(pre) ==> spec_has_best_or_outcome(now),
{
    if spec_has_ready_ok(pre) {
        let j = choose|j: int| 0 <= j < pre.len() && (#[trigger] pre[j]) is ReadyOk;
        assert(now[j] is ReadyOk);
    }
    if spec_has_handshake(pre) {
        let j = choose|j: int| 0 <= j < pre.len() && (#[trigger] pre[j]) is IdName;
        assert(now[j] is IdName);
        let j = choose|j: int| 0 <= j < pre.len() && (#[trigger] pre[j]) is IdAuthor;
        assert(now[j] is IdAuthor);
        let j = choose|j: int| 0 <= j < pre.len() && (#[trigger] pre[j]) is OptionHash;
        assert(now[j] is OptionHash);
        let j = choose|j: int| 0 <= j < pre.len() && (#[trigger] pre[j]) is OptionBook;
        assert(now[j] is OptionBook);
        let j = choose|j: int| 0 <= j < pre.len() && (#[trigger] pre[j]) is OptionNn;
        assert(now[j] is OptionNn);
        let j = choose|j: int| 0 <= j < pre.len() && (#[trigger] pre[j]) is UciOk;
        assert(now[j] is UciOk);
    }
    if spec_has_best_or_outcome(pre) {
        let j = choose|j: int|
            0 <= j < pre.len() && ((#[trigger] pre[j]) is BestMove || pre[j] is OutcomeLine);
        assert(now[j] is BestMove || now[j] is OutcomeLine);
    }
}

/// The UCI session state: the engine, the current root position, and a
/// count of the moves played through `go`.
pub struct UciProtocol {
    chess_engine: Engine,
    position: shakmaty::Chess,
    n_moves: u16,
}

impl UciProtocol {
    pub closed spec fn wf(&self) -> bool {
        self.chess_engine.wf()
    }

    pub fn new() -> (r: UciProtocol)
        ensures
            r.wf(),
    {
        UciProtocol { chess_engine: Engine::new(), position: start_position(), n_moves: 0 }
    }

    fn new_game(&mut self)
        requires
            old(self).wf(),
        ensures
            final(self).wf(),
    {
        self.n_moves = 0;
        self.chess_engine.new_game();
    }

    /// The single-threaded loop polls its deadline inside `go`; a `stop`
    /// line can only arrive between searches, where there is nothing
    /// left to interrupt.
    fn stop_search(&mut self)
        requires
            old(self).wf(),
        ensures
            final(self).wf(),
    {
    }

    /// Tokenize one line, exactly as `spec_tokenize` describes: keywords
    /// become their tokens; after `fen`, the next six words form one FEN
    /// token (the dispatcher reports it if it does not validate); other
    /// words become numbers or moves when they parse as such, and are
    /// dropped otherwise; `setoption` consumes `name <id> value <value>`.
    /// A non-ASCII line produces no tokens.
    #[verifier::rlimit(100)]
    #[verifier::spinoff_prover]
    pub fn parse_message(&self, message: &str) -> (r: Vec<Token>)
        ensures
            message.is_ascii() ==> r@.map_values(|t: Token| token_view(t)) == spec_tokenize(
                message@,
                0,
                spec_initial_tok_scan(),
            ),
            !message.is_ascii() ==> r@.len() == 0,
    {
        let mut tokens: Vec<Token> = Vec::new();
        if !message.is_ascii() {
            return tokens;
        }
        let n: usize = message.unicode_len();
        let mut i: usize = 0;
        let mut is_fen = false;
        let mut fen_start: usize = 0;
        let mut fen_words: u8 = 0;
        // 0 = ordinary; 1 = expect "name"; 2 = expect the option name;
        // 3 = expect "value"; 4 = expect the option value.
        let mut opt_state: u8 = 0;
        proof {
            let st0 = TokScan {
                is_fen,
                fen_start: fen_start as int,
                fen_words: fen_words as int,
                opt_state: opt_state as int,
                tokens: tokens@.map_values(|t: Token| token_view(t)),
            };
            assert(st0 =~~= spec_initial_tok_scan());
        }
        while i < n
            invariant
                message.is_ascii(),
                n == message@.len(),
                i <= n,
                fen_start <= n,
                spec_tokenize(
                    message@,
                    i as int,
                    TokScan {
                        is_fen,
                        fen_start: fen_start as int,
                        fen_words: fen_words as int,
                        opt_state: opt_state as int,
                        tokens: tokens@.map_values(|t: Token| token_view(t)),
                    },
                ) == spec_tokenize(message@, 0, spec_initial_tok_scan()),
            decreases n - i,
        {
            let ghost st = TokScan {
                is_fen,
                fen_start: fen_start as int,
                fen_words: fen_words as int,
                opt_state: opt_state as int,
                tokens: tokens@.map_values(|t: Token| token_view(t)),
            };
            let b = message.get_ascii(i);
            if is_ws(b) {
                i += 1;
                continue ;
            }
            let mut j: usize = i + 1;
            while j < n
                invariant
                    message.is_ascii(),
                    n == message@.len(),
                    i < j <= n,
                    forall|k: int|
                        i < k < j ==> !spec_is_ws(#[trigger] message@[k] as u8),
                ensures
                    i < j <= n,
                    forall|k: int|
                        i < k < j ==> !spec_is_ws(#[trigger] message@[k] as u8),
                    j == n || spec_is_ws(message@[j as int] as u8),
                decreases n - j,
            {
                if is_ws(message.get_ascii(j)) {
                    break ;
                }
                j += 1;
            }
            proof {
                lemma_word_close_at(message@, i as int + 1, j as int);
            }
            let word: &str = message.substring_ascii(i, j);
            proof {
                assert(word.spec_bytes() =~= spec_ascii_bytes(word@));
            }
            if opt_state == 1 {
                opt_state = if word_eq(word, "name") {
                    2
                } else {
                    0
                };
            } else if opt_state == 2 {
                tokens.push(Token::OptionName(word.to_owned()));
                opt_state = 3;
                proof {
                    assert(tokens@.map_values(|t: Token| token_view(t)) =~= st.tokens.push(
                        TokenV::OptionName(word@),
                    ));
                }
            } else if opt_state == 3 {
                opt_state = if word_eq(word, "value") {
                    4
                } else {
                    0
                };
            } else if opt_state == 4 {
                tokens.push(Token::OptionValue(word.to_owned()));
                opt_state = 0;
                proof {
                    assert(tokens@.map_values(|t: Token| token_view(t)) =~= st.tokens.push(
                        TokenV::OptionValue(word@),
                    ));
                }
            } else {
                match keyword_token(word) {
                    Some(token) => {
                        let starts_option = word_eq(word, "setoption");
                        let starts_fen = word_eq(word, "fen");
                        let ghost pushed = token_view(token);
                        tokens.push(token);
                        proof {
                            assert(tokens@.map_values(|t: Token| token_view(t)) =~= st.tokens.push(
                                pushed,
                            ));
                        }
                        if starts_option {
                            opt_state = 1;
                        }
                        if starts_fen {
                            is_fen = true;
                            fen_start = j;
                            fen_words = 0;
                        }
                    },
                    None => {
                        if is_fen {
                            // Words after `fen` accumulate until all six
                            // FEN fields are in hand; the record goes out
                            // as one token, and the dispatcher reports it
                            // if it does not validate.
                            fen_words = if fen_words < 6 {
                                fen_words + 1
                            } else {
                                fen_words
                            };
                            if fen_words == 6 {
                                let from = if fen_start < i {
                                    fen_start
                                } else {
                                    i
                                };
                                let candidate: &str = message.substring_ascii(from, j);
                                let trimmed = trim_ascii_start(candidate);
                                tokens.push(Token::FENStr(trimmed.to_owned()));
                                proof {
                                    assert(tokens@.map_values(|t: Token| token_view(t))
                                        =~= st.tokens.push(TokenV::FENStr(trimmed@)));
                                }
                                is_fen = false;
                            }
                        } else {
                            match parse_u64(word.as_bytes()) {
                                Some(number) => {
                                    tokens.push(Token::Number(number));
                                    proof {
                                        assert(tokens@.map_values(|t: Token| token_view(t))
                                            =~= st.tokens.push(TokenV::Number(number)));
                                    }
                                },
                                None => {
                                    if is_move_text(word) {
                                        tokens.push(Token::Move(word.to_owned()));
                                        proof {
                                            assert(tokens@.map_values(|t: Token| token_view(t))
                                                =~= st.tokens.push(TokenV::Move(word@)));
                                        }
                                    }
                                },
                            }
                        }
                    },
                }
            }
            proof {
                let stepped = TokScan {
                    is_fen,
                    fen_start: fen_start as int,
                    fen_words: fen_words as int,
                    opt_state: opt_state as int,
                    tokens: tokens@.map_values(|t: Token| token_view(t)),
                };
                reveal(spec_tok_step);
                assert(stepped =~~= spec_tok_step(st, message@, i as int, j as int));
            }
            i = j;
        }
        tokens
    }

    /// Execute one line's tokens against the engine state, collecting
    /// the replies to print: `isready` is acknowledged, `uci` answers
    /// with the full handshake, every `go` ends in a best-move or
    /// outcome report, and a line of silent tokens says nothing.
    pub fn execute_command(&mut self, tokens: &Vec<Token>) -> (r: Vec<Reply>)
        requires
            old(self).wf(),
        ensures
            final(self).wf(),
            (exists|k: int| 0 <= k < tokens@.len() && (#[trigger] tokens@[k]) is IsReady)
                ==> spec_has_ready_ok(r@),
            (exists|k: int| 0 <= k < tokens@.len() && (#[trigger] tokens@[k]) is UCI)
                ==> spec_has_handshake(r@),
            (exists|k: int| 0 <= k < tokens@.len() && (#[trigger] tokens@[k]) is Go)
                ==> spec_has_best_or_outcome(r@),
            (forall|k: int| 0 <= k < tokens@.len() ==> spec_silent_token(#[trigger] tokens@[k]))
                ==> r@.len() == 0,
    {
        let mut replies: Vec<Reply> = Vec::new();
        let mut i: usize = 0;
        while i < tokens.len()
            invariant
                self.wf(),
                i <= tokens@.len(),
                (exists|k: int| 0 <= k < i && (#[trigger] tokens@[k]) is IsReady)
                    ==> spec_has_ready_ok(replies@),
                (exists|k: int| 0 <= k < i && (#[trigger] tokens@[k]) is UCI)
                    ==> spec_has_handshake(replies@),
                (exists|k: int| 0 <= k < i && (#[trigger] tokens@[k]) is Go)
                    ==> spec_has_best_or_outcome(replies@),
                (forall|k: int| 0 <= k < i ==> spec_silent_token(#[trigger] tokens@[k]))
                    ==> replies@.len() == 0,
            decreases tokens@.len() - i,
        {
            let ghost pre = replies@;
            match &tokens[i] {
                Token::UCI => {
                    replies.push(Reply::IdName);
                    replies.push(Reply::IdAuthor);
                    replies.push(Reply::OptionHash);
                    replies.push(Reply::OptionBook);
                    replies.push(Reply::OptionNn);
                    replies.push(Reply::UciOk);
                    proof {
                        assert(replies@[pre.len() as int + 0] is IdName);
                        assert(replies@[pre.len() as int + 1] is IdAuthor);
                        assert(replies@[pre.len() as int + 2] is OptionHash);
                        assert(replies@[pre.len() as int + 3] is OptionBook);
                        assert(replies@[pre.len() as int + 4] is OptionNn);
                        assert(replies@[pre.len() as int + 5] is UciOk);
                        assert(spec_has_handshake(replies@));
                    }
                },
                Token::IsReady => {
                    replies.push(Reply::ReadyOk);
                    proof {
                        assert(replies@[pre.len() as int] is ReadyOk);
                        assert(spec_has_ready_ok(replies@));
                    }
                },
                Token::UciNewGame => self.new_game(),
                Token::FENStr(text) => {
                    match fen_position(text.as_str()) {
                        Some(position) => {
                            self.position = position;
                        },
                        None => replies.push(Reply::ErrInvalidFen),
                    }
                },
                Token::StartPos => {
                    self.position = start_position();
                },
                Token::Move(text) => {
                    let mut applied = false;
                    match uci_to_move(&self.position, text.as_str()) {
                        Some(m) => {
                            match play_move(&self.position, &m) {
                                Some(position) => {
                                    self.position = position;
                                    applied = true;
                                },
                                None => {},
                            }
                        },
                        None => {},
                    }
                    if !applied {
                        replies.push(Reply::ErrInvalidMove);
                    }
                },
                Token::Go => {
                    let mut go_replies = self.handle_go(tokens);
                    let ghost gv = go_replies@;
                    replies.append(&mut go_replies);
                    proof {
                        assert(replies@[pre.len() as int + gv.len() - 1] == gv[gv.len() - 1]);
                        assert(spec_has_best_or_outcome(replies@));
                    }
                },
                Token::Stop => self.stop_search(),
                Token::SetOption => {
                    match self.set_option(tokens) {
                        Some(reply) => replies.push(reply),
                        None => {},
                    }
                },
                _ => {},
            }
            proof {
                lemma_replies_extend(pre, replies@);
            }
            i += 1;
        }
        replies
    }

    /// Run a search with the time and depth budget the go-command names,
    /// then report the best move, or the outcome on a finished game: the
    /// reply list always ends with one or the other.
    fn handle_go(&mut self, tokens: &Vec<Token>) -> (r: Vec<Reply>)
        requires
            old(self).wf(),
        ensures
            final(self).wf(),
            r@.len() > 0,
            r@[r@.len() - 1] is BestMove || r@[r@.len() - 1] is OutcomeLine,
    {
        let white = turn_is_white(&self.position);
        let params = go_params(tokens);
        let max_depth: u8 = if params.depth > MAX_PLY as u64 {
            MAX_PLY
        } else {
            params.depth as u8
        };
        let budget = think_time(&params, white);
        let (_, uci_text, _) = self.chess_engine.find_best_move(&self.position, budget, max_depth);
        let mut replies: Vec<Reply> = Vec::new();
        let infos = self.chess_engine.take_info();
        let mut k: usize = 0;
        while k < infos.len()
            decreases infos@.len() - k,
        {
            replies.push(Reply::Info(infos[k]));
            k += 1;
        }
        self.n_moves = self.n_moves.saturating_add(1);
        match outcome_of(&self.position) {
            GameOutcome::Ongoing => {
                match uci_to_move(&self.position, uci_text.as_str()) {
                    Some(m) => {
                        match play_move(&self.position, &m) {
                            Some(position) => {
                                self.position = position;
                            },
                            None => {},
                        }
                    },
                    None => {},
                }
                replies.push(Reply::BestMove(uci_text));
            },
            outcome => replies.push(Reply::OutcomeLine(outcome)),
        }
        replies
    }

    /// The engine's current option settings.
    pub closed spec fn spec_opts(&self) -> crate::search::EngineOpts {
        self.chess_engine.spec_opts()
    }

    /// Apply a `setoption` line: `Hash` resizes the table, `Book` and
    /// `NN` toggle their features.  A malformed line or value reports an
    /// error and leaves every option as it was.
    fn set_option(&mut self, tokens: &Vec<Token>) -> (r: Option<Reply>)
        requires
            old(self).wf(),
        ensures
            final(self).wf(),
            r is Some ==> final(self).spec_opts() == old(self).spec_opts(),
    {
        if tokens.len() < 2 {
            return Some(Reply::ErrBadOption);
        }
        let name: &String = match &tokens[1] {
            Token::OptionName(name) => name,
            _ => {
                return Some(Reply::ErrBadOption);
            },
        };
        let value: &String = match &tokens[tokens.len() - 1] {
            Token::OptionValue(value) => value,
            _ => {
                return Some(Reply::ErrBadOption);
            },
        };
        if word_eq(name.as_str(), "Hash") {
            match parse_u64(value.as_str().as_bytes()) {
                Some(megabytes) => {
                    if 1 <= megabytes && megabytes <= crate::tt::MAX_HASH_MB as u64 {
                        self.chess_engine.set_hash(megabytes as usize);
                        None
                    } else {
                        Some(Reply::ErrBadOption)
                    }
                },
                None => Some(Reply::ErrBadOption),
            }
        } else if word_eq(name.as_str(), "Book") {
            self.chess_engine.set_book(parse_bool(value.as_str(), true));
            None
        } else if word_eq(name.as_str(), "NN") {
            self.chess_engine.set_nn(parse_bool(value.as_str(), false));
            None
        } else {
            Some(Reply::ErrBadOption)
        }
    }

    /// Zobrist hash of the current root position.
    pub fn position_key(&self) -> u64 {
        crate::rules::zobrist_key(&self.position)
    }

    /// Tokenize and execute one line: an `isready` among the line's
    /// tokens is acknowledged, a `uci` answered with the handshake, and
    /// a `go` with a best-move or outcome report.
    pub fn put(&mut self, message: &str) -> (r: Vec<Reply>)
        requires
            old(self).wf(),
        ensures
            final(self).wf(),
            (message.is_ascii() && exists|k: int|
                0 <= k < spec_tokenize(message@, 0, spec_initial_tok_scan()).len() && (
                #[trigger] spec_tokenize(message@, 0, spec_initial_tok_scan())[k]) is IsReady)
                ==> spec_has_ready_ok(r@),
            (message.is_ascii() && exists|k: int|
                0 <= k < spec_tokenize(message@, 0, spec_initial_tok_scan()).len() && (
                #[trigger] spec_tokenize(message@, 0, spec_initial_tok_scan())[k]) is UCI)
                ==> spec_has_handshake(r@),
            (message.is_ascii() && exists|k: int|
                0 <= k < spec_tokenize(message@, 0, spec_initial_tok_scan()).len() && (
                #[trigger] spec_tokenize(message@, 0, spec_initial_tok_scan())[k]) is Go)
                ==> spec_has_best_or_outcome(r@),
    {
        let tokens = self.parse_message(message);
        proof {
            if message.is_ascii() {
                let toks = spec_tokenize(message@, 0, spec_initial_tok_scan());
                assert(tokens@.map_values(|t: Token| token_view(t)) == toks);
                assert forall|k: int| 0 <= k < toks.len() implies ((#[trigger] toks[k]) is IsReady
                    == (tokens@[k] is IsReady)) && (toks[k] is UCI == (tokens@[k] is UCI)) && (
                toks[k] is Go == (tokens@[k] is Go)) by {
                    assert(toks[k] == tokens@.map_values(|t: Token| token_view(t))[k]);
                    assert(toks[k] == token_view(tokens@[k]));
                };
            }
        }
        self.execute_command(&tokens)
    }
}

/// `true`/`false`, anything else falling back to the option's default.
pub open spec fn spec_parse_bool(s: Seq<u8>, default: bool) -> bool {
    if s == "true".spec_bytes() {
        true
    } else if s == "false".spec_bytes() {
        false
    } else {
        default
    }
}

fn parse_bool(value: &str, default: bool) -> (r: bool)
    ensures
        r == spec_parse_bool(value.spec_bytes(), default),
{
    if word_eq(value, "true") {
        true
    } else if word_eq(value, "false") {
        false
    } else {
        default
    }
}

/// Drop leading ASCII whitespace.
fn trim_ascii_start(s: &str) -> (r: &str)
    requires
        s.is_ascii(),
    ensures
        r.is_ascii(),
        r@ == spec_trim_start(s@),
{
    let n: usize = s.unicode_len();
    let mut i: usize = 0;
    while i < n
        invariant
            s.is_ascii(),
            n == s@.len(),
            i <= n,
            forall|k: int| 0 <= k < i ==> spec_is_ws(#[trigger] s@[k] as u8),
        ensures
            i <= n,
            forall|k: int| 0 <= k < i ==> spec_is_ws(#[trigger] s@[k] as u8),
            i == n || !spec_is_ws(s@[i as int] as u8),
        decreases n - i,
    {
        if !is_ws(s.get_ascii(i)) {
            break ;
        }
        i += 1;
    }
    proof {
        lemma_trim_start_at(s@, i as int);
    }
    s.substring_ascii(i, n)
}

} // verus!
