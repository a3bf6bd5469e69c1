//! The search engine: iterative-deepening negamax with alpha-beta
//! pruning, aspiration windows, null-move reduction, futility pruning, a
//! late-move reduction, a quiescence extension, and a transposition
//! table, all under a cooperative wall-clock deadline.
//!
//! Score convention is pure negamax: every recursion negates the window
//! and the returned score; the side-to-move sign lives in the evaluator.
//! A deadline that has expired makes every search call return `None`
//! without touching the table; the driver then keeps the last completed
//! depth's result.

use vstd::prelude::*;

use crate::book::{random_below, Book};
use crate::clock::Deadline;
use crate::evaluation::{evaluate, PositionFacts, NEG_INF, POS_INF};
use crate::mv::{null_move, null_mv, Mv};
use crate::neural_eval::{predict_facts, NnModel};
use crate::ordering::order_moves;
use crate::rules::{
    is_check, is_checkmate, labelled_legal_moves, move_model, move_uci_string, observe, play_move,
    swap_sides, uci_to_move, zobrist_key,
};
use crate::tt::{EvaluationType, TranspositionTable};

verus! {

/// First half-width of the aspiration window, in centipawns.
pub const INITIAL_WINDOW_SIZE: i16 = 15;

/// Null-move depth reduction.
pub const R: u8 = 3;

/// Move index above which late-move reduction may apply.
pub const LMR_CUTOFF: usize = 0;

/// Late-move reduction applies below this remaining depth.
pub const LMR_DEPTH: u8 = 2;

/// Futility margin at pre-leaf nodes, in centipawns.
pub const FUTILITY_MARGIN: i16 = 100;

/// Delta-pruning margin in quiescence: roughly a queen.
pub const DELTA_MARGIN: i16 = 975;

/// Delta-pruning margin when the side to move has a pawn one rank from
/// promotion.
pub const DELTA_MARGIN_PROMOTING: i16 = 975 + 775;

/// Hard recursion ceiling; a branch this deep is scored statically.
pub const MAX_PLY: u8 = 100;

/// Widest aspiration half-window; one step at this width spans the whole
/// score range.
pub const MAX_WINDOW: i32 = 50_000;

#[derive(Clone, Copy, PartialEq, Eq, Structural, Debug)]
pub struct EngineOpts {
    pub use_book: bool,
    pub use_nn: bool,
}

impl EngineOpts {
    pub fn new() -> (r: EngineOpts)
        ensures
            r.use_book == true,
            r.use_nn == false,
    {
        EngineOpts { use_book: true, use_nn: false }
    }
}

/// What the driver reports while thinking; the embedding application
/// renders these as `info` lines.
#[derive(Clone, Copy, PartialEq, Eq, Structural, Debug)]
pub enum InfoEvent {
    Depth { nodes: u64, nps: u64, depth: u8 },
    ScoreCp { cp: i16 },
    ScoreMate { plies: i16 },
}

pub open spec fn spec_clamp_score(v: int) -> int {
    if v > POS_INF as int {
        POS_INF as int
    } else if v < NEG_INF as int {
        NEG_INF as int
    } else {
        v
    }
}

fn clamp_score(v: i32) -> (r: i16)
    ensures
        r as int == spec_clamp_score(v as int),
{
    if v > POS_INF as i32 {
        POS_INF
    } else if v < NEG_INF as i32 {
        NEG_INF
    } else {
        v as i16
    }
}

/// Whether the side to move has a pawn one rank from promotion.
pub open spec fn spec_is_promoting(f: PositionFacts) -> bool {
    if f.white_to_move {
        f.boards[0] & 0x00ff_0000_0000_0000u64 != 0
    } else {
        f.boards[6] & 0xff00u64 != 0
    }
}

fn is_promoting(facts: &PositionFacts) -> (r: bool)
    ensures
        r == spec_is_promoting(*facts),
{
    if facts.white_to_move {
        facts.boards[0] & 0x00ff_0000_0000_0000u64 != 0
    } else {
        facts.boards[6] & 0xff00u64 != 0
    }
}

/// Search extension for a move: promotions and moves that give check
/// get one extra ply, but only close to the leaves.
pub open spec fn spec_extension(m: Mv, gives_check: bool, depth_left: u8) -> u8 {
    if depth_left >= 3 {
        0
    } else if m.spec_is_promotion() {
        1
    } else if gives_check {
        1
    } else {
        0
    }
}

fn calculate_extension(m: &Mv, gives_check: bool, depth_left: u8) -> (r: u8)
    ensures
        r == spec_extension(*m, gives_check, depth_left),
        r <= 1,
{
    if depth_left >= 3 {
        return 0;
    }
    if m.is_promotion() {
        return 1;
    }
    if gives_check {
        return 1;
    }
    0
}

/// Quiescence search: stand on the static evaluation, with delta pruning,
/// and explore only moves that are at once captures, promotions and
/// immediate mates (the engine's deliberately narrow quiescence filter;
/// stand-pat carries the rest).  Returns `None` exactly on deadline
/// expiry; never writes the table.
pub fn quiescence(
    position: &shakmaty::Chess,
    alpha: i16,
    beta: i16,
    depth_from_root: u8,
    tt: &TranspositionTable,
    nodes_searched: u64,
    deadline: &mut Deadline,
    opts: &EngineOpts,
    nn: &NnModel,
) -> (r: Option<(i16, u64)>)
    requires
        tt.wf(),
        nn.wf(),
        NEG_INF <= alpha,
        alpha < beta,
        beta <= POS_INF,
        depth_from_root <= MAX_PLY,
    ensures
        final(deadline).budget() == old(deadline).budget(),
        old(deadline).spec_expired() ==> final(deadline).spec_expired(),
        old(deadline).spec_expired() ==> r is None,
        r is None ==> final(deadline).spec_expired(),
        r is Some ==> alpha <= r.unwrap().0 <= beta,
        r is Some ==> r.unwrap().1 >= nodes_searched,
        r is Some && nodes_searched < u64::MAX ==> r.unwrap().1 > nodes_searched,
    decreases MAX_PLY - depth_from_root,
{
    if deadline.poll() {
        return None;
    }
    let nodes = nodes_searched.saturating_add(1);
    let facts = observe(position);
    let mut stand_pat = crate::evaluation::evaluate_facts(&facts);
    if opts.use_nn && -300 <= stand_pat && stand_pat <= 300 {
        let adjustment = predict_facts(&facts, nn);
        let widened: i32 = stand_pat as i32 + adjustment as i32;
        stand_pat = if widened > crate::evaluation::EVAL_CLAMP as i32 {
            crate::evaluation::EVAL_CLAMP
        } else if widened < -(crate::evaluation::EVAL_CLAMP as i32) {
            -crate::evaluation::EVAL_CLAMP
        } else {
            widened as i16
        };
    }
    if stand_pat >= beta {
        return Some((beta, nodes));
    }
    let futility_margin: i16 = if is_promoting(&facts) {
        DELTA_MARGIN_PROMOTING
    } else {
        DELTA_MARGIN
    };
    if stand_pat < alpha - futility_margin {
        return Some((alpha, nodes));
    }
    let mut cur_alpha = alpha;
    if cur_alpha < stand_pat {
        cur_alpha = stand_pat;
    }
    if depth_from_root >= MAX_PLY {
        return Some((cur_alpha, nodes));
    }
    let zobrist = zobrist_key(position);
    let pairs = labelled_legal_moves(position);
    let ordered = order_moves(pairs, tt, zobrist);
    let mut nodes = nodes;
    let mut i: usize = 0;
    while i < ordered.len()
        invariant
            tt.wf(),
            nn.wf(),
            alpha <= cur_alpha,
            cur_alpha < beta,
            beta <= POS_INF,
            NEG_INF <= alpha,
            depth_from_root < MAX_PLY,
            nodes >= nodes_searched,
            nodes_searched < u64::MAX ==> nodes > nodes_searched,
            deadline.budget() == old(deadline).budget(),
            !old(deadline).spec_expired(),
        decreases ordered@.len() - i,
    {
        let (mv, m) = ordered[i];
        if mv.is_capture() && mv.is_promotion() {
            if let Some(new_position) = play_move(position, &m) {
                if is_checkmate(&new_position) {
                    let sub = quiescence(
                        &new_position,
                        -beta,
                        -cur_alpha,
                        depth_from_root + 1,
                        tt,
                        nodes,
                        deadline,
                        opts,
                        nn,
                    );
                    let (child_score, child_nodes) = match sub {
                        Some(t) => t,
                        None => {
                            return None;
                        },
                    };
                    nodes = child_nodes;
                    let evaluation = -child_score;
                    if evaluation >= beta {
                        return Some((beta, nodes));
                    }
                    if evaluation > cur_alpha {
                        cur_alpha = evaluation;
                    }
                }
            }
        }
        i += 1;
    }
    Some((cur_alpha, nodes))
}

/// Negamax alpha-beta search.  Returns `None` exactly on deadline
/// expiry (an absent result comes only from a poll that latched expiry,
/// and a call entered with an expired deadline leaves the table
/// untouched).  On success: the score (fail-hard: inside the window,
/// except that a table hit answers by the probe discipline and that
/// terminal or depth-capped nodes report the static evaluation under the
/// sentinel move), the best move, and a node count that strictly grew.
pub fn search(
    position: &shakmaty::Chess,
    alpha: i16,
    beta: i16,
    depth_left: u8,
    depth_from_root: u8,
    tt: &mut TranspositionTable,
    nodes_searched: u64,
    deadline: &mut Deadline,
    opts: &EngineOpts,
    nn: &NnModel,
) -> (r: Option<(i16, Mv, u64)>)
    requires
        old(tt).wf(),
        nn.wf(),
        NEG_INF <= alpha,
        alpha < beta,
        beta <= POS_INF,
        depth_left <= MAX_PLY,
        depth_from_root <= MAX_PLY,
    ensures
        final(tt).wf(),
        final(tt).slot_count() == old(tt).slot_count(),
        final(deadline).budget() == old(deadline).budget(),
        old(deadline).spec_expired() ==> final(deadline).spec_expired(),
        old(deadline).spec_expired() ==> r is None && *final(tt) == *old(tt),
        r is None ==> final(deadline).spec_expired(),
        r is Some ==> NEG_INF <= r.unwrap().0 <= POS_INF,
        r is Some ==> r.unwrap().2 >= nodes_searched,
        r is Some && nodes_searched < u64::MAX ==> r.unwrap().2 > nodes_searched,
        r is Some ==> alpha <= r.unwrap().0 <= beta || r.unwrap().1 == null_mv() || (exists|k: u64|
            old(tt).spec_probe(k, depth_left, alpha, beta) == Some(
                (r.unwrap().1, r.unwrap().0),
            )),
    decreases MAX_PLY - depth_from_root,
{
    if deadline.poll() {
        return None;
    }
    let nodes = nodes_searched.saturating_add(1);
    if depth_from_root >= MAX_PLY {
        return Some((evaluate(position), null_move(), nodes));
    }
    let zobrist = zobrist_key(position);

    if let Some((table_move, table_score)) = tt.probe_table(&zobrist, depth_left, alpha, beta) {
        proof {
            assert(old(tt).spec_probe(zobrist, depth_left, alpha, beta) == Some(
                (table_move, table_score),
            ));
        }
        return Some((table_score, table_move, nodes));
    }

    if depth_left == 0 {
        let sub = quiescence(
            position,
            alpha,
            beta,
            depth_from_root + 1,
            tt,
            nodes,
            deadline,
            opts,
            nn,
        );
        let (evaluation, new_nodes) = match sub {
            Some(t) => t,
            None => {
                return None;
            },
        };
        tt.insert(zobrist, null_move(), evaluation, depth_left, EvaluationType::Exact);
        return Some((evaluation, null_move(), new_nodes));
    }
    let in_check = is_check(position);

    if depth_left == 1 && depth_from_root > 1 {
        let static_eval = evaluate(position);
        if static_eval + FUTILITY_MARGIN <= alpha && !in_check {
            let sub = quiescence(
                position,
                alpha,
                beta,
                depth_from_root + 1,
                tt,
                nodes,
                deadline,
                opts,
                nn,
            );
            let (evaluation, new_nodes) = match sub {
                Some(t) => t,
                None => {
                    return None;
                },
            };
            tt.insert(zobrist, null_move(), evaluation, depth_left, EvaluationType::Exact);
            return Some((evaluation, null_move(), new_nodes));
        }
    }
    let pairs = labelled_legal_moves(position);
    let ordered = order_moves(pairs, tt, zobrist);
    let mut nodes = nodes;

    if !in_check && depth_left >= 3 {
        if let Some(swapped) = swap_sides(position) {
            let reduced: u8 = if depth_left >= R + 1 {
                depth_left - R - 1
            } else {
                0
            };
            let sub = search(
                &swapped,
                -beta,
                1 - beta,
                reduced,
                depth_from_root + 1,
                tt,
                nodes,
                deadline,
                opts,
                nn,
            );
            let (child_score, _, new_nodes) = match sub {
                Some(t) => t,
                None => {
                    return None;
                },
            };
            nodes = new_nodes;
            let evaluation = -child_score;
            if evaluation >= beta {
                return Some((beta, null_move(), nodes));
            }
        }
    }

    if ordered.len() == 0 {
        return Some((evaluate(position), null_move(), nodes));
    }

    let mut cur_alpha = alpha;
    let mut best_move = ordered[0].0;
    let mut i: usize = 0;
    while i < ordered.len()
        invariant
            tt.wf(),
            tt.slot_count() == old(tt).slot_count(),
            nn.wf(),
            NEG_INF <= alpha,
            alpha <= cur_alpha,
            cur_alpha < beta,
            beta <= POS_INF,
            1 <= depth_left <= MAX_PLY,
            depth_from_root < MAX_PLY,
            nodes >= nodes_searched,
            nodes_searched < u64::MAX ==> nodes > nodes_searched,
            deadline.budget() == old(deadline).budget(),
            !old(deadline).spec_expired(),
        decreases ordered@.len() - i,
    {
        let (mv, m) = ordered[i];
        if let Some(new_position) = play_move(position, &m) {
            let gives_check = is_check(&new_position);
            let extension = calculate_extension(&mv, gives_check, depth_left);
            let lmr_depth: u8 = if depth_left < LMR_DEPTH && gives_check && extension == 0
                && !mv.is_capture() && i > LMR_CUTOFF {
                let kept = depth_left - 1;
                (if kept >= 1 {
                    kept
                } else {
                    1
                }) - 1
            } else {
                depth_left - 1
            };
            let sub = search(
                &new_position,
                -beta,
                -cur_alpha,
                lmr_depth + extension,
                depth_from_root + 1,
                tt,
                nodes,
                deadline,
                opts,
                nn,
            );
            let (child_score, _, new_nodes) = match sub {
                Some(t) => t,
                None => {
                    return None;
                },
            };
            nodes = new_nodes;
            let evaluation = -child_score;
            if evaluation >= beta {
                tt.insert(zobrist, mv, beta, depth_left, EvaluationType::Beta);
                return Some((beta, mv, nodes));
            }
            if evaluation > cur_alpha {
                cur_alpha = evaluation;
                best_move = mv;
            }
        }
        i += 1;
    }
    tt.insert(zobrist, best_move, cur_alpha, depth_left, EvaluationType::Alpha);
    Some((cur_alpha, best_move, nodes))
}

/// Full-window search from the root: the best move and its score at the
/// given depth (with the default options and no network), or `None` when
/// the clock ran out first.
pub fn root_search(
    position: &shakmaty::Chess,
    depth_left: u8,
    tt: &mut TranspositionTable,
    max_time: u64,
) -> (r: Option<(Mv, i16)>)
    requires
        old(tt).wf(),
        depth_left <= MAX_PLY,
    ensures
        final(tt).wf(),
        final(tt).slot_count() == old(tt).slot_count(),
        r is Some ==> NEG_INF <= r.unwrap().1 <= POS_INF,
{
    let mut deadline = Deadline::new(max_time);
    let opts = EngineOpts::new();
    let nn = NnModel::empty();
    match search(
        position,
        NEG_INF,
        POS_INF,
        depth_left,
        0,
        tt,
        0,
        &mut deadline,
        &opts,
        &nn,
    ) {
        Some((evaluation, best_move, _)) => Some((best_move, evaluation)),
        None => None,
    }
}

/// Plain negamax to a fixed depth, without deadline or pruning beyond
/// alpha-beta: resolves the actual mating move once the main search has
/// reported a mate score.
fn mate_search(
    position: &shakmaty::Chess,
    alpha: i16,
    beta: i16,
    depth_left: u8,
    depth_from_root: u8,
    tt: &mut TranspositionTable,
) -> (r: (Mv, i16))
    requires
        old(tt).wf(),
        NEG_INF <= alpha,
        alpha < beta,
        beta <= POS_INF,
    ensures
        final(tt).wf(),
        final(tt).slot_count() == old(tt).slot_count(),
        NEG_INF <= r.1 <= POS_INF,
    decreases depth_left,
{
    let zobrist = zobrist_key(position);
    if depth_left == 0 {
        return (null_move(), evaluate(position));
    }
    let pairs = labelled_legal_moves(position);
    let ordered = order_moves(pairs, tt, zobrist);
    if ordered.len() == 0 {
        return (null_move(), evaluate(position));
    }
    let mut cur_alpha = alpha;
    let mut best_move = ordered[0].0;
    let mut i: usize = 0;
    while i < ordered.len()
        invariant
            tt.wf(),
            tt.slot_count() == old(tt).slot_count(),
            NEG_INF <= cur_alpha,
            cur_alpha < beta,
            beta <= POS_INF,
            1 <= depth_left,
        decreases ordered@.len() - i,
    {
        let (mv, m) = ordered[i];
        if let Some(new_position) = play_move(position, &m) {
            let (_, child_score) = mate_search(
                &new_position,
                -beta,
                -cur_alpha,
                depth_left - 1,
                depth_from_root.saturating_add(1),
                tt,
            );
            let evaluation = -child_score;
            if evaluation >= beta {
                tt.insert(zobrist, mv, beta, depth_left, EvaluationType::Beta);
                return (mv, beta);
            }
            if evaluation > cur_alpha {
                cur_alpha = evaluation;
                best_move = mv;
            }
        }
        i += 1;
    }
    tt.insert(zobrist, best_move, cur_alpha, depth_left, EvaluationType::Alpha);
    (best_move, cur_alpha)
}

/// Deepen `mate_search` until it confirms the mate or the depth budget
/// runs out.
fn find_mate(position: &shakmaty::Chess, tt: &mut TranspositionTable, max_depth: u8) -> (r: (
    Mv,
    i16,
))
    requires
        old(tt).wf(),
        max_depth <= MAX_PLY,
    ensures
        final(tt).wf(),
        final(tt).slot_count() == old(tt).slot_count(),
        NEG_INF <= r.1 <= POS_INF,
{
    let mut depth: u8 = 0;
    loop
        invariant
            tt.wf(),
            tt.slot_count() == old(tt).slot_count(),
            depth <= max_depth + 1,
            max_depth <= MAX_PLY,
        decreases max_depth + 1 - depth,
    {
        let result = mate_search(position, NEG_INF, POS_INF, depth, 0, tt);
        if result.1 == POS_INF || result.1 == NEG_INF || depth >= max_depth {
            return result;
        }
        depth += 1;
    }
}

/// Nodes per millisecond-budget report: `nodes / (ms + 1) * 1000`,
/// saturated.
fn nodes_per_second(nodes: u64, ms: u64) -> u64 {
    let denominator = ms.saturating_add(1);
    let per_ms = nodes / denominator;
    if per_ms <= u64::MAX / 1000 {
        per_ms * 1000
    } else {
        u64::MAX
    }
}


/// A re-search is needed below the window only while the window floor is
/// above the full range.
pub open spec fn spec_fail_low(s: i16, alpha: i16) -> bool {
    s <= alpha && alpha > NEG_INF
}

/// A re-search is needed above the window only while the window ceiling
/// is below the full range.
pub open spec fn spec_fail_high(s: i16, beta: i16) -> bool {
    s >= beta && beta < POS_INF
}

/// Next lower window bound and half-width after a fail-low: the width
/// doubles (capped at `MAX_WINDOW`) and alpha drops by it, floored at
/// the full range.
pub open spec fn spec_widen_low(alpha: i16, a_window: i32) -> (i16, i32) {
    let widened: int = if a_window <= MAX_WINDOW / 2 {
        a_window * 2
    } else {
        MAX_WINDOW as int
    };
    let lowered = spec_clamp_score(alpha - widened);
    ((if lowered < alpha {
        lowered
    } else {
        NEG_INF as int
    }) as i16, widened as i32)
}

pub open spec fn spec_widen_high(beta: i16, b_window: i32) -> (i16, i32) {
    let widened: int = if b_window <= MAX_WINDOW / 2 {
        b_window * 2
    } else {
        MAX_WINDOW as int
    };
    let raised = spec_clamp_score(beta + widened);
    ((if raised > beta {
        raised
    } else {
        POS_INF as int
    }) as i16, widened as i32)
}

fn widen_low(alpha: i16, a_window: i32) -> (r: (i16, i32))
    requires
        NEG_INF < alpha <= POS_INF,
        15 <= a_window <= MAX_WINDOW,
    ensures
        r == spec_widen_low(alpha, a_window),
        NEG_INF <= r.0 < alpha,
        15 <= r.1 <= MAX_WINDOW,
{
    let widened: i32 = if a_window <= MAX_WINDOW / 2 {
        a_window * 2
    } else {
        MAX_WINDOW
    };
    let lowered = clamp_score(alpha as i32 - widened);
    (
        if lowered < alpha {
            lowered
        } else {
            NEG_INF
        },
        widened,
    )
}

fn widen_high(beta: i16, b_window: i32) -> (r: (i16, i32))
    requires
        NEG_INF <= beta < POS_INF,
        15 <= b_window <= MAX_WINDOW,
    ensures
        r == spec_widen_high(beta, b_window),
        beta < r.0 <= POS_INF,
        15 <= r.1 <= MAX_WINDOW,
{
    let widened: i32 = if b_window <= MAX_WINDOW / 2 {
        b_window * 2
    } else {
        MAX_WINDOW
    };
    let raised = clamp_score(beta as i32 + widened);
    (
        if raised > beta {
            raised
        } else {
            POS_INF
        },
        widened,
    )
}

/// Aspiration windows only widen, and converge.  A fail-low strictly
/// lowers the window floor (never below the full range); a fail-high
/// strictly raises the ceiling; the fully widened window cannot fail,
/// so iterated re-searching at one depth terminates; and a score that
/// neither fails lies inside its window (strictly, except at a fully
/// widened edge) and is the one the deepening driver adopts.
pub proof fn lemma_aspiration_converges(
    alpha: i16,
    beta: i16,
    a_window: i32,
    b_window: i32,
    s: i16,
)
    requires
        NEG_INF <= alpha < beta <= POS_INF,
        15 <= a_window <= MAX_WINDOW,
        15 <= b_window <= MAX_WINDOW,
        NEG_INF <= s <= POS_INF,
    ensures
        spec_fail_low(s, alpha) ==> NEG_INF <= spec_widen_low(alpha, a_window).0 < alpha,
        spec_fail_high(s, beta) ==> beta < spec_widen_high(beta, b_window).0 <= POS_INF,
        alpha == NEG_INF && beta == POS_INF ==> !spec_fail_low(s, alpha) && !spec_fail_high(
            s,
            beta,
        ),
        !spec_fail_low(s, alpha) && !spec_fail_high(s, beta) ==> (alpha < s || alpha == NEG_INF)
            && (s < beta || beta == POS_INF),
{
}

pub struct Engine {
    tt: TranspositionTable,
    book: Book,
    opts: EngineOpts,
    nn: NnModel,
    info: Vec<InfoEvent>,
}

impl Engine {
    pub closed spec fn wf(&self) -> bool {
        &&& self.tt.wf()
        &&& self.nn.wf()
    }

    /// The engine's current option settings.
    pub closed spec fn spec_opts(&self) -> EngineOpts {
        self.opts
    }

    /// The engine's transposition table.
    pub closed spec fn spec_tt(&self) -> TranspositionTable {
        self.tt
    }

    /// The `info` events accumulated since they were last taken.
    pub closed spec fn spec_info(&self) -> Seq<InfoEvent> {
        self.info@
    }

    pub fn new() -> (r: Engine)
        ensures
            r.wf(),
            r.spec_opts() == (EngineOpts { use_book: true, use_nn: false }),
            r.spec_info().len() == 0,
    {
        Engine {
            tt: TranspositionTable::new(64),
            book: Book::new(),
            opts: EngineOpts::new(),
            nn: NnModel::empty(),
            info: Vec::new(),
        }
    }

    /// Clear per-game state (the transposition table).
    pub fn new_game(&mut self)
        requires
            old(self).wf(),
        ensures
            final(self).wf(),
            final(self).spec_tt().slot_count() == old(self).spec_tt().slot_count(),
            forall|i: int|
                0 <= i < final(self).spec_tt().slots().len() ==> final(self).spec_tt().slots()[i]
                    == crate::tt::empty_entry(),
            final(self).spec_opts() == old(self).spec_opts(),
    {
        self.tt.clear();
    }

    /// Resize the transposition table to `value` megabytes.  A value
    /// outside the advertised range leaves the table unchanged.
    pub fn set_hash(&mut self, value: usize)
        requires
            old(self).wf(),
        ensures
            final(self).wf(),
            final(self).spec_opts() == old(self).spec_opts(),
            (1 <= value <= crate::tt::MAX_HASH_MB && value as nat * 0x100000
                / crate::tt::ENTRY_BYTES as nat <= usize::MAX as nat)
                ==> final(self).spec_tt().slot_count() == value as nat * 0x100000
                / crate::tt::ENTRY_BYTES as nat,
            !(1 <= value <= crate::tt::MAX_HASH_MB)
                ==> final(self).spec_tt() == old(self).spec_tt(),
    {
        if 1 <= value && value <= crate::tt::MAX_HASH_MB as usize {
            self.tt = TranspositionTable::new(value as u32);
        }
    }

    pub fn set_book(&mut self, value: bool)
        requires
            old(self).wf(),
        ensures
            final(self).wf(),
            final(self).spec_opts() == (EngineOpts {
                use_book: value,
                ..old(self).spec_opts()
            }),
    {
        self.opts.use_book = value;
    }

    pub fn set_nn(&mut self, value: bool)
        requires
            old(self).wf(),
        ensures
            final(self).wf(),
            final(self).spec_opts() == (EngineOpts { use_nn: value, ..old(self).spec_opts() }),
    {
        self.opts.use_nn = value;
    }

    /// Install network weights for the optional neural evaluator.
    pub fn set_nn_model(&mut self, model: NnModel)
        requires
            old(self).wf(),
            model.wf(),
        ensures
            final(self).wf(),
    {
        self.nn = model;
    }

    /// Load the opening book from a JSON object of UCI move lists keyed
    /// by Zobrist hashes; returns whether the text parsed.
    pub fn load_book_json(&mut self, text: &str) -> (r: bool)
        requires
            old(self).wf(),
        ensures
            final(self).wf(),
    {
        self.book.load_json(text)
    }

    /// Take the `info` events accumulated by the last search, leaving
    /// the log empty.
    pub fn take_info(&mut self) -> (r: Vec<InfoEvent>)
        requires
            old(self).wf(),
        ensures
            final(self).wf(),
            final(self).spec_opts() == old(self).spec_opts(),
            final(self).spec_info().len() == 0,
            r@ == old(self).spec_info(),
    {
        let mut out: Vec<InfoEvent> = Vec::new();
        std::mem::swap(&mut out, &mut self.info);
        out
    }

    /// Either at least one depth completed (the first recorded event is
    /// its depth report), or the very first search was cut off by the
    /// deadline and the sentinel result stands.
    fn iterative_deepening(&mut self, position: &shakmaty::Chess, max_time: u64, max_depth: u8) -> (r: (
        Mv,
        i16,
    ))
        requires
            old(self).wf(),
            max_depth <= MAX_PLY,
        ensures
            final(self).wf(),
            final(self).spec_opts() == old(self).spec_opts(),
            NEG_INF <= r.1 <= POS_INF,
            final(self).spec_info().len() > old(self).spec_info().len() || (r.0 == null_mv() && r.1
                == 0),
    {
        let mut deadline = Deadline::new(max_time);
        let first = search(
            position,
            NEG_INF,
            POS_INF,
            1,
            0,
            &mut self.tt,
            0,
            &mut deadline,
            &self.opts,
            &self.nn,
        );
        let (mut evaluation, mut best_move, mut nodes_searched) = match first {
            Some(t) => t,
            None => {
                return (null_move(), 0);
            },
        };

        let mut a_window: i32 = INITIAL_WINDOW_SIZE as i32;
        let mut b_window: i32 = INITIAL_WINDOW_SIZE as i32;
        let mut alpha: i16 = clamp_score(evaluation as i32 - a_window);
        let mut beta: i16 = clamp_score(evaluation as i32 + b_window);

        let nps = nodes_per_second(nodes_searched, deadline.elapsed());
        self.info.push(InfoEvent::Depth { nodes: nodes_searched, nps, depth: 1 });
        if evaluation == POS_INF || evaluation == NEG_INF {
            let mate = find_mate(position, &mut self.tt, 1);
            self.info.push(
                InfoEvent::ScoreMate {
                    plies: if mate.1 > 0 {
                        1
                    } else {
                        -1
                    },
                },
            );
            return mate;
        }
        self.info.push(InfoEvent::ScoreCp { cp: evaluation });

        let mut depth: u8 = 2;
        while depth <= max_depth
            invariant
                self.wf(),
                self.spec_opts() == old(self).spec_opts(),
                self.spec_info().len() > old(self).spec_info().len(),
                2 <= depth,
                depth <= max_depth + 1 || depth == 2,
                max_depth <= MAX_PLY,
                NEG_INF <= alpha,
                alpha < beta,
                beta <= POS_INF,
                NEG_INF <= evaluation <= POS_INF,
                15 <= a_window <= MAX_WINDOW,
                15 <= b_window <= MAX_WINDOW,
                deadline.budget() == max_time,
            decreases max_depth + 1 - depth, (alpha - NEG_INF) + (POS_INF - beta),
        {
            let attempt = search(
                position,
                alpha,
                beta,
                depth,
                0,
                &mut self.tt,
                0,
                &mut deadline,
                &self.opts,
                &self.nn,
            );
            let (new_evaluation, new_best_move, new_nodes) = match attempt {
                Some(t) => t,
                None => {
                    break ;
                },
            };
            nodes_searched = nodes_searched.saturating_add(new_nodes);

            if new_evaluation <= alpha && alpha > NEG_INF {
                let (lowered, wider) = widen_low(alpha, a_window);
                alpha = lowered;
                a_window = wider;
                continue ;
            } else if new_evaluation >= beta && beta < POS_INF {
                let (raised, wider) = widen_high(beta, b_window);
                beta = raised;
                b_window = wider;
                continue ;
            }
            a_window = INITIAL_WINDOW_SIZE as i32;
            b_window = INITIAL_WINDOW_SIZE as i32;
            evaluation = new_evaluation;
            best_move = new_best_move;
            alpha = clamp_score(evaluation as i32 - a_window);
            beta = clamp_score(evaluation as i32 + b_window);
            assert(alpha < beta);

            let nps = nodes_per_second(nodes_searched, deadline.elapsed());
            self.info.push(InfoEvent::Depth { nodes: nodes_searched, nps, depth });
            if evaluation == POS_INF || evaluation == NEG_INF {
                let mate = find_mate(position, &mut self.tt, depth);
                self.info.push(
                    InfoEvent::ScoreMate {
                        plies: if mate.1 > 0 {
                            depth as i16
                        } else {
                            -(depth as i16)
                        },
                    },
                );
                if !(mate.0 == null_move()) {
                    return mate;
                }
            } else {
                self.info.push(InfoEvent::ScoreCp { cp: evaluation });
            }
            depth += 1;
        }
        (best_move, evaluation)
    }

    /// Pick a move for the position: from the opening book when enabled
    /// and the position is known, otherwise by iterative-deepening search
    /// within `max_time` milliseconds and `max_depth` plies.  Returns the
    /// move (as its structural model), its UCI text, and the evaluation
    /// in centipawns (0 for book moves).
    pub fn find_best_move(&mut self, position: &shakmaty::Chess, max_time: u64, max_depth: u8) -> (r: (
        Mv,
        String,
        i16,
    ))
        requires
            old(self).wf(),
        ensures
            final(self).wf(),
            final(self).spec_opts() == old(self).spec_opts(),
            NEG_INF <= r.2 <= POS_INF,
            final(self).spec_info().len() > old(self).spec_info().len() || r.2 == 0,
    {
        self.tt.clear();
        let depth_budget: u8 = if max_depth > MAX_PLY {
            MAX_PLY
        } else {
            max_depth
        };
        let zobrist = zobrist_key(position);
        if self.opts.use_book {
            if let Some(choices) = self.book.lookup(zobrist) {
                if choices.len() > 0 {
                    let text = &choices[random_below(choices.len())];
                    if let Some(m) = uci_to_move(position, text.as_str()) {
                        let model = move_model(&m);
                        return (model, text.clone(), 0);
                    }
                }
            }
        }
        let (best_move, evaluation) = self.iterative_deepening(position, max_time, depth_budget);
        let pairs = labelled_legal_moves(position);
        let mut i: usize = 0;
        while i < pairs.len()
            invariant
                self.wf(),
                self.spec_opts() == old(self).spec_opts(),
                self.spec_info().len() > old(self).spec_info().len() || evaluation == 0,
                NEG_INF <= evaluation <= POS_INF,
            decreases pairs@.len() - i,
        {
            if pairs[i].0 == best_move {
                let text = move_uci_string(&pairs[i].1);
                return (best_move, text, evaluation);
            }
            i += 1;
        }
        (best_move, uci_null_text(), evaluation)
    }
}

impl Default for Engine {
    fn default() -> (r: Engine)
        ensures
            r.wf(),
    {
        Engine::new()
    }
}

/// The UCI spelling of "no move".
fn uci_null_text() -> String {
    let text: &str = "0000";
    text.to_owned()
}

} // verus!
