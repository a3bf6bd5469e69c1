use minikalle::clock::Deadline;
use minikalle::evaluation::{evaluate, NEG_INF, POS_INF};
use minikalle::neural_eval::NnModel;
use minikalle::ordering::order_moves;
use minikalle::rules::labelled_legal_moves;
use minikalle::search::{root_search, search, Engine, EngineOpts};
use minikalle::tt::TranspositionTable;
use shakmaty::fen::Fen;
use shakmaty::{Chess, Position};

fn position_from(fen: &str) -> Chess {
    let fen: Fen = fen.parse().unwrap();
    fen.into_position(shakmaty::CastlingMode::Standard).unwrap()
}

fn full_window_eval(position: &Chess, depth: u8, ms: u64) -> i16 {
    let mut tt = TranspositionTable::new(64);
    let mut deadline = Deadline::new(ms);
    let opts = EngineOpts::new();
    let nn = NnModel::empty();
    let (evaluation, _, _) = search(
        position,
        NEG_INF,
        POS_INF,
        depth,
        0,
        &mut tt,
        0,
        &mut deadline,
        &opts,
        &nn,
    )
    .unwrap();
    evaluation
}

fn best_move_text(engine: &mut Engine, fen: &str, ms: u64, depth: u8) -> String {
    let position = position_from(fen);
    let (_, uci, _) = engine.find_best_move(&position, ms, depth);
    uci
}

#[test]
fn search_test_alpha_beta() {
    let position = Chess::new();
    let evaluation = full_window_eval(&position, 3, 1000);
    assert!(evaluation >= -5);
}

#[test]
fn search_test_root_search() {
    let position = Chess::new();
    let mut tt = TranspositionTable::new(64);
    let (_, evaluation) = root_search(&position, 3, &mut tt, 1000).unwrap();
    assert!(evaluation >= -5);
}

#[test]
fn engine_test_alpha_beta() {
    let position = Chess::new();
    let evaluation = full_window_eval(&position, 3, 1000);
    assert!(evaluation >= 0);
}

#[test]
fn engine_test_root_search() {
    let position = Chess::new();
    let mut tt = TranspositionTable::new(64);
    let (_, evaluation) = root_search(&position, 3, &mut tt, 1000).unwrap();
    assert!(evaluation >= 0);
}

#[test]
fn search_test_mates() {
    let mut engine = Engine::new();
    assert_eq!(
        best_move_text(&mut engine, "6k1/2R5/8/8/8/3R4/2K5/8 w - - 0 1", 1_000, 4),
        "d3d8".to_string()
    );
    assert_eq!(
        best_move_text(
            &mut engine,
            "6k1/2p4p/2p4b/p7/3P1p2/2P2P2/PP2b1KP/4q3 b - - 9 35",
            1_000,
            4
        ),
        "e1f1".to_string()
    );
    assert_eq!(
        best_move_text(
            &mut engine,
            "6k1/2p4p/b1p1q2b/p7/3P1pp1/2P2P2/PP4PP/4B1K1 b - - 1 29",
            1_000,
            4
        ),
        "e6e1".to_string()
    );
    assert_eq!(
        best_move_text(
            &mut engine,
            "4r1k1/ppp2ppp/5n2/6P1/1PP5/2b4P/r7/5K1R b - - 0 33",
            1_000,
            4
        ),
        "e8e1".to_string()
    );
}

#[test]
fn engine_test_mates() {
    let mut engine = Engine::new();
    assert_eq!(
        best_move_text(&mut engine, "6k1/2R5/8/8/8/3R4/2K5/8 w - - 0 1", 1_000, 5),
        "d3d8".to_string()
    );
    assert_eq!(
        best_move_text(
            &mut engine,
            "6k1/2p4p/2p4b/p7/3P1p2/2P2P2/PP2b1KP/4q3 b - - 9 35",
            1_000,
            5
        ),
        "e1f1".to_string()
    );
    assert_eq!(
        best_move_text(
            &mut engine,
            "6k1/2p4p/b1p1q2b/p7/3P1pp1/2P2P2/PP4PP/4B1K1 b - - 1 29",
            1_000,
            5
        ),
        "e6e1".to_string()
    );
    assert_eq!(
        best_move_text(
            &mut engine,
            "4r1k1/ppp2ppp/5n2/6P1/1PP5/2b4P/r7/5K1R b - - 0 33",
            1_000,
            5
        ),
        "e8e1".to_string()
    );
}

#[test]
fn search_test_captures() {
    let mut engine = Engine::new();
    assert_eq!(
        best_move_text(&mut engine, "7k/8/8/4p3/3Q4/8/8/K7 w - - 0 1", 1_000, 40),
        "d4e5".to_string()
    );
    assert_eq!(
        best_move_text(&mut engine, "7k/8/8/4q3/3Q4/8/8/K7 b - - 0 1", 1_000, 40),
        "e5d4".to_string()
    );
}

#[test]
fn engine_test_captures() {
    let mut engine = Engine::new();
    assert_eq!(
        best_move_text(&mut engine, "7k/8/8/4p3/3Q4/8/8/K7 w - - 0 1", 1_000, 40),
        "d4e5".to_string()
    );
    assert_eq!(
        best_move_text(&mut engine, "7k/8/8/4q3/3Q4/8/8/K7 b - - 0 1", 1_000, 40),
        "e5d4".to_string()
    );
}

#[test]
fn search_test_move_ordering() {
    let position = Chess::new();
    let tt = TranspositionTable::new(64);
    let pairs = labelled_legal_moves(&position);
    let result = order_moves(pairs, &tt, 0);
    assert_eq!(result.len(), position.legal_moves().len());
}

#[test]
fn engine_test_move_ordering() {
    let position = Chess::new();
    let tt = TranspositionTable::new(64);
    let pairs = labelled_legal_moves(&position);
    let result = order_moves(pairs, &tt, 0);
    assert_eq!(result.len(), position.legal_moves().len());
}

#[test]
fn test_evaluation() {
    let position = Chess::new();
    let evaluation = evaluate(&position);
    assert_eq!(evaluation, 0);
}

#[test]
fn search_expired_deadline_returns_none() {
    let position = Chess::new();
    let mut tt = TranspositionTable::new(1);
    let mut deadline = Deadline::new(0);
    assert!(deadline.poll());
    let opts = EngineOpts::new();
    let nn = NnModel::empty();
    let result = search(
        &position,
        NEG_INF,
        POS_INF,
        3,
        0,
        &mut tt,
        0,
        &mut deadline,
        &opts,
        &nn,
    );
    assert!(result.is_none());
}
