use minikalle::book::random_below;
use minikalle::clock::Deadline;
use minikalle::duel::{black_or_white, match_point, parse_engine_reply, EngineReply, MatchSession};
use minikalle::evaluation::{evaluate, GameOutcome, PositionFacts};
use minikalle::mv::null_move;
use minikalle::neural_eval::{feed_forward, predict_facts, serialize, NnLayer, NnModel};
use minikalle::ordering::order_moves;
use minikalle::pgn::next_game;
use minikalle::rules::{labelled_legal_moves, swap_sides, zobrist_key};
use minikalle::search::{Engine, InfoEvent};
use minikalle::tables::{parse_table, parse_tables};
use minikalle::tt::{EvaluationType, Transposition, TranspositionTable};
use minikalle::uci::{go_params, parse_u64, think_time, GoParams, Reply, Token, UciProtocol};
use shakmaty::fen::Fen;
use shakmaty::{Chess, Position};

fn position_from(fen: &str) -> Chess {
    let fen: Fen = fen.parse().unwrap();
    fen.into_position(shakmaty::CastlingMode::Standard).unwrap()
}

fn boards_of(position: &Chess) -> [u64; 12] {
    let board = position.board();
    let roles = [
        shakmaty::Role::Pawn,
        shakmaty::Role::Knight,
        shakmaty::Role::Bishop,
        shakmaty::Role::Rook,
        shakmaty::Role::Queen,
        shakmaty::Role::King,
    ];
    let mut out = [0u64; 12];
    for (i, role) in roles.iter().enumerate() {
        out[i] = (board.by_color(shakmaty::Color::White) & board.by_role(*role)).0;
        out[i + 6] = (board.by_color(shakmaty::Color::Black) & board.by_role(*role)).0;
    }
    out
}

#[test]
fn squaretables_test_square_table() {
    let position = Chess::new();

    let mut table = [0i16; 64];
    for i in 48..64 {
        table[i] = 10;
    }

    let white = position
        .board()
        .by_color(shakmaty::Color::White)
        .flip_vertical()
        .0;
    assert_eq!(parse_table(white, &table), 160);

    let black = position.board().by_color(shakmaty::Color::Black).0;
    assert_eq!(parse_table(black, &table), 160);
}

#[test]
fn squaretables_test_square_tables() {
    let position = Chess::new();
    assert_eq!(parse_tables(&boards_of(&position)), 0);

    let position = position_from("rnbqkbnr/pppppppp/8/8/4P3/8/PPPP1PPP/RNBQKBNR b KQkq - 0 1");
    assert!(parse_tables(&boards_of(&position)) > 0);

    let position = position_from("rnbqkbnr/ppp2ppp/8/3pp3/4P3/1P6/P1PP1PPP/RNBQKBNR w KQkq - 0 3");
    assert!(parse_tables(&boards_of(&position)) < 0);
}

#[test]
fn evaluate_exact_material_and_tables() {
    // White: king a1 (-15 after the vertical flip), queen b1 (-18);
    // Black: king a8 (-15).  Material +900.
    let position = position_from("k7/8/8/8/8/8/8/KQ6 w - - 0 1");
    assert_eq!(evaluate(&position), 900 - 15 - 18 + 15);

    let position = position_from("k7/8/8/8/8/8/8/KQ6 b - - 0 1");
    assert_eq!(evaluate(&position), -(900 - 15 - 18 + 15));
}

#[test]
fn evaluate_symmetry_on_swapped_sides() {
    let position = position_from("7k/8/8/4p3/3Q4/8/8/K7 w - - 0 1");
    let swapped = swap_sides(&position).unwrap();
    assert_eq!(evaluate(&swapped), -evaluate(&position));
}

#[test]
fn evaluate_terminal_positions() {
    // Stalemate: a draw scores zero.
    let position = position_from("7k/5Q2/6K1/8/8/8/8/8 b - - 0 1");
    assert_eq!(evaluate(&position), 0);

    // Checkmate: the side to move has lost.
    let position = position_from("7k/6Q1/6K1/8/8/8/8/8 b - - 0 1");
    assert_eq!(evaluate(&position), -25_000);
}

#[test]
fn tt_probe_respects_bounds_and_depth() {
    let mut tt = TranspositionTable::new(1);
    let m = null_move();

    tt.insert(5, m, 120, 4, EvaluationType::Exact);
    assert_eq!(tt.probe_table(&5, 4, -100, 100), Some((m, 120)));
    assert_eq!(tt.probe_table(&5, 5, -100, 100), None);

    tt.insert(6, m, -300, 4, EvaluationType::Alpha);
    assert_eq!(tt.probe_table(&6, 3, -100, 100), Some((m, -100)));
    assert_eq!(tt.probe_table(&6, 3, -400, 100), None);

    tt.insert(7, m, 300, 4, EvaluationType::Beta);
    assert_eq!(tt.probe_table(&7, 3, -100, 100), Some((m, 100)));
    assert_eq!(tt.probe_table(&7, 3, -100, 400), None);
}

#[test]
fn tt_get_misses_on_empty_and_zero_key() {
    let tt = TranspositionTable::new(1);
    assert!(tt.get(&12345).is_none());
    // Key 0 encodes the empty slot and is always a miss.
    assert!(tt.get(&0).is_none());
    assert!(tt.probe_table(&0, 0, -100, 100).is_none());
}

#[test]
fn tt_always_replaces() {
    let mut tt = TranspositionTable::new(1);
    let m = null_move();
    tt.insert(9, m, 11, 1, EvaluationType::Exact);
    tt.insert(9, m, 22, 2, EvaluationType::Beta);
    let entry: Transposition = tt.get(&9).unwrap();
    assert_eq!(entry.evaluation, 22);
    assert_eq!(entry.depth_left, 2);
}

#[test]
fn ordering_puts_hash_move_first() {
    let position = position_from("4r1k1/ppp2ppp/5n2/6P1/1PP5/2b4P/r7/5K1R b - - 0 33");
    let key = zobrist_key(&position);
    let pairs = labelled_legal_moves(&position);
    // Pick some non-capture late in the list as the stored best move.
    let stored = pairs[pairs.len() - 1].0;
    let mut tt = TranspositionTable::new(1);
    tt.insert(key, stored, 0, 1, EvaluationType::Exact);
    let ordered = order_moves(pairs, &tt, key);
    assert_eq!(ordered[0].0, stored);
}

#[test]
fn ordering_prefers_valuable_captures() {
    // White queen can take the undefended pawn: captures come first
    // without a hash move.
    let position = position_from("7k/8/8/4p3/3Q4/8/8/K7 w - - 0 1");
    let tt = TranspositionTable::new(1);
    let pairs = labelled_legal_moves(&position);
    let ordered = order_moves(pairs, &tt, 0);
    assert!(ordered[0].0.is_capture());
}

#[test]
fn parse_u64_accepts_exactly_decimal() {
    assert_eq!(parse_u64(b"123"), Some(123));
    assert_eq!(parse_u64(b"0"), Some(0));
    assert_eq!(parse_u64(b"18446744073709551615"), Some(u64::MAX));
    assert_eq!(parse_u64(b"18446744073709551616"), None);
    assert_eq!(parse_u64(b"12a"), None);
    assert_eq!(parse_u64(b""), None);
}

#[test]
fn tokenizer_recognizes_go_line() {
    let uci = UciProtocol::new();
    let tokens = uci.parse_message("go movetime 1000 depth 4");
    assert!(matches!(tokens[0], Token::Go));
    assert!(matches!(tokens[1], Token::MoveTime));
    assert!(matches!(tokens[2], Token::Number(1000)));
    assert!(matches!(tokens[3], Token::Depth));
    assert!(matches!(tokens[4], Token::Number(4)));
}

#[test]
fn tokenizer_accumulates_fen() {
    let uci = UciProtocol::new();
    let tokens =
        uci.parse_message("position fen 7k/8/8/4p3/3Q4/8/8/K7 w - - 0 1 moves d4e5");
    assert!(matches!(tokens[0], Token::Position));
    assert!(matches!(tokens[1], Token::FEN));
    let mut saw_fen = false;
    let mut saw_move = false;
    for t in &tokens {
        if let Token::FENStr(text) = t {
            assert_eq!(text, "7k/8/8/4p3/3Q4/8/8/K7 w - - 0 1");
            saw_fen = true;
        }
        if let Token::Move(text) = t {
            assert_eq!(text, "d4e5");
            saw_move = true;
        }
    }
    assert!(saw_fen && saw_move);
}

#[test]
fn go_params_folds_numbers_after_keywords() {
    let tokens = vec![
        Token::Go,
        Token::WTime,
        Token::Number(60000),
        Token::BTime,
        Token::Number(50000),
        Token::WInc,
        Token::Number(700),
    ];
    let params = go_params(&tokens);
    assert_eq!(params.wtime, 60000);
    assert_eq!(params.btime, 50000);
    assert_eq!(params.winc, 700);
    assert_eq!(params.binc, 1000);
    assert_eq!(params.movetime, 0);
    assert_eq!(params.depth, 20);

    let tokens = vec![Token::Go, Token::Infinite];
    assert_eq!(go_params(&tokens).movetime, u64::MAX);
}

#[test]
fn think_time_follows_the_clock() {
    let params = GoParams {
        wtime: 4000,
        btime: 9000,
        winc: 200,
        binc: 300,
        movetime: 0,
        depth: 20,
    };
    assert_eq!(think_time(&params, true), 4000 / 20 + 200 - 100);
    assert_eq!(think_time(&params, false), 9000 / 20 + 300 - 100);

    let with_movetime = GoParams { movetime: 777, ..params };
    assert_eq!(think_time(&with_movetime, true), 777);

    let broke = GoParams { wtime: 0, winc: 0, ..params };
    assert_eq!(think_time(&broke, true), 0);
}

#[test]
fn deadline_latches_once_expired() {
    let mut deadline = Deadline::new(0);
    assert!(deadline.poll());
    assert!(deadline.poll());

    let mut generous = Deadline::new(1_000_000);
    assert!(!generous.poll());
    generous.force_expire();
    assert!(generous.poll());
}

#[test]
fn uci_position_replay_is_idempotent() {
    let mut uci = UciProtocol::new();
    uci.put("position startpos moves e2e4 e7e5 g1f3");

    let mut direct = Chess::new();
    for text in ["e2e4", "e7e5", "g1f3"] {
        let m = text
            .parse::<shakmaty::uci::UciMove>()
            .unwrap()
            .to_move(&direct)
            .unwrap();
        direct = direct.play(m).unwrap();
    }
    assert_eq!(uci.position_key(), zobrist_key(&direct));
}

#[test]
fn uci_handshake_replies() {
    let mut uci = UciProtocol::new();
    let replies = uci.put("uci");
    assert!(matches!(replies.last(), Some(Reply::UciOk)));
    let replies = uci.put("isready");
    assert!(matches!(replies[0], Reply::ReadyOk));
    // Options apply without complaint.
    let replies = uci.put("setoption name Hash value 8");
    assert!(replies.is_empty());
    let replies = uci.put("setoption name Book value false");
    assert!(replies.is_empty());
    let replies = uci.put("setoption name Hash value zero");
    assert!(matches!(replies[0], Reply::ErrBadOption));
}

#[test]
fn uci_go_reports_best_move() {
    let mut uci = UciProtocol::new();
    uci.put("position fen 6k1/2R5/8/8/8/3R4/2K5/8 w - - 0 1");
    let replies = uci.put("go movetime 1000 depth 4");
    let mut best: Option<String> = None;
    let mut saw_info = false;
    for reply in &replies {
        if let Reply::BestMove(text) = reply {
            best = Some(text.clone());
        }
        if let Reply::Info(InfoEvent::Depth { .. }) = reply {
            saw_info = true;
        }
    }
    assert_eq!(best.unwrap(), "d3d8");
    assert!(saw_info);
}

#[test]
fn book_lookup_serves_stored_move() {
    let position = Chess::new();
    let key = zobrist_key(&position);
    let mut engine = Engine::new();
    let json = format!("{{\"{}\": [\"e2e4\"]}}", key);
    assert!(engine.load_book_json(&json));
    let (_, uci, evaluation) = engine.find_best_move(&position, 50, 2);
    assert_eq!(uci, "e2e4");
    assert_eq!(evaluation, 0);

    assert!(!engine.load_book_json("not json"));
}

#[test]
fn random_below_stays_in_range() {
    for n in 1..20 {
        assert!(random_below(n) < n);
    }
}

#[test]
fn feed_forward_computes_fixed_point_dot() {
    // One dense layer: only the first weight is set, bias 7; an input of
    // 32 units contributes 32 * 32 / 32 = 32, so the output neuron reads
    // 39.  The output layer applies no activation.
    let mut weights = vec![0i16; 768];
    weights[0] = 32;
    let layer = NnLayer {
        weights,
        biases: vec![7],
        inputs: 768,
        outputs: 1,
    };
    let model = NnModel { layers: vec![layer] };
    let input = vec![32i16; 768];
    assert_eq!(feed_forward(&model, &input), 39);

    let empty = NnModel::empty();
    assert_eq!(feed_forward(&empty, &input), 0);
}

#[test]
fn serialize_marks_occupied_squares() {
    let mut boards = [0u64; 12];
    boards[0] = 1; // white pawn on a1 (for the encoding's purposes)
    boards[11] = 1u64 << 63; // black king on h8
    let facts = PositionFacts {
        boards,
        white_to_move: true,
        outcome: GameOutcome::Ongoing,
    };
    let encoded = serialize(&facts);
    assert_eq!(encoded.len(), 768);
    assert_eq!(encoded[0], 32);
    assert_eq!(encoded[1], 0);
    assert_eq!(encoded[767], 32);
}

#[test]
fn predict_flips_with_side_to_move() {
    let mut weights = vec![0i16; 768];
    weights[0] = 32;
    let layer = NnLayer {
        weights,
        biases: vec![0],
        inputs: 768,
        outputs: 1,
    };
    let model = NnModel { layers: vec![layer] };
    let mut boards = [0u64; 12];
    boards[0] = 1;
    let white = PositionFacts {
        boards,
        white_to_move: true,
        outcome: GameOutcome::Ongoing,
    };
    let black = PositionFacts { white_to_move: false, ..white };
    assert_eq!(predict_facts(&white, &model), 32);
    assert_eq!(predict_facts(&black, &model), -32);
}

#[test]
fn pgn_reader_extracts_headers_and_moves() {
    let text = b"[Event test]\n\n1. e4 e5 \n\n";
    let (game, next) = next_game(text, 0).unwrap();
    assert_eq!(game.headers.len(), 1);
    assert_eq!(game.headers[0].0, b"Event".to_vec());
    assert_eq!(game.headers[0].1, b"test".to_vec());
    assert_eq!(
        game.moves,
        vec![b"1.".to_vec(), b"e4".to_vec(), b"e5".to_vec()]
    );
    assert_eq!(next, text.len());
    assert!(next_game(text, next).is_none());
}

#[test]
fn engine_runs_with_network_enabled() {
    let mut weights = vec![0i16; 768];
    weights[5] = 32;
    let layer = NnLayer {
        weights,
        biases: vec![1],
        inputs: 768,
        outputs: 1,
    };
    let mut engine = Engine::new();
    engine.set_nn(true);
    engine.set_nn_model(NnModel { layers: vec![layer] });
    let position = Chess::new();
    let (_, _, evaluation) = engine.find_best_move(&position, 200, 2);
    assert!((-25_000..=25_000).contains(&evaluation));
}

#[test]
fn take_info_drains_the_report() {
    let mut engine = Engine::new();
    let position = Chess::new();
    engine.find_best_move(&position, 100, 2);
    let infos = engine.take_info();
    assert!(!infos.is_empty());
    assert!(engine.take_info().is_empty());
}

#[test]
fn tokenizer_recognizes_control_words() {
    let uci = UciProtocol::new();
    let tokens = uci.parse_message("stop");
    assert!(matches!(tokens[0], Token::Stop));
    let tokens = uci.parse_message("quit");
    assert!(matches!(tokens[0], Token::Quit));
    let tokens = uci.parse_message("ucinewgame");
    assert!(matches!(tokens[0], Token::UciNewGame));
    // Unknown words are dropped.
    let tokens = uci.parse_message("xyzzy");
    assert!(tokens.is_empty());
}

#[test]
fn null_move_is_quiet() {
    let m = null_move();
    assert!(!m.is_capture());
    assert!(!m.is_promotion());
    assert!(!m.castle);
    assert_eq!(m.from, 0);
    assert_eq!(m.to, 0);
}

#[test]
fn ordering_keeps_every_move() {
    let position = position_from("6k1/2p4p/b1p1q2b/p7/3P1pp1/2P2P2/PP4PP/4B1K1 b - - 1 29");
    let tt = TranspositionTable::new(1);
    let pairs = labelled_legal_moves(&position);
    let mut before: Vec<_> = pairs.iter().map(|p| p.0).collect();
    let ordered = order_moves(pairs, &tt, zobrist_key(&position));
    let mut after: Vec<_> = ordered.iter().map(|p| p.0).collect();
    before.sort_by_key(|m| (m.from, m.to, m.promotion));
    after.sort_by_key(|m| (m.from, m.to, m.promotion));
    assert_eq!(before.len(), after.len());
    for (a, b) in before.iter().zip(after.iter()) {
        assert_eq!(a, b);
    }
}

#[test]
fn match_session_tracks_the_game() {
    let mut session = MatchSession::new("abc w - - 0 1".to_string());
    assert!(session.first_to_act());
    assert_eq!(session.position_command(), "position fen abc w - - 0 1");

    match parse_engine_reply("bestmove e2e4") {
        EngineReply::BestMove(m) => session.record_best_move(m),
        _ => panic!("expected a best move"),
    }
    assert!(!session.first_to_act());
    session.record_best_move("e7e5".to_string());
    assert!(session.first_to_act());
    assert_eq!(
        session.position_command(),
        "position fen abc w - - 0 1 moves e2e4 e7e5"
    );
    assert!(!session.reply_limit_reached());

    match parse_engine_reply("info outcome 1-0") {
        EngineReply::Finished(outcome) => {
            assert_eq!(match_point(outcome, true), Some(true));
            assert_eq!(match_point(outcome, false), Some(false));
        }
        _ => panic!("expected an outcome"),
    }
    assert!(matches!(
        parse_engine_reply("info nodes 12 nps 3 depth 2"),
        EngineReply::Other
    ));
}

#[test]
fn black_or_white_reads_the_side_field() {
    assert_eq!(black_or_white("8/8/8/8/8/8/8/8 w - - 0 1"), Some(true));
    assert_eq!(black_or_white("8/8/8/8/8/8/8/8 b - - 0 1"), Some(false));
    assert_eq!(black_or_white("8/8/8/8/8/8/8/8 x - - 0 1"), None);
    assert_eq!(black_or_white("nonsense"), None);
}

#[test]
fn uci_rejects_bad_fen_and_bad_move() {
    // Syntactically valid FEN, but not a legal position (two white kings).
    let mut uci = UciProtocol::new();
    let replies = uci.put("position fen KK6/8/8/8/8/8/8/k7 w - - 0 1");
    assert!(matches!(replies[0], Reply::ErrInvalidFen));

    // An illegal move for the current position is reported and dropped.
    let mut uci = UciProtocol::new();
    let replies = uci.put("position startpos moves e2e5");
    assert!(matches!(replies[0], Reply::ErrInvalidMove));
}

#[test]
fn uci_reports_malformed_fen_records() {
    // Six fields that are not a FEN record at all.
    let mut uci = UciProtocol::new();
    let replies = uci.put("position fen one two three four five six");
    assert!(matches!(replies[0], Reply::ErrInvalidFen));
}

#[test]
fn uci_silent_line_says_nothing() {
    let mut uci = UciProtocol::new();
    assert!(uci.put("ponder movestogo 12").is_empty());
    assert!(uci.put("position startpos").is_empty());
}
