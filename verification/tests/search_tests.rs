use svart::nnue::Network;
use svart::search::Search;
use svart::tt::{TTFlag, TT};
use svart::types::SearchType;

#[test]
fn repetitions() {
    const FENS: [&str; 3] = [
        "5k2/4q1p1/3P1pQb/1p1B4/pP5p/P1PR4/5PP1/1K6 b - - 0 38",
        "6k1/6p1/8/6KQ/1r6/q2b4/8/8 w - - 0 32",
        "5rk1/1rP3pp/p4n2/3Pp3/1P2Pq2/2Q4P/P5P1/R3R1K1 b - - 0 32",
    ];

    // The original embeds its trained weight blob in the binary; the blob is
    // not part of the sources, so this runs on the all-zero network. The
    // perpetual-check draws below are forced, so the draw-band assertion
    // still bites, but a trained network would make it a sharper check.
    let tt = TT::new(16);
    let mut search = Search::new(tt, Network::zeroed());

    for fen in FENS.iter() {
        let board = cozy_chess::Board::from_fen(fen, false).unwrap();
        search.nnue.refresh(&board);

        let (score, _) = search.data_search(&board, SearchType::Depth(16));

        assert!((-10..=10).contains(&score), "{score}");

        search.game_reset();
    }
}

#[test]
fn pvs_equals_full_window_alpha_beta() {
    // With the zero-window scouts disabled, every move is searched with the
    // full window; on shallow searches the root score must not change.
    const FENS: [&str; 4] = [
        "rnbqkbnr/pppppppp/8/8/8/8/PPPPPPPP/RNBQKBNR w KQkq - 0 1",
        "r3k2r/p1ppqpb1/bn2pnp1/3PN3/1p2P3/2N2Q1p/PPPBBPPP/R3K2R w KQkq - 0 1",
        "rnbqkbnr/pp1ppppp/8/2p5/4P3/5N2/PPPP1PPP/RNBQKB1R b KQkq - 1 2",
        "8/2p5/3p4/KP5r/1R3p1k/8/4P1P1/8 w - - 0 1",
    ];

    for fen in FENS.iter() {
        let board = cozy_chess::Board::from_fen(fen, false).unwrap();

        let mut pvs = Search::new(TT::new(16), Network::zeroed());
        pvs.nnue.refresh(&board);
        let (pvs_score, _) = pvs.data_search(&board, SearchType::Depth(4));

        let mut plain = Search::new(TT::new(16), Network::zeroed());
        plain.full_window = true;
        plain.nnue.refresh(&board);
        let (plain_score, _) = plain.data_search(&board, SearchType::Depth(4));

        assert_eq!(pvs_score, plain_score, "{fen}");
    }
}

#[test]
fn root_entry_is_exact_and_decodes_to_the_score() {
    // After a completed search the root slot holds an exact bound whose
    // decoded score is the score the search returned.
    let board = cozy_chess::Board::from_fen(
        "r3k2r/p1ppqpb1/bn2pnp1/3PN3/1p2P3/2N2Q1p/PPPBBPPP/R3K2R w KQkq - 0 1",
        false,
    )
    .unwrap();
    let mut search = Search::new(TT::new(16), Network::zeroed());
    search.nnue.refresh(&board);
    let (score, best) = search.data_search(&board, SearchType::Depth(6));
    assert!(best.is_some());

    let hash = board.hash();
    let entry = search.tt.probe(hash);
    assert_eq!(entry.key, (hash % 65536) as u16);
    assert_eq!(entry.age_flag.flag(), TTFlag::Exact);
    assert_eq!(search.tt.score_from_tt(entry.score, 0), score);
}

#[test]
fn search_is_deterministic() {
    let board = cozy_chess::Board::from_fen(
        "rnbqkbnr/pp1ppppp/8/2p5/4P3/5N2/PPPP1PPP/RNBQKB1R b KQkq - 1 2",
        false,
    )
    .unwrap();

    let mut a = Search::new(TT::new(16), Network::zeroed());
    a.nnue.refresh(&board);
    let (score_a, best_a) = a.data_search(&board, SearchType::Depth(6));
    let nodes_a = a.info.nodes;

    let mut b = Search::new(TT::new(16), Network::zeroed());
    b.nnue.refresh(&board);
    let (score_b, best_b) = b.data_search(&board, SearchType::Depth(6));

    assert_eq!(score_a, score_b);
    assert_eq!(best_a, best_b);
    assert_eq!(nodes_a, b.info.nodes);
}

#[test]
fn node_limited_search_stops() {
    let board = cozy_chess::Board::default();
    let mut search = Search::new(TT::new(16), Network::zeroed());
    search.nnue.refresh(&board);
    let (score, best) = search.data_search(&board, SearchType::Nodes(2000));
    assert!(best.is_some());
    assert!((-svart::INFINITY..=svart::INFINITY).contains(&score));
}

#[test]
fn report_ties_best_move_and_score_to_the_last_iteration() {
    let board = cozy_chess::Board::default();
    let mut search = Search::new(TT::new(16), Network::zeroed());
    search.nnue.refresh(&board);
    let report = search.iterative_deepening(&board, SearchType::Depth(4));

    assert!(report.iterations.len() >= 1);
    let last = report.iterations.last().unwrap();
    assert_eq!(report.score, last.score);
    assert!(!last.pv_moves.is_empty());
    assert_eq!(report.best_move, Some(last.pv_moves[0]));

    // The formatted line is exactly the moves, each with a leading space.
    let mut formatted = String::new();
    for m in &last.pv_moves {
        formatted.push(' ');
        formatted.push_str(&svart::fmt::move_to_string(*m));
    }
    assert_eq!(last.pv_line, formatted);
}
