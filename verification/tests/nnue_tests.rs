use svart::nnue::{Network, NNUEState};
use svart::nnue::weight_column_index;
use svart::position::play_move;
use svart::search::Search;
use svart::tt::TT;
use svart::types::{Color, MoveData};

/// A deterministic non-trivial network, so feature toggles move the
/// accumulator and mistakes cannot hide behind zero weights.
fn make_net() -> Network {
    let mut fw: Vec<i16> = Vec::with_capacity(768 * 256);
    for i in 0..768 * 256 {
        fw.push((((i * 31 + 7) % 251) as i32 - 125) as i16);
    }
    let mut fb: Vec<i16> = Vec::with_capacity(256);
    for i in 0..256 {
        fb.push((((i * 17 + 3) % 101) as i32 - 50) as i16);
    }
    let mut ow: Vec<i16> = Vec::with_capacity(512);
    for i in 0..512 {
        ow.push((((i * 13 + 5) % 61) as i32 - 30) as i16);
    }
    Network::from_parts(fw, fb, ow, 9).unwrap()
}

/// All legal moves of a position, via the oracle, in plain coordinates.
fn legal_moves(board: &cozy_chess::Board) -> Vec<MoveData> {
    let mut r: Vec<MoveData> = Vec::new();
    board.generate_moves(|pms| {
        for m in pms {
            r.push(MoveData {
                from: m.from as u8,
                to: m.to as u8,
                promo: m.promotion.map_or(0, |p| p as u8),
            });
        }
        false
    });
    r
}

fn to_cozy(mv: MoveData) -> cozy_chess::Move {
    cozy_chess::Move {
        from: cozy_chess::Square::index(mv.from as usize),
        to: cozy_chess::Square::index(mv.to as usize),
        promotion: if mv.promo == 0 {
            None
        } else {
            Some(cozy_chess::Piece::index(mv.promo as usize))
        },
    }
}

fn clone_net(n: &Network) -> Network {
    Network::from_parts(
        n.feature_weights.clone(),
        n.feature_bias.clone(),
        n.output_weights.clone(),
        n.output_bias,
    )
    .unwrap()
}

#[test]
fn nnue_indexing() {
    // A8, H1, A1 and E1 in square indices.
    let idx1 = weight_column_index(56, 0, Color::White);
    let idx2 = weight_column_index(7, 0, Color::White);
    let idx3 = weight_column_index(0, 0, Color::Black);
    let idx4 = weight_column_index(4, 5, Color::White);

    assert_eq!(idx1, (14336, 98304));
    assert_eq!(idx2, (1792, 114432));
    assert_eq!(idx3, (98304, 14336));
    assert_eq!(idx4, (82944, 195584));
}

#[test]
fn nnue_update_feature() {
    let board = cozy_chess::Board::default();
    let mut state = NNUEState::from_board(&board, make_net());

    let old_acc = state.accumulators[0].clone();

    // A pawn appears and disappears again on a3.
    state.update_feature::<true>(16, 0, Color::White);
    state.update_feature::<false>(16, 0, Color::White);

    assert_eq!(old_acc, state.accumulators[0]);
}

#[test]
fn nnue_moves() {
    let board = cozy_chess::Board::default();
    let tt = TT::new(16);
    let mut search = Search::new(tt, make_net());
    let moves = legal_moves(&board);
    let initial_white = search.nnue.accumulators[0].white.clone();
    let initial_black = search.nnue.accumulators[0].black.clone();
    for mv in moves {
        let mut new_b = board.clone();
        assert!(play_move(&mut new_b, &mut search.nnue, mv));
        assert_ne!(initial_white, search.nnue.accumulators[1].white);
        assert_ne!(initial_black, search.nnue.accumulators[1].black);
        search.nnue.pop();
        assert_eq!(initial_white, search.nnue.accumulators[0].white);
        assert_eq!(initial_black, search.nnue.accumulators[0].black);
    }
}

#[test]
fn nnue_incremental() {
    let fens: [&str; 13] = [
        "rnbqkbnr/pppppppp/8/8/8/8/PPPPPPPP/RNBQKBNR w KQkq - 0 1",
        "4r1k1/4r1p1/8/p2R1P1K/5P1P/1QP3q1/1P6/3R4 b - - 0 1",
        "1n2k3/r3r1bn/pp1p4/1P1q1p1p/3P4/P3P1RP/1BQN1PR1/1K6 w - - 6 28",
        "8/3r1b2/3r1Pk1/1N6/5ppP/1q2P1Q1/7K/4RB2 w - - 0 66",
        "rnbqkbnr/1pp1ppp1/p7/2PpP2p/8/8/PP1P1PPP/RNBQKBNR w KQkq d6 0 5",
        "rnbqkbnr/1pp1p3/p4pp1/2PpP2p/8/3B1N2/PP1P1PPP/RNBQK2R w KQkq - 0 7",
        "rnbqk2r/1pp1p1P1/p4np1/2Pp3p/8/3B1N2/PP1P1PPP/RNBQK2R w KQkq - 1 9",
        "rnbqkbnr/pp1ppppp/8/2p5/4P3/5N2/PPPP1PPP/RNBQKB1R b KQkq - 1 2",
        "r3k2r/p1ppqpb1/bn2pnp1/3PN3/1p2P3/2N2Q1p/PPPBBPPP/R3K2R w KQkq - 0 1",
        "8/2p5/3p4/KP5r/1R3p1k/8/4P1P1/8 w - - 0 1",
        "rnbq1k1r/pp1Pbppp/2p5/8/2B5/8/PPP1NnPP/RNBQK2R w KQ - 1 8",
        "r4rk1/1pp1qppp/p1np1n2/2b1p1B1/2B1P1b1/P1NP1N2/1PP1QPPP/R4RK1 w - - 0 10",
        "r3k2r/Pppp1ppp/1b3nbN/nP6/BBP1P3/q4N2/Pp1P2PP/R2Q1RK1 w kq - 0 1",
    ];

    let net = make_net();

    for fen in fens {
        let mut board = cozy_chess::Board::from_fen(fen, false).unwrap();
        let tt = TT::new(16);
        let mut search = Search::new(tt, clone_net(&net));
        search.nnue.refresh(&board);
        let moves = legal_moves(&board);

        for mv in moves {
            let mut board2 = cozy_chess::Board::from_fen(fen, false).unwrap();

            assert!(board2.try_play(to_cozy(mv)).is_ok());
            assert!(play_move(&mut board, &mut search.nnue, mv));

            let state2 = NNUEState::from_board(&board2, clone_net(&net));
            assert_eq!(search.nnue.accumulators[1], state2.accumulators[0]);
            assert_ne!(search.nnue.accumulators[0], state2.accumulators[0]);

            search.nnue.pop();
            board = cozy_chess::Board::from_fen(fen, false).unwrap();
        }
    }
}

#[test]
fn nnue_startpos_eval_is_symmetric() {
    // The starting position mirrors itself under the colour flip, so the
    // perspective network must give both sides the same score.
    let board = cozy_chess::Board::default();
    let state = NNUEState::from_board(&board, make_net());
    assert_eq!(state.evaluate(Color::White), state.evaluate(Color::Black));
    assert_eq!(state.accumulators[0].white, state.accumulators[0].black);
}
