use svart::fmt::{format_score, int_to_string, move_to_string, pv_string};
use svart::history::History;
use svart::lmr::LMRTable;
use svart::nnue::Network;
use svart::picker::{Picker, ScoredMove};
use svart::position::{castle_from_engine, castle_to_engine};
use svart::pv_table::PVTable;
use svart::search::{repetition_within, terminal_score};
use svart::timeman::time_for_move;
use svart::tt::{qsearch_store_flag, store_flag, tt_cutoff, PackedMove, TTEntry, TTFlag, TT};
use svart::types::GameStatus;
use svart::types::{Color, MoveData};

#[test]
fn score_formatting() {
    assert_eq!(format_score(25), "cp 25");
    assert_eq!(format_score(-130), "cp -130");
    assert_eq!(format_score(0), "cp 0");
    assert_eq!(format_score(svart::MATE - 1), "mate 1");
    assert_eq!(format_score(svart::MATE - 6), "mate 3");
    assert_eq!(format_score(-(svart::MATE - 5)), "mate -3");
    assert_eq!(int_to_string(90210), "90210");
    assert_eq!(int_to_string(-7), "-7");
}

#[test]
fn move_formatting() {
    assert_eq!(move_to_string(MoveData { from: 12, to: 28, promo: 0 }), "e2e4");
    assert_eq!(move_to_string(MoveData { from: 48, to: 56, promo: 4 }), "a7a8q");
    assert_eq!(move_to_string(MoveData { from: 6, to: 21, promo: 0 }), "g1f3");
}

#[test]
fn pv_lines_grow_head_first() {
    let e7e5 = MoveData { from: 52, to: 36, promo: 0 };
    let e2e4 = MoveData { from: 12, to: 28, promo: 0 };
    let empty = PVTable::new();
    let mut tail = PVTable::new();
    tail.store(e7e5, &empty);
    let mut line = PVTable::new();
    line.store(e2e4, &tail);
    assert_eq!(line.length, 2);
    assert_eq!(line.table[0], e2e4);
    assert_eq!(line.table[1], e7e5);
    assert_eq!(pv_string(&line), " e2e4 e7e5");
}

#[test]
fn time_budgets() {
    // Overhead comes off first; the divisor is the moves-to-go count.
    assert_eq!(time_for_move(1050, None, Some(5)), (200, 200));
    assert_eq!(time_for_move(1050, None, Some(0)), (1000, 1000));
    // With an increment: a twentieth of the clock plus half the increment,
    // capped at half the clock and five times the optimum.
    assert_eq!(time_for_move(1050, Some(100), None), (100, 500));
    assert_eq!(time_for_move(20050, Some(0), None), (1000, 5000));
    // Bare clock: a twentieth.
    assert_eq!(time_for_move(1050, None, None), (50, 50));
    // A clock below the overhead leaves nothing.
    assert_eq!(time_for_move(30, None, None), (0, 0));
}

#[test]
fn tt_mate_scores_survive_the_round_trip() {
    let tt = TT::new(1);
    for ply in [0usize, 1, 5, 64, 128] {
        for score in [0i32, 25, -31, svart::MATE_IN, svart::MATE - 3, -svart::MATE_IN, -(svart::MATE - 7)] {
            let stored = tt.score_to_tt(score, ply);
            assert_eq!(tt.score_from_tt(stored, ply), score, "{score} at {ply}");
        }
    }
    // The stored form really is shifted for mate scores.
    assert_eq!(tt.score_to_tt(svart::MATE - 4, 10), (svart::MATE - 4 + 10) as i16);
    assert_eq!(tt.score_to_tt(100, 10), 100);
}

#[test]
fn tt_store_and_probe() {
    let mut tt = TT::new(1);
    assert_eq!(tt.entries.len(), 65536);
    let mv = MoveData { from: 12, to: 28, promo: 0 };
    let hash: u64 = 0x1234_5678_9abc_def0;
    tt.store(hash, Some(mv), 150, 7, TTFlag::Exact, 0);
    let entry = tt.probe(hash);
    assert_eq!(entry.key, (hash % 65536) as u16);
    assert_eq!(PackedMove::unpack(entry.mv), mv);
    assert_eq!(entry.depth, 7);
    assert_eq!(entry.age_flag.flag(), TTFlag::Exact);
    assert_eq!(entry.age_flag.age(), 0);
    assert_eq!(tt.score_from_tt(entry.score, 0), 150);

    // Aging changes the generation new entries are stamped with.
    tt.age();
    tt.store(hash, Some(mv), -25, 9, TTFlag::LowerBound, 3);
    let newer = tt.probe(hash);
    assert_eq!(newer.age_flag.age(), 1);
    assert_eq!(newer.age_flag.flag(), TTFlag::LowerBound);
    assert_eq!(tt.score_from_tt(newer.score, 3), -25);

    tt.reset();
    assert_eq!(tt.probe(hash).age_flag.0, 0);
}

#[test]
fn packed_moves_round_trip() {
    for (from, to, promo) in [(0u8, 63u8, 0u8), (12, 28, 0), (55, 63, 4), (8, 0, 1), (63, 62, 3)] {
        let mv = MoveData { from, to, promo };
        assert_eq!(PackedMove::unpack(PackedMove::pack(mv)), mv);
    }
    // Garbage promotion bits decode to a well-formed move.
    let garbage = PackedMove::unpack(0xffff);
    assert!(garbage.promo <= 4 && garbage.from < 64 && garbage.to < 64);
}

#[test]
fn history_bonus_malus_and_aging() {
    let mv = MoveData { from: 12, to: 28, promo: 0 };
    let mut h = History::new();
    assert_eq!(h.get(Color::White, mv), 0);
    h.update_table::<true>(Color::White, mv, 10);
    assert_eq!(h.get(Color::White, mv), 100);
    // The other side's cell is separate.
    assert_eq!(h.get(Color::Black, mv), 0);
    h.update_table::<false>(Color::White, mv, 10);
    assert_eq!(h.get(Color::White, mv), 0);
    // Repeated bonuses saturate at the clamp.
    for _ in 0..300 {
        h.update_table::<true>(Color::White, mv, 16);
    }
    assert_eq!(h.get(Color::White, mv), 16384);
    h.age_table();
    assert_eq!(h.get(Color::White, mv), 8192);
}

#[test]
fn picker_hands_out_moves_in_descending_score() {
    let mk = |from: u8, score: i32| ScoredMove { mv: MoveData { from, to: 0, promo: 0 }, score };
    let moves = vec![mk(1, 5), mk(2, 90), mk(3, -4), mk(4, 90), mk(5, 17)];
    let mut picker = Picker::new(moves);
    let mut seen: Vec<i32> = Vec::new();
    let order: [u8; 5] = [2, 4, 5, 1, 3];
    let scores: [i32; 5] = [90, 90, 17, 5, -4];
    for k in 0..5 {
        let mv = picker.pick_move().unwrap();
        assert_eq!(mv.from, order[k]);
        seen.push(scores[k]);
    }
    assert!(picker.pick_move().is_none());
    assert_eq!(seen, vec![90, 90, 17, 5, -4]);
}

#[test]
fn repetition_scan_skips_the_current_position() {
    let gh: Vec<u64> = vec![11, 22, 33, 22];
    // The final entry is the current position and never counts.
    assert!(repetition_within(&gh, 100, 22));
    assert!(!repetition_within(&gh, 100, 44));
    // The reach of the halfmove clock bounds the lookback.
    assert!(!repetition_within(&gh, 2, 22));
    assert!(repetition_within(&gh, 3, 22));
    assert!(!repetition_within(&Vec::new(), 100, 22));
}

#[test]
fn castling_translation() {
    // e1g1 <-> e1h1, e1c1 <-> e1a1 and the e8 mirror images.
    assert_eq!(castle_to_engine(4, 6), 7);
    assert_eq!(castle_to_engine(4, 2), 0);
    assert_eq!(castle_to_engine(60, 62), 63);
    assert_eq!(castle_to_engine(60, 58), 56);
    assert_eq!(castle_from_engine(4, 7), 6);
    assert_eq!(castle_from_engine(60, 56), 58);
    // Ordinary king moves pass through unchanged.
    assert_eq!(castle_to_engine(4, 12), 12);
    assert_eq!(castle_from_engine(28, 36), 36);
}

#[test]
fn lmr_reductions_are_bounded_and_grow() {
    let lmr = LMRTable::new();
    for d in 0..80 {
        for m in 0..80 {
            let r = lmr.reduction(d, m);
            assert!((0..=63).contains(&r));
        }
    }
    assert_eq!(lmr.reduction(20, 20), 4);
    assert!(lmr.reduction(2, 2) <= lmr.reduction(40, 40));
}

#[test]
fn network_rejects_wrong_lengths() {
    assert!(Network::from_parts(vec![0; 768 * 256], vec![0; 256], vec![0; 512], 0).is_some());
    assert!(Network::from_parts(vec![0; 768 * 256 - 1], vec![0; 256], vec![0; 512], 0).is_none());
    assert!(Network::from_parts(vec![0; 768 * 256], vec![0; 255], vec![0; 512], 0).is_none());
    assert!(Network::from_parts(vec![0; 768 * 256], vec![0; 256], vec![0; 513], 0).is_none());
}

#[test]
fn evaluation_quantization_has_an_exact_value() {
    // Zero feature weights, a bias of 100 on every hidden unit and output
    // weights of one: both perspectives contribute 256 * 100, and the
    // quantization maps 51200 to 51200 * 400 / 16320 = 1254.
    let net = Network::from_parts(vec![0; 768 * 256], vec![100; 256], vec![1; 512], 0).unwrap();
    let board = cozy_chess::Board::default();
    let state = svart::nnue::NNUEState::from_board(&board, net);
    assert_eq!(state.evaluate(Color::White), 1254);
    assert_eq!(state.evaluate(Color::Black), 1254);
}

#[test]
fn startpos_occupancy_is_full() {
    let board = cozy_chess::Board::default();
    let entries = svart::board::occupancy(&board);
    assert_eq!(entries.len(), 32);
    // Sixteen pieces a side, both kings present.
    assert_eq!(entries.iter().filter(|e| e.2 == Color::White).count(), 16);
    assert_eq!(entries.iter().filter(|e| e.1 == 5).count(), 2);
}

#[test]
fn terminal_scores_are_ply_relative() {
    // A checkmate suffered at ply 3 scores 3 - MATE; deeper mates hurt less.
    assert_eq!(terminal_score(GameStatus::Won, 3, 0), Some(3 - svart::MATE));
    assert!(terminal_score(GameStatus::Won, 5, 0).unwrap() > terminal_score(GameStatus::Won, 2, 0).unwrap());
    // A draw earns the node-counter jitter in [1, 8].
    assert_eq!(terminal_score(GameStatus::Drawn, 0, 13), Some(3));
    assert_eq!(terminal_score(GameStatus::Drawn, 7, 16), Some(8));
    assert_eq!(terminal_score(GameStatus::Ongoing, 0, 99), None);
}

#[test]
fn store_flags_follow_the_window() {
    // Lower bound on a beta cutoff, exact only above the original alpha.
    assert_eq!(store_flag(50, 40, 10), TTFlag::LowerBound);
    assert_eq!(store_flag(30, 40, 10), TTFlag::Exact);
    assert_eq!(store_flag(10, 40, 10), TTFlag::UpperBound);
    // A fail-soft best score below the original alpha is not exact.
    assert_eq!(store_flag(5, 40, 10), TTFlag::UpperBound);
    // Quiescence never stores an exact bound.
    assert_eq!(qsearch_store_flag(50, 40), TTFlag::LowerBound);
    assert_eq!(qsearch_store_flag(30, 40), TTFlag::UpperBound);
}

#[test]
fn tt_cutoffs_respect_bound_depth_and_node_kind() {
    let mut tt = TT::new(1);
    let hash: u64 = 0xfeed_beef_cafe_0042;
    let key = (hash % 65536) as u16;
    tt.store(hash, None, 120, 6, TTFlag::LowerBound, 2);
    let entry = tt.probe(hash);
    // A deep-enough lower bound at or above beta cuts a non-PV node.
    assert_eq!(tt_cutoff(entry, key, 5, 50, 100, 2, false), Some(120));
    // Not at a PV node, not under a key mismatch, not when too shallow,
    // and not when the bound does not clear the window.
    assert_eq!(tt_cutoff(entry, key, 5, 50, 100, 2, true), None);
    assert_eq!(tt_cutoff(entry, key.wrapping_add(1), 5, 50, 100, 2, false), None);
    assert_eq!(tt_cutoff(entry, key, 7, 50, 100, 2, false), None);
    assert_eq!(tt_cutoff(entry, key, 5, 50, 200, 2, false), None);
    // An empty slot never cuts, whatever key it seems to match.
    assert_eq!(tt_cutoff(TTEntry::empty(), 0, 0, -100, 100, 0, false), None);
}

#[test]
fn quiet_malus_hits_only_the_listed_prefix() {
    let mv_a = MoveData { from: 8, to: 16, promo: 0 };
    let mv_b = MoveData { from: 9, to: 17, promo: 0 };
    let mv_c = MoveData { from: 10, to: 18, promo: 0 };
    let mut h = History::new();
    let quiets = vec![mv_a, mv_b, mv_c];
    // The last quiet is the cutoff move itself and keeps its score.
    h.penalize_quiets(Color::White, &quiets, 2, 10);
    assert_eq!(h.get(Color::White, mv_a), -100);
    assert_eq!(h.get(Color::White, mv_b), -100);
    assert_eq!(h.get(Color::White, mv_c), 0);
}

#[test]
fn pv_line_moves_match_the_line() {
    let e7e5 = MoveData { from: 52, to: 36, promo: 0 };
    let e2e4 = MoveData { from: 12, to: 28, promo: 0 };
    let empty = PVTable::new();
    let mut tail = PVTable::new();
    tail.store(e7e5, &empty);
    let mut line = PVTable::new();
    line.store(e2e4, &tail);
    assert_eq!(line.line_moves(), vec![e2e4, e7e5]);
    assert_eq!(empty.line_moves(), Vec::<MoveData>::new());
}
