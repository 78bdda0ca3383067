use vstd::prelude::*;

use crate::board;
use crate::nnue::NNUEState;
use crate::picker::bit_at;
use crate::types::{Color, MoveData, PIECE_KING, PIECE_PAWN, PIECE_ROOK};
use crate::MAX_PLY;

verus! {

/// Whether the oracle reports an enemy piece on the move's destination.
/// Castling is encoded king-takes-own-rook, so it does not count.
pub fn is_capture(b: &cozy_chess::Board, mv: MoveData) -> (r: bool)
    requires
        mv.wf(),
{
    let stm: Color = board::board_stm(b);
    let enemy: u64 = board::board_colors(b, stm.opp());
    bit_at(enemy, mv.to)
}

/// A quiet move neither captures nor promotes.
pub fn is_quiet(b: &cozy_chess::Board, mv: MoveData) -> (r: bool)
    requires
        mv.wf(),
{
    mv.promo == 0 && !is_capture(b, mv)
}

/// How a made move reshapes the accumulator stack: one new slot on top,
/// everything at and below the old top untouched.
pub open spec fn make_shape(pre: NNUEState, post: NNUEState) -> bool {
    &&& post.current_acc == pre.current_acc + 1
    &&& post.accumulators@.len() == pre.accumulators@.len()
    &&& post.net == pre.net
    &&& forall|i: int|
        0 <= i <= pre.current_acc ==> post.accumulators@[i] == pre.accumulators@[i]
}

/// How an unmade move reshapes the stack: only the cursor steps back.
pub open spec fn unmake_shape(pre: NNUEState, post: NNUEState) -> bool {
    &&& post.current_acc == pre.current_acc - 1
    &&& post.accumulators == pre.accumulators
    &&& post.net == pre.net
}

/// Making a move and unmaking it restores the live accumulator, and the
/// whole stack below it, to its pre-make value.
pub proof fn lemma_make_unmake_restores(pre: NNUEState, mid: NNUEState, post: NNUEState)
    requires
        pre.wf(),
        make_shape(pre, mid),
        unmake_shape(mid, post),
    ensures
        post.current_acc == pre.current_acc,
        post.live_white() == pre.live_white(),
        post.live_black() == pre.live_black(),
        forall|i: int|
            0 <= i <= pre.current_acc ==> post.accumulators@[i] == pre.accumulators@[i],
{
}

/// The feature toggles a move causes, each (square, piece, colour,
/// activate), as a function of the values probed from the board: the moving
/// piece, what stands on the destination, whether the destination holds an
/// enemy piece, and whether the move is the king-takes-own-rook castling
/// encoding. Castling relocates king and rook to fixed files on the back
/// rank; a pawn sliding diagonally onto an empty square captures the en
/// passant pawn on the from-rank of the to-file.
pub open spec fn move_toggles(
    mv: MoveData,
    stm: Color,
    moved: u8,
    victim: Option<u8>,
    enemy_on_to: bool,
    is_castle: bool,
) -> Seq<(u8, u8, Color, bool)> {
    if is_castle {
        let back: u8 = if stm == Color::White {
            0
        } else {
            7
        };
        let king_file: u8 = if mv.from % 8 < mv.to % 8 {
            6
        } else {
            2
        };
        let rook_file: u8 = if mv.from % 8 < mv.to % 8 {
            5
        } else {
            3
        };
        seq![
            (mv.from, PIECE_KING, stm, false),
            (mv.to, PIECE_ROOK, stm, false),
            ((back * 8 + king_file) as u8, PIECE_KING, stm, true),
            ((back * 8 + rook_file) as u8, PIECE_ROOK, stm, true),
        ]
    } else {
        let target: u8 = if mv.promo != 0 {
            mv.promo
        } else {
            moved
        };
        let base = seq![(mv.from, moved, stm, false), (mv.to, target, stm, true)];
        if enemy_on_to {
            match victim {
                Some(v) => base + seq![(mv.to, v, stm.spec_opp(), false)],
                None => base,
            }
        } else if moved == PIECE_PAWN && mv.from % 8 != mv.to % 8 {
            base + seq![
                (((mv.from / 8) * 8 + mv.to % 8) as u8, PIECE_PAWN, stm.spec_opp(), false),
            ]
        } else {
            base
        }
    }
}

/// Applies every feature toggle of a move to the live accumulator. The new
/// perspective pair is exactly the old pair with the move's weight columns
/// toggled, as `move_toggles` lists them from the probed board values.
pub fn apply_move_features(
    nnue: &mut NNUEState,
    mv: MoveData,
    stm: Color,
    moved: u8,
    victim: Option<u8>,
    enemy_on_to: bool,
    is_castle: bool,
)
    requires
        old(nnue).wf(),
        mv.wf(),
        moved < 6,
        victim matches Some(v) ==> v < 6,
    ensures
        final(nnue).wf(),
        final(nnue).current_acc == old(nnue).current_acc,
        final(nnue).net == old(nnue).net,
        forall|i: int|
            0 <= i < old(nnue).accumulators@.len() && i != old(nnue).current_acc
                ==> final(nnue).accumulators@[i] == old(nnue).accumulators@[i],
        ({
            let ts = move_toggles(mv, stm, moved, victim, enemy_on_to, is_castle);
            &&& final(nnue).live_white() == crate::nnue::toggled_white(
                old(nnue).live_white(),
                old(nnue).net.feature_weights@,
                ts,
                ts.len() as int,
            )
            &&& final(nnue).live_black() == crate::nnue::toggled_black(
                old(nnue).live_black(),
                old(nnue).net.feature_weights@,
                ts,
                ts.len() as int,
            )
        }),
{
    let mut ts: Vec<(u8, u8, Color, bool)> = Vec::new();
    if is_castle {
        let back: u8 = match stm {
            Color::White => 0,
            Color::Black => 7,
        };
        let (king_file, rook_file): (u8, u8) = if mv.from % 8 < mv.to % 8 {
            (6, 5)
        } else {
            (2, 3)
        };
        ts.push((mv.from, PIECE_KING, stm, false));
        ts.push((mv.to, PIECE_ROOK, stm, false));
        ts.push((back * 8 + king_file, PIECE_KING, stm, true));
        ts.push((back * 8 + rook_file, PIECE_ROOK, stm, true));
    } else {
        let target: u8 = if mv.promo != 0 {
            mv.promo
        } else {
            moved
        };
        ts.push((mv.from, moved, stm, false));
        ts.push((mv.to, target, stm, true));
        if enemy_on_to {
            if let Some(v) = victim {
                ts.push((mv.to, v, stm.opp(), false));
            }
        } else if moved == PIECE_PAWN && mv.from % 8 != mv.to % 8 {
            ts.push(((mv.from / 8) * 8 + mv.to % 8, PIECE_PAWN, stm.opp(), false));
        }
    }
    proof {
        assert(ts@ =~= move_toggles(mv, stm, moved, victim, enemy_on_to, is_castle));
        assert(forall|k: int|
            0 <= k < ts@.len() ==> (#[trigger] ts@[k]).0 < 64 && ts@[k].1 < 6);
    }
    let mut i: usize = 0;
    while i < ts.len()
        invariant
            i <= ts@.len(),
            nnue.wf(),
            nnue.current_acc == old(nnue).current_acc,
            nnue.net == old(nnue).net,
            forall|k: int| 0 <= k < ts@.len() ==> (#[trigger] ts@[k]).0 < 64 && ts@[k].1 < 6,
            nnue.accumulators@.len() == old(nnue).accumulators@.len(),
            forall|k: int|
                0 <= k < old(nnue).accumulators@.len() && k != old(nnue).current_acc
                    ==> #[trigger] nnue.accumulators@[k] == old(nnue).accumulators@[k],
            nnue.live_white() == crate::nnue::toggled_white(
                old(nnue).live_white(),
                old(nnue).net.feature_weights@,
                ts@,
                i as int,
            ),
            nnue.live_black() == crate::nnue::toggled_black(
                old(nnue).live_black(),
                old(nnue).net.feature_weights@,
                ts@,
                i as int,
            ),
        decreases ts@.len() - i,
    {
        let t = ts[i];
        nnue.toggle_feature(t.0, t.1, t.2, t.3);
        i += 1;
    }
}

/// Plays a move on the board and updates the network state in lockstep:
/// push a fresh accumulator, then toggle the feature of every square the
/// move changes. Returns false, changing nothing, if the oracle rejects the
/// move or reports no piece on its origin.
pub fn play_move(b: &mut cozy_chess::Board, nnue: &mut NNUEState, mv: MoveData) -> (ok: bool)
    requires
        mv.wf(),
        old(nnue).wf(),
        old(nnue).current_acc + 1 < old(nnue).accumulators@.len(),
    ensures
        final(nnue).wf(),
        ok ==> make_shape(*old(nnue), *final(nnue)),
        ok ==> exists|probe: (Color, u8, Option<u8>, bool, bool)|
            {
                let ts = #[trigger] move_toggles(mv, probe.0, probe.1, probe.2, probe.3, probe.4);
                &&& final(nnue).live_white() == crate::nnue::toggled_white(
                    old(nnue).live_white(),
                    old(nnue).net.feature_weights@,
                    ts,
                    ts.len() as int,
                )
                &&& final(nnue).live_black() == crate::nnue::toggled_black(
                    old(nnue).live_black(),
                    old(nnue).net.feature_weights@,
                    ts,
                    ts.len() as int,
                )
            },
        !ok ==> *final(nnue) == *old(nnue) && *final(b) == *old(b),
{
    let stm: Color = board::board_stm(b);
    let enemy_occ: u64 = board::board_colors(b, stm.opp());
    let own_occ: u64 = board::board_colors(b, stm);
    let moved: u8 = match board::board_piece_on(b, mv.from) {
        Some(p) => p,
        None => {
            return false;
        },
    };
    let victim: Option<u8> = board::board_piece_on(b, mv.to);
    let enemy_on_to: bool = bit_at(enemy_occ, mv.to);
    let is_castle: bool = bit_at(own_occ, mv.to);
    if !board::board_try_play(b, mv) {
        return false;
    }
    nnue.push();
    apply_move_features(nnue, mv, stm, moved, victim, enemy_on_to, is_castle);
    proof {
        let probe = (stm, moved, victim, enemy_on_to, is_castle);
        let ts = move_toggles(mv, probe.0, probe.1, probe.2, probe.3, probe.4);
        assert(nnue.live_white() == crate::nnue::toggled_white(
            old(nnue).live_white(),
            old(nnue).net.feature_weights@,
            ts,
            ts.len() as int,
        ));
    }
    true
}

/// Translates a move arriving in standard castling notation (king two files
/// sideways) into the engine's king-takes-rook encoding, when the moving
/// piece is the king.
pub fn check_castling_move(b: &cozy_chess::Board, mv: MoveData) -> (r: MoveData)
    requires
        mv.wf(),
    ensures
        r.wf(),
        r.from == mv.from && r.promo == mv.promo,
{
    let is_king: bool = matches!(board::board_piece_on(b, mv.from), Some(p) if p == PIECE_KING);
    if is_king {
        let to: u8 = castle_to_engine(mv.from, mv.to);
        MoveData { from: mv.from, to, promo: mv.promo }
    } else {
        mv
    }
}

/// Translates an engine move back to standard castling notation, when the
/// moving piece is the king.
pub fn reverse_castling_move(b: &cozy_chess::Board, mv: MoveData) -> (r: MoveData)
    requires
        mv.wf(),
    ensures
        r.wf(),
        r.from == mv.from && r.promo == mv.promo,
{
    let is_king: bool = matches!(board::board_piece_on(b, mv.from), Some(p) if p == PIECE_KING);
    if is_king {
        let to: u8 = castle_from_engine(mv.from, mv.to);
        MoveData { from: mv.from, to, promo: mv.promo }
    } else {
        mv
    }
}

/// King destination in engine notation: a two-file king slide becomes a
/// jump onto the rook's square.
pub fn castle_to_engine(from: u8, to: u8) -> (r: u8)
    requires
        from < 64,
        to < 64,
    ensures
        r == spec_castle_to_engine(from, to),
        r < 64,
{
    match (from, to) {
        (4u8, 6u8) => 7,
        (4u8, 2u8) => 0,
        (60u8, 62u8) => 63,
        (60u8, 58u8) => 56,
        _ => to,
    }
}

/// King destination in standard notation: a jump onto the rook's square
/// becomes a two-file king slide.
pub fn castle_from_engine(from: u8, to: u8) -> (r: u8)
    requires
        from < 64,
        to < 64,
    ensures
        r == spec_castle_from_engine(from, to),
        r < 64,
{
    match (from, to) {
        (4u8, 7u8) => 6,
        (4u8, 0u8) => 2,
        (60u8, 63u8) => 62,
        (60u8, 56u8) => 58,
        _ => to,
    }
}

/// The engine-notation image of a standard castling destination.
pub open spec fn spec_castle_to_engine(from: u8, to: u8) -> u8 {
    if from == 4 && to == 6 {
        7u8
    } else if from == 4 && to == 2 {
        0u8
    } else if from == 60 && to == 62 {
        63u8
    } else if from == 60 && to == 58 {
        56u8
    } else {
        to
    }
}

/// The standard-notation image of an engine castling destination.
pub open spec fn spec_castle_from_engine(from: u8, to: u8) -> u8 {
    if from == 4 && to == 7 {
        6u8
    } else if from == 4 && to == 0 {
        2u8
    } else if from == 60 && to == 63 {
        62u8
    } else if from == 60 && to == 56 {
        58u8
    } else {
        to
    }
}

/// The two castling translations undo each other on every square pair.
pub proof fn lemma_castling_translation_roundtrip(from: u8, to: u8)
    requires
        from < 64,
        to < 64,
        // The corner squares double as ordinary king destinations, so the
        // round trip is only claimed where the engine image is castling.
        !(from == 4 && (to == 7 || to == 0)),
        !(from == 60 && (to == 63 || to == 56)),
    ensures
        spec_castle_from_engine(from, spec_castle_to_engine(from, to)) == to,
{
}

} // verus!
