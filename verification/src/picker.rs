use vstd::prelude::*;

use crate::board;
use crate::history::{History, MAX_HIST};
use crate::types::{Color, MoveData};

verus! {

/// Ordering score of the move the cache suggested.
pub const TT_MOVE_SCORE: i32 = 1000000;

/// Ordering score of promotions.
pub const PROMOTION_SCORE: i32 = 900000;

/// Base ordering score of captures; MVV-LVA is added on top.
pub const CAPTURE_SCORE: i32 = 800000;

/// Ordering score of the most recent killer move.
pub const KILLER_0_SCORE: i32 = 70000;

/// Ordering score of the older killer move.
pub const KILLER_1_SCORE: i32 = 60000;

/// A move with the score the picker orders by.
#[derive(Clone, Copy, PartialEq, Eq, Structural, Debug)]
pub struct ScoredMove {
    pub mv: MoveData,
    pub score: i32,
}

/// Rough material worth of a piece, used for MVV-LVA capture ordering.
pub open spec fn spec_piece_value(p: u8) -> int {
    if p == 0 {
        100
    } else if p == 1 {
        320
    } else if p == 2 {
        330
    } else if p == 3 {
        500
    } else if p == 4 {
        900
    } else {
        0
    }
}

/// Rough material worth of a piece.
pub fn piece_value(p: u8) -> (r: i32)
    ensures
        r == spec_piece_value(p),
{
    match p {
        0 => 100,
        1 => 320,
        2 => 330,
        3 => 500,
        4 => 900,
        _ => 0,
    }
}

/// The ordering score of one move: the cached best move first, then
/// promotions, then captures by most-valuable-victim least-valuable-attacker,
/// then the two killers, then quiets by their history score.
pub open spec fn spec_score_move(
    mv: MoveData,
    tt_move: Option<MoveData>,
    killer0: Option<MoveData>,
    killer1: Option<MoveData>,
    victim: Option<u8>,
    attacker: Option<u8>,
    hist: i16,
) -> int {
    if tt_move == Some(mv) {
        TT_MOVE_SCORE as int
    } else if mv.promo != 0 {
        PROMOTION_SCORE as int
    } else if victim is Some {
        CAPTURE_SCORE + spec_piece_value(victim->0) * 10 - (match attacker {
            Some(a) => spec_piece_value(a),
            None => 0,
        })
    } else if killer0 == Some(mv) {
        KILLER_0_SCORE as int
    } else if killer1 == Some(mv) {
        KILLER_1_SCORE as int
    } else {
        hist as int
    }
}

/// Scores one move from the facts the caller gathered: what the cache and
/// killer tables suggest, the victim and attacker on a capture, and the
/// history score of a quiet.
pub fn score_move(
    mv: MoveData,
    tt_move: Option<MoveData>,
    killer0: Option<MoveData>,
    killer1: Option<MoveData>,
    victim: Option<u8>,
    attacker: Option<u8>,
    hist: i16,
) -> (r: i32)
    requires
        -MAX_HIST <= hist <= MAX_HIST,
    ensures
        r == spec_score_move(mv, tt_move, killer0, killer1, victim, attacker, hist),
        -MAX_HIST <= r <= TT_MOVE_SCORE,
{
    if matches!(tt_move, Some(t) if t == mv) {
        TT_MOVE_SCORE
    } else if mv.promo != 0 {
        PROMOTION_SCORE
    } else if let Some(v) = victim {
        let a: i32 = match attacker {
            Some(a) => piece_value(a),
            None => 0,
        };
        CAPTURE_SCORE + piece_value(v) * 10 - a
    } else if matches!(killer0, Some(k) if k == mv) {
        KILLER_0_SCORE
    } else if matches!(killer1, Some(k) if k == mv) {
        KILLER_1_SCORE
    } else {
        hist as i32
    }
}

/// Whether square `idx` is set in a bitboard.
pub fn bit_at(bb: u64, idx: u8) -> (r: bool)
    requires
        idx < 64,
    ensures
        r == (bb as nat / vstd::arithmetic::power2::pow2(idx as nat) % 2 == 1),
{
    let shifted: u64 = bb >> idx;
    proof {
        vstd::bits::lemma_u64_shr_is_div(bb, idx as u64);
        vstd::arithmetic::power2::lemma_pow2_pos(idx as nat);
    }
    shifted % 2 == 1
}

/// Generates and scores every legal move the oracle reports.
pub fn all_moves(
    b: &cozy_chess::Board,
    tt_move: Option<MoveData>,
    killer0: Option<MoveData>,
    killer1: Option<MoveData>,
    history: &History,
) -> (r: Vec<ScoredMove>)
    requires
        history.wf(),
    ensures
        forall|i: int| 0 <= i < r@.len() ==> (#[trigger] r@[i]).mv.wf(),
{
    let stm: Color = board::board_stm(b);
    let enemy: u64 = board::board_colors(b, stm.opp());
    let list: Vec<MoveData> = board::board_legal_moves(b);
    let mut r: Vec<ScoredMove> = Vec::new();
    let mut i: usize = 0;
    while i < list.len()
        invariant
            history.wf(),
            forall|k: int| 0 <= k < list@.len() ==> (#[trigger] list@[k]).wf(),
            forall|k: int| 0 <= k < r@.len() ==> (#[trigger] r@[k]).mv.wf(),
        decreases list@.len() - i,
    {
        let mv: MoveData = list[i];
        let victim: Option<u8> = if bit_at(enemy, mv.to) {
            board::board_piece_on(b, mv.to)
        } else {
            None
        };
        let attacker: Option<u8> = board::board_piece_on(b, mv.from);
        let hist: i16 = history.get(stm, mv);
        let score: i32 = score_move(mv, tt_move, killer0, killer1, victim, attacker, hist);
        r.push(ScoredMove { mv, score });
        i += 1;
    }
    r
}

/// Generates and scores only the capture moves, for quiescence.
pub fn capture_moves(
    b: &cozy_chess::Board,
    tt_move: Option<MoveData>,
    history: &History,
) -> (r: Vec<ScoredMove>)
    requires
        history.wf(),
    ensures
        forall|i: int| 0 <= i < r@.len() ==> (#[trigger] r@[i]).mv.wf(),
{
    let stm: Color = board::board_stm(b);
    let enemy: u64 = board::board_colors(b, stm.opp());
    let list: Vec<MoveData> = board::board_legal_moves(b);
    let mut r: Vec<ScoredMove> = Vec::new();
    let mut i: usize = 0;
    while i < list.len()
        invariant
            history.wf(),
            forall|k: int| 0 <= k < list@.len() ==> (#[trigger] list@[k]).wf(),
            forall|k: int| 0 <= k < r@.len() ==> (#[trigger] r@[k]).mv.wf(),
        decreases list@.len() - i,
    {
        let mv: MoveData = list[i];
        if bit_at(enemy, mv.to) {
            let victim: Option<u8> = board::board_piece_on(b, mv.to);
            let attacker: Option<u8> = board::board_piece_on(b, mv.from);
            let hist: i16 = history.get(stm, mv);
            let score: i32 = score_move(mv, tt_move, None, None, victim, attacker, hist);
            r.push(ScoredMove { mv, score });
        }
        i += 1;
    }
    r
}

/// Hands out the moves of a scored list one at a time, highest score first,
/// by one-pass selection over what is left.
pub struct Picker {
    pub moves: Vec<ScoredMove>,
    pub index: usize,
}

impl Picker {
    /// The cursor never passes the end and every move is well-formed.
    pub open spec fn wf(self) -> bool {
        &&& self.index <= self.moves@.len()
        &&& forall|i: int| 0 <= i < self.moves@.len() ==> (#[trigger] self.moves@[i]).mv.wf()
    }

    /// Wraps a scored list.
    pub fn new(moves: Vec<ScoredMove>) -> (r: Picker)
        requires
            forall|i: int| 0 <= i < moves@.len() ==> (#[trigger] moves@[i]).mv.wf(),
        ensures
            r.wf(),
            r.index == 0,
            r.moves == moves,
    {
        Picker { moves, index: 0 }
    }

    /// The next unplayed move with the highest score, or `None` when all
    /// moves were handed out. The list keeps the same moves: the picked one
    /// merely swaps into the consumed prefix.
    pub fn pick_move(&mut self) -> (r: Option<MoveData>)
        requires
            old(self).wf(),
        ensures
            final(self).wf(),
            final(self).moves@.len() == old(self).moves@.len(),
            r is None <==> old(self).index >= old(self).moves@.len(),
            r is None ==> *final(self) == *old(self),
            r matches Some(m) ==> final(self).index == old(self).index + 1 && m.wf()
                && exists|j: int|
                old(self).index <= j < old(self).moves@.len() && m == old(self).moves@[j].mv
                    && final(self).moves@ == old(self).moves@.update(
                    old(self).index as int,
                    old(self).moves@[j],
                ).update(j, old(self).moves@[old(self).index as int]) && (forall|k: int|
                    old(self).index <= k < old(self).moves@.len()
                        ==> (#[trigger] old(self).moves@[k]).score <= old(self).moves@[j].score),
    {
        let len: usize = self.moves.len();
        if self.index >= len {
            return None;
        }
        let start: usize = self.index;
        let mut best: usize = start;
        let mut i: usize = start + 1;
        while i < len
            invariant
                start <= best < i <= len,
                len == self.moves@.len(),
                forall|k: int|
                    start <= k < i ==> (#[trigger] self.moves@[k]).score
                        <= self.moves@[best as int].score,
            decreases len - i,
        {
            if self.moves[i].score > self.moves[best].score {
                best = i;
            }
            i += 1;
        }
        let picked: ScoredMove = self.moves[best];
        let there: ScoredMove = self.moves[start];
        self.moves.set(start, picked);
        self.moves.set(best, there);
        self.index = start + 1;
        Some(picked.mv)
    }
}

} // verus!
