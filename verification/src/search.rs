use vstd::prelude::*;

use crate::board;
use crate::fmt;
use crate::history::History;
use crate::lmr::LMRTable;
use crate::nnue::{Network, NNUEState};
use crate::picker::{self, Picker};
use crate::position;
use crate::pv_table::PVTable;
use crate::tt::{PackedMove, TTFlag, TT};
use crate::types::{Color, GameStatus, MoveData, SearchType, PIECE_BISHOP, PIECE_KNIGHT, PIECE_QUEEN, PIECE_ROOK};
use crate::{INFINITY, MATE, MATE_IN, MAX_MOVES_POSITION, MAX_PLY, NONE, TB_WIN_IN_PLY};

verus! {

/// Margin per depth for reverse futility pruning.
pub const RFP_MARGIN: i32 = 75;

/// The near-zero draw score: a deterministic jitter derived from the node
/// counter, so repeated draws do not all look identical.
pub open spec fn spec_draw_jitter(nodes: u64) -> int {
    8 - nodes % 8
}

/// A reported score, clamped into the printable range below the window
/// edges: nothing outside the mate band ever needs reporting.
pub open spec fn spec_clamp_report(score: int) -> int {
    if score > MATE {
        MATE as int
    } else if score < -MATE {
        -MATE as int
    } else {
        score
    }
}

/// Alpha tightened by mate-distance pruning: being mated right here is the
/// worst this node can do.
pub open spec fn spec_mate_alpha(alpha: int, ply: int) -> int {
    if alpha > ply - MATE {
        alpha
    } else {
        ply - MATE
    }
}

/// Beta tightened by mate-distance pruning: mating next move is the best
/// this node can do.
pub open spec fn spec_mate_beta(beta: int, ply: int) -> int {
    if beta < MATE - (ply + 1) {
        beta
    } else {
        MATE - (ply + 1)
    }
}

/// The score a finished game earns at `ply`: a checkmate against the side
/// to move counts the ply so nearer mates score higher, a draw earns the
/// node-counter jitter, and an ongoing game earns nothing here.
pub fn terminal_score(status: GameStatus, ply: usize, nodes: u64) -> (r: Option<i32>)
    requires
        ply <= MAX_PLY,
    ensures
        status == GameStatus::Won ==> (r matches Some(s) && s == ply - MATE),
        status == GameStatus::Drawn ==> (r matches Some(s) && s == spec_draw_jitter(nodes)),
        status == GameStatus::Ongoing ==> r is None,
        r matches Some(s) ==> -MATE <= s <= MATE,
{
    match status {
        GameStatus::Won => Some(ply as i32 - MATE),
        GameStatus::Drawn => Some(8 - (nodes % 8) as i32),
        GameStatus::Ongoing => None,
    }
}

/// Whether `hash` occurs among the last `reach` entries of the game line,
/// skipping the final entry, which is the position itself.
pub open spec fn spec_repetition(gh: Seq<u64>, reach: int, hash: u64) -> bool {
    exists|j: int|
        {
            &&& gh.len() - reach <= j
            &&& 0 <= j <= gh.len() - 2
            &&& gh[j] == hash
        }
}

/// Scans the tail of the game line for an earlier occurrence of `hash`,
/// looking back at most `reach` entries and skipping the last one.
pub fn repetition_within(gh: &Vec<u64>, reach: usize, hash: u64) -> (r: bool)
    requires
        reach <= 100,
    ensures
        r == spec_repetition(gh@, reach as int, hash),
{
    let n: usize = gh.len();
    let mut i: usize = 2;
    while i <= reach && i <= n
        invariant
            2 <= i,
            reach <= 100,
            n == gh@.len(),
            forall|j: int| n - i < j <= n - 2 && 0 <= j ==> gh@[j] != hash,
        decreases n + reach - i,
    {
        if gh[n - i] == hash {
            return true;
        }
        i += 1;
    }
    false
}

/// One per-ply frame of search bookkeeping.
pub struct StackEntry {
    pub eval: i32,
}

impl Default for StackEntry {
    /// A frame whose eval has not been computed yet.
    fn default() -> (r: StackEntry)
        ensures
            r.eval == NONE,
    {
        StackEntry { eval: NONE }
    }
}

/// Everything one search invocation reads and writes besides the board:
/// limits, counters, the game line, and the ordering heuristics.
pub struct SearchInfo {
    pub stop: bool,
    pub search_type: SearchType,
    pub timer: Option<std::time::Instant>,
    pub max_time: Option<u64>,
    pub nodes: u64,
    pub seldepth: usize,
    pub game_history: Vec<u64>,
    pub killers: Vec<(Option<MoveData>, Option<MoveData>)>,
    pub history: History,
    pub stack: Vec<StackEntry>,
}

impl SearchInfo {
    /// The per-ply tables span every ply and the history table is sound.
    pub open spec fn wf(self) -> bool {
        &&& self.history.wf()
        &&& self.killers@.len() == MAX_PLY
        &&& self.stack@.len() == MAX_PLY
    }

    /// Fresh bookkeeping: nothing searched, nothing remembered.
    pub fn new() -> (r: SearchInfo)
        ensures
            r.wf(),
            !r.stop,
            r.nodes == 0,
            r.seldepth == 0,
            r.game_history@.len() == 0,
            r.timer is None,
            r.max_time is None,
            r.search_type == SearchType::Depth(0),
            forall|i: int|
                0 <= i < MAX_PLY ==> (#[trigger] r.killers@[i]).0 is None && r.killers@[i].1
                    is None,
            forall|i: int| 0 <= i < MAX_PLY ==> (#[trigger] r.stack@[i]).eval == NONE,
            forall|i: int| 0 <= i < 8192 ==> r.history.table@[i] == 0i16,
    {
        let mut killers: Vec<(Option<MoveData>, Option<MoveData>)> = Vec::new();
        let mut stack: Vec<StackEntry> = Vec::new();
        let mut i: usize = 0;
        while i < MAX_PLY
            invariant
                killers@.len() == i,
                stack@.len() == i,
                i <= MAX_PLY,
                forall|k: int|
                    0 <= k < i ==> (#[trigger] killers@[k]).0 is None && killers@[k].1 is None,
                forall|k: int| 0 <= k < i ==> (#[trigger] stack@[k]).eval == NONE,
            decreases MAX_PLY - i,
        {
            killers.push((None, None));
            stack.push(StackEntry { eval: NONE });
            i += 1;
        }
        SearchInfo {
            stop: false,
            search_type: SearchType::Depth(0),
            timer: None,
            max_time: None,
            nodes: 0,
            seldepth: 0,
            game_history: Vec::new(),
            killers,
            history: History::new(),
            stack,
        }
    }
}

/// One completed iteration of the deepening loop, ready to be printed as a
/// UCI info line.
pub struct IterationInfo {
    pub depth: usize,
    pub seldepth: usize,
    pub score: i32,
    pub nodes: u64,
    pub time_ms: u64,
    /// The principal variation as moves; its head is the move to play.
    pub pv_moves: Vec<MoveData>,
    /// The same line formatted for a UCI info line.
    pub pv_line: String,
}

/// What a whole search run returns: the per-iteration reports, the score of
/// the last completed iteration, and the move to play.
pub struct SearchReport {
    pub iterations: Vec<IterationInfo>,
    pub score: i32,
    pub best_move: Option<MoveData>,
}

/// The engine: incremental evaluation, the shared cache, the heuristics and
/// the search itself.
pub struct Search {
    pub nnue: NNUEState,
    pub tt: TT,
    pub info: SearchInfo,
    pub lmr: LMRTable,
    /// When set, every move is searched with the full window: the
    /// zero-window scouts and their re-searches are disabled. Plain
    /// alpha-beta for comparison runs; off in normal play.
    pub full_window: bool,
}

impl Search {
    /// Every component is internally sound.
    pub open spec fn wf(self) -> bool {
        &&& self.nnue.wf()
        &&& self.tt.wf()
        &&& self.info.wf()
        &&& self.lmr.wf()
    }

    /// A fresh engine around a cache and a network, with the accumulator
    /// built from the starting position.
    pub fn new(tt: TT, net: Network) -> (r: Search)
        requires
            tt.wf(),
            net.wf(),
        ensures
            r.wf(),
            r.nnue.current_acc == 0,
            !r.info.stop,
            r.info.nodes == 0,
            r.info.game_history@.len() == 0,
            !r.full_window,
            r.tt == tt,
    {
        let start = board::board_default();
        let nnue = NNUEState::from_board(&start, net);
        Search { nnue, tt, info: SearchInfo::new(), lmr: LMRTable::new(), full_window: false }
    }

    /// The near-zero draw score: a deterministic jitter derived from the
    /// node counter, so repeated draws do not all look identical.
    fn draw_score(&self) -> (r: i32)
        ensures
            1 <= r <= 8,
            r == spec_draw_jitter(self.info.nodes),
    {
        8 - (self.info.nodes % 8) as i32
    }

    /// Whether the current position already occurred in the game line or
    /// the current search line, within the reach of the halfmove clock the
    /// oracle reports. A single earlier occurrence counts: two-fold
    /// suffices inside the tree.
    fn repetition(&self, b: &cozy_chess::Board, hash: u64) -> (r: bool)
        ensures
            r ==> exists|j: int|
                0 <= j <= self.info.game_history@.len() - 2 && self.info.game_history@[j]
                    == hash,
    {
        let hm: usize = board::board_halfmove_clock(b) as usize;
        repetition_within(&self.info.game_history, hm, hash)
    }

    /// Bitboard of the side's knights, bishops, rooks and queens: null-move
    /// pruning is unsound without such material on the board.
    fn non_pawn_material(&self, b: &cozy_chess::Board, color: Color) -> (r: u64) {
        let minors_majors: u64 = board::board_pieces(b, PIECE_KNIGHT) | board::board_pieces(
            b,
            PIECE_BISHOP,
        ) | board::board_pieces(b, PIECE_ROOK) | board::board_pieces(b, PIECE_QUEEN);
        minors_majors & board::board_colors(b, color)
    }

    /// Principal-variation search with alpha-beta pruning: the window
    /// `(alpha, beta)` bounds the scores the caller still cares about.
    /// Returns a score in the legal range, restores the accumulator stack
    /// and the game line, and never grows or re-ages the cache.
    pub fn pvsearch<const PV: bool>(
        &mut self,
        b: &cozy_chess::Board,
        pv: &mut PVTable,
        alpha: i32,
        beta: i32,
        depth: i32,
        ply: usize,
    ) -> (r: i32)
        requires
            old(self).wf(),
            old(pv).wf(),
            -INFINITY <= alpha < beta <= INFINITY,
            depth <= MAX_PLY,
            ply <= MAX_PLY,
            old(self).nnue.current_acc <= ply,
        ensures
            final(self).wf(),
            final(pv).wf(),
            final(self).nnue.current_acc == old(self).nnue.current_acc,
            final(self).info.game_history@ == old(self).info.game_history@,
            final(self).tt.entries@.len() == old(self).tt.entries@.len(),
            final(self).tt.age == old(self).tt.age,
            final(self).info.timer == old(self).info.timer,
            old(self).info.timer is None && !old(self).info.stop ==> !final(self).info.stop,
            -INFINITY <= r <= INFINITY,
            old(self).info.stop && ply > 0 ==> {
                &&& r == 0
                &&& final(self).tt == old(self).tt
                &&& final(self).nnue == old(self).nnue
                &&& final(self).info.killers@ == old(self).info.killers@
                &&& final(self).info.history == old(self).info.history
                &&& final(self).info.nodes == old(self).info.nodes
            },
            old(self).info.timer is None && !old(self).info.stop && ply >= MAX_PLY ==> {
                ||| r == old(self).nnue.spec_evaluate(Color::White)
                ||| r == old(self).nnue.spec_evaluate(Color::Black)
            },
            ply > 0 && spec_mate_alpha(alpha as int, ply as int) >= spec_mate_beta(
                beta as int,
                ply as int,
            ) ==> {
                ||| r == 0
                ||| r == old(self).nnue.spec_evaluate(Color::White)
                ||| r == old(self).nnue.spec_evaluate(Color::Black)
                ||| r == ply - MATE
                ||| r == spec_draw_jitter(old(self).info.nodes)
                ||| r == spec_mate_alpha(alpha as int, ply as int)
            },
        decreases MAX_PLY - ply, 1int,
    {
        let mut alpha: i32 = alpha;
        if self.info.nodes % 1024 == 0 {
            let over: bool = match (&self.info.timer, &self.info.max_time) {
                (Some(t), Some(m)) => board::clock_elapsed_ms(t) >= *m,
                _ => false,
            };
            if over {
                self.info.stop = true;
            }
        }
        if self.info.stop && ply > 0 {
            return 0;
        }
        let stm: Color = board::board_stm(b);
        if ply >= MAX_PLY {
            return self.nnue.evaluate(stm);
        }
        let hash_key: u64 = board::board_hash(b);
        if ply > self.info.seldepth {
            self.info.seldepth = ply;
        }
        let depth: i32 = if depth < 0 {
            0
        } else {
            depth
        };
        let mut old_pv = PVTable::new();
        pv.length = 0;
        let status: GameStatus = board::board_status(b);
        if let Some(s) = terminal_score(status, ply, self.info.nodes) {
            return s;
        }
        let root: bool = ply == 0;
        if !root {
            if self.repetition(b, hash_key) {
                return self.draw_score();
            }
            // Mate distance pruning: no score here can beat a mate already
            // found closer to the root.
            let mate_alpha: i32 = if alpha > ply as i32 - MATE {
                alpha
            } else {
                ply as i32 - MATE
            };
            let mate_beta: i32 = if beta < MATE - (ply as i32 + 1) {
                beta
            } else {
                MATE - (ply as i32 + 1)
            };
            if mate_alpha >= mate_beta {
                return mate_alpha;
            }
        }
        let in_check: bool = board::board_checkers(b) != 0;
        if depth == 0 && !in_check {
            return self.qsearch::<PV>(b, alpha, beta, ply);
        }
        // A cached score is better than the static eval, whatever its bound.
        let eval: i32;
        let tt_entry = self.tt.probe(hash_key);
        let key_bits: u16 = (hash_key % 65536) as u16;
        let tt_hit: bool = tt_entry.key == key_bits;
        let mut tt_move: Option<MoveData> = None;
        if tt_hit {
            eval = self.tt.score_from_tt(tt_entry.score, ply);
            tt_move = Some(PackedMove::unpack(tt_entry.mv));
        } else {
            eval = self.nnue.evaluate(stm);
        }
        if let Some(cut) = crate::tt::tt_cutoff(tt_entry, key_bits, depth, alpha, beta, ply, PV) {
            return cut;
        }
        // Improving: our eval two plies ago was worse, so pruning margins
        // may be halved.
        self.info.stack.set(ply, StackEntry { eval });
        let improving: bool = ply > 1 && !in_check && eval > self.info.stack[ply - 2].eval;
        let rfp_divisor: i32 = if improving {
            2
        } else {
            1
        };
        if !PV && !in_check {
            // Null-move pruning: hand the opponent a free move; if the
            // reduced search still fails high, the node is already won.
            // Unsound in zugzwang, hence the non-pawn-material check.
            if depth >= 3 && eval >= beta && self.non_pawn_material(b, stm) != 0 {
                let gain: i32 = (eval - beta) / 200;
                let red: i32 = 3 + depth / 3 + if gain < 3 {
                    gain
                } else {
                    3
                };
                if let Some(null_b) = board::board_null_move(b) {
                    let score: i32 = -self.zw_search(
                        &null_b,
                        &mut old_pv,
                        -beta,
                        -beta + 1,
                        depth - red,
                        ply + 1,
                    );
                    if score >= beta {
                        if score >= TB_WIN_IN_PLY {
                            return beta;
                        }
                        return score;
                    }
                }
            }
            // Reverse futility pruning: the static eval clears beta by a
            // depth-scaled margin.
            if depth < 9 && eval >= beta + RFP_MARGIN * depth / rfp_divisor {
                return eval;
            }
        }
        let old_alpha: i32 = alpha;
        let mut best_score: i32 = -INFINITY;
        let mut best_move: Option<MoveData> = None;
        let mut moves_played: usize = 0;
        let ks: (Option<MoveData>, Option<MoveData>) = self.info.killers[ply];
        let move_list = picker::all_moves(b, tt_move, ks.0, ks.1, &self.info.history);
        let mut quiet_moves: Vec<MoveData> = Vec::new();
        let mut pk = Picker::new(move_list);
        let lmr_threshold: usize = if PV {
            5
        } else {
            3
        };
        let mut quiets_checked: usize = 0;
        let quiets_to_check: usize = match depth {
            1 => 5,
            2 => 8,
            3 => 18,
            _ => MAX_MOVES_POSITION,
        };
        // Check extension: threats get one extra ply.
        let depth: i32 = depth + if in_check {
            1
        } else {
            0
        };
        loop
            invariant_except_break
                -INFINITY <= alpha < beta <= INFINITY,
            invariant
                self.wf(),
                pv.wf(),
                old_pv.wf(),
                pk.wf(),
                ply < MAX_PLY,
                1 <= depth <= MAX_PLY + 1,
                self.nnue.current_acc == old(self).nnue.current_acc,
                self.nnue.current_acc <= ply,
                self.info.game_history@ == old(self).info.game_history@,
                self.tt.entries@.len() == old(self).tt.entries@.len(),
                self.tt.age == old(self).tt.age,
                self.info.timer == old(self).info.timer,
                old(self).info.timer is None && !old(self).info.stop ==> !self.info.stop,
                -INFINITY <= best_score <= INFINITY,
                best_move matches Some(m) ==> m.wf(),
                moves_played <= pk.index,
                quiets_checked <= pk.index,
                quiet_moves@.len() <= pk.index,
                forall|i: int| 0 <= i < quiet_moves@.len() ==> (#[trigger] quiet_moves@[i]).wf(),
            decreases pk.moves@.len() - pk.index,
        {
            let picked = pk.pick_move();
            let mv: MoveData = match picked {
                None => { break; },
                Some(m) => m,
            };
            let quiet: bool = position::is_quiet(b, mv);
            if quiet {
                quiets_checked += 1;
                // Late move pruning: at shallow depth, stop after a few
                // quiet moves.
                if !PV && !in_check && quiets_checked >= quiets_to_check {
                    break;
                }
                quiet_moves.push(mv);
            }
            let capture: bool = position::is_capture(b, mv);
            let mut new_b = board::board_clone(b);
            if !position::play_move(&mut new_b, &mut self.nnue, mv) {
                continue;
            }
            moves_played += 1;
            self.info.game_history.push(hash_key);
            self.info.nodes = self.info.nodes.wrapping_add(1);
            let gives_check: bool = board::board_checkers(&new_b) != 0;
            let mut score: i32;
            if moves_played == 1 || self.full_window {
                score = -self.pvsearch::<PV>(&new_b, &mut old_pv, -beta, -alpha, depth - 1, ply
                    + 1);
            } else {
                // Late move reduction: with decent ordering, late moves are
                // worse; search them shallower and re-search on a surprise.
                let red: i32 = if depth >= 3 && moves_played > lmr_threshold {
                    let mp: i32 = if moves_played > 255 {
                        255
                    } else {
                        moves_played as i32
                    };
                    let mut rr: i32 = self.lmr.reduction(depth, mp);
                    if !PV {
                        rr += 1;
                    }
                    if capture {
                        rr -= 1;
                    }
                    if gives_check {
                        rr -= 1;
                    }
                    if rr < 1 {
                        1
                    } else if rr > depth - 1 {
                        depth - 1
                    } else {
                        rr
                    }
                } else {
                    1
                };
                score = -self.zw_search(&new_b, &mut old_pv, -alpha - 1, -alpha, depth - red, ply
                    + 1);
                if alpha < score && score < beta {
                    score = -self.pvsearch::<PV>(&new_b, &mut old_pv, -beta, -alpha, depth - 1, ply
                        + 1);
                }
            }
            self.info.game_history.pop();
            self.nnue.pop();
            proof {
                assert(self.info.game_history@ =~= old(self).info.game_history@);
            }
            if score <= best_score {
                continue;
            }
            best_score = score;
            if score <= alpha {
                continue;
            }
            alpha = score;
            best_move = Some(mv);
            pv.store(mv, &old_pv);
            if score >= beta {
                if quiet {
                    // A quiet cutoff feeds the killer and history tables.
                    let k0: Option<MoveData> = self.info.killers[ply].0;
                    self.info.killers.set(ply, (Some(mv), k0));
                    self.info.history.update_table::<true>(stm, mv, depth);
                    let count: usize = quiet_moves.len() - 1;
                    self.info.history.penalize_quiets(stm, &quiet_moves, count, depth);
                }
                break;
            }
        }
        let flag: TTFlag = crate::tt::store_flag(best_score, beta, old_alpha);
        if !self.info.stop {
            self.tt.store(hash_key, best_move, best_score, depth, flag, ply);
        }
        best_score
    }

    /// Searches one depth inside a window around the previous score,
    /// retrying with a wider window whenever the result falls outside it.
    pub fn aspiration_window(
        &mut self,
        b: &cozy_chess::Board,
        pv: &mut PVTable,
        prev_eval: i32,
        depth: i32,
    ) -> (r: i32)
        requires
            old(self).wf(),
            old(pv).wf(),
            -INFINITY <= prev_eval <= INFINITY,
            1 <= depth <= MAX_PLY,
            old(self).nnue.current_acc == 0,
        ensures
            final(self).wf(),
            final(pv).wf(),
            final(self).nnue.current_acc == 0,
            final(self).info.game_history@ == old(self).info.game_history@,
            final(self).tt.entries@.len() == old(self).tt.entries@.len(),
            final(self).tt.age == old(self).tt.age,
            final(self).info.timer == old(self).info.timer,
            old(self).info.timer is None && !old(self).info.stop ==> !final(self).info.stop,
            -INFINITY <= r <= INFINITY,
    {
        let init_depth: i32 = depth;
        let mut depth: i32 = depth;
        let mut delta: i32 = 25;
        let mut alpha: i32 = -INFINITY;
        let mut beta: i32 = INFINITY;
        if depth >= 5 {
            alpha = if prev_eval - delta > -INFINITY {
                prev_eval - delta
            } else {
                -INFINITY
            };
            beta = if prev_eval + delta < INFINITY {
                prev_eval + delta
            } else {
                INFINITY
            };
        }
        let mut done: bool = false;
        let mut result: i32 = 0;
        // The window more than doubles on every retry, so it spans the
        // whole score range long before this bound is reached.
        let mut tries: u32 = 0;
        while !done && tries < 64
            invariant
                self.wf(),
                pv.wf(),
                -INFINITY <= alpha < beta <= INFINITY,
                25 <= delta <= INFINITY,
                depth <= init_depth <= MAX_PLY,
                1 <= init_depth,
                tries <= 64,
                init_depth - tries <= depth,
                -INFINITY <= result <= INFINITY,
                self.nnue.current_acc == 0,
                self.info.game_history@ == old(self).info.game_history@,
                self.tt.entries@.len() == old(self).tt.entries@.len(),
                self.tt.age == old(self).tt.age,
                self.info.timer == old(self).info.timer,
                old(self).info.timer is None && !old(self).info.stop ==> !self.info.stop,
            decreases 64 - tries,
        {
            tries += 1;
            let score: i32 = self.pvsearch::<true>(b, pv, alpha, beta, depth, 0);
            result = score;
            if self.info.stop {
                result = 0;
                done = true;
            } else if score <= alpha {
                // Fail low: drop beta toward the window, widen alpha, and
                // start the iteration over at its full depth.
                beta = (alpha + beta) / 2;
                alpha = if score - delta > -INFINITY {
                    score - delta
                } else {
                    -INFINITY
                };
                depth = init_depth;
                delta = if delta > INFINITY - delta / 2 {
                    INFINITY
                } else {
                    delta + delta / 2
                };
            } else if score >= beta {
                // Fail high: widen beta; outside the mate bands the re-try
                // may run one ply shallower.
                beta = if score + delta < INFINITY {
                    score + delta
                } else {
                    INFINITY
                };
                let in_mate_band: bool = score >= MATE_IN || score <= -MATE_IN;
                if !in_mate_band {
                    depth -= 1;
                }
                delta = if delta > INFINITY - delta / 2 {
                    INFINITY
                } else {
                    delta + delta / 2
                };
            } else {
                result = score;
                done = true;
            }
        }
        result
    }

    /// Iterative deepening: searches depth 1, 2, ... until the requested
    /// limit, the node budget or the optimal time budget is spent, keeping
    /// the best move of the last completed iteration. Returns one report
    /// per completed iteration, ready to be printed as UCI info lines.
    pub fn iterative_deepening(&mut self, b: &cozy_chess::Board, st: SearchType) -> (r:
        SearchReport)
        requires
            old(self).wf(),
            old(self).nnue.current_acc == 0,
        ensures
            final(self).wf(),
            final(self).nnue.current_acc == 0,
            -MATE <= r.score <= MATE,
            r.best_move matches Some(m) ==> m.wf(),
            st matches SearchType::Depth(dd) && dd >= 1 && old(self).info.timer is None && !old(self).info.stop ==> r.iterations@.len() >= 1,
            !final(self).info.stop && r.iterations@.len() > 0 ==> r.score == r.iterations@[
                r.iterations@.len() - 1
            ].score,
            r.iterations@.len() > 0 && r.iterations@[r.iterations@.len() - 1].pv_moves@.len() > 0
                ==> r.best_move == Some(r.iterations@[r.iterations@.len() - 1].pv_moves@[0]),
    {
        let depth_limit: usize;
        let mut opt_time: Option<u64> = None;
        let mut goal_nodes: Option<u64> = None;
        match st {
            SearchType::Time(opt, max) => {
                depth_limit = MAX_PLY;
                self.info.timer = Some(board::clock_now());
                self.info.max_time = Some(max);
                opt_time = Some(opt);
            },
            SearchType::Infinite => {
                depth_limit = MAX_PLY;
            },
            SearchType::Depth(d) => {
                depth_limit = if d < 0 {
                    0
                } else if d > MAX_PLY as i32 {
                    MAX_PLY
                } else {
                    d as usize
                };
            },
            SearchType::Nodes(n) => {
                depth_limit = MAX_PLY;
                goal_nodes = Some(n);
            },
        }
        let info_timer = board::clock_now();
        let mut best_move: Option<MoveData> = None;
        let mut score: i32 = 0;
        let mut pv = PVTable::new();
        let mut iterations: Vec<IterationInfo> = Vec::new();
        let mut d: usize = 1;
        let mut stopped: bool = false;
        while !stopped && d <= depth_limit
            invariant
                self.wf(),
                pv.wf(),
                self.nnue.current_acc == 0,
                1 <= d,
                depth_limit <= MAX_PLY,
                -INFINITY <= score <= INFINITY,
                best_move matches Some(m) ==> m.wf(),
                st matches SearchType::Depth(dd) ==> {
                    &&& goal_nodes is None
                    &&& opt_time is None
                    &&& self.info.timer == old(self).info.timer
                    &&& (dd >= 1 ==> depth_limit >= 1)
                },
                st matches SearchType::Depth(dd) && old(self).info.timer is None && !old(self).info.stop ==> {
                    &&& !self.info.stop
                    &&& !stopped
                    &&& iterations@.len() + 1 == d
                },
                !self.info.stop && iterations@.len() > 0 ==> iterations@[
                    iterations@.len() - 1
                ].score == spec_clamp_report(score as int),
                iterations@.len() > 0 && iterations@[iterations@.len() - 1].pv_moves@.len() > 0
                    ==> best_move == Some(iterations@[iterations@.len() - 1].pv_moves@[0]),
            decreases depth_limit - d + 1 + if stopped {
                0int
            } else {
                1int
            },
        {
            self.info.seldepth = 0;
            score = self.aspiration_window(b, &mut pv, score, d as i32);
            if self.info.stop && d > 1 {
                stopped = true;
            } else {
                if pv.length > 0 {
                    best_move = Some(pv.table[0]);
                }
                let score_c: i32 = if score > MATE {
                    MATE
                } else if score < -MATE {
                    -MATE
                } else {
                    score
                };
                let pv_moves = pv.line_moves();
                proof {
                    assert(pv.length > 0 ==> pv_moves@[0] == pv.line()[0]);
                }
                iterations.push(
                    IterationInfo {
                        depth: d,
                        seldepth: self.info.seldepth,
                        score: score_c,
                        nodes: self.info.nodes,
                        time_ms: board::clock_elapsed_ms(&info_timer),
                        pv_moves,
                        pv_line: fmt::pv_string(&pv),
                    },
                );
                if let Some(n) = goal_nodes {
                    if self.info.nodes >= n {
                        stopped = true;
                    }
                }
                if let Some(opt) = opt_time {
                    if board::clock_elapsed_ms(&info_timer) >= opt {
                        stopped = true;
                    }
                }
                d += 1;
            }
        }
        let final_score: i32 = if score > MATE {
            MATE
        } else if score < -MATE {
            -MATE
        } else {
            score
        };
        SearchReport { iterations, score: final_score, best_move }
    }

    /// Runs a depth- or node-limited search and hands back the score and
    /// best move of the last completed iteration, with no report text.
    pub fn data_search(&mut self, b: &cozy_chess::Board, st: SearchType) -> (r: (
        i32,
        Option<MoveData>,
    ))
        requires
            old(self).wf(),
            old(self).nnue.current_acc == 0,
            st matches SearchType::Depth(_) || st matches SearchType::Nodes(_),
        ensures
            final(self).wf(),
            final(self).nnue.current_acc == 0,
            -MATE <= r.0 <= MATE,
            r.1 matches Some(m) ==> m.wf(),
    {
        let report = self.iterative_deepening(b, st);
        (report.score, report.best_move)
    }

    /// Forgets the per-search state before a new `go`: counters and killers
    /// reset, history fades, the cache starts a new generation.
    pub fn go_reset(&mut self)
        requires
            old(self).wf(),
        ensures
            final(self).wf(),
            !final(self).info.stop,
            final(self).info.nodes == 0,
            final(self).info.seldepth == 0,
            final(self).info.timer is None,
            final(self).info.max_time is None,
            final(self).info.search_type == SearchType::Depth(0),
            final(self).info.game_history@ == old(self).info.game_history@,
            final(self).info.stack == old(self).info.stack,
            final(self).nnue == old(self).nnue,
            final(self).tt.age == (old(self).tt.age + 1) % 64,
            final(self).tt.entries@ == old(self).tt.entries@,
            forall|i: int|
                0 <= i < MAX_PLY ==> (#[trigger] final(self).info.killers@[i]).0 is None && final(self).info.killers@[i].1 is None,
            forall|i: int|
                0 <= i < 8192 ==> final(self).info.history.table@[i] == crate::history::spec_halved(
                    old(self).info.history.table@[i],
                ),
    {
        self.info.stop = false;
        self.info.search_type = SearchType::Depth(0);
        self.info.timer = None;
        self.info.max_time = None;
        self.info.nodes = 0;
        self.info.seldepth = 0;
        let mut i: usize = 0;
        while i < MAX_PLY
            invariant
                i <= MAX_PLY,
                old(self).wf(),
                self.info.killers@.len() == MAX_PLY,
                self.info.history == old(self).info.history,
                self.info.stack == old(self).info.stack,
                self.info.stack@.len() == MAX_PLY,
                self.tt == old(self).tt,
                self.nnue == old(self).nnue,
                self.lmr == old(self).lmr,
                self.info.game_history@ == old(self).info.game_history@,
                !self.info.stop,
                self.info.nodes == 0,
                self.info.seldepth == 0,
                self.info.timer is None,
                self.info.max_time is None,
                self.info.search_type == SearchType::Depth(0),
                forall|k: int|
                    0 <= k < i ==> (#[trigger] self.info.killers@[k]).0 is None
                        && self.info.killers@[k].1 is None,
            decreases MAX_PLY - i,
        {
            self.info.killers.set(i, (None, None));
            i += 1;
        }
        self.info.history.age_table();
        self.tt.age();
    }

    /// Forgets everything from the previous game: the cache is zeroed and
    /// the bookkeeping starts from scratch.
    pub fn game_reset(&mut self)
        requires
            old(self).wf(),
        ensures
            final(self).wf(),
            !final(self).info.stop,
            final(self).info.nodes == 0,
            final(self).info.seldepth == 0,
            final(self).info.timer is None,
            final(self).info.max_time is None,
            final(self).info.game_history@.len() == 0,
            final(self).tt.age == 0,
            final(self).nnue == old(self).nnue,
            forall|i: int|
                0 <= i < final(self).tt.entries@.len() ==> final(self).tt.entries@[i]
                    == crate::tt::TTEntry::spec_empty(),
            forall|i: int|
                0 <= i < MAX_PLY ==> (#[trigger] final(self).info.killers@[i]).0 is None && final(self).info.killers@[i].1 is None,
            forall|i: int| 0 <= i < MAX_PLY ==> (#[trigger] final(self).info.stack@[i]).eval == NONE,
            forall|i: int| 0 <= i < 8192 ==> final(self).info.history.table@[i] == 0i16,
    {
        self.tt.reset();
        self.info = SearchInfo::new();
    }

    /// Zero-window probe: tests whether a position is better or worse than
    /// a fixed value, more cheaply than a full-window search.
    fn zw_search(
        &mut self,
        b: &cozy_chess::Board,
        pv: &mut PVTable,
        alpha: i32,
        beta: i32,
        depth: i32,
        ply: usize,
    ) -> (r: i32)
        requires
            old(self).wf(),
            old(pv).wf(),
            -INFINITY <= alpha < beta <= INFINITY,
            depth <= MAX_PLY,
            ply <= MAX_PLY,
            old(self).nnue.current_acc <= ply,
        ensures
            final(self).wf(),
            final(pv).wf(),
            final(self).nnue.current_acc == old(self).nnue.current_acc,
            final(self).info.game_history@ == old(self).info.game_history@,
            final(self).tt.entries@.len() == old(self).tt.entries@.len(),
            final(self).tt.age == old(self).tt.age,
            final(self).info.timer == old(self).info.timer,
            old(self).info.timer is None && !old(self).info.stop ==> !final(self).info.stop,
            -INFINITY <= r <= INFINITY,
        decreases MAX_PLY - ply, 2int,
    {
        self.pvsearch::<false>(b, pv, alpha, beta, depth, ply)
    }

    /// Quiescence search: stands pat on the static eval and explores only
    /// captures, so the horizon falls on a quiet position. Always returns a
    /// score in the legal range and restores the accumulator stack and the
    /// game line to what they were.
    pub fn qsearch<const PV: bool>(
        &mut self,
        b: &cozy_chess::Board,
        alpha: i32,
        beta: i32,
        ply: usize,
    ) -> (r: i32)
        requires
            old(self).wf(),
            -INFINITY <= alpha < beta <= INFINITY,
            ply <= MAX_PLY,
            old(self).nnue.current_acc <= ply,
        ensures
            final(self).wf(),
            final(self).nnue.current_acc == old(self).nnue.current_acc,
            final(self).info.game_history@ == old(self).info.game_history@,
            final(self).tt.entries@.len() == old(self).tt.entries@.len(),
            final(self).tt.age == old(self).tt.age,
            final(self).info.killers@ == old(self).info.killers@,
            final(self).info.history == old(self).info.history,
            final(self).info.timer == old(self).info.timer,
            old(self).info.timer is None && !old(self).info.stop ==> !final(self).info.stop,
            -INFINITY <= r <= INFINITY,
            old(self).info.stop && ply > 0 ==> {
                &&& r == 0
                &&& final(self).tt == old(self).tt
                &&& final(self).nnue == old(self).nnue
                &&& final(self).info.nodes == old(self).info.nodes
            },
            old(self).info.timer is None && !old(self).info.stop && ply >= MAX_PLY ==> {
                ||| r == old(self).nnue.spec_evaluate(Color::White)
                ||| r == old(self).nnue.spec_evaluate(Color::Black)
            },
            old(self).info.timer is None && !old(self).info.stop && ply < MAX_PLY ==> {
                ||| r >= old(self).nnue.spec_evaluate(Color::White)
                ||| r >= old(self).nnue.spec_evaluate(Color::Black)
                ||| exists|i: int|
                    0 <= i < old(self).tt.entries@.len() && r == crate::tt::spec_score_from_tt(
                        old(self).tt.entries@[i].score as int,
                        ply as int,
                    )
            },
            old(self).info.timer is None && !old(self).info.stop && ply < MAX_PLY && old(self).nnue.spec_evaluate(Color::White) >= beta && old(self).nnue.spec_evaluate(Color::Black)
                >= beta ==> {
                &&& (r == old(self).nnue.spec_evaluate(Color::White) || r == old(self).nnue.spec_evaluate(Color::Black))
                &&& r >= beta
                &&& final(self).tt == old(self).tt
            },
        decreases MAX_PLY - ply, 0int,
    {
        let mut alpha: i32 = alpha;
        if self.info.nodes % 1024 == 0 {
            let over: bool = match (&self.info.timer, &self.info.max_time) {
                (Some(t), Some(m)) => board::clock_elapsed_ms(t) >= *m,
                _ => false,
            };
            if over {
                self.info.stop = true;
                return 0;
            }
        }
        if self.info.stop && ply > 0 {
            return 0;
        }
        let stm: Color = board::board_stm(b);
        if ply >= MAX_PLY {
            return self.nnue.evaluate(stm);
        }
        let hash_key: u64 = board::board_hash(b);
        if ply > self.info.seldepth {
            self.info.seldepth = ply;
        }
        let stand_pat: i32 = self.nnue.evaluate(stm);
        if stand_pat > alpha {
            alpha = stand_pat;
        }
        if stand_pat >= beta {
            return stand_pat;
        }
        let tt_entry = self.tt.probe(hash_key);
        let key_bits: u16 = (hash_key % 65536) as u16;
        let tt_hit: bool = tt_entry.key == key_bits;
        let mut tt_move: Option<MoveData> = None;
        if tt_hit && !PV && tt_entry.age_flag.0 != 0 {
            tt_move = Some(PackedMove::unpack(tt_entry.mv));
        }
        // The depth floor of zero is what quiescence entries are stored at.
        if let Some(cut) = crate::tt::tt_cutoff(tt_entry, key_bits, 0, alpha, beta, ply, PV) {
            return cut;
        }
        let captures = picker::capture_moves(b, tt_move, &self.info.history);
        let mut pk = Picker::new(captures);
        let mut best_score: i32 = stand_pat;
        let mut best_move: Option<MoveData> = None;
        loop
            invariant_except_break
                -INFINITY <= alpha < beta <= INFINITY,
            invariant
                self.wf(),
                ply < MAX_PLY,
                self.nnue.current_acc == old(self).nnue.current_acc,
                self.nnue.current_acc <= ply,
                self.info.game_history@ == old(self).info.game_history@,
                self.tt.entries@.len() == old(self).tt.entries@.len(),
                self.tt.age == old(self).tt.age,
                self.info.killers@ == old(self).info.killers@,
                self.info.history == old(self).info.history,
                self.info.timer == old(self).info.timer,
                old(self).info.timer is None && !old(self).info.stop ==> !self.info.stop,
                pk.wf(),
                -INFINITY <= best_score <= INFINITY,
                best_score >= stand_pat,
                stand_pat < beta,
                stand_pat == old(self).nnue.spec_evaluate(Color::White) || stand_pat == old(self).nnue.spec_evaluate(Color::Black),
                best_move matches Some(m) ==> m.wf(),
            decreases pk.moves@.len() - pk.index,
        {
            let picked = pk.pick_move();
            let mv: MoveData = match picked {
                None => { break; },
                Some(m) => m,
            };
            let mut new_b = board::board_clone(b);
            if !position::play_move(&mut new_b, &mut self.nnue, mv) {
                continue;
            }
            self.info.nodes = self.info.nodes.wrapping_add(1);
            let score: i32 = -self.qsearch::<PV>(&new_b, -beta, -alpha, ply + 1);
            self.nnue.pop();
            if score <= best_score {
                continue;
            }
            best_score = score;
            if score <= alpha {
                continue;
            }
            alpha = score;
            best_move = Some(mv);
            if score >= beta {
                break;
            }
        }
        let flag: TTFlag = crate::tt::qsearch_store_flag(best_score, beta);
        if !self.info.stop {
            self.tt.store(hash_key, best_move, best_score, 0, flag, ply);
        }
        best_score
    }
}

} // verus!
