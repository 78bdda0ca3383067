use vstd::prelude::*;

use crate::types::{Color, MoveData};

verus! {

/// Largest magnitude a history score may reach.
pub const MAX_HIST: i32 = 16384;

/// Index of a (side, from, to) cell in the butterfly table.
pub open spec fn spec_hist_index(stm: Color, from: u8, to: u8) -> int {
    stm.spec_idx() * 4096 + from * 64 + to
}

/// A history cell after a bonus or malus of `depth * depth`, clamped.
pub open spec fn spec_hist_update(old: i16, depth: int, bonus: bool) -> i16 {
    let delta = if bonus {
        depth * depth
    } else {
        -(depth * depth)
    };
    let v = old + delta;
    if v > MAX_HIST {
        MAX_HIST as i16
    } else if v < -MAX_HIST {
        (-MAX_HIST) as i16
    } else {
        v as i16
    }
}

/// The butterfly history table: how often quiet moves from a square to a
/// square caused beta cutoffs lately, per side to move.
pub struct History {
    pub table: Vec<i16>,
}

impl History {
    /// One cell per (side, from, to), every cell within the clamp band.
    pub open spec fn wf(self) -> bool {
        &&& self.table@.len() == 8192
        &&& forall|i: int|
            0 <= i < 8192 ==> -MAX_HIST <= (#[trigger] self.table@[i]) <= MAX_HIST
    }

    /// A zeroed table.
    pub fn new() -> (r: History)
        ensures
            r.wf(),
            forall|i: int| 0 <= i < 8192 ==> r.table@[i] == 0i16,
    {
        let mut table: Vec<i16> = Vec::new();
        let mut i: usize = 0;
        while i < 8192
            invariant
                i <= 8192,
                table@.len() == i,
                forall|k: int| 0 <= k < i ==> table@[k] == 0i16,
            decreases 8192 - i,
        {
            table.push(0);
            i += 1;
        }
        History { table }
    }

    /// The stored score of a quiet move.
    pub fn get(&self, stm: Color, mv: MoveData) -> (r: i16)
        requires
            self.wf(),
            mv.wf(),
        ensures
            r == self.table@[spec_hist_index(stm, mv.from, mv.to)],
            -MAX_HIST <= r <= MAX_HIST,
    {
        let idx: usize = stm.idx() as usize * 4096 + mv.from as usize * 64 + mv.to as usize;
        self.table[idx]
    }

    /// Rewards a move that caused a cutoff, or punishes one that was tried
    /// first and did not, by `depth * depth`, clamped into the band.
    pub fn update_table<const BONUS: bool>(&mut self, stm: Color, mv: MoveData, depth: i32)
        requires
            old(self).wf(),
            mv.wf(),
            0 <= depth <= 256,
        ensures
            final(self).wf(),
            final(self).table@ == old(self).table@.update(
                spec_hist_index(stm, mv.from, mv.to),
                spec_hist_update(
                    old(self).table@[spec_hist_index(stm, mv.from, mv.to)],
                    depth as int,
                    BONUS,
                ),
            ),
    {
        let idx: usize = stm.idx() as usize * 4096 + mv.from as usize * 64 + mv.to as usize;
        proof {
            assert(depth * depth <= 256 * 256) by (nonlinear_arith)
                requires
                    0 <= depth <= 256,
            ;
        }
        let sq: i32 = depth * depth;
        let delta: i32 = if BONUS {
            sq
        } else {
            -sq
        };
        let v: i32 = self.table[idx] as i32 + delta;
        let clamped: i32 = if v > MAX_HIST {
            MAX_HIST
        } else if v < -MAX_HIST {
            -MAX_HIST
        } else {
            v
        };
        self.table.set(idx, clamped as i16);
    }

    /// Applies the malus to the first `count` quiet moves of a list: they
    /// were tried before the move that finally cut and did not.
    pub fn penalize_quiets(&mut self, stm: Color, quiets: &Vec<MoveData>, count: usize, depth: i32)
        requires
            old(self).wf(),
            count <= quiets@.len(),
            forall|i: int| 0 <= i < quiets@.len() ==> (#[trigger] quiets@[i]).wf(),
            0 <= depth <= 256,
        ensures
            final(self).wf(),
            final(self).table@ == spec_penalized(
                old(self).table@,
                stm,
                quiets@,
                count as int,
                depth as int,
            ),
    {
        let mut i: usize = 0;
        while i < count
            invariant
                i <= count,
                count <= quiets@.len(),
                self.wf(),
                0 <= depth <= 256,
                forall|k: int| 0 <= k < quiets@.len() ==> (#[trigger] quiets@[k]).wf(),
                self.table@ == spec_penalized(old(self).table@, stm, quiets@, i as int, depth as int),
            decreases count - i,
        {
            self.update_table::<false>(stm, quiets[i], depth);
            i += 1;
        }
    }

    /// Halves every cell between searches, so stale information fades.
    pub fn age_table(&mut self)
        requires
            old(self).wf(),
        ensures
            final(self).wf(),
            final(self).table@.len() == 8192,
            forall|i: int|
                0 <= i < 8192 ==> final(self).table@[i] == spec_halved(old(self).table@[i]),
    {
        let mut i: usize = 0;
        while i < 8192
            invariant
                i <= 8192,
                self.table@.len() == 8192,
                forall|k: int|
                    0 <= k < 8192 ==> -MAX_HIST <= (#[trigger] self.table@[k]) <= MAX_HIST,
                forall|k: int| i <= k < 8192 ==> self.table@[k] == old(self).table@[k],
                forall|k: int|
                    0 <= k < i ==> self.table@[k] == spec_halved(old(self).table@[k]),
            decreases 8192 - i,
        {
            let v: i16 = self.table[i];
            let halved: i16 = if v < 0 {
                -((-v) / 2)
            } else {
                v / 2
            };
            self.table.set(i, halved);
            i += 1;
        }
    }
}

/// The history table after the malus of one cutoff was applied, in order,
/// to the first `n` quiet moves of a list.
pub open spec fn spec_penalized(
    table: Seq<i16>,
    stm: Color,
    quiets: Seq<MoveData>,
    n: int,
    depth: int,
) -> Seq<i16>
    decreases n,
{
    if n <= 0 {
        table
    } else {
        let prev = spec_penalized(table, stm, quiets, n - 1, depth);
        let idx = spec_hist_index(stm, quiets[n - 1].from, quiets[n - 1].to);
        prev.update(idx, spec_hist_update(prev[idx], depth, false))
    }
}

/// A history cell divided by two, rounding toward zero.
pub open spec fn spec_halved(v: i16) -> i16 {
    if v < 0 {
        (-((-v) / 2)) as i16
    } else {
        (v / 2) as i16
    }
}

} // verus!
