use vstd::prelude::*;

verus! {

/// Precomputed late-move-reduction amounts, indexed by depth and by how
/// many moves were already played, both capped at 63.
pub struct LMRTable {
    pub table: Vec<i32>,
}

/// Fixed-point base-two logarithm with eight fractional bits, linearly
/// interpolated between powers of two; defined for 1 to 63.
fn log2_fixed(x: usize) -> (r: usize)
    requires
        1 <= x < 64,
    ensures
        r < 1536,
{
    if x >= 32 {
        x * 8 + 1024
    } else if x >= 16 {
        x * 16 + 768
    } else if x >= 8 {
        x * 32 + 512
    } else if x >= 4 {
        x * 64 + 256
    } else if x >= 2 {
        x * 128
    } else {
        0
    }
}

impl LMRTable {
    /// A full table of reductions.
    pub open spec fn wf(self) -> bool {
        &&& self.table@.len() == 4096
        &&& forall|i: int| 0 <= i < 4096 ==> 0 <= (#[trigger] self.table@[i]) <= 63
    }

    /// Fills the table with a smooth increasing function of
    /// log(depth) * log(moves played), roughly 0.77 + ln(d) * ln(m) / 2.36.
    pub fn new() -> (r: LMRTable)
        ensures
            r.wf(),
    {
        let mut table: Vec<i32> = Vec::new();
        let mut i: usize = 0;
        while i < 4096
            invariant
                i <= 4096,
                table@.len() == i,
                forall|k: int| 0 <= k < i ==> 0 <= (#[trigger] table@[k]) <= 63,
            decreases 4096 - i,
        {
            let d: usize = i / 64;
            let m: usize = i % 64;
            let v: i32 = if d < 1 || m < 1 {
                0
            } else {
                let a: usize = log2_fixed(d);
                let b: usize = log2_fixed(m);
                proof {
                    assert(a * b <= 1535 * 1535) by (nonlinear_arith)
                        requires
                            a < 1536,
                            b < 1536,
                    ;
                }
                let r1024: usize = 789 + a * b * 209 / 65536;
                let red: usize = r1024 / 1024;
                if red > 63 {
                    63
                } else {
                    red as i32
                }
            };
            table.push(v);
            i += 1;
        }
        LMRTable { table }
    }

    /// The reduction for a move at `depth` after `moves` earlier moves.
    pub fn reduction(&self, depth: i32, moves: i32) -> (r: i32)
        requires
            self.wf(),
            depth >= 0,
            moves >= 0,
        ensures
            0 <= r <= 63,
    {
        let d: usize = if depth > 63 {
            63
        } else {
            depth as usize
        };
        let m: usize = if moves > 63 {
            63
        } else {
            moves as usize
        };
        self.table[d * 64 + m]
    }
}

} // verus!
