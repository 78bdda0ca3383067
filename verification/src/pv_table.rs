use vstd::prelude::*;

use crate::types::MoveData;
use crate::MAX_PLY;

verus! {

/// One row of the triangular principal-variation table: the best line found
/// from some ply downward.
pub struct PVTable {
    pub length: usize,
    pub table: Vec<MoveData>,
}

impl PVTable {
    /// A fixed-size row holding at most `MAX_PLY` moves.
    pub open spec fn wf(self) -> bool {
        &&& self.table@.len() == MAX_PLY
        &&& self.length <= MAX_PLY
        &&& forall|i: int| 0 <= i < self.length ==> (#[trigger] self.table@[i]).wf()
    }

    /// The line this row currently holds.
    pub open spec fn line(self) -> Seq<MoveData> {
        self.table@.take(self.length as int)
    }

    /// An empty line.
    pub fn new() -> (r: PVTable)
        ensures
            r.wf(),
            r.length == 0,
            r.line() == Seq::<MoveData>::empty(),
    {
        let mut table: Vec<MoveData> = Vec::new();
        let mut i: usize = 0;
        while i < MAX_PLY
            invariant
                i <= MAX_PLY,
                table@.len() == i,
            decreases MAX_PLY - i,
        {
            table.push(MoveData { from: 0, to: 0, promo: 0 });
            i += 1;
        }
        let r = PVTable { length: 0, table };
        proof {
            assert(r.line() =~= Seq::<MoveData>::empty());
        }
        r
    }

    /// The line as an owned list of moves, for callers that keep it.
    pub fn line_moves(&self) -> (r: Vec<MoveData>)
        requires
            self.wf(),
        ensures
            r@ == self.line(),
    {
        let mut r: Vec<MoveData> = Vec::new();
        let mut i: usize = 0;
        while i < self.length
            invariant
                i <= self.length,
                self.wf(),
                r@ == self.line().take(i as int),
            decreases self.length - i,
        {
            r.push(self.table[i]);
            proof {
                assert(r@ =~= self.line().take(i + 1));
            }
            i += 1;
        }
        proof {
            assert(r@ =~= self.line());
        }
        r
    }

    /// On an alpha-improving move, this row becomes that move followed by
    /// the line found one ply deeper (cut off at the row's capacity).
    pub fn store(&mut self, mv: MoveData, rest: &PVTable)
        requires
            old(self).wf(),
            rest.wf(),
            mv.wf(),
        ensures
            final(self).wf(),
            final(self).line() == seq![mv] + rest.line().take(
                if rest.length < MAX_PLY - 1 {
                    rest.length as int
                } else {
                    MAX_PLY - 1
                },
            ),
    {
        self.table.set(0, mv);
        let n: usize = if rest.length < MAX_PLY - 1 {
            rest.length
        } else {
            MAX_PLY - 1
        };
        let mut i: usize = 0;
        while i < n
            invariant
                i <= n,
                n <= MAX_PLY - 1,
                n <= rest.length,
                rest.wf(),
                self.table@.len() == MAX_PLY,
                self.table@[0] == mv,
                forall|k: int| 0 <= k < i ==> self.table@[1 + k] == rest.table@[k],
                forall|k: int| 0 <= k < i + 1 ==> (#[trigger] self.table@[k]).wf(),
            decreases n - i,
        {
            self.table.set(i + 1, rest.table[i]);
            i += 1;
        }
        self.length = n + 1;
        proof {
            assert(self.line() =~= seq![mv] + rest.line().take(n as int));
        }
    }
}

} // verus!
