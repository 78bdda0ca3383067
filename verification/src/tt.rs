use vstd::prelude::*;

use crate::types::MoveData;
use crate::{INFINITY, MATE_IN, MAX_PLY};

verus! {

/// How a cached score relates to the true minimax value it was stored for.
#[derive(Clone, Copy, PartialEq, Eq, Structural, Debug)]
pub enum TTFlag {
    /// The slot has never been written.
    NoBound,
    /// The score is the true value.
    Exact,
    /// The true value is at least the score (a beta cutoff happened).
    LowerBound,
    /// The true value is at most the score (no move beat alpha).
    UpperBound,
}

/// Two-bit code of a bound flag.
pub open spec fn spec_flag_code(f: TTFlag) -> u8 {
    match f {
        TTFlag::NoBound => 0,
        TTFlag::Exact => 1,
        TTFlag::LowerBound => 2,
        TTFlag::UpperBound => 3,
    }
}

/// A 6-bit generation and a 2-bit bound flag packed into one byte.
#[derive(Clone, Copy, PartialEq, Eq, Structural, Debug)]
pub struct AgeAndFlag(pub u8);

impl AgeAndFlag {
    /// Packs a generation below 64 with a bound flag.
    pub fn new(age: u8, flag: TTFlag) -> (r: AgeAndFlag)
        requires
            age < 64,
        ensures
            r.0 == age * 4 + spec_flag_code(flag),
            r.spec_age() == age,
            r.spec_flag() == flag,
    {
        let code: u8 = match flag {
            TTFlag::NoBound => 0,
            TTFlag::Exact => 1,
            TTFlag::LowerBound => 2,
            TTFlag::UpperBound => 3,
        };
        AgeAndFlag(age * 4 + code)
    }

    /// The generation the entry was written in.
    pub open spec fn spec_age(self) -> u8 {
        self.0 / 4
    }

    /// The stored bound flag.
    pub open spec fn spec_flag(self) -> TTFlag {
        if self.0 % 4 == 0 {
            TTFlag::NoBound
        } else if self.0 % 4 == 1 {
            TTFlag::Exact
        } else if self.0 % 4 == 2 {
            TTFlag::LowerBound
        } else {
            TTFlag::UpperBound
        }
    }

    /// The generation the entry was written in.
    pub fn age(self) -> (r: u8)
        ensures
            r == self.spec_age(),
            r < 64,
    {
        self.0 / 4
    }

    /// The stored bound flag.
    pub fn flag(self) -> (r: TTFlag)
        ensures
            r == self.spec_flag(),
    {
        match self.0 % 4 {
            0 => TTFlag::NoBound,
            1 => TTFlag::Exact,
            2 => TTFlag::LowerBound,
            _ => TTFlag::UpperBound,
        }
    }
}

/// A move packed into 16 bits: 6 bits from-square, 6 bits to-square,
/// 4 bits promotion piece.
pub struct PackedMove;

impl PackedMove {
    /// The 16-bit image of a move.
    pub open spec fn spec_pack(mv: MoveData) -> u16 {
        (mv.from + mv.to * 64 + mv.promo * 4096) as u16
    }

    /// The move a 16-bit image stands for; an image whose promotion bits
    /// name no piece is read as no promotion.
    pub open spec fn spec_unpack(x: u16) -> MoveData {
        MoveData {
            from: (x % 64) as u8,
            to: (x / 64 % 64) as u8,
            promo: if x / 4096 > 4 {
                0u8
            } else {
                (x / 4096) as u8
            },
        }
    }

    /// Packs a move into 16 bits.
    pub fn pack(mv: MoveData) -> (r: u16)
        requires
            mv.wf(),
        ensures
            r == Self::spec_pack(mv),
    {
        mv.from as u16 + mv.to as u16 * 64 + mv.promo as u16 * 4096
    }

    /// Unpacks 16 bits into a move.
    pub fn unpack(x: u16) -> (r: MoveData)
        ensures
            r == Self::spec_unpack(x),
            r.wf(),
    {
        let promo_raw: u16 = x / 4096;
        MoveData {
            from: (x % 64) as u8,
            to: (x / 64 % 64) as u8,
            promo: if promo_raw > 4 {
                0
            } else {
                promo_raw as u8
            },
        }
    }
}

/// Packing then unpacking gives the move back.
pub proof fn lemma_pack_roundtrip(mv: MoveData)
    requires
        mv.wf(),
    ensures
        PackedMove::spec_unpack(PackedMove::spec_pack(mv)) == mv,
{
}

/// One slot of the transposition table.
#[derive(Clone, Copy, PartialEq, Eq, Structural, Debug)]
pub struct TTEntry {
    /// The 16 lowest bits of the Zobrist hash, to tell hits from collisions.
    pub key: u16,
    /// The packed best move.
    pub mv: u16,
    /// The stored score, mate scores encoded distance-from-root.
    pub score: i16,
    /// The draft the entry was searched to.
    pub depth: u8,
    /// Generation and bound flag.
    pub age_flag: AgeAndFlag,
}

impl TTEntry {
    /// A never-written slot.
    pub fn empty() -> (r: TTEntry)
        ensures
            r == TTEntry::spec_empty(),
    {
        TTEntry { key: 0, mv: 0, score: 0, depth: 0, age_flag: AgeAndFlag(0) }
    }

    /// The value of a never-written slot.
    pub open spec fn spec_empty() -> TTEntry {
        TTEntry { key: 0, mv: 0, score: 0, depth: 0, age_flag: AgeAndFlag(0) }
    }
}

/// Mate-score encoding for storage: a mate score is shifted by the ply it
/// was found at, so the cached bound is valid from any subtree root.
pub open spec fn spec_score_to_tt(score: int, ply: int) -> int {
    if score >= MATE_IN {
        score + ply
    } else if score <= -MATE_IN {
        score - ply
    } else {
        score
    }
}

/// The inverse shift applied when a stored score is read at some ply, then
/// clamped into the legal score range.
pub open spec fn spec_score_from_tt(stored: int, ply: int) -> int {
    let s = if stored >= MATE_IN {
        stored - ply
    } else if stored <= -MATE_IN {
        stored + ply
    } else {
        stored
    };
    if s > INFINITY {
        INFINITY as int
    } else if s < -INFINITY {
        -INFINITY as int
    } else {
        s
    }
}

/// Decoding a stored score at the ply it was stored at gives the original
/// score back, mate-band scores included.
pub proof fn lemma_tt_score_roundtrip(score: int, ply: int)
    requires
        -INFINITY <= score <= INFINITY,
        0 <= ply <= MAX_PLY,
    ensures
        spec_score_from_tt(spec_score_to_tt(score, ply), ply) == score,
{
}

/// When the incoming result may overwrite what a slot holds.
pub open spec fn spec_replace(cur: TTEntry, age: u8, depth: int, flag: TTFlag, ply: int) -> bool {
    ||| ply == 0
    ||| cur.age_flag.spec_age() != age
    ||| depth + 3 >= cur.depth
    ||| (cur.age_flag.spec_flag() != TTFlag::Exact && flag == TTFlag::Exact)
}

/// A fixed-size, open-addressed, always-replace-by-policy cache of search
/// results keyed by Zobrist hash.
pub struct TT {
    pub entries: Vec<TTEntry>,
    pub age: u8,
}

impl TT {
    /// The table is never empty and the generation stays below 64.
    pub open spec fn wf(self) -> bool {
        self.entries@.len() >= 1 && self.age < 64
    }

    /// Number of slots a table of `mib` mebibytes holds at 16 bytes a slot.
    pub open spec fn spec_size(mib: u32) -> int {
        mib * 65536
    }

    /// Allocates a zeroed table of `mib` mebibytes.
    pub fn new(mib: u32) -> (r: TT)
        requires
            1 <= mib <= 1024,
        ensures
            r.wf(),
            r.age == 0,
            r.entries@.len() == Self::spec_size(mib),
            forall|i: int| 0 <= i < r.entries@.len() ==> r.entries@[i] == TTEntry::spec_empty(),
    {
        let size: usize = mib as usize * 65536;
        let mut entries: Vec<TTEntry> = Vec::new();
        let mut i: usize = 0;
        while i < size
            invariant
                i <= size,
                entries@.len() == i,
                forall|k: int| 0 <= k < i ==> entries@[k] == TTEntry::spec_empty(),
            decreases size - i,
        {
            entries.push(TTEntry::empty());
            i += 1;
        }
        TT { entries, age: 0 }
    }

    /// The slot a hash maps to.
    pub open spec fn spec_index(self, hash: u64) -> int {
        hash as int % self.entries@.len() as int
    }

    /// Reads the slot the hash maps to; the caller compares `key` against
    /// the low hash bits to tell a hit from a collision.
    pub fn probe(&self, hash: u64) -> (r: TTEntry)
        requires
            self.wf(),
        ensures
            r == self.entries@[self.spec_index(hash)],
    {
        let idx: usize = (hash % self.entries.len() as u64) as usize;
        self.entries[idx]
    }

    /// Encodes a score for storage at `ply`.
    pub fn score_to_tt(&self, score: i32, ply: usize) -> (r: i16)
        requires
            -INFINITY <= score <= INFINITY,
            ply <= MAX_PLY,
        ensures
            r == spec_score_to_tt(score as int, ply as int),
    {
        if score >= MATE_IN {
            (score + ply as i32) as i16
        } else if score <= -MATE_IN {
            (score - ply as i32) as i16
        } else {
            score as i16
        }
    }

    /// Decodes a stored score read at `ply`.
    pub fn score_from_tt(&self, stored: i16, ply: usize) -> (r: i32)
        requires
            ply <= MAX_PLY,
        ensures
            r == spec_score_from_tt(stored as int, ply as int),
            -INFINITY <= r <= INFINITY,
    {
        let s: i32 = if stored as i32 >= MATE_IN {
            stored as i32 - ply as i32
        } else if stored as i32 <= -MATE_IN {
            stored as i32 + ply as i32
        } else {
            stored as i32
        };
        if s > INFINITY {
            INFINITY
        } else if s < -INFINITY {
            -INFINITY
        } else {
            s
        }
    }

    /// Writes a search result into the slot its hash maps to, if the
    /// replacement policy lets it in.
    pub fn store(
        &mut self,
        hash: u64,
        mv: Option<MoveData>,
        score: i32,
        depth: i32,
        flag: TTFlag,
        ply: usize,
    )
        requires
            old(self).wf(),
            -INFINITY <= score <= INFINITY,
            0 <= depth <= 255,
            ply <= MAX_PLY,
            mv matches Some(m) ==> m.wf(),
        ensures
            final(self).wf(),
            final(self).age == old(self).age,
            final(self).entries@.len() == old(self).entries@.len(),
            spec_replace(
                old(self).entries@[old(self).spec_index(hash)],
                old(self).age,
                depth as int,
                flag,
                ply as int,
            ) ==> final(self).entries@ == old(self).entries@.update(
                old(self).spec_index(hash),
                TTEntry {
                    key: (hash % 65536) as u16,
                    mv: match mv {
                        Some(m) => PackedMove::spec_pack(m),
                        None => 0u16,
                    },
                    score: spec_score_to_tt(score as int, ply as int) as i16,
                    depth: depth as u8,
                    age_flag: AgeAndFlag((old(self).age * 4 + spec_flag_code(flag)) as u8),
                },
            ),
            !spec_replace(
                old(self).entries@[old(self).spec_index(hash)],
                old(self).age,
                depth as int,
                flag,
                ply as int,
            ) ==> final(self).entries@ == old(self).entries@,
    {
        let idx: usize = (hash % self.entries.len() as u64) as usize;
        let cur: TTEntry = self.entries[idx];
        let replace: bool = ply == 0 || cur.age_flag.age() != self.age || depth + 3
            >= cur.depth as i32 || (!matches!(cur.age_flag.flag(), TTFlag::Exact) && matches!(
            flag,
            TTFlag::Exact,
        ));
        if replace {
            let packed: u16 = match mv {
                Some(m) => PackedMove::pack(m),
                None => 0,
            };
            let entry = TTEntry {
                key: (hash % 65536) as u16,
                mv: packed,
                score: self.score_to_tt(score, ply),
                depth: depth as u8,
                age_flag: AgeAndFlag::new(self.age, flag),
            };
            self.entries.set(idx, entry);
        }
    }

    /// Steps the generation counter, wrapping below 64.
    pub fn age(&mut self)
        requires
            old(self).wf(),
        ensures
            final(self).wf(),
            final(self).entries@ == old(self).entries@,
            final(self).age == (old(self).age + 1) % 64,
    {
        self.age = (self.age + 1) % 64;
    }

    /// Zeroes every slot and resets the generation.
    pub fn reset(&mut self)
        requires
            old(self).wf(),
        ensures
            final(self).wf(),
            final(self).age == 0,
            final(self).entries@.len() == old(self).entries@.len(),
            forall|i: int|
                0 <= i < final(self).entries@.len() ==> final(self).entries@[i]
                    == TTEntry::spec_empty(),
    {
        let n: usize = self.entries.len();
        let mut i: usize = 0;
        while i < n
            invariant
                i <= n,
                self.entries@.len() == n,
                forall|k: int| 0 <= k < i ==> self.entries@[k] == TTEntry::spec_empty(),
            decreases n - i,
        {
            self.entries.set(i, TTEntry::empty());
            i += 1;
        }
        self.age = 0;
    }
}

/// The cutoff a probed entry justifies: its decoded score, but only at a
/// non-PV node, on a key match, when the entry is deep enough and its bound
/// permits — an exact bound always, a lower bound at or above beta, an
/// upper bound at or below alpha.
pub open spec fn spec_tt_cutoff(
    entry: TTEntry,
    key_bits: u16,
    depth: int,
    alpha: int,
    beta: int,
    ply: int,
    is_pv: bool,
) -> Option<int> {
    let s = spec_score_from_tt(entry.score as int, ply);
    let flag = entry.age_flag.spec_flag();
    if !is_pv && entry.key == key_bits && entry.depth >= depth && (flag == TTFlag::Exact || (flag
        == TTFlag::LowerBound && s >= beta) || (flag == TTFlag::UpperBound && s <= alpha)) {
        Some(s)
    } else {
        None
    }
}

/// Decides whether a probed entry ends the node outright.
pub fn tt_cutoff(
    entry: TTEntry,
    key_bits: u16,
    depth: i32,
    alpha: i32,
    beta: i32,
    ply: usize,
    is_pv: bool,
) -> (r: Option<i32>)
    requires
        ply <= MAX_PLY,
    ensures
        r is Some <==> spec_tt_cutoff(
            entry,
            key_bits,
            depth as int,
            alpha as int,
            beta as int,
            ply as int,
            is_pv,
        ) is Some,
        r matches Some(s) ==> spec_tt_cutoff(
            entry,
            key_bits,
            depth as int,
            alpha as int,
            beta as int,
            ply as int,
            is_pv,
        ) == Some(s as int) && -INFINITY <= s <= INFINITY,
{
    if is_pv || entry.key != key_bits || (entry.depth as i32) < depth {
        return None;
    }
    let s: i32 = decode_stored(entry.score, ply);
    let flag = entry.age_flag.flag();
    if matches!(flag, TTFlag::Exact) || (matches!(flag, TTFlag::LowerBound) && s >= beta) || (
    matches!(flag, TTFlag::UpperBound) && s <= alpha) {
        Some(s)
    } else {
        None
    }
}

/// Decodes a stored score read at `ply`; the free twin of
/// `TT::score_from_tt` for callers that hold no table.
fn decode_stored(stored: i16, ply: usize) -> (r: i32)
    requires
        ply <= MAX_PLY,
    ensures
        r == spec_score_from_tt(stored as int, ply as int),
        -INFINITY <= r <= INFINITY,
{
    let s: i32 = if stored as i32 >= MATE_IN {
        stored as i32 - ply as i32
    } else if stored as i32 <= -MATE_IN {
        stored as i32 + ply as i32
    } else {
        stored as i32
    };
    if s > INFINITY {
        INFINITY
    } else if s < -INFINITY {
        -INFINITY
    } else {
        s
    }
}

/// The bound flag a finished main-search node stores: a lower bound after a
/// beta cutoff, exact when the best score rose above the original alpha,
/// else an upper bound.
pub open spec fn spec_store_flag(best_score: int, beta: int, old_alpha: int) -> TTFlag {
    if best_score >= beta {
        TTFlag::LowerBound
    } else if best_score > old_alpha {
        TTFlag::Exact
    } else {
        TTFlag::UpperBound
    }
}

/// The bound flag a finished main-search node stores.
pub fn store_flag(best_score: i32, beta: i32, old_alpha: i32) -> (r: TTFlag)
    ensures
        r == spec_store_flag(best_score as int, beta as int, old_alpha as int),
{
    if best_score >= beta {
        TTFlag::LowerBound
    } else if best_score > old_alpha {
        TTFlag::Exact
    } else {
        TTFlag::UpperBound
    }
}

/// The bound flag a quiescence node stores: a lower bound after a beta
/// cutoff, else an upper bound — quiescence never stores an exact score.
pub fn qsearch_store_flag(best_score: i32, beta: i32) -> (r: TTFlag)
    ensures
        r == (if best_score >= beta {
            TTFlag::LowerBound
        } else {
            TTFlag::UpperBound
        }),
        r != TTFlag::Exact,
        r != TTFlag::NoBound,
{
    if best_score >= beta {
        TTFlag::LowerBound
    } else {
        TTFlag::UpperBound
    }
}

} // verus!
