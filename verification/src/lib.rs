use vstd::prelude::*;

pub mod board;
pub mod fmt;
pub mod history;
pub mod lmr;
pub mod nnue;
pub mod picker;
pub mod position;
pub mod pv_table;
pub mod search;
pub mod timeman;
pub mod tt;
pub mod types;

verus! {

/// Highest ply the search will ever reach; `ply == 0` is the root.
pub const MAX_PLY: usize = 128;

/// Sentinel strictly greater than every legal score; never returned from search.
pub const NONE: i32 = 32002;

/// Upper bound of the score range; only ever used as a window edge.
pub const INFINITY: i32 = 32001;

/// Score of a position where the side to move is checkmated at the root.
pub const MATE: i32 = 32000;

/// Lowest positive score that still encodes a forced mate (`MATE - MAX_PLY`).
pub const MATE_IN: i32 = 31872;

/// Scores at or above this are treated as certain wins by null-move pruning.
pub const TB_WIN_IN_PLY: i32 = 31744;

/// No legal chess position has more moves than this.
pub const MAX_MOVES_POSITION: usize = 218;

} // verus!
