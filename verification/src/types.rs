use vstd::prelude::*;

verus! {

/// Piece index of a pawn in the oracle's ordering.
pub const PIECE_PAWN: u8 = 0;

/// Piece index of a knight.
pub const PIECE_KNIGHT: u8 = 1;

/// Piece index of a bishop.
pub const PIECE_BISHOP: u8 = 2;

/// Piece index of a rook.
pub const PIECE_ROOK: u8 = 3;

/// Piece index of a queen.
pub const PIECE_QUEEN: u8 = 4;

/// Piece index of a king.
pub const PIECE_KING: u8 = 5;

/// Side to move, or the colour a piece belongs to.
#[derive(Clone, Copy, PartialEq, Eq, Structural, Debug)]
pub enum Color {
    White,
    Black,
}

impl Color {
    /// The other side.
    pub fn opp(self) -> (r: Color)
        ensures
            r == self.spec_opp(),
    {
        match self {
            Color::White => Color::Black,
            Color::Black => Color::White,
        }
    }

    /// The other side, for use in contracts.
    pub open spec fn spec_opp(self) -> Color {
        match self {
            Color::White => Color::Black,
            Color::Black => Color::White,
        }
    }

    /// 0 for white, 1 for black; the perspective stride multiplier.
    pub fn idx(self) -> (r: u8)
        ensures
            r == self.spec_idx(),
    {
        match self {
            Color::White => 0,
            Color::Black => 1,
        }
    }

    /// 0 for white, 1 for black, for use in contracts.
    pub open spec fn spec_idx(self) -> u8 {
        match self {
            Color::White => 0,
            Color::Black => 1,
        }
    }
}

/// Verdict of the board oracle about the current position.
#[derive(Clone, Copy, PartialEq, Eq, Structural, Debug)]
pub enum GameStatus {
    /// The game goes on: the side to move has a legal move.
    Ongoing,
    /// The side to move is checkmated.
    Won,
    /// Stalemate or a draw by rule.
    Drawn,
}

/// A move in plain coordinates: squares are 0..64 (a1 = 0, h8 = 63) and
/// `promo` is 0 for none or the piece index of the promotion piece (1..=4).
#[derive(Clone, Copy, PartialEq, Eq, Structural, Debug)]
pub struct MoveData {
    pub from: u8,
    pub to: u8,
    pub promo: u8,
}

impl MoveData {
    /// Square and promotion codes are small enough to pack into 16 bits.
    pub open spec fn wf(self) -> bool {
        self.from < 64 && self.to < 64 && self.promo <= 4
    }
}

/// What bounds and limits the caller put on a search.
#[derive(Clone, Copy, PartialEq, Eq, Structural, Debug)]
pub enum SearchType {
    /// Optimal and maximum wall-clock budgets in milliseconds.
    Time(u64, u64),
    /// Stop after roughly this many nodes.
    Nodes(u64),
    /// Search exactly to this depth.
    Depth(i32),
    /// Search until stopped from outside.
    Infinite,
}

} // verus!
