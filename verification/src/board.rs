use vstd::prelude::*;

use crate::types::{Color, GameStatus, MoveData};

verus! {

// The chess rules themselves live in the cozy_chess crate. Its board is
// opaque to verification: everything the search reads from it comes through
// the wrappers below as plain values, and everything it does to it goes
// through them as well.

#[verifier::external_type_specification]
#[verifier::external_body]
pub struct ExBoard(cozy_chess::Board);

#[verifier::external_type_specification]
#[verifier::external_body]
pub struct ExInstant(std::time::Instant);

/// Relies on cozy_chess::Board::default: the standard starting position.
#[verifier::external_body]
pub(crate) fn board_default() -> (r: cozy_chess::Board) {
    cozy_chess::Board::default()
}

/// Relies on the derived cozy_chess::Board::clone, which copies the value.
#[verifier::external_body]
pub(crate) fn board_clone(b: &cozy_chess::Board) -> (r: cozy_chess::Board) {
    b.clone()
}

/// Relies on cozy_chess::Board::hash: the Zobrist hash of the position.
#[verifier::external_body]
pub(crate) fn board_hash(b: &cozy_chess::Board) -> (r: u64) {
    b.hash()
}

/// Relies on cozy_chess::Board::side_to_move.
#[verifier::external_body]
pub(crate) fn board_stm(b: &cozy_chess::Board) -> (r: Color) {
    match b.side_to_move() {
        cozy_chess::Color::White => Color::White,
        cozy_chess::Color::Black => Color::Black,
    }
}

/// Relies on cozy_chess::Board::status: `Won` means the side to move is
/// checkmated, `Drawn` covers stalemate and the 50-move rule.
#[verifier::external_body]
pub(crate) fn board_status(b: &cozy_chess::Board) -> (r: GameStatus) {
    match b.status() {
        cozy_chess::GameStatus::Ongoing => GameStatus::Ongoing,
        cozy_chess::GameStatus::Won => GameStatus::Won,
        cozy_chess::GameStatus::Drawn => GameStatus::Drawn,
    }
}

/// Relies on cozy_chess::Board::checkers: bitboard of pieces giving check.
#[verifier::external_body]
pub(crate) fn board_checkers(b: &cozy_chess::Board) -> (r: u64) {
    b.checkers().0
}

/// Relies on cozy_chess::Board::halfmove_clock, which the crate caps at 100.
#[verifier::external_body]
pub(crate) fn board_halfmove_clock(b: &cozy_chess::Board) -> (r: u8)
    ensures
        r <= 100,
{
    b.halfmove_clock()
}

/// Relies on cozy_chess::Board::piece_on; pieces are numbered from pawn 0
/// to king 5 in the crate's material order.
#[verifier::external_body]
pub(crate) fn board_piece_on(b: &cozy_chess::Board, sq: u8) -> (r: Option<u8>)
    requires
        sq < 64,
    ensures
        r matches Some(p) ==> p < 6,
{
    b.piece_on(cozy_chess::Square::index(sq as usize)).map(|p| p as u8)
}

/// Relies on cozy_chess::Board::color_on.
#[verifier::external_body]
pub(crate) fn board_color_on(b: &cozy_chess::Board, sq: u8) -> (r: Option<Color>)
    requires
        sq < 64,
{
    b.color_on(cozy_chess::Square::index(sq as usize)).map(|c| match c {
        cozy_chess::Color::White => Color::White,
        cozy_chess::Color::Black => Color::Black,
    })
}

/// Relies on cozy_chess::Board::pieces: bitboard of both sides' pieces of
/// one type.
#[verifier::external_body]
pub(crate) fn board_pieces(b: &cozy_chess::Board, piece: u8) -> (r: u64)
    requires
        piece < 6,
{
    b.pieces(cozy_chess::Piece::index(piece as usize)).0
}

/// Relies on cozy_chess::Board::colors: bitboard of one side's pieces.
#[verifier::external_body]
pub(crate) fn board_colors(b: &cozy_chess::Board, color: Color) -> (r: u64) {
    let c = match color {
        Color::White => cozy_chess::Color::White,
        Color::Black => cozy_chess::Color::Black,
    };
    b.colors(c).0
}

/// Relies on cozy_chess::Board::null_move: `Some` exactly when the side to
/// move is not in check.
#[verifier::external_body]
pub(crate) fn board_null_move(b: &cozy_chess::Board) -> (r: Option<cozy_chess::Board>) {
    b.null_move()
}

/// Relies on cozy_chess::Board::try_play: plays a legal move in place and
/// returns whether it was legal; an illegal move leaves the board unchanged.
#[verifier::external_body]
pub(crate) fn board_try_play(b: &mut cozy_chess::Board, mv: MoveData) -> (ok: bool)
    requires
        mv.wf(),
    ensures
        !ok ==> *final(b) == *old(b),
{
    b.try_play(cozy_chess::Move {
        from: cozy_chess::Square::index(mv.from as usize),
        to: cozy_chess::Square::index(mv.to as usize),
        promotion: if mv.promo == 0 {
            None
        } else {
            Some(cozy_chess::Piece::index(mv.promo as usize))
        },
    }).is_ok()
}

/// Relies on cozy_chess::Board::generate_moves, which hands every legal move
/// to the listener; promotion pieces are knight through queen.
#[verifier::external_body]
pub(crate) fn board_legal_moves(b: &cozy_chess::Board) -> (r: Vec<MoveData>)
    ensures
        forall|i: int| 0 <= i < r@.len() ==> (#[trigger] r@[i]).wf(),
{
    let mut r: Vec<MoveData> = Vec::new();
    b.generate_moves(|pms| {
        for m in pms {
            r.push(MoveData {
                from: m.from as u8,
                to: m.to as u8,
                promo: m.promotion.map_or(0, |p| p as u8),
            });
        }
        false
    });
    r
}

/// Relies on std::time::Instant::now: a monotonic clock reading.
#[verifier::external_body]
pub(crate) fn clock_now() -> (r: std::time::Instant) {
    std::time::Instant::now()
}

/// Relies on std::time::Instant::elapsed: whole milliseconds since `t`.
#[verifier::external_body]
pub(crate) fn clock_elapsed_ms(t: &std::time::Instant) -> (r: u64) {
    let ms = t.elapsed().as_millis();
    if ms > u64::MAX as u128 {
        u64::MAX
    } else {
        ms as u64
    }
}

/// Lists every occupied square with its piece and colour by asking the
/// oracle square by square.
pub fn occupancy(b: &cozy_chess::Board) -> (r: Vec<(u8, u8, Color)>)
    ensures
        forall|i: int| 0 <= i < r@.len() ==> (#[trigger] r@[i]).0 < 64 && r@[i].1 < 6,
{
    let mut r: Vec<(u8, u8, Color)> = Vec::new();
    let mut sq: u8 = 0;
    while sq < 64
        invariant
            sq <= 64,
            forall|i: int| 0 <= i < r@.len() ==> (#[trigger] r@[i]).0 < 64 && r@[i].1 < 6,
        decreases 64 - sq,
    {
        let piece = board_piece_on(b, sq);
        let color = board_color_on(b, sq);
        if let (Some(p), Some(c)) = (piece, color) {
            r.push((sq, p, c));
        }
        sq += 1;
    }
    r
}

} // verus!
