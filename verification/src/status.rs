//! The status evaluator: classifies a position, for a given side to move, as
//! continuing, requiring a forced pass, or terminal with a winner or a draw.

use vstd::prelude::*;

use crate::board::{count_bits, popcnt, Color, Position};
use crate::engine::{has_any_legal_move, has_move};

verus! {

/// The classification of a game position for the side to move.
#[derive(Clone, Copy, PartialEq, Eq, Structural, Debug)]
pub enum Status {
    /// The side to move has at least one legal move.
    Continue,
    /// The side to move has no legal move but the opponent does: the side to
    /// move must submit a pass.
    MustPass,
    /// The game is over and the given color holds the majority of discs.
    Won(Color),
    /// The game is over with equal disc counts.
    Draw,
}

/// Every cell is owned by one of the colors.
pub open spec fn board_full(p: Position) -> bool {
    p.occupied() == 0xFFFF_FFFF_FFFF_FFFFu64
}

/// The terminal outcome by disc count: majority wins, equal counts draw.
pub open spec fn winner_by_count(p: Position) -> Status {
    if popcnt(p.black) > popcnt(p.white) {
        Status::Won(Color::Black)
    } else if popcnt(p.white) > popcnt(p.black) {
        Status::Won(Color::White)
    } else {
        Status::Draw
    }
}

/// What `evaluate` returns: full board ends the game by count; otherwise the
/// side to move continues if it can move, must pass if only the opponent can,
/// and the game ends by count when neither side can move.
pub open spec fn spec_evaluate(p: Position, to_move: Color) -> Status {
    let m = p.spec_discs_of(to_move);
    let o = p.spec_discs_of(to_move.spec_opposite());
    if board_full(p) {
        winner_by_count(p)
    } else if has_move(m, o) {
        Status::Continue
    } else if has_move(o, m) {
        Status::MustPass
    } else {
        winner_by_count(p)
    }
}

/// The terminal outcome by disc count.
fn count_winner(p: &Position) -> (st: Status)
    ensures
        st == winner_by_count(*p),
{
    let b = count_bits(p.black);
    let w = count_bits(p.white);
    if b > w {
        Status::Won(Color::Black)
    } else if w > b {
        Status::Won(Color::White)
    } else {
        Status::Draw
    }
}

/// Classifies the game for the given side to move. Invoked after every move
/// and after every pass to decide whether the game continues, requires a
/// pass, or has ended.
pub fn evaluate(p: &Position, to_move: Color) -> (st: Status)
    ensures
        st == spec_evaluate(*p, to_move),
{
    let occ = p.black | p.white;
    if occ == 0xFFFF_FFFF_FFFF_FFFFu64 {
        return count_winner(p);
    }
    if has_any_legal_move(p, to_move) {
        return Status::Continue;
    }
    if has_any_legal_move(p, to_move.opposite()) {
        return Status::MustPass;
    }
    count_winner(p)
}

} // verus!
