//! The move engine: legality of a candidate move, the discs it flips, and the
//! resulting position.
//!
//! A move on an empty cell is legal when, in at least one of the 8 compass
//! directions, the cells walked outward from the target hold a non-empty run
//! of opponent discs terminated by a mover disc. All such runs flip.

use vstd::prelude::*;

use crate::board::{bit_set, find_single_bit, is_square_mask, mask_of, popcnt, Color, Position};
use crate::board::{lemma_pop_diff, lemma_pop_single, lemma_pop_union};

verus! {

/// A compass direction as a (file, rank) step, each component in -1 ..= 1.
pub open spec fn valid_dir(df: int, dr: int) -> bool {
    -1 <= df <= 1 && -1 <= dr <= 1 && !(df == 0 && dr == 0)
}

/// Whether (file, rank) lies on the 8 x 8 board.
pub open spec fn in_bounds(f: int, r: int) -> bool {
    0 <= f < 8 && 0 <= r < 8
}

/// The bit index of the cell at (file, rank).
pub open spec fn cell(f: int, r: int) -> int {
    r * 8 + f
}

/// Steps left before a walk from (f, r) in direction (df, dr) exits the board.
pub open spec fn dir_measure(f: int, r: int, df: int, dr: int) -> int {
    if df > 0 {
        8 - f
    } else if df < 0 {
        f + 1
    } else if dr > 0 {
        8 - r
    } else {
        r + 1
    }
}

/// The discs flipped along one ray, scanning from (f, r) onward in direction
/// (df, dr): `Some(m)` when the cells from (f, r) up to the first mover disc
/// are all opponent discs (`m` holds exactly those), `None` when the walk
/// exits the board or meets an empty cell first.
pub open spec fn scan_ray(mover: u64, opp: u64, f: int, r: int, df: int, dr: int) -> Option<u64>
    decreases dir_measure(f, r, df, dr),
{
    if !valid_dir(df, dr) || !in_bounds(f, r) {
        None
    } else if bit_set(mover, cell(f, r)) {
        Some(0u64)
    } else if bit_set(opp, cell(f, r)) {
        match scan_ray(mover, opp, f + df, r + dr, df, dr) {
            Some(m) => Some(m | mask_of(cell(f, r))),
            None => None,
        }
    } else {
        None
    }
}

/// The discs a move at (f, r) flips in direction (df, dr): the committed run,
/// or no discs when the direction's walk fails.
pub open spec fn dir_flips(mover: u64, opp: u64, f: int, r: int, df: int, dr: int) -> u64 {
    match scan_ray(mover, opp, f + df, r + dr, df, dr) {
        Some(m) => m,
        None => 0u64,
    }
}

/// All discs a move at cell `i` flips, aggregated over the 8 directions.
pub open spec fn move_flips(mover: u64, opp: u64, i: int) -> u64 {
    let f = i % 8;
    let r = i / 8;
    dir_flips(mover, opp, f, r, -1, -1) | dir_flips(mover, opp, f, r, 0, -1) | dir_flips(
        mover,
        opp,
        f,
        r,
        1,
        -1,
    ) | dir_flips(mover, opp, f, r, -1, 0) | dir_flips(mover, opp, f, r, 1, 0) | dir_flips(
        mover,
        opp,
        f,
        r,
        -1,
        1,
    ) | dir_flips(mover, opp, f, r, 0, 1) | dir_flips(mover, opp, f, r, 1, 1)
}

/// A move at cell `i` is legal: the cell is on the board, empty, and flips at
/// least one disc.
pub open spec fn is_legal(mover: u64, opp: u64, i: int) -> bool {
    0 <= i < 64 && !bit_set(mover, i) && !bit_set(opp, i) && move_flips(mover, opp, i) != 0
}

/// The mover has at least one legal move.
pub open spec fn has_move(mover: u64, opp: u64) -> bool {
    exists|i: int| is_legal(mover, opp, i)
}

/// Every disc a ray commits is an opponent disc.
proof fn lemma_scan_subset(mover: u64, opp: u64, f: int, r: int, df: int, dr: int)
    ensures
        scan_ray(mover, opp, f, r, df, dr) matches Some(m) ==> m & !opp == 0,
    decreases dir_measure(f, r, df, dr),
{
    if valid_dir(df, dr) && in_bounds(f, r) && !bit_set(mover, cell(f, r)) && bit_set(
        opp,
        cell(f, r),
    ) {
        lemma_scan_subset(mover, opp, f + df, r + dr, df, dr);
        let rest = scan_ray(mover, opp, f + df, r + dr, df, dr);
        if rest is Some {
            let m = rest->Some_0;
            let c: u64 = cell(f, r) as u64;
            assert((m & !opp == 0u64 && (opp >> c) & 1u64 == 1u64) ==> ((m | (1u64 << c)) & !opp
                == 0u64)) by (bit_vector);
        }
    }
    assert(0u64 & !opp == 0u64) by (bit_vector);
}

/// Every disc a move flips is an opponent disc.
pub proof fn lemma_flips_subset(mover: u64, opp: u64, i: int)
    requires
        0 <= i < 64,
    ensures
        move_flips(mover, opp, i) & !opp == 0,
{
    let f = i % 8;
    let r = i / 8;
    lemma_scan_subset(mover, opp, f + -1, r + -1, -1, -1);
    lemma_scan_subset(mover, opp, f + 0, r + -1, 0, -1);
    lemma_scan_subset(mover, opp, f + 1, r + -1, 1, -1);
    lemma_scan_subset(mover, opp, f + -1, r + 0, -1, 0);
    lemma_scan_subset(mover, opp, f + 1, r + 0, 1, 0);
    lemma_scan_subset(mover, opp, f + -1, r + 1, -1, 1);
    lemma_scan_subset(mover, opp, f + 0, r + 1, 0, 1);
    lemma_scan_subset(mover, opp, f + 1, r + 1, 1, 1);
    let d1 = dir_flips(mover, opp, f, r, -1, -1);
    let d2 = dir_flips(mover, opp, f, r, 0, -1);
    let d3 = dir_flips(mover, opp, f, r, 1, -1);
    let d4 = dir_flips(mover, opp, f, r, -1, 0);
    let d5 = dir_flips(mover, opp, f, r, 1, 0);
    let d6 = dir_flips(mover, opp, f, r, -1, 1);
    let d7 = dir_flips(mover, opp, f, r, 0, 1);
    let d8 = dir_flips(mover, opp, f, r, 1, 1);
    assert(0u64 & !opp == 0u64) by (bit_vector);
    assert((d1 & !opp == 0u64 && d2 & !opp == 0u64 && d3 & !opp == 0u64 && d4 & !opp == 0u64 && d5
        & !opp == 0u64 && d6 & !opp == 0u64 && d7 & !opp == 0u64 && d8 & !opp == 0u64) ==> ((d1
        | d2 | d3 | d4 | d5 | d6 | d7 | d8) & !opp == 0u64)) by (bit_vector);
}

/// Walks one ray; mirrors `scan_ray` exactly.
fn scan_ray_exec(mover: u64, opp: u64, f: i32, r: i32, df: i32, dr: i32) -> (res: Option<u64>)
    requires
        valid_dir(df as int, dr as int),
        -2 <= f <= 9,
        -2 <= r <= 9,
    ensures
        res == scan_ray(mover, opp, f as int, r as int, df as int, dr as int),
    decreases dir_measure(f as int, r as int, df as int, dr as int),
{
    if f < 0 || f > 7 || r < 0 || r > 7 {
        return None;
    }
    let sh: u64 = (r * 8 + f) as u64;
    if (mover >> sh) & 1u64 == 1u64 {
        return Some(0u64);
    }
    if (opp >> sh) & 1u64 == 1u64 {
        match scan_ray_exec(mover, opp, f + df, r + dr, df, dr) {
            Some(m) => Some(m | (1u64 << sh)),
            None => None,
        }
    } else {
        None
    }
}

/// The flips one direction commits; mirrors `dir_flips`.
fn dir_flips_exec(mover: u64, opp: u64, f: i32, r: i32, df: i32, dr: i32) -> (fl: u64)
    requires
        valid_dir(df as int, dr as int),
        0 <= f < 8,
        0 <= r < 8,
    ensures
        fl == dir_flips(mover, opp, f as int, r as int, df as int, dr as int),
{
    match scan_ray_exec(mover, opp, f + df, r + dr, df, dr) {
        Some(m) => m,
        None => 0u64,
    }
}

/// All discs a move at cell `idx` would flip.
pub fn compute_flips(mover: u64, opp: u64, idx: u32) -> (fl: u64)
    requires
        idx < 64,
    ensures
        fl == move_flips(mover, opp, idx as int),
{
    let f: i32 = (idx % 8) as i32;
    let r: i32 = (idx / 8) as i32;
    let mut fl: u64 = dir_flips_exec(mover, opp, f, r, -1, -1);
    fl = fl | dir_flips_exec(mover, opp, f, r, 0, -1);
    fl = fl | dir_flips_exec(mover, opp, f, r, 1, -1);
    fl = fl | dir_flips_exec(mover, opp, f, r, -1, 0);
    fl = fl | dir_flips_exec(mover, opp, f, r, 1, 0);
    fl = fl | dir_flips_exec(mover, opp, f, r, -1, 1);
    fl = fl | dir_flips_exec(mover, opp, f, r, 0, 1);
    fl = fl | dir_flips_exec(mover, opp, f, r, 1, 1);
    fl
}

/// Finds the index of the single set bit of `sq`.
fn index_of_bit(sq: u64) -> (i: u32)
    requires
        is_square_mask(sq),
    ensures
        i < 64,
        sq == mask_of(i as int),
{
    match find_single_bit(sq) {
        Some(i) => i,
        None => vstd::pervasive::unreached(),
    }
}

/// Why a move request was rejected by the engine.
#[derive(Clone, Copy, PartialEq, Eq, Structural, Debug)]
pub enum MoveError {
    /// The target cell already holds a disc of either color.
    SquareOccupied,
    /// The target cell is empty but no direction commits a flip.
    NoLegalFlip,
}

/// What `apply_move` returns for a move at cell `i`.
pub open spec fn spec_move_result(pos: Position, i: int, mover: Color) -> Result<
    Position,
    MoveError,
> {
    let m = pos.spec_discs_of(mover);
    let o = pos.spec_discs_of(mover.spec_opposite());
    if bit_set(pos.occupied(), i) {
        Err(MoveError::SquareOccupied)
    } else if move_flips(m, o, i) == 0 {
        Err(MoveError::NoLegalFlip)
    } else {
        let fl = move_flips(m, o, i);
        let new_m = m | mask_of(i) | fl;
        let new_o = o & !fl;
        match mover {
            Color::Black => Ok(Position { black: new_m, white: new_o }),
            Color::White => Ok(Position { black: new_o, white: new_m }),
        }
    }
}

/// The cell index of a single-bit mask; meaningful when `is_square_mask(sq)`.
pub open spec fn square_index(sq: u64) -> int {
    choose|i: int| 0 <= i < 64 && sq == mask_of(i)
}

/// What `apply_move` returns, phrased over the single-bit mask itself.
pub open spec fn spec_apply_move(pos: Position, sq: u64, mover: Color) -> Result<
    Position,
    MoveError,
> {
    spec_move_result(pos, square_index(sq), mover)
}

/// Applies a move: `sq` is the single-bit mask of the target cell. On success
/// the mover's set gains the target and the flipped cells, the opponent's set
/// loses the flipped cells; on failure nothing changes.
pub fn apply_move(pos: &Position, sq: u64, mover: Color) -> (res: Result<Position, MoveError>)
    requires
        pos.wf(),
        is_square_mask(sq),
    ensures
        forall|i: int| 0 <= i < 64 && sq == mask_of(i) ==> res == spec_move_result(*pos, i, mover),
        res == spec_apply_move(*pos, sq, mover),
        res matches Ok(p2) ==> p2.wf() && p2.total() == pos.total() + 1 && p2.occupied()
            == pos.occupied() | sq,
        res matches Ok(p2) ==> ({
            let fl = move_flips(
                pos.spec_discs_of(mover),
                pos.spec_discs_of(mover.spec_opposite()),
                square_index(sq),
            );
            popcnt(p2.spec_discs_of(mover)) == popcnt(pos.spec_discs_of(mover)) + 1 + popcnt(fl)
                && popcnt(p2.spec_discs_of(mover.spec_opposite())) + popcnt(fl) == popcnt(
                pos.spec_discs_of(mover.spec_opposite()),
            )
        }),
        res matches Ok(p2) ==> has_move(
            pos.spec_discs_of(mover),
            pos.spec_discs_of(mover.spec_opposite()),
        ),
{
    let idx = index_of_bit(sq);
    proof {
        let i0 = square_index(sq);
        assert(0 <= i0 < 64 && sq == mask_of(i0));
        assert forall|i: int| 0 <= i < 64 && sq == mask_of(i) implies i == idx as int by {
            let iu = i as u64;
            let ju = idx as u64;
            assert(!(iu != ju && iu < 64u64 && ju < 64u64 && (1u64 << iu) == (1u64 << ju)))
                by (bit_vector);
        }
    }
    let occ = pos.black | pos.white;
    let sh: u64 = idx as u64;
    if (occ >> sh) & 1u64 == 1u64 {
        return Err(MoveError::SquareOccupied);
    }
    let m = pos.discs_of(mover);
    let o = pos.discs_of(mover.opposite());
    proof {
        let pb = pos.black;
        let pw = pos.white;
        assert(pb & pw == 0 ==> pw & pb == 0 && pw | pb == pb | pw) by (bit_vector);
        assert(m | o == occ && m & o == 0);
    }
    let fl = compute_flips(m, o, idx);
    if fl == 0 {
        return Err(MoveError::NoLegalFlip);
    }
    let new_m = m | sq | fl;
    let new_o = o & !fl;
    let p2 = match mover {
        Color::Black => Position { black: new_m, white: new_o },
        Color::White => Position { black: new_o, white: new_m },
    };
    proof {
        lemma_flips_subset(m, o, idx as int);
        assert(!((occ >> sh) & 1u64 == 1u64) && occ == m | o && idx < 64 && sh == idx as u64 ==> ((m
            >> sh) & 1u64 != 1u64) && ((o >> sh) & 1u64 != 1u64) && (1u64 << sh) & m == 0u64 && (
        1u64 << sh) & o == 0u64) by (bit_vector);
        assert(is_legal(m, o, idx as int));
        lemma_apply_shape(m, o, sq, fl, sh);
        lemma_pop_union(m, sq);
        lemma_pop_union(m | sq, fl);
        lemma_pop_single(idx as int);
        lemma_pop_diff(o, fl);
    }
    Ok(p2)
}

/// Bit-level facts about the updated occupancy sets: the mover's additions are
/// pairwise disjoint, the result is disjoint, and occupancy grows by the
/// target cell alone.
pub proof fn lemma_apply_shape(m: u64, o: u64, sq: u64, fl: u64, sh: u64)
    requires
        m & o == 0,
        sh < 64,
        sq == 1u64 << sh,
        sq & m == 0,
        sq & o == 0,
        fl & !o == 0,
    ensures
        m & sq == 0,
        (m | sq) & fl == 0,
        (m | sq | fl) & (o & !fl) == 0,
        (o & !fl) & (m | sq | fl) == 0,
        (m | sq | fl) | (o & !fl) == (m | o) | sq,
        (o & !fl) | (m | sq | fl) == (m | o) | sq,
{
    assert((m & o == 0u64 && sq & m == 0u64 && sq & o == 0u64 && fl & !o == 0u64) ==> (m & sq
        == 0u64 && (m | sq) & fl == 0u64 && (m | sq | fl) & (o & !fl) == 0u64 && (o & !fl) & (m | sq
        | fl) == 0u64 && ((m | sq | fl) | (o & !fl)) == ((m | o) | sq) && ((o & !fl) | (m | sq
        | fl)) == ((m | o) | sq))) by (bit_vector);
}

/// A move that the engine accepts is a witness that the mover had a legal
/// move at all.
pub proof fn lemma_move_ok_implies_has_move(pos: Position, sq: u64, mover: Color)
    requires
        is_square_mask(sq),
        spec_apply_move(pos, sq, mover) is Ok,
    ensures
        has_move(pos.spec_discs_of(mover), pos.spec_discs_of(mover.spec_opposite())),
{
    let i = square_index(sq);
    assert(0 <= i < 64 && sq == mask_of(i));
    let m = pos.spec_discs_of(mover);
    let o = pos.spec_discs_of(mover.spec_opposite());
    let pb = pos.black;
    let pw = pos.white;
    let iu = i as u64;
    assert(!(((pb | pw) >> iu) & 1u64 == 1u64) ==> !((pb >> iu) & 1u64 == 1u64) && !((pw >> iu)
        & 1u64 == 1u64)) by (bit_vector);
    assert(is_legal(m, o, i));
}

/// Whether the given color has any legal move: the same direction scan,
/// applied to every cell, short-circuiting on the first legal one.
pub fn has_any_legal_move(pos: &Position, color: Color) -> (r: bool)
    ensures
        r == has_move(pos.spec_discs_of(color), pos.spec_discs_of(color.spec_opposite())),
{
    let m = pos.discs_of(color);
    let o = pos.discs_of(color.opposite());
    let mut i: u32 = 0;
    while i < 64
        invariant
            i <= 64,
            m == pos.spec_discs_of(color),
            o == pos.spec_discs_of(color.spec_opposite()),
            forall|j: int| 0 <= j < i ==> !is_legal(m, o, j),
        decreases 64 - i,
    {
        let sh: u64 = i as u64;
        if (m >> sh) & 1u64 != 1u64 && (o >> sh) & 1u64 != 1u64 {
            let fl = compute_flips(m, o, i);
            if fl != 0 {
                assert(is_legal(m, o, i as int));
                assert(has_move(m, o));
                return true;
            }
        }
        i = i + 1;
    }
    false
}

} // verus!
