//! The board representation: one 64-bit occupancy set per color, one bit per
//! cell, bit index = rank * 8 + file (file a = 0 .. h = 7, rank 1 = 0 .. 8 = 7).

use vstd::prelude::*;

verus! {

/// Whether bit `i` of `mask` is set; meaningful for `0 <= i < 64`.
pub open spec fn bit_set(mask: u64, i: int) -> bool {
    (mask >> (i as u64)) & 1u64 == 1u64
}

/// The mask with exactly bit `i` set; meaningful for `0 <= i < 64`.
pub open spec fn mask_of(i: int) -> u64 {
    1u64 << (i as u64)
}

/// Number of set bits among bits `0 .. n` of `mask`.
pub open spec fn pop_below(mask: u64, n: nat) -> nat
    decreases n,
{
    if n == 0 {
        0
    } else {
        pop_below(mask, (n - 1) as nat) + if bit_set(mask, n - 1) {
            1nat
        } else {
            0nat
        }
    }
}

/// Number of set bits of `mask`.
pub open spec fn popcnt(mask: u64) -> nat {
    pop_below(mask, 64)
}

pub proof fn lemma_pop_below_le(mask: u64, n: nat)
    ensures
        pop_below(mask, n) <= n,
    decreases n,
{
    if n > 0 {
        lemma_pop_below_le(mask, (n - 1) as nat);
    }
}

proof fn lemma_pop_below_union(a: u64, b: u64, n: nat)
    requires
        a & b == 0,
        n <= 64,
    ensures
        pop_below(a | b, n) == pop_below(a, n) + pop_below(b, n),
    decreases n,
{
    if n > 0 {
        lemma_pop_below_union(a, b, (n - 1) as nat);
        let i: u64 = (n - 1) as u64;
        assert((((a | b) >> i) & 1u64 == 1u64) == (((a >> i) & 1u64 == 1u64) || ((b >> i)
            & 1u64 == 1u64)) && !(((a >> i) & 1u64 == 1u64) && ((b >> i) & 1u64 == 1u64)))
            by (bit_vector)
            requires
                a & b == 0u64,
                i < 64u64,
        ;
    }
}

/// Disjoint masks: the bits of the union are counted exactly once each.
pub proof fn lemma_pop_union(a: u64, b: u64)
    requires
        a & b == 0,
    ensures
        popcnt(a | b) == popcnt(a) + popcnt(b),
{
    lemma_pop_below_union(a, b, 64);
}

proof fn lemma_pop_below_diff(a: u64, f: u64, n: nat)
    requires
        f & !a == 0,
        n <= 64,
    ensures
        pop_below(a & !f, n) + pop_below(f, n) == pop_below(a, n),
    decreases n,
{
    if n > 0 {
        lemma_pop_below_diff(a, f, (n - 1) as nat);
        let i: u64 = (n - 1) as u64;
        assert((((a & !f) >> i) & 1u64 == 1u64) == (((a >> i) & 1u64 == 1u64) && !((f >> i)
            & 1u64 == 1u64)) && (((f >> i) & 1u64 == 1u64) ==> ((a >> i) & 1u64 == 1u64)))
            by (bit_vector)
            requires
                f & !a == 0u64,
                i < 64u64,
        ;
    }
}

/// Removing a subset `f` of the bits of `a` removes exactly `popcnt(f)` bits.
pub proof fn lemma_pop_diff(a: u64, f: u64)
    requires
        f & !a == 0,
    ensures
        popcnt(a & !f) + popcnt(f) == popcnt(a),
{
    lemma_pop_below_diff(a, f, 64);
}

proof fn lemma_pop_below_mask(i: u64, n: nat)
    requires
        i < 64,
        n <= 64,
    ensures
        pop_below(1u64 << i, n) == if i < n {
            1nat
        } else {
            0nat
        },
    decreases n,
{
    if n > 0 {
        lemma_pop_below_mask(i, (n - 1) as nat);
        let j: u64 = (n - 1) as u64;
        assert((((1u64 << i) >> j) & 1u64 == 1u64) == (i == j)) by (bit_vector)
            requires
                i < 64u64,
                j < 64u64,
        ;
    }
}

/// A single-bit mask has exactly one set bit.
pub proof fn lemma_pop_single(i: int)
    requires
        0 <= i < 64,
    ensures
        popcnt(mask_of(i)) == 1,
{
    lemma_pop_below_mask(i as u64, 64);
}

/// A mask made of two distinct single bits has exactly two set bits.
pub proof fn lemma_pop_two_bits(m: u64, i: u64, j: u64)
    requires
        i < 64,
        j < 64,
        i != j,
        m == (1u64 << i) | (1u64 << j),
    ensures
        popcnt(m) == 2,
{
    assert((1u64 << i) & (1u64 << j) == 0u64) by (bit_vector)
        requires
            i < 64u64,
            j < 64u64,
            i != j,
    ;
    lemma_pop_union(1u64 << i, 1u64 << j);
    lemma_pop_single(i as int);
    lemma_pop_single(j as int);
}

/// Counts the set bits of `mask`.
pub fn count_bits(mask: u64) -> (c: u32)
    ensures
        c == popcnt(mask),
{
    let mut c: u32 = 0;
    let mut i: u32 = 0;
    while i < 64
        invariant
            i <= 64,
            c == pop_below(mask, i as nat),
        decreases 64 - i,
    {
        proof {
            lemma_pop_below_le(mask, i as nat);
        }
        let sh: u64 = i as u64;
        assert((mask >> sh) & 1u64 == 0u64 || (mask >> sh) & 1u64 == 1u64) by (bit_vector);
        let b: u64 = (mask >> sh) & 1u64;
        c = c + (b as u32);
        i = i + 1;
    }
    c
}

/// A mask holding exactly one of the 64 cell bits.
pub open spec fn is_square_mask(sq: u64) -> bool {
    exists|i: int| 0 <= i < 64 && sq == mask_of(i)
}

/// Finds the index of the single set bit of `sq`, if `sq` is a single-bit
/// mask.
pub fn find_single_bit(sq: u64) -> (res: Option<u32>)
    ensures
        match res {
            Some(i) => i < 64 && sq == mask_of(i as int),
            None => !is_square_mask(sq),
        },
{
    let mut i: u32 = 0;
    while i < 64
        invariant
            i <= 64,
            forall|j: int| 0 <= j < i ==> sq != mask_of(j),
        decreases 64 - i,
    {
        if sq == 1u64 << (i as u64) {
            return Some(i);
        }
        i = i + 1;
    }
    None
}

/// A pair of occupancy sets, one per color.
#[derive(Clone, Copy, PartialEq, Eq, Structural, Debug)]
pub struct Position {
    pub black: u64,
    pub white: u64,
}

/// Black's two center discs in the canonical starting position (e4, d5).
pub const INITIAL_BLACK: u64 = 0x0000000810000000u64;

/// White's two center discs in the canonical starting position (d4, e5).
pub const INITIAL_WHITE: u64 = 0x0000001008000000u64;

impl Position {
    /// The invariant every observable `Position` satisfies: no cell is owned
    /// by both colors.
    pub open spec fn wf(self) -> bool {
        self.black & self.white == 0
    }

    /// The set of occupied cells.
    pub open spec fn occupied(self) -> u64 {
        self.black | self.white
    }

    /// Total number of discs on the board.
    pub open spec fn total(self) -> nat {
        popcnt(self.black) + popcnt(self.white)
    }

    /// The canonical starting position: four center discs, two per color, in
    /// a diagonal configuration.
    pub fn initial() -> (p: Position)
        ensures
            p.black == INITIAL_BLACK,
            p.white == INITIAL_WHITE,
            p.wf(),
            p.total() == 4,
    {
        let p = Position { black: INITIAL_BLACK, white: INITIAL_WHITE };
        proof {
            assert(0x0000000810000000u64 & 0x0000001008000000u64 == 0u64) by (bit_vector);
            assert(0x0000000810000000u64 == (1u64 << 28u64) | (1u64 << 35u64)) by (bit_vector);
            assert(0x0000001008000000u64 == (1u64 << 27u64) | (1u64 << 36u64)) by (bit_vector);
            lemma_pop_two_bits(INITIAL_BLACK, 28, 35);
            lemma_pop_two_bits(INITIAL_WHITE, 27, 36);
        }
        p
    }
}

/// One of the two players' colors.
#[derive(Clone, Copy, PartialEq, Eq, Structural, Debug)]
pub enum Color {
    Black,
    White,
}

impl Color {
    /// The opposing color.
    pub open spec fn spec_opposite(self) -> Color {
        match self {
            Color::Black => Color::White,
            Color::White => Color::Black,
        }
    }

    /// The opposing color.
    pub fn opposite(self) -> (c: Color)
        ensures
            c == self.spec_opposite(),
    {
        match self {
            Color::Black => Color::White,
            Color::White => Color::Black,
        }
    }
}

impl Position {
    /// The occupancy set of the given color.
    pub open spec fn spec_discs_of(self, color: Color) -> u64 {
        match color {
            Color::Black => self.black,
            Color::White => self.white,
        }
    }

    /// The occupancy set of the given color.
    pub fn discs_of(self, color: Color) -> (m: u64)
        ensures
            m == self.spec_discs_of(color),
    {
        match color {
            Color::Black => self.black,
            Color::White => self.white,
        }
    }
}

} // verus!
