//! The square codec: converts between human notation ("a1" .. "h8"), a
//! single-bit occupancy mask, and the two reserved move encodings.

use vstd::prelude::*;

use crate::board::{is_square_mask, mask_of};

verus! {

/// The reserved encoding for "no move recorded yet". Not a square bit.
pub const NO_MOVE: u64 = 0u64;

/// The reserved encoding for a pass. Not a square bit.
pub const PASS: u64 = 0xFFFF_FFFF_FFFF_FFFFu64;

/// Why a codec conversion failed.
#[derive(Clone, Copy, PartialEq, Eq, Structural, Debug)]
pub enum CodecError {
    /// The text is not a file a-h (case-insensitive) followed by a rank 1-8.
    InvalidNotation,
    /// The mask does not hold exactly one square bit.
    InvalidMask,
}

/// The file index (a = 0 .. h = 7) a character denotes, or -1.
pub open spec fn file_index(c: char) -> int {
    if c == 'a' || c == 'A' {
        0
    } else if c == 'b' || c == 'B' {
        1
    } else if c == 'c' || c == 'C' {
        2
    } else if c == 'd' || c == 'D' {
        3
    } else if c == 'e' || c == 'E' {
        4
    } else if c == 'f' || c == 'F' {
        5
    } else if c == 'g' || c == 'G' {
        6
    } else if c == 'h' || c == 'H' {
        7
    } else {
        -1
    }
}

/// The rank index ('1' = 0 .. '8' = 7) a character denotes, or -1.
pub open spec fn rank_index(c: char) -> int {
    if c == '1' {
        0
    } else if c == '2' {
        1
    } else if c == '3' {
        2
    } else if c == '4' {
        3
    } else if c == '5' {
        4
    } else if c == '6' {
        5
    } else if c == '7' {
        6
    } else if c == '8' {
        7
    } else {
        -1
    }
}

/// What `parse_square` returns for the given text.
pub open spec fn spec_parse(s: Seq<char>) -> Result<u64, CodecError> {
    if s.len() != 2 {
        Err(CodecError::InvalidNotation)
    } else {
        let f = file_index(s[0]);
        let r = rank_index(s[1]);
        if f < 0 || r < 0 {
            Err(CodecError::InvalidNotation)
        } else {
            Ok(mask_of(r * 8 + f))
        }
    }
}

/// The lower-case file character of file index `f`; meaningful for 0 <= f < 8.
pub open spec fn file_char(f: int) -> char {
    if f == 0 {
        'a'
    } else if f == 1 {
        'b'
    } else if f == 2 {
        'c'
    } else if f == 3 {
        'd'
    } else if f == 4 {
        'e'
    } else if f == 5 {
        'f'
    } else if f == 6 {
        'g'
    } else {
        'h'
    }
}

/// The rank character of rank index `r`; meaningful for 0 <= r < 8.
pub open spec fn rank_char(r: int) -> char {
    if r == 0 {
        '1'
    } else if r == 1 {
        '2'
    } else if r == 2 {
        '3'
    } else if r == 3 {
        '4'
    } else if r == 4 {
        '5'
    } else if r == 5 {
        '6'
    } else if r == 6 {
        '7'
    } else {
        '8'
    }
}

/// The notation of the square at cell `i`; meaningful for 0 <= i < 64.
pub open spec fn spec_notation(i: int) -> Seq<char> {
    seq![file_char(i % 8), rank_char(i / 8)]
}

/// Parses square notation: exactly 2 characters, file a-h (case-insensitive),
/// then rank 1-8; any other text is `InvalidNotation`. Produces the
/// single-bit mask at rank * 8 + file.
pub fn parse_square(s: &str) -> (res: Result<u64, CodecError>)
    ensures
        res == spec_parse(s@),
        res matches Ok(m) ==> is_square_mask(m),
{
    let n = s.unicode_len();
    if n != 2 {
        return Err(CodecError::InvalidNotation);
    }
    let c0 = s.get_char(0);
    let c1 = s.get_char(1);
    let f: i32 = if c0 == 'a' || c0 == 'A' {
        0
    } else if c0 == 'b' || c0 == 'B' {
        1
    } else if c0 == 'c' || c0 == 'C' {
        2
    } else if c0 == 'd' || c0 == 'D' {
        3
    } else if c0 == 'e' || c0 == 'E' {
        4
    } else if c0 == 'f' || c0 == 'F' {
        5
    } else if c0 == 'g' || c0 == 'G' {
        6
    } else if c0 == 'h' || c0 == 'H' {
        7
    } else {
        -1
    };
    let r: i32 = if c1 == '1' {
        0
    } else if c1 == '2' {
        1
    } else if c1 == '3' {
        2
    } else if c1 == '4' {
        3
    } else if c1 == '5' {
        4
    } else if c1 == '6' {
        5
    } else if c1 == '7' {
        6
    } else if c1 == '8' {
        7
    } else {
        -1
    };
    if f < 0 || r < 0 {
        return Err(CodecError::InvalidNotation);
    }
    let idx: u32 = (r * 8 + f) as u32;
    Ok(1u64 << (idx as u64))
}

/// Renders a single-bit mask as square notation; the inverse of
/// `parse_square`. Fails with `InvalidMask` unless exactly one bit is set.
pub fn to_notation(sq: u64) -> (res: Result<String, CodecError>)
    ensures
        res matches Ok(s) ==> is_square_mask(sq) && forall|i: int|
            0 <= i < 64 && sq == mask_of(i) ==> s@ == spec_notation(i),
        res matches Err(e) ==> e == CodecError::InvalidMask && !is_square_mask(sq),
{
    let idx: u32 = match crate::board::find_single_bit(sq) {
        Some(i) => i,
        None => {
            return Err(CodecError::InvalidMask);
        },
    };
    proof {
        assert forall|i: int| 0 <= i < 64 && sq == mask_of(i) implies i == idx as int by {
            let iu = i as u64;
            let ju = idx as u64;
            assert(!(iu != ju && iu < 64u64 && ju < 64u64 && (1u64 << iu) == (1u64 << ju)))
                by (bit_vector);
        }
    }
    let f: u32 = idx % 8;
    let r: u32 = idx / 8;
    let fs: &str = if f == 0 {
        "a"
    } else if f == 1 {
        "b"
    } else if f == 2 {
        "c"
    } else if f == 3 {
        "d"
    } else if f == 4 {
        "e"
    } else if f == 5 {
        "f"
    } else if f == 6 {
        "g"
    } else {
        "h"
    };
    let rs: &str = if r == 0 {
        "1"
    } else if r == 1 {
        "2"
    } else if r == 2 {
        "3"
    } else if r == 3 {
        "4"
    } else if r == 4 {
        "5"
    } else if r == 5 {
        "6"
    } else if r == 6 {
        "7"
    } else {
        "8"
    };
    proof {
        reveal_strlit("a");
        reveal_strlit("b");
        reveal_strlit("c");
        reveal_strlit("d");
        reveal_strlit("e");
        reveal_strlit("f");
        reveal_strlit("g");
        reveal_strlit("h");
        reveal_strlit("1");
        reveal_strlit("2");
        reveal_strlit("3");
        reveal_strlit("4");
        reveal_strlit("5");
        reveal_strlit("6");
        reveal_strlit("7");
        reveal_strlit("8");
        assert(fs@ =~= seq![file_char(idx as int % 8)]);
        assert(rs@ =~= seq![rank_char(idx as int / 8)]);
    }
    let s = String::from_str(fs).concat(rs);
    proof {
        assert(s@ =~= spec_notation(idx as int));
    }
    Ok(s)
}

/// Renders a recorded move value: the empty string for "no move yet", the
/// pass token for the pass sentinel, and square notation for a square bit.
pub fn move_value_text(v: u64) -> (res: Result<String, CodecError>)
    ensures
        v == NO_MOVE ==> (res matches Ok(s) && s@ == Seq::<char>::empty()),
        v == PASS ==> (res matches Ok(s) && s@ == "pass"@),
        is_square_mask(v) ==> (res matches Ok(s) && forall|i: int|
            0 <= i < 64 && v == mask_of(i) ==> s@ == spec_notation(i)),
        v != NO_MOVE && v != PASS && !is_square_mask(v) ==> res == Err::<String, CodecError>(
            CodecError::InvalidMask,
        ),
{
    proof {
        lemma_sentinels_are_not_squares();
    }
    if v == NO_MOVE {
        Ok(String::new())
    } else if v == PASS {
        Ok(String::from_str("pass"))
    } else {
        to_notation(v)
    }
}

/// Any mask the parser produces is a single-bit square mask.
pub proof fn lemma_parse_gives_square(s: Seq<char>)
    ensures
        spec_parse(s) matches Ok(m) ==> is_square_mask(m),
{
    if spec_parse(s) is Ok {
        let f = file_index(s[0]);
        let r = rank_index(s[1]);
        assert(0 <= r * 8 + f < 64);
        assert(spec_parse(s)->Ok_0 == mask_of(r * 8 + f));
    }
}

/// Parsing the notation of any square yields that square's mask back.
pub proof fn lemma_parse_notation_round_trip(i: int)
    requires
        0 <= i < 64,
    ensures
        spec_parse(spec_notation(i)) == Ok::<u64, CodecError>(mask_of(i)),
{
    assert(file_index(file_char(i % 8)) == i % 8);
    assert(rank_index(rank_char(i / 8)) == i / 8);
    assert((i / 8) * 8 + (i % 8) == i);
}

/// The two reserved move encodings never collide with a square bit.
pub proof fn lemma_sentinels_are_not_squares()
    ensures
        !is_square_mask(NO_MOVE),
        !is_square_mask(PASS),
{
    assert forall|i: int| 0 <= i < 64 implies NO_MOVE != mask_of(i) && PASS != mask_of(i) by {
        let iu = i as u64;
        assert(iu < 64u64 ==> (1u64 << iu) != 0u64 && (1u64 << iu) != 0xFFFF_FFFF_FFFF_FFFFu64)
            by (bit_vector);
    }
}

} // verus!
