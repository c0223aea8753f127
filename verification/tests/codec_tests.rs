use reversi::codec::{move_value_text, parse_square, to_notation, CodecError, NO_MOVE, PASS};

#[test]
fn parse_corners_and_center() {
    assert_eq!(parse_square("a1"), Ok(1u64));
    assert_eq!(parse_square("h1"), Ok(1u64 << 7));
    assert_eq!(parse_square("a8"), Ok(1u64 << 56));
    assert_eq!(parse_square("h8"), Ok(1u64 << 63));
    assert_eq!(parse_square("d3"), Ok(1u64 << 19));
    assert_eq!(parse_square("e4"), Ok(1u64 << 28));
}

#[test]
fn parse_is_case_insensitive_in_file() {
    assert_eq!(parse_square("D3"), parse_square("d3"));
    assert_eq!(parse_square("H8"), parse_square("h8"));
    assert_eq!(parse_square("A1"), parse_square("a1"));
}

#[test]
fn parse_rejects_malformed_text() {
    assert_eq!(parse_square(""), Err(CodecError::InvalidNotation));
    assert_eq!(parse_square("d"), Err(CodecError::InvalidNotation));
    assert_eq!(parse_square("d33"), Err(CodecError::InvalidNotation));
    assert_eq!(parse_square("i1"), Err(CodecError::InvalidNotation));
    assert_eq!(parse_square("a0"), Err(CodecError::InvalidNotation));
    assert_eq!(parse_square("a9"), Err(CodecError::InvalidNotation));
    assert_eq!(parse_square("1a"), Err(CodecError::InvalidNotation));
    assert_eq!(parse_square("zz"), Err(CodecError::InvalidNotation));
}

#[test]
fn notation_round_trips_for_all_64_squares() {
    for i in 0..64u32 {
        let mask = 1u64 << i;
        let text = to_notation(mask).expect("every single bit has a notation");
        assert_eq!(parse_square(&text), Ok(mask), "round trip failed at bit {}", i);
    }
}

#[test]
fn to_notation_renders_squares() {
    assert_eq!(to_notation(1u64).unwrap(), "a1");
    assert_eq!(to_notation(1u64 << 19).unwrap(), "d3");
    assert_eq!(to_notation(1u64 << 63).unwrap(), "h8");
}

#[test]
fn to_notation_rejects_non_single_bit_masks() {
    assert_eq!(to_notation(NO_MOVE), Err(CodecError::InvalidMask));
    assert_eq!(to_notation(PASS), Err(CodecError::InvalidMask));
    assert_eq!(to_notation(0b11), Err(CodecError::InvalidMask));
    assert_eq!(to_notation((1u64 << 5) | (1u64 << 40)), Err(CodecError::InvalidMask));
}

#[test]
fn move_value_text_renders_sentinels_and_squares() {
    assert_eq!(move_value_text(NO_MOVE).unwrap(), "");
    assert_eq!(move_value_text(PASS).unwrap(), "pass");
    assert_eq!(move_value_text(1u64 << 19).unwrap(), "d3");
    assert_eq!(move_value_text(0b101), Err(CodecError::InvalidMask));
}
