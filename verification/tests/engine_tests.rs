use reversi::board::{count_bits, Color, Position};
use reversi::codec::parse_square;
use reversi::engine::{apply_move, has_any_legal_move, MoveError};
use reversi::status::{evaluate, Status};

#[test]
fn initial_position_is_the_standard_diagonal() {
    let p = Position::initial();
    // black: e4 (bit 28) and d5 (bit 35); white: d4 (bit 27) and e5 (bit 36)
    assert_eq!(p.black, (1u64 << 28) | (1u64 << 35));
    assert_eq!(p.white, (1u64 << 27) | (1u64 << 36));
    assert_eq!(p.black & p.white, 0);
    assert_eq!(count_bits(p.black), 2);
    assert_eq!(count_bits(p.white), 2);
}

#[test]
fn opening_move_flips_exactly_the_bracketed_disc() {
    // Scenario: from the start, black plays d3; d4 flips, e5 stays white.
    let p = Position::initial();
    let sq = parse_square("d3").unwrap();
    let p2 = apply_move(&p, sq, Color::Black).unwrap();
    let d3 = 1u64 << 19;
    let d4 = 1u64 << 27;
    let e4 = 1u64 << 28;
    let d5 = 1u64 << 35;
    let e5 = 1u64 << 36;
    assert_eq!(p2.black, d3 | d4 | e4 | d5);
    assert_eq!(p2.white, e5);
    assert_eq!(count_bits(p2.black) + count_bits(p2.white), 5);
    assert_eq!(evaluate(&p2, Color::White), Status::Continue);
}

#[test]
fn occupied_square_is_rejected() {
    // Scenario: from the start, black tries d4, which white already holds.
    let p = Position::initial();
    let sq = parse_square("d4").unwrap();
    assert_eq!(apply_move(&p, sq, Color::Black), Err(MoveError::SquareOccupied));
}

#[test]
fn empty_square_without_flip_is_rejected() {
    let p = Position::initial();
    let sq = parse_square("a1").unwrap();
    assert_eq!(apply_move(&p, sq, Color::Black), Err(MoveError::NoLegalFlip));
}

#[test]
fn every_legal_move_adds_exactly_one_disc() {
    let p = Position::initial();
    let before = count_bits(p.black) + count_bits(p.white);
    let mut legal = 0;
    for i in 0..64u32 {
        let sq = 1u64 << i;
        if let Ok(p2) = apply_move(&p, sq, Color::Black) {
            legal += 1;
            assert_eq!(p2.black & p2.white, 0);
            assert_eq!(count_bits(p2.black) + count_bits(p2.white), before + 1);
        }
    }
    // black's four classical opening moves: d3, c4, f5, e6
    assert_eq!(legal, 4);
}

#[test]
fn has_any_legal_move_in_the_opening() {
    let p = Position::initial();
    assert!(has_any_legal_move(&p, Color::Black));
    assert!(has_any_legal_move(&p, Color::White));
}

#[test]
fn blocked_side_must_pass() {
    // a1 white, b1 black: black cannot bracket anything, white can (c1).
    let p = Position { black: 1u64 << 1, white: 1u64 };
    assert!(!has_any_legal_move(&p, Color::Black));
    assert!(has_any_legal_move(&p, Color::White));
    assert_eq!(evaluate(&p, Color::Black), Status::MustPass);
    assert_eq!(evaluate(&p, Color::White), Status::Continue);
}

#[test]
fn full_board_majority_wins() {
    // Scenario: full board, black 33 discs, white 31: black wins.
    let black = 0x1_FFFF_FFFFu64;
    let white = !black;
    let p = Position { black, white };
    assert_eq!(count_bits(black), 33);
    assert_eq!(count_bits(white), 31);
    assert_eq!(evaluate(&p, Color::Black), Status::Won(Color::Black));
    assert_eq!(evaluate(&p, Color::White), Status::Won(Color::Black));
}

#[test]
fn full_board_equal_counts_draw() {
    let black = 0xFFFF_FFFFu64;
    let white = !black;
    let p = Position { black, white };
    assert_eq!(evaluate(&p, Color::Black), Status::Draw);
}

#[test]
fn stalemate_on_sparse_board_ends_by_count() {
    // a1 black alone: neither side can move; black holds the majority.
    let p = Position { black: 1u64, white: 0 };
    assert!(!has_any_legal_move(&p, Color::Black));
    assert!(!has_any_legal_move(&p, Color::White));
    assert_eq!(evaluate(&p, Color::White), Status::Won(Color::Black));
}
