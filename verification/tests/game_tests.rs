use reversi::board::{Color, Position};
use reversi::codec::PASS;
use reversi::game::{
    color_label, create_game, join, state_code, state_from_code, state_label, submit,
    winner_label, Game, GameError, GameState,
};

fn started_game() -> Game {
    let mut g = create_game(
        String::from("game-1"),
        String::from("alice"),
        Color::Black,
    );
    join(&mut g, String::from("bob")).unwrap();
    g
}

#[test]
fn create_fills_exactly_the_creators_slot() {
    let g = create_game(String::from("game-1"), String::from("alice"), Color::Black);
    assert_eq!(g.state, GameState::Pending);
    assert_eq!(g.black_id, Some(String::from("alice")));
    assert_eq!(g.white_id, None);
    let g2 = create_game(String::from("game-2"), String::from("carol"), Color::White);
    assert_eq!(g2.white_id, Some(String::from("carol")));
    assert_eq!(g2.black_id, None);
    assert_eq!(g2.position, Position::initial());
}

#[test]
fn join_fills_the_empty_slot_and_black_moves_first() {
    let mut g = create_game(String::from("game-1"), String::from("alice"), Color::White);
    let color = join(&mut g, String::from("bob")).unwrap();
    assert_eq!(color, Color::Black);
    assert_eq!(g.black_id, Some(String::from("bob")));
    assert_eq!(g.state, GameState::ToMove(Color::Black));
}

#[test]
fn join_is_rejected_past_pending() {
    let mut g = started_game();
    assert_eq!(join(&mut g, String::from("carol")), Err(GameError::GameAlreadyStarted));
    assert_eq!(g.white_id, Some(String::from("bob")));
}

#[test]
fn opening_move_toggles_the_turn() {
    let mut g = started_game();
    let res = submit(&mut g, &String::from("alice"), &String::from("d3"));
    assert_eq!(res, Ok(Some(1u64 << 19)));
    assert_eq!(g.state, GameState::ToMove(Color::White));
    assert_eq!(g.position.black, (1u64 << 19) | (1u64 << 27) | (1u64 << 28) | (1u64 << 35));
    assert_eq!(g.position.white, 1u64 << 36);
}

#[test]
fn occupied_square_leaves_the_game_unchanged() {
    // Scenario: black attempts d4, already occupied; nothing mutates.
    let mut g = started_game();
    let before_position = g.position;
    let res = submit(&mut g, &String::from("alice"), &String::from("d4"));
    assert_eq!(res, Err(GameError::SquareOccupied));
    assert_eq!(g.position, before_position);
    assert_eq!(g.state, GameState::ToMove(Color::Black));
}

#[test]
fn empty_square_without_flip_is_rejected_by_the_lifecycle() {
    let mut g = started_game();
    let res = submit(&mut g, &String::from("alice"), &String::from("a1"));
    assert_eq!(res, Err(GameError::NoLegalFlip));
    assert_eq!(g.state, GameState::ToMove(Color::Black));
    assert_eq!(g.position, Position::initial());
}

#[test]
fn actions_on_a_pending_game_are_rejected() {
    let mut g = create_game(String::from("game-1"), String::from("alice"), Color::Black);
    let res = submit(&mut g, &String::from("alice"), &String::from("d3"));
    assert_eq!(res, Err(GameError::PlayerNotAuthorizedForTurn));
    let res = submit(&mut g, &String::from("alice"), &String::from("resign"));
    assert_eq!(res, Err(GameError::PlayerNotAuthorizedForTurn));
    assert_eq!(g.state, GameState::Pending);
}

#[test]
fn malformed_text_is_invalid_notation() {
    let mut g = started_game();
    let res = submit(&mut g, &String::from("alice"), &String::from("q13"));
    assert_eq!(res, Err(GameError::InvalidNotation));
    assert_eq!(g.state, GameState::ToMove(Color::Black));
}

#[test]
fn only_the_player_to_move_may_act() {
    let mut g = started_game();
    // bob holds white and the turn is black's
    let res = submit(&mut g, &String::from("bob"), &String::from("d3"));
    assert_eq!(res, Err(GameError::PlayerNotAuthorizedForTurn));
    // a stranger may not act either
    let res = submit(&mut g, &String::from("mallory"), &String::from("d3"));
    assert_eq!(res, Err(GameError::PlayerNotAuthorizedForTurn));
    assert_eq!(g.state, GameState::ToMove(Color::Black));
}

#[test]
fn pass_with_a_legal_move_available_is_illegal() {
    let mut g = started_game();
    let res = submit(&mut g, &String::from("alice"), &String::from("pass"));
    assert_eq!(res, Err(GameError::IllegalPass));
    assert_eq!(g.state, GameState::ToMove(Color::Black));
}

#[test]
fn forced_pass_toggles_turn_without_moving_a_disc() {
    // Scenario: black has no legal move, white does; black passes.
    let mut g = started_game();
    g.position = Position { black: 1u64 << 1, white: 1u64 };
    let before_position = g.position;
    let res = submit(&mut g, &String::from("alice"), &String::from("pass"));
    assert_eq!(res, Ok(Some(PASS)));
    assert_eq!(g.position, before_position);
    assert_eq!(g.state, GameState::ToMove(Color::White));
}

#[test]
fn resign_ends_the_game_for_the_opponent() {
    // Scenario: black resigns; white wins; every later action is rejected.
    let mut g = started_game();
    let res = submit(&mut g, &String::from("alice"), &String::from("resign"));
    assert_eq!(res, Ok(None));
    assert_eq!(g.state, GameState::Won(Color::White));
    let res = submit(&mut g, &String::from("bob"), &String::from("d3"));
    assert_eq!(res, Err(GameError::GameAlreadyFinished));
    let res = submit(&mut g, &String::from("alice"), &String::from("pass"));
    assert_eq!(res, Err(GameError::GameAlreadyFinished));
    assert_eq!(join(&mut g, String::from("carol")), Err(GameError::GameAlreadyFinished));
    assert_eq!(g.state, GameState::Won(Color::White));
}

#[test]
fn winning_move_reaches_the_terminal_state() {
    // Scenario: the board is one cell short of full; black fills it and
    // holds the majority; the state machine lands in the won state.
    let mut g = started_game();
    // h8 empty; g8 white; the rest of the board black
    let h8 = 1u64 << 63;
    let g8 = 1u64 << 62;
    g.position = Position { black: !(h8 | g8), white: g8 };
    let res = submit(&mut g, &String::from("alice"), &String::from("h8"));
    assert_eq!(res, Ok(Some(h8)));
    assert_eq!(g.state, GameState::Won(Color::Black));
    assert_eq!(g.position.black, !0u64);
    assert_eq!(g.position.white, 0);
}

#[test]
fn state_codes_round_trip_and_obey_the_toggle() {
    let states = [
        GameState::Pending,
        GameState::ToMove(Color::Black),
        GameState::ToMove(Color::White),
        GameState::Won(Color::Black),
        GameState::Won(Color::White),
        GameState::Draw,
    ];
    for (want, st) in states.iter().enumerate() {
        assert_eq!(state_code(*st), want as u32);
        assert_eq!(state_from_code(want as u32), Some(*st));
    }
    assert_eq!(state_from_code(6), None);
    assert_eq!(
        state_code(GameState::ToMove(Color::White)),
        3 - state_code(GameState::ToMove(Color::Black))
    );
}

#[test]
fn labels_match_the_wire_vocabulary() {
    assert_eq!(state_label(GameState::Pending), "pending");
    assert_eq!(state_label(GameState::ToMove(Color::Black)), "black");
    assert_eq!(state_label(GameState::ToMove(Color::White)), "white");
    assert_eq!(state_label(GameState::Won(Color::Black)), "black_won");
    assert_eq!(state_label(GameState::Won(Color::White)), "white_won");
    assert_eq!(state_label(GameState::Draw), "draw");
    assert_eq!(color_label(Color::Black), "black");
    assert_eq!(color_label(Color::White), "white");
    assert_eq!(winner_label(GameState::Won(Color::White)), "white");
    assert_eq!(winner_label(GameState::Draw), "draw");
    assert_eq!(winner_label(GameState::ToMove(Color::Black)), "");
}
