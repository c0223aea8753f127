use reversi::board::{Color, Position};
use reversi::codec::{NO_MOVE, PASS};
use reversi::game::{GameError, GameState};
use reversi::session::GameSession;

fn started_session() -> GameSession {
    let mut s = GameSession::start(
        String::from("game-1"),
        String::from("alice"),
        Color::Black,
    );
    s.join_player(String::from("bob")).unwrap();
    s
}

#[test]
fn fresh_session_has_no_moves() {
    let s = GameSession::start(String::from("game-1"), String::from("alice"), Color::Black);
    assert_eq!(s.max_move_number(), 0);
    assert_eq!(s.last_move_value(), NO_MOVE);
    assert_eq!(s.game.state, GameState::Pending);
}

#[test]
fn move_numbers_count_up_without_gaps() {
    let mut s = started_session();
    let alice = String::from("alice");
    let bob = String::from("bob");
    s.submit_action(&alice, &String::from("d3")).unwrap();
    s.submit_action(&bob, &String::from("c3")).unwrap();
    s.submit_action(&alice, &String::from("c4")).unwrap();
    assert_eq!(s.max_move_number(), 3);
    for (i, record) in s.moves.iter().enumerate() {
        assert_eq!(record.number, (i + 1) as u64);
    }
    assert_eq!(s.moves[0].value, 1u64 << 19);
}

#[test]
fn rejected_actions_append_nothing() {
    let mut s = started_session();
    let alice = String::from("alice");
    assert_eq!(
        s.submit_action(&alice, &String::from("d4")),
        Err(GameError::SquareOccupied)
    );
    assert_eq!(
        s.submit_action(&alice, &String::from("pass")),
        Err(GameError::IllegalPass)
    );
    assert_eq!(s.max_move_number(), 0);
    assert_eq!(s.last_move_value(), NO_MOVE);
}

#[test]
fn pass_is_recorded_under_the_pass_sentinel() {
    let mut s = started_session();
    s.game.position = Position { black: 1u64 << 1, white: 1u64 };
    let res = s.submit_action(&String::from("alice"), &String::from("pass"));
    assert_eq!(res, Ok(Some(PASS)));
    assert_eq!(s.max_move_number(), 1);
    assert_eq!(s.last_move_value(), PASS);
    assert_eq!(s.moves[0].position, s.game.position);
}

#[test]
fn resign_appends_no_record_and_freezes_the_session() {
    let mut s = started_session();
    let alice = String::from("alice");
    s.submit_action(&alice, &String::from("d3")).unwrap();
    let res = s.submit_action(&String::from("bob"), &String::from("resign"));
    assert_eq!(res, Ok(None));
    assert_eq!(s.game.state, GameState::Won(Color::Black));
    assert_eq!(s.max_move_number(), 1);
    assert_eq!(
        s.submit_action(&alice, &String::from("e3")),
        Err(GameError::GameAlreadyFinished)
    );
    assert_eq!(s.max_move_number(), 1);
}

#[test]
fn records_snapshot_the_resulting_position() {
    let mut s = started_session();
    s.submit_action(&String::from("alice"), &String::from("d3")).unwrap();
    let after_first = s.game.position;
    s.submit_action(&String::from("bob"), &String::from("c3")).unwrap();
    assert_eq!(s.moves[0].position, after_first);
    assert_eq!(s.moves[1].position, s.game.position);
}
