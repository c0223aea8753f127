//! The game-lifecycle state machine: the finite set of game states and the
//! transition rules triggered by join / move / pass / resign actions.
//!
//! Every transition is a pure decision over the current game row; the caller
//! persists the returned row and move record as one atomic unit.

use vstd::prelude::*;
use vstd::string::*;

use crate::board::{mask_of, Color, Position, INITIAL_BLACK, INITIAL_WHITE};
use crate::codec::{lemma_parse_gives_square, parse_square, spec_parse, PASS};
use crate::engine::{
    apply_move, has_any_legal_move, has_move, lemma_move_ok_implies_has_move, spec_apply_move,
    square_index, MoveError,
};
use crate::status::{evaluate, spec_evaluate, Status};

verus! {

/// A game's lifecycle state.
#[derive(Clone, Copy, PartialEq, Eq, Structural, Debug)]
pub enum GameState {
    /// Awaiting the second player.
    Pending,
    /// The given color is to move.
    ToMove(Color),
    /// Terminal: the given color won.
    Won(Color),
    /// Terminal: equal disc counts.
    Draw,
}

impl GameState {
    /// Terminal states admit no further transition.
    pub open spec fn is_terminal(self) -> bool {
        self is Won || self is Draw
    }

    /// Terminal states admit no further transition.
    pub fn terminal(self) -> (b: bool)
        ensures
            b == self.is_terminal(),
    {
        match self {
            GameState::Won(_) => true,
            GameState::Draw => true,
            _ => false,
        }
    }
}

/// The stable numeric code a state is persisted under.
pub open spec fn spec_state_code(s: GameState) -> u32 {
    match s {
        GameState::Pending => 0,
        GameState::ToMove(Color::Black) => 1,
        GameState::ToMove(Color::White) => 2,
        GameState::Won(Color::Black) => 3,
        GameState::Won(Color::White) => 4,
        GameState::Draw => 5,
    }
}

/// The stable numeric code a state is persisted under.
pub fn state_code(s: GameState) -> (c: u32)
    ensures
        c == spec_state_code(s),
{
    match s {
        GameState::Pending => 0,
        GameState::ToMove(Color::Black) => 1,
        GameState::ToMove(Color::White) => 2,
        GameState::Won(Color::Black) => 3,
        GameState::Won(Color::White) => 4,
        GameState::Draw => 5,
    }
}

/// The state a persisted numeric code denotes.
pub open spec fn spec_state_from_code(c: u32) -> Option<GameState> {
    if c == 0 {
        Some(GameState::Pending)
    } else if c == 1 {
        Some(GameState::ToMove(Color::Black))
    } else if c == 2 {
        Some(GameState::ToMove(Color::White))
    } else if c == 3 {
        Some(GameState::Won(Color::Black))
    } else if c == 4 {
        Some(GameState::Won(Color::White))
    } else if c == 5 {
        Some(GameState::Draw)
    } else {
        None
    }
}

/// The state a persisted numeric code denotes; codes above 5 denote none.
pub fn state_from_code(c: u32) -> (s: Option<GameState>)
    ensures
        s == spec_state_from_code(c),
{
    if c == 0 {
        Some(GameState::Pending)
    } else if c == 1 {
        Some(GameState::ToMove(Color::Black))
    } else if c == 2 {
        Some(GameState::ToMove(Color::White))
    } else if c == 3 {
        Some(GameState::Won(Color::Black))
    } else if c == 4 {
        Some(GameState::Won(Color::White))
    } else if c == 5 {
        Some(GameState::Draw)
    } else {
        None
    }
}

/// State codes survive a persistence round-trip, and the two to-move codes
/// obey the toggle rule next = 3 - current.
pub proof fn lemma_state_code_round_trip(s: GameState, c: Color)
    ensures
        spec_state_code(s) <= 5,
        spec_state_from_code(spec_state_code(s)) == Some(s),
        spec_state_code(GameState::ToMove(c.spec_opposite())) == 3 - spec_state_code(
            GameState::ToMove(c),
        ),
{
}

/// The label a state is reported under.
pub open spec fn spec_state_label(s: GameState) -> Seq<char> {
    match s {
        GameState::Pending => "pending"@,
        GameState::ToMove(Color::Black) => "black"@,
        GameState::ToMove(Color::White) => "white"@,
        GameState::Won(Color::Black) => "black_won"@,
        GameState::Won(Color::White) => "white_won"@,
        GameState::Draw => "draw"@,
    }
}

/// The label a state is reported under.
pub fn state_label(s: GameState) -> (l: String)
    ensures
        l@ == spec_state_label(s),
{
    match s {
        GameState::Pending => String::from_str("pending"),
        GameState::ToMove(Color::Black) => String::from_str("black"),
        GameState::ToMove(Color::White) => String::from_str("white"),
        GameState::Won(Color::Black) => String::from_str("black_won"),
        GameState::Won(Color::White) => String::from_str("white_won"),
        GameState::Draw => String::from_str("draw"),
    }
}

/// The label a color is reported under.
pub open spec fn spec_color_label(c: Color) -> Seq<char> {
    match c {
        Color::Black => "black"@,
        Color::White => "white"@,
    }
}

/// The label a color is reported under.
pub fn color_label(c: Color) -> (l: String)
    ensures
        l@ == spec_color_label(c),
{
    match c {
        Color::Black => String::from_str("black"),
        Color::White => String::from_str("white"),
    }
}

/// The winner a state is reported under: a color's label for a win, the
/// draw label, and the empty string for a game still running.
pub open spec fn spec_winner_label(s: GameState) -> Seq<char> {
    match s {
        GameState::Won(c) => spec_color_label(c),
        GameState::Draw => "draw"@,
        _ => Seq::<char>::empty(),
    }
}

/// The winner a state is reported under.
pub fn winner_label(s: GameState) -> (l: String)
    ensures
        l@ == spec_winner_label(s),
{
    match s {
        GameState::Won(c) => color_label(c),
        GameState::Draw => String::from_str("draw"),
        _ => String::new(),
    }
}

/// Why a lifecycle action was rejected.
#[derive(Clone, Copy, PartialEq, Eq, Structural, Debug)]
pub enum GameError {
    /// The move text is not a square notation the codec accepts.
    InvalidNotation,
    /// The target cell already holds a disc.
    SquareOccupied,
    /// The target cell is empty but the move flips nothing.
    NoLegalFlip,
    /// A pass was submitted while a legal move exists.
    IllegalPass,
    /// The game is in a terminal state.
    GameAlreadyFinished,
    /// A join was submitted for a game already past its pending state.
    GameAlreadyStarted,
    /// No game exists under the requested id.
    GameNotFound,
    /// The acting player is not the color to move (or not a player of the
    /// game at all).
    PlayerNotAuthorizedForTurn,
    /// The game row changed between read and commit; the caller may retry.
    ConcurrencyConflict,
    /// The storage collaborator failed.
    StorageFailure,
}

/// A game row: identity, the two player identities (unset until joined), the
/// current position, and the lifecycle state.
#[derive(Debug)]
pub struct Game {
    pub game_id: String,
    pub black_id: Option<String>,
    pub white_id: Option<String>,
    pub position: Position,
    pub state: GameState,
}

impl Game {
    /// The invariant every observable game row satisfies: the position's
    /// occupancy sets are disjoint, and a pending game has exactly one
    /// player slot filled.
    pub open spec fn wf(self) -> bool {
        &&& self.position.wf()
        &&& self.state == GameState::Pending ==> (self.black_id is Some <==> self.white_id
            is None)
    }

    /// The color slot the given player identity occupies.
    pub open spec fn spec_player_color(self, player: Seq<char>) -> Option<Color> {
        if self.black_id matches Some(b) && b@ == player {
            Some(Color::Black)
        } else if self.white_id matches Some(w) && w@ == player {
            Some(Color::White)
        } else {
            None
        }
    }

    /// The color slot the given player identity occupies.
    pub fn player_color(&self, player: &String) -> (c: Option<Color>)
        ensures
            c == self.spec_player_color(player@),
    {
        match &self.black_id {
            Some(b) => {
                if b.eq(player) {
                    return Some(Color::Black);
                }
            },
            None => {},
        }
        match &self.white_id {
            Some(w) => {
                if w.eq(player) {
                    return Some(Color::White);
                }
            },
            None => {},
        }
        None
    }
}

/// Creates a game: pending, the canonical starting position, and exactly the
/// creator's slot filled with the color the caller assigned.
/// What `create_game` returns.
pub open spec fn spec_create(game_id: String, creator: String, creator_color: Color) -> Game {
    let position = Position { black: INITIAL_BLACK, white: INITIAL_WHITE };
    match creator_color {
        Color::Black => Game {
            game_id,
            black_id: Some(creator),
            white_id: None,
            position,
            state: GameState::Pending,
        },
        Color::White => Game {
            game_id,
            black_id: None,
            white_id: Some(creator),
            position,
            state: GameState::Pending,
        },
    }
}

pub fn create_game(game_id: String, creator: String, creator_color: Color) -> (g: Game)
    ensures
        g == spec_create(game_id, creator, creator_color),
        g.wf(),
        g.game_id == game_id,
        g.state == GameState::Pending,
        g.position.black == INITIAL_BLACK && g.position.white == INITIAL_WHITE,
        g.position.total() == 4,
        creator_color == Color::Black ==> g.black_id == Some(creator) && g.white_id is None,
        creator_color == Color::White ==> g.white_id == Some(creator) && g.black_id is None,
{
    let position = Position::initial();
    match creator_color {
        Color::Black => Game {
            game_id,
            black_id: Some(creator),
            white_id: None,
            position,
            state: GameState::Pending,
        },
        Color::White => Game {
            game_id,
            black_id: None,
            white_id: Some(creator),
            position,
            state: GameState::Pending,
        },
    }
}

/// What `join` does: only legal from pending; fills the remaining empty
/// color slot and hands the turn to black, the side that moves first.
pub open spec fn spec_join(g: Game, joiner: String) -> Result<(Game, Color), GameError> {
    if g.state.is_terminal() {
        Err(GameError::GameAlreadyFinished)
    } else if g.state != GameState::Pending {
        Err(GameError::GameAlreadyStarted)
    } else if g.black_id is None {
        Ok(
            (
                Game {
                    black_id: Some(joiner),
                    state: GameState::ToMove(Color::Black),
                    ..g
                },
                Color::Black,
            ),
        )
    } else {
        Ok(
            (
                Game {
                    white_id: Some(joiner),
                    state: GameState::ToMove(Color::Black),
                    ..g
                },
                Color::White,
            ),
        )
    }
}

/// Joins the pending game: fills the remaining empty color slot with the
/// joining player's identity and hands the turn to black. Fails without
/// mutating anything on a game past its pending state.
pub fn join(game: &mut Game, joiner: String) -> (res: Result<Color, GameError>)
    requires
        old(game).wf(),
    ensures
        final(game).wf(),
        match spec_join(*old(game), joiner) {
            Ok(pair) => res == Ok::<Color, GameError>(pair.1) && *final(game) == pair.0,
            Err(e) => res == Err::<Color, GameError>(e) && *final(game) == *old(game),
        },
{
    if game.state.terminal() {
        return Err(GameError::GameAlreadyFinished);
    }
    match game.state {
        GameState::Pending => {},
        _ => {
            return Err(GameError::GameAlreadyStarted);
        },
    }
    let taken = game.black_id.is_some();
    if !taken {
        game.black_id = Some(joiner);
        game.state = GameState::ToMove(Color::Black);
        Ok(Color::Black)
    } else {
        game.white_id = Some(joiner);
        game.state = GameState::ToMove(Color::Black);
        Ok(Color::White)
    }
}

/// The state after handing the turn to `next`: continue (or await the forced
/// pass) in `ToMove(next)`, or the matching terminal state.
pub open spec fn next_state_after(pos: Position, next: Color) -> GameState {
    match spec_evaluate(pos, next) {
        Status::Continue => GameState::ToMove(next),
        Status::MustPass => GameState::ToMove(next),
        Status::Won(c) => GameState::Won(c),
        Status::Draw => GameState::Draw,
    }
}

/// Runs the status evaluator and picks the state after handing the turn to
/// `next`.
fn advance_state(pos: &Position, next: Color) -> (st: GameState)
    ensures
        st == next_state_after(*pos, next),
{
    match evaluate(pos, next) {
        Status::Continue => GameState::ToMove(next),
        Status::MustPass => GameState::ToMove(next),
        Status::Won(c) => GameState::Won(c),
        Status::Draw => GameState::Draw,
    }
}

/// What `submit` does for an action text (square notation, the pass token,
/// or the resign token), as a function of the current game row.
pub open spec fn spec_submit(g: Game, player: Seq<char>, text: Seq<char>) -> Result<
    (Game, Option<u64>),
    GameError,
> {
    if g.state.is_terminal() {
        Err(GameError::GameAlreadyFinished)
    } else if g.state == GameState::Pending {
        Err(GameError::PlayerNotAuthorizedForTurn)
    } else if text == "resign"@ {
        match g.spec_player_color(player) {
            None => Err(GameError::PlayerNotAuthorizedForTurn),
            Some(c) => Ok(
                (Game { state: GameState::Won(c.spec_opposite()), ..g }, None),
            ),
        }
    } else {
        let c = g.state->ToMove_0;
        if g.spec_player_color(player) != Some(c) {
            Err(GameError::PlayerNotAuthorizedForTurn)
        } else if text == "pass"@ {
            if has_move(
                g.position.spec_discs_of(c),
                g.position.spec_discs_of(c.spec_opposite()),
            ) {
                Err(GameError::IllegalPass)
            } else {
                Ok(
                    (
                        Game { state: next_state_after(g.position, c.spec_opposite()), ..g },
                        Some(PASS),
                    ),
                )
            }
        } else {
            match spec_parse(text) {
                Err(_) => Err(GameError::InvalidNotation),
                Ok(sq) => match spec_apply_move(g.position, sq, c) {
                    Err(MoveError::SquareOccupied) => Err(GameError::SquareOccupied),
                    Err(MoveError::NoLegalFlip) => Err(GameError::NoLegalFlip),
                    Ok(p2) => Ok(
                        (
                            Game {
                                position: p2,
                                state: next_state_after(p2, c.spec_opposite()),
                                ..g
                            },
                            Some(sq),
                        ),
                    ),
                },
            }
        }
    }
}

/// Applies one player action to the game row. Returns the encoded move value
/// to append to the move log (`None` for a resign, which appends nothing).
/// Every failure leaves the game unchanged; a terminal game admits no action.
pub fn submit(game: &mut Game, player: &String, text: &String) -> (res: Result<
    Option<u64>,
    GameError,
>)
    requires
        old(game).wf(),
    ensures
        final(game).wf(),
        match spec_submit(*old(game), player@, text@) {
            Ok(pair) => res == Ok::<Option<u64>, GameError>(pair.1) && *final(game) == pair.0,
            Err(e) => res == Err::<Option<u64>, GameError>(e) && *final(game) == *old(game),
        },
{
    if game.state.terminal() {
        return Err(GameError::GameAlreadyFinished);
    }
    match game.state {
        GameState::Pending => {
            return Err(GameError::PlayerNotAuthorizedForTurn);
        },
        _ => {},
    }
    let resign_text = String::from_str("resign");
    if text.eq(&resign_text) {
        match game.player_color(player) {
            None => {
                return Err(GameError::PlayerNotAuthorizedForTurn);
            },
            Some(c) => {
                game.state = GameState::Won(c.opposite());
                return Ok(None);
            },
        }
    }
    let c = match game.state {
        GameState::ToMove(c) => c,
        _ => vstd::pervasive::unreached(),
    };
    let authorized: bool = match game.player_color(player) {
        Some(pc) => pc == c,
        None => false,
    };
    if !authorized {
        return Err(GameError::PlayerNotAuthorizedForTurn);
    }
    let pass_text = String::from_str("pass");
    if text.eq(&pass_text) {
        if has_any_legal_move(&game.position, c) {
            return Err(GameError::IllegalPass);
        }
        let st = advance_state(&game.position, c.opposite());
        game.state = st;
        return Ok(Some(PASS));
    }
    let sq = match parse_square(text.as_str()) {
        Err(_) => {
            return Err(GameError::InvalidNotation);
        },
        Ok(sq) => sq,
    };
    match apply_move(&game.position, sq, c) {
        Err(MoveError::SquareOccupied) => Err(GameError::SquareOccupied),
        Err(MoveError::NoLegalFlip) => Err(GameError::NoLegalFlip),
        Ok(p2) => {
            game.position = p2;
            let st = advance_state(&p2, c.opposite());
            game.state = st;
            Ok(Some(sq))
        },
    }
}

/// Once a game reaches a terminal state, no further join, move, pass or
/// resign is accepted, and none mutates its position or state.
pub proof fn lemma_terminal_state_frozen(
    g: Game,
    player: Seq<char>,
    text: Seq<char>,
    joiner: String,
)
    requires
        g.state.is_terminal(),
    ensures
        spec_submit(g, player, text) == Err::<(Game, Option<u64>), GameError>(
            GameError::GameAlreadyFinished,
        ),
        spec_join(g, joiner) == Err::<(Game, Color), GameError>(GameError::GameAlreadyFinished),
{
}

/// A pass is accepted exactly when it is submitted by the player whose turn
/// it is and that color has no legal move.
pub proof fn lemma_pass_accepted_iff_blocked(g: Game, player: Seq<char>)
    requires
        g.state is ToMove,
    ensures
        spec_submit(g, player, "pass"@) is Ok <==> (g.spec_player_color(player) == Some(
            g.state->ToMove_0,
        ) && !has_move(
            g.position.spec_discs_of(g.state->ToMove_0),
            g.position.spec_discs_of(g.state->ToMove_0.spec_opposite()),
        )),
{
    reveal_strlit("pass");
    reveal_strlit("resign");
    assert("pass"@.len() == 4 && "resign"@.len() == 6);
    assert("pass"@ != "resign"@);
}

/// The board population is unchanged by a pass or a resign and grows by
/// exactly one disc on every accepted move.
pub proof fn lemma_submit_disc_count(g: Game, player: Seq<char>, text: Seq<char>)
    requires
        g.wf(),
        spec_submit(g, player, text) is Ok,
    ensures
        ({
            let pair = spec_submit(g, player, text)->Ok_0;
            match pair.1 {
                Some(v) => (v == PASS && pair.0.position == g.position) || (v != PASS
                    && pair.0.position.total() == g.position.total() + 1),
                None => pair.0.position == g.position,
            }
        }),
{
    let pair = spec_submit(g, player, text)->Ok_0;
    crate::codec::lemma_sentinels_are_not_squares();
    lemma_parse_gives_square(text);
    if pair.1 is Some && pair.1->Some_0 != PASS {
        let c = g.state->ToMove_0;
        let sq = spec_parse(text)->Ok_0;
        let i = square_index(sq);
        assert(0 <= i < 64 && sq == mask_of(i));
        let m = g.position.spec_discs_of(c);
        let o = g.position.spec_discs_of(c.spec_opposite());
        let pb = g.position.black;
        let pw = g.position.white;
        let iu = i as u64;
        let fl = crate::engine::move_flips(m, o, i);
        assert(pb & pw == 0 ==> pw & pb == 0 && pw | pb == pb | pw) by (bit_vector);
        assert(!(((pb | pw) >> iu) & 1u64 == 1u64) && iu < 64u64 ==> (1u64 << iu) & pb == 0u64 && (
        1u64 << iu) & pw == 0u64) by (bit_vector);
        crate::engine::lemma_flips_subset(m, o, i);
        crate::engine::lemma_apply_shape(m, o, mask_of(i), fl, iu);
        crate::board::lemma_pop_union(m, mask_of(i));
        crate::board::lemma_pop_union(m | mask_of(i), fl);
        crate::board::lemma_pop_single(i);
        crate::board::lemma_pop_diff(o, fl);
    }
}

/// A move is accepted only when the side to move has a legal move.
pub proof fn lemma_move_accepted_implies_movable(g: Game, player: Seq<char>, text: Seq<char>)
    requires
        text != "pass"@,
        text != "resign"@,
        spec_submit(g, player, text) is Ok,
    ensures
        g.state is ToMove,
        has_move(
            g.position.spec_discs_of(g.state->ToMove_0),
            g.position.spec_discs_of(g.state->ToMove_0.spec_opposite()),
        ),
{
    let c = g.state->ToMove_0;
    lemma_parse_gives_square(text);
    let sq = spec_parse(text)->Ok_0;
    lemma_move_ok_implies_has_move(g.position, sq, c);
}

} // verus!
