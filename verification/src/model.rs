//! The transport-facing data shapes and the pure parts of response
//! assembly: status/error envelopes and the pending-game listing.

use vstd::prelude::*;
use vstd::string::*;

use crate::game::{Game, GameState};

verus! {

/// The error envelope every response carries: 200 with an empty message on
/// success.
#[derive(Debug)]
pub struct ResponseError {
    pub code: u32,
    pub message: String,
}

#[derive(Debug)]
pub struct User {
    pub player_uuid: String,
    pub comment: String,
}

#[derive(Debug)]
pub struct PlayerResponse {
    pub status: String,
    pub error: ResponseError,
    pub result: Vec<User>,
}

#[derive(Debug)]
pub struct NewGameRequest {
    pub player_id: String,
}

#[derive(Debug)]
pub struct GameRequest {
    pub player_id: String,
    pub game_id: String,
}

#[derive(Debug)]
pub struct NewGameResult {
    pub game_id: String,
    pub color: String,
}

#[derive(Debug)]
pub struct NewGameResponse {
    pub status: String,
    pub error: ResponseError,
    pub result: NewGameResult,
}

#[derive(Debug)]
pub struct AvailableGame {
    pub game_id: String,
    pub first_player: String,
}

#[derive(Debug)]
pub struct GameListResponse {
    pub status: String,
    pub error: ResponseError,
    pub result: Vec<AvailableGame>,
}

#[derive(Debug)]
pub struct GameStatusResult {
    pub status: String,
    pub last_move: String,
}

#[derive(Debug)]
pub struct GameStatusResponse {
    pub status: String,
    pub error: ResponseError,
    pub result: GameStatusResult,
}

#[derive(Debug)]
pub struct GameJoinResult {
    pub result: bool,
    pub color: String,
}

#[derive(Debug)]
pub struct GameJoinResponse {
    pub status: String,
    pub error: ResponseError,
    pub result: GameJoinResult,
}

#[derive(Debug)]
pub struct MoveRequest {
    pub player_id: String,
    pub game_id: String,
    pub action: String,
}

#[derive(Debug)]
pub struct MoveResult {
    pub ok: bool,
    pub game_continues: bool,
    pub winner: String,
}

#[derive(Debug)]
pub struct MoveResponse {
    pub status: String,
    pub error: ResponseError,
    pub result: MoveResult,
}

impl ResponseError {
    /// The success envelope: code 200, empty message.
    pub fn success() -> (e: ResponseError)
        ensures
            e.code == 200,
            e.message@ == Seq::<char>::empty(),
    {
        ResponseError { code: 200, message: String::new() }
    }

    /// A failure envelope with the given code and message.
    pub fn failure(code: u32, message: String) -> (e: ResponseError)
        ensures
            e.code == code,
            e.message == message,
    {
        ResponseError { code, message }
    }
}

/// The status tag of a successful response.
pub fn ok_status() -> (s: String)
    ensures
        s@ == "ok"@,
{
    String::from_str("ok")
}

/// The status tag of a failed response.
pub fn error_status() -> (s: String)
    ensures
        s@ == "error"@,
{
    String::from_str("error")
}

impl PlayerResponse {
    /// The successful player-listing response.
    pub fn success(users: Vec<User>) -> (r: PlayerResponse)
        ensures
            r.status@ == "ok"@,
            r.error.code == 200,
            r.error.message@ == Seq::<char>::empty(),
            r.result == users,
    {
        PlayerResponse { status: ok_status(), error: ResponseError::success(), result: users }
    }

    /// A failed player-listing response.
    pub fn failure(code: u32, message: String) -> (r: PlayerResponse)
        ensures
            r.status@ == "error"@,
            r.error.code == code,
            r.error.message == message,
            r.result@.len() == 0,
    {
        PlayerResponse {
            status: error_status(),
            error: ResponseError::failure(code, message),
            result: Vec::new(),
        }
    }
}

impl NewGameResponse {
    /// The successful game-creation response: the new game's id and the
    /// creator's assigned color.
    pub fn success(game_id: String, color: String) -> (r: NewGameResponse)
        ensures
            r.status@ == "ok"@,
            r.error.code == 200,
            r.error.message@ == Seq::<char>::empty(),
            r.result.game_id == game_id,
            r.result.color == color,
    {
        NewGameResponse {
            status: ok_status(),
            error: ResponseError::success(),
            result: NewGameResult { game_id, color },
        }
    }

    /// A failed game-creation response.
    pub fn failure(code: u32, message: String) -> (r: NewGameResponse)
        ensures
            r.status@ == "error"@,
            r.error.code == code,
            r.error.message == message,
            r.result.game_id@ == Seq::<char>::empty(),
            r.result.color@ == Seq::<char>::empty(),
    {
        NewGameResponse {
            status: error_status(),
            error: ResponseError::failure(code, message),
            result: NewGameResult { game_id: String::new(), color: String::new() },
        }
    }
}

impl GameListResponse {
    /// The successful game-listing response.
    pub fn success(games: Vec<AvailableGame>) -> (r: GameListResponse)
        ensures
            r.status@ == "ok"@,
            r.error.code == 200,
            r.error.message@ == Seq::<char>::empty(),
            r.result == games,
    {
        GameListResponse { status: ok_status(), error: ResponseError::success(), result: games }
    }

    /// A failed game-listing response.
    pub fn failure(code: u32, message: String) -> (r: GameListResponse)
        ensures
            r.status@ == "error"@,
            r.error.code == code,
            r.error.message == message,
            r.result@.len() == 0,
    {
        GameListResponse {
            status: error_status(),
            error: ResponseError::failure(code, message),
            result: Vec::new(),
        }
    }
}

impl GameStatusResponse {
    /// The successful status response: the state's label and the last
    /// move's notation (or the empty string or the pass token).
    pub fn success(status: String, last_move: String) -> (r: GameStatusResponse)
        ensures
            r.status@ == "ok"@,
            r.error.code == 200,
            r.error.message@ == Seq::<char>::empty(),
            r.result.status == status,
            r.result.last_move == last_move,
    {
        GameStatusResponse {
            status: ok_status(),
            error: ResponseError::success(),
            result: GameStatusResult { status, last_move },
        }
    }

    /// A failed status response.
    pub fn failure(code: u32, message: String) -> (r: GameStatusResponse)
        ensures
            r.status@ == "error"@,
            r.error.code == code,
            r.error.message == message,
            r.result.status@ == Seq::<char>::empty(),
            r.result.last_move@ == Seq::<char>::empty(),
    {
        GameStatusResponse {
            status: error_status(),
            error: ResponseError::failure(code, message),
            result: GameStatusResult { status: String::new(), last_move: String::new() },
        }
    }
}

impl GameJoinResponse {
    /// The successful join response: the joiner's assigned color.
    pub fn success(color: String) -> (r: GameJoinResponse)
        ensures
            r.status@ == "ok"@,
            r.error.code == 200,
            r.error.message@ == Seq::<char>::empty(),
            r.result.result == true,
            r.result.color == color,
    {
        GameJoinResponse {
            status: ok_status(),
            error: ResponseError::success(),
            result: GameJoinResult { result: true, color },
        }
    }

    /// A failed join response.
    pub fn failure(code: u32, message: String) -> (r: GameJoinResponse)
        ensures
            r.status@ == "error"@,
            r.error.code == code,
            r.error.message == message,
            r.result.result == false,
            r.result.color@ == Seq::<char>::empty(),
    {
        GameJoinResponse {
            status: error_status(),
            error: ResponseError::failure(code, message),
            result: GameJoinResult { result: false, color: String::new() },
        }
    }
}

impl MoveResponse {
    /// The successful action response: whether the game continues and the
    /// winner label (empty while the game runs).
    pub fn success(game_continues: bool, winner: String) -> (r: MoveResponse)
        ensures
            r.status@ == "ok"@,
            r.error.code == 200,
            r.error.message@ == Seq::<char>::empty(),
            r.result.ok == true,
            r.result.game_continues == game_continues,
            r.result.winner == winner,
    {
        MoveResponse {
            status: ok_status(),
            error: ResponseError::success(),
            result: MoveResult { ok: true, game_continues, winner },
        }
    }

    /// A failed action response: the action was rejected and the game goes
    /// on unchanged.
    pub fn failure(code: u32, message: String) -> (r: MoveResponse)
        ensures
            r.status@ == "error"@,
            r.error.code == code,
            r.error.message == message,
            r.result.ok == false,
            r.result.game_continues == true,
            r.result.winner@ == Seq::<char>::empty(),
    {
        MoveResponse {
            status: error_status(),
            error: ResponseError::failure(code, message),
            result: MoveResult { ok: false, game_continues: true, winner: String::new() },
        }
    }
}

/// The player identity that created a pending game: the filled color slot,
/// black's when both are filled.
pub open spec fn spec_first_player(g: Game) -> Seq<char> {
    match g.black_id {
        Some(b) => b@,
        None => match g.white_id {
            Some(w) => w@,
            None => Seq::empty(),
        },
    }
}

/// The player identity that created a pending game.
pub fn first_player(g: &Game) -> (s: String)
    ensures
        s@ == spec_first_player(*g),
{
    match &g.black_id {
        Some(b) => b.clone(),
        None => match &g.white_id {
            Some(w) => w.clone(),
            None => String::new(),
        },
    }
}

/// The (game id, first player) rows of the pending games whose creator is
/// not the requester, in the order given.
pub open spec fn spec_available(games: Seq<Game>, requester: Seq<char>) -> Seq<
    (Seq<char>, Seq<char>),
>
    decreases games.len(),
{
    if games.len() == 0 {
        Seq::empty()
    } else {
        let rest = spec_available(games.drop_last(), requester);
        let g = games.last();
        if g.state == GameState::Pending && spec_first_player(g) != requester {
            rest.push((g.game_id@, spec_first_player(g)))
        } else {
            rest
        }
    }
}

/// Lists the games a player may join: pending games created by another
/// player, each with its creator's identity.
pub fn available_games(games: &Vec<Game>, requester: &String) -> (r: Vec<AvailableGame>)
    ensures
        r@.len() == spec_available(games@, requester@).len(),
        forall|i: int|
            0 <= i < r@.len() ==> (#[trigger] r@[i]).game_id@ == spec_available(
                games@,
                requester@,
            )[i].0 && r@[i].first_player@ == spec_available(games@, requester@)[i].1,
{
    let mut r: Vec<AvailableGame> = Vec::new();
    let mut j: usize = 0;
    let n = games.len();
    while j < n
        invariant
            j <= n,
            n == games@.len(),
            r@.len() == spec_available(games@.subrange(0, j as int), requester@).len(),
            forall|i: int|
                0 <= i < r@.len() ==> (#[trigger] r@[i]).game_id@ == spec_available(
                    games@.subrange(0, j as int),
                    requester@,
                )[i].0 && r@[i].first_player@ == spec_available(
                    games@.subrange(0, j as int),
                    requester@,
                )[i].1,
        decreases n - j,
    {
        let g = &games[j];
        proof {
            assert(games@.subrange(0, j + 1).drop_last() =~= games@.subrange(0, j as int));
            assert(games@.subrange(0, j + 1).last() == games@[j as int]);
        }
        let is_pending = match g.state {
            GameState::Pending => true,
            _ => false,
        };
        if is_pending {
            let fp = first_player(g);
            if !fp.eq(requester) {
                let row = AvailableGame { game_id: g.game_id.clone(), first_player: fp };
                r.push(row);
            }
        }
        j = j + 1;
    }
    proof {
        assert(games@.subrange(0, n as int) =~= games@);
    }
    r
}

} // verus!
