//! A game together with its append-only move log, kept consistent as one
//! unit: the storage gateway must apply the game-row update and the
//! move-append of `submit_action` as one atomic write.

use vstd::prelude::*;

use crate::board::{is_square_mask, Color, Position};
use crate::codec::{NO_MOVE, PASS};
use crate::game::{
    create_game, join, spec_create, spec_join, spec_submit, submit, Game, GameError, GameState,
};

verus! {

/// One recorded move: its sequential number, the encoded move value (a
/// square bit or the pass sentinel), and the resulting position snapshot.
#[derive(Clone, Copy, PartialEq, Eq, Structural, Debug)]
pub struct MoveRecord {
    pub number: u64,
    pub value: u64,
    pub position: Position,
}

/// A game row together with its move log.
pub struct GameSession {
    pub game: Game,
    pub moves: Vec<MoveRecord>,
}

impl GameSession {
    /// The invariant every observable session satisfies: the game row is
    /// well-formed, the move numbers form the gapless sequence 1, 2, 3, ...,
    /// and every record holds a valid encoded value and a disjoint position.
    pub open spec fn wf(self) -> bool {
        &&& self.game.wf()
        &&& forall|i: int|
            0 <= i < self.moves@.len() ==> (#[trigger] self.moves@[i]).number as int == i + 1
        &&& forall|i: int|
            0 <= i < self.moves@.len() ==> ((#[trigger] self.moves@[i]).value == PASS
                || is_square_mask(self.moves@[i].value))
        &&& forall|i: int| 0 <= i < self.moves@.len() ==> (#[trigger] self.moves@[i]).position.wf()
    }

    /// Starts a session for a freshly created game: no moves recorded yet.
    pub fn start(game_id: String, creator: String, creator_color: Color) -> (s: GameSession)
        ensures
            s.wf(),
            s.game == spec_create(game_id, creator, creator_color),
            s.moves@.len() == 0,
    {
        GameSession { game: create_game(game_id, creator, creator_color), moves: Vec::new() }
    }

    /// The greatest recorded move number, 0 when none is recorded: with the
    /// gapless invariant, exactly the length of the log.
    pub fn max_move_number(&self) -> (n: u64)
        requires
            self.wf(),
        ensures
            n == self.moves@.len(),
            self.moves@.len() > 0 ==> n == self.moves@.last().number,
    {
        let n = self.moves.len();
        n as u64
    }

    /// The encoded value of the last recorded move, or the no-move sentinel
    /// when none is recorded.
    pub fn last_move_value(&self) -> (v: u64)
        ensures
            self.moves@.len() == 0 ==> v == NO_MOVE,
            self.moves@.len() > 0 ==> v == self.moves@.last().value,
    {
        let n = self.moves.len();
        if n == 0 {
            NO_MOVE
        } else {
            let r = self.moves[n - 1];
            r.value
        }
    }

    /// Joins the pending game; the move log is untouched.
    pub fn join_player(&mut self, joiner: String) -> (res: Result<Color, GameError>)
        requires
            old(self).wf(),
        ensures
            final(self).wf(),
            final(self).moves == old(self).moves,
            match spec_join(old(self).game, joiner) {
                Ok(pair) => res == Ok::<Color, GameError>(pair.1) && final(self).game == pair.0,
                Err(e) => res == Err::<Color, GameError>(e) && final(self).game == old(self).game,
            },
    {
        join(&mut self.game, joiner)
    }

    /// Applies one player action and, when it encodes a move value, appends
    /// the move record numbered one past the previous maximum. Both changes
    /// stand for the one atomic write the storage gateway must apply; on any
    /// failure the session is unchanged.
    pub fn submit_action(&mut self, player: &String, text: &String) -> (res: Result<
        Option<u64>,
        GameError,
    >)
        requires
            old(self).wf(),
        ensures
            final(self).wf(),
            old(self).moves@.len() >= u64::MAX ==> res == Err::<Option<u64>, GameError>(
                GameError::StorageFailure,
            ) && *final(self) == *old(self),
            old(self).moves@.len() < u64::MAX ==> match spec_submit(
                old(self).game,
                player@,
                text@,
            ) {
                Ok(pair) => res == Ok::<Option<u64>, GameError>(pair.1) && final(self).game
                    == pair.0 && (match pair.1 {
                    Some(v) => final(self).moves@ == old(self).moves@.push(
                        MoveRecord {
                            number: (old(self).moves@.len() + 1) as u64,
                            value: v,
                            position: pair.0.position,
                        },
                    ),
                    None => final(self).moves@ == old(self).moves@,
                }),
                Err(e) => res == Err::<Option<u64>, GameError>(e) && *final(self) == *old(self),
            },
    {
        let n = self.moves.len();
        if n as u64 >= u64::MAX {
            return Err(GameError::StorageFailure);
        }
        match submit(&mut self.game, player, text) {
            Err(e) => Err(e),
            Ok(None) => Ok(None),
            Ok(Some(v)) => {
                proof {
                    crate::codec::lemma_parse_gives_square(text@);
                    crate::codec::lemma_sentinels_are_not_squares();
                }
                let record = MoveRecord {
                    number: (n as u64) + 1,
                    value: v,
                    position: self.game.position,
                };
                self.moves.push(record);
                Ok(Some(v))
            },
        }
    }
}

/// Move numbers recorded for a game form the sequence 1, 2, 3, ... with no
/// gaps or repeats.
pub proof fn lemma_move_numbers_gapless(s: GameSession)
    requires
        s.wf(),
    ensures
        forall|i: int| 0 <= i < s.moves@.len() ==> s.moves@[i].number as int == i + 1,
{
}

} // verus!
