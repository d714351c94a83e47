use vstd::prelude::*;

use crate::ids::{is_id_char, ID_LENGTH};
use crate::types::Color;
use crate::websocket::servers::in_memory::{GameState, GameView, PlayerStatus, PlayerView};
use crate::websocket::session::SessionView;

verus! {

/// The longest name, in characters, that a player may take.
pub const MAX_NAME_LENGTH: usize = 50;

/// Why a game was not created.
#[derive(Debug, Clone, Copy, PartialEq, Eq, Structural)]
pub enum CreateError {
    /// The creator's id is the empty text.
    EmptyCreator,
    /// The colour asked for is neither black nor white.
    ColorMissing,
    /// No player is registered under the creator's id.
    CreatorMissing,
    /// The creator is seated in a game already.
    AlreadySeated,
    /// The id drawn for the game is the id of a game that exists.
    IdTaken,
}

/// Why a player did not join a game.
#[derive(Debug, Clone, Copy, PartialEq, Eq, Structural)]
pub enum JoinError {
    /// No game has the id.
    RoomNotFound,
    /// The game has its second player.
    RoomFull,
    /// No player is registered under the joiner's id.
    PlayerMissing,
    /// The joiner is seated in a game already.
    AlreadySeated,
}

/// Why a player was not renamed.
#[derive(Debug, Clone, Copy, PartialEq, Eq, Structural)]
pub enum NameError {
    /// The name has more than `MAX_NAME_LENGTH` characters.
    NameTooLong,
    /// No player is registered under the id.
    SessionMissing,
}

/// Whether `id` is a text that the server can draw as an id: `ID_LENGTH`
/// characters, each a letter or digit of ASCII, `_` or `-`.
pub open spec fn is_drawn_id(id: Seq<char>) -> bool {
    id.len() == ID_LENGTH && forall|i: int| 0 <= i < id.len() ==> is_id_char(#[trigger] id[i])
}

/// All that a server knows: the players by their ids and the games by theirs.
pub struct ServerState {
    pub sessions: Map<Seq<char>, SessionView>,
    pub games: Map<Seq<char>, GameView>,
}

impl ServerState {
    /// The state of a server that nobody has connected to.
    pub open spec fn empty() -> ServerState {
        ServerState { sessions: Map::empty(), games: Map::empty() }
    }

    /// Whether some id that the server can draw is the id of a game. Only
    /// then can a draw fail to give a new game its id.
    pub open spec fn some_id_taken(self) -> bool {
        exists|taken: Seq<char>| is_drawn_id(taken) && #[trigger] self.games.contains_key(taken)
    }

    /// Whether `player_id` has one of the two seats of the game `game_id`.
    pub open spec fn has_seat(self, game_id: Seq<char>, player_id: Seq<char>) -> bool {
        self.games[game_id].player_one_id == player_id || self.games[game_id].player_two_id
            == Some(player_id)
    }

    /// The record under `id` carries that id, and says that the player is
    /// seated exactly where a game lists the player.
    pub open spec fn session_ok(self, id: Seq<char>) -> bool {
        let s = self.sessions[id];
        &&& s.id == id
        &&& match s.joined_game {
            None => s.color == Color::Unassigned,
            Some(g) => self.games.contains_key(g) && self.has_seat(g, id) && s.color
                != Color::Unassigned,
        }
    }

    /// Both players of the game `game_id` are registered and seated in it, they
    /// are two players with opposite colours, and the game is still played.
    pub open spec fn game_ok(self, game_id: Seq<char>) -> bool {
        let g = self.games[game_id];
        let one = g.player_one_id;
        &&& self.sessions.contains_key(one)
        &&& self.sessions[one].joined_game == Some(game_id)
        &&& g.game_state == GameState::playing()
        &&& match g.player_two_id {
            None => true,
            Some(two) => {
                &&& two != one
                &&& self.sessions.contains_key(two)
                &&& self.sessions[two].joined_game == Some(game_id)
                &&& self.sessions[two].color == self.sessions[one].color.opposite()
            },
        }
    }

    /// The invariant of the server: finitely many players and games, every
    /// record consistent with the games and every game with the records.
    pub open spec fn wf(self) -> bool {
        &&& self.sessions.dom().finite()
        &&& self.games.dom().finite()
        &&& forall|id: Seq<char>| #[trigger] self.sessions.contains_key(id) ==> self.session_ok(id)
        &&& forall|g: Seq<char>| #[trigger] self.games.contains_key(g) ==> self.game_ok(g)
    }

    /// Registers a player under `id`, with no name, colour or game. An id that
    /// is in use stays with the player that has it.
    pub open spec fn create_session(self, id: Seq<char>) -> ServerState {
        if self.sessions.contains_key(id) {
            self
        } else {
            ServerState { sessions: self.sessions.insert(id, SessionView::fresh(id)), ..self }
        }
    }

    /// Takes the player `id` out of the game `game_id`, if the player's record
    /// says that the player is seated there.
    pub open spec fn unseat(self, id: Seq<char>, game_id: Seq<char>) -> ServerState {
        if self.sessions.contains_key(id) && self.sessions[id].joined_game == Some(game_id) {
            ServerState { sessions: self.sessions.insert(id, self.sessions[id].unseated()), ..self }
        } else {
            self
        }
    }

    /// Removes the game `game_id` and unseats its players.
    pub open spec fn delete_game(self, game_id: Seq<char>) -> ServerState {
        if !self.games.contains_key(game_id) {
            self
        } else {
            let g = self.games[game_id];
            let without = ServerState { games: self.games.remove(game_id), ..self };
            let first = without.unseat(g.player_one_id, game_id);
            match g.player_two_id {
                None => first,
                Some(two) => first.unseat(two, game_id),
            }
        }
    }

    /// The player `player_id` leaves the game `game_id`. With the creator the
    /// whole game goes; the second player only frees the second seat.
    pub open spec fn leave_game(self, game_id: Seq<char>, player_id: Seq<char>) -> ServerState {
        if !self.games.contains_key(game_id) {
            self
        } else if self.games[game_id].player_one_id == player_id {
            self.delete_game(game_id)
        } else if self.games[game_id].player_two_id == Some(player_id) {
            let g = GameView { player_two_id: None, ..self.games[game_id] };
            ServerState { games: self.games.insert(game_id, g), ..self }.unseat(
                player_id,
                game_id,
            )
        } else {
            self
        }
    }

    /// Removes the player `id`, who first leaves the game the player is in.
    pub open spec fn delete_session(self, id: Seq<char>) -> ServerState {
        if !self.sessions.contains_key(id) {
            self
        } else {
            let left = match self.sessions[id].joined_game {
                Some(g) => self.leave_game(g, id),
                None => self,
            };
            ServerState { sessions: left.sessions.remove(id), ..left }
        }
    }

    /// Why the player `id` cannot take the name `name`, if anything stands
    /// against it.
    pub open spec fn name_error(self, id: Seq<char>, name: Seq<char>) -> Option<NameError> {
        if name.len() > MAX_NAME_LENGTH {
            Some(NameError::NameTooLong)
        } else if !self.sessions.contains_key(id) {
            Some(NameError::SessionMissing)
        } else {
            None
        }
    }

    /// Gives the player `id` the name `name`, unless `name_error` stands
    /// against it.
    pub open spec fn update_session_name(self, id: Seq<char>, name: Seq<char>) -> ServerState {
        if self.name_error(id, name) is Some {
            self
        } else {
            ServerState { sessions: self.sessions.insert(id, self.sessions[id].renamed(name)), ..self }
        }
    }

    /// Why the player `player_one` cannot create a game in which to play
    /// `color`, whatever id the game would get.
    pub open spec fn create_error(self, player_one: Seq<char>, color: Color) -> Option<
        CreateError,
    > {
        if player_one.len() == 0 {
            Some(CreateError::EmptyCreator)
        } else if color == Color::Unassigned {
            Some(CreateError::ColorMissing)
        } else if !self.sessions.contains_key(player_one) {
            Some(CreateError::CreatorMissing)
        } else if self.sessions[player_one].joined_game is Some {
            Some(CreateError::AlreadySeated)
        } else {
            None
        }
    }

    /// What becomes of an attempt to create a game under the id `game_id`.
    pub open spec fn create_outcome(
        self,
        game_id: Seq<char>,
        player_one: Seq<char>,
        color: Color,
    ) -> Option<CreateError> {
        match self.create_error(player_one, color) {
            Some(e) => Some(e),
            None => if self.games.contains_key(game_id) {
                Some(CreateError::IdTaken)
            } else {
                None
            },
        }
    }

    /// Creates the game `game_id` with `player_one` in its first seat, playing
    /// `color`, unless `create_outcome` names an error.
    pub open spec fn create_game(
        self,
        game_id: Seq<char>,
        name: Seq<char>,
        player_one: Seq<char>,
        color: Color,
    ) -> ServerState {
        if self.create_outcome(game_id, player_one, color) is Some {
            self
        } else {
            let g = GameView {
                name,
                player_one_id: player_one,
                player_two_id: None,
                game_state: GameState::playing(),
            };
            ServerState {
                sessions: self.sessions.insert(
                    player_one,
                    self.sessions[player_one].seated(game_id, color),
                ),
                games: self.games.insert(game_id, g),
            }
        }
    }

    /// Why the player `player_id` cannot join the game `game_id`, if anything
    /// stands against it. A full game is reported whoever asks.
    pub open spec fn join_error(self, game_id: Seq<char>, player_id: Seq<char>) -> Option<
        JoinError,
    > {
        if !self.games.contains_key(game_id) {
            Some(JoinError::RoomNotFound)
        } else if self.games[game_id].player_two_id is Some {
            Some(JoinError::RoomFull)
        } else if !self.sessions.contains_key(player_id) {
            Some(JoinError::PlayerMissing)
        } else if self.sessions[player_id].joined_game is Some {
            Some(JoinError::AlreadySeated)
        } else {
            None
        }
    }

    /// The colour that the second player of the game `game_id` gets: the
    /// opposite of the creator's.
    pub open spec fn second_color(self, game_id: Seq<char>) -> Color {
        self.sessions[self.games[game_id].player_one_id].color.opposite()
    }

    /// Seats the player `player_id` in the second seat of the game `game_id`,
    /// unless `join_error` stands against it.
    pub open spec fn join_game(self, game_id: Seq<char>, player_id: Seq<char>) -> ServerState {
        if self.join_error(game_id, player_id) is Some {
            self
        } else {
            let g = GameView { player_two_id: Some(player_id), ..self.games[game_id] };
            ServerState {
                sessions: self.sessions.insert(
                    player_id,
                    self.sessions[player_id].seated(game_id, self.second_color(game_id)),
                ),
                games: self.games.insert(game_id, g),
            }
        }
    }

    /// The game that the player `player_id` is seated in: the one that the
    /// player's record names, where it exists and lists the player in one of
    /// its seats.
    pub open spec fn game_of(self, player_id: Seq<char>) -> Option<Seq<char>> {
        if self.sessions.contains_key(player_id) {
            match self.sessions[player_id].joined_game {
                Some(g) => if self.games.contains_key(g) && self.has_seat(g, player_id) {
                    Some(g)
                } else {
                    None
                },
                None => None,
            }
        } else {
            None
        }
    }

    /// The game of `player_id` as it is when the player reports `status`: the
    /// status stands in the player's seat and the game is finished.
    pub open spec fn finished_game(self, player_id: Seq<char>, status: PlayerStatus) -> Option<
        GameView,
    > {
        match self.game_of(player_id) {
            None => None,
            Some(gid) => {
                let g = self.games[gid];
                let state = if g.player_one_id == player_id {
                    GameState { is_finished: true, player_one: status, ..g.game_state }
                } else {
                    GameState { is_finished: true, player_two: status, ..g.game_state }
                };
                Some(GameView { game_state: state, ..g })
            },
        }
    }

    /// A player reports a status of its game: the game is over and is removed,
    /// and both players are unseated.
    pub open spec fn update_game_state(self, player_id: Seq<char>) -> ServerState {
        match self.game_of(player_id) {
            None => self,
            Some(gid) => self.delete_game(gid),
        }
    }

    /// The player on the other side of the board from `player_id`: the one a
    /// move of `player_id` is sent to. The creator plays against the second
    /// player and the second player against the creator; anybody else has no
    /// opponent.
    pub open spec fn opponent(self, player_id: Seq<char>) -> Option<Seq<char>> {
        match self.game_of(player_id) {
            None => None,
            Some(gid) => {
                let g = self.games[gid];
                let other = if g.player_one_id == player_id {
                    g.player_two_id
                } else {
                    Some(g.player_one_id)
                };
                match other {
                    Some(o) => if self.sessions.contains_key(o) {
                        Some(o)
                    } else {
                        None
                    },
                    None => None,
                }
            },
        }
    }

    /// What the player `id` shows to others.
    pub open spec fn player(self, id: Seq<char>) -> Option<PlayerView> {
        if self.sessions.contains_key(id) {
            let s = self.sessions[id];
            Some(PlayerView { id: s.id, name: s.name, color: s.color })
        } else {
            None
        }
    }

    /// The creator of the game `game_id`.
    pub open spec fn player_one(self, game_id: Seq<char>) -> Option<PlayerView> {
        if self.games.contains_key(game_id) {
            self.player(self.games[game_id].player_one_id)
        } else {
            None
        }
    }

    /// The second player of the game `game_id`.
    pub open spec fn player_two(self, game_id: Seq<char>) -> Option<PlayerView> {
        if self.games.contains_key(game_id) {
            match self.games[game_id].player_two_id {
                Some(two) => self.player(two),
                None => None,
            }
        } else {
            None
        }
    }
}

/// A server that nobody has connected to keeps the invariant.
pub proof fn lemma_empty_wf()
    ensures
        ServerState::empty().wf(),
{
}

/// Registering a player keeps the invariant.
pub proof fn lemma_create_session_wf(s: ServerState, id: Seq<char>)
    requires
        s.wf(),
    ensures
        s.create_session(id).wf(),
{
    let t = s.create_session(id);
    assert forall|k: Seq<char>| #[trigger] t.sessions.contains_key(k) implies t.session_ok(k) by {
        if k != id {
            assert(s.sessions.contains_key(k));
        }
    }
    assert forall|g: Seq<char>| #[trigger] t.games.contains_key(g) implies t.game_ok(g) by {
        assert(s.games.contains_key(g));
    }
}

/// Removing a game keeps the invariant.
pub proof fn lemma_delete_game_wf(s: ServerState, game_id: Seq<char>)
    requires
        s.wf(),
    ensures
        s.delete_game(game_id).wf(),
{
    let t = s.delete_game(game_id);
    if s.games.contains_key(game_id) {
        assert(s.game_ok(game_id));
        assert forall|k: Seq<char>| #[trigger] t.sessions.contains_key(k) implies t.session_ok(
            k,
        ) by {
            assert(s.sessions.contains_key(k));
            assert(s.session_ok(k));
        }
        assert forall|g: Seq<char>| #[trigger] t.games.contains_key(g) implies t.game_ok(g) by {
            assert(s.games.contains_key(g));
            assert(s.game_ok(g));
        }
    }
}

/// A player leaving a game keeps the invariant.
pub proof fn lemma_leave_game_wf(s: ServerState, game_id: Seq<char>, player_id: Seq<char>)
    requires
        s.wf(),
    ensures
        s.leave_game(game_id, player_id).wf(),
{
    let t = s.leave_game(game_id, player_id);
    if s.games.contains_key(game_id) {
        assert(s.game_ok(game_id));
        if s.games[game_id].player_one_id == player_id {
            lemma_delete_game_wf(s, game_id);
        } else if s.games[game_id].player_two_id == Some(player_id) {
            assert forall|k: Seq<char>| #[trigger] t.sessions.contains_key(k) implies t.session_ok(
                k,
            ) by {
                assert(s.sessions.contains_key(k));
                assert(s.session_ok(k));
            }
            assert forall|g: Seq<char>| #[trigger] t.games.contains_key(g) implies t.game_ok(
                g,
            ) by {
                assert(s.games.contains_key(g));
                assert(s.game_ok(g));
            }
        }
    }
}

/// A player disconnecting keeps the invariant.
pub proof fn lemma_delete_session_wf(s: ServerState, id: Seq<char>)
    requires
        s.wf(),
    ensures
        s.delete_session(id).wf(),
{
    let t = s.delete_session(id);
    if s.sessions.contains_key(id) {
        assert(s.session_ok(id));
        let left = match s.sessions[id].joined_game {
            Some(g) => s.leave_game(g, id),
            None => s,
        };
        if let Some(g) = s.sessions[id].joined_game {
            lemma_leave_game_wf(s, g, id);
            assert(s.game_ok(g));
        }
        assert(left.wf());
        assert(left.sessions.contains_key(id));
        assert(left.session_ok(id));
        assert(left.sessions[id].joined_game is None);
        assert forall|k: Seq<char>| #[trigger] t.sessions.contains_key(k) implies t.session_ok(
            k,
        ) by {
            assert(left.sessions.contains_key(k));
            assert(left.session_ok(k));
        }
        assert forall|g: Seq<char>| #[trigger] t.games.contains_key(g) implies t.game_ok(g) by {
            assert(left.games.contains_key(g));
            assert(left.game_ok(g));
        }
    }
}

/// Renaming a player keeps the invariant.
pub proof fn lemma_update_session_name_wf(s: ServerState, id: Seq<char>, name: Seq<char>)
    requires
        s.wf(),
    ensures
        s.update_session_name(id, name).wf(),
{
    let t = s.update_session_name(id, name);
    assert forall|k: Seq<char>| #[trigger] t.sessions.contains_key(k) implies t.session_ok(k) by {
        assert(s.sessions.contains_key(k));
        assert(s.session_ok(k));
    }
    assert forall|g: Seq<char>| #[trigger] t.games.contains_key(g) implies t.game_ok(g) by {
        assert(s.games.contains_key(g));
        assert(s.game_ok(g));
    }
}

/// Creating a game keeps the invariant.
pub proof fn lemma_create_game_wf(
    s: ServerState,
    game_id: Seq<char>,
    name: Seq<char>,
    player_one: Seq<char>,
    color: Color,
)
    requires
        s.wf(),
    ensures
        s.create_game(game_id, name, player_one, color).wf(),
{
    let t = s.create_game(game_id, name, player_one, color);
    if s.create_outcome(game_id, player_one, color) is None {
        assert(s.session_ok(player_one));
        assert forall|k: Seq<char>| #[trigger] t.sessions.contains_key(k) implies t.session_ok(
            k,
        ) by {
            assert(s.sessions.contains_key(k));
            assert(s.session_ok(k));
        }
        assert forall|g: Seq<char>| #[trigger] t.games.contains_key(g) implies t.game_ok(g) by {
            if g != game_id {
                assert(s.games.contains_key(g));
                assert(s.game_ok(g));
            }
        }
    }
}

/// Joining a game keeps the invariant.
pub proof fn lemma_join_game_wf(s: ServerState, game_id: Seq<char>, player_id: Seq<char>)
    requires
        s.wf(),
    ensures
        s.join_game(game_id, player_id).wf(),
{
    let t = s.join_game(game_id, player_id);
    if s.join_error(game_id, player_id) is None {
        assert(s.session_ok(player_id));
        assert(s.game_ok(game_id));
        let one = s.games[game_id].player_one_id;
        assert(s.session_ok(one));
        assert forall|k: Seq<char>| #[trigger] t.sessions.contains_key(k) implies t.session_ok(
            k,
        ) by {
            assert(s.sessions.contains_key(k));
            assert(s.session_ok(k));
        }
        assert forall|g: Seq<char>| #[trigger] t.games.contains_key(g) implies t.game_ok(g) by {
            assert(s.games.contains_key(g));
            assert(s.game_ok(g));
        }
    }
}

/// Ending a game keeps the invariant.
pub proof fn lemma_update_game_state_wf(s: ServerState, player_id: Seq<char>)
    requires
        s.wf(),
    ensures
        s.update_game_state(player_id).wf(),
{
    if let Some(gid) = s.game_of(player_id) {
        lemma_delete_game_wf(s, gid);
    }
}

} // verus!
