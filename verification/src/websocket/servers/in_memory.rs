use vstd::hash_map::StringHashMap;
use vstd::prelude::*;
use vstd::std_specs::convert::FromSpecImpl;

use crate::ids::{random_id, ID_LENGTH};
use crate::types::Color;
use crate::websocket::servers::state::{
    lemma_create_game_wf, lemma_create_session_wf, lemma_delete_game_wf, lemma_delete_session_wf,
    lemma_join_game_wf, lemma_leave_game_wf, lemma_update_game_state_wf,
    lemma_update_session_name_wf, is_drawn_id, CreateError, JoinError, NameError, ServerState, MAX_NAME_LENGTH,
};
use crate::websocket::servers::WsServer;
use crate::websocket::session::{Delivery, Message, Session};

verus! {

/// How the game stands for one of its two players.
#[derive(Debug, Clone, Copy, PartialEq, Eq, Structural)]
pub enum PlayerStatus {
    Playing,
    WonByCheckmate,
    WonByOvertime,
    WonByResign,
    LostByCheckmate,
    LostByOvertime,
    LostByResign,
    DrawByRepetition,
    DrawByInsufficientMaterial,
    DrawByAgreement,
    DrawByStalemate,
    DrawBy50Moves,
}

/// The status of both players of a game, and whether the game is over.
#[derive(Debug, Clone, Copy, PartialEq, Eq, Structural)]
pub struct GameState {
    pub is_finished: bool,
    pub player_one: PlayerStatus,
    pub player_two: PlayerStatus,
}

impl GameState {
    /// The state of a game in which both sides are still playing.
    pub open spec fn spec_playing() -> GameState {
        GameState {
            is_finished: false,
            player_one: PlayerStatus::Playing,
            player_two: PlayerStatus::Playing,
        }
    }

    #[verifier::when_used_as_spec(spec_playing)]
    pub fn playing() -> (r: GameState)
        ensures
            r == GameState::spec_playing(),
    {
        GameState {
            is_finished: false,
            player_one: PlayerStatus::Playing,
            player_two: PlayerStatus::Playing,
        }
    }
}

/// What a game's record says, as mathematical values.
pub struct GameView {
    pub name: Seq<char>,
    pub player_one_id: Seq<char>,
    pub player_two_id: Option<Seq<char>>,
    pub game_state: GameState,
}

/// What a player shows of itself, as mathematical values.
pub struct PlayerView {
    pub id: Seq<char>,
    pub name: Seq<char>,
    pub color: Color,
}

/// What one player shows of itself to the other.
#[derive(Debug, Clone)]
pub struct Player {
    pub id: String,
    pub name: String,
    pub color: Color,
}

impl View for Player {
    type V = PlayerView;

    open spec fn view(&self) -> PlayerView {
        PlayerView { id: self.id@, name: self.name@, color: self.color }
    }
}

impl<'a> FromSpecImpl<&'a Session> for Player {
    /// A player holds texts, so the conversion is described by the `ensures`
    /// of `from` over views, not by `from_spec`.
    open spec fn obeys_from_spec() -> bool {
        false
    }

    open spec fn from_spec(value: &'a Session) -> Player {
        Player { id: value.id, name: value.name, color: value.color }
    }
}

impl<'a> From<&'a Session> for Player {
    fn from(value: &'a Session) -> (r: Player)
        ensures
            r@ == (PlayerView { id: value@.id, name: value@.name, color: value@.color }),
    {
        Player { id: value.id.clone(), name: value.name.clone(), color: value.color }
    }
}

/// A game of two seats. The player who created it has the first seat.
#[derive(Debug, Clone)]
pub struct Game {
    pub name: String,
    // The player who created the game will always be player_one
    pub player_one_id: String,
    pub player_two_id: Option<String>,
    pub game_state: GameState,
}

impl View for Game {
    type V = GameView;

    open spec fn view(&self) -> GameView {
        GameView {
            name: self.name@,
            player_one_id: self.player_one_id@,
            player_two_id: match self.player_two_id {
                Some(p) => Some(p@),
                None => None,
            },
            game_state: self.game_state,
        }
    }
}

impl Game {
    pub fn new(name: &str, player_one_id: String) -> (r: Game)
        ensures
            r@ == (GameView {
                name: name@,
                player_one_id: player_one_id@,
                player_two_id: None,
                game_state: GameState::playing(),
            }),
    {
        Game {
            name: name.to_owned(),
            player_one_id,
            player_two_id: None,
            game_state: GameState::playing(),
        }
    }
}

fn copy_id(id: &Option<String>) -> (r: Option<String>)
    ensures
        r == *id,
{
    match id {
        Some(g) => Some(g.clone()),
        None => None,
    }
}

/// The players and games of one process, kept in memory.
pub struct InMemoryServer {
    games: StringHashMap<Game>,
    sessions: StringHashMap<Session>,
}

impl InMemoryServer {
    /// A server without players or games.
    pub fn new() -> (r: InMemoryServer)
        ensures
            r.state() == ServerState::empty(),
            r.state().wf(),
    {
        let r = InMemoryServer { games: StringHashMap::new(), sessions: StringHashMap::new() };
        assert(r.state().sessions =~= Map::empty());
        assert(r.state().games =~= Map::empty());
        r
    }

    /// Puts `session` under its own id.
    fn put_session(&mut self, session: Session)
        ensures
            final(self).state().sessions == old(self).state().sessions.insert(
                session@.id,
                session@,
            ),
            final(self).state().games == old(self).state().games,
    {
        let ghost v = session@;
        let key = session.id.clone();
        self.sessions.insert(key, session);
        assert(self.state().sessions =~= old(self).state().sessions.insert(v.id, v));
    }

    /// Puts `game` under `id`.
    fn put_game(&mut self, id: String, game: Game)
        ensures
            final(self).state().games == old(self).state().games.insert(id@, game@),
            final(self).state().sessions == old(self).state().sessions,
    {
        let ghost v = game@;
        let ghost k = id@;
        self.games.insert(id, game);
        assert(self.state().games =~= old(self).state().games.insert(k, v));
    }

    /// Takes the player `id` out of the game `game_id`, if the player's record
    /// says that the player is seated there.
    fn unseat(&mut self, id: &str, game_id: &str)
        requires
            old(self).state().sessions.contains_key(id@) ==> old(self).state().sessions[id@].id
                == id@,
        ensures
            final(self).state() == old(self).state().unseat(id@, game_id@),
    {
        let fresh = match self.sessions.get(id) {
            Some(s) => match &s.joined_game {
                Some(g) => if g.as_str().eq(game_id) {
                    Some(
                        Session {
                            id: s.id.clone(),
                            name: s.name.clone(),
                            joined_game: None,
                            color: Color::Unassigned,
                        },
                    )
                } else {
                    None
                },
                None => None,
            },
            None => None,
        };
        match fresh {
            Some(s) => {
                self.put_session(s);
                assert(self.state().games =~= old(self).state().games);
            },
            None => {},
        }
    }

    /// Creates a game under the id `id`, with `player_one` in its first seat
    /// playing `color`, where nothing stands against it and the id is free.
    pub fn create_game_with_id(
        &mut self,
        id: String,
        name: &str,
        player_one: &str,
        color: Color,
    ) -> (r: Result<String, CreateError>)
        requires
            old(self).state().wf(),
        ensures
            final(self).state().wf(),
            final(self).state() == old(self).state().create_game(id@, name@, player_one@, color),
            match old(self).state().create_outcome(id@, player_one@, color) {
                Some(e) => r == Err::<String, CreateError>(e),
                None => r matches Ok(g) && g@ == id@,
            },
    {
        proof {
            lemma_create_game_wf(old(self).state(), id@, name@, player_one@, color);
        }
        if player_one.is_empty() {
            return Err(CreateError::EmptyCreator);
        }
        if color == Color::Unassigned {
            return Err(CreateError::ColorMissing);
        }
        let seated = match self.sessions.get(player_one) {
            Some(s) => {
                if s.joined_game.is_some() {
                    return Err(CreateError::AlreadySeated);
                }
                Session {
                    id: s.id.clone(),
                    name: s.name.clone(),
                    joined_game: Some(id.clone()),
                    color,
                }
            },
            None => {
                return Err(CreateError::CreatorMissing);
            },
        };
        if self.games.contains_key(id.as_str()) {
            return Err(CreateError::IdTaken);
        }
        let game = Game::new(name, player_one.to_owned());
        let key = id.clone();
        proof {
            assert(old(self).state().session_ok(player_one@));
        }
        self.put_game(key, game);
        self.put_session(seated);
        Ok(id)
    }
}

impl Default for InMemoryServer {
    fn default() -> (r: InMemoryServer)
        ensures
            r.state() == ServerState::empty(),
            r.state().wf(),
    {
        InMemoryServer::new()
    }
}

impl WsServer for InMemoryServer {
    closed spec fn state(&self) -> ServerState {
        ServerState {
            sessions: self.sessions@.map_values(|s: Session| s@),
            games: self.games@.map_values(|g: Game| g@),
        }
    }

    fn get_session(&self, id: &str) -> (r: Option<&Session>) {
        self.sessions.get(id)
    }

    fn session_count(&self) -> (r: usize) {
        assert(self.state().sessions.dom() =~= self.sessions@.dom());
        self.sessions.len()
    }

    fn create_session(&mut self, id: &str) -> (r: bool) {
        proof {
            lemma_create_session_wf(old(self).state(), id@);
        }
        if self.sessions.contains_key(id) {
            false
        } else {
            let session = Session {
                id: id.to_owned(),
                name: String::new(),
                joined_game: None,
                color: Color::Unassigned,
            };
            self.put_session(session);
            true
        }
    }

    fn delete_session(&mut self, id: &str) {
        proof {
            lemma_delete_session_wf(old(self).state(), id@);
        }
        let game = match self.sessions.get(id) {
            Some(s) => copy_id(&s.joined_game),
            None => {
                return ;
            },
        };
        match game {
            Some(g) => {
                self.leave_game(g.as_str(), id);
            },
            None => {},
        }
        let ghost left = self.state();
        self.sessions.remove(id);
        assert(self.state().sessions =~= left.sessions.remove(id@));
        assert(self.state().games =~= left.games);
    }

    fn update_session_name(&mut self, id: &str, name: &str) -> (r: Result<(), NameError>) {
        proof {
            lemma_update_session_name_wf(old(self).state(), id@, name@);
        }
        if name.unicode_len() > MAX_NAME_LENGTH {
            return Err(NameError::NameTooLong);
        }
        let renamed = match self.sessions.get(id) {
            Some(s) => Session {
                id: s.id.clone(),
                name: name.to_owned(),
                joined_game: copy_id(&s.joined_game),
                color: s.color,
            },
            None => {
                return Err(NameError::SessionMissing);
            },
        };
        proof {
            assert(old(self).state().session_ok(id@));
        }
        self.put_session(renamed);
        assert(self.state().games =~= old(self).state().games);
        Ok(())
    }

    fn get_game(&self, id: &str) -> (r: Option<&Game>) {
        self.games.get(id)
    }

    fn create_game(&mut self, name: &str, player_one: &str, color: Color) -> (r: Result<
        String,
        CreateError,
    >) {
        let id = random_id(ID_LENGTH);
        proof {
            assert(is_drawn_id(id@));
            if old(self).state().games.contains_key(id@) {
                assert(old(self).state().some_id_taken());
            }
        }
        self.create_game_with_id(id, name, player_one, color)
    }

    fn join_game(&mut self, game_id: &str, player_id: &str) -> (r: Result<(), JoinError>) {
        proof {
            lemma_join_game_wf(old(self).state(), game_id@, player_id@);
        }
        let (joined, one) = match self.games.get(game_id) {
            Some(g) => {
                if g.player_two_id.is_some() {
                    return Err(JoinError::RoomFull);
                }
                (
                    Game {
                        name: g.name.clone(),
                        player_one_id: g.player_one_id.clone(),
                        player_two_id: Some(player_id.to_owned()),
                        game_state: g.game_state,
                    },
                    g.player_one_id.clone(),
                )
            },
            None => {
                return Err(JoinError::RoomNotFound);
            },
        };
        proof {
            assert(old(self).state().game_ok(game_id@));
        }
        let color = match self.sessions.get(one.as_str()) {
            Some(s) => s.color.opposite(),
            None => Color::Unassigned,
        };
        let seated = match self.sessions.get(player_id) {
            Some(s) => {
                if s.joined_game.is_some() {
                    return Err(JoinError::AlreadySeated);
                }
                Session {
                    id: s.id.clone(),
                    name: s.name.clone(),
                    joined_game: Some(game_id.to_owned()),
                    color,
                }
            },
            None => {
                return Err(JoinError::PlayerMissing);
            },
        };
        proof {
            assert(old(self).state().session_ok(player_id@));
        }
        self.put_game(game_id.to_owned(), joined);
        self.put_session(seated);
        Ok(())
    }

    fn leave_game(&mut self, game_id: &str, player_id: &str) {
        proof {
            lemma_leave_game_wf(old(self).state(), game_id@, player_id@);
        }
        let open = match self.games.get(game_id) {
            Some(g) => {
                if g.player_one_id.as_str().eq(player_id) {
                    None
                } else {
                    match &g.player_two_id {
                        Some(two) => if two.as_str().eq(player_id) {
                            Some(
                                Game {
                                    name: g.name.clone(),
                                    player_one_id: g.player_one_id.clone(),
                                    player_two_id: None,
                                    game_state: g.game_state,
                                },
                            )
                        } else {
                            return ;
                        },
                        None => {
                            return ;
                        },
                    }
                }
            },
            None => {
                return ;
            },
        };
        match open {
            None => {
                self.delete_game(game_id);
            },
            Some(g) => {
                self.put_game(game_id.to_owned(), g);
                self.unseat(player_id, game_id);
            },
        }
    }

    fn delete_game(&mut self, id: &str) {
        proof {
            lemma_delete_game_wf(old(self).state(), id@);
        }
        let (one, two) = match self.games.get(id) {
            Some(g) => (g.player_one_id.clone(), copy_id(&g.player_two_id)),
            None => {
                return ;
            },
        };
        self.games.remove(id);
        assert(self.state().games =~= old(self).state().games.remove(id@));
        assert(self.state().sessions =~= old(self).state().sessions);
        self.unseat(one.as_str(), id);
        match two {
            Some(t) => {
                self.unseat(t.as_str(), id);
            },
            None => {},
        }
    }

    fn update_game_state(&mut self, player_id: &str, player_status: PlayerStatus) -> (r: Option<
        Game,
    >) {
        proof {
            lemma_update_game_state_wf(old(self).state(), player_id@);
        }
        let game_id = match self.sessions.get(player_id) {
            Some(s) => match &s.joined_game {
                Some(g) => g.clone(),
                None => {
                    return None;
                },
            },
            None => {
                return None;
            },
        };
        let finished = match self.games.get(game_id.as_str()) {
            Some(g) => {
                let state = if g.player_one_id.as_str().eq(player_id) {
                    GameState {
                        is_finished: true,
                        player_one: player_status,
                        player_two: g.game_state.player_two,
                    }
                } else {
                    let second = match &g.player_two_id {
                        Some(two) => two.as_str().eq(player_id),
                        None => false,
                    };
                    if !second {
                        return None;
                    }
                    GameState {
                        is_finished: true,
                        player_one: g.game_state.player_one,
                        player_two: player_status,
                    }
                };
                Game {
                    name: g.name.clone(),
                    player_one_id: g.player_one_id.clone(),
                    player_two_id: copy_id(&g.player_two_id),
                    game_state: state,
                }
            },
            None => {
                return None;
            },
        };
        self.delete_game(game_id.as_str());
        Some(finished)
    }

    fn make_move(&mut self, chess_move: &str, player_id: &str) -> (r: Option<Delivery>) {
        let game_id = match self.sessions.get(player_id) {
            Some(s) => match &s.joined_game {
                Some(g) => g,
                None => {
                    return None;
                },
            },
            None => {
                return None;
            },
        };
        let other = match self.games.get(game_id.as_str()) {
            Some(g) => {
                if g.player_one_id.as_str().eq(player_id) {
                    match &g.player_two_id {
                        Some(two) => two,
                        None => {
                            return None;
                        },
                    }
                } else {
                    let second = match &g.player_two_id {
                        Some(two) => two.as_str().eq(player_id),
                        None => false,
                    };
                    if !second {
                        return None;
                    }
                    &g.player_one_id
                }
            },
            None => {
                return None;
            },
        };
        self.send(other.as_str(), Message(chess_move.to_owned()))
    }

    fn get_player_one(&self, game_id: &str) -> (r: Option<Player>) {
        match self.games.get(game_id) {
            Some(g) => match self.sessions.get(g.player_one_id.as_str()) {
                Some(s) => Some(Player::from(s)),
                None => None,
            },
            None => None,
        }
    }

    fn get_player_two(&self, game_id: &str) -> (r: Option<Player>) {
        match self.games.get(game_id) {
            Some(g) => match &g.player_two_id {
                Some(two) => match self.sessions.get(two.as_str()) {
                    Some(s) => Some(Player::from(s)),
                    None => None,
                },
                None => None,
            },
            None => None,
        }
    }

    fn send(&self, id: &str, msg: Message) -> (r: Option<Delivery>) {
        if self.sessions.contains_key(id) {
            Some(Delivery { to: id.to_owned(), message: msg })
        } else {
            None
        }
    }
}

} // verus!
