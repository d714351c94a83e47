use vstd::prelude::*;

use crate::types::Color;
use crate::websocket::servers::in_memory::{Game, Player, PlayerStatus};
use crate::websocket::servers::state::{
    is_drawn_id, CreateError, JoinError, NameError, ServerState,
};
use crate::websocket::session::{Delivery, DeliveryView, Message, Session};

pub mod in_memory;
pub mod state;

verus! {

/// A store of players and games. Every method keeps the invariant
/// `ServerState::wf` of the state it stands for, and says by which step of
/// `ServerState` that state moves.
pub trait WsServer: Sized {
    /// The players and games that the store holds.
    spec fn state(&self) -> ServerState;

    fn get_session(&self, id: &str) -> (r: Option<&Session>)
        ensures
            match r {
                Some(s) => self.state().sessions.contains_key(id@) && s@
                    == self.state().sessions[id@],
                None => !self.state().sessions.contains_key(id@),
            },
    ;

    /// The number of players that are registered.
    fn session_count(&self) -> (r: usize)
        requires
            self.state().wf(),
        ensures
            r == self.state().sessions.len(),
    ;

    /// Registers a player under `id`. Returns whether the id was free; an id
    /// in use stays with its player and nothing changes.
    fn create_session(&mut self, id: &str) -> (r: bool)
        requires
            old(self).state().wf(),
        ensures
            final(self).state().wf(),
            r == !old(self).state().sessions.contains_key(id@),
            final(self).state() == old(self).state().create_session(id@),
    ;

    /// Removes a player, who first leaves the game the player is in.
    fn delete_session(&mut self, id: &str)
        requires
            old(self).state().wf(),
        ensures
            final(self).state().wf(),
            final(self).state() == old(self).state().delete_session(id@),
    ;

    fn update_session_name(&mut self, id: &str, name: &str) -> (r: Result<(), NameError>)
        requires
            old(self).state().wf(),
        ensures
            final(self).state().wf(),
            final(self).state() == old(self).state().update_session_name(id@, name@),
            match old(self).state().name_error(id@, name@) {
                Some(e) => r == Err::<(), NameError>(e),
                None => r is Ok,
            },
    ;

    fn get_game(&self, id: &str) -> (r: Option<&Game>)
        ensures
            match r {
                Some(g) => self.state().games.contains_key(id@) && g@ == self.state().games[id@],
                None => !self.state().games.contains_key(id@),
            },
    ;

    /// Create a game and join player one to the game
    ///
    /// Returns the ID of the game if created successfully: an id newly
    /// drawn. Where nothing stands against the game, it fails only if the id
    /// drawn is a game's already, with `IdTaken`; so it succeeds wherever no
    /// id that can be drawn is taken.
    fn create_game(&mut self, name: &str, player_one: &str, color: Color) -> (r: Result<
        String,
        CreateError,
    >)
        requires
            old(self).state().wf(),
        ensures
            final(self).state().wf(),
            match old(self).state().create_error(player_one@, color) {
                Some(e) => r == Err::<String, CreateError>(e) && final(self).state() == old(
                    self,
                ).state(),
                None => match r {
                    Ok(id) => {
                        &&& is_drawn_id(id@)
                        &&& !old(self).state().games.contains_key(id@)
                        &&& final(self).state() == old(self).state().create_game(
                            id@,
                            name@,
                            player_one@,
                            color,
                        )
                    },
                    Err(e) => {
                        &&& e == CreateError::IdTaken
                        &&& final(self).state() == old(self).state()
                        &&& old(self).state().some_id_taken()
                    },
                },
            },
    ;

    fn join_game(&mut self, game_id: &str, player_id: &str) -> (r: Result<(), JoinError>)
        requires
            old(self).state().wf(),
        ensures
            final(self).state().wf(),
            final(self).state() == old(self).state().join_game(game_id@, player_id@),
            match old(self).state().join_error(game_id@, player_id@) {
                Some(e) => r == Err::<(), JoinError>(e),
                None => r is Ok,
            },
    ;

    fn leave_game(&mut self, game_id: &str, player_id: &str)
        requires
            old(self).state().wf(),
        ensures
            final(self).state().wf(),
            final(self).state() == old(self).state().leave_game(game_id@, player_id@),
    ;

    fn delete_game(&mut self, id: &str)
        requires
            old(self).state().wf(),
        ensures
            final(self).state().wf(),
            final(self).state() == old(self).state().delete_game(id@),
    ;

    /// A player reports how the game ended for it. The game is over: it is
    /// removed, both players are unseated, and the game is handed back as it
    /// stood at its end.
    fn update_game_state(&mut self, player_id: &str, player_status: PlayerStatus) -> (r: Option<
        Game,
    >)
        requires
            old(self).state().wf(),
        ensures
            final(self).state().wf(),
            final(self).state() == old(self).state().update_game_state(player_id@),
            match old(self).state().finished_game(player_id@, player_status) {
                Some(g) => r matches Some(game) && game@ == g,
                None => r is None,
            },
    ;

    /// The delivery that carries `chess_move`, as it is, to the opponent of
    /// `player_id`; none where there is no opponent.
    fn make_move(&mut self, chess_move: &str, player_id: &str) -> (r: Option<Delivery>)
        requires
            old(self).state().wf(),
        ensures
            final(self).state() == old(self).state(),
            match old(self).state().opponent(player_id@) {
                Some(o) => r matches Some(d) && d@ == (DeliveryView { to: o, text: chess_move@ }),
                None => r is None,
            },
    ;

    fn get_player_one(&self, game_id: &str) -> (r: Option<Player>)
        ensures
            match self.state().player_one(game_id@) {
                Some(p) => r matches Some(q) && q@ == p,
                None => r is None,
            },
    ;

    fn get_player_two(&self, game_id: &str) -> (r: Option<Player>)
        ensures
            match self.state().player_two(game_id@) {
                Some(p) => r matches Some(q) && q@ == p,
                None => r is None,
            },
    ;

    /// The delivery of `msg` to the player `id`; none where no such player is
    /// registered.
    fn send(&self, id: &str, msg: Message) -> (r: Option<Delivery>)
        ensures
            if self.state().sessions.contains_key(id@) {
                r matches Some(d) && d@ == (DeliveryView { to: id@, text: msg@ })
            } else {
                r is None
            },
    ;
}

} // verus!
