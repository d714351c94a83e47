use vstd::prelude::*;

use crate::types::{ChessMove, ChessMoveView, Color};
use crate::websocket::messages::{
    error_notice, to_error_notice, Connect, CreateGame, CreateGameView, Disconnect, JoinGame,
    MakeMove, UpdateGameState, UpdateName,
};
use crate::websocket::servers::in_memory::{Game, Player};
use crate::websocket::servers::state::{
    is_drawn_id, CreateError, JoinError, NameError, ServerState,
};
use crate::websocket::servers::WsServer;
use crate::websocket::session::{Delivery, DeliveryView, Message};

verus! {

/// The number of players that a server admits when it is told no other.
pub const DEFAULT_PLAYER_LIMIT: usize = 3;

/// Why the server did not do what a message asked for.
#[derive(Debug, Clone, Copy, PartialEq, Eq, Structural)]
pub enum Refusal {
    /// The server has as many players as it admits.
    Capacity,
    /// A player is registered under the id already.
    IdInUse,
    /// The player who moves is seated in no game.
    NotSeated,
    Create(CreateError),
    Join(JoinError),
    Name(NameError),
}

impl Refusal {
    /// What is said of the refusal to the client that asked.
    pub open spec fn text(self) -> Seq<char> {
        match self {
            Refusal::Capacity => "Player limit reached"@,
            Refusal::IdInUse => "Player id is in use"@,
            Refusal::NotSeated => "Game must exist to play"@,
            Refusal::Create(CreateError::EmptyCreator) => "Player id must be present when creating game"@,
            Refusal::Create(CreateError::ColorMissing) => "Color must be black or white"@,
            Refusal::Create(CreateError::CreatorMissing) => "Player doesn't exist"@,
            Refusal::Create(CreateError::AlreadySeated) => "Player is in a game already"@,
            Refusal::Create(CreateError::IdTaken) => "Game id is in use"@,
            Refusal::Join(JoinError::RoomNotFound) => "Game doesn't exist"@,
            Refusal::Join(JoinError::RoomFull) => "Game is full"@,
            Refusal::Join(JoinError::PlayerMissing) => "Player doesn't exist"@,
            Refusal::Join(JoinError::AlreadySeated) => "Player is in a game already"@,
            Refusal::Name(NameError::NameTooLong) => "Name is too long"@,
            Refusal::Name(NameError::SessionMissing) => "Player doesn't exist"@,
        }
    }

    pub fn describe(&self) -> (r: &'static str)
        ensures
            r@ == self.text(),
    {
        match self {
            Refusal::Capacity => "Player limit reached",
            Refusal::IdInUse => "Player id is in use",
            Refusal::NotSeated => "Game must exist to play",
            Refusal::Create(CreateError::EmptyCreator) => "Player id must be present when creating game",
            Refusal::Create(CreateError::ColorMissing) => "Color must be black or white",
            Refusal::Create(CreateError::CreatorMissing) => "Player doesn't exist",
            Refusal::Create(CreateError::AlreadySeated) => "Player is in a game already",
            Refusal::Create(CreateError::IdTaken) => "Game id is in use",
            Refusal::Join(JoinError::RoomNotFound) => "Game doesn't exist",
            Refusal::Join(JoinError::RoomFull) => "Game is full",
            Refusal::Join(JoinError::PlayerMissing) => "Player doesn't exist",
            Refusal::Join(JoinError::AlreadySeated) => "Player is in a game already",
            Refusal::Name(NameError::NameTooLong) => "Name is too long",
            Refusal::Name(NameError::SessionMissing) => "Player doesn't exist",
        }
    }
}

/// A request that was refused: why, and what is sent to the client that
/// asked, if anything is.
#[derive(Debug, Clone)]
pub struct Rejection {
    pub reason: Refusal,
    pub notice: Option<Delivery>,
}

/// A rejection as mathematical values.
pub struct RejectionView {
    pub reason: Refusal,
    pub notice: Option<DeliveryView>,
}

impl View for Rejection {
    type V = RejectionView;

    open spec fn view(&self) -> RejectionView {
        RejectionView {
            reason: self.reason,
            notice: match self.notice {
                Some(d) => Some(d@),
                None => None,
            },
        }
    }
}

/// The deliveries `ds` as mathematical values, in their order.
pub open spec fn views(ds: Seq<Delivery>) -> Seq<DeliveryView> {
    ds.map_values(|d: Delivery| d@)
}

/// The refusal of a request of `id` for `reason`: the player is told if it
/// is registered, and nobody else is told anything.
pub open spec fn refused(state: ServerState, id: Seq<char>, reason: Refusal) -> RejectionView {
    RejectionView {
        reason,
        notice: if state.sessions.contains_key(id) {
            Some(DeliveryView { to: id, text: error_notice(reason.text()) })
        } else {
            None
        },
    }
}

/// Why a participant cannot connect under `id` to a server that admits
/// `limit` players.
pub open spec fn connect_refusal(state: ServerState, limit: nat, id: Seq<char>) -> Option<
    Refusal,
> {
    if state.sessions.len() >= limit {
        Some(Refusal::Capacity)
    } else if state.sessions.contains_key(id) {
        Some(Refusal::IdInUse)
    } else {
        None
    }
}

/// What can happen to a server: the messages that it handles, as values. A
/// creation carries the id that was drawn for the game.
pub enum Event {
    Connect { id: Seq<char> },
    Disconnect { id: Seq<char> },
    CreateGame { id: Seq<char>, name: Seq<char>, player_id: Seq<char>, color: Color },
    JoinGame { game_id: Seq<char>, player_id: Seq<char> },
    MakeMove { player_id: Seq<char> },
    UpdateGameState { player_id: Seq<char> },
    UpdateName { player_id: Seq<char>, name: Seq<char> },
}

/// The players and games of a server that admits `limit` players, after it
/// has handled `event` in the state `state`. A request that is refused leaves
/// the state as it is.
pub open spec fn step(state: ServerState, limit: nat, event: Event) -> ServerState {
    match event {
        Event::Connect { id } => if connect_refusal(state, limit, id) is Some {
            state
        } else {
            state.create_session(id)
        },
        Event::Disconnect { id } => state.delete_session(id),
        Event::CreateGame { id, name, player_id, color } => if state.sessions.len() > limit {
            state
        } else {
            state.create_game(id, name, player_id, color)
        },
        Event::JoinGame { game_id, player_id } => if state.sessions.len() > limit {
            state
        } else {
            state.join_game(game_id, player_id)
        },
        Event::MakeMove { player_id } => state,
        Event::UpdateGameState { player_id } => state.update_game_state(player_id),
        Event::UpdateName { player_id, name } => state.update_session_name(player_id, name),
    }
}

/// What the two players of the game `game_id` are sent once the second has
/// joined: the joiner learns of the creator, then the creator of the joiner.
pub open spec fn introductions(state: ServerState, game_id: Seq<char>, joiner: Seq<char>) -> Seq<
    DeliveryView,
> {
    seq![
        DeliveryView { to: joiner, text: Player::opponent_joined(state.player_one(game_id)) },
        DeliveryView {
            to: state.games[game_id].player_one_id,
            text: Player::opponent_joined(state.player_two(game_id)),
        },
    ]
}

/// That the creation `msg` gave the game `id`: the id was newly drawn and
/// free, the game stands in `after`, and `ds` tells the creator the id.
pub open spec fn created(
    before: ServerState,
    after: ServerState,
    ds: Seq<DeliveryView>,
    msg: CreateGameView,
    id: Seq<char>,
) -> bool {
    &&& is_drawn_id(id)
    &&& !before.games.contains_key(id)
    &&& after == before.create_game(id, msg.name, msg.player_id, msg.color)
    &&& after.games.contains_key(id)
    &&& ds == seq![DeliveryView { to: msg.player_id, text: CreateGame::reply(id) }]
}

/// That the creation `msg` gave a game under an id that was free.
pub open spec fn created_fresh(
    before: ServerState,
    after: ServerState,
    ds: Seq<DeliveryView>,
    msg: CreateGameView,
) -> bool {
    exists|id: Seq<char>| #[trigger] created(before, after, ds, msg, id)
}

/// The one place where players and games change: it takes the messages of
/// all connections, one at a time, and says what is to be sent to whom.
pub struct WsChessServer<T: WsServer> {
    inner_server: T,
    player_limit: usize,
}

impl<T: WsServer> WsChessServer<T> {
    /// The players and games of the server.
    pub closed spec fn state(&self) -> ServerState {
        self.inner_server.state()
    }

    /// The number of players that the server admits.
    pub closed spec fn limit(&self) -> nat {
        self.player_limit as nat
    }

    /// The invariant of the server: that of its state.
    pub open spec fn wf(&self) -> bool {
        self.state().wf()
    }

    pub fn new(inner_server: T) -> (r: Self)
        requires
            inner_server.state().wf(),
        ensures
            r.wf(),
            r.state() == inner_server.state(),
            r.limit() == DEFAULT_PLAYER_LIMIT,
    {
        WsChessServer { inner_server, player_limit: DEFAULT_PLAYER_LIMIT }
    }

    /// A server that admits `player_limit` players.
    pub fn with_limit(inner_server: T, player_limit: usize) -> (r: Self)
        requires
            inner_server.state().wf(),
        ensures
            r.wf(),
            r.state() == inner_server.state(),
            r.limit() == player_limit,
    {
        WsChessServer { inner_server, player_limit }
    }

    /// The store of the server's players and games.
    pub fn inner(&self) -> (r: &T)
        ensures
            r.state() == self.state(),
    {
        &self.inner_server
    }

    pub fn player_limit(&self) -> (r: usize)
        ensures
            r == self.limit(),
    {
        self.player_limit
    }

    /// Refuses a request of `id` for `reason`.
    fn refuse(&self, id: &str, reason: Refusal) -> (r: Rejection)
        ensures
            r@ == refused(self.state(), id@, reason),
    {
        let notice = self.inner_server.send(id, Message(to_error_notice(reason.describe())));
        Rejection { reason, notice }
    }

    /// A participant connects. Unless the server is full or the id is in
    /// use, the participant is registered and is sent its id.
    pub fn handle_connect(&mut self, msg: Connect) -> (r: Result<Vec<Delivery>, Rejection>)
        requires
            old(self).wf(),
        ensures
            final(self).wf(),
            final(self).limit() == old(self).limit(),
            final(self).state() == step(
                old(self).state(),
                old(self).limit(),
                Event::Connect { id: msg.id@ },
            ),
            match connect_refusal(old(self).state(), old(self).limit(), msg.id@) {
                Some(reason) => r matches Err(j) && j@ == (RejectionView { reason, notice: None }),
                None => r matches Ok(ds) && views(ds@) == seq![
                    DeliveryView { to: msg.id@, text: Connect::reply(msg.id@) },
                ],
            },
    {
        if self.inner_server.session_count() >= self.player_limit {
            return Err(Rejection { reason: Refusal::Capacity, notice: None });
        }
        if !self.inner_server.create_session(msg.id.as_str()) {
            return Err(Rejection { reason: Refusal::IdInUse, notice: None });
        }
        let mut ds: Vec<Delivery> = Vec::new();
        match self.inner_server.send(msg.id.as_str(), Message(msg.to_reply())) {
            Some(d) => {
                ds.push(d);
            },
            None => {},
        }
        assert(views(ds@) =~= seq![DeliveryView { to: msg.id@, text: Connect::reply(msg.id@) }]);
        Ok(ds)
    }

    /// A participant has gone: it leaves its game and is forgotten. Nothing
    /// happens where no such participant is registered.
    pub fn handle_disconnect(&mut self, msg: Disconnect)
        requires
            old(self).wf(),
        ensures
            final(self).wf(),
            final(self).limit() == old(self).limit(),
            final(self).state() == step(
                old(self).state(),
                old(self).limit(),
                Event::Disconnect { id: msg.id@ },
            ),
    {
        self.inner_server.delete_session(msg.id.as_str());
    }

    /// A player asks for a game. Where the server holds more players than it
    /// admits the request is dropped; where something else stands against the
    /// game the player is told; else the game exists under an id newly drawn
    /// and the player is sent that id. The draw can fail only where some id
    /// that can be drawn is a game's already.
    pub fn handle_create_game(&mut self, msg: CreateGame) -> (r: Result<Vec<Delivery>, Rejection>)
        requires
            old(self).wf(),
        ensures
            final(self).wf(),
            final(self).limit() == old(self).limit(),
            if old(self).state().sessions.len() > old(self).limit() {
                &&& final(self).state() == old(self).state()
                &&& r matches Err(j)
                &&& j@ == (RejectionView { reason: Refusal::Capacity, notice: None })
            } else {
                match old(self).state().create_error(msg.player_id@, msg.color) {
                    Some(e) => {
                        &&& final(self).state() == old(self).state()
                        &&& r matches Err(j)
                        &&& j@ == refused(old(self).state(), msg.player_id@, Refusal::Create(e))
                    },
                    None => match r {
                        Ok(ds) => created_fresh(
                            old(self).state(),
                            final(self).state(),
                            views(ds@),
                            msg@,
                        ),
                        Err(j) => {
                            &&& final(self).state() == old(self).state()
                            &&& old(self).state().some_id_taken()
                            &&& j@ == refused(
                                old(self).state(),
                                msg.player_id@,
                                Refusal::Create(CreateError::IdTaken),
                            )
                        },
                    },
                }
            },
    {
        if self.inner_server.session_count() > self.player_limit {
            return Err(Rejection { reason: Refusal::Capacity, notice: None });
        }
        let id = match self.inner_server.create_game(
            msg.name.as_str(),
            msg.player_id.as_str(),
            msg.color,
        ) {
            Ok(id) => id,
            Err(e) => {
                return Err(self.refuse(msg.player_id.as_str(), Refusal::Create(e)));
            },
        };
        let ghost gid = id@;
        let reply = CreateGame {
            id,
            player_id: msg.player_id.clone(),
            name: msg.name.clone(),
            color: msg.color,
        };
        let mut ds: Vec<Delivery> = Vec::new();
        match self.inner_server.send(reply.player_id.as_str(), Message(reply.to_reply())) {
            Some(d) => {
                ds.push(d);
            },
            None => {},
        }
        proof {
            assert(self.state().sessions.contains_key(msg.player_id@));
            assert(views(ds@) =~= seq![
                DeliveryView { to: msg.player_id@, text: CreateGame::reply(gid) },
            ]);
            assert(old(self).state().create_error(msg.player_id@, msg.color) is None);
            assert(!(old(self).state().sessions.len() > old(self).limit()));
            assert(created(old(self).state(), self.state(), views(ds@), msg@, gid));
            assert(created_fresh(old(self).state(), self.state(), views(ds@), msg@));
        }
        Ok(ds)
    }

    /// A player asks for the second seat of a game. Where the server holds
    /// more players than it admits the request is dropped; where something
    /// else stands against it the player is told; else the player is seated
    /// and each of the two players learns of the other.
    pub fn handle_join_game(&mut self, msg: JoinGame) -> (r: Result<Vec<Delivery>, Rejection>)
        requires
            old(self).wf(),
        ensures
            final(self).wf(),
            final(self).limit() == old(self).limit(),
            final(self).state() == step(
                old(self).state(),
                old(self).limit(),
                Event::JoinGame { game_id: msg.game_id@, player_id: msg.player_id@ },
            ),
            if old(self).state().sessions.len() > old(self).limit() {
                r matches Err(j) && j@ == (RejectionView {
                    reason: Refusal::Capacity,
                    notice: None,
                })
            } else {
                match old(self).state().join_error(msg.game_id@, msg.player_id@) {
                    Some(e) => r matches Err(j) && j@ == refused(
                        old(self).state(),
                        msg.player_id@,
                        Refusal::Join(e),
                    ),
                    None => r matches Ok(ds) && views(ds@) == introductions(
                        final(self).state(),
                        msg.game_id@,
                        msg.player_id@,
                    ),
                }
            },
    {
        if self.inner_server.session_count() > self.player_limit {
            return Err(Rejection { reason: Refusal::Capacity, notice: None });
        }
        match self.inner_server.join_game(msg.game_id.as_str(), msg.player_id.as_str()) {
            Ok(()) => {},
            Err(e) => {
                return Err(self.refuse(msg.player_id.as_str(), Refusal::Join(e)));
            },
        }
        proof {
            assert(self.state().games.contains_key(msg.game_id@));
            assert(self.state().game_ok(msg.game_id@));
        }
        let player_one = self.inner_server.get_player_one(msg.game_id.as_str());
        let player_two = self.inner_server.get_player_two(msg.game_id.as_str());
        let mut ds: Vec<Delivery> = Vec::new();
        match self.inner_server.send(
            msg.player_id.as_str(),
            Message(Player::to_opponent_joined(&player_one)),
        ) {
            Some(d) => {
                ds.push(d);
            },
            None => {},
        }
        match &player_one {
            Some(one) => {
                proof {
                    assert(self.state().session_ok(one@.id));
                }
                match self.inner_server.send(
                    one.id.as_str(),
                    Message(Player::to_opponent_joined(&player_two)),
                ) {
                    Some(d) => {
                        ds.push(d);
                    },
                    None => {},
                }
            },
            None => {},
        }
        assert(views(ds@) =~= introductions(self.state(), msg.game_id@, msg.player_id@));
        Ok(ds)
    }

    /// A player moves. The move goes to the player on the other side as it
    /// came, and to nobody else; where that seat is empty it is dropped. A
    /// player who is seated in no game is refused.
    pub fn handle_make_move(&mut self, msg: MakeMove) -> (r: Result<Vec<Delivery>, Rejection>)
        requires
            old(self).wf(),
        ensures
            final(self).wf(),
            final(self).limit() == old(self).limit(),
            final(self).state() == old(self).state(),
            match old(self).state().game_of(msg.player_id@) {
                None => r matches Err(j) && j@ == (RejectionView {
                    reason: Refusal::NotSeated,
                    notice: None,
                }),
                Some(_) => r matches Ok(ds) && views(ds@) == match old(self).state().opponent(
                    msg.player_id@,
                ) {
                    Some(o) => seq![
                        DeliveryView {
                            to: o,
                            text: ChessMove::relayed(
                                ChessMoveView {
                                    from: msg.from@,
                                    to: msg.to@,
                                    promotion_piece: msg@.promotion_piece,
                                },
                            ),
                        },
                    ],
                    None => Seq::empty(),
                },
            },
    {
        let player_id = msg.player_id.clone();
        let seated = match self.inner_server.get_session(player_id.as_str()) {
            Some(s) => s.joined_game.is_some(),
            None => false,
        };
        proof {
            if seated {
                assert(self.state().session_ok(player_id@));
            }
        }
        if !seated {
            return Err(Rejection { reason: Refusal::NotSeated, notice: None });
        }
        let chess_move = ChessMove::from(msg);
        let text = chess_move.to_relay();
        let mut ds: Vec<Delivery> = Vec::new();
        match self.inner_server.make_move(text.as_str(), player_id.as_str()) {
            Some(d) => {
                ds.push(d);
                assert(views(ds@) =~= seq![d@]);
            },
            None => {
                assert(views(ds@) =~= Seq::empty());
            },
        }
        Ok(ds)
    }

    /// A player reports how its game ended. The game is removed and both
    /// players are unseated; nobody is sent anything. The game is handed back
    /// as it stood at its end.
    pub fn handle_update_game_state(&mut self, msg: UpdateGameState) -> (r: Option<Game>)
        requires
            old(self).wf(),
        ensures
            final(self).wf(),
            final(self).limit() == old(self).limit(),
            final(self).state() == step(
                old(self).state(),
                old(self).limit(),
                Event::UpdateGameState { player_id: msg.player_id@ },
            ),
            match old(self).state().finished_game(msg.player_id@, msg.new_status) {
                Some(g) => r matches Some(game) && game@ == g,
                None => r is None,
            },
    {
        self.inner_server.update_game_state(msg.player_id.as_str(), msg.new_status)
    }

    /// A player takes a name. A name that is too long is refused and the
    /// player is told; a player who is not registered is refused in silence.
    pub fn handle_update_name(&mut self, msg: UpdateName) -> (r: Result<Vec<Delivery>, Rejection>)
        requires
            old(self).wf(),
        ensures
            final(self).wf(),
            final(self).limit() == old(self).limit(),
            final(self).state() == step(
                old(self).state(),
                old(self).limit(),
                Event::UpdateName { player_id: msg.player_id@, name: msg.name@ },
            ),
            match old(self).state().name_error(msg.player_id@, msg.name@) {
                Some(e) => r matches Err(j) && j@ == refused(
                    old(self).state(),
                    msg.player_id@,
                    Refusal::Name(e),
                ),
                None => r matches Ok(ds) && ds@.len() == 0,
            },
    {
        match self.inner_server.update_session_name(msg.player_id.as_str(), msg.name.as_str()) {
            Ok(()) => Ok(Vec::new()),
            Err(e) => Err(self.refuse(msg.player_id.as_str(), Refusal::Name(e))),
        }
    }
}

} // verus!
