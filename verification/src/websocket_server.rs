use std::collections::HashMap;
use vstd::prelude::*;

use crate::game_command::{
    is_color, CreateGame, JoinGame, PlayMove, UpdateGameStatus, UpdateName,
};
use crate::json::{json_quoted, quoted};
use crate::uuids::{is_random_uuid, random_uuid, uuid_text, uuid_to_text};
use crate::websocket::servers::state::MAX_NAME_LENGTH;

verus! {

broadcast use vstd::std_specs::hash::group_hash_axioms;

/// A text on its way to one player's connection.
#[derive(Debug, Clone, PartialEq, Eq)]
pub struct Message(pub String);

/// A complaint on its way to one player's connection.
#[derive(Debug, Clone, PartialEq, Eq)]
pub struct ErrMessage(pub String);

impl ErrMessage {
    pub fn new(msg: String) -> (r: ErrMessage)
        ensures
            r.0@ == "Error "@ + msg@,
    {
        ErrMessage("Error ".to_owned().concat(msg.as_str()))
    }
}

/// A player has connected under `id`.
#[derive(Debug, Clone, Copy)]
pub struct Connect {
    /// the player id
    pub id: u128,
}

/// The id of a player as a text.
#[derive(Debug, Clone)]
pub struct PlayerId {
    pub id: String,
}

/// A message together with the player whose connection is to carry it.
#[derive(Debug, Clone, PartialEq, Eq)]
pub struct Sent {
    pub to: u128,
    pub message: Message,
}

/// A sent message as mathematical values.
pub struct SentView {
    pub to: u128,
    pub text: Seq<char>,
}

impl View for Sent {
    type V = SentView;

    open spec fn view(&self) -> SentView {
        SentView { to: self.to, text: self.message.0@ }
    }
}

/// The sent messages `sent` as mathematical values, in their order.
pub open spec fn sent_views(sent: Seq<Sent>) -> Seq<SentView> {
    sent.map_values(|s: Sent| s@)
}

/// A game as mathematical values.
pub struct GameView {
    pub name: Seq<char>,
    pub player_one: u128,
    pub player_one_color: Seq<char>,
    pub player_two: Option<u128>,
    pub player_two_color: Seq<char>,
}

struct Game {
    name: String,
    player_one: u128,
    player_one_color: String,
    player_two: Option<u128>,
    player_two_color: String,
}

impl View for Game {
    type V = GameView;

    closed spec fn view(&self) -> GameView {
        GameView {
            name: self.name@,
            player_one: self.player_one,
            player_one_color: self.player_one_color@,
            player_two: self.player_two,
            player_two_color: self.player_two_color@,
        }
    }
}

/// The letter of the colour that plays against `color`.
pub open spec fn other_color(color: Seq<char>) -> Seq<char> {
    if color == "w"@ {
        "b"@
    } else {
        "w"@
    }
}

/// The game called `name` that `player_one` has created to play `color` in.
pub open spec fn new_game(name: Seq<char>, player_one: u128, color: Seq<char>) -> GameView {
    GameView {
        name,
        player_one,
        player_one_color: color,
        player_two: None,
        player_two_color: other_color(color),
    }
}

impl Game {
    fn new(name: String, player_one: u128, player_one_color: String) -> (r: Game)
        requires
            is_color(player_one_color@),
        ensures
            r@ == new_game(name@, player_one, player_one_color@),
    {
        let player_two_color = if player_one_color.as_str().eq("w") {
            String::from_str("b")
        } else {
            String::from_str("w")
        };
        Game { name, player_one, player_one_color, player_two: None, player_two_color }
    }
}

/// All that the server knows: the names of the players by their ids, and the
/// games by theirs.
pub struct ServerView {
    pub sessions: Map<u128, Seq<char>>,
    pub games: Map<u128, GameView>,
}

/// The JSON in which a joining is passed on: the player, the player's name
/// and a colour.
pub open spec fn join_json(player_id: u128, player_name: Seq<char>, color: Seq<char>) -> Seq<
    char,
> {
    "{\"player_id\":\""@ + uuid_text(player_id) + "\",\"player_name\":"@ + json_quoted(player_name)
        + ",\"color\":"@ + json_quoted(color) + "}"@
}

/// The JSON in which a move is passed on.
pub open spec fn move_json(
    from: Seq<char>,
    to: Seq<char>,
    promotion_piece: Option<Seq<char>>,
    player_id: u128,
) -> Seq<char> {
    "{\"from\":"@ + json_quoted(from) + ",\"to\":"@ + json_quoted(to) + ",\"promotion_piece\":"@
        + (match promotion_piece {
        Some(p) => json_quoted(p),
        None => "null"@,
    }) + ",\"player_id\":\""@ + uuid_text(player_id) + "\"}"@
}

impl ServerView {
    /// The state of a server that nobody has connected to.
    pub open spec fn empty() -> ServerView {
        ServerView { sessions: Map::empty(), games: Map::empty() }
    }

    /// `text` for the player `to`, if the player is registered.
    pub open spec fn message_to(self, text: Seq<char>, to: u128) -> Seq<SentView> {
        if self.sessions.contains_key(to) {
            seq![SentView { to, text }]
        } else {
            Seq::empty()
        }
    }

    /// `text` of the player `sender` for the player on the other side of the
    /// board in the game `game_id`: from the creator to the second player,
    /// from the second player to the creator. Nothing goes back to the
    /// sender, and nothing goes anywhere from a player without a seat in the
    /// game.
    pub open spec fn relay(self, text: Seq<char>, game_id: u128, sender: u128) -> Seq<SentView> {
        if !self.games.contains_key(game_id) {
            Seq::empty()
        } else if self.games[game_id].player_one == sender {
            match self.games[game_id].player_two {
                Some(two) => if two != sender {
                    self.message_to(text, two)
                } else {
                    Seq::empty()
                },
                None => Seq::empty(),
            }
        } else if self.games[game_id].player_two == Some(sender) {
            self.message_to(text, self.games[game_id].player_one)
        } else {
            Seq::empty()
        }
    }

    /// Why nobody can connect under `id`, if anything stands against it.
    pub open spec fn connect_error(self, id: u128) -> Option<Seq<char>> {
        if self.sessions.contains_key(id) {
            Some("Player id is in use"@)
        } else {
            None
        }
    }

    /// The player `id` is registered without a name. An id that is in use
    /// stays with the player that has it.
    pub open spec fn connect(self, id: u128) -> ServerView {
        if self.connect_error(id) is Some {
            self
        } else {
            ServerView { sessions: self.sessions.insert(id, Seq::empty()), ..self }
        }
    }

    /// Why the player `player_one` cannot create a game to play `color` in,
    /// whatever id the game would get.
    pub open spec fn create_error(self, player_one: u128, color: Seq<char>) -> Option<Seq<char>> {
        if !is_color(color) {
            Some("unable to parse color"@)
        } else if !self.sessions.contains_key(player_one) {
            Some("Player doesn't exist"@)
        } else {
            None
        }
    }

    /// What becomes of an attempt to create a game under the id `id`.
    pub open spec fn create_outcome(self, id: u128, player_one: u128, color: Seq<char>) -> Option<
        Seq<char>,
    > {
        match self.create_error(player_one, color) {
            Some(why) => Some(why),
            None => if self.games.contains_key(id) {
                Some("Game id is in use"@)
            } else {
                None
            },
        }
    }

    /// Whether some id that can be drawn at random is the id of a game. Only
    /// then can a draw fail to give a new game its id.
    pub open spec fn some_id_taken(self) -> bool {
        exists|taken: u128| is_random_uuid(taken) && #[trigger] self.games.contains_key(taken)
    }

    /// The game `id` is what the creator asked for, unless `create_outcome`
    /// names an error.
    pub open spec fn create_game(
        self,
        id: u128,
        name: Seq<char>,
        player_one: u128,
        color: Seq<char>,
    ) -> ServerView {
        if self.create_outcome(id, player_one, color) is Some {
            self
        } else {
            ServerView { games: self.games.insert(id, new_game(name, player_one, color)), ..self }
        }
    }

    /// Why the player `player_id` cannot join the game `id`, if anything
    /// stands against it. A full game is reported whoever asks; a creator
    /// cannot join the creator's own game, and both the joiner and the
    /// creator must be registered.
    pub open spec fn join_error(self, id: u128, player_id: u128) -> Option<Seq<char>> {
        if !self.games.contains_key(id) {
            Some("Game doesn't exist"@)
        } else if self.games[id].player_two is Some {
            Some("Game is full"@)
        } else if self.games[id].player_one == player_id {
            Some("Player is in the game already"@)
        } else if !self.sessions.contains_key(player_id) || !self.sessions.contains_key(
            self.games[id].player_one,
        ) {
            Some("Player doesn't exist"@)
        } else {
            None
        }
    }

    /// The player `player_id` has the second seat of the game `id`, unless
    /// `join_error` stands against it.
    pub open spec fn join_game(self, id: u128, player_id: u128) -> ServerView {
        if self.join_error(id, player_id) is Some {
            self
        } else {
            let g = GameView { player_two: Some(player_id), ..self.games[id] };
            ServerView { games: self.games.insert(id, g), ..self }
        }
    }

    /// What is sent when the player `player_id`, called `player_name`, has
    /// joined the game `id`: the creator learns of the joiner and the
    /// creator's own colour, then the joiner of the game's name, the creator
    /// and the colour that is left.
    pub open spec fn join_messages(self, id: u128, player_id: u128, player_name: Seq<char>) -> Seq<
        SentView,
    > {
        let g = self.games[id];
        let told = "PlayerJoined "@ + join_json(player_id, player_name, g.player_one_color);
        let answer = join_json(g.player_one, self.sessions[g.player_one], g.player_two_color);
        let named = "JoinGame {\"name\":\""@ + g.name + "\","@ + answer.subrange(
            1,
            answer.len() as int,
        );
        self.message_to(told, g.player_one) + self.message_to(named, player_id)
    }

    /// Why the player `id` cannot take the name `name`, if anything stands
    /// against it.
    pub open spec fn name_error(self, id: u128, name: Seq<char>) -> Option<Seq<char>> {
        if name.len() > MAX_NAME_LENGTH {
            Some("Name is too long"@)
        } else if !self.sessions.contains_key(id) {
            Some("Player doesn't exist"@)
        } else {
            None
        }
    }

    /// The player `id` has the name `name`, unless `name_error` stands
    /// against it.
    pub open spec fn update_name(self, id: u128, name: Seq<char>) -> ServerView {
        if self.name_error(id, name) is Some {
            self
        } else {
            ServerView { sessions: self.sessions.insert(id, name), ..self }
        }
    }
}

/// Whoever asks for the second seat of a game that has its second player is
/// told that the game is full, and nothing changes.
pub proof fn lemma_full_game_stays(state: ServerView, id: u128, player_id: u128)
    requires
        state.games.contains_key(id),
        state.games[id].player_two is Some,
    ensures
        state.join_error(id, player_id) == Some("Game is full"@),
        state.join_game(id, player_id) == state,
{
}

/// A move never goes back to the player who made it, and goes to one player
/// at most; from a player without a seat in the game it goes to nobody.
pub proof fn lemma_relay_crosses_the_board(
    state: ServerView,
    text: Seq<char>,
    game_id: u128,
    sender: u128,
)
    ensures
        state.relay(text, game_id, sender).len() <= 1,
        forall|i: int|
            0 <= i < state.relay(text, game_id, sender).len() ==> (#[trigger] state.relay(
                text,
                game_id,
                sender,
            )[i]).to != sender,
        !state.games.contains_key(game_id) || (state.games[game_id].player_one != sender
            && state.games[game_id].player_two != Some(sender)) ==> state.relay(
            text,
            game_id,
            sender,
        ).len() == 0,
{
}

/// The server of the line-command protocol: it knows the players' names and
/// the games, and says what is to be sent to whom.
pub struct WsChessServer {
    /// A session holds the name of the player
    sessions: HashMap<u128, String>,
    games: HashMap<u128, Game>,
}

impl View for WsChessServer {
    type V = ServerView;

    closed spec fn view(&self) -> ServerView {
        ServerView {
            sessions: self.sessions@.map_values(|s: String| s@),
            games: self.games@.map_values(|g: Game| g@),
        }
    }
}

impl WsChessServer {
    pub fn new() -> (r: WsChessServer)
        ensures
            r@ == ServerView::empty(),
    {
        let r = WsChessServer { sessions: HashMap::new(), games: HashMap::new() };
        assert(r@.sessions =~= Map::empty());
        assert(r@.games =~= Map::empty());
        r
    }

    /// The name of the player `id`, if the player is registered.
    pub fn name_of(&self, id: u128) -> (r: Option<&String>)
        ensures
            match r {
                Some(name) => self@.sessions.contains_key(id) && name@ == self@.sessions[id],
                None => !self@.sessions.contains_key(id),
            },
    {
        self.sessions.get(&id)
    }

    /// Whether a game has the id `id`.
    pub fn has_game(&self, id: u128) -> (r: bool)
        ensures
            r == self@.games.contains_key(id),
    {
        self.games.contains_key(&id)
    }

    fn send_message(&self, msg: &str, id: &u128) -> (r: Vec<Sent>)
        ensures
            sent_views(r@) == self@.message_to(msg@, *id),
    {
        let mut sent: Vec<Sent> = Vec::new();
        if self.sessions.contains_key(id) {
            sent.push(Sent { to: *id, message: Message(msg.to_owned()) });
            assert(sent_views(sent@) =~= seq![SentView { to: *id, text: msg@ }]);
        } else {
            assert(sent_views(sent@) =~= Seq::empty());
        }
        sent
    }

    /// Send a message of one player to the other player in the game
    fn relay(&self, msg: &str, game_id: &u128, sender: &u128) -> (r: Vec<Sent>)
        ensures
            sent_views(r@) == self@.relay(msg@, *game_id, *sender),
    {
        let to = match self.games.get(game_id) {
            Some(game) => {
                if game.player_one == *sender {
                    match game.player_two {
                        Some(two) => if two != *sender {
                            Some(two)
                        } else {
                            None
                        },
                        None => None,
                    }
                } else if game.player_two == Some(*sender) {
                    Some(game.player_one)
                } else {
                    None
                }
            },
            None => None,
        };
        match to {
            Some(other) => self.send_message(msg, &other),
            None => {
                let sent: Vec<Sent> = Vec::new();
                assert(sent_views(sent@) =~= Seq::empty());
                sent
            },
        }
    }

    /// A player connects: it is registered without a name and is sent its
    /// id. An id that is in use is refused and nothing changes.
    pub fn handle_connect(&mut self, msg: Connect) -> (r: Result<Vec<Sent>, String>)
        ensures
            final(self)@ == old(self)@.connect(msg.id),
            match old(self)@.connect_error(msg.id) {
                Some(why) => r matches Err(e) && e@ == why,
                None => r matches Ok(sent) && sent_views(sent@) == seq![
                    SentView {
                        to: msg.id,
                        text: "Connect {\"id\":\""@ + uuid_text(msg.id) + "\"}"@,
                    },
                ],
            },
    {
        if self.sessions.contains_key(&msg.id) {
            return Err("Player id is in use".to_owned());
        }
        // register session with unique id
        // each player will be assigned this unique id
        self.sessions.insert(msg.id, String::new());
        assert(self@.sessions =~= old(self)@.sessions.insert(msg.id, Seq::empty()));
        assert(self@.games =~= old(self)@.games);
        let mut res = "Connect {\"id\":\"".to_owned();
        res.append(uuid_to_text(msg.id).as_str());
        res.append("\"}");
        Ok(self.send_message(res.as_str(), &msg.id))
    }

    /// Creates the game that `msg` asks for under the id `id`, and tells the
    /// creator the id. A colour that is neither `w` nor `b`, a creator who is
    /// not registered and an id that a game has are refused.
    pub fn create_game_with_id(&mut self, id: u128, msg: CreateGame) -> (r: Result<
        Vec<Sent>,
        String,
    >)
        ensures
            final(self)@ == old(self)@.create_game(id, msg.name@, msg.player_one_id, msg.color@),
            match old(self)@.create_outcome(id, msg.player_one_id, msg.color@) {
                Some(why) => r matches Err(e) && e@ == why,
                None => r matches Ok(sent) && sent_views(sent@) == seq![
                    SentView { to: msg.player_one_id, text: "CreateGame "@ + uuid_text(id) },
                ],
            },
    {
        let white = msg.color.as_str().eq("w");
        let black = msg.color.as_str().eq("b");
        if !white && !black {
            return Err("unable to parse color".to_owned());
        }
        if !self.sessions.contains_key(&msg.player_one_id) {
            return Err("Player doesn't exist".to_owned());
        }
        if self.games.contains_key(&id) {
            return Err("Game id is in use".to_owned());
        }
        let player_one = msg.player_one_id;
        self.games.insert(id, Game::new(msg.name.clone(), player_one, msg.color.clone()));
        assert(self@.games =~= old(self)@.games.insert(
            id,
            new_game(msg.name@, player_one, msg.color@),
        ));
        assert(self@.sessions =~= old(self)@.sessions);
        // Send a status message back to the user who created the room
        let mut res = "CreateGame ".to_owned();
        res.append(uuid_to_text(id).as_str());
        Ok(self.send_message(res.as_str(), &player_one))
    }

    /// A player asks for a game. Where nothing stands against it, the game
    /// is created under an id drawn at random, which is handed back, and the
    /// creator is told the id. The draw can fail only where some id that can
    /// be drawn is a game's already.
    pub fn handle_create_game(&mut self, msg: CreateGame) -> (r: Result<(u128, Vec<Sent>), String>)
        ensures
            match old(self)@.create_error(msg.player_one_id, msg.color@) {
                Some(why) => {
                    &&& final(self)@ == old(self)@
                    &&& r matches Err(e)
                    &&& e@ == why
                },
                None => match r {
                    Ok((id, sent)) => {
                        &&& is_random_uuid(id)
                        &&& !old(self)@.games.contains_key(id)
                        &&& final(self)@ == old(self)@.create_game(
                            id,
                            msg.name@,
                            msg.player_one_id,
                            msg.color@,
                        )
                        &&& sent_views(sent@) == seq![
                            SentView {
                                to: msg.player_one_id,
                                text: "CreateGame "@ + uuid_text(id),
                            },
                        ]
                    },
                    Err(e) => {
                        &&& e@ == "Game id is in use"@
                        &&& final(self)@ == old(self)@
                        &&& old(self)@.some_id_taken()
                    },
                },
            },
    {
        let id = random_uuid();
        proof {
            if old(self)@.games.contains_key(id) {
                assert(old(self)@.some_id_taken());
            }
        }
        match self.create_game_with_id(id, msg) {
            Ok(sent) => Ok((id, sent)),
            Err(why) => Err(why),
        }
    }

    /// A player asks for the second seat of a game. A game that does not
    /// exist, is full or is the player's own is refused, and so is a player
    /// who is not registered; nothing changes then. Else the player is seated, the game's id is handed back and
    /// both players are told.
    pub fn handle_join_game(&mut self, msg: JoinGame) -> (r: (Result<u128, String>, Vec<Sent>))
        ensures
            final(self)@ == old(self)@.join_game(msg.id, msg.player_id),
            match old(self)@.join_error(msg.id, msg.player_id) {
                Some(why) => r.0 matches Err(e) && e@ == why && r.1@.len() == 0,
                None => {
                    &&& r.0 == Ok::<u128, String>(msg.id)
                    &&& sent_views(r.1@) == final(self)@.join_messages(
                        msg.id,
                        msg.player_id,
                        msg.player_name@,
                    )
                },
            },
    {
        let (joined, told, answer) = match self.games.get(&msg.id) {
            Some(game) => {
                if game.player_two.is_some() {
                    return (Err("Game is full".to_owned()), Vec::new());
                }
                if game.player_one == msg.player_id {
                    return (Err("Player is in the game already".to_owned()), Vec::new());
                }
                if !self.sessions.contains_key(&msg.player_id) {
                    return (Err("Player doesn't exist".to_owned()), Vec::new());
                }
                let player_one_name = match self.sessions.get(&game.player_one) {
                    Some(name) => name,
                    None => {
                        return (Err("Player doesn't exist".to_owned()), Vec::new());
                    },
                };
                let mut told = "PlayerJoined ".to_owned();
                told.append(
                    join_text(
                        msg.player_id,
                        msg.player_name.as_str(),
                        game.player_one_color.as_str(),
                    ).as_str(),
                );
                // send a message that contains the player one info to the second player
                // also let the player two knows what color they're playing as
                let answer = join_text(
                    game.player_one,
                    player_one_name.as_str(),
                    game.player_two_color.as_str(),
                );
                let mut named = "JoinGame {\"name\":\"".to_owned();
                named.append(game.name.as_str());
                named.append("\",");
                proof {
                    reveal_strlit("{\"player_id\":\"");
                }
                named.append(answer.as_str().substring_char(1, answer.as_str().unicode_len()));
                (
                    Game {
                        name: game.name.clone(),
                        player_one: game.player_one,
                        player_one_color: game.player_one_color.clone(),
                        player_two: Some(msg.player_id),
                        player_two_color: game.player_two_color.clone(),
                    },
                    (game.player_one, told),
                    named,
                )
            },
            None => {
                return (Err("Game doesn't exist".to_owned()), Vec::new());
            },
        };
        self.games.insert(msg.id, joined);
        assert(self@.games =~= old(self)@.join_game(msg.id, msg.player_id).games);
        assert(self@.sessions =~= old(self)@.sessions);
        // notify other player that the current player has joined
        let mut sent = self.send_message(told.1.as_str(), &told.0);
        let ghost first = sent@;
        let mut more = self.send_message(answer.as_str(), &msg.player_id);
        let ghost second = more@;
        sent.append(&mut more);
        assert(sent_views(sent@) =~= sent_views(first) + sent_views(second));
        (Ok(msg.id), sent)
    }

    /// A player moves: the move goes to the player on the other side of the
    /// board, and to nobody else. A player without a seat in the game moves
    /// nothing.
    pub fn handle_play_move(&self, msg: PlayMove) -> (r: Vec<Sent>)
        ensures
            sent_views(r@) == self@.relay(
                "PlayMove "@ + move_json(
                    msg.from@,
                    msg.to@,
                    match msg.promotion_piece {
                        Some(p) => Some(p@),
                        None => None,
                    },
                    msg.player_id,
                ),
                msg.game_id,
                msg.player_id,
            ),
    {
        let mut res = "PlayMove {\"from\":".to_owned();
        res.append(quoted(msg.from.as_str()).as_str());
        res.append(",\"to\":");
        res.append(quoted(msg.to.as_str()).as_str());
        res.append(",\"promotion_piece\":");
        match &msg.promotion_piece {
            Some(p) => {
                res.append(quoted(p.as_str()).as_str());
            },
            None => {
                res.append("null");
            },
        }
        res.append(",\"player_id\":\"");
        res.append(uuid_to_text(msg.player_id).as_str());
        res.append("\"}");
        proof {
            let json = move_json(
                msg.from@,
                msg.to@,
                match msg.promotion_piece {
                    Some(p) => Some(p@),
                    None => None,
                },
                msg.player_id,
            );
            assert(res@ =~= "PlayMove "@ + json) by {
                reveal_strlit("PlayMove {\"from\":");
                reveal_strlit("PlayMove ");
                reveal_strlit("{\"from\":");
            }
        }
        self.relay(res.as_str(), &msg.game_id, &msg.player_id)
    }

    /// A player takes a name. A name of more than `MAX_NAME_LENGTH`
    /// characters and a player who is not registered are refused, and
    /// nothing changes.
    pub fn handle_update_name(&mut self, msg: UpdateName) -> (r: Result<(), String>)
        ensures
            final(self)@ == old(self)@.update_name(msg.id, msg.name@),
            match old(self)@.name_error(msg.id, msg.name@) {
                Some(why) => r matches Err(e) && e@ == why,
                None => r is Ok,
            },
    {
        if msg.name.as_str().unicode_len() > MAX_NAME_LENGTH {
            return Err("Name is too long".to_owned());
        }
        if !self.sessions.contains_key(&msg.id) {
            return Err("Player doesn't exist".to_owned());
        }
        self.sessions.insert(msg.id, msg.name.clone());
        assert(self@.sessions =~= old(self)@.sessions.insert(msg.id, msg.name@));
        assert(self@.games =~= old(self)@.games);
        Ok(())
    }

    /// A status is passed on, as it is, to the player it is meant for.
    pub fn handle_update_game_status(&self, msg: UpdateGameStatus) -> (r: Vec<Sent>)
        ensures
            sent_views(r@) == self@.message_to(msg.status@, msg.to_id),
    {
        self.send_message(msg.status.as_str(), &msg.to_id)
    }
}

/// Writes the JSON in which a joining is passed on.
fn join_text(player_id: u128, player_name: &str, color: &str) -> (r: String)
    ensures
        r@ == join_json(player_id, player_name@, color@),
{
    let mut res = "{\"player_id\":\"".to_owned();
    res.append(uuid_to_text(player_id).as_str());
    res.append("\",\"player_name\":");
    res.append(quoted(player_name).as_str());
    res.append(",\"color\":");
    res.append(quoted(color).as_str());
    res.append("}");
    res
}

} // verus!
