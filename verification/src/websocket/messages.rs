use vstd::prelude::*;

use crate::json::{is_null, json_model, json_quoted, member, quoted, text_member, JsonModel};
use crate::types::{ChessMove, ChessMoveView, Color};
use crate::websocket::servers::in_memory::{Player, PlayerStatus, PlayerView};

verus! {

/// The kinds of message that travel between a client and the server.
#[derive(Debug, Clone, Copy, PartialEq, Eq, Structural)]
pub enum Type {
    Error,
    Connect,
    Disconnect,
    CreateGame,
    JoinGame,
    UpdateName,
    OpponentJoined,
    MakeMove,
    UpdateGameState,
}

impl Type {
    /// The tag that names the kind on the wire: its name in lower case.
    pub open spec fn tag(self) -> Seq<char> {
        match self {
            Type::Error => "error"@,
            Type::Connect => "connect"@,
            Type::Disconnect => "disconnect"@,
            Type::CreateGame => "creategame"@,
            Type::JoinGame => "joingame"@,
            Type::UpdateName => "updatename"@,
            Type::OpponentJoined => "opponentjoined"@,
            Type::MakeMove => "makemove"@,
            Type::UpdateGameState => "updategamestate"@,
        }
    }

    /// The kind that `tag` names, if it names one.
    pub open spec fn tagged(tag: Seq<char>) -> Option<Type> {
        if tag == "error"@ {
            Some(Type::Error)
        } else if tag == "connect"@ {
            Some(Type::Connect)
        } else if tag == "disconnect"@ {
            Some(Type::Disconnect)
        } else if tag == "creategame"@ {
            Some(Type::CreateGame)
        } else if tag == "joingame"@ {
            Some(Type::JoinGame)
        } else if tag == "updatename"@ {
            Some(Type::UpdateName)
        } else if tag == "opponentjoined"@ {
            Some(Type::OpponentJoined)
        } else if tag == "makemove"@ {
            Some(Type::MakeMove)
        } else if tag == "updategamestate"@ {
            Some(Type::UpdateGameState)
        } else {
            None
        }
    }

    pub fn as_tag(&self) -> (r: &'static str)
        ensures
            r@ == self.tag(),
    {
        match self {
            Type::Error => "error",
            Type::Connect => "connect",
            Type::Disconnect => "disconnect",
            Type::CreateGame => "creategame",
            Type::JoinGame => "joingame",
            Type::UpdateName => "updatename",
            Type::OpponentJoined => "opponentjoined",
            Type::MakeMove => "makemove",
            Type::UpdateGameState => "updategamestate",
        }
    }

    pub fn from_tag(tag: &str) -> (r: Option<Type>)
        ensures
            r == Type::tagged(tag@),
    {
        if tag.eq("error") {
            Some(Type::Error)
        } else if tag.eq("connect") {
            Some(Type::Connect)
        } else if tag.eq("disconnect") {
            Some(Type::Disconnect)
        } else if tag.eq("creategame") {
            Some(Type::CreateGame)
        } else if tag.eq("joingame") {
            Some(Type::JoinGame)
        } else if tag.eq("updatename") {
            Some(Type::UpdateName)
        } else if tag.eq("opponentjoined") {
            Some(Type::OpponentJoined)
        } else if tag.eq("makemove") {
            Some(Type::MakeMove)
        } else if tag.eq("updategamestate") {
            Some(Type::UpdateGameState)
        } else {
            None
        }
    }
}

impl PlayerStatus {
    /// The status that `name` names on the wire: the name of the variant.
    pub open spec fn named(name: Seq<char>) -> Option<PlayerStatus> {
        if name == "Playing"@ {
            Some(PlayerStatus::Playing)
        } else if name == "WonByCheckmate"@ {
            Some(PlayerStatus::WonByCheckmate)
        } else if name == "WonByOvertime"@ {
            Some(PlayerStatus::WonByOvertime)
        } else if name == "WonByResign"@ {
            Some(PlayerStatus::WonByResign)
        } else if name == "LostByCheckmate"@ {
            Some(PlayerStatus::LostByCheckmate)
        } else if name == "LostByOvertime"@ {
            Some(PlayerStatus::LostByOvertime)
        } else if name == "LostByResign"@ {
            Some(PlayerStatus::LostByResign)
        } else if name == "DrawByRepetition"@ {
            Some(PlayerStatus::DrawByRepetition)
        } else if name == "DrawByInsufficientMaterial"@ {
            Some(PlayerStatus::DrawByInsufficientMaterial)
        } else if name == "DrawByAgreement"@ {
            Some(PlayerStatus::DrawByAgreement)
        } else if name == "DrawByStalemate"@ {
            Some(PlayerStatus::DrawByStalemate)
        } else if name == "DrawBy50Moves"@ {
            Some(PlayerStatus::DrawBy50Moves)
        } else {
            None
        }
    }

    pub fn from_name(name: &str) -> (r: Option<PlayerStatus>)
        ensures
            r == PlayerStatus::named(name@),
    {
        if name.eq("Playing") {
            Some(PlayerStatus::Playing)
        } else if name.eq("WonByCheckmate") {
            Some(PlayerStatus::WonByCheckmate)
        } else if name.eq("WonByOvertime") {
            Some(PlayerStatus::WonByOvertime)
        } else if name.eq("WonByResign") {
            Some(PlayerStatus::WonByResign)
        } else if name.eq("LostByCheckmate") {
            Some(PlayerStatus::LostByCheckmate)
        } else if name.eq("LostByOvertime") {
            Some(PlayerStatus::LostByOvertime)
        } else if name.eq("LostByResign") {
            Some(PlayerStatus::LostByResign)
        } else if name.eq("DrawByRepetition") {
            Some(PlayerStatus::DrawByRepetition)
        } else if name.eq("DrawByInsufficientMaterial") {
            Some(PlayerStatus::DrawByInsufficientMaterial)
        } else if name.eq("DrawByAgreement") {
            Some(PlayerStatus::DrawByAgreement)
        } else if name.eq("DrawByStalemate") {
            Some(PlayerStatus::DrawByStalemate)
        } else if name.eq("DrawBy50Moves") {
            Some(PlayerStatus::DrawBy50Moves)
        } else {
            None
        }
    }
}

/// A participant has connected under `id`.
#[derive(Debug, Clone)]
pub struct Connect {
    pub m_type: Type,
    pub id: String,
}

impl Connect {
    pub fn new(id: String) -> (r: Connect)
        ensures
            r.m_type == Type::Connect,
            r.id@ == id@,
    {
        Connect { m_type: Type::Connect, id }
    }
}

/// The participant `id` has gone.
#[derive(Debug, Clone)]
pub struct Disconnect {
    pub m_type: Type,
    pub id: String,
}

impl Disconnect {
    pub fn new(id: String) -> (r: Disconnect)
        ensures
            r.m_type == Type::Disconnect,
            r.id@ == id@,
    {
        Disconnect { m_type: Type::Disconnect, id }
    }
}

/// A creation of a game as mathematical values.
pub struct CreateGameView {
    pub id: Seq<char>,
    pub player_id: Seq<char>,
    pub name: Seq<char>,
    pub color: Color,
}

/// The player `player_id` asks for a game called `name`, to play `color` in.
/// `id` is the game's id, once the server has given it one.
#[derive(Debug, Clone)]
pub struct CreateGame {
    pub id: String,
    pub player_id: String,
    pub name: String,
    pub color: Color,
}

impl View for CreateGame {
    type V = CreateGameView;

    open spec fn view(&self) -> CreateGameView {
        CreateGameView {
            id: self.id@,
            player_id: self.player_id@,
            name: self.name@,
            color: self.color,
        }
    }
}

/// A joining of a game as mathematical values.
pub struct JoinGameView {
    pub game_id: Seq<char>,
    pub player_id: Seq<char>,
}

/// The player `player_id` asks for the second seat of the game `game_id`.
#[derive(Debug, Clone)]
pub struct JoinGame {
    pub game_id: String,
    pub player_id: String,
}

impl View for JoinGame {
    type V = JoinGameView;

    open spec fn view(&self) -> JoinGameView {
        JoinGameView { game_id: self.game_id@, player_id: self.player_id@ }
    }
}

/// A request to move as mathematical values.
pub struct MakeMoveView {
    pub from: Seq<char>,
    pub to: Seq<char>,
    pub promotion_piece: Option<Seq<char>>,
    pub game_id: Seq<char>,
    pub player_id: Seq<char>,
}

/// The player `player_id` moves a piece.
#[derive(Debug, Clone)]
pub struct MakeMove {
    pub from: String,
    pub to: String,
    pub promotion_piece: Option<String>,
    pub game_id: String,
    pub player_id: String,
}

impl View for MakeMove {
    type V = MakeMoveView;

    open spec fn view(&self) -> MakeMoveView {
        MakeMoveView {
            from: self.from@,
            to: self.to@,
            promotion_piece: match self.promotion_piece {
                Some(p) => Some(p@),
                None => None,
            },
            game_id: self.game_id@,
            player_id: self.player_id@,
        }
    }
}

/// A renaming as mathematical values.
pub struct UpdateNameView {
    pub name: Seq<char>,
    pub player_id: Seq<char>,
}

/// The player `player_id` takes the name `name`.
#[derive(Debug, Clone)]
pub struct UpdateName {
    pub name: String,
    pub player_id: String,
}

impl View for UpdateName {
    type V = UpdateNameView;

    open spec fn view(&self) -> UpdateNameView {
        UpdateNameView { name: self.name@, player_id: self.player_id@ }
    }
}

/// A report of a game's end as mathematical values.
pub struct UpdateGameStateView {
    pub new_status: PlayerStatus,
    pub player_id: Seq<char>,
}

/// The player `player_id` reports how its game stands for it.
#[derive(Debug, Clone)]
pub struct UpdateGameState {
    pub new_status: PlayerStatus,
    pub player_id: String,
}

impl View for UpdateGameState {
    type V = UpdateGameStateView;

    open spec fn view(&self) -> UpdateGameStateView {
        UpdateGameStateView { new_status: self.new_status, player_id: self.player_id@ }
    }
}

/// Why a text from a client is not a request.
#[derive(Debug, Clone, Copy, PartialEq, Eq, Structural)]
pub enum ParseError {
    /// The text is not a JSON document.
    Syntax,
    /// The document is not an object with a `type` that is a string and a
    /// `payload`.
    Envelope,
    /// The `type` names no kind of message.
    UnknownType,
    /// The payload does not hold what a message of its kind needs.
    Payload,
}

impl ParseError {
    /// What is said of the error to the client.
    pub open spec fn text(self) -> Seq<char> {
        match self {
            ParseError::Syntax => "the message is not JSON"@,
            ParseError::Envelope => "the message lacks a type or a payload"@,
            ParseError::UnknownType => "the type of the message is unknown"@,
            ParseError::Payload => "the payload does not fit the type"@,
        }
    }

    pub fn describe(&self) -> (r: &'static str)
        ensures
            r@ == self.text(),
    {
        match self {
            ParseError::Syntax => "the message is not JSON",
            ParseError::Envelope => "the message lacks a type or a payload",
            ParseError::UnknownType => "the type of the message is unknown",
            ParseError::Payload => "the payload does not fit the type",
        }
    }
}

/// Represents a message that will be sent to the client
/// It is not meant to be sent between actors
pub struct ClientMessage<'a> {
    pub m_type: Type,
    pub payload: &'a serde_json::Value,
}

impl<'a> ClientMessage<'a> {
    /// The kind and the payload of the message that the document `doc` is.
    pub open spec fn decoded(doc: JsonModel) -> Result<(Type, JsonModel), ParseError> {
        match (doc.text_member("type"@), doc.member("payload"@)) {
            (Some(tag), Some(payload)) => match Type::tagged(tag) {
                Some(t) => Ok((t, payload)),
                None => Err(ParseError::UnknownType),
            },
            _ => Err(ParseError::Envelope),
        }
    }

    /// Reads the envelope of a message: its `type` and its `payload`.
    pub fn from_value(doc: &'a serde_json::Value) -> (r: Result<ClientMessage<'a>, ParseError>)
        ensures
            match ClientMessage::decoded(json_model(*doc)) {
                Ok((t, payload)) => r matches Ok(m) && m.m_type == t && json_model(*m.payload)
                    == payload,
                Err(e) => r matches Err(x) && x == e,
            },
    {
        let tag = match text_member(doc, "type") {
            Some(tag) => tag,
            None => {
                return Err(ParseError::Envelope);
            },
        };
        let payload = match member(doc, "payload") {
            Some(p) => p,
            None => {
                return Err(ParseError::Envelope);
            },
        };
        match Type::from_tag(tag) {
            Some(t) => Ok(ClientMessage { m_type: t, payload }),
            None => Err(ParseError::UnknownType),
        }
    }

    /// The text of a message of kind `t` whose payload is written `payload`.
    pub open spec fn framed(t: Type, payload: Seq<char>) -> Seq<char> {
        "{\"type\":\""@ + t.tag() + "\",\"payload\":"@ + payload + "}"@
    }

    /// Writes a message of kind `t` around a payload that is JSON already.
    pub fn frame(t: Type, payload: &str) -> (r: String)
        ensures
            r@ == ClientMessage::framed(t, payload@),
    {
        let mut text = "{\"type\":\"".to_owned();
        text.append(t.as_tag());
        text.append("\",\"payload\":");
        text.append(payload);
        text.append("}");
        text
    }
}

impl Connect {
    /// The payload that tells a participant its id.
    pub open spec fn payload(id: Seq<char>) -> Seq<char> {
        "{\"id\":"@ + json_quoted(id) + "}"@
    }

    /// The acknowledgement of a connection: the participant's id.
    pub open spec fn reply(id: Seq<char>) -> Seq<char> {
        ClientMessage::framed(Type::Connect, Connect::payload(id))
    }

    pub fn to_reply(&self) -> (r: String)
        ensures
            r@ == Connect::reply(self.id@),
    {
        let mut payload = "{\"id\":".to_owned();
        payload.append(quoted(self.id.as_str()).as_str());
        payload.append("}");
        ClientMessage::frame(Type::Connect, payload.as_str())
    }
}

impl CreateGame {
    /// The creation that the payload `payload` asks for in the name of
    /// `player_id`: it needs a `name` and a `color` that is `"w"` or `"b"`.
    pub open spec fn decoded(payload: JsonModel, player_id: Seq<char>) -> Option<CreateGameView> {
        match (payload.text_member("name"@), payload.text_member("color"@)) {
            (Some(name), Some(code)) => match Color::coded(code) {
                Some(color) => Some(CreateGameView { id: Seq::empty(), player_id, name, color }),
                None => None,
            },
            _ => None,
        }
    }

    pub fn from_payload(payload: &serde_json::Value, player_id: &str) -> (r: Option<CreateGame>)
        ensures
            match CreateGame::decoded(json_model(*payload), player_id@) {
                Some(v) => r matches Some(m) && m@ == v,
                None => r is None,
            },
    {
        let name = match text_member(payload, "name") {
            Some(name) => name,
            None => {
                return None;
            },
        };
        let code = match text_member(payload, "color") {
            Some(code) => code,
            None => {
                return None;
            },
        };
        match Color::from_code(code) {
            Some(color) => Some(
                CreateGame {
                    id: String::new(),
                    player_id: player_id.to_owned(),
                    name: name.to_owned(),
                    color,
                },
            ),
            None => None,
        }
    }

    /// The answer to the creator of a game: the game's id.
    pub open spec fn reply(id: Seq<char>) -> Seq<char> {
        ClientMessage::framed(Type::CreateGame, Connect::payload(id))
    }

    pub fn to_reply(&self) -> (r: String)
        ensures
            r@ == CreateGame::reply(self.id@),
    {
        let mut payload = "{\"id\":".to_owned();
        payload.append(quoted(self.id.as_str()).as_str());
        payload.append("}");
        ClientMessage::frame(Type::CreateGame, payload.as_str())
    }
}

impl JoinGame {
    /// The joining that the payload `payload` asks for in the name of
    /// `player_id`: it needs a `game_id`.
    pub open spec fn decoded(payload: JsonModel, player_id: Seq<char>) -> Option<JoinGameView> {
        match payload.text_member("game_id"@) {
            Some(game_id) => Some(JoinGameView { game_id, player_id }),
            None => None,
        }
    }

    pub fn from_payload(payload: &serde_json::Value, player_id: &str) -> (r: Option<JoinGame>)
        ensures
            match JoinGame::decoded(json_model(*payload), player_id@) {
                Some(v) => r matches Some(m) && m@ == v,
                None => r is None,
            },
    {
        match text_member(payload, "game_id") {
            Some(game_id) => Some(
                JoinGame { game_id: game_id.to_owned(), player_id: player_id.to_owned() },
            ),
            None => None,
        }
    }
}

impl MakeMove {
    /// The piece that a payload promotes to, where it is well formed: no
    /// member or `null` for none, else a string.
    pub open spec fn promotion(payload: JsonModel) -> Option<Option<Seq<char>>> {
        match payload.member("promotion_piece"@) {
            None => Some(None),
            Some(JsonModel::Null) => Some(None),
            Some(JsonModel::Text(p)) => Some(Some(p)),
            Some(_) => None,
        }
    }

    /// The move that the payload `payload` asks for in the name of
    /// `player_id`: it needs `from` and `to`, and may promote.
    pub open spec fn decoded(payload: JsonModel, player_id: Seq<char>) -> Option<MakeMoveView> {
        match (
            payload.text_member("from"@),
            payload.text_member("to"@),
            MakeMove::promotion(payload),
        ) {
            (Some(from), Some(to), Some(promotion_piece)) => Some(
                MakeMoveView { from, to, promotion_piece, game_id: Seq::empty(), player_id },
            ),
            _ => None,
        }
    }

    pub fn from_payload(payload: &serde_json::Value, player_id: &str) -> (r: Option<MakeMove>)
        ensures
            match MakeMove::decoded(json_model(*payload), player_id@) {
                Some(v) => r matches Some(m) && m@ == v,
                None => r is None,
            },
    {
        let from = match text_member(payload, "from") {
            Some(from) => from,
            None => {
                return None;
            },
        };
        let to = match text_member(payload, "to") {
            Some(to) => to,
            None => {
                return None;
            },
        };
        let promotion_piece = match member(payload, "promotion_piece") {
            None => None,
            Some(p) => match crate::json::as_text(p) {
                Some(piece) => Some(piece.to_owned()),
                None => {
                    if is_null(p) {
                        None
                    } else {
                        return None;
                    }
                },
            },
        };
        Some(
            MakeMove {
                from: from.to_owned(),
                to: to.to_owned(),
                promotion_piece,
                game_id: String::new(),
                player_id: player_id.to_owned(),
            },
        )
    }
}

impl ChessMove {
    /// The payload that carries a move: its members in the order of their
    /// names.
    pub open spec fn payload(m: ChessMoveView) -> Seq<char> {
        "{\"from\":"@ + json_quoted(m.from) + ",\"promotion_piece\":"@ + (match m.promotion_piece {
            Some(p) => json_quoted(p),
            None => "null"@,
        }) + ",\"to\":"@ + json_quoted(m.to) + "}"@
    }

    /// The text by which a move is passed on to the opponent.
    pub open spec fn relayed(m: ChessMoveView) -> Seq<char> {
        ClientMessage::framed(Type::MakeMove, ChessMove::payload(m))
    }

    pub fn to_relay(&self) -> (r: String)
        ensures
            r@ == ChessMove::relayed(self@),
    {
        let mut payload = "{\"from\":".to_owned();
        payload.append(quoted(self.from.as_str()).as_str());
        payload.append(",\"promotion_piece\":");
        match &self.promotion_piece {
            Some(p) => {
                payload.append(quoted(p.as_str()).as_str());
            },
            None => {
                payload.append("null");
            },
        }
        payload.append(",\"to\":");
        payload.append(quoted(self.to.as_str()).as_str());
        payload.append("}");
        ClientMessage::frame(Type::MakeMove, payload.as_str())
    }
}

impl UpdateName {
    /// The renaming that the payload `payload` asks for in the name of
    /// `player_id`: it needs a `name`.
    pub open spec fn decoded(payload: JsonModel, player_id: Seq<char>) -> Option<UpdateNameView> {
        match payload.text_member("name"@) {
            Some(name) => Some(UpdateNameView { name, player_id }),
            None => None,
        }
    }

    pub fn from_payload(payload: &serde_json::Value, player_id: &str) -> (r: Option<UpdateName>)
        ensures
            match UpdateName::decoded(json_model(*payload), player_id@) {
                Some(v) => r matches Some(m) && m@ == v,
                None => r is None,
            },
    {
        match text_member(payload, "name") {
            Some(name) => Some(
                UpdateName { name: name.to_owned(), player_id: player_id.to_owned() },
            ),
            None => None,
        }
    }
}

impl UpdateGameState {
    /// The report that the payload `payload` makes in the name of
    /// `player_id`: it needs a `new_status` that names a status.
    pub open spec fn decoded(payload: JsonModel, player_id: Seq<char>) -> Option<
        UpdateGameStateView,
    > {
        match payload.text_member("new_status"@) {
            Some(name) => match PlayerStatus::named(name) {
                Some(new_status) => Some(UpdateGameStateView { new_status, player_id }),
                None => None,
            },
            None => None,
        }
    }

    pub fn from_payload(payload: &serde_json::Value, player_id: &str) -> (r: Option<
        UpdateGameState,
    >)
        ensures
            match UpdateGameState::decoded(json_model(*payload), player_id@) {
                Some(v) => r matches Some(m) && m@ == v,
                None => r is None,
            },
    {
        match text_member(payload, "new_status") {
            Some(name) => match PlayerStatus::from_name(name) {
                Some(new_status) => Some(
                    UpdateGameState { new_status, player_id: player_id.to_owned() },
                ),
                None => None,
            },
            None => None,
        }
    }
}

impl Player {
    /// The payload that describes a player: its members in the order of their
    /// names. A player without a colour has `null` for one.
    pub open spec fn payload(p: PlayerView) -> Seq<char> {
        "{\"color\":"@ + (match p.color.code() {
            Some(c) => "\""@ + c + "\""@,
            None => "null"@,
        }) + ",\"id\":"@ + json_quoted(p.id) + ",\"name\":"@ + json_quoted(p.name) + "}"@
    }

    /// The text that tells a player who sits on the other side; where nobody
    /// does, the payload is `null`.
    pub open spec fn opponent_joined(p: Option<PlayerView>) -> Seq<char> {
        ClientMessage::framed(
            Type::OpponentJoined,
            match p {
                Some(v) => Player::payload(v),
                None => "null"@,
            },
        )
    }

    pub fn to_payload(&self) -> (r: String)
        ensures
            r@ == Player::payload(self@),
    {
        let mut payload = "{\"color\":".to_owned();
        match self.color.as_code() {
            Some(c) => {
                payload.append("\"");
                payload.append(c);
                payload.append("\"");
            },
            None => {
                payload.append("null");
            },
        }
        payload.append(",\"id\":");
        payload.append(quoted(self.id.as_str()).as_str());
        payload.append(",\"name\":");
        payload.append(quoted(self.name.as_str()).as_str());
        payload.append("}");
        payload
    }

    pub fn to_opponent_joined(player: &Option<Player>) -> (r: String)
        ensures
            r@ == Player::opponent_joined(
                match *player {
                    Some(p) => Some(p@),
                    None => None,
                },
            ),
    {
        match player {
            Some(p) => ClientMessage::frame(Type::OpponentJoined, p.to_payload().as_str()),
            None => ClientMessage::frame(Type::OpponentJoined, "null"),
        }
    }
}

/// The text that tells a client what went wrong with its request.
pub open spec fn error_notice(reason: Seq<char>) -> Seq<char> {
    ClientMessage::framed(Type::Error, "{\"message\":"@ + json_quoted(reason) + "}"@)
}

pub fn to_error_notice(reason: &str) -> (r: String)
    ensures
        r@ == error_notice(reason@),
{
    let mut payload = "{\"message\":".to_owned();
    payload.append(quoted(reason).as_str());
    payload.append("}");
    ClientMessage::frame(Type::Error, payload.as_str())
}

} // verus!
