use vstd::prelude::*;

use crate::ids::{is_id_char, random_id, ID_LENGTH};
use crate::json::{json_document, json_model, parse, JsonModel};
use crate::types::Color;
use crate::websocket::messages::{
    ClientMessage, Connect, CreateGame, CreateGameView, Disconnect, JoinGame, JoinGameView,
    MakeMove, MakeMoveView, ParseError, Type, UpdateGameState, UpdateGameStateView, UpdateName,
    UpdateNameView,
};

verus! {

/// A text on its way to one participant's connection.
#[derive(Debug, Clone, PartialEq, Eq)]
pub struct Message(pub String);

impl View for Message {
    type V = Seq<char>;

    open spec fn view(&self) -> Seq<char> {
        self.0@
    }
}

/// A message together with the participant whose connection is to carry it.
#[derive(Debug, Clone, PartialEq, Eq)]
pub struct Delivery {
    pub to: String,
    pub message: Message,
}

/// A delivery as mathematical values: the receiver's id and the text.
pub struct DeliveryView {
    pub to: Seq<char>,
    pub text: Seq<char>,
}

impl View for Delivery {
    type V = DeliveryView;

    open spec fn view(&self) -> DeliveryView {
        DeliveryView { to: self.to@, text: self.message@ }
    }
}

/// What a participant's record says, as mathematical values.
pub struct SessionView {
    pub id: Seq<char>,
    pub name: Seq<char>,
    pub joined_game: Option<Seq<char>>,
    pub color: Color,
}

/// The record kept of one connected participant.
#[derive(Debug, Clone)]
pub struct Session {
    pub id: String,
    /// The name of the player
    pub name: String,
    pub joined_game: Option<String>,
    pub color: Color,
}

impl View for Session {
    type V = SessionView;

    open spec fn view(&self) -> SessionView {
        SessionView {
            id: self.id@,
            name: self.name@,
            joined_game: match self.joined_game {
                Some(g) => Some(g@),
                None => None,
            },
            color: self.color,
        }
    }
}

impl SessionView {
    /// The record of a participant that has just connected.
    pub open spec fn fresh(id: Seq<char>) -> SessionView {
        SessionView { id, name: Seq::empty(), joined_game: None, color: Color::Unassigned }
    }

    /// The same participant, seated in no game.
    pub open spec fn unseated(self) -> SessionView {
        SessionView { joined_game: None, color: Color::Unassigned, ..self }
    }

    /// The same participant, seated in `game_id` with `color`.
    pub open spec fn seated(self, game_id: Seq<char>, color: Color) -> SessionView {
        SessionView { joined_game: Some(game_id), color, ..self }
    }

    /// The same participant under another name.
    pub open spec fn renamed(self, name: Seq<char>) -> SessionView {
        SessionView { name, ..self }
    }
}

/// What a client may ask of the server once it is connected.
#[derive(Debug, Clone)]
pub enum Request {
    CreateGame(CreateGame),
    JoinGame(JoinGame),
    UpdateName(UpdateName),
    MakeMove(MakeMove),
    UpdateGameState(UpdateGameState),
}

/// A request as mathematical values.
pub enum RequestView {
    CreateGame(CreateGameView),
    JoinGame(JoinGameView),
    UpdateName(UpdateNameView),
    MakeMove(MakeMoveView),
    UpdateGameState(UpdateGameStateView),
}

impl View for Request {
    type V = RequestView;

    open spec fn view(&self) -> RequestView {
        match self {
            Request::CreateGame(m) => RequestView::CreateGame(m@),
            Request::JoinGame(m) => RequestView::JoinGame(m@),
            Request::UpdateName(m) => RequestView::UpdateName(m@),
            Request::MakeMove(m) => RequestView::MakeMove(m@),
            Request::UpdateGameState(m) => RequestView::UpdateGameState(m@),
        }
    }
}

/// A request read from a payload of its kind, or the error that the payload
/// does not fit.
pub open spec fn fitted(request: Option<RequestView>) -> Result<Option<RequestView>, ParseError> {
    match request {
        Some(v) => Ok(Some(v)),
        None => Err(ParseError::Payload),
    }
}

/// The request that the document `doc` makes in the name of the player `id`.
/// A message of a kind that clients do not send asks for nothing.
pub open spec fn request_of(doc: JsonModel, id: Seq<char>) -> Result<
    Option<RequestView>,
    ParseError,
> {
    match ClientMessage::decoded(doc) {
        Err(e) => Err(e),
        Ok((Type::CreateGame, payload)) => fitted(
            match CreateGame::decoded(payload, id) {
                Some(v) => Some(RequestView::CreateGame(v)),
                None => None,
            },
        ),
        Ok((Type::JoinGame, payload)) => fitted(
            match JoinGame::decoded(payload, id) {
                Some(v) => Some(RequestView::JoinGame(v)),
                None => None,
            },
        ),
        Ok((Type::UpdateName, payload)) => fitted(
            match UpdateName::decoded(payload, id) {
                Some(v) => Some(RequestView::UpdateName(v)),
                None => None,
            },
        ),
        Ok((Type::MakeMove, payload)) => fitted(
            match MakeMove::decoded(payload, id) {
                Some(v) => Some(RequestView::MakeMove(v)),
                None => None,
            },
        ),
        Ok((Type::UpdateGameState, payload)) => fitted(
            match UpdateGameState::decoded(payload, id) {
                Some(v) => Some(RequestView::UpdateGameState(v)),
                None => None,
            },
        ),
        Ok(_) => Ok(None),
    }
}

/// The request that the text `text` makes in the name of the player `id`.
pub open spec fn request_of_text(text: Seq<char>, id: Seq<char>) -> Result<
    Option<RequestView>,
    ParseError,
> {
    match json_document(text) {
        Ok(doc) => request_of(doc, id),
        Err(_) => Err(ParseError::Syntax),
    }
}

/// That `r` is `expected`, request for request and error for error.
pub open spec fn is_request(
    r: Result<Option<Request>, ParseError>,
    expected: Result<Option<RequestView>, ParseError>,
) -> bool {
    match expected {
        Ok(Some(v)) => r matches Ok(Some(q)) && q@ == v,
        Ok(None) => r matches Ok(None),
        Err(e) => r matches Err(x) && x == e,
    }
}

/// Reads a request from a JSON document. The player's id comes from the
/// server, never from the document.
pub fn request_from_value(doc: &serde_json::Value, id: &str) -> (r: Result<
    Option<Request>,
    ParseError,
>)
    ensures
        is_request(r, request_of(json_model(*doc), id@)),
{
    let msg = match ClientMessage::from_value(doc) {
        Ok(msg) => msg,
        Err(e) => {
            return Err(e);
        },
    };
    let request = match msg.m_type {
        Type::CreateGame => match CreateGame::from_payload(msg.payload, id) {
            Some(m) => Some(Request::CreateGame(m)),
            None => None,
        },
        Type::JoinGame => match JoinGame::from_payload(msg.payload, id) {
            Some(m) => Some(Request::JoinGame(m)),
            None => None,
        },
        Type::UpdateName => match UpdateName::from_payload(msg.payload, id) {
            Some(m) => Some(Request::UpdateName(m)),
            None => None,
        },
        Type::MakeMove => match MakeMove::from_payload(msg.payload, id) {
            Some(m) => Some(Request::MakeMove(m)),
            None => None,
        },
        Type::UpdateGameState => match UpdateGameState::from_payload(msg.payload, id) {
            Some(m) => Some(Request::UpdateGameState(m)),
            None => None,
        },
        _ => {
            return Ok(None);
        },
    };
    match request {
        Some(q) => Ok(Some(q)),
        None => Err(ParseError::Payload),
    }
}

/// Reads a request from the text of a frame.
pub fn parse_text(text: &str, id: &str) -> (r: Result<Option<Request>, ParseError>)
    ensures
        is_request(r, request_of_text(text@, id@)),
{
    match parse(text) {
        Ok(doc) => request_from_value(&doc, id),
        Err(_) => Err(ParseError::Syntax),
    }
}

/// What arrives on a connection: a text, the wish to close, or something
/// that the server does not read.
#[derive(Debug, Clone)]
pub enum Frame {
    Text(String),
    Close,
    Other,
}

/// What a session does about a frame.
#[derive(Debug, Clone)]
pub enum SessionAction {
    /// Hand the request to the server.
    Forward(Request),
    /// Close the connection with this description of an error, and stop.
    Reject(String),
    /// Close the connection as the client asked, and stop.
    Close,
    /// Do nothing.
    Ignore,
}

/// What a refused text is answered with when the connection is closed:
/// of a text that is no JSON, what serde_json says of it; of a document
/// that is no request, what this library says of it.
pub open spec fn close_reason(text: Seq<char>, e: ParseError) -> Seq<char> {
    "Unable to parse sent message: "@ + (match json_document(text) {
        Err(why) => why,
        Ok(_) => e.text(),
    })
}

/// The answer of the session `id` to the frame `frame`.
pub open spec fn answers(action: SessionAction, frame: Frame, id: Seq<char>) -> bool {
    match frame {
        Frame::Text(text) => match request_of_text(text@, id) {
            Ok(Some(v)) => action matches SessionAction::Forward(q) && q@ == v,
            Ok(None) => action is Ignore,
            Err(e) => action matches SessionAction::Reject(why) && why@ == close_reason(text@, e),
        },
        Frame::Close => action is Close,
        Frame::Other => action is Ignore,
    }
}

/// One participant's connection, as the server knows it: by its id.
#[derive(Debug, Clone)]
pub struct SessionActor {
    pub id: String,
}

impl SessionActor {
    /// A session under an id newly drawn.
    pub fn new() -> (r: SessionActor)
        ensures
            r.id@.len() == ID_LENGTH,
            forall|i: int| 0 <= i < r.id@.len() ==> is_id_char(#[trigger] r.id@[i]),
    {
        SessionActor { id: random_id(ID_LENGTH) }
    }

    /// What the session tells the server when it starts.
    pub fn started(&self) -> (r: Connect)
        ensures
            r.m_type == Type::Connect,
            r.id@ == self.id@,
    {
        Connect::new(self.id.clone())
    }

    /// What the session tells the server when it stops.
    pub fn stopping(&self) -> (r: Disconnect)
        ensures
            r.m_type == Type::Disconnect,
            r.id@ == self.id@,
    {
        Disconnect::new(self.id.clone())
    }

    /// Decides what to do about a frame from the client. A text is read as a
    /// request in the session's name; one that is none closes the connection.
    pub fn handle(&self, frame: Frame) -> (r: SessionAction)
        ensures
            answers(r, frame, self.id@),
    {
        match frame {
            Frame::Text(text) => {
                let mut why = "Unable to parse sent message: ".to_owned();
                match parse(text.as_str()) {
                    Ok(doc) => match request_from_value(&doc, self.id.as_str()) {
                        Ok(Some(q)) => SessionAction::Forward(q),
                        Ok(None) => SessionAction::Ignore,
                        Err(e) => {
                            why.append(e.describe());
                            SessionAction::Reject(why)
                        },
                    },
                    Err(complaint) => {
                        why.append(complaint.as_str());
                        SessionAction::Reject(why)
                    },
                }
            },
            Frame::Close => SessionAction::Close,
            Frame::Other => SessionAction::Ignore,
        }
    }
}

} // verus!
