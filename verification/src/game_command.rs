use vstd::prelude::*;

use crate::json::{
    json_model, json_read, optional_text_member, parse, text_member, JsonModel,
};
use crate::text::{cut_at_space, split_at_space};
use crate::uuids::{uuid_of, uuid_value};

verus! {

/// A player asks for a game called `name`, to play `color` in.
#[derive(Debug, Clone)]
pub struct CreateGame {
    pub name: String,
    pub player_one_id: u128,
    // player one color
    pub color: String,
}

/// A player asks for the second seat of the game `id`.
#[derive(Debug, Clone)]
pub struct JoinGame {
    pub id: u128,
    pub player_id: u128,
    pub player_name: String,
    pub color: String,
}

/// A player moves a piece in the game `game_id`.
#[derive(Debug, Clone)]
pub struct PlayMove {
    pub from: String,
    pub to: String,
    pub promotion_piece: Option<String>,
    pub player_id: u128,
    pub game_id: u128,
}

/// The player `id` takes the name `name`.
#[derive(Debug, Clone)]
pub struct UpdateName {
    pub name: String,
    pub id: u128,
}

/// The player `to_id` is to be told `status`.
#[derive(Debug, Clone)]
pub struct UpdateGameStatus {
    pub to_id: u128,
    pub status: String,
}

/// What a client may ask of the server in one line of text.
#[derive(Debug, Clone)]
pub enum GameCommand {
    CreateGame(CreateGame),
    JoinGame(JoinGame),
    PlayMove(PlayMove),
    UpdateName(UpdateName),
    UpdateGameStatus(UpdateGameStatus),
}

/// A command as mathematical values.
pub enum GameCommandView {
    CreateGame { name: Seq<char>, player_one_id: u128, color: Seq<char> },
    JoinGame { id: u128, player_id: u128, player_name: Seq<char>, color: Seq<char> },
    PlayMove {
        from: Seq<char>,
        to: Seq<char>,
        promotion_piece: Option<Seq<char>>,
        player_id: u128,
        game_id: u128,
    },
    UpdateName { name: Seq<char>, id: u128 },
    UpdateGameStatus { to_id: u128, status: Seq<char> },
}

impl View for GameCommand {
    type V = GameCommandView;

    open spec fn view(&self) -> GameCommandView {
        match self {
            GameCommand::CreateGame(m) => GameCommandView::CreateGame {
                name: m.name@,
                player_one_id: m.player_one_id,
                color: m.color@,
            },
            GameCommand::JoinGame(m) => GameCommandView::JoinGame {
                id: m.id,
                player_id: m.player_id,
                player_name: m.player_name@,
                color: m.color@,
            },
            GameCommand::PlayMove(m) => GameCommandView::PlayMove {
                from: m.from@,
                to: m.to@,
                promotion_piece: match m.promotion_piece {
                    Some(p) => Some(p@),
                    None => None,
                },
                player_id: m.player_id,
                game_id: m.game_id,
            },
            GameCommand::UpdateName(m) => GameCommandView::UpdateName { name: m.name@, id: m.id },
            GameCommand::UpdateGameStatus(m) => GameCommandView::UpdateGameStatus {
                to_id: m.to_id,
                status: m.status@,
            },
        }
    }
}

/// Whether `color` is one of the two letters that stand for a colour.
pub open spec fn is_color(color: Seq<char>) -> bool {
    color == "w"@ || color == "b"@
}

/// The id written as a string under `key` of the object `doc`.
pub open spec fn uuid_member(doc: JsonModel, key: Seq<char>) -> Option<u128> {
    match doc.text_member(key) {
        Some(t) => uuid_value(t),
        None => None,
    }
}

/// Reads the id written as a string under `key` of the object `doc`.
pub fn read_uuid_member(doc: &serde_json::Value, key: &str) -> (r: Option<u128>)
    ensures
        r == uuid_member(json_model(*doc), key@),
{
    match text_member(doc, key) {
        Some(t) => uuid_of(t),
        None => None,
    }
}

impl CreateGame {
    /// The creation that the data `doc` describes: it needs a `name`, a
    /// `player_one_id` and a `color` that is `"w"` or `"b"`.
    pub open spec fn decoded(doc: JsonModel) -> Option<GameCommandView> {
        match (
            doc.text_member("name"@),
            uuid_member(doc, "player_one_id"@),
            doc.text_member("color"@),
        ) {
            (Some(name), Some(player_one_id), Some(color)) => if is_color(color) {
                Some(GameCommandView::CreateGame { name, player_one_id, color })
            } else {
                None
            },
            _ => None,
        }
    }

    pub fn from_value(doc: &serde_json::Value) -> (r: Option<CreateGame>)
        ensures
            match CreateGame::decoded(json_model(*doc)) {
                Some(v) => r matches Some(m) && GameCommand::CreateGame(m)@ == v,
                None => r is None,
            },
    {
        let name = match text_member(doc, "name") {
            Some(t) => t,
            None => {
                return None;
            },
        };
        let player_one_id = match read_uuid_member(doc, "player_one_id") {
            Some(id) => id,
            None => {
                return None;
            },
        };
        let color = match text_member(doc, "color") {
            Some(t) => t,
            None => {
                return None;
            },
        };
        let white = color.eq("w");
        let black = color.eq("b");
        if !white && !black {
            return None;
        }
        Some(CreateGame { name: name.to_owned(), player_one_id, color: color.to_owned() })
    }
}

impl JoinGame {
    /// The joining that the data `doc` describes: it needs an `id`, a
    /// `player_id` and a `player_name`. The colour is the server's to give.
    pub open spec fn decoded(doc: JsonModel) -> Option<GameCommandView> {
        match (
            uuid_member(doc, "id"@),
            uuid_member(doc, "player_id"@),
            doc.text_member("player_name"@),
        ) {
            (Some(id), Some(player_id), Some(player_name)) => Some(
                GameCommandView::JoinGame { id, player_id, player_name, color: Seq::empty() },
            ),
            _ => None,
        }
    }

    pub fn from_value(doc: &serde_json::Value) -> (r: Option<JoinGame>)
        ensures
            match JoinGame::decoded(json_model(*doc)) {
                Some(v) => r matches Some(m) && GameCommand::JoinGame(m)@ == v,
                None => r is None,
            },
    {
        let id = match read_uuid_member(doc, "id") {
            Some(id) => id,
            None => {
                return None;
            },
        };
        let player_id = match read_uuid_member(doc, "player_id") {
            Some(id) => id,
            None => {
                return None;
            },
        };
        let player_name = match text_member(doc, "player_name") {
            Some(t) => t,
            None => {
                return None;
            },
        };
        Some(JoinGame { id, player_id, player_name: player_name.to_owned(), color: String::new() })
    }
}

impl PlayMove {
    /// The move that the data `doc` describes: it needs `from`, `to` and a
    /// `player_id`, and may promote. The game is the session's to name: until
    /// then it is the id of all zeros.
    pub open spec fn decoded(doc: JsonModel) -> Option<GameCommandView> {
        match (
            doc.text_member("from"@),
            doc.text_member("to"@),
            doc.optional_text_member("promotion_piece"@),
            uuid_member(doc, "player_id"@),
        ) {
            (Some(from), Some(to), Some(promotion_piece), Some(player_id)) => Some(
                GameCommandView::PlayMove { from, to, promotion_piece, player_id, game_id: 0 },
            ),
            _ => None,
        }
    }

    pub fn from_value(doc: &serde_json::Value) -> (r: Option<PlayMove>)
        ensures
            match PlayMove::decoded(json_model(*doc)) {
                Some(v) => r matches Some(m) && GameCommand::PlayMove(m)@ == v,
                None => r is None,
            },
    {
        let from = match text_member(doc, "from") {
            Some(t) => t,
            None => {
                return None;
            },
        };
        let to = match text_member(doc, "to") {
            Some(t) => t,
            None => {
                return None;
            },
        };
        let promotion_piece = match optional_text_member(doc, "promotion_piece") {
            Some(p) => p,
            None => {
                return None;
            },
        };
        let player_id = match read_uuid_member(doc, "player_id") {
            Some(id) => id,
            None => {
                return None;
            },
        };
        Some(
            PlayMove {
                from: from.to_owned(),
                to: to.to_owned(),
                promotion_piece,
                player_id,
                game_id: 0,
            },
        )
    }
}

impl UpdateName {
    /// The renaming that the data `doc` describes: it needs a `name` and an
    /// `id`.
    pub open spec fn decoded(doc: JsonModel) -> Option<GameCommandView> {
        match (doc.text_member("name"@), uuid_member(doc, "id"@)) {
            (Some(name), Some(id)) => Some(GameCommandView::UpdateName { name, id }),
            _ => None,
        }
    }

    pub fn from_value(doc: &serde_json::Value) -> (r: Option<UpdateName>)
        ensures
            match UpdateName::decoded(json_model(*doc)) {
                Some(v) => r matches Some(m) && GameCommand::UpdateName(m)@ == v,
                None => r is None,
            },
    {
        let name = match text_member(doc, "name") {
            Some(t) => t,
            None => {
                return None;
            },
        };
        match read_uuid_member(doc, "id") {
            Some(id) => Some(UpdateName { name: name.to_owned(), id }),
            None => None,
        }
    }
}

impl UpdateGameStatus {
    /// The notice that the data `doc` describes: it needs a `to_id` and a
    /// `status`.
    pub open spec fn decoded(doc: JsonModel) -> Option<GameCommandView> {
        match (uuid_member(doc, "to_id"@), doc.text_member("status"@)) {
            (Some(to_id), Some(status)) => Some(GameCommandView::UpdateGameStatus { to_id, status }),
            _ => None,
        }
    }

    pub fn from_value(doc: &serde_json::Value) -> (r: Option<UpdateGameStatus>)
        ensures
            match UpdateGameStatus::decoded(json_model(*doc)) {
                Some(v) => r matches Some(m) && GameCommand::UpdateGameStatus(m)@ == v,
                None => r is None,
            },
    {
        let to_id = match read_uuid_member(doc, "to_id") {
            Some(id) => id,
            None => {
                return None;
            },
        };
        match text_member(doc, "status") {
            Some(status) => Some(UpdateGameStatus { to_id, status: status.to_owned() }),
            None => None,
        }
    }
}

/// The command read from the data of a line, or the complaint `why` where
/// the data is no JSON document or does not describe the command.
pub open spec fn fitted(
    doc: Option<JsonModel>,
    decoded: spec_fn(JsonModel) -> Option<GameCommandView>,
    why: Seq<char>,
) -> Result<GameCommandView, Seq<char>> {
    match doc {
        Some(d) => match decoded(d) {
            Some(v) => Ok(v),
            None => Err(why),
        },
        None => Err(why),
    }
}

/*
    A command has a form of "{commandName} {data}"
    Data is a json string and its structure depends on the command
*/

impl GameCommand {
    /// The command that the line `s` is: the word before its first space
    /// names the kind, and what follows the space is the data.
    pub open spec fn parsed(s: Seq<char>) -> Result<GameCommandView, Seq<char>> {
        match cut_at_space(s) {
            None => Err("Unable to parse command"@),
            Some((word, data)) => {
                let doc = json_read(data);
                if word == "CreateGame"@ {
                    fitted(
                        doc,
                        |d: JsonModel| CreateGame::decoded(d),
                        "incorrect data format for CreateGame"@,
                    )
                } else if word == "JoinGame"@ {
                    fitted(
                        doc,
                        |d: JsonModel| JoinGame::decoded(d),
                        "incorrect data format for JoinGame"@,
                    )
                } else if word == "Move"@ {
                    fitted(
                        doc,
                        |d: JsonModel| PlayMove::decoded(d),
                        "incorrect data format for PlayMove"@,
                    )
                } else if word == "UpdateName"@ {
                    fitted(
                        doc,
                        |d: JsonModel| UpdateName::decoded(d),
                        "incorrect data format for UpdateName"@,
                    )
                } else if word == "UpdateGameStatus"@ {
                    fitted(
                        doc,
                        |d: JsonModel| UpdateGameStatus::decoded(d),
                        "incorrect data format for UpdateGameStatus"@,
                    )
                } else {
                    Err("Unable to parse command"@)
                }
            },
        }
    }

    pub fn parse_str(s: &str) -> (r: Result<GameCommand, &'static str>)
        ensures
            match GameCommand::parsed(s@) {
                Ok(v) => r matches Ok(c) && c@ == v,
                Err(why) => r matches Err(e) && e@ == why,
            },
    {
        let (word, data) = match split_at_space(s) {
            Some(cut) => cut,
            None => {
                return Err("Unable to parse command");
            },
        };
        if word.eq("CreateGame") {
            let game_data = match parse(data) {
                Ok(doc) => CreateGame::from_value(&doc),
                Err(_) => None,
            };
            match game_data {
                Some(m) => Ok(GameCommand::CreateGame(m)),
                None => Err("incorrect data format for CreateGame"),
            }
        } else if word.eq("JoinGame") {
            let game_data = match parse(data) {
                Ok(doc) => JoinGame::from_value(&doc),
                Err(_) => None,
            };
            match game_data {
                Some(m) => Ok(GameCommand::JoinGame(m)),
                None => Err("incorrect data format for JoinGame"),
            }
        } else if word.eq("Move") {
            let game_data = match parse(data) {
                Ok(doc) => PlayMove::from_value(&doc),
                Err(_) => None,
            };
            match game_data {
                Some(m) => Ok(GameCommand::PlayMove(m)),
                None => Err("incorrect data format for PlayMove"),
            }
        } else if word.eq("UpdateName") {
            let game_data = match parse(data) {
                Ok(doc) => UpdateName::from_value(&doc),
                Err(_) => None,
            };
            match game_data {
                Some(m) => Ok(GameCommand::UpdateName(m)),
                None => Err("incorrect data format for UpdateName"),
            }
        } else if word.eq("UpdateGameStatus") {
            let game_data = match parse(data) {
                Ok(doc) => UpdateGameStatus::from_value(&doc),
                Err(_) => None,
            };
            match game_data {
                Some(m) => Ok(GameCommand::UpdateGameStatus(m)),
                None => Err("incorrect data format for UpdateGameStatus"),
            }
        } else {
            Err("Unable to parse command")
        }
    }
}

} // verus!
