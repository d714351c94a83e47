use vstd::prelude::*;

use crate::game_command::{GameCommand, GameCommandView, PlayMove};
use crate::uuids::{is_random_uuid, random_uuid};
use crate::websocket::session::Frame;
use crate::websocket_server::{Connect, ErrMessage};

verus! {

/// An ongoing websocket session between client and server, as far as it
/// decides anything: its id and the game it has joined.
#[derive(Debug, Clone)]
pub struct WsChessSession {
    pub id: u128,
    /// joined game
    pub game: Option<u128>,
}

/// What a session does about a frame.
#[derive(Debug, Clone)]
pub enum SessionStep {
    /// Hand the command to the server and wait for its answer.
    Send(GameCommand),
    /// Stop the session.
    Stop,
    /// Do nothing.
    Nothing,
}

/// A step as mathematical values.
pub enum SessionStepView {
    Send(GameCommandView),
    Stop,
    Nothing,
}

impl View for SessionStep {
    type V = SessionStepView;

    open spec fn view(&self) -> SessionStepView {
        match self {
            SessionStep::Send(c) => SessionStepView::Send(c@),
            SessionStep::Stop => SessionStepView::Stop,
            SessionStep::Nothing => SessionStepView::Nothing,
        }
    }
}

/// What a session does about the server's answer to a command.
#[derive(Debug, Clone)]
pub enum AnswerStep {
    /// The command was done.
    Done,
    /// Send this complaint to the client.
    Tell(ErrMessage),
    /// Stop the session.
    Stop,
}

impl WsChessSession {
    /// What a session that has joined `game` does about `frame`. A text that
    /// is a command goes to the server; a move goes there under the game
    /// that the session has joined, and a session that has joined none
    /// stops. A text that is no command stops the session. Other frames are
    /// passed over.
    pub open spec fn step_of(game: Option<u128>, frame: Frame) -> SessionStepView {
        match frame {
            Frame::Text(text) => match GameCommand::parsed(text@) {
                Err(_) => SessionStepView::Stop,
                Ok(GameCommandView::PlayMove { from, to, promotion_piece, player_id, game_id }) =>
                    match game {
                    Some(g) => SessionStepView::Send(
                        GameCommandView::PlayMove { from, to, promotion_piece, player_id, game_id: g },
                    ),
                    None => SessionStepView::Stop,
                },
                Ok(c) => SessionStepView::Send(c),
            },
            _ => SessionStepView::Nothing,
        }
    }

    /// A session under an id drawn at random, in no game.
    pub fn new() -> (r: WsChessSession)
        ensures
            is_random_uuid(r.id),
            r.game is None,
    {
        Self { id: random_uuid(), game: None }
    }

    /// What the session tells the server when it starts.
    pub fn started(&self) -> (r: Connect)
        ensures
            r.id == self.id,
    {
        Connect { id: self.id }
    }

    /// Decides what to do about a frame from the client.
    pub fn on_frame(&self, frame: Frame) -> (r: SessionStep)
        ensures
            r@ == WsChessSession::step_of(self.game, frame),
    {
        match frame {
            Frame::Text(text) => {
                match GameCommand::parse_str(text.as_str()) {
                    Ok(GameCommand::PlayMove(msg)) => {
                        match self.game {
                            Some(game_id) => SessionStep::Send(
                                GameCommand::PlayMove(
                                    PlayMove {
                                        from: msg.from,
                                        to: msg.to,
                                        promotion_piece: msg.promotion_piece,
                                        player_id: msg.player_id,
                                        game_id,
                                    },
                                ),
                            ),
                            None => SessionStep::Stop,
                        }
                    },
                    Ok(action) => SessionStep::Send(action),
                    Err(_) => SessionStep::Stop,
                }
            },
            Frame::Close => SessionStep::Nothing,
            Frame::Other => SessionStep::Nothing,
        }
    }

    /// Takes the server's answer to a joining: the id of the game, which the
    /// session has then joined, or a complaint, which goes to the client
    /// behind the word `Error`. Without an answer the session stops.
    pub fn on_joined(&mut self, reply: Option<Result<u128, String>>) -> (r: AnswerStep)
        ensures
            final(self).id == old(self).id,
            match reply {
                Some(Ok(g)) => final(self).game == Some(g) && r is Done,
                Some(Err(msg)) => {
                    &&& final(self).game == old(self).game
                    &&& r matches AnswerStep::Tell(e)
                    &&& e.0@ == "Error "@ + msg@
                },
                None => final(self).game == old(self).game && r is Stop,
            },
    {
        match reply {
            Some(Ok(game_id)) => {
                self.game = Some(game_id);
                AnswerStep::Done
            },
            Some(Err(msg)) => AnswerStep::Tell(ErrMessage::new(msg)),
            None => AnswerStep::Stop,
        }
    }

    /// Takes the server's answer to a creation, which is taken as the answer
    /// to a joining is: the creator has joined the game that was created.
    pub fn on_created(&mut self, reply: Option<Result<u128, String>>) -> (r: AnswerStep)
        ensures
            final(self).id == old(self).id,
            match reply {
                Some(Ok(g)) => final(self).game == Some(g) && r is Done,
                Some(Err(msg)) => {
                    &&& final(self).game == old(self).game
                    &&& r matches AnswerStep::Tell(e)
                    &&& e.0@ == "Error "@ + msg@
                },
                None => final(self).game == old(self).game && r is Stop,
            },
    {
        self.on_joined(reply)
    }

    /// Takes the server's answer to a renaming: a complaint goes to the
    /// client behind the word `Error`; without an answer the session stops.
    pub fn on_renamed(&self, reply: Option<Result<(), String>>) -> (r: AnswerStep)
        ensures
            match reply {
                Some(Ok(_)) => r is Done,
                Some(Err(msg)) => r matches AnswerStep::Tell(e) && e.0@ == "Error "@ + msg@,
                None => r is Stop,
            },
    {
        match reply {
            Some(Ok(())) => AnswerStep::Done,
            Some(Err(msg)) => AnswerStep::Tell(ErrMessage::new(msg)),
            None => AnswerStep::Stop,
        }
    }
}

/// A session that has joined no game sends no move to the server: on a text
/// that is a move it stops.
pub proof fn lemma_move_without_game_stops(text: String)
    requires
        GameCommand::parsed(text@) matches Ok(c) && c is PlayMove,
    ensures
        WsChessSession::step_of(None, Frame::Text(text)) == SessionStepView::Stop,
{
}

} // verus!
