use vstd::prelude::*;

verus! {

/// What a player may ask of a lobby.
#[derive(Debug, Clone, PartialEq, Eq)]
pub enum GameAction {
    CreateRoom(String),
}

} // verus!
