use vstd::prelude::*;

use crate::types::Color;
use crate::websocket::server::{connect_refusal, step, Event};
use crate::websocket::servers::state::{
    lemma_create_game_wf, lemma_create_session_wf, lemma_delete_session_wf, lemma_join_game_wf,
    lemma_update_game_state_wf, lemma_update_session_name_wf, JoinError, ServerState,
};

verus! {

/// The state of a server that admits `limit` players after it has handled
/// the events `events`, one after the other, starting in `state`.
pub open spec fn run(state: ServerState, limit: nat, events: Seq<Event>) -> ServerState
    decreases events.len(),
{
    if events.len() == 0 {
        state
    } else {
        step(run(state, limit, events.drop_last()), limit, events.last())
    }
}

/// The events by which the participants `ids` connect, in their order.
pub open spec fn connects(ids: Seq<Seq<char>>) -> Seq<Event> {
    ids.map_values(|id: Seq<char>| Event::Connect { id })
}

/// That no two records of `state` carry the same id.
pub open spec fn ids_distinct(state: ServerState) -> bool {
    forall|a: Seq<char>, b: Seq<char>|
        #![trigger state.sessions[a], state.sessions[b]]
        state.sessions.contains_key(a) && state.sessions.contains_key(b) && a != b
            ==> state.sessions[a].id != state.sessions[b].id
}

/// Whatever a server handles, it keeps its invariant.
pub proof fn lemma_step_wf(state: ServerState, limit: nat, event: Event)
    requires
        state.wf(),
    ensures
        step(state, limit, event).wf(),
{
    match event {
        Event::Connect { id } => {
            lemma_create_session_wf(state, id);
        },
        Event::Disconnect { id } => {
            lemma_delete_session_wf(state, id);
        },
        Event::CreateGame { id, name, player_id, color } => {
            lemma_create_game_wf(state, id, name, player_id, color);
        },
        Event::JoinGame { game_id, player_id } => {
            lemma_join_game_wf(state, game_id, player_id);
        },
        Event::MakeMove { player_id } => {},
        Event::UpdateGameState { player_id } => {
            lemma_update_game_state_wf(state, player_id);
        },
        Event::UpdateName { player_id, name } => {
            lemma_update_session_name_wf(state, player_id, name);
        },
    }
}

/// After every sequence of events a server keeps its invariant: each player
/// is seated in at most one game and exactly where the games say, and no
/// game lists a player who is not registered.
pub proof fn lemma_run_wf(state: ServerState, limit: nat, events: Seq<Event>)
    requires
        state.wf(),
    ensures
        run(state, limit, events).wf(),
    decreases events.len(),
{
    if events.len() > 0 {
        lemma_run_wf(state, limit, events.drop_last());
        lemma_step_wf(run(state, limit, events.drop_last()), limit, events.last());
    }
}

/// In a state that keeps the invariant no two players have the same id.
pub proof fn lemma_ids_distinct(state: ServerState)
    requires
        state.wf(),
    ensures
        ids_distinct(state),
{
    assert forall|a: Seq<char>, b: Seq<char>|
        state.sessions.contains_key(a) && state.sessions.contains_key(b) && a != b implies (
    #[trigger] state.sessions[a]).id != (#[trigger] state.sessions[b]).id by {
        assert(state.session_ok(a));
        assert(state.session_ok(b));
    }
}

/// Whatever participants connect, in whatever order and under
/// whatever ids, the players that are registered afterwards all have
/// different ids, and there are no more of them than the server admits,
/// unless there were more to begin with.
pub proof fn lemma_connects_distinct(state: ServerState, limit: nat, ids: Seq<Seq<char>>)
    requires
        state.wf(),
    ensures
        run(state, limit, connects(ids)).wf(),
        ids_distinct(run(state, limit, connects(ids))),
        state.sessions.len() <= limit ==> run(state, limit, connects(ids)).sessions.len() <= limit,
    decreases ids.len(),
{
    let events = connects(ids);
    lemma_run_wf(state, limit, events);
    lemma_ids_distinct(run(state, limit, events));
    if ids.len() > 0 {
        assert(events.drop_last() =~= connects(ids.drop_last()));
        lemma_connects_distinct(state, limit, ids.drop_last());
        let before = run(state, limit, events.drop_last());
        assert(events.last() == Event::Connect { id: ids.last() });
        if connect_refusal(before, limit, ids.last()) is None {
            assert(before.create_session(ids.last()).sessions.len() == before.sessions.len() + 1);
        }
    }
}

/// In a game with both seats taken, the two players have
/// different colours, one white and one black.
pub proof fn lemma_colors_complement(state: ServerState, game_id: Seq<char>)
    requires
        state.wf(),
        state.games.contains_key(game_id),
        state.games[game_id].player_two_id is Some,
    ensures
        ({
            let one = state.sessions[state.games[game_id].player_one_id].color;
            let two = state.sessions[state.games[game_id].player_two_id->0].color;
            &&& one != two
            &&& one == Color::White || one == Color::Black
            &&& two == Color::White || two == Color::Black
        }),
{
    assert(state.game_ok(game_id));
    assert(state.session_ok(state.games[game_id].player_one_id));
}

/// Whoever asks for the second seat of a game that has
/// its second player is told that the game is full, and nothing changes.
pub proof fn lemma_full_game_stays(state: ServerState, game_id: Seq<char>, player_id: Seq<char>)
    requires
        state.games.contains_key(game_id),
        state.games[game_id].player_two_id is Some,
    ensures
        state.join_error(game_id, player_id) == Some(JoinError::RoomFull),
        state.join_game(game_id, player_id) == state,
{
}

/// Once the creator of a game has disconnected, the creator and the game are
/// gone, whether the game had a second player or not; a second player it had
/// is still registered and is seated nowhere.
pub proof fn lemma_creator_exit_removes_game(state: ServerState, game_id: Seq<char>)
    requires
        state.wf(),
        state.games.contains_key(game_id),
    ensures
        ({
            let after = state.delete_session(state.games[game_id].player_one_id);
            &&& !after.games.contains_key(game_id)
            &&& !after.sessions.contains_key(state.games[game_id].player_one_id)
            &&& state.games[game_id].player_two_id matches Some(two)
                ==> after.sessions.contains_key(two)
            &&& after.join_error(game_id, state.games[game_id].player_one_id) == Some(
                JoinError::RoomNotFound,
            )
            &&& state.games[game_id].player_two_id matches Some(two) ==> after.sessions[two]
                == state.sessions[two].unseated()
        }),
{
    assert(state.game_ok(game_id));
}

/// A second disconnect of the same participant
/// changes nothing.
pub proof fn lemma_disconnect_twice(state: ServerState, limit: nat, id: Seq<char>)
    ensures
        !step(state, limit, Event::Disconnect { id }).sessions.contains_key(id),
        step(step(state, limit, Event::Disconnect { id }), limit, Event::Disconnect { id })
            == step(state, limit, Event::Disconnect { id }),
{
}

/// In a game with both seats taken each player's moves go to
/// the other player, who is another participant; and the moves of a player
/// who is seated in no game go to nobody.
pub proof fn lemma_moves_cross_the_board(state: ServerState, game_id: Seq<char>)
    requires
        state.wf(),
        state.games.contains_key(game_id),
        state.games[game_id].player_two_id is Some,
    ensures
        ({
            let one = state.games[game_id].player_one_id;
            let two = state.games[game_id].player_two_id->0;
            &&& one != two
            &&& state.opponent(one) == Some(two)
            &&& state.opponent(two) == Some(one)
        }),
{
    assert(state.game_ok(game_id));
}

/// On a server without games no id is taken, so the id drawn for a game is
/// always free there.
pub proof fn lemma_no_games_no_id_taken(state: ServerState)
    requires
        state.games.dom() =~= Set::empty(),
    ensures
        !state.some_id_taken(),
{
}

/// The moves of a player who is seated in no game go to nobody.
pub proof fn lemma_unseated_moves_dropped(state: ServerState, player_id: Seq<char>)
    requires
        state.game_of(player_id) is None,
    ensures
        state.opponent(player_id) is None,
{
}

} // verus!
