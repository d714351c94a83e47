use chess_backend::types::Color;
use chess_backend::websocket::servers::in_memory::{
    Game, GameState, InMemoryServer, Player, PlayerStatus,
};
use chess_backend::websocket::servers::state::{CreateError, JoinError, NameError};
use chess_backend::websocket::servers::WsServer;
use chess_backend::websocket::session::{Message, Session};

fn two_players() -> InMemoryServer {
    let mut server = InMemoryServer::new();
    assert!(server.create_session("alice"));
    assert!(server.create_session("bob"));
    server
}

fn full_game() -> InMemoryServer {
    let mut server = two_players();
    assert_eq!(
        server.create_game_with_id("room".to_string(), "Casual", "alice", Color::White),
        Ok("room".to_string())
    );
    assert_eq!(server.join_game("room", "bob"), Ok(()));
    server
}

#[test]
fn new_server_is_empty() {
    let server = InMemoryServer::new();
    assert_eq!(server.session_count(), 0);
    assert!(server.get_session("alice").is_none());
    assert!(server.get_game("room").is_none());
    let other = InMemoryServer::default();
    assert_eq!(other.session_count(), 0);
}

#[test]
fn create_session_registers_fresh_record() {
    let mut server = InMemoryServer::new();
    assert!(server.create_session("alice"));
    let s: &Session = server.get_session("alice").unwrap();
    assert_eq!(s.id, "alice");
    assert_eq!(s.name, "");
    assert_eq!(s.joined_game, None);
    assert_eq!(s.color, Color::Unassigned);
    assert_eq!(server.session_count(), 1);
}

#[test]
fn create_session_keeps_id_in_use() {
    let mut server = full_game();
    assert!(!server.create_session("alice"));
    let s = server.get_session("alice").unwrap();
    assert_eq!(s.joined_game, Some("room".to_string()));
    assert_eq!(s.color, Color::White);
    assert_eq!(server.session_count(), 2);
}

#[test]
fn create_game_seats_creator_with_color() {
    let mut server = two_players();
    let id = server.create_game("Casual", "alice", Color::Black).unwrap();
    assert_eq!(id.chars().count(), 10);
    assert!(id.chars().all(|c| c.is_ascii_alphanumeric() || c == '_' || c == '-'));
    let g: &Game = server.get_game(&id).unwrap();
    assert_eq!(g.name, "Casual");
    assert_eq!(g.player_one_id, "alice");
    assert_eq!(g.player_two_id, None);
    assert_eq!(
        g.game_state,
        GameState {
            is_finished: false,
            player_one: PlayerStatus::Playing,
            player_two: PlayerStatus::Playing
        }
    );
    let s = server.get_session("alice").unwrap();
    assert_eq!(s.joined_game, Some(id.clone()));
    assert_eq!(s.color, Color::Black);
    assert!(server.get_player_two(&id).is_none());
}

#[test]
fn create_game_draws_different_ids() {
    let mut server = two_players();
    let a = server.create_game("A", "alice", Color::White).unwrap();
    let b = server.create_game("B", "bob", Color::White).unwrap();
    assert_ne!(a, b);
}

#[test]
fn create_game_errors() {
    let mut server = two_players();
    assert_eq!(
        server.create_game("Casual", "", Color::White),
        Err(CreateError::EmptyCreator)
    );
    assert_eq!(
        server.create_game("Casual", "alice", Color::Unassigned),
        Err(CreateError::ColorMissing)
    );
    assert_eq!(
        server.create_game("Casual", "carol", Color::White),
        Err(CreateError::CreatorMissing)
    );
    assert_eq!(
        server.create_game_with_id("room".to_string(), "Casual", "alice", Color::White),
        Ok("room".to_string())
    );
    assert_eq!(
        server.create_game("Other", "alice", Color::White),
        Err(CreateError::AlreadySeated)
    );
    assert_eq!(
        server.create_game_with_id("room".to_string(), "Other", "bob", Color::White),
        Err(CreateError::IdTaken)
    );
    assert!(server.get_session("bob").unwrap().joined_game.is_none());
    assert_eq!(server.get_game("room").unwrap().name, "Casual");
}

#[test]
fn join_game_gives_complementary_color() {
    let server = full_game();
    let one: Player = server.get_player_one("room").unwrap();
    let two: Player = server.get_player_two("room").unwrap();
    assert_eq!(one.id, "alice");
    assert_eq!(one.color, Color::White);
    assert_eq!(two.id, "bob");
    assert_eq!(two.color, Color::Black);
    assert_eq!(
        server.get_session("bob").unwrap().joined_game,
        Some("room".to_string())
    );
    assert_eq!(
        server.get_game("room").unwrap().player_two_id,
        Some("bob".to_string())
    );

    let mut other = two_players();
    other
        .create_game_with_id("g".to_string(), "n", "bob", Color::Black)
        .unwrap();
    assert_eq!(other.join_game("g", "alice"), Ok(()));
    assert_eq!(other.get_session("alice").unwrap().color, Color::White);
}

#[test]
fn join_full_game_is_refused_and_changes_nothing() {
    let mut server = full_game();
    assert!(server.create_session("carol"));
    assert_eq!(server.join_game("room", "carol"), Err(JoinError::RoomFull));
    assert_eq!(server.join_game("room", "nobody"), Err(JoinError::RoomFull));
    assert_eq!(server.join_game("room", "alice"), Err(JoinError::RoomFull));
    let g = server.get_game("room").unwrap();
    assert_eq!(g.player_one_id, "alice");
    assert_eq!(g.player_two_id, Some("bob".to_string()));
    let c = server.get_session("carol").unwrap();
    assert_eq!(c.joined_game, None);
    assert_eq!(c.color, Color::Unassigned);
}

#[test]
fn join_game_errors() {
    let mut server = two_players();
    assert_eq!(server.join_game("room", "bob"), Err(JoinError::RoomNotFound));
    server
        .create_game_with_id("room".to_string(), "Casual", "alice", Color::White)
        .unwrap();
    assert_eq!(server.join_game("room", "carol"), Err(JoinError::PlayerMissing));
    assert_eq!(server.join_game("room", "alice"), Err(JoinError::AlreadySeated));
    server
        .create_game_with_id("other".to_string(), "Other", "bob", Color::White)
        .unwrap();
    assert_eq!(server.join_game("room", "bob"), Err(JoinError::AlreadySeated));
    assert_eq!(server.get_game("room").unwrap().player_two_id, None);
}

#[test]
fn second_player_leaving_frees_the_seat() {
    let mut server = full_game();
    server.leave_game("room", "bob");
    let g = server.get_game("room").unwrap();
    assert_eq!(g.player_one_id, "alice");
    assert_eq!(g.player_two_id, None);
    let b = server.get_session("bob").unwrap();
    assert_eq!(b.joined_game, None);
    assert_eq!(b.color, Color::Unassigned);
    assert_eq!(server.get_session("alice").unwrap().color, Color::White);
    assert_eq!(server.join_game("room", "bob"), Ok(()));
}

#[test]
fn creator_leaving_deletes_the_game() {
    let mut server = full_game();
    server.leave_game("room", "alice");
    assert!(server.get_game("room").is_none());
    for id in ["alice", "bob"] {
        let s = server.get_session(id).unwrap();
        assert_eq!(s.joined_game, None);
        assert_eq!(s.color, Color::Unassigned);
    }
}

#[test]
fn leave_game_of_stranger_changes_nothing() {
    let mut server = full_game();
    assert!(server.create_session("carol"));
    server.leave_game("room", "carol");
    server.leave_game("nowhere", "alice");
    assert_eq!(
        server.get_game("room").unwrap().player_two_id,
        Some("bob".to_string())
    );
    assert_eq!(
        server.get_session("alice").unwrap().joined_game,
        Some("room".to_string())
    );
}

#[test]
fn delete_game_unseats_both_players() {
    let mut server = full_game();
    server.delete_game("room");
    assert!(server.get_game("room").is_none());
    assert_eq!(server.get_session("alice").unwrap().joined_game, None);
    assert_eq!(server.get_session("bob").unwrap().color, Color::Unassigned);
    server.delete_game("room");
    assert_eq!(server.session_count(), 2);
}

#[test]
fn delete_session_of_creator_removes_game() {
    let mut server = full_game();
    server.delete_session("alice");
    assert!(server.get_session("alice").is_none());
    assert!(server.get_game("room").is_none());
    let b = server.get_session("bob").unwrap();
    assert_eq!(b.joined_game, None);
    assert_eq!(b.color, Color::Unassigned);
    assert_eq!(server.session_count(), 1);

    let mut alone = two_players();
    alone
        .create_game_with_id("solo".to_string(), "Solo", "alice", Color::Black)
        .unwrap();
    alone.delete_session("alice");
    assert!(alone.get_game("solo").is_none());
}

#[test]
fn delete_session_of_second_player_keeps_game() {
    let mut server = full_game();
    server.delete_session("bob");
    assert!(server.get_session("bob").is_none());
    let g = server.get_game("room").unwrap();
    assert_eq!(g.player_two_id, None);
    assert_eq!(
        server.get_session("alice").unwrap().joined_game,
        Some("room".to_string())
    );
}

#[test]
fn delete_session_twice_is_a_no_op() {
    let mut server = full_game();
    server.delete_session("bob");
    let count = server.session_count();
    server.delete_session("bob");
    assert_eq!(server.session_count(), count);
    assert_eq!(server.get_game("room").unwrap().player_two_id, None);
    server.delete_session("nobody");
    assert_eq!(server.session_count(), count);
}

#[test]
fn update_session_name_respects_limit_of_fifty_characters() {
    let mut server = two_players();
    let fifty = "é".repeat(50);
    assert_eq!(server.update_session_name("alice", &fifty), Ok(()));
    assert_eq!(server.get_session("alice").unwrap().name, fifty);
    let fifty_one = "x".repeat(51);
    assert_eq!(
        server.update_session_name("alice", &fifty_one),
        Err(NameError::NameTooLong)
    );
    assert_eq!(server.get_session("alice").unwrap().name, fifty);
    assert_eq!(
        server.update_session_name("carol", "Carol"),
        Err(NameError::SessionMissing)
    );
    assert_eq!(
        server.update_session_name("carol", &fifty_one),
        Err(NameError::NameTooLong)
    );
    assert_eq!(server.update_session_name("alice", ""), Ok(()));
    assert_eq!(server.get_session("alice").unwrap().name, "");
}

#[test]
fn rename_keeps_seat() {
    let mut server = full_game();
    assert_eq!(server.update_session_name("bob", "Bobby"), Ok(()));
    let b = server.get_session("bob").unwrap();
    assert_eq!(b.name, "Bobby");
    assert_eq!(b.joined_game, Some("room".to_string()));
    assert_eq!(b.color, Color::Black);
    assert_eq!(server.get_player_two("room").unwrap().name, "Bobby");
}

#[test]
fn update_game_state_retires_the_game() {
    let mut server = full_game();
    let g = server
        .update_game_state("bob", PlayerStatus::WonByCheckmate)
        .unwrap();
    assert_eq!(g.name, "Casual");
    assert_eq!(g.player_one_id, "alice");
    assert_eq!(g.player_two_id, Some("bob".to_string()));
    assert_eq!(
        g.game_state,
        GameState {
            is_finished: true,
            player_one: PlayerStatus::Playing,
            player_two: PlayerStatus::WonByCheckmate
        }
    );
    assert!(server.get_game("room").is_none());
    for id in ["alice", "bob"] {
        let s = server.get_session(id).unwrap();
        assert_eq!(s.joined_game, None);
        assert_eq!(s.color, Color::Unassigned);
    }
    assert!(server
        .update_game_state("bob", PlayerStatus::LostByResign)
        .is_none());
    assert!(server
        .update_game_state("nobody", PlayerStatus::LostByResign)
        .is_none());
}

#[test]
fn update_game_state_by_creator() {
    let mut server = full_game();
    let g = server
        .update_game_state("alice", PlayerStatus::DrawByAgreement)
        .unwrap();
    assert_eq!(g.game_state.player_one, PlayerStatus::DrawByAgreement);
    assert_eq!(g.game_state.player_two, PlayerStatus::Playing);
    assert!(g.game_state.is_finished);
    assert!(server.get_game("room").is_none());
}

#[test]
fn make_move_goes_to_the_other_player_only() {
    let mut server = full_game();
    let d = server.make_move("e2e4", "alice").unwrap();
    assert_eq!(d.to, "bob");
    assert_eq!(d.message, Message("e2e4".to_string()));
    let d = server.make_move("e7e5", "bob").unwrap();
    assert_eq!(d.to, "alice");
    assert_eq!(d.message, Message("e7e5".to_string()));
}

#[test]
fn make_move_without_opponent_or_game_is_dropped() {
    let mut server = two_players();
    assert!(server.make_move("e2e4", "alice").is_none());
    assert!(server.make_move("e2e4", "nobody").is_none());
    server
        .create_game_with_id("room".to_string(), "Casual", "alice", Color::White)
        .unwrap();
    assert!(server.make_move("e2e4", "alice").is_none());
}

#[test]
fn send_reaches_registered_players_only() {
    let server = two_players();
    let d = server.send("alice", Message("hello".to_string())).unwrap();
    assert_eq!(d.to, "alice");
    assert_eq!(d.message.0, "hello");
    assert!(server.send("carol", Message("hello".to_string())).is_none());
}

#[test]
fn players_of_unknown_game() {
    let server = two_players();
    assert!(server.get_player_one("room").is_none());
    assert!(server.get_player_two("room").is_none());
}

#[test]
fn game_new_starts_playing() {
    let g = Game::new("Casual", "alice".to_string());
    assert_eq!(g.name, "Casual");
    assert_eq!(g.player_one_id, "alice");
    assert_eq!(g.player_two_id, None);
    assert_eq!(g.game_state, GameState::playing());
    assert!(!g.game_state.is_finished);
}

#[test]
fn player_from_session() {
    let s = Session {
        id: "alice".to_string(),
        name: "Alice".to_string(),
        joined_game: Some("room".to_string()),
        color: Color::Black,
    };
    let p = Player::from(&s);
    assert_eq!(p.id, "alice");
    assert_eq!(p.name, "Alice");
    assert_eq!(p.color, Color::Black);
}

#[test]
fn color_opposites() {
    assert_eq!(Color::White.opposite(), Color::Black);
    assert_eq!(Color::Black.opposite(), Color::White);
    assert_eq!(Color::Unassigned.opposite(), Color::Unassigned);
}
