use chess_backend::chess_server::ChessServer;
use chess_backend::config::{AppSettings, Environment, Settings};
use chess_backend::game_action::GameAction;

#[test]
fn environment_names() {
    assert_eq!(Environment::Local.as_str(), "local");
    assert_eq!(Environment::Production.as_str(), "production");
}

#[test]
fn environment_from_name_in_any_case() {
    assert_eq!(
        Environment::try_from("local".to_string()),
        Ok(Environment::Local)
    );
    assert_eq!(
        Environment::try_from("LOCAL".to_string()),
        Ok(Environment::Local)
    );
    assert_eq!(
        Environment::try_from("Production".to_string()),
        Ok(Environment::Production)
    );
}

#[test]
fn environment_from_unknown_name() {
    assert_eq!(
        Environment::try_from("Staging".to_string()),
        Err(
            "staging is not a supported environment. Use either `local` or `production`"
                .to_string()
        )
    );
    assert_eq!(
        Environment::try_from(String::new()),
        Err(" is not a supported environment. Use either `local` or `production`".to_string())
    );
}

#[test]
fn environment_from_lowercase_is_exact() {
    assert_eq!(
        Environment::from_lowercase("production"),
        Ok(Environment::Production)
    );
    assert_eq!(
        Environment::from_lowercase("Local"),
        Err("Local is not a supported environment. Use either `local` or `production`".to_string())
    );
}

#[test]
fn chess_server_keeps_its_settings() {
    let server = ChessServer::new(Settings {
        app: AppSettings {
            port: 8080,
            host: "127.0.0.1".to_string(),
        },
    });
    assert_eq!(server.host(), "127.0.0.1");
    assert_eq!(server.port(), 8080);
}

#[test]
fn game_action_carries_the_room_name() {
    let a = GameAction::CreateRoom("Casual".to_string());
    assert_eq!(a, GameAction::CreateRoom("Casual".to_string()));
    assert_ne!(a, GameAction::CreateRoom("Ranked".to_string()));
}
