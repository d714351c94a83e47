pub mod chess_server;
pub mod config;
pub mod game_action;
pub mod game_command;
pub mod ids;
pub mod json;
pub mod session;
pub mod text;
pub mod types;
pub mod uuids;
pub mod websocket;
pub mod websocket_server;
