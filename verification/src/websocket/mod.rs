pub mod laws;
pub mod messages;
pub mod server;
pub mod servers;
pub mod session;
