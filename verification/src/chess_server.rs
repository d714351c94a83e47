use vstd::prelude::*;

use crate::config::Settings;

verus! {

/// The server as it is configured, before it listens.
pub struct ChessServer {
    config: Settings,
}

impl ChessServer {
    /// The settings that the server was made with.
    pub closed spec fn settings(&self) -> Settings {
        self.config
    }

    pub fn new(config: Settings) -> (r: ChessServer)
        ensures
            r.settings() == config,
    {
        Self { config }
    }

    /// The host that the server is to listen on.
    pub fn host(&self) -> (r: &str)
        ensures
            r@ == self.settings().app.host@,
    {
        self.config.app.host.as_str()
    }

    /// The port that the server is to listen on.
    pub fn port(&self) -> (r: u16)
        ensures
            r == self.settings().app.port,
    {
        self.config.app.port
    }
}

} // verus!
