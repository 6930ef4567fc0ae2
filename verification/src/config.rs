//! Settings of the server, as read from its configuration file.
use vstd::prelude::*;

verus! {

/// Settings of the game state and of every game lobby it creates.
#[derive(Debug, Clone, Copy, PartialEq, Eq, Structural)]
pub struct GameStateConfig {
    /// The number of players with which a game lobby starts its game.
    pub number_of_players_in_game_lobby: usize,
    /// How long (in milliseconds) a player may take to confirm readiness before it is removed
    /// from the lobby.
    pub player_readiness_timeout: u64,
}

impl Default for GameStateConfig {
    fn default() -> (config: Self)
        ensures
            config.number_of_players_in_game_lobby == 0,
            config.player_readiness_timeout == 0,
    {
        GameStateConfig { number_of_players_in_game_lobby: 0, player_readiness_timeout: 0 }
    }
}

/// Settings of the public endpoint the players connect to.
#[derive(Debug, Clone, PartialEq, Eq)]
pub struct PublicEndpointConfig {
    /// The interface the local listener binds to.
    pub serve_interface: String,
    /// The port the local listener binds to.
    pub serve_port: u16,
}

impl Default for PublicEndpointConfig {
    fn default() -> (config: Self)
        ensures
            config.serve_interface@ == Seq::<char>::empty(),
            config.serve_port == 0,
    {
        PublicEndpointConfig { serve_interface: String::new(), serve_port: 0 }
    }
}

/// Settings of the whole server.
#[derive(Debug, Clone, PartialEq, Eq)]
pub struct ServerConfig {
    /// Where the players connect to.
    pub public_endpoint: PublicEndpointConfig,
    /// How games are run.
    pub game_state: GameStateConfig,
}

impl Default for ServerConfig {
    fn default() -> (config: Self)
        ensures
            config.public_endpoint.serve_interface@ == Seq::<char>::empty(),
            config.public_endpoint.serve_port == 0,
            config.game_state.number_of_players_in_game_lobby == 0,
            config.game_state.player_readiness_timeout == 0,
    {
        ServerConfig {
            public_endpoint: PublicEndpointConfig::default(),
            game_state: GameStateConfig::default(),
        }
    }
}

/// Collects the settings a WebSocket listener is built from.
#[derive(Debug)]
pub struct ListenerBuilder {
    configuration: PublicEndpointConfig,
}

impl Default for ListenerBuilder {
    fn default() -> (builder: Self)
        ensures
            builder.configuration().serve_interface@ == Seq::<char>::empty(),
            builder.configuration().serve_port == 0,
    {
        ListenerBuilder { configuration: PublicEndpointConfig::default() }
    }
}

impl ListenerBuilder {
    /// The endpoint settings collected so far.
    pub closed spec fn configuration(&self) -> PublicEndpointConfig {
        self.configuration
    }

    /// Replaces the endpoint settings with `configuration`.
    pub fn configure(self, configuration: PublicEndpointConfig) -> (builder: Self)
        ensures
            builder.configuration() == configuration,
    {
        let mut builder = self;
        builder.configuration = configuration;
        builder
    }

    /// The endpoint settings the listener will be built from.
    pub fn endpoint(&self) -> (configuration: &PublicEndpointConfig)
        ensures
            *configuration == self.configuration(),
    {
        &self.configuration
    }
}

} // verus!
