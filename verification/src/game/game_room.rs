//! A game room: the players of one running game.
use vstd::prelude::*;

use dashmap::DashMap;

use vstd::std_specs::convert::FromSpecImpl;

use crate::config::GameStateConfig;
use crate::game::game_room_status::GameRoomStatus;
use crate::tables::{player_table, player_table_insert, player_table_len, player_table_new};

verus! {

/// Whether adding a player started the room's game.
#[derive(Debug, Clone, Copy, PartialEq, Eq, Structural)]
pub struct HasGameRoomStarted(pub bool);

impl From<HasGameRoomStarted> for bool {
    fn from(value: HasGameRoomStarted) -> (started: bool) {
        value.0
    }
}

impl FromSpecImpl<HasGameRoomStarted> for bool {
    open spec fn obeys_from_spec() -> bool {
        true
    }

    open spec fn from_spec(value: HasGameRoomStarted) -> bool {
        value.0
    }
}

/// The abstract state of a game room.
pub struct RoomModel {
    /// The settings the room was created with; its capacity is the number of players of a lobby.
    pub config: GameStateConfig,
    /// The players in the room: each nick with the handle of its player.
    pub players: Map<Seq<char>, u64>,
    /// Whether the room runs its game.
    pub status: GameRoomStatus,
}

/// A game room and the players in it.
#[derive(Debug)]
pub struct GameRoom {
    config: GameStateConfig,
    players: DashMap<String, u64>,
    game_room_status: GameRoomStatus,
}

impl View for GameRoom {
    type V = RoomModel;

    open spec fn view(&self) -> RoomModel {
        self.model()
    }
}

impl GameRoom {
    /// A room holds finitely many players.
    #[verifier::type_invariant]
    spec fn players_are_finite(&self) -> bool {
        player_table(self.players).dom().finite()
    }

    /// The abstract state of the room.
    pub closed spec fn model(&self) -> RoomModel {
        RoomModel {
            config: self.config,
            players: player_table(self.players),
            status: self.game_room_status,
        }
    }

    /// Creates an empty room that waits.
    pub fn new(config: GameStateConfig) -> (room: Self)
        ensures
            room@.config == config,
            room@.players == Map::<Seq<char>, u64>::empty(),
            room@.status == GameRoomStatus::Waiting,
            room@.players.dom().finite(),
    {
        GameRoom {
            config,
            players: player_table_new(),
            game_room_status: GameRoomStatus::Waiting,
        }
    }

    /// Adds the player with handle `player` under `nick`, replacing a player with the same nick,
    /// and reports whether the room's game has started.
    ///
    /// A room that does not wait for players does not take the player and reports `true`. A
    /// waiting room takes it; while it is short of players it keeps waiting and reports `false`,
    /// and once the player brings it to its capacity it starts its game and reports `true`.
    pub fn add_player(&mut self, nick: String, player: u64) -> (started: HasGameRoomStarted)
        ensures
            final(self)@.players.dom().finite(),
            old(self)@.status != GameRoomStatus::Waiting ==> final(self)@ == old(self)@ && started.0,
            old(self)@.status == GameRoomStatus::Waiting ==> ({
                let players = old(self)@.players.insert(nick@, player);
                if players.len() < old(self)@.config.number_of_players_in_game_lobby {
                    final(self)@ == (RoomModel { players, ..old(self)@ }) && !started.0
                } else {
                    final(self)@ == (RoomModel {
                        players,
                        status: GameRoomStatus::Running,
                        ..old(self)@
                    }) && started.0
                }
            }),
    {
        proof {
            use_type_invariant(&*self);
        }
        if self.game_room_status != GameRoomStatus::Waiting {
            return HasGameRoomStarted(true);
        }
        let mut players = player_table_new();
        std::mem::swap(&mut players, &mut self.players);
        player_table_insert(&mut players, nick, player);
        let count = player_table_len(&players);
        self.players = players;
        if count < self.config.number_of_players_in_game_lobby {
            HasGameRoomStarted(false)
        } else {
            self.start();
            HasGameRoomStarted(true)
        }
    }

    /// Starts the game. It can be started once, from `Waiting`.
    pub fn start(&mut self)
        requires
            old(self)@.status == GameRoomStatus::Waiting,
        ensures
            final(self)@ == (RoomModel { status: GameRoomStatus::Running, ..old(self)@ }),
            final(self)@.players.dom().finite(),
    {
        proof {
            use_type_invariant(&*self);
        }
        self.game_room_status = GameRoomStatus::Running;
    }

    /// Returns the room's status.
    pub fn get_state(&self) -> (status: GameRoomStatus)
        ensures
            status == self@.status,
            self@.players.dom().finite(),
    {
        proof {
            use_type_invariant(self);
        }
        self.game_room_status
    }
}

} // verus!
