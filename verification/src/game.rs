//! Game-level state: the lobbies players gather in before a game starts, and the game state that
//! routes newcomers to them.
pub mod default_game_state;
pub mod game_lobby;
pub mod game_lobby_status;
pub mod game_room;
pub mod game_room_status;
pub mod join_game_result;
