//! The verified core of a real-time multiplayer game server: the messages exchanged with the
//! players, the game lobbies they gather in, and the decisions taken on the way from a raw
//! WebSocket frame to a running game.
pub mod config;
pub mod game;
pub mod ids;
pub mod model;
pub mod network;
pub mod packet;
pub mod server;
pub mod tables;
