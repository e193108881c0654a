//! Rooms, avatars, sky trains and the line protocol spoken between room hosts
//! and players.

pub mod assets;
pub mod avatar;
pub mod client;
pub mod gui;
pub mod host;
pub mod protocol;
pub mod room;
pub mod roster;
pub mod server;
pub mod text;
pub mod transport;
