//! The client's side of the lobby: what it sends, and what it makes of what
//! the server relays to it.

pub mod assets;
pub mod common;
pub mod components;
pub mod message;
pub mod resources;
