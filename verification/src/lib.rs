//! Lobby session tracking and message relay for a small multiplayer card game.
//!
//! The server keeps a table of sessions, one per client that has entered the
//! lobby, and relays presence and chat between them. Clients are told who
//! enters, who leaves and what is said.
//!
//! * [`msg`] holds the envelope and its wire format, [`clientinfo`] the
//!   identity a client reports of itself, [`json`] the JSON primitives the
//!   wire format is built from.
//! * [`session`] holds the session table, [`service`] the relay engine that
//!   answers transport events with the envelopes to send.
//! * [`client`] holds the client's side: its message system and the values it
//!   is configured with.
//! * [`laws`] states what holds on every input.

pub mod address;
pub mod client;
pub mod clientinfo;
pub mod json;
pub mod laws;
pub mod listing;
pub mod msg;
pub mod service;
pub mod session;
pub mod text;
