//! The protocol: frames, request builders and the helpers built on them.

pub mod connection;
pub mod events;
pub mod terminal;
