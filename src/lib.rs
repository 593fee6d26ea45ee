//! Relay between a chat channel and a game server's console stream: the
//! classification of server lines, the outbound command format and queue, and the
//! decisions of the connection manager and of the relay over a live connection.

pub mod classify;
pub mod link;
pub mod outbound;
pub mod relay;
pub mod text;
