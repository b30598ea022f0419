//! Connection and state-synchronisation core for a small multiplayer game:
//! the protocol messages, the server's session registry and state table, the
//! broadcast tick, and the client's connection state machine.

pub mod actor;
pub mod client;
pub mod messages;
pub mod registry;
pub mod server;
pub mod state_table;
