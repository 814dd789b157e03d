//! Session coordination for a small multiplayer voxel game: the wire
//! protocol, the server's session registry and message engine, the client's
//! connection state machine, and the supervisor of a server embedded in a
//! client process.
//!
//! Every decision is a function from state and event to a new state and a
//! list of actions; performing the actions (sending, closing connections,
//! spawning threads) is left to the caller.

pub mod protocol;
pub mod registry;
pub mod client;
pub mod embedded;
