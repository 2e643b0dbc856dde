//! Replica synchronisation for a two-party, round-based match.
//!
//! Each of the two players runs the game on a chain of their own and keeps a private copy
//! of the game room there. The copies are kept in agreement by the messages that the two
//! chains send each other. This crate holds the data model, the state machine that each
//! chain runs, and the effects that a step asks its surroundings to carry out. It sends
//! and stores nothing itself.

pub mod address;
pub mod contract;
pub mod error;
pub mod laws;
pub mod protocol;
pub mod room;
pub mod service;
pub mod state;

pub use address::ChainAddress;
pub use contract::HoverWarsContract;
pub use error::GameError;
pub use protocol::{stream_name, CrossChainMessage, Effect, HoverWarsEvent, Operation};
pub use room::{GameRoom, MatchState, Player, Role, RoundHistoryEntry, RoundResult, Team};
pub use service::{GameStatus, QueryRoot};
pub use state::HoverWarsState;
