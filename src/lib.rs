//! A two-player tic-tac-toe match kept as two replicas, one per node, which stay
//! in step by exchanging one-way messages.
//!
//! - `rules`: the board, its eight lines and the first won line.
//! - `game`: the replicated game record and its well-formedness.
//! - `protocol`: operations, cross-node messages and abort reasons.
//! - `state`: a node's replica (its game and its last notification).
//! - `contract`: the local state machine and the message handlers, stated as
//!   pure transition functions over the views and implemented on top of them.
//! - `laws`: what holds of every step (one cell per move, the order of
//!   statuses, idempotent snapshots, well-formed replicas).
use vstd::prelude::*;

pub mod contract;
pub mod game;
pub mod laws;
pub mod protocol;
pub mod rules;
pub mod state;

pub use contract::TictactoeContract;
pub use game::{Game, GameStatus, PlayerInfo};
pub use protocol::{AbortReason, CrossChainMessage, Operation, Outgoing};
pub use state::TictactoeState;

verus! {

/// Marker for the application's interface: operations in, messages out.
pub struct TictactoeAbi;

/// Application parameters: there are none.
#[derive(Debug, Clone, Default)]
pub struct TictactoeParameters {}

/// The argument given when a node's state is first created: it carries nothing.
#[derive(Debug, Clone)]
pub struct InstantiationArgument;

} // verus!
