//! The state-transition core of a ledger that records chess games as
//! blocks of ordered actions.
//!
//! A consensus engine hands blocks to this library in a total order. The
//! library verifies each block against its parent and the clock, applies
//! the transactions of an accepted block to the table of games, and stores
//! every decided block so that whoever replays the same blocks arrives at
//! the same state.
//!
//! - [`block`]: blocks and their life: built once, verified, then accepted
//!   or rejected.
//! - [`tx`]: transactions, the reading of moves from text, and the
//!   execution of actions.
//! - [`games`]: the table of games in progress.
//! - [`state`]: the state manager, which owns the store, the verified blocks
//!   and the table of games.
//! - [`store`]: the persistent store as this library sees it, and one kept
//!   in memory.
//! - [`codec`]: the canonical bytes of blocks and of stored records.
//! - [`rules`]: pieces, squares, moves and positions, and the calls into the
//!   rules engine.
//! - [`ids`]: identifiers of blocks and addresses of players.
//! - [`api`]: requests and responses of the chain's query surface.
//! - [`client`]: the answers as a client receives them.

pub mod api;
pub mod block;
pub mod bytes;
pub mod client;
pub mod codec;
pub mod errors;
pub mod games;
pub mod ids;
mod ids_eq;
pub mod rules;
pub mod state;
pub mod store;
mod table;
pub mod tx;
