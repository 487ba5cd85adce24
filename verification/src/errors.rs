//! What can go wrong in the ledger core.

use vstd::prelude::*;

verus! {

/// The ways an operation of this library fails.
#[derive(Clone, Copy, Debug, PartialEq, Eq, Structural)]
pub enum Error {
    /// No block is known under the identifier, neither undecided nor stored.
    BlockNotFound,
    /// The block does not follow its parent by exactly one.
    HeightMismatch { parent: u64, block: u64 },
    /// The block claims to be older than its parent.
    TimestampBeforeParent { parent: u64, block: u64 },
    /// The block's timestamp is an hour or more ahead of the local clock.
    TimestampTooFarAhead { block: u64 },
    /// The block was accepted or rejected before.
    AlreadyDecided,
    /// The bytes are not the canonical form of any block or record.
    Malformed,
    /// The value has a part too long for the canonical form.
    NotRepresentable,
    /// No game is kept under the identifier.
    GameNotFound,
    /// The player is not the one to move.
    NotPlayersTurn,
    /// A piece was named by something other than its letter.
    InvalidRole,
    /// A square was named by something other than file and rank.
    InvalidSquare,
    /// The rules engine did not play a move that it had called legal.
    MoveFailed,
    /// The persistent store failed.
    Storage,
}

} // verus!
