//! The canonical byte form of blocks and of stored records.
//!
//! Integers are little-endian and of fixed width, identifiers and addresses
//! are written as they are, texts are UTF-8 behind a 32-bit length, lists
//! stand behind a 32-bit count, and each choice is one tag byte. Every
//! reader is the inverse of its writer: it accepts the bytes that the writer
//! produces and no others.

pub mod block;
pub mod primitives;
pub mod record;
pub mod tx;
