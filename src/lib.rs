//! Integrity rules for one block of a hash-linked, signed ledger: how a block
//! is bound to its predecessor, how its content digest is computed and checked,
//! and how the first block of a chain is built.

pub mod block;
pub mod canonical;
pub mod codec;
pub mod crypto;
pub mod error;
pub mod genesis;
pub mod tx;
