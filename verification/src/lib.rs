//! Client-side request construction for a name-registry program.
//!
//! The crate builds the two halves of an outgoing request: the tagged binary
//! payload that encodes a [`instruction::NameRegistryInstruction`], and the
//! ordered, flag-annotated account list that must accompany it. Both are pure
//! functions of their inputs, and both are part of the protocol contract with
//! the execution host: order, flags, placeholder slots and the byte-exact
//! encoding are all pinned down by the contracts in this crate.

pub mod accounts;
pub mod instruction;
pub mod pubkey;
pub mod state;
