//! Chain specifications: descriptive metadata of a blockchain together with a deferred
//! source of its genesis storage, the raw key/value form of that storage, and the
//! decisions taken when a specification is dumped or its genesis is built.

pub mod storage;
pub mod hex;
pub mod genesis;
pub mod chain_spec;
