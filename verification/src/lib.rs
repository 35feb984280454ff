//! Authorization and accounting core of a cross-chain token bridge.
//!
//! The library governs how many units of one fungible asset may exist, how
//! they move between the local ledger and a set of remote chains, and how
//! replayed cross-chain messages are detected and refused. The primitive
//! token ledger that holds balances (mint/burn/transfer of actual tokens) is
//! an external collaborator: every operation here validates, updates the
//! bridge's own records, and hands the caller the ledger action and event to
//! perform and publish. Transport of messages between chains is likewise
//! outside: this core only validates and consumes them.

pub mod errors;
pub mod identity;
pub mod supply;
pub mod nonce;
pub mod remote;
pub mod events;
pub mod bridge;
