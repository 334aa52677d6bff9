//! A cross-chain swap-and-forward orchestrator.
//!
//! A token arriving on the local chain is optionally swapped into another
//! denomination by an external swap service and then forwarded over a
//! cross-chain transport channel.  Both steps are asynchronous: the
//! orchestrator records a pending operation under a fresh correlation token,
//! hands a dispatch request back to its host, and resumes when the host
//! delivers the matching reply.  Any failure after funds have been committed
//! is converted into a recoverable balance that the original sender can claim,
//! never into silently lost funds.
//!
//! The library holds the whole orchestration state in [`state::ContractState`]
//! as plain values; all I/O (storage, message encoding, the actual swap and
//! transport calls) belongs to the host.

pub mod addr;
pub mod config;
pub mod laws;
pub mod lifecycle;
pub mod orchestrator;
pub mod recovery;
pub mod state;
pub mod types;
