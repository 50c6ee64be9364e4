//! Governance relay for a treasury controlled by a remote decision-making
//! authority.
//!
//! A foreign governance body emits signed, sequence-numbered messages; a
//! bridge posts them to the local ledger as verified records.  This library
//! holds the verified core of the program that consumes those records: the
//! wire codec for the five message variants, the governance configuration
//! store, the replay ledger that makes every message single-use, the
//! verification gate run before each privileged action, and the five action
//! handlers themselves, modelled as state transitions from plain values to
//! plain values.  The surrounding runtime performs the account plumbing and
//! the external token / program-lifecycle effects that the handlers request.

pub mod bytes32;
pub mod ids;
pub mod errors;
pub mod message;
pub mod config;
pub mod replay;
pub mod accounts;
pub mod events;
pub mod effects;
pub mod governor;
pub mod laws;
