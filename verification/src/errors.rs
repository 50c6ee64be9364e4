//! Error taxonomy of the governance relay.

use vstd::prelude::*;

verus! {

/// Why a payload buffer failed to decode.  Decoding is total and rejecting:
/// a buffer either decodes completely or is refused with one of these.
#[derive(Clone, Copy, Debug, PartialEq, Eq, Structural)]
pub enum DecodeError {
    /// The first byte is not the discriminant of the expected variant.
    UnknownDiscriminant,
    /// The buffer is empty, truncated, or carries trailing bytes.
    WrongLength,
}

/// Every way a governance operation can be refused.  All errors are
/// returned before any state change; no handler continues past a failed
/// precondition.
#[derive(Clone, Copy, Debug, PartialEq, Eq, Structural)]
pub enum GovernorError {
    /// The message body does not decode as the variant the handler expects.
    InvalidPayload,
    /// At initialization: a zero or local chain id, or an all-zero authority
    /// address.  At dispatch: the message's origin address differs from the
    /// stored foreign authority.
    InvalidForeignEmitter,
    /// The message's origin chain differs from the configured foreign chain.
    InvalidForeignChain,
    /// An account identifier embedded in the message does not match the
    /// corresponding account supplied with the request, or a supplied
    /// program account is not executable.
    WrongAccount,
    /// A supplied token account does not carry the asset the action needs.
    WrongTokenMint,
    /// A source token account is not owned by the treasury.
    WrongAccountOwner,
    /// The governed program's upgrade authority is not the treasury.
    WrongUpgradeAuthority,
    /// A record for this (origin chain, sequence) key already exists: the
    /// message was executed before and is permanently consumed.
    AlreadyProcessed,
    /// A transfer amount exceeds the source balance, or a running total
    /// would exceed the 64-bit unsigned range.
    Overflow,
}

} // verus!
