//! Plain views of the live records a request supplies: the bridge
//! message's envelope and the account objects each action touches.  The
//! surrounding runtime reads the real records and hands the handlers these
//! values; a value that "looks like an account" inside a message never by
//! itself authorizes access — it only licenses the handler to act on the
//! specific accounts supplied here, once they are shown to match.

use vstd::prelude::*;

verus! {

/// The envelope of a verified bridge record: who produced the message and
/// where it sits in that producer's sequence.  Trusted once posted; the
/// bridge has already checked signatures and quorum.
#[derive(Clone, Copy, Debug, PartialEq, Eq)]
pub struct Envelope {
    /// Chain id of the remote system that produced the message.
    pub origin_chain: u16,
    /// Address of the producer on that chain.
    pub origin_address: [u8; 32],
    /// Monotonically assigned per-origin counter; the replay key.
    pub sequence: u64,
    /// AKA nonce.
    pub batch_id: u32,
    /// Digest of the verified message, retained for audit.
    pub message_hash: [u8; 32],
}

/// A token-balance account as the handlers see it.
#[derive(Clone, Copy, Debug, PartialEq, Eq)]
pub struct TokenAccountState {
    /// The account's own address.
    pub address: [u8; 32],
    /// Which asset the account holds.
    pub mint: [u8; 32],
    /// Who may authorize debits.
    pub owner: [u8; 32],
    /// Current balance.
    pub amount: u64,
}

/// A deployed program account as the upgrade handlers see it.
#[derive(Clone, Copy, Debug, PartialEq, Eq)]
pub struct ProgramAccountState {
    /// The program's address.
    pub address: [u8; 32],
    /// Whether the account is an executable program.
    pub executable: bool,
}

/// The program-lifecycle service's data record for a deployed program.
#[derive(Clone, Copy, Debug, PartialEq, Eq)]
pub struct ProgramDataState {
    /// The single address permitted to replace the program's code, if any.
    pub upgrade_authority: Option<[u8; 32]>,
}

} // verus!
