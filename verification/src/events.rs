//! Notifications emitted on success of each handler, for external
//! observers.  Append-only audit events; nothing consumes them internally.

use vstd::prelude::*;

verus! {

/// Emitted by a successful transfer.
#[derive(Clone, Copy, Debug, PartialEq, Eq)]
pub struct TransferEvent {
    /// The caller of the request.
    pub signer: [u8; 32],
    /// Mint of the asset moved.
    pub token: [u8; 32],
    /// Destination account address.
    pub destination: [u8; 32],
    /// Amount moved.
    pub amount: u64,
}

/// Emitted by a successful sweep of both balances.
#[derive(Clone, Copy, Debug, PartialEq, Eq)]
pub struct TransferAllEvent {
    pub signer: [u8; 32],
    pub destination_account_sol: [u8; 32],
    pub destination_account_olas: [u8; 32],
    pub amount_sol: u64,
    pub amount_olas: u64,
}

/// Emitted by a successful ownership reassignment of the two token
/// accounts.
#[derive(Clone, Copy, Debug, PartialEq, Eq)]
pub struct TransferTokenAccountsEvent {
    pub signer: [u8; 32],
    pub source_account_sol: [u8; 32],
    pub source_account_olas: [u8; 32],
    pub destination_account: [u8; 32],
}

/// Emitted by a successful upgrade-authority reassignment.
#[derive(Clone, Copy, Debug, PartialEq, Eq)]
pub struct SetUpgradeAuthorityEvent {
    pub signer: [u8; 32],
    pub program_account: [u8; 32],
    pub upgrade_authority_account: [u8; 32],
}

/// Emitted by a successful program upgrade.
#[derive(Clone, Copy, Debug, PartialEq, Eq)]
pub struct UpgradeProgramEvent {
    pub signer: [u8; 32],
    pub program_account: [u8; 32],
    pub buffer_account: [u8; 32],
    pub spill_account: [u8; 32],
}

} // verus!
