//! Requests to the external collaborators.  A handler never performs a
//! privileged side effect itself: it returns one of these descriptions,
//! and the surrounding runtime issues it to the token ledger or the
//! program-lifecycle service under the treasury's derived signature.

use vstd::prelude::*;

verus! {

/// "Debit `source`, credit `destination`, `amount` units", to the token
/// ledger.
#[derive(Clone, Copy, Debug, PartialEq, Eq)]
pub struct TokenTransferEffect {
    pub source: [u8; 32],
    pub destination: [u8; 32],
    pub amount: u64,
}

/// "Reassign ownership of `account` to `new_owner`", to the token ledger.
#[derive(Clone, Copy, Debug, PartialEq, Eq)]
pub struct SetOwnerEffect {
    pub account: [u8; 32],
    pub new_owner: [u8; 32],
}

/// "Set `program`'s upgrade authority to `new_authority`", to the
/// program-lifecycle service.
#[derive(Clone, Copy, Debug, PartialEq, Eq)]
pub struct SetUpgradeAuthorityEffect {
    pub program: [u8; 32],
    pub new_authority: [u8; 32],
}

/// "Replace `program`'s code from the staged `buffer`, refunding excess
/// rent to `spill`", to the program-lifecycle service.
#[derive(Clone, Copy, Debug, PartialEq, Eq)]
pub struct UpgradeProgramEffect {
    pub program: [u8; 32],
    pub buffer: [u8; 32],
    pub spill: [u8; 32],
}

} // verus!
