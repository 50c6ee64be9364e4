//! Governance configuration store: the single long-lived record naming the
//! trusted foreign authority, the governed chain id, the parameter that
//! completes the treasury's derived signing identity, and the running
//! transfer totals.

use vstd::prelude::*;

use crate::bytes32::{all_zero, bytes32_eq};
use crate::errors::GovernorError;
use crate::ids::LOCAL_CHAIN_ID;

verus! {

/// The two assets whose balances this treasury governs.
#[derive(Clone, Copy, Debug, PartialEq, Eq, Structural)]
pub enum Asset {
    Sol,
    Olas,
}

/// The configuration singleton.  Created once at deployment, mutated only
/// in its running totals by successful transfers, never deleted.
#[derive(Clone, Copy, Debug, PartialEq, Eq)]
pub struct Config {
    /// Identifier of the trusted remote chain.
    pub chain: u16,
    /// The only address whose messages are accepted.
    pub foreign_emitter: [u8; 32],
    /// Parameter completing the derivation of this record's own address,
    /// which doubles as the treasury's program-controlled signer.
    pub bump: u8,
    /// Running total of SOL moved by governed transfers.
    pub total_sol_transferred: u64,
    /// Running total of OLAS moved by governed transfers.
    pub total_olas_transferred: u64,
}

impl Config {
    /// Invariant established at initialization: the foreign chain is real,
    /// is not the local chain, and the authority is not the zero address.
    pub open spec fn wf(self) -> bool {
        &&& self.chain != 0
        &&& self.chain != LOCAL_CHAIN_ID
        &&& !all_zero(self.foreign_emitter@)
    }

    /// The running total for one asset.
    pub open spec fn spec_total(self, asset: Asset) -> u64 {
        match asset {
            Asset::Sol => self.total_sol_transferred,
            Asset::Olas => self.total_olas_transferred,
        }
    }

    /// The configuration with one running total raised by `amount`.
    pub open spec fn spec_with_total_added(self, asset: Asset, amount: u64) -> Config {
        match asset {
            Asset::Sol => Config {
                total_sol_transferred: (self.total_sol_transferred + amount) as u64,
                ..self
            },
            Asset::Olas => Config {
                total_olas_transferred: (self.total_olas_transferred + amount) as u64,
                ..self
            },
        }
    }

    /// Whether an address equals the stored foreign authority.  This is a
    /// pure equality check; the chain id is matched separately by the
    /// verification gate.
    pub fn verify(&self, check_address: &[u8; 32]) -> (r: bool)
        ensures
            r == (check_address@ == self.foreign_emitter@),
    {
        bytes32_eq(check_address, &self.foreign_emitter)
    }

    /// Seed material completing the derivation of the treasury's signing
    /// identity: the fixed prefix (the ASCII bytes of "config") and the
    /// stored bump.  No secret exists; this material is all an external
    /// ledger needs to let the program sign as the treasury.
    pub fn seeds(&self) -> (r: Vec<Vec<u8>>)
        ensures
            r@.len() == 2,
            r@[0]@ == seed_prefix(),
            r@[1]@ == seq![self.bump],
    {
        let prefix: Vec<u8> = vec![99u8, 111u8, 110u8, 102u8, 105u8, 103u8];
        let bump: Vec<u8> = vec![self.bump];
        proof {
            assert(prefix@ =~= seed_prefix());
            assert(bump@ =~= seq![self.bump]);
        }
        let mut r: Vec<Vec<u8>> = Vec::new();
        r.push(prefix);
        r.push(bump);
        r
    }

    /// Raise one running total, all-or-nothing: on 64-bit overflow nothing
    /// is mutated and the operation fails with `Overflow`.
    pub fn increment_total(&mut self, asset: Asset, amount: u64) -> (r: Result<
        (),
        GovernorError,
    >)
        ensures
            r is Ok <==> old(self).spec_total(asset) + amount <= u64::MAX,
            r is Ok ==> *final(self) == old(self).spec_with_total_added(asset, amount),
            r is Err ==> r == Err::<(), GovernorError>(GovernorError::Overflow)
                && *final(self) == *old(self),
    {
        match asset {
            Asset::Sol => {
                if amount > u64::MAX - self.total_sol_transferred {
                    return Err(GovernorError::Overflow);
                }
                self.total_sol_transferred = self.total_sol_transferred + amount;
            },
            Asset::Olas => {
                if amount > u64::MAX - self.total_olas_transferred {
                    return Err(GovernorError::Overflow);
                }
                self.total_olas_transferred = self.total_olas_transferred + amount;
            },
        }
        Ok(())
    }
}

/// The fixed first seed of the treasury's signing identity: the ASCII
/// bytes of "config".
pub open spec fn seed_prefix() -> Seq<u8> {
    seq![99u8, 111u8, 110u8, 102u8, 105u8, 103u8]
}

} // verus!
