//! Replay ledger: one immutable record per processed message, keyed by
//! (origin chain, sequence).  Creating the record is itself the replay
//! check — there is no separate "has been seen" query followed by a racy
//! create; `record_if_absent` is the atomic test-and-set, and a second
//! attempt on the same key fails with `AlreadyProcessed`.

use vstd::prelude::*;

use crate::errors::GovernorError;

verus! {

/// Audit data stored for one processed message.  Retained for audit; never
/// re-verified after creation.
#[derive(Clone, Copy, Debug, PartialEq, Eq)]
pub struct Received {
    /// AKA nonce.  Practically always zero, but saved anyway.
    pub batch_id: u32,
    /// Digest of the verified bridge message.
    pub wormhole_message_hash: [u8; 32],
    /// Message sequence.
    pub sequence: u64,
}

impl Received {
    /// Bytes one record occupies on the ledger: an 8-byte record
    /// discriminator, the batch id, the digest and the sequence.
    pub const LEN: usize = 8 + 4 + 32 + 8;
}

/// One replay-ledger entry: the stored record, together with the origin
/// chain id that completes its key.  (On the ledger the chain id lives in
/// the record's derived storage location, not in the record itself.)
#[derive(Clone, Copy, Debug, PartialEq, Eq)]
pub struct ReplayEntry {
    pub chain: u16,
    pub record: Received,
}

/// A record for (chain, sequence) exists among `entries`.
pub open spec fn entries_contain_key(entries: Seq<ReplayEntry>, chain: u16, sequence: u64) -> bool {
    exists|i: int|
        0 <= i < entries.len() && #[trigger] entries[i].chain == chain
            && entries[i].record.sequence == sequence
}

/// No two entries share a key: of two processed messages with the same
/// (origin chain, sequence), only one was ever dispatched.
pub open spec fn entries_wf(entries: Seq<ReplayEntry>) -> bool {
    forall|i: int, j: int|
        0 <= i < j < entries.len() ==> !(#[trigger] entries[i].chain == #[trigger] entries[j].chain
            && entries[i].record.sequence == entries[j].record.sequence)
}

/// The append-only collection of replay records.  Entries exist purely as
/// existence proofs for the verification gate; no later operation owns or
/// mutates them.
#[derive(Clone, Debug, PartialEq, Eq)]
pub struct ReplayLedger {
    pub entries: Vec<ReplayEntry>,
}

impl ReplayLedger {
    /// A record for (chain, sequence) exists.
    pub open spec fn contains_key(self, chain: u16, sequence: u64) -> bool {
        entries_contain_key(self.entries@, chain, sequence)
    }

    /// The ledger's keys are pairwise distinct.
    pub open spec fn wf(self) -> bool {
        entries_wf(self.entries@)
    }

    /// An empty ledger.
    pub fn new() -> (r: ReplayLedger)
        ensures
            r.entries@.len() == 0,
            r.wf(),
    {
        ReplayLedger { entries: Vec::new() }
    }

    /// The atomic insert-if-absent.  Succeeds exactly when no record for
    /// (chain, record.sequence) exists, and then appends one; otherwise
    /// fails with `AlreadyProcessed` and changes nothing.
    pub fn record_if_absent(&mut self, chain: u16, record: Received) -> (r: Result<
        (),
        GovernorError,
    >)
        ensures
            r is Ok <==> !old(self).contains_key(chain, record.sequence),
            r is Ok ==> final(self).entries@ == old(self).entries@.push(
                ReplayEntry { chain, record },
            ),
            r is Err ==> r == Err::<(), GovernorError>(GovernorError::AlreadyProcessed)
                && *final(self) == *old(self),
            old(self).wf() ==> final(self).wf(),
    {
        let n = self.entries.len();
        let mut i: usize = 0;
        while i < n
            invariant
                n == self.entries@.len(),
                i <= n,
                forall|k: int|
                    0 <= k < i ==> !(#[trigger] self.entries@[k].chain == chain
                        && self.entries@[k].record.sequence == record.sequence),
            decreases n - i,
        {
            let e = &self.entries[i];
            if e.chain == chain && e.record.sequence == record.sequence {
                return Err(GovernorError::AlreadyProcessed);
            }
            i += 1;
        }
        self.entries.push(ReplayEntry { chain, record });
        Ok(())
    }
}

/// Appending a fresh key keeps the ledger's keys pairwise distinct; this
/// is the mechanism behind the replay invariant.
pub proof fn lemma_push_fresh_key_preserves_wf(
    entries: Seq<ReplayEntry>,
    chain: u16,
    record: Received,
)
    requires
        entries_wf(entries),
        !entries_contain_key(entries, chain, record.sequence),
    ensures
        entries_wf(entries.push(ReplayEntry { chain, record })),
{
}

} // verus!
