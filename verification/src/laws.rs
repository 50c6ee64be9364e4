//! The library's cross-cutting guarantees, proved over the handlers'
//! transition functions.
//!
//! Three families, one instance per handler:
//! - replay protection: once a dispatch of a given (origin chain,
//!   sequence) key has succeeded, every later submission of that key
//!   fails and changes nothing;
//! - origin authentication: a message whose origin address or chain does
//!   not match the configuration is rejected with no state change;
//! - account substitution: an authentic message whose embedded
//!   identifiers do not match the supplied accounts is rejected with
//!   `WrongAccount` and no state change.
//!
//! The codec's round-trip and rejection guarantees live with the codec in
//! [`crate::message`]; the overflow guarantee is the contract of
//! [`crate::config::Config::increment_total`].

use vstd::prelude::*;

use crate::accounts::{Envelope, ProgramAccountState, ProgramDataState, TokenAccountState};
use crate::config::Config;
use crate::errors::GovernorError;
use crate::governor::{
    chain_ok, claimed_entry, origin_ok, spec_set_program_upgrade_authority, spec_transfer,
    spec_transfer_all, spec_transfer_token_accounts, spec_upgrade_program,
};
use crate::message::{
    PAYLOAD_SET_UPGRADE_AUTHORITY, PAYLOAD_TRANSFER, PAYLOAD_TRANSFER_ALL,
    PAYLOAD_TRANSFER_TOKEN_ACCOUNTS, PAYLOAD_UPGRADE_PROGRAM,
};
use crate::replay::{entries_contain_key, ReplayEntry};

verus! {

/// After a successful dispatch, its replay key is on the ledger.
proof fn lemma_claimed_key_present(entries: Seq<ReplayEntry>, env: Envelope)
    ensures
        entries_contain_key(entries.push(claimed_entry(env)), env.origin_chain, env.sequence),
{
    let pushed = entries.push(claimed_entry(env));
    assert(pushed[entries.len() as int].chain == env.origin_chain);
}

/// Replay protection for [`crate::governor::transfer`]: once a dispatch
/// of this (origin chain, sequence) key has succeeded, any later
/// submission of the same key — whatever payload, accounts or caller it
/// brings — fails and leaves the configuration and the ledger unchanged.
pub proof fn lemma_transfer_replay_protected(
    config: Config,
    entries: Seq<ReplayEntry>,
    env: Envelope,
    payload: Seq<u8>,
    treasury: [u8; 32],
    signer: [u8; 32],
    source_account: TokenAccountState,
    destination_account: TokenAccountState,
    env2: Envelope,
    payload2: Seq<u8>,
    treasury2: [u8; 32],
    signer2: [u8; 32],
    source_account2: TokenAccountState,
    destination_account2: TokenAccountState,
)
    requires
        spec_transfer(
            config,
            entries,
            env,
            payload,
            treasury,
            signer,
            source_account,
            destination_account,
        ).0 is Ok,
        env2.origin_chain == env.origin_chain,
        env2.sequence == env.sequence,
    ensures
        ({
            let (r1, c1, l1) = spec_transfer(
                config,
                entries,
                env,
                payload,
                treasury,
                signer,
                source_account,
                destination_account,
            );
            let (r2, c2, l2) = spec_transfer(
                c1,
                l1,
                env2,
                payload2,
                treasury2,
                signer2,
                source_account2,
                destination_account2,
            );
            &&& r2 is Err
            &&& c2 == c1
            &&& l2 == l1
        }),
{
    lemma_claimed_key_present(entries, env);
}

/// Resubmitting the very same transfer request fails with
/// `AlreadyProcessed` — or, where the already-raised running total could
/// not absorb the amount again, with `Overflow` from the earlier
/// arithmetic check.  Either way nothing changes.
pub proof fn lemma_transfer_resubmission_rejected(
    config: Config,
    entries: Seq<ReplayEntry>,
    env: Envelope,
    payload: Seq<u8>,
    treasury: [u8; 32],
    signer: [u8; 32],
    source_account: TokenAccountState,
    destination_account: TokenAccountState,
)
    requires
        spec_transfer(
            config,
            entries,
            env,
            payload,
            treasury,
            signer,
            source_account,
            destination_account,
        ).0 is Ok,
    ensures
        ({
            let (r1, c1, l1) = spec_transfer(
                config,
                entries,
                env,
                payload,
                treasury,
                signer,
                source_account,
                destination_account,
            );
            let (r2, c2, l2) = spec_transfer(
                c1,
                l1,
                env,
                payload,
                treasury,
                signer,
                source_account,
                destination_account,
            );
            &&& r2 == Err::<crate::governor::TransferOutcome, GovernorError>(
                GovernorError::AlreadyProcessed,
            ) || r2 == Err::<crate::governor::TransferOutcome, GovernorError>(
                GovernorError::Overflow,
            )
            &&& c2 == c1
            &&& l2 == l1
        }),
{
    lemma_claimed_key_present(entries, env);
}

/// Origin authentication for [`crate::governor::transfer`]: a message
/// whose origin address or chain id does not match the configuration is
/// rejected before anything changes, with the exact error when the
/// payload itself is well-formed.
pub proof fn lemma_transfer_origin_rejected(
    config: Config,
    entries: Seq<ReplayEntry>,
    env: Envelope,
    payload: Seq<u8>,
    treasury: [u8; 32],
    signer: [u8; 32],
    source_account: TokenAccountState,
    destination_account: TokenAccountState,
)
    requires
        !origin_ok(config, env) || !chain_ok(config, env),
    ensures
        ({
            let (r, c2, l2) = spec_transfer(
                config,
                entries,
                env,
                payload,
                treasury,
                signer,
                source_account,
                destination_account,
            );
            &&& r is Err
            &&& c2 == config
            &&& l2 == entries
            &&& payload.len() == 73 && payload[0] == PAYLOAD_TRANSFER && !origin_ok(config, env)
                ==> r == Err::<crate::governor::TransferOutcome, GovernorError>(
                GovernorError::InvalidForeignEmitter,
            )
            &&& payload.len() == 73 && payload[0] == PAYLOAD_TRANSFER && origin_ok(config, env)
                && !chain_ok(config, env) ==> r == Err::<
                crate::governor::TransferOutcome,
                GovernorError,
            >(GovernorError::InvalidForeignChain)
        }),
{
}

/// Account-substitution defence for [`crate::governor::transfer`]: an
/// authentic, well-formed message whose embedded source or destination
/// identifier does not match the supplied accounts is rejected with
/// `WrongAccount` and no state change.
pub proof fn lemma_transfer_account_substitution_rejected(
    config: Config,
    entries: Seq<ReplayEntry>,
    env: Envelope,
    payload: Seq<u8>,
    treasury: [u8; 32],
    signer: [u8; 32],
    source_account: TokenAccountState,
    destination_account: TokenAccountState,
)
    requires
        payload.len() == 73 && payload[0] == PAYLOAD_TRANSFER,
        origin_ok(config, env),
        chain_ok(config, env),
        payload.subrange(1, 33) != source_account.address@ || payload.subrange(33, 65)
            != destination_account.address@,
    ensures
        ({
            let (r, c2, l2) = spec_transfer(
                config,
                entries,
                env,
                payload,
                treasury,
                signer,
                source_account,
                destination_account,
            );
            &&& r == Err::<crate::governor::TransferOutcome, GovernorError>(
                GovernorError::WrongAccount,
            )
            &&& c2 == config
            &&& l2 == entries
        }),
{
}

/// Replay protection for [`crate::governor::transfer_all`]: once a
/// dispatch of this (origin chain, sequence) key has succeeded, any later
/// submission of the same key fails and leaves the state unchanged.
pub proof fn lemma_transfer_all_replay_protected(
    config: Config,
    entries: Seq<ReplayEntry>,
    env: Envelope,
    payload: Seq<u8>,
    treasury: [u8; 32],
    signer: [u8; 32],
    source_account_sol: TokenAccountState,
    source_account_olas: TokenAccountState,
    destination_account_sol: TokenAccountState,
    destination_account_olas: TokenAccountState,
    env2: Envelope,
    payload2: Seq<u8>,
    treasury2: [u8; 32],
    signer2: [u8; 32],
    source_account_sol2: TokenAccountState,
    source_account_olas2: TokenAccountState,
    destination_account_sol2: TokenAccountState,
    destination_account_olas2: TokenAccountState,
)
    requires
        spec_transfer_all(
            config,
            entries,
            env,
            payload,
            treasury,
            signer,
            source_account_sol,
            source_account_olas,
            destination_account_sol,
            destination_account_olas,
        ).0 is Ok,
        env2.origin_chain == env.origin_chain,
        env2.sequence == env.sequence,
    ensures
        ({
            let (r1, c1, l1) = spec_transfer_all(
                config,
                entries,
                env,
                payload,
                treasury,
                signer,
                source_account_sol,
                source_account_olas,
                destination_account_sol,
                destination_account_olas,
            );
            let (r2, c2, l2) = spec_transfer_all(
                c1,
                l1,
                env2,
                payload2,
                treasury2,
                signer2,
                source_account_sol2,
                source_account_olas2,
                destination_account_sol2,
                destination_account_olas2,
            );
            &&& r2 is Err
            &&& c2 == c1
            &&& l2 == l1
        }),
{
    lemma_claimed_key_present(entries, env);
}

/// Resubmitting the very same request fails with `AlreadyProcessed` —
/// or, where an already-raised running total could not absorb the swept
/// amount again, with `Overflow` from the earlier arithmetic check.
/// Either way nothing changes.
pub proof fn lemma_transfer_all_resubmission_rejected(
    config: Config,
    entries: Seq<ReplayEntry>,
    env: Envelope,
    payload: Seq<u8>,
    treasury: [u8; 32],
    signer: [u8; 32],
    source_account_sol: TokenAccountState,
    source_account_olas: TokenAccountState,
    destination_account_sol: TokenAccountState,
    destination_account_olas: TokenAccountState,
)
    requires
        spec_transfer_all(
            config,
            entries,
            env,
            payload,
            treasury,
            signer,
            source_account_sol,
            source_account_olas,
            destination_account_sol,
            destination_account_olas,
        ).0 is Ok,
    ensures
        ({
            let (r1, c1, l1) = spec_transfer_all(
                config,
                entries,
                env,
                payload,
                treasury,
                signer,
                source_account_sol,
                source_account_olas,
                destination_account_sol,
                destination_account_olas,
            );
            let (r2, c2, l2) = spec_transfer_all(
                c1,
                l1,
                env,
                payload,
                treasury,
                signer,
                source_account_sol,
                source_account_olas,
                destination_account_sol,
                destination_account_olas,
            );
            &&& r2 == Err::<crate::governor::TransferAllOutcome, GovernorError>(
                GovernorError::AlreadyProcessed,
            ) || r2 == Err::<crate::governor::TransferAllOutcome, GovernorError>(GovernorError::Overflow)
            &&& c2 == c1
            &&& l2 == l1
        }),
{
    lemma_claimed_key_present(entries, env);
}

/// Origin authentication for [`crate::governor::transfer_all`]: a
/// message whose origin address or chain id does not match the
/// configuration is rejected before anything changes, with the exact
/// error when the payload itself is well-formed.
pub proof fn lemma_transfer_all_origin_rejected(
    config: Config,
    entries: Seq<ReplayEntry>,
    env: Envelope,
    payload: Seq<u8>,
    treasury: [u8; 32],
    signer: [u8; 32],
    source_account_sol: TokenAccountState,
    source_account_olas: TokenAccountState,
    destination_account_sol: TokenAccountState,
    destination_account_olas: TokenAccountState,
)
    requires
        !origin_ok(config, env) || !chain_ok(config, env),
    ensures
        ({
            let (r, c2, l2) = spec_transfer_all(
                config,
                entries,
                env,
                payload,
                treasury,
                signer,
                source_account_sol,
                source_account_olas,
                destination_account_sol,
                destination_account_olas,
            );
            &&& r is Err
            &&& c2 == config
            &&& l2 == entries
            &&& payload.len() == 129 && payload[0] == PAYLOAD_TRANSFER_ALL && !origin_ok(config, env)
                ==> r == Err::<crate::governor::TransferAllOutcome, GovernorError>(
                GovernorError::InvalidForeignEmitter,
            )
            &&& payload.len() == 129 && payload[0] == PAYLOAD_TRANSFER_ALL && origin_ok(config, env)
                && !chain_ok(config, env) ==> r == Err::<
                crate::governor::TransferAllOutcome,
                GovernorError,
            >(GovernorError::InvalidForeignChain)
        }),
{
}

/// Account-substitution defence for [`crate::governor::transfer_all`]:
/// an authentic, well-formed message whose embedded identifiers do not
/// match the supplied accounts is rejected with `WrongAccount` and no
/// state change.
pub proof fn lemma_transfer_all_account_substitution_rejected(
    config: Config,
    entries: Seq<ReplayEntry>,
    env: Envelope,
    payload: Seq<u8>,
    treasury: [u8; 32],
    signer: [u8; 32],
    source_account_sol: TokenAccountState,
    source_account_olas: TokenAccountState,
    destination_account_sol: TokenAccountState,
    destination_account_olas: TokenAccountState,
)
    requires
        payload.len() == 129 && payload[0] == PAYLOAD_TRANSFER_ALL,
        origin_ok(config, env),
        chain_ok(config, env),
        payload.subrange(1, 33) != source_account_sol.address@ || payload.subrange(33, 65)
            != source_account_olas.address@ || payload.subrange(65, 97)
            != destination_account_sol.address@ || payload.subrange(97, 129)
            != destination_account_olas.address@,
    ensures
        ({
            let (r, c2, l2) = spec_transfer_all(
                config,
                entries,
                env,
                payload,
                treasury,
                signer,
                source_account_sol,
                source_account_olas,
                destination_account_sol,
                destination_account_olas,
            );
            &&& r == Err::<crate::governor::TransferAllOutcome, GovernorError>(
                GovernorError::WrongAccount,
            )
            &&& c2 == config
            &&& l2 == entries
        }),
{
}

/// Replay protection for [`crate::governor::transfer_token_accounts`]: once a
/// dispatch of this (origin chain, sequence) key has succeeded, any later
/// submission of the same key fails and leaves the state unchanged.
pub proof fn lemma_transfer_token_accounts_replay_protected(
    config: Config,
    entries: Seq<ReplayEntry>,
    env: Envelope,
    payload: Seq<u8>,
    treasury: [u8; 32],
    signer: [u8; 32],
    source_account_sol: TokenAccountState,
    source_account_olas: TokenAccountState,
    destination_account: [u8; 32],
    env2: Envelope,
    payload2: Seq<u8>,
    treasury2: [u8; 32],
    signer2: [u8; 32],
    source_account_sol2: TokenAccountState,
    source_account_olas2: TokenAccountState,
    destination_account2: [u8; 32],
)
    requires
        spec_transfer_token_accounts(
            config,
            entries,
            env,
            payload,
            treasury,
            signer,
            source_account_sol,
            source_account_olas,
            destination_account,
        ).0 is Ok,
        env2.origin_chain == env.origin_chain,
        env2.sequence == env.sequence,
    ensures
        ({
            let (r1, c1, l1) = spec_transfer_token_accounts(
                config,
                entries,
                env,
                payload,
                treasury,
                signer,
                source_account_sol,
                source_account_olas,
                destination_account,
            );
            let (r2, c2, l2) = spec_transfer_token_accounts(
                c1,
                l1,
                env2,
                payload2,
                treasury2,
                signer2,
                source_account_sol2,
                source_account_olas2,
                destination_account2,
            );
            &&& r2 is Err
            &&& c2 == c1
            &&& l2 == l1
        }),
{
    lemma_claimed_key_present(entries, env);
}

/// Resubmitting the very same request fails with exactly
/// `AlreadyProcessed` and changes nothing: this handler touches no
/// running total, so every earlier check passes again and the replay
/// claim is the one that refuses.
pub proof fn lemma_transfer_token_accounts_resubmission_rejected(
    config: Config,
    entries: Seq<ReplayEntry>,
    env: Envelope,
    payload: Seq<u8>,
    treasury: [u8; 32],
    signer: [u8; 32],
    source_account_sol: TokenAccountState,
    source_account_olas: TokenAccountState,
    destination_account: [u8; 32],
)
    requires
        spec_transfer_token_accounts(
            config,
            entries,
            env,
            payload,
            treasury,
            signer,
            source_account_sol,
            source_account_olas,
            destination_account,
        ).0 is Ok,
    ensures
        ({
            let (r1, c1, l1) = spec_transfer_token_accounts(
                config,
                entries,
                env,
                payload,
                treasury,
                signer,
                source_account_sol,
                source_account_olas,
                destination_account,
            );
            let (r2, c2, l2) = spec_transfer_token_accounts(
                c1,
                l1,
                env,
                payload,
                treasury,
                signer,
                source_account_sol,
                source_account_olas,
                destination_account,
            );
            &&& r2 == Err::<crate::governor::TransferTokenAccountsOutcome, GovernorError>(
                GovernorError::AlreadyProcessed,
            )
            &&& c2 == c1
            &&& l2 == l1
        }),
{
    lemma_claimed_key_present(entries, env);
}

/// Origin authentication for [`crate::governor::transfer_token_accounts`]: a
/// message whose origin address or chain id does not match the
/// configuration is rejected before anything changes, with the exact
/// error when the payload itself is well-formed.
pub proof fn lemma_transfer_token_accounts_origin_rejected(
    config: Config,
    entries: Seq<ReplayEntry>,
    env: Envelope,
    payload: Seq<u8>,
    treasury: [u8; 32],
    signer: [u8; 32],
    source_account_sol: TokenAccountState,
    source_account_olas: TokenAccountState,
    destination_account: [u8; 32],
)
    requires
        !origin_ok(config, env) || !chain_ok(config, env),
    ensures
        ({
            let (r, c2, l2) = spec_transfer_token_accounts(
                config,
                entries,
                env,
                payload,
                treasury,
                signer,
                source_account_sol,
                source_account_olas,
                destination_account,
            );
            &&& r is Err
            &&& c2 == config
            &&& l2 == entries
            &&& payload.len() == 97 && payload[0] == PAYLOAD_TRANSFER_TOKEN_ACCOUNTS && !origin_ok(config, env)
                ==> r == Err::<crate::governor::TransferTokenAccountsOutcome, GovernorError>(
                GovernorError::InvalidForeignEmitter,
            )
            &&& payload.len() == 97 && payload[0] == PAYLOAD_TRANSFER_TOKEN_ACCOUNTS && origin_ok(config, env)
                && !chain_ok(config, env) ==> r == Err::<
                crate::governor::TransferTokenAccountsOutcome,
                GovernorError,
            >(GovernorError::InvalidForeignChain)
        }),
{
}

/// Account-substitution defence for [`crate::governor::transfer_token_accounts`]:
/// an authentic, well-formed message whose embedded identifiers do not
/// match the supplied accounts is rejected with `WrongAccount` and no
/// state change.
pub proof fn lemma_transfer_token_accounts_account_substitution_rejected(
    config: Config,
    entries: Seq<ReplayEntry>,
    env: Envelope,
    payload: Seq<u8>,
    treasury: [u8; 32],
    signer: [u8; 32],
    source_account_sol: TokenAccountState,
    source_account_olas: TokenAccountState,
    destination_account: [u8; 32],
)
    requires
        payload.len() == 97 && payload[0] == PAYLOAD_TRANSFER_TOKEN_ACCOUNTS,
        origin_ok(config, env),
        chain_ok(config, env),
        payload.subrange(1, 33) != source_account_sol.address@ || payload.subrange(33, 65)
            != source_account_olas.address@ || payload.subrange(65, 97) != destination_account@,
    ensures
        ({
            let (r, c2, l2) = spec_transfer_token_accounts(
                config,
                entries,
                env,
                payload,
                treasury,
                signer,
                source_account_sol,
                source_account_olas,
                destination_account,
            );
            &&& r == Err::<crate::governor::TransferTokenAccountsOutcome, GovernorError>(
                GovernorError::WrongAccount,
            )
            &&& c2 == config
            &&& l2 == entries
        }),
{
}

/// Replay protection for [`crate::governor::set_program_upgrade_authority`]: once a
/// dispatch of this (origin chain, sequence) key has succeeded, any later
/// submission of the same key fails and leaves the state unchanged.
pub proof fn lemma_set_program_upgrade_authority_replay_protected(
    config: Config,
    entries: Seq<ReplayEntry>,
    env: Envelope,
    payload: Seq<u8>,
    treasury: [u8; 32],
    signer: [u8; 32],
    program_account: ProgramAccountState,
    program_data: ProgramDataState,
    upgrade_authority_account: [u8; 32],
    env2: Envelope,
    payload2: Seq<u8>,
    treasury2: [u8; 32],
    signer2: [u8; 32],
    program_account2: ProgramAccountState,
    program_data2: ProgramDataState,
    upgrade_authority_account2: [u8; 32],
)
    requires
        spec_set_program_upgrade_authority(
            config,
            entries,
            env,
            payload,
            treasury,
            signer,
            program_account,
            program_data,
            upgrade_authority_account,
        ).0 is Ok,
        env2.origin_chain == env.origin_chain,
        env2.sequence == env.sequence,
    ensures
        ({
            let (r1, c1, l1) = spec_set_program_upgrade_authority(
                config,
                entries,
                env,
                payload,
                treasury,
                signer,
                program_account,
                program_data,
                upgrade_authority_account,
            );
            let (r2, c2, l2) = spec_set_program_upgrade_authority(
                c1,
                l1,
                env2,
                payload2,
                treasury2,
                signer2,
                program_account2,
                program_data2,
                upgrade_authority_account2,
            );
            &&& r2 is Err
            &&& c2 == c1
            &&& l2 == l1
        }),
{
    lemma_claimed_key_present(entries, env);
}

/// Resubmitting the very same request fails with exactly
/// `AlreadyProcessed` and changes nothing: this handler touches no
/// running total, so every earlier check passes again and the replay
/// claim is the one that refuses.
pub proof fn lemma_set_program_upgrade_authority_resubmission_rejected(
    config: Config,
    entries: Seq<ReplayEntry>,
    env: Envelope,
    payload: Seq<u8>,
    treasury: [u8; 32],
    signer: [u8; 32],
    program_account: ProgramAccountState,
    program_data: ProgramDataState,
    upgrade_authority_account: [u8; 32],
)
    requires
        spec_set_program_upgrade_authority(
            config,
            entries,
            env,
            payload,
            treasury,
            signer,
            program_account,
            program_data,
            upgrade_authority_account,
        ).0 is Ok,
    ensures
        ({
            let (r1, c1, l1) = spec_set_program_upgrade_authority(
                config,
                entries,
                env,
                payload,
                treasury,
                signer,
                program_account,
                program_data,
                upgrade_authority_account,
            );
            let (r2, c2, l2) = spec_set_program_upgrade_authority(
                c1,
                l1,
                env,
                payload,
                treasury,
                signer,
                program_account,
                program_data,
                upgrade_authority_account,
            );
            &&& r2 == Err::<crate::governor::SetUpgradeAuthorityOutcome, GovernorError>(
                GovernorError::AlreadyProcessed,
            )
            &&& c2 == c1
            &&& l2 == l1
        }),
{
    lemma_claimed_key_present(entries, env);
}

/// Origin authentication for [`crate::governor::set_program_upgrade_authority`]: a
/// message whose origin address or chain id does not match the
/// configuration is rejected before anything changes, with the exact
/// error when the payload itself is well-formed.
pub proof fn lemma_set_program_upgrade_authority_origin_rejected(
    config: Config,
    entries: Seq<ReplayEntry>,
    env: Envelope,
    payload: Seq<u8>,
    treasury: [u8; 32],
    signer: [u8; 32],
    program_account: ProgramAccountState,
    program_data: ProgramDataState,
    upgrade_authority_account: [u8; 32],
)
    requires
        !origin_ok(config, env) || !chain_ok(config, env),
    ensures
        ({
            let (r, c2, l2) = spec_set_program_upgrade_authority(
                config,
                entries,
                env,
                payload,
                treasury,
                signer,
                program_account,
                program_data,
                upgrade_authority_account,
            );
            &&& r is Err
            &&& c2 == config
            &&& l2 == entries
            &&& payload.len() == 65 && payload[0] == PAYLOAD_SET_UPGRADE_AUTHORITY && !origin_ok(config, env)
                ==> r == Err::<crate::governor::SetUpgradeAuthorityOutcome, GovernorError>(
                GovernorError::InvalidForeignEmitter,
            )
            &&& payload.len() == 65 && payload[0] == PAYLOAD_SET_UPGRADE_AUTHORITY && origin_ok(config, env)
                && !chain_ok(config, env) ==> r == Err::<
                crate::governor::SetUpgradeAuthorityOutcome,
                GovernorError,
            >(GovernorError::InvalidForeignChain)
        }),
{
}

/// Account-substitution defence for [`crate::governor::set_program_upgrade_authority`]:
/// an authentic, well-formed message whose embedded identifiers do not
/// match the supplied accounts is rejected with `WrongAccount` and no
/// state change.
pub proof fn lemma_set_program_upgrade_authority_account_substitution_rejected(
    config: Config,
    entries: Seq<ReplayEntry>,
    env: Envelope,
    payload: Seq<u8>,
    treasury: [u8; 32],
    signer: [u8; 32],
    program_account: ProgramAccountState,
    program_data: ProgramDataState,
    upgrade_authority_account: [u8; 32],
)
    requires
        payload.len() == 65 && payload[0] == PAYLOAD_SET_UPGRADE_AUTHORITY,
        origin_ok(config, env),
        chain_ok(config, env),
        payload.subrange(1, 33) != program_account.address@ || payload.subrange(33, 65)
            != upgrade_authority_account@,
    ensures
        ({
            let (r, c2, l2) = spec_set_program_upgrade_authority(
                config,
                entries,
                env,
                payload,
                treasury,
                signer,
                program_account,
                program_data,
                upgrade_authority_account,
            );
            &&& r == Err::<crate::governor::SetUpgradeAuthorityOutcome, GovernorError>(
                GovernorError::WrongAccount,
            )
            &&& c2 == config
            &&& l2 == entries
        }),
{
}

/// Replay protection for [`crate::governor::upgrade_program`]: once a
/// dispatch of this (origin chain, sequence) key has succeeded, any later
/// submission of the same key fails and leaves the state unchanged.
pub proof fn lemma_upgrade_program_replay_protected(
    config: Config,
    entries: Seq<ReplayEntry>,
    env: Envelope,
    payload: Seq<u8>,
    treasury: [u8; 32],
    signer: [u8; 32],
    program_account: ProgramAccountState,
    program_data: ProgramDataState,
    buffer_account: [u8; 32],
    spill_account: [u8; 32],
    env2: Envelope,
    payload2: Seq<u8>,
    treasury2: [u8; 32],
    signer2: [u8; 32],
    program_account2: ProgramAccountState,
    program_data2: ProgramDataState,
    buffer_account2: [u8; 32],
    spill_account2: [u8; 32],
)
    requires
        spec_upgrade_program(
            config,
            entries,
            env,
            payload,
            treasury,
            signer,
            program_account,
            program_data,
            buffer_account,
            spill_account,
        ).0 is Ok,
        env2.origin_chain == env.origin_chain,
        env2.sequence == env.sequence,
    ensures
        ({
            let (r1, c1, l1) = spec_upgrade_program(
                config,
                entries,
                env,
                payload,
                treasury,
                signer,
                program_account,
                program_data,
                buffer_account,
                spill_account,
            );
            let (r2, c2, l2) = spec_upgrade_program(
                c1,
                l1,
                env2,
                payload2,
                treasury2,
                signer2,
                program_account2,
                program_data2,
                buffer_account2,
                spill_account2,
            );
            &&& r2 is Err
            &&& c2 == c1
            &&& l2 == l1
        }),
{
    lemma_claimed_key_present(entries, env);
}

/// Resubmitting the very same request fails with exactly
/// `AlreadyProcessed` and changes nothing: this handler touches no
/// running total, so every earlier check passes again and the replay
/// claim is the one that refuses.
pub proof fn lemma_upgrade_program_resubmission_rejected(
    config: Config,
    entries: Seq<ReplayEntry>,
    env: Envelope,
    payload: Seq<u8>,
    treasury: [u8; 32],
    signer: [u8; 32],
    program_account: ProgramAccountState,
    program_data: ProgramDataState,
    buffer_account: [u8; 32],
    spill_account: [u8; 32],
)
    requires
        spec_upgrade_program(
            config,
            entries,
            env,
            payload,
            treasury,
            signer,
            program_account,
            program_data,
            buffer_account,
            spill_account,
        ).0 is Ok,
    ensures
        ({
            let (r1, c1, l1) = spec_upgrade_program(
                config,
                entries,
                env,
                payload,
                treasury,
                signer,
                program_account,
                program_data,
                buffer_account,
                spill_account,
            );
            let (r2, c2, l2) = spec_upgrade_program(
                c1,
                l1,
                env,
                payload,
                treasury,
                signer,
                program_account,
                program_data,
                buffer_account,
                spill_account,
            );
            &&& r2 == Err::<crate::governor::UpgradeProgramOutcome, GovernorError>(
                GovernorError::AlreadyProcessed,
            )
            &&& c2 == c1
            &&& l2 == l1
        }),
{
    lemma_claimed_key_present(entries, env);
}

/// Origin authentication for [`crate::governor::upgrade_program`]: a
/// message whose origin address or chain id does not match the
/// configuration is rejected before anything changes, with the exact
/// error when the payload itself is well-formed.
pub proof fn lemma_upgrade_program_origin_rejected(
    config: Config,
    entries: Seq<ReplayEntry>,
    env: Envelope,
    payload: Seq<u8>,
    treasury: [u8; 32],
    signer: [u8; 32],
    program_account: ProgramAccountState,
    program_data: ProgramDataState,
    buffer_account: [u8; 32],
    spill_account: [u8; 32],
)
    requires
        !origin_ok(config, env) || !chain_ok(config, env),
    ensures
        ({
            let (r, c2, l2) = spec_upgrade_program(
                config,
                entries,
                env,
                payload,
                treasury,
                signer,
                program_account,
                program_data,
                buffer_account,
                spill_account,
            );
            &&& r is Err
            &&& c2 == config
            &&& l2 == entries
            &&& payload.len() == 97 && payload[0] == PAYLOAD_UPGRADE_PROGRAM && !origin_ok(config, env)
                ==> r == Err::<crate::governor::UpgradeProgramOutcome, GovernorError>(
                GovernorError::InvalidForeignEmitter,
            )
            &&& payload.len() == 97 && payload[0] == PAYLOAD_UPGRADE_PROGRAM && origin_ok(config, env)
                && !chain_ok(config, env) ==> r == Err::<
                crate::governor::UpgradeProgramOutcome,
                GovernorError,
            >(GovernorError::InvalidForeignChain)
        }),
{
}

/// Account-substitution defence for [`crate::governor::upgrade_program`]:
/// an authentic, well-formed message whose embedded identifiers do not
/// match the supplied accounts is rejected with `WrongAccount` and no
/// state change.
pub proof fn lemma_upgrade_program_account_substitution_rejected(
    config: Config,
    entries: Seq<ReplayEntry>,
    env: Envelope,
    payload: Seq<u8>,
    treasury: [u8; 32],
    signer: [u8; 32],
    program_account: ProgramAccountState,
    program_data: ProgramDataState,
    buffer_account: [u8; 32],
    spill_account: [u8; 32],
)
    requires
        payload.len() == 97 && payload[0] == PAYLOAD_UPGRADE_PROGRAM,
        origin_ok(config, env),
        chain_ok(config, env),
        payload.subrange(1, 33) != program_account.address@ || payload.subrange(33, 65)
            != buffer_account@ || payload.subrange(65, 97) != spill_account@,
    ensures
        ({
            let (r, c2, l2) = spec_upgrade_program(
                config,
                entries,
                env,
                payload,
                treasury,
                signer,
                program_account,
                program_data,
                buffer_account,
                spill_account,
            );
            &&& r == Err::<crate::governor::UpgradeProgramOutcome, GovernorError>(
                GovernorError::WrongAccount,
            )
            &&& c2 == config
            &&& l2 == entries
        }),
{
}

} // verus!
