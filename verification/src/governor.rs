//! Action dispatcher: the five privileged operations plus the one-time
//! initialization.
//!
//! Every handler runs the same pipeline — decode the message body, run the
//! verification gate (origin address, origin chain, embedded identifiers
//! against the supplied accounts, the action's own preconditions), claim
//! the replay record, and only then commit: update the running totals
//! where relevant and return the external effect to perform together with
//! the notification to emit.  Any precondition failure aborts the whole
//! handler with no state change, so the same message may be retried with a
//! corrected account set; the replay record is claimed before the external
//! effect, so a message that has passed every check is spent at once.
//!
//! Each handler's contract equates its result and its state change with a
//! single spec-level transition function, so every check, every error and
//! the exact success outcome are pinned for all inputs.

use vstd::prelude::*;
use vstd::bytes::{lemma_auto_spec_u64_to_from_le_bytes, spec_u64_from_le_bytes};

use crate::accounts::{Envelope, ProgramAccountState, ProgramDataState, TokenAccountState};
use crate::bytes32::{all_zero, bytes32_eq, bytes32_is_zero};
use crate::config::{Asset, Config};
use crate::effects::{
    SetOwnerEffect, SetUpgradeAuthorityEffect, TokenTransferEffect, UpgradeProgramEffect,
};
use crate::errors::GovernorError;
use crate::events::{
    SetUpgradeAuthorityEvent, TransferAllEvent, TransferEvent, TransferTokenAccountsEvent,
    UpgradeProgramEvent,
};
use crate::ids::{olas_mint, olas_mint_bytes, sol_mint, sol_mint_bytes, LOCAL_CHAIN_ID};
use crate::message::{
    SetUpgradeAuthorityMessage, TransferAllMessage, TransferMessage,
    TransferTokenAccountsMessage, UpgradeProgramMessage, PAYLOAD_SET_UPGRADE_AUTHORITY,
    PAYLOAD_TRANSFER, PAYLOAD_TRANSFER_ALL, PAYLOAD_TRANSFER_TOKEN_ACCOUNTS,
    PAYLOAD_UPGRADE_PROGRAM,
};
use crate::replay::{entries_contain_key, Received, ReplayEntry, ReplayLedger};

verus! {

/// What a successful transfer hands back to the runtime.
#[derive(Clone, Copy, Debug, PartialEq, Eq)]
pub struct TransferOutcome {
    pub effect: TokenTransferEffect,
    pub event: TransferEvent,
}

/// The envelope's origin address is the stored foreign authority.
pub open spec fn origin_ok(config: Config, env: Envelope) -> bool {
    env.origin_address@ == config.foreign_emitter@
}

/// The envelope's origin chain is the configured foreign chain.
pub open spec fn chain_ok(config: Config, env: Envelope) -> bool {
    env.origin_chain == config.chain
}

/// A replay record for this envelope's key already exists.
pub open spec fn replayed(entries: Seq<ReplayEntry>, env: Envelope) -> bool {
    entries_contain_key(entries, env.origin_chain, env.sequence)
}

/// The replay record a successful dispatch of this envelope appends.
pub open spec fn claimed_entry(env: Envelope) -> ReplayEntry {
    ReplayEntry {
        chain: env.origin_chain,
        record: Received {
            batch_id: env.batch_id,
            wormhole_message_hash: env.message_hash,
            sequence: env.sequence,
        },
    }
}

/// Both accounts of a pair hold the SOL mint.
pub open spec fn sol_pair(a: TokenAccountState, b: TokenAccountState) -> bool {
    a.mint@ == sol_mint_bytes() && b.mint@ == sol_mint_bytes()
}

/// Both accounts of a pair hold the OLAS mint.
pub open spec fn olas_pair(a: TokenAccountState, b: TokenAccountState) -> bool {
    a.mint@ == olas_mint_bytes() && b.mint@ == olas_mint_bytes()
}

/// The transition of [`initialize`]: the configuration created for valid
/// parameters.
pub open spec fn spec_initialize(chain: u16, timelock: [u8; 32], bump: u8) -> Result<
    Config,
    GovernorError,
> {
    if chain == 0 || chain == LOCAL_CHAIN_ID || all_zero(timelock@) {
        Err(GovernorError::InvalidForeignEmitter)
    } else {
        Ok(
            Config {
                chain,
                foreign_emitter: timelock,
                bump,
                total_sol_transferred: 0,
                total_olas_transferred: 0,
            },
        )
    }
}

/// Create the configuration singleton.  The foreign authority may not
/// share the local ledger's chain id, may not use the reserved zero chain
/// id, and may not be the all-zero address; totals start at zero.
pub fn initialize(chain: u16, timelock: &[u8; 32], bump: u8) -> (r: Result<Config, GovernorError>)
    ensures
        r == spec_initialize(chain, *timelock, bump),
        r matches Ok(c) ==> c.wf(),
{
    if chain == 0 || chain == LOCAL_CHAIN_ID || bytes32_is_zero(timelock) {
        return Err(GovernorError::InvalidForeignEmitter);
    }
    Ok(
        Config {
            chain,
            foreign_emitter: *timelock,
            bump,
            total_sol_transferred: 0,
            total_olas_transferred: 0,
        },
    )
}

/// The transition of [`transfer`]: for every input, either the exact error
/// of the first failing check, or the committed state and outcome.
pub open spec fn spec_transfer(
    config: Config,
    entries: Seq<ReplayEntry>,
    env: Envelope,
    payload: Seq<u8>,
    treasury: [u8; 32],
    signer: [u8; 32],
    source_account: TokenAccountState,
    destination_account: TokenAccountState,
) -> (Result<TransferOutcome, GovernorError>, Config, Seq<ReplayEntry>) {
    if !(payload.len() == 73 && payload[0] == PAYLOAD_TRANSFER) {
        (Err(GovernorError::InvalidPayload), config, entries)
    } else {
        let amount = spec_u64_from_le_bytes(payload.subrange(65, 73));
        if !origin_ok(config, env) {
            (Err(GovernorError::InvalidForeignEmitter), config, entries)
        } else if !chain_ok(config, env) {
            (Err(GovernorError::InvalidForeignChain), config, entries)
        } else if payload.subrange(1, 33) != source_account.address@ {
            (Err(GovernorError::WrongAccount), config, entries)
        } else if payload.subrange(33, 65) != destination_account.address@ {
            (Err(GovernorError::WrongAccount), config, entries)
        } else if source_account.owner@ != treasury@ {
            (Err(GovernorError::WrongAccountOwner), config, entries)
        } else if !sol_pair(source_account, destination_account) && !olas_pair(
            source_account,
            destination_account,
        ) {
            (Err(GovernorError::WrongTokenMint), config, entries)
        } else {
            let asset = if sol_pair(source_account, destination_account) {
                Asset::Sol
            } else {
                Asset::Olas
            };
            if amount > source_account.amount {
                (Err(GovernorError::Overflow), config, entries)
            } else if config.spec_total(asset) + amount > u64::MAX {
                (Err(GovernorError::Overflow), config, entries)
            } else if replayed(entries, env) {
                (Err(GovernorError::AlreadyProcessed), config, entries)
            } else {
                (
                    Ok(
                        TransferOutcome {
                            effect: TokenTransferEffect {
                                source: source_account.address,
                                destination: destination_account.address,
                                amount,
                            },
                            event: TransferEvent {
                                signer,
                                token: source_account.mint,
                                destination: destination_account.address,
                                amount,
                            },
                        },
                    ),
                    config.spec_with_total_added(asset, amount),
                    entries.push(claimed_entry(env)),
                )
            }
        }
    }
}

/// Move one token balance as a verified foreign message directs.
///
/// The message names the source and destination accounts and the amount;
/// the supplied accounts must match those identifiers, the source must be
/// owned by the treasury, both accounts must hold the same governed asset,
/// and the amount must be covered by the source balance.  On success the
/// matching running total is raised, the replay record is claimed, and the
/// debit/credit request is returned for the runtime to perform.
pub fn transfer(
    config: &mut Config,
    ledger: &mut ReplayLedger,
    env: &Envelope,
    payload: &[u8],
    treasury: &[u8; 32],
    signer: &[u8; 32],
    source_account: &TokenAccountState,
    destination_account: &TokenAccountState,
) -> (r: Result<TransferOutcome, GovernorError>)
    ensures
        ({
            let (sr, sc, sl) = spec_transfer(
                *old(config),
                old(ledger).entries@,
                *env,
                payload@,
                *treasury,
                *signer,
                *source_account,
                *destination_account,
            );
            &&& r == sr
            &&& *final(config) == sc
            &&& final(ledger).entries@ == sl
        }),
        old(ledger).wf() ==> final(ledger).wf(),
{
    let m = match TransferMessage::decode(payload) {
        Ok(m) => m,
        Err(_) => {
            return Err(GovernorError::InvalidPayload);
        },
    };
    proof {
        m.lemma_encode_shape();
        lemma_auto_spec_u64_to_from_le_bytes();
    }
    if !config.verify(&env.origin_address) {
        return Err(GovernorError::InvalidForeignEmitter);
    }
    if env.origin_chain != config.chain {
        return Err(GovernorError::InvalidForeignChain);
    }
    if !bytes32_eq(&m.source, &source_account.address) {
        return Err(GovernorError::WrongAccount);
    }
    if !bytes32_eq(&m.destination, &destination_account.address) {
        return Err(GovernorError::WrongAccount);
    }
    if !bytes32_eq(&source_account.owner, treasury) {
        return Err(GovernorError::WrongAccountOwner);
    }
    let sol = sol_mint();
    let olas = olas_mint();
    let is_sol_pair = bytes32_eq(&source_account.mint, &sol) && bytes32_eq(
        &destination_account.mint,
        &sol,
    );
    let is_olas_pair = bytes32_eq(&source_account.mint, &olas) && bytes32_eq(
        &destination_account.mint,
        &olas,
    );
    if !is_sol_pair && !is_olas_pair {
        return Err(GovernorError::WrongTokenMint);
    }
    let asset = if is_sol_pair {
        Asset::Sol
    } else {
        Asset::Olas
    };
    if m.amount > source_account.amount {
        return Err(GovernorError::Overflow);
    }
    let total = if is_sol_pair {
        config.total_sol_transferred
    } else {
        config.total_olas_transferred
    };
    if m.amount > u64::MAX - total {
        return Err(GovernorError::Overflow);
    }
    let record = Received {
        batch_id: env.batch_id,
        wormhole_message_hash: env.message_hash,
        sequence: env.sequence,
    };
    match ledger.record_if_absent(env.origin_chain, record) {
        Ok(()) => {},
        Err(e) => {
            return Err(e);
        },
    }
    match config.increment_total(asset, m.amount) {
        Ok(()) => {},
        Err(e) => {
            return Err(e);
        },
    }
    Ok(
        TransferOutcome {
            effect: TokenTransferEffect {
                source: source_account.address,
                destination: destination_account.address,
                amount: m.amount,
            },
            event: TransferEvent {
                signer: *signer,
                token: source_account.mint,
                destination: destination_account.address,
                amount: m.amount,
            },
        },
    )
}

/// What a successful sweep hands back to the runtime.  A zero balance
/// needs no ledger request, so each effect is optional.
#[derive(Clone, Copy, Debug, PartialEq, Eq)]
pub struct TransferAllOutcome {
    pub effect_sol: Option<TokenTransferEffect>,
    pub effect_olas: Option<TokenTransferEffect>,
    pub event: TransferAllEvent,
}

/// The transfer the sweep issues for one asset: nothing when the live
/// balance is zero.
pub open spec fn spec_sweep_effect(source: TokenAccountState, destination: TokenAccountState)
    -> Option<TokenTransferEffect> {
    if source.amount > 0 {
        Some(
            TokenTransferEffect {
                source: source.address,
                destination: destination.address,
                amount: source.amount,
            },
        )
    } else {
        None
    }
}

/// The transition of [`transfer_all`].
pub open spec fn spec_transfer_all(
    config: Config,
    entries: Seq<ReplayEntry>,
    env: Envelope,
    payload: Seq<u8>,
    treasury: [u8; 32],
    signer: [u8; 32],
    source_account_sol: TokenAccountState,
    source_account_olas: TokenAccountState,
    destination_account_sol: TokenAccountState,
    destination_account_olas: TokenAccountState,
) -> (Result<TransferAllOutcome, GovernorError>, Config, Seq<ReplayEntry>) {
    if !(payload.len() == 129 && payload[0] == PAYLOAD_TRANSFER_ALL) {
        (Err(GovernorError::InvalidPayload), config, entries)
    } else if !origin_ok(config, env) {
        (Err(GovernorError::InvalidForeignEmitter), config, entries)
    } else if !chain_ok(config, env) {
        (Err(GovernorError::InvalidForeignChain), config, entries)
    } else if payload.subrange(1, 33) != source_account_sol.address@ {
        (Err(GovernorError::WrongAccount), config, entries)
    } else if payload.subrange(33, 65) != source_account_olas.address@ {
        (Err(GovernorError::WrongAccount), config, entries)
    } else if payload.subrange(65, 97) != destination_account_sol.address@ {
        (Err(GovernorError::WrongAccount), config, entries)
    } else if payload.subrange(97, 129) != destination_account_olas.address@ {
        (Err(GovernorError::WrongAccount), config, entries)
    } else if source_account_sol.owner@ != treasury@ {
        (Err(GovernorError::WrongAccountOwner), config, entries)
    } else if source_account_olas.owner@ != treasury@ {
        (Err(GovernorError::WrongAccountOwner), config, entries)
    } else if !sol_pair(source_account_sol, destination_account_sol) {
        (Err(GovernorError::WrongTokenMint), config, entries)
    } else if !olas_pair(source_account_olas, destination_account_olas) {
        (Err(GovernorError::WrongTokenMint), config, entries)
    } else if config.total_sol_transferred + source_account_sol.amount > u64::MAX {
        (Err(GovernorError::Overflow), config, entries)
    } else if config.total_olas_transferred + source_account_olas.amount > u64::MAX {
        (Err(GovernorError::Overflow), config, entries)
    } else if replayed(entries, env) {
        (Err(GovernorError::AlreadyProcessed), config, entries)
    } else {
        (
            Ok(
                TransferAllOutcome {
                    effect_sol: spec_sweep_effect(source_account_sol, destination_account_sol),
                    effect_olas: spec_sweep_effect(source_account_olas, destination_account_olas),
                    event: TransferAllEvent {
                        signer,
                        destination_account_sol: destination_account_sol.address,
                        destination_account_olas: destination_account_olas.address,
                        amount_sol: source_account_sol.amount,
                        amount_olas: source_account_olas.amount,
                    },
                },
            ),
            config.spec_with_total_added(Asset::Sol, source_account_sol.amount)
                .spec_with_total_added(Asset::Olas, source_account_olas.amount),
            entries.push(claimed_entry(env)),
        )
    }
}

/// Sweep both governed balances to the destinations a verified foreign
/// message names.
///
/// The amounts are the balances held at call time — by definition a sweep
/// moves "whatever is currently held", never an amount decided in advance
/// by the remote authority.  A zero balance is skipped rather than moved.
pub fn transfer_all(
    config: &mut Config,
    ledger: &mut ReplayLedger,
    env: &Envelope,
    payload: &[u8],
    treasury: &[u8; 32],
    signer: &[u8; 32],
    source_account_sol: &TokenAccountState,
    source_account_olas: &TokenAccountState,
    destination_account_sol: &TokenAccountState,
    destination_account_olas: &TokenAccountState,
) -> (r: Result<TransferAllOutcome, GovernorError>)
    ensures
        ({
            let (sr, sc, sl) = spec_transfer_all(
                *old(config),
                old(ledger).entries@,
                *env,
                payload@,
                *treasury,
                *signer,
                *source_account_sol,
                *source_account_olas,
                *destination_account_sol,
                *destination_account_olas,
            );
            &&& r == sr
            &&& *final(config) == sc
            &&& final(ledger).entries@ == sl
        }),
        old(ledger).wf() ==> final(ledger).wf(),
{
    let m = match TransferAllMessage::decode(payload) {
        Ok(m) => m,
        Err(_) => {
            return Err(GovernorError::InvalidPayload);
        },
    };
    proof {
        m.lemma_encode_shape();
    }
    if !config.verify(&env.origin_address) {
        return Err(GovernorError::InvalidForeignEmitter);
    }
    if env.origin_chain != config.chain {
        return Err(GovernorError::InvalidForeignChain);
    }
    if !bytes32_eq(&m.source_sol, &source_account_sol.address) {
        return Err(GovernorError::WrongAccount);
    }
    if !bytes32_eq(&m.source_olas, &source_account_olas.address) {
        return Err(GovernorError::WrongAccount);
    }
    if !bytes32_eq(&m.destination_sol, &destination_account_sol.address) {
        return Err(GovernorError::WrongAccount);
    }
    if !bytes32_eq(&m.destination_olas, &destination_account_olas.address) {
        return Err(GovernorError::WrongAccount);
    }
    if !bytes32_eq(&source_account_sol.owner, treasury) {
        return Err(GovernorError::WrongAccountOwner);
    }
    if !bytes32_eq(&source_account_olas.owner, treasury) {
        return Err(GovernorError::WrongAccountOwner);
    }
    let sol = sol_mint();
    let olas = olas_mint();
    if !(bytes32_eq(&source_account_sol.mint, &sol) && bytes32_eq(
        &destination_account_sol.mint,
        &sol,
    )) {
        return Err(GovernorError::WrongTokenMint);
    }
    if !(bytes32_eq(&source_account_olas.mint, &olas) && bytes32_eq(
        &destination_account_olas.mint,
        &olas,
    )) {
        return Err(GovernorError::WrongTokenMint);
    }
    let amount_sol = source_account_sol.amount;
    let amount_olas = source_account_olas.amount;
    if amount_sol > u64::MAX - config.total_sol_transferred {
        return Err(GovernorError::Overflow);
    }
    if amount_olas > u64::MAX - config.total_olas_transferred {
        return Err(GovernorError::Overflow);
    }
    let record = Received {
        batch_id: env.batch_id,
        wormhole_message_hash: env.message_hash,
        sequence: env.sequence,
    };
    match ledger.record_if_absent(env.origin_chain, record) {
        Ok(()) => {},
        Err(e) => {
            return Err(e);
        },
    }
    match config.increment_total(Asset::Sol, amount_sol) {
        Ok(()) => {},
        Err(e) => {
            return Err(e);
        },
    }
    match config.increment_total(Asset::Olas, amount_olas) {
        Ok(()) => {},
        Err(e) => {
            return Err(e);
        },
    }
    let effect_sol = if amount_sol > 0 {
        Some(
            TokenTransferEffect {
                source: source_account_sol.address,
                destination: destination_account_sol.address,
                amount: amount_sol,
            },
        )
    } else {
        None
    };
    let effect_olas = if amount_olas > 0 {
        Some(
            TokenTransferEffect {
                source: source_account_olas.address,
                destination: destination_account_olas.address,
                amount: amount_olas,
            },
        )
    } else {
        None
    };
    Ok(
        TransferAllOutcome {
            effect_sol,
            effect_olas,
            event: TransferAllEvent {
                signer: *signer,
                destination_account_sol: destination_account_sol.address,
                destination_account_olas: destination_account_olas.address,
                amount_sol,
                amount_olas,
            },
        },
    )
}

/// What a successful ownership reassignment hands back to the runtime.
#[derive(Clone, Copy, Debug, PartialEq, Eq)]
pub struct TransferTokenAccountsOutcome {
    pub effect_sol: SetOwnerEffect,
    pub effect_olas: SetOwnerEffect,
    pub event: TransferTokenAccountsEvent,
}

/// The transition of [`transfer_token_accounts`].
pub open spec fn spec_transfer_token_accounts(
    config: Config,
    entries: Seq<ReplayEntry>,
    env: Envelope,
    payload: Seq<u8>,
    treasury: [u8; 32],
    signer: [u8; 32],
    source_account_sol: TokenAccountState,
    source_account_olas: TokenAccountState,
    destination_account: [u8; 32],
) -> (Result<TransferTokenAccountsOutcome, GovernorError>, Config, Seq<ReplayEntry>) {
    if !(payload.len() == 97 && payload[0] == PAYLOAD_TRANSFER_TOKEN_ACCOUNTS) {
        (Err(GovernorError::InvalidPayload), config, entries)
    } else if !origin_ok(config, env) {
        (Err(GovernorError::InvalidForeignEmitter), config, entries)
    } else if !chain_ok(config, env) {
        (Err(GovernorError::InvalidForeignChain), config, entries)
    } else if payload.subrange(1, 33) != source_account_sol.address@ {
        (Err(GovernorError::WrongAccount), config, entries)
    } else if payload.subrange(33, 65) != source_account_olas.address@ {
        (Err(GovernorError::WrongAccount), config, entries)
    } else if payload.subrange(65, 97) != destination_account@ {
        (Err(GovernorError::WrongAccount), config, entries)
    } else if source_account_sol.owner@ != treasury@ {
        (Err(GovernorError::WrongAccountOwner), config, entries)
    } else if source_account_olas.owner@ != treasury@ {
        (Err(GovernorError::WrongAccountOwner), config, entries)
    } else if source_account_sol.mint@ != sol_mint_bytes() {
        (Err(GovernorError::WrongTokenMint), config, entries)
    } else if source_account_olas.mint@ != olas_mint_bytes() {
        (Err(GovernorError::WrongTokenMint), config, entries)
    } else if replayed(entries, env) {
        (Err(GovernorError::AlreadyProcessed), config, entries)
    } else {
        (
            Ok(
                TransferTokenAccountsOutcome {
                    effect_sol: SetOwnerEffect {
                        account: source_account_sol.address,
                        new_owner: destination_account,
                    },
                    effect_olas: SetOwnerEffect {
                        account: source_account_olas.address,
                        new_owner: destination_account,
                    },
                    event: TransferTokenAccountsEvent {
                        signer,
                        source_account_sol: source_account_sol.address,
                        source_account_olas: source_account_olas.address,
                        destination_account,
                    },
                },
            ),
            config,
            entries.push(claimed_entry(env)),
        )
    }
}

/// Reassign ownership of the two treasury token accounts to the new owner
/// a verified foreign message names.  No balances move and no totals
/// change; the runtime issues the two ownership requests.
pub fn transfer_token_accounts(
    config: &mut Config,
    ledger: &mut ReplayLedger,
    env: &Envelope,
    payload: &[u8],
    treasury: &[u8; 32],
    signer: &[u8; 32],
    source_account_sol: &TokenAccountState,
    source_account_olas: &TokenAccountState,
    destination_account: &[u8; 32],
) -> (r: Result<TransferTokenAccountsOutcome, GovernorError>)
    ensures
        ({
            let (sr, sc, sl) = spec_transfer_token_accounts(
                *old(config),
                old(ledger).entries@,
                *env,
                payload@,
                *treasury,
                *signer,
                *source_account_sol,
                *source_account_olas,
                *destination_account,
            );
            &&& r == sr
            &&& *final(config) == sc
            &&& final(ledger).entries@ == sl
        }),
        old(ledger).wf() ==> final(ledger).wf(),
{
    let m = match TransferTokenAccountsMessage::decode(payload) {
        Ok(m) => m,
        Err(_) => {
            return Err(GovernorError::InvalidPayload);
        },
    };
    proof {
        m.lemma_encode_shape();
    }
    if !config.verify(&env.origin_address) {
        return Err(GovernorError::InvalidForeignEmitter);
    }
    if env.origin_chain != config.chain {
        return Err(GovernorError::InvalidForeignChain);
    }
    if !bytes32_eq(&m.source_sol, &source_account_sol.address) {
        return Err(GovernorError::WrongAccount);
    }
    if !bytes32_eq(&m.source_olas, &source_account_olas.address) {
        return Err(GovernorError::WrongAccount);
    }
    if !bytes32_eq(&m.destination, destination_account) {
        return Err(GovernorError::WrongAccount);
    }
    if !bytes32_eq(&source_account_sol.owner, treasury) {
        return Err(GovernorError::WrongAccountOwner);
    }
    if !bytes32_eq(&source_account_olas.owner, treasury) {
        return Err(GovernorError::WrongAccountOwner);
    }
    let sol = sol_mint();
    let olas = olas_mint();
    if !bytes32_eq(&source_account_sol.mint, &sol) {
        return Err(GovernorError::WrongTokenMint);
    }
    if !bytes32_eq(&source_account_olas.mint, &olas) {
        return Err(GovernorError::WrongTokenMint);
    }
    let record = Received {
        batch_id: env.batch_id,
        wormhole_message_hash: env.message_hash,
        sequence: env.sequence,
    };
    match ledger.record_if_absent(env.origin_chain, record) {
        Ok(()) => {},
        Err(e) => {
            return Err(e);
        },
    }
    Ok(
        TransferTokenAccountsOutcome {
            effect_sol: SetOwnerEffect {
                account: source_account_sol.address,
                new_owner: *destination_account,
            },
            effect_olas: SetOwnerEffect {
                account: source_account_olas.address,
                new_owner: *destination_account,
            },
            event: TransferTokenAccountsEvent {
                signer: *signer,
                source_account_sol: source_account_sol.address,
                source_account_olas: source_account_olas.address,
                destination_account: *destination_account,
            },
        },
    )
}

/// What a successful authority reassignment hands back to the runtime.
#[derive(Clone, Copy, Debug, PartialEq, Eq)]
pub struct SetUpgradeAuthorityOutcome {
    pub effect: SetUpgradeAuthorityEffect,
    pub event: SetUpgradeAuthorityEvent,
}

/// The preconditions the two program-lifecycle actions share: the target
/// must be an executable program (else the caller supplied the wrong
/// account), and its current upgrade authority must be the treasury.
pub open spec fn upgrade_gate_error(
    program_account: ProgramAccountState,
    program_data: ProgramDataState,
    treasury: [u8; 32],
) -> Option<GovernorError> {
    if !program_account.executable {
        Some(GovernorError::WrongAccount)
    } else if !(program_data.upgrade_authority matches Some(a) && a@ == treasury@) {
        Some(GovernorError::WrongUpgradeAuthority)
    } else {
        None
    }
}

/// The transition of [`set_program_upgrade_authority`].
pub open spec fn spec_set_program_upgrade_authority(
    config: Config,
    entries: Seq<ReplayEntry>,
    env: Envelope,
    payload: Seq<u8>,
    treasury: [u8; 32],
    signer: [u8; 32],
    program_account: ProgramAccountState,
    program_data: ProgramDataState,
    upgrade_authority_account: [u8; 32],
) -> (Result<SetUpgradeAuthorityOutcome, GovernorError>, Config, Seq<ReplayEntry>) {
    if !(payload.len() == 65 && payload[0] == PAYLOAD_SET_UPGRADE_AUTHORITY) {
        (Err(GovernorError::InvalidPayload), config, entries)
    } else if !origin_ok(config, env) {
        (Err(GovernorError::InvalidForeignEmitter), config, entries)
    } else if !chain_ok(config, env) {
        (Err(GovernorError::InvalidForeignChain), config, entries)
    } else if payload.subrange(1, 33) != program_account.address@ {
        (Err(GovernorError::WrongAccount), config, entries)
    } else if payload.subrange(33, 65) != upgrade_authority_account@ {
        (Err(GovernorError::WrongAccount), config, entries)
    } else if upgrade_gate_error(program_account, program_data, treasury) is Some {
        (
            Err(upgrade_gate_error(program_account, program_data, treasury)->Some_0),
            config,
            entries,
        )
    } else if replayed(entries, env) {
        (Err(GovernorError::AlreadyProcessed), config, entries)
    } else {
        (
            Ok(
                SetUpgradeAuthorityOutcome {
                    effect: SetUpgradeAuthorityEffect {
                        program: program_account.address,
                        new_authority: upgrade_authority_account,
                    },
                    event: SetUpgradeAuthorityEvent {
                        signer,
                        program_account: program_account.address,
                        upgrade_authority_account,
                    },
                },
            ),
            config,
            entries.push(claimed_entry(env)),
        )
    }
}

/// Hand a governed program's upgrade authority to the new address a
/// verified foreign message names.  The treasury must currently hold that
/// authority; the runtime issues the reassignment request.
pub fn set_program_upgrade_authority(
    config: &mut Config,
    ledger: &mut ReplayLedger,
    env: &Envelope,
    payload: &[u8],
    treasury: &[u8; 32],
    signer: &[u8; 32],
    program_account: &ProgramAccountState,
    program_data: &ProgramDataState,
    upgrade_authority_account: &[u8; 32],
) -> (r: Result<SetUpgradeAuthorityOutcome, GovernorError>)
    ensures
        ({
            let (sr, sc, sl) = spec_set_program_upgrade_authority(
                *old(config),
                old(ledger).entries@,
                *env,
                payload@,
                *treasury,
                *signer,
                *program_account,
                *program_data,
                *upgrade_authority_account,
            );
            &&& r == sr
            &&& *final(config) == sc
            &&& final(ledger).entries@ == sl
        }),
        old(ledger).wf() ==> final(ledger).wf(),
{
    let m = match SetUpgradeAuthorityMessage::decode(payload) {
        Ok(m) => m,
        Err(_) => {
            return Err(GovernorError::InvalidPayload);
        },
    };
    proof {
        m.lemma_encode_shape();
    }
    if !config.verify(&env.origin_address) {
        return Err(GovernorError::InvalidForeignEmitter);
    }
    if env.origin_chain != config.chain {
        return Err(GovernorError::InvalidForeignChain);
    }
    if !bytes32_eq(&m.program_id_bytes, &program_account.address) {
        return Err(GovernorError::WrongAccount);
    }
    if !bytes32_eq(&m.upgrade_authority, upgrade_authority_account) {
        return Err(GovernorError::WrongAccount);
    }
    if !program_account.executable {
        return Err(GovernorError::WrongAccount);
    }
    match &program_data.upgrade_authority {
        Some(a) => {
            if !bytes32_eq(a, treasury) {
                return Err(GovernorError::WrongUpgradeAuthority);
            }
        },
        None => {
            return Err(GovernorError::WrongUpgradeAuthority);
        },
    }
    let record = Received {
        batch_id: env.batch_id,
        wormhole_message_hash: env.message_hash,
        sequence: env.sequence,
    };
    match ledger.record_if_absent(env.origin_chain, record) {
        Ok(()) => {},
        Err(e) => {
            return Err(e);
        },
    }
    Ok(
        SetUpgradeAuthorityOutcome {
            effect: SetUpgradeAuthorityEffect {
                program: program_account.address,
                new_authority: *upgrade_authority_account,
            },
            event: SetUpgradeAuthorityEvent {
                signer: *signer,
                program_account: program_account.address,
                upgrade_authority_account: *upgrade_authority_account,
            },
        },
    )
}

/// What a successful program upgrade hands back to the runtime.
#[derive(Clone, Copy, Debug, PartialEq, Eq)]
pub struct UpgradeProgramOutcome {
    pub effect: UpgradeProgramEffect,
    pub event: UpgradeProgramEvent,
}

/// The transition of [`upgrade_program`].
pub open spec fn spec_upgrade_program(
    config: Config,
    entries: Seq<ReplayEntry>,
    env: Envelope,
    payload: Seq<u8>,
    treasury: [u8; 32],
    signer: [u8; 32],
    program_account: ProgramAccountState,
    program_data: ProgramDataState,
    buffer_account: [u8; 32],
    spill_account: [u8; 32],
) -> (Result<UpgradeProgramOutcome, GovernorError>, Config, Seq<ReplayEntry>) {
    if !(payload.len() == 97 && payload[0] == PAYLOAD_UPGRADE_PROGRAM) {
        (Err(GovernorError::InvalidPayload), config, entries)
    } else if !origin_ok(config, env) {
        (Err(GovernorError::InvalidForeignEmitter), config, entries)
    } else if !chain_ok(config, env) {
        (Err(GovernorError::InvalidForeignChain), config, entries)
    } else if payload.subrange(1, 33) != program_account.address@ {
        (Err(GovernorError::WrongAccount), config, entries)
    } else if payload.subrange(33, 65) != buffer_account@ {
        (Err(GovernorError::WrongAccount), config, entries)
    } else if payload.subrange(65, 97) != spill_account@ {
        (Err(GovernorError::WrongAccount), config, entries)
    } else if upgrade_gate_error(program_account, program_data, treasury) is Some {
        (
            Err(upgrade_gate_error(program_account, program_data, treasury)->Some_0),
            config,
            entries,
        )
    } else if replayed(entries, env) {
        (Err(GovernorError::AlreadyProcessed), config, entries)
    } else {
        (
            Ok(
                UpgradeProgramOutcome {
                    effect: UpgradeProgramEffect {
                        program: program_account.address,
                        buffer: buffer_account,
                        spill: spill_account,
                    },
                    event: UpgradeProgramEvent {
                        signer,
                        program_account: program_account.address,
                        buffer_account,
                        spill_account,
                    },
                },
            ),
            config,
            entries.push(claimed_entry(env)),
        )
    }
}

/// Replace a governed program's code from the staged buffer a verified
/// foreign message names, refunding excess rent to the named spill
/// account.  The treasury must currently hold the program's upgrade
/// authority; the runtime issues the upgrade request.
pub fn upgrade_program(
    config: &mut Config,
    ledger: &mut ReplayLedger,
    env: &Envelope,
    payload: &[u8],
    treasury: &[u8; 32],
    signer: &[u8; 32],
    program_account: &ProgramAccountState,
    program_data: &ProgramDataState,
    buffer_account: &[u8; 32],
    spill_account: &[u8; 32],
) -> (r: Result<UpgradeProgramOutcome, GovernorError>)
    ensures
        ({
            let (sr, sc, sl) = spec_upgrade_program(
                *old(config),
                old(ledger).entries@,
                *env,
                payload@,
                *treasury,
                *signer,
                *program_account,
                *program_data,
                *buffer_account,
                *spill_account,
            );
            &&& r == sr
            &&& *final(config) == sc
            &&& final(ledger).entries@ == sl
        }),
        old(ledger).wf() ==> final(ledger).wf(),
{
    let m = match UpgradeProgramMessage::decode(payload) {
        Ok(m) => m,
        Err(_) => {
            return Err(GovernorError::InvalidPayload);
        },
    };
    proof {
        m.lemma_encode_shape();
    }
    if !config.verify(&env.origin_address) {
        return Err(GovernorError::InvalidForeignEmitter);
    }
    if env.origin_chain != config.chain {
        return Err(GovernorError::InvalidForeignChain);
    }
    if !bytes32_eq(&m.program_id_bytes, &program_account.address) {
        return Err(GovernorError::WrongAccount);
    }
    if !bytes32_eq(&m.buffer_account_bytes, buffer_account) {
        return Err(GovernorError::WrongAccount);
    }
    if !bytes32_eq(&m.spill_account_bytes, spill_account) {
        return Err(GovernorError::WrongAccount);
    }
    if !program_account.executable {
        return Err(GovernorError::WrongAccount);
    }
    match &program_data.upgrade_authority {
        Some(a) => {
            if !bytes32_eq(a, treasury) {
                return Err(GovernorError::WrongUpgradeAuthority);
            }
        },
        None => {
            return Err(GovernorError::WrongUpgradeAuthority);
        },
    }
    let record = Received {
        batch_id: env.batch_id,
        wormhole_message_hash: env.message_hash,
        sequence: env.sequence,
    };
    match ledger.record_if_absent(env.origin_chain, record) {
        Ok(()) => {},
        Err(e) => {
            return Err(e);
        },
    }
    Ok(
        UpgradeProgramOutcome {
            effect: UpgradeProgramEffect {
                program: program_account.address,
                buffer: *buffer_account,
                spill: *spill_account,
            },
            event: UpgradeProgramEvent {
                signer: *signer,
                program_account: program_account.address,
                buffer_account: *buffer_account,
                spill_account: *spill_account,
            },
        },
    )
}

} // verus!
