//! End-to-end scenarios for the five governed actions.

use lockbox_governor::accounts::{Envelope, ProgramAccountState, ProgramDataState, TokenAccountState};
use lockbox_governor::config::Config;
use lockbox_governor::errors::GovernorError;
use lockbox_governor::governor::{
    initialize, set_program_upgrade_authority, transfer, transfer_all, transfer_token_accounts,
    upgrade_program,
};
use lockbox_governor::ids::{olas_mint, sol_mint};
use lockbox_governor::message::{
    SetUpgradeAuthorityMessage, TransferAllMessage, TransferMessage,
    TransferTokenAccountsMessage, UpgradeProgramMessage,
};
use lockbox_governor::replay::ReplayLedger;

fn addr(b: u8) -> [u8; 32] {
    [b; 32]
}

const AUTHORITY: [u8; 32] = [0xAA; 32];
const TREASURY: [u8; 32] = [0x70; 32];
const SIGNER: [u8; 32] = [0x51; 32];

fn config() -> Config {
    initialize(2, &AUTHORITY, 254).unwrap()
}

fn envelope(sequence: u64) -> Envelope {
    Envelope {
        origin_chain: 2,
        origin_address: AUTHORITY,
        sequence,
        batch_id: 0,
        message_hash: addr(0xE0),
    }
}

fn token_account(address: [u8; 32], mint: [u8; 32], amount: u64) -> TokenAccountState {
    TokenAccountState { address, mint, owner: TREASURY, amount }
}

#[test]
fn transfer_scenario() {
    let mut config = config();
    let mut ledger = ReplayLedger::new();
    let source = token_account(addr(0x01), sol_mint(), 800);
    let destination = token_account(addr(0x02), sol_mint(), 0);
    let payload = TransferMessage { source: addr(0x01), destination: addr(0x02), amount: 500 }
        .encode();
    let env = envelope(9);

    let outcome = transfer(
        &mut config, &mut ledger, &env, &payload, &TREASURY, &SIGNER, &source, &destination,
    )
    .unwrap();

    // The matching running total is raised.
    assert_eq!(config.total_sol_transferred, 500);
    assert_eq!(config.total_olas_transferred, 0);
    // The requested ledger effect debits the source and credits the
    // destination by exactly the message's amount.
    assert_eq!(outcome.effect.source, addr(0x01));
    assert_eq!(outcome.effect.destination, addr(0x02));
    assert_eq!(outcome.effect.amount, 500);
    assert_eq!(source.amount - outcome.effect.amount, 300);
    assert_eq!(destination.amount + outcome.effect.amount, 500);
    // A replay record for (2, 9) now exists.
    assert_eq!(ledger.entries.len(), 1);
    assert_eq!(ledger.entries[0].chain, 2);
    assert_eq!(ledger.entries[0].record.sequence, 9);
    assert_eq!(ledger.entries[0].record.wormhole_message_hash, addr(0xE0));
    // The notification names the caller, the asset and the amount.
    assert_eq!(outcome.event.signer, SIGNER);
    assert_eq!(outcome.event.token, sol_mint());
    assert_eq!(outcome.event.destination, addr(0x02));
    assert_eq!(outcome.event.amount, 500);
}

#[test]
fn transfer_replayed_message_is_rejected_once_processed() {
    let mut config = config();
    let mut ledger = ReplayLedger::new();
    let source = token_account(addr(0x01), sol_mint(), 800);
    let destination = token_account(addr(0x02), sol_mint(), 0);
    let payload = TransferMessage { source: addr(0x01), destination: addr(0x02), amount: 100 }
        .encode();
    let env = envelope(9);

    assert!(transfer(
        &mut config, &mut ledger, &env, &payload, &TREASURY, &SIGNER, &source, &destination,
    )
    .is_ok());
    // The very same message again: refused, and the balance effect is not
    // applied a second time.
    let second = transfer(
        &mut config, &mut ledger, &env, &payload, &TREASURY, &SIGNER, &source, &destination,
    );
    assert_eq!(second, Err(GovernorError::AlreadyProcessed));
    assert_eq!(config.total_sol_transferred, 100);
    assert_eq!(ledger.entries.len(), 1);
    // A different sequence is a fresh message.
    assert!(transfer(
        &mut config, &mut ledger, &envelope(10), &payload, &TREASURY, &SIGNER, &source,
        &destination,
    )
    .is_ok());
    assert_eq!(config.total_sol_transferred, 200);
}

#[test]
fn transfer_rejects_wrong_origin_and_chain() {
    let mut config = config();
    let mut ledger = ReplayLedger::new();
    let source = token_account(addr(0x01), sol_mint(), 800);
    let destination = token_account(addr(0x02), sol_mint(), 0);
    let payload = TransferMessage { source: addr(0x01), destination: addr(0x02), amount: 1 }
        .encode();

    let mut env = envelope(9);
    env.origin_address = addr(0xAB);
    assert_eq!(
        transfer(&mut config, &mut ledger, &env, &payload, &TREASURY, &SIGNER, &source,
            &destination),
        Err(GovernorError::InvalidForeignEmitter)
    );

    let mut env = envelope(9);
    env.origin_chain = 3;
    assert_eq!(
        transfer(&mut config, &mut ledger, &env, &payload, &TREASURY, &SIGNER, &source,
            &destination),
        Err(GovernorError::InvalidForeignChain)
    );
    assert_eq!(config.total_sol_transferred, 0);
    assert_eq!(ledger.entries.len(), 0);
}

#[test]
fn transfer_rejects_substituted_accounts() {
    let mut config = config();
    let mut ledger = ReplayLedger::new();
    let payload = TransferMessage { source: addr(0x01), destination: addr(0x02), amount: 1 }
        .encode();
    let env = envelope(9);
    // The message is authentic, but the supplied source is not the account
    // the message names.
    let wrong_source = token_account(addr(0x03), sol_mint(), 800);
    let destination = token_account(addr(0x02), sol_mint(), 0);
    assert_eq!(
        transfer(&mut config, &mut ledger, &env, &payload, &TREASURY, &SIGNER, &wrong_source,
            &destination),
        Err(GovernorError::WrongAccount)
    );
    // Same for the destination.
    let source = token_account(addr(0x01), sol_mint(), 800);
    let wrong_destination = token_account(addr(0x04), sol_mint(), 0);
    assert_eq!(
        transfer(&mut config, &mut ledger, &env, &payload, &TREASURY, &SIGNER, &source,
            &wrong_destination),
        Err(GovernorError::WrongAccount)
    );
    assert_eq!(ledger.entries.len(), 0);
}

#[test]
fn transfer_rejects_foreign_owner() {
    let mut config = config();
    let mut ledger = ReplayLedger::new();
    let mut source = token_account(addr(0x01), sol_mint(), 800);
    source.owner = addr(0x66);
    let destination = token_account(addr(0x02), sol_mint(), 0);
    let payload = TransferMessage { source: addr(0x01), destination: addr(0x02), amount: 1 }
        .encode();
    assert_eq!(
        transfer(&mut config, &mut ledger, &envelope(9), &payload, &TREASURY, &SIGNER, &source,
            &destination),
        Err(GovernorError::WrongAccountOwner)
    );
}

#[test]
fn transfer_mismatched_mint_fails_then_retry_succeeds() {
    let mut config = config();
    let mut ledger = ReplayLedger::new();
    let payload = TransferMessage { source: addr(0x01), destination: addr(0x02), amount: 10 }
        .encode();
    let env = envelope(9);
    // Source holds OLAS but the destination holds SOL: refused, and no
    // replay record is written.
    let source = token_account(addr(0x01), olas_mint(), 800);
    let destination = token_account(addr(0x02), sol_mint(), 0);
    assert_eq!(
        transfer(&mut config, &mut ledger, &env, &payload, &TREASURY, &SIGNER, &source,
            &destination),
        Err(GovernorError::WrongTokenMint)
    );
    assert_eq!(ledger.entries.len(), 0);
    assert_eq!(config.total_sol_transferred, 0);
    assert_eq!(config.total_olas_transferred, 0);
    // The same message with corrected accounts later succeeds.
    let source = token_account(addr(0x01), sol_mint(), 800);
    let destination = token_account(addr(0x02), sol_mint(), 0);
    assert!(transfer(
        &mut config, &mut ledger, &env, &payload, &TREASURY, &SIGNER, &source, &destination,
    )
    .is_ok());
    assert_eq!(config.total_sol_transferred, 10);
}

#[test]
fn transfer_rejects_insufficient_balance_and_total_overflow() {
    let mut config = config();
    let mut ledger = ReplayLedger::new();
    let destination = token_account(addr(0x02), sol_mint(), 0);
    // Amount above the source balance.
    let source = token_account(addr(0x01), sol_mint(), 400);
    let payload = TransferMessage { source: addr(0x01), destination: addr(0x02), amount: 500 }
        .encode();
    assert_eq!(
        transfer(&mut config, &mut ledger, &envelope(9), &payload, &TREASURY, &SIGNER, &source,
            &destination),
        Err(GovernorError::Overflow)
    );
    // A total that would leave the 64-bit range.
    config.total_sol_transferred = u64::MAX - 100;
    let source = token_account(addr(0x01), sol_mint(), 500);
    assert_eq!(
        transfer(&mut config, &mut ledger, &envelope(9), &payload, &TREASURY, &SIGNER, &source,
            &destination),
        Err(GovernorError::Overflow)
    );
    assert_eq!(config.total_sol_transferred, u64::MAX - 100);
    assert_eq!(ledger.entries.len(), 0);
}

#[test]
fn transfer_rejects_wrong_payload_variant() {
    let mut config = config();
    let mut ledger = ReplayLedger::new();
    let source = token_account(addr(0x01), sol_mint(), 800);
    let destination = token_account(addr(0x02), sol_mint(), 0);
    let payload = TransferAllMessage {
        source_sol: addr(0x01),
        source_olas: addr(0x03),
        destination_sol: addr(0x02),
        destination_olas: addr(0x04),
    }
    .encode();
    assert_eq!(
        transfer(&mut config, &mut ledger, &envelope(9), &payload, &TREASURY, &SIGNER, &source,
            &destination),
        Err(GovernorError::InvalidPayload)
    );
}

#[test]
fn transfer_all_scenario_skips_empty_balance() {
    let mut config = config();
    let mut ledger = ReplayLedger::new();
    let source_sol = token_account(addr(0x01), sol_mint(), 0);
    let source_olas = token_account(addr(0x03), olas_mint(), 700);
    let destination_sol = token_account(addr(0x02), sol_mint(), 0);
    let destination_olas = token_account(addr(0x04), olas_mint(), 0);
    let payload = TransferAllMessage {
        source_sol: addr(0x01),
        source_olas: addr(0x03),
        destination_sol: addr(0x02),
        destination_olas: addr(0x04),
    }
    .encode();

    let outcome = transfer_all(
        &mut config, &mut ledger, &envelope(9), &payload, &TREASURY, &SIGNER, &source_sol,
        &source_olas, &destination_sol, &destination_olas,
    )
    .unwrap();

    // The zero SOL balance is skipped; only the OLAS sweep is requested.
    assert_eq!(outcome.effect_sol, None);
    let effect_olas = outcome.effect_olas.unwrap();
    assert_eq!(effect_olas.source, addr(0x03));
    assert_eq!(effect_olas.destination, addr(0x04));
    assert_eq!(effect_olas.amount, 700);
    // Totals reflect only the 700.
    assert_eq!(config.total_sol_transferred, 0);
    assert_eq!(config.total_olas_transferred, 700);
    assert_eq!(outcome.event.amount_sol, 0);
    assert_eq!(outcome.event.amount_olas, 700);
    assert_eq!(ledger.entries.len(), 1);
}

#[test]
fn transfer_all_rejects_wrong_origin_and_replay() {
    let mut config = config();
    let mut ledger = ReplayLedger::new();
    let source_sol = token_account(addr(0x01), sol_mint(), 5);
    let source_olas = token_account(addr(0x03), olas_mint(), 7);
    let destination_sol = token_account(addr(0x02), sol_mint(), 0);
    let destination_olas = token_account(addr(0x04), olas_mint(), 0);
    let payload = TransferAllMessage {
        source_sol: addr(0x01),
        source_olas: addr(0x03),
        destination_sol: addr(0x02),
        destination_olas: addr(0x04),
    }
    .encode();

    let mut env = envelope(9);
    env.origin_address = addr(0x00);
    assert_eq!(
        transfer_all(&mut config, &mut ledger, &env, &payload, &TREASURY, &SIGNER, &source_sol,
            &source_olas, &destination_sol, &destination_olas),
        Err(GovernorError::InvalidForeignEmitter)
    );

    assert!(transfer_all(
        &mut config, &mut ledger, &envelope(9), &payload, &TREASURY, &SIGNER, &source_sol,
        &source_olas, &destination_sol, &destination_olas,
    )
    .is_ok());
    assert_eq!(
        transfer_all(&mut config, &mut ledger, &envelope(9), &payload, &TREASURY, &SIGNER,
            &source_sol, &source_olas, &destination_sol, &destination_olas),
        Err(GovernorError::AlreadyProcessed)
    );
    assert_eq!(config.total_sol_transferred, 5);
    assert_eq!(config.total_olas_transferred, 7);
}

#[test]
fn transfer_all_rejects_misplaced_mints() {
    let mut config = config();
    let mut ledger = ReplayLedger::new();
    // The two source accounts are swapped: the first must hold SOL.
    let source_sol = token_account(addr(0x01), olas_mint(), 5);
    let source_olas = token_account(addr(0x03), sol_mint(), 7);
    let destination_sol = token_account(addr(0x02), sol_mint(), 0);
    let destination_olas = token_account(addr(0x04), olas_mint(), 0);
    let payload = TransferAllMessage {
        source_sol: addr(0x01),
        source_olas: addr(0x03),
        destination_sol: addr(0x02),
        destination_olas: addr(0x04),
    }
    .encode();
    assert_eq!(
        transfer_all(&mut config, &mut ledger, &envelope(9), &payload, &TREASURY, &SIGNER,
            &source_sol, &source_olas, &destination_sol, &destination_olas),
        Err(GovernorError::WrongTokenMint)
    );
}

#[test]
fn transfer_token_accounts_scenario() {
    let mut config = config();
    let mut ledger = ReplayLedger::new();
    let source_sol = token_account(addr(0x01), sol_mint(), 5);
    let source_olas = token_account(addr(0x03), olas_mint(), 7);
    let new_owner = addr(0x09);
    let payload = TransferTokenAccountsMessage {
        source_sol: addr(0x01),
        source_olas: addr(0x03),
        destination: new_owner,
    }
    .encode();

    let outcome = transfer_token_accounts(
        &mut config, &mut ledger, &envelope(9), &payload, &TREASURY, &SIGNER, &source_sol,
        &source_olas, &new_owner,
    )
    .unwrap();

    assert_eq!(outcome.effect_sol.account, addr(0x01));
    assert_eq!(outcome.effect_sol.new_owner, new_owner);
    assert_eq!(outcome.effect_olas.account, addr(0x03));
    assert_eq!(outcome.effect_olas.new_owner, new_owner);
    // No balances move and no totals change.
    assert_eq!(config.total_sol_transferred, 0);
    assert_eq!(config.total_olas_transferred, 0);
    assert_eq!(ledger.entries.len(), 1);
    // Replay of the same message is refused.
    assert_eq!(
        transfer_token_accounts(&mut config, &mut ledger, &envelope(9), &payload, &TREASURY,
            &SIGNER, &source_sol, &source_olas, &new_owner),
        Err(GovernorError::AlreadyProcessed)
    );
}

#[test]
fn transfer_token_accounts_rejects_substitution() {
    let mut config = config();
    let mut ledger = ReplayLedger::new();
    let source_sol = token_account(addr(0x01), sol_mint(), 5);
    let source_olas = token_account(addr(0x03), olas_mint(), 7);
    let payload = TransferTokenAccountsMessage {
        source_sol: addr(0x01),
        source_olas: addr(0x03),
        destination: addr(0x09),
    }
    .encode();
    // The supplied new owner is not the one the message names.
    assert_eq!(
        transfer_token_accounts(&mut config, &mut ledger, &envelope(9), &payload, &TREASURY,
            &SIGNER, &source_sol, &source_olas, &addr(0x0A)),
        Err(GovernorError::WrongAccount)
    );
    assert_eq!(ledger.entries.len(), 0);
}

#[test]
fn set_program_upgrade_authority_scenario() {
    let mut config = config();
    let mut ledger = ReplayLedger::new();
    let program = ProgramAccountState { address: addr(0x30), executable: true };
    let program_data = ProgramDataState { upgrade_authority: Some(TREASURY) };
    let new_authority = addr(0x31);
    let payload = SetUpgradeAuthorityMessage {
        program_id_bytes: addr(0x30),
        upgrade_authority: new_authority,
    }
    .encode();

    let outcome = set_program_upgrade_authority(
        &mut config, &mut ledger, &envelope(9), &payload, &TREASURY, &SIGNER, &program,
        &program_data, &new_authority,
    )
    .unwrap();

    assert_eq!(outcome.effect.program, addr(0x30));
    assert_eq!(outcome.effect.new_authority, new_authority);
    assert_eq!(outcome.event.program_account, addr(0x30));
    assert_eq!(ledger.entries.len(), 1);
}

#[test]
fn set_program_upgrade_authority_rejects_wrong_authority() {
    let mut config = config();
    let mut ledger = ReplayLedger::new();
    let program = ProgramAccountState { address: addr(0x30), executable: true };
    let new_authority = addr(0x31);
    let payload = SetUpgradeAuthorityMessage {
        program_id_bytes: addr(0x30),
        upgrade_authority: new_authority,
    }
    .encode();
    // The treasury does not hold the upgrade authority.
    let foreign = ProgramDataState { upgrade_authority: Some(addr(0x66)) };
    assert_eq!(
        set_program_upgrade_authority(&mut config, &mut ledger, &envelope(9), &payload,
            &TREASURY, &SIGNER, &program, &foreign, &new_authority),
        Err(GovernorError::WrongUpgradeAuthority)
    );
    // Nobody holds it.
    let none = ProgramDataState { upgrade_authority: None };
    assert_eq!(
        set_program_upgrade_authority(&mut config, &mut ledger, &envelope(9), &payload,
            &TREASURY, &SIGNER, &program, &none, &new_authority),
        Err(GovernorError::WrongUpgradeAuthority)
    );
    // The target is not an executable program.
    let data = ProgramDataState { upgrade_authority: Some(TREASURY) };
    let not_executable = ProgramAccountState { address: addr(0x30), executable: false };
    assert_eq!(
        set_program_upgrade_authority(&mut config, &mut ledger, &envelope(9), &payload,
            &TREASURY, &SIGNER, &not_executable, &data, &new_authority),
        Err(GovernorError::WrongAccount)
    );
    assert_eq!(ledger.entries.len(), 0);
}

#[test]
fn upgrade_program_scenario() {
    let mut config = config();
    let mut ledger = ReplayLedger::new();
    let program = ProgramAccountState { address: addr(0x30), executable: true };
    let program_data = ProgramDataState { upgrade_authority: Some(TREASURY) };
    let buffer = addr(0x40);
    let spill = addr(0x41);
    let payload = UpgradeProgramMessage {
        program_id_bytes: addr(0x30),
        buffer_account_bytes: buffer,
        spill_account_bytes: spill,
    }
    .encode();

    let outcome = upgrade_program(
        &mut config, &mut ledger, &envelope(9), &payload, &TREASURY, &SIGNER, &program,
        &program_data, &buffer, &spill,
    )
    .unwrap();

    assert_eq!(outcome.effect.program, addr(0x30));
    assert_eq!(outcome.effect.buffer, buffer);
    assert_eq!(outcome.effect.spill, spill);
    assert_eq!(ledger.entries.len(), 1);
    // Replay of the same upgrade is refused.
    assert_eq!(
        upgrade_program(&mut config, &mut ledger, &envelope(9), &payload, &TREASURY, &SIGNER,
            &program, &program_data, &buffer, &spill),
        Err(GovernorError::AlreadyProcessed)
    );
}

#[test]
fn upgrade_program_rejects_substituted_buffer() {
    let mut config = config();
    let mut ledger = ReplayLedger::new();
    let program = ProgramAccountState { address: addr(0x30), executable: true };
    let program_data = ProgramDataState { upgrade_authority: Some(TREASURY) };
    let payload = UpgradeProgramMessage {
        program_id_bytes: addr(0x30),
        buffer_account_bytes: addr(0x40),
        spill_account_bytes: addr(0x41),
    }
    .encode();
    // A different staged buffer than the message names.
    assert_eq!(
        upgrade_program(&mut config, &mut ledger, &envelope(9), &payload, &TREASURY, &SIGNER,
            &program, &program_data, &addr(0x44), &addr(0x41)),
        Err(GovernorError::WrongAccount)
    );
    assert_eq!(ledger.entries.len(), 0);
}
