//! Round-trip and rejection tests for the wire payload codec.

use lockbox_governor::errors::DecodeError;
use lockbox_governor::message::{
    SetUpgradeAuthorityMessage, TransferAllMessage, TransferMessage,
    TransferTokenAccountsMessage, UpgradeProgramMessage,
};

fn addr(b: u8) -> [u8; 32] {
    [b; 32]
}

#[test]
fn transfer_round_trip() {
    let m = TransferMessage { source: addr(0x11), destination: addr(0x22), amount: 500 };
    let bytes = m.encode();
    assert_eq!(bytes.len(), 73);
    assert_eq!(TransferMessage::decode(&bytes), Ok(m));
}

#[test]
fn transfer_round_trip_extremes() {
    let zero = TransferMessage { source: addr(0), destination: addr(0), amount: 0 };
    assert_eq!(TransferMessage::decode(&zero.encode()), Ok(zero));
    let max = TransferMessage { source: addr(0xFF), destination: addr(0xFF), amount: u64::MAX };
    assert_eq!(TransferMessage::decode(&max.encode()), Ok(max));
}

#[test]
fn transfer_exact_layout() {
    let m = TransferMessage { source: addr(0xAB), destination: addr(0xCD), amount: 0x0102030405060708 };
    let bytes = m.encode();
    assert_eq!(bytes[0], 0);
    assert_eq!(&bytes[1..33], &[0xAB; 32]);
    assert_eq!(&bytes[33..65], &[0xCD; 32]);
    // Little-endian amount.
    assert_eq!(&bytes[65..73], &[0x08, 0x07, 0x06, 0x05, 0x04, 0x03, 0x02, 0x01]);
}

#[test]
fn transfer_all_round_trip() {
    let m = TransferAllMessage {
        source_sol: addr(1),
        source_olas: addr(2),
        destination_sol: addr(3),
        destination_olas: addr(4),
    };
    let bytes = m.encode();
    assert_eq!(bytes.len(), 129);
    assert_eq!(bytes[0], 1);
    assert_eq!(TransferAllMessage::decode(&bytes), Ok(m));
    let zero = TransferAllMessage {
        source_sol: addr(0),
        source_olas: addr(0),
        destination_sol: addr(0),
        destination_olas: addr(0),
    };
    assert_eq!(TransferAllMessage::decode(&zero.encode()), Ok(zero));
    let max = TransferAllMessage {
        source_sol: addr(0xFF),
        source_olas: addr(0xFF),
        destination_sol: addr(0xFF),
        destination_olas: addr(0xFF),
    };
    assert_eq!(TransferAllMessage::decode(&max.encode()), Ok(max));
}

#[test]
fn transfer_token_accounts_round_trip() {
    let m = TransferTokenAccountsMessage {
        source_sol: addr(5),
        source_olas: addr(6),
        destination: addr(7),
    };
    let bytes = m.encode();
    assert_eq!(bytes.len(), 97);
    assert_eq!(bytes[0], 2);
    assert_eq!(TransferTokenAccountsMessage::decode(&bytes), Ok(m));
    let zero = TransferTokenAccountsMessage {
        source_sol: addr(0),
        source_olas: addr(0),
        destination: addr(0),
    };
    assert_eq!(TransferTokenAccountsMessage::decode(&zero.encode()), Ok(zero));
}

#[test]
fn set_upgrade_authority_round_trip() {
    let m = SetUpgradeAuthorityMessage { program_id_bytes: addr(8), upgrade_authority: addr(9) };
    let bytes = m.encode();
    assert_eq!(bytes.len(), 65);
    assert_eq!(bytes[0], 3);
    assert_eq!(SetUpgradeAuthorityMessage::decode(&bytes), Ok(m));
    let max = SetUpgradeAuthorityMessage {
        program_id_bytes: addr(0xFF),
        upgrade_authority: addr(0xFF),
    };
    assert_eq!(SetUpgradeAuthorityMessage::decode(&max.encode()), Ok(max));
}

#[test]
fn upgrade_program_round_trip() {
    let m = UpgradeProgramMessage {
        program_id_bytes: addr(10),
        buffer_account_bytes: addr(11),
        spill_account_bytes: addr(12),
    };
    let bytes = m.encode();
    assert_eq!(bytes.len(), 97);
    assert_eq!(bytes[0], 4);
    assert_eq!(UpgradeProgramMessage::decode(&bytes), Ok(m));
}

#[test]
fn decode_rejects_empty() {
    assert_eq!(TransferMessage::decode(&[]), Err(DecodeError::WrongLength));
    assert_eq!(TransferAllMessage::decode(&[]), Err(DecodeError::WrongLength));
    assert_eq!(TransferTokenAccountsMessage::decode(&[]), Err(DecodeError::WrongLength));
    assert_eq!(SetUpgradeAuthorityMessage::decode(&[]), Err(DecodeError::WrongLength));
    assert_eq!(UpgradeProgramMessage::decode(&[]), Err(DecodeError::WrongLength));
}

#[test]
fn decode_rejects_unknown_discriminant() {
    let mut bytes = TransferMessage {
        source: addr(1),
        destination: addr(2),
        amount: 3,
    }
    .encode();
    bytes[0] = 7;
    assert_eq!(TransferMessage::decode(&bytes), Err(DecodeError::UnknownDiscriminant));
    // Each decoder also refuses the (valid) discriminant of another variant.
    bytes[0] = 1;
    assert_eq!(TransferMessage::decode(&bytes), Err(DecodeError::UnknownDiscriminant));
    assert_eq!(
        TransferTokenAccountsMessage::decode(&bytes),
        Err(DecodeError::UnknownDiscriminant)
    );
}

#[test]
fn decode_rejects_truncated() {
    let bytes = TransferMessage { source: addr(1), destination: addr(2), amount: 3 }.encode();
    assert_eq!(TransferMessage::decode(&bytes[..72]), Err(DecodeError::WrongLength));
    assert_eq!(TransferMessage::decode(&bytes[..1]), Err(DecodeError::WrongLength));
    let bytes = SetUpgradeAuthorityMessage {
        program_id_bytes: addr(1),
        upgrade_authority: addr(2),
    }
    .encode();
    assert_eq!(SetUpgradeAuthorityMessage::decode(&bytes[..64]), Err(DecodeError::WrongLength));
}

#[test]
fn decode_rejects_trailing_bytes() {
    let mut bytes = TransferMessage { source: addr(1), destination: addr(2), amount: 3 }.encode();
    bytes.push(0);
    assert_eq!(TransferMessage::decode(&bytes), Err(DecodeError::WrongLength));
    let mut bytes = UpgradeProgramMessage {
        program_id_bytes: addr(1),
        buffer_account_bytes: addr(2),
        spill_account_bytes: addr(3),
    }
    .encode();
    bytes.push(0xFF);
    assert_eq!(UpgradeProgramMessage::decode(&bytes), Err(DecodeError::WrongLength));
}
