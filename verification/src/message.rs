//! Wire payload codec.
//!
//! A message body is one discriminant byte followed by a fixed sequence of
//! 32-byte identifiers and, for a transfer, one little-endian 64-bit
//! amount.  Decoding is total and rejecting: an unknown discriminant or a
//! buffer of the wrong length is an error, never a partial parse.  Each
//! decoder returns exactly the message whose encoding equals the input
//! buffer, so together with injectivity of the encoding (proved below)
//! decoding is the inverse of encoding.

use vstd::prelude::*;
use vstd::bytes::{
    lemma_auto_spec_u64_to_from_le_bytes, spec_u64_from_le_bytes, spec_u64_to_le_bytes,
    u64_from_le_bytes, u64_to_le_bytes,
};
use vstd::slice::slice_subrange;

use crate::bytes32::{bytes32_read, push_bytes32};
use crate::errors::DecodeError;

verus! {

/// Discriminant of a [`TransferMessage`].
pub const PAYLOAD_TRANSFER: u8 = 0;

/// Discriminant of a [`TransferAllMessage`].
pub const PAYLOAD_TRANSFER_ALL: u8 = 1;

/// Discriminant of a [`TransferTokenAccountsMessage`].
pub const PAYLOAD_TRANSFER_TOKEN_ACCOUNTS: u8 = 2;

/// Discriminant of a [`SetUpgradeAuthorityMessage`].
pub const PAYLOAD_SET_UPGRADE_AUTHORITY: u8 = 3;

/// Discriminant of an [`UpgradeProgramMessage`].
pub const PAYLOAD_UPGRADE_PROGRAM: u8 = 4;

/// Move one token balance: debit `source`, credit `destination`, `amount`
/// units.
#[derive(Clone, Copy, Debug, PartialEq, Eq)]
pub struct TransferMessage {
    pub source: [u8; 32],
    pub destination: [u8; 32],
    pub amount: u64,
}

impl TransferMessage {
    /// The encoded form: tag, source, destination, little-endian amount.
    pub open spec fn spec_encode(self) -> Seq<u8> {
        seq![PAYLOAD_TRANSFER] + self.source@ + self.destination@
            + spec_u64_to_le_bytes(self.amount)
    }

    /// Where each field lands in the encoded form.
    pub proof fn lemma_encode_shape(self)
        ensures
            self.spec_encode().len() == 73,
            self.spec_encode()[0] == PAYLOAD_TRANSFER,
            self.spec_encode().subrange(1, 33) == self.source@,
            self.spec_encode().subrange(33, 65) == self.destination@,
            self.spec_encode().subrange(65, 73) == spec_u64_to_le_bytes(self.amount),
    {
        lemma_auto_spec_u64_to_from_le_bytes();
        assert(self.spec_encode().subrange(1, 33) =~= self.source@);
        assert(self.spec_encode().subrange(33, 65) =~= self.destination@);
        assert(self.spec_encode().subrange(65, 73) =~= spec_u64_to_le_bytes(self.amount));
    }

    pub fn encode(&self) -> (r: Vec<u8>)
        ensures
            r@ == self.spec_encode(),
            r@.len() == 73,
    {
        let mut out: Vec<u8> = Vec::new();
        out.push(PAYLOAD_TRANSFER);
        push_bytes32(&mut out, &self.source);
        push_bytes32(&mut out, &self.destination);
        let mut amt = u64_to_le_bytes(self.amount);
        out.append(&mut amt);
        proof {
            assert(out@ =~= self.spec_encode());
        }
        out
    }

    pub fn decode(payload: &[u8]) -> (r: Result<TransferMessage, DecodeError>)
        ensures
            r is Ok <==> payload@.len() == 73 && payload@[0] == PAYLOAD_TRANSFER,
            r matches Ok(m) ==> m.spec_encode() == payload@,
            r == Err::<TransferMessage, DecodeError>(DecodeError::UnknownDiscriminant)
                <==> payload@.len() >= 1 && payload@[0] != PAYLOAD_TRANSFER,
            r == Err::<TransferMessage, DecodeError>(DecodeError::WrongLength)
                <==> payload@.len() == 0
                    || (payload@[0] == PAYLOAD_TRANSFER && payload@.len() != 73),
    {
        if payload.len() == 0 {
            return Err(DecodeError::WrongLength);
        }
        if payload[0] != PAYLOAD_TRANSFER {
            return Err(DecodeError::UnknownDiscriminant);
        }
        if payload.len() != 73 {
            return Err(DecodeError::WrongLength);
        }
        let source = bytes32_read(payload, 1);
        let destination = bytes32_read(payload, 33);
        let amount = u64_from_le_bytes(slice_subrange(payload, 65, 73));
        let m = TransferMessage { source, destination, amount };
        proof {
            lemma_auto_spec_u64_to_from_le_bytes();
            m.lemma_encode_shape();
            assert(m.spec_encode() =~= payload@);
        }
        Ok(m)
    }
}

/// Sweep both full balances: debit each source, credit the matching
/// destination.  No amounts are carried; the handler reads live balances.
#[derive(Clone, Copy, Debug, PartialEq, Eq)]
pub struct TransferAllMessage {
    pub source_sol: [u8; 32],
    pub source_olas: [u8; 32],
    pub destination_sol: [u8; 32],
    pub destination_olas: [u8; 32],
}

impl TransferAllMessage {
    /// The encoded form: tag, then the four account identifiers.
    pub open spec fn spec_encode(self) -> Seq<u8> {
        seq![PAYLOAD_TRANSFER_ALL] + self.source_sol@ + self.source_olas@
            + self.destination_sol@ + self.destination_olas@
    }

    /// Where each field lands in the encoded form.
    pub proof fn lemma_encode_shape(self)
        ensures
            self.spec_encode().len() == 129,
            self.spec_encode()[0] == PAYLOAD_TRANSFER_ALL,
            self.spec_encode().subrange(1, 33) == self.source_sol@,
            self.spec_encode().subrange(33, 65) == self.source_olas@,
            self.spec_encode().subrange(65, 97) == self.destination_sol@,
            self.spec_encode().subrange(97, 129) == self.destination_olas@,
    {
        assert(self.spec_encode().subrange(1, 33) =~= self.source_sol@);
        assert(self.spec_encode().subrange(33, 65) =~= self.source_olas@);
        assert(self.spec_encode().subrange(65, 97) =~= self.destination_sol@);
        assert(self.spec_encode().subrange(97, 129) =~= self.destination_olas@);
    }

    pub fn encode(&self) -> (r: Vec<u8>)
        ensures
            r@ == self.spec_encode(),
            r@.len() == 129,
    {
        let mut out: Vec<u8> = Vec::new();
        out.push(PAYLOAD_TRANSFER_ALL);
        push_bytes32(&mut out, &self.source_sol);
        push_bytes32(&mut out, &self.source_olas);
        push_bytes32(&mut out, &self.destination_sol);
        push_bytes32(&mut out, &self.destination_olas);
        proof {
            assert(out@ =~= self.spec_encode());
        }
        out
    }

    pub fn decode(payload: &[u8]) -> (r: Result<TransferAllMessage, DecodeError>)
        ensures
            r is Ok <==> payload@.len() == 129 && payload@[0] == PAYLOAD_TRANSFER_ALL,
            r matches Ok(m) ==> m.spec_encode() == payload@,
            r == Err::<TransferAllMessage, DecodeError>(DecodeError::UnknownDiscriminant)
                <==> payload@.len() >= 1 && payload@[0] != PAYLOAD_TRANSFER_ALL,
            r == Err::<TransferAllMessage, DecodeError>(DecodeError::WrongLength)
                <==> payload@.len() == 0
                    || (payload@[0] == PAYLOAD_TRANSFER_ALL && payload@.len() != 129),
    {
        if payload.len() == 0 {
            return Err(DecodeError::WrongLength);
        }
        if payload[0] != PAYLOAD_TRANSFER_ALL {
            return Err(DecodeError::UnknownDiscriminant);
        }
        if payload.len() != 129 {
            return Err(DecodeError::WrongLength);
        }
        let m = TransferAllMessage {
            source_sol: bytes32_read(payload, 1),
            source_olas: bytes32_read(payload, 33),
            destination_sol: bytes32_read(payload, 65),
            destination_olas: bytes32_read(payload, 97),
        };
        proof {
            m.lemma_encode_shape();
            assert(m.spec_encode() =~= payload@);
        }
        Ok(m)
    }
}

/// Reassign ownership of the two source token accounts to `destination`.
#[derive(Clone, Copy, Debug, PartialEq, Eq)]
pub struct TransferTokenAccountsMessage {
    pub source_sol: [u8; 32],
    pub source_olas: [u8; 32],
    pub destination: [u8; 32],
}

impl TransferTokenAccountsMessage {
    /// The encoded form: tag, then the three account identifiers.
    pub open spec fn spec_encode(self) -> Seq<u8> {
        seq![PAYLOAD_TRANSFER_TOKEN_ACCOUNTS] + self.source_sol@ + self.source_olas@
            + self.destination@
    }

    /// Where each field lands in the encoded form.
    pub proof fn lemma_encode_shape(self)
        ensures
            self.spec_encode().len() == 97,
            self.spec_encode()[0] == PAYLOAD_TRANSFER_TOKEN_ACCOUNTS,
            self.spec_encode().subrange(1, 33) == self.source_sol@,
            self.spec_encode().subrange(33, 65) == self.source_olas@,
            self.spec_encode().subrange(65, 97) == self.destination@,
    {
        assert(self.spec_encode().subrange(1, 33) =~= self.source_sol@);
        assert(self.spec_encode().subrange(33, 65) =~= self.source_olas@);
        assert(self.spec_encode().subrange(65, 97) =~= self.destination@);
    }

    pub fn encode(&self) -> (r: Vec<u8>)
        ensures
            r@ == self.spec_encode(),
            r@.len() == 97,
    {
        let mut out: Vec<u8> = Vec::new();
        out.push(PAYLOAD_TRANSFER_TOKEN_ACCOUNTS);
        push_bytes32(&mut out, &self.source_sol);
        push_bytes32(&mut out, &self.source_olas);
        push_bytes32(&mut out, &self.destination);
        proof {
            assert(out@ =~= self.spec_encode());
        }
        out
    }

    pub fn decode(payload: &[u8]) -> (r: Result<TransferTokenAccountsMessage, DecodeError>)
        ensures
            r is Ok <==> payload@.len() == 97
                && payload@[0] == PAYLOAD_TRANSFER_TOKEN_ACCOUNTS,
            r matches Ok(m) ==> m.spec_encode() == payload@,
            r == Err::<TransferTokenAccountsMessage, DecodeError>(
                DecodeError::UnknownDiscriminant,
            ) <==> payload@.len() >= 1 && payload@[0] != PAYLOAD_TRANSFER_TOKEN_ACCOUNTS,
            r == Err::<TransferTokenAccountsMessage, DecodeError>(DecodeError::WrongLength)
                <==> payload@.len() == 0
                    || (payload@[0] == PAYLOAD_TRANSFER_TOKEN_ACCOUNTS
                        && payload@.len() != 97),
    {
        if payload.len() == 0 {
            return Err(DecodeError::WrongLength);
        }
        if payload[0] != PAYLOAD_TRANSFER_TOKEN_ACCOUNTS {
            return Err(DecodeError::UnknownDiscriminant);
        }
        if payload.len() != 97 {
            return Err(DecodeError::WrongLength);
        }
        let m = TransferTokenAccountsMessage {
            source_sol: bytes32_read(payload, 1),
            source_olas: bytes32_read(payload, 33),
            destination: bytes32_read(payload, 65),
        };
        proof {
            m.lemma_encode_shape();
            assert(m.spec_encode() =~= payload@);
        }
        Ok(m)
    }
}

/// Hand the upgrade authority of a governed program to a new address.
#[derive(Clone, Copy, Debug, PartialEq, Eq)]
pub struct SetUpgradeAuthorityMessage {
    pub program_id_bytes: [u8; 32],
    pub upgrade_authority: [u8; 32],
}

impl SetUpgradeAuthorityMessage {
    /// The encoded form: tag, program, new authority.
    pub open spec fn spec_encode(self) -> Seq<u8> {
        seq![PAYLOAD_SET_UPGRADE_AUTHORITY] + self.program_id_bytes@ + self.upgrade_authority@
    }

    /// Where each field lands in the encoded form.
    pub proof fn lemma_encode_shape(self)
        ensures
            self.spec_encode().len() == 65,
            self.spec_encode()[0] == PAYLOAD_SET_UPGRADE_AUTHORITY,
            self.spec_encode().subrange(1, 33) == self.program_id_bytes@,
            self.spec_encode().subrange(33, 65) == self.upgrade_authority@,
    {
        assert(self.spec_encode().subrange(1, 33) =~= self.program_id_bytes@);
        assert(self.spec_encode().subrange(33, 65) =~= self.upgrade_authority@);
    }

    pub fn encode(&self) -> (r: Vec<u8>)
        ensures
            r@ == self.spec_encode(),
            r@.len() == 65,
    {
        let mut out: Vec<u8> = Vec::new();
        out.push(PAYLOAD_SET_UPGRADE_AUTHORITY);
        push_bytes32(&mut out, &self.program_id_bytes);
        push_bytes32(&mut out, &self.upgrade_authority);
        proof {
            assert(out@ =~= self.spec_encode());
        }
        out
    }

    pub fn decode(payload: &[u8]) -> (r: Result<SetUpgradeAuthorityMessage, DecodeError>)
        ensures
            r is Ok <==> payload@.len() == 65 && payload@[0] == PAYLOAD_SET_UPGRADE_AUTHORITY,
            r matches Ok(m) ==> m.spec_encode() == payload@,
            r == Err::<SetUpgradeAuthorityMessage, DecodeError>(DecodeError::UnknownDiscriminant)
                <==> payload@.len() >= 1 && payload@[0] != PAYLOAD_SET_UPGRADE_AUTHORITY,
            r == Err::<SetUpgradeAuthorityMessage, DecodeError>(DecodeError::WrongLength)
                <==> payload@.len() == 0
                    || (payload@[0] == PAYLOAD_SET_UPGRADE_AUTHORITY && payload@.len() != 65),
    {
        if payload.len() == 0 {
            return Err(DecodeError::WrongLength);
        }
        if payload[0] != PAYLOAD_SET_UPGRADE_AUTHORITY {
            return Err(DecodeError::UnknownDiscriminant);
        }
        if payload.len() != 65 {
            return Err(DecodeError::WrongLength);
        }
        let m = SetUpgradeAuthorityMessage {
            program_id_bytes: bytes32_read(payload, 1),
            upgrade_authority: bytes32_read(payload, 33),
        };
        proof {
            m.lemma_encode_shape();
            assert(m.spec_encode() =~= payload@);
        }
        Ok(m)
    }
}

/// Replace a governed program's code from a staged buffer, refunding
/// excess rent to the spill account.
#[derive(Clone, Copy, Debug, PartialEq, Eq)]
pub struct UpgradeProgramMessage {
    pub program_id_bytes: [u8; 32],
    pub buffer_account_bytes: [u8; 32],
    pub spill_account_bytes: [u8; 32],
}

impl UpgradeProgramMessage {
    /// The encoded form: tag, program, buffer, spill.
    pub open spec fn spec_encode(self) -> Seq<u8> {
        seq![PAYLOAD_UPGRADE_PROGRAM] + self.program_id_bytes@ + self.buffer_account_bytes@
            + self.spill_account_bytes@
    }

    /// Where each field lands in the encoded form.
    pub proof fn lemma_encode_shape(self)
        ensures
            self.spec_encode().len() == 97,
            self.spec_encode()[0] == PAYLOAD_UPGRADE_PROGRAM,
            self.spec_encode().subrange(1, 33) == self.program_id_bytes@,
            self.spec_encode().subrange(33, 65) == self.buffer_account_bytes@,
            self.spec_encode().subrange(65, 97) == self.spill_account_bytes@,
    {
        assert(self.spec_encode().subrange(1, 33) =~= self.program_id_bytes@);
        assert(self.spec_encode().subrange(33, 65) =~= self.buffer_account_bytes@);
        assert(self.spec_encode().subrange(65, 97) =~= self.spill_account_bytes@);
    }

    pub fn encode(&self) -> (r: Vec<u8>)
        ensures
            r@ == self.spec_encode(),
            r@.len() == 97,
    {
        let mut out: Vec<u8> = Vec::new();
        out.push(PAYLOAD_UPGRADE_PROGRAM);
        push_bytes32(&mut out, &self.program_id_bytes);
        push_bytes32(&mut out, &self.buffer_account_bytes);
        push_bytes32(&mut out, &self.spill_account_bytes);
        proof {
            assert(out@ =~= self.spec_encode());
        }
        out
    }

    pub fn decode(payload: &[u8]) -> (r: Result<UpgradeProgramMessage, DecodeError>)
        ensures
            r is Ok <==> payload@.len() == 97 && payload@[0] == PAYLOAD_UPGRADE_PROGRAM,
            r matches Ok(m) ==> m.spec_encode() == payload@,
            r == Err::<UpgradeProgramMessage, DecodeError>(DecodeError::UnknownDiscriminant)
                <==> payload@.len() >= 1 && payload@[0] != PAYLOAD_UPGRADE_PROGRAM,
            r == Err::<UpgradeProgramMessage, DecodeError>(DecodeError::WrongLength)
                <==> payload@.len() == 0
                    || (payload@[0] == PAYLOAD_UPGRADE_PROGRAM && payload@.len() != 97),
    {
        if payload.len() == 0 {
            return Err(DecodeError::WrongLength);
        }
        if payload[0] != PAYLOAD_UPGRADE_PROGRAM {
            return Err(DecodeError::UnknownDiscriminant);
        }
        if payload.len() != 97 {
            return Err(DecodeError::WrongLength);
        }
        let m = UpgradeProgramMessage {
            program_id_bytes: bytes32_read(payload, 1),
            buffer_account_bytes: bytes32_read(payload, 33),
            spill_account_bytes: bytes32_read(payload, 65),
        };
        proof {
            m.lemma_encode_shape();
            assert(m.spec_encode() =~= payload@);
        }
        Ok(m)
    }
}

/// The encoding carries every field, so two messages with the same
/// encoding are the same message: decoding the encoding of `m1` can yield
/// nothing but `m1`.
pub proof fn lemma_transfer_encode_injective(m1: TransferMessage, m2: TransferMessage)
    requires
        m1.spec_encode() == m2.spec_encode(),
    ensures
        m1 == m2,
{
    m1.lemma_encode_shape();
    m2.lemma_encode_shape();
    assert(m1.source@ == m2.source@);
    assert(m1.destination@ == m2.destination@);
    lemma_auto_spec_u64_to_from_le_bytes();
    assert(m1.amount == spec_u64_from_le_bytes(spec_u64_to_le_bytes(m1.amount)));
    assert(m1.source =~= m2.source);
    assert(m1.destination =~= m2.destination);
}

/// As [`lemma_transfer_encode_injective`], for the sweep variant.
pub proof fn lemma_transfer_all_encode_injective(m1: TransferAllMessage, m2: TransferAllMessage)
    requires
        m1.spec_encode() == m2.spec_encode(),
    ensures
        m1 == m2,
{
    m1.lemma_encode_shape();
    m2.lemma_encode_shape();
    assert(m1.source_sol =~= m2.source_sol);
    assert(m1.source_olas =~= m2.source_olas);
    assert(m1.destination_sol =~= m2.destination_sol);
    assert(m1.destination_olas =~= m2.destination_olas);
}

/// As [`lemma_transfer_encode_injective`], for the ownership-reassignment
/// variant.
pub proof fn lemma_transfer_token_accounts_encode_injective(
    m1: TransferTokenAccountsMessage,
    m2: TransferTokenAccountsMessage,
)
    requires
        m1.spec_encode() == m2.spec_encode(),
    ensures
        m1 == m2,
{
    m1.lemma_encode_shape();
    m2.lemma_encode_shape();
    assert(m1.source_sol =~= m2.source_sol);
    assert(m1.source_olas =~= m2.source_olas);
    assert(m1.destination =~= m2.destination);
}

/// As [`lemma_transfer_encode_injective`], for the authority-reassignment
/// variant.
pub proof fn lemma_set_upgrade_authority_encode_injective(
    m1: SetUpgradeAuthorityMessage,
    m2: SetUpgradeAuthorityMessage,
)
    requires
        m1.spec_encode() == m2.spec_encode(),
    ensures
        m1 == m2,
{
    m1.lemma_encode_shape();
    m2.lemma_encode_shape();
    assert(m1.program_id_bytes =~= m2.program_id_bytes);
    assert(m1.upgrade_authority =~= m2.upgrade_authority);
}

/// As [`lemma_transfer_encode_injective`], for the program-upgrade
/// variant.
pub proof fn lemma_upgrade_program_encode_injective(
    m1: UpgradeProgramMessage,
    m2: UpgradeProgramMessage,
)
    requires
        m1.spec_encode() == m2.spec_encode(),
    ensures
        m1 == m2,
{
    m1.lemma_encode_shape();
    m2.lemma_encode_shape();
    assert(m1.program_id_bytes =~= m2.program_id_bytes);
    assert(m1.buffer_account_bytes =~= m2.buffer_account_bytes);
    assert(m1.spill_account_bytes =~= m2.spill_account_bytes);
}

} // verus!
