//! Fixed identifiers of the deployment: the local chain id and the two
//! governed asset mints.

use vstd::prelude::*;

verus! {

/// Chain id of the local ledger.  The foreign authority must live on a
/// different chain, so a configuration naming this id is rejected.
pub const LOCAL_CHAIN_ID: u16 = 1;

/// Mint address of the first governed asset (SOL), as a byte sequence.
pub open spec fn sol_mint_bytes() -> Seq<u8> {
    seq![
        6u8, 155u8, 136u8, 87u8, 254u8, 171u8, 129u8, 132u8,
        251u8, 104u8, 127u8, 99u8, 70u8, 24u8, 192u8, 53u8,
        218u8, 196u8, 57u8, 220u8, 26u8, 235u8, 59u8, 85u8,
        152u8, 160u8, 240u8, 0u8, 0u8, 0u8, 0u8, 1u8,
    ]
}

/// Mint address of the second governed asset (OLAS), as a byte sequence.
pub open spec fn olas_mint_bytes() -> Seq<u8> {
    seq![
        207u8, 197u8, 49u8, 175u8, 119u8, 226u8, 174u8, 207u8,
        211u8, 166u8, 26u8, 30u8, 84u8, 144u8, 202u8, 47u8,
        98u8, 152u8, 139u8, 62u8, 50u8, 42u8, 93u8, 88u8,
        209u8, 223u8, 254u8, 181u8, 103u8, 251u8, 79u8, 92u8,
    ]
}

/// The SOL mint address.
pub fn sol_mint() -> (r: [u8; 32])
    ensures
        r@ == sol_mint_bytes(),
{
    let r: [u8; 32] = [
        6u8, 155u8, 136u8, 87u8, 254u8, 171u8, 129u8, 132u8,
        251u8, 104u8, 127u8, 99u8, 70u8, 24u8, 192u8, 53u8,
        218u8, 196u8, 57u8, 220u8, 26u8, 235u8, 59u8, 85u8,
        152u8, 160u8, 240u8, 0u8, 0u8, 0u8, 0u8, 1u8,
    ];
    proof {
        assert(r@ =~= sol_mint_bytes());
    }
    r
}

/// The OLAS mint address.
pub fn olas_mint() -> (r: [u8; 32])
    ensures
        r@ == olas_mint_bytes(),
{
    let r: [u8; 32] = [
        207u8, 197u8, 49u8, 175u8, 119u8, 226u8, 174u8, 207u8,
        211u8, 166u8, 26u8, 30u8, 84u8, 144u8, 202u8, 47u8,
        98u8, 152u8, 139u8, 62u8, 50u8, 42u8, 93u8, 88u8,
        209u8, 223u8, 254u8, 181u8, 103u8, 251u8, 79u8, 92u8,
    ];
    proof {
        assert(r@ =~= olas_mint_bytes());
    }
    r
}

} // verus!
