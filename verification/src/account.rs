//! Accounts as one call sees them.
//!
//! The host ledger hands every operation a list of accounts; the library
//! works on a plain snapshot of each: its address, whether it signed the
//! call, and the raw bytes it stores. Reserve balances and the share-mint
//! supply are read from those bytes at the fixed offsets of the asset
//! ledger's account and mint layouts, never cached anywhere.

use vstd::prelude::*;
use vstd::bytes::{spec_u64_from_le_bytes, u64_from_le_bytes};
use crate::errors::AmmError;

verus! {

/// Byte offset of the 64-bit balance inside a token account's data.
pub const TOKEN_ACCOUNT_AMOUNT_OFFSET: usize = 64;

/// Byte offset of the 64-bit issued supply inside a mint's data.
pub const MINT_SUPPLY_OFFSET: usize = 36;

/// One account of a call, as the program sees it: address, signer flag,
/// and the bytes it stores at the start of the call.
pub struct AccountInfo {
    pub address: [u8; 32],
    pub is_signer: bool,
    pub data: Vec<u8>,
}

/// Copy 32 bytes out of `bytes` starting at `offset`.
pub fn read_address(bytes: &[u8], offset: usize) -> (r: [u8; 32])
    requires
        offset + 32 <= bytes@.len(),
    ensures
        r@ == bytes@.subrange(offset as int, offset as int + 32),
{
    let n = bytes.len();
    let mut out: [u8; 32] = [0u8; 32];
    let mut i: usize = 0;
    while i < 32
        invariant
            i <= 32,
            offset + 32 <= n == bytes@.len(),
            forall|j: int| 0 <= j < i ==> out@[j] == bytes@[offset + j],
        decreases 32 - i,
    {
        out[i] = bytes[offset + i];
        i = i + 1;
    }
    proof {
        assert(out@ =~= bytes@.subrange(offset as int, offset as int + 32));
    }
    out
}

/// Balance of a token account, read live from the fixed offset of the
/// asset ledger's account layout.
pub fn get_token_account_amount(account: &AccountInfo) -> (r: Result<u64, AmmError>)
    ensures
        account.data@.len() < TOKEN_ACCOUNT_AMOUNT_OFFSET + 8 ==> r matches Err(
            AmmError::InvalidAccountData,
        ),
        account.data@.len() >= TOKEN_ACCOUNT_AMOUNT_OFFSET + 8 ==> (r matches Ok(v) && v
            == spec_u64_from_le_bytes(
            account.data@.subrange(
                TOKEN_ACCOUNT_AMOUNT_OFFSET as int,
                TOKEN_ACCOUNT_AMOUNT_OFFSET as int + 8,
            ),
        )),
{
    if account.data.len() < TOKEN_ACCOUNT_AMOUNT_OFFSET + 8 {
        return Err(AmmError::InvalidAccountData);
    }
    let bytes = account.data.as_slice();
    Ok(u64_from_le_bytes(&bytes[TOKEN_ACCOUNT_AMOUNT_OFFSET..TOKEN_ACCOUNT_AMOUNT_OFFSET + 8]))
}

/// Issued supply of a mint, read live from the fixed offset of the asset
/// ledger's mint layout.
pub fn get_mint_supply(account: &AccountInfo) -> (r: Result<u64, AmmError>)
    ensures
        account.data@.len() < MINT_SUPPLY_OFFSET + 8 ==> r matches Err(AmmError::InvalidAccountData),
        account.data@.len() >= MINT_SUPPLY_OFFSET + 8 ==> (r matches Ok(v) && v
            == spec_u64_from_le_bytes(
            account.data@.subrange(MINT_SUPPLY_OFFSET as int, MINT_SUPPLY_OFFSET as int + 8),
        )),
{
    if account.data.len() < MINT_SUPPLY_OFFSET + 8 {
        return Err(AmmError::InvalidAccountData);
    }
    let bytes = account.data.as_slice();
    Ok(u64_from_le_bytes(&bytes[MINT_SUPPLY_OFFSET..MINT_SUPPLY_OFFSET + 8]))
}

} // verus!
