//! Constant-product pool engine.
//!
//! The library holds the verified core of a two-asset liquidity pool: the
//! curve arithmetic that prices swaps and proportional deposits and
//! withdrawals, the fixed-layout codec for the pool configuration record,
//! the decoders that turn raw instruction payloads and account lists into
//! typed requests, and the operation processors that turn a request into an
//! exact plan of token transfers, mints and burns. Performing the planned
//! transfers against the host ledger is left to the surrounding program.

pub mod account;
pub mod curve;
pub mod deposit;
pub mod effects;
pub mod errors;
pub mod initialize;
pub mod state;
pub mod swap;
pub mod withdraw;

use vstd::prelude::*;
use crate::account::AccountInfo;
use crate::deposit::{deposit_try_from_post, Deposit, DEPOSIT_DISCRIMINATOR};
use crate::errors::AmmError;
use crate::initialize::{initialize_try_from_post, Initialize, INITIALIZE_DISCRIMINATOR};
use crate::swap::{swap_try_from_post, Swap, SWAP_DISCRIMINATOR};
use crate::withdraw::{withdraw_try_from_post, Withdraw, WITHDRAW_DISCRIMINATOR};

verus! {

/// One decoded, validated request: which operation the call named and
/// everything that operation needs.
pub enum PoolRequest<'a> {
    Initialize(Initialize<'a>),
    Deposit(Deposit<'a>),
    Withdraw(Withdraw<'a>),
    Swap(Swap<'a>),
}

/// Decode a full call: the leading operation tag picks the operation,
/// and the rest of the bytes are that operation's payload. An empty call
/// or an unknown tag is refused; everything else behaves exactly as the
/// named operation's own decoder does.
pub fn decode_instruction<'a>(
    instruction_data: &[u8],
    accounts: &'a Vec<AccountInfo>,
    program_id: &[u8; 32],
) -> (r: Result<PoolRequest<'a>, AmmError>)
    ensures
        instruction_data@.len() == 0 ==> r matches Err(AmmError::InvalidInstructionData),
        instruction_data@.len() >= 1 ==> ({
            let tag = instruction_data@[0];
            let payload = instruction_data@.subrange(1, instruction_data@.len() as int);
            if tag == INITIALIZE_DISCRIMINATOR {
                (r matches Ok(PoolRequest::Initialize(t)) && initialize_try_from_post(
                    Ok(t),
                    payload,
                    accounts@,
                    *program_id,
                )) || (r matches Err(e) && initialize_try_from_post(
                    Err(e),
                    payload,
                    accounts@,
                    *program_id,
                ))
            } else if tag == DEPOSIT_DISCRIMINATOR {
                (r matches Ok(PoolRequest::Deposit(t)) && deposit_try_from_post(
                    Ok(t),
                    payload,
                    accounts@,
                )) || (r matches Err(e) && deposit_try_from_post(Err(e), payload, accounts@))
            } else if tag == WITHDRAW_DISCRIMINATOR {
                (r matches Ok(PoolRequest::Withdraw(t)) && withdraw_try_from_post(
                    Ok(t),
                    payload,
                    accounts@,
                )) || (r matches Err(e) && withdraw_try_from_post(Err(e), payload, accounts@))
            } else if tag == SWAP_DISCRIMINATOR {
                (r matches Ok(PoolRequest::Swap(t)) && swap_try_from_post(
                    Ok(t),
                    payload,
                    accounts@,
                )) || (r matches Err(e) && swap_try_from_post(Err(e), payload, accounts@))
            } else {
                r matches Err(AmmError::InvalidInstructionData)
            }
        }),
{
    if instruction_data.len() == 0 {
        return Err(AmmError::InvalidInstructionData);
    }
    let tag = instruction_data[0];
    let payload = &instruction_data[1..instruction_data.len()];
    if tag == INITIALIZE_DISCRIMINATOR {
        match Initialize::try_from(payload, accounts, program_id) {
            Ok(t) => Ok(PoolRequest::Initialize(t)),
            Err(e) => Err(e),
        }
    } else if tag == DEPOSIT_DISCRIMINATOR {
        match Deposit::try_from(payload, accounts) {
            Ok(t) => Ok(PoolRequest::Deposit(t)),
            Err(e) => Err(e),
        }
    } else if tag == WITHDRAW_DISCRIMINATOR {
        match Withdraw::try_from(payload, accounts) {
            Ok(t) => Ok(PoolRequest::Withdraw(t)),
            Err(e) => Err(e),
        }
    } else if tag == SWAP_DISCRIMINATOR {
        match Swap::try_from(payload, accounts) {
            Ok(t) => Ok(PoolRequest::Swap(t)),
            Err(e) => Err(e),
        }
    } else {
        Err(AmmError::InvalidInstructionData)
    }
}

} // verus!
