//! Asset swap.
//!
//! Swap reads both reserve balances live, prices the trade on the
//! constant-product curve with the pool's recorded fee, enforces the
//! caller's minimum-output bound with a distinct slippage signal, and
//! plans the two transfers: the caller pays the input vault, the output
//! vault pays the caller under the pool's custody authority.

use vstd::prelude::*;
use vstd::bytes::{spec_u64_from_le_bytes, u64_from_le_bytes};
use crate::account::{get_token_account_amount, AccountInfo};
use crate::curve::{delta_x_from_y_swap, delta_y_from_x_swap, swap_output};
use crate::effects::{custody_matches, CustodyAuthority, Transfer};
use crate::errors::{map_curve_error, AmmError};
use crate::state::{spec_parse_config, state_code, AmmState, Config};

verus! {

/// The accounts a swap runs against, in wire order.
pub struct SwapAccounts<'a> {
    pub user: &'a AccountInfo,
    pub user_x: &'a AccountInfo,
    pub user_y: &'a AccountInfo,
    pub vault_x: &'a AccountInfo,
    pub vault_y: &'a AccountInfo,
    pub config: &'a AccountInfo,
    pub token_program: &'a AccountInfo,
}

impl<'a> SwapAccounts<'a> {
    /// Check arity and the caller's signature, then name the accounts by
    /// role.
    pub fn try_from(accounts: &'a Vec<AccountInfo>) -> (r: Result<Self, AmmError>)
        ensures
            accounts@.len() != 7 ==> r matches Err(AmmError::NotEnoughAccountKeys),
            accounts@.len() == 7 && !accounts@[0].is_signer ==> r matches Err(
                AmmError::MissingRequiredSignature,
            ),
            accounts@.len() == 7 && accounts@[0].is_signer ==> (r matches Ok(a) && *a.user
                == accounts@[0] && *a.user_x == accounts@[1] && *a.user_y == accounts@[2]
                && *a.vault_x == accounts@[3] && *a.vault_y == accounts@[4] && *a.config
                == accounts@[5] && *a.token_program == accounts@[6]),
    {
        if accounts.len() != 7 {
            return Err(AmmError::NotEnoughAccountKeys);
        }
        if !accounts[0].is_signer {
            return Err(AmmError::MissingRequiredSignature);
        }
        Ok(
            SwapAccounts {
                user: &accounts[0],
                user_x: &accounts[1],
                user_y: &accounts[2],
                vault_x: &accounts[3],
                vault_y: &accounts[4],
                config: &accounts[5],
                token_program: &accounts[6],
            },
        )
    }
}

/// The decoded swap payload: direction flag, input amount, the caller's
/// minimum acceptable output, and the (unused) expiration stamp.
pub struct SwapInstructionData {
    pub is_x: bool,
    pub amount: u64,
    pub min: u64,
    pub expiration: i64,
}

/// True of a payload long enough for a swap whose amount and minimum are
/// both nonzero.
pub open spec fn swap_payload_ok(data: Seq<u8>) -> bool {
    &&& data.len() >= 25
    &&& spec_u64_from_le_bytes(data.subrange(1, 9)) != 0
    &&& spec_u64_from_le_bytes(data.subrange(9, 17)) != 0
}

impl SwapInstructionData {
    /// Decode the little-endian swap payload; zero is never a meaningful
    /// trade amount or bound, so either being zero is refused.
    pub fn try_from(data: &[u8]) -> (r: Result<Self, AmmError>)
        ensures
            !swap_payload_ok(data@) ==> r matches Err(AmmError::InvalidInstructionData),
            swap_payload_ok(data@) ==> (r matches Ok(d) && d.is_x == (data@[0] != 0) && d.amount
                == spec_u64_from_le_bytes(data@.subrange(1, 9)) && d.min == spec_u64_from_le_bytes(
                data@.subrange(9, 17),
            ) && d.expiration as u64 == spec_u64_from_le_bytes(data@.subrange(17, 25))),
    {
        if data.len() < 25 {
            return Err(AmmError::InvalidInstructionData);
        }
        let is_x = data[0] != 0;
        let amount = u64_from_le_bytes(&data[1..9]);
        let min = u64_from_le_bytes(&data[9..17]);
        let raw_expiration = u64_from_le_bytes(&data[17..25]);
        let expiration = #[verifier::truncate] (raw_expiration as i64);
        proof {
            assert((raw_expiration as i64) as u64 == raw_expiration) by (bit_vector);
        }
        if amount == 0 || min == 0 {
            return Err(AmmError::InvalidInstructionData);
        }
        Ok(SwapInstructionData { is_x, amount, min, expiration })
    }
}

/// A validated swap request against an initialized pool.
pub struct Swap<'a> {
    pub accounts: SwapAccounts<'a>,
    pub instruction_data: SwapInstructionData,
}

/// Wire tag of the Swap operation.
pub const SWAP_DISCRIMINATOR: u8 = 3;

/// Everything `Swap::try_from` promises about its result, stated once so
/// the instruction dispatcher can promise the same.
pub open spec fn swap_try_from_post<'a>(
    r: Result<Swap<'a>, AmmError>,
    data: Seq<u8>,
    accounts: Seq<AccountInfo>,
) -> bool {
    &&& accounts.len() != 7 ==> (r matches Err(AmmError::NotEnoughAccountKeys))
    &&& accounts.len() == 7 && !accounts[0].is_signer ==> (r matches Err(
        AmmError::MissingRequiredSignature,
    ))
    &&& accounts.len() == 7 && accounts[0].is_signer ==> ({
        if !swap_payload_ok(data) {
            r matches Err(AmmError::InvalidInstructionData)
        } else if accounts[5].data@.len() != 108 {
            r matches Err(AmmError::InvalidAccountData)
        } else if spec_parse_config(accounts[5].data@).state != state_code(AmmState::Initialized) {
            r matches Err(AmmError::InvalidAccountData)
        } else {
            r matches Ok(t) && *t.accounts.user == accounts[0] && *t.accounts.user_x == accounts[1]
                && *t.accounts.user_y == accounts[2] && *t.accounts.vault_x == accounts[3]
                && *t.accounts.vault_y == accounts[4] && *t.accounts.config == accounts[5]
                && *t.accounts.token_program == accounts[6] && t.instruction_data.is_x == (data[0]
                != 0) && t.instruction_data.amount == spec_u64_from_le_bytes(data.subrange(1, 9))
                && t.instruction_data.min == spec_u64_from_le_bytes(data.subrange(9, 17))
                && t.instruction_data.expiration as u64 == spec_u64_from_le_bytes(
                data.subrange(17, 25),
            )
        }
    })
}

impl<'a> Swap<'a> {
    /// Build the request: accounts, then payload, then the lifecycle
    /// gate — swaps are allowed only while the pool is initialized.
    pub fn try_from(data: &[u8], accounts: &'a Vec<AccountInfo>) -> (r: Result<Self, AmmError>)
        ensures
            swap_try_from_post(r, data@, accounts@),
    {
        let accounts = match SwapAccounts::try_from(accounts) {
            Ok(a) => a,
            Err(e) => {
                return Err(e);
            },
        };
        let instruction_data = match SwapInstructionData::try_from(data) {
            Ok(d) => d,
            Err(e) => {
                return Err(e);
            },
        };
        let config = match Config::load(accounts.config.data.as_slice()) {
            Ok(c) => c,
            Err(e) => {
                return Err(e);
            },
        };
        if config.state() != AmmState::Initialized.code() {
            return Err(AmmError::InvalidAccountData);
        }
        Ok(Swap { accounts, instruction_data })
    }

    /// Price the trade and plan its two transfers.
    ///
    /// Reserves are read live from the vaults. A record that is not 108
    /// bytes, a fee out of its invariant range, or an empty reserve is an
    /// invalid-data failure; an output below the caller's minimum is the
    /// distinct slippage failure and nothing is planned for it.
    pub fn process(&self) -> (r: Result<SwapEffects, AmmError>)
        ensures
            ({
                let cdata = self.accounts.config.data@;
                let xdata = self.accounts.vault_x.data@;
                let ydata = self.accounts.vault_y.data@;
                if cdata.len() != 108 || xdata.len() < 72 || ydata.len() < 72 {
                    r matches Err(AmmError::InvalidAccountData)
                } else {
                    let cfg = spec_parse_config(cdata);
                    let x = spec_u64_from_le_bytes(xdata.subrange(64, 72));
                    let y = spec_u64_from_le_bytes(ydata.subrange(64, 72));
                    if cfg.fee >= 10000 {
                        r matches Err(AmmError::InvalidAccountData)
                    } else if x == 0 || y == 0 {
                        r matches Err(AmmError::InvalidAccountData)
                    } else {
                        let out = if self.instruction_data.is_x {
                            swap_output(
                                x as int,
                                y as int,
                                self.instruction_data.amount as int,
                                cfg.fee as int,
                            )
                        } else {
                            swap_output(
                                y as int,
                                x as int,
                                self.instruction_data.amount as int,
                                cfg.fee as int,
                            )
                        };
                        if out < self.instruction_data.min {
                            r matches Err(AmmError::SlippageExceeded)
                        } else if self.instruction_data.amount == 0 || out == 0 {
                            r matches Err(AmmError::InvalidArgument)
                        } else {
                            r matches Ok(e) && {
                                &&& e.transfer_in.amount == self.instruction_data.amount
                                &&& e.transfer_out.amount == out
                                &&& e.transfer_in.authority == self.accounts.user.address
                                &&& e.transfer_out.authority == self.accounts.config.address
                                &&& (self.instruction_data.is_x ==> e.transfer_in.from
                                    == self.accounts.user_x.address && e.transfer_in.to
                                    == self.accounts.vault_x.address && e.transfer_out.from
                                    == self.accounts.vault_y.address && e.transfer_out.to
                                    == self.accounts.user_y.address)
                                &&& (!self.instruction_data.is_x ==> e.transfer_in.from
                                    == self.accounts.user_y.address && e.transfer_in.to
                                    == self.accounts.vault_y.address && e.transfer_out.from
                                    == self.accounts.vault_x.address && e.transfer_out.to
                                    == self.accounts.user_x.address)
                                &&& custody_matches(e.custody, cfg)
                            }
                        }
                    }
                }
            }),
    {
        let config = match Config::load(self.accounts.config.data.as_slice()) {
            Ok(c) => c,
            Err(e) => {
                return Err(e);
            },
        };
        let x = match get_token_account_amount(self.accounts.vault_x) {
            Ok(v) => v,
            Err(e) => {
                return Err(e);
            },
        };
        let y = match get_token_account_amount(self.accounts.vault_y) {
            Ok(v) => v,
            Err(e) => {
                return Err(e);
            },
        };
        let fee = config.fee();
        if fee >= 10000 {
            return Err(AmmError::InvalidAccountData);
        }
        let withdraw_amount: u64 = if self.instruction_data.is_x {
            match delta_y_from_x_swap(x, y, self.instruction_data.amount, fee) {
                Ok(v) => v,
                Err(e) => {
                    return Err(map_curve_error(e));
                },
            }
        } else {
            match delta_x_from_y_swap(x, y, self.instruction_data.amount, fee) {
                Ok(v) => v,
                Err(e) => {
                    return Err(map_curve_error(e));
                },
            }
        };
        if withdraw_amount < self.instruction_data.min {
            return Err(AmmError::SlippageExceeded);
        }
        if self.instruction_data.amount == 0 || withdraw_amount == 0 {
            return Err(AmmError::InvalidArgument);
        }
        let custody = CustodyAuthority {
            seed: config.seed(),
            mint_x: config.mint_x(),
            mint_y: config.mint_y(),
            bump: config.config_bump()[0],
        };
        if self.instruction_data.is_x {
            Ok(
                SwapEffects {
                    transfer_in: Transfer {
                        from: self.accounts.user_x.address,
                        to: self.accounts.vault_x.address,
                        authority: self.accounts.user.address,
                        amount: self.instruction_data.amount,
                    },
                    transfer_out: Transfer {
                        from: self.accounts.vault_y.address,
                        to: self.accounts.user_y.address,
                        authority: self.accounts.config.address,
                        amount: withdraw_amount,
                    },
                    custody,
                },
            )
        } else {
            Ok(
                SwapEffects {
                    transfer_in: Transfer {
                        from: self.accounts.user_y.address,
                        to: self.accounts.vault_y.address,
                        authority: self.accounts.user.address,
                        amount: self.instruction_data.amount,
                    },
                    transfer_out: Transfer {
                        from: self.accounts.vault_x.address,
                        to: self.accounts.user_x.address,
                        authority: self.accounts.config.address,
                        amount: withdraw_amount,
                    },
                    custody,
                },
            )
        }
    }
}

/// The planned effects of a swap: the caller-signed transfer into the
/// pool and the custody-signed transfer out of it.
#[derive(Clone, Copy, Debug, PartialEq, Eq)]
pub struct SwapEffects {
    pub transfer_in: Transfer,
    pub transfer_out: Transfer,
    pub custody: CustodyAuthority,
}

} // verus!
