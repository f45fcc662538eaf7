//! Liquidity withdrawal.
//!
//! Withdraw reads the reserve balances and the share supply live. Burning
//! every outstanding share drains both reserves exactly, leaving no
//! rounding residue; any smaller burn pays out the proportional amounts
//! under the fixed-point remaining ratio, which must reach the caller's
//! minima. The plan moves both
//! payouts from the vaults to the caller under the pool's custody
//! authority and burns the caller's shares.

use vstd::prelude::*;
use vstd::bytes::{spec_u64_from_le_bytes, u64_from_le_bytes};
use crate::account::{get_mint_supply, get_token_account_amount, AccountInfo};
use crate::curve::{withdraw_amount, xy_withdraw_amounts};
use crate::effects::{custody_matches, Burn, CustodyAuthority, Transfer};
use crate::errors::{map_curve_error, AmmError};
use crate::state::{spec_parse_config, state_code, AmmState, Config, ConfigView};

verus! {

/// The accounts a withdrawal runs against, in wire order.
pub struct WithdrawAccounts<'a> {
    pub user: &'a AccountInfo,
    pub mint_lp: &'a AccountInfo,
    pub vault_x: &'a AccountInfo,
    pub vault_y: &'a AccountInfo,
    pub user_x_ata: &'a AccountInfo,
    pub user_y_ata: &'a AccountInfo,
    pub user_lp_ata: &'a AccountInfo,
    pub config: &'a AccountInfo,
    pub token_program: &'a AccountInfo,
}

impl<'a> WithdrawAccounts<'a> {
    /// Check arity and the caller's signature, then name the accounts by
    /// role.
    pub fn try_from(accounts: &'a Vec<AccountInfo>) -> (r: Result<Self, AmmError>)
        ensures
            accounts@.len() != 9 ==> r matches Err(AmmError::NotEnoughAccountKeys),
            accounts@.len() == 9 && !accounts@[0].is_signer ==> r matches Err(
                AmmError::MissingRequiredSignature,
            ),
            accounts@.len() == 9 && accounts@[0].is_signer ==> (r matches Ok(a) && *a.user
                == accounts@[0] && *a.mint_lp == accounts@[1] && *a.vault_x == accounts@[2]
                && *a.vault_y == accounts@[3] && *a.user_x_ata == accounts@[4] && *a.user_y_ata
                == accounts@[5] && *a.user_lp_ata == accounts@[6] && *a.config == accounts@[7]
                && *a.token_program == accounts@[8]),
    {
        if accounts.len() != 9 {
            return Err(AmmError::NotEnoughAccountKeys);
        }
        if !accounts[0].is_signer {
            return Err(AmmError::MissingRequiredSignature);
        }
        Ok(
            WithdrawAccounts {
                user: &accounts[0],
                mint_lp: &accounts[1],
                vault_x: &accounts[2],
                vault_y: &accounts[3],
                user_x_ata: &accounts[4],
                user_y_ata: &accounts[5],
                user_lp_ata: &accounts[6],
                config: &accounts[7],
                token_program: &accounts[8],
            },
        )
    }
}

/// The decoded withdrawal payload: share count to burn, the caller's
/// per-reserve minima, and the (unused) expiration stamp.
pub struct WithdrawInstructionData {
    pub amount: u64,
    pub min_x: u64,
    pub min_y: u64,
    pub expiration: i64,
}

/// True of a payload long enough for a withdrawal whose share count and
/// both bounds are nonzero.
pub open spec fn withdraw_payload_ok(data: Seq<u8>) -> bool {
    &&& data.len() >= 32
    &&& spec_u64_from_le_bytes(data.subrange(0, 8)) != 0
    &&& spec_u64_from_le_bytes(data.subrange(8, 16)) != 0
    &&& spec_u64_from_le_bytes(data.subrange(16, 24)) != 0
}

impl WithdrawInstructionData {
    /// Decode the little-endian withdrawal payload; zero is never a
    /// meaningful share count or bound, so any being zero is refused.
    pub fn try_from(data: &[u8]) -> (r: Result<Self, AmmError>)
        ensures
            !withdraw_payload_ok(data@) ==> r matches Err(AmmError::InvalidInstructionData),
            withdraw_payload_ok(data@) ==> (r matches Ok(d) && d.amount == spec_u64_from_le_bytes(
                data@.subrange(0, 8),
            ) && d.min_x == spec_u64_from_le_bytes(data@.subrange(8, 16)) && d.min_y
                == spec_u64_from_le_bytes(data@.subrange(16, 24)) && d.expiration as u64
                == spec_u64_from_le_bytes(data@.subrange(24, 32))),
    {
        if data.len() < 32 {
            return Err(AmmError::InvalidInstructionData);
        }
        let amount = u64_from_le_bytes(&data[0..8]);
        let min_x = u64_from_le_bytes(&data[8..16]);
        let min_y = u64_from_le_bytes(&data[16..24]);
        let raw_expiration = u64_from_le_bytes(&data[24..32]);
        let expiration = #[verifier::truncate] (raw_expiration as i64);
        proof {
            assert((raw_expiration as i64) as u64 == raw_expiration) by (bit_vector);
        }
        if amount == 0 || min_x == 0 || min_y == 0 {
            return Err(AmmError::InvalidInstructionData);
        }
        Ok(WithdrawInstructionData { amount, min_x, min_y, expiration })
    }
}

/// A validated withdrawal request.
pub struct Withdraw<'a> {
    pub accounts: WithdrawAccounts<'a>,
    pub instruction_data: WithdrawInstructionData,
}

/// Wire tag of the Withdraw operation.
pub const WITHDRAW_DISCRIMINATOR: u8 = 2;

/// True when the planned effects pay exactly `wx` and `wy` out of the
/// vaults under the record's custody seeds and burn the caller's shares.
pub open spec fn withdraw_effects_ok<'a>(
    e: WithdrawEffects,
    d: Withdraw<'a>,
    cfg: ConfigView,
    wx: int,
    wy: int,
) -> bool {
    &&& e.transfer_x.from == d.accounts.vault_x.address
    &&& e.transfer_x.to == d.accounts.user_x_ata.address
    &&& e.transfer_x.authority == d.accounts.config.address
    &&& e.transfer_x.amount == wx
    &&& e.transfer_y.from == d.accounts.vault_y.address
    &&& e.transfer_y.to == d.accounts.user_y_ata.address
    &&& e.transfer_y.authority == d.accounts.config.address
    &&& e.transfer_y.amount == wy
    &&& e.burn_lp.account == d.accounts.user_lp_ata.address
    &&& e.burn_lp.mint == d.accounts.mint_lp.address
    &&& e.burn_lp.authority == d.accounts.user.address
    &&& e.burn_lp.amount == d.instruction_data.amount
    &&& custody_matches(e.custody, cfg)
}

/// Everything `Withdraw::try_from` promises about its result, stated
/// once so the instruction dispatcher can promise the same.
pub open spec fn withdraw_try_from_post<'a>(
    r: Result<Withdraw<'a>, AmmError>,
    data: Seq<u8>,
    accounts: Seq<AccountInfo>,
) -> bool {
    &&& accounts.len() != 9 ==> (r matches Err(AmmError::NotEnoughAccountKeys))
    &&& accounts.len() == 9 && !accounts[0].is_signer ==> (r matches Err(
        AmmError::MissingRequiredSignature,
    ))
    &&& accounts.len() == 9 && accounts[0].is_signer ==> ({
        if !withdraw_payload_ok(data) {
            r matches Err(AmmError::InvalidInstructionData)
        } else if accounts[7].data@.len() != 108 {
            r matches Err(AmmError::InvalidAccountData)
        } else if spec_parse_config(accounts[7].data@).state == state_code(AmmState::Disabled) {
            r matches Err(AmmError::InvalidAccountData)
        } else {
            r matches Ok(t) && *t.accounts.user == accounts[0] && *t.accounts.mint_lp == accounts[1]
                && *t.accounts.vault_x == accounts[2] && *t.accounts.vault_y == accounts[3]
                && *t.accounts.user_x_ata == accounts[4] && *t.accounts.user_y_ata == accounts[5]
                && *t.accounts.user_lp_ata == accounts[6] && *t.accounts.config == accounts[7]
                && *t.accounts.token_program == accounts[8] && t.instruction_data.amount
                == spec_u64_from_le_bytes(data.subrange(0, 8)) && t.instruction_data.min_x
                == spec_u64_from_le_bytes(data.subrange(8, 16)) && t.instruction_data.min_y
                == spec_u64_from_le_bytes(data.subrange(16, 24)) && t.instruction_data.expiration
                as u64 == spec_u64_from_le_bytes(data.subrange(24, 32))
        }
    })
}

impl<'a> Withdraw<'a> {
    /// Build the request: accounts, then payload, then the lifecycle
    /// gate — withdrawal is allowed in every state but Disabled, so an
    /// orderly exit stays possible while new trades are blocked.
    pub fn try_from(data: &[u8], accounts: &'a Vec<AccountInfo>) -> (r: Result<Self, AmmError>)
        ensures
            withdraw_try_from_post(r, data@, accounts@),
    {
        let accounts = match WithdrawAccounts::try_from(accounts) {
            Ok(a) => a,
            Err(e) => {
                return Err(e);
            },
        };
        let instruction_data = match WithdrawInstructionData::try_from(data) {
            Ok(d) => d,
            Err(e) => {
                return Err(e);
            },
        };
        let config = match Config::load(accounts.config.data.as_slice()) {
            Ok(c) => c,
            Err(e) => {
                return Err(e);
            },
        };
        if config.state() == AmmState::Disabled.code() {
            return Err(AmmError::InvalidAccountData);
        }
        Ok(Withdraw { accounts, instruction_data })
    }

    /// Compute what the burn pays out and plan its transfers and burn.
    ///
    /// Burning the whole supply pays out both reserves exactly; a partial
    /// burn pays the proportional amounts under the rounded-down
    /// remaining ratio, which must reach the caller's minima.
    pub fn process(&self) -> (r: Result<WithdrawEffects, AmmError>)
        ensures
            ({
                let cdata = self.accounts.config.data@;
                let xdata = self.accounts.vault_x.data@;
                let ydata = self.accounts.vault_y.data@;
                let ldata = self.accounts.mint_lp.data@;
                if cdata.len() != 108 || xdata.len() < 72 || ydata.len() < 72 || ldata.len() < 44 {
                    r matches Err(AmmError::InvalidAccountData)
                } else {
                    let cfg = spec_parse_config(cdata);
                    let x = spec_u64_from_le_bytes(xdata.subrange(64, 72));
                    let y = spec_u64_from_le_bytes(ydata.subrange(64, 72));
                    let l = spec_u64_from_le_bytes(ldata.subrange(36, 44));
                    let amount = self.instruction_data.amount;
                    let min_x = self.instruction_data.min_x;
                    let min_y = self.instruction_data.min_y;
                    if l == amount {
                        if x < min_x || y < min_y {
                            r matches Err(AmmError::InvalidArgument)
                        } else {
                            r matches Ok(e) && withdraw_effects_ok(e, *self, cfg, x as int, y as int)
                        }
                    } else if l == 0 || amount > l {
                        r matches Err(AmmError::InvalidAccountData)
                    } else {
                        let wx = withdraw_amount(x as int, l as int, amount as int);
                        let wy = withdraw_amount(y as int, l as int, amount as int);
                        if wx < min_x || wy < min_y {
                            r matches Err(AmmError::InvalidArgument)
                        } else {
                            r matches Ok(e) && withdraw_effects_ok(e, *self, cfg, wx, wy)
                        }
                    }
                }
            }),
    {
        let config = match Config::load(self.accounts.config.data.as_slice()) {
            Ok(c) => c,
            Err(e) => {
                return Err(e);
            },
        };
        let x = match get_token_account_amount(self.accounts.vault_x) {
            Ok(v) => v,
            Err(e) => {
                return Err(e);
            },
        };
        let y = match get_token_account_amount(self.accounts.vault_y) {
            Ok(v) => v,
            Err(e) => {
                return Err(e);
            },
        };
        let l = match get_mint_supply(self.accounts.mint_lp) {
            Ok(v) => v,
            Err(e) => {
                return Err(e);
            },
        };
        let (withdraw_x, withdraw_y): (u64, u64) = if l == self.instruction_data.amount {
            (x, y)
        } else {
            match xy_withdraw_amounts(x, y, l, self.instruction_data.amount) {
                Ok(p) => p,
                Err(e) => {
                    return Err(map_curve_error(e));
                },
            }
        };
        if withdraw_x < self.instruction_data.min_x || withdraw_y < self.instruction_data.min_y {
            return Err(AmmError::InvalidArgument);
        }
        let custody = CustodyAuthority {
            seed: config.seed(),
            mint_x: config.mint_x(),
            mint_y: config.mint_y(),
            bump: config.config_bump()[0],
        };
        Ok(
            WithdrawEffects {
                transfer_x: Transfer {
                    from: self.accounts.vault_x.address,
                    to: self.accounts.user_x_ata.address,
                    authority: self.accounts.config.address,
                    amount: withdraw_x,
                },
                transfer_y: Transfer {
                    from: self.accounts.vault_y.address,
                    to: self.accounts.user_y_ata.address,
                    authority: self.accounts.config.address,
                    amount: withdraw_y,
                },
                burn_lp: Burn {
                    account: self.accounts.user_lp_ata.address,
                    mint: self.accounts.mint_lp.address,
                    authority: self.accounts.user.address,
                    amount: self.instruction_data.amount,
                },
                custody,
            },
        )
    }
}

/// The planned effects of a withdrawal: two custody-signed transfers out
/// of the vaults and the caller-signed share burn.
#[derive(Clone, Copy, Debug, PartialEq, Eq)]
pub struct WithdrawEffects {
    pub transfer_x: Transfer,
    pub transfer_y: Transfer,
    pub burn_lp: Burn,
    pub custody: CustodyAuthority,
}

} // verus!
