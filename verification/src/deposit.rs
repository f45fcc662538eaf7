//! Liquidity deposit.
//!
//! Deposit reads the reserve balances and the share supply live. The very
//! first deposit must request exactly the share count the curve assigns
//! to the offered amounts; later deposits owe the proportional top-up of
//! each reserve, bounded by the caller's maxima. The plan moves both
//! top-ups from the caller into the vaults and mints the requested shares
//! under the pool's custody authority.

use vstd::prelude::*;
use vstd::bytes::{spec_u64_from_le_bytes, u64_from_le_bytes};
use crate::account::{get_mint_supply, get_token_account_amount, AccountInfo};
use crate::curve::{
    deposit_amount, deposit_ratio, initial_shares, lp_tokens_for_initial_deposit,
    xy_deposit_amounts,
};
use crate::effects::{custody_matches, CustodyAuthority, MintTo, Transfer};
use crate::errors::{map_curve_error, AmmError};
use crate::state::{spec_parse_config, state_code, AmmState, Config, ConfigView};

verus! {

/// The accounts a deposit runs against, in wire order.
pub struct DepositAccounts<'a> {
    pub user: &'a AccountInfo,
    pub mint_lp: &'a AccountInfo,
    pub vault_x: &'a AccountInfo,
    pub vault_y: &'a AccountInfo,
    pub user_x_ata: &'a AccountInfo,
    pub user_y_ata: &'a AccountInfo,
    pub user_lp_ata: &'a AccountInfo,
    pub config: &'a AccountInfo,
    pub token_program: &'a AccountInfo,
}

impl<'a> DepositAccounts<'a> {
    /// Check arity and the caller's signature, then name the accounts by
    /// role.
    pub fn try_from(accounts: &'a Vec<AccountInfo>) -> (r: Result<Self, AmmError>)
        ensures
            accounts@.len() != 9 ==> r matches Err(AmmError::NotEnoughAccountKeys),
            accounts@.len() == 9 && !accounts@[0].is_signer ==> r matches Err(
                AmmError::MissingRequiredSignature,
            ),
            accounts@.len() == 9 && accounts@[0].is_signer ==> (r matches Ok(a) && *a.user
                == accounts@[0] && *a.mint_lp == accounts@[1] && *a.vault_x == accounts@[2]
                && *a.vault_y == accounts@[3] && *a.user_x_ata == accounts@[4] && *a.user_y_ata
                == accounts@[5] && *a.user_lp_ata == accounts@[6] && *a.config == accounts@[7]
                && *a.token_program == accounts@[8]),
    {
        if accounts.len() != 9 {
            return Err(AmmError::NotEnoughAccountKeys);
        }
        if !accounts[0].is_signer {
            return Err(AmmError::MissingRequiredSignature);
        }
        Ok(
            DepositAccounts {
                user: &accounts[0],
                mint_lp: &accounts[1],
                vault_x: &accounts[2],
                vault_y: &accounts[3],
                user_x_ata: &accounts[4],
                user_y_ata: &accounts[5],
                user_lp_ata: &accounts[6],
                config: &accounts[7],
                token_program: &accounts[8],
            },
        )
    }
}

/// The decoded deposit payload: requested share count, the caller's
/// per-reserve maxima, and the (unused) expiration stamp.
pub struct DepositInstructionData {
    pub amount: u64,
    pub max_x: u64,
    pub max_y: u64,
    pub expiration: i64,
}

/// True of a payload long enough for a deposit whose share count and
/// both bounds are nonzero.
pub open spec fn deposit_payload_ok(data: Seq<u8>) -> bool {
    &&& data.len() >= 32
    &&& spec_u64_from_le_bytes(data.subrange(0, 8)) != 0
    &&& spec_u64_from_le_bytes(data.subrange(8, 16)) != 0
    &&& spec_u64_from_le_bytes(data.subrange(16, 24)) != 0
}

impl DepositInstructionData {
    /// Decode the little-endian deposit payload; zero is never a
    /// meaningful share count or bound, so any being zero is refused.
    pub fn try_from(data: &[u8]) -> (r: Result<Self, AmmError>)
        ensures
            !deposit_payload_ok(data@) ==> r matches Err(AmmError::InvalidInstructionData),
            deposit_payload_ok(data@) ==> (r matches Ok(d) && d.amount == spec_u64_from_le_bytes(
                data@.subrange(0, 8),
            ) && d.max_x == spec_u64_from_le_bytes(data@.subrange(8, 16)) && d.max_y
                == spec_u64_from_le_bytes(data@.subrange(16, 24)) && d.expiration as u64
                == spec_u64_from_le_bytes(data@.subrange(24, 32))),
    {
        if data.len() < 32 {
            return Err(AmmError::InvalidInstructionData);
        }
        let amount = u64_from_le_bytes(&data[0..8]);
        let max_x = u64_from_le_bytes(&data[8..16]);
        let max_y = u64_from_le_bytes(&data[16..24]);
        let raw_expiration = u64_from_le_bytes(&data[24..32]);
        let expiration = #[verifier::truncate] (raw_expiration as i64);
        proof {
            assert((raw_expiration as i64) as u64 == raw_expiration) by (bit_vector);
        }
        if amount == 0 || max_x == 0 || max_y == 0 {
            return Err(AmmError::InvalidInstructionData);
        }
        Ok(DepositInstructionData { amount, max_x, max_y, expiration })
    }
}

/// A validated deposit request against an initialized pool.
pub struct Deposit<'a> {
    pub accounts: DepositAccounts<'a>,
    pub instruction_data: DepositInstructionData,
}

/// Wire tag of the Deposit operation.
pub const DEPOSIT_DISCRIMINATOR: u8 = 1;

/// True when the planned effects move exactly `dx` and `dy` from the
/// caller's holdings into the vaults and mint the requested shares under
/// the record's custody seeds.
pub open spec fn deposit_effects_ok<'a>(
    e: DepositEffects,
    d: Deposit<'a>,
    cfg: ConfigView,
    dx: int,
    dy: int,
) -> bool {
    &&& e.transfer_x.from == d.accounts.user_x_ata.address
    &&& e.transfer_x.to == d.accounts.vault_x.address
    &&& e.transfer_x.authority == d.accounts.user.address
    &&& e.transfer_x.amount == dx
    &&& e.transfer_y.from == d.accounts.user_y_ata.address
    &&& e.transfer_y.to == d.accounts.vault_y.address
    &&& e.transfer_y.authority == d.accounts.user.address
    &&& e.transfer_y.amount == dy
    &&& e.mint_lp.mint == d.accounts.mint_lp.address
    &&& e.mint_lp.account == d.accounts.user_lp_ata.address
    &&& e.mint_lp.mint_authority == d.accounts.config.address
    &&& e.mint_lp.amount == d.instruction_data.amount
    &&& custody_matches(e.custody, cfg)
}

/// Everything `Deposit::try_from` promises about its result, stated once
/// so the instruction dispatcher can promise the same.
pub open spec fn deposit_try_from_post<'a>(
    r: Result<Deposit<'a>, AmmError>,
    data: Seq<u8>,
    accounts: Seq<AccountInfo>,
) -> bool {
    &&& accounts.len() != 9 ==> (r matches Err(AmmError::NotEnoughAccountKeys))
    &&& accounts.len() == 9 && !accounts[0].is_signer ==> (r matches Err(
        AmmError::MissingRequiredSignature,
    ))
    &&& accounts.len() == 9 && accounts[0].is_signer ==> ({
        if !deposit_payload_ok(data) {
            r matches Err(AmmError::InvalidInstructionData)
        } else if accounts[7].data@.len() != 108 {
            r matches Err(AmmError::InvalidAccountData)
        } else if spec_parse_config(accounts[7].data@).state != state_code(AmmState::Initialized) {
            r matches Err(AmmError::InvalidAccountData)
        } else {
            r matches Ok(t) && *t.accounts.user == accounts[0] && *t.accounts.mint_lp == accounts[1]
                && *t.accounts.vault_x == accounts[2] && *t.accounts.vault_y == accounts[3]
                && *t.accounts.user_x_ata == accounts[4] && *t.accounts.user_y_ata == accounts[5]
                && *t.accounts.user_lp_ata == accounts[6] && *t.accounts.config == accounts[7]
                && *t.accounts.token_program == accounts[8] && t.instruction_data.amount
                == spec_u64_from_le_bytes(data.subrange(0, 8)) && t.instruction_data.max_x
                == spec_u64_from_le_bytes(data.subrange(8, 16)) && t.instruction_data.max_y
                == spec_u64_from_le_bytes(data.subrange(16, 24)) && t.instruction_data.expiration
                as u64 == spec_u64_from_le_bytes(data.subrange(24, 32))
        }
    })
}

impl<'a> Deposit<'a> {
    /// Build the request: accounts, then payload, then the lifecycle
    /// gate — deposits are allowed only while the pool is initialized.
    pub fn try_from(data: &[u8], accounts: &'a Vec<AccountInfo>) -> (r: Result<Self, AmmError>)
        ensures
            deposit_try_from_post(r, data@, accounts@),
    {
        let accounts = match DepositAccounts::try_from(accounts) {
            Ok(a) => a,
            Err(e) => {
                return Err(e);
            },
        };
        let instruction_data = match DepositInstructionData::try_from(data) {
            Ok(d) => d,
            Err(e) => {
                return Err(e);
            },
        };
        let config = match Config::load(accounts.config.data.as_slice()) {
            Ok(c) => c,
            Err(e) => {
                return Err(e);
            },
        };
        if config.state() != AmmState::Initialized.code() {
            return Err(AmmError::InvalidAccountData);
        }
        Ok(Deposit { accounts, instruction_data })
    }

    /// Compute what the deposit owes and plan its transfers and mint.
    ///
    /// On the very first deposit (no shares, both reserves empty) the
    /// requested share count must equal exactly what the curve assigns to
    /// the offered maxima, and the maxima themselves are deposited. On
    /// any later deposit the proportional top-ups are computed from the
    /// live balances and must not run past the caller's maxima.
    pub fn process(&self) -> (r: Result<DepositEffects, AmmError>)
        ensures
            ({
                let cdata = self.accounts.config.data@;
                let xdata = self.accounts.vault_x.data@;
                let ydata = self.accounts.vault_y.data@;
                let ldata = self.accounts.mint_lp.data@;
                if cdata.len() != 108 || xdata.len() < 72 || ydata.len() < 72 || ldata.len() < 44 {
                    r matches Err(AmmError::InvalidAccountData)
                } else {
                    let cfg = spec_parse_config(cdata);
                    let x = spec_u64_from_le_bytes(xdata.subrange(64, 72));
                    let y = spec_u64_from_le_bytes(ydata.subrange(64, 72));
                    let l = spec_u64_from_le_bytes(ldata.subrange(36, 44));
                    let amount = self.instruction_data.amount;
                    let max_x = self.instruction_data.max_x;
                    let max_y = self.instruction_data.max_y;
                    if l == 0 && x == 0 && y == 0 {
                        if max_x == 0 || max_y == 0 {
                            r matches Err(AmmError::InvalidAccountData)
                        } else if amount != initial_shares(max_x as int, max_y as int) {
                            r matches Err(AmmError::InvalidInstructionData)
                        } else {
                            r matches Ok(e) && deposit_effects_ok(
                                e,
                                *self,
                                cfg,
                                max_x as int,
                                max_y as int,
                            )
                        }
                    } else if l == 0 {
                        r matches Err(AmmError::InvalidAccountData)
                    } else {
                        let ratio = deposit_ratio(l as int, amount as int);
                        let dx = deposit_amount(x as int, l as int, amount as int);
                        let dy = deposit_amount(y as int, l as int, amount as int);
                        if (x as int) * ratio > u128::MAX as int || dx > u64::MAX as int || (
                        y as int) * ratio > u128::MAX as int || dy > u64::MAX as int {
                            r matches Err(AmmError::InvalidInstructionData)
                        } else if dx > max_x as int || dy > max_y as int {
                            r matches Err(AmmError::InvalidArgument)
                        } else {
                            r matches Ok(e) && deposit_effects_ok(e, *self, cfg, dx, dy)
                        }
                    }
                }
            }),
    {
        let config = match Config::load(self.accounts.config.data.as_slice()) {
            Ok(c) => c,
            Err(e) => {
                return Err(e);
            },
        };
        let x = match get_token_account_amount(self.accounts.vault_x) {
            Ok(v) => v,
            Err(e) => {
                return Err(e);
            },
        };
        let y = match get_token_account_amount(self.accounts.vault_y) {
            Ok(v) => v,
            Err(e) => {
                return Err(e);
            },
        };
        let l = match get_mint_supply(self.accounts.mint_lp) {
            Ok(v) => v,
            Err(e) => {
                return Err(e);
            },
        };
        let (deposit_x, deposit_y): (u64, u64) = if l == 0 && x == 0 && y == 0 {
            let lp = match lp_tokens_for_initial_deposit(
                self.instruction_data.max_x,
                self.instruction_data.max_y,
            ) {
                Ok(v) => v,
                Err(e) => {
                    return Err(map_curve_error(e));
                },
            };
            if self.instruction_data.amount != lp {
                return Err(AmmError::InvalidInstructionData);
            }
            (self.instruction_data.max_x, self.instruction_data.max_y)
        } else {
            let (dx, dy) = match xy_deposit_amounts(x, y, l, self.instruction_data.amount) {
                Ok(p) => p,
                Err(e) => {
                    return Err(map_curve_error(e));
                },
            };
            if dx > self.instruction_data.max_x || dy > self.instruction_data.max_y {
                return Err(AmmError::InvalidArgument);
            }
            (dx, dy)
        };
        let custody = CustodyAuthority {
            seed: config.seed(),
            mint_x: config.mint_x(),
            mint_y: config.mint_y(),
            bump: config.config_bump()[0],
        };
        Ok(
            DepositEffects {
                transfer_x: Transfer {
                    from: self.accounts.user_x_ata.address,
                    to: self.accounts.vault_x.address,
                    authority: self.accounts.user.address,
                    amount: deposit_x,
                },
                transfer_y: Transfer {
                    from: self.accounts.user_y_ata.address,
                    to: self.accounts.vault_y.address,
                    authority: self.accounts.user.address,
                    amount: deposit_y,
                },
                mint_lp: MintTo {
                    mint: self.accounts.mint_lp.address,
                    account: self.accounts.user_lp_ata.address,
                    mint_authority: self.accounts.config.address,
                    amount: self.instruction_data.amount,
                },
                custody,
            },
        )
    }
}

/// The planned effects of a deposit: two caller-signed transfers into
/// the vaults and the custody-signed share mint.
#[derive(Clone, Copy, Debug, PartialEq, Eq)]
pub struct DepositEffects {
    pub transfer_x: Transfer,
    pub transfer_y: Transfer,
    pub mint_lp: MintTo,
    pub custody: CustodyAuthority,
}

} // verus!
