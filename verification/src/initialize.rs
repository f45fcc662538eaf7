//! Pool creation.
//!
//! Initialize decodes the creation payload, validates the fee before any
//! account is touched, and plans the two account creations: the
//! configuration record at its derived address, written as an initialized
//! well-formed record, and the share mint with the pool's custody identity
//! as its minting authority.

use vstd::prelude::*;
use vstd::bytes::{spec_u16_from_le_bytes, spec_u64_from_le_bytes, u16_from_le_bytes, u64_from_le_bytes};
use crate::account::{read_address, AccountInfo};
use crate::effects::{custody_matches, CreateAccount, CustodyAuthority, InitializeMint};
use crate::errors::AmmError;
use crate::state::{is_zero_address, spec_parse_config, state_code, AmmState, Config, ConfigView};

verus! {

broadcast use vstd::array::group_array_axioms;

/// Size in bytes of a mint account on the asset ledger.
pub const SPL_MINT_SIZE: u64 = 82;

/// Decimal places of the pool-share mint.
pub const LP_DECIMALS: u8 = 6;

/// The accounts pool creation runs against, in wire order.
pub struct InitializeAccounts<'a> {
    pub initializer: &'a AccountInfo,
    pub mint_lp: &'a AccountInfo,
    pub config: &'a AccountInfo,
    pub system_program: &'a AccountInfo,
    pub token_program: &'a AccountInfo,
}

impl<'a> InitializeAccounts<'a> {
    /// Check arity and the initializer's signature, then name the
    /// accounts by role.
    pub fn try_from(accounts: &'a Vec<AccountInfo>) -> (r: Result<Self, AmmError>)
        ensures
            accounts@.len() != 5 ==> r matches Err(AmmError::NotEnoughAccountKeys),
            accounts@.len() == 5 && !accounts@[0].is_signer ==> r matches Err(
                AmmError::MissingRequiredSignature,
            ),
            accounts@.len() == 5 && accounts@[0].is_signer ==> (r matches Ok(a)
                && *a.initializer == accounts@[0] && *a.mint_lp == accounts@[1] && *a.config
                == accounts@[2] && *a.system_program == accounts@[3] && *a.token_program
                == accounts@[4]),
    {
        if accounts.len() != 5 {
            return Err(AmmError::NotEnoughAccountKeys);
        }
        if !accounts[0].is_signer {
            return Err(AmmError::MissingRequiredSignature);
        }
        Ok(
            InitializeAccounts {
                initializer: &accounts[0],
                mint_lp: &accounts[1],
                config: &accounts[2],
                system_program: &accounts[3],
                token_program: &accounts[4],
            },
        )
    }
}

/// The decoded creation payload: seed, fee, the two asset identities,
/// the two derivation bumps, and the optional authority.
pub struct InitializeInstructionData {
    pub seed: u64,
    pub fee: u16,
    pub mint_x: [u8; 32],
    pub mint_y: [u8; 32],
    pub config_bump: [u8; 1],
    pub lp_bump: [u8; 1],
    pub authority: [u8; 32],
}

impl InitializeInstructionData {
    /// Decode the little-endian creation payload. A payload without the
    /// trailing authority identity gets the zero (absent) authority; a
    /// fee at or past the basis-point denominator is refused.
    pub fn try_from(data: &[u8]) -> (r: Result<Self, AmmError>)
        ensures
            data@.len() < 76 ==> r matches Err(AmmError::InvalidInstructionData),
            data@.len() >= 76 ==> ({
                let fee = spec_u16_from_le_bytes(data@.subrange(8, 10));
                if fee >= 10000 {
                    r matches Err(AmmError::InvalidInstructionData)
                } else {
                    r matches Ok(d) && d.seed == spec_u64_from_le_bytes(data@.subrange(0, 8))
                        && d.fee == fee && d.mint_x@ == data@.subrange(10, 42) && d.mint_y@
                        == data@.subrange(42, 74) && d.config_bump@[0] == data@[74] && d.lp_bump@[0]
                        == data@[75] && (data@.len() >= 108 ==> d.authority@ == data@.subrange(
                        76,
                        108,
                    )) && (data@.len() < 108 ==> is_zero_address(d.authority@))
                }
            }),
    {
        if data.len() < 76 {
            return Err(AmmError::InvalidInstructionData);
        }
        let seed = u64_from_le_bytes(&data[0..8]);
        let fee = u16_from_le_bytes(&data[8..10]);
        let mint_x = read_address(data, 10);
        let mint_y = read_address(data, 42);
        let config_bump = [data[74]];
        let lp_bump = [data[75]];
        let authority = if data.len() >= 108 {
            read_address(data, 76)
        } else {
            [0u8; 32]
        };
        if fee >= 10000 {
            return Err(AmmError::InvalidInstructionData);
        }
        Ok(InitializeInstructionData { seed, fee, mint_x, mint_y, config_bump, lp_bump, authority })
    }
}

/// A validated pool-creation request.
pub struct Initialize<'a> {
    pub accounts: InitializeAccounts<'a>,
    pub instruction_data: InitializeInstructionData,
    pub program_id: [u8; 32],
}

/// Wire tag of the Initialize operation.
pub const INITIALIZE_DISCRIMINATOR: u8 = 0;

/// Everything `Initialize::try_from` promises about its result, stated
/// once so the instruction dispatcher can promise the same.
pub open spec fn initialize_try_from_post<'a>(
    r: Result<Initialize<'a>, AmmError>,
    data: Seq<u8>,
    accounts: Seq<AccountInfo>,
    program_id: [u8; 32],
) -> bool {
    &&& accounts.len() != 5 ==> (r matches Err(AmmError::NotEnoughAccountKeys))
    &&& accounts.len() == 5 && !accounts[0].is_signer ==> (r matches Err(
        AmmError::MissingRequiredSignature,
    ))
    &&& accounts.len() == 5 && accounts[0].is_signer ==> ({
        if data.len() < 76 || spec_u16_from_le_bytes(data.subrange(8, 10)) >= 10000 {
            r matches Err(AmmError::InvalidInstructionData)
        } else {
            r matches Ok(t) && *t.accounts.initializer == accounts[0] && *t.accounts.mint_lp
                == accounts[1] && *t.accounts.config == accounts[2] && *t.accounts.system_program
                == accounts[3] && *t.accounts.token_program == accounts[4] && t.program_id
                == program_id && t.instruction_data.seed == spec_u64_from_le_bytes(
                data.subrange(0, 8),
            ) && t.instruction_data.fee == spec_u16_from_le_bytes(data.subrange(8, 10))
                && t.instruction_data.mint_x@ == data.subrange(10, 42)
                && t.instruction_data.mint_y@ == data.subrange(42, 74)
                && t.instruction_data.config_bump@[0] == data[74] && t.instruction_data.lp_bump@[0]
                == data[75] && (data.len() >= 108 ==> t.instruction_data.authority@
                == data.subrange(76, 108)) && (data.len() < 108 ==> is_zero_address(
                t.instruction_data.authority@,
            ))
        }
    })
}

impl<'a> Initialize<'a> {
    /// Build the request: accounts are validated first, then the payload.
    pub fn try_from(
        data: &[u8],
        accounts: &'a Vec<AccountInfo>,
        program_id: &[u8; 32],
    ) -> (r: Result<Self, AmmError>)
        ensures
            initialize_try_from_post(r, data@, accounts@, *program_id),
    {
        let accounts = match InitializeAccounts::try_from(accounts) {
            Ok(a) => a,
            Err(e) => {
                return Err(e);
            },
        };
        let instruction_data = match InitializeInstructionData::try_from(data) {
            Ok(d) => d,
            Err(e) => {
                return Err(e);
            },
        };
        Ok(Initialize { accounts, instruction_data, program_id: *program_id })
    }

    /// Plan pool creation: allocate the record account at its derived
    /// address and write the initialized record, then allocate the share
    /// mint and initialize it with the custody identity as minting
    /// authority. Nothing is planned for a fee out of range.
    pub fn process(&self) -> (r: Result<InitializeEffects, AmmError>)
        ensures
            self.instruction_data.fee >= 10000 ==> r matches Err(AmmError::InvalidAccountData),
            self.instruction_data.fee < 10000 ==> (r matches Ok(e) && {
                let d = self.instruction_data;
                &&& e.create_config.target == self.accounts.config.address
                &&& e.create_config.space == 108
                &&& e.create_config.owner == self.program_id
                &&& e.config_bytes@.len() == 108
                &&& spec_parse_config(e.config_bytes@) == (ConfigView {
                    state: state_code(AmmState::Initialized),
                    seed: d.seed,
                    authority: d.authority@,
                    mint_x: d.mint_x@,
                    mint_y: d.mint_y@,
                    fee: d.fee,
                    config_bump: d.config_bump@[0],
                })
                &&& spec_parse_config(e.config_bytes@).well_formed()
                &&& e.create_lp_mint.target == self.accounts.mint_lp.address
                &&& e.create_lp_mint.space == SPL_MINT_SIZE
                &&& e.create_lp_mint.owner == self.accounts.token_program.address
                &&& e.init_lp_mint.mint == self.accounts.mint_lp.address
                &&& e.init_lp_mint.decimals == LP_DECIMALS
                &&& e.init_lp_mint.mint_authority == self.accounts.config.address
                &&& custody_matches(e.custody, spec_parse_config(e.config_bytes@))
                &&& e.lp_bump == d.lp_bump@[0]
            }),
    {
        let d = &self.instruction_data;
        let mut record = Config::default();
        match record.set_inner(d.seed, d.authority, d.mint_x, d.mint_y, d.fee, d.config_bump) {
            Ok(()) => (),
            Err(e) => {
                return Err(e);
            },
        }
        let config_bytes = record.to_bytes();
        Ok(
            InitializeEffects {
                create_config: CreateAccount {
                    target: self.accounts.config.address,
                    space: 108,
                    owner: self.program_id,
                },
                config_bytes,
                create_lp_mint: CreateAccount {
                    target: self.accounts.mint_lp.address,
                    space: SPL_MINT_SIZE,
                    owner: self.accounts.token_program.address,
                },
                init_lp_mint: InitializeMint {
                    mint: self.accounts.mint_lp.address,
                    decimals: LP_DECIMALS,
                    mint_authority: self.accounts.config.address,
                },
                custody: CustodyAuthority {
                    seed: d.seed,
                    mint_x: d.mint_x,
                    mint_y: d.mint_y,
                    bump: d.config_bump[0],
                },
                lp_bump: d.lp_bump[0],
            },
        )
    }
}

/// The planned effects of pool creation.
#[derive(Debug)]
pub struct InitializeEffects {
    /// Allocation of the configuration record at its derived address.
    pub create_config: CreateAccount,
    /// The 108-byte initialized record to write into it.
    pub config_bytes: Vec<u8>,
    /// Allocation of the share-mint account.
    pub create_lp_mint: CreateAccount,
    /// Initialization of the share mint.
    pub init_lp_mint: InitializeMint,
    /// Seeds of the pool's derived signing identity.
    pub custody: CustodyAuthority,
    /// Derivation bump of the share-mint address.
    pub lp_bump: u8,
}

} // verus!
