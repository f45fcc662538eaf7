//! Tests of instruction decoding, the configuration record codec, and
//! the operation processors' planned effects.

use amm_core::account::{get_mint_supply, get_token_account_amount, AccountInfo};
use amm_core::{decode_instruction, PoolRequest};
use amm_core::deposit::{Deposit, DepositInstructionData};
use amm_core::errors::AmmError;
use amm_core::initialize::{Initialize, InitializeInstructionData};
use amm_core::state::Config;
use amm_core::swap::{Swap, SwapInstructionData};
use amm_core::withdraw::{Withdraw, WithdrawInstructionData};

const PROGRAM_ID: [u8; 32] = [9u8; 32];
const MINT_X_ID: [u8; 32] = [1u8; 32];
const MINT_Y_ID: [u8; 32] = [2u8; 32];

fn account(address_byte: u8, is_signer: bool, data: Vec<u8>) -> AccountInfo {
    AccountInfo { address: [address_byte; 32], is_signer, data }
}

/// Token-account bytes with the balance at its fixed offset.
fn token_account_data(amount: u64) -> Vec<u8> {
    let mut data = vec![0u8; 165];
    data[64..72].copy_from_slice(&amount.to_le_bytes());
    data
}

/// Mint bytes with the issued supply at its fixed offset.
fn mint_account_data(supply: u64) -> Vec<u8> {
    let mut data = vec![0u8; 82];
    data[36..44].copy_from_slice(&supply.to_le_bytes());
    data
}

/// A 108-byte configuration record in its wire layout.
fn config_record_bytes(state: u8, seed: u64, fee: u16, bump: u8) -> Vec<u8> {
    let mut data = vec![0u8; 108];
    data[0] = state;
    data[1..9].copy_from_slice(&seed.to_le_bytes());
    // authority stays zero: no administrative authority
    data[41..73].copy_from_slice(&MINT_X_ID);
    data[73..105].copy_from_slice(&MINT_Y_ID);
    data[105..107].copy_from_slice(&fee.to_le_bytes());
    data[107] = bump;
    data
}

fn initialize_payload(seed: u64, fee: u16, authority: Option<[u8; 32]>) -> Vec<u8> {
    let mut data = Vec::new();
    data.extend_from_slice(&seed.to_le_bytes());
    data.extend_from_slice(&fee.to_le_bytes());
    data.extend_from_slice(&MINT_X_ID);
    data.extend_from_slice(&MINT_Y_ID);
    data.push(255);
    data.push(254);
    if let Some(a) = authority {
        data.extend_from_slice(&a);
    }
    data
}

fn initialize_accounts() -> Vec<AccountInfo> {
    vec![
        account(10, true, Vec::new()),
        account(11, false, Vec::new()),
        account(17, false, Vec::new()),
        account(18, false, Vec::new()),
        account(19, false, Vec::new()),
    ]
}

fn deposit_payload(amount: u64, max_x: u64, max_y: u64, expiration: i64) -> Vec<u8> {
    let mut data = Vec::new();
    data.extend_from_slice(&amount.to_le_bytes());
    data.extend_from_slice(&max_x.to_le_bytes());
    data.extend_from_slice(&max_y.to_le_bytes());
    data.extend_from_slice(&expiration.to_le_bytes());
    data
}

fn withdraw_payload(amount: u64, min_x: u64, min_y: u64, expiration: i64) -> Vec<u8> {
    deposit_payload(amount, min_x, min_y, expiration)
}

fn swap_payload(is_x: bool, amount: u64, min_out: u64, expiration: i64) -> Vec<u8> {
    let mut data = Vec::new();
    data.push(if is_x { 1 } else { 0 });
    data.extend_from_slice(&amount.to_le_bytes());
    data.extend_from_slice(&min_out.to_le_bytes());
    data.extend_from_slice(&expiration.to_le_bytes());
    data
}

/// The nine deposit/withdraw accounts in wire order.
fn pool_accounts(x: u64, y: u64, supply: u64, state: u8) -> Vec<AccountInfo> {
    vec![
        account(10, true, Vec::new()),
        account(11, false, mint_account_data(supply)),
        account(12, false, token_account_data(x)),
        account(13, false, token_account_data(y)),
        account(14, false, token_account_data(1_000_000_000)),
        account(15, false, token_account_data(1_000_000_000)),
        account(16, false, token_account_data(0)),
        account(17, false, config_record_bytes(state, 42, 30, 255)),
        account(18, false, Vec::new()),
    ]
}

/// The seven swap accounts in wire order.
fn swap_accounts(x: u64, y: u64, state: u8) -> Vec<AccountInfo> {
    vec![
        account(10, true, Vec::new()),
        account(14, false, token_account_data(1_000_000_000)),
        account(15, false, token_account_data(1_000_000_000)),
        account(12, false, token_account_data(x)),
        account(13, false, token_account_data(y)),
        account(17, false, config_record_bytes(state, 42, 30, 255)),
        account(18, false, Vec::new()),
    ]
}

#[test]
fn test_initialize_ok() {
    let payload = initialize_payload(42, 30, None);
    let accounts = initialize_accounts();
    let request = Initialize::try_from(&payload, &accounts, &PROGRAM_ID).unwrap();
    let effects = request.process().unwrap();
    assert_eq!(effects.create_config.target, [17u8; 32]);
    assert_eq!(effects.create_config.space, 108);
    assert_eq!(effects.create_config.owner, PROGRAM_ID);
    // state byte must be Initialized(1)
    assert_eq!(effects.config_bytes[0], 1);
    let record = Config::load(&effects.config_bytes).unwrap();
    assert_eq!(record.state(), 1);
    assert_eq!(record.seed(), 42);
    assert_eq!(record.fee(), 30);
    assert_eq!(record.mint_x(), MINT_X_ID);
    assert_eq!(record.mint_y(), MINT_Y_ID);
    assert_eq!(record.config_bump(), [255]);
    assert!(record.has_authority().is_none());
    assert_eq!(effects.create_lp_mint.target, [11u8; 32]);
    assert_eq!(effects.create_lp_mint.space, 82);
    assert_eq!(effects.init_lp_mint.decimals, 6);
    assert_eq!(effects.init_lp_mint.mint_authority, [17u8; 32]);
    assert_eq!(effects.custody.seed, 42);
    assert_eq!(effects.custody.bump, 255);
    assert_eq!(effects.lp_bump, 254);
}

#[test]
fn test_initialize_fail_not_enough_accounts() {
    let payload = initialize_payload(42, 30, None);
    let mut accounts = initialize_accounts();
    accounts.pop();
    let r = Initialize::try_from(&payload, &accounts, &PROGRAM_ID);
    assert!(matches!(r, Err(AmmError::NotEnoughAccountKeys)));
}

#[test]
fn test_initialize_fail_fee_invalid() {
    // A fee equal to the whole basis-point denominator is refused at
    // decoding, before any account would be created.
    let payload = initialize_payload(42, 10_000, None);
    let accounts = initialize_accounts();
    let r = Initialize::try_from(&payload, &accounts, &PROGRAM_ID);
    assert!(matches!(r, Err(AmmError::InvalidInstructionData)));
    let d = InitializeInstructionData::try_from(&payload);
    assert!(matches!(d, Err(AmmError::InvalidInstructionData)));
}

#[test]
fn test_initialize_fail_short_data() {
    let payload = vec![0u8; 50];
    let accounts = initialize_accounts();
    let r = Initialize::try_from(&payload, &accounts, &PROGRAM_ID);
    assert!(matches!(r, Err(AmmError::InvalidInstructionData)));
}

#[test]
fn test_initialize_optional_authority() {
    let with = InitializeInstructionData::try_from(&initialize_payload(42, 30, Some([7u8; 32])))
        .unwrap();
    assert_eq!(with.authority, [7u8; 32]);
    let without = InitializeInstructionData::try_from(&initialize_payload(42, 30, None)).unwrap();
    assert_eq!(without.authority, [0u8; 32]);
}

#[test]
fn test_deposit_initial() {
    // First deposit: required shares are exactly max(max_x, max_y).
    let max_x = 1_000_000u64;
    let max_y = 2_000_000u64;
    let lp_amount = max_y;
    let payload = deposit_payload(lp_amount, max_x, max_y, 0);
    let accounts = pool_accounts(0, 0, 0, 1);
    let request = Deposit::try_from(&payload, &accounts).unwrap();
    let effects = request.process().unwrap();
    // lp_tokens = max(max_x, max_y)
    assert_eq!(effects.mint_lp.amount, 2_000_000);
    assert_eq!(effects.transfer_x.amount, max_x);
    assert_eq!(effects.transfer_y.amount, max_y);
    assert_eq!(effects.transfer_x.from, [14u8; 32]);
    assert_eq!(effects.transfer_x.to, [12u8; 32]);
    assert_eq!(effects.mint_lp.mint_authority, [17u8; 32]);
}

#[test]
fn test_deposit_initial_wrong_share_count() {
    let payload = deposit_payload(1_500_000, 1_000_000, 2_000_000, 0);
    let accounts = pool_accounts(0, 0, 0, 1);
    let request = Deposit::try_from(&payload, &accounts).unwrap();
    assert_eq!(request.process().unwrap_err(), AmmError::InvalidInstructionData);
}

#[test]
fn test_deposit_second() {
    let payload = deposit_payload(500, 100, 200, 0);
    let accounts = pool_accounts(1000, 2000, 5000, 1);
    let request = Deposit::try_from(&payload, &accounts).unwrap();
    let effects = request.process().unwrap();
    assert_eq!(effects.transfer_x.amount, 100);
    assert_eq!(effects.transfer_y.amount, 200);
    assert_eq!(effects.mint_lp.amount, 500);
    assert_eq!(effects.transfer_x.authority, [10u8; 32]);
    assert_eq!(effects.custody.seed, 42);
    assert_eq!(effects.custody.mint_x, MINT_X_ID);
    assert_eq!(effects.custody.mint_y, MINT_Y_ID);
    assert_eq!(effects.custody.bump, 255);
}

#[test]
fn test_deposit_bound_exceeded() {
    let payload = deposit_payload(500, 99, 200, 0);
    let accounts = pool_accounts(1000, 2000, 5000, 1);
    let request = Deposit::try_from(&payload, &accounts).unwrap();
    assert_eq!(request.process().unwrap_err(), AmmError::InvalidArgument);
}

#[test]
fn test_deposit_requires_initialized_state() {
    let payload = deposit_payload(500, 100, 200, 0);
    let withdraw_only = pool_accounts(1000, 2000, 5000, 3);
    assert!(matches!(
        Deposit::try_from(&payload, &withdraw_only),
        Err(AmmError::InvalidAccountData)
    ));
    let uninitialized = pool_accounts(1000, 2000, 5000, 0);
    assert!(matches!(
        Deposit::try_from(&payload, &uninitialized),
        Err(AmmError::InvalidAccountData)
    ));
}

#[test]
fn test_deposit_missing_signature() {
    let payload = deposit_payload(500, 100, 200, 0);
    let mut accounts = pool_accounts(1000, 2000, 5000, 1);
    accounts[0].is_signer = false;
    assert!(matches!(
        Deposit::try_from(&payload, &accounts),
        Err(AmmError::MissingRequiredSignature)
    ));
}

#[test]
fn test_deposit_wrong_account_count() {
    let payload = deposit_payload(500, 100, 200, 0);
    let mut accounts = pool_accounts(1000, 2000, 5000, 1);
    accounts.pop();
    assert!(matches!(
        Deposit::try_from(&payload, &accounts),
        Err(AmmError::NotEnoughAccountKeys)
    ));
}

#[test]
fn test_deposit_zero_amount_payload() {
    let r = DepositInstructionData::try_from(&deposit_payload(0, 100, 200, 0));
    assert!(matches!(r, Err(AmmError::InvalidInstructionData)));
    let short = DepositInstructionData::try_from(&[0u8; 31]);
    assert!(matches!(short, Err(AmmError::InvalidInstructionData)));
}

#[test]
fn test_deposit_expiration_decoded() {
    let d = DepositInstructionData::try_from(&deposit_payload(500, 100, 200, -5)).unwrap();
    assert_eq!(d.expiration, -5);
}

#[test]
fn test_withdraw_partial_process() {
    let payload = withdraw_payload(1000, 1, 1, 0);
    let accounts = pool_accounts(1000, 2000, 5000, 1);
    let request = Withdraw::try_from(&payload, &accounts).unwrap();
    let effects = request.process().unwrap();
    assert_eq!(effects.transfer_x.amount, 200);
    assert_eq!(effects.transfer_y.amount, 400);
    assert_eq!(effects.burn_lp.amount, 1000);
    assert_eq!(effects.transfer_x.from, [12u8; 32]);
    assert_eq!(effects.transfer_x.to, [14u8; 32]);
    assert_eq!(effects.transfer_x.authority, [17u8; 32]);
    assert_eq!(effects.burn_lp.authority, [10u8; 32]);
}

#[test]
fn test_withdraw_full_drain() {
    // Burning every outstanding share drains both reserves exactly.
    let payload = withdraw_payload(5000, 1000, 2000, 0);
    let accounts = pool_accounts(1000, 2000, 5000, 1);
    let request = Withdraw::try_from(&payload, &accounts).unwrap();
    let effects = request.process().unwrap();
    assert_eq!(effects.transfer_x.amount, 1000);
    assert_eq!(effects.transfer_y.amount, 2000);
}

#[test]
fn test_withdraw_below_minimum() {
    let payload = withdraw_payload(1000, 201, 1, 0);
    let accounts = pool_accounts(1000, 2000, 5000, 1);
    let request = Withdraw::try_from(&payload, &accounts).unwrap();
    assert_eq!(request.process().unwrap_err(), AmmError::InvalidArgument);
}

#[test]
fn test_withdraw_allowed_when_withdraw_only() {
    let payload = withdraw_payload(1000, 1, 1, 0);
    let accounts = pool_accounts(1000, 2000, 5000, 3);
    assert!(Withdraw::try_from(&payload, &accounts).is_ok());
}

#[test]
fn test_withdraw_blocked_when_disabled() {
    let payload = withdraw_payload(1000, 1, 1, 0);
    let accounts = pool_accounts(1000, 2000, 5000, 2);
    assert!(matches!(
        Withdraw::try_from(&payload, &accounts),
        Err(AmmError::InvalidAccountData)
    ));
}

#[test]
fn test_withdraw_zero_amount_payload() {
    let r = WithdrawInstructionData::try_from(&withdraw_payload(1000, 0, 1, 0));
    assert!(matches!(r, Err(AmmError::InvalidInstructionData)));
}

#[test]
fn test_swap_process_plan() {
    let payload = swap_payload(true, 100_000, 1, 0);
    let accounts = swap_accounts(1_000_000, 2_000_000, 1);
    let request = Swap::try_from(&payload, &accounts).unwrap();
    let effects = request.process().unwrap();
    assert_eq!(effects.transfer_in.amount, 100_000);
    assert_eq!(effects.transfer_out.amount, 181_323);
    assert_eq!(effects.transfer_in.from, [14u8; 32]);
    assert_eq!(effects.transfer_in.to, [12u8; 32]);
    assert_eq!(effects.transfer_in.authority, [10u8; 32]);
    assert_eq!(effects.transfer_out.from, [13u8; 32]);
    assert_eq!(effects.transfer_out.to, [15u8; 32]);
    assert_eq!(effects.transfer_out.authority, [17u8; 32]);
}

#[test]
fn test_swap_direction_y() {
    let payload = swap_payload(false, 100_000, 1, 0);
    let accounts = swap_accounts(1_000_000, 2_000_000, 1);
    let request = Swap::try_from(&payload, &accounts).unwrap();
    let effects = request.process().unwrap();
    assert_eq!(effects.transfer_out.amount, 47_483);
    assert_eq!(effects.transfer_in.from, [15u8; 32]);
    assert_eq!(effects.transfer_in.to, [13u8; 32]);
    assert_eq!(effects.transfer_out.from, [12u8; 32]);
    assert_eq!(effects.transfer_out.to, [14u8; 32]);
}

#[test]
fn test_swap_slippage_leaves_no_plan() {
    // An output below the caller's minimum is the distinct slippage
    // signal; no effects are planned, so no balance can move.
    let payload = swap_payload(true, 100_000, 181_324, 0);
    let accounts = swap_accounts(1_000_000, 2_000_000, 1);
    let request = Swap::try_from(&payload, &accounts).unwrap();
    assert_eq!(request.process().unwrap_err(), AmmError::SlippageExceeded);
}

#[test]
fn test_swap_requires_initialized_state() {
    let payload = swap_payload(true, 100_000, 1, 0);
    let accounts = swap_accounts(1_000_000, 2_000_000, 3);
    assert!(matches!(
        Swap::try_from(&payload, &accounts),
        Err(AmmError::InvalidAccountData)
    ));
}

#[test]
fn test_swap_zero_min_payload() {
    let r = SwapInstructionData::try_from(&swap_payload(true, 100_000, 0, 0));
    assert!(matches!(r, Err(AmmError::InvalidInstructionData)));
}

#[test]
fn test_swap_expiration_decoded() {
    let d = SwapInstructionData::try_from(&swap_payload(true, 100_000, 1, -77)).unwrap();
    assert!(d.is_x);
    assert_eq!(d.amount, 100_000);
    assert_eq!(d.min, 1);
    assert_eq!(d.expiration, -77);
}

#[test]
fn test_decode_instruction_routes_by_tag() {
    let mut tagged = vec![3u8];
    tagged.extend_from_slice(&swap_payload(true, 100_000, 1, 0));
    let accounts = swap_accounts(1_000_000, 2_000_000, 1);
    match decode_instruction(&tagged, &accounts, &PROGRAM_ID).unwrap() {
        PoolRequest::Swap(req) => {
            assert!(req.instruction_data.is_x);
            assert_eq!(req.instruction_data.amount, 100_000);
        }
        _ => panic!("swap tag must decode to a swap request"),
    }

    let mut tagged = vec![1u8];
    tagged.extend_from_slice(&deposit_payload(500, 100, 200, 0));
    let accounts = pool_accounts(1000, 2000, 5000, 1);
    match decode_instruction(&tagged, &accounts, &PROGRAM_ID).unwrap() {
        PoolRequest::Deposit(req) => assert_eq!(req.instruction_data.amount, 500),
        _ => panic!("deposit tag must decode to a deposit request"),
    }

    let mut tagged = vec![2u8];
    tagged.extend_from_slice(&withdraw_payload(500, 1, 1, 0));
    match decode_instruction(&tagged, &accounts, &PROGRAM_ID).unwrap() {
        PoolRequest::Withdraw(req) => assert_eq!(req.instruction_data.amount, 500),
        _ => panic!("withdraw tag must decode to a withdraw request"),
    }

    let mut tagged = vec![0u8];
    tagged.extend_from_slice(&initialize_payload(42, 30, None));
    let accounts = initialize_accounts();
    match decode_instruction(&tagged, &accounts, &PROGRAM_ID).unwrap() {
        PoolRequest::Initialize(req) => assert_eq!(req.instruction_data.seed, 42),
        _ => panic!("initialize tag must decode to an initialize request"),
    }
}

#[test]
fn test_decode_instruction_rejects_bad_tag() {
    let accounts = initialize_accounts();
    assert!(matches!(
        decode_instruction(&[], &accounts, &PROGRAM_ID),
        Err(AmmError::InvalidInstructionData)
    ));
    let mut tagged = vec![9u8];
    tagged.extend_from_slice(&initialize_payload(42, 30, None));
    assert!(matches!(
        decode_instruction(&tagged, &accounts, &PROGRAM_ID),
        Err(AmmError::InvalidInstructionData)
    ));
}

#[test]
fn test_config_codec_round_trip() {
    let mut record = Config::default();
    record
        .set_inner(7, [3u8; 32], MINT_X_ID, MINT_Y_ID, 123, [9])
        .unwrap();
    let bytes = record.to_bytes();
    assert_eq!(bytes.len(), 108);
    let loaded = Config::load(&bytes).unwrap();
    assert_eq!(loaded.state(), 1);
    assert_eq!(loaded.seed(), 7);
    assert_eq!(loaded.authority(), [3u8; 32]);
    assert_eq!(loaded.mint_x(), MINT_X_ID);
    assert_eq!(loaded.mint_y(), MINT_Y_ID);
    assert_eq!(loaded.fee(), 123);
    assert_eq!(loaded.config_bump(), [9]);
    assert_eq!(loaded.has_authority(), Some([3u8; 32]));
}

#[test]
fn test_config_load_rejects_wrong_length() {
    assert!(matches!(
        Config::load(&[0u8; 107]),
        Err(AmmError::InvalidAccountData)
    ));
    assert!(matches!(
        Config::load(&[0u8; 109]),
        Err(AmmError::InvalidAccountData)
    ));
}

#[test]
fn test_config_setter_validation() {
    let mut record = Config::default();
    assert!(matches!(record.set_fee(10_000), Err(AmmError::InvalidAccountData)));
    assert!(record.set_fee(9_999).is_ok());
    assert!(matches!(record.set_state(4), Err(AmmError::InvalidAccountData)));
    assert!(record.set_state(3).is_ok());
    assert_eq!(record.state(), 3);
    assert!(matches!(
        record.set_inner(1, [0u8; 32], MINT_X_ID, MINT_Y_ID, 10_000, [1]),
        Err(AmmError::InvalidAccountData)
    ));
}

#[test]
fn test_account_data_readers() {
    let vault = account(12, false, token_account_data(12_345));
    assert_eq!(get_token_account_amount(&vault).unwrap(), 12_345);
    let mint = account(11, false, mint_account_data(777));
    assert_eq!(get_mint_supply(&mint).unwrap(), 777);
    let short = account(12, false, vec![0u8; 40]);
    assert!(matches!(
        get_token_account_amount(&short),
        Err(AmmError::InvalidAccountData)
    ));
    assert!(matches!(
        get_mint_supply(&short),
        Err(AmmError::InvalidAccountData)
    ));
}
