use token2022_amm::common::error::AMMError;
use token2022_amm::initialize_pool;
use token2022_amm::instructions::init_pool::{InitializePool, InitializePoolBumps, TokenProgram};
use token2022_amm::state::config::{
    Config, InitConfigParams, InitPoolStateParams, PoolState, MAX_WHITE_LIST_LP,
};
use token2022_amm::state::pubkey::Pubkey;
use token2022_amm::utils::token::MintInfo;

fn key(n: u8) -> Pubkey {
    Pubkey::new_from_array([n; 32])
}

/// The data of an initialized mint account with the given extension data.
fn mint_account(tlv_data: &[u8]) -> Vec<u8> {
    let mut data = vec![0u8; 82];
    data[0] = 1; // a mint authority is set
    data[4..36].copy_from_slice(&[9; 32]);
    data[36..44].copy_from_slice(&1_000_000u64.to_le_bytes());
    data[44] = 6; // decimals
    data[45] = 1; // initialized
    if !tlv_data.is_empty() {
        data.resize(165, 0);
        data.push(1); // the account is a mint
        data.extend_from_slice(tlv_data);
    }
    data
}

fn legacy_mint(n: u8) -> MintInfo {
    MintInfo { key: key(n), has_extensions: false, freeze_authority: None, data: mint_account(&[]) }
}

fn extended_mint(n: u8, tlv_data: Vec<u8>) -> MintInfo {
    MintInfo { key: key(n), has_extensions: true, freeze_authority: None, data: mint_account(&tlv_data) }
}

fn stale_config() -> Config {
    Config {
        seed: 99,
        authority: key(90),
        mint_x: key(91),
        mint_y: key(92),
        fee: 9,
        locked: true,
        white_list_lp: Some([key(93); MAX_WHITE_LIST_LP]),
        auth_bump: 1,
        config_bump: 2,
        lp_bump: 3,
    }
}

fn stale_pool_state() -> PoolState {
    PoolState {
        config: key(94),
        vault_x: key(95),
        vault_y: key(96),
        lp_mint: key(97),
        reserve_x: 11,
        reserve_y: 12,
        lp_supply: 13,
    }
}

fn accounts(mint_x: MintInfo, mint_y: MintInfo) -> InitializePool {
    let token_program_x =
        if mint_x.has_extensions { TokenProgram::Token2022 } else { TokenProgram::Token };
    let token_program_y =
        if mint_y.has_extensions { TokenProgram::Token2022 } else { TokenProgram::Token };
    InitializePool {
        authority: key(1),
        config_key: key(4),
        config: stale_config(),
        pool_state: stale_pool_state(),
        mint_x,
        mint_y,
        lp_mint: key(7),
        vault_x: key(5),
        vault_y: key(6),
        token_program_x,
        token_program_y,
        bumps: InitializePoolBumps { pool_authority: 255, config: 254, lp_mint: 253 },
    }
}

fn transfer_fee_entry() -> Vec<u8> {
    let mut data = vec![1, 0, 108, 0];
    data.extend_from_slice(&[0; 108]);
    data
}

fn transfer_hook_entry() -> Vec<u8> {
    let mut data = vec![14, 0, 64, 0];
    data.extend_from_slice(&[0; 64]);
    data
}

#[test]
fn creates_unlocked_config_and_empty_state() {
    let mut ctx = accounts(legacy_mint(2), extended_mint(3, transfer_fee_entry()));
    let before = ctx.clone();
    assert_eq!(initialize_pool(&mut ctx, 7, 30, None), Ok(()));
    assert_eq!(
        ctx.config,
        Config {
            seed: 7,
            authority: key(1),
            mint_x: key(2),
            mint_y: key(3),
            fee: 30,
            locked: false,
            white_list_lp: None,
            auth_bump: 255,
            config_bump: 254,
            lp_bump: 253,
        }
    );
    assert_eq!(
        ctx.pool_state,
        PoolState {
            config: key(4),
            vault_x: key(5),
            vault_y: key(6),
            lp_mint: key(7),
            reserve_x: 0,
            reserve_y: 0,
            lp_supply: 0,
        }
    );
    let mut expected = before;
    expected.config = ctx.config;
    expected.pool_state = ctx.pool_state;
    assert_eq!(ctx, expected);
}

#[test]
fn keeps_the_whitelist() {
    let mut list = [key(50); MAX_WHITE_LIST_LP];
    list[3] = key(51);
    let mut ctx = accounts(legacy_mint(2), legacy_mint(3));
    assert_eq!(initialize_pool(&mut ctx, 7, 0, Some(list)), Ok(()));
    assert_eq!(ctx.config.white_list_lp, Some(list));
    assert_eq!(ctx.config.fee, 0);
}

#[test]
fn accepts_highest_fee_and_rejects_above() {
    let mut ctx = accounts(legacy_mint(2), legacy_mint(3));
    assert_eq!(initialize_pool(&mut ctx, 7, 1000, None), Ok(()));
    assert_eq!(ctx.config.fee, 1000);

    let mut ctx = accounts(legacy_mint(2), legacy_mint(3));
    let before = ctx.clone();
    assert_eq!(initialize_pool(&mut ctx, 7, 1001, None), Err(AMMError::InvalidAmount));
    assert_eq!(ctx, before);
    assert_eq!(initialize_pool(&mut ctx, 7, u16::MAX, None), Err(AMMError::InvalidAmount));
}

#[test]
fn fee_is_checked_before_the_mints() {
    let mut ctx = accounts(legacy_mint(2), extended_mint(2, transfer_hook_entry()));
    assert_eq!(initialize_pool(&mut ctx, 7, 1001, None), Err(AMMError::InvalidAmount));
}

#[test]
fn rejects_mint_with_transfer_hook() {
    let mut ctx = accounts(legacy_mint(2), extended_mint(3, transfer_hook_entry()));
    let before = ctx.clone();
    assert_eq!(initialize_pool(&mut ctx, 7, 30, None), Err(AMMError::NotAllowedTokenExtension));
    assert_eq!(ctx, before);
    let mut ctx = accounts(extended_mint(2, transfer_hook_entry()), legacy_mint(3));
    assert_eq!(initialize_pool(&mut ctx, 7, 30, None), Err(AMMError::NotAllowedTokenExtension));
}

#[test]
fn rejects_mint_that_is_not_supported() {
    let mut frozen = extended_mint(3, transfer_fee_entry());
    frozen.freeze_authority = Some(key(8));
    let mut ctx = accounts(legacy_mint(2), frozen.clone());
    assert_eq!(initialize_pool(&mut ctx, 7, 30, None), Err(AMMError::NotAllowedTokenExtension));
    let mut ctx = accounts(frozen, legacy_mint(2));
    assert_eq!(initialize_pool(&mut ctx, 7, 30, None), Err(AMMError::NotAllowedTokenExtension));
}

#[test]
fn malformed_second_mint_counts_before_unsupported_first() {
    let mut frozen = extended_mint(2, Vec::new());
    frozen.freeze_authority = Some(key(8));
    let mut ctx = accounts(frozen, extended_mint(3, vec![1, 0, 9]));
    let before = ctx.clone();
    assert_eq!(initialize_pool(&mut ctx, 7, 30, None), Err(AMMError::MalformedExtensionData));
    assert_eq!(ctx, before);
}

#[test]
fn rejects_equal_mints() {
    let mut ctx = accounts(legacy_mint(2), legacy_mint(2));
    let before = ctx.clone();
    assert_eq!(initialize_pool(&mut ctx, 7, 30, None), Err(AMMError::InvalidMint));
    assert_eq!(ctx, before);
}

#[test]
fn rejects_token_program_of_the_other_kind() {
    let mut ctx = accounts(legacy_mint(2), extended_mint(3, transfer_fee_entry()));
    ctx.token_program_x = TokenProgram::Token2022;
    assert_eq!(initialize_pool(&mut ctx, 7, 30, None), Err(AMMError::InvalidMint));
    ctx.token_program_x = TokenProgram::Token;
    ctx.token_program_y = TokenProgram::Token;
    let before = ctx.clone();
    assert_eq!(initialize_pool(&mut ctx, 7, 30, None), Err(AMMError::InvalidMint));
    assert_eq!(ctx, before);
    ctx.token_program_y = TokenProgram::Token2022;
    assert_eq!(initialize_pool(&mut ctx, 7, 30, None), Ok(()));
}

#[test]
fn config_init_writes_every_field() {
    let mut config = stale_config();
    config.init(InitConfigParams {
        seed: 7,
        authority: key(1),
        mint_x: key(2),
        mint_y: key(3),
        fee: 30,
        white_list_lp: None,
        auth_bump: 255,
        config_bump: 254,
        lp_bump: 253,
    });
    assert_eq!(
        config,
        Config {
            seed: 7,
            authority: key(1),
            mint_x: key(2),
            mint_y: key(3),
            fee: 30,
            locked: false,
            white_list_lp: None,
            auth_bump: 255,
            config_bump: 254,
            lp_bump: 253,
        }
    );
}

#[test]
fn pool_state_init_empties_the_pool() {
    let mut pool_state = stale_pool_state();
    pool_state.init(InitPoolStateParams { config: key(4), vault_x: key(5), vault_y: key(6), lp_mint: key(7) });
    assert_eq!(
        pool_state,
        PoolState {
            config: key(4),
            vault_x: key(5),
            vault_y: key(6),
            lp_mint: key(7),
            reserve_x: 0,
            reserve_y: 0,
            lp_supply: 0,
        }
    );
}

#[test]
fn keys_are_equal_by_bytes() {
    let mut bytes = [3u8; 32];
    assert_eq!(Pubkey::new_from_array(bytes), key(3));
    assert_eq!(key(3).to_bytes(), bytes);
    bytes[31] = 4;
    assert_ne!(Pubkey::new_from_array(bytes), key(3));
    bytes[31] = 3;
    bytes[0] = 4;
    assert_ne!(Pubkey::new_from_array(bytes), key(3));
}

#[test]
fn every_error_has_its_message() {
    assert_eq!(AMMError::PoolLocked.message(), "Pool is locked");
    assert_eq!(AMMError::InvalidMint.message(), "Invalid mint");
    assert_eq!(AMMError::ArithmeticOverflow.message(), "Arithmetic overflow");
    let all = [
        AMMError::NotAllowedTokenExtension,
        AMMError::TransferFeeCalculationError,
        AMMError::PoolLocked,
        AMMError::NotWhitelisted,
        AMMError::SlippageExceeded,
        AMMError::InvalidAmount,
        AMMError::InsufficientLiquidity,
        AMMError::InvalidMint,
        AMMError::InsufficientOutputAmount,
        AMMError::MalformedExtensionData,
        AMMError::ArithmeticOverflow,
    ];
    for (i, a) in all.iter().enumerate() {
        assert!(!a.message().is_empty());
        for b in &all[i + 1..] {
            assert_ne!(a.message(), b.message());
        }
    }
}
