use crate::common::error::AMMError;
use crate::state::config::{
    Config,
    InitConfigParams,
    InitPoolStateParams,
    PoolState,
    MAX_POOL_FEE_BASIS_POINTS,
    MAX_WHITE_LIST_LP,
};
use crate::state::pubkey::Pubkey;
use crate::utils::token::{supported_token_mint, verify_supported_token_mint, MintInfo};
use vstd::prelude::*;

verus! {

/// The two token programs that a mint can belong to.
#[derive(Clone, Copy, Debug, PartialEq, Eq, Structural)]
pub enum TokenProgram {
    /// The legacy token program.
    Token,
    /// The token program with extensions.
    Token2022,
}

/// The bump seeds of the addresses that are derived for a new pool.
#[derive(Clone, Copy, Debug, PartialEq, Eq, Structural)]
pub struct InitializePoolBumps {
    pub pool_authority: u8,
    pub config: u8,
    pub lp_mint: u8,
}

/// What the creation of a pool works on: the two records to fill, the two
/// mints with the token program supplied for each, and the accounts that were
/// set up for the pool.
#[derive(Clone, Debug, PartialEq, Eq)]
pub struct InitializePool {
    pub authority: Pubkey,
    /// The address of the pool's configuration.
    pub config_key: Pubkey,
    pub config: Config,
    pub pool_state: PoolState,
    pub mint_x: MintInfo,
    pub mint_y: MintInfo,
    pub lp_mint: Pubkey,
    pub vault_x: Pubkey,
    pub vault_y: Pubkey,
    pub token_program_x: TokenProgram,
    pub token_program_y: TokenProgram,
    pub bumps: InitializePoolBumps,
}

/// The token program supplied for a mint is the one that the mint belongs to.
pub open spec fn program_matches(token_mint: MintInfo, token_program: TokenProgram) -> bool {
    token_mint.has_extensions <==> token_program == TokenProgram::Token2022
}

impl InitializePool {
    /// The configuration that a pool of these accounts gets.
    pub open spec fn new_config(
        self,
        seed: u64,
        fee: u16,
        white_list_lp: Option<[Pubkey; MAX_WHITE_LIST_LP]>,
    ) -> Config {
        Config {
            seed,
            authority: self.authority,
            mint_x: self.mint_x.key,
            mint_y: self.mint_y.key,
            fee,
            locked: false,
            white_list_lp,
            auth_bump: self.bumps.pool_authority,
            config_bump: self.bumps.config,
            lp_bump: self.bumps.lp_mint,
        }
    }

    /// The state that a pool of these accounts starts in: empty.
    pub open spec fn new_pool_state(self) -> PoolState {
        PoolState {
            config: self.config_key,
            vault_x: self.vault_x,
            vault_y: self.vault_y,
            lp_mint: self.lp_mint,
            reserve_x: 0,
            reserve_y: 0,
            lp_supply: 0,
        }
    }

    /// What the creation of a pool does: the two records of the new pool, or
    /// the first reason, in this order, why there is none.
    pub open spec fn outcome(
        self,
        seed: u64,
        fee: u16,
        white_list_lp: Option<[Pubkey; MAX_WHITE_LIST_LP]>,
    ) -> Result<(Config, PoolState), AMMError> {
        if fee > MAX_POOL_FEE_BASIS_POINTS {
            Err(AMMError::InvalidAmount)
        } else {
            match supported_token_mint(self.mint_x) {
                Err(e) => Err(e),
                Ok(mint_x_supported) => match supported_token_mint(self.mint_y) {
                    Err(e) => Err(e),
                    Ok(mint_y_supported) => if !(mint_x_supported && mint_y_supported) {
                        Err(AMMError::NotAllowedTokenExtension)
                    } else if self.mint_x.key == self.mint_y.key {
                        Err(AMMError::InvalidMint)
                    } else if !program_matches(self.mint_x, self.token_program_x) {
                        Err(AMMError::InvalidMint)
                    } else if !program_matches(self.mint_y, self.token_program_y) {
                        Err(AMMError::InvalidMint)
                    } else {
                        Ok((self.new_config(seed, fee, white_list_lp), self.new_pool_state()))
                    },
                },
            }
        }
    }
}

/// Creates a pool of two mints: checks the fee, the mints and their token
/// programs, then writes the configuration and an empty state.
///
/// On failure nothing changes.
pub fn handler(
    ctx: &mut InitializePool,
    seed: u64,
    fee: u16,
    white_list_lp: Option<[Pubkey; MAX_WHITE_LIST_LP]>,
) -> (r: Result<(), AMMError>)
    ensures
        match old(ctx).outcome(seed, fee, white_list_lp) {
            Ok((config, pool_state)) => {
                &&& r == Ok::<(), AMMError>(())
                &&& *final(ctx) == (InitializePool { config, pool_state, ..*old(ctx) })
                &&& config.wf()
                &&& pool_state.wf()
            },
            Err(e) => r == Err::<(), AMMError>(e) && *final(ctx) == *old(ctx),
        },
{
    // Validate fee is within reasonable bounds (max 10% = 1000 basis points)
    if fee > MAX_POOL_FEE_BASIS_POINTS {
        return Err(AMMError::InvalidAmount);
    }
    // Verify both tokens are supported

    let mint_x_supported = match verify_supported_token_mint(&ctx.mint_x) {
        Ok(supported) => supported,
        Err(e) => {
            return Err(e);
        },
    };
    let mint_y_supported = match verify_supported_token_mint(&ctx.mint_y) {
        Ok(supported) => supported,
        Err(e) => {
            return Err(e);
        },
    };
    if !(mint_x_supported && mint_y_supported) {
        return Err(AMMError::NotAllowedTokenExtension);
    }
    // Ensure mint_x and mint_y are different

    if ctx.mint_x.key == ctx.mint_y.key {
        return Err(AMMError::InvalidMint);
    }
    // Verify token programs match the mint owners

    if !ctx.mint_x.has_extensions {
        if ctx.token_program_x != TokenProgram::Token {
            return Err(AMMError::InvalidMint);
        }
    } else {
        if ctx.token_program_x != TokenProgram::Token2022 {
            return Err(AMMError::InvalidMint);
        }
    }
    if !ctx.mint_y.has_extensions {
        if ctx.token_program_y != TokenProgram::Token {
            return Err(AMMError::InvalidMint);
        }
    } else {
        if ctx.token_program_y != TokenProgram::Token2022 {
            return Err(AMMError::InvalidMint);
        }
    }
    let params_init_config = InitConfigParams {
        seed,
        authority: ctx.authority,
        mint_x: ctx.mint_x.key,
        mint_y: ctx.mint_y.key,
        fee,
        white_list_lp,
        auth_bump: ctx.bumps.pool_authority,
        config_bump: ctx.bumps.config,
        lp_bump: ctx.bumps.lp_mint,
    };
    ctx.config.init(params_init_config);

    let params_init_pool_state = InitPoolStateParams {
        config: ctx.config_key,
        lp_mint: ctx.lp_mint,
        vault_x: ctx.vault_x,
        vault_y: ctx.vault_y,
    };
    ctx.pool_state.init(params_init_pool_state);

    Ok(())
}

} // verus!
