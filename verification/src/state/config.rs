use crate::state::pubkey::Pubkey;
use vstd::prelude::*;

verus! {

/// The number of entries of a depositor whitelist. A pool either has no
/// whitelist or one of exactly this many entries.
pub const MAX_WHITE_LIST_LP: usize = 10;

/// The highest fee a pool may charge, in basis points: ten percent.
pub const MAX_POOL_FEE_BASIS_POINTS: u16 = 1000;

/// The parameters of a pool. They are written once, when the pool is
/// created; only `locked` changes afterwards.
#[derive(Clone, Copy, Debug, PartialEq, Eq)]
pub struct Config {
    /// Tells pools of the same two mints apart.
    pub seed: u64,
    /// Who may lock and unlock the pool.
    pub authority: Pubkey,
    pub mint_x: Pubkey,
    pub mint_y: Pubkey,
    /// The fee on swaps, in basis points.
    pub fee: u16,
    /// While set, no deposit, withdrawal or swap is made.
    pub locked: bool,
    /// Who may deposit, where deposits are restricted.
    pub white_list_lp: Option<[Pubkey; MAX_WHITE_LIST_LP]>,
    /// The bump seeds of the pool's derived addresses. The accounting
    /// carries them and does not read them.
    pub auth_bump: u8,
    pub config_bump: u8,
    pub lp_bump: u8,
}

/// What the configuration of a new pool is written from.
pub struct InitConfigParams {
    pub seed: u64,
    pub authority: Pubkey,
    pub mint_x: Pubkey,
    pub mint_y: Pubkey,
    pub fee: u16,
    pub white_list_lp: Option<[Pubkey; MAX_WHITE_LIST_LP]>,
    pub auth_bump: u8,
    pub config_bump: u8,
    pub lp_bump: u8,
}

impl InitConfigParams {
    /// The configuration that these parameters describe: an unlocked pool.
    pub open spec fn config(self) -> Config {
        Config {
            seed: self.seed,
            authority: self.authority,
            mint_x: self.mint_x,
            mint_y: self.mint_y,
            fee: self.fee,
            locked: false,
            white_list_lp: self.white_list_lp,
            auth_bump: self.auth_bump,
            config_bump: self.config_bump,
            lp_bump: self.lp_bump,
        }
    }
}

impl Config {
    /// A configuration is well formed when its two mints differ and its fee
    /// is at most ten percent.
    pub open spec fn wf(self) -> bool {
        &&& self.mint_x != self.mint_y
        &&& self.fee <= MAX_POOL_FEE_BASIS_POINTS
    }

    /// Whether `user` may deposit: always without a whitelist, else only
    /// when the whitelist holds `user`.
    pub open spec fn admits(self, user: Pubkey) -> bool {
        match self.white_list_lp {
            None => true,
            Some(list) => list@.contains(user),
        }
    }

    /// Writes the configuration of a new pool: every field as given, and the
    /// pool unlocked.
    pub fn init(&mut self, params: InitConfigParams)
        ensures
            *final(self) == params.config(),
    {
        let InitConfigParams {
            seed,
            authority,
            mint_x,
            mint_y,
            fee,
            white_list_lp,
            auth_bump,
            config_bump,
            lp_bump,
        } = params;

        self.seed = seed;
        self.authority = authority;
        self.mint_x = mint_x;
        self.mint_y = mint_y;
        self.fee = fee;
        self.locked = false;
        self.white_list_lp = white_list_lp;
        self.auth_bump = auth_bump;
        self.config_bump = config_bump;
        self.lp_bump = lp_bump;
    }

    /// Tells whether `user` may deposit into the pool.
    pub fn is_whitelisted(&self, user: &Pubkey) -> (r: bool)
        ensures
            r == self.admits(*user),
    {
        match &self.white_list_lp {
            None => true,
            Some(list) => {
                let mut i: usize = 0;
                while i < MAX_WHITE_LIST_LP
                    invariant
                        0 <= i <= MAX_WHITE_LIST_LP,
                        self.white_list_lp == Some(*list),
                        forall|j: int| 0 <= j < i ==> list@[j] != *user,
                    decreases MAX_WHITE_LIST_LP - i,
                {
                    if list[i] == *user {
                        return true;
                    }
                    i += 1;
                }
                false
            },
        }
    }
}

/// The accounting record of a pool: what it holds of each token and how
/// many liquidity shares are outstanding.
#[derive(Clone, Copy, Debug, PartialEq, Eq)]
pub struct PoolState {
    /// The pool's configuration, its two vaults and the mint of its shares:
    /// set when the pool is created and never changed.
    pub config: Pubkey,
    pub vault_x: Pubkey,
    pub vault_y: Pubkey,
    pub lp_mint: Pubkey,
    pub reserve_x: u64,
    pub reserve_y: u64,
    pub lp_supply: u64,
}

/// What the state of a new pool is written from.
pub struct InitPoolStateParams {
    pub config: Pubkey,
    pub vault_x: Pubkey,
    pub vault_y: Pubkey,
    pub lp_mint: Pubkey,
}

impl InitPoolStateParams {
    /// The state that these parameters describe: an empty pool.
    pub open spec fn pool_state(self) -> PoolState {
        PoolState {
            config: self.config,
            vault_x: self.vault_x,
            vault_y: self.vault_y,
            lp_mint: self.lp_mint,
            reserve_x: 0,
            reserve_y: 0,
            lp_supply: 0,
        }
    }
}

impl PoolState {
    /// No shares are outstanding exactly when the pool holds nothing.
    pub open spec fn shares_conserved(self) -> bool {
        self.lp_supply == 0 <==> (self.reserve_x == 0 && self.reserve_y == 0)
    }

    /// A pool state is well formed when it is either empty, with no shares
    /// outstanding, or holds some of both tokens against some shares.
    pub open spec fn wf(self) -> bool {
        &&& self.shares_conserved()
        &&& self.lp_supply > 0 ==> self.reserve_x > 0 && self.reserve_y > 0
    }

    /// The state with other balances and the same account references.
    pub open spec fn with_balances(self, reserve_x: u64, reserve_y: u64, lp_supply: u64) -> PoolState {
        PoolState { reserve_x, reserve_y, lp_supply, ..self }
    }

    /// Writes the state of a new pool: the accounts as given, and nothing in
    /// the pool.
    pub fn init(&mut self, params: InitPoolStateParams)
        ensures
            *final(self) == params.pool_state(),
            final(self).wf(),
    {
        let InitPoolStateParams { config, lp_mint, vault_x, vault_y } = params;

        self.config = config;
        self.lp_mint = lp_mint;
        self.vault_x = vault_x;
        self.vault_y = vault_y;
        self.reserve_x = 0;
        self.reserve_y = 0;
        self.lp_supply = 0;
    }
}

} // verus!
