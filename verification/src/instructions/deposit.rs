use crate::common::error::AMMError;
use crate::state::config::{Config, PoolState};
use crate::state::pubkey::Pubkey;
use crate::utils::math::{floor_sqrt, integer_sqrt, is_floor_sqrt, lemma_floor_sqrt_positive};
use vstd::prelude::*;

verus! {

/// What a deposit works on: the pool and the depositor.
#[derive(Clone, Copy, Debug, PartialEq, Eq)]
pub struct Deposit {
    pub user: Pubkey,
    pub config: Config,
    pub pool_state: PoolState,
}

/// The shares that a deposit of `amount_x` and `amount_y` earns.
///
/// Into an empty pool it is the geometric mean of the two amounts, rounded
/// down. Into a pool that has shares outstanding it is the smaller of the two
/// amounts' proportions of the pool, in shares, each rounded down.
pub open spec fn lp_tokens_for(pool_state: PoolState, amount_x: u64, amount_y: u64) -> int {
    if pool_state.lp_supply == 0 {
        floor_sqrt((amount_x * amount_y) as nat) as int
    } else {
        let lp_from_x = (amount_x * pool_state.lp_supply) / (pool_state.reserve_x as int);
        let lp_from_y = (amount_y * pool_state.lp_supply) / (pool_state.reserve_y as int);
        if lp_from_x <= lp_from_y {
            lp_from_x
        } else {
            lp_from_y
        }
    }
}

impl Deposit {
    /// What a deposit does: the new pool state and the shares minted, or the
    /// first reason, in this order, why it fails.
    pub open spec fn outcome(self, amount_x: u64, amount_y: u64, min_lp_out: u64) -> Result<
        (PoolState, u64),
        AMMError,
    > {
        let pool_state = self.pool_state;
        let lp_tokens = lp_tokens_for(pool_state, amount_x, amount_y);
        if self.config.locked {
            Err(AMMError::PoolLocked)
        } else if !self.config.admits(self.user) {
            Err(AMMError::NotWhitelisted)
        } else if pool_state.lp_supply > 0 && (pool_state.reserve_x == 0 || pool_state.reserve_y
            == 0) {
            Err(AMMError::ArithmeticOverflow)
        } else if lp_tokens < min_lp_out {
            Err(AMMError::SlippageExceeded)
        } else if pool_state.reserve_x + amount_x > u64::MAX || pool_state.reserve_y + amount_y
            > u64::MAX || pool_state.lp_supply + lp_tokens > u64::MAX {
            Err(AMMError::ArithmeticOverflow)
        } else {
            Ok(
                (
                    pool_state.with_balances(
                        (pool_state.reserve_x + amount_x) as u64,
                        (pool_state.reserve_y + amount_y) as u64,
                        (pool_state.lp_supply + lp_tokens) as u64,
                    ),
                    lp_tokens as u64,
                ),
            )
        }
    }

    /// The one kind of deposit that leaves a pool with reserves and no
    /// shares: the first one, of one token only.
    pub open spec fn one_sided_first_deposit(self, amount_x: u64, amount_y: u64) -> bool {
        self.pool_state.lp_supply == 0 && (amount_x == 0) != (amount_y == 0)
    }
}

/// A deposit that succeeds keeps a pool in which shares and reserves vanish
/// together in that state, and a well-formed pool well formed, unless it is
/// the first deposit and of one token only.
pub proof fn lemma_deposit_conserves_shares(
    deposit: Deposit,
    amount_x: u64,
    amount_y: u64,
    min_lp_out: u64,
)
    requires
        deposit.outcome(amount_x, amount_y, min_lp_out) is Ok,
        !deposit.one_sided_first_deposit(amount_x, amount_y),
    ensures
        deposit.pool_state.shares_conserved() ==> deposit.outcome(
            amount_x,
            amount_y,
            min_lp_out,
        )->Ok_0.0.shares_conserved(),
        deposit.pool_state.wf() ==> deposit.outcome(amount_x, amount_y, min_lp_out)->Ok_0.0.wf(),
{
    if deposit.pool_state.lp_supply == 0 {
        lemma_floor_sqrt_positive((amount_x * amount_y) as nat);
        assert(amount_x * amount_y > 0 <==> (amount_x > 0 && amount_y > 0)) by (nonlinear_arith);
    }
}

/// A deposit into a pool with shares outstanding never lowers what a share
/// is worth in either token: the shares minted are at most each amount's
/// proportion of the pool, so those who held shares before are not diluted.
pub proof fn lemma_deposit_does_not_dilute(
    deposit: Deposit,
    amount_x: u64,
    amount_y: u64,
    min_lp_out: u64,
)
    requires
        deposit.pool_state.lp_supply > 0,
        deposit.outcome(amount_x, amount_y, min_lp_out) is Ok,
    ensures
        ({
            let before = deposit.pool_state;
            let after = deposit.outcome(amount_x, amount_y, min_lp_out)->Ok_0.0;
            &&& after.reserve_x * before.lp_supply >= before.reserve_x * after.lp_supply
            &&& after.reserve_y * before.lp_supply >= before.reserve_y * after.lp_supply
        }),
{
    let before = deposit.pool_state;
    let lp_tokens = lp_tokens_for(before, amount_x, amount_y);
    lemma_shares_below_proportion(amount_x, before.reserve_x, before.lp_supply, lp_tokens);
    lemma_shares_below_proportion(amount_y, before.reserve_y, before.lp_supply, lp_tokens);
}

/// Shares that are at most an amount's proportion of a reserve, in shares,
/// leave the reserve raised by the amount worth at least as much per share.
proof fn lemma_shares_below_proportion(amount: u64, reserve: u64, lp_supply: u64, lp_tokens: int)
    requires
        reserve > 0,
        lp_supply > 0,
        0 <= lp_tokens <= (amount * lp_supply) / (reserve as int),
    ensures
        (reserve + amount) * lp_supply >= reserve * (lp_supply + lp_tokens),
{
    let earned = (amount * lp_supply) / (reserve as int);
    assert((reserve + amount) * lp_supply >= reserve * (lp_supply + lp_tokens)) by (nonlinear_arith)
        requires
            earned == (amount * lp_supply) / (reserve as int),
            0 <= lp_tokens <= earned,
            reserve > 0,
            lp_supply > 0,
            amount >= 0,
    ;
}

/// Takes `amount_x` and `amount_y` into the pool and mints shares for them.
///
/// On success the pool's reserves and share supply are raised and the number
/// of shares to mint is returned; the caller then moves the tokens and mints
/// the shares. On failure nothing changes.
pub fn handler(ctx: &mut Deposit, amount_x: u64, amount_y: u64, min_lp_out: u64) -> (r: Result<
    u64,
    AMMError,
>)
    ensures
        match old(ctx).outcome(amount_x, amount_y, min_lp_out) {
            Ok((pool_state, lp_tokens)) => {
                &&& r == Ok::<u64, AMMError>(lp_tokens)
                &&& *final(ctx) == (Deposit { pool_state, ..*old(ctx) })
            },
            Err(e) => r == Err::<u64, AMMError>(e) && *final(ctx) == *old(ctx),
        },
        r is Ok && old(ctx).pool_state.shares_conserved() && !old(ctx).one_sided_first_deposit(
            amount_x,
            amount_y,
        ) ==> final(ctx).pool_state.shares_conserved(),
        r is Ok && old(ctx).pool_state.wf() && !old(ctx).one_sided_first_deposit(amount_x, amount_y)
            ==> final(ctx).pool_state.wf(),
{
    if ctx.config.locked {
        return Err(AMMError::PoolLocked);
    }
    if !ctx.config.is_whitelisted(&ctx.user) {
        return Err(AMMError::NotWhitelisted);
    }
    let reserve_x = ctx.pool_state.reserve_x;
    let reserve_y = ctx.pool_state.reserve_y;
    let lp_supply = ctx.pool_state.lp_supply;

    let lp_tokens_wide: u128 = if lp_supply == 0 {
        // Initial deposit - use geometric mean
        assert(amount_x * amount_y <= u64::MAX * u64::MAX) by (nonlinear_arith);
        let product: u128 = (amount_x as u128) * (amount_y as u128);
        let initial_lp = integer_sqrt(product);
        assert(initial_lp <= u64::MAX) by (nonlinear_arith)
            requires
                is_floor_sqrt(product as int, initial_lp as int),
                product <= u64::MAX * u64::MAX,
        ;
        initial_lp
    } else {
        // Proportional deposit
        if reserve_x == 0 || reserve_y == 0 {
            return Err(AMMError::ArithmeticOverflow);
        }
        assert(amount_x * lp_supply <= u64::MAX * u64::MAX) by (nonlinear_arith);
        assert(amount_y * lp_supply <= u64::MAX * u64::MAX) by (nonlinear_arith);
        let lp_from_x: u128 = (amount_x as u128) * (lp_supply as u128) / (reserve_x as u128);
        let lp_from_y: u128 = (amount_y as u128) * (lp_supply as u128) / (reserve_y as u128);
        if lp_from_x <= lp_from_y {
            lp_from_x
        } else {
            lp_from_y
        }
    };
    if lp_tokens_wide < min_lp_out as u128 {
        return Err(AMMError::SlippageExceeded);
    }
    if lp_tokens_wide > u64::MAX as u128 {
        return Err(AMMError::ArithmeticOverflow);
    }
    let lp_tokens_to_mint: u64 = lp_tokens_wide as u64;

    let new_reserve_x = match reserve_x.checked_add(amount_x) {
        Some(n) => n,
        None => {
            return Err(AMMError::ArithmeticOverflow);
        },
    };
    let new_reserve_y = match reserve_y.checked_add(amount_y) {
        Some(n) => n,
        None => {
            return Err(AMMError::ArithmeticOverflow);
        },
    };
    let new_lp_supply = match lp_supply.checked_add(lp_tokens_to_mint) {
        Some(n) => n,
        None => {
            return Err(AMMError::ArithmeticOverflow);
        },
    };
    ctx.pool_state.reserve_x = new_reserve_x;
    ctx.pool_state.reserve_y = new_reserve_y;
    ctx.pool_state.lp_supply = new_lp_supply;

    proof {
        if !old(ctx).one_sided_first_deposit(amount_x, amount_y) {
            lemma_deposit_conserves_shares(*old(ctx), amount_x, amount_y, min_lp_out);
        }
    }
    Ok(lp_tokens_to_mint)
}

} // verus!
