use crate::common::error::AMMError;
use crate::state::config::{Config, PoolState};
use crate::state::pubkey::Pubkey;
use vstd::prelude::*;

verus! {

/// What a swap works on: the pool, the two mints that the caller named, and
/// what the vault of the output token holds at the moment.
#[derive(Clone, Copy, Debug, PartialEq, Eq)]
pub struct Swap {
    pub config: Config,
    pub pool_state: PoolState,
    pub mint_in: Pubkey,
    pub mint_out: Pubkey,
    pub vault_out_amount: u64,
}

/// The input of a swap once the pool's fee is taken off, in ten-thousandths
/// of a token unit.
pub open spec fn fee_adjusted_amount_in(amount_in: u64, fee: u16) -> int {
    amount_in * (10000 - fee)
}

/// The constant-product price: what `amount_in` buys from a pool that holds
/// `reserve_in` of the token paid and `reserve_out` of the token bought,
/// rounded down.
pub open spec fn swap_amount_out(amount_in: u64, fee: u16, reserve_in: u64, reserve_out: u64) -> int {
    let adjusted = fee_adjusted_amount_in(amount_in, fee);
    (adjusted * reserve_out) / (reserve_in * 10000 + adjusted)
}

impl Swap {
    /// The two mints named are the pool's two mints, one each.
    pub open spec fn mints_valid(self) -> bool {
        &&& self.mint_in != self.mint_out
        &&& (self.mint_in == self.config.mint_x && self.mint_out == self.config.mint_y) || (
        self.mint_in == self.config.mint_y && self.mint_out == self.config.mint_x)
    }

    /// The swap pays token X and buys token Y.
    pub open spec fn is_x_to_y(self) -> bool {
        self.mint_in == self.config.mint_x
    }

    /// The pool's reserve of the token paid.
    pub open spec fn reserve_in(self) -> u64 {
        if self.is_x_to_y() {
            self.pool_state.reserve_x
        } else {
            self.pool_state.reserve_y
        }
    }

    /// The pool's reserve of the token bought.
    pub open spec fn reserve_out(self) -> u64 {
        if self.is_x_to_y() {
            self.pool_state.reserve_y
        } else {
            self.pool_state.reserve_x
        }
    }

    /// The pool state after `amount_in` has come in and `amount_out` has
    /// gone out.
    pub open spec fn settled(self, amount_in: u64, amount_out: u64) -> PoolState {
        if self.is_x_to_y() {
            PoolState {
                reserve_x: (self.pool_state.reserve_x + amount_in) as u64,
                reserve_y: (self.pool_state.reserve_y - amount_out) as u64,
                ..self.pool_state
            }
        } else {
            PoolState {
                reserve_x: (self.pool_state.reserve_x - amount_out) as u64,
                reserve_y: (self.pool_state.reserve_y + amount_in) as u64,
                ..self.pool_state
            }
        }
    }

    /// What a swap of `amount_in` does: the new pool state and the amount
    /// paid out, or the first reason, in this order, why it fails.
    pub open spec fn outcome(self, amount_in: u64, min_amount_out: u64) -> Result<
        (PoolState, u64),
        AMMError,
    > {
        let reserve_in = self.reserve_in();
        let reserve_out = self.reserve_out();
        let amount_out = swap_amount_out(amount_in, self.config.fee, reserve_in, reserve_out);
        if self.config.locked {
            Err(AMMError::PoolLocked)
        } else if amount_in == 0 {
            Err(AMMError::InvalidAmount)
        } else if !self.mints_valid() {
            Err(AMMError::InvalidMint)
        } else if reserve_in == 0 || reserve_out == 0 {
            Err(AMMError::InsufficientLiquidity)
        } else if self.config.fee > 10000 {
            Err(AMMError::InvalidAmount)
        } else if fee_adjusted_amount_in(amount_in, self.config.fee) * reserve_out > u128::MAX {
            Err(AMMError::InvalidAmount)
        } else if amount_out < min_amount_out {
            Err(AMMError::SlippageExceeded)
        } else if amount_out == 0 {
            Err(AMMError::InsufficientOutputAmount)
        } else if amount_out >= reserve_out {
            Err(AMMError::InsufficientLiquidity)
        } else if self.vault_out_amount < amount_out {
            Err(AMMError::InsufficientLiquidity)
        } else if reserve_in + amount_in > u64::MAX {
            Err(AMMError::InvalidAmount)
        } else {
            Ok((self.settled(amount_in, amount_out as u64), amount_out as u64))
        }
    }
}

/// The price is always below the reserve it is paid from.
pub proof fn lemma_amount_out_below_reserve(amount_in: u64, fee: u16, reserve_in: u64, reserve_out: u64)
    requires
        fee <= 10000,
        reserve_in > 0,
        reserve_out > 0,
    ensures
        0 <= swap_amount_out(amount_in, fee, reserve_in, reserve_out) < reserve_out,
{
    let adjusted = fee_adjusted_amount_in(amount_in, fee);
    let numerator = adjusted * reserve_out;
    let denominator = reserve_in * 10000 + adjusted;
    assert(adjusted >= 0) by (nonlinear_arith)
        requires
            adjusted == amount_in * (10000 - fee),
            fee <= 10000,
    ;
    assert(0 <= numerator / denominator < reserve_out) by (nonlinear_arith)
        requires
            numerator == adjusted * reserve_out,
            denominator == reserve_in * 10000 + adjusted,
            adjusted >= 0,
            reserve_in > 0,
            reserve_out > 0,
    ;
}

/// A swap never lowers the product of the two reserves: what is paid in,
/// set against what the price formula pays out, leaves the product at least
/// where it was.
pub proof fn lemma_swap_product_grows(amount_in: u64, fee: u16, reserve_in: u64, reserve_out: u64)
    requires
        fee <= 10000,
        reserve_in > 0,
        reserve_out > 0,
    ensures
        (reserve_in + amount_in) * (reserve_out - swap_amount_out(
            amount_in,
            fee,
            reserve_in,
            reserve_out,
        )) >= reserve_in * reserve_out,
{
    let adjusted = fee_adjusted_amount_in(amount_in, fee);
    let numerator = adjusted * reserve_out;
    let denominator = reserve_in * 10000 + adjusted;
    let out = numerator / denominator;
    lemma_amount_out_below_reserve(amount_in, fee, reserve_in, reserve_out);
    assert(adjusted >= 0 && adjusted <= amount_in * 10000) by (nonlinear_arith)
        requires
            adjusted == amount_in * (10000 - fee),
            fee <= 10000,
    ;
    assert(out * denominator <= numerator) by (nonlinear_arith)
        requires
            out == numerator / denominator,
            denominator > 0,
    ;
    let held_back = amount_in * 10000 - adjusted;
    assert((reserve_in + amount_in) * (reserve_out - out) >= reserve_in * reserve_out)
        by (nonlinear_arith)
        requires
            out * denominator <= numerator,
            numerator == adjusted * reserve_out,
            denominator == reserve_in * 10000 + adjusted,
            held_back == amount_in * 10000 - adjusted,
            held_back >= 0,
            0 <= out < reserve_out,
            adjusted >= 0,
    ;
}

/// A swap that succeeds never lowers the product of the pool's two reserves.
pub proof fn lemma_swap_never_lowers_product(swap: Swap, amount_in: u64, min_amount_out: u64)
    requires
        swap.outcome(amount_in, min_amount_out) is Ok,
    ensures
        ({
            let pool_state = swap.outcome(amount_in, min_amount_out)->Ok_0.0;
            pool_state.reserve_x * pool_state.reserve_y >= swap.pool_state.reserve_x
                * swap.pool_state.reserve_y
        }),
{
    let pool_state = swap.outcome(amount_in, min_amount_out)->Ok_0.0;
    lemma_swap_product_grows(amount_in, swap.config.fee, swap.reserve_in(), swap.reserve_out());
    assert(pool_state.reserve_x * pool_state.reserve_y == pool_state.reserve_y
        * pool_state.reserve_x) by (nonlinear_arith);
    assert(swap.pool_state.reserve_x * swap.pool_state.reserve_y == swap.pool_state.reserve_y
        * swap.pool_state.reserve_x) by (nonlinear_arith);
}

/// A swap that succeeds leaves the share supply alone and some of both
/// tokens in the pool: it keeps a pool in which shares and reserves vanish
/// together in that state, and a well-formed pool well formed.
pub proof fn lemma_swap_conserves_shares(swap: Swap, amount_in: u64, min_amount_out: u64)
    requires
        swap.outcome(amount_in, min_amount_out) is Ok,
    ensures
        ({
            let pool_state = swap.outcome(amount_in, min_amount_out)->Ok_0.0;
            &&& pool_state.lp_supply == swap.pool_state.lp_supply
            &&& pool_state.reserve_x > 0 && pool_state.reserve_y > 0
            &&& swap.pool_state.shares_conserved() ==> pool_state.shares_conserved()
            &&& swap.pool_state.wf() ==> pool_state.wf()
        }),
{
}

/// No swap can be made against a pool that has none of one of its tokens.
pub proof fn lemma_swap_needs_both_reserves(swap: Swap, amount_in: u64, min_amount_out: u64)
    requires
        !swap.config.locked,
        amount_in > 0,
        swap.mints_valid(),
        swap.pool_state.reserve_x == 0 || swap.pool_state.reserve_y == 0,
    ensures
        swap.outcome(amount_in, min_amount_out) == Err::<(PoolState, u64), AMMError>(
            AMMError::InsufficientLiquidity,
        ),
{
}

/// Swaps `amount_in` of one of the pool's tokens for the other at the
/// constant-product price, the pool's fee taken off the input first.
///
/// On success the pool's reserves are moved and the amount to pay out is
/// returned; the caller then moves the tokens. On failure nothing changes.
pub fn handler(ctx: &mut Swap, amount_in: u64, min_amount_out: u64) -> (r: Result<u64, AMMError>)
    ensures
        match old(ctx).outcome(amount_in, min_amount_out) {
            Ok((pool_state, amount_out)) => {
                &&& r == Ok::<u64, AMMError>(amount_out)
                &&& *final(ctx) == (Swap { pool_state, ..*old(ctx) })
            },
            Err(e) => r == Err::<u64, AMMError>(e) && *final(ctx) == *old(ctx),
        },
        r is Ok ==> final(ctx).pool_state.reserve_x * final(ctx).pool_state.reserve_y >= old(
            ctx,
        ).pool_state.reserve_x * old(ctx).pool_state.reserve_y,
        r is Ok && old(ctx).pool_state.shares_conserved()
            ==> final(ctx).pool_state.shares_conserved(),
        r is Ok && old(ctx).pool_state.wf() ==> final(ctx).pool_state.wf(),
{
    if ctx.config.locked {
        return Err(AMMError::PoolLocked);
    }
    if amount_in == 0 {
        return Err(AMMError::InvalidAmount);
    }
    if !(ctx.mint_in == ctx.config.mint_x || ctx.mint_in == ctx.config.mint_y) {
        return Err(AMMError::InvalidMint);
    }
    if !(ctx.mint_out == ctx.config.mint_x || ctx.mint_out == ctx.config.mint_y) {
        return Err(AMMError::InvalidMint);
    }
    if ctx.mint_in == ctx.mint_out {
        return Err(AMMError::InvalidMint);
    }
    let is_x_to_y = ctx.mint_in == ctx.config.mint_x;
    let (reserve_in, reserve_out) = if is_x_to_y {
        (ctx.pool_state.reserve_x, ctx.pool_state.reserve_y)
    } else {
        (ctx.pool_state.reserve_y, ctx.pool_state.reserve_x)
    };
    if reserve_in == 0 || reserve_out == 0 {
        return Err(AMMError::InsufficientLiquidity);
    }
    let fee = ctx.config.fee;
    if fee > 10000 {
        return Err(AMMError::InvalidAmount);
    }
    let fee_kept: u128 = (10000 - fee) as u128;
    assert(amount_in * fee_kept <= u64::MAX * 10000) by (nonlinear_arith)
        requires
            fee_kept <= 10000,
    ;
    let fee_adjusted_amount_in: u128 = (amount_in as u128) * fee_kept;
    let numerator = match fee_adjusted_amount_in.checked_mul(reserve_out as u128) {
        Some(n) => n,
        None => {
            return Err(AMMError::InvalidAmount);
        },
    };
    let denominator: u128 = (reserve_in as u128) * 10000 + fee_adjusted_amount_in;
    if denominator == 0 {
        return Err(AMMError::InvalidAmount);
    }
    let amount_out_wide: u128 = numerator / denominator;
    proof {
        lemma_amount_out_below_reserve(amount_in, fee, reserve_in, reserve_out);
    }
    let amount_out: u64 = amount_out_wide as u64;
    if amount_out < min_amount_out {
        return Err(AMMError::SlippageExceeded);
    }
    if amount_out == 0 {
        return Err(AMMError::InsufficientOutputAmount);
    }
    if amount_out >= reserve_out {
        return Err(AMMError::InsufficientLiquidity);
    }
    if ctx.vault_out_amount < amount_out {
        return Err(AMMError::InsufficientLiquidity);
    }
    let new_reserve_in = match reserve_in.checked_add(amount_in) {
        Some(n) => n,
        None => {
            return Err(AMMError::InvalidAmount);
        },
    };
    let new_reserve_out: u64 = reserve_out - amount_out;
    if is_x_to_y {
        ctx.pool_state.reserve_x = new_reserve_in;
        ctx.pool_state.reserve_y = new_reserve_out;
    } else {
        ctx.pool_state.reserve_y = new_reserve_in;
        ctx.pool_state.reserve_x = new_reserve_out;
    }
    proof {
        lemma_swap_never_lowers_product(*old(ctx), amount_in, min_amount_out);
    }
    Ok(amount_out)
}

} // verus!
