use crate::common::error::AMMError;
use crate::instructions::deposit::Deposit;
use crate::state::config::{Config, PoolState};
use vstd::prelude::*;

verus! {

/// What a withdrawal works on: the pool.
#[derive(Clone, Copy, Debug, PartialEq, Eq)]
pub struct Withdraw {
    pub config: Config,
    pub pool_state: PoolState,
}

/// What `lp_amount` shares redeem of a reserve: their proportion of it,
/// rounded down.
pub open spec fn redeemed(lp_amount: u64, reserve: u64, lp_supply: u64) -> int {
    (lp_amount * reserve) / (lp_supply as int)
}

impl Withdraw {
    /// What a withdrawal does: the new pool state and the amounts of the two
    /// tokens paid out, or the first reason, in this order, why it fails.
    pub open spec fn outcome(self, lp_amount: u64, min_amount_x: u64, min_amount_y: u64) -> Result<
        (PoolState, u64, u64),
        AMMError,
    > {
        let pool_state = self.pool_state;
        let amount_x = redeemed(lp_amount, pool_state.reserve_x, pool_state.lp_supply);
        let amount_y = redeemed(lp_amount, pool_state.reserve_y, pool_state.lp_supply);
        if self.config.locked {
            Err(AMMError::PoolLocked)
        } else if lp_amount == 0 {
            Err(AMMError::InvalidAmount)
        } else if pool_state.lp_supply == 0 {
            Err(AMMError::InsufficientLiquidity)
        } else if amount_x < min_amount_x || amount_y < min_amount_y {
            Err(AMMError::SlippageExceeded)
        } else if amount_x > pool_state.reserve_x || amount_y > pool_state.reserve_y || lp_amount
            > pool_state.lp_supply {
            Err(AMMError::ArithmeticOverflow)
        } else {
            Ok(
                (
                    pool_state.with_balances(
                        (pool_state.reserve_x - amount_x) as u64,
                        (pool_state.reserve_y - amount_y) as u64,
                        (pool_state.lp_supply - lp_amount) as u64,
                    ),
                    amount_x as u64,
                    amount_y as u64,
                ),
            )
        }
    }
}

/// Shares redeem no more than the whole reserve, all of them redeem all of
/// it, and fewer than all leave some of a reserve that held any.
pub proof fn lemma_redeemed_within_reserve(lp_amount: u64, reserve: u64, lp_supply: u64)
    requires
        0 < lp_amount <= lp_supply,
    ensures
        0 <= redeemed(lp_amount, reserve, lp_supply) <= reserve,
        lp_amount == lp_supply ==> redeemed(lp_amount, reserve, lp_supply) == reserve,
        lp_amount < lp_supply && reserve > 0 ==> redeemed(lp_amount, reserve, lp_supply) < reserve,
{
    let product = lp_amount * reserve;
    let quotient = product / (lp_supply as int);
    assert(0 <= quotient <= reserve) by (nonlinear_arith)
        requires
            quotient == product / (lp_supply as int),
            product == lp_amount * reserve,
            0 < lp_amount <= lp_supply,
            reserve >= 0,
    ;
    if lp_amount == lp_supply {
        assert(quotient == reserve) by (nonlinear_arith)
            requires
                quotient == product / (lp_supply as int),
                product == lp_supply * reserve,
                lp_supply > 0,
        ;
    }
    if lp_amount < lp_supply && reserve > 0 {
        assert(quotient < reserve) by (nonlinear_arith)
            requires
                quotient == product / (lp_supply as int),
                product == lp_amount * reserve,
                0 < lp_amount < lp_supply,
                reserve > 0,
        ;
    }
}

/// A withdrawal that succeeds keeps a pool in which shares and reserves
/// vanish together in that state, and a well-formed pool well formed.
pub proof fn lemma_withdraw_conserves_shares(
    withdraw: Withdraw,
    lp_amount: u64,
    min_amount_x: u64,
    min_amount_y: u64,
)
    requires
        withdraw.outcome(lp_amount, min_amount_x, min_amount_y) is Ok,
    ensures
        withdraw.pool_state.shares_conserved() ==> withdraw.outcome(
            lp_amount,
            min_amount_x,
            min_amount_y,
        )->Ok_0.0.shares_conserved(),
        withdraw.pool_state.wf() ==> withdraw.outcome(
            lp_amount,
            min_amount_x,
            min_amount_y,
        )->Ok_0.0.wf(),
{
    let pool_state = withdraw.pool_state;
    lemma_redeemed_within_reserve(lp_amount, pool_state.reserve_x, pool_state.lp_supply);
    lemma_redeemed_within_reserve(lp_amount, pool_state.reserve_y, pool_state.lp_supply);
}

/// A withdrawal never lowers what a remaining share is worth in either
/// token: what is paid out is rounded down, so the pool pays no more than
/// the shares' proportion of it.
pub proof fn lemma_withdraw_does_not_dilute(
    withdraw: Withdraw,
    lp_amount: u64,
    min_amount_x: u64,
    min_amount_y: u64,
)
    requires
        withdraw.outcome(lp_amount, min_amount_x, min_amount_y) is Ok,
    ensures
        ({
            let before = withdraw.pool_state;
            let after = withdraw.outcome(lp_amount, min_amount_x, min_amount_y)->Ok_0.0;
            &&& after.reserve_x * before.lp_supply >= before.reserve_x * after.lp_supply
            &&& after.reserve_y * before.lp_supply >= before.reserve_y * after.lp_supply
        }),
{
    let before = withdraw.pool_state;
    lemma_rest_keeps_proportion(lp_amount, before.reserve_x, before.lp_supply);
    lemma_rest_keeps_proportion(lp_amount, before.reserve_y, before.lp_supply);
}

/// What is left of a reserve after shares were redeemed is at least the
/// remaining shares' proportion of it.
proof fn lemma_rest_keeps_proportion(lp_amount: u64, reserve: u64, lp_supply: u64)
    requires
        0 < lp_amount <= lp_supply,
    ensures
        (reserve - redeemed(lp_amount, reserve, lp_supply)) * lp_supply >= reserve * (lp_supply
            - lp_amount),
{
    let paid = (lp_amount * reserve) / (lp_supply as int);
    assert((reserve - paid) * lp_supply >= reserve * (lp_supply - lp_amount)) by (nonlinear_arith)
        requires
            paid == (lp_amount * reserve) / (lp_supply as int),
            0 < lp_amount <= lp_supply,
            reserve >= 0,
    ;
}

/// Burns `lp_amount` shares and pays out their proportion of both reserves.
///
/// On success the pool's reserves and share supply are lowered and the two
/// amounts to pay out are returned; the caller then burns the shares and
/// moves the tokens. On failure nothing changes.
pub fn handler(ctx: &mut Withdraw, lp_amount: u64, min_amount_x: u64, min_amount_y: u64) -> (r:
    Result<(u64, u64), AMMError>)
    ensures
        match old(ctx).outcome(lp_amount, min_amount_x, min_amount_y) {
            Ok((pool_state, amount_x, amount_y)) => {
                &&& r == Ok::<(u64, u64), AMMError>((amount_x, amount_y))
                &&& *final(ctx) == (Withdraw { pool_state, ..*old(ctx) })
            },
            Err(e) => r == Err::<(u64, u64), AMMError>(e) && *final(ctx) == *old(ctx),
        },
        r is Ok && old(ctx).pool_state.shares_conserved()
            ==> final(ctx).pool_state.shares_conserved(),
        r is Ok && old(ctx).pool_state.wf() ==> final(ctx).pool_state.wf(),
{
    if ctx.config.locked {
        return Err(AMMError::PoolLocked);
    }
    if lp_amount == 0 {
        return Err(AMMError::InvalidAmount);
    }
    let reserve_x = ctx.pool_state.reserve_x;
    let reserve_y = ctx.pool_state.reserve_y;
    let lp_supply = ctx.pool_state.lp_supply;
    if lp_supply == 0 {
        return Err(AMMError::InsufficientLiquidity);
    }
    // Calculate proportional withdrawal amounts

    assert(lp_amount * reserve_x <= u64::MAX * u64::MAX) by (nonlinear_arith);
    assert(lp_amount * reserve_y <= u64::MAX * u64::MAX) by (nonlinear_arith);
    let amount_x_wide: u128 = (lp_amount as u128) * (reserve_x as u128) / (lp_supply as u128);
    let amount_y_wide: u128 = (lp_amount as u128) * (reserve_y as u128) / (lp_supply as u128);

    // Check slippage
    if amount_x_wide < min_amount_x as u128 || amount_y_wide < min_amount_y as u128 {
        return Err(AMMError::SlippageExceeded);
    }
    if amount_x_wide > reserve_x as u128 || amount_y_wide > reserve_y as u128 {
        return Err(AMMError::ArithmeticOverflow);
    }
    let amount_x: u64 = amount_x_wide as u64;
    let amount_y: u64 = amount_y_wide as u64;
    let new_lp_supply = match lp_supply.checked_sub(lp_amount) {
        Some(n) => n,
        None => {
            return Err(AMMError::ArithmeticOverflow);
        },
    };
    ctx.pool_state.reserve_x = reserve_x - amount_x;
    ctx.pool_state.reserve_y = reserve_y - amount_y;
    ctx.pool_state.lp_supply = new_lp_supply;

    proof {
        lemma_withdraw_conserves_shares(*old(ctx), lp_amount, min_amount_x, min_amount_y);
    }
    Ok((amount_x, amount_y))
}

/// Who deposits into a pool in which shares and reserves vanish together,
/// and at once redeems all the shares that the deposit earned, gets back no
/// more of either token than was deposited: rounding never favours the one
/// who withdraws.
pub proof fn lemma_deposit_then_withdraw_returns_no_more(
    deposit: Deposit,
    amount_x: u64,
    amount_y: u64,
    min_lp_out: u64,
    min_amount_x: u64,
    min_amount_y: u64,
)
    requires
        deposit.pool_state.shares_conserved(),
        deposit.outcome(amount_x, amount_y, min_lp_out) is Ok,
        (Withdraw {
            config: deposit.config,
            pool_state: deposit.outcome(amount_x, amount_y, min_lp_out)->Ok_0.0,
        }).outcome(
            deposit.outcome(amount_x, amount_y, min_lp_out)->Ok_0.1,
            min_amount_x,
            min_amount_y,
        ) is Ok,
    ensures
        ({
            let (pool_state, lp_tokens) = deposit.outcome(amount_x, amount_y, min_lp_out)->Ok_0;
            let withdraw = Withdraw { config: deposit.config, pool_state };
            let (_, withdrawn_x, withdrawn_y) = withdraw.outcome(
                lp_tokens,
                min_amount_x,
                min_amount_y,
            )->Ok_0;
            withdrawn_x <= amount_x && withdrawn_y <= amount_y
        }),
{
    let before = deposit.pool_state;
    let (after, lp_tokens) = deposit.outcome(amount_x, amount_y, min_lp_out)->Ok_0;
    if before.lp_supply == 0 {
        lemma_redeemed_within_reserve(lp_tokens, after.reserve_x, after.lp_supply);
        lemma_redeemed_within_reserve(lp_tokens, after.reserve_y, after.lp_supply);
    } else {
        lemma_share_of_raised_reserve(
            amount_x,
            before.reserve_x,
            before.lp_supply,
            lp_tokens,
        );
        lemma_share_of_raised_reserve(
            amount_y,
            before.reserve_y,
            before.lp_supply,
            lp_tokens,
        );
    }
}

/// Shares that were minted for no more than an amount's proportion of a
/// reserve redeem, of the reserve raised by that amount, no more than the
/// amount.
proof fn lemma_share_of_raised_reserve(amount: u64, reserve: u64, lp_supply: u64, lp_tokens: u64)
    requires
        reserve > 0,
        lp_supply > 0,
        lp_tokens <= (amount * lp_supply) / (reserve as int),
    ensures
        (lp_tokens * (reserve + amount)) / (lp_supply + lp_tokens) <= amount,
{
    let earned = (amount * lp_supply) / (reserve as int);
    assert(lp_tokens * reserve <= amount * lp_supply) by (nonlinear_arith)
        requires
            earned == (amount * lp_supply) / (reserve as int),
            0 <= lp_tokens <= earned,
            reserve > 0,
            amount * lp_supply >= 0,
    ;
    let redeemed = (lp_tokens * (reserve + amount)) / (lp_supply + lp_tokens);
    assert(redeemed <= amount) by (nonlinear_arith)
        requires
            redeemed == (lp_tokens * (reserve + amount)) / (lp_supply + lp_tokens),
            lp_tokens * reserve <= amount * lp_supply,
            lp_supply > 0,
            lp_tokens >= 0,
            amount >= 0,
            reserve > 0,
    ;
}

} // verus!
