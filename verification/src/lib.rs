//! The accounting of a liquidity pool of two tokens.
//!
//! A pool holds reserves of two token mints and has liquidity shares
//! outstanding against them. This crate decides what each operation on a
//! pool does: which mints may form a pool, how many shares a deposit earns,
//! what a withdrawal redeems, and what a swap pays at the constant-product
//! price with the pool's fee. It also converts between an amount sent and
//! the amount that arrives where a mint takes a fee on transfers.
//!
//! The crate moves no tokens. Every operation takes what it needs to know as
//! plain values, changes the pool's records, and returns the amounts that the
//! caller then has to move.

pub mod common;
pub mod instructions;
pub mod state;
pub mod utils;

use crate::common::error::AMMError;
use crate::instructions::deposit::Deposit;
use crate::instructions::init_pool::InitializePool;
use crate::instructions::swap::Swap;
use crate::instructions::withdraw::Withdraw;
use crate::state::config::MAX_WHITE_LIST_LP;
use crate::state::pubkey::Pubkey;
use vstd::prelude::*;

verus! {

/// Creates a pool: see [`instructions::init_pool::handler`].
pub fn initialize_pool(
    ctx: &mut InitializePool,
    seed: u64,
    fee: u16,
    white_list_lp: Option<[Pubkey; MAX_WHITE_LIST_LP]>,
) -> (r: Result<(), AMMError>)
    ensures
        match old(ctx).outcome(seed, fee, white_list_lp) {
            Ok((config, pool_state)) => {
                &&& r == Ok::<(), AMMError>(())
                &&& *final(ctx) == (InitializePool { config, pool_state, ..*old(ctx) })
                &&& config.wf()
                &&& pool_state.wf()
            },
            Err(e) => r == Err::<(), AMMError>(e) && *final(ctx) == *old(ctx),
        },
{
    instructions::init_pool::handler(ctx, seed, fee, white_list_lp)
}

/// Deposits both tokens for shares: see [`instructions::deposit::handler`].
pub fn deposit(ctx: &mut Deposit, amount_x: u64, amount_y: u64, min_lp_out: u64) -> (r: Result<
    u64,
    AMMError,
>)
    ensures
        match old(ctx).outcome(amount_x, amount_y, min_lp_out) {
            Ok((pool_state, lp_tokens)) => {
                &&& r == Ok::<u64, AMMError>(lp_tokens)
                &&& *final(ctx) == (Deposit { pool_state, ..*old(ctx) })
            },
            Err(e) => r == Err::<u64, AMMError>(e) && *final(ctx) == *old(ctx),
        },
        r is Ok && old(ctx).pool_state.shares_conserved() && !old(ctx).one_sided_first_deposit(
            amount_x,
            amount_y,
        ) ==> final(ctx).pool_state.shares_conserved(),
        r is Ok && old(ctx).pool_state.wf() && !old(ctx).one_sided_first_deposit(amount_x, amount_y)
            ==> final(ctx).pool_state.wf(),
{
    instructions::deposit::handler(ctx, amount_x, amount_y, min_lp_out)
}

/// Redeems shares for both tokens: see [`instructions::withdraw::handler`].
pub fn withdraw(ctx: &mut Withdraw, lp_amount: u64, min_amount_x: u64, min_amount_y: u64) -> (r:
    Result<(u64, u64), AMMError>)
    ensures
        match old(ctx).outcome(lp_amount, min_amount_x, min_amount_y) {
            Ok((pool_state, amount_x, amount_y)) => {
                &&& r == Ok::<(u64, u64), AMMError>((amount_x, amount_y))
                &&& *final(ctx) == (Withdraw { pool_state, ..*old(ctx) })
            },
            Err(e) => r == Err::<(u64, u64), AMMError>(e) && *final(ctx) == *old(ctx),
        },
        r is Ok && old(ctx).pool_state.shares_conserved()
            ==> final(ctx).pool_state.shares_conserved(),
        r is Ok && old(ctx).pool_state.wf() ==> final(ctx).pool_state.wf(),
{
    instructions::withdraw::handler(ctx, lp_amount, min_amount_x, min_amount_y)
}

/// Swaps one token for the other: see [`instructions::swap::handler`].
pub fn swap(ctx: &mut Swap, amount_in: u64, min_amount_out: u64) -> (r: Result<u64, AMMError>)
    ensures
        match old(ctx).outcome(amount_in, min_amount_out) {
            Ok((pool_state, amount_out)) => {
                &&& r == Ok::<u64, AMMError>(amount_out)
                &&& *final(ctx) == (Swap { pool_state, ..*old(ctx) })
            },
            Err(e) => r == Err::<u64, AMMError>(e) && *final(ctx) == *old(ctx),
        },
        r is Ok ==> final(ctx).pool_state.reserve_x * final(ctx).pool_state.reserve_y >= old(
            ctx,
        ).pool_state.reserve_x * old(ctx).pool_state.reserve_y,
        r is Ok && old(ctx).pool_state.shares_conserved()
            ==> final(ctx).pool_state.shares_conserved(),
        r is Ok && old(ctx).pool_state.wf() ==> final(ctx).pool_state.wf(),
{
    instructions::swap::handler(ctx, amount_in, min_amount_out)
}

} // verus!
