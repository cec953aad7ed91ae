use crate::instructions::deposit::{lemma_deposit_conserves_shares, Deposit};
use crate::instructions::swap::{lemma_swap_conserves_shares, Swap};
use crate::instructions::withdraw::{lemma_withdraw_conserves_shares, Withdraw};
use crate::state::config::{Config, PoolState};
use crate::state::pubkey::Pubkey;
use vstd::prelude::*;

verus! {

/// One operation on a pool, with all that its caller supplies.
pub enum PoolOperation {
    Deposit { user: Pubkey, amount_x: u64, amount_y: u64, min_lp_out: u64 },
    Withdraw { lp_amount: u64, min_amount_x: u64, min_amount_y: u64 },
    Swap {
        mint_in: Pubkey,
        mint_out: Pubkey,
        vault_out_amount: u64,
        amount_in: u64,
        min_amount_out: u64,
    },
}

impl PoolOperation {
    /// The state in which the operation leaves a pool: a new one where it
    /// succeeds, the one it met where it fails.
    pub open spec fn apply(self, config: Config, pool_state: PoolState) -> PoolState {
        match self {
            PoolOperation::Deposit { user, amount_x, amount_y, min_lp_out } => {
                match (Deposit { user, config, pool_state }).outcome(amount_x, amount_y, min_lp_out) {
                    Ok((after, _)) => after,
                    Err(_) => pool_state,
                }
            },
            PoolOperation::Withdraw { lp_amount, min_amount_x, min_amount_y } => {
                match (Withdraw { config, pool_state }).outcome(
                    lp_amount,
                    min_amount_x,
                    min_amount_y,
                ) {
                    Ok((after, _, _)) => after,
                    Err(_) => pool_state,
                }
            },
            PoolOperation::Swap { mint_in, mint_out, vault_out_amount, amount_in, min_amount_out } => {
                match (Swap { config, pool_state, mint_in, mint_out, vault_out_amount }).outcome(
                    amount_in,
                    min_amount_out,
                ) {
                    Ok((after, _)) => after,
                    Err(_) => pool_state,
                }
            },
        }
    }

    /// The operation is a deposit of one token only into a pool without
    /// shares.
    pub open spec fn is_one_sided_first_deposit(self, pool_state: PoolState) -> bool {
        match self {
            PoolOperation::Deposit { amount_x, amount_y, .. } => pool_state.lp_supply == 0 && (
            amount_x == 0) != (amount_y == 0),
            _ => false,
        }
    }
}

/// The state of a pool after a run of operations, one after the other.
pub open spec fn pool_state_after(
    config: Config,
    pool_state: PoolState,
    operations: Seq<PoolOperation>,
) -> PoolState
    decreases operations.len(),
{
    if operations.len() == 0 {
        pool_state
    } else {
        operations.last().apply(
            config,
            pool_state_after(config, pool_state, operations.drop_last()),
        )
    }
}

/// No operation of the run is a deposit of one token only into a pool that,
/// when the operation comes, is without shares.
pub open spec fn without_one_sided_first_deposit(
    config: Config,
    pool_state: PoolState,
    operations: Seq<PoolOperation>,
) -> bool {
    forall|i: int|
        0 <= i < operations.len() ==> !(#[trigger] operations[i]).is_one_sided_first_deposit(
            pool_state_after(config, pool_state, operations.take(i)),
        )
}

/// One operation keeps a pool in which shares and reserves vanish together
/// in that state, unless it is a first deposit of one token only.
pub proof fn lemma_operation_conserves_shares(
    operation: PoolOperation,
    config: Config,
    pool_state: PoolState,
)
    requires
        pool_state.shares_conserved(),
        !operation.is_one_sided_first_deposit(pool_state),
    ensures
        operation.apply(config, pool_state).shares_conserved(),
{
    match operation {
        PoolOperation::Deposit { user, amount_x, amount_y, min_lp_out } => {
            let deposit = Deposit { user, config, pool_state };
            if deposit.outcome(amount_x, amount_y, min_lp_out) is Ok {
                lemma_deposit_conserves_shares(deposit, amount_x, amount_y, min_lp_out);
            }
        },
        PoolOperation::Withdraw { lp_amount, min_amount_x, min_amount_y } => {
            let withdraw = Withdraw { config, pool_state };
            if withdraw.outcome(lp_amount, min_amount_x, min_amount_y) is Ok {
                lemma_withdraw_conserves_shares(withdraw, lp_amount, min_amount_x, min_amount_y);
            }
        },
        PoolOperation::Swap { mint_in, mint_out, vault_out_amount, amount_in, min_amount_out } => {
            let swap = Swap { config, pool_state, mint_in, mint_out, vault_out_amount };
            if swap.outcome(amount_in, min_amount_out) is Ok {
                lemma_swap_conserves_shares(swap, amount_in, min_amount_out);
            }
        },
    }
}

/// Through every run of deposits, withdrawals and swaps, a pool has no
/// shares outstanding exactly when it holds nothing, provided it began so
/// and no deposit of the run put one token only into a pool without shares.
pub proof fn lemma_operations_conserve_shares(
    config: Config,
    pool_state: PoolState,
    operations: Seq<PoolOperation>,
)
    requires
        pool_state.shares_conserved(),
        without_one_sided_first_deposit(config, pool_state, operations),
    ensures
        pool_state_after(config, pool_state, operations).shares_conserved(),
    decreases operations.len(),
{
    if operations.len() > 0 {
        let earlier = operations.drop_last();
        assert forall|i: int| 0 <= i < earlier.len() implies !(#[trigger] earlier[i]).is_one_sided_first_deposit(
            pool_state_after(config, pool_state, earlier.take(i)),
        ) by {
            assert(earlier.take(i) =~= operations.take(i));
            assert(earlier[i] == operations[i]);
        }
        lemma_operations_conserve_shares(config, pool_state, earlier);
        assert(operations.take(operations.len() - 1) =~= earlier);
        assert(!operations[operations.len() - 1].is_one_sided_first_deposit(
            pool_state_after(config, pool_state, earlier),
        ));
        lemma_operation_conserves_shares(
            operations.last(),
            config,
            pool_state_after(config, pool_state, earlier),
        );
    }
}

} // verus!
