//! RemoveLiquidity: quote a withdrawal against the pool's current reserves
//! and share supply, and on success update the pool's share accounting.
//!
//! A successful call returns the exact token movements the host must perform
//! — pay the two computed amounts out of the pool's reserve accounts to the
//! caller under the pool's authority, and burn the caller's share units
//! (caller-authorized) — as one atomic unit of work with the state update
//! applied here: on any error nothing is changed and nothing may move.

use vstd::prelude::*;
use crate::errors::ErrorCode;
use crate::math;
use crate::pool::Pool;
use crate::pool::PoolStatus;

verus! {

/// The movements a successful RemoveLiquidity instructs the asset ledger to
/// perform, and the share accounting delta already applied to the pool.
#[derive(Clone, Copy, Debug, PartialEq, Eq, Structural)]
pub struct LiquidityRemoved {
    /// Asset A to pay from the pool's reserve account to the caller.
    pub amount_a_out: u64,
    /// Asset B to pay from the pool's reserve account to the caller.
    pub amount_b_out: u64,
    /// Share units to burn from the caller's holding.
    pub liquidity_burned: u64,
}

/// The whole operation's outcome on given inputs: an inactive pool is
/// refused first, then the withdrawal is quoted, and last the pool's running
/// share total must cover the burned amount.
pub open spec fn spec_remove_liquidity(
    p: Pool,
    ra: int,
    rb: int,
    s: int,
    burn: int,
    balance: int,
    min_a: int,
    min_b: int,
) -> Result<(int, int), ErrorCode> {
    if p.status != PoolStatus::Active {
        Err(ErrorCode::PoolPaused)
    } else {
        match math::spec_quote_withdrawal(ra, rb, s, burn, balance, min_a, min_b) {
            Err(e) => Err(e),
            Ok((a_out, b_out)) => if p.total_liquidity - burn < 0 {
                Err(ErrorCode::Underflow)
            } else {
                Ok((a_out, b_out))
            },
        }
    }
}

/// Removes liquidity from `pool`, burning `liquidity_amount` share units out
/// of the caller's holding of `user_lp_balance`.  `reserve_a`, `reserve_b`
/// and `lp_supply` are the balances the external asset ledger reports; `now`
/// is the host's clock reading.
///
/// On success the pool's share total has shrunk by exactly the burned amount
/// (strictly, since a zero burn is refused) and the update timestamp is set;
/// on any error the pool is exactly as it was.
pub fn handler(
    pool: &mut Pool,
    reserve_a: u64,
    reserve_b: u64,
    lp_supply: u64,
    user_lp_balance: u64,
    liquidity_amount: u64,
    amount_a_min: u64,
    amount_b_min: u64,
    now: i64,
) -> (r: Result<LiquidityRemoved, ErrorCode>)
    ensures
        match r {
            Ok(removed) => {
                &&& spec_remove_liquidity(
                    *old(pool),
                    reserve_a as int,
                    reserve_b as int,
                    lp_supply as int,
                    liquidity_amount as int,
                    user_lp_balance as int,
                    amount_a_min as int,
                    amount_b_min as int,
                ) == Ok::<_, ErrorCode>((
                    removed.amount_a_out as int,
                    removed.amount_b_out as int,
                ))
                &&& removed.liquidity_burned == liquidity_amount
                &&& final(pool).total_liquidity == old(pool).total_liquidity
                    - liquidity_amount
                &&& final(pool).total_liquidity < old(pool).total_liquidity
                &&& final(pool).last_updated_at == now
                &&& old(pool).same_configuration(*final(pool))
            },
            Err(e) => {
                &&& spec_remove_liquidity(
                    *old(pool),
                    reserve_a as int,
                    reserve_b as int,
                    lp_supply as int,
                    liquidity_amount as int,
                    user_lp_balance as int,
                    amount_a_min as int,
                    amount_b_min as int,
                ) == Err::<(int, int), _>(e)
                &&& *final(pool) == *old(pool)
            },
        },
        old(pool).wf() ==> final(pool).wf(),
{
    if pool.status != PoolStatus::Active {
        return Err(ErrorCode::PoolPaused);
    }
    let quote = match math::quote_withdrawal(
        reserve_a,
        reserve_b,
        lp_supply,
        liquidity_amount,
        user_lp_balance,
        amount_a_min,
        amount_b_min,
    ) {
        Ok(q) => q,
        Err(e) => {
            return Err(e);
        },
    };
    let new_total = match pool.total_liquidity.checked_sub(liquidity_amount) {
        Some(t) => t,
        None => {
            return Err(ErrorCode::Underflow);
        },
    };
    pool.total_liquidity = new_total;
    pool.last_updated_at = now;
    Ok(LiquidityRemoved {
        amount_a_out: quote.amount_a_out,
        amount_b_out: quote.amount_b_out,
        liquidity_burned: liquidity_amount,
    })
}

/// Slippage floor for the whole operation: against an active pool, whenever
/// both minimums are strictly above the true proportional payouts,
/// RemoveLiquidity fails with `SlippageExceeded` — and, by [`handler`]'s
/// error contract, mutates no state.
pub proof fn lemma_remove_liquidity_slippage_floor(
    p: Pool,
    ra: int,
    rb: int,
    s: int,
    burn: int,
    balance: int,
    min_a: int,
    min_b: int,
)
    requires
        p.status == PoolStatus::Active,
        0 < burn <= balance,
        0 < s,
        burn * ra <= u64::MAX,
        burn * rb <= u64::MAX,
        min_a > burn * ra / s,
        min_b > burn * rb / s,
    ensures
        spec_remove_liquidity(p, ra, rb, s, burn, balance, min_a, min_b) == Err::<(int, int), _>(
            ErrorCode::SlippageExceeded,
        ),
{
    math::lemma_withdrawal_slippage_floor(ra, rb, s, burn, balance, min_a, min_b);
}

} // verus!
