//! AddLiquidity: quote a deposit against the pool's current reserves and
//! share supply, and on success update the pool's share accounting.
//!
//! The function decides; the external asset ledger acts.  A successful call
//! returns the exact token movements the host must perform — move the two
//! accepted amounts into the pool's reserve accounts and mint the share
//! units to the caller — and those movements plus this state update form one
//! atomic unit of work: on any error nothing is changed here and nothing may
//! be transferred.

use vstd::prelude::*;
use crate::errors::ErrorCode;
use crate::math;
use crate::pool::Pool;
use crate::pool::PoolStatus;

verus! {

/// The movements a successful AddLiquidity instructs the asset ledger to
/// perform, and the share accounting delta already applied to the pool.
#[derive(Clone, Copy, Debug, PartialEq, Eq, Structural)]
pub struct LiquidityAdded {
    /// Asset A to move from the caller into the pool's reserve account.
    pub amount_a_deposited: u64,
    /// Asset B to move from the caller into the pool's reserve account.
    pub amount_b_deposited: u64,
    /// Share units to mint to the caller under the pool's authority.
    pub liquidity_minted: u64,
}

/// The whole operation's outcome on given inputs: an inactive pool is
/// refused first, then the deposit is quoted, and last the pool's running
/// share total must still fit the machine word.
pub open spec fn spec_add_liquidity(
    p: Pool,
    ra: int,
    rb: int,
    s: int,
    da: int,
    db: int,
    min_a: int,
    min_b: int,
) -> Result<(int, int, int), ErrorCode> {
    if p.status != PoolStatus::Active {
        Err(ErrorCode::PoolPaused)
    } else {
        match math::spec_quote_deposit(ra, rb, s, da, db, min_a, min_b) {
            Err(e) => Err(e),
            Ok((a_opt, b_opt, m)) => if p.total_liquidity + m > u64::MAX {
                Err(ErrorCode::Overflow)
            } else {
                Ok((a_opt, b_opt, m))
            },
        }
    }
}

/// Adds liquidity to `pool`.  `reserve_a`, `reserve_b` and `lp_supply` are
/// the pool's reserve balances and outstanding share supply as reported by
/// the external asset ledger; `now` is the host's clock reading.
///
/// On success the pool's share total has grown by exactly the minted amount
/// (strictly, since a zero mint is refused) and the update timestamp is set;
/// on any error the pool is exactly as it was.
pub fn handler(
    pool: &mut Pool,
    reserve_a: u64,
    reserve_b: u64,
    lp_supply: u64,
    amount_a_desired: u64,
    amount_b_desired: u64,
    amount_a_min: u64,
    amount_b_min: u64,
    now: i64,
) -> (r: Result<LiquidityAdded, ErrorCode>)
    ensures
        match r {
            Ok(added) => {
                &&& spec_add_liquidity(
                    *old(pool),
                    reserve_a as int,
                    reserve_b as int,
                    lp_supply as int,
                    amount_a_desired as int,
                    amount_b_desired as int,
                    amount_a_min as int,
                    amount_b_min as int,
                ) == Ok::<_, ErrorCode>((
                    added.amount_a_deposited as int,
                    added.amount_b_deposited as int,
                    added.liquidity_minted as int,
                ))
                &&& final(pool).total_liquidity == old(pool).total_liquidity
                    + added.liquidity_minted
                &&& final(pool).total_liquidity > old(pool).total_liquidity
                &&& final(pool).last_updated_at == now
                &&& old(pool).same_configuration(*final(pool))
            },
            Err(e) => {
                &&& spec_add_liquidity(
                    *old(pool),
                    reserve_a as int,
                    reserve_b as int,
                    lp_supply as int,
                    amount_a_desired as int,
                    amount_b_desired as int,
                    amount_a_min as int,
                    amount_b_min as int,
                ) == Err::<(int, int, int), _>(e)
                &&& *final(pool) == *old(pool)
            },
        },
        old(pool).wf() ==> final(pool).wf(),
{
    if pool.status != PoolStatus::Active {
        return Err(ErrorCode::PoolPaused);
    }
    let quote = match math::quote_deposit(
        reserve_a,
        reserve_b,
        lp_supply,
        amount_a_desired,
        amount_b_desired,
        amount_a_min,
        amount_b_min,
    ) {
        Ok(q) => q,
        Err(e) => {
            return Err(e);
        },
    };
    let new_total = match pool.total_liquidity.checked_add(quote.liquidity_minted) {
        Some(t) => t,
        None => {
            return Err(ErrorCode::Overflow);
        },
    };
    pool.total_liquidity = new_total;
    pool.last_updated_at = now;
    Ok(LiquidityAdded {
        amount_a_deposited: quote.amount_a_optimal,
        amount_b_deposited: quote.amount_b_optimal,
        liquidity_minted: quote.liquidity_minted,
    })
}

/// Slippage floor for the whole operation: against an active pool, whenever
/// both minimums are strictly above the true optimal pair, AddLiquidity
/// fails with `SlippageExceeded` — and, by [`handler`]'s error contract,
/// mutates no state.
pub proof fn lemma_add_liquidity_slippage_floor(
    p: Pool,
    ra: int,
    rb: int,
    s: int,
    da: int,
    db: int,
    min_a: int,
    min_b: int,
    a_opt: int,
    b_opt: int,
)
    requires
        p.status == PoolStatus::Active,
        math::spec_optimal_pair(ra, rb, s, da, db) == Ok::<_, ErrorCode>((a_opt, b_opt)),
        min_a > a_opt,
        min_b > b_opt,
    ensures
        spec_add_liquidity(p, ra, rb, s, da, db, min_a, min_b) == Err::<(int, int, int), _>(
            ErrorCode::SlippageExceeded,
        ),
{
    math::lemma_deposit_slippage_floor(ra, rb, s, da, db, min_a, min_b, a_opt, b_opt);
}

} // verus!
