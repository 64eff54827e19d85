//! CreatePool: build the record of a fresh, empty, active pool.
//!
//! The host supplies the ledger addresses it has already derived (the pool's
//! signing authority, the two asset mints, the two custody accounts and the
//! share mint); address derivation itself is the host's concern.

use vstd::prelude::*;
use crate::pool::Pool;
use crate::pool::PoolStatus;

verus! {

/// Creates the state record of a new pool for one asset pair.  The pool
/// starts active, with no outstanding shares and no accumulated fees;
/// `fee_percentage` (basis points) and `pool_id` are fixed for its life.
pub fn handler(
    authority: Vec<u8>,
    token_a_mint: Vec<u8>,
    token_b_mint: Vec<u8>,
    token_a_account: Vec<u8>,
    token_b_account: Vec<u8>,
    lp_mint: Vec<u8>,
    fee_percentage: u64,
    pool_id: Vec<u8>,
    now: i64,
) -> (p: Pool)
    requires
        authority@.len() == 32,
        token_a_mint@.len() == 32,
        token_b_mint@.len() == 32,
        token_a_account@.len() == 32,
        token_b_account@.len() == 32,
        lp_mint@.len() == 32,
        pool_id@.len() == 32,
    ensures
        p.wf(),
        p.authority == authority,
        p.token_a_mint == token_a_mint,
        p.token_b_mint == token_b_mint,
        p.token_a_account == token_a_account,
        p.token_b_account == token_b_account,
        p.lp_mint == lp_mint,
        p.fee_percentage == fee_percentage,
        p.total_liquidity == 0,
        p.pool_id == pool_id,
        p.status == PoolStatus::Active,
        p.last_updated_at == now,
        p.protocol_fee_a == 0,
        p.protocol_fee_b == 0,
{
    Pool {
        authority,
        token_a_mint,
        token_b_mint,
        token_a_account,
        token_b_account,
        lp_mint,
        fee_percentage,
        total_liquidity: 0,
        pool_id,
        status: PoolStatus::Active,
        last_updated_at: now,
        protocol_fee_a: 0,
        protocol_fee_b: 0,
    }
}

} // verus!
