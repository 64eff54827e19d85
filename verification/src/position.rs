//! A user's recorded liquidity position in one pool.

use vstd::prelude::*;

verus! {

/// One provider's holding of share units in one pool, as the host chooses to
/// record it beside the externally-ledgered share balance.
pub struct Position {
    /// 32-byte address of the position's owner.
    pub owner: Vec<u8>,
    /// 32-byte address of the pool the position belongs to.
    pub pool: Vec<u8>,
    /// Share units held.
    pub liquidity: u64,
    /// When fees were last claimed for this position.
    pub last_claimed_at: i64,
}

} // verus!
