//! The authoritative record of one trading pair: its assets, reserves
//! custody, share mint, fee configuration and accounting totals.

use vstd::prelude::*;

verus! {

/// Lifecycle status of a pool.  Only an `Active` pool accepts mutating
/// liquidity operations.
#[derive(Clone, Copy, Debug, PartialEq, Eq, Structural)]
pub enum PoolStatus {
    Active,
    Paused,
    Deprecated,
}

impl Default for PoolStatus {
    /// A freshly created pool starts out active.
    fn default() -> (s: PoolStatus)
        ensures
            s == PoolStatus::Active,
    {
        PoolStatus::Active
    }
}

/// One pool per unordered asset pair.  The identifier fields are 32-byte
/// ledger addresses, immutable after creation; only `total_liquidity`,
/// `last_updated_at` and the protocol-fee accumulators change over a pool's
/// life, and only through this library's operations.
///
/// `total_liquidity` mirrors the external share ledger's reported supply; it
/// is cross-checked against that ledger, not locally authoritative.
#[derive(Clone, Debug)]
pub struct Pool {
    /// Derived signing authority; the capability under which the pool itself
    /// moves reserve funds and mints or burns share units.
    pub authority: Vec<u8>,
    /// Mint address of asset A.
    pub token_a_mint: Vec<u8>,
    /// Mint address of asset B.
    pub token_b_mint: Vec<u8>,
    /// Pool-custodied reserve account for asset A.
    pub token_a_account: Vec<u8>,
    /// Pool-custodied reserve account for asset B.
    pub token_b_account: Vec<u8>,
    /// Mint address of the pool-share unit.
    pub lp_mint: Vec<u8>,
    /// Fee rate in basis points, fixed at creation.
    pub fee_percentage: u64,
    /// Running total of outstanding pool-share units.
    pub total_liquidity: u64,
    /// 32-byte identifier correlating this pool with its remote counterpart.
    pub pool_id: Vec<u8>,
    /// Gates all mutating operations.
    pub status: PoolStatus,
    /// Timestamp of the last successful mutation.
    pub last_updated_at: i64,
    /// Accumulated protocol fees retained in asset A.
    pub protocol_fee_a: u64,
    /// Accumulated protocol fees retained in asset B.
    pub protocol_fee_b: u64,
}

impl Pool {
    /// Well-formedness: every identifier field is a 32-byte address.
    /// Constructors establish it; operations never touch these fields.
    pub open spec fn wf(self) -> bool {
        &&& self.authority@.len() == 32
        &&& self.token_a_mint@.len() == 32
        &&& self.token_b_mint@.len() == 32
        &&& self.token_a_account@.len() == 32
        &&& self.token_b_account@.len() == 32
        &&& self.lp_mint@.len() == 32
        &&& self.pool_id@.len() == 32
    }

    /// The fields no operation may change, together with the fee
    /// accumulators, which no in-core operation withdraws.
    pub open spec fn same_configuration(self, other: Pool) -> bool {
        &&& self.authority == other.authority
        &&& self.token_a_mint == other.token_a_mint
        &&& self.token_b_mint == other.token_b_mint
        &&& self.token_a_account == other.token_a_account
        &&& self.token_b_account == other.token_b_account
        &&& self.lp_mint == other.lp_mint
        &&& self.fee_percentage == other.fee_percentage
        &&& self.pool_id == other.pool_id
        &&& self.status == other.status
        &&& self.protocol_fee_a == other.protocol_fee_a
        &&& self.protocol_fee_b == other.protocol_fee_b
    }
}

} // verus!
