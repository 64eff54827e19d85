//! Accounting core of a two-asset constant-ratio liquidity pool.
//!
//! The library holds the pool's state record, the integer reserve/share
//! arithmetic behind deposits and withdrawals, the liquidity operations that
//! decide which token movements the external asset ledger must perform, and
//! the completion protocol that applies attested cross-chain messages to a
//! pool at most once.  Everything here is pure computation over plain values;
//! the asset ledger and the message relay are external collaborators that a
//! host program drives with the decisions returned from these functions.

pub mod add_liquidity;
pub mod bridge_request;
pub mod bytes;
pub mod create_pool;
pub mod errors;
pub mod math;
pub mod payloads;
pub mod pool;
pub mod position;
pub mod process_vaa;
pub mod remove_liquidity;

pub use errors::ErrorCode;
pub use pool::Pool;
pub use pool::PoolStatus;
pub use create_pool::handler as create_pool;
pub use add_liquidity::handler as add_liquidity;
pub use remove_liquidity::handler as remove_liquidity;
pub use process_vaa::handler as process_vaa;
