//! The closed set of failure codes shared by every pool operation.

use vstd::prelude::*;

verus! {

/// Every way a pool operation can be refused.  Each failure is a typed,
/// synchronous outcome: an operation either fully succeeds or returns one of
/// these codes and leaves all state untouched.
#[derive(Clone, Copy, Debug, PartialEq, Eq, Structural)]
pub enum ErrorCode {
    /// The pool's status bars mutating operations.
    PoolPaused,
    /// A computed amount fell below the caller's stated minimum.
    SlippageExceeded,
    /// A deposit would mint zero share units.
    ZeroLiquidityMinted,
    /// A withdrawal asked to burn zero share units.
    ZeroLiquidityBurned,
    /// The caller holds fewer share units than it asked to burn.
    InsufficientLpTokens,
    /// A withdrawal was attempted against a pool with no outstanding shares.
    PoolEmpty,
    /// A pool-custodied token account did not match the pool record.
    InvalidPoolTokenAccount,
    /// A token mint did not match the pool record.
    InvalidMint,
    /// A token account is owned by someone other than the expected party.
    InvalidOwner,
    /// The attested message payload is empty or malformed.
    InvalidVaaPayload,
    /// The attested message carries an unknown operation code.
    InvalidBridgeOperation,
    /// The attested message was already applied once.
    VaaAlreadyProcessed,
    /// An intermediate product or sum exceeded the machine word.
    Overflow,
    /// A subtraction would have gone below zero.
    Underflow,
    /// A signing authority did not match the pool's derived authority.
    InvalidAuthority,
    /// The pool record's status field holds no known status.
    InvalidPoolStatus,
    /// The message's recipient differs from the caller-supplied recipient.
    RecipientMismatch,
    /// The message's origin pool differs from the target pool.
    PoolIdMismatch,
    /// The message came from an emitter chain the pool does not accept.
    InvalidEmitterChain,
    /// The message came from an emitter address the pool does not accept.
    InvalidEmitterAddress,
    /// The attested message's payload is framed in an unconsumable kind.
    UnsupportedPayloadKind,
}

} // verus!
