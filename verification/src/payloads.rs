//! Completion-message payloads: the operation-specific bodies carried inside
//! an attested cross-chain message, and their fixed-width wire format.
//!
//! A payload body encodes its fields in declaration order, with 32-byte
//! addresses raw and integers little-endian, and nothing after the last
//! field; a body of any other length is malformed.

use vstd::prelude::*;
use crate::bytes;
use crate::errors::ErrorCode;

verus! {

/// The operation a completion message asks the local pool to finish.  On the
/// wire it is the payload's leading byte: 0 asks to complete an AddLiquidity
/// decided remotely, 1 a RemoveLiquidity.
#[derive(Clone, Copy, Debug, PartialEq, Eq, Structural)]
pub enum BridgeOperationCode {
    AddLiquidityCompletion,
    RemoveLiquidityCompletion,
}

impl BridgeOperationCode {
    /// The wire value of this operation code.
    pub open spec fn spec_code(self) -> u8 {
        match self {
            BridgeOperationCode::AddLiquidityCompletion => 0,
            BridgeOperationCode::RemoveLiquidityCompletion => 1,
        }
    }

    /// Returns the wire value of this operation code.
    pub fn code(self) -> (c: u8)
        ensures
            c == self.spec_code(),
    {
        match self {
            BridgeOperationCode::AddLiquidityCompletion => 0,
            BridgeOperationCode::RemoveLiquidityCompletion => 1,
        }
    }

    /// Reads an operation code from its wire value; any byte other than the
    /// two known codes is refused.
    pub fn from_code(c: u8) -> (r: Option<BridgeOperationCode>)
        ensures
            r == (if c == 0 {
                Some(BridgeOperationCode::AddLiquidityCompletion)
            } else if c == 1 {
                Some(BridgeOperationCode::RemoveLiquidityCompletion)
            } else {
                None::<BridgeOperationCode>
            }),
    {
        if c == 0 {
            Some(BridgeOperationCode::AddLiquidityCompletion)
        } else if c == 1 {
            Some(BridgeOperationCode::RemoveLiquidityCompletion)
        } else {
            None
        }
    }
}

/// Body of a message completing an AddLiquidity decided on the remote chain:
/// the share amount was computed there, and is minted here as instructed.
pub struct AddLiquidityCompletionPayload {
    /// Local 32-byte address to receive the minted share units.
    pub recipient_address: Vec<u8>,
    /// Share units to mint, as computed by the remote chain.
    pub lp_amount_to_mint: u64,
    /// Pool identifier claimed by the remote chain, checked against the
    /// local pool's own.
    pub original_pool_id: Vec<u8>,
}

impl AddLiquidityCompletionPayload {
    /// Decodes a payload body of exactly 72 bytes: recipient address,
    /// little-endian share amount, origin pool identifier.
    pub fn try_from_slice(body: &[u8]) -> (r: Result<AddLiquidityCompletionPayload, ErrorCode>)
        ensures
            match r {
                Ok(p) => {
                    &&& body@.len() == 72
                    &&& p.recipient_address@ == body@.subrange(0, 32)
                    &&& p.lp_amount_to_mint == bytes::spec_u64_le(body@.subrange(32, 40))
                    &&& p.original_pool_id@ == body@.subrange(40, 72)
                },
                Err(e) => body@.len() != 72 && e == ErrorCode::InvalidVaaPayload,
            },
    {
        if body.len() != 72 {
            return Err(ErrorCode::InvalidVaaPayload);
        }
        Ok(AddLiquidityCompletionPayload {
            recipient_address: bytes::bytes_to_vec(body, 0, 32),
            lp_amount_to_mint: bytes::read_u64_le(body, 32),
            original_pool_id: bytes::bytes_to_vec(body, 40, 72),
        })
    }
}

/// Body of a message completing a RemoveLiquidity decided on the remote
/// chain: the payout amounts were computed there, and are paid from the
/// local reserves as instructed.
pub struct RemoveLiquidityCompletionPayload {
    /// Local 32-byte address to receive the payouts.
    pub recipient_address: Vec<u8>,
    /// Asset A to pay out, as computed by the remote chain.
    pub amount_a_to_transfer: u64,
    /// Asset B to pay out, as computed by the remote chain.
    pub amount_b_to_transfer: u64,
    /// Pool identifier claimed by the remote chain, checked against the
    /// local pool's own.
    pub original_pool_id: Vec<u8>,
}

impl RemoveLiquidityCompletionPayload {
    /// Decodes a payload body of exactly 80 bytes: recipient address, two
    /// little-endian payout amounts, origin pool identifier.
    pub fn try_from_slice(body: &[u8]) -> (r: Result<RemoveLiquidityCompletionPayload, ErrorCode>)
        ensures
            match r {
                Ok(p) => {
                    &&& body@.len() == 80
                    &&& p.recipient_address@ == body@.subrange(0, 32)
                    &&& p.amount_a_to_transfer == bytes::spec_u64_le(body@.subrange(32, 40))
                    &&& p.amount_b_to_transfer == bytes::spec_u64_le(body@.subrange(40, 48))
                    &&& p.original_pool_id@ == body@.subrange(48, 80)
                },
                Err(e) => body@.len() != 80 && e == ErrorCode::InvalidVaaPayload,
            },
    {
        if body.len() != 80 {
            return Err(ErrorCode::InvalidVaaPayload);
        }
        Ok(RemoveLiquidityCompletionPayload {
            recipient_address: bytes::bytes_to_vec(body, 0, 32),
            amount_a_to_transfer: bytes::read_u64_le(body, 32),
            amount_b_to_transfer: bytes::read_u64_le(body, 40),
            original_pool_id: bytes::bytes_to_vec(body, 48, 80),
        })
    }
}

} // verus!
