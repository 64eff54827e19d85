//! The cross-chain completion protocol: apply an already-attested message
//! from the paired remote instance to local pool state, exactly once.
//!
//! The message relay collaborator hands over a posted message's origin
//! fields and its opaque payload; attestation-signature verification is that
//! collaborator's concern, not this protocol's.  Here the payload is decoded
//! as `[operation code: 1 byte][operation-specific body]`, validated against
//! the caller-supplied recipient and the target pool, and turned into the
//! one ledger action the host must perform.  The message's persistent
//! `BridgeRequest` record is flipped to `Completed` in the same step, so a
//! second application of the same message is refused before any decoding.

use vstd::prelude::*;
use crate::bridge_request::BridgeRequest;
use crate::bridge_request::BridgeStatus;
use crate::bytes;
use crate::errors::ErrorCode;
use crate::payloads::AddLiquidityCompletionPayload;
use crate::payloads::BridgeOperationCode;
use crate::payloads::RemoveLiquidityCompletionPayload;
use crate::pool::Pool;

verus! {

/// How a posted message's payload is framed.  The protocol only consumes
/// opaque binary payloads; a message framed in any structured kind is not
/// for this protocol.
pub enum PayloadKind {
    /// An opaque byte string, to be decoded here.
    Binary(Vec<u8>),
    /// Any of the relay's structured framings.
    Structured,
}

/// A posted, custody-verified message as the relay collaborator delivers
/// it: its origin identity and its payload.
pub struct PostedVaa {
    /// Origin chain identifier.
    pub emitter_chain: u16,
    /// 32-byte emitter address on the origin chain.
    pub emitter_address: Vec<u8>,
    /// Sequence number assigned by the origin chain's relay.
    pub sequence: u64,
    /// The attested payload.
    pub payload: PayloadKind,
}

/// The one asset-ledger action a successfully applied completion message
/// instructs the host to perform for the validated recipient.
#[derive(Clone, Copy, Debug, PartialEq, Eq, Structural)]
pub enum CompletionAction {
    /// Mint this many share units to the recipient under the pool's derived
    /// authority.  The deposit arithmetic ran on the remote chain; local
    /// reserves and the pool's running share total are left untouched.
    MintLpTokens { amount: u64 },
    /// Pay these amounts from the pool's reserve accounts to the recipient
    /// under the pool's derived authority, mirroring a withdrawal decided on
    /// the remote chain.
    TransferPoolTokens { amount_a: u64, amount_b: u64 },
}

/// The action a binary payload yields against `pool` for the caller-supplied
/// `recipient`, or the exact error that refuses it: empty or ill-sized
/// payloads are malformed, an unknown leading byte is an unknown operation,
/// and the body's claimed recipient and origin pool must match exactly.
pub open spec fn spec_completion_action(
    pool: Pool,
    payload: Seq<u8>,
    recipient: Seq<u8>,
) -> Result<CompletionAction, ErrorCode> {
    if payload.len() == 0 {
        Err(ErrorCode::InvalidVaaPayload)
    } else {
        let body = payload.subrange(1, payload.len() as int);
        if payload[0] == 0 {
            if body.len() != 72 {
                Err(ErrorCode::InvalidVaaPayload)
            } else if body.subrange(0, 32) != recipient {
                Err(ErrorCode::RecipientMismatch)
            } else if body.subrange(40, 72) != pool.pool_id@ {
                Err(ErrorCode::PoolIdMismatch)
            } else {
                Ok(CompletionAction::MintLpTokens {
                    amount: bytes::spec_u64_le(body.subrange(32, 40)) as u64,
                })
            }
        } else if payload[0] == 1 {
            if body.len() != 80 {
                Err(ErrorCode::InvalidVaaPayload)
            } else if body.subrange(0, 32) != recipient {
                Err(ErrorCode::RecipientMismatch)
            } else if body.subrange(48, 80) != pool.pool_id@ {
                Err(ErrorCode::PoolIdMismatch)
            } else {
                Ok(CompletionAction::TransferPoolTokens {
                    amount_a: bytes::spec_u64_le(body.subrange(32, 40)) as u64,
                    amount_b: bytes::spec_u64_le(body.subrange(40, 48)) as u64,
                })
            }
        } else {
            Err(ErrorCode::InvalidBridgeOperation)
        }
    }
}

/// The whole protocol's outcome on given inputs: an already-applied message
/// is refused before anything else, a non-binary framing next, and then the
/// payload decides as [`spec_completion_action`] says.
pub open spec fn spec_process_vaa(
    pool: Pool,
    request: BridgeRequest,
    vaa: PostedVaa,
    recipient: Seq<u8>,
) -> Result<CompletionAction, ErrorCode> {
    if request.status != BridgeStatus::Pending {
        Err(ErrorCode::VaaAlreadyProcessed)
    } else {
        match vaa.payload {
            PayloadKind::Binary(bytes) => spec_completion_action(pool, bytes@, recipient),
            PayloadKind::Structured => Err(ErrorCode::UnsupportedPayloadKind),
        }
    }
}

/// Applies one posted message to `pool`'s ledger, at most once.
///
/// `request` must be the persistent record of this very message: the host
/// looks it up by the message's identity, so the identities agree.
/// `recipient` is the 32-byte identity of the party the caller says should
/// benefit; the message's own claim must match it.
///
/// On success the returned action is the only mutation the host may
/// perform, and the record is `Completed` so the same message can never be
/// applied again; on any error the record is exactly as it was and nothing
/// may be performed.  The pool record itself is never changed here.
pub fn handler(
    pool: &Pool,
    request: &mut BridgeRequest,
    vaa: &PostedVaa,
    recipient: &[u8],
) -> (r: Result<CompletionAction, ErrorCode>)
    requires
        old(request).wormhole_sequence == vaa.sequence,
        old(request).emitter_chain == vaa.emitter_chain,
        old(request).emitter_address@ == vaa.emitter_address@,
    ensures
        r == spec_process_vaa(*pool, *old(request), *vaa, recipient@),
        r is Ok ==> final(request).status == BridgeStatus::Completed && old(
            request,
        ).same_identity(*final(request)),
        r is Err ==> *final(request) == *old(request),
{
    if request.status != BridgeStatus::Pending {
        return Err(ErrorCode::VaaAlreadyProcessed);
    }
    let payload: &Vec<u8> = match &vaa.payload {
        PayloadKind::Binary(bytes) => bytes,
        PayloadKind::Structured => {
            return Err(ErrorCode::UnsupportedPayloadKind);
        },
    };
    if payload.len() == 0 {
        return Err(ErrorCode::InvalidVaaPayload);
    }
    let operation_code = payload[0];
    let body = vstd::slice::slice_subrange(payload.as_slice(), 1, payload.len());
    match BridgeOperationCode::from_code(operation_code) {
        Some(BridgeOperationCode::AddLiquidityCompletion) => {
            let completion_payload = match AddLiquidityCompletionPayload::try_from_slice(body) {
                Ok(p) => p,
                Err(e) => {
                    return Err(e);
                },
            };
            if !bytes::bytes_eq(completion_payload.recipient_address.as_slice(), recipient) {
                return Err(ErrorCode::RecipientMismatch);
            }
            if !bytes::bytes_eq(
                completion_payload.original_pool_id.as_slice(),
                pool.pool_id.as_slice(),
            ) {
                return Err(ErrorCode::PoolIdMismatch);
            }
            request.status = BridgeStatus::Completed;
            Ok(CompletionAction::MintLpTokens { amount: completion_payload.lp_amount_to_mint })
        },
        Some(BridgeOperationCode::RemoveLiquidityCompletion) => {
            let completion_payload = match RemoveLiquidityCompletionPayload::try_from_slice(body) {
                Ok(p) => p,
                Err(e) => {
                    return Err(e);
                },
            };
            if !bytes::bytes_eq(completion_payload.recipient_address.as_slice(), recipient) {
                return Err(ErrorCode::RecipientMismatch);
            }
            if !bytes::bytes_eq(
                completion_payload.original_pool_id.as_slice(),
                pool.pool_id.as_slice(),
            ) {
                return Err(ErrorCode::PoolIdMismatch);
            }
            request.status = BridgeStatus::Completed;
            Ok(CompletionAction::TransferPoolTokens {
                amount_a: completion_payload.amount_a_to_transfer,
                amount_b: completion_payload.amount_b_to_transfer,
            })
        },
        None => Err(ErrorCode::InvalidBridgeOperation),
    }
}

/// Applying the same completion message twice has the observable effect of
/// applying it once: a successful application leaves the message's record
/// `Completed`, and against any `Completed` (or otherwise non-`Pending`)
/// record the same message is refused as already processed — before any
/// decoding, so no second mint or transfer is ever instructed.  Together
/// with [`handler`]'s error contract, the refused second application also
/// changes nothing.
pub proof fn lemma_completion_idempotent(
    pool: Pool,
    request: BridgeRequest,
    applied: BridgeRequest,
    vaa: PostedVaa,
    recipient: Seq<u8>,
)
    requires
        spec_process_vaa(pool, request, vaa, recipient) is Ok,
        applied.status == BridgeStatus::Completed,
    ensures
        spec_process_vaa(pool, applied, vaa, recipient) == Err::<CompletionAction, ErrorCode>(
            ErrorCode::VaaAlreadyProcessed,
        ),
{
}

} // verus!
