//! The per-message replay record: one persistent `BridgeRequest` per unique
//! attested-message identity (origin chain, emitter address, sequence
//! number).  The completion protocol flips it from `Pending` to `Completed`
//! the one time it applies the message, and refuses every later attempt.

use vstd::prelude::*;

verus! {

/// Lifecycle of one attested message's application.
#[derive(Clone, Copy, Debug, PartialEq, Eq, Structural)]
pub enum BridgeStatus {
    /// Recorded, not yet applied: the only state the completion protocol
    /// accepts.
    Pending,
    /// Applied once; any further application is refused.
    Completed,
    /// Abandoned by the host; never applied.
    Failed,
}

impl Default for BridgeStatus {
    /// A freshly recorded message starts out pending.
    fn default() -> (s: BridgeStatus)
        ensures
            s == BridgeStatus::Pending,
    {
        BridgeStatus::Pending
    }
}

/// Persistent record of one attested message, keyed by its identity.  The
/// host creates it when the message is first seen; the completion protocol
/// only ever changes `status`.
#[derive(Clone, Debug)]
pub struct BridgeRequest {
    /// Sequence number assigned by the origin chain's relay.
    pub wormhole_sequence: u64,
    /// Origin chain identifier.
    pub emitter_chain: u16,
    /// 32-byte emitter address on the origin chain.
    pub emitter_address: Vec<u8>,
    /// Whether the message has been applied.
    pub status: BridgeStatus,
    /// The message's payload bytes as recorded by the host.
    pub payload: Vec<u8>,
    /// When the host recorded the message.
    pub created_at: i64,
}

impl BridgeRequest {
    /// Everything but `status`, which is all the completion protocol may
    /// change.
    pub open spec fn same_identity(self, other: BridgeRequest) -> bool {
        &&& self.wormhole_sequence == other.wormhole_sequence
        &&& self.emitter_chain == other.emitter_chain
        &&& self.emitter_address == other.emitter_address
        &&& self.payload == other.payload
        &&& self.created_at == other.created_at
    }
}

} // verus!
