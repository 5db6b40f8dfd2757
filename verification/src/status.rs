//! Status codes that a channel, or the peer in an epitaph, reports.

use vstd::prelude::*;

verus! {

/// Raw code of the status "the other end of the channel was closed".
pub const ZX_ERR_PEER_CLOSED: i32 = -24;

/// Raw code of the status "the operation would block".
pub const ZX_ERR_SHOULD_WAIT: i32 = -22;

/// Raw code of the status "the service is not available".
pub const ZX_ERR_UNAVAILABLE: i32 = -28;

/// A status code, as the kernel or the peer reports it.
#[derive(Debug, Clone, Copy, PartialEq, Eq, Structural)]
pub struct Status {
    /// The raw code.
    pub raw: i32,
}

impl Status {
    /// The status with the raw code `raw`.
    pub fn from_raw(raw: i32) -> (status: Status)
        ensures
            status == (Status { raw }),
    {
        Status { raw }
    }

    /// The raw code of this status.
    pub fn into_raw(self) -> (raw: i32)
        ensures
            raw == self.raw,
    {
        self.raw
    }

    /// Whether this is the status of a closed peer.
    pub open spec fn spec_is_peer_closed(self) -> bool {
        self.raw == ZX_ERR_PEER_CLOSED
    }

    /// Whether this is the status of a closed peer.
    #[verifier::when_used_as_spec(spec_is_peer_closed)]
    pub fn is_peer_closed(self) -> (closed: bool)
        ensures
            closed == self.spec_is_peer_closed(),
    {
        self.raw == ZX_ERR_PEER_CLOSED
    }
}

} // verus!
