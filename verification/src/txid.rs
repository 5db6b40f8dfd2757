//! Transaction ids, and the ids under which outstanding calls are kept.
//!
//! A transaction id is stamped on a request and echoed on its response. Zero
//! is reserved: it marks an event, or a message that expects no response. The
//! id of an interest is the transaction id less one, so that the ids of
//! outstanding calls are dense from zero.

use vstd::prelude::*;
use vstd::std_specs::convert::FromSpecImpl;

verus! {

/// A transaction id. It is not zero on a message that expects a response.
#[derive(Debug, Copy, Clone, PartialEq, Eq, Structural)]
pub struct Txid(pub u32);

/// The id of a message interest: the key of one outstanding call.
#[derive(Debug, Copy, Clone, PartialEq, Eq, Structural)]
pub struct InterestId(pub usize);

impl InterestId {
    /// The interest id that belongs to the transaction id `txid`.
    pub open spec fn spec_from_txid(txid: Txid) -> InterestId {
        InterestId((txid.0 - 1) as usize)
    }

    /// The interest id that belongs to a transaction id, which is not zero.
    #[verifier::when_used_as_spec(spec_from_txid)]
    pub fn from_txid(txid: Txid) -> (id: InterestId)
        requires
            txid.0 != 0,
        ensures
            id == InterestId::spec_from_txid(txid),
            id.0 + 1 == txid.0,
    {
        InterestId((txid.0 - 1) as usize)
    }

    /// The key itself.
    pub fn as_raw_id(&self) -> (raw: usize)
        ensures
            raw == self.0,
    {
        self.0
    }
}

impl Txid {
    /// The transaction id that belongs to the interest id `int_id`.
    pub open spec fn spec_from_interest_id(int_id: InterestId) -> Txid {
        Txid((int_id.0 + 1) as u32)
    }

    /// The transaction id that belongs to an interest id, where it fits in 32
    /// bits. It is never zero.
    #[verifier::when_used_as_spec(spec_from_interest_id)]
    pub fn from_interest_id(int_id: InterestId) -> (txid: Txid)
        requires
            int_id.0 < u32::MAX,
        ensures
            txid == Txid::spec_from_interest_id(int_id),
            txid.0 == int_id.0 + 1,
            txid.0 != 0,
    {
        Txid((int_id.0 + 1) as u32)
    }

    /// Get the raw u32 transaction ID.
    pub fn as_raw_id(&self) -> (raw: u32)
        ensures
            raw == self.0,
    {
        self.0
    }
}

impl From<u32> for Txid {
    fn from(txid: u32) -> (result: Txid) {
        Txid(txid)
    }
}

impl FromSpecImpl<u32> for Txid {
    open spec fn obeys_from_spec() -> bool {
        true
    }

    open spec fn from_spec(txid: u32) -> Txid {
        Txid(txid)
    }
}

/// From a transaction id that is not zero to its interest id and back is the
/// identity.
pub proof fn lemma_txid_roundtrip(txid: Txid)
    requires
        txid.0 != 0,
    ensures
        Txid::spec_from_interest_id(InterestId::spec_from_txid(txid)) == txid,
        InterestId::spec_from_txid(txid).0 < u32::MAX,
{
}

/// From an interest id that has a transaction id to that id and back is the
/// identity, and the transaction id is not zero.
pub proof fn lemma_interest_id_roundtrip(int_id: InterestId)
    requires
        int_id.0 < u32::MAX,
    ensures
        InterestId::spec_from_txid(Txid::spec_from_interest_id(int_id)) == int_id,
        Txid::spec_from_interest_id(int_id).0 != 0,
{
}

/// Two transaction ids that are not zero and have the same interest id are
/// the same: no two outstanding calls share a slot.
pub proof fn lemma_interest_id_injective(a: Txid, b: Txid)
    requires
        a.0 != 0,
        b.0 != 0,
        InterestId::spec_from_txid(a) == InterestId::spec_from_txid(b),
    ensures
        a == b,
{
}

} // verus!
