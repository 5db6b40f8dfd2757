//! The state of one outstanding call, and the slab that holds those states.
//!
//! The slab is the one of the `slab` crate. Verus does not read it: what it
//! holds, how many slots it has made and which key it hands out next are given
//! names here, and each of its methods that the client calls stands behind a
//! function whose contract says over those names what the method does.

use slab::Slab;
use vstd::prelude::*;

verus! {

/// What identifies a suspended task to whoever resumes it. The client stores
/// tokens and hands them back; it never looks inside one.
#[derive(Debug, Clone, Copy, PartialEq, Eq, Structural)]
pub struct ResumeToken(pub u64);

/// The state of one outstanding call.
#[derive(Debug, PartialEq, Eq)]
pub enum MessageInterest {
    /// The call was sent and its task has not polled yet.
    WillPoll,
    /// A task waits for the response and is resumed with the token.
    Waiting(ResumeToken),
    /// The response has arrived, and a task will poll to take it.
    Received(Vec<u8>),
    /// No response has arrived, and nobody wants it any more: it is dropped
    /// when it arrives.
    Discard,
}

impl MessageInterest {
    /// Whether a response has been received.
    pub open spec fn spec_is_received(&self) -> bool {
        *self is Received
    }

    /// Whether a response has been received.
    #[verifier::when_used_as_spec(spec_is_received)]
    pub fn is_received(&self) -> (received: bool)
        ensures
            received == self.spec_is_received(),
    {
        match self {
            MessageInterest::Received(_) => true,
            _ => false,
        }
    }

    /// The response that was received.
    pub fn unwrap_received(self) -> (message: Vec<u8>)
        requires
            self is Received,
        ensures
            message == self->Received_0,
    {
        match self {
            MessageInterest::Received(message) => message,
            _ => Vec::new(),
        }
    }
}

#[verifier::external_type_specification]
#[verifier::external_body]
#[verifier::reject_recursive_types(T)]
pub struct ExSlab<T>(Slab<T>);

/// The values that a slab holds, each under its key.
pub uninterp spec fn slab_entries(slab: Slab<MessageInterest>) -> Map<usize, MessageInterest>;

/// The key under which a slab will store the next value inserted.
pub uninterp spec fn slab_vacant_key(slab: Slab<MessageInterest>) -> usize;

/// The number of slots that a slab has made so far, those that are vacant
/// again among them. A slab makes a slot only when none is vacant, and never
/// unmakes one: its keys, and the vacant key where a slot is vacant, lie below
/// this number, and the vacant key is this number where no slot is vacant.
pub uninterp spec fn slab_slots(slab: Slab<MessageInterest>) -> usize;

/// The entries of a slab that holds nothing.
pub open spec fn no_entries() -> Map<usize, MessageInterest> {
    Map::empty()
}

/// `Slab::new`: the slab is empty and has made no slot, and its first key will
/// be zero.
#[verifier::external_body]
pub(crate) fn slab_new() -> (slab: Slab<MessageInterest>)
    ensures
        slab_entries(slab) == no_entries(),
        slab_vacant_key(slab) == 0,
        slab_slots(slab) == 0,
{
    Slab::new()
}

/// `Slab::vacant_key`: the key of the next insertion, which holds no value
/// now. It is that of a vacant slot, or the number of slots where none is
/// vacant.
#[verifier::external_body]
pub(crate) fn slab_next_key(slab: &Slab<MessageInterest>) -> (key: usize)
    ensures
        key == slab_vacant_key(*slab),
        !slab_entries(*slab).dom().contains(key),
        key <= slab_slots(*slab),
{
    slab.vacant_key()
}

/// `Slab::insert`: the value is stored under the vacant key, which is
/// returned; every other value stays under its key. Where no slot was vacant,
/// the key is the number of slots: a slot is made for it, and the key after it
/// is vacant next. Where a slot was vacant, no slot is made, and the key that
/// is vacant next is that of another vacant slot, or the number of slots.
/// (The call fails only where memory does.)
#[verifier::external_body]
pub(crate) fn slab_insert(slab: &mut Slab<MessageInterest>, interest: MessageInterest) -> (key:
    usize)
    ensures
        key == slab_vacant_key(*old(slab)),
        key <= slab_slots(*old(slab)),
        !slab_entries(*old(slab)).dom().contains(key),
        slab_entries(*final(slab)) == slab_entries(*old(slab)).insert(key, interest),
        slab_slots(*final(slab)) == if key == slab_slots(*old(slab)) {
            key + 1
        } else {
            slab_slots(*old(slab)) as int
        },
        key == slab_slots(*old(slab)) ==> slab_vacant_key(*final(slab)) == key + 1,
        slab_vacant_key(*final(slab)) <= slab_slots(*final(slab)),
        !slab_entries(*final(slab)).dom().contains(slab_vacant_key(*final(slab))),
{
    slab.insert(interest)
}

/// `Slab::remove`: the value under `key` leaves the slab and is returned, and
/// `key` becomes the vacant key. Its slot stays. The method panics on a key
/// that holds no value, so such a key is not admitted.
#[verifier::external_body]
pub(crate) fn slab_remove(slab: &mut Slab<MessageInterest>, key: usize) -> (interest:
    MessageInterest)
    requires
        slab_entries(*old(slab)).dom().contains(key),
    ensures
        interest == slab_entries(*old(slab))[key],
        slab_entries(*final(slab)) == slab_entries(*old(slab)).remove(key),
        slab_vacant_key(*final(slab)) == key,
        slab_slots(*final(slab)) == slab_slots(*old(slab)),
        key < slab_slots(*old(slab)),
{
    slab.remove(key)
}

/// `Slab::get`: the value under `key`, where there is one. A key that holds a
/// value is that of a slot.
#[verifier::external_body]
pub(crate) fn slab_get(slab: &Slab<MessageInterest>, key: usize) -> (entry: Option<
    &MessageInterest,
>)
    ensures
        match entry {
            Some(interest) => slab_entries(*slab).dom().contains(key) && *interest
                == slab_entries(*slab)[key] && key < slab_slots(*slab),
            None => !slab_entries(*slab).dom().contains(key),
        },
{
    slab.get(key)
}

/// `Slab::get_mut`: the place of the value under `key`, where there is one.
/// What the caller leaves in that place is what the slab then holds under
/// `key`; nothing else changes.
#[verifier::external_body]
pub(crate) fn slab_get_mut(slab: &mut Slab<MessageInterest>, key: usize) -> (entry: Option<
    &mut MessageInterest,
>)
    ensures
        match entry {
            Some(interest) => {
                &&& slab_entries(*old(slab)).dom().contains(key)
                &&& *interest == slab_entries(*old(slab))[key]
                &&& slab_entries(*final(slab)) == slab_entries(*old(slab)).insert(
                    key,
                    *final(interest),
                )
                &&& slab_vacant_key(*final(slab)) == slab_vacant_key(*old(slab))
                &&& slab_slots(*final(slab)) == slab_slots(*old(slab))
                &&& key < slab_slots(*old(slab))
            },
            None => !slab_entries(*old(slab)).dom().contains(key) && *final(slab) == *old(slab),
        },
{
    slab.get_mut(key)
}

/// `Slab::iter`, of which only the keys are kept: every key that holds a
/// value, once, in ascending order. Each is the key of a slot.
#[verifier::external_body]
pub(crate) fn slab_keys(slab: &Slab<MessageInterest>) -> (keys: Vec<usize>)
    ensures
        forall|i: int, j: int| 0 <= i < j < keys@.len() ==> keys@[i] < keys@[j],
        forall|key: usize| keys@.contains(key) <==> slab_entries(*slab).dom().contains(key),
        forall|i: int| 0 <= i < keys@.len() ==> keys@[i] < slab_slots(*slab),
{
    slab.iter().map(|(key, _)| key).collect()
}

} // verus!
