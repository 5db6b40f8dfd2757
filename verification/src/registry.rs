//! The interest registry: a dense table from a small integer id to the state
//! of one outstanding call.
//!
//! A slot exists from the moment a call is registered until its response is
//! taken, or until the response of a call that nobody waits for any more has
//! been seen and dropped.

use crate::interest::{
    slab_entries, slab_get, slab_get_mut, slab_insert, slab_keys, slab_new, slab_next_key,
    slab_remove, slab_slots, slab_vacant_key, MessageInterest, ResumeToken,
};
use slab::Slab;
use vstd::prelude::*;

verus! {

/// What a registry holds: the state of each outstanding call under its key,
/// the key that the next call will get, and the number of slots that were
/// ever made for calls.
pub struct RegistryState {
    /// The state of each outstanding call, under its key.
    pub entries: Map<usize, MessageInterest>,
    /// The key of the next registration. It holds no call now.
    pub vacant_key: usize,
    /// The number of slots that were made so far. A freed slot is used again
    /// before another is made, so that this is the most calls that were ever
    /// outstanding at once.
    pub slots: usize,
}

impl RegistryState {
    /// Whether a call is kept under `key`.
    pub open spec fn contains(self, key: usize) -> bool {
        self.entries.dom().contains(key)
    }

    /// Whether the registry is one that registrations and the other operations
    /// can have made: every call is kept in a slot that was made, and the key
    /// of the next registration holds no call and is that of a freed slot or
    /// of the slot that will be made next.
    pub open spec fn wf(self) -> bool {
        &&& self.vacant_key <= self.slots
        &&& !self.contains(self.vacant_key)
        &&& forall|key: usize| #[trigger] self.entries.dom().contains(key) ==> key < self.slots
    }

    /// Whether `after` is this registry after one registration. The call got
    /// the vacant key, which held no call, and has not polled. Where no slot
    /// was free, one was made, and the next call gets the key after it. Where
    /// a slot was free, none was made, and the next call gets another free
    /// slot, or the slot that will be made next.
    pub open spec fn registers(self, after: RegistryState) -> bool {
        &&& self.vacant_key <= self.slots
        &&& !self.contains(self.vacant_key)
        &&& after.entries == self.entries.insert(self.vacant_key, MessageInterest::WillPoll)
        &&& after.slots == if self.vacant_key == self.slots {
            self.slots + 1
        } else {
            self.slots as int
        }
        &&& self.vacant_key == self.slots ==> after.vacant_key == self.vacant_key + 1
        &&& after.vacant_key <= after.slots
        &&& !after.contains(after.vacant_key)
    }

    /// Whether the call under `key` still waits for its response: it is kept,
    /// and is neither answered nor given up.
    pub open spec fn is_live(self, key: usize) -> bool {
        self.contains(key) && (self.entries[key] is WillPoll || self.entries[key] is Waiting)
    }

    /// The registry after the call under `key` was given up: an answered call
    /// leaves, any other is marked so that its response is dropped on arrival.
    pub open spec fn deregister(self, key: usize) -> RegistryState {
        if self.entries[key] is Received {
            RegistryState { entries: self.entries.remove(key), vacant_key: key, ..self }
        } else {
            RegistryState { entries: self.entries.insert(key, MessageInterest::Discard), ..self }
        }
    }

    /// The registry after a task with the token `token` began to wait for the
    /// call under `key`: the token is stored unless the response is there.
    pub open spec fn await_response(self, key: usize, token: ResumeToken) -> RegistryState {
        if self.entries[key] is Received {
            self
        } else {
            RegistryState {
                entries: self.entries.insert(key, MessageInterest::Waiting(token)),
                ..self
            }
        }
    }

    /// The registry after the response `message` arrived for `key`: a call
    /// that was given up leaves, any other call holds the response, and a
    /// response for a key that holds no call is dropped.
    pub open spec fn deliver(self, key: usize, message: Vec<u8>) -> RegistryState {
        if !self.contains(key) {
            self
        } else if self.entries[key] is Discard {
            RegistryState { entries: self.entries.remove(key), vacant_key: key, ..self }
        } else {
            RegistryState {
                entries: self.entries.insert(key, MessageInterest::Received(message)),
                ..self
            }
        }
    }

    /// The token to resume when a response arrives for `key`, if a task waits
    /// there.
    pub open spec fn waiter(self, key: usize) -> Option<ResumeToken> {
        if self.contains(key) && self.entries[key] is Waiting {
            Some(self.entries[key]->Waiting_0)
        } else {
            None
        }
    }

    /// The registry after the response under `key` was taken.
    pub open spec fn take(self, key: usize) -> RegistryState {
        RegistryState { entries: self.entries.remove(key), vacant_key: key, ..self }
    }

    /// The tokens of the tasks that wait under the keys below `bound`, by
    /// ascending key.
    pub open spec fn waiting_below(self, bound: nat) -> Seq<ResumeToken>
        decreases bound,
    {
        if bound == 0 {
            Seq::empty()
        } else {
            let key = (bound - 1) as usize;
            let before = self.waiting_below((bound - 1) as nat);
            if bound - 1 <= usize::MAX && self.contains(key) && self.entries[key] is Waiting {
                before.push(self.entries[key]->Waiting_0)
            } else {
                before
            }
        }
    }

    /// The tokens of all the tasks that wait, by ascending key.
    pub open spec fn waiting(self) -> Seq<ResumeToken> {
        self.waiting_below((usize::MAX + 1) as nat)
    }

    /// The token of the task that waits under the least key, if any waits.
    pub open spec fn first_waiting(self) -> Option<ResumeToken> {
        if self.waiting().len() > 0 {
            Some(self.waiting()[0])
        } else {
            None
        }
    }

    /// The registry after every waiting task was resumed: each is back in the
    /// state of a call that has not polled, and nothing else changes.
    pub open spec fn wake_all(self) -> RegistryState {
        RegistryState {
            entries: Map::new(
                |key: usize| self.entries.dom().contains(key),
                |key: usize|
                    if self.entries[key] is Waiting {
                        MessageInterest::WillPoll
                    } else {
                        self.entries[key]
                    },
            ),
            ..self
        }
    }

    /// Between two bounds with no waiting task under the keys from the one to
    /// the other, the tokens are the same.
    pub proof fn lemma_waiting_below_gap(self, low: nat, high: nat)
        requires
            low <= high,
            forall|key: usize|
                low <= key < high && self.contains(key) ==> !(self.entries[key] is Waiting),
        ensures
            self.waiting_below(high) == self.waiting_below(low),
        decreases high,
    {
        if low < high {
            self.lemma_waiting_below_gap(low, (high - 1) as nat);
        }
    }

    /// The tokens below a bound open the tokens below any higher bound.
    pub proof fn lemma_waiting_below_prefix(self, low: nat, high: nat)
        requires
            low <= high,
        ensures
            self.waiting_below(low).len() <= self.waiting_below(high).len(),
            self.waiting_below(high).subrange(0, self.waiting_below(low).len() as int)
                == self.waiting_below(low),
        decreases high,
    {
        if low < high {
            self.lemma_waiting_below_prefix(low, (high - 1) as nat);
            let before = self.waiting_below((high - 1) as nat);
            let all = self.waiting_below(high);
            let n = self.waiting_below(low).len() as int;
            assert(all.subrange(0, n) =~= before.subrange(0, n));
        } else {
            let all = self.waiting_below(high);
            assert(all.subrange(0, all.len() as int) =~= all);
        }
    }

    /// Where no task waits, no token is to be resumed.
    pub proof fn lemma_nobody_waiting(self)
        requires
            forall|key: usize| self.contains(key) ==> !(self.entries[key] is Waiting),
        ensures
            self.waiting() == Seq::<ResumeToken>::empty(),
            self.first_waiting() is None,
    {
        self.lemma_waiting_below_gap(0, (usize::MAX + 1) as nat);
    }

    /// A registration keeps the registry well formed.
    pub proof fn lemma_registration_keeps_wf(self, after: RegistryState)
        requires
            self.wf(),
            self.registers(after),
        ensures
            after.wf(),
    {
    }

    /// Every operation on a call keeps the registry well formed.
    pub proof fn lemma_wf_is_kept(self, key: usize, token: ResumeToken, message: Vec<u8>)
        requires
            self.wf(),
        ensures
            self.contains(key) ==> self.deregister(key).wf(),
            self.contains(key) ==> self.await_response(key, token).wf(),
            self.contains(key) ==> self.take(key).wf(),
            self.deliver(key, message).wf(),
            self.wake_all().wf(),
    {
    }

    /// While fewer slots were made than there are transaction ids, the next
    /// call can be registered: its key has a transaction id.
    pub proof fn lemma_room_for_a_call(self)
        requires
            self.wf(),
            self.slots < u32::MAX,
        ensures
            self.vacant_key < u32::MAX,
    {
    }

    /// After every waiting task was resumed, none waits.
    pub proof fn lemma_wake_all_leaves_nobody_waiting(self)
        ensures
            self.wake_all().waiting() == Seq::<ResumeToken>::empty(),
            self.wake_all().first_waiting() is None,
    {
        self.wake_all().lemma_nobody_waiting();
    }
}

/// The interest registry.
pub struct InterestRegistry {
    slab: Slab<MessageInterest>,
}

impl View for InterestRegistry {
    type V = RegistryState;

    closed spec fn view(&self) -> RegistryState {
        RegistryState {
            entries: slab_entries(self.slab),
            vacant_key: slab_vacant_key(self.slab),
            slots: slab_slots(self.slab),
        }
    }
}

impl InterestRegistry {
    /// A registry with no call and no slot, whose first key is zero.
    pub fn new() -> (registry: InterestRegistry)
        ensures
            registry@.entries == Map::<usize, MessageInterest>::empty(),
            registry@.vacant_key == 0,
            registry@.slots == 0,
            registry@.wf(),
    {
        InterestRegistry { slab: slab_new() }
    }

    /// The key that the next call will get. It holds no call now, and is
    /// that of a freed slot or of the slot that will be made next.
    pub fn vacant_key(&self) -> (key: usize)
        ensures
            key == self@.vacant_key,
            !self@.contains(key),
            key <= self@.slots,
    {
        slab_next_key(&self.slab)
    }

    /// Whether a call is kept under `key`.
    pub fn contains(&self, key: usize) -> (contained: bool)
        ensures
            contained == self@.contains(key),
    {
        slab_get(&self.slab, key).is_some()
    }

    /// Whether the response of the call under `key` has arrived and waits to be
    /// taken.
    pub fn is_received(&self, key: usize) -> (received: bool)
        ensures
            received == (self@.contains(key) && self@.entries[key] is Received),
    {
        match slab_get(&self.slab, key) {
            Some(interest) => interest.is_received(),
            None => false,
        }
    }

    /// Registers a call: it gets the vacant key, which no other call holds,
    /// and starts as a call whose task has not polled. A freed slot is used
    /// before another is made; where one is made, the next call gets the key
    /// after it.
    pub fn register(&mut self) -> (key: usize)
        ensures
            key == old(self)@.vacant_key,
            old(self)@.registers(final(self)@),
    {
        slab_insert(&mut self.slab, MessageInterest::WillPoll)
    }

    /// Gives up the call under `key`.
    pub fn deregister(&mut self, key: usize)
        requires
            old(self)@.contains(key),
        ensures
            final(self)@ == old(self)@.deregister(key),
    {
        if self.is_received(key) {
            let _ = slab_remove(&mut self.slab, key);
        } else {
            match slab_get_mut(&mut self.slab, key) {
                Some(interest) => {
                    *interest = MessageInterest::Discard;
                },
                None => {},
            }
        }
    }

    /// Stores the token of the task that now waits for the call under `key`,
    /// in place of any earlier one, unless the response is there already.
    pub fn await_response(&mut self, key: usize, token: ResumeToken)
        requires
            old(self)@.contains(key),
        ensures
            final(self)@ == old(self)@.await_response(key, token),
    {
        match slab_get_mut(&mut self.slab, key) {
            Some(interest) => {
                if !interest.is_received() {
                    *interest = MessageInterest::Waiting(token);
                } else {
                    assert(old(self)@.entries.insert(key, *interest) =~= old(self)@.entries);
                }
            },
            None => {},
        }
    }

    /// Takes the response of the call under `key`, where it has arrived; the
    /// slot is then free. Where it has not, nothing changes.
    pub fn take_received(&mut self, key: usize) -> (message: Option<Vec<u8>>)
        ensures
            match message {
                Some(bytes) => {
                    &&& old(self)@.contains(key)
                    &&& old(self)@.entries[key] == MessageInterest::Received(bytes)
                    &&& final(self)@ == old(self)@.take(key)
                },
                None => {
                    &&& !(old(self)@.contains(key) && old(self)@.entries[key] is Received)
                    &&& final(self)@ == old(self)@
                },
            },
    {
        if self.is_received(key) {
            Some(slab_remove(&mut self.slab, key).unwrap_received())
        } else {
            None
        }
    }

    /// Routes the response `message` to the call under `key`, and returns the
    /// token of the task to resume, if one waits there.
    pub fn deliver(&mut self, key: usize, message: Vec<u8>) -> (wake: Option<ResumeToken>)
        ensures
            final(self)@ == old(self)@.deliver(key, message),
            wake == old(self)@.waiter(key),
    {
        let discard = match slab_get(&self.slab, key) {
            Some(MessageInterest::Discard) => true,
            _ => false,
        };
        if discard {
            let _ = slab_remove(&mut self.slab, key);
            None
        } else {
            match slab_get_mut(&mut self.slab, key) {
                Some(interest) => {
                    let wake = match interest {
                        MessageInterest::Waiting(token) => Some(*token),
                        _ => None,
                    };
                    *interest = MessageInterest::Received(message);
                    wake
                },
                None => None,
            }
        }
    }

    /// The token of some task that waits for a response: the one under the
    /// least key.
    pub fn first_waiting(&self) -> (token: Option<ResumeToken>)
        ensures
            token == self@.first_waiting(),
    {
        let keys = slab_keys(&self.slab);
        let ghost state = self@;
        let mut i: usize = 0;
        let ghost mut done: nat = 0;
        while i < keys.len()
            invariant
                state == self@,
                i <= keys.len(),
                done <= usize::MAX + 1,
                i > 0 ==> done == keys@[i - 1] + 1,
                i == 0 ==> done == 0,
                forall|a: int, b: int| 0 <= a < b < keys@.len() ==> keys@[a] < keys@[b],
                forall|key: usize| keys@.contains(key) <==> state.contains(key),
                state.waiting_below(done).len() == 0,
            decreases keys.len() - i,
        {
            let key = keys[i];
            proof {
                assert forall|k: usize| done <= k < key && state.contains(k) implies !(
                state.entries[k] is Waiting) by {
                    let j = choose|j: int| 0 <= j < keys@.len() && keys@[j] == k;
                    if j < i {
                        assert(keys@[j] <= keys@[i - 1]);
                    } else if j > i {
                        assert(keys@[i as int] < keys@[j]);
                    }
                }
                state.lemma_waiting_below_gap(done, key as nat);
                assert(keys@.contains(key));
            }
            match slab_get(&self.slab, key) {
                Some(MessageInterest::Waiting(token)) => {
                    proof {
                        assert(state.waiting_below((key + 1) as nat) == seq![*token]);
                        state.lemma_waiting_below_prefix(
                            (key + 1) as nat,
                            (usize::MAX + 1) as nat,
                        );
                        assert(state.waiting().subrange(0, 1)[0] == *token);
                    }
                    return Some(*token);
                },
                _ => {},
            }
            proof {
                done = (key + 1) as nat;
            }
            i += 1;
        }
        proof {
            assert forall|k: usize| done <= k && state.contains(k) implies !(
            state.entries[k] is Waiting) by {
                let j = choose|j: int| 0 <= j < keys@.len() && keys@[j] == k;
                if i > 0 {
                    assert(keys@[j] <= keys@[i - 1]);
                }
            }
            state.lemma_waiting_below_gap(done, (usize::MAX + 1) as nat);
        }
        None
    }

    /// Puts every waiting call back into the state of a call that has not
    /// polled, and returns the tokens of their tasks, by ascending key. A
    /// response that was received stays.
    pub fn wake_all(&mut self) -> (wake: Vec<ResumeToken>)
        ensures
            final(self)@ == old(self)@.wake_all(),
            wake@ == old(self)@.waiting(),
    {
        let keys = slab_keys(&self.slab);
        let ghost state = self@;
        let mut wake: Vec<ResumeToken> = Vec::new();
        let mut i: usize = 0;
        let ghost mut done: nat = 0;
        while i < keys.len()
            invariant
                i <= keys.len(),
                done <= usize::MAX + 1,
                i > 0 ==> done == keys@[i - 1] + 1,
                i == 0 ==> done == 0,
                forall|a: int, b: int| 0 <= a < b < keys@.len() ==> keys@[a] < keys@[b],
                forall|key: usize| keys@.contains(key) <==> state.contains(key),
                wake@ == state.waiting_below(done),
                self@.vacant_key == state.vacant_key,
                self@.slots == state.slots,
                self@.entries == Map::new(
                    |key: usize| state.entries.dom().contains(key),
                    |key: usize|
                        if key < done && state.entries[key] is Waiting {
                            MessageInterest::WillPoll
                        } else {
                            state.entries[key]
                        },
                ),
            decreases keys.len() - i,
        {
            let key = keys[i];
            let ghost before = self@;
            proof {
                assert(keys@.contains(key));
                assert(state.contains(key));
                assert(before.entries.dom().contains(key));
                assert forall|k: usize| done <= k < key && state.contains(k) implies !(
                state.entries[k] is Waiting) by {
                    let j = choose|j: int| 0 <= j < keys@.len() && keys@[j] == k;
                    if j < i {
                        assert(keys@[j] <= keys@[i - 1]);
                    } else if j > i {
                        assert(keys@[i as int] < keys@[j]);
                    }
                }
                state.lemma_waiting_below_gap(done, key as nat);
                assert(keys@.contains(key));
                if i > 0 {
                    assert(keys@[i - 1] < keys@[i as int]);
                }
            }
            match slab_get_mut(&mut self.slab, key) {
                Some(interest) => {
                    let waiting = match interest {
                        MessageInterest::Waiting(token) => Some(*token),
                        _ => None,
                    };
                    match waiting {
                        Some(token) => {
                            wake.push(token);
                            *interest = MessageInterest::WillPoll;
                        },
                        None => {},
                    }
                },
                None => {},
            }
            proof {
                let ghost reached = done;
                done = (key + 1) as nat;
                let ghost target = Map::new(
                    |k: usize| state.entries.dom().contains(k),
                    |k: usize|
                        if k < done && state.entries[k] is Waiting {
                            MessageInterest::WillPoll
                        } else {
                            state.entries[k]
                        },
                );
                assert(before.entries[key] == state.entries[key]);
                assert(self@.entries.dom() =~= target.dom());
                assert forall|k: usize| target.dom().contains(k) implies #[trigger] self@.entries[k]
                    == target[k] by {
                    if k != key {
                        assert(self@.entries[k] == before.entries[k]);
                        if reached <= k < key {
                            assert(state.contains(k));
                            assert(!(state.entries[k] is Waiting));
                        }
                    }
                }
                assert(self@.entries =~= target);
            }
            i += 1;
        }
        proof {
            assert forall|k: usize| done <= k && state.contains(k) implies !(
            state.entries[k] is Waiting) by {
                let j = choose|j: int| 0 <= j < keys@.len() && keys@[j] == k;
                if i > 0 {
                    assert(keys@[j] <= keys@[i - 1]);
                }
            }
            state.lemma_waiting_below_gap(done, (usize::MAX + 1) as nat);
            let ghost target = state.wake_all().entries;
            assert(self@.entries.dom() =~= target.dom());
            assert forall|k: usize| target.dom().contains(k) implies #[trigger] self@.entries[k]
                == target[k] by {
                if k >= done {
                    assert(state.contains(k));
                    assert(!(state.entries[k] is Waiting));
                }
            }
            assert(self@.entries =~= target);
        }
        wake
    }
}

} // verus!
