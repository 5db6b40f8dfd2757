//! What holds of the client over whole passes and between its operations.
//!
//! The operations state what one step does. The lemmas here follow a client
//! through many reads, or through several operations in a row.

use crate::client::event::{spec_event_poll, spec_event_state, EventReceiverState};
use crate::client::{
    spec_classify, spec_request, ChannelRead, ClientState, EventListener, Incoming, Poll,
    RecvResult,
};
use crate::encoding::{
    lemma_epitaph_roundtrip, lemma_header_roundtrip, spec_epitaph_body, spec_message,
    TransactionHeader, EPITAPH_ORDINAL,
};
use crate::error::Error;
use crate::interest::{MessageInterest, ResumeToken};
use crate::status::Status;
use crate::txid::InterestId;
use vstd::prelude::*;

verus! {

/// Whether a read is an event or a response: a message after which a pass
/// over the channel goes on.
pub open spec fn is_routed(read: ChannelRead) -> bool {
    read matches ChannelRead::Message(message) && (spec_classify(message@) is Event
        || spec_classify(message@) is Response)
}

/// Whether a read is the response to the call `id`.
pub open spec fn is_response_to(read: ChannelRead, id: InterestId) -> bool {
    read matches ChannelRead::Message(message) && spec_classify(message@) == Incoming::Response(
        id,
    )
}

/// Whether a read is an event.
pub open spec fn is_event(read: ChannelRead) -> bool {
    read matches ChannelRead::Message(message) && spec_classify(message@) is Event
}

/// The events among `reads`, in the order of the reads.
pub open spec fn events_of(reads: Seq<ChannelRead>) -> Seq<Vec<u8>>
    decreases reads.len(),
{
    if reads.len() == 0 {
        Seq::empty()
    } else if is_event(reads.last()) {
        events_of(reads.drop_last()).push(reads.last()->Message_0)
    } else {
        events_of(reads.drop_last())
    }
}

/// What was sent is read as what it was sent as: a message that was built for
/// a transaction id and an ordinal, which is not that of epitaphs, is an event
/// where the id is zero, and else the response to the call with that id.
pub proof fn lemma_message_is_read_as_sent(tx_id: u32, ordinal: u64, body: Seq<u8>)
    requires
        ordinal != EPITAPH_ORDINAL,
    ensures
        spec_classify(spec_request(tx_id, ordinal, body)) == if tx_id == 0 {
            Incoming::Event
        } else {
            Incoming::Response(InterestId((tx_id - 1) as usize))
        },
{
    lemma_header_roundtrip(TransactionHeader::spec_new(tx_id, ordinal), body);
}

/// An epitaph that was built for a status is read as the epitaph with that
/// status, whatever its transaction id.
pub proof fn lemma_epitaph_is_read_as_sent(tx_id: u32, status: Status)
    ensures
        spec_classify(
            spec_message(
                TransactionHeader::spec_new(tx_id, EPITAPH_ORDINAL),
                spec_epitaph_body(status),
            ),
        ) == Incoming::Epitaph(status),
{
    lemma_header_roundtrip(
        TransactionHeader::spec_new(tx_id, EPITAPH_ORDINAL),
        spec_epitaph_body(status),
    );
    lemma_epitaph_roundtrip(status);
}

impl ClientState {
    /// The client after the reads `reads`, one after the other.
    pub open spec fn recv_all(self, reads: Seq<ChannelRead>) -> ClientState
        decreases reads.len(),
    {
        if reads.len() == 0 {
            self
        } else {
            self.recv_all(reads.drop_last()).recv(reads.last())
        }
    }

    /// The client after a listener took the events.
    pub open spec fn claim_events(self) -> ClientState {
        ClientState { listener: EventListener::WillPoll, ..self }
    }
}

/// Events and responses leave the channel open, and leave alone the slot of
/// every call that none of the responses is for.
pub proof fn lemma_unrelated_reads_keep_slot(
    state: ClientState,
    id: InterestId,
    reads: Seq<ChannelRead>,
)
    requires
        state.epitaph is None,
        forall|i: int| 0 <= i < reads.len() ==> is_routed(#[trigger] reads[i]),
        forall|i: int| 0 <= i < reads.len() ==> !is_response_to(#[trigger] reads[i], id),
    ensures
        state.recv_all(reads).epitaph is None,
        state.recv_all(reads).registry.contains(id.0) == state.registry.contains(id.0),
        state.recv_all(reads).registry.entries[id.0] == state.registry.entries[id.0],
    decreases reads.len(),
{
    if reads.len() > 0 {
        let before = reads.drop_last();
        assert forall|i: int| 0 <= i < before.len() implies is_routed(#[trigger] before[i]) by {
            assert(before[i] == reads[i]);
        }
        assert forall|i: int| 0 <= i < before.len() implies !is_response_to(
            #[trigger] before[i],
            id,
        ) by {
            assert(before[i] == reads[i]);
        }
        lemma_unrelated_reads_keep_slot(state, id, before);
        assert(is_routed(reads[reads.len() - 1]));
        assert(!is_response_to(reads[reads.len() - 1], id));
    }
}

/// A call gets the response that carries its transaction id, whatever events
/// and responses to other calls arrive first: after them and the response, the
/// slot of the call holds that response, and the next poll of the call yields
/// it.
pub proof fn lemma_response_reaches_its_call(
    state: ClientState,
    id: InterestId,
    reads: Seq<ChannelRead>,
    message: Vec<u8>,
)
    requires
        state.epitaph is None,
        state.registry.is_live(id.0),
        forall|i: int| 0 <= i < reads.len() ==> is_routed(#[trigger] reads[i]),
        forall|i: int| 0 <= i < reads.len() ==> !is_response_to(#[trigger] reads[i], id),
        spec_classify(message@) == Incoming::Response(id),
    ensures
        ({
            let after = state.recv_all(reads).recv(ChannelRead::Message(message));
            &&& after.has_response(id)
            &&& after.registry.entries[id.0] == MessageInterest::Received(message)
            &&& after.response_poll(id, Ok(None)) == Poll::Ready(
                Ok::<Vec<u8>, Error>(message),
            )
            &&& !after.take_response(id).registry.contains(id.0)
        }),
{
    lemma_unrelated_reads_keep_slot(state, id, reads);
}

/// The registry stays well formed under everything that the client does to
/// it: whatever is read, and whichever call waits, is polled or is given up.
/// With the registrations, which keep it so too, every client that was made
/// new has a well formed registry.
pub proof fn lemma_registry_stays_well_formed(
    state: ClientState,
    read: ChannelRead,
    id: InterestId,
    token: ResumeToken,
    recv: RecvResult,
    message: Vec<u8>,
)
    requires
        state.registry.wf(),
    ensures
        state.recv(read).registry.wf(),
        state.deliver(id, message).registry.wf(),
        state.take_response(id).registry.wf(),
        state.registry.contains(id.0) ==> state.deregister(id).registry.wf(),
        state.registry.contains(id.0) ==> state.await_response(id, token).registry.wf(),
        state.registry.contains(id.0) ==> state.resolve_response(id, recv).registry.wf(),
        state.registry.contains(id.0) ==> state.resolve_query(id, recv).registry.wf(),
{
    state.registry.lemma_wf_is_kept(id.0, token, message);
    match read {
        ChannelRead::Message(arrived) => {
            match spec_classify(arrived@) {
                Incoming::Response(to) => {
                    state.registry.lemma_wf_is_kept(to.0, token, arrived);
                },
                _ => {},
            }
        },
        _ => {},
    }
}

/// A client that was made new can register calls one after the other, and
/// they get the transaction ids from one upwards, as long as none has ended in
/// between: where as many slots were made as there are calls, the next call
/// gets the key after the last.
pub proof fn lemma_registrations_count_up(before: ClientState, after: ClientState)
    requires
        before.registry.wf(),
        before.registry.vacant_key == before.registry.slots,
        before.registry.registers(after.registry),
    ensures
        after.registry.wf(),
        after.registry.vacant_key == before.registry.vacant_key + 1,
        after.registry.vacant_key == after.registry.slots,
        after.registry.contains(before.registry.vacant_key),
{
    before.registry.lemma_registration_keeps_wf(after.registry);
}

/// A response that is in its slot is what the poll of its call yields, whether
/// or not a pass is made first and however the pass ends, also where the
/// channel is closed: it comes before the error of the pass and before the
/// epitaph. Taking it frees the slot and leaves every other call alone.
pub proof fn lemma_stored_response_comes_first(
    state: ClientState,
    id: InterestId,
    recv: RecvResult,
)
    requires
        state.has_response(id),
    ensures
        state.stored_response(id) == Some(state.registry.entries[id.0]->Received_0),
        state.response_poll(id, recv) == Poll::Ready(
            Ok::<Vec<u8>, Error>(state.registry.entries[id.0]->Received_0),
        ),
        state.resolve_response(id, recv) == state.take_response(id),
        state.resolve_query(id, recv) == state.take_response(id),
        !state.take_response(id).registry.contains(id.0),
        state.take_response(id).events == state.events,
        state.take_response(id).epitaph == state.epitaph,
        forall|key: usize|
            key != id.0 ==> state.take_response(id).registry.contains(key)
                == state.registry.contains(key) && state.take_response(id).registry.entries[key]
                == state.registry.entries[key],
{
}

/// A call ends once with the closed channel: where no response is in its slot
/// and the pass ended with the status that closed the channel, the poll yields
/// the closed channel with that status and the call is given up, so that a
/// response that arrives later is dropped. The error of a pass that failed
/// ends no call.
pub proof fn lemma_closed_channel_ends_a_call(
    state: ClientState,
    id: InterestId,
    status: Status,
    error: Error,
)
    requires
        state.registry.contains(id.0),
        !state.has_response(id),
    ensures
        state.response_poll(id, Ok(Some(status))) == Poll::Ready(
            Err::<Vec<u8>, Error>(
                Error::ClientChannelClosed { status, service_name: state.service_name },
            ),
        ),
        state.resolve_response(id, Ok(Some(status))) == state.deregister(id),
        state.deregister(id).registry.entries[id.0] is Discard,
        state.response_poll(id, Err(error)) == Poll::Ready(
            Err::<Vec<u8>, Error>(error),
        ),
        state.resolve_response(id, Err(error)) == state,
        state.resolve_query(id, Err(error)) == state.deregister(id),
        state.resolve_response(id, Ok(None)) == state,
{
}

/// The response to a call that was given up before it arrived is dropped when
/// it arrives, whatever events and responses to other calls arrive first. The
/// slot of the call is gone after it, nobody is resumed, no event is queued,
/// and the pass goes on.
pub proof fn lemma_response_after_drop_is_discarded(
    state: ClientState,
    id: InterestId,
    reads: Seq<ChannelRead>,
    message: Vec<u8>,
)
    requires
        state.epitaph is None,
        state.registry.is_live(id.0),
        forall|i: int| 0 <= i < reads.len() ==> is_routed(#[trigger] reads[i]),
        forall|i: int| 0 <= i < reads.len() ==> !is_response_to(#[trigger] reads[i], id),
        spec_classify(message@) == Incoming::Response(id),
    ensures
        ({
            let dropped = state.deregister(id);
            let before = dropped.recv_all(reads);
            let after = before.recv(ChannelRead::Message(message));
            &&& dropped.registry.entries[id.0] is Discard
            &&& before.registry.contains(id.0)
            &&& !after.registry.contains(id.0)
            &&& after.events == before.events
            &&& after.listener == before.listener
            &&& after.epitaph is None
            &&& before.recv_wakes(ChannelRead::Message(message)) == Seq::<ResumeToken>::empty()
            &&& before.recv_result(ChannelRead::Message(message)) is None
            &&& forall|key: usize|
                key != id.0 ==> after.registry.contains(key) == before.registry.contains(key)
                    && after.registry.entries[key] == before.registry.entries[key]
        }),
{
    lemma_unrelated_reads_keep_slot(state.deregister(id), id, reads);
}

/// Events are queued in the order in which they were read, whatever responses
/// arrive between them: after a run of events and responses the queue is what
/// it was, followed by the events of the run in their order. The stream takes
/// them from the front.
pub proof fn lemma_events_keep_their_order(state: ClientState, reads: Seq<ChannelRead>)
    requires
        state.epitaph is None,
        forall|i: int| 0 <= i < reads.len() ==> is_routed(#[trigger] reads[i]),
    ensures
        state.recv_all(reads).epitaph is None,
        state.recv_all(reads).events == state.events + events_of(reads),
    decreases reads.len(),
{
    if reads.len() > 0 {
        let before = reads.drop_last();
        assert forall|i: int| 0 <= i < before.len() implies is_routed(#[trigger] before[i]) by {
            assert(before[i] == reads[i]);
        }
        lemma_events_keep_their_order(state, before);
        assert(is_routed(reads[reads.len() - 1]));
        assert(state.recv_all(reads).events =~= state.events + events_of(reads));
    } else {
        assert(state.events =~= state.events + events_of(reads));
    }
}

/// A poll of the stream yields the oldest event and leaves the others in
/// their order, also where the channel is closed by then.
pub proof fn lemma_stream_yields_oldest_event(
    state: ClientState,
    epitaph: Option<Status>,
)
    requires
        state.events.len() > 0,
    ensures
        spec_event_poll(state.event_poll(Ok(epitaph))) == Poll::Ready(
            Some(Ok::<Vec<u8>, Error>(state.events[0])),
        ),
        spec_event_state(state.event_poll(Ok(epitaph)))
            == EventReceiverState::Active,
        state.take_event(Ok(epitaph)).events == state.events.drop_first(),
{
}

/// An epitaph closes the client for everyone: the pass that reads it ends
/// with its status and resumes every waiting call and the listener, and
/// afterwards every call without a response and the stream of events, once
/// the queue is empty, get the closed channel with that status.
pub proof fn lemma_epitaph_reaches_every_caller(
    state: ClientState,
    message: Vec<u8>,
    status: Status,
    id: InterestId,
)
    requires
        state.epitaph is None,
        spec_classify(message@) == Incoming::Epitaph(status),
    ensures
        ({
            let read = ChannelRead::Message(message);
            let closed = state.recv(read);
            let error = Error::ClientChannelClosed { status, service_name: state.service_name };
            &&& closed.epitaph == Some(status)
            &&& state.recv_result(read) == Some(Ok::<Option<Status>, Error>(Some(status)))
            &&& state.recv_wakes(read) == state.registry.waiting() + state.listener_token()
            &&& closed.events == state.events
            &&& closed.registry.contains(id.0) == state.registry.contains(id.0)
            &&& closed.has_response(id) == state.has_response(id)
            &&& !state.has_response(id) ==> closed.response_poll(id, Ok(closed.epitaph))
                == Poll::Ready(Err::<Vec<u8>, Error>(error))
            &&& state.events.len() == 0 ==> closed.event_poll(Ok(closed.epitaph))
                == Poll::Ready(Err::<Vec<u8>, Error>(error))
        }),
{
}

/// The epitaph is written once: a closed client stays as it is whatever is
/// read, every pass ends with the status that closed it, and nobody is
/// resumed again.
pub proof fn lemma_epitaph_is_final(state: ClientState, reads: Seq<ChannelRead>, read: ChannelRead)
    requires
        state.epitaph is Some,
    ensures
        state.recv_all(reads) == state,
        state.recv(read) == state,
        state.recv_result(read) == Some(Ok::<Option<Status>, Error>(state.epitaph)),
        state.recv_wakes(read) == Seq::<ResumeToken>::empty(),
    decreases reads.len(),
{
    if reads.len() > 0 {
        lemma_epitaph_is_final(state, reads.drop_last(), reads.last());
    }
}

/// A stream that met an epitaph yields it once and ends with the next poll: a
/// status other than that of a closed peer, found with an empty queue, is
/// yielded as the error of a closed channel, and leaves the stream in the
/// state from which the next poll gives the end.
pub proof fn lemma_stream_yields_epitaph_once(
    state: ClientState,
    status: Status,
)
    requires
        state.epitaph == Some(status),
        !status.is_peer_closed(),
        state.events.len() == 0,
    ensures
        spec_event_poll(state.event_poll(Ok(state.epitaph))) == Poll::Ready(
            Some(
                Err::<Vec<u8>, Error>(
                    Error::ClientChannelClosed { status, service_name: state.service_name },
                ),
            ),
        ),
        spec_event_state(state.event_poll(Ok(state.epitaph)))
            == EventReceiverState::Epitaph,
        state.take_event(Ok(state.epitaph)) == state,
{
}

/// A channel that was closed without an epitaph ends the stream of events: the
/// read that finds the peer closed closes the client with that status, and
/// the stream, once the queue is empty, yields its end. A stream that is taken
/// afterwards finds the same.
pub proof fn lemma_closed_channel_ends_stream(
    state: ClientState,
    status: Status,
    token: ResumeToken,
)
    requires
        state.epitaph is None,
        state.events.len() == 0,
        status.is_peer_closed(),
    ensures
        ({
            let closed = state.recv(ChannelRead::Failed(status));
            let again = closed.release_listener().claim_events().await_event(token);
            &&& closed.epitaph == Some(status)
            &&& state.recv_result(ChannelRead::Failed(status)) == Some(
                Ok::<Option<Status>, Error>(Some(status)),
            )
            &&& spec_event_poll(closed.event_poll(Ok(closed.epitaph)))
                == Poll::Ready(None::<Result<Vec<u8>, Error>>)
            &&& spec_event_state(closed.event_poll(Ok(closed.epitaph)))
                == EventReceiverState::Terminated
            &&& again.epitaph == Some(status)
            &&& spec_event_poll(again.event_poll(Ok(again.epitaph)))
                == Poll::Ready(None::<Result<Vec<u8>, Error>>)
            &&& spec_event_state(again.event_poll(Ok(again.epitaph)))
                == EventReceiverState::Terminated
        }),
{
}

/// After the receiver of the events was dropped another can be taken, and it
/// sees the events that arrive afterwards: the event read next is last in the
/// queue, and is what the stream yields where the queue was empty.
pub proof fn lemma_receiver_can_be_taken_again(
    state: ClientState,
    event: Vec<u8>,
    token: ResumeToken,
)
    requires
        state.epitaph is None,
        spec_classify(event@) is Event,
    ensures
        ({
            let released = state.release_listener();
            let taken = released.claim_events();
            let after = taken.await_event(token).recv(ChannelRead::Message(event));
            &&& released.listener == EventListener::Nobody
            &&& taken.listener == EventListener::WillPoll
            &&& after.events == state.events.push(event)
            &&& taken.await_event(token).recv_wakes(ChannelRead::Message(event)) == seq![token]
            &&& state.events.len() == 0 ==> after.event_poll(Ok(None))
                == Poll::Ready(Ok::<Vec<u8>, Error>(event))
        }),
{
}

/// An event that arrives while nobody listens is kept: a receiver that is
/// taken later finds it at the end of the queue.
pub proof fn lemma_event_without_listener_is_kept(state: ClientState, event: Vec<u8>)
    requires
        state.epitaph is None,
        state.listener == EventListener::Nobody,
        spec_classify(event@) is Event,
    ensures
        state.recv(ChannelRead::Message(event)).events == state.events.push(event),
        state.recv(ChannelRead::Message(event)).listener == EventListener::Nobody,
        state.recv(ChannelRead::Message(event)).claim_events().events == state.events.push(event),
        state.recv_wakes(ChannelRead::Message(event)) == Seq::<ResumeToken>::empty(),
{
}

} // verus!
