//! The client: many callers share one channel.
//!
//! Some callers send a call and wait for its response, some send a one-way
//! message, and the peer may send events that belong to no call. One routine
//! reads the channel for all of them. The client here is that routine's
//! decisions and the state they work on: the interest registry, the queue of
//! events with its listener, and the epitaph. Reading and writing the channel
//! is left to the caller, who hands each read to [`Client::recv_next`] and
//! writes what the send functions return.

use crate::encoding::{
    decode_epitaph_body, decode_transaction_header, encode_transaction, spec_decode_epitaph_body,
    spec_header_of, spec_message, TransactionHeader, HEADER_SIZE,
};
use crate::error::Error;
use crate::interest::{MessageInterest, ResumeToken};
use crate::registry::{InterestRegistry, RegistryState};
use crate::status::{Status, ZX_ERR_PEER_CLOSED};
use crate::txid::{InterestId, Txid};
use std::collections::VecDeque;
use vstd::prelude::*;

pub mod event;
pub mod laws;
pub mod response;
pub mod sync;

verus! {

/// Who listens for events.
#[derive(Debug, Clone, Copy, PartialEq, Eq, Structural)]
pub enum EventListener {
    /// No one is listening for events.
    Nobody,
    /// Someone is listening for events but has not yet polled.
    WillPoll,
    /// Someone is listening for events and is resumed with the token.
    Waiting(ResumeToken),
}

/// What one non-blocking receive on the channel gave.
#[derive(Debug, PartialEq, Eq)]
pub enum ChannelRead {
    /// Nothing is there to read now.
    Pending,
    /// One whole message.
    Message(Vec<u8>),
    /// The receive failed with this status. The status of a closed peer means
    /// that the channel was closed in good order.
    Failed(Status),
}

/// What a message is to the client, as far as its header tells.
#[derive(Debug, PartialEq, Eq)]
pub enum Incoming {
    /// The message cannot be read, for the reason given.
    Invalid(Error),
    /// An epitaph that carries a status.
    Epitaph(Status),
    /// An event.
    Event,
    /// The response to the call with this interest id.
    Response(InterestId),
}

/// How a pass over the channel ends: with the status that closed the channel,
/// with nothing more to read for now, or with the error that stopped it.
pub type RecvResult = Result<Option<Status>, Error>;

/// What became of one read.
#[derive(Debug, PartialEq, Eq)]
pub struct RecvStep {
    /// The tasks to resume, in this order.
    pub wake: Vec<ResumeToken>,
    /// How the pass ends, if this read ends it. Without a result the caller
    /// reads on.
    pub result: Option<RecvResult>,
}

/// What to do at the start of each round of a pass over the channel.
#[derive(Debug, PartialEq, Eq)]
pub enum RecvBegin {
    /// The channel is closed with this status: the pass ends with it, and
    /// nothing is read.
    Closed(Status),
    /// Receive once without blocking. If nothing is there, the channel is to
    /// resume the task with this token when something comes; without a token
    /// nobody waits.
    Receive(Option<ResumeToken>),
}

/// What a poll gave: a value, or nothing yet.
#[derive(Debug, PartialEq, Eq)]
pub enum Poll<T> {
    /// The value is there.
    Ready(T),
    /// The value is not there yet: the task is resumed when to poll again.
    Pending,
}

/// What `message` is to the client.
pub open spec fn spec_classify(message: Seq<u8>) -> Incoming {
    if message.len() < HEADER_SIZE {
        Incoming::Invalid(Error::InvalidHeader)
    } else {
        let header = spec_header_of(message);
        let body = message.subrange(HEADER_SIZE as int, message.len() as int);
        if !header.is_compatible() {
            Incoming::Invalid(Error::IncompatibleMagicNumber(header.magic_number))
        } else if header.is_epitaph() {
            match spec_decode_epitaph_body(body) {
                Ok(status) => Incoming::Epitaph(status),
                Err(e) => Incoming::Invalid(e),
            }
        } else if header.tx_id == 0 {
            Incoming::Event
        } else {
            Incoming::Response(InterestId::spec_from_txid(Txid(header.tx_id)))
        }
    }
}

/// Reads the header of `message` and says what the message is to the client.
pub fn classify(message: &[u8]) -> (incoming: Incoming)
    ensures
        incoming == spec_classify(message@),
{
    match decode_transaction_header(message) {
        Err(_) => Incoming::Invalid(Error::InvalidHeader),
        Ok((header, body)) => {
            if !header.is_compatible() {
                Incoming::Invalid(Error::IncompatibleMagicNumber(header.magic_number()))
            } else if header.is_epitaph() {
                match decode_epitaph_body(body) {
                    Ok(status) => Incoming::Epitaph(status),
                    Err(e) => Incoming::Invalid(e),
                }
            } else if header.tx_id() == 0 {
                Incoming::Event
            } else {
                Incoming::Response(InterestId::from_txid(Txid(header.tx_id())))
            }
        },
    }
}

/// What a client holds.
pub struct ClientState {
    /// The outstanding calls.
    pub registry: RegistryState,
    /// Who listens for events.
    pub listener: EventListener,
    /// The events that were received and not yet taken, oldest first.
    pub events: Seq<Vec<u8>>,
    /// The status that closed the channel, once it is closed.
    pub epitaph: Option<Status>,
    /// The name of the service that the client talks to.
    pub service_name: &'static str,
}

impl ClientState {
    /// The token of the listener, if one waits.
    pub open spec fn listener_token(self) -> Seq<ResumeToken> {
        match self.listener {
            EventListener::Waiting(token) => seq![token],
            _ => Seq::empty(),
        }
    }

    /// The token of some task that has polled and waits: that of the call
    /// under the least key, or else that of the listener.
    pub open spec fn pending_waker(self) -> Option<ResumeToken> {
        match self.registry.first_waiting() {
            Some(token) => Some(token),
            None => match self.listener {
                EventListener::Waiting(token) => Some(token),
                _ => None,
            },
        }
    }

    /// The client after the channel was closed with `status`: every waiting
    /// call is back in the state of a call that has not polled.
    pub open spec fn close(self, status: Status) -> ClientState {
        ClientState { registry: self.registry.wake_all(), epitaph: Some(status), ..self }
    }

    /// The tasks that are resumed when the channel is closed: those of all
    /// waiting calls by ascending key, then the listener.
    pub open spec fn close_wakes(self) -> Seq<ResumeToken> {
        self.registry.waiting() + self.listener_token()
    }

    /// The client after the event `message` arrived: the event is last in the
    /// queue, and a listener that waited is back in the state of one that has
    /// not polled.
    pub open spec fn push_event(self, message: Vec<u8>) -> ClientState {
        ClientState {
            events: self.events.push(message),
            listener: match self.listener {
                EventListener::Waiting(_) => EventListener::WillPoll,
                other => other,
            },
            ..self
        }
    }

    /// The client after the response `message` arrived for the call `id`.
    pub open spec fn deliver(self, id: InterestId, message: Vec<u8>) -> ClientState {
        ClientState { registry: self.registry.deliver(id.0, message), ..self }
    }

    /// The client after one read, where the channel was not closed before.
    pub open spec fn route(self, read: ChannelRead) -> ClientState {
        match read {
            ChannelRead::Pending => self,
            ChannelRead::Failed(status) => if status.is_peer_closed() {
                self.close(status)
            } else {
                self
            },
            ChannelRead::Message(message) => match spec_classify(message@) {
                Incoming::Invalid(_) => self,
                Incoming::Epitaph(status) => self.close(status),
                Incoming::Event => self.push_event(message),
                Incoming::Response(id) => self.deliver(id, message),
            },
        }
    }

    /// The tasks to resume after one read, where the channel was not closed
    /// before.
    pub open spec fn route_wakes(self, read: ChannelRead) -> Seq<ResumeToken> {
        match read {
            ChannelRead::Pending => Seq::empty(),
            ChannelRead::Failed(status) => if status.is_peer_closed() {
                self.close_wakes()
            } else {
                Seq::empty()
            },
            ChannelRead::Message(message) => match spec_classify(message@) {
                Incoming::Invalid(_) => Seq::empty(),
                Incoming::Epitaph(_) => self.close_wakes(),
                Incoming::Event => self.listener_token(),
                Incoming::Response(id) => match self.registry.waiter(id.0) {
                    Some(token) => seq![token],
                    None => Seq::empty(),
                },
            },
        }
    }

    /// How the pass ends after one read, where the channel was not closed
    /// before; `None` where it goes on.
    pub open spec fn route_result(self, read: ChannelRead) -> Option<RecvResult> {
        match read {
            ChannelRead::Pending => Some(Ok(None)),
            ChannelRead::Failed(status) => if status.is_peer_closed() {
                Some(Ok(Some(status)))
            } else {
                Some(Err(Error::ClientRead(status)))
            },
            ChannelRead::Message(message) => match spec_classify(message@) {
                Incoming::Invalid(e) => Some(Err(e)),
                Incoming::Epitaph(status) => Some(Ok(Some(status))),
                Incoming::Event => None,
                Incoming::Response(_) => None,
            },
        }
    }

    /// The client after one read. Once the channel is closed nothing changes
    /// any more.
    pub open spec fn recv(self, read: ChannelRead) -> ClientState {
        if self.epitaph is Some {
            self
        } else {
            self.route(read)
        }
    }

    /// The tasks to resume after one read.
    pub open spec fn recv_wakes(self, read: ChannelRead) -> Seq<ResumeToken> {
        if self.epitaph is Some {
            Seq::empty()
        } else {
            self.route_wakes(read)
        }
    }

    /// How the pass ends after one read; `None` where it goes on. Once the
    /// channel is closed every pass ends with the status that closed it.
    pub open spec fn recv_result(self, read: ChannelRead) -> Option<RecvResult> {
        if self.epitaph is Some {
            Some(Ok(self.epitaph))
        } else {
            self.route_result(read)
        }
    }
}

/// The shared state of a client: the outstanding calls, the events and their
/// listener, and the epitaph.
pub struct Client {
    /// The outstanding calls, each under its interest id.
    message_interests: InterestRegistry,
    /// Who listens for events.
    listener: EventListener,
    /// The events that were received and not yet taken.
    queue: VecDeque<Vec<u8>>,
    /// The status that closed the channel, once it is closed.
    epitaph: Option<Status>,
    /// The name of the service that this client talks to.
    service_name: &'static str,
}

impl View for Client {
    type V = ClientState;

    closed spec fn view(&self) -> ClientState {
        ClientState {
            registry: self.message_interests@,
            listener: self.listener,
            events: self.queue@,
            epitaph: self.epitaph,
            service_name: self.service_name,
        }
    }
}

impl Client {
    /// Create a new client for the service `service_name`: no call is
    /// outstanding, nobody listens for events, none has come, and the channel
    /// is open. The first call will get the transaction id 1.
    pub fn new(service_name: &'static str) -> (client: Client)
        ensures
            client@.registry.entries == Map::<usize, MessageInterest>::empty(),
            client@.registry.vacant_key == 0,
            client@.registry.slots == 0,
            client@.registry.wf(),
            client@.listener == EventListener::Nobody,
            client@.events == Seq::<Vec<u8>>::empty(),
            client@.epitaph == None::<Status>,
            client@.service_name == service_name,
    {
        Client {
            message_interests: InterestRegistry::new(),
            listener: EventListener::Nobody,
            queue: VecDeque::new(),
            epitaph: None,
            service_name,
        }
    }

    /// The name of the service that this client talks to.
    pub fn service_name(&self) -> (name: &'static str)
        ensures
            name == self@.service_name,
    {
        self.service_name
    }

    /// The status that closed the channel, once it is closed.
    pub fn epitaph(&self) -> (epitaph: Option<Status>)
        ensures
            epitaph == self@.epitaph,
    {
        self.epitaph
    }

    /// Who listens for events.
    pub fn listener(&self) -> (listener: EventListener)
        ensures
            listener == self@.listener,
    {
        self.listener
    }

    /// The number of events that were received and not yet taken.
    pub fn queued_events(&self) -> (n: usize)
        ensures
            n == self@.events.len(),
    {
        self.queue.len()
    }

    /// Whether a slot is kept for the call `id`.
    pub fn is_registered(&self, id: InterestId) -> (registered: bool)
        ensures
            registered == self@.registry.contains(id.0),
    {
        self.message_interests.contains(id.0)
    }

    /// Whether the next call can be registered: its interest id must have a
    /// transaction id, which has 32 bits. It can while fewer slots were made
    /// than there are transaction ids.
    pub fn can_register(&self) -> (can: bool)
        ensures
            can == (self@.registry.vacant_key < u32::MAX),
            self@.registry.slots < u32::MAX ==> can,
    {
        self.message_interests.vacant_key() < u32::MAX as usize
    }

    /// Registers interest in a response message.
    ///
    /// The id returned belongs to no other outstanding call. Its slot starts
    /// as that of a call whose task has not polled. The slot of a call that
    /// has ended is used again before another is made; where one is made, the
    /// next call gets the id after it.
    pub fn register_msg_interest(&mut self) -> (id: InterestId)
        ensures
            id.0 == old(self)@.registry.vacant_key,
            old(self)@.registry.registers(final(self)@.registry),
            final(self)@ == (ClientState { registry: final(self)@.registry, ..old(self)@ }),
    {
        InterestId(self.message_interests.register())
    }

    /// Gives up the call `id`. Where its response has arrived, the slot is
    /// freed. Where it has not, the slot is kept and marked, so that the
    /// response is dropped when it arrives and cannot reach a later call that
    /// got the same id.
    pub fn deregister_msg_interest(&mut self, id: InterestId)
        requires
            old(self)@.registry.contains(id.0),
        ensures
            final(self)@ == old(self)@.deregister(id),
    {
        self.message_interests.deregister(id.0);
    }

    /// Gets the token of an arbitrary task that has polled on this client and
    /// has not yet gotten a response: a call's before the listener's, and of
    /// the calls the one with the least id.
    pub fn get_pending_waker(&self) -> (token: Option<ResumeToken>)
        ensures
            token == self@.pending_waker(),
    {
        match self.message_interests.first_waiting() {
            Some(token) => Some(token),
            None => match self.listener {
                EventListener::Waiting(token) => Some(token),
                _ => None,
            },
        }
    }

    /// Resumes all tasks that have polled on this client: returns their
    /// tokens, those of the calls by ascending id and then the listener's. A
    /// call that was waiting is afterwards one that has not polled; the
    /// listener stays as it is.
    pub fn wake_all(&mut self) -> (wake: Vec<ResumeToken>)
        ensures
            final(self)@ == (ClientState {
                registry: old(self)@.registry.wake_all(),
                ..old(self)@
            }),
            wake@ == old(self)@.close_wakes(),
    {
        let mut wake = self.message_interests.wake_all();
        match self.listener {
            EventListener::Waiting(token) => {
                wake.push(token);
            },
            _ => {},
        }
        assert(wake@ =~= old(self)@.close_wakes());
        wake
    }

    /// Says how a round of a pass over the channel starts: once the channel is
    /// closed nothing is read any more, else one receive is due.
    pub fn recv_begin(&self) -> (begin: RecvBegin)
        ensures
            begin == match self@.epitaph {
                Some(status) => RecvBegin::Closed(status),
                None => RecvBegin::Receive(self@.pending_waker()),
            },
    {
        match self.epitaph {
            Some(status) => RecvBegin::Closed(status),
            None => RecvBegin::Receive(self.get_pending_waker()),
        }
    }

    /// Takes one read of the channel and routes it.
    ///
    /// Nothing to read ends the pass. A closed peer closes the client with
    /// the status of a closed peer, resumes everyone, and ends the pass; any
    /// other failure ends the pass with a read error and changes nothing. A
    /// message that is too short for a header, or that has another magic
    /// number, or an epitaph whose body is malformed, ends the pass with that
    /// error and changes nothing. An epitaph closes the client with its
    /// status, resumes everyone, and ends the pass. An event goes to the end
    /// of the queue, and a listener that waits is resumed. A response goes to
    /// the slot of its call, whose task is resumed if it waits; it is dropped
    /// if the call was given up, which frees the slot, or if no slot is there.
    /// After an event or a response the pass goes on.
    pub fn recv_next(&mut self, read: ChannelRead) -> (step: RecvStep)
        ensures
            final(self)@ == old(self)@.recv(read),
            step.wake@ == old(self)@.recv_wakes(read),
            step.result == old(self)@.recv_result(read),
    {
        if self.epitaph.is_some() {
            return RecvStep { wake: Vec::new(), result: Some(Ok(self.epitaph)) };
        }
        match read {
            ChannelRead::Pending => RecvStep { wake: Vec::new(), result: Some(Ok(None)) },
            ChannelRead::Failed(status) => {
                if status.is_peer_closed() {
                    self.epitaph = Some(status);
                    let wake = self.wake_all();
                    RecvStep { wake, result: Some(Ok(Some(status))) }
                } else {
                    RecvStep { wake: Vec::new(), result: Some(Err(Error::ClientRead(status))) }
                }
            },
            ChannelRead::Message(message) => {
                match classify(message.as_slice()) {
                    Incoming::Invalid(e) => RecvStep { wake: Vec::new(), result: Some(Err(e)) },
                    Incoming::Epitaph(status) => {
                        self.epitaph = Some(status);
                        let wake = self.wake_all();
                        RecvStep { wake, result: Some(Ok(Some(status))) }
                    },
                    Incoming::Event => {
                        self.queue.push_back(message);
                        let mut wake: Vec<ResumeToken> = Vec::new();
                        match self.listener {
                            EventListener::Waiting(token) => {
                                self.listener = EventListener::WillPoll;
                                wake.push(token);
                            },
                            _ => {},
                        }
                        assert(wake@ =~= old(self)@.listener_token());
                        RecvStep { wake, result: None }
                    },
                    Incoming::Response(id) => {
                        let mut wake: Vec<ResumeToken> = Vec::new();
                        match self.message_interests.deliver(id.as_raw_id(), message) {
                            Some(token) => {
                                wake.push(token);
                            },
                            None => {},
                        }
                        assert(wake@ =~= old(self)@.route_wakes(read));
                        RecvStep { wake, result: None }
                    },
                }
            },
        }
    }
}

impl ClientState {
    /// The client after a task with the token `token` began to wait for the
    /// response of the call `id`.
    pub open spec fn await_response(self, id: InterestId, token: ResumeToken) -> ClientState {
        ClientState { registry: self.registry.await_response(id.0, token), ..self }
    }

    /// Whether the response of the call `id` is there to be taken.
    pub open spec fn has_response(self, id: InterestId) -> bool {
        self.registry.contains(id.0) && self.registry.entries[id.0] is Received
    }

    /// The response of the call `id` that is there to be taken, if one is.
    pub open spec fn stored_response(self, id: InterestId) -> Option<Vec<u8>> {
        if self.has_response(id) {
            Some(self.registry.entries[id.0]->Received_0)
        } else {
            None
        }
    }

    /// The client after the response of the call `id` was taken, where it was
    /// there: it has left its slot, which is free again.
    pub open spec fn take_response(self, id: InterestId) -> ClientState {
        if self.has_response(id) {
            ClientState { registry: self.registry.take(id.0), ..self }
        } else {
            self
        }
    }

    /// What a poll for the response of the call `id` gives after a pass over
    /// the channel that ended with `recv`. The response comes first, where it
    /// is there, however the pass ended. Else the error that stopped the pass
    /// goes to the poll. Else a closed channel is an error with the status
    /// that closed it. Else the poll is pending.
    pub open spec fn response_poll(self, id: InterestId, recv: RecvResult) -> Poll<
        Result<Vec<u8>, Error>,
    > {
        if self.has_response(id) {
            Poll::Ready(Ok(self.registry.entries[id.0]->Received_0))
        } else {
            match recv {
                Err(e) => Poll::Ready(Err(e)),
                Ok(Some(status)) => Poll::Ready(
                    Err(Error::ClientChannelClosed { status, service_name: self.service_name }),
                ),
                Ok(None) => Poll::Pending,
            }
        }
    }

    /// The client after the handle of the call `id` was polled and a pass over
    /// the channel ended with `recv`. A response that was yielded has left its
    /// slot, and a call that met the closed channel is given up: these are the
    /// two ways in which a call ends. The error of a pass that failed is no
    /// end of the call, and changes nothing, and neither does a poll that is
    /// pending.
    pub open spec fn resolve_response(self, id: InterestId, recv: RecvResult) -> ClientState {
        if self.has_response(id) {
            self.take_response(id)
        } else if recv matches Ok(Some(_)) {
            self.deregister(id)
        } else {
            self
        }
    }

    /// The client after the handle of the query `id` was polled and a pass
    /// over the channel ended with `recv`: a response that was yielded has
    /// left its slot, and a query that ended with an error, of the channel or
    /// of the pass, is given up. A poll that is pending changes nothing.
    pub open spec fn resolve_query(self, id: InterestId, recv: RecvResult) -> ClientState {
        if self.has_response(id) {
            self.take_response(id)
        } else if recv matches Ok(None) {
            self
        } else {
            self.deregister(id)
        }
    }

    /// The client after a task with the token `token` began to wait for an
    /// event.
    pub open spec fn await_event(self, token: ResumeToken) -> ClientState {
        ClientState { listener: EventListener::Waiting(token), ..self }
    }

    /// What a poll for an event gives after a pass over the channel that ended
    /// with `recv`: the oldest event, before any word of a closed channel.
    pub open spec fn event_poll(self, recv: RecvResult) -> Poll<Result<Vec<u8>, Error>> {
        match recv {
            Err(e) => Poll::Ready(Err(e)),
            Ok(epitaph) => if self.events.len() > 0 {
                Poll::Ready(Ok(self.events[0]))
            } else {
                match epitaph {
                    Some(status) => Poll::Ready(
                        Err(Error::ClientChannelClosed { status, service_name: self.service_name }),
                    ),
                    None => Poll::Pending,
                }
            },
        }
    }

    /// The client after a poll for an event: an event that was taken has left
    /// the queue.
    pub open spec fn take_event(self, recv: RecvResult) -> ClientState {
        if recv is Ok && self.events.len() > 0 {
            ClientState { events: self.events.subrange(1, self.events.len() as int), ..self }
        } else {
            self
        }
    }

    /// The client after the call `id` was given up.
    pub open spec fn deregister(self, id: InterestId) -> ClientState {
        ClientState { registry: self.registry.deregister(id.0), ..self }
    }

    /// The client after the listener left.
    pub open spec fn release_listener(self) -> ClientState {
        ClientState { listener: EventListener::Nobody, ..self }
    }
}

/// The message of a call or of a one-way message: the header of the current
/// wire format with the transaction id and the ordinal, then the body.
pub open spec fn spec_request(tx_id: u32, ordinal: u64, body: Seq<u8>) -> Seq<u8> {
    spec_message(TransactionHeader::spec_new(tx_id, ordinal), body)
}

impl Client {
    /// Marks the events of this client as held by a listener that has not
    /// polled yet.
    pub(crate) fn claim_events(&mut self)
        requires
            old(self)@.listener == EventListener::Nobody,
        ensures
            final(self)@ == (ClientState { listener: EventListener::WillPoll, ..old(self)@ }),
    {
        self.listener = EventListener::WillPoll;
    }

    /// Builds a one-way message: the header with the transaction id zero and
    /// the ordinal, then the body. The caller writes it to the channel.
    pub fn send(&self, body: &[u8], ordinal: u64) -> (message: Vec<u8>)
        ensures
            message@ == spec_request(0, ordinal, body@),
    {
        encode_transaction(&TransactionHeader::new(0, ordinal), body)
    }

    /// Says what a write of a one-way message came to: a failed write is a
    /// write error with the status of the channel.
    pub fn send_raw_msg(&self, written: Result<(), Status>) -> (result: Result<(), Error>)
        ensures
            result == match written {
                Ok(()) => Ok::<(), Error>(()),
                Err(status) => Err(Error::ClientWrite(status)),
            },
    {
        match written {
            Ok(()) => Ok(()),
            Err(status) => Err(Error::ClientWrite(status)),
        }
    }

    /// Registers a call and has `msg_from_id` build its message for the
    /// transaction id that the call got. Returns that id with the message,
    /// which the caller writes to the channel, or the error of `msg_from_id`.
    /// The call stays registered either way.
    pub fn send_raw_query<F>(&mut self, msg_from_id: F) -> (result: Result<(Txid, Vec<u8>), Error>)
        where F: FnOnce(Txid) -> Result<Vec<u8>, Error>
        requires
            old(self)@.registry.vacant_key < u32::MAX,
            call_requires(
                msg_from_id,
                (Txid::spec_from_interest_id(InterestId(old(self)@.registry.vacant_key)),),
            ),
        ensures
            final(self)@ == (ClientState {
                registry: final(self)@.registry,
                ..old(self)@
            }),
            old(self)@.registry.registers(final(self)@.registry),
            match result {
                Ok((txid, message)) => {
                    &&& txid == Txid::spec_from_interest_id(
                        InterestId(old(self)@.registry.vacant_key),
                    )
                    &&& call_ensures(msg_from_id, (txid,), Ok::<Vec<u8>, Error>(message))
                },
                Err(e) => call_ensures(
                    msg_from_id,
                    (Txid::spec_from_interest_id(InterestId(old(self)@.registry.vacant_key)),),
                    Err::<Vec<u8>, Error>(e),
                ),
            },
    {
        let id = self.register_msg_interest();
        let txid = Txid::from_interest_id(id);
        match msg_from_id(txid) {
            Ok(message) => Ok((txid, message)),
            Err(e) => Err(e),
        }
    }

    /// Registers a call and builds its message: the header with the
    /// transaction id that the call got and the ordinal, then the body. The
    /// caller writes the message to the channel.
    pub fn call_send_raw_query(&mut self, body: &[u8], ordinal: u64) -> (query: (Txid, Vec<u8>))
        requires
            old(self)@.registry.vacant_key < u32::MAX,
        ensures
            final(self)@ == (ClientState {
                registry: final(self)@.registry,
                ..old(self)@
            }),
            old(self)@.registry.registers(final(self)@.registry),
            query.0.0 == old(self)@.registry.vacant_key + 1,
            query.1@ == spec_request(query.0.0, ordinal, body@),
    {
        let id = self.register_msg_interest();
        let txid = Txid::from_interest_id(id);
        let message = encode_transaction(&TransactionHeader::new(txid.as_raw_id(), ordinal), body);
        (txid, message)
    }

    /// Registers a call and builds its message, as
    /// [`Client::call_send_raw_query`] does.
    pub fn send_query(&mut self, body: &[u8], ordinal: u64) -> (query: (Txid, Vec<u8>))
        requires
            old(self)@.registry.vacant_key < u32::MAX,
        ensures
            final(self)@ == (ClientState {
                registry: final(self)@.registry,
                ..old(self)@
            }),
            old(self)@.registry.registers(final(self)@.registry),
            query.0.0 == old(self)@.registry.vacant_key + 1,
            query.1@ == spec_request(query.0.0, ordinal, body@),
    {
        self.call_send_raw_query(body, ordinal)
    }

    /// Registers a call and builds its message, where the table of calls has
    /// room for one more; where it has none, nothing changes.
    pub fn try_send_query(&mut self, body: &[u8], ordinal: u64) -> (query: Option<(Txid, Vec<u8>)>)
        ensures
            match query {
                Some((txid, message)) => {
                    &&& old(self)@.registry.vacant_key < u32::MAX
                    &&& final(self)@ == (ClientState {
                        registry: final(self)@.registry,
                        ..old(self)@
                    })
                    &&& old(self)@.registry.registers(final(self)@.registry)
                    &&& txid.0 == old(self)@.registry.vacant_key + 1
                    &&& message@ == spec_request(txid.0, ordinal, body@)
                },
                None => old(self)@.registry.vacant_key >= u32::MAX && final(self)@ == old(self)@,
            },
    {
        if self.can_register() {
            Some(self.send_query(body, ordinal))
        } else {
            None
        }
    }

    /// Says what a failed write of a call's message came to. A closed peer
    /// may have left an epitaph: then there is no error yet, and the caller
    /// makes a pass over the channel and asks [`Client::closed_on_write`]. Any
    /// other failure is a write error with the status of the channel.
    pub fn write_failed(&self, status: Status) -> (error: Option<Error>)
        ensures
            error == if status.is_peer_closed() {
                None::<Error>
            } else {
                Some(Error::ClientWrite(status))
            },
    {
        if status.is_peer_closed() {
            None
        } else {
            Some(Error::ClientWrite(status))
        }
    }

    /// The error of a call whose message met a closed peer, after a pass over
    /// the channel that ended with `recv`: the closed channel with the status
    /// that closed it, or a write error with the status of a closed peer where
    /// the pass found the channel open, or the error that stopped the pass.
    pub fn closed_on_write(&self, recv: RecvResult) -> (error: Error)
        ensures
            error == match recv {
                Ok(Some(status)) => Error::ClientChannelClosed {
                    status,
                    service_name: self@.service_name,
                },
                Ok(None) => Error::ClientWrite(Status { raw: ZX_ERR_PEER_CLOSED }),
                Err(e) => e,
            },
    {
        match recv {
            Ok(Some(status)) => Error::ClientChannelClosed {
                status,
                service_name: self.service_name,
            },
            Ok(None) => Error::ClientWrite(Status::from_raw(ZX_ERR_PEER_CLOSED)),
            Err(e) => e,
        }
    }

    /// Stores the token of the task that polls for the response of the call
    /// `id`, in place of any earlier one, unless the response is there.
    pub fn await_response(&mut self, id: InterestId, token: ResumeToken)
        requires
            old(self)@.registry.contains(id.0),
        ensures
            final(self)@ == old(self)@.await_response(id, token),
    {
        self.message_interests.await_response(id.0, token);
    }

    /// Takes the response of the call `id` where it is there already, and
    /// frees its slot. Where it is not, nothing changes.
    pub fn take_stored_response(&mut self, id: InterestId) -> (message: Option<Vec<u8>>)
        requires
            old(self)@.registry.contains(id.0),
        ensures
            message == old(self)@.stored_response(id),
            final(self)@ == old(self)@.take_response(id),
    {
        self.message_interests.take_received(id.0)
    }

    /// Ends a poll for the response of the call `id`, after a pass over the
    /// channel that ended with `recv`.
    ///
    /// The response is taken where it is there, however the pass ended, and
    /// its slot is freed. Else the error that stopped the pass goes to this
    /// poll. Else a closed channel is an error with the status that closed it.
    /// Else the poll is pending.
    pub fn take_response(&mut self, id: InterestId, recv: RecvResult) -> (poll: Poll<
        Result<Vec<u8>, Error>,
    >)
        requires
            old(self)@.registry.contains(id.0),
        ensures
            poll == old(self)@.response_poll(id, recv),
            final(self)@ == old(self)@.take_response(id),
    {
        match self.message_interests.take_received(id.0) {
            Some(message) => Poll::Ready(Ok(message)),
            None => match recv {
                Err(e) => Poll::Ready(Err(e)),
                Ok(Some(status)) => Poll::Ready(
                    Err(Error::ClientChannelClosed { status, service_name: self.service_name }),
                ),
                Ok(None) => Poll::Pending,
            },
        }
    }

    /// Stores the token of the task that polls for an event, in place of any
    /// earlier state of the listener.
    pub fn await_event(&mut self, token: ResumeToken)
        ensures
            final(self)@ == old(self)@.await_event(token),
    {
        self.listener = EventListener::Waiting(token);
    }

    /// Ends a poll for an event, after a pass over the channel that ended
    /// with `recv`.
    ///
    /// The error that stopped the pass goes to this poll. Else the oldest
    /// event is taken where the queue holds one. Else a closed channel is an
    /// error with the status that closed it. Else the poll is pending.
    pub fn take_event(&mut self, recv: RecvResult) -> (poll: Poll<Result<Vec<u8>, Error>>)
        ensures
            poll == old(self)@.event_poll(recv),
            final(self)@ == old(self)@.take_event(recv),
    {
        match recv {
            Err(e) => Poll::Ready(Err(e)),
            Ok(epitaph) => {
                match self.queue.pop_front() {
                    Some(message) => Poll::Ready(Ok(message)),
                    None => match epitaph {
                        Some(status) => Poll::Ready(
                            Err(
                                Error::ClientChannelClosed {
                                    status,
                                    service_name: self.service_name,
                                },
                            ),
                        ),
                        None => Poll::Pending,
                    },
                }
            },
        }
    }

    /// Gives the events up: nobody listens any more, and another listener may
    /// take them.
    pub fn release_event_receiver(&mut self)
        ensures
            final(self)@ == old(self)@.release_listener(),
    {
        self.listener = EventListener::Nobody;
    }
}

} // verus!
