//! The stream of the events that the peer sends.
//!
//! One receiver at a time holds the events of a client. It yields them oldest
//! first, whether or not it was there when they came. A closed channel ends
//! the stream: an epitaph is yielded once and the end of the stream next; a
//! channel that was closed without one gives the end of the stream at once.
//!
//! A poll is made in two parts, with a pass over the channel between them.

use crate::client::{Client, ClientState, EventListener, Poll, RecvResult};
use crate::error::Error;
use crate::interest::ResumeToken;
use vstd::prelude::*;

verus! {

/// Where a stream of events stands.
#[derive(Debug, Clone, Copy, PartialEq, Eq, Structural)]
pub enum EventReceiverState {
    /// The stream may yield more.
    Active,
    /// The epitaph was yielded: the next poll gives the end of the stream.
    Epitaph,
    /// The end of the stream was yielded.
    Terminated,
}

/// A stream of events, each as the message that came.
#[derive(Debug)]
pub struct EventReceiver {
    state: EventReceiverState,
}

/// What a poll of a stream of events gives: an event or an error, or the end
/// of the stream, or nothing yet.
pub type EventPoll = Poll<Option<Result<Vec<u8>, Error>>>;

/// Where the stream stands after a poll that found `poll` at the client.
pub open spec fn spec_event_state(poll: Poll<Result<Vec<u8>, Error>>) -> EventReceiverState {
    match poll {
        Poll::Ready(Err(Error::ClientChannelClosed { status, .. })) => if status.is_peer_closed() {
            EventReceiverState::Terminated
        } else {
            EventReceiverState::Epitaph
        },
        _ => EventReceiverState::Active,
    }
}

/// What the stream yields for a poll that found `poll` at the client: a
/// channel that was closed without an epitaph is the end of the stream, and
/// everything else is handed on.
pub open spec fn spec_event_poll(poll: Poll<Result<Vec<u8>, Error>>) -> EventPoll {
    match poll {
        Poll::Pending => Poll::Pending,
        Poll::Ready(Ok(message)) => Poll::Ready(Some(Ok(message))),
        Poll::Ready(Err(e)) => if spec_event_state(poll) == EventReceiverState::Terminated {
            Poll::Ready(None)
        } else {
            Poll::Ready(Some(Err(e)))
        },
    }
}

impl Client {
    /// Retrieve the stream of event messages for the client.
    ///
    /// Only one receiver may hold the events at a time: to take them while
    /// another holds them is a violation of this contract. Whether one holds
    /// them is what [`Client::listener`] tells.
    pub fn take_event_receiver(&mut self) -> (receiver: EventReceiver)
        requires
            old(self)@.listener == EventListener::Nobody,
        ensures
            receiver.state() == EventReceiverState::Active,
            final(self)@ == (ClientState { listener: EventListener::WillPoll, ..old(self)@ }),
    {
        self.claim_events();
        EventReceiver { state: EventReceiverState::Active }
    }
}

impl EventReceiver {
    /// Where the stream stands.
    pub closed spec fn state(&self) -> EventReceiverState {
        self.state
    }

    /// Whether the end of the stream was yielded.
    pub fn is_terminated(&self) -> (terminated: bool)
        ensures
            terminated == (self.state() == EventReceiverState::Terminated),
    {
        match self.state {
            EventReceiverState::Terminated => true,
            _ => false,
        }
    }

    /// The first part of a poll. After the epitaph the end of the stream is
    /// yielded at once. Else the token of the polling task is stored as the
    /// listener, nothing is yielded, and the caller goes on with a pass over
    /// the channel and [`EventReceiver::poll_next_end`]. To poll a stream
    /// after its end is a violation of this contract.
    pub fn poll_next_begin(&mut self, client: &mut Client, token: ResumeToken) -> (ready: Option<
        EventPoll,
    >)
        requires
            old(self).state() != EventReceiverState::Terminated,
        ensures
            match old(self).state() {
                EventReceiverState::Active => {
                    &&& ready is None
                    &&& final(self).state() == EventReceiverState::Active
                    &&& final(client)@ == old(client)@.await_event(token)
                },
                _ => {
                    &&& ready == Some(Poll::Ready(None::<Result<Vec<u8>, Error>>))
                    &&& final(self).state() == EventReceiverState::Terminated
                    &&& final(client)@ == old(client)@
                },
            },
    {
        match self.state {
            EventReceiverState::Active => {
                client.await_event(token);
                None
            },
            _ => {
                self.state = EventReceiverState::Terminated;
                Some(Poll::Ready(None))
            },
        }
    }

    /// The second part of a poll, after a pass over the channel that ended
    /// with `recv`. The oldest event is yielded where one is queued. Else a
    /// channel that was closed without an epitaph ends the stream, and one
    /// that was closed with an epitaph yields it and ends the stream at the
    /// next poll. The error that stopped the pass is yielded, and the stream
    /// goes on.
    pub fn poll_next_end(&mut self, client: &mut Client, recv: RecvResult) -> (poll: EventPoll)
        requires
            old(self).state() == EventReceiverState::Active,
        ensures
            final(client)@ == old(client)@.take_event(recv),
            poll == spec_event_poll(
                old(client)@.event_poll(recv),
            ),
            final(self).state() == spec_event_state(
                old(client)@.event_poll(recv),
            ),
    {
        match client.take_event(recv) {
            Poll::Pending => Poll::Pending,
            Poll::Ready(Ok(message)) => Poll::Ready(Some(Ok(message))),
            Poll::Ready(Err(Error::ClientChannelClosed { status, service_name })) => {
                if status.is_peer_closed() {
                    // The channel is closed, with no epitaph.
                    self.state = EventReceiverState::Terminated;
                    Poll::Ready(None)
                } else {
                    // The channel is closed with an epitaph: it is yielded now,
                    // and the end of the stream at the next poll.
                    self.state = EventReceiverState::Epitaph;
                    Poll::Ready(Some(Err(Error::ClientChannelClosed { status, service_name })))
                }
            },
            Poll::Ready(Err(e)) => Poll::Ready(Some(Err(e))),
        }
    }

    /// Gives the events up, as when the receiver is dropped: nobody listens
    /// any more, another receiver may be taken, and some task that waits is to
    /// be resumed.
    pub fn release(self, client: &mut Client) -> (wake: Option<ResumeToken>)
        ensures
            final(client)@ == old(client)@.release_listener(),
            wake == final(client)@.pending_waker(),
    {
        client.release_event_receiver();
        client.get_pending_waker()
    }
}

} // verus!
