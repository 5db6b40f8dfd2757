//! The two handles of a call that waits for its response: the raw one, which
//! yields the response as it came, and the one that also splits the response
//! into header and body and remembers whether the call could be sent at all.
//!
//! A poll is made in two parts, with a pass over the channel between them.
//! The first part yields what is known already: a response that is in the
//! slot is returned without a pass. Else it stores the token of the polling
//! task, and the second part takes what the pass has brought.
//!
//! A call ends once: with its response, or with the closed channel. A handle
//! that has yielded either is completed, and fails when it is polled again.

use crate::client::{Client, ClientState, Poll, RecvResult};
use crate::encoding::{decode_transaction_header, spec_header_of, TransactionHeader, HEADER_SIZE};
use crate::error::Error;
use crate::interest::ResumeToken;
use crate::txid::{InterestId, Txid};
use vstd::prelude::*;

verus! {

/// What the second part of a poll of a call gives: the outcome of the poll,
/// and the token of a task to resume, if there is one.
pub type ResponsePoll<T> = (Poll<Result<T, Error>>, Option<ResumeToken>);

/// What the first part of a poll of a call gives where the poll is over at
/// once: what the poll yields, and the token of a task to resume, if there is
/// one.
pub type ReadyPoll<T> = (Result<T, Error>, Option<ResumeToken>);

/// The handle of a call that waits for its response.
#[derive(Debug)]
#[must_use]
pub struct MessageResponse {
    id: Txid,
    // set once the call has ended
    completed: bool,
}

impl MessageResponse {
    /// The transaction id of the call.
    pub closed spec fn txid(&self) -> Txid {
        self.id
    }

    /// Whether the call has ended: its response or the closed channel has
    /// been yielded.
    pub closed spec fn completed(&self) -> bool {
        self.completed
    }

    /// The interest id of the call.
    pub open spec fn interest_id(&self) -> InterestId {
        InterestId::spec_from_txid(self.txid())
    }

    /// Whether this handle belongs to a call of `client`: its transaction id
    /// is not zero, and until the call has ended it has a slot.
    pub open spec fn wf(&self, client: ClientState) -> bool {
        &&& self.txid().0 != 0
        &&& !self.completed() ==> client.registry.contains(self.interest_id().0)
    }

    /// The handle of the call that was sent with the transaction id `id`.
    pub fn new(id: Txid) -> (response: MessageResponse)
        requires
            id.0 != 0,
        ensures
            response.txid() == id,
            !response.completed(),
    {
        MessageResponse { id, completed: false }
    }

    /// The transaction id of the call.
    pub fn id(&self) -> (id: Txid)
        ensures
            id == self.txid(),
    {
        self.id
    }

    /// Whether the call has ended: its response or the closed channel has
    /// been yielded.
    pub fn is_completed(&self) -> (completed: bool)
        ensures
            completed == self.completed(),
    {
        self.completed
    }

    /// Whether this handle belongs to a call of `client`.
    pub fn belongs_to(&self, client: &Client) -> (belongs: bool)
        ensures
            belongs == self.wf(client@),
    {
        self.id.as_raw_id() != 0 && (self.completed || client.is_registered(
            InterestId::from_txid(self.id),
        ))
    }

    /// The first part of a poll. A handle that is completed fails at once, and
    /// nothing changes. A response that is in the slot already is yielded at
    /// once, without a pass over the channel: the slot is freed, the handle is
    /// completed, and some other task that waits is to be resumed, so that the
    /// channel keeps being read. Else the token of the polling task is stored
    /// in the slot of the call, nothing is yielded, and the caller goes on
    /// with a pass over the channel and [`MessageResponse::poll_end`].
    pub fn poll_begin(&mut self, client: &mut Client, token: ResumeToken) -> (ready: Option<
        ReadyPoll<Vec<u8>>,
    >)
        requires
            old(self).wf(old(client)@),
        ensures
            final(self).txid() == old(self).txid(),
            final(self).wf(final(client)@),
            if old(self).completed() {
                &&& ready == Some(
                    (Err::<Vec<u8>, Error>(Error::PollAfterCompletion), None::<ResumeToken>),
                )
                &&& final(self).completed()
                &&& final(client)@ == old(client)@
            } else {
                match old(client)@.stored_response(old(self).interest_id()) {
                    Some(message) => {
                        &&& ready == Some(
                            (Ok::<Vec<u8>, Error>(message), final(client)@.pending_waker()),
                        )
                        &&& final(self).completed()
                        &&& final(client)@ == old(client)@.take_response(old(self).interest_id())
                    },
                    None => {
                        &&& ready is None
                        &&& !final(self).completed()
                        &&& final(client)@ == old(client)@.await_response(
                            old(self).interest_id(),
                            token,
                        )
                    },
                }
            },
    {
        if self.completed {
            return Some((Err(Error::PollAfterCompletion), None));
        }
        let id = InterestId::from_txid(self.id);
        match client.take_stored_response(id) {
            Some(message) => {
                self.completed = true;
                let wake = client.get_pending_waker();
                Some((Ok(message), wake))
            },
            None => {
                client.await_response(id, token);
                None
            },
        }
    }

    /// The second part of a poll, after a pass over the channel that ended
    /// with `recv`.
    ///
    /// The response is yielded where it is there, however the pass ended: its
    /// slot is freed, and some other task that waits is to be resumed. Else
    /// the error that stopped the pass goes to this poll; the call goes on,
    /// and the handle can be polled again. Else the closed channel is
    /// yielded, as an error with the status that closed it, and the call is
    /// given up. Else the poll is pending. With the response or the closed
    /// channel the call has ended, and the handle is completed.
    pub fn poll_end(&mut self, client: &mut Client, recv: RecvResult) -> (out: ResponsePoll<
        Vec<u8>,
    >)
        requires
            !old(self).completed(),
            old(self).wf(old(client)@),
        ensures
            final(self).txid() == old(self).txid(),
            final(self).wf(final(client)@),
            out.0 == old(client)@.response_poll(old(self).interest_id(), recv),
            final(client)@ == old(client)@.resolve_response(old(self).interest_id(), recv),
            final(self).completed() == (old(client)@.has_response(old(self).interest_id())
                || recv matches Ok(Some(_))),
            out.1 == if old(client)@.has_response(old(self).interest_id()) {
                final(client)@.pending_waker()
            } else {
                None
            },
    {
        let id = InterestId::from_txid(self.id);
        let closed = match &recv {
            Ok(Some(_)) => true,
            _ => false,
        };
        match client.take_response(id, recv) {
            Poll::Ready(Ok(message)) => {
                self.completed = true;
                let wake = client.get_pending_waker();
                (Poll::Ready(Ok(message)), wake)
            },
            Poll::Ready(Err(e)) => {
                if closed {
                    self.completed = true;
                    client.deregister_msg_interest(id);
                }
                (Poll::Ready(Err(e)), None)
            },
            Poll::Pending => (Poll::Pending, None),
        }
    }

    /// Gives the call up, as when its handle is dropped. Unless the call has
    /// ended, its slot is freed or marked, and some other task that waits is
    /// to be resumed. Of a call that has ended nothing is left to give up.
    pub fn release(self, client: &mut Client) -> (wake: Option<ResumeToken>)
        requires
            self.wf(old(client)@),
        ensures
            final(client)@ == if self.completed() {
                old(client)@
            } else {
                old(client)@.deregister(self.interest_id())
            },
            wake == if self.completed() {
                None
            } else {
                final(client)@.pending_waker()
            },
    {
        if self.completed {
            None
        } else {
            client.deregister_msg_interest(InterestId::from_txid(self.id));
            client.get_pending_waker()
        }
    }
}

/// A response, split into its header and its body.
#[derive(Debug, PartialEq, Eq)]
pub struct TransactionBody {
    /// The header of the response.
    pub header: TransactionHeader,
    /// The bytes that follow the header.
    pub body: Vec<u8>,
}

/// Whether `decoded` is what the message `message` splits into: header and
/// body, or the error of a message that is too short for a header.
pub open spec fn spec_is_transaction_body(
    message: Seq<u8>,
    decoded: Result<TransactionBody, Error>,
) -> bool {
    match decoded {
        Ok(parts) => {
            &&& message.len() >= HEADER_SIZE
            &&& parts.header == spec_header_of(message)
            &&& parts.body@ == message.subrange(HEADER_SIZE as int, message.len() as int)
        },
        Err(e) => message.len() < HEADER_SIZE && e == Error::OutOfRange,
    }
}

/// Decodes the body of a transaction: splits the response into its header
/// and the bytes that follow it.
pub fn decode_transaction_body(buf: Vec<u8>) -> (decoded: Result<TransactionBody, Error>)
    ensures
        spec_is_transaction_body(buf@, decoded),
{
    match decode_transaction_header(buf.as_slice()) {
        Ok((header, body)) => Ok(TransactionBody { header, body: vstd::slice::slice_to_vec(body) }),
        Err(e) => Err(e),
    }
}

/// Decodes the body of a transaction and hands the outcome to `transform`.
pub fn decode_transaction_body_fut<T, F>(buf: Vec<u8>, transform: F) -> (result: Result<T, Error>)
    where F: FnOnce(Result<TransactionBody, Error>) -> Result<T, Error>
    requires
        forall|decoded: Result<TransactionBody, Error>|
            spec_is_transaction_body(buf@, decoded) ==> call_requires(transform, (decoded,)),
    ensures
        exists|decoded: Result<TransactionBody, Error>|
            spec_is_transaction_body(buf@, decoded) && call_ensures(
                transform,
                (decoded,),
                result,
            ),
{
    let decoded = decode_transaction_body(buf);
    transform(decoded)
}

/// The handle of a query: a call whose response is split into header and
/// body, with early word of a message that could not be sent.
#[derive(Debug)]
#[must_use]
pub enum QueryResponseFut {
    /// The call was sent and its response has not been yielded.
    Future(MessageResponse),
    /// The outcome is known and has not been yielded.
    Done(Result<TransactionBody, Error>),
    /// The outcome has been yielded.
    Gone,
}

impl QueryResponseFut {
    /// Whether this handle belongs to a call of `client`, as long as the call
    /// waits.
    pub open spec fn wf(&self, client: ClientState) -> bool {
        self matches QueryResponseFut::Future(response) ==> !response.completed() && response.wf(
            client,
        )
    }

    /// Whether this handle belongs to a call of `client`, as long as the call
    /// waits.
    pub fn belongs_to(&self, client: &Client) -> (belongs: bool)
        ensures
            belongs == self.wf(client@),
    {
        match self {
            QueryResponseFut::Future(response) => !response.is_completed() && response.belongs_to(
                client,
            ),
            _ => true,
        }
    }

    /// The handle of a query after its message was written: it waits for the
    /// response where the write succeeded, and holds the error where not.
    pub fn new(sent: Result<MessageResponse, Error>) -> (query: QueryResponseFut)
        ensures
            query == match sent {
                Ok(response) => QueryResponseFut::Future(response),
                Err(e) => QueryResponseFut::Done(Err(e)),
            },
    {
        match sent {
            Ok(response) => QueryResponseFut::Future(response),
            Err(e) => QueryResponseFut::Done(Err(e)),
        }
    }

    /// Whether the outcome has been yielded.
    pub fn is_terminated(&self) -> (terminated: bool)
        ensures
            terminated == (*self is Gone),
    {
        match self {
            QueryResponseFut::Gone => true,
            _ => false,
        }
    }

    /// Check to see if the query has an error. If there was an error sending,
    /// this returns it, otherwise it returns the handle, which can then be
    /// polled.
    pub fn check(self) -> (checked: Result<QueryResponseFut, Error>)
        ensures
            checked == match self {
                QueryResponseFut::Done(Err(e)) => Err::<QueryResponseFut, Error>(e),
                other => Ok(other),
            },
    {
        match self {
            QueryResponseFut::Done(Err(e)) => Err(e),
            other => Ok(other),
        }
    }

    /// The first part of a poll. An outcome that is known is yielded at once,
    /// and so is a response that is in the slot already, split into header and
    /// body: no pass over the channel is made for either. Else the token of
    /// the polling task is stored, nothing is yielded, and the caller goes on
    /// with a pass over the channel and [`QueryResponseFut::poll_end`]. To
    /// poll a handle whose outcome has been yielded is a violation of this
    /// contract.
    pub fn poll_begin(&mut self, client: &mut Client, token: ResumeToken) -> (ready: Option<
        ReadyPoll<TransactionBody>,
    >)
        requires
            !(*old(self) is Gone),
            old(self).wf(old(client)@),
        ensures
            final(self).wf(final(client)@),
            match *old(self) {
                QueryResponseFut::Future(response) => match old(client)@.stored_response(
                    response.interest_id(),
                ) {
                    Some(message) => {
                        &&& ready matches Some((decoded, wake))
                        &&& spec_is_transaction_body(message@, decoded)
                        &&& wake == final(client)@.pending_waker()
                        &&& *final(self) is Gone
                        &&& final(client)@ == old(client)@.take_response(response.interest_id())
                    },
                    None => {
                        &&& ready is None
                        &&& *final(self) == *old(self)
                        &&& final(client)@ == old(client)@.await_response(
                            response.interest_id(),
                            token,
                        )
                    },
                },
                QueryResponseFut::Done(outcome) => {
                    &&& ready == Some((outcome, None::<ResumeToken>))
                    &&& *final(self) is Gone
                    &&& final(client)@ == old(client)@
                },
                QueryResponseFut::Gone => false,
            },
    {
        let mut taken = QueryResponseFut::Gone;
        std::mem::swap(self, &mut taken);
        match taken {
            QueryResponseFut::Future(mut response) => {
                match response.poll_begin(client, token) {
                    Some((Ok(message), wake)) => Some((decode_transaction_body(message), wake)),
                    Some((Err(e), wake)) => Some((Err(e), wake)),
                    None => {
                        *self = QueryResponseFut::Future(response);
                        None
                    },
                }
            },
            QueryResponseFut::Done(outcome) => Some((outcome, None)),
            QueryResponseFut::Gone => None,
        }
    }

    /// The second part of a poll, after a pass over the channel that ended
    /// with `recv`. Where the response is there, it is split and yielded,
    /// however the pass ended. Else the error of the pass or the closed
    /// channel is yielded, and the call is given up. Else the call is still
    /// pending, and nothing changes. After an outcome was yielded, the handle
    /// yields no other, and some other task that waits is to be resumed.
    pub fn poll_end(&mut self, client: &mut Client, recv: RecvResult) -> (out: ResponsePoll<
        TransactionBody,
    >)
        requires
            *old(self) is Future,
            old(self).wf(old(client)@),
        ensures
            final(self).wf(final(client)@),
            final(client)@ == old(client)@.resolve_query(old(self)->Future_0.interest_id(), recv),
            match old(client)@.response_poll(old(self)->Future_0.interest_id(), recv) {
                Poll::Pending => {
                    &&& out.0 is Pending
                    &&& out.1 is None
                    &&& *final(self) == *old(self)
                },
                Poll::Ready(Ok(message)) => {
                    &&& out.0 matches Poll::Ready(decoded)
                    &&& spec_is_transaction_body(message@, decoded)
                    &&& *final(self) is Gone
                    &&& out.1 == final(client)@.pending_waker()
                },
                Poll::Ready(Err(e)) => {
                    &&& out.0 == Poll::Ready(Err::<TransactionBody, Error>(e))
                    &&& *final(self) is Gone
                    &&& out.1 == final(client)@.pending_waker()
                },
            },
    {
        let mut taken = QueryResponseFut::Gone;
        std::mem::swap(self, &mut taken);
        match taken {
            QueryResponseFut::Future(mut response) => {
                let (poll, wake) = response.poll_end(client, recv);
                match poll {
                    Poll::Pending => {
                        *self = QueryResponseFut::Future(response);
                        (Poll::Pending, None)
                    },
                    Poll::Ready(Ok(message)) => {
                        (Poll::Ready(decode_transaction_body(message)), wake)
                    },
                    Poll::Ready(Err(e)) => {
                        // the query is over: what is left of its call is given up
                        let wake = if response.is_completed() {
                            client.get_pending_waker()
                        } else {
                            response.release(client)
                        };
                        (Poll::Ready(Err(e)), wake)
                    },
                }
            },
            _ => (Poll::Pending, None),
        }
    }

    /// Gives the query up, as when its handle is dropped: a call that waits
    /// is given up, and some other task that waits is to be resumed.
    pub fn release(self, client: &mut Client) -> (wake: Option<ResumeToken>)
        requires
            self.wf(old(client)@),
        ensures
            match self {
                QueryResponseFut::Future(response) => {
                    &&& final(client)@ == old(client)@.deregister(response.interest_id())
                    &&& wake == final(client)@.pending_waker()
                },
                _ => final(client)@ == old(client)@ && wake is None,
            },
    {
        match self {
            QueryResponseFut::Future(response) => response.release(client),
            _ => None,
        }
    }
}

} // verus!
