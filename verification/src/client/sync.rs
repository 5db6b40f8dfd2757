//! The synchronous client: one call at a time, each with the same transaction
//! id, and no events.
//!
//! The caller writes what [`Client::send`] and [`Client::send_query`] leave in
//! the buffer, reads the channel once, waits and reads again where the first
//! read would block, and hands each outcome to the function that says how to
//! go on.

use crate::client::response::TransactionBody;
use crate::client::spec_request;
use crate::encoding::{
    decode_transaction_header, spec_header_of, TransactionHeader, HEADER_SIZE,
};
use crate::error::Error;
use crate::status::{Status, ZX_ERR_PEER_CLOSED, ZX_ERR_SHOULD_WAIT};
use vstd::prelude::*;

verus! {

/// The transaction id of every synchronous call.
pub const QUERY_TX_ID: u32 = 42;

/// How to go on after the first read for a response.
#[derive(Debug, PartialEq, Eq)]
pub enum FirstRead {
    /// The response is there: decode it.
    Decode,
    /// Nothing is there yet: wait until the channel is readable or closed.
    Wait,
    /// The read failed: the call fails with this error.
    Fail(Error),
}

/// How to go on after waiting for the channel.
#[derive(Debug, PartialEq, Eq)]
pub enum Waited {
    /// The channel is readable: read again.
    ReadAgain,
    /// The call fails with this error.
    Fail(Error),
}

/// A synchronous client for making calls.
#[derive(Debug)]
pub struct Client {
    // Reusable byte buffer for writes.
    buf_bytes: Vec<u8>,
}

/// What the response `message` to a synchronous call with the ordinal
/// `ordinal` decodes to.
pub open spec fn spec_is_sync_response(
    message: Seq<u8>,
    ordinal: u64,
    decoded: Result<TransactionBody, Error>,
) -> bool {
    if message.len() < HEADER_SIZE {
        decoded == Err::<TransactionBody, Error>(Error::OutOfRange)
    } else if spec_header_of(message).tx_id != QUERY_TX_ID || spec_header_of(message).ordinal
        != ordinal {
        decoded == Err::<TransactionBody, Error>(Error::UnexpectedSyncResponse)
    } else {
        &&& decoded matches Ok(parts)
        &&& parts.header == spec_header_of(message)
        &&& parts.body@ == message.subrange(HEADER_SIZE as int, message.len() as int)
    }
}

impl Client {
    /// The message that was built last, which the caller writes.
    pub closed spec fn spec_bytes(&self) -> Seq<u8> {
        self.buf_bytes@
    }

    /// Create a new synchronous client.
    pub fn new() -> (client: Client)
        ensures
            client.spec_bytes() == Seq::<u8>::empty(),
    {
        Client { buf_bytes: Vec::new() }
    }

    /// The message that was built last, which the caller writes.
    pub fn bytes(&self) -> (bytes: &[u8])
        ensures
            bytes@ == self.spec_bytes(),
    {
        self.buf_bytes.as_slice()
    }

    fn fill(&mut self, tx_id: u32, ordinal: u64, body: &[u8])
        ensures
            final(self).spec_bytes() == spec_request(tx_id, ordinal, body@),
    {
        self.buf_bytes.clear();
        TransactionHeader::new(tx_id, ordinal).encode(&mut self.buf_bytes);
        let mut i: usize = 0;
        while i < body.len()
            invariant
                i <= body.len(),
                self.buf_bytes@ == TransactionHeader::spec_new(tx_id, ordinal).spec_bytes()
                    + body@.subrange(0, i as int),
            decreases body.len() - i,
        {
            self.buf_bytes.push(body[i]);
            i += 1;
            assert(self.buf_bytes@ =~= TransactionHeader::spec_new(tx_id, ordinal).spec_bytes()
                + body@.subrange(0, i as int));
        }
        assert(body@.subrange(0, i as int) =~= body@);
    }

    /// Send a new message: builds the one-way message, with the transaction
    /// id zero, in the buffer.
    pub fn send(&mut self, body: &[u8], ordinal: u64)
        ensures
            final(self).spec_bytes() == spec_request(0, ordinal, body@),
    {
        self.fill(0, ordinal, body);
    }

    /// Send a new message expecting a response: builds the message of the
    /// call, with the transaction id of synchronous calls, in the buffer.
    pub fn send_query(&mut self, body: &[u8], ordinal: u64)
        ensures
            final(self).spec_bytes() == spec_request(QUERY_TX_ID, ordinal, body@),
    {
        self.fill(QUERY_TX_ID, ordinal, body);
    }

    /// Says what a write came to: a failed write is a write error with the
    /// status of the channel.
    pub fn written(&self, written: Result<(), Status>) -> (result: Result<(), Error>)
        ensures
            result == match written {
                Ok(()) => Ok::<(), Error>(()),
                Err(status) => Err(Error::ClientWrite(status)),
            },
    {
        match written {
            Ok(()) => Ok(()),
            Err(status) => Err(Error::ClientWrite(status)),
        }
    }

    /// Says how to go on after the first read for a response: a read that
    /// would block is waited for, and any other failure is a read error.
    pub fn first_read(&self, read: Result<(), Status>) -> (next: FirstRead)
        ensures
            next == match read {
                Ok(()) => FirstRead::Decode,
                Err(status) => if status.raw == ZX_ERR_SHOULD_WAIT {
                    FirstRead::Wait
                } else {
                    FirstRead::Fail(Error::ClientRead(status))
                },
            },
    {
        match read {
            Ok(()) => FirstRead::Decode,
            Err(status) => {
                if status.into_raw() == ZX_ERR_SHOULD_WAIT {
                    FirstRead::Wait
                } else {
                    FirstRead::Fail(Error::ClientRead(status))
                }
            },
        }
    }

    /// Says how to go on after the wait, which ended with an error or with
    /// the word whether the channel is readable. A channel that is not
    /// readable was closed by the peer: there will be no reply, and the call
    /// fails with a read error.
    pub fn waited(&self, readable: Result<bool, Status>) -> (next: Waited)
        ensures
            next == match readable {
                Ok(true) => Waited::ReadAgain,
                Ok(false) => Waited::Fail(
                    Error::ClientRead(Status { raw: ZX_ERR_PEER_CLOSED }),
                ),
                Err(status) => Waited::Fail(Error::ClientRead(status)),
            },
    {
        match readable {
            Ok(true) => Waited::ReadAgain,
            Ok(false) => Waited::Fail(Error::ClientRead(Status::from_raw(ZX_ERR_PEER_CLOSED))),
            Err(status) => Waited::Fail(Error::ClientRead(status)),
        }
    }

    /// Says what the read after the wait came to: any failure is a read
    /// error.
    pub fn second_read(&self, read: Result<(), Status>) -> (result: Result<(), Error>)
        ensures
            result == match read {
                Ok(()) => Ok::<(), Error>(()),
                Err(status) => Err(Error::ClientRead(status)),
            },
    {
        match read {
            Ok(()) => Ok(()),
            Err(status) => Err(Error::ClientRead(status)),
        }
    }

    /// Decodes the response to the call with the ordinal `ordinal`. The
    /// response must carry the transaction id of synchronous calls and the
    /// ordinal of the call: an event, or the response to anything else, is an
    /// error.
    pub fn decode_response(&self, message: &[u8], ordinal: u64) -> (decoded: Result<
        TransactionBody,
        Error,
    >)
        ensures
            spec_is_sync_response(message@, ordinal, decoded),
    {
        match decode_transaction_header(message) {
            Err(e) => Err(e),
            Ok((header, body)) => {
                if header.tx_id() != QUERY_TX_ID || header.ordinal() != ordinal {
                    Err(Error::UnexpectedSyncResponse)
                } else {
                    Ok(TransactionBody { header, body: vstd::slice::slice_to_vec(body) })
                }
            },
        }
    }
}

} // verus!
