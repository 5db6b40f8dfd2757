//! The error type common to all operations of the client.

use crate::status::Status;
use vstd::prelude::*;

verus! {

/// What can go wrong in an operation of the client.
#[derive(Debug, PartialEq, Eq)]
#[non_exhaustive]
pub enum Error {
    /// A synchronous query was answered by an event, or by a response with
    /// another transaction id or ordinal.
    UnexpectedSyncResponse,
    /// A message is too short to hold a header.
    InvalidHeader,
    /// A message carries a magic number that this client does not speak.
    IncompatibleMagicNumber(u8),
    /// A message is malformed in some other way.
    Invalid,
    /// An object does not fit within the bytes provided.
    OutOfRange,
    /// Decoding did not use all of the bytes provided.
    ExtraBytes,
    /// Decoding did not use all of the handles provided.
    ExtraHandles,
    /// A padding byte is not zero.
    NonZeroPadding {
        /// Index of the first byte of the padding, from the start of the body.
        padding_start: usize,
        /// Index of the padding byte that is not zero, from the start of the body.
        non_zero_pos: usize,
    },
    /// An object is nested too deeply.
    MaxRecursionDepth,
    /// A null value stands where the type admits none.
    NotNullable,
    /// A reference of non-zero length has a null data pointer.
    UnexpectedNullRef,
    /// A string is not UTF-8.
    Utf8Error,
    /// A message arrived for an ordinal that the service does not know.
    UnknownOrdinal {
        /// The unknown ordinal.
        ordinal: u64,
        /// The service that the message was meant for.
        service_name: &'static str,
    },
    /// A value is not among the members of a strict bits type.
    InvalidBitsValue,
    /// A value is not among the members of a strict enum type.
    InvalidEnumValue,
    /// A union carries a tag that its type does not know.
    UnknownUnionTag,
    /// A future was polled after it had completed.
    PollAfterCompletion,
    /// A response arrived with the transaction id zero.
    InvalidResponseTxid,
    /// An envelope holds an unexpected number of bytes.
    InvalidNumBytesInEnvelope,
    /// An envelope holds an unexpected number of handles.
    InvalidNumHandlesInEnvelope,
    /// A handle cannot be used on this host.
    InvalidHostHandle,
    /// A handle is not of the expected object type.
    IncorrectHandleSubtype {
        /// The raw object type that was expected.
        expected: u32,
        /// The raw object type that was received.
        received: u32,
    },
    /// A handle lacks some of the expected rights.
    MissingExpectedHandleRights {
        /// The bits of the rights that are missing.
        missing_rights: u32,
    },
    /// Unknown data with handles met a type that holds no resources.
    CannotStoreUnknownHandles,
    /// Replacing a handle failed.
    HandleReplace(Status),
    /// A server could not write a response to its channel.
    ServerResponseWrite(Status),
    /// A server could not read a request from its channel.
    ServerRequestRead(Status),
    /// A server could not write an epitaph to its channel.
    ServerEpitaphWrite(Status),
    /// A client could not read from its channel.
    ClientRead(Status),
    /// A client could not write to its channel.
    ClientWrite(Status),
    /// The client's channel was closed.
    ClientChannelClosed {
        /// The epitaph that the peer sent, or the status of a closed peer if it
        /// sent none.
        status: Status,
        /// The service at the other end of the channel.
        service_name: &'static str,
    },
    /// A pair of channels could not be created.
    ChannelPairCreate(Status),
}

impl Error {
    /// Whether the error comes from a closed channel: a read or a write that
    /// met a closed peer, or a closed client channel whatever its status.
    pub open spec fn spec_is_closed(&self) -> bool {
        match *self {
            Error::ClientRead(status) => status.is_peer_closed(),
            Error::ClientWrite(status) => status.is_peer_closed(),
            Error::ClientChannelClosed { .. } => true,
            Error::ServerRequestRead(status) => status.is_peer_closed(),
            Error::ServerResponseWrite(status) => status.is_peer_closed(),
            Error::ServerEpitaphWrite(status) => status.is_peer_closed(),
            _ => false,
        }
    }

    /// Returns `true` if the error was sourced by a closed channel.
    #[verifier::when_used_as_spec(spec_is_closed)]
    pub fn is_closed(&self) -> (closed: bool)
        ensures
            closed == self.spec_is_closed(),
    {
        match self {
            Error::ClientRead(status) => status.is_peer_closed(),
            Error::ClientWrite(status) => status.is_peer_closed(),
            Error::ClientChannelClosed { .. } => true,
            Error::ServerRequestRead(status) => status.is_peer_closed(),
            Error::ServerResponseWrite(status) => status.is_peer_closed(),
            Error::ServerEpitaphWrite(status) => status.is_peer_closed(),
            _ => false,
        }
    }
}

} // verus!
