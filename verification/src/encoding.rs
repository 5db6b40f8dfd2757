//! The wire format as far as the client reads it: the fixed header that opens
//! every message, and the body of an epitaph.
//!
//! A header is 16 bytes: the transaction id (32 bits, little endian), three
//! flag bytes, the magic number, and the ordinal (64 bits, little endian). The
//! body follows and is opaque here, except for that of an epitaph, which is
//! one status code (32 bits, little endian) and four padding bytes.

use crate::error::Error;
use crate::status::Status;
use vstd::prelude::*;

verus! {

/// The magic number of the wire format that this client speaks.
pub const MAGIC_NUMBER_INITIAL: u8 = 1;

/// The ordinal reserved for epitaphs.
pub const EPITAPH_ORDINAL: u64 = 0xffff_ffff_ffff_ffff;

/// The number of bytes in a header.
pub const HEADER_SIZE: usize = 16;

/// The number of bytes in the body of an epitaph.
pub const EPITAPH_BODY_SIZE: usize = 8;

/// The four bytes of `x`, least significant first.
pub open spec fn u32_le_bytes(x: u32) -> Seq<u8> {
    seq![
        (x % 256) as u8,
        (x / 256 % 256) as u8,
        (x / 65536 % 256) as u8,
        (x / 16777216) as u8,
    ]
}

/// The eight bytes of `x`, least significant first.
pub open spec fn u64_le_bytes(x: u64) -> Seq<u8> {
    u32_le_bytes((x % 0x1_0000_0000) as u32) + u32_le_bytes((x / 0x1_0000_0000) as u32)
}

/// The number whose four bytes, least significant first, start at `at` in `bytes`.
pub open spec fn u32_from_le_bytes(bytes: Seq<u8>, at: int) -> u32 {
    (bytes[at] + bytes[at + 1] * 256 + bytes[at + 2] * 65536 + bytes[at + 3] * 16777216) as u32
}

/// The number whose eight bytes, least significant first, start at `at` in `bytes`.
pub open spec fn u64_from_le_bytes(bytes: Seq<u8>, at: int) -> u64 {
    (u32_from_le_bytes(bytes, at) + u32_from_le_bytes(bytes, at + 4) * 0x1_0000_0000) as u64
}

/// The signed number with the same 32 bits as `x`.
pub open spec fn i32_of_bits(x: u32) -> i32 {
    if x < 0x8000_0000 {
        x as i32
    } else {
        (x - 0x1_0000_0000) as i32
    }
}

/// The unsigned number with the same 32 bits as `x`.
pub open spec fn bits_of_i32(x: i32) -> u32 {
    if x >= 0 {
        x as u32
    } else {
        (x + 0x1_0000_0000) as u32
    }
}

fn push_u32_le(out: &mut Vec<u8>, x: u32)
    ensures
        final(out)@ == old(out)@ + u32_le_bytes(x),
{
    out.push((x % 256) as u8);
    out.push((x / 256 % 256) as u8);
    out.push((x / 65536 % 256) as u8);
    out.push((x / 16777216) as u8);
    assert(out@ =~= old(out)@ + u32_le_bytes(x));
}

fn push_u64_le(out: &mut Vec<u8>, x: u64)
    ensures
        final(out)@ == old(out)@ + u64_le_bytes(x),
{
    push_u32_le(out, (x % 0x1_0000_0000) as u32);
    push_u32_le(out, (x / 0x1_0000_0000) as u32);
    assert(out@ =~= old(out)@ + u64_le_bytes(x));
}

fn read_u32_le(bytes: &[u8], at: usize) -> (x: u32)
    requires
        at + 4 <= bytes.len(),
    ensures
        x == u32_from_le_bytes(bytes@, at as int),
{
    let b0: u32 = bytes[at] as u32;
    let b1: u32 = bytes[at + 1] as u32;
    let b2: u32 = bytes[at + 2] as u32;
    let b3: u32 = bytes[at + 3] as u32;
    b0 + b1 * 256 + b2 * 65536 + b3 * 16777216
}

fn read_u64_le(bytes: &[u8], at: usize) -> (x: u64)
    requires
        at + 8 <= bytes.len(),
    ensures
        x == u64_from_le_bytes(bytes@, at as int),
{
    let low: u64 = read_u32_le(bytes, at) as u64;
    let high: u64 = read_u32_le(bytes, at + 4) as u64;
    low + high * 0x1_0000_0000
}

/// Reading back the bytes of a number gives the number, wherever they stand.
pub proof fn lemma_u32_le_roundtrip(x: u32, bytes: Seq<u8>, at: int)
    requires
        0 <= at,
        at + 4 <= bytes.len(),
        bytes.subrange(at, at + 4) == u32_le_bytes(x),
    ensures
        u32_from_le_bytes(bytes, at) == x,
{
    let part = bytes.subrange(at, at + 4);
    assert(part[0] == bytes[at]);
    assert(part[1] == bytes[at + 1]);
    assert(part[2] == bytes[at + 2]);
    assert(part[3] == bytes[at + 3]);
}

/// Reading back the bytes of a number gives the number, wherever they stand.
pub proof fn lemma_u64_le_roundtrip(x: u64, bytes: Seq<u8>, at: int)
    requires
        0 <= at,
        at + 8 <= bytes.len(),
        bytes.subrange(at, at + 8) == u64_le_bytes(x),
    ensures
        u64_from_le_bytes(bytes, at) == x,
{
    let part = bytes.subrange(at, at + 8);
    let low = (x % 0x1_0000_0000) as u32;
    let high = (x / 0x1_0000_0000) as u32;
    assert(bytes.subrange(at, at + 4) =~= part.subrange(0, 4));
    assert(bytes.subrange(at + 4, at + 8) =~= part.subrange(4, 8));
    assert(part.subrange(0, 4) =~= u32_le_bytes(low));
    assert(part.subrange(4, 8) =~= u32_le_bytes(high));
    lemma_u32_le_roundtrip(low, bytes, at);
    lemma_u32_le_roundtrip(high, bytes, at + 4);
}

/// The header that opens every message.
#[derive(Debug, Clone, Copy, PartialEq, Eq)]
pub struct TransactionHeader {
    /// The transaction id: zero on an event or a one-way message.
    pub tx_id: u32,
    /// Flags, which this client carries and does not read.
    pub flags: [u8; 3],
    /// The magic number of the sender's wire format.
    pub magic_number: u8,
    /// The ordinal, which names the call or the event.
    pub ordinal: u64,
}

impl TransactionHeader {
    /// The 16 bytes that stand for this header on the wire.
    pub open spec fn spec_bytes(self) -> Seq<u8> {
        u32_le_bytes(self.tx_id) + seq![self.flags[0], self.flags[1], self.flags[2]]
            + seq![self.magic_number] + u64_le_bytes(self.ordinal)
    }

    /// The header of the current wire format with no flag set.
    pub open spec fn spec_new(tx_id: u32, ordinal: u64) -> TransactionHeader {
        TransactionHeader::spec_new_full(tx_id, ordinal, MAGIC_NUMBER_INITIAL)
    }

    /// The header with the magic number `magic_number` and no flag set.
    pub open spec fn spec_new_full(tx_id: u32, ordinal: u64, magic_number: u8) -> TransactionHeader {
        TransactionHeader { tx_id, flags: [0u8, 0u8, 0u8], magic_number, ordinal }
    }

    /// A header of the current wire format, with no flag set.
    #[verifier::when_used_as_spec(spec_new)]
    pub fn new(tx_id: u32, ordinal: u64) -> (header: TransactionHeader)
        ensures
            header == TransactionHeader::spec_new(tx_id, ordinal),
    {
        TransactionHeader { tx_id, flags: [0, 0, 0], magic_number: MAGIC_NUMBER_INITIAL, ordinal }
    }

    /// A header with a magic number of the caller's choice, and no flag set.
    #[verifier::when_used_as_spec(spec_new_full)]
    pub fn new_full(tx_id: u32, ordinal: u64, magic_number: u8) -> (header: TransactionHeader)
        ensures
            header == TransactionHeader::spec_new_full(tx_id, ordinal, magic_number),
    {
        TransactionHeader { tx_id, flags: [0, 0, 0], magic_number, ordinal }
    }

    /// The transaction id.
    pub fn tx_id(&self) -> (tx_id: u32)
        ensures
            tx_id == self.tx_id,
    {
        self.tx_id
    }

    /// The ordinal.
    pub fn ordinal(&self) -> (ordinal: u64)
        ensures
            ordinal == self.ordinal,
    {
        self.ordinal
    }

    /// The magic number.
    pub fn magic_number(&self) -> (magic_number: u8)
        ensures
            magic_number == self.magic_number,
    {
        self.magic_number
    }

    /// Whether the sender speaks the wire format of this client.
    pub open spec fn spec_is_compatible(&self) -> bool {
        self.magic_number == MAGIC_NUMBER_INITIAL
    }

    /// Whether the sender speaks the wire format of this client.
    #[verifier::when_used_as_spec(spec_is_compatible)]
    pub fn is_compatible(&self) -> (compatible: bool)
        ensures
            compatible == self.spec_is_compatible(),
    {
        self.magic_number == MAGIC_NUMBER_INITIAL
    }

    /// Whether the message is an epitaph.
    pub open spec fn spec_is_epitaph(&self) -> bool {
        self.ordinal == EPITAPH_ORDINAL
    }

    /// Whether the message is an epitaph.
    #[verifier::when_used_as_spec(spec_is_epitaph)]
    pub fn is_epitaph(&self) -> (epitaph: bool)
        ensures
            epitaph == self.spec_is_epitaph(),
    {
        self.ordinal == EPITAPH_ORDINAL
    }

    /// Appends the 16 bytes of this header to `out`.
    pub fn encode(&self, out: &mut Vec<u8>)
        ensures
            final(out)@ == old(out)@ + self.spec_bytes(),
    {
        push_u32_le(out, self.tx_id);
        out.push(self.flags[0]);
        out.push(self.flags[1]);
        out.push(self.flags[2]);
        out.push(self.magic_number);
        push_u64_le(out, self.ordinal);
        assert(out@ =~= old(out)@ + self.spec_bytes());
    }
}

/// The header that the first 16 bytes of `bytes` stand for.
pub open spec fn spec_header_of(bytes: Seq<u8>) -> TransactionHeader {
    TransactionHeader {
        tx_id: u32_from_le_bytes(bytes, 0),
        flags: [bytes[4], bytes[5], bytes[6]],
        magic_number: bytes[7],
        ordinal: u64_from_le_bytes(bytes, 8),
    }
}

/// The message with the header `header` and the body `body`.
pub open spec fn spec_message(header: TransactionHeader, body: Seq<u8>) -> Seq<u8> {
    header.spec_bytes() + body
}

/// Splits a message into its header and its body. A message shorter than a
/// header is out of range; nothing else is checked here.
pub fn decode_transaction_header(bytes: &[u8]) -> (result: Result<
    (TransactionHeader, &[u8]),
    Error,
>)
    ensures
        match result {
            Ok((header, body)) => {
                &&& bytes@.len() >= HEADER_SIZE
                &&& header == spec_header_of(bytes@)
                &&& body@ == bytes@.subrange(HEADER_SIZE as int, bytes@.len() as int)
            },
            Err(e) => bytes@.len() < HEADER_SIZE && e == Error::OutOfRange,
        },
{
    if bytes.len() < HEADER_SIZE {
        return Err(Error::OutOfRange);
    }
    let header = TransactionHeader {
        tx_id: read_u32_le(bytes, 0),
        flags: [bytes[4], bytes[5], bytes[6]],
        magic_number: bytes[7],
        ordinal: read_u64_le(bytes, 8),
    };
    let body = vstd::slice::slice_subrange(bytes, HEADER_SIZE, bytes.len());
    Ok((header, body))
}

/// Builds the message with the header `header` and the body `body`.
pub fn encode_transaction(header: &TransactionHeader, body: &[u8]) -> (bytes: Vec<u8>)
    ensures
        bytes@ == spec_message(*header, body@),
{
    let mut bytes: Vec<u8> = Vec::new();
    header.encode(&mut bytes);
    let mut i: usize = 0;
    while i < body.len()
        invariant
            i <= body.len(),
            bytes@ == header.spec_bytes() + body@.subrange(0, i as int),
        decreases body.len() - i,
    {
        bytes.push(body[i]);
        i += 1;
        assert(bytes@ =~= header.spec_bytes() + body@.subrange(0, i as int));
    }
    assert(body@.subrange(0, i as int) =~= body@);
    bytes
}

/// A message that was built from a header and a body splits into the same two.
pub proof fn lemma_header_roundtrip(header: TransactionHeader, body: Seq<u8>)
    ensures
        spec_message(header, body).len() == HEADER_SIZE + body.len(),
        spec_header_of(spec_message(header, body)).tx_id == header.tx_id,
        spec_header_of(spec_message(header, body)).ordinal == header.ordinal,
        spec_header_of(spec_message(header, body)).magic_number == header.magic_number,
        spec_header_of(spec_message(header, body)).flags@ == header.flags@,
        spec_message(header, body).subrange(
            HEADER_SIZE as int,
            spec_message(header, body).len() as int,
        ) == body,
{
    let message = spec_message(header, body);
    assert(message.subrange(0, 4) =~= u32_le_bytes(header.tx_id));
    assert(message.subrange(8, 16) =~= u64_le_bytes(header.ordinal));
    lemma_u32_le_roundtrip(header.tx_id, message, 0);
    lemma_u64_le_roundtrip(header.ordinal, message, 8);
    assert(spec_header_of(message).flags@ =~= header.flags@);
    assert(message.subrange(HEADER_SIZE as int, message.len() as int) =~= body);
}

/// The index of the first padding byte of an epitaph's body that is not zero,
/// where there is one.
pub open spec fn spec_epitaph_non_zero_pos(body: Seq<u8>) -> usize {
    if body[4] != 0 {
        4
    } else if body[5] != 0 {
        5
    } else if body[6] != 0 {
        6
    } else {
        7
    }
}

/// What the body of an epitaph decodes to: the status in its first four bytes,
/// where it has exactly eight bytes and the last four are zero.
pub open spec fn spec_decode_epitaph_body(body: Seq<u8>) -> Result<Status, Error> {
    if body.len() < EPITAPH_BODY_SIZE {
        Err(Error::OutOfRange)
    } else if body.len() > EPITAPH_BODY_SIZE {
        Err(Error::ExtraBytes)
    } else if body[4] != 0 || body[5] != 0 || body[6] != 0 || body[7] != 0 {
        Err(
            Error::NonZeroPadding {
                padding_start: 4,
                non_zero_pos: spec_epitaph_non_zero_pos(body),
            },
        )
    } else {
        Ok(Status { raw: i32_of_bits(u32_from_le_bytes(body, 0)) })
    }
}

/// The body of the epitaph that carries `status`.
pub open spec fn spec_epitaph_body(status: Status) -> Seq<u8> {
    u32_le_bytes(bits_of_i32(status.raw)) + seq![0u8, 0u8, 0u8, 0u8]
}

/// Decodes the body of an epitaph.
pub fn decode_epitaph_body(body: &[u8]) -> (result: Result<Status, Error>)
    ensures
        result == spec_decode_epitaph_body(body@),
{
    if body.len() < EPITAPH_BODY_SIZE {
        return Err(Error::OutOfRange);
    }
    if body.len() > EPITAPH_BODY_SIZE {
        return Err(Error::ExtraBytes);
    }
    let mut pos: usize = 4;
    while pos < 8
        invariant
            4 <= pos <= 8,
            body@.len() == 8,
            forall|i: int| 4 <= i < pos ==> body@[i] == 0,
        decreases 8 - pos,
    {
        if body[pos] != 0 {
            return Err(Error::NonZeroPadding { padding_start: 4, non_zero_pos: pos });
        }
        pos += 1;
    }
    let bits = read_u32_le(body, 0);
    let raw: i32 = if bits < 0x8000_0000 {
        bits as i32
    } else {
        (bits - 0x8000_0000) as i32 + i32::MIN
    };
    Ok(Status::from_raw(raw))
}

/// Builds the body of the epitaph that carries `status`.
pub fn encode_epitaph_body(status: Status) -> (body: Vec<u8>)
    ensures
        body@ == spec_epitaph_body(status),
{
    let raw = status.into_raw();
    let bits: u32 = if raw >= 0 {
        raw as u32
    } else {
        (raw - i32::MIN) as u32 + 0x8000_0000
    };
    let mut body: Vec<u8> = Vec::new();
    push_u32_le(&mut body, bits);
    body.push(0);
    body.push(0);
    body.push(0);
    body.push(0);
    assert(body@ =~= spec_epitaph_body(status));
    body
}

/// The body that was built for a status decodes to that status.
pub proof fn lemma_epitaph_roundtrip(status: Status)
    ensures
        spec_decode_epitaph_body(spec_epitaph_body(status)) == Ok::<Status, Error>(status),
{
    let body = spec_epitaph_body(status);
    assert(body.subrange(0, 4) =~= u32_le_bytes(bits_of_i32(status.raw)));
    lemma_u32_le_roundtrip(bits_of_i32(status.raw), body, 0);
}

} // verus!
