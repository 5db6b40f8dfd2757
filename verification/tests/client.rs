use fidl_client::client::event::{EventPoll, EventReceiver};
use fidl_client::client::response::{
    decode_transaction_body, decode_transaction_body_fut, MessageResponse, QueryResponseFut,
    TransactionBody,
};
use fidl_client::client::{
    classify, ChannelRead, Client, EventListener, Incoming, Poll, RecvBegin, RecvResult,
};
use fidl_client::encoding::{
    encode_epitaph_body, encode_transaction, TransactionHeader, EPITAPH_ORDINAL,
    MAGIC_NUMBER_INITIAL,
};
use fidl_client::error::Error;
use fidl_client::interest::ResumeToken;
use fidl_client::status::{Status, ZX_ERR_PEER_CLOSED, ZX_ERR_UNAVAILABLE};
use fidl_client::txid::{InterestId, Txid};
use std::collections::VecDeque;

const SEND_ORDINAL_HIGH_BYTE: u8 = 42;
const SEND_ORDINAL: u64 = 42 << 32;
const SEND_DATA: u8 = 55;

// The body that the value SEND_DATA encodes to: one byte and seven of padding.
const SEND_BODY: [u8; 8] = [SEND_DATA, 0, 0, 0, 0, 0, 0, 0];

fn expected_sent_bytes(tx_id_low_byte: u8) -> [u8; 24] {
    [
        tx_id_low_byte, 0, 0, 0, // 32 bit tx_id
        0, 0, 0, // flags
        MAGIC_NUMBER_INITIAL,
        0, 0, 0, 0, // low bytes of 64 bit ordinal
        SEND_ORDINAL_HIGH_BYTE, 0, 0, 0, // high bytes of 64 bit ordinal
        SEND_DATA, // 8 bit data
        0, 0, 0, 0, 0, 0, 0, // 7 bytes of padding after our 1 byte of data
    ]
}

/// The two ends of a channel, with the client end read through the client.
struct Wire {
    to_client: VecDeque<Vec<u8>>,
    to_server: VecDeque<Vec<u8>>,
    server_closed: bool,
    // The task that the channel resumes when something arrives.
    registered: Option<ResumeToken>,
    // How often each task was resumed, by the number in its token.
    wakes: Vec<usize>,
}

impl Wire {
    fn create() -> Wire {
        Wire {
            to_client: VecDeque::new(),
            to_server: VecDeque::new(),
            server_closed: false,
            registered: None,
            wakes: vec![0; 8],
        }
    }

    fn wake(&mut self, token: ResumeToken) {
        self.wakes[token.0 as usize] += 1;
    }

    fn wake_count(&self, token: ResumeToken) -> usize {
        self.wakes[token.0 as usize]
    }

    fn notify(&mut self) {
        if let Some(token) = self.registered.take() {
            self.wake(token);
        }
    }

    fn server_write(&mut self, message: Vec<u8>) {
        self.to_client.push_back(message);
        self.notify();
    }

    fn server_close(&mut self) {
        self.server_closed = true;
        self.notify();
    }

    fn server_close_with_epitaph(&mut self, status: Status) {
        self.server_write_epitaph(status);
        self.server_close();
    }

    fn server_write_epitaph(&mut self, status: Status) {
        let header = TransactionHeader::new(0, EPITAPH_ORDINAL);
        self.server_write(encode_transaction(&header, &encode_epitaph_body(status)));
    }

    fn server_read(&mut self) -> Option<Vec<u8>> {
        self.to_server.pop_front()
    }

    fn client_write(&mut self, message: &[u8]) -> Result<(), Status> {
        if self.server_closed {
            Err(Status::from_raw(ZX_ERR_PEER_CLOSED))
        } else {
            self.to_server.push_back(message.to_vec());
            Ok(())
        }
    }

    fn client_receive(&mut self, token: Option<ResumeToken>) -> ChannelRead {
        match self.to_client.pop_front() {
            Some(message) => ChannelRead::Message(message),
            None if self.server_closed => ChannelRead::Failed(Status::from_raw(ZX_ERR_PEER_CLOSED)),
            None => {
                self.registered = token;
                ChannelRead::Pending
            }
        }
    }
}

/// One pass over the channel: reads until nothing is left, the channel is
/// closed, or a message cannot be read.
fn recv_all(client: &mut Client, wire: &mut Wire) -> RecvResult {
    loop {
        match client.recv_begin() {
            RecvBegin::Closed(status) => return Ok(Some(status)),
            RecvBegin::Receive(token) => {
                let read = wire.client_receive(token);
                let step = client.recv_next(read);
                for token in step.wake {
                    wire.wake(token);
                }
                if let Some(result) = step.result {
                    return result;
                }
            }
        }
    }
}

fn send(client: &Client, wire: &mut Wire, body: &[u8], ordinal: u64) -> Result<(), Error> {
    let message = client.send(body, ordinal);
    client.send_raw_msg(wire.client_write(&message))
}

fn finish_send(
    client: &mut Client,
    wire: &mut Wire,
    txid: Txid,
    message: &[u8],
) -> Result<MessageResponse, Error> {
    match wire.client_write(message) {
        Ok(()) => Ok(MessageResponse::new(txid)),
        Err(status) => match client.write_failed(status) {
            Some(error) => Err(error),
            None => {
                let recv = recv_all(client, wire);
                Err(client.closed_on_write(recv))
            }
        },
    }
}

fn send_raw_query<F>(client: &mut Client, wire: &mut Wire, msg_from_id: F) -> Result<MessageResponse, Error>
where
    F: FnOnce(Txid) -> Result<Vec<u8>, Error>,
{
    assert!(client.can_register());
    let (txid, message) = client.send_raw_query(msg_from_id)?;
    finish_send(client, wire, txid, &message)
}

fn send_query(client: &mut Client, wire: &mut Wire, body: &[u8], ordinal: u64) -> QueryResponseFut {
    assert!(client.can_register());
    let (txid, message) = client.send_query(body, ordinal);
    QueryResponseFut::new(finish_send(client, wire, txid, &message))
}

fn poll_response(
    response: &mut MessageResponse,
    client: &mut Client,
    wire: &mut Wire,
    token: ResumeToken,
) -> Poll<Result<Vec<u8>, Error>> {
    assert!(response.belongs_to(client), "Polled unregistered interest");
    if let Some((outcome, wake)) = response.poll_begin(client, token) {
        if let Some(token) = wake {
            wire.wake(token);
        }
        return Poll::Ready(outcome);
    }
    let recv = recv_all(client, wire);
    assert!(response.belongs_to(client), "Polled unregistered interest");
    let (poll, wake) = response.poll_end(client, recv);
    if let Some(token) = wake {
        wire.wake(token);
    }
    poll
}

fn poll_query(
    query: &mut QueryResponseFut,
    client: &mut Client,
    wire: &mut Wire,
    token: ResumeToken,
) -> Poll<Result<TransactionBody, Error>> {
    assert!(!query.is_terminated(), "polled after the outcome was yielded");
    assert!(query.belongs_to(client), "Polled unregistered interest");
    if let Some((outcome, wake)) = query.poll_begin(client, token) {
        if let Some(token) = wake {
            wire.wake(token);
        }
        return Poll::Ready(outcome);
    }
    let recv = recv_all(client, wire);
    assert!(query.belongs_to(client), "Polled unregistered interest");
    let (poll, wake) = query.poll_end(client, recv);
    if let Some(token) = wake {
        wire.wake(token);
    }
    poll
}

fn poll_next(
    receiver: &mut EventReceiver,
    client: &mut Client,
    wire: &mut Wire,
    token: ResumeToken,
) -> EventPoll {
    assert!(!receiver.is_terminated(), "polled EventReceiver after `None`");
    if let Some(ready) = receiver.poll_next_begin(client, token) {
        return ready;
    }
    let recv = recv_all(client, wire);
    receiver.poll_next_end(client, recv)
}

fn take_event_receiver(client: &mut Client) -> EventReceiver {
    assert!(client.listener() == EventListener::Nobody, "Event stream was already taken");
    client.take_event_receiver()
}

fn drop_receiver(receiver: EventReceiver, client: &mut Client, wire: &mut Wire) {
    if let Some(token) = receiver.release(client) {
        wire.wake(token);
    }
}

fn drop_response(response: MessageResponse, client: &mut Client, wire: &mut Wire) {
    if let Some(token) = response.release(client) {
        wire.wake(token);
    }
}

fn encode(header: TransactionHeader) -> Vec<u8> {
    encode_transaction(&header, &SEND_BODY)
}

fn send_transaction(header: TransactionHeader, wire: &mut Wire) {
    wire.server_write(encode(header));
}

fn is_pending<T>(poll: &Poll<T>) -> bool {
    matches!(poll, Poll::Pending)
}

fn is_ready<T>(poll: &Poll<T>) -> bool {
    matches!(poll, Poll::Ready(_))
}

fn unavailable() -> Status {
    Status::from_raw(ZX_ERR_UNAVAILABLE)
}

fn is_closed_with(error: &Error, expected: Status) -> bool {
    matches!(
        error,
        Error::ClientChannelClosed { status, service_name: "test_service" } if *status == expected
    )
}

#[test]
fn client() {
    let mut wire = Wire::create();
    let client = Client::new("test_service");
    send(&client, &mut wire, &SEND_BODY, SEND_ORDINAL).expect("failed to send msg");
    let buffer = wire.server_read().expect("failed to recv msg");
    let one_way_tx_id = 0;
    assert_eq!(buffer, expected_sent_bytes(one_way_tx_id));
}

#[test]
fn client_with_response() {
    let mut wire = Wire::create();
    let mut client = Client::new("test_service");
    let mut query = send_query(&mut client, &mut wire, &SEND_BODY, SEND_ORDINAL);
    assert!(is_pending(&poll_query(&mut query, &mut client, &mut wire, ResumeToken(1))));

    let buffer = wire.server_read().expect("failed to recv msg");
    let two_way_tx_id = 1u8;
    assert_eq!(buffer, expected_sent_bytes(two_way_tx_id));
    send_transaction(TransactionHeader::new(two_way_tx_id as u32, 42), &mut wire);
    assert_eq!(wire.wake_count(ResumeToken(1)), 1);

    match poll_query(&mut query, &mut client, &mut wire, ResumeToken(1)) {
        Poll::Ready(Ok(response)) => {
            assert_eq!(response.body, SEND_BODY);
            assert_eq!(response.header.tx_id(), 1);
            assert_eq!(response.header.ordinal(), 42);
        }
        other => panic!("fidl error: {:?}", other),
    }
    assert!(query.is_terminated());
    assert!(!client.is_registered(InterestId(0)));
}

#[test]
fn client_with_response_receives_epitaph() {
    let mut wire = Wire::create();
    let mut client = Client::new("test_service");
    let mut query = send_query(&mut client, &mut wire, &[55], 42 << 32);
    assert!(is_pending(&poll_query(&mut query, &mut client, &mut wire, ResumeToken(1))));
    wire.server_read().expect("failed to recv msg");
    wire.server_close_with_epitaph(unavailable());

    match poll_query(&mut query, &mut client, &mut wire, ResumeToken(1)) {
        Poll::Ready(Err(e)) => assert!(is_closed_with(&e, unavailable())),
        other => panic!("did not receive the epitaph: {:?}", other),
    }
    assert!(query.is_terminated());
}

#[test]
fn event_cant_be_taken_twice() {
    let mut client = Client::new("test_service");
    let _foo = take_event_receiver(&mut client);
    // to take the events again now would violate the contract of the client
    assert_ne!(client.listener(), EventListener::Nobody);
}

#[test]
fn taken_events_are_held_until_released() {
    let mut client = Client::new("test_service");
    assert_eq!(client.listener(), EventListener::Nobody);
    let foo = take_event_receiver(&mut client);
    assert_eq!(client.listener(), EventListener::WillPoll);
    client.await_event(ResumeToken(1));
    assert_eq!(client.listener(), EventListener::Waiting(ResumeToken(1)));
    assert_eq!(foo.release(&mut client), None);
    assert_eq!(client.listener(), EventListener::Nobody);
}

#[test]
fn event_can_be_taken_after_drop() {
    let mut wire = Wire::create();
    let mut client = Client::new("test_service");
    let foo = take_event_receiver(&mut client);
    drop_receiver(foo, &mut client, &mut wire);
    assert_eq!(client.listener(), EventListener::Nobody);
    take_event_receiver(&mut client);
}

#[test]
fn receiver_termination_test() {
    let mut wire = Wire::create();
    wire.server_close();
    let mut client = Client::new("test_service");
    let mut foo = take_event_receiver(&mut client);
    assert!(!foo.is_terminated(), "receiver should not report terminated before being polled");
    let _ = poll_next(&mut foo, &mut client, &mut wire, ResumeToken(1));
    assert!(
        foo.is_terminated(),
        "receiver should report terminated after seeing channel is closed"
    );
}

#[test]
fn receiver_cant_be_polled_more_than_once_on_closed_stream() {
    let mut wire = Wire::create();
    wire.server_close();
    let mut client = Client::new("test_service");
    let foo = take_event_receiver(&mut client);
    drop_receiver(foo, &mut client, &mut wire);
    let mut bar = take_event_receiver(&mut client);
    assert!(
        matches!(poll_next(&mut bar, &mut client, &mut wire, ResumeToken(1)), Poll::Ready(None)),
        "read on closed channel should return none"
    );
    // to poll again would violate the contract of the stream
    assert!(bar.is_terminated());
}

#[test]
fn receiver_panics_when_polled_after_receiving_epitaph_then_none() {
    let mut wire = Wire::create();
    let mut client = Client::new("test_service");
    let mut stream = take_event_receiver(&mut client);

    wire.server_write_epitaph(unavailable());
    wire.server_close();

    match poll_next(&mut stream, &mut client, &mut wire, ResumeToken(1)) {
        Poll::Ready(Some(Err(e))) => assert!(is_closed_with(&e, unavailable())),
        other => panic!("expected the epitaph: {:?}", other),
    }
    assert!(!stream.is_terminated());
    assert!(matches!(
        poll_next(&mut stream, &mut client, &mut wire, ResumeToken(1)),
        Poll::Ready(None)
    ));
    // to poll again would violate the contract of the stream
    assert!(stream.is_terminated());
}

#[test]
fn event_can_be_taken() {
    let mut client = Client::new("test_service");
    take_event_receiver(&mut client);
}

#[test]
fn event_received() {
    let mut wire = Wire::create();
    let mut client = Client::new("test_service");

    // Send the event from the server
    send_transaction(TransactionHeader::new(0, 5), &mut wire);
    wire.server_close();

    let mut stream = take_event_receiver(&mut client);
    match poll_next(&mut stream, &mut client, &mut wire, ResumeToken(1)) {
        Poll::Ready(Some(Ok(x))) => {
            let x = decode_transaction_body(x).expect("failed to decode event");
            assert_eq!(x.body[0], 55);
            assert_eq!(x.header.ordinal(), 5);
        }
        other => panic!("should contain one element: {:?}", other),
    }
    assert!(
        matches!(
            poll_next(&mut stream, &mut client, &mut wire, ResumeToken(1)),
            Poll::Ready(None)
        ),
        "should have emptied"
    );
}

#[test]
fn receiver_can_be_taken_after_end_of_stream() {
    let mut wire = Wire::create();
    let mut client = Client::new("test_service");

    // Send the event from the server
    send_transaction(TransactionHeader::new(0, 5), &mut wire);
    wire.server_close();

    {
        let mut stream = take_event_receiver(&mut client);
        match poll_next(&mut stream, &mut client, &mut wire, ResumeToken(1)) {
            Poll::Ready(Some(Ok(x))) => {
                let x = decode_transaction_body(x).expect("failed to decode event");
                assert_eq!(x.body[0], 55);
            }
            other => panic!("should contain one element: {:?}", other),
        }
        assert!(
            matches!(
                poll_next(&mut stream, &mut client, &mut wire, ResumeToken(1)),
                Poll::Ready(None)
            ),
            "should have emptied"
        );
        drop_receiver(stream, &mut client, &mut wire);
    }

    // if we take the event stream again, we should be able to get the next
    // without a panic, but that should be none
    let mut c = take_event_receiver(&mut client);
    assert!(
        matches!(poll_next(&mut c, &mut client, &mut wire, ResumeToken(2)), Poll::Ready(None)),
        "receiver on closed channel should return none on first call"
    );
}

#[test]
fn event_incompatible_format() {
    let mut wire = Wire::create();
    let mut client = Client::new("test_service");

    // Send the event from the server
    send_transaction(TransactionHeader::new_full(0, 5, 0), &mut wire);
    wire.server_close();

    let mut event_receiver = take_event_receiver(&mut client);
    let event = poll_next(&mut event_receiver, &mut client, &mut wire, ResumeToken(1));
    assert!(matches!(event, Poll::Ready(Some(Err(Error::IncompatibleMagicNumber(0))))));
    assert!(!event_receiver.is_terminated());
}

#[test]
fn polling_event_receives_epitaph() {
    let mut wire = Wire::create();
    let mut client = Client::new("test_service");

    // Send the epitaph from the server
    wire.server_close_with_epitaph(unavailable());

    let mut event_receiver = take_event_receiver(&mut client);
    match poll_next(&mut event_receiver, &mut client, &mut wire, ResumeToken(1)) {
        Poll::Ready(Some(Err(e))) => assert!(is_closed_with(&e, unavailable())),
        other => panic!("expected the epitaph: {:?}", other),
    }
    assert!(matches!(
        poll_next(&mut event_receiver, &mut client, &mut wire, ResumeToken(1)),
        Poll::Ready(None)
    ));
}

#[test]
fn client_always_wakes_pending_futures() {
    let mut wire = Wire::create();
    let mut client = Client::new("test_service");

    let mut event_receiver = take_event_receiver(&mut client);

    // first poll on a response
    let response_waker = ResumeToken(1);
    let mut response_txid = Txid(0);
    let mut response_future = send_raw_query(&mut client, &mut wire, |tx_id| {
        response_txid = tx_id;
        Ok(encode(TransactionHeader::new(response_txid.as_raw_id(), 42)))
    })
    .expect("Couldn't send query");
    assert!(is_pending(&poll_response(
        &mut response_future,
        &mut client,
        &mut wire,
        response_waker
    )));

    // then, poll on an event
    let event_waker = ResumeToken(2);
    assert!(is_pending(&poll_next(&mut event_receiver, &mut client, &mut wire, event_waker)));

    // at this point, nothing should have been woken
    assert_eq!(wire.wake_count(response_waker), 0);
    assert_eq!(wire.wake_count(event_waker), 0);

    // next, simulate an event coming in
    send_transaction(TransactionHeader::new(0, 5), &mut wire);

    // either response_waker or event_waker should be woken
    assert_eq!(wire.wake_count(response_waker) + wire.wake_count(event_waker), 1);
    let last_response_waker_count = wire.wake_count(response_waker);

    // we'll pretend event_waker was woken, and have that poll out the event
    assert!(is_ready(&poll_next(&mut event_receiver, &mut client, &mut wire, event_waker)));

    // next, simulate a response coming in
    send_transaction(TransactionHeader::new(response_txid.as_raw_id(), 42), &mut wire);

    // response waker should have been woken again
    assert_eq!(wire.wake_count(response_waker), last_response_waker_count + 1);
}

#[test]
fn client_always_wakes_pending_futures_on_epitaph() {
    let mut wire = Wire::create();
    let mut client = Client::new("test_service");

    let mut event_receiver = take_event_receiver(&mut client);

    // first poll on a response
    let response1_waker = ResumeToken(1);
    let mut response1_future = send_raw_query(&mut client, &mut wire, |tx_id| {
        Ok(encode(TransactionHeader::new(tx_id.as_raw_id(), 42)))
    })
    .expect("Couldn't send query");
    assert!(is_pending(&poll_response(
        &mut response1_future,
        &mut client,
        &mut wire,
        response1_waker
    )));

    // then, poll on an event
    let event_waker = ResumeToken(3);
    assert!(is_pending(&poll_next(&mut event_receiver, &mut client, &mut wire, event_waker)));

    // poll on another response
    let response2_waker = ResumeToken(2);
    let mut response2_future = send_raw_query(&mut client, &mut wire, |tx_id| {
        Ok(encode(TransactionHeader::new(tx_id.as_raw_id(), 42)))
    })
    .expect("Couldn't send query");
    assert!(is_pending(&poll_response(
        &mut response2_future,
        &mut client,
        &mut wire,
        response2_waker
    )));

    let wakers = vec![response1_waker, response2_waker, event_waker];

    // at this point, nothing should have been woken
    assert_eq!(0, wakers.iter().fold(0, |acc, x| acc + wire.wake_count(*x)));

    // next, simulate an epitaph without closing
    wire.server_write_epitaph(unavailable());

    // one waker should have woken up, since reading from a channel only supports
    // a single waker.
    assert_eq!(1, wakers.iter().fold(0, |acc, x| acc + wire.wake_count(*x)));

    // pretend that response1 woke and poll that to completion.
    match poll_response(&mut response1_future, &mut client, &mut wire, response1_waker) {
        Poll::Ready(Err(e)) => assert!(is_closed_with(&e, unavailable())),
        other => panic!("expected the epitaph: {:?}", other),
    }

    // response1 will have woken all other tasks again.
    // NOTE: The task that is waking all other tasks is also woken.
    assert_eq!(1 + wakers.len(), wakers.iter().fold(0, |acc, x| acc + wire.wake_count(*x)));

    // poll response2 to completion.
    match poll_response(&mut response2_future, &mut client, &mut wire, response2_waker) {
        Poll::Ready(Err(e)) => assert!(is_closed_with(&e, unavailable())),
        other => panic!("expected the epitaph: {:?}", other),
    }

    // poll the event stream to completion.
    assert!(is_ready(&poll_next(&mut event_receiver, &mut client, &mut wire, event_waker)));
}

#[test]
fn client_allows_take_event_stream_even_if_event_delivered() {
    let mut wire = Wire::create();
    let mut client = Client::new("test_service");

    // first simulate an event coming in, even though nothing has polled
    send_transaction(TransactionHeader::new(0, 5), &mut wire);

    // next, poll on a response
    let mut response_future = send_query(&mut client, &mut wire, &[55], 42);
    assert!(is_pending(&poll_query(&mut response_future, &mut client, &mut wire, ResumeToken(1))));

    // then, make sure we can still take the event receiver without panicking
    let mut event_receiver = take_event_receiver(&mut client);

    // the event was kept for the receiver
    assert_eq!(client.queued_events(), 1);
    match poll_next(&mut event_receiver, &mut client, &mut wire, ResumeToken(2)) {
        Poll::Ready(Some(Ok(event))) => {
            assert_eq!(event, encode(TransactionHeader::new(0, 5)));
        }
        other => panic!("the event was lost: {:?}", other),
    }
}

#[test]
fn client_reports_epitaph_on_query_write() {
    let mut wire = Wire::create();
    let mut client = Client::new("test_service");

    // Immediately close the channel with an epitaph.
    wire.server_close_with_epitaph(unavailable());

    let mut query = send_query(&mut client, &mut wire, &SEND_BODY, SEND_ORDINAL);
    match poll_query(&mut query, &mut client, &mut wire, ResumeToken(1)) {
        Poll::Ready(Err(e)) => assert!(is_closed_with(&e, unavailable())),
        other => panic!("expected the epitaph: {:?}", other),
    }
}

#[test]
fn client_query_result_check() {
    let mut wire = Wire::create();
    let mut client = Client::new("test_service");

    // Sending works, and checking when a message successfully sends returns itself.
    let active_fut = send_query(&mut client, &mut wire, &SEND_BODY, SEND_ORDINAL);

    let mut checked_fut = active_fut.check().expect("failed to check future");

    // Should be able to complete the query even after checking.
    let buffer = wire.server_read().expect("failed to recv msg");
    let two_way_tx_id = 1u8;
    assert_eq!(buffer, expected_sent_bytes(two_way_tx_id));

    send_transaction(TransactionHeader::new(two_way_tx_id as u32, 42), &mut wire);

    match poll_query(&mut checked_fut, &mut client, &mut wire, ResumeToken(1)) {
        Poll::Ready(Ok(x)) => assert_eq!(x.body[0], SEND_DATA),
        other => panic!("fidl error: {:?}", other),
    }

    // Close the server channel, meaning the next query will fail before it even starts.
    wire.server_close();

    let query_fut = send_query(&mut client, &mut wire, &SEND_BODY, SEND_ORDINAL);

    // This should be an error, because the server end is closed.
    let error = query_fut.check().expect_err("Didn't make an error on check");
    assert!(is_closed_with(&error, Status::from_raw(ZX_ERR_PEER_CLOSED)));
    assert!(error.is_closed());
}

#[test]
fn one_way_message_is_header_and_body_with_txid_zero() {
    let client = Client::new("test_service");
    let message = client.send(&[1, 2, 3], 0x0102_0304_0506_0708);
    assert_eq!(
        message,
        vec![0, 0, 0, 0, 0, 0, 0, 1, 8, 7, 6, 5, 4, 3, 2, 1, 1, 2, 3]
    );
    let empty = client.send(&[], 0);
    assert_eq!(empty, vec![0, 0, 0, 0, 0, 0, 0, 1, 0, 0, 0, 0, 0, 0, 0, 0]);
}

#[test]
fn call_message_carries_its_txid() {
    let mut client = Client::new("test_service");
    let (first, message) = client.call_send_raw_query(&[9], 7);
    assert_eq!(first, Txid(1));
    assert_eq!(message, vec![1, 0, 0, 0, 0, 0, 0, 1, 7, 0, 0, 0, 0, 0, 0, 0, 9]);
    let (second, message) = client.send_query(&[], 0x1_0000_0000);
    assert_eq!(second, Txid(2));
    assert_eq!(message, vec![2, 0, 0, 0, 0, 0, 0, 1, 0, 0, 0, 0, 1, 0, 0, 0]);
    let (third, _) = client.try_send_query(&[], 1).expect("the table has room");
    assert_eq!(third, Txid(3));
    assert!(client.is_registered(InterestId(0)));
    assert!(client.is_registered(InterestId(1)));
    assert!(client.is_registered(InterestId(2)));
    assert!(!client.is_registered(InterestId(3)));
}

#[test]
fn response_reaches_its_call_among_others() {
    let mut wire = Wire::create();
    let mut client = Client::new("test_service");
    let _events = take_event_receiver(&mut client);
    let mut first = send_raw_query(&mut client, &mut wire, |txid| {
        Ok(encode(TransactionHeader::new(txid.as_raw_id(), 1)))
    })
    .unwrap();
    let mut second = send_raw_query(&mut client, &mut wire, |txid| {
        Ok(encode(TransactionHeader::new(txid.as_raw_id(), 2)))
    })
    .unwrap();
    assert_eq!(first.id(), Txid(1));
    assert_eq!(second.id(), Txid(2));
    assert!(is_pending(&poll_response(&mut first, &mut client, &mut wire, ResumeToken(1))));
    assert!(is_pending(&poll_response(&mut second, &mut client, &mut wire, ResumeToken(2))));

    // an event, the response to the second call, another event, then the
    // response to the first call
    let event_a = encode_transaction(&TransactionHeader::new(0, 5), &[10]);
    let answer_2 = encode_transaction(&TransactionHeader::new(2, 2), &[20]);
    let event_b = encode_transaction(&TransactionHeader::new(0, 6), &[30]);
    let answer_1 = encode_transaction(&TransactionHeader::new(1, 1), &[40]);
    wire.server_write(event_a.clone());
    wire.server_write(answer_2.clone());
    wire.server_write(event_b.clone());
    wire.server_write(answer_1.clone());

    match poll_response(&mut first, &mut client, &mut wire, ResumeToken(1)) {
        Poll::Ready(Ok(message)) => assert_eq!(message, answer_1),
        other => panic!("the first call got {:?}", other),
    }
    assert!(first.is_completed());
    match poll_response(&mut second, &mut client, &mut wire, ResumeToken(2)) {
        Poll::Ready(Ok(message)) => assert_eq!(message, answer_2),
        other => panic!("the second call got {:?}", other),
    }
    assert_eq!(client.queued_events(), 2);
    assert!(!client.is_registered(InterestId(0)));
    assert!(!client.is_registered(InterestId(1)));

    // a completed call fails when it is polled again
    assert!(matches!(
        poll_response(&mut first, &mut client, &mut wire, ResumeToken(1)),
        Poll::Ready(Err(Error::PollAfterCompletion))
    ));
}

#[test]
fn events_are_observed_in_the_order_sent() {
    let mut wire = Wire::create();
    let mut client = Client::new("test_service");
    let mut stream = take_event_receiver(&mut client);
    let mut call = send_raw_query(&mut client, &mut wire, |txid| {
        Ok(encode(TransactionHeader::new(txid.as_raw_id(), 1)))
    })
    .unwrap();

    let event_a = encode_transaction(&TransactionHeader::new(0, 5), &[1]);
    let answer = encode_transaction(&TransactionHeader::new(1, 1), &[2]);
    let event_b = encode_transaction(&TransactionHeader::new(0, 5), &[3]);
    wire.server_write(event_a.clone());
    wire.server_write(answer.clone());
    wire.server_write(event_b.clone());

    match poll_next(&mut stream, &mut client, &mut wire, ResumeToken(2)) {
        Poll::Ready(Some(Ok(event))) => assert_eq!(event, event_a),
        other => panic!("expected the first event: {:?}", other),
    }
    match poll_next(&mut stream, &mut client, &mut wire, ResumeToken(2)) {
        Poll::Ready(Some(Ok(event))) => assert_eq!(event, event_b),
        other => panic!("expected the second event: {:?}", other),
    }
    assert!(is_pending(&poll_next(&mut stream, &mut client, &mut wire, ResumeToken(2))));
    match poll_response(&mut call, &mut client, &mut wire, ResumeToken(1)) {
        Poll::Ready(Ok(message)) => assert_eq!(message, answer),
        other => panic!("the call got {:?}", other),
    }
}

#[test]
fn response_after_drop_is_discarded() {
    let mut wire = Wire::create();
    let mut client = Client::new("test_service");
    let mut call = send_raw_query(&mut client, &mut wire, |txid| {
        Ok(encode(TransactionHeader::new(txid.as_raw_id(), 1)))
    })
    .unwrap();
    assert!(is_pending(&poll_response(&mut call, &mut client, &mut wire, ResumeToken(1))));
    drop_response(call, &mut client, &mut wire);

    // the slot is kept until the response is seen, so that the id is not
    // handed out again
    assert!(client.is_registered(InterestId(0)));
    let (next, _) = client.send_query(&[], 1);
    assert_eq!(next, Txid(2));

    send_transaction(TransactionHeader::new(1, 1), &mut wire);
    assert_eq!(recv_all(&mut client, &mut wire), Ok(None));
    assert!(!client.is_registered(InterestId(0)));
    assert!(client.is_registered(InterestId(1)));
    assert_eq!(client.queued_events(), 0);

    // the id of the dropped call is free again
    let (reused, _) = client.send_query(&[], 1);
    assert_eq!(reused, Txid(1));
}

#[test]
fn dropping_a_call_with_a_response_frees_its_slot() {
    let mut wire = Wire::create();
    let mut client = Client::new("test_service");
    let call = send_raw_query(&mut client, &mut wire, |txid| {
        Ok(encode(TransactionHeader::new(txid.as_raw_id(), 1)))
    })
    .unwrap();
    send_transaction(TransactionHeader::new(1, 1), &mut wire);
    assert_eq!(recv_all(&mut client, &mut wire), Ok(None));
    assert!(client.is_registered(InterestId(0)));
    drop_response(call, &mut client, &mut wire);
    assert!(!client.is_registered(InterestId(0)));
}

#[test]
fn response_for_unknown_txid_is_dropped() {
    let mut wire = Wire::create();
    let mut client = Client::new("test_service");
    send_transaction(TransactionHeader::new(17, 1), &mut wire);
    assert_eq!(recv_all(&mut client, &mut wire), Ok(None));
    assert_eq!(client.queued_events(), 0);
    assert!(!client.is_registered(InterestId(16)));
}

#[test]
fn epitaph_is_kept_for_every_later_operation() {
    let mut wire = Wire::create();
    let mut client = Client::new("test_service");
    let mut call = send_raw_query(&mut client, &mut wire, |txid| {
        Ok(encode(TransactionHeader::new(txid.as_raw_id(), 1)))
    })
    .unwrap();
    wire.server_write_epitaph(unavailable());
    // what follows the epitaph is never read
    send_transaction(TransactionHeader::new(1, 1), &mut wire);

    assert_eq!(recv_all(&mut client, &mut wire), Ok(Some(unavailable())));
    assert_eq!(client.epitaph(), Some(unavailable()));
    assert_eq!(wire.to_client.len(), 1);
    assert_eq!(recv_all(&mut client, &mut wire), Ok(Some(unavailable())));
    assert_eq!(wire.to_client.len(), 1);
    assert!(matches!(client.recv_begin(), RecvBegin::Closed(status) if status == unavailable()));

    // a read that is handed to a closed client changes nothing
    let step = client.recv_next(ChannelRead::Message(encode(TransactionHeader::new(0, 5))));
    assert_eq!(step.result, Some(Ok(Some(unavailable()))));
    assert!(step.wake.is_empty());
    assert_eq!(client.queued_events(), 0);

    match poll_response(&mut call, &mut client, &mut wire, ResumeToken(1)) {
        Poll::Ready(Err(e)) => assert!(is_closed_with(&e, unavailable())),
        other => panic!("expected the epitaph: {:?}", other),
    }
}

#[test]
fn closed_peer_without_epitaph() {
    let mut wire = Wire::create();
    let mut client = Client::new("test_service");
    let mut call = send_raw_query(&mut client, &mut wire, |txid| {
        Ok(encode(TransactionHeader::new(txid.as_raw_id(), 1)))
    })
    .unwrap();
    assert!(is_pending(&poll_response(&mut call, &mut client, &mut wire, ResumeToken(1))));
    wire.server_close();
    assert_eq!(wire.wake_count(ResumeToken(1)), 1);
    let peer_closed = Status::from_raw(ZX_ERR_PEER_CLOSED);
    match poll_response(&mut call, &mut client, &mut wire, ResumeToken(1)) {
        Poll::Ready(Err(e)) => assert!(is_closed_with(&e, peer_closed)),
        other => panic!("expected the closed channel: {:?}", other),
    }
    assert_eq!(client.epitaph(), Some(peer_closed));
    // the waiting call was resumed by the pass that found the peer closed
    assert_eq!(wire.wake_count(ResumeToken(1)), 2);
}

#[test]
fn read_failure_goes_to_the_poll_that_met_it() {
    let mut client = Client::new("test_service");
    let (txid, _) = client.send_query(&[], 1);
    let (_, _) = client.send_query(&[], 1);
    let mut call = MessageResponse::new(txid);
    let mut other = MessageResponse::new(Txid(2));
    assert_eq!(other.poll_begin(&mut client, ResumeToken(2)), None);
    assert_eq!(call.poll_begin(&mut client, ResumeToken(1)), None);
    let step = client.recv_next(ChannelRead::Failed(Status::from_raw(-10)));
    assert!(step.wake.is_empty());
    assert_eq!(step.result, Some(Err(Error::ClientRead(Status::from_raw(-10)))));
    assert_eq!(client.epitaph(), None);
    let (poll, wake) = call.poll_end(&mut client, step.result.unwrap());
    assert_eq!(poll, Poll::Ready(Err(Error::ClientRead(Status::from_raw(-10)))));
    assert_eq!(wake, None);
    // the error was that of the pass: the call goes on
    assert!(!call.is_completed());
    // both calls are still there, and still wait
    assert!(client.is_registered(InterestId(0)));
    assert!(client.is_registered(InterestId(1)));
    assert_eq!(client.get_pending_waker(), Some(ResumeToken(1)));

    // the response still reaches the call, and is yielded without a pass
    let answer = encode(TransactionHeader::new(1, 1));
    let step = client.recv_next(ChannelRead::Message(answer.clone()));
    assert_eq!(step.wake, vec![ResumeToken(1)]);
    assert_eq!(
        call.poll_begin(&mut client, ResumeToken(1)),
        Some((Ok(answer), Some(ResumeToken(2))))
    );
    assert!(call.is_completed());
    assert!(!client.is_registered(InterestId(0)));
    assert_eq!(
        call.poll_begin(&mut client, ResumeToken(1)),
        Some((Err(Error::PollAfterCompletion), None))
    );
    assert_eq!(call.release(&mut client), None);
}

#[test]
fn stored_response_comes_before_a_failed_pass() {
    let mut wire = Wire::create();
    let mut client = Client::new("test_service");
    let mut call = send_raw_query(&mut client, &mut wire, |txid| {
        Ok(encode(TransactionHeader::new(txid.as_raw_id(), 1)))
    })
    .unwrap();
    let mut query = send_query(&mut client, &mut wire, &[], 1);
    assert!(is_pending(&poll_response(&mut call, &mut client, &mut wire, ResumeToken(1))));
    assert!(is_pending(&poll_query(&mut query, &mut client, &mut wire, ResumeToken(2))));

    // the two responses arrive, and behind them a message that cannot be read
    let answer_1 = encode_transaction(&TransactionHeader::new(1, 1), &[1]);
    let answer_2 = encode_transaction(&TransactionHeader::new(2, 1), &[2]);
    wire.server_write(answer_1.clone());
    wire.server_write(answer_2.clone());
    wire.server_write(vec![0; 3]);
    wire.server_write(encode(TransactionHeader::new_full(0, 5, 9)));

    // the pass of this poll stores both responses and fails on the third
    // message: the call gets its response all the same
    match poll_response(&mut call, &mut client, &mut wire, ResumeToken(1)) {
        Poll::Ready(Ok(message)) => assert_eq!(message, answer_1),
        other => panic!("the call got {:?}", other),
    }
    assert!(call.is_completed());
    assert_eq!(wire.to_client.len(), 1);

    // the response of the query is in its slot: it is yielded without a
    // pass, and what cannot be read stays in the channel
    match poll_query(&mut query, &mut client, &mut wire, ResumeToken(2)) {
        Poll::Ready(Ok(response)) => assert_eq!(response.body, vec![2]),
        other => panic!("the query got {:?}", other),
    }
    assert!(query.is_terminated());
    assert_eq!(wire.to_client.len(), 1);
    assert!(!client.is_registered(InterestId(0)));
    assert!(!client.is_registered(InterestId(1)));
}

#[test]
fn stored_response_comes_before_the_epitaph() {
    let mut wire = Wire::create();
    let mut client = Client::new("test_service");
    let mut call = send_raw_query(&mut client, &mut wire, |txid| {
        Ok(encode(TransactionHeader::new(txid.as_raw_id(), 1)))
    })
    .unwrap();
    let mut late = send_raw_query(&mut client, &mut wire, |txid| {
        Ok(encode(TransactionHeader::new(txid.as_raw_id(), 1)))
    })
    .unwrap();
    let answer = encode_transaction(&TransactionHeader::new(1, 1), &[1]);
    wire.server_write(answer.clone());
    wire.server_close_with_epitaph(unavailable());
    assert_eq!(recv_all(&mut client, &mut wire), Ok(Some(unavailable())));

    match poll_response(&mut call, &mut client, &mut wire, ResumeToken(1)) {
        Poll::Ready(Ok(message)) => assert_eq!(message, answer),
        other => panic!("the call got {:?}", other),
    }
    match poll_response(&mut late, &mut client, &mut wire, ResumeToken(2)) {
        Poll::Ready(Err(e)) => assert!(is_closed_with(&e, unavailable())),
        other => panic!("the late call got {:?}", other),
    }
    // the lower steps agree
    let id = client.register_msg_interest();
    assert_eq!(client.take_stored_response(id), None);
    let step = client.recv_next(ChannelRead::Pending);
    assert_eq!(step.result, Some(Ok(Some(unavailable()))));
}

#[test]
fn call_ends_once_with_the_closed_channel() {
    let mut wire = Wire::create();
    let mut client = Client::new("test_service");
    let mut call = send_raw_query(&mut client, &mut wire, |txid| {
        Ok(encode(TransactionHeader::new(txid.as_raw_id(), 1)))
    })
    .unwrap();
    assert!(is_pending(&poll_response(&mut call, &mut client, &mut wire, ResumeToken(1))));
    wire.server_close_with_epitaph(unavailable());

    match poll_response(&mut call, &mut client, &mut wire, ResumeToken(1)) {
        Poll::Ready(Err(e)) => assert!(is_closed_with(&e, unavailable())),
        other => panic!("expected the epitaph: {:?}", other),
    }
    assert!(call.is_completed());
    // polled again, the call fails as polled after completion, and no pass
    // is made for it
    let wakes = wire.wake_count(ResumeToken(1));
    assert!(matches!(
        poll_response(&mut call, &mut client, &mut wire, ResumeToken(1)),
        Poll::Ready(Err(Error::PollAfterCompletion))
    ));
    assert_eq!(
        call.poll_begin(&mut client, ResumeToken(1)),
        Some((Err(Error::PollAfterCompletion), None))
    );
    assert_eq!(wire.wake_count(ResumeToken(1)), wakes);
    assert_eq!(client.get_pending_waker(), None);
    // nothing is left to give up
    assert_eq!(call.release(&mut client), None);
}

#[test]
fn query_that_met_an_error_is_given_up() {
    let mut client = Client::new("test_service");
    let (txid, _) = client.send_query(&[], 1);
    let (_, _) = client.send_query(&[], 1);
    let mut query = QueryResponseFut::new(Ok(MessageResponse::new(txid)));
    let mut other = MessageResponse::new(Txid(2));
    assert_eq!(other.poll_begin(&mut client, ResumeToken(2)), None);
    assert_eq!(query.poll_begin(&mut client, ResumeToken(1)), None);
    let (poll, wake) = query.poll_end(&mut client, Err(Error::InvalidHeader));
    assert_eq!(poll, Poll::Ready(Err(Error::InvalidHeader)));
    // the other call is resumed to read on, and was not touched
    assert_eq!(wake, Some(ResumeToken(2)));
    assert!(query.is_terminated());
    assert!(client.is_registered(InterestId(0)));
    assert_eq!(client.get_pending_waker(), Some(ResumeToken(2)));

    // the response to the query that was given up is dropped
    let step = client.recv_next(ChannelRead::Message(encode(TransactionHeader::new(1, 1))));
    assert!(step.wake.is_empty());
    assert!(!client.is_registered(InterestId(0)));
    let answer = encode(TransactionHeader::new(2, 1));
    let step = client.recv_next(ChannelRead::Message(answer.clone()));
    assert_eq!(step.wake, vec![ResumeToken(2)]);
    let (poll, _) = other.poll_end(&mut client, Ok(None));
    assert_eq!(poll, Poll::Ready(Ok(answer)));
}

#[test]
fn epitaph_resolves_each_caller() {
    let mut wire = Wire::create();
    let mut client = Client::new("test_service");
    let mut call = send_raw_query(&mut client, &mut wire, |txid| {
        Ok(encode(TransactionHeader::new(txid.as_raw_id(), 1)))
    })
    .unwrap();
    let mut query = send_query(&mut client, &mut wire, &[], 1);
    let mut stream = take_event_receiver(&mut client);
    wire.server_close_with_epitaph(unavailable());

    match poll_response(&mut call, &mut client, &mut wire, ResumeToken(1)) {
        Poll::Ready(Err(e)) => assert!(is_closed_with(&e, unavailable())),
        other => panic!("expected the epitaph: {:?}", other),
    }
    drop_response(call, &mut client, &mut wire);

    match poll_query(&mut query, &mut client, &mut wire, ResumeToken(2)) {
        Poll::Ready(Err(e)) => assert!(is_closed_with(&e, unavailable())),
        other => panic!("expected the epitaph: {:?}", other),
    }
    assert!(query.is_terminated());

    match poll_next(&mut stream, &mut client, &mut wire, ResumeToken(3)) {
        Poll::Ready(Some(Err(e))) => assert!(is_closed_with(&e, unavailable())),
        other => panic!("expected the epitaph: {:?}", other),
    }
    assert!(matches!(
        poll_next(&mut stream, &mut client, &mut wire, ResumeToken(3)),
        Poll::Ready(None)
    ));
    assert!(stream.is_terminated());

    // a call that is sent now fails at once with the same status
    let late = send_query(&mut client, &mut wire, &[], 1);
    let error = late.check().expect_err("the channel is closed");
    assert!(is_closed_with(&error, unavailable()));
}

#[test]
fn malformed_messages_are_decode_errors() {
    let mut client = Client::new("test_service");
    let step = client.recv_next(ChannelRead::Message(vec![0; 15]));
    assert_eq!(step.result, Some(Err(Error::InvalidHeader)));
    let step = client.recv_next(ChannelRead::Message(vec![]));
    assert_eq!(step.result, Some(Err(Error::InvalidHeader)));

    let step = client.recv_next(ChannelRead::Message(encode(TransactionHeader::new_full(3, 5, 2))));
    assert_eq!(step.result, Some(Err(Error::IncompatibleMagicNumber(2))));

    let epitaph = TransactionHeader::new(0, EPITAPH_ORDINAL);
    let short = encode_transaction(&epitaph, &[1, 0, 0, 0]);
    assert_eq!(client.recv_next(ChannelRead::Message(short)).result, Some(Err(Error::OutOfRange)));
    let long = encode_transaction(&epitaph, &[1, 0, 0, 0, 0, 0, 0, 0, 0]);
    assert_eq!(client.recv_next(ChannelRead::Message(long)).result, Some(Err(Error::ExtraBytes)));
    let padded = encode_transaction(&epitaph, &[1, 0, 0, 0, 0, 0, 7, 0]);
    assert_eq!(
        client.recv_next(ChannelRead::Message(padded)).result,
        Some(Err(Error::NonZeroPadding { padding_start: 4, non_zero_pos: 6 }))
    );

    // none of these closed the client or queued anything
    assert_eq!(client.epitaph(), None);
    assert_eq!(client.queued_events(), 0);
    let step = client.recv_next(ChannelRead::Pending);
    assert_eq!(step.result, Some(Ok(None)));
}

#[test]
fn classify_reads_the_header() {
    assert_eq!(classify(&encode(TransactionHeader::new(0, 5))), Incoming::Event);
    assert_eq!(
        classify(&encode(TransactionHeader::new(7, 5))),
        Incoming::Response(InterestId(6))
    );
    let epitaph = encode_transaction(
        &TransactionHeader::new(0, EPITAPH_ORDINAL),
        &encode_epitaph_body(Status::from_raw(-28)),
    );
    assert_eq!(classify(&epitaph), Incoming::Epitaph(Status::from_raw(-28)));
    // an epitaph is one whatever its transaction id
    let epitaph = encode_transaction(
        &TransactionHeader::new(9, EPITAPH_ORDINAL),
        &encode_epitaph_body(Status::from_raw(5)),
    );
    assert_eq!(classify(&epitaph), Incoming::Epitaph(Status::from_raw(5)));
    assert_eq!(classify(&[1, 2, 3]), Incoming::Invalid(Error::InvalidHeader));
}

#[test]
fn write_failures() {
    let client = Client::new("test_service");
    assert_eq!(client.send_raw_msg(Ok(())), Ok(()));
    assert_eq!(
        client.send_raw_msg(Err(Status::from_raw(-24))),
        Err(Error::ClientWrite(Status::from_raw(-24)))
    );
    assert_eq!(client.write_failed(Status::from_raw(-24)), None);
    assert_eq!(
        client.write_failed(Status::from_raw(-15)),
        Some(Error::ClientWrite(Status::from_raw(-15)))
    );
    assert_eq!(
        client.closed_on_write(Ok(None)),
        Error::ClientWrite(Status::from_raw(ZX_ERR_PEER_CLOSED))
    );
    assert_eq!(
        client.closed_on_write(Ok(Some(Status::from_raw(-28)))),
        Error::ClientChannelClosed { status: Status::from_raw(-28), service_name: "test_service" }
    );
    assert_eq!(client.closed_on_write(Err(Error::InvalidHeader)), Error::InvalidHeader);
}

#[test]
fn failed_message_builder_keeps_the_call_registered() {
    let mut client = Client::new("test_service");
    let result = client.send_raw_query(|_| Err(Error::Invalid));
    assert_eq!(result, Err(Error::Invalid));
    assert!(client.is_registered(InterestId(0)));
    let (txid, message) = client.send_raw_query(|txid| Ok(vec![txid.as_raw_id() as u8])).unwrap();
    assert_eq!(txid, Txid(2));
    assert_eq!(message, vec![2]);
}

#[test]
fn pending_waker_prefers_the_call_with_the_least_id() {
    let mut client = Client::new("test_service");
    assert_eq!(client.get_pending_waker(), None);
    let _receiver = take_event_receiver(&mut client);
    assert_eq!(client.get_pending_waker(), None);
    client.await_event(ResumeToken(7));
    assert_eq!(client.get_pending_waker(), Some(ResumeToken(7)));

    let a = client.register_msg_interest();
    let b = client.register_msg_interest();
    let c = client.register_msg_interest();
    assert_eq!((a, b, c), (InterestId(0), InterestId(1), InterestId(2)));
    assert_eq!(client.get_pending_waker(), Some(ResumeToken(7)));
    client.await_response(c, ResumeToken(3));
    assert_eq!(client.get_pending_waker(), Some(ResumeToken(3)));
    client.await_response(b, ResumeToken(2));
    assert_eq!(client.get_pending_waker(), Some(ResumeToken(2)));
    // a later token takes the place of an earlier one
    client.await_response(b, ResumeToken(4));
    assert_eq!(client.get_pending_waker(), Some(ResumeToken(4)));

    let wake = client.wake_all();
    assert_eq!(wake, vec![ResumeToken(4), ResumeToken(3), ResumeToken(7)]);
    // the calls have not polled again, the listener still waits
    assert_eq!(client.get_pending_waker(), Some(ResumeToken(7)));
    assert_eq!(client.wake_all(), vec![ResumeToken(7)]);
    assert!(client.is_registered(a) && client.is_registered(b) && client.is_registered(c));
}

#[test]
fn wake_all_keeps_a_received_response() {
    let mut client = Client::new("test_service");
    let id = client.register_msg_interest();
    client.await_response(id, ResumeToken(1));
    let answer = encode(TransactionHeader::new(1, 1));
    let step = client.recv_next(ChannelRead::Message(answer.clone()));
    assert_eq!(step.wake, vec![ResumeToken(1)]);
    assert_eq!(step.result, None);
    assert!(client.wake_all().is_empty());
    // to wait again does not lose the response either
    client.await_response(id, ResumeToken(2));
    assert_eq!(client.get_pending_waker(), None);
    assert_eq!(client.take_response(id, Ok(None)), Poll::Ready(Ok(answer)));
    assert!(!client.is_registered(id));
}

#[test]
fn event_wakes_the_listener_once() {
    let mut client = Client::new("test_service");
    let _receiver = take_event_receiver(&mut client);
    client.await_event(ResumeToken(5));
    let step = client.recv_next(ChannelRead::Message(encode(TransactionHeader::new(0, 5))));
    assert_eq!(step.wake, vec![ResumeToken(5)]);
    assert_eq!(client.listener(), EventListener::WillPoll);
    let step = client.recv_next(ChannelRead::Message(encode(TransactionHeader::new(0, 6))));
    assert!(step.wake.is_empty());
    assert_eq!(client.queued_events(), 2);
}

#[test]
fn decode_transaction_body_splits_header_and_body() {
    let message = encode_transaction(&TransactionHeader::new(3, 9), &[1, 2, 3]);
    let decoded = decode_transaction_body(message).unwrap();
    assert_eq!(decoded.header, TransactionHeader::new(3, 9));
    assert_eq!(decoded.body, vec![1, 2, 3]);
    assert_eq!(decode_transaction_body(vec![0; 15]).unwrap_err(), Error::OutOfRange);

    let message = encode_transaction(&TransactionHeader::new(3, 9), &[4]);
    let transformed =
        decode_transaction_body_fut(message, |decoded| decoded.map(|parts| parts.body.len()));
    assert_eq!(transformed, Ok(1));
}

#[test]
fn query_that_could_not_be_sent_yields_its_error_once() {
    let mut wire = Wire::create();
    let mut client = Client::new("test_service");
    let mut query = QueryResponseFut::new(Err(Error::ClientWrite(Status::from_raw(-15))));
    assert!(!query.is_terminated());
    match poll_query(&mut query, &mut client, &mut wire, ResumeToken(1)) {
        Poll::Ready(Err(e)) => assert_eq!(e, Error::ClientWrite(Status::from_raw(-15))),
        other => panic!("expected the error: {:?}", other),
    }
    assert!(query.is_terminated());
    assert_eq!(query.release(&mut client), None);
}

#[test]
fn dropping_a_query_gives_its_call_up() {
    let mut wire = Wire::create();
    let mut client = Client::new("test_service");
    let mut other = send_query(&mut client, &mut wire, &[], 1);
    let query = send_query(&mut client, &mut wire, &[], 1);
    assert!(is_pending(&poll_query(&mut other, &mut client, &mut wire, ResumeToken(1))));
    // the task of the other call is resumed, so that the channel is read on
    assert_eq!(query.release(&mut client), Some(ResumeToken(1)));
    send_transaction(TransactionHeader::new(2, 1), &mut wire);
    assert_eq!(recv_all(&mut client, &mut wire), Ok(None));
    assert!(!client.is_registered(InterestId(1)));
    assert!(client.is_registered(InterestId(0)));
}

#[test]
fn receiver_taken_again_sees_later_events() {
    let mut wire = Wire::create();
    let mut client = Client::new("test_service");
    let first = take_event_receiver(&mut client);
    drop_receiver(first, &mut client, &mut wire);

    let mut second = take_event_receiver(&mut client);
    assert!(is_pending(&poll_next(&mut second, &mut client, &mut wire, ResumeToken(1))));
    let event = encode_transaction(&TransactionHeader::new(0, 5), &[8]);
    wire.server_write(event.clone());
    assert_eq!(wire.wake_count(ResumeToken(1)), 1);
    match poll_next(&mut second, &mut client, &mut wire, ResumeToken(1)) {
        Poll::Ready(Some(Ok(message))) => assert_eq!(message, event),
        other => panic!("expected the event: {:?}", other),
    }
    assert!(is_pending(&poll_next(&mut second, &mut client, &mut wire, ResumeToken(1))));
}
