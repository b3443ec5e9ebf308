use std::sync::Arc;

use bytes::BytesMut;
use pyre_core::client::{Client, IoErrorKind, IoStep, ReadStep};
use pyre_core::head::{parse_content_length, BodyFraming, MAX_HEADERS};
use pyre_core::http1::{H1Protocol, Received, RequestCall};
use pyre_core::interest::{socket_state, Interest, PollerAction, SocketPollState, UpdateKind};
use pyre_core::protocol::AutoProtocol;
use pyre_core::responders::{ReceiverHandler, SendError, SenderHandler};
use pyre_core::server::HighLevelServer;
use pyre_core::switch::{SelectedProtocol, SwitchStatus};
use pyre_core::token::{route_event, EventSource, Token, CHECK_UPDATE};
use pyre_core::transport::{new_updates_queue, pop_update, EventLoopHandle, EventUpdate};

fn event_loop() -> (mio::Poll, EventLoopHandle) {
    let poll = mio::Poll::new().unwrap();
    let waker = mio::Waker::new(poll.registry(), mio::Token(CHECK_UPDATE)).unwrap();
    let handle = EventLoopHandle::from_queue_and_waker(new_updates_queue(), Arc::new(waker));
    (poll, handle)
}

fn drain(handle: &EventLoopHandle) -> Vec<EventUpdate> {
    let mut out = Vec::new();
    while let Some(u) = pop_update(handle.queue()) {
        out.push(u);
    }
    out
}

/// Applies a queued update to its slot as the I/O loop does; returns the
/// poller call it took.
fn apply(server: &mut HighLevelServer<u32>, u: EventUpdate) -> PollerAction {
    let action = server.plan_update(u).unwrap();
    server.commit_update(u);
    action
}

fn feed(client: &mut Client<u32>, bytes: &[u8]) -> Received {
    let (_, buffer) = client.read_parts();
    buffer.extend_from_slice(bytes);
    client.read_buffer_filled(bytes.len())
}

fn request(r: Received) -> RequestCall {
    match r {
        Received::Request(call) => call,
        Received::Incomplete => panic!("incomplete"),
        Received::Malformed => panic!("malformed"),
    }
}

fn read_bytes(client: &mut Client<u32>) -> Vec<u8> {
    let (_, buffer) = client.read_parts();
    buffer.to_vec()
}

fn feed_h1(h1: &mut H1Protocol, buffer: &mut BytesMut, bytes: &[u8]) -> Received {
    buffer.extend_from_slice(bytes);
    h1.data_received(buffer)
}

#[test]
fn token_counter_issues_tokens_past_the_reserved_ones() {
    let mut counter = pyre_core::token::TokenCounter::new();
    assert_eq!(counter.next(), Token(3));
    assert_eq!(counter.next(), Token(4));
}

#[test]
fn interest_transition_table() {
    let ff = Interest { readable: false, writable: false };
    let tf = Interest { readable: true, writable: false };
    let ft = Interest { readable: false, writable: true };
    let tt = Interest { readable: true, writable: true };
    let t = pyre_core::interest::transition;
    assert_eq!(t(ff, UpdateKind::ResumeReading), (PollerAction::Register(tf), tf));
    assert_eq!(t(ff, UpdateKind::ResumeWriting), (PollerAction::Register(ft), ft));
    assert_eq!(t(tf, UpdateKind::ResumeWriting), (PollerAction::Reregister(tt), tt));
    assert_eq!(t(ft, UpdateKind::ResumeReading), (PollerAction::Reregister(tt), tt));
    assert_eq!(t(tf, UpdateKind::PauseReading), (PollerAction::Deregister, ff));
    assert_eq!(t(ft, UpdateKind::PauseWriting), (PollerAction::Deregister, ff));
    assert_eq!(t(tt, UpdateKind::PauseReading), (PollerAction::Reregister(ft), ft));
    assert_eq!(t(tt, UpdateKind::PauseWriting), (PollerAction::Reregister(tf), tf));
    assert_eq!(t(tf, UpdateKind::ResumeReading), (PollerAction::Nothing, tf));
    assert_eq!(t(ff, UpdateKind::PauseWriting), (PollerAction::Nothing, ff));
    assert_eq!(t(tt, UpdateKind::ResumeWriting), (PollerAction::Nothing, tt));
}

#[test]
fn socket_state_prefers_read_then_write_then_shutdown() {
    assert_eq!(socket_state(true, true, true, false), Some(SocketPollState::Read));
    assert_eq!(socket_state(false, true, true, false), Some(SocketPollState::Write));
    assert_eq!(socket_state(false, false, false, true), Some(SocketPollState::Shutdown));
    assert_eq!(socket_state(false, false, true, false), Some(SocketPollState::Shutdown));
    assert_eq!(socket_state(false, false, false, false), None);
}

#[test]
fn pause_reading_twice_is_a_noop() {
    let (_poll, handle) = event_loop();
    let mut server: HighLevelServer<u32> = HighLevelServer::new(handle.share());
    let tok = server.client_accepted(1).ok().unwrap();
    for u in drain(&handle) {
        apply(&mut server, u);
    }
    let client = server.get_client(tok);
    assert_eq!(client.plan_update(UpdateKind::PauseReading), PollerAction::Deregister);
    client.commit_update(UpdateKind::PauseReading);
    assert_eq!(client.plan_update(UpdateKind::PauseReading), PollerAction::Nothing);
    client.commit_update(UpdateKind::PauseReading);
    assert!(!client.is_reading());
    assert!(!client.is_writing());
}

#[test]
fn resume_writing_twice_arms_writing_once() {
    let (_poll, handle) = event_loop();
    let mut server: HighLevelServer<u32> = HighLevelServer::new(handle.share());
    let tok = server.client_accepted(1).ok().unwrap();
    for u in drain(&handle) {
        apply(&mut server, u);
    }
    let first = apply(&mut server, EventUpdate::ResumeWriting(tok));
    let second = apply(&mut server, EventUpdate::ResumeWriting(tok));
    assert_eq!(first, PollerAction::Reregister(Interest { readable: true, writable: true }));
    assert_eq!(second, PollerAction::Nothing);
}

#[test]
fn idle_slot_is_not_rearmed() {
    let (_poll, handle) = event_loop();
    let mut server: HighLevelServer<u32> = HighLevelServer::new(handle.share());
    let tok = server.client_accepted(1).ok().unwrap();
    for u in drain(&handle) {
        apply(&mut server, u);
    }
    let client = server.get_client(tok);
    client.sock_shutdown();
    assert!(client.is_idle());
    assert!(client.is_reading());
    let updates = drain(&handle);
    assert_eq!(updates, vec![EventUpdate::PauseWriting(tok), EventUpdate::PauseReading(tok)]);
    assert_eq!(apply(&mut server, updates[0]), PollerAction::Nothing);
    assert_eq!(apply(&mut server, updates[1]), PollerAction::Deregister);
    let client = server.get_client(tok);
    assert_eq!(client.plan_update(UpdateKind::ResumeReading), PollerAction::Nothing);
    client.commit_update(UpdateKind::ResumeWriting);
    assert!(!client.is_reading() && !client.is_writing());
    assert_eq!(server.plan_update(EventUpdate::ResumeWriting(tok)), Some(PollerAction::Nothing));
    assert_eq!(server.plan_update(EventUpdate::ResumeWriting(Token(9))), None);
}

#[test]
fn scenario_get_then_response_then_pause_writing() {
    let (_poll, handle) = event_loop();
    let mut server: HighLevelServer<u32> = HighLevelServer::new(handle.share());
    let tok = server.client_accepted(7).ok().unwrap();
    assert_eq!(tok, Token(3));
    let updates = drain(&handle);
    assert_eq!(updates, vec![EventUpdate::ResumeReading(tok)]);
    assert_eq!(
        apply(&mut server, updates[0]),
        PollerAction::Register(Interest { readable: true, writable: false })
    );

    let client = server.get_client(tok);
    let mut call = request(feed(client, b"GET / HTTP/1.1\r\nHost: x\r\n\r\n"));
    assert_eq!(call.head.method, "GET");
    assert_eq!(call.head.path, "/");
    assert_eq!(call.head.version, 1);
    assert_eq!(call.head.headers.len(), 1);
    assert_eq!(call.head.headers[0].name, b"Host".to_vec());
    assert_eq!(call.head.headers[0].value, b"x".to_vec());
    assert_eq!(call.sender.token(), tok);
    assert!(read_bytes(client).is_empty());

    let response = b"HTTP/1.1 200 OK\r\nContent-Length: 2\r\n\r\nhi".to_vec();
    assert_eq!(call.sender.call(false, response.clone()), Ok(()));
    let updates = drain(&handle);
    assert_eq!(updates, vec![EventUpdate::ResumeWriting(tok)]);
    assert_eq!(
        apply(&mut server, updates[0]),
        PollerAction::Reregister(Interest { readable: true, writable: true })
    );

    let client = server.get_client(tok);
    let (_, pending) = client.write_parts();
    assert_eq!(pending.to_vec(), response);
    client.write_buffer_advance(response.len());
    client.write_buffer_drained(response.len());
    let updates = drain(&handle);
    assert_eq!(updates, vec![EventUpdate::PauseWriting(tok), EventUpdate::PauseWriting(tok)]);
    assert_eq!(
        apply(&mut server, updates[0]),
        PollerAction::Reregister(Interest { readable: true, writable: false })
    );
    assert_eq!(apply(&mut server, updates[1]), PollerAction::Nothing);
    let client = server.get_client(tok);
    assert!(client.is_reading());
    assert!(!client.is_writing());
}

#[test]
fn scenario_pipelined_requests_parse_one_at_a_time() {
    let (_poll, handle) = event_loop();
    let mut client: Client<u32> = Client::build_from(Token(3), 0, handle.share());
    let first = b"GET /a HTTP/1.1\r\nHost: x\r\n\r\n";
    let second = b"GET /b HTTP/1.1\r\nHost: x\r\n\r\n";
    let mut both = first.to_vec();
    both.extend_from_slice(second);
    let call = request(feed(&mut client, &both));
    assert_eq!(call.head.path, "/a");
    assert_eq!(call.head.len, first.len());
    assert_eq!(read_bytes(&mut client), second.to_vec());
    let call = request(client.read_buffer_filled(0));
    assert_eq!(call.head.path, "/b");
    assert!(read_bytes(&mut client).is_empty());
}

#[test]
fn scenario_post_body_arrives_after_receiver_call() {
    let (_poll, handle) = event_loop();
    let mut client: Client<u32> = Client::build_from(Token(3), 0, handle.share());
    let mut call = request(feed(&mut client, b"POST /x HTTP/1.1\r\nContent-Length: 5\r\n\r\nhel"));
    assert_eq!(call.head.method, "POST");
    assert_eq!(client.body_framing(), BodyFraming { content_length: 5, chunked: false });
    assert_eq!(read_bytes(&mut client), b"hel".to_vec());
    call.receiver.call();
    assert_eq!(drain(&handle), vec![EventUpdate::ResumeReading(Token(3))]);
    let (_, buffer) = client.read_parts();
    buffer.extend_from_slice(b"lo");
    assert_eq!(read_bytes(&mut client), b"hello".to_vec());
}

#[test]
fn scenario_reset_during_write_then_slot_reused() {
    let (_poll, handle) = event_loop();
    let mut server: HighLevelServer<u32> = HighLevelServer::new(handle.share());
    let tok = server.client_accepted(1).ok().unwrap();
    for u in drain(&handle) {
        apply(&mut server, u);
    }
    apply(&mut server, EventUpdate::ResumeWriting(tok));
    let client = server.get_client(tok);
    feed(client, b"GET / HTTP/1.1\r\n");
    let step = client.on_io_error(IoErrorKind::ConnectionReset);
    assert_eq!(step, IoStep::Shutdown);
    assert!(client.is_idle());
    assert!(client.is_reading() && client.is_writing());
    assert!(read_bytes(client).is_empty());
    let updates = drain(&handle);
    assert_eq!(updates, vec![EventUpdate::PauseWriting(tok), EventUpdate::PauseReading(tok)]);
    assert_eq!(
        apply(&mut server, updates[0]),
        PollerAction::Reregister(Interest { readable: true, writable: false })
    );
    assert_eq!(apply(&mut server, updates[1]), PollerAction::Deregister);
    assert_eq!(server.get_idle_client(), Some(tok));

    assert_eq!(server.client_accepted(2).ok(), Some(tok));
    assert_eq!(server.slot_count(), 1);
    let client = server.get_client(tok);
    assert!(!client.is_idle() && !client.is_reading() && !client.is_writing());
    assert_eq!(*client.stream_mut(), 2);
    assert!(read_bytes(client).is_empty());
}

#[test]
fn io_errors_other_than_teardown() {
    let (_poll, handle) = event_loop();
    let mut client: Client<u32> = Client::build_from(Token(3), 0, handle.share());
    assert_eq!(client.on_io_error(IoErrorKind::WouldBlock), IoStep::Done);
    assert_eq!(client.on_io_error(IoErrorKind::Other), IoStep::Fail);
    assert!(!client.is_idle());
    assert_eq!(client.on_io_error(IoErrorKind::UnexpectedEof), IoStep::Shutdown);
    assert!(client.is_idle());
    assert_eq!(client.on_io_error(IoErrorKind::ConnectionAborted), IoStep::Shutdown);
    assert!(client.is_idle());
}

#[test]
fn scenario_eleventh_send_finds_the_channel_full() {
    let (_poll, handle) = event_loop();
    let handler = SenderHandler::new(Token(3), handle.share());
    let mut sender = handler.make_handle();
    for i in 0..10u8 {
        assert_eq!(sender.call(true, vec![i]), Ok(()));
    }
    assert_eq!(sender.call(false, vec![10]), Err(SendError::ChannelFull));
    assert_eq!(drain(&handle).len(), 11);
    assert_eq!(handler.recv(), Some((true, vec![0])));
}

#[test]
fn send_after_the_connection_is_gone_fails_closed() {
    let (_poll, handle) = event_loop();
    let handler = SenderHandler::new(Token(3), handle.share());
    let mut sender = handler.make_handle();
    drop(handler);
    assert_eq!(sender.call(false, vec![1]), Err(SendError::ChannelClosed));
}

#[test]
fn hundred_headers_parse_and_one_more_fails() {
    let mut head = b"GET / HTTP/1.1\r\n".to_vec();
    for i in 0..MAX_HEADERS {
        head.extend_from_slice(format!("X-H{}: v\r\n", i).as_bytes());
    }
    let mut ok = head.clone();
    ok.extend_from_slice(b"\r\n");
    let mut too_many = head;
    too_many.extend_from_slice(b"X-Last: v\r\n\r\n");

    let (_poll, handle) = event_loop();
    let mut h1 = H1Protocol::new(Token(3), handle.share());
    let mut buffer = BytesMut::new();
    let call = request(feed_h1(&mut h1, &mut buffer, &ok));
    assert_eq!(call.head.headers.len(), 100);
    assert!(buffer.is_empty());

    let mut buffer = BytesMut::new();
    assert!(matches!(feed_h1(&mut h1, &mut buffer, &too_many), Received::Malformed));
    assert_eq!(buffer.to_vec(), too_many);
}

#[test]
fn request_in_chunks_parses_as_a_whole() {
    let message = b"GET /chunk HTTP/1.1\r\nHost: x\r\nContent-Length: 12\r\n\r\n".to_vec();
    let (_poll, handle) = event_loop();
    let mut whole = H1Protocol::new(Token(3), handle.share());
    let mut buffer = BytesMut::new();
    let expected = request(feed_h1(&mut whole, &mut buffer, &message));
    for pieces in [1usize, 2, message.len()] {
        let mut h1 = H1Protocol::new(Token(3), handle.share());
        let mut buffer = BytesMut::new();
        let size = (message.len() + pieces - 1) / pieces;
        let chunks: Vec<&[u8]> = message.chunks(size).collect();
        assert_eq!(chunks.len(), pieces);
        for chunk in &chunks[..pieces - 1] {
            assert!(matches!(feed_h1(&mut h1, &mut buffer, chunk), Received::Incomplete));
        }
        let call = request(feed_h1(&mut h1, &mut buffer, chunks[pieces - 1]));
        assert_eq!(call.head.path, expected.head.path);
        assert_eq!(call.head.len, expected.head.len);
        assert_eq!(call.head.headers.len(), expected.head.headers.len());
        assert_eq!(h1.expected_content_length(), 12);
        assert!(buffer.is_empty());
    }
}

#[test]
fn malformed_request_leaves_the_buffer_alone() {
    let (_poll, handle) = event_loop();
    let mut h1 = H1Protocol::new(Token(3), handle.share());
    let mut buffer = BytesMut::new();
    assert!(matches!(feed_h1(&mut h1, &mut buffer, b"GET / HTTP/9.9\r\n\r\n"), Received::Malformed));
    assert_eq!(buffer.to_vec(), b"GET / HTTP/9.9\r\n\r\n".to_vec());
    assert!(drain(&handle).is_empty());
}

#[test]
fn partial_head_waits_and_complete_head_reports_its_length() {
    let (_poll, handle) = event_loop();
    let mut h1 = H1Protocol::new(Token(3), handle.share());
    let mut buffer = BytesMut::new();
    assert!(matches!(feed_h1(&mut h1, &mut buffer, b"PUT /p HT"), Received::Incomplete));
    assert_eq!(buffer.to_vec(), b"PUT /p HT".to_vec());
    let call = request(feed_h1(&mut h1, &mut buffer, b"TP/1.0\r\n\r\nrest"));
    assert_eq!(call.head.len, 19);
    assert_eq!(call.head.method, "PUT");
    assert_eq!(call.head.path, "/p");
    assert_eq!(call.head.version, 0);
    assert!(call.head.headers.is_empty());
    assert_eq!(buffer.to_vec(), b"rest".to_vec());
}

#[test]
fn write_buffer_of_256_kib_drains_over_several_events() {
    let (_poll, handle) = event_loop();
    let mut server: HighLevelServer<u32> = HighLevelServer::new(handle.share());
    let tok = server.client_accepted(1).ok().unwrap();
    for u in drain(&handle) {
        apply(&mut server, u);
    }
    let client = server.get_client(tok);
    let mut call = request(feed(client, b"GET / HTTP/1.1\r\n\r\n"));
    let body: Vec<u8> = (0..262144u32).map(|i| (i % 251) as u8).collect();
    assert_eq!(call.sender.call(false, body.clone()), Ok(()));
    for u in drain(&handle) {
        apply(&mut server, u);
    }
    let mut sent = Vec::new();
    let mut events = 0;
    // Each write-ready event: the socket takes 64 KiB, then would block.
    loop {
        let client = server.get_client(tok);
        assert!(client.is_writing());
        let (_, pending) = client.write_parts();
        let n = pending.len().min(65536);
        let left = pending.len() - n;
        sent.extend_from_slice(&pending[..n]);
        events += 1;
        if left == 0 {
            assert_eq!(client.on_write_result(Ok(n)), IoStep::Continue);
            let (_, pending) = client.write_parts();
            assert!(pending.is_empty());
            assert_eq!(client.on_write_result(Ok(0)), IoStep::Done);
            break;
        }
        assert_eq!(client.on_write_result(Ok(n)), IoStep::Continue);
        assert_eq!(client.on_write_result(Err(IoErrorKind::WouldBlock)), IoStep::Done);
        let updates = drain(&handle);
        assert_eq!(updates, vec![EventUpdate::PauseWriting(tok), EventUpdate::ResumeWriting(tok)]);
        for u in updates {
            apply(&mut server, u);
        }
    }
    assert_eq!(events, 4);
    assert_eq!(sent, body);
    for u in drain(&handle) {
        apply(&mut server, u);
    }
    let client = server.get_client(tok);
    assert!(!client.is_writing());
    assert!(client.is_reading());
}

#[test]
fn content_length_values() {
    assert_eq!(parse_content_length(b"5"), 5);
    assert_eq!(parse_content_length(b"+12"), 12);
    assert_eq!(parse_content_length(b"007"), 7);
    assert_eq!(parse_content_length(b""), 0);
    assert_eq!(parse_content_length(b"+"), 0);
    assert_eq!(parse_content_length(b"-1"), 0);
    assert_eq!(parse_content_length(b"1 "), 0);
    assert_eq!(parse_content_length(b"abc"), 0);
    assert_eq!(parse_content_length(b"18446744073709551615"), usize::MAX);
    assert_eq!(parse_content_length(b"18446744073709551616"), 0);
}

#[test]
fn header_names_match_without_case_and_chunked_is_found() {
    let (_poll, handle) = event_loop();
    let mut h1 = H1Protocol::new(Token(3), handle.share());
    let mut buffer = BytesMut::new();
    let req = b"POST / HTTP/1.1\r\ncOnTeNt-LeNgTh: 42\r\nTransfer-Encoding: gzip, CHUNKED\r\n\r\n";
    request(feed_h1(&mut h1, &mut buffer, req));
    assert_eq!(h1.expected_content_length(), 42);
    assert!(h1.chunked_encoding());
    let req = b"GET / HTTP/1.1\r\nTransfer-Encoding: gzip\r\nContent-Lengthx: 3\r\n\r\n";
    request(feed_h1(&mut h1, &mut buffer, req));
    assert_eq!(h1.expected_content_length(), 0);
    assert!(!h1.chunked_encoding());
    assert!(pyre_core::head::find_ignore_ascii_case(b"xxChunKed", b"chunked"));
    assert!(!pyre_core::head::find_ignore_ascii_case(b"chunke", b"chunked"));
    assert!(pyre_core::head::eq_ignore_ascii_case(b"Content-Length", b"content-length"));
}

#[test]
fn fill_write_buffer_appends_chunks_in_order_and_pauses() {
    let (_poll, handle) = event_loop();
    let mut h1 = H1Protocol::new(Token(5), handle.share());
    let mut buffer = BytesMut::new();
    let mut call = request(feed_h1(&mut h1, &mut buffer, b"GET / HTTP/1.1\r\n\r\n"));
    call.sender.call(true, b"ab".to_vec()).unwrap();
    call.sender.call(false, b"cd".to_vec()).unwrap();
    drain(&handle);
    let mut out = BytesMut::from(&b"<"[..]);
    assert!(h1.fill_write_buffer(&mut out));
    assert_eq!(out.to_vec(), b"<abcd".to_vec());
    assert_eq!(drain(&handle), vec![EventUpdate::PauseWriting(Token(5))]);
}

#[test]
fn eof_pauses_both_directions() {
    let (_poll, handle) = event_loop();
    let mut protocol = AutoProtocol::new(Token(4), SelectedProtocol::H1, handle.share());
    protocol.eof_received();
    assert_eq!(
        drain(&handle),
        vec![EventUpdate::PauseReading(Token(4)), EventUpdate::PauseWriting(Token(4))]
    );
    assert_eq!(protocol.maybe_switch(), SwitchStatus::NoSwitch);
}

#[test]
fn lost_connection_clears_both_buffers() {
    let (_poll, handle) = event_loop();
    let mut protocol = AutoProtocol::new(Token(4), SelectedProtocol::H1, handle.share());
    protocol.read_buffer_acquire().extend_from_slice(b"GET / HTTP/1.1\r\nContent-Length: 9\r\n\r\nbody");
    request(protocol.read_buffer_filled(0));
    assert_eq!(protocol.body_framing().content_length, 9);
    protocol.lost_connection();
    assert!(protocol.read_buffer_acquire().is_empty());
    assert!(protocol.write_buffer_acquire().is_empty());
    assert_eq!(protocol.body_framing(), BodyFraming { content_length: 0, chunked: false });
}

#[test]
fn drained_with_nothing_written_pauses_writing() {
    let (_poll, handle) = event_loop();
    let mut protocol = AutoProtocol::new(Token(4), SelectedProtocol::H1, handle.share());
    protocol.write_buffer_drained(0);
    assert_eq!(drain(&handle), vec![EventUpdate::PauseWriting(Token(4))]);
}

#[test]
fn idle_slots_are_chosen_lowest_token_first() {
    let (_poll, handle) = event_loop();
    let mut server: HighLevelServer<u32> = HighLevelServer::new(handle.share());
    let a = server.client_accepted(1).ok().unwrap();
    let b = server.client_accepted(2).ok().unwrap();
    let c = server.client_accepted(3).ok().unwrap();
    assert_eq!((a, b, c), (Token(3), Token(4), Token(5)));
    assert_eq!(server.get_idle_client(), None);
    server.get_client(c).sock_shutdown();
    server.get_client(b).sock_shutdown();
    assert_eq!(server.get_idle_client(), Some(b));
    server.keep_alive_tick();
    assert_eq!(server.client_accepted(9).ok(), Some(b));
    assert_eq!(server.client_accepted(10).ok(), Some(c));
    assert_eq!(server.client_accepted(11).ok(), Some(Token(6)));
    assert!(server.has_client(Token(6)));
    assert!(!server.has_client(Token(7)));
    assert!(!server.has_client(Token(1)));
}

#[test]
fn sender_posts_resume_writing_before_the_payload() {
    let (_poll, handle) = event_loop();
    let handler = SenderHandler::new(Token(8), handle.share());
    let mut sender = handler.make_handle();
    assert_eq!(handler.recv(), None);
    assert_eq!(sender.call(true, b"part".to_vec()), Ok(()));
    assert_eq!(drain(&handle), vec![EventUpdate::ResumeWriting(Token(8))]);
    assert_eq!(handler.recv(), Some((true, b"part".to_vec())));
    assert_eq!(handler.recv(), None);
}

/// Follows the poller's registration the way the readiness loop drives
/// it, and checks the slot's flags against it after every update.
#[test]
fn flags_mirror_the_poller_registration() {
    let (_poll, handle) = event_loop();
    let mut server: HighLevelServer<u32> = HighLevelServer::new(handle.share());
    let tok = server.client_accepted(1).ok().unwrap();
    let mut registered: Option<Interest> = None;
    let mut updates = drain(&handle);
    updates.extend(vec![
        EventUpdate::ResumeWriting(tok),
        EventUpdate::PauseReading(tok),
        EventUpdate::PauseReading(tok),
        EventUpdate::ResumeReading(tok),
        EventUpdate::PauseWriting(tok),
        EventUpdate::PauseReading(tok),
        EventUpdate::ResumeWriting(tok),
        EventUpdate::ResumeWriting(tok),
    ]);
    for u in updates {
        match apply(&mut server, u) {
            PollerAction::Nothing => {}
            PollerAction::Register(i) => {
                assert!(registered.is_none());
                registered = Some(i);
            }
            PollerAction::Reregister(i) => {
                assert!(registered.is_some());
                registered = Some(i);
            }
            PollerAction::Deregister => {
                assert!(registered.is_some());
                registered = None;
            }
        }
        let client = server.get_client(tok);
        let flags = Interest { readable: client.is_reading(), writable: client.is_writing() };
        match registered {
            None => assert_eq!(flags, Interest { readable: false, writable: false }),
            Some(i) => assert_eq!(flags, i),
        }
    }
    assert_eq!(registered, Some(Interest { readable: false, writable: true }));
}

#[test]
fn sender_steps_post_then_offer() {
    let (_poll, handle) = event_loop();
    let handler = SenderHandler::new(Token(8), handle.share());
    let mut sender = handler.make_handle();
    sender.announce();
    assert_eq!(drain(&handle), vec![EventUpdate::ResumeWriting(Token(8))]);
    assert_eq!(handler.recv(), None);
    assert_eq!(sender.offer(false, b"x".to_vec()), Ok(()));
    assert!(drain(&handle).is_empty());
    assert_eq!(handler.recv(), Some((false, b"x".to_vec())));
}

#[test]
fn write_would_block_with_nothing_left_posts_nothing() {
    let (_poll, handle) = event_loop();
    let mut client: Client<u32> = Client::build_from(Token(3), 0, handle.share());
    client.write_would_block();
    assert!(drain(&handle).is_empty());
}

#[test]
fn read_results_parse_or_stop() {
    let (_poll, handle) = event_loop();
    let mut client: Client<u32> = Client::build_from(Token(3), 0, handle.share());
    let (_, buffer) = client.read_parts();
    buffer.extend_from_slice(b"GET /r HTTP/1.1\r\n\r\n");
    match client.on_read_result(Ok(19)) {
        ReadStep::Parsed(received) => assert_eq!(request(received).head.path, "/r"),
        ReadStep::Stopped(_) => panic!("expected a parse"),
    }
    assert!(matches!(client.on_read_result(Err(IoErrorKind::WouldBlock)), ReadStep::Stopped(IoStep::Done)));
    assert!(matches!(client.on_read_result(Err(IoErrorKind::Other)), ReadStep::Stopped(IoStep::Fail)));
    assert!(!client.is_idle());
    assert!(matches!(client.on_read_result(Ok(0)), ReadStep::Stopped(IoStep::Shutdown)));
    assert!(client.is_idle());
    assert_eq!(
        drain(&handle),
        vec![EventUpdate::PauseWriting(Token(3)), EventUpdate::PauseReading(Token(3))]
    );
}

#[test]
fn write_result_reset_shuts_the_slot_down() {
    let (_poll, handle) = event_loop();
    let mut client: Client<u32> = Client::build_from(Token(3), 0, handle.share());
    assert_eq!(client.on_write_result(Err(IoErrorKind::ConnectionReset)), IoStep::Shutdown);
    assert!(client.is_idle());
    assert_eq!(client.on_write_result(Err(IoErrorKind::Other)), IoStep::Fail);
}

#[test]
fn events_route_by_token() {
    assert_eq!(route_event(0), EventSource::Listener);
    assert_eq!(route_event(1), EventSource::Updates);
    assert_eq!(route_event(3), EventSource::Connection(Token(3)));
    assert_eq!(route_event(2), EventSource::Connection(Token(2)));
}

#[test]
fn request_body_channel_takes_chunks_for_the_application() {
    let (_poll, handle) = event_loop();
    let mut handler = ReceiverHandler::new(Token(3), handle.share());
    let receiver = handler.make_handle();
    assert_eq!(receiver.try_take(), None);
    for i in 0..10u8 {
        assert_eq!(handler.send((true, vec![i])), Ok(()));
    }
    assert_eq!(handler.send((false, vec![10])), Err(SendError::ChannelFull));
    assert_eq!(receiver.try_take(), Some((true, vec![0])));
}
