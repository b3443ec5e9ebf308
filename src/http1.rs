use vstd::prelude::*;
use bytes::BytesMut;
use crate::buffer::{bytes_of, buffer_bytes, buffer_discard_front, buffer_extend, buffer_len};
use crate::head::{
    BodyFraming, HeadParse, HeadParseView, MAX_HEADERS, RequestHead, parse_request_head,
    request_head, scan_header_fields, scan_headers,
};
use crate::channel::{CHANNEL_CAPACITY, Payload};
use crate::responders::{DataReceiver, DataSender, ReceiverHandler, SenderHandler};
use crate::switch::{SwitchStatus, Switchable};
use crate::token::Token;
use crate::transport::{EventLoopHandle, EventUpdate};

verus! {

/// The framing a connection starts with: no length, not chunked.
pub open spec fn no_framing() -> BodyFraming {
    BodyFraming { content_length: 0, chunked: false }
}

/// A parsed request, ready for the application callback, with the handles
/// through which the application answers.
pub struct RequestCall {
    pub sender: DataSender,
    pub receiver: DataReceiver,
    pub head: RequestHead,
}

/// What one pass of the parser over the read buffer produced.
pub enum Received {
    /// A request head was parsed and consumed from the buffer.
    Request(RequestCall),
    /// The buffer holds the beginning of a request head: wait for more.
    Incomplete,
    /// The buffer does not begin with a valid request head. The buffer is
    /// left as it is and nothing is dispatched.
    Malformed,
}

/// `r` is what one parser pass over `buf` reports: the request for a
/// complete head, `Incomplete` for the beginning of one, `Malformed`
/// otherwise.
pub open spec fn received_matches(r: Received, buf: Seq<u8>) -> bool {
    match request_head(buf) {
        HeadParseView::Complete(h) => r is Request && r->Request_0.head@ == h,
        HeadParseView::Partial => r is Incomplete,
        HeadParseView::Invalid => r is Malformed,
    }
}

/// The HTTP/1.x protocol state of one connection.
pub struct H1Protocol {
    event_loop: EventLoopHandle,
    token: Token,
    sender: SenderHandler,
    receiver: ReceiverHandler,
    expected_content_length: usize,
    chunked_encoding: bool,
}

impl H1Protocol {
    pub closed spec fn token_spec(&self) -> Token {
        self.token
    }

    /// The body framing announced by the last parsed request.
    pub closed spec fn framing(&self) -> BodyFraming {
        BodyFraming {
            content_length: self.expected_content_length,
            chunked: self.chunked_encoding,
        }
    }

    /// The updates this protocol has posted.
    pub closed spec fn posted(&self) -> Seq<EventUpdate> {
        self.event_loop.posted()
    }

    /// The tokens the response and request-body handles are bound to.
    pub closed spec fn handles_token(&self) -> (Token, Token) {
        (self.sender.token_spec(), self.receiver.token_spec())
    }

    /// The capacities of the response and request-body channels.
    pub closed spec fn channel_capacities(&self) -> (nat, nat) {
        (self.sender.capacity(), self.receiver.capacity())
    }

    pub closed spec fn wf(&self) -> bool {
        &&& self.sender.token_spec() == self.token
        &&& self.receiver.token_spec() == self.token
    }

    pub fn new(token: Token, event_loop: EventLoopHandle) -> (r: Self)
        ensures
            r.wf(),
            r.token_spec() == token,
            r.handles_token() == (token, token),
            r.channel_capacities() == (CHANNEL_CAPACITY as nat, CHANNEL_CAPACITY as nat),
            r.framing() == no_framing(),
            r.posted() == event_loop.posted(),
    {
        let sender = SenderHandler::new(token, event_loop.share());
        let receiver = ReceiverHandler::new(token, event_loop.share());
        Self {
            token,
            event_loop,
            sender,
            receiver,
            expected_content_length: 0,
            chunked_encoding: false,
        }
    }

    /// The expected body length announced by the last request.
    pub fn expected_content_length(&self) -> (r: usize)
        ensures
            r == self.framing().content_length,
    {
        self.expected_content_length
    }

    /// Whether the last request announced a chunked body.
    pub fn chunked_encoding(&self) -> (r: bool)
        ensures
            r == self.framing().chunked,
    {
        self.chunked_encoding
    }

    /// The protocol now serves a new connection: per-connection state is
    /// as at construction.
    pub fn new_connection(&mut self)
        requires
            old(self).wf(),
        ensures
            final(self).wf(),
            final(self).token_spec() == old(self).token_spec(),
            final(self).framing() == no_framing(),
            final(self).posted() == old(self).posted(),
    {
        self.expected_content_length = 0;
        self.chunked_encoding = false;
    }

    /// The connection was lost: parsing state is reset.
    pub fn lost_connection(&mut self)
        requires
            old(self).wf(),
        ensures
            final(self).wf(),
            final(self).token_spec() == old(self).token_spec(),
            final(self).framing() == no_framing(),
            final(self).posted() == old(self).posted(),
    {
        self.expected_content_length = 0;
        self.chunked_encoding = false;
    }

    /// Parses one request head at the front of `buffer`.
    ///
    /// On a complete head its bytes are consumed, the body framing is read
    /// from its headers, and the request is returned with fresh handles
    /// bound to this connection. On an incomplete or malformed head nothing
    /// changes.
    pub fn data_received(&mut self, buffer: &mut BytesMut) -> (r: Received)
        requires
            old(self).wf(),
        ensures
            final(self).wf(),
            final(self).token_spec() == old(self).token_spec(),
            final(self).posted() == old(self).posted(),
            bytes_of(*final(buffer)) == after_parse(bytes_of(*old(buffer))),
            match request_head(bytes_of(*old(buffer))) {
                HeadParseView::Complete(h) => {
                    &&& r is Request
                    &&& r->Request_0.head@ == h
                    &&& r->Request_0.sender.token_spec() == old(self).token_spec()
                    &&& r->Request_0.sender.history().len() == 0
                    &&& r->Request_0.receiver.token_spec() == old(self).token_spec()
                    &&& h.len <= bytes_of(*old(buffer)).len()
                    &&& h.headers.len() <= MAX_HEADERS
                    &&& bytes_of(*final(buffer)) == bytes_of(*old(buffer)).subrange(
                        h.len as int,
                        bytes_of(*old(buffer)).len() as int,
                    )
                    &&& final(self).framing() == scan_headers(no_framing(), h.headers)
                },
                HeadParseView::Partial => {
                    &&& r is Incomplete
                    &&& *final(buffer) == *old(buffer)
                    &&& final(self).framing() == old(self).framing()
                },
                HeadParseView::Invalid => {
                    &&& r is Malformed
                    &&& *final(buffer) == *old(buffer)
                    &&& final(self).framing() == old(self).framing()
                },
            },
    {
        let parsed = parse_request_head(buffer_bytes(buffer));
        match parsed {
            HeadParse::Complete(head) => {
                buffer_discard_front(buffer, head.len);
                let framing = scan_header_fields(
                    BodyFraming { content_length: 0, chunked: false },
                    &head.headers,
                );
                self.expected_content_length = framing.content_length;
                self.chunked_encoding = framing.chunked;
                let sender = self.sender.make_handle();
                let receiver = self.receiver.make_handle();
                Received::Request(RequestCall { sender, receiver, head })
            },
            HeadParse::Partial => Received::Incomplete,
            HeadParse::Invalid => Received::Malformed,
        }
    }

    /// Moves the response chunks waiting in the channel (at most one
    /// channel's worth) onto the end of `buffer`, whole and in order, then
    /// posts `PauseWriting` for the connection. Which chunks were waiting is
    /// up to the application. Returns `false` when a chunk taken could not
    /// be appended: it would have grown the buffer past `isize::MAX` bytes,
    /// so it was dropped and the draining stopped.
    pub fn fill_write_buffer(&mut self, buffer: &mut BytesMut) -> (r: bool)
        requires
            old(self).wf(),
        ensures
            final(self).wf(),
            final(self).token_spec() == old(self).token_spec(),
            final(self).framing() == old(self).framing(),
            final(self).posted() == old(self).posted().push(
                EventUpdate::PauseWriting(old(self).token_spec()),
            ),
            exists|chunks: Seq<Seq<u8>>|
                chunks.len() <= CHANNEL_CAPACITY && bytes_of(*final(buffer)) == bytes_of(
                    *old(buffer),
                ) + #[trigger] joined(chunks),
            !r ==> exists|dropped: Seq<u8>|
                bytes_of(*final(buffer)).len() + #[trigger] dropped.len() > isize::MAX,
    {
        let mut taken: usize = 0;
        let mut ok = true;
        let ghost mut dropped: Seq<u8> = Seq::empty();
        let ghost mut chunks: Seq<Seq<u8>> = Seq::empty();
        assert(bytes_of(*buffer) =~= bytes_of(*old(buffer)) + joined(chunks));
        while taken < CHANNEL_CAPACITY
            invariant
                self.wf(),
                self.token_spec() == old(self).token_spec(),
                self.framing() == old(self).framing(),
                self.posted() == old(self).posted(),
                chunks.len() == taken,
                taken <= CHANNEL_CAPACITY,
                bytes_of(*buffer) == bytes_of(*old(buffer)) + joined(chunks),
                !ok ==> bytes_of(*buffer).len() + dropped.len() > isize::MAX,
            decreases CHANNEL_CAPACITY - taken,
        {
            match self.sender.recv() {
                Some(payload) => {
                    let ghost before = bytes_of(*buffer);
                    if !append_payload(buffer, &payload) {
                        proof {
                            dropped = payload.1@;
                        }
                        ok = false;
                        break;
                    }
                    proof {
                        let next = chunks.push(payload.1@);
                        assert(next.drop_last() =~= chunks);
                        assert(bytes_of(*buffer) =~= bytes_of(*old(buffer)) + joined(next));
                        chunks = next;
                    }
                    taken = taken + 1;
                },
                None => break,
            }
        }
        self.event_loop.pause_writing(self.token);
        proof {
            if !ok {
                assert(bytes_of(*buffer).len() + dropped.len() > isize::MAX);
            }
        }
        ok
    }

    /// Asks for writing to be paused: posts `PauseWriting` for the
    /// connection.
    pub fn pause_writing(&mut self)
        requires
            old(self).wf(),
        ensures
            final(self).wf(),
            final(self).token_spec() == old(self).token_spec(),
            final(self).handles_token() == old(self).handles_token(),
            final(self).framing() == old(self).framing(),
            final(self).posted() == old(self).posted().push(
                EventUpdate::PauseWriting(old(self).token_spec()),
            ),
    {
        self.event_loop.pause_writing(self.token);
    }

    /// Asks for writing to be armed again: posts `ResumeWriting` for the
    /// connection.
    pub fn rearm_writing(&mut self)
        requires
            old(self).wf(),
        ensures
            final(self).wf(),
            final(self).token_spec() == old(self).token_spec(),
            final(self).handles_token() == old(self).handles_token(),
            final(self).framing() == old(self).framing(),
            final(self).posted() == old(self).posted().push(
                EventUpdate::ResumeWriting(old(self).token_spec()),
            ),
    {
        self.event_loop.resume_writing(self.token);
    }

    /// The peer sent end-of-file: stop watching the connection in both
    /// directions.
    pub fn eof_received(&mut self)
        requires
            old(self).wf(),
        ensures
            final(self).wf(),
            final(self).token_spec() == old(self).token_spec(),
            final(self).framing() == old(self).framing(),
            final(self).posted() == old(self).posted().push(
                EventUpdate::PauseReading(old(self).token_spec()),
            ).push(EventUpdate::PauseWriting(old(self).token_spec())),
    {
        self.event_loop.pause_reading(self.token);
        self.event_loop.pause_writing(self.token);
    }
}

/// Appends a payload's body to `buffer` when the result stays within
/// `isize::MAX` bytes; returns whether it did.
pub fn append_payload(buffer: &mut BytesMut, payload: &Payload) -> (r: bool)
    ensures
        r <==> bytes_of(*old(buffer)).len() + payload.1@.len() <= isize::MAX,
        r ==> bytes_of(*final(buffer)) == bytes_of(*old(buffer)) + payload.1@,
        !r ==> *final(buffer) == *old(buffer),
{
    let len = buffer_len(buffer);
    let extra = payload.1.len();
    if len as u64 <= isize::MAX as u64 && extra as u64 <= isize::MAX as u64 - len as u64 {
        buffer_extend(buffer, payload.1.as_slice());
        true
    } else {
        false
    }
}

/// The read buffer after one parser pass over `buf`: a complete head is
/// consumed, anything else stays.
pub open spec fn after_parse(buf: Seq<u8>) -> Seq<u8> {
    match request_head(buf) {
        HeadParseView::Complete(h) => buf.subrange(h.len as int, buf.len() as int),
        _ => buf,
    }
}

/// The chunks, joined in order.
pub open spec fn joined(chunks: Seq<Seq<u8>>) -> Seq<u8>
    decreases chunks.len(),
{
    if chunks.len() == 0 {
        Seq::empty()
    } else {
        joined(chunks.drop_last()) + chunks.last()
    }
}

/// The read buffer after the chunks arrived one by one on an empty
/// buffer, with a parser pass after each.
pub open spec fn arrived(chunks: Seq<Seq<u8>>) -> Seq<u8>
    decreases chunks.len(),
{
    if chunks.len() == 0 {
        Seq::empty()
    } else {
        after_parse(arrived(chunks.drop_last()) + chunks.last())
    }
}

/// A request that arrives in several chunks parses as it does when it
/// arrives whole: while every earlier pass found only the beginning of a
/// head, nothing is consumed, so the last pass sees the whole message.
pub proof fn lemma_chunked_arrival(chunks: Seq<Seq<u8>>)
    requires
        chunks.len() >= 1,
        forall|k: int|
            1 <= k < chunks.len() ==> #[trigger] request_head(joined(chunks.take(k)))
                is Partial,
    ensures
        arrived(chunks.drop_last()) + chunks.last() == joined(chunks),
        request_head(arrived(chunks.drop_last()) + chunks.last()) == request_head(
            joined(chunks),
        ),
{
    assert forall|k: int| 1 <= k <= chunks.drop_last().len() implies #[trigger] request_head(
        joined(chunks.drop_last().take(k)),
    ) is Partial by {
        assert(chunks.drop_last().take(k) =~= chunks.take(k));
    }
    lemma_partial_prefixes_kept(chunks.drop_last());
}

proof fn lemma_partial_prefixes_kept(cs: Seq<Seq<u8>>)
    requires
        forall|k: int| 1 <= k <= cs.len() ==> #[trigger] request_head(joined(cs.take(k))) is Partial,
    ensures
        arrived(cs) == joined(cs),
    decreases cs.len(),
{
    if cs.len() > 0 {
        assert forall|k: int| 1 <= k <= cs.drop_last().len() implies #[trigger] request_head(
            joined(cs.drop_last().take(k)),
        ) is Partial by {
            assert(cs.drop_last().take(k) =~= cs.take(k));
        }
        lemma_partial_prefixes_kept(cs.drop_last());
        assert(cs.take(cs.len() as int) =~= cs);
        assert(request_head(joined(cs.take(cs.len() as int))) is Partial);
    }
}

impl Switchable for H1Protocol {
    /// HTTP/1 never hands the connection over.
    open spec fn switch_target(&self) -> SwitchStatus {
        SwitchStatus::NoSwitch
    }

    fn switch_protocol(&self) -> (r: SwitchStatus) {
        SwitchStatus::NoSwitch
    }
}

} // verus!
