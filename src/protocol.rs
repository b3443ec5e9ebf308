use vstd::prelude::*;
use bytes::BytesMut;
use crate::buffer::{
    MAX_BUFFER_LIMIT, bytes_of, buffer_bytes, buffer_clear, buffer_discard_front, buffer_len,
    buffer_with_capacity,
};
use crate::head::HeadParseView;
use crate::head::request_head;
use crate::head::scan_headers;
use crate::head::BodyFraming;
use crate::http1::{H1Protocol, Received, after_parse, joined, no_framing};
use crate::channel::CHANNEL_CAPACITY;
use crate::switch::{SelectedProtocol, SwitchStatus, Switchable};
use crate::token::Token;
use crate::transport::{EventLoopHandle, EventUpdate};

verus! {

/// The write buffer after `n` bytes of it were written to the socket.
pub open spec fn drained(b: Seq<u8>, n: nat) -> Seq<u8> {
    b.subrange(n as int, b.len() as int)
}

/// The write buffer after several writes of the given sizes, in order.
pub open spec fn drained_by(b: Seq<u8>, writes: Seq<nat>) -> Seq<u8>
    decreases writes.len(),
{
    if writes.len() == 0 {
        b
    } else {
        drained(drained_by(b, writes.drop_last()), writes.last())
    }
}

/// The number of bytes several writes took.
pub open spec fn total_written(writes: Seq<nat>) -> nat
    decreases writes.len(),
{
    if writes.len() == 0 {
        0
    } else {
        total_written(writes.drop_last()) + writes.last()
    }
}

/// A write buffer drained over several write-ready events, each taking
/// only what the socket accepted, leaves exactly the bytes not yet
/// written, in their order: the bytes go out once each and in sequence.
pub proof fn lemma_partial_writes_in_order(b: Seq<u8>, writes: Seq<nat>)
    requires
        total_written(writes) <= b.len(),
    ensures
        drained_by(b, writes) == b.subrange(total_written(writes) as int, b.len() as int),
    decreases writes.len(),
{
    if writes.len() > 0 {
        lemma_partial_writes_in_order(b, writes.drop_last());
        assert(drained_by(b, writes) =~= b.subrange(total_written(writes) as int, b.len() as int));
    }
}

/// The protocol multiplexer of one connection: one read buffer and one
/// write buffer shared by every protocol, and the protocol that currently
/// observes them.
pub struct AutoProtocol {
    token: Token,
    selected: SelectedProtocol,
    h1: H1Protocol,
    writer_buffer: BytesMut,
    reader_buffer: BytesMut,
}

impl AutoProtocol {
    pub closed spec fn token_spec(&self) -> Token {
        self.token
    }

    pub closed spec fn selected_spec(&self) -> SelectedProtocol {
        self.selected
    }

    /// The bytes received and not yet consumed by the parser.
    pub closed spec fn read_bytes(&self) -> Seq<u8> {
        bytes_of(self.reader_buffer)
    }

    /// The bytes waiting to be written to the socket.
    pub closed spec fn write_bytes(&self) -> Seq<u8> {
        bytes_of(self.writer_buffer)
    }

    /// The body framing the HTTP/1 protocol last read.
    pub closed spec fn framing(&self) -> BodyFraming {
        self.h1.framing()
    }

    /// The updates posted for the connection, in order.
    pub closed spec fn posted(&self) -> Seq<EventUpdate> {
        self.h1.posted()
    }

    /// The tokens the protocol's response and request-body handles are
    /// bound to.
    pub closed spec fn handles_token(&self) -> (Token, Token) {
        self.h1.handles_token()
    }

    pub closed spec fn wf(&self) -> bool {
        &&& self.h1.wf()
        &&& self.h1.token_spec() == self.token
    }

    /// Whether the multiplexer is as a fresh one: both buffers empty and no
    /// framing read.
    pub open spec fn is_fresh(&self) -> bool {
        &&& self.read_bytes() == Seq::<u8>::empty()
        &&& self.write_bytes() == Seq::<u8>::empty()
        &&& self.framing() == no_framing()
    }

    pub fn new(token: Token, selected: SelectedProtocol, event_loop: EventLoopHandle) -> (r: Self)
        ensures
            r.wf(),
            r.token_spec() == token,
            r.handles_token() == (token, token),
            r.selected_spec() == selected,
            r.is_fresh(),
            r.posted() == event_loop.posted(),
    {
        let h1 = H1Protocol::new(token, event_loop);
        let buff1 = buffer_with_capacity(MAX_BUFFER_LIMIT);
        let buff2 = buffer_with_capacity(MAX_BUFFER_LIMIT);
        Self { token, selected, h1, writer_buffer: buff1, reader_buffer: buff2 }
    }

    /// The multiplexer now serves a new connection: it is as fresh.
    pub fn new_connection(&mut self)
        requires
            old(self).wf(),
        ensures
            final(self).wf(),
            final(self).token_spec() == old(self).token_spec(),
            final(self).selected_spec() == old(self).selected_spec(),
            final(self).is_fresh(),
            final(self).posted() == old(self).posted(),
            final(self).posted() == old(self).posted(),
    {
        buffer_clear(&mut self.reader_buffer);
        buffer_clear(&mut self.writer_buffer);
        match self.selected {
            SelectedProtocol::H1 => self.h1.new_connection(),
        }
    }

    /// The connection was lost: both buffers are cleared and the protocol's
    /// parsing state is reset.
    pub fn lost_connection(&mut self)
        requires
            old(self).wf(),
        ensures
            final(self).wf(),
            final(self).token_spec() == old(self).token_spec(),
            final(self).selected_spec() == old(self).selected_spec(),
            final(self).is_fresh(),
            final(self).posted() == old(self).posted(),
            final(self).posted() == old(self).posted(),
    {
        buffer_clear(&mut self.reader_buffer);
        buffer_clear(&mut self.writer_buffer);
        match self.selected {
            SelectedProtocol::H1 => self.h1.lost_connection(),
        }
    }

    /// Gives the selected protocol the chance to hand the connection over.
    /// A switch is carried out here, before the next I/O event.
    pub fn maybe_switch(&mut self) -> (r: SwitchStatus)
        requires
            old(self).wf(),
        ensures
            final(self).wf(),
            r == SwitchStatus::NoSwitch,
            *final(self) == *old(self),
    {
        let status = match self.selected {
            SelectedProtocol::H1 => self.h1.switch_protocol(),
        };
        match status {
            SwitchStatus::SwitchTo(p) => {
                self.selected = p;
            },
            SwitchStatus::NoSwitch => {},
        }
        status
    }

    fn pause_writing(&mut self)
        requires
            old(self).wf(),
        ensures
            *final(self) == (AutoProtocol { h1: final(self).h1, ..*old(self) }),
            final(self).wf(),
            final(self).framing() == old(self).framing(),
            final(self).handles_token() == old(self).handles_token(),
            final(self).posted() == old(self).posted().push(
                EventUpdate::PauseWriting(old(self).token_spec()),
            ),
    {
        self.h1.pause_writing();
    }

    /// The peer sent end-of-file.
    pub fn eof_received(&mut self)
        requires
            old(self).wf(),
        ensures
            final(self).wf(),
            final(self).token_spec() == old(self).token_spec(),
            final(self).read_bytes() == old(self).read_bytes(),
            final(self).write_bytes() == old(self).write_bytes(),
            final(self).posted() == old(self).posted().push(
                EventUpdate::PauseReading(old(self).token_spec()),
            ).push(EventUpdate::PauseWriting(old(self).token_spec())),
    {
        match self.selected {
            SelectedProtocol::H1 => self.h1.eof_received(),
        }
    }

    /// The body framing the last parsed request announced.
    pub fn body_framing(&self) -> (r: BodyFraming)
        requires
            self.wf(),
        ensures
            r == self.framing(),
    {
        BodyFraming {
            content_length: self.h1.expected_content_length(),
            chunked: self.h1.chunked_encoding(),
        }
    }

    /// The read buffer, for the socket shim to fill.
    pub fn read_buffer_acquire(&mut self) -> (r: &mut BytesMut)
        ensures
            bytes_of(*r) == old(self).read_bytes(),
            final(self).read_bytes() == bytes_of(*final(r)),
            final(self).write_bytes() == old(self).write_bytes(),
            final(self).wf() == old(self).wf(),
            final(self).token_spec() == old(self).token_spec(),
            final(self).selected_spec() == old(self).selected_spec(),
            final(self).framing() == old(self).framing(),
            final(self).posted() == old(self).posted(),
            final(self).posted() == old(self).posted(),
    {
        &mut self.reader_buffer
    }
    /// Hands what the read buffer holds to the selected protocol's parser.
    pub fn read_buffer_filled(&mut self, _amount: usize) -> (r: Received)
        requires
            old(self).wf(),
        ensures
            final(self).wf(),
            final(self).token_spec() == old(self).token_spec(),
            final(self).selected_spec() == old(self).selected_spec(),
            final(self).write_bytes() == old(self).write_bytes(),
            final(self).posted() == old(self).posted(),
            final(self).posted() == old(self).posted(),
            final(self).read_bytes() == after_parse(old(self).read_bytes()),
            match request_head(old(self).read_bytes()) {
                HeadParseView::Complete(h) => {
                    &&& r is Request
                    &&& r->Request_0.head@ == h
                    &&& r->Request_0.sender.token_spec() == old(self).token_spec()
                    &&& r->Request_0.receiver.token_spec() == old(self).token_spec()
                    &&& h.len <= old(self).read_bytes().len()
                    &&& final(self).read_bytes() == old(self).read_bytes().subrange(
                        h.len as int,
                        old(self).read_bytes().len() as int,
                    )
                    &&& final(self).framing() == scan_headers(no_framing(), h.headers)
                },
                HeadParseView::Partial => {
                    &&& r is Incomplete
                    &&& final(self).read_bytes() == old(self).read_bytes()
                    &&& final(self).framing() == old(self).framing()
                },
                HeadParseView::Invalid => {
                    &&& r is Malformed
                    &&& final(self).read_bytes() == old(self).read_bytes()
                    &&& final(self).framing() == old(self).framing()
                },
            },
    {
        match self.selected {
            SelectedProtocol::H1 => self.h1.data_received(&mut self.reader_buffer),
        }
    }

    /// Lets the selected protocol top up the write buffer from its response
    /// channel, then returns the bytes waiting to be written.
    pub fn write_buffer_acquire(&mut self) -> (r: &[u8])
        requires
            old(self).wf(),
        ensures
            final(self).wf(),
            final(self).token_spec() == old(self).token_spec(),
            final(self).read_bytes() == old(self).read_bytes(),
            final(self).framing() == old(self).framing(),
            final(self).posted() == old(self).posted().push(
                EventUpdate::PauseWriting(old(self).token_spec()),
            ),
            exists|chunks: Seq<Seq<u8>>|
                chunks.len() <= CHANNEL_CAPACITY && final(self).write_bytes() == old(self).write_bytes() + #[trigger] joined(chunks),
            r@ == final(self).write_bytes(),
    {
        match self.selected {
            SelectedProtocol::H1 => {
                self.h1.fill_write_buffer(&mut self.writer_buffer);
            },
        }
        buffer_bytes(&self.writer_buffer)
    }

    /// The socket stopped accepting bytes (`WouldBlock`). Topping up the
    /// write buffer posted an unconditional `PauseWriting`; when bytes are
    /// still waiting, the protocol now posts `ResumeWriting` after it, on
    /// the same handle, so that applied in order the two leave writing
    /// armed. With nothing waiting, nothing is posted.
    pub fn write_would_block(&mut self)
        requires
            old(self).wf(),
        ensures
            final(self).wf(),
            final(self).token_spec() == old(self).token_spec(),
            final(self).selected_spec() == old(self).selected_spec(),
            final(self).read_bytes() == old(self).read_bytes(),
            final(self).write_bytes() == old(self).write_bytes(),
            final(self).framing() == old(self).framing(),
            old(self).write_bytes().len() > 0 ==> final(self).posted()
                == old(self).posted().push(
                EventUpdate::ResumeWriting(old(self).token_spec()),
            ),
            old(self).write_bytes().len() == 0 ==> final(self).posted() == old(self).posted(),
    {
        if buffer_len(&self.writer_buffer) > 0 {
            match self.selected {
                SelectedProtocol::H1 => self.h1.rearm_writing(),
            }
        }
    }

    /// `amount` bytes were written to the socket: they leave the front of
    /// the write buffer, the rest stays in order. Nothing is posted.
    pub fn write_buffer_advance(&mut self, amount: usize)
        requires
            old(self).wf(),
            amount <= old(self).write_bytes().len(),
        ensures
            final(self).wf(),
            final(self).token_spec() == old(self).token_spec(),
            final(self).selected_spec() == old(self).selected_spec(),
            final(self).read_bytes() == old(self).read_bytes(),
            final(self).framing() == old(self).framing(),
            final(self).posted() == old(self).posted(),
            final(self).posted() == old(self).posted(),
            final(self).write_bytes() == drained(old(self).write_bytes(), amount as nat),
    {
        buffer_discard_front(&mut self.writer_buffer, amount);
    }

    /// A write of `amount` bytes has been accounted for: when nothing was
    /// written or nothing is left to write, writing is paused. The buffers
    /// do not change.
    pub fn write_buffer_drained(&mut self, amount: usize)
        requires
            old(self).wf(),
        ensures
            final(self).wf(),
            final(self).token_spec() == old(self).token_spec(),
            final(self).selected_spec() == old(self).selected_spec(),
            final(self).read_bytes() == old(self).read_bytes(),
            final(self).write_bytes() == old(self).write_bytes(),
            final(self).framing() == old(self).framing(),
            amount == 0 || old(self).write_bytes().len() == 0 ==> final(self).posted()
                == old(self).posted().push(EventUpdate::PauseWriting(old(self).token_spec())),
            !(amount == 0 || old(self).write_bytes().len() == 0) ==> final(self).posted()
                == old(self).posted(),
    {
        if amount == 0 || buffer_len(&self.writer_buffer) == 0 {
            self.pause_writing();
        }
    }
}

} // verus!
