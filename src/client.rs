use vstd::prelude::*;
use bytes::BytesMut;
use crate::buffer::bytes_of;
use crate::head::{BodyFraming, HeadParseView, request_head, scan_headers};
use crate::http1::{Received, after_parse, joined, no_framing, received_matches};
use crate::channel::CHANNEL_CAPACITY;
use crate::interest::{
    Interest, PollerAction, UpdateKind, action_for, lemma_transition_keeps_mirror, no_interest,
    poller_after, registration, requested, transition,
};
use crate::protocol::{AutoProtocol, drained};
use crate::switch::SelectedProtocol;
use crate::token::Token;
use crate::transport::{EventLoopHandle, EventUpdate};

verus! {

/// The kinds of socket error the connection tells apart.
#[derive(PartialEq, Eq, Structural, Clone, Copy, Debug)]
pub enum IoErrorKind {
    WouldBlock,
    ConnectionReset,
    ConnectionAborted,
    UnexpectedEof,
    Other,
}

/// What the I/O loop of a ready socket does after a socket error.
#[derive(PartialEq, Eq, Structural, Clone, Copy, Debug)]
pub enum IoStep {
    /// The call made progress: go round the loop again.
    Continue,
    /// The socket has nothing more for now: stop, without error.
    Done,
    /// The peer tore the connection down: the slot was shut down and has
    /// posted the pauses that stop the poller watching it. Shut the write
    /// half of the socket.
    Shutdown,
    /// Any other error: stop and report it.
    Fail,
}

/// What the read loop does after one read from the socket.
pub enum ReadStep {
    /// Bytes arrived and the parser ran over the read buffer; go on reading.
    Parsed(Received),
    /// Stop reading, as the step says.
    Stopped(IoStep),
}

/// The interest a slot has after a requested change. An idle slot is not
/// re-armed: requests to resume leave it as it is.
pub open spec fn slot_requested(idle: bool, cur: Interest, k: UpdateKind) -> Interest {
    if idle && (k == UpdateKind::ResumeReading || k == UpdateKind::ResumeWriting) {
        cur
    } else {
        requested(cur, k)
    }
}

/// `after` is `before` shut down: idle, buffers empty; same token, socket
/// and interest flags (only the event-loop driver changes those); and
/// `PauseWriting` then `PauseReading` posted for the slot, so that the
/// driver stops watching the socket.
pub open spec fn shut_down<S>(before: Client<S>, after: Client<S>) -> bool {
    &&& after.wf()
    &&& after.token_spec() == before.token_spec()
    &&& after.stream_spec() == before.stream_spec()
    &&& after.idle_spec()
    &&& after.interest_spec() == before.interest_spec()
    &&& after.protocol_spec().read_bytes() == Seq::<u8>::empty()
    &&& after.protocol_spec().write_bytes() == Seq::<u8>::empty()
    &&& after.posted() == before.posted().push(EventUpdate::PauseWriting(before.token_spec())).push(
        EventUpdate::PauseReading(before.token_spec()),
    )
}

/// `after` is `before` rebound to the socket `s`: fresh, same token.
pub open spec fn rebound<S>(before: Client<S>, after: Client<S>, s: S) -> bool {
    &&& after.wf()
    &&& after.token_spec() == before.token_spec()
    &&& after.stream_spec() == s
    &&& after.is_fresh()
    &&& after.posted() == before.posted()
}

/// A slot's interest after the driver applied updates of these kinds, in
/// order.
pub open spec fn after_updates(idle: bool, cur: Interest, kinds: Seq<UpdateKind>) -> Interest
    decreases kinds.len(),
{
    if kinds.len() == 0 {
        cur
    } else {
        slot_requested(idle, after_updates(idle, cur, kinds.drop_last()), kinds.last())
    }
}

/// A write event that ends with bytes still waiting posts `ResumeWriting`
/// last (after any `PauseWriting` of the top-ups): once the driver applied
/// the event's updates in order, writing is armed on a slot in use, so a
/// later write-ready event sends the rest.
pub proof fn lemma_rearm_last_keeps_writing(cur: Interest, kinds: Seq<UpdateKind>)
    requires
        kinds.len() > 0,
        kinds.last() == UpdateKind::ResumeWriting,
    ensures
        after_updates(false, cur, kinds).writable,
{
}

/// Whether a socket outcome is the peer tearing the connection down: a
/// reset, an abort, or an unexpected end of file.
pub open spec fn teardown(result: Result<usize, IoErrorKind>) -> bool {
    result == Err::<usize, IoErrorKind>(IoErrorKind::ConnectionReset) || result == Err::<
        usize,
        IoErrorKind,
    >(IoErrorKind::ConnectionAborted) || result == Err::<usize, IoErrorKind>(
        IoErrorKind::UnexpectedEof,
    )
}

/// One connection slot: a socket (with whatever the embedding program keeps
/// beside it, such as the peer address), its interest flags, and its
/// protocol multiplexer.
pub struct Client<S> {
    token: Token,
    stream: S,
    event_loop: EventLoopHandle,
    protocol: AutoProtocol,
    is_reading: bool,
    is_writing: bool,
    is_idle: bool,
}

impl<S> Client<S> {
    pub closed spec fn token_spec(&self) -> Token {
        self.token
    }

    /// The socket the slot serves.
    pub closed spec fn stream_spec(&self) -> S {
        self.stream
    }

    /// The interest the poller holds for the socket.
    pub closed spec fn interest_spec(&self) -> Interest {
        Interest { readable: self.is_reading, writable: self.is_writing }
    }

    pub closed spec fn idle_spec(&self) -> bool {
        self.is_idle
    }

    pub closed spec fn protocol_spec(&self) -> AutoProtocol {
        self.protocol
    }

    /// The updates the slot posted itself.
    pub closed spec fn posted(&self) -> Seq<EventUpdate> {
        self.event_loop.posted()
    }

    pub closed spec fn wf(&self) -> bool {
        &&& self.protocol.wf()
        &&& self.protocol.token_spec() == self.token
    }

    /// Whether the slot is as freshly constructed for a new socket: not
    /// idle, not watched, buffers empty.
    pub open spec fn is_fresh(&self) -> bool {
        &&& !self.idle_spec()
        &&& self.interest_spec() == no_interest()
        &&& self.protocol_spec().is_fresh()
    }

    /// Everything but the socket is as in `other`.
    pub closed spec fn same_but_stream(&self, other: Self) -> bool {
        &&& self.token == other.token
        &&& self.event_loop == other.event_loop
        &&& self.protocol == other.protocol
        &&& self.is_reading == other.is_reading
        &&& self.is_writing == other.is_writing
        &&& self.is_idle == other.is_idle
    }

    /// Shutting a slot down and then rebinding it to a new socket leaves
    /// it as `build_from` makes one for that socket under the same token:
    /// not idle, both flags off, both buffers empty, no framing read.
    pub proof fn lemma_shutdown_then_rebind(a: Self, b: Self, c: Self, s: S)
        requires
            a.wf(),
            shut_down(a, b),
            rebound(b, c, s),
        ensures
            c.wf(),
            c.token_spec() == a.token_spec(),
            c.stream_spec() == s,
            !c.idle_spec(),
            c.interest_spec() == no_interest(),
            c.protocol_spec().read_bytes() == Seq::<u8>::empty(),
            c.protocol_spec().write_bytes() == Seq::<u8>::empty(),
            c.protocol_spec().framing() == no_framing(),
    {
    }

    /// Carrying out a requested change through `plan_update` and then
    /// `commit_update` keeps the flags equal to the poller's registration:
    /// the planned call is one the poller accepts in that state, and the
    /// recorded flags are what it leaves registered.
    pub proof fn lemma_update_keeps_mirror(&self, kind: UpdateKind)
        ensures
            poller_after(
                registration(self.interest_spec()),
                action_for(
                    self.interest_spec(),
                    slot_requested(self.idle_spec(), self.interest_spec(), kind),
                ),
            ) == Some(registration(slot_requested(self.idle_spec(), self.interest_spec(), kind))),
    {
        lemma_transition_keeps_mirror(self.interest_spec(), kind);
    }

    /// A slot that was shut down posts the two updates that stop the poller
    /// watching it: once the driver has applied them in order, the slot is
    /// idle and unwatched, whatever its flags were; from then on no update
    /// re-arms it until it is rebound.
    pub proof fn lemma_shutdown_unwatches(a: Self, b: Self)
        requires
            shut_down(a, b),
        ensures
            ({
                let t = a.token_spec();
                let posted = b.posted().subrange(a.posted().len() as int, b.posted().len() as int);
                let after = slot_requested(
                    true,
                    slot_requested(true, b.interest_spec(), posted[0].kind_of()),
                    posted[1].kind_of(),
                );
                &&& posted == seq![EventUpdate::PauseWriting(t), EventUpdate::PauseReading(t)]
                &&& posted[0].token_of() == t && posted[1].token_of() == t
                &&& b.idle_spec()
                &&& after == no_interest()
            }),
    {
        let posted = b.posted().subrange(a.posted().len() as int, b.posted().len() as int);
        assert(posted =~= seq![
            EventUpdate::PauseWriting(a.token_spec()),
            EventUpdate::PauseReading(a.token_spec()),
        ]);
    }

    /// An idle slot that is not watched stays unwatched under every update:
    /// requests to resume are ignored while the slot is idle.
    pub proof fn lemma_idle_stays_unwatched(&self, kind: UpdateKind)
        requires
            self.idle_spec(),
            self.interest_spec() == no_interest(),
        ensures
            slot_requested(self.idle_spec(), self.interest_spec(), kind) == no_interest(),
            action_for(
                self.interest_spec(),
                slot_requested(self.idle_spec(), self.interest_spec(), kind),
            ) == PollerAction::Nothing,
    {
    }

    /// Builds a slot for a freshly accepted socket.
    pub fn build_from(token: Token, stream: S, event_loop: EventLoopHandle) -> (r: Self)
        ensures
            r.wf(),
            r.token_spec() == token,
            r.protocol_spec().handles_token() == (token, token),
            r.stream_spec() == stream,
            r.is_fresh(),
            r.posted() == event_loop.posted(),
    {
        let protocol = AutoProtocol::new(token, SelectedProtocol::H1, event_loop.share());
        Self {
            token,
            stream,
            event_loop,
            protocol,
            is_reading: false,
            is_writing: false,
            is_idle: false,
        }
    }

    /// Rebinds the slot to a freshly accepted socket: the slot is as fresh.
    pub fn handle_new(&mut self, stream: S)
        requires
            old(self).wf(),
        ensures
            rebound(*old(self), *final(self), stream),
    {
        self.stream = stream;
        self.protocol.new_connection();
        self.is_reading = false;
        self.is_writing = false;
        self.is_idle = false;
    }

    pub fn token(&self) -> (r: Token)
        ensures
            r == self.token_spec(),
    {
        self.token
    }

    pub fn is_reading(&self) -> (r: bool)
        ensures
            r == self.interest_spec().readable,
    {
        self.is_reading
    }

    pub fn is_writing(&self) -> (r: bool)
        ensures
            r == self.interest_spec().writable,
    {
        self.is_writing
    }

    pub fn is_idle(&self) -> (r: bool)
        ensures
            r == self.idle_spec(),
    {
        self.is_idle
    }

    /// The body framing the last parsed request announced.
    pub fn body_framing(&self) -> (r: BodyFraming)
        requires
            self.wf(),
        ensures
            r == self.protocol_spec().framing(),
    {
        self.protocol.body_framing()
    }

    /// The socket, for poller registration and shutdown.
    pub fn stream_mut(&mut self) -> (r: &mut S)
        ensures
            *r == old(self).stream_spec(),
            final(self).stream_spec() == *final(r),
            final(self).same_but_stream(*old(self)),
    {
        &mut self.stream
    }

    /// The socket and the read buffer, for the socket shim to read into.
    pub fn read_parts(&mut self) -> (r: (&mut S, &mut BytesMut))
        ensures
            *r.0 == old(self).stream_spec(),
            bytes_of(*r.1) == old(self).protocol_spec().read_bytes(),
            final(self).stream_spec() == *final(r.0),
            final(self).protocol_spec().read_bytes() == bytes_of(*final(r.1)),
            final(self).wf() == old(self).wf(),
            final(self).token_spec() == old(self).token_spec(),
            final(self).interest_spec() == old(self).interest_spec(),
            final(self).idle_spec() == old(self).idle_spec(),
            final(self).posted() == old(self).posted(),
            final(self).protocol_spec().write_bytes() == old(self).protocol_spec().write_bytes(),
            final(self).protocol_spec().framing() == old(self).protocol_spec().framing(),
    {
        (&mut self.stream, self.protocol.read_buffer_acquire())
    }

    /// Hands the bytes read so far to the protocol's parser (`amount` is
    /// how many the last read added).
    pub fn read_buffer_filled(&mut self, amount: usize) -> (r: Received)
        requires
            old(self).wf(),
        ensures
            final(self).wf(),
            final(self).token_spec() == old(self).token_spec(),
            final(self).stream_spec() == old(self).stream_spec(),
            final(self).interest_spec() == old(self).interest_spec(),
            final(self).idle_spec() == old(self).idle_spec(),
            final(self).posted() == old(self).posted(),
            final(self).protocol_spec().write_bytes() == old(self).protocol_spec().write_bytes(),
            final(self).protocol_spec().read_bytes() == after_parse(
                old(self).protocol_spec().read_bytes(),
            ),
            match request_head(old(self).protocol_spec().read_bytes()) {
                HeadParseView::Complete(h) => {
                    &&& r is Request
                    &&& r->Request_0.head@ == h
                    &&& r->Request_0.sender.token_spec() == old(self).token_spec()
                    &&& r->Request_0.receiver.token_spec() == old(self).token_spec()
                    &&& final(self).protocol_spec().read_bytes() == old(self).protocol_spec().read_bytes().subrange(
                        h.len as int,
                        old(self).protocol_spec().read_bytes().len() as int,
                    )
                    &&& final(self).protocol_spec().framing() == scan_headers(
                        no_framing(),
                        h.headers,
                    )
                },
                HeadParseView::Partial => {
                    &&& r is Incomplete
                    &&& final(self).protocol_spec().read_bytes() == old(self).protocol_spec().read_bytes()
                },
                HeadParseView::Invalid => {
                    &&& r is Malformed
                    &&& final(self).protocol_spec().read_bytes() == old(self).protocol_spec().read_bytes()
                },
            },
    {
        self.protocol.read_buffer_filled(amount)
    }

    /// Tops up the write buffer from the response channel; returns the
    /// socket and the bytes waiting to be written.
    pub fn write_parts(&mut self) -> (r: (&mut S, &[u8]))
        requires
            old(self).wf(),
        ensures
            final(self).wf(),
            *r.0 == old(self).stream_spec(),
            final(self).stream_spec() == *final(r.0),
            r.1@ == final(self).protocol_spec().write_bytes(),
            exists|chunks: Seq<Seq<u8>>|
                chunks.len() <= CHANNEL_CAPACITY && final(self).protocol_spec().write_bytes()
                    == old(self).protocol_spec().write_bytes() + #[trigger] joined(chunks),
            final(self).protocol_spec().read_bytes() == old(self).protocol_spec().read_bytes(),
            final(self).token_spec() == old(self).token_spec(),
            final(self).interest_spec() == old(self).interest_spec(),
            final(self).idle_spec() == old(self).idle_spec(),
            final(self).posted() == old(self).posted(),
            final(self).protocol_spec().posted() == old(self).protocol_spec().posted().push(
                EventUpdate::PauseWriting(old(self).token_spec()),
            ),
    {
        let bytes = self.protocol.write_buffer_acquire();
        (&mut self.stream, bytes)
    }

    /// `amount` bytes were written to the socket: they leave the front of
    /// the write buffer, the rest stays in order.
    pub fn write_buffer_advance(&mut self, amount: usize)
        requires
            old(self).wf(),
            amount <= old(self).protocol_spec().write_bytes().len(),
        ensures
            final(self).wf(),
            final(self).token_spec() == old(self).token_spec(),
            final(self).stream_spec() == old(self).stream_spec(),
            final(self).interest_spec() == old(self).interest_spec(),
            final(self).idle_spec() == old(self).idle_spec(),
            final(self).posted() == old(self).posted(),
            final(self).protocol_spec().posted() == old(self).protocol_spec().posted(),
            final(self).protocol_spec().read_bytes() == old(self).protocol_spec().read_bytes(),
            final(self).protocol_spec().write_bytes() == drained(
                old(self).protocol_spec().write_bytes(),
                amount as nat,
            ),
    {
        self.protocol.write_buffer_advance(amount)
    }

    /// A write of `amount` bytes has been accounted for: writing is paused
    /// when nothing was written or nothing is left. The buffers do not
    /// change.
    pub fn write_buffer_drained(&mut self, amount: usize)
        requires
            old(self).wf(),
        ensures
            final(self).wf(),
            final(self).token_spec() == old(self).token_spec(),
            final(self).stream_spec() == old(self).stream_spec(),
            final(self).interest_spec() == old(self).interest_spec(),
            final(self).idle_spec() == old(self).idle_spec(),
            final(self).posted() == old(self).posted(),
            final(self).protocol_spec().read_bytes() == old(self).protocol_spec().read_bytes(),
            final(self).protocol_spec().write_bytes() == old(self).protocol_spec().write_bytes(),
            amount == 0 || old(self).protocol_spec().write_bytes().len() == 0
                ==> final(self).protocol_spec().posted() == old(self).protocol_spec().posted().push(
                EventUpdate::PauseWriting(old(self).token_spec()),
            ),
            !(amount == 0 || old(self).protocol_spec().write_bytes().len() == 0)
                ==> final(self).protocol_spec().posted() == old(self).protocol_spec().posted(),
    {
        self.protocol.write_buffer_drained(amount)
    }

    /// The socket stopped accepting bytes (`WouldBlock`) during a write
    /// event: the protocol re-arms writing when bytes are still waiting
    /// (see `AutoProtocol::write_would_block`).
    pub fn write_would_block(&mut self)
        requires
            old(self).wf(),
        ensures
            final(self).wf(),
            final(self).token_spec() == old(self).token_spec(),
            final(self).stream_spec() == old(self).stream_spec(),
            final(self).interest_spec() == old(self).interest_spec(),
            final(self).idle_spec() == old(self).idle_spec(),
            final(self).posted() == old(self).posted(),
            final(self).protocol_spec().read_bytes() == old(self).protocol_spec().read_bytes(),
            final(self).protocol_spec().write_bytes() == old(self).protocol_spec().write_bytes(),
            old(self).protocol_spec().write_bytes().len() > 0
                ==> final(self).protocol_spec().posted()
                == old(self).protocol_spec().posted().push(
                EventUpdate::ResumeWriting(old(self).token_spec()),
            ),
            old(self).protocol_spec().write_bytes().len() == 0
                ==> final(self).protocol_spec().posted()
                == old(self).protocol_spec().posted(),
    {
        self.protocol.write_would_block()
    }

    /// Shuts the slot down: the protocol loses the connection (buffers
    /// cleared), the slot becomes idle, eligible for reuse, and it posts
    /// `PauseWriting` then `PauseReading` so that the driver stops watching
    /// the socket. The interest flags stay as the poller has them until
    /// the driver applies those updates; the caller shuts the socket's
    /// write half.
    pub fn sock_shutdown(&mut self)
        requires
            old(self).wf(),
        ensures
            shut_down(*old(self), *final(self)),
    {
        self.protocol.lost_connection();
        self.is_idle = true;
        self.event_loop.pause_writing(self.token);
        self.event_loop.pause_reading(self.token);
    }

    /// Decides what a socket error means for the slot's I/O loop. A reset,
    /// an abort or an unexpected end of file shut the slot down.
    pub fn on_io_error(&mut self, kind: IoErrorKind) -> (r: IoStep)
        requires
            old(self).wf(),
        ensures
            final(self).wf(),
            final(self).token_spec() == old(self).token_spec(),
            final(self).stream_spec() == old(self).stream_spec(),
            kind == IoErrorKind::WouldBlock ==> r == IoStep::Done && *final(self) == *old(self),
            kind == IoErrorKind::Other ==> r == IoStep::Fail && *final(self) == *old(self),
            kind == IoErrorKind::ConnectionReset || kind == IoErrorKind::ConnectionAborted
                || kind == IoErrorKind::UnexpectedEof ==> r == IoStep::Shutdown && shut_down(
                *old(self),
                *final(self),
            ),
    {
        match kind {
            IoErrorKind::WouldBlock => IoStep::Done,
            IoErrorKind::Other => IoStep::Fail,
            _ => {
                self.sock_shutdown();
                IoStep::Shutdown
            },
        }
    }

    /// Takes the outcome of one socket read into the read buffer: bytes
    /// (`Ok(n)`, `n > 0`) go to the parser; `Ok(0)` is the end of the
    /// stream and shuts the slot down, as a reset, an abort or an
    /// unexpected end of file do; `WouldBlock` ends the event; any other
    /// error fails it.
    pub fn on_read_result(&mut self, result: Result<usize, IoErrorKind>) -> (r: ReadStep)
        requires
            old(self).wf(),
        ensures
            final(self).wf(),
            final(self).token_spec() == old(self).token_spec(),
            final(self).stream_spec() == old(self).stream_spec(),
            result is Ok && result->Ok_0 > 0 ==> {
                &&& r is Parsed
                &&& received_matches(r->Parsed_0, old(self).protocol_spec().read_bytes())
                &&& final(self).protocol_spec().read_bytes() == after_parse(
                    old(self).protocol_spec().read_bytes(),
                )
                &&& final(self).interest_spec() == old(self).interest_spec()
                &&& final(self).idle_spec() == old(self).idle_spec()
                &&& final(self).posted() == old(self).posted()
            },
            teardown(result) ==> r == ReadStep::Stopped(IoStep::Shutdown) && shut_down(
                *old(self),
                *final(self),
            ),
            result == Err::<usize, IoErrorKind>(IoErrorKind::WouldBlock) ==> r == ReadStep::Stopped(
                IoStep::Done,
            ) && *final(self) == *old(self),
            result == Err::<usize, IoErrorKind>(IoErrorKind::Other) ==> r == ReadStep::Stopped(
                IoStep::Fail,
            ) && *final(self) == *old(self),
    {
        match result {
            Ok(0) => {
                self.sock_shutdown();
                ReadStep::Stopped(IoStep::Shutdown)
            },
            Ok(n) => ReadStep::Parsed(self.read_buffer_filled(n)),
            Err(kind) => ReadStep::Stopped(self.on_io_error(kind)),
        }
    }

    /// Takes the outcome of one socket write of the waiting bytes. `Ok(0)`
    /// (nothing written, or nothing was waiting) pauses writing and ends the
    /// event. `Ok(n)` drops the `n` bytes written, pauses writing when none
    /// are left, and goes on. `WouldBlock` re-arms writing when bytes are
    /// still waiting and ends the event. A reset, an abort or an unexpected
    /// end of file shut the slot down; any other error fails the event.
    pub fn on_write_result(&mut self, result: Result<usize, IoErrorKind>) -> (r: IoStep)
        requires
            old(self).wf(),
            result is Ok ==> result->Ok_0 <= old(self).protocol_spec().write_bytes().len(),
        ensures
            final(self).wf(),
            final(self).token_spec() == old(self).token_spec(),
            final(self).stream_spec() == old(self).stream_spec(),
            result is Ok ==> {
                &&& r == (if result->Ok_0 == 0 { IoStep::Done } else { IoStep::Continue })
                &&& final(self).protocol_spec().write_bytes() == drained(
                    old(self).protocol_spec().write_bytes(),
                    result->Ok_0 as nat,
                )
                &&& final(self).protocol_spec().read_bytes() == old(self).protocol_spec().read_bytes()
                &&& final(self).protocol_spec().posted() == if result->Ok_0 == 0
                    || final(self).protocol_spec().write_bytes().len() == 0 {
                    old(self).protocol_spec().posted().push(
                        EventUpdate::PauseWriting(old(self).token_spec()),
                    )
                } else {
                    old(self).protocol_spec().posted()
                }
                &&& final(self).interest_spec() == old(self).interest_spec()
                &&& final(self).idle_spec() == old(self).idle_spec()
                &&& final(self).posted() == old(self).posted()
            },
            result == Err::<usize, IoErrorKind>(IoErrorKind::WouldBlock) ==> {
                &&& r == IoStep::Done
                &&& final(self).protocol_spec().write_bytes() == old(self).protocol_spec().write_bytes()
                &&& final(self).protocol_spec().posted() == if old(self).protocol_spec().write_bytes().len() > 0 {
                    old(self).protocol_spec().posted().push(
                        EventUpdate::ResumeWriting(old(self).token_spec()),
                    )
                } else {
                    old(self).protocol_spec().posted()
                }
                &&& final(self).interest_spec() == old(self).interest_spec()
                &&& final(self).idle_spec() == old(self).idle_spec()
                &&& final(self).posted() == old(self).posted()
            },
            teardown(result) ==> r == IoStep::Shutdown && shut_down(*old(self), *final(self)),
            result == Err::<usize, IoErrorKind>(IoErrorKind::Other) ==> r == IoStep::Fail
                && *final(self) == *old(self),
    {
        match result {
            Ok(n) => {
                self.write_buffer_advance(n);
                self.write_buffer_drained(n);
                if n == 0 {
                    IoStep::Done
                } else {
                    IoStep::Continue
                }
            },
            Err(IoErrorKind::WouldBlock) => {
                self.write_would_block();
                IoStep::Done
            },
            Err(kind) => self.on_io_error(kind),
        }
    }

    /// The per-slot idle timer hook; nothing is checked yet.
    pub fn check_keep_alive(&mut self)
        ensures
            *final(self) == *old(self),
    {
    }

    /// The poller call that carries out a requested change of the slot's
    /// interest.
    pub fn plan_update(&self, kind: UpdateKind) -> (r: PollerAction)
        ensures
            r == action_for(
                self.interest_spec(),
                slot_requested(self.idle_spec(), self.interest_spec(), kind),
            ),
    {
        let resume = kind == UpdateKind::ResumeReading || kind == UpdateKind::ResumeWriting;
        if self.is_idle && resume {
            PollerAction::Nothing
        } else {
            let cur = Interest { readable: self.is_reading, writable: self.is_writing };
            transition(cur, kind).0
        }
    }

    /// Records a requested change once the poller call that `plan_update`
    /// chose has succeeded.
    pub fn commit_update(&mut self, kind: UpdateKind)
        requires
            old(self).wf(),
        ensures
            final(self).wf(),
            final(self).interest_spec() == slot_requested(
                old(self).idle_spec(),
                old(self).interest_spec(),
                kind,
            ),
            final(self).token_spec() == old(self).token_spec(),
            final(self).stream_spec() == old(self).stream_spec(),
            final(self).idle_spec() == old(self).idle_spec(),
            final(self).protocol_spec() == old(self).protocol_spec(),
            final(self).posted() == old(self).posted(),
    {
        let resume = kind == UpdateKind::ResumeReading || kind == UpdateKind::ResumeWriting;
        if !(self.is_idle && resume) {
            let cur = Interest { readable: self.is_reading, writable: self.is_writing };
            let next = transition(cur, kind).1;
            self.is_reading = next.readable;
            self.is_writing = next.writable;
        }
    }
}

} // verus!
