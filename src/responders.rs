use vstd::prelude::*;
use crate::channel::{
    CHANNEL_CAPACITY, Payload, PayloadReceiver, PayloadSender, SendOutcome, payload_channel,
};
use crate::token::Token;
use crate::transport::{EventLoopHandle, EventUpdate};

verus! {

/// Why a payload was not accepted.
#[derive(PartialEq, Eq, Structural, Clone, Copy, Debug)]
pub enum SendError {
    /// The channel already holds as many payloads as it can.
    ChannelFull,
    /// The other end of the channel is gone.
    ChannelClosed,
}

/// The result of offering a payload, as the application sees it.
pub fn send_result(o: SendOutcome) -> (r: Result<(), SendError>)
    ensures
        o == SendOutcome::Sent <==> r is Ok,
        o == SendOutcome::Full <==> r == Err::<(), SendError>(SendError::ChannelFull),
        o == SendOutcome::Disconnected <==> r == Err::<(), SendError>(SendError::ChannelClosed),
{
    match o {
        SendOutcome::Sent => Ok(()),
        SendOutcome::Full => Err(SendError::ChannelFull),
        SendOutcome::Disconnected => Err(SendError::ChannelClosed),
    }
}

/// A step a `DataSender` takes, recorded in order.
pub ghost enum SenderStep {
    /// An update was posted to the I/O loop.
    Posted(EventUpdate),
    /// A payload entered the response channel.
    Enqueued(bool, Seq<u8>),
}

/// The application's handle for sending response chunks of one
/// connection.
pub struct DataSender {
    token: Token,
    event_loop: EventLoopHandle,
    tx: PayloadSender,
    steps: Ghost<Seq<SenderStep>>,
}

impl DataSender {
    /// The connection the handle sends for.
    pub closed spec fn token_spec(&self) -> Token {
        self.token
    }

    /// The updates posted through this handle's event-loop handle.
    pub closed spec fn posted(&self) -> Seq<EventUpdate> {
        self.event_loop.posted()
    }

    /// The capacity of the response channel.
    pub closed spec fn capacity(&self) -> nat {
        self.tx.capacity()
    }

    /// The payloads offered to the response channel through this handle.
    pub closed spec fn offered(&self) -> Seq<(bool, Seq<u8>)> {
        self.tx.offered()
    }

    /// The handle's steps since it was made, in order.
    pub closed spec fn history(&self) -> Seq<SenderStep> {
        self.steps@
    }

    pub fn new(token: Token, event_loop: EventLoopHandle, tx: PayloadSender) -> (r: Self)
        ensures
            r.token_spec() == token,
            r.posted() == event_loop.posted(),
            r.offered() == tx.offered(),
            r.capacity() == tx.capacity(),
            r.history() == Seq::<SenderStep>::empty(),
    {
        Self { tx, event_loop, token, steps: Ghost(Seq::empty()) }
    }

    pub fn token(&self) -> (r: Token)
        ensures
            r == self.token_spec(),
    {
        self.token
    }

    /// The event-loop handle the sender posts through.
    pub fn event_loop(&self) -> &EventLoopHandle {
        &self.event_loop
    }

    /// First step of a send: posts `ResumeWriting` for the connection.
    pub fn announce(&mut self)
        ensures
            final(self).token_spec() == old(self).token_spec(),
            final(self).posted() == old(self).posted().push(
                EventUpdate::ResumeWriting(old(self).token_spec()),
            ),
            final(self).offered() == old(self).offered(),
            final(self).history() == old(self).history().push(
                SenderStep::Posted(EventUpdate::ResumeWriting(old(self).token_spec())),
            ),
    {
        self.event_loop.resume_writing(self.token);
        self.steps = Ghost(
            self.steps@.push(SenderStep::Posted(EventUpdate::ResumeWriting(self.token))),
        );
    }

    /// Second step of a send: offers the chunk to the response channel
    /// without blocking. The chunk is refused when the channel is full or
    /// closed.
    pub fn offer(&mut self, more_body: bool, body: Vec<u8>) -> (r: Result<(), SendError>)
        ensures
            final(self).token_spec() == old(self).token_spec(),
            final(self).posted() == old(self).posted(),
            final(self).offered() == old(self).offered().push((more_body, body@)),
            r is Ok ==> final(self).history() == old(self).history().push(
                SenderStep::Enqueued(more_body, body@),
            ),
            r is Err ==> final(self).history() == old(self).history(),
    {
        let ghost bytes = body@;
        let outcome = self.tx.try_send((more_body, body));
        let r = send_result(outcome);
        if r.is_ok() {
            self.steps = Ghost(self.steps@.push(SenderStep::Enqueued(more_body, bytes)));
        }
        r
    }

    /// Sends one response chunk: posts `ResumeWriting` for the connection,
    /// then offers the chunk to the channel, so the I/O loop finds the
    /// update no later than the chunk.
    pub fn call(&mut self, more_body: bool, body: Vec<u8>) -> (r: Result<(), SendError>)
        ensures
            final(self).token_spec() == old(self).token_spec(),
            final(self).posted() == old(self).posted().push(
                EventUpdate::ResumeWriting(old(self).token_spec()),
            ),
            final(self).offered() == old(self).offered().push((more_body, body@)),
            r is Ok ==> final(self).history() == old(self).history().push(
                SenderStep::Posted(EventUpdate::ResumeWriting(old(self).token_spec())),
            ).push(SenderStep::Enqueued(more_body, body@)),
            r is Err ==> final(self).history() == old(self).history().push(
                SenderStep::Posted(EventUpdate::ResumeWriting(old(self).token_spec())),
            ),
    {
        self.announce();
        self.offer(more_body, body)
    }
}

/// The application's handle for asking one connection for more request
/// body.
pub struct DataReceiver {
    token: Token,
    event_loop: EventLoopHandle,
    rx: PayloadReceiver,
}

impl DataReceiver {
    pub closed spec fn token_spec(&self) -> Token {
        self.token
    }

    /// The updates posted through this handle.
    pub closed spec fn posted(&self) -> Seq<EventUpdate> {
        self.event_loop.posted()
    }

    pub fn new(token: Token, event_loop: EventLoopHandle, rx: PayloadReceiver) -> (r: Self)
        ensures
            r.token_spec() == token,
            r.posted() == event_loop.posted(),
    {
        Self { rx, event_loop, token }
    }

    pub fn token(&self) -> (r: Token)
        ensures
            r == self.token_spec(),
    {
        self.token
    }

    /// The event-loop handle the receiver posts through.
    pub fn event_loop(&self) -> &EventLoopHandle {
        &self.event_loop
    }

    /// Asks the I/O loop to resume reading the connection.
    pub fn call(&mut self)
        ensures
            final(self).token_spec() == old(self).token_spec(),
            final(self).posted() == old(self).posted().push(
                EventUpdate::ResumeReading(old(self).token_spec()),
            ),
    {
        self.event_loop.resume_reading(self.token);
    }

    /// Takes the next request-body chunk, if one is waiting.
    pub fn try_take(&self) -> Option<Payload> {
        self.rx.try_recv()
    }
}

/// The protocol's end of a connection's response channel.
pub struct SenderHandler {
    sender_tx: PayloadSender,
    sender_rx: PayloadReceiver,
    token: Token,
    event_loop: EventLoopHandle,
}

impl SenderHandler {
    pub closed spec fn token_spec(&self) -> Token {
        self.token
    }

    /// The capacity of the response channel.
    pub closed spec fn capacity(&self) -> nat {
        self.sender_tx.capacity()
    }

    /// A new, empty response channel of `CHANNEL_CAPACITY` payloads.
    pub fn new(token: Token, event_loop: EventLoopHandle) -> (r: Self)
        ensures
            r.token_spec() == token,
            r.capacity() == CHANNEL_CAPACITY,
    {
        let (tx, rx) = payload_channel();
        Self { sender_tx: tx, sender_rx: rx, token, event_loop }
    }

    /// A new application handle that sends into this channel.
    pub fn make_handle(&self) -> (r: DataSender)
        ensures
            r.token_spec() == self.token_spec(),
            r.posted() == Seq::<EventUpdate>::empty(),
            r.offered() == Seq::<(bool, Seq<u8>)>::empty(),
            r.capacity() == self.capacity(),
            r.history() == Seq::<SenderStep>::empty(),
    {
        DataSender::new(self.token, self.event_loop.share(), self.sender_tx.share())
    }

    /// Takes the next response chunk without blocking, if one is waiting.
    pub fn recv(&self) -> Option<Payload> {
        self.sender_rx.try_recv()
    }
}

/// The protocol's end of a connection's request-body channel.
pub struct ReceiverHandler {
    receiver_tx: PayloadSender,
    receiver_rx: PayloadReceiver,
    token: Token,
    event_loop: EventLoopHandle,
}

impl ReceiverHandler {
    pub closed spec fn token_spec(&self) -> Token {
        self.token
    }

    /// The capacity of the request-body channel.
    pub closed spec fn capacity(&self) -> nat {
        self.receiver_tx.capacity()
    }

    /// The request-body chunks offered to the application so far.
    pub closed spec fn offered(&self) -> Seq<(bool, Seq<u8>)> {
        self.receiver_tx.offered()
    }

    pub fn new(token: Token, event_loop: EventLoopHandle) -> (r: Self)
        ensures
            r.token_spec() == token,
            r.offered() == Seq::<(bool, Seq<u8>)>::empty(),
            r.capacity() == CHANNEL_CAPACITY,
    {
        let (tx, rx) = payload_channel();
        Self { receiver_tx: tx, receiver_rx: rx, token, event_loop }
    }

    /// A new application handle that reads from this channel.
    pub fn make_handle(&self) -> (r: DataReceiver)
        ensures
            r.token_spec() == self.token_spec(),
            r.posted() == Seq::<EventUpdate>::empty(),
    {
        DataReceiver::new(self.token, self.event_loop.share(), self.receiver_rx.share())
    }

    /// Offers a request-body chunk to the application without blocking.
    pub fn send(&mut self, data: Payload) -> (r: Result<(), SendError>)
        ensures
            final(self).token_spec() == old(self).token_spec(),
            final(self).offered() == old(self).offered().push((data.0, data.1@)),
            final(self).capacity() == old(self).capacity(),
    {
        send_result(self.receiver_tx.try_send(data))
    }
}

} // verus!
