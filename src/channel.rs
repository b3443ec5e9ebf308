use vstd::prelude::*;
use crossbeam::channel::{Sender, Receiver, TrySendError, bounded};

verus! {

#[verifier::external_type_specification]
#[verifier::external_body]
#[verifier::reject_recursive_types(T)]
pub struct ExSender<T>(Sender<T>);

#[verifier::external_type_specification]
#[verifier::external_body]
#[verifier::reject_recursive_types(T)]
pub struct ExReceiver<T>(Receiver<T>);

/// One chunk of a body: whether more follows, and the bytes.
pub type Payload = (bool, Vec<u8>);

/// How many payloads a response or request-body channel holds at once.
pub const CHANNEL_CAPACITY: usize = 10;

/// What became of a payload offered to a channel.
#[derive(PartialEq, Eq, Structural, Clone, Copy, Debug)]
pub enum SendOutcome {
    Sent,
    Full,
    Disconnected,
}

/// The capacity of the channel a sending end belongs to: how many payloads
/// it holds at once.
pub uninterp spec fn channel_bound(s: Sender<Payload>) -> nat;

/// Relies on `crossbeam::channel::bounded`: the channel holds up to `cap`
/// payloads. It panics only for a capacity too large to allocate.
#[verifier::external_body]
fn bounded_channel(cap: usize) -> (r: (Sender<Payload>, Receiver<Payload>))
    requires
        0 < cap <= 4096,
    ensures
        channel_bound(r.0) == cap,
{
    bounded(cap)
}

/// Relies on `Sender::clone`: another sending end of the same channel.
#[verifier::external_body]
fn clone_sender(s: &Sender<Payload>) -> (r: Sender<Payload>)
    ensures
        channel_bound(r) == channel_bound(*s),
{
    s.clone()
}

/// Relies on `Sender::try_send`, which never blocks. Other threads use the
/// channel too, so any outcome is possible.
#[verifier::external_body]
fn channel_try_send(tx: &Sender<Payload>, p: Payload) -> (r: SendOutcome) {
    match tx.try_send(p) {
        Ok(()) => SendOutcome::Sent,
        Err(TrySendError::Full(_)) => SendOutcome::Full,
        Err(TrySendError::Disconnected(_)) => SendOutcome::Disconnected,
    }
}

/// Relies on `Receiver::try_recv`, which never blocks: `None` when the
/// channel held nothing at that moment.
#[verifier::external_body]
fn channel_try_recv(rx: &Receiver<Payload>) -> (r: Option<Payload>) {
    rx.try_recv().ok()
}

pub assume_specification<T>[ <Receiver<T> as Clone>::clone ](s: &Receiver<T>) -> Receiver<T>;

/// The sending end of a payload channel. It records, as ghost state, every
/// payload it offered to the channel, in order; only `try_send` extends
/// that record.
pub struct PayloadSender {
    tx: Sender<Payload>,
    log: Ghost<Seq<(bool, Seq<u8>)>>,
}

impl PayloadSender {
    /// The capacity of the channel.
    pub closed spec fn capacity(&self) -> nat {
        channel_bound(self.tx)
    }

    /// The payloads offered through this end since it was made.
    pub closed spec fn offered(&self) -> Seq<(bool, Seq<u8>)> {
        self.log@
    }

    /// Another sending end on the same channel, with nothing offered yet.
    pub fn share(&self) -> (r: Self)
        ensures
            r.offered() == Seq::<(bool, Seq<u8>)>::empty(),
            r.capacity() == self.capacity(),
    {
        PayloadSender { tx: clone_sender(&self.tx), log: Ghost(Seq::empty()) }
    }

    /// Offers a payload to the channel without blocking.
    pub fn try_send(&mut self, p: Payload) -> (r: SendOutcome)
        ensures
            final(self).offered() == old(self).offered().push((p.0, p.1@)),
            final(self).capacity() == old(self).capacity(),
    {
        let ghost offered = (p.0, p.1@);
        let r = channel_try_send(&self.tx, p);
        self.log = Ghost(self.log@.push(offered));
        r
    }
}

/// The receiving end of a payload channel.
pub struct PayloadReceiver {
    rx: Receiver<Payload>,
}

impl PayloadReceiver {
    /// Another receiving end on the same channel.
    pub fn share(&self) -> Self {
        PayloadReceiver { rx: self.rx.clone() }
    }

    /// Takes the next payload without blocking, if one is waiting.
    pub fn try_recv(&self) -> Option<Payload> {
        channel_try_recv(&self.rx)
    }
}

/// A new channel holding up to `CHANNEL_CAPACITY` payloads.
pub fn payload_channel() -> (r: (PayloadSender, PayloadReceiver))
    ensures
        r.0.offered() == Seq::<(bool, Seq<u8>)>::empty(),
        r.0.capacity() == CHANNEL_CAPACITY,
{
    let (tx, rx) = bounded_channel(CHANNEL_CAPACITY);
    (PayloadSender { tx, log: Ghost(Seq::empty()) }, PayloadReceiver { rx })
}

} // verus!
