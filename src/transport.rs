use vstd::prelude::*;
use std::sync::Arc;
use crossbeam::queue::SegQueue;
use mio::Waker;
use crate::token::Token;
use crate::interest::UpdateKind;

verus! {

#[verifier::external_type_specification]
#[verifier::external_body]
#[verifier::reject_recursive_types(T)]
pub struct ExSegQueue<T>(SegQueue<T>);

#[verifier::external_type_specification]
#[verifier::external_body]
pub struct ExWaker(Waker);

/// A change that should be applied to the poller's interest in a socket.
#[derive(PartialEq, Eq, Structural, Clone, Copy, Debug)]
pub enum EventUpdate {
    PauseReading(Token),
    PauseWriting(Token),
    ResumeReading(Token),
    ResumeWriting(Token),
}

impl EventUpdate {
    pub open spec fn token_of(self) -> Token {
        match self {
            EventUpdate::PauseReading(t) => t,
            EventUpdate::PauseWriting(t) => t,
            EventUpdate::ResumeReading(t) => t,
            EventUpdate::ResumeWriting(t) => t,
        }
    }

    pub open spec fn kind_of(self) -> UpdateKind {
        match self {
            EventUpdate::PauseReading(_) => UpdateKind::PauseReading,
            EventUpdate::PauseWriting(_) => UpdateKind::PauseWriting,
            EventUpdate::ResumeReading(_) => UpdateKind::ResumeReading,
            EventUpdate::ResumeWriting(_) => UpdateKind::ResumeWriting,
        }
    }

    /// The socket the update is about.
    pub fn token(&self) -> (r: Token)
        ensures
            r == self.token_of(),
    {
        match self {
            EventUpdate::PauseReading(t) => *t,
            EventUpdate::PauseWriting(t) => *t,
            EventUpdate::ResumeReading(t) => *t,
            EventUpdate::ResumeWriting(t) => *t,
        }
    }

    /// Which direction moves, and which way.
    pub fn kind(&self) -> (r: UpdateKind)
        ensures
            r == self.kind_of(),
    {
        match self {
            EventUpdate::PauseReading(_) => UpdateKind::PauseReading,
            EventUpdate::PauseWriting(_) => UpdateKind::PauseWriting,
            EventUpdate::ResumeReading(_) => UpdateKind::ResumeReading,
            EventUpdate::ResumeWriting(_) => UpdateKind::ResumeWriting,
        }
    }
}

/// The update queue shared between the I/O thread and every handle.
pub type UpdatesQueue = Arc<SegQueue<EventUpdate>>;

/// Relies on `SegQueue::new`: an empty queue.
#[verifier::external_body]
fn segqueue_new() -> (r: SegQueue<EventUpdate>) {
    SegQueue::new()
}

/// Relies on `SegQueue::push`. The queue is shared with other threads, so
/// nothing is promised about what it holds afterwards.
#[verifier::external_body]
fn segqueue_push(q: &SegQueue<EventUpdate>, u: EventUpdate) {
    q.push(u)
}

/// Relies on `SegQueue::pop`. Other threads push concurrently, so any
/// outcome is possible.
#[verifier::external_body]
fn segqueue_pop(q: &SegQueue<EventUpdate>) -> (r: Option<EventUpdate>) {
    q.pop()
}

/// Makes a new, empty update queue.
pub fn new_updates_queue() -> (r: UpdatesQueue) {
    Arc::new(segqueue_new())
}

/// Takes the oldest update off the queue, if any.
pub fn pop_update(q: &UpdatesQueue) -> (r: Option<EventUpdate>) {
    segqueue_pop(&**q)
}

/// A cheaply cloneable handle through which interest changes are posted
/// to the I/O loop.
///
/// Each handle records, as ghost state, the updates it has posted, in
/// order. The wakeup primitive travels with the queue; the embedding loop
/// fires it after posting.
pub struct EventLoopHandle {
    internal: UpdatesQueue,
    waker: Arc<Waker>,
    log: Ghost<Seq<EventUpdate>>,
}

impl EventLoopHandle {
    /// The updates posted through this handle since it was made.
    pub closed spec fn posted(&self) -> Seq<EventUpdate> {
        self.log@
    }

    pub fn from_queue_and_waker(internal: UpdatesQueue, waker: Arc<Waker>) -> (r: Self)
        ensures
            r.posted() == Seq::<EventUpdate>::empty(),
    {
        Self { internal, waker, log: Ghost(Seq::empty()) }
    }

    /// Another handle on the same queue and wakeup, with nothing posted yet.
    pub fn share(&self) -> (r: Self)
        ensures
            r.posted() == Seq::<EventUpdate>::empty(),
    {
        Self {
            internal: Arc::clone(&self.internal),
            waker: Arc::clone(&self.waker),
            log: Ghost(Seq::empty()),
        }
    }

    /// The queue the handle posts to.
    pub fn queue(&self) -> &UpdatesQueue {
        &self.internal
    }

    /// The wakeup primitive that pairs with the queue.
    pub fn waker(&self) -> &Arc<Waker> {
        &self.waker
    }

    /// Posts one update.
    pub fn post(&mut self, u: EventUpdate)
        ensures
            final(self).posted() == old(self).posted().push(u),
    {
        segqueue_push(&*self.internal, u);
        self.log = Ghost(self.log@.push(u));
    }

    pub fn pause_reading(&mut self, token: Token)
        ensures
            final(self).posted() == old(self).posted().push(EventUpdate::PauseReading(token)),
    {
        self.post(EventUpdate::PauseReading(token))
    }

    pub fn pause_writing(&mut self, token: Token)
        ensures
            final(self).posted() == old(self).posted().push(EventUpdate::PauseWriting(token)),
    {
        self.post(EventUpdate::PauseWriting(token))
    }

    pub fn resume_reading(&mut self, token: Token)
        ensures
            final(self).posted() == old(self).posted().push(EventUpdate::ResumeReading(token)),
    {
        self.post(EventUpdate::ResumeReading(token))
    }

    pub fn resume_writing(&mut self, token: Token)
        ensures
            final(self).posted() == old(self).posted().push(EventUpdate::ResumeWriting(token)),
    {
        self.post(EventUpdate::ResumeWriting(token))
    }
}

} // verus!
