use vstd::prelude::*;

verus! {

/// An opaque identifier of a source of poller events.
#[derive(PartialEq, Eq, Structural, Clone, Copy, Debug)]
pub struct Token(pub usize);

/// The token value under which the listening socket is registered.
pub const SERVER: usize = 0;

/// The token value under which the update-queue wakeup is registered.
pub const CHECK_UPDATE: usize = 1;

/// The value the counter holds before the first slot token is issued.
pub const COUNTER_SEED: usize = 2;

/// Whether a token names a connection slot rather than a reserved source.
pub open spec fn is_slot_token(t: Token) -> bool {
    t.0 > COUNTER_SEED
}

/// Where a poller event goes.
#[derive(PartialEq, Eq, Structural, Clone, Copy, Debug)]
pub enum EventSource {
    /// The listening socket: accept connections.
    Listener,
    /// The update-queue wakeup: drain the queue.
    Updates,
    /// A connection slot.
    Connection(Token),
}

/// Routes a poller event by its token value.
pub fn route_event(token: usize) -> (r: EventSource)
    ensures
        token == SERVER ==> r == EventSource::Listener,
        token == CHECK_UPDATE ==> r == EventSource::Updates,
        token != SERVER && token != CHECK_UPDATE ==> r == EventSource::Connection(Token(token)),
{
    if token == SERVER {
        EventSource::Listener
    } else if token == CHECK_UPDATE {
        EventSource::Updates
    } else {
        EventSource::Connection(Token(token))
    }
}

/// A monotonically increasing source of fresh slot tokens.
pub struct TokenCounter {
    internal: usize,
}

impl TokenCounter {
    /// The last value handed out (the seed before any token was issued).
    pub closed spec fn last(&self) -> nat {
        self.internal as nat
    }

    /// Makes a counter whose first token is the first one past the
    /// reserved tokens.
    pub fn new() -> (r: Self)
        ensures
            r.last() == COUNTER_SEED,
    {
        Self { internal: COUNTER_SEED }
    }

    /// The last value handed out.
    pub fn peek(&self) -> (r: usize)
        ensures
            r == self.last(),
    {
        self.internal
    }

    /// Issues the next token: one past the last one issued.
    pub fn next(&mut self) -> (r: Token)
        requires
            old(self).last() < usize::MAX,
        ensures
            r.0 == old(self).last() + 1,
            final(self).last() == r.0,
    {
        self.internal = self.internal + 1;
        Token(self.internal)
    }
}

} // verus!
