use vstd::prelude::*;

verus! {

/// An interest set: which readiness kinds the poller reports for a socket.
#[derive(PartialEq, Eq, Structural, Clone, Copy, Debug)]
pub struct Interest {
    pub readable: bool,
    pub writable: bool,
}

/// The empty interest set: the socket is not registered with the poller.
pub open spec fn no_interest() -> Interest {
    Interest { readable: false, writable: false }
}

/// A requested change of one direction of a socket's interest set.
#[derive(PartialEq, Eq, Structural, Clone, Copy, Debug)]
pub enum UpdateKind {
    PauseReading,
    PauseWriting,
    ResumeReading,
    ResumeWriting,
}

/// What the poller must be told so that its registration matches a new
/// interest set.
#[derive(PartialEq, Eq, Structural, Clone, Copy, Debug)]
pub enum PollerAction {
    /// The registration already matches.
    Nothing,
    /// The socket is not registered: register it with this interest.
    Register(Interest),
    /// The socket is registered: replace its interest with this one.
    Reregister(Interest),
    /// The socket is registered and must no longer be.
    Deregister,
}

/// The interest set after a requested change: only the named direction
/// moves.
pub open spec fn requested(cur: Interest, k: UpdateKind) -> Interest {
    match k {
        UpdateKind::PauseReading => Interest { readable: false, writable: cur.writable },
        UpdateKind::PauseWriting => Interest { readable: cur.readable, writable: false },
        UpdateKind::ResumeReading => Interest { readable: true, writable: cur.writable },
        UpdateKind::ResumeWriting => Interest { readable: cur.readable, writable: true },
    }
}

/// The poller call that takes a socket from interest `cur` to `next`.
pub open spec fn action_for(cur: Interest, next: Interest) -> PollerAction {
    if cur == next {
        PollerAction::Nothing
    } else if cur == no_interest() {
        PollerAction::Register(next)
    } else if next == no_interest() {
        PollerAction::Deregister
    } else {
        PollerAction::Reregister(next)
    }
}

/// The poller's registration of a socket whose flags are `i`: none when
/// both flags are off, otherwise exactly the flags.
pub open spec fn registration(i: Interest) -> Option<Interest> {
    if i == no_interest() {
        None
    } else {
        Some(i)
    }
}

/// The poller's registration after an action, or `None` where the poller
/// refuses the action in that state (registering twice, changing or
/// removing a registration that does not exist, an empty interest).
pub open spec fn poller_after(reg: Option<Interest>, a: PollerAction) -> Option<Option<Interest>> {
    match a {
        PollerAction::Nothing => Some(reg),
        PollerAction::Register(i) => {
            if reg is None && i != no_interest() {
                Some(Some(i))
            } else {
                None
            }
        },
        PollerAction::Reregister(i) => {
            if reg is Some && i != no_interest() {
                Some(Some(i))
            } else {
                None
            }
        },
        PollerAction::Deregister => {
            if reg is Some {
                Some(None)
            } else {
                None
            }
        },
    }
}

/// Decides how a requested change of a socket's interest is carried out:
/// the poller call to make, and the flags to record once it succeeded.
pub fn transition(cur: Interest, k: UpdateKind) -> (r: (PollerAction, Interest))
    ensures
        r.1 == requested(cur, k),
        r.0 == action_for(cur, r.1),
{
    let next = match k {
        UpdateKind::PauseReading => Interest { readable: false, writable: cur.writable },
        UpdateKind::PauseWriting => Interest { readable: cur.readable, writable: false },
        UpdateKind::ResumeReading => Interest { readable: true, writable: cur.writable },
        UpdateKind::ResumeWriting => Interest { readable: cur.readable, writable: true },
    };
    let action = if cur.readable == next.readable && cur.writable == next.writable {
        PollerAction::Nothing
    } else if !cur.readable && !cur.writable {
        PollerAction::Register(next)
    } else if !next.readable && !next.writable {
        PollerAction::Deregister
    } else {
        PollerAction::Reregister(next)
    };
    (action, next)
}

/// When the flags mirror the poller's registration, the action chosen for
/// any requested change is one the poller accepts, and once it is applied
/// the new flags mirror the new registration.
pub proof fn lemma_transition_keeps_mirror(cur: Interest, k: UpdateKind)
    ensures
        poller_after(registration(cur), action_for(cur, requested(cur, k)))
            == Some(registration(requested(cur, k))),
{
}

/// A request for the state a socket is already in makes no poller call
/// and changes no flag.
pub proof fn lemma_request_in_place_is_noop(cur: Interest, k: UpdateKind)
    requires
        requested(cur, k) == cur,
    ensures
        action_for(cur, requested(cur, k)) == PollerAction::Nothing,
{
}

/// Pausing reading twice in a row: the second request makes no poller
/// call and leaves the flags as the first one left them; on a socket whose
/// reading is already paused, the first one does not either.
pub proof fn lemma_pause_reading_twice(cur: Interest)
    ensures
        ({
            let once = requested(cur, UpdateKind::PauseReading);
            &&& requested(once, UpdateKind::PauseReading) == once
            &&& action_for(once, requested(once, UpdateKind::PauseReading))
                == PollerAction::Nothing
            &&& !cur.readable ==> once == cur && action_for(cur, once)
                == PollerAction::Nothing
        }),
{
}

/// Whether an action registers or reregisters the socket for writing.
pub open spec fn arms_writing(a: PollerAction) -> bool {
    match a {
        PollerAction::Register(i) => i.writable,
        PollerAction::Reregister(i) => i.writable,
        _ => false,
    }
}

/// Two requests in a row to resume writing make at most one poller call
/// that arms writing: the second one makes no call at all.
pub proof fn lemma_resume_writing_twice(cur: Interest)
    ensures
        ({
            let once = requested(cur, UpdateKind::ResumeWriting);
            let twice = requested(once, UpdateKind::ResumeWriting);
            &&& twice == once
            &&& action_for(once, twice) == PollerAction::Nothing
            &&& !arms_writing(action_for(once, twice))
            &&& cur.writable ==> action_for(cur, once) == PollerAction::Nothing
        }),
{
}

/// A pause of writing followed by a resume of writing, applied in that
/// order, leaves writing armed and reading as it was.
pub proof fn lemma_pause_then_resume_writing(cur: Interest)
    ensures
        requested(requested(cur, UpdateKind::PauseWriting), UpdateKind::ResumeWriting) == (
        Interest { readable: cur.readable, writable: true }),
{
}

/// The readiness a poller event reports for a connection socket.
#[derive(PartialEq, Eq, Structural, Clone, Copy, Debug)]
pub enum SocketPollState {
    /// The socket can (maybe) be read from.
    Read,
    /// The socket can (maybe) be written to.
    Write,
    /// One half of the socket was closed, so communication cannot go on.
    Shutdown,
}

/// Classifies a poller event on a connection socket, in the order
/// readable, writable, then half-closed; `None` when it reports none of
/// them.
pub fn socket_state(
    readable: bool,
    writable: bool,
    read_closed: bool,
    write_closed: bool,
) -> (r: Option<SocketPollState>)
    ensures
        readable ==> r == Some(SocketPollState::Read),
        !readable && writable ==> r == Some(SocketPollState::Write),
        !readable && !writable && (read_closed || write_closed) ==> r == Some(
            SocketPollState::Shutdown,
        ),
        !readable && !writable && !read_closed && !write_closed ==> r is None,
{
    if readable {
        Some(SocketPollState::Read)
    } else if writable {
        Some(SocketPollState::Write)
    } else if read_closed || write_closed {
        Some(SocketPollState::Shutdown)
    } else {
        None
    }
}

} // verus!
