use vstd::prelude::*;
use crate::client::{Client, slot_requested};
use crate::interest::{PollerAction, action_for};
use crate::token::{COUNTER_SEED, Token, TokenCounter};
use crate::transport::{EventLoopHandle, EventUpdate};

verus! {

/// The registry of connection slots. Slot tokens are issued densely from
/// the counter, so the slot of token `t` sits at index `t - FIRST_SLOT`.
pub struct HighLevelServer<S> {
    clients: Vec<Client<S>>,
    counter: TokenCounter,
    transport: EventLoopHandle,
}

/// The first token the counter issues.
pub const FIRST_SLOT: usize = 3;

impl<S> HighLevelServer<S> {
    /// The slots, in token order.
    pub closed spec fn slots(&self) -> Seq<Client<S>> {
        self.clients@
    }

    /// The updates the registry posted.
    pub closed spec fn posted(&self) -> Seq<EventUpdate> {
        self.transport.posted()
    }

    /// The last token the counter issued.
    pub closed spec fn last_token(&self) -> nat {
        self.counter.last()
    }

    pub open spec fn has_slot(&self, t: Token) -> bool {
        FIRST_SLOT <= t.0 < FIRST_SLOT + self.slots().len()
    }

    pub open spec fn slot(&self, t: Token) -> Client<S> {
        self.slots()[t.0 - FIRST_SLOT]
    }

    pub open spec fn wf(&self) -> bool {
        &&& self.last_token() == COUNTER_SEED + self.slots().len()
        &&& self.last_token() <= usize::MAX
        &&& forall|i: int|
            0 <= i < self.slots().len() ==> {
                &&& (#[trigger] self.slots()[i]).wf()
                &&& self.slots()[i].token_spec().0 == FIRST_SLOT + i
            }
    }

    /// The token of the first idle slot, if any.
    pub open spec fn first_idle(&self) -> Option<Token> {
        if exists|i: int| 0 <= i < self.slots().len() && #[trigger] self.slots()[i].idle_spec() {
            let i = choose|i: int|
                0 <= i < self.slots().len() && #[trigger] self.slots()[i].idle_spec() && forall|
                    j: int,
                |
                    0 <= j < i ==> !#[trigger] self.slots()[j].idle_spec();
            Some(Token((FIRST_SLOT + i) as usize))
        } else {
            None
        }
    }

    pub fn new(transport: EventLoopHandle) -> (r: Self)
        ensures
            r.wf(),
            r.slots().len() == 0,
            r.posted() == transport.posted(),
    {
        Self { clients: Vec::new(), counter: TokenCounter::new(), transport }
    }

    /// How many slots exist.
    pub fn slot_count(&self) -> (r: usize)
        ensures
            r == self.slots().len(),
    {
        self.clients.len()
    }

    /// Whether `token` names an existing slot.
    pub fn has_client(&self, token: Token) -> (r: bool)
        ensures
            r == self.has_slot(token),
    {
        token.0 >= FIRST_SLOT && token.0 - FIRST_SLOT < self.clients.len()
    }

    /// Finds the first slot (in token order) that is idle.
    pub fn get_idle_client(&self) -> (r: Option<Token>)
        requires
            self.wf(),
        ensures
            r == self.first_idle(),
            r is Some ==> self.has_slot(r->Some_0) && self.slot(r->Some_0).idle_spec(),
            r is None <==> forall|i: int|
                0 <= i < self.slots().len() ==> !#[trigger] self.slots()[i].idle_spec(),
    {
        let mut i: usize = 0;
        while i < self.clients.len()
            invariant
                self.wf(),
                i <= self.slots().len(),
                forall|j: int| 0 <= j < i ==> !#[trigger] self.slots()[j].idle_spec(),
            decreases self.slots().len() - i,
        {
            if self.clients[i].is_idle() {
                assert(self.slots()[i as int].idle_spec());
                let ghost k = choose|k: int|
                    0 <= k < self.slots().len() && #[trigger] self.slots()[k].idle_spec()
                        && forall|j: int| 0 <= j < k ==> !#[trigger] self.slots()[j].idle_spec();
                assert(k == i) by {
                    if k < i {
                        assert(!self.slots()[k].idle_spec());
                    } else if k > i {
                        assert(!self.slots()[i as int].idle_spec());
                    }
                }
                return Some(Token(FIRST_SLOT + i));
            }
            i = i + 1;
        }
        None
    }

    /// Selects the token for the next accepted connection: the first idle
    /// slot's, or else a fresh token allocated from the counter, which
    /// advances by one. `None` only when no slot is idle and the counter is
    /// exhausted. The slots do not change; a fresh token is then owed a new
    /// slot, which `client_accepted` makes at once.
    fn select_token(&mut self) -> (r: Option<Token>)
        requires
            old(self).wf(),
        ensures
            final(self).slots() == old(self).slots(),
            final(self).posted() == old(self).posted(),
            old(self).first_idle() is Some ==> {
                &&& r == old(self).first_idle()
                &&& old(self).has_slot(r->Some_0)
                &&& old(self).slot(r->Some_0).idle_spec()
                &&& final(self).last_token() == old(self).last_token()
            },
            old(self).first_idle() is None && old(self).last_token() < usize::MAX ==> {
                &&& r == Some(Token((old(self).last_token() + 1) as usize))
                &&& r->Some_0.0 == FIRST_SLOT + old(self).slots().len()
                &&& final(self).last_token() == old(self).last_token() + 1
            },
            old(self).first_idle() is None && old(self).last_token() >= usize::MAX ==> r is None
                && final(self).last_token() == old(self).last_token(),
            final(self).last_token() <= usize::MAX,
    {
        match self.get_idle_client() {
            Some(token) => Some(token),
            None => {
                if self.counter.peek() < usize::MAX {
                    Some(self.counter.next())
                } else {
                    None
                }
            },
        }
    }

    /// Takes a freshly accepted socket into a slot: the first idle slot is
    /// rebound to it, or else a new slot is made under the counter's next
    /// token. Either way the slot is fresh and `ResumeReading` is posted
    /// for it. The socket is handed back only when no slot is idle and the
    /// counter is exhausted.
    pub fn client_accepted(&mut self, stream: S) -> (r: Result<Token, S>)
        requires
            old(self).wf(),
        ensures
            final(self).wf(),
            match r {
                Ok(t) => {
                    &&& old(self).first_idle() is Some ==> {
                        &&& t == old(self).first_idle()->Some_0
                        &&& final(self).last_token() == old(self).last_token()
                        &&& final(self).slots() == old(self).slots().update(
                            t.0 - FIRST_SLOT,
                            final(self).slot(t),
                        )
                    }
                    &&& old(self).first_idle() is None ==> {
                        &&& t.0 == FIRST_SLOT + old(self).slots().len()
                        &&& t.0 == old(self).last_token() + 1
                        &&& final(self).last_token() == old(self).last_token() + 1
                        &&& final(self).slots() == old(self).slots().push(final(self).slot(t))
                    }
                    &&& final(self).has_slot(t)
                    &&& final(self).slot(t).is_fresh()
                    &&& final(self).slot(t).stream_spec() == stream
                    &&& final(self).posted() == old(self).posted().push(
                        EventUpdate::ResumeReading(t),
                    )
                },
                Err(s) => {
                    &&& s == stream
                    &&& old(self).first_idle() is None
                    &&& old(self).last_token() >= usize::MAX
                    &&& final(self).slots() == old(self).slots()
                    &&& final(self).last_token() == old(self).last_token()
                    &&& final(self).posted() == old(self).posted()
                },
            },
    {
        let token = match self.select_token() {
            Some(t) => t,
            None => return Err(stream),
        };
        let ghost old_slots = self.slots();
        let i = token.0 - FIRST_SLOT;
        if i < self.clients.len() {
            assert(old_slots[i as int].wf());
            self.clients[i].handle_new(stream);
            proof {
                assert(self.slots() =~= old_slots.update(i as int, self.slots()[i as int]));
                assert forall|j: int| 0 <= j < self.slots().len() implies {
                    &&& (#[trigger] self.slots()[j]).wf()
                    &&& self.slots()[j].token_spec().0 == FIRST_SLOT + j
                } by {
                    if j != i {
                        assert(self.slots()[j] == old_slots[j]);
                    }
                }
            }
        } else {
            let client = Client::build_from(token, stream, self.transport.share());
            self.clients.push(client);
            proof {
                assert(self.slots() =~= old_slots.push(self.slots()[i as int]));
                assert forall|j: int| 0 <= j < self.slots().len() implies {
                    &&& (#[trigger] self.slots()[j]).wf()
                    &&& self.slots()[j].token_spec().0 == FIRST_SLOT + j
                } by {
                    if j != i {
                        assert(self.slots()[j] == old_slots[j]);
                    }
                }
            }
        }
        self.transport.resume_reading(token);
        Ok(token)
    }
    /// Visits every slot's keep-alive hook.
    pub fn keep_alive_tick(&mut self)
        ensures
            final(self).slots() == old(self).slots(),
            final(self).last_token() == old(self).last_token(),
            final(self).posted() == old(self).posted(),
    {
        let mut i: usize = 0;
        while i < self.clients.len()
            invariant
                self.slots() == old(self).slots(),
                self.last_token() == old(self).last_token(),
                self.posted() == old(self).posted(),
            decreases self.slots().len() - i,
        {
            self.clients[i].check_keep_alive();
            proof {
                assert(self.clients@ =~= old(self).clients@);
            }
            i = i + 1;
        }
    }

    /// The slot of `token`, which must exist (the token came from the
    /// poller).
    pub fn get_client(&mut self, token: Token) -> (r: &mut Client<S>)
        requires
            old(self).has_slot(token),
        ensures
            *r == old(self).slot(token),
            final(self).slots() == old(self).slots().update(token.0 - FIRST_SLOT, *final(r)),
            final(self).last_token() == old(self).last_token(),
            final(self).posted() == old(self).posted(),
    {
        &mut self.clients[token.0 - FIRST_SLOT]
    }

    /// The slot of `token`, read only.
    pub fn client(&self, token: Token) -> (r: &Client<S>)
        requires
            self.has_slot(token),
        ensures
            *r == self.slot(token),
    {
        &self.clients[token.0 - FIRST_SLOT]
    }
    /// Once a slot is idle and no slot before it is, the token the next
    /// accepted connection gets is that slot's; `client_accepted` then
    /// leaves the slot fresh, its buffers empty before any byte arrives.
    pub proof fn lemma_idle_token_reused(&self, t: Token)
        requires
            self.wf(),
            self.has_slot(t),
            self.slot(t).idle_spec(),
            forall|i: int| 0 <= i < t.0 - FIRST_SLOT ==> !#[trigger] self.slots()[i].idle_spec(),
        ensures
            self.first_idle() == Some(t),
    {
        let i = t.0 - FIRST_SLOT;
        assert(self.slots()[i].idle_spec());
        let k = choose|k: int|
            0 <= k < self.slots().len() && #[trigger] self.slots()[k].idle_spec() && forall|
                j: int,
            |
                0 <= j < k ==> !#[trigger] self.slots()[j].idle_spec();
        assert(k == i) by {
            if k < i {
                assert(!self.slots()[k].idle_spec());
            } else if k > i {
                assert(!self.slots()[i].idle_spec());
            }
        }
    }
    /// The poller call that carries out a queued update; `None` when the
    /// update names no slot.
    pub fn plan_update(&self, update: EventUpdate) -> (r: Option<PollerAction>)
        ensures
            !self.has_slot(update.token_of()) ==> r is None,
            self.has_slot(update.token_of()) ==> r == Some(
                action_for(
                    self.slot(update.token_of()).interest_spec(),
                    slot_requested(
                        self.slot(update.token_of()).idle_spec(),
                        self.slot(update.token_of()).interest_spec(),
                        update.kind_of(),
                    ),
                ),
            ),
    {
        let token = update.token();
        if !self.has_client(token) {
            return None;
        }
        Some(self.clients[token.0 - FIRST_SLOT].plan_update(update.kind()))
    }

    /// Records a queued update on its slot once the poller call that
    /// `plan_update` chose has succeeded; other slots are untouched.
    pub fn commit_update(&mut self, update: EventUpdate)
        requires
            old(self).wf(),
            old(self).has_slot(update.token_of()),
        ensures
            final(self).wf(),
            final(self).last_token() == old(self).last_token(),
            final(self).posted() == old(self).posted(),
            final(self).slots().len() == old(self).slots().len(),
            forall|i: int|
                0 <= i < old(self).slots().len() && i != update.token_of().0 - FIRST_SLOT
                    ==> #[trigger] final(self).slots()[i] == old(self).slots()[i],
            final(self).slot(update.token_of()).interest_spec() == slot_requested(
                old(self).slot(update.token_of()).idle_spec(),
                old(self).slot(update.token_of()).interest_spec(),
                update.kind_of(),
            ),
            final(self).slot(update.token_of()).idle_spec() == old(self).slot(
                update.token_of(),
            ).idle_spec(),
            final(self).slot(update.token_of()).stream_spec() == old(self).slot(
                update.token_of(),
            ).stream_spec(),
            final(self).slot(update.token_of()).token_spec() == update.token_of(),
            final(self).slot(update.token_of()).protocol_spec() == old(self).slot(
                update.token_of(),
            ).protocol_spec(),
    {
        let i = update.token().0 - FIRST_SLOT;
        let ghost old_slots = self.slots();
        assert(old_slots[i as int].wf());
        self.clients[i].commit_update(update.kind());
        proof {
            assert forall|j: int| 0 <= j < self.slots().len() implies {
                &&& (#[trigger] self.slots()[j]).wf()
                &&& self.slots()[j].token_spec().0 == FIRST_SLOT + j
            } by {
                if j != i {
                    assert(self.slots()[j] == old_slots[j]);
                }
            }
        }
    }
}

} // verus!
