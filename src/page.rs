use vstd::prelude::*;
use crate::request::{FetchEvent, RequestState, is_legal, next_state};

verus! {

/// Identifies the page instance that issued a fetch.
#[derive(PartialEq, Eq, Structural, Clone, Copy, Debug)]
pub struct Ticket {
    pub generation: u64,
}

/// The request state of the mounted page, keyed by a navigation generation
/// that grows by one each time a page is mounted or unmounted.
pub struct PageSlot<T> {
    pub generation: u64,
    pub state: RequestState<T>,
}

/// What a delivered event does to a slot: an event of another generation is
/// stale and changes nothing.
pub open spec fn delivered<T>(s: PageSlot<T>, ticket: Ticket, event: FetchEvent<T>) -> PageSlot<T> {
    if ticket.generation == s.generation {
        PageSlot { generation: s.generation, state: next_state(s.state, event) }
    } else {
        s
    }
}

/// The slot once its page instance is abandoned.
pub open spec fn abandoned<T>(s: PageSlot<T>) -> PageSlot<T> {
    PageSlot { generation: (s.generation + 1) as u64, state: RequestState::NotFetching }
}

/// The slot once its page instance has issued a fetch.
pub open spec fn started<T>(s: PageSlot<T>) -> PageSlot<T> {
    PageSlot { generation: s.generation, state: RequestState::Fetching }
}

impl<T> PageSlot<T> {
    pub fn new() -> (r: PageSlot<T>)
        ensures
            r.generation == 0,
            r.state is NotFetching,
    {
        PageSlot { generation: 0, state: RequestState::NotFetching }
    }

    /// Abandons the current page instance: whatever it had in flight is now
    /// stale.
    pub fn abandon(&mut self)
        requires
            old(self).generation < u64::MAX,
        ensures
            *final(self) == abandoned(*old(self)),
    {
        self.generation = self.generation + 1;
        self.state = RequestState::NotFetching;
    }

    /// Issues a fetch for the current page instance.
    pub fn start_fetch(&mut self) -> (ticket: Ticket)
        ensures
            ticket == (Ticket { generation: old(self).generation }),
            *final(self) == started(*old(self)),
    {
        self.state.apply(FetchEvent::StartFetch);
        Ticket { generation: self.generation }
    }

    /// Applies an event issued under `ticket`; `true` when it changed the
    /// current page's state.
    pub fn deliver(&mut self, ticket: Ticket, event: FetchEvent<T>) -> (applied: bool)
        ensures
            applied == (ticket.generation == old(self).generation && is_legal(
                old(self).state,
                event,
            )),
            *final(self) == delivered(*old(self), ticket, event),
    {
        if ticket.generation == self.generation {
            self.state.apply(event)
        } else {
            false
        }
    }
}

/// A completion issued by a page instance that was abandoned before it
/// arrived leaves the slot as it is.
pub proof fn lemma_stale_response_ignored<T>(s: PageSlot<T>, event: FetchEvent<T>)
    requires
        s.generation < u64::MAX,
    ensures
        ({
            let ticket = Ticket { generation: s.generation };
            let after = abandoned(started(s));
            delivered(after, ticket, event) == after
        }),
{
}

} // verus!
