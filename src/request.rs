use vstd::prelude::*;

verus! {

/// A transport-level failure reported by the network capability (DNS, CORS,
/// a non-2xx status or a timeout all look the same to the core).
pub struct NetworkError {
    pub message: String,
}

/// Lifecycle of one asynchronous request.
pub enum RequestState<T> {
    NotFetching,
    Fetching,
    Success(T),
    Failed(NetworkError),
}

/// What can happen to a request.
pub enum FetchEvent<T> {
    StartFetch,
    Resolved(T),
    Rejected(NetworkError),
}

/// A completion event arrived while no request was in flight. The state it
/// would have replaced is handed back untouched.
pub struct IllegalTransition<T> {
    pub kept: RequestState<T>,
}

/// `StartFetch` is accepted anywhere; a completion only while fetching.
pub open spec fn is_legal<T>(s: RequestState<T>, e: FetchEvent<T>) -> bool {
    (e is StartFetch) || (s is Fetching)
}

/// The state after `e`, an illegal event leaving the state as it was.
pub open spec fn next_state<T>(s: RequestState<T>, e: FetchEvent<T>) -> RequestState<T> {
    match e {
        FetchEvent::StartFetch => RequestState::Fetching,
        FetchEvent::Resolved(v) => if s is Fetching {
            RequestState::Success(v)
        } else {
            s
        },
        FetchEvent::Rejected(err) => if s is Fetching {
            RequestState::Failed(err)
        } else {
            s
        },
    }
}

/// Applies `event` to `current`. Every state and event is handled; an
/// illegal completion is reported and the state is returned unchanged.
pub fn transition<T>(current: RequestState<T>, event: FetchEvent<T>) -> (r: Result<
    RequestState<T>,
    IllegalTransition<T>,
>)
    ensures
        r is Ok <==> is_legal(current, event),
        r matches Ok(s) ==> s == next_state(current, event),
        r matches Err(e) ==> e.kept == current,
{
    match event {
        FetchEvent::StartFetch => Ok(RequestState::Fetching),
        FetchEvent::Resolved(v) => match current {
            RequestState::Fetching => Ok(RequestState::Success(v)),
            other => Err(IllegalTransition { kept: other }),
        },
        FetchEvent::Rejected(err) => match current {
            RequestState::Fetching => Ok(RequestState::Failed(err)),
            other => Err(IllegalTransition { kept: other }),
        },
    }
}

impl<T> RequestState<T> {
    /// Applies `event` in place; an illegal completion is ignored and
    /// reported as `false`.
    pub fn apply(&mut self, event: FetchEvent<T>) -> (applied: bool)
        ensures
            applied == is_legal(*old(self), event),
            *final(self) == next_state(*old(self), event),
    {
        let mut current = RequestState::NotFetching;
        core::mem::swap(self, &mut current);
        match transition(current, event) {
            Ok(s) => {
                *self = s;
                true
            },
            Err(e) => {
                *self = e.kept;
                false
            },
        }
    }

    pub fn is_fetching(&self) -> (r: bool)
        ensures
            r == (*self is Fetching),
    {
        match self {
            RequestState::Fetching => true,
            _ => false,
        }
    }
}

/// Every state accepts every event. `StartFetch` always leads to `Fetching`; a
/// completion leads to `Success` or `Failed` only from `Fetching` and is
/// otherwise ignored, so a result is never reached without passing through
/// `Fetching`.
pub proof fn lemma_transition_table<T>(s: RequestState<T>, e: FetchEvent<T>)
    ensures
        e is StartFetch ==> next_state(s, e) is Fetching,
        e matches FetchEvent::Resolved(v) ==> next_state(s, e) == if s is Fetching {
            RequestState::Success(v)
        } else {
            s
        },
        e matches FetchEvent::Rejected(err) ==> next_state(s, e) == if s is Fetching {
            RequestState::Failed(err)
        } else {
            s
        },
        next_state(s, e) != s && ((next_state(s, e) is Success) || (next_state(
            s,
            e,
        ) is Failed)) ==> s is Fetching,
        !(s is Fetching) && !(e is StartFetch) ==> next_state(s, e) == s,
{
}

} // verus!
