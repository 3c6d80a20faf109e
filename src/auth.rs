use vstd::prelude::*;

verus! {

/// The authentication lifecycle signal.
pub enum SessionStatus {
    Unauthenticated,
    Authenticating,
    Authenticated { token: String },
}

/// What the authentication check mounts in place of the routed content.
#[derive(PartialEq, Eq, Structural, Clone, Copy, Debug)]
pub enum GateDecision {
    Protected,
    LoginPrompt,
}

pub open spec fn decision_of(status: SessionStatus) -> GateDecision {
    match status {
        SessionStatus::Authenticated { .. } => GateDecision::Protected,
        _ => GateDecision::LoginPrompt,
    }
}

/// Protected content only for an authenticated session; a login prompt while
/// unauthenticated or while a login is under way.
pub fn decide(status: &SessionStatus) -> (r: GateDecision)
    ensures
        r == decision_of(*status),
{
    match status {
        SessionStatus::Authenticated { .. } => GateDecision::Protected,
        _ => GateDecision::LoginPrompt,
    }
}

/// The state that `start_login` leaves: a login starts only from
/// `Unauthenticated`.
pub open spec fn after_start_login(s: SessionStatus) -> SessionStatus {
    if s is Unauthenticated {
        SessionStatus::Authenticating
    } else {
        s
    }
}

/// The state that a login outcome leaves: it counts only while a login is under
/// way; a token authenticates, its absence reverts to `Unauthenticated`.
pub open spec fn after_finish_login(s: SessionStatus, outcome: Option<String>) -> SessionStatus {
    if s is Authenticating {
        match outcome {
            Some(token) => SessionStatus::Authenticated { token },
            None => SessionStatus::Unauthenticated,
        }
    } else {
        s
    }
}

/// A session context, passed explicitly to whoever reads it.
pub struct Session {
    pub status: SessionStatus,
}

impl Session {
    /// A new session starts unauthenticated.
    pub fn new() -> (r: Session)
        ensures
            r.status is Unauthenticated,
    {
        Session { status: SessionStatus::Unauthenticated }
    }

    pub fn decide(&self) -> (r: GateDecision)
        ensures
            r == decision_of(self.status),
    {
        decide(&self.status)
    }

    /// Hands control to the login capability; `true` when a login was started.
    pub fn start_login(&mut self) -> (started: bool)
        ensures
            started == (old(self).status is Unauthenticated),
            final(self).status == after_start_login(old(self).status),
    {
        match self.status {
            SessionStatus::Unauthenticated => {
                self.status = SessionStatus::Authenticating;
                true
            },
            _ => false,
        }
    }

    /// Records what the login capability reported; `true` when it was taken.
    pub fn finish_login(&mut self, outcome: Option<String>) -> (taken: bool)
        ensures
            taken == (old(self).status is Authenticating),
            final(self).status == after_finish_login(old(self).status, outcome),
    {
        match self.status {
            SessionStatus::Authenticating => {
                self.status = match outcome {
                    Some(token) => SessionStatus::Authenticated { token },
                    None => SessionStatus::Unauthenticated,
                };
                true
            },
            _ => false,
        }
    }

    /// Ends the session at once, whatever state it was in.
    pub fn logout(&mut self)
        ensures
            final(self).status is Unauthenticated,
    {
        self.status = SessionStatus::Unauthenticated;
    }
}

/// Protected content for an authenticated session and the login prompt
/// otherwise; starting a login lets nothing through.
pub proof fn lemma_decide(token: String, s: SessionStatus)
    ensures
        decision_of(SessionStatus::Authenticated { token }) == GateDecision::Protected,
        decision_of(SessionStatus::Unauthenticated) == GateDecision::LoginPrompt,
        decision_of(SessionStatus::Authenticating) == GateDecision::LoginPrompt,
        decision_of(after_start_login(s)) == GateDecision::Protected ==> s is Authenticated,
{
}

} // verus!
