use vstd::prelude::*;
use crate::auth::{GateDecision, Session, SessionStatus, decision_of};
use crate::page::{PageSlot, Ticket, abandoned, delivered, started};
use crate::request::{FetchEvent, NetworkError, RequestState};
use crate::route::{Route, SettingsRoute, resolve, route_of};

verus! {

/// Intents of the application shell.
pub enum Msg {
    ToggleNavbar,
}

/// The page component that a route mounts.
#[derive(PartialEq, Eq, Structural, Clone, Copy, Debug)]
pub enum Page {
    Post { seed: u64 },
    PostList,
    Author { seed: u64 },
    AuthorList,
    Home,
    Settings { sub: SettingsRoute },
    PageNotFound,
}

/// What the routed area shows.
#[derive(PartialEq, Eq, Structural, Clone, Copy, Debug)]
pub enum Main {
    LoginPrompt,
    Page(Page),
}

/// The navigation chrome: the brand links home, and the menu links to the
/// home page, the post list and the author list. `menu_active` carries the
/// menu's `is-active` class, which is set while the navbar is not toggled.
pub struct NavBar {
    pub brand: Route,
    pub menu_active: bool,
    pub links: Vec<Route>,
}

/// One render pass: chrome first, then the content behind the authentication check.
pub struct Rendered {
    pub nav: NavBar,
    pub main: Main,
}

pub open spec fn page_of(r: Route) -> Page {
    match r {
        Route::Post { id } => Page::Post { seed: id },
        Route::Posts => Page::PostList,
        Route::Author { id } => Page::Author { seed: id },
        Route::Authors => Page::AuthorList,
        Route::Home => Page::Home,
        Route::Settings { sub } => Page::Settings { sub },
        Route::NotFound => Page::PageNotFound,
    }
}

/// The route of a path given as text.
pub open spec fn route_at(path: Seq<char>) -> Route {
    route_of(vstd::utf8::encode_utf8(path))
}

/// The pages that fetch their content when mounted.
pub open spec fn fetches_on_entry(r: Route) -> bool {
    (r is Post) || (r is Author)
}

/// What the authentication check lets through: the route of `path`, only for an
/// authenticated session.
pub open spec fn mounted(status: SessionStatus, path: Seq<char>) -> Option<Route> {
    if decision_of(status) == GateDecision::Protected {
        Some(route_at(path))
    } else {
        None
    }
}

pub open spec fn main_of(status: SessionStatus, path: Seq<char>) -> Main {
    match mounted(status, path) {
        Some(r) => Main::Page(page_of(r)),
        None => Main::LoginPrompt,
    }
}

/// The application shell: navigation chrome, the authentication check and the
/// routed page with its request.
pub struct Model {
    pub navbar_active: bool,
    pub user_language: Option<String>,
    pub session: Session,
    pub path: String,
    pub page: PageSlot<String>,
}

/// The page slot after mounting `path` under `status`: a new page instance,
/// fetching when the authentication check lets through a page that fetches on entry.
pub open spec fn remounted(
    slot: PageSlot<String>,
    status: SessionStatus,
    path: Seq<char>,
) -> PageSlot<String> {
    match mounted(status, path) {
        Some(r) => if fetches_on_entry(r) {
            started(abandoned(slot))
        } else {
            abandoned(slot)
        },
        None => abandoned(slot),
    }
}

/// The ticket that a remount hands out, when it issues a fetch.
pub open spec fn remount_ticket(
    slot: PageSlot<String>,
    status: SessionStatus,
    path: Seq<char>,
) -> Option<Ticket> {
    match mounted(status, path) {
        Some(r) => if fetches_on_entry(r) {
            Some(Ticket { generation: (slot.generation + 1) as u64 })
        } else {
            None
        },
        None => None,
    }
}

/// Maps a route to the page component it mounts.
pub fn switch(routes: &Route) -> (r: Page)
    ensures
        r == page_of(*routes),
{
    match *routes {
        Route::Post { id } => Page::Post { seed: id },
        Route::Posts => Page::PostList,
        Route::Author { id } => Page::Author { seed: id },
        Route::Authors => Page::AuthorList,
        Route::Home => Page::Home,
        Route::Settings { sub } => Page::Settings { sub },
        Route::NotFound => Page::PageNotFound,
    }
}

impl Model {
    /// Protected content is never mounted, nor its data fetched, without an
    /// authenticated session.
    pub open spec fn wf(&self) -> bool {
        decision_of(self.session.status) == GateDecision::LoginPrompt
            ==> self.page.state is NotFetching
    }

    /// A closed navbar, an unauthenticated session, and the home path.
    pub fn create() -> (r: Model)
        ensures
            r.wf(),
            !r.navbar_active,
            r.user_language is None,
            r.session.status is Unauthenticated,
            r.path@ == seq!['/'],
            r.page.generation == 0,
            r.page.state is NotFetching,
    {
        let path = "/".to_owned();
        proof {
            reveal_strlit("/");
        }
        Model {
            navbar_active: false,
            user_language: None,
            session: Session::new(),
            path,
            page: PageSlot::new(),
        }
    }

    /// Flips the navbar; the shell always re-renders.
    pub fn update(&mut self, msg: Msg) -> (rerender: bool)
        ensures
            rerender,
            final(self).navbar_active == !old(self).navbar_active,
            final(self).user_language == old(self).user_language,
            final(self).session == old(self).session,
            final(self).path == old(self).path,
            final(self).page == old(self).page,
    {
        match msg {
            Msg::ToggleNavbar => {
                self.navbar_active = !self.navbar_active;
                true
            },
        }
    }

    pub fn view_nav(&self) -> (r: NavBar)
        ensures
            r.brand == Route::Home,
            r.menu_active == !self.navbar_active,
            r.links@ == seq![Route::Home, Route::Posts, Route::Authors],
    {
        let links = vec![Route::Home, Route::Posts, Route::Authors];
        assert(links@ =~= seq![Route::Home, Route::Posts, Route::Authors]);
        NavBar { brand: Route::Home, menu_active: !self.navbar_active, links }
    }

    /// Renders the chrome unconditionally, then the content behind the authentication check. The path
    /// is resolved only when the authentication check yields `Protected`.
    pub fn view(&self) -> (r: Rendered)
        ensures
            r.nav.menu_active == !self.navbar_active,
            r.main == main_of(self.session.status, self.path@),
    {
        let nav = self.view_nav();
        let main = match self.session.decide() {
            GateDecision::Protected => Main::Page(switch(&resolve(self.path.as_str()))),
            GateDecision::LoginPrompt => Main::LoginPrompt,
        };
        Rendered { nav, main }
    }

    /// Mounts a new page instance for the current path and session: the old
    /// instance's requests become stale.
    fn remount(&mut self) -> (ticket: Option<Ticket>)
        requires
            old(self).page.generation < u64::MAX,
        ensures
            final(self).page == remounted(old(self).page, old(self).session.status, old(self).path@),
            ticket == remount_ticket(old(self).page, old(self).session.status, old(self).path@),
            final(self).navbar_active == old(self).navbar_active,
            final(self).user_language == old(self).user_language,
            final(self).session == old(self).session,
            final(self).path == old(self).path,
            final(self).wf(),
    {
        self.page.abandon();
        match self.session.decide() {
            GateDecision::Protected => {
                let route = resolve(self.path.as_str());
                match route {
                    Route::Post { .. } | Route::Author { .. } => Some(self.page.start_fetch()),
                    _ => None,
                }
            },
            GateDecision::LoginPrompt => None,
        }
    }

    /// Navigates to `path`. Returns the ticket of the fetch that the new page
    /// issued, if it issued one.
    pub fn navigate(&mut self, path: &str) -> (ticket: Option<Ticket>)
        requires
            old(self).page.generation < u64::MAX,
        ensures
            final(self).path@ == path@,
            final(self).page == remounted(old(self).page, old(self).session.status, path@),
            ticket == remount_ticket(old(self).page, old(self).session.status, path@),
            final(self).navbar_active == old(self).navbar_active,
            final(self).session == old(self).session,
            final(self).wf(),
    {
        self.path = path.to_owned();
        self.remount()
    }

    /// Starts a login; what is shown does not change until it completes.
    pub fn start_login(&mut self) -> (started: bool)
        requires
            old(self).wf(),
        ensures
            started == (old(self).session.status is Unauthenticated),
            final(self).session.status == crate::auth::after_start_login(old(self).session.status),
            final(self).path == old(self).path,
            final(self).page == old(self).page,
            final(self).navbar_active == old(self).navbar_active,
            final(self).wf(),
    {
        self.session.start_login()
    }

    /// Takes the login capability's outcome: a token authenticates and mounts
    /// the current path; its absence reverts to `Unauthenticated`. An outcome
    /// that arrives while no login is under way is ignored.
    pub fn finish_login(&mut self, outcome: Option<String>) -> (ticket: Option<Ticket>)
        requires
            old(self).wf(),
            old(self).page.generation < u64::MAX,
        ensures
            final(self).session.status == crate::auth::after_finish_login(
                old(self).session.status,
                outcome,
            ),
            (old(self).session.status is Authenticating && outcome is Some) ==> {
                &&& final(self).page == remounted(
                    old(self).page,
                    final(self).session.status,
                    old(self).path@,
                )
                &&& ticket == remount_ticket(
                    old(self).page,
                    final(self).session.status,
                    old(self).path@,
                )
            },
            !(old(self).session.status is Authenticating && outcome is Some) ==> {
                &&& final(self).page == old(self).page
                &&& ticket is None
            },
            final(self).path == old(self).path,
            final(self).navbar_active == old(self).navbar_active,
            final(self).wf(),
    {
        let authenticates = outcome.is_some();
        let taken = self.session.finish_login(outcome);
        if taken && authenticates {
            self.remount()
        } else {
            None
        }
    }

    /// Ends the session and unmounts the protected page at once; whatever it
    /// had in flight becomes stale.
    pub fn logout(&mut self)
        requires
            old(self).page.generation < u64::MAX,
        ensures
            final(self).session.status is Unauthenticated,
            final(self).page == abandoned(old(self).page),
            final(self).path == old(self).path,
            final(self).navbar_active == old(self).navbar_active,
            final(self).wf(),
    {
        self.session.logout();
        self.page.abandon();
    }

    /// Issues the current page's fetch again, as a retry does. The page keeps
    /// its instance, and its state passes through `Fetching`.
    pub fn refetch(&mut self) -> (ticket: Option<Ticket>)
        requires
            old(self).wf(),
        ensures
            (mounted(old(self).session.status, old(self).path@) matches Some(r)
                && fetches_on_entry(r)) ==> {
                &&& final(self).page == started(old(self).page)
                &&& ticket == Some(Ticket { generation: old(self).page.generation })
            },
            !(mounted(old(self).session.status, old(self).path@) matches Some(r)
                && fetches_on_entry(r)) ==> {
                &&& final(self).page == old(self).page
                &&& ticket is None
            },
            final(self).session == old(self).session,
            final(self).path == old(self).path,
            final(self).navbar_active == old(self).navbar_active,
            final(self).wf(),
    {
        match self.session.decide() {
            GateDecision::Protected => match resolve(self.path.as_str()) {
                Route::Post { .. } | Route::Author { .. } => Some(self.page.start_fetch()),
                _ => None,
            },
            GateDecision::LoginPrompt => None,
        }
    }

    /// Hands a completed fetch to the page; a completion of an abandoned page
    /// instance changes nothing. `true` when it was applied.
    pub fn deliver(&mut self, ticket: Ticket, outcome: Result<String, NetworkError>) -> (applied: bool)
        requires
            old(self).wf(),
        ensures
            final(self).page == delivered(old(self).page, ticket, event_of(outcome)),
            applied == (ticket.generation == old(self).page.generation
                && old(self).page.state is Fetching),
            final(self).session == old(self).session,
            final(self).path == old(self).path,
            final(self).navbar_active == old(self).navbar_active,
            final(self).wf(),
    {
        let event = match outcome {
            Ok(text) => FetchEvent::Resolved(text),
            Err(e) => FetchEvent::Rejected(e),
        };
        self.page.deliver(ticket, event)
    }
}

/// The completion event of a fetch outcome.
pub open spec fn event_of(outcome: Result<String, NetworkError>) -> FetchEvent<String> {
    match outcome {
        Ok(text) => FetchEvent::Resolved(text),
        Err(e) => FetchEvent::Rejected(e),
    }
}

/// Navigating away, or logging out, after a page issued a fetch makes the
/// fetch's completion stale: delivering it leaves the new page as it is.
pub proof fn lemma_abandoned_fetch_ignored(
    slot: PageSlot<String>,
    status: SessionStatus,
    path: Seq<char>,
    outcome: Result<String, NetworkError>,
)
    requires
        slot.generation < u64::MAX,
    ensures
        ({
            let ticket = Ticket { generation: slot.generation };
            let after = remounted(slot, status, path);
            delivered(after, ticket, event_of(outcome)) == after
        }),
        ({
            let ticket = Ticket { generation: slot.generation };
            let after = abandoned(slot);
            delivered(after, ticket, event_of(outcome)) == after
        }),
{
}

/// The router is never consulted without an authenticated session: whatever
/// the path, an unauthenticated or authenticating session shows the login
/// prompt.
pub proof fn lemma_auth_precedes_router(status: SessionStatus, path: Seq<char>)
    ensures
        decision_of(status) == GateDecision::LoginPrompt ==> mounted(status, path) is None
            && main_of(status, path) == Main::LoginPrompt,
        decision_of(status) == GateDecision::Protected ==> main_of(status, path) == Main::Page(
            page_of(route_at(path)),
        ),
{
}

} // verus!
