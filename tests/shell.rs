use floaties::auth::{decide, GateDecision, Session, SessionStatus};
use floaties::request::{NetworkError, RequestState};
use floaties::route::{Route, SettingsRoute};
use floaties::shell::{switch, Main, Model, Msg, Page};

#[test]
fn gate_decisions() {
    assert_eq!(
        decide(&SessionStatus::Authenticated { token: "t".to_string() }),
        GateDecision::Protected
    );
    assert_eq!(decide(&SessionStatus::Unauthenticated), GateDecision::LoginPrompt);
    assert_eq!(decide(&SessionStatus::Authenticating), GateDecision::LoginPrompt);
}

#[test]
fn session_lifecycle() {
    let mut s = Session::new();
    assert!(matches!(s.status, SessionStatus::Unauthenticated));
    assert!(!s.finish_login(Some("early".to_string())));
    assert!(matches!(s.status, SessionStatus::Unauthenticated));
    assert!(s.start_login());
    assert!(!s.start_login());
    assert!(matches!(s.status, SessionStatus::Authenticating));
    assert!(s.finish_login(None));
    assert!(matches!(s.status, SessionStatus::Unauthenticated));
    assert!(s.start_login());
    assert!(s.finish_login(Some("tok".to_string())));
    assert_eq!(s.decide(), GateDecision::Protected);
    s.logout();
    assert_eq!(s.decide(), GateDecision::LoginPrompt);
}

#[test]
fn toggle_flips_navbar() {
    let mut m = Model::create();
    assert!(!m.navbar_active);
    assert!(m.view_nav().menu_active);
    assert!(m.update(Msg::ToggleNavbar));
    assert!(m.navbar_active);
    assert!(!m.view_nav().menu_active);
    assert!(m.update(Msg::ToggleNavbar));
    assert!(!m.navbar_active);
}

#[test]
fn nav_links() {
    let m = Model::create();
    let nav = m.view_nav();
    assert_eq!(nav.brand, Route::Home);
    assert_eq!(nav.links, vec![Route::Home, Route::Posts, Route::Authors]);
}

#[test]
fn switch_maps_routes_to_pages() {
    assert_eq!(switch(&Route::Post { id: 3 }), Page::Post { seed: 3 });
    assert_eq!(switch(&Route::Posts), Page::PostList);
    assert_eq!(switch(&Route::Author { id: 4 }), Page::Author { seed: 4 });
    assert_eq!(switch(&Route::Authors), Page::AuthorList);
    assert_eq!(switch(&Route::Home), Page::Home);
    assert_eq!(
        switch(&Route::Settings { sub: SettingsRoute::Theme }),
        Page::Settings { sub: SettingsRoute::Theme }
    );
    assert_eq!(switch(&Route::NotFound), Page::PageNotFound);
}

#[test]
fn login_then_author_page_fetches() {
    let mut m = Model::create();
    assert_eq!(m.navigate("/authors/7"), None);
    assert_eq!(m.view().main, Main::LoginPrompt);
    assert!(matches!(m.page.state, RequestState::NotFetching));
    assert!(m.start_login());
    assert_eq!(m.view().main, Main::LoginPrompt);
    let ticket = m.finish_login(Some("token".to_string())).expect("one fetch");
    assert_eq!(m.view().main, Main::Page(Page::Author { seed: 7 }));
    assert!(matches!(m.page.state, RequestState::Fetching));
    assert!(m.deliver(ticket, Ok("data".to_string())));
    assert!(matches!(&m.page.state, RequestState::Success(t) if t == "data"));
}

#[test]
fn failed_login_keeps_prompt() {
    let mut m = Model::create();
    m.navigate("/posts/1");
    m.start_login();
    assert_eq!(m.finish_login(None), None);
    assert_eq!(m.view().main, Main::LoginPrompt);
}

#[test]
fn page_without_fetch_issues_none() {
    let mut m = Model::create();
    m.start_login();
    assert_eq!(m.finish_login(Some("t".to_string())), None);
    assert_eq!(m.view().main, Main::Page(Page::Home));
    assert_eq!(m.navigate("/posts"), None);
    assert_eq!(m.view().main, Main::Page(Page::PostList));
    assert_eq!(m.navigate("/settings/nope"), None);
    assert_eq!(m.view().main, Main::Page(Page::PageNotFound));
}

#[test]
fn navigating_away_discards_late_response() {
    let mut m = Model::create();
    m.start_login();
    m.finish_login(Some("t".to_string()));
    let first = m.navigate("/posts/1").expect("fetch");
    let second = m.navigate("/posts/2").expect("fetch");
    assert_ne!(first, second);
    assert!(!m.deliver(first, Ok("stale".to_string())));
    assert!(matches!(m.page.state, RequestState::Fetching));
    m.navigate("/");
    assert!(!m.deliver(second, Ok("stale".to_string())));
    assert!(matches!(m.page.state, RequestState::NotFetching));
}

#[test]
fn logout_unmounts_at_once() {
    let mut m = Model::create();
    m.start_login();
    m.finish_login(Some("t".to_string()));
    let t = m.navigate("/authors/7").expect("fetch");
    assert_eq!(m.view().main, Main::Page(Page::Author { seed: 7 }));
    m.logout();
    assert_eq!(m.view().main, Main::LoginPrompt);
    assert!(!m.deliver(t, Ok("late".to_string())));
    assert!(matches!(m.page.state, RequestState::NotFetching));
}

#[test]
fn refetch_after_success_and_failure() {
    let mut m = Model::create();
    m.start_login();
    m.finish_login(Some("t".to_string()));
    let t = m.navigate("/posts/5").expect("fetch");
    assert!(m.deliver(t, Ok("v1".to_string())));
    let t2 = m.navigate("/posts/5").expect("fetch");
    assert!(matches!(m.page.state, RequestState::Fetching));
    let e = NetworkError { message: "timeout".to_string() };
    assert!(m.deliver(t2, Err(e)));
    assert!(matches!(m.page.state, RequestState::Failed(_)));
    assert!(!m.deliver(t2, Ok("twice".to_string())));
    assert!(matches!(m.page.state, RequestState::Failed(_)));
}

#[test]
fn refetch_keeps_page_instance() {
    let mut m = Model::create();
    assert_eq!(m.refetch(), None);
    m.start_login();
    m.finish_login(Some("t".to_string()));
    let t = m.navigate("/authors/3").expect("fetch");
    assert!(m.deliver(t, Ok("data".to_string())));
    let again = m.refetch().expect("fetch");
    assert_eq!(again, t);
    assert!(matches!(m.page.state, RequestState::Fetching));
    assert!(m.deliver(again, Ok("newer".to_string())));
    assert!(matches!(&m.page.state, RequestState::Success(s) if s == "newer"));
    m.navigate("/authors");
    assert_eq!(m.refetch(), None);
}
