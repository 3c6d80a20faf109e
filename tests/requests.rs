use floaties::page::{PageSlot, Ticket};
use floaties::request::{transition, FetchEvent, NetworkError, RequestState};

fn err(m: &str) -> NetworkError {
    NetworkError { message: m.to_string() }
}

#[test]
fn start_fetch_is_legal_everywhere() {
    let states: Vec<RequestState<u32>> = vec![
        RequestState::NotFetching,
        RequestState::Fetching,
        RequestState::Success(1),
        RequestState::Failed(err("x")),
    ];
    for s in states {
        let r = transition(s, FetchEvent::StartFetch);
        assert!(matches!(r, Ok(RequestState::Fetching)));
    }
}

#[test]
fn completions_from_fetching() {
    let r = transition(RequestState::Fetching, FetchEvent::Resolved(5u32));
    assert!(matches!(r, Ok(RequestState::Success(5))));
    let r = transition(RequestState::<u32>::Fetching, FetchEvent::Rejected(err("dns")));
    match r {
        Ok(RequestState::Failed(e)) => assert_eq!(e.message, "dns"),
        _ => panic!("expected Failed"),
    }
}

#[test]
fn completion_outside_fetching_is_illegal() {
    let r = transition(RequestState::NotFetching, FetchEvent::Resolved(5u32));
    match r {
        Err(e) => assert!(matches!(e.kept, RequestState::NotFetching)),
        Ok(_) => panic!("expected IllegalTransition"),
    }
    let r = transition(RequestState::Success(1u32), FetchEvent::Rejected(err("late")));
    match r {
        Err(e) => assert!(matches!(e.kept, RequestState::Success(1))),
        Ok(_) => panic!("expected IllegalTransition"),
    }
    let r = transition(RequestState::Failed(err("a")), FetchEvent::Resolved(2u32));
    match r {
        Err(e) => assert!(matches!(e.kept, RequestState::Failed(_))),
        Ok(_) => panic!("expected IllegalTransition"),
    }
}

#[test]
fn apply_ignores_illegal_events() {
    let mut s = RequestState::Success(3u32);
    assert!(!s.apply(FetchEvent::Resolved(4)));
    assert!(matches!(s, RequestState::Success(3)));
    assert!(s.apply(FetchEvent::StartFetch));
    assert!(s.is_fetching());
    assert!(s.apply(FetchEvent::Resolved(4)));
    assert!(matches!(s, RequestState::Success(4)));
}

#[test]
fn refetch_passes_through_fetching() {
    let mut s = RequestState::Success("old".to_string());
    assert!(s.apply(FetchEvent::StartFetch));
    assert!(matches!(s, RequestState::Fetching));
    assert!(s.apply(FetchEvent::Resolved("new".to_string())));
    assert!(matches!(&s, RequestState::Success(t) if t == "new"));
    assert!(s.apply(FetchEvent::StartFetch));
    assert!(s.apply(FetchEvent::Rejected(err("503"))));
    assert!(matches!(s, RequestState::Failed(_)));
}

#[test]
fn stale_response_after_abandon_is_ignored() {
    let mut slot: PageSlot<u32> = PageSlot::new();
    let t = slot.start_fetch();
    assert_eq!(t, Ticket { generation: 0 });
    slot.abandon();
    assert_eq!(slot.generation, 1);
    assert!(!slot.deliver(t, FetchEvent::Resolved(9)));
    assert!(matches!(slot.state, RequestState::NotFetching));
    let t2 = slot.start_fetch();
    assert!(!slot.deliver(t, FetchEvent::Resolved(9)));
    assert!(slot.state.is_fetching());
    assert!(slot.deliver(t2, FetchEvent::Resolved(10)));
    assert!(matches!(slot.state, RequestState::Success(10)));
}
