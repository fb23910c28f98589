use fritz_logger::poll::{step, PollAction, PollEvent, PollState};

#[test]
fn login_starts_the_timer() {
    let (s, a) = step(PollState::Authenticating, PollEvent::LoggedIn("sid1".to_string()));
    assert!(matches!(s, PollState::Polling { ref sid } if sid == "sid1"));
    assert!(matches!(a, PollAction::StartTimer));
}

#[test]
fn failed_login_exits() {
    let (s, a) = step(PollState::Authenticating, PollEvent::LoginFailed);
    assert!(matches!(s, PollState::Stopped));
    assert!(matches!(a, PollAction::Exit));
}

#[test]
fn ticks_fetch_with_the_same_session() {
    let mut state = PollState::Polling { sid: "s".to_string() };
    for event in [PollEvent::Tick, PollEvent::FetchFailed, PollEvent::Tick, PollEvent::Fetched] {
        let (s, a) = step(state, event);
        match a {
            PollAction::Fetch(sid) => assert_eq!(sid, "s"),
            PollAction::Report | PollAction::Dispatch => {}
            _ => panic!("unexpected action"),
        }
        assert!(matches!(s, PollState::Polling { ref sid } if sid == "s"));
        state = s;
    }
}

#[test]
fn polling_never_logs_in_again() {
    let (s, a) = step(PollState::Polling { sid: "s".to_string() }, PollEvent::LoginFailed);
    assert!(matches!(s, PollState::Polling { .. }));
    assert!(matches!(a, PollAction::Ignore));
}
