use herbivore::session::{
    select_endpoint, Action, Event, Progress, SessionState, ENDPOINT_COUNT, PING_INTERVAL_SECS,
    RETRY_DELAY_SECS,
};
use herbivore::websocket_client::{NodeType, WebSocketClient};

const FIRST: &str = "wss://proxy2.wynd.network:4650";
const SECOND: &str = "wss://proxy2.wynd.network:4444";

fn client() -> WebSocketClient {
    WebSocketClient::new("user-1".to_string(), NodeType::Desktop)
}

#[test]
fn endpoints_take_turns() {
    assert_eq!(ENDPOINT_COUNT, 2);
    assert_eq!(select_endpoint(0), FIRST);
    assert_eq!(select_endpoint(1), SECOND);
    assert_eq!(select_endpoint(2), FIRST);
    assert_eq!(select_endpoint(3), SECOND);
    assert_eq!(select_endpoint(1000), FIRST);
    assert_eq!(select_endpoint(1001), SECOND);
    assert_eq!(select_endpoint(usize::MAX), SECOND);
}

#[test]
fn new_client_has_no_failures_and_no_session() {
    let c = client();
    assert_eq!(c.user_id(), "user-1");
    assert_eq!(c.node_type(), NodeType::Desktop);
    assert_eq!(c.retries(), 0);
    assert_eq!(c.state(), SessionState::Closed);
    assert_eq!(c.endpoint(), FIRST);
}

#[test]
fn start_connects_to_the_first_endpoint() {
    let mut c = client();
    assert_eq!(c.start(), Action::Connect(FIRST));
    assert_eq!(c.state(), SessionState::Connecting);
    assert_eq!(c.retries(), 0);
}

#[test]
fn a_session_runs_from_connecting_to_active() {
    let mut c = client();
    c.start();
    assert_eq!(c.step(Event::Opened), Action::Authenticate);
    assert_eq!(c.state(), SessionState::Authenticating);
    assert_eq!(c.step(Event::AuthSent), Action::Listen(60));
    assert_eq!(c.state(), SessionState::Active);
    assert_eq!(c.step(Event::TimerFired), Action::Ping);
    assert_eq!(c.state(), SessionState::Active);
    assert_eq!(c.step(Event::MessageArrived), Action::Handle);
    assert_eq!(c.state(), SessionState::Active);
    assert_eq!(c.retries(), 0);
}

#[test]
fn a_failed_open_counts_waits_and_tries_the_other_endpoint() {
    let mut c = client();
    c.start();
    assert_eq!(c.step(Event::OpenFailed), Action::Wait(1));
    assert_eq!(c.state(), SessionState::Closed);
    assert_eq!(c.retries(), 1);
    assert_eq!(c.step(Event::WaitOver), Action::Connect(SECOND));
    assert_eq!(c.state(), SessionState::Connecting);
    assert_eq!(c.step(Event::OpenFailed), Action::Wait(1));
    assert_eq!(c.retries(), 2);
    assert_eq!(c.step(Event::WaitOver), Action::Connect(FIRST));
}

#[test]
fn a_failed_authentication_ends_the_session() {
    let mut c = client();
    c.start();
    c.step(Event::Opened);
    assert_eq!(c.step(Event::AuthFailed), Action::Wait(RETRY_DELAY_SECS));
    assert_eq!(c.state(), SessionState::Closed);
    assert_eq!(c.retries(), 1);
    assert_eq!(c.endpoint(), SECOND);
}

#[test]
fn every_way_a_session_ends_counts_once() {
    for end in [
        Event::DecodeFailed,
        Event::ReceiveFailed,
        Event::SendFailed,
        Event::StreamEnded,
    ] {
        let mut c = client();
        c.start();
        c.step(Event::Opened);
        c.step(Event::AuthSent);
        assert_eq!(c.step(end), Action::Wait(1));
        assert_eq!(c.state(), SessionState::Closed);
        assert_eq!(c.retries(), 1);
        assert_eq!(c.step(Event::WaitOver), Action::Connect(SECOND));
    }
}

#[test]
fn an_event_that_is_not_waited_for_changes_nothing() {
    let mut c = client();
    assert_eq!(c.step(Event::TimerFired), Action::Ignore);
    assert_eq!(c.step(Event::OpenFailed), Action::Ignore);
    assert_eq!(c.state(), SessionState::Closed);
    assert_eq!(c.retries(), 0);
    c.start();
    assert_eq!(c.step(Event::AuthSent), Action::Ignore);
    assert_eq!(c.step(Event::StreamEnded), Action::Ignore);
    assert_eq!(c.step(Event::WaitOver), Action::Ignore);
    assert_eq!(c.state(), SessionState::Connecting);
    c.step(Event::Opened);
    assert_eq!(c.step(Event::MessageArrived), Action::Ignore);
    assert_eq!(c.state(), SessionState::Authenticating);
    c.step(Event::AuthSent);
    assert_eq!(c.step(Event::Opened), Action::Ignore);
    assert_eq!(c.step(Event::AuthFailed), Action::Ignore);
    assert_eq!(c.state(), SessionState::Active);
    assert_eq!(c.retries(), 0);
}

#[test]
fn the_count_of_failures_is_never_reset() {
    let mut c = client();
    c.start();
    for n in 1..=7usize {
        c.step(Event::Opened);
        c.step(Event::AuthSent);
        c.step(Event::TimerFired);
        c.step(Event::StreamEnded);
        assert_eq!(c.retries(), n);
        let expected = if n % 2 == 0 { FIRST } else { SECOND };
        assert_eq!(c.step(Event::WaitOver), Action::Connect(expected));
    }
}

#[test]
fn the_intervals_are_one_second_and_one_minute() {
    assert_eq!(RETRY_DELAY_SECS, 1);
    assert_eq!(PING_INTERVAL_SECS, 60);
}

#[test]
fn progress_begins_closed_without_failures() {
    let p = Progress::new();
    assert_eq!(p, Progress { state: SessionState::Closed, retries: 0 });
    assert_eq!(
        p.start(),
        (Progress { state: SessionState::Connecting, retries: 0 }, Action::Connect(FIRST))
    );
}

#[test]
fn each_state_waits_for_its_own_events() {
    let all = [
        Event::Opened,
        Event::OpenFailed,
        Event::AuthSent,
        Event::AuthFailed,
        Event::TimerFired,
        Event::MessageArrived,
        Event::DecodeFailed,
        Event::ReceiveFailed,
        Event::SendFailed,
        Event::StreamEnded,
        Event::WaitOver,
    ];
    let waited = |state: SessionState| -> Vec<Event> {
        let p = Progress { state, retries: 3 };
        all.iter().copied().filter(|e| p.awaits(*e)).collect()
    };
    assert_eq!(waited(SessionState::Connecting), vec![Event::Opened, Event::OpenFailed]);
    assert_eq!(
        waited(SessionState::Authenticating),
        vec![Event::AuthSent, Event::AuthFailed, Event::SendFailed]
    );
    assert_eq!(
        waited(SessionState::Active),
        vec![
            Event::TimerFired,
            Event::MessageArrived,
            Event::DecodeFailed,
            Event::ReceiveFailed,
            Event::SendFailed,
            Event::StreamEnded,
        ]
    );
    assert_eq!(waited(SessionState::Closed), vec![Event::WaitOver]);
}

#[test]
fn a_step_gives_the_next_progress_and_what_to_do() {
    let active = Progress { state: SessionState::Active, retries: 4 };
    assert_eq!(active.step(Event::TimerFired), (active, Action::Ping));
    assert_eq!(active.step(Event::MessageArrived), (active, Action::Handle));
    assert_eq!(active.step(Event::Opened), (active, Action::Ignore));
    assert_eq!(
        active.step(Event::StreamEnded),
        (Progress { state: SessionState::Closed, retries: 5 }, Action::Wait(1))
    );
    let closed = Progress { state: SessionState::Closed, retries: 5 };
    assert_eq!(
        closed.step(Event::WaitOver),
        (Progress { state: SessionState::Connecting, retries: 5 }, Action::Connect(SECOND))
    );
    let near = Progress { state: SessionState::Connecting, retries: usize::MAX - 1 };
    assert_eq!(
        near.step(Event::OpenFailed),
        (Progress { state: SessionState::Closed, retries: usize::MAX }, Action::Wait(1))
    );
}

#[test]
fn at_the_largest_count_only_a_failure_cannot_be_taken() {
    let active = Progress { state: SessionState::Active, retries: usize::MAX };
    assert_eq!(active.step(Event::TimerFired), (active, Action::Ping));
    assert_eq!(active.step(Event::MessageArrived), (active, Action::Handle));
    assert_eq!(active.step(Event::OpenFailed), (active, Action::Ignore));
    let closed = Progress { state: SessionState::Closed, retries: usize::MAX };
    assert_eq!(
        closed.step(Event::WaitOver),
        (Progress { state: SessionState::Connecting, retries: usize::MAX }, Action::Connect(SECOND))
    );
}

#[test]
fn the_events_that_end_a_session() {
    for e in [
        Event::OpenFailed,
        Event::AuthFailed,
        Event::DecodeFailed,
        Event::ReceiveFailed,
        Event::SendFailed,
        Event::StreamEnded,
    ] {
        assert!(e.is_failure(), "{:?}", e);
    }
    for e in [
        Event::Opened,
        Event::AuthSent,
        Event::TimerFired,
        Event::MessageArrived,
        Event::WaitOver,
    ] {
        assert!(!e.is_failure(), "{:?}", e);
    }
}
