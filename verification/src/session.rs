//! The course of a session: the endpoints, the states, the events that a
//! state waits for, and what there is to do next.

use vstd::prelude::*;

verus! {

/// The endpoints of the coordination server, in the order in which they are tried.
pub open spec fn endpoints() -> Seq<Seq<char>> {
    seq!["wss://proxy2.wynd.network:4650"@, "wss://proxy2.wynd.network:4444"@]
}

/// The endpoint that is tried after `retries` failures.
pub open spec fn endpoint_for(retries: nat) -> Seq<char> {
    endpoints()[(retries % endpoints().len()) as int]
}

/// The number of endpoints.
pub const ENDPOINT_COUNT: usize = 2;

/// The endpoint that is tried after `retries` failures.
pub fn select_endpoint(retries: usize) -> (url: &'static str)
    ensures
        url@ == endpoints()[retries as int % endpoints().len() as int],
        url@ == endpoint_for(retries as nat),
{
    if retries % ENDPOINT_COUNT == 0 {
        "wss://proxy2.wynd.network:4650"
    } else {
        "wss://proxy2.wynd.network:4444"
    }
}

/// Where a session stands.
#[derive(Debug, Clone, Copy, PartialEq, Eq, Structural)]
pub enum SessionState {
    /// The socket is being opened.
    Connecting,
    /// The socket is open and the credentials are being sent.
    Authenticating,
    /// The session waits for the timer and for messages.
    Active,
    /// There is no session: none was started yet, or the last one is over.
    Closed,
}

/// What happened outside, as far as the course of a session depends on it.
#[derive(Debug, Clone, Copy, PartialEq, Eq, Structural)]
pub enum Event {
    /// The socket opened.
    Opened,
    /// The socket could not be opened.
    OpenFailed,
    /// The credentials were sent.
    AuthSent,
    /// The time could not be told, or the credentials could not be sent.
    AuthFailed,
    /// The liveness timer fired.
    TimerFired,
    /// A message arrived and was decoded.
    MessageArrived,
    /// A frame arrived whose text is no message of the protocol. The session
    /// does not go on after such a frame.
    DecodeFailed,
    /// Receiving failed.
    ReceiveFailed,
    /// Sending failed.
    SendFailed,
    /// The server closed the stream.
    StreamEnded,
    /// The wait before the next attempt is over.
    WaitOver,
}

/// What the client does next.
#[derive(Debug, Clone, Copy, PartialEq, Eq)]
pub enum Action {
    /// Open a socket to this endpoint.
    Connect(&'static str),
    /// Send the credentials.
    Authenticate,
    /// Start a timer that fires every this many seconds, and wait for it to
    /// fire or for a message to arrive.
    Listen(u64),
    /// Send a liveness message, then wait again for the timer or a message.
    Ping,
    /// Handle the message that arrived, then wait again for the timer or a
    /// message.
    Handle,
    /// Wait this many seconds.
    Wait(u64),
    /// Nothing: the event was none that the session waited for.
    Ignore,
}

pub enum ActionView {
    Connect(Seq<char>),
    Authenticate,
    Listen(u64),
    Ping,
    Handle,
    Wait(u64),
    Ignore,
}

impl View for Action {
    type V = ActionView;

    open spec fn view(&self) -> ActionView {
        match self {
            Action::Connect(url) => ActionView::Connect(url@),
            Action::Authenticate => ActionView::Authenticate,
            Action::Listen(seconds) => ActionView::Listen(*seconds),
            Action::Ping => ActionView::Ping,
            Action::Handle => ActionView::Handle,
            Action::Wait(seconds) => ActionView::Wait(*seconds),
            Action::Ignore => ActionView::Ignore,
        }
    }
}

/// The seconds between the end of a session, or a failed attempt, and the next attempt.
pub const RETRY_DELAY_SECS: u64 = 1;

/// The seconds between two liveness messages.
pub const PING_INTERVAL_SECS: u64 = 60;

/// An event that ends the session or the attempt.
pub open spec fn is_failure(event: Event) -> bool {
    event is OpenFailed || event is AuthFailed || event is DecodeFailed || event is ReceiveFailed
        || event is SendFailed || event is StreamEnded
}

/// The events that a session waits for in each state.
pub open spec fn awaits(state: SessionState, event: Event) -> bool {
    match state {
        SessionState::Connecting => event is Opened || event is OpenFailed,
        SessionState::Authenticating => event is AuthSent || event is AuthFailed || event
            is SendFailed,
        SessionState::Active => event is TimerFired || event is MessageArrived || event
            is DecodeFailed || event is ReceiveFailed || event is SendFailed || event
            is StreamEnded,
        SessionState::Closed => event is WaitOver,
    }
}

/// How far the client has come: where its session stands, and how often an
/// attempt or a session has failed.
#[derive(Debug, Clone, Copy, PartialEq, Eq)]
pub struct Progress {
    pub state: SessionState,
    pub retries: usize,
}

pub struct ProgressView {
    pub state: SessionState,
    pub retries: nat,
}

impl View for Progress {
    type V = ProgressView;

    open spec fn view(&self) -> ProgressView {
        ProgressView { state: self.state, retries: self.retries as nat }
    }
}

impl ProgressView {
    /// The progress after an event. An event that the state does not wait for
    /// changes nothing. A failure closes the session and counts; any other
    /// event moves the session on.
    pub open spec fn after(self, event: Event) -> ProgressView {
        if !awaits(self.state, event) {
            self
        } else if is_failure(event) {
            ProgressView { state: SessionState::Closed, retries: self.retries + 1 }
        } else {
            ProgressView {
                state: match event {
                    Event::Opened => SessionState::Authenticating,
                    Event::WaitOver => SessionState::Connecting,
                    _ => SessionState::Active,
                },
                retries: self.retries,
            }
        }
    }

    /// What there is to do on an event: after a failure, wait a second; after
    /// the wait, connect to the endpoint that the count of failures selects;
    /// once authenticated, listen, with a liveness timer of a minute.
    pub open spec fn action_on(self, event: Event) -> ActionView {
        if !awaits(self.state, event) {
            ActionView::Ignore
        } else if is_failure(event) {
            ActionView::Wait(RETRY_DELAY_SECS)
        } else {
            match event {
                Event::Opened => ActionView::Authenticate,
                Event::AuthSent => ActionView::Listen(PING_INTERVAL_SECS),
                Event::TimerFired => ActionView::Ping,
                Event::MessageArrived => ActionView::Handle,
                _ => ActionView::Connect(endpoint_for(self.retries)),
            }
        }
    }

    /// The progress after a run of events.
    pub open spec fn after_all(self, events: Seq<Event>) -> ProgressView
        decreases events.len(),
    {
        if events.len() == 0 {
            self
        } else {
            self.after_all(events.drop_last()).after(events.last())
        }
    }

    /// The number of failures in a run of events.
    pub open spec fn failures_in(self, events: Seq<Event>) -> nat
        decreases events.len(),
    {
        if events.len() == 0 {
            0
        } else {
            let before = self.after_all(events.drop_last());
            let one: nat = if awaits(before.state, events.last()) && is_failure(events.last()) {
                1
            } else {
                0
            };
            self.failures_in(events.drop_last()) + one
        }
    }
}

impl Event {
    /// Whether the event ends the session or the attempt.
    pub fn is_failure(self) -> (failure: bool)
        ensures
            failure == is_failure(self),
    {
        matches!(
            self,
            Event::OpenFailed | Event::AuthFailed | Event::DecodeFailed | Event::ReceiveFailed
                | Event::SendFailed | Event::StreamEnded
        )
    }
}

impl Progress {
    /// No session yet, and no failure.
    pub fn new() -> (progress: Progress)
        ensures
            progress@ == (ProgressView { state: SessionState::Closed, retries: 0 }),
    {
        Progress { state: SessionState::Closed, retries: 0 }
    }

    /// The first attempt, or a new one: connect to the endpoint that the
    /// failures so far select.
    pub fn start(self) -> (next: (Progress, Action))
        ensures
            next.0@ == (ProgressView { state: SessionState::Connecting, retries: self@.retries }),
            next.1@ == ActionView::Connect(endpoint_for(self@.retries)),
    {
        (
            Progress { state: SessionState::Connecting, retries: self.retries },
            Action::Connect(select_endpoint(self.retries)),
        )
    }

    /// Whether the state waits for the event.
    pub fn awaits(self, event: Event) -> (waited: bool)
        ensures
            waited == awaits(self.state, event),
    {
        match self.state {
            SessionState::Connecting => matches!(event, Event::Opened | Event::OpenFailed),
            SessionState::Authenticating => matches!(
                event,
                Event::AuthSent | Event::AuthFailed | Event::SendFailed
            ),
            SessionState::Active => matches!(
                event,
                Event::TimerFired | Event::MessageArrived | Event::DecodeFailed
                    | Event::ReceiveFailed | Event::SendFailed | Event::StreamEnded
            ),
            SessionState::Closed => matches!(event, Event::WaitOver),
        }
    }

    /// Takes an event, and gives the progress after it and what to do next.
    /// Where the event is a failure that counts, the count must not stand at
    /// the largest `usize`.
    pub fn step(self, event: Event) -> (next: (Progress, Action))
        requires
            awaits(self.state, event) && is_failure(event) ==> self.retries < usize::MAX,
        ensures
            next.0@ == self@.after(event),
            next.1@ == self@.action_on(event),
    {
        if !self.awaits(event) {
            return (self, Action::Ignore);
        }
        match event {
            Event::Opened => (
                Progress { state: SessionState::Authenticating, retries: self.retries },
                Action::Authenticate,
            ),
            Event::AuthSent => (
                Progress { state: SessionState::Active, retries: self.retries },
                Action::Listen(PING_INTERVAL_SECS),
            ),
            Event::TimerFired => (self, Action::Ping),
            Event::MessageArrived => (self, Action::Handle),
            Event::WaitOver => (
                Progress { state: SessionState::Connecting, retries: self.retries },
                Action::Connect(select_endpoint(self.retries)),
            ),
            _ => (
                Progress { state: SessionState::Closed, retries: self.retries + 1 },
                Action::Wait(RETRY_DELAY_SECS),
            ),
        }
    }
}

/// There are two endpoints.
pub proof fn lemma_endpoint_count()
    ensures
        endpoints().len() == ENDPOINT_COUNT,
{
}

/// After any run of events, the count of failures of a client that started
/// without failures is the number of failures in the run, and the endpoint
/// that it connects to next is the one that this number selects: the endpoints
/// take turns, failure by failure.
pub proof fn lemma_endpoints_rotate(progress: ProgressView, events: Seq<Event>)
    requires
        progress.retries == 0,
    ensures
        progress.after_all(events).retries == progress.failures_in(events),
        endpoint_for(progress.after_all(events).retries) == endpoints()[(progress.failures_in(
            events,
        ) % endpoints().len()) as int],
    decreases events.len(),
{
    if events.len() > 0 {
        lemma_endpoints_rotate(progress, events.drop_last());
    }
}

/// Whenever the client connects, it connects to the endpoint that its count of
/// failures selects.
pub proof fn lemma_connects_where_selected(progress: ProgressView, event: Event)
    ensures
        progress.action_on(event) matches ActionView::Connect(url) ==> url == endpoint_for(
            progress.retries,
        ),
{
}

/// No run of events makes the count of failures smaller: the count is never
/// reset.
pub proof fn lemma_count_is_never_reset(progress: ProgressView, events: Seq<Event>)
    ensures
        progress.after_all(events).retries >= progress.retries,
    decreases events.len(),
{
    if events.len() > 0 {
        lemma_count_is_never_reset(progress, events.drop_last());
    }
}

/// The client never comes to rest: in every state it waits for some event, and
/// every event that it waits for gives it something to do.
pub proof fn lemma_never_at_rest(progress: ProgressView, event: Event)
    ensures
        exists|e: Event| awaits(progress.state, e),
        awaits(progress.state, event) ==> !(progress.action_on(event) is Ignore),
{
    match progress.state {
        SessionState::Connecting => {
            assert(awaits(progress.state, Event::Opened));
        },
        SessionState::Authenticating => {
            assert(awaits(progress.state, Event::AuthSent));
        },
        SessionState::Active => {
            assert(awaits(progress.state, Event::TimerFired));
        },
        SessionState::Closed => {
            assert(awaits(progress.state, Event::WaitOver));
        },
    }
}

} // verus!
