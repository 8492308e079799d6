//! The node client: who it is, where its session stands, and what it sends to
//! the server.

use crate::message::{
    AuthResult, AuthResultView, PingMessage, PingMessageView, ResponseEnvelope,
    ResponseEnvelopeView, ResponseResult, ResponseResultView, WebSocketMessageView,
};
pub use crate::message::WebSocketMessage;
pub use crate::node_type::{ConfigError, NodeType};
use crate::outside::{clock_now, is_uuid_text, new_uuid, since_unix_epoch, whole_seconds};
use crate::relay::{
    plan_request, planned_request, process_response, reported, HttpResponse, HttpResponseView,
    RelayRequest, RelayRequestView,
};
use crate::session::{awaits, endpoint_for, is_failure, ActionView, Progress, ProgressView};
pub use crate::session::{Action, Event, SessionState};
use crate::text::str_eq;
use vstd::prelude::*;

verus! {

/// The node, as the contracts see it.
pub struct ClientView {
    pub user_id: Seq<char>,
    pub node_type: NodeType,
    pub progress: ProgressView,
}

impl ClientView {
    /// The credentials that the client sends under the message identifier `id`,
    /// with the session identifier `browser_id`, at the time `timestamp`.
    pub open spec fn auth_message(
        self,
        id: Seq<char>,
        browser_id: Seq<char>,
        timestamp: u64,
    ) -> ResponseEnvelopeView {
        ResponseEnvelopeView {
            id,
            origin_action: "AUTH"@,
            result: ResponseResultView::Auth(
                AuthResultView {
                    browser_id,
                    user_id: self.user_id,
                    user_agent: "Mozilla/5.0"@,
                    timestamp,
                    device_type: self.node_type.spec_device_type(),
                    version: self.node_type.spec_version(),
                    extension_id: self.node_type.spec_extension_id(),
                },
            ),
        }
    }

    /// The liveness message that the client sends under the identifier `id`.
    pub open spec fn ping_message(self, id: Seq<char>) -> PingMessageView {
        PingMessageView { id, action: "PING"@, version: self.node_type.spec_version() }
    }
}

/// What the client does with a message of the server.
#[derive(Debug, PartialEq, Eq)]
pub enum Reaction {
    /// Send this answer.
    Respond(ResponseEnvelope),
    /// Make this request, and answer the message `id` with what comes back.
    Relay { id: String, request: RelayRequest },
    /// Nothing is done and nothing is sent.
    Nothing,
}

pub enum ReactionView {
    Respond(ResponseEnvelopeView),
    Relay { id: Seq<char>, request: RelayRequestView },
    Nothing,
}

impl View for Reaction {
    type V = ReactionView;

    open spec fn view(&self) -> ReactionView {
        match self {
            Reaction::Respond(e) => ReactionView::Respond(e@),
            Reaction::Relay { id, request } => ReactionView::Relay { id: id@, request: request@ },
            Reaction::Nothing => ReactionView::Nothing,
        }
    }
}

/// What is done with a message: an `HTTP_REQUEST` is relayed where its data
/// describe a request; a `PONG` is answered under the same identifier with an
/// empty result; nothing is done with anything else.
pub open spec fn reaction_to(message: WebSocketMessageView) -> ReactionView {
    if message.action == "HTTP_REQUEST"@ {
        match planned_request(message.data) {
            Some(request) => ReactionView::Relay { id: message.id, request },
            None => ReactionView::Nothing,
        }
    } else if message.action == "PONG"@ {
        ReactionView::Respond(
            ResponseEnvelopeView {
                id: message.id,
                origin_action: "PONG"@,
                result: ResponseResultView::Empty,
            },
        )
    } else {
        ReactionView::Nothing
    }
}

/// The answer to the `HTTP_REQUEST` message `id` when the request ended with
/// `response`: none when the request failed.
pub open spec fn relay_answer(id: Seq<char>, response: Option<HttpResponseView>) -> Option<
    ResponseEnvelopeView,
> {
    match response {
        Some(r) => Some(
            ResponseEnvelopeView {
                id,
                origin_action: "HTTP_REQUEST"@,
                result: ResponseResultView::Relay(reported(r)),
            },
        ),
        None => None,
    }
}

/// The Unix time in seconds as the clock tells it, or nothing where the clock
/// stands before the Unix epoch.
fn unix_time() -> Option<u64> {
    let now = clock_now();
    match since_unix_epoch(&now) {
        Ok(elapsed) => Some(whole_seconds(&elapsed)),
        Err(_) => None,
    }
}

/// The node client.
#[derive(Debug, PartialEq, Eq)]
pub struct WebSocketClient {
    user_id: String,
    node_type: NodeType,
    progress: Progress,
}

impl View for WebSocketClient {
    type V = ClientView;

    closed spec fn view(&self) -> ClientView {
        ClientView {
            user_id: self.user_id@,
            node_type: self.node_type,
            progress: self.progress@,
        }
    }
}

impl WebSocketClient {
    /// A client that has not failed yet and has no session.
    pub fn new(user_id: String, node_type: NodeType) -> (client: Self)
        ensures
            client@ == (ClientView {
                user_id: user_id@,
                node_type,
                progress: ProgressView { state: SessionState::Closed, retries: 0 },
            }),
    {
        Self { user_id, node_type, progress: Progress::new() }
    }

    /// The identity that the client authenticates with.
    pub fn user_id(&self) -> (id: &String)
        ensures
            id@ == self@.user_id,
    {
        &self.user_id
    }

    /// The node type that the client declares.
    pub fn node_type(&self) -> (t: NodeType)
        ensures
            t == self@.node_type,
    {
        self.node_type
    }

    /// The number of failures so far.
    pub fn retries(&self) -> (n: usize)
        ensures
            n == self@.progress.retries,
    {
        self.progress.retries
    }

    /// Where the session stands.
    pub fn state(&self) -> (s: SessionState)
        ensures
            s == self@.progress.state,
    {
        self.progress.state
    }

    /// The endpoint that the client connects to next.
    pub fn endpoint(&self) -> (url: &'static str)
        ensures
            url@ == endpoint_for(self@.progress.retries),
    {
        crate::session::select_endpoint(self.progress.retries)
    }

    /// Starts the client: it connects to the endpoint that the failures so far
    /// select. Who the client is does not change.
    pub fn start(&mut self) -> (action: Action)
        ensures
            final(self)@ == (ClientView {
                progress: ProgressView {
                    state: SessionState::Connecting,
                    retries: old(self)@.progress.retries,
                },
                ..old(self)@
            }),
            action@ == ActionView::Connect(endpoint_for(old(self)@.progress.retries)),
    {
        let (progress, action) = self.progress.start();
        self.progress = progress;
        action
    }

    /// Takes an event and says what to do next. Who the client is does not
    /// change. Where the event is a failure that counts, the count must not
    /// stand at the largest `usize`.
    pub fn step(&mut self, event: Event) -> (action: Action)
        requires
            awaits(old(self)@.progress.state, event) && is_failure(event) ==> old(
                self,
            )@.progress.retries < usize::MAX,
        ensures
            final(self)@ == (ClientView {
                progress: old(self)@.progress.after(event),
                ..old(self)@
            }),
            action@ == old(self)@.progress.action_on(event),
    {
        let (progress, action) = self.progress.step(event);
        self.progress = progress;
        action
    }

    /// The credentials of the client, under the message identifier `id`, with
    /// the session identifier `browser_id`, at the time `timestamp`.
    pub fn auth_message(&self, id: String, browser_id: String, timestamp: u64) -> (message:
        ResponseEnvelope)
        ensures
            message@ == self@.auth_message(id@, browser_id@, timestamp),
    {
        let extension_id = match self.node_type.extension_id() {
            Some(e) => Some(e.to_owned()),
            None => None,
        };
        ResponseEnvelope::new(
            id,
            "AUTH".to_owned(),
            ResponseResult::Auth(
                AuthResult {
                    browser_id,
                    user_id: self.user_id.clone(),
                    user_agent: "Mozilla/5.0".to_owned(),
                    timestamp,
                    device_type: self.node_type.device_type().to_owned(),
                    version: self.node_type.version().to_owned(),
                    extension_id,
                },
            ),
        )
    }

    /// The credentials to send when the time is `timestamp` (the Unix time in
    /// seconds), with fresh random identifiers, or nothing where the time could
    /// not be told.
    pub fn authenticate_at(&self, timestamp: Option<u64>) -> (message: Option<ResponseEnvelope>)
        ensures
            match message {
                Some(m) => {
                    &&& timestamp is Some
                    &&& is_uuid_text(m@.id)
                    &&& m@.result matches ResponseResultView::Auth(a)
                    &&& is_uuid_text(a.browser_id)
                    &&& m@ == self@.auth_message(m@.id, a.browser_id, timestamp->0)
                },
                None => timestamp is None,
            },
    {
        match timestamp {
            Some(t) => {
                let id = new_uuid();
                let browser_id = new_uuid();
                Some(self.auth_message(id, browser_id, t))
            },
            None => None,
        }
    }

    /// The credentials to send when the socket has opened: with fresh random
    /// identifiers and the time that the clock tells, or nothing where the
    /// clock stands before the Unix epoch.
    pub fn authenticate(&self) -> (message: Option<ResponseEnvelope>)
        ensures
            message matches Some(m) ==> {
                &&& is_uuid_text(m@.id)
                &&& m@.result matches ResponseResultView::Auth(a)
                &&& is_uuid_text(a.browser_id)
                &&& m@ == self@.auth_message(m@.id, a.browser_id, a.timestamp)
            },
    {
        self.authenticate_at(unix_time())
    }

    /// The liveness message of the client under the identifier `id`.
    pub fn ping_message(&self, id: String) -> (message: PingMessage)
        ensures
            message@ == self@.ping_message(id@),
    {
        PingMessage { id, action: "PING".to_owned(), version: self.node_type.version().to_owned() }
    }

    /// The liveness message to send when the timer fires, under a fresh random
    /// identifier.
    pub fn send_ping(&self) -> (message: PingMessage)
        ensures
            is_uuid_text(message@.id),
            message@ == self@.ping_message(message@.id),
    {
        self.ping_message(new_uuid())
    }

    /// Decides what is done with a message of the server.
    pub fn handle_message(&self, message: WebSocketMessage) -> (reaction: Reaction)
        ensures
            reaction@ == reaction_to(message@),
    {
        if str_eq(message.action.as_str(), "HTTP_REQUEST") {
            match plan_request(&message.data) {
                Some(request) => Reaction::Relay { id: message.id, request },
                None => Reaction::Nothing,
            }
        } else if str_eq(message.action.as_str(), "PONG") {
            Reaction::Respond(ResponseEnvelope::new(message.id, message.action, ResponseResult::Empty))
        } else {
            Reaction::Nothing
        }
    }

    /// The answer to the `HTTP_REQUEST` message `id` when the request ended
    /// with `response`: nothing is sent when the request failed.
    pub fn relay_response(&self, id: String, response: Option<HttpResponse>) -> (message: Option<
        ResponseEnvelope,
    >)
        ensures
            match message {
                Some(m) => relay_answer(
                    id@,
                    match response {
                        Some(r) => Some(r@),
                        None => None,
                    },
                ) == Some(m@),
                None => response is None,
            },
    {
        match response {
            Some(r) => {
                let result = process_response(&r);
                Some(
                    ResponseEnvelope::new(
                        id,
                        "HTTP_REQUEST".to_owned(),
                        ResponseResult::Relay(result),
                    ),
                )
            },
            None => None,
        }
    }
}

/// A `PONG` is answered with exactly one message: an empty result under the
/// identifier that the `PONG` came with.
pub proof fn lemma_pong_is_echoed(message: WebSocketMessageView)
    requires
        message.action == "PONG"@,
    ensures
        reaction_to(message) == ReactionView::Respond(
            ResponseEnvelopeView {
                id: message.id,
                origin_action: "PONG"@,
                result: ResponseResultView::Empty,
            },
        ),
{
    reveal_strlit("PONG");
    reveal_strlit("HTTP_REQUEST");
    assert("PONG"@.len() != "HTTP_REQUEST"@.len());
}

/// A message whose action is neither `HTTP_REQUEST` nor `PONG` is not answered.
pub proof fn lemma_unknown_action_is_ignored(message: WebSocketMessageView)
    requires
        message.action != "HTTP_REQUEST"@,
        message.action != "PONG"@,
    ensures
        reaction_to(message) is Nothing,
{
}

/// Whatever is sent for a message of the server carries the identifier of that
/// message.
pub proof fn lemma_answers_carry_the_id(
    message: WebSocketMessageView,
    response: Option<HttpResponseView>,
)
    ensures
        reaction_to(message) matches ReactionView::Respond(e) ==> e.id == message.id,
        reaction_to(message) matches ReactionView::Relay { id, .. } ==> {
            &&& id == message.id
            &&& relay_answer(id, response) matches Some(e) ==> e.id == message.id
                && e.origin_action == message.action
        },
{
}

} // verus!
