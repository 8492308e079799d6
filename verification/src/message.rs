//! The messages that travel between the node and the coordination server, and
//! their JSON forms.

use crate::headers::Header;
use crate::json::{
    find, lemma_object_view, lookup_text, members_view, position, text_at, Json, JsonView,
};
use crate::relay::{RelayResult, RelayResultView};
use vstd::prelude::*;

verus! {

/// A message from the server: what it asks for, under which identifier, and
/// with what data.
#[derive(Debug, PartialEq, Eq)]
pub struct WebSocketMessage {
    pub id: String,
    pub action: String,
    pub data: Vec<(String, Json)>,
}

pub struct WebSocketMessageView {
    pub id: Seq<char>,
    pub action: Seq<char>,
    pub data: Seq<(Seq<char>, JsonView)>,
}

impl View for WebSocketMessage {
    type V = WebSocketMessageView;

    open spec fn view(&self) -> WebSocketMessageView {
        WebSocketMessageView {
            id: self.id@,
            action: self.action@,
            data: members_view(self.data@),
        }
    }
}

/// Why a JSON value is no message of the server.
#[derive(Debug, Clone, Copy, PartialEq, Eq, Structural)]
pub enum DecodeError {
    /// The value is no object.
    NotAnObject,
    /// There is no `id`, or it is no string.
    MissingId,
    /// There is no `action`, or it is no string.
    MissingAction,
    /// There is a `data`, and it is no object.
    InvalidData,
}

/// The message that a JSON value stands for: an object with the strings `id`
/// and `action`, and with the object `data`, which is empty when it is absent.
pub open spec fn decoded(value: JsonView) -> Result<WebSocketMessageView, DecodeError> {
    match value {
        JsonView::Object(members) => match (text_at(members, "id"@), text_at(members, "action"@)) {
            (None, _) => Err(DecodeError::MissingId),
            (Some(_), None) => Err(DecodeError::MissingAction),
            (Some(id), Some(action)) => match find(members, "data"@) {
                None => Ok(WebSocketMessageView { id, action, data: Seq::empty() }),
                Some(JsonView::Object(data)) => Ok(WebSocketMessageView { id, action, data }),
                Some(_) => Err(DecodeError::InvalidData),
            },
        },
        _ => Err(DecodeError::NotAnObject),
    }
}

impl WebSocketMessage {
    /// Reads a message of the server out of the JSON value that came.
    pub fn decode(value: Json) -> (message: Result<WebSocketMessage, DecodeError>)
        ensures
            match message {
                Ok(m) => decoded(value@) == Ok::<WebSocketMessageView, DecodeError>(m@),
                Err(e) => decoded(value@) == Err::<WebSocketMessageView, DecodeError>(e),
            },
    {
        let mut members = match value {
            Json::Object(members) => members,
            _ => { return Err(DecodeError::NotAnObject); },
        };
        proof {
            lemma_object_view(members);
        }
        let id = match lookup_text(&members, "id") {
            Some(id) => id.clone(),
            None => { return Err(DecodeError::MissingId); },
        };
        let action = match lookup_text(&members, "action") {
            Some(action) => action.clone(),
            None => { return Err(DecodeError::MissingAction); },
        };
        let data = match position(&members, "data") {
            Some(i) => match members.remove(i).1 {
                Json::Object(data) => {
                    proof {
                        lemma_object_view(data);
                    }
                    data
                },
                _ => { return Err(DecodeError::InvalidData); },
            },
            None => Vec::new(),
        };
        let message = WebSocketMessage { id, action, data };
        assert(message@.data =~= decoded(value@)->Ok_0.data);
        Ok(message)
    }
}

/// What the node says of itself when it authenticates.
#[derive(Debug, PartialEq, Eq)]
pub struct AuthResult {
    pub browser_id: String,
    pub user_id: String,
    pub user_agent: String,
    pub timestamp: u64,
    pub device_type: String,
    pub version: String,
    pub extension_id: Option<String>,
}

pub struct AuthResultView {
    pub browser_id: Seq<char>,
    pub user_id: Seq<char>,
    pub user_agent: Seq<char>,
    pub timestamp: u64,
    pub device_type: Seq<char>,
    pub version: Seq<char>,
    pub extension_id: Option<Seq<char>>,
}

impl View for AuthResult {
    type V = AuthResultView;

    open spec fn view(&self) -> AuthResultView {
        AuthResultView {
            browser_id: self.browser_id@,
            user_id: self.user_id@,
            user_agent: self.user_agent@,
            timestamp: self.timestamp,
            device_type: self.device_type@,
            version: self.version@,
            extension_id: match self.extension_id {
                Some(e) => Some(e@),
                None => None,
            },
        }
    }
}

/// The `result` of a message to the server.
#[derive(Debug, PartialEq, Eq)]
pub enum ResponseResult {
    /// An empty object.
    Empty,
    /// The node's credentials.
    Auth(AuthResult),
    /// What came of a relayed request.
    Relay(RelayResult),
}

pub enum ResponseResultView {
    Empty,
    Auth(AuthResultView),
    Relay(RelayResultView),
}

impl View for ResponseResult {
    type V = ResponseResultView;

    open spec fn view(&self) -> ResponseResultView {
        match self {
            ResponseResult::Empty => ResponseResultView::Empty,
            ResponseResult::Auth(a) => ResponseResultView::Auth(a@),
            ResponseResult::Relay(r) => ResponseResultView::Relay(r@),
        }
    }
}

/// A message to the server that answers the action `origin_action`.
#[derive(Debug, PartialEq, Eq)]
pub struct ResponseEnvelope {
    pub id: String,
    pub origin_action: String,
    pub result: ResponseResult,
}

pub struct ResponseEnvelopeView {
    pub id: Seq<char>,
    pub origin_action: Seq<char>,
    pub result: ResponseResultView,
}

impl View for ResponseEnvelope {
    type V = ResponseEnvelopeView;

    open spec fn view(&self) -> ResponseEnvelopeView {
        ResponseEnvelopeView {
            id: self.id@,
            origin_action: self.origin_action@,
            result: self.result@,
        }
    }
}

/// The liveness message of the node.
#[derive(Debug, PartialEq, Eq)]
pub struct PingMessage {
    pub id: String,
    pub action: String,
    pub version: String,
}

pub struct PingMessageView {
    pub id: Seq<char>,
    pub action: Seq<char>,
    pub version: Seq<char>,
}

impl View for PingMessage {
    type V = PingMessageView;

    open spec fn view(&self) -> PingMessageView {
        PingMessageView { id: self.id@, action: self.action@, version: self.version@ }
    }
}

/// The member `name` with the string `text` for its value.
pub open spec fn text_member(name: Seq<char>, text: Seq<char>) -> (Seq<char>, JsonView) {
    (name, JsonView::Text(text))
}

/// The members of the object that stands for a header mapping: one string
/// under each name.
pub open spec fn header_members(headers: Seq<(Seq<char>, Seq<char>)>) -> Seq<
    (Seq<char>, JsonView),
> {
    Seq::new(headers.len(), |i: int| text_member(headers[i].0, headers[i].1))
}

impl AuthResultView {
    /// The credentials as a JSON object. `extension_id` is left out where the
    /// node has none.
    pub open spec fn to_json(self) -> JsonView {
        let members = seq![
            text_member("browser_id"@, self.browser_id),
            text_member("user_id"@, self.user_id),
            text_member("user_agent"@, self.user_agent),
            ("timestamp"@, JsonView::Number(self.timestamp)),
            text_member("device_type"@, self.device_type),
            text_member("version"@, self.version),
        ];
        JsonView::Object(
            match self.extension_id {
                Some(e) => members.push(text_member("extension_id"@, e)),
                None => members,
            },
        )
    }
}

impl RelayResultView {
    /// The report of a relayed request as a JSON object.
    pub open spec fn to_json(self) -> JsonView {
        JsonView::Object(
            seq![
                text_member("url"@, self.url),
                ("status"@, JsonView::Number(self.status as u64)),
                text_member("status_text"@, self.status_text),
                ("headers"@, JsonView::Object(header_members(self.headers))),
                text_member("body"@, self.body),
            ],
        )
    }
}

impl ResponseResultView {
    /// The result as a JSON object.
    pub open spec fn to_json(self) -> JsonView {
        match self {
            ResponseResultView::Empty => JsonView::Object(Seq::empty()),
            ResponseResultView::Auth(a) => a.to_json(),
            ResponseResultView::Relay(r) => r.to_json(),
        }
    }
}

impl ResponseEnvelopeView {
    /// The message as a JSON object.
    pub open spec fn to_json(self) -> JsonView {
        JsonView::Object(
            seq![
                text_member("id"@, self.id),
                text_member("origin_action"@, self.origin_action),
                ("result"@, self.result.to_json()),
            ],
        )
    }
}

impl PingMessageView {
    /// The message as a JSON object. Its `data` is the empty object.
    pub open spec fn to_json(self) -> JsonView {
        JsonView::Object(
            seq![
                text_member("id"@, self.id),
                text_member("action"@, self.action),
                text_member("version"@, self.version),
                ("data"@, JsonView::Object(Seq::empty())),
            ],
        )
    }
}

fn text_entry(name: &str, text: &String) -> (entry: (String, Json))
    ensures
        (entry.0@, entry.1@) == text_member(name@, text@),
{
    (name.to_owned(), Json::Text(text.clone()))
}

fn object_of(members: Vec<(String, Json)>) -> (json: Json)
    ensures
        json@ == JsonView::Object(members_view(members@)),
{
    proof {
        lemma_object_view(members);
    }
    Json::Object(members)
}

fn headers_json(headers: &Vec<Header>) -> (json: Json)
    ensures
        json@ == JsonView::Object(header_members(headers.deep_view())),
{
    let mut members: Vec<(String, Json)> = Vec::new();
    let mut i: usize = 0;
    while i < headers.len()
        invariant
            i <= headers.len(),
            members.len() == i,
            forall|j: int|
                0 <= j < i ==> (#[trigger] members[j]).0@ == headers[j].name@ && members[j].1@
                    == JsonView::Text(headers[j].value@),
        decreases headers.len() - i,
    {
        members.push(text_entry(headers[i].name.as_str(), &headers[i].value));
        i += 1;
    }
    assert(members_view(members@) =~= header_members(headers.deep_view()));
    object_of(members)
}

impl AuthResult {
    /// The credentials as a JSON object.
    pub fn to_json(&self) -> (json: Json)
        ensures
            json@ == self@.to_json(),
    {
        let mut members: Vec<(String, Json)> = Vec::new();
        members.push(text_entry("browser_id", &self.browser_id));
        members.push(text_entry("user_id", &self.user_id));
        members.push(text_entry("user_agent", &self.user_agent));
        members.push(("timestamp".to_owned(), Json::Number(self.timestamp)));
        members.push(text_entry("device_type", &self.device_type));
        members.push(text_entry("version", &self.version));
        if let Some(e) = &self.extension_id {
            members.push(text_entry("extension_id", e));
        }
        assert(members_view(members@) =~= self@.to_json()->Object_0);
        object_of(members)
    }
}

impl RelayResult {
    /// The report of a relayed request as a JSON object.
    pub fn to_json(&self) -> (json: Json)
        ensures
            json@ == self@.to_json(),
    {
        let mut members: Vec<(String, Json)> = Vec::new();
        members.push(text_entry("url", &self.url));
        members.push(("status".to_owned(), Json::Number(self.status as u64)));
        members.push(text_entry("status_text", &self.status_text));
        members.push(("headers".to_owned(), headers_json(&self.headers)));
        members.push(text_entry("body", &self.body));
        assert(members_view(members@) =~= self@.to_json()->Object_0);
        object_of(members)
    }
}

impl ResponseResult {
    /// The result as a JSON object.
    pub fn to_json(&self) -> (json: Json)
        ensures
            json@ == self@.to_json(),
    {
        match self {
            ResponseResult::Empty => {
                let members: Vec<(String, Json)> = Vec::new();
                assert(members_view(members@) =~= Seq::empty());
                object_of(members)
            },
            ResponseResult::Auth(a) => a.to_json(),
            ResponseResult::Relay(r) => r.to_json(),
        }
    }
}

impl ResponseEnvelope {
    /// The answer to the action `origin_action` of the message `id`.
    pub fn new(id: String, origin_action: String, result: ResponseResult) -> (envelope: Self)
        ensures
            envelope@ == (ResponseEnvelopeView {
                id: id@,
                origin_action: origin_action@,
                result: result@,
            }),
    {
        ResponseEnvelope { id, origin_action, result }
    }

    /// The message as a JSON object.
    pub fn to_json(&self) -> (json: Json)
        ensures
            json@ == self@.to_json(),
    {
        let mut members: Vec<(String, Json)> = Vec::new();
        members.push(text_entry("id", &self.id));
        members.push(text_entry("origin_action", &self.origin_action));
        members.push(("result".to_owned(), self.result.to_json()));
        assert(members_view(members@) =~= self@.to_json()->Object_0);
        object_of(members)
    }
}

impl PingMessage {
    /// The message as a JSON object.
    pub fn to_json(&self) -> (json: Json)
        ensures
            json@ == self@.to_json(),
    {
        let empty: Vec<(String, Json)> = Vec::new();
        assert(members_view(empty@) =~= Seq::empty());
        let mut members: Vec<(String, Json)> = Vec::new();
        members.push(text_entry("id", &self.id));
        members.push(text_entry("action", &self.action));
        members.push(text_entry("version", &self.version));
        members.push(("data".to_owned(), object_of(empty)));
        assert(members_view(members@) =~= self@.to_json()->Object_0);
        object_of(members)
    }
}

} // verus!
