//! The HTTP relay: what request is made for the server, and what is reported
//! of the response.

use crate::headers::{
    is_denied, lemma_denied_never_relayed, relay_headers, relayed_headers, Header,
};
use crate::json::{
    lemma_object_view, lookup, lookup_text, members_at, members_view, text_at, Json, JsonView,
};
use crate::outside::{
    base64_bytes, base64_decode, base64_encode, base64_text, encodable_len, is_token,
    method_accepted, reason_phrase, status_phrase, text_from_utf8,
};
use crate::text::{same_ignoring_case, str_eq};
use vstd::prelude::*;
use vstd::utf8::{decode_utf8, valid_utf8};

verus! {

/// A request that the relay is ready to make.
#[derive(Debug, PartialEq, Eq)]
pub struct RelayRequest {
    pub url: String,
    pub method: String,
    pub headers: Vec<Header>,
    pub body: Option<Vec<u8>>,
}

pub struct RelayRequestView {
    pub url: Seq<char>,
    pub method: Seq<char>,
    pub headers: Seq<(Seq<char>, Seq<char>)>,
    pub body: Option<Seq<u8>>,
}

impl View for RelayRequest {
    type V = RelayRequestView;

    open spec fn view(&self) -> RelayRequestView {
        RelayRequestView {
            url: self.url@,
            method: self.method@,
            headers: self.headers.deep_view(),
            body: match self.body {
                Some(b) => Some(b@),
                None => None,
            },
        }
    }
}

/// The request that the `data` of an `HTTP_REQUEST` message asks for. There is
/// none where `url` or `method` is missing or is no string, or where the method
/// is no HTTP verb. The headers are those of the `headers` object that are
/// relayed; the body is what the `body` string decodes to, and is left out
/// where that string is no base64 text.
pub open spec fn planned_request(data: Seq<(Seq<char>, JsonView)>) -> Option<
    RelayRequestView,
> {
    match (text_at(data, "url"@), text_at(data, "method"@)) {
        (Some(url), Some(method)) => if is_token(method) {
            Some(
                RelayRequestView {
                    url,
                    method,
                    headers: match members_at(data, "headers"@) {
                        Some(members) => relayed_headers(members),
                        None => Seq::empty(),
                    },
                    body: match text_at(data, "body"@) {
                        Some(text) => base64_bytes(text),
                        None => None,
                    },
                },
            )
        } else {
            None
        },
        _ => None,
    }
}

/// Reads the request to make out of the `data` of an `HTTP_REQUEST` message.
pub fn plan_request(data: &Vec<(String, Json)>) -> (request: Option<RelayRequest>)
    ensures
        match request {
            Some(r) => planned_request(members_view(data@)) == Some(r@),
            None => planned_request(members_view(data@)) is None,
        },
{
    let url = match lookup_text(data, "url") {
        Some(url) => url,
        None => { return None; },
    };
    let method = match lookup_text(data, "method") {
        Some(method) => method,
        None => { return None; },
    };
    if !method_accepted(method.as_str()) {
        return None;
    }
    let headers = match lookup(data, "headers") {
        Some(Json::Object(members)) => {
            proof {
                lemma_object_view(*members);
            }
            relay_headers(members)
        },
        _ => Vec::new(),
    };
    let body = match lookup_text(data, "body") {
        Some(text) => base64_decode(text.as_str()),
        None => None,
    };
    let request = RelayRequest { url: url.clone(), method: method.clone(), headers, body };
    assert(request@.headers =~= planned_request(members_view(data@))->0.headers);
    Some(request)
}

/// The request that is made carries no header whose name is on the denylist,
/// in whatever case either name is written.
pub proof fn lemma_request_has_no_denied_header(
    data: Seq<(Seq<char>, JsonView)>,
    name: Seq<char>,
)
    requires
        is_denied(name),
        planned_request(data) is Some,
    ensures
        forall|j: int|
            0 <= j < planned_request(data)->0.headers.len() ==> !same_ignoring_case(
                (#[trigger] planned_request(data)->0.headers[j]).0,
                name,
            ),
{
    match members_at(data, "headers"@) {
        Some(members) => {
            lemma_denied_never_relayed(members, name);
        },
        None => {},
    }
}

/// A body goes out as the bytes that its text stands for: where the `body`
/// string decodes to `body`, as every text that `encode_body` makes of `body`
/// does, the request that is made carries `body`, byte for byte.
pub proof fn lemma_encoded_body_is_relayed(
    data: Seq<(Seq<char>, JsonView)>,
    text: Seq<char>,
    body: Seq<u8>,
)
    requires
        planned_request(data) is Some,
        text_at(data, "body"@) == Some(text),
        base64_bytes(text) == Some(body),
    ensures
        planned_request(data)->0.body == Some(body),
{
}

/// One header of a response, its value as the bytes that came.
#[derive(Debug, PartialEq, Eq)]
pub struct ResponseHeader {
    pub name: String,
    pub value: Vec<u8>,
}

impl DeepView for ResponseHeader {
    type V = (Seq<char>, Seq<u8>);

    open spec fn deep_view(&self) -> (Seq<char>, Seq<u8>) {
        (self.name@, self.value@)
    }
}

impl View for ResponseHeader {
    type V = (Seq<char>, Seq<u8>);

    open spec fn view(&self) -> (Seq<char>, Seq<u8>) {
        self.deep_view()
    }
}

/// What came back for a relayed request. Its status is an HTTP status code,
/// and its body is short enough for its base64 text to have a length.
#[derive(Debug, PartialEq, Eq)]
pub struct HttpResponse {
    url: String,
    status: u16,
    headers: Vec<ResponseHeader>,
    body: Vec<u8>,
}

pub struct HttpResponseView {
    pub url: Seq<char>,
    pub status: u16,
    pub headers: Seq<(Seq<char>, Seq<u8>)>,
    pub body: Seq<u8>,
}

impl View for HttpResponse {
    type V = HttpResponseView;

    closed spec fn view(&self) -> HttpResponseView {
        HttpResponseView {
            url: self.url@,
            status: self.status,
            headers: self.headers.deep_view(),
            body: self.body@,
        }
    }
}

impl HttpResponseView {
    /// A response that can be reported: its status is an HTTP status code, and
    /// the base64 text of its body has a length that fits in `usize`.
    pub open spec fn well_formed(self) -> bool {
        100 <= self.status <= 999 && encodable_len(self.body.len())
    }
}

impl HttpResponse {
    #[verifier::type_invariant]
    spec fn reportable(self) -> bool {
        100 <= self.status <= 999 && encodable_len(self.body@.len())
    }

    /// The response with this final address, status, headers and body, or
    /// nothing where these make no response that can be reported.
    pub fn new(url: String, status: u16, headers: Vec<ResponseHeader>, body: Vec<u8>) -> (response:
        Option<HttpResponse>)
        ensures
            match response {
                Some(r) => r@ == (HttpResponseView {
                    url: url@,
                    status,
                    headers: headers.deep_view(),
                    body: body@,
                }) && r@.well_formed(),
                None => !(100 <= status <= 999 && encodable_len(body@.len())),
            },
    {
        if 100 <= status && status <= 999 && fits_base64(body.len()) {
            Some(HttpResponse { url, status, headers, body })
        } else {
            None
        }
    }

    /// The address that the response came from.
    pub fn url(&self) -> (url: &String)
        ensures
            url@ == self@.url,
    {
        &self.url
    }

    /// The status code.
    pub fn status(&self) -> (status: u16)
        ensures
            status == self@.status,
            100 <= status <= 999,
    {
        proof {
            use_type_invariant(self);
        }
        self.status
    }

    /// The headers, in the order in which they came.
    pub fn headers(&self) -> (headers: &Vec<ResponseHeader>)
        ensures
            headers.deep_view() == self@.headers,
    {
        &self.headers
    }

    /// The body.
    pub fn body(&self) -> (body: &Vec<u8>)
        ensures
            body@ == self@.body,
            encodable_len(body@.len()),
    {
        proof {
            use_type_invariant(self);
        }
        &self.body
    }
}

/// Whether the base64 text of `len` bytes has a length that fits in `usize`.
pub fn fits_base64(len: usize) -> (ok: bool)
    ensures
        ok == encodable_len(len as nat),
{
    let mut chunks: usize = len / 3;
    if len % 3 > 0 {
        match chunks.checked_add(1) {
            Some(c) => { chunks = c; },
            None => { return false; },
        }
    }
    chunks.checked_mul(4).is_some()
}

/// What is reported of a response.
#[derive(Debug, PartialEq, Eq)]
pub struct RelayResult {
    pub url: String,
    pub status: u16,
    pub status_text: String,
    pub headers: Vec<Header>,
    pub body: String,
}

pub struct RelayResultView {
    pub url: Seq<char>,
    pub status: u16,
    pub status_text: Seq<char>,
    pub headers: Seq<(Seq<char>, Seq<char>)>,
    pub body: Seq<char>,
}

impl View for RelayResult {
    type V = RelayResultView;

    open spec fn view(&self) -> RelayResultView {
        RelayResultView {
            url: self.url@,
            status: self.status,
            status_text: self.status_text@,
            headers: self.headers.deep_view(),
            body: self.body@,
        }
    }
}

/// The text reported for a header value: the value itself where it is UTF-8,
/// the empty text where it is not.
pub open spec fn value_text(value: Seq<u8>) -> Seq<char> {
    if valid_utf8(value) {
        decode_utf8(value)
    } else {
        Seq::empty()
    }
}

/// Whether a header named `name` stands in `map`.
pub open spec fn has_name(map: Seq<(Seq<char>, Seq<char>)>, name: Seq<char>) -> bool {
    exists|i: int| 0 <= i < map.len() && (#[trigger] map[i]).0 == name
}

/// `map` with `name` set to `text`: in place where the name stands in it, at
/// the end where it does not.
pub open spec fn put(map: Seq<(Seq<char>, Seq<char>)>, name: Seq<char>, text: Seq<char>) -> Seq<
    (Seq<char>, Seq<char>),
> {
    if has_name(map, name) {
        Seq::new(
            map.len(),
            |i: int|
                if map[i].0 == name {
                    (name, text)
                } else {
                    map[i]
                },
        )
    } else {
        map.push((name, text))
    }
}

/// The header mapping that is reported for the headers of a response: each
/// name once, with the text of the last value that came under it.
pub open spec fn collected_headers(headers: Seq<(Seq<char>, Seq<u8>)>) -> Seq<
    (Seq<char>, Seq<char>),
>
    decreases headers.len(),
{
    if headers.len() == 0 {
        Seq::empty()
    } else {
        put(collected_headers(headers.drop_last()), headers.last().0, value_text(headers.last().1))
    }
}

/// A mapping in which no name stands twice.
pub open spec fn names_distinct(map: Seq<(Seq<char>, Seq<char>)>) -> bool {
    forall|i: int, j: int| 0 <= i < j < map.len() ==> (#[trigger] map[i]).0 != (#[trigger] map[j]).0
}

/// Setting a name keeps the names distinct, leaves the other names as they
/// were, and makes the name stand with its new text.
pub proof fn lemma_put(map: Seq<(Seq<char>, Seq<char>)>, name: Seq<char>, text: Seq<char>)
    requires
        names_distinct(map),
    ensures
        names_distinct(put(map, name, text)),
        put(map, name, text).contains((name, text)),
        forall|h: (Seq<char>, Seq<char>)|
            h.0 != name ==> (#[trigger] put(map, name, text).contains(h) <==> map.contains(h)),
        forall|n: Seq<char>| #[trigger]
            has_name(put(map, name, text), n) <==> (n == name || has_name(map, n)),
{
    let out = put(map, name, text);
    if has_name(map, name) {
        let i = choose|i: int| 0 <= i < map.len() && (#[trigger] map[i]).0 == name;
        assert(out[i] == (name, text));
    } else {
        assert(out[map.len() as int] == (name, text));
    }
    assert forall|h: (Seq<char>, Seq<char>)| h.0 != name implies (#[trigger] out.contains(h)
        <==> map.contains(h)) by {
        if out.contains(h) {
            let k = choose|k: int| 0 <= k < out.len() && out[k] == h;
            assert(map[k] == h);
        }
        if map.contains(h) {
            let k = choose|k: int| 0 <= k < map.len() && map[k] == h;
            assert(out[k] == h);
        }
    }
    assert forall|n: Seq<char>| #[trigger]
        has_name(out, n) <==> (n == name || has_name(map, n)) by {
        if has_name(out, n) && n != name {
            let k = choose|k: int| 0 <= k < out.len() && (#[trigger] out[k]).0 == n;
            assert(map[k].0 == n);
        }
        if has_name(map, n) {
            let k = choose|k: int| 0 <= k < map.len() && (#[trigger] map[k]).0 == n;
            assert(out[k].0 == n);
        }
    }
}

/// In the reported headers no name stands twice, and the names are those of
/// the response's headers.
pub proof fn lemma_collected_is_mapping(headers: Seq<(Seq<char>, Seq<u8>)>)
    ensures
        names_distinct(collected_headers(headers)),
        forall|n: Seq<char>| #[trigger]
            has_name(collected_headers(headers), n) <==> exists|i: int|
                0 <= i < headers.len() && (#[trigger] headers[i]).0 == n,
    decreases headers.len(),
{
    if headers.len() > 0 {
        let rest = headers.drop_last();
        let last = headers.last();
        lemma_collected_is_mapping(rest);
        lemma_put(collected_headers(rest), last.0, value_text(last.1));
        assert forall|n: Seq<char>| #[trigger]
            has_name(collected_headers(headers), n) <==> exists|i: int|
                0 <= i < headers.len() && (#[trigger] headers[i]).0 == n by {
            if has_name(collected_headers(headers), n) {
                if n == last.0 {
                    assert(headers[headers.len() - 1].0 == n);
                } else {
                    let i = choose|i: int| 0 <= i < rest.len() && (#[trigger] rest[i]).0 == n;
                    assert(headers[i].0 == n);
                }
            }
            if exists|i: int| 0 <= i < headers.len() && (#[trigger] headers[i]).0 == n {
                let i = choose|i: int| 0 <= i < headers.len() && (#[trigger] headers[i]).0 == n;
                if i < rest.len() {
                    assert(rest[i].0 == n);
                }
            }
        }
    }
}

/// Each name is reported with the text of the last value that came under it.
pub proof fn lemma_collected_last_wins(headers: Seq<(Seq<char>, Seq<u8>)>, i: int)
    requires
        0 <= i < headers.len(),
        forall|k: int| i < k < headers.len() ==> (#[trigger] headers[k]).0 != headers[i].0,
    ensures
        collected_headers(headers).contains((headers[i].0, value_text(headers[i].1))),
    decreases headers.len(),
{
    let rest = headers.drop_last();
    let last = headers.last();
    lemma_collected_is_mapping(rest);
    lemma_put(collected_headers(rest), last.0, value_text(last.1));
    if i < headers.len() - 1 {
        assert forall|k: int| i < k < rest.len() implies (#[trigger] rest[k]).0 != rest[i].0 by {
            assert(rest[k] == headers[k]);
        }
        lemma_collected_last_wins(rest, i);
        assert(last.0 != headers[i].0);
    }
}

/// The status phrase that is reported for a status code: the reason phrase of
/// the code (`OK` for 200), and the empty text for a code that has none.
pub open spec fn phrase_text(code: u16) -> Seq<char> {
    match reason_phrase(code) {
        Some(phrase) => phrase,
        None => Seq::empty(),
    }
}

/// What is reported of a response: its address and status as they are, the
/// status phrase that belongs to the status, the header mapping, and the body
/// as base64 text.
pub open spec fn reported(response: HttpResponseView) -> RelayResultView {
    RelayResultView {
        url: response.url,
        status: response.status,
        status_text: phrase_text(response.status),
        headers: collected_headers(response.headers),
        body: base64_text(response.body),
    }
}

fn header_text(value: &Vec<u8>) -> (text: String)
    ensures
        text@ == value_text(value@),
{
    match text_from_utf8(value.clone()) {
        Some(text) => text,
        None => String::new(),
    }
}

fn put_header(map: &mut Vec<Header>, name: &String, text: String)
    ensures
        final(map).deep_view() == put(old(map).deep_view(), name@, text@),
{
    let ghost before = map.deep_view();
    let mut i: usize = 0;
    let mut found = false;
    while i < map.len()
        invariant
            i <= map.len(),
            map.len() == before.len(),
            found == exists|j: int| 0 <= j < i && (#[trigger] before[j]).0 == name@,
            forall|j: int|
                0 <= j < i ==> (#[trigger] map[j]).deep_view() == if before[j].0 == name@ {
                    (name@, text@)
                } else {
                    before[j]
                },
            forall|j: int| i <= j < map.len() ==> (#[trigger] map[j]).deep_view() == before[j],
        decreases map.len() - i,
    {
        if str_eq(map[i].name.as_str(), name.as_str()) {
            map.set(i, Header { name: name.clone(), value: text.clone() });
            found = true;
        }
        i += 1;
    }
    if !found {
        map.push(Header { name: name.clone(), value: text });
    }
}

fn collect_headers(headers: &Vec<ResponseHeader>) -> (map: Vec<Header>)
    ensures
        map.deep_view() == collected_headers(headers.deep_view()),
{
    let mut map: Vec<Header> = Vec::new();
    let mut i: usize = 0;
    while i < headers.len()
        invariant
            i <= headers.len(),
            map.deep_view() == collected_headers(headers.deep_view().take(i as int)),
        decreases headers.len() - i,
    {
        proof {
            let all = headers.deep_view();
            assert(all.take(i + 1).drop_last() =~= all.take(i as int));
        }
        let text = header_text(&headers[i].value);
        put_header(&mut map, &headers[i].name, text);
        i += 1;
    }
    assert(headers.deep_view().take(headers.len() as int) =~= headers.deep_view());
    map
}

/// Puts together what is reported of a response. The body of the report
/// decodes to the body of the response.
pub fn process_response(response: &HttpResponse) -> (result: RelayResult)
    ensures
        result@ == reported(response@),
        base64_bytes(result@.body) == Some(response@.body),
{
    proof {
        use_type_invariant(response);
    }
    let phrase = match status_phrase(response.status) {
        Some(phrase) => phrase,
        None => String::new(),
    };
    RelayResult {
        url: response.url.clone(),
        status: response.status,
        status_text: phrase,
        headers: collect_headers(&response.headers),
        body: base64_encode(response.body.as_slice()),
    }
}

/// The base64 text of a body, or nothing where the text would be too long to
/// have a length. Decoding the text gives the body back.
pub fn encode_body(body: &[u8]) -> (text: Option<String>)
    ensures
        match text {
            Some(t) => {
                &&& encodable_len(body@.len())
                &&& t@ == base64_text(body@)
                &&& base64_bytes(t@) == Some(body@)
            },
            None => !encodable_len(body@.len()),
        },
{
    if fits_base64(body.len()) {
        Some(base64_encode(body))
    } else {
        None
    }
}

/// The body that a base64 text stands for, or `None` where it is no base64 text.
pub fn decode_body(text: &str) -> (body: Option<Vec<u8>>)
    ensures
        match body {
            Some(b) => base64_bytes(text@) == Some(b@),
            None => base64_bytes(text@) is None,
        },
{
    base64_decode(text)
}

} // verus!
