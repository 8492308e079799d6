use herbivore::headers::Header;
use herbivore::json::Json;
use herbivore::message::{
    AuthResult, DecodeError, PingMessage, ResponseEnvelope, ResponseResult, WebSocketMessage,
};
use herbivore::relay::RelayResult;
use herbivore::websocket_client::{NodeType, WebSocketClient};

fn text(name: &str, value: &str) -> (String, Json) {
    (name.to_string(), Json::Text(value.to_string()))
}

fn object(members: Vec<(String, Json)>) -> Json {
    Json::Object(members)
}

#[test]
fn a_message_with_data_is_decoded() {
    let data = vec![text("url", "http://example.test/"), text("method", "GET")];
    let value = object(vec![
        text("id", "m-1"),
        text("action", "HTTP_REQUEST"),
        ("data".to_string(), object(vec![text("url", "http://example.test/"), text("method", "GET")])),
    ]);
    assert_eq!(
        WebSocketMessage::decode(value),
        Ok(WebSocketMessage { id: "m-1".to_string(), action: "HTTP_REQUEST".to_string(), data })
    );
}

#[test]
fn data_that_are_absent_are_empty() {
    let value = object(vec![text("action", "PONG"), text("id", "m-2")]);
    assert_eq!(
        WebSocketMessage::decode(value),
        Ok(WebSocketMessage { id: "m-2".to_string(), action: "PONG".to_string(), data: vec![] })
    );
}

#[test]
fn members_that_are_not_known_are_passed_over() {
    let value = object(vec![
        text("version", "1"),
        text("id", "m-3"),
        ("seq".to_string(), Json::Number(4)),
        text("action", "PONG"),
        ("data".to_string(), object(vec![])),
        ("extra".to_string(), Json::Other),
    ]);
    assert_eq!(
        WebSocketMessage::decode(value),
        Ok(WebSocketMessage { id: "m-3".to_string(), action: "PONG".to_string(), data: vec![] })
    );
}

#[test]
fn a_value_that_is_no_object_is_no_message() {
    assert_eq!(WebSocketMessage::decode(Json::Other), Err(DecodeError::NotAnObject));
    assert_eq!(WebSocketMessage::decode(Json::Number(1)), Err(DecodeError::NotAnObject));
    assert_eq!(
        WebSocketMessage::decode(Json::Text("PONG".to_string())),
        Err(DecodeError::NotAnObject)
    );
}

#[test]
fn a_message_needs_an_id() {
    assert_eq!(WebSocketMessage::decode(object(vec![])), Err(DecodeError::MissingId));
    assert_eq!(
        WebSocketMessage::decode(object(vec![text("action", "PONG")])),
        Err(DecodeError::MissingId)
    );
    assert_eq!(
        WebSocketMessage::decode(object(vec![("id".to_string(), Json::Number(5)), text("action", "PONG")])),
        Err(DecodeError::MissingId)
    );
    assert_eq!(
        WebSocketMessage::decode(object(vec![text("ID", "m"), text("action", "PONG")])),
        Err(DecodeError::MissingId)
    );
}

#[test]
fn a_message_needs_an_action() {
    assert_eq!(
        WebSocketMessage::decode(object(vec![text("id", "m")])),
        Err(DecodeError::MissingAction)
    );
    assert_eq!(
        WebSocketMessage::decode(object(vec![text("id", "m"), ("action".to_string(), Json::Other)])),
        Err(DecodeError::MissingAction)
    );
}

#[test]
fn data_must_be_an_object() {
    for bad in [Json::Other, Json::Number(0), Json::Text("{}".to_string())] {
        let value = object(vec![text("id", "m"), text("action", "PONG"), ("data".to_string(), bad)]);
        assert_eq!(WebSocketMessage::decode(value), Err(DecodeError::InvalidData));
    }
}

#[test]
fn a_pong_answer_as_json() {
    let e = ResponseEnvelope::new("abc".to_string(), "PONG".to_string(), ResponseResult::Empty);
    assert_eq!(
        e.to_json(),
        object(vec![
            text("id", "abc"),
            text("origin_action", "PONG"),
            ("result".to_string(), object(vec![])),
        ])
    );
}

#[test]
fn a_ping_as_json() {
    let p = PingMessage {
        id: "p-1".to_string(),
        action: "PING".to_string(),
        version: "4.30.0".to_string(),
    };
    assert_eq!(
        p.to_json(),
        object(vec![
            text("id", "p-1"),
            text("action", "PING"),
            text("version", "4.30.0"),
            ("data".to_string(), object(vec![])),
        ])
    );
}

#[test]
fn the_credentials_of_an_extension_as_json() {
    let c = WebSocketClient::new("u-1".to_string(), NodeType::Extension);
    let m = c.auth_message("i-1".to_string(), "b-1".to_string(), 1_700_000_000);
    assert_eq!(
        m.to_json(),
        object(vec![
            text("id", "i-1"),
            text("origin_action", "AUTH"),
            (
                "result".to_string(),
                object(vec![
                    text("browser_id", "b-1"),
                    text("user_id", "u-1"),
                    text("user_agent", "Mozilla/5.0"),
                    ("timestamp".to_string(), Json::Number(1_700_000_000)),
                    text("device_type", "extension"),
                    text("version", "4.26.2"),
                    text("extension_id", "ilehaonighjijnmpnagapkhpcdbhclfg"),
                ])
            ),
        ])
    );
}

#[test]
fn the_credentials_of_a_desktop_have_no_extension_id() {
    let a = AuthResult {
        browser_id: "b".to_string(),
        user_id: "u".to_string(),
        user_agent: "Mozilla/5.0".to_string(),
        timestamp: 0,
        device_type: "desktop".to_string(),
        version: "4.30.0".to_string(),
        extension_id: None,
    };
    assert_eq!(
        a.to_json(),
        object(vec![
            text("browser_id", "b"),
            text("user_id", "u"),
            text("user_agent", "Mozilla/5.0"),
            ("timestamp".to_string(), Json::Number(0)),
            text("device_type", "desktop"),
            text("version", "4.30.0"),
        ])
    );
}

#[test]
fn a_relay_report_as_json() {
    let r = RelayResult {
        url: "http://example.test/x".to_string(),
        status: 200,
        status_text: "OK".to_string(),
        headers: vec![
            Header { name: "content-type".to_string(), value: "text/plain".to_string() },
            Header { name: "server".to_string(), value: "".to_string() },
        ],
        body: "b2s=".to_string(),
    };
    let expected = object(vec![
        text("url", "http://example.test/x"),
        ("status".to_string(), Json::Number(200)),
        text("status_text", "OK"),
        ("headers".to_string(), object(vec![text("content-type", "text/plain"), text("server", "")])),
        text("body", "b2s="),
    ]);
    assert_eq!(r.to_json(), expected);
    assert_eq!(ResponseResult::Relay(r).to_json(), expected);
    assert_eq!(ResponseResult::Empty.to_json(), object(vec![]));
}
