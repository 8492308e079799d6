//! The calls into other crates. Nothing in this file is proved: each function
//! here states what the called function does, and the rest of the library is
//! proved from those statements.

use base64::engine::general_purpose::STANDARD;
use base64::Engine;
use std::time::{Duration, SystemTime, SystemTimeError, UNIX_EPOCH};
use vstd::prelude::*;
use vstd::utf8::{decode_utf8, valid_utf8};

verus! {

/// A character that may stand in an HTTP token: a letter, a digit, or one of
/// ``! # $ % & ' * + - . ^ _ ` | ~``.
pub open spec fn is_tchar(c: char) -> bool {
    ||| 'a' <= c <= 'z'
    ||| 'A' <= c <= 'Z'
    ||| '0' <= c <= '9'
    ||| c == '!'
    ||| c == '#'
    ||| c == '$'
    ||| c == '%'
    ||| c == '&'
    ||| c == '\''
    ||| c == '*'
    ||| c == '+'
    ||| c == '-'
    ||| c == '.'
    ||| c == '^'
    ||| c == '_'
    ||| c == '`'
    ||| c == '|'
    ||| c == '~'
}

/// A non-empty run of token characters.
pub open spec fn is_token(s: Seq<char>) -> bool {
    s.len() > 0 && forall|i: int| 0 <= i < s.len() ==> is_tchar(#[trigger] s[i])
}

/// The longest header name that `http` stores.
pub const MAX_FIELD_NAME_LEN: usize = 65535;

/// A text that `http` takes as a header name: a token of at most 65535 characters.
pub open spec fn is_field_name(s: Seq<char>) -> bool {
    is_token(s) && s.len() <= MAX_FIELD_NAME_LEN
}

/// A character that may stand in a header value: a tab, or anything from the
/// space upwards but DEL.
pub open spec fn is_field_vchar(c: char) -> bool {
    c == '\t' || (' ' <= c && c != '\x7f')
}

/// A text that `http` takes as a header value.
pub open spec fn is_field_value(s: Seq<char>) -> bool {
    forall|i: int| 0 <= i < s.len() ==> is_field_vchar(#[trigger] s[i])
}

/// Calls `str::parse::<reqwest::Method>`, which is `http::Method::from_bytes` on
/// the text's bytes. That function takes the nine standard verbs, `QUERY`, and
/// every other non-empty text made of token characters; it refuses the empty
/// text and any text with another byte in it. The contract says exactly this.
#[verifier::external_body]
pub(crate) fn method_accepted(method: &str) -> (ok: bool)
    ensures
        ok == is_token(method@),
{
    method.parse::<reqwest::Method>().is_ok()
}

/// Calls `reqwest::header::HeaderName::from_bytes` (of `http`) on the text's
/// bytes. It succeeds on 1 to 65535 bytes that are all token characters, and
/// fails on everything else; a byte of a character beyond ASCII is no token
/// character.
#[verifier::external_body]
pub(crate) fn header_name_accepted(name: &str) -> (ok: bool)
    ensures
        ok == is_field_name(name@),
{
    reqwest::header::HeaderName::from_bytes(name.as_bytes()).is_ok()
}

/// Calls `str::parse::<reqwest::header::HeaderValue>`, which is
/// `http::HeaderValue::from_str`. It fails exactly when some byte is below 32
/// and no tab, or is 127; the bytes of a character beyond ASCII are all above
/// 127, so such a character is accepted.
#[verifier::external_body]
pub(crate) fn header_value_accepted(value: &str) -> (ok: bool)
    ensures
        ok == is_field_value(value@),
{
    value.parse::<reqwest::header::HeaderValue>().is_ok()
}

/// The reason phrase that `http` knows for a status code (`OK` for 200), if it
/// knows one.
pub uninterp spec fn reason_phrase(code: u16) -> Option<Seq<char>>;

/// Calls `reqwest::StatusCode::from_u16` and, on the code it returns,
/// `canonical_reason`. `from_u16` refuses the codes outside 100 to 999, and
/// `canonical_reason` has no phrase for a code that is not registered: both
/// are `None` here. The phrase depends on the code alone.
#[verifier::external_body]
pub(crate) fn status_phrase(code: u16) -> (phrase: Option<String>)
    ensures
        match phrase {
            Some(p) => reason_phrase(code) == Some(p@),
            None => reason_phrase(code) is None,
        },
{
    match reqwest::StatusCode::from_u16(code) {
        Ok(status) => match status.canonical_reason() {
            Some(phrase) => Some(phrase.to_string()),
            None => None,
        },
        Err(_) => None,
    }
}

/// The standard base64 text, with padding, of a run of bytes.
pub uninterp spec fn base64_text(bytes: Seq<u8>) -> Seq<char>;

/// The bytes that a standard base64 text stands for, if it is one.
pub uninterp spec fn base64_bytes(text: Seq<char>) -> Option<Seq<u8>>;

/// Whether the base64 text of `len` bytes has a length that fits in `usize`.
pub open spec fn encodable_len(len: nat) -> bool {
    (len / 3) * 4 + (if len % 3 > 0 { 4int } else { 0int }) <= usize::MAX
}

/// Calls `Engine::encode` of `base64` on the `STANDARD` engine. The call
/// panics when the length of the text overflows `usize`, which `requires`
/// rules out. The text depends on the bytes alone, and the same engine decodes
/// it to the bytes it was made from, as the example of `Engine::encode_slice`
/// shows.
#[verifier::external_body]
pub(crate) fn base64_encode(bytes: &[u8]) -> (text: String)
    requires
        encodable_len(bytes@.len()),
    ensures
        text@ == base64_text(bytes@),
        base64_bytes(text@) == Some(bytes@),
{
    STANDARD.encode(bytes)
}

/// Calls `Engine::decode` of `base64` on the `STANDARD` engine, and gives
/// `None` for its error. The outcome depends on the text alone.
#[verifier::external_body]
pub(crate) fn base64_decode(text: &str) -> (bytes: Option<Vec<u8>>)
    ensures
        match bytes {
            Some(b) => base64_bytes(text@) == Some(b@),
            None => base64_bytes(text@) is None,
        },
{
    STANDARD.decode(text).ok()
}

/// Calls `String::from_utf8`: the text of the bytes where they are UTF-8,
/// `None` where they are not.
#[verifier::external_body]
pub(crate) fn text_from_utf8(bytes: Vec<u8>) -> (text: Option<String>)
    ensures
        match text {
            Some(s) => valid_utf8(bytes@) && s@ == decode_utf8(bytes@),
            None => !valid_utf8(bytes@),
        },
{
    String::from_utf8(bytes).ok()
}

/// The shape of a UUID in its hyphenated form: 36 characters, hyphens at 8, 13,
/// 18 and 23, lower-case hexadecimal digits elsewhere.
pub open spec fn is_uuid_text(s: Seq<char>) -> bool {
    &&& s.len() == 36
    &&& forall|i: int|
        0 <= i < 36 ==> if i == 8 || i == 13 || i == 18 || i == 23 {
            #[trigger] s[i] == '-'
        } else {
            ('0' <= s[i] <= '9') || ('a' <= s[i] <= 'f')
        }
}

/// Calls `uuid::Uuid::new_v4` and prints the identifier with `to_string`. The
/// identifier is random, so only its shape is stated.
#[verifier::external_body]
pub(crate) fn new_uuid() -> (id: String)
    ensures
        is_uuid_text(id@),
{
    uuid::Uuid::new_v4().to_string()
}

/// A reading of the system clock.
#[verifier::external_type_specification]
#[verifier::external_body]
pub struct ExSystemTime(std::time::SystemTime);

/// The error of a clock reading that lies before the time it is measured from.
#[verifier::external_type_specification]
#[verifier::external_body]
pub struct ExSystemTimeError(std::time::SystemTimeError);

/// Calls `SystemTime::now`. Nothing is stated of the reading.
#[verifier::external_body]
pub(crate) fn clock_now() -> (now: SystemTime) {
    SystemTime::now()
}

/// Calls `SystemTime::duration_since` with `UNIX_EPOCH`: the time since the
/// Unix epoch, or an error for a reading that lies before it. Nothing is
/// stated of either.
#[verifier::external_body]
pub(crate) fn since_unix_epoch(time: &SystemTime) -> (elapsed: Result<Duration, SystemTimeError>) {
    time.duration_since(UNIX_EPOCH)
}

/// Calls `Duration::as_secs`: the whole seconds of a duration. Nothing is
/// stated of their number.
#[verifier::external_body]
pub(crate) fn whole_seconds(elapsed: &Duration) -> (seconds: u64) {
    elapsed.as_secs()
}

} // verus!
