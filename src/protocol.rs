//! The response envelope `{ "code", "msg", "data" }` and the two request layers
//! built on it: one that hands back the optional payload, one that decodes it.
use vstd::prelude::*;
use crate::json::{
    json_node_of, member, object_members, text_member, find_member, parse_json, str_eq, JsonNode,
    JsonView,
};

verus! {

/// The status code of a successful envelope.
pub const SUCCESS_CODE: &'static str = "SUCCESS";

/// Every way a request can fail.
#[derive(Debug, Clone)]
pub enum ClientError {
    /// The connection, TLS or the body's encoding failed.
    Transport { detail: String },
    /// The body matched no expected shape; it is kept for diagnosis.
    MalformedResponse { snippet: String },
    /// A well-formed envelope with a status other than success.
    ApiError { path: String, message: String },
    /// A successful envelope without a payload where one was needed.
    MissingData { path: String },
    /// A payload that does not have the expected shape.
    SchemaMismatch { path: String, expected: String },
    /// The enrollment session was closed or expired before a card was read.
    SessionCanceled,
}

pub enum ErrorView {
    Transport { detail: Seq<char> },
    MalformedResponse { snippet: Seq<char> },
    ApiError { path: Seq<char>, message: Seq<char> },
    MissingData { path: Seq<char> },
    SchemaMismatch { path: Seq<char>, expected: Seq<char> },
    SessionCanceled,
}

impl View for ClientError {
    type V = ErrorView;

    open spec fn view(&self) -> ErrorView {
        match self {
            ClientError::Transport { detail } => ErrorView::Transport { detail: detail@ },
            ClientError::MalformedResponse { snippet } => ErrorView::MalformedResponse {
                snippet: snippet@,
            },
            ClientError::ApiError { path, message } => ErrorView::ApiError {
                path: path@,
                message: message@,
            },
            ClientError::MissingData { path } => ErrorView::MissingData { path: path@ },
            ClientError::SchemaMismatch { path, expected } => ErrorView::SchemaMismatch {
                path: path@,
                expected: expected@,
            },
            ClientError::SessionCanceled => ErrorView::SessionCanceled,
        }
    }
}

/// A decoded envelope: status code, message, and the payload's JSON text.
#[derive(Debug, Clone)]
pub struct Envelope {
    pub code: String,
    pub msg: String,
    /// Absent where the envelope has no `data` member or it is `null`.
    pub data: Option<String>,
}

pub struct EnvelopeView {
    pub code: Seq<char>,
    pub msg: Seq<char>,
    pub data: Option<Seq<char>>,
}

impl View for Envelope {
    type V = EnvelopeView;

    open spec fn view(&self) -> EnvelopeView {
        EnvelopeView {
            code: self.code@,
            msg: self.msg@,
            data: match self.data {
                Some(d) => Some(d@),
                None => None,
            },
        }
    }
}

/// The payload of an envelope's members: the `data` member unless it is
/// missing or `null`.
pub open spec fn payload_of(members: Seq<(Seq<char>, Seq<char>)>) -> Option<Seq<char>> {
    match member(members, "data"@) {
        Some(t) => if json_node_of(t) == Some(JsonView::Null) {
            None
        } else {
            Some(t)
        },
        None => None,
    }
}

/// The envelope that a raw body holds: a JSON object with string members
/// `code` and `msg`, and an optional `data`.
pub open spec fn envelope_of(raw: Seq<char>) -> Option<EnvelopeView> {
    match object_members(raw) {
        Some(ms) => match (text_member(ms, "code"@), text_member(ms, "msg"@)) {
            (Some(code), Some(msg)) => Some(EnvelopeView { code, msg, data: payload_of(ms) }),
            _ => None,
        },
        None => None,
    }
}

/// What the untyped request layer makes of a raw body for a request to `path`.
pub open spec fn raw_outcome(path: Seq<char>, raw: Seq<char>) -> Result<Option<Seq<char>>, ErrorView> {
    match envelope_of(raw) {
        None => Err(ErrorView::MalformedResponse { snippet: raw }),
        Some(env) => if env.code != SUCCESS_CODE@ {
            Err(ErrorView::ApiError { path, message: env.msg })
        } else {
            Ok(env.data)
        },
    }
}

pub open spec fn opt_text_view(o: Option<String>) -> Option<Seq<char>> {
    match o {
        Some(s) => Some(s@),
        None => None,
    }
}

fn string_of(s: &str) -> (r: String)
    ensures
        r@ == s@,
{
    s.to_owned()
}

/// The error for a body that matches no expected shape.
pub fn malformed(raw: &str) -> (r: ClientError)
    ensures
        r@ == (ErrorView::MalformedResponse { snippet: raw@ }),
{
    ClientError::MalformedResponse { snippet: string_of(raw) }
}

fn text_of_member(members: &Vec<(String, String)>, key: &str) -> (r: Option<String>)
    ensures
        opt_text_view(r) == text_member(
            members@.map_values(|m: (String, String)| (m.0@, m.1@)),
            key@,
        ),
{
    match find_member(members, key) {
        Some(t) => match parse_json(t.as_str()) {
            Some(JsonNode::Text(s)) => Some(s),
            _ => None,
        },
        None => None,
    }
}

/// Decodes the envelope of a raw body; `MalformedResponse` exactly where the
/// body is not a JSON object with string members `code` and `msg`.
pub fn decode_envelope(raw: &str) -> (r: Result<Envelope, ClientError>)
    ensures
        match r {
            Ok(env) => envelope_of(raw@) == Some(env@),
            Err(e) => envelope_of(raw@) is None && e@ == (ErrorView::MalformedResponse {
                snippet: raw@,
            }),
        },
{
    let members = match parse_json(raw) {
        Some(JsonNode::Object(ms)) => ms,
        _ => {
            return Err(malformed(raw));
        },
    };
    let ghost ms = members@.map_values(|m: (String, String)| (m.0@, m.1@));
    let code = match text_of_member(&members, "code") {
        Some(c) => c,
        None => {
            return Err(malformed(raw));
        },
    };
    let msg = match text_of_member(&members, "msg") {
        Some(m) => m,
        None => {
            return Err(malformed(raw));
        },
    };
    let data = match find_member(&members, "data") {
        Some(t) => match parse_json(t.as_str()) {
            Some(JsonNode::Null) => None,
            _ => Some(t),
        },
        None => None,
    };
    assert(payload_of(ms) == opt_text_view(data));
    Ok(Envelope { code, msg, data })
}

/// Requests whose payload is optional: the payload's JSON text on success,
/// `ApiError` with the vendor's message on any other status code.
pub fn request_raw(path: &str, raw: &str) -> (r: Result<Option<String>, ClientError>)
    ensures
        match (r, raw_outcome(path@, raw@)) {
            (Ok(d), Ok(want)) => opt_text_view(d) == want,
            (Err(e), Err(want)) => e@ == want,
            _ => false,
        },
{
    let env = decode_envelope(raw)?;
    if !str_eq(env.code.as_str(), SUCCESS_CODE) {
        return Err(ClientError::ApiError { path: string_of(path), message: env.msg });
    }
    Ok(env.data)
}

/// A shape that a payload can be decoded into.
pub trait FromJson: Sized + View {
    /// The value that a JSON text decodes to, `None` where it has another shape.
    spec fn decoded(text: Seq<char>) -> Option<Self::V>;

    /// The shape's name, as given in `SchemaMismatch`.
    spec fn shape() -> Seq<char>;

    fn from_json(text: &str) -> (r: Option<Self>)
        ensures
            match r {
                Some(v) => Self::decoded(text@) == Some(v@),
                None => Self::decoded(text@) is None,
            },
    ;

    fn shape_name() -> (r: String)
        ensures
            r@ == Self::shape(),
    ;
}

/// What the typed request layer makes of a raw body for a request to `path`.
pub open spec fn typed_outcome<T: FromJson>(path: Seq<char>, raw: Seq<char>) -> Result<T::V, ErrorView> {
    match raw_outcome(path, raw) {
        Err(e) => Err(e),
        Ok(None) => Err(ErrorView::MissingData { path }),
        Ok(Some(data)) => match T::decoded(data) {
            Some(v) => Ok(v),
            None => Err(ErrorView::SchemaMismatch { path, expected: T::shape() }),
        },
    }
}

/// Requests that expect a payload of shape `T`: `MissingData` where a
/// successful envelope has none, `SchemaMismatch` where it has another shape.
pub fn request_typed<T: FromJson>(path: &str, raw: &str) -> (r: Result<T, ClientError>)
    ensures
        match (r, typed_outcome::<T>(path@, raw@)) {
            (Ok(v), Ok(want)) => v@ == want,
            (Err(e), Err(want)) => e@ == want,
            _ => false,
        },
{
    let data = match request_raw(path, raw)? {
        Some(d) => d,
        None => {
            return Err(ClientError::MissingData { path: string_of(path) });
        },
    };
    match T::from_json(data.as_str()) {
        Some(v) => Ok(v),
        None => Err(ClientError::SchemaMismatch { path: string_of(path), expected: T::shape_name() }),
    }
}

/// A JSON array of `T`.
#[derive(Debug, Clone)]
pub struct List<T> {
    pub items: Vec<T>,
}

impl<T: View> View for List<T> {
    type V = Seq<T::V>;

    open spec fn view(&self) -> Seq<T::V> {
        self.items@.map_values(|x: T| x@)
    }
}

/// The elements of a JSON text that is an array.
pub open spec fn array_items(text: Seq<char>) -> Option<Seq<Seq<char>>> {
    match json_node_of(text) {
        Some(JsonView::Array(items)) => Some(items),
        _ => None,
    }
}

pub open spec fn all_decode<T: FromJson>(items: Seq<Seq<char>>) -> bool {
    forall|i: int| 0 <= i < items.len() ==> (#[trigger] T::decoded(items[i])) is Some
}

impl<T: FromJson> FromJson for List<T> {
    open spec fn decoded(text: Seq<char>) -> Option<Seq<T::V>> {
        match array_items(text) {
            Some(items) => if all_decode::<T>(items) {
                Some(items.map_values(|t: Seq<char>| T::decoded(t)->0))
            } else {
                None
            },
            None => None,
        }
    }

    open spec fn shape() -> Seq<char> {
        "list of "@ + T::shape()
    }

    fn from_json(text: &str) -> (r: Option<List<T>>) {
        let node = parse_json(text);
        let items = match node {
            Some(JsonNode::Array(items)) => items,
            _ => {
                return None;
            },
        };
        let ghost iv = items@.map_values(|t: String| t@);
        let mut out: Vec<T> = Vec::new();
        let mut i: usize = 0;
        while i < items.len()
            invariant
                i <= items@.len(),
                iv == items@.map_values(|t: String| t@),
                json_node_of(text@) == Some(JsonView::Array(iv)),
                forall|j: int| 0 <= j < i ==> (#[trigger] T::decoded(iv[j])) is Some,
                out@.len() == i,
                forall|j: int| 0 <= j < i ==> (#[trigger] out@[j])@ == T::decoded(iv[j])->0,
            decreases items.len() - i,
        {
            assert(iv[i as int] == items@[i as int]@);
            match T::from_json(items[i].as_str()) {
                Some(v) => {
                    out.push(v);
                },
                None => {
                    assert(T::decoded(iv[i as int]) is None);
                    assert(!all_decode::<T>(iv));
                    return None;
                },
            }
            i = i + 1;
        }
        assert(out@.map_values(|x: T| x@) =~= iv.map_values(|t: Seq<char>| T::decoded(t)->0));
        Some(List { items: out })
    }

    fn shape_name() -> (r: String) {
        let mut s = "list of ".to_owned();
        let inner = T::shape_name();
        s.append(inner.as_str());
        s
    }
}

impl FromJson for String {
    open spec fn decoded(text: Seq<char>) -> Option<Seq<char>> {
        match json_node_of(text) {
            Some(JsonView::Text(s)) => Some(s),
            _ => None,
        }
    }

    open spec fn shape() -> Seq<char> {
        "string"@
    }

    fn from_json(text: &str) -> (r: Option<String>) {
        match parse_json(text) {
            Some(JsonNode::Text(s)) => Some(s),
            _ => None,
        }
    }

    fn shape_name() -> (r: String) {
        "string".to_owned()
    }
}

/// The member under `key` of an object's members, decoded as `T`.
pub open spec fn member_decoded<T: FromJson>(members: Seq<(Seq<char>, Seq<char>)>, key: Seq<char>) -> Option<T::V> {
    match member(members, key) {
        Some(t) => T::decoded(t),
        None => None,
    }
}

/// A member that may be missing or `null`: `Some(None)` then, `Some(Some(v))`
/// where it decodes as `T`, `None` where it has another shape.
pub open spec fn optional_member<T: FromJson>(members: Seq<(Seq<char>, Seq<char>)>, key: Seq<char>) -> Option<
    Option<T::V>,
> {
    match member(members, key) {
        None => Some(None),
        Some(t) => if json_node_of(t) == Some(JsonView::Null) {
            Some(None)
        } else {
            match T::decoded(t) {
                Some(v) => Some(Some(v)),
                None => None,
            }
        },
    }
}

/// Decodes the member under `key` as `T`.
pub fn decode_member<T: FromJson>(members: &Vec<(String, String)>, key: &str) -> (r: Option<T>)
    ensures
        match r {
            Some(v) => member_decoded::<T>(members@.map_values(|m: (String, String)| (m.0@, m.1@)), key@)
                == Some(v@),
            None => member_decoded::<T>(members@.map_values(|m: (String, String)| (m.0@, m.1@)), key@) is None,
        },
{
    match find_member(members, key) {
        Some(t) => T::from_json(t.as_str()),
        None => None,
    }
}

/// Decodes a member that may be missing or `null`.
pub fn decode_optional_member<T: FromJson>(members: &Vec<(String, String)>, key: &str) -> (r: Option<
    Option<T>,
>)
    ensures
        match r {
            Some(Some(v)) => optional_member::<T>(members@.map_values(|m: (String, String)| (m.0@, m.1@)), key@)
                == Some(Some(v@)),
            Some(None) => optional_member::<T>(members@.map_values(|m: (String, String)| (m.0@, m.1@)), key@)
                == Some(None::<T::V>),
            None => optional_member::<T>(members@.map_values(|m: (String, String)| (m.0@, m.1@)), key@) is None,
        },
{
    match find_member(members, key) {
        None => Some(None),
        Some(t) => match parse_json(t.as_str()) {
            Some(JsonNode::Null) => Some(None),
            _ => match T::from_json(t.as_str()) {
                Some(v) => Some(Some(v)),
                None => None,
            },
        },
    }
}

} // verus!
