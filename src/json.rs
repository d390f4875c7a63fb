//! One level of a JSON document at a time.
//!
//! Parsing is serde_json's work. The library keeps the top-level node of a
//! document and writes each child back as JSON text of its own, so that every
//! decision it makes on a response reads plain strings and can be proved.
use vstd::prelude::*;

verus! {

/// The top-level node of a JSON document, with every child kept as JSON text.
#[derive(Debug, Clone)]
pub enum JsonNode {
    Null,
    Bool(bool),
    /// The number as serde_json writes it.
    Number(String),
    Text(String),
    /// Each element as JSON text.
    Array(Vec<String>),
    /// Each member as its key and the JSON text of its value.
    Object(Vec<(String, String)>),
}

/// What a `JsonNode` holds, as mathematical values.
pub enum JsonView {
    Null,
    Bool(bool),
    Number(Seq<char>),
    Text(Seq<char>),
    Array(Seq<Seq<char>>),
    Object(Seq<(Seq<char>, Seq<char>)>),
}

impl View for JsonNode {
    type V = JsonView;

    open spec fn view(&self) -> JsonView {
        match self {
            JsonNode::Null => JsonView::Null,
            JsonNode::Bool(b) => JsonView::Bool(*b),
            JsonNode::Number(n) => JsonView::Number(n@),
            JsonNode::Text(s) => JsonView::Text(s@),
            JsonNode::Array(items) => JsonView::Array(items@.map_values(|t: String| t@)),
            JsonNode::Object(members) => JsonView::Object(
                members@.map_values(|m: (String, String)| (m.0@, m.1@)),
            ),
        }
    }
}

/// The top-level node that serde_json reads from a text, `None` where the text
/// is not one JSON document.
pub uninterp spec fn json_node_of(text: Seq<char>) -> Option<JsonView>;

/// The JSON string literal that serde_json writes for a text.
pub uninterp spec fn json_literal_of(s: Seq<char>) -> Seq<char>;

/// Relies on `serde_json::from_str` into `serde_json::Value` to parse one JSON
/// document, and on `Value`'s `Display` to write each child back as JSON text.
#[verifier::external_body]
fn parse_node(text: &str) -> (r: Option<JsonNode>)
    ensures
        match r {
            Some(n) => json_node_of(text@) == Some(n@),
            None => json_node_of(text@) is None,
        },
{
    match serde_json::from_str::<serde_json::Value>(text) {
        Err(_) => None,
        Ok(serde_json::Value::Null) => Some(JsonNode::Null),
        Ok(serde_json::Value::Bool(b)) => Some(JsonNode::Bool(b)),
        Ok(serde_json::Value::Number(n)) => Some(JsonNode::Number(n.to_string())),
        Ok(serde_json::Value::String(s)) => Some(JsonNode::Text(s)),
        Ok(serde_json::Value::Array(a)) => Some(JsonNode::Array(a.iter().map(|v| v.to_string()).collect())),
        Ok(serde_json::Value::Object(m)) => Some(JsonNode::Object(m.into_iter().map(|(k, v)| (k, v.to_string())).collect())),
    }
}

/// Relies on `serde_json::to_string` on a `str`: it writes the text as a JSON
/// string literal, which serde_json reads back as the same text.
#[verifier::external_body]
fn write_literal(s: &str) -> (r: String)
    ensures
        r@ == json_literal_of(s@),
        json_node_of(r@) == Some(JsonView::Text(s@)),
{
    serde_json::to_string(s).unwrap_or_default()
}

/// Relies on `serde_json::Value::to_string` of an object of string members: a
/// JSON object text that serde_json reads back with each member's text.
#[verifier::external_body]
fn write_object(members: &Vec<(String, String)>) -> (r: String)
    requires
        forall|i: int, j: int|
            0 <= i < j < members@.len() ==> members@[i].0@ != members@[j].0@,
    ensures
        object_members(r@) is Some,
        forall|i: int|
            0 <= i < members@.len() ==> text_member(object_members(r@)->0, #[trigger] members@[i].0@)
                == Some(members@[i].1@),
{
    let m: serde_json::Map<String, serde_json::Value> = members.iter().map(|(k, v)| (k.clone(), serde_json::Value::String(v.clone()))).collect();
    serde_json::Value::Object(m).to_string()
}

/// The JSON object text with these string members, whose keys are distinct.
pub fn text_object(members: &Vec<(String, String)>) -> (r: String)
    requires
        forall|i: int, j: int|
            0 <= i < j < members@.len() ==> members@[i].0@ != members@[j].0@,
    ensures
        object_members(r@) is Some,
        forall|i: int|
            0 <= i < members@.len() ==> text_member(object_members(r@)->0, #[trigger] members@[i].0@)
                == Some(members@[i].1@),
{
    write_object(members)
}

/// Parses a JSON text down to its top-level node.
pub fn parse_json(text: &str) -> (r: Option<JsonNode>)
    ensures
        match r {
            Some(n) => json_node_of(text@) == Some(n@),
            None => json_node_of(text@) is None,
        },
{
    parse_node(text)
}

/// The JSON string literal for a text.
pub fn json_literal(s: &str) -> (r: String)
    ensures
        r@ == json_literal_of(s@),
        json_node_of(r@) == Some(JsonView::Text(s@)),
{
    write_literal(s)
}

/// The JSON text of the value under `key`, the first such member.
pub open spec fn member_from(members: Seq<(Seq<char>, Seq<char>)>, key: Seq<char>, i: int) -> Option<
    Seq<char>,
>
    decreases members.len() - i,
{
    if i < 0 || i >= members.len() {
        None
    } else if members[i].0 == key {
        Some(members[i].1)
    } else {
        member_from(members, key, i + 1)
    }
}

pub open spec fn member(members: Seq<(Seq<char>, Seq<char>)>, key: Seq<char>) -> Option<Seq<char>> {
    member_from(members, key, 0)
}

/// The members of a JSON text that is an object.
pub open spec fn object_members(text: Seq<char>) -> Option<Seq<(Seq<char>, Seq<char>)>> {
    match json_node_of(text) {
        Some(JsonView::Object(members)) => Some(members),
        _ => None,
    }
}

/// The text that a JSON text holds, where it is a string literal.
pub open spec fn text_value(text: Seq<char>) -> Option<Seq<char>> {
    match json_node_of(text) {
        Some(JsonView::Text(s)) => Some(s),
        _ => None,
    }
}

/// The text under `key` of an object's members, where that member is a string.
pub open spec fn text_member(members: Seq<(Seq<char>, Seq<char>)>, key: Seq<char>) -> Option<
    Seq<char>,
> {
    match member(members, key) {
        Some(t) => text_value(t),
        None => None,
    }
}

pub(crate) fn str_eq(a: &str, b: &str) -> (r: bool)
    ensures
        r == (a@ == b@),
{
    let n = a.unicode_len();
    if n != b.unicode_len() {
        return false;
    }
    let mut i: usize = 0;
    while i < n
        invariant
            n == a@.len(),
            n == b@.len(),
            i <= n,
            a@.subrange(0, i as int) == b@.subrange(0, i as int),
        decreases n - i,
    {
        if a.get_char(i) != b.get_char(i) {
            return false;
        }
        assert(a@.subrange(0, i + 1) == a@.subrange(0, i as int).push(a@[i as int]));
        assert(b@.subrange(0, i + 1) == b@.subrange(0, i as int).push(b@[i as int]));
        i = i + 1;
    }
    assert(a@ == a@.subrange(0, n as int));
    assert(b@ == b@.subrange(0, n as int));
    true
}

/// The JSON text of the first member under `key`.
pub fn find_member(members: &Vec<(String, String)>, key: &str) -> (r: Option<String>)
    ensures
        match r {
            Some(t) => member(members@.map_values(|m: (String, String)| (m.0@, m.1@)), key@)
                == Some(t@),
            None => member(members@.map_values(|m: (String, String)| (m.0@, m.1@)), key@) is None,
        },
{
    let ghost ms = members@.map_values(|m: (String, String)| (m.0@, m.1@));
    let mut i: usize = 0;
    while i < members.len()
        invariant
            i <= members.len(),
            ms == members@.map_values(|m: (String, String)| (m.0@, m.1@)),
            member(ms, key@) == member_from(ms, key@, i as int),
        decreases members.len() - i,
    {
        if str_eq(members[i].0.as_str(), key) {
            return Some(members[i].1.clone());
        }
        i = i + 1;
    }
    None
}

/// The text of a string member of an object text, `None` where the text is not
/// an object or the member is missing or not a string.
pub fn text_field(text: &str, key: &str) -> (r: Option<String>)
    ensures
        match r {
            Some(s) => object_members(text@) is Some && text_member(object_members(text@)->0, key@)
                == Some(s@),
            None => object_members(text@) is None || text_member(object_members(text@)->0, key@) is None,
        },
{
    match parse_json(text) {
        Some(JsonNode::Object(members)) => match find_member(&members, key) {
            Some(t) => match parse_json(t.as_str()) {
                Some(JsonNode::Text(s)) => Some(s),
                _ => None,
            },
            None => None,
        },
        _ => None,
    }
}

} // verus!
