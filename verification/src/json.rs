//! A plain model of JSON documents, read through `serde_json`.
//!
//! The server's problem bodies and the client's raw request payloads are
//! handled as [`JsonValue`] trees; `serde_json` does the parsing.

use vstd::prelude::*;

use crate::keyed::{lookup, lemma_lookup_small};
use crate::text::str_eq;

verus! {

#[verifier::external_type_specification]
#[verifier::external_body]
pub struct ExJsonDocument(serde_json::Value);

/// A JSON document. Numbers keep the text `serde_json` renders for them.
/// Object members are kept in a sequence; a document parsed by
/// `serde_json` lists each key once, in the order of its map (sorted by
/// key).
#[derive(Debug, PartialEq, Eq)]
pub enum JsonValue {
    Null,
    Bool(bool),
    Number(String),
    Str(String),
    Array(Vec<JsonValue>),
    Object(Vec<(String, JsonValue)>),
}

/// The value of the first member named `key` among `members`.
pub open spec fn member(members: Seq<(String, JsonValue)>, key: Seq<char>) -> Option<JsonValue>
    decreases members.len(),
{
    if members.len() == 0 {
        None
    } else if members[0].0@ == key {
        Some(members[0].1)
    } else {
        member(members.drop_first(), key)
    }
}

/// The member `key` of an object; `None` for every other kind of value.
pub open spec fn json_get(v: JsonValue, key: Seq<char>) -> Option<JsonValue> {
    match v {
        JsonValue::Object(members) => member(members@, key),
        _ => None,
    }
}

/// The text of a string value; `None` for every other kind of value.
pub open spec fn json_str(v: JsonValue) -> Option<Seq<char>> {
    match v {
        JsonValue::Str(s) => Some(s@),
        _ => None,
    }
}

/// The text of the string member `key` of an object, if there is one.
pub open spec fn json_get_str(v: JsonValue, key: Seq<char>) -> Option<Seq<char>> {
    match json_get(v, key) {
        Some(x) => json_str(x),
        None => None,
    }
}

/// What `serde_json` makes of `text`: the document it parses, or the
/// message of the error it reports.
pub uninterp spec fn json_parse(text: Seq<char>) -> Result<JsonValue, Seq<char>>;

/// The document parsed from `text`, if it is valid JSON.
pub open spec fn parsed_document(text: Seq<char>) -> Option<JsonValue> {
    match json_parse(text) {
        Ok(v) => Some(v),
        Err(_) => None,
    }
}

/// Parses `text` with `serde_json::from_str` into a `serde_json::Value`
/// and converts it into the plain model, variant for variant; on failure
/// returns the error's `Display` text. The contract only names the
/// result: whatever `serde_json` makes of `text`.
#[verifier::external_body]
pub(crate) fn parse_json(text: &str) -> (r: Result<JsonValue, String>)
    ensures
        match r {
            Ok(v) => json_parse(text@) == Ok::<JsonValue, Seq<char>>(v),
            Err(e) => json_parse(text@) == Err::<JsonValue, Seq<char>>(e@),
        },
{
    match serde_json::from_str::<serde_json::Value>(text) {
        Ok(v) => Ok(from_document(v)),
        Err(e) => Err(e.to_string()),
    }
}

/// Converts a parsed `serde_json::Value` into the plain model, one variant
/// for each variant; numbers keep their `Display` text.
#[verifier::external_body]
fn from_document(v: serde_json::Value) -> JsonValue {
    match v {
        serde_json::Value::Null => JsonValue::Null,
        serde_json::Value::Bool(b) => JsonValue::Bool(b),
        serde_json::Value::Number(n) => JsonValue::Number(n.to_string()),
        serde_json::Value::String(s) => JsonValue::Str(s),
        serde_json::Value::Array(a) => JsonValue::Array(a.into_iter().map(from_document).collect()),
        serde_json::Value::Object(m) => JsonValue::Object(
            m.into_iter().map(|(k, x)| (k, from_document(x))).collect(),
        ),
    }
}

/// The compact text `serde_json` renders for a document (its `Display`).
pub uninterp spec fn json_text(v: JsonValue) -> Seq<char>;

/// Renders `v` as `serde_json` displays a `serde_json::Value`: the model is
/// converted back variant for variant (a number from its text) and
/// formatted compactly. The contract only names the result: whatever
/// `serde_json` renders for `v`.
#[verifier::external_body]
pub(crate) fn render_json(v: &JsonValue) -> (r: String)
    ensures
        r@ == json_text(*v),
{
    to_document(v).to_string()
}

/// Converts the plain model back into a `serde_json::Value`, one variant
/// for each variant; a number text that is not a JSON number becomes
/// `null` (parsed documents never hold one).
#[verifier::external_body]
fn to_document(v: &JsonValue) -> serde_json::Value {
    match v {
        JsonValue::Null => serde_json::Value::Null,
        JsonValue::Bool(b) => serde_json::Value::Bool(*b),
        JsonValue::Number(n) => n.parse::<serde_json::Number>().map_or(serde_json::Value::Null, serde_json::Value::Number),
        JsonValue::Str(s) => serde_json::Value::String(s.clone()),
        JsonValue::Array(a) => serde_json::Value::Array(a.iter().map(to_document).collect()),
        JsonValue::Object(m) => serde_json::Value::Object(
            m.iter().map(|(k, x)| (k.clone(), to_document(x))).collect(),
        ),
    }
}

/// The members of an object with their keys read as text.
pub open spec fn member_views(m: Seq<(String, JsonValue)>) -> Seq<(Seq<char>, JsonValue)> {
    m.map_values(|x: (String, JsonValue)| (x.0@, x.1))
}

/// The member an optional text contributes: a string member when set,
/// nothing otherwise.
pub open spec fn opt_str_entry(key: Seq<char>, v: Option<String>) -> Seq<(Seq<char>, JsonValue)> {
    match v {
        Some(s) => seq![(key, JsonValue::Str(s))],
        None => seq![],
    }
}

/// The member an optional value contributes: the value when set, nothing
/// otherwise.
pub open spec fn opt_entry(key: Seq<char>, v: Option<JsonValue>) -> Seq<(Seq<char>, JsonValue)> {
    match v {
        Some(x) => seq![(key, x)],
        None => seq![],
    }
}

/// The value an optional text is sent as: a string, when set.
pub open spec fn opt_str_value(v: Option<String>) -> Option<JsonValue> {
    match v {
        Some(s) => Some(JsonValue::Str(s)),
        None => None,
    }
}

/// What is found under each key in the member an optional text or value
/// contributes.
pub proof fn lemma_lookup_opt_entries(key: Seq<char>, text: Option<String>, value: Option<JsonValue>)
    ensures
        forall|k: Seq<char>|
            #[trigger] lookup(opt_str_entry(key, text), k) == (if k == key {
                opt_str_value(text)
            } else {
                None
            }),
        forall|k: Seq<char>|
            #[trigger] lookup(opt_entry(key, value), k) == (if k == key {
                value
            } else {
                None
            }),
{
    lemma_lookup_small(key, JsonValue::Null);
    match text {
        Some(s) => lemma_lookup_small(key, JsonValue::Str(s)),
        None => {},
    }
    match value {
        Some(x) => lemma_lookup_small(key, x),
        None => {},
    }
}

/// Whether no two members share a key.
pub open spec fn keys_distinct(m: Seq<(Seq<char>, JsonValue)>) -> bool {
    forall|i: int, j: int| 0 <= i < j < m.len() ==> (#[trigger] m[i]).0 != (#[trigger] m[j]).0
}

/// Appends one member.
pub(crate) fn push_member(members: &mut Vec<(String, JsonValue)>, key: &str, value: JsonValue)
    ensures
        member_views(final(members)@) == member_views(old(members)@).push((key@, value)),
        final(members)@.take(old(members)@.len() as int) == old(members)@,
        final(members)@.len() == old(members)@.len() + 1,
        final(members)@.last().0@ == key@,
        final(members)@.last().1 == value,
{
    members.push((String::from_str(key), value));
    assert(member_views(final(members)@) =~= member_views(old(members)@).push((key@, value)));
    assert(final(members)@.take(old(members)@.len() as int) =~= old(members)@);
}

/// Appends a string member when the text is set.
pub(crate) fn push_opt_str(members: &mut Vec<(String, JsonValue)>, key: &str, value: &Option<String>)
    ensures
        member_views(final(members)@) == member_views(old(members)@) + opt_str_entry(key@, *value),
{
    match value {
        Some(v) => push_member(members, key, JsonValue::Str(v.clone())),
        None => {},
    }
    assert(member_views(final(members)@) =~= member_views(old(members)@) + opt_str_entry(
        key@,
        *value,
    ));
}

/// Appends a member when the value is set.
pub(crate) fn push_opt(members: &mut Vec<(String, JsonValue)>, key: &str, value: Option<JsonValue>)
    ensures
        member_views(final(members)@) == member_views(old(members)@) + opt_entry(key@, value),
{
    let ghost v = value;
    match value {
        Some(x) => push_member(members, key, x),
        None => {},
    }
    assert(member_views(final(members)@) =~= member_views(old(members)@) + opt_entry(key@, v));
}

impl JsonValue {
    /// The member `key` of an object (`None` for other values).
    pub fn get(&self, key: &str) -> (r: Option<&JsonValue>)
        ensures
            r is Some == json_get(*self, key@) is Some,
            r is Some ==> *r->0 == json_get(*self, key@)->0,
    {
        match self {
            JsonValue::Object(members) => {
                let n = members.len();
                let mut i: usize = 0;
                assert(members@.skip(0) =~= members@);
                while i < n
                    invariant
                        n == members@.len(),
                        json_get(*self, key@) == member(members@, key@),
                        i <= n,
                        member(members@, key@) == member(members@.skip(i as int), key@),
                    decreases n - i,
                {
                    assert(members@.skip(i as int).drop_first() =~= members@.skip(i + 1));
                    assert(members@.skip(i as int)[0] == members@[i as int]);
                    if str_eq(members[i].0.as_str(), key) {
                        return Some(&members[i].1);
                    }
                    i = i + 1;
                }
                None
            },
            _ => None,
        }
    }

    /// The text of a string value (`None` for other values).
    pub fn as_str(&self) -> (r: Option<&str>)
        ensures
            r is Some == json_str(*self) is Some,
            r is Some ==> r->0@ == json_str(*self)->0,
    {
        match self {
            JsonValue::Str(s) => Some(s.as_str()),
            _ => None,
        }
    }

    /// The elements of an array (`None` for other values).
    pub fn as_array(&self) -> (r: Option<&Vec<JsonValue>>)
        ensures
            r is Some == self is Array,
            r is Some ==> *r->0 == self->Array_0,
    {
        match self {
            JsonValue::Array(items) => Some(items),
            _ => None,
        }
    }

    /// Whether this is the `null` value.
    pub fn is_null(&self) -> (r: bool)
        ensures
            r == self is Null,
    {
        match self {
            JsonValue::Null => true,
            _ => false,
        }
    }
}

} // verus!
