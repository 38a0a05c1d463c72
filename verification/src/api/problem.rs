//! Reading RFC 7807 problem bodies into one human-readable message.

use vstd::prelude::*;

use crate::json::{json_get, json_get_str, parse_json, parsed_document, JsonValue};
use crate::text::{decimal, push_decimal, seq_join};

verus! {

/// The rendering of one entry of a problem's `errors` array:
/// `"{field}: {message} ({code})"`, with `invalid` for a missing code.
/// Entries without a string `field` or `message` render nothing.
pub open spec fn error_item_text(e: JsonValue) -> Option<Seq<char>> {
    match (json_get_str(e, "field"@), json_get_str(e, "message"@)) {
        (Some(field), Some(message)) => {
            let code = match json_get_str(e, "code"@) {
                Some(c) => c,
                None => "invalid"@,
            };
            Some(field + ": "@ + message + " ("@ + code + ")"@)
        },
        _ => None,
    }
}

/// The renderings of the entries that render, in order.
pub open spec fn error_item_texts(items: Seq<JsonValue>) -> Seq<Seq<char>>
    decreases items.len(),
{
    if items.len() == 0 {
        seq![]
    } else {
        let before = error_item_texts(items.drop_last());
        match error_item_text(items.last()) {
            Some(t) => before.push(t),
            None => before,
        }
    }
}

/// The `errors` entries joined with `"; "`, when the body has a non-empty
/// `errors` array whose entries render to a non-empty text.
pub open spec fn errors_message(v: JsonValue) -> Option<Seq<char>> {
    match json_get(v, "errors"@) {
        Some(JsonValue::Array(items)) => {
            let joined = seq_join(error_item_texts(items@), "; "@);
            if items@.len() > 0 && joined.len() > 0 {
                Some(joined)
            } else {
                None
            }
        },
        _ => None,
    }
}

/// The message a problem document carries, in the fixed order: the
/// `errors` entries, then `detail`, `title`, the legacy `error` and
/// `message` keys (each only when it is a string).
pub open spec fn document_message(v: JsonValue) -> Option<Seq<char>> {
    if errors_message(v) is Some {
        errors_message(v)
    } else if json_get_str(v, "detail"@) is Some {
        json_get_str(v, "detail"@)
    } else if json_get_str(v, "title"@) is Some {
        json_get_str(v, "title"@)
    } else if json_get_str(v, "error"@) is Some {
        json_get_str(v, "error"@)
    } else {
        json_get_str(v, "message"@)
    }
}

/// The message for a failing answer: the document's message, or
/// `"HTTP {status}"` when the body is not JSON or carries none.
pub open spec fn problem_message_spec(parsed: Option<JsonValue>, status: u16) -> Seq<char> {
    match parsed {
        Some(v) => match document_message(v) {
            Some(m) => m,
            None => "HTTP "@ + decimal(status as nat),
        },
        None => "HTTP "@ + decimal(status as nat),
    }
}

/// The order in which a problem body is read: rendered `errors` entries
/// win over everything else, then `detail`, then `title`; a body that is
/// not JSON, or that carries no message at all, reads as `HTTP {status}`.
pub proof fn lemma_problem_message_precedence(parsed: Option<JsonValue>, status: u16)
    ensures
        parsed is None ==> problem_message_spec(parsed, status) == "HTTP "@ + decimal(status as nat),
        parsed is Some && errors_message(parsed->0) is Some ==> problem_message_spec(parsed, status)
            == errors_message(parsed->0)->0,
        parsed is Some && errors_message(parsed->0) is None && json_get_str(parsed->0, "detail"@) is Some
            ==> problem_message_spec(parsed, status) == json_get_str(parsed->0, "detail"@)->0,
        parsed is Some && errors_message(parsed->0) is None && json_get_str(parsed->0, "detail"@) is None
            && json_get_str(parsed->0, "title"@) is Some ==> problem_message_spec(parsed, status)
            == json_get_str(parsed->0, "title"@)->0,
        parsed is Some && document_message(parsed->0) is None ==> problem_message_spec(parsed, status)
            == "HTTP "@ + decimal(status as nat),
{
}

/// The text of the string member `key` of `v`, as a new string.
fn member_text(v: &JsonValue, key: &str) -> (r: Option<String>)
    ensures
        r is Some == json_get_str(*v, key@) is Some,
        r is Some ==> r->0@ == json_get_str(*v, key@)->0,
{
    match v.get(key) {
        Some(x) => match x.as_str() {
            Some(s) => Some(String::from_str(s)),
            None => None,
        },
        None => None,
    }
}

/// Renders one `errors` entry.
fn render_error_item(e: &JsonValue) -> (r: Option<String>)
    ensures
        r is Some == error_item_text(*e) is Some,
        r is Some ==> r->0@ == error_item_text(*e)->0,
{
    let field = member_text(e, "field");
    let message = member_text(e, "message");
    match (field, message) {
        (Some(field), Some(message)) => {
            let mut out = field;
            out.append(": ");
            out.append(message.as_str());
            out.append(" (");
            match member_text(e, "code") {
                Some(code) => out.append(code.as_str()),
                None => out.append("invalid"),
            }
            out.append(")");
            Some(out)
        },
        _ => None,
    }
}

/// Joins the renderings of the entries of an `errors` array with `"; "`.
fn render_error_items(items: &Vec<JsonValue>) -> (r: String)
    ensures
        r@ == seq_join(error_item_texts(items@), "; "@),
{
    let mut out = String::new();
    let mut count: usize = 0;
    let n = items.len();
    let mut i: usize = 0;
    while i < n
        invariant
            n == items@.len(),
            i <= n,
            count <= i,
            count == error_item_texts(items@.take(i as int)).len(),
            out@ == seq_join(error_item_texts(items@.take(i as int)), "; "@),
        decreases n - i,
    {
        assert(items@.take(i + 1).drop_last() =~= items@.take(i as int));
        assert(items@.take(i + 1).last() == items@[i as int]);
        let ghost before = error_item_texts(items@.take(i as int));
        proof {
            lemma_item_texts_len(items@.take(i as int));
        }
        match render_error_item(&items[i]) {
            Some(t) => {
                assert(before.push(t@).drop_last() =~= before);
                if count != 0 {
                    out.append("; ");
                }
                out.append(t.as_str());
                count = count + 1;
            },
            None => {},
        }
        i = i + 1;
    }
    assert(items@.take(n as int) =~= items@);
    out
}

/// There are never more renderings than entries.
proof fn lemma_item_texts_len(items: Seq<JsonValue>)
    ensures
        error_item_texts(items).len() <= items.len(),
    decreases items.len(),
{
    if items.len() > 0 {
        lemma_item_texts_len(items.drop_last());
    }
}

/// Picks the message of a parsed problem document (see
/// [`problem_message_spec`]); `status` is used when nothing else is found.
pub fn problem_message(parsed: &Option<JsonValue>, status: u16) -> (r: String)
    ensures
        r@ == problem_message_spec(*parsed, status),
{
    match parsed {
        Some(v) => {
            match v.get("errors") {
                Some(errs) => match errs.as_array() {
                    Some(items) => {
                        if items.len() > 0 {
                            let joined = render_error_items(items);
                            if joined.unicode_len() > 0 {
                                return joined;
                            }
                        }
                    },
                    None => {},
                },
                None => {},
            }
            if let Some(d) = member_text(v, "detail") {
                return d;
            }
            if let Some(t) = member_text(v, "title") {
                return t;
            }
            if let Some(e) = member_text(v, "error") {
                return e;
            }
            if let Some(m) = member_text(v, "message") {
                return m;
            }
        },
        None => {},
    }
    let mut out = String::from_str("HTTP ");
    push_decimal(&mut out, status as u64);
    out
}

/// Extracts a human-readable message from an RFC 7807 problem body: the
/// joined `errors` entries, else `detail`, `title`, `error`, `message`, else
/// `"HTTP {status}"`. Total: a non-JSON body yields the status form.
pub fn parse_rfc7807(body: &str, status: u16) -> (r: String)
    ensures
        r@ == problem_message_spec(parsed_document(body@), status),
{
    let parsed = match parse_json(body) {
        Ok(v) => Some(v),
        Err(_) => None,
    };
    problem_message(&parsed, status)
}

} // verus!
