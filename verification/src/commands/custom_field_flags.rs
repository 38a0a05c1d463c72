//! The custom fields given on the command line to create and update
//! commands: `--custom-field key=value` (repeatable) or
//! `--custom-field-json` (one raw JSON object), never both.

use vstd::prelude::*;
use vstd::string::*;

use crate::error::{err_view, CliError, CliErrorView, ErrorKind};
use crate::json::{json_parse, parse_json, JsonValue};
use crate::text::{concat2, concat3, owned};

verus! {

/// Whether `i` is the position of the first `=` of `s`.
pub open spec fn is_first_eq(s: Seq<char>, i: int) -> bool {
    0 <= i < s.len() && s[i] == '=' && forall|j: int| 0 <= j < i ==> s[j] != '='
}

/// The key and the value of a `key=value` flag: the text before and after
/// its first `=`; `None` when it has no `=`.
pub open spec fn split_flag(s: Seq<char>) -> Option<(Seq<char>, Seq<char>)> {
    if exists|i: int| is_first_eq(s, i) {
        let i = choose|i: int| is_first_eq(s, i);
        Some((s.take(i), s.skip(i + 1)))
    } else {
        None
    }
}

/// The key/value pairs of the `--custom-field` flags, in order, or the
/// first flag that has no `=`.
pub open spec fn flag_pairs_spec(flags: Seq<Seq<char>>) -> Result<Seq<(Seq<char>, Seq<char>)>, Seq<char>>
    decreases flags.len(),
{
    if flags.len() == 0 {
        Ok(seq![])
    } else {
        match flag_pairs_spec(flags.drop_last()) {
            Err(p) => Err(p),
            Ok(rest) => match split_flag(flags.last()) {
                None => Err(flags.last()),
                Some(kv) => Ok(rest.push(kv)),
            },
        }
    }
}

/// Splitting `--custom-field` flags loses nothing and cuts at the first
/// `=`: when every flag splits, there is one pair per flag, in order, each
/// key holds no `=`, and key, `=` and value put back together give the
/// flag; otherwise the failure names a given flag that holds no `=`.
pub proof fn lemma_flag_pairs_rebuild_the_flags(flags: Seq<Seq<char>>)
    ensures
        flag_pairs_spec(flags) is Ok ==> ({
            let pairs = flag_pairs_spec(flags)->Ok_0;
            &&& pairs.len() == flags.len()
            &&& forall|i: int|
                0 <= i < flags.len() ==> (#[trigger] pairs[i]).0 + seq!['='] + pairs[i].1 == flags[i]
                    && !pairs[i].0.contains('=')
        }),
        flag_pairs_spec(flags) is Err ==> flags.contains(flag_pairs_spec(flags)->Err_0)
            && !flag_pairs_spec(flags)->Err_0.contains('='),
    decreases flags.len(),
{
    if flags.len() > 0 {
        lemma_flag_pairs_rebuild_the_flags(flags.drop_last());
        let last = flags.last();
        match flag_pairs_spec(flags.drop_last()) {
            Err(p) => {
                assert(flags.drop_last().contains(p));
                let k = choose|k: int| 0 <= k < flags.drop_last().len() && flags.drop_last()[k] == p;
                assert(flags[k] == p);
            },
            Ok(rest) => {
                if exists|i: int| is_first_eq(last, i) {
                    let i = choose|i: int| is_first_eq(last, i);
                    let pairs = rest.push((last.take(i), last.skip(i + 1)));
                    assert(last.take(i) + seq!['='] + last.skip(i + 1) =~= last);
                    assert(!last.take(i).contains('=')) by {
                        if last.take(i).contains('=') {
                            let j = choose|j: int| 0 <= j < last.take(i).len() && last.take(i)[j] == '=';
                            assert(last[j] == '=');
                        }
                    }
                    assert forall|j: int|
                        0 <= j < flags.len() implies (#[trigger] pairs[j]).0 + seq!['='] + pairs[j].1
                        == flags[j] && !pairs[j].0.contains('=') by {
                        if j < flags.len() - 1 {
                            assert(pairs[j] == rest[j]);
                            assert(flags[j] == flags.drop_last()[j]);
                        }
                    }
                } else {
                    assert(flags[flags.len() - 1] == last);
                    assert(!last.contains('=')) by {
                        if last.contains('=') {
                            let j = choose|j: int| 0 <= j < last.len() && last[j] == '=';
                            lemma_first_eq_exists(last, j);
                        }
                    }
                }
            },
        }
    }
}

/// A text with an `=` has a first one.
proof fn lemma_first_eq_exists(s: Seq<char>, j: int)
    requires
        0 <= j < s.len(),
        s[j] == '=',
    ensures
        exists|i: int| is_first_eq(s, i),
    decreases j,
{
    if forall|k: int| 0 <= k < j ==> s[k] != '=' {
        assert(is_first_eq(s, j));
    } else {
        let k = choose|k: int| 0 <= k < j && s[k] == '=';
        lemma_first_eq_exists(s, k);
    }
}

/// A failure on a prefix of the flags is the failure of all of them.
proof fn lemma_flag_error_propagates(flags: Seq<Seq<char>>, k: int)
    requires
        0 <= k <= flags.len(),
        flag_pairs_spec(flags.take(k)) is Err,
    ensures
        flag_pairs_spec(flags) == flag_pairs_spec(flags.take(k)),
    decreases flags.len() - k,
{
    if k < flags.len() {
        assert(flags.drop_last().take(k) =~= flags.take(k));
        lemma_flag_error_propagates(flags.drop_last(), k);
    } else {
        assert(flags.take(k) =~= flags);
    }
}

/// Whether every member of `m` is a string, and the keys and texts are
/// `kvs`, in order.
pub open spec fn string_members_are(m: Seq<(String, JsonValue)>, kvs: Seq<(Seq<char>, Seq<char>)>) -> bool {
    &&& m.len() == kvs.len()
    &&& forall|i: int|
        0 <= i < m.len() ==> (#[trigger] m[i]).1 is Str && m[i].0@ == kvs[i].0 && m[i].1->Str_0@
            == kvs[i].1
}

/// The rejection of both custom-field flags at once.
pub open spec fn exclusive_flags_error() -> CliErrorView {
    err_view(
        ErrorKind::InvalidInput,
        "--custom-field and --custom-field-json are mutually exclusive"@,
        "Use one of them."@,
    )
}

/// The hint attached to a rejected `--custom-field-json`.
pub open spec fn object_hint() -> Seq<char> {
    "Pass a JSON object, e.g. '{\"tier\":\"gold\"}'"@
}

/// Splits one flag at its first `=`.
fn split_one(flag: &str) -> (r: Option<(String, String)>)
    ensures
        r is Some <==> split_flag(flag@) is Some,
        r is Some ==> {
            let (k, v) = r->0;
            let (sk, sv) = split_flag(flag@)->0;
            k@ == sk && v@ == sv
        },
{
    let n = flag.unicode_len();
    let mut i: usize = 0;
    while i < n
        invariant
            n == flag@.len(),
            i <= n,
            forall|j: int| 0 <= j < i ==> flag@[j] != '=',
        decreases n - i,
    {
        if flag.get_char(i) == '=' {
            proof {
                assert(is_first_eq(flag@, i as int));
                let c = choose|c: int| is_first_eq(flag@, c);
                assert(c == i as int) by {
                    if c < i {
                        assert(flag@[c] != '=');
                    } else if c > i {
                        assert(flag@[i as int] != '=');
                    }
                }
            }
            let key = flag.substring_char(0, i);
            let value = flag.substring_char(i + 1, n);
            assert(key@ =~= flag@.take(i as int));
            assert(value@ =~= flag@.skip(i + 1));
            return Some((owned(key), owned(value)));
        }
        i = i + 1;
    }
    assert(!exists|c: int| is_first_eq(flag@, c)) by {
        if exists|c: int| is_first_eq(flag@, c) {
            let c = choose|c: int| is_first_eq(flag@, c);
            assert(flag@[c] != '=');
        }
    }
    None
}

/// Resolves the custom-field flags: nothing when neither is given; the
/// object of `--custom-field-json` verbatim (it must be JSON, and a JSON
/// object); otherwise an object with one string member per `key=value`
/// flag, in order. The two flags exclude each other.
pub fn resolve_custom_field_flags(flags: &Vec<String>, raw: &Option<String>) -> (r: Result<
    Option<JsonValue>,
    CliError,
>)
    ensures
        raw is Some && flags@.len() > 0 ==> r is Err && r->Err_0@ == exclusive_flags_error(),
        raw is None && flags@.len() == 0 ==> r == Ok::<Option<JsonValue>, CliError>(None),
        raw is Some && flags@.len() == 0 ==> match json_parse(raw->0@) {
            Err(e) => r is Err && r->Err_0@ == err_view(
                ErrorKind::InvalidInput,
                "Invalid JSON for --custom-field-json: "@ + e,
                object_hint(),
            ),
            Ok(v) => if v is Object {
                r == Ok::<Option<JsonValue>, CliError>(Some(v))
            } else {
                r is Err && r->Err_0@ == err_view(
                    ErrorKind::InvalidInput,
                    "--custom-field-json must be a JSON object"@,
                    object_hint(),
                )
            },
        },
        raw is None && flags@.len() > 0 ==> match flag_pairs_spec(flags@.map_values(|f: String| f@)) {
            Err(p) => r is Err && r->Err_0@ == err_view(
                ErrorKind::InvalidInput,
                "Invalid --custom-field '"@ + p + "'"@,
                "Use key=value"@,
            ),
            Ok(kvs) => r is Ok && r->Ok_0 is Some && r->Ok_0->0 is Object && string_members_are(
                r->Ok_0->0->Object_0@,
                kvs,
            ),
        },
{
    match raw {
        Some(text) => {
            if flags.len() > 0 {
                return Err(
                    CliError::InvalidInput {
                        detail: owned("--custom-field and --custom-field-json are mutually exclusive"),
                        hint: owned("Use one of them."),
                    },
                );
            }
            match parse_json(text.as_str()) {
                Err(e) => Err(
                    CliError::InvalidInput {
                        detail: concat2("Invalid JSON for --custom-field-json: ", e.as_str()),
                        hint: owned("Pass a JSON object, e.g. '{\"tier\":\"gold\"}'"),
                    },
                ),
                Ok(v) => match v {
                    JsonValue::Object(_) => Ok(Some(v)),
                    _ => Err(
                        CliError::InvalidInput {
                            detail: owned("--custom-field-json must be a JSON object"),
                            hint: owned("Pass a JSON object, e.g. '{\"tier\":\"gold\"}'"),
                        },
                    ),
                },
            }
        },
        None => {
            if flags.len() == 0 {
                return Ok(None);
            }
            let ghost views = flags@.map_values(|f: String| f@);
            let mut members: Vec<(String, JsonValue)> = Vec::new();
            let n = flags.len();
            let mut i: usize = 0;
            assert(views.take(0) =~= Seq::<Seq<char>>::empty());
            while i < n
                invariant
                    raw is None,
                    n == flags@.len(),
                    views == flags@.map_values(|f: String| f@),
                    i <= n,
                    flag_pairs_spec(views.take(i as int)) is Ok,
                    string_members_are(members@, flag_pairs_spec(views.take(i as int))->Ok_0),
                decreases n - i,
            {
                let ghost before = flag_pairs_spec(views.take(i as int))->Ok_0;
                assert(views.take(i + 1).drop_last() =~= views.take(i as int));
                assert(views.take(i + 1).last() == flags@[i as int]@);
                match split_one(flags[i].as_str()) {
                    None => {
                        proof {
                            lemma_flag_error_propagates(views, i + 1);
                        }
                        let detail = concat3("Invalid --custom-field '", flags[i].as_str(), "'");
                        return Err(CliError::InvalidInput { detail, hint: owned("Use key=value") });
                    },
                    Some((k, v)) => {
                        let ghost prior = members@;
                        members.push((k, JsonValue::Str(v)));
                        proof {
                            let now = flag_pairs_spec(views.take(i + 1))->Ok_0;
                            assert(now == before.push(split_flag(flags@[i as int]@)->0));
                            assert forall|j: int| 0 <= j < members@.len() implies (
                            #[trigger] members@[j]).1 is Str && members@[j].0@ == now[j].0
                                && members@[j].1->Str_0@ == now[j].1 by {
                                if j < prior.len() {
                                    assert(members@[j] == prior[j]);
                                }
                            }
                        }
                    },
                }
                i = i + 1;
            }
            assert(views.take(n as int) =~= views);
            Ok(Some(JsonValue::Object(members)))
        },
    }
}

} // verus!
