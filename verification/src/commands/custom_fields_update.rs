//! `pipelite custom-fields update`: the body of the partial update, built
//! and validated before any request.

use vstd::prelude::*;

use crate::cli::custom_fields::CustomFieldsUpdateArgs;
use crate::error::{err_view, CliError, CliErrorView, ErrorKind};
use crate::json::{
    json_parse, json_text, member_views, opt_str_value, parse_json, push_member, render_json, JsonValue,
};
use crate::keyed::{lemma_lookup_concat, lemma_lookup_small, lookup};
use crate::text::{concat2, owned, str_eq};

verus! {

/// Whether any update flag is given.
pub open spec fn update_has_flags(a: CustomFieldsUpdateArgs) -> bool {
    a.name is Some || a.config is Some || a.required || a.no_required || a.show_in_list
        || a.no_show_in_list || a.position is Some
}

/// The rejection of `--stdin` together with update flags.
pub open spec fn update_conflict_error() -> CliErrorView {
    err_view(
        ErrorKind::InvalidInput,
        "--stdin and update flags are mutually exclusive"@,
        "Use either --stdin (raw JSON body, immutable keys stripped) or update flags, not both."@,
    )
}

/// The body of `custom-fields update` comes from exactly one source:
/// `--stdin` excludes every update flag.
pub fn check_update_sources(args: &CustomFieldsUpdateArgs) -> (r: Result<(), CliError>)
    ensures
        r is Ok <==> !(args.stdin && update_has_flags(*args)),
        r is Err ==> r->Err_0@ == update_conflict_error(),
{
    let has_flags = args.name.is_some() || args.config.is_some() || args.required
        || args.no_required || args.show_in_list || args.no_show_in_list
        || args.position.is_some();
    if args.stdin && has_flags {
        return Err(
            CliError::InvalidInput {
                detail: owned("--stdin and update flags are mutually exclusive"),
                hint: owned(
                    "Use either --stdin (raw JSON body, immutable keys stripped) or update flags, not both.",
                ),
            },
        );
    }
    Ok(())
}

/// The outcome of reading `--config`: it must be JSON, and a JSON object.
pub open spec fn config_flag_spec(raw: Seq<char>) -> Result<JsonValue, CliErrorView> {
    match json_parse(raw) {
        Err(e) => Err(
            err_view(
                ErrorKind::InvalidInput,
                "Invalid JSON for --config: "@ + e,
                "--config must be a valid JSON object — e.g. '{\"options\":[\"a\",\"b\"]}'"@,
            ),
        ),
        Ok(v) => if v is Object {
            Ok(v)
        } else {
            Err(
                err_view(
                    ErrorKind::InvalidInput,
                    "--config must be a JSON object (got "@ + json_text(v) + ")"@,
                    "e.g. --config '{\"options\":[\"a\",\"b\"]}'"@,
                ),
            )
        },
    }
}

/// Parses `--config` (raw JSON text) into the object it must be; arrays
/// and scalars are rejected.
pub fn parse_config_flag(raw: &str) -> (r: Result<JsonValue, CliError>)
    ensures
        r is Ok <==> config_flag_spec(raw@) is Ok,
        r is Ok ==> Ok::<JsonValue, CliErrorView>(r->Ok_0) == config_flag_spec(raw@),
        r is Err ==> Err::<JsonValue, CliErrorView>(r->Err_0@) == config_flag_spec(raw@),
{
    match parse_json(raw) {
        Err(e) => Err(
            CliError::InvalidInput {
                detail: concat2("Invalid JSON for --config: ", e.as_str()),
                hint: owned(
                    "--config must be a valid JSON object — e.g. '{\"options\":[\"a\",\"b\"]}'",
                ),
            },
        ),
        Ok(v) => match v {
            JsonValue::Object(_) => Ok(v),
            other => {
                let mut detail = concat2("--config must be a JSON object (got ", render_json(&other).as_str());
                detail.append(")");
                Err(
                    CliError::InvalidInput {
                        detail,
                        hint: owned("e.g. --config '{\"options\":[\"a\",\"b\"]}'"),
                    },
                )
            },
        },
    }
}

/// The refusal of an update with no flag at all.
pub open spec fn nothing_to_update_error() -> CliErrorView {
    err_view(
        ErrorKind::InvalidInput,
        "nothing to update — no --name, --config, --required/--no-required, --show-in-list/--no-show-in-list, or --position given"@,
        "e.g. pipelite custom-fields update <id> --position 20000"@,
    )
}

/// A boolean member decided by a pair of flags: the negative flag wins.
pub open spec fn paired_flag_member(key: Seq<char>, yes: bool, no: bool) -> Seq<(Seq<char>, JsonValue)> {
    if no {
        seq![(key, JsonValue::Bool(false))]
    } else if yes {
        seq![(key, JsonValue::Bool(true))]
    } else {
        seq![]
    }
}

/// The members of the update body built from the flags, given the parsed
/// `--config` object: only the keys whose flags are given, in the order
/// name, config, required, show_in_list, position.
pub open spec fn flags_members_spec(a: CustomFieldsUpdateArgs, config: Option<JsonValue>) -> Seq<(Seq<char>, JsonValue)> {
    (match a.name {
        Some(n) => seq![("name"@, JsonValue::Str(n))],
        None => seq![],
    }) + (match config {
        Some(c) => seq![("config"@, c)],
        None => seq![],
    }) + paired_flag_member("required"@, a.required, a.no_required) + paired_flag_member(
        "show_in_list"@,
        a.show_in_list,
        a.no_show_in_list,
    ) + (match a.position {
        Some(p) => seq![("position"@, JsonValue::Number(p))],
        None => seq![],
    })
}

/// The outcome of building the update body from the flags.
pub open spec fn flags_body_spec(a: CustomFieldsUpdateArgs) -> Result<Seq<(Seq<char>, JsonValue)>, CliErrorView> {
    if !update_has_flags(a) {
        Err(nothing_to_update_error())
    } else {
        match a.config {
            Some(raw) => match config_flag_spec(raw@) {
                Err(e) => Err(e),
                Ok(c) => Ok(flags_members_spec(a, Some(c))),
            },
            None => Ok(flags_members_spec(a, None)),
        }
    }
}

/// The update body built from the flags sends each given flag under its
/// key: the name as given; the parsed config; `required` and
/// `show_in_list` as `false` when their negative flag is given, as `true`
/// when only the positive one is, and not at all otherwise; the position
/// as given. A body is built whenever some flag is given (and `--config`,
/// if given, parses).
pub proof fn lemma_update_flags_send_each_given_flag(a: CustomFieldsUpdateArgs)
    ensures
        update_has_flags(a) && a.config is None ==> flags_body_spec(a) is Ok,
        (a.name is Some || a.config is Some || a.required || a.no_required || a.show_in_list
            || a.no_show_in_list || a.position is Some) == update_has_flags(a),
        flags_body_spec(a) is Ok ==> ({
            let m = flags_body_spec(a)->Ok_0;
            &&& lookup(m, "name"@) == opt_str_value(a.name)
            &&& (lookup(m, "config"@) is Some) == (a.config is Some)
            &&& lookup(m, "required"@) == (if a.no_required {
                Some(JsonValue::Bool(false))
            } else if a.required {
                Some(JsonValue::Bool(true))
            } else {
                None
            })
            &&& lookup(m, "show_in_list"@) == (if a.no_show_in_list {
                Some(JsonValue::Bool(false))
            } else if a.show_in_list {
                Some(JsonValue::Bool(true))
            } else {
                None
            })
            &&& lookup(m, "position"@) == (match a.position {
                Some(p) => Some(JsonValue::Number(p)),
                None => None,
            })
        }),
{
    if flags_body_spec(a) is Ok {
        let config: Option<JsonValue> = match a.config {
            Some(raw) => Some(config_flag_spec(raw@)->Ok_0),
            None => None,
        };
        assert(flags_body_spec(a)->Ok_0 == flags_members_spec(a, config));
        reveal_strlit("name");
        reveal_strlit("config");
        reveal_strlit("required");
        reveal_strlit("show_in_list");
        reveal_strlit("position");
        let q0: Seq<(Seq<char>, JsonValue)> = match a.name {
            Some(n) => seq![("name"@, JsonValue::Str(n))],
            None => seq![],
        };
        let q1: Seq<(Seq<char>, JsonValue)> = match config {
            Some(c) => seq![("config"@, c)],
            None => seq![],
        };
        let q2 = paired_flag_member("required"@, a.required, a.no_required);
        let q3 = paired_flag_member("show_in_list"@, a.show_in_list, a.no_show_in_list);
        let q4: Seq<(Seq<char>, JsonValue)> = match a.position {
            Some(p) => seq![("position"@, JsonValue::Number(p))],
            None => seq![],
        };
        lemma_lookup_small("name"@, JsonValue::Null);
        match a.name {
            Some(n) => lemma_lookup_small("name"@, JsonValue::Str(n)),
            None => {},
        }
        match config {
            Some(c) => lemma_lookup_small("config"@, c),
            None => {},
        }
        lemma_lookup_small("required"@, JsonValue::Bool(false));
        lemma_lookup_small("required"@, JsonValue::Bool(true));
        lemma_lookup_small("show_in_list"@, JsonValue::Bool(false));
        lemma_lookup_small("show_in_list"@, JsonValue::Bool(true));
        match a.position {
            Some(p) => lemma_lookup_small("position"@, JsonValue::Number(p)),
            None => {},
        }
        lemma_lookup_concat(q0, q1);
        lemma_lookup_concat(q0 + q1, q2);
        lemma_lookup_concat(q0 + q1 + q2, q3);
        lemma_lookup_concat(q0 + q1 + q2 + q3, q4);
        assert(flags_members_spec(a, config) == q0 + q1 + q2 + q3 + q4);
        assert("name"@.len() == 4);
        assert("config"@.len() == 6);
        assert("required"@.len() == 8);
        assert("show_in_list"@.len() == 12);
        assert("position"@.len() == 8);
        assert("required"@[0] != "position"@[0]);
    }
}

fn push_paired_flag(members: &mut Vec<(String, JsonValue)>, key: &str, yes: bool, no: bool)
    ensures
        member_views(final(members)@) == member_views(old(members)@) + paired_flag_member(
            key@,
            yes,
            no,
        ),
{
    let ghost before = member_views(members@);
    if no {
        push_member(members, key, JsonValue::Bool(false));
    } else if yes {
        push_member(members, key, JsonValue::Bool(true));
    }
    assert(member_views(members@) =~= before + paired_flag_member(key@, yes, no));
}

/// Builds the update body from the flags: only the explicitly given keys
/// are sent; `--no-required`/`--no-show-in-list` win over their positive
/// flags; `--config` must be a JSON object; with no flag at all the update
/// is refused rather than sending an empty body.
#[verifier::spinoff_prover]
pub fn update_body_from_flags(args: &CustomFieldsUpdateArgs) -> (r: Result<JsonValue, CliError>)
    ensures
        r is Ok <==> flags_body_spec(*args) is Ok,
        r is Ok ==> r->Ok_0 is Object && member_views(r->Ok_0->Object_0@)
            == flags_body_spec(*args)->Ok_0,
        r is Err ==> r->Err_0@ == flags_body_spec(*args)->Err_0,
{
    let has_flags = args.name.is_some() || args.config.is_some() || args.required
        || args.no_required || args.show_in_list || args.no_show_in_list
        || args.position.is_some();
    if !has_flags {
        return Err(
            CliError::InvalidInput {
                detail: owned(
                    "nothing to update — no --name, --config, --required/--no-required, --show-in-list/--no-show-in-list, or --position given",
                ),
                hint: owned("e.g. pipelite custom-fields update <id> --position 20000"),
            },
        );
    }
    let config: Option<JsonValue> = match &args.config {
        Some(raw) => Some(parse_config_flag(raw.as_str())?),
        None => None,
    };
    let ghost want = flags_members_spec(*args, config);
    let mut members: Vec<(String, JsonValue)> = Vec::new();
    match &args.name {
        Some(n) => push_member(&mut members, "name", JsonValue::Str(n.clone())),
        None => {},
    }
    let ghost m1 = member_views(members@);
    match config {
        Some(c) => push_member(&mut members, "config", c),
        None => {},
    }
    let ghost m2 = member_views(members@);
    push_paired_flag(&mut members, "required", args.required, args.no_required);
    push_paired_flag(&mut members, "show_in_list", args.show_in_list, args.no_show_in_list);
    let ghost m4 = member_views(members@);
    match &args.position {
        Some(p) => push_member(&mut members, "position", JsonValue::Number(p.clone())),
        None => {},
    }
    assert(member_views(members@) =~= want);
    Ok(JsonValue::Object(members))
}

/// Whether a key names an immutable property of a definition.
pub open spec fn is_immutable_key(k: Seq<char>) -> bool {
    k == "entity_type"@ || k == "type"@
}

/// The members that may be updated, in order.
pub open spec fn mutable_members(m: Seq<(String, JsonValue)>) -> Seq<(String, JsonValue)>
    decreases m.len(),
{
    if m.len() == 0 {
        seq![]
    } else if is_immutable_key(m.last().0@) {
        mutable_members(m.drop_last())
    } else {
        mutable_members(m.drop_last()).push(m.last())
    }
}

/// An update read from standard input never carries an immutable key,
/// and keeps every other member in order (stripping twice changes
/// nothing).
pub proof fn lemma_stripped_body_has_no_immutable_key(m: Seq<(String, JsonValue)>)
    ensures
        forall|i: int|
            0 <= i < mutable_members(m).len() ==> !is_immutable_key(
                (#[trigger] mutable_members(m)[i]).0@,
            ),
        mutable_members(mutable_members(m)) == mutable_members(m),
        mutable_members(m).len() <= m.len(),
    decreases m.len(),
{
    if m.len() > 0 {
        lemma_stripped_body_has_no_immutable_key(m.drop_last());
        let rest = mutable_members(m.drop_last());
        if !is_immutable_key(m.last().0@) {
            let mm = rest.push(m.last());
            assert(mm.drop_last() =~= rest);
            assert(mm.last() == m.last());
        }
    }
}

/// Whether some member is named `key`.
pub open spec fn has_member(m: Seq<(String, JsonValue)>, key: Seq<char>) -> bool {
    exists|j: int| 0 <= j < m.len() && (#[trigger] m[j]).0@ == key
}

/// The immutable keys a body carried, in the order `entity_type`, `type`.
pub open spec fn stripped_keys(m: Seq<(String, JsonValue)>) -> Seq<Seq<char>> {
    (if has_member(m, "entity_type"@) {
        seq!["entity_type"@]
    } else {
        seq![]
    }) + (if has_member(m, "type"@) {
        seq!["type"@]
    } else {
        seq![]
    })
}

/// The update read from standard input: the body to send and the
/// immutable keys removed from it.
#[derive(Debug)]
pub struct StdinUpdate {
    pub body: JsonValue,
    pub stripped: Vec<&'static str>,
}

/// The outcome of reading an update body from standard input: it must be
/// a JSON object; its immutable keys are removed, and a body left empty
/// is refused.
pub open spec fn stdin_update_spec(text: Seq<char>) -> Result<(Seq<(String, JsonValue)>, Seq<Seq<char>>), CliErrorView> {
    match json_parse(text) {
        Err(e) => Err(
            err_view(
                ErrorKind::Validation,
                "Invalid JSON input: "@ + e,
                "Stdin must contain a JSON object with the definition keys to update."@,
            ),
        ),
        Ok(JsonValue::Object(m)) => if mutable_members(m@).len() == 0 {
            Err(
                err_view(
                    ErrorKind::InvalidInput,
                    "nothing to update — the stdin body carried only immutable keys"@,
                    "entity_type and type are immutable; update --name, --config, --required/--no-required, --show-in-list/--no-show-in-list or --position instead."@,
                ),
            )
        } else {
            Ok((mutable_members(m@), stripped_keys(m@)))
        },
        Ok(other) => Err(
            err_view(
                ErrorKind::InvalidInput,
                "The stdin body must be a JSON object"@,
                "Got "@ + json_text(other) + "; e.g. {\"name\":\"price\"}"@,
            ),
        ),
    }
}

/// Removes the immutable members of an object, reporting which immutable
/// keys it carried.
fn strip_immutable(members: &mut Vec<(String, JsonValue)>) -> (found: (bool, bool))
    ensures
        final(members)@ == mutable_members(old(members)@),
        found.0 == has_member(old(members)@, "entity_type"@),
        found.1 == has_member(old(members)@, "type"@),
{
    let ghost orig = members@;
    let mut found_entity = false;
    let mut found_type = false;
    let mut i: usize = 0;
    let ghost mut k: int = 0;
    assert(orig.take(0) =~= Seq::<(String, JsonValue)>::empty());
    assert(orig.skip(0) =~= orig);
    while i < members.len()
        invariant
            0 <= k <= orig.len(),
            i <= members@.len(),
            members@ == mutable_members(orig.take(k)) + orig.skip(k),
            i == mutable_members(orig.take(k)).len(),
            found_entity == (exists|j: int| 0 <= j < k && (#[trigger] orig[j]).0@ == "entity_type"@),
            found_type == (exists|j: int| 0 <= j < k && (#[trigger] orig[j]).0@ == "type"@),
        decreases members@.len() - i,
    {
        let ghost before = mutable_members(orig.take(k));
        assert(orig.skip(k)[0] == orig[k]);
        assert(members@[i as int] == orig[k]);
        assert(orig.take(k + 1).drop_last() =~= orig.take(k));
        assert(orig.take(k + 1).last() == orig[k]);
        assert(orig.skip(k).drop_first() =~= orig.skip(k + 1));
        let is_entity = str_eq(members[i].0.as_str(), "entity_type");
        let is_type = str_eq(members[i].0.as_str(), "type");
        if is_entity {
            found_entity = true;
        }
        if is_type {
            found_type = true;
        }
        if is_entity || is_type {
            members.remove(i);
            assert(members@ =~= before + orig.skip(k + 1));
        } else {
            i = i + 1;
            assert(members@ =~= before.push(orig[k]) + orig.skip(k + 1));
        }
        proof {
            k = k + 1;
        }
    }
    assert(orig.skip(k).len() == 0);
    assert(orig.take(k) =~= orig);
    assert(members@ =~= mutable_members(orig));
    (found_entity, found_type)
}

/// Reads an update body from the text on standard input: it must be a
/// JSON object; `entity_type` and `type` are removed (they are immutable),
/// and a body left with nothing to update is refused.
pub fn update_body_from_stdin(text: &str) -> (r: Result<StdinUpdate, CliError>)
    ensures
        r is Ok <==> stdin_update_spec(text@) is Ok,
        r is Ok ==> r->Ok_0.body is Object && r->Ok_0.body->Object_0@ == stdin_update_spec(
            text@,
        )->Ok_0.0 && r->Ok_0.stripped@.map_values(|s: &str| s@) == stdin_update_spec(
            text@,
        )->Ok_0.1,
        r is Err ==> r->Err_0@ == stdin_update_spec(text@)->Err_0,
{
    match parse_json(text) {
        Err(e) => Err(
            CliError::Validation {
                detail: concat2("Invalid JSON input: ", e.as_str()),
                hint: owned("Stdin must contain a JSON object with the definition keys to update."),
            },
        ),
        Ok(JsonValue::Object(members)) => {
            let mut members = members;
            let ghost orig = members@;
            let found = strip_immutable(&mut members);
            if members.len() == 0 {
                return Err(
                    CliError::InvalidInput {
                        detail: owned("nothing to update — the stdin body carried only immutable keys"),
                        hint: owned(
                            "entity_type and type are immutable; update --name, --config, --required/--no-required, --show-in-list/--no-show-in-list or --position instead.",
                        ),
                    },
                );
            }
            let mut stripped: Vec<&'static str> = Vec::new();
            if found.0 {
                stripped.push("entity_type");
            }
            if found.1 {
                stripped.push("type");
            }
            assert(stripped@.map_values(|s: &str| s@) =~= stripped_keys(orig));
            Ok(StdinUpdate { body: JsonValue::Object(members), stripped })
        },
        Ok(other) => {
            let mut hint = concat2("Got ", render_json(&other).as_str());
            hint.append("; e.g. {\"name\":\"price\"}");
            Err(
                CliError::InvalidInput {
                    detail: owned("The stdin body must be a JSON object"),
                    hint,
                },
            )
        },
    }
}

/// The warning printed when immutable keys were removed:
/// `"Warning: {keys joined with ' and '} {is|are} immutable — removed from
/// the update."`, or nothing when none were.
pub open spec fn immutable_warning_spec(stripped: Seq<Seq<char>>) -> Option<Seq<char>> {
    if stripped.len() == 0 {
        None
    } else if stripped.len() == 1 {
        Some("Warning: "@ + stripped[0] + " is immutable — removed from the update."@)
    } else {
        Some(
            "Warning: "@ + stripped[0] + " and "@ + stripped[1]
                + " are immutable — removed from the update."@,
        )
    }
}

/// Renders the warning for removed immutable keys (at most the two
/// immutable keys can be removed).
pub fn immutable_warning(stripped: &Vec<&str>) -> (r: Option<String>)
    requires
        stripped@.len() <= 2,
    ensures
        r is Some == immutable_warning_spec(stripped@.map_values(|s: &str| s@)) is Some,
        r is Some ==> r->0@ == immutable_warning_spec(stripped@.map_values(|s: &str| s@))->0,
{
    let ghost views = stripped@.map_values(|s: &str| s@);
    if stripped.len() == 0 {
        return None;
    }
    let mut line = concat2("Warning: ", stripped[0]);
    assert(views[0] == stripped@[0]@);
    if stripped.len() == 1 {
        line.append(" is immutable — removed from the update.");
    } else {
        assert(views[1] == stripped@[1]@);
        line.append(" and ");
        line.append(stripped[1]);
        line.append(" are immutable — removed from the update.");
    }
    Some(line)
}

} // verus!
