//! `pipelite custom-fields`: vocabulary normalization and body validation
//! for custom field definitions.

use vstd::prelude::*;

use crate::error::{err_view, CliError, CliErrorView, ErrorKind};
use crate::json::{json_get_str, json_parse, parse_json, JsonValue};
use crate::cli::custom_fields::CustomFieldsCreateArgs;
use crate::text::{concat2, concat3, owned, str_eq, strings_view};

verus! {

/// The reminder that deleted definitions stay listed without a marker.
pub const TOMBSTONE_NOTE: &'static str = "Deleted definitions remain in custom-fields list output; the server does not mark them.";

/// The accepted entity aliases, as listed in rejections.
pub const ENTITY_TYPES_HINT: &'static str = "Valid entity types: deal(s), organization(s)/orgs, person/people, activity/activities";

/// The accepted `--type` vocabulary, as listed in rejections.
pub const DEFINITION_TYPES_HINT: &'static str = "Valid types: text, number, boolean, date, single_select (or select), multi_select, file, url, lookup, formula — select is an alias for single_select";

/// The server token of a CLI entity alias: nine aliases onto the four
/// singular tokens; case-sensitive; `None` for anything else.
pub open spec fn entity_token(t: Seq<char>) -> Option<Seq<char>> {
    if t == "deal"@ || t == "deals"@ {
        Some("deal"@)
    } else if t == "organization"@ || t == "organizations"@ || t == "orgs"@ {
        Some("organization"@)
    } else if t == "person"@ || t == "people"@ {
        Some("person"@)
    } else if t == "activity"@ || t == "activities"@ {
        Some("activity"@)
    } else {
        None
    }
}

/// The rejection of an unknown entity alias.
pub open spec fn unknown_entity_error(t: Seq<char>) -> CliErrorView {
    err_view(ErrorKind::InvalidInput, "Unknown entity type '"@ + t + "'"@, ENTITY_TYPES_HINT@)
}

/// Map a CLI entity alias to the server's singular definition entity_type.
pub fn normalize_entity_type(t: &str) -> (r: Result<&'static str, CliError>)
    ensures
        r is Ok <==> entity_token(t@) is Some,
        r is Ok ==> r->Ok_0@ == entity_token(t@)->0,
        r is Err ==> r->Err_0@ == unknown_entity_error(t@),
{
    if str_eq(t, "deal") || str_eq(t, "deals") {
        Ok("deal")
    } else if str_eq(t, "organization") || str_eq(t, "organizations") || str_eq(t, "orgs") {
        Ok("organization")
    } else if str_eq(t, "person") || str_eq(t, "people") {
        Ok("person")
    } else if str_eq(t, "activity") || str_eq(t, "activities") {
        Ok("activity")
    } else {
        Err(
            CliError::InvalidInput {
                detail: concat3("Unknown entity type '", t, "'"),
                hint: owned(ENTITY_TYPES_HINT),
            },
        )
    }
}

/// Normalizing an entity alias twice changes nothing: the server token it
/// yields is itself accepted and maps to itself.
pub proof fn lemma_entity_token_idempotent(t: Seq<char>)
    requires
        entity_token(t) is Some,
    ensures
        entity_token(entity_token(t)->0) == entity_token(t),
{
    reveal_strlit("deal");
    reveal_strlit("deals");
    reveal_strlit("organization");
    reveal_strlit("organizations");
    reveal_strlit("orgs");
    reveal_strlit("person");
    reveal_strlit("people");
    reveal_strlit("activity");
    reveal_strlit("activities");
    let w = entity_token(t)->0;
    assert(w.len() == 4 || w.len() == 12 || w.len() == 6 || w.len() == 8);
    assert(w.len() == 4 ==> w == "deal"@);
    assert(w.len() == 6 ==> w == "person"@);
}

/// The wire type of a CLI `--type` token: the ten server values pass
/// through, `select` means `single_select`; case-sensitive; `None` for
/// anything else.
pub open spec fn definition_token(t: Seq<char>) -> Option<Seq<char>> {
    if t == "text"@ {
        Some("text"@)
    } else if t == "number"@ {
        Some("number"@)
    } else if t == "date"@ {
        Some("date"@)
    } else if t == "boolean"@ {
        Some("boolean"@)
    } else if t == "select"@ || t == "single_select"@ {
        Some("single_select"@)
    } else if t == "multi_select"@ {
        Some("multi_select"@)
    } else if t == "file"@ {
        Some("file"@)
    } else if t == "url"@ {
        Some("url"@)
    } else if t == "lookup"@ {
        Some("lookup"@)
    } else if t == "formula"@ {
        Some("formula"@)
    } else {
        None
    }
}

/// Normalizing a definition type twice changes nothing: the wire value it
/// yields is itself accepted and passes through unchanged.
pub proof fn lemma_definition_token_idempotent(t: Seq<char>)
    requires
        definition_token(t) is Some,
    ensures
        definition_token(definition_token(t)->0) == definition_token(t),
{
    reveal_strlit("text");
    reveal_strlit("number");
    reveal_strlit("date");
    reveal_strlit("boolean");
    reveal_strlit("select");
    reveal_strlit("single_select");
    reveal_strlit("multi_select");
    reveal_strlit("file");
    reveal_strlit("url");
    reveal_strlit("lookup");
    reveal_strlit("formula");
    let w = definition_token(t)->0;
    if w != "text"@ {
        assert(w.len() != 4 || w[0] != 't');
    }
    if w != "number"@ {
        assert(w.len() != 6 || w[0] != 'n');
    }
    if w != "date"@ {
        assert(w.len() != 4 || w[0] != 'd');
    }
    if w != "boolean"@ {
        assert(w.len() != 7 || w[0] != 'b');
    }
    assert(w.len() != 6 || w[0] != 's');
    if w != "file"@ {
        assert(w.len() != 4 || w[0] != 'f');
    }
    if w != "lookup"@ {
        assert(w.len() != 6 || w[0] != 'l');
    }
}

/// The rejection of an unknown definition type.
pub open spec fn unknown_definition_error(t: Seq<char>) -> CliErrorView {
    err_view(
        ErrorKind::InvalidInput,
        "Unknown definition type '"@ + t + "'"@,
        DEFINITION_TYPES_HINT@,
    )
}

/// Map a CLI `--type` token to the wire-exact server enum value.
pub fn normalize_definition_type(t: &str) -> (r: Result<&'static str, CliError>)
    ensures
        r is Ok <==> definition_token(t@) is Some,
        r is Ok ==> r->Ok_0@ == definition_token(t@)->0,
        r is Err ==> r->Err_0@ == unknown_definition_error(t@),
{
    if str_eq(t, "text") {
        Ok("text")
    } else if str_eq(t, "number") {
        Ok("number")
    } else if str_eq(t, "date") {
        Ok("date")
    } else if str_eq(t, "boolean") {
        Ok("boolean")
    } else if str_eq(t, "select") || str_eq(t, "single_select") {
        Ok("single_select")
    } else if str_eq(t, "multi_select") {
        Ok("multi_select")
    } else if str_eq(t, "file") {
        Ok("file")
    } else if str_eq(t, "url") {
        Ok("url")
    } else if str_eq(t, "lookup") {
        Ok("lookup")
    } else if str_eq(t, "formula") {
        Ok("formula")
    } else {
        Err(
            CliError::InvalidInput {
                detail: concat3("Unknown definition type '", t, "'"),
                hint: owned(DEFINITION_TYPES_HINT),
            },
        )
    }
}

/// The non-empty option names, in order.
pub open spec fn nonempty_options(options: Seq<Seq<char>>) -> Seq<Seq<char>>
    decreases options.len(),
{
    if options.len() == 0 {
        seq![]
    } else {
        let before = nonempty_options(options.drop_last());
        if options.last().len() > 0 {
            before.push(options.last())
        } else {
            before
        }
    }
}

/// The strings of a JSON array whose elements are all strings.
pub open spec fn string_array_view(v: JsonValue) -> Option<Seq<Seq<char>>> {
    match v {
        JsonValue::Array(items) => if forall|i: int|
            0 <= i < items@.len() ==> #[trigger] items@[i] is Str {
            Some(items@.map_values(|x: JsonValue| x->Str_0@))
        } else {
            None
        },
        _ => None,
    }
}

/// Whether `v` is the object `{"options": [...]}` holding the non-empty
/// `options`, in order, as strings.
pub open spec fn is_options_config(v: JsonValue, options: Seq<Seq<char>>) -> bool {
    v matches JsonValue::Object(members) && members@.len() == 1 && members@[0].0@ == "options"@
        && string_array_view(members@[0].1) == Some(nonempty_options(options))
}

/// Build the select-family config `{"options": [...]}` from the
/// `--options` segments, skipping empty segments.
pub fn build_options_config(options: &[String]) -> (r: JsonValue)
    ensures
        is_options_config(r, strings_view(options@)),
{
    let mut items: Vec<JsonValue> = Vec::new();
    let ghost views = strings_view(options@);
    let n = options.len();
    let mut i: usize = 0;
    while i < n
        invariant
            n == options@.len(),
            views == strings_view(options@),
            i <= n,
            forall|j: int| 0 <= j < items@.len() ==> #[trigger] items@[j] is Str,
            items@.map_values(|x: JsonValue| x->Str_0@) == nonempty_options(views.take(i as int)),
        decreases n - i,
    {
        assert(views.take(i + 1).drop_last() =~= views.take(i as int));
        assert(views.take(i + 1).last() == options@[i as int]@);
        let ghost before = items@;
        if options[i].as_str().unicode_len() > 0 {
            items.push(JsonValue::Str(options[i].clone()));
            assert(items@.map_values(|x: JsonValue| x->Str_0@) =~= before.map_values(
                |x: JsonValue| x->Str_0@,
            ).push(options@[i as int]@));
        }
        i = i + 1;
    }
    assert(views.take(n as int) =~= views);
    let arr = JsonValue::Array(items);
    assert(string_array_view(arr) == Some(nonempty_options(views)));
    let mut members = Vec::new();
    members.push((owned("options"), arr));
    JsonValue::Object(members)
}

/// The check a raw `--stdin` definition body must pass: an `entity_type`
/// or `type` string present in the body must be a known token; everything
/// else passes through.
pub open spec fn stdin_definition_check(body: JsonValue) -> Option<CliErrorView> {
    match json_get_str(body, "entity_type"@) {
        Some(t) if entity_token(t) is None => Some(unknown_entity_error(t)),
        _ => match json_get_str(body, "type"@) {
            Some(t) if definition_token(t) is None => Some(unknown_definition_error(t)),
            _ => None,
        },
    }
}

/// Validate the raw `--stdin` create body's vocabulary when the keys are
/// present.
pub fn validate_stdin_definition(body: &JsonValue) -> (r: Result<(), CliError>)
    ensures
        r is Ok <==> stdin_definition_check(*body) is None,
        r is Err ==> Some(r->Err_0@) == stdin_definition_check(*body),
{
    match body.get("entity_type") {
        Some(v) => match v.as_str() {
            Some(t) => {
                normalize_entity_type(t)?;
            },
            None => {},
        },
        None => {},
    }
    match body.get("type") {
        Some(v) => match v.as_str() {
            Some(t) => {
                normalize_definition_type(t)?;
            },
            None => {},
        },
        None => {},
    }
    Ok(())
}


/// The outcome of reading a raw `--stdin` definition body.
pub open spec fn stdin_body_spec(text: Seq<char>) -> Result<JsonValue, CliErrorView> {
    match json_parse(text) {
        Err(e) => Err(
            err_view(
                ErrorKind::Validation,
                "Invalid JSON input: "@ + e,
                "Stdin must contain a JSON definition object with 'name', 'entity_type' and 'type'."@,
            ),
        ),
        Ok(v) => match stdin_definition_check(v) {
            Some(err) => Err(err),
            None => Ok(v),
        },
    }
}

/// Parses and checks a raw `--stdin` definition body: it must be JSON and
/// its vocabulary keys, when present, must be known; it is otherwise
/// passed through verbatim.
pub fn parse_definition_body(text: &str) -> (r: Result<JsonValue, CliError>)
    ensures
        r is Ok <==> stdin_body_spec(text@) is Ok,
        r is Ok ==> Ok::<JsonValue, CliErrorView>(r->Ok_0) == stdin_body_spec(text@),
        r is Err ==> Err::<JsonValue, CliErrorView>(r->Err_0@) == stdin_body_spec(text@),
{
    match parse_json(text) {
        Err(e) => Err(
            CliError::Validation {
                detail: concat2("Invalid JSON input: ", e.as_str()),
                hint: owned(
                    "Stdin must contain a JSON definition object with 'name', 'entity_type' and 'type'.",
                ),
            },
        ),
        Ok(v) => {
            validate_stdin_definition(&v)?;
            Ok(v)
        },
    }
}

/// Payload for creating a custom field definition; `type_` is sent as
/// `type` and `name` is the key records use in their custom fields.
#[derive(Debug)]
pub struct CustomFieldDefinitionCreate {
    pub name: String,
    pub entity_type: String,
    pub type_: String,
    pub required: bool,
    pub show_in_list: bool,
    pub config: Option<JsonValue>,
}

/// Whether any create flag is given besides `--stdin`.
pub open spec fn create_has_flags(a: CustomFieldsCreateArgs) -> bool {
    a.entity_type is Some || a.key is Some || a.field_type is Some || a.options is Some || a.required
        || a.show_in_list
}

/// The rejection of `--stdin` together with create flags.
pub open spec fn create_conflict_error() -> CliErrorView {
    err_view(
        ErrorKind::InvalidInput,
        "--stdin and create flags are mutually exclusive"@,
        "Use either --stdin (raw JSON body, verbatim) or the create flags, not both."@,
    )
}

/// The body of `custom-fields create` comes from exactly one source:
/// `--stdin` excludes every create flag.
pub fn check_create_sources(args: &CustomFieldsCreateArgs) -> (r: Result<(), CliError>)
    ensures
        r is Ok <==> !(args.stdin && create_has_flags(*args)),
        r is Err ==> r->Err_0@ == create_conflict_error(),
{
    if args.stdin && (args.entity_type.is_some() || args.key.is_some() || args.field_type.is_some()
        || args.options.is_some() || args.required || args.show_in_list) {
        return Err(
            CliError::InvalidInput {
                detail: owned("--stdin and create flags are mutually exclusive"),
                hint: owned(
                    "Use either --stdin (raw JSON body, verbatim) or the create flags, not both.",
                ),
            },
        );
    }
    Ok(())
}

/// The required create flags that are missing, in the order
/// `--entity-type`, `--key`, `--type`.
pub open spec fn missing_flags_spec(a: CustomFieldsCreateArgs) -> Seq<Seq<char>> {
    (if a.entity_type is None {
        seq!["--entity-type"@]
    } else {
        seq![]
    }) + (if a.key is None {
        seq!["--key"@]
    } else {
        seq![]
    }) + (if a.field_type is None {
        seq!["--type"@]
    } else {
        seq![]
    })
}

/// Lists the required create flags that are missing.
pub fn missing_create_flags(args: &CustomFieldsCreateArgs) -> (r: Vec<String>)
    ensures
        strings_view(r@) == missing_flags_spec(*args),
{
    let mut r: Vec<String> = Vec::new();
    if args.entity_type.is_none() {
        r.push(owned("--entity-type"));
    }
    let ghost r1 = r@;
    if args.key.is_none() {
        r.push(owned("--key"));
    }
    let ghost r2 = r@;
    if args.field_type.is_none() {
        r.push(owned("--type"));
    }
    assert(strings_view(r@) =~= missing_flags_spec(*args));
    r
}

/// The text of an optional flag, or the empty text when it is absent.
pub open spec fn flag_or_empty(v: Option<String>) -> Seq<char> {
    match v {
        Some(s) => s@,
        None => Seq::empty(),
    }
}

/// The `--options` segments given (none when the flag is absent).
pub open spec fn options_given(v: Option<Vec<String>>) -> Seq<Seq<char>> {
    match v {
        Some(o) => strings_view(o@),
        None => Seq::empty(),
    }
}

/// Whether a wire type is one of the select family.
pub open spec fn is_select_family(t: Seq<char>) -> bool {
    t == "single_select"@ || t == "multi_select"@
}

/// The outcome of building a definition from the flags, as an error or
/// as the accepted (entity type, wire type) pair.
pub open spec fn definition_check(a: CustomFieldsCreateArgs) -> Result<(Seq<char>, Seq<char>), CliErrorView> {
    let et = flag_or_empty(a.entity_type);
    let ty = flag_or_empty(a.field_type);
    let options = options_given(a.options);
    if entity_token(et) is None {
        Err(unknown_entity_error(et))
    } else if definition_token(ty) is None {
        Err(unknown_definition_error(ty))
    } else if is_select_family(definition_token(ty)->0) && options.len() == 0 {
        Err(
            err_view(
                ErrorKind::InvalidInput,
                "--type "@ + definition_token(ty)->0 + " requires --options"@,
                "Pass --options a,b,c — becomes config.options (the dropdown entries)."@,
            ),
        )
    } else if !is_select_family(definition_token(ty)->0) && options.len() > 0 {
        Err(
            err_view(
                ErrorKind::InvalidInput,
                "--options only applies to select/single_select/multi_select (got --type "@
                    + definition_token(ty)->0 + ")"@,
                "Remove --options, or pick --type single_select or multi_select for a dropdown field."@,
            ),
        )
    } else {
        Ok((entity_token(et)->0, definition_token(ty)->0))
    }
}

/// Builds the definition payload from the create flags, validated before
/// any request: the entity alias and the type are normalized, the select
/// family requires `--options` and every other type refuses them, `--key`
/// becomes the definition name, and the options become
/// `config.options`.
pub fn definition_from_flags(args: &CustomFieldsCreateArgs) -> (r: Result<
    CustomFieldDefinitionCreate,
    CliError,
>)
    ensures
        r is Ok <==> definition_check(*args) is Ok,
        r is Err ==> Err::<(Seq<char>, Seq<char>), CliErrorView>(r->Err_0@) == definition_check(
            *args,
        ),
        r is Ok ==> {
            let d = r->Ok_0;
            &&& d.name@ == flag_or_empty(args.key)
            &&& d.entity_type@ == definition_check(*args)->Ok_0.0
            &&& d.type_@ == definition_check(*args)->Ok_0.1
            &&& d.required == args.required
            &&& d.show_in_list == args.show_in_list
            &&& (d.config is None <==> options_given(args.options).len() == 0)
            &&& (d.config is Some ==> is_options_config(d.config->0, options_given(args.options)))
        },
{
    proof {
        reveal_strlit("");
    }
    let et: &str = match &args.entity_type {
        Some(e) => e.as_str(),
        None => "",
    };
    let ty: &str = match &args.field_type {
        Some(t) => t.as_str(),
        None => "",
    };
    assert(et@ == flag_or_empty(args.entity_type));
    assert(ty@ == flag_or_empty(args.field_type));
    let entity_type = normalize_entity_type(et)?;
    let type_ = normalize_definition_type(ty)?;
    let empty: Vec<String> = Vec::new();
    let options: &Vec<String> = match &args.options {
        Some(o) => o,
        None => &empty,
    };
    assert(strings_view(options@) == options_given(args.options)) by {
        assert(strings_view(empty@) =~= Seq::<Seq<char>>::empty());
    }
    let is_select = str_eq(type_, "single_select") || str_eq(type_, "multi_select");
    if is_select && options.len() == 0 {
        let mut detail = concat3("--type ", type_, " requires --options");
        return Err(
            CliError::InvalidInput {
                detail,
                hint: owned("Pass --options a,b,c — becomes config.options (the dropdown entries)."),
            },
        );
    }
    if !is_select && options.len() > 0 {
        let mut detail = concat2(
            "--options only applies to select/single_select/multi_select (got --type ",
            type_,
        );
        detail.append(")");
        return Err(
            CliError::InvalidInput {
                detail,
                hint: owned(
                    "Remove --options, or pick --type single_select or multi_select for a dropdown field.",
                ),
            },
        );
    }
    let name = match &args.key {
        Some(k) => k.clone(),
        None => String::new(),
    };
    let config = if options.len() == 0 {
        None
    } else {
        Some(build_options_config(options.as_slice()))
    };
    Ok(
        CustomFieldDefinitionCreate {
            name,
            entity_type: owned(entity_type),
            type_: owned(type_),
            required: args.required,
            show_in_list: args.show_in_list,
            config,
        },
    )
}

} // verus!
