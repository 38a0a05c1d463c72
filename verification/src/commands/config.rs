//! `pipelite config`: reading keys and displaying the configuration.

use vstd::prelude::*;
use vstd::string::*;

use crate::config::AppConfig;
use crate::table::{add_row, new_table, set_header, table_header, table_rows, use_dynamic_arrangement};
use crate::text::{concat3, owned, strings_view, str_eq};

verus! {

/// The keys `config get` understands, as listed in its error message.
pub open spec fn valid_keys_text() -> Seq<char> {
    "server.url, server.api_key, output.format, display.no_color"@
}

/// The text of a boolean as Rust displays it.
pub open spec fn bool_text(b: bool) -> Seq<char> {
    if b {
        "true"@
    } else {
        "false"@
    }
}

/// The value `config get` prints for a dotted key, or the error text for
/// an unknown key. Unset preferences print their defaults.
pub open spec fn config_value_spec(config: AppConfig, key: Seq<char>) -> Result<Seq<char>, Seq<char>> {
    if key == "server.url"@ {
        Ok(config.server.url@)
    } else if key == "server.api_key"@ {
        Ok(config.server.api_key@)
    } else if key == "output.format"@ {
        Ok(
            match config.output.format {
                Some(f) => f@,
                None => "table"@,
            },
        )
    } else if key == "display.no_color"@ {
        Ok(
            match config.display.no_color {
                Some(b) => bool_text(b),
                None => "false"@,
            },
        )
    } else {
        Err("Unknown config key: "@ + key + ". Valid keys: "@ + valid_keys_text())
    }
}

fn bool_str(b: bool) -> (r: &'static str)
    ensures
        r@ == bool_text(b),
{
    if b {
        "true"
    } else {
        "false"
    }
}

/// Resolve a dotted key path to a config value string.
pub fn resolve_config_key(config: &AppConfig, key: &str) -> (r: Result<String, String>)
    ensures
        r is Ok <==> config_value_spec(*config, key@) is Ok,
        r is Ok ==> r->Ok_0@ == config_value_spec(*config, key@)->Ok_0,
        r is Err ==> r->Err_0@ == config_value_spec(*config, key@)->Err_0,
{
    if str_eq(key, "server.url") {
        Ok(config.server.url.clone())
    } else if str_eq(key, "server.api_key") {
        Ok(config.server.api_key.clone())
    } else if str_eq(key, "output.format") {
        match &config.output.format {
            Some(f) => Ok(f.clone()),
            None => Ok(owned("table")),
        }
    } else if str_eq(key, "display.no_color") {
        match config.display.no_color {
            Some(b) => Ok(owned(bool_str(b))),
            None => Ok(owned("false")),
        }
    } else {
        let mut msg = concat3("Unknown config key: ", key, ". Valid keys: ");
        msg.append("server.url, server.api_key, output.format, display.no_color");
        Err(msg)
    }
}

/// The rejection of a `display.no_color` value that is not a boolean.
pub open spec fn bool_value_error(value: Seq<char>) -> Seq<char> {
    "display.no_color must be true or false (got "@ + value + ")"@
}

/// Sets the value of a dotted key (`config set`): the server URL and API
/// key take the text as it is, `output.format` becomes set to it, and
/// `display.no_color` takes `true` or `false` (anything else is
/// rejected). An unknown key is rejected with `config get`'s error. A
/// rejected value leaves the configuration unchanged.
pub fn set_config_value(config: &mut AppConfig, key: &str, value: &str) -> (r: Result<(), String>)
    ensures
        key@ == "server.url"@ ==> r is Ok && final(config).server.url@ == value@
            && final(config).server.api_key == old(config).server.api_key && final(config).output
            == old(config).output && final(config).display == old(config).display,
        key@ == "server.api_key"@ ==> r is Ok && final(config).server.api_key@ == value@
            && final(config).server.url == old(config).server.url && final(config).output
            == old(config).output && final(config).display == old(config).display,
        key@ == "output.format"@ ==> r is Ok && final(config).output.format is Some
            && final(config).output.format->0@ == value@ && final(config).server == old(
            config,
        ).server && final(config).display == old(config).display,
        key@ == "display.no_color"@ && value@ == "true"@ ==> r is Ok && final(config).display.no_color
            == Some(true) && final(config).server == old(config).server && final(config).output
            == old(config).output,
        key@ == "display.no_color"@ && value@ == "false"@ ==> r is Ok
            && final(config).display.no_color == Some(false) && final(config).server == old(
            config,
        ).server && final(config).output == old(config).output,
        key@ == "display.no_color"@ && value@ != "true"@ && value@ != "false"@ ==> r is Err
            && r->Err_0@ == bool_value_error(value@) && *final(config) == *old(config),
        r is Ok ==> config_value_spec(*final(config), key@) == Ok::<Seq<char>, Seq<char>>(value@),
        config_value_spec(*old(config), key@) is Err ==> r is Err && r->Err_0@ == config_value_spec(
            *old(config),
            key@,
        )->Err_0 && *final(config) == *old(config),
{
    proof {
        reveal_strlit("server.url");
        reveal_strlit("server.api_key");
        reveal_strlit("output.format");
        reveal_strlit("display.no_color");
        reveal_strlit("true");
        reveal_strlit("false");
        assert("server.url"@.len() == 10);
        assert("server.api_key"@.len() == 14);
        assert("output.format"@.len() == 13);
        assert("display.no_color"@.len() == 16);
        assert("true"@.len() == 4 && "false"@.len() == 5);
    }
    if str_eq(key, "server.url") {
        config.server.url = owned(value);
        Ok(())
    } else if str_eq(key, "server.api_key") {
        config.server.api_key = owned(value);
        Ok(())
    } else if str_eq(key, "output.format") {
        config.output.format = Some(owned(value));
        Ok(())
    } else if str_eq(key, "display.no_color") {
        if str_eq(value, "true") {
            config.display.no_color = Some(true);
            Ok(())
        } else if str_eq(value, "false") {
            config.display.no_color = Some(false);
            Ok(())
        } else {
            let msg = concat3("display.no_color must be true or false (got ", value, ")");
            Err(msg)
        }
    } else {
        let mut msg = concat3("Unknown config key: ", key, ". Valid keys: ");
        msg.append("server.url, server.api_key, output.format, display.no_color");
        Err(msg)
    }
}

/// The masked form of an API key: `(not set)` when empty, otherwise its
/// first 8 characters (the whole key when shorter) followed by `...`.
pub open spec fn mask_spec(key: Seq<char>) -> Seq<char> {
    if key.len() == 0 {
        "(not set)"@
    } else if key.len() <= 8 {
        key + "..."@
    } else {
        key.take(8) + "..."@
    }
}

/// Mask an API key for display: first 8 characters + `...`, or
/// `(not set)`.
pub fn mask_api_key(key: &str) -> (r: String)
    ensures
        r@ == mask_spec(key@),
{
    let n = key.unicode_len();
    if n == 0 {
        owned("(not set)")
    } else if n <= 8 {
        let mut r = owned(key);
        r.append("...");
        r
    } else {
        let head = key.substring_char(0, 8);
        assert(head@ =~= key@.take(8));
        let mut r = owned(head);
        r.append("...");
        r
    }
}

/// The masked key never shows more than the key's first 8 characters.
pub proof fn lemma_mask_shows_at_most_eight_chars(key: Seq<char>)
    ensures
        key.len() > 0 ==> mask_spec(key) == key.take(if key.len() <= 8 { key.len() as int } else { 8 })
            + "..."@,
{
    if key.len() > 0 && key.len() <= 8 {
        assert(key.take(key.len() as int) =~= key);
    }
}

/// The rows of the configuration table: each key with its displayed value
/// (the API key masked, unset preferences shown with their defaults).
pub open spec fn config_rows_spec(config: AppConfig) -> Seq<Seq<Seq<char>>> {
    seq![
        seq!["server.url"@, config.server.url@],
        seq!["server.api_key"@, mask_spec(config.server.api_key@)],
        seq![
            "output.format"@,
            match config.output.format {
                Some(f) => f@,
                None => "(default: table)"@,
            },
        ],
        seq![
            "display.no_color"@,
            match config.display.no_color {
                Some(b) => bool_text(b),
                None => "(default: false)"@,
            },
        ],
    ]
}

/// The configuration table and `config get` agree: every row names a key
/// that `config get` accepts, and shows the value it prints (the API key
/// masked; an unset preference with its default spelled out).
pub proof fn lemma_table_agrees_with_get(config: AppConfig)
    ensures
        config_rows_spec(config).len() == 4,
        forall|i: int|
            0 <= i < 4 ==> config_value_spec(config, (#[trigger] config_rows_spec(config)[i])[0]) is Ok,
        config_rows_spec(config)[0][1] == config_value_spec(config, "server.url"@)->Ok_0,
        config_rows_spec(config)[1][1] == mask_spec(config_value_spec(config, "server.api_key"@)->Ok_0),
        config.output.format is Some ==> config_rows_spec(config)[2][1] == config_value_spec(
            config,
            "output.format"@,
        )->Ok_0,
        config.display.no_color is Some ==> config_rows_spec(config)[3][1] == config_value_spec(
            config,
            "display.no_color"@,
        )->Ok_0,
{
    reveal_strlit("server.url");
    reveal_strlit("server.api_key");
    reveal_strlit("output.format");
    reveal_strlit("display.no_color");
    let rows = config_rows_spec(config);
    assert(rows[0][0].len() == 10);
    assert(rows[1][0].len() == 14);
    assert(rows[2][0].len() == 13);
    assert(rows[3][0].len() == 16);
}

/// A two-cell row.
fn row2(key: &str, value: String) -> (r: Vec<String>)
    ensures
        strings_view(r@) == seq![key@, value@],
{
    let mut r = Vec::new();
    r.push(owned(key));
    r.push(value);
    assert(strings_view(r@) =~= seq![key@, value@]);
    r
}

/// Build the configuration table: a `Key`/`Value` header and one row per
/// setting.
pub fn config_table(config: &AppConfig) -> (t: comfy_table::Table)
    ensures
        table_header(t) == Some(seq!["Key"@, "Value"@]),
        table_rows(t) == config_rows_spec(*config),
{
    let ghost want = config_rows_spec(*config);
    let mut table = new_table();
    use_dynamic_arrangement(&mut table);
    set_header(&mut table, row2("Key", owned("Value")));
    add_row(&mut table, row2("server.url", config.server.url.clone()));
    assert(table_rows(table) =~= want.take(1));
    add_row(&mut table, row2("server.api_key", mask_api_key(config.server.api_key.as_str())));
    assert(table_rows(table) =~= want.take(2));
    let format_val = match &config.output.format {
        Some(f) => f.clone(),
        None => owned("(default: table)"),
    };
    assert(format_val@ == want[2][1]);
    let r3 = row2("output.format", format_val);
    assert(strings_view(r3@) =~= want[2]);
    add_row(&mut table, r3);
    assert(table_rows(table) =~= want.take(3));
    let no_color_val = match config.display.no_color {
        Some(b) => owned(bool_str(b)),
        None => owned("(default: false)"),
    };
    assert(no_color_val@ == want[3][1]);
    let r4 = row2("display.no_color", no_color_val);
    assert(strings_view(r4@) =~= want[3]);
    add_row(&mut table, r4);
    assert(table_rows(table) =~= config_rows_spec(*config));
    table
}

} // verus!
