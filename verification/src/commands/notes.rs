//! `pipelite notes`: the parent-type gate and where a note body comes from.

use vstd::prelude::*;

use crate::error::{err_view, CliError, CliErrorView, ErrorKind};
use crate::text::{
    concat2, concat3, flatten_line_breaks, flatten_spec, owned, str_eq, truncate_spec,
    truncate_with_ellipsis,
};

verus! {

/// The REST route segment of a note-capable parent, by its CLI name:
/// deals, orgs (organizations), people, activities; case-sensitive.
pub open spec fn route_segment(entity_type: Seq<char>) -> Option<Seq<char>> {
    if entity_type == "deals"@ {
        Some("deals"@)
    } else if entity_type == "orgs"@ {
        Some("organizations"@)
    } else if entity_type == "people"@ {
        Some("people"@)
    } else if entity_type == "activities"@ {
        Some("activities"@)
    } else {
        None
    }
}

/// The rejection of a parent type that cannot carry notes.
pub open spec fn not_note_capable_error(entity_type: Seq<char>) -> CliErrorView {
    err_view(
        ErrorKind::InvalidInput,
        "Notes are not available on '"@ + entity_type
            + "' — notes are only available on deals, orgs, people, activities"@,
        "Valid entity types: deals, orgs, people, activities (e.g. pipelite notes list deals <deal-id>)"@,
    )
}

/// Map a CLI entity-type positional to its REST route segment.
pub fn resolve_entity_type(entity_type: &str) -> (r: Result<&'static str, CliError>)
    ensures
        r is Ok <==> route_segment(entity_type@) is Some,
        r is Ok ==> r->Ok_0@ == route_segment(entity_type@)->0,
        r is Err ==> r->Err_0@ == not_note_capable_error(entity_type@),
{
    if str_eq(entity_type, "deals") {
        Ok("deals")
    } else if str_eq(entity_type, "orgs") {
        Ok("organizations")
    } else if str_eq(entity_type, "people") {
        Ok("people")
    } else if str_eq(entity_type, "activities") {
        Ok("activities")
    } else {
        Err(
            CliError::InvalidInput {
                detail: concat3(
                    "Notes are not available on '",
                    entity_type,
                    "' — notes are only available on deals, orgs, people, activities",
                ),
                hint: owned(
                    "Valid entity types: deals, orgs, people, activities (e.g. pipelite notes list deals <deal-id>)",
                ),
            },
        )
    }
}

/// The answer to `notes get`: the server has no single-note GET, so the
/// command is rejected before any request.
pub fn single_note_get_error() -> (e: CliError)
    ensures
        e@ == err_view(
            ErrorKind::InvalidInput,
            "The server exposes no single-note GET"@,
            "the server has no single-note GET — use `notes list <type> <id> --json`"@,
        ),
{
    CliError::InvalidInput {
        detail: owned("The server exposes no single-note GET"),
        hint: owned("the server has no single-note GET — use `notes list <type> <id> --json`"),
    }
}

/// Where the text of a note comes from.
#[derive(Debug, PartialEq, Eq)]
pub enum BodySource {
    /// The `--body` value itself.
    Literal(String),
    /// The file named after the `@` of `--body @path`.
    File(String),
    /// Standard input, read to its end (`--body @-` or `--stdin`).
    Stdin,
    /// An interactive prompt.
    Prompt,
}

/// The rejection of `--body` together with `--stdin`.
pub open spec fn multiple_sources_error() -> CliErrorView {
    err_view(
        ErrorKind::InvalidInput,
        "Multiple note body sources given (--body and --stdin)"@,
        "Pass exactly one: --body <text|@file>, --body @- (reads stdin), or --stdin."@,
    )
}

/// The rejection when no body source is given and none can be prompted for.
pub open spec fn missing_body_error() -> CliErrorView {
    err_view(
        ErrorKind::MissingInput,
        "No note body provided"@,
        "Provide --body <text>, --body @file, --body @-, or --stdin (or run interactively without --no-input)."@,
    )
}

/// The mathematical content of a [`BodySource`].
pub enum BodySourceView {
    Literal(Seq<char>),
    File(Seq<char>),
    Stdin,
    Prompt,
}

impl View for BodySource {
    type V = BodySourceView;

    open spec fn view(&self) -> BodySourceView {
        match self {
            BodySource::Literal(s) => BodySourceView::Literal(s@),
            BodySource::File(p) => BodySourceView::File(p@),
            BodySource::Stdin => BodySourceView::Stdin,
            BodySource::Prompt => BodySourceView::Prompt,
        }
    }
}

/// The source a `--body` value denotes: `@-` is standard input, `@path` a
/// file, anything else the text itself.
pub open spec fn body_flag_source(v: Seq<char>) -> BodySourceView {
    if v.len() > 0 && v[0] == '@' {
        if v.drop_first() == "-"@ {
            BodySourceView::Stdin
        } else {
            BodySourceView::File(v.drop_first())
        }
    } else {
        BodySourceView::Literal(v)
    }
}

/// The choice of body source, in the fixed precedence: two explicit
/// sources are rejected before anything is read; then `--body`, then
/// `--stdin`, then a prompt (only on a terminal with prompting allowed and
/// a prompt to show), else the body is missing.
pub open spec fn body_source_spec(
    body: Option<Seq<char>>,
    stdin: bool,
    no_input: bool,
    stdin_is_terminal: bool,
    has_prompt: bool,
) -> Result<BodySourceView, CliErrorView> {
    if body is Some && stdin {
        Err(multiple_sources_error())
    } else if body is Some {
        Ok(body_flag_source(body->0))
    } else if stdin {
        Ok(BodySourceView::Stdin)
    } else if !no_input && stdin_is_terminal && has_prompt {
        Ok(BodySourceView::Prompt)
    } else {
        Err(missing_body_error())
    }
}

/// Chooses where the note body comes from (see [`body_source_spec`]);
/// `stdin_is_terminal` tells whether standard input is a terminal and
/// `has_prompt` whether the caller has a prompt to show.
pub fn body_source(
    body: &Option<String>,
    stdin: bool,
    no_input: bool,
    stdin_is_terminal: bool,
    has_prompt: bool,
) -> (r: Result<BodySource, CliError>)
    ensures
        r is Ok <==> body_source_spec(
            match body {
                Some(b) => Some(b@),
                None => None,
            },
            stdin,
            no_input,
            stdin_is_terminal,
            has_prompt,
        ) is Ok,
        r is Ok ==> Ok::<BodySourceView, CliErrorView>(r->Ok_0@) == body_source_spec(
            match body {
                Some(b) => Some(b@),
                None => None,
            },
            stdin,
            no_input,
            stdin_is_terminal,
            has_prompt,
        ),
        r is Err ==> Err::<BodySourceView, CliErrorView>(r->Err_0@) == body_source_spec(
            match body {
                Some(b) => Some(b@),
                None => None,
            },
            stdin,
            no_input,
            stdin_is_terminal,
            has_prompt,
        ),
{
    proof {
        reveal_strlit("-");
    }
    if body.is_some() && stdin {
        return Err(
            CliError::InvalidInput {
                detail: owned("Multiple note body sources given (--body and --stdin)"),
                hint: owned(
                    "Pass exactly one: --body <text|@file>, --body @- (reads stdin), or --stdin.",
                ),
            },
        );
    }
    match body {
        Some(v) => {
            let s = v.as_str();
            let n = s.unicode_len();
            if n > 0 && s.get_char(0) == '@' {
                let rest = s.substring_char(1, n);
                assert(rest@ =~= v@.drop_first());
                if str_eq(rest, "-") {
                    return Ok(BodySource::Stdin);
                }
                return Ok(BodySource::File(owned(rest)));
            }
            return Ok(BodySource::Literal(v.clone()));
        },
        None => {},
    }
    if stdin {
        return Ok(BodySource::Stdin);
    }
    if !no_input && stdin_is_terminal && has_prompt {
        return Ok(BodySource::Prompt);
    }
    Err(
        CliError::MissingInput {
            detail: owned("No note body provided"),
            hint: owned(
                "Provide --body <text>, --body @file, --body @-, or --stdin (or run interactively without --no-input).",
            ),
        },
    )
}

/// The error for a `--body @path` file that cannot be read.
pub fn body_file_error(path: &str, cause: &str) -> (e: CliError)
    ensures
        e@ == err_view(
            ErrorKind::InvalidInput,
            "Failed to read file '"@ + path@ + "': "@ + cause@,
            "Check that the file path is correct and the file exists."@,
        ),
{
    let mut detail = concat3("Failed to read file '", path, "': ");
    detail.append(cause);
    CliError::InvalidInput {
        detail,
        hint: owned("Check that the file path is correct and the file exists."),
    }
}

/// The error for standard input that cannot be read as text.
pub fn body_stdin_error(cause: &str) -> (e: CliError)
    ensures
        e@ == err_view(
            ErrorKind::InvalidInput,
            "Failed to read stdin: "@ + cause@,
            "Check that stdin is providing readable UTF-8 text."@,
        ),
{
    CliError::InvalidInput {
        detail: concat2("Failed to read stdin: ", cause),
        hint: owned("Check that stdin is providing readable UTF-8 text."),
    }
}

/// The width of the content cell in the notes table.
pub const NOTE_CELL_WIDTH: usize = 80;

/// The content cell of a note in the table: the text on one line,
/// shortened to 80 characters (other formats keep the raw text).
pub fn note_content_cell(content: &str) -> (r: String)
    ensures
        r@ == truncate_spec(flatten_spec(content@), NOTE_CELL_WIDTH as nat),
{
    let flat = flatten_line_breaks(content);
    truncate_with_ellipsis(flat.as_str(), NOTE_CELL_WIDTH)
}

} // verus!
