# pipelite

A command-line client for the Pipelite CRM, built around a library whose
decisions are verified with Verus.

- `src/` is the verified library: how server answers become errors, how
  RFC 7807 problem bodies are read, how list queries are encoded, the
  rate-limit delay, the cache's file layout and expiry, the paging loops,
  and the decisions of the command handlers (which input source to use,
  which plan a create/update/delete follows, which custom fields the flags give,
  what body a create or update request sends, what `config set` changes,
  how table cells are flattened and shortened, and how a one-by-one batch
  create counts and reports its items).
  Calls into `serde_json`, `comfy_table`, `chrono` and `chrono_humanize`
  go through small trusted wrappers whose contracts name what those crates
  return.
- `tests/` runs the library on concrete inputs.
- `app/` is the program around it: the command line (clap), HTTP
  (reqwest/tokio), prompts (dialoguer), files, and terminal output.
