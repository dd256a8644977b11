# anytype_rs

A client for the API of the local Anytype app, with a command-line program,
whose logic is verified with Verus.

## Layout

- `src/` — the verified library.
  - `api/` — the API's data types, the paths requests go to, and how a
    failed answer becomes an error.
  - `cache/` — the name-to-id cache with time-to-live entries, and the
    resolver that answers names from it or from what the API listed.
  - `commands/` — the Nushell plugin's commands: what they require of their
    arguments, which requests they build, how they name their failures,
    which cached names they forget once the API agrees, and what they hand
    back (records and `AnytypeValue`s).  `commands/matter.rs` reads the YAML
    front matter of a markdown file (through gray_matter) and
    `commands/import.rs` maps it onto a type's properties.
  - `cli/` — the command-line program's subcommands: their arguments, the
    requests they send and the text they print.
  - `json.rs`, `text.rs`, `value.rs`, `error.rs`, `plugin.rs` — JSON values,
    text helpers, the pipeline value, errors and the plugin's configuration.
- `tests/` — tests of the library.
- `app/` — the `anytype` program: argument parsing, the HTTP exchange, files,
  and printing, around the library.

## What stays outside the library

- Reading and writing files (the API key, the challenge id, the markdown
  file), the HTTP exchange with the Anytype app, and printing live in `app/`.
  The library computes the paths, requests, reports and answers they use.
- Turning JSON into text and text into JSON (serde) happens in `app/`, on
  copies of the library's types.
- The Nushell plugin's shell (its command signatures and the plugin
  runtime) is not part of this crate: its crates are not available here.
  The decisions of each plugin command are in `commands/`.
- The cache is used through `&mut` borrows: the contracts describe what each
  operation does to it, which a shared, concurrently changed cache would not
  allow.
