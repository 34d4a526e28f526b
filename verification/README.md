# docsrs_cli

A one-shot command-line client for crates.io search and docs.rs
documentation, built around a library verified with Verus.

## Layout

- `src/` — the verified library. Every input is validated at the boundary
  (`domain`: crate names, references, versions, item paths, origins, search
  queries, match modes; `item_kind`), every failure is classified into a
  stable kind and exit code and rendered in English and Brazilian Portuguese
  (`error`, `i18n`), and the retry, backoff, rate-limit, body and output
  budget decisions are made here (`retry`, `http`, `render`). `ops` resolves
  the arguments of the network commands and holds the not-found recovery of
  `get-item` as a step function (no command in `app/` runs it yet: the
  docs.rs page parsing it needs is not part of this crate); `meta` describes the command tree and the
  schema catalogue; `local_cmds` holds the refusal of destructive `cache` and
  `config` verbs on an ambient target and their output lines. Calls into `url`, `regex`, `httpdate`, `sys-locale` and
  std go through small trusted wrappers whose contracts are stated next to
  them.
- `app/` — the binary: argument parsing (clap), the tokio runtime, HTTP
  (reqwest), JSON (serde) and terminal output. It serves `search-crates`,
  `version`, `doctor` and `commands`, hands the library plain values and
  performs the retry, rate-limit and budget decisions the library makes.
- `tests/` — tests of the library's public API.
