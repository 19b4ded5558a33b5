# unilang

A verified library for describing CLI commands and generating what a
command framework needs from those descriptions, written in Verus.

- `src/data` — validated command names, versions and namespaces, command
  statuses, argument kinds and command definitions with their builder.
- `src/command_validation.rs` — the checks a command passes before it is
  registered.
- `src/help.rs` — help pages at several levels of detail.
- `src/build` — the build step: manifest checks, discovery rules, type
  hints and the generated static command table.
- `src/multi_yaml` — assembling commands from several modules: the CLI
  builder, the multi-manifest aggregator and the aggregated table source.
- `src/pipeline`, `src/parser_helpers.rs`, `src/loader.rs`,
  `src/interner.rs`, `src/keyed.rs` — pipeline summaries, error-message
  reading, parsing checks, routine links, the string cache and keyed lists.
- `src/cargo_tool` — the project health-check tool's logic.
- `app/` — the tool's entry point and the file, environment and document
  handling around the library.
