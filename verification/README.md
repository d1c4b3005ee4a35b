# miseo

Stable global CLI tools on top of mise: each tool is installed into `~/.miseo`
with explicit runtime versions and exported via `~/.miseo/.bin`.

This crate is the verified core, written in Verus:

- `src/spec/` — backends, runtimes, runtime selectors (`node@lts`), runtime
  pins kept in runtime order, tool identities (`npm:prettier`), tool requests
  (`npm:prettier@3`) with their parsers, and the filesystem layout of installs.
- `src/mise/` — the arguments the host `mise` is run with and the reading of
  what it answers.
- `src/cli/` — the command types and the UI renderer, which turns outcomes
  into the lines to print.
- `src/tasks/` — the outcomes of install, upgrade and uninstall, and the
  step-by-step decisions of an install.
- `src/text.rs`, `src/path.rs` — the string and path building blocks.
- `src/error.rs` — errors, their messages and exit codes.

`app/` holds what Verus does not check: command-line parsing with clap, the
terminal, running `mise` as a subprocess, and the loop that performs the
install steps the library decides on.
