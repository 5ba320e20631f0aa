# csm — Copilot Session Manager

A command-line tool for managing GitHub Copilot coding sessions inside
[Zellij](https://zellij.dev). Sessions run in local Git worktrees or in remote
GitHub Codespaces.

The decisions of the tool are a library verified with
[Verus](https://github.com/verus-lang/verus); the program around it does the
input and output.

## Layout

| Path            | What it holds                                                             |
|-----------------|---------------------------------------------------------------------------|
| `src/`          | the verified library                                                      |
| `src/commands/` | one module per command, and what the commands store and show              |
| `src/codespace/`| Codespaces: accepted names and paths, and the operations on them          |
| `src/laws/`     | what holds of names, files and whole commands, as proved propositions     |
| `app/`          | the program: arguments, database, processes, files, terminal              |
| `tests/`        | tests of the library, among them whole commands against a world in memory |

## How the library and the program meet

A command is a *flow*: a state that is told what came of the last piece of
outside work and says which piece comes next. `flow::Effect` lists the work that
can be asked for, `flow::Event` the answers. `app/host.rs` does the work.
Because a flow is a function from state and event to state and effect, the laws
can speak of every run of a command, whatever the outside world answers: that a
soft removal deletes nothing for good, that a Codespace that could not be
deleted stays on record, that only the owner's account touches a Codespace.

What went wrong on the way without ending a command, and what is about to
happen, are *remarks* (`remark::Remark`). A flow that makes them says for each
state and event which ones (`remark::Narrated`); the program logs them.

Text, times and identifiers are read and written by small functions with exact
contracts. Calls into `chrono`, `uuid` and the few functions of the standard
library that Verus has no specification for are wrapped; each wrapper says what
is taken on trust.
