# flow

A terminal remote control for the lifecycle of a *work unit*: a Jira ticket,
a repository, a git worktree and a tmux session. `flow` lists your tickets,
worktrees and pull requests, creates a worktree and session for a ticket or a
pull request in one keystroke, and tears them down again.

## Layout

- `src/` is the library, written in Verus and verified: identifier
  validation, slugs, the parsers for git, tmux, `gh` and Jira output, the
  cache and fetch bookkeeping, every screen's key handling, the multi-step
  commands (`jobs`), and the text the screens show. The public functions
  state their results in their `ensures`, except where the result rests on
  the outside world alone (the keychain reads and writes in `keychain`); the
  properties that relate several functions are proof functions named
  `law_*`.
- `app/` is the program around it: command-line parsing, the tokio event
  loop, the ratatui drawing, and everything that touches processes, the
  network or the file system.
- `tests/` runs the library on concrete values.

Outside crates are called from the library only through small wrappers whose
contracts say what the crate's documentation promises (`paths`, `weburl`,
`keychain`, `runtime`, and the clock in `cache` and `widgets`).
