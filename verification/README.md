# deploykit

A terminal assistant that sets up a remote server over SSH: it keeps SSH
profiles, lets the user pick deployment targets (hardening, databases,
reverse proxies, AI agents, Docker, a binary scaffold) and runs their
shell scripts on the selected host, with a chat-style command line
(`/connect`, `/select`, `/deploy`, ...) and a log panel.

Layout:

- `src/` — the verified library (Verus). `app.rs` holds the application
  state and every command as a state transition that returns the outside
  work it needs (`Effect`); `event.rs` the reaction to keys and clicks;
  `deploy.rs` the step-by-step deployment run; `view.rs` the text and
  scroll positions that the panels show; `text.rs` the string handling
  (trimming, splitting, decimal numbers); `laws.rs` properties that span
  several operations.
- `app/` — the terminal program: drawing with ratatui, terminal events from
  crossterm, SSH sessions with ssh2, the profile files with serde and toml.
- `tests/` — tests of the library on concrete values.
