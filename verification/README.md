# codex_session_control

The decision logic of Codex Session Control, a local controller that connects MCP clients to
the app-server owned by the Linux build of Codex Desktop, written in Verus with its contracts
proved.

- `src/` is the verified library:
  - `cli` and `cli_output`: command-line passthrough and every user-facing report, byte for
    byte, with the exit status of each;
  - `app_server`: selecting and checking the app-server socket, reading the `initialize`
    reply, and the request exchange that decides, frame by frame, what a reply means and
    when a mutation's outcome is unknown;
  - `desktop`: the Desktop entry parser (`Exec` tokenizing, escaping layers, field codes,
    `env` assignments), launcher discovery, the attachment descriptor and its no-replace
    publication;
  - `diagnostics`, `install`, `version`, `paths`, `text`, `error`: supporting pieces.
- `tests/` runs the library on concrete values.
- `app/` is the thin program around it: environment, file system, processes, WebSocket I/O
  and the serde copies of the library's types.
