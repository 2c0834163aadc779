# vcu_server

The decision core of a local computer-use runtime: which browser tab or desktop
window a request binds to, which route a click, type, scroll or wait takes (or why it
is refused), the extension bridge's command queue, the borrowing of user tabs by
sessions, the parsing of AX / UIA / process-list output, and the checks behind the
doctor report. Every function in `src/` carries a contract that Verus proves.

Layout:

- `src/` — the verified library (Verus). `api.rs` holds the request decisions,
  `browser/extension.rs` the bridge state machine and the extension backend's calls
  and replies, `sessions.rs` the session book, `login_state.rs` the user-browser
  lens, `app/` the macOS, Windows and mock desktop adapters' parsing and planning.
- `tests/` — ordinary Rust tests run against the compiled library.
- `app/` — host code around the library: spawning `osascript` and PowerShell,
  process scans, the clock and the long-poll bridge, file copies, and the
  floating-point screen geometry.
