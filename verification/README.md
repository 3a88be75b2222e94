# realtime_chat

The rules of a small realtime chat server, written and proved in Verus:
registration, password login with a mailed one-time code, sessions, password
resets, and the routing of end-to-end encrypted messages between open sockets.

- `src/` is the library. Every function states in its contract what it returns
  and how it changes the state in memory; `auth/laws.rs` and `room/laws.rs` state
  what holds of logins, sessions, sockets and messages as a whole. Calls into
  other crates (`argon2`, `axum-extra`, `chrono`, `lettre`, `rand`, `uuid`) stand
  behind small wrappers whose contracts are taken on trust; each says what it
  claims.
- `tests/` runs the library with those crates linked.
- `app/` is the server around it: HTTP, WebSockets, Postgres, SMTP and JSON.

Where a function needs the clock or a random number, it hands the drawn value to
a function with an exact contract for every value, and itself states what holds
whatever was drawn.
