# secure_chat_backend

The logic of an invitation-only chat server, written in Verus and verified.

- `src/` is the library. `services/jwt.rs` builds access-token claims and
  refresh tokens; `services/stego.rs` seals chat messages with
  ChaCha20-Poly1305 under an Argon2-derived key, and proves that what it seals
  opens to the same message. `handlers/` holds the request workflows
  (registration, login and token refresh, invitations, message history, chat
  sessions) as step functions from a state and the outcome of the last
  database action to the next state and action. `middleware/auth.rs` reads
  bearer tokens, `server.rs` the server's settings, `text.rs` decimal numbers
  and prefixes, `ids.rs` identifiers. `store.rs` describes the tables the
  workflows act on, and proves what holds across requests: an invitation
  admits one registration, a refresh token is accepted once, a registered
  account can log in; and, chained through the workflows, that a new
  invitation leads to an account, an account to a session, and a refresh
  token to a new session. Chat messages are sealed before they are stored.
- `app/` is the server around it: axum routes, the PostgreSQL queries that the
  workflows ask for, JSON and token signing, and the WebSocket plumbing.
- `tests/` runs the library on concrete values.
