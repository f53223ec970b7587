# api

The decisions of an authentication service, verified with Verus.

- `src/error.rs`: the service's errors, their HTTP status, code and message,
  and how failures of the user store and of outside crates map onto them.
- `src/middleware/`: how a request's session identity is resolved into the
  user to look up, and the database pool a request needs.
- `src/routes/flow.rs`: sign-in, association and removal of a credential as
  state machines; `src/routes/oauth/github.rs`: the GitHub authorization
  redirect and the OAuth callback as a state machine.
- `src/routes/auth.rs` and below: the account routes' requests, answers and
  session-token checks.
- `app/`: the actix-web server that performs what the library asks for.
