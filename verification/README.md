# pcloud

A self-hosted file storage and account service. The decisions it makes are written and
proved in Verus under `src/`; the HTTP server around them is ordinary Rust under `app/`.

- `src/user.rs` — the users table (`UserStore`): unique names, positive distinct ids,
  creation with a bcrypt hash, lookup by name or id, deletion.
- `src/auth/` — signing in and up, the token claims, the bearer-token middleware's
  decision, and the JSON replies of the `/auth` endpoints.
- `src/routes/` — the portal's redirects and pages, and the file endpoints' replies and
  upload bookkeeping.
- `src/ansible.rs`, `src/json.rs` — the `ansible-playbook` arguments, its failure report,
  and reading the container lines out of its JSON report.
- `src/services/` — the services the API mounts (containers, virtual networks) and the
  bodies they answer with.
- `src/password.rs`, `src/clock.rs` — the calls into `bcrypt` and `chrono`, with what is
  assumed of them.
- `app/` — axum routes, sessions, JWT signing, the SQLite file the table is saved to,
  file and process I/O.
