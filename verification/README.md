# backend

Verified core of an invoicing backend with Google sign-in. `src/` is the
library, checked by Verus; `app/` is the HTTP server around it (axum, sqlx,
reqwest) and holds no decisions of its own.

- `services::auth` — access tokens (HS256 JWT) and rotating refresh tokens
  stored as SHA-256 hex digests.
- `handlers::auth::RefreshFlow`, `handlers::oauth::GoogleCallbackFlow` — the
  refresh and sign-in conversations with the database and Google, one step
  per answer; the server performs each action and feeds back the result.
- `handlers::invoice`, `models::invoice` — ownership of invoices, updates,
  pagination and answers.
- `error` — the HTTP status, code and message of each error.
- `config` — settings from environment variables.
- `laws` — properties relating the functions above.
