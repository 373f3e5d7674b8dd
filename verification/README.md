# abunch

The backend of abun.ch: a bunch is a list of links published under a short
URL, optionally protected by a password; accounts are created with an
invitation token, and logged-in creators publish bunches.

- `src/` is the verified library (Verus): bunch URLs, password checks,
  login sessions, the request guards' decisions, validation of submitted
  bunches and accounts, CORS headers, and the decisions taken on what the
  database returns.
- `app/` is the Rocket web service around it: routes, cookies, JSON and the
  PostgreSQL queries.
- `tests/` exercises the library on concrete values.
