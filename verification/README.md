# nebula

The account rules of the Nebula Inertia starter kit (login, registration,
e-mail verification, password reset, profile management, branding statics),
written in Verus with their contracts proved.

- `src/` — the verified library. Each form's validation pipeline (field
  rules, then the cross-field check), what every handler answers for each
  outcome of the framework work it does, the row a profile update writes,
  the static-file whitelist, the header lookup of a request snapshot, and
  the links mailed to users. The e-mail rule is the `validator` crate's.
- `app/` — the HTTP side: routes, middleware, the framework handlers that
  read requests, talk to the database and the mailer, and render the
  library's `Reply` values.
- `tests/` — tests of the library on concrete values.
