# rusty_exercise

A user-management HTTP API (sign-up, login, logout, listing users) whose
rules are a verified library.

- `src/` is the library, checked by Verus: the validated types `Name`,
  `Email` and `Password`; the login, session and logout decisions
  (`api::login`); finding and registering users (`auth`, `repository`,
  `services`); the error types and their HTTP answers (`helpers`,
  `types::response`), with the hashing library's failures as plain values
  (`hash_failure`); and the configuration (`config`, `settings`), including
  the parser for `.env` files and the steps of loading it. Argon2 hashing, e-mail validation,
  Unicode classes and segmentation, and random salts and ids come from
  outside crates through the small trusted functions in `crypto`,
  `unicode`, `types::email` and `text`, whose contracts state what those
  crates document.
- `app/` is the server: reading the environment and files, the PostgreSQL
  access with Diesel, the Actix Web handlers and sessions.
- `tests/` exercises the library on concrete values.
