# vecbit

Bools as a service: every user owns the 64 bits of one `u64`, of which the
web API reads and writes bools 0 to 62, after a login with a magic link sent
by mail.

- `src/` is the verified library (Verus): bit manipulation (`vecbit`), the
  API decisions (`api`), the magic-link sealing with AES-256-GCM and base64
  (`auth`, `codec`), the login steps (`ui`), the configuration values
  (`app`), the setup records and the session master key (`init`), the errors (`error`) and the records
  (`model`).
- `app/` is the web server around it: actix-web handlers and routes, the
  SQLite store, the session cookie, the templates and the mail transport.
- `tests/` runs the library on concrete values.
