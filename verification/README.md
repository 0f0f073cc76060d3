# photo_backend

A small web backend for user accounts and photo uploads, with its logic
verified by Verus.

- `src/` is the verified library: account records and bcrypt password
  checks (`account`), the decisions of authorization and login (`auth`),
  HS256 token claims and signing (`token`), SurrealQL statement text
  (`query`), route replies (`reply`), the photo upload flow (`upload`),
  start-up settings (`settings`), and the text routines they rest on
  (`text`: decimal numerals, unsigned parsing, pattern replacement).
- `app/` is the actix-web server around it: routing, the SurrealDB and S3
  clients, environment and clock reads, and the JSON forms of the library's
  types. It drives the library's step functions and performs the I/O that
  each step asks for.
- `tests/` runs the library on concrete values.
