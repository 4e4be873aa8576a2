# music_licensing_backend

A backend that tracks which songs are used in which scenes of which movies,
and the licensing negotiation of each such use (a *track*).

The crate is split in two:

- `src/` is the verified library (Verus). It holds the license workflow
  (`domain::license`: the legal steps and the laws they obey), the track
  time-window rule (`domain::track`), the validation of request fields
  (`validation`), the errors and the HTTP status each is answered with
  (`error`), the mapping of joined rows to response shapes and the grouping
  of a movie's tracks by scene (`repositories::tracks`), and the decisions
  each handler takes between its database round-trips (`handlers`). Row
  identifiers are carried as the 128-bit value of their UUID and timestamps
  as microseconds since the Unix epoch.
- `app/` is the server around it: configuration, the Postgres pool and
  migrations, the SQL queries, the axum routes, the JSON shapes, and the
  server-sent event stream of license changes.

`tests/` runs the library on concrete inputs.
