# dim

The verified core of a self-hosted media manager.

- `src/` — the library, verified with Verus: session tokens: issuing, signing and checking them (`auth`), the
  bookkeeping around library rows (`library`), the answers of the HTTP
  routes and error catchers (`routes`), the choices made while fetching
  ffmpeg (`bootstrap`), the poster cache's file names (`posters`), and a cloning holder for
  shared values (`shared`).
- `app/` — the server around it: SQLite access through diesel, the rocket
  routes and request guard, downloads and the poster cache.
- `tests/` — tests of the library, including tokens checked with
  `jsonwebtoken` itself.
