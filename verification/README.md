# lamprey_backend

The decision logic of a chat server backend (rooms, channels, members,
roles, invites, messages, media uploads, OAuth, TOTP, documents, calendars,
scripts, federation), written as plain functions over plain values and
proved with Verus.

Each request handler of the server reads state, decides, then writes and
broadcasts. The library holds the deciding part: what a request needs, which
error refuses it, and what it changes. Contracts state the exact outcome for
every input; laws (public proof functions named `law_*`) state what holds
across operations, such as that relationship operations keep a pair of
users in a valid state, or that someone else's private document branch is
hidden from every request on it.

Layout:

- `src/` — the verified library, one module per area (`member`, `grants`,
  `invite`, `media`, `oauth`, ...). `codec` holds the calls into outside
  crates (hashing, encodings, UUIDs, URLs, TOTP, random values, templates,
  HTTP dates), each with the contract it is trusted to meet.
- `tests/` — tests of the library on concrete values.
- `app/` — a small command-line front end that renders the web client's
  pages from a built client directory and plans garbage-collection runs.
  The HTTP server, its database and its services are not part of this crate.
