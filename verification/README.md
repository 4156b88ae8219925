# rs2026: meeting-room reservations

A small service for booking meeting rooms: users, rooms, and reservations of a
room for a time slot.

- `src/` is the library, written in Verus and verified.
  - `common::time`: half-open time slots (`TimeSlot`), points in time as
    nanoseconds since the Unix epoch, the clock and RFC 3339 formatting (chrono).
  - `common::error`: the errors and the HTTP status, code and text of each.
  - `db`: the store (`Database`) with its invariant: keys run from 1 upwards,
    e-mail addresses are unique, and no two active reservations of a room
    overlap. `db::laws` holds what is proved of the store across operations.
  - `room`, `user`, `reservation`: types, the repository operations on the store,
    and the request handlers from decoded request to answer.
- `app/` is the HTTP server (axum, tokio): JSON decoding and encoding, routing,
  and the SQLite file (diesel) that mirrors the store and is read back at start-up.
- `tests/` exercises the library.

Run the server with `DATABASE_URL` pointing at a SQLite file whose tables follow
`app/persistence.rs`. The store in memory is the authority: one server process owns
the file, and the rows it holds must make a well-formed store for the server to start.
