# scheduality

A Discord bot that lets guild members share upcoming music releases, and
a small HTTP server beside it. This crate is their verified core, written
in Verus:

- `src/calendar.rs`: calendar dates as chrono represents them (validity,
  the `YYYY-MM-DD` text, the `YYYYMMDD` text of the release form) and the
  calls into chrono.
- `src/decimal.rs`: decimal integers read the way `str::parse` reads them.
- `src/modals.rs`: release submissions, their typed builder, and the
  reading of a submitted "Add Release" modal.
- `src/messages.rs`: the texts the bot shows and logs.
- `src/guild.rs`: who may add a release to a guild, and the order of the
  lookups and writes that adding one takes.
- `src/events.rs`: what the bot does on each gateway event.
- `src/server.rs`: the replies of the HTTP server and the UUIDs of its
  entities.

`app/` holds the programs themselves (Discord through poise, PostgreSQL
through sqlx, HTTP through actix-web); they make the calls the library
asks for and report the results back. `tests/` runs the library against
the real chrono and uuid crates.
