# Nervio Limiter

An agnostic rate limiter, verified with [Verus](https://github.com/verus-lang/verus).

A limiter keeps one counter per limited entity and bucket. A bucket is a name, a way to tell
requests apart (all together, by address, by an id, by a name of your own), a maximum of requests
per cycle and the length of a cycle. Counters live in memory, in Redis, or in Redis with the
recent ones in memory as well.

## Limiting a request

`Limiter::limit_this` takes the entity that a request counts for and the bucket. In in-memory
storage it decides at once. Where Redis is involved it returns what is to be read or stored there,
and `limit_this_fetched` and `limit_this_stored` go on with the reply. Every admitted request is
charged to its cycle, also the one that opens it: a bucket admits its maximum of requests per
cycle, and no more.

An admitted request is told its limit, what remains, and when the cycle ends, as a Unix timestamp
in milliseconds.

## Layout

- `src/` is the verified library.
  - `limiter`, `builder`: the limiter and its builder.
  - `model`: the state of a limiter as a mathematical value, and what each operation makes of it.
  - `laws`: what holds of the limiter as a whole.
  - `entity`, `errors`, `storage`: buckets, counters and steps; errors; storage and the report
    that Redis gives of its memory.
  - `memory_check`: the periodic check of how much memory the counters take.
  - `middleware`: the decisions of the middlewares for web servers.
  - `commands`, `memory`, `time`: Redis commands, the concurrent map, the clock. Each outside
    function that is called is stated there, or in `storage`, with what is claimed of it.
  - `text`: text and numbers.
- `tests/` runs the library.
- `app/` is ordinary Rust around it: connections, the background task, the middlewares for Actix
  Web and Axum.
