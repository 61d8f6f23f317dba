# prefix_prime

Primes the prefix cache of inference workers: one completion to each worker, one row
back from each.

- `src/` is the verified library. It decides, step by step, what a prime does next and
  which row it reports; it performs no I/O.
- `app/` performs the steps: HTTP through `reqwest`, the deadline through `tokio`, and
  the gateway's workers and backend clients through the traits in `app/worker.rs`.
- `tests/` runs the library against scripted workers.

A prime over HTTP makes the body, posts it to `/v1/completions`, records the engine's
status with the circuit breaker, reads the answer to its end and reports. A prime over
gRPC or ZMQ acquires a client, builds and finalizes a generate request, sets the
data-parallel rank where the worker has one, generates, records the result, drains the
stream, marks it completed and reports 200. `src/laws.rs` proves what holds of every
such run.
