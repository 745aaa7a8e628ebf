# agent_gateway

The decision core of an mTLS HTTP/2 CONNECT gateway, verified with Verus.

- `src/config.rs`: configuration values, defaults, and the rules they have to meet
- `src/rate_limit.rs`: a byte allowance per client identity and time window
- `src/destination.rs`, `src/policy.rs`: where a request goes, its canonical spelling, and
  what a policy engine is asked and answers
- `src/proxy.rs`, `src/audit.rs`: the steps of a connection, a CONNECT request and its
  tunnel, with what the client is answered and what is put on record
- `src/clock.rs`, `src/text.rs`: durations, the monotonic clock, and text helpers

Each executable function states in its contract what it returns; what holds across
functions is stated by public proof functions in the same files. Contracts that are
believed rather than proved are those of `Duration`, `Instant`, `Arc::clone`,
`str::to_ascii_lowercase` and `http::uri::Authority`, and are marked where they stand.

`app/` is the gateway around the core: sockets, TLS, files, logs. It denies every request
until a policy engine is plugged in. `tests/` exercises the core.
