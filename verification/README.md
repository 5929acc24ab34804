# rustplus

A client library for the Rust+ companion protocol.

- `src/` is the verified library: the socket builder and its settings, the
  server address, the request that each command sends and its rate-limit
  cost, sequence numbers, how a response is judged (accept, retry after a
  `rate_limit` refusal, or fail) and read, the table that routes responses
  to their waiters, how a broadcast becomes a typed event, and the
  conversions from protocol messages to the library's records.
- `app/` is the async transport around it: the protobuf wire messages, the
  websocket connection and reader task, the token-bucket rate limiters, and
  the records that carry floating-point map data.
