# spectacles

Data types and decision logic for Discord applications built from Spectacles services,
verified with Verus.

- `src/` is the verified library:
  - `models`: Discord's data types, their builders and their wire codes.
  - `gateway`: a shard's session state machine and the sharding manager's choices.
  - `sharder`: the sharder's options and the routing of guild messages to shards.
  - `ratelimiter`: route keys, buckets, and the rate limiting proxy's decisions.
  - `cache`: stores of Discord objects over a key-value backend.
  - `brokers`: queue names of the message broker.
  - `text`: decimal numbers and string tests as Discord's formats use them.
- `tests/` runs the library on concrete values.
- `app/` is the command line client: the websocket connections, the HTTP proxy, the AMQP
  broker, the Redis backend and the JSON forms of the library's types.
- The AMQP broker is reached through `lapin`, the maintained successor of `lapin_futures` by
  the same authors, which works on today's `tokio`.
