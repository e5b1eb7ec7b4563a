# data_oracle

The verified core of a data-feed oracle service, written in Verus.

- `src/domain`: feed ids, data points (floats held as their binary64 bit
  patterns, UUIDs as 128-bit integers, times as seconds and nanoseconds),
  feed configurations and feed state.
- `src/aggregation/engine.rs`: turns a fetched point into a verified point
  (confidence gate, fresh v4 id from `uuid`, current time from `chrono`).
- `src/state/feed_manager.rs`: the feed registry, a `dashmap::DashMap`
  behind trusted wrappers, with its well-formedness and exact contracts.
- `src/api/handlers/feeds.rs`: what the endpoints answer and check.
- `src/error.rs`: the error type and the HTTP reply for each error.
- `src/sources/coingecko.rs`: which feeds the CoinGecko source serves.
- `src/laws.rs`: properties spanning several operations, proved.
- `app/`: the axum service, Postgres storage and HTTP data source around it.
