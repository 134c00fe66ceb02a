# trade

The decision logic of a market-data collector and trading dashboard,
verified with Verus.

- `src/text.rs`: reading numbers and booleans from configuration text.
- `src/finnhub.rs`, `src/feed.rs`: the Finnhub trade feed: endpoint,
  subscription messages, and the connection protocol as a state machine.
- `src/alpaca.rs`: the Alpaca REST poller's schedule (New York market hours)
  and its refresh cycle.
- `src/collector.rs`: which services the data collector starts, and in what order.
- `src/config.rs`, `src/web.rs`, `src/order.rs`: configuration paths, the
  web server's settings and routes, and the open-orders page.
- `app/`: the services that perform the I/O the library decides on.
