# deltadefi

A client library for the DeltaDeFi trading API, with its core verified.

- `src/` is the verified library: the data model of the API, the request that every
  endpoint sends (method, path, query and body), the validation of order parameters,
  the endpoints of each network stage, the wallets that sign transactions, the
  classification of account stream messages, what a stream connection does on each
  frame, and the bounded retries of streams that reconnect. The contracts pin the
  requests, validations and stream decisions exactly; what the wallet toolkit
  computes (whether it accepts a key, what a signed transaction is) is named after
  the key and transaction it depends on. The laws of message delivery, of the stream
  retries and of order validation are proved as public proof functions.
- `app/` is the network side around it: HTTP transport with `reqwest`, JSON
  decoding with `serde`, WebSocket connections with `tokio-tungstenite`, the
  reconnection backoff (floating point, with random jitter) and the market data
  types, whose prices are floating-point numbers.
- `tests/` exercises the library on concrete values.
