# stockfighter

A client library for the StockFighter trading-game API, with its core
verified in Verus.

- `src/` — the verified library: the request each REST call sends
  (`api.rs`), the reply variant each status code selects (`responses.rs`),
  the JSON body of a new order, quote decoding (`quote.rs`, over the JSON
  model in `json.rs`), wire names of directions and order types
  (`orders.rs`), timestamps (`time.rs`), decimal notation (`decimal.rs`),
  the newtypes and records (`newtypes.rs`, `model.rs`) and properties that
  span several functions (`laws.rs`).
- `app/` — the unverified edge: sending requests over hyper, reading reply
  bodies with serde, and opening the websocket feeds.
- `tests/` — tests of the library on concrete values.
