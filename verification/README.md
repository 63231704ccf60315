# ccrs

A library of clients for cryptocurrency and event-contract exchanges (Aster, Binance spot
and USDⓈ-M futures, Bitget, Bitstamp, Bybit, Coinbase, Gate.io, HTX, Hyperliquid, Kalshi),
written in Verus: every request builder, signature, response converter and websocket
message classifier in `src/` carries a contract that Verus proves.

- `src/` is the verified library. Calls into outside crates (HMAC, hashes, Base64, URL
  parsing, Ed25519, RSA-PSS, secp256k1, Keccak, gzip, the clock, random bytes) stand
  behind small trusted wrappers in `signing.rs`, `time.rs` and `compression.rs`, each with
  a doc comment that says what its contract claims of the outside function.
- `src/laws.rs` holds the properties that span several functions, proved.
- `app/` is the I/O around the library: HTTP, websockets, serde_json and MessagePack, the
  clock and the process-wide client order id state, and the few computations that read
  numbers as floating point.
- `tests/` runs the library on concrete messages.
