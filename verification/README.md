# krypto

The decision logic of a crypto trading research toolkit, written in Verus and
proved against its contracts.

- `src/` is the verified library: candle intervals and their labels, cache
  paths, kline and funding-rate paging, the ordering and de-duplication of
  fetched candles, the genetic encoding of trading strategies (building,
  decoding, crossover, mutation), ticker data checks, the live bot's safety
  interlock and bar-count gates, the mock exchange's order book, experiment
  look-back resolution, and the decisions of the optimisation and trading
  missions.
- `tests/` runs the library on concrete values.
- `app/` is the command-line program around it: argument handling, files,
  the clock, `git`, the genevo operators that draw random numbers and hand
  them to the library, serde and error-display copies of library types, and
  the floating-point parts (mock exchange fills and PnL, live configuration
  sizes, number formatting).

Outside crates called from `src/` go through a few trusted wrappers whose
doc comments say what they assume: `chrono` date parsing and
`str::to_lowercase`.
