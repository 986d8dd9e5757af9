# coolticker

A small ticker abstraction: write code generic over how it is paced, drive it
by a real clock in production and by a mock in tests.

- `src/` is the verified library: the `Ticker` and `Randomizable` traits, the
  anchored tick schedule (`schedule`), the randomized period source
  (`random`) and the events a mock ticker reports (`mock`). Its contracts and
  the laws of the schedule are proved by Verus.
- `app/` holds the concrete tickers, which read clocks, sleep threads, await
  tokio and browser timers and pass messages over channels: the
  thread-sleeping tickers, the tokio tickers and the `AsyncTicker` trait, the
  `wasm` tickers and the mock ticker with its control handle.
- `tests/` runs the library on a simulated clock.
