# gex_strategy

The verified core of a GEX-based intraday equity strategy, written in Verus.

- `src/` is the library, verified by Verus. Every public function in it
  carries a `requires`/`ensures` contract (a few private helpers have
  none, and their bodies are still verified free of panics and overflow); the `law_*` proof functions state properties
  that span several functions (a read after a write, a footer that parses back
  to the set it was written from, the ranking of live entry candidates, the
  poll back-off, the trading calendar, the order of `YYYY-MM-DD` texts). Calls into `chrono`, `chrono-tz`,
  `nyse-holiday-cal`, `base64` and a few std functions go through small
  trusted wrappers whose doc comments say what each claims.
- `tests/` runs the library on concrete values.
- `app/` is a thin command-line front end: it reads the clock, the file
  system and arguments, checks each library precondition before the call,
  and holds the floating-point rules (commission, slippage, bucket
  classification) that the library leaves out. `app/live_loop.rs` holds the
  driver of the live trading loop: it performs the actions that
  `live_cycle_step` decides and feeds back what it observes, through a
  `LiveIo` trait. No implementation of that trait (a broker binding) is part
  of this project yet, so nothing calls the driver.

Prices inside the library are integer cents and share counts are whole
shares; times are Unix seconds and days are counted from 0001-01-01.
