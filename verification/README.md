# live_bot

The core of a live trading bot: what it keeps of each asset (order book, orders, trades, position,
latencies), its rules about orders, and the course of its waits. Connectors are reached over shared
memory; the library itself does no input or output.

- `src/` is the library, verified with Verus.
  - `types`, `errors`: the values that the bot stores, receives and publishes, and what can go wrong.
  - `depth`: the order book that a strategy supplies.
  - `model`: the state of a bot as mathematics, and what each occurrence makes of it. The contracts
    of the executable functions are stated over it.
  - `bot`: the bot. `builder`: its construction.
  - `run`: the steps of a wait, which the driver of the bot carries out.
  - `channel`: the services that make up the channel to a connector.
  - `laws`: what holds across operations.
  - `clock`: the wall clock, read through `chrono`.
- `tests/` runs the library on concrete values.
- `app/` drives the library: it opens the channels with `iceoryx2`, carries out the steps of a wait,
  and converts prices and quantities from and to doubles.

Prices, quantities and sizes pass through the library as the bits of a double. A price enters it as
a number of ticks.
