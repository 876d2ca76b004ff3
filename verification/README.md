# dollarbill

Verified core of an options-trading toolkit, written in Verus.

- `src/` — the library, verified by Verus:
  - `alpaca/` — OCC option symbols (parser, builder, round trip), order
    construction from strategy signals (expiry rounded to a Friday), the
    REST client's retry and polling policy, endpoint paths, and the live
    bot's calendar rule for closing positions, its per-tick gate and its
    daily-spend circuit breaker.
  - `order_path.rs` — the pre-submission pipeline: signal check, sizing,
    order building, OCC validation, client order ids.
  - `backtesting/` — Reg T margin rules, liquidity tiers, holding periods,
    and the exact-decimal ledger (`rust_decimal` behind trusted wrappers).
  - `analysis/`, `config.rs`, `market_data/`, `models/` — regime weights,
    stock universes, strategy recommendations, pricing-method settings,
    option-chain expiration dates.
  - `rng.rs` — the integer generators behind the Monte Carlo and CMA-ES
    samplers; `calendar.rs` — dates, with `chrono` behind trusted wrappers.
- `tests/` — integration tests of the library.
- `app/` — the command-line front end (files, environment, clock, printing).

Money amounts are fixed-point: prices and strikes in thousandths of a
dollar, weights in hundredths, volatilities in basis points, confidences in basis points; ledger
amounts are decimal mantissa and scale.
