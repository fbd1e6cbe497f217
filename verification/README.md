# belugaswap

A concentrated-liquidity AMM for Soroban whose core is written and proved in
Verus: Q64.64 fixed-point math, tick and position bookkeeping, a multi-tick swap
engine with per-step fees and a creator share, and the decisions of the pool,
factory and router contracts.

## Layout

- `src/` — the verified library.
  - `math/` — Q64.64 arithmetic (with a full-width multiply-divide), tick ↔
    square-root price conversion, amount/liquidity formulas, and their laws.
  - `tick/`, `position/` — tick updates, crossings and fee growth; position fee
    accounting; laws relating successive calls.
  - `swap/` — the swap engine, quotes and previews, stated against a recursive
    model of a swap run; laws on the price limit, on the direction the price
    moves, and on quote/execution agreement.
  - `pool/`, `factory/`, `router/` — what each contract entry point decides,
    from plain values to plain values; laws on add/remove round trips, fee
    collection, creator locks and fee tiers.
  - `host.rs` — the host environment type, carried through signatures.
- `app/` — the Soroban contracts: storage, authorization, token transfers,
  cross-contract calls and events around the library.
- `tests/` — tests run against the library.
