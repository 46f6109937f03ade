# polymarket_orders

Order construction for a prediction-market exchange client, verified with Verus.

- `src/decimal.rs` — decimals as `rust_decimal` represents them (mantissa, scale,
  sign flag), with the `rust_decimal` operations the builders use behind
  wrappers whose contracts state their results; lemmas on powers of ten and
  truncation.
- `src/types.rs` — addresses, words, sides, order types, signature types,
  amounts, tick sizes, times, books and orders.
- `src/order_builder.rs` — the builder, its setters, limit orders of both
  versions, second-version assembly, salts, timestamps and the quantization of
  amounts to millionths.
- `src/market_order.rs` — market orders: the price from the book's depth and the
  amounts of collateral and share orders.
- `src/order_laws.rs` — properties across the builders.
- `src/overflow.rs` — exact tests of whether a decimal sum, product or quotient
  stays within `Decimal::MAX`, which the `try_` builds run before the
  arithmetic that would otherwise overflow.
- `src/ctf.rs` — the routing decisions of the conditional-token client.
- `app/` — the queries, clock, randomness, conversions and contract calls
  around the library.
- `tests/` — tests of the library on concrete values.
