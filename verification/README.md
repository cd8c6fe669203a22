# water_credits

The water-credit token and its companion contracts, verified with Verus.

- `src/` — the verified library: the token ledger (`token.rs`) with its
  mathematical model, the arithmetic rules every request decides by
  (`rules.rs`), the sum of balances (`map_sum.rs`), accounts and
  authorizations (`account.rs`), the laws that span requests (`laws.rs`) and
  the companion contracts (`contracts.rs`).
- `app/` — the Soroban contracts: host storage and authorization around the
  verified rules.
- `tests/` — scenarios run against the library.
