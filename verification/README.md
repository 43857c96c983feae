# venear

The verified core of a set of NEAR contracts for veNEAR staking and voting.

- `src/fraction.rs`: `numerator * a * b / denominator` computed exactly with a
  384-bit intermediate product, using 128-bit words only.
- `src/growth.rs`: the fixed-rate growth of veNEAR balances over whole seconds of
  whole-milliNEAR balances, with its monotonicity and splitting laws.
- `src/lockup_types.rs`, `src/lockup.rs`: the veNEAR accounting of a lockup contract
  (lock, begin unlock, end unlock, lock pending) as exact state transitions, each
  producing the update that is reported to the veNEAR contract.
- `src/account.rs`: account records of the veNEAR contract and the paging of
  account listings.
- `src/review.rs`: approval and rejection of voting proposals.
- `app/`: the NEAR contract surface (blockchain reads, promises, storage, JSON and
  Borsh forms) around the library.
- `tests/`: scenarios and concrete checks of the laws.
