# stellarforge

Verified decision logic for a suite of token contracts: a single vesting
schedule, a factory of vesting schedules, per-second token streams, a price
oracle, an N-of-M multisig treasury and a token-weighted governor.

- `src/` is the library, verified with Verus. Each contract is a module whose
  operations take the values the contract keeps in ledger storage and the
  ledger time, and return the addresses that must authorize the call, the new
  values and the token transfers to perform (`gate.rs`, `transfer.rs`).
  Contracts are stated over spec functions in each module; the `law_*` proof
  functions state the properties that hold across operations.
- `tests/` exercises the library on concrete values.
- `app/` holds the Soroban contracts themselves: they read and write storage,
  check signatures, move tokens and publish events around the library's calls.
