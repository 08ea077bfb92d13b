# solana_crowdfunding

A crowdfunding program for Solana, with its instruction logic verified by Verus.

- `src/` is the verified library. `state.rs` holds the account types
  (`Campaign`, `Contribution`, `Pubkey`, `Transfer`), `error.rs` the errors,
  `instructions/` one handler per instruction with its contract, and
  `laws.rs` the properties of the program as a whole (the well-formedness
  invariant, the ledger of contributions, the vault covering what was
  raised, the exclusivity of payout and
  refunds, and the finality of claims, cancellations and failed campaigns).
- `app/` is the Anchor program around it: account validation, the clock,
  the system-program transfers and account storage.
- `tests/` runs the instructions against an in-memory ledger.
