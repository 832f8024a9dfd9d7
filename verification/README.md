# mb-dark-trades, verified core

The decision logic of a dark-pool program on Solana, verified with Verus.
Users place buy or sell intents funded by a deposit; a matcher crosses a
sell intent with a buy intent at an oracle price, moving lamports between
the deposit accounts and token units between their vaults; filled intents
are settled back to the base layer and their deposits withdrawn.

- `src/` is the verified library: the seed scheme of the program-derived
  accounts (`instructions/mod.rs`), each instruction's logic
  (`instructions/*.rs`), the account state (`state.rs`), and the trusted
  wrappers around the token-account codec (`token.rs`) and the
  program-address search (`pda.rs`).
- `app/` is the on-chain program around it: account validation with Anchor,
  the clock, reading and writing account data, and the token, system,
  permission, delegation and commit invocations that the library's results
  call for.
- `tests/` run the library on concrete accounts.
