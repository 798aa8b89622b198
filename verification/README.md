# yieldvault-contract

A share-based (ERC4626-style) yield vault, verified with Verus.

- `src/math.rs` — share/asset conversion (`mul_div`, `convert_to_shares`,
  `convert_to_assets`, `price_per_share`, `share_fraction_bps`), each with an
  exact contract, and the rounding lemmas.
- `src/vault.rs` — `YieldVault`, the vault's instance state, and the decision
  of each operation (`initialize`, `deposit`, `withdraw`, `accrue_yield`, the
  getters and previews).
- `src/laws.rs` — properties across operations: single initialization, no
  gain from depositing and withdrawing at once, yield never lowering share
  value, and the share supply matching the sum of balances.
- `app/` — the Soroban contract: storage, authorization, token transfers and
  events around the library.
