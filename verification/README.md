# tradium

The verified core of Tradium, a constant-product pool for Solana tokens
(SPL Token and Token-2022, with transfer-hook mints).

- `src/` is the library, verified with Verus: the pool state (`state`),
  plain 32-byte addresses (`keys`), the token program ids and the
  transfer-hook extension read through spl-token and spl-token-2022
  (`token_programs`), and one module per instruction under `instructions/`,
  each split in the steps that come between token transfers: checks,
  amounts to move, and what the pool records. `arith` holds the integer
  square root and division facts; `laws` the properties that span the
  computations (constant product, proportional deposits and withdrawals,
  the deposit/withdraw round trip).
- `app/` is the Anchor program around the library: account validation,
  token CPIs and account storage. It converts accounts to the library's
  plain values and back.
- `tests/` runs the library on concrete values.
