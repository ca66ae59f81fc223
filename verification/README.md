# gmsol

A verified library for a perpetual and swap market on Solana: fixed-point arithmetic, pools,
fees, price impact, swaps, position impact distribution, market accounts and their staged
(revertible) copies, oracle prices and their validation, the checks made when orders and
withdrawals are created, program derived addresses, and the planning of Pyth price update
transactions.

- `src/` is the library. Every function in it carries a contract that Verus proves; the few
  calls into outside crates (`hex`, `bs58`, `anchor_lang` for address derivation) go through
  small functions whose contracts are stated next to them.
- `tests/` runs the library on concrete values.
- `app/` holds what the library cannot: serde copies of its types, `Display` and `FromStr`
  impls, and the decoding of Hermes price updates.
