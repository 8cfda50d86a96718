# dexchain

A verified library for an Ethereum-compatible Substrate chain:

- `evm_accounts`: the two-way mapping between Substrate account ids and EVM
  addresses (claims proved by an Ethereum signature, generated default
  addresses, lookups, clean-up of killed accounts, origin transactions).
- `signing`: the message that Ethereum's `personal_sign` signs, signing and
  address recovery.
- `randomness`: the `random(bytes32)` precompile and its ABI reading and
  writing.
- `constants`: money, time and fee constants of the runtime.
- `laws`: properties that relate these operations.
- `crypto`: the hashing and secp256k1 calls into `sp-io` and
  `libsecp256k1`, with what the rest relies on.

`app/` holds the runtime-side glue: conversions to the Ethereum types and the
steps that need balances, randomness or the EVM.
