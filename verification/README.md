# catena_spec

The genesis and chain configurations of the Catena relay chain, verified with Verus.

- `src/keys.rs`: development keys and accounts derived from seed strings (`//Alice`, ...)
  through `sp_core` and `sp_runtime`.
- `src/genesis.rs`: the genesis state (balances, session keys, staking, the parachains
  host configuration) of the staging, development and local test networks.
- `src/chain.rs`: the chain configurations built around those genesis states.
- `src/laws.rs`: properties that hold of every genesis and every seed.
- `app/`: the JSON forms of the configurations and the reading of the live chain's file.
