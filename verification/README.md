# callora_vault

Verified state logic of the Callora vault contract, written in Verus.

- `src/` holds the library: the vault as the content of its instance
  storage (`CalloraVault`), every entry point as a verified method whose
  contract gives its refusals, its exact post-state, the address whose
  authorisation it needs and the event it emits; the mathematical model of
  the storage (`model`), calls as data and what sequences of them do
  (`calls`), and the laws proved over them (`laws`).
- `app/` is the Soroban contract around it: it demands authorisation,
  loads and stores the instance storage, reads the token balance that
  `init` needs, and publishes events.
- `tests/` exercises the library on concrete values.
