# rwa_compliance

Verified compliance modules for real-world asset tokens: country allow and
restriction lists, initial lockup periods, per-identity balance caps, supply
caps, time-windowed transfer limits and address allowlists.

- `src/` is the library, written and proved with Verus. Each module's state
  is a value of its own type; accounts, tokens, identities and contracts are
  named by `u64` identifiers. Answers of other contracts (identities, country
  entries, hook registrations) and the ledger time are passed in as
  arguments, refusals are returned as `Err`, and events are returned as
  values. Properties that span several calls are proved in the `laws` files.
- `src/compliance/modules/` holds the earlier generation of the modules,
  which shares the state types and most logic with `src/compliance_modules/`.
- `tests/` exercises the library on concrete values.
- `app/` is the Soroban glue: the address book, the clients of the identity
  registry and the compliance contract, contract-type copies of the value
  types, and event publication.
