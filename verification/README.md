# carbonite

A proof-of-skills contract for NEAR, verified with Verus. The owner whitelists
companies; companies post tasks with rewards; users with carbonite sub-accounts
mint an NFT, accept invites and build up a record of completed tasks.

- `src/` — the verified library: the contract state (`Contract`), its
  string-keyed collections (`collections`), every contract method with its
  contract, the account-name checks, the storage-deposit arithmetic, and the
  properties that hold across calls (`laws`). Calls into `near_sdk::env` are the
  trusted items of `runtime`. Methods that need the call's context come in two
  forms: one that takes the caller, time or contract account as arguments, and
  one that reads them from the runtime.
- The contract state is held in `StrMap`/`StrSet`, vectors without repeated
  keys, in place of near-sdk's storage-backed collections (`UnorderedMap`,
  `LookupMap`, `UnorderedSet`, `LazyOption`). Those keep their contents in the
  runtime's key-value storage, not in the value, so what they hold is not a
  function of the value and cannot be named; and the library's types cannot
  implement their Borsh bounds. The storage prefixes (`StorageKey`) go with them;
  `hash_account_id`, which made the per-account prefixes, is kept.
- `app/` — the NEAR entry points: they convert the stored state to the library's
  types and back, measure storage, and schedule the transfers and account
  creations that the library returns as `PromiseAction`s.
- `tests/` — tests of the library, run against the mocked NEAR runtime.
